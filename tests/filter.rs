use gw::filter::project;

fn texts(v: &[&str]) -> Vec<String> {
    v.iter().map(|s| s.to_string()).collect()
}

#[test]
fn empty_filter_keeps_everything_in_order() {
    let t = texts(&["alpha /a", "beta /b", "gamma /c"]);
    assert_eq!(project(&t, ""), vec![0, 1, 2]);
}

#[test]
fn filter_ignores_case() {
    let t = texts(&["Alpha /src/Alpha", "beta /src/beta", "ALPHABET /x"]);
    assert_eq!(project(&t, "alpha"), vec![0, 2]);
    assert_eq!(project(&t, "BETA"), vec![1]);
    assert_eq!(project(&t, "ALPHABET"), vec![2]);
}

#[test]
fn filter_matches_substrings_of_either_field() {
    let t = texts(&["web /home/u/web", "api /srv/code/api", "docs /home/u/docs"]);
    assert_eq!(project(&t, "home"), vec![0, 2]);
    assert_eq!(project(&t, "srv"), vec![1]);
    assert_eq!(project(&t, "zzz"), Vec::<usize>::new());
}

#[test]
fn filtering_twice_gives_the_same_positions() {
    let t = texts(&["feat-a x", "main y", "feat-b z", "fix w"]);
    let once = project(&t, "feat");
    let sub: Vec<String> = once.iter().map(|&i| t[i].clone()).collect();
    let again = project(&sub, "feat");
    assert_eq!(again, (0..once.len()).collect::<Vec<usize>>());
    let back: Vec<usize> = again.iter().map(|&k| once[k]).collect();
    assert_eq!(back, once);
    assert!(once.windows(2).all(|w| w[0] < w[1]));
}
