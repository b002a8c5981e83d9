use neo_api_rs::fuzzy::FuzzySearch;
use neo_api_rs::rank::{
    best_lines, fuzzy_pattern, pattern_from_classes, rank_lines, search_pattern_args, shown_count, MAX_SHOWN,
};

fn strings(v: &[&str]) -> Vec<String> {
    v.iter().map(|s| s.to_string()).collect()
}

#[test]
fn rank_nearest_first_stable() {
    let lines = strings(&["abd", "xyz", "abc", "ab"]);
    assert_eq!(rank_lines("abc", &lines), strings(&["abc", "abd", "ab", "xyz"]));
    assert_eq!(rank_lines("q", &strings(&[])), Vec::<String>::new());
    let same = strings(&["b", "a", "c"]);
    assert_eq!(rank_lines("z", &same), same);
}

#[test]
fn shown_count_caps() {
    assert_eq!(shown_count(5), 5);
    assert_eq!(shown_count(MAX_SHOWN), MAX_SHOWN);
    assert_eq!(shown_count(10_000), MAX_SHOWN);
}

#[test]
fn fuzzy_pattern_escapes_and_folds_case() {
    assert_eq!(fuzzy_pattern(""), ".*");
    assert_eq!(fuzzy_pattern("ab/c"), ".*[Aa].*[Bb].*\\/.*[Cc].*");
    assert_eq!(fuzzy_pattern("X.1"), ".*X.*\\..*1.*");
    assert_eq!(fuzzy_pattern("ß"), ".*[SSß].*");
}

#[test]
fn pattern_from_given_classes() {
    let classes = vec![('a', Some("A".to_string())), ('\\', None), ('/', None)];
    assert_eq!(pattern_from_classes(&classes), ".*[Aa].*\\/.*");
}

#[test]
fn search_args_by_type() {
    assert_eq!(
        search_pattern_args(FuzzySearch::Directories, ".*a.*".to_string()),
        strings(&["--full-path", ".*a.*"])
    );
    assert_eq!(search_pattern_args(FuzzySearch::Files, ".*a.*".to_string()), strings(&[".*a.*"]));
}

#[test]
fn best_lines_ranks_and_caps() {
    let lines = strings(&["zz", "ab", "abc"]);
    assert_eq!(best_lines("abc", &lines), strings(&["abc", "ab", "zz"]));
    let many: Vec<String> = (0..MAX_SHOWN + 20).map(|i| format!("line{}", i)).collect();
    let best = best_lines("line1", &many);
    assert_eq!(best.len(), MAX_SHOWN);
    assert_eq!(best[0], "line1");
}
