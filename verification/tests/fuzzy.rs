use tmux_pilot::fuzzy::{fuzzy_match, rank_scores};

#[test]
fn test_empty_query_returns_all() {
    let items = vec!["foo".to_string(), "bar".to_string(), "baz".to_string()];
    let results = fuzzy_match("", &items);
    assert_eq!(results.len(), 3);
}

#[test]
fn test_fuzzy_match_basic() {
    let items = vec![
        "Internal Transfers".to_string(),
        "APO Click".to_string(),
        "Add Fixed Term".to_string(),
    ];
    let results = fuzzy_match("int", &items);
    assert!(!results.is_empty());
    // "Internal Transfers" should be the top match
    assert_eq!(results[0].0, 0);
}

#[test]
fn test_no_match() {
    let items = vec!["foo".to_string(), "bar".to_string()];
    let results = fuzzy_match("zzz", &items);
    assert!(results.is_empty());
}

#[test]
fn empty_query_keeps_order_with_zero_scores() {
    let items = vec!["b".to_string(), "a".to_string()];
    assert_eq!(fuzzy_match("", &items), vec![(0, 0), (1, 0)]);
}

#[test]
fn results_are_sorted_best_first_and_distinct() {
    let items = vec![
        "feature one".to_string(),
        "fe".to_string(),
        "something else".to_string(),
        "feature".to_string(),
        "fxe".to_string(),
    ];
    let results = fuzzy_match("fe", &items);
    assert!(!results.is_empty());
    for w in results.windows(2) {
        assert!(w[0].1 > w[1].1 || (w[0].1 == w[1].1 && w[0].0 < w[1].0));
    }
    let mut seen: Vec<usize> = results.iter().map(|r| r.0).collect();
    seen.sort();
    seen.dedup();
    assert_eq!(seen.len(), results.len());
    assert!(seen.iter().all(|&i| i < items.len()));
    // case is ignored
    let upper = fuzzy_match("FE", &items);
    assert_eq!(upper, results);
}

#[test]
fn longest_admitted_query_scores_without_overflow() {
    let q = "a".repeat(2520);
    let items = vec![q.clone(), "b".to_string()];
    let r = fuzzy_match(&q, &items);
    assert_eq!(r.len(), 1);
    assert_eq!(r[0].0, 0);
}

#[test]
fn ranking_of_given_scores() {
    let scores = vec![Some(10), None, Some(30), Some(10), Some(0), None];
    assert_eq!(rank_scores(&scores), vec![(2, 30), (0, 10), (3, 10), (4, 0)]);
    assert_eq!(rank_scores(&vec![None, None]), vec![]);
    assert_eq!(rank_scores(&vec![]), vec![]);
}
