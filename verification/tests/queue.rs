use rusty_merge::pull_request::PullRequest;
use rusty_merge::queue::PullRequestQueue;

fn item(url: &str) -> PullRequest {
    PullRequest { url: Some(url.to_string()), ..PullRequest::default() }
}

#[test]
fn test_push_twice_keeps_one_entry() {
    let mut q = PullRequestQueue::new();
    assert!(q.push(item("o/r/pull/1")));
    assert!(!q.push(item("o/r/pull/1")));
    assert_eq!(q.len(), 1);
    assert_eq!(q.list(), vec!["o/r/pull/1".to_string()]);
}

#[test]
fn test_push_twice_with_other_fields_keeps_first() {
    let mut q = PullRequestQueue::new();
    let first = PullRequest::new("o/r/pull/1".to_string()).unwrap();
    assert!(q.push(first.clone()));
    assert!(!q.push(item("o/r/pull/1")));
    assert_eq!(q.snapshot(), vec![first]);
}

#[test]
fn test_list_push_pop() {
    let mut q = PullRequestQueue::new();
    assert_eq!(q.list(), Vec::<String>::new());
    q.push(item("X"));
    assert_eq!(q.list(), vec!["X".to_string()]);
    assert!(q.pop("X"));
    assert_eq!(q.list(), Vec::<String>::new());
}

#[test]
fn test_push_keeps_insertion_order() {
    let mut q = PullRequestQueue::new();
    q.push(item("b"));
    q.push(item("a"));
    q.push(item("c"));
    q.push(item("a"));
    assert_eq!(q.list(), vec!["b".to_string(), "a".to_string(), "c".to_string()]);
}

#[test]
fn test_push_without_url_is_ignored() {
    let mut q = PullRequestQueue::new();
    assert!(!q.push(PullRequest::default()));
    assert_eq!(q.len(), 0);
}

#[test]
fn test_pop_missing_is_no_op() {
    let mut q = PullRequestQueue::new();
    q.push(item("a"));
    assert!(!q.pop("b"));
    assert_eq!(q.list(), vec!["a".to_string()]);
}

#[test]
fn test_pop_from_the_middle() {
    let mut q = PullRequestQueue::new();
    q.push(item("a"));
    q.push(item("b"));
    q.push(item("c"));
    assert!(q.pop("b"));
    assert_eq!(q.list(), vec!["a".to_string(), "c".to_string()]);
}

#[test]
fn test_clear_empties() {
    let mut q = PullRequestQueue::new();
    q.push(item("a"));
    q.push(item("b"));
    q.clear();
    assert_eq!(q.len(), 0);
    assert_eq!(q.list(), Vec::<String>::new());
}

#[test]
fn test_remove_processed_counts() {
    let mut q = PullRequestQueue::new();
    for url in ["a", "b", "c", "d", "e"] {
        q.push(item(url));
    }
    q.remove_processed(&vec![item("d"), item("a")]);
    assert_eq!(q.len(), 3);
    assert_eq!(q.list(), vec!["b".to_string(), "c".to_string(), "e".to_string()]);
}

#[test]
fn test_remove_processed_passes_over_missing() {
    let mut q = PullRequestQueue::new();
    q.push(item("a"));
    q.push(item("b"));
    q.remove_processed(&vec![item("zzz"), item("b"), item("b")]);
    assert_eq!(q.list(), vec!["a".to_string()]);
}

#[test]
fn test_snapshot_is_a_copy() {
    let mut q = PullRequestQueue::new();
    q.push(item("a"));
    let copy = q.snapshot();
    q.push(item("b"));
    assert_eq!(copy, vec![item("a")]);
    assert_eq!(q.len(), 2);
}
