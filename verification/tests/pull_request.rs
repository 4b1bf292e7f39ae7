use rusty_merge::pull_request::{PullRequest, PullRequestError};

#[test]
fn test_valid_with_full_url() {
    assert_eq!(
        PullRequest::valid("https://github.com/Liberatys/rusty-merge/pull/400"),
        true
    );

    assert_eq!(
        PullRequest::valid("github.com/Liberatys/rusty-merge/pull/400"),
        true
    );
}

#[test]
fn test_valid_with_relative_pull_request() {
    assert_eq!(PullRequest::valid("Liberatys/rusty-merge/pull/400"), true);
}

#[test]
fn test_valid_with_missing_pull() {
    assert_eq!(PullRequest::valid("Liberatys/rusty-merge/400"), false);

    assert_eq!(
        PullRequest::valid("https://github.com/Liberatys/rusty-merge/400"),
        false
    );
}

#[test]
fn test_valid_with_missing_repo() {
    assert_eq!(PullRequest::valid("Liberatys/pull/400"), false);

    assert_eq!(
        PullRequest::valid("https://github.com/Liberatys/pull/400"),
        false
    );
}

#[test]
fn test_valid_with_duplicate_slashes() {
    assert_eq!(PullRequest::valid("Liberatys/rusty-merge//pull/400"), true);

    assert_eq!(
        PullRequest::valid("https://github.com/Liberatys/rusty-merge//pull/400"),
        true
    );
}

#[test]
fn test_same() {
    assert_eq!(
        PullRequest {
            url: Some("://url.com".to_string()),
            ..PullRequest::default()
        }
        .same(&PullRequest {
            url: Some("https://url.com".to_string()),
            ..PullRequest::default()
        }),
        false
    );

    assert_eq!(
        PullRequest {
            url: Some("https://url.com".to_string()),
            ..PullRequest::default()
        }
        .same(&PullRequest {
            url: Some("https://url.com".to_string()),
            ..PullRequest::default()
        }),
        true
    );
}

#[test]
fn test_same_without_urls() {
    assert!(PullRequest::default().same(&PullRequest::default()));
    let with_url = PullRequest { url: Some("a/b/pull/1".to_string()), ..PullRequest::default() };
    assert!(!with_url.same(&PullRequest::default()));
    assert!(!PullRequest::default().same(&with_url));
}

#[test]
fn test_same_ignores_other_fields() {
    let one = PullRequest {
        url: Some("a/b/pull/1".to_string()),
        owner: "a".to_string(),
        repo: "b".to_string(),
        request: 1,
    };
    let other = PullRequest { url: Some("a/b/pull/1".to_string()), ..PullRequest::default() };
    assert!(one.same(&other));
}

#[test]
fn test_default_is_empty() {
    let p = PullRequest::default();
    assert_eq!(p.url, None);
    assert_eq!(p.owner, "");
    assert_eq!(p.repo, "");
    assert_eq!(p.request, 0);
}

#[test]
fn test_new_with_full_url() {
    let p = PullRequest::new("https://github.com/Liberatys/rusty-merge/pull/400".to_string())
        .unwrap();
    assert_eq!(p.url, Some("https://github.com/Liberatys/rusty-merge/pull/400".to_string()));
    assert_eq!(p.owner, "Liberatys");
    assert_eq!(p.repo, "rusty-merge");
    assert_eq!(p.request, 400);
}

#[test]
fn test_new_with_relative_pull_request() {
    let p = PullRequest::new("Liberatys/rusty-merge/pull/7".to_string()).unwrap();
    assert_eq!(p.owner, "Liberatys");
    assert_eq!(p.repo, "rusty-merge");
    assert_eq!(p.request, 7);
}

#[test]
fn test_new_with_duplicate_slashes_takes_parts_from_the_end() {
    let p = PullRequest::new("Liberatys/rusty-merge//pull/400".to_string()).unwrap();
    assert_eq!(p.owner, "rusty-merge");
    assert_eq!(p.repo, "");
    assert_eq!(p.request, 400);
}

#[test]
fn test_new_rejects_invalid_url() {
    assert_eq!(
        PullRequest::new("Liberatys/rusty-merge/400".to_string()),
        Err(PullRequestError::InvalidUrl)
    );
    assert_eq!(PullRequest::new(String::new()), Err(PullRequestError::InvalidUrl));
}

#[test]
fn test_new_rejects_bad_number() {
    assert_eq!(
        PullRequest::new("Liberatys/rusty-merge/pull/abc".to_string()),
        Err(PullRequestError::InvalidNumber)
    );
    assert_eq!(
        PullRequest::new("Liberatys/rusty-merge/pull/".to_string()),
        Err(PullRequestError::InvalidNumber)
    );
    assert_eq!(
        PullRequest::new("Liberatys/rusty-merge/pull/-4".to_string()),
        Err(PullRequestError::InvalidNumber)
    );
    assert_eq!(
        PullRequest::new("Liberatys/rusty-merge/pull/18446744073709551616".to_string()),
        Err(PullRequestError::InvalidNumber)
    );
}

#[test]
fn test_new_number_limits() {
    let p = PullRequest::new("Liberatys/rusty-merge/pull/18446744073709551615".to_string())
        .unwrap();
    assert_eq!(p.request, u64::MAX);
    let q = PullRequest::new("Liberatys/rusty-merge/pull/+12".to_string()).unwrap();
    assert_eq!(q.request, 12);
    let z = PullRequest::new("Liberatys/rusty-merge/pull/000".to_string()).unwrap();
    assert_eq!(z.request, 0);
}

#[test]
fn test_valid_edge_cases() {
    assert_eq!(PullRequest::valid(""), false);
    assert_eq!(PullRequest::valid("pull"), false);
    assert_eq!(PullRequest::valid("///pull"), false);
    assert_eq!(PullRequest::valid("a/b/c/pull"), true);
    assert_eq!(PullRequest::valid("https://github.com/pull/a/b/"), true);
}

#[test]
fn test_clone_keeps_every_field() {
    let p = PullRequest::new("Liberatys/rusty-merge/pull/400".to_string()).unwrap();
    assert_eq!(p.clone(), p);
}
