use inetm::resolve::{collect_successes, ResolveOutcome, ResolveSession};

const OWNER: &str = "microsoft";
const REPO: &str = "vscode";

fn commit_ref_body(sha: &str) -> String {
    format!(r#"{{"ref":"refs/tags/t","object":{{"type":"commit","sha":"{}"}}}}"#, sha)
}

fn annotated_ref_body(tag_obj_sha: &str) -> String {
    format!(r#"{{"ref":"refs/tags/t","object":{{"type":"tag","sha":"{}"}}}}"#, tag_obj_sha)
}

fn tag_object_body(commit_sha: &str) -> String {
    format!(r#"{{"tag":"t","object":{{"type":"commit","sha":"{}"}}}}"#, commit_sha)
}

#[test]
fn session_starts_with_the_reference_url() {
    let (_s, url) = ResolveSession::start(OWNER, REPO, "1.95.0");
    assert_eq!(url, "https://api.github.com/repos/microsoft/vscode/git/ref/tags/1.95.0");
}

#[test]
fn commit_type_reference_resolves_in_one_call() {
    let (mut s, _url) = ResolveSession::start(OWNER, REPO, "t1");
    let body = commit_ref_body("aaa");
    match s.on_response(Some(&body)) {
        ResolveOutcome::Resolved(sha) => assert_eq!(sha, "aaa"),
        _ => panic!("expected a resolution"),
    }
    assert_eq!(s.calls_made(), 1);
}

#[test]
fn annotated_tag_resolves_with_exactly_one_dereference() {
    let (mut s, _url) = ResolveSession::start(OWNER, REPO, "t2");
    let body = annotated_ref_body("deadbeef");
    let next = match s.on_response(Some(&body)) {
        ResolveOutcome::Fetch(url) => url,
        _ => panic!("expected a dereference fetch"),
    };
    assert_eq!(next, "https://api.github.com/repos/microsoft/vscode/git/tags/deadbeef");
    assert_eq!(s.calls_made(), 2);
    let body2 = tag_object_body("bbb");
    match s.on_response(Some(&body2)) {
        ResolveOutcome::Resolved(sha) => assert_eq!(sha, "bbb"),
        _ => panic!("expected a resolution"),
    }
    assert_eq!(s.calls_made(), 2);
}

#[test]
fn network_failure_fails_the_tag() {
    let (mut s, _url) = ResolveSession::start(OWNER, REPO, "t1");
    assert!(matches!(s.on_response(None), ResolveOutcome::Failed));
}

#[test]
fn malformed_reply_fails_the_tag() {
    let (mut s, _url) = ResolveSession::start(OWNER, REPO, "t1");
    assert!(matches!(s.on_response(Some("oops")), ResolveOutcome::Failed));
}

#[test]
fn reply_without_object_sha_fails_the_tag() {
    let (mut s, _url) = ResolveSession::start(OWNER, REPO, "t1");
    assert!(matches!(
        s.on_response(Some(r#"{"object":{"type":"commit"}}"#)),
        ResolveOutcome::Failed
    ));
}

#[test]
fn dereference_failure_fails_the_tag() {
    let (mut s, _url) = ResolveSession::start(OWNER, REPO, "t2");
    let body = annotated_ref_body("deadbeef");
    assert!(matches!(s.on_response(Some(&body)), ResolveOutcome::Fetch(_)));
    assert!(matches!(s.on_response(None), ResolveOutcome::Failed));
}

#[test]
fn failures_drop_out_of_the_commit_set() {
    // One tag fails, the other succeeds: the set holds only the success and
    // the stage as a whole does not abort.
    let mut results: Vec<Option<String>> = Vec::new();

    let (mut s1, _u1) = ResolveSession::start(OWNER, REPO, "t1");
    results.push(match s1.on_response(None) {
        ResolveOutcome::Resolved(sha) => Some(sha),
        _ => None,
    });

    let (mut s2, _u2) = ResolveSession::start(OWNER, REPO, "t2");
    let b = annotated_ref_body("dead");
    let t = tag_object_body("bbb");
    let first = s2.on_response(Some(&b));
    assert!(matches!(first, ResolveOutcome::Fetch(_)));
    results.push(match s2.on_response(Some(&t)) {
        ResolveOutcome::Resolved(sha) => Some(sha),
        _ => None,
    });

    let commits = collect_successes(&results);
    assert_eq!(commits, vec!["bbb"]);
}

#[test]
fn collect_successes_keeps_completion_order() {
    let results = vec![
        Some(String::from("c1")),
        None,
        Some(String::from("c2")),
        None,
        Some(String::from("c3")),
    ];
    assert_eq!(collect_successes(&results), vec!["c1", "c2", "c3"]);
    assert!(collect_successes(&results).len() <= results.len());
}
