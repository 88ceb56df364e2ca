use std::collections::HashSet;

use inetm::download::{make_tasks, DlPhase, DownloadRun};
use inetm::progress::ProgressBoard;
use inetm::resolve::{collect_successes, ResolveOutcome, ResolveSession};
use inetm::tags::list_tags;

// The whole pipeline at the model level: listing reply and per-tag replies
// are given as texts, the disk as a set of paths.
#[test]
fn two_tags_end_to_end() {
    let owner = "microsoft";
    let repo = "vscode";
    let count = 2usize;

    // Stage 0: the listing.
    let listing = r#"[{"tag_name":"t1"},{"tag_name":"t2"}]"#;
    let tags = list_tags(listing, count).unwrap();
    assert_eq!(tags, vec!["t1", "t2"]);
    assert!(tags.len() <= count);

    // Stage 1: resolution. "t1" is a lightweight tag on commit "aaa"; "t2"
    // is annotated and dereferences to "bbb".
    let mut results: Vec<Option<String>> = Vec::new();
    for tag in &tags {
        let (mut session, url) = ResolveSession::start(owner, repo, tag);
        assert_eq!(
            url,
            format!("https://api.github.com/repos/microsoft/vscode/git/ref/tags/{}", tag)
        );
        let reply: String = if tag == "t1" {
            r#"{"object":{"type":"commit","sha":"aaa"}}"#.to_string()
        } else {
            r#"{"object":{"type":"tag","sha":"ttt"}}"#.to_string()
        };
        let outcome = session.on_response(Some(&reply));
        let resolved = match outcome {
            ResolveOutcome::Resolved(sha) => Some(sha),
            ResolveOutcome::Fetch(next_url) => {
                assert_eq!(next_url, "https://api.github.com/repos/microsoft/vscode/git/tags/ttt");
                match session.on_response(Some(r#"{"object":{"sha":"bbb"}}"#)) {
                    ResolveOutcome::Resolved(sha) => Some(sha),
                    _ => None,
                }
            }
            ResolveOutcome::Failed => None,
        };
        results.push(resolved);
    }
    let commits = collect_successes(&results);
    assert_eq!(commits, vec!["aaa", "bbb"]);
    assert!(commits.len() <= tags.len());

    // Stage 2: download, one task per commit.
    let tasks = make_tasks("out", &commits, "x64");
    assert_eq!(tasks.len(), commits.len());

    let mut disk: HashSet<String> = HashSet::new();
    let mut board = ProgressBoard::new();
    for task in &tasks {
        let mut run = DownloadRun::start();
        run.on_response(true, Some(2048));
        let exists = disk.contains(&task.file);
        run.on_exists(exists);
        assert!(!exists);
        run.on_create(true);
        disk.insert(task.file.clone());
        let track = board.add_track(task.commit.clone(), run.total_kb);
        run.on_chunk(true, 1024);
        board.update(track, run.downloaded_kb);
        run.on_chunk(true, 1024);
        board.update(track, run.downloaded_kb);
        run.on_stream_end();
        board.finish(track, format!("Release {} downloaded", task.commit));
        assert_eq!(run.phase, DlPhase::Finished);
    }

    assert!(disk.contains("out/aaa/server-linux-x64.tar.gz"));
    assert!(disk.contains("out/bbb/server-linux-x64.tar.gz"));
    assert_eq!(disk.len(), 2);
    assert!(board.tracks.iter().all(|t| t.finished));
    board.clear();
    assert!(board.tracks.is_empty());
}
