use inetm::progress::ProgressBoard;

#[test]
fn tracks_are_independent() {
    let mut board = ProgressBoard::new();
    let a = board.add_track(String::from("aaa"), 100);
    let b = board.add_track(String::from("bbb"), 0);
    assert_eq!(a, 0);
    assert_eq!(b, 1);

    board.update(a, 40);
    assert_eq!(board.tracks[a].position_kb, 40);
    assert_eq!(board.tracks[b].position_kb, 0);

    board.finish(b, String::from("done"));
    assert!(board.tracks[b].finished);
    assert_eq!(board.tracks[b].message.as_deref(), Some("done"));
    assert!(!board.tracks[a].finished);
    assert_eq!(board.tracks[a].position_kb, 40);
}

#[test]
fn a_failed_task_leaves_its_track_unfinished() {
    let mut board = ProgressBoard::new();
    let t = board.add_track(String::from("aaa"), 10);
    board.update(t, 3);
    // The task died mid-stream: nobody calls finish.
    assert!(!board.tracks[t].finished);
    assert_eq!(board.tracks[t].position_kb, 3);
}

#[test]
fn clear_empties_the_display() {
    let mut board = ProgressBoard::new();
    board.add_track(String::from("aaa"), 10);
    board.add_track(String::from("bbb"), 10);
    board.clear();
    assert_eq!(board.tracks.len(), 0);
}
