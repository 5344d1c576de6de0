use chessbot::engine::{
    dec_string, go_command, parse_bestmove, position_command, BridgeError, ClockBudget,
    EngineBridge,
};

fn moves(v: &[&str]) -> Vec<String> {
    v.iter().map(|s| s.to_string()).collect()
}

fn budget() -> ClockBudget {
    ClockBudget { wtime: 60000, winc: 0, btime: 60000, binc: 0 }
}

#[test]
fn decimal_rendering() {
    assert_eq!(dec_string(0), "0");
    assert_eq!(dec_string(7), "7");
    assert_eq!(dec_string(60000), "60000");
    assert_eq!(dec_string(1203), "1203");
    assert_eq!(dec_string(u64::MAX), "18446744073709551615");
}

#[test]
fn position_command_lines() {
    assert_eq!(position_command(&moves(&[])), "position startpos\n");
    assert_eq!(
        position_command(&moves(&["e2e4", "e7e5"])),
        "position startpos moves e2e4 e7e5\n"
    );
    assert_eq!(position_command(&moves(&["d2d4"])), "position startpos moves d2d4\n");
}

#[test]
fn go_command_line() {
    assert_eq!(go_command(&budget()), "go wtime 60000 winc 0 btime 60000 binc 0\n");
    let b = ClockBudget { wtime: 1, winc: 2, btime: 3, binc: 4 };
    assert_eq!(go_command(&b), "go wtime 1 winc 2 btime 3 binc 4\n");
}

#[test]
fn bestmove_parsing() {
    assert_eq!(parse_bestmove("bestmove g1f3 ponder b8c6"), Some("g1f3".to_string()));
    assert_eq!(parse_bestmove("bestmove e2e4"), Some("e2e4".to_string()));
    assert_eq!(parse_bestmove("  bestmove   d2d4  "), Some("d2d4".to_string()));
    assert_eq!(parse_bestmove("info depth 5 score cp 20"), None);
    assert_eq!(parse_bestmove("bestmove"), None);
    assert_eq!(parse_bestmove("bestmoveg1f3 x"), None);
    assert_eq!(parse_bestmove(""), None);
}

#[test]
fn bridge_answers_one_request() {
    // The bridge receives the position for 1.e4 e5 and a clock budget,
    // the process answers `bestmove g1f3 ponder b8c6`, and the request
    // resolves to g1f3.
    let mut b = EngineBridge::new();
    b.on_spawned();
    let cmds = b.begin_request(&moves(&["e2e4", "e7e5"]), &budget()).unwrap();
    assert_eq!(cmds.position, "position startpos moves e2e4 e7e5\n");
    assert_eq!(cmds.go, "go wtime 60000 winc 0 btime 60000 binc 0\n");
    assert_eq!(b.on_line("info depth 1 seldepth 1"), None);
    assert_eq!(b.on_line("bestmove g1f3 ponder b8c6"), Some("g1f3".to_string()));
}

#[test]
fn bridge_serializes_sequential_requests() {
    // N sequential requests, each awaited before the next: the k-th
    // answer resolves the k-th request.
    let replies = ["e2e4", "e7e5", "g1f3", "b8c6", "f1b5", "a7a6", "b5a4", "g8f6"];
    let mut b = EngineBridge::new();
    b.on_spawned();
    let mut hist: Vec<String> = Vec::new();
    for reply in replies.iter() {
        b.begin_request(&hist, &budget()).unwrap();
        let line = format!("bestmove {}", reply);
        let got = b.on_line(&line).unwrap();
        assert_eq!(got, *reply);
        hist.push(got);
    }
}

#[test]
fn bridge_rejects_overlapping_requests() {
    // A second request issued while the first is outstanding is rejected,
    // never silently cross-delivered.
    let mut b = EngineBridge::new();
    b.on_spawned();
    b.begin_request(&moves(&[]), &budget()).unwrap();
    assert_eq!(b.begin_request(&moves(&[]), &budget()).unwrap_err(), BridgeError::Busy);
    assert_eq!(b.on_line("bestmove e2e4"), Some("e2e4".to_string()));
    assert!(b.begin_request(&moves(&["e2e4"]), &budget()).is_ok());
}

#[test]
fn bridge_drains_late_answer_after_timeout() {
    // A request times out; its late answer is drained and discarded, and
    // only then is a new request accepted — the late answer is never
    // delivered to the new request.
    let mut b = EngineBridge::new();
    b.on_spawned();
    b.begin_request(&moves(&[]), &budget()).unwrap();
    b.on_request_timeout();
    assert_eq!(b.begin_request(&moves(&[]), &budget()).unwrap_err(), BridgeError::Busy);
    assert_eq!(b.on_line("bestmove e2e4"), None);
    let cmds = b.begin_request(&moves(&[]), &budget()).unwrap();
    assert_eq!(cmds.position, "position startpos\n");
    assert_eq!(b.on_line("bestmove d2d4"), Some("d2d4".to_string()));
}

#[test]
fn bridge_ignores_unsolicited_bestmove() {
    let mut b = EngineBridge::new();
    b.on_spawned();
    assert_eq!(b.on_line("bestmove e2e4"), None);
    assert!(b.begin_request(&moves(&[]), &budget()).is_ok());
}

#[test]
fn bridge_crash_fails_pending_and_future_requests() {
    // The pipe closes mid-request: the pending request is abandoned and
    // every later request fails immediately; no internal retry.
    let mut b = EngineBridge::new();
    b.on_spawned();
    b.begin_request(&moves(&[]), &budget()).unwrap();
    b.on_pipe_failed();
    assert!(!b.is_running());
    assert_eq!(
        b.begin_request(&moves(&[]), &budget()).unwrap_err(),
        BridgeError::Unavailable
    );
    assert_eq!(b.on_line("bestmove e2e4"), None);
}

#[test]
fn bridge_not_started_or_stopped_is_unavailable() {
    let mut b = EngineBridge::new();
    assert_eq!(
        b.begin_request(&moves(&[]), &budget()).unwrap_err(),
        BridgeError::Unavailable
    );
    let mut b2 = EngineBridge::new();
    b2.on_spawn_failed();
    assert_eq!(
        b2.begin_request(&moves(&[]), &budget()).unwrap_err(),
        BridgeError::Unavailable
    );
    let mut b3 = EngineBridge::new();
    b3.on_spawned();
    b3.stop();
    assert_eq!(
        b3.begin_request(&moves(&[]), &budget()).unwrap_err(),
        BridgeError::Unavailable
    );
}
