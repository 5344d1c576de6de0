use chessbot::tracker::{reconstruct, Color, ReconstructError};
use chessbot::selector::{select_random, SelectionError, Strategy};
use chessbot::dispatcher::{dispatch, AccountEvent, DispatchAction};
use chessbot::session::{Session, SessionError, Snapshot, TurnOutcome};
use chessbot::engine::ClockBudget;

fn moves(v: &[&str]) -> Vec<String> {
    v.iter().map(|s| s.to_string()).collect()
}

fn clocks() -> ClockBudget {
    ClockBudget { wtime: 60000, winc: 0, btime: 60000, binc: 0 }
}

#[test]
fn reconstruct_startpos_empty_history() {
    let rec = reconstruct(None, &moves(&[])).unwrap();
    assert_eq!(rec.side_to_move, Color::White);
    assert_eq!(rec.legal.len(), 20);
    assert!(rec.legal.iter().any(|m| m == "e2e4"));
    assert!(rec.legal.iter().any(|m| m == "g1f3"));
}

#[test]
fn reconstruct_after_one_move() {
    let rec = reconstruct(None, &moves(&["e2e4"])).unwrap();
    assert_eq!(rec.side_to_move, Color::Black);
    assert_eq!(rec.legal.len(), 20);
    assert!(rec.legal.iter().any(|m| m == "e7e5"));
    assert!(!rec.legal.iter().any(|m| m == "e2e4"));
}

#[test]
fn reconstruct_fen_of_known_position() {
    let rec = reconstruct(None, &moves(&["e2e4", "e7e5", "g1f3"])).unwrap();
    assert_eq!(
        rec.board.fen(),
        "rnbqkbnr/pppp1ppp/8/4p3/4P3/5N2/PPPP1PPP/RNBQKB1R b KQkq - 1 2"
    );
}

#[test]
fn reconstruct_keeps_the_history() {
    let h = moves(&["e2e4", "e7e5", "g1f3"]);
    let rec = reconstruct(None, &h).unwrap();
    assert_eq!(rec.board.history(), &h);
}

#[test]
fn reconstruct_rejects_first_illegal_move() {
    let err = reconstruct(None, &moves(&["e2e4", "e2e4", "g1f3"])).unwrap_err();
    match err {
        ReconstructError::Illegal(e) => {
            assert_eq!(e.index, 1);
            assert_eq!(e.mv, "e2e4");
            assert_eq!(
                e.fen_before,
                "rnbqkbnr/pppppppp/8/8/4P3/8/PPPP1PPP/RNBQKBNR b KQkq - 0 1"
            );
        }
        other => panic!("expected illegal-move error, got {:?}", other),
    }
}

#[test]
fn reconstruct_side_alternates_over_prefixes() {
    let game = ["e2e4", "e7e5", "g1f3", "b8c6"];
    let expected = [Color::White, Color::Black, Color::White, Color::Black, Color::White];
    for n in 0..=game.len() {
        let rec = reconstruct(None, &moves(&game[..n])).unwrap();
        assert_eq!(rec.side_to_move, expected[n % 2], "after {} plies", n);
    }
}

#[test]
fn reconstruct_from_explicit_fen() {
    let fen = "rnbqkbnr/pppppppp/8/8/4P3/8/PPPP1PPP/RNBQKBNR b KQkq - 0 1".to_string();
    let rec = reconstruct(Some(&fen), &moves(&["e7e5"])).unwrap();
    assert_eq!(rec.side_to_move, Color::White);
    assert!(rec.legal.iter().any(|m| m == "g1f3"));
}

#[test]
fn reconstruct_rejects_bad_fen() {
    let fen = "this is not a fen".to_string();
    match reconstruct(Some(&fen), &moves(&[])) {
        Err(ReconstructError::BadFen) => {}
        other => panic!("expected bad-fen error, got {:?}", other.map(|_| ())),
    }
}

#[test]
fn legal_moves_round_trip() {
    let rec = reconstruct(None, &moves(&[])).unwrap();
    for m in rec.legal.iter() {
        let one = reconstruct(None, &moves(&[m])).expect("legal move must replay");
        assert_eq!(one.side_to_move, Color::Black);
    }
    assert!(reconstruct(None, &moves(&["e2e5"])).is_err());
    assert!(reconstruct(None, &moves(&["e7e5"])).is_err());
}

#[test]
fn random_selector_stays_in_set() {
    let rec = reconstruct(None, &moves(&[])).unwrap();
    for _ in 0..200 {
        let m = select_random(&rec.legal).unwrap();
        assert!(rec.legal.contains(&m));
    }
}

#[test]
fn random_selector_roughly_uniform() {
    let rec = reconstruct(None, &moves(&[])).unwrap();
    let n = rec.legal.len();
    let mut counts = vec![0usize; n];
    let trials = 2000;
    for _ in 0..trials {
        let m = select_random(&rec.legal).unwrap();
        let idx = rec.legal.iter().position(|x| *x == m).unwrap();
        counts[idx] += 1;
    }
    // Mean is 100 per move; 40 is far below any plausible uniform draw.
    for (idx, c) in counts.iter().enumerate() {
        assert!(*c >= 40, "move {} drawn only {} times in {}", rec.legal[idx], c, trials);
    }
}

#[test]
fn random_selector_fails_on_empty_set() {
    let empty: Vec<String> = Vec::new();
    assert_eq!(select_random(&empty).unwrap_err(), SelectionError::NoLegalMoves);
}

#[test]
fn dispatcher_actions() {
    match dispatch(AccountEvent::Challenge { id: "ch1".to_string() }) {
        DispatchAction::AcceptChallenge { id } => assert_eq!(id, "ch1"),
        other => panic!("expected accept, got {:?}", other),
    }
    match dispatch(AccountEvent::GameStart { game_id: "g9".to_string() }) {
        DispatchAction::StartSession { game_id } => assert_eq!(game_id, "g9"),
        other => panic!("expected session start, got {:?}", other),
    }
    assert!(matches!(dispatch(AccountEvent::Other), DispatchAction::Ignore));
}

#[test]
fn session_binds_black_and_waits() {
    // Full snapshot with black = bot account name, empty history:
    // bot is Black, White to move, not our turn, nothing submitted.
    let mut s = Session::new("game1".to_string(), "mybot".to_string(), Strategy::Random);
    let out = s
        .on_snapshot(Snapshot::Full {
            white: "alice".to_string(),
            black: "mybot".to_string(),
            moves_text: "".to_string(),
            clocks: clocks(),
        })
        .unwrap();
    assert!(matches!(out, TurnOutcome::NotOurTurn));
}

#[test]
fn session_submits_reply_to_e4() {
    // After the full snapshot, an incremental snapshot with history
    // ["e2e4"]: Black to move, our turn; the selector's move is one of
    // the legal replies to 1.e4.
    let mut s = Session::new("game1".to_string(), "mybot".to_string(), Strategy::Random);
    s.on_snapshot(Snapshot::Full {
        white: "alice".to_string(),
        black: "mybot".to_string(),
        moves_text: "".to_string(),
        clocks: clocks(),
    })
    .unwrap();
    let out = s
        .on_snapshot(Snapshot::Incremental { moves_text: "e2e4".to_string(), clocks: clocks() })
        .unwrap();
    match out {
        TurnOutcome::Submit { mv } => {
            let replies = reconstruct(None, &moves(&["e2e4"])).unwrap().legal;
            assert!(replies.contains(&mv), "{} is no legal reply to 1.e4", mv);
        }
        other => panic!("expected a submitted move, got {:?}", other),
    }
}

#[test]
fn session_first_snapshot_must_be_full() {
    let mut s = Session::new("game1".to_string(), "mybot".to_string(), Strategy::Random);
    let r = s.on_snapshot(Snapshot::Incremental {
        moves_text: "".to_string(),
        clocks: clocks(),
    });
    assert!(matches!(r, Err(SessionError::Protocol)));
}

#[test]
fn session_desync_is_fatal() {
    let mut s = Session::new("game1".to_string(), "mybot".to_string(), Strategy::Random);
    let r = s.on_snapshot(Snapshot::Full {
        white: "alice".to_string(),
        black: "mybot".to_string(),
        moves_text: "e2e4 e2e4".to_string(),
        clocks: clocks(),
    });
    match r {
        Err(SessionError::Desync(e)) => {
            assert_eq!(e.index, 1);
            assert_eq!(e.mv, "e2e4");
        }
        other => panic!("expected desync, got {:?}", other.map(|_| ())),
    }
}

#[test]
fn session_engine_strategy_requests_and_replies() {
    // Bot plays White with the engine strategy: the first full snapshot
    // puts it on move, so it asks for the engine; the engine's reply is
    // submitted once, and a stale second reply is dropped.
    let mut s = Session::new("game2".to_string(), "mybot".to_string(), Strategy::Engine);
    let out = s
        .on_snapshot(Snapshot::Full {
            white: "mybot".to_string(),
            black: "carol".to_string(),
            moves_text: "".to_string(),
            clocks: clocks(),
        })
        .unwrap();
    assert!(matches!(out, TurnOutcome::RequestEngine));
    assert_eq!(s.on_engine_reply("g1f3".to_string()), Some("g1f3".to_string()));
    assert_eq!(s.on_engine_reply("b1c3".to_string()), None);
}

#[test]
fn session_falls_back_to_random_when_engine_unavailable() {
    let mut s = Session::new("game4".to_string(), "mybot".to_string(), Strategy::Engine);
    let out = s
        .on_snapshot(Snapshot::Full {
            white: "mybot".to_string(),
            black: "carol".to_string(),
            moves_text: "".to_string(),
            clocks: clocks(),
        })
        .unwrap();
    assert!(matches!(out, TurnOutcome::RequestEngine));
    match s.on_engine_failed(SelectionError::EngineUnavailable) {
        TurnOutcome::Submit { mv } => {
            let legal = reconstruct(None, &moves(&[])).unwrap().legal;
            assert!(legal.contains(&mv));
        }
        other => panic!("expected a random fallback move, got {:?}", other),
    }
    assert_eq!(s.on_engine_reply("g1f3".to_string()), None);
}

#[test]
fn session_skips_turn_on_engine_timeout() {
    let mut s = Session::new("game5".to_string(), "mybot".to_string(), Strategy::Engine);
    s.on_snapshot(Snapshot::Full {
        white: "mybot".to_string(),
        black: "carol".to_string(),
        moves_text: "".to_string(),
        clocks: clocks(),
    })
    .unwrap();
    match s.on_engine_failed(SelectionError::Timeout) {
        TurnOutcome::Skip { why } => assert_eq!(why, SelectionError::Timeout),
        other => panic!("expected a skipped turn, got {:?}", other),
    }
}

#[test]
fn session_color_fallback_is_white() {
    // Neither name matches the bot: the fallback assigns White, so an
    // empty history is our turn.
    let mut s = Session::new("game3".to_string(), "mybot".to_string(), Strategy::Random);
    let out = s
        .on_snapshot(Snapshot::Full {
            white: "alice".to_string(),
            black: "carol".to_string(),
            moves_text: "".to_string(),
            clocks: clocks(),
        })
        .unwrap();
    assert!(matches!(out, TurnOutcome::Submit { .. }));
}
