//! Position tracking: replaying a move history through the rules engine.
//!
//! [`reconstruct`] replays an ordered UCI move history strictly in order,
//! starting from the standard initial position or from an explicit FEN, and
//! returns the reached position, the side to move and the full legal-move
//! set — or the first illegal move together with the position before it.

use vstd::prelude::*;
use crate::rules::Board;
use crate::rules::uci_legal;
use crate::rules::legal_after;
use crate::rules::fen_after;
use crate::rules::fen_ok;
use crate::rules::fen_white;

verus! {

/// One of the two chess colors.
#[derive(Clone, Copy, Debug, PartialEq, Eq, Structural)]
pub enum Color {
    White,
    Black,
}

/// Whether replaying `hist` from `base` succeeds: every move, taken in
/// order, is legal in the position reached by the moves before it.
pub open spec fn replay_ok(base: Option<Seq<char>>, hist: Seq<Seq<char>>) -> bool
    decreases hist.len(),
{
    hist.len() == 0 || (replay_ok(base, hist.drop_last()) && uci_legal(
        base,
        hist.drop_last(),
        hist.last(),
    ))
}

/// The side to move in the starting position `base` (White for the standard
/// initial position).
pub open spec fn initial_white(base: Option<Seq<char>>) -> bool {
    match base {
        Option::None => true,
        Option::Some(f) => fen_white(f),
    }
}

/// Whether White is to move after `ply` plies from `base`: the side to move
/// alternates strictly, ply by ply.
pub open spec fn white_at(base: Option<Seq<char>>, ply: nat) -> bool {
    if ply % 2 == 0 {
        initial_white(base)
    } else {
        !initial_white(base)
    }
}

/// The starting FEN named by an optional argument, `None` for the standard
/// initial position.
pub open spec fn base_view_of(initial_fen: Option<&String>) -> Option<Seq<char>> {
    match initial_fen {
        Option::Some(f) => Option::Some(f@),
        Option::None => Option::None,
    }
}

/// The first move of the history that the rules engine rejects, with the
/// position standing before it.
#[derive(Debug)]
pub struct IllegalMoveError {
    /// Index of the offending move within the history.
    pub index: usize,
    /// The offending UCI move string.
    pub mv: String,
    /// FEN of the position before the offending move.
    pub fen_before: String,
}

/// Why a history could not be reconstructed.
#[derive(Debug)]
pub enum ReconstructError {
    /// The explicit starting FEN was rejected by the rules engine.
    BadFen,
    /// A move of the history was illegal where it stood.
    Illegal(IllegalMoveError),
}

/// A successfully reconstructed position.
#[derive(Debug)]
pub struct Reconstruction {
    /// The reached position.
    pub board: Board,
    /// The side to move in the reached position.
    pub side_to_move: Color,
    /// The UCI renderings of all legal moves in the reached position.
    pub legal: Vec<String>,
}

/// Replays `moves` strictly in order from the standard initial position, or
/// from `initial_fen` if one is given. The first illegal move aborts with
/// that move and the position before it; on success the reached position,
/// side to move and full legal-move set are returned.
pub fn reconstruct(initial_fen: Option<&String>, moves: &Vec<String>) -> (r: Result<
    Reconstruction,
    ReconstructError,
>)
    ensures
        ({
            let base = base_view_of(initial_fen);
            &&& (r matches Err(ReconstructError::BadFen) <==> (initial_fen matches Some(f)
                && !fen_ok(f@)))
            &&& (r is Ok <==> (initial_fen matches Some(f) ==> fen_ok(f@)) && replay_ok(
                base,
                moves.deep_view(),
            ))
            &&& (r matches Ok(rec) ==> {
                &&& rec.board.base_view() == base
                &&& rec.board.hist_view() == moves.deep_view()
                &&& (rec.side_to_move is White <==> white_at(base, moves.deep_view().len()))
                &&& rec.legal.deep_view() == legal_after(base, moves.deep_view())
            })
            &&& (r matches Err(ReconstructError::Illegal(e)) ==> {
                &&& e.index < moves.deep_view().len()
                &&& replay_ok(base, moves.deep_view().take(e.index as int))
                &&& !uci_legal(
                    base,
                    moves.deep_view().take(e.index as int),
                    moves.deep_view()[e.index as int],
                )
                &&& e.mv@ == moves.deep_view()[e.index as int]
                &&& e.fen_before@ == fen_after(base, moves.deep_view().take(e.index as int))
            })
        }),
{
    let ghost base = base_view_of(initial_fen);
    let (mut board, init_white): (Board, bool) = match initial_fen {
        Some(f) => {
            match Board::from_fen(f) {
                Some(p) => p,
                None => {
                    return Err(ReconstructError::BadFen);
                },
            }
        },
        None => (Board::startpos(), true),
    };
    assert(board.hist_view() =~= moves.deep_view().take(0));
    let mut i: usize = 0;
    while i < moves.len()
        invariant
            i <= moves.len(),
            moves.deep_view().len() == moves@.len(),
            base == base_view_of(initial_fen),
            initial_fen matches Some(f) ==> fen_ok(f@),
            init_white == initial_white(base),
            board.base_view() == base,
            board.hist_view() == moves.deep_view().take(i as int),
            replay_ok(base, moves.deep_view().take(i as int)),
        decreases moves.len() - i,
    {
        let ok = board.try_play(&moves[i]);
        if !ok {
            proof {
                let h = moves.deep_view();
                if replay_ok(base, h) {
                    lemma_replay_ok_prefix(base, h, i + 1);
                    assert(h.take(i + 1).drop_last() =~= h.take(i as int));
                    assert(h.take(i + 1).last() == h[i as int]);
                }
            }
            let fen_before = board.fen();
            return Err(ReconstructError::Illegal(IllegalMoveError {
                index: i,
                mv: moves[i].clone(),
                fen_before,
            }));
        }
        proof {
            let h = moves.deep_view();
            assert(h.take(i as int).push(h[i as int]) =~= h.take(i + 1));
            assert(h.take(i + 1).drop_last() =~= h.take(i as int));
        }
        i += 1;
    }
    proof {
        assert(moves.deep_view().take(i as int) =~= moves.deep_view());
        assert(replay_ok(base, moves.deep_view()));
    }
    let legal = board.legal_moves_uci();
    let white_now = if moves.len() % 2 == 0 {
        init_white
    } else {
        !init_white
    };
    let side_to_move = if white_now {
        Color::White
    } else {
        Color::Black
    };
    Ok(Reconstruction { board, side_to_move, legal })
}

/// Every prefix of a replayable history is replayable: a history that is a
/// prefix of a legal game always reconstructs successfully.
pub proof fn lemma_replay_ok_prefix(base: Option<Seq<char>>, hist: Seq<Seq<char>>, n: int)
    requires
        replay_ok(base, hist),
        0 <= n <= hist.len(),
    ensures
        replay_ok(base, hist.take(n)),
    decreases hist.len(),
{
    if n == hist.len() {
        assert(hist.take(n) =~= hist);
    } else {
        lemma_replay_ok_prefix(base, hist.drop_last(), n);
        assert(hist.drop_last().take(n) =~= hist.take(n));
    }
}

/// The side to move alternates strictly from ply to ply, starting with the
/// starting position's side to move — White from the standard initial
/// position.
pub proof fn lemma_side_alternates(base: Option<Seq<char>>, ply: nat)
    ensures
        white_at(base, ply + 1) == !white_at(base, ply),
        base is None ==> white_at(base, 0),
{
}

/// Extending a replayable history by one move keeps it replayable exactly
/// when that move is legal in the reached position.
pub proof fn lemma_replay_ok_push(base: Option<Seq<char>>, hist: Seq<Seq<char>>, m: Seq<char>)
    ensures
        replay_ok(base, hist.push(m)) <==> (replay_ok(base, hist) && uci_legal(base, hist, m)),
{
    assert(hist.push(m).drop_last() =~= hist);
    assert(hist.push(m).last() == m);
}

} // verus!
