//! The per-game session: consumes board-state snapshots in arrival order,
//! binds the bot's color once, recomputes the position from each snapshot's
//! full move history, and decides whether and which move to submit.
//!
//! The session is a state machine: the surrounding loop feeds it one
//! snapshot (or engine answer) at a time and performs the I/O its outcome
//! asks for. Errors local to one session never propagate to other sessions;
//! a desync between the local replay and the server's authoritative history
//! is fatal for this session alone.

use vstd::prelude::*;
use crate::engine::ClockBudget;
use crate::selector::Strategy;
use crate::selector::SelectionError;
use crate::selector::select_random;
use crate::text::tokens_of;
use crate::text::split_spaces;
use crate::tracker::Color;
use crate::tracker::IllegalMoveError;
use crate::tracker::ReconstructError;
use crate::tracker::reconstruct;
use crate::tracker::replay_ok;
use crate::tracker::white_at;
use crate::rules::legal_after;
use crate::rules::uci_legal;
use crate::rules::fen_after;

verus! {

/// One snapshot from a game's board-state stream.
#[derive(Debug)]
pub enum Snapshot {
    /// A full snapshot: both player identities and the current history.
    Full {
        /// White player's account name.
        white: String,
        /// Black player's account name.
        black: String,
        /// The full move history, UCI moves separated by single spaces.
        moves_text: String,
        /// The four clock fields of this snapshot.
        clocks: ClockBudget,
    },
    /// An incremental snapshot: the full move history and updated clocks
    /// only. The history still replaces the working copy; it is never a
    /// delta.
    Incremental {
        /// The full move history, UCI moves separated by single spaces.
        moves_text: String,
        /// The four clock fields of this snapshot.
        clocks: ClockBudget,
    },
}

/// The move text carried by a snapshot.
pub open spec fn snap_moves(s: Snapshot) -> Seq<char> {
    match s {
        Snapshot::Full { moves_text, .. } => moves_text@,
        Snapshot::Incremental { moves_text, .. } => moves_text@,
    }
}

/// The clock fields carried by a snapshot.
pub open spec fn snap_clocks(s: Snapshot) -> ClockBudget {
    match s {
        Snapshot::Full { clocks, .. } => clocks,
        Snapshot::Incremental { clocks, .. } => clocks,
    }
}

/// The color the session holds after seeing a snapshot: bound exactly once,
/// from the first full snapshot, by comparing the bot's account name
/// against the black player's name — White is the fallback.
pub open spec fn color_after_snap(old_color: Option<Color>, bot: Seq<char>, s: Snapshot) -> Option<
    Color,
> {
    match old_color {
        Option::Some(c) => Option::Some(c),
        Option::None => match s {
            Snapshot::Full { black, .. } => Option::Some(
                if bot == black@ {
                    Color::Black
                } else {
                    Color::White
                },
            ),
            Snapshot::Incremental { .. } => Option::None,
        },
    }
}

/// Whether the bot holding `color` is to move after `ply` plies from the
/// standard initial position.
pub open spec fn is_our_turn(color: Option<Color>, ply: nat) -> bool {
    match color {
        Option::Some(c) => (c is White) == white_at(Option::None, ply),
        Option::None => false,
    }
}

/// Why the session failed on a snapshot.
#[derive(Debug)]
pub enum SessionError {
    /// The session's very first snapshot was not a full snapshot.
    Protocol,
    /// The server's history contains a move the rules engine rejects:
    /// local replay diverged from the server's authoritative history,
    /// which is fatal for this session.
    Desync(IllegalMoveError),
}

/// What the surrounding loop must do after a snapshot was taken.
#[derive(Debug)]
pub enum TurnOutcome {
    /// Not the bot's turn: loop to the next snapshot, no side effects.
    NotOurTurn,
    /// Submit this move for the session's game.
    Submit {
        /// The UCI move to submit.
        mv: String,
    },
    /// Ask the engine bridge for a best move with the session's current
    /// history and clock budget, and hand the answer back to
    /// [`Session::on_engine_reply`].
    RequestEngine,
    /// Skip this turn (recoverable): log and loop to the next snapshot
    /// without submitting.
    Skip {
        /// Why no move was selected.
        why: SelectionError,
    },
}

/// One active game: its id, the bot's identity, the selection strategy,
/// the bot's color once bound, and the working copy of the move history.
pub struct Session {
    game_id: String,
    bot_name: String,
    strategy: Strategy,
    color: Option<Color>,
    hist: Vec<String>,
    clocks: ClockBudget,
    awaiting_engine: bool,
}

impl Session {
    /// The id of the game this session is bound to.
    pub closed spec fn game_id_view(&self) -> Seq<char> {
        self.game_id@
    }

    /// The bot's own account name.
    pub closed spec fn bot_view(&self) -> Seq<char> {
        self.bot_name@
    }

    /// The configured selection strategy.
    pub closed spec fn strategy_view(&self) -> Strategy {
        self.strategy
    }

    /// The bot's color, once bound from the first full snapshot.
    pub closed spec fn color_view(&self) -> Option<Color> {
        self.color
    }

    /// The working copy of the move history.
    pub closed spec fn hist_view(&self) -> Seq<Seq<char>> {
        self.hist.deep_view()
    }

    /// The latest clock fields.
    pub closed spec fn clocks_view(&self) -> ClockBudget {
        self.clocks
    }

    /// Whether an engine request is outstanding for this session.
    pub closed spec fn awaiting_view(&self) -> bool {
        self.awaiting_engine
    }

    /// A fresh session for one game, before its first snapshot.
    pub fn new(game_id: String, bot_name: String, strategy: Strategy) -> (s: Session)
        ensures
            s.game_id_view() == game_id@,
            s.bot_view() == bot_name@,
            s.strategy_view() == strategy,
            s.color_view() is None,
            s.hist_view() == Seq::<Seq<char>>::empty(),
            !s.awaiting_view(),
    {
        let s = Session {
            game_id,
            bot_name,
            strategy,
            color: None,
            hist: Vec::new(),
            clocks: ClockBudget { wtime: 0, winc: 0, btime: 0, binc: 0 },
            awaiting_engine: false,
        };
        proof {
            assert(s.hist.deep_view() =~= Seq::<Seq<char>>::empty());
        }
        s
    }

    /// The id of the game this session plays.
    pub fn game_id(&self) -> (r: &String)
        ensures
            r@ == self.game_id_view(),
    {
        &self.game_id
    }

    /// The session's working move history, for the engine bridge.
    pub fn history(&self) -> (r: &Vec<String>)
        ensures
            r.deep_view() == self.hist_view(),
    {
        &self.hist
    }

    /// The latest clock fields, for the engine bridge.
    pub fn clock_budget(&self) -> (r: ClockBudget)
        ensures
            r == self.clocks_view(),
    {
        self.clocks
    }

    /// Takes the next snapshot from the board-state stream, in arrival
    /// order. Binds the color on the first full snapshot (a first snapshot
    /// of any other kind is a protocol error), replaces the working history
    /// with the snapshot's full history, replays it, and — when it is the
    /// bot's turn — selects a move or asks for the engine.
    pub fn on_snapshot(&mut self, snap: Snapshot) -> (r: Result<TurnOutcome, SessionError>)
        ensures
            ({
                let mvs = tokens_of(snap_moves(snap));
                let proto = old(self).color_view() is None && !(snap is Full);
                let cafter = color_after_snap(old(self).color_view(), old(self).bot_view(), snap);
                &&& (r matches Err(SessionError::Protocol) <==> proto)
                &&& (proto ==> *final(self) == *old(self))
                &&& (!proto ==> {
                    &&& final(self).color_view() == cafter
                    &&& final(self).game_id_view() == old(self).game_id_view()
                    &&& final(self).bot_view() == old(self).bot_view()
                    &&& final(self).strategy_view() == old(self).strategy_view()
                })
                &&& ((r matches Err(SessionError::Desync(e))) <==> (!proto && !replay_ok(
                    Option::None,
                    mvs,
                )))
                &&& (r matches Err(SessionError::Desync(e)) ==> {
                    &&& e.index < mvs.len()
                    &&& replay_ok(Option::None, mvs.take(e.index as int))
                    &&& !uci_legal(Option::None, mvs.take(e.index as int), mvs[e.index as int])
                    &&& e.mv@ == mvs[e.index as int]
                    &&& e.fen_before@ == fen_after(Option::None, mvs.take(e.index as int))
                })
                &&& (r matches Ok(o) ==> {
                    let our = is_our_turn(cafter, mvs.len());
                    &&& final(self).hist_view() == mvs
                    &&& final(self).clocks_view() == snap_clocks(snap)
                    &&& replay_ok(Option::None, mvs)
                    &&& (o is NotOurTurn <==> !our)
                    &&& (our && old(self).strategy_view() is Random ==> {
                        &&& (o matches TurnOutcome::Submit { mv } ==> legal_after(Option::None, mvs).contains(
                            mv@,
                        ))
                        &&& (o is Submit <==> legal_after(Option::None, mvs).len() > 0)
                        &&& (o matches TurnOutcome::Skip { why } ==> why == SelectionError::NoLegalMoves)
                    })
                    &&& (our && old(self).strategy_view() is Engine ==> o is RequestEngine)
                    &&& (o is RequestEngine ==> our && old(self).strategy_view() is Engine)
                    &&& final(self).awaiting_view() == (old(self).awaiting_view()
                        || o is RequestEngine)
                })
            }),
    {
        let (moves_text, clocks): (String, ClockBudget) = match snap {
            Snapshot::Full { white: _, black, moves_text, clocks } => {
                if self.color.is_none() {
                    let c = if self.bot_name.eq(&black) {
                        Color::Black
                    } else {
                        Color::White
                    };
                    self.color = Some(c);
                }
                (moves_text, clocks)
            },
            Snapshot::Incremental { moves_text, clocks } => {
                if self.color.is_none() {
                    return Err(SessionError::Protocol);
                }
                (moves_text, clocks)
            },
        };
        let moves = split_spaces(moves_text.as_str());
        let rec = match reconstruct(None, &moves) {
            Ok(rec) => rec,
            Err(ReconstructError::Illegal(e)) => {
                return Err(SessionError::Desync(e));
            },
            Err(ReconstructError::BadFen) => {
                proof {
                    assert(false);
                }
                return Err(SessionError::Protocol);
            },
        };
        self.hist = moves;
        self.clocks = clocks;
        let c = match self.color {
            Some(c) => c,
            None => {
                proof {
                    assert(false);
                }
                return Err(SessionError::Protocol);
            },
        };
        let our_turn = rec.side_to_move == c;
        if !our_turn {
            return Ok(TurnOutcome::NotOurTurn);
        }
        match self.strategy {
            Strategy::Random => {
                match select_random(&rec.legal) {
                    Ok(mv) => Ok(TurnOutcome::Submit { mv }),
                    Err(why) => Ok(TurnOutcome::Skip { why }),
                }
            },
            Strategy::Engine => {
                self.awaiting_engine = true;
                Ok(TurnOutcome::RequestEngine)
            },
        }
    }

    /// Takes the engine's answer for this session's outstanding request:
    /// the move to submit, or nothing if no request was outstanding (a
    /// stale answer is never submitted).
    pub fn on_engine_reply(&mut self, mv: String) -> (r: Option<String>)
        ensures
            r is Some <==> old(self).awaiting_view(),
            r matches Some(m) ==> m == mv,
            !final(self).awaiting_view(),
            final(self).color_view() == old(self).color_view(),
            final(self).hist_view() == old(self).hist_view(),
            final(self).clocks_view() == old(self).clocks_view(),
            final(self).game_id_view() == old(self).game_id_view(),
            final(self).bot_view() == old(self).bot_view(),
            final(self).strategy_view() == old(self).strategy_view(),
    {
        if self.awaiting_engine {
            self.awaiting_engine = false;
            Some(mv)
        } else {
            None
        }
    }

    /// Records that the outstanding engine request failed. A timed-out
    /// request skips the turn; an unusable engine makes the session fall
    /// back to the random selector rather than stall the game, so a move
    /// from the current legal set is submitted whenever there is one. The
    /// session continues either way.
    pub fn on_engine_failed(&mut self, why: SelectionError) -> (o: TurnOutcome)
        ensures
            !final(self).awaiting_view(),
            final(self).color_view() == old(self).color_view(),
            final(self).hist_view() == old(self).hist_view(),
            final(self).clocks_view() == old(self).clocks_view(),
            final(self).game_id_view() == old(self).game_id_view(),
            final(self).bot_view() == old(self).bot_view(),
            final(self).strategy_view() == old(self).strategy_view(),
            why != SelectionError::EngineUnavailable ==> (o matches TurnOutcome::Skip {
                why: w,
            } && w == why),
            why == SelectionError::EngineUnavailable ==> ({
                let mvs = old(self).hist_view();
                &&& (o matches TurnOutcome::Submit { mv } ==> legal_after(
                    Option::None,
                    mvs,
                ).contains(mv@))
                &&& (o is Submit <==> (replay_ok(Option::None, mvs) && legal_after(
                    Option::None,
                    mvs,
                ).len() > 0))
                &&& (!(o is Submit) ==> (o matches TurnOutcome::Skip { why: w } && w
                    == SelectionError::EngineUnavailable))
            }),
    {
        self.awaiting_engine = false;
        if why == SelectionError::EngineUnavailable {
            match reconstruct(None, &self.hist) {
                Ok(rec) => {
                    match select_random(&rec.legal) {
                        Ok(mv) => TurnOutcome::Submit { mv },
                        Err(_) => TurnOutcome::Skip { why: SelectionError::EngineUnavailable },
                    }
                },
                Err(_) => TurnOutcome::Skip { why: SelectionError::EngineUnavailable },
            }
        } else {
            TurnOutcome::Skip { why }
        }
    }
}

} // verus!
