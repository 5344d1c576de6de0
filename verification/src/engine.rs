//! The engine bridge: the text protocol spoken to the external engine
//! process, and the state machine that owns the process lifecycle and
//! serializes requests to it.
//!
//! The protocol is line-oriented: the bridge writes a `position` line and a
//! `go` line per request, and the only output lines it interprets are those
//! whose first whitespace-delimited token is `bestmove`; the second token of
//! such a line is the chosen move. The line protocol carries no request
//! identifiers, so the bridge itself enforces that at most one request is
//! outstanding at any time — a late answer to a timed-out request is drained
//! and discarded, never delivered to a later request.

use vstd::prelude::*;
use vstd::string::StringExecFns;
use crate::text::tokens_of;
use crate::text::split_spaces;

verus! {

/// The decimal digit character for `d`.
pub open spec fn digit_char(d: nat) -> char {
    if d == 0 {
        '0'
    } else if d == 1 {
        '1'
    } else if d == 2 {
        '2'
    } else if d == 3 {
        '3'
    } else if d == 4 {
        '4'
    } else if d == 5 {
        '5'
    } else if d == 6 {
        '6'
    } else if d == 7 {
        '7'
    } else if d == 8 {
        '8'
    } else {
        '9'
    }
}

/// The decimal rendering of `n`, most significant digit first, without
/// leading zeros (`0` renders as `"0"`).
pub open spec fn dec_of(n: nat) -> Seq<char>
    decreases n,
{
    if n < 10 {
        seq![digit_char(n)]
    } else {
        dec_of(n / 10).push(digit_char(n % 10))
    }
}

/// The one-character string for the decimal digit `d`.
fn digit_str(d: u64) -> (s: &'static str)
    requires
        d < 10,
    ensures
        s@ == seq![digit_char(d as nat)],
{
    if d == 0 {
        proof {
            reveal_strlit("0");
            assert("0"@ =~= seq![digit_char(0)]);
        }
        "0"
    } else if d == 1 {
        proof {
            reveal_strlit("1");
            assert("1"@ =~= seq![digit_char(1)]);
        }
        "1"
    } else if d == 2 {
        proof {
            reveal_strlit("2");
            assert("2"@ =~= seq![digit_char(2)]);
        }
        "2"
    } else if d == 3 {
        proof {
            reveal_strlit("3");
            assert("3"@ =~= seq![digit_char(3)]);
        }
        "3"
    } else if d == 4 {
        proof {
            reveal_strlit("4");
            assert("4"@ =~= seq![digit_char(4)]);
        }
        "4"
    } else if d == 5 {
        proof {
            reveal_strlit("5");
            assert("5"@ =~= seq![digit_char(5)]);
        }
        "5"
    } else if d == 6 {
        proof {
            reveal_strlit("6");
            assert("6"@ =~= seq![digit_char(6)]);
        }
        "6"
    } else if d == 7 {
        proof {
            reveal_strlit("7");
            assert("7"@ =~= seq![digit_char(7)]);
        }
        "7"
    } else if d == 8 {
        proof {
            reveal_strlit("8");
            assert("8"@ =~= seq![digit_char(8)]);
        }
        "8"
    } else {
        proof {
            reveal_strlit("9");
            assert("9"@ =~= seq![digit_char(9)]);
        }
        "9"
    }
}

/// Renders `n` in decimal.
pub fn dec_string(n: u64) -> (s: String)
    ensures
        s@ == dec_of(n as nat),
    decreases n,
{
    if n < 10 {
        digit_str(n).to_owned()
    } else {
        let mut s = dec_string(n / 10);
        s.append(digit_str(n % 10));
        proof {
            assert(dec_of((n / 10) as nat) + seq![digit_char((n % 10) as nat)] =~= dec_of(
                (n / 10) as nat,
            ).push(digit_char((n % 10) as nat)));
        }
        s
    }
}

/// The four clock fields forwarded verbatim to the engine's time-control
/// directive, all in milliseconds.
#[derive(Clone, Copy, Debug, PartialEq, Eq, Structural)]
pub struct ClockBudget {
    /// White's remaining time.
    pub wtime: u64,
    /// White's increment per move.
    pub winc: u64,
    /// Black's remaining time.
    pub btime: u64,
    /// Black's increment per move.
    pub binc: u64,
}

/// The moves of `hist` joined with single spaces.
pub open spec fn joined(hist: Seq<Seq<char>>) -> Seq<char>
    decreases hist.len(),
{
    if hist.len() == 0 {
        Seq::empty()
    } else if hist.len() == 1 {
        hist[0]
    } else {
        joined(hist.drop_last()) + seq![' '] + hist.last()
    }
}

/// The `position` directive establishing the position via the full move
/// history, never a diff.
pub open spec fn position_command_spec(hist: Seq<Seq<char>>) -> Seq<char> {
    if hist.len() == 0 {
        "position startpos\n"@
    } else {
        "position startpos moves "@ + joined(hist) + "\n"@
    }
}

/// The `go` directive requesting a search under the given clock budget.
pub open spec fn go_command_spec(b: ClockBudget) -> Seq<char> {
    "go wtime "@ + dec_of(b.wtime as nat) + " winc "@ + dec_of(b.winc as nat) + " btime "@
        + dec_of(b.btime as nat) + " binc "@ + dec_of(b.binc as nat) + "\n"@
}

/// Renders the `position` directive for `hist`.
pub fn position_command(hist: &Vec<String>) -> (r: String)
    ensures
        r@ == position_command_spec(hist.deep_view()),
{
    if hist.len() == 0 {
        return String::from_str("position startpos\n");
    }
    let mut s = String::from_str("position startpos moves ");
    proof {
        assert(s@ + joined(hist.deep_view().take(0)) =~= s@);
    }
    let mut j: usize = 0;
    while j < hist.len()
        invariant
            hist.deep_view().len() == hist@.len(),
            1 <= hist@.len(),
            j <= hist@.len(),
            s@ == "position startpos moves "@ + joined(hist.deep_view().take(j as int)),
        decreases hist@.len() - j,
    {
        if j > 0 {
            s.append(" ");
            proof {
                reveal_strlit(" ");
                assert(" "@ =~= seq![' ']);
            }
        }
        s.append(hist[j].as_str());
        proof {
            let h = hist.deep_view();
            let p = h.take(j as int + 1);
            assert(p.drop_last() =~= h.take(j as int));
            assert(p.last() == h[j as int]);
            if j == 0 {
                assert(joined(h.take(0)) =~= Seq::<char>::empty());
                assert(p =~= seq![h[0]]);
                assert(s@ =~= "position startpos moves "@ + joined(p));
            } else {
                assert(s@ =~= "position startpos moves "@ + (joined(h.take(j as int)) + seq![' ']
                    + h[j as int]));
                assert(s@ =~= "position startpos moves "@ + joined(p));
            }
        }
        j += 1;
    }
    s.append("\n");
    proof {
        let h = hist.deep_view();
        assert(h.take(h.len() as int) =~= h);
        assert(s@ =~= position_command_spec(h));
    }
    s
}

/// Renders the `go` directive for `b`.
pub fn go_command(b: &ClockBudget) -> (r: String)
    ensures
        r@ == go_command_spec(*b),
{
    let mut s = String::from_str("go wtime ");
    let t = dec_string(b.wtime);
    s.append(t.as_str());
    s.append(" winc ");
    let t = dec_string(b.winc);
    s.append(t.as_str());
    s.append(" btime ");
    let t = dec_string(b.btime);
    s.append(t.as_str());
    s.append(" binc ");
    let t = dec_string(b.binc);
    s.append(t.as_str());
    s.append("\n");
    proof {
        assert(s@ =~= go_command_spec(*b));
    }
    s
}

/// The move named by an engine output line: the second whitespace-delimited
/// token, provided the first token is `bestmove`. All other lines carry no
/// move and are diagnostic only.
pub open spec fn bestmove_of(line: Seq<char>) -> Option<Seq<char>> {
    let t = tokens_of(line);
    if t.len() >= 2 && t[0] == "bestmove"@ {
        Option::Some(t[1])
    } else {
        Option::None
    }
}

/// Extracts the move announced by an engine output line, if any.
pub fn parse_bestmove(line: &str) -> (r: Option<String>)
    ensures
        r matches Some(m) ==> bestmove_of(line@) == Some(m@),
        r is None ==> bestmove_of(line@) is None,
{
    let toks = split_spaces(line);
    if toks.len() >= 2 {
        let tag = String::from_str("bestmove");
        if toks[0].eq(&tag) {
            let m = toks[1].clone();
            proof {
                assert(toks.deep_view()[0] == toks@[0]@);
                assert(toks.deep_view()[1] == m@);
            }
            return Some(m);
        }
    }
    None
}

/// Lifecycle of the engine process as the bridge sees it.
#[derive(Clone, Copy, Debug, PartialEq, Eq, Structural)]
pub enum BridgeState {
    /// No process has been spawned yet.
    NotStarted,
    /// The process is running and its pipes are captured.
    Running,
    /// A pipe failed or closed; the process is unusable until externally
    /// restarted. The bridge never restarts it itself.
    Crashed,
    /// The bridge was shut down deliberately.
    Stopped,
}

/// Where the single admissible in-flight request stands.
#[derive(Clone, Copy, Debug, PartialEq, Eq, Structural)]
pub enum RequestPhase {
    /// No request is outstanding.
    Idle,
    /// A `go` was issued and its `bestmove` answer is owed.
    Awaiting,
    /// The outstanding request timed out; its late answer must still be
    /// drained and discarded before a new request may start.
    Draining,
}

/// Why the bridge refused to start a request.
#[derive(Clone, Copy, Debug, PartialEq, Eq, Structural)]
pub enum BridgeError {
    /// The engine process is not running.
    Unavailable,
    /// A request is outstanding, or a timed-out request's late answer is
    /// still owed; the caller must wait.
    Busy,
}

/// The two protocol lines that perform one request.
#[derive(Debug)]
pub struct EngineCommands {
    /// The `position` directive line.
    pub position: String,
    /// The `go` directive line.
    pub go: String,
}

/// Owns one external engine process for the process's lifetime and
/// serializes `go` requests: at most one is outstanding at any time,
/// enforced here and never left to caller discipline.
pub struct EngineBridge {
    state: BridgeState,
    phase: RequestPhase,
}

impl EngineBridge {
    /// The process lifecycle state.
    pub closed spec fn state_view(&self) -> BridgeState {
        self.state
    }

    /// The request phase.
    pub closed spec fn phase_view(&self) -> RequestPhase {
        self.phase
    }

    /// A fresh bridge: no process, no outstanding request.
    pub fn new() -> (b: EngineBridge)
        ensures
            b.state_view() is NotStarted,
            b.phase_view() is Idle,
    {
        EngineBridge { state: BridgeState::NotStarted, phase: RequestPhase::Idle }
    }

    /// Records that the process was spawned and its pipes captured.
    pub fn on_spawned(&mut self)
        requires
            old(self).state_view() is NotStarted,
        ensures
            final(self).state_view() is Running,
            final(self).phase_view() == old(self).phase_view(),
    {
        self.state = BridgeState::Running;
    }

    /// Records that spawning the process failed: fatal, no engine-backed
    /// play is possible.
    pub fn on_spawn_failed(&mut self)
        ensures
            final(self).state_view() is Crashed,
            final(self).phase_view() is Idle,
    {
        self.state = BridgeState::Crashed;
        self.phase = RequestPhase::Idle;
    }

    /// Whether the engine process is usable.
    pub fn is_running(&self) -> (r: bool)
        ensures
            r == (self.state_view() is Running),
    {
        match self.state {
            BridgeState::Running => true,
            _ => false,
        }
    }

    /// Starts one request: accepted exactly when the process is running and
    /// no earlier request is outstanding, and then yields the two protocol
    /// lines to write. A refusal leaves the bridge unchanged.
    pub fn begin_request(&mut self, hist: &Vec<String>, budget: &ClockBudget) -> (r: Result<
        EngineCommands,
        BridgeError,
    >)
        ensures
            r is Ok <==> (old(self).state_view() is Running && old(self).phase_view() is Idle),
            r matches Ok(c) ==> {
                &&& c.position@ == position_command_spec(hist.deep_view())
                &&& c.go@ == go_command_spec(*budget)
                &&& final(self).state_view() == old(self).state_view()
                &&& final(self).phase_view() is Awaiting
            },
            r matches Err(e) ==> {
                &&& *final(self) == *old(self)
                &&& (e is Unavailable <==> !(old(self).state_view() is Running))
                &&& (e is Busy <==> (old(self).state_view() is Running && !(old(
                    self,
                ).phase_view() is Idle)))
            },
    {
        if !self.is_running() {
            return Err(BridgeError::Unavailable);
        }
        match self.phase {
            RequestPhase::Idle => {
                let position = position_command(hist);
                let go = go_command(budget);
                self.phase = RequestPhase::Awaiting;
                Ok(EngineCommands { position, go })
            },
            _ => Err(BridgeError::Busy),
        }
    }

    /// Takes one output line from the process. An answer is delivered
    /// exactly when a request is awaiting one and the line announces a
    /// move; a late answer to a timed-out request is drained and discarded;
    /// every other line is diagnostic and ignored.
    pub fn on_line(&mut self, line: &str) -> (r: Option<String>)
        ensures
            final(self).state_view() == old(self).state_view(),
            r is Some <==> (old(self).phase_view() is Awaiting && bestmove_of(line@) is Some),
            r matches Some(m) ==> {
                &&& bestmove_of(line@) == Some(m@)
                &&& final(self).phase_view() is Idle
            },
            r is None ==> final(self).phase_view() == (if old(
                self,
            ).phase_view() is Draining && bestmove_of(line@) is Some {
                RequestPhase::Idle
            } else {
                old(self).phase_view()
            }),
    {
        let m = parse_bestmove(line);
        match m {
            Some(mv) => {
                match self.phase {
                    RequestPhase::Awaiting => {
                        self.phase = RequestPhase::Idle;
                        Some(mv)
                    },
                    RequestPhase::Draining => {
                        self.phase = RequestPhase::Idle;
                        None
                    },
                    RequestPhase::Idle => None,
                }
            },
            None => None,
        }
    }

    /// Gives up on the outstanding request after its bounded wait expired.
    /// Its late answer, if one ever comes, will be drained, not delivered.
    pub fn on_request_timeout(&mut self)
        ensures
            final(self).state_view() == old(self).state_view(),
            final(self).phase_view() == (if old(self).phase_view() is Awaiting {
                RequestPhase::Draining
            } else {
                old(self).phase_view()
            }),
    {
        match self.phase {
            RequestPhase::Awaiting => {
                self.phase = RequestPhase::Draining;
            },
            _ => {},
        }
    }

    /// Records that a write to the input pipe failed or that the output
    /// pipe closed: the bridge crashes, the pending request is abandoned,
    /// and all future requests fail immediately. No automatic restart.
    pub fn on_pipe_failed(&mut self)
        ensures
            final(self).state_view() is Crashed,
            final(self).phase_view() is Idle,
    {
        self.state = BridgeState::Crashed;
        self.phase = RequestPhase::Idle;
    }

    /// Shuts the bridge down deliberately.
    pub fn stop(&mut self)
        ensures
            final(self).state_view() is Stopped,
            final(self).phase_view() is Idle,
    {
        self.state = BridgeState::Stopped;
        self.phase = RequestPhase::Idle;
    }
}

/// One observable request-path interaction at the bridge.
#[derive(Clone, Copy, Debug, PartialEq, Eq, Structural)]
pub enum BridgeEvent {
    /// `begin_request` accepted a request.
    RequestAccepted,
    /// `on_line` delivered an answer to the awaiting request.
    AnswerDelivered,
    /// `on_request_timeout` gave up on the awaiting request.
    RequestTimedOut,
    /// `on_line` drained the late answer of a timed-out request.
    StaleAnswerDropped,
}

/// How many requests are in flight in phase `p`: never more than one.
pub open spec fn inflight(p: RequestPhase) -> nat {
    if p is Idle {
        0
    } else {
        1
    }
}

/// Whether the bridge, in phase `p`, can produce event `ev` — exactly the
/// conditions the methods' contracts enforce.
pub open spec fn event_enabled(p: RequestPhase, ev: BridgeEvent) -> bool {
    match ev {
        BridgeEvent::RequestAccepted => p is Idle,
        BridgeEvent::AnswerDelivered => p is Awaiting,
        BridgeEvent::RequestTimedOut => p is Awaiting,
        BridgeEvent::StaleAnswerDropped => p is Draining,
    }
}

/// The phase after event `ev` — exactly the transition the methods'
/// contracts state.
pub open spec fn event_step(p: RequestPhase, ev: BridgeEvent) -> RequestPhase {
    match ev {
        BridgeEvent::RequestAccepted => RequestPhase::Awaiting,
        BridgeEvent::AnswerDelivered => RequestPhase::Idle,
        BridgeEvent::RequestTimedOut => RequestPhase::Draining,
        BridgeEvent::StaleAnswerDropped => RequestPhase::Idle,
    }
}

/// The phase reached from `p0` by the events of `evs`, in order.
pub open spec fn run_phase(p0: RequestPhase, evs: Seq<BridgeEvent>) -> RequestPhase
    decreases evs.len(),
{
    if evs.len() == 0 {
        p0
    } else {
        event_step(run_phase(p0, evs.drop_last()), evs.last())
    }
}

/// Whether every event of `evs` is enabled where it occurs.
pub open spec fn valid_trace(p0: RequestPhase, evs: Seq<BridgeEvent>) -> bool
    decreases evs.len(),
{
    evs.len() == 0 || (valid_trace(p0, evs.drop_last()) && event_enabled(
        run_phase(p0, evs.drop_last()),
        evs.last(),
    ))
}

/// How many times `ev` occurs in `evs`.
pub open spec fn count_of(evs: Seq<BridgeEvent>, ev: BridgeEvent) -> nat
    decreases evs.len(),
{
    if evs.len() == 0 {
        0
    } else {
        count_of(evs.drop_last(), ev) + (if evs.last() == ev {
            1nat
        } else {
            0
        })
    }
}

/// Whether a request is awaiting its answer in phase `p` (a timed-out
/// request no longer is: it is settled, though its late answer is still
/// owed to the drain).
pub open spec fn awaiting(p: RequestPhase) -> nat {
    if p is Awaiting {
        1
    } else {
        0
    }
}

/// Requests to the bridge are serialized and never cross-delivered: along
/// any trace of interactions the bridge admits, starting idle, each
/// accepted request has exactly one outcome — its answer is delivered, or
/// it times out (and its late answer, if one ever comes, is dropped, never
/// handed to a later request) — and at most one request is ever in flight.
/// Hence the k-th delivered answer answers the k-th request that receives
/// an answer, in order.
pub proof fn lemma_requests_serialized(p0: RequestPhase, evs: Seq<BridgeEvent>)
    requires
        p0 is Idle,
        valid_trace(p0, evs),
    ensures
        count_of(evs, BridgeEvent::RequestAccepted) == count_of(evs, BridgeEvent::AnswerDelivered)
            + count_of(evs, BridgeEvent::RequestTimedOut) + awaiting(run_phase(p0, evs)),
        inflight(run_phase(p0, evs)) <= 1,
    decreases evs.len(),
{
    if evs.len() > 0 {
        lemma_requests_serialized(p0, evs.drop_last());
        let prev = run_phase(p0, evs.drop_last());
        match evs.last() {
            BridgeEvent::RequestAccepted => {
                assert(prev is Idle);
            },
            BridgeEvent::AnswerDelivered => {
                assert(prev is Awaiting);
            },
            BridgeEvent::RequestTimedOut => {
                assert(prev is Awaiting);
            },
            BridgeEvent::StaleAnswerDropped => {
                assert(prev is Draining);
            },
        }
    }
}

} // verus!
