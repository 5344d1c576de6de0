//! Trusted boundary to the outside chess rules engine.
//!
//! A [`Board`] owns one rules-engine position together with the plain data
//! that determines it: the optional starting FEN and the ordered history of
//! UCI move strings applied so far. Every contract in the crate speaks only
//! of that plain data; the engine's in-memory position is opaque and is kept
//! consistent with it by the private constructors and methods of this module.

use vstd::prelude::*;

verus! {

#[verifier::external_type_specification]
#[verifier::external_body]
pub struct ExChess(shakmaty::Chess);

#[verifier::external_type_specification]
#[verifier::external_body]
pub struct ExMove(shakmaty::Move);

/// Error when trying to play an illegal move.
pub struct PlayError<'a, P> {
    #[allow(dead_code)]
    m: &'a shakmaty::Move,
    inner: P,
}

impl<'a, P> PlayError<'a, P> {
    /// The wrapped value.
    pub closed spec fn inner_view(&self) -> P {
        self.inner
    }

    /// Hands back the wrapped value.
    pub fn into_inner(self) -> (r: P)
        ensures
            r == self.inner_view(),
    {
        self.inner
    }
}

/// Whether the UCI string `m` denotes a legal move in the position reached by
/// replaying `hist` from the position `base` (`None` = the standard initial
/// position). Names the success of shakmaty's `UciMove::to_move`.
pub uninterp spec fn uci_legal(base: Option<Seq<char>>, hist: Seq<Seq<char>>, m: Seq<char>) -> bool;

/// The UCI renderings, in generation order, of all legal moves in the
/// position reached by replaying `hist` from `base`. Names the result of
/// shakmaty's `Position::legal_moves`.
pub uninterp spec fn legal_after(base: Option<Seq<char>>, hist: Seq<Seq<char>>) -> Seq<Seq<char>>;

/// The FEN of the position reached by replaying `hist` from `base`. Names the
/// result of shakmaty's `Fen::from_position`.
pub uninterp spec fn fen_after(base: Option<Seq<char>>, hist: Seq<Seq<char>>) -> Seq<char>;

/// The EPD of the position reached by replaying `hist` from `base`. Names the
/// result of shakmaty's `Epd::from_position`.
pub uninterp spec fn epd_after(base: Option<Seq<char>>, hist: Seq<Seq<char>>) -> Seq<char>;

/// The UCI rendering of the move denoted by the SAN string `san` in the
/// position reached by replaying `hist` from `base`, or `None` if `san` does
/// not parse or denotes no legal move. Names the result of shakmaty's
/// `San::to_move`.
pub uninterp spec fn san_uci(base: Option<Seq<char>>, hist: Seq<Seq<char>>, san: Seq<char>) -> Option<Seq<char>>;

/// Whether the rules engine accepts `f` as a FEN for a playable position.
/// Names the success of shakmaty's `Fen::from_ascii` composed with
/// `Fen::into_position`.
pub uninterp spec fn fen_ok(f: Seq<char>) -> bool;

/// Whether the side to move recorded in the FEN `f` is White. Names the turn
/// field of shakmaty's parsed `Setup`.
pub uninterp spec fn fen_white(f: Seq<char>) -> bool;

/// One rules-engine position, determined by an optional starting FEN and the
/// history of UCI moves applied to it.
#[derive(Debug)]
pub struct Board {
    pos: shakmaty::Chess,
    base: Option<String>,
    hist: Vec<String>,
}

impl Board {
    /// The starting FEN, or `None` for the standard initial position.
    pub closed spec fn base_view(&self) -> Option<Seq<char>> {
        match self.base {
            Option::Some(f) => Option::Some(f@),
            Option::None => Option::None,
        }
    }

    /// The UCI moves applied so far, oldest first.
    pub closed spec fn hist_view(&self) -> Seq<Seq<char>> {
        self.hist.deep_view()
    }

    /// Relies on `shakmaty::Chess::default`: the standard initial position.
    #[verifier::external_body]
    pub fn startpos() -> (b: Board)
        ensures
            b.base_view() is None,
            b.hist_view() == Seq::<Seq<char>>::empty(),
    {
        Board { pos: shakmaty::Chess::default(), base: None, hist: Vec::new() }
    }

    /// Relies on `shakmaty::fen::Fen::from_ascii` and `Fen::into_position`
    /// (standard castling): together they succeed exactly for a FEN the rules
    /// engine accepts; and on the parsed setup's `turn` field for the side to
    /// move recorded in the FEN.
    #[verifier::external_body]
    pub fn from_fen(f: &String) -> (r: Option<(Board, bool)>)
        ensures
            r is Some <==> fen_ok(f@),
            r matches Some(p) ==> {
                &&& p.0.base_view() == Some(f@)
                &&& p.0.hist_view() == Seq::<Seq<char>>::empty()
                &&& p.1 == fen_white(f@)
            },
    {
        let fen = match shakmaty::fen::Fen::from_ascii(f.as_bytes()) {
            Ok(x) => x,
            Err(_) => return None,
        };
        let white = fen.as_setup().turn == shakmaty::Color::White;
        match fen.into_position::<shakmaty::Chess>(shakmaty::CastlingMode::Standard) {
            Ok(pos) => Some((Board { pos, base: Some(f.clone()), hist: Vec::new() }, white)),
            Err(_) => None,
        }
    }

    /// Relies on `shakmaty::uci::UciMove::from_ascii` and `UciMove::to_move`,
    /// which returns `Ok` exactly when the string denotes a legal move in the
    /// current position, and on `Position::play_unchecked` to apply that
    /// legal move.
    #[verifier::external_body]
    pub fn try_play(&mut self, m: &String) -> (ok: bool)
        ensures
            ok <==> uci_legal(old(self).base_view(), old(self).hist_view(), m@),
            final(self).base_view() == old(self).base_view(),
            ok ==> final(self).hist_view() == old(self).hist_view().push(m@),
            !ok ==> final(self).hist_view() == old(self).hist_view(),
    {
        let uci = match shakmaty::uci::UciMove::from_ascii(m.as_bytes()) {
            Ok(u) => u,
            Err(_) => return false,
        };
        match uci.to_move(&self.pos) {
            Ok(mv) => {
                shakmaty::Position::play_unchecked(&mut self.pos, mv);
                self.hist.push(m.clone());
                true
            }
            Err(_) => false,
        }
    }

    /// Relies on `shakmaty::Position::legal_moves`, which generates exactly
    /// the legal moves of the current position, and `UciMove::from_standard`
    /// for their UCI renderings; `UciMove::to_move` accepts each rendering.
    #[verifier::external_body]
    pub fn legal_moves_uci(&self) -> (r: Vec<String>)
        ensures
            r.deep_view() == legal_after(self.base_view(), self.hist_view()),
            forall|i: int| 0 <= i < r.deep_view().len()
                ==> uci_legal(self.base_view(), self.hist_view(), r.deep_view()[i]),
    {
        let mut v = Vec::new();
        for m in shakmaty::Position::legal_moves(&self.pos) {
            v.push(shakmaty::uci::UciMove::from_standard(m).to_string());
        }
        v
    }

    /// Relies on `shakmaty::fen::Fen::from_position` (legal en-passant mode):
    /// the FEN is a function of the position alone.
    #[verifier::external_body]
    pub fn fen(&self) -> (r: String)
        ensures
            r@ == fen_after(self.base_view(), self.hist_view()),
    {
        shakmaty::fen::Fen::from_position(&self.pos, shakmaty::EnPassantMode::Legal).to_string()
    }

    /// Relies on `shakmaty::fen::Epd::from_position` (legal en-passant mode):
    /// the EPD is a function of the position alone.
    #[verifier::external_body]
    pub fn epd(&self) -> (r: String)
        ensures
            r@ == epd_after(self.base_view(), self.hist_view()),
    {
        shakmaty::fen::Epd::from_position(&self.pos, shakmaty::EnPassantMode::Legal).to_string()
    }

    /// Relies on `shakmaty::san::San::from_ascii` and `San::to_move`, which
    /// returns `Ok` exactly when the SAN denotes a legal move, and on
    /// `UciMove::from_standard` for that move's UCI rendering.
    #[verifier::external_body]
    pub fn san_to_uci(&self, san: &String) -> (r: Option<String>)
        ensures
            r matches Some(u) ==> {
                &&& san_uci(self.base_view(), self.hist_view(), san@) == Some(u@)
                &&& uci_legal(self.base_view(), self.hist_view(), u@)
            },
            r is None ==> san_uci(self.base_view(), self.hist_view(), san@) is None,
    {
        let s = match shakmaty::san::San::from_ascii(san.as_bytes()) {
            Ok(s) => s,
            Err(_) => return None,
        };
        match s.to_move(&self.pos) {
            Ok(mv) => Some(shakmaty::uci::UciMove::from_standard(mv).to_string()),
            Err(_) => None,
        }
    }

    /// The move history this position was reached by, oldest first.
    pub fn history(&self) -> (h: &Vec<String>)
        ensures
            h.deep_view() == self.hist_view(),
    {
        &self.hist
    }
}

} // verus!
