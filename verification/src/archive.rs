//! The archival pipeline's logic: content-addressed keys for game records,
//! splitting a bulk export into records, the structured per-game record
//! built while a game text is read, and the dedup-insert decision.
//!
//! A record's key is the base64 rendering of the SHA-256 digest of its
//! trimmed bytes: a pure function of the record text, so byte-identical
//! records always collide on their key, which is the sole deduplication
//! mechanism.

use vstd::prelude::*;
use vstd::string::StrSliceExecFns;
use vstd::string::StringExecFns;
use vstd::utf8::encode_utf8;
use crate::rules::Board;
use crate::rules::fen_ok;
use crate::rules::fen_after;
use crate::rules::epd_after;
use crate::rules::san_uci;
use crate::text::trim;
use crate::text::trimmed;

verus! {

/// The SHA-256 digest of `data`: a function of the input bytes alone.
/// Names the result of `ring::digest::digest` with SHA-256.
pub uninterp spec fn sha256_of(data: Seq<u8>) -> Seq<u8>;

/// The standard base64 rendering of `data`: a function of the input bytes
/// alone. Names the result of base64's standard-alphabet engine.
pub uninterp spec fn base64_of(data: Seq<u8>) -> Seq<char>;

/// Relies on `ring::digest::digest` with `SHA256`: the digest is a
/// function of the input bytes alone and is 32 bytes long.
#[verifier::external_body]
fn sha256(data: &[u8]) -> (r: Vec<u8>)
    ensures
        r@ == sha256_of(data@),
        r@.len() == 32,
{
    ring::digest::digest(&ring::digest::SHA256, data).as_ref().to_vec()
}

/// Relies on `base64::engine::general_purpose::STANDARD`'s `encode`: the
/// rendering is a function of the input bytes alone.
#[verifier::external_body]
fn base64_string(data: &[u8]) -> (r: String)
    ensures
        r@ == base64_of(data@),
{
    base64::Engine::encode(&base64::engine::general_purpose::STANDARD, data)
}

/// The content-addressed key of one game record: the base64 rendering of
/// the SHA-256 digest of the record's trimmed bytes.
pub open spec fn pgn_digest_spec(pgn: Seq<char>) -> Seq<char> {
    base64_of(sha256_of(encode_utf8(trimmed(pgn))))
}

/// Computes the content-addressed key of one game record.
pub fn pgn_digest(pgn: &str) -> (r: String)
    ensures
        r@ == pgn_digest_spec(pgn@),
{
    let t = trim(pgn);
    let h = sha256(t.as_str().as_bytes());
    base64_string(h.as_slice())
}

/// The key is a pure function of the record text: records that agree after
/// trimming — in particular byte-identical records, across repeated calls
/// and across process restarts — always receive the same key.
pub proof fn lemma_digest_deterministic(a: Seq<char>, b: Seq<char>)
    requires
        trimmed(a) == trimmed(b),
    ensures
        pgn_digest_spec(a) == pgn_digest_spec(b),
{
}

/// One PGN game record together with its content-addressed key.
#[derive(Debug)]
pub struct PgnWithDigest {
    /// The record text, as exported.
    pub pgn_str: String,
    /// The base64-rendered SHA-256 key of the trimmed record text.
    pub sha256_base64: String,
}

impl PgnWithDigest {
    /// Builds the record for `pgn_str`, keyed by the digest of its trimmed
    /// bytes.
    pub fn new(pgn_str: String) -> (r: PgnWithDigest)
        ensures
            r.pgn_str@ == pgn_str@,
            r.sha256_base64@ == pgn_digest_spec(pgn_str@),
    {
        let sha256_base64 = pgn_digest(pgn_str.as_str());
        PgnWithDigest { pgn_str, sha256_base64 }
    }

    /// Renders the record for a log line: the PGN text, then its key.
    pub fn render(&self) -> (r: String)
        ensures
            r@ == "pgn = "@ + self.pgn_str@ + "\nsha256(base64) = "@ + self.sha256_base64@,
    {
        let mut s = String::from_str("pgn = ");
        s.append(self.pgn_str.as_str());
        s.append("\nsha256(base64) = ");
        s.append(self.sha256_base64.as_str());
        proof {
            assert(s@ =~= "pgn = "@ + self.pgn_str@ + "\nsha256(base64) = "@
                + self.sha256_base64@);
        }
        s
    }
}

/// Whether a record separator (three newlines) stands at position `j`.
pub open spec fn sep_at(s: Seq<char>, j: int) -> bool {
    0 <= j && j + 3 <= s.len() && s[j] == '\n' && s[j + 1] == '\n' && s[j + 2] == '\n'
}

/// The position of the first record separator at or after `i`, or the
/// length of `s` if there is none.
pub open spec fn find_sep(s: Seq<char>, i: int) -> int
    decreases s.len() - i,
{
    if i + 3 > s.len() {
        s.len() as int
    } else if sep_at(s, i) {
        i
    } else {
        find_sep(s, i + 1)
    }
}

/// The pieces of `s` between consecutive record separators, leftmost
/// separator first; the separators themselves appear in no piece.
pub open spec fn split_records(s: Seq<char>) -> Seq<Seq<char>>
    decreases s.len(),
{
    let j = find_sep(s, 0);
    if 0 <= j && j + 3 <= s.len() {
        seq![s.subrange(0, j)] + split_records(s.skip(j + 3))
    } else {
        seq![s]
    }
}

/// Skipping over positions without a separator does not change where the
/// first separator is found.
proof fn lemma_find_sep_skip(s: Seq<char>, i: int, m: int)
    requires
        0 <= i <= m,
        forall|k: int| i <= k < m ==> !sep_at(s, k),
    ensures
        find_sep(s, i) == find_sep(s, m),
    decreases m - i,
{
    if i < m {
        lemma_find_sep_skip(s, i + 1, m);
    }
}

/// Splits a bulk export into its game records at three-newline separators.
pub fn split_game_records(text: &str) -> (r: Vec<String>)
    ensures
        r.deep_view() == split_records(text@),
{
    let n = text.unicode_len();
    let mut out: Vec<String> = Vec::new();
    let mut p: usize = 0;
    let mut i: usize = 0;
    proof {
        assert(text@.skip(0) =~= text@);
    }
    while n - i >= 3
        invariant
            n == text@.len(),
            p <= i <= n,
            out.deep_view() + split_records(text@.skip(p as int)) == split_records(text@),
            forall|k: int| 0 <= k < i - p ==> !sep_at(text@.skip(p as int), k),
        decreases n - i,
    {
        let is_sep = text.get_char(i) == '\n' && text.get_char(i + 1) == '\n' && text.get_char(
            i + 2,
        ) == '\n';
        proof {
            let suf = text@.skip(p as int);
            assert(suf[i - p as int] == text@[i as int]);
            assert(suf[i - p as int + 1] == text@[i as int + 1]);
            assert(suf[i - p as int + 2] == text@[i as int + 2]);
        }
        if is_sep {
            proof {
                let suf = text@.skip(p as int);
                lemma_find_sep_skip(suf, 0, i - p as int);
                assert(sep_at(suf, i - p as int));
                assert(find_sep(suf, i - p as int) == i - p as int);
                assert(suf.subrange(0, i - p as int) =~= text@.subrange(p as int, i as int));
                assert(suf.skip(i - p as int + 3) =~= text@.skip(i as int + 3));
            }
            let piece = text.substring_char(p, i).to_owned();
            let ghost pre = out.deep_view();
            out.push(piece);
            proof {
                assert(out.deep_view() =~= pre.push(text@.subrange(p as int, i as int)));
                assert(seq![text@.subrange(p as int, i as int)] + split_records(
                    text@.skip(i as int + 3),
                ) == split_records(text@.skip(p as int)));
                assert(pre.push(text@.subrange(p as int, i as int)) + split_records(
                    text@.skip(i as int + 3),
                ) =~= pre + (seq![text@.subrange(p as int, i as int)] + split_records(
                    text@.skip(i as int + 3),
                )));
                assert(pre + split_records(text@.skip(p as int)) =~= split_records(text@));
            }
            p = i + 3;
            i = i + 3;
        } else {
            i = i + 1;
        }
    }
    proof {
        let suf = text@.skip(p as int);
        assert forall|k: int| i - p <= k implies !sep_at(suf, k) by {
            assert(suf.len() == n - p);
        }
        lemma_find_sep_skip(suf, 0, i - p as int);
        assert(find_sep(suf, i - p as int) == suf.len() as int);
        assert(split_records(suf) =~= seq![suf]);
        assert(suf =~= text@.subrange(p as int, n as int));
    }
    let piece = text.substring_char(p, n).to_owned();
    let ghost pre = out.deep_view();
    out.push(piece);
    proof {
        assert(out.deep_view() =~= pre.push(text@.subrange(p as int, n as int)));
        assert(pre.push(text@.subrange(p as int, n as int)) =~= pre + seq![
            text@.subrange(p as int, n as int),
        ]);
        assert(out.deep_view() =~= split_records(text@));
    }
    out
}

/// Splits a bulk export into records and discards the piece after the last
/// separator — the export ends with a separator, which leaves a trailing
/// piece that is no record.
pub fn export_records(text: &str) -> (r: Vec<String>)
    ensures
        r.deep_view() == split_records(text@).drop_last(),
{
    let mut v = split_game_records(text);
    proof {
        assert(split_records(text@).len() >= 1);
    }
    let ghost pre = v.deep_view();
    let _discarded = v.pop();
    proof {
        assert(v.deep_view() =~= pre.drop_last());
    }
    v
}

/// The archival step for one record.
#[derive(Clone, Copy, Debug, PartialEq, Eq, Structural)]
pub enum ArchiveDecision {
    /// The key already exists in the store: leave the stored document
    /// untouched; never overwrite.
    AlreadyPresent,
    /// Insert the record under its key.
    Insert,
    /// The record parsed to no moves: skip it.
    SkipEmpty,
}

/// Decides the archival step for one record: a key already in the store is
/// recognized and the stored document is never overwritten; a new record
/// is inserted only when it parsed to at least one move.
pub fn archive_decision(already_present: bool, parsed_move_count: usize) -> (r: ArchiveDecision)
    ensures
        r is AlreadyPresent <==> already_present,
        r is Insert <==> (!already_present && parsed_move_count > 0),
        r is SkipEmpty <==> (!already_present && parsed_move_count == 0),
{
    if already_present {
        ArchiveDecision::AlreadyPresent
    } else if parsed_move_count > 0 {
        ArchiveDecision::Insert
    } else {
        ArchiveDecision::SkipEmpty
    }
}

/// One ply of a structured game record: the move in SAN and UCI, and the
/// FEN and EPD of the position it was played from.
#[derive(Debug)]
pub struct SanUciFenEpd {
    /// The move in standard algebraic notation, as read.
    pub san: String,
    /// The same move in UCI notation.
    pub uci: String,
    /// FEN of the position before the move.
    pub fen: String,
    /// EPD of the position before the move.
    pub epd: String,
}

/// The value a header list gives a key: the value of the last entry with
/// that key, as a later header overrides an earlier one.
pub open spec fn header_lookup(hs: Seq<(String, String)>, k: Seq<char>) -> Option<Seq<char>>
    decreases hs.len(),
{
    if hs.len() == 0 {
        Option::None
    } else if hs.last().0@ == k {
        Option::Some(hs.last().1@)
    } else {
        header_lookup(hs.drop_last(), k)
    }
}

/// One parsed game: its header key/value pairs and its structured moves.
#[derive(Debug)]
pub struct PgnMoves {
    headers: Vec<(String, String)>,
    moves: Vec<SanUciFenEpd>,
}

impl PgnMoves {
    /// The header entries, in insertion order.
    pub closed spec fn headers_view(&self) -> Seq<(String, String)> {
        self.headers@
    }

    /// The structured moves, in game order.
    pub closed spec fn moves_view(&self) -> Seq<SanUciFenEpd> {
        self.moves@
    }

    /// An empty record.
    pub fn new() -> (r: PgnMoves)
        ensures
            r.headers_view() == Seq::<(String, String)>::empty(),
            r.moves_view() == Seq::<SanUciFenEpd>::empty(),
    {
        PgnMoves { headers: Vec::new(), moves: Vec::new() }
    }

    /// Appends one structured move.
    pub fn push(&mut self, san_uci_fen_epd: SanUciFenEpd)
        ensures
            final(self).moves_view() == old(self).moves_view().push(san_uci_fen_epd),
            final(self).headers_view() == old(self).headers_view(),
    {
        self.moves.push(san_uci_fen_epd);
    }

    /// Records one header: the new entry takes effect for its key, every
    /// other key keeps its value.
    pub fn insert_header(&mut self, key: String, value: String)
        ensures
            final(self).moves_view() == old(self).moves_view(),
            final(self).headers_view() == old(self).headers_view().push((key, value)),
            header_lookup(final(self).headers_view(), key@) == Some(value@),
            forall|k2: Seq<char>| k2 != key@ ==> header_lookup(final(self).headers_view(), k2)
                == header_lookup(old(self).headers_view(), k2),
    {
        let ghost pre = self.headers@;
        self.headers.push((key, value));
        proof {
            assert(self.headers@.drop_last() =~= pre);
        }
    }

    /// How many moves the record holds.
    pub fn move_count(&self) -> (n: usize)
        ensures
            n == self.moves_view().len(),
    {
        self.moves.len()
    }

    /// The moves, for serialization or inspection.
    pub fn moves(&self) -> (r: &Vec<SanUciFenEpd>)
        ensures
            r@ == self.moves_view(),
    {
        &self.moves
    }

    /// The headers, for serialization or inspection.
    pub fn headers(&self) -> (r: &Vec<(String, String)>)
        ensures
            r@ == self.headers_view(),
    {
        &self.headers
    }

    /// The value of the header `key`, `"?"` when the record has none.
    pub fn get_header(&self, key: &String) -> (r: String)
        ensures
            (match header_lookup(self.headers_view(), key@) {
                Option::Some(v) => r@ == v,
                Option::None => r@ == "?"@,
            }),
    {
        let mut j: usize = self.headers.len();
        proof {
            assert(self.headers@.take(j as int) =~= self.headers@);
        }
        while j > 0
            invariant
                j <= self.headers@.len(),
                header_lookup(self.headers@, key@) == header_lookup(
                    self.headers@.take(j as int),
                    key@,
                ),
            decreases j,
        {
            proof {
                let t = self.headers@.take(j as int);
                assert(t.last() == self.headers@[j as int - 1]);
                assert(t.drop_last() =~= self.headers@.take(j as int - 1));
            }
            if self.headers[j - 1].0.eq(key) {
                return self.headers[j - 1].1.clone();
            }
            j -= 1;
        }
        proof {
            assert(self.headers@.take(0) =~= Seq::<(String, String)>::empty());
        }
        String::from_str("?")
    }
}

/// Builds a structured game record while a PGN game is read: headers are
/// collected, an explicit FEN header restarts the position, and each SAN
/// move is resolved against the current position, recorded with its UCI,
/// FEN and EPD, and played.
pub struct PgnRecorder {
    board: Board,
    moves: PgnMoves,
}

impl PgnRecorder {
    /// The position the next move will be resolved against.
    pub closed spec fn base_view(&self) -> Option<Seq<char>> {
        self.board.base_view()
    }

    /// The moves played into the position so far.
    pub closed spec fn hist_view(&self) -> Seq<Seq<char>> {
        self.board.hist_view()
    }

    /// The structured record collected so far.
    pub closed spec fn moves_view(&self) -> Seq<SanUciFenEpd> {
        self.moves.moves_view()
    }

    /// The header entries collected so far.
    pub closed spec fn headers_view(&self) -> Seq<(String, String)> {
        self.moves.headers_view()
    }

    /// A fresh recorder at the standard initial position.
    pub fn new() -> (r: PgnRecorder)
        ensures
            r.base_view() is None,
            r.hist_view() == Seq::<Seq<char>>::empty(),
            r.moves_view() == Seq::<SanUciFenEpd>::empty(),
            r.headers_view() == Seq::<(String, String)>::empty(),
    {
        PgnRecorder { board: Board::startpos(), moves: PgnMoves::new() }
    }

    /// Takes one header. Every header is recorded; a `FEN` header that the
    /// rules engine accepts additionally restarts the position from it, to
    /// support games from a non-standard starting position.
    pub fn header(&mut self, key: String, value: String)
        ensures
            final(self).headers_view() == old(self).headers_view().push((key, value)),
            final(self).moves_view() == old(self).moves_view(),
            (if key@ == "FEN"@ && fen_ok(value@) {
                final(self).base_view() == Some(value@) && final(self).hist_view()
                    == Seq::<Seq<char>>::empty()
            } else {
                final(self).base_view() == old(self).base_view() && final(self).hist_view()
                    == old(self).hist_view()
            }),
    {
        let fen_tag = String::from_str("FEN");
        if key.eq(&fen_tag) {
            match Board::from_fen(&value) {
                Some(p) => {
                    self.board = p.0;
                },
                None => {},
            }
        }
        self.moves.insert_header(key, value);
    }

    /// Variations are skipped: the recorder stays in the mainline.
    pub fn begin_variation(&self) -> (skip: bool)
        ensures
            skip,
    {
        true
    }

    /// Takes one SAN move. A SAN that denotes a legal move in the current
    /// position is recorded — with its UCI rendering and the FEN and EPD
    /// of the position it is played from — and played; any other SAN is
    /// ignored.
    pub fn san(&mut self, san: String) -> (recorded: bool)
        ensures
            recorded <==> san_uci(old(self).base_view(), old(self).hist_view(), san@) is Some,
            final(self).headers_view() == old(self).headers_view(),
            final(self).base_view() == old(self).base_view(),
            (match san_uci(old(self).base_view(), old(self).hist_view(), san@) {
                Option::Some(u) => {
                    &&& final(self).hist_view() == old(self).hist_view().push(u)
                    &&& final(self).moves_view().len() == old(self).moves_view().len() + 1
                    &&& final(self).moves_view().drop_last() == old(self).moves_view()
                    &&& final(self).moves_view().last().san@ == san@
                    &&& final(self).moves_view().last().uci@ == u
                    &&& final(self).moves_view().last().fen@ == fen_after(
                        old(self).base_view(),
                        old(self).hist_view(),
                    )
                    &&& final(self).moves_view().last().epd@ == epd_after(
                        old(self).base_view(),
                        old(self).hist_view(),
                    )
                },
                Option::None => {
                    &&& final(self).hist_view() == old(self).hist_view()
                    &&& final(self).moves_view() == old(self).moves_view()
                },
            }),
    {
        let u = match self.board.san_to_uci(&san) {
            Some(u) => u,
            None => {
                return false;
            },
        };
        let fen = self.board.fen();
        let epd = self.board.epd();
        let uci = u.clone();
        let played = self.board.try_play(&u);
        proof {
            assert(played);
        }
        self.moves.push(SanUciFenEpd { san, uci, fen, epd });
        proof {
            assert(self.moves.moves_view().drop_last() =~= old(self).moves_view());
        }
        true
    }

    /// Finishes the game: hands out the structured record collected so
    /// far.
    pub fn end_game(self) -> (r: PgnMoves)
        ensures
            r.moves_view() == self.moves_view(),
            r.headers_view() == self.headers_view(),
    {
        self.moves
    }
}

} // verus!
