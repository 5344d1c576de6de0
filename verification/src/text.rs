//! Verified text primitives: space-separated tokenization and whitespace
//! trimming.
//!
//! Move histories arrive from the platform as one space-separated string,
//! and the engine process answers in whitespace-delimited text lines; both
//! are taken apart here. Trimming normalizes game records before they are
//! digested for the content-addressed store.

use vstd::prelude::*;
use vstd::string::StrSliceExecFns;

verus! {

/// The maximal runs of non-space characters of `s`, in order. Runs are
/// separated by one or more `' '` characters; empty runs do not appear.
pub open spec fn tokens_of(s: Seq<char>) -> Seq<Seq<char>>
    decreases s.len(),
{
    if s.len() == 0 {
        Seq::empty()
    } else {
        let t = tokens_of(s.drop_last());
        let c = s.last();
        if c == ' ' {
            t
        } else if s.len() == 1 || s[s.len() - 2] == ' ' {
            t.push(seq![c])
        } else {
            t.update(t.len() as int - 1, t.last().push(c))
        }
    }
}

/// Splits `s` into its maximal runs of non-space characters, dropping all
/// `' '` separators.
pub fn split_spaces(s: &str) -> (r: Vec<String>)
    ensures
        r.deep_view() == tokens_of(s@),
{
    let n = s.unicode_len();
    let mut out: Vec<String> = Vec::new();
    let mut i: usize = 0;
    let mut start: usize = 0;
    let mut in_tok: bool = false;
    while i < n
        invariant
            n == s@.len(),
            i <= n,
            in_tok <==> (i > 0 && s@[i as int - 1] != ' '),
            in_tok ==> start < i,
            !in_tok ==> out.deep_view() == tokens_of(s@.take(i as int)),
            in_tok ==> out.deep_view().push(s@.subrange(start as int, i as int)) == tokens_of(
                s@.take(i as int),
            ),
        decreases n - i,
    {
        let c = s.get_char(i);
        proof {
            let p = s@.take(i as int + 1);
            assert(p.drop_last() =~= s@.take(i as int));
            assert(p.last() == s@[i as int]);
        }
        if c == ' ' {
            if in_tok {
                let tok = s.substring_char(start, i).to_owned();
                let ghost pre = out.deep_view();
                out.push(tok);
                proof {
                    assert(out.deep_view() =~= pre.push(s@.subrange(start as int, i as int)));
                }
            }
            in_tok = false;
        } else {
            if !in_tok {
                start = i;
                in_tok = true;
                proof {
                    let t = tokens_of(s@.take(i as int));
                    assert(s@.subrange(i as int, i as int + 1) =~= seq![s@[i as int]]);
                    assert(out.deep_view().push(s@.subrange(start as int, i as int + 1))
                        =~= t.push(seq![s@[i as int]]));
                }
            } else {
                proof {
                    let t = tokens_of(s@.take(i as int));
                    let prev = s@.subrange(start as int, i as int);
                    let cur = s@.subrange(start as int, i as int + 1);
                    assert(t == out.deep_view().push(prev));
                    assert(t.len() == out.deep_view().len() + 1);
                    assert(t.last() == prev);
                    assert(prev.push(s@[i as int]) =~= cur);
                    assert(t.update(t.len() as int - 1, t.last().push(s@[i as int]))
                        =~= out.deep_view().push(cur));
                }
            }
        }
        i += 1;
    }
    proof {
        assert(s@.take(n as int) =~= s@);
    }
    if in_tok {
        let tok = s.substring_char(start, n).to_owned();
        let ghost pre = out.deep_view();
        out.push(tok);
        proof {
            assert(out.deep_view() =~= pre.push(s@.subrange(start as int, n as int)));
        }
    }
    out
}

/// The characters stripped from the ends of a game record before digesting.
pub open spec fn is_trim_char(c: char) -> bool {
    c == ' ' || c == '\n' || c == '\r' || c == '\t'
}

/// `s` without its leading run of trim characters.
pub open spec fn ltrimmed(s: Seq<char>) -> Seq<char>
    decreases s.len(),
{
    if s.len() > 0 && is_trim_char(s.first()) {
        ltrimmed(s.drop_first())
    } else {
        s
    }
}

/// `s` without its trailing run of trim characters.
pub open spec fn rtrimmed(s: Seq<char>) -> Seq<char>
    decreases s.len(),
{
    if s.len() > 0 && is_trim_char(s.last()) {
        rtrimmed(s.drop_last())
    } else {
        s
    }
}

/// `s` without leading and trailing whitespace.
pub open spec fn trimmed(s: Seq<char>) -> Seq<char> {
    rtrimmed(ltrimmed(s))
}

/// Tests one character against the trim set.
fn is_trim_char_exec(c: char) -> (r: bool)
    ensures
        r == is_trim_char(c),
{
    c == ' ' || c == '\n' || c == '\r' || c == '\t'
}

/// Strips leading and trailing whitespace from `s`.
pub fn trim(s: &str) -> (r: String)
    ensures
        r@ == trimmed(s@),
{
    let n = s.unicode_len();
    let mut b: usize = 0;
    proof {
        assert(s@.skip(0) =~= s@);
    }
    while b < n && is_trim_char_exec(s.get_char(b))
        invariant
            n == s@.len(),
            b <= n,
            ltrimmed(s@) == ltrimmed(s@.skip(b as int)),
        decreases n - b,
    {
        proof {
            let suf = s@.skip(b as int);
            assert(suf.first() == s@[b as int]);
            assert(suf.drop_first() =~= s@.skip(b as int + 1));
        }
        b += 1;
    }
    proof {
        let suf = s@.skip(b as int);
        if b < n {
            assert(suf.first() == s@[b as int]);
        }
        assert(ltrimmed(s@) == suf);
    }
    let mut e: usize = n;
    while e > b && is_trim_char_exec(s.get_char(e - 1))
        invariant
            n == s@.len(),
            b <= e <= n,
            ltrimmed(s@) == s@.skip(b as int),
            trimmed(s@) == rtrimmed(s@.subrange(b as int, e as int)),
        decreases e,
    {
        proof {
            let part = s@.subrange(b as int, e as int);
            assert(part.last() == s@[e as int - 1]);
            assert(part.drop_last() =~= s@.subrange(b as int, e as int - 1));
            assert(s@.skip(b as int) =~= s@.subrange(b as int, n as int));
        }
        e -= 1;
    }
    proof {
        let part = s@.subrange(b as int, e as int);
        if e > b {
            assert(part.last() == s@[e as int - 1]);
        }
        assert(s@.skip(b as int) =~= s@.subrange(b as int, n as int));
        assert(rtrimmed(part) == part);
    }
    s.substring_char(b, e).to_owned()
}

} // verus!
