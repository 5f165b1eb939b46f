//! Quoting of one command-line token so that it can be appended to a command line and read
//! back as the same single argument by the usual Windows argument-splitting rules.
use vstd::prelude::*;

use crate::wide::is_nul_free;

verus! {

/// The space code unit.
pub const SPACE: u16 = 0x20;

/// The tab code unit.
pub const TAB: u16 = 0x09;

/// The line-feed code unit.
pub const LINE_FEED: u16 = 0x0a;

/// The double-quote code unit.
pub const QUOTE: u16 = 0x22;

/// The backslash code unit.
pub const BACKSLASH: u16 = 0x5c;

/// A code unit that ends or opens an argument unless it is quoted.
pub open spec fn is_special(c: u16) -> bool {
    c == SPACE || c == TAB || c == LINE_FEED || c == QUOTE
}

/// A token must be quoted when it is empty or holds a special code unit.
pub open spec fn needs_quoting(s: Seq<u16>) -> bool {
    s.len() == 0 || exists|i: int| 0 <= i < s.len() && is_special(#[trigger] s[i])
}

/// `n` backslashes.
pub open spec fn backslashes(n: nat) -> Seq<u16> {
    Seq::new(n, |i: int| BACKSLASH)
}

/// The inside of the quoted form of `s`, when `n` backslashes read just before `s` are still
/// pending: backslashes are doubled before a quote and at the end, and a quote is escaped.
pub open spec fn quoted_body(s: Seq<u16>, n: nat) -> Seq<u16>
    decreases s.len(),
{
    if s.len() == 0 {
        backslashes(2 * n)
    } else if s[0] == BACKSLASH {
        quoted_body(s.subrange(1, s.len() as int), n + 1)
    } else if s[0] == QUOTE {
        backslashes(2 * n + 1) + seq![QUOTE] + quoted_body(s.subrange(1, s.len() as int), 0)
    } else {
        backslashes(n) + seq![s[0]] + quoted_body(s.subrange(1, s.len() as int), 0)
    }
}

/// The escaped form of a token: the token itself when it needs no quoting, else the token in
/// quotes with its quotes and the backslashes before them escaped.
pub open spec fn escaped(s: Seq<u16>) -> Seq<u16> {
    if needs_quoting(s) {
        seq![QUOTE] + quoted_body(s, 0) + seq![QUOTE]
    } else {
        s
    }
}

proof fn lemma_quoted_body_nul_free(s: Seq<u16>, n: nat)
    requires
        is_nul_free(s),
    ensures
        is_nul_free(quoted_body(s, n)),
    decreases s.len(),
{
    if s.len() > 0 {
        let t = s.subrange(1, s.len() as int);
        assert(is_nul_free(t)) by {
            assert forall|i: int| 0 <= i < t.len() implies t[i] != 0 by {
                assert(t[i] == s[i + 1]);
            }
        }
        lemma_quoted_body_nul_free(t, n + 1);
        lemma_quoted_body_nul_free(t, 0);
        let b = quoted_body(s, n);
        if s[0] == QUOTE {
            let a = backslashes(2 * n + 1) + seq![QUOTE];
            assert forall|i: int| 0 <= i < b.len() implies b[i] != 0 by {
                if i >= a.len() {
                    assert(b[i] == quoted_body(t, 0)[i - a.len()]);
                }
            }
        } else if s[0] != BACKSLASH {
            let a = backslashes(n) + seq![s[0]];
            assert forall|i: int| 0 <= i < b.len() implies b[i] != 0 by {
                if i >= a.len() {
                    assert(b[i] == quoted_body(t, 0)[i - a.len()]);
                }
            }
        }
    }
}

/// Escaping keeps a nul-free token nul-free.
pub proof fn lemma_escaped_nul_free(s: Seq<u16>)
    requires
        is_nul_free(s),
    ensures
        is_nul_free(escaped(s)),
{
    if needs_quoting(s) {
        lemma_quoted_body_nul_free(s, 0);
        let e = escaped(s);
        let b = quoted_body(s, 0);
        assert forall|i: int| 0 <= i < e.len() implies e[i] != 0 by {
            if 0 < i < e.len() - 1 {
                assert(e[i] == b[i - 1]);
            }
        }
    }
}

/// Appends `n` backslashes to `out`.
fn push_backslashes(out: &mut Vec<u16>, n: usize)
    ensures
        final(out)@ == old(out)@ + backslashes(n as nat),
{
    let mut i: usize = 0;
    while i < n
        invariant
            i <= n,
            out@ == old(out)@ + backslashes(i as nat),
        decreases n - i,
    {
        out.push(BACKSLASH);
        i = i + 1;
        assert(out@ =~= old(out)@ + backslashes(i as nat));
    }
}

/// Tells whether a token must be quoted.
fn token_needs_quoting(s: &[u16]) -> (r: bool)
    ensures
        r == needs_quoting(s@),
{
    if s.len() == 0 {
        return true;
    }
    let mut i: usize = 0;
    while i < s.len()
        invariant
            i <= s.len(),
            forall|j: int| 0 <= j < i ==> !is_special(#[trigger] s@[j]),
        decreases s.len() - i,
    {
        let c = s[i];
        if c == SPACE || c == TAB || c == LINE_FEED || c == QUOTE {
            return true;
        }
        i = i + 1;
    }
    false
}

/// Escapes one command-line token: a token without spaces, tabs, line feeds or quotes is
/// returned unchanged; any other token is put in quotes, with each quote and each run of
/// backslashes before a quote or the closing quote escaped.
pub fn escape(s: &[u16]) -> (r: Vec<u16>)
    ensures
        r@ == escaped(s@),
{
    let mut out: Vec<u16> = Vec::new();
    if !token_needs_quoting(s) {
        let mut k: usize = 0;
        while k < s.len()
            invariant
                k <= s.len(),
                out@ == s@.subrange(0, k as int),
            decreases s.len() - k,
        {
            out.push(s[k]);
            k = k + 1;
            assert(out@ =~= s@.subrange(0, k as int));
        }
        assert(out@ =~= s@);
        return out;
    }
    out.push(QUOTE);
    let mut pending: usize = 0;
    let mut i: usize = 0;
    assert(s@.subrange(0, s@.len() as int) =~= s@);
    while i < s.len()
        invariant
            i <= s.len(),
            pending <= i,
            seq![QUOTE] + quoted_body(s@, 0) == out@ + quoted_body(
                s@.subrange(i as int, s@.len() as int),
                pending as nat,
            ),
        decreases s.len() - i,
    {
        let ghost rest = s@.subrange(i as int, s@.len() as int);
        let ghost before = out@;
        let c = s[i];
        assert(rest[0] == c);
        assert(rest.subrange(1, rest.len() as int) =~= s@.subrange(i + 1, s@.len() as int));
        if c == BACKSLASH {
            pending = pending + 1;
        } else if c == QUOTE {
            push_backslashes(&mut out, pending);
            push_backslashes(&mut out, pending);
            out.push(BACKSLASH);
            out.push(QUOTE);
            assert(out@ =~= before + (backslashes(2 * pending as nat + 1) + seq![QUOTE]));
            pending = 0;
        } else {
            push_backslashes(&mut out, pending);
            out.push(c);
            assert(out@ =~= before + (backslashes(pending as nat) + seq![c]));
            pending = 0;
        }
        i = i + 1;
    }
    let ghost before = out@;
    push_backslashes(&mut out, pending);
    push_backslashes(&mut out, pending);
    assert(s@.subrange(i as int, s@.len() as int) =~= Seq::<u16>::empty());
    assert(out@ =~= before + backslashes(2 * pending as nat));
    out.push(QUOTE);
    out
}

} // verus!
