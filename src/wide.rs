//! Wide strings: sequences of UTF-16 code units, and their nul-terminated form.
use vstd::prelude::*;

use crate::error::NulError;

verus! {

/// A wide string holds no nul code unit.
pub open spec fn is_nul_free(s: Seq<u16>) -> bool {
    forall|i: int| 0 <= i < s.len() ==> s[i] != 0
}

/// The position of the first nul code unit of `s`, or the length of `s` when it holds none.
pub open spec fn nul_index(s: Seq<u16>) -> nat
    decreases s.len(),
{
    if s.len() == 0 {
        0
    } else if s[0] == 0 {
        0
    } else {
        1 + nul_index(s.subrange(1, s.len() as int))
    }
}

/// What `nul_index` is: every unit before it is not nul, and the unit at it, if any, is nul.
pub proof fn lemma_nul_index(s: Seq<u16>)
    ensures
        nul_index(s) <= s.len(),
        forall|j: int| 0 <= j < nul_index(s) ==> s[j] != 0,
        nul_index(s) < s.len() ==> s[nul_index(s) as int] == 0,
    decreases s.len(),
{
    if s.len() > 0 && s[0] != 0 {
        let t = s.subrange(1, s.len() as int);
        lemma_nul_index(t);
        assert forall|j: int| 0 <= j < nul_index(s) implies s[j] != 0 by {
            if j > 0 {
                assert(s[j] == t[j - 1]);
            }
        }
    }
}

/// A position with no nul before it and a nul (or the end) at it is `nul_index`.
pub proof fn lemma_nul_index_unique(s: Seq<u16>, k: int)
    requires
        0 <= k <= s.len(),
        forall|j: int| 0 <= j < k ==> s[j] != 0,
        k < s.len() ==> s[k] == 0,
    ensures
        nul_index(s) == k,
{
    lemma_nul_index(s);
    if (nul_index(s) as int) < k {
        assert(s[nul_index(s) as int] != 0);
    }
    if k < (nul_index(s) as int) {
        assert(s[k] != 0);
    }
}

/// The nul index of a nul-free string followed by a nul and anything else is its length.
pub proof fn lemma_nul_index_of_terminated(v: Seq<u16>, rest: Seq<u16>)
    requires
        is_nul_free(v),
    ensures
        nul_index(v + seq![0u16] + rest) == v.len(),
{
    let s = v + seq![0u16] + rest;
    assert forall|j: int| 0 <= j < v.len() implies s[j] != 0 by {
        assert(s[j] == v[j]);
    }
    assert(s[v.len() as int] == 0);
    lemma_nul_index_unique(s, v.len() as int);
}

/// Finds the first nul code unit of `s` at or after `start`; returns the length of `s` when
/// there is none.
pub fn find_nul_from(s: &[u16], start: usize) -> (r: usize)
    requires
        start <= s.len(),
    ensures
        r == start + nul_index(s@.subrange(start as int, s@.len() as int)),
{
    let ghost t = s@.subrange(start as int, s@.len() as int);
    let mut i: usize = start;
    while i < s.len()
        invariant
            start <= i <= s.len(),
            t == s@.subrange(start as int, s@.len() as int),
            forall|j: int| 0 <= j < i - start ==> t[j] != 0,
        decreases s.len() - i,
    {
        if s[i] == 0 {
            proof {
                lemma_nul_index_unique(t, i - start);
            }
            return i;
        }
        i = i + 1;
    }
    proof {
        lemma_nul_index_unique(t, i - start);
    }
    i
}

/// Finds the first nul code unit of `s`; returns the length of `s` when there is none.
pub fn find_nul(s: &[u16]) -> (r: usize)
    ensures
        r == nul_index(s@),
{
    assert(s@.subrange(0, s@.len() as int) =~= s@);
    find_nul_from(s, 0)
}

/// Copies the code units of `s` from `lo` up to `hi` into a new vector.
pub fn copy_range(s: &[u16], lo: usize, hi: usize) -> (r: Vec<u16>)
    requires
        lo <= hi <= s.len(),
    ensures
        r@ == s@.subrange(lo as int, hi as int),
{
    let mut r: Vec<u16> = Vec::with_capacity(hi - lo);
    let mut i: usize = lo;
    while i < hi
        invariant
            lo <= i <= hi,
            hi <= s.len(),
            r@ == s@.subrange(lo as int, i as int),
        decreases hi - i,
    {
        r.push(s[i]);
        i = i + 1;
        assert(r@ =~= s@.subrange(lo as int, i as int));
    }
    r
}

/// Copies the code units of `s` into a new vector.
pub fn copy_units(s: &[u16]) -> (r: Vec<u16>)
    ensures
        r@ == s@,
{
    assert(s@.subrange(0, s@.len() as int) =~= s@);
    copy_range(s, 0, s.len())
}

/// Appends the code units of `s` to `out`.
pub fn append_units(out: &mut Vec<u16>, s: &[u16])
    ensures
        final(out)@ == old(out)@ + s@,
{
    let mut i: usize = 0;
    while i < s.len()
        invariant
            i <= s.len(),
            out@ == old(out)@ + s@.subrange(0, i as int),
        decreases s.len() - i,
    {
        out.push(s[i]);
        i = i + 1;
        assert(out@ =~= old(out)@ + s@.subrange(0, i as int));
    }
    assert(s@.subrange(0, s@.len() as int) =~= s@);
}

/// Checks that `s` holds no nul code unit and returns it with a nul terminator appended, ready
/// to be handed to the service control manager. A nul anywhere in `s` is refused, and the error
/// holds the position of the first one.
pub fn to_wide_cstring(s: &[u16]) -> (r: Result<Vec<u16>, NulError>)
    ensures
        match r {
            Ok(w) => is_nul_free(s@) && w@ == s@.push(0u16),
            Err(e) => !is_nul_free(s@) && e.0 == nul_index(s@) && (e.1 matches Some(v) && v@ == s@),
        },
{
    let k = find_nul(s);
    proof {
        lemma_nul_index(s@);
    }
    if k < s.len() {
        let v = copy_units(s);
        Err(NulError(k, Some(v)))
    } else {
        let mut w = copy_units(s);
        w.push(0u16);
        Ok(w)
    }
}

/// The optional wide strings of an optional vector.
pub open spec fn opt_units(o: Option<Vec<u16>>) -> Option<Seq<u16>> {
    match o {
        Some(v) => Some(v@),
        None => None,
    }
}

/// An optional wide string holds no nul, when it is there.
pub open spec fn opt_nul_free(o: Option<Vec<u16>>) -> bool {
    match o {
        Some(v) => is_nul_free(v@),
        None => true,
    }
}

/// The string that starts a buffer: its units up to the first nul, or all of them.
pub open spec fn text_at(tail: Seq<u16>) -> Seq<u16> {
    tail.subrange(0, nul_index(tail) as int)
}

/// The text of an optional string field of a record, given the units from where the field
/// points to the end of the record: a missing field and an empty string are both absent.
pub open spec fn optional_text(tail: Option<Seq<u16>>) -> Option<Seq<u16>> {
    match tail {
        None => None,
        Some(t) => if nul_index(t) == 0 {
            None
        } else {
            Some(text_at(t))
        },
    }
}

/// An optional string with a nul appended, when it is there.
pub open spec fn terminated(o: Option<Seq<u16>>) -> Option<Seq<u16>> {
    match o {
        Some(s) => Some(s.push(0u16)),
        None => None,
    }
}

/// Reads the string that starts `tail`: its units up to the first nul, or all of them. Nothing
/// past the nul is read.
pub fn read_wide_cstr(tail: &[u16]) -> (r: Vec<u16>)
    ensures
        r@ == text_at(tail@),
        is_nul_free(r@),
{
    let k = find_nul(tail);
    proof {
        lemma_nul_index(tail@);
    }
    copy_range(tail, 0, k)
}

/// Reads an optional string field of a record; `tail` holds the units from where the field
/// points to the end of the record, or nothing for a null field.
pub fn read_optional_text(tail: &Option<Vec<u16>>) -> (r: Option<Vec<u16>>)
    ensures
        opt_units(r) == optional_text(opt_units(*tail)),
{
    match tail {
        None => None,
        Some(t) => {
            proof {
                lemma_nul_index(t@);
            }
            let s = read_wide_cstr(t.as_slice());
            if s.len() == 0 {
                None
            } else {
                Some(s)
            }
        },
    }
}

/// Checks an optional string as `to_wide_cstring` does, when it is there.
pub fn to_optional_wide_cstring(s: &Option<Vec<u16>>) -> (r: Result<Option<Vec<u16>>, NulError>)
    ensures
        match r {
            Ok(w) => opt_units(w) == terminated(opt_units(*s)) && (s matches Some(v) ==> is_nul_free(
                v@,
            )),
            Err(e) => s matches Some(v) && !is_nul_free(v@) && e.0 == nul_index(v@) && (
            e.1 matches Some(u) && u@ == v@),
        },
{
    match s {
        None => Ok(None),
        Some(v) => match to_wide_cstring(v.as_slice()) {
            Ok(w) => Ok(Some(w)),
            Err(e) => Err(e),
        },
    }
}

} // verus!
