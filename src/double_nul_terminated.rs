//! Lists of wide strings in the service control manager's multi-string form: each value is
//! followed by a nul, and the last one by a second nul.
use vstd::prelude::*;

use crate::error::NulError;
use crate::wide::{
    copy_range, copy_units, find_nul, find_nul_from, is_nul_free, lemma_nul_index, lemma_nul_index_of_terminated, nul_index,
};

verus! {

/// The code units of a vector of wide strings.
pub open spec fn units_of(v: Seq<Vec<u16>>) -> Seq<Seq<u16>> {
    v.map_values(|w: Vec<u16>| w@)
}

/// Each value followed by a nul, one after another.
pub open spec fn nul_separated(values: Seq<Seq<u16>>) -> Seq<u16>
    decreases values.len(),
{
    if values.len() == 0 {
        Seq::empty()
    } else {
        values[0] + seq![0u16] + nul_separated(values.subrange(1, values.len() as int))
    }
}

/// The multi-string form of a list: `None` for an empty list, else each value followed by a
/// nul, and one more nul at the end.
pub open spec fn joined(values: Seq<Seq<u16>>) -> Option<Seq<u16>> {
    if values.len() == 0 {
        None
    } else {
        Some(nul_separated(values).push(0u16))
    }
}

/// The values read from a multi-string buffer: they end at the first empty value or at the end
/// of the buffer, whichever comes first. A value that the buffer cuts off ends with the buffer.
pub open spec fn split(s: Seq<u16>) -> Seq<Seq<u16>>
    decreases s.len(),
{
    if s.len() == 0 || s[0] == 0 {
        Seq::empty()
    } else if nul_index(s) >= s.len() {
        seq![s]
    } else {
        seq![s.subrange(0, nul_index(s) as int)].add(
            split(s.subrange(nul_index(s) as int + 1, s.len() as int)),
        )
    }
}

/// The first value of `values` that holds a nul, if any: its index.
pub open spec fn first_with_nul(values: Seq<Seq<u16>>, i: int) -> bool {
    0 <= i < values.len() && !is_nul_free(values[i]) && forall|j: int|
        0 <= j < i ==> is_nul_free(values[j])
}

proof fn lemma_nul_separated_push(values: Seq<Seq<u16>>, i: int)
    requires
        0 <= i < values.len(),
    ensures
        nul_separated(values.subrange(0, i + 1)) == nul_separated(values.subrange(0, i))
            + values[i] + seq![0u16],
    decreases i,
{
    let a = values.subrange(0, i + 1);
    if i == 0 {
        assert(a.subrange(1, a.len() as int) =~= Seq::<Seq<u16>>::empty());
        assert(nul_separated(Seq::<Seq<u16>>::empty()) == Seq::<u16>::empty());
        assert(values.subrange(0, 0) =~= Seq::<Seq<u16>>::empty());
        assert(a[0] == values[0]);
        assert(nul_separated(a) =~= values[0] + seq![0u16]);
    } else {
        let tail = values.subrange(1, values.len() as int);
        lemma_nul_separated_push(tail, i - 1);
        assert(a.subrange(1, a.len() as int) =~= tail.subrange(0, i));
        assert(values.subrange(0, i).subrange(1, i) =~= tail.subrange(0, i - 1));
        assert(nul_separated(a) =~= nul_separated(values.subrange(0, i)) + values[i] + seq![
            0u16,
        ]);
    }
}

/// Joins wide strings into the multi-string form.
///
/// Returns `Ok(None)` for an empty list, and an error for the first value that holds a nul.
pub fn from_slice(source: &[Vec<u16>]) -> (r: Result<Option<Vec<u16>>, NulError>)
    ensures
        match r {
            Ok(None) => source@.len() == 0,
            Ok(Some(w)) => joined(units_of(source@)) == Some(w@),
            Err(e) => exists|i: int|
                first_with_nul(units_of(source@), i) && e.0 == nul_index(source@[i]@) && (e.1 matches Some(
                    v,
                ) && v@ == source@[i]@),
        },
        r is Ok <==> forall|i: int| 0 <= i < source@.len() ==> is_nul_free(#[trigger] source@[i]@),
{
    if source.len() == 0 {
        return Ok(None);
    }
    let ghost values = units_of(source@);
    let mut wide: Vec<u16> = Vec::new();
    let mut i: usize = 0;
    while i < source.len()
        invariant
            i <= source.len(),
            values == units_of(source@),
            wide@ == nul_separated(values.subrange(0, i as int)),
            forall|j: int| 0 <= j < i ==> is_nul_free(#[trigger] source@[j]@),
        decreases source.len() - i,
    {
        let s = &source[i];
        let k = find_nul(s.as_slice());
        proof {
            lemma_nul_index(s@);
        }
        if k < s.len() {
            let v = copy_units(s.as_slice());
            proof {
                assert(first_with_nul(values, i as int));
            }
            return Err(NulError(k, Some(v)));
        }
        let mut j: usize = 0;
        let ghost before = wide@;
        while j < s.len()
            invariant
                j <= s.len(),
                wide@ == before + s@.subrange(0, j as int),
            decreases s.len() - j,
        {
            wide.push(s[j]);
            j = j + 1;
            assert(wide@ =~= before + s@.subrange(0, j as int));
        }
        wide.push(0u16);
        proof {
            lemma_nul_separated_push(values, i as int);
            assert(s@.subrange(0, s@.len() as int) =~= s@);
            assert(values[i as int] == s@);
        }
        i = i + 1;
    }
    wide.push(0u16);
    assert(values.subrange(0, i as int) =~= values);
    Ok(Some(wide))
}

/// Splits a multi-string buffer into its values.
///
/// An empty buffer, like one that starts with a nul, holds no value. Nothing past the first
/// empty value is read.
pub fn parse_str_ptr(buf: &[u16]) -> (r: Vec<Vec<u16>>)
    ensures
        units_of(r@) == split(buf@),
{
    let mut results: Vec<Vec<u16>> = Vec::new();
    let mut pos: usize = 0;
    assert(units_of(results@) =~= Seq::<Seq<u16>>::empty());
    assert(buf@.subrange(0, buf@.len() as int) =~= buf@);
    loop
        invariant
            pos <= buf.len(),
            split(buf@) == units_of(results@) + split(buf@.subrange(pos as int, buf.len() as int)),
        decreases buf.len() - pos,
    {
        let ghost rest = buf@.subrange(pos as int, buf.len() as int);
        let ghost old_results = results@;
        if pos == buf.len() || buf[pos] == 0 {
            assert(rest.len() == 0 || rest[0] == 0);
            assert(split(rest) == Seq::<Seq<u16>>::empty());
            assert(units_of(results@) + split(rest) =~= units_of(results@));
            assert(split(buf@) == units_of(results@));
            return results;
        }
        let end = find_nul_from(buf, pos);
        let ghost k = end - pos;
        proof {
            lemma_nul_index(rest);
        }
        let element = copy_range(buf, pos, end);
        assert(element@ =~= rest.subrange(0, k));
        results.push(element);
        if end == buf.len() {
            proof {
                assert(rest.subrange(0, k) =~= rest);
                assert(rest[0] != 0);
                assert(split(rest) == seq![rest]);
                assert(results@ =~= old_results.push(element));
                assert(units_of(results@) =~= units_of(old_results) + seq![rest]);
            }
            return results;
        }
        proof {
            let next = buf@.subrange(end + 1, buf.len() as int);
            assert(rest.subrange(k + 1, rest.len() as int) =~= next);
            assert(rest[0] != 0);
            assert(split(rest) == seq![rest.subrange(0, k)].add(split(next)));
            assert(results@ =~= old_results.push(element));
            assert(units_of(results@) =~= units_of(old_results) + seq![rest.subrange(0, k)]);
        }
        pos = end + 1;
    }
}

/// Joining a non-empty list of non-empty, nul-free wide strings and splitting the result gives
/// the list back. An empty list joins to no buffer at all.
pub proof fn lemma_split_joined(values: Seq<Seq<u16>>)
    requires
        forall|i: int| 0 <= i < values.len() ==> is_nul_free(#[trigger] values[i]),
        forall|i: int| 0 <= i < values.len() ==> (#[trigger] values[i]).len() > 0,
    ensures
        values.len() == 0 ==> joined(values) is None,
        values.len() > 0 ==> joined(values) == Some(nul_separated(values).push(0u16)) && split(
            nul_separated(values).push(0u16),
        ) == values,
    decreases values.len(),
{
    if values.len() > 0 {
        let v = values[0];
        let tail = values.subrange(1, values.len() as int);
        let rest = nul_separated(tail).push(0u16);
        let s = nul_separated(values).push(0u16);
        assert(s =~= v + seq![0u16] + rest);
        lemma_nul_index_of_terminated(v, rest);
        assert(s.subrange(0, v.len() as int) =~= v);
        assert(s.subrange(v.len() as int + 1, s.len() as int) =~= rest);
        assert(s[0] == v[0]);
        if tail.len() == 0 {
            assert(rest =~= seq![0u16]);
            assert(split(rest) =~= Seq::<Seq<u16>>::empty());
        } else {
            assert forall|i: int| 0 <= i < tail.len() implies is_nul_free(#[trigger] tail[i]) by {
                assert(tail[i] == values[i + 1]);
            }
            assert forall|i: int| 0 <= i < tail.len() implies (#[trigger] tail[i]).len() > 0 by {
                assert(tail[i] == values[i + 1]);
            }
            lemma_split_joined(tail);
        }
        assert(split(s) =~= seq![v].add(split(rest)));
        assert(values =~= seq![v].add(tail));
    }
}

} // verus!
