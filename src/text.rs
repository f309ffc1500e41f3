//! Character-level helpers on `str`, proved against their `Seq<char>` views.

use vstd::prelude::*;
use vstd::string::*;

verus! {

/// `t` is a suffix of `s`.
pub open spec fn has_suffix(s: Seq<char>, t: Seq<char>) -> bool {
    t.len() <= s.len() && s.subrange(s.len() - t.len(), s.len() as int) == t
}

/// Character-wise equality of two string slices.
pub fn str_eq(a: &str, b: &str) -> (r: bool)
    ensures
        r == (a@ == b@),
{
    let n = a.unicode_len();
    if n != b.unicode_len() {
        return false;
    }
    let mut i: usize = 0;
    while i < n
        invariant
            n == a@.len(),
            n == b@.len(),
            i <= n,
            forall|j: int| 0 <= j < i ==> a@[j] == b@[j],
        decreases n - i,
    {
        if a.get_char(i) != b.get_char(i) {
            return false;
        }
        i = i + 1;
    }
    assert(a@ =~= b@);
    true
}

/// Whether `s` ends with `t`, compared character by character.
pub fn ends_with(s: &str, t: &str) -> (r: bool)
    ensures
        r == has_suffix(s@, t@),
{
    let n = s.unicode_len();
    let m = t.unicode_len();
    if m > n {
        return false;
    }
    let off = n - m;
    let mut i: usize = 0;
    while i < m
        invariant
            n == s@.len(),
            m == t@.len(),
            off == n - m,
            i <= m,
            forall|j: int| 0 <= j < i ==> s@[off + j] == t@[j],
        decreases m - i,
    {
        if s.get_char(off + i) != t.get_char(i) {
            assert(s@.subrange(off as int, n as int)[i as int] != t@[i as int]);
            return false;
        }
        i = i + 1;
    }
    assert(s@.subrange(off as int, n as int) =~= t@);
    true
}

/// The fields of `s` between occurrences of `sep`, as `str::split` yields
/// them: one more field than there are separators, empty fields included.
pub open spec fn split_fields(s: Seq<char>, sep: char) -> Seq<Seq<char>>
    decreases s.len(),
{
    if s.len() == 0 {
        seq![Seq::<char>::empty()]
    } else {
        let init = split_fields(s.drop_last(), sep);
        if s.last() == sep {
            init.push(Seq::<char>::empty())
        } else {
            init.update(init.len() - 1, init.last().push(s.last()))
        }
    }
}

pub proof fn lemma_split_fields_nonempty(s: Seq<char>, sep: char)
    ensures
        split_fields(s, sep).len() >= 1,
    decreases s.len(),
{
    if s.len() > 0 {
        lemma_split_fields_nonempty(s.drop_last(), sep);
    }
}

/// Splits `s` at every occurrence of `sep`.
pub fn split_on<'a>(s: &'a str, sep: char) -> (r: Vec<&'a str>)
    ensures
        r@.map_values(|x: &str| x@) == split_fields(s@, sep),
{
    let n = s.unicode_len();
    let mut out: Vec<&'a str> = Vec::new();
    let mut start: usize = 0;
    let mut i: usize = 0;
    assert(s@.subrange(0, 0) =~= Seq::<char>::empty());
    assert(out@.map_values(|x: &str| x@).push(s@.subrange(0, 0)) =~= seq![Seq::<char>::empty()]);
    while i < n
        invariant
            n == s@.len(),
            start <= i <= n,
            out@.map_values(|x: &str| x@).push(s@.subrange(start as int, i as int))
                == split_fields(s@.subrange(0, i as int), sep),
        decreases n - i,
    {
        let c = s.get_char(i);
        let ghost before = out@.map_values(|x: &str| x@);
        let ghost p = s@.subrange(0, i + 1);
        proof {
            assert(p.drop_last() =~= s@.subrange(0, i as int));
            assert(p.last() == c);
            lemma_split_fields_nonempty(p.drop_last(), sep);
        }
        if c == sep {
            let f = s.substring_char(start, i);
            out.push(f);
            start = i + 1;
            proof {
                assert(out@.map_values(|x: &str| x@) =~= before.push(f@));
                assert(s@.subrange(start as int, i + 1) =~= Seq::<char>::empty());
            }
        } else {
            proof {
                let field = s@.subrange(start as int, i as int);
                assert(s@.subrange(start as int, i + 1) =~= field.push(c));
                assert(before.push(field.push(c)) =~= before.push(field).update(
                    before.len() as int,
                    before.push(field).last().push(c),
                ));
            }
        }
        i = i + 1;
    }
    let f = s.substring_char(start, n);
    let ghost before = out@.map_values(|x: &str| x@);
    out.push(f);
    proof {
        assert(out@.map_values(|x: &str| x@) =~= before.push(f@));
        assert(s@.subrange(0, n as int) =~= s@);
    }
    out
}

} // verus!
