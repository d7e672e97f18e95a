//! Helpers for strings and sequences of strings.
use vstd::prelude::*;

verus! {

/// The decimal digit `d` (below 10).
pub open spec fn digit_char(d: int) -> char {
    if d == 0 {
        '0'
    } else if d == 1 {
        '1'
    } else if d == 2 {
        '2'
    } else if d == 3 {
        '3'
    } else if d == 4 {
        '4'
    } else if d == 5 {
        '5'
    } else if d == 6 {
        '6'
    } else if d == 7 {
        '7'
    } else if d == 8 {
        '8'
    } else {
        '9'
    }
}

/// The two-digit decimal text of `n` (below 100), with a leading zero.
pub open spec fn two_digits(n: int) -> Seq<char> {
    seq![digit_char(n / 10), digit_char(n % 10)]
}

/// The views of a sequence of strings.
pub open spec fn strs(v: Seq<String>) -> Seq<Seq<char>> {
    v.map_values(|s: String| s@)
}

/// The view of an optional string.
pub open spec fn opt_str(o: Option<String>) -> Option<Seq<char>> {
    match o {
        Some(s) => Some(s@),
        None => None,
    }
}

/// The view of an optional vector of strings.
pub open spec fn opt_strs(o: Option<Vec<String>>) -> Option<Seq<Seq<char>>> {
    match o {
        Some(v) => Some(strs(v@)),
        None => None,
    }
}

/// Copies an optional string.
pub fn clone_opt_string(s: &Option<String>) -> (res: Option<String>)
    ensures
        res == *s,
{
    match s {
        Some(v) => Some(v.clone()),
        None => None,
    }
}

/// Copies a vector of strings.
pub fn clone_strings(v: &Vec<String>) -> (res: Vec<String>)
    ensures
        res@ == v@,
        strs(res@) == strs(v@),
{
    let res = v.clone();
    assert(res@ =~= v@);
    res
}

/// Copies an optional vector of strings.
pub fn clone_opt_strings(v: &Option<Vec<String>>) -> (res: Option<Vec<String>>)
    ensures
        opt_strs(res) == opt_strs(*v),
{
    match v {
        Some(x) => Some(clone_strings(x)),
        None => None,
    }
}

/// Compares two optional strings by content.
pub fn opt_string_eq(a: &Option<String>, b: &Option<String>) -> (res: bool)
    ensures
        res == (opt_str(*a) == opt_str(*b)),
{
    match (a, b) {
        (Some(x), Some(y)) => *x == *y,
        (None, None) => true,
        _ => false,
    }
}

/// Compares two vectors of strings by content.
pub fn strings_eq(a: &Vec<String>, b: &Vec<String>) -> (res: bool)
    ensures
        res == (strs(a@) == strs(b@)),
{
    if a.len() != b.len() {
        assert(strs(a@).len() != strs(b@).len());
        return false;
    }
    let mut i: usize = 0;
    while i < a.len()
        invariant
            a.len() == b.len(),
            i <= a.len(),
            forall|j: int| 0 <= j < i ==> a@[j]@ == b@[j]@,
        decreases a.len() - i,
    {
        if a[i] != b[i] {
            assert(strs(a@)[i as int] != strs(b@)[i as int]);
            return false;
        }
        i += 1;
    }
    assert(strs(a@) =~= strs(b@));
    true
}

/// Whether a vector of strings holds a string with the given content.
pub fn contains_string(v: &Vec<String>, s: &String) -> (res: bool)
    ensures
        res == strs(v@).contains(s@),
{
    let mut i: usize = 0;
    while i < v.len()
        invariant
            i <= v.len(),
            forall|j: int| 0 <= j < i ==> v@[j]@ != s@,
        decreases v.len() - i,
    {
        if v[i] == *s {
            assert(strs(v@)[i as int] == s@);
            return true;
        }
        i += 1;
    }
    assert forall|j: int| 0 <= j < strs(v@).len() implies strs(v@)[j] != s@ by {}
    false
}

} // verus!

verus! {

/// Appends a string unless one with the same content is already present.
pub fn push_unique(v: &mut Vec<String>, s: String)
    requires
        strs(old(v)@).no_duplicates(),
    ensures
        strs(final(v)@).no_duplicates(),
        strs(final(v)@).to_set() == strs(old(v)@).to_set().insert(s@),
{
    let ghost before = strs(v@);
    if !contains_string(v, &s) {
        v.push(s);
        assert(strs(v@) =~= before.push(s@));
        proof {
            before.lemma_push_to_set_commute(s@);
        }
    } else {
        assert(before.to_set() =~= before.to_set().insert(s@));
    }
}

/// Appends every string of `items` that is not present yet.
pub fn extend_unique(v: &mut Vec<String>, items: Vec<String>)
    requires
        strs(old(v)@).no_duplicates(),
    ensures
        strs(final(v)@).no_duplicates(),
        strs(final(v)@).to_set() == strs(old(v)@).to_set().union(strs(items@).to_set()),
{
    let ghost before = strs(v@).to_set();
    let mut items = items;
    let ghost all = items@;
    let n = items.len();
    let mut i: usize = 0;
    while items.len() > 0
        invariant
            strs(v@).no_duplicates(),
            items@ == all.subrange(i as int, all.len() as int),
            i <= all.len(),
            i + items@.len() == all.len(),
            all.len() == n,
            strs(v@).to_set() == before.union(strs(all.subrange(0, i as int)).to_set()),
        decreases items.len(),
    {
        let s = items.remove(0);
        let ghost prev = strs(v@).to_set();
        push_unique(v, s);
        assert(strs(all.subrange(0, i + 1)) =~= strs(all.subrange(0, i as int)).push(s@));
        proof {
            strs(all.subrange(0, i as int)).lemma_push_to_set_commute(s@);
        }
        i += 1;
        assert(strs(v@).to_set() =~= before.union(strs(all.subrange(0, i as int)).to_set()));
    }
    assert(all.subrange(0, i as int) =~= all);
}

} // verus!
