//! Small verified string helpers shared by the widgets.

use vstd::prelude::*;
use vstd::string::*;

verus! {

/// Compares two string slices character by character.
pub fn str_eq(a: &str, b: &str) -> (r: bool)
    ensures
        r == (a@ == b@),
{
    let x: String = a.to_owned();
    let y: String = b.to_owned();
    x == y
}

/// Builds an owned copy of a string slice.
pub fn owned(s: &str) -> (r: String)
    ensures
        r@ == s@,
{
    s.to_owned()
}

/// Concatenates two string slices.
pub fn concat2(a: &str, b: &str) -> (r: String)
    ensures
        r@ == a@ + b@,
{
    let mut r: String = a.to_owned();
    r.append(b);
    r
}

/// Concatenates three string slices.
pub fn concat3(a: &str, b: &str, c: &str) -> (r: String)
    ensures
        r@ == a@ + b@ + c@,
{
    let mut r: String = a.to_owned();
    r.append(b);
    r.append(c);
    r
}

/// The parts joined with `sep` between consecutive parts.
pub open spec fn seq_join(parts: Seq<Seq<char>>, sep: Seq<char>) -> Seq<char>
    decreases parts.len(),
{
    if parts.len() == 0 {
        Seq::<char>::empty()
    } else if parts.len() == 1 {
        parts[0]
    } else {
        seq_join(parts.drop_last(), sep) + sep + parts.last()
    }
}

/// Joining with one more part appends the separator and that part: the
/// joined text of `p0, .., pn` is `p0 + sep + p1 + .. + sep + pn`, whatever
/// the number of parts.
pub proof fn lemma_join_push(parts: Seq<Seq<char>>, sep: Seq<char>, x: Seq<char>)
    ensures
        parts.len() == 0 ==> seq_join(parts.push(x), sep) == x,
        parts.len() > 0 ==> seq_join(parts.push(x), sep) == seq_join(parts, sep) + sep + x,
{
    assert(parts.push(x).drop_last() =~= parts);
    if parts.len() == 0 {
        assert(parts.push(x)[0] == x);
    }
}

/// The joined text is as long as all parts together plus one separator
/// between each two consecutive parts, so no part is dropped or shortened.
pub proof fn lemma_join_len(parts: Seq<Seq<char>>, sep: Seq<char>, total: int)
    requires
        total == parts.fold_left(0int, |acc: int, p: Seq<char>| acc + p.len()),
    ensures
        parts.len() > 0 ==> seq_join(parts, sep).len() == total + (parts.len() - 1) * sep.len(),
        parts.len() == 0 ==> seq_join(parts, sep).len() == 0,
    decreases parts.len(),
{
    if parts.len() > 1 {
        let init = parts.drop_last();
        let t = init.fold_left(0int, |acc: int, p: Seq<char>| acc + p.len());
        lemma_join_len(init, sep, t);
        assert(total == t + parts.last().len());
        assert((parts.len() - 1) * sep.len() == (init.len() - 1) * sep.len() + sep.len())
            by (nonlinear_arith)
            requires
                init.len() == parts.len() - 1,
        ;
    } else if parts.len() == 1 {
        assert(parts.drop_last().fold_left(0int, |acc: int, p: Seq<char>| acc + p.len()) == 0);
    }
}

/// Joins the parts with `sep` between consecutive parts.
pub fn join(parts: &Vec<String>, sep: &str) -> (r: String)
    ensures
        r@ == seq_join(parts.deep_view(), sep@),
{
    let ghost all = parts.deep_view();
    let mut r = String::new();
    let mut i: usize = 0;
    while i < parts.len()
        invariant
            all == parts.deep_view(),
            all.len() == parts@.len(),
            i <= parts@.len(),
            r@ == seq_join(all.take(i as int), sep@),
        decreases parts@.len() - i,
    {
        assert(all.take(i + 1).drop_last() =~= all.take(i as int));
        assert(all[i as int] == parts@[i as int]@);
        if i != 0 {
            r.append(sep);
        }
        r.append(parts[i].as_str());
        i = i + 1;
    }
    assert(all.take(parts@.len() as int) =~= all);
    r
}

/// A copy of a list of strings.
pub fn copy_strings(v: &Vec<String>) -> (r: Vec<String>)
    ensures
        r@ == v@,
{
    let mut r: Vec<String> = Vec::new();
    let mut i: usize = 0;
    while i < v.len()
        invariant
            i <= v@.len(),
            r@ == v@.take(i as int),
        decreases v@.len() - i,
    {
        r.push(v[i].clone());
        assert(r@ =~= v@.take(i + 1));
        i = i + 1;
    }
    assert(v@.take(v@.len() as int) =~= v@);
    r
}

/// A copy of an optional string.
pub fn copy_opt_string(s: &Option<String>) -> (r: Option<String>)
    ensures
        r == *s,
{
    match s {
        Some(t) => Some(t.clone()),
        None => None,
    }
}

} // verus!
