//! Text helpers shared by the framework and its plugins.

use vstd::prelude::*;
use vstd::string::{StrSliceExecFns, StringExecFns};

verus! {

/// The pieces of `parts` written one after another with `sep` between
/// neighbours; the empty text when there are no pieces.
pub open spec fn joined(parts: Seq<Seq<char>>, sep: Seq<char>) -> Seq<char>
    decreases parts.len(),
{
    if parts.len() == 0 {
        Seq::<char>::empty()
    } else if parts.len() == 1 {
        parts[0]
    } else {
        joined(parts.drop_last(), sep) + sep + parts.last()
    }
}

/// The views of a vector of strings, in order.
pub open spec fn views(parts: Seq<String>) -> Seq<Seq<char>> {
    parts.map_values(|s: String| s@)
}

/// `s` without `prefix` in front where it begins with it, and `s` itself
/// where it does not.
pub open spec fn without_prefix(s: Seq<char>, prefix: Seq<char>) -> Seq<char> {
    if prefix.is_prefix_of(s) {
        s.skip(prefix.len() as int)
    } else {
        s
    }
}

/// The views of a sequence with one more string are the views of the
/// sequence with the view of that string.
pub proof fn lemma_views_push(parts: Seq<String>, s: String)
    ensures
        views(parts.push(s)) == views(parts).push(s@),
{
    assert(views(parts.push(s)) =~= views(parts).push(s@));
}

/// Whether `i` is the first place of `names` at which `name` stands.
pub open spec fn is_first_at(names: Seq<Seq<char>>, name: Seq<char>, i: int) -> bool {
    &&& 0 <= i < names.len()
    &&& names[i] == name
    &&& forall|j: int| 0 <= j < i ==> #[trigger] names[j] != name
}

/// The first place of `names` at which `name` stands, where it stands at one.
pub open spec fn first_index(names: Seq<Seq<char>>, name: Seq<char>) -> int {
    choose|i: int| is_first_at(names, name, i)
}

/// A name has one first place.
pub proof fn lemma_first_index(names: Seq<Seq<char>>, name: Seq<char>, i: int)
    requires
        is_first_at(names, name, i),
    ensures
        first_index(names, name) == i,
{
    let f = first_index(names, name);
    assert(is_first_at(names, name, f));
    if f < i {
        assert(names[f] != name);
    }
    if i < f {
        assert(names[i] != name);
    }
}

/// A name that stands in a sequence has a first place in it.
pub proof fn lemma_has_first(names: Seq<Seq<char>>, name: Seq<char>)
    requires
        names.contains(name),
    ensures
        is_first_at(names, name, first_index(names, name)),
{
    let i = choose|i: int| 0 <= i < names.len() && names[i] == name;
    lemma_first_before(names, name, i);
}

proof fn lemma_first_before(names: Seq<Seq<char>>, name: Seq<char>, i: int)
    requires
        0 <= i < names.len(),
        names[i] == name,
    ensures
        exists|f: int| is_first_at(names, name, f),
    decreases i,
{
    if exists|j: int| 0 <= j < i && #[trigger] names[j] == name {
        let j = choose|j: int| 0 <= j < i && #[trigger] names[j] == name;
        lemma_first_before(names, name, j);
    } else {
        assert(is_first_at(names, name, i));
    }
}

/// Whether two texts hold the same characters.
pub fn same_text(a: &str, b: &str) -> (r: bool)
    ensures
        r == (a@ == b@),
{
    let left = a.to_string();
    let right = b.to_string();
    left == right
}

/// `a` followed by `b`.
pub fn appended(a: &str, b: &str) -> (r: String)
    ensures
        r@ == a@ + b@,
{
    let mut out = a.to_string();
    out.append(b);
    out
}

/// Joins `parts` with `sep` between neighbours.
pub fn join(parts: &Vec<String>, sep: &str) -> (r: String)
    ensures
        r@ == joined(views(parts@), sep@),
{
    let mut out = String::new();
    let mut i: usize = 0;
    while i < parts.len()
        invariant
            i <= parts.len(),
            out@ == joined(views(parts@).take(i as int), sep@),
        decreases parts.len() - i,
    {
        proof {
            let all = views(parts@);
            let before = all.take(i as int);
            let after = all.take(i + 1);
            assert(after.drop_last() =~= before);
            assert(after.last() == parts@[i as int]@);
            if i == 0 {
                assert(joined(after, sep@) == parts@[i as int]@);
                assert(out@ =~= Seq::<char>::empty());
            }
        }
        if i > 0 {
            out.append(sep);
        }
        out.append(parts[i].as_str());
        proof {
            let all = views(parts@);
            if i == 0 {
                assert(out@ =~= all.take(i + 1)[0]);
            }
        }
        i += 1;
    }
    proof {
        assert(views(parts@).take(i as int) =~= views(parts@));
    }
    out
}

/// What stands behind `prefix` in `s`, where `s` begins with it.
pub fn split_prefix<'a>(s: &'a str, prefix: &str) -> (r: Option<&'a str>)
    ensures
        match r {
            Some(rest) => prefix@.is_prefix_of(s@) && rest@ == s@.skip(prefix@.len() as int),
            None => !prefix@.is_prefix_of(s@),
        },
{
    let length: usize = s.unicode_len();
    let front: usize = prefix.unicode_len();
    if front > length {
        return None;
    }
    let mut i: usize = 0;
    while i < front
        invariant
            i <= front <= length,
            front == prefix@.len(),
            length == s@.len(),
            forall|j: int| 0 <= j < i ==> s@[j] == prefix@[j],
        decreases front - i,
    {
        if s.get_char(i) != prefix.get_char(i) {
            proof {
                assert(s@.subrange(0, prefix@.len() as int)[i as int] != prefix@[i as int]);
            }
            return None;
        }
        i += 1;
    }
    proof {
        assert(prefix@ =~= s@.subrange(0, prefix@.len() as int));
        assert(s@.skip(prefix@.len() as int) =~= s@.subrange(front as int, length as int));
    }
    Some(s.substring_char(front, length))
}

/// Drops `prefix` from the front of `s` where it stands there.
pub fn trim_prefix<'a>(s: &'a str, prefix: &str) -> (r: &'a str)
    ensures
        r@ == without_prefix(s@, prefix@),
{
    match split_prefix(s, prefix) {
        Some(rest) => rest,
        None => s,
    }
}

} // verus!
