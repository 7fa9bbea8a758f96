//! The local branches of a repository, in ascending order.

use vstd::prelude::*;
use crate::search::{lines, lines_of};
use crate::text::{texts, to_chars, trim, trimmed};

verus! {

// ---------------------------------------------------------------------------
// The order of names
// ---------------------------------------------------------------------------

/// Whether `a` comes before `b`, or is `b`, in the order of strings: at the
/// first place where the two differ the smaller character decides, and a
/// name comes before every longer name that begins with it.
pub open spec fn lex_le(a: Seq<char>, b: Seq<char>) -> bool
    decreases a.len(),
{
    if a.len() == 0 {
        true
    } else if b.len() == 0 {
        false
    } else if a[0] != b[0] {
        (a[0] as u32) < (b[0] as u32)
    } else {
        lex_le(a.drop_first(), b.drop_first())
    }
}

/// Whether the names stand in ascending order.
pub open spec fn ascending(names: Seq<Seq<char>>) -> bool {
    forall|i: int, j: int| 0 <= i < j < names.len() ==> lex_le(names[i], names[j])
}

/// The ascending names with one more name in its place, after the names
/// that equal it.
pub open spec fn inserted(names: Seq<Seq<char>>, name: Seq<char>) -> Seq<Seq<char>>
    decreases names.len(),
{
    if names.len() == 0 {
        seq![name]
    } else if lex_le(names.last(), name) {
        names.push(name)
    } else {
        inserted(names.drop_last(), name).push(names.last())
    }
}

/// The names in ascending order.
pub open spec fn sorted(names: Seq<Seq<char>>) -> Seq<Seq<char>>
    decreases names.len(),
{
    if names.len() == 0 {
        Seq::empty()
    } else {
        inserted(sorted(names.drop_last()), names.last())
    }
}

/// The names that a listing holds: each line trimmed, the empty ones left
/// out.
pub open spec fn named(lines: Seq<Seq<char>>) -> Seq<Seq<char>>
    decreases lines.len(),
{
    if lines.len() == 0 {
        Seq::empty()
    } else if trimmed(lines.last()).len() == 0 {
        named(lines.drop_last())
    } else {
        named(lines.drop_last()).push(trimmed(lines.last()))
    }
}

/// The branches that the tool's listing names, in ascending order.
pub open spec fn branches_of(listing: Seq<char>) -> Seq<Seq<char>> {
    sorted(named(lines_of(listing)))
}

/// Of two names one comes before the other, or they are equal.
pub proof fn lemma_lex_total(a: Seq<char>, b: Seq<char>)
    ensures
        lex_le(a, b) || lex_le(b, a),
        lex_le(a, b) && lex_le(b, a) ==> a == b,
    decreases a.len(),
{
    if a.len() > 0 && b.len() > 0 && a[0] == b[0] {
        lemma_lex_total(a.drop_first(), b.drop_first());
        if lex_le(a, b) && lex_le(b, a) {
            assert(a =~= seq![a[0]] + a.drop_first());
            assert(b =~= seq![b[0]] + b.drop_first());
        }
    } else if a.len() == 0 && b.len() == 0 {
        assert(a =~= b);
    } else if a.len() > 0 && b.len() > 0 {
        vstd::utf8::char_u32_cast(a[0], a[0] as u32);
        vstd::utf8::char_u32_cast(b[0], b[0] as u32);
    }
}

/// The order of names is transitive.
pub proof fn lemma_lex_transitive(a: Seq<char>, b: Seq<char>, c: Seq<char>)
    requires
        lex_le(a, b),
        lex_le(b, c),
    ensures
        lex_le(a, c),
    decreases a.len(),
{
    if a.len() > 0 && b.len() > 0 && c.len() > 0 && a[0] == b[0] && b[0] == c[0] {
        lemma_lex_transitive(a.drop_first(), b.drop_first(), c.drop_first());
    }
}

/// Putting a name in its place keeps the order, and adds the name and
/// nothing else.
pub proof fn lemma_inserted(names: Seq<Seq<char>>, name: Seq<char>)
    requires
        ascending(names),
    ensures
        ascending(inserted(names, name)),
        inserted(names, name).to_multiset() == names.to_multiset().insert(name),
        inserted(names, name).len() == names.len() + 1,
    decreases names.len(),
{
    broadcast use vstd::seq_lib::group_to_multiset_ensures;

    if names.len() == 0 {
        assert(names =~= Seq::<Seq<char>>::empty());
    } else if lex_le(names.last(), name) {
        let r = names.push(name);
        assert forall|i: int, j: int| 0 <= i < j < r.len() implies lex_le(r[i], r[j]) by {
            if j == names.len() {
                if i < names.len() - 1 {
                    lemma_lex_transitive(names[i], names.last(), name);
                }
            }
        }
    } else {
        let front = names.drop_last();
        let last = names.last();
        assert(ascending(front)) by {
            assert forall|i: int, j: int| 0 <= i < j < front.len() implies lex_le(
                front[i],
                front[j],
            ) by {
                assert(front[i] == names[i] && front[j] == names[j]);
            }
        }
        lemma_inserted(front, name);
        let mid = inserted(front, name);
        let r = mid.push(last);
        lemma_lex_total(last, name);
        assert forall|i: int| 0 <= i < mid.len() implies lex_le(#[trigger] mid[i], last) by {
            assert(mid.to_multiset().count(mid[i]) > 0);
            if mid[i] == name {
            } else {
                assert(front.to_multiset().count(mid[i]) > 0);
                assert(front.contains(mid[i]));
                let k = choose|k: int| 0 <= k < front.len() && front[k] == mid[i];
                assert(names[k] == mid[i]);
            }
        }
        assert forall|i: int, j: int| 0 <= i < j < r.len() implies lex_le(r[i], r[j]) by {
            if j == mid.len() {
                assert(r[i] == mid[i]);
            } else {
                assert(r[i] == mid[i] && r[j] == mid[j]);
            }
        }
        assert(names =~= front.push(last));
        assert(r.to_multiset() =~= names.to_multiset().insert(name));
    }
}

/// The sorted names stand in ascending order and are the given names, each
/// as often as it was given.
pub proof fn lemma_sorted(names: Seq<Seq<char>>)
    ensures
        ascending(sorted(names)),
        sorted(names).to_multiset() == names.to_multiset(),
        sorted(names).len() == names.len(),
    decreases names.len(),
{
    broadcast use vstd::seq_lib::group_to_multiset_ensures;

    if names.len() == 0 {
        assert(names =~= Seq::<Seq<char>>::empty());
    } else {
        lemma_sorted(names.drop_last());
        lemma_inserted(sorted(names.drop_last()), names.last());
        assert(names =~= names.drop_last().push(names.last()));
    }
}

/// Putting a name in its place puts it behind the last name that does not
/// come after it.
proof fn lemma_inserted_at(names: Seq<Seq<char>>, name: Seq<char>, p: int)
    requires
        0 <= p <= names.len(),
        forall|j: int| p <= j < names.len() ==> !lex_le(#[trigger] names[j], name),
        p == 0 || lex_le(names[p - 1], name),
    ensures
        inserted(names, name) == names.insert(p, name),
    decreases names.len(),
{
    if names.len() == 0 {
        assert(names.insert(p, name) =~= seq![name]);
    } else if p == names.len() {
        assert(names.insert(p, name) =~= names.push(name));
    } else {
        let front = names.drop_last();
        assert(!lex_le(names[names.len() - 1], name));
        assert forall|j: int| p <= j < front.len() implies !lex_le(#[trigger] front[j], name) by {
            assert(front[j] == names[j]);
        }
        if p > 0 {
            assert(front[p - 1] == names[p - 1]);
        }
        lemma_inserted_at(front, name, p);
        assert(front.insert(p, name).push(names.last()) =~= names.insert(p, name));
    }
}

// ---------------------------------------------------------------------------
// Executable sorting
// ---------------------------------------------------------------------------

/// Whether `a` comes before `b`, or is `b`, in the order of strings.
pub fn precedes(a: &Vec<char>, b: &Vec<char>) -> (r: bool)
    ensures
        r == lex_le(a@, b@),
{
    let mut i: usize = 0;
    proof {
        assert(a@.skip(0) =~= a@);
        assert(b@.skip(0) =~= b@);
    }
    loop
        invariant
            i <= a.len(),
            i <= b.len(),
            lex_le(a@, b@) == lex_le(a@.skip(i as int), b@.skip(i as int)),
        decreases a.len() - i,
    {
        if i == a.len() {
            return true;
        }
        if i == b.len() {
            return false;
        }
        let x = a[i];
        let y = b[i];
        proof {
            assert(a@.skip(i as int)[0] == x);
            assert(b@.skip(i as int)[0] == y);
            assert(a@.skip(i as int).drop_first() =~= a@.skip(i + 1));
            assert(b@.skip(i as int).drop_first() =~= b@.skip(i + 1));
        }
        if x != y {
            return (x as u32) < (y as u32);
        }
        i += 1;
    }
}

/// Puts one more name in its place among ascending names.
fn insert(names: &mut Vec<Vec<char>>, name: Vec<char>)
    ensures
        texts(final(names)@) == inserted(texts(old(names)@), name@),
{
    let mut p: usize = names.len();
    while p > 0 && !precedes(&names[p - 1], &name)
        invariant
            p <= names.len(),
            *names == *old(names),
            forall|j: int|
                p <= j < names.len() ==> !lex_le(#[trigger] texts(names@)[j], name@),
        decreases p,
    {
        p -= 1;
    }
    proof {
        lemma_inserted_at(texts(names@), name@, p as int);
        assert(texts(names@.insert(p as int, name)) =~= texts(names@).insert(p as int, name@));
    }
    names.insert(p, name);
}

/// The branches that the tool's listing names, in ascending order: every
/// name of the listing, as often as it is listed, and nothing else.
pub fn sorted_branches(listing: &str) -> (r: Vec<Vec<char>>)
    ensures
        texts(r@) == branches_of(listing@),
        ascending(texts(r@)),
        texts(r@).to_multiset() == named(lines_of(listing@)).to_multiset(),
{
    let all = lines(&to_chars(listing));
    let mut out: Vec<Vec<char>> = Vec::new();
    let mut i: usize = 0;
    proof {
        assert(texts(all@).take(0) =~= Seq::<Seq<char>>::empty());
        assert(texts(out@) =~= Seq::<Seq<char>>::empty());
    }
    while i < all.len()
        invariant
            i <= all.len(),
            texts(all@) == lines_of(listing@),
            texts(out@) == sorted(named(texts(all@).take(i as int))),
        decreases all.len() - i,
    {
        let name = trim(&all[i]);
        proof {
            let next = texts(all@).take(i + 1);
            assert(next.drop_last() =~= texts(all@).take(i as int));
            assert(next.last() == all@[i as int]@);
            let front = named(next.drop_last());
            if name@.len() > 0 {
                assert(front.push(name@).drop_last() =~= front);
            }
        }
        if name.len() > 0 {
            insert(&mut out, name);
        }
        i += 1;
    }
    proof {
        assert(texts(all@).take(i as int) =~= texts(all@));
        lemma_sorted(named(lines_of(listing@)));
    }
    out
}

} // verus!
