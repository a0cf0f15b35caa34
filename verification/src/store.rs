//! Lists of resources in which an identifier finds at most one resource: the
//! first that has it.

use vstd::prelude::*;

verus! {

/// What has an identifier.
pub trait Identified {
    /// The identifier.
    spec fn ident(&self) -> u128;

    /// The identifier.
    fn id(&self) -> (id: u128)
        ensures
            id == self.ident(),
    ;
}

/// Whether some item of `s` has the identifier.
pub open spec fn holds<T: Identified>(s: Seq<T>, id: u128) -> bool {
    exists|i: int| 0 <= i < s.len() && (#[trigger] s[i]).ident() == id
}

/// Whether `i` is the first place of `s` whose item has the identifier.
pub open spec fn first_at<T: Identified>(s: Seq<T>, id: u128, i: int) -> bool {
    &&& 0 <= i < s.len()
    &&& s[i].ident() == id
    &&& forall|j: int| 0 <= j < i ==> (#[trigger] s[j]).ident() != id
}

/// The first place of `s` whose item has the identifier; meaningful where
/// `holds(s, id)`.
pub open spec fn place<T: Identified>(s: Seq<T>, id: u128) -> int {
    choose|i: int| first_at(s, id, i)
}

/// The item that the identifier finds in `s`.
pub open spec fn lookup<T: Identified>(s: Seq<T>, id: u128) -> Option<T> {
    if holds(s, id) {
        Some(s[place(s, id)])
    } else {
        None
    }
}

/// `s` after `item` was put in: in the place of the item that its identifier
/// found, or at the end where it found none.
pub open spec fn stored<T: Identified>(s: Seq<T>, item: T) -> Seq<T> {
    if holds(s, item.ident()) {
        s.update(place(s, item.ident()), item)
    } else {
        s.push(item)
    }
}

/// The list that results from putting the items of `s` in, one after the
/// other, starting with none.
pub open spec fn collected<T: Identified>(s: Seq<T>) -> Seq<T>
    decreases s.len(),
{
    if s.len() == 0 {
        Seq::<T>::empty()
    } else {
        stored(collected(s.drop_last()), s.last())
    }
}

/// Whether no two items of `s` share an identifier.
pub open spec fn distinct<T: Identified>(s: Seq<T>) -> bool {
    forall|i: int, j: int|
        0 <= i < j < s.len() ==> (#[trigger] s[i]).ident() != (#[trigger] s[j]).ident()
}

/// An identifier that some item has, has a first place, and only one.
pub proof fn lemma_place<T: Identified>(s: Seq<T>, id: u128)
    requires
        holds(s, id),
    ensures
        first_at(s, id, place(s, id)),
        forall|i: int| first_at(s, id, i) ==> i == place(s, id),
{
    let witness = choose|i: int| 0 <= i < s.len() && (#[trigger] s[i]).ident() == id;
    lemma_first_before(s, id, witness);
    let p = place(s, id);
    assert forall|i: int| first_at(s, id, i) implies i == p by {
        if i < p {
            assert(s[i].ident() != id);
        } else if p < i {
            assert(s[p].ident() != id);
        }
    }
}

/// If the item at `i` has the identifier, the identifier has a first place.
proof fn lemma_first_before<T: Identified>(s: Seq<T>, id: u128, i: int)
    requires
        0 <= i < s.len(),
        s[i].ident() == id,
    ensures
        exists|k: int| first_at(s, id, k),
    decreases i,
{
    if exists|j: int| 0 <= j < i && (#[trigger] s[j]).ident() == id {
        let j = choose|j: int| 0 <= j < i && (#[trigger] s[j]).ident() == id;
        lemma_first_before(s, id, j);
    } else {
        assert(first_at(s, id, i));
    }
}

/// After an item was put in, its identifier finds it; every other identifier
/// finds what it found before; and identifiers that were distinct stay so.
pub proof fn lemma_stored<T: Identified>(s: Seq<T>, item: T)
    ensures
        lookup(stored(s, item), item.ident()) == Some(item),
        stored(s, item).contains(item),
        forall|id: u128| id != item.ident() ==> lookup(stored(s, item), id) == lookup(s, id),
        forall|id: u128| holds(stored(s, item), id) <==> holds(s, id) || id == item.ident(),
        distinct(s) ==> distinct(stored(s, item)),
{
    let t = stored(s, item);
    let key = item.ident();
    let at = if holds(s, key) {
        place(s, key)
    } else {
        s.len() as int
    };
    if holds(s, key) {
        lemma_place(s, key);
    }
    assert(t[at] == item);
    assert forall|j: int| 0 <= j < t.len() && j != at implies #[trigger] t[j] == s[j] by {}
    assert(first_at(t, key, at)) by {
        assert forall|j: int| 0 <= j < at implies (#[trigger] t[j]).ident() != key by {
            assert(t[j] == s[j]);
        }
    }
    lemma_place(t, key);
    assert forall|id: u128| holds(t, id) <==> holds(s, id) || id == key by {
        if holds(t, id) && id != key {
            let i = choose|i: int| 0 <= i < t.len() && (#[trigger] t[i]).ident() == id;
            assert(t[i] == s[i]);
        }
        if holds(s, id) && id != key {
            let i = choose|i: int| 0 <= i < s.len() && (#[trigger] s[i]).ident() == id;
            assert(t[i] == s[i]);
        }
    }
    assert forall|id: u128| id != key implies lookup(t, id) == lookup(s, id) by {
        if holds(s, id) {
            lemma_place(s, id);
            let p = place(s, id);
            assert(t[p] == s[p]);
            assert(first_at(t, id, p)) by {
                assert forall|j: int| 0 <= j < p implies (#[trigger] t[j]).ident() != id by {
                    if j != at {
                        assert(t[j] == s[j]);
                    }
                }
            }
            lemma_place(t, id);
        }
    }
    if distinct(s) {
        assert forall|i: int, j: int| 0 <= i < j < t.len() implies (#[trigger] t[i]).ident() != (
        #[trigger] t[j]).ident() by {
            if i != at && j != at {
                assert(t[i] == s[i] && t[j] == s[j]);
            } else if i == at {
                assert(t[j] == s[j]);
                if holds(s, key) {
                    assert(s[at].ident() == key);
                }
            } else {
                assert(t[i] == s[i]);
                if holds(s, key) {
                    assert(s[at].ident() == key);
                } else {
                    assert(s[i].ident() != key);
                }
            }
        }
    }
}

/// Every item of the list after a put is the item put in or an item that the
/// list had before.
pub proof fn lemma_kept<T: Identified>(s: Seq<T>, item: T)
    ensures
        forall|i: int|
            0 <= i < stored(s, item).len() ==> #[trigger] stored(s, item)[i] == item || s.contains(
                stored(s, item)[i],
            ),
{
    let t = stored(s, item);
    if holds(s, item.ident()) {
        lemma_place(s, item.ident());
    }
    assert forall|i: int| 0 <= i < t.len() implies #[trigger] t[i] == item || s.contains(t[i]) by {
        if t[i] != item {
            assert(t[i] == s[i]);
        }
    }
}

/// Items that are put in one after the other end up with distinct
/// identifiers, and the identifiers found are those of the items.
pub proof fn lemma_collected<T: Identified>(s: Seq<T>)
    ensures
        distinct(collected(s)),
        forall|id: u128| holds(collected(s), id) <==> holds(s, id),
    decreases s.len(),
{
    if s.len() > 0 {
        let front = s.drop_last();
        lemma_collected(front);
        lemma_stored(collected(front), s.last());
        assert forall|id: u128| holds(collected(s), id) <==> holds(s, id) by {
            if holds(s, id) {
                let i = choose|i: int| 0 <= i < s.len() && (#[trigger] s[i]).ident() == id;
                if i < s.len() - 1 {
                    assert(front[i] == s[i]);
                }
            }
            if holds(front, id) {
                let i = choose|i: int| 0 <= i < front.len() && (#[trigger] front[i]).ident() == id;
                assert(front[i] == s[i]);
            }
        }
    }
}

/// The first place of `v` whose item has the identifier.
pub fn find<T: Identified>(v: &Vec<T>, id: u128) -> (r: Option<usize>)
    ensures
        r is Some == holds(v@, id),
        r matches Some(i) ==> i == place(v@, id) && first_at(v@, id, i as int),
{
    let mut i: usize = 0;
    while i < v.len()
        invariant
            i <= v.len(),
            forall|j: int| 0 <= j < i ==> (#[trigger] v@[j]).ident() != id,
        decreases v.len() - i,
    {
        if v[i].id() == id {
            proof {
                assert(first_at(v@, id, i as int));
                lemma_place(v@, id);
            }
            return Some(i);
        }
        i = i + 1;
    }
    None
}

/// Puts `item` into `v`.
pub fn put<T: Identified>(v: &mut Vec<T>, item: T)
    ensures
        final(v)@ == stored(old(v)@, item),
{
    match find(v, item.id()) {
        Some(i) => {
            v.set(i, item);
        },
        None => {
            v.push(item);
        },
    }
}

/// The lists that result from putting each item of `items` into `v`, in order.
pub fn put_all<T: Identified>(items: Vec<T>) -> (v: Vec<T>)
    ensures
        v@ == collected(items@),
{
    let mut v: Vec<T> = Vec::new();
    let ghost all = items@;
    for item in it: items.into_iter()
        invariant
            it.seq() == all,
            v@ == collected(all.take(it.index() as int)),
    {
        proof {
            let next = all.take(it.index() + 1);
            assert(next.drop_last() =~= all.take(it.index() as int));
            assert(next.last() == item);
        }
        put(&mut v, item);
    }
    assert(all.take(all.len() as int) =~= all);
    v
}

} // verus!
