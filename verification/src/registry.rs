//! The registries that were discovered and not yet tried, by priority.

use vstd::prelude::*;

use crate::mdns::{NmosMdnsRegistry, RegistryView};

verus! {

/// Whether `i` is the place of the entry that leaves `s` first: no entry has
/// a smaller `pri`, and every entry before it has a greater one.
pub open spec fn least_at(s: Seq<RegistryView>, i: int) -> bool {
    &&& 0 <= i < s.len()
    &&& forall|j: int| 0 <= j < s.len() ==> s[i].pri <= (#[trigger] s[j]).pri
    &&& forall|j: int| 0 <= j < i ==> s[i].pri < (#[trigger] s[j]).pri
}

/// The place of the entry that leaves `s` first; meaningful where `s` is not
/// empty.
pub open spec fn least(s: Seq<RegistryView>) -> int {
    choose|i: int| least_at(s, i)
}

/// The entries of `s` in the order in which they leave.
pub open spec fn drained(s: Seq<RegistryView>) -> Seq<RegistryView>
    decreases s.len(),
{
    if s.len() == 0 {
        Seq::<RegistryView>::empty()
    } else if least_at(s, least(s)) {
        seq![s[least(s)]] + drained(s.remove(least(s)))
    } else {
        Seq::<RegistryView>::empty()
    }
}

/// `s` after `registry` was pushed: an entry equal to it is not added again.
pub open spec fn pushed(s: Seq<RegistryView>, registry: RegistryView) -> Seq<RegistryView> {
    if s.contains(registry) {
        s
    } else {
        s.push(registry)
    }
}

/// A sequence that is not empty has a place that leaves first, and only one.
pub proof fn lemma_least(s: Seq<RegistryView>)
    requires
        s.len() > 0,
    ensures
        least_at(s, least(s)),
        forall|i: int| least_at(s, i) ==> i == least(s),
{
    lemma_least_exists(s, s.len() as int);
    let p = least(s);
    assert forall|i: int| least_at(s, i) implies i == p by {
        if i < p {
            assert(s[p].pri < s[i].pri);
            assert(s[i].pri <= s[p].pri);
        } else if p < i {
            assert(s[i].pri < s[p].pri);
            assert(s[p].pri <= s[i].pri);
        }
    }
}

/// Among the first `n` entries one leaves first.
proof fn lemma_least_exists(s: Seq<RegistryView>, n: int)
    requires
        0 < n <= s.len(),
    ensures
        exists|i: int| least_at(s.take(n), i),
        n == s.len() ==> exists|i: int| least_at(s, i),
    decreases n,
{
    let t = s.take(n);
    if n == 1 {
        assert(least_at(t, 0));
    } else {
        lemma_least_exists(s, n - 1);
        let front = s.take(n - 1);
        let i = choose|i: int| least_at(front, i);
        assert forall|j: int| 0 <= j < front.len() implies #[trigger] front[j] == t[j] by {}
        if t[n - 1].pri < front[i].pri {
            assert(least_at(t, n - 1)) by {
                assert forall|j: int| 0 <= j < n - 1 implies t[n - 1].pri < (#[trigger] t[j]).pri by {
                    assert(front[i].pri <= front[j].pri);
                }
            }
        } else {
            assert(least_at(t, i)) by {
                assert forall|j: int| 0 <= j < t.len() implies t[i].pri <= (#[trigger] t[j]).pri by {
                    if j < n - 1 {
                        assert(front[i].pri <= front[j].pri);
                    }
                }
                assert forall|j: int| 0 <= j < i implies t[i].pri < (#[trigger] t[j]).pri by {
                    assert(front[i].pri < front[j].pri);
                }
            }
        }
    }
    if n == s.len() {
        assert(t =~= s);
    }
}

/// Entries leave in ascending order of `pri`: of two that leave one after
/// the other, the second has no smaller `pri` than the first. All entries
/// leave, each once.
pub proof fn lemma_drained_ascends(s: Seq<RegistryView>)
    ensures
        drained(s).len() == s.len(),
        forall|i: int, j: int|
            0 <= i <= j < s.len() ==> (#[trigger] drained(s)[i]).pri <= (#[trigger] drained(
                s,
            )[j]).pri,
        forall|i: int| 0 <= i < s.len() ==> s.contains(#[trigger] drained(s)[i]),
    decreases s.len(),
{
    if s.len() > 0 {
        lemma_least(s);
        let p = least(s);
        let rest = s.remove(p);
        lemma_drained_ascends(rest);
        let d = drained(s);
        assert(d =~= seq![s[p]] + drained(rest));
        assert forall|k: int| 0 <= k < rest.len() implies s.contains(#[trigger] rest[k]) && s[p].pri
            <= rest[k].pri by {
            if k < p {
                assert(rest[k] == s[k]);
            } else {
                assert(rest[k] == s[k + 1]);
            }
        }
        assert forall|i: int| 0 <= i < s.len() implies s.contains(#[trigger] d[i]) by {
            if i > 0 {
                let x = drained(rest)[i - 1];
                assert(d[i] == x);
                assert(rest.contains(x));
                let k = choose|k: int| 0 <= k < rest.len() && rest[k] == x;
                assert(s.contains(rest[k]));
            }
        }
        assert forall|i: int, j: int| 0 <= i <= j < s.len() implies (#[trigger] d[i]).pri <= (
        #[trigger] d[j]).pri by {
            if i == 0 && j > 0 {
                let x = drained(rest)[j - 1];
                assert(d[j] == x);
                assert(rest.contains(x));
                let k = choose|k: int| 0 <= k < rest.len() && rest[k] == x;
                assert(s[p].pri <= rest[k].pri);
            } else if i > 0 {
                assert(d[i] == drained(rest)[i - 1]);
                assert(d[j] == drained(rest)[j - 1]);
            }
        }
    }
}

/// Whether two registries are equal in every field.
pub fn same_registry(a: &NmosMdnsRegistry, b: &NmosMdnsRegistry) -> (r: bool)
    ensures
        r == (a@ == b@),
{
    if a.pri != b.pri || a.api_auth != b.api_auth || a.api_ver.len() != b.api_ver.len() {
        return false;
    }
    if !(a.api_proto == b.api_proto) || !(a.url == b.url) {
        return false;
    }
    let mut i: usize = 0;
    while i < a.api_ver.len()
        invariant
            i <= a.api_ver.len(),
            a.api_ver.len() == b.api_ver.len(),
            forall|j: int| 0 <= j < i ==> a.api_ver@[j] == b.api_ver@[j],
        decreases a.api_ver.len() - i,
    {
        if a.api_ver[i] != b.api_ver[i] {
            assert(a@.api_ver[i as int] != b@.api_ver[i as int]);
            return false;
        }
        i = i + 1;
    }
    assert(a.api_ver@ =~= b.api_ver@);
    true
}

/// The registries that wait to be tried. The one with the smallest `pri`
/// leaves first; of several with the same `pri`, the one that came first.
#[derive(Debug)]
pub struct RegistryTable {
    entries: Vec<NmosMdnsRegistry>,
}

impl View for RegistryTable {
    type V = Seq<RegistryView>;

    closed spec fn view(&self) -> Seq<RegistryView> {
        Seq::new(self.entries@.len(), |i: int| self.entries@[i]@)
    }
}

impl RegistryTable {
    /// A table without entries.
    pub fn new() -> (t: RegistryTable)
        ensures
            t@.len() == 0,
    {
        RegistryTable { entries: Vec::new() }
    }

    /// The number of entries.
    pub fn len(&self) -> (n: usize)
        ensures
            n == self@.len(),
    {
        self.entries.len()
    }

    /// Whether the table has no entry.
    pub fn is_empty(&self) -> (r: bool)
        ensures
            r == (self@.len() == 0),
    {
        self.entries.len() == 0
    }

    /// Adds a registry, unless the table holds one equal to it in every
    /// field.
    pub fn push(&mut self, registry: NmosMdnsRegistry)
        ensures
            final(self)@ == pushed(old(self)@, registry@),
    {
        let mut i: usize = 0;
        while i < self.entries.len()
            invariant
                i <= self.entries.len(),
                *self == *old(self),
                forall|j: int| 0 <= j < i ==> self@[j] != registry@,
            decreases self.entries.len() - i,
        {
            if same_registry(&self.entries[i], &registry) {
                assert(self@[i as int] == registry@);
                return ;
            }
            i = i + 1;
        }
        self.entries.push(registry);
        assert(self@ =~= old(self)@.push(registry@));
    }

    /// Takes out the registry that leaves first, if there is one.
    pub fn pop(&mut self) -> (r: Option<NmosMdnsRegistry>)
        ensures
            old(self)@.len() == 0 ==> r is None && final(self)@ == old(self)@,
            old(self)@.len() > 0 ==> r is Some && r->0@ == old(self)@[least(old(self)@)]
                && final(self)@ == old(self)@.remove(least(old(self)@)),
            old(self)@.len() > 0 ==> least_at(old(self)@, least(old(self)@)),
            old(self)@.len() > 0 ==> r->0@ == drained(old(self)@)[0] && drained(final(self)@)
                == drained(old(self)@).skip(1),
            r matches Some(registry) ==> forall|j: int|
                0 <= j < old(self)@.len() ==> registry.pri <= (#[trigger] old(self)@[j]).pri,
    {
        if self.entries.len() == 0 {
            return None;
        }
        let mut best: usize = 0;
        let mut i: usize = 1;
        while i < self.entries.len()
            invariant
                1 <= i <= self.entries.len(),
                best < i,
                *self == *old(self),
                forall|j: int| 0 <= j < i ==> self@[best as int].pri <= (#[trigger] self@[j]).pri,
                forall|j: int| 0 <= j < best ==> self@[best as int].pri < (#[trigger] self@[j]).pri,
            decreases self.entries.len() - i,
        {
            if self.entries[i].pri < self.entries[best].pri {
                best = i;
            }
            i = i + 1;
        }
        proof {
            assert(least_at(self@, best as int));
            lemma_least(self@);
        }
        let registry = self.entries.remove(best);
        assert(self@ =~= old(self)@.remove(best as int));
        assert(drained(old(self)@).skip(1) =~= drained(self@));
        Some(registry)
    }
}

} // verus!
