//! Tags of a resource: lists of values under keys, kept in the order of the
//! keys.

use vstd::prelude::*;

use crate::text::{lemma_lex_total, lemma_lex_transitive, lex_lt, str_eq, str_lt};

verus! {

/// The mathematical form of a tag set: pairs of a key and its values, in order.
pub type TagsView = Seq<(Seq<char>, Seq<Seq<char>>)>;

/// Whether the keys of `s` come in strictly ascending lexicographic order.
pub open spec fn keys_ascending(s: TagsView) -> bool {
    forall|i: int, j: int| 0 <= i < j < s.len() ==> lex_lt(#[trigger] s[i].0, #[trigger] s[j].0)
}

/// The number of leading entries of `s` whose key comes before `key`.
pub open spec fn lower_bound(s: TagsView, key: Seq<char>) -> int
    decreases s.len(),
{
    if s.len() > 0 && lex_lt(s[0].0, key) {
        1 + lower_bound(s.skip(1), key)
    } else {
        0
    }
}

/// `s` with `values` under `key`: in place of the entry with that key if there
/// is one, else as a new entry at the key's place in the order.
pub open spec fn with_tag(s: TagsView, key: Seq<char>, values: Seq<Seq<char>>) -> TagsView {
    let at = lower_bound(s, key);
    if at < s.len() && s[at].0 == key {
        s.update(at, (key, values))
    } else {
        s.insert(at, (key, values))
    }
}

/// The values under `key` in `s`, if the key is there.
pub open spec fn tag_values(s: TagsView, key: Seq<char>) -> Option<Seq<Seq<char>>> {
    if exists|i: int| 0 <= i < s.len() && s[i].0 == key {
        let i = choose|i: int| 0 <= i < s.len() && s[i].0 == key;
        Some(s[i].1)
    } else {
        None
    }
}

/// The characters of each string of `v`.
pub open spec fn texts(v: Seq<String>) -> Seq<Seq<char>> {
    Seq::new(v.len(), |i: int| v[i]@)
}

/// The bound lies within the sequence; the entries before it have smaller
/// keys; and in an ascending sequence all entries from it on have keys that
/// are not smaller.
pub proof fn lemma_lower_bound(s: TagsView, key: Seq<char>)
    ensures
        0 <= lower_bound(s, key) <= s.len(),
        forall|i: int| 0 <= i < lower_bound(s, key) ==> lex_lt(#[trigger] s[i].0, key),
        lower_bound(s, key) < s.len() ==> !lex_lt(s[lower_bound(s, key)].0, key),
        keys_ascending(s) ==> forall|i: int|
            lower_bound(s, key) <= i < s.len() ==> !lex_lt(#[trigger] s[i].0, key),
    decreases s.len(),
{
    if s.len() > 0 && lex_lt(s[0].0, key) {
        let rest = s.skip(1);
        lemma_lower_bound(rest, key);
        let at = lower_bound(s, key);
        assert forall|i: int| 0 <= i < at implies lex_lt(#[trigger] s[i].0, key) by {
            if i > 0 {
                assert(s[i] == rest[i - 1]);
            }
        }
        if at < s.len() {
            assert(s[at] == rest[at - 1]);
        }
        if keys_ascending(s) {
            assert(keys_ascending(rest)) by {
                assert forall|i: int, j: int| 0 <= i < j < rest.len() implies lex_lt(
                    #[trigger] rest[i].0,
                    #[trigger] rest[j].0,
                ) by {
                    assert(rest[i] == s[i + 1] && rest[j] == s[j + 1]);
                }
            }
            assert forall|i: int| at <= i < s.len() implies !lex_lt(#[trigger] s[i].0, key) by {
                assert(s[i] == rest[i - 1]);
            }
        }
    } else if keys_ascending(s) {
        assert forall|i: int| 0 <= i < s.len() implies !lex_lt(#[trigger] s[i].0, key) by {
            if i > 0 && lex_lt(s[i].0, key) {
                lemma_lex_transitive(s[0].0, s[i].0, key);
            }
        }
    }
}

/// Adding a tag keeps the keys ascending.
pub proof fn lemma_with_tag_ascending(s: TagsView, key: Seq<char>, values: Seq<Seq<char>>)
    requires
        keys_ascending(s),
    ensures
        keys_ascending(with_tag(s, key, values)),
        0 <= lower_bound(s, key) < with_tag(s, key, values).len(),
        with_tag(s, key, values)[lower_bound(s, key)] == (key, values),
{
    let at = lower_bound(s, key);
    let t = with_tag(s, key, values);
    lemma_lower_bound(s, key);
    if at < s.len() && s[at].0 == key {
        assert forall|i: int, j: int| 0 <= i < j < t.len() implies lex_lt(
            #[trigger] t[i].0,
            #[trigger] t[j].0,
        ) by {
            assert(t[i].0 == s[i].0 && t[j].0 == s[j].0);
        }
    } else {
        assert forall|i: int, j: int| 0 <= i < j < t.len() implies lex_lt(
            #[trigger] t[i].0,
            #[trigger] t[j].0,
        ) by {
            if i == at {
                assert(t[j] == s[j - 1]);
                assert(!lex_lt(s[j - 1].0, key));
                lemma_lex_total(s[j - 1].0, key);
                if s[j - 1].0 == key {
                    assert(j - 1 > at);
                    assert(lex_lt(s[at].0, s[j - 1].0));
                    assert(!lex_lt(s[at].0, key));
                }
            } else if j == at {
                assert(t[i] == s[i]);
            } else if j < at {
                assert(t[i] == s[i] && t[j] == s[j]);
            } else if i < at {
                assert(t[i] == s[i] && t[j] == s[j - 1]);
            } else {
                assert(t[i] == s[i - 1] && t[j] == s[j - 1]);
            }
        }
    }
}

/// After a tag was added, its key has the values given, and every other key
/// has the values that it had.
pub proof fn lemma_with_tag(s: TagsView, key: Seq<char>, values: Seq<Seq<char>>)
    requires
        keys_ascending(s),
    ensures
        keys_ascending(with_tag(s, key, values)),
        tag_values(with_tag(s, key, values), key) == Some(values),
        forall|other: Seq<char>|
            other != key ==> tag_values(with_tag(s, key, values), other) == tag_values(s, other),
{
    let at = lower_bound(s, key);
    let t = with_tag(s, key, values);
    lemma_with_tag_ascending(s, key, values);
    lemma_unique_key(t, at);
    assert forall|other: Seq<char>| other != key implies tag_values(t, other) == tag_values(
        s,
        other,
    ) by {
        lemma_with_tag_other(s, key, values, other);
    }
}

/// After a tag was added, another key has the values that it had.
proof fn lemma_with_tag_other(
    s: TagsView,
    key: Seq<char>,
    values: Seq<Seq<char>>,
    other: Seq<char>,
)
    requires
        keys_ascending(s),
        other != key,
    ensures
        tag_values(with_tag(s, key, values), other) == tag_values(s, other),
{
    let at = lower_bound(s, key);
    let t = with_tag(s, key, values);
    lemma_with_tag_ascending(s, key, values);
    lemma_lower_bound(s, key);
    let replaced = at < s.len() && s[at].0 == key;
    if exists|i: int| 0 <= i < s.len() && s[i].0 == other {
        let i = choose|i: int| 0 <= i < s.len() && s[i].0 == other;
        lemma_unique_key(s, i);
        let ti = if replaced || i < at {
            i
        } else {
            i + 1
        };
        assert(t[ti] == s[i]);
        lemma_unique_key(t, ti);
    } else if exists|i: int| 0 <= i < t.len() && t[i].0 == other {
        let i = choose|i: int| 0 <= i < t.len() && t[i].0 == other;
        assert(i != at);
        let si = if replaced || i < at {
            i
        } else {
            i - 1
        };
        assert(t[i] == s[si]);
        assert(false);
    }
}

/// In an ascending sequence a key stands at one place only, so looking it up
/// gives the values at that place.
pub proof fn lemma_unique_key(s: TagsView, i: int)
    requires
        keys_ascending(s),
        0 <= i < s.len(),
    ensures
        tag_values(s, s[i].0) == Some(s[i].1),
{
    let j = choose|j: int| 0 <= j < s.len() && s[j].0 == s[i].0;
    if j < i {
        assert(lex_lt(s[j].0, s[i].0));
        lemma_lex_total(s[i].0, s[i].0);
    } else if i < j {
        assert(lex_lt(s[i].0, s[j].0));
        lemma_lex_total(s[i].0, s[i].0);
    }
}

/// A copy of a list of strings.
pub fn clone_strings(v: &Vec<String>) -> (r: Vec<String>)
    ensures
        r@ == v@,
{
    let mut r: Vec<String> = Vec::new();
    let mut i: usize = 0;
    while i < v.len()
        invariant
            i <= v.len(),
            r@ == v@.take(i as int),
        decreases v.len() - i,
    {
        r.push(v[i].clone());
        assert(r@ =~= v@.take(i + 1));
        i = i + 1;
    }
    assert(v@.take(v.len() as int) =~= v@);
    r
}

/// The strings of a list of string slices.
pub fn to_strings(v: &[&str]) -> (r: Vec<String>)
    ensures
        texts(r@) == Seq::new(v@.len(), |i: int| v@[i]@),
{
    let mut r: Vec<String> = Vec::new();
    let mut i: usize = 0;
    while i < v.len()
        invariant
            i <= v.len(),
            r@.len() == i,
            forall|j: int| 0 <= j < i ==> r@[j]@ == v@[j]@,
        decreases v.len() - i,
    {
        r.push(v[i].to_owned());
        i = i + 1;
    }
    assert(texts(r@) =~= Seq::new(v@.len(), |i: int| v@[i]@));
    r
}

/// A set of tags. The keys are distinct and come in lexicographic order.
#[derive(Debug)]
pub struct Tags {
    entries: Vec<(String, Vec<String>)>,
}

impl View for Tags {
    type V = TagsView;

    closed spec fn view(&self) -> TagsView {
        Seq::new(self.entries@.len(), |i: int| (self.entries@[i].0@, texts(self.entries@[i].1@)))
    }
}

impl Tags {
    #[verifier::type_invariant]
    spec fn ordered(&self) -> bool {
        keys_ascending(self@)
    }

    /// A set without tags.
    pub fn new() -> (t: Tags)
        ensures
            t@ == TagsView::empty(),
    {
        let t = Tags { entries: Vec::new() };
        assert(t@ =~= TagsView::empty());
        t
    }

    /// The number of keys. They stand in ascending order.
    pub fn len(&self) -> (n: usize)
        ensures
            n == self@.len(),
            keys_ascending(self@),
    {
        proof {
            use_type_invariant(self);
        }
        self.entries.len()
    }

    /// Whether there is no tag.
    pub fn is_empty(&self) -> (r: bool)
        ensures
            r == (self@.len() == 0),
    {
        self.entries.len() == 0
    }

    /// The key at place `i`.
    pub fn key(&self, i: usize) -> (k: &String)
        requires
            i < self@.len(),
        ensures
            k@ == self@[i as int].0,
    {
        &self.entries[i].0
    }

    /// The values at place `i`.
    pub fn values(&self, i: usize) -> (v: &Vec<String>)
        requires
            i < self@.len(),
        ensures
            texts(v@) == self@[i as int].1,
    {
        &self.entries[i].1
    }

    /// The values under `key`, if the key is there.
    pub fn get(&self, key: &str) -> (r: Option<&Vec<String>>)
        ensures
            r is Some == tag_values(self@, key@) is Some,
            r matches Some(v) ==> Some(texts(v@)) == tag_values(self@, key@),
    {
        proof {
            use_type_invariant(self);
        }
        let mut i: usize = 0;
        while i < self.entries.len()
            invariant
                i <= self.entries.len(),
                keys_ascending(self@),
                forall|j: int| 0 <= j < i ==> self@[j].0 != key@,
            decreases self.entries.len() - i,
        {
            if str_eq(self.entries[i].0.as_str(), key) {
                proof {
                    lemma_unique_key(self@, i as int);
                }
                return Some(&self.entries[i].1);
            }
            i = i + 1;
        }
        None
    }

    /// A copy of the set.
    pub fn duplicate(&self) -> (t: Tags)
        ensures
            t@ == self@,
    {
        proof {
            use_type_invariant(self);
        }
        let mut entries: Vec<(String, Vec<String>)> = Vec::new();
        let mut i: usize = 0;
        while i < self.entries.len()
            invariant
                i <= self.entries.len(),
                entries@.len() == i,
                forall|j: int|
                    0 <= j < i ==> (#[trigger] entries@[j]).0@ == self.entries@[j].0@
                        && entries@[j].1@ == self.entries@[j].1@,
            decreases self.entries.len() - i,
        {
            let key = self.entries[i].0.clone();
            let values = clone_strings(&self.entries[i].1);
            entries.push((key, values));
            i = i + 1;
        }
        let ghost copy = Seq::new(entries@.len(), |i: int| (entries@[i].0@, texts(entries@[i].1@)));
        assert(copy =~= self@);
        let t = Tags { entries };
        assert(t@ =~= self@);
        t
    }

    /// The set with `values` under `key`, in place of what the key had.
    pub fn with(self, key: String, values: Vec<String>) -> (t: Tags)
        ensures
            t@ == with_tag(self@, key@, texts(values@)),
            keys_ascending(t@),
    {
        proof {
            use_type_invariant(&self);
        }
        let ghost before = self@;
        let mut entries = self.entries;
        let ghost view_of = |e: Seq<(String, Vec<String>)>|
            Seq::new(e.len(), |i: int| (e[i].0@, texts(e[i].1@)));
        assert(view_of(entries@) == before);
        let mut at: usize = 0;
        assert(before.skip(0) =~= before);
        while at < entries.len() && str_lt(entries[at].0.as_str(), key.as_str())
            invariant
                at <= entries.len(),
                before.len() == entries.len(),
                forall|i: int| 0 <= i < before.len() ==> before[i].0 == (#[trigger] entries@[i]).0@,
                lower_bound(before, key@) == at + lower_bound(before.skip(at as int), key@),
            decreases entries.len() - at,
        {
            proof {
                let rest = before.skip(at as int);
                assert(rest[0] == before[at as int]);
                assert(rest.skip(1) =~= before.skip(at + 1));
            }
            at = at + 1;
        }
        proof {
            let rest = before.skip(at as int);
            if at < before.len() {
                assert(rest[0] == before[at as int]);
            }
            assert(lower_bound(before, key@) == at);
            lemma_with_tag(before, key@, texts(values@));
        }
        let ghost after = with_tag(before, key@, texts(values@));
        if at < entries.len() && str_eq(entries[at].0.as_str(), key.as_str()) {
            entries.set(at, (key, values));
        } else {
            entries.insert(at, (key, values));
        }
        assert(view_of(entries@) =~= after);
        Tags { entries }
    }
}

} // verus!
