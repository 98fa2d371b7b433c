//! Maps and sets with few entries, kept in the order in which the entries came.

use vstd::prelude::*;
use crate::text;

verus! {

/// A key that can be told apart from others of its kind.
pub trait Key: View + Sized {
    /// Are the keys equal?
    fn matches(&self, other: &Self) -> (r: bool)
        ensures
            r == (self@ == other@),
    ;
}

impl Key for String {
    fn matches(&self, other: &Self) -> (r: bool) {
        text::same(self.as_str(), other.as_str())
    }
}

impl Key for (String, String) {
    fn matches(&self, other: &Self) -> (r: bool) {
        self.0.matches(&other.0) && self.1.matches(&other.1)
    }
}

/// A map from keys to values. Of two entries with one key the later counts; what is built by
/// `new` and `insert` alone holds no key twice.
#[verifier::reject_recursive_types(K)]
#[verifier::reject_recursive_types(V)]
pub struct Lookup<K: Key, V> {
    pub entries: Vec<(K, V)>,
}

/// The map that a list of entries stands for, the later of two entries with one key counting.
pub open spec fn entries_map<K: Key, V>(s: Seq<(K, V)>) -> Map<K::V, V>
    decreases s.len(),
{
    if s.len() == 0 {
        Map::empty()
    } else {
        entries_map(s.drop_last()).insert(s.last().0@, s.last().1)
    }
}

/// Does no key occur twice?
pub open spec fn keys_differ<K: Key, V>(s: Seq<(K, V)>) -> bool {
    forall|i: int, j: int| 0 <= i < j < s.len() ==> (#[trigger] s[i]).0@ != (#[trigger] s[j]).0@
}

impl<K: Key, V> View for Lookup<K, V> {
    type V = Map<K::V, V>;

    open spec fn view(&self) -> Map<K::V, V> {
        entries_map(self.entries@)
    }
}

/// Is `i` the last entry with the key `k`?
spec fn last_with<K: Key, V>(s: Seq<(K, V)>, k: K::V, i: int) -> bool {
    &&& 0 <= i < s.len()
    &&& s[i].0@ == k
    &&& forall|j: int| i < j < s.len() ==> (#[trigger] s[j]).0@ != k
}

proof fn lemma_last_entry_counts<K: Key, V>(s: Seq<(K, V)>, k: K::V, i: int)
    requires
        last_with(s, k, i),
    ensures
        entries_map(s).contains_key(k),
        entries_map(s)[k] == s[i].1,
    decreases s.len(),
{
    if i < s.len() - 1 {
        let t = s.drop_last();
        assert(s[s.len() - 1].0@ != k);
        assert forall|j: int| i < j < t.len() implies (#[trigger] t[j]).0@ != k by {
            assert(t[j] == s[j]);
        }
        lemma_last_entry_counts(t, k, i);
    }
}

proof fn lemma_absent_key<K: Key, V>(s: Seq<(K, V)>, k: K::V)
    requires
        forall|j: int| 0 <= j < s.len() ==> (#[trigger] s[j]).0@ != k,
    ensures
        !entries_map(s).contains_key(k),
    decreases s.len(),
{
    if s.len() > 0 {
        let t = s.drop_last();
        assert(s[s.len() - 1].0@ != k);
        assert forall|j: int| 0 <= j < t.len() implies (#[trigger] t[j]).0@ != k by {
            assert(t[j] == s[j]);
        }
        lemma_absent_key(t, k);
    }
}

proof fn lemma_update_last_entry<K: Key, V>(s: Seq<(K, V)>, i: int, e: (K, V))
    requires
        last_with(s, e.0@, i),
    ensures
        entries_map(s.update(i, e)) == entries_map(s).insert(e.0@, e.1),
    decreases s.len(),
{
    let u = s.update(i, e);
    if i == s.len() - 1 {
        assert(u.drop_last() =~= s.drop_last());
        assert(entries_map(u) =~= entries_map(s).insert(e.0@, e.1));
    } else {
        let t = s.drop_last();
        assert(s[s.len() - 1].0@ != e.0@);
        assert forall|j: int| i < j < t.len() implies (#[trigger] t[j]).0@ != e.0@ by {
            assert(t[j] == s[j]);
        }
        lemma_update_last_entry(t, i, e);
        assert(u.drop_last() =~= t.update(i, e));
        assert(entries_map(u) =~= entries_map(s).insert(e.0@, e.1));
    }
}

impl<K: Key, V> Lookup<K, V> {
    /// No key occurs twice.
    pub open spec fn wf(&self) -> bool {
        keys_differ(self.entries@)
    }

    /// A map without entries.
    pub fn new() -> (r: Self)
        ensures
            r.wf(),
            r@ == Map::<K::V, V>::empty(),
            r.entries@.len() == 0,
    {
        Lookup { entries: Vec::new() }
    }

    /// Is there no entry?
    pub fn is_empty(&self) -> (r: bool)
        ensures
            r == (self.entries@.len() == 0),
            r == (self@ == Map::<K::V, V>::empty()),
    {
        proof {
            if self.entries@.len() == 0 {
                assert(self@ =~= Map::<K::V, V>::empty());
            } else {
                assert(self@.contains_key(self.entries@.last().0@));
            }
        }
        self.entries.len() == 0
    }

    /// Where the entry that counts for this key stands.
    fn position(&self, key: &K) -> (r: Option<usize>)
        ensures
            match r {
                Some(i) => last_with(self.entries@, key@, i as int) && self@.contains_key(key@)
                    && self@[key@] == self.entries@[i as int].1,
                None => !self@.contains_key(key@) && forall|j: int|
                    0 <= j < self.entries@.len() ==> (#[trigger] self.entries@[j]).0@ != key@,
            },
    {
        let n: usize = self.entries.len();
        let mut i: usize = n;
        while 0 < i
            invariant
                i <= n == self.entries@.len(),
                forall|j: int| i <= j < n ==> (#[trigger] self.entries@[j]).0@ != key@,
            decreases i,
        {
            i -= 1;
            if self.entries[i].0.matches(key) {
                proof {
                    lemma_last_entry_counts(self.entries@, key@, i as int);
                }
                return Some(i);
            }
        }
        proof {
            lemma_absent_key(self.entries@, key@);
        }
        None
    }

    /// The place of the entry that counts for a key.
    pub fn find(&self, key: &K) -> (r: Option<usize>)
        ensures
            match r {
                Some(i) => i < self.entries@.len() && self.entries@[i as int].0@ == key@
                    && self@.contains_key(key@) && self@[key@] == self.entries@[i as int].1,
                None => !self@.contains_key(key@) && forall|j: int|
                    0 <= j < self.entries@.len() ==> (#[trigger] self.entries@[j]).0@ != key@,
            },
    {
        self.position(key)
    }

    /// The value of a key.
    pub fn get(&self, key: &K) -> (r: Option<&V>)
        ensures
            match r {
                Some(v) => self@.contains_key(key@) && self@[key@] == *v,
                None => !self@.contains_key(key@),
            },
    {
        match self.position(key) {
            Some(i) => Some(&self.entries[i].1),
            None => None,
        }
    }

    /// Gives the key a value, in place of any that it had.
    pub fn insert(&mut self, key: K, value: V)
        ensures
            old(self).wf() ==> final(self).wf(),
            final(self)@ == old(self)@.insert(key@, value),
    {
        match self.position(&key) {
            Some(i) => {
                proof {
                    lemma_update_last_entry(self.entries@, i as int, (key, value));
                }
                self.entries.set(i, (key, value));
            },
            None => {
                proof {
                    assert(self.entries@.push((key, value)).drop_last() =~= self.entries@);
                }
                self.entries.push((key, value));
            },
        }
    }
}

impl<V> Lookup<String, V> {
    /// The value of a key that is at hand as a slice.
    pub fn get_str(&self, key: &str) -> (r: Option<&V>)
        ensures
            match r {
                Some(v) => self@.contains_key(key@) && self@[key@] == *v,
                None => !self@.contains_key(key@),
            },
    {
        let owned = text::owned(key);
        self.get(&owned)
    }
}

/// A set of texts, none of them held twice.
pub struct TextSet {
    pub members: Vec<String>,
}

impl View for TextSet {
    type V = Set<Seq<char>>;

    open spec fn view(&self) -> Set<Seq<char>> {
        text::texts(self.members@).to_set()
    }
}

impl TextSet {
    /// No text is held twice.
    pub open spec fn wf(&self) -> bool {
        text::texts(self.members@).no_duplicates()
    }

    /// A set without members.
    pub fn new() -> (r: Self)
        ensures
            r.wf(),
            r@ == Set::<Seq<char>>::empty(),
    {
        let r = TextSet { members: Vec::new() };
        assert(r@ =~= Set::<Seq<char>>::empty());
        r
    }

    /// Is the text a member?
    pub fn contains(&self, t: &str) -> (r: bool)
        ensures
            r == self@.contains(t@),
    {
        let mut i: usize = 0;
        while i < self.members.len()
            invariant
                i <= self.members@.len(),
                forall|j: int| 0 <= j < i ==> (#[trigger] self.members@[j])@ != t@,
            decreases self.members@.len() - i,
        {
            if text::same(self.members[i].as_str(), t) {
                assert(text::texts(self.members@)[i as int] == t@);
                return true;
            }
            i += 1;
        }
        assert(!self@.contains(t@)) by {
            if text::texts(self.members@).contains(t@) {
                let j = choose|j: int|
                    0 <= j < text::texts(self.members@).len() && text::texts(self.members@)[j]
                        == t@;
                assert(self.members@[j]@ == t@);
            }
        }
        false
    }

    /// Makes the text a member.
    pub fn insert(&mut self, t: String)
        ensures
            old(self).wf() ==> final(self).wf(),
            final(self)@ == old(self)@.insert(t@),
    {
        if self.contains(t.as_str()) {
            assert(self@ =~= old(self)@.insert(t@));
        } else {
            let ghost before = text::texts(self.members@);
            self.members.push(t);
            proof {
                let now = text::texts(self.members@);
                assert(now =~= before.push(t@));
                assert(now.to_set() =~= before.to_set().insert(t@)) by {
                    assert forall|x: Seq<char>| now.to_set().contains(x) implies
                        before.to_set().insert(t@).contains(x) by {
                        let j = choose|j: int| 0 <= j < now.len() && now[j] == x;
                        if j < before.len() {
                            assert(before[j] == x);
                        }
                    }
                    assert forall|x: Seq<char>| before.to_set().insert(t@).contains(x) implies
                        now.to_set().contains(x) by {
                        if x == t@ {
                            assert(now[before.len() as int] == x);
                        } else {
                            let j = choose|j: int| 0 <= j < before.len() && before[j] == x;
                            assert(now[j] == x);
                        }
                    }
                }
            }
        }
    }

    /// Do the two sets share a member?
    pub fn meets(&self, other: &TextSet) -> (r: bool)
        ensures
            r == exists|t: Seq<char>| #[trigger] self@.contains(t) && other@.contains(t),
    {
        let mut i: usize = 0;
        while i < self.members.len()
            invariant
                i <= self.members@.len(),
                forall|j: int| 0 <= j < i ==> !other@.contains((#[trigger] self.members@[j])@),
            decreases self.members@.len() - i,
        {
            if other.contains(self.members[i].as_str()) {
                proof {
                    let t = self.members@[i as int]@;
                    assert(text::texts(self.members@)[i as int] == t);
                    assert(self@.contains(t));
                }
                return true;
            }
            i += 1;
        }
        assert forall|t: Seq<char>| #[trigger] self@.contains(t) implies !other@.contains(t) by {
            let all = text::texts(self.members@);
            let j = choose|j: int| 0 <= j < all.len() && all[j] == t;
            assert(self.members@[j]@ == t);
        }
        false
    }
}

/// The members of the set under a key; none when the key has no set.
pub open spec fn members_at<T>(m: Map<T, TextSet>, key: T) -> Set<Seq<char>> {
    if m.contains_key(key) {
        m[key]@
    } else {
        Set::empty()
    }
}

impl<K: Key> Lookup<K, TextSet> {
    /// Makes the text a member of the set under the key.
    pub fn add_member(&mut self, key: K, member: String)
        ensures
            old(self).wf() ==> final(self).wf(),
            final(self)@.dom() == old(self)@.dom().insert(key@),
            forall|k: K::V| #[trigger]
                members_at(final(self)@, k) == if k == key@ {
                    members_at(old(self)@, k).insert(member@)
                } else {
                    members_at(old(self)@, k)
                },
    {
        match self.position(&key) {
            Some(i) => {
                let ghost before = self.entries@;
                self.entries[i].1.insert(member);
                proof {
                    let e = self.entries@[i as int];
                    assert(e.0 == before[i as int].0);
                    assert(self.entries@ =~= before.update(i as int, e));
                    lemma_update_last_entry(before, i as int, e);
                    assert(self@.dom() =~= old(self)@.dom().insert(key@));
                }
            },
            None => {
                let mut fresh = TextSet::new();
                fresh.insert(member);
                let ghost set = fresh@;
                proof {
                    assert(self.entries@.push((key, fresh)).drop_last() =~= self.entries@);
                }
                self.entries.push((key, fresh));
                proof {
                    assert(self@ == old(self)@.insert(key@, fresh));
                    assert(self@.dom() =~= old(self)@.dom().insert(key@));
                }
            },
        }
    }
}

} // verus!
