//! A map from strings to strings, kept as a vector of entries with
//! pairwise distinct keys.

use vstd::prelude::*;

verus! {

/// Whether no two entries share a key.
pub open spec fn keys_distinct(s: Seq<(String, String)>) -> bool {
    forall|i: int, j: int|
        0 <= i < s.len() && 0 <= j < s.len() && i != j ==> #[trigger] s[i].0@ != #[trigger] s[j].0@
}

/// The map that a sequence of entries stands for, later entries winning.
pub open spec fn map_of(s: Seq<(String, String)>) -> Map<Seq<char>, Seq<char>>
    decreases s.len(),
{
    if s.len() == 0 {
        Map::empty()
    } else {
        map_of(s.drop_last()).insert(s.last().0@, s.last().1@)
    }
}

/// A key that no entry holds is absent from the map.
pub proof fn lemma_map_of_absent(s: Seq<(String, String)>, k: Seq<char>)
    requires
        forall|i: int| 0 <= i < s.len() ==> #[trigger] s[i].0@ != k,
    ensures
        !map_of(s).contains_key(k),
    decreases s.len(),
{
    if s.len() > 0 {
        assert(s.drop_last().len() == s.len() - 1);
        assert forall|i: int| 0 <= i < s.drop_last().len() implies #[trigger] s.drop_last()[i].0@
            != k by {
            assert(s.drop_last()[i] == s[i]);
        }
        lemma_map_of_absent(s.drop_last(), k);
        assert(s.last() == s[s.len() - 1]);
    }
}

/// With distinct keys, the map sends the key of each entry to its value.
pub proof fn lemma_map_of_index(s: Seq<(String, String)>, i: int)
    requires
        keys_distinct(s),
        0 <= i < s.len(),
    ensures
        map_of(s).contains_key(s[i].0@),
        map_of(s)[s[i].0@] == s[i].1@,
    decreases s.len(),
{
    if i < s.len() - 1 {
        let t = s.drop_last();
        assert(t[i] == s[i]);
        assert forall|a: int, b: int|
            0 <= a < t.len() && 0 <= b < t.len() && a != b implies #[trigger] t[a].0@
            != #[trigger] t[b].0@ by {
            assert(t[a] == s[a]);
            assert(t[b] == s[b]);
        }
        lemma_map_of_index(t, i);
        assert(s.last() == s[s.len() - 1]);
        assert(s[s.len() - 1].0@ != s[i].0@);
    }
}

/// The map holds a key exactly when some entry holds it.
pub proof fn lemma_map_of_domain(s: Seq<(String, String)>, k: Seq<char>)
    requires
        keys_distinct(s),
    ensures
        map_of(s).contains_key(k) <==> exists|i: int| 0 <= i < s.len() && #[trigger] s[i].0@ == k,
{
    if exists|i: int| 0 <= i < s.len() && #[trigger] s[i].0@ == k {
        let i = choose|i: int| 0 <= i < s.len() && #[trigger] s[i].0@ == k;
        lemma_map_of_index(s, i);
    } else {
        lemma_map_of_absent(s, k);
    }
}

/// Overwriting the value of an entry overwrites the key's value in the map.
pub proof fn lemma_map_of_update(s: Seq<(String, String)>, i: int, e: (String, String))
    requires
        keys_distinct(s),
        0 <= i < s.len(),
        e.0@ == s[i].0@,
    ensures
        keys_distinct(s.update(i, e)),
        map_of(s.update(i, e)) == map_of(s).insert(e.0@, e.1@),
{
    let t = s.update(i, e);
    assert forall|a: int, b: int|
        0 <= a < t.len() && 0 <= b < t.len() && a != b implies #[trigger] t[a].0@
        != #[trigger] t[b].0@ by {
        assert(t[a].0@ == s[a].0@);
        assert(t[b].0@ == s[b].0@);
    }
    let m1 = map_of(t);
    let m2 = map_of(s).insert(e.0@, e.1@);
    assert forall|k: Seq<char>| m1.contains_key(k) <==> m2.contains_key(k) by {
        lemma_map_of_domain(s, k);
        lemma_map_of_domain(t, k);
        if exists|j: int| 0 <= j < s.len() && #[trigger] s[j].0@ == k {
            let j = choose|j: int| 0 <= j < s.len() && #[trigger] s[j].0@ == k;
            assert(t[j].0@ == k);
        }
        if exists|j: int| 0 <= j < t.len() && #[trigger] t[j].0@ == k {
            let j = choose|j: int| 0 <= j < t.len() && #[trigger] t[j].0@ == k;
            assert(s[j].0@ == k);
        }
    }
    assert forall|k: Seq<char>| m1.contains_key(k) implies m1[k] == m2[k] by {
        lemma_map_of_domain(t, k);
        let j = choose|j: int| 0 <= j < t.len() && #[trigger] t[j].0@ == k;
        lemma_map_of_index(t, j);
        if j == i {
        } else {
            assert(t[j] == s[j]);
            lemma_map_of_index(s, j);
        }
    }
    assert(m1 =~= m2);
}

/// What a map gives back after a write: reading the written key gives the
/// value written, and every other key keeps its value (or its absence).
pub proof fn lemma_read_after_write(
    before: Map<Seq<char>, Seq<char>>,
    key: Seq<char>,
    value: Seq<char>,
    other: Seq<char>,
)
    requires
        other != key,
    ensures
        before.insert(key, value).contains_key(key),
        before.insert(key, value)[key] == value,
        before.insert(key, value).contains_key(other) == before.contains_key(other),
        before.contains_key(other) ==> before.insert(key, value)[other] == before[other],
{
}

/// A string-keyed map of strings.
pub struct StringMap {
    entries: Vec<(String, String)>,
}

impl View for StringMap {
    type V = Map<Seq<char>, Seq<char>>;

    closed spec fn view(&self) -> Map<Seq<char>, Seq<char>> {
        map_of(self.entries@)
    }
}

impl StringMap {
    #[verifier::type_invariant]
    spec fn inv(self) -> bool {
        keys_distinct(self.entries@)
    }

    /// An empty map.
    pub fn new() -> (m: Self)
        ensures
            m@ == Map::<Seq<char>, Seq<char>>::empty(),
    {
        StringMap { entries: Vec::new() }
    }

    /// The value stored under `key`, if any.
    pub fn get(&self, key: &str) -> (res: Option<&String>)
        ensures
            match res {
                Some(v) => self@.contains_key(key@) && self@[key@] == v@,
                None => !self@.contains_key(key@),
            },
    {
        proof {
            use_type_invariant(self);
        }
        let k = key.to_owned();
        let n = self.entries.len();
        let mut i: usize = 0;
        while i < n
            invariant
                n == self.entries@.len(),
                i <= n,
                k@ == key@,
                keys_distinct(self.entries@),
                forall|j: int| 0 <= j < i ==> #[trigger] self.entries@[j].0@ != key@,
            decreases n - i,
        {
            if self.entries[i].0 == k {
                proof {
                    lemma_map_of_index(self.entries@, i as int);
                }
                return Some(&self.entries[i].1);
            }
            i += 1;
        }
        proof {
            lemma_map_of_absent(self.entries@, key@);
        }
        None
    }

    /// Stores `value` under `key`, replacing what was stored there.
    pub fn insert(&mut self, key: String, value: String)
        ensures
            final(self)@ == old(self)@.insert(key@, value@),
    {
        proof {
            use_type_invariant(&*self);
        }
        let mut entries: Vec<(String, String)> = Vec::new();
        std::mem::swap(&mut entries, &mut self.entries);
        let ghost old_entries = entries@;
        let n = entries.len();
        let mut i: usize = 0;
        let mut found = false;
        while i < n
            invariant_except_break
                !found,
                forall|j: int| 0 <= j < i ==> #[trigger] old_entries[j].0@ != key@,
            invariant
                n == entries@.len(),
                i <= n,
                entries@ == old_entries,
                keys_distinct(old_entries),
            ensures
                found ==> i < n && old_entries[i as int].0@ == key@,
                !found ==> forall|j: int| 0 <= j < n ==> #[trigger] old_entries[j].0@ != key@,
            decreases n - i,
        {
            if entries[i].0 == key {
                found = true;
                break;
            }
            i += 1;
        }
        if found {
            proof {
                lemma_map_of_update(old_entries, i as int, (key, value));
            }
            entries.set(i, (key, value));
        } else {
            entries.push((key, value));
            assert(entries@.drop_last() =~= old_entries);
            assert forall|a: int, b: int|
                0 <= a < entries@.len() && 0 <= b < entries@.len() && a
                    != b implies #[trigger] entries@[a].0@ != #[trigger] entries@[b].0@ by {
                if a < n && b < n {
                    assert(entries@[a] == old_entries[a]);
                    assert(entries@[b] == old_entries[b]);
                }
            }
        }
        self.entries = entries;
    }
}

} // verus!
