//! A mapping from identifiers to values that holds each identifier at most
//! once and keeps the order in which they came.
//!
//! It is kept as a list, not as a hashed map: a value is handed back whole
//! when its identifier is taken out, and the entries are walked in order to
//! list them or to take out all that hold one value.

use crate::text::owned;
use vstd::prelude::*;

verus! {

/// One identifier with its value.
pub struct Entry<T> {
    pub key: String,
    pub value: T,
}

/// A mapping from identifiers to values. No identifier occurs twice.
pub struct Registry<T> {
    entries: Vec<Entry<T>>,
}

/// Whether no two of `entries` have the same key.
pub open spec fn keys_distinct<T>(entries: Seq<Entry<T>>) -> bool {
    forall|i: int, j: int|
        0 <= i < j < entries.len() ==> (#[trigger] entries[i]).key@ != (#[trigger] entries[j]).key@
}

/// Whether one of `entries` has the key `key`.
pub open spec fn has_key<T>(entries: Seq<Entry<T>>, key: Seq<char>) -> bool {
    exists|i: int| 0 <= i < entries.len() && (#[trigger] entries[i]).key@ == key
}

/// The place of an entry with the key `key`.
pub open spec fn place_of<T>(entries: Seq<Entry<T>>, key: Seq<char>) -> int {
    choose|i: int| 0 <= i < entries.len() && (#[trigger] entries[i]).key@ == key
}

/// The mapping that `entries` stand for.
pub open spec fn mapping_of<T>(entries: Seq<Entry<T>>) -> Map<Seq<char>, T> {
    Map::new(
        |key: Seq<char>| has_key(entries, key),
        |key: Seq<char>| entries[place_of(entries, key)].value,
    )
}

/// The keys of `entries`, in order.
pub open spec fn keys_of<T>(entries: Seq<Entry<T>>) -> Seq<Seq<char>> {
    Seq::new(entries.len(), |i: int| entries[i].key@)
}

/// With distinct keys, the entry at a place is what the mapping holds for
/// its key.
pub proof fn lemma_mapping_at<T>(entries: Seq<Entry<T>>, i: int)
    requires
        keys_distinct(entries),
        0 <= i < entries.len(),
    ensures
        mapping_of(entries).contains_key(entries[i].key@),
        mapping_of(entries)[entries[i].key@] == entries[i].value,
{
    let key = entries[i].key@;
    assert(has_key(entries, key));
    let p = place_of(entries, key);
    assert(0 <= p < entries.len() && entries[p].key@ == key);
    if p < i {
        assert(entries[p].key@ != entries[i].key@);
    } else if i < p {
        assert(entries[i].key@ != entries[p].key@);
    }
}

/// Appending an entry with a new key inserts it into the mapping.
pub proof fn lemma_mapping_push<T>(entries: Seq<Entry<T>>, entry: Entry<T>)
    requires
        keys_distinct(entries),
        !has_key(entries, entry.key@),
    ensures
        keys_distinct(entries.push(entry)),
        mapping_of(entries.push(entry)) == mapping_of(entries).insert(entry.key@, entry.value),
{
    let after = entries.push(entry);
    assert forall|i: int, j: int| 0 <= i < j < after.len() implies (#[trigger] after[i]).key@ != (
    #[trigger] after[j]).key@ by {
        if j == entries.len() {
            assert(after[i] == entries[i]);
            if after[i].key@ == entry.key@ {
                assert(has_key(entries, entry.key@));
            }
        } else {
            assert(after[i] == entries[i]);
            assert(after[j] == entries[j]);
        }
    }
    let want = mapping_of(entries).insert(entry.key@, entry.value);
    assert forall|key: Seq<char>| #[trigger] mapping_of(after).contains_key(key) == want.contains_key(
        key,
    ) by {
        if has_key(entries, key) {
            let p = place_of(entries, key);
            assert(after[p] == entries[p]);
            assert(has_key(after, key));
        }
        if key == entry.key@ {
            assert(after[entries.len() as int].key@ == key);
            assert(has_key(after, key));
        }
        if has_key(after, key) {
            let p = place_of(after, key);
            if p < entries.len() {
                assert(after[p] == entries[p]);
                assert(has_key(entries, key));
            }
        }
    }
    assert forall|key: Seq<char>| mapping_of(after).contains_key(key) implies #[trigger] mapping_of(
        after,
    )[key] == want[key] by {
        let p = place_of(after, key);
        lemma_mapping_at(after, p);
        if p < entries.len() {
            assert(after[p] == entries[p]);
            lemma_mapping_at(entries, p);
            assert(entries[p].key@ != entry.key@) by {
                if entries[p].key@ == entry.key@ {
                    assert(has_key(entries, entry.key@));
                }
            }
        }
    }
    assert(mapping_of(after) =~= want);
}

/// Taking the entry at a place out removes its key from the mapping.
pub proof fn lemma_mapping_remove<T>(entries: Seq<Entry<T>>, i: int)
    requires
        keys_distinct(entries),
        0 <= i < entries.len(),
    ensures
        keys_distinct(entries.remove(i)),
        !has_key(entries.remove(i), entries[i].key@),
        mapping_of(entries.remove(i)) == mapping_of(entries).remove(entries[i].key@),
        keys_of(entries.remove(i)) == keys_of(entries).remove(i),
{
    let after = entries.remove(i);
    let gone = entries[i].key@;
    assert forall|a: int, b: int| 0 <= a < b < after.len() implies (#[trigger] after[a]).key@ != (
    #[trigger] after[b]).key@ by {
        let a0 = if a < i {
            a
        } else {
            a + 1
        };
        let b0 = if b < i {
            b
        } else {
            b + 1
        };
        assert(after[a] == entries[a0]);
        assert(after[b] == entries[b0]);
    }
    assert forall|k: int| 0 <= k < after.len() implies (#[trigger] after[k]).key@ != gone by {
        let k0 = if k < i {
            k
        } else {
            k + 1
        };
        assert(after[k] == entries[k0]);
        if k0 < i {
            assert(entries[k0].key@ != entries[i].key@);
        } else {
            assert(entries[i].key@ != entries[k0].key@);
        }
    }
    let want = mapping_of(entries).remove(gone);
    assert forall|key: Seq<char>| #[trigger] mapping_of(after).contains_key(key) == want.contains_key(
        key,
    ) by {
        if has_key(after, key) {
            let p = place_of(after, key);
            let origin = if p < i {
                p
            } else {
                p + 1
            };
            assert(after[p] == entries[origin]);
            assert(has_key(entries, key));
        }
        if has_key(entries, key) && key != gone {
            let p = place_of(entries, key);
            let q = if p < i {
                p
            } else {
                p - 1
            };
            assert(after[q] == entries[p]);
            assert(has_key(after, key));
        }
    }
    assert forall|key: Seq<char>| mapping_of(after).contains_key(key) implies #[trigger] mapping_of(
        after,
    )[key] == want[key] by {
        let p = place_of(after, key);
        let origin = if p < i {
            p
        } else {
            p + 1
        };
        lemma_mapping_at(after, p);
        assert(after[p] == entries[origin]);
        lemma_mapping_at(entries, origin);
    }
    assert(mapping_of(after) =~= want);
    assert(keys_of(after) =~= keys_of(entries).remove(i));
}

impl<T> View for Registry<T> {
    type V = Map<Seq<char>, T>;

    closed spec fn view(&self) -> Map<Seq<char>, T> {
        mapping_of(self.entries@)
    }
}

impl<T> Registry<T> {
    #[verifier::type_invariant]
    spec fn well_formed(&self) -> bool {
        keys_distinct(self.entries@)
    }

    /// The identifiers held, in the order in which they came.
    pub closed spec fn keys(&self) -> Seq<Seq<char>> {
        keys_of(self.entries@)
    }

    /// A registry that holds nothing.
    pub fn new() -> (r: Self)
        ensures
            r@ == Map::<Seq<char>, T>::empty(),
            r.keys() == Seq::<Seq<char>>::empty(),
    {
        let r = Registry { entries: Vec::new() };
        assert(r@ =~= Map::<Seq<char>, T>::empty());
        assert(r.keys() =~= Seq::<Seq<char>>::empty());
        r
    }

    /// The place of the entry with the key `key`.
    fn position(&self, key: &str) -> (r: Option<usize>)
        ensures
            match r {
                Some(i) => i < self.entries@.len() && self.entries@[i as int].key@ == key@,
                None => !has_key(self.entries@, key@),
            },
    {
        let mut i: usize = 0;
        while i < self.entries.len()
            invariant
                i <= self.entries@.len(),
                forall|k: int| 0 <= k < i ==> (#[trigger] self.entries@[k]).key@ != key@,
            decreases self.entries@.len() - i,
        {
            if self.entries[i].key.as_str().eq(key) {
                return Some(i);
            }
            i += 1;
        }
        None
    }

    /// How many identifiers are held.
    pub fn len(&self) -> (r: usize)
        ensures
            r == self.keys().len(),
    {
        self.entries.len()
    }

    /// Whether `key` is held.
    pub fn contains_key(&self, key: &str) -> (r: bool)
        ensures
            r == self@.contains_key(key@),
    {
        self.position(key).is_some()
    }

    /// The value held for `key`.
    pub fn get(&self, key: &str) -> (r: Option<&T>)
        ensures
            match r {
                Some(v) => self@.contains_key(key@) && self@[key@] == *v,
                None => !self@.contains_key(key@),
            },
    {
        proof {
            use_type_invariant(self);
        }
        match self.position(key) {
            Some(i) => {
                proof {
                    lemma_mapping_at(self.entries@, i as int);
                }
                Some(&self.entries[i].value)
            },
            None => None,
        }
    }

    /// Takes the value held for `key` out.
    pub fn remove(&mut self, key: &str) -> (r: Option<T>)
        ensures
            final(self)@ == old(self)@.remove(key@),
            match r {
                Some(v) => old(self)@.contains_key(key@) && old(self)@[key@] == v,
                None => !old(self)@.contains_key(key@),
            },
            forall|k: Seq<char>| final(self).keys().contains(k) <==> old(self).keys().contains(k) && k != key@,
    {
        proof {
            use_type_invariant(&*self);
        }
        match self.position(key) {
            Some(i) => {
                proof {
                    lemma_mapping_at(self.entries@, i as int);
                    lemma_mapping_remove(self.entries@, i as int);
                    lemma_keys_remove(old(self).entries@, i as int);
                }
                let mut entries: Vec<Entry<T>> = Vec::new();
                core::mem::swap(&mut self.entries, &mut entries);
                let entry = entries.remove(i);
                self.entries = entries;
                Some(entry.value)
            },
            None => {
                assert(self@ =~= old(self)@.remove(key@));
                proof {
                    lemma_keys_hold(self.entries@);
                }
                None
            },
        }
    }

    /// Holds `value` for `key` from now on, and hands back what was held for
    /// it before.
    pub fn insert(&mut self, key: &str, value: T) -> (r: Option<T>)
        ensures
            final(self)@ == old(self)@.insert(key@, value),
            match r {
                Some(v) => old(self)@.contains_key(key@) && old(self)@[key@] == v,
                None => !old(self)@.contains_key(key@),
            },
    {
        let before = self.remove(key);
        proof {
            use_type_invariant(&*self);
            lemma_keys_hold(self.entries@);
        }
        let entry = Entry { key: owned(key), value };
        proof {
            assert(!has_key(self.entries@, entry.key@));
            lemma_mapping_push(self.entries@, entry);
        }
        let mut entries: Vec<Entry<T>> = Vec::new();
        core::mem::swap(&mut self.entries, &mut entries);
        entries.push(entry);
        self.entries = entries;
        assert(self@ =~= old(self)@.insert(key@, value));
        before
    }

    /// The identifiers held, in the order in which they came.
    pub fn list(&self) -> (r: Vec<String>)
        ensures
            crate::text::texts(r@) == self.keys(),
            self.keys().no_duplicates(),
    {
        proof {
            use_type_invariant(self);
            assert forall|i: int, j: int|
                0 <= i < keys_of(self.entries@).len() && 0 <= j < keys_of(self.entries@).len() && i
                    != j implies keys_of(self.entries@)[i] != keys_of(self.entries@)[j] by {
                if i < j {
                    assert(self.entries@[i].key@ != self.entries@[j].key@);
                } else {
                    assert(self.entries@[j].key@ != self.entries@[i].key@);
                }
            }
        }
        let mut r: Vec<String> = Vec::new();
        let mut i: usize = 0;
        while i < self.entries.len()
            invariant
                i <= self.entries@.len(),
                crate::text::texts(r@) == keys_of(self.entries@).take(i as int),
            decreases self.entries@.len() - i,
        {
            let ghost before = crate::text::texts(r@);
            let key = owned(self.entries[i].key.as_str());
            r.push(key);
            assert(crate::text::texts(r@) =~= before.push(key@));
            assert(keys_of(self.entries@).take(i + 1) =~= keys_of(self.entries@).take(i as int).push(
                self.entries@[i as int].key@,
            ));
            i += 1;
        }
        assert(keys_of(self.entries@).take(self.entries@.len() as int) == keys_of(self.entries@));
        r
    }

    /// The keys listed are the keys of the mapping.
    pub proof fn lemma_keys(&self)
        ensures
            forall|k: Seq<char>| self.keys().contains(k) <==> self@.contains_key(k),
    {
        lemma_keys_hold(self.entries@);
    }
}

/// The mapping `m` without the keys whose value is the text `value`.
pub open spec fn without_value(m: Map<Seq<char>, String>, value: Seq<char>) -> Map<
    Seq<char>,
    String,
> {
    Map::new(|k: Seq<char>| m.contains_key(k) && m[k]@ != value, |k: Seq<char>| m[k])
}

impl Registry<String> {
    /// Takes out every identifier whose value is the text `value`.
    pub fn remove_value(&mut self, value: &str)
        ensures
            final(self)@ == without_value(old(self)@, value@),
    {
        proof {
            use_type_invariant(&*self);
        }
        let ghost orig = self@;
        let mut entries: Vec<Entry<String>> = Vec::new();
        core::mem::swap(&mut self.entries, &mut entries);
        let mut i: usize = 0;
        while i < entries.len()
            invariant
                i <= entries@.len(),
                keys_distinct(entries@),
                forall|k: Seq<char>| #[trigger]
                    mapping_of(entries@).contains_key(k) ==> orig.contains_key(k) && mapping_of(
                        entries@,
                    )[k] == orig[k],
                forall|k: Seq<char>|
                    orig.contains_key(k) && orig[k]@ != value@ ==> #[trigger] mapping_of(
                        entries@,
                    ).contains_key(k),
                forall|k: int| 0 <= k < i ==> (#[trigger] entries@[k]).value@ != value@,
            decreases entries@.len() - i,
        {
            if entries[i].value.as_str().eq(value) {
                proof {
                    lemma_mapping_at(entries@, i as int);
                    lemma_mapping_remove(entries@, i as int);
                }
                let ghost before = entries@;
                entries.remove(i);
                assert forall|k: int| 0 <= k < i implies (#[trigger] entries@[k]).value@
                    != value@ by {
                    assert(entries@[k] == before[k]);
                }
            } else {
                i += 1;
            }
        }
        proof {
            let after = mapping_of(entries@);
            assert forall|k: Seq<char>| after.contains_key(k) implies orig[k]@ != value@ by {
                let p = place_of(entries@, k);
                assert(has_key(entries@, k));
                lemma_mapping_at(entries@, p);
            }
            assert(after =~= without_value(orig, value@));
        }
        self.entries = entries;
    }
}

/// The keys of a list are the keys of its mapping.
pub proof fn lemma_keys_hold<T>(entries: Seq<Entry<T>>)
    ensures
        forall|k: Seq<char>| keys_of(entries).contains(k) <==> has_key(entries, k),
        forall|k: Seq<char>| has_key(entries, k) <==> mapping_of(entries).contains_key(k),
{
    assert forall|k: Seq<char>| keys_of(entries).contains(k) <==> has_key(entries, k) by {
        if keys_of(entries).contains(k) {
            let i = choose|i: int| 0 <= i < keys_of(entries).len() && keys_of(entries)[i] == k;
            assert(entries[i].key@ == k);
        }
        if has_key(entries, k) {
            let i = place_of(entries, k);
            assert(keys_of(entries)[i] == k);
        }
    }
}

/// Taking the entry at a place out leaves the other keys listed.
pub proof fn lemma_keys_remove<T>(entries: Seq<Entry<T>>, i: int)
    requires
        keys_distinct(entries),
        0 <= i < entries.len(),
    ensures
        forall|k: Seq<char>|
            keys_of(entries.remove(i)).contains(k) <==> keys_of(entries).contains(k) && k
                != entries[i].key@,
{
    lemma_mapping_remove(entries, i);
    lemma_keys_hold(entries);
    lemma_keys_hold(entries.remove(i));
    let after = entries.remove(i);
    assert forall|k: Seq<char>|
        keys_of(after).contains(k) <==> keys_of(entries).contains(k) && k != entries[i].key@ by {
        assert(keys_of(after).contains(k) <==> has_key(after, k));
        assert(has_key(after, k) <==> mapping_of(after).contains_key(k));
        assert(keys_of(entries).contains(k) <==> has_key(entries, k));
        assert(has_key(entries, k) <==> mapping_of(entries).contains_key(k));
    }
}

} // verus!
