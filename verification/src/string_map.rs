//! A map from strings to values, held as a list of distinct keys beside the
//! list of their values.

use crate::text::{copy_texts, position_of, texts};
use vstd::prelude::*;

verus! {

/// A map whose keys are strings. Its view is the map from the text of each key
/// to the view of its value.
#[derive(Debug)]
pub struct StringMap<V> {
    keys: Vec<String>,
    values: Vec<V>,
}

impl<V> StringMap<V> {
    /// Each key stands once, and has one value beside it.
    #[verifier::type_invariant]
    spec fn paired(self) -> bool {
        &&& self.keys@.len() == self.values@.len()
        &&& texts(self.keys@).no_duplicates()
    }
}

/// The map from each of `keys` to the view of the value at its first place.
spec fn map_of<V: View>(keys: Seq<Seq<char>>, values: Seq<V>) -> Map<Seq<char>, V::V> {
    Map::new(
        |k: Seq<char>| keys.contains(k),
        |k: Seq<char>| values[keys.index_of(k)]@,
    )
}

impl<V: View> View for StringMap<V> {
    type V = Map<Seq<char>, V::V>;

    closed spec fn view(&self) -> Map<Seq<char>, V::V> {
        map_of(texts(self.keys@), self.values@)
    }
}

/// In a list without duplicates a key is found where it stands.
proof fn lemma_place<V: View>(keys: Seq<Seq<char>>, values: Seq<V>, i: int)
    requires
        keys.no_duplicates(),
        0 <= i < keys.len(),
    ensures
        keys.contains(keys[i]),
        keys.index_of(keys[i]) == i,
        map_of(keys, values).contains_key(keys[i]),
        map_of(keys, values)[keys[i]] == values[i]@,
{
}

/// Changing the value at one place changes the entry of its key alone.
proof fn lemma_update<V: View>(keys: Seq<Seq<char>>, values: Seq<V>, i: int, v: V)
    requires
        keys.no_duplicates(),
        keys.len() == values.len(),
        0 <= i < keys.len(),
    ensures
        map_of(keys, values.update(i, v)) == map_of(keys, values).insert(keys[i], v@),
{
    assert forall|k: Seq<char>| keys.contains(k) && k != keys[i] implies keys.index_of(k) != i by {
        let j = keys.index_of(k);
        assert(keys[j] == k);
    }
    lemma_place(keys, values, i);
    assert(map_of(keys, values.update(i, v)) =~= map_of(keys, values).insert(keys[i], v@));
}

/// A new key at the end adds its entry.
proof fn lemma_push<V: View>(keys: Seq<Seq<char>>, values: Seq<V>, k: Seq<char>, v: V)
    requires
        keys.no_duplicates(),
        keys.len() == values.len(),
        !keys.contains(k),
    ensures
        keys.push(k).no_duplicates(),
        map_of(keys.push(k), values.push(v)) == map_of(keys, values).insert(k, v@),
{
    let more = keys.push(k);
    assert forall|x: Seq<char>| more.contains(x) <==> keys.contains(x) || x == k by {
        if keys.contains(x) {
            assert(more[keys.index_of(x)] == x);
        }
        assert(more[keys.len() as int] == k);
    }
    assert forall|x: Seq<char>| #[trigger] keys.contains(x) implies more.index_of(x)
        == keys.index_of(x) by {
        let j = keys.index_of(x);
        assert(more[j] == x);
        lemma_place(more, values.push(v), j);
    }
    assert(more[keys.len() as int] == k);
    lemma_place(more, values.push(v), keys.len() as int);
    assert(map_of(more, values.push(v)) =~= map_of(keys, values).insert(k, v@));
}

/// Taking out one place takes out the entry of its key.
proof fn lemma_remove<V: View>(keys: Seq<Seq<char>>, values: Seq<V>, i: int)
    requires
        keys.no_duplicates(),
        keys.len() == values.len(),
        0 <= i < keys.len(),
    ensures
        keys.remove(i).no_duplicates(),
        map_of(keys.remove(i), values.remove(i)) == map_of(keys, values).remove(keys[i]),
{
    let less = keys.remove(i);
    assert forall|x: Seq<char>| less.contains(x) <==> keys.contains(x) && x != keys[i] by {
        if less.contains(x) {
            let j = less.index_of(x);
            assert(less[j] == x);
            assert(keys[if j < i { j } else { j + 1 }] == x);
        }
        if keys.contains(x) && x != keys[i] {
            let j = keys.index_of(x);
            assert(keys[j] == x);
            assert(less[if j < i { j } else { j - 1 }] == x);
        }
    }
    assert forall|x: Seq<char>| #[trigger] less.contains(x) implies values.remove(
        i,
    )[less.index_of(x)] == values[keys.index_of(x)] by {
        let j = less.index_of(x);
        assert(less[j] == x);
        let j0 = if j < i { j } else { j + 1 };
        assert(keys[j0] == x);
        lemma_place(keys, values, j0);
    }
    assert(map_of(less, values.remove(i)) =~= map_of(keys, values).remove(keys[i]));
}

impl<V: View> StringMap<V> {
    /// A map without entries.
    pub fn new() -> (map: Self)
        ensures
            map@ == Map::<Seq<char>, V::V>::empty(),
    {
        let map = StringMap { keys: Vec::new(), values: Vec::new() };
        assert(map@ =~= Map::<Seq<char>, V::V>::empty());
        map
    }

    /// Whether the map holds the key `k`.
    pub fn contains_key(&self, k: &str) -> (found: bool)
        ensures
            found == self@.contains_key(k@),
    {
        position_of(&self.keys, k).is_some()
    }

    /// The value of the key `k`, if the map holds it.
    pub fn get(&self, k: &str) -> (value: Option<&V>)
        ensures
            match value {
                Some(v) => self@.contains_key(k@) && v@ == self@[k@],
                None => !self@.contains_key(k@),
            },
    {
        proof {
            use_type_invariant(self);
        }
        match position_of(&self.keys, k) {
            Some(i) => {
                proof {
                    lemma_place(texts(self.keys@), self.values@, i as int);
                }
                Some(&self.values[i])
            },
            None => None,
        }
    }

    /// The value of the key `k`, open to change, if the map holds it.
    pub fn get_mut(&mut self, k: &str) -> (value: Option<&mut V>)
        ensures
            match value {
                Some(v) => {
                    &&& old(self)@.contains_key(k@)
                    &&& v@ == old(self)@[k@]
                    &&& final(self)@ == old(self)@.insert(k@, final(v)@)
                },
                None => !old(self)@.contains_key(k@) && final(self)@ == old(self)@,
            },
    {
        proof {
            use_type_invariant(&*self);
        }
        match position_of(&self.keys, k) {
            Some(i) => {
                proof {
                    lemma_place(texts(self.keys@), self.values@, i as int);
                    assert forall|v: V| #[trigger] map_of(
                        texts(self.keys@),
                        self.values@.update(i as int, v),
                    ) == self@.insert(k@, v@) by {
                        lemma_update(texts(self.keys@), self.values@, i as int, v);
                    }
                }
                Some(&mut self.values[i])
            },
            None => None,
        }
    }

    /// Gives the key `k` the value `v`, in place of the one it had.
    pub fn insert(&mut self, k: String, v: V)
        ensures
            final(self)@ == old(self)@.insert(k@, v@),
    {
        proof {
            use_type_invariant(&*self);
        }
        match position_of(&self.keys, k.as_str()) {
            Some(i) => {
                proof {
                    lemma_update(texts(self.keys@), self.values@, i as int, v);
                }
                self.values[i] = v;
            },
            None => {
                let ghost keys0 = self.keys@;
                proof {
                    lemma_push(texts(self.keys@), self.values@, k@, v);
                }
                let mut whole: StringMap<V> = StringMap::new();
                std::mem::swap(&mut whole, self);
                let StringMap { mut keys, mut values } = whole;
                keys.push(k);
                values.push(v);
                assert(texts(keys@) =~= texts(keys0).push(k@));
                *self = StringMap { keys, values };
            },
        }
    }

    /// Takes out the key `k`, and hands out the value it had.
    pub fn remove(&mut self, k: &str) -> (value: Option<V>)
        ensures
            final(self)@ == old(self)@.remove(k@),
            match value {
                Some(v) => old(self)@.contains_key(k@) && v@ == old(self)@[k@],
                None => !old(self)@.contains_key(k@),
            },
    {
        proof {
            use_type_invariant(&*self);
        }
        match position_of(&self.keys, k) {
            Some(i) => {
                let ghost keys0 = self.keys@;
                proof {
                    lemma_place(texts(self.keys@), self.values@, i as int);
                    lemma_remove(texts(self.keys@), self.values@, i as int);
                }
                let mut whole: StringMap<V> = StringMap::new();
                std::mem::swap(&mut whole, self);
                let StringMap { mut keys, mut values } = whole;
                let _ = keys.remove(i);
                let value = values.remove(i);
                assert(texts(keys@) =~= texts(keys0).remove(i as int));
                *self = StringMap { keys, values };
                Some(value)
            },
            None => {
                assert(self@ =~= self@.remove(k@));
                None
            },
        }
    }

    /// The keys of the map, each once, in no promised order.
    pub fn keys(&self) -> (keys: Vec<String>)
        ensures
            texts(keys@).no_duplicates(),
            forall|k: Seq<char>| texts(keys@).contains(k) <==> self@.contains_key(k),
    {
        proof {
            use_type_invariant(self);
        }
        copy_texts(&self.keys)
    }
}

impl<V: View + Clone> Clone for StringMap<V> {
    /// A map with the same keys, and with clones of the values. Where cloning a
    /// value keeps its view, the clone of the map has the same view.
    fn clone(&self) -> (copy: Self)
        ensures
            copy@.dom() == self@.dom(),
            (forall|a: V, b: V| #[trigger] cloned::<V>(a, b) ==> b@ == a@) ==> copy@ == self@,
    {
        proof {
            use_type_invariant(self);
        }
        let keys = copy_texts(&self.keys);
        let values = self.values.clone();
        assert(texts(keys@).len() == keys@.len());
        assert(texts(self.keys@).len() == self.keys@.len());
        let copy = StringMap { keys, values };
        assert(copy@.dom() =~= self@.dom());
        proof {
            if forall|a: V, b: V| #[trigger] cloned::<V>(a, b) ==> b@ == a@ {
                assert(copy@ =~= self@);
            }
        }
        copy
    }
}

} // verus!
