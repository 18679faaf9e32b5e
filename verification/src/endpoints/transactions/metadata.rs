//! The annotations of a transaction.

use vstd::prelude::*;
use crate::fields::{Field, Pair, copy_fields, distinct_names, fields_view, has_name, value_of};

verus! {

/// Keys with their values, each key at most once, in the order in which the
/// keys were first inserted.
#[derive(Debug, PartialEq, Eq)]
pub struct Metadata {
    entries: Vec<Field>,
}

impl View for Metadata {
    type V = Seq<Pair>;

    closed spec fn view(&self) -> Seq<Pair> {
        fields_view(self.entries@)
    }
}

impl Clone for Metadata {
    /// A copy with the same entries in the same order.
    fn clone(&self) -> (copy: Metadata)
        ensures
            copy@ == self@,
    {
        proof {
            use_type_invariant(self);
        }
        Metadata { entries: copy_fields(&self.entries) }
    }
}

impl Metadata {
    #[verifier::type_invariant]
    spec fn no_key_twice(self) -> bool {
        distinct_names(fields_view(self.entries@))
    }

    /// No annotations.
    pub fn new() -> (metadata: Metadata)
        ensures
            metadata@ == Seq::<Pair>::empty(),
    {
        Metadata { entries: Vec::new() }
    }

    /// The number of keys.
    pub fn len(&self) -> (len: usize)
        ensures
            len == self@.len(),
    {
        self.entries.len()
    }

    /// Whether there is no key.
    pub fn is_empty(&self) -> (empty: bool)
        ensures
            empty == (self@.len() == 0),
    {
        self.entries.len() == 0
    }

    /// The entries in order. No two of them have the same key.
    pub fn entries(&self) -> (entries: &Vec<Field>)
        ensures
            fields_view(entries@) == self@,
            distinct_names(self@),
    {
        proof {
            use_type_invariant(self);
        }
        &self.entries
    }

    /// Where the entry under `key` stands, if there is one.
    fn position(&self, key: &String) -> (found: Option<usize>)
        ensures
            match found {
                Some(i) => i < self@.len() && self@[i as int].0 == key@,
                None => !has_name(self@, key@),
            },
    {
        let mut i: usize = 0;
        while i < self.entries.len()
            invariant
                i <= self.entries.len(),
                forall|j: int| 0 <= j < i ==> (#[trigger] self@[j]).0 != key@,
            decreases self.entries.len() - i,
        {
            if self.entries[i].name == *key {
                return Some(i);
            }
            i += 1;
        }
        None
    }

    /// The value under `key`, if there is one.
    pub fn get(&self, key: &str) -> (value: Option<&String>)
        ensures
            match value {
                Some(v) => value_of(self@, key@) == Some(v@),
                None => !has_name(self@, key@),
            },
    {
        proof {
            use_type_invariant(self);
        }
        let wanted = key.to_owned();
        match self.position(&wanted) {
            Some(i) => Some(&self.entries[i].value),
            None => None,
        }
    }

    /// Puts `value` under `key`. Where the key was there already, its value is
    /// replaced in place and the earlier value is returned; otherwise the new
    /// entry goes to the end.
    pub fn insert(&mut self, key: String, value: String) -> (previous: Option<String>)
        ensures
            distinct_names(final(self)@),
            match previous {
                Some(earlier) => exists|i: int|
                    0 <= i < old(self)@.len() && #[trigger] old(self)@[i] == (key@, earlier@)
                        && final(self)@ == old(self)@.update(i, (key@, value@)),
                None => !has_name(old(self)@, key@) && final(self)@ == old(self)@.push(
                    (key@, value@),
                ),
            },
    {
        proof {
            use_type_invariant(&*self);
        }
        let ghost before = self@;
        let found = self.position(&key);
        // The entries are taken out while they change and put back once no
        // key occurs twice among them.
        let mut entries: Vec<Field> = Vec::new();
        core::mem::swap(&mut self.entries, &mut entries);
        let previous = match found {
            Some(i) => {
                let earlier = entries[i].value.clone();
                entries.set(i, Field { name: key, value });
                proof {
                    assert forall|a: int, b: int|
                        0 <= a < b < entries@.len() implies (#[trigger] fields_view(entries@)[a]).0
                        != (#[trigger] fields_view(entries@)[b]).0 by {
                        assert(fields_view(entries@)[a].0 == before[a].0);
                        assert(fields_view(entries@)[b].0 == before[b].0);
                    }
                }
                Some(earlier)
            },
            None => {
                entries.push(Field { name: key, value });
                proof {
                    assert forall|a: int, b: int|
                        0 <= a < b < entries@.len() implies (#[trigger] fields_view(entries@)[a]).0
                        != (#[trigger] fields_view(entries@)[b]).0 by {
                        assert(fields_view(entries@)[a] == before[a]);
                        if b < before.len() {
                            assert(fields_view(entries@)[b] == before[b]);
                        }
                    }
                }
                None
            },
        };
        core::mem::swap(&mut self.entries, &mut entries);
        previous
    }
}

} // verus!
