use vstd::prelude::*;

use vstd::hash_map::StringHashMap;

verus! {

/// In-memory key/value store holding each target's last observed health
/// state. Keys are strings; the store is viewed as a `Map<Seq<char>, T>`.
/// State is process-local: nothing is persisted across restarts.
#[verifier::reject_recursive_types(T)]
pub struct DIM<T> {
    storage: StringHashMap<T>,
}

impl<T> View for DIM<T> {
    type V = Map<Seq<char>, T>;

    closed spec fn view(&self) -> Map<Seq<char>, T> {
        self.storage@
    }
}

impl<T> DIM<T> {
    /// Creates an empty store.
    pub fn new() -> (result: Self)
        ensures
            result@ == Map::<Seq<char>, T>::empty(),
    {
        DIM { storage: StringHashMap::new() }
    }

    /// Inserts or overwrites the value for `key`. Always succeeds.
    pub fn set(&mut self, key: String, value: T)
        ensures
            final(self)@ == old(self)@.insert(key@, value),
    {
        self.storage.insert(key, value);
    }

    /// Returns the stored value for `key`, or `None` if absent.
    /// No side effects.
    pub fn get<'a>(&'a self, key: &str) -> (result: Option<&'a T>)
        ensures
            match result {
                Some(v) => self@.contains_key(key@) && *v == self@[key@],
                None => !self@.contains_key(key@),
            },
    {
        self.storage.get(key)
    }

    /// Removes the entry for `key` if present and reports whether it
    /// existed.
    pub fn delete(&mut self, key: &str) -> (result: bool)
        ensures
            final(self)@ == old(self)@.remove(key@),
            result == old(self)@.contains_key(key@),
    {
        let present = self.storage.contains_key(key);
        self.storage.remove(key);
        present
    }
}

} // verus!
