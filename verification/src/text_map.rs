//! Maps from text to text.

use vstd::hash_map::StringHashMap;
use vstd::prelude::*;

verus! {

/// A map from text to text: environment variables, or settings.
pub struct TextMap {
    inner: StringHashMap<String>,
}

impl View for TextMap {
    type V = Map<Seq<char>, Seq<char>>;

    closed spec fn view(&self) -> Map<Seq<char>, Seq<char>> {
        self.inner@.map_values(|s: String| s@)
    }
}

impl TextMap {
    /// A map without entries.
    pub fn new() -> (r: Self)
        ensures
            r@ == Map::<Seq<char>, Seq<char>>::empty(),
    {
        let r = TextMap { inner: StringHashMap::new() };
        assert(r@ =~= Map::<Seq<char>, Seq<char>>::empty());
        r
    }

    /// Sets the value of a key.
    pub fn insert(&mut self, key: String, value: String)
        ensures
            final(self)@ == old(self)@.insert(key@, value@),
    {
        self.inner.insert(key, value);
        assert(self@ =~= old(self)@.insert(key@, value@));
    }

    /// Removes a key.
    pub fn remove(&mut self, key: &str)
        ensures
            final(self)@ == old(self)@.remove(key@),
    {
        self.inner.remove(key);
        assert(self@ =~= old(self)@.remove(key@));
    }

    /// The value of a key.
    pub fn get(&self, key: &str) -> (r: Option<String>)
        ensures
            match r {
                Some(v) => self@.dom().contains(key@) && self@[key@] == v@,
                None => !self@.dom().contains(key@),
            },
    {
        match self.inner.get(key) {
            Some(v) => Some(v.clone()),
            None => None,
        }
    }

    /// How many keys there are.
    pub fn len(&self) -> (r: usize)
        ensures
            r == self@.dom().len(),
    {
        assert(self@.dom() =~= self.inner@.dom());
        self.inner.len()
    }
}

} // verus!
