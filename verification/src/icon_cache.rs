//! The icon cache: one square pixel buffer per icon path.

use vstd::prelude::*;
use vstd::hash_map::StringHashMap;

verus! {

/// Pixel buffers keyed by icon path, in a hash map. Storing under a path
/// that is present replaces its pixels.
pub struct IconCache {
    entries: StringHashMap<Vec<u32>>,
}

impl IconCache {
    /// The cache as a map from path to pixels.
    pub closed spec fn view(&self) -> Map<Seq<char>, Seq<u32>> {
        self.entries@.map_values(|pixels: Vec<u32>| pixels@)
    }

    /// A cache that holds nothing.
    pub fn new() -> (cache: Self)
        ensures
            cache@ == Map::<Seq<char>, Seq<u32>>::empty(),
    {
        let cache = IconCache { entries: StringHashMap::new() };
        assert(cache@ =~= Map::<Seq<char>, Seq<u32>>::empty());
        cache
    }

    /// The pixels stored under `path`, if any.
    pub fn get(&self, path: &str) -> (r: Option<&Vec<u32>>)
        ensures
            match r {
                Some(pixels) => self@.contains_key(path@) && self@[path@] == pixels@,
                None => !self@.contains_key(path@),
            },
    {
        self.entries.get(path)
    }

    /// Whether pixels are stored under `path`.
    pub fn contains(&self, path: &str) -> (r: bool)
        ensures
            r == self@.contains_key(path@),
    {
        self.entries.contains_key(path)
    }

    /// Stores `pixels` under `path`, in place of what was stored there.
    pub fn insert(&mut self, path: String, pixels: Vec<u32>)
        ensures
            final(self)@ == old(self)@.insert(path@, pixels@),
    {
        let ghost before = self@;
        let ghost key = path@;
        let ghost value = pixels@;
        self.entries.insert(path, pixels);
        assert(self@ =~= before.insert(key, value));
    }

    /// Drops every stored icon.
    pub fn clear(&mut self)
        ensures
            final(self)@ == Map::<Seq<char>, Seq<u32>>::empty(),
    {
        self.entries.clear();
        assert(self@ =~= Map::<Seq<char>, Seq<u32>>::empty());
    }
}

} // verus!
