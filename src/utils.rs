//! Re-keying of key/value lists by string.

use vstd::prelude::*;

use crate::caching::CacheEntry;
use crate::song::{song_key_text, SongDescriptor};

verus! {

/// Each song of `map` replaced by its stable text form, entries kept in place.
pub fn stringify_map_keys(map: &Vec<(SongDescriptor, CacheEntry)>) -> (r: Vec<(String, CacheEntry)>)
    ensures
        r.len() == map.len(),
        forall|i: int|
            0 <= i < map.len() ==> (#[trigger] r[i]).0@ == song_key_text(map[i].0@) && r[i].1
                == map[i].1,
{
    let mut r: Vec<(String, CacheEntry)> = Vec::new();
    let mut i: usize = 0;
    while i < map.len()
        invariant
            i <= map.len(),
            r.len() == i,
            forall|j: int|
                0 <= j < i ==> (#[trigger] r[j]).0@ == song_key_text(map[j].0@) && r[j].1
                    == map[j].1,
        decreases map.len() - i,
    {
        let key = map[i].0.to_string();
        let entry = map[i].1.clone();
        r.push((key, entry));
        i = i + 1;
    }
    r
}

/// Each borrowed key of `map` turned into an owned string, values kept.
pub fn stringify_map(map: Vec<(&str, usize)>) -> (r: Vec<(String, usize)>)
    ensures
        r.len() == map.len(),
        forall|i: int|
            0 <= i < map.len() ==> (#[trigger] r[i]).0@ == map[i].0@ && r[i].1 == map[i].1,
{
    let mut r: Vec<(String, usize)> = Vec::new();
    let mut i: usize = 0;
    while i < map.len()
        invariant
            i <= map.len(),
            r.len() == i,
            forall|j: int|
                0 <= j < i ==> (#[trigger] r[j]).0@ == map[j].0@ && r[j].1 == map[j].1,
        decreases map.len() - i,
    {
        let (key, count) = map[i];
        r.push((key.to_string(), count));
        i = i + 1;
    }
    r
}

} // verus!
