//! A fetcher that retries under a simpler name: it strips a trailing
//! annotation such as " - Live at Wembley" and forgets the known uri.

use vstd::prelude::*;

use crate::fetcher::{outcome_of, Lookup, LyricsFetcher};
use crate::patterns::{replace_all_matches, without_annotation, ANNOTATION_PATTERN};
use crate::song::{SongDescriptor, SongView};

verus! {

/// The song that a [`SimplifyingLyricsFetcher`] asks its inner fetcher for.
pub open spec fn simplified(s: SongView) -> SongView {
    SongView { name: without_annotation(s.name), artist: s.artist, uri: None }
}

/// `name` without a trailing " - ..." annotation.
pub fn simplify_name(name: &str) -> (r: String)
    ensures
        r@ == without_annotation(name@),
{
    replace_all_matches(ANNOTATION_PATTERN, name, "")
}

pub struct SimplifyingLyricsFetcher<T: LyricsFetcher> {
    pub fetcher: T,
    pub log: Ghost<Seq<Lookup>>,
}

impl<T: LyricsFetcher> SimplifyingLyricsFetcher<T> {
    pub fn new(fetcher: T) -> (r: Self)
        ensures
            r.fetcher == fetcher,
            r.history() == Seq::<Lookup>::empty(),
    {
        SimplifyingLyricsFetcher { fetcher, log: Ghost(Seq::empty()) }
    }
}

impl<T: LyricsFetcher> LyricsFetcher for SimplifyingLyricsFetcher<T> {
    open spec fn history(&self) -> Seq<Lookup> {
        self.log@
    }

    /// Delegates with the simplified song and returns the inner result unchanged.
    fn fetch_lyrics(&mut self, song: &SongDescriptor) -> (r: Result<String, String>)
        ensures
            final(self).fetcher.history() == old(self).fetcher.history().push(
                (simplified(song@), outcome_of(r)),
            ),
    {
        let simple = SongDescriptor {
            name: simplify_name(song.name.as_str()),
            artist: song.artist.clone(),
            uri: None,
        };
        let r = self.fetcher.fetch_lyrics(&simple);
        self.log = Ghost(self.log@.push((song@, outcome_of(r))));
        r
    }
}

} // verus!
