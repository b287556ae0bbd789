//! A fetcher that passes each lookup straight through to its inner fetcher.
//! It marks the point of a pipeline where lookups are reported; reporting
//! itself is up to the program (see [`crate::decorating`] for hooks).

use vstd::prelude::*;

use crate::fetcher::{outcome_of, Lookup, LyricsFetcher};
use crate::song::SongDescriptor;

verus! {

pub struct LoggingLyricsFetcher<T: LyricsFetcher> {
    pub fetcher: T,
    pub log: Ghost<Seq<Lookup>>,
}

impl<T: LyricsFetcher> LoggingLyricsFetcher<T> {
    pub fn new(fetcher: T) -> (r: Self)
        ensures
            r.fetcher == fetcher,
            r.history() == Seq::<Lookup>::empty(),
    {
        LoggingLyricsFetcher { fetcher, log: Ghost(Seq::empty()) }
    }
}

impl<T: LyricsFetcher> LyricsFetcher for LoggingLyricsFetcher<T> {
    open spec fn history(&self) -> Seq<Lookup> {
        self.log@
    }

    /// Delegates with the same song and returns the inner result unchanged.
    fn fetch_lyrics(&mut self, song: &SongDescriptor) -> (r: Result<String, String>)
        ensures
            final(self).fetcher.history() == old(self).fetcher.history().push(
                (song@, outcome_of(r)),
            ),
    {
        let r = self.fetcher.fetch_lyrics(song);
        self.log = Ghost(self.log@.push((song@, outcome_of(r))));
        r
    }
}

} // verus!
