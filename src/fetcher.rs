//! The capability shared by every strategy of the pipeline.

use vstd::prelude::*;

use crate::song::{SongDescriptor, SongView};

verus! {

/// The mathematical value of a lookup's result: the lyrics, or a message.
pub type Outcome = Result<Seq<char>, Seq<char>>;

pub open spec fn outcome_of(r: Result<String, String>) -> Outcome {
    match r {
        Ok(t) => Ok(t@),
        Err(e) => Err(e@),
    }
}

/// One lookup as a fetcher saw it: the song asked for, and what came back.
pub type Lookup = (SongView, Outcome);

/// Answers `song -> lyrics or message`. Every strategy of the pipeline
/// implements it, and every wrapper holds its inner fetchers by value.
pub trait LyricsFetcher {
    /// Every lookup this fetcher has answered, oldest first. A fetcher that
    /// proves its contract keeps a record of them and defines this by it.
    open spec fn history(&self) -> Seq<Lookup> {
        Seq::empty()
    }

    fn fetch_lyrics(&mut self, song: &SongDescriptor) -> (r: Result<String, String>)
        ensures
            final(self).history() == old(self).history().push((song@, outcome_of(r))),
    ;
}

} // verus!
