//! A fetcher that lets an observer watch each lookup: once before it, and once
//! after it with its result. The observer sees the song and the result by
//! shared reference and can change neither.

use vstd::prelude::*;

use crate::fetcher::{outcome_of, Lookup, LyricsFetcher, Outcome};
use crate::song::{SongDescriptor, SongView};

verus! {

/// One call of an observer's hooks.
pub enum Observation {
    Before(SongView),
    After(SongView, Outcome),
}

/// Hooks run around each lookup, for logging or metrics.
pub trait FetchObserver {
    /// Every hook call so far, oldest first. An observer that proves its
    /// contract keeps a record of them and defines this by it.
    open spec fn observed(&self) -> Seq<Observation> {
        Seq::empty()
    }

    fn before(&mut self, song: &SongDescriptor)
        ensures
            final(self).observed() == old(self).observed().push(Observation::Before(song@)),
    ;

    fn after(&mut self, song: &SongDescriptor, result: &Result<String, String>)
        ensures
            final(self).observed() == old(self).observed().push(
                Observation::After(song@, outcome_of(*result)),
            ),
    ;
}

/// Counts lookups as they start and as they end, by outcome. Each count
/// stops at the largest `u64`.
pub struct LookupCounter {
    pub started: u64,
    pub succeeded: u64,
    pub failed: u64,
    pub log: Ghost<Seq<Observation>>,
}

impl LookupCounter {
    pub fn new() -> (r: Self)
        ensures
            r.started == 0 && r.succeeded == 0 && r.failed == 0,
            r.observed() == Seq::<Observation>::empty(),
    {
        LookupCounter { started: 0, succeeded: 0, failed: 0, log: Ghost(Seq::empty()) }
    }
}

pub open spec fn bumped(old_count: u64, new_count: u64) -> bool {
    new_count == if old_count < u64::MAX {
        (old_count + 1) as u64
    } else {
        old_count
    }
}

impl FetchObserver for LookupCounter {
    open spec fn observed(&self) -> Seq<Observation> {
        self.log@
    }

    /// Also: one more lookup started.
    fn before(&mut self, song: &SongDescriptor)
        ensures
            bumped(old(self).started, final(self).started),
            final(self).succeeded == old(self).succeeded,
            final(self).failed == old(self).failed,
    {
        if self.started < u64::MAX {
            self.started = self.started + 1;
        }
        self.log = Ghost(self.log@.push(Observation::Before(song@)));
    }

    /// Also: one more lookup succeeded, or failed, as `result` says.
    fn after(&mut self, song: &SongDescriptor, result: &Result<String, String>)
        ensures
            final(self).started == old(self).started,
            result is Ok ==> bumped(old(self).succeeded, final(self).succeeded),
            result is Ok ==> final(self).failed == old(self).failed,
            result is Err ==> bumped(old(self).failed, final(self).failed),
            result is Err ==> final(self).succeeded == old(self).succeeded,
    {
        match result {
            Ok(_) => {
                if self.succeeded < u64::MAX {
                    self.succeeded = self.succeeded + 1;
                }
            },
            Err(_) => {
                if self.failed < u64::MAX {
                    self.failed = self.failed + 1;
                }
            },
        }
        self.log = Ghost(self.log@.push(Observation::After(song@, outcome_of(*result))));
    }
}

pub struct DecoratingLyricsFetcher<T: LyricsFetcher, O: FetchObserver> {
    pub fetcher: T,
    pub observer: O,
    pub log: Ghost<Seq<Lookup>>,
}

impl<T: LyricsFetcher, O: FetchObserver> DecoratingLyricsFetcher<T, O> {
    pub fn new(fetcher: T, observer: O) -> (r: Self)
        ensures
            r.fetcher == fetcher,
            r.observer == observer,
            r.history() == Seq::<Lookup>::empty(),
    {
        DecoratingLyricsFetcher { fetcher, observer, log: Ghost(Seq::empty()) }
    }
}

impl<T: LyricsFetcher, O: FetchObserver> LyricsFetcher for DecoratingLyricsFetcher<T, O> {
    open spec fn history(&self) -> Seq<Lookup> {
        self.log@
    }

    /// Calls the `before` hook, delegates once with the same song, calls the
    /// `after` hook with that result, and returns the result unchanged.
    fn fetch_lyrics(&mut self, song: &SongDescriptor) -> (r: Result<String, String>)
        ensures
            final(self).fetcher.history() == old(self).fetcher.history().push(
                (song@, outcome_of(r)),
            ),
            final(self).observer.observed() == old(self).observer.observed().push(
                Observation::Before(song@),
            ).push(Observation::After(song@, outcome_of(r))),
    {
        self.observer.before(song);
        let r = self.fetcher.fetch_lyrics(song);
        self.observer.after(song, &r);
        self.log = Ghost(self.log@.push((song@, outcome_of(r))));
        r
    }
}

} // verus!
