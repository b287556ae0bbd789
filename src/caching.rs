//! The cache layer: a store of remembered outcomes, and a fetcher that
//! answers from it before it asks its fallback.

use vstd::prelude::*;

use crate::fetcher::{outcome_of, Lookup, LyricsFetcher, Outcome};
use crate::song::{SongDescriptor, SongView};

verus! {

/// What a store remembers of one lookup: the lyrics, or the message of a
/// failure (a lookup that was attempted and failed, as opposed to none).
#[derive(Debug, PartialEq)]
pub enum CacheEntry {
    Success(String),
    Failure(String),
}

impl View for CacheEntry {
    type V = Outcome;

    open spec fn view(&self) -> Outcome {
        match self {
            CacheEntry::Success(t) => Ok(t@),
            CacheEntry::Failure(m) => Err(m@),
        }
    }
}

impl Clone for CacheEntry {
    fn clone(&self) -> (r: Self)
        ensures
            r == *self,
    {
        match self {
            CacheEntry::Success(t) => CacheEntry::Success(t.clone()),
            CacheEntry::Failure(m) => CacheEntry::Failure(m.clone()),
        }
    }
}

/// The entry of `song` in `m`, if it has one.
pub open spec fn cached_entry(m: Map<SongView, Outcome>, song: SongView) -> Option<Outcome> {
    if m.contains_key(song) {
        Some(m[song])
    } else {
        None
    }
}

/// A key to entry mapping with load, save and write-back. Whether an
/// operation fails (a corrupt store, an unwritable file) is part of the
/// store's state, given by the `*_fails` functions.
pub trait Cache {
    /// The entries that the store holds.
    spec fn entries(&self) -> Map<SongView, Outcome>;

    /// The mappings written back to durable storage so far, oldest first.
    spec fn written(&self) -> Seq<Map<SongView, Outcome>>;

    /// Loading `song` fails in this state.
    spec fn load_fails(&self, song: SongView) -> bool;

    /// Saving `entry` for `song` fails in this state; the entry is set all
    /// the same, only its durable write failed.
    spec fn save_fails(&self, song: SongView, entry: Outcome) -> bool;

    /// Writing back fails in this state.
    spec fn write_back_fails(&self) -> bool;

    /// The message of a failed load of `song` in this state.
    spec fn load_error(&self, song: SongView) -> Seq<char>;

    /// The message of a failed save of `entry` for `song` in this state.
    spec fn save_error(&self, song: SongView, entry: Outcome) -> Seq<char>;

    /// The message of a failed write-back in this state.
    spec fn write_back_error(&self) -> Seq<char>;

    /// Sets the entry of `song`, replacing any earlier one.
    fn save(&mut self, song: &SongDescriptor, entry: CacheEntry) -> (r: Result<(), String>)
        ensures
            final(self).entries() == old(self).entries().insert(song@, entry@),
            r is Err <==> old(self).save_fails(song@, entry@),
            r matches Err(m) ==> m@ == old(self).save_error(song@, entry@),
    ;

    /// The entry of `song`, or `None` when there is none.
    fn load(&self, song: &SongDescriptor) -> (r: Result<Option<CacheEntry>, String>)
        ensures
            r is Err <==> self.load_fails(song@),
            r matches Err(m) ==> m@ == self.load_error(song@),
            r matches Ok(o) ==> match o {
                Some(e) => cached_entry(self.entries(), song@) == Some(e@),
                None => cached_entry(self.entries(), song@) is None,
            },
    ;

    /// Writes the whole mapping to durable storage; the mapping is kept.
    fn write_back(&mut self) -> (r: Result<(), String>)
        ensures
            final(self).entries() == old(self).entries(),
            r is Err <==> old(self).write_back_fails(),
            r matches Err(m) ==> m@ == old(self).write_back_error(),
            r is Ok ==> final(self).written() == old(self).written().push(old(self).entries()),
            r is Err ==> final(self).written() == old(self).written(),
    ;
}

/// Neither loading `song` nor saving any entry for it fails in `c`.
pub open spec fn dependable_for<C: Cache>(c: C, song: SongView) -> bool {
    &&& !c.load_fails(song)
    &&& forall|e: Outcome| !#[trigger] c.save_fails(song, e)
}

/// Whether the fallback's answer `out` is saved.
pub open spec fn is_saved(o: CachingLyricsFetcherOptions, out: Outcome) -> bool {
    out is Ok || o.cache_failures
}

/// After the fallback answered `inner`: the result, which is `inner` unless
/// its save failed, and then the save's own error.
pub open spec fn after_save<C: Cache>(
    o: CachingLyricsFetcherOptions,
    c: C,
    song: SongView,
    inner: Outcome,
    out: Outcome,
) -> bool {
    if is_saved(o, inner) && c.save_fails(song, inner) {
        out == Err::<Seq<char>, Seq<char>>(c.save_error(song, inner))
    } else {
        out == inner
    }
}

/// `after` is `before` with one more lookup, of `song`.
pub open spec fn asked_once(before: Seq<Lookup>, after: Seq<Lookup>, song: SongView) -> bool {
    &&& after.len() == before.len() + 1
    &&& after.drop_last() == before
    &&& after.last().0 == song
}

#[derive(Clone, Copy, Debug, Default, PartialEq, Eq)]
pub struct CachingLyricsFetcherOptions {
    /// Remember failures as well as successes.
    pub cache_failures: bool,
    /// Ask the fallback again for a song whose remembered entry is a failure.
    pub retry_cached_failures: bool,
}

/// Whether a lookup whose cached entry is `cached` goes to the fallback.
pub open spec fn consults_fallback(o: CachingLyricsFetcherOptions, cached: Option<Outcome>) -> bool {
    match cached {
        None => true,
        Some(Ok(_)) => false,
        Some(Err(_)) => o.retry_cached_failures,
    }
}

/// The entries after the fallback answered `out` for `song`.
pub open spec fn remembered(
    o: CachingLyricsFetcherOptions,
    m: Map<SongView, Outcome>,
    song: SongView,
    out: Outcome,
) -> Map<SongView, Outcome> {
    if is_saved(o, out) {
        m.insert(song, out)
    } else {
        m
    }
}

pub struct CachingLyricsFetcher<T: LyricsFetcher, C: Cache> {
    pub cache: C,
    pub fallback: T,
    pub options: CachingLyricsFetcherOptions,
    pub log: Ghost<Seq<Lookup>>,
}

/// Another name for [`CachingLyricsFetcherOptions`].
pub type CachedLyricsFetcherOptions = CachingLyricsFetcherOptions;

/// Another name for [`CachingLyricsFetcher`].
pub type CachedLyricsFetcher<T, C> = CachingLyricsFetcher<T, C>;

/// One lookup of `song` took the fetcher from `a` to `b` and gave `out`.
/// A failed load's own error is returned and nothing else happens. Otherwise a
/// remembered success, or a remembered failure that is not retried, is
/// returned without a call of the fallback; else the fallback is asked exactly
/// once, its answer is remembered as the options say and returned, unless
/// saving it failed, which gives an error.
pub open spec fn resolved<T: LyricsFetcher, C: Cache>(
    a: CachingLyricsFetcher<T, C>,
    b: CachingLyricsFetcher<T, C>,
    song: SongView,
    out: Outcome,
) -> bool {
    let cached = cached_entry(a.cache.entries(), song);
    let inner = b.fallback.history().last().1;
    &&& b.options == a.options
    &&& if a.cache.load_fails(song) {
        &&& out == Err::<Seq<char>, Seq<char>>(a.cache.load_error(song))
        &&& b.fallback.history() == a.fallback.history()
        &&& b.cache == a.cache
    } else if consults_fallback(a.options, cached) {
        &&& asked_once(a.fallback.history(), b.fallback.history(), song)
        &&& b.cache.entries() == remembered(a.options, a.cache.entries(), song, inner)
        &&& after_save(a.options, a.cache, song, inner, out)
    } else {
        &&& b.fallback.history() == a.fallback.history()
        &&& b.cache == a.cache
        &&& Some(out) == cached
    }
}

impl<T: LyricsFetcher, C: Cache> CachingLyricsFetcher<T, C> {
    pub fn new(fallback: T, cache: C, options: CachingLyricsFetcherOptions) -> (r: Self)
        ensures
            r.cache == cache,
            r.fallback == fallback,
            r.options == options,
            r.history() == Seq::<Lookup>::empty(),
    {
        CachingLyricsFetcher { cache, fallback, options, log: Ghost(Seq::empty()) }
    }

    /// Asks the fallback, and remembers its answer as the options say.
    fn fetch_lyrics_using_fallback(&mut self, song: &SongDescriptor) -> (r: Result<String, String>)
        ensures
            final(self).options == old(self).options,
            final(self).log == old(self).log,
            asked_once(old(self).fallback.history(), final(self).fallback.history(), song@),
            final(self).cache.entries() == remembered(
                old(self).options,
                old(self).cache.entries(),
                song@,
                final(self).fallback.history().last().1,
            ),
            after_save(
                old(self).options,
                old(self).cache,
                song@,
                final(self).fallback.history().last().1,
                outcome_of(r),
            ),
    {
        let fetched = self.fallback.fetch_lyrics(song);
        assert(self.fallback.history().drop_last() =~= old(self).fallback.history());
        match fetched {
            Ok(lyrics) => {
                let entry = CacheEntry::Success(lyrics.clone());
                match self.cache.save(song, entry) {
                    Ok(()) => Ok(lyrics),
                    Err(e) => Err(e),
                }
            },
            Err(err) => {
                if self.options.cache_failures {
                    let entry = CacheEntry::Failure(err.clone());
                    match self.cache.save(song, entry) {
                        Ok(()) => {},
                        Err(e) => {
                            return Err(e);
                        },
                    }
                }
                Err(err)
            },
        }
    }

    /// Ends the fetcher's lifetime: writes the store back once and hands it
    /// back, so that another pipeline can use it. A failed write-back is
    /// reported in the result and the store is returned all the same.
    pub fn shutdown(self) -> (r: (C, Result<(), String>))
        ensures
            r.0.entries() == self.cache.entries(),
            r.1 is Err <==> self.cache.write_back_fails(),
            r.1 matches Err(m) ==> m@ == self.cache.write_back_error(),
            r.1 is Ok ==> r.0.written() == self.cache.written().push(self.cache.entries()),
            r.1 is Err ==> r.0.written() == self.cache.written(),
    {
        let mut cache = self.cache;
        let written = cache.write_back();
        (cache, written)
    }
}

impl<T: LyricsFetcher, C: Cache> LyricsFetcher for CachingLyricsFetcher<T, C> {
    open spec fn history(&self) -> Seq<Lookup> {
        self.log@
    }

    fn fetch_lyrics(&mut self, song: &SongDescriptor) -> (r: Result<String, String>)
        ensures
            resolved(*old(self), *final(self), song@, outcome_of(r)),
    {
        let loaded = self.cache.load(song);
        let r = match loaded {
            Ok(Some(CacheEntry::Success(lyrics))) => Ok(lyrics),
            Ok(Some(CacheEntry::Failure(err))) => {
                if self.options.retry_cached_failures {
                    self.fetch_lyrics_using_fallback(song)
                } else {
                    Err(err)
                }
            },
            Ok(None) => self.fetch_lyrics_using_fallback(song),
            Err(e) => Err(e),
        };
        self.log = Ghost(self.log@.push((song@, outcome_of(r))));
        r
    }
}

proof fn lemma_asked_once_push(before: Seq<Lookup>, after: Seq<Lookup>, song: SongView)
    requires
        asked_once(before, after, song),
    ensures
        after == before.push((song, after.last().1)),
{
    assert(after =~= before.push((song, after.last().1)));
}

/// A song that the store has never seen goes to the fallback exactly once;
/// when that lookup succeeded, the next lookup of the song is answered from
/// the store without another call of the fallback.
pub proof fn lemma_success_is_cached<T: LyricsFetcher, C: Cache>(
    f0: CachingLyricsFetcher<T, C>,
    f1: CachingLyricsFetcher<T, C>,
    f2: CachingLyricsFetcher<T, C>,
    song: SongView,
    out1: Outcome,
    out2: Outcome,
)
    requires
        cached_entry(f0.cache.entries(), song) is None,
        dependable_for(f0.cache, song),
        dependable_for(f1.cache, song),
        resolved(f0, f1, song, out1),
        resolved(f1, f2, song, out2),
    ensures
        f1.fallback.history() == f0.fallback.history().push((song, out1)),
        out1 is Ok ==> f2.fallback.history() == f1.fallback.history() && out2 == out1,
{
    assert(!f0.cache.save_fails(song, f1.fallback.history().last().1));
    lemma_asked_once_push(f0.fallback.history(), f1.fallback.history(), song);
}

/// When failures are not remembered, a failed lookup of a song that the store
/// did not hold leaves no entry for it, and the next lookup asks the fallback
/// again.
pub proof fn lemma_failure_not_cached<T: LyricsFetcher, C: Cache>(
    f0: CachingLyricsFetcher<T, C>,
    f1: CachingLyricsFetcher<T, C>,
    f2: CachingLyricsFetcher<T, C>,
    song: SongView,
    out1: Outcome,
    out2: Outcome,
)
    requires
        !f0.options.cache_failures,
        cached_entry(f0.cache.entries(), song) is None,
        dependable_for(f0.cache, song),
        dependable_for(f1.cache, song),
        resolved(f0, f1, song, out1),
        out1 is Err,
        resolved(f1, f2, song, out2),
    ensures
        cached_entry(f1.cache.entries(), song) is None,
        f2.fallback.history() == f1.fallback.history().push((song, out2)),
{
    assert(!f0.cache.save_fails(song, f1.fallback.history().last().1));
    assert(!f1.cache.save_fails(song, f2.fallback.history().last().1));
    lemma_asked_once_push(f1.fallback.history(), f2.fallback.history(), song);
}

/// When failures are remembered and not retried, a lookup that went to the
/// fallback and failed is answered with the same error next time, without a
/// call of the fallback.
pub proof fn lemma_cached_failure_is_final<T: LyricsFetcher, C: Cache>(
    f0: CachingLyricsFetcher<T, C>,
    f1: CachingLyricsFetcher<T, C>,
    f2: CachingLyricsFetcher<T, C>,
    song: SongView,
    out1: Outcome,
    out2: Outcome,
)
    requires
        f0.options.cache_failures,
        !f0.options.retry_cached_failures,
        dependable_for(f0.cache, song),
        dependable_for(f1.cache, song),
        resolved(f0, f1, song, out1),
        f1.fallback.history().len() == f0.fallback.history().len() + 1,
        out1 is Err,
        resolved(f1, f2, song, out2),
    ensures
        out2 == out1,
        f2.fallback.history() == f1.fallback.history(),
{
    assert(!f0.cache.save_fails(song, f1.fallback.history().last().1));
}

/// When failures are remembered and retried, a failed lookup that went to the
/// fallback is retried; when the retry succeeds its success replaces the
/// failure, and a third lookup is answered from the store without a call of
/// the fallback.
pub proof fn lemma_retried_failure_is_replaced<T: LyricsFetcher, C: Cache>(
    f0: CachingLyricsFetcher<T, C>,
    f1: CachingLyricsFetcher<T, C>,
    f2: CachingLyricsFetcher<T, C>,
    f3: CachingLyricsFetcher<T, C>,
    song: SongView,
    out1: Outcome,
    out2: Outcome,
    out3: Outcome,
)
    requires
        f0.options.cache_failures,
        f0.options.retry_cached_failures,
        dependable_for(f0.cache, song),
        dependable_for(f1.cache, song),
        dependable_for(f2.cache, song),
        resolved(f0, f1, song, out1),
        f1.fallback.history().len() == f0.fallback.history().len() + 1,
        out1 is Err,
        resolved(f1, f2, song, out2),
        out2 is Ok,
        resolved(f2, f3, song, out3),
    ensures
        f2.fallback.history() == f1.fallback.history().push((song, out2)),
        cached_entry(f2.cache.entries(), song) == Some(out2),
        f3.fallback.history() == f2.fallback.history(),
        out3 == out2,
{
    assert(!f0.cache.save_fails(song, f1.fallback.history().last().1));
    assert(!f1.cache.save_fails(song, f2.fallback.history().last().1));
    lemma_asked_once_push(f1.fallback.history(), f2.fallback.history(), song);
}

} // verus!
