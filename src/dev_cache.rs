//! A store held in memory and written back, as one JSON snapshot, to a single
//! file. The store does not touch the file itself: a write-back leaves the
//! snapshot text pending, and whoever owns the file takes it and writes it.

use vstd::prelude::*;
use vstd::string::*;

use crate::caching::{cached_entry, Cache, CacheEntry};
use crate::fetcher::Outcome;
use crate::json::{json_quote, json_string_of};
use crate::song::{same_song, song_key_text, SongDescriptor, SongView};
use crate::utils::stringify_map_keys;

verus! {

#[derive(Clone, Copy, Debug, Default, PartialEq, Eq)]
pub struct DevCacheOptions {
    /// Write back after every save (durability over throughput) rather than
    /// only when the owning fetcher shuts down.
    pub write_eagerly: bool,
}

pub struct DevCache {
    /// Songs and their entries; where a song occurs twice, the later pair
    /// is the one that counts.
    pub entries: Vec<(SongDescriptor, CacheEntry)>,
    pub options: DevCacheOptions,
    /// The snapshot written back last and not yet taken for the file.
    pub pending_write: Option<String>,
    /// The mappings written back so far, oldest first.
    pub written_back: Ghost<Seq<Map<SongView, Outcome>>>,
}

/// The mathematical value of a list of pairs.
pub open spec fn pair_views(v: Seq<(SongDescriptor, CacheEntry)>) -> Seq<(SongView, Outcome)> {
    v.map_values(|p: (SongDescriptor, CacheEntry)| (p.0@, p.1@))
}

/// The mapping a list of pairs stands for: a later pair wins.
pub open spec fn as_map(s: Seq<(SongView, Outcome)>) -> Map<SongView, Outcome>
    decreases s.len(),
{
    if s.len() == 0 {
        Map::empty()
    } else {
        as_map(s.drop_last()).insert(s.last().0, s.last().1)
    }
}

/// `i` is the last position of `k` in `s`.
pub open spec fn last_at(s: Seq<(SongView, Outcome)>, k: SongView, i: int) -> bool {
    0 <= i < s.len() && s[i].0 == k && forall|j: int| i < j < s.len() ==> s[j].0 != k
}

/// The JSON text of an entry: `{"Success": ...}` or `{"Failure": ...}`.
pub open spec fn outcome_text(e: Outcome) -> Seq<char> {
    match e {
        Ok(t) => "{\"Success\":"@ + json_string_of(t) + "}"@,
        Err(m) => "{\"Failure\":"@ + json_string_of(m) + "}"@,
    }
}

/// One member of the snapshot object: the song's text form, as a JSON string,
/// and its entry.
pub open spec fn member_text(k: SongView, e: Outcome) -> Seq<char> {
    json_string_of(song_key_text(k)) + ":"@ + outcome_text(e)
}

pub open spec fn members_text(s: Seq<(SongView, Outcome)>) -> Seq<char>
    decreases s.len(),
{
    if s.len() == 0 {
        Seq::empty()
    } else if s.len() == 1 {
        member_text(s[0].0, s[0].1)
    } else {
        members_text(s.drop_last()) + ","@ + member_text(s.last().0, s.last().1)
    }
}

/// The snapshot of a store: one JSON object whose member names are the
/// songs' text forms and whose values are the entries.
pub open spec fn snapshot_text(s: Seq<(SongView, Outcome)>) -> Seq<char> {
    "{"@ + members_text(s) + "}"@
}

proof fn lemma_as_map_last(s: Seq<(SongView, Outcome)>, k: SongView, i: int)
    requires
        last_at(s, k, i),
    ensures
        cached_entry(as_map(s), k) == Some(s[i].1),
    decreases s.len(),
{
    if i < s.len() - 1 {
        lemma_as_map_last(s.drop_last(), k, i);
    }
}

proof fn lemma_as_map_absent(s: Seq<(SongView, Outcome)>, k: SongView)
    requires
        forall|j: int| 0 <= j < s.len() ==> s[j].0 != k,
    ensures
        !as_map(s).contains_key(k),
    decreases s.len(),
{
    if s.len() > 0 {
        lemma_as_map_absent(s.drop_last(), k);
    }
}

proof fn lemma_as_map_update(s: Seq<(SongView, Outcome)>, k: SongView, e: Outcome, i: int)
    requires
        last_at(s, k, i),
    ensures
        as_map(s.update(i, (k, e))) == as_map(s).insert(k, e),
    decreases s.len(),
{
    let t = s.update(i, (k, e));
    if i == s.len() - 1 {
        assert(t.drop_last() =~= s.drop_last());
    } else {
        assert(t.drop_last() =~= s.drop_last().update(i, (k, e)));
        lemma_as_map_update(s.drop_last(), k, e, i);
    }
    assert(as_map(t) =~= as_map(s).insert(k, e));
}

proof fn lemma_as_map_push(s: Seq<(SongView, Outcome)>, k: SongView, e: Outcome)
    ensures
        as_map(s.push((k, e))) == as_map(s).insert(k, e),
{
    assert(s.push((k, e)).drop_last() =~= s);
}

impl DevCache {
    /// The snapshot of the current entries awaits its write to the file.
    pub open spec fn snapshot_pending(&self) -> bool {
        self.pending_write matches Some(w) && w@ == snapshot_text(pair_views(self.entries@))
    }

    /// An empty store.
    pub fn new(options: DevCacheOptions) -> (r: Self)
        ensures
            r.entries@.len() == 0,
            r.entries() == Map::<SongView, Outcome>::empty(),
            r.options == options,
            r.pending_write is None,
            r.written() == Seq::<Map<SongView, Outcome>>::empty(),
    {
        DevCache {
            entries: Vec::new(),
            options,
            pending_write: None,
            written_back: Ghost(Seq::empty()),
        }
    }

    /// A store holding `entries`, as read from an earlier snapshot.
    pub fn from_entries(options: DevCacheOptions, entries: Vec<(SongDescriptor, CacheEntry)>) -> (r:
        Self)
        ensures
            r.entries@ == entries@,
            r.options == options,
            r.pending_write is None,
            r.written() == Seq::<Map<SongView, Outcome>>::empty(),
    {
        DevCache { entries, options, pending_write: None, written_back: Ghost(Seq::empty()) }
    }

    /// The last position of `song`, if it occurs.
    fn position_of(&self, song: &SongDescriptor) -> (r: Option<usize>)
        ensures
            match r {
                Some(i) => last_at(pair_views(self.entries@), song@, i as int),
                None => forall|j: int|
                    0 <= j < self.entries@.len() ==> (#[trigger] pair_views(self.entries@)[j]).0
                        != song@,
            },
    {
        let ghost s = pair_views(self.entries@);
        let mut i: usize = self.entries.len();
        while i > 0
            invariant
                i <= self.entries.len(),
                s == pair_views(self.entries@),
                forall|j: int| i <= j < s.len() ==> (#[trigger] s[j]).0 != song@,
            decreases i,
        {
            i = i - 1;
            if same_song(&self.entries[i].0, song) {
                return Some(i);
            }
        }
        None
    }

    /// The snapshot text of the whole store.
    pub fn snapshot(&self) -> (r: String)
        ensures
            r@ == snapshot_text(pair_views(self.entries@)),
    {
        let keyed = stringify_map_keys(&self.entries);
        let ghost s = pair_views(self.entries@);
        let mut out = String::new();
        out.append("{");
        let mut i: usize = 0;
        while i < keyed.len()
            invariant
                keyed.len() == s.len(),
                s == pair_views(self.entries@),
                i <= keyed.len(),
                forall|j: int|
                    0 <= j < s.len() ==> (#[trigger] keyed[j]).0@ == song_key_text(s[j].0)
                        && keyed[j].1@ == s[j].1,
                out@ == "{"@ + members_text(s.take(i as int)),
            decreases keyed.len() - i,
        {
            if i > 0 {
                out.append(",");
            }
            out.append(json_quote(keyed[i].0.as_str()).as_str());
            out.append(":");
            match &keyed[i].1 {
                CacheEntry::Success(t) => {
                    out.append("{\"Success\":");
                    out.append(json_quote(t.as_str()).as_str());
                },
                CacheEntry::Failure(m) => {
                    out.append("{\"Failure\":");
                    out.append(json_quote(m.as_str()).as_str());
                },
            }
            out.append("}");
            proof {
                let t = s.take(i + 1);
                assert(t.drop_last() =~= s.take(i as int));
                assert(t.last() == s[i as int]);
                assert(out@ =~= "{"@ + members_text(t));
            }
            i = i + 1;
        }
        out.append("}");
        assert(s.take(s.len() as int) =~= s);
        assert(out@ =~= snapshot_text(s));
        out
    }

    /// Hands over the snapshot awaiting its write to the file, if any.
    pub fn take_pending_write(&mut self) -> (r: Option<String>)
        ensures
            r == old(self).pending_write,
            final(self).pending_write is None,
            final(self).entries == old(self).entries,
            final(self).options == old(self).options,
            final(self).written_back == old(self).written_back,
    {
        self.pending_write.take()
    }
}

impl Cache for DevCache {
    open spec fn entries(&self) -> Map<SongView, Outcome> {
        as_map(pair_views(self.entries@))
    }

    open spec fn written(&self) -> Seq<Map<SongView, Outcome>> {
        self.written_back@
    }

    /// The mapping is in memory: a load does not fail.
    open spec fn load_fails(&self, song: SongView) -> bool {
        false
    }

    /// A save, and the write-back that follows it in eager mode, only
    /// builds a snapshot in memory: it does not fail.
    open spec fn save_fails(&self, song: SongView, entry: Outcome) -> bool {
        false
    }

    /// A write-back builds the snapshot in memory; the file is written by its
    /// owner, who reports a failure there.
    open spec fn write_back_fails(&self) -> bool {
        false
    }

    open spec fn load_error(&self, song: SongView) -> Seq<char> {
        Seq::empty()
    }

    open spec fn save_error(&self, song: SongView, entry: Outcome) -> Seq<char> {
        Seq::empty()
    }

    open spec fn write_back_error(&self) -> Seq<char> {
        Seq::empty()
    }

    /// Also: with eager writes the new snapshot is pending right after the
    /// save; otherwise what is pending stays as it was.
    fn save(&mut self, song: &SongDescriptor, entry: CacheEntry) -> (r: Result<(), String>)
        ensures
            final(self).options == old(self).options,
            old(self).options.write_eagerly ==> final(self).snapshot_pending(),
            !old(self).options.write_eagerly ==> final(self).pending_write == old(
                self,
            ).pending_write,
            old(self).options.write_eagerly ==> final(self).written_back@ == old(
                self,
            ).written_back@.push(as_map(pair_views(final(self).entries@))),
            !old(self).options.write_eagerly ==> final(self).written_back@ == old(
                self,
            ).written_back@,
    {
        let ghost s = pair_views(self.entries@);
        let ghost e = entry@;
        match self.position_of(song) {
            Some(i) => {
                self.entries.set(i, (song.clone(), entry));
                proof {
                    lemma_as_map_update(s, song@, e, i as int);
                    assert(pair_views(self.entries@) =~= s.update(i as int, (song@, e)));
                }
            },
            None => {
                self.entries.push((song.clone(), entry));
                proof {
                    lemma_as_map_push(s, song@, e);
                    assert(pair_views(self.entries@) =~= s.push((song@, e)));
                }
            },
        }
        if self.options.write_eagerly {
            let written = self.write_back();
            match written {
                Ok(()) => {},
                Err(err) => {
                    return Err(err);
                },
            }
        }
        Ok(())
    }

    fn load(&self, song: &SongDescriptor) -> (r: Result<Option<CacheEntry>, String>) {
        match self.position_of(song) {
            Some(i) => {
                proof {
                    lemma_as_map_last(pair_views(self.entries@), song@, i as int);
                }
                Ok(Some(self.entries[i].1.clone()))
            },
            None => {
                proof {
                    lemma_as_map_absent(pair_views(self.entries@), song@);
                }
                Ok(None)
            },
        }
    }

    /// Also: the snapshot of the store is pending.
    fn write_back(&mut self) -> (r: Result<(), String>)
        ensures
            final(self).entries == old(self).entries,
            final(self).options == old(self).options,
            final(self).snapshot_pending(),
    {
        let text = self.snapshot();
        self.pending_write = Some(text);
        self.written_back = Ghost(self.written_back@.push(self.entries()));
        Ok(())
    }
}

/// A store used through a borrow: several fetchers, one after another or one
/// inside another, can work on the same store without taking it.
impl<'a> Cache for &'a mut DevCache {
    open spec fn entries(&self) -> Map<SongView, Outcome> {
        (**self).entries()
    }

    open spec fn written(&self) -> Seq<Map<SongView, Outcome>> {
        (**self).written()
    }

    open spec fn load_fails(&self, song: SongView) -> bool {
        (**self).load_fails(song)
    }

    open spec fn save_fails(&self, song: SongView, entry: Outcome) -> bool {
        (**self).save_fails(song, entry)
    }

    open spec fn write_back_fails(&self) -> bool {
        (**self).write_back_fails()
    }

    open spec fn load_error(&self, song: SongView) -> Seq<char> {
        (**self).load_error(song)
    }

    open spec fn save_error(&self, song: SongView, entry: Outcome) -> Seq<char> {
        (**self).save_error(song, entry)
    }

    open spec fn write_back_error(&self) -> Seq<char> {
        (**self).write_back_error()
    }

    fn save(&mut self, song: &SongDescriptor, entry: CacheEntry) -> (r: Result<(), String>) {
        (**self).save(song, entry)
    }

    fn load(&self, song: &SongDescriptor) -> (r: Result<Option<CacheEntry>, String>) {
        (**self).load(song)
    }

    fn write_back(&mut self) -> (r: Result<(), String>) {
        (**self).write_back()
    }
}

} // verus!
