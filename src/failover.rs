//! A fetcher that tries an ordered list of fetchers and returns the first
//! success.

use vstd::prelude::*;
use vstd::string::*;

use crate::fetcher::{outcome_of, Lookup, LyricsFetcher, Outcome};
use crate::song::{song_key_text, SongDescriptor, SongView};

verus! {

/// The histories of a list of fetchers, one per fetcher.
pub open spec fn histories(fs: Seq<Box<dyn LyricsFetcher>>) -> Seq<Seq<Lookup>> {
    fs.map_values(|f: Box<dyn LyricsFetcher>| f.history())
}

/// `after` is `before` with one more lookup of `song`, which failed.
pub open spec fn failed_on(before: Seq<Lookup>, after: Seq<Lookup>, song: SongView) -> bool {
    &&& after.len() == before.len() + 1
    &&& after.drop_last() == before
    &&& after.last().0 == song
    &&& after.last().1 is Err
}

/// The first `k` fetchers were asked for `song` and failed; those after the
/// `k`-th were not asked.
pub open spec fn failed_before(
    before: Seq<Seq<Lookup>>,
    after: Seq<Seq<Lookup>>,
    song: SongView,
    k: int,
) -> bool {
    &&& after.len() == before.len()
    &&& 0 <= k <= before.len()
    &&& forall|i: int| 0 <= i < k ==> failed_on(#[trigger] before[i], after[i], song)
    &&& forall|i: int| k < i < before.len() ==> #[trigger] after[i] == before[i]
}

/// The message returned when every fetcher failed: it names the song.
pub open spec fn failover_message(song: SongView) -> Seq<char> {
    "Failed to fetch lyrics for "@ + song_key_text(song)
}

/// The fetchers before the `k`-th failed on `song`; the `k`-th answered
/// `out`, a success, or, when there is none, `out` is the failover message.
pub open spec fn stopped_at(
    before: Seq<Seq<Lookup>>,
    after: Seq<Seq<Lookup>>,
    song: SongView,
    out: Outcome,
    k: int,
) -> bool {
    &&& failed_before(before, after, song, k)
    &&& k < before.len() ==> out is Ok && after[k] == before[k].push((song, out))
    &&& k == before.len() ==> out == Err::<Seq<char>, Seq<char>>(failover_message(song))
}

pub struct FailoverLyricsFetcher {
    pub fetchers: Vec<Box<dyn LyricsFetcher>>,
    pub log: Ghost<Seq<Lookup>>,
}

impl FailoverLyricsFetcher {
    pub fn new(fetchers: Vec<Box<dyn LyricsFetcher>>) -> (r: Self)
        ensures
            r.fetchers@ == fetchers@,
            r.history() == Seq::<Lookup>::empty(),
    {
        FailoverLyricsFetcher { fetchers, log: Ghost(Seq::empty()) }
    }
}

impl LyricsFetcher for FailoverLyricsFetcher {
    open spec fn history(&self) -> Seq<Lookup> {
        self.log@
    }

    /// Asks each fetcher in order until one succeeds. The first success is
    /// returned as it is; when all fail, the error names the song.
    fn fetch_lyrics(&mut self, song: &SongDescriptor) -> (r: Result<String, String>)
        ensures
            exists|k: int|
                #[trigger] stopped_at(
                    histories(old(self).fetchers@),
                    histories(final(self).fetchers@),
                    song@,
                    outcome_of(r),
                    k,
                ),
    {
        let ghost before = histories(self.fetchers@);
        let n = self.fetchers.len();
        let mut i: usize = 0;
        while i < n
            invariant
                self.fetchers.len() == n,
                before.len() == n,
                i <= n,
                failed_before(before, histories(self.fetchers@), song@, i as int),
                i < n ==> histories(self.fetchers@)[i as int] == before[i as int],
                self.log == old(self).log,
                before == histories(old(self).fetchers@),
            decreases n - i,
        {
            let ghost prev = histories(self.fetchers@);
            let r = self.fetchers[i].fetch_lyrics(song);
            let ghost now = histories(self.fetchers@);
            assert(now =~= prev.update(i as int, now[i as int]));
            assert(now[i as int] == prev[i as int].push((song@, outcome_of(r))));
            match r {
                Ok(lyrics) => {
                    let r = Ok(lyrics);
                    self.log = Ghost(self.log@.push((song@, outcome_of(r))));
                    assert(stopped_at(
                        before,
                        histories(self.fetchers@),
                        song@,
                        outcome_of(r),
                        i as int,
                    ));
                    return r;
                },
                Err(_) => {
                    assert(now[i as int].drop_last() =~= before[i as int]);
                    assert(failed_on(before[i as int], now[i as int], song@));
                    assert(failed_before(before, now, song@, i + 1));
                },
            }
            i = i + 1;
        }
        let mut message = String::new();
        message.append("Failed to fetch lyrics for ");
        message.append(song.to_string().as_str());
        assert(message@ =~= failover_message(song@));
        let r = Err(message);
        self.log = Ghost(self.log@.push((song@, outcome_of(r))));
        assert(stopped_at(
            histories(old(self).fetchers@),
            histories(self.fetchers@),
            song@,
            outcome_of(r),
            n as int,
        ));
        r
    }
}

} // verus!
