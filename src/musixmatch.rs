//! The source fetcher: finds a song's page on MusixMatch (by its known uri, or
//! by a search) and extracts the lyrics from it.

use vstd::prelude::*;
use vstd::string::*;

use crate::fetcher::{outcome_of, Lookup, LyricsFetcher, Outcome};
use crate::song::{song_key_text, SongDescriptor, SongUri, SongView};
use crate::text::{concat, concat3};

verus! {

pub const MUSIX_MATCH_URI: &'static str = "https://www.musixmatch.com";

pub const MUSIX_MATCH_SEARCH_URI: &'static str = "https://www.musixmatch.com/search";

pub const MUSIX_MATCH_SEARCH_TRACK_URI_SELECTOR: &'static str =
    "#search-all-results > .main-panel > .box > .box-content .track-card > meta[itemprop=\"url\"]";

pub const MUSIX_MATCH_LYRICS_SEGMENT_SELECTOR: &'static str = ".mxm-lyrics__content > span";

/// The attribute of the search result that holds the track's path.
pub const TRACK_URI_ATTRIBUTE: &'static str = "content";

/// One request for a page: its url, its proxy, and what came back.
pub type Request = (Seq<char>, Option<Seq<char>>, Outcome);

/// Where pages come from: one blocking request per call, no retries.
pub trait PageSource {
    /// Every request made so far, oldest first. A source that proves its
    /// contract keeps a record of them and defines this by it.
    open spec fn requests(&self) -> Seq<Request> {
        Seq::empty()
    }

    /// The body of the page at `url`, fetched through `proxy` when one is given.
    fn get_page(&mut self, url: &str, proxy: &Option<String>) -> (r: Result<String, String>)
        ensures
            final(self).requests() == old(self).requests().push(
                (url@, opt_view(*proxy), outcome_of(r)),
            ),
    ;
}

/// What scraper finds in the document `html`: `None` when `selector` does not
/// parse; otherwise the attribute `attr` of the first element that matches,
/// if there is such an element and it has the attribute.
pub uninterp spec fn first_attr_in(html: Seq<char>, selector: Seq<char>, attr: Seq<char>) -> Option<
    Option<Seq<char>>,
>;

/// What scraper finds in the document `html`: `None` when `selector` does not
/// parse; otherwise the inner HTML of each matching element, in the order in
/// which `Html::select` yields them.
pub uninterp spec fn inner_htmls_in(html: Seq<char>, selector: Seq<char>) -> Option<Seq<Seq<char>>>;

/// The message of a selector that does not parse: the debug text of the
/// error that scraper reports for it.
pub uninterp spec fn selector_error(selector: Seq<char>) -> Seq<char>;

pub open spec fn opt_view(o: Option<String>) -> Option<Seq<char>> {
    match o {
        Some(s) => Some(s@),
        None => None,
    }
}

/// Relies on `scraper::Html::parse_document`, `scraper::Selector::parse`,
/// `Html::select` and `Element::attr`: the attribute of the first match, or
/// the debug text of the selector's parse error.
#[verifier::external_body]
fn select_first_attr(html: &str, selector: &str, attr: &str) -> (r: Result<Option<String>, String>)
    ensures
        match r {
            Ok(o) => first_attr_in(html@, selector@, attr@) == Some(opt_view(o)),
            Err(e) => first_attr_in(html@, selector@, attr@) is None && e@ == selector_error(
                selector@,
            ),
        },
{
    let document = scraper::Html::parse_document(html);
    match scraper::Selector::parse(selector) {
        Ok(sel) => Ok(
            document.select(&sel).next().and_then(|e| e.value().attr(attr)).map(|a| a.to_string()),
        ),
        Err(err) => Err(format!("{:?}", err)),
    }
}

/// Relies on `scraper::Html::parse_document`, `scraper::Selector::parse`,
/// `Html::select` and `ElementRef::inner_html`: the inner HTML of each match,
/// or the debug text of the selector's parse error.
#[verifier::external_body]
fn select_inner_htmls(html: &str, selector: &str) -> (r: Result<Vec<String>, String>)
    ensures
        match r {
            Ok(v) => inner_htmls_in(html@, selector@) == Some(v@.map_values(|s: String| s@)),
            Err(e) => inner_htmls_in(html@, selector@) is None && e@ == selector_error(selector@),
        },
{
    let document = scraper::Html::parse_document(html);
    match scraper::Selector::parse(selector) {
        Ok(sel) => Ok(document.select(&sel).map(|e| e.inner_html()).collect()),
        Err(err) => Err(format!("{:?}", err)),
    }
}

/// The search page for a song: the search uri, then name and artist.
pub open spec fn search_url_of(s: SongView) -> Seq<char> {
    MUSIX_MATCH_SEARCH_URI@ + "/"@ + s.name + " "@ + s.artist
}

/// The parts, one per line.
pub open spec fn joined_lines(parts: Seq<Seq<char>>) -> Seq<char>
    decreases parts.len(),
{
    if parts.len() == 0 {
        Seq::empty()
    } else if parts.len() == 1 {
        parts[0]
    } else {
        joined_lines(parts.drop_last()) + "\n"@ + parts.last()
    }
}

/// The error when a search page lists no track (the song was not found).
pub open spec fn not_found_message(song: SongView, page: Seq<char>) -> Seq<char> {
    "Failed to find a search result for song "@ + song_key_text(song) + " in response: "@ + page
}

/// The error when the search result selector does not parse.
pub open spec fn search_selector_message(song: SongView) -> Seq<char> {
    "Failed to parse the search result selector for song "@ + song_key_text(song) + ": "@
        + selector_error(MUSIX_MATCH_SEARCH_TRACK_URI_SELECTOR@)
}

/// The error when a song's page has no lyrics segments.
pub open spec fn no_lyrics_message(song: SongView, page: Seq<char>) -> Seq<char> {
    "Something went unexpectedly wrong while fetching lyrics for song "@ + song_key_text(song)
        + " with html: "@ + page
}

/// The error when the lyrics segment selector does not parse.
pub open spec fn segment_selector_message() -> Seq<char> {
    "failed to parse MusixMatch lyrics segment selector: "@ + selector_error(
        MUSIX_MATCH_LYRICS_SEGMENT_SELECTOR@,
    )
}

/// The error when the search request failed with `e`.
pub open spec fn search_failed_message(song: SongView, e: Seq<char>) -> Seq<char> {
    "Failed to retrieve search content for song "@ + song_key_text(song) + ": "@ + e
}

/// The error when the request for a song's page failed with `e`.
pub open spec fn page_failed_message(e: Seq<char>) -> Seq<char> {
    "Failed to extract html from response: "@ + e
}

/// What a search page gives: the site's uri followed by the path of the
/// first track, or an error that names the song when there is none.
pub open spec fn uri_from_search(song: SongView, page: Seq<char>) -> Outcome {
    match first_attr_in(page, MUSIX_MATCH_SEARCH_TRACK_URI_SELECTOR@, TRACK_URI_ATTRIBUTE@) {
        Some(Some(path)) => Ok(MUSIX_MATCH_URI@ + path),
        Some(None) => Err(not_found_message(song, page)),
        None => Err(search_selector_message(song)),
    }
}

/// What a song's page gives: its lyrics segments one per line, or an error
/// that names the song when it has none.
pub open spec fn lyrics_on_page(song: SongView, page: Seq<char>) -> Outcome {
    match inner_htmls_in(page, MUSIX_MATCH_LYRICS_SEGMENT_SELECTOR@) {
        Some(parts) => if parts.len() > 0 {
            Ok(joined_lines(parts))
        } else {
            Err(no_lyrics_message(song, page))
        },
        None => Err(segment_selector_message()),
    }
}

/// `after` is `before` with one more request, for `url` through `proxy`.
pub open spec fn requested_once(
    before: Seq<Request>,
    after: Seq<Request>,
    url: Seq<char>,
    proxy: Option<Seq<char>>,
) -> bool {
    &&& after.len() == before.len() + 1
    &&& after.drop_last() == before
    &&& after.last().0 == url
    &&& after.last().1 == proxy
}

/// Finding a song's page took the requests from `before` to `after` and gave
/// `out`: a known uri with no request; otherwise one search request, and the
/// first track of the page that came back.
pub open spec fn uri_lookup(
    song: SongView,
    proxy: Option<Seq<char>>,
    before: Seq<Request>,
    after: Seq<Request>,
    out: Outcome,
) -> bool {
    match song.uri {
        Some(u) => after == before && out == Ok::<Seq<char>, Seq<char>>(u),
        None => {
            &&& requested_once(before, after, search_url_of(song), proxy)
            &&& match after.last().2 {
                Ok(page) => out == uri_from_search(song, page),
                Err(e) => out == Err::<Seq<char>, Seq<char>>(search_failed_message(song, e)),
            }
        },
    }
}

/// Fetching a song's lyrics took the requests from `before` to `after` and
/// gave `out`: the song's page is found as [`uri_lookup`] says, and an error
/// there is returned as it is; otherwise one request for that page, and the
/// lyrics of the page that came back.
pub open spec fn lyrics_lookup(
    song: SongView,
    proxy: Option<Seq<char>>,
    before: Seq<Request>,
    after: Seq<Request>,
    out: Outcome,
) -> bool {
    exists|mid: Seq<Request>, uri: Outcome|
        #[trigger] uri_lookup(song, proxy, before, mid, uri) && match uri {
            Err(e) => after == mid && out == Err::<Seq<char>, Seq<char>>(e),
            Ok(u) => {
                &&& requested_once(mid, after, u, proxy)
                &&& match after.last().2 {
                    Ok(page) => out == lyrics_on_page(song, page),
                    Err(e) => out == Err::<Seq<char>, Seq<char>>(page_failed_message(e)),
                }
            },
        }
}

pub fn search_url(song: &SongDescriptor) -> (r: String)
    ensures
        r@ == search_url_of(song@),
{
    let mut r = concat3(MUSIX_MATCH_SEARCH_URI, "/", song.name.as_str());
    r.append(" ");
    r.append(song.artist.as_str());
    r
}

/// The uri of the first track on a search page: the site's uri followed by the
/// track's path. Fails when the page lists no track.
pub fn song_uri_from_search(song: &SongDescriptor, page: &str) -> (r: Result<String, String>)
    ensures
        outcome_of(r) == uri_from_search(song@, page@),
{
    match select_first_attr(page, MUSIX_MATCH_SEARCH_TRACK_URI_SELECTOR, TRACK_URI_ATTRIBUTE) {
        Ok(Some(path)) => Ok(concat(MUSIX_MATCH_URI, path.as_str())),
        Ok(None) => {
            let mut message = concat3(
                "Failed to find a search result for song ",
                song.to_string().as_str(),
                " in response: ",
            );
            message.append(page);
            assert(message@ =~= not_found_message(song@, page@));
            Err(message)
        },
        Err(err) => {
            let mut message = concat3(
                "Failed to parse the search result selector for song ",
                song.to_string().as_str(),
                ": ",
            );
            message.append(err.as_str());
            assert(message@ =~= search_selector_message(song@));
            Err(message)
        },
    }
}

/// The lyrics on a song's page: its lyrics segments, one per line. Fails when
/// the page has none.
pub fn lyrics_from_page(song: &SongDescriptor, page: &str) -> (r: Result<String, String>)
    ensures
        outcome_of(r) == lyrics_on_page(song@, page@),
{
    match select_inner_htmls(page, MUSIX_MATCH_LYRICS_SEGMENT_SELECTOR) {
        Ok(segments) => {
            let ghost parts = segments@.map_values(|s: String| s@);
            if segments.len() == 0 {
                let mut message = concat3(
                    "Something went unexpectedly wrong while fetching lyrics for song ",
                    song.to_string().as_str(),
                    " with html: ",
                );
                message.append(page);
                return Err(message);
            }
            let mut lyrics = segments[0].clone();
            let mut i: usize = 1;
            while i < segments.len()
                invariant
                    1 <= i <= segments.len(),
                    parts == segments@.map_values(|s: String| s@),
                    lyrics@ == joined_lines(parts.take(i as int)),
                decreases segments.len() - i,
            {
                lyrics.append("\n");
                lyrics.append(segments[i].as_str());
                proof {
                    let t = parts.take(i + 1);
                    assert(t.drop_last() =~= parts.take(i as int));
                }
                i = i + 1;
            }
            proof {
                assert(parts.take(1) =~= seq![parts[0]]);
                assert(parts.take(segments.len() as int) =~= parts);
            }
            Ok(lyrics)
        },
        Err(err) => Err(concat(
            "failed to parse MusixMatch lyrics segment selector: ",
            err.as_str(),
        )),
    }
}

#[derive(Clone, Debug, Default, PartialEq, Eq)]
pub struct MusixMatchLyricsFetcherOptions {
    /// The proxy that every request goes through, if any.
    pub proxy: Option<String>,
}

pub struct MusixMatchLyricsFetcher<P: PageSource> {
    pub options: MusixMatchLyricsFetcherOptions,
    pub pages: P,
    pub log: Ghost<Seq<Lookup>>,
}

impl<P: PageSource> MusixMatchLyricsFetcher<P> {
    pub fn new(options: MusixMatchLyricsFetcherOptions, pages: P) -> (r: Self)
        ensures
            r.options == options,
            r.pages == pages,
            r.history() == Seq::<Lookup>::empty(),
    {
        MusixMatchLyricsFetcher { options, pages, log: Ghost(Seq::empty()) }
    }

    /// The song's page: its known uri as it is, with no request, or else the
    /// first result of one search by name and artist.
    pub fn get_song_uri(&mut self, song: &SongDescriptor) -> (r: Result<String, String>)
        ensures
            final(self).options == old(self).options,
            final(self).log == old(self).log,
            uri_lookup(
                song@,
                opt_view(old(self).options.proxy),
                old(self).pages.requests(),
                final(self).pages.requests(),
                outcome_of(r),
            ),
    {
        match &song.uri {
            Some(SongUri::MusixMatchUri(uri)) => Ok(uri.clone()),
            None => {
                let url = search_url(song);
                let fetched = self.pages.get_page(url.as_str(), &self.options.proxy);
                assert(self.pages.requests().drop_last() =~= old(self).pages.requests());
                match fetched {
                    Ok(page) => song_uri_from_search(song, page.as_str()),
                    Err(err) => {
                        let mut message = concat3(
                            "Failed to retrieve search content for song ",
                            song.to_string().as_str(),
                            ": ",
                        );
                        message.append(err.as_str());
                        assert(message@ =~= search_failed_message(song@, err@));
                        Err(message)
                    },
                }
            },
        }
    }
}

impl<P: PageSource> LyricsFetcher for MusixMatchLyricsFetcher<P> {
    open spec fn history(&self) -> Seq<Lookup> {
        self.log@
    }

    /// Also: the requests made and the result are as [`lyrics_lookup`] says.
    fn fetch_lyrics(&mut self, song: &SongDescriptor) -> (r: Result<String, String>)
        ensures
            final(self).options == old(self).options,
            lyrics_lookup(
                song@,
                opt_view(old(self).options.proxy),
                old(self).pages.requests(),
                final(self).pages.requests(),
                outcome_of(r),
            ),
    {
        let r = match self.get_song_uri(song) {
            Ok(uri) => {
                let ghost mid = self.pages.requests();
                let fetched = self.pages.get_page(uri.as_str(), &self.options.proxy);
                assert(self.pages.requests().drop_last() =~= mid);
                let r = match fetched {
                    Ok(page) => lyrics_from_page(song, page.as_str()),
                    Err(err) => Err(concat("Failed to extract html from response: ", err.as_str())),
                };
                assert(uri_lookup(
                    song@,
                    opt_view(old(self).options.proxy),
                    old(self).pages.requests(),
                    mid,
                    outcome_of(Ok::<String, String>(uri)),
                ));
                r
            },
            Err(err) => {
                let r = Err(err);
                assert(uri_lookup(
                    song@,
                    opt_view(old(self).options.proxy),
                    old(self).pages.requests(),
                    self.pages.requests(),
                    outcome_of(r),
                ));
                r
            },
        };
        self.log = Ghost(self.log@.push((song@, outcome_of(r))));
        r
    }
}

/// A page source that serves stored pages, by url, without a network: for
/// running a pipeline offline against pages saved earlier.
pub struct StoredPages {
    /// Urls and their page bodies; the first pair for a url is served.
    pub pages: Vec<(String, String)>,
    pub log: Ghost<Seq<Request>>,
}

impl StoredPages {
    pub fn new(pages: Vec<(String, String)>) -> (r: Self)
        ensures
            r.pages@ == pages@,
            r.requests() == Seq::<Request>::empty(),
    {
        StoredPages { pages, log: Ghost(Seq::empty()) }
    }
}

impl PageSource for StoredPages {
    open spec fn requests(&self) -> Seq<Request> {
        self.log@
    }

    /// Also: the first stored page for `url`, or an error when none is
    /// stored; the proxy plays no part.
    fn get_page(&mut self, url: &str, proxy: &Option<String>) -> (r: Result<String, String>)
        ensures
            final(self).pages == old(self).pages,
            match r {
                Ok(p) => exists|i: int|
                    0 <= i < old(self).pages@.len() && (#[trigger] old(self).pages@[i]).0@ == url@
                        && old(self).pages@[i].1@ == p@ && forall|j: int|
                        0 <= j < i ==> (#[trigger] old(self).pages@[j]).0@ != url@,
                Err(_) => forall|i: int|
                    0 <= i < old(self).pages@.len() ==> (#[trigger] old(self).pages@[i]).0@ != url@,
            },
    {
        let key = url.to_string();
        let mut i: usize = 0;
        let mut found: Option<String> = None;
        while i < self.pages.len()
            invariant_except_break
                found is None,
            invariant
                i <= self.pages.len(),
                self.pages == old(self).pages,
                key@ == url@,
                forall|j: int| 0 <= j < i ==> (#[trigger] self.pages@[j]).0@ != url@,
            ensures
                self.pages == old(self).pages,
                match found {
                    Some(p) => i < self.pages.len() && self.pages@[i as int].0@ == url@
                        && self.pages@[i as int].1@ == p@ && forall|j: int|
                        0 <= j < i ==> (#[trigger] self.pages@[j]).0@ != url@,
                    None => forall|j: int|
                        0 <= j < self.pages.len() ==> (#[trigger] self.pages@[j]).0@ != url@,
                },
            decreases self.pages.len() - i,
        {
            if self.pages[i].0 == key {
                found = Some(self.pages[i].1.clone());
                break;
            }
            i = i + 1;
        }
        let r = match found {
            Some(p) => Ok(p),
            None => Err(concat("no stored page for ", url)),
        };
        self.log = Ghost(self.log@.push((url@, opt_view(*proxy), outcome_of(r))));
        r
    }
}

} // verus!
