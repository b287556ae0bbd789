use std::cell::RefCell;
use std::rc::Rc;

use lyrical::musixmatch::{lyrics_from_page, search_url, song_uri_from_search};
use lyrical::{
    LyricsFetcher, MusixMatchLyricsFetcher, MusixMatchLyricsFetcherOptions, PageSource,
    SongDescriptor, SongUri, StoredPages,
};

const SEARCH_PAGE: &str = "<html><body><div id=\"search-all-results\"><div class=\"main-panel\"><div class=\"box\"><div class=\"box-content\"><ul><li class=\"track-card\"><meta itemprop=\"url\" content=\"/lyrics/Dave-Rodgers/The-House-of-Fire\"></li><li class=\"track-card\"><meta itemprop=\"url\" content=\"/lyrics/Other/Song\"></li></ul></div></div></div></div></body></html>";

const LYRICS_PAGE: &str = "<html><body><p class=\"mxm-lyrics__content\"><span>Welcome to the house of fire</span></p><p class=\"mxm-lyrics__content\"><span>Let me go</span></p></body></html>";

const EMPTY_PAGE: &str = "<html><body><p>nothing here</p></body></html>";

/// Serves pages by url and records each request.
struct FakePages {
    requests: Rc<RefCell<Vec<(String, Option<String>)>>>,
}

impl PageSource for FakePages {
    fn get_page(&mut self, url: &str, proxy: &Option<String>) -> Result<String, String> {
        self.requests.borrow_mut().push((url.to_string(), proxy.clone()));
        if url.starts_with("https://www.musixmatch.com/search/") {
            Ok(SEARCH_PAGE.to_string())
        } else if url == "https://www.musixmatch.com/lyrics/Dave-Rodgers/The-House-of-Fire" {
            Ok(LYRICS_PAGE.to_string())
        } else if url == "https://unreachable.example" {
            Err("connection refused".to_string())
        } else {
            Ok(EMPTY_PAGE.to_string())
        }
    }
}

fn house_of_fire() -> SongDescriptor {
    SongDescriptor {
        name: "House of fire".to_string(),
        artist: "Dave Rodgers".to_string(),
        uri: None,
    }
}

#[test]
fn search_url_joins_name_and_artist() {
    assert_eq!(
        search_url(&house_of_fire()),
        "https://www.musixmatch.com/search/House of fire Dave Rodgers"
    );
}

#[test]
fn song_uri_from_search_takes_the_first_track() {
    assert_eq!(
        song_uri_from_search(&house_of_fire(), SEARCH_PAGE),
        Ok("https://www.musixmatch.com/lyrics/Dave-Rodgers/The-House-of-Fire".to_string())
    );
}

#[test]
fn song_uri_from_search_fails_without_results() {
    let err = song_uri_from_search(&house_of_fire(), EMPTY_PAGE).unwrap_err();
    assert_eq!(
        err,
        format!(
            "Failed to find a search result for song {} in response: {}",
            house_of_fire().to_string(),
            EMPTY_PAGE
        )
    );
}

#[test]
fn lyrics_from_page_joins_segments_by_line() {
    assert_eq!(
        lyrics_from_page(&house_of_fire(), LYRICS_PAGE),
        Ok("Welcome to the house of fire\nLet me go".to_string())
    );
}

#[test]
fn lyrics_from_page_fails_without_segments() {
    assert_eq!(
        lyrics_from_page(&house_of_fire(), EMPTY_PAGE),
        Err(format!(
            "Something went unexpectedly wrong while fetching lyrics for song {} with html: {}",
            house_of_fire().to_string(),
            EMPTY_PAGE
        ))
    );
}

#[test]
fn fetch_with_known_uri_skips_the_search() {
    let requests = Rc::new(RefCell::new(Vec::new()));
    let options = MusixMatchLyricsFetcherOptions { proxy: Some("https://proxy:1".to_string()) };
    let mut fetcher = MusixMatchLyricsFetcher::new(options, FakePages { requests: requests.clone() });
    let song = SongDescriptor {
        name: String::new(),
        artist: String::new(),
        uri: Some(SongUri::MusixMatchUri(
            "https://www.musixmatch.com/lyrics/Dave-Rodgers/The-House-of-Fire".to_string(),
        )),
    };
    assert_eq!(
        fetcher.fetch_lyrics(&song),
        Ok("Welcome to the house of fire\nLet me go".to_string())
    );
    assert_eq!(
        requests.borrow().clone(),
        vec![(
            "https://www.musixmatch.com/lyrics/Dave-Rodgers/The-House-of-Fire".to_string(),
            Some("https://proxy:1".to_string())
        )]
    );
}

#[test]
fn fetch_without_uri_searches_then_fetches() {
    let requests = Rc::new(RefCell::new(Vec::new()));
    let mut fetcher = MusixMatchLyricsFetcher::new(
        MusixMatchLyricsFetcherOptions::default(),
        FakePages { requests: requests.clone() },
    );
    assert_eq!(
        fetcher.fetch_lyrics(&house_of_fire()),
        Ok("Welcome to the house of fire\nLet me go".to_string())
    );
    let urls: Vec<String> = requests.borrow().iter().map(|r| r.0.clone()).collect();
    assert_eq!(
        urls,
        vec![
            "https://www.musixmatch.com/search/House of fire Dave Rodgers".to_string(),
            "https://www.musixmatch.com/lyrics/Dave-Rodgers/The-House-of-Fire".to_string()
        ]
    );
}

#[test]
fn fetch_reports_a_failed_request() {
    let requests = Rc::new(RefCell::new(Vec::new()));
    let mut fetcher = MusixMatchLyricsFetcher::new(
        MusixMatchLyricsFetcherOptions::default(),
        FakePages { requests },
    );
    let song = SongDescriptor {
        name: String::new(),
        artist: String::new(),
        uri: Some(SongUri::MusixMatchUri("https://unreachable.example".to_string())),
    };
    assert_eq!(
        fetcher.fetch_lyrics(&song),
        Err("Failed to extract html from response: connection refused".to_string())
    );
}

#[test]
fn get_song_uri_returns_a_known_uri() {
    let requests = Rc::new(RefCell::new(Vec::new()));
    let mut fetcher = MusixMatchLyricsFetcher::new(
        MusixMatchLyricsFetcherOptions::default(),
        FakePages { requests: requests.clone() },
    );
    let mut song = house_of_fire();
    song.uri = Some(SongUri::MusixMatchUri("https://x/y".to_string()));
    assert_eq!(fetcher.get_song_uri(&song), Ok("https://x/y".to_string()));
    assert!(requests.borrow().is_empty());
}

#[test]
fn stored_pages_serve_the_first_page_for_a_url() {
    let mut pages = StoredPages::new(vec![
        ("u".to_string(), "first".to_string()),
        ("u".to_string(), "second".to_string()),
    ]);
    assert_eq!(pages.get_page("u", &None), Ok("first".to_string()));
    assert!(pages.get_page("v", &None).is_err());
}

#[test]
fn fetch_from_stored_pages_searches_then_fetches() {
    let pages = StoredPages::new(vec![
        (
            "https://www.musixmatch.com/search/House of fire Dave Rodgers".to_string(),
            SEARCH_PAGE.to_string(),
        ),
        (
            "https://www.musixmatch.com/lyrics/Dave-Rodgers/The-House-of-Fire".to_string(),
            LYRICS_PAGE.to_string(),
        ),
    ]);
    let mut fetcher =
        MusixMatchLyricsFetcher::new(MusixMatchLyricsFetcherOptions::default(), pages);
    assert_eq!(
        fetcher.fetch_lyrics(&house_of_fire()),
        Ok("Welcome to the house of fire\nLet me go".to_string())
    );
}

#[test]
fn fetch_returns_a_search_error_as_it_is() {
    let mut fetcher = MusixMatchLyricsFetcher::new(
        MusixMatchLyricsFetcherOptions::default(),
        StoredPages::new(Vec::new()),
    );
    let err = fetcher.fetch_lyrics(&house_of_fire()).unwrap_err();
    assert_eq!(
        err,
        format!(
            "Failed to retrieve search content for song {}: no stored page for {}",
            house_of_fire().to_string(),
            "https://www.musixmatch.com/search/House of fire Dave Rodgers"
        )
    );
}
