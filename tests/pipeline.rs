use std::cell::RefCell;
use std::collections::HashMap;
use std::rc::Rc;

use lyrical::{
    simplify_name, Cache, CacheEntry, CachingLyricsFetcher, CachingLyricsFetcherOptions,
    DecoratingLyricsFetcher, DevCache, DevCacheOptions, FailoverLyricsFetcher, FetchObserver,
    LoggingLyricsFetcher, LookupCounter, LyricsFetcher, SimplifyingLyricsFetcher, SongDescriptor, SongUri,
};

/// Answers from a fixed list of results, one per call, and records each song.
struct ScriptedFetcher {
    answers: Vec<Result<String, String>>,
    asked: Rc<RefCell<Vec<SongDescriptor>>>,
}

impl ScriptedFetcher {
    fn new(answers: Vec<Result<String, String>>) -> (Self, Rc<RefCell<Vec<SongDescriptor>>>) {
        let asked = Rc::new(RefCell::new(Vec::new()));
        (ScriptedFetcher { answers, asked: asked.clone() }, asked)
    }
}

impl LyricsFetcher for ScriptedFetcher {
    fn fetch_lyrics(&mut self, song: &SongDescriptor) -> Result<String, String> {
        self.asked.borrow_mut().push(song.clone());
        let i = self.asked.borrow().len() - 1;
        self.answers[i].clone()
    }
}

fn song(name: &str, artist: &str) -> SongDescriptor {
    SongDescriptor { name: name.to_string(), artist: artist.to_string(), uri: None }
}

fn caching(
    answers: Vec<Result<String, String>>,
    cache_failures: bool,
    retry_cached_failures: bool,
) -> (CachingLyricsFetcher<ScriptedFetcher, DevCache>, Rc<RefCell<Vec<SongDescriptor>>>) {
    let (inner, asked) = ScriptedFetcher::new(answers);
    let options = CachingLyricsFetcherOptions { cache_failures, retry_cached_failures };
    let cache = DevCache::new(DevCacheOptions { write_eagerly: false });
    (CachingLyricsFetcher::new(inner, cache, options), asked)
}

#[test]
fn simplify_name_removes_content_after_hyphen() {
    assert_eq!(simplify_name("foo bar - baz qux quux"), "foo bar".to_string())
}

#[test]
fn simplify_name_keeps_a_name_without_annotation() {
    assert_eq!(simplify_name("foo-bar baz"), "foo-bar baz".to_string());
    assert_eq!(simplify_name(""), "".to_string());
}

#[test]
fn simplify_name_cuts_at_the_first_separator() {
    assert_eq!(simplify_name("a - b - c"), "a".to_string());
    assert_eq!(simplify_name("Song Name - Live at Wembley"), "Song Name".to_string());
}

#[test]
fn simplifying_lyrics_fetcher_simplifies_song_name() {
    let (fake_fetcher, asked) = ScriptedFetcher::new(vec![Ok(String::new())]);

    let mut fetcher = SimplifyingLyricsFetcher::new(fake_fetcher);

    let song = SongDescriptor {
        name: String::from("foo bar - baz qux quux"),
        artist: String::from("mr. foo"),
        uri: None,
    };

    fetcher.fetch_lyrics(&song).unwrap();

    let expected_song = SongDescriptor {
        name: String::from("foo bar"),
        artist: String::from("mr. foo"),
        uri: None,
    };

    assert_eq!(asked.borrow().first().cloned(), Some(expected_song));
}

#[test]
fn simplifying_fetcher_drops_uri_and_returns_inner_result() {
    let (inner, asked) = ScriptedFetcher::new(vec![Err("nope".to_string())]);
    let mut fetcher = SimplifyingLyricsFetcher::new(inner);
    let with_uri = SongDescriptor {
        name: "Song Name - Live at Wembley".to_string(),
        artist: "Band".to_string(),
        uri: Some(SongUri::MusixMatchUri("https://example.org/x".to_string())),
    };
    assert_eq!(fetcher.fetch_lyrics(&with_uri), Err("nope".to_string()));
    assert_eq!(asked.borrow()[0], song("Song Name", "Band"));
}

#[test]
fn caching_calls_inner_once_then_hits_cache() {
    let (mut fetcher, asked) = caching(vec![Ok("la la".to_string())], false, false);
    let k = song("foo", "bar");
    assert_eq!(fetcher.fetch_lyrics(&k), Ok("la la".to_string()));
    assert_eq!(asked.borrow().len(), 1);
    assert_eq!(fetcher.fetch_lyrics(&k), Ok("la la".to_string()));
    assert_eq!(fetcher.fetch_lyrics(&k), Ok("la la".to_string()));
    assert_eq!(asked.borrow().len(), 1);
}

#[test]
fn caching_without_failure_caching_retries_failures() {
    let (mut fetcher, asked) =
        caching(vec![Err("down".to_string()), Ok("words".to_string())], false, false);
    let k = song("foo", "bar");
    assert_eq!(fetcher.fetch_lyrics(&k), Err("down".to_string()));
    assert_eq!(fetcher.cache.load(&k), Ok(None));
    assert_eq!(fetcher.fetch_lyrics(&k), Ok("words".to_string()));
    assert_eq!(asked.borrow().len(), 2);
}

#[test]
fn caching_cached_failure_is_returned_without_retry() {
    let (mut fetcher, asked) =
        caching(vec![Err("down".to_string()), Ok("words".to_string())], true, false);
    let k = song("foo", "bar");
    assert_eq!(fetcher.fetch_lyrics(&k), Err("down".to_string()));
    assert_eq!(fetcher.cache.load(&k), Ok(Some(CacheEntry::Failure("down".to_string()))));
    assert_eq!(fetcher.fetch_lyrics(&k), Err("down".to_string()));
    assert_eq!(asked.borrow().len(), 1);
}

#[test]
fn caching_retried_failure_is_replaced_by_success() {
    let (mut fetcher, asked) =
        caching(vec![Err("down".to_string()), Ok("words".to_string())], true, true);
    let k = song("foo", "bar");
    assert_eq!(fetcher.fetch_lyrics(&k), Err("down".to_string()));
    assert_eq!(fetcher.fetch_lyrics(&k), Ok("words".to_string()));
    assert_eq!(fetcher.cache.load(&k), Ok(Some(CacheEntry::Success("words".to_string()))));
    assert_eq!(fetcher.fetch_lyrics(&k), Ok("words".to_string()));
    assert_eq!(asked.borrow().len(), 2);
}

#[test]
fn caching_keys_differ_by_uri() {
    let (mut fetcher, asked) =
        caching(vec![Ok("one".to_string()), Ok("two".to_string())], false, false);
    let plain = song("foo", "bar");
    let mut with_uri = song("foo", "bar");
    with_uri.uri = Some(SongUri::MusixMatchUri("u".to_string()));
    assert_eq!(fetcher.fetch_lyrics(&plain), Ok("one".to_string()));
    assert_eq!(fetcher.fetch_lyrics(&with_uri), Ok("two".to_string()));
    assert_eq!(fetcher.fetch_lyrics(&plain), Ok("one".to_string()));
    assert_eq!(asked.borrow().len(), 2);
}

#[test]
fn caching_shutdown_writes_back_and_returns_the_store() {
    let (mut fetcher, _) = caching(vec![Ok("la la".to_string())], false, false);
    fetcher.fetch_lyrics(&song("foo", "bar")).unwrap();
    let (mut cache, written) = fetcher.shutdown();
    assert_eq!(written, Ok(()));
    let snapshot = cache.take_pending_write().unwrap();
    assert_eq!(
        snapshot,
        "{\"{\\\"name\\\":\\\"foo\\\",\\\"artist\\\":\\\"bar\\\",\\\"uri\\\":null}\":{\"Success\":\"la la\"}}"
    );
    assert_eq!(cache.load(&song("foo", "bar")), Ok(Some(CacheEntry::Success("la la".to_string()))));
}

#[test]
fn failover_returns_first_success() {
    let (first, first_asked) = ScriptedFetcher::new(vec![Err("first failed".to_string())]);
    let (second, second_asked) = ScriptedFetcher::new(vec![Ok("lyrics text".to_string())]);
    let (third, third_asked) = ScriptedFetcher::new(vec![Ok("unused".to_string())]);
    let mut fetcher =
        FailoverLyricsFetcher::new(vec![Box::new(first), Box::new(second), Box::new(third)]);
    assert_eq!(fetcher.fetch_lyrics(&song("foo", "bar")), Ok("lyrics text".to_string()));
    assert_eq!(first_asked.borrow().len(), 1);
    assert_eq!(second_asked.borrow().len(), 1);
    assert_eq!(third_asked.borrow().len(), 0);
}

#[test]
fn failover_reports_the_song_when_all_fail() {
    let (first, _) = ScriptedFetcher::new(vec![Err("a".to_string())]);
    let (second, _) = ScriptedFetcher::new(vec![Err("b".to_string())]);
    let mut fetcher = FailoverLyricsFetcher::new(vec![Box::new(first), Box::new(second)]);
    let k = song("foo", "bar");
    let err = fetcher.fetch_lyrics(&k).unwrap_err();
    assert!(err.contains(&k.to_string()));
    assert_eq!(
        err,
        "Failed to fetch lyrics for {\"name\":\"foo\",\"artist\":\"bar\",\"uri\":null}"
    );
}

#[test]
fn failover_over_no_fetchers_fails() {
    let mut fetcher = FailoverLyricsFetcher::new(Vec::new());
    assert!(fetcher.fetch_lyrics(&song("foo", "bar")).is_err());
}

#[test]
fn failover_nested_with_simplifying_retries_simpler_name() {
    let (direct, direct_asked) = ScriptedFetcher::new(vec![Err("no".to_string())]);
    let (simple, simple_asked) = ScriptedFetcher::new(vec![Ok("found".to_string())]);
    let mut fetcher = FailoverLyricsFetcher::new(vec![
        Box::new(direct),
        Box::new(SimplifyingLyricsFetcher::new(simple)),
    ]);
    let k = song("Tune - Remastered", "Band");
    assert_eq!(fetcher.fetch_lyrics(&k), Ok("found".to_string()));
    assert_eq!(direct_asked.borrow()[0], k);
    assert_eq!(simple_asked.borrow()[0], song("Tune", "Band"));
}

struct Recorder {
    events: Rc<RefCell<Vec<String>>>,
}

impl FetchObserver for Recorder {
    fn before(&mut self, song: &SongDescriptor) {
        self.events.borrow_mut().push(format!("before {}", song.name));
    }

    fn after(&mut self, song: &SongDescriptor, result: &Result<String, String>) {
        self.events.borrow_mut().push(format!("after {} {}", song.name, result.is_ok()));
    }
}

#[test]
fn decorating_observes_without_changing_the_result() {
    let (inner, asked) = ScriptedFetcher::new(vec![Ok("x".to_string()), Err("y".to_string())]);
    let events = Rc::new(RefCell::new(Vec::new()));
    let mut fetcher = DecoratingLyricsFetcher::new(inner, Recorder { events: events.clone() });
    assert_eq!(fetcher.fetch_lyrics(&song("a", "b")), Ok("x".to_string()));
    assert_eq!(fetcher.fetch_lyrics(&song("c", "d")), Err("y".to_string()));
    assert_eq!(asked.borrow().clone(), vec![song("a", "b"), song("c", "d")]);
    assert_eq!(
        events.borrow().clone(),
        vec!["before a", "after a true", "before c", "after c false"]
    );
}

#[test]
fn logging_fetcher_passes_lookups_through() {
    let (inner, asked) = ScriptedFetcher::new(vec![Ok("x".to_string())]);
    let mut fetcher = LoggingLyricsFetcher::new(inner);
    assert_eq!(fetcher.fetch_lyrics(&song("a", "b")), Ok("x".to_string()));
    assert_eq!(asked.borrow().clone(), vec![song("a", "b")]);
}

#[test]
fn song_key_text_is_stable_json() {
    assert_eq!(song("foo", "bar").to_string(), "{\"name\":\"foo\",\"artist\":\"bar\",\"uri\":null}");
    let mut s = song("say \"hi\"", "x\\y");
    s.uri = Some(SongUri::MusixMatchUri("https://m/l".to_string()));
    assert_eq!(
        s.to_string(),
        "{\"name\":\"say \\\"hi\\\"\",\"artist\":\"x\\\\y\",\"uri\":{\"MusixMatchUri\":\"https://m/l\"}}"
    );
}

#[test]
fn dev_cache_load_save_overwrite() {
    let mut cache = DevCache::new(DevCacheOptions::default());
    let k = song("foo", "bar");
    assert_eq!(cache.load(&k), Ok(None));
    cache.save(&k, CacheEntry::Failure("e".to_string())).unwrap();
    cache.save(&k, CacheEntry::Success("s".to_string())).unwrap();
    assert_eq!(cache.load(&k), Ok(Some(CacheEntry::Success("s".to_string()))));
    assert_eq!(cache.entries.len(), 1);
}

#[test]
fn dev_cache_eager_write_is_pending_after_each_save() {
    let mut cache = DevCache::new(DevCacheOptions { write_eagerly: true });
    cache.save(&song("foo", "bar"), CacheEntry::Success("la la".to_string())).unwrap();
    let first = cache.take_pending_write().unwrap();
    assert_eq!(first, cache.snapshot());
    cache.save(&song("baz", "qux"), CacheEntry::Failure("gone".to_string())).unwrap();
    let second = cache.take_pending_write().unwrap();
    assert_eq!(second, cache.snapshot());
    assert!(second.contains("{\"Failure\":\"gone\"}"));
}

#[test]
fn dev_cache_lazy_write_waits_for_write_back() {
    let mut cache = DevCache::new(DevCacheOptions { write_eagerly: false });
    cache.save(&song("foo", "bar"), CacheEntry::Success("la la".to_string())).unwrap();
    assert_eq!(cache.take_pending_write(), None);
    cache.write_back().unwrap();
    assert_eq!(cache.take_pending_write(), Some(cache.snapshot()));
}

#[test]
fn dev_cache_snapshot_round_trips() {
    let mut cache = DevCache::new(DevCacheOptions::default());
    let k = song("foo", "bar");
    cache.save(&k, CacheEntry::Success("la la".to_string())).unwrap();
    let text = cache.snapshot();

    let parsed: HashMap<String, HashMap<String, String>> = serde_json::from_str(&text).unwrap();
    let mut entries = Vec::new();
    for (key, value) in parsed {
        let fields: HashMap<String, serde_json::Value> = serde_json::from_str(&key).unwrap();
        let reloaded = SongDescriptor {
            name: fields["name"].as_str().unwrap().to_string(),
            artist: fields["artist"].as_str().unwrap().to_string(),
            uri: fields["uri"]["MusixMatchUri"]
                .as_str()
                .map(|u| SongUri::MusixMatchUri(u.to_string())),
        };
        let entry = match value.get("Success") {
            Some(t) => CacheEntry::Success(t.clone()),
            None => CacheEntry::Failure(value["Failure"].clone()),
        };
        entries.push((reloaded, entry));
    }
    let reloaded = DevCache::from_entries(DevCacheOptions::default(), entries);
    assert_eq!(reloaded.entries, cache.entries);
    assert_eq!(reloaded.load(&k), Ok(Some(CacheEntry::Success("la la".to_string()))));
}

#[test]
fn dev_cache_empty_snapshot() {
    assert_eq!(DevCache::new(DevCacheOptions::default()).snapshot(), "{}");
}

#[test]
fn simplify_name_cuts_across_line_breaks() {
    assert_eq!(simplify_name("a - b\nc"), "a".to_string());
    assert_eq!(simplify_name("a - b\nc - d"), "a".to_string());
    assert_eq!(simplify_name("a\nb - c"), "a\nb".to_string());
}

#[test]
fn lookup_counter_counts_lookups_by_outcome() {
    let (inner, _) = ScriptedFetcher::new(vec![Ok("x".to_string()), Err("y".to_string())]);
    let mut fetcher = DecoratingLyricsFetcher::new(inner, LookupCounter::new());
    fetcher.fetch_lyrics(&song("a", "b")).unwrap();
    fetcher.fetch_lyrics(&song("c", "d")).unwrap_err();
    assert_eq!(fetcher.observer.started, 2);
    assert_eq!(fetcher.observer.succeeded, 1);
    assert_eq!(fetcher.observer.failed, 1);
}

#[test]
fn song_key_text_escapes_control_characters() {
    assert_eq!(
        song("tab\there\u{1}", "").to_string(),
        "{\"name\":\"tab\\there\\u0001\",\"artist\":\"\",\"uri\":null}"
    );
}

#[test]
fn caching_fetchers_share_a_borrowed_store() {
    let mut cache = DevCache::new(DevCacheOptions::default());
    let k = song("foo", "bar");
    let options = CachingLyricsFetcherOptions { cache_failures: false, retry_cached_failures: false };
    {
        let (inner, _) = ScriptedFetcher::new(vec![Ok("la la".to_string())]);
        let mut first = CachingLyricsFetcher::new(inner, &mut cache, options);
        assert_eq!(first.fetch_lyrics(&k), Ok("la la".to_string()));
    }
    let (inner, asked) = ScriptedFetcher::new(vec![Ok("other".to_string())]);
    let mut second = CachingLyricsFetcher::new(inner, &mut cache, options);
    assert_eq!(second.fetch_lyrics(&k), Ok("la la".to_string()));
    assert_eq!(asked.borrow().len(), 0);
    let (_, written) = second.shutdown();
    assert_eq!(written, Ok(()));
    assert!(cache.take_pending_write().is_some());
}
