//! Resolution of song lyrics through a chain of composable fetchers, with a
//! persistent cache layer that remembers successes and (optionally) failures.

pub mod song;
pub mod json;
pub mod patterns;
pub mod fetcher;
pub mod simplifying;
pub mod failover;
pub mod caching;
pub mod utils;
pub mod dev_cache;
pub mod text;
pub mod musixmatch;
pub mod word_count;
pub mod decorating;
pub mod logging;

pub use caching::{Cache, CacheEntry, CachingLyricsFetcher, CachingLyricsFetcherOptions};
pub use decorating::{DecoratingLyricsFetcher, FetchObserver, LookupCounter};
pub use dev_cache::{DevCache, DevCacheOptions};
pub use failover::FailoverLyricsFetcher;
pub use fetcher::LyricsFetcher;
pub use logging::LoggingLyricsFetcher;
pub use musixmatch::{MusixMatchLyricsFetcher, MusixMatchLyricsFetcherOptions, PageSource, StoredPages};
pub use simplifying::{simplify_name, SimplifyingLyricsFetcher};
pub use song::{SongDescriptor, SongUri};
pub use utils::{stringify_map, stringify_map_keys};
pub use word_count::{
    aggregate_word_counts, count_words, get_word_counts_for_songs, sort_word_counts, SortOrder,
    WordCounts,
};
