//! The identity of one lookup: a song's name, its artist and, when known, a
//! direct reference to its page on the lyrics source.

use vstd::prelude::*;
use vstd::string::*;

use crate::json::{json_quote, json_string_of};

verus! {

/// A previously known direct locator for a song.
#[derive(Debug, PartialEq, Eq, Hash)]
pub enum SongUri {
    MusixMatchUri(String),
}

/// What identifies a song: equality covers all three fields, so two
/// descriptors that differ only in `uri` are distinct cache keys.
#[derive(Debug, PartialEq, Eq, Hash)]
pub struct SongDescriptor {
    pub name: String,
    pub artist: String,
    pub uri: Option<SongUri>,
}

/// The mathematical value of a [`SongDescriptor`].
pub struct SongView {
    pub name: Seq<char>,
    pub artist: Seq<char>,
    pub uri: Option<Seq<char>>,
}

impl SongUri {
    pub open spec fn spec_text(&self) -> Seq<char> {
        match self {
            SongUri::MusixMatchUri(u) => u@,
        }
    }
}

impl View for SongDescriptor {
    type V = SongView;

    open spec fn view(&self) -> SongView {
        SongView {
            name: self.name@,
            artist: self.artist@,
            uri: match self.uri {
                Some(u) => Some(u.spec_text()),
                None => None,
            },
        }
    }
}

impl Clone for SongUri {
    fn clone(&self) -> (r: Self)
        ensures
            r == *self,
    {
        match self {
            SongUri::MusixMatchUri(u) => SongUri::MusixMatchUri(u.clone()),
        }
    }
}

impl Clone for SongDescriptor {
    fn clone(&self) -> (r: Self)
        ensures
            r == *self,
    {
        let uri = match &self.uri {
            Some(u) => Some(u.clone()),
            None => None,
        };
        SongDescriptor { name: self.name.clone(), artist: self.artist.clone(), uri }
    }
}

/// The stable text form of a song: the JSON object with fields `name`,
/// `artist` and `uri`, the last `null` or `{"MusixMatchUri": ...}`.
pub open spec fn song_key_text(s: SongView) -> Seq<char> {
    "{\"name\":"@ + json_string_of(s.name) + ",\"artist\":"@ + json_string_of(s.artist)
        + ",\"uri\":"@ + match s.uri {
        None => "null"@,
        Some(u) => "{\"MusixMatchUri\":"@ + json_string_of(u) + "}"@,
    } + "}"@
}

/// Equality of two songs, field by field.
pub fn same_song(a: &SongDescriptor, b: &SongDescriptor) -> (r: bool)
    ensures
        r == (a@ == b@),
{
    let same_uri = match (&a.uri, &b.uri) {
        (None, None) => true,
        (Some(SongUri::MusixMatchUri(x)), Some(SongUri::MusixMatchUri(y))) => *x == *y,
        _ => false,
    };
    a.name == b.name && a.artist == b.artist && same_uri
}

impl SongDescriptor {
    /// The stable text form of this song, used wherever a song must become a
    /// string key.
    pub fn to_string(&self) -> (r: String)
        ensures
            r@ == song_key_text(self@),
    {
        let mut out = String::new();
        out.append("{\"name\":");
        out.append(json_quote(self.name.as_str()).as_str());
        out.append(",\"artist\":");
        out.append(json_quote(self.artist.as_str()).as_str());
        out.append(",\"uri\":");
        match &self.uri {
            None => out.append("null"),
            Some(SongUri::MusixMatchUri(u)) => {
                out.append("{\"MusixMatchUri\":");
                out.append(json_quote(u.as_str()).as_str());
                out.append("}");
            },
        }
        out.append("}");
        out
    }
}

} // verus!
