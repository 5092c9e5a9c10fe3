//! Typed records for the media library's extraction query.
use vstd::prelude::*;

verus! {

/// One playable item, decoded from a row of the library's join query.
///
/// `location` holds the item's relative file name and `path` its containing
/// directory; both are non-empty for every record that leaves the decoding
/// boundary. The artist, album and genre associations are optional.
#[derive(Debug)]
pub struct Entry {
    pub disc_number: u16,
    pub track_number: u16,
    pub title: String,
    pub disc_count: u16,
    pub track_count: u16,
    pub location: String,
    pub path: String,
    pub item_artist: Option<String>,
    pub album: Option<String>,
    pub album_artist: Option<String>,
    pub genre: Option<String>,
}

impl Entry {
    /// Every decoded record carries a non-empty file name and directory.
    pub open spec fn wf(self) -> bool {
        self.location@.len() > 0 && self.path@.len() > 0
    }
}

/// A row decodes into a record exactly when its mandatory columns are present
/// and its file name and directory are non-empty.
pub open spec fn row_decodes(
    title: Option<String>,
    location: Option<String>,
    path: Option<String>,
) -> bool {
    &&& title is Some
    &&& location is Some
    &&& path is Some
    &&& location->0@.len() > 0
    &&& path->0@.len() > 0
}

/// A missing number column stands for zero.
pub open spec fn num_or_zero(v: Option<u16>) -> u16 {
    match v {
        Some(n) => n,
        None => 0,
    }
}

/// Decodes one query row into an [`Entry`].
///
/// Mandatory columns (`title`, `location`, `path`) must be present, and the
/// file name and directory must be non-empty; a row that fails this is
/// dropped (`None`), never an error. Number columns default to zero when
/// absent; the optional associations pass through unchanged.
pub fn entry_from_row(
    disc_number: Option<u16>,
    track_number: Option<u16>,
    title: Option<String>,
    disc_count: Option<u16>,
    track_count: Option<u16>,
    location: Option<String>,
    path: Option<String>,
    item_artist: Option<String>,
    album: Option<String>,
    album_artist: Option<String>,
    genre: Option<String>,
) -> (r: Option<Entry>)
    ensures
        r is Some <==> row_decodes(title, location, path),
        r matches Some(e) ==> {
            &&& e.wf()
            &&& e.title == title->0
            &&& e.location == location->0
            &&& e.path == path->0
            &&& e.disc_number == num_or_zero(disc_number)
            &&& e.track_number == num_or_zero(track_number)
            &&& e.disc_count == num_or_zero(disc_count)
            &&& e.track_count == num_or_zero(track_count)
            &&& e.item_artist == item_artist
            &&& e.album == album
            &&& e.album_artist == album_artist
            &&& e.genre == genre
        },
{
    let title = match title {
        Some(t) => t,
        None => { return None; },
    };
    let location = match location {
        Some(l) => l,
        None => { return None; },
    };
    let path = match path {
        Some(p) => p,
        None => { return None; },
    };
    if location.as_str().is_empty() || path.as_str().is_empty() {
        return None;
    }
    Some(Entry {
        disc_number: num_value(disc_number),
        track_number: num_value(track_number),
        title,
        disc_count: num_value(disc_count),
        track_count: num_value(track_count),
        location,
        path,
        item_artist,
        album,
        album_artist,
        genre,
    })
}

/// Executable counterpart of [`num_or_zero`].
fn num_value(v: Option<u16>) -> (r: u16)
    ensures
        r == num_or_zero(v),
{
    match v {
        Some(n) => n,
        None => 0,
    }
}

} // verus!
