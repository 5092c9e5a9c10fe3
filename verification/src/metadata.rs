//! Canonical tag field values and the per-format tag rewriting.
use vstd::prelude::*;

use crate::fields::{MetadataView, apply_nums_id3, apply_nums_mp4, apply_texts};
use crate::id3tag::{
    id3_nums, id3_read_tag, id3_set_album, id3_set_album_artist, id3_set_artist, id3_set_disc,
    id3_set_genre, id3_set_title, id3_set_total_discs, id3_set_total_tracks, id3_set_track,
    id3_texts, id3_write_tag,
};
use crate::medialibrary::Entry;
use crate::mp4tag::{
    mp4_nums, mp4_read_tag, mp4_set_album, mp4_set_album_artist, mp4_set_artist, mp4_set_disc,
    mp4_set_genre, mp4_set_title, mp4_set_track, mp4_texts, mp4_write_tag,
};
use crate::strutil::{extension_of, path_ext};

verus! {

/// Canonical tag field values, decoupled from any file format.
///
/// A value is a patch, not a replacement: a field set to `None` leaves the
/// corresponding tag field in the target file untouched, never cleared.
#[derive(Debug)]
pub struct Metadata {
    pub title: Option<String>,
    pub artist: Option<String>,
    pub album: Option<String>,
    pub album_artist: Option<String>,
    pub genre: Option<String>,
    pub disc: Option<u16>,
    pub total_discs: Option<u16>,
    pub track: Option<u16>,
    pub total_tracks: Option<u16>,
}

/// The view of an optional string field.
pub open spec fn str_opt_view(o: Option<String>) -> Option<Seq<char>> {
    match o {
        Some(s) => Some(s@),
        None => None,
    }
}

impl View for Metadata {
    type V = MetadataView;

    open spec fn view(&self) -> MetadataView {
        MetadataView {
            title: str_opt_view(self.title),
            artist: str_opt_view(self.artist),
            album: str_opt_view(self.album),
            album_artist: str_opt_view(self.album_artist),
            genre: str_opt_view(self.genre),
            disc: self.disc,
            total_discs: self.total_discs,
            track: self.track,
            total_tracks: self.total_tracks,
        }
    }
}

impl Metadata {
    /// Builds a metadata value from the given field values, with no further
    /// normalization. Fallback substitution for missing fields is the
    /// caller's business, applied before construction.
    pub fn new(
        title: Option<String>,
        artist: Option<String>,
        album: Option<String>,
        album_artist: Option<String>,
        genre: Option<String>,
        disc: Option<u16>,
        total_discs: Option<u16>,
        track: Option<u16>,
        total_tracks: Option<u16>,
    ) -> (m: Metadata)
        ensures
            m@.title == str_opt_view(title),
            m@.artist == str_opt_view(artist),
            m@.album == str_opt_view(album),
            m@.album_artist == str_opt_view(album_artist),
            m@.genre == str_opt_view(genre),
            m@.disc == disc,
            m@.total_discs == total_discs,
            m@.track == track,
            m@.total_tracks == total_tracks,
    {
        Metadata { title, artist, album, album_artist, genre, disc, total_discs, track, total_tracks }
    }
}

/// Builds the metadata patch for one library record: every field is set, the
/// optional associations falling back to the literal artist and album
/// placeholders — while a missing genre becomes the empty string, not a
/// placeholder.
pub fn metadata_from_entry(e: &Entry) -> (m: Metadata)
    ensures
        m@.title == Some(e.title@),
        m@.artist == Some(
            match e.item_artist {
                Some(a) => a@,
                None => "Unknown artist"@,
            },
        ),
        m@.album == Some(
            match e.album {
                Some(a) => a@,
                None => "Unknown album"@,
            },
        ),
        m@.album_artist == Some(
            match e.album_artist {
                Some(a) => a@,
                None => "Unknown artist"@,
            },
        ),
        m@.genre == Some(
            match e.genre {
                Some(g) => g@,
                None => ""@,
            },
        ),
        m@.disc == Some(e.disc_number),
        m@.total_discs == Some(e.disc_count),
        m@.track == Some(e.track_number),
        m@.total_tracks == Some(e.track_count),
{
    let artist = match &e.item_artist {
        Some(a) => a.clone(),
        None => "Unknown artist".to_owned(),
    };
    let album = match &e.album {
        Some(a) => a.clone(),
        None => "Unknown album".to_owned(),
    };
    let album_artist = match &e.album_artist {
        Some(a) => a.clone(),
        None => "Unknown artist".to_owned(),
    };
    let genre = match &e.genre {
        Some(g) => g.clone(),
        None => "".to_owned(),
    };
    Metadata {
        title: Some(e.title.clone()),
        artist: Some(artist),
        album: Some(album),
        album_artist: Some(album_artist),
        genre: Some(genre),
        disc: Some(e.disc_number),
        total_discs: Some(e.disc_count),
        track: Some(e.track_number),
        total_tracks: Some(e.track_count),
    }
}

/// The underlying cause of a failed tag read or write, kept as the codec
/// crate reported it.
#[derive(Debug)]
pub enum TagError {
    Id3(id3::Error),
    Mp4(mp4ameta::Error),
}

/// Everything that can go wrong when writing metadata to a file.
#[derive(Debug)]
pub enum MetaError {
    /// The path's extension names no supported format; carries the observed
    /// extension.
    UnsupportedFormat(String),
    /// The path has no extension at all.
    MissingExtension,
    /// The file's existing tag could not be read.
    TagRead(TagError),
    /// The rewritten tag could not be written back.
    TagWrite(TagError),
}

/// Applies every set field of `meta` to an ID3 tag in memory, leaving unset
/// fields — and everything else the tag holds — alone.
pub fn apply_metadata_to_id3(tag: &mut id3::Tag, meta: &Metadata)
    ensures
        id3_texts(*final(tag)) == apply_texts(id3_texts(*old(tag)), meta@),
        id3_nums(*final(tag)) == apply_nums_id3(id3_nums(*old(tag)), meta@),
{
    match &meta.title {
        Some(v) => id3_set_title(tag, v.as_str()),
        None => {},
    }
    match &meta.artist {
        Some(v) => id3_set_artist(tag, v.as_str()),
        None => {},
    }
    match &meta.album {
        Some(v) => id3_set_album(tag, v.as_str()),
        None => {},
    }
    match &meta.album_artist {
        Some(v) => id3_set_album_artist(tag, v.as_str()),
        None => {},
    }
    match &meta.genre {
        Some(v) => id3_set_genre(tag, v.as_str()),
        None => {},
    }
    match meta.disc {
        Some(d) => id3_set_disc(tag, d as u32),
        None => {},
    }
    match meta.total_discs {
        Some(t) => id3_set_total_discs(tag, t as u32),
        None => {},
    }
    match meta.track {
        Some(n) => id3_set_track(tag, n as u32),
        None => {},
    }
    match meta.total_tracks {
        Some(t) => id3_set_total_tracks(tag, t as u32),
        None => {},
    }
}

/// Applies every set field of `meta` to an MPEG-4 tag in memory. The disc
/// and track pairs are written only when both their halves are set; a lone
/// half is skipped outright.
pub fn apply_metadata_to_m4a(tag: &mut mp4ameta::Tag, meta: &Metadata)
    ensures
        mp4_texts(*final(tag)) == apply_texts(mp4_texts(*old(tag)), meta@),
        mp4_nums(*final(tag)) == apply_nums_mp4(mp4_nums(*old(tag)), meta@),
{
    match &meta.title {
        Some(v) => mp4_set_title(tag, v.as_str()),
        None => {},
    }
    match &meta.artist {
        Some(v) => mp4_set_artist(tag, v.as_str()),
        None => {},
    }
    match &meta.album {
        Some(v) => mp4_set_album(tag, v.as_str()),
        None => {},
    }
    match &meta.album_artist {
        Some(v) => mp4_set_album_artist(tag, v.as_str()),
        None => {},
    }
    match &meta.genre {
        Some(v) => mp4_set_genre(tag, v.as_str()),
        None => {},
    }
    match (meta.disc, meta.total_discs) {
        (Some(n), Some(t)) => mp4_set_disc(tag, n, t),
        _ => {},
    }
    match (meta.track, meta.total_tracks) {
        (Some(n), Some(t)) => mp4_set_track(tag, n, t),
        _ => {},
    }
}

/// Rewrites the ID3 tag of the file at `path` from `meta`: the existing tag
/// is read (a file without a readable tag fails), patched in memory as
/// [`apply_metadata_to_id3`] states, and written back as ID3 version 2.4.
fn write_metadata_on_mp3(path: &str, meta: &Metadata) -> (r: Result<(), MetaError>)
    ensures
        r matches Err(e) ==> (e matches MetaError::TagRead(c) && c is Id3) || (
        e matches MetaError::TagWrite(c) && c is Id3),
{
    let mut tag = match id3_read_tag(path) {
        Ok(t) => t,
        Err(e) => {
            return Err(MetaError::TagRead(TagError::Id3(e)));
        },
    };
    apply_metadata_to_id3(&mut tag, meta);
    match id3_write_tag(&tag, path) {
        Ok(u) => Ok(u),
        Err(e) => Err(MetaError::TagWrite(TagError::Id3(e))),
    }
}

/// Rewrites the MPEG-4 atom tag of the file at `path` from `meta`: the
/// existing tag is read (a file without a readable tag fails), patched in
/// memory as [`apply_metadata_to_m4a`] states, and written back in place.
fn write_metadata_on_m4a(path: &str, meta: &Metadata) -> (r: Result<(), MetaError>)
    ensures
        r matches Err(e) ==> (e matches MetaError::TagRead(c) && c is Mp4) || (
        e matches MetaError::TagWrite(c) && c is Mp4),
{
    let mut tag = match mp4_read_tag(path) {
        Ok(t) => t,
        Err(e) => {
            return Err(MetaError::TagRead(TagError::Mp4(e)));
        },
    };
    apply_metadata_to_m4a(&mut tag, meta);
    match mp4_write_tag(&tag, path) {
        Ok(u) => Ok(u),
        Err(e) => Err(MetaError::TagWrite(TagError::Mp4(e))),
    }
}

/// Dispatches a metadata write on the extension of `path`: `mp3` goes to the
/// ID3 codec, `mp4` and `m4a` to the MPEG-4 codec (case-sensitively); any
/// other extension fails with [`MetaError::UnsupportedFormat`] carrying it,
/// and a path without an extension with [`MetaError::MissingExtension`].
pub fn write_metadata(path: &str, meta: &Metadata) -> (r: Result<(), MetaError>)
    ensures
        (r matches Err(e) && e is MissingExtension) <==> path_ext(path@) is None,
        (r matches Err(e) && e matches MetaError::UnsupportedFormat(x) && Some(x@) == path_ext(
            path@,
        )) <==> (path_ext(path@) matches Some(s) && s != "mp3"@ && s != "mp4"@ && s != "m4a"@),
        r matches Err(e) && (e is TagRead || e is TagWrite) ==> (path_ext(path@) matches Some(s)
            && (s == "mp3"@ || s == "mp4"@ || s == "m4a"@)),
        r is Ok ==> (path_ext(path@) matches Some(s) && (s == "mp3"@ || s == "mp4"@ || s
            == "m4a"@)),
        path_ext(path@) == Some("mp3"@) ==> (r matches Err(e) ==> (e matches MetaError::TagRead(c)
            && c is Id3) || (e matches MetaError::TagWrite(c) && c is Id3)),
        (path_ext(path@) == Some("mp4"@) || path_ext(path@) == Some("m4a"@)) ==> (r matches Err(e)
            ==> (e matches MetaError::TagRead(c) && c is Mp4) || (e matches MetaError::TagWrite(c)
            && c is Mp4)),
{
    proof {
        reveal_strlit("mp3");
        reveal_strlit("mp4");
        reveal_strlit("m4a");
        assert("mp3"@ != "mp4"@) by {
            assert("mp3"@[2] == '3' && "mp4"@[2] == '4');
        }
        assert("mp3"@ != "m4a"@) by {
            assert("mp3"@[1] == 'p' && "m4a"@[1] == '4');
        }
        assert("mp4"@ != "m4a"@) by {
            assert("mp4"@[1] == 'p' && "m4a"@[1] == '4');
        }
    }
    let ext = match extension_of(path) {
        Some(e) => e,
        None => {
            return Err(MetaError::MissingExtension);
        },
    };
    if ext == "mp3".to_owned() {
        write_metadata_on_mp3(path, meta)
    } else if ext == "mp4".to_owned() {
        write_metadata_on_m4a(path, meta)
    } else if ext == "m4a".to_owned() {
        write_metadata_on_m4a(path, meta)
    } else {
        Err(MetaError::UnsupportedFormat(ext))
    }
}

} // verus!
