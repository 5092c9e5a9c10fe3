//! Source and destination path derivation for a library record.
use vstd::prelude::*;

use crate::medialibrary::Entry;
use crate::strutil::{ext_or_empty, extension_of, path_ext};

verus! {

/// The artist directory segment: the album artist when recorded, else the
/// item artist, else the literal fallback.
pub open spec fn effective_artist(e: Entry) -> Seq<char> {
    match e.album_artist {
        Some(a) => a@,
        None => match e.item_artist {
            Some(a) => a@,
            None => "Unknown artist"@,
        },
    }
}

/// The album directory segment: the recorded album, else the literal fallback.
pub open spec fn effective_album(e: Entry) -> Seq<char> {
    match e.album {
        Some(a) => a@,
        None => "Unknown album"@,
    }
}

/// Where the record's audio file lies below the input root.
pub open spec fn src_path(e: Entry, root: Seq<char>) -> Seq<char> {
    root + "/"@ + e.path@ + "/"@ + e.location@
}

/// Where the record's audio file is placed below the output root:
/// `root/artist/album/title.ext`, with the missing-data fallbacks of
/// [`effective_artist`] and [`effective_album`], and the extension carried
/// over from the source file name (empty when it has none).
pub open spec fn dst_path(e: Entry, root: Seq<char>) -> Seq<char> {
    root + "/"@ + effective_artist(e) + "/"@ + effective_album(e) + "/"@ + e.title@ + "."@
        + ext_or_empty(e.location@)
}

/// A record with an album artist takes it for the artist segment, whatever
/// the item artist holds.
pub proof fn lemma_album_artist_wins(e: Entry)
    requires
        e.album_artist is Some,
    ensures
        effective_artist(e) == e.album_artist->0@,
{
}

/// A record with no album artist but an item artist takes the item artist
/// for the artist segment.
pub proof fn lemma_item_artist_fallback(e: Entry)
    requires
        e.album_artist is None,
        e.item_artist is Some,
    ensures
        effective_artist(e) == e.item_artist->0@,
{
}

/// A record with neither artist field takes the literal fallback for the
/// artist segment.
pub proof fn lemma_unknown_artist_fallback(e: Entry)
    requires
        e.album_artist is None,
        e.item_artist is None,
    ensures
        effective_artist(e) == "Unknown artist"@,
{
}

/// A record with no album takes the literal fallback for the album segment.
pub proof fn lemma_unknown_album_fallback(e: Entry)
    requires
        e.album is None,
    ensures
        effective_album(e) == "Unknown album"@,
{
}

/// Joins the input root, the record's directory and its file name.
pub fn build_src(entry: &Entry, root: &str) -> (r: String)
    ensures
        r@ == src_path(*entry, root@),
{
    let mut out = root.to_owned();
    out.append("/");
    out.append(entry.path.as_str());
    out.append("/");
    out.append(entry.location.as_str());
    out
}

/// Derives the destination path `root/artist/album/title.ext` for a record,
/// substituting the documented fallbacks for missing artist and album and an
/// empty extension for a source file name without one.
pub fn build_dst(entry: &Entry, root: &str) -> (r: String)
    ensures
        r@ == dst_path(*entry, root@),
{
    let mut out = root.to_owned();
    out.append("/");
    match &entry.album_artist {
        Some(a) => out.append(a.as_str()),
        None => match &entry.item_artist {
            Some(a) => out.append(a.as_str()),
            None => out.append("Unknown artist"),
        },
    }
    out.append("/");
    match &entry.album {
        Some(a) => out.append(a.as_str()),
        None => out.append("Unknown album"),
    }
    out.append("/");
    out.append(entry.title.as_str());
    out.append(".");
    match extension_of(entry.location.as_str()) {
        Some(e) => out.append(e.as_str()),
        None => {
            proof {
                assert(ext_or_empty(entry.location@) =~= Seq::<char>::empty());
                assert(out@ + Seq::<char>::empty() =~= out@);
            }
        },
    }
    out
}

} // verus!
