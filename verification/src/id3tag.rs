//! Trusted boundary to the `id3` crate, which reads and writes ID3v2 tag
//! blocks.
//!
//! An `id3::Tag` is a collection of frames. The two names below project out
//! of it the fields this library writes: [`id3_texts`] holds the stored text
//! of the five text frames this library sets (title `TIT2`, artist `TPE1`,
//! album `TALB`, album artist `TPE2`, genre `TCON`), keyed by the field keys
//! of [`crate::fields`]; [`id3_nums`] holds the four numeric halves of the
//! paired frames `TPOS` (disc number / total discs) and `TRCK` (track number
//! / total tracks), a key being absent when the half is absent or
//! unparsable. Each wrapper states over those names what the crate's source
//! shows of one method.
use vstd::prelude::*;

use crate::fields::{
    KEY_ALBUM, KEY_ALBUM_ARTIST, KEY_ARTIST, KEY_DISC, KEY_GENRE, KEY_TITLE, KEY_TOTAL_DISCS,
    KEY_TOTAL_TRACKS, KEY_TRACK, id3_write_total,
};
use id3::TagLike;

verus! {

#[verifier::external_type_specification]
#[verifier::external_body]
pub struct ExId3Tag(id3::Tag);

#[verifier::external_type_specification]
#[verifier::external_body]
pub struct ExId3Error(id3::Error);

/// The text fields of an ID3 tag that this library writes, keyed as in
/// [`crate::fields`].
pub uninterp spec fn id3_texts(t: id3::Tag) -> Map<u64, Seq<char>>;

/// The numeric fields of an ID3 tag (the halves of `TPOS` and `TRCK`),
/// keyed as in [`crate::fields`].
pub uninterp spec fn id3_nums(t: id3::Tag) -> Map<u64, u32>;

/// Relies on `id3::Tag::read_from_path`: whether a tag comes back, and what
/// it holds, depends on the file at `path`.
#[verifier::external_body]
pub(crate) fn id3_read_tag(path: &str) -> Result<id3::Tag, id3::Error> {
    id3::Tag::read_from_path(path)
}

/// Relies on `id3::Tag::write_to_path` with version ID3v2.4: the outcome
/// depends on the file at `path`; the tag itself is only read.
#[verifier::external_body]
pub(crate) fn id3_write_tag(t: &id3::Tag, path: &str) -> Result<(), id3::Error> {
    t.write_to_path(path, id3::Version::Id3v24)
}

/// Relies on `id3::TagLike::set_title`: replaces the `TIT2` frame's text and
/// touches no other frame.
#[verifier::external_body]
pub(crate) fn id3_set_title(t: &mut id3::Tag, v: &str)
    ensures
        id3_texts(*final(t)) == id3_texts(*old(t)).insert(KEY_TITLE, v@),
        id3_nums(*final(t)) == id3_nums(*old(t)),
{
    t.set_title(v);
}

/// Relies on `id3::TagLike::set_artist`: replaces the `TPE1` frame's text
/// and touches no other frame.
#[verifier::external_body]
pub(crate) fn id3_set_artist(t: &mut id3::Tag, v: &str)
    ensures
        id3_texts(*final(t)) == id3_texts(*old(t)).insert(KEY_ARTIST, v@),
        id3_nums(*final(t)) == id3_nums(*old(t)),
{
    t.set_artist(v);
}

/// Relies on `id3::TagLike::set_album`: replaces the `TALB` frame's text and
/// touches no other frame.
#[verifier::external_body]
pub(crate) fn id3_set_album(t: &mut id3::Tag, v: &str)
    ensures
        id3_texts(*final(t)) == id3_texts(*old(t)).insert(KEY_ALBUM, v@),
        id3_nums(*final(t)) == id3_nums(*old(t)),
{
    t.set_album(v);
}

/// Relies on `id3::TagLike::set_album_artist`: replaces the `TPE2` frame's
/// text and touches no other frame.
#[verifier::external_body]
pub(crate) fn id3_set_album_artist(t: &mut id3::Tag, v: &str)
    ensures
        id3_texts(*final(t)) == id3_texts(*old(t)).insert(KEY_ALBUM_ARTIST, v@),
        id3_nums(*final(t)) == id3_nums(*old(t)),
{
    t.set_album_artist(v);
}

/// Relies on `id3::TagLike::set_genre`: replaces the `TCON` frame's text and
/// touches no other frame.
#[verifier::external_body]
pub(crate) fn id3_set_genre(t: &mut id3::Tag, v: &str)
    ensures
        id3_texts(*final(t)) == id3_texts(*old(t)).insert(KEY_GENRE, v@),
        id3_nums(*final(t)) == id3_nums(*old(t)),
{
    t.set_genre(v);
}

/// Relies on `id3::TagLike::set_disc`: rewrites `TPOS` with the new disc
/// number, keeping the stored total (present or absent) and every text
/// frame as they were.
#[verifier::external_body]
pub(crate) fn id3_set_disc(t: &mut id3::Tag, v: u32)
    ensures
        id3_nums(*final(t)) == id3_nums(*old(t)).insert(KEY_DISC, v),
        id3_texts(*final(t)) == id3_texts(*old(t)),
{
    t.set_disc(v);
}

/// Relies on `id3::TagLike::set_total_discs`: rewrites `TPOS` with the new
/// total; when the tag holds no disc number, the frame text becomes
/// `1/total`, so a disc number of one appears beside it.
#[verifier::external_body]
pub(crate) fn id3_set_total_discs(t: &mut id3::Tag, v: u32)
    ensures
        id3_nums(*final(t)) == id3_write_total(id3_nums(*old(t)), KEY_DISC, KEY_TOTAL_DISCS, v),
        id3_texts(*final(t)) == id3_texts(*old(t)),
{
    t.set_total_discs(v);
}

/// Relies on `id3::TagLike::set_track`: rewrites `TRCK` with the new track
/// number, keeping the stored total (present or absent) and every text
/// frame as they were.
#[verifier::external_body]
pub(crate) fn id3_set_track(t: &mut id3::Tag, v: u32)
    ensures
        id3_nums(*final(t)) == id3_nums(*old(t)).insert(KEY_TRACK, v),
        id3_texts(*final(t)) == id3_texts(*old(t)),
{
    t.set_track(v);
}

/// Relies on `id3::TagLike::set_total_tracks`: rewrites `TRCK` with the new
/// total; when the tag holds no track number, the frame text becomes
/// `1/total`, so a track number of one appears beside it.
#[verifier::external_body]
pub(crate) fn id3_set_total_tracks(t: &mut id3::Tag, v: u32)
    ensures
        id3_nums(*final(t)) == id3_write_total(id3_nums(*old(t)), KEY_TRACK, KEY_TOTAL_TRACKS, v),
        id3_texts(*final(t)) == id3_texts(*old(t)),
{
    t.set_total_tracks(v);
}

} // verus!
