//! Trusted boundary to the `mp4ameta` crate, which reads and writes the
//! atom-based tag metadata of MPEG-4 audio files.
//!
//! An `mp4ameta::Tag` is a collection of metadata atoms. The two names below
//! project out of it the fields this library writes: [`mp4_texts`] holds the
//! five text atoms this library sets (title `©nam`, artist `©ART`, album
//! `©alb`, album artist `aART`, genre `©gen`/`gnre`), keyed by the field
//! keys of [`crate::fields`]; [`mp4_nums`] holds the halves of the paired
//! atoms `disk` and `trkn`. The format stores a missing half of a pair as
//! zero, so a key is absent exactly when the stored half is zero or the
//! atom is missing. Each wrapper states over those names what the crate's
//! source shows of one method.
use vstd::prelude::*;

use crate::fields::{
    KEY_ALBUM, KEY_ALBUM_ARTIST, KEY_ARTIST, KEY_DISC, KEY_GENRE, KEY_TITLE, KEY_TOTAL_DISCS,
    KEY_TOTAL_TRACKS, KEY_TRACK, mp4_write_pair,
};

verus! {

#[verifier::external_type_specification]
#[verifier::external_body]
pub struct ExMp4Tag(mp4ameta::Tag);

#[verifier::external_type_specification]
#[verifier::external_body]
pub struct ExMp4Error(mp4ameta::Error);

/// The text fields of an MPEG-4 tag that this library writes, keyed as in
/// [`crate::fields`].
pub uninterp spec fn mp4_texts(t: mp4ameta::Tag) -> Map<u64, Seq<char>>;

/// The numeric fields of an MPEG-4 tag (the halves of `disk` and `trkn`),
/// keyed as in [`crate::fields`].
pub uninterp spec fn mp4_nums(t: mp4ameta::Tag) -> Map<u64, u16>;

/// Relies on `mp4ameta::Tag::read_from_path`: whether a tag comes back, and
/// what it holds, depends on the file at `path`.
#[verifier::external_body]
pub(crate) fn mp4_read_tag(path: &str) -> Result<mp4ameta::Tag, mp4ameta::Error> {
    mp4ameta::Tag::read_from_path(path)
}

/// Relies on `mp4ameta::Userdata::write_to_path`: the outcome depends on the
/// file at `path`; the tag itself is only read.
#[verifier::external_body]
pub(crate) fn mp4_write_tag(t: &mp4ameta::Tag, path: &str) -> Result<(), mp4ameta::Error> {
    t.write_to_path(path)
}

/// Relies on `mp4ameta::Userdata::set_title`: replaces the `©nam` atom's
/// text and touches no other atom.
#[verifier::external_body]
pub(crate) fn mp4_set_title(t: &mut mp4ameta::Tag, v: &str)
    ensures
        mp4_texts(*final(t)) == mp4_texts(*old(t)).insert(KEY_TITLE, v@),
        mp4_nums(*final(t)) == mp4_nums(*old(t)),
{
    t.set_title(v);
}

/// Relies on `mp4ameta::Userdata::set_artist`: replaces the `©ART` atom's
/// text and touches no other atom.
#[verifier::external_body]
pub(crate) fn mp4_set_artist(t: &mut mp4ameta::Tag, v: &str)
    ensures
        mp4_texts(*final(t)) == mp4_texts(*old(t)).insert(KEY_ARTIST, v@),
        mp4_nums(*final(t)) == mp4_nums(*old(t)),
{
    t.set_artist(v);
}

/// Relies on `mp4ameta::Userdata::set_album`: replaces the `©alb` atom's
/// text and touches no other atom.
#[verifier::external_body]
pub(crate) fn mp4_set_album(t: &mut mp4ameta::Tag, v: &str)
    ensures
        mp4_texts(*final(t)) == mp4_texts(*old(t)).insert(KEY_ALBUM, v@),
        mp4_nums(*final(t)) == mp4_nums(*old(t)),
{
    t.set_album(v);
}

/// Relies on `mp4ameta::Userdata::set_album_artist`: replaces the `aART`
/// atom's text and touches no other atom.
#[verifier::external_body]
pub(crate) fn mp4_set_album_artist(t: &mut mp4ameta::Tag, v: &str)
    ensures
        mp4_texts(*final(t)) == mp4_texts(*old(t)).insert(KEY_ALBUM_ARTIST, v@),
        mp4_nums(*final(t)) == mp4_nums(*old(t)),
{
    t.set_album_artist(v);
}

/// Relies on `mp4ameta::Userdata::set_genre`: sets the custom genre atom
/// `©gen` to the text, removes any standard `gnre` atom — so the tag's one
/// genre field becomes the text — and touches nothing else.
#[verifier::external_body]
pub(crate) fn mp4_set_genre(t: &mut mp4ameta::Tag, v: &str)
    ensures
        mp4_texts(*final(t)) == mp4_texts(*old(t)).insert(KEY_GENRE, v@),
        mp4_nums(*final(t)) == mp4_nums(*old(t)),
{
    t.set_genre(v);
}

/// Relies on `mp4ameta::Userdata::set_disc`: stores both halves of the
/// `disk` pair at once, a zero half standing for an absent field, and
/// touches no other atom.
#[verifier::external_body]
pub(crate) fn mp4_set_disc(t: &mut mp4ameta::Tag, n: u16, total: u16)
    ensures
        mp4_nums(*final(t)) == mp4_write_pair(
            mp4_nums(*old(t)),
            KEY_DISC,
            KEY_TOTAL_DISCS,
            n,
            total,
        ),
        mp4_texts(*final(t)) == mp4_texts(*old(t)),
{
    t.set_disc(n, total);
}

/// Relies on `mp4ameta::Userdata::set_track`: stores both halves of the
/// `trkn` pair at once, a zero half standing for an absent field, and
/// touches no other atom.
#[verifier::external_body]
pub(crate) fn mp4_set_track(t: &mut mp4ameta::Tag, n: u16, total: u16)
    ensures
        mp4_nums(*final(t)) == mp4_write_pair(
            mp4_nums(*old(t)),
            KEY_TRACK,
            KEY_TOTAL_TRACKS,
            n,
            total,
        ),
        mp4_texts(*final(t)) == mp4_texts(*old(t)),
{
    t.set_track(n, total);
}

} // verus!
