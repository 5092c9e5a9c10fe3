//! The abstract field state of an embedded tag, and what applying a
//! metadata patch does to it.
//!
//! A tag's relevant contents are modelled as two finite maps: one from field
//! keys to text values (title, artist, album, album artist, genre) and one
//! from field keys to numbers (disc/track numbers and their totals). A key
//! absent from the map is a field absent from the tag. The spec functions
//! here say how a metadata patch rewrites those maps; the codec modules tie
//! them to the concrete tag types.
use vstd::prelude::*;

verus! {

pub const KEY_TITLE: u64 = 1;

pub const KEY_ARTIST: u64 = 2;

pub const KEY_ALBUM: u64 = 3;

pub const KEY_ALBUM_ARTIST: u64 = 4;

pub const KEY_GENRE: u64 = 5;

pub const KEY_DISC: u64 = 6;

pub const KEY_TOTAL_DISCS: u64 = 7;

pub const KEY_TRACK: u64 = 8;

pub const KEY_TOTAL_TRACKS: u64 = 9;

/// The canonical field values of one metadata patch, as mathematical values.
pub ghost struct MetadataView {
    pub title: Option<Seq<char>>,
    pub artist: Option<Seq<char>>,
    pub album: Option<Seq<char>>,
    pub album_artist: Option<Seq<char>>,
    pub genre: Option<Seq<char>>,
    pub disc: Option<u16>,
    pub total_discs: Option<u16>,
    pub track: Option<u16>,
    pub total_tracks: Option<u16>,
}

/// How a patch rewrites a tag's text fields: every field the patch sets is
/// overwritten with the patch's value; a field the patch leaves unset keeps
/// whatever the tag held, present or absent.
pub open spec fn apply_texts(m: Map<u64, Seq<char>>, v: MetadataView) -> Map<u64, Seq<char>> {
    let m1 = match v.title {
        Some(s) => m.insert(KEY_TITLE, s),
        None => m,
    };
    let m2 = match v.artist {
        Some(s) => m1.insert(KEY_ARTIST, s),
        None => m1,
    };
    let m3 = match v.album {
        Some(s) => m2.insert(KEY_ALBUM, s),
        None => m2,
    };
    let m4 = match v.album_artist {
        Some(s) => m3.insert(KEY_ALBUM_ARTIST, s),
        None => m3,
    };
    match v.genre {
        Some(s) => m4.insert(KEY_GENRE, s),
        None => m4,
    }
}

/// Writing a total to an ID3 numeric pair whose numerator is absent makes
/// the numerator one: the frame's text becomes `1/total`. This mirrors the
/// ID3 codec exactly and is visible in [`apply_nums_id3`].
pub open spec fn id3_write_total(m: Map<u64, u32>, num_key: u64, total_key: u64, t: u32) -> Map<
    u64,
    u32,
> {
    if m.contains_key(num_key) {
        m.insert(total_key, t)
    } else {
        m.insert(num_key, 1).insert(total_key, t)
    }
}

/// How a patch rewrites an ID3 tag's numeric fields, in the order the codec
/// applies them: disc, total discs, track, total tracks. Set fields are
/// written (widened to the codec's 32-bit representation); unset fields are
/// left alone, except that writing a total without a present numerator also
/// materialises the numerator as one ([`id3_write_total`]).
pub open spec fn apply_nums_id3(m: Map<u64, u32>, v: MetadataView) -> Map<u64, u32> {
    let m1 = match v.disc {
        Some(d) => m.insert(KEY_DISC, d as u32),
        None => m,
    };
    let m2 = match v.total_discs {
        Some(t) => id3_write_total(m1, KEY_DISC, KEY_TOTAL_DISCS, t as u32),
        None => m1,
    };
    let m3 = match v.track {
        Some(n) => m2.insert(KEY_TRACK, n as u32),
        None => m2,
    };
    match v.total_tracks {
        Some(t) => id3_write_total(m3, KEY_TRACK, KEY_TOTAL_TRACKS, t as u32),
        None => m3,
    }
}

/// Writing an MPEG-4 numeric pair stores both halves at once; a half whose
/// value is zero is stored as absent, the format's convention for a missing
/// half.
pub open spec fn mp4_write_pair(m: Map<u64, u16>, num_key: u64, total_key: u64, n: u16, t: u16) -> Map<
    u64,
    u16,
> {
    let m1 = if n == 0 {
        m.remove(num_key)
    } else {
        m.insert(num_key, n)
    };
    if t == 0 {
        m1.remove(total_key)
    } else {
        m1.insert(total_key, t)
    }
}

/// How a patch rewrites an MPEG-4 tag's numeric fields: a pair is written
/// only when both its number and its total are set; a lone half is skipped
/// outright, leaving both halves of the stored pair untouched.
pub open spec fn apply_nums_mp4(m: Map<u64, u16>, v: MetadataView) -> Map<u64, u16> {
    let m1 = if v.disc is Some && v.total_discs is Some {
        mp4_write_pair(m, KEY_DISC, KEY_TOTAL_DISCS, v.disc->0, v.total_discs->0)
    } else {
        m
    };
    if v.track is Some && v.total_tracks is Some {
        mp4_write_pair(m1, KEY_TRACK, KEY_TOTAL_TRACKS, v.track->0, v.total_tracks->0)
    } else {
        m1
    }
}

/// The two maps agree at `k`: present in one exactly when present in the
/// other, and with the same value when present.
pub open spec fn same_at<V>(m1: Map<u64, V>, m2: Map<u64, V>, k: u64) -> bool {
    &&& m1.contains_key(k) == m2.contains_key(k)
    &&& m1.contains_key(k) ==> m1[k] == m2[k]
}

/// A text field the patch leaves unset reads back from the patched tag
/// exactly as it stood before, for either codec's text fields.
pub proof fn lemma_unset_text_unchanged(m: Map<u64, Seq<char>>, v: MetadataView)
    ensures
        v.title is None ==> same_at(apply_texts(m, v), m, KEY_TITLE),
        v.artist is None ==> same_at(apply_texts(m, v), m, KEY_ARTIST),
        v.album is None ==> same_at(apply_texts(m, v), m, KEY_ALBUM),
        v.album_artist is None ==> same_at(apply_texts(m, v), m, KEY_ALBUM_ARTIST),
        v.genre is None ==> same_at(apply_texts(m, v), m, KEY_GENRE),
{
}

/// A numeric field the patch leaves unset reads back from a patched ID3 tag
/// as it stood before — with one documented exception: a total written while
/// its numerator is absent from the tag materialises that numerator as one,
/// so the claim for an unset numerator asks that the tag held one already
/// whenever the matching total is being written.
pub proof fn lemma_unset_num_id3_unchanged(m: Map<u64, u32>, v: MetadataView)
    ensures
        (v.disc is None && (v.total_discs is Some ==> m.contains_key(KEY_DISC))) ==> same_at(
            apply_nums_id3(m, v),
            m,
            KEY_DISC,
        ),
        v.total_discs is None ==> same_at(apply_nums_id3(m, v), m, KEY_TOTAL_DISCS),
        (v.track is None && (v.total_tracks is Some ==> m.contains_key(KEY_TRACK))) ==> same_at(
            apply_nums_id3(m, v),
            m,
            KEY_TRACK,
        ),
        v.total_tracks is None ==> same_at(apply_nums_id3(m, v), m, KEY_TOTAL_TRACKS),
{
}

/// Writing the same patch twice leaves a tag's text fields exactly as
/// writing it once does.
pub proof fn lemma_apply_texts_idempotent(m: Map<u64, Seq<char>>, v: MetadataView)
    ensures
        apply_texts(apply_texts(m, v), v) == apply_texts(m, v),
{
    assert(apply_texts(apply_texts(m, v), v) =~= apply_texts(m, v));
}

/// Writing the same patch twice leaves an ID3 tag's numeric fields exactly
/// as writing it once does: even the materialised numerator of
/// [`id3_write_total`] is present after the first write, so the second
/// changes nothing.
pub proof fn lemma_apply_nums_id3_idempotent(m: Map<u64, u32>, v: MetadataView)
    ensures
        apply_nums_id3(apply_nums_id3(m, v), v) == apply_nums_id3(m, v),
{
    assert(apply_nums_id3(apply_nums_id3(m, v), v) =~= apply_nums_id3(m, v));
}

/// Writing the same patch twice leaves an MPEG-4 tag's numeric fields
/// exactly as writing it once does.
pub proof fn lemma_apply_nums_mp4_idempotent(m: Map<u64, u16>, v: MetadataView)
    ensures
        apply_nums_mp4(apply_nums_mp4(m, v), v) == apply_nums_mp4(m, v),
{
    assert(apply_nums_mp4(apply_nums_mp4(m, v), v) =~= apply_nums_mp4(m, v));
}

/// An MPEG-4 pair is written only whole: when either half of a pair is
/// unset, the patch leaves both stored halves exactly as they were — never a
/// half-written pair.
pub proof fn lemma_mp4_pair_skipped(m: Map<u64, u16>, v: MetadataView)
    ensures
        (v.disc is None || v.total_discs is None) ==> {
            &&& same_at(apply_nums_mp4(m, v), m, KEY_DISC)
            &&& same_at(apply_nums_mp4(m, v), m, KEY_TOTAL_DISCS)
        },
        (v.track is None || v.total_tracks is None) ==> {
            &&& same_at(apply_nums_mp4(m, v), m, KEY_TRACK)
            &&& same_at(apply_nums_mp4(m, v), m, KEY_TOTAL_TRACKS)
        },
{
}

} // verus!
