use id3::TagLike;
use rebuild_from_itunes_control::metadata::{Metadata, apply_metadata_to_id3, apply_metadata_to_m4a};

fn patch(
    title: Option<&str>,
    artist: Option<&str>,
    disc: Option<u16>,
    total_discs: Option<u16>,
    track: Option<u16>,
    total_tracks: Option<u16>,
) -> Metadata {
    Metadata::new(
        title.map(str::to_owned),
        artist.map(str::to_owned),
        None,
        None,
        None,
        disc,
        total_discs,
        track,
        total_tracks,
    )
}

#[test]
fn id3_set_fields_are_written() {
    let mut tag = id3::Tag::new();
    let meta = Metadata::new(
        Some("T".to_owned()),
        Some("A".to_owned()),
        Some("Alb".to_owned()),
        Some("AA".to_owned()),
        Some("G".to_owned()),
        Some(2),
        Some(5),
        Some(3),
        Some(12),
    );
    apply_metadata_to_id3(&mut tag, &meta);
    assert_eq!(tag.title(), Some("T"));
    assert_eq!(tag.artist(), Some("A"));
    assert_eq!(tag.album(), Some("Alb"));
    assert_eq!(tag.album_artist(), Some("AA"));
    assert_eq!(tag.genre(), Some("G"));
    assert_eq!(tag.disc(), Some(2));
    assert_eq!(tag.total_discs(), Some(5));
    assert_eq!(tag.track(), Some(3));
    assert_eq!(tag.total_tracks(), Some(12));
}

#[test]
fn id3_unset_fields_keep_their_old_values() {
    let mut tag = id3::Tag::new();
    tag.set_title("old title");
    tag.set_artist("old artist");
    tag.set_album("old album");
    tag.set_disc(9);
    apply_metadata_to_id3(&mut tag, &patch(None, Some("new artist"), None, None, None, None));
    assert_eq!(tag.title(), Some("old title"));
    assert_eq!(tag.artist(), Some("new artist"));
    assert_eq!(tag.album(), Some("old album"));
    assert_eq!(tag.disc(), Some(9));
    assert_eq!(tag.total_discs(), None);
}

#[test]
fn id3_unset_fields_stay_absent() {
    let mut tag = id3::Tag::new();
    apply_metadata_to_id3(&mut tag, &patch(Some("T"), None, None, None, None, None));
    assert_eq!(tag.title(), Some("T"));
    assert_eq!(tag.artist(), None);
    assert_eq!(tag.disc(), None);
    assert_eq!(tag.track(), None);
}

#[test]
fn id3_total_without_number_materialises_number_one() {
    let mut tag = id3::Tag::new();
    apply_metadata_to_id3(&mut tag, &patch(None, None, None, Some(5), None, None));
    assert_eq!(tag.disc(), Some(1));
    assert_eq!(tag.total_discs(), Some(5));
}

#[test]
fn m4a_set_fields_are_written() {
    let mut tag = mp4ameta::Tag::default();
    let meta = Metadata::new(
        Some("T".to_owned()),
        Some("A".to_owned()),
        Some("Alb".to_owned()),
        Some("AA".to_owned()),
        Some("G".to_owned()),
        Some(2),
        Some(5),
        Some(3),
        Some(12),
    );
    apply_metadata_to_m4a(&mut tag, &meta);
    assert_eq!(tag.title(), Some("T"));
    assert_eq!(tag.artist(), Some("A"));
    assert_eq!(tag.album(), Some("Alb"));
    assert_eq!(tag.album_artist(), Some("AA"));
    assert_eq!(tag.genre(), Some("G"));
    assert_eq!(tag.disc_number(), Some(2));
    assert_eq!(tag.total_discs(), Some(5));
    assert_eq!(tag.track_number(), Some(3));
    assert_eq!(tag.total_tracks(), Some(12));
}

#[test]
fn m4a_unset_fields_keep_their_old_values() {
    let mut tag = mp4ameta::Tag::default();
    tag.set_title("old title");
    tag.set_artist("old artist");
    apply_metadata_to_m4a(&mut tag, &patch(None, Some("new artist"), None, None, None, None));
    assert_eq!(tag.title(), Some("old title"));
    assert_eq!(tag.artist(), Some("new artist"));
}

#[test]
fn m4a_lone_disc_number_is_skipped() {
    let mut tag = mp4ameta::Tag::default();
    tag.set_disc(3, 7);
    apply_metadata_to_m4a(&mut tag, &patch(None, None, Some(2), None, None, None));
    assert_eq!(tag.disc_number(), Some(3));
    assert_eq!(tag.total_discs(), Some(7));

    let mut empty = mp4ameta::Tag::default();
    apply_metadata_to_m4a(&mut empty, &patch(None, None, Some(2), None, None, None));
    assert_eq!(empty.disc_number(), None);
    assert_eq!(empty.total_discs(), None);
}

#[test]
fn m4a_lone_total_tracks_is_skipped() {
    let mut tag = mp4ameta::Tag::default();
    tag.set_track(4, 10);
    apply_metadata_to_m4a(&mut tag, &patch(None, None, None, None, None, Some(12)));
    assert_eq!(tag.track_number(), Some(4));
    assert_eq!(tag.total_tracks(), Some(10));
}

#[test]
fn m4a_complete_pair_is_written() {
    let mut tag = mp4ameta::Tag::default();
    apply_metadata_to_m4a(&mut tag, &patch(None, None, Some(2), Some(5), None, None));
    assert_eq!(tag.disc_number(), Some(2));
    assert_eq!(tag.total_discs(), Some(5));
}
