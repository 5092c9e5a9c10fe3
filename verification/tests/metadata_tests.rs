use rebuild_from_itunes_control::medialibrary::Entry;
use rebuild_from_itunes_control::metadata::{
    MetaError, Metadata, TagError, metadata_from_entry, write_metadata,
};

fn full_meta() -> Metadata {
    Metadata::new(
        Some("T".to_owned()),
        Some("A".to_owned()),
        Some("Alb".to_owned()),
        Some("AA".to_owned()),
        Some("G".to_owned()),
        Some(1),
        Some(2),
        Some(3),
        Some(4),
    )
}

#[test]
fn new_keeps_fields_as_given() {
    let m = full_meta();
    assert_eq!(m.title, Some("T".to_owned()));
    assert_eq!(m.artist, Some("A".to_owned()));
    assert_eq!(m.album, Some("Alb".to_owned()));
    assert_eq!(m.album_artist, Some("AA".to_owned()));
    assert_eq!(m.genre, Some("G".to_owned()));
    assert_eq!(m.disc, Some(1));
    assert_eq!(m.total_discs, Some(2));
    assert_eq!(m.track, Some(3));
    assert_eq!(m.total_tracks, Some(4));
}

#[test]
fn new_keeps_unset_fields_unset() {
    let m = Metadata::new(None, None, None, None, None, None, None, None, None);
    assert_eq!(m.title, None);
    assert_eq!(m.artist, None);
    assert_eq!(m.album, None);
    assert_eq!(m.album_artist, None);
    assert_eq!(m.genre, None);
    assert_eq!(m.disc, None);
    assert_eq!(m.total_discs, None);
    assert_eq!(m.track, None);
    assert_eq!(m.total_tracks, None);
}

#[test]
fn entry_metadata_substitutes_fallbacks() {
    let e = Entry {
        disc_number: 1,
        track_number: 2,
        title: "Song".to_owned(),
        disc_count: 3,
        track_count: 4,
        location: "a.mp3".to_owned(),
        path: "Music".to_owned(),
        item_artist: None,
        album: None,
        album_artist: None,
        genre: None,
    };
    let m = metadata_from_entry(&e);
    assert_eq!(m.title, Some("Song".to_owned()));
    assert_eq!(m.artist, Some("Unknown artist".to_owned()));
    assert_eq!(m.album, Some("Unknown album".to_owned()));
    assert_eq!(m.album_artist, Some("Unknown artist".to_owned()));
    assert_eq!(m.genre, Some("".to_owned()));
    assert_eq!(m.disc, Some(1));
    assert_eq!(m.total_discs, Some(3));
    assert_eq!(m.track, Some(2));
    assert_eq!(m.total_tracks, Some(4));
}

#[test]
fn entry_metadata_keeps_recorded_values() {
    let e = Entry {
        disc_number: 1,
        track_number: 2,
        title: "Song".to_owned(),
        disc_count: 3,
        track_count: 4,
        location: "a.mp3".to_owned(),
        path: "Music".to_owned(),
        item_artist: Some("IA".to_owned()),
        album: Some("Alb".to_owned()),
        album_artist: Some("AA".to_owned()),
        genre: Some("G".to_owned()),
    };
    let m = metadata_from_entry(&e);
    assert_eq!(m.artist, Some("IA".to_owned()));
    assert_eq!(m.album, Some("Alb".to_owned()));
    assert_eq!(m.album_artist, Some("AA".to_owned()));
    assert_eq!(m.genre, Some("G".to_owned()));
}

#[test]
fn unsupported_extension_is_reported_with_its_name() {
    let r = write_metadata("/out/x.flac", &full_meta());
    match r {
        Err(MetaError::UnsupportedFormat(ext)) => assert_eq!(ext, "flac"),
        other => panic!("expected UnsupportedFormat, got {:?}", other),
    }
}

#[test]
fn extension_comparison_is_case_sensitive() {
    let r = write_metadata("/out/x.MP3", &full_meta());
    match r {
        Err(MetaError::UnsupportedFormat(ext)) => assert_eq!(ext, "MP3"),
        other => panic!("expected UnsupportedFormat, got {:?}", other),
    }
}

#[test]
fn unreadable_file_reports_a_tag_read_error() {
    let r = write_metadata("no_such_directory/x.mp3", &full_meta());
    assert!(matches!(r, Err(MetaError::TagRead(TagError::Id3(_)))));
    let r = write_metadata("no_such_directory/x.m4a", &full_meta());
    assert!(matches!(r, Err(MetaError::TagRead(TagError::Mp4(_)))));
}

#[test]
fn missing_extension_is_its_own_error() {
    let r = write_metadata("/out/x", &full_meta());
    assert!(matches!(r, Err(MetaError::MissingExtension)));
    let r = write_metadata("/out/.hidden", &full_meta());
    assert!(matches!(r, Err(MetaError::MissingExtension)));
}
