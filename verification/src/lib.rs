pub mod fields;
pub mod id3tag;
pub mod medialibrary;
pub mod metadata;
pub mod mp4tag;
pub mod paths;
pub mod strutil;
