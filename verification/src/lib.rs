//! Core logic of an MPD music-player frontend, with its contracts proved:
//! the playlist editor's undo history, the client's connection and queue
//! bookkeeping, the metadata worker's jobs, the sort order of the lists, the library's folder browser and queue commands, metadata
//! merging, artist-tag parsing, lyrics rows, cache naming, and the display
//! settings of the views.

pub mod album;
pub mod artist;
pub mod background;
pub mod cache;
pub mod client;
pub mod display;
pub mod lastfm;
pub mod library;
pub mod lyrics;
pub mod meta;
pub mod meta_worker;
pub mod playlist_edit;
pub mod providers;
pub mod song;
pub mod sort;
pub mod text;
pub mod text_display;
pub mod views;
