use euphonica::views::{INodeInfo, INodeType};
use euphonica::album::AlbumInfo;
use euphonica::library::{
    add_songs_to_playlist, insert_songs_next, queue_album, queue_artist, queue_playlist,
    queue_songs, queue_uri, rate_album, BackgroundTask, Library, PlaylistEdit, SaveMode,
};

fn fetch_path(t: Option<BackgroundTask>) -> Option<String> {
    match t {
        Some(BackgroundTask::FetchFolderContents(p)) => Some(p),
        _ => None,
    }
}

#[test]
fn folder_navigation_builds_paths() {
    let mut lib = Library::new();
    assert_eq!(lib.folder_path(), "");
    assert_eq!(fetch_path(lib.navigate_to("Music")).as_deref(), Some("Music"));
    assert_eq!(fetch_path(lib.navigate_to("Rock")).as_deref(), Some("Music/Rock"));
    assert_eq!(lib.folder_curr_idx(), 2);
    assert_eq!(lib.folder_history_len(), 2);
    assert_eq!(lib.folder_path(), "Music/Rock");
}

#[test]
fn backward_and_forward() {
    let mut lib = Library::new();
    lib.navigate_to("A");
    lib.navigate_to("B");
    // Contents were already asked for since the last navigation.
    assert!(lib.folder_backward().is_none());
    assert_eq!(lib.folder_path(), "A");
    assert!(lib.folder_forward().is_none());
    assert_eq!(lib.folder_path(), "A/B");
    assert!(lib.folder_forward().is_none());
    assert_eq!(lib.folder_curr_idx(), 2);
    lib.folder_backward();
    lib.folder_backward();
    assert_eq!(lib.folder_curr_idx(), 0);
    assert!(lib.folder_backward().is_none());
    assert_eq!(lib.folder_curr_idx(), 0);
}

#[test]
fn navigating_from_the_middle_drops_forward_history() {
    let mut lib = Library::new();
    lib.navigate_to("A");
    lib.navigate_to("B");
    lib.folder_backward();
    lib.navigate_to("C");
    assert_eq!(lib.folder_history_len(), 2);
    assert_eq!(lib.folder_path(), "A/C");
    lib.clear();
    assert_eq!(lib.folder_history_len(), 0);
    assert_eq!(lib.folder_path(), "");
}

#[test]
fn lists_are_fetched_once() {
    let mut lib = Library::new();
    assert!(matches!(lib.init_albums(), Some(BackgroundTask::FetchAlbums)));
    assert!(lib.init_albums().is_none());
    assert!(matches!(lib.init_artists(true), Some(BackgroundTask::FetchArtists(true))));
    assert!(lib.init_artists(false).is_none());
    assert!(lib.init_playlists());
    assert!(!lib.init_playlists());
}

#[test]
fn queue_commands() {
    let uris = vec!["a.flac".to_string(), "b.flac".to_string()];
    let cmd = queue_songs(&uris, true, true);
    assert!(cmd.clear_first);
    match cmd.task {
        BackgroundTask::QueueUris(u, rec, from, at) => {
            assert_eq!(u, uris);
            assert!(!rec);
            assert_eq!(from, Some(0));
            assert_eq!(at, None);
        }
        _ => panic!("wrong task"),
    }
    match queue_songs(&uris, false, true).task {
        BackgroundTask::QueueUris(_, _, from, _) => assert_eq!(from, None),
        _ => panic!("wrong task"),
    }
    match insert_songs_next(&uris, Some(4)) {
        BackgroundTask::QueueUris(_, _, None, at) => assert_eq!(at, Some(5)),
        _ => panic!("wrong task"),
    }
    match insert_songs_next(&uris, None) {
        BackgroundTask::QueueUris(_, _, None, at) => assert_eq!(at, Some(0)),
        _ => panic!("wrong task"),
    }
    match queue_uri("dir", false, false, true).task {
        BackgroundTask::QueueUris(u, rec, from, _) => {
            assert_eq!(u, vec!["dir".to_string()]);
            assert!(rec);
            assert_eq!(from, None);
        }
        _ => panic!("wrong task"),
    }
    match queue_playlist("mix", true, true).task {
        BackgroundTask::QueuePlaylist(n, from) => {
            assert_eq!(n, "mix");
            assert_eq!(from, Some(0));
        }
        _ => panic!("wrong task"),
    }
}

#[test]
fn album_and_artist_queries() {
    let mut info = AlbumInfo::new("x/y.mp3", "Album", Some("Artist"), Vec::new());
    info.mbid = Some("id".to_string());
    match queue_album(&info, true, true, Some(3)).task {
        BackgroundTask::QueueQuery(terms, from) => {
            let pairs: Vec<(&str, &str)> =
                terms.iter().map(|t| (t.tag.as_str(), t.value.as_str())).collect();
            assert_eq!(
                pairs,
                vec![("album", "Album"), ("albumartist", "Artist"), ("musicbrainz_albumid", "id")]
            );
            assert_eq!(from, Some(3));
        }
        _ => panic!("wrong task"),
    }
    match queue_artist("Name", true, false, true).task {
        BackgroundTask::QueueQuery(terms, from) => {
            assert_eq!(terms.len(), 1);
            assert_eq!(terms[0].tag, "albumartist");
            assert!(terms[0].contains);
            assert_eq!(from, None);
        }
        _ => panic!("wrong task"),
    }
}

#[test]
fn rating_stickers() {
    let set = rate_album("Album", Some(-7));
    assert_eq!(set.typ, "album");
    assert_eq!(set.uri, "Album");
    assert_eq!(set.name, "rating");
    assert_eq!(set.value.as_deref(), Some("-7"));
    assert_eq!(rate_album("Album", None).value, None);
}

#[test]
fn playlist_edits() {
    let uris = vec!["a".to_string(), "b".to_string()];
    let edits = add_songs_to_playlist("pl", &uris, SaveMode::Replace);
    assert_eq!(edits.len(), 3);
    assert!(matches!(&edits[0], PlaylistEdit::Clear(n) if n == "pl"));
    assert!(matches!(&edits[2], PlaylistEdit::Add(n, u) if n == "pl" && u == "b"));
    let appended = add_songs_to_playlist("pl", &uris, SaveMode::Append);
    assert_eq!(appended.len(), 2);
    assert!(matches!(&appended[0], PlaylistEdit::Add(_, u) if u == "a"));
}

#[test]
fn navigation_buttons_and_clicks() {
    let mut lib = Library::new();
    assert_eq!(lib.update_nav_btn_sensitivity(), (false, false));
    let song = INodeInfo::new("Music/a.mp3", None, INodeType::Song);
    assert!(lib.on_inode_clicked(&song).is_none());
    assert_eq!(lib.folder_curr_idx(), 0);
    let folder = INodeInfo::new("Music/Rock", None, INodeType::Folder);
    assert_eq!(fetch_path(lib.on_inode_clicked(&folder)).as_deref(), Some("Rock"));
    assert_eq!(lib.update_nav_btn_sensitivity(), (true, false));
    lib.folder_backward();
    assert_eq!(lib.update_nav_btn_sensitivity(), (false, true));
}
