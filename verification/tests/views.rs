use euphonica::views::{album_matches, g_search_substr};
use euphonica::library::PlaylistEdit;
use euphonica::views::add_button_clicked;
use euphonica::album::AlbumInfo;
use euphonica::library::BackgroundTask;
use euphonica::views::{album_queue_clicked, album_row_activated};
use euphonica::client::ServerErrorKind;
use euphonica::views::{rename_button_sensitive, rename_failure_message};
use euphonica::views::{song_row_thumbnail_cleared, song_row_thumbnail_update};
use euphonica::views::{folder_sort_index, folder_sort_setting, toggled_sort_direction};
use euphonica::views::{
    add_button_label, album_search_passes, album_sort_key, cached_cover_source,
    cover_clear_needed, cover_refresh_needed, cover_update_on_download, infobox_icon,
    mode_name, mode_of_name, next_mode, playlist_target_name, prev_mode, rating_from_widget,
    rating_readout, search_filter_change, selection_labels, songs_to_add, sort_ascending,
    sort_direction_icon, sort_mode_label, will_create, AlbumSortKey, CoverSource, FilterChange,
    INodeInfo, INodeType, LibraryMode,
};

#[test]
fn covers_on_download() {
    assert_eq!(cover_update_on_download(true, "f/", "f/", "f/t", CoverSource::Unknown), None);
    assert_eq!(
        cover_update_on_download(false, "f/", "f/", "f/t", CoverSource::Embedded),
        Some(CoverSource::Folder)
    );
    assert_eq!(
        cover_update_on_download(false, "f/t", "f/", "f/t", CoverSource::Unknown),
        Some(CoverSource::Embedded)
    );
    assert_eq!(cover_update_on_download(false, "f/t", "f/", "f/t", CoverSource::Folder), None);
    assert!(cover_refresh_needed("f/", "f/", "f/t", CoverSource::Folder));
    assert!(!cover_refresh_needed("f/t", "f/", "f/t", CoverSource::Folder));
    assert!(cover_clear_needed("f/t", "f/", "f/t", CoverSource::Embedded));
    assert!(!cover_clear_needed("f/", "f/", "f/t", CoverSource::Embedded));
    assert!(!cover_clear_needed("f/", "f/", "f/t", CoverSource::Placeholder));
    assert_eq!(cached_cover_source(true), CoverSource::Embedded);
}

#[test]
fn button_labels_for_selection() {
    let all = selection_labels(0, 12);
    assert!(all.selecting_all);
    assert_eq!(all.play, "Play all");
    assert_eq!(all.queue_next, "Queue all next");
    assert!(selection_labels(12, 12).selecting_all);
    let some = selection_labels(3, 12);
    assert!(!some.selecting_all);
    assert_eq!(some.play, "Play 3");
    assert_eq!(some.queue, "Queue 3");
    assert_eq!(some.queue_next, "Queue 3 next");
}

#[test]
fn rating_readouts() {
    assert_eq!(rating_readout(-1), "Unrated");
    assert_eq!(rating_readout(0), "0.0");
    assert_eq!(rating_readout(7), "3.5");
    assert_eq!(rating_readout(10), "5.0");
    assert_eq!(rating_from_widget(0), None);
    assert_eq!(rating_from_widget(6), Some(6));
    assert_eq!(infobox_icon(true), "up-symbolic");
}

#[test]
fn album_grid_sort_and_search() {
    assert_eq!(sort_direction_icon("asc"), "view-sort-ascending-symbolic");
    assert_eq!(sort_direction_icon("desc"), "view-sort-descending-symbolic");
    assert_eq!(sort_mode_label("release-date"), Some("Release date"));
    assert_eq!(sort_mode_label("other"), None);
    assert_eq!(album_sort_key(4), Some(AlbumSortKey::AlbumArtist));
    assert_eq!(album_sort_key(2), None);
    assert!(sort_ascending(1));
    assert!(!sort_ascending(0));
    assert!(album_search_passes(true, 1, false, false));
    assert!(album_search_passes(false, 0, false, true));
    assert!(!album_search_passes(false, 1, false, true));
    assert!(album_search_passes(false, 2, false, true));
    assert!(album_search_passes(false, 7, false, false));
    assert_eq!(search_filter_change(4, 3), FilterChange::MoreStrict);
    assert_eq!(search_filter_change(2, 3), FilterChange::LessStrict);
    assert_eq!(search_filter_change(3, 3), FilterChange::Different);
}

#[test]
fn add_to_playlist_popover() {
    assert!(will_create(2, false, "a", "x"));
    assert!(will_create(1, false, "mix", "mi"));
    assert!(!will_create(1, false, "mix", "mix"));
    assert!(!will_create(3, true, "a", "x"));
    assert!(will_create(0, false, "", "new"));
    assert_eq!(playlist_target_name(true, "", None, None), None);
    assert_eq!(playlist_target_name(true, "new", Some("sel"), None).as_deref(), Some("new"));
    assert_eq!(playlist_target_name(false, "x", Some("sel"), Some("first")).as_deref(), Some("sel"));
    assert_eq!(playlist_target_name(false, "x", None, Some("first")).as_deref(), Some("first"));
    assert_eq!(add_button_label(true, "Mix"), "Create \"Mix\"");
    assert_eq!(add_button_label(false, "Mix"), "Append to \"Mix\"");
    assert_eq!(songs_to_add(&vec![4, 1], 9), vec![4, 1]);
    assert_eq!(songs_to_add(&Vec::new(), 3), vec![0, 1, 2]);
}

#[test]
fn library_modes_cycle() {
    assert_eq!(next_mode(LibraryMode::Albums), LibraryMode::Artists);
    assert_eq!(next_mode(LibraryMode::Folders), LibraryMode::Albums);
    assert_eq!(prev_mode(LibraryMode::Albums), LibraryMode::Folders);
    assert_eq!(mode_of_name("artists"), Some(LibraryMode::Artists));
    assert_eq!(mode_of_name("queue"), None);
    assert_eq!(mode_name(LibraryMode::Folders), "folders");
}

#[test]
fn inode_entries() {
    let node = INodeInfo::new("Music/Rock/song.mp3", Some("2024"), INodeType::Song);
    assert_eq!(node.get_name(), "song.mp3");
    assert_eq!(INodeInfo::new("top", None, INodeType::Folder).get_name(), "top");
    assert_eq!(INodeType::Folder.icon_name(), "folder-symbolic");
    assert_eq!(INodeType::Unknown.icon_name(), "paper-symbolic");
    let d = INodeInfo::default();
    assert_eq!(d.inode_type, INodeType::Unknown);
}

#[test]
fn folder_sort_settings() {
    assert_eq!(toggled_sort_direction("asc"), "desc");
    assert_eq!(toggled_sort_direction("desc"), "asc");
    assert_eq!(folder_sort_index("filename"), Some(0));
    assert_eq!(folder_sort_index("last-modified"), Some(1));
    assert_eq!(folder_sort_index("size"), None);
    for i in 0..2 {
        assert_eq!(folder_sort_index(folder_sort_setting(i).unwrap()), Some(i));
    }
    assert_eq!(folder_sort_setting(2), None);
}

#[test]
fn inode_sort_keys() {
    assert_eq!(euphonica::views::inode_sort_key(6), Some(euphonica::views::INodeSortKey::Filename));
    assert_eq!(euphonica::views::inode_sort_key(7), Some(euphonica::views::INodeSortKey::LastModified));
    assert_eq!(euphonica::views::inode_sort_key(3), None);
}

#[test]
fn running_time_adds_durations() {
    assert_eq!(euphonica::views::total_duration(&vec![61, 120, 5]), 186);
    assert_eq!(euphonica::views::total_duration(&Vec::new()), 0);
}

#[test]
fn grid_cell_size() {
    assert_eq!(euphonica::views::album_cell_measure(true, 128, (1, 2, 3, 4)), (128, 128, -1, -1));
    assert_eq!(euphonica::views::album_cell_measure(false, 128, (1, 2, 3, 4)), (1, 2, 3, 4));
}

#[test]
fn add_button_appends_each_song_once() {
    let uris = vec!["a.mp3".to_string(), "b.mp3".to_string()];
    assert!(add_button_clicked(None, &uris).is_none());
    let edits = add_button_clicked(Some("Mix"), &uris).unwrap();
    assert_eq!(edits.len(), 2);
    for (k, e) in edits.iter().enumerate() {
        match e {
            PlaylistEdit::Add(p, u) => {
                assert_eq!(p, "Mix");
                assert_eq!(u, &uris[k]);
            }
            _ => panic!("only additions are made"),
        }
    }
}

#[test]
fn album_page_queue_buttons() {
    let album = AlbumInfo::new("f/t.mp3", "Title", Some("Band"), Vec::new());
    let picked = vec!["f/t.mp3".to_string()];
    let play_all = album_queue_clicked(&album, true, true, &picked);
    assert!(play_all.clear_first);
    match play_all.task {
        BackgroundTask::QueueQuery(terms, from) => {
            assert_eq!(terms.len(), 2);
            assert_eq!(from, None);
        }
        _ => panic!("the whole album is queued by its tags"),
    }
    let append_some = album_queue_clicked(&album, false, false, &picked);
    assert!(!append_some.clear_first);
    match append_some.task {
        BackgroundTask::QueueUris(u, rec, from, at) => {
            assert_eq!(u, picked);
            assert!(!rec);
            assert_eq!(from, None);
            assert_eq!(at, None);
        }
        _ => panic!("a partial selection is queued by URI"),
    }
    let play_some = album_queue_clicked(&album, false, true, &picked);
    match play_some.task {
        BackgroundTask::QueueUris(_, _, from, _) => assert_eq!(from, Some(0)),
        _ => panic!("a partial selection is queued by URI"),
    }
    let row = album_row_activated(&album, 3);
    assert!(row.clear_first);
    match row.task {
        BackgroundTask::QueueQuery(_, from) => assert_eq!(from, Some(3)),
        _ => panic!("the album is queued from the row"),
    }
}

#[test]
fn playlist_rename_rules() {
    assert!(rename_button_sensitive("New", Some("Old")));
    assert!(!rename_button_sensitive("Old", Some("Old")));
    assert!(!rename_button_sensitive("", Some("Old")));
    assert!(!rename_button_sensitive("New", None));
    assert_eq!(
        rename_failure_message(Some(ServerErrorKind::Exist), "Mix").unwrap(),
        "There is already another playlist named \"Mix\". Please pick another name."
    );
    assert_eq!(
        rename_failure_message(Some(ServerErrorKind::NoExist), "Mix").unwrap(),
        "Internal error: tried to rename a nonexistent playlist"
    );
    assert_eq!(
        rename_failure_message(Some(ServerErrorKind::Permission), "Mix").unwrap(),
        "Internal error (Permission)"
    );
    assert!(rename_failure_message(None, "Mix").is_none());
}

#[test]
fn song_row_thumbnails_prefer_embedded() {
    assert_eq!(song_row_thumbnail_update(false, "a/s.mp3", "a/s.mp3", CoverSource::Unknown), None);
    assert_eq!(
        song_row_thumbnail_update(true, "a/s.mp3", "a/s.mp3", CoverSource::Folder),
        Some(CoverSource::Embedded)
    );
    assert_eq!(
        song_row_thumbnail_update(true, "a/", "a/s.mp3", CoverSource::Unknown),
        Some(CoverSource::Folder)
    );
    assert_eq!(song_row_thumbnail_update(true, "a/", "a/s.mp3", CoverSource::Embedded), None);
    assert!(song_row_thumbnail_cleared("a/", "a/s.mp3", CoverSource::Folder));
    assert!(!song_row_thumbnail_cleared("a/", "a/s.mp3", CoverSource::Embedded));
    assert!(song_row_thumbnail_cleared("a/s.mp3", "a/s.mp3", CoverSource::Embedded));
}

#[test]
fn album_search_matching() {
    assert!(album_matches("Blue Train", Some("Coltrane"), "", 2, true));
    assert!(album_matches("Blue Train", Some("Coltrane"), "Train", 0, true));
    assert!(album_matches("Blue Train", Some("Coltrane"), "colt", 0, false));
    assert!(!album_matches("Blue Train", Some("Coltrane"), "colt", 0, true));
    assert!(album_matches("Blue Train", Some("Coltrane"), "blue", 1, false));
    assert!(!album_matches("Blue Train", Some("Coltrane"), "Coltrane", 1, true));
    assert!(!album_matches("Blue Train", None, "Blue", 2, true));
    assert!(album_matches("Blue Train", Some("Coltrane"), "Coltrane", 2, true));
    assert!(album_matches("Blue Train", None, "zzz", 3, true));
    assert!(!g_search_substr(None, "a", false));
    assert!(g_search_substr(Some("ÄBC"), "äb", false));
}
