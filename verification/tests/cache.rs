use euphonica::album::AlbumInfo;
use euphonica::artist::ArtistInfo;
use euphonica::cache::{
    album_art_file_name, album_art_key, album_art_plan, album_meta_lookup, album_meta_to_store,
    artist_avatar_key, artist_meta_lookup, avatar_db_key, avatar_upload_keys, cache_file_name,
    cover_lookup_keys, hashed_file_name, image_db_key, image_download_order, local_file_path,
    needs_fetch, register_image_record, should_save_images, unique_folder_positions,
    AlbumArtPlan, AlbumMetaLookup, ArtistMetaLookup, LyricsRow, StoreLookup,
};
use euphonica::cache::{
    ensure_cached_album_art, ensure_cached_album_arts, find_cover_by_uri, get_best_image,
    on_album_art_not_available,
    BestImageError, BestImageStep, CoverLookup, CoverRequest, Error,
};
use euphonica::meta::{ImageMeta, ImageSize};

#[test]
fn memory_keys() {
    assert_eq!(album_art_key("a/b/", true), ("uri:a/b/".to_string(), true));
    assert_eq!(artist_avatar_key("Bob", false), ("artist:Bob".to_string(), false));
    let (full, thumb) = avatar_upload_keys("Bob");
    assert_eq!(full, ("artist:Bob".to_string(), false));
    assert_eq!(thumb, ("artist:Bob".to_string(), true));
    assert_eq!(full, artist_avatar_key("Bob", false));
}

#[test]
fn file_names_use_url_safe_base64() {
    assert_eq!(cache_file_name("a/b/", false), "YS9iLw==.png");
    assert_eq!(cache_file_name("??>", true), "Pz8-_thumb.png");
    assert_eq!(hashed_file_name(42, true), "42_thumb.png");
    let name = album_art_file_name("a/b/", false);
    assert!(name.ends_with(".png"));
    assert!(name[..name.len() - 4].chars().all(|c| c.is_ascii_digit()));
}

#[test]
fn picked_paths_are_decoded() {
    assert_eq!(local_file_path("file:///home/me/My%20Cover.png").as_deref(), Some("/home/me/My Cover.png"));
    assert_eq!(local_file_path("/plain/path.png").as_deref(), Some("/plain/path.png"));
    assert_eq!(local_file_path("file:///bad%FF"), None);
}

#[test]
fn cover_plans() {
    assert_eq!(album_art_plan(true, true, true), AlbumArtPlan::NotifyCached);
    assert_eq!(album_art_plan(false, true, false), AlbumArtPlan::LoadFromDisk);
    assert_eq!(album_art_plan(false, false, true), AlbumArtPlan::DownloadFromMpd);
    assert_eq!(album_art_plan(false, false, false), AlbumArtPlan::FetchRemote);
    assert!(should_save_images(true, false));
    assert!(!should_save_images(true, true));
    assert!(needs_fetch(StoreLookup::Missing));
    assert!(!needs_fetch(StoreLookup::Failed));
    assert!(!needs_fetch(StoreLookup::Found));
}

#[test]
fn folders_are_deduplicated_in_order() {
    let uris: Vec<String> = ["a/", "b/", "a/", "c/", "b/"].iter().map(|s| s.to_string()).collect();
    assert_eq!(unique_folder_positions(&uris), vec![0, 1, 3]);
    assert!(unique_folder_positions(&Vec::new()).is_empty());
}

#[test]
fn metadata_lookups() {
    let mut album = AlbumInfo::new("x/y", "T", Some("Art"), Vec::new());
    assert!(matches!(album_meta_lookup(&album), AlbumMetaLookup::ByTitleArtist(t, a) if t == "T" && a == "Art"));
    album.mbid = Some("m".to_string());
    assert!(matches!(album_meta_lookup(&album), AlbumMetaLookup::ByMbid(m) if m == "m"));
    let bare = AlbumInfo::new("x/y", "T", None, Vec::new());
    assert!(matches!(album_meta_lookup(&bare), AlbumMetaLookup::NoKey));
    let artist = ArtistInfo::new("N", false);
    assert!(matches!(artist_meta_lookup(&artist), ArtistMetaLookup::ByName(n) if n == "N"));
    let placeholder = album_meta_to_store(&album, None);
    assert_eq!(placeholder.name, "T");
    assert_eq!(placeholder.mbid.as_deref(), Some("m"));
}

#[test]
fn image_records() {
    assert_eq!(image_db_key("k", Some("avatar")), "avatar:k");
    assert_eq!(image_db_key("k", None), "k");
    assert_eq!(avatar_db_key("Bob"), "avatar:Bob");
    let (del, ins, file) = register_image_record("Bob", Some("avatar"), None);
    assert_eq!(del, "Bob");
    assert_eq!(ins, "avatar:Bob");
    assert_eq!(file, "");
    assert_eq!(cover_lookup_keys("m/a/t.mp3"), ("m/a/t.mp3".to_string(), "m/a/".to_string()));
}

#[test]
fn largest_images_are_tried_first() {
    let images = vec![
        ImageMeta { size: ImageSize::Small, url: "s".to_string() },
        ImageMeta { size: ImageSize::Mega, url: "m1".to_string() },
        ImageMeta { size: ImageSize::Large, url: "l".to_string() },
        ImageMeta { size: ImageSize::Mega, url: "m2".to_string() },
    ];
    assert_eq!(image_download_order(&images), vec![3, 1, 2, 0]);
}

#[test]
fn lyrics_rows() {
    let row = LyricsRow { lyrics: "a\nb".to_string(), synced: false };
    assert_eq!(row.plain_lyrics().unwrap().lines, vec!["a", "b"]);
    let synced = LyricsRow { lyrics: "[00:01.00]a".to_string(), synced: true };
    assert!(synced.plain_lyrics().is_none());
}

#[test]
fn ensure_cached_album_art_picks_the_way() {
    let full = cache_file_name("a/b", false);
    let thumb = cache_file_name("a/b", true);
    assert_eq!(
        ensure_cached_album_art("a/b", true, true, true, true, true),
        vec![CoverRequest::NotifyDownloaded("a/b".to_string())]
    );
    assert_eq!(
        ensure_cached_album_art("a/b", true, false, false, true, true),
        vec![CoverRequest::LoadFromDisk(thumb.clone())]
    );
    assert_eq!(
        ensure_cached_album_art("a/b", false, false, false, true, true),
        vec![CoverRequest::QueueMpdDownload {
            full: full.clone(),
            thumbnail: thumb.clone(),
            high_priority: false
        }]
    );
    assert_eq!(
        ensure_cached_album_art("a/b", false, false, false, true, false),
        vec![CoverRequest::AskAlbumMeta, CoverRequest::AskAlbumArt { full, thumbnail: thumb }]
    );
}

#[test]
fn ensure_cached_album_arts_asks_thumbnails_once_per_folder() {
    let uris = vec!["x/".to_string(), "y/".to_string(), "x/".to_string()];
    assert_eq!(ensure_cached_album_arts(&uris), vec![(0, true), (1, true)]);
}

#[test]
fn cover_lookup_falls_back_to_folder() {
    match find_cover_by_uri("m/a/t.mp3", Ok(None)) {
        CoverLookup::TryFolder(f) => assert_eq!(f, "m/a/"),
        _ => panic!("expected the folder to be tried"),
    }
    match find_cover_by_uri("m/a/t.mp3", Ok(Some("f.png".to_string()))) {
        CoverLookup::Finished(Ok(Some(f))) => assert_eq!(f, "f.png"),
        _ => panic!("expected the track's cover"),
    }
    match find_cover_by_uri("m/a/t.mp3", Err(Error::InsufficientKey)) {
        CoverLookup::Finished(Err(Error::InsufficientKey)) => {}
        _ => panic!("expected the error as it came"),
    }
}

#[test]
fn best_image_is_the_first_that_downloads() {
    let none: Vec<ImageMeta> = Vec::new();
    assert_eq!(get_best_image(&none, &Vec::new()), BestImageStep::Failed(BestImageError::NoImages));
    assert_eq!(
        BestImageError::NoImages.message(),
        "This album's metadata does not provide any image."
    );
    let images = vec![
        ImageMeta { size: ImageSize::Small, url: "s".to_string() },
        ImageMeta { size: ImageSize::Mega, url: "m".to_string() },
        ImageMeta { size: ImageSize::Large, url: "l".to_string() },
    ];
    assert_eq!(get_best_image(&images, &vec![]), BestImageStep::Try(1));
    assert_eq!(get_best_image(&images, &vec![false]), BestImageStep::Try(2));
    assert_eq!(get_best_image(&images, &vec![false, true]), BestImageStep::Found(2));
    assert_eq!(
        get_best_image(&images, &vec![false, false, false]),
        BestImageStep::Failed(BestImageError::NoneDownloaded)
    );
    assert_eq!(
        BestImageError::NoneDownloaded.message(),
        "This album's metadata provided image URLs but none of them could be downloaded."
    );
}

#[test]
fn missing_daemon_cover_asks_the_providers() {
    let reqs = on_album_art_not_available("a/b");
    assert_eq!(
        reqs,
        vec![
            CoverRequest::AskAlbumMeta,
            CoverRequest::AskAlbumArt {
                full: cache_file_name("a/b", false),
                thumbnail: cache_file_name("a/b", true)
            }
        ]
    );
    assert_eq!(cache_file_name("a/b", true), "YS9i_thumb.png");
}

#[test]
fn cache_file_names_differ_by_key_and_size() {
    let names = [
        cache_file_name("a", false),
        cache_file_name("a", true),
        cache_file_name("b", false),
        cache_file_name("ab", false),
    ];
    assert_eq!(names[0], "YQ==.png");
    assert_eq!(names[3], "YWI=.png");
    for i in 0..names.len() {
        for j in 0..names.len() {
            assert_eq!(i == j, names[i] == names[j]);
        }
    }
}
