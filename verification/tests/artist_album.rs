use euphonica::album::{strip_filename_linux, Album, AlbumInfo};
use euphonica::artist::{artists_to_string, parse_mb_artist_tag, trim, ArtistInfo};

#[test]
fn artist_tag_splits_on_commas_and_semicolons() {
    let artists = parse_mb_artist_tag("Alice, Bob; Carol");
    let names: Vec<&str> = artists.iter().map(|a| a.name.as_str()).collect();
    assert_eq!(names, vec!["Alice", "Bob", "Carol"]);
    assert!(artists.iter().all(|a| !a.is_composer && a.mbid.is_none()));
}

#[test]
fn artist_tag_single_name() {
    let artists = parse_mb_artist_tag("  The Band  ");
    assert_eq!(artists.len(), 1);
    assert_eq!(artists[0].name, "The Band");
    assert!(parse_mb_artist_tag("").is_empty());
}

#[test]
fn trim_removes_unicode_white_space() {
    assert_eq!(trim(" \t a b \n"), "a b");
    assert_eq!(trim("\u{3000}x\u{a0}"), "x");
    assert_eq!(trim("   "), "");
}

#[test]
fn artists_joined_for_display() {
    assert_eq!(artists_to_string(&[]), None);
    let one = [ArtistInfo::new("Solo", false)];
    assert_eq!(artists_to_string(&one).as_deref(), Some("Solo"));
    let list = [
        ArtistInfo::new("Composer", true),
        ArtistInfo::new("Orchestra", false),
        ArtistInfo::new("Soloist", false),
    ];
    assert_eq!(artists_to_string(&list).as_deref(), Some("Composer; Orchestra, Soloist"));
}

#[test]
fn folder_of_track() {
    assert_eq!(strip_filename_linux("music/album/track.flac"), "music/album/");
    assert_eq!(strip_filename_linux("track.flac"), "");
}

#[test]
fn album_info_artists_are_added() {
    let mut info = AlbumInfo::new("a/b/c.mp3", "Title", None, Vec::new());
    assert_eq!(info.folder_uri, "a/b/");
    info.add_artists_from_string("X, Y");
    assert_eq!(info.get_artist_tag(), Some("X, Y"));
    info.add_artists_from_string("Z");
    assert_eq!(info.get_artist_tag(), Some("X, Y, Z"));
    assert_eq!(info.get_artist_str().as_deref(), Some("X, Y, Z"));
    assert_eq!(info.artists.len(), 3);
    for (a, name) in info.artists.iter().zip(["X", "Y", "Z"]) {
        assert_eq!(a.name, name);
        assert!(!a.is_composer);
        assert!(a.mbid.is_none());
    }
}

#[test]
fn album_rating_property() {
    let mut album = Album::from_info(AlbumInfo::default());
    assert_eq!(album.rating_property(), -1);
    assert!(album.set_rating(Some(7)));
    assert!(!album.set_rating(Some(7)));
    assert_eq!(album.rating_property(), 7);
    assert!(album.set_rating_property(4));
    assert_eq!(album.get_rating(), None);
    assert!(album.set_rating_property(-3));
    assert_eq!(album.get_rating(), Some(-3));
    assert_eq!(album.get_title(), "Untitled Album");
}
