use euphonica::song::{format_secs, MpdSong, Song, SongInfo};

fn record(title: Option<&str>, secs: Option<u64>) -> MpdSong {
    MpdSong {
        file: "music/Artist/Album/01 Song.flac".to_string(),
        title: title.map(|s| s.to_string()),
        artist: Some("Artist".to_string()),
        duration_secs: secs,
        queue_id: Some(17),
        tags: vec![
            ("Album".to_string(), "First".to_string()),
            ("AlbumArtist".to_string(), "AA".to_string()),
            ("Album".to_string(), "Second".to_string()),
        ],
    }
}

#[test]
fn song_from_record_takes_last_tags() {
    let info = SongInfo::from_mpd_song(&record(Some("T"), Some(61)));
    assert_eq!(info.album.as_deref(), Some("Second"));
    assert_eq!(info.album_artist.as_deref(), Some("AA"));
    assert_eq!(info.queue_id, Some(17));
    assert!(!info.is_playing);
}

#[test]
fn song_name_falls_back_to_file_stem() {
    let song = Song::from_mpd_song(&record(None, None));
    assert_eq!(song.get_name().as_deref(), Some("01 Song"));
    let titled = Song::from_mpd_song(&record(Some("Named"), None));
    assert_eq!(titled.get_name().as_deref(), Some("Named"));
}

#[test]
fn durations_are_formatted() {
    assert_eq!(format_secs(5), "5s");
    assert_eq!(format_secs(0), "0s");
    assert_eq!(format_secs(61), "01:01");
    assert_eq!(format_secs(3600), "01:00:00");
    assert_eq!(format_secs(3 * 86400 + 3723), "3 days 01:02:03");
    let song = Song::from_mpd_song(&record(None, Some(125)));
    assert_eq!(song.format_duration().as_deref(), Some("02:05"));
    assert_eq!(song.get_duration(), 125);
    let unknown = Song::from_mpd_song(&record(None, None));
    assert_eq!(unknown.format_duration(), None);
    assert_eq!(unknown.get_duration(), 0);
}

#[test]
fn queue_fields() {
    let mut song = Song::from_mpd_song(&record(None, None));
    assert!(song.is_queued());
    assert_eq!(song.get_queue_id(), 17);
    assert!(song.set_is_playing(true));
    assert!(!song.set_is_playing(true));
    let d = SongInfo::default();
    assert!(d.queue_id.is_none() && d.uri.is_empty());
}
