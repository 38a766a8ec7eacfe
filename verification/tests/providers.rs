use euphonica::album::AlbumInfo;
use euphonica::artist::ArtistInfo;
use euphonica::lyrics::Lyrics;
use euphonica::providers::{lyrics_chain_step, AlbumChain, ArtistChain, ChainStep};
use euphonica::lastfm::{tags_from_field, tags_to_field, Tag as LastfmTag, TagsField};
use euphonica::meta::{AlbumMeta, ArtistType, CalendarDate};
use euphonica::providers::{
    album_meta_from_release, artist_meta_from_mb, get_provider, lastfm_param_name,
    lrclib_query_params, mb_gender_to_str, reconcile_lastfm_album, update_key_mbid,
    MbArtist, MbArtistCredit, MbGender, MbLifeSpan, MbRelease, MbTag, ProviderKind,
};

#[test]
fn provider_keys() {
    assert_eq!(get_provider("lastfm"), Some(ProviderKind::Lastfm));
    assert_eq!(get_provider("lrclib"), Some(ProviderKind::LrcLib));
    assert_eq!(get_provider("musicbrainz"), Some(ProviderKind::MusicBrainz));
    assert_eq!(get_provider("spotify"), None);
}

#[test]
fn chain_adds_found_id_to_key() {
    let mut key = None;
    update_key_mbid(&mut key, &Some("a".to_string()));
    assert_eq!(key.as_deref(), Some("a"));
    update_key_mbid(&mut key, &Some("b".to_string()));
    assert_eq!(key.as_deref(), Some("a"));
    update_key_mbid(&mut key, &None);
    assert_eq!(key.as_deref(), Some("a"));
}

#[test]
fn release_to_album_meta() {
    let rel = MbRelease {
        id: "r1".to_string(),
        title: "Title".to_string(),
        artist_credit: Some(vec![
            MbArtistCredit { name: "A".to_string(), joinphrase: Some(" & ".to_string()) },
            MbArtistCredit { name: "B".to_string(), joinphrase: None },
        ]),
        tags: Some(vec![MbTag { name: "rock".to_string(), count: 3 }]),
    };
    let meta = album_meta_from_release(&rel);
    assert_eq!(meta.name, "Title");
    assert_eq!(meta.artist.as_deref(), Some("A & B"));
    assert_eq!(meta.mbid.as_deref(), Some("r1"));
    assert_eq!(meta.url.as_deref(), Some("https://musicbrainz.org/release/r1"));
    assert_eq!(meta.tags.len(), 1);
    assert_eq!(meta.tags[0].count, Some(3));
    assert!(meta.image.is_empty() && meta.wiki.is_none());
}

#[test]
fn artist_to_artist_meta() {
    let date = CalendarDate { year: 1990, month: 1, day: 2 };
    let end = CalendarDate { year: 2000, month: 3, day: 4 };
    let mut artist = MbArtist {
        id: "a1".to_string(),
        name: "Band".to_string(),
        tags: None,
        life_span: Some(MbLifeSpan { begin: Some(date), end: Some(end), ended: Some(false) }),
        artist_type: None,
        gender: Some(MbGender::NotApplicable),
        country: Some("AU".to_string()),
    };
    let meta = artist_meta_from_mb(&artist);
    assert_eq!(meta.url.as_deref(), Some("https://musicbrainz.org/artist/a1"));
    assert_eq!(meta.artist_type, ArtistType::Other);
    assert_eq!(meta.begin_date, Some(date));
    assert_eq!(meta.end_date, None);
    assert_eq!(meta.gender, None);
    artist.life_span = Some(MbLifeSpan { begin: Some(date), end: Some(end), ended: Some(true) });
    artist.artist_type = Some(ArtistType::Group);
    let meta = artist_meta_from_mb(&artist);
    assert_eq!(meta.end_date, Some(end));
    assert_eq!(meta.artist_type, ArtistType::Group);
    assert_eq!(mb_gender_to_str(MbGender::Female).as_deref(), Some("female"));
}

#[test]
fn lastfm_queries_and_answers() {
    assert_eq!(lastfm_param_name("name"), "album");
    assert_eq!(lastfm_param_name("artist"), "artist");
    let answer = AlbumMeta {
        name: "album (remaster)".to_string(),
        artist: Some("artist".to_string()),
        mbid: None,
        tags: Vec::new(),
        image: Vec::new(),
        url: Some("u".to_string()),
        wiki: None,
    };
    let fixed = reconcile_lastfm_album(
        answer,
        Some("id".to_string()),
        Some("Artist".to_string()),
        Some("Album".to_string()),
        None,
    );
    assert_eq!(fixed.name, "Album");
    assert_eq!(fixed.artist.as_deref(), Some("Artist"));
    assert_eq!(fixed.mbid.as_deref(), Some("id"));
    assert_eq!(fixed.url.as_deref(), Some("u"));
}

#[test]
fn lrclib_query() {
    let p = lrclib_query_params("Song", None, Some("Album"));
    assert_eq!(
        p,
        vec![
            ("track_name".to_string(), "Song".to_string()),
            ("album_name".to_string(), "Album".to_string())
        ]
    );
    assert_eq!(lrclib_query_params("Song", Some("A"), None).len(), 2);
}

#[test]
fn lastfm_tag_fields() {
    assert!(matches!(tags_to_field(Vec::new()), TagsField::Text(t) if t.is_empty()));
    let tags = vec![LastfmTag { url: "u".to_string(), name: "n".to_string() }];
    let back = tags_from_field(tags_to_field(tags));
    assert_eq!(back.len(), 1);
    assert_eq!(back[0].name, "n");
    assert!(tags_from_field(TagsField::Text("ignored".to_string())).is_empty());
}

#[test]
fn lastfm_keys_and_queries() {
    assert_eq!(euphonica::providers::lastfm_api_key(""), None);
    assert_eq!(euphonica::providers::lastfm_api_key("k").as_deref(), Some("k"));
    let q = euphonica::providers::lastfm_base_query("album.getinfo", "k");
    assert_eq!(q[0], ("format".to_string(), "json".to_string()));
    assert_eq!(q[1].1, "album.getinfo");
    assert_eq!(q[2], ("api_key".to_string(), "k".to_string()));
}

#[test]
fn provider_chain_order() {
    let order = vec!["lrclib".to_string(), "musicbrainz".to_string(), "lastfm".to_string()];
    assert_eq!(
        euphonica::providers::provider_chain(&order),
        vec![(ProviderKind::LrcLib, 0), (ProviderKind::MusicBrainz, 1), (ProviderKind::Lastfm, 2)]
    );
}

#[test]
fn album_chain_passes_answers_on_and_keeps_first_id() {
    let key = AlbumInfo::new("f/t.mp3", "Title", None, Vec::new());
    let (mut chain, step) = AlbumChain::start(key, 2, None);
    assert!(matches!(step, ChainStep::Ask(0, None)));
    let mut first = AlbumMeta::from_key(chain.key());
    first.mbid = Some("id-1".to_string());
    match chain.on_answer(Some(first)) {
        ChainStep::Ask(1, Some(m)) => assert_eq!(m.mbid.as_deref(), Some("id-1")),
        _ => panic!("the second provider is asked with the first answer"),
    }
    assert_eq!(chain.key().mbid.as_deref(), Some("id-1"));
    let mut second = AlbumMeta::from_key(chain.key());
    second.mbid = Some("id-2".to_string());
    match chain.on_answer(Some(second)) {
        ChainStep::Done(Some(m)) => assert_eq!(m.mbid.as_deref(), Some("id-2")),
        _ => panic!("the chain ends after the last provider"),
    }
    assert_eq!(chain.key().mbid.as_deref(), Some("id-1"));
    let (_, step) = AlbumChain::start(AlbumInfo::new("a", "b", None, Vec::new()), 0, None);
    assert!(matches!(step, ChainStep::Done(None)));
}

#[test]
fn artist_chain_and_lyrics_chain() {
    let (mut chain, _) = ArtistChain::start(ArtistInfo::new("Bob", false), 1, None);
    assert!(matches!(chain.on_answer(None), ChainStep::Done(None)));
    assert!(chain.key().mbid.is_none());
    assert!(matches!(lyrics_chain_step(0, 2, None), ChainStep::Ask(1, None)));
    assert!(matches!(lyrics_chain_step(1, 2, None), ChainStep::Done(None)));
    let l = Lyrics { lines: vec!["x".to_string()], synced: false };
    assert!(matches!(lyrics_chain_step(0, 2, Some(l)), ChainStep::Done(Some(_))));
}
