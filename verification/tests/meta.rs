use euphonica::album::AlbumInfo;
use euphonica::artist::ArtistInfo;
use euphonica::meta::{
    AlbumMeta, ArtistMeta, ArtistType, HasImage, ImageMeta, ImageSize, Merge, Tag, Tagged, Wiki,
};

fn tag(name: &str) -> Tag {
    Tag { url: None, name: name.to_string(), count: None }
}

fn album(name: &str, mbid: Option<&str>, tags: &[&str]) -> AlbumMeta {
    AlbumMeta {
        name: name.to_string(),
        artist: None,
        mbid: mbid.map(|s| s.to_string()),
        tags: tags.iter().map(|t| tag(t)).collect(),
        image: Vec::new(),
        url: None,
        wiki: None,
    }
}

#[test]
fn merge_option_prefers_own_value() {
    assert_eq!(AlbumMeta::merge_option(Some(1), Some(2)), Some(1));
    assert_eq!(AlbumMeta::merge_option(None, Some(2)), Some(2));
    assert_eq!(AlbumMeta::merge_option::<i32>(None, None), None);
    assert_eq!(AlbumMeta::merge_option(Some(1), None), Some(1));
}

#[test]
fn album_merge_concatenates_and_fills() {
    let mut a = album("A", None, &["rock"]);
    a.url = Some("u1".to_string());
    let mut b = album("B", Some("id-b"), &["pop", "jazz"]);
    b.url = Some("u2".to_string());
    b.wiki = Some(Wiki { content: "text".to_string(), url: None, attribution: "x".to_string() });
    b.image.push(ImageMeta { size: ImageSize::Large, url: "img".to_string() });
    let m = a.merge(b);
    assert_eq!(m.name, "A");
    assert_eq!(m.mbid.as_deref(), Some("id-b"));
    assert_eq!(m.url.as_deref(), Some("u1"));
    assert!(m.wiki.is_some());
    let names: Vec<&str> = m.get_tags().iter().map(|t| t.name.as_str()).collect();
    assert_eq!(names, vec!["rock", "pop", "jazz"]);
    assert_eq!(m.get_images().len(), 1);
}

#[test]
fn album_merge_is_associative_on_tags() {
    let left = album("A", None, &["1"]).merge(album("B", None, &["2"])).merge(album("C", Some("c"), &["3"]));
    let right = album("A", None, &["1"]).merge(album("B", None, &["2"]).merge(album("C", Some("c"), &["3"])));
    let l: Vec<String> = left.tags.iter().map(|t| t.name.clone()).collect();
    let r: Vec<String> = right.tags.iter().map(|t| t.name.clone()).collect();
    assert_eq!(l, r);
    assert_eq!(left.mbid, right.mbid);
    assert_eq!(left.name, right.name);
}

#[test]
fn artist_merge_replaces_unknown_kind_only() {
    let key = ArtistInfo::new("X", false);
    let mut a = ArtistMeta::from_key(&key);
    let mut b = ArtistMeta::from_key(&key);
    b.artist_type = ArtistType::Group;
    b.gender = Some("other".to_string());
    a = a.merge(b);
    assert_eq!(a.artist_type, ArtistType::Group);
    assert_eq!(a.gender.as_deref(), Some("other"));
    let mut c = ArtistMeta::from_key(&key);
    c.artist_type = ArtistType::Person;
    a = a.merge(c);
    assert_eq!(a.artist_type, ArtistType::Group);
    let mut d = ArtistMeta::from_key(&key);
    d.artist_type = ArtistType::UnrecognizedArtistType;
    let e = d.merge(ArtistMeta::from_key(&key));
    assert_eq!(e.artist_type, ArtistType::UnrecognizedArtistType);
}

#[test]
fn placeholders_from_keys() {
    let mut info = AlbumInfo::default();
    info.mbid = Some("m".to_string());
    let m = AlbumMeta::from_key(&info);
    assert_eq!(m.name, "Untitled Album");
    assert_eq!(m.mbid.as_deref(), Some("m"));
    assert!(m.tags.is_empty() && m.image.is_empty() && m.wiki.is_none());
    let a = ArtistMeta::from_key(&ArtistInfo::default());
    assert_eq!(a.name, "Untitled Artist");
    assert_eq!(a.artist_type, ArtistType::Other);
}

#[test]
fn image_size_order() {
    assert!(ImageSize::Small.rank() < ImageSize::Medium.rank());
    assert!(ImageSize::ExtraLarge.rank() < ImageSize::Mega.rank());
    assert_eq!(ImageSize::Mega.rank(), 4);
}
