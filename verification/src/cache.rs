//! The metadata cache's naming and scheduling: the keys of cached images, the
//! files they are stored in, how stored metadata is looked up, and which way
//! a missing cover is fetched.
use vstd::prelude::*;
use vstd::string::*;
use crate::album::{AlbumInfo, folder_of, strip_filename_linux};
use crate::artist::ArtistInfo;
use crate::meta::{AlbumMeta, ArtistMeta, ArtistType, ImageMeta, size_rank};
use crate::text::{decimal, push_decimal, str_eq, split_on, views};
use crate::lyrics::Lyrics;

verus! {

/// The in-memory key of an album's cover: `uri:` and the folder URI, with
/// whether it is the thumbnail.
pub fn album_art_key(folder_uri: &str, thumbnail: bool) -> (res: (String, bool))
    ensures
        res.0@ == "uri:"@ + folder_uri@,
        res.1 == thumbnail,
{
    let mut k = "uri:".to_owned();
    k.append(folder_uri);
    (k, thumbnail)
}

/// The in-memory key of an artist's avatar: `artist:` and the name.
pub fn artist_avatar_key(name: &str, thumbnail: bool) -> (res: (String, bool))
    ensures
        res.0@ == "artist:"@ + name@,
        res.1 == thumbnail,
{
    let mut k = "artist:".to_owned();
    k.append(name);
    (k, thumbnail)
}

/// The in-memory keys under which a user-chosen avatar is stored: the full
/// image and the thumbnail, under `artist:` and the artist's name, where
/// loading an avatar looks for them.
pub fn avatar_upload_keys(tag: &str) -> (res: ((String, bool), (String, bool)))
    ensures
        res.0.0@ == "artist:"@ + tag@,
        !res.0.1,
        res.1.0@ == "artist:"@ + tag@,
        res.1.1,
{
    (artist_avatar_key(tag, false), artist_avatar_key(tag, true))
}

/// The suffix of a cached image file.
pub open spec fn image_suffix(thumbnail: bool) -> Seq<char> {
    if thumbnail {
        "_thumb.png"@
    } else {
        ".png"@
    }
}

/// The character of the URL-safe base64 alphabet for a 6-bit value:
/// `A`-`Z`, `a`-`z`, `0`-`9`, `-`, `_`.
pub open spec fn b64_char(v: int) -> char {
    if v < 26 {
        (65 + v) as char
    } else if v < 52 {
        (97 + v - 26) as char
    } else if v < 62 {
        (48 + v - 52) as char
    } else if v == 62 {
        '-'
    } else {
        '_'
    }
}

/// Base64 with the URL-safe alphabet and padding, as
/// `base64::engine::general_purpose::URL_SAFE` encodes: each three bytes
/// become four characters of six bits each, high bits first; a last group of
/// one or two bytes is filled with zero bits and padded with `=` to four
/// characters.
pub open spec fn url_safe_base64(d: Seq<u8>) -> Seq<char>
    decreases d.len(),
{
    if d.len() == 0 {
        Seq::empty()
    } else if d.len() == 1 {
        seq![b64_char((d[0] as int) / 4), b64_char(((d[0] as int) % 4) * 16), '=', '=']
    } else if d.len() == 2 {
        seq![
            b64_char((d[0] as int) / 4),
            b64_char(((d[0] as int) % 4) * 16 + (d[1] as int) / 16),
            b64_char(((d[1] as int) % 16) * 4),
            '=',
        ]
    } else {
        seq![
            b64_char((d[0] as int) / 4),
            b64_char(((d[0] as int) % 4) * 16 + (d[1] as int) / 16),
            b64_char(((d[1] as int) % 16) * 4 + (d[2] as int) / 64),
            b64_char((d[2] as int) % 64),
        ] + url_safe_base64(d.skip(3))
    }
}

/// The length of the encoding stays within `usize`.
pub open spec fn base64_len_fits(n: nat) -> bool {
    (n / 3) * 4 + (if n % 3 > 0 {
        4int
    } else {
        0
    }) <= usize::MAX
}

/// Encodes the bytes of `data` with `Engine::encode` of the URL-safe engine,
/// which panics only when the encoded length overflows `usize`.
#[verifier::external_body]
fn encode_url_safe(data: &str) -> (res: String)
    requires
        base64_len_fits(data.spec_bytes().len()),
    ensures
        res@ == url_safe_base64(data.spec_bytes()),
{
    base64::Engine::encode(&base64::engine::general_purpose::URL_SAFE, data)
}

/// The file name of a cached cover or avatar: the URL-safe base64 of the
/// folder URI or artist name, then `.png` or `_thumb.png`.
pub fn cache_file_name(key: &str, thumbnail: bool) -> (res: String)
    requires
        base64_len_fits(key.spec_bytes().len()),
    ensures
        res@ == url_safe_base64(key.spec_bytes()) + image_suffix(thumbnail),
{
    let mut name = encode_url_safe(key);
    proof {
        reveal_strlit("_thumb.png");
        reveal_strlit(".png");
    }
    if thumbnail {
        name.append("_thumb.png");
    } else {
        name.append(".png");
    }
    name
}

/// What `fasthash::murmur2::Hash64_x64::hash` gives for bytes. The contract
/// only names the result.
pub uninterp spec fn murmur2_x64(data: Seq<u8>) -> u64;

/// What `fasthash::murmur2::Hash64_x86::hash` gives for bytes. The contract
/// only names the result.
pub uninterp spec fn murmur2_x86(data: Seq<u8>) -> u64;

/// Hashes the bytes of `s` with `fasthash::murmur2::hash64`, which uses the
/// 64-bit variant on 64-bit machines and the 32-bit one elsewhere; the
/// result is one of the two.
#[verifier::external_body]
fn murmur2_hash64(s: &str) -> (res: u64)
    ensures
        res == murmur2_x64(s.spec_bytes()) || res == murmur2_x86(s.spec_bytes()),
{
    fasthash::murmur2::hash64(s)
}

/// Different 6-bit values give different characters, none of them `=`.
proof fn lemma_b64_char(v: int, w: int)
    requires
        0 <= v < 64,
        0 <= w < 64,
    ensures
        b64_char(v) != '=',
        b64_char(v) == b64_char(w) ==> v == w,
{
}

/// The encoding takes four characters per started group of three bytes.
proof fn lemma_b64_len(d: Seq<u8>)
    ensures
        url_safe_base64(d).len() == 4 * ((d.len() + 2) / 3),
    decreases d.len(),
{
    if d.len() >= 3 {
        lemma_b64_len(d.skip(3));
    }
}

/// A full group of three bytes is read back from its four values.
proof fn lemma_b64_group(a0: u8, a1: u8, a2: u8, b0: u8, b1: u8, b2: u8)
    requires
        a0 / 4 == b0 / 4,
        (a0 % 4) * 16 + a1 / 16 == (b0 % 4) * 16 + b1 / 16,
        (a1 % 16) * 4 + a2 / 64 == (b1 % 16) * 4 + b2 / 64,
        a2 % 64 == b2 % 64,
    ensures
        a0 == b0 && a1 == b1 && a2 == b2,
{
}

/// The encoding is one to one: different bytes give different texts.
pub proof fn lemma_b64_injective(a: Seq<u8>, b: Seq<u8>)
    requires
        url_safe_base64(a) == url_safe_base64(b),
    ensures
        a == b,
    decreases a.len(),
{
    let ea = url_safe_base64(a);
    lemma_b64_len(a);
    lemma_b64_len(b);
    if a.len() == 0 || b.len() == 0 {
        assert(a =~= b);
        return;
    }
    let a0 = a[0];
    let b0 = b[0];
    lemma_b64_char((a0 as int) / 4, (b0 as int) / 4);
    if a.len() >= 3 {
        lemma_b64_char(((a[1] as int) % 16) * 4 + (a[2] as int) / 64, 0);
        lemma_b64_char((a[2] as int) % 64, 0);
    }
    if b.len() >= 3 {
        lemma_b64_char(((b[1] as int) % 16) * 4 + (b[2] as int) / 64, 0);
        lemma_b64_char((b[2] as int) % 64, 0);
    }
    if a.len() == 2 {
        lemma_b64_char(((a[1] as int) % 16) * 4, 0);
    }
    if b.len() == 2 {
        lemma_b64_char(((b[1] as int) % 16) * 4, 0);
    }
    if a.len() == 1 {
        assert(b.len() == 1) by {
            assert(ea[2] == '=');
        }
        lemma_b64_char(((a0 as int) % 4) * 16, ((b0 as int) % 4) * 16);
        assert(a =~= b);
    } else if a.len() == 2 {
        assert(b.len() == 2) by {
            assert(ea[3] == '=');
            assert(ea[2] != '=');
        }
        lemma_b64_char(((a0 as int) % 4) * 16 + (a[1] as int) / 16, ((b0 as int) % 4) * 16 + (b[1] as int) / 16);
        lemma_b64_char(((a[1] as int) % 16) * 4, ((b[1] as int) % 16) * 4);
        lemma_b64_group(a0, a[1], 0, b0, b[1], 0);
        assert(a =~= b);
    } else {
        assert(b.len() >= 3) by {
            assert(ea[3] != '=');
            assert(ea[2] != '=');
        }
        let eb = url_safe_base64(b);
        assert(ea[0] == b64_char((a0 as int) / 4) && eb[0] == b64_char((b0 as int) / 4));
        assert(ea[1] == b64_char(((a0 as int) % 4) * 16 + (a[1] as int) / 16));
        assert(eb[1] == b64_char(((b0 as int) % 4) * 16 + (b[1] as int) / 16));
        assert(ea[2] == b64_char(((a[1] as int) % 16) * 4 + (a[2] as int) / 64));
        assert(eb[2] == b64_char(((b[1] as int) % 16) * 4 + (b[2] as int) / 64));
        assert(ea[3] == b64_char((a[2] as int) % 64) && eb[3] == b64_char((b[2] as int) % 64));
        lemma_b64_char(((a0 as int) % 4) * 16 + (a[1] as int) / 16, ((b0 as int) % 4) * 16 + (b[1] as int) / 16);
        lemma_b64_char(((a[1] as int) % 16) * 4 + (a[2] as int) / 64, ((b[1] as int) % 16) * 4 + (b[2] as int) / 64);
        lemma_b64_char((a[2] as int) % 64, (b[2] as int) % 64);
        lemma_b64_group(a0, a[1], a[2], b0, b[1], b[2]);
        assert(url_safe_base64(a.skip(3)) =~= ea.subrange(4, ea.len() as int));
        assert(url_safe_base64(b.skip(3)) =~= ea.subrange(4, ea.len() as int));
        lemma_b64_injective(a.skip(3), b.skip(3));
        assert(a =~= seq![a0, a[1], a[2]] + a.skip(3));
        assert(b =~= seq![b0, b[1], b[2]] + b.skip(3));
    }
}

/// Cache file names tell their keys and sizes apart: two names are the same
/// only for the same key bytes and the same size.
pub proof fn lemma_cache_file_names_distinct(k1: Seq<u8>, t1: bool, k2: Seq<u8>, t2: bool)
    requires
        url_safe_base64(k1) + image_suffix(t1) == url_safe_base64(k2) + image_suffix(t2),
    ensures
        k1 == k2,
        t1 == t2,
{
    reveal_strlit("_thumb.png");
    reveal_strlit(".png");
    let n1 = url_safe_base64(k1);
    let n2 = url_safe_base64(k2);
    lemma_b64_len(k1);
    lemma_b64_len(k2);
    let whole = n1 + image_suffix(t1);
    assert(whole.len() == n1.len() + image_suffix(t1).len());
    assert(whole.len() == n2.len() + image_suffix(t2).len());
    if t1 != t2 {
        assert(false);
    }
    assert(n1 =~= whole.subrange(0, n1.len() as int));
    assert(n2 =~= whole.subrange(0, n2.len() as int));
    lemma_b64_injective(k1, k2);
}

/// The file name of a cover from its hash: the hash in decimal, then `.png`
/// or `_thumb.png`.
pub fn hashed_file_name(hash: u64, thumbnail: bool) -> (res: String)
    ensures
        res@ == decimal(hash as nat) + image_suffix(thumbnail),
{
    let mut name = String::new();
    push_decimal(&mut name, hash);
    proof {
        reveal_strlit("_thumb.png");
        reveal_strlit(".png");
    }
    if thumbnail {
        name.append("_thumb.png");
    } else {
        name.append(".png");
    }
    name
}

/// The file name of a folder's cover in the older cache layout: the folder
/// URI's MurmurHash2 (of the machine's variant) in decimal, then the suffix.
pub fn album_art_file_name(folder_uri: &str, thumbnail: bool) -> (res: String)
    ensures
        res@ == decimal(murmur2_x64(folder_uri.spec_bytes()) as nat) + image_suffix(thumbnail)
            || res@ == decimal(murmur2_x86(folder_uri.spec_bytes()) as nat) + image_suffix(
            thumbnail,
        ),
{
    let h = murmur2_hash64(folder_uri);
    hashed_file_name(h, thumbnail)
}

/// `s` starts with `prefix`.
pub open spec fn has_prefix(s: Seq<char>, prefix: Seq<char>) -> bool {
    prefix.len() <= s.len() && s.subrange(0, prefix.len() as int) == prefix
}

/// Whether `s` starts with `prefix`.
pub fn starts_with(s: &str, prefix: &str) -> (res: bool)
    ensures
        res == has_prefix(s@, prefix@),
{
    let n = s.unicode_len();
    let m = prefix.unicode_len();
    if m > n {
        return false;
    }
    let head = s.substring_char(0, m);
    str_eq(head, prefix)
}

/// What `urlencoding::decode` gives for a text: `None` when the decoded bytes
/// are not UTF-8. The contract only names the result.
pub uninterp spec fn percent_decoded(s: Seq<char>) -> Option<Seq<char>>;

/// Decodes percent escapes with `urlencoding::decode`. A text without `%`
/// comes back unchanged, as the crate returns it borrowed.
#[verifier::external_body]
fn url_decode(s: &str) -> (res: Option<String>)
    ensures
        match res {
            Some(d) => percent_decoded(s@) == Some(d@),
            None => percent_decoded(s@) is None,
        },
        (forall|i: int| 0 <= i < s@.len() ==> s@[i] != '%') ==> res is Some && res->0@ == s@,
{
    urlencoding::decode(s).ok().map(|c| c.into_owned())
}

/// The text after a leading `file://`, or the whole text.
pub open spec fn without_file_scheme(path: Seq<char>) -> Seq<char> {
    if has_prefix(path, "file://"@) {
        path.subrange(7, path.len() as int)
    } else {
        path
    }
}

/// The local file a picked URI points to: the `file://` scheme is dropped
/// and percent escapes decoded. `None` when the decoded text is not UTF-8.
pub fn local_file_path(path: &str) -> (res: Option<String>)
    ensures
        match res {
            Some(p) => percent_decoded(without_file_scheme(path@)) == Some(p@),
            None => percent_decoded(without_file_scheme(path@)) is None,
        },
{
    proof {
        reveal_strlit("file://");
    }
    if starts_with(path, "file://") {
        let n = path.unicode_len();
        url_decode(path.substring_char(7, n))
    } else {
        url_decode(path)
    }
}

/// Where the cover of an album comes from when it is not in memory.
#[derive(Debug, Clone, Copy, PartialEq, Eq, Structural)]
pub enum AlbumArtPlan {
    /// It is in memory: only tell the views.
    NotifyCached,
    /// Load the stored file.
    LoadFromDisk,
    /// Ask the daemon for it.
    DownloadFromMpd,
    /// Fetch the album's metadata, then its cover, from the providers.
    FetchRemote,
}

/// The way to a cover: memory, then disk, then the daemon when allowed, else
/// the metadata providers.
pub fn album_art_plan(in_memory: bool, on_disk: bool, mpd_download_allowed: bool) -> (res:
    AlbumArtPlan)
    ensures
        in_memory ==> res == AlbumArtPlan::NotifyCached,
        !in_memory && on_disk ==> res == AlbumArtPlan::LoadFromDisk,
        !in_memory && !on_disk && mpd_download_allowed ==> res == AlbumArtPlan::DownloadFromMpd,
        !in_memory && !on_disk && !mpd_download_allowed ==> res == AlbumArtPlan::FetchRemote,
{
    if in_memory {
        AlbumArtPlan::NotifyCached
    } else if on_disk {
        AlbumArtPlan::LoadFromDisk
    } else if mpd_download_allowed {
        AlbumArtPlan::DownloadFromMpd
    } else {
        AlbumArtPlan::FetchRemote
    }
}

/// The positions of the first occurrence of each distinct text, in order.
pub open spec fn first_occurrences(uris: Seq<Seq<char>>, upto: nat) -> Seq<nat>
    decreases upto,
{
    if upto == 0 {
        Seq::empty()
    } else {
        let prev = first_occurrences(uris, (upto - 1) as nat);
        if exists|j: int| 0 <= j < upto - 1 && #[trigger] uris[j] == uris[upto - 1] {
            prev
        } else {
            prev.push((upto - 1) as nat)
        }
    }
}

/// The folders whose covers are to be fetched, each once: the positions of
/// the first occurrence of each folder URI, in order.
pub fn unique_folder_positions(uris: &Vec<String>) -> (res: Vec<usize>)
    ensures
        res@.map_values(|i: usize| i as nat) == first_occurrences(
            uris@.map_values(|s: String| s@),
            uris.len() as nat,
        ),
{
    let ghost texts = uris@.map_values(|s: String| s@);
    let mut res: Vec<usize> = Vec::new();
    let mut i: usize = 0;
    while i < uris.len()
        invariant
            i <= uris.len(),
            texts == uris@.map_values(|s: String| s@),
            res@.map_values(|k: usize| k as nat) == first_occurrences(texts, i as nat),
        decreases uris.len() - i,
    {
        let mut seen = false;
        let mut j: usize = 0;
        while j < i
            invariant
                j <= i,
                i < uris.len(),
                texts == uris@.map_values(|s: String| s@),
                seen == exists|k: int| 0 <= k < j && #[trigger] texts[k] == texts[i as int],
            decreases i - j,
        {
            if str_eq(uris[j].as_str(), uris[i].as_str()) {
                seen = true;
            }
            proof {
                assert(texts[j as int] == uris@[j as int]@);
                assert(texts[i as int] == uris@[i as int]@);
                if seen {
                    if !(exists|k: int| 0 <= k < j && #[trigger] texts[k] == texts[i as int]) {
                        assert(texts[j as int] == texts[i as int]);
                    }
                }
            }
            j = j + 1;
        }
        let ghost before = res@;
        if !seen {
            res.push(i);
            proof {
                assert(res@.map_values(|k: usize| k as nat) =~= before.map_values(
                    |k: usize| k as nat,
                ).push(i as nat));
            }
        }
        i = i + 1;
    }
    res
}

/// How stored metadata of an album is found.
#[derive(Debug)]
pub enum AlbumMetaLookup {
    /// By MusicBrainz id.
    ByMbid(String),
    /// By title and album-artist tag.
    ByTitleArtist(String, String),
    /// Neither is known: nothing can be found.
    NoKey,
}

/// The lookup of an album's stored metadata: by id when known, else by title
/// and artist tag when that is known.
pub fn album_meta_lookup(album: &AlbumInfo) -> (res: AlbumMetaLookup)
    ensures
        match album.mbid {
            Some(m) => res matches AlbumMetaLookup::ByMbid(x) && x == m,
            None => match album.artist_tag {
                Some(a) => res matches AlbumMetaLookup::ByTitleArtist(t, x) && t == album.title
                    && x == a,
                None => res is NoKey,
            },
        },
{
    match &album.mbid {
        Some(m) => AlbumMetaLookup::ByMbid(m.clone()),
        None => match &album.artist_tag {
            Some(a) => AlbumMetaLookup::ByTitleArtist(album.title.clone(), a.clone()),
            None => AlbumMetaLookup::NoKey,
        },
    }
}

/// How stored metadata of an artist is found.
#[derive(Debug)]
pub enum ArtistMetaLookup {
    ByMbid(String),
    ByName(String),
}

/// The lookup of an artist's stored metadata: by id when known, else by name.
pub fn artist_meta_lookup(artist: &ArtistInfo) -> (res: ArtistMetaLookup)
    ensures
        match artist.mbid {
            Some(m) => res matches ArtistMetaLookup::ByMbid(x) && x == m,
            None => res matches ArtistMetaLookup::ByName(x) && x == artist.name,
        },
{
    match &artist.mbid {
        Some(m) => ArtistMetaLookup::ByMbid(m.clone()),
        None => ArtistMetaLookup::ByName(artist.name.clone()),
    }
}

/// The key of an image record: `prefix:key`, or the key alone.
pub fn image_db_key(key: &str, prefix: Option<&str>) -> (res: String)
    ensures
        match prefix {
            Some(p) => res@ == p@ + seq![':'] + key@,
            None => res@ == key@,
        },
{
    match prefix {
        Some(p) => {
            let mut k = p.to_owned();
            proof {
                reveal_strlit(":");
            }
            k.append(":");
            k.append(key);
            k
        },
        None => key.to_owned(),
    }
}

/// The keys of an avatar record: `avatar:` and the artist name.
pub fn avatar_db_key(key: &str) -> (res: String)
    ensures
        res@ == "avatar"@ + seq![':'] + key@,
{
    image_db_key(key, Some("avatar"))
}

/// Registering an image record first deletes the record under the bare key,
/// then inserts one under the prefixed key, with an empty file name for "not
/// found". The result is (key deleted, key inserted, file name).
pub fn register_image_record(key: &str, prefix: Option<&str>, filename: Option<&str>) -> (res: (
    String,
    String,
    String,
))
    ensures
        res.0@ == key@,
        match prefix {
            Some(p) => res.1@ == p@ + seq![':'] + key@,
            None => res.1@ == key@,
        },
        match filename {
            Some(f) => res.2@ == f@,
            None => res.2@ == Seq::<char>::empty(),
        },
{
    let name = match filename {
        Some(f) => f.to_owned(),
        None => String::new(),
    };
    (key.to_owned(), image_db_key(key, prefix), name)
}

/// The keys under which a track's cover is looked for, in order: the track
/// itself, then its folder.
pub fn cover_lookup_keys(track_uri: &str) -> (res: (String, String))
    ensures
        res.0@ == track_uri@,
        res.1@ == folder_of(track_uri@),
{
    (track_uri.to_owned(), strip_filename_linux(track_uri).to_owned())
}

/// The outcome of looking something up in the metadata store.
#[derive(Debug, Clone, Copy, PartialEq, Eq, Structural)]
pub enum StoreLookup {
    Found,
    Missing,
    Failed,
}

/// A provider is asked only when the store answered that nothing is there.
pub fn needs_fetch(lookup: StoreLookup) -> (res: bool)
    ensures
        res == (lookup == StoreLookup::Missing),
{
    lookup == StoreLookup::Missing
}

/// What is stored for an album after asking the providers: their answer, or
/// a placeholder that holds only the key, so that the album is not asked for
/// again.
pub fn album_meta_to_store(key: &AlbumInfo, fetched: Option<AlbumMeta>) -> (res: AlbumMeta)
    ensures
        match fetched {
            Some(m) => res == m,
            None => res.name@ == key.title@ && res.mbid == key.mbid && res.artist is None
                && res.tags@.len() == 0 && res.image@.len() == 0 && res.url is None
                && res.wiki is None,
        },
{
    match fetched {
        Some(m) => m,
        None => AlbumMeta::from_key(key),
    }
}

/// What is stored for an artist after asking the providers: their answer, or
/// a placeholder that holds only the key.
pub fn artist_meta_to_store(key: &ArtistInfo, fetched: Option<ArtistMeta>) -> (res: ArtistMeta)
    ensures
        match fetched {
            Some(m) => res == m,
            None => res.name@ == key.name@ && res.mbid == key.mbid && res.tags@.len() == 0
                && res.similar@.len() == 0 && res.image@.len() == 0 && res.url is None
                && res.bio is None && res.artist_type == ArtistType::Other && res.gender is None && res.begin_date is None
                && res.end_date is None && res.country is None,
        },
{
    match fetched {
        Some(m) => m,
        None => ArtistMeta::from_key(key),
    }
}

/// A downloaded image is saved unless both files already exist.
pub fn should_save_images(hires_exists: bool, thumbnail_exists: bool) -> (res: bool)
    ensures
        res == (!hires_exists || !thumbnail_exists),
{
    !hires_exists || !thumbnail_exists
}

/// The positions of images of rank `r` among the first `upto`, last first.
pub open spec fn of_rank_desc(ranks: Seq<nat>, r: nat, upto: nat) -> Seq<nat>
    decreases upto,
{
    if upto == 0 {
        Seq::empty()
    } else if ranks[upto - 1] == r {
        seq![(upto - 1) as nat] + of_rank_desc(ranks, r, (upto - 1) as nat)
    } else {
        of_rank_desc(ranks, r, (upto - 1) as nat)
    }
}

/// The order in which image downloads are tried: largest size first, and
/// among equal sizes the one listed last first (a stable sort by size, read
/// backwards).
pub open spec fn download_order(ranks: Seq<nat>) -> Seq<nat> {
    of_rank_desc(ranks, 4, ranks.len()) + of_rank_desc(ranks, 3, ranks.len()) + of_rank_desc(
        ranks,
        2,
        ranks.len(),
    ) + of_rank_desc(ranks, 1, ranks.len()) + of_rank_desc(ranks, 0, ranks.len())
}

/// The sizes of a list of images, as ranks.
pub open spec fn image_ranks(images: Seq<ImageMeta>) -> Seq<nat> {
    images.map_values(|m: ImageMeta| size_rank(m.size))
}

/// Appends the positions of images of rank `r`, last first.
fn push_rank_desc(images: &Vec<ImageMeta>, r: u8, out: &mut Vec<usize>)
    requires
        r <= 4,
    ensures
        final(out)@.map_values(|i: usize| i as nat) == old(out)@.map_values(|i: usize| i as nat)
            + of_rank_desc(image_ranks(images@), r as nat, images.len() as nat),
{
    let ghost ranks = image_ranks(images@);
    let ghost start = out@.map_values(|i: usize| i as nat);
    let mut k: usize = images.len();
    while k > 0
        invariant
            k <= images.len(),
            ranks == image_ranks(images@),
            out@.map_values(|i: usize| i as nat) + of_rank_desc(ranks, r as nat, k as nat) == start
                + of_rank_desc(ranks, r as nat, images.len() as nat),
        decreases k,
    {
        let ghost before = out@.map_values(|i: usize| i as nat);
        proof {
            assert(ranks[k - 1] == size_rank(images@[k - 1].size));
        }
        if images[k - 1].size.rank() == r {
            out.push(k - 1);
            proof {
                assert(out@.map_values(|i: usize| i as nat) =~= before.push((k - 1) as nat));
                assert(before + of_rank_desc(ranks, r as nat, k as nat) =~= before.push(
                    (k - 1) as nat,
                ) + of_rank_desc(ranks, r as nat, (k - 1) as nat));
            }
        }
        k = k - 1;
    }
    proof {
        assert(out@.map_values(|i: usize| i as nat) =~= out@.map_values(|i: usize| i as nat)
            + of_rank_desc(ranks, r as nat, 0));
    }
}

/// The positions of the images in the order their downloads are tried.
pub fn image_download_order(images: &Vec<ImageMeta>) -> (res: Vec<usize>)
    ensures
        res@.map_values(|i: usize| i as nat) == download_order(image_ranks(images@)),
{
    let mut out: Vec<usize> = Vec::new();
    proof {
        assert(out@.map_values(|i: usize| i as nat) =~= Seq::<nat>::empty());
    }
    push_rank_desc(images, 4, &mut out);
    push_rank_desc(images, 3, &mut out);
    push_rank_desc(images, 2, &mut out);
    push_rank_desc(images, 1, &mut out);
    push_rank_desc(images, 0, &mut out);
    proof {
        let ranks = image_ranks(images@);
        let n = images.len() as nat;
        assert(out@.map_values(|i: usize| i as nat) =~= Seq::<nat>::empty() + of_rank_desc(
            ranks,
            4,
            n,
        ) + of_rank_desc(ranks, 3, n) + of_rank_desc(ranks, 2, n) + of_rank_desc(ranks, 1, n)
            + of_rank_desc(ranks, 0, n));
    }
    out
}

/// Why reading or writing the metadata store failed.
#[derive(Debug)]
pub enum Error {
    /// Stored bytes are not a document.
    BytesToDocError,
    /// A document is not metadata of the expected kind.
    DocToMetaError,
    /// Metadata could not be made into a document.
    MetaToDocError,
    /// A document could not be written out as bytes.
    DocToBytesError,
    /// The database reported an error, with its message.
    DbError(String),
    /// Not enough is known of the album or artist to find it.
    InsufficientKey,
}

/// A stored album record: its document's bytes.
#[derive(Debug)]
pub struct AlbumMetaRow {
    pub data: Vec<u8>,
}

/// A stored artist record: its document's bytes.
#[derive(Debug)]
pub struct ArtistMetaRow {
    pub data: Vec<u8>,
}

/// A stored lyrics record: the text and whether it is synced.
#[derive(Debug)]
pub struct LyricsRow {
    pub lyrics: String,
    pub synced: bool,
}

impl LyricsRow {
    /// Plain lyrics of a record that is not synced; a synced record is read
    /// with its timestamps by the caller, so none is given for it.
    pub fn plain_lyrics(&self) -> (res: Option<Lyrics>)
        ensures
            self.synced ==> res is None,
            !self.synced ==> res is Some && views(res->0.lines@) == split_on(self.lyrics@, '\n')
                && !res->0.synced,
    {
        if self.synced {
            None
        } else {
            match Lyrics::try_from_plain_lrclib_str(self.lyrics.as_str()) {
                Ok(l) => Some(l),
                Err(_) => None,
            }
        }
    }
}

/// What is done to bring a cover into memory, in order.
#[derive(Debug, PartialEq, Eq)]
pub enum CoverRequest {
    /// The cover is already in memory: tell the views that it is there.
    NotifyDownloaded(String),
    /// Load this stored file into memory in the background, then tell the
    /// views.
    LoadFromDisk(String),
    /// Queue a download from the daemon into these files (full size, then
    /// thumbnail); the flag is the queue's priority.
    QueueMpdDownload { full: String, thumbnail: String, high_priority: bool },
    /// Ask the metadata worker for the album's metadata.
    AskAlbumMeta,
    /// Ask the metadata worker for the cover, into these files.
    AskAlbumArt { full: String, thumbnail: String },
}

/// Making sure a folder's cover is cached: in memory it is only announced;
/// else the stored file of the asked size is loaded; else it is downloaded
/// from the daemon when that is allowed, at normal priority; else the
/// providers are asked, first for the album's metadata and then for the
/// cover. The files are the cover's cache file names, full size and
/// thumbnail.
pub fn ensure_cached_album_art(
    folder_uri: &str,
    thumbnail: bool,
    in_memory: bool,
    full_on_disk: bool,
    thumbnail_on_disk: bool,
    mpd_download_allowed: bool,
) -> (res: Vec<CoverRequest>)
    requires
        base64_len_fits(folder_uri.spec_bytes().len()),
    ensures
        in_memory ==> res@.len() == 1 && (res@[0] matches CoverRequest::NotifyDownloaded(u) && u@
            == folder_uri@),
        !in_memory && (if thumbnail {
            thumbnail_on_disk
        } else {
            full_on_disk
        }) ==> res@.len() == 1 && (res@[0] matches CoverRequest::LoadFromDisk(f) && f@
            == url_safe_base64(folder_uri.spec_bytes()) + image_suffix(thumbnail)),
        !in_memory && !(if thumbnail {
            thumbnail_on_disk
        } else {
            full_on_disk
        }) && mpd_download_allowed ==> res@.len() == 1 && (res@[0] matches CoverRequest::QueueMpdDownload { full, thumbnail: t, high_priority }
            && full@ == url_safe_base64(folder_uri.spec_bytes()) + image_suffix(false) && t@
            == url_safe_base64(folder_uri.spec_bytes()) + image_suffix(true) && !high_priority),
        !in_memory && !(if thumbnail {
            thumbnail_on_disk
        } else {
            full_on_disk
        }) && !mpd_download_allowed ==> res@.len() == 2 && res@[0] is AskAlbumMeta
            && (res@[1] matches CoverRequest::AskAlbumArt { full, thumbnail: t } && full@
            == url_safe_base64(folder_uri.spec_bytes()) + image_suffix(false) && t@
            == url_safe_base64(folder_uri.spec_bytes()) + image_suffix(true)),
{
    let on_disk = if thumbnail {
        thumbnail_on_disk
    } else {
        full_on_disk
    };
    let mut res: Vec<CoverRequest> = Vec::new();
    match album_art_plan(in_memory, on_disk, mpd_download_allowed) {
        AlbumArtPlan::NotifyCached => {
            res.push(CoverRequest::NotifyDownloaded(folder_uri.to_owned()));
        },
        AlbumArtPlan::LoadFromDisk => {
            res.push(CoverRequest::LoadFromDisk(cache_file_name(folder_uri, thumbnail)));
        },
        AlbumArtPlan::DownloadFromMpd => {
            let full = cache_file_name(folder_uri, false);
            let thumb = cache_file_name(folder_uri, true);
            res.push(CoverRequest::QueueMpdDownload { full, thumbnail: thumb, high_priority: false });
        },
        AlbumArtPlan::FetchRemote => {
            res = on_album_art_not_available(folder_uri);
        },
    }
    res
}

/// The daemon has no cover for the folder: the metadata worker is asked for
/// the album's metadata first, then for the cover, into the cover's cache
/// files (full size, then thumbnail).
pub fn on_album_art_not_available(folder_uri: &str) -> (res: Vec<CoverRequest>)
    requires
        base64_len_fits(folder_uri.spec_bytes().len()),
    ensures
        res@.len() == 2,
        res@[0] is AskAlbumMeta,
        res@[1] matches CoverRequest::AskAlbumArt { full, thumbnail: t } && full@ == url_safe_base64(
            folder_uri.spec_bytes(),
        ) + image_suffix(false) && t@ == url_safe_base64(folder_uri.spec_bytes()) + image_suffix(
            true,
        ),
{
    let full = cache_file_name(folder_uri, false);
    let thumb = cache_file_name(folder_uri, true);
    let mut res: Vec<CoverRequest> = Vec::new();
    res.push(CoverRequest::AskAlbumMeta);
    res.push(CoverRequest::AskAlbumArt { full, thumbnail: thumb });
    res
}

/// The covers to make sure of for a list of albums, by their folder URIs:
/// each folder once, at its first occurrence, and as a thumbnail, the only
/// size that the daemon offers here. The result pairs each position with the
/// size asked for (`true` for the thumbnail).
pub fn ensure_cached_album_arts(uris: &Vec<String>) -> (res: Vec<(usize, bool)>)
    ensures
        res@.map_values(|p: (usize, bool)| p.0 as nat) == first_occurrences(
            uris@.map_values(|s: String| s@),
            uris.len() as nat,
        ),
        forall|k: int| 0 <= k < res@.len() ==> #[trigger] res@[k].1,
{
    let positions = unique_folder_positions(uris);
    let mut res: Vec<(usize, bool)> = Vec::new();
    let mut k: usize = 0;
    while k < positions.len()
        invariant
            k <= positions.len(),
            res@.len() == k,
            forall|j: int| 0 <= j < k ==> #[trigger] res@[j] == (positions@[j], true),
        decreases positions.len() - k,
    {
        res.push((positions[k], true));
        k = k + 1;
    }
    proof {
        assert(res@.map_values(|p: (usize, bool)| p.0 as nat) =~= positions@.map_values(
            |i: usize| i as nat,
        ));
    }
    res
}

/// Looking up a track's cover: the track's own record first.
pub enum CoverLookup {
    /// The lookup is over with this result.
    Finished(Result<Option<String>, Error>),
    /// Nothing is stored for the track: look up its folder.
    TryFolder(String),
}

/// The next step after the lookup under the track's URI: a file name or an
/// error ends the lookup as it came; nothing found moves on to the folder.
/// The folder's answer is then the result as it comes.
pub fn find_cover_by_uri(track_uri: &str, by_track: Result<Option<String>, Error>) -> (res:
    CoverLookup)
    ensures
        match by_track {
            Ok(None) => res matches CoverLookup::TryFolder(f) && f@ == folder_of(track_uri@),
            _ => res matches CoverLookup::Finished(r) && r == by_track,
        },
{
    match by_track {
        Ok(None) => CoverLookup::TryFolder(strip_filename_linux(track_uri).to_owned()),
        other => CoverLookup::Finished(other),
    }
}

/// Why no image could be had from a list of image links.
#[derive(Debug, Clone, Copy, PartialEq, Eq, Structural)]
pub enum BestImageError {
    /// The list is empty.
    NoImages,
    /// None of the images could be downloaded and read.
    NoneDownloaded,
}

impl BestImageError {
    /// The message shown for the error.
    pub fn message(&self) -> (res: String)
        ensures
            *self == BestImageError::NoImages ==> res@
                == "This album's metadata does not provide any image."@,
            *self == BestImageError::NoneDownloaded ==> res@
                == "This album's metadata provided image URLs but none of them could be downloaded."@,
    {
        match self {
            BestImageError::NoImages => "This album's metadata does not provide any image.".to_owned(),
            BestImageError::NoneDownloaded => "This album's metadata provided image URLs but none of them could be downloaded.".to_owned(),
        }
    }
}

/// Where the search for the best image stands.
#[derive(Debug, Clone, Copy, PartialEq, Eq, Structural)]
pub enum BestImageStep {
    /// Download and read the image at this position next.
    Try(usize),
    /// The image at this position was the first to download and read.
    Found(usize),
    Failed(BestImageError),
}

/// The position of the first `true`.
pub open spec fn first_true(s: Seq<bool>) -> Option<nat>
    decreases s.len(),
{
    if s.len() == 0 {
        None
    } else if s.last() {
        match first_true(s.drop_last()) {
            Some(k) => Some(k),
            None => Some((s.len() - 1) as nat),
        }
    } else {
        first_true(s.drop_last())
    }
}

/// Picking the best image of a list: the images are tried largest first (see
/// `download_order`), and the first one that downloads and reads is taken.
/// `outcomes` says, for the images tried so far in that order, whether each
/// one did; the result says which to try next, or how the search ended.
pub fn get_best_image(images: &Vec<ImageMeta>, outcomes: &Vec<bool>) -> (res: BestImageStep)
    requires
        outcomes.len() <= images.len(),
    ensures
        images.len() == 0 ==> res == BestImageStep::Failed(BestImageError::NoImages),
        images.len() > 0 ==> match first_true(outcomes@) {
            Some(k) => res == BestImageStep::Found(
                download_order(image_ranks(images@))[k as int] as usize,
            ),
            None => if outcomes.len() < images.len() {
                res == BestImageStep::Try(
                    download_order(image_ranks(images@))[outcomes.len() as int] as usize,
                )
            } else {
                res == BestImageStep::Failed(BestImageError::NoneDownloaded)
            },
        },
{
    if images.len() == 0 {
        return BestImageStep::Failed(BestImageError::NoImages);
    }
    let order = image_download_order(images);
    proof {
        lemma_download_order_len(image_ranks(images@));
        assert(order@.len() == images.len());
    }
    let mut k: usize = 0;
    while k < outcomes.len()
        invariant
            k <= outcomes.len(),
            outcomes.len() <= images.len(),
            order@.len() == images.len(),
            order@.map_values(|i: usize| i as nat) == download_order(image_ranks(images@)),
            first_true(outcomes@.subrange(0, k as int)) is None,
        decreases outcomes.len() - k,
    {
        proof {
            assert(outcomes@.subrange(0, k + 1).drop_last() =~= outcomes@.subrange(0, k as int));
        }
        if outcomes[k] {
            proof {
                lemma_first_true_prefix(outcomes@, (k + 1) as nat);
                assert(order@.map_values(|i: usize| i as nat)[k as int] == order@[k as int] as nat);
            }
            return BestImageStep::Found(order[k]);
        }
        k = k + 1;
    }
    proof {
        assert(outcomes@.subrange(0, outcomes.len() as int) =~= outcomes@);
    }
    if outcomes.len() < images.len() {
        proof {
            let n = outcomes.len() as int;
            assert(order@.map_values(|i: usize| i as nat)[n] == order@[n] as nat);
        }
        BestImageStep::Try(order[outcomes.len()])
    } else {
        BestImageStep::Failed(BestImageError::NoneDownloaded)
    }
}

/// A `true` at `n - 1` after none before it is the first one.
proof fn lemma_first_true_prefix(s: Seq<bool>, n: nat)
    requires
        0 < n <= s.len(),
        first_true(s.subrange(0, n - 1)) is None,
        s[n - 1],
    ensures
        forall|m: nat| n <= m <= s.len() ==> first_true(#[trigger] s.subrange(0, m as int)) == Some((n - 1) as nat),
    decreases s.len() - n,
{
    assert forall|m: nat| n <= m <= s.len() implies first_true(#[trigger] s.subrange(0, m as int)) == Some((n - 1) as nat) by {
        lemma_first_true_extend(s, n, m);
    }
}

proof fn lemma_first_true_extend(s: Seq<bool>, n: nat, m: nat)
    requires
        0 < n <= m <= s.len(),
        first_true(s.subrange(0, n - 1)) is None,
        s[n - 1],
    ensures
        first_true(s.subrange(0, m as int)) == Some((n - 1) as nat),
    decreases m,
{
    if m == n {
        assert(s.subrange(0, m as int).drop_last() =~= s.subrange(0, n - 1));
    } else {
        lemma_first_true_extend(s, n, (m - 1) as nat);
        assert(s.subrange(0, m as int).drop_last() =~= s.subrange(0, m - 1));
    }
}

/// Every image has a place in the download order.
proof fn lemma_download_order_len(ranks: Seq<nat>)
    requires
        forall|i: int| 0 <= i < ranks.len() ==> ranks[i] <= 4,
    ensures
        download_order(ranks).len() == ranks.len(),
{
    lemma_rank_counts(ranks, ranks.len());
}

/// The positions of each rank among the first `upto` add up to `upto`.
proof fn lemma_rank_counts(ranks: Seq<nat>, upto: nat)
    requires
        upto <= ranks.len(),
        forall|i: int| 0 <= i < ranks.len() ==> ranks[i] <= 4,
    ensures
        of_rank_desc(ranks, 4, upto).len() + of_rank_desc(ranks, 3, upto).len() + of_rank_desc(
            ranks,
            2,
            upto,
        ).len() + of_rank_desc(ranks, 1, upto).len() + of_rank_desc(ranks, 0, upto).len() == upto,
    decreases upto,
{
    if upto > 0 {
        lemma_rank_counts(ranks, (upto - 1) as nat);
    }
}

/// Positions listed largest size first, and among equal sizes the later
/// position first.
pub open spec fn largest_first(ranks: Seq<nat>, o: Seq<nat>) -> bool {
    forall|i: int, j: int|
        0 <= i < j < o.len() ==> ranks[o[i] as int] > ranks[o[j] as int] || (ranks[o[i] as int]
            == ranks[o[j] as int] && o[i] > o[j])
}

/// The positions of one rank: each below `upto` and of that rank, the later
/// first, and every such position among them.
proof fn lemma_of_rank_desc(ranks: Seq<nat>, r: nat, upto: nat)
    requires
        upto <= ranks.len(),
    ensures
        forall|k: int|
            0 <= k < of_rank_desc(ranks, r, upto).len() ==> #[trigger] of_rank_desc(ranks, r, upto)[k]
                < upto && ranks[of_rank_desc(ranks, r, upto)[k] as int] == r,
        forall|i: int, j: int|
            0 <= i < j < of_rank_desc(ranks, r, upto).len() ==> #[trigger] of_rank_desc(
                ranks,
                r,
                upto,
            )[i] > #[trigger] of_rank_desc(ranks, r, upto)[j],
        forall|e: nat| e < upto && ranks[e as int] == r ==> #[trigger] of_rank_desc(ranks, r, upto).contains(e),
    decreases upto,
{
    if upto > 0 {
        lemma_of_rank_desc(ranks, r, (upto - 1) as nat);
        let rest = of_rank_desc(ranks, r, (upto - 1) as nat);
        let s = of_rank_desc(ranks, r, upto);
        if ranks[upto - 1] == r {
            assert(s == seq![(upto - 1) as nat] + rest);
            assert forall|k: int| 0 <= k < s.len() implies #[trigger] s[k] < upto && ranks[s[k] as int] == r by {
                if k > 0 {
                    assert(s[k] == rest[k - 1]);
                }
            }
            assert forall|i: int, j: int| 0 <= i < j < s.len() implies #[trigger] s[i] > #[trigger] s[j] by {
                assert(s[j] == rest[j - 1]);
                if i > 0 {
                    assert(s[i] == rest[i - 1]);
                }
            }
            assert forall|e: nat| e < upto && ranks[e as int] == r implies #[trigger] s.contains(e) by {
                if e == upto - 1 {
                    assert(s[0] == e);
                } else {
                    assert(rest.contains(e));
                    let k = choose|k: int| 0 <= k < rest.len() && rest[k] == e;
                    assert(s[k + 1] == e);
                }
            }
        } else {
            assert forall|e: nat| e < upto && ranks[e as int] == r implies #[trigger] s.contains(e) by {
                assert(rest.contains(e));
            }
        }
    }
}

/// Two runs listed largest first, the first all of larger sizes than the
/// second, are listed largest first one after the other.
proof fn lemma_largest_first_concat(ranks: Seq<nat>, a: Seq<nat>, b: Seq<nat>, r: nat)
    requires
        largest_first(ranks, a),
        largest_first(ranks, b),
        forall|k: int| 0 <= k < a.len() ==> ranks[#[trigger] a[k] as int] > r,
        forall|k: int| 0 <= k < b.len() ==> ranks[#[trigger] b[k] as int] <= r,
    ensures
        largest_first(ranks, a + b),
{
    let c = a + b;
    assert forall|i: int, j: int| 0 <= i < j < c.len() implies ranks[c[i] as int] > ranks[c[j] as int] || (ranks[c[i] as int]
            == ranks[c[j] as int] && c[i] > c[j]) by {
        if j < a.len() {
            assert(c[i] == a[i] && c[j] == a[j]);
        } else if i >= a.len() {
            assert(c[i] == b[i - a.len()] && c[j] == b[j - a.len()]);
        } else {
            assert(c[i] == a[i] && c[j] == b[j - a.len()]);
        }
    }
}

/// The images are tried largest first, and among images of the same size
/// the one listed last first; each image is tried exactly once.
pub proof fn lemma_download_order_largest_first(ranks: Seq<nat>)
    requires
        forall|i: int| 0 <= i < ranks.len() ==> ranks[i] <= 4,
    ensures
        largest_first(ranks, download_order(ranks)),
        download_order(ranks).len() == ranks.len(),
        forall|k: int| 0 <= k < download_order(ranks).len() ==> #[trigger] download_order(ranks)[k] < ranks.len(),
        forall|e: nat| e < ranks.len() ==> #[trigger] download_order(ranks).contains(e),
{
    let n = ranks.len();
    lemma_download_order_len(ranks);
    let s4 = of_rank_desc(ranks, 4, n);
    let s3 = of_rank_desc(ranks, 3, n);
    let s2 = of_rank_desc(ranks, 2, n);
    let s1 = of_rank_desc(ranks, 1, n);
    let s0 = of_rank_desc(ranks, 0, n);
    lemma_of_rank_desc(ranks, 4, n);
    lemma_of_rank_desc(ranks, 3, n);
    lemma_of_rank_desc(ranks, 2, n);
    lemma_of_rank_desc(ranks, 1, n);
    lemma_of_rank_desc(ranks, 0, n);
    assert forall|r: nat| r <= 4 implies #[trigger] largest_first(ranks, of_rank_desc(ranks, r, n)) by {
        lemma_of_rank_desc(ranks, r, n);
        let s = of_rank_desc(ranks, r, n);
        assert forall|i: int, j: int| 0 <= i < j < s.len() implies ranks[s[i] as int] > ranks[s[j] as int] || (ranks[s[i] as int]
            == ranks[s[j] as int] && s[i] > s[j]) by {
            assert(s[i] > s[j]);
        }
    }
    assert(largest_first(ranks, s4));
    assert(largest_first(ranks, s3));
    assert(largest_first(ranks, s2));
    assert(largest_first(ranks, s1));
    assert(largest_first(ranks, s0));
    lemma_largest_first_concat(ranks, s4, s3, 3);
    let a3 = s4 + s3;
    assert forall|k: int| 0 <= k < a3.len() implies ranks[#[trigger] a3[k] as int] > 2 by {
        if k < s4.len() { assert(a3[k] == s4[k]); } else { assert(a3[k] == s3[k - s4.len()]); }
    }
    lemma_largest_first_concat(ranks, a3, s2, 2);
    let a2 = a3 + s2;
    assert forall|k: int| 0 <= k < a2.len() implies ranks[#[trigger] a2[k] as int] > 1 by {
        if k < a3.len() { assert(a2[k] == a3[k]); } else { assert(a2[k] == s2[k - a3.len()]); }
    }
    lemma_largest_first_concat(ranks, a2, s1, 1);
    let a1 = a2 + s1;
    assert forall|k: int| 0 <= k < a1.len() implies ranks[#[trigger] a1[k] as int] > 0 by {
        if k < a2.len() { assert(a1[k] == a2[k]); } else { assert(a1[k] == s1[k - a2.len()]); }
    }
    assert forall|k: int| 0 <= k < s0.len() implies ranks[#[trigger] s0[k] as int] <= 0 by {
    }
    lemma_largest_first_concat(ranks, a1, s0, 0);
    let o = a1 + s0;
    assert(o == download_order(ranks));
    assert forall|k: int| 0 <= k < o.len() implies #[trigger] o[k] < n by {
        if k < a1.len() {
            assert(o[k] == a1[k]);
            if k < a2.len() {
                assert(a1[k] == a2[k]);
                if k < a3.len() {
                    assert(a2[k] == a3[k]);
                    if k < s4.len() { assert(a3[k] == s4[k]); } else { assert(a3[k] == s3[k - s4.len()]); }
                } else {
                    assert(a2[k] == s2[k - a3.len()]);
                }
            } else {
                assert(a1[k] == s1[k - a2.len()]);
            }
        } else {
            assert(o[k] == s0[k - a1.len()]);
        }
    }
    assert forall|e: nat| e < n implies #[trigger] o.contains(e) by {
        let r = ranks[e as int];
        assert(of_rank_desc(ranks, r, n).contains(e));
        if r == 4 {
            let k = choose|k: int| 0 <= k < s4.len() && s4[k] == e;
            assert(o[k] == e);
        } else if r == 3 {
            let k = choose|k: int| 0 <= k < s3.len() && s3[k] == e;
            assert(o[s4.len() + k] == e);
        } else if r == 2 {
            let k = choose|k: int| 0 <= k < s2.len() && s2[k] == e;
            assert(o[a3.len() + k] == e);
        } else if r == 1 {
            let k = choose|k: int| 0 <= k < s1.len() && s1[k] == e;
            assert(o[a2.len() + k] == e);
        } else {
            let k = choose|k: int| 0 <= k < s0.len() && s0[k] == e;
            assert(o[a1.len() + k] == e);
        }
    }
}

/// Whether the text at `i` is the text at one of the positions `r`.
pub open spec fn represented(uris: Seq<Seq<char>>, r: Seq<nat>, i: int) -> bool {
    exists|k: int| 0 <= k < r.len() && uris[r[k] as int] == uris[i]
}

/// The positions of first occurrences name each distinct text once: they
/// rise, each is the first place its text occurs, and every text among the
/// first `upto` occurs at one of them.
pub proof fn lemma_first_occurrences(uris: Seq<Seq<char>>, upto: nat)
    requires
        upto <= uris.len(),
    ensures
        forall|k: int|
            0 <= k < first_occurrences(uris, upto).len() ==> #[trigger] first_occurrences(uris, upto)[k]
                < upto,
        forall|k: int, j: int|
            0 <= k < first_occurrences(uris, upto).len() && 0 <= j < first_occurrences(uris, upto)[k]
                ==> #[trigger] uris[j] != uris[#[trigger] first_occurrences(uris, upto)[k] as int],
        forall|k1: int, k2: int|
            0 <= k1 < k2 < first_occurrences(uris, upto).len() ==> #[trigger] first_occurrences(
                uris,
                upto,
            )[k1] < #[trigger] first_occurrences(uris, upto)[k2],
        forall|i: int| 0 <= i < upto ==> #[trigger] represented(uris, first_occurrences(uris, upto), i),
    decreases upto,
{
    if upto > 0 {
        let n = (upto - 1) as nat;
        lemma_first_occurrences(uris, n);
        let prev = first_occurrences(uris, n);
        let r = first_occurrences(uris, upto);
        if exists|j: int| 0 <= j < n && #[trigger] uris[j] == uris[n as int] {
            assert(r == prev);
            assert forall|i: int| 0 <= i < upto implies #[trigger] represented(uris, r, i) by {
                if i == n {
                    let j = choose|j: int| 0 <= j < n && #[trigger] uris[j] == uris[n as int];
                    assert(represented(uris, prev, j));
                    let k = choose|k: int| 0 <= k < prev.len() && uris[prev[k] as int] == uris[j];
                    assert(uris[r[k] as int] == uris[i]);
                } else {
                    assert(represented(uris, prev, i));
                    let k = choose|k: int| 0 <= k < prev.len() && uris[prev[k] as int] == uris[i];
                    assert(uris[r[k] as int] == uris[i]);
                }
            }
        } else {
            assert(r == prev.push(n));
            assert forall|k: int| 0 <= k < r.len() implies #[trigger] r[k] < upto by {
                if k < prev.len() {
                    assert(r[k] == prev[k]);
                }
            }
            assert forall|k: int, j: int| 0 <= k < r.len() && 0 <= j < r[k] implies #[trigger] uris[j]
                != uris[#[trigger] r[k] as int] by {
                if k < prev.len() {
                    assert(r[k] == prev[k]);
                }
            }
            assert forall|k1: int, k2: int| 0 <= k1 < k2 < r.len() implies #[trigger] r[k1]
                < #[trigger] r[k2] by {
                assert(r[k1] == prev[k1]);
                if k2 < prev.len() {
                    assert(r[k2] == prev[k2]);
                }
            }
            assert forall|i: int| 0 <= i < upto implies #[trigger] represented(uris, r, i) by {
                if i == n {
                    assert(r[prev.len() as int] == n);
                } else {
                    assert(represented(uris, prev, i));
                    let k = choose|k: int| 0 <= k < prev.len() && uris[prev[k] as int] == uris[i];
                    assert(r[k] == prev[k]);
                }
            }
        }
    }
}

/// `first_true` finds the first `true`: at the position it gives the value
/// is `true` and before it all are `false`; when it gives none, all are
/// `false`.
pub proof fn lemma_first_true(s: Seq<bool>)
    ensures
        first_true(s) matches Some(k) ==> k < s.len() && s[k as int] && forall|i: int|
            0 <= i < k ==> !#[trigger] s[i],
        first_true(s) is None ==> forall|i: int| 0 <= i < s.len() ==> !#[trigger] s[i],
    decreases s.len(),
{
    if s.len() > 0 {
        let d = s.drop_last();
        lemma_first_true(d);
        assert forall|i: int| 0 <= i < d.len() implies d[i] == s[i] by {}
    }
}

} // verus!
