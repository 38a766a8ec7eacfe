//! The metadata providers' shared logic: the chain that asks them in turn,
//! the queries sent to each, and how their answers become metadata.
use vstd::prelude::*;
use vstd::string::*;
use crate::meta::{AlbumMeta, ArtistMeta, ArtistType, CalendarDate, Tag, Merge, merged_album};
use crate::song::clone_opt;
use crate::album::AlbumInfo;
use crate::artist::ArtistInfo;
use crate::lyrics::Lyrics;
use crate::text::str_eq;

verus! {

/// The providers this player knows.
#[derive(Debug, Clone, Copy, PartialEq, Eq, Structural)]
pub enum ProviderKind {
    MusicBrainz,
    Lastfm,
    LrcLib,
}

/// The provider of a settings key; unknown keys have none.
pub fn get_provider(key: &str) -> (res: Option<ProviderKind>)
    ensures
        key@ == "musicbrainz"@ ==> res == Some(ProviderKind::MusicBrainz),
        key@ == "lastfm"@ ==> res == Some(ProviderKind::Lastfm),
        key@ == "lrclib"@ ==> res == Some(ProviderKind::LrcLib),
        key@ != "musicbrainz"@ && key@ != "lastfm"@ && key@ != "lrclib"@ ==> res is None,
{
    proof {
        reveal_strlit("musicbrainz");
        reveal_strlit("lastfm");
        reveal_strlit("lrclib");
        assert("musicbrainz"@.len() != "lastfm"@.len());
        assert("musicbrainz"@.len() != "lrclib"@.len());
        assert("lastfm"@[1] != "lrclib"@[1]);
    }
    if str_eq(key, "musicbrainz") {
        Some(ProviderKind::MusicBrainz)
    } else if str_eq(key, "lastfm") {
        Some(ProviderKind::Lastfm)
    } else if str_eq(key, "lrclib") {
        Some(ProviderKind::LrcLib)
    } else {
        None
    }
}

/// The provider of a known settings key.
pub open spec fn provider_of(key: Seq<char>) -> ProviderKind {
    if key == "musicbrainz"@ {
        ProviderKind::MusicBrainz
    } else if key == "lastfm"@ {
        ProviderKind::Lastfm
    } else {
        ProviderKind::LrcLib
    }
}

/// The key names a provider this player knows.
pub open spec fn known_provider(key: Seq<char>) -> bool {
    key == "musicbrainz"@ || key == "lastfm"@ || key == "lrclib"@
}

/// The provider chain in the configured order: each provider with its
/// position as its priority (0 first).
pub fn provider_chain(order: &Vec<String>) -> (res: Vec<(ProviderKind, u32)>)
    requires
        order.len() <= u32::MAX,
        forall|k: int| 0 <= k < order.len() ==> known_provider(#[trigger] order[k]@),
    ensures
        res.len() == order.len(),
        forall|k: int|
            0 <= k < res.len() ==> #[trigger] res[k] == (provider_of(order[k]@), k as u32),
{
    proof {
        reveal_strlit("musicbrainz");
        reveal_strlit("lastfm");
        reveal_strlit("lrclib");
        assert("musicbrainz"@.len() != "lastfm"@.len());
        assert("musicbrainz"@.len() != "lrclib"@.len());
        assert("lastfm"@[1] != "lrclib"@[1]);
    }
    let mut out: Vec<(ProviderKind, u32)> = Vec::new();
    let mut i: usize = 0;
    while i < order.len()
        invariant
            i <= order.len(),
            order.len() <= u32::MAX,
            forall|k: int| 0 <= k < order.len() ==> known_provider(#[trigger] order[k]@),
            out.len() == i,
            forall|k: int| 0 <= k < i ==> #[trigger] out[k] == (provider_of(order[k]@), k as u32),
            "musicbrainz"@.len() != "lastfm"@.len(),
            "musicbrainz"@.len() != "lrclib"@.len(),
            "lastfm"@ != "lrclib"@,
        decreases order.len() - i,
    {
        let kind = match get_provider(order[i].as_str()) {
            Some(k) => k,
            None => ProviderKind::LrcLib,
        };
        proof {
            assert(known_provider(order@[i as int]@));
        }
        out.push((kind, i as u32));
        i = i + 1;
    }
    out
}

/// The chain passes what a provider found to the next ones: an id found by
/// one is added to the key when the key has none.
pub fn update_key_mbid(key_mbid: &mut Option<String>, found: &Option<String>)
    ensures
        (*old(key_mbid)) is None && found is Some ==> *final(key_mbid) == *found,
        !((*old(key_mbid)) is None && found is Some) ==> *final(key_mbid) == *old(key_mbid),
{
    if key_mbid.is_none() {
        match found {
            Some(id) => {
                *key_mbid = Some(id.clone());
            },
            None => {},
        }
    }
}

/// The id of an optional album answer.
pub fn album_answer_mbid(meta: &Option<AlbumMeta>) -> (res: Option<String>)
    ensures
        match meta {
            Some(m) => res == m.mbid,
            None => res is None,
        },
{
    match meta {
        Some(m) => clone_opt(&m.mbid),
        None => None,
    }
}

/// The id of an optional artist answer.
pub fn artist_answer_mbid(meta: &Option<ArtistMeta>) -> (res: Option<String>)
    ensures
        match meta {
            Some(m) => res == m.mbid,
            None => res is None,
        },
{
    match meta {
        Some(m) => clone_opt(&m.mbid),
        None => None,
    }
}

/// What the provider chain does next: ask the provider at this position,
/// passing it what the earlier ones found, or end with this answer.
#[derive(Debug)]
pub enum ChainStep<M> {
    Ask(usize, Option<M>),
    Done(Option<M>),
}

/// The id a key holds after an answer: its own, or the answer's when it has
/// none.
pub open spec fn key_mbid_after(key_mbid: Option<String>, found: Option<String>) -> Option<String> {
    if key_mbid is None && found is Some {
        found
    } else {
        key_mbid
    }
}

/// The id of an optional album answer.
pub open spec fn album_mbid(a: Option<AlbumMeta>) -> Option<String> {
    match a {
        Some(m) => m.mbid,
        None => None,
    }
}

/// The id of an optional artist answer.
pub open spec fn artist_mbid(a: Option<ArtistMeta>) -> Option<String> {
    match a {
        Some(m) => m.mbid,
        None => None,
    }
}

/// The step after a provider answered: the next one is asked with the
/// answer, or, after the last, the chain ends with it.
pub open spec fn chain_next<M>(next: nat, n_providers: nat, answer: Option<M>) -> ChainStep<M> {
    if next + 1 < n_providers {
        ChainStep::Ask((next + 1) as usize, answer)
    } else {
        ChainStep::Done(answer)
    }
}

/// Asking the providers in turn for an album's metadata, each given what
/// the ones before found; the key takes the first id that an answer brings.
pub struct AlbumChain {
    key: AlbumInfo,
    next: usize,
    n_providers: usize,
}

impl AlbumChain {
    /// The key as the answers so far left it.
    pub closed spec fn spec_key(&self) -> AlbumInfo {
        self.key
    }

    /// The key as the answers so far left it.
    pub fn key(&self) -> (res: &AlbumInfo)
        ensures
            *res == self.spec_key(),
    {
        &self.key
    }

    /// The position of the provider being asked.
    pub closed spec fn spec_next(&self) -> nat {
        self.next as nat
    }

    pub closed spec fn spec_n_providers(&self) -> nat {
        self.n_providers as nat
    }

    /// The first provider is asked with what is already known; with no
    /// providers the chain ends with it.
    pub fn start(key: AlbumInfo, n_providers: usize, existing: Option<AlbumMeta>) -> (res: (
        AlbumChain,
        ChainStep<AlbumMeta>,
    ))
        ensures
            res.0.spec_key() == key,
            res.0.spec_next() == 0,
            res.0.spec_n_providers() == n_providers,
            n_providers == 0 ==> res.1 == ChainStep::Done(existing),
            n_providers > 0 ==> res.1 == ChainStep::Ask(0, existing),
    {
        let step = if n_providers == 0 {
            ChainStep::Done(existing)
        } else {
            ChainStep::Ask(0, existing)
        };
        (AlbumChain { key, next: 0, n_providers }, step)
    }

    /// The provider being asked answered: the key takes the answer's id when
    /// it has none, and the chain moves on (see `chain_next`).
    pub fn on_answer(&mut self, answer: Option<AlbumMeta>) -> (res: ChainStep<AlbumMeta>)
        ensures
            final(self).spec_key() == (AlbumInfo {
                mbid: key_mbid_after(old(self).spec_key().mbid, album_mbid(answer)),
                ..old(self).spec_key()
            }),
            final(self).spec_n_providers() == old(self).spec_n_providers(),
            old(self).spec_next() + 1 < old(self).spec_n_providers() ==> final(self).spec_next()
                == old(self).spec_next() + 1,
            res == chain_next(old(self).spec_next(), old(self).spec_n_providers(), answer),
    {
        let found = album_answer_mbid(&answer);
        update_key_mbid(&mut self.key.mbid, &found);
        if self.n_providers > 0 && self.next < self.n_providers - 1 {
            self.next = self.next + 1;
            ChainStep::Ask(self.next, answer)
        } else {
            ChainStep::Done(answer)
        }
    }
}

/// Asking the providers in turn for an artist's metadata, as for albums.
pub struct ArtistChain {
    key: ArtistInfo,
    next: usize,
    n_providers: usize,
}

impl ArtistChain {
    /// The key as the answers so far left it.
    pub closed spec fn spec_key(&self) -> ArtistInfo {
        self.key
    }

    /// The key as the answers so far left it.
    pub fn key(&self) -> (res: &ArtistInfo)
        ensures
            *res == self.spec_key(),
    {
        &self.key
    }

    pub closed spec fn spec_next(&self) -> nat {
        self.next as nat
    }

    pub closed spec fn spec_n_providers(&self) -> nat {
        self.n_providers as nat
    }

    /// The first provider is asked with what is already known; with no
    /// providers the chain ends with it.
    pub fn start(key: ArtistInfo, n_providers: usize, existing: Option<ArtistMeta>) -> (res: (
        ArtistChain,
        ChainStep<ArtistMeta>,
    ))
        ensures
            res.0.spec_key() == key,
            res.0.spec_next() == 0,
            res.0.spec_n_providers() == n_providers,
            n_providers == 0 ==> res.1 == ChainStep::Done(existing),
            n_providers > 0 ==> res.1 == ChainStep::Ask(0, existing),
    {
        let step = if n_providers == 0 {
            ChainStep::Done(existing)
        } else {
            ChainStep::Ask(0, existing)
        };
        (ArtistChain { key, next: 0, n_providers }, step)
    }

    /// The provider being asked answered: the key takes the answer's id when
    /// it has none, and the chain moves on (see `chain_next`).
    pub fn on_answer(&mut self, answer: Option<ArtistMeta>) -> (res: ChainStep<ArtistMeta>)
        ensures
            final(self).spec_key() == (ArtistInfo {
                mbid: key_mbid_after(old(self).spec_key().mbid, artist_mbid(answer)),
                ..old(self).spec_key()
            }),
            final(self).spec_n_providers() == old(self).spec_n_providers(),
            old(self).spec_next() + 1 < old(self).spec_n_providers() ==> final(self).spec_next()
                == old(self).spec_next() + 1,
            res == chain_next(old(self).spec_next(), old(self).spec_n_providers(), answer),
    {
        let found = artist_answer_mbid(&answer);
        update_key_mbid(&mut self.key.mbid, &found);
        if self.n_providers > 0 && self.next < self.n_providers - 1 {
            self.next = self.next + 1;
            ChainStep::Ask(self.next, answer)
        } else {
            ChainStep::Done(answer)
        }
    }
}

/// The lyrics chain after the provider at `next` answered: the first
/// lyrics found end it; otherwise the next provider is asked, and after the
/// last the chain ends with none.
pub fn lyrics_chain_step(next: usize, n_providers: usize, answer: Option<Lyrics>) -> (res: ChainStep<
    Lyrics,
>)
    ensures
        answer is Some ==> res == ChainStep::Done(answer),
        answer is None && next + 1 < n_providers ==> res == ChainStep::<Lyrics>::Ask(
            (next + 1) as usize,
            None,
        ),
        answer is None && next + 1 >= n_providers ==> res == ChainStep::<Lyrics>::Done(None),
{
    match answer {
        Some(l) => ChainStep::Done(Some(l)),
        None => if n_providers > 0 && next < n_providers - 1 {
            ChainStep::Ask(next + 1, None)
        } else {
            ChainStep::Done(None)
        },
    }
}

/// Once a key has an id, no answer changes it; a key without one takes the
/// first id that an answer brings.
pub proof fn lemma_key_keeps_first_id(key_mbid: Option<String>, found: Option<String>)
    ensures
        key_mbid is Some ==> key_mbid_after(key_mbid, found) == key_mbid,
        key_mbid is None ==> key_mbid_after(key_mbid, found) == found,
{
}

/// A credited artist of a MusicBrainz release: the name and the text that
/// joins it to the next one.
#[derive(Debug)]
pub struct MbArtistCredit {
    pub name: String,
    pub joinphrase: Option<String>,
}

/// A MusicBrainz tag.
#[derive(Debug)]
pub struct MbTag {
    pub name: String,
    pub count: i32,
}

/// The fields of a MusicBrainz release that are kept.
#[derive(Debug)]
pub struct MbRelease {
    pub id: String,
    pub title: String,
    pub artist_credit: Option<Vec<MbArtistCredit>>,
    pub tags: Option<Vec<MbTag>>,
}

/// MusicBrainz genders.
#[derive(Debug, Clone, Copy, PartialEq, Eq, Structural)]
pub enum MbGender {
    Male,
    Female,
    Other,
    NotApplicable,
}

/// A MusicBrainz life span.
#[derive(Debug, Clone, Copy)]
pub struct MbLifeSpan {
    pub begin: Option<CalendarDate>,
    pub end: Option<CalendarDate>,
    pub ended: Option<bool>,
}

/// The fields of a MusicBrainz artist that are kept.
#[derive(Debug)]
pub struct MbArtist {
    pub id: String,
    pub name: String,
    pub tags: Option<Vec<MbTag>>,
    pub life_span: Option<MbLifeSpan>,
    pub artist_type: Option<ArtistType>,
    pub gender: Option<MbGender>,
    pub country: Option<String>,
}

/// A MusicBrainz tag as a provider tag: its name and count, no address.
pub fn tag_from_mb(t: &MbTag) -> (res: Tag)
    ensures
        res.name@ == t.name@,
        res.count == Some(t.count),
        res.url is None,
{
    Tag { name: t.name.clone(), count: Some(t.count), url: None }
}

/// The tags of an optional MusicBrainz tag list; none when absent.
pub fn tags_from_mb(tags: &Option<Vec<MbTag>>) -> (res: Vec<Tag>)
    ensures
        match tags {
            Some(v) => res.len() == v.len() && forall|k: int|
                0 <= k < v.len() ==> (#[trigger] res[k]).name@ == v[k].name@ && res[k].count
                    == Some(v[k].count) && res[k].url is None,
            None => res.len() == 0,
        },
{
    let mut out: Vec<Tag> = Vec::new();
    match tags {
        Some(v) => {
            let mut i: usize = 0;
            while i < v.len()
                invariant
                    i <= v.len(),
                    out.len() == i,
                    forall|k: int|
                        0 <= k < i ==> (#[trigger] out[k]).name@ == v[k].name@ && out[k].count
                            == Some(v[k].count) && out[k].url is None,
                decreases v.len() - i,
            {
                out.push(tag_from_mb(&v[i]));
                i = i + 1;
            }
        },
        None => {},
    }
    out
}

/// A release's credited artists as one text: each name followed by its join
/// phrase.
pub open spec fn credit_text(credits: Seq<MbArtistCredit>) -> Seq<char>
    decreases credits.len(),
{
    if credits.len() == 0 {
        Seq::empty()
    } else {
        let last = credits.last();
        credit_text(credits.drop_last()) + last.name@ + match last.joinphrase {
            Some(j) => j@,
            None => Seq::empty(),
        }
    }
}

/// Joins a release's credited artists.
pub fn artist_credit_text(credits: &Vec<MbArtistCredit>) -> (res: String)
    ensures
        res@ == credit_text(credits@),
{
    let mut out = String::new();
    let mut i: usize = 0;
    while i < credits.len()
        invariant
            i <= credits.len(),
            out@ == credit_text(credits@.subrange(0, i as int)),
        decreases credits.len() - i,
    {
        let ghost prev = credits@.subrange(0, i as int);
        proof {
            assert(credits@.subrange(0, i + 1).drop_last() =~= prev);
        }
        out.append(credits[i].name.as_str());
        match &credits[i].joinphrase {
            Some(j) => out.append(j.as_str()),
            None => {},
        }
        proof {
            assert(out@ =~= credit_text(credits@.subrange(0, i + 1)));
        }
        i = i + 1;
    }
    proof {
        assert(credits@.subrange(0, credits.len() as int) =~= credits@);
    }
    out
}

/// The MusicBrainz page of an entity.
pub fn mb_url(kind: &str, id: &str) -> (res: String)
    ensures
        res@ == "https://musicbrainz.org/"@ + kind@ + "/"@ + id@,
{
    let mut s = "https://musicbrainz.org/".to_owned();
    s.append(kind);
    s.append("/");
    s.append(id);
    s
}

/// A release as album metadata: its title, its credits as the artist, its
/// id, its tags and its MusicBrainz page; no images or text.
pub fn album_meta_from_release(rel: &MbRelease) -> (res: AlbumMeta)
    ensures
        res.name@ == rel.title@,
        match rel.artist_credit {
            Some(c) => res.artist is Some && res.artist->0@ == credit_text(c@),
            None => res.artist is None,
        },
        res.mbid is Some && res.mbid->0@ == rel.id@,
        res.tags.len() == match rel.tags {
            Some(v) => v.len(),
            None => 0,
        },
        res.image.len() == 0,
        res.url is Some && res.url->0@ == "https://musicbrainz.org/release/"@ + rel.id@,
        res.wiki is None,
{
    let artist = match &rel.artist_credit {
        Some(c) => Some(artist_credit_text(c)),
        None => None,
    };
    let url = mb_url("release", rel.id.as_str());
    proof {
        reveal_strlit("release");
        reveal_strlit("/");
        reveal_strlit("https://musicbrainz.org/");
        reveal_strlit("https://musicbrainz.org/release/");
        assert(url@ =~= "https://musicbrainz.org/release/"@ + rel.id@);
    }
    AlbumMeta {
        name: rel.title.clone(),
        artist,
        mbid: Some(rel.id.clone()),
        tags: tags_from_mb(&rel.tags),
        image: Vec::new(),
        url: Some(url),
        wiki: None,
    }
}

/// The text of a MusicBrainz gender: male, female, other; none for the rest.
pub fn mb_gender_to_str(g: MbGender) -> (res: Option<String>)
    ensures
        g == MbGender::Male ==> res is Some && res->0@ == "male"@,
        g == MbGender::Female ==> res is Some && res->0@ == "female"@,
        g == MbGender::Other ==> res is Some && res->0@ == "other"@,
        g == MbGender::NotApplicable ==> res is None,
{
    match g {
        MbGender::Male => Some("male".to_owned()),
        MbGender::Female => Some("female".to_owned()),
        MbGender::Other => Some("other".to_owned()),
        MbGender::NotApplicable => None,
    }
}

/// The end date kept of a life span: only when it is marked as ended.
pub open spec fn kept_end(span: Option<MbLifeSpan>) -> Option<CalendarDate> {
    match span {
        Some(s) => if s.ended == Some(true) {
            s.end
        } else {
            None
        },
        None => None,
    }
}

/// An artist as artist metadata: name, id, tags, page, kind (`Other` when
/// not given), gender, country, the begin date, and the end date only when
/// the life span has ended.
pub fn artist_meta_from_mb(artist: &MbArtist) -> (res: ArtistMeta)
    ensures
        res.name@ == artist.name@,
        res.mbid is Some && res.mbid->0@ == artist.id@,
        res.tags.len() == match artist.tags {
            Some(v) => v.len(),
            None => 0,
        },
        res.similar.len() == 0,
        res.image.len() == 0,
        res.url is Some && res.url->0@ == "https://musicbrainz.org/artist/"@ + artist.id@,
        res.bio is None,
        res.artist_type == match artist.artist_type {
            Some(t) => t,
            None => ArtistType::Other,
        },
        match artist.gender {
            Some(MbGender::Male) => res.gender is Some && res.gender->0@ == "male"@,
            Some(MbGender::Female) => res.gender is Some && res.gender->0@ == "female"@,
            Some(MbGender::Other) => res.gender is Some && res.gender->0@ == "other"@,
            _ => res.gender is None,
        },
        res.begin_date == match artist.life_span {
            Some(s) => s.begin,
            None => None,
        },
        res.end_date == kept_end(artist.life_span),
        res.country == artist.country,
{
    let (begin_date, end_date) = match artist.life_span {
        Some(s) => {
            let ended = match s.ended {
                Some(e) => e,
                None => false,
            };
            (s.begin, if ended {
                s.end
            } else {
                None
            })
        },
        None => (None, None),
    };
    let url = mb_url("artist", artist.id.as_str());
    proof {
        reveal_strlit("artist");
        reveal_strlit("/");
        reveal_strlit("https://musicbrainz.org/");
        reveal_strlit("https://musicbrainz.org/artist/");
        assert(url@ =~= "https://musicbrainz.org/artist/"@ + artist.id@);
    }
    let gender = match artist.gender {
        Some(g) => mb_gender_to_str(g),
        None => mb_gender_to_str(MbGender::NotApplicable),
    };
    ArtistMeta {
        name: artist.name.clone(),
        tags: tags_from_mb(&artist.tags),
        mbid: Some(artist.id.clone()),
        similar: Vec::new(),
        image: Vec::new(),
        url: Some(url),
        bio: None,
        artist_type: match artist.artist_type {
            Some(t) => t,
            None => ArtistType::Other,
        },
        gender,
        begin_date,
        end_date,
        country: clone_opt(&artist.country),
    }
}

/// The Last.fm key from the settings: none when the setting is empty.
pub fn lastfm_api_key(setting: &str) -> (res: Option<String>)
    ensures
        setting@.len() == 0 ==> res is None,
        setting@.len() > 0 ==> res is Some && res->0@ == setting@,
{
    if setting.unicode_len() == 0 {
        None
    } else {
        Some(setting.to_owned())
    }
}

/// The parameters every Last.fm call carries: JSON format, the method and
/// the key.
pub fn lastfm_base_query(method: &str, key: &str) -> (res: Vec<(String, String)>)
    ensures
        res.len() == 3,
        res[0].0@ == "format"@ && res[0].1@ == "json"@,
        res[1].0@ == "method"@ && res[1].1@ == method@,
        res[2].0@ == "api_key"@ && res[2].1@ == key@,
{
    let mut q: Vec<(String, String)> = Vec::new();
    q.push(("format".to_owned(), "json".to_owned()));
    q.push(("method".to_owned(), method.to_owned()));
    q.push(("api_key".to_owned(), key.to_owned()));
    q
}

/// The query of a Last.fm album lookup: the key's fields, with `name`
/// renamed to `album`.
pub fn lastfm_param_name(field: &str) -> (res: String)
    ensures
        field@ == "name"@ ==> res@ == "album"@,
        field@ != "name"@ ==> res@ == field@,
{
    if str_eq(field, "name") {
        "album".to_owned()
    } else {
        field.to_owned()
    }
}

/// A Last.fm album answer made to match the key it was asked with: the key's
/// id, artist and album name replace the answer's when the key has them; then
/// it is merged into what earlier providers found.
pub fn reconcile_lastfm_album(
    answer: AlbumMeta,
    key_mbid: Option<String>,
    key_artist: Option<String>,
    key_album: Option<String>,
    existing: Option<AlbumMeta>,
) -> (res: AlbumMeta)
    ensures
        ({
            let fixed = crate::meta::AlbumMetaView {
                name: match key_album {
                    Some(n) => n,
                    None => answer.name,
                },
                artist: match key_artist {
                    Some(a) => Some(a),
                    None => answer.artist,
                },
                mbid: match key_mbid {
                    Some(m) => Some(m),
                    None => answer.mbid,
                },
                ..answer@
            };
            match existing {
                Some(old) => res@ == merged_album(old@, fixed),
                None => res@ == fixed,
            }
        }),
{
    let mut new = answer;
    match key_mbid {
        Some(m) => {
            new.mbid = Some(m);
        },
        None => {},
    }
    match key_artist {
        Some(a) => {
            new.artist = Some(a);
        },
        None => {},
    }
    match key_album {
        Some(n) => {
            new.name = n;
        },
        None => {},
    }
    match existing {
        Some(old) => old.merge(new),
        None => new,
    }
}

/// The query of an LRCLIB search: the track name, then the artist and album
/// names when known.
pub fn lrclib_query_params(
    title: &str,
    artist_tag: Option<&str>,
    album_title: Option<&str>,
) -> (res: Vec<(String, String)>)
    ensures
        res.len() == 1 + (if artist_tag is Some {
            1int
        } else {
            0
        }) + (if album_title is Some {
            1int
        } else {
            0
        }),
        res[0].0@ == "track_name"@ && res[0].1@ == title@,
        artist_tag is Some ==> res[1].0@ == "artist_name"@ && res[1].1@ == artist_tag->0@,
        album_title is Some ==> res[res.len() - 1].0@ == "album_name"@ && res[res.len() - 1].1@
            == album_title->0@,
{
    let mut params: Vec<(String, String)> = Vec::new();
    params.push(("track_name".to_owned(), title.to_owned()));
    match artist_tag {
        Some(a) => params.push(("artist_name".to_owned(), a.to_owned())),
        None => {},
    }
    match album_title {
        Some(a) => params.push(("album_name".to_owned(), a.to_owned())),
        None => {},
    }
    params
}

/// The join phrase of a credit, or nothing.
pub open spec fn join_text(c: MbArtistCredit) -> Seq<char> {
    match c.joinphrase {
        Some(j) => j@,
        None => Seq::empty(),
    }
}

/// The credit text is built credit by credit: one credit gives its name and
/// then its own join phrase, and the text of two runs of credits one after
/// the other is the text of the first followed by that of the second. So
/// every credit, wherever it stands, is followed by its own join phrase.
pub proof fn lemma_credit_text_compositional(s: Seq<MbArtistCredit>, t: Seq<MbArtistCredit>, c: MbArtistCredit)
    ensures
        credit_text(seq![c]) == c.name@ + join_text(c),
        credit_text(s + t) == credit_text(s) + credit_text(t),
        credit_text(s.push(c)) == credit_text(s) + c.name@ + join_text(c),
    decreases t.len(),
{
    assert(seq![c].drop_last() =~= Seq::<MbArtistCredit>::empty());
    assert(credit_text(seq![c].drop_last()) =~= Seq::<char>::empty());
    assert(seq![c].last() == c);
    assert(credit_text(seq![c]) =~= Seq::<char>::empty() + c.name@ + join_text(c));
    if t.len() == 0 {
        assert(s + t =~= s);
        assert(credit_text(s + t) =~= credit_text(s) + credit_text(t));
    } else {
        lemma_credit_text_compositional(s, t.drop_last(), c);
        assert((s + t).drop_last() =~= s + t.drop_last());
        assert((s + t).last() == t.last());
        assert(credit_text(s + t) =~= credit_text(s) + credit_text(t));
    }
    assert(s.push(c) =~= s + seq![c]);
    lemma_credit_text_compositional_one(s, c);
}

/// Appending one credit adds its name and its own join phrase.
proof fn lemma_credit_text_compositional_one(s: Seq<MbArtistCredit>, c: MbArtistCredit)
    ensures
        credit_text(s.push(c)) == credit_text(s) + c.name@ + join_text(c),
{
    assert(s.push(c).drop_last() =~= s);
    assert(credit_text(s.push(c)) =~= credit_text(s) + c.name@ + join_text(c));
}

} // verus!
