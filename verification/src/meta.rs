//! Provider-agnostic metadata of albums and artists, and how the answers of
//! several providers are merged into one.
use vstd::prelude::*;
use crate::album::AlbumInfo;
use crate::artist::ArtistInfo;
use crate::song::clone_opt;

verus! {

/// A tag given to an album or artist by a provider.
#[derive(Debug)]
pub struct Tag {
    pub url: Option<String>,
    pub name: String,
    pub count: Option<i32>,
}

/// Image sizes, from about 32 pixels up to 512 or more.
#[derive(Debug, Clone, Copy, PartialEq, Eq, Structural)]
pub enum ImageSize {
    Small,
    Medium,
    Large,
    ExtraLarge,
    Mega,
}

/// The order of the sizes, smallest first.
pub open spec fn size_rank(size: ImageSize) -> nat {
    match size {
        ImageSize::Small => 0,
        ImageSize::Medium => 1,
        ImageSize::Large => 2,
        ImageSize::ExtraLarge => 3,
        ImageSize::Mega => 4,
    }
}

impl ImageSize {
    /// The position of the size in the order.
    pub fn rank(self) -> (res: u8)
        ensures
            res == size_rank(self),
    {
        match self {
            ImageSize::Small => 0,
            ImageSize::Medium => 1,
            ImageSize::Large => 2,
            ImageSize::ExtraLarge => 3,
            ImageSize::Mega => 4,
        }
    }
}

/// An image offered by a provider, by size and address.
#[derive(Debug)]
pub struct ImageMeta {
    pub size: ImageSize,
    pub url: String,
}

/// A text about an album or artist, with its source.
#[derive(Debug)]
pub struct Wiki {
    pub content: String,
    /// Where to read more.
    pub url: Option<String>,
    /// Who wrote it; always given.
    pub attribution: String,
}

/// A calendar date (year, month, day).
#[derive(Debug, Clone, Copy, PartialEq, Eq, Structural)]
pub struct CalendarDate {
    pub year: i32,
    pub month: u8,
    pub day: u8,
}

/// The kinds of artist a provider may report.
#[derive(Debug, Clone, Copy, PartialEq, Eq, Structural)]
pub enum ArtistType {
    Person,
    Group,
    Orchestra,
    Choir,
    Character,
    Other,
    UnrecognizedArtistType,
}

/// The kind is unknown: `Other` or unrecognized.
pub open spec fn artist_type_unknown(t: ArtistType) -> bool {
    t == ArtistType::Other || t == ArtistType::UnrecognizedArtistType
}

/// The value kept for an optional field: ours when we have one, else theirs.
pub open spec fn merged_option<T>(this: Option<T>, that: Option<T>) -> Option<T> {
    if this is None && that is Some {
        that
    } else {
        this
    }
}

/// Combining what two providers know of the same thing.
pub trait Merge: Sized {
    /// Takes in what `other` knows: lists are concatenated, optional fields
    /// are filled in where ours are empty, plain fields stay ours.
    fn merge(self, other: Self) -> Self;

    /// Ours when we have a value, else theirs.
    fn merge_option<T>(this: Option<T>, that: Option<T>) -> (res: Option<T>)
        ensures
            res == merged_option(this, that),
    {
        if this.is_none() && that.is_some() {
            that
        } else {
            this
        }
    }
}

/// Filling in optional values is associative.
pub proof fn lemma_merge_option_associative<T>(a: Option<T>, b: Option<T>, c: Option<T>)
    ensures
        merged_option(merged_option(a, b), c) == merged_option(a, merged_option(b, c)),
{
}

/// An empty value on either side changes nothing.
pub proof fn lemma_merge_option_identity<T>(a: Option<T>)
    ensures
        merged_option(a, None) == a,
        merged_option(None, a) == a,
{
}

/// Filling in never loses a value: the result is empty only when both are.
pub proof fn lemma_merge_option_keeps_values<T>(a: Option<T>, b: Option<T>)
    ensures
        a is Some ==> merged_option(a, b) == a,
        (merged_option(a, b) is None) == (a is None && b is None),
{
}

/// Things that carry provider tags.
pub trait Tagged {
    fn get_tags(&self) -> &[Tag];
}

/// Things that carry images.
pub trait HasImage {
    fn get_images(&self) -> &[ImageMeta];
}

/// What providers know of an album.
#[derive(Debug)]
pub struct AlbumMeta {
    pub name: String,
    pub artist: Option<String>,
    pub mbid: Option<String>,
    pub tags: Vec<Tag>,
    pub image: Vec<ImageMeta>,
    pub url: Option<String>,
    pub wiki: Option<Wiki>,
}

/// An album's metadata with its lists as sequences.
pub struct AlbumMetaView {
    pub name: String,
    pub artist: Option<String>,
    pub mbid: Option<String>,
    pub tags: Seq<Tag>,
    pub image: Seq<ImageMeta>,
    pub url: Option<String>,
    pub wiki: Option<Wiki>,
}

impl View for AlbumMeta {
    type V = AlbumMetaView;

    open spec fn view(&self) -> AlbumMetaView {
        AlbumMetaView {
            name: self.name,
            artist: self.artist,
            mbid: self.mbid,
            tags: self.tags@,
            image: self.image@,
            url: self.url,
            wiki: self.wiki,
        }
    }
}

/// The merge of two albums' metadata.
pub open spec fn merged_album(a: AlbumMetaView, b: AlbumMetaView) -> AlbumMetaView {
    AlbumMetaView {
        name: a.name,
        artist: merged_option(a.artist, b.artist),
        mbid: merged_option(a.mbid, b.mbid),
        tags: a.tags + b.tags,
        image: a.image + b.image,
        url: merged_option(a.url, b.url),
        wiki: merged_option(a.wiki, b.wiki),
    }
}

impl AlbumMeta {
    /// Metadata that holds only a title and an identifier, stored when no
    /// provider knows the album, so that it is not asked for again.
    pub fn from_key(key: &AlbumInfo) -> (res: Self)
        ensures
            res.name@ == key.title@,
            res.mbid == key.mbid,
            res.artist is None,
            res.tags@.len() == 0,
            res.image@.len() == 0,
            res.url is None,
            res.wiki is None,
    {
        AlbumMeta {
            name: key.title.clone(),
            mbid: clone_opt(&key.mbid),
            artist: None,
            tags: Vec::new(),
            image: Vec::new(),
            url: None,
            wiki: None,
        }
    }
}

impl Merge for AlbumMeta {
    fn merge(self, other: Self) -> (res: Self)
        ensures
            res@ == merged_album(self@, other@),
    {
        let AlbumMeta { name, artist, mbid, mut tags, mut image, url, wiki } = self;
        let AlbumMeta {
            name: _,
            artist: other_artist,
            mbid: other_mbid,
            tags: mut other_tags,
            image: mut other_image,
            url: other_url,
            wiki: other_wiki,
        } = other;
        tags.append(&mut other_tags);
        image.append(&mut other_image);
        AlbumMeta {
            name,
            artist: Self::merge_option(artist, other_artist),
            mbid: Self::merge_option(mbid, other_mbid),
            tags,
            image,
            url: Self::merge_option(url, other_url),
            wiki: Self::merge_option(wiki, other_wiki),
        }
    }
}

impl Tagged for AlbumMeta {
    fn get_tags(&self) -> (res: &[Tag])
        ensures
            res@ == self.tags@,
    {
        self.tags.as_slice()
    }
}

impl HasImage for AlbumMeta {
    fn get_images(&self) -> (res: &[ImageMeta])
        ensures
            res@ == self.image@,
    {
        self.image.as_slice()
    }
}

/// Merging album metadata is associative: the order in which the providers'
/// answers are folded together does not matter, only their order.
pub proof fn lemma_album_merge_associative(a: AlbumMetaView, b: AlbumMetaView, c: AlbumMetaView)
    ensures
        merged_album(merged_album(a, b), c) == merged_album(a, merged_album(b, c)),
{
    assert((a.tags + b.tags) + c.tags =~= a.tags + (b.tags + c.tags));
    assert((a.image + b.image) + c.image =~= a.image + (b.image + c.image));
}

/// Merging in an answer that knows nothing changes nothing.
pub proof fn lemma_album_merge_empty(a: AlbumMetaView, e: AlbumMetaView)
    requires
        e.artist is None,
        e.mbid is None,
        e.tags.len() == 0,
        e.image.len() == 0,
        e.url is None,
        e.wiki is None,
    ensures
        merged_album(a, e) == a,
{
    assert(a.tags + e.tags =~= a.tags);
    assert(a.image + e.image =~= a.image);
}

/// What providers know of an artist.
#[derive(Debug)]
pub struct ArtistMeta {
    pub name: String,
    pub tags: Vec<Tag>,
    pub mbid: Option<String>,
    pub similar: Vec<ArtistMeta>,
    pub image: Vec<ImageMeta>,
    pub url: Option<String>,
    pub bio: Option<Wiki>,
    /// `Other` when unknown.
    pub artist_type: ArtistType,
    pub gender: Option<String>,
    /// Founded, born; when absent the end date is not read.
    pub begin_date: Option<CalendarDate>,
    /// Dissolved, died; absent while ongoing.
    pub end_date: Option<CalendarDate>,
    /// Two-letter country code.
    pub country: Option<String>,
}

/// An artist's metadata with its lists as sequences.
pub struct ArtistMetaView {
    pub name: String,
    pub tags: Seq<Tag>,
    pub mbid: Option<String>,
    pub similar: Seq<ArtistMeta>,
    pub image: Seq<ImageMeta>,
    pub url: Option<String>,
    pub bio: Option<Wiki>,
    pub artist_type: ArtistType,
    pub gender: Option<String>,
    pub begin_date: Option<CalendarDate>,
    pub end_date: Option<CalendarDate>,
    pub country: Option<String>,
}

impl View for ArtistMeta {
    type V = ArtistMetaView;

    open spec fn view(&self) -> ArtistMetaView {
        ArtistMetaView {
            name: self.name,
            tags: self.tags@,
            mbid: self.mbid,
            similar: self.similar@,
            image: self.image@,
            url: self.url,
            bio: self.bio,
            artist_type: self.artist_type,
            gender: self.gender,
            begin_date: self.begin_date,
            end_date: self.end_date,
            country: self.country,
        }
    }
}

/// The kind kept by a merge: ours, unless ours is unknown and theirs is not.
pub open spec fn merged_artist_type(this: ArtistType, that: ArtistType) -> ArtistType {
    if artist_type_unknown(this) && !artist_type_unknown(that) {
        that
    } else {
        this
    }
}

/// The merge of two artists' metadata.
pub open spec fn merged_artist(a: ArtistMetaView, b: ArtistMetaView) -> ArtistMetaView {
    ArtistMetaView {
        name: a.name,
        tags: a.tags + b.tags,
        mbid: merged_option(a.mbid, b.mbid),
        similar: a.similar + b.similar,
        image: a.image + b.image,
        url: merged_option(a.url, b.url),
        bio: merged_option(a.bio, b.bio),
        artist_type: merged_artist_type(a.artist_type, b.artist_type),
        gender: merged_option(a.gender, b.gender),
        begin_date: merged_option(a.begin_date, b.begin_date),
        end_date: merged_option(a.end_date, b.end_date),
        country: merged_option(a.country, b.country),
    }
}

impl ArtistMeta {
    /// Metadata that holds only a name and an identifier, stored when no
    /// provider knows the artist, so that it is not asked for again.
    pub fn from_key(key: &ArtistInfo) -> (res: Self)
        ensures
            res.name@ == key.name@,
            res.mbid == key.mbid,
            res.tags@.len() == 0,
            res.similar@.len() == 0,
            res.image@.len() == 0,
            res.url is None,
            res.bio is None,
            res.artist_type == ArtistType::Other,
            res.gender is None,
            res.begin_date is None,
            res.end_date is None,
            res.country is None,
    {
        ArtistMeta {
            name: key.name.clone(),
            mbid: clone_opt(&key.mbid),
            similar: Vec::new(),
            tags: Vec::new(),
            image: Vec::new(),
            url: None,
            bio: None,
            artist_type: ArtistType::Other,
            gender: None,
            begin_date: None,
            end_date: None,
            country: None,
        }
    }
}

impl Merge for ArtistMeta {
    fn merge(self, other: Self) -> (res: Self)
        ensures
            res@ == merged_artist(self@, other@),
    {
        let ArtistMeta {
            name,
            mut tags,
            mbid,
            mut similar,
            mut image,
            url,
            bio,
            artist_type,
            gender,
            begin_date,
            end_date,
            country,
        } = self;
        let ArtistMeta {
            name: _,
            tags: mut other_tags,
            mbid: other_mbid,
            similar: mut other_similar,
            image: mut other_image,
            url: other_url,
            bio: other_bio,
            artist_type: other_type,
            gender: other_gender,
            begin_date: other_begin,
            end_date: other_end,
            country: other_country,
        } = other;
        tags.append(&mut other_tags);
        image.append(&mut other_image);
        similar.append(&mut other_similar);
        let mut kind = artist_type;
        if (kind == ArtistType::Other || kind == ArtistType::UnrecognizedArtistType) && (other_type
            != ArtistType::Other && other_type != ArtistType::UnrecognizedArtistType) {
            kind = other_type;
        }
        ArtistMeta {
            name,
            tags,
            mbid: Self::merge_option(mbid, other_mbid),
            similar,
            image,
            url: Self::merge_option(url, other_url),
            bio: Self::merge_option(bio, other_bio),
            artist_type: kind,
            gender: Self::merge_option(gender, other_gender),
            begin_date: Self::merge_option(begin_date, other_begin),
            end_date: Self::merge_option(end_date, other_end),
            country: Self::merge_option(country, other_country),
        }
    }
}

impl Tagged for ArtistMeta {
    fn get_tags(&self) -> (res: &[Tag])
        ensures
            res@ == self.tags@,
    {
        self.tags.as_slice()
    }
}

impl HasImage for ArtistMeta {
    fn get_images(&self) -> (res: &[ImageMeta])
        ensures
            res@ == self.image@,
    {
        self.image.as_slice()
    }
}

/// Merging artist metadata is associative.
pub proof fn lemma_artist_merge_associative(
    a: ArtistMetaView,
    b: ArtistMetaView,
    c: ArtistMetaView,
)
    ensures
        merged_artist(merged_artist(a, b), c) == merged_artist(a, merged_artist(b, c)),
{
    assert((a.tags + b.tags) + c.tags =~= a.tags + (b.tags + c.tags));
    assert((a.image + b.image) + c.image =~= a.image + (b.image + c.image));
    assert((a.similar + b.similar) + c.similar =~= a.similar + (b.similar + c.similar));
}

/// A known artist kind is never replaced by a merge.
pub proof fn lemma_artist_type_known_kept(a: ArtistType, b: ArtistType)
    ensures
        !artist_type_unknown(a) ==> merged_artist_type(a, b) == a,
        artist_type_unknown(merged_artist_type(a, b)) == (artist_type_unknown(a)
            && artist_type_unknown(b)),
{
}

/// Sizes rank in their declared order, smallest to largest, each above the
/// one before.
pub proof fn lemma_size_rank_increasing()
    ensures
        size_rank(ImageSize::Small) < size_rank(ImageSize::Medium),
        size_rank(ImageSize::Medium) < size_rank(ImageSize::Large),
        size_rank(ImageSize::Large) < size_rank(ImageSize::ExtraLarge),
        size_rank(ImageSize::ExtraLarge) < size_rank(ImageSize::Mega),
        forall|s: ImageSize| #[trigger] size_rank(s) <= 4,
{
}

/// Merging two artists' metadata fills in what ours lacks and keeps what we
/// have: each optional field is ours when we have it and theirs otherwise;
/// the lists are ours followed by theirs; the name stays ours; a known artist
/// type is kept, an unknown one takes theirs.
pub proof fn lemma_artist_merge_fills(a: ArtistMetaView, b: ArtistMetaView)
    ensures
        ({
            let m = merged_artist(a, b);
            &&& m.name == a.name
            &&& m.tags == a.tags + b.tags
            &&& m.similar == a.similar + b.similar
            &&& m.image == a.image + b.image
            &&& (a.mbid is Some ==> m.mbid == a.mbid) && (a.mbid is None ==> m.mbid == b.mbid)
            &&& (a.url is Some ==> m.url == a.url) && (a.url is None ==> m.url == b.url)
            &&& (a.bio is Some ==> m.bio == a.bio) && (a.bio is None ==> m.bio == b.bio)
            &&& (a.gender is Some ==> m.gender == a.gender) && (a.gender is None ==> m.gender
                == b.gender)
            &&& (a.begin_date is Some ==> m.begin_date == a.begin_date) && (a.begin_date is None
                ==> m.begin_date == b.begin_date)
            &&& (a.end_date is Some ==> m.end_date == a.end_date) && (a.end_date is None
                ==> m.end_date == b.end_date)
            &&& (a.country is Some ==> m.country == a.country) && (a.country is None
                ==> m.country == b.country)
            &&& (a.artist_type != ArtistType::Other && a.artist_type
                != ArtistType::UnrecognizedArtistType ==> m.artist_type == a.artist_type)
            &&& ((a.artist_type == ArtistType::Other || a.artist_type
                == ArtistType::UnrecognizedArtistType) && b.artist_type != ArtistType::Other
                && b.artist_type != ArtistType::UnrecognizedArtistType ==> m.artist_type
                == b.artist_type)
        }),
{
}

/// Merging two albums' metadata fills in what ours lacks and keeps what we
/// have: each optional field is ours when we have it and theirs otherwise;
/// the lists are ours followed by theirs; the name stays ours.
pub proof fn lemma_album_merge_fills(a: AlbumMetaView, b: AlbumMetaView)
    ensures
        ({
            let m = merged_album(a, b);
            &&& m.name == a.name
            &&& m.tags == a.tags + b.tags
            &&& m.image == a.image + b.image
            &&& (a.artist is Some ==> m.artist == a.artist) && (a.artist is None ==> m.artist
                == b.artist)
            &&& (a.mbid is Some ==> m.mbid == a.mbid) && (a.mbid is None ==> m.mbid == b.mbid)
            &&& (a.url is Some ==> m.url == a.url) && (a.url is None ==> m.url == b.url)
            &&& (a.wiki is Some ==> m.wiki == a.wiki) && (a.wiki is None ==> m.wiki == b.wiki)
        }),
{
}

} // verus!
