//! Albums: the tags that name them, the folder that holds them, and the
//! rating the user gave them.
use vstd::prelude::*;
use vstd::string::*;
use crate::artist::{
    ArtistInfo, parse_mb_artist_tag, artists_to_string, joined_artist_names, regex_capture_groups,
    artist_tag_pattern, has_first_groups, artist_of_match,
};
use crate::meta::CalendarDate;
use crate::text::rfind_char;

verus! {

/// The folder part of a track URI: everything up to and including the last
/// `/`, or nothing for a track at the root.
pub open spec fn folder_of(uri: Seq<char>) -> Seq<char> {
    if exists|i: int| 0 <= i < uri.len() && uri[i] == '/' {
        let i = choose|i: int|
            0 <= i < uri.len() && uri[i] == '/' && forall|j: int| i < j < uri.len() ==> uri[j] != '/';
        uri.subrange(0, i + 1)
    } else {
        Seq::empty()
    }
}

/// The folder URI of a track URI.
pub fn strip_filename_linux(path: &str) -> (res: &str)
    ensures
        res@ == folder_of(path@),
{
    let n = path.unicode_len();
    match rfind_char(path, '/') {
        Some(i) => {
            proof {
                let c = choose|x: int|
                    0 <= x < path@.len() && path@[x] == '/' && forall|j: int|
                        x < j < path@.len() ==> path@[j] != '/';
                assert(path@[i as int] == '/');
                if c < i {
                    assert(path@[i as int] != '/');
                }
                if i < c {
                    assert(path@[c] != '/');
                }
            }
            path.substring_char(0, i + 1)
        },
        None => {
            proof {
                reveal_strlit("");
            }
            ""
        },
    }
}

/// What the album tags say of an album, with the track it was found by.
#[derive(Debug)]
pub struct AlbumInfo {
    pub title: String,
    /// A track of the album, for its embedded cover.
    pub example_uri: String,
    /// The folder of that track, for a cover file.
    pub folder_uri: String,
    /// Parsed from the AlbumArtist tag.
    pub artists: Vec<ArtistInfo>,
    /// The AlbumArtist tag as read.
    pub artist_tag: Option<String>,
    pub release_date: Option<CalendarDate>,
    pub mbid: Option<String>,
}

/// The artist tag after adding another tag to it, separated by `, `.
pub open spec fn extended_tag(old: Option<String>, tag: Seq<char>) -> Seq<char> {
    match old {
        Some(t) => t@ + ", "@ + tag,
        None => tag,
    }
}

impl AlbumInfo {
    /// An album found by one of its tracks.
    pub fn new(
        example_uri: &str,
        title: &str,
        artist_tag: Option<&str>,
        artists: Vec<ArtistInfo>,
    ) -> (res: Self)
        ensures
            res.example_uri@ == example_uri@,
            res.folder_uri@ == folder_of(example_uri@),
            res.title@ == title@,
            res.artists@ == artists@,
            match artist_tag {
                Some(t) => res.artist_tag is Some && res.artist_tag->0@ == t@,
                None => res.artist_tag is None,
            },
            res.release_date is None,
            res.mbid is None,
    {
        let tag = match artist_tag {
            Some(t) => Some(t.to_owned()),
            None => None,
        };
        AlbumInfo {
            example_uri: example_uri.to_owned(),
            folder_uri: strip_filename_linux(example_uri).to_owned(),
            artists,
            artist_tag: tag,
            title: title.to_owned(),
            release_date: None,
            mbid: None,
        }
    }

    /// Adds the artists of another artist tag: the tag is appended to the
    /// stored one after `, `, and its artists are appended, none of them as a
    /// composer and none with an identifier.
    pub fn add_artists_from_string(&mut self, tag: &str)
        ensures
            final(self).artist_tag is Some,
            final(self).artist_tag->0@ == extended_tag(old(self).artist_tag, tag@),
            final(self).title == old(self).title,
            final(self).example_uri == old(self).example_uri,
            final(self).folder_uri == old(self).folder_uri,
            final(self).mbid == old(self).mbid,
            final(self).release_date == old(self).release_date,
            final(self).artists@.subrange(0, old(self).artists@.len() as int) == old(self).artists@,
            match regex_capture_groups(artist_tag_pattern(), tag@) {
                Some(caps) => if has_first_groups(caps) {
                    final(self).artists@.len() == old(self).artists@.len() + caps.len() && forall|
                        k: int,
                    |
                        0 <= k < caps.len() ==> (#[trigger] final(self).artists@[old(self).artists@.len() + k]).name@ == artist_of_match(caps[k]).0 && !final(self).artists@[old(self).artists@.len() + k].is_composer
                            && final(self).artists@[old(self).artists@.len() + k].mbid is None
                } else {
                    final(self).artists@.len() == old(self).artists@.len()
                },
                None => final(self).artists@.len() == old(self).artists@.len(),
            },
    {
        let new_tag = match &self.artist_tag {
            Some(existing) => {
                let mut t = existing.clone();
                t.append(", ");
                t.append(tag);
                t
            },
            None => tag.to_owned(),
        };
        self.artist_tag = Some(new_tag);
        let parsed = parse_mb_artist_tag(tag);
        let mut extra: Vec<ArtistInfo> = Vec::new();
        let mut i: usize = 0;
        while i < parsed.len()
            invariant
                i <= parsed.len(),
                extra.len() == i,
                forall|k: int|
                    0 <= k < i ==> (#[trigger] extra@[k]).name@ == parsed@[k].name@
                        && !extra@[k].is_composer && extra@[k].mbid is None,
            decreases parsed.len() - i,
        {
            let artist = ArtistInfo::new(parsed[i].name.as_str(), false);
            extra.push(artist);
            i = i + 1;
        }
        let ghost base = self.artists@;
        self.artists.append(&mut extra);
        proof {
            assert(self.artists@.subrange(0, base.len() as int) =~= base);
        }
    }

    /// The album artists for display; none when there are none.
    pub fn get_artist_str(&self) -> (res: Option<String>)
        ensures
            self.artists@.len() == 0 ==> res is None,
            self.artists@.len() > 0 ==> res is Some && res->0@ == joined_artist_names(
                self.artists@,
            ),
    {
        artists_to_string(self.artists.as_slice())
    }

    /// The artist tag as read.
    pub fn get_artist_tag(&self) -> (res: Option<&str>)
        ensures
            match self.artist_tag {
                Some(t) => res is Some && res->0@ == t@,
                None => res is None,
            },
    {
        match &self.artist_tag {
            Some(t) => Some(t.as_str()),
            None => None,
        }
    }

    /// The placeholder album.
    pub fn default() -> (res: Self)
        ensures
            res.title@ == "Untitled Album"@,
            res.example_uri@ == Seq::<char>::empty(),
            res.folder_uri@ == Seq::<char>::empty(),
            res.artists@.len() == 0,
            res.artist_tag is None,
            res.release_date is None,
            res.mbid is None,
    {
        AlbumInfo {
            title: "Untitled Album".to_owned(),
            example_uri: String::new(),
            folder_uri: String::new(),
            artists: Vec::new(),
            artist_tag: None,
            release_date: None,
            mbid: None,
        }
    }
}

/// An album in a list: its information and the user's rating (from 0 to 10,
/// in half stars).
#[derive(Debug)]
pub struct Album {
    pub info: AlbumInfo,
    pub rating: Option<i8>,
}

impl Album {
    /// An unrated album.
    pub fn from_info(info: AlbumInfo) -> (res: Self)
        ensures
            res.info == info,
            res.rating is None,
    {
        Album { info, rating: None }
    }

    pub fn get_info(&self) -> (res: &AlbumInfo)
        ensures
            *res == self.info,
    {
        &self.info
    }

    pub fn get_folder_uri(&self) -> (res: &str)
        ensures
            res@ == self.info.folder_uri@,
    {
        self.info.folder_uri.as_str()
    }

    pub fn get_example_uri(&self) -> (res: &str)
        ensures
            res@ == self.info.example_uri@,
    {
        self.info.example_uri.as_str()
    }

    pub fn get_title(&self) -> (res: &str)
        ensures
            res@ == self.info.title@,
    {
        self.info.title.as_str()
    }

    pub fn get_artists(&self) -> (res: &[ArtistInfo])
        ensures
            res@ == self.info.artists@,
    {
        self.info.artists.as_slice()
    }

    pub fn get_artist_str(&self) -> (res: Option<String>)
        ensures
            self.info.artists@.len() == 0 ==> res is None,
            self.info.artists@.len() > 0 ==> res is Some && res->0@ == joined_artist_names(
                self.info.artists@,
            ),
    {
        self.info.get_artist_str()
    }

    pub fn get_artist_tag(&self) -> (res: Option<&str>)
        ensures
            match self.info.artist_tag {
                Some(t) => res is Some && res->0@ == t@,
                None => res is None,
            },
    {
        self.info.get_artist_tag()
    }

    pub fn get_mbid(&self) -> (res: Option<&str>)
        ensures
            match self.info.mbid {
                Some(t) => res is Some && res->0@ == t@,
                None => res is None,
            },
    {
        match &self.info.mbid {
            Some(t) => Some(t.as_str()),
            None => None,
        }
    }

    pub fn get_release_date(&self) -> (res: Option<CalendarDate>)
        ensures
            res == self.info.release_date,
    {
        self.info.release_date
    }

    pub fn get_rating(&self) -> (res: Option<i8>)
        ensures
            res == self.rating,
    {
        self.rating
    }

    /// Sets the rating; the result says whether it changed.
    pub fn set_rating(&mut self, new: Option<i8>) -> (changed: bool)
        ensures
            final(self).rating == new,
            final(self).info == old(self).info,
            changed == (old(self).rating != new),
    {
        let old = self.rating;
        self.rating = new;
        old != new
    }

    /// The rating as the `rating` property shows it: -1 when unrated.
    pub fn rating_property(&self) -> (res: i8)
        ensures
            res == match self.rating {
                Some(r) => r,
                None => -1i8,
            },
    {
        match self.rating {
            Some(r) => r,
            None => -1,
        }
    }

    /// Writing the `rating` property: a negative value is stored as the
    /// rating, any other value clears it. The result says whether the rating
    /// changed.
    pub fn set_rating_property(&mut self, r: i8) -> (changed: bool)
        ensures
            final(self).rating == (if r < 0 {
                Some(r)
            } else {
                None
            }),
            final(self).info == old(self).info,
            changed == (old(self).rating != final(self).rating),
    {
        let new_rating = if r < 0 {
            Some(r)
        } else {
            None
        };
        self.set_rating(new_rating)
    }
}

} // verus!
