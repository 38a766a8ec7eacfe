//! Songs as the daemon reports them: URI, title, artists, album, duration and
//! place in the queue.
use vstd::prelude::*;
use vstd::string::*;
use crate::text::{decimal, digit_char, digit_value, two_digits, push_decimal, push_two_digits, str_eq};

verus! {

/// The fields of a daemon's song record that the player reads.
#[derive(Debug)]
pub struct MpdSong {
    pub file: String,
    pub title: Option<String>,
    pub artist: Option<String>,
    /// Whole seconds of the duration, when known.
    pub duration_secs: Option<u64>,
    /// The song's id in the queue, when it is queued.
    pub queue_id: Option<u32>,
    /// All other tags, as (name, value) pairs in the daemon's order.
    pub tags: Vec<(String, String)>,
}

/// A song's information.
#[derive(Debug)]
pub struct SongInfo {
    pub uri: String,
    pub title: Option<String>,
    pub artist: Option<String>,
    pub album_artist: Option<String>,
    pub duration_secs: Option<u64>,
    pub queue_id: Option<u32>,
    pub album: Option<String>,
    pub is_playing: bool,
}

/// The value of the last tag of this name, if any.
pub open spec fn last_tag_value(tags: Seq<(String, String)>, name: Seq<char>) -> Option<String>
    decreases tags.len(),
{
    if tags.len() == 0 {
        None
    } else if tags.last().0@ == name {
        Some(tags.last().1)
    } else {
        last_tag_value(tags.drop_last(), name)
    }
}

/// A copy of an optional string.
pub fn clone_opt(o: &Option<String>) -> (res: Option<String>)
    ensures
        res == *o,
{
    match o {
        Some(s) => Some(s.clone()),
        None => None,
    }
}

impl SongInfo {
    /// The information of a daemon's song record: its file, title, artist and
    /// duration, its queue id, and the last `Album` and `AlbumArtist` tags.
    pub fn from_mpd_song(song: &MpdSong) -> (res: Self)
        ensures
            res.uri == song.file,
            res.title == song.title,
            res.artist == song.artist,
            res.duration_secs == song.duration_secs,
            res.queue_id == song.queue_id,
            res.album == last_tag_value(song.tags@, "Album"@),
            res.album_artist == last_tag_value(song.tags@, "AlbumArtist"@),
            !res.is_playing,
    {
        let mut album: Option<String> = None;
        let mut album_artist: Option<String> = None;
        let mut i: usize = 0;
        while i < song.tags.len()
            invariant
                i <= song.tags.len(),
                album == last_tag_value(song.tags@.subrange(0, i as int), "Album"@),
                album_artist == last_tag_value(song.tags@.subrange(0, i as int), "AlbumArtist"@),
            decreases song.tags.len() - i,
        {
            let (tag, val) = &song.tags[i];
            proof {
                reveal_strlit("Album");
                reveal_strlit("AlbumArtist");
                assert("Album"@.len() != "AlbumArtist"@.len());
                let next = song.tags@.subrange(0, i + 1);
                assert(next.drop_last() =~= song.tags@.subrange(0, i as int));
                assert(next.last() == song.tags@[i as int]);
            }
            if str_eq(tag.as_str(), "Album") {
                album = Some(val.clone());
            } else if str_eq(tag.as_str(), "AlbumArtist") {
                album_artist = Some(val.clone());
            }
            i = i + 1;
        }
        proof {
            assert(song.tags@.subrange(0, song.tags.len() as int) =~= song.tags@);
        }
        SongInfo {
            uri: song.file.clone(),
            title: clone_opt(&song.title),
            artist: clone_opt(&song.artist),
            album_artist,
            duration_secs: song.duration_secs,
            queue_id: song.queue_id,
            album,
            is_playing: false,
        }
    }

    /// A song with an empty URI and nothing else known.
    pub fn default() -> (res: Self)
        ensures
            res.uri@ == Seq::<char>::empty(),
            res.title is None,
            res.artist is None,
            res.album_artist is None,
            res.duration_secs is None,
            res.queue_id is None,
            res.album is None,
            !res.is_playing,
    {
        SongInfo {
            uri: String::new(),
            title: None,
            artist: None,
            album_artist: None,
            duration_secs: None,
            queue_id: None,
            album: None,
            is_playing: false,
        }
    }
}

/// What `std::path::Path::file_stem` gives for a path: the last component's
/// name without its extension. The contract only names the result.
pub uninterp spec fn path_file_stem(path: Seq<char>) -> Option<Seq<char>>;

/// Calls `std::path::Path::file_stem` on the path. A stem taken from a `&str`
/// is valid UTF-8, so turning it back into a string cannot fail.
#[verifier::external_body]
fn file_stem(path: &str) -> (res: Option<String>)
    ensures
        match res {
            Some(s) => path_file_stem(path@) == Some(s@),
            None => path_file_stem(path@) is None,
        },
{
    std::path::Path::new(path).file_stem().map(|s| s.to_string_lossy().into_owned())
}

/// A duration split into days, hours, minutes and seconds, as shown: with
/// days `"{d} days HH:MM:SS"`, with hours `"HH:MM:SS"`, with minutes `"MM:SS"`,
/// else `"{s}s"`.
pub open spec fn duration_text(total: nat) -> Seq<char> {
    let days = total / 86400;
    let hours = (total % 86400) / 3600;
    let minutes = (total % 3600) / 60;
    let seconds = total % 60;
    if days > 0 {
        decimal(days) + " days "@ + two_digits(hours) + seq![':'] + two_digits(minutes) + seq![':']
            + two_digits(seconds)
    } else if hours > 0 {
        two_digits(hours) + seq![':'] + two_digits(minutes) + seq![':'] + two_digits(seconds)
    } else if minutes > 0 {
        two_digits(minutes) + seq![':'] + two_digits(seconds)
    } else {
        decimal(seconds) + seq!['s']
    }
}

/// Formats a number of seconds for display.
pub fn format_secs(total: u64) -> (res: String)
    ensures
        res@ == duration_text(total as nat),
{
    let days = total / 86400;
    let hours = (total % 86400) / 3600;
    let minutes = (total % 3600) / 60;
    let seconds = total % 60;
    let mut out = String::new();
    proof {
        reveal_strlit(" days ");
        reveal_strlit(":");
        reveal_strlit("s");
    }
    if days > 0 {
        push_decimal(&mut out, days);
        out.append(" days ");
        push_two_digits(&mut out, hours);
        out.append(":");
        push_two_digits(&mut out, minutes);
        out.append(":");
        push_two_digits(&mut out, seconds);
    } else if hours > 0 {
        push_two_digits(&mut out, hours);
        out.append(":");
        push_two_digits(&mut out, minutes);
        out.append(":");
        push_two_digits(&mut out, seconds);
    } else if minutes > 0 {
        push_two_digits(&mut out, minutes);
        out.append(":");
        push_two_digits(&mut out, seconds);
    } else {
        push_decimal(&mut out, seconds);
        out.append("s");
    }
    proof {
        assert(out@ =~= duration_text(total as nat));
    }
    out
}

/// A song in a list: its information.
#[derive(Debug)]
pub struct Song {
    pub info: SongInfo,
}

impl Song {
    /// The song of a daemon's record.
    pub fn from_mpd_song(song: &MpdSong) -> (res: Self)
        ensures
            res.info.uri == song.file,
            res.info.title == song.title,
            res.info.artist == song.artist,
            res.info.duration_secs == song.duration_secs,
            res.info.queue_id == song.queue_id,
            res.info.album == last_tag_value(song.tags@, "Album"@),
            res.info.album_artist == last_tag_value(song.tags@, "AlbumArtist"@),
            !res.info.is_playing,
    {
        Song { info: SongInfo::from_mpd_song(song) }
    }

    pub fn get_uri(&self) -> (res: String)
        ensures
            res == self.info.uri,
    {
        self.info.uri.clone()
    }

    /// The title, or else the file name without its extension.
    pub fn get_name(&self) -> (res: Option<String>)
        ensures
            self.info.title is Some ==> res == self.info.title,
            self.info.title is None ==> match res {
                Some(s) => path_file_stem(self.info.uri@) == Some(s@),
                None => path_file_stem(self.info.uri@) is None,
            },
    {
        match &self.info.title {
            Some(title) => Some(title.clone()),
            None => file_stem(self.info.uri.as_str()),
        }
    }

    /// Whole seconds of the duration; 0 when unknown.
    pub fn get_duration(&self) -> (res: u64)
        ensures
            res == match self.info.duration_secs {
                Some(s) => s,
                None => 0,
            },
    {
        match self.info.duration_secs {
            Some(s) => s,
            None => 0,
        }
    }

    /// The duration for display; none when unknown.
    pub fn format_duration(&self) -> (res: Option<String>)
        ensures
            match self.info.duration_secs {
                Some(s) => res is Some && res->0@ == duration_text(s as nat),
                None => res is None,
            },
    {
        match self.info.duration_secs {
            Some(s) => Some(format_secs(s)),
            None => None,
        }
    }

    pub fn get_artist(&self) -> (res: Option<String>)
        ensures
            res == self.info.artist,
    {
        clone_opt(&self.info.artist)
    }

    pub fn get_album_artist(&self) -> (res: Option<String>)
        ensures
            res == self.info.album_artist,
    {
        clone_opt(&self.info.album_artist)
    }

    /// The queue id; 0 when the song is not queued.
    pub fn get_queue_id(&self) -> (res: u32)
        ensures
            res == match self.info.queue_id {
                Some(id) => id,
                None => 0,
            },
    {
        match self.info.queue_id {
            Some(id) => id,
            None => 0,
        }
    }

    pub fn is_queued(&self) -> (res: bool)
        ensures
            res == self.info.queue_id is Some,
    {
        self.info.queue_id.is_some()
    }

    pub fn get_album(&self) -> (res: Option<String>)
        ensures
            res == self.info.album,
    {
        clone_opt(&self.info.album)
    }

    pub fn is_playing(&self) -> (res: bool)
        ensures
            res == self.info.is_playing,
    {
        self.info.is_playing
    }

    /// Marks the song as playing or not; the result says whether it changed.
    pub fn set_is_playing(&mut self, val: bool) -> (changed: bool)
        ensures
            final(self).info == (SongInfo { is_playing: val, ..old(self).info }),
            changed == (old(self).info.is_playing != val),
    {
        let old_val = self.info.is_playing;
        self.info.is_playing = val;
        old_val != val
    }
}

/// The number written by the two digit characters at `i` and `i + 1`.
pub open spec fn field_value(t: Seq<char>, i: int) -> int {
    10 * digit_value(t[i]) + digit_value(t[i + 1])
}

/// Whether the two characters at `i` and `i + 1` are decimal digits.
pub open spec fn is_digit_field(t: Seq<char>, i: int) -> bool {
    0 <= digit_value(t[i]) <= 9 && 0 <= digit_value(t[i + 1]) <= 9
}

/// A number below 100 in two digits reads back as itself.
pub proof fn lemma_two_digits_read(n: nat)
    requires
        n < 100,
    ensures
        two_digits(n).len() == 2,
        is_digit_field(two_digits(n), 0),
        field_value(two_digits(n), 0) == n,
{
    if n >= 10 {
        assert(decimal(n / 10) == seq![digit_char(n / 10)]);
        assert(two_digits(n) =~= seq![digit_char(n / 10), digit_char(n % 10)]);
    }
}

/// A duration text reads back as its duration: under an hour it is
/// `MM:SS`, under a day `HH:MM:SS`, and from a day on it ends in
/// ` days HH:MM:SS` for the time past the whole days; the fields are two
/// digits each, minutes and seconds below 60, hours below 24, and hours,
/// minutes and seconds add up to what was formatted.
pub proof fn lemma_duration_reads_back(total: nat)
    ensures
        60 <= total < 3600 ==> ({
            let t = duration_text(total);
            &&& t.len() == 5 && t[2] == ':'
            &&& is_digit_field(t, 0) && is_digit_field(t, 3)
            &&& field_value(t, 3) < 60
            &&& field_value(t, 0) * 60 + field_value(t, 3) == total
        }),
        3600 <= total < 86400 ==> ({
            let t = duration_text(total);
            &&& t.len() == 8 && t[2] == ':' && t[5] == ':'
            &&& is_digit_field(t, 0) && is_digit_field(t, 3) && is_digit_field(t, 6)
            &&& field_value(t, 0) < 24 && field_value(t, 3) < 60 && field_value(t, 6) < 60
            &&& field_value(t, 0) * 3600 + field_value(t, 3) * 60 + field_value(t, 6) == total
        }),
        86400 <= total ==> ({
            let t = duration_text(total);
            let k = t.len() - 8;
            &&& t.len() >= 14
            &&& t.subrange(k - 6, k) == " days "@
            &&& t[k + 2] == ':' && t[k + 5] == ':'
            &&& is_digit_field(t, k) && is_digit_field(t, k + 3) && is_digit_field(t, k + 6)
            &&& field_value(t, k) < 24 && field_value(t, k + 3) < 60 && field_value(t, k + 6) < 60
            &&& field_value(t, k) * 3600 + field_value(t, k + 3) * 60 + field_value(t, k + 6)
                == total % 86400
        }),
{
    let hours = (total % 86400) / 3600;
    let minutes = (total % 3600) / 60;
    let seconds = total % 60;
    lemma_two_digits_read(hours);
    lemma_two_digits_read(minutes);
    lemma_two_digits_read(seconds);
    let h = two_digits(hours);
    let m = two_digits(minutes);
    let s = two_digits(seconds);
    assert((total % 86400) == hours * 3600 + minutes * 60 + seconds) by (nonlinear_arith)
        requires
            hours == (total % 86400) / 3600,
            minutes == (total % 3600) / 60,
            seconds == total % 60,
    ;
    if 60 <= total < 3600 {
        let t = duration_text(total);
        assert(t =~= m + seq![':'] + s);
        assert(t[0] == m[0] && t[1] == m[1] && t[3] == s[0] && t[4] == s[1]);
    } else if 3600 <= total < 86400 {
        let t = duration_text(total);
        assert(t =~= h + seq![':'] + m + seq![':'] + s);
        assert(t[0] == h[0] && t[1] == h[1] && t[3] == m[0] && t[4] == m[1]);
        assert(t[6] == s[0] && t[7] == s[1]);
    } else if 86400 <= total {
        let t = duration_text(total);
        let d = decimal(total / 86400);
        lemma_decimal_nonempty(total / 86400);
        assert(t =~= d + " days "@ + h + seq![':'] + m + seq![':'] + s);
        reveal_strlit(" days ");
        let k = t.len() - 8;
        assert(k == d.len() + 6);
        assert(t.subrange(k - 6, k) =~= " days "@);
        assert(t[k] == h[0] && t[k + 1] == h[1] && t[k + 3] == m[0] && t[k + 4] == m[1]);
        assert(t[k + 6] == s[0] && t[k + 7] == s[1]);
    }
}

/// Every number has at least one digit.
proof fn lemma_decimal_nonempty(n: nat)
    ensures
        decimal(n).len() >= 1,
    decreases n,
{
    if n >= 10 {
        lemma_decimal_nonempty(n / 10);
    }
}

} // verus!
