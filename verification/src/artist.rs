//! Artists as the Artist and AlbumArtist tags name them.
use vstd::prelude::*;
use vstd::string::*;

verus! {

/// An artist named by a tag.
#[derive(Debug)]
pub struct ArtistInfo {
    pub name: String,
    pub mbid: Option<String>,
    pub is_composer: bool,
}

impl ArtistInfo {
    /// An artist with this name and no identifier.
    pub fn new(name: &str, is_composer: bool) -> (res: Self)
        ensures
            res.name@ == name@,
            res.mbid is None,
            res.is_composer == is_composer,
    {
        ArtistInfo { name: name.to_owned(), mbid: None, is_composer }
    }

    /// The placeholder artist.
    pub fn default() -> (res: Self)
        ensures
            res.name@ == "Untitled Artist"@,
            res.mbid is None,
            !res.is_composer,
    {
        ArtistInfo { name: "Untitled Artist".to_owned(), mbid: None, is_composer: false }
    }
}

/// The characters that Unicode calls white space (the `White_Space`
/// property), which `str::trim` removes.
pub open spec fn is_white_space(c: char) -> bool {
    let u = c as u32;
    (0x09 <= u && u <= 0x0D) || u == 0x20 || u == 0x85 || u == 0xA0 || u == 0x1680 || (0x2000 <= u
        && u <= 0x200A) || u == 0x2028 || u == 0x2029 || u == 0x202F || u == 0x205F || u == 0x3000
}

/// Whether `c` is white space.
pub fn white_space(c: char) -> (res: bool)
    ensures
        res == is_white_space(c),
{
    let u = c as u32;
    (0x09 <= u && u <= 0x0D) || u == 0x20 || u == 0x85 || u == 0xA0 || u == 0x1680 || (0x2000 <= u
        && u <= 0x200A) || u == 0x2028 || u == 0x2029 || u == 0x202F || u == 0x205F || u == 0x3000
}

/// `s` without leading and trailing white space: the part between the first
/// and the last character that is not white space.
pub open spec fn trimmed(s: Seq<char>) -> Seq<char> {
    if forall|i: int| 0 <= i < s.len() ==> is_white_space(s[i]) {
        Seq::empty()
    } else {
        let a = choose|a: int|
            0 <= a < s.len() && !is_white_space(s[a]) && forall|i: int|
                0 <= i < a ==> is_white_space(s[i]);
        let b = choose|b: int|
            0 <= b < s.len() && !is_white_space(s[b]) && forall|i: int|
                b < i < s.len() ==> is_white_space(s[i]);
        s.subrange(a, b + 1)
    }
}

/// Removes leading and trailing white space.
pub fn trim(s: &str) -> (res: String)
    ensures
        res@ == trimmed(s@),
{
    let n = s.unicode_len();
    let mut a: usize = 0;
    while a < n && white_space(s.get_char(a))
        invariant
            n == s@.len(),
            a <= n,
            forall|i: int| 0 <= i < a ==> is_white_space(s@[i]),
        decreases n - a,
    {
        a = a + 1;
    }
    if a == n {
        return String::new();
    }
    let mut b: usize = n - 1;
    while white_space(s.get_char(b))
        invariant
            n == s@.len(),
            a < n,
            a <= b < n,
            !is_white_space(s@[a as int]),
            forall|i: int| b < i < n ==> is_white_space(s@[i]),
        decreases b,
    {
        b = b - 1;
    }
    let res = s.substring_char(a, b + 1).to_owned();
    proof {
        let ca = choose|x: int|
            0 <= x < s@.len() && !is_white_space(s@[x]) && forall|i: int|
                0 <= i < x ==> is_white_space(s@[i]);
        let cb = choose|x: int|
            0 <= x < s@.len() && !is_white_space(s@[x]) && forall|i: int|
                x < i < s@.len() ==> is_white_space(s@[i]);
        assert(!is_white_space(s@[a as int]));
        assert(!is_white_space(s@[b as int]));
        if ca < a {
            assert(is_white_space(s@[ca]));
        }
        if a < ca {
            assert(is_white_space(s@[a as int]));
        }
        if cb < b {
            assert(is_white_space(s@[b as int]));
        }
        if b < cb {
            assert(is_white_space(s@[cb]));
        }
    }
    res
}

/// The pattern that splits an artist tag: a run of characters other than `,`
/// and `;`, then an optional `,` or `:`.
pub open spec fn artist_tag_pattern() -> Seq<char> {
    "([^,;]+)([,:]?)"@
}

/// What the regex crate returns for `pattern` on `hay`: `None` when the
/// pattern does not compile, else for each successive non-overlapping match
/// the text of each capture group (group 0 being the whole match), `None` for
/// a group that took no part in it.
pub uninterp spec fn regex_capture_groups(pattern: Seq<char>, hay: Seq<char>) -> Option<
    Seq<Seq<Option<Seq<char>>>>,
>;

/// The text of an optional string.
pub open spec fn opt_view(o: Option<String>) -> Option<Seq<char>> {
    match o {
        Some(s) => Some(s@),
        None => None,
    }
}

/// The texts of a match's capture groups.
pub open spec fn groups_view(g: Vec<Option<String>>) -> Seq<Option<Seq<char>>> {
    g@.map_values(|o: Option<String>| opt_view(o))
}

/// The texts of all matches' capture groups.
pub open spec fn matches_view(m: Seq<Vec<Option<String>>>) -> Seq<Seq<Option<Seq<char>>>> {
    m.map_values(|g: Vec<Option<String>>| groups_view(g))
}

/// Compiles `pattern` with `regex::Regex::new` and collects, through
/// `Regex::captures_iter`, `Captures::len` and `Captures::get`, the capture
/// groups of every match in `hay`. The contract only names the result.
#[verifier::external_body]
fn regex_captures(pattern: &str, hay: &str) -> (res: Option<Vec<Vec<Option<String>>>>)
    ensures
        match res {
            None => regex_capture_groups(pattern@, hay@) is None,
            Some(v) => regex_capture_groups(pattern@, hay@) == Some(matches_view(v@)),
        },
{
    let re = regex::Regex::new(pattern).ok()?;
    Some(
        re.captures_iter(hay).map(
            |c| (0..c.len()).map(|i| c.get(i).map(|m| m.as_str().to_string())).collect(),
        ).collect(),
    )
}

/// Every match has a first group.
pub open spec fn has_first_groups(caps: Seq<Seq<Option<Seq<char>>>>) -> bool {
    forall|k: int| 0 <= k < caps.len() ==> caps[k].len() > 1 && (#[trigger] caps[k])[1] is Some
}

/// The artist a match names: the first group trimmed; a composer when the
/// separator group is `;`.
pub open spec fn artist_of_match(m: Seq<Option<Seq<char>>>) -> (Seq<char>, bool) {
    (trimmed(m[1]->0), m.len() > 2 && m[2] == Some(";"@))
}

/// The artists named by a list of matches.
pub fn artists_from_captures(caps: &Vec<Vec<Option<String>>>) -> (res: Vec<ArtistInfo>)
    requires
        has_first_groups(matches_view(caps@)),
    ensures
        res.len() == caps.len(),
        forall|k: int|
            0 <= k < res.len() ==> (#[trigger] res[k]).name@ == artist_of_match(
                matches_view(caps@)[k],
            ).0 && res[k].is_composer == artist_of_match(matches_view(caps@)[k]).1
                && res[k].mbid is None,
{
    let mut res: Vec<ArtistInfo> = Vec::new();
    let mut k: usize = 0;
    while k < caps.len()
        invariant
            k <= caps.len(),
            has_first_groups(matches_view(caps@)),
            res.len() == k,
            forall|j: int|
                0 <= j < k ==> (#[trigger] res[j]).name@ == artist_of_match(
                    matches_view(caps@)[j],
                ).0 && res[j].is_composer == artist_of_match(matches_view(caps@)[j]).1
                    && res[j].mbid is None,
        decreases caps.len() - k,
    {
        let groups = &caps[k];
        proof {
            assert(matches_view(caps@)[k as int] == groups_view(*groups));
            assert(groups_view(*groups)[1] == opt_view(groups@[1]));
        }
        let name = match &groups[1] {
            Some(s) => trim(s.as_str()),
            None => String::new(),
        };
        let mut is_composer = false;
        if groups.len() > 2 {
            proof {
                assert(groups_view(*groups)[2] == opt_view(groups@[2]));
                reveal_strlit(";");
            }
            match &groups[2] {
                Some(sep) => {
                    is_composer = crate::text::str_eq(sep.as_str(), ";");
                },
                None => {},
            }
        }
        res.push(ArtistInfo { name, mbid: None, is_composer });
        k = k + 1;
    }
    res
}

/// The artists of a MusicBrainz-style artist tag. Should the pattern not
/// compile, or a match lack its first group, the list is empty.
pub fn parse_mb_artist_tag(tag: &str) -> (res: Vec<ArtistInfo>)
    ensures
        match regex_capture_groups(artist_tag_pattern(), tag@) {
            Some(caps) => if has_first_groups(caps) {
                res.len() == caps.len() && forall|k: int|
                    0 <= k < res.len() ==> (#[trigger] res[k]).name@ == artist_of_match(caps[k]).0
                        && res[k].is_composer == artist_of_match(caps[k]).1
                        && res[k].mbid is None
            } else {
                res.len() == 0
            },
            None => res.len() == 0,
        },
{
    let pattern = "([^,;]+)([,:]?)";
    match regex_captures(pattern, tag) {
        None => Vec::new(),
        Some(caps) => {
            let mut ok = true;
            let mut k: usize = 0;
            while k < caps.len()
                invariant
                    k <= caps.len(),
                    ok == has_first_groups(matches_view(caps@).subrange(0, k as int)),
                decreases caps.len() - k,
            {
                let good = caps[k].len() > 1 && caps[k][1].is_some();
                proof {
                    let mv = matches_view(caps@);
                    assert(mv[k as int] == groups_view(caps@[k as int]));
                    if caps@[k as int].len() > 1 {
                        assert(groups_view(caps@[k as int])[1] == opt_view(caps@[k as int]@[1]));
                    }
                    let prev = mv.subrange(0, k as int);
                    let next = mv.subrange(0, k + 1);
                    assert(next =~= prev.push(mv[k as int]));
                    if has_first_groups(next) {
                        assert(next[k as int] == mv[k as int]);
                        assert forall|j: int| 0 <= j < prev.len() implies prev[j].len() > 1 && (
                        #[trigger] prev[j])[1] is Some by {
                            assert(prev[j] == next[j]);
                        }
                    }
                    if ok && good {
                        assert forall|j: int| 0 <= j < next.len() implies next[j].len() > 1 && (
                        #[trigger] next[j])[1] is Some by {
                            if j < k {
                                assert(next[j] == prev[j]);
                            }
                        }
                    }
                }
                ok = ok && good;
                k = k + 1;
            }
            proof {
                assert(matches_view(caps@).subrange(0, caps.len() as int) =~= matches_view(caps@));
            }
            if ok {
                artists_from_captures(&caps)
            } else {
                Vec::new()
            }
        },
    }
}

/// The names joined for display: each separated from the one before by `; `
/// when that one is a composer, else by `, `.
pub open spec fn joined_artist_names(artists: Seq<ArtistInfo>) -> Seq<char>
    decreases artists.len(),
{
    if artists.len() == 0 {
        Seq::empty()
    } else if artists.len() == 1 {
        artists[0].name@
    } else {
        let prev = artists.drop_last();
        joined_artist_names(prev) + (if prev.last().is_composer {
            "; "@
        } else {
            ", "@
        }) + artists.last().name@
    }
}

/// The artists as one string; none when there are no artists.
pub fn artists_to_string(artists: &[ArtistInfo]) -> (res: Option<String>)
    ensures
        artists@.len() == 0 ==> res is None,
        artists@.len() > 0 ==> res is Some && res->0@ == joined_artist_names(artists@),
{
    if artists.len() == 0 {
        return None;
    }
    let mut out = String::new();
    let mut i: usize = 0;
    while i < artists.len()
        invariant
            i <= artists@.len(),
            out@ == joined_artist_names(artists@.subrange(0, i as int)),
        decreases artists@.len() - i,
    {
        let ghost prev = artists@.subrange(0, i as int);
        let ghost next = artists@.subrange(0, i + 1);
        proof {
            assert(next.drop_last() =~= prev);
        }
        if i > 0 {
            if artists[i - 1].is_composer {
                out.append("; ");
            } else {
                out.append(", ");
            }
            proof {
                assert(prev.last() == artists@[i - 1]);
            }
        }
        out.append(artists[i].name.as_str());
        proof {
            if i == 0 {
                assert(out@ =~= joined_artist_names(next));
            } else {
                assert(out@ =~= joined_artist_names(next));
            }
        }
        i = i + 1;
    }
    proof {
        assert(artists@.subrange(0, artists@.len() as int) =~= artists@);
    }
    Some(out)
}

} // verus!
