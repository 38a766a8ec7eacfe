//! What the library's views decide: which cover to show, the labels of the
//! queue buttons, the rating readout, sorting and searching of the album
//! grid, the add-to-playlist popover, and the library's mode switcher.
use vstd::prelude::*;
use vstd::string::*;
use crate::text::{decimal, push_decimal, str_eq, rfind_char, contains_str, seq_contains};
use crate::sort::{lowercased, to_lowercase};
use crate::album::{AlbumInfo, folder_of, strip_filename_linux};
use crate::client::{ServerErrorKind, error_kind_name};
use crate::library::{
    BackgroundTask, PlaylistEdit, QueueCommand, SaveMode, add_songs_to_playlist, album_terms_ok,
    play_start, queue_album, queue_songs,
};

verus! {

/// Where the cover on display came from.
#[derive(Debug, Clone, Copy, PartialEq, Eq, Structural)]
pub enum CoverSource {
    /// Still being looked up.
    Unknown,
    /// None found: the placeholder is shown.
    Placeholder,
    /// The cover file of the album's folder.
    Folder,
    /// The cover embedded in one of the album's tracks.
    Embedded,
}

/// A cover arrived for `uri`: the album's folder cover always replaces what is
/// shown; a track's embedded cover replaces it unless a folder cover is shown.
/// Thumbnails are ignored by the album page. The result is the new source, if
/// the cover is to be replaced.
pub fn cover_update_on_download(
    thumb: bool,
    uri: &str,
    folder_uri: &str,
    example_uri: &str,
    source: CoverSource,
) -> (res: Option<CoverSource>)
    ensures
        thumb ==> res is None,
        !thumb && folder_uri@ == uri@ ==> res == Some(CoverSource::Folder),
        !thumb && folder_uri@ != uri@ && source != CoverSource::Folder && example_uri@ == uri@
            ==> res == Some(CoverSource::Embedded),
        !thumb && folder_uri@ != uri@ && !(source != CoverSource::Folder && example_uri@ == uri@)
            ==> res is None,
{
    if thumb {
        None
    } else if str_eq(folder_uri, uri) {
        Some(CoverSource::Folder)
    } else if source != CoverSource::Folder && str_eq(example_uri, uri) {
        Some(CoverSource::Embedded)
    } else {
        None
    }
}

/// Whether a grid cell reloads its cover when one arrives for `uri`: for its
/// folder, or for its example track unless a folder cover is shown.
pub fn cover_refresh_needed(uri: &str, folder_uri: &str, example_uri: &str, source: CoverSource) -> (res:
    bool)
    ensures
        res == (folder_uri@ == uri@ || (source != CoverSource::Folder && example_uri@ == uri@)),
{
    if str_eq(folder_uri, uri) {
        true
    } else if source != CoverSource::Folder {
        str_eq(example_uri, uri)
    } else {
        false
    }
}

/// Whether the shown cover is dropped when the cover of `uri` is cleared:
/// only when it is the one shown.
pub fn cover_clear_needed(uri: &str, folder_uri: &str, example_uri: &str, source: CoverSource) -> (res:
    bool)
    ensures
        res == ((source == CoverSource::Folder && folder_uri@ == uri@) || (source
            == CoverSource::Embedded && example_uri@ == uri@)),
{
    match source {
        CoverSource::Folder => str_eq(folder_uri, uri),
        CoverSource::Embedded => str_eq(example_uri, uri),
        _ => false,
    }
}

/// A cover arrived for `uri` while a song row shows a thumbnail from
/// `source`: only thumbnails are taken; the song's own (embedded) cover
/// always replaces the shown one, and its folder's cover does so unless an
/// embedded one is shown. The result is the new source, if the thumbnail is
/// to be replaced.
pub fn song_row_thumbnail_update(thumb: bool, uri: &str, song_uri: &str, source: CoverSource) -> (res:
    Option<CoverSource>)
    ensures
        !thumb ==> res is None,
        thumb && song_uri@ == uri@ ==> res == Some(CoverSource::Embedded),
        thumb && song_uri@ != uri@ && source != CoverSource::Embedded && folder_of(song_uri@)
            == uri@ ==> res == Some(CoverSource::Folder),
        thumb && song_uri@ != uri@ && !(source != CoverSource::Embedded && folder_of(song_uri@)
            == uri@) ==> res is None,
{
    if !thumb {
        None
    } else if str_eq(song_uri, uri) {
        Some(CoverSource::Embedded)
    } else if source != CoverSource::Embedded && str_eq(strip_filename_linux(song_uri), uri) {
        Some(CoverSource::Folder)
    } else {
        None
    }
}

/// Whether a song row drops its thumbnail when the cover of `uri` is
/// cleared: a folder thumbnail for the song's folder, or an embedded one for
/// the song itself.
pub fn song_row_thumbnail_cleared(uri: &str, song_uri: &str, source: CoverSource) -> (res: bool)
    ensures
        res == ((source == CoverSource::Folder && folder_of(song_uri@) == uri@) || (source
            == CoverSource::Embedded && song_uri@ == uri@)),
{
    match source {
        CoverSource::Folder => str_eq(strip_filename_linux(song_uri), uri),
        CoverSource::Embedded => str_eq(song_uri, uri),
        _ => false,
    }
}

/// The source of a cover read from the cache.
pub fn cached_cover_source(is_embedded: bool) -> (res: CoverSource)
    ensures
        res == (if is_embedded {
            CoverSource::Embedded
        } else {
            CoverSource::Folder
        }),
{
    if is_embedded {
        CoverSource::Embedded
    } else {
        CoverSource::Folder
    }
}

/// The size a grid cell asks for: across, exactly the cover's size; down,
/// what its contents ask for.
pub fn album_cell_measure(horizontal: bool, image_size: i32, inner: (i32, i32, i32, i32)) -> (res: (
    i32,
    i32,
    i32,
    i32,
))
    ensures
        horizontal ==> res == (image_size, image_size, -1i32, -1i32),
        !horizontal ==> res == inner,
{
    if horizontal {
        (image_size, image_size, -1, -1)
    } else {
        inner
    }
}

/// The sum of a list of durations.
pub open spec fn sum_secs(s: Seq<u64>) -> nat
    decreases s.len(),
{
    if s.len() == 0 {
        0
    } else {
        sum_secs(s.drop_last()) + s.last() as nat
    }
}

/// A page's total running time: the songs' durations added up.
pub fn total_duration(secs: &Vec<u64>) -> (res: u64)
    requires
        sum_secs(secs@) <= u64::MAX,
    ensures
        res == sum_secs(secs@),
{
    let mut total: u64 = 0;
    let mut i: usize = 0;
    while i < secs.len()
        invariant
            i <= secs.len(),
            sum_secs(secs@) <= u64::MAX,
            total == sum_secs(secs@.subrange(0, i as int)),
        decreases secs.len() - i,
    {
        proof {
            assert(secs@.subrange(0, i + 1).drop_last() =~= secs@.subrange(0, i as int));
            lemma_sum_prefix_bounded(secs@, i + 1);
        }
        total = total + secs[i];
        i = i + 1;
    }
    proof {
        assert(secs@.subrange(0, secs.len() as int) =~= secs@);
    }
    total
}

/// A prefix adds up to no more than the whole.
proof fn lemma_sum_prefix_bounded(s: Seq<u64>, k: int)
    requires
        0 <= k <= s.len(),
    ensures
        sum_secs(s.subrange(0, k)) <= sum_secs(s),
    decreases s.len(),
{
    if k < s.len() {
        assert(s.drop_last().subrange(0, k) =~= s.subrange(0, k));
        lemma_sum_prefix_bounded(s.drop_last(), k);
    } else {
        assert(s.subrange(0, k) =~= s);
    }
}

/// The labels of the album page's buttons for a selection.
#[derive(Debug)]
pub struct SelectionLabels {
    /// Whether the buttons act on the whole album.
    pub selecting_all: bool,
    pub play: String,
    pub queue: String,
    pub queue_next: String,
}

/// Nothing or everything selected means the whole album.
pub open spec fn selects_all(n_sel: nat, n_items: nat) -> bool {
    n_sel == 0 || n_sel == n_items
}

/// The buttons' labels: "Play all", "Queue all", "Queue all next" for the
/// whole album, else "Play n", "Queue n", "Queue n next".
pub fn selection_labels(n_sel: u64, n_items: u32) -> (res: SelectionLabels)
    ensures
        res.selecting_all == selects_all(n_sel as nat, n_items as nat),
        res.selecting_all ==> res.play@ == "Play all"@ && res.queue@ == "Queue all"@
            && res.queue_next@ == "Queue all next"@,
        !res.selecting_all ==> res.play@ == "Play "@ + decimal(n_sel as nat) && res.queue@
            == "Queue "@ + decimal(n_sel as nat) && res.queue_next@ == "Queue "@ + decimal(
            n_sel as nat,
        ) + " next"@,
{
    if n_sel == 0 || n_sel == n_items as u64 {
        SelectionLabels {
            selecting_all: true,
            play: "Play all".to_owned(),
            queue: "Queue all".to_owned(),
            queue_next: "Queue all next".to_owned(),
        }
    } else {
        let mut play = "Play ".to_owned();
        push_decimal(&mut play, n_sel);
        let mut queue = "Queue ".to_owned();
        push_decimal(&mut queue, n_sel);
        let mut queue_next = "Queue ".to_owned();
        push_decimal(&mut queue_next, n_sel);
        queue_next.append(" next");
        SelectionLabels { selecting_all: false, play, queue, queue_next }
    }
}

/// The rating readout: "Unrated" below zero, else the number of stars with
/// one decimal (the rating counts half stars).
pub open spec fn rating_text(r: int) -> Seq<char> {
    if r < 0 {
        "Unrated"@
    } else {
        decimal((r / 2) as nat) + (if r % 2 == 0 {
            ".0"@
        } else {
            ".5"@
        })
    }
}

/// Formats the rating readout.
pub fn rating_readout(r: i8) -> (res: String)
    ensures
        res@ == rating_text(r as int),
{
    if r < 0 {
        "Unrated".to_owned()
    } else {
        let mut out = String::new();
        push_decimal(&mut out, (r / 2) as u64);
        if r % 2 == 0 {
            out.append(".0");
        } else {
            out.append(".5");
        }
        out
    }
}

/// The rating stored when the user sets the stars: positive values only; zero
/// clears it.
pub fn rating_from_widget(value: i8) -> (res: Option<i8>)
    ensures
        res == (if value > 0 {
            Some(value)
        } else {
            None
        }),
{
    if value > 0 {
        Some(value)
    } else {
        None
    }
}

/// The icon of the button that folds the info box.
pub fn infobox_icon(revealed: bool) -> (res: &'static str)
    ensures
        revealed ==> res@ == "up-symbolic"@,
        !revealed ==> res@ == "down-symbolic"@,
{
    if revealed {
        "up-symbolic"
    } else {
        "down-symbolic"
    }
}

/// The icon of the sort-direction button.
pub fn sort_direction_icon(direction: &str) -> (res: &'static str)
    ensures
        direction@ == "asc"@ ==> res@ == "view-sort-ascending-symbolic"@,
        direction@ != "asc"@ ==> res@ == "view-sort-descending-symbolic"@,
{
    if str_eq(direction, "asc") {
        "view-sort-ascending-symbolic"
    } else {
        "view-sort-descending-symbolic"
    }
}

/// The label of the sort-by button for a setting; other settings have none.
pub fn sort_mode_label(sort_by: &str) -> (res: Option<&'static str>)
    ensures
        sort_by@ == "album-title"@ ==> res is Some && res->0@ == "Title"@,
        sort_by@ == "album-artist"@ ==> res is Some && res->0@ == "AlbumArtist"@,
        sort_by@ == "release-date"@ ==> res is Some && res->0@ == "Release date"@,
        sort_by@ != "album-title"@ && sort_by@ != "album-artist"@ && sort_by@ != "release-date"@
            ==> res is None,
{
    proof {
        reveal_strlit("album-title");
        reveal_strlit("album-artist");
        reveal_strlit("release-date");
        assert("album-title"@.len() != "album-artist"@.len());
        assert("album-title"@.len() != "release-date"@.len());
        assert("album-artist"@[0] != "release-date"@[0]);
    }
    if str_eq(sort_by, "album-title") {
        Some("Title")
    } else if str_eq(sort_by, "album-artist") {
        Some("AlbumArtist")
    } else if str_eq(sort_by, "release-date") {
        Some("Release date")
    } else {
        None
    }
}

/// The direction after the sort-direction button is clicked: ascending
/// becomes descending, anything else ascending.
pub fn toggled_sort_direction(direction: &str) -> (res: &'static str)
    ensures
        direction@ == "asc"@ ==> res@ == "desc"@,
        direction@ != "asc"@ ==> res@ == "asc"@,
{
    if str_eq(direction, "asc") {
        "desc"
    } else {
        "asc"
    }
}

/// The folder browser's sort-by setting names, by menu position.
pub open spec fn folder_sort_name(index: u32) -> Seq<char> {
    if index == 0 {
        "filename"@
    } else {
        "last-modified"@
    }
}

/// The menu position of a sort-by setting name.
pub open spec fn folder_sort_pos(name: Seq<char>) -> Option<u32> {
    if name == "filename"@ {
        Some(0u32)
    } else if name == "last-modified"@ {
        Some(1u32)
    } else {
        None
    }
}

/// The folder browser's sort-by menu position of a setting.
pub fn folder_sort_index(sort_by: &str) -> (res: Option<u32>)
    ensures
        res == folder_sort_pos(sort_by@),
{
    if str_eq(sort_by, "filename") {
        Some(0)
    } else if str_eq(sort_by, "last-modified") {
        Some(1)
    } else {
        None
    }
}

/// The folder browser's sort-by setting of a menu position.
pub fn folder_sort_setting(index: u32) -> (res: Option<&'static str>)
    ensures
        index <= 1 ==> res is Some && res->0@ == folder_sort_name(index),
        index > 1 ==> res is None,
{
    match index {
        0 => Some("filename"),
        1 => Some("last-modified"),
        _ => None,
    }
}

/// Storing a sort-by menu position and reading it back gives it back.
pub proof fn lemma_folder_sort_roundtrip(index: u32)
    requires
        index <= 1,
    ensures
        folder_sort_pos(folder_sort_name(index)) == Some(index),
{
    reveal_strlit("filename");
    reveal_strlit("last-modified");
    assert("filename"@.len() != "last-modified"@.len());
}

/// What the album grid sorts by.
#[derive(Debug, Clone, Copy, PartialEq, Eq, Structural)]
pub enum AlbumSortKey {
    Title,
    AlbumArtist,
    ReleaseDate,
}

/// The sort key of the settings' sort-by number (3, 4 or 5).
pub fn album_sort_key(sort_by: i32) -> (res: Option<AlbumSortKey>)
    ensures
        sort_by == 3 ==> res == Some(AlbumSortKey::Title),
        sort_by == 4 ==> res == Some(AlbumSortKey::AlbumArtist),
        sort_by == 5 ==> res == Some(AlbumSortKey::ReleaseDate),
        sort_by != 3 && sort_by != 4 && sort_by != 5 ==> res is None,
{
    match sort_by {
        3 => Some(AlbumSortKey::Title),
        4 => Some(AlbumSortKey::AlbumArtist),
        5 => Some(AlbumSortKey::ReleaseDate),
        _ => None,
    }
}

/// What the folder and playlist lists sort by.
#[derive(Debug, Clone, Copy, PartialEq, Eq, Structural)]
pub enum INodeSortKey {
    Filename,
    LastModified,
}

/// The sort key of the settings' sort-by number for those lists (6 or 7).
pub fn inode_sort_key(sort_by: i32) -> (res: Option<INodeSortKey>)
    ensures
        sort_by == 6 ==> res == Some(INodeSortKey::Filename),
        sort_by == 7 ==> res == Some(INodeSortKey::LastModified),
        sort_by != 6 && sort_by != 7 ==> res is None,
{
    match sort_by {
        6 => Some(INodeSortKey::Filename),
        7 => Some(INodeSortKey::LastModified),
        _ => None,
    }
}

/// Whether the sort is ascending: the direction setting is past its first
/// value.
pub fn sort_ascending(direction: i32) -> (res: bool)
    ensures
        res == (direction > 0),
{
    direction > 0
}

/// Whether an album passes the grid's search: an empty search passes all;
/// mode 0 matches title or album artist, mode 1 the title, mode 2 the album
/// artist, other modes pass all.
pub fn album_search_passes(term_empty: bool, mode: u32, title_matches: bool, artist_matches: bool) -> (res:
    bool)
    ensures
        term_empty ==> res,
        !term_empty && mode == 0 ==> res == (title_matches || artist_matches),
        !term_empty && mode == 1 ==> res == title_matches,
        !term_empty && mode == 2 ==> res == artist_matches,
        !term_empty && mode > 2 ==> res,
{
    if term_empty {
        true
    } else {
        match mode {
            0 => title_matches || artist_matches,
            1 => title_matches,
            2 => artist_matches,
            _ => true,
        }
    }
}

/// Whether a text holds the search term: as written when the search is
/// case-sensitive, else with both lowercased. A missing text never does.
pub open spec fn search_hit(text: Option<Seq<char>>, term: Seq<char>, case_sensitive: bool) -> bool {
    match text {
        Some(t) => if case_sensitive {
            seq_contains(t, term)
        } else {
            seq_contains(lowercased(t), lowercased(term))
        },
        None => false,
    }
}

/// The view of an optional text.
pub open spec fn opt_view(s: Option<&str>) -> Option<Seq<char>> {
    match s {
        Some(t) => Some(t@),
        None => None,
    }
}

/// Whether an optional text holds the search term (see `search_hit`).
pub fn g_search_substr(text: Option<&str>, term: &str, case_sensitive: bool) -> (res: bool)
    ensures
        res == search_hit(opt_view(text), term@, case_sensitive),
{
    match text {
        Some(t) => if case_sensitive {
            contains_str(t, term)
        } else {
            let lt = to_lowercase(t);
            let lterm = to_lowercase(term);
            contains_str(lt.as_str(), lterm.as_str())
        },
        None => false,
    }
}

/// Whether an album passes the grid's search, from its title and album
/// artist: an empty term passes every album; mode 0 looks in the title or
/// the album artist, mode 1 in the title, mode 2 in the album artist (an
/// album without one never matches), and other modes pass every album.
pub fn album_matches(
    title: &str,
    artist: Option<&str>,
    term: &str,
    mode: u32,
    case_sensitive: bool,
) -> (res: bool)
    ensures
        term@.len() == 0 ==> res,
        term@.len() > 0 && mode == 0 ==> res == (search_hit(Some(title@), term@, case_sensitive)
            || search_hit(opt_view(artist), term@, case_sensitive)),
        term@.len() > 0 && mode == 1 ==> res == search_hit(Some(title@), term@, case_sensitive),
        term@.len() > 0 && mode == 2 ==> res == search_hit(opt_view(artist), term@, case_sensitive),
        term@.len() > 0 && mode > 2 ==> res,
        term@.len() > 0 && mode == 2 && artist is None ==> !res,
{
    if term.unicode_len() == 0 {
        return true;
    }
    match mode {
        0 => g_search_substr(Some(title), term, case_sensitive) || g_search_substr(
            artist,
            term,
            case_sensitive,
        ),
        1 => g_search_substr(Some(title), term, case_sensitive),
        2 => g_search_substr(artist, term, case_sensitive),
        _ => true,
    }
}

/// How a changed search term changes the filter.
#[derive(Debug, Clone, Copy, PartialEq, Eq, Structural)]
pub enum FilterChange {
    MoreStrict,
    LessStrict,
    Different,
}

/// A longer term filters more strictly, a shorter one less; the same length
/// means another filter.
pub fn search_filter_change(new_len: usize, old_len: usize) -> (res: FilterChange)
    ensures
        new_len > old_len ==> res == FilterChange::MoreStrict,
        new_len < old_len ==> res == FilterChange::LessStrict,
        new_len == old_len ==> res == FilterChange::Different,
{
    if new_len > old_len {
        FilterChange::MoreStrict
    } else if new_len < old_len {
        FilterChange::LessStrict
    } else {
        FilterChange::Different
    }
}

/// Whether the add-to-playlist popover creates a new playlist: with several
/// matches and none selected; with one match and none selected when its name
/// differs from the typed one; else when nothing matches.
pub open spec fn will_create_spec(
    n_items: nat,
    has_selection: bool,
    first_uri: Seq<char>,
    typed: Seq<char>,
) -> bool {
    if n_items > 1 && !has_selection {
        true
    } else if n_items == 1 && !has_selection {
        first_uri != typed
    } else {
        n_items == 0
    }
}

/// Decides whether the popover creates a playlist.
pub fn will_create(n_items: u32, has_selection: bool, first_uri: &str, typed: &str) -> (res: bool)
    ensures
        res == will_create_spec(n_items as nat, has_selection, first_uri@, typed@),
{
    if n_items > 1 && !has_selection {
        true
    } else if n_items == 1 && !has_selection {
        !str_eq(first_uri, typed)
    } else {
        n_items == 0
    }
}

/// The playlist the popover writes to: the typed name when creating (none if
/// empty); else the selected playlist, or the first match.
pub fn playlist_target_name(
    will_create: bool,
    typed: &str,
    selected: Option<&str>,
    first: Option<&str>,
) -> (res: Option<String>)
    ensures
        will_create && typed@.len() == 0 ==> res is None,
        will_create && typed@.len() > 0 ==> res is Some && res->0@ == typed@,
        !will_create && selected is Some ==> res is Some && res->0@ == selected->0@,
        !will_create && selected is None && first is Some ==> res is Some && res->0@ == first->0@,
        !will_create && selected is None && first is None ==> res is None,
{
    if will_create {
        if typed.unicode_len() == 0 {
            None
        } else {
            Some(typed.to_owned())
        }
    } else {
        match selected {
            Some(s) => Some(s.to_owned()),
            None => match first {
                Some(f) => Some(f.to_owned()),
                None => None,
            },
        }
    }
}

/// The popover's button label: `Create "name"` or `Append to "name"`.
pub fn add_button_label(will_create: bool, name: &str) -> (res: String)
    ensures
        will_create ==> res@ == "Create \""@ + name@ + "\""@,
        !will_create ==> res@ == "Append to \""@ + name@ + "\""@,
{
    let mut out = if will_create {
        "Create \"".to_owned()
    } else {
        "Append to \"".to_owned()
    };
    out.append(name);
    out.append("\"");
    out
}

/// The songs to add: the selected positions, or every position when none is
/// selected.
pub fn songs_to_add(selected: &Vec<u32>, n_items: u32) -> (res: Vec<u32>)
    ensures
        selected.len() > 0 ==> res@ == selected@,
        selected.len() == 0 ==> res.len() == n_items && forall|k: int|
            0 <= k < n_items ==> #[trigger] res[k] == k,
{
    let mut out: Vec<u32> = Vec::new();
    if selected.len() > 0 {
        let mut i: usize = 0;
        while i < selected.len()
            invariant
                i <= selected.len(),
                out@ == selected@.subrange(0, i as int),
            decreases selected.len() - i,
        {
            out.push(selected[i]);
            proof {
                assert(out@ =~= selected@.subrange(0, i + 1));
            }
            i = i + 1;
        }
        proof {
            assert(selected@.subrange(0, selected.len() as int) =~= selected@);
        }
    } else {
        let mut k: u32 = 0;
        while k < n_items
            invariant
                k <= n_items,
                out.len() == k,
                forall|j: int| 0 <= j < k ==> #[trigger] out[j] == j,
            decreases n_items - k,
        {
            out.push(k);
            k = k + 1;
        }
    }
    out
}

/// A click on the add button of the playlist popover: without a playlist
/// name nothing happens; with one, the songs (see `songs_to_add`) are
/// appended to that playlist, one addition per song in order, with nothing
/// cleared. A playlist of that name that does not exist yet is created by the
/// daemon.
pub fn add_button_clicked(name: Option<&str>, uris: &Vec<String>) -> (res: Option<
    Vec<PlaylistEdit>,
>)
    ensures
        name is None ==> res is None,
        name matches Some(n) ==> (res matches Some(edits) && edits.len() == uris.len() && forall|
            k: int,
        |
            0 <= k < edits.len() ==> match #[trigger] edits[k] {
                PlaylistEdit::Add(p, u) => p@ == n@ && u == uris[k],
                _ => false,
            }),
{
    match name {
        Some(n) => Some(add_songs_to_playlist(n, uris, SaveMode::Append)),
        None => None,
    }
}

/// The album page's queue buttons: "play" replaces the queue and starts
/// playing, "append" adds to it. With the whole album selected the album is
/// queued by its tags; otherwise the selected songs are queued by URI.
pub fn album_queue_clicked(
    album: &AlbumInfo,
    selecting_all: bool,
    replace: bool,
    selected_uris: &Vec<String>,
) -> (res: QueueCommand)
    ensures
        res.clear_first == replace,
        selecting_all ==> match res.task {
            BackgroundTask::QueueQuery(terms, from) => album_terms_ok(terms@, *album) && from
                == play_start(replace, replace, None),
            _ => false,
        },
        !selecting_all ==> match res.task {
            BackgroundTask::QueueUris(u, rec, from, at) => u@ == selected_uris@ && !rec && from
                == play_start(replace, replace, Some(0)) && at is None,
            _ => false,
        },
{
    if selecting_all {
        queue_album(album, replace, replace, None)
    } else {
        queue_songs(selected_uris, replace, replace)
    }
}

/// Activating a song row of the album page replaces the queue with the
/// album and plays from that row.
pub fn album_row_activated(album: &AlbumInfo, position: u32) -> (res: QueueCommand)
    ensures
        res.clear_first,
        match res.task {
            BackgroundTask::QueueQuery(terms, from) => album_terms_ok(terms@, *album) && from
                == Some(position),
            _ => false,
        },
{
    queue_album(album, true, true, Some(position))
}

/// Whether the playlist page's rename button is active: a playlist is shown
/// and a name was typed that differs from its current one.
pub fn rename_button_sensitive(text: &str, current_name: Option<&str>) -> (res: bool)
    ensures
        res == (current_name matches Some(n) && text@.len() > 0 && text@ != n@),
{
    match current_name {
        Some(n) => text.unicode_len() > 0 && !str_eq(text, n),
        None => false,
    }
}

/// The text of the dialog shown when renaming a playlist failed: only an
/// error from the daemon is shown; a name already taken and a playlist that
/// does not exist have their own messages, other codes are named.
pub fn rename_failure_message(error: Option<ServerErrorKind>, new_name: &str) -> (res: Option<
    String,
>)
    ensures
        error is None ==> res is None,
        error == Some(ServerErrorKind::Exist) ==> (res matches Some(m) && m@
            == "There is already another playlist named \""@ + new_name@
            + "\". Please pick another name."@),
        error == Some(ServerErrorKind::NoExist) ==> (res matches Some(m) && m@
            == "Internal error: tried to rename a nonexistent playlist"@),
        (error matches Some(k) && k != ServerErrorKind::Exist && k != ServerErrorKind::NoExist)
            ==> (res matches Some(m) && m@ == "Internal error ("@ + error_kind_name(error->0)
            + ")"@),
{
    match error {
        None => None,
        Some(ServerErrorKind::Exist) => {
            let mut m = "There is already another playlist named \"".to_owned();
            m.append(new_name);
            m.append("\". Please pick another name.");
            Some(m)
        },
        Some(ServerErrorKind::NoExist) => Some(
            "Internal error: tried to rename a nonexistent playlist".to_owned(),
        ),
        Some(k) => {
            let mut m = "Internal error (".to_owned();
            m.append(k.name());
            m.append(")");
            Some(m)
        },
    }
}

/// The library's pages, cycled through in the order albums, artists,
/// folders.
#[derive(Debug, Clone, Copy, PartialEq, Eq, Structural)]
pub enum LibraryMode {
    Albums,
    Artists,
    Folders,
}

/// The next page.
pub open spec fn next_mode_spec(m: LibraryMode) -> LibraryMode {
    match m {
        LibraryMode::Albums => LibraryMode::Artists,
        LibraryMode::Artists => LibraryMode::Folders,
        LibraryMode::Folders => LibraryMode::Albums,
    }
}

/// The previous page.
pub open spec fn prev_mode_spec(m: LibraryMode) -> LibraryMode {
    match m {
        LibraryMode::Albums => LibraryMode::Folders,
        LibraryMode::Artists => LibraryMode::Albums,
        LibraryMode::Folders => LibraryMode::Artists,
    }
}

/// The page after this one.
pub fn next_mode(m: LibraryMode) -> (res: LibraryMode)
    ensures
        res == next_mode_spec(m),
{
    match m {
        LibraryMode::Albums => LibraryMode::Artists,
        LibraryMode::Artists => LibraryMode::Folders,
        LibraryMode::Folders => LibraryMode::Albums,
    }
}

/// The page before this one.
pub fn prev_mode(m: LibraryMode) -> (res: LibraryMode)
    ensures
        res == prev_mode_spec(m),
{
    match m {
        LibraryMode::Albums => LibraryMode::Folders,
        LibraryMode::Artists => LibraryMode::Albums,
        LibraryMode::Folders => LibraryMode::Artists,
    }
}

/// Previous undoes next and back; three steps come round again.
pub proof fn lemma_mode_cycle(m: LibraryMode)
    ensures
        prev_mode_spec(next_mode_spec(m)) == m,
        next_mode_spec(prev_mode_spec(m)) == m,
        next_mode_spec(next_mode_spec(next_mode_spec(m))) == m,
{
}

/// The page of a stack child's name.
pub fn mode_of_name(name: &str) -> (res: Option<LibraryMode>)
    ensures
        name@ == "albums"@ ==> res == Some(LibraryMode::Albums),
        name@ == "artists"@ ==> res == Some(LibraryMode::Artists),
        name@ == "folders"@ ==> res == Some(LibraryMode::Folders),
        name@ != "albums"@ && name@ != "artists"@ && name@ != "folders"@ ==> res is None,
{
    proof {
        reveal_strlit("albums");
        reveal_strlit("artists");
        reveal_strlit("folders");
        assert("albums"@.len() != "artists"@.len());
        assert("albums"@.len() != "folders"@.len());
        assert("artists"@[0] != "folders"@[0]);
    }
    if str_eq(name, "albums") {
        Some(LibraryMode::Albums)
    } else if str_eq(name, "artists") {
        Some(LibraryMode::Artists)
    } else if str_eq(name, "folders") {
        Some(LibraryMode::Folders)
    } else {
        None
    }
}

/// The stack child's name of a page.
pub fn mode_name(m: LibraryMode) -> (res: &'static str)
    ensures
        m == LibraryMode::Albums ==> res@ == "albums"@,
        m == LibraryMode::Artists ==> res@ == "artists"@,
        m == LibraryMode::Folders ==> res@ == "folders"@,
{
    match m {
        LibraryMode::Albums => "albums",
        LibraryMode::Artists => "artists",
        LibraryMode::Folders => "folders",
    }
}

/// What a folder-browser entry is.
#[derive(Debug, Clone, Copy, PartialEq, Eq, Structural)]
pub enum INodeType {
    Unknown,
    Song,
    Folder,
    Playlist,
}

/// The icon of an entry's type.
pub open spec fn inode_icon(t: INodeType) -> Seq<char> {
    match t {
        INodeType::Folder => "folder-symbolic"@,
        INodeType::Song => "music-note-single-symbolic"@,
        INodeType::Playlist => "playlist-symbolic"@,
        INodeType::Unknown => "paper-symbolic"@,
    }
}

impl INodeType {
    pub fn icon_name(&self) -> (res: &'static str)
        ensures
            res@ == inode_icon(*self),
    {
        match self {
            INodeType::Folder => "folder-symbolic",
            INodeType::Song => "music-note-single-symbolic",
            INodeType::Playlist => "playlist-symbolic",
            INodeType::Unknown => "paper-symbolic",
        }
    }
}

/// An entry of the folder browser.
#[derive(Debug)]
pub struct INodeInfo {
    pub uri: String,
    pub last_modified: Option<String>,
    pub inode_type: INodeType,
}

/// The last part of a URI: what follows its last `/`, or all of it.
pub open spec fn last_segment(uri: Seq<char>) -> Seq<char> {
    if exists|i: int| 0 <= i < uri.len() && uri[i] == '/' {
        let i = choose|i: int|
            0 <= i < uri.len() && uri[i] == '/' && forall|j: int| i < j < uri.len() ==> uri[j] != '/';
        uri.subrange(i + 1, uri.len() as int)
    } else {
        uri
    }
}

impl INodeInfo {
    pub fn new(uri: &str, last_modified: Option<&str>, inode_type: INodeType) -> (res: Self)
        ensures
            res.uri@ == uri@,
            match last_modified {
                Some(m) => res.last_modified is Some && res.last_modified->0@ == m@,
                None => res.last_modified is None,
            },
            res.inode_type == inode_type,
    {
        let lm = match last_modified {
            Some(m) => Some(m.to_owned()),
            None => None,
        };
        INodeInfo { uri: uri.to_owned(), last_modified: lm, inode_type }
    }

    /// An unknown entry with an empty URI.
    pub fn default() -> (res: Self)
        ensures
            res.uri@ == Seq::<char>::empty(),
            res.last_modified is None,
            res.inode_type == INodeType::Unknown,
    {
        INodeInfo { uri: String::new(), last_modified: None, inode_type: INodeType::Unknown }
    }

    /// The name shown: the last part of the URI.
    pub fn get_name(&self) -> (res: String)
        ensures
            res@ == last_segment(self.uri@),
    {
        let s = self.uri.as_str();
        let n = s.unicode_len();
        match rfind_char(s, '/') {
            Some(i) => {
                proof {
                    let c = choose|x: int|
                        0 <= x < s@.len() && s@[x] == '/' && forall|j: int|
                            x < j < s@.len() ==> s@[j] != '/';
                    assert(s@[i as int] == '/');
                    if c < i {
                        assert(s@[i as int] != '/');
                    }
                    if i < c {
                        assert(s@[c] != '/');
                    }
                }
                s.substring_char(i + 1, n).to_owned()
            },
            None => s.to_owned(),
        }
    }
}

/// A text that holds a `/` has a last one.
proof fn lemma_last_slash(uri: Seq<char>)
    requires
        exists|i: int| 0 <= i < uri.len() && uri[i] == '/',
    ensures
        exists|i: int|
            0 <= i < uri.len() && uri[i] == '/' && forall|j: int| i < j < uri.len() ==> uri[j] != '/',
    decreases uri.len(),
{
    let n = uri.len() as int;
    if uri[n - 1] == '/' {
        assert(forall|j: int| n - 1 < j < n ==> uri[j] != '/');
    } else {
        let d = uri.drop_last();
        let w = choose|i: int| 0 <= i < uri.len() && uri[i] == '/';
        assert(d[w] == '/');
        lemma_last_slash(d);
        let i = choose|i: int|
            0 <= i < d.len() && d[i] == '/' && forall|j: int| i < j < d.len() ==> d[j] != '/';
        assert(uri[i] == '/');
        assert forall|j: int| i < j < n implies uri[j] != '/' by {
            if j < n - 1 {
                assert(uri[j] == d[j]);
            }
        }
    }
}

/// A URI is its folder followed by its last part: the folder is empty or
/// ends with `/`, and the last part holds no `/`.
pub proof fn lemma_folder_and_last_segment(uri: Seq<char>)
    ensures
        folder_of(uri) + last_segment(uri) == uri,
        forall|i: int| 0 <= i < last_segment(uri).len() ==> #[trigger] last_segment(uri)[i] != '/',
        folder_of(uri).len() == 0 || folder_of(uri).last() == '/',
{
    if exists|i: int| 0 <= i < uri.len() && uri[i] == '/' {
        lemma_last_slash(uri);
        let i = choose|i: int|
            0 <= i < uri.len() && uri[i] == '/' && forall|j: int| i < j < uri.len() ==> uri[j] != '/';
        assert(folder_of(uri) == uri.subrange(0, i + 1));
        assert(last_segment(uri) == uri.subrange(i + 1, uri.len() as int));
        assert(folder_of(uri) + last_segment(uri) =~= uri);
    } else {
        assert(folder_of(uri) + last_segment(uri) =~= uri);
    }
}

} // verus!
