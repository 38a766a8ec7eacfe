//! The library controller's decisions: what to ask the background worker for,
//! and the folder browser's navigation history.
use vstd::prelude::*;
use vstd::string::*;
use crate::album::AlbumInfo;
use crate::song::SongInfo;
use crate::text::{join_with, views, i8_to_string, signed_decimal};
use crate::views::{INodeInfo, INodeType, last_segment};

verus! {

/// A condition of a search: a tag and a value, matched exactly or as a
/// substring.
#[derive(Debug)]
pub struct QueryTerm {
    pub tag: String,
    pub value: String,
    pub contains: bool,
}

/// Work for the background worker.
#[derive(Debug)]
pub enum BackgroundTask {
    Update,
    /// URIs to queue, whether folders are queued recursively, the position to
    /// start playing from, the queue position to insert at.
    QueueUris(Vec<String>, bool, Option<u32>, Option<u32>),
    /// Songs matching all terms, and the position to start playing from.
    QueueQuery(Vec<QueryTerm>, Option<u32>),
    QueuePlaylist(String, Option<u32>),
    DownloadFolderCover(AlbumInfo),
    DownloadEmbeddedCover(SongInfo),
    /// The whole queue.
    FetchQueue,
    /// Queue changes since a version, for a queue of a length.
    FetchQueueChanges(u32, u32),
    FetchFolderContents(String),
    FetchAlbums,
    FetchRecentAlbums,
    FetchAlbumSongs(String),
    /// All artists; from the AlbumArtist tag when set.
    FetchArtists(bool),
    FetchRecentArtists,
    FetchArtistSongs(String),
    FetchArtistAlbums(String),
    FetchPlaylistSongs(String),
    FetchRecentSongs(u32),
}

/// A request to the worker, after clearing the queue when `clear_first`.
#[derive(Debug)]
pub struct QueueCommand {
    pub clear_first: bool,
    pub task: BackgroundTask,
}

/// Where playback starts after queueing: at the given position only when
/// the queue is replaced and playback asked for.
pub open spec fn play_start(replace: bool, play: bool, from: Option<u32>) -> Option<u32> {
    if replace && play {
        from
    } else {
        None
    }
}

/// How a playlist is written.
#[derive(Debug, Clone, Copy, PartialEq, Eq, Structural)]
pub enum SaveMode {
    Create,
    Append,
    Replace,
}

/// One edit of a stored playlist.
#[derive(Debug)]
pub enum PlaylistEdit {
    /// Empty the playlist.
    Clear(String),
    /// Append a URI to the playlist.
    Add(String, String),
}

/// A sticker command on the daemon: type, URI, name, and the value to set
/// (none to delete).
#[derive(Debug)]
pub struct StickerCommand {
    pub typ: String,
    pub uri: String,
    pub name: String,
    pub value: Option<String>,
}

/// The name of the rating sticker.
pub open spec fn rating_key() -> Seq<char> {
    "rating"@
}

/// Copies a list of strings.
fn copy_strings(v: &Vec<String>) -> (res: Vec<String>)
    ensures
        res@ == v@,
{
    let mut out: Vec<String> = Vec::new();
    let mut i: usize = 0;
    while i < v.len()
        invariant
            i <= v.len(),
            out@ == v@.subrange(0, i as int),
        decreases v.len() - i,
    {
        out.push(v[i].clone());
        proof {
            assert(out@ =~= v@.subrange(0, i + 1));
        }
        i = i + 1;
    }
    proof {
        assert(v@.subrange(0, v.len() as int) =~= v@);
    }
    out
}

/// The library's state: the folder browser's history and cursor, and which
/// lists were already asked for.
pub struct Library {
    folder_history: Vec<String>,
    folder_curr_idx: u32,
    folder_inodes_initialized: bool,
    albums_initialized: bool,
    artists_initialized: bool,
    playlists_initialized: bool,
}

/// The folder browser: the names walked into, and how many of them are the
/// current path.
pub struct FolderState {
    pub history: Seq<String>,
    pub curr_idx: nat,
    pub contents_requested: bool,
}

/// The current folder path: the names before the cursor, joined by `/`.
pub open spec fn folder_path_of(history: Seq<String>, idx: nat) -> Seq<char> {
    join_with(views(history.subrange(0, idx as int)), seq!['/'])
}

impl View for Library {
    type V = FolderState;

    closed spec fn view(&self) -> FolderState {
        FolderState {
            history: self.folder_history@,
            curr_idx: self.folder_curr_idx as nat,
            contents_requested: self.folder_inodes_initialized,
        }
    }
}

impl Library {
    /// The cursor lies within the history, and the history's length fits the
    /// counter.
    pub open spec fn wf(&self) -> bool {
        &&& self@.curr_idx <= self@.history.len()
        &&& self@.history.len() <= u32::MAX
    }

    pub closed spec fn spec_albums_initialized(&self) -> bool {
        self.albums_initialized
    }

    pub closed spec fn spec_artists_initialized(&self) -> bool {
        self.artists_initialized
    }

    pub closed spec fn spec_playlists_initialized(&self) -> bool {
        self.playlists_initialized
    }

    /// At the root, nothing fetched yet.
    pub fn new() -> (res: Self)
        ensures
            res.wf(),
            res@.history.len() == 0,
            res@.curr_idx == 0,
            !res@.contents_requested,
            !res.spec_albums_initialized(),
            !res.spec_artists_initialized(),
            !res.spec_playlists_initialized(),
    {
        Library {
            folder_history: Vec::new(),
            folder_curr_idx: 0,
            folder_inodes_initialized: false,
            albums_initialized: false,
            artists_initialized: false,
            playlists_initialized: false,
        }
    }

    /// Forgets everything: back at the root, nothing fetched.
    pub fn clear(&mut self)
        ensures
            final(self).wf(),
            final(self)@.history.len() == 0,
            final(self)@.curr_idx == 0,
            !final(self)@.contents_requested,
            !final(self).spec_albums_initialized(),
            !final(self).spec_artists_initialized(),
            !final(self).spec_playlists_initialized(),
    {
        self.folder_history = Vec::new();
        self.folder_curr_idx = 0;
        self.folder_inodes_initialized = false;
        self.albums_initialized = false;
        self.artists_initialized = false;
        self.playlists_initialized = false;
    }

    pub fn folder_curr_idx(&self) -> (res: u32)
        ensures
            res == self@.curr_idx,
    {
        self.folder_curr_idx
    }

    pub fn folder_history_len(&self) -> (res: u32)
        requires
            self.wf(),
        ensures
            res == self@.history.len(),
    {
        self.folder_history.len() as u32
    }

    /// The current folder path; empty at the root.
    pub fn folder_path(&self) -> (res: String)
        requires
            self.wf(),
        ensures
            res@ == folder_path_of(self@.history, self@.curr_idx),
    {
        let mut out = String::new();
        let n = self.folder_curr_idx as usize;
        let mut i: usize = 0;
        proof {
            reveal_strlit("/");
        }
        while i < n
            invariant
                n == self@.curr_idx,
                n <= self.folder_history.len(),
                i <= n,
                out@ == folder_path_of(self@.history, i as nat),
                "/"@ == seq!['/'],
            decreases n - i,
        {
            let ghost prev = views(self.folder_history@.subrange(0, i as int));
            let ghost next = views(self.folder_history@.subrange(0, i + 1));
            proof {
                assert(next.drop_last() =~= prev);
                assert(next.last() == self.folder_history@[i as int]@);
            }
            if i > 0 {
                out.append("/");
            }
            out.append(self.folder_history[i].as_str());
            proof {
                assert(out@ =~= join_with(next, seq!['/']));
            }
            i = i + 1;
        }
        out
    }

    /// Asks for the contents of a folder, unless they were already asked for
    /// since the last navigation. The result is the request made, if any.
    pub fn get_folder_contents(&mut self, uri: &str) -> (res: Option<BackgroundTask>)
        ensures
            !old(self)@.contents_requested ==> res is Some && match res->0 {
                BackgroundTask::FetchFolderContents(u) => u@ == uri@,
                _ => false,
            },
            old(self)@.contents_requested ==> res is None,
            final(self)@ == (FolderState { contents_requested: true, ..old(self)@ }),
            final(self).spec_albums_initialized() == old(self).spec_albums_initialized(),
            final(self).spec_artists_initialized() == old(self).spec_artists_initialized(),
            final(self).spec_playlists_initialized() == old(self).spec_playlists_initialized(),
    {
        if !self.folder_inodes_initialized {
            self.folder_inodes_initialized = true;
            Some(BackgroundTask::FetchFolderContents(uri.to_owned()))
        } else {
            None
        }
    }

    /// Goes one folder up, if not at the root, and asks for its contents.
    pub fn folder_backward(&mut self) -> (res: Option<BackgroundTask>)
        requires
            old(self).wf(),
        ensures
            final(self).wf(),
            final(self)@.history == old(self)@.history,
            old(self)@.curr_idx == 0 ==> final(self)@ == old(self)@ && res is None,
            final(self)@.curr_idx == cursor_after_backward(old(self)@),
            old(self)@.curr_idx > 0 ==> final(self)@.contents_requested && (!old(self)@.contents_requested
                ==> res is Some && match res->0 {
                BackgroundTask::FetchFolderContents(u) => u@ == folder_path_of(
                    old(self)@.history,
                    (old(self)@.curr_idx - 1) as nat,
                ),
                _ => false,
            }) && (old(self)@.contents_requested ==> res is None),
            final(self).spec_albums_initialized() == old(self).spec_albums_initialized(),
            final(self).spec_artists_initialized() == old(self).spec_artists_initialized(),
            final(self).spec_playlists_initialized() == old(self).spec_playlists_initialized(),
    {
        let curr_idx = self.folder_curr_idx;
        if curr_idx > 0 {
            self.folder_curr_idx = curr_idx - 1;
            let path = self.folder_path();
            self.get_folder_contents(path.as_str())
        } else {
            None
        }
    }

    /// Goes one folder forward in the history, if there is one, and asks for
    /// its contents.
    pub fn folder_forward(&mut self) -> (res: Option<BackgroundTask>)
        requires
            old(self).wf(),
        ensures
            final(self).wf(),
            final(self)@.history == old(self)@.history,
            old(self)@.curr_idx == old(self)@.history.len() ==> final(self)@ == old(self)@
                && res is None,
            final(self)@.curr_idx == cursor_after_forward(old(self)@),
            old(self)@.curr_idx < old(self)@.history.len() ==> final(self)@.contents_requested && (!old(self)@.contents_requested
                ==> res is Some && match res->0 {
                BackgroundTask::FetchFolderContents(u) => u@ == folder_path_of(
                    old(self)@.history,
                    old(self)@.curr_idx + 1,
                ),
                _ => false,
            }) && (old(self)@.contents_requested ==> res is None),
            final(self).spec_albums_initialized() == old(self).spec_albums_initialized(),
            final(self).spec_artists_initialized() == old(self).spec_artists_initialized(),
            final(self).spec_playlists_initialized() == old(self).spec_playlists_initialized(),
    {
        let curr_idx = self.folder_curr_idx;
        if (curr_idx as usize) < self.folder_history.len() {
            self.folder_curr_idx = curr_idx + 1;
            let path = self.folder_path();
            self.get_folder_contents(path.as_str())
        } else {
            None
        }
    }

    /// Walks into a subfolder: the history after the cursor is replaced by
    /// its name, the cursor moves onto it, and its contents are asked for.
    pub fn navigate_to(&mut self, name: &str) -> (res: Option<BackgroundTask>)
        requires
            old(self).wf(),
            old(self)@.curr_idx < u32::MAX,
        ensures
            final(self).wf(),
            final(self)@.history.len() == old(self)@.curr_idx + 1,
            final(self)@.history.subrange(0, old(self)@.curr_idx as int) == old(self)@.history.subrange(0, old(self)@.curr_idx as int),
            final(self)@.history.last()@ == name@,
            final(self)@.curr_idx == old(self)@.curr_idx + 1,
            final(self)@.contents_requested,
            res is Some && match res->0 {
                BackgroundTask::FetchFolderContents(u) => u@ == folder_path_of(
                    final(self)@.history,
                    final(self)@.curr_idx,
                ),
                _ => false,
            },
            final(self).spec_albums_initialized() == old(self).spec_albums_initialized(),
            final(self).spec_artists_initialized() == old(self).spec_artists_initialized(),
            final(self).spec_playlists_initialized() == old(self).spec_playlists_initialized(),
    {
        let curr_idx = self.folder_curr_idx;
        let hist_len = self.folder_history.len();
        if (curr_idx as usize) < hist_len {
            self.folder_history.truncate(curr_idx as usize);
        }
        self.folder_history.push(name.to_owned());
        proof {
            assert(self.folder_history@.subrange(0, curr_idx as int) =~= old(self)@.history.subrange(0, curr_idx as int));
        }
        self.folder_inodes_initialized = false;
        self.folder_forward()
    }

    /// Whether the back and forward buttons can be used: back unless at the
    /// root, forward unless at the end of the history.
    pub fn update_nav_btn_sensitivity(&self) -> (res: (bool, bool))
        requires
            self.wf(),
        ensures
            res.0 == (self@.curr_idx != 0),
            res.1 == (self@.curr_idx != self@.history.len()),
    {
        let curr_idx = self.folder_curr_idx;
        let hist_len = self.folder_history.len() as u32;
        (curr_idx != 0, curr_idx != hist_len)
    }

    /// A click on a browser entry walks into it when it is a folder.
    pub fn on_inode_clicked(&mut self, inode: &INodeInfo) -> (res: Option<BackgroundTask>)
        requires
            old(self).wf(),
            old(self)@.curr_idx < u32::MAX,
        ensures
            inode.inode_type != INodeType::Folder ==> res is None && final(self)@ == old(self)@,
            inode.inode_type == INodeType::Folder ==> final(self)@.history.len() == old(self)@.curr_idx + 1 && final(self)@.history.last()@ == last_segment(inode.uri@)
                && final(self)@.curr_idx == old(self)@.curr_idx + 1 && res is Some,
            final(self).wf(),
    {
        if inode.inode_type == INodeType::Folder {
            let name = inode.get_name();
            self.navigate_to(name.as_str())
        } else {
            None
        }
    }

    /// Asks for all albums, once.
    pub fn init_albums(&mut self) -> (res: Option<BackgroundTask>)
        ensures
            !old(self).spec_albums_initialized() ==> (res matches Some(BackgroundTask::FetchAlbums)),
            old(self).spec_albums_initialized() ==> res is None,
            final(self).spec_albums_initialized(),
            final(self)@ == old(self)@,
            final(self).spec_artists_initialized() == old(self).spec_artists_initialized(),
            final(self).spec_playlists_initialized() == old(self).spec_playlists_initialized(),
    {
        if !self.albums_initialized {
            self.albums_initialized = true;
            Some(BackgroundTask::FetchAlbums)
        } else {
            None
        }
    }

    /// Asks for all artists, once.
    pub fn init_artists(&mut self, use_albumartists: bool) -> (res: Option<BackgroundTask>)
        ensures
            !old(self).spec_artists_initialized() ==> (res matches Some(
                BackgroundTask::FetchArtists(b),
            ) && b == use_albumartists),
            old(self).spec_artists_initialized() ==> res is None,
            final(self).spec_artists_initialized(),
            final(self)@ == old(self)@,
            final(self).spec_albums_initialized() == old(self).spec_albums_initialized(),
            final(self).spec_playlists_initialized() == old(self).spec_playlists_initialized(),
    {
        if !self.artists_initialized {
            self.artists_initialized = true;
            Some(BackgroundTask::FetchArtists(use_albumartists))
        } else {
            None
        }
    }

    /// Whether the playlists are to be fetched now; they are fetched once.
    pub fn init_playlists(&mut self) -> (res: bool)
        ensures
            res == !old(self).spec_playlists_initialized(),
            final(self).spec_playlists_initialized(),
            final(self)@ == old(self)@,
            final(self).spec_albums_initialized() == old(self).spec_albums_initialized(),
            final(self).spec_artists_initialized() == old(self).spec_artists_initialized(),
    {
        let res = !self.playlists_initialized;
        self.playlists_initialized = true;
        res
    }
}

/// The cursor after going up a folder: one less, except at the root.
pub open spec fn cursor_after_backward(st: FolderState) -> nat {
    if st.curr_idx > 0 {
        (st.curr_idx - 1) as nat
    } else {
        st.curr_idx
    }
}

/// The cursor after going forward: one more, except at the end of the
/// history.
pub open spec fn cursor_after_forward(st: FolderState) -> nat {
    if st.curr_idx < st.history.len() {
        st.curr_idx + 1
    } else {
        st.curr_idx
    }
}

/// Going up a folder and then forward again returns to the same folder, and
/// going forward then up returns too.
pub proof fn lemma_backward_forward(st: FolderState)
    requires
        st.curr_idx <= st.history.len(),
    ensures
        st.curr_idx > 0 ==> cursor_after_forward(
            FolderState { curr_idx: cursor_after_backward(st), ..st },
        ) == st.curr_idx,
        st.curr_idx < st.history.len() ==> cursor_after_backward(
            FolderState { curr_idx: cursor_after_forward(st), ..st },
        ) == st.curr_idx,
{
}

/// Walking into a folder appends its name to the path, after a `/` unless at
/// the root.
pub proof fn lemma_navigate_path(h: Seq<String>, idx: nat, name: String, h2: Seq<String>)
    requires
        idx <= h.len(),
        h2.len() == idx + 1,
        h2.subrange(0, idx as int) == h.subrange(0, idx as int),
        h2.last() == name,
    ensures
        folder_path_of(h2, idx + 1) == if idx == 0 {
            name@
        } else {
            folder_path_of(h, idx) + seq!['/'] + name@
        },
{
    let full = views(h2.subrange(0, idx as int + 1));
    assert(h2.subrange(0, idx as int + 1) =~= h2);
    assert(full.drop_last() =~= views(h.subrange(0, idx as int)));
    assert(full.last() == name@);
    if idx == 0 {
        assert(full.len() == 1);
    }
}

/// The queue command for a list of songs: replacing clears first, and
/// playback starts at the first song only when replacing and playing.
pub fn queue_songs(uris: &Vec<String>, replace: bool, play: bool) -> (res: QueueCommand)
    ensures
        res.clear_first == replace,
        match res.task {
            BackgroundTask::QueueUris(u, rec, from, at) => u@ == uris@ && !rec && from == play_start(
                replace,
                play,
                Some(0),
            ) && at is None,
            _ => false,
        },
{
    let from = if replace && play {
        Some(0)
    } else {
        None
    };
    QueueCommand {
        clear_first: replace,
        task: BackgroundTask::QueueUris(copy_strings(uris), false, from, None),
    }
}

/// The task that inserts songs right after the current one (at the start
/// when nothing is playing).
pub fn insert_songs_next(uris: &Vec<String>, current_pos: Option<u32>) -> (res: BackgroundTask)
    requires
        current_pos matches Some(p) ==> p < u32::MAX,
    ensures
        match res {
            BackgroundTask::QueueUris(u, rec, from, at) => u@ == uris@ && !rec && from is None
                && at == Some(
                match current_pos {
                    Some(p) => (p + 1) as u32,
                    None => 0u32,
                },
            ),
            _ => false,
        },
{
    let pos = match current_pos {
        Some(p) => p + 1,
        None => 0,
    };
    BackgroundTask::QueueUris(copy_strings(uris), false, None, Some(pos))
}

/// The search terms that find an album's songs: its title, and its artist
/// tag and MusicBrainz id when known.
pub open spec fn album_terms_ok(terms: Seq<QueryTerm>, album: AlbumInfo) -> bool {
    let n = 1 + (if album.artist_tag is Some {
        1int
    } else {
        0
    }) + (if album.mbid is Some {
        1int
    } else {
        0
    });
    &&& terms.len() == n
    &&& terms[0].tag@ == "album"@ && terms[0].value == album.title && !terms[0].contains
    &&& album.artist_tag is Some ==> terms[1].tag@ == "albumartist"@ && terms[1].value
        == album.artist_tag->0 && !terms[1].contains
    &&& album.mbid is Some ==> terms[n - 1].tag@ == "musicbrainz_albumid"@ && terms[n - 1].value
        == album.mbid->0 && !terms[n - 1].contains
}

/// The queue command for an album.
pub fn queue_album(album: &AlbumInfo, replace: bool, play: bool, play_from: Option<u32>) -> (res:
    QueueCommand)
    ensures
        res.clear_first == replace,
        match res.task {
            BackgroundTask::QueueQuery(terms, from) => album_terms_ok(terms@, *album) && from
                == play_start(replace, play, play_from),
            _ => false,
        },
{
    let mut terms: Vec<QueryTerm> = Vec::new();
    terms.push(QueryTerm { tag: "album".to_owned(), value: album.title.clone(), contains: false });
    match &album.artist_tag {
        Some(a) => {
            terms.push(
                QueryTerm { tag: "albumartist".to_owned(), value: a.clone(), contains: false },
            );
        },
        None => {},
    }
    match &album.mbid {
        Some(m) => {
            terms.push(
                QueryTerm {
                    tag: "musicbrainz_albumid".to_owned(),
                    value: m.clone(),
                    contains: false,
                },
            );
        },
        None => {},
    }
    let from = if replace && play {
        play_from
    } else {
        None
    };
    QueueCommand { clear_first: replace, task: BackgroundTask::QueueQuery(terms, from) }
}

/// The queue command for all songs of an artist, by substring of the artist
/// or album-artist tag.
pub fn queue_artist(name: &str, use_albumartist: bool, replace: bool, play: bool) -> (res:
    QueueCommand)
    ensures
        res.clear_first == replace,
        match res.task {
            BackgroundTask::QueueQuery(terms, from) => terms.len() == 1 && terms[0].tag@ == (if use_albumartist {
                "albumartist"@
            } else {
                "artist"@
            }) && terms[0].value@ == name@ && terms[0].contains && from == play_start(
                replace,
                play,
                Some(0),
            ),
            _ => false,
        },
{
    let tag = if use_albumartist {
        "albumartist".to_owned()
    } else {
        "artist".to_owned()
    };
    let mut terms: Vec<QueryTerm> = Vec::new();
    terms.push(QueryTerm { tag, value: name.to_owned(), contains: true });
    let from = if replace && play {
        Some(0)
    } else {
        None
    };
    QueueCommand { clear_first: replace, task: BackgroundTask::QueueQuery(terms, from) }
}

/// The queue command for one song or folder.
pub fn queue_uri(uri: &str, replace: bool, play: bool, recursive: bool) -> (res: QueueCommand)
    ensures
        res.clear_first == replace,
        match res.task {
            BackgroundTask::QueueUris(u, rec, from, at) => u.len() == 1 && u[0]@ == uri@ && rec
                == recursive && from == play_start(replace, play, Some(0)) && at is None,
            _ => false,
        },
{
    let mut uris: Vec<String> = Vec::new();
    uris.push(uri.to_owned());
    let from = if replace && play {
        Some(0)
    } else {
        None
    };
    QueueCommand { clear_first: replace, task: BackgroundTask::QueueUris(uris, recursive, from, None) }
}

/// The queue command for a stored playlist.
pub fn queue_playlist(name: &str, replace: bool, play: bool) -> (res: QueueCommand)
    ensures
        res.clear_first == replace,
        match res.task {
            BackgroundTask::QueuePlaylist(n, from) => n@ == name@ && from == play_start(
                replace,
                play,
                Some(0),
            ),
            _ => false,
        },
{
    let from = if replace && play {
        Some(0)
    } else {
        None
    };
    QueueCommand {
        clear_first: replace,
        task: BackgroundTask::QueuePlaylist(name.to_owned(), from),
    }
}

/// The sticker command that stores an album's rating, or deletes it when
/// there is none.
pub fn rate_album(title: &str, score: Option<i8>) -> (res: StickerCommand)
    ensures
        res.typ@ == "album"@,
        res.uri@ == title@,
        res.name@ == rating_key(),
        match score {
            Some(s) => res.value is Some && res.value->0@ == signed_decimal(s as int),
            None => res.value is None,
        },
{
    let value = match score {
        Some(s) => Some(i8_to_string(s)),
        None => None,
    };
    StickerCommand {
        typ: "album".to_owned(),
        uri: title.to_owned(),
        name: "rating".to_owned(),
        value,
    }
}

/// The number of edits before the additions: one clear when replacing.
pub open spec fn replace_offset(mode: SaveMode) -> int {
    if mode == SaveMode::Replace {
        1
    } else {
        0
    }
}

/// The edits that write songs into a playlist: replacing first clears it.
pub fn add_songs_to_playlist(playlist_name: &str, uris: &Vec<String>, mode: SaveMode) -> (res: Vec<
    PlaylistEdit,
>)
    ensures
        res.len() == uris.len() + replace_offset(mode),
        mode == SaveMode::Replace ==> match res[0] {
            PlaylistEdit::Clear(n) => n@ == playlist_name@,
            _ => false,
        },
        forall|k: int|
            replace_offset(mode) <= k < res.len() ==> match #[trigger] res[k] {
                PlaylistEdit::Add(n, u) => n@ == playlist_name@ && u == uris[k - replace_offset(
                    mode,
                )],
                _ => false,
            },
{
    let mut edits: Vec<PlaylistEdit> = Vec::new();
    let offset: usize = if mode == SaveMode::Replace {
        edits.push(PlaylistEdit::Clear(playlist_name.to_owned()));
        1
    } else {
        0
    };
    let mut i: usize = 0;
    while i < uris.len()
        invariant
            i <= uris.len(),
            offset == replace_offset(mode),
            edits.len() == i + offset,
            mode == SaveMode::Replace ==> match edits[0] {
                PlaylistEdit::Clear(n) => n@ == playlist_name@,
                _ => false,
            },
            forall|k: int|
                offset <= k < edits.len() ==> match #[trigger] edits[k] {
                    PlaylistEdit::Add(n, u) => n@ == playlist_name@ && u == uris[k - offset],
                    _ => false,
                },
        decreases uris.len() - i,
    {
        edits.push(PlaylistEdit::Add(playlist_name.to_owned(), uris[i].clone()));
        i = i + 1;
    }
    edits
}

} // verus!
