//! The metadata worker's jobs as state machines: each job takes what came
//! back from the store, the providers or the network, and says what to do
//! next, in order. The caller performs the actions and hands back the events.
use vstd::prelude::*;
use crate::album::AlbumInfo;
use crate::artist::ArtistInfo;
use crate::cache::{StoreLookup, album_meta_to_store, artist_meta_to_store, should_save_images};
use crate::lyrics::Lyrics;
use crate::meta::{AlbumMeta, ArtistMeta, ArtistType, ImageMeta};

verus! {

/// What the worker tells the interface when something became available.
#[derive(Debug, PartialEq, Eq)]
pub enum MetaNotice {
    /// An album's metadata, by folder URI.
    AlbumMetaAvailable(String),
    /// An artist's metadata, by name.
    ArtistMetaAvailable(String),
    /// An artist's avatar, by name.
    ArtistAvatarAvailable(String),
    /// A folder's cover, by folder URI.
    AlbumArtAvailable(String),
    /// A song's lyrics, by URI.
    LyricsAvailable(String),
}

/// A job of the worker and how far it has come.
#[derive(Debug)]
pub enum MetaJob {
    /// An album's metadata: the store is asked whether it has a record.
    AlbumMetaLookup { folder_uri: String },
    /// The providers are asked for the album.
    AlbumMetaFetch { folder_uri: String },
    /// An artist's metadata: the store is asked whether it has a record.
    ArtistMetaLookup { name: String },
    /// The providers are asked for the artist.
    ArtistMetaFetch { name: String },
    /// The best image of the artist's answer is being downloaded; the answer
    /// is written afterwards under the key.
    ArtistAvatarDownload { name: String, key: ArtistInfo, meta: ArtistMeta },
    /// The avatar files are being saved.
    ArtistAvatarSave { name: String, key: ArtistInfo, meta: ArtistMeta },
    /// A folder's cover: the store is asked for the album's record.
    AlbumArtLookup { folder_uri: String },
    /// The best image of the record is being downloaded.
    AlbumArtDownload { folder_uri: String },
    /// The cover files are being saved.
    AlbumArtSave { folder_uri: String },
    /// A song's lyrics: the providers are asked.
    LyricsFetch { uri: String },
    Finished,
}

/// What came back since the last step.
#[derive(Debug)]
pub enum JobEvent {
    /// The store's answer on whether it holds a record.
    Looked(StoreLookup),
    /// The images of the album's stored record, where it could be read.
    StoredImages(Option<Vec<ImageMeta>>),
    /// The providers' answer for an album, with the key as they left it.
    AlbumFetched(AlbumInfo, Option<AlbumMeta>),
    /// The providers' answer for an artist, with the key as they left it.
    ArtistFetched(ArtistInfo, Option<ArtistMeta>),
    LyricsFetched(Option<Lyrics>),
    /// Whether an image was downloaded and read, and whether the full-size
    /// and thumbnail files already exist.
    ImageFetched { found: bool, full_exists: bool, thumbnail_exists: bool },
    /// Whether both files were saved.
    Saved(bool),
}

/// What the caller does, in order.
#[derive(Debug)]
pub enum JobAction {
    /// Ask the store for the job's record.
    LookUp,
    /// Ask the providers for the job's key.
    AskProviders,
    /// Download and read the best of these images.
    DownloadBestImage(Vec<ImageMeta>),
    /// Save the image, full size and thumbnail, to the job's files.
    SaveImages,
    WriteAlbumMeta(AlbumInfo, AlbumMeta),
    WriteArtistMeta(ArtistInfo, ArtistMeta),
    WriteLyrics(Lyrics),
    Notify(MetaNotice),
    /// Wait a moment before the next request, to spare the providers.
    Sleep,
}

/// What is stored for an album after asking the providers: the answer, or a
/// placeholder with only the key's title and id.
pub open spec fn album_record(key: AlbumInfo, fetched: Option<AlbumMeta>, m: AlbumMeta) -> bool {
    match fetched {
        Some(f) => m == f,
        None => m.name@ == key.title@ && m.mbid == key.mbid && m.artist is None && m.tags@.len()
            == 0 && m.image@.len() == 0 && m.url is None && m.wiki is None,
    }
}

/// What is stored for an artist that no provider knows: a placeholder with
/// only the key's name and id.
pub open spec fn artist_placeholder(key: ArtistInfo, m: ArtistMeta) -> bool {
    m.name@ == key.name@ && m.mbid == key.mbid && m.tags@.len() == 0 && m.similar@.len() == 0
        && m.image@.len() == 0 && m.url is None && m.bio is None && m.artist_type
        == ArtistType::Other && m.gender is None && m.begin_date is None && m.end_date is None
        && m.country is None
}

/// Two lists of images with the same sizes and addresses.
pub open spec fn same_images(a: Seq<ImageMeta>, b: Seq<ImageMeta>) -> bool {
    a.len() == b.len() && forall|i: int|
        0 <= i < a.len() ==> #[trigger] a[i].size == b[i].size && a[i].url@ == b[i].url@
}

/// The actions that end an artist job: the avatar notice when the avatar
/// was saved, then the write of the answer, its notice, and the pause.
pub open spec fn artist_finish(
    name: String,
    key: ArtistInfo,
    meta: ArtistMeta,
    avatar_saved: bool,
    acts: Seq<JobAction>,
) -> bool {
    let rest = if avatar_saved {
        acts.drop_first()
    } else {
        acts
    };
    &&& avatar_saved ==> acts.len() > 0 && acts[0] == JobAction::Notify(
        MetaNotice::ArtistAvatarAvailable(name),
    )
    &&& rest.len() == 3
    &&& rest[0] == JobAction::WriteArtistMeta(key, meta)
    &&& rest[1] == JobAction::Notify(MetaNotice::ArtistMetaAvailable(name))
    &&& rest[2] is Sleep
}

/// One step of a job. A metadata job goes on to the providers only when the
/// store answered that it has no record; the answer (or a placeholder) is
/// written before its notice goes out. An artist's answer first has its best
/// image downloaded, and saved unless both files exist. A cover job needs the
/// album's stored record. An event that the job does not wait for changes
/// nothing.
pub open spec fn job_step(job: MetaJob, event: JobEvent, next: MetaJob, acts: Seq<JobAction>) -> bool {
    match (job, event) {
        (MetaJob::AlbumMetaLookup { folder_uri }, JobEvent::Looked(l)) => if l
            == StoreLookup::Missing {
            next == (MetaJob::AlbumMetaFetch { folder_uri }) && acts == seq![JobAction::AskProviders]
        } else {
            next is Finished && acts.len() == 0
        },
        (MetaJob::AlbumMetaFetch { folder_uri }, JobEvent::AlbumFetched(key, fetched)) => {
            &&& next is Finished
            &&& acts.len() == 3
            &&& acts[0] matches JobAction::WriteAlbumMeta(k, m)
            &&& k == key
            &&& album_record(key, fetched, m)
            &&& acts[1] == JobAction::Notify(MetaNotice::AlbumMetaAvailable(folder_uri))
            &&& acts[2] is Sleep
        },
        (MetaJob::ArtistMetaLookup { name }, JobEvent::Looked(l)) => if l == StoreLookup::Missing {
            next == (MetaJob::ArtistMetaFetch { name }) && acts == seq![JobAction::AskProviders]
        } else {
            next is Finished && acts.len() == 0
        },
        (MetaJob::ArtistMetaFetch { name }, JobEvent::ArtistFetched(key, fetched)) => match fetched {
            Some(m) => {
                &&& next == (MetaJob::ArtistAvatarDownload { name, key, meta: m })
                &&& acts.len() == 1
                &&& acts[0] matches JobAction::DownloadBestImage(imgs)
                &&& same_images(imgs@, m.image@)
            },
            None => {
                &&& next is Finished
                &&& acts.len() == 3
                &&& acts[0] matches JobAction::WriteArtistMeta(k, p)
                &&& k == key
                &&& artist_placeholder(key, p)
                &&& acts[1] == JobAction::Notify(MetaNotice::ArtistMetaAvailable(name))
                &&& acts[2] is Sleep
            },
        },
        (
            MetaJob::ArtistAvatarDownload { name, key, meta },
            JobEvent::ImageFetched { found, full_exists, thumbnail_exists },
        ) => if found && (!full_exists || !thumbnail_exists) {
            next == (MetaJob::ArtistAvatarSave { name, key, meta }) && acts == seq![
                JobAction::SaveImages,
            ]
        } else {
            next is Finished && artist_finish(name, key, meta, false, acts)
        },
        (MetaJob::ArtistAvatarSave { name, key, meta }, JobEvent::Saved(ok)) => next is Finished
            && artist_finish(name, key, meta, ok, acts),
        (MetaJob::AlbumArtLookup { folder_uri }, JobEvent::StoredImages(images)) => match images {
            Some(imgs) => next == (MetaJob::AlbumArtDownload { folder_uri }) && acts == seq![
                JobAction::DownloadBestImage(imgs),
            ],
            None => next is Finished && acts.len() == 0,
        },
        (
            MetaJob::AlbumArtDownload { folder_uri },
            JobEvent::ImageFetched { found, full_exists, thumbnail_exists },
        ) => if found && (!full_exists || !thumbnail_exists) {
            next == (MetaJob::AlbumArtSave { folder_uri }) && acts == seq![JobAction::SaveImages]
        } else {
            next is Finished && acts == seq![JobAction::Sleep]
        },
        (MetaJob::AlbumArtSave { folder_uri }, JobEvent::Saved(ok)) => next is Finished && if ok {
            acts == seq![
                JobAction::Notify(MetaNotice::AlbumArtAvailable(folder_uri)),
                JobAction::Sleep,
            ]
        } else {
            acts == seq![JobAction::Sleep]
        },
        (MetaJob::LyricsFetch { uri }, JobEvent::LyricsFetched(fetched)) => next is Finished
            && match fetched {
            Some(l) => acts == seq![
                JobAction::WriteLyrics(l),
                JobAction::Notify(MetaNotice::LyricsAvailable(uri)),
                JobAction::Sleep,
            ],
            None => acts == seq![JobAction::Sleep],
        },
        (job, _) => next == job && acts.len() == 0,
    }
}

/// A copy of a list of images.
pub fn copy_images(images: &Vec<ImageMeta>) -> (res: Vec<ImageMeta>)
    ensures
        same_images(res@, images@),
{
    let mut res: Vec<ImageMeta> = Vec::new();
    let mut i: usize = 0;
    while i < images.len()
        invariant
            i <= images.len(),
            res@.len() == i,
            forall|k: int|
                0 <= k < i ==> #[trigger] res@[k].size == images@[k].size && res@[k].url@
                    == images@[k].url@,
        decreases images.len() - i,
    {
        res.push(ImageMeta { size: images[i].size, url: images[i].url.clone() });
        i = i + 1;
    }
    res
}

/// The actions that end an artist job (see `artist_finish`).
fn finish_artist(name: String, key: ArtistInfo, meta: ArtistMeta, avatar_saved: bool) -> (res: Vec<
    JobAction,
>)
    ensures
        artist_finish(name, key, meta, avatar_saved, res@),
{
    let mut acts: Vec<JobAction> = Vec::new();
    if avatar_saved {
        acts.push(JobAction::Notify(MetaNotice::ArtistAvatarAvailable(name.clone())));
    }
    acts.push(JobAction::WriteArtistMeta(key, meta));
    acts.push(JobAction::Notify(MetaNotice::ArtistMetaAvailable(name)));
    acts.push(JobAction::Sleep);
    proof {
        if avatar_saved {
            assert(acts@.drop_first()[0] == acts@[1]);
        }
    }
    acts
}

impl MetaJob {
    /// A job for an album's metadata; it starts with a lookup in the store.
    pub fn album_meta(folder_uri: &str) -> (res: (MetaJob, Vec<JobAction>))
        ensures
            res.0 matches MetaJob::AlbumMetaLookup { folder_uri: u } && u@ == folder_uri@,
            res.1@ == seq![JobAction::LookUp],
    {
        let mut acts: Vec<JobAction> = Vec::new();
        acts.push(JobAction::LookUp);
        (MetaJob::AlbumMetaLookup { folder_uri: folder_uri.to_owned() }, acts)
    }

    /// A job for an artist's metadata and avatar; it starts with a lookup in
    /// the store.
    pub fn artist_meta(name: &str) -> (res: (MetaJob, Vec<JobAction>))
        ensures
            res.0 matches MetaJob::ArtistMetaLookup { name: n } && n@ == name@,
            res.1@ == seq![JobAction::LookUp],
    {
        let mut acts: Vec<JobAction> = Vec::new();
        acts.push(JobAction::LookUp);
        (MetaJob::ArtistMetaLookup { name: name.to_owned() }, acts)
    }

    /// A job for a folder's cover from the providers; it starts by reading
    /// the album's stored record.
    pub fn album_art(folder_uri: &str) -> (res: (MetaJob, Vec<JobAction>))
        ensures
            res.0 matches MetaJob::AlbumArtLookup { folder_uri: u } && u@ == folder_uri@,
            res.1@ == seq![JobAction::LookUp],
    {
        let mut acts: Vec<JobAction> = Vec::new();
        acts.push(JobAction::LookUp);
        (MetaJob::AlbumArtLookup { folder_uri: folder_uri.to_owned() }, acts)
    }

    /// A job for a song's lyrics; it asks the providers at once.
    pub fn lyrics(uri: &str) -> (res: (MetaJob, Vec<JobAction>))
        ensures
            res.0 matches MetaJob::LyricsFetch { uri: u } && u@ == uri@,
            res.1@ == seq![JobAction::AskProviders],
    {
        let mut acts: Vec<JobAction> = Vec::new();
        acts.push(JobAction::AskProviders);
        (MetaJob::LyricsFetch { uri: uri.to_owned() }, acts)
    }

    /// Whether the job is over.
    pub fn is_finished(&self) -> (res: bool)
        ensures
            res == (*self is Finished),
    {
        match self {
            MetaJob::Finished => true,
            _ => false,
        }
    }

    /// One step of the job (see `job_step`).
    pub fn step(self, event: JobEvent) -> (res: (MetaJob, Vec<JobAction>))
        ensures
            job_step(self, event, res.0, res.1@),
    {
        let mut acts: Vec<JobAction> = Vec::new();
        match (self, event) {
            (MetaJob::AlbumMetaLookup { folder_uri }, JobEvent::Looked(l)) => {
                if l == StoreLookup::Missing {
                    acts.push(JobAction::AskProviders);
                    proof {
                        assert(acts@ =~= seq![JobAction::AskProviders]);
                    }
                    (MetaJob::AlbumMetaFetch { folder_uri }, acts)
                } else {
                    (MetaJob::Finished, acts)
                }
            },
            (MetaJob::AlbumMetaFetch { folder_uri }, JobEvent::AlbumFetched(key, fetched)) => {
                let record = album_meta_to_store(&key, fetched);
                acts.push(JobAction::WriteAlbumMeta(key, record));
                acts.push(JobAction::Notify(MetaNotice::AlbumMetaAvailable(folder_uri)));
                acts.push(JobAction::Sleep);
                (MetaJob::Finished, acts)
            },
            (MetaJob::ArtistMetaLookup { name }, JobEvent::Looked(l)) => {
                if l == StoreLookup::Missing {
                    acts.push(JobAction::AskProviders);
                    proof {
                        assert(acts@ =~= seq![JobAction::AskProviders]);
                    }
                    (MetaJob::ArtistMetaFetch { name }, acts)
                } else {
                    (MetaJob::Finished, acts)
                }
            },
            (MetaJob::ArtistMetaFetch { name }, JobEvent::ArtistFetched(key, fetched)) => {
                match fetched {
                    Some(m) => {
                        acts.push(JobAction::DownloadBestImage(copy_images(&m.image)));
                        (MetaJob::ArtistAvatarDownload { name, key, meta: m }, acts)
                    },
                    None => {
                        let placeholder = artist_meta_to_store(&key, None);
                        acts.push(JobAction::WriteArtistMeta(key, placeholder));
                        acts.push(JobAction::Notify(MetaNotice::ArtistMetaAvailable(name)));
                        acts.push(JobAction::Sleep);
                        (MetaJob::Finished, acts)
                    },
                }
            },
            (
                MetaJob::ArtistAvatarDownload { name, key, meta },
                JobEvent::ImageFetched { found, full_exists, thumbnail_exists },
            ) => {
                if found && should_save_images(full_exists, thumbnail_exists) {
                    acts.push(JobAction::SaveImages);
                    proof {
                        assert(acts@ =~= seq![JobAction::SaveImages]);
                    }
                    (MetaJob::ArtistAvatarSave { name, key, meta }, acts)
                } else {
                    (MetaJob::Finished, finish_artist(name, key, meta, false))
                }
            },
            (MetaJob::ArtistAvatarSave { name, key, meta }, JobEvent::Saved(ok)) => {
                (MetaJob::Finished, finish_artist(name, key, meta, ok))
            },
            (MetaJob::AlbumArtLookup { folder_uri }, JobEvent::StoredImages(images)) => {
                match images {
                    Some(imgs) => {
                        let ghost g = imgs;
                        acts.push(JobAction::DownloadBestImage(imgs));
                        proof {
                            assert(acts@ =~= seq![JobAction::DownloadBestImage(g)]);
                        }
                        (MetaJob::AlbumArtDownload { folder_uri }, acts)
                    },
                    None => (MetaJob::Finished, acts),
                }
            },
            (
                MetaJob::AlbumArtDownload { folder_uri },
                JobEvent::ImageFetched { found, full_exists, thumbnail_exists },
            ) => {
                if found && should_save_images(full_exists, thumbnail_exists) {
                    acts.push(JobAction::SaveImages);
                    proof {
                        assert(acts@ =~= seq![JobAction::SaveImages]);
                    }
                    (MetaJob::AlbumArtSave { folder_uri }, acts)
                } else {
                    acts.push(JobAction::Sleep);
                    proof {
                        assert(acts@ =~= seq![JobAction::Sleep]);
                    }
                    (MetaJob::Finished, acts)
                }
            },
            (MetaJob::AlbumArtSave { folder_uri }, JobEvent::Saved(ok)) => {
                let ghost u = folder_uri;
                if ok {
                    acts.push(JobAction::Notify(MetaNotice::AlbumArtAvailable(folder_uri)));
                }
                acts.push(JobAction::Sleep);
                proof {
                    if ok {
                        assert(acts@ =~= seq![
                            JobAction::Notify(MetaNotice::AlbumArtAvailable(u)),
                            JobAction::Sleep,
                        ]);
                    } else {
                        assert(acts@ =~= seq![JobAction::Sleep]);
                    }
                }
                (MetaJob::Finished, acts)
            },
            (MetaJob::LyricsFetch { uri }, JobEvent::LyricsFetched(fetched)) => {
                match fetched {
                    Some(l) => {
                        let ghost gl = l;
                        let ghost u = uri;
                        acts.push(JobAction::WriteLyrics(l));
                        acts.push(JobAction::Notify(MetaNotice::LyricsAvailable(uri)));
                        acts.push(JobAction::Sleep);
                        proof {
                            assert(acts@ =~= seq![
                                JobAction::WriteLyrics(gl),
                                JobAction::Notify(MetaNotice::LyricsAvailable(u)),
                                JobAction::Sleep,
                            ]);
                        }
                    },
                    None => {
                        acts.push(JobAction::Sleep);
                        proof {
                            assert(acts@ =~= seq![JobAction::Sleep]);
                        }
                    },
                }
                (MetaJob::Finished, acts)
            },
            (job, _) => (job, acts),
        }
    }
}

/// A metadata job whose lookup finds a record, or cannot read the store,
/// ends at once: the providers are not asked, and nothing is written or
/// sent.
pub proof fn lemma_stored_record_ends_job(job: MetaJob, l: StoreLookup, next: MetaJob, acts: Seq<
    JobAction,
>)
    requires
        job is AlbumMetaLookup || job is ArtistMetaLookup,
        l != StoreLookup::Missing,
        job_step(job, JobEvent::Looked(l), next, acts),
    ensures
        next is Finished,
        acts.len() == 0,
{
}

/// The answer for an album, or its placeholder, is written before the
/// notice goes out, and the notice names the folder the job was for.
pub proof fn lemma_album_meta_notice_after_write(
    folder_uri: String,
    key: AlbumInfo,
    fetched: Option<AlbumMeta>,
    next: MetaJob,
    acts: Seq<JobAction>,
)
    requires
        job_step(
            MetaJob::AlbumMetaFetch { folder_uri },
            JobEvent::AlbumFetched(key, fetched),
            next,
            acts,
        ),
    ensures
        exists|w: int, n: int|
            0 <= w < n < acts.len() && (#[trigger] acts[w]) is WriteAlbumMeta && #[trigger] acts[n]
                == JobAction::Notify(MetaNotice::AlbumMetaAvailable(folder_uri)),
        forall|i: int| 0 <= i < acts.len() && (#[trigger] acts[i]) is Notify ==> acts[0] is WriteAlbumMeta && 0 < i,
{
    assert(acts[0] is WriteAlbumMeta && acts[1] == JobAction::Notify(
        MetaNotice::AlbumMetaAvailable(folder_uri),
    ));
}

/// The answer for an artist, or its placeholder, is written before the
/// artist's metadata notice goes out; only an avatar that was saved is
/// announced, and before the write.
pub proof fn lemma_artist_meta_notice_after_write(
    name: String,
    key: ArtistInfo,
    meta: ArtistMeta,
    saved: bool,
    acts: Seq<JobAction>,
)
    requires
        artist_finish(name, key, meta, saved, acts),
    ensures
        exists|w: int, n: int|
            0 <= w < n < acts.len() && (#[trigger] acts[w]) is WriteArtistMeta && #[trigger] acts[n]
                == JobAction::Notify(MetaNotice::ArtistMetaAvailable(name)),
        (exists|i: int|
            0 <= i < acts.len() && #[trigger] acts[i] == JobAction::Notify(
                MetaNotice::ArtistAvatarAvailable(name),
            )) == saved,
{
    let rest = if saved {
        acts.drop_first()
    } else {
        acts
    };
    let off: int = if saved {
        1
    } else {
        0
    };
    assert(acts[off] == rest[0] && acts[off + 1] == rest[1] && acts[off + 2] == rest[2]);
    assert(acts[off] is WriteArtistMeta);
    if saved {
        assert(acts[0] == JobAction::Notify(MetaNotice::ArtistAvatarAvailable(name)));
    } else {
        assert forall|i: int| 0 <= i < acts.len() implies #[trigger] acts[i] != JobAction::Notify(
            MetaNotice::ArtistAvatarAvailable(name),
        ) by {
            assert(i == 0 || i == 1 || i == 2);
        }
    }
}

} // verus!
