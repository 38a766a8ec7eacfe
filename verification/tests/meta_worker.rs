use euphonica::album::AlbumInfo;
use euphonica::artist::ArtistInfo;
use euphonica::cache::StoreLookup;
use euphonica::lyrics::Lyrics;
use euphonica::meta::{ArtistMeta, ImageMeta, ImageSize};
use euphonica::meta_worker::{JobAction, JobEvent, MetaJob, MetaNotice};

fn notice(a: &JobAction) -> Option<&MetaNotice> {
    match a {
        JobAction::Notify(n) => Some(n),
        _ => None,
    }
}

#[test]
fn album_meta_is_written_before_its_notice() {
    let (job, acts) = MetaJob::album_meta("f/");
    assert!(matches!(acts.as_slice(), [JobAction::LookUp]));
    let (job, acts) = job.step(JobEvent::Looked(StoreLookup::Missing));
    assert!(matches!(acts.as_slice(), [JobAction::AskProviders]));
    let key = AlbumInfo::new("f/t.mp3", "Title", None, Vec::new());
    let (job, acts) = job.step(JobEvent::AlbumFetched(key, None));
    assert!(job.is_finished());
    assert_eq!(acts.len(), 3);
    match &acts[0] {
        JobAction::WriteAlbumMeta(k, m) => {
            assert_eq!(k.title, "Title");
            assert_eq!(m.name, "Title");
            assert!(m.image.is_empty());
        }
        _ => panic!("expected the placeholder to be written first"),
    }
    assert_eq!(notice(&acts[1]), Some(&MetaNotice::AlbumMetaAvailable("f/".to_string())));
    assert!(matches!(acts[2], JobAction::Sleep));
}

#[test]
fn stored_record_ends_the_job() {
    let (job, _) = MetaJob::album_meta("f/");
    let (job, acts) = job.step(JobEvent::Looked(StoreLookup::Found));
    assert!(job.is_finished());
    assert!(acts.is_empty());
    let (job, _) = MetaJob::artist_meta("Bob");
    let (job, acts) = job.step(JobEvent::Looked(StoreLookup::Failed));
    assert!(job.is_finished());
    assert!(acts.is_empty());
}

#[test]
fn artist_avatar_is_saved_and_announced_before_the_write() {
    let (job, _) = MetaJob::artist_meta("Bob");
    let (job, _) = job.step(JobEvent::Looked(StoreLookup::Missing));
    let key = ArtistInfo::new("Bob", false);
    let mut meta = ArtistMeta::from_key(&key);
    meta.image.push(ImageMeta { size: ImageSize::Large, url: "u".to_string() });
    let (job, acts) = job.step(JobEvent::ArtistFetched(key, Some(meta)));
    match acts.as_slice() {
        [JobAction::DownloadBestImage(imgs)] => assert_eq!(imgs[0].url, "u"),
        _ => panic!("expected the avatar download"),
    }
    let (job, acts) =
        job.step(JobEvent::ImageFetched { found: true, full_exists: true, thumbnail_exists: false });
    assert!(matches!(acts.as_slice(), [JobAction::SaveImages]));
    let (job, acts) = job.step(JobEvent::Saved(true));
    assert!(job.is_finished());
    assert_eq!(acts.len(), 4);
    assert_eq!(notice(&acts[0]), Some(&MetaNotice::ArtistAvatarAvailable("Bob".to_string())));
    assert!(matches!(acts[1], JobAction::WriteArtistMeta(_, _)));
    assert_eq!(notice(&acts[2]), Some(&MetaNotice::ArtistMetaAvailable("Bob".to_string())));
    assert!(matches!(acts[3], JobAction::Sleep));
}

#[test]
fn album_art_needs_a_stored_record() {
    let (job, _) = MetaJob::album_art("f/");
    let (job, acts) = job.step(JobEvent::StoredImages(None));
    assert!(job.is_finished());
    assert!(acts.is_empty());

    let (job, _) = MetaJob::album_art("f/");
    let imgs = vec![ImageMeta { size: ImageSize::Mega, url: "m".to_string() }];
    let (job, acts) = job.step(JobEvent::StoredImages(Some(imgs)));
    assert!(matches!(acts.as_slice(), [JobAction::DownloadBestImage(_)]));
    let (job, acts) =
        job.step(JobEvent::ImageFetched { found: true, full_exists: true, thumbnail_exists: true });
    assert!(job.is_finished());
    assert!(matches!(acts.as_slice(), [JobAction::Sleep]));

    let (job, _) = MetaJob::album_art("f/");
    let (job, _) = job.step(JobEvent::StoredImages(Some(Vec::new())));
    let (job, _) =
        job.step(JobEvent::ImageFetched { found: true, full_exists: false, thumbnail_exists: false });
    let (_, acts) = job.step(JobEvent::Saved(true));
    assert_eq!(notice(&acts[0]), Some(&MetaNotice::AlbumArtAvailable("f/".to_string())));
    assert!(matches!(acts[1], JobAction::Sleep));
}

#[test]
fn lyrics_are_written_then_announced() {
    let (job, acts) = MetaJob::lyrics("s.mp3");
    assert!(matches!(acts.as_slice(), [JobAction::AskProviders]));
    let l = Lyrics { lines: vec!["la".to_string()], synced: false };
    let (job, acts) = job.step(JobEvent::LyricsFetched(Some(l)));
    assert!(job.is_finished());
    assert!(matches!(acts[0], JobAction::WriteLyrics(_)));
    assert_eq!(notice(&acts[1]), Some(&MetaNotice::LyricsAvailable("s.mp3".to_string())));
    let (job, _) = MetaJob::lyrics("s.mp3");
    let (_, acts) = job.step(JobEvent::LyricsFetched(None));
    assert!(matches!(acts.as_slice(), [JobAction::Sleep]));
}

#[test]
fn unexpected_events_change_nothing() {
    let (job, _) = MetaJob::lyrics("s.mp3");
    let (job, acts) = job.step(JobEvent::Saved(true));
    assert!(acts.is_empty());
    assert!(!job.is_finished());
}
