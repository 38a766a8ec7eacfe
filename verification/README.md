# euphonica

The logic of an MPD music-player frontend, written in Verus with its
contracts proved.

- `src/` is the verified library. Each module states its behaviour in
  `requires`/`ensures` over sequences, strings and small spec functions:
  - `playlist_edit`: the playlist editor's steps and undo/redo history, with
    the laws that undo and redo revert each other and keep the history
    consistent with the edited list.
  - `client`: the connection as a state machine from outcomes to actions,
    sticker support levels, queue version tracking, the playback flow, and
    the background worker's scheduling and its two first-in, first-out task
    queues.
  - `library`: the folder browser's history and the queue, sticker and
    playlist commands sent to the daemon.
  - `meta`, `providers`, `lastfm`: provider metadata, the chain that asks
    the providers in turn, how answers are merged and how MusicBrainz and
    Last.fm records become metadata.
  - `artist`, `album`, `song`: artist-tag parsing (through the `regex`
    crate), albums, songs and duration formatting.
  - `lyrics`: LRCLIB rows, plain lyrics and the split of synced rows.
  - `cache`: cache keys, file names (through `base64`, `fasthash`),
    decoding picked file URIs (through `urlencoding`), the cover-fetching
    plan and the choice of the best image.
  - `meta_worker`: the metadata worker's jobs as state machines, from the
    store's and providers' answers to the writes and notices that follow.
  - `sort`: the order of the album grid and the folder and playlist lists.
  - `background`: the request to the desktop's background portal and the
    settings its answer changes.
  - `display`, `views`, `text_display`: display settings and the views'
    decisions, the album search among them.
  - `text`: decimal formatting, searching and splitting on characters.
- `tests/` runs the library on concrete values.
- `app/` holds what the library does not: conversions from the `mpd` crate's
  records, the floating-point lyrics timestamps, serde copies of the metadata
  records with BSON decoding, and a small TCP client session.
