use euphonica::client::TaskQueues;
use euphonica::client::{common_error_response, idle_requires_reconnect, ErrorResponse, Subsystem};
use euphonica::client::{
    CommandReply, ConnectAction, ConnectEvent, FlowCommand, PasswordLookup,
};
use euphonica::library::BackgroundTask;
use euphonica::client::{
    background_step, connect_failure_state, login_failure_state, permission_denied_state,
    playback_flow_flags, playlist_error_disables, should_connect, sticker_min_level,
    stickers_level_for_version, stop_requested, tcp_address, BackgroundStep, ClientState,
    ConnectionState, MpdWrapper, PlaybackFlow, PlaybackState, PlayerState, QueueFetch,
    ServerErrorKind, StickersSupportLevel,
};

#[test]
fn client_state_setters_report_changes() {
    let mut st = ClientState::new();
    assert_eq!(st.get_connection_state(), ConnectionState::NotConnected);
    assert!(st.supports_playlists());
    assert!(st.set_connection_state(ConnectionState::Connecting));
    assert!(!st.set_connection_state(ConnectionState::Connecting));
    assert!(st.set_busy(true));
    assert!(!st.set_busy(true));
    assert!(st.set_supports_playlists(false));
    assert!(st.set_stickers_support_level(StickersSupportLevel::All));
    assert_eq!(st.get_stickers_support_level(), StickersSupportLevel::All);
}

#[test]
fn sticker_levels_follow_daemon_version() {
    assert_eq!(stickers_level_for_version(23), StickersSupportLevel::SongsOnly);
    assert_eq!(stickers_level_for_version(24), StickersSupportLevel::All);
    assert_eq!(sticker_min_level("song"), StickersSupportLevel::SongsOnly);
    assert_eq!(sticker_min_level("album"), StickersSupportLevel::All);
}

/// Connects through the library's steps to a daemon of this minor version,
/// with no stored password.
fn connect_to(w: &mut MpdWrapper, minor: u16) {
    w.connect_step(ConnectEvent::Start { use_unix_socket: false });
    w.connect_step(ConnectEvent::Opened { minor });
    w.connect_step(ConnectEvent::Password(PasswordLookup::NotStored));
    w.connect_step(ConnectEvent::Subscribed(CommandReply::Done));
}

#[test]
fn sticker_access_rules() {
    let mut w = MpdWrapper::new();
    assert!(!w.can_access_sticker("song"));
    w.connect_step(ConnectEvent::Start { use_unix_socket: false });
    w.connect_step(ConnectEvent::Opened { minor: 24 });
    // The level allows it, but no main client is held yet.
    assert!(!w.can_access_sticker("song"));
    assert!(!w.can_delete_sticker("album"));
    connect_to(&mut w, 23);
    assert!(w.can_access_sticker("song"));
    assert!(!w.can_access_sticker("album"));
    assert!(w.can_delete_sticker("song"));
    assert!(!w.can_delete_sticker("album"));
    connect_to(&mut w, 24);
    assert!(w.can_access_sticker("album"));
    assert!(w.can_delete_sticker("song"));
    assert!(w.can_delete_sticker("album"));
    w.handle_sticker_server_error(ServerErrorKind::Argument);
    assert_eq!(w.get_client_state().stickers_support_level, StickersSupportLevel::SongsOnly);
    w.handle_sticker_server_error(ServerErrorKind::UnknownCmd);
    assert_eq!(w.get_client_state().stickers_support_level, StickersSupportLevel::Disabled);
    w.handle_sticker_server_error(ServerErrorKind::Permission);
    assert_eq!(w.get_client_state().stickers_support_level, StickersSupportLevel::Disabled);
}

#[test]
fn connection_outcomes() {
    assert_eq!(login_failure_state(ServerErrorKind::Password), ConnectionState::WrongPassword);
    assert_eq!(login_failure_state(ServerErrorKind::System), ConnectionState::NotConnected);
    assert_eq!(permission_denied_state(true, true), ConnectionState::CredentialStoreError);
    assert_eq!(permission_denied_state(false, false), ConnectionState::PasswordNotAvailable);
    assert_eq!(permission_denied_state(false, true), ConnectionState::Unauthenticated);
    assert_eq!(connect_failure_state(true), ConnectionState::SocketNotFound);
    assert_eq!(connect_failure_state(false), ConnectionState::ConnectionRefused);
    assert_eq!(tcp_address("localhost", 6600), "localhost:6600");
    assert!(should_connect(false));
    assert!(!should_connect(true));
}

#[test]
fn playback_flows() {
    assert_eq!(playback_flow_flags(PlaybackFlow::Sequential), (false, false));
    assert_eq!(playback_flow_flags(PlaybackFlow::Repeat), (true, false));
    assert_eq!(playback_flow_flags(PlaybackFlow::Single), (false, true));
    assert_eq!(playback_flow_flags(PlaybackFlow::RepeatSingle), (true, true));
}

#[test]
fn queue_sync_fetches_whole_queue_first_then_changes() {
    let mut w = MpdWrapper::new();
    assert_eq!(w.sync_queue_on_status(true, 3, 10), Some(QueueFetch::FetchQueue));
    assert_eq!(w.queue_version(), 3);
    assert_eq!(w.expected_queue_version(), 3);
    assert_eq!(w.sync_queue_on_status(true, 3, 10), None);
    assert_eq!(w.sync_queue_on_status(true, 5, 12), Some(QueueFetch::FetchQueueChanges(3, 12)));
    assert_eq!(w.sync_queue_on_status(false, 9, 12), None);
    assert_eq!(w.queue_version(), 5);
}

#[test]
fn local_changes_suppress_fetch() {
    let mut w = MpdWrapper::new();
    w.sync_queue_on_status(true, 4, 1);
    w.register_local_queue_changes(2);
    assert_eq!(w.expected_queue_version(), 6);
    assert_eq!(w.sync_queue_on_status(true, 6, 1), None);
    assert_eq!(w.queue_version(), 6);
    assert_eq!(w.sync_queue_on_status(true, 7, 1), Some(QueueFetch::FetchQueueChanges(6, 1)));
    w.connect_step(ConnectEvent::Start { use_unix_socket: true });
    assert_eq!(w.queue_version(), 0);
    assert_eq!(w.expected_queue_version(), 0);
    assert_eq!(w.get_client_state().connection_state, ConnectionState::Connecting);
}

#[test]
fn background_scheduling() {
    assert_eq!(background_step(true, false, false), BackgroundStep::Idle { clear_pending: true });
    assert_eq!(background_step(false, false, false), BackgroundStep::RunHigh);
    assert_eq!(background_step(false, true, false), BackgroundStep::RunNormal);
    assert_eq!(background_step(false, true, true), BackgroundStep::Idle { clear_pending: false });
    let mut w = MpdWrapper::new();
    w.force_idle();
    assert_eq!(w.next_background_step(false, false), BackgroundStep::Idle { clear_pending: true });
    assert_eq!(w.next_background_step(false, false), BackgroundStep::RunHigh);
    assert!(stop_requested(&vec!["WAKE".to_string(), "STOP".to_string()]));
    assert!(!stop_requested(&vec!["WAKE".to_string()]));
}

#[test]
fn playlist_errors() {
    assert!(playlist_error_disables("stored playlists are disabled"));
    assert!(!playlist_error_disables("No such playlist"));
    let mut w = MpdWrapper::new();
    w.handle_playlist_error("No such playlist");
    assert!(w.get_client_state().supports_playlists);
    w.handle_playlist_error("playlists disabled");
    assert!(!w.get_client_state().supports_playlists);
    w.on_playlist_success();
    assert!(w.get_client_state().supports_playlists);
}

#[test]
fn player_state() {
    let mut p = PlayerState::new();
    assert!(!p.is_playing());
    assert!(p.update_status(PlaybackState::Play));
    assert!(p.is_playing());
    assert!(!p.set_playback_state(PlaybackState::Play));
    assert_eq!(p.duration(), 0);
    p.current_duration = Some(241);
    assert_eq!(p.duration(), 241);
    assert_eq!(p.title(), None);
}

#[test]
fn error_and_idle_responses() {
    assert_eq!(common_error_response(true, true), ErrorResponse::Reconnect);
    assert_eq!(common_error_response(false, true), ErrorResponse::ShowHint);
    assert_eq!(common_error_response(false, false), ErrorResponse::Ignore);
    assert!(idle_requires_reconnect(&vec![Subsystem::Player, Subsystem::Database]));
    assert!(!idle_requires_reconnect(&vec![Subsystem::Queue]));
    assert!(!idle_requires_reconnect(&Vec::new()));
}

#[test]
fn registered_edits_are_not_refetched() {
    let mut w = MpdWrapper::new();
    w.sync_queue_on_status(true, 10, 5);
    w.register_local_queue_changes(3);
    assert_eq!(w.sync_queue_on_status(true, 11, 5), None);
    assert_eq!(w.sync_queue_on_status(true, 13, 5), None);
    assert_eq!(w.sync_queue_on_status(true, 14, 6), Some(QueueFetch::FetchQueueChanges(13, 6)));
}

/// Runs a connection attempt through the library's steps, with the given
/// outcomes, and gives back the actions in order.
fn run_connect(w: &mut MpdWrapper, events: Vec<ConnectEvent>) -> Vec<ConnectAction> {
    events.into_iter().map(|e| w.connect_step(e)).collect()
}

#[test]
fn connect_with_stored_password_ends_connected() {
    let mut w = MpdWrapper::new();
    let actions = run_connect(
        &mut w,
        vec![
            ConnectEvent::Start { use_unix_socket: false },
            ConnectEvent::Opened { minor: 24 },
            ConnectEvent::Password(PasswordLookup::Found("secret".to_string())),
            ConnectEvent::Login(CommandReply::Done),
            ConnectEvent::Subscribed(CommandReply::Done),
        ],
    );
    assert_eq!(
        actions,
        vec![
            ConnectAction::DisconnectAndOpen { use_unix_socket: false },
            ConnectAction::LookUpPassword,
            ConnectAction::Login("secret".to_string()),
            ConnectAction::Subscribe,
            ConnectAction::KeepClientAndStartWorker(Some("secret".to_string())),
        ]
    );
    let st = w.get_client_state();
    assert_eq!(st.connection_state, ConnectionState::Connected);
    assert_eq!(st.stickers_support_level, StickersSupportLevel::All);
    assert_eq!(w.set_playback_flow(PlaybackFlow::Single), Some(FlowCommand::Repeat(false)));
}

#[test]
fn connect_failures_show_their_states() {
    let mut w = MpdWrapper::new();
    let a = run_connect(&mut w, vec![ConnectEvent::Start { use_unix_socket: true }, ConnectEvent::OpenFailed]);
    assert_eq!(a[1], ConnectAction::Nothing);
    assert_eq!(w.get_client_state().connection_state, ConnectionState::SocketNotFound);

    run_connect(&mut w, vec![ConnectEvent::Start { use_unix_socket: false }, ConnectEvent::OpenFailed]);
    assert_eq!(w.get_client_state().connection_state, ConnectionState::ConnectionRefused);

    let a = run_connect(
        &mut w,
        vec![
            ConnectEvent::Start { use_unix_socket: false },
            ConnectEvent::Opened { minor: 21 },
            ConnectEvent::Password(PasswordLookup::Found("bad".to_string())),
            ConnectEvent::Login(CommandReply::ServerError(ServerErrorKind::Password)),
        ],
    );
    assert_eq!(a[3], ConnectAction::CloseClient);
    assert_eq!(w.get_client_state().connection_state, ConnectionState::WrongPassword);
    assert_eq!(w.get_client_state().stickers_support_level, StickersSupportLevel::SongsOnly);
    assert_eq!(w.set_playback_flow(PlaybackFlow::Repeat), None);

    for (lookup, expected) in [
        (PasswordLookup::Failed, ConnectionState::CredentialStoreError),
        (PasswordLookup::NotStored, ConnectionState::PasswordNotAvailable),
    ] {
        let a = run_connect(
            &mut w,
            vec![
                ConnectEvent::Start { use_unix_socket: false },
                ConnectEvent::Opened { minor: 24 },
                ConnectEvent::Password(lookup),
                ConnectEvent::Subscribed(CommandReply::ServerError(ServerErrorKind::Permission)),
            ],
        );
        assert_eq!(a[3], ConnectAction::DropClient);
        assert_eq!(w.get_client_state().connection_state, expected);
    }

    run_connect(
        &mut w,
        vec![
            ConnectEvent::Start { use_unix_socket: false },
            ConnectEvent::Opened { minor: 24 },
            ConnectEvent::Password(PasswordLookup::Found("pw".to_string())),
            ConnectEvent::Login(CommandReply::OtherError),
            ConnectEvent::Subscribed(CommandReply::ServerError(ServerErrorKind::Permission)),
        ],
    );
    assert_eq!(w.get_client_state().connection_state, ConnectionState::Unauthenticated);
}

#[test]
fn subscribe_refused_otherwise_stays_connecting() {
    let mut w = MpdWrapper::new();
    let a = run_connect(
        &mut w,
        vec![
            ConnectEvent::Start { use_unix_socket: false },
            ConnectEvent::Opened { minor: 24 },
            ConnectEvent::Password(PasswordLookup::NotStored),
            ConnectEvent::Subscribed(CommandReply::ServerError(ServerErrorKind::System)),
        ],
    );
    assert_eq!(a[3], ConnectAction::DropClient);
    assert_eq!(w.get_client_state().connection_state, ConnectionState::Connecting);
    // An answer that is not a daemon error keeps the client.
    let a = run_connect(
        &mut w,
        vec![
            ConnectEvent::Start { use_unix_socket: false },
            ConnectEvent::Opened { minor: 24 },
            ConnectEvent::Password(PasswordLookup::NotStored),
            ConnectEvent::Subscribed(CommandReply::OtherError),
        ],
    );
    assert_eq!(a[3], ConnectAction::KeepClientAndStartWorker(None));
    assert_eq!(w.get_client_state().connection_state, ConnectionState::Connected);
    // An event out of order changes nothing.
    assert_eq!(w.connect_step(ConnectEvent::OpenFailed), ConnectAction::Nothing);
    assert_eq!(w.get_client_state().connection_state, ConnectionState::Connected);
}

#[test]
fn status_queues_fetch_at_high_priority() {
    let mut w = MpdWrapper::new();
    match w.get_status(true, 4, 9) {
        Some((BackgroundTask::FetchQueue, true)) => {}
        _ => panic!("expected a whole-queue fetch at high priority"),
    }
    assert!(w.get_status(true, 4, 9).is_none());
    match w.get_status(true, 6, 11) {
        Some((BackgroundTask::FetchQueueChanges(4, 11), true)) => {}
        _ => panic!("expected a fetch of the changes at high priority"),
    }
    assert!(w.get_status(false, 8, 11).is_none());
    assert_eq!(w.queue_version(), 6);
}

#[test]
fn playback_flow_sends_single_after_repeat() {
    let mut w = MpdWrapper::new();
    assert_eq!(w.set_playback_flow(PlaybackFlow::RepeatSingle), None);
    run_connect(
        &mut w,
        vec![
            ConnectEvent::Start { use_unix_socket: false },
            ConnectEvent::Opened { minor: 24 },
            ConnectEvent::Password(PasswordLookup::NotStored),
            ConnectEvent::Subscribed(CommandReply::Done),
        ],
    );
    assert_eq!(w.set_playback_flow(PlaybackFlow::RepeatSingle), Some(FlowCommand::Repeat(true)));
    assert_eq!(
        w.playback_flow_after_repeat(PlaybackFlow::RepeatSingle, true),
        Some(FlowCommand::Single(true))
    );
    assert_eq!(w.playback_flow_after_repeat(PlaybackFlow::Sequential, false), None);
    w.handle_set_result(true);
    assert_eq!(w.next_background_step(false, false), BackgroundStep::Idle { clear_pending: true });
}

#[test]
fn error_code_names() {
    assert_eq!(ServerErrorKind::Exist.name(), "Exist");
    assert_eq!(ServerErrorKind::PlayerSync.name(), "PlayerSync");
}

#[test]
fn worker_queues_are_fifo_with_priority() {
    let mut w = MpdWrapper::new();
    let mut q: TaskQueues<u32> = TaskQueues::new();
    q.push(1, false);
    q.push(2, true);
    q.push(3, false);
    q.push(4, true);
    assert_eq!(q.lens(), (2, 2));
    assert_eq!(q.next_task(&mut w), (BackgroundStep::RunHigh, Some(2)));
    assert_eq!(q.next_task(&mut w), (BackgroundStep::RunHigh, Some(4)));
    w.force_idle();
    assert_eq!(q.next_task(&mut w), (BackgroundStep::Idle { clear_pending: true }, None));
    assert_eq!(q.next_task(&mut w), (BackgroundStep::RunNormal, Some(1)));
    assert_eq!(q.next_task(&mut w), (BackgroundStep::RunNormal, Some(3)));
    assert_eq!(q.next_task(&mut w), (BackgroundStep::Idle { clear_pending: false }, None));
}
