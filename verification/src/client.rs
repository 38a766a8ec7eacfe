//! The decisions of the MPD client: connection states, sticker support, queue
//! version tracking and the background worker's scheduling.
//!
//! The sockets and the daemon's replies stay with the caller; these functions
//! take what came back as plain values and say what to do next.
use vstd::prelude::*;
use vstd::string::*;
use crate::text::{contains_str, seq_contains, push_decimal, decimal, str_eq};
use crate::library::BackgroundTask;
use std::collections::VecDeque;

verus! {

/// Where the connection to the daemon stands.
#[derive(Debug, Clone, Copy, PartialEq, Eq, Structural)]
pub enum ConnectionState {
    NotConnected,
    Connecting,
    /// No password was given, or the one given lacks privileges.
    Unauthenticated,
    /// The credential store could not be read.
    CredentialStoreError,
    /// The password matches none that the daemon knows.
    WrongPassword,
    /// Permission was denied and no password is stored.
    PasswordNotAvailable,
    /// The configured local socket could not be reached.
    SocketNotFound,
    /// The configured host refused the connection.
    ConnectionRefused,
    Connected,
}

/// How far the daemon supports stickers, from none to stickers on any tag.
#[derive(Debug, Clone, Copy, PartialEq, Eq, Structural)]
pub enum StickersSupportLevel {
    /// The sticker database is not set up.
    Disabled,
    /// Stickers on songs only (daemons before 0.24).
    SongsOnly,
    /// Stickers on songs and on tags.
    All,
}

/// The order of the support levels.
pub open spec fn stickers_rank(level: StickersSupportLevel) -> nat {
    match level {
        StickersSupportLevel::Disabled => 0,
        StickersSupportLevel::SongsOnly => 1,
        StickersSupportLevel::All => 2,
    }
}

impl StickersSupportLevel {
    /// The position of the level in the order.
    pub fn rank(self) -> (res: u8)
        ensures
            res == stickers_rank(self),
    {
        match self {
            StickersSupportLevel::Disabled => 0,
            StickersSupportLevel::SongsOnly => 1,
            StickersSupportLevel::All => 2,
        }
    }
}

/// What the interface shows of the client: connection, activity, and what the
/// daemon supports.
#[derive(Debug, Clone, Copy, PartialEq, Eq, Structural)]
pub struct ClientState {
    pub connection_state: ConnectionState,
    pub busy: bool,
    pub supports_playlists: bool,
    pub stickers_support_level: StickersSupportLevel,
}

impl ClientState {
    /// Not connected, idle, playlists assumed supported, stickers disabled.
    pub fn new() -> (res: Self)
        ensures
            res.connection_state == ConnectionState::NotConnected,
            !res.busy,
            res.supports_playlists,
            res.stickers_support_level == StickersSupportLevel::Disabled,
    {
        ClientState {
            connection_state: ConnectionState::NotConnected,
            busy: false,
            supports_playlists: true,
            stickers_support_level: StickersSupportLevel::Disabled,
        }
    }

    pub fn get_connection_state(&self) -> (res: ConnectionState)
        ensures
            res == self.connection_state,
    {
        self.connection_state
    }

    pub fn is_busy(&self) -> (res: bool)
        ensures
            res == self.busy,
    {
        self.busy
    }

    /// Sets the connection state; the result says whether it changed (and
    /// so whether listeners are told).
    pub fn set_connection_state(&mut self, new_state: ConnectionState) -> (changed: bool)
        ensures
            *final(self) == (ClientState { connection_state: new_state, ..*old(self) }),
            changed == (old(self).connection_state != new_state),
    {
        let old_state = self.connection_state;
        self.connection_state = new_state;
        old_state != new_state
    }

    /// Sets the busy flag; the result says whether it changed.
    pub fn set_busy(&mut self, new_busy: bool) -> (changed: bool)
        ensures
            *final(self) == (ClientState { busy: new_busy, ..*old(self) }),
            changed == (old(self).busy != new_busy),
    {
        let old_busy = self.busy;
        self.busy = new_busy;
        old_busy != new_busy
    }

    pub fn get_stickers_support_level(&self) -> (res: StickersSupportLevel)
        ensures
            res == self.stickers_support_level,
    {
        self.stickers_support_level
    }

    /// Sets the sticker support level; the result says whether it changed.
    pub fn set_stickers_support_level(&mut self, new: StickersSupportLevel) -> (changed: bool)
        ensures
            *final(self) == (ClientState { stickers_support_level: new, ..*old(self) }),
            changed == (old(self).stickers_support_level != new),
    {
        let old = self.stickers_support_level;
        self.stickers_support_level = new;
        old != new
    }

    pub fn supports_playlists(&self) -> (res: bool)
        ensures
            res == self.supports_playlists,
    {
        self.supports_playlists
    }

    /// Sets whether playlists are supported; the result says whether it
    /// changed.
    pub fn set_supports_playlists(&mut self, state: bool) -> (changed: bool)
        ensures
            *final(self) == (ClientState { supports_playlists: state, ..*old(self) }),
            changed == (old(self).supports_playlists != state),
    {
        let old = self.supports_playlists;
        self.supports_playlists = state;
        old != state
    }
}

/// The daemon's error codes.
#[derive(Debug, Clone, Copy, PartialEq, Eq, Structural)]
pub enum ServerErrorKind {
    /// Not a list.
    NotList,
    /// Bad command arguments.
    Argument,
    /// Invalid password.
    Password,
    /// Insufficient permissions.
    Permission,
    /// Unknown command.
    UnknownCmd,
    /// The object does not exist.
    NoExist,
    /// The playlist is at its maximum size.
    PlaylistMax,
    /// A system error.
    System,
    /// A playlist could not be loaded.
    PlaylistLoad,
    /// A database update is already under way.
    UpdateAlready,
    /// The player could not be synchronised.
    PlayerSync,
    /// The object already exists.
    Exist,
}

/// The name of an error code, as written in messages.
pub open spec fn error_kind_name(kind: ServerErrorKind) -> Seq<char> {
    match kind {
        ServerErrorKind::NotList => "NotList"@,
        ServerErrorKind::Argument => "Argument"@,
        ServerErrorKind::Password => "Password"@,
        ServerErrorKind::Permission => "Permission"@,
        ServerErrorKind::UnknownCmd => "UnknownCmd"@,
        ServerErrorKind::NoExist => "NoExist"@,
        ServerErrorKind::PlaylistMax => "PlaylistMax"@,
        ServerErrorKind::System => "System"@,
        ServerErrorKind::PlaylistLoad => "PlaylistLoad"@,
        ServerErrorKind::UpdateAlready => "UpdateAlready"@,
        ServerErrorKind::PlayerSync => "PlayerSync"@,
        ServerErrorKind::Exist => "Exist"@,
    }
}

impl ServerErrorKind {
    /// The name of the code, as written in messages.
    pub fn name(&self) -> (res: &'static str)
        ensures
            res@ == error_kind_name(*self),
    {
        match self {
            ServerErrorKind::NotList => "NotList",
            ServerErrorKind::Argument => "Argument",
            ServerErrorKind::Password => "Password",
            ServerErrorKind::Permission => "Permission",
            ServerErrorKind::UnknownCmd => "UnknownCmd",
            ServerErrorKind::NoExist => "NoExist",
            ServerErrorKind::PlaylistMax => "PlaylistMax",
            ServerErrorKind::System => "System",
            ServerErrorKind::PlaylistLoad => "PlaylistLoad",
            ServerErrorKind::UpdateAlready => "UpdateAlready",
            ServerErrorKind::PlayerSync => "PlayerSync",
            ServerErrorKind::Exist => "Exist",
        }
    }
}

/// How the player moves on at the end of a song.
#[derive(Debug, Clone, Copy, PartialEq, Eq, Structural)]
pub enum PlaybackFlow {
    Sequential,
    Repeat,
    Single,
    RepeatSingle,
}

/// The daemon's `(repeat, single)` flags for a flow.
pub open spec fn flow_flags(flow: PlaybackFlow) -> (bool, bool) {
    match flow {
        PlaybackFlow::Sequential => (false, false),
        PlaybackFlow::Repeat => (true, false),
        PlaybackFlow::Single => (false, true),
        PlaybackFlow::RepeatSingle => (true, true),
    }
}

/// The `(repeat, single)` flags to send for a flow.
pub fn playback_flow_flags(flow: PlaybackFlow) -> (res: (bool, bool))
    ensures
        res == flow_flags(flow),
{
    match flow {
        PlaybackFlow::Sequential => (false, false),
        PlaybackFlow::Repeat => (true, false),
        PlaybackFlow::Single => (false, true),
        PlaybackFlow::RepeatSingle => (true, true),
    }
}

/// Support level after connecting, from the daemon's minor protocol version:
/// stickers on tags need 0.24.
pub fn stickers_level_for_version(minor: u16) -> (res: StickersSupportLevel)
    ensures
        res == stickers_level_for(minor),
{
    if minor < 24 {
        StickersSupportLevel::SongsOnly
    } else {
        StickersSupportLevel::All
    }
}

/// The level a sticker of this type needs: songs need `SongsOnly`, anything
/// else needs `All`.
pub fn sticker_min_level(typ: &str) -> (res: StickersSupportLevel)
    ensures
        typ@ == "song"@ ==> res == StickersSupportLevel::SongsOnly,
        typ@ != "song"@ ==> res == StickersSupportLevel::All,
{
    if str_eq(typ, "song") {
        StickersSupportLevel::SongsOnly
    } else {
        StickersSupportLevel::All
    }
}

/// Connection state after a failed login: a wrong password is told apart.
pub fn login_failure_state(kind: ServerErrorKind) -> (res: ConnectionState)
    ensures
        kind == ServerErrorKind::Password ==> res == ConnectionState::WrongPassword,
        kind != ServerErrorKind::Password ==> res == ConnectionState::NotConnected,
{
    if kind == ServerErrorKind::Password {
        ConnectionState::WrongPassword
    } else {
        ConnectionState::NotConnected
    }
}

/// Connection state when the daemon denies the first privileged command:
/// the credential store failed, or no password was stored, or the stored one
/// lacks privileges.
pub fn permission_denied_state(password_access_failed: bool, has_password: bool) -> (res:
    ConnectionState)
    ensures
        password_access_failed ==> res == ConnectionState::CredentialStoreError,
        !password_access_failed && !has_password ==> res == ConnectionState::PasswordNotAvailable,
        !password_access_failed && has_password ==> res == ConnectionState::Unauthenticated,
{
    if password_access_failed {
        ConnectionState::CredentialStoreError
    } else if !has_password {
        ConnectionState::PasswordNotAvailable
    } else {
        ConnectionState::Unauthenticated
    }
}

/// Connection state when the socket could not be opened.
pub fn connect_failure_state(use_unix_socket: bool) -> (res: ConnectionState)
    ensures
        use_unix_socket ==> res == ConnectionState::SocketNotFound,
        !use_unix_socket ==> res == ConnectionState::ConnectionRefused,
{
    if use_unix_socket {
        ConnectionState::SocketNotFound
    } else {
        ConnectionState::ConnectionRefused
    }
}

/// The address `host:port` of a TCP connection.
pub fn tcp_address(host: &str, port: u32) -> (res: String)
    ensures
        res@ == host@ + seq![':'] + decimal(port as nat),
{
    let mut s = host.to_owned();
    proof {
        reveal_strlit(":");
    }
    s.append(":");
    push_decimal(&mut s, port as u64);
    s
}

/// Whether the playlist error says that playlists are disabled on the daemon.
pub fn playlist_error_disables(detail: &str) -> (res: bool)
    ensures
        res == seq_contains(detail@, "disabled"@),
{
    contains_str(detail, "disabled")
}

/// What to fetch to bring the local queue up to date.
#[derive(Debug, Clone, Copy, PartialEq, Eq, Structural)]
pub enum QueueFetch {
    /// Fetch the whole queue.
    FetchQueue,
    /// Fetch the changes since this version, for a queue of this length.
    FetchQueueChanges(u32, u32),
}

/// What the background worker does on one turn of its loop.
#[derive(Debug, Clone, Copy, PartialEq, Eq, Structural)]
pub enum BackgroundStep {
    /// Take a task from the high-priority queue.
    RunHigh,
    /// Take a task from the normal queue.
    RunNormal,
    /// Wait for changes on the daemon; `clear_pending` when an idle was asked
    /// for.
    Idle { clear_pending: bool },
}

/// Keeping the queue in sync with a status reply, from the versions seen and
/// expected: the reported version becomes the one seen; a version newer than
/// both asks for a fetch (the whole queue when none was seen before, else the
/// changes since the last one) and becomes the one expected. The result is
/// (fetch, version seen, version expected).
pub open spec fn queue_sync(seen: u32, expected: u32, version: u32, queue_len: u32) -> (
    Option<QueueFetch>,
    u32,
    u32,
) {
    if version > seen && version > expected {
        (
            Some(
                if seen == 0 {
                    QueueFetch::FetchQueue
                } else {
                    QueueFetch::FetchQueueChanges(seen, queue_len)
                },
            ),
            version,
            version,
        )
    } else {
        (None, version, expected)
    }
}

/// Queue edits made locally and registered are not fetched again: a reported
/// version up to the one expected after registering them asks for nothing,
/// and a version past it asks for the changes since the last one seen.
pub proof fn lemma_local_edits_not_refetched(
    seen: u32,
    expected: u32,
    n_changes: u32,
    version: u32,
    queue_len: u32,
)
    requires
        expected + n_changes <= u32::MAX,
    ensures
        version <= expected + n_changes ==> queue_sync(
            seen,
            (expected + n_changes) as u32,
            version,
            queue_len,
        ).0 is None,
        version > expected + n_changes && version > seen && seen > 0 ==> queue_sync(
            seen,
            (expected + n_changes) as u32,
            version,
            queue_len,
        ).0 == Some(QueueFetch::FetchQueueChanges(seen, queue_len)),
{
}

/// The support level set after connecting, from the daemon's minor version.
pub open spec fn stickers_level_for(minor: u16) -> StickersSupportLevel {
    if minor < 24 {
        StickersSupportLevel::SongsOnly
    } else {
        StickersSupportLevel::All
    }
}

/// Album ratings, stored as stickers on the album tag, need daemon version
/// 0.24: right after connecting they can be read and written exactly when
/// the daemon is at least that version, while song stickers always can.
pub proof fn lemma_album_stickers_need_024(minor: u16)
    ensures
        (stickers_rank(stickers_level_for(minor)) >= stickers_rank(StickersSupportLevel::All))
            == (minor >= 24),
        stickers_rank(stickers_level_for(minor)) >= stickers_rank(StickersSupportLevel::SongsOnly),
{
}

/// The background worker's choice: an idle that was asked for comes first,
/// then high-priority tasks, then normal ones, then idling.
pub fn background_step(skip_to_idle: bool, high_empty: bool, normal_empty: bool) -> (res:
    BackgroundStep)
    ensures
        skip_to_idle ==> res == (BackgroundStep::Idle { clear_pending: true }),
        !skip_to_idle && !high_empty ==> res == BackgroundStep::RunHigh,
        !skip_to_idle && high_empty && !normal_empty ==> res == BackgroundStep::RunNormal,
        !skip_to_idle && high_empty && normal_empty ==> res == (BackgroundStep::Idle {
            clear_pending: false,
        }),
{
    if skip_to_idle {
        BackgroundStep::Idle { clear_pending: true }
    } else if !high_empty {
        BackgroundStep::RunHigh
    } else if !normal_empty {
        BackgroundStep::RunNormal
    } else {
        BackgroundStep::Idle { clear_pending: false }
    }
}

/// Whether the messages read on the worker's channel ask it to stop.
pub fn stop_requested(messages: &Vec<String>) -> (res: bool)
    ensures
        res == exists|i: int| 0 <= i < messages.len() && messages[i]@ == "STOP"@,
{
    let mut i: usize = 0;
    while i < messages.len()
        invariant
            i <= messages.len(),
            forall|j: int| 0 <= j < i ==> messages[j]@ != "STOP"@,
        decreases messages.len() - i,
    {
        if str_eq(messages[i].as_str(), "STOP") {
            return true;
        }
        i = i + 1;
    }
    false
}

/// What is done about a failed command.
#[derive(Debug, Clone, Copy, PartialEq, Eq, Structural)]
pub enum ErrorResponse {
    /// The connection broke: connect again.
    Reconnect,
    /// Tell the user, with the hint the caller gave.
    ShowHint,
    /// Nothing more.
    Ignore,
}

/// A broken connection is answered by reconnecting; any other error shows
/// the caller's hint, if it gave one.
pub fn common_error_response(is_io: bool, has_hint: bool) -> (res: ErrorResponse)
    ensures
        is_io ==> res == ErrorResponse::Reconnect,
        !is_io && has_hint ==> res == ErrorResponse::ShowHint,
        !is_io && !has_hint ==> res == ErrorResponse::Ignore,
{
    if is_io {
        ErrorResponse::Reconnect
    } else if has_hint {
        ErrorResponse::ShowHint
    } else {
        ErrorResponse::Ignore
    }
}

/// The daemon's subsystems that idle notifications name.
#[derive(Debug, Clone, Copy, PartialEq, Eq, Structural)]
pub enum Subsystem {
    Database,
    Update,
    Playlist,
    Queue,
    Player,
    Mixer,
    Output,
    Options,
    Partition,
    Sticker,
    Subscription,
    Message,
    Neighbor,
    Mount,
}

/// A change of the database is answered by reconnecting, which refreshes
/// every view.
pub fn idle_requires_reconnect(changes: &Vec<Subsystem>) -> (res: bool)
    ensures
        res == exists|i: int| 0 <= i < changes.len() && changes[i] == Subsystem::Database,
{
    let mut i: usize = 0;
    while i < changes.len()
        invariant
            i <= changes.len(),
            forall|j: int| 0 <= j < i ==> changes[j] != Subsystem::Database,
        decreases changes.len() - i,
    {
        if changes[i] == Subsystem::Database {
            return true;
        }
        i = i + 1;
    }
    false
}

/// Whether a request to connect is acted on: not right after another one.
pub fn should_connect(recently_connected: bool) -> (res: bool)
    ensures
        res == !recently_connected,
{
    !recently_connected
}

/// How far connecting to the daemon has come.
pub enum ConnectPhase {
    /// No connection attempt is under way.
    Idle,
    /// The socket is being opened.
    Opening { use_unix_socket: bool },
    /// The daemon answered; the stored password is being looked up.
    AwaitPassword,
    /// The stored password was sent.
    AwaitLogin { password: String },
    /// The worker channel is being subscribed to, the first command that needs
    /// privileges.
    AwaitSubscribe { password_access_failed: bool, login_password: Option<String> },
}

/// What the credential store gave back.
pub enum PasswordLookup {
    Found(String),
    /// No password is stored (or access to the store was declined).
    NotStored,
    /// The store could not be read.
    Failed,
}

/// How the daemon answered a command.
#[derive(Debug, Clone, Copy, PartialEq, Eq, Structural)]
pub enum CommandReply {
    Done,
    /// The daemon refused the command with an error of this kind.
    ServerError(ServerErrorKind),
    /// The command failed otherwise, such as on the socket.
    OtherError,
}

/// What happened since the last step of connecting.
pub enum ConnectEvent {
    /// A (re)connection was asked for.
    Start { use_unix_socket: bool },
    /// The socket is open and the daemon reported this minor version.
    Opened { minor: u16 },
    /// The socket could not be opened.
    OpenFailed,
    Password(PasswordLookup),
    Login(CommandReply),
    Subscribed(CommandReply),
}

/// What the caller does next while connecting.
#[derive(Debug, PartialEq, Eq)]
pub enum ConnectAction {
    /// Close the current clients, wait for the worker to stop, then open the
    /// socket.
    DisconnectAndOpen { use_unix_socket: bool },
    LookUpPassword,
    /// Send this password.
    Login(String),
    /// Subscribe to the worker channel.
    Subscribe,
    /// Close the new client; connecting ends.
    CloseClient,
    /// Drop the new client; connecting ends.
    DropClient,
    /// Keep the new client as the main one and start the worker, which logs
    /// in with this password; connecting ends.
    KeepClientAndStartWorker(Option<String>),
    /// Nothing to do.
    Nothing,
}

/// The next phase and the action for an event. A new start is taken in any
/// phase; any other event is taken only in the phase that waits for it, and
/// otherwise leaves the phase as it is.
pub open spec fn connect_next(phase: ConnectPhase, event: ConnectEvent) -> (ConnectPhase, ConnectAction) {
    match (phase, event) {
        (_, ConnectEvent::Start { use_unix_socket }) => (
            ConnectPhase::Opening { use_unix_socket },
            ConnectAction::DisconnectAndOpen { use_unix_socket },
        ),
        (ConnectPhase::Opening { .. }, ConnectEvent::OpenFailed) => (
            ConnectPhase::Idle,
            ConnectAction::Nothing,
        ),
        (ConnectPhase::Opening { .. }, ConnectEvent::Opened { .. }) => (
            ConnectPhase::AwaitPassword,
            ConnectAction::LookUpPassword,
        ),
        (ConnectPhase::AwaitPassword, ConnectEvent::Password(PasswordLookup::Found(password))) => (
            ConnectPhase::AwaitLogin { password },
            ConnectAction::Login(password),
        ),
        (ConnectPhase::AwaitPassword, ConnectEvent::Password(PasswordLookup::NotStored)) => (
            ConnectPhase::AwaitSubscribe { password_access_failed: false, login_password: None },
            ConnectAction::Subscribe,
        ),
        (ConnectPhase::AwaitPassword, ConnectEvent::Password(PasswordLookup::Failed)) => (
            ConnectPhase::AwaitSubscribe { password_access_failed: true, login_password: None },
            ConnectAction::Subscribe,
        ),
        (ConnectPhase::AwaitLogin { password }, ConnectEvent::Login(reply)) => match reply {
            CommandReply::ServerError(_) => (ConnectPhase::Idle, ConnectAction::CloseClient),
            _ => (
                ConnectPhase::AwaitSubscribe { password_access_failed: false, login_password: Some(password) },
                ConnectAction::Subscribe,
            ),
        },
        (ConnectPhase::AwaitSubscribe { login_password, .. }, ConnectEvent::Subscribed(reply)) => match reply {
            CommandReply::ServerError(_) => (ConnectPhase::Idle, ConnectAction::DropClient),
            _ => (ConnectPhase::Idle, ConnectAction::KeepClientAndStartWorker(login_password)),
        },
        (phase, _) => (phase, ConnectAction::Nothing),
    }
}

/// The connection state shown after an event, where the event sets one: a
/// start shows connecting; a socket that cannot be opened, a refused login,
/// and a subscription refused for want of permission end in their failure
/// states; a subscription that is not refused by the daemon ends connected.
/// A subscription refused for another reason leaves the state as it was.
pub open spec fn connect_shown_state(phase: ConnectPhase, event: ConnectEvent) -> Option<ConnectionState> {
    match (phase, event) {
        (_, ConnectEvent::Start { .. }) => Some(ConnectionState::Connecting),
        (ConnectPhase::Opening { use_unix_socket }, ConnectEvent::OpenFailed) => Some(
            if use_unix_socket {
                ConnectionState::SocketNotFound
            } else {
                ConnectionState::ConnectionRefused
            },
        ),
        (ConnectPhase::AwaitLogin { .. }, ConnectEvent::Login(CommandReply::ServerError(kind))) => Some(
            if kind == ServerErrorKind::Password {
                ConnectionState::WrongPassword
            } else {
                ConnectionState::NotConnected
            },
        ),
        (ConnectPhase::AwaitSubscribe { password_access_failed, login_password }, ConnectEvent::Subscribed(reply)) => match reply {
            CommandReply::ServerError(kind) => if kind == ServerErrorKind::Permission {
                Some(
                    if password_access_failed {
                        ConnectionState::CredentialStoreError
                    } else if login_password is None {
                        ConnectionState::PasswordNotAvailable
                    } else {
                        ConnectionState::Unauthenticated
                    },
                )
            } else {
                None
            },
            _ => Some(ConnectionState::Connected),
        },
        _ => None,
    }
}

/// The client state after an event: the daemon's version sets the sticker
/// support level, and the shown connection state is updated.
pub open spec fn connect_state_after(s: ClientState, phase: ConnectPhase, event: ConnectEvent) -> ClientState {
    let s1 = match (phase, event) {
        (ConnectPhase::Opening { .. }, ConnectEvent::Opened { minor }) => ClientState {
            stickers_support_level: stickers_level_for(minor),
            ..s
        },
        _ => s,
    };
    match connect_shown_state(phase, event) {
        Some(c) => ClientState { connection_state: c, ..s1 },
        None => s1,
    }
}

/// Whether the event ends connecting with the new client kept as the main one.
pub open spec fn connect_keeps_client(phase: ConnectPhase, event: ConnectEvent) -> bool {
    &&& phase is AwaitSubscribe
    &&& event matches ConnectEvent::Subscribed(reply)
    &&& !(reply is ServerError)
}

/// The phase and client state after a run of events.
pub open spec fn connect_run(phase: ConnectPhase, s: ClientState, events: Seq<ConnectEvent>) -> (
    ConnectPhase,
    ClientState,
)
    decreases events.len(),
{
    if events.len() == 0 {
        (phase, s)
    } else {
        connect_run(
            connect_next(phase, events[0]).0,
            connect_state_after(s, phase, events[0]),
            events.drop_first(),
        )
    }
}

/// The events of an attempt whose socket opens: the daemon's version, the
/// password lookup, the login when a password was found, and the answer to
/// the subscription (which a refused login never reaches).
pub open spec fn attempt_events(
    use_unix_socket: bool,
    minor: u16,
    lookup: PasswordLookup,
    login: CommandReply,
    subscribe: CommandReply,
) -> Seq<ConnectEvent> {
    let head = seq![
        ConnectEvent::Start { use_unix_socket },
        ConnectEvent::Opened { minor },
        ConnectEvent::Password(lookup),
    ];
    let with_login = if lookup is Found {
        head.push(ConnectEvent::Login(login))
    } else {
        head
    };
    with_login.push(ConnectEvent::Subscribed(subscribe))
}

/// How an attempt whose socket opens ends: a login refused by the daemon
/// shows a wrong password or no connection; otherwise a subscription refused
/// for want of permission shows why (the credential store failed, no
/// password is stored, or the stored one lacks privileges), one refused for
/// another reason leaves the state at connecting, and any other answer ends
/// connected. Whatever the outcome, the sticker support level is that of
/// the daemon's version, and the attempt is over.
pub proof fn lemma_connect_attempt(
    phase: ConnectPhase,
    s: ClientState,
    use_unix_socket: bool,
    minor: u16,
    lookup: PasswordLookup,
    login: CommandReply,
    subscribe: CommandReply,
)
    ensures
        ({
            let r = connect_run(
                phase,
                s,
                attempt_events(use_unix_socket, minor, lookup, login, subscribe),
            );
            &&& r.0 is Idle
            &&& r.1.stickers_support_level == stickers_level_for(minor)
            &&& r.1.connection_state == if lookup is Found && login is ServerError {
                if login->ServerError_0 == ServerErrorKind::Password {
                    ConnectionState::WrongPassword
                } else {
                    ConnectionState::NotConnected
                }
            } else {
                match subscribe {
                    CommandReply::ServerError(kind) => if kind == ServerErrorKind::Permission {
                        if lookup is Failed {
                            ConnectionState::CredentialStoreError
                        } else if lookup is NotStored {
                            ConnectionState::PasswordNotAvailable
                        } else {
                            ConnectionState::Unauthenticated
                        }
                    } else {
                        ConnectionState::Connecting
                    },
                    _ => ConnectionState::Connected,
                }
            }
        }),
{
    let ev = attempt_events(use_unix_socket, minor, lookup, login, subscribe);
    reveal_with_fuel(connect_run, 6);
    if lookup is Found {
        assert(ev.len() == 5);
        assert(ev.drop_first().drop_first().drop_first().drop_first().drop_first().len() == 0);
    } else {
        assert(ev.len() == 4);
        assert(ev.drop_first().drop_first().drop_first().drop_first().len() == 0);
    }
}

/// An attempt whose socket cannot be opened ends at once, showing that the
/// local socket was not found or the host refused.
pub proof fn lemma_connect_open_failed(phase: ConnectPhase, s: ClientState, use_unix_socket: bool)
    ensures
        ({
            let r = connect_run(
                phase,
                s,
                seq![ConnectEvent::Start { use_unix_socket }, ConnectEvent::OpenFailed],
            );
            &&& r.0 is Idle
            &&& r.1.connection_state == if use_unix_socket {
                ConnectionState::SocketNotFound
            } else {
                ConnectionState::ConnectionRefused
            }
        }),
{
    let ev = seq![ConnectEvent::Start { use_unix_socket }, ConnectEvent::OpenFailed];
    reveal_with_fuel(connect_run, 3);
    assert(ev.drop_first().drop_first().len() == 0);
}

/// A command that sets one of the daemon's playback flags.
#[derive(Debug, Clone, Copy, PartialEq, Eq, Structural)]
pub enum FlowCommand {
    Repeat(bool),
    Single(bool),
}

/// Whether a worker task is the fetch that a queue sync asked for.
pub open spec fn is_fetch_task(task: BackgroundTask, fetch: QueueFetch) -> bool {
    match fetch {
        QueueFetch::FetchQueue => task is FetchQueue,
        QueueFetch::FetchQueueChanges(v, n) => task matches BackgroundTask::FetchQueueChanges(
            tv,
            tn,
        ) && tv == v && tn == n,
    }
}

/// The client's own bookkeeping: the queue versions it has seen and expects,
/// whether an idle round is pending for the worker, and the state it shows.
pub struct MpdWrapper {
    queue_version: u32,
    expected_queue_version: u32,
    pending_idle: bool,
    state: ClientState,
    has_main_client: bool,
    connect_phase: ConnectPhase,
}

impl MpdWrapper {
    pub closed spec fn spec_has_main_client(&self) -> bool {
        self.has_main_client
    }

    pub closed spec fn spec_connect_phase(&self) -> ConnectPhase {
        self.connect_phase
    }

    /// The connection session: whether a main client is held, and how far
    /// connecting has come.
    pub open spec fn spec_session(&self) -> (bool, ConnectPhase) {
        (self.spec_has_main_client(), self.spec_connect_phase())
    }

    pub closed spec fn spec_queue_version(&self) -> u32 {
        self.queue_version
    }

    pub closed spec fn spec_expected_queue_version(&self) -> u32 {
        self.expected_queue_version
    }

    pub closed spec fn spec_pending_idle(&self) -> bool {
        self.pending_idle
    }

    pub closed spec fn spec_state(&self) -> ClientState {
        self.state
    }

    /// A client that has seen no queue yet.
    pub fn new() -> (res: Self)
        ensures
            res.spec_queue_version() == 0,
            res.spec_expected_queue_version() == 0,
            !res.spec_pending_idle(),
            !res.spec_has_main_client(),
            res.spec_connect_phase() == ConnectPhase::Idle,
            res.spec_state() == (ClientState {
                connection_state: ConnectionState::NotConnected,
                busy: false,
                supports_playlists: true,
                stickers_support_level: StickersSupportLevel::Disabled,
            }),
    {
        MpdWrapper {
            queue_version: 0,
            expected_queue_version: 0,
            pending_idle: false,
            state: ClientState::new(),
            has_main_client: false,
            connect_phase: ConnectPhase::Idle,
        }
    }

    pub fn get_client_state(&self) -> (res: ClientState)
        ensures
            res == self.spec_state(),
    {
        self.state
    }

    pub fn queue_version(&self) -> (res: u32)
        ensures
            res == self.spec_queue_version(),
    {
        self.queue_version
    }

    pub fn expected_queue_version(&self) -> (res: u32)
        ensures
            res == self.spec_expected_queue_version(),
    {
        self.expected_queue_version
    }

    /// Starting a new connection drops the main client, forgets the queue
    /// versions and marks the state as connecting.
    fn begin_connect(&mut self)
        ensures
            final(self).spec_queue_version() == 0,
            final(self).spec_expected_queue_version() == 0,
            final(self).spec_pending_idle() == old(self).spec_pending_idle(),
            !final(self).spec_has_main_client(),
            final(self).spec_connect_phase() == old(self).spec_connect_phase(),
            final(self).spec_state() == (ClientState {
                connection_state: ConnectionState::Connecting,
                ..old(self).spec_state()
            }),
    {
        self.has_main_client = false;
        self.queue_version = 0;
        self.expected_queue_version = 0;
        self.state.set_connection_state(ConnectionState::Connecting);
    }

    /// The daemon answered the connection: sticker support is set from its
    /// minor version.
    fn on_daemon_version(&mut self, minor: u16)
        ensures
            final(self).spec_queue_version() == old(self).spec_queue_version(),
            final(self).spec_expected_queue_version() == old(self).spec_expected_queue_version(),
            final(self).spec_pending_idle() == old(self).spec_pending_idle(),
            final(self).spec_session() == old(self).spec_session(),
            final(self).spec_state() == (ClientState {
                stickers_support_level: stickers_level_for(minor),
                ..old(self).spec_state()
            }),
    {
        let level = stickers_level_for_version(minor);
        self.state.set_stickers_support_level(level);
    }

    /// Sets the shown connection state.
    pub fn set_connection_state(&mut self, new_state: ConnectionState) -> (changed: bool)
        ensures
            final(self).spec_queue_version() == old(self).spec_queue_version(),
            final(self).spec_expected_queue_version() == old(self).spec_expected_queue_version(),
            final(self).spec_pending_idle() == old(self).spec_pending_idle(),
            final(self).spec_session() == old(self).spec_session(),
            final(self).spec_state() == (ClientState {
                connection_state: new_state,
                ..old(self).spec_state()
            }),
            changed == (old(self).spec_state().connection_state != new_state),
    {
        self.state.set_connection_state(new_state)
    }

    /// Local queue edits that are sent to the daemon raise the version the
    /// client expects, so that their echo is not fetched again.
    pub fn register_local_queue_changes(&mut self, n_changes: u32)
        requires
            old(self).spec_expected_queue_version() + n_changes <= u32::MAX,
        ensures
            final(self).spec_expected_queue_version() == old(self).spec_expected_queue_version()
                + n_changes,
            final(self).spec_queue_version() == old(self).spec_queue_version(),
            final(self).spec_pending_idle() == old(self).spec_pending_idle(),
            final(self).spec_session() == old(self).spec_session(),
            final(self).spec_state() == old(self).spec_state(),
    {
        self.expected_queue_version = self.expected_queue_version + n_changes;
    }

    /// A status reply arrived with this queue version and length. When asked
    /// to keep the queue in sync, the version is recorded, and a newer version
    /// than both the one seen and the one expected asks for a fetch: the whole
    /// queue when none was seen before, else the changes since the last one.
    pub fn sync_queue_on_status(&mut self, sync_queue: bool, version: u32, queue_len: u32) -> (res:
        Option<QueueFetch>)
        ensures
            !sync_queue ==> res is None && final(self).spec_queue_version() == old(self).spec_queue_version() && final(self).spec_expected_queue_version() == old(self).spec_expected_queue_version(),
            sync_queue ==> (res, final(self).spec_queue_version(), final(self).spec_expected_queue_version()) == queue_sync(
                old(self).spec_queue_version(),
                old(self).spec_expected_queue_version(),
                version,
                queue_len,
            ),
            final(self).spec_pending_idle() == old(self).spec_pending_idle(),
            final(self).spec_session() == old(self).spec_session(),
            final(self).spec_state() == old(self).spec_state(),
    {
        if !sync_queue {
            return None;
        }
        let old_version = self.queue_version;
        self.queue_version = version;
        if version > old_version && version > self.expected_queue_version {
            self.expected_queue_version = version;
            if old_version == 0 {
                Some(QueueFetch::FetchQueue)
            } else {
                Some(QueueFetch::FetchQueueChanges(old_version, queue_len))
            }
        } else {
            None
        }
    }

    /// A command succeeded: the worker is asked to go idle soon so that the
    /// change is seen.
    pub fn force_idle(&mut self)
        ensures
            final(self).spec_pending_idle(),
            final(self).spec_session() == old(self).spec_session(),
            final(self).spec_queue_version() == old(self).spec_queue_version(),
            final(self).spec_expected_queue_version() == old(self).spec_expected_queue_version(),
            final(self).spec_state() == old(self).spec_state(),
    {
        self.pending_idle = true;
    }

    /// The worker's turn: it reads and clears the pending idle request and
    /// picks what to do.
    pub fn next_background_step(&mut self, high_empty: bool, normal_empty: bool) -> (res:
        BackgroundStep)
        ensures
            res == (if old(self).spec_pending_idle() {
                BackgroundStep::Idle { clear_pending: true }
            } else if !high_empty {
                BackgroundStep::RunHigh
            } else if !normal_empty {
                BackgroundStep::RunNormal
            } else {
                BackgroundStep::Idle { clear_pending: false }
            }),
            !final(self).spec_pending_idle(),
            final(self).spec_session() == old(self).spec_session(),
            final(self).spec_queue_version() == old(self).spec_queue_version(),
            final(self).spec_expected_queue_version() == old(self).spec_expected_queue_version(),
            final(self).spec_state() == old(self).spec_state(),
    {
        let skip = self.pending_idle;
        let step = background_step(skip, high_empty, normal_empty);
        if skip {
            self.pending_idle = false;
        }
        step
    }

    /// Whether a sticker of this type may be read or written: a main client
    /// is held and the support level is high enough for the type.
    pub fn can_access_sticker(&self, typ: &str) -> (res: bool)
        ensures
            res == (self.spec_has_main_client() && stickers_rank(self.spec_state().stickers_support_level) >= stickers_rank(
                if typ@ == "song"@ {
                    StickersSupportLevel::SongsOnly
                } else {
                    StickersSupportLevel::All
                },
            )),
    {
        let min_lvl = sticker_min_level(typ);
        self.has_main_client && self.state.stickers_support_level.rank() >= min_lvl.rank()
    }

    /// Whether a sticker of this type may be deleted: a main client is held
    /// and the same level is needed as for reading and writing it, so that a
    /// rating can be cleared.
    pub fn can_delete_sticker(&self, typ: &str) -> (res: bool)
        ensures
            res == (self.spec_has_main_client() && stickers_rank(self.spec_state().stickers_support_level) >= stickers_rank(
                if typ@ == "song"@ {
                    StickersSupportLevel::SongsOnly
                } else {
                    StickersSupportLevel::All
                },
            )),
    {
        let min_lvl = sticker_min_level(typ);
        self.has_main_client && self.state.stickers_support_level.rank() >= min_lvl.rank()
    }

    /// A sticker command failed on the daemon: an unknown command means no
    /// sticker support, bad arguments mean songs only.
    pub fn handle_sticker_server_error(&mut self, kind: ServerErrorKind)
        ensures
            kind == ServerErrorKind::UnknownCmd ==> final(self).spec_state() == (ClientState {
                stickers_support_level: StickersSupportLevel::Disabled,
                ..old(self).spec_state()
            }),
            kind == ServerErrorKind::Argument ==> final(self).spec_state() == (ClientState {
                stickers_support_level: StickersSupportLevel::SongsOnly,
                ..old(self).spec_state()
            }),
            kind != ServerErrorKind::UnknownCmd && kind != ServerErrorKind::Argument ==> final(self).spec_state() == old(self).spec_state(),
            final(self).spec_queue_version() == old(self).spec_queue_version(),
            final(self).spec_expected_queue_version() == old(self).spec_expected_queue_version(),
            final(self).spec_pending_idle() == old(self).spec_pending_idle(),
            final(self).spec_session() == old(self).spec_session(),
    {
        match kind {
            ServerErrorKind::UnknownCmd => {
                self.state.set_stickers_support_level(StickersSupportLevel::Disabled);
            },
            ServerErrorKind::Argument => {
                self.state.set_stickers_support_level(StickersSupportLevel::SongsOnly);
            },
            _ => {},
        }
    }

    /// A playlist command failed on the daemon: when the message says that
    /// playlists are disabled, they are marked unsupported.
    pub fn handle_playlist_error(&mut self, detail: &str)
        ensures
            seq_contains(detail@, "disabled"@) ==> final(self).spec_state() == (ClientState {
                supports_playlists: false,
                ..old(self).spec_state()
            }),
            !seq_contains(detail@, "disabled"@) ==> final(self).spec_state() == old(self).spec_state(),
            final(self).spec_queue_version() == old(self).spec_queue_version(),
            final(self).spec_expected_queue_version() == old(self).spec_expected_queue_version(),
            final(self).spec_pending_idle() == old(self).spec_pending_idle(),
            final(self).spec_session() == old(self).spec_session(),
    {
        if playlist_error_disables(detail) {
            self.state.set_supports_playlists(false);
        }
    }

    /// A playlist command succeeded: playlists are supported.
    pub fn on_playlist_success(&mut self)
        ensures
            final(self).spec_state() == (ClientState {
                supports_playlists: true,
                ..old(self).spec_state()
            }),
            final(self).spec_queue_version() == old(self).spec_queue_version(),
            final(self).spec_expected_queue_version() == old(self).spec_expected_queue_version(),
            final(self).spec_pending_idle() == old(self).spec_pending_idle(),
            final(self).spec_session() == old(self).spec_session(),
    {
        self.state.set_supports_playlists(true);
    }
}

impl MpdWrapper {
    /// One step of connecting: takes what happened since the last step and
    /// says what to do next. A start drops the main client, forgets the queue
    /// versions and shows connecting; the daemon's version sets the sticker
    /// support level; the stored password, when there is one, is sent before
    /// the worker channel is subscribed to; a subscription that the daemon
    /// does not refuse keeps the new client as the main one.
    pub fn connect_step(&mut self, event: ConnectEvent) -> (action: ConnectAction)
        ensures
            (final(self).spec_connect_phase(), action) == connect_next(
                old(self).spec_connect_phase(),
                event,
            ),
            final(self).spec_state() == connect_state_after(
                old(self).spec_state(),
                old(self).spec_connect_phase(),
                event,
            ),
            final(self).spec_has_main_client() == (if event is Start {
                false
            } else if connect_keeps_client(old(self).spec_connect_phase(), event) {
                true
            } else {
                old(self).spec_has_main_client()
            }),
            event is Start ==> final(self).spec_queue_version() == 0
                && final(self).spec_expected_queue_version() == 0,
            !(event is Start) ==> final(self).spec_queue_version() == old(self).spec_queue_version()
                && final(self).spec_expected_queue_version()
                == old(self).spec_expected_queue_version(),
            final(self).spec_pending_idle() == old(self).spec_pending_idle(),
    {
        let mut phase = ConnectPhase::Idle;
        std::mem::swap(&mut phase, &mut self.connect_phase);
        match event {
            ConnectEvent::Start { use_unix_socket } => {
                self.begin_connect();
                self.connect_phase = ConnectPhase::Opening { use_unix_socket };
                ConnectAction::DisconnectAndOpen { use_unix_socket }
            },
            ConnectEvent::OpenFailed => match phase {
                ConnectPhase::Opening { use_unix_socket } => {
                    self.state.set_connection_state(connect_failure_state(use_unix_socket));
                    ConnectAction::Nothing
                },
                other => {
                    self.connect_phase = other;
                    ConnectAction::Nothing
                },
            },
            ConnectEvent::Opened { minor } => match phase {
                ConnectPhase::Opening { .. } => {
                    self.on_daemon_version(minor);
                    self.connect_phase = ConnectPhase::AwaitPassword;
                    ConnectAction::LookUpPassword
                },
                other => {
                    self.connect_phase = other;
                    ConnectAction::Nothing
                },
            },
            ConnectEvent::Password(lookup) => match phase {
                ConnectPhase::AwaitPassword => match lookup {
                    PasswordLookup::Found(password) => {
                        let sent = password.clone();
                        self.connect_phase = ConnectPhase::AwaitLogin { password };
                        ConnectAction::Login(sent)
                    },
                    PasswordLookup::NotStored => {
                        self.connect_phase = ConnectPhase::AwaitSubscribe {
                            password_access_failed: false,
                            login_password: None,
                        };
                        ConnectAction::Subscribe
                    },
                    PasswordLookup::Failed => {
                        self.connect_phase = ConnectPhase::AwaitSubscribe {
                            password_access_failed: true,
                            login_password: None,
                        };
                        ConnectAction::Subscribe
                    },
                },
                other => {
                    self.connect_phase = other;
                    ConnectAction::Nothing
                },
            },
            ConnectEvent::Login(reply) => match phase {
                ConnectPhase::AwaitLogin { password } => match reply {
                    CommandReply::ServerError(kind) => {
                        self.state.set_connection_state(login_failure_state(kind));
                        ConnectAction::CloseClient
                    },
                    _ => {
                        self.connect_phase = ConnectPhase::AwaitSubscribe {
                            password_access_failed: false,
                            login_password: Some(password),
                        };
                        ConnectAction::Subscribe
                    },
                },
                other => {
                    self.connect_phase = other;
                    ConnectAction::Nothing
                },
            },
            ConnectEvent::Subscribed(reply) => match phase {
                ConnectPhase::AwaitSubscribe { password_access_failed, login_password } => match reply {
                    CommandReply::ServerError(kind) => {
                        if kind == ServerErrorKind::Permission {
                            let shown = permission_denied_state(
                                password_access_failed,
                                login_password.is_some(),
                            );
                            self.state.set_connection_state(shown);
                        }
                        ConnectAction::DropClient
                    },
                    _ => {
                        self.has_main_client = true;
                        self.state.set_connection_state(ConnectionState::Connected);
                        ConnectAction::KeepClientAndStartWorker(login_password)
                    },
                },
                other => {
                    self.connect_phase = other;
                    ConnectAction::Nothing
                },
            },
        }
    }

    /// A status reply arrived with this queue version and length. When asked
    /// to keep the queue in sync, the versions move as `queue_sync` says, and
    /// the fetch it asks for comes back as a task for the worker, paired with
    /// `true`: it goes to the high-priority queue.
    pub fn get_status(&mut self, sync_queue: bool, version: u32, queue_len: u32) -> (res: Option<
        (BackgroundTask, bool),
    >)
        ensures
            !sync_queue ==> res is None && final(self).spec_queue_version() == old(
                self,
            ).spec_queue_version() && final(self).spec_expected_queue_version() == old(
                self,
            ).spec_expected_queue_version(),
            sync_queue ==> final(self).spec_queue_version() == queue_sync(
                old(self).spec_queue_version(),
                old(self).spec_expected_queue_version(),
                version,
                queue_len,
            ).1 && final(self).spec_expected_queue_version() == queue_sync(
                old(self).spec_queue_version(),
                old(self).spec_expected_queue_version(),
                version,
                queue_len,
            ).2,
            sync_queue ==> (res is Some <==> queue_sync(
                old(self).spec_queue_version(),
                old(self).spec_expected_queue_version(),
                version,
                queue_len,
            ).0 is Some),
            res matches Some((task, high)) ==> (high && is_fetch_task(
                task,
                queue_sync(
                    old(self).spec_queue_version(),
                    old(self).spec_expected_queue_version(),
                    version,
                    queue_len,
                ).0.unwrap(),
            )),
            final(self).spec_pending_idle() == old(self).spec_pending_idle(),
            final(self).spec_session() == old(self).spec_session(),
            final(self).spec_state() == old(self).spec_state(),
    {
        match self.sync_queue_on_status(sync_queue, version, queue_len) {
            Some(QueueFetch::FetchQueue) => Some((BackgroundTask::FetchQueue, true)),
            Some(QueueFetch::FetchQueueChanges(v, n)) => Some(
                (BackgroundTask::FetchQueueChanges(v, n), true),
            ),
            None => None,
        }
    }

    /// Setting how playback moves on: while a main client is held, the
    /// repeat flag of the flow is sent first; without one nothing is sent.
    pub fn set_playback_flow(&self, flow: PlaybackFlow) -> (res: Option<FlowCommand>)
        ensures
            res == (if self.spec_has_main_client() {
                Some(FlowCommand::Repeat(flow_flags(flow).0))
            } else {
                None
            }),
    {
        if self.has_main_client {
            let (repeat, _single) = playback_flow_flags(flow);
            Some(FlowCommand::Repeat(repeat))
        } else {
            None
        }
    }

    /// After the repeat flag was sent: the single flag of the flow follows
    /// only when that succeeded.
    pub fn playback_flow_after_repeat(&self, flow: PlaybackFlow, repeat_ok: bool) -> (res: Option<
        FlowCommand,
    >)
        ensures
            res == (if repeat_ok {
                Some(FlowCommand::Single(flow_flags(flow).1))
            } else {
                None
            }),
    {
        if repeat_ok {
            let (_repeat, single) = playback_flow_flags(flow);
            Some(FlowCommand::Single(single))
        } else {
            None
        }
    }

    /// A command that changes the daemon's state answered: on success the
    /// worker is asked to go idle soon, so that the change is seen.
    pub fn handle_set_result(&mut self, ok: bool)
        ensures
            final(self).spec_pending_idle() == (old(self).spec_pending_idle() || ok),
            final(self).spec_session() == old(self).spec_session(),
            final(self).spec_queue_version() == old(self).spec_queue_version(),
            final(self).spec_expected_queue_version() == old(self).spec_expected_queue_version(),
            final(self).spec_state() == old(self).spec_state(),
    {
        if ok {
            self.force_idle();
        }
    }
}

/// The worker's two task queues: high-priority tasks, queued as the direct
/// result of a user action, and normal ones. Each is first in, first out.
pub struct TaskQueues<T> {
    high: VecDeque<T>,
    normal: VecDeque<T>,
}

/// One turn of the worker on its queues: an idle that was asked for comes
/// first and takes nothing; then the oldest high-priority task; then the
/// oldest normal task; with both queues empty, nothing. The result is the
/// task taken and the queues after it.
pub open spec fn queue_turn<T>(pending_idle: bool, high: Seq<T>, normal: Seq<T>) -> (
    Option<T>,
    Seq<T>,
    Seq<T>,
) {
    if pending_idle {
        (None, high, normal)
    } else if high.len() > 0 {
        (Some(high[0]), high.drop_first(), normal)
    } else if normal.len() > 0 {
        (Some(normal[0]), high, normal.drop_first())
    } else {
        (None, high, normal)
    }
}

impl<T> TaskQueues<T> {
    pub closed spec fn spec_high(&self) -> Seq<T> {
        self.high@
    }

    pub closed spec fn spec_normal(&self) -> Seq<T> {
        self.normal@
    }

    /// Both queues empty.
    pub fn new() -> (res: Self)
        ensures
            res.spec_high() == Seq::<T>::empty(),
            res.spec_normal() == Seq::<T>::empty(),
    {
        TaskQueues { high: VecDeque::new(), normal: VecDeque::new() }
    }

    /// Queues a task at the end of the queue of its priority.
    pub fn push(&mut self, task: T, high_priority: bool)
        ensures
            high_priority ==> final(self).spec_high() == old(self).spec_high().push(task)
                && final(self).spec_normal() == old(self).spec_normal(),
            !high_priority ==> final(self).spec_normal() == old(self).spec_normal().push(task)
                && final(self).spec_high() == old(self).spec_high(),
    {
        if high_priority {
            self.high.push_back(task);
        } else {
            self.normal.push_back(task);
        }
    }

    /// The numbers of waiting tasks, high-priority and normal; their sum is
    /// reported at the start of each turn.
    pub fn lens(&self) -> (res: (usize, usize))
        ensures
            res.0 == self.spec_high().len(),
            res.1 == self.spec_normal().len(),
    {
        (self.high.len(), self.normal.len())
    }

    /// The worker's turn: the client clears its pending idle request and
    /// picks the step (see `MpdWrapper::next_background_step`), and the task
    /// it picks is taken from the front of its queue (see `queue_turn`).
    pub fn next_task(&mut self, client: &mut MpdWrapper) -> (res: (BackgroundStep, Option<T>))
        ensures
            res.0 == (if old(client).spec_pending_idle() {
                BackgroundStep::Idle { clear_pending: true }
            } else if old(self).spec_high().len() > 0 {
                BackgroundStep::RunHigh
            } else if old(self).spec_normal().len() > 0 {
                BackgroundStep::RunNormal
            } else {
                BackgroundStep::Idle { clear_pending: false }
            }),
            (res.1, final(self).spec_high(), final(self).spec_normal()) == queue_turn(
                old(client).spec_pending_idle(),
                old(self).spec_high(),
                old(self).spec_normal(),
            ),
            !final(client).spec_pending_idle(),
            final(client).spec_session() == old(client).spec_session(),
            final(client).spec_queue_version() == old(client).spec_queue_version(),
            final(client).spec_expected_queue_version() == old(
                client,
            ).spec_expected_queue_version(),
            final(client).spec_state() == old(client).spec_state(),
    {
        let step = client.next_background_step(self.high.len() == 0, self.normal.len() == 0);
        let task = match step {
            BackgroundStep::RunHigh => self.high.pop_front(),
            BackgroundStep::RunNormal => self.normal.pop_front(),
            BackgroundStep::Idle { .. } => None,
        };
        proof {
            assert(old(self).spec_high().drop_first() =~= old(self).spec_high().subrange(
                1,
                old(self).spec_high().len() as int,
            ));
            assert(old(self).spec_normal().drop_first() =~= old(self).spec_normal().subrange(
                1,
                old(self).spec_normal().len() as int,
            ));
        }
        (step, task)
    }
}

/// The worker's queues keep their order and their priority: while no idle
/// is pending, a turn takes the oldest high-priority task whenever one
/// waits, leaving the normal queue untouched; a normal task is taken only
/// when no high-priority task waits, and then the oldest one; a task queued
/// later never comes before one queued earlier at the same priority.
pub proof fn lemma_queues_fifo_and_priority<T>(high: Seq<T>, normal: Seq<T>, task: T, high_priority: bool)
    ensures
        high.len() > 0 ==> queue_turn(false, high, normal) == (Some(high[0]), high.drop_first(), normal),
        queue_turn(false, high, normal).2 != normal ==> high.len() == 0 && queue_turn(false, high, normal).0 == Some(normal[0]),
        high.len() > 0 && high_priority ==> queue_turn(false, high.push(task), normal).0 == Some(high[0]),
        normal.len() > 0 && high.len() == 0 && !high_priority ==> queue_turn(false, high, normal.push(task)).0
            == Some(normal[0]),
{
    if high.len() == 0 && normal.len() > 0 {
        assert(normal.drop_first() != normal) by {
            assert(normal.drop_first().len() != normal.len());
        }
    }
}

/// The player's state as the daemon reports it.
#[derive(Debug, Clone, Copy, PartialEq, Eq, Structural)]
pub enum PlaybackState {
    Stop,
    Play,
    Pause,
}

/// What the player shows: its state and position, and the current song's
/// title, artist and duration.
#[derive(Debug)]
pub struct PlayerState {
    pub state: PlaybackState,
    pub position: u64,
    pub current_title: Option<String>,
    pub current_artist: Option<String>,
    pub current_duration: Option<u64>,
}

impl PlayerState {
    /// Stopped at the start, with no song.
    pub fn new() -> (res: Self)
        ensures
            res.state == PlaybackState::Stop,
            res.position == 0,
            res.current_title is None,
            res.current_artist is None,
            res.current_duration is None,
    {
        PlayerState {
            state: PlaybackState::Stop,
            position: 0,
            current_title: None,
            current_artist: None,
            current_duration: None,
        }
    }

    /// Takes the state from a status reply; the result says whether it
    /// changed (and so whether the playing flag and position are announced).
    pub fn update_status(&mut self, state: PlaybackState) -> (changed: bool)
        ensures
            final(self).state == state,
            final(self).position == old(self).position,
            changed == (old(self).state != state),
    {
        let old_state = self.state;
        self.state = state;
        old_state != state
    }

    /// Sets the state; the result says whether it changed.
    pub fn set_playback_state(&mut self, state: PlaybackState) -> (changed: bool)
        ensures
            final(self).state == state,
            final(self).position == old(self).position,
            changed == (old(self).state != state),
    {
        self.update_status(state)
    }

    pub fn is_playing(&self) -> (res: bool)
        ensures
            res == (self.state == PlaybackState::Play),
    {
        self.state == PlaybackState::Play
    }

    pub fn position(&self) -> (res: u64)
        ensures
            res == self.position,
    {
        self.position
    }

    pub fn title(&self) -> (res: Option<String>)
        ensures
            res == self.current_title,
    {
        crate::song::clone_opt(&self.current_title)
    }

    pub fn artist(&self) -> (res: Option<String>)
        ensures
            res == self.current_artist,
    {
        crate::song::clone_opt(&self.current_artist)
    }

    /// The current song's duration in whole seconds; 0 when there is no
    /// song or its duration is unknown.
    pub fn duration(&self) -> (res: u64)
        ensures
            res == match self.current_duration {
                Some(d) => d,
                None => 0,
            },
    {
        match self.current_duration {
            Some(d) => d,
            None => 0,
        }
    }
}

/// Requests from the interface to the older client loop.
#[derive(Debug)]
pub enum UiMessage {
    /// Connect to a host and port, both as text.
    Connect(String, String),
    Play,
    Pause,
    GetPlaybackStatus,
}

/// The daemon's status record, carried through as it is.
#[verifier::external_type_specification]
#[verifier::external_body]
pub struct ExStatus(mpd::status::Status);

/// Replies of the older client loop.
pub enum MpdMessage {
    PlaybackPosition(u64),
    PlaybackStatus(mpd::status::Status),
    ClientError(String),
    NotConnectedError,
}

} // verus!
