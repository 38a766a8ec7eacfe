//! Running in the background: what is asked of the desktop's background
//! portal, and which settings its answer changes.
use vstd::prelude::*;

verus! {

/// What the request to the background portal asks for.
#[derive(Debug, Clone, Copy, PartialEq, Eq, Structural)]
pub struct BackgroundRequest {
    /// Start with the session.
    pub auto_start: bool,
    /// Start with the `--minimized` command line.
    pub minimized_command: bool,
}

/// The request from the settings: autostart is asked for when set, and
/// then with the minimized command line when starting minimized is set.
pub fn background_request(autostart: bool, start_minimized: bool) -> (res: BackgroundRequest)
    ensures
        res.auto_start == autostart,
        res.minimized_command == (autostart && start_minimized),
{
    BackgroundRequest { auto_start: autostart, minimized_command: autostart && start_minimized }
}

/// How the portal answered.
#[derive(Debug, Clone, Copy, PartialEq, Eq, Structural)]
pub enum PortalReply {
    /// The request could not be sent: there is no portal.
    SendFailed,
    /// The request was sent but no answer could be read.
    NoResponse,
    /// The portal's answer: whether autostart and running in the background
    /// are allowed.
    Response { auto_start: bool, run_in_background: bool },
}

/// The settings to write after the answer; `None` leaves one as it is.
#[derive(Debug, Clone, Copy, PartialEq, Eq, Structural)]
pub struct BackgroundSettings {
    pub portal_available: Option<bool>,
    pub autostart: Option<bool>,
    pub run_in_background: Option<bool>,
}

/// The settings after the portal's answer: a request that could not be sent
/// marks the portal unavailable; an answer marks it available, sets
/// autostart to what was allowed, and keeps running in the background only
/// when it was set and is allowed; without an answer nothing changes.
pub fn background_reply_settings(run_in_background: bool, reply: PortalReply) -> (res:
    BackgroundSettings)
    ensures
        reply == PortalReply::SendFailed ==> res == (BackgroundSettings {
            portal_available: Some(false),
            autostart: None,
            run_in_background: None,
        }),
        reply == PortalReply::NoResponse ==> res == (BackgroundSettings {
            portal_available: None,
            autostart: None,
            run_in_background: None,
        }),
        reply matches PortalReply::Response { auto_start, run_in_background: allowed } ==> res == (
        BackgroundSettings {
            portal_available: Some(true),
            autostart: Some(auto_start),
            run_in_background: Some(run_in_background && allowed),
        }),
{
    match reply {
        PortalReply::SendFailed => BackgroundSettings {
            portal_available: Some(false),
            autostart: None,
            run_in_background: None,
        },
        PortalReply::NoResponse => BackgroundSettings {
            portal_available: None,
            autostart: None,
            run_in_background: None,
        },
        PortalReply::Response { auto_start, run_in_background: allowed } => BackgroundSettings {
            portal_available: Some(true),
            autostart: Some(auto_start),
            run_in_background: Some(run_in_background && allowed),
        },
    }
}

} // verus!
