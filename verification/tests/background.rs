use euphonica::background::{
    background_reply_settings, background_request, BackgroundRequest, BackgroundSettings,
    PortalReply,
};

#[test]
fn portal_request_follows_settings() {
    assert_eq!(
        background_request(true, true),
        BackgroundRequest { auto_start: true, minimized_command: true }
    );
    assert_eq!(
        background_request(false, true),
        BackgroundRequest { auto_start: false, minimized_command: false }
    );
}

#[test]
fn portal_reply_updates_settings() {
    assert_eq!(
        background_reply_settings(true, PortalReply::SendFailed),
        BackgroundSettings { portal_available: Some(false), autostart: None, run_in_background: None }
    );
    assert_eq!(
        background_reply_settings(true, PortalReply::NoResponse),
        BackgroundSettings { portal_available: None, autostart: None, run_in_background: None }
    );
    assert_eq!(
        background_reply_settings(false, PortalReply::Response { auto_start: true, run_in_background: true }),
        BackgroundSettings {
            portal_available: Some(true),
            autostart: Some(true),
            run_in_background: Some(false)
        }
    );
    assert_eq!(
        background_reply_settings(true, PortalReply::Response { auto_start: false, run_in_background: true }),
        BackgroundSettings {
            portal_available: Some(true),
            autostart: Some(false),
            run_in_background: Some(true)
        }
    );
}
