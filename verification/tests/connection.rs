use clutch::connection::{ConnectionScreen, ConnectionTab, Effect, Message};
use clutch::profile::ConnectionProfile;
use clutch::rpc::TransmissionCredentials;

fn blank() -> ConnectionScreen {
    ConnectionScreen::default()
}

#[test]
fn default_shows_quick_connect_tab() {
    let s = blank();
    assert_eq!(s.tab, ConnectionTab::QuickConnect);
}

#[test]
fn launchpad_with_profiles_shows_saved_tab() {
    let mut p = ConnectionProfile::new_blank();
    p.name = "NAS".to_owned();
    let s = ConnectionScreen::new_launchpad(&vec![p]);
    assert_eq!(s.tab, ConnectionTab::SavedProfiles);
}

#[test]
fn connect_clicked_sets_connecting_and_clears_error() {
    let mut s = blank();
    s.error = Some("old error".to_owned());
    let (_, next) = s.update(Message::ConnectClicked);
    assert!(s.is_connecting);
    assert!(s.error.is_none());
    assert!(next.is_none());
}

#[test]
fn probe_failure_resets_state_and_sets_error() {
    let mut s = blank();
    s.is_connecting = true;
    let (_, next) = s.update(Message::ProbeResult(Err("connection refused".to_owned())));
    assert!(!s.is_connecting);
    assert_eq!(s.error.as_deref(), Some("connection refused"));
    assert!(next.is_none());
}

#[test]
fn tab_switch_clears_error() {
    let mut s = blank();
    s.error = Some("old error".to_owned());
    let _ = s.update(Message::TabSelected(ConnectionTab::SavedProfiles));
    assert!(s.error.is_none());
    assert_eq!(s.tab, ConnectionTab::SavedProfiles);
}

// ── Further behaviour ────────────────────────────────────────────────────────

#[test]
fn launchpad_selects_first_profile_and_fills_form_defaults() {
    let a = ConnectionProfile::blank(11);
    let b = ConnectionProfile::blank(12);
    let s = ConnectionScreen::new_launchpad(&vec![a, b]);
    assert_eq!(s.selected_profile_id, Some(11));
    assert_eq!(s.qc_host, "localhost");
    assert_eq!(s.qc_port, "9091");
    assert_eq!(s.profiles.len(), 2);
}

#[test]
fn connect_with_invalid_port_reports_error() {
    let mut s = blank();
    let _ = s.update(Message::PortChanged("99999".to_owned()));
    let (fx, next) = s.update(Message::ConnectClicked);
    assert!(fx.is_empty() && next.is_none());
    assert!(!s.is_connecting);
    assert_eq!(s.error.as_deref(), Some("Invalid port number."));
}

#[test]
fn quick_connect_probe_success_reports_credentials() {
    let mut s = blank();
    let _ = s.update(Message::HostChanged("nas.local".to_owned()));
    let _ = s.update(Message::UsernameChanged("admin".to_owned()));
    let (fx, _) = s.update(Message::ConnectClicked);
    match fx.as_slice() {
        [Effect::Probe(c)] => {
            assert_eq!(c.host, "nas.local");
            assert_eq!(c.port, 9091);
            assert_eq!(c.username.as_deref(), Some("admin"));
            assert!(c.password.is_none());
        }
        other => panic!("unexpected effects {other:?}"),
    }
    let (_, next) = s.update(Message::ProbeResult(Ok("sid-1".to_owned())));
    let ok = next.expect("probe succeeded");
    assert!(ok.profile_id.is_none());
    assert_eq!(ok.creds.host, "nas.local");
    assert_eq!(ok.session_id, "sid-1");
    assert!(!s.is_connecting);
}

#[test]
fn saved_profile_connect_carries_profile_id() {
    let mut s = blank();
    let creds = TransmissionCredentials {
        host: "h".to_owned(),
        port: 1,
        username: None,
        password: Some("pw".to_owned()),
    };
    let (fx, _) = s.update(Message::ConnectWithCreds { profile_id: 42, creds });
    assert_eq!(fx.len(), 1);
    assert_eq!(s.connecting_profile_id, Some(42));
    let (_, next) = s.update(Message::ProbeResult(Ok("sid".to_owned())));
    let ok = next.unwrap();
    assert_eq!(ok.profile_id, Some(42));
    assert_eq!(ok.creds.password.as_deref(), Some("pw"));
    assert!(s.connecting_profile_id.is_none());
}

#[test]
fn probe_success_without_probe_in_flight_uses_form() {
    let mut s = blank();
    let _ = s.update(Message::PortChanged("bad".to_owned()));
    let (_, next) = s.update(Message::ProbeResult(Ok("x".to_owned())));
    let ok = next.unwrap();
    assert_eq!(ok.creds.host, "localhost");
    assert_eq!(ok.creds.port, 9091);
}

#[test]
fn profile_selection_and_intercepted_messages() {
    let mut s = blank();
    s.error = Some("e".to_owned());
    let _ = s.update(Message::ProfileSelected(5));
    assert_eq!(s.selected_profile_id, Some(5));
    assert!(s.error.is_none());
    let (fx, next) = s.update(Message::ConnectProfile(5));
    assert!(fx.is_empty() && next.is_none());
    let (fx, next) = s.update(Message::ManageProfilesClicked);
    assert!(fx.is_empty() && next.is_none());
}

#[test]
fn connecting_exactly_while_credentials_kept() {
    let mut s = blank();
    assert!(!s.is_connecting && s.connecting_creds.is_none());
    let _ = s.update(Message::ConnectClicked);
    assert!(s.is_connecting && s.connecting_creds.is_some());
    let _ = s.update(Message::ProbeResult(Ok("sid".to_owned())));
    assert!(!s.is_connecting && s.connecting_creds.is_none());
}

#[test]
fn connect_buttons_and_card_labels() {
    let mut p = ConnectionProfile::blank(8);
    p.name = "Seedbox".to_owned();
    p.host = "10.0.0.2".to_owned();
    let mut s = ConnectionScreen::new_launchpad(&vec![p.clone()]);
    assert!(matches!(s.saved_connect_message(), Some(Message::ConnectProfile(8))));
    assert!(matches!(s.quick_connect_message(), Some(Message::ConnectClicked)));
    assert_eq!(s.profile_card_title(&p), "Seedbox");
    assert_eq!(clutch::connection::profile_card_subtitle(&p), "10.0.0.2:9091");
    let creds = TransmissionCredentials { host: "h".to_owned(), port: 1, username: None, password: None };
    let _ = s.update(Message::ConnectWithCreds { profile_id: 8, creds });
    assert!(s.saved_connect_message().is_none());
    assert!(s.quick_connect_message().is_none());
    assert!(!s.is_connecting_quick());
    assert_eq!(s.profile_card_title(&p), "Connecting\u{2026}");
    let _ = s.update(Message::ProbeResult(Err("x".to_owned())));
    let _ = s.update(Message::ConnectClicked);
    assert!(s.is_connecting_quick());
}
