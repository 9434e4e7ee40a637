//! The connection screen: a tab of saved profiles and a quick-connect form
//! whose credentials live in memory only.

use vstd::prelude::*;

use crate::profile::{copy_profiles, ConnectionProfile};
use crate::rpc::{copy_credentials, credentials_from_form, form_credentials, TransmissionCredentials};
use crate::text::{decimal, push_text, u64_to_text};

verus! {

/// Which tab is shown on the connection screen.
#[derive(Debug, Clone, Copy, PartialEq, Eq, Structural)]
pub enum ConnectionTab {
    SavedProfiles,
    QuickConnect,
}

/// What a successful probe hands to the application to open the main
/// screen.
#[derive(Debug, Clone)]
pub struct ConnectSuccess {
    /// The saved profile that was used, or `None` for a quick connect.
    pub profile_id: Option<u128>,
    pub creds: TransmissionCredentials,
    pub session_id: String,
}

/// Messages handled by the connection screen.
#[derive(Debug)]
pub enum Message {
    TabSelected(ConnectionTab),
    /// A saved profile card was clicked.
    ProfileSelected(u128),
    /// Connect was clicked for a saved profile; the application resolves its
    /// credentials and answers with [`Message::ConnectWithCreds`].
    ConnectProfile(u128),
    HostChanged(String),
    PortChanged(String),
    UsernameChanged(String),
    PasswordChanged(String),
    /// Connect on the quick-connect form.
    ConnectClicked,
    /// The outcome of a probe: the daemon's session ID, or an error message.
    ProbeResult(Result<String, String>),
    /// "Manage / Add Profile"; the application opens the settings.
    ManageProfilesClicked,
    /// Probe with these credentials for a saved profile.
    ConnectWithCreds { profile_id: u128, creds: TransmissionCredentials },
}

/// Follow-up work that a message asks the application to perform.
#[derive(Debug)]
pub enum Effect {
    /// Probe the daemon with `session-get` and answer with
    /// [`Message::ProbeResult`].
    Probe(TransmissionCredentials),
}

/// State of the connection screen.
#[derive(Debug)]
pub struct ConnectionScreen {
    pub tab: ConnectionTab,
    /// The saved profiles shown in the Saved Profiles tab.
    pub profiles: Vec<ConnectionProfile>,
    pub qc_host: String,
    pub qc_port: String,
    pub qc_username: String,
    pub qc_password: String,
    /// `true` while a probe is in flight.
    pub is_connecting: bool,
    /// The saved profile being probed (`None` for a quick connect).
    pub connecting_profile_id: Option<u128>,
    /// The credentials of the probe in flight.
    pub connecting_creds: Option<TransmissionCredentials>,
    /// The saved profile highlighted in the list.
    pub selected_profile_id: Option<u128>,
    /// The error of the last failed probe.
    pub error: Option<String>,
}

/// The quick-connect form's credentials; `None` when its port does not
/// parse as a `u16`.
pub open spec fn quick_credentials(s: ConnectionScreen) -> Option<TransmissionCredentials> {
    form_credentials(s.qc_host, s.qc_port@, s.qc_username, s.qc_password)
}

/// `s` is the launchpad for `profiles`.
pub open spec fn is_launchpad(s: ConnectionScreen, profiles: Seq<ConnectionProfile>) -> bool {
    &&& s.tab == (if profiles.len() == 0 {
        ConnectionTab::QuickConnect
    } else {
        ConnectionTab::SavedProfiles
    })
    &&& s.selected_profile_id == (if profiles.len() == 0 {
        None
    } else {
        Some(profiles[0].id)
    })
    &&& s.profiles@ == profiles
    &&& s.qc_host@ == "localhost"@
    &&& s.qc_port@ == "9091"@
    &&& s.qc_username@.len() == 0
    &&& s.qc_password@.len() == 0
    &&& !s.is_connecting
    &&& s.connecting_profile_id is None
    &&& s.connecting_creds is None
    &&& s.error is None
}

/// The credentials that a successful probe reports: those of the probe in
/// flight, else those of the form, else the form's host on port 9091.
pub open spec fn probed_credentials(o: ConnectionScreen, c: TransmissionCredentials) -> bool {
    match o.connecting_creds {
        Some(x) => c == x,
        None => match quick_credentials(o) {
            Some(q) => c == q,
            None => c == TransmissionCredentials {
                host: o.qc_host,
                port: 9091,
                username: None,
                password: None,
            },
        },
    }
}

/// What [`ConnectionScreen::update`] does with `msg`: `n` is the state after
/// it, `fx` the work it asks for and `done` the connection it reports.
pub open spec fn connection_step(
    o: ConnectionScreen,
    msg: Message,
    n: ConnectionScreen,
    fx: Seq<Effect>,
    done: Option<ConnectSuccess>,
) -> bool {
    match msg {
        Message::TabSelected(t) => n == ConnectionScreen { tab: t, error: None, ..o } && fx.len()
            == 0 && done is None,
        Message::ProfileSelected(id) => n == ConnectionScreen {
            selected_profile_id: Some(id),
            error: None,
            ..o
        } && fx.len() == 0 && done is None,
        Message::ConnectWithCreds { profile_id, creds } => {
            &&& n == ConnectionScreen {
                is_connecting: true,
                connecting_profile_id: Some(profile_id),
                connecting_creds: Some(creds),
                error: None,
                ..o
            }
            &&& fx == seq![Effect::Probe(creds)]
            &&& done is None
        },
        Message::HostChanged(v) => n == ConnectionScreen { qc_host: v, ..o } && fx.len() == 0
            && done is None,
        Message::PortChanged(v) => n == ConnectionScreen { qc_port: v, ..o } && fx.len() == 0
            && done is None,
        Message::UsernameChanged(v) => n == ConnectionScreen { qc_username: v, ..o } && fx.len()
            == 0 && done is None,
        Message::PasswordChanged(v) => n == ConnectionScreen { qc_password: v, ..o } && fx.len()
            == 0 && done is None,
        Message::ConnectClicked => match quick_credentials(o) {
            Some(c) => {
                &&& n == ConnectionScreen {
                    is_connecting: true,
                    connecting_profile_id: None,
                    connecting_creds: Some(c),
                    error: None,
                    ..o
                }
                &&& fx == seq![Effect::Probe(c)]
                &&& done is None
            },
            None => {
                &&& n == ConnectionScreen { error: n.error, ..o }
                &&& n.error matches Some(e) && e@ == "Invalid port number."@
                &&& fx.len() == 0
                &&& done is None
            },
        },
        Message::ProbeResult(r) => match r {
            Ok(session_id) => {
                &&& n == ConnectionScreen {
                    is_connecting: false,
                    connecting_profile_id: None,
                    connecting_creds: None,
                    ..o
                }
                &&& fx.len() == 0
                &&& done matches Some(s)
                &&& s.profile_id == o.connecting_profile_id
                &&& probed_credentials(o, s.creds)
                &&& s.session_id == session_id
            },
            Err(e) => {
                &&& n == ConnectionScreen {
                    is_connecting: false,
                    connecting_profile_id: None,
                    connecting_creds: None,
                    error: Some(e),
                    ..o
                }
                &&& fx.len() == 0
                &&& done is None
            },
        },
        Message::ConnectProfile(_) | Message::ManageProfilesClicked => n == o && fx.len() == 0
            && done is None,
    }
}

impl ConnectionScreen {
    /// The launchpad for the saved profiles: the Saved Profiles tab with the
    /// first profile selected, or the Quick Connect tab when there are none.
    pub fn new_launchpad(profiles: &Vec<ConnectionProfile>) -> (s: ConnectionScreen)
        ensures
            is_launchpad(s, profiles@),
    {
        proof {
            reveal_strlit("localhost");
            reveal_strlit("9091");
        }
        let empty = profiles.len() == 0;
        ConnectionScreen {
            tab: if empty {
                ConnectionTab::QuickConnect
            } else {
                ConnectionTab::SavedProfiles
            },
            selected_profile_id: if empty {
                None
            } else {
                Some(profiles[0].id)
            },
            profiles: copy_profiles(profiles),
            qc_host: String::from_str("localhost"),
            qc_port: String::from_str("9091"),
            qc_username: String::new(),
            qc_password: String::new(),
            is_connecting: false,
            connecting_profile_id: None,
            connecting_creds: None,
            error: None,
        }
    }

    /// The quick-connect form's credentials.
    fn qc_credentials(&self) -> (r: Option<TransmissionCredentials>)
        ensures
            r == quick_credentials(*self),
    {
        credentials_from_form(&self.qc_host, &self.qc_port, &self.qc_username, &self.qc_password)
    }

    /// Handle a message: returns the follow-up work and, once a probe
    /// succeeded, the connection to open.
    pub fn update(&mut self, message: Message) -> (out: (Vec<Effect>, Option<ConnectSuccess>))
        ensures
            connection_step(*old(self), message, *final(self), out.0@, out.1),
    {
        match message {
            Message::TabSelected(tab) => {
                self.tab = tab;
                self.error = None;
                (Vec::new(), None)
            },
            Message::ProfileSelected(id) => {
                self.selected_profile_id = Some(id);
                self.error = None;
                (Vec::new(), None)
            },
            Message::ConnectProfile(_) => (Vec::new(), None),
            Message::ConnectWithCreds { profile_id, creds } => {
                self.is_connecting = true;
                self.connecting_profile_id = Some(profile_id);
                self.connecting_creds = Some(copy_credentials(&creds));
                self.error = None;
                let mut fx: Vec<Effect> = Vec::new();
                fx.push(Effect::Probe(creds));
                (fx, None)
            },
            Message::HostChanged(v) => {
                self.qc_host = v;
                (Vec::new(), None)
            },
            Message::PortChanged(v) => {
                self.qc_port = v;
                (Vec::new(), None)
            },
            Message::UsernameChanged(v) => {
                self.qc_username = v;
                (Vec::new(), None)
            },
            Message::PasswordChanged(v) => {
                self.qc_password = v;
                (Vec::new(), None)
            },
            Message::ConnectClicked => {
                match self.qc_credentials() {
                    None => {
                        proof {
                            reveal_strlit("Invalid port number.");
                        }
                        self.error = Some(String::from_str("Invalid port number."));
                        (Vec::new(), None)
                    },
                    Some(creds) => {
                        self.is_connecting = true;
                        self.connecting_profile_id = None;
                        self.connecting_creds = Some(copy_credentials(&creds));
                        self.error = None;
                        let mut fx: Vec<Effect> = Vec::new();
                        fx.push(Effect::Probe(creds));
                        (fx, None)
                    },
                }
            },
            Message::ProbeResult(Ok(session_id)) => {
                let creds = match self.connecting_creds.take() {
                    Some(c) => c,
                    None => match self.qc_credentials() {
                        Some(q) => q,
                        None => TransmissionCredentials {
                            host: self.qc_host.clone(),
                            port: 9091,
                            username: None,
                            password: None,
                        },
                    },
                };
                let success = ConnectSuccess {
                    profile_id: self.connecting_profile_id,
                    creds,
                    session_id,
                };
                self.is_connecting = false;
                self.connecting_profile_id = None;
                (Vec::new(), Some(success))
            },
            Message::ProbeResult(Err(err)) => {
                self.is_connecting = false;
                self.connecting_profile_id = None;
                self.connecting_creds = None;
                self.error = Some(err);
                (Vec::new(), None)
            },
            Message::ManageProfilesClicked => (Vec::new(), None),
        }
    }
}

impl Default for ConnectionScreen {
    /// The launchpad with no saved profiles.
    fn default() -> (s: ConnectionScreen)
        ensures
            is_launchpad(s, Seq::empty()),
    {
        let none: Vec<ConnectionProfile> = Vec::new();
        ConnectionScreen::new_launchpad(&none)
    }
}

// ── View decisions ───────────────────────────────────────────────────────────

impl ConnectionScreen {
    /// What the Connect button of the Saved Profiles tab sends: nothing
    /// while a probe is in flight or no profile is selected.
    pub fn saved_connect_message(&self) -> (m: Option<Message>)
        ensures
            m == (if self.is_connecting {
                None
            } else {
                match self.selected_profile_id {
                    Some(id) => Some(Message::ConnectProfile(id)),
                    None => None,
                }
            }),
    {
        if self.is_connecting {
            return None;
        }
        match self.selected_profile_id {
            Some(id) => Some(Message::ConnectProfile(id)),
            None => None,
        }
    }

    /// What the Connect button of the quick-connect form sends: nothing
    /// while a probe is in flight.
    pub fn quick_connect_message(&self) -> (m: Option<Message>)
        ensures
            m == (if self.is_connecting {
                None
            } else {
                Some(Message::ConnectClicked)
            }),
    {
        if self.is_connecting {
            None
        } else {
            Some(Message::ConnectClicked)
        }
    }

    /// Whether the quick-connect form's own probe is in flight (its button
    /// reads "Connecting…").
    pub fn is_connecting_quick(&self) -> (b: bool)
        ensures
            b == (self.is_connecting && self.connecting_profile_id is None),
    {
        self.is_connecting && self.connecting_profile_id.is_none()
    }

    /// The title of a profile's card: "Connecting…" while that profile is
    /// being probed, its name otherwise.
    pub fn profile_card_title(&self, p: &ConnectionProfile) -> (s: String)
        ensures
            s@ == (if self.connecting_profile_id == Some(p.id) {
                "Connecting\u{2026}"@
            } else {
                p.name@
            }),
    {
        let connecting = match self.connecting_profile_id {
            Some(id) => id == p.id,
            None => false,
        };
        if connecting {
            proof {
                reveal_strlit("Connecting\u{2026}");
            }
            String::from_str("Connecting\u{2026}")
        } else {
            p.name.clone()
        }
    }
}

/// The subtitle of a profile's card: `host:port`.
pub fn profile_card_subtitle(p: &ConnectionProfile) -> (s: String)
    ensures
        s@ == p.host@ + ":"@ + decimal(p.port as nat),
{
    let mut s = p.host.clone();
    push_text(&mut s, ":");
    let port = u64_to_text(p.port as u64);
    push_text(&mut s, port.as_str());
    s
}

} // verus!
