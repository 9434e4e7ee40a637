//! The settings screen: general settings, the list of saved connection
//! profiles with an editable draft of the selected one, and the guard that
//! asks before unsaved draft changes are dropped.

use vstd::prelude::*;

use crate::profile::{
    copy_profile, copy_profiles, copy_store, copy_text_opt, find_profile, first_profile,
    first_profile_index, is_blank_profile, lemma_first_profile_index, ConnectionProfile,
    GeneralSettings,
    ProfileStore, ThemeConfig,
};
use crate::rpc::{
    credentials_from_form, form_credentials, optional_text, optional_text_of,
    TransmissionCredentials,
};
use crate::text::{decimal, parse_u16, parse_u8, parse_unsigned, push_text, u64_to_text};

verus! {

// ── Types ────────────────────────────────────────────────────────────────────

/// The currently active Settings tab.
#[derive(Debug, Clone, Copy, PartialEq, Eq, Default, Structural)]
pub enum SettingsTab {
    #[default]
    General,
    Connections,
    About,
}

/// Result of the last Test Connection probe.
#[derive(Debug, Clone, PartialEq, Eq)]
pub enum TestResult {
    Success,
    Failure(String),
}

/// An in-memory editable copy of a [`ConnectionProfile`]. Edits change only
/// the draft; the profile itself changes on Save.
#[derive(Debug, Clone, PartialEq, Eq)]
pub struct ProfileDraft {
    pub id: u128,
    pub name: String,
    pub host: String,
    pub port: String,
    pub username: String,
    pub password: String,
    pub password_changed: bool,
    /// `true` when the profile already has an encrypted password stored.
    pub has_saved_password: bool,
    pub test_result: Option<TestResult>,
    pub testing: bool,
    /// Standard global download limit (KB/s); empty means not set.
    pub speed_limit_down: String,
    pub speed_limit_down_enabled: bool,
    /// Standard global upload limit (KB/s); empty means not set.
    pub speed_limit_up: String,
    pub speed_limit_up_enabled: bool,
    /// Alternative download ceiling (KB/s); empty means not set.
    pub alt_speed_down: String,
    /// Alternative upload ceiling (KB/s); empty means not set.
    pub alt_speed_up: String,
    /// Seed-ratio limit; empty means not set.
    pub ratio_limit: String,
    pub ratio_limit_enabled: bool,
}

/// A navigation that waits for the user to save or discard the draft.
#[derive(Debug, Clone, Copy, PartialEq, Eq, Structural)]
pub enum PendingNavigation {
    SwitchTab(SettingsTab),
    SwitchProfile(u128),
    Close,
}

/// Messages handled by the settings screen.
#[derive(Debug)]
pub enum Message {
    // Navigation
    TabClicked(SettingsTab),
    CloseClicked,
    // General tab
    ThemeConfigChanged(ThemeConfig),
    RefreshIntervalChanged(String),
    GeneralSaveClicked,
    GeneralRevertClicked,
    // Connections tab – list
    ProfileListClicked(u128),
    AddProfileClicked,
    DeleteProfileClicked,
    DeleteConfirmed,
    DeleteCancelled,
    // Connections tab – draft form
    DraftNameChanged(String),
    DraftHostChanged(String),
    DraftPortChanged(String),
    DraftUsernameChanged(String),
    DraftPasswordChanged(String),
    TestConnectionClicked,
    /// The outcome of a connection probe: `Err` carries its message.
    TestConnectionResult(Result<(), String>),
    SaveClicked,
    RevertClicked,
    // Unsaved-change guard
    GuardSave,
    GuardDiscard,
    GuardCancel,
    // Keyboard
    TabKeyPressed { shift: bool },
    EnterPressed,
}

/// Outcomes that the application must act on.
#[derive(Debug)]
pub enum SettingsResult {
    /// General settings changed; the application updates its theme.
    GeneralSettingsSaved { theme_config: ThemeConfig, store: ProfileStore },
    /// The profile of the active connection was saved; the application
    /// reconnects.
    ActiveProfileSaved { profile_id: u128, store: ProfileStore },
    /// The store changed (not the active profile).
    StoreUpdated(ProfileStore),
    /// The screen was closed.
    Closed(ProfileStore),
    /// A profile was saved with a new non-empty password, which the
    /// application encrypts with the master passphrase and stores. The store
    /// already holds the profile's other fields.
    SaveWithPassword { profile_id: u128, password: String, store: ProfileStore },
    /// Test the connection of a profile whose saved password the draft has
    /// not changed: the application decrypts it, probes the daemon and
    /// answers with [`Message::TestConnectionResult`].
    TestConnectionWithId { profile_id: u128 },
}

/// Follow-up work that a message asks the application to perform.
#[derive(Debug)]
pub enum Effect {
    /// Write `store` to disk, then send `then`.
    SaveStore { store: ProfileStore, then: Message },
    /// Probe the daemon with these credentials and answer with
    /// [`Message::TestConnectionResult`].
    Probe(TransmissionCredentials),
    /// Move keyboard focus to the next input.
    FocusNext,
    /// Move keyboard focus to the previous input.
    FocusPrevious,
}

/// State of the settings screen.
#[derive(Debug)]
pub struct SettingsScreen {
    pub active_tab: SettingsTab,
    /// The draft has changes that are not saved.
    pub dirty: bool,
    /// A navigation waiting for Save / Discard / Cancel.
    pub confirm_discard: Option<PendingNavigation>,
    /// The profile whose deletion waits for confirmation.
    pub confirm_delete_id: Option<u128>,
    pub theme_draft: ThemeConfig,
    pub refresh_interval_draft: String,
    pub general_validation_error: Option<String>,
    pub profiles: Vec<ConnectionProfile>,
    pub selected_profile_id: Option<u128>,
    pub draft: Option<ProfileDraft>,
    /// The profile of the current connection, if any.
    pub active_profile_id: Option<u128>,
    pub general_saved: bool,
    pub general_dirty: bool,
    pub theme_saved: ThemeConfig,
    pub refresh_interval_saved: String,
}

// ── Drafts ───────────────────────────────────────────────────────────────────

/// A limit as the form shows it: empty for 0, decimal digits otherwise.
pub open spec fn limit_text(n: u64) -> Seq<char> {
    if n == 0 {
        Seq::empty()
    } else {
        decimal(n as nat)
    }
}

/// The `f64` bits of `0.0` or `-0.0`.
pub open spec fn is_zero_ratio(bits: u64) -> bool {
    bits == 0 || bits == 0x8000_0000_0000_0000u64
}

/// `d` shows profile `p`, with `saved` as its saved-password flag.
pub open spec fn draft_fields_of(d: ProfileDraft, p: ConnectionProfile, saved: bool) -> bool {
    &&& d.id == p.id
    &&& d.name == p.name
    &&& d.host == p.host
    &&& d.port@ == decimal(p.port as nat)
    &&& d.username@ == match p.username {
        Some(u) => u@,
        None => Seq::empty(),
    }
    &&& d.password@.len() == 0
    &&& !d.password_changed
    &&& d.has_saved_password == saved
    &&& d.test_result is None
    &&& !d.testing
    &&& d.speed_limit_down@ == limit_text(p.speed_limit_down)
    &&& d.speed_limit_down_enabled == p.speed_limit_down_enabled
    &&& d.speed_limit_up@ == limit_text(p.speed_limit_up)
    &&& d.speed_limit_up_enabled == p.speed_limit_up_enabled
    &&& d.alt_speed_down@ == limit_text(p.alt_speed_down)
    &&& d.alt_speed_up@ == limit_text(p.alt_speed_up)
    &&& d.ratio_limit@ == (if is_zero_ratio(p.ratio_limit_bits) {
        Seq::empty()
    } else {
        p.ratio_limit_text@
    })
    &&& d.ratio_limit_enabled == p.ratio_limit_enabled
}

/// `d` is the draft of profile `p` that [`ProfileDraft::from_profile`] makes.
pub open spec fn draft_of(d: ProfileDraft, p: ConnectionProfile) -> bool {
    draft_fields_of(d, p, p.encrypted_password is Some)
}

/// `d` is the draft of a new profile `p` that [`ProfileDraft::from_blank`]
/// makes: its ID, name, host and port, and nothing else filled in.
pub open spec fn blank_draft_of(d: ProfileDraft, p: ConnectionProfile) -> bool {
    &&& d.id == p.id
    &&& d.name == p.name
    &&& d.host == p.host
    &&& d.port@ == decimal(p.port as nat)
    &&& d.username@.len() == 0
    &&& d.password@.len() == 0
    &&& !d.password_changed
    &&& !d.has_saved_password
    &&& d.test_result is None
    &&& !d.testing
    &&& d.speed_limit_down@.len() == 0 && !d.speed_limit_down_enabled
    &&& d.speed_limit_up@.len() == 0 && !d.speed_limit_up_enabled
    &&& d.alt_speed_down@.len() == 0
    &&& d.alt_speed_up@.len() == 0
    &&& d.ratio_limit@.len() == 0 && !d.ratio_limit_enabled
}

/// A limit as the form shows it.
fn limit_text_of(n: u64) -> (s: String)
    ensures
        s@ == limit_text(n),
{
    if n == 0 {
        String::new()
    } else {
        u64_to_text(n)
    }
}

impl ProfileDraft {
    /// The draft of a saved profile: its fields as text, an empty password,
    /// and no test run yet.
    pub fn from_profile(profile: &ConnectionProfile) -> (d: ProfileDraft)
        ensures
            draft_of(d, *profile),
    {
        ProfileDraft {
            id: profile.id,
            name: profile.name.clone(),
            host: profile.host.clone(),
            port: u64_to_text(profile.port as u64),
            username: match &profile.username {
                Some(u) => u.clone(),
                None => String::new(),
            },
            password: String::new(),
            password_changed: false,
            has_saved_password: profile.encrypted_password.is_some(),
            test_result: None,
            testing: false,
            speed_limit_down: limit_text_of(profile.speed_limit_down),
            speed_limit_down_enabled: profile.speed_limit_down_enabled,
            speed_limit_up: limit_text_of(profile.speed_limit_up),
            speed_limit_up_enabled: profile.speed_limit_up_enabled,
            alt_speed_down: limit_text_of(profile.alt_speed_down),
            alt_speed_up: limit_text_of(profile.alt_speed_up),
            ratio_limit: if profile.ratio_limit_bits == 0 || profile.ratio_limit_bits
                == 0x8000_0000_0000_0000u64 {
                String::new()
            } else {
                profile.ratio_limit_text.clone()
            },
            ratio_limit_enabled: profile.ratio_limit_enabled,
        }
    }

    /// The draft of a profile that was just added.
    pub fn from_blank(profile: &ConnectionProfile) -> (d: ProfileDraft)
        ensures
            blank_draft_of(d, *profile),
    {
        ProfileDraft {
            id: profile.id,
            name: profile.name.clone(),
            host: profile.host.clone(),
            port: u64_to_text(profile.port as u64),
            username: String::new(),
            password: String::new(),
            password_changed: false,
            has_saved_password: false,
            test_result: None,
            testing: false,
            speed_limit_down: String::new(),
            speed_limit_down_enabled: false,
            speed_limit_up: String::new(),
            speed_limit_up_enabled: false,
            alt_speed_down: String::new(),
            alt_speed_up: String::new(),
            ratio_limit: String::new(),
            ratio_limit_enabled: false,
        }
    }

    /// The credentials the draft describes; `None` when its port does not
    /// parse.
    pub fn to_credentials(&self) -> (r: Option<TransmissionCredentials>)
        ensures
            r == form_credentials(self.host, self.port@, self.username, self.password),
    {
        credentials_from_form(&self.host, &self.port, &self.username, &self.password)
    }
}

/// A copy of a test result.
fn copy_test_result(r: &Option<TestResult>) -> (c: Option<TestResult>)
    ensures
        c == *r,
{
    match r {
        Some(TestResult::Success) => Some(TestResult::Success),
        Some(TestResult::Failure(e)) => Some(TestResult::Failure(e.clone())),
        None => None,
    }
}

/// A copy of a draft.
pub fn copy_draft(d: &ProfileDraft) -> (c: ProfileDraft)
    ensures
        c == *d,
{
    ProfileDraft {
        id: d.id,
        name: d.name.clone(),
        host: d.host.clone(),
        port: d.port.clone(),
        username: d.username.clone(),
        password: d.password.clone(),
        password_changed: d.password_changed,
        has_saved_password: d.has_saved_password,
        test_result: copy_test_result(&d.test_result),
        testing: d.testing,
        speed_limit_down: d.speed_limit_down.clone(),
        speed_limit_down_enabled: d.speed_limit_down_enabled,
        speed_limit_up: d.speed_limit_up.clone(),
        speed_limit_up_enabled: d.speed_limit_up_enabled,
        alt_speed_down: d.alt_speed_down.clone(),
        alt_speed_up: d.alt_speed_up.clone(),
        ratio_limit: d.ratio_limit.clone(),
        ratio_limit_enabled: d.ratio_limit_enabled,
    }
}

// ── General settings ─────────────────────────────────────────────────────────

/// The refresh interval stored for the text `s`: its `u8` value (5 when it
/// does not parse), clamped to 1..=30.
pub open spec fn clamped_interval(s: Seq<char>) -> u8 {
    let v: int = match parse_unsigned(s, u8::MAX as nat) {
        Some(n) => n as int,
        None => 5,
    };
    (if v < 1 {
        1
    } else if v > 30 {
        30
    } else {
        v
    }) as u8
}

/// The validation message for refresh-interval text `s`, if it is invalid.
pub open spec fn interval_error(s: Seq<char>) -> Option<Seq<char>> {
    match parse_unsigned(s, u8::MAX as nat) {
        Some(v) => if 1 <= v <= 30 {
            None
        } else {
            Some("Refresh interval must be between 1 and 30 seconds."@)
        },
        None => Some("Enter a whole number between 1 and 30."@),
    }
}

/// `e` is the validation message for `s`.
pub open spec fn validated(e: Option<String>, s: Seq<char>) -> bool {
    match interval_error(s) {
        Some(m) => e matches Some(x) && x@ == m,
        None => e is None,
    }
}

/// `st` is what [`SettingsScreen::build_store_snapshot`] makes of `s`.
pub open spec fn is_snapshot(st: ProfileStore, s: SettingsScreen) -> bool {
    &&& st.last_connected is None
    &&& st.general == (GeneralSettings {
        theme: s.theme_draft,
        refresh_interval: clamped_interval(s.refresh_interval_draft@),
    })
    &&& st.profiles@ == s.profiles@
}

/// The draft is complete enough to save: it exists, has a name and a port
/// that parses as a `u16`.
pub open spec fn saveable(s: SettingsScreen) -> bool {
    match s.draft {
        Some(d) => d.name@.len() > 0 && parse_unsigned(d.port@, u16::MAX as nat) is Some,
        None => false,
    }
}

/// `n` is `s` after the pending navigation `nav` was carried out.
pub open spec fn navigated(s: SettingsScreen, nav: PendingNavigation, n: SettingsScreen) -> bool {
    match nav {
        PendingNavigation::SwitchTab(t) => n == SettingsScreen { active_tab: t, ..s },
        PendingNavigation::SwitchProfile(id) => {
            &&& n == SettingsScreen { selected_profile_id: Some(id), draft: n.draft, ..s }
            &&& match first_profile(s.profiles@, id) {
                Some(p) => n.draft matches Some(d) && draft_of(d, p),
                None => n.draft == s.draft,
            }
        },
        PendingNavigation::Close => n == s,
    }
}

/// `new_draft` is the draft after reloading the selected profile of
/// `profiles`; with no selected profile it stays `old_draft`.
pub open spec fn reloaded(
    profiles: Seq<ConnectionProfile>,
    selected: Option<u128>,
    old_draft: Option<ProfileDraft>,
    new_draft: Option<ProfileDraft>,
) -> bool {
    match selected {
        Some(id) => match first_profile(profiles, id) {
            Some(p) => new_draft matches Some(d) && draft_of(d, p),
            None => new_draft == old_draft,
        },
        None => new_draft == old_draft,
    }
}

impl SettingsScreen {
    /// The screen for `store`, on `initial_tab`, with nothing selected and
    /// the stored general settings as drafts.
    pub fn new(store: &ProfileStore, active_profile_id: Option<u128>, initial_tab: SettingsTab) -> (s:
        SettingsScreen)
        ensures
            s.active_tab == initial_tab,
            !s.dirty,
            s.confirm_discard is None,
            s.confirm_delete_id is None,
            s.theme_draft == store.general.theme,
            s.refresh_interval_draft@ == decimal(store.general.refresh_interval as nat),
            s.general_validation_error is None,
            s.profiles@ == store.profiles@,
            s.selected_profile_id is None,
            s.draft is None,
            s.active_profile_id == active_profile_id,
            !s.general_saved,
            !s.general_dirty,
            s.theme_saved == store.general.theme,
            s.refresh_interval_saved@ == decimal(store.general.refresh_interval as nat),
    {
        SettingsScreen {
            active_tab: initial_tab,
            dirty: false,
            confirm_discard: None,
            confirm_delete_id: None,
            theme_draft: store.general.theme,
            refresh_interval_draft: u64_to_text(store.general.refresh_interval as u64),
            general_validation_error: None,
            profiles: copy_profiles(&store.profiles),
            selected_profile_id: None,
            draft: None,
            active_profile_id,
            general_saved: false,
            general_dirty: false,
            theme_saved: store.general.theme,
            refresh_interval_saved: u64_to_text(store.general.refresh_interval as u64),
        }
    }

    /// The store as it would be saved now: the drafted general settings
    /// (the interval clamped to 1..=30, 5 when it does not parse) and the
    /// profiles.
    pub fn build_store_snapshot(&self) -> (st: ProfileStore)
        ensures
            is_snapshot(st, *self),
    {
        let v: u8 = match parse_u8(self.refresh_interval_draft.as_str()) {
            Some(v) => v,
            None => 5,
        };
        let refresh_interval: u8 = if v < 1 {
            1
        } else if v > 30 {
            30
        } else {
            v
        };
        ProfileStore {
            last_connected: None,
            general: GeneralSettings { theme: self.theme_draft, refresh_interval },
            profiles: copy_profiles(&self.profiles),
        }
    }

    /// Set or clear the validation message of the refresh-interval draft.
    pub fn validate_refresh_interval(&mut self)
        ensures
            *final(self) == (SettingsScreen {
                general_validation_error: final(self).general_validation_error,
                ..*old(self)
            }),
            validated(final(self).general_validation_error, old(self).refresh_interval_draft@),
    {
        proof {
            reveal_strlit("Refresh interval must be between 1 and 30 seconds.");
            reveal_strlit("Enter a whole number between 1 and 30.");
        }
        match parse_u8(self.refresh_interval_draft.as_str()) {
            Some(v) => {
                if 1 <= v && v <= 30 {
                    self.general_validation_error = None;
                } else {
                    self.general_validation_error = Some(
                        String::from_str("Refresh interval must be between 1 and 30 seconds."),
                    );
                }
            },
            None => {
                self.general_validation_error = Some(
                    String::from_str("Enter a whole number between 1 and 30."),
                );
            },
        }
    }

    /// Whether the draft can be saved: it has a name and a valid port.
    pub fn draft_is_saveable(&self) -> (b: bool)
        ensures
            b == saveable(*self),
    {
        match &self.draft {
            Some(d) => !d.name.as_str().is_empty() && parse_u16(d.port.as_str()).is_some(),
            None => false,
        }
    }

    /// Carry out a navigation that waited for the guard. Closing is left to
    /// the caller.
    pub fn execute_pending_nav(&mut self, nav: PendingNavigation)
        ensures
            navigated(*old(self), nav, *final(self)),
    {
        match nav {
            PendingNavigation::SwitchTab(tab) => {
                self.active_tab = tab;
            },
            PendingNavigation::SwitchProfile(id) => {
                self.selected_profile_id = Some(id);
                match find_profile(&self.profiles, id) {
                    Some(k) => {
                        self.draft = Some(ProfileDraft::from_profile(&self.profiles[k]));
                    },
                    None => {},
                }
            },
            PendingNavigation::Close => {},
        }
    }

    /// Reload the draft from the selected profile, if it exists.
    fn reload_draft(&mut self)
        ensures
            *final(self) == (SettingsScreen { draft: final(self).draft, ..*old(self) }),
            reloaded(old(self).profiles@, old(self).selected_profile_id, old(self).draft, final(self).draft),
    {
        match self.selected_profile_id {
            Some(id) => {
                match find_profile(&self.profiles, id) {
                    Some(k) => {
                        self.draft = Some(ProfileDraft::from_profile(&self.profiles[k]));
                    },
                    None => {},
                }
            },
            None => {},
        }
    }
}

// ── Update specification ─────────────────────────────────────────────────────

/// The navigation that the unsaved-change guard holds back instead of
/// carrying out `msg`: a switch to another tab or another profile, or
/// closing, while the draft is dirty and no other navigation waits.
pub open spec fn guarded_navigation(o: SettingsScreen, msg: Message) -> Option<PendingNavigation> {
    if o.dirty && o.confirm_discard is None {
        match msg {
            Message::TabClicked(t) => if t != o.active_tab {
                Some(PendingNavigation::SwitchTab(t))
            } else {
                None
            },
            Message::ProfileListClicked(id) => if Some(id) != o.selected_profile_id {
                Some(PendingNavigation::SwitchProfile(id))
            } else {
                None
            },
            Message::CloseClicked => Some(PendingNavigation::Close),
            _ => None,
        }
    } else {
        None
    }
}

/// No work and no result.
pub open spec fn no_output(fx: Seq<Effect>, res: Option<SettingsResult>) -> bool {
    fx.len() == 0 && res is None
}

/// `fx` writes a snapshot of `n` to disk, then sends the revert message of
/// the general tab (`general`) or of the profile form.
pub open spec fn saves_snapshot(fx: Seq<Effect>, n: SettingsScreen, general: bool) -> bool {
    &&& fx.len() == 1
    &&& fx[0] matches Effect::SaveStore { store, then }
    &&& is_snapshot(store, n)
    &&& if general {
        then is GeneralRevertClicked
    } else {
        then is RevertClicked
    }
}

/// Profile `p` with draft `d` saved into it: name, host, port (9091 when it
/// does not parse), user name, and the stored password dropped when the
/// draft set an empty one.
pub open spec fn saved_profile(p: ConnectionProfile, d: ProfileDraft) -> ConnectionProfile {
    ConnectionProfile {
        name: d.name,
        host: d.host,
        port: match parse_unsigned(d.port@, u16::MAX as nat) {
            Some(n) => n as u16,
            None => 9091,
        },
        username: optional_text(d.username),
        encrypted_password: if d.password_changed && d.password@.len() == 0 {
            None
        } else {
            p.encrypted_password
        },
        ..p
    }
}

/// The profiles after draft `d` was saved into the first one with its ID.
pub open spec fn profiles_after_save(s: Seq<ConnectionProfile>, d: ProfileDraft) -> Seq<ConnectionProfile> {
    match first_profile_index(s, d.id) {
        Some(k) => s.update(k, saved_profile(s[k], d)),
        None => s,
    }
}

/// What Save does: with a saveable draft, the profile takes the draft's
/// fields, the draft is reloaded from it and the form is clean. A new
/// non-empty password goes to the application for encryption; otherwise the
/// store is written, and the application learns whether the active
/// profile changed.
pub open spec fn save_step(
    o: SettingsScreen,
    n: SettingsScreen,
    fx: Seq<Effect>,
    res: Option<SettingsResult>,
) -> bool {
    match o.draft {
        None => n == o && no_output(fx, res),
        Some(d) => if !saveable(o) {
            n == o && no_output(fx, res)
        } else {
            let ps = profiles_after_save(o.profiles@, d);
            let with_password = d.password_changed && d.password@.len() > 0;
            &&& n == SettingsScreen { profiles: n.profiles, draft: n.draft, dirty: false, ..o }
            &&& n.profiles@ == ps
            &&& match first_profile(ps, d.id) {
                Some(p) => n.draft matches Some(nd) && draft_fields_of(
                    nd,
                    p,
                    with_password || p.encrypted_password is Some,
                ),
                None => n.draft == (if with_password {
                    Some(ProfileDraft { has_saved_password: true, ..d })
                } else {
                    o.draft
                }),
            }
            &&& if with_password {
                &&& fx.len() == 0
                &&& res matches Some(SettingsResult::SaveWithPassword { profile_id, password, store })
                &&& profile_id == d.id
                &&& password == d.password
                &&& is_snapshot(store, n)
            } else {
                &&& saves_snapshot(fx, n, false)
                &&& if o.active_profile_id == Some(d.id) {
                    &&& res matches Some(SettingsResult::ActiveProfileSaved { profile_id, store })
                    &&& profile_id == d.id
                    &&& is_snapshot(store, n)
                } else {
                    res matches Some(SettingsResult::StoreUpdated(store)) && is_snapshot(store, n)
                }
            }
        },
    }
}

/// `n` is `o` with profile `p` added, selected, and opened as a new draft.
pub open spec fn profile_added(o: SettingsScreen, p: ConnectionProfile, n: SettingsScreen) -> bool {
    &&& n == SettingsScreen {
        profiles: n.profiles,
        selected_profile_id: Some(p.id),
        draft: n.draft,
        dirty: true,
        ..o
    }
    &&& n.profiles@ == o.profiles@.push(p)
    &&& n.draft matches Some(d) && blank_draft_of(d, p)
}

/// The predicate "has another ID than `id`".
pub open spec fn other_than(id: u128) -> spec_fn(ConnectionProfile) -> bool {
    |p: ConnectionProfile| p.id != id
}

/// `n` is `o` with the draft changed to `d` and marked dirty, or `o` itself
/// when there is no draft.
pub open spec fn draft_edited(o: SettingsScreen, n: SettingsScreen, edit: spec_fn(ProfileDraft) -> ProfileDraft) -> bool {
    match o.draft {
        Some(d) => n == SettingsScreen { draft: Some(edit(d)), dirty: true, ..o },
        None => n == o,
    }
}

/// What [`SettingsScreen::update`] does with `msg` when the guard does not
/// hold it back.
pub open spec fn handled_step(
    o: SettingsScreen,
    msg: Message,
    n: SettingsScreen,
    fx: Seq<Effect>,
    res: Option<SettingsResult>,
) -> bool {
    match msg {
        Message::TabClicked(t) => n == SettingsScreen { active_tab: t, ..o } && no_output(fx, res),
        Message::CloseClicked => {
            &&& n == o
            &&& fx.len() == 0
            &&& res matches Some(SettingsResult::Closed(st)) && is_snapshot(st, o)
        },
        Message::ThemeConfigChanged(cfg) => {
            &&& n == SettingsScreen { theme_draft: cfg, general_dirty: true, ..o }
            &&& fx.len() == 0
            &&& res matches Some(SettingsResult::GeneralSettingsSaved { theme_config, store })
            &&& theme_config == cfg
            &&& is_snapshot(store, n)
        },
        Message::RefreshIntervalChanged(v) => {
            &&& n == SettingsScreen {
                refresh_interval_draft: v,
                general_validation_error: n.general_validation_error,
                general_saved: false,
                general_dirty: true,
                ..o
            }
            &&& validated(n.general_validation_error, v@)
            &&& no_output(fx, res)
        },
        Message::GeneralSaveClicked => if interval_error(o.refresh_interval_draft@) is Some {
            &&& n == SettingsScreen {
                general_validation_error: n.general_validation_error,
                ..o
            }
            &&& validated(n.general_validation_error, o.refresh_interval_draft@)
            &&& no_output(fx, res)
        } else {
            &&& n == SettingsScreen {
                general_validation_error: None,
                general_saved: true,
                general_dirty: false,
                theme_saved: o.theme_draft,
                refresh_interval_saved: o.refresh_interval_draft,
                ..o
            }
            &&& saves_snapshot(fx, n, true)
            &&& res matches Some(SettingsResult::GeneralSettingsSaved { theme_config, store })
            &&& theme_config == o.theme_draft
            &&& is_snapshot(store, n)
        },
        Message::GeneralRevertClicked => {
            &&& n == SettingsScreen {
                theme_draft: o.theme_saved,
                refresh_interval_draft: o.refresh_interval_saved,
                general_dirty: false,
                general_saved: false,
                general_validation_error: n.general_validation_error,
                ..o
            }
            &&& validated(n.general_validation_error, o.refresh_interval_saved@)
            &&& fx.len() == 0
            &&& res matches Some(SettingsResult::GeneralSettingsSaved { theme_config, store })
            &&& theme_config == o.theme_saved
            &&& is_snapshot(store, n)
        },
        Message::ProfileListClicked(id) => {
            &&& n == SettingsScreen {
                selected_profile_id: Some(id),
                draft: n.draft,
                dirty: false,
                ..o
            }
            &&& match first_profile(o.profiles@, id) {
                Some(p) => n.draft matches Some(d) && draft_of(d, p),
                None => n.draft == o.draft,
            }
            &&& no_output(fx, res)
        },
        Message::AddProfileClicked => {
            &&& exists|p: ConnectionProfile| is_blank_profile(p, p.id) && #[trigger] profile_added(o, p, n)
            &&& no_output(fx, res)
        },
        Message::DeleteProfileClicked => n == SettingsScreen {
            confirm_delete_id: match o.selected_profile_id {
                Some(id) => Some(id),
                None => o.confirm_delete_id,
            },
            ..o
        } && no_output(fx, res),
        Message::DeleteCancelled => n == SettingsScreen { confirm_delete_id: None, ..o } && no_output(fx, res),
        Message::DeleteConfirmed => match o.confirm_delete_id {
            None => n == o && no_output(fx, res),
            Some(id) => {
                &&& n.profiles@ == o.profiles@.filter(other_than(id))
                &&& if o.selected_profile_id == Some(id) {
                    n == SettingsScreen {
                        confirm_delete_id: None,
                        profiles: n.profiles,
                        selected_profile_id: None,
                        draft: None,
                        dirty: false,
                        ..o
                    }
                } else {
                    n == SettingsScreen { confirm_delete_id: None, profiles: n.profiles, ..o }
                }
                &&& saves_snapshot(fx, n, false)
                &&& res matches Some(SettingsResult::StoreUpdated(st)) && is_snapshot(st, n)
            },
        },
        Message::DraftNameChanged(v) => draft_edited(o, n, |d: ProfileDraft| ProfileDraft { name: v, ..d })
            && no_output(fx, res),
        Message::DraftHostChanged(v) => draft_edited(o, n, |d: ProfileDraft| ProfileDraft { host: v, ..d })
            && no_output(fx, res),
        Message::DraftPortChanged(v) => draft_edited(o, n, |d: ProfileDraft| ProfileDraft { port: v, ..d })
            && no_output(fx, res),
        Message::DraftUsernameChanged(v) => draft_edited(
            o,
            n,
            |d: ProfileDraft| ProfileDraft { username: v, ..d },
        ) && no_output(fx, res),
        Message::DraftPasswordChanged(v) => draft_edited(
            o,
            n,
            |d: ProfileDraft| ProfileDraft { password: v, password_changed: true, ..d },
        ) && no_output(fx, res),
        Message::TestConnectionClicked => match o.draft {
            None => n == o && no_output(fx, res),
            Some(d) => if d.has_saved_password && !d.password_changed {
                &&& n == SettingsScreen {
                    draft: Some(ProfileDraft { testing: true, test_result: None, ..d }),
                    ..o
                }
                &&& fx.len() == 0
                &&& res == Some(SettingsResult::TestConnectionWithId { profile_id: d.id })
            } else {
                match form_credentials(d.host, d.port@, d.username, d.password) {
                    None => n == o && no_output(fx, res),
                    Some(c) => {
                        &&& n == SettingsScreen {
                            draft: Some(ProfileDraft { testing: true, test_result: None, ..d }),
                            ..o
                        }
                        &&& fx == seq![Effect::Probe(c)]
                        &&& res is None
                    },
                }
            },
        },
        Message::TestConnectionResult(r) => (match o.draft {
            Some(d) => n == SettingsScreen {
                draft: Some(
                    ProfileDraft {
                        testing: false,
                        test_result: Some(
                            match r {
                                Ok(_) => TestResult::Success,
                                Err(e) => TestResult::Failure(e),
                            },
                        ),
                        ..d
                    },
                ),
                ..o
            },
            None => n == o,
        }) && no_output(fx, res),
        Message::SaveClicked => save_step(o, n, fx, res),
        Message::RevertClicked => {
            &&& n == SettingsScreen { draft: n.draft, dirty: false, ..o }
            &&& reloaded(o.profiles@, o.selected_profile_id, o.draft, n.draft)
            &&& no_output(fx, res)
        },
        Message::GuardSave => {
            let o1 = SettingsScreen { confirm_discard: None, ..o };
            exists|m: SettingsScreen, r: Option<SettingsResult>|
                #[trigger] save_step(o1, m, fx, r) && match o.confirm_discard {
                    Some(PendingNavigation::Close) => n == m && match r {
                        Some(SettingsResult::ActiveProfileSaved { .. }) => res == r,
                        _ => res matches Some(SettingsResult::Closed(st)) && is_snapshot(st, m),
                    },
                    Some(nav) => navigated(m, nav, n) && res == r,
                    None => n == m && res == r,
                }
        },
        Message::GuardDiscard => {
            exists|m: SettingsScreen|
                {
                    &&& m == SettingsScreen {
                        confirm_discard: None,
                        dirty: false,
                        draft: m.draft,
                        ..o
                    }
                    &&& #[trigger] reloaded(o.profiles@, o.selected_profile_id, o.draft, m.draft)
                    &&& match o.confirm_discard {
                        Some(PendingNavigation::Close) => {
                            &&& n == m
                            &&& fx.len() == 0
                            &&& res matches Some(SettingsResult::Closed(st)) && is_snapshot(st, m)
                        },
                        Some(nav) => navigated(m, nav, n) && no_output(fx, res),
                        None => n == m && no_output(fx, res),
                    }
                }
        },
        Message::GuardCancel => n == SettingsScreen { confirm_discard: None, ..o } && no_output(fx, res),
        Message::TabKeyPressed { shift } => {
            &&& n == o
            &&& res is None
            &&& if o.active_tab != SettingsTab::Connections || o.draft is None {
                fx.len() == 0
            } else {
                fx == seq![
                    if shift {
                        Effect::FocusPrevious
                    } else {
                        Effect::FocusNext
                    },
                ]
            }
        },
        Message::EnterPressed => n == o && no_output(fx, res),
    }
}

/// What [`SettingsScreen::update`] does with `msg`: `n` is the state after
/// it, `fx` the work it asks for and `res` what the application must act on.
pub open spec fn settings_step(
    o: SettingsScreen,
    msg: Message,
    n: SettingsScreen,
    fx: Seq<Effect>,
    res: Option<SettingsResult>,
) -> bool {
    match guarded_navigation(o, msg) {
        Some(nav) => n == SettingsScreen { confirm_discard: Some(nav), ..o } && no_output(fx, res),
        None => handled_step(o, msg, n, fx, res),
    }
}

// ── Update ───────────────────────────────────────────────────────────────────

/// Profile `p` with draft `d` saved into it.
fn saved_profile_of(p: &ConnectionProfile, d: &ProfileDraft) -> (r: ConnectionProfile)
    ensures
        r == saved_profile(*p, *d),
{
    let port: u16 = match parse_u16(d.port.as_str()) {
        Some(n) => n,
        None => 9091,
    };
    let encrypted_password = if d.password_changed && d.password.as_str().is_empty() {
        None
    } else {
        copy_text_opt(&p.encrypted_password)
    };
    ConnectionProfile {
        name: d.name.clone(),
        host: d.host.clone(),
        port,
        username: optional_text_of(&d.username),
        encrypted_password,
        ..copy_profile(p)
    }
}

/// Drop every profile with ID `id`, keeping the order of the rest.
fn remove_profiles_with_id(profiles: &mut Vec<ConnectionProfile>, id: u128)
    ensures
        final(profiles)@ == old(profiles)@.filter(other_than(id)),
{
    let mut out: Vec<ConnectionProfile> = Vec::new();
    let mut k: usize = 0;
    while k < profiles.len()
        invariant
            k <= profiles@.len(),
            out@ == profiles@.take(k as int).filter(other_than(id)),
        decreases profiles@.len() - k,
    {
        assert(profiles@.take(k + 1) == profiles@.take(k as int).push(profiles@[k as int]));
        proof {
            profiles@.take(k as int).lemma_filter_push(profiles@[k as int], other_than(id));
        }
        if profiles[k].id != id {
            out.push(copy_profile(&profiles[k]));
        }
        k += 1;
    }
    assert(profiles@.take(profiles@.len() as int) == profiles@);
    *profiles = out;
}

/// One effect.
fn single(e: Effect) -> (fx: Vec<Effect>)
    ensures
        fx@ == seq![e],
{
    let mut fx: Vec<Effect> = Vec::new();
    fx.push(e);
    fx
}

impl SettingsScreen {
    /// Handle a settings message: returns the follow-up work and, where the
    /// application must act, a result.
    pub fn update(&mut self, msg: Message) -> (out: (Vec<Effect>, Option<SettingsResult>))
        ensures
            settings_step(*old(self), msg, *final(self), out.0@, out.1),
    {
        match self.guard_check(&msg) {
            Some(nav) => {
                self.confirm_discard = Some(nav);
                return (Vec::new(), None);
            },
            None => {},
        }
        match msg {
            Message::TabClicked(..) | Message::CloseClicked | Message::ThemeConfigChanged(..)
            | Message::RefreshIntervalChanged(..) | Message::GeneralSaveClicked
            | Message::GeneralRevertClicked => self.handle_general(msg),
            Message::GuardSave | Message::GuardDiscard | Message::GuardCancel
            | Message::TabKeyPressed { .. } | Message::EnterPressed => self.handle_guard(msg),
            _ => self.handle_profiles(msg),
        }
    }

    /// The navigation that the unsaved-change guard holds back, if any.
    fn guard_check(&self, msg: &Message) -> (r: Option<PendingNavigation>)
        ensures
            r == guarded_navigation(*self, *msg),
    {
        if !self.dirty || self.confirm_discard.is_some() {
            return None;
        }
        match msg {
            Message::TabClicked(t) => {
                if *t != self.active_tab {
                    Some(PendingNavigation::SwitchTab(*t))
                } else {
                    None
                }
            },
            Message::ProfileListClicked(id) => {
                let same = match self.selected_profile_id {
                    Some(s) => s == *id,
                    None => false,
                };
                if !same {
                    Some(PendingNavigation::SwitchProfile(*id))
                } else {
                    None
                }
            },
            Message::CloseClicked => Some(PendingNavigation::Close),
            _ => None,
        }
    }

    /// Navigation and the General tab.
    fn handle_general(&mut self, msg: Message) -> (out: (Vec<Effect>, Option<SettingsResult>))
        requires
            msg is TabClicked || msg is CloseClicked || msg is ThemeConfigChanged
                || msg is RefreshIntervalChanged || msg is GeneralSaveClicked
                || msg is GeneralRevertClicked,
        ensures
            handled_step(*old(self), msg, *final(self), out.0@, out.1),
    {
        match msg {
            Message::TabClicked(tab) => {
                self.active_tab = tab;
                (Vec::new(), None)
            },
            Message::CloseClicked => {
                let store = self.build_store_snapshot();
                (Vec::new(), Some(SettingsResult::Closed(store)))
            },
            Message::ThemeConfigChanged(cfg) => {
                self.theme_draft = cfg;
                self.general_dirty = true;
                let store = self.build_store_snapshot();
                (Vec::new(), Some(SettingsResult::GeneralSettingsSaved { theme_config: cfg, store }))
            },
            Message::RefreshIntervalChanged(v) => {
                self.refresh_interval_draft = v;
                self.validate_refresh_interval();
                self.general_saved = false;
                self.general_dirty = true;
                (Vec::new(), None)
            },
            Message::GeneralSaveClicked => {
                self.validate_refresh_interval();
                if self.general_validation_error.is_some() {
                    return (Vec::new(), None);
                }
                self.general_saved = true;
                self.general_dirty = false;
                self.theme_saved = self.theme_draft;
                self.refresh_interval_saved = self.refresh_interval_draft.clone();
                let store = self.build_store_snapshot();
                let fx = single(
                    Effect::SaveStore { store: copy_store(&store), then: Message::GeneralRevertClicked },
                );
                (
                    fx,
                    Some(
                        SettingsResult::GeneralSettingsSaved { theme_config: self.theme_draft, store },
                    ),
                )
            },
            Message::GeneralRevertClicked => {
                self.theme_draft = self.theme_saved;
                self.refresh_interval_draft = self.refresh_interval_saved.clone();
                self.general_dirty = false;
                self.general_saved = false;
                self.validate_refresh_interval();
                let store = self.build_store_snapshot();
                (
                    Vec::new(),
                    Some(
                        SettingsResult::GeneralSettingsSaved { theme_config: self.theme_saved, store },
                    ),
                )
            },
            _ => (Vec::new(), None),
        }
    }

    /// Add profile `blank`, select it and open its draft.
    pub fn add_profile(&mut self, blank: ConnectionProfile)
        ensures
            profile_added(*old(self), blank, *final(self)),
    {
        let id = blank.id;
        let draft = ProfileDraft::from_blank(&blank);
        self.profiles.push(blank);
        self.selected_profile_id = Some(id);
        self.draft = Some(draft);
        self.dirty = true;
    }

    /// Save draft `draft` into the first profile with its ID.
    fn apply_draft(&mut self, draft: &ProfileDraft)
        ensures
            *final(self) == (SettingsScreen { profiles: final(self).profiles, ..*old(self) }),
            final(self).profiles@ == profiles_after_save(old(self).profiles@, *draft),
    {
        match find_profile(&self.profiles, draft.id) {
            Some(k) => {
                let updated = saved_profile_of(&self.profiles[k], draft);
                self.profiles.set(k, updated);
            },
            None => {},
        }
    }

    /// Reload the draft from the profile saved from `draft`, with the
    /// saved-password flag set when a new password goes for encryption.
    fn reload_saved_draft(&mut self, draft: &ProfileDraft, with_password: bool)
        requires
            old(self).draft == Some(*draft),
        ensures
            *final(self) == (SettingsScreen { draft: final(self).draft, ..*old(self) }),
            match first_profile(old(self).profiles@, draft.id) {
                Some(p) => final(self).draft matches Some(nd) && draft_fields_of(
                    nd,
                    p,
                    with_password || p.encrypted_password is Some,
                ),
                None => final(self).draft == (if with_password {
                    Some(ProfileDraft { has_saved_password: true, ..*draft })
                } else {
                    old(self).draft
                }),
            },
    {
        proof {
            lemma_first_profile_index(self.profiles@, draft.id);
        }
        match find_profile(&self.profiles, draft.id) {
            Some(k) => {
                let mut nd = ProfileDraft::from_profile(&self.profiles[k]);
                if with_password {
                    nd.has_saved_password = true;
                }
                self.draft = Some(nd);
            },
            None => {
                if with_password {
                    let mut nd = copy_draft(draft);
                    nd.has_saved_password = true;
                    self.draft = Some(nd);
                }
            },
        }
    }

    /// Save the draft into its profile.
    #[verifier::rlimit(30)]
    fn save(&mut self) -> (out: (Vec<Effect>, Option<SettingsResult>))
        ensures
            save_step(*old(self), *final(self), out.0@, out.1),
    {
        if !self.draft_is_saveable() {
            return (Vec::new(), None);
        }
        let draft = match &self.draft {
            Some(d) => copy_draft(d),
            None => {
                return (Vec::new(), None);
            },
        };
        let id = draft.id;
        self.apply_draft(&draft);
        self.dirty = false;
        let with_password = draft.password_changed && !draft.password.as_str().is_empty();
        self.reload_saved_draft(&draft, with_password);
        let store = self.build_store_snapshot();
        if with_password {
            return (
                Vec::new(),
                Some(
                    SettingsResult::SaveWithPassword {
                        profile_id: id,
                        password: draft.password.clone(),
                        store,
                    },
                ),
            );
        }
        let fx = single(Effect::SaveStore { store: copy_store(&store), then: Message::RevertClicked });
        let is_active = match self.active_profile_id {
            Some(a) => a == id,
            None => false,
        };
        if is_active {
            (fx, Some(SettingsResult::ActiveProfileSaved { profile_id: id, store }))
        } else {
            (fx, Some(SettingsResult::StoreUpdated(store)))
        }
    }

    /// The Connections tab: the profile list and the draft form.
    fn handle_profiles(&mut self, msg: Message) -> (out: (Vec<Effect>, Option<SettingsResult>))
        requires
            guarded_navigation(*old(self), msg) is None,
            !(msg is TabClicked || msg is CloseClicked || msg is ThemeConfigChanged
                || msg is RefreshIntervalChanged || msg is GeneralSaveClicked
                || msg is GeneralRevertClicked || msg is GuardSave || msg is GuardDiscard
                || msg is GuardCancel || msg is TabKeyPressed || msg is EnterPressed),
        ensures
            handled_step(*old(self), msg, *final(self), out.0@, out.1),
    {
        match msg {
            Message::ProfileListClicked(..) | Message::AddProfileClicked
            | Message::DeleteProfileClicked | Message::DeleteCancelled
            | Message::DeleteConfirmed => self.handle_profile_list(msg),
            _ => self.handle_form(msg),
        }
    }

    /// The profile list.
    fn handle_profile_list(&mut self, msg: Message) -> (out: (Vec<Effect>, Option<SettingsResult>))
        requires
            msg is ProfileListClicked || msg is AddProfileClicked || msg is DeleteProfileClicked
                || msg is DeleteCancelled || msg is DeleteConfirmed,
        ensures
            handled_step(*old(self), msg, *final(self), out.0@, out.1),
    {
        match msg {
            Message::ProfileListClicked(id) => {
                self.selected_profile_id = Some(id);
                match find_profile(&self.profiles, id) {
                    Some(k) => {
                        self.draft = Some(ProfileDraft::from_profile(&self.profiles[k]));
                    },
                    None => {},
                }
                self.dirty = false;
                (Vec::new(), None)
            },
            Message::AddProfileClicked => {
                let blank = ConnectionProfile::new_blank();
                let ghost p = blank;
                self.add_profile(blank);
                assert(profile_added(*old(self), p, *self));
                (Vec::new(), None)
            },
            Message::DeleteProfileClicked => {
                match self.selected_profile_id {
                    Some(id) => {
                        self.confirm_delete_id = Some(id);
                    },
                    None => {},
                }
                (Vec::new(), None)
            },
            Message::DeleteCancelled => {
                self.confirm_delete_id = None;
                (Vec::new(), None)
            },
            Message::DeleteConfirmed => {
                let id = match self.confirm_delete_id.take() {
                    Some(id) => id,
                    None => {
                        return (Vec::new(), None);
                    },
                };
                remove_profiles_with_id(&mut self.profiles, id);
                let selected = match self.selected_profile_id {
                    Some(s) => s == id,
                    None => false,
                };
                if selected {
                    self.selected_profile_id = None;
                    self.draft = None;
                    self.dirty = false;
                }
                let store = self.build_store_snapshot();
                let fx = single(
                    Effect::SaveStore { store: copy_store(&store), then: Message::RevertClicked },
                );
                (fx, Some(SettingsResult::StoreUpdated(store)))
            },
            _ => (Vec::new(), None),
        }
    }

    /// The draft form.
    #[verifier::rlimit(30)]
    fn handle_form(&mut self, msg: Message) -> (out: (Vec<Effect>, Option<SettingsResult>))
        requires
            msg is DraftNameChanged || msg is DraftHostChanged || msg is DraftPortChanged
                || msg is DraftUsernameChanged || msg is DraftPasswordChanged
                || msg is TestConnectionClicked || msg is TestConnectionResult || msg is SaveClicked
                || msg is RevertClicked,
        ensures
            handled_step(*old(self), msg, *final(self), out.0@, out.1),
    {
        match msg {
            Message::DraftNameChanged(v) => {
                match self.draft.take() {
                    Some(mut d) => {
                        d.name = v;
                        self.draft = Some(d);
                        self.dirty = true;
                    },
                    None => {},
                }
                (Vec::new(), None)
            },
            Message::DraftHostChanged(v) => {
                match self.draft.take() {
                    Some(mut d) => {
                        d.host = v;
                        self.draft = Some(d);
                        self.dirty = true;
                    },
                    None => {},
                }
                (Vec::new(), None)
            },
            Message::DraftPortChanged(v) => {
                match self.draft.take() {
                    Some(mut d) => {
                        d.port = v;
                        self.draft = Some(d);
                        self.dirty = true;
                    },
                    None => {},
                }
                (Vec::new(), None)
            },
            Message::DraftUsernameChanged(v) => {
                match self.draft.take() {
                    Some(mut d) => {
                        d.username = v;
                        self.draft = Some(d);
                        self.dirty = true;
                    },
                    None => {},
                }
                (Vec::new(), None)
            },
            Message::DraftPasswordChanged(v) => {
                match self.draft.take() {
                    Some(mut d) => {
                        d.password = v;
                        d.password_changed = true;
                        self.draft = Some(d);
                        self.dirty = true;
                    },
                    None => {},
                }
                (Vec::new(), None)
            },
            Message::TestConnectionClicked => {
                match self.draft.take() {
                    None => (Vec::new(), None),
                    Some(mut d) => {
                        if d.has_saved_password && !d.password_changed {
                            let profile_id = d.id;
                            d.testing = true;
                            d.test_result = None;
                            self.draft = Some(d);
                            (Vec::new(), Some(SettingsResult::TestConnectionWithId { profile_id }))
                        } else {
                            match d.to_credentials() {
                                None => {
                                    self.draft = Some(d);
                                    (Vec::new(), None)
                                },
                                Some(creds) => {
                                    d.testing = true;
                                    d.test_result = None;
                                    self.draft = Some(d);
                                    (single(Effect::Probe(creds)), None)
                                },
                            }
                        }
                    },
                }
            },
            Message::TestConnectionResult(result) => {
                match self.draft.take() {
                    Some(mut d) => {
                        d.testing = false;
                        d.test_result = Some(
                            match result {
                                Ok(()) => TestResult::Success,
                                Err(e) => TestResult::Failure(e),
                            },
                        );
                        self.draft = Some(d);
                    },
                    None => {},
                }
                (Vec::new(), None)
            },
            Message::SaveClicked => self.save(),
            Message::RevertClicked => {
                self.reload_draft();
                self.dirty = false;
                (Vec::new(), None)
            },
            _ => (Vec::new(), None),
        }
    }

    /// The unsaved-change guard and the keyboard.
    fn handle_guard(&mut self, msg: Message) -> (out: (Vec<Effect>, Option<SettingsResult>))
        requires
            msg is GuardSave || msg is GuardDiscard || msg is GuardCancel || msg is TabKeyPressed
                || msg is EnterPressed,
        ensures
            handled_step(*old(self), msg, *final(self), out.0@, out.1),
    {
        match msg {
            Message::GuardSave => {
                let pending = self.confirm_discard.take();
                let ghost o1 = *self;
                let (fx, r) = self.save();
                let ghost m = *self;
                assert(save_step(o1, m, fx@, r));
                match pending {
                    Some(PendingNavigation::Close) => {
                        let reconnects = match &r {
                            Some(SettingsResult::ActiveProfileSaved { .. }) => true,
                            _ => false,
                        };
                        if reconnects {
                            (fx, r)
                        } else {
                            let store = self.build_store_snapshot();
                            (fx, Some(SettingsResult::Closed(store)))
                        }
                    },
                    Some(nav) => {
                        self.execute_pending_nav(nav);
                        (fx, r)
                    },
                    None => (fx, r),
                }
            },
            Message::GuardDiscard => {
                let pending = self.confirm_discard.take();
                self.dirty = false;
                let ghost before = *self;
                self.reload_draft();
                let ghost m = *self;
                assert(reloaded(before.profiles@, before.selected_profile_id, before.draft, m.draft));
                match pending {
                    Some(PendingNavigation::Close) => {
                        let store = self.build_store_snapshot();
                        (Vec::new(), Some(SettingsResult::Closed(store)))
                    },
                    Some(nav) => {
                        self.execute_pending_nav(nav);
                        (Vec::new(), None)
                    },
                    None => (Vec::new(), None),
                }
            },
            Message::GuardCancel => {
                self.confirm_discard = None;
                (Vec::new(), None)
            },
            Message::TabKeyPressed { shift } => {
                if self.active_tab != SettingsTab::Connections || self.draft.is_none() {
                    (Vec::new(), None)
                } else if shift {
                    (single(Effect::FocusPrevious), None)
                } else {
                    (single(Effect::FocusNext), None)
                }
            },
            _ => (Vec::new(), None),
        }
    }
}

// ── View decisions ───────────────────────────────────────────────────────────

impl SettingsScreen {
    /// Whether the General tab's Save button is enabled: the refresh
    /// interval draft is valid.
    pub fn general_save_enabled(&self) -> (b: bool)
        ensures
            b == (self.general_validation_error is None),
    {
        self.general_validation_error.is_none()
    }

    /// Whether the Delete button is enabled: a profile is selected, and it
    /// is not the profile of the current connection.
    pub fn delete_enabled(&self) -> (b: bool)
        ensures
            b == (self.selected_profile_id is Some && self.selected_profile_id
                != self.active_profile_id),
    {
        match self.selected_profile_id {
            Some(id) => match self.active_profile_id {
                Some(a) => a != id,
                None => true,
            },
            None => false,
        }
    }

    /// Whether the profile form's Save button is enabled: the draft has
    /// unsaved changes and can be saved.
    pub fn profile_save_enabled(&self) -> (b: bool)
        ensures
            b == (self.dirty && saveable(*self)),
    {
        self.dirty && self.draft_is_saveable()
    }

    /// The label of a profile in the list: its name, after a dot when it is
    /// the profile of the current connection.
    pub fn profile_list_label(&self, p: &ConnectionProfile) -> (s: String)
        ensures
            s@ == (if self.active_profile_id == Some(p.id) {
                "\u{25CF} "@ + p.name@
            } else {
                p.name@
            }),
    {
        let active = match self.active_profile_id {
            Some(a) => a == p.id,
            None => false,
        };
        if active {
            let mut s = String::new();
            push_text(&mut s, "\u{25CF} ");
            push_text(&mut s, p.name.as_str());
            assert(Seq::<char>::empty() + "\u{25CF} "@ == "\u{25CF} "@);
            s
        } else {
            p.name.clone()
        }
    }
}

} // verus!
