//! Saved connection profiles and the general settings stored beside them.

use vstd::prelude::*;

verus! {

/// The colour theme the user chose.
#[derive(Debug, Clone, Copy, PartialEq, Eq, Default, Structural)]
pub enum ThemeConfig {
    Light,
    Dark,
    #[default]
    System,
}

/// Settings that apply to every connection.
#[derive(Debug, Clone, Copy, PartialEq, Eq, Structural)]
pub struct GeneralSettings {
    pub theme: ThemeConfig,
    /// Daemon poll interval in seconds.
    pub refresh_interval: u8,
}

/// One saved daemon connection.
#[derive(Debug, Clone, PartialEq, Eq)]
pub struct ConnectionProfile {
    /// The profile's UUID, as its 128-bit big-endian value.
    pub id: u128,
    pub name: String,
    pub host: String,
    pub port: u16,
    pub username: Option<String>,
    /// The password, encrypted with the master passphrase.
    pub encrypted_password: Option<String>,
    /// Standard global download limit (KB/s); 0 means not set.
    pub speed_limit_down: u64,
    pub speed_limit_down_enabled: bool,
    /// Standard global upload limit (KB/s); 0 means not set.
    pub speed_limit_up: u64,
    pub speed_limit_up_enabled: bool,
    /// Alternative download ceiling (KB/s); 0 means not set.
    pub alt_speed_down: u64,
    /// Alternative upload ceiling (KB/s); 0 means not set.
    pub alt_speed_up: u64,
    /// The global seed-ratio limit as `f64` bits.
    pub ratio_limit_bits: u64,
    /// The same limit rendered with two decimals, as the form shows it.
    pub ratio_limit_text: String,
    pub ratio_limit_enabled: bool,
}

/// Everything that is persisted: the profiles and the general settings.
#[derive(Debug, Clone, PartialEq, Eq)]
pub struct ProfileStore {
    /// The profile of the last successful connection.
    pub last_connected: Option<u128>,
    pub general: GeneralSettings,
    pub profiles: Vec<ConnectionProfile>,
}

impl Default for GeneralSettings {
    /// The system theme, polling every 5 seconds.
    fn default() -> (g: GeneralSettings)
        ensures
            g == (GeneralSettings { theme: ThemeConfig::System, refresh_interval: 5 }),
    {
        GeneralSettings { theme: ThemeConfig::System, refresh_interval: 5 }
    }
}

impl Default for ProfileStore {
    /// No profiles, no last connection, default general settings.
    fn default() -> (s: ProfileStore)
        ensures
            s.last_connected is None,
            s.general == (GeneralSettings { theme: ThemeConfig::System, refresh_interval: 5 }),
            s.profiles@.len() == 0,
    {
        ProfileStore {
            last_connected: None,
            general: GeneralSettings { theme: ThemeConfig::System, refresh_interval: 5 },
            profiles: Vec::new(),
        }
    }
}

/// The bits of `uuid::Uuid::new_v4`'s version nibble and variant field.
pub open spec fn uuid_v4_mask() -> u128 {
    0xF000_C000_0000_0000_0000u128
}

/// Their value in a version-4 RFC 4122 UUID.
pub open spec fn uuid_v4_tag() -> u128 {
    0x4000_8000_0000_0000_0000u128
}

/// `uuid::Uuid::new_v4().as_u128()`: a random UUID, as its 128-bit
/// big-endian value. The uuid crate draws 128 random bits, then sets the
/// version nibble to 4 and the variant bits to `10`; the contract states
/// those bits and nothing of the others, which are random.
#[verifier::external_body]
fn new_v4_bits() -> (r: u128)
    ensures
        r & uuid_v4_mask() == uuid_v4_tag(),
{
    uuid::Uuid::new_v4().as_u128()
}

/// `p` is a fresh profile with ID `id`: unnamed, `localhost:9091`, no
/// credentials and no limits.
pub open spec fn is_blank_profile(p: ConnectionProfile, id: u128) -> bool {
    &&& p.id == id
    &&& p.name@.len() == 0
    &&& p.host@ == "localhost"@
    &&& p.port == 9091
    &&& p.username is None
    &&& p.encrypted_password is None
    &&& p.speed_limit_down == 0 && !p.speed_limit_down_enabled
    &&& p.speed_limit_up == 0 && !p.speed_limit_up_enabled
    &&& p.alt_speed_down == 0 && p.alt_speed_up == 0
    &&& p.ratio_limit_bits == 0 && p.ratio_limit_text@.len() == 0
    &&& !p.ratio_limit_enabled
}

impl ConnectionProfile {
    /// A fresh profile with the given ID.
    pub fn blank(id: u128) -> (p: ConnectionProfile)
        ensures
            is_blank_profile(p, id),
    {
        proof {
            reveal_strlit("localhost");
        }
        ConnectionProfile {
            id,
            name: String::new(),
            host: String::from_str("localhost"),
            port: 9091,
            username: None,
            encrypted_password: None,
            speed_limit_down: 0,
            speed_limit_down_enabled: false,
            speed_limit_up: 0,
            speed_limit_up_enabled: false,
            alt_speed_down: 0,
            alt_speed_up: 0,
            ratio_limit_bits: 0,
            ratio_limit_text: String::new(),
            ratio_limit_enabled: false,
        }
    }

    /// A fresh profile with a new random (version 4) UUID.
    pub fn new_blank() -> (p: ConnectionProfile)
        ensures
            is_blank_profile(p, p.id),
            p.id & uuid_v4_mask() == uuid_v4_tag(),
    {
        ConnectionProfile::blank(new_v4_bits())
    }
}

/// A copy of an optional string.
pub fn copy_text_opt(s: &Option<String>) -> (r: Option<String>)
    ensures
        r == *s,
{
    match s {
        Some(v) => Some(v.clone()),
        None => None,
    }
}

/// A copy of a profile.
pub fn copy_profile(p: &ConnectionProfile) -> (r: ConnectionProfile)
    ensures
        r == *p,
{
    ConnectionProfile {
        id: p.id,
        name: p.name.clone(),
        host: p.host.clone(),
        port: p.port,
        username: copy_text_opt(&p.username),
        encrypted_password: copy_text_opt(&p.encrypted_password),
        speed_limit_down: p.speed_limit_down,
        speed_limit_down_enabled: p.speed_limit_down_enabled,
        speed_limit_up: p.speed_limit_up,
        speed_limit_up_enabled: p.speed_limit_up_enabled,
        alt_speed_down: p.alt_speed_down,
        alt_speed_up: p.alt_speed_up,
        ratio_limit_bits: p.ratio_limit_bits,
        ratio_limit_text: p.ratio_limit_text.clone(),
        ratio_limit_enabled: p.ratio_limit_enabled,
    }
}

/// A copy of a list of profiles.
pub fn copy_profiles(v: &Vec<ConnectionProfile>) -> (r: Vec<ConnectionProfile>)
    ensures
        r@ == v@,
{
    let mut r: Vec<ConnectionProfile> = Vec::new();
    let mut i: usize = 0;
    while i < v.len()
        invariant
            i <= v@.len(),
            r@ == v@.take(i as int),
        decreases v@.len() - i,
    {
        assert(v@.take(i + 1) == v@.take(i as int).push(v@[i as int]));
        r.push(copy_profile(&v[i]));
        i += 1;
    }
    assert(v@.take(v@.len() as int) == v@);
    r
}

/// A copy of a store.
pub fn copy_store(s: &ProfileStore) -> (r: ProfileStore)
    ensures
        r.last_connected == s.last_connected,
        r.general == s.general,
        r.profiles@ == s.profiles@,
{
    ProfileStore {
        last_connected: s.last_connected,
        general: s.general,
        profiles: copy_profiles(&s.profiles),
    }
}

/// The position of the first profile of `s` with ID `id`.
pub open spec fn first_profile_index(s: Seq<ConnectionProfile>, id: u128) -> Option<int>
    decreases s.len(),
{
    if s.len() == 0 {
        None
    } else if s[0].id == id {
        Some(0)
    } else {
        match first_profile_index(s.drop_first(), id) {
            Some(p) => Some(p + 1),
            None => None,
        }
    }
}

/// The first profile of `s` with ID `id`.
pub open spec fn first_profile(s: Seq<ConnectionProfile>, id: u128) -> Option<ConnectionProfile> {
    match first_profile_index(s, id) {
        Some(k) => Some(s[k]),
        None => None,
    }
}

/// Facts about [`first_profile_index`].
pub proof fn lemma_first_profile_index(s: Seq<ConnectionProfile>, id: u128)
    ensures
        match first_profile_index(s, id) {
            Some(k) => 0 <= k < s.len() && s[k].id == id && forall|j: int|
                0 <= j < k ==> s[j].id != id,
            None => forall|j: int| 0 <= j < s.len() ==> s[j].id != id,
        },
    decreases s.len(),
{
    if s.len() > 0 {
        lemma_first_profile_index(s.drop_first(), id);
        if s[0].id != id {
            match first_profile_index(s.drop_first(), id) {
                Some(k) => {
                    assert forall|j: int| 0 <= j < k + 1 implies s[j].id != id by {
                        if j > 0 {
                            assert(s[j] == s.drop_first()[j - 1]);
                        }
                    }
                },
                None => {
                    assert forall|j: int| 0 <= j < s.len() implies s[j].id != id by {
                        if j > 0 {
                            assert(s[j] == s.drop_first()[j - 1]);
                        }
                    }
                },
            }
        }
    }
}

/// The position of the first profile with ID `id`.
pub fn find_profile(profiles: &Vec<ConnectionProfile>, id: u128) -> (r: Option<usize>)
    ensures
        match r {
            Some(k) => k < profiles@.len() && first_profile_index(profiles@, id) == Some(k as int),
            None => first_profile_index(profiles@, id) is None,
        },
{
    proof {
        lemma_first_profile_index(profiles@, id);
    }
    let mut i: usize = 0;
    while i < profiles.len()
        invariant
            i <= profiles@.len(),
            forall|j: int| 0 <= j < i ==> profiles@[j].id != id,
            match first_profile_index(profiles@, id) {
                Some(k) => 0 <= k < profiles@.len() && profiles@[k].id == id && forall|j: int|
                    0 <= j < k ==> profiles@[j].id != id,
                None => forall|j: int| 0 <= j < profiles@.len() ==> profiles@[j].id != id,
            },
        decreases profiles@.len() - i,
    {
        if profiles[i].id == id {
            return Some(i);
        }
        i += 1;
    }
    None
}

} // verus!
