//! The runtime handle: the immutable configuration, the guarded state, and the
//! identity descriptors derived from the configuration.

use std::sync::Arc;
use vstd::prelude::*;
use crate::clock::{utc_now, Timestamp};
use crate::identity::{derive_identity, identity_of, HardwareId};
use crate::store::{LoadedState, LoadedStateView};

verus! {

#[verifier::external_type_specification]
#[verifier::external_body]
#[verifier::reject_recursive_types(T)]
pub struct ExMutex<T: ?Sized>(tokio::sync::Mutex<T>);

/// The state that `tokio::sync::Mutex::new` was handed when a mutex was made.
pub uninterp spec fn made_with(mutex: tokio::sync::Mutex<LoadedState>) -> LoadedStateView;

/// Calls `tokio::sync::Mutex::new`. Trusted: the new mutex holds the state it
/// was handed, unlocked. What it holds later is whatever its users put there.
#[verifier::external_body]
pub(crate) fn guard_state(state: LoadedState) -> (mutex: tokio::sync::Mutex<LoadedState>)
    ensures
        made_with(mutex) == state@,
{
    tokio::sync::Mutex::new(state)
}

/// Calls `Arc::clone` of std. Trusted: the new pointer shares the allocation
/// of the old one, so both hold the same configuration.
#[verifier::external_body]
pub(crate) fn share_config(conf: &Arc<AppConfig>) -> (shared: Arc<AppConfig>)
    ensures
        shared == *conf,
{
    Arc::clone(conf)
}

/// How the bridge presents itself on the network.
#[derive(Clone, Debug)]
pub struct BridgeConfig {
    pub mac: HardwareId,
    pub ipaddress: [u8; 4],
    pub netmask: [u8; 4],
    pub gateway: [u8; 4],
    pub timezone: String,
}

/// Where the server keeps its files.
#[derive(Clone, Debug)]
pub struct BifrostConfig {
    pub state_file: String,
    pub cert_file: String,
}

/// The startup configuration. It is never changed once the handle is built.
#[derive(Clone, Debug)]
pub struct AppConfig {
    pub bridge: BridgeConfig,
    pub bifrost: BifrostConfig,
}

/// The short descriptor: the bridge identity and the hardware address.
#[derive(Debug)]
pub struct ApiShortConfig {
    pub bridgeid: String,
    pub mac: HardwareId,
}

pub struct ApiShortConfigView {
    pub bridgeid: Seq<char>,
    pub mac: HardwareId,
}

impl View for ApiShortConfig {
    type V = ApiShortConfigView;

    open spec fn view(&self) -> ApiShortConfigView {
        ApiShortConfigView { bridgeid: self.bridgeid@, mac: self.mac }
    }
}

/// An access credential as the full descriptor shows it.
#[derive(Debug)]
pub struct Whitelist {
    pub create_date: Timestamp,
    pub last_use_date: Timestamp,
    pub name: String,
}

pub struct WhitelistView {
    pub create_date: Timestamp,
    pub last_use_date: Timestamp,
    pub name: Seq<char>,
}

impl View for Whitelist {
    type V = WhitelistView;

    open spec fn view(&self) -> WhitelistView {
        WhitelistView {
            create_date: self.create_date,
            last_use_date: self.last_use_date,
            name: self.name@,
        }
    }
}

/// A credential with the caller it is keyed by.
#[derive(Debug)]
pub struct WhitelistEntry {
    pub username: String,
    pub record: Whitelist,
}

pub struct WhitelistEntryView {
    pub username: Seq<char>,
    pub record: WhitelistView,
}

impl View for WhitelistEntry {
    type V = WhitelistEntryView;

    open spec fn view(&self) -> WhitelistEntryView {
        WhitelistEntryView { username: self.username@, record: self.record@ }
    }
}

/// The full descriptor: the short one, the network settings and the
/// credentials.
#[derive(Debug)]
pub struct ApiConfig {
    pub short_config: ApiShortConfig,
    pub ipaddress: [u8; 4],
    pub netmask: [u8; 4],
    pub gateway: [u8; 4],
    pub timezone: String,
    pub whitelist: Vec<WhitelistEntry>,
}

pub struct ApiConfigView {
    pub short_config: ApiShortConfigView,
    pub ipaddress: [u8; 4],
    pub netmask: [u8; 4],
    pub gateway: [u8; 4],
    pub timezone: Seq<char>,
    pub whitelist: Seq<WhitelistEntryView>,
}

impl View for ApiConfig {
    type V = ApiConfigView;

    open spec fn view(&self) -> ApiConfigView {
        ApiConfigView {
            short_config: self.short_config@,
            ipaddress: self.ipaddress,
            netmask: self.netmask,
            gateway: self.gateway,
            timezone: self.timezone@,
            whitelist: self.whitelist@.map_values(|entry: WhitelistEntry| entry@),
        }
    }
}

/// The short descriptor of a configuration.
pub open spec fn short_descriptor(conf: AppConfig) -> ApiShortConfigView {
    ApiShortConfigView { bridgeid: identity_of(conf.bridge.mac), mac: conf.bridge.mac }
}

/// The full descriptor of a configuration for one caller: the network
/// settings as configured, and a single credential keyed by the caller, with
/// the two given moments and the display name `User#foo`.
pub open spec fn full_descriptor(
    conf: AppConfig,
    username: Seq<char>,
    created: Timestamp,
    last_used: Timestamp,
) -> ApiConfigView {
    ApiConfigView {
        short_config: short_descriptor(conf),
        ipaddress: conf.bridge.ipaddress,
        netmask: conf.bridge.netmask,
        gateway: conf.bridge.gateway,
        timezone: conf.bridge.timezone@,
        whitelist: seq![
            WhitelistEntryView {
                username,
                record: WhitelistView {
                    create_date: created,
                    last_use_date: last_used,
                    name: "User#foo"@,
                },
            },
        ],
    }
}

/// The handle that the server shares: the configuration, read-only, and the
/// state behind an asynchronous mutex.
#[derive(Clone)]
pub struct AppState {
    conf: Arc<AppConfig>,
    pub res: Arc<tokio::sync::Mutex<LoadedState>>,
}

impl AppState {
    /// The configuration that the handle was built with.
    pub closed spec fn configuration(&self) -> AppConfig {
        *self.conf
    }

    /// The state that the mutex in `res` was made with.
    pub closed spec fn initial_state(&self) -> LoadedStateView {
        made_with(*self.res)
    }

    /// Builds the handle from the configuration and the loaded state.
    pub fn new(config: AppConfig, state: LoadedState) -> (handle: AppState)
        ensures
            handle.configuration() == config,
            handle.initial_state() == state@,
    {
        AppState { conf: Arc::new(config), res: Arc::new(guard_state(state)) }
    }

    /// The shared, read-only configuration.
    #[must_use]
    pub fn config(&self) -> (conf: Arc<AppConfig>)
        ensures
            *conf == self.configuration(),
    {
        share_config(&self.conf)
    }

    /// The short descriptor of this bridge.
    #[must_use]
    pub fn api_short_config(&self) -> (short: ApiShortConfig)
        ensures
            short@ == short_descriptor(self.configuration()),
    {
        let mac = self.conf.bridge.mac;
        ApiShortConfig { bridgeid: derive_identity(mac), mac }
    }

    /// The full descriptor of this bridge for one caller, whose credential is
    /// stamped with the two given moments.
    #[must_use]
    pub fn api_config_at(&self, username: &String, created: Timestamp, last_used: Timestamp) -> (full:
        ApiConfig)
        ensures
            full@ == full_descriptor(self.configuration(), username@, created, last_used),
    {
        let entry = WhitelistEntry {
            username: username.clone(),
            record: Whitelist {
                create_date: created,
                last_use_date: last_used,
                name: "User#foo".to_owned(),
            },
        };
        let mut whitelist: Vec<WhitelistEntry> = Vec::new();
        whitelist.push(entry);
        let full = ApiConfig {
            short_config: self.api_short_config(),
            ipaddress: self.conf.bridge.ipaddress,
            netmask: self.conf.bridge.netmask,
            gateway: self.conf.bridge.gateway,
            timezone: self.conf.bridge.timezone.clone(),
            whitelist,
        };
        assert(full@.whitelist =~= full_descriptor(
            self.configuration(),
            username@,
            created,
            last_used,
        ).whitelist);
        full
    }

    /// The full descriptor of this bridge for one caller, whose credential is
    /// stamped with the current time, read once for its creation and once for
    /// its last use.
    #[must_use]
    pub fn api_config(&self, username: &String) -> (full: ApiConfig)
        ensures
            full@.whitelist.len() == 1,
            full@ == full_descriptor(
                self.configuration(),
                username@,
                full@.whitelist[0].record.create_date,
                full@.whitelist[0].record.last_use_date,
            ),
    {
        let created = utc_now();
        let last_used = utc_now();
        self.api_config_at(username, created, last_used)
    }
}

} // verus!
