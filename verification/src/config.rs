//! Configuration values consumed by the reconciliation loop.
//!
//! Both structures are loaded once at process start and stay immutable
//! for the lifetime of the loop.

use vstd::prelude::*;

verus! {

/// Policy for choosing which discovery endpoint to query on a cycle.
#[derive(Clone, Copy, PartialEq, Eq, Structural, Debug)]
pub enum ProviderMode {
    /// Advance through the endpoint list one position per cycle,
    /// wrapping at the end.
    RoundRobin,
    /// Draw an endpoint index uniformly at random each cycle.
    Random,
}

/// Connection settings for the DNS provider: endpoint URL, basic-auth
/// credentials, and a per-request timeout in seconds.
pub struct TwoDNSConfig {
    pub url: String,
    pub user: String,
    pub token: String,
    pub timeout: u64,
}

/// Abstract value of a [`TwoDNSConfig`]: its strings as character
/// sequences.
pub struct TwoDNSConfigView {
    pub url: Seq<char>,
    pub user: Seq<char>,
    pub token: Seq<char>,
    pub timeout: u64,
}

impl View for TwoDNSConfig {
    type V = TwoDNSConfigView;

    open spec fn view(&self) -> TwoDNSConfigView {
        TwoDNSConfigView {
            url: self.url@,
            user: self.user@,
            token: self.token@,
            timeout: self.timeout,
        }
    }
}

/// Settings for IP discovery: the ordered endpoint list, the polling
/// interval and per-request timeout in seconds, and the selection mode.
pub struct UpdateConfig {
    pub interval: u64,
    pub timeout: u64,
    pub mode: ProviderMode,
    pub urls: Vec<String>,
}

/// Abstract value of an [`UpdateConfig`].
pub struct UpdateConfigView {
    pub interval: u64,
    pub timeout: u64,
    pub mode: ProviderMode,
    pub urls: Seq<Seq<char>>,
}

impl View for UpdateConfig {
    type V = UpdateConfigView;

    open spec fn view(&self) -> UpdateConfigView {
        UpdateConfigView {
            interval: self.interval,
            timeout: self.timeout,
            mode: self.mode,
            urls: self.urls.deep_view(),
        }
    }
}

/// The whole configuration: provider settings plus discovery settings.
pub struct Config {
    pub twodns: TwoDNSConfig,
    pub update: UpdateConfig,
}

impl UpdateConfig {
    /// A discovery configuration is usable only with at least one
    /// endpoint to query.
    pub open spec fn wf(&self) -> bool {
        self@.urls.len() > 0
    }

    /// Reports whether the endpoint list is non-empty; configurations
    /// that fail this check must be rejected at startup.
    pub fn is_valid(&self) -> (r: bool)
        ensures
            r == self.wf(),
    {
        self.urls.len() > 0
    }
}

impl Config {
    pub open spec fn wf(&self) -> bool {
        self.update.wf()
    }

    /// Reports whether the configuration can drive the loop.
    pub fn is_valid(&self) -> (r: bool)
        ensures
            r == self.wf(),
    {
        self.update.is_valid()
    }
}

/// The per-request timeout, in seconds, used when none is configured.
pub fn default_timeout() -> (t: u64)
    ensures
        t == 5,
{
    5
}

/// The polling interval, in seconds, used when none is configured.
pub fn default_interval() -> (t: u64)
    ensures
        t == 300,
{
    300
}

/// The endpoint selection mode used when none is configured.
pub fn default_mode() -> (m: ProviderMode)
    ensures
        m == ProviderMode::Random,
{
    ProviderMode::Random
}

/// A textual IP address, as fetched from a discovery endpoint or
/// recorded at the provider.  The value is kept verbatim; comparison
/// is exact character-for-character equality.
pub struct Ip {
    pub ip_address: String,
}

impl View for Ip {
    type V = Seq<char>;

    open spec fn view(&self) -> Seq<char> {
        self.ip_address@
    }
}

impl Clone for Ip {
    fn clone(&self) -> (r: Self)
        ensures
            r == *self,
    {
        Ip { ip_address: self.ip_address.clone() }
    }
}

} // verus!
