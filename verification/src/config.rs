//! The settings with which the runtime is started.

use vstd::prelude::*;

verus! {

/// The service through which peers find each other.
pub const BOOTSTRAP_SERVICE: &'static str = "https://bootstrap-staging.holo.host";

/// The local address that the transport binds to: any interface, any port.
pub const QUIC_BIND_ADDRESS: &'static str = "kitsune-quic://0.0.0.0:0";

/// The passphrase under which the keystore is opened.
pub const KEYSTORE_PASSPHRASE: &'static str = "passphrase-placeholder";

/// What the runtime is started with. The network is reached through one
/// proxied transport; one admin interface is opened, on a websocket.
#[derive(Debug, Clone, PartialEq, Eq)]
pub struct ConductorConfig {
    /// Where the runtime stores its data.
    pub environment_path: String,
    /// Where the keystore lives.
    pub keystore_path: String,
    /// The passphrase under which the keystore is opened.
    pub keystore_passphrase: String,
    /// Port of the admin interface.
    pub admin_port: u16,
    /// The service through which peers find each other.
    pub bootstrap_service: String,
    /// The local address of the transport beneath the proxy.
    pub bind_to: String,
    /// The proxy through which the runtime is reached from outside.
    pub proxy_url: String,
}

/// The settings as plain values.
pub ghost struct ConductorConfigView {
    pub environment_path: Seq<char>,
    pub keystore_path: Seq<char>,
    pub keystore_passphrase: Seq<char>,
    pub admin_port: u16,
    pub bootstrap_service: Seq<char>,
    pub bind_to: Seq<char>,
    pub proxy_url: Seq<char>,
}

impl View for ConductorConfig {
    type V = ConductorConfigView;

    open spec fn view(&self) -> ConductorConfigView {
        ConductorConfigView {
            environment_path: self.environment_path@,
            keystore_path: self.keystore_path@,
            keystore_passphrase: self.keystore_passphrase@,
            admin_port: self.admin_port,
            bootstrap_service: self.bootstrap_service@,
            bind_to: self.bind_to@,
            proxy_url: self.proxy_url@,
        }
    }
}

/// The settings for an admin port, two paths and a proxy: these four as they
/// are given, the rest fixed.
pub open spec fn settings_for(
    admin_port: u16,
    databases_path: Seq<char>,
    keystore_path: Seq<char>,
    proxy_url: Seq<char>,
) -> ConductorConfigView {
    ConductorConfigView {
        environment_path: databases_path,
        keystore_path: keystore_path,
        keystore_passphrase: KEYSTORE_PASSPHRASE@,
        admin_port: admin_port,
        bootstrap_service: BOOTSTRAP_SERVICE@,
        bind_to: QUIC_BIND_ADDRESS@,
        proxy_url: proxy_url,
    }
}

/// Builds the settings of the runtime.
pub fn conductor_config(
    admin_port: u16,
    databases_path: &str,
    keystore_path: &str,
    proxy_url: &str,
) -> (config: ConductorConfig)
    ensures
        config@ == settings_for(admin_port, databases_path@, keystore_path@, proxy_url@),
{
    ConductorConfig {
        environment_path: databases_path.to_owned(),
        keystore_path: keystore_path.to_owned(),
        keystore_passphrase: KEYSTORE_PASSPHRASE.to_owned(),
        admin_port,
        bootstrap_service: BOOTSTRAP_SERVICE.to_owned(),
        bind_to: QUIC_BIND_ADDRESS.to_owned(),
        proxy_url: proxy_url.to_owned(),
    }
}

} // verus!
