use vstd::prelude::*;

verus! {

/// The switches and addresses from which a conductor configuration is made
/// when none is persisted.
#[derive(Debug, Clone, PartialEq, Eq)]
pub struct LocalConductorConfig {
    pub passphrase: String,
    pub conductor_path: String,
    pub data_path: String,
    pub use_bootstrap: bool,
    pub use_proxy: bool,
    pub use_local_proxy: bool,
    pub use_mdns: bool,
    pub proxy_url: String,
    pub bootstrap_url: String,
}

/// How peers are discovered.
#[derive(Debug, Clone, Copy, PartialEq, Eq, Structural)]
pub enum NetworkType {
    /// Discovery on the local network.
    QuicMdns,
    /// Discovery through a bootstrap service.
    QuicBootstrap,
}

/// One transport of the pool.
#[derive(Debug, Clone, PartialEq, Eq)]
pub enum TransportConfig {
    /// A direct QUIC transport.
    Quic,
    /// A QUIC transport wrapped by a remote proxy client.
    Proxy { proxy_url: String },
}

/// The peer network settings.
#[derive(Debug, Clone, PartialEq, Eq)]
pub struct NetworkConfig {
    pub bootstrap_service: Option<String>,
    pub network_type: NetworkType,
    pub transport_pool: Vec<TransportConfig>,
}

/// The conductor configuration that start uses.
#[derive(Debug, Clone, PartialEq, Eq)]
pub struct ConductorSettings {
    pub environment_path: String,
    pub admin_interfaces_enabled: bool,
    pub network: Option<NetworkConfig>,
}

/// The settings synthesized from the switches of `local`.
pub open spec fn synthesized(local: LocalConductorConfig, r: ConductorSettings) -> bool {
    &&& r.environment_path == local.conductor_path
    &&& !r.admin_interfaces_enabled
    &&& r.network is Some
    &&& r.network->0.bootstrap_service == if local.use_bootstrap {
        Some(local.bootstrap_url)
    } else {
        None
    }
    &&& r.network->0.network_type == if local.use_mdns {
        NetworkType::QuicMdns
    } else {
        NetworkType::QuicBootstrap
    }
    &&& r.network->0.transport_pool@ == if local.use_proxy {
        seq![TransportConfig::Proxy { proxy_url: local.proxy_url }]
    } else {
        seq![TransportConfig::Quic]
    }
}

/// Makes the conductor settings from the switches and addresses of `local`:
/// admin interfaces off, storage at the conductor path, a bootstrap service
/// only when asked for, local-network or bootstrap discovery, and a single
/// transport that is proxied or direct.
pub fn synthesize_config(local: &LocalConductorConfig) -> (r: ConductorSettings)
    ensures
        synthesized(*local, r),
{
    let bootstrap_service = if local.use_bootstrap {
        Some(local.bootstrap_url.clone())
    } else {
        None
    };
    let network_type = if local.use_mdns {
        NetworkType::QuicMdns
    } else {
        NetworkType::QuicBootstrap
    };
    let mut transport_pool: Vec<TransportConfig> = Vec::new();
    if local.use_proxy {
        transport_pool.push(TransportConfig::Proxy { proxy_url: local.proxy_url.clone() });
    } else {
        transport_pool.push(TransportConfig::Quic);
    }
    let r = ConductorSettings {
        environment_path: local.conductor_path.clone(),
        admin_interfaces_enabled: false,
        network: Some(NetworkConfig { bootstrap_service, network_type, transport_pool }),
    };
    assert(r.network->0.transport_pool@ =~= if local.use_proxy {
        seq![TransportConfig::Proxy { proxy_url: local.proxy_url }]
    } else {
        seq![TransportConfig::Quic]
    });
    r
}

/// The settings to start with: the persisted document when there is one,
/// else those synthesized from `local`.
pub fn resolve_config(local: &LocalConductorConfig, persisted: Option<ConductorSettings>) -> (r:
    ConductorSettings)
    ensures
        match persisted {
            Some(p) => r == p,
            None => synthesized(*local, r),
        },
{
    match persisted {
        Some(p) => p,
        None => synthesize_config(local),
    }
}

/// With no persisted document and every switch off, the conductor gets no
/// bootstrap service, bootstrap-style discovery and one direct transport.
pub proof fn lemma_switches_off_is_direct(
    local: LocalConductorConfig,
    persisted: Option<ConductorSettings>,
    r: ConductorSettings,
)
    requires
        persisted is None,
        !local.use_bootstrap,
        !local.use_proxy,
        !local.use_mdns,
        match persisted {
            Some(p) => r == p,
            None => synthesized(local, r),
        },
    ensures
        r.network is Some,
        r.network->0.bootstrap_service is None,
        r.network->0.network_type == NetworkType::QuicBootstrap,
        r.network->0.transport_pool@ == seq![TransportConfig::Quic],
{
}

} // verus!
