use vstd::prelude::*;

verus! {

/// The user entry of a `vnext` server.
pub struct User {
    pub id: String,
    pub level: u32,
    pub security: String,
    pub encryption: String,
    /// Present for vless outbounds only.
    pub flow: Option<String>,
}

/// The one server of an outbound's `vnext` list.
pub struct VNext {
    pub address: String,
    pub port: i32,
    pub user: User,
}

/// Which key the TLS block of the stream settings is written under:
/// `tlsSettings` or `xtlsSettings`.
#[derive(PartialEq, Eq, Structural, Clone, Copy, Debug)]
pub enum TlsKind {
    Tls,
    Xtls,
}

/// The `wsSettings` block of a websocket transport.
pub struct WsSettings {
    pub host: String,
    pub path: String,
}

/// The stream settings of an outbound: network, security, the TLS block
/// and, for websocket transports, the websocket block.
pub struct StreamSettings {
    pub network: String,
    pub security: String,
    pub tls_kind: TlsKind,
    pub server_name: String,
    pub allow_insecure: bool,
    pub ws: Option<WsSettings>,
}

/// The protocol of an outbound.
#[derive(PartialEq, Eq, Structural, Clone, Copy, Debug)]
pub enum Protocol {
    Vmess,
    Vless,
}

/// One outbound of a v2fly configuration.
pub struct Outbounds {
    pub protocol: Protocol,
    pub tag: String,
    pub settings: VNext,
    pub stream_setting: StreamSettings,
    pub mux_enabled: bool,
    pub mux_concurrency: u32,
}

/// A v2fly outbounds document: a remark and its single outbound.
pub struct V2flyConfig {
    pub remark: String,
    pub outbounds: Outbounds,
}

} // verus!
