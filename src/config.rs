use crate::descriptor::{ConnectionDescriptor, DescriptorModel};
use crate::params::{lookup, lookup_or, opt_view};
use vstd::prelude::*;

verus! {

// Parameter names read from a link.
pub const KEY_TYPE: &'static str = "type";
pub const KEY_SECURITY: &'static str = "security";
pub const KEY_PBK: &'static str = "pbk";
pub const KEY_SNI: &'static str = "sni";
pub const KEY_FP: &'static str = "fp";
pub const KEY_SID: &'static str = "sid";
pub const KEY_FLOW: &'static str = "flow";

// Values used where a link leaves a parameter out, and the fixed literals.
pub const DEFAULT_NETWORK: &'static str = "tcp";
pub const DEFAULT_SECURITY: &'static str = "tls";
pub const DEFAULT_FINGERPRINT: &'static str = "chrome";
pub const MODE_REALITY: &'static str = "reality";
pub const MODE_TLS: &'static str = "tls";
pub const SPIDER_X: &'static str = "/";
pub const ENCRYPTION_NONE: &'static str = "none";
pub const PROTOCOL_VLESS: &'static str = "vless";
pub const PROTOCOL_SOCKS: &'static str = "socks";
pub const SOCKS_PORT: u16 = 10808;
pub const SOCKS_AUTH: &'static str = "noauth";
pub const SOCKS_TAG: &'static str = "socks-in";

/// The local listener that every configuration offers.
#[derive(Debug)]
pub struct Inbound {
    pub port: u16,
    pub protocol: String,
    pub auth: String,
    pub udp: bool,
    pub tag: String,
}

pub struct InboundModel {
    pub port: u16,
    pub protocol: Seq<char>,
    pub auth: Seq<char>,
    pub udp: bool,
    pub tag: Seq<char>,
}

impl View for Inbound {
    type V = InboundModel;

    open spec fn view(&self) -> InboundModel {
        InboundModel {
            port: self.port,
            protocol: self.protocol@,
            auth: self.auth@,
            udp: self.udp,
            tag: self.tag@,
        }
    }
}

/// The user entry of a server.
#[derive(Debug)]
pub struct User {
    pub id: String,
    pub encryption: String,
    pub level: u32,
    pub flow: Option<String>,
}

pub struct UserModel {
    pub id: Seq<char>,
    pub encryption: Seq<char>,
    pub level: u32,
    pub flow: Option<Seq<char>>,
}

impl View for User {
    type V = UserModel;

    open spec fn view(&self) -> UserModel {
        UserModel {
            id: self.id@,
            encryption: self.encryption@,
            level: self.level,
            flow: opt_view(self.flow),
        }
    }
}

/// One server that the outbound may connect to.
#[derive(Debug)]
pub struct NextHop {
    pub address: String,
    pub port: u16,
    pub users: Vec<User>,
}

pub struct NextHopModel {
    pub address: Seq<char>,
    pub port: u16,
    pub users: Seq<UserModel>,
}

impl View for NextHop {
    type V = NextHopModel;

    open spec fn view(&self) -> NextHopModel {
        NextHopModel {
            address: self.address@,
            port: self.port,
            users: self.users@.map_values(|u: User| u@),
        }
    }
}

/// The settings of the `reality` security mode.
#[derive(Debug)]
pub struct RealitySettings {
    pub public_key: String,
    pub password: String,
    pub fingerprint: String,
    pub server_name: String,
    pub short_id: String,
    pub spider_x: String,
}

pub struct RealityModel {
    pub public_key: Seq<char>,
    pub password: Seq<char>,
    pub fingerprint: Seq<char>,
    pub server_name: Seq<char>,
    pub short_id: Seq<char>,
    pub spider_x: Seq<char>,
}

impl View for RealitySettings {
    type V = RealityModel;

    open spec fn view(&self) -> RealityModel {
        RealityModel {
            public_key: self.public_key@,
            password: self.password@,
            fingerprint: self.fingerprint@,
            server_name: self.server_name@,
            short_id: self.short_id@,
            spider_x: self.spider_x@,
        }
    }
}

/// The settings of the `tls` security mode.
#[derive(Debug)]
pub struct TlsSettings {
    pub server_name: String,
    pub allow_insecure: bool,
}

pub struct TlsModel {
    pub server_name: Seq<char>,
    pub allow_insecure: bool,
}

impl View for TlsSettings {
    type V = TlsModel;

    open spec fn view(&self) -> TlsModel {
        TlsModel { server_name: self.server_name@, allow_insecure: self.allow_insecure }
    }
}

/// The block that a security mode adds to the stream settings: one per
/// known mode, none for any other.
#[derive(Debug)]
pub enum SecurityMode {
    Reality(RealitySettings),
    Tls(TlsSettings),
    Other,
}

pub enum SecurityModeModel {
    Reality(RealityModel),
    Tls(TlsModel),
    Other,
}

impl View for SecurityMode {
    type V = SecurityModeModel;

    open spec fn view(&self) -> SecurityModeModel {
        match self {
            SecurityMode::Reality(r) => SecurityModeModel::Reality(r@),
            SecurityMode::Tls(t) => SecurityModeModel::Tls(t@),
            SecurityMode::Other => SecurityModeModel::Other,
        }
    }
}

/// Transport and security of the outbound connection.
#[derive(Debug)]
pub struct StreamSettings {
    pub network: String,
    pub security: String,
    pub mode: SecurityMode,
}

pub struct StreamModel {
    pub network: Seq<char>,
    pub security: Seq<char>,
    pub mode: SecurityModeModel,
}

impl View for StreamSettings {
    type V = StreamModel;

    open spec fn view(&self) -> StreamModel {
        StreamModel { network: self.network@, security: self.security@, mode: self.mode@ }
    }
}

/// The connection to the server that a link describes.
#[derive(Debug)]
pub struct Outbound {
    pub protocol: String,
    pub vnext: Vec<NextHop>,
    pub stream_settings: StreamSettings,
    pub tag: String,
}

pub struct OutboundModel {
    pub protocol: Seq<char>,
    pub vnext: Seq<NextHopModel>,
    pub stream_settings: StreamModel,
    pub tag: Seq<char>,
}

impl View for Outbound {
    type V = OutboundModel;

    open spec fn view(&self) -> OutboundModel {
        OutboundModel {
            protocol: self.protocol@,
            vnext: self.vnext@.map_values(|h: NextHop| h@),
            stream_settings: self.stream_settings@,
            tag: self.tag@,
        }
    }
}

/// A runtime configuration: its listeners and its outbound connections.
#[derive(Debug)]
pub struct RuntimeConfig {
    pub inbounds: Vec<Inbound>,
    pub outbounds: Vec<Outbound>,
}

pub struct RuntimeConfigModel {
    pub inbounds: Seq<InboundModel>,
    pub outbounds: Seq<OutboundModel>,
}

impl View for RuntimeConfig {
    type V = RuntimeConfigModel;

    open spec fn view(&self) -> RuntimeConfigModel {
        RuntimeConfigModel {
            inbounds: self.inbounds@.map_values(|i: Inbound| i@),
            outbounds: self.outbounds@.map_values(|o: Outbound| o@),
        }
    }
}

/// The security block for mode `security` of descriptor `d`.
pub open spec fn mode_model(d: DescriptorModel, security: Seq<char>) -> SecurityModeModel {
    let p = d.params;
    if security == MODE_REALITY@ {
        let pbk = lookup_or(p, KEY_PBK@, Seq::empty());
        SecurityModeModel::Reality(
            RealityModel {
                public_key: pbk,
                password: pbk,
                fingerprint: lookup_or(p, KEY_FP@, DEFAULT_FINGERPRINT@),
                server_name: lookup_or(p, KEY_SNI@, Seq::empty()),
                short_id: lookup_or(p, KEY_SID@, Seq::empty()),
                spider_x: SPIDER_X@,
            },
        )
    } else if security == MODE_TLS@ {
        SecurityModeModel::Tls(
            TlsModel { server_name: lookup_or(p, KEY_SNI@, d.host), allow_insecure: false },
        )
    } else {
        SecurityModeModel::Other
    }
}

/// The security mode that descriptor `d` asks for.
pub open spec fn security_of(d: DescriptorModel) -> Seq<char> {
    lookup_or(d.params, KEY_SECURITY@, DEFAULT_SECURITY@)
}

pub open spec fn stream_model(d: DescriptorModel) -> StreamModel {
    StreamModel {
        network: lookup_or(d.params, KEY_TYPE@, DEFAULT_NETWORK@),
        security: security_of(d),
        mode: mode_model(d, security_of(d)),
    }
}

pub open spec fn user_model(d: DescriptorModel) -> UserModel {
    UserModel {
        id: d.identity,
        encryption: ENCRYPTION_NONE@,
        level: 0,
        flow: lookup(d.params, KEY_FLOW@),
    }
}

pub open spec fn outbound_model(d: DescriptorModel) -> OutboundModel {
    OutboundModel {
        protocol: PROTOCOL_VLESS@,
        vnext: seq![NextHopModel { address: d.host, port: d.port, users: seq![user_model(d)] }],
        stream_settings: stream_model(d),
        tag: d.tag,
    }
}

pub open spec fn inbound_model() -> InboundModel {
    InboundModel {
        port: SOCKS_PORT,
        protocol: PROTOCOL_SOCKS@,
        auth: SOCKS_AUTH@,
        udp: true,
        tag: SOCKS_TAG@,
    }
}

/// The configuration built from descriptor `d`.
pub open spec fn build_model(d: DescriptorModel) -> RuntimeConfigModel {
    RuntimeConfigModel { inbounds: seq![inbound_model()], outbounds: seq![outbound_model(d)] }
}

fn str_of(s: &str) -> (r: String)
    ensures
        r@ == s@,
{
    String::from_str(s)
}

/// The security block for mode `security` of the descriptor.
pub fn build_security_mode(d: &ConnectionDescriptor, security: &String) -> (r: SecurityMode)
    ensures
        r@ == mode_model(d@, security@),
{
    if *security == str_of(MODE_REALITY) {
        let pbk = d.params.get_or(KEY_PBK, "");
        proof {
            reveal_strlit("");
            assert(""@ =~= Seq::<char>::empty());
        }
        let password = pbk.clone();
        SecurityMode::Reality(
            RealitySettings {
                public_key: pbk,
                password,
                fingerprint: d.params.get_or(KEY_FP, DEFAULT_FINGERPRINT),
                server_name: d.params.get_or(KEY_SNI, ""),
                short_id: d.params.get_or(KEY_SID, ""),
                spider_x: str_of(SPIDER_X),
            },
        )
    } else if *security == str_of(MODE_TLS) {
        let server_name = match d.params.get(KEY_SNI) {
            Some(v) => v,
            None => d.host.clone(),
        };
        SecurityMode::Tls(TlsSettings { server_name, allow_insecure: false })
    } else {
        SecurityMode::Other
    }
}

/// Builds the configuration for a descriptor: one fixed local listener and
/// one outbound connection whose shape follows the security mode.
pub fn build_config(d: &ConnectionDescriptor) -> (r: RuntimeConfig)
    ensures
        r@ == build_model(d@),
        r.inbounds.len() == 1,
        r.outbounds.len() == 1,
{
    let network = d.params.get_or(KEY_TYPE, DEFAULT_NETWORK);
    let security = d.params.get_or(KEY_SECURITY, DEFAULT_SECURITY);
    let mode = build_security_mode(d, &security);
    let stream_settings = StreamSettings { network, security, mode };
    let user = User {
        id: d.identity.clone(),
        encryption: str_of(ENCRYPTION_NONE),
        level: 0,
        flow: d.params.get(KEY_FLOW),
    };
    let hop = NextHop { address: d.host.clone(), port: d.port, users: vec![user] };
    assert(hop.users@.map_values(|u: User| u@) =~= seq![user_model(d@)]);
    let outbound = Outbound {
        protocol: str_of(PROTOCOL_VLESS),
        vnext: vec![hop],
        stream_settings,
        tag: d.tag.clone(),
    };
    let inbound = Inbound {
        port: SOCKS_PORT,
        protocol: str_of(PROTOCOL_SOCKS),
        auth: str_of(SOCKS_AUTH),
        udp: true,
        tag: str_of(SOCKS_TAG),
    };
    let r = RuntimeConfig { inbounds: vec![inbound], outbounds: vec![outbound] };
    assert(r@.inbounds =~= seq![inbound_model()]);
    assert(r.outbounds@[0].vnext@.map_values(|h: NextHop| h@) =~= outbound_model(d@).vnext);
    assert(r@.outbounds =~= seq![outbound_model(d@)]);
    r
}

} // verus!
