use vless_config::config::{build_config, RuntimeConfig, SecurityMode};
use vless_config::descriptor::{
    descriptor_from_parts, has_prefix, parse_config, tag_from_fragment, ConnectionDescriptor,
    ErrorKind,
};
use vless_config::url_parts::UrlComponents;
use vless_config::params::ParamMap;
use vless_config::persist::{check_destination, temp_path_for};

const EXAMPLE: &str = "vless://11111111-2222-3333-4444-555555555555@example.com:443?type=tcp&security=tls&sni=cdn.example.com#MyServer";

fn parse_ok(link: &str) -> ConnectionDescriptor {
    match parse_config(link) {
        Ok(d) => d,
        Err(e) => panic!("unexpected failure {:?}", e),
    }
}

fn parse_err(link: &str) -> ErrorKind {
    match parse_config(link) {
        Ok(d) => panic!("unexpected success {:?}", d),
        Err(e) => e.kind(),
    }
}

fn build(link: &str) -> RuntimeConfig {
    build_config(&parse_ok(link))
}

#[test]
fn end_to_end_tls_example() {
    let c = build(EXAMPLE);
    assert_eq!(c.inbounds.len(), 1);
    assert_eq!(c.outbounds.len(), 1);
    let o = &c.outbounds[0];
    assert_eq!(o.tag, "MyServer");
    assert_eq!(o.protocol, "vless");
    assert_eq!(o.vnext.len(), 1);
    assert_eq!(o.vnext[0].address, "example.com");
    assert_eq!(o.vnext[0].port, 443);
    assert_eq!(o.vnext[0].users.len(), 1);
    let u = &o.vnext[0].users[0];
    assert_eq!(u.id, "11111111-2222-3333-4444-555555555555");
    assert_eq!(u.encryption, "none");
    assert_eq!(u.level, 0);
    assert!(u.flow.is_none());
    assert_eq!(o.stream_settings.network, "tcp");
    assert_eq!(o.stream_settings.security, "tls");
    match &o.stream_settings.mode {
        SecurityMode::Tls(t) => {
            assert_eq!(t.server_name, "cdn.example.com");
            assert!(!t.allow_insecure);
        }
        other => panic!("expected tls settings, got {:?}", other),
    }
}

#[test]
fn http_scheme_is_rejected() {
    let link = EXAMPLE.replacen("vless://", "http://", 1);
    assert_eq!(parse_err(&link), ErrorKind::InvalidScheme);
}

#[test]
fn missing_identity_is_rejected() {
    assert_eq!(parse_err("vless://@example.com:443?type=tcp"), ErrorKind::MissingIdentity);
}

#[test]
fn missing_port_is_rejected() {
    assert_eq!(parse_err("vless://abc@example.com?type=tcp"), ErrorKind::MissingPort);
}

#[test]
fn malformed_url_is_rejected() {
    assert_eq!(parse_err("vless://abc@example.com:99999"), ErrorKind::MalformedUrl);
}

#[test]
fn fixed_inbound() {
    let c = build(EXAMPLE);
    let i = &c.inbounds[0];
    assert_eq!(i.port, 10808);
    assert_eq!(i.protocol, "socks");
    assert_eq!(i.auth, "noauth");
    assert!(i.udp);
    assert_eq!(i.tag, "socks-in");
}

#[test]
fn descriptor_fields() {
    let d = parse_ok("vless://user-1@srv.example.org:8443?type=ws&x=y#Label");
    assert_eq!(d.identity, "user-1");
    assert_eq!(d.host, "srv.example.org");
    assert_eq!(d.port, 8443);
    assert_eq!(d.tag, "Label");
    assert_eq!(d.params.get("type"), Some("ws".to_string()));
    assert_eq!(d.params.get("x"), Some("y".to_string()));
    assert_eq!(d.params.get("security"), None);
}

#[test]
fn default_tag_without_fragment() {
    let d = parse_ok("vless://abc@example.com:443");
    assert_eq!(d.tag, "VLESS-Config");
}

#[test]
fn fragment_is_percent_decoded() {
    let d = parse_ok("vless://abc@example.com:443#My%20Server");
    assert_eq!(d.tag, "My Server");
}

#[test]
fn repeated_parameter_last_wins() {
    let c = build("vless://abc@example.com:443?type=ws&type=grpc");
    assert_eq!(c.outbounds[0].stream_settings.network, "grpc");
}

#[test]
fn defaults_without_parameters() {
    let c = build("vless://abc@example.com:443");
    let s = &c.outbounds[0].stream_settings;
    assert_eq!(s.network, "tcp");
    assert_eq!(s.security, "tls");
    match &s.mode {
        SecurityMode::Tls(t) => assert_eq!(t.server_name, "example.com"),
        other => panic!("expected tls settings, got {:?}", other),
    }
}

#[test]
fn reality_mode_block() {
    let c = build("vless://abc@example.com:443?security=reality&pbk=PUBKEY&sni=www.site.com&sid=ab12&fp=firefox");
    let s = &c.outbounds[0].stream_settings;
    assert_eq!(s.security, "reality");
    match &s.mode {
        SecurityMode::Reality(r) => {
            assert_eq!(r.public_key, "PUBKEY");
            assert_eq!(r.password, "PUBKEY");
            assert_eq!(r.fingerprint, "firefox");
            assert_eq!(r.server_name, "www.site.com");
            assert_eq!(r.short_id, "ab12");
            assert_eq!(r.spider_x, "/");
        }
        other => panic!("expected reality settings, got {:?}", other),
    }
}

#[test]
fn reality_mode_defaults() {
    let c = build("vless://abc@example.com:443?security=reality");
    match &c.outbounds[0].stream_settings.mode {
        SecurityMode::Reality(r) => {
            assert_eq!(r.public_key, "");
            assert_eq!(r.password, "");
            assert_eq!(r.fingerprint, "chrome");
            assert_eq!(r.server_name, "");
            assert_eq!(r.short_id, "");
            assert_eq!(r.spider_x, "/");
        }
        other => panic!("expected reality settings, got {:?}", other),
    }
}

#[test]
fn other_security_mode_has_no_block() {
    let c = build("vless://abc@example.com:443?security=none&type=ws");
    let s = &c.outbounds[0].stream_settings;
    assert_eq!(s.security, "none");
    assert_eq!(s.network, "ws");
    assert!(matches!(s.mode, SecurityMode::Other));
}

#[test]
fn flow_present_only_when_given() {
    let with = build("vless://abc@example.com:443?flow=xtls-rprx-vision");
    assert_eq!(with.outbounds[0].vnext[0].users[0].flow, Some("xtls-rprx-vision".to_string()));
    let without = build("vless://abc@example.com:443");
    assert_eq!(without.outbounds[0].vnext[0].users[0].flow, None);
}

#[test]
fn building_twice_gives_the_same_config() {
    let d = parse_ok("vless://abc@example.com:443?security=reality&pbk=K&flow=f#T");
    let a = build_config(&d);
    let b = build_config(&d);
    assert_eq!(format!("{:?}", a), format!("{:?}", b));
}

#[test]
fn destination_check() {
    assert!(check_destination(false, false).is_ok());
    assert!(check_destination(false, true).is_ok());
    assert!(check_destination(true, true).is_ok());
    match check_destination(true, false) {
        Err(e) => assert_eq!(e.kind(), ErrorKind::DestinationExists),
        Ok(()) => panic!("existing file must not be overwritten without force"),
    }
}

#[test]
fn temp_path_is_sibling() {
    assert_eq!(temp_path_for("out/config.json"), "out/config.json.tmp");
}

#[test]
fn prefix_check() {
    assert!(has_prefix("vless://x", "vless://"));
    assert!(!has_prefix("vless:/", "vless://"));
    assert!(!has_prefix("VLESS://x", "vless://"));
    assert!(has_prefix("abc", ""));
}

#[test]
fn param_map_insert_replaces() {
    let mut m = ParamMap::new();
    assert_eq!(m.get("a"), None);
    m.insert("a".to_string(), "1".to_string());
    m.insert("b".to_string(), "2".to_string());
    m.insert("a".to_string(), "3".to_string());
    assert_eq!(m.get("a"), Some("3".to_string()));
    assert_eq!(m.get("b"), Some("2".to_string()));
    assert_eq!(m.get_or("c", "dflt"), "dflt");
    let p = ParamMap::from_pairs(vec![("k".to_string(), "v1".to_string()), ("k".to_string(), "v2".to_string())]);
    assert_eq!(p.get("k"), Some("v2".to_string()));
}

fn parts(username: &str, host: Option<&str>, port: Option<u16>) -> UrlComponents {
    UrlComponents {
        username: username.to_string(),
        host: host.map(|h| h.to_string()),
        port,
        query: vec![("sni".to_string(), "a".to_string()), ("sni".to_string(), "b".to_string())],
        fragment: Some("Tag%21".to_string()),
    }
}

#[test]
fn parts_missing_host() {
    match descriptor_from_parts(parts("u", None, Some(443))) {
        Err(e) => assert_eq!(e.kind(), ErrorKind::MissingHost),
        Ok(d) => panic!("unexpected success {:?}", d),
    }
}

#[test]
fn parts_missing_identity_before_port() {
    match descriptor_from_parts(parts("", Some("h"), None)) {
        Err(e) => assert_eq!(e.kind(), ErrorKind::MissingIdentity),
        Ok(d) => panic!("unexpected success {:?}", d),
    }
}

#[test]
fn parts_complete() {
    let d = match descriptor_from_parts(parts("u", Some("h.example"), Some(8443))) {
        Ok(d) => d,
        Err(e) => panic!("unexpected failure {:?}", e),
    };
    assert_eq!(d.identity, "u");
    assert_eq!(d.host, "h.example");
    assert_eq!(d.port, 8443);
    assert_eq!(d.tag, "Tag!");
    assert_eq!(d.params.get("sni"), Some("b".to_string()));
}

#[test]
fn tag_from_missing_fragment() {
    assert_eq!(tag_from_fragment(None), "VLESS-Config");
    assert_eq!(tag_from_fragment(Some("a%2Fb".to_string())), "a/b");
}
