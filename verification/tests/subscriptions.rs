use self_cmd::clash::{clash_config_from_subscription, ClashError};
use self_cmd::subscription::{decode_base64_text, decode_subscription, TextDecodeError};
use self_cmd::v2fly::{
    decode_link, decode_links, query_value, stream_transport_setting, vless_v2fly_config, Link, LinkError,
    UrlParts, VMessConfig,
};
use self_cmd::v2fly_config::{Protocol, TlsKind};

fn b64(s: &[u8]) -> String {
    base64::encode(s)
}

#[test]
fn base64_text_decodes() {
    assert_eq!(decode_base64_text("aGVsbG8=").ok(), Some("hello".to_string()));
    assert_eq!(decode_base64_text("").ok(), Some(String::new()));
}

#[test]
fn base64_errors_are_told_apart() {
    assert!(matches!(decode_base64_text("not base64!"), Err(TextDecodeError::Base64(_))));
    assert!(matches!(decode_base64_text("a"), Err(TextDecodeError::Base64(_))));
    assert!(matches!(decode_base64_text("/w=="), Err(TextDecodeError::Utf8(_))));
}

#[test]
fn subscription_lines_are_split_after_trimming() {
    let body = b64(b"vmess://x\nvless://y\nss://z\n\n  \n");
    let lines = decode_subscription(&body).ok().unwrap();
    assert_eq!(lines, vec!["vmess://x", "vless://y", "ss://z"]);
}

#[test]
fn empty_subscription_has_one_empty_line() {
    let lines = decode_subscription(&b64(b" \n")).ok().unwrap();
    assert_eq!(lines, vec![""]);
}

#[test]
fn subscription_with_bad_base64_fails() {
    assert!(matches!(decode_subscription("@@@"), Err(TextDecodeError::Base64(_))));
}

#[test]
fn ws_stream_settings() {
    let s = stream_transport_setting(
        "ws", Some("none"), Some("h.example"), Some("/ray"), None, None, None, None, None,
        "tls", false, Some(""),
    );
    assert_eq!(s.network, "ws");
    assert_eq!(s.security, "tls");
    assert_eq!(s.tls_kind, TlsKind::Tls);
    assert_eq!(s.server_name, "h.example");
    assert!(!s.allow_insecure);
    let ws = s.ws.unwrap();
    assert_eq!(ws.host, "h.example");
    assert_eq!(ws.path, "/ray");
}

#[test]
fn ws_defaults_and_sni() {
    let s = stream_transport_setting(
        "ws", None, None, None, None, None, None, None, None, "xtls", true, Some("sni.example"),
    );
    assert_eq!(s.tls_kind, TlsKind::Xtls);
    assert_eq!(s.server_name, "sni.example");
    assert!(s.allow_insecure);
    let ws = s.ws.unwrap();
    assert_eq!(ws.host, "");
    assert_eq!(ws.path, "/");
}

#[test]
fn tcp_has_no_ws_block() {
    let s = stream_transport_setting(
        "tcp", None, Some("h"), None, None, None, None, None, None, "", false, None,
    );
    assert!(s.ws.is_none());
    assert_eq!(s.tls_kind, TlsKind::Tls);
    assert_eq!(s.server_name, "h");
    assert_eq!(s.security, "");
}

fn vmess(port: &str) -> VMessConfig {
    VMessConfig {
        v: "2".into(),
        ps: "hk-01".into(),
        add: "1.2.3.4".into(),
        port: port.into(),
        id: "uuid-1".into(),
        aid: "0".into(),
        net: "ws".into(),
        typ: "none".into(),
        host: "cdn.example".into(),
        path: "/v".into(),
        tls: "tls".into(),
        sni: "".into(),
    }
}

#[test]
fn vmess_document() {
    let c = vmess("443");
    assert_eq!(c.port_number(), Some(443));
    let d = c.to_v2fly_outbounds_json();
    assert_eq!(d.remark, "hk-01");
    let o = d.outbounds;
    assert_eq!(o.protocol, Protocol::Vmess);
    assert_eq!(o.tag, "proxy");
    assert_eq!(o.settings.address, "1.2.3.4");
    assert_eq!(o.settings.port, 443);
    assert_eq!(o.settings.user.id, "uuid-1");
    assert_eq!(o.settings.user.level, 8);
    assert_eq!(o.settings.user.security, "auto");
    assert_eq!(o.settings.user.encryption, "auto");
    assert!(o.settings.user.flow.is_none());
    assert_eq!(o.stream_setting.network, "ws");
    assert_eq!(o.stream_setting.server_name, "cdn.example");
    assert_eq!(o.stream_setting.ws.unwrap().path, "/v");
    assert!(!o.mux_enabled);
    assert_eq!(o.mux_concurrency, 8);
}

#[test]
fn vmess_port_must_be_a_number() {
    assert_eq!(vmess("44x").port_number(), None);
}

#[test]
fn vmess_link_yields_its_json() {
    let json = r#"{"v":"2","ps":"n"}"#;
    let line = format!("vmess://{}", b64(json.as_bytes()));
    match decode_link(&line) {
        Ok(Link::Vmess(text)) => assert_eq!(text, json),
        _ => panic!("expected a vmess link"),
    }
}

#[test]
fn vmess_link_with_bad_body_fails() {
    assert!(matches!(decode_link("vmess://!!"), Err(LinkError::Text(TextDecodeError::Base64(_)))));
}

#[test]
fn other_links_are_left_aside() {
    assert!(matches!(decode_link("ss://abc"), Ok(Link::Unsupported)));
    assert!(matches!(decode_link(""), Ok(Link::Unsupported)));
}

#[test]
fn vless_link_document() {
    let line = "vless://uuid-2@srv.example:8443?type=ws&host=cdn.example&path=%2Fws&security=tls&serverName=sni.example&flow=xtls-rprx&encryption=none#tokyo";
    match decode_link(line) {
        Ok(Link::Vless(name, d)) => {
            assert_eq!(name, "sni.example");
            assert_eq!(d.remark, "tokyo");
            let o = d.outbounds;
            assert_eq!(o.protocol, Protocol::Vless);
            assert_eq!(o.settings.address, "srv.example");
            assert_eq!(o.settings.port, 8443);
            assert_eq!(o.settings.user.id, "uuid-2");
            assert_eq!(o.settings.user.encryption, "none");
            assert_eq!(o.settings.user.flow.as_deref(), Some("xtls-rprx"));
            assert_eq!(o.stream_setting.network, "ws");
            assert_eq!(o.stream_setting.security, "tls");
            assert_eq!(o.stream_setting.server_name, "cdn.example");
            let ws = o.stream_setting.ws.unwrap();
            assert_eq!(ws.host, "cdn.example");
            assert_eq!(ws.path, "/ws");
        }
        _ => panic!("expected a vless link"),
    }
}

#[test]
fn vless_defaults() {
    match decode_link("vless://u@h.example:1?host=x") {
        Ok(Link::Vless(name, d)) => {
            assert_eq!(name, "");
            assert_eq!(d.remark, "");
            let o = d.outbounds;
            assert_eq!(o.settings.user.encryption, "auto");
            assert_eq!(o.settings.user.flow.as_deref(), Some(""));
            assert_eq!(o.stream_setting.network, "tcp");
            assert_eq!(o.stream_setting.security, "");
            assert!(o.stream_setting.ws.is_none());
        }
        _ => panic!("expected a vless link"),
    }
}

#[test]
fn vless_missing_parts() {
    assert!(matches!(decode_link("vless://u@h.example:1?type=tcp"), Err(LinkError::MissingServerName)));
    assert!(matches!(decode_link("vless://u@h.example?host=x"), Err(LinkError::MissingPort)));
    assert!(matches!(decode_link("vless://[::1"), Err(LinkError::Url(_))));
}

#[test]
fn later_query_pairs_override_earlier_ones() {
    let q = vec![
        ("a".to_string(), "1".to_string()),
        ("b".to_string(), "2".to_string()),
        ("a".to_string(), "3".to_string()),
    ];
    assert_eq!(query_value(&q, "a"), Some("3".to_string()));
    assert_eq!(query_value(&q, "b"), Some("2".to_string()));
    assert_eq!(query_value(&q, "c"), None);
}

#[test]
fn vless_from_parts() {
    let url = UrlParts {
        username: "id".into(),
        host: Some("h".into()),
        port: Some(65535),
        fragment: None,
        query: vec![("host".into(), "cdn".into()), ("type".into(), "grpc".into())],
    };
    let (name, d) = vless_v2fly_config(&url);
    assert_eq!(name, "");
    assert_eq!(d.outbounds.settings.port, 65535);
    assert_eq!(d.outbounds.stream_setting.network, "grpc");
    assert_eq!(d.outbounds.stream_setting.server_name, "cdn");
}

#[test]
fn clash_keeps_three_sections() {
    let yaml = "port: 7890\nproxies:\n  - name: a\nproxy-groups:\n  - name: g\nrules:\n  - MATCH,DIRECT\n";
    let out = clash_config_from_subscription(&b64(yaml.as_bytes())).ok().unwrap();
    let back: std::collections::BTreeMap<String, serde_yaml::Value> = serde_yaml::from_str(&out).unwrap();
    let keys: Vec<&String> = back.keys().collect();
    assert_eq!(keys, vec!["proxies", "proxy-groups", "rules"]);
    assert_eq!(back["rules"], serde_yaml::from_str::<serde_yaml::Value>("[\"MATCH,DIRECT\"]").unwrap());
}

#[test]
fn clash_missing_section() {
    let yaml = "proxies: []\nrules: []\n";
    match clash_config_from_subscription(&b64(yaml.as_bytes())) {
        Err(ClashError::MissingSection(s)) => assert_eq!(s, "proxy-groups"),
        _ => panic!("expected a missing section"),
    }
}

#[test]
fn clash_errors() {
    assert!(matches!(clash_config_from_subscription("%%"), Err(ClashError::Text(_))));
    assert!(matches!(clash_config_from_subscription(&b64(b"- a\n- b\n")), Err(ClashError::Yaml(_))));
}

#[test]
fn links_line_up_and_stop_at_the_first_bad_one() {
    let json = r#"{"ps":"n"}"#;
    let lines = vec![
        format!("vmess://{}", b64(json.as_bytes())),
        "ss://x".to_string(),
        "vless://u@h.example:1?host=c".to_string(),
        "vmess://!!".to_string(),
        "vmess://also-never-read".to_string(),
    ];
    let links = decode_links(&lines);
    assert_eq!(links.len(), 4);
    assert!(matches!(&links[0], Ok(Link::Vmess(t)) if t == json));
    assert!(matches!(links[1], Ok(Link::Unsupported)));
    assert!(matches!(links[2], Ok(Link::Vless(_, _))));
    assert!(matches!(links[3], Err(LinkError::Text(_))));
}

#[test]
fn links_of_good_lines_are_all_read() {
    let lines = vec!["a".to_string(), "b".to_string()];
    let links = decode_links(&lines);
    assert_eq!(links.len(), 2);
    assert!(links.iter().all(|l| matches!(l, Ok(Link::Unsupported))));
    assert!(decode_links(&vec![]).is_empty());
}

#[test]
fn clash_output_lists_sections_in_order_with_their_values() {
    let yaml = "rules:\n  - MATCH,DIRECT\nmode: rule\nproxy-groups:\n  - name: g\n    type: select\nproxies:\n  - name: a\n    port: 443\n";
    let out = clash_config_from_subscription(&b64(yaml.as_bytes())).ok().unwrap();
    let p = out.find("proxies:").unwrap();
    let g = out.find("proxy-groups:").unwrap();
    let r = out.find("rules:").unwrap();
    assert!(p < g && g < r);
    assert!(!out.contains("mode"));
    let input: std::collections::BTreeMap<String, serde_yaml::Value> = serde_yaml::from_str(yaml).unwrap();
    let back: std::collections::BTreeMap<String, serde_yaml::Value> = serde_yaml::from_str(&out).unwrap();
    for k in ["proxies", "proxy-groups", "rules"] {
        assert_eq!(back[k], input[k]);
    }
}
