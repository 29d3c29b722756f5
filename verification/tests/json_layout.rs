use self_cmd::json::{outbounds_json, stream_json, Json};
use self_cmd::v2fly::{decode_link, outbounds_list, Link, ParsedLink, VMessConfig};
use serde_json::Value;

fn to_value(j: &Json) -> Value {
    match j {
        Json::Null => Value::Null,
        Json::Bool(b) => Value::Bool(*b),
        Json::Int(n) => Value::from(*n),
        Json::Str(s) => Value::String(s.clone()),
        Json::Array(a) => Value::Array(a.iter().map(to_value).collect()),
        Json::Object(f) => Value::Object(f.iter().map(|(k, v)| (k.clone(), to_value(v))).collect()),
    }
}

fn vmess_config() -> VMessConfig {
    VMessConfig {
        v: "2".into(),
        ps: "hk".into(),
        add: "1.2.3.4".into(),
        port: "443".into(),
        id: "uid".into(),
        aid: "0".into(),
        net: "ws".into(),
        typ: "none".into(),
        host: "cdn.example".into(),
        path: "/v".into(),
        tls: "tls".into(),
        sni: "".into(),
    }
}

#[test]
fn vmess_json_layout() {
    let j = outbounds_json(&vmess_config().to_v2fly_outbounds_json());
    let expected: Value = serde_json::from_str(r#"{
        "remarks": "hk",
        "outbounds": [{
            "settings": {"vnext": [{"address": "1.2.3.4", "port": 443,
                "users": [{"id": "uid", "level": 8, "security": "auto", "encryption": "auto"}]}]},
            "streamSettings": {"network": "ws", "security": "tls",
                "tlsSettings": {"serverName": "cdn.example", "allowInsecure": false},
                "wsSettings": {"headers": {"host": "cdn.example"}, "path": "/v"}},
            "protocol": "vmess",
            "tag": "proxy",
            "mux": {"enabled": false, "concurrency": 8}
        }]
    }"#).unwrap();
    assert_eq!(to_value(&j), expected);
}

#[test]
fn vless_json_layout() {
    let d = match decode_link("vless://u@h.example:8443?host=c.example&security=xtls&flow=f#r") {
        Ok(Link::Vless(_, d)) => d,
        _ => panic!("expected a vless link"),
    };
    let expected: Value = serde_json::from_str(r#"{
        "remark": "r",
        "outbounds": [{
            "settings": {"vnext": [{"address": "h.example", "port": 8443,
                "users": [{"id": "u", "level": 8, "security": "auto", "encryption": "auto", "flow": "f"}]}]},
            "stream_settings": {"network": "tcp", "security": "xtls",
                "xtlsSettings": {"serverName": "c.example", "allowInsecure": false}},
            "protocol": "vless",
            "tag": "proxy",
            "mux": {"enabled": false, "concurrency": 8}
        }]
    }"#).unwrap();
    assert_eq!(to_value(&outbounds_json(&d)), expected);
}

#[test]
fn stream_json_without_ws() {
    let c = VMessConfig { net: "tcp".into(), ..vmess_config() };
    let s = c.to_v2fly_outbounds_json().outbounds.stream_setting;
    let expected: Value = serde_json::from_str(
        r#"{"network": "tcp", "security": "tls", "tlsSettings": {"serverName": "cdn.example", "allowInsecure": false}}"#,
    ).unwrap();
    assert_eq!(to_value(&stream_json(&s)), expected);
}

#[test]
fn list_skips_other_lines_and_keeps_order() {
    let vless = match decode_link("vless://u@h.example:1?host=c&serverName=sn") {
        Ok(Link::Vless(n, d)) => (n, d),
        _ => panic!("expected a vless link"),
    };
    let links = vec![
        ParsedLink::Unsupported,
        ParsedLink::Vmess(vmess_config()),
        ParsedLink::Unsupported,
        ParsedLink::Vless(vless.0, vless.1),
    ];
    let list = outbounds_list(&links);
    assert_eq!(list.len(), 2);
    assert_eq!(list[0].0, "hk");
    assert_eq!(to_value(&list[0].1)["outbounds"][0]["protocol"], "vmess");
    assert_eq!(list[1].0, "sn");
    assert_eq!(to_value(&list[1].1)["outbounds"][0]["protocol"], "vless");
    assert!(outbounds_list(&vec![ParsedLink::Unsupported]).is_empty());
}
