use vstd::prelude::*;
use crate::v2fly_config::{Protocol, StreamSettings, TlsKind, V2flyConfig};

verus! {

/// A JSON value; an object lists its members in order.
pub enum Json {
    Null,
    Bool(bool),
    Int(i64),
    Str(String),
    Array(Vec<Json>),
    Object(Vec<(String, Json)>),
}

/// Whether `j` is the string `s`.
pub open spec fn str_is(j: Json, s: Seq<char>) -> bool {
    j matches Json::Str(x) && x@ == s
}

/// Whether `j` is the integer `n`.
pub open spec fn int_is(j: Json, n: int) -> bool {
    j matches Json::Int(x) && x == n
}

/// Whether `j` is the boolean `b`.
pub open spec fn bool_is(j: Json, b: bool) -> bool {
    j matches Json::Bool(x) && x == b
}

/// Whether `j` is an object whose members have exactly these keys, in order.
pub open spec fn keys_are(j: Json, keys: Seq<Seq<char>>) -> bool {
    j matches Json::Object(f) && f@.len() == keys.len() && forall|i: int|
        0 <= i < keys.len() ==> (#[trigger] f@[i]).0@ == keys[i]
}

/// Whether `j` is an array of one element.
pub open spec fn single(j: Json) -> bool {
    j matches Json::Array(a) && a@.len() == 1
}

/// The value of member `i` of an object, or element `i` of an array.
pub open spec fn at(j: Json, i: int) -> Json {
    match j {
        Json::Object(f) => f@[i].1,
        Json::Array(a) => a@[i],
        _ => Json::Null,
    }
}

/// The key under which the TLS block of the stream settings stands.
pub open spec fn tls_key(kind: TlsKind) -> Seq<char> {
    match kind {
        TlsKind::Tls => "tlsSettings"@,
        TlsKind::Xtls => "xtlsSettings"@,
    }
}

/// The JSON layout of stream settings: network, security, the TLS block and,
/// for websocket transports, the websocket block.
pub open spec fn stream_json_is(j: Json, s: StreamSettings) -> bool {
    let tls = at(j, 2);
    &&& keys_are(j, if s.ws is Some {
        seq!["network"@, "security"@, tls_key(s.tls_kind), "wsSettings"@]
    } else {
        seq!["network"@, "security"@, tls_key(s.tls_kind)]
    })
    &&& str_is(at(j, 0), s.network@)
    &&& str_is(at(j, 1), s.security@)
    &&& keys_are(tls, seq!["serverName"@, "allowInsecure"@])
    &&& str_is(at(tls, 0), s.server_name@)
    &&& bool_is(at(tls, 1), s.allow_insecure)
    &&& s.ws matches Some(ws) ==> {
        let w = at(j, 3);
        &&& keys_are(w, seq!["headers"@, "path"@])
        &&& keys_are(at(w, 0), seq!["host"@])
        &&& str_is(at(at(w, 0), 0), ws.host@)
        &&& str_is(at(w, 1), ws.path@)
    }
}

/// The JSON layout of a user entry; `flow` is written only where present.
pub open spec fn user_json_is(j: Json, d: V2flyConfig) -> bool {
    let u = d.outbounds.settings.user;
    &&& keys_are(j, match u.flow {
        Some(_) => seq!["id"@, "level"@, "security"@, "encryption"@, "flow"@],
        None => seq!["id"@, "level"@, "security"@, "encryption"@],
    })
    &&& str_is(at(j, 0), u.id@)
    &&& int_is(at(j, 1), u.level as int)
    &&& str_is(at(j, 2), u.security@)
    &&& str_is(at(j, 3), u.encryption@)
    &&& u.flow matches Some(f) ==> str_is(at(j, 4), f@)
}

/// The JSON layout of an outbounds document. vmess documents name the remark
/// `remarks` and the stream settings `streamSettings`; vless documents name
/// them `remark` and `stream_settings`.
pub open spec fn outbounds_json_is(j: Json, d: V2flyConfig) -> bool {
    let o = d.outbounds;
    let vmess = o.protocol == Protocol::Vmess;
    let ob = at(at(j, 1), 0);
    let settings = at(ob, 0);
    let vnext = at(at(settings, 0), 0);
    let mux = at(ob, 4);
    &&& keys_are(j, seq![if vmess { "remarks"@ } else { "remark"@ }, "outbounds"@])
    &&& str_is(at(j, 0), d.remark@)
    &&& single(at(j, 1))
    &&& keys_are(ob, seq![
        "settings"@,
        if vmess { "streamSettings"@ } else { "stream_settings"@ },
        "protocol"@,
        "tag"@,
        "mux"@,
    ])
    &&& keys_are(settings, seq!["vnext"@])
    &&& single(at(settings, 0))
    &&& keys_are(vnext, seq!["address"@, "port"@, "users"@])
    &&& str_is(at(vnext, 0), o.settings.address@)
    &&& int_is(at(vnext, 1), o.settings.port as int)
    &&& single(at(vnext, 2))
    &&& user_json_is(at(at(vnext, 2), 0), d)
    &&& stream_json_is(at(ob, 1), o.stream_setting)
    &&& str_is(at(ob, 2), if vmess { "vmess"@ } else { "vless"@ })
    &&& str_is(at(ob, 3), o.tag@)
    &&& keys_are(mux, seq!["enabled"@, "concurrency"@])
    &&& bool_is(at(mux, 0), o.mux_enabled)
    &&& int_is(at(mux, 1), o.mux_concurrency as int)
}

fn text(s: &str) -> (r: Json)
    ensures
        str_is(r, s@),
{
    Json::Str(s.to_owned())
}

fn member(key: &str, value: Json) -> (r: (String, Json))
    ensures
        r.0@ == key@,
        r.1 == value,
{
    (key.to_owned(), value)
}

fn one(value: Json) -> (r: Json)
    ensures
        single(r),
        at(r, 0) == value,
{
    let mut a: Vec<Json> = Vec::new();
    a.push(value);
    Json::Array(a)
}

/// The JSON of stream settings.
pub fn stream_json(s: &StreamSettings) -> (r: Json)
    ensures
        stream_json_is(r, *s),
{
    let mut tls: Vec<(String, Json)> = Vec::new();
    tls.push(member("serverName", text(s.server_name.as_str())));
    tls.push(member("allowInsecure", Json::Bool(s.allow_insecure)));
    let tls_block = Json::Object(tls);
    assert(keys_are(tls_block, seq!["serverName"@, "allowInsecure"@]));
    let mut f: Vec<(String, Json)> = Vec::new();
    f.push(member("network", text(s.network.as_str())));
    f.push(member("security", text(s.security.as_str())));
    match s.tls_kind {
        TlsKind::Xtls => f.push(member("xtlsSettings", tls_block)),
        TlsKind::Tls => f.push(member("tlsSettings", tls_block)),
    }
    match &s.ws {
        Some(ws) => {
            let mut headers: Vec<(String, Json)> = Vec::new();
            headers.push(member("host", text(ws.host.as_str())));
            let headers = Json::Object(headers);
            assert(keys_are(headers, seq!["host"@]));
            let mut w: Vec<(String, Json)> = Vec::new();
            w.push(member("headers", headers));
            w.push(member("path", text(ws.path.as_str())));
            let w = Json::Object(w);
            assert(keys_are(w, seq!["headers"@, "path"@]));
            f.push(member("wsSettings", w));
            let r = Json::Object(f);
            assert(keys_are(r, seq!["network"@, "security"@, tls_key(s.tls_kind), "wsSettings"@]));
            r
        },
        None => {
            let r = Json::Object(f);
            assert(keys_are(r, seq!["network"@, "security"@, tls_key(s.tls_kind)]));
            r
        },
    }
}

fn user_json(d: &V2flyConfig) -> (r: Json)
    ensures
        user_json_is(r, *d),
{
    let u = &d.outbounds.settings.user;
    let mut f: Vec<(String, Json)> = Vec::new();
    f.push(member("id", text(u.id.as_str())));
    f.push(member("level", Json::Int(u.level as i64)));
    f.push(member("security", text(u.security.as_str())));
    f.push(member("encryption", text(u.encryption.as_str())));
    match &u.flow {
        Some(flow) => {
            f.push(member("flow", text(flow.as_str())));
            let r = Json::Object(f);
            assert(keys_are(r, seq!["id"@, "level"@, "security"@, "encryption"@, "flow"@]));
            r
        },
        None => {
            let r = Json::Object(f);
            assert(keys_are(r, seq!["id"@, "level"@, "security"@, "encryption"@]));
            r
        },
    }
}

/// The JSON of an outbounds document, laid out as v2fly reads it.
pub fn outbounds_json(d: &V2flyConfig) -> (r: Json)
    ensures
        outbounds_json_is(r, *d),
{
    let o = &d.outbounds;
    let vmess = match o.protocol {
        Protocol::Vmess => true,
        Protocol::Vless => false,
    };
    let user = user_json(d);
    let users = one(user);
    let mut vn: Vec<(String, Json)> = Vec::new();
    vn.push(member("address", text(o.settings.address.as_str())));
    vn.push(member("port", Json::Int(o.settings.port as i64)));
    vn.push(member("users", users));
    let vnext = Json::Object(vn);
    assert(keys_are(vnext, seq!["address"@, "port"@, "users"@]));
    let mut st: Vec<(String, Json)> = Vec::new();
    st.push(member("vnext", one(vnext)));
    let settings = Json::Object(st);
    assert(keys_are(settings, seq!["vnext"@]));
    let mut mx: Vec<(String, Json)> = Vec::new();
    mx.push(member("enabled", Json::Bool(o.mux_enabled)));
    mx.push(member("concurrency", Json::Int(o.mux_concurrency as i64)));
    let mux = Json::Object(mx);
    assert(keys_are(mux, seq!["enabled"@, "concurrency"@]));
    let mut ob: Vec<(String, Json)> = Vec::new();
    ob.push(member("settings", settings));
    ob.push(member(if vmess { "streamSettings" } else { "stream_settings" }, stream_json(&o.stream_setting)));
    ob.push(member("protocol", text(if vmess { "vmess" } else { "vless" })));
    ob.push(member("tag", text(o.tag.as_str())));
    ob.push(member("mux", mux));
    let ob = Json::Object(ob);
    assert(keys_are(ob, seq![
        "settings"@,
        if vmess { "streamSettings"@ } else { "stream_settings"@ },
        "protocol"@,
        "tag"@,
        "mux"@,
    ]));
    let mut root: Vec<(String, Json)> = Vec::new();
    root.push(member(if vmess { "remarks" } else { "remark" }, text(d.remark.as_str())));
    root.push(member("outbounds", one(ob)));
    let r = Json::Object(root);
    assert(keys_are(r, seq![if vmess { "remarks"@ } else { "remark"@ }, "outbounds"@]));
    r
}

} // verus!
