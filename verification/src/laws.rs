use vstd::prelude::*;
use crate::clash::{entry_lookup, first_missing_section, kept_sections, YamlEntries};
use crate::json::{outbounds_json_is, stream_json_is, Json};
use crate::v2fly::{
    list_is, query_lookup, stream_settings_are, vless_config_is, vmess_config_is, ParsedLink, UrlView,
    VMessConfig,
};
use crate::v2fly_config::{Protocol, StreamSettings, TlsKind, V2flyConfig};

verus! {

/// The key of member `i` of an object.
pub open spec fn key_of(j: Json, i: int) -> Option<Seq<char>> {
    match j {
        Json::Object(f) => if 0 <= i < f@.len() { Some(f@[i].0@) } else { None },
        _ => None,
    }
}

/// The value of member `i` of an object, or element `i` of an array.
pub open spec fn item(j: Json, i: int) -> Json {
    match j {
        Json::Object(f) => f@[i].1,
        Json::Array(a) => a@[i],
        _ => Json::Null,
    }
}

/// The text of a string value.
pub open spec fn text_of(j: Json) -> Option<Seq<char>> {
    match j {
        Json::Str(x) => Some(x@),
        _ => None,
    }
}

/// The number of members of an object.
pub open spec fn size_of(j: Json) -> int {
    match j {
        Json::Object(f) => f@.len() as int,
        Json::Array(a) => a@.len() as int,
        _ => -1,
    }
}

/// The TLS server name of stream settings is a non-empty SNI whenever one is
/// given, whatever the host; only when the SNI is absent or empty is it the
/// host.
pub proof fn law_server_name(
    r: StreamSettings,
    transport: Seq<char>,
    host: Option<Seq<char>>,
    path: Option<Seq<char>>,
    stream_security: Seq<char>,
    allow_insecure: bool,
    sni: Option<Seq<char>>,
)
    requires
        stream_settings_are(r, transport, host, path, stream_security, allow_insecure, sni),
    ensures
        match sni {
            Some(s) => if s.len() > 0 {
                r.server_name@ == s
            } else {
                host is Some && r.server_name@ == host.unwrap()
            },
            None => host is Some && r.server_name@ == host.unwrap(),
        },
        r.security@ == stream_security,
        r.network@ == transport,
{
}

/// Stream settings carry a websocket block exactly for the `ws` transport,
/// with the given host (else empty) and path (else `/`); the TLS block is the
/// xtls one exactly for `xtls` security; `allowInsecure` is passed through.
pub proof fn law_stream_blocks(
    r: StreamSettings,
    transport: Seq<char>,
    host: Option<Seq<char>>,
    path: Option<Seq<char>>,
    stream_security: Seq<char>,
    allow_insecure: bool,
    sni: Option<Seq<char>>,
)
    requires
        stream_settings_are(r, transport, host, path, stream_security, allow_insecure, sni),
    ensures
        (r.ws is Some) == (transport == "ws"@),
        r.ws matches Some(w) ==> w.host@ == (if host is Some { host.unwrap() } else { Seq::<char>::empty() }),
        r.ws matches Some(w) ==> w.path@ == (if path is Some { path.unwrap() } else { "/"@ }),
        (r.tls_kind == TlsKind::Xtls) == (stream_security == "xtls"@),
        r.allow_insecure == allow_insecure,
{
    reveal_strlit("");
}

/// In the JSON of stream settings with a websocket block, the websocket
/// `Host` header is the websocket block's host and the TLS `serverName` is
/// the TLS server name, each written where v2fly reads it.
pub proof fn law_stream_json_hosts(j: Json, s: StreamSettings)
    requires
        stream_json_is(j, s),
        s.ws is Some,
    ensures
        size_of(j) == 4,
        key_of(j, 3) == Some("wsSettings"@),
        key_of(item(j, 3), 0) == Some("headers"@),
        key_of(item(item(j, 3), 0), 0) == Some("host"@),
        text_of(item(item(item(j, 3), 0), 0)) == Some(s.ws.unwrap().host@),
        key_of(item(j, 2), 0) == Some("serverName"@),
        text_of(item(item(j, 2), 0)) == Some(s.server_name@),
{
}

/// A vmess document keeps the body's transport security: the stream
/// security is the body's `tls` field, and the TLS block is the xtls one
/// exactly when that field is `xtls`. The network is the body's `net`, the
/// server name its non-empty `sni` or else its `host`, and a websocket
/// transport carries the body's `host` and `path`.
pub proof fn law_vmess_stream(c: VMessConfig, d: V2flyConfig)
    requires
        vmess_config_is(c, d),
    ensures
        d.outbounds.stream_setting.security@ == c.tls@,
        (d.outbounds.stream_setting.tls_kind == TlsKind::Xtls) == (c.tls@ == "xtls"@),
        d.outbounds.stream_setting.network@ == c.net@,
        c.sni@.len() > 0 ==> d.outbounds.stream_setting.server_name@ == c.sni@,
        c.sni@.len() == 0 ==> d.outbounds.stream_setting.server_name@ == c.host@,
        c.net@ == "ws"@ ==> (d.outbounds.stream_setting.ws matches Some(w) && w.host@ == c.host@
            && w.path@ == c.path@),
{
}

/// The JSON of a vmess websocket server: its stream settings name the
/// body's security, its websocket `Host` header is the body's `host`, and
/// its TLS `serverName` is the body's non-empty `sni` or else its `host`.
pub proof fn law_vmess_json(c: VMessConfig, d: V2flyConfig, j: Json)
    requires
        vmess_config_is(c, d),
        outbounds_json_is(j, d),
        c.net@ == "ws"@,
    ensures
        ({
            let stream = item(item(item(j, 1), 0), 1);
            &&& key_of(item(item(j, 1), 0), 1) == Some("streamSettings"@)
            &&& size_of(stream) == 4
            &&& key_of(stream, 1) == Some("security"@)
            &&& text_of(item(stream, 1)) == Some(c.tls@)
            &&& key_of(stream, 3) == Some("wsSettings"@)
            &&& text_of(item(item(item(stream, 3), 0), 0)) == Some(c.host@)
            &&& key_of(item(stream, 2), 0) == Some("serverName"@)
            &&& text_of(item(item(stream, 2), 0)) == Some(if c.sni@.len() > 0 { c.sni@ } else { c.host@ })
        }),
{
    law_vmess_stream(c, d);
    law_stream_json_hosts(item(item(item(j, 1), 0), 1), d.outbounds.stream_setting);
}

/// A vless document is read from its URL: the listed name is the
/// `serverName` query value (else empty), the server is the URL's host and
/// port, the user id its user name, and the stream settings take the `type`
/// (else `tcp`), `security` (else empty) and, as TLS server name, the `host`
/// query value; encryption defaults to `auto` and flow to empty.
pub proof fn law_vless(url: UrlView, name: Seq<char>, d: V2flyConfig)
    requires
        vless_config_is(url, name, d),
    ensures
        name == (match query_lookup(url.4, "serverName"@) { Some(v) => v, None => Seq::<char>::empty() }),
        d.remark@ == (match url.3 { Some(f) => f, None => Seq::<char>::empty() }),
        url.1 == Some(d.outbounds.settings.address@),
        url.2 matches Some(p) && d.outbounds.settings.port == p as i32,
        d.outbounds.settings.user.id@ == url.0,
        d.outbounds.protocol == Protocol::Vless,
        d.outbounds.stream_setting.network@ == (match query_lookup(url.4, "type"@) { Some(v) => v, None => "tcp"@ }),
        d.outbounds.stream_setting.security@ == (match query_lookup(url.4, "security"@) { Some(v) => v, None => Seq::<char>::empty() }),
        query_lookup(url.4, "host"@) == Some(d.outbounds.stream_setting.server_name@),
        d.outbounds.settings.user.encryption@ == (match query_lookup(url.4, "encryption"@) { Some(v) => v, None => "auto"@ }),
        d.outbounds.settings.user.flow matches Some(f) && f@ == (match query_lookup(url.4, "flow"@) { Some(v) => v, None => Seq::<char>::empty() }),
{
    reveal_strlit("");
}

/// The JSON of an outbounds document starts with its remark, named `remarks`
/// for vmess and `remark` for vless, then a one-element `outbounds` list whose
/// `protocol` names the protocol and whose stream settings stand under
/// `streamSettings` for vmess and `stream_settings` for vless.
pub proof fn law_json_names(j: Json, d: V2flyConfig)
    requires
        outbounds_json_is(j, d),
    ensures
        key_of(j, 0) == Some(if d.outbounds.protocol == Protocol::Vmess { "remarks"@ } else { "remark"@ }),
        text_of(item(j, 0)) == Some(d.remark@),
        key_of(j, 1) == Some("outbounds"@),
        size_of(item(j, 1)) == 1,
        key_of(item(item(j, 1), 0), 1) == Some(
            if d.outbounds.protocol == Protocol::Vmess { "streamSettings"@ } else { "stream_settings"@ },
        ),
        text_of(item(item(item(j, 1), 0), 2)) == Some(
            if d.outbounds.protocol == Protocol::Vmess { "vmess"@ } else { "vless"@ },
        ),
{
}

/// Whether a parsed line is a vmess or vless link.
pub open spec fn is_link(l: ParsedLink) -> bool {
    !(l is Unsupported)
}

/// The vmess and vless links among the lines, in order.
pub open spec fn links_only(links: Seq<ParsedLink>) -> Seq<ParsedLink> {
    links.filter(|l: ParsedLink| is_link(l))
}

/// The list holds exactly one entry per vmess or vless link, in line order,
/// whatever the link's name: the k-th entry belongs to the k-th link, under
/// the vmess body's `ps` or the vless link's server name.
pub proof fn law_outbounds_list(links: Seq<ParsedLink>, out: Seq<(String, Json)>)
    requires
        list_is(links, out),
    ensures
        out.len() == links_only(links).len(),
        forall|k: int| 0 <= k < out.len() ==> match #[trigger] links_only(links)[k] {
            ParsedLink::Vmess(c) => out[k].0@ == c.ps@,
            ParsedLink::Vless(n, d) => out[k].0@ == n@ && outbounds_json_is(out[k].1, d),
            ParsedLink::Unsupported => false,
        },
    decreases links.len(),
{
    reveal_with_fuel(Seq::filter, 1);
    let pred = |l: ParsedLink| is_link(l);
    if links.len() > 0 {
        let rest = links.drop_last();
        if links.last() is Unsupported {
            law_outbounds_list(rest, out);
            assert(links.filter(pred) == rest.filter(pred));
            assert(links_only(links) == links_only(rest));
        } else {
            law_outbounds_list(rest, out.drop_last());
            assert(links.filter(pred) == rest.filter(pred).push(links.last()));
            assert(links_only(links) == links_only(rest).push(links.last()));
            assert forall|k: int| 0 <= k < out.len() implies match #[trigger] links_only(links)[k] {
                ParsedLink::Vmess(c) => out[k].0@ == c.ps@,
                ParsedLink::Vless(n, d) => out[k].0@ == n@ && outbounds_json_is(out[k].1, d),
                ParsedLink::Unsupported => false,
            } by {
                if k < out.len() - 1 {
                    assert(links_only(links)[k] == links_only(rest)[k]);
                    assert(out[k] == out.drop_last()[k]);
                }
            }
        }
    }
}

/// What a clash configuration keeps: exactly three entries, keyed
/// `proxies`, `proxy-groups` and `rules` in that order, each with the value
/// that an entry of the input with that key holds; no other key of the
/// input appears.
pub proof fn law_kept_sections(entries: YamlEntries)
    requires
        first_missing_section(entries) is None,
    ensures
        kept_sections(entries).len() == 3,
        kept_sections(entries)[0].0 == "proxies"@,
        kept_sections(entries)[1].0 == "proxy-groups"@,
        kept_sections(entries)[2].0 == "rules"@,
        forall|k: int| 0 <= k < 3 ==> exists|i: int|
            0 <= i < entries.len() && entries[i].0 == (#[trigger] kept_sections(entries)[k]).0
                && entries[i].1 == kept_sections(entries)[k].1,
{
    lemma_lookup_found(entries, "proxies"@);
    lemma_lookup_found(entries, "proxy-groups"@);
    lemma_lookup_found(entries, "rules"@);
}

proof fn lemma_lookup_found(entries: YamlEntries, key: Seq<char>)
    requires
        entry_lookup(entries, key) is Some,
    ensures
        exists|i: int| 0 <= i < entries.len() && entries[i].0 == key && entries[i].1 == entry_lookup(entries, key).unwrap(),
    decreases entries.len(),
{
    if entries.last().0 == key {
        assert(entries[entries.len() - 1].0 == key);
    } else {
        lemma_lookup_found(entries.drop_last(), key);
        let i = choose|i: int| 0 <= i < entries.drop_last().len() && entries.drop_last()[i].0 == key
            && entries.drop_last()[i].1 == entry_lookup(entries.drop_last(), key).unwrap();
        assert(entries[i] == entries.drop_last()[i]);
    }
}

} // verus!
