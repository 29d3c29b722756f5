use vstd::prelude::*;
use crate::json::{outbounds_json, outbounds_json_is, Json};
use crate::numbers::{parse_i32, parse_i32_of};
use crate::subscription::{
    base64_text, base64_text_error_is, decode_base64_text, TextDecodeError,
};
use crate::text::{
    has_prefix, lemma_pattern_absent, lemma_remove_all_absent, lemma_remove_all_leading, remove_all,
    remove_all_of, same_text, starts_with,
};
use crate::v2fly_config::{
    Outbounds, Protocol, StreamSettings, TlsKind, User, V2flyConfig, VNext, WsSettings,
};

verus! {

/// A vmess link's JSON body.
pub struct VMessConfig {
    pub v: String,
    pub ps: String,
    pub add: String,
    pub port: String,
    pub id: String,
    pub aid: String,
    pub net: String,
    pub typ: String,
    pub host: String,
    pub path: String,
    pub tls: String,
    pub sni: String,
}

/// The text an optional string holds, if any.
pub open spec fn opt_text(o: Option<&str>) -> Option<Seq<char>> {
    match o {
        Some(s) => Some(s@),
        None => None,
    }
}

/// The text of an optional owned string, if any.
pub open spec fn opt_string(o: Option<String>) -> Option<Seq<char>> {
    match o {
        Some(s) => Some(s@),
        None => None,
    }
}

/// The TLS server name: the SNI when one is given and not empty, else the host.
pub open spec fn server_name_choice(sni: Option<Seq<char>>, host: Option<Seq<char>>) -> Option<Seq<char>> {
    match sni {
        Some(s) => if s.len() > 0 { Some(s) } else { host },
        None => host,
    }
}

/// What `stream_transport_setting` builds from its arguments.
pub open spec fn stream_settings_are(
    r: StreamSettings,
    transport: Seq<char>,
    host: Option<Seq<char>>,
    path: Option<Seq<char>>,
    stream_security: Seq<char>,
    allow_insecure: bool,
    sni: Option<Seq<char>>,
) -> bool {
    &&& r.network@ == transport
    &&& r.security@ == stream_security
    &&& r.tls_kind == (if stream_security == "xtls"@ { TlsKind::Xtls } else { TlsKind::Tls })
    &&& Some(r.server_name@) == server_name_choice(sni, host)
    &&& r.allow_insecure == allow_insecure
    &&& if transport == "ws"@ {
        r.ws matches Some(ws) && ws.host@ == (match host {
            Some(h) => h,
            None => ""@,
        }) && ws.path@ == (match path {
            Some(p) => p,
            None => "/"@,
        })
    } else {
        r.ws is None
    }
}

fn text_or(o: Option<&str>, default: &str) -> (r: String)
    ensures
        r@ == (match o {
            Some(s) => s@,
            None => default@,
        }),
{
    match o {
        Some(s) => s.to_owned(),
        None => default.to_owned(),
    }
}

/// The stream settings of an outbound. The header type, seed, QUIC
/// security, key, mode and service name are taken and not used.
#[allow(unused_variables)]
pub fn stream_transport_setting(
    transport: &str,
    header_type: Option<&str>,
    host: Option<&str>,
    path: Option<&str>,
    seed: Option<&str>,
    quic_security: Option<&str>,
    key: Option<&str>,
    mode: Option<&str>,
    service_name: Option<&str>,
    stream_security: &str,
    allow_insecure: bool,
    sni: Option<&str>,
) -> (r: StreamSettings)
    requires
        server_name_choice(opt_text(sni), opt_text(host)) is Some,
    ensures
        stream_settings_are(
            r,
            transport@,
            opt_text(host),
            opt_text(path),
            stream_security@,
            allow_insecure,
            opt_text(sni),
        ),
{
    let ws = if same_text(transport, "ws") {
        Some(WsSettings { host: text_or(host, ""), path: text_or(path, "/") })
    } else {
        None
    };
    let server_name = match sni {
        Some(s) => {
            if !s.is_empty() {
                s.to_owned()
            } else {
                host.unwrap().to_owned()
            }
        },
        None => host.unwrap().to_owned(),
    };
    let tls_kind = if same_text(stream_security, "xtls") {
        TlsKind::Xtls
    } else {
        TlsKind::Tls
    };
    StreamSettings {
        network: transport.to_owned(),
        security: stream_security.to_owned(),
        tls_kind,
        server_name,
        allow_insecure,
        ws,
    }
}

/// The parts of an outbound that every outbound here shares: tag `proxy`,
/// user level 8 with security `auto`, and multiplexing off with
/// concurrency 8.
pub open spec fn common_outbound_parts(o: Outbounds) -> bool {
    &&& o.tag@ == "proxy"@
    &&& o.settings.user.level == 8
    &&& o.settings.user.security@ == "auto"@
    &&& !o.mux_enabled
    &&& o.mux_concurrency == 8
}

/// The document that a vmess link's body stands for.
pub open spec fn vmess_config_is(c: VMessConfig, r: V2flyConfig) -> bool {
    let o = r.outbounds;
    &&& r.remark@ == c.ps@
    &&& o.protocol == Protocol::Vmess
    &&& common_outbound_parts(o)
    &&& o.settings.address@ == c.add@
    &&& Some(o.settings.port) == parse_i32(c.port@)
    &&& o.settings.user.id@ == c.id@
    &&& o.settings.user.encryption@ == "auto"@
    &&& o.settings.user.flow is None
    &&& stream_settings_are(
        o.stream_setting,
        c.net@,
        Some(c.host@),
        Some(c.path@),
        c.tls@,
        false,
        Some(c.sni@),
    )
}

impl VMessConfig {
    /// The port as a number, if it is one.
    pub fn port_number(&self) -> (r: Option<i32>)
        ensures
            r == parse_i32(self.port@),
    {
        parse_i32_of(self.port.as_str())
    }

    /// The v2fly outbounds document of this vmess server.
    pub fn to_v2fly_outbounds_json(&self) -> (r: V2flyConfig)
        requires
            parse_i32(self.port@) is Some,
        ensures
            vmess_config_is(*self, r),
    {
        let stream_settings = stream_transport_setting(
            self.net.as_str(),
            Some(self.typ.as_str()),
            Some(self.host.as_str()),
            Some(self.path.as_str()),
            Some(self.path.as_str()),
            Some(self.host.as_str()),
            Some(self.path.as_str()),
            Some(self.typ.as_str()),
            Some(self.path.as_str()),
            self.tls.as_str(),
            false,
            Some(self.sni.as_str()),
        );
        let port = parse_i32_of(self.port.as_str()).unwrap();
        V2flyConfig {
            remark: self.ps.clone(),
            outbounds: Outbounds {
                protocol: Protocol::Vmess,
                tag: "proxy".to_owned(),
                settings: VNext {
                    address: self.add.clone(),
                    port,
                    user: User {
                        id: self.id.clone(),
                        level: 8,
                        security: "auto".to_owned(),
                        encryption: "auto".to_owned(),
                        flow: None,
                    },
                },
                stream_setting: stream_settings,
                mux_enabled: false,
                mux_concurrency: 8,
            },
        }
    }
}


/// A URL broken into the parts that a vless link is read from.
pub struct UrlParts {
    pub username: String,
    pub host: Option<String>,
    pub port: Option<u16>,
    pub fragment: Option<String>,
    /// The decoded query pairs, in the order they appear.
    pub query: Vec<(String, String)>,
}

/// The plain values of a URL's parts: user name, host, port, fragment and
/// query pairs.
pub type UrlView = (Seq<char>, Option<Seq<char>>, Option<u16>, Option<Seq<char>>, Seq<(Seq<char>, Seq<char>)>);

/// The texts of a list of query pairs.
pub open spec fn query_view(q: Seq<(String, String)>) -> Seq<(Seq<char>, Seq<char>)> {
    q.map_values(|p: (String, String)| (p.0@, p.1@))
}

impl View for UrlParts {
    type V = UrlView;

    open spec fn view(&self) -> UrlView {
        (
            self.username@,
            opt_string(self.host),
            self.port,
            opt_string(self.fragment),
            query_view(self.query@),
        )
    }
}

#[verifier::external_type_specification]
#[verifier::external_body]
pub struct ExUrlParseError(url::ParseError);

/// The parts that `url::Url::parse` finds in a text (user name, host string,
/// explicit port, fragment, decoded query pairs), or `None` where it refuses
/// the text.
pub uninterp spec fn url_components(input: Seq<char>) -> Option<UrlView>;

/// Calls `reqwest::Url::parse` (the `url` crate's parser) and reads the
/// parts of the result with `username`, `host_str`, `port`, `fragment` and
/// `query_pairs`.
/// Claimed: the parts are a function of `input` alone, named
/// `url_components`; what that function is, is left to the `url` crate.
#[verifier::external_body]
fn parse_url(input: &str) -> (r: Result<UrlParts, url::ParseError>)
    ensures
        match r {
            Ok(parts) => url_components(input@) == Some(parts@),
            Err(_) => url_components(input@) is None,
        },
{
    let url = reqwest::Url::parse(input)?;
    Ok(UrlParts {
        username: url.username().to_owned(),
        host: url.host_str().map(str::to_owned),
        port: url.port(),
        fragment: url.fragment().map(str::to_owned),
        query: url.query_pairs().into_owned().collect(),
    })
}

/// The value of `key` in query pairs read into a map, where a later pair
/// overrides an earlier one with the same key.
pub open spec fn query_lookup(q: Seq<(Seq<char>, Seq<char>)>, key: Seq<char>) -> Option<Seq<char>>
    decreases q.len(),
{
    if q.len() == 0 {
        None
    } else if q.last().0 == key {
        Some(q.last().1)
    } else {
        query_lookup(q.drop_last(), key)
    }
}

/// The text an option holds, or `default`.
pub open spec fn or_default(o: Option<Seq<char>>, default: Seq<char>) -> Seq<char> {
    match o {
        Some(s) => s,
        None => default,
    }
}

/// The value of `key` among the query pairs; the last pair with that key wins.
pub fn query_value(query: &Vec<(String, String)>, key: &str) -> (r: Option<String>)
    ensures
        opt_string(r) == query_lookup(query_view(query@), key@),
{
    let ghost q = query_view(query@);
    let mut i = query.len();
    assert(q.take(i as int) =~= q);
    while i > 0
        invariant
            i <= query@.len(),
            q == query_view(query@),
            query_lookup(q, key@) == query_lookup(q.take(i as int), key@),
        decreases i,
    {
        assert(q.take(i as int).drop_last() =~= q.take(i - 1));
        assert(q.take(i as int).last() == (query@[i - 1].0@, query@[i - 1].1@));
        if same_text(query[i - 1].0.as_str(), key) {
            return Some(query[i - 1].1.clone());
        }
        i = i - 1;
    }
    None
}

fn as_text(o: &Option<String>) -> (r: Option<&str>)
    ensures
        opt_text(r) == opt_string(*o),
{
    match o {
        Some(s) => Some(s.as_str()),
        None => None,
    }
}

fn text_or_owned(o: Option<String>, default: &str) -> (r: String)
    ensures
        r@ == or_default(opt_string(o), default@),
{
    match o {
        Some(s) => s,
        None => default.to_owned(),
    }
}

/// The server name and document that a vless URL stands for.
pub open spec fn vless_config_is(url: UrlView, name: Seq<char>, r: V2flyConfig) -> bool {
    let q = url.4;
    let o = r.outbounds;
    &&& name == or_default(query_lookup(q, "serverName"@), ""@)
    &&& r.remark@ == or_default(url.3, ""@)
    &&& o.protocol == Protocol::Vless
    &&& common_outbound_parts(o)
    &&& Some(o.settings.address@) == url.1
    &&& url.2 matches Some(port) && o.settings.port == port as i32
    &&& o.settings.user.id@ == url.0
    &&& o.settings.user.encryption@ == or_default(query_lookup(q, "encryption"@), "auto"@)
    &&& opt_string(o.settings.user.flow) == Some(or_default(query_lookup(q, "flow"@), ""@))
    &&& stream_settings_are(
        o.stream_setting,
        or_default(query_lookup(q, "type"@), "tcp"@),
        query_lookup(q, "host"@),
        query_lookup(q, "path"@),
        or_default(query_lookup(q, "security"@), ""@),
        false,
        None,
    )
}

/// The server name and v2fly outbounds document of a vless URL.
pub fn vless_v2fly_config(url: &UrlParts) -> (r: (String, V2flyConfig))
    requires
        url@.1 is Some,
        url@.2 is Some,
        query_lookup(url@.4, "host"@) is Some,
    ensures
        vless_config_is(url@, r.0@, r.1),
{
    let q = &url.query;
    let transport = text_or_owned(query_value(q, "type"), "tcp");
    let header_type = query_value(q, "headerType");
    let host = query_value(q, "host");
    let path = query_value(q, "path");
    let seed = query_value(q, "seed");
    let quic_security = query_value(q, "quicSecurity");
    let key = query_value(q, "key");
    let mode = query_value(q, "mode");
    let service_name = query_value(q, "serviceName");
    let security = text_or_owned(query_value(q, "security"), "");
    let stream_settings = stream_transport_setting(
        transport.as_str(),
        as_text(&header_type),
        as_text(&host),
        as_text(&path),
        as_text(&seed),
        as_text(&quic_security),
        as_text(&key),
        as_text(&mode),
        as_text(&service_name),
        security.as_str(),
        false,
        None,
    );
    let remark = match &url.fragment {
        Some(f) => f.clone(),
        None => "".to_owned(),
    };
    let address = match &url.host {
        Some(h) => h.clone(),
        None => "".to_owned(),
    };
    let port: i32 = match url.port {
        Some(p) => p as i32,
        None => 0,
    };
    let config = V2flyConfig {
        remark,
        outbounds: Outbounds {
            protocol: Protocol::Vless,
            tag: "proxy".to_owned(),
            settings: VNext {
                address,
                port,
                user: User {
                    id: url.username.clone(),
                    level: 8,
                    security: "auto".to_owned(),
                    encryption: text_or_owned(query_value(q, "encryption"), "auto"),
                    flow: Some(text_or_owned(query_value(q, "flow"), "")),
                },
            },
            stream_setting: stream_settings,
            mux_enabled: false,
            mux_concurrency: 8,
        },
    };
    (text_or_owned(query_value(q, "serverName"), ""), config)
}

/// What one line of a subscription holds.
pub enum Link {
    /// A vmess link: the JSON text of its body.
    Vmess(String),
    /// A vless link: its server name and outbounds document.
    Vless(String, V2flyConfig),
    /// Any other line.
    Unsupported,
}

/// Why a subscription line could not be read.
pub enum LinkError {
    /// The body of a vmess link is not base64 of UTF-8 text.
    Text(TextDecodeError),
    /// A vless link is not a URL.
    Url(url::ParseError),
    /// A vless link has no `host` query value to take the server name from.
    MissingServerName,
    /// A vless link has no host.
    MissingHost,
    /// A vless link has no explicit port.
    MissingPort,
}

/// What `decode_link` gives for a line.
pub open spec fn link_is(line: Seq<char>, r: Result<Link, LinkError>) -> bool {
    if has_prefix(line, "vmess://"@) {
        let body = remove_all(line, "vmess://"@);
        match r {
            Ok(Link::Vmess(json)) => base64_text(body) == Some(json@),
            Err(LinkError::Text(e)) => base64_text(body) is None && base64_text_error_is(body, e),
            _ => false,
        }
    } else if has_prefix(line, "vless://"@) {
        match url_components(line) {
            None => r matches Err(LinkError::Url(_)),
            Some(url) => if query_lookup(url.4, "host"@) is None {
                r matches Err(LinkError::MissingServerName)
            } else if url.1 is None {
                r matches Err(LinkError::MissingHost)
            } else if url.2 is None {
                r matches Err(LinkError::MissingPort)
            } else {
                r matches Ok(Link::Vless(name, config)) && vless_config_is(url, name@, config)
            },
        }
    } else {
        r matches Ok(Link::Unsupported)
    }
}

/// Reads one line of a subscription: a vmess link is decoded to its JSON
/// text, a vless link to its outbounds document, anything else is left aside.
pub fn decode_link(line: &str) -> (r: Result<Link, LinkError>)
    ensures
        link_is(line@, r),
{
    if starts_with(line, "vmess://") {
        proof {
            reveal_strlit("vmess://");
        }
        let body = remove_all_of(line, "vmess://");
        match decode_base64_text(body.as_str()) {
            Ok(json) => Ok(Link::Vmess(json)),
            Err(e) => Err(LinkError::Text(e)),
        }
    } else if starts_with(line, "vless://") {
        match parse_url(line) {
            Ok(url) => {
                let host = query_value(&url.query, "host");
                if host.is_none() {
                    Err(LinkError::MissingServerName)
                } else if url.host.is_none() {
                    Err(LinkError::MissingHost)
                } else if url.port.is_none() {
                    Err(LinkError::MissingPort)
                } else {
                    let (name, config) = vless_v2fly_config(&url);
                    Ok(Link::Vless(name, config))
                }
            },
            Err(e) => Err(LinkError::Url(e)),
        }
    } else {
        Ok(Link::Unsupported)
    }
}

/// Reads the lines of a subscription in order, stopping after the first
/// line that cannot be read: the results line up with the lines, and only
/// the last one can be an error.
pub fn decode_links(lines: &Vec<String>) -> (r: Vec<Result<Link, LinkError>>)
    ensures
        r@.len() <= lines@.len(),
        forall|i: int| 0 <= i < r@.len() ==> link_is(lines@[i]@, #[trigger] r@[i]),
        forall|i: int| 0 <= i < r@.len() - 1 ==> (#[trigger] r@[i]) is Ok,
        r@.len() < lines@.len() ==> r@.len() > 0 && r@.last() is Err,
{
    let mut out: Vec<Result<Link, LinkError>> = Vec::new();
    let mut i: usize = 0;
    while i < lines.len()
        invariant
            i <= lines@.len(),
            out@.len() == i,
            forall|k: int| 0 <= k < i ==> link_is(lines@[k]@, #[trigger] out@[k]),
            forall|k: int| 0 <= k < i ==> (#[trigger] out@[k]) is Ok,
        decreases lines.len() - i,
    {
        let link = decode_link(lines[i].as_str());
        let failed = link.is_err();
        out.push(link);
        if failed {
            return out;
        }
        i = i + 1;
    }
    out
}

/// A subscription line once its vmess body has been read.
pub enum ParsedLink {
    /// A vmess link with its body.
    Vmess(VMessConfig),
    /// A vless link: its server name and outbounds document.
    Vless(String, V2flyConfig),
    /// Any other line.
    Unsupported,
}

/// Whether `e` is the listed (name, JSON) pair of a vmess or vless link.
pub open spec fn listed_entry_is(l: ParsedLink, e: (String, Json)) -> bool {
    match l {
        ParsedLink::Vmess(c) => e.0@ == c.ps@ && exists|d: V2flyConfig|
            #[trigger] vmess_config_is(c, d) && outbounds_json_is(e.1, d),
        ParsedLink::Vless(name, d) => e.0@ == name@ && outbounds_json_is(e.1, d),
        ParsedLink::Unsupported => false,
    }
}

/// Whether `out` lists, in order, one entry for each vmess or vless link,
/// skipping the other lines.
pub open spec fn list_is(links: Seq<ParsedLink>, out: Seq<(String, Json)>) -> bool
    decreases links.len(),
{
    if links.len() == 0 {
        out.len() == 0
    } else if links.last() is Unsupported {
        list_is(links.drop_last(), out)
    } else {
        &&& out.len() > 0
        &&& listed_entry_is(links.last(), out.last())
        &&& list_is(links.drop_last(), out.drop_last())
    }
}

/// The named outbounds documents of a subscription, as JSON, in line order;
/// lines that are neither vmess nor vless links are skipped. A vmess link
/// is listed under its `ps`, a vless link under its server name.
pub fn outbounds_list(links: &Vec<ParsedLink>) -> (r: Vec<(String, Json)>)
    requires
        forall|i: int| 0 <= i < links@.len() ==> (#[trigger] links@[i] matches ParsedLink::Vmess(c)
            ==> parse_i32(c.port@) is Some),
    ensures
        list_is(links@, r@),
{
    let mut out: Vec<(String, Json)> = Vec::new();
    let mut i: usize = 0;
    assert(links@.take(0) =~= Seq::<ParsedLink>::empty());
    while i < links.len()
        invariant
            i <= links@.len(),
            list_is(links@.take(i as int), out@),
            forall|k: int| 0 <= k < links@.len() ==> (#[trigger] links@[k] matches ParsedLink::Vmess(c)
                ==> parse_i32(c.port@) is Some),
        decreases links.len() - i,
    {
        assert(links@.take(i + 1).drop_last() =~= links@.take(i as int));
        assert(links@.take(i + 1).last() == links@[i as int]);
        let ghost before = out@;
        match &links[i] {
            ParsedLink::Vmess(c) => {
                let d = c.to_v2fly_outbounds_json();
                let j = outbounds_json(&d);
                assert(vmess_config_is(*c, d) && outbounds_json_is(j, d));
                out.push((c.ps.clone(), j));
            },
            ParsedLink::Vless(name, d) => {
                out.push((name.clone(), outbounds_json(d)));
            },
            ParsedLink::Unsupported => {},
        }
        assert(links@[i as int] is Unsupported || out@.drop_last() =~= before);
        i = i + 1;
    }
    assert(links@.take(links@.len() as int) =~= links@);
    out
}

/// A vmess link is `vmess://` followed by base64, which has no `:`; the
/// body that `decode_link` decodes is then exactly the text after the scheme.
pub proof fn lemma_vmess_body(body: Seq<char>)
    requires
        !body.contains(':'),
    ensures
        has_prefix("vmess://"@ + body, "vmess://"@),
        remove_all("vmess://"@ + body, "vmess://"@) == body,
{
    reveal_strlit("vmess://");
    let p = "vmess://"@;
    assert(p[5] == ':');
    assert((p + body).subrange(0, p.len() as int) =~= p);
    lemma_remove_all_leading(body, p);
    lemma_pattern_absent(body, p, ':');
    lemma_remove_all_absent(body, p);
}

} // verus!
