//! Proxy detection and geolocation, up to the network edge: the proxy
//! candidates probed and in which order, the URL a proxy is dialled under,
//! and how probe responses are judged. The probes themselves run outside
//! the library.

use vstd::prelude::*;

use crate::jsonval::{doc_field, doc_of, json_parse, opt_str_field, parsed_json,
    value_as_string, value_get, value_is_object, JsonDoc};
use crate::strutil::{dec_spec, u64_to_string};
use crate::transport::view_opt;

verus! {

/// The kind of proxy spoken to.
#[derive(Debug, Clone, Copy, PartialEq, Eq, Structural)]
pub enum ProxyType {
    Http,
    Socks5,
}

impl Default for ProxyType {
    fn default() -> (r: ProxyType)
        ensures
            r == ProxyType::Http,
    {
        ProxyType::Http
    }
}

impl ProxyType {
    /// The scheme name the proxy URL carries.
    pub fn as_str(&self) -> (r: &'static str)
        ensures
            *self == ProxyType::Http ==> r@ == "http"@,
            *self == ProxyType::Socks5 ==> r@ == "socks5"@,
    {
        match self {
            ProxyType::Http => "http",
            ProxyType::Socks5 => "socks5",
        }
    }
}

/// The proxy type a stored setting names: `socks5` exactly, anything else
/// the HTTP kind.
pub fn proxy_type_of_name(name: &str) -> (r: ProxyType)
    ensures
        name@ == "socks5"@ ==> r == ProxyType::Socks5,
        name@ != "socks5"@ ==> r == ProxyType::Http,
{
    if crate::strutil::str_eq_str(name, "socks5") {
        ProxyType::Socks5
    } else {
        ProxyType::Http
    }
}

/// One proxy endpoint.
#[derive(Debug, Clone)]
pub struct ProxyInfo {
    pub proxy_type: ProxyType,
    pub host: String,
    pub port: u16,
}

/// The scheme of a proxy type.
pub open spec fn proxy_scheme_spec(t: ProxyType) -> Seq<char> {
    match t {
        ProxyType::Http => "http"@,
        ProxyType::Socks5 => "socks5"@,
    }
}

/// The URL a proxy is dialled under.
pub open spec fn proxy_url_spec(p: ProxyInfo) -> Seq<char> {
    proxy_scheme_spec(p.proxy_type) + "://"@ + p.host@ + ":"@ + dec_spec(p.port as nat)
}

impl ProxyInfo {
    /// A proxy endpoint from its parts.
    pub fn new(proxy_type: ProxyType, host: String, port: u16) -> (r: ProxyInfo)
        ensures
            r.proxy_type == proxy_type,
            r.host@ == host@,
            r.port == port,
    {
        ProxyInfo { proxy_type, host, port }
    }

    /// The URL this proxy is dialled under: scheme, host and port.
    pub fn to_url(&self) -> (r: String)
        ensures
            r@ == proxy_url_spec(*self),
    {
        let mut s = String::from_str(self.proxy_type.as_str());
        s.append("://");
        s.append(self.host.as_str());
        s.append(":");
        let port = u64_to_string(self.port as u64);
        s.append(port.as_str());
        proof {
            assert(s@ =~= proxy_url_spec(*self));
        }
        s
    }
}

/// Finds a usable local proxy by probing the well-known ports in order.
pub struct ProxyDetector;

impl ProxyDetector {
    /// The candidates probed, most common first: the mixed and HTTP ports
    /// of the usual local proxies, then the general-purpose ones, each on
    /// the loopback host.
    pub fn candidate_proxies() -> (r: Vec<ProxyInfo>)
        ensures
            r@.len() == 6,
            forall|i: int| 0 <= i < 6 ==> (#[trigger] r@[i]).host@ == "127.0.0.1"@,
            r@[0].port == 7890 && r@[0].proxy_type == ProxyType::Http,
            r@[1].port == 7891 && r@[1].proxy_type == ProxyType::Http,
            r@[2].port == 10808 && r@[2].proxy_type == ProxyType::Http,
            r@[3].port == 10809 && r@[3].proxy_type == ProxyType::Socks5,
            r@[4].port == 1080 && r@[4].proxy_type == ProxyType::Socks5,
            r@[5].port == 8080 && r@[5].proxy_type == ProxyType::Http,
    {
        let mut out: Vec<ProxyInfo> = Vec::new();
        out.push(ProxyInfo::new(ProxyType::Http, String::from_str("127.0.0.1"), 7890));
        out.push(ProxyInfo::new(ProxyType::Http, String::from_str("127.0.0.1"), 7891));
        out.push(ProxyInfo::new(ProxyType::Http, String::from_str("127.0.0.1"), 10808));
        out.push(ProxyInfo::new(ProxyType::Socks5, String::from_str("127.0.0.1"), 10809));
        out.push(ProxyInfo::new(ProxyType::Socks5, String::from_str("127.0.0.1"), 1080));
        out.push(ProxyInfo::new(ProxyType::Http, String::from_str("127.0.0.1"), 8080));
        out
    }

    /// Judges a probe response: any success status passes, and the
    /// no-content status the test endpoint answers with passes in any
    /// case.
    pub fn probe_status_ok(status: u16) -> (r: bool)
        ensures
            r == (200 <= status < 300 || status == 204),
    {
        (200 <= status && status < 300) || status == 204
    }
}

/// Where an address was found to be.
#[derive(Debug, Clone)]
pub struct GeoLocation {
    pub ip: String,
    pub city: Option<String>,
    pub region: Option<String>,
    pub country: String,
    pub loc: Option<String>,
    pub org: Option<String>,
    pub postal: Option<String>,
    pub timezone: Option<String>,
}

/// True of a document with the geolocation reply's shape: an object whose
/// address and country are strings.
pub open spec fn geo_ok(d: JsonDoc) -> bool {
    &&& d is Obj
    &&& (doc_field(d, "ip"@) matches Some(f) && f is Str)
    &&& (doc_field(d, "country"@) matches Some(f) && f is Str)
}

/// Reads a geolocation reply: exactly the well-shaped replies are read,
/// the address and country required, the other fields taken where they are
/// strings.
pub fn decode_geo_location(raw: &str) -> (r: Option<GeoLocation>)
    ensures
        match parsed_json(raw@) {
            Some(d) => if geo_ok(d) {
                r matches Some(geo) && geo.ip@ == doc_field(d, "ip"@)->Some_0->Str_0
                    && geo.country@ == doc_field(d, "country"@)->Some_0->Str_0 && view_opt(
                    geo.city,
                ) == opt_str_field(d, "city"@) && view_opt(geo.region) == opt_str_field(
                    d,
                    "region"@,
                ) && view_opt(geo.loc) == opt_str_field(d, "loc"@) && view_opt(geo.org)
                    == opt_str_field(d, "org"@) && view_opt(geo.postal) == opt_str_field(
                    d,
                    "postal"@,
                ) && view_opt(geo.timezone) == opt_str_field(d, "timezone"@)
            } else {
                r is None
            },
            None => r is None,
        },
{
    let v = match json_parse(raw) {
        Some(v) => v,
        None => {
            return None;
        },
    };
    if !value_is_object(&v) {
        return None;
    }
    let ip = match value_get(&v, "ip") {
        Some(f) => match value_as_string(f) {
            Some(s) => s,
            None => {
                return None;
            },
        },
        None => {
            return None;
        },
    };
    let country = match value_get(&v, "country") {
        Some(f) => match value_as_string(f) {
            Some(s) => s,
            None => {
                return None;
            },
        },
        None => {
            return None;
        },
    };
    Some(
        GeoLocation {
            ip,
            city: opt_field(&v, "city"),
            region: opt_field(&v, "region"),
            country,
            loc: opt_field(&v, "loc"),
            org: opt_field(&v, "org"),
            postal: opt_field(&v, "postal"),
            timezone: opt_field(&v, "timezone"),
        },
    )
}

/// An optional string field: the text where the field is present and a
/// string, nothing otherwise.
fn opt_field(v: &serde_json::Value, key: &str) -> (r: Option<String>)
    ensures
        view_opt(r) == opt_str_field(doc_of(*v), key@),
{
    match value_get(v, key) {
        Some(f) => value_as_string(f),
        None => None,
    }
}

/// The country code reported for a detection outcome: the location's
/// country, or `UNKNOWN` when nothing usable came back.
pub fn country_of_geo(geo: Option<&GeoLocation>) -> (r: String)
    ensures
        match geo {
            Some(g) => r@ == g.country@,
            None => r@ == "UNKNOWN"@,
        },
{
    match geo {
        Some(g) => g.country.clone(),
        None => String::from_str("UNKNOWN"),
    }
}

} // verus!
