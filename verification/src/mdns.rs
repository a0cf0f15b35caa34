//! What DNS-SD tells the node: the services it browsed, and the registries
//! among them.

use vstd::prelude::*;

use crate::text::{
    chars_of, decimal, parse_u8, parse_u8_spec, pieces, push_decimal, split, str_eq,
};
use crate::version::{parse_version, APIVersion};

verus! {

/// The path of the registration API below a registry's address.
pub open spec fn registration_path() -> Seq<char> {
    "/x-nmos/registration/"@
}

/// Settings of the mDNS adapter. There are none yet.
#[derive(Debug, Clone, Copy, PartialEq, Eq, Structural)]
pub struct NmosMdnsConfig {}

/// The services of NMOS that DNS-SD knows.
#[derive(Debug, Clone, Copy, PartialEq, Eq, Structural)]
pub enum NmosMdnsService {
    Node,
    Registration,
    Query,
}

/// The name under which DNS-SD knows a service, without the leading
/// underscore: the node advertises `nmos-node` and browses `nmos-register`,
/// both over `tcp`.
pub open spec fn service_name(service: NmosMdnsService) -> Seq<char> {
    match service {
        NmosMdnsService::Node => "nmos-node"@,
        NmosMdnsService::Registration => "nmos-register"@,
        NmosMdnsService::Query => "nmos-query"@,
    }
}

impl NmosMdnsService {
    /// The name under which DNS-SD knows the service.
    pub fn name(&self) -> (s: &'static str)
        ensures
            s@ == service_name(*self),
    {
        match self {
            NmosMdnsService::Node => "nmos-node",
            NmosMdnsService::Registration => "nmos-register",
            NmosMdnsService::Query => "nmos-query",
        }
    }
}

/// An IP address, as the text that is usual for its family.
#[derive(Debug)]
pub enum IpAddress {
    V4(String),
    V6(String),
}

/// The TXT record of a service: keys with their values, in the order of the
/// record.
#[derive(Debug)]
pub struct TxtRecord {
    pub entries: Vec<(String, String)>,
}

/// A service instance that browsing found and resolved.
#[derive(Debug)]
pub struct ServiceDiscovery {
    /// The name of the instance.
    pub name: String,
    /// The address of the instance; `None` where the resolver gave a text
    /// that is no IP address.
    pub address: Option<IpAddress>,
    /// The port of the instance.
    pub port: u16,
    /// The TXT record, if the instance has one.
    pub txt: Option<TxtRecord>,
}

/// A service of this node that DNS-SD has taken up.
#[derive(Debug)]
pub struct ServiceRegistration {
    pub name: String,
    pub service_type: String,
    pub domain: String,
}

/// What the mDNS adapter reports. A failure carries the adapter's message.
#[derive(Debug)]
pub enum NmosMdnsEvent {
    Discovery(NmosMdnsService, Result<ServiceDiscovery, String>),
    Registration(NmosMdnsService, Result<ServiceRegistration, String>),
}

/// A registry that was discovered.
#[derive(Debug)]
pub struct NmosMdnsRegistry {
    pub api_proto: String,
    pub api_ver: Vec<APIVersion>,
    pub api_auth: bool,
    pub pri: u8,
    pub url: String,
}

/// The mathematical form of a registry.
pub struct RegistryView {
    pub api_proto: Seq<char>,
    pub api_ver: Seq<APIVersion>,
    pub api_auth: bool,
    pub pri: u8,
    pub url: Seq<char>,
}

impl View for NmosMdnsRegistry {
    type V = RegistryView;

    open spec fn view(&self) -> RegistryView {
        RegistryView {
            api_proto: self.api_proto@,
            api_ver: self.api_ver@,
            api_auth: self.api_auth,
            pri: self.pri,
            url: self.url@,
        }
    }
}

/// The keys and values of a TXT record as characters.
pub open spec fn txt_view(entries: Seq<(String, String)>) -> Seq<(Seq<char>, Seq<char>)> {
    Seq::new(entries.len(), |i: int| (entries[i].0@, entries[i].1@))
}

/// The value of the first entry with the key.
pub open spec fn txt_value(entries: Seq<(Seq<char>, Seq<char>)>, key: Seq<char>) -> Option<
    Seq<char>,
>
    decreases entries.len(),
{
    if entries.len() == 0 {
        None
    } else if entries[0].0 == key {
        Some(entries[0].1)
    } else {
        txt_value(entries.skip(1), key)
    }
}

/// The text of an address with a port: an IPv6 address stands in brackets.
pub open spec fn socket_text(address: IpAddress, port: u16) -> Seq<char> {
    match address {
        IpAddress::V4(text) => text@ + seq![':'] + decimal(port as nat),
        IpAddress::V6(text) => seq!['['] + text@ + seq![']', ':'] + decimal(port as nat),
    }
}

/// The versions that a list with commas spells, if each piece spells one.
pub open spec fn version_list(s: Seq<char>) -> Option<Seq<APIVersion>> {
    let p = pieces(s, ',');
    if forall|i: int| 0 <= i < p.len() ==> parse_version(#[trigger] p[i]) is Some {
        Some(Seq::new(p.len(), |i: int| parse_version(p[i])->0))
    } else {
        None
    }
}

/// The truth value that `s` spells: `true` or `false`, nothing else.
pub open spec fn parse_bool(s: Seq<char>) -> Option<bool> {
    if s == "true"@ {
        Some(true)
    } else if s == "false"@ {
        Some(false)
    } else {
        None
    }
}

/// The text of the URI that `http::Uri::builder` builds from a scheme, an
/// authority and a path with query, or `None` where it reports an error.
pub uninterp spec fn uri_text(
    scheme: Seq<char>,
    authority: Seq<char>,
    path_and_query: Seq<char>,
) -> Option<Seq<char>>;

/// The registry that a discovered service describes, if it describes one: it
/// has an IP address and a TXT record with `api_proto`, `api_ver`, `api_auth`
/// and `pri`, each well formed, and its address makes a URI.
pub open spec fn discovered(d: ServiceDiscovery) -> Option<RegistryView> {
    match (d.txt, d.address) {
        (Some(txt), Some(address)) => {
            let entries = txt_view(txt.entries@);
            match (
                txt_value(entries, "api_proto"@),
                txt_value(entries, "api_ver"@),
                txt_value(entries, "api_auth"@),
                txt_value(entries, "pri"@),
            ) {
                (Some(proto), Some(ver), Some(auth), Some(pri)) => match (
                    uri_text(proto, socket_text(address, d.port), registration_path()),
                    version_list(ver),
                    parse_bool(auth),
                    parse_u8_spec(pri),
                ) {
                    (Some(url), Some(api_ver), Some(api_auth), Some(pri)) => Some(
                        RegistryView { api_proto: proto, api_ver, api_auth, pri, url },
                    ),
                    _ => None,
                },
                _ => None,
            }
        },
        _ => None,
    }
}

/// Builds a URI with `http::Uri::builder` from its three parts and gives its
/// text, or `None` where the builder reports an error.
#[verifier::external_body]
pub(crate) fn build_uri(scheme: &str, authority: &str, path_and_query: &str) -> (r: Option<String>)
    ensures
        r is Some == uri_text(scheme@, authority@, path_and_query@) is Some,
        r matches Some(text) ==> Some(text@) == uri_text(scheme@, authority@, path_and_query@),
{
    http::Uri::builder()
        .scheme(scheme)
        .authority(authority)
        .path_and_query(path_and_query)
        .build()
        .ok()
        .map(|uri| uri.to_string())
}

impl IpAddress {
    /// The text of the address with a port.
    pub fn socket(&self, port: u16) -> (s: String)
        ensures
            s@ == socket_text(*self, port),
    {
        proof {
            reveal_strlit(":");
            reveal_strlit("[");
            reveal_strlit("]:");
        }
        let mut s = String::new();
        match self {
            IpAddress::V4(text) => {
                s.append(text.as_str());
                s.append(":");
            },
            IpAddress::V6(text) => {
                s.append("[");
                s.append(text.as_str());
                s.append("]:");
            },
        }
        push_decimal(&mut s, port as u64);
        assert(s@ =~= socket_text(*self, port));
        s
    }
}

impl TxtRecord {
    /// The value of the first entry with the key.
    pub fn get(&self, key: &str) -> (r: Option<&String>)
        ensures
            r is Some == txt_value(txt_view(self.entries@), key@) is Some,
            r matches Some(value) ==> Some(value@) == txt_value(txt_view(self.entries@), key@),
    {
        let ghost all = txt_view(self.entries@);
        let mut i: usize = 0;
        assert(all.skip(0) =~= all);
        while i < self.entries.len()
            invariant
                i <= self.entries.len(),
                all == txt_view(self.entries@),
                txt_value(all, key@) == txt_value(all.skip(i as int), key@),
            decreases self.entries.len() - i,
        {
            proof {
                let rest = all.skip(i as int);
                assert(rest[0] == all[i as int]);
                assert(rest.skip(1) =~= all.skip(i + 1));
            }
            if str_eq(self.entries[i].0.as_str(), key) {
                return Some(&self.entries[i].1);
            }
            i = i + 1;
        }
        None
    }
}

/// Reads a list of versions with commas between them.
pub fn parse_version_list(text: &str) -> (r: Option<Vec<APIVersion>>)
    ensures
        r is Some == version_list(text@) is Some,
        r matches Some(list) ==> Some(list@) == version_list(text@),
{
    let v = chars_of(text);
    let ranges = split(&v, ',');
    let ghost p = pieces(text@, ',');
    let mut out: Vec<APIVersion> = Vec::new();
    let mut i: usize = 0;
    while i < ranges.len()
        invariant
            i <= ranges.len(),
            v@ == text@,
            p == pieces(text@, ','),
            ranges@.len() == p.len(),
            forall|k: int|
                0 <= k < ranges@.len() ==> (#[trigger] ranges@[k]).0 <= ranges@[k].1 <= v@.len()
                    && v@.subrange(ranges@[k].0 as int, ranges@[k].1 as int) == p[k],
            out@.len() == i,
            forall|k: int| 0 <= k < i ==> parse_version(#[trigger] p[k]) == Some(out@[k]),
        decreases ranges.len() - i,
    {
        let (from, to) = ranges[i];
        match APIVersion::parse_chars(&v, from, to) {
            Some(version) => {
                out.push(version);
            },
            None => {
                assert(parse_version(p[i as int]) is None);
                return None;
            },
        }
        i = i + 1;
    }
    assert(out@ =~= Seq::new(p.len(), |i: int| parse_version(p[i])->0));
    Some(out)
}

/// Reads a truth value: `true` or `false`.
pub fn parse_flag(text: &str) -> (r: Option<bool>)
    ensures
        r == parse_bool(text@),
{
    if str_eq(text, "true") {
        Some(true)
    } else if str_eq(text, "false") {
        Some(false)
    } else {
        None
    }
}

impl NmosMdnsRegistry {
    /// The registry that a discovered service describes, if it describes one.
    pub fn parse(discovery: &ServiceDiscovery) -> (r: Option<Self>)
        ensures
            r is Some == discovered(*discovery) is Some,
            r matches Some(registry) ==> Some(registry@) == discovered(*discovery),
    {
        let txt = match &discovery.txt {
            Some(txt) => txt,
            None => {
                return None;
            },
        };
        let (api_proto, api_ver, api_auth, pri) = match (
            txt.get("api_proto"),
            txt.get("api_ver"),
            txt.get("api_auth"),
            txt.get("pri"),
        ) {
            (Some(api_proto), Some(api_ver), Some(api_auth), Some(pri)) => (
                api_proto,
                api_ver,
                api_auth,
                pri,
            ),
            _ => {
                return None;
            },
        };
        let address = match &discovery.address {
            Some(address) => address,
            None => {
                return None;
            },
        };
        let authority = address.socket(discovery.port);
        let url = match build_uri(api_proto.as_str(), authority.as_str(), "/x-nmos/registration/") {
            Some(url) => url,
            None => {
                return None;
            },
        };
        let api_ver = match parse_version_list(api_ver.as_str()) {
            Some(api_ver) => api_ver,
            None => {
                return None;
            },
        };
        let api_auth = match parse_flag(api_auth.as_str()) {
            Some(api_auth) => api_auth,
            None => {
                return None;
            },
        };
        let digits = chars_of(pri.as_str());
        assert(digits@.subrange(0, digits.len() as int) =~= pri@);
        let pri = match parse_u8(&digits, 0, digits.len()) {
            Some(pri) => pri,
            None => {
                return None;
            },
        };
        Some(NmosMdnsRegistry { api_proto: api_proto.clone(), api_ver, api_auth, pri, url })
    }
}

} // verus!
