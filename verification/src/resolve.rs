//! Which address of the server a WebSocket client connects to: an address that
//! names an IPv4 address is kept, otherwise the host's addresses are tried and the fastest
//! one takes the place of the host.

use url::{Host, Position, Url};
use vstd::prelude::*;
#[allow(unused_imports)]
use vstd::utf8::encode_utf8;

use crate::ipv4::reads_as_ipv4;
#[allow(unused_imports)]
use crate::ipv4::{decimal, ipv4_text, ipv4_text_is_ipv4, is_ipv4};
use crate::text::{joined, same};

verus! {

/// A probe that took this many nanoseconds or more does not count.
pub const LATENCY_LIMIT: u128 = 10_000_000_000;

/// The last place in a URL that can be noted: the places of its parts are `u32`.
pub const LAST_PLACE: u128 = 4_294_967_295;

/// An IP address, by its octets.
#[derive(Clone, Copy, Debug, PartialEq, Eq)]
pub enum Ip {
    V4([u8; 4]),
    V6([u8; 16]),
}

/// What is read from a URL.
pub struct UrlView {
    pub scheme: Seq<char>,
    pub host: Option<Seq<char>>,
    /// The port, where it is given and is not the scheme's own.
    pub port: Option<u16>,
    /// Whether the URL has no place for a host, such as `mailto:a@b`.
    pub opaque: bool,
    /// Whether the part for the host is there, as in `file:///a`, though it may be
    /// empty.
    pub authority: bool,
    /// The URL up to its host, in its normal form.
    pub before_host: Seq<char>,
    /// The URL from the end of its host on, in its normal form.
    pub after_host: Seq<char>,
    pub path: Seq<char>,
    /// The query, without its question mark.
    pub query: Option<Seq<char>>,
    /// The fragment, without its hash sign.
    pub fragment: Option<Seq<char>>,
    /// The whole URL in its normal form.
    pub serialization: Seq<char>,
}

/// The host of a URL; a URL without one has an empty host.
pub open spec fn host_of(u: UrlView) -> Seq<char> {
    match u.host {
        Some(h) => h,
        None => Seq::empty(),
    }
}

/// Whether the parts of a URL agree: the host stands in its place, a URL with a host
/// has the part for it, and one with that part is not opaque.
pub open spec fn coherent(u: UrlView) -> bool {
    &&& u.serialization == u.before_host + host_of(u) + u.after_host
    &&& u.host is Some ==> u.authority
    &&& u.authority ==> !u.opaque
}

/// A URL with another host, which gets its slashes where the URL has no part for a
/// host yet.
pub open spec fn with_host(u: UrlView, host: Seq<char>) -> Seq<char> {
    u.before_host + (if u.authority {
        Seq::empty()
    } else {
        "//"@
    }) + host + u.after_host
}

/// How many bytes a text takes.
pub open spec fn bytes(s: Seq<char>) -> nat {
    encode_utf8(s).len()
}

/// How many bytes a URL takes from the last place on that is noted of it: the start
/// of its fragment, of its query where it has no fragment, or of its path where it has
/// neither.
pub open spec fn after_last_place(u: UrlView) -> nat {
    match (u.fragment, u.query) {
        (Some(fragment), _) => 1 + bytes(fragment),
        (None, Some(query)) => 1 + bytes(query),
        (None, None) => bytes(u.path),
    }
}

/// Whether the places in a URL can still be noted once it has another host.
pub open spec fn fits(u: UrlView, host: Seq<char>) -> bool {
    bytes(u.before_host) + (if u.authority {
        0nat
    } else {
        2nat
    }) + bytes(host) + bytes(u.after_host) <= LAST_PLACE + after_last_place(u)
}

/// An IPv6 address as text, without brackets, as the `url` crate writes it.
pub uninterp spec fn ipv6_text(octets: Seq<u8>) -> Seq<char>;

/// An IP address as the host of a URL.
pub open spec fn host_text(ip: Ip) -> Seq<char> {
    match ip {
        Ip::V4(octets) => ipv4_text(octets@),
        Ip::V6(octets) => "["@ + ipv6_text(octets@) + "]"@,
    }
}

/// What the `url` crate reads from a text, or the text of its error.
pub uninterp spec fn url_of(text: Seq<char>) -> Result<UrlView, Seq<char>>;

struct UrlParts {
    scheme: String,
    host: Option<String>,
    port: Option<u16>,
    opaque: bool,
    authority: bool,
    before_host: String,
    after_host: String,
    path: String,
    query: Option<String>,
    fragment: Option<String>,
    serialization: String,
}

spec fn text_view(s: Option<String>) -> Option<Seq<char>> {
    match s {
        Some(t) => Some(t@),
        None => None,
    }
}

spec fn parts_view(p: UrlParts) -> UrlView {
    UrlView {
        scheme: p.scheme@,
        host: text_view(p.host),
        port: p.port,
        opaque: p.opaque,
        authority: p.authority,
        before_host: p.before_host@,
        after_host: p.after_host@,
        path: p.path@,
        query: text_view(p.query),
        fragment: text_view(p.fragment),
        serialization: p.serialization@,
    }
}

/// `url::Url::parse`, with what `scheme`, `host_str`, `port`, `cannot_be_a_base`,
/// `has_authority`, `path`, `query`, `fragment`, `as_str` and the slices at `Position::BeforeHost` and
/// `Position::AfterHost` tell of the URL, and the text of the error. Claims that all
/// of it depends on the text alone, that the host stands between the two slices, that
/// only a URL with an authority has a host, and that such a URL can be a base.
#[verifier::external_body]
fn parse(text: &str) -> (r: Result<UrlParts, String>)
    ensures
        match r {
            Ok(p) => url_of(text@) == Ok::<UrlView, Seq<char>>(parts_view(p)) && coherent(
                parts_view(p),
            ),
            Err(e) => url_of(text@) == Err::<UrlView, Seq<char>>(e@),
        },
{
    let url = Url::parse(text).map_err(|e| e.to_string())?;
    Ok(UrlParts {
        scheme: url.scheme().to_string(),
        host: url.host_str().map(str::to_string),
        port: url.port(),
        opaque: url.cannot_be_a_base(),
        authority: url.has_authority(),
        before_host: url[..Position::BeforeHost].to_string(),
        after_host: url[Position::AfterHost..].to_string(),
        path: url.path().to_string(),
        query: url.query().map(str::to_string),
        fragment: url.fragment().map(str::to_string),
        serialization: url.as_str().to_string(),
    })
}

/// `url::Url::set_ip_host` on the URL in a text, and the text of the URL after it.
/// Claims that it fails exactly on an opaque URL, and otherwise puts the address in
/// the place of the host and leaves the rest as it is: an IPv4 address as `std` writes
/// it, an IPv6 address in brackets, in a form that depends on the address alone. The
/// call moves the places that the URL notes of its parts; with overflow checks it
/// panics where one of them outgrows `u32`, but not on an opaque URL, which it refuses
/// first.
#[verifier::external_body]
fn set_ip_host(text: &str, ip: Ip) -> (r: Option<String>)
    requires
        url_of(text@) matches Ok(u) && (u.opaque || fits(u, host_text(ip))),
    ensures
        r is None <==> url_of(text@)->Ok_0.opaque,
        match (r, ip) {
            (Some(t), Ip::V4(octets)) => t@ == with_host(
                url_of(text@)->Ok_0,
                ipv4_text(octets@),
            ),
            (Some(t), Ip::V6(octets)) => t@ == with_host(
                url_of(text@)->Ok_0,
                "["@ + ipv6_text(octets@) + "]"@,
            ),
            (None, _) => true,
        },
{
    let mut url = Url::parse(text).ok()?;
    url.set_ip_host(match ip {
        Ip::V4(octets) => octets.into(),
        Ip::V6(octets) => octets.into(),
    }).ok()?;
    Some(url.to_string())
}

/// The text of `url::Host` for an IP address: an IPv4 address as `std` writes it, an
/// IPv6 address in brackets, in a form that depends on the address alone.
#[verifier::external_body]
fn host_word(ip: Ip) -> (r: String)
    ensures
        match ip {
            Ip::V4(octets) => r@ == ipv4_text(octets@),
            Ip::V6(octets) => r@ == "["@ + ipv6_text(octets@) + "]"@,
        },
{
    match ip {
        Ip::V4(octets) => Host::<String>::Ipv4(octets.into()).to_string(),
        Ip::V6(octets) => Host::<String>::Ipv6(octets.into()).to_string(),
    }
}

fn byte_len(s: &String) -> (r: u128)
    ensures
        r == bytes(s@),
        r <= usize::MAX,
{
    s.as_str().as_bytes().len() as u128
}

/// Why the client has no address to connect to.
#[derive(Debug, PartialEq, Eq)]
pub enum ResolveError {
    /// The server's address is no URL; the text says why.
    InvalidUrl(String),
    /// No address of the host answered in time.
    NoResponsiveIp { host: String },
    /// The URL cannot hold an IP address.
    SetIpHost,
}

/// `ResolveError` as a mathematical value.
pub enum ResolveErrorView {
    InvalidUrl(Seq<char>),
    NoResponsiveIp { host: Seq<char> },
    SetIpHost,
}

impl View for ResolveError {
    type V = ResolveErrorView;

    open spec fn view(&self) -> ResolveErrorView {
        match self {
            ResolveError::InvalidUrl(e) => ResolveErrorView::InvalidUrl(e@),
            ResolveError::NoResponsiveIp { host } => ResolveErrorView::NoResponsiveIp {
                host: host@,
            },
            ResolveError::SetIpHost => ResolveErrorView::SetIpHost,
        }
    }
}

/// The text of an error.
pub open spec fn error_text(e: ResolveErrorView) -> Seq<char> {
    match e {
        ResolveErrorView::InvalidUrl(e) => e,
        ResolveErrorView::NoResponsiveIp { host } =>
            "Could not find any responsive IP for host: "@ + host,
        ResolveErrorView::SetIpHost => "Failed to set IP host"@,
    }
}

impl ResolveError {
    /// The text of the error.
    pub fn text(&self) -> (r: String)
        ensures
            r@ == error_text(self@),
    {
        match self {
            ResolveError::InvalidUrl(e) => e.clone(),
            ResolveError::NoResponsiveIp { host } => joined(
                "Could not find any responsive IP for host: ",
                host.as_str(),
            ),
            ResolveError::SetIpHost => "Failed to set IP host".to_owned(),
        }
    }
}

/// The port to try: the URL's, else that of secure WebSocket or of plain HTTP.
pub open spec fn port_of(u: UrlView) -> u16 {
    match u.port {
        Some(p) => p,
        None => if u.scheme == "wss"@ {
            443
        } else {
            80
        },
    }
}

/// The server's address as the client was given it, and what is read from it.
pub struct ServerUrl {
    text: String,
    parts: UrlParts,
}

impl ServerUrl {
    /// The address as it was given.
    pub closed spec fn text(&self) -> Seq<char> {
        self.text@
    }

    /// What is read from the address.
    pub closed spec fn url(&self) -> UrlView {
        parts_view(self.parts)
    }

    #[verifier::type_invariant]
    spec fn is_what_it_says(&self) -> bool {
        &&& url_of(self.text@) == Ok::<UrlView, Seq<char>>(parts_view(self.parts))
        &&& coherent(parts_view(self.parts))
    }

    /// Reads the server's address.
    pub fn new(server_url: String) -> (r: Result<ServerUrl, ResolveError>)
        ensures
            match r {
                Ok(u) => u.text() == server_url@ && coherent(u.url()) && url_of(server_url@)
                    == Ok::<UrlView, Seq<char>>(u.url()),
                Err(e) => e@ matches ResolveErrorView::InvalidUrl(words) && url_of(server_url@)
                    == Err::<UrlView, Seq<char>>(words),
            },
    {
        match parse(server_url.as_str()) {
            Ok(parts) => Ok(ServerUrl { text: server_url, parts }),
            Err(e) => Err(ResolveError::InvalidUrl(e)),
        }
    }

    /// The host.
    pub fn host(&self) -> (r: String)
        ensures
            r@ == host_of(self.url()),
    {
        match &self.parts.host {
            Some(h) => h.clone(),
            None => String::new(),
        }
    }

    /// The port to try the host's addresses at.
    pub fn port(&self) -> (r: u16)
        ensures
            r == port_of(self.url()),
    {
        match self.parts.port {
            Some(p) => p,
            None => {
                if same(self.parts.scheme.as_str(), "wss") {
                    443
                } else {
                    80
                }
            },
        }
    }

    /// Whether the host is an IPv4 address. An IPv6 host stands in brackets and is
    /// none.
    pub fn host_is_ipv4(&self) -> (r: bool)
        ensures
            r == is_ipv4(host_of(self.url())),
    {
        reads_as_ipv4(self.host().as_str())
    }

    /// Whether `plan` is what to do about the address: an address whose host is an
    /// IPv4 address is kept as it was given, every other host is looked up.
    pub open spec fn planned(&self, plan: Plan) -> bool {
        match plan {
            Plan::Keep(t) => is_ipv4(host_of(self.url())) && t@ == self.text(),
            Plan::Lookup { host, port } => !is_ipv4(host_of(self.url())) && host@ == host_of(
                self.url(),
            ) && port == port_of(self.url()),
        }
    }

    /// What to do about the address.
    pub fn plan(&self) -> (r: Plan)
        ensures
            self.planned(r),
    {
        if self.host_is_ipv4() {
            Plan::Keep(self.text.clone())
        } else {
            Plan::Lookup { host: self.host(), port: self.port() }
        }
    }

    /// Whether the address would have to take the fastest IP address for its host and
    /// is too long for it.
    pub open spec fn outgrows(&self, probes: Seq<Probe>) -> bool {
        &&& !self.url().opaque
        &&& exists|i: int|
            fastest_at(probes, i) && !fits(self.url(), host_text((#[trigger] probes[i]).ip))
    }

    /// Whether `r` is what the probes decide: the server's address with the fastest
    /// IP address for its host, or the reason why there is none.
    pub open spec fn decided(&self, probes: Seq<Probe>, r: Result<String, ResolveError>) -> bool {
        match r {
            Ok(t) => !self.url().opaque && exists|i: int|
                fastest_at(probes, i) && t@ == with_host(
                    self.url(),
                    host_text((#[trigger] probes[i]).ip),
                ),
            Err(e) => match e@ {
                ResolveErrorView::InvalidUrl(_) => false,
                ResolveErrorView::NoResponsiveIp { host } => host == host_of(self.url())
                    && forall|i: int| 0 <= i < probes.len() ==> !counts(#[trigger] probes[i]),
                ResolveErrorView::SetIpHost => self.url().opaque && exists|i: int|
                    0 <= i < probes.len() && counts(#[trigger] probes[i]),
            },
        }
    }

    /// The address to connect to: the server's address with the fastest IP address
    /// for its host.
    pub fn best_address(&self, probes: &Vec<Probe>) -> (r: Result<String, ResolveError>)
        requires
            !self.outgrows(probes@),
        ensures
            self.decided(probes@, r),
    {
        proof {
            use_type_invariant(self);
        }
        match fastest(probes) {
            Some(i) => {
                let ip = probes[i].ip;
                match set_ip_host(self.text.as_str(), ip) {
                    Some(t) => Ok(t),
                    None => Err(ResolveError::SetIpHost),
                }
            },
            None => Err(ResolveError::NoResponsiveIp { host: self.host() }),
        }
    }

    /// The address to connect to, or nothing where the server's address is too long
    /// to take a new host.
    pub fn find_best_address(&self, probes: &Vec<Probe>) -> (r: Option<
        Result<String, ResolveError>,
    >)
        ensures
            match r {
                Some(address) => !self.outgrows(probes@) && self.decided(probes@, address),
                None => self.outgrows(probes@),
            },
    {
        let too_long = match fastest(probes) {
            Some(i) => {
                proof {
                    assert forall|j: int| #[trigger] fastest_at(probes@, j) implies j == i by {
                        choice_is_unique(probes@, i as int, j);
                    }
                }
                !self.parts.opaque && !self.has_room_for(probes[i].ip)
            },
            None => false,
        };
        if too_long {
            None
        } else {
            Some(self.best_address(probes))
        }
    }

    /// Whether the places in the URL can still be noted once it has the address for its
    /// host.
    fn has_room_for(&self, ip: Ip) -> (r: bool)
        ensures
            r == fits(self.url(), host_text(ip)),
    {
        let slashes: u128 = if self.parts.authority {
            0
        } else {
            2
        };
        let after_last_place: u128 = match (&self.parts.fragment, &self.parts.query) {
            (Some(fragment), _) => 1 + byte_len(fragment),
            (None, Some(query)) => 1 + byte_len(query),
            (None, None) => byte_len(&self.parts.path),
        };
        let host = host_word(ip);
        byte_len(&self.parts.before_host) + slashes + byte_len(&host) + byte_len(
            &self.parts.after_host,
        ) <= LAST_PLACE + after_last_place
    }
}

/// What to do about the server's address.
#[derive(Debug, PartialEq, Eq)]
pub enum Plan {
    /// Connect to the address as it was given.
    Keep(String),
    /// Look the host up and try each of its addresses at the port.
    Lookup { host: String, port: u16 },
}

/// An address that was tried.
#[derive(Clone, Copy, Debug, PartialEq, Eq)]
pub struct Probe {
    pub ip: Ip,
    /// How many nanoseconds it took to connect, or nothing where that failed.
    pub latency: Option<u128>,
}

/// Whether a probe succeeded in time.
pub open spec fn counts(p: Probe) -> bool {
    p.latency matches Some(l) && l < LATENCY_LIMIT
}

/// Whether the probe at `i` is the one to choose: it succeeded in time, none was
/// faster, and none before it was as fast.
pub open spec fn fastest_at(probes: Seq<Probe>, i: int) -> bool {
    &&& 0 <= i < probes.len()
    &&& counts(probes[i])
    &&& forall|j: int|
        0 <= j < probes.len() && counts(#[trigger] probes[j]) ==> probes[i].latency->0
            <= probes[j].latency->0
    &&& forall|j: int|
        0 <= j < i && counts(#[trigger] probes[j]) ==> probes[i].latency->0 < probes[j].latency->0
}

/// The place of the fastest probe, the first of them where several are as fast.
pub fn fastest(probes: &Vec<Probe>) -> (r: Option<usize>)
    ensures
        match r {
            Some(i) => fastest_at(probes@, i as int),
            None => forall|i: int| 0 <= i < probes@.len() ==> !counts(#[trigger] probes@[i]),
        },
{
    let mut best: Option<usize> = None;
    let mut min_latency: u128 = LATENCY_LIMIT;
    let mut i: usize = 0;
    while i < probes.len()
        invariant
            i <= probes@.len(),
            match best {
                Some(b) => b < i && fastest_at(probes@.take(i as int), b as int)
                    && probes@[b as int].latency == Some(min_latency),
                None => min_latency == LATENCY_LIMIT && forall|j: int|
                    0 <= j < i ==> !counts(#[trigger] probes@[j]),
            },
        decreases probes@.len() - i,
    {
        let ghost seen = probes@.take(i as int);
        let ghost now = probes@.take(i + 1);
        assert(forall|j: int| 0 <= j < i ==> #[trigger] now[j] == seen[j]);
        assert(now[i as int] == probes@[i as int]);
        match probes[i].latency {
            Some(latency) => {
                if latency < min_latency {
                    proof {
                        assert forall|j: int|
                            0 <= j < i && counts(#[trigger] now[j]) implies latency
                            < now[j].latency->0 by {
                            assert(now[j] == seen[j]);
                            assert(now[j] == probes@[j]);
                        }
                    }
                    min_latency = latency;
                    best = Some(i);
                }
            },
            None => {},
        }
        i = i + 1;
    }
    assert(probes@.take(probes@.len() as int) == probes@);
    best
}

/// An address that names an IPv4 address is kept letter for letter: once the host has
/// given way to such an address, nothing is looked up again.
pub proof fn an_ipv4_address_is_kept(u: ServerUrl, octets: [u8; 4], plan: Plan)
    requires
        host_of(u.url()) == host_text(Ip::V4(octets)),
        u.planned(plan),
    ensures
        plan matches Plan::Keep(t) && t@ == u.text(),
{
    ipv4_text_is_ipv4(octets@);
}

/// A URL with its own host for a new one is the URL itself: a new host changes
/// nothing but the host.
pub proof fn only_the_host_changes(u: UrlView)
    requires
        coherent(u),
        u.authority,
    ensures
        with_host(u, host_of(u)) == u.serialization,
{
    assert(u.before_host + Seq::<char>::empty() == u.before_host);
}

/// A server that was named by its host takes the address of a probe: it is never
/// refused for want of a place for it.
pub proof fn a_host_takes_an_address(
    u: ServerUrl,
    probes: Seq<Probe>,
    r: Result<String, ResolveError>,
)
    requires
        coherent(u.url()),
        u.url().host is Some,
        u.decided(probes, r),
    ensures
        r is Ok <==> exists|i: int| 0 <= i < probes.len() && counts(#[trigger] probes[i]),
{
}

/// There is one probe to choose at most.
pub proof fn choice_is_unique(probes: Seq<Probe>, i: int, j: int)
    requires
        fastest_at(probes, i),
        fastest_at(probes, j),
    ensures
        i == j,
{
}

/// There is a probe to choose wherever one succeeded in time.
pub proof fn choice_exists(probes: Seq<Probe>)
    ensures
        (exists|i: int| #[trigger] fastest_at(probes, i)) <==> exists|i: int|
            0 <= i < probes.len() && counts(#[trigger] probes[i]),
    decreases probes.len(),
{
    if exists|i: int| 0 <= i < probes.len() && counts(#[trigger] probes[i]) {
        let last = probes.len() - 1;
        let before = probes.drop_last();
        assert(forall|j: int| 0 <= j < last ==> #[trigger] before[j] == probes[j]);
        choice_exists(before);
        if exists|i: int| 0 <= i < before.len() && counts(#[trigger] before[i]) {
            let b = choose|b: int| #[trigger] fastest_at(before, b);
            assert(before[b] == probes[b]);
            assert forall|j: int| 0 <= j < last && counts(#[trigger] probes[j]) implies
                probes[b].latency->0 <= probes[j].latency->0 && (j < b ==> probes[b].latency->0
                < probes[j].latency->0) by {
                assert(before[j] == probes[j]);
            }
            if counts(probes[last]) && probes[last].latency->0 < probes[b].latency->0 {
                assert(fastest_at(probes, last));
            } else {
                assert(fastest_at(probes, b));
            }
        } else {
            assert forall|j: int| 0 <= j < last implies !counts(#[trigger] probes[j]) by {
                assert(before[j] == probes[j]);
            }
            assert(fastest_at(probes, last));
        }
    }
    if exists|i: int| #[trigger] fastest_at(probes, i) {
        let i = choose|i: int| #[trigger] fastest_at(probes, i);
        assert(counts(probes[i]));
    }
}

/// The port is the one that is given, else that of secure WebSocket for `wss` and that of
/// HTTP for every other scheme; the host is the one that is given, else empty.
pub proof fn where_a_url_points(u: UrlView)
    ensures
        u.port matches Some(p) ==> port_of(u) == p,
        u.port is None && u.scheme == "wss"@ ==> port_of(u) == 443,
        u.port is None && u.scheme != "wss"@ ==> port_of(u) == 80,
        u.host matches Some(h) ==> host_of(u) == h,
        u.host is None ==> host_of(u).len() == 0,
{
}

/// A host that is no IPv4 address is looked up, with the port that its URL points to.
pub proof fn other_hosts_are_looked_up(u: ServerUrl, plan: Plan)
    requires
        u.planned(plan),
        !is_ipv4(host_of(u.url())),
    ensures
        plan matches Plan::Lookup { host, port } && host@ == host_of(u.url()) && port == port_of(
            u.url(),
        ),
{
}

/// The probe that is chosen connected in less than ten seconds; every other that did so
/// took as long or longer, and longer where it came first.
pub proof fn the_choice_is_the_fastest(probes: Seq<Probe>, i: int, j: int)
    requires
        fastest_at(probes, i),
        0 <= j < probes.len(),
    ensures
        0 <= i < probes.len(),
        probes[i].latency matches Some(l) && l < 10_000_000_000,
        probes[j].latency matches Some(other) ==> probes[i].latency->0 <= other && (j < i
            ==> probes[i].latency->0 < other),
{
    assert(counts(probes[i]));
    assert(counts(probes[j]) || !counts(probes[j]));
}

/// A probe is chosen wherever one connected in less than ten seconds.
pub proof fn a_timely_probe_is_enough(probes: Seq<Probe>, j: int)
    requires
        0 <= j < probes.len(),
        probes[j].latency matches Some(l) && l < 10_000_000_000,
    ensures
        exists|i: int| #[trigger] fastest_at(probes, i),
{
    assert(counts(probes[j]));
    choice_exists(probes);
}

/// A new host takes the place of the old one between what comes before and after it; a
/// URL without a part for a host gets the slashes for it.
pub proof fn where_a_new_host_goes(u: UrlView, host: Seq<char>)
    ensures
        u.authority ==> with_host(u, host) == u.before_host + host + u.after_host,
        !u.authority ==> with_host(u, host) == u.before_host + "//"@ + host + u.after_host,
{
    assert(u.before_host + Seq::<char>::empty() == u.before_host);
}

/// What the probes decide: where one connected in less than ten seconds, the address with
/// the host of the one that is chosen, unless the URL has no place for a host; where none
/// did, nothing.
pub proof fn what_the_probes_decide(
    u: ServerUrl,
    probes: Seq<Probe>,
    r: Result<String, ResolveError>,
    i: int,
)
    requires
        u.decided(probes, r),
    ensures
        fastest_at(probes, i) && !u.url().opaque ==> (r matches Ok(t) && t@ == with_host(
            u.url(),
            match probes[i].ip {
                Ip::V4(octets) => ipv4_text(octets@),
                Ip::V6(octets) => "["@ + ipv6_text(octets@) + "]"@,
            },
        )),
        fastest_at(probes, i) && u.url().opaque ==> r == Err::<String, ResolveError>(
            ResolveError::SetIpHost,
        ),
        (forall|j: int| 0 <= j < probes.len() ==> !((#[trigger] probes[j]).latency matches Some(l)
            && l < 10_000_000_000)) ==> (r matches Err(ResolveError::NoResponsiveIp { host })
            && host@ == host_of(u.url())),
{
    if fastest_at(probes, i) {
        assert(counts(probes[i]));
        if r is Ok {
            let t = r->Ok_0;
            let k = choose|k: int|
                fastest_at(probes, k) && t@ == with_host(
                    u.url(),
                    host_text((#[trigger] probes[k]).ip),
                );
            choice_is_unique(probes, i, k);
        }
    }
    if forall|j: int|
        0 <= j < probes.len() ==> !((#[trigger] probes[j]).latency matches Some(l) && l
            < 10_000_000_000) {
        assert(forall|j: int| 0 <= j < probes.len() ==> !counts(#[trigger] probes[j]));
        if r is Ok {
            let t = r->Ok_0;
            let k = choose|k: int|
                fastest_at(probes, k) && t@ == with_host(
                    u.url(),
                    host_text((#[trigger] probes[k]).ip),
                );
            assert(counts(probes[k]));
        }
    }
}

/// An address finds room for the host of every probe where the new text would be no
/// longer than `u32` can count.
pub proof fn ordinary_addresses_have_room(u: ServerUrl, probes: Seq<Probe>)
    requires
        forall|i: int|
            0 <= i < probes.len() ==> encode_utf8(u.url().before_host).len() + 2 + encode_utf8(
                host_text((#[trigger] probes[i]).ip),
            ).len() + encode_utf8(u.url().after_host).len() <= 4_294_967_295,
    ensures
        !u.outgrows(probes),
{
}

/// The texts of the errors.
pub proof fn what_the_errors_say(e: ResolveError)
    ensures
        match e {
            ResolveError::InvalidUrl(reason) => error_text(e@) == reason@,
            ResolveError::NoResponsiveIp { host } => error_text(e@)
                == "Could not find any responsive IP for host: "@ + host@,
            ResolveError::SetIpHost => error_text(e@) == "Failed to set IP host"@,
        },
{
}

/// A probe counts exactly where it connected in less than ten seconds.
pub proof fn which_probes_count(p: Probe)
    ensures
        counts(p) <==> (p.latency matches Some(l) && l < 10_000_000_000),
{
}

/// An address stands for a host as a URL writes it: an IPv4 address in decimal with dots,
/// an IPv6 address in brackets.
pub proof fn how_an_address_is_written(ip: Ip)
    ensures
        match ip {
            Ip::V4(o) => exists|a: nat, b: nat, c: nat, d: nat|
                a == o@[0] && b == o@[1] && c == o@[2] && d == o@[3] && host_text(ip)
                    == #[trigger] decimal(a) + "."@ + #[trigger] decimal(b) + "."@
                    + #[trigger] decimal(c) + "."@ + #[trigger] decimal(d),
            Ip::V6(o) => host_text(ip) == "["@ + ipv6_text(o@) + "]"@,
        },
{
    match ip {
        Ip::V4(o) => {
            let (a, b, c, d) = (o@[0] as nat, o@[1] as nat, o@[2] as nat, o@[3] as nat);
            assert(host_text(ip) == decimal(a) + "."@ + decimal(b) + "."@ + decimal(c) + "."@
                + decimal(d));
        },
        _ => {},
    }
}

} // verus!
