//! Choosing servers from what discovery and the resources API report, and
//! reading a server's identity from its root XML.
use vstd::prelude::*;
use crate::models::{DiscoveredServer, DiscoveredServerView, PlexConnection, PlexResource};
use crate::text::{
    chars_of, concat, contains_str, decimal, decimal_string, find_chars, opt_view, spec_contains,
    spec_find, string_of,
};
use crate::query::{lemma_find_in_bounds, slice_skip, slice_take};
use crate::config::{
    add_server, same_apart_from_servers, server_views, servers_model, spec_add_server, AppConfig,
    ServersModel,
};
use crate::models::ServerConfigView;
use crate::text::{owned, spec_starts_with, starts_with_str, str_eq};
use crate::keychain::{keychain_error_text, KeychainError};
use crate::query::{split_char, split_on};
use crate::sort::{chars_le, chars_le_exec, lemma_chars_le_antisymmetric, lemma_chars_le_total, lemma_chars_le_transitive};
use crate::text::{join, seq_join, views};

verus! {

broadcast use vstd::string::group_string_axioms;

/// Why discovery failed.
#[derive(Debug)]
pub enum DiscoveryError {
    Http(String),
    Config(crate::config::ConfigError),
    Parse(String),
    Other(String),
}

/// A connection that is local and not relayed.
pub open spec fn is_local_direct(c: PlexConnection) -> bool {
    c.local == Some(true) && c.relay != Some(true)
}

/// A connection that is not relayed.
pub open spec fn is_direct(c: PlexConnection) -> bool {
    c.relay != Some(true)
}

/// The first index at or after `k` of a local, non-relayed connection.
pub open spec fn first_local_direct(cs: Seq<PlexConnection>, k: int) -> Option<int>
    decreases cs.len() - k,
{
    if k < 0 || k >= cs.len() {
        None
    } else if is_local_direct(cs[k]) {
        Some(k)
    } else {
        first_local_direct(cs, k + 1)
    }
}

/// The first index at or after `k` of a non-relayed connection.
pub open spec fn first_direct(cs: Seq<PlexConnection>, k: int) -> Option<int>
    decreases cs.len() - k,
{
    if k < 0 || k >= cs.len() {
        None
    } else if is_direct(cs[k]) {
        Some(k)
    } else {
        first_direct(cs, k + 1)
    }
}

/// The index of the best connection: the first local non-relayed one, else
/// the first non-relayed one, else the first one.
pub open spec fn best_connection_index(cs: Seq<PlexConnection>) -> Option<int> {
    if let Some(i) = first_local_direct(cs, 0) {
        Some(i)
    } else if let Some(i) = first_direct(cs, 0) {
        Some(i)
    } else if cs.len() > 0 {
        Some(0)
    } else {
        None
    }
}

proof fn lemma_first_local_direct_bounds(cs: Seq<PlexConnection>, k: int)
    ensures
        first_local_direct(cs, k) matches Some(i) ==> k <= i < cs.len() && is_local_direct(cs[i]),
    decreases cs.len() - k,
{
    if k < 0 || k >= cs.len() {
    } else if is_local_direct(cs[k]) {
    } else {
        lemma_first_local_direct_bounds(cs, k + 1);
    }
}

proof fn lemma_first_direct_bounds(cs: Seq<PlexConnection>, k: int)
    ensures
        first_direct(cs, k) matches Some(i) ==> k <= i < cs.len() && is_direct(cs[i]),
    decreases cs.len() - k,
{
    if k < 0 || k >= cs.len() {
    } else if is_direct(cs[k]) {
    } else {
        lemma_first_direct_bounds(cs, k + 1);
    }
}

proof fn lemma_first_local_direct_least(cs: Seq<PlexConnection>, k: int)
    requires
        0 <= k,
    ensures
        match first_local_direct(cs, k) {
            Some(i) => k <= i < cs.len() && cs[i].local == Some(true) && cs[i].relay != Some(true)
                && forall|j: int| k <= j < i ==> !(cs[j].local == Some(true) && cs[j].relay != Some(true)),
            None => forall|j: int| k <= j < cs.len() ==> !(cs[j].local == Some(true) && cs[j].relay != Some(true)),
        },
    decreases cs.len() - k,
{
    if k < cs.len() {
        lemma_first_local_direct_least(cs, k + 1);
    }
}

proof fn lemma_first_direct_least(cs: Seq<PlexConnection>, k: int)
    requires
        0 <= k,
    ensures
        match first_direct(cs, k) {
            Some(i) => k <= i < cs.len() && cs[i].relay != Some(true)
                && forall|j: int| k <= j < i ==> cs[j].relay == Some(true),
            None => forall|j: int| k <= j < cs.len() ==> cs[j].relay == Some(true),
        },
    decreases cs.len() - k,
{
    if k < cs.len() {
        lemma_first_direct_least(cs, k + 1);
    }
}

/// Every server with at least one connection gets one: the first local,
/// non-relayed connection; failing that, the first non-relayed one; failing
/// that (a server reachable only through relays), the first connection.
pub proof fn law_best_connection(cs: Seq<PlexConnection>)
    requires
        cs.len() > 0,
    ensures
        best_connection_index(cs) matches Some(i) && 0 <= i < cs.len() && {
            if exists|j: int| 0 <= j < cs.len() && cs[j].local == Some(true) && cs[j].relay != Some(true) {
                &&& cs[i].local == Some(true) && cs[i].relay != Some(true)
                &&& forall|j: int| 0 <= j < i ==> !(cs[j].local == Some(true) && cs[j].relay != Some(true))
            } else if exists|j: int| 0 <= j < cs.len() && cs[j].relay != Some(true) {
                &&& cs[i].relay != Some(true)
                &&& forall|j: int| 0 <= j < i ==> cs[j].relay == Some(true)
            } else {
                i == 0
            }
        },
{
    lemma_first_local_direct_least(cs, 0);
    lemma_first_direct_least(cs, 0);
}

/// A device that provides `server` and has a connection is listed, reached
/// through its best connection.
pub proof fn law_server_with_connection_is_listed(d: PlexResource)
    requires
        d.provides is Some,
        spec_contains(d.provides->0@, "server"@),
        d.connections@.len() > 0,
    ensures
        server_entry(d) matches Some(s) && best_connection_index(d.connections@) matches Some(i)
            && s.base_url == connection_base_url(d.connections@[i]) && s.name == d.name@,
{
    law_best_connection(d.connections@);
}

/// Selects the best connection for a server.
/// Priority: local non-relay > any non-relay > first available.
pub fn best_server_connection(connections: &[PlexConnection]) -> (r: Option<&PlexConnection>)
    ensures
        match best_connection_index(connections@) {
            Some(i) => r matches Some(c) && *c == connections@[i],
            None => r is None,
        },
{
    let mut i: usize = 0;
    while i < connections.len()
        invariant
            i <= connections.len(),
            first_local_direct(connections@, 0) == first_local_direct(connections@, i as int),
        decreases connections.len() - i,
    {
        let c = &connections[i];
        if c.local == Some(true) && c.relay != Some(true) {
            return Some(c);
        }
        i += 1;
    }
    let mut j: usize = 0;
    while j < connections.len()
        invariant
            j <= connections.len(),
            first_local_direct(connections@, 0) is None,
            first_direct(connections@, 0) == first_direct(connections@, j as int),
        decreases connections.len() - j,
    {
        let c = &connections[j];
        if c.relay != Some(true) {
            return Some(c);
        }
        j += 1;
    }
    if connections.len() > 0 {
        Some(&connections[0])
    } else {
        None
    }
}

/// The base URL for a connection: its URI, else `protocol://address:port`.
pub open spec fn connection_base_url(c: PlexConnection) -> Seq<char> {
    match c.uri {
        Some(u) => u@,
        None => c.protocol@ + "://"@ + c.address@ + ":"@ + decimal(c.port as nat),
    }
}

/// The server entry for one device: only devices providing `server` that
/// have a connection, reached through their best connection.
pub open spec fn server_entry(d: PlexResource) -> Option<DiscoveredServerView> {
    let provides = match d.provides {
        Some(p) => p@,
        None => Seq::<char>::empty(),
    };
    if !spec_contains(provides, "server"@) {
        None
    } else {
        match best_connection_index(d.connections@) {
            Some(i) => Some(
                DiscoveredServerView {
                    name: d.name@,
                    base_url: connection_base_url(d.connections@[i]),
                    machine_identifier: opt_view(d.client_identifier),
                },
            ),
            None => None,
        }
    }
}

/// The servers among a list of devices, in order.
pub open spec fn servers_of(rs: Seq<PlexResource>) -> Seq<DiscoveredServerView>
    decreases rs.len(),
{
    if rs.len() == 0 {
        seq![]
    } else {
        let prev = servers_of(rs.drop_last());
        match server_entry(rs.last()) {
            Some(s) => prev.push(s),
            None => prev,
        }
    }
}

/// The views of a list of discovered servers.
pub open spec fn discovered_views(v: Seq<DiscoveredServer>) -> Seq<DiscoveredServerView> {
    v.map_values(|s: DiscoveredServer| s@)
}

fn connection_base_url_exec(c: &PlexConnection) -> (r: String)
    ensures
        r@ == connection_base_url(*c),
{
    match &c.uri {
        Some(u) => u.clone(),
        None => {
            let mut r = concat(c.protocol.as_str(), "://");
            r.append(c.address.as_str());
            r.append(":");
            let p = decimal_string(c.port as u64);
            r.append(p.as_str());
            r
        },
    }
}

/// Extracts server entries from a parsed Plex resources response: devices
/// that provide `server`, each reached through its best connection.
pub fn servers_from_resources(resources: &[PlexResource]) -> (r: Vec<DiscoveredServer>)
    ensures
        discovered_views(r@) == servers_of(resources@),
{
    let mut out: Vec<DiscoveredServer> = Vec::new();
    let mut i: usize = 0;
    while i < resources.len()
        invariant
            i <= resources.len(),
            discovered_views(out@) == servers_of(resources@.take(i as int)),
        decreases resources.len() - i,
    {
        let d = &resources[i];
        assert(resources@.take(i + 1).drop_last() == resources@.take(i as int));
        let provides_server = match &d.provides {
            Some(p) => contains_str(p.as_str(), "server"),
            None => {
                let empty = String::new();
                contains_str(empty.as_str(), "server")
            },
        };
        if provides_server {
            match best_server_connection(d.connections.as_slice()) {
                Some(c) => {
                    let s = DiscoveredServer {
                        name: d.name.clone(),
                        base_url: connection_base_url_exec(c),
                        machine_identifier: match &d.client_identifier {
                            Some(m) => Some(m.clone()),
                            None => None,
                        },
                    };
                    let ghost before = out@;
                    out.push(s);
                    assert(discovered_views(out@) == discovered_views(before).push(s@));
                },
                None => {},
            }
        }
        i += 1;
    }
    assert(resources@.take(resources.len() as int) == resources@);
    out
}

/// The value of the XML attribute introduced by `marker` (`name="`), up to
/// the next `"`.
pub open spec fn attribute_value(xml: Seq<char>, marker: Seq<char>) -> Option<Seq<char>> {
    match spec_find(xml, marker) {
        Some(s) => {
            let rest = xml.skip(s + marker.len());
            match spec_find(rest, seq!['"']) {
                Some(e) => Some(rest.take(e)),
                None => None,
            }
        },
        None => None,
    }
}

fn attribute_value_exec(xml: &str, marker: &str) -> (r: Option<String>)
    ensures
        opt_view(r) == attribute_value(xml@, marker@),
{
    let v = chars_of(xml);
    let m = chars_of(marker);
    match find_chars(&v, &m) {
        Some(s) => {
            proof {
                lemma_find_in_bounds(v@, m@);
            }
            assert(s + m.len() <= v.len());
            let rest = slice_skip(&v, s + m.len());
            let q = vec!['"'];
            assert(q@ == seq!['"']);
            match find_chars(rest, &q) {
                Some(e) => {
                    proof {
                        lemma_find_in_bounds(rest@, q@);
                    }
                    Some(string_of(slice_take(rest, e)))
                },
                None => None,
            }
        },
        None => None,
    }
}

/// Simple XML attribute extraction for machineIdentifier.
pub fn extract_machine_identifier(xml: &str) -> (r: Option<String>)
    ensures
        opt_view(r) == attribute_value(xml@, "machineIdentifier=\""@),
{
    attribute_value_exec(xml, "machineIdentifier=\"")
}

/// Simple XML attribute extraction for friendlyName.
pub fn extract_server_name(xml: &str) -> (r: Option<String>)
    ensures
        opt_view(r) == attribute_value(xml@, "friendlyName=\""@),
{
    attribute_value_exec(xml, "friendlyName=\"")
}

/// The index of the first server at or after `k` with base URL `u`.
pub open spec fn index_of_base_url_from(servers: Seq<ServerConfigView>, u: Seq<char>, k: int) -> Option<int>
    decreases servers.len() - k,
{
    if k < 0 || k >= servers.len() {
        None
    } else if servers[k].base_url == u {
        Some(k)
    } else {
        index_of_base_url_from(servers, u, k + 1)
    }
}

/// The servers after the first one with base URL `u` has been given the
/// machine identifier `mid`, when there is one.
pub open spec fn with_machine_id(servers: Seq<ServerConfigView>, u: Seq<char>, mid: Option<Seq<char>>) -> Seq<ServerConfigView> {
    match mid {
        None => servers,
        Some(id) => match index_of_base_url_from(servers, u, 0) {
            Some(i) => servers.update(i, ServerConfigView { machine_identifier: Some(id), ..servers[i] }),
            None => servers,
        },
    }
}

proof fn lemma_index_of_base_url_bounds(servers: Seq<ServerConfigView>, u: Seq<char>, k: int)
    ensures
        index_of_base_url_from(servers, u, k) matches Some(i) ==> k <= i < servers.len() && servers[i].base_url == u,
    decreases servers.len() - k,
{
    if k < 0 || k >= servers.len() {
    } else if servers[k].base_url == u {
    } else {
        lemma_index_of_base_url_bounds(servers, u, k + 1);
    }
}

/// Adds a discovered server (remote when its URL is `https://`) and records
/// its machine identifier on the server with its base URL. A refused
/// addition is reported as a configuration error and changes nothing.
#[verifier::loop_isolation(false)]
pub fn auto_add_discovered_server(
    config: &mut AppConfig,
    name: String,
    base_url: String,
    machine_identifier: Option<String>,
) -> (r: Result<(), DiscoveryError>)
    requires
        old(config).servers.len() < usize::MAX,
    ensures
        same_apart_from_servers(*final(config), *old(config)),
        match spec_add_server(servers_model(*old(config)), name@, base_url@, spec_starts_with(base_url@, "https://"@)) {
            Err(e) => r matches Err(DiscoveryError::Config(x)) && x@ == e
                && servers_model(*final(config)) == servers_model(*old(config)),
            Ok(m) => r is Ok && servers_model(*final(config)) == (ServersModel {
                servers: with_machine_id(m.servers, base_url@, opt_view(machine_identifier)),
                default_id: m.default_id,
            }),
        },
{
    let is_remote = starts_with_str(base_url.as_str(), "https://");
    let url = base_url.clone();
    match add_server(config, name, base_url, is_remote) {
        Err(e) => return Err(DiscoveryError::Config(e)),
        Ok(()) => {},
    }
    let mid = match machine_identifier {
        Some(m) => m,
        None => return Ok(()),
    };
    let ghost after = *config;
    let ghost sv = server_views(config.servers@);
    let mut i: usize = 0;
    while i < config.servers.len()
        invariant
            *config == after,
            sv == server_views(config.servers@),
            i <= config.servers.len(),
            index_of_base_url_from(sv, url@, 0) == index_of_base_url_from(sv, url@, i as int),
        decreases config.servers.len() - i,
    {
        if str_eq(config.servers[i].base_url.as_str(), url.as_str()) {
            let ghost before = config.servers@;
            let mut s = config.servers[i].duplicate();
            s.machine_identifier = Some(mid);
            config.servers.set(i, s);
            proof {
                assert(server_views(config.servers@) == sv.update(i as int, ServerConfigView {
                    machine_identifier: Some(mid@),
                    ..sv[i as int]
                }));
            }
            return Ok(());
        }
        i += 1;
    }
    Ok(())
}

/// The server a root page describes: its friendly name (or "Plex Media
/// Server"), the URL it was reached at, and its machine identifier.
pub fn server_info_from_root(base_url: &str, xml: &str) -> (r: DiscoveredServer)
    ensures
        r@.name == match attribute_value(xml@, "friendlyName=\""@) {
            Some(n) => n,
            None => "Plex Media Server"@,
        },
        r@.base_url == base_url@,
        r@.machine_identifier == attribute_value(xml@, "machineIdentifier=\""@),
{
    let machine_identifier = extract_machine_identifier(xml);
    let name = match extract_server_name(xml) {
        Some(n) => n,
        None => owned("Plex Media Server"),
    };
    DiscoveredServer { name, base_url: owned(base_url), machine_identifier }
}

/// The machine identifier on a root page, or an error when it has none.
pub fn machine_id_from_root(xml: &str) -> (r: Result<String, DiscoveryError>)
    ensures
        match attribute_value(xml@, "machineIdentifier=\""@) {
            Some(m) => r matches Ok(x) && x@ == m,
            None => r matches Err(DiscoveryError::Other(e)) && e@ == "Machine identifier not found"@,
        },
{
    match extract_machine_identifier(xml) {
        Some(m) => Ok(m),
        None => Err(DiscoveryError::Other(owned("Machine identifier not found"))),
    }
}

impl DiscoveryError {
    /// A keychain failure, carried by its text.
    pub fn from_keychain(e: KeychainError) -> (r: Self)
        ensures
            r matches DiscoveryError::Other(m) && m@ == keychain_error_text(e@),
    {
        DiscoveryError::Other(e.message())
    }
}

// ---------------------------------------------------------------------------
// Addresses probed on the local network
// ---------------------------------------------------------------------------

/// The port a media server listens on.
pub const DISCOVERY_PORT: u16 = 32400;

/// The gateways of common home networks.
pub open spec fn common_gateways() -> Seq<Seq<char>> {
    seq!["192.168.1.1"@, "192.168.0.1"@, "192.168.2.1"@, "10.0.0.1"@, "172.16.0.1"@]
}

/// The first three parts of a dotted address, joined again, if it has them.
pub open spec fn subnet_of(gateway: Seq<char>) -> Option<Seq<char>> {
    let parts = split_on(gateway, '.');
    if parts.len() >= 3 {
        Some(seq_join(parts.take(3), "."@))
    } else {
        None
    }
}

/// The first ten hosts of each gateway's subnet, gateway by gateway.
pub open spec fn subnet_hosts(gateways: Seq<Seq<char>>) -> Seq<Seq<char>>
    decreases gateways.len(),
{
    if gateways.len() == 0 {
        Seq::empty()
    } else {
        subnet_hosts(gateways.drop_last()) + match subnet_of(gateways.last()) {
            Some(base) => Seq::new(10, |i: int| base + "."@ + decimal((i + 1) as nat)),
            None => Seq::empty(),
        }
    }
}

/// Every address discovery probes: this machine, the common gateways, and
/// the first ten hosts of their subnets (with repeats).
pub open spec fn candidate_addresses() -> Seq<Seq<char>> {
    seq!["127.0.0.1"@] + common_gateways() + subnet_hosts(common_gateways())
}

/// Strict lexicographic order of strings.
pub open spec fn chars_lt(a: Seq<char>, b: Seq<char>) -> bool {
    chars_le(a, b) && a != b
}

/// Strictly increasing, hence without repeats.
pub open spec fn strictly_sorted(s: Seq<Seq<char>>) -> bool {
    forall|i: int, j: int| 0 <= i < j < s.len() ==> chars_lt(#[trigger] s[i], #[trigger] s[j])
}

fn chars_lt_exec(a: &Vec<char>, b: &Vec<char>) -> (r: bool)
    ensures
        r == chars_lt(a@, b@),
{
    if !chars_le_exec(a, b) {
        return false;
    }
    if a.len() != b.len() {
        return true;
    }
    let mut i: usize = 0;
    while i < a.len()
        invariant
            chars_le(a@, b@),
            a@.len() == b@.len(),
            i <= a.len(),
            forall|k: int| 0 <= k < i ==> a@[k] == b@[k],
        decreases a.len() - i,
    {
        if a[i] != b[i] {
            assert(a@[i as int] != b@[i as int]);
            return true;
        }
        i += 1;
    }
    assert(a@ == b@);
    false
}

/// The distinct strings of `v`, in increasing order (what sorting and then
/// dropping repeats gives).
pub fn sorted_unique(v: &Vec<String>) -> (r: Vec<String>)
    ensures
        strictly_sorted(views(r@)),
        views(r@).to_set() == views(v@).to_set(),
{
    let ghost vv = views(v@);
    let mut out: Vec<String> = Vec::new();
    let mut keys: Vec<Vec<char>> = Vec::new();
    let mut i: usize = 0;
    assert(vv.take(0).to_set() == Set::<Seq<char>>::empty());
    assert(views(out@).to_set() == Set::<Seq<char>>::empty());
    while i < v.len()
        invariant
            vv == views(v@),
            i <= v.len(),
            out@.len() == keys@.len(),
            forall|j: int| 0 <= j < out@.len() ==> #[trigger] keys@[j]@ == out@[j]@,
            strictly_sorted(views(out@)),
            views(out@).to_set() == vv.take(i as int).to_set(),
        decreases v.len() - i,
    {
        let x = chars_of(v[i].as_str());
        let ghost o = views(out@);
        let mut p: usize = 0;
        while p < out.len() && chars_lt_exec(&keys[p], &x)
            invariant
                p <= out@.len(),
                out@.len() == keys@.len(),
                o == views(out@),
                forall|j: int| 0 <= j < out@.len() ==> #[trigger] keys@[j]@ == out@[j]@,
                forall|j: int| 0 <= j < p ==> chars_lt(#[trigger] o[j], x@),
            decreases out@.len() - p,
        {
            assert(o[p as int] == out@[p as int]@);
            p += 1;
        }
        let ghost xs = v@[i as int]@;
        assert(xs == x@);
        assert(vv.take(i + 1) == vv.take(i as int).push(xs));
        if p < out.len() && chars_eq_vec(&keys[p], &x) {
            proof {
                assert(o[p as int] == xs);
                assert(o.contains(xs));
                vv.take(i as int).lemma_push_to_set_commute(xs);
                assert(vv.take(i + 1).to_set() == vv.take(i as int).to_set().insert(xs));
                assert(o.to_set().contains(xs));
                assert(o.to_set().insert(xs) == o.to_set());
            }
        } else {
            let ghost ok = keys@;
            out.insert(p, v[i].clone());
            keys.insert(p, x);
            proof {
                let n = views(out@);
                assert(n == o.insert(p as int, xs));
                if p < o.len() {
                    assert(o[p as int] == keys@[p as int + 1]@) by {
                        assert(keys@[p as int + 1] == ok[p as int]);
                    };
                    assert(!chars_lt(o[p as int], xs));
                    assert(o[p as int] != xs);
                    lemma_chars_le_total(o[p as int], xs);
                    assert(chars_lt(xs, o[p as int]));
                }
                assert forall|j: int| 0 <= j < out@.len() implies #[trigger] keys@[j]@ == out@[j]@ by {
                    if j < p {
                        assert(keys@[j] == ok[j]);
                    } else if j > p {
                        assert(keys@[j] == ok[j - 1]);
                    }
                }
                assert forall|a: int, b: int| 0 <= a < b < n.len() implies chars_lt(#[trigger] n[a], #[trigger] n[b]) by {
                    if b < p {
                        assert(n[a] == o[a] && n[b] == o[b]);
                    } else if b == p {
                        assert(n[a] == o[a] && n[b] == xs);
                    } else if a < p {
                        assert(n[a] == o[a] && n[b] == o[b - 1]);
                        assert(chars_lt(o[a], xs));
                        assert(chars_lt(xs, o[p as int]));
                        if p < b - 1 {
                            assert(chars_lt(o[p as int], o[b - 1]));
                            lemma_chars_le_transitive(xs, o[p as int], o[b - 1]);
                        }
                        lemma_chars_le_transitive(o[a], xs, o[b - 1]);
                        if o[a] == o[b - 1] {
                            lemma_chars_le_antisymmetric(o[a], xs);
                        }
                    } else if a == p {
                        assert(n[a] == xs && n[b] == o[b - 1]);
                        if p < b - 1 {
                            assert(chars_lt(o[p as int], o[b - 1]));
                            lemma_chars_le_transitive(xs, o[p as int], o[b - 1]);
                            if xs == o[b - 1] {
                                lemma_chars_le_antisymmetric(xs, o[p as int]);
                            }
                        }
                    } else {
                        assert(n[a] == o[a - 1] && n[b] == o[b - 1]);
                    }
                }
                assert forall|s: Seq<char>| n.to_set().contains(s) <==> o.to_set().insert(xs).contains(s) by {
                    if n.to_set().contains(s) {
                        let k = choose|k: int| 0 <= k < n.len() && n[k] == s;
                        if k < p {
                            assert(o[k] == s);
                        } else if k > p {
                            assert(o[k - 1] == s);
                        }
                    }
                    if o.to_set().contains(s) && s != xs {
                        let k = choose|k: int| 0 <= k < o.len() && o[k] == s;
                        if k < p {
                            assert(n[k] == s);
                        } else {
                            assert(n[k + 1] == s);
                        }
                    }
                    if s == xs {
                        assert(n[p as int] == xs);
                    }
                }
                assert(n.to_set() == o.to_set().insert(xs));
                vv.take(i as int).lemma_push_to_set_commute(xs);
                assert(vv.take(i + 1).to_set() == vv.take(i as int).to_set().insert(xs));
            }
        }
        i += 1;
    }
    assert(vv.take(v.len() as int) == vv);
    out
}

fn chars_eq_vec(a: &Vec<char>, b: &Vec<char>) -> (r: bool)
    ensures
        r == (a@ == b@),
{
    crate::text::chars_eq(a.as_slice(), b.as_slice())
}

/// The first three parts of a dotted address, joined again.
fn subnet_of_exec(gateway: &str) -> (r: Option<String>)
    ensures
        match subnet_of(gateway@) {
            Some(b) => r matches Some(x) && x@ == b,
            None => r is None,
        },
{
    let parts = split_char(gateway, '.');
    if parts.len() < 3 {
        return None;
    }
    let mut first: Vec<String> = Vec::new();
    first.push(parts[0].clone());
    first.push(parts[1].clone());
    first.push(parts[2].clone());
    assert(views(first@) == views(parts@).take(3));
    Some(join(&first, "."))
}

/// Every address discovery probes, in the order they are listed (this
/// machine, the gateways, their subnets).
pub fn candidate_address_list() -> (r: Vec<String>)
    ensures
        views(r@) == candidate_addresses(),
{
    let mut r: Vec<String> = Vec::new();
    r.push(crate::text::owned("127.0.0.1"));
    let mut gateways: Vec<String> = Vec::new();
    gateways.push(crate::text::owned("192.168.1.1"));
    gateways.push(crate::text::owned("192.168.0.1"));
    gateways.push(crate::text::owned("192.168.2.1"));
    gateways.push(crate::text::owned("10.0.0.1"));
    gateways.push(crate::text::owned("172.16.0.1"));
    assert(views(gateways@) == common_gateways());
    let mut g: usize = 0;
    while g < gateways.len()
        invariant
            views(gateways@) == common_gateways(),
            g <= gateways.len(),
            views(r@) == seq!["127.0.0.1"@] + common_gateways().take(g as int),
        decreases gateways.len() - g,
    {
        let ghost before = views(r@);
        r.push(gateways[g].clone());
        assert(views(r@) == before.push(gateways@[g as int]@));
        assert(common_gateways().take(g + 1) == common_gateways().take(g as int).push(common_gateways()[g as int]));
        g += 1;
    }
    assert(common_gateways().take(5) == common_gateways());
    let ghost head = views(r@);
    let mut g: usize = 0;
    assert(common_gateways().take(0) == Seq::<Seq<char>>::empty());
    while g < gateways.len()
        invariant
            views(gateways@) == common_gateways(),
            g <= gateways.len(),
            head == seq!["127.0.0.1"@] + common_gateways(),
            views(r@) == head + subnet_hosts(common_gateways().take(g as int)),
        decreases gateways.len() - g,
    {
        assert(common_gateways().take(g + 1).drop_last() == common_gateways().take(g as int));
        assert(common_gateways().take(g + 1).last() == gateways@[g as int]@);
        match subnet_of_exec(gateways[g].as_str()) {
            Some(base) => {
                let ghost hosts = Seq::new(10, |i: int| base@ + "."@ + decimal((i + 1) as nat));
                let ghost start = views(r@);
                let mut h: u64 = 1;
                while h <= 10
                    invariant
                        1 <= h <= 11,
                        views(r@) == start + hosts.take(h - 1),
                        hosts == Seq::new(10, |i: int| base@ + "."@ + decimal((i + 1) as nat)),
                    decreases 11 - h,
                {
                    let mut host = base.clone();
                    host.append(".");
                    let n = crate::text::decimal_string(h);
                    host.append(n.as_str());
                    let ghost before = views(r@);
                    r.push(host);
                    assert(views(r@) == before.push(host@));
                    assert(hosts.take(h as int) == hosts.take(h - 1).push(hosts[h - 1]));
                    h += 1;
                }
                assert(hosts.take(10) == hosts);
            },
            None => {},
        }
        g += 1;
    }
    assert(common_gateways().take(5) == common_gateways());
    r
}

/// The base URL of a server probed at `address`.
pub fn probe_base_url(address: &str) -> (r: String)
    ensures
        r@ == "http://"@ + address@ + ":32400"@,
{
    let mut r = crate::text::owned("http://");
    r.append(address);
    r.append(":32400");
    r
}

/// The addresses discovery probes: each candidate once, in increasing order.
pub fn discovery_addresses() -> (r: Vec<String>)
    ensures
        strictly_sorted(views(r@)),
        views(r@).to_set() == candidate_addresses().to_set(),
{
    let all = candidate_address_list();
    sorted_unique(&all)
}

} // verus!
