//! Static configuration: what the command line, the environment and the
//! configuration file give the agent at start.

use crate::text;
use vstd::prelude::*;

verus! {

/// The agent's configuration.
#[derive(Debug, Clone)]
pub struct Config {
    /// Controller URL (e.g. https://aether.example.com)
    pub aether_url: String,
    /// Management token for the controller's admin API
    pub management_token: String,
    /// Public IP address of this node (detected if absent)
    pub public_ip: Option<String>,
    /// Human-readable node name
    pub node_name: String,
    /// Region label (e.g. ap-northeast-1)
    pub node_region: Option<String>,
    /// Heartbeat interval in seconds
    pub heartbeat_interval: u64,
    /// Allowed destination ports
    pub allowed_ports: Vec<u16>,
    /// Controller API request timeout in seconds
    pub aether_request_timeout_secs: u64,
    /// Controller API connect timeout in seconds
    pub aether_connect_timeout_secs: u64,
    /// Controller API max idle connections per host
    pub aether_pool_max_idle_per_host: usize,
    /// Controller API idle timeout in seconds
    pub aether_pool_idle_timeout_secs: u64,
    /// Controller API TCP keepalive in seconds (0 disables)
    pub aether_tcp_keepalive_secs: u64,
    /// Controller API TCP_NODELAY
    pub aether_tcp_nodelay: bool,
    /// Enable HTTP/2 when talking to the controller API
    pub aether_http2: bool,
    /// Controller API retry attempts (including the first)
    pub aether_retry_max_attempts: u32,
    /// Controller API retry base delay in milliseconds
    pub aether_retry_base_delay_ms: u64,
    /// Controller API retry max delay in milliseconds
    pub aether_retry_max_delay_ms: u64,
    /// Maximum concurrent TCP connections (hardware estimate if absent)
    pub max_concurrent_connections: Option<u64>,
    /// DNS cache TTL in seconds
    pub dns_cache_ttl_secs: u64,
    /// DNS cache capacity (entries)
    pub dns_cache_capacity: usize,
    /// Upstream HTTP client connect timeout in seconds
    pub upstream_connect_timeout_secs: u64,
    /// Upstream HTTP client max idle connections per host
    pub upstream_pool_max_idle_per_host: usize,
    /// Upstream HTTP client idle timeout in seconds
    pub upstream_pool_idle_timeout_secs: u64,
    /// Upstream TCP keepalive in seconds (0 disables)
    pub upstream_tcp_keepalive_secs: u64,
    /// Upstream TCP_NODELAY
    pub upstream_tcp_nodelay: bool,
    /// Log level (trace, debug, info, warn, error)
    pub log_level: String,
    /// Output logs as JSON
    pub log_json: bool,
    /// Tunnel reconnect base delay in milliseconds
    pub tunnel_reconnect_base_ms: u64,
    /// Tunnel reconnect max delay in milliseconds
    pub tunnel_reconnect_max_ms: u64,
    /// Tunnel ping interval in seconds
    pub tunnel_ping_interval_secs: u64,
    /// Maximum concurrent streams over a tunnel (derived from hardware if absent)
    pub tunnel_max_streams: Option<u32>,
    /// Tunnel TCP connect timeout in seconds
    pub tunnel_connect_timeout_secs: u64,
    /// Tunnel TCP keepalive in seconds (0 disables)
    pub tunnel_tcp_keepalive_secs: u64,
    /// Tunnel TCP_NODELAY
    pub tunnel_tcp_nodelay: bool,
    /// Tunnel staleness timeout in seconds (reconnect if no data arrives)
    pub tunnel_stale_timeout_secs: u64,
    /// Number of parallel tunnel connections per controller (the pool)
    pub tunnel_connections: u32,
}

/// Per-controller connection settings (one `[[servers]]` entry of the
/// configuration file).
#[derive(Debug, Clone)]
pub struct ServerEntry {
    pub aether_url: String,
    pub management_token: String,
    /// Per-server node name. Falls back to the global `node_name`.
    pub node_name: Option<String>,
}

/// What a server entry says.
pub struct ServerEntryView {
    pub aether_url: Seq<char>,
    pub management_token: Seq<char>,
    pub node_name: Option<Seq<char>>,
}

impl View for ServerEntry {
    type V = ServerEntryView;

    open spec fn view(&self) -> ServerEntryView {
        ServerEntryView {
            aether_url: self.aether_url@,
            management_token: self.management_token@,
            node_name: match self.node_name {
                Some(n) => Some(n@),
                None => None,
            },
        }
    }
}

impl ServerEntry {
    /// A copy of the entry.
    pub fn duplicate(&self) -> (e: ServerEntry)
        ensures
            e@ == self@,
    {
        ServerEntry {
            aether_url: self.aether_url.clone(),
            management_token: self.management_token.clone(),
            node_name: match &self.node_name {
                Some(n) => Some(n.clone()),
                None => None,
            },
        }
    }
}

/// The configuration file. Every value is optional: only those that are
/// present are written.
#[derive(Debug, Clone)]
pub struct ConfigFile {
    pub aether_url: Option<String>,
    pub management_token: Option<String>,
    pub public_ip: Option<String>,
    pub node_name: Option<String>,
    pub node_region: Option<String>,
    pub heartbeat_interval: Option<u64>,
    pub allowed_ports: Option<Vec<u16>>,
    pub aether_request_timeout_secs: Option<u64>,
    pub aether_connect_timeout_secs: Option<u64>,
    pub aether_pool_max_idle_per_host: Option<usize>,
    pub aether_pool_idle_timeout_secs: Option<u64>,
    pub aether_tcp_keepalive_secs: Option<u64>,
    pub aether_tcp_nodelay: Option<bool>,
    pub aether_http2: Option<bool>,
    pub aether_retry_max_attempts: Option<u32>,
    pub aether_retry_base_delay_ms: Option<u64>,
    pub aether_retry_max_delay_ms: Option<u64>,
    pub max_concurrent_connections: Option<u64>,
    pub dns_cache_ttl_secs: Option<u64>,
    pub dns_cache_capacity: Option<usize>,
    pub upstream_connect_timeout_secs: Option<u64>,
    pub upstream_pool_max_idle_per_host: Option<usize>,
    pub upstream_pool_idle_timeout_secs: Option<u64>,
    pub upstream_tcp_keepalive_secs: Option<u64>,
    pub upstream_tcp_nodelay: Option<bool>,
    pub log_level: Option<String>,
    pub log_json: Option<bool>,
    pub tunnel_reconnect_base_ms: Option<u64>,
    pub tunnel_reconnect_max_ms: Option<u64>,
    pub tunnel_ping_interval_secs: Option<u64>,
    pub tunnel_max_streams: Option<u32>,
    pub tunnel_connect_timeout_secs: Option<u64>,
    pub tunnel_tcp_keepalive_secs: Option<u64>,
    pub tunnel_tcp_nodelay: Option<bool>,
    pub tunnel_stale_timeout_secs: Option<u64>,
    pub tunnel_connections: Option<u32>,
    /// Multi-server configuration: each entry connects to a separate
    /// controller. When present it overrides the top-level URL and token.
    pub servers: Vec<ServerEntry>,
}

/// The ports that are allowed where none are configured.
pub fn default_allowed_ports() -> (ports: Vec<u16>)
    ensures
        ports@ == seq![80u16, 443u16, 8080u16, 8443u16],
{
    let mut ports: Vec<u16> = Vec::new();
    ports.push(80);
    ports.push(443);
    ports.push(8080);
    ports.push(8443);
    assert(ports@ =~= seq![80u16, 443u16, 8080u16, 8443u16]);
    ports
}

impl Config {
    /// The configuration of an agent for which nothing but the controller's
    /// URL and token was given.
    pub fn with_defaults(aether_url: String, management_token: String) -> (c: Config)
        ensures
            c.aether_url == aether_url,
            c.management_token == management_token,
            c.public_ip is None,
            c.node_name@ == "proxy-01"@,
            c.node_region is None,
            c.heartbeat_interval == 30,
            c.allowed_ports@ == seq![80u16, 443u16, 8080u16, 8443u16],
            c.aether_request_timeout_secs == 10,
            c.aether_connect_timeout_secs == 10,
            c.aether_pool_max_idle_per_host == 8,
            c.aether_pool_idle_timeout_secs == 90,
            c.aether_tcp_keepalive_secs == 60,
            c.aether_tcp_nodelay,
            c.aether_http2,
            c.aether_retry_max_attempts == 3,
            c.aether_retry_base_delay_ms == 200,
            c.aether_retry_max_delay_ms == 2000,
            c.max_concurrent_connections is None,
            c.dns_cache_ttl_secs == 60,
            c.dns_cache_capacity == 1024,
            c.upstream_connect_timeout_secs == 30,
            c.upstream_pool_max_idle_per_host == 64,
            c.upstream_pool_idle_timeout_secs == 300,
            c.upstream_tcp_keepalive_secs == 60,
            c.upstream_tcp_nodelay,
            c.log_level@ == "info"@,
            !c.log_json,
            c.tunnel_reconnect_base_ms == 500,
            c.tunnel_reconnect_max_ms == 30000,
            c.tunnel_ping_interval_secs == 15,
            c.tunnel_max_streams is None,
            c.tunnel_connect_timeout_secs == 15,
            c.tunnel_tcp_keepalive_secs == 30,
            c.tunnel_tcp_nodelay,
            c.tunnel_stale_timeout_secs == 45,
            c.tunnel_connections == 3,
    {
        Config {
            aether_url,
            management_token,
            public_ip: None,
            node_name: String::from_str("proxy-01"),
            node_region: None,
            heartbeat_interval: 30,
            allowed_ports: default_allowed_ports(),
            aether_request_timeout_secs: 10,
            aether_connect_timeout_secs: 10,
            aether_pool_max_idle_per_host: 8,
            aether_pool_idle_timeout_secs: 90,
            aether_tcp_keepalive_secs: 60,
            aether_tcp_nodelay: true,
            aether_http2: true,
            aether_retry_max_attempts: 3,
            aether_retry_base_delay_ms: 200,
            aether_retry_max_delay_ms: 2000,
            max_concurrent_connections: None,
            dns_cache_ttl_secs: 60,
            dns_cache_capacity: 1024,
            upstream_connect_timeout_secs: 30,
            upstream_pool_max_idle_per_host: 64,
            upstream_pool_idle_timeout_secs: 300,
            upstream_tcp_keepalive_secs: 60,
            upstream_tcp_nodelay: true,
            log_level: String::from_str("info"),
            log_json: false,
            tunnel_reconnect_base_ms: 500,
            tunnel_reconnect_max_ms: 30000,
            tunnel_ping_interval_secs: 15,
            tunnel_max_streams: None,
            tunnel_connect_timeout_secs: 15,
            tunnel_tcp_keepalive_secs: 30,
            tunnel_tcp_nodelay: true,
            tunnel_stale_timeout_secs: 45,
            tunnel_connections: 3,
        }
    }
}

impl ConfigFile {
    /// A file in which nothing is set.
    pub fn empty() -> (f: ConfigFile)
        ensures
            f.servers@.len() == 0,
            f.aether_url is None,
            f.management_token is None,
            f.public_ip is None,
            f.node_name is None,
            f.node_region is None,
            f.heartbeat_interval is None,
            f.allowed_ports is None,
            f.aether_request_timeout_secs is None,
            f.aether_connect_timeout_secs is None,
            f.aether_pool_max_idle_per_host is None,
            f.aether_pool_idle_timeout_secs is None,
            f.aether_tcp_keepalive_secs is None,
            f.aether_tcp_nodelay is None,
            f.aether_http2 is None,
            f.aether_retry_max_attempts is None,
            f.aether_retry_base_delay_ms is None,
            f.aether_retry_max_delay_ms is None,
            f.max_concurrent_connections is None,
            f.dns_cache_ttl_secs is None,
            f.dns_cache_capacity is None,
            f.upstream_connect_timeout_secs is None,
            f.upstream_pool_max_idle_per_host is None,
            f.upstream_pool_idle_timeout_secs is None,
            f.upstream_tcp_keepalive_secs is None,
            f.upstream_tcp_nodelay is None,
            f.log_level is None,
            f.log_json is None,
            f.tunnel_reconnect_base_ms is None,
            f.tunnel_reconnect_max_ms is None,
            f.tunnel_ping_interval_secs is None,
            f.tunnel_max_streams is None,
            f.tunnel_connect_timeout_secs is None,
            f.tunnel_tcp_keepalive_secs is None,
            f.tunnel_tcp_nodelay is None,
            f.tunnel_stale_timeout_secs is None,
            f.tunnel_connections is None,
    {
        ConfigFile {
            aether_url: None,
            management_token: None,
            public_ip: None,
            node_name: None,
            node_region: None,
            heartbeat_interval: None,
            allowed_ports: None,
            aether_request_timeout_secs: None,
            aether_connect_timeout_secs: None,
            aether_pool_max_idle_per_host: None,
            aether_pool_idle_timeout_secs: None,
            aether_tcp_keepalive_secs: None,
            aether_tcp_nodelay: None,
            aether_http2: None,
            aether_retry_max_attempts: None,
            aether_retry_base_delay_ms: None,
            aether_retry_max_delay_ms: None,
            max_concurrent_connections: None,
            dns_cache_ttl_secs: None,
            dns_cache_capacity: None,
            upstream_connect_timeout_secs: None,
            upstream_pool_max_idle_per_host: None,
            upstream_pool_idle_timeout_secs: None,
            upstream_tcp_keepalive_secs: None,
            upstream_tcp_nodelay: None,
            log_level: None,
            log_json: None,
            tunnel_reconnect_base_ms: None,
            tunnel_reconnect_max_ms: None,
            tunnel_ping_interval_secs: None,
            tunnel_max_streams: None,
            tunnel_connect_timeout_secs: None,
            tunnel_tcp_keepalive_secs: None,
            tunnel_tcp_nodelay: None,
            tunnel_stale_timeout_secs: None,
            tunnel_connections: None,
            servers: Vec::new(),
        }
    }

    /// The server list that the file describes: `servers` where it is not
    /// empty; else the top-level URL and token as a single server, where both
    /// are present; else nothing.
    pub open spec fn spec_effective_servers(&self) -> Seq<ServerEntryView> {
        if self.servers@.len() > 0 {
            Seq::new(self.servers@.len(), |i: int| self.servers@[i]@)
        } else if self.aether_url is Some && self.management_token is Some {
            seq![
                ServerEntryView {
                    aether_url: self.aether_url->Some_0@,
                    management_token: self.management_token->Some_0@,
                    node_name: None,
                },
            ]
        } else {
            Seq::empty()
        }
    }

    /// Resolve the effective server list.
    pub fn effective_servers(&self) -> (r: Vec<ServerEntry>)
        ensures
            r@.len() == self.spec_effective_servers().len(),
            forall|i: int| 0 <= i < r@.len() ==> (#[trigger] r@[i])@ == self.spec_effective_servers()[i],
    {
        let mut r: Vec<ServerEntry> = Vec::new();
        if self.servers.len() > 0 {
            let mut i: usize = 0;
            while i < self.servers.len()
                invariant
                    i <= self.servers@.len(),
                    r@.len() == i,
                    forall|j: int| 0 <= j < i ==> (#[trigger] r@[j])@ == self.servers@[j]@,
                decreases self.servers@.len() - i,
            {
                r.push(self.servers[i].duplicate());
                i += 1;
            }
            return r;
        }
        match (&self.aether_url, &self.management_token) {
            (Some(url), Some(token)) => {
                r.push(
                    ServerEntry {
                        aether_url: url.clone(),
                        management_token: token.clone(),
                        node_name: None,
                    },
                );
            },
            _ => {},
        }
        r
    }
}


/// A name and a value of the environment.
pub type Assignment = (Seq<char>, Seq<char>);

/// What a list of variables says.
pub open spec fn pairs(vars: Seq<(String, String)>) -> Seq<Assignment> {
    Seq::new(vars.len(), |i: int| (vars[i].0@, vars[i].1@))
}

pub open spec fn opt_text(v: Option<String>) -> Option<Seq<char>> {
    match v {
        Some(s) => Some(s@),
        None => None,
    }
}

pub open spec fn opt_nat(v: Option<u64>) -> Option<nat> {
    match v {
        Some(n) => Some(n as nat),
        None => None,
    }
}

pub open spec fn opt_nat32(v: Option<u32>) -> Option<nat> {
    match v {
        Some(n) => Some(n as nat),
        None => None,
    }
}

pub open spec fn opt_size(v: Option<usize>) -> Option<nat> {
    match v {
        Some(n) => Some(n as nat),
        None => None,
    }
}

/// The assignment of a text, if there is one.
pub open spec fn text_var(name: Seq<char>, v: Option<Seq<char>>) -> Seq<Assignment> {
    match v {
        Some(s) => seq![(name, s)],
        None => seq![],
    }
}

/// The assignment of a number, in decimal, if there is one.
pub open spec fn num_var(name: Seq<char>, v: Option<nat>) -> Seq<Assignment> {
    match v {
        Some(n) => seq![(name, text::decimal(n))],
        None => seq![],
    }
}

/// The assignment of a flag, `true` or `false`, if there is one.
pub open spec fn flag_var(name: Seq<char>, v: Option<bool>) -> Seq<Assignment> {
    match v {
        Some(b) => seq![
            (
                name,
                if b {
                    "true"@
                } else {
                    "false"@
                },
            ),
        ],
        None => seq![],
    }
}

/// The ports in decimal, with commas between them.
pub open spec fn port_list(ports: Seq<u16>) -> Seq<char>
    decreases ports.len(),
{
    if ports.len() == 0 {
        seq![]
    } else if ports.len() == 1 {
        text::decimal(ports[0] as nat)
    } else {
        port_list(ports.drop_last()) + seq![','] + text::decimal(ports.last() as nat)
    }
}

/// The assignment of a port list, if there is one.
pub open spec fn ports_var(name: Seq<char>, v: Option<Vec<u16>>) -> Seq<Assignment> {
    match v {
        Some(ports) => seq![(name, port_list(ports@))],
        None => seq![],
    }
}

fn push_pair(out: &mut Vec<(String, String)>, name: &str, value: String)
    ensures
        pairs(final(out)@) == pairs(old(out)@) + seq![(name@, value@)],
{
    out.push((String::from_str(name), value));
    assert(pairs(out@) =~= pairs(old(out)@) + seq![(name@, value@)]);
}

fn push_text(out: &mut Vec<(String, String)>, name: &str, v: &Option<String>)
    ensures
        pairs(final(out)@) == pairs(old(out)@) + text_var(name@, opt_text(*v)),
{
    match v {
        Some(s) => push_pair(out, name, s.clone()),
        None => {
            assert(pairs(out@) =~= pairs(out@) + text_var(name@, opt_text(*v)));
        },
    }
}

fn push_num(out: &mut Vec<(String, String)>, name: &str, v: Option<u64>)
    ensures
        pairs(final(out)@) == pairs(old(out)@) + num_var(name@, opt_nat(v)),
{
    match v {
        Some(n) => push_pair(out, name, text::u64_to_string(n)),
        None => {
            assert(pairs(out@) =~= pairs(out@) + num_var(name@, opt_nat(v)));
        },
    }
}

fn push_flag(out: &mut Vec<(String, String)>, name: &str, v: Option<bool>)
    ensures
        pairs(final(out)@) == pairs(old(out)@) + flag_var(name@, v),
{
    match v {
        Some(b) => {
            let value = if b {
                String::from_str("true")
            } else {
                String::from_str("false")
            };
            push_pair(out, name, value)
        },
        None => {
            assert(pairs(out@) =~= pairs(out@) + flag_var(name@, v));
        },
    }
}

fn port_list_text(ports: &Vec<u16>) -> (s: String)
    ensures
        s@ == port_list(ports@),
{
    let mut s = String::new();
    let mut i: usize = 0;
    assert(ports@.take(0).len() == 0);
    while i < ports.len()
        invariant
            i <= ports@.len(),
            s@ == port_list(ports@.take(i as int)),
        decreases ports@.len() - i,
    {
        let ghost upto = ports@.take(i + 1);
        assert(upto.drop_last() =~= ports@.take(i as int));
        assert(upto.last() == ports@[i as int]);
        if i > 0 {
            text::push_char(&mut s, ',');
        } else {
            assert(upto[0] == ports@[0]);
        }
        text::push_numeral(&mut s, ports[i] as u64, 10);
        assert(s@ =~= port_list(upto));
        i += 1;
    }
    assert(ports@.take(i as int) =~= ports@);
    s
}

fn push_ports(out: &mut Vec<(String, String)>, name: &str, v: &Option<Vec<u16>>)
    ensures
        pairs(final(out)@) == pairs(old(out)@) + ports_var(name@, *v),
{
    match v {
        Some(ports) => push_pair(out, name, port_list_text(ports)),
        None => {
            assert(pairs(out@) =~= pairs(out@) + ports_var(name@, *v));
        },
    }
}

fn widen32(v: Option<u32>) -> (r: Option<u64>)
    ensures
        opt_nat(r) == opt_nat32(v),
{
    match v {
        Some(n) => Some(n as u64),
        None => None,
    }
}

fn widen_size(v: Option<usize>) -> (r: Option<u64>)
    ensures
        opt_nat(r) == opt_size(v),
{
    match v {
        Some(n) => Some(n as u64),
        None => None,
    }
}

/// The variables after `assignments` were injected into `env`, one after
/// the other: each sets its variable if `force` or if the variable is
/// absent.
pub open spec fn injected(
    env: Map<Seq<char>, Seq<char>>,
    assignments: Seq<Assignment>,
    force: bool,
) -> Map<Seq<char>, Seq<char>>
    decreases assignments.len(),
{
    if assignments.len() == 0 {
        env
    } else {
        let before = injected(env, assignments.drop_last(), force);
        let (name, value) = assignments.last();
        if force || !before.contains_key(name) {
            before.insert(name, value)
        } else {
            before
        }
    }
}

/// Injecting without force leaves every variable that is present as it is.
pub proof fn lemma_injected_keeps(
    env: Map<Seq<char>, Seq<char>>,
    assignments: Seq<Assignment>,
    name: Seq<char>,
)
    requires
        env.contains_key(name),
    ensures
        injected(env, assignments, false).contains_key(name),
        injected(env, assignments, false)[name] == env[name],
    decreases assignments.len(),
{
    if assignments.len() > 0 {
        lemma_injected_keeps(env, assignments.drop_last(), name);
    }
}

/// The variables of an environment, by name.
#[derive(Debug, Clone)]
pub struct EnvVars {
    vars: Vec<(String, String)>,
}

/// The map that a list of variables stands for: of two with one name, the
/// later counts.
pub open spec fn as_map(vars: Seq<(String, String)>) -> Map<Seq<char>, Seq<char>>
    decreases vars.len(),
{
    if vars.len() == 0 {
        Map::empty()
    } else {
        as_map(vars.drop_last()).insert(vars.last().0@, vars.last().1@)
    }
}

impl View for EnvVars {
    type V = Map<Seq<char>, Seq<char>>;

    closed spec fn view(&self) -> Map<Seq<char>, Seq<char>> {
        as_map(self.vars@)
    }
}

impl EnvVars {
    pub fn new() -> (e: EnvVars)
        ensures
            e@ == Map::<Seq<char>, Seq<char>>::empty(),
    {
        EnvVars { vars: Vec::new() }
    }

    /// The value of `name`, if it is set.
    pub fn get(&self, name: &str) -> (r: Option<String>)
        ensures
            match r {
                Some(v) => self@.contains_key(name@) && self@[name@] == v@,
                None => !self@.contains_key(name@),
            },
    {
        let wanted = String::from_str(name);
        let mut i: usize = self.vars.len();
        assert(self.vars@.take(i as int) =~= self.vars@);
        while i > 0
            invariant
                i <= self.vars@.len(),
                wanted@ == name@,
                self@.contains_key(name@) == as_map(self.vars@.take(i as int)).contains_key(name@),
                self@.contains_key(name@) ==> self@[name@] == as_map(self.vars@.take(i as int))[name@],
            decreases i,
        {
            assert(self.vars@.take(i as int).drop_last() =~= self.vars@.take(i - 1));
            if self.vars[i - 1].0 == wanted {
                return Some(self.vars[i - 1].1.clone());
            }
            i -= 1;
        }
        None
    }

    /// Sets `name` to `value`.
    pub fn set(&mut self, name: &str, value: String)
        ensures
            final(self)@ == old(self)@.insert(name@, value@),
    {
        self.vars.push((String::from_str(name), value));
        assert(self.vars@.drop_last() =~= old(self).vars@);
    }

    /// Every name that was set with its value, in the order of setting. A
    /// name that was set again stands there again.
    pub fn into_pairs(self) -> (v: Vec<(String, String)>)
        ensures
            as_map(v@) == self@,
    {
        self.vars
    }

    fn inject(&mut self, assignments: &Vec<(String, String)>, force: bool)
        ensures
            final(self)@ == injected(old(self)@, pairs(assignments@), force),
    {
        let mut i: usize = 0;
        assert(pairs(assignments@).take(0).len() == 0);
        while i < assignments.len()
            invariant
                i <= assignments@.len(),
                self@ == injected(old(self)@, pairs(assignments@).take(i as int), force),
            decreases assignments@.len() - i,
        {
            let ghost upto = pairs(assignments@).take(i + 1);
            assert(upto.drop_last() =~= pairs(assignments@).take(i as int));
            assert(upto.last() == (assignments@[i as int].0@, assignments@[i as int].1@));
            let absent = self.get(assignments[i].0.as_str()).is_none();
            if force || absent {
                self.set(assignments[i].0.as_str(), assignments[i].1.clone());
            }
            i += 1;
        }
        assert(pairs(assignments@).take(i as int) =~= pairs(assignments@));
    }
}

impl ConfigFile {
    /// The controller URL for the environment: the top-level one, else that
    /// of the first server.
    pub open spec fn first_url(&self) -> Option<Seq<char>> {
        if self.aether_url is Some {
            Some(self.aether_url->Some_0@)
        } else if self.servers@.len() > 0 {
            Some(self.servers@[0].aether_url@)
        } else {
            None
        }
    }

    /// The token for the environment: the top-level one, else that of the
    /// first server.
    pub open spec fn first_token(&self) -> Option<Seq<char>> {
        if self.management_token is Some {
            Some(self.management_token->Some_0@)
        } else if self.servers@.len() > 0 {
            Some(self.servers@[0].management_token@)
        } else {
            None
        }
    }

    /// The node name for the environment: the top-level one, else that of
    /// the first server, if it has one.
    pub open spec fn first_node_name(&self) -> Option<Seq<char>> {
        if self.node_name is Some {
            Some(self.node_name->Some_0@)
        } else if self.servers@.len() > 0 {
            opt_text(self.servers@[0].node_name)
        } else {
            None
        }
    }

    /// The environment variables that the file's values stand for, in the
    /// order in which they are injected.
    pub open spec fn spec_assignments(&self) -> Seq<Assignment> {
        Seq::<(Seq<char>, Seq<char>)>::empty()
            + text_var("AETHER_PROXY_AETHER_URL"@, self.first_url())
            + text_var("AETHER_PROXY_MANAGEMENT_TOKEN"@, self.first_token())
            + text_var("AETHER_PROXY_PUBLIC_IP"@, opt_text(self.public_ip))
            + text_var("AETHER_PROXY_NODE_NAME"@, self.first_node_name())
            + text_var("AETHER_PROXY_NODE_REGION"@, opt_text(self.node_region))
            + num_var("AETHER_PROXY_HEARTBEAT_INTERVAL"@, opt_nat(self.heartbeat_interval))
            + num_var("AETHER_PROXY_AETHER_REQUEST_TIMEOUT"@, opt_nat(self.aether_request_timeout_secs))
            + num_var("AETHER_PROXY_AETHER_CONNECT_TIMEOUT"@, opt_nat(self.aether_connect_timeout_secs))
            + num_var("AETHER_PROXY_AETHER_POOL_MAX_IDLE_PER_HOST"@, opt_size(self.aether_pool_max_idle_per_host))
            + num_var("AETHER_PROXY_AETHER_POOL_IDLE_TIMEOUT"@, opt_nat(self.aether_pool_idle_timeout_secs))
            + num_var("AETHER_PROXY_AETHER_TCP_KEEPALIVE"@, opt_nat(self.aether_tcp_keepalive_secs))
            + flag_var("AETHER_PROXY_AETHER_TCP_NODELAY"@, self.aether_tcp_nodelay)
            + flag_var("AETHER_PROXY_AETHER_HTTP2"@, self.aether_http2)
            + num_var("AETHER_PROXY_AETHER_RETRY_MAX_ATTEMPTS"@, opt_nat32(self.aether_retry_max_attempts))
            + num_var("AETHER_PROXY_AETHER_RETRY_BASE_DELAY_MS"@, opt_nat(self.aether_retry_base_delay_ms))
            + num_var("AETHER_PROXY_AETHER_RETRY_MAX_DELAY_MS"@, opt_nat(self.aether_retry_max_delay_ms))
            + num_var("AETHER_PROXY_MAX_CONCURRENT_CONNECTIONS"@, opt_nat(self.max_concurrent_connections))
            + num_var("AETHER_PROXY_DNS_CACHE_TTL"@, opt_nat(self.dns_cache_ttl_secs))
            + num_var("AETHER_PROXY_DNS_CACHE_CAPACITY"@, opt_size(self.dns_cache_capacity))
            + num_var("AETHER_PROXY_UPSTREAM_CONNECT_TIMEOUT"@, opt_nat(self.upstream_connect_timeout_secs))
            + num_var("AETHER_PROXY_UPSTREAM_POOL_MAX_IDLE_PER_HOST"@, opt_size(self.upstream_pool_max_idle_per_host))
            + num_var("AETHER_PROXY_UPSTREAM_POOL_IDLE_TIMEOUT"@, opt_nat(self.upstream_pool_idle_timeout_secs))
            + num_var("AETHER_PROXY_UPSTREAM_TCP_KEEPALIVE"@, opt_nat(self.upstream_tcp_keepalive_secs))
            + flag_var("AETHER_PROXY_UPSTREAM_TCP_NODELAY"@, self.upstream_tcp_nodelay)
            + text_var("AETHER_PROXY_LOG_LEVEL"@, opt_text(self.log_level))
            + flag_var("AETHER_PROXY_LOG_JSON"@, self.log_json)
            + num_var("AETHER_PROXY_TUNNEL_RECONNECT_BASE_MS"@, opt_nat(self.tunnel_reconnect_base_ms))
            + num_var("AETHER_PROXY_TUNNEL_RECONNECT_MAX_MS"@, opt_nat(self.tunnel_reconnect_max_ms))
            + num_var("AETHER_PROXY_TUNNEL_PING_INTERVAL"@, opt_nat(self.tunnel_ping_interval_secs))
            + num_var("AETHER_PROXY_TUNNEL_MAX_STREAMS"@, opt_nat32(self.tunnel_max_streams))
            + num_var("AETHER_PROXY_TUNNEL_CONNECT_TIMEOUT"@, opt_nat(self.tunnel_connect_timeout_secs))
            + num_var("AETHER_PROXY_TUNNEL_TCP_KEEPALIVE"@, opt_nat(self.tunnel_tcp_keepalive_secs))
            + flag_var("AETHER_PROXY_TUNNEL_TCP_NODELAY"@, self.tunnel_tcp_nodelay)
            + num_var("AETHER_PROXY_TUNNEL_STALE_TIMEOUT"@, opt_nat(self.tunnel_stale_timeout_secs))
            + num_var("AETHER_PROXY_TUNNEL_CONNECTIONS"@, opt_nat32(self.tunnel_connections))
            + ports_var("AETHER_PROXY_ALLOWED_PORTS"@, self.allowed_ports)
    }

    /// The environment variables that the file's values stand for.
    pub fn assignments(&self) -> (out: Vec<(String, String)>)
        ensures
            pairs(out@) == self.spec_assignments(),
    {
        let url = match &self.aether_url {
            Some(u) => Some(u.clone()),
            None => if self.servers.len() > 0 {
                Some(self.servers[0].aether_url.clone())
            } else {
                None
            },
        };
        let token = match &self.management_token {
            Some(t) => Some(t.clone()),
            None => if self.servers.len() > 0 {
                Some(self.servers[0].management_token.clone())
            } else {
                None
            },
        };
        let node_name = match &self.node_name {
            Some(n) => Some(n.clone()),
            None => if self.servers.len() > 0 {
                match &self.servers[0].node_name {
                    Some(n) => Some(n.clone()),
                    None => None,
                }
            } else {
                None
            },
        };
        let mut out: Vec<(String, String)> = Vec::new();
        assert(pairs(out@) =~= Seq::<(Seq<char>, Seq<char>)>::empty());
        push_text(&mut out, "AETHER_PROXY_AETHER_URL", &url);
        push_text(&mut out, "AETHER_PROXY_MANAGEMENT_TOKEN", &token);
        push_text(&mut out, "AETHER_PROXY_PUBLIC_IP", &self.public_ip);
        push_text(&mut out, "AETHER_PROXY_NODE_NAME", &node_name);
        push_text(&mut out, "AETHER_PROXY_NODE_REGION", &self.node_region);
        push_num(&mut out, "AETHER_PROXY_HEARTBEAT_INTERVAL", self.heartbeat_interval);
        push_num(&mut out, "AETHER_PROXY_AETHER_REQUEST_TIMEOUT", self.aether_request_timeout_secs);
        push_num(&mut out, "AETHER_PROXY_AETHER_CONNECT_TIMEOUT", self.aether_connect_timeout_secs);
        push_num(&mut out, "AETHER_PROXY_AETHER_POOL_MAX_IDLE_PER_HOST", widen_size(self.aether_pool_max_idle_per_host));
        push_num(&mut out, "AETHER_PROXY_AETHER_POOL_IDLE_TIMEOUT", self.aether_pool_idle_timeout_secs);
        push_num(&mut out, "AETHER_PROXY_AETHER_TCP_KEEPALIVE", self.aether_tcp_keepalive_secs);
        push_flag(&mut out, "AETHER_PROXY_AETHER_TCP_NODELAY", self.aether_tcp_nodelay);
        push_flag(&mut out, "AETHER_PROXY_AETHER_HTTP2", self.aether_http2);
        push_num(&mut out, "AETHER_PROXY_AETHER_RETRY_MAX_ATTEMPTS", widen32(self.aether_retry_max_attempts));
        push_num(&mut out, "AETHER_PROXY_AETHER_RETRY_BASE_DELAY_MS", self.aether_retry_base_delay_ms);
        push_num(&mut out, "AETHER_PROXY_AETHER_RETRY_MAX_DELAY_MS", self.aether_retry_max_delay_ms);
        push_num(&mut out, "AETHER_PROXY_MAX_CONCURRENT_CONNECTIONS", self.max_concurrent_connections);
        push_num(&mut out, "AETHER_PROXY_DNS_CACHE_TTL", self.dns_cache_ttl_secs);
        push_num(&mut out, "AETHER_PROXY_DNS_CACHE_CAPACITY", widen_size(self.dns_cache_capacity));
        push_num(&mut out, "AETHER_PROXY_UPSTREAM_CONNECT_TIMEOUT", self.upstream_connect_timeout_secs);
        push_num(&mut out, "AETHER_PROXY_UPSTREAM_POOL_MAX_IDLE_PER_HOST", widen_size(self.upstream_pool_max_idle_per_host));
        push_num(&mut out, "AETHER_PROXY_UPSTREAM_POOL_IDLE_TIMEOUT", self.upstream_pool_idle_timeout_secs);
        push_num(&mut out, "AETHER_PROXY_UPSTREAM_TCP_KEEPALIVE", self.upstream_tcp_keepalive_secs);
        push_flag(&mut out, "AETHER_PROXY_UPSTREAM_TCP_NODELAY", self.upstream_tcp_nodelay);
        push_text(&mut out, "AETHER_PROXY_LOG_LEVEL", &self.log_level);
        push_flag(&mut out, "AETHER_PROXY_LOG_JSON", self.log_json);
        push_num(&mut out, "AETHER_PROXY_TUNNEL_RECONNECT_BASE_MS", self.tunnel_reconnect_base_ms);
        push_num(&mut out, "AETHER_PROXY_TUNNEL_RECONNECT_MAX_MS", self.tunnel_reconnect_max_ms);
        push_num(&mut out, "AETHER_PROXY_TUNNEL_PING_INTERVAL", self.tunnel_ping_interval_secs);
        push_num(&mut out, "AETHER_PROXY_TUNNEL_MAX_STREAMS", widen32(self.tunnel_max_streams));
        push_num(&mut out, "AETHER_PROXY_TUNNEL_CONNECT_TIMEOUT", self.tunnel_connect_timeout_secs);
        push_num(&mut out, "AETHER_PROXY_TUNNEL_TCP_KEEPALIVE", self.tunnel_tcp_keepalive_secs);
        push_flag(&mut out, "AETHER_PROXY_TUNNEL_TCP_NODELAY", self.tunnel_tcp_nodelay);
        push_num(&mut out, "AETHER_PROXY_TUNNEL_STALE_TIMEOUT", self.tunnel_stale_timeout_secs);
        push_num(&mut out, "AETHER_PROXY_TUNNEL_CONNECTIONS", widen32(self.tunnel_connections));
        push_ports(&mut out, "AETHER_PROXY_ALLOWED_PORTS", &self.allowed_ports);
        out
    }

    /// Inject the file's values into the environment. Only variables that
    /// are not yet present are set, which keeps the precedence: command
    /// line, then environment, then file.
    pub fn inject_env(&self, env: &mut EnvVars)
        ensures
            final(env)@ == injected(old(env)@, self.spec_assignments(), false),
            forall|name: Seq<char>|
                old(env)@.contains_key(name) ==> #[trigger] final(env)@.contains_key(name)
                    && final(env)@[name] == old(env)@[name],
    {
        let assignments = self.assignments();
        env.inject(&assignments, false);
        proof {
            assert forall|name: Seq<char>| old(env)@.contains_key(name) implies #[trigger] env@.contains_key(
                name,
            ) && env@[name] == old(env)@[name] by {
                lemma_injected_keeps(old(env)@, self.spec_assignments(), name);
            }
        }
    }

    /// Inject the file's values into the environment, overriding what is
    /// there.
    pub fn inject_env_override(&self, env: &mut EnvVars)
        ensures
            final(env)@ == injected(old(env)@, self.spec_assignments(), true),
    {
        let assignments = self.assignments();
        env.inject(&assignments, true);
    }
}


/// The keys that a file of the 0.1.x format may hold and the 0.2.0 format
/// no longer has.
pub open spec fn legacy_only_keys() -> Seq<Seq<char>> {
    seq![
        "hmac_key"@,
        "listen_port"@,
        "timestamp_tolerance"@,
        "connect_timeout_secs"@,
        "tls_handshake_timeout_secs"@,
        "enable_tls"@,
        "tls_cert"@,
        "tls_key"@,
    ]
}

/// The keys that the 0.2.0 format renamed: the old name and the new one.
pub open spec fn renamed_keys() -> Seq<(Seq<char>, Seq<char>)> {
    seq![
        ("delegate_connect_timeout_secs"@, "upstream_connect_timeout_secs"@),
        ("delegate_pool_max_idle_per_host"@, "upstream_pool_max_idle_per_host"@),
        ("delegate_pool_idle_timeout_secs"@, "upstream_pool_idle_timeout_secs"@),
        ("delegate_tcp_keepalive_secs"@, "upstream_tcp_keepalive_secs"@),
        ("delegate_tcp_nodelay"@, "upstream_tcp_nodelay"@),
    ]
}

/// Whether only a file of the 0.1.x format holds the key `k`.
pub open spec fn is_legacy_key(k: Seq<char>) -> bool {
    k == "hmac_key"@
        || k == "listen_port"@
        || k == "timestamp_tolerance"@
        || k == "connect_timeout_secs"@
        || k == "tls_handshake_timeout_secs"@
        || k == "enable_tls"@
        || k == "tls_cert"@
        || k == "tls_key"@
        || k == "delegate_connect_timeout_secs"@
        || k == "delegate_pool_max_idle_per_host"@
        || k == "delegate_pool_idle_timeout_secs"@
        || k == "delegate_tcp_keepalive_secs"@
        || k == "delegate_tcp_nodelay"@
}

/// What the keys say.
pub open spec fn names(keys: Seq<String>) -> Seq<Seq<char>> {
    Seq::new(keys.len(), |i: int| keys[i]@)
}

/// How a file of the 0.1.x format becomes one of the 0.2.0 format.
#[derive(Debug, Clone)]
pub struct Migration {
    /// Values that move from an old key to a new one.
    pub moves: Vec<(String, String)>,
    /// The server entry that becomes the list `servers`.
    pub server: Option<ServerEntry>,
    /// Keys that leave the file, where it holds them.
    pub removals: Vec<String>,
}

/// What a migration says.
pub struct MigrationView {
    pub moves: Seq<(Seq<char>, Seq<char>)>,
    pub server: Option<ServerEntryView>,
    pub removals: Seq<Seq<char>>,
}

impl View for Migration {
    type V = MigrationView;

    open spec fn view(&self) -> MigrationView {
        MigrationView {
            moves: pairs(self.moves@),
            server: match self.server {
                Some(e) => Some(e@),
                None => None,
            },
            removals: names(self.removals@),
        }
    }
}

/// Of the first `n` renamed keys, those whose value moves: the old key is
/// there and the new one is not.
pub open spec fn moves_of(keys: Seq<Seq<char>>, n: int) -> Seq<(Seq<char>, Seq<char>)>
    decreases n,
{
    if n <= 0 {
        seq![]
    } else {
        let rest = moves_of(keys, n - 1);
        let pair = renamed_keys()[n - 1];
        if keys.contains(pair.0) && !keys.contains(pair.1) {
            rest.push(pair)
        } else {
            rest
        }
    }
}

/// Of the first `n` renamed keys, the old keys that leave with their
/// value: the file holds the new key already.
pub open spec fn shadowed_of(keys: Seq<Seq<char>>, n: int) -> Seq<Seq<char>>
    decreases n,
{
    if n <= 0 {
        seq![]
    } else {
        let rest = shadowed_of(keys, n - 1);
        let pair = renamed_keys()[n - 1];
        if keys.contains(pair.0) && keys.contains(pair.1) {
            rest.push(pair.0)
        } else {
            rest
        }
    }
}

/// The migration of a file with the top-level keys `keys`, whose URL, token
/// and node name are the texts given (absent where the file has none):
/// renamed keys move; the URL and token become the one server, unless the
/// file has a list of servers already; and the top-level URL, token and
/// node name leave, with every key that only the old format has.
pub open spec fn migration_of(
    keys: Seq<Seq<char>>,
    url: Option<String>,
    token: Option<String>,
    node_name: Option<String>,
) -> MigrationView {
    MigrationView {
        moves: moves_of(keys, 5),
        server: if !keys.contains("servers"@) && url is Some && token is Some {
            Some(
                ServerEntryView {
                    aether_url: url->Some_0@,
                    management_token: token->Some_0@,
                    node_name: opt_text(node_name),
                },
            )
        } else {
            None
        },
        removals: shadowed_of(keys, 5) + seq!["aether_url"@, "management_token"@, "node_name"@]
            + legacy_only_keys(),
    }
}

fn legacy_key_table() -> (v: Vec<String>)
    ensures
        names(v@) == legacy_only_keys(),
{
    let mut v: Vec<String> = Vec::new();
    v.push(String::from_str("hmac_key"));
    v.push(String::from_str("listen_port"));
    v.push(String::from_str("timestamp_tolerance"));
    v.push(String::from_str("connect_timeout_secs"));
    v.push(String::from_str("tls_handshake_timeout_secs"));
    v.push(String::from_str("enable_tls"));
    v.push(String::from_str("tls_cert"));
    v.push(String::from_str("tls_key"));
    assert(names(v@) =~= legacy_only_keys());
    v
}

fn renamed_key_table() -> (v: Vec<(String, String)>)
    ensures
        pairs(v@) == renamed_keys(),
        v@.len() == 5,
{
    let mut v: Vec<(String, String)> = Vec::new();
    v.push((String::from_str("delegate_connect_timeout_secs"), String::from_str("upstream_connect_timeout_secs")));
    v.push((String::from_str("delegate_pool_max_idle_per_host"), String::from_str("upstream_pool_max_idle_per_host")));
    v.push((String::from_str("delegate_pool_idle_timeout_secs"), String::from_str("upstream_pool_idle_timeout_secs")));
    v.push((String::from_str("delegate_tcp_keepalive_secs"), String::from_str("upstream_tcp_keepalive_secs")));
    v.push((String::from_str("delegate_tcp_nodelay"), String::from_str("upstream_tcp_nodelay")));
    assert(pairs(v@) =~= renamed_keys());
    v
}

fn key_is_legacy(k: &String) -> (r: bool)
    ensures
        r == is_legacy_key(k@),
{
    *k == String::from_str("hmac_key")
        || *k == String::from_str("listen_port")
        || *k == String::from_str("timestamp_tolerance")
        || *k == String::from_str("connect_timeout_secs")
        || *k == String::from_str("tls_handshake_timeout_secs")
        || *k == String::from_str("enable_tls")
        || *k == String::from_str("tls_cert")
        || *k == String::from_str("tls_key")
        || *k == String::from_str("delegate_connect_timeout_secs")
        || *k == String::from_str("delegate_pool_max_idle_per_host")
        || *k == String::from_str("delegate_pool_idle_timeout_secs")
        || *k == String::from_str("delegate_tcp_keepalive_secs")
        || *k == String::from_str("delegate_tcp_nodelay")
}

/// Whether `keys` holds the key `name`.
pub fn has_key(keys: &Vec<String>, name: &String) -> (r: bool)
    ensures
        r == names(keys@).contains(name@),
{
    let mut i: usize = 0;
    while i < keys.len()
        invariant
            i <= keys@.len(),
            forall|j: int| 0 <= j < i ==> (#[trigger] names(keys@)[j]) != name@,
        decreases keys@.len() - i,
    {
        if keys[i] == *name {
            assert(names(keys@)[i as int] == name@);
            return true;
        }
        i += 1;
    }
    false
}

/// Plans the migration of a configuration file from its top-level keys and
/// the texts of its URL, token and node name. There is a plan exactly if
/// the file holds a key that only the 0.1.x format has.
pub fn migration_plan(
    keys: &Vec<String>,
    url: Option<String>,
    token: Option<String>,
    node_name: Option<String>,
) -> (plan: Option<Migration>)
    ensures
        plan is Some <==> exists|i: int| 0 <= i < keys@.len() && is_legacy_key(#[trigger] keys@[i]@),
        plan is Some ==> plan->Some_0@ == migration_of(names(keys@), url, token, node_name),
{
    // Is this the old format?
    let mut legacy = false;
    let mut i: usize = 0;
    while i < keys.len()
        invariant
            i <= keys@.len(),
            legacy <==> exists|j: int| 0 <= j < i && is_legacy_key(#[trigger] keys@[j]@),
        decreases keys@.len() - i,
    {
        if key_is_legacy(&keys[i]) {
            legacy = true;
        }
        i += 1;
    }
    if !legacy {
        return None;
    }
    // Renamed keys
    let table = renamed_key_table();
    let mut moves: Vec<(String, String)> = Vec::new();
    let mut removals: Vec<String> = Vec::new();
    let mut n: usize = 0;
    assert(pairs(moves@) =~= moves_of(names(keys@), 0));
    assert(names(removals@) =~= shadowed_of(names(keys@), 0));
    while n < table.len()
        invariant
            n <= table@.len(),
            table@.len() == 5,
            pairs(table@) == renamed_keys(),
            pairs(moves@) == moves_of(names(keys@), n as int),
            names(removals@) == shadowed_of(names(keys@), n as int),
        decreases table@.len() - n,
    {
        assert(pairs(table@)[n as int] == (table@[n as int].0@, table@[n as int].1@));
        if has_key(keys, &table[n].0) {
            if has_key(keys, &table[n].1) {
                let ghost before = names(removals@);
                removals.push(table[n].0.clone());
                assert(names(removals@) =~= before.push(table@[n as int].0@));
            } else {
                let ghost before = pairs(moves@);
                moves.push((table[n].0.clone(), table[n].1.clone()));
                assert(pairs(moves@) =~= before.push((table@[n as int].0@, table@[n as int].1@)));
            }
        }
        n += 1;
    }
    // The server entry
    let server = if has_key(keys, &String::from_str("servers")) {
        None
    } else {
        match (url, token) {
            (Some(u), Some(t)) => Some(
                ServerEntry { aether_url: u, management_token: t, node_name },
            ),
            _ => None,
        }
    };
    // What leaves
    let ghost shadowed = names(removals@);
    removals.push(String::from_str("aether_url"));
    removals.push(String::from_str("management_token"));
    removals.push(String::from_str("node_name"));
    let mut old_keys = legacy_key_table();
    let ghost fixed = names(removals@);
    assert(fixed =~= shadowed + seq!["aether_url"@, "management_token"@, "node_name"@]);
    removals.append(&mut old_keys);
    assert(names(removals@) =~= fixed + legacy_only_keys());
    Some(Migration { moves, server, removals })
}

} // verus!
