//! Runtime-mutable configuration that the controller can update through
//! heartbeat acknowledgements.

use crate::config::Config;
use crate::registration::{RemoteConfig, RemoteConfigView};
use std::collections::HashSet;
use vstd::prelude::*;

verus! {

broadcast use vstd::std_specs::hash::group_hash_axioms;

/// Configuration that can be changed at runtime without restart.
#[derive(Debug)]
pub struct DynamicConfig {
    pub node_name: String,
    pub allowed_ports: HashSet<u16>,
    pub log_level: String,
    pub heartbeat_interval: u64,
    /// Monotonically increasing version from the controller. `0` means no
    /// remote config has ever been applied.
    pub config_version: u64,
}

/// What a dynamic configuration says.
#[verifier::ext_equal]
pub struct DynamicConfigView {
    pub node_name: Seq<char>,
    pub allowed_ports: Set<u16>,
    pub log_level: Seq<char>,
    pub heartbeat_interval: u64,
    pub config_version: u64,
}

impl View for DynamicConfig {
    type V = DynamicConfigView;

    open spec fn view(&self) -> DynamicConfigView {
        DynamicConfigView {
            node_name: self.node_name@,
            allowed_ports: self.allowed_ports@,
            log_level: self.log_level@,
            heartbeat_interval: self.heartbeat_interval,
            config_version: self.config_version,
        }
    }
}

/// Which values an update changes.
#[derive(Debug, Clone, Copy, PartialEq, Eq, Structural)]
pub struct ConfigChanges {
    pub node_name: bool,
    pub allowed_ports: bool,
    pub heartbeat_interval: bool,
    pub log_level: bool,
}

impl ConfigChanges {
    pub open spec fn spec_any(self) -> bool {
        self.node_name || self.allowed_ports || self.heartbeat_interval || self.log_level
    }

    /// Whether anything changes.
    #[verifier::when_used_as_spec(spec_any)]
    pub fn any(self) -> (r: bool)
        ensures
            r == self.spec_any(),
    {
        self.node_name || self.allowed_ports || self.heartbeat_interval || self.log_level
    }
}

/// The configuration after a remote update: unchanged unless `version` is
/// strictly newer; else every value that `remote` carries takes the place of
/// the current one, and the version becomes `version`.
pub open spec fn updated(cfg: DynamicConfigView, remote: RemoteConfigView, version: u64)
    -> DynamicConfigView {
    if version <= cfg.config_version {
        cfg
    } else {
        DynamicConfigView {
            node_name: match remote.node_name {
                Some(n) => n,
                None => cfg.node_name,
            },
            allowed_ports: match remote.allowed_ports {
                Some(p) => p.to_set(),
                None => cfg.allowed_ports,
            },
            log_level: match remote.log_level {
                Some(l) => l,
                None => cfg.log_level,
            },
            heartbeat_interval: match remote.heartbeat_interval {
                Some(i) => i,
                None => cfg.heartbeat_interval,
            },
            config_version: version,
        }
    }
}

/// The values in which the updated configuration differs from the current.
pub open spec fn changes(cfg: DynamicConfigView, remote: RemoteConfigView, version: u64)
    -> ConfigChanges {
    let next = updated(cfg, remote, version);
    ConfigChanges {
        node_name: next.node_name != cfg.node_name,
        allowed_ports: next.allowed_ports != cfg.allowed_ports,
        heartbeat_interval: next.heartbeat_interval != cfg.heartbeat_interval,
        log_level: next.log_level != cfg.log_level,
    }
}

proof fn lemma_take_to_set(ports: Seq<u16>, i: int)
    requires
        0 <= i < ports.len(),
    ensures
        ports.take(i + 1).to_set() == ports.take(i).to_set().insert(ports[i]),
{
    let s1 = ports.take(i + 1);
    let s0 = ports.take(i);
    let a = s1.to_set();
    let b = s0.to_set().insert(ports[i]);
    assert forall|x: u16| a.contains(x) == b.contains(x) by {
        if a.contains(x) {
            assert(s1.contains(x));
            let k = choose|k: int| 0 <= k < s1.len() && s1[k] == x;
            if k < i {
                assert(s0[k] == x);
                assert(s0.contains(x));
            }
        }
        if b.contains(x) {
            if x == ports[i] {
                assert(s1[i] == x);
                assert(s1.contains(x));
            } else {
                assert(s0.contains(x));
                let k = choose|k: int| 0 <= k < s0.len() && s0[k] == x;
                assert(s1[k] == x);
                assert(s1.contains(x));
            }
        }
    }
    assert(a =~= b);
}

/// The set of the ports in `ports`.
pub fn port_set(ports: &Vec<u16>) -> (set: HashSet<u16>)
    ensures
        set@ == ports@.to_set(),
        set@.finite(),
{
    let mut set: HashSet<u16> = HashSet::new();
    let mut i: usize = 0;
    assert(ports@.take(0).to_set() =~= Set::<u16>::empty());
    while i < ports.len()
        invariant
            i <= ports@.len(),
            set@ == ports@.take(i as int).to_set(),
        decreases ports@.len() - i,
    {
        proof {
            lemma_take_to_set(ports@, i as int);
        }
        set.insert(ports[i]);
        i += 1;
    }
    assert(ports@.take(i as int) =~= ports@);
    proof {
        vstd::seq_lib::seq_to_set_is_finite(ports@);
    }
    set
}

/// Whether the set of the ports in `ports` is `current`.
fn same_ports(ports: &Vec<u16>, current: &HashSet<u16>) -> (r: bool)
    requires
        current@.finite(),
    ensures
        r == (ports@.to_set() == current@),
{
    let wanted = port_set(ports);
    if wanted.len() != current.len() {
        return false;
    }
    let mut i: usize = 0;
    while i < ports.len()
        invariant
            i <= ports@.len(),
            forall|j: int| 0 <= j < i ==> current@.contains(#[trigger] ports@[j]),
        decreases ports@.len() - i,
    {
        if !current.contains(&ports[i]) {
            assert(ports@.to_set().contains(ports@[i as int]));
            return false;
        }
        i += 1;
    }
    proof {
        assert(ports@.to_set().subset_of(current@)) by {
            assert forall|x: u16| ports@.to_set().contains(x) implies current@.contains(x) by {
                let p = ports@;
                assert(p.contains(x));
                let k = choose|k: int| 0 <= k < p.len() && p[k] == x;
                assert(current@.contains(p[k]));
            }
        }
        vstd::set_lib::lemma_subset_equality(ports@.to_set(), current@);
    }
    true
}

impl DynamicConfig {
    /// Sets are finite.
    pub open spec fn wf(&self) -> bool {
        self.allowed_ports@.finite()
    }

    /// Initialize from static config (startup defaults).
    pub fn from_config(config: &Config) -> (d: DynamicConfig)
        ensures
            d.wf(),
            d@ == (DynamicConfigView {
                node_name: config.node_name@,
                allowed_ports: config.allowed_ports@.to_set(),
                log_level: config.log_level@,
                heartbeat_interval: config.heartbeat_interval,
                config_version: 0,
            }),
    {
        DynamicConfig {
            node_name: config.node_name.clone(),
            allowed_ports: port_set(&config.allowed_ports),
            log_level: config.log_level.clone(),
            heartbeat_interval: config.heartbeat_interval,
            config_version: 0,
        }
    }
}

/// Which values a remote update would change, without applying it.
pub fn remote_config_changes(cfg: &DynamicConfig, remote: &RemoteConfig, version: u64) -> (c:
    ConfigChanges)
    requires
        cfg.wf(),
    ensures
        c == changes(cfg@, remote@, version),
{
    let mut c = ConfigChanges {
        node_name: false,
        allowed_ports: false,
        heartbeat_interval: false,
        log_level: false,
    };
    if version <= cfg.config_version {
        return c;
    }
    if let Some(name) = &remote.node_name {
        c.node_name = !(*name == cfg.node_name);
    }
    if let Some(ports) = &remote.allowed_ports {
        c.allowed_ports = !same_ports(ports, &cfg.allowed_ports);
    }
    if let Some(interval) = remote.heartbeat_interval {
        c.heartbeat_interval = interval != cfg.heartbeat_interval;
    }
    if let Some(level) = &remote.log_level {
        c.log_level = !(*level == cfg.log_level);
    }
    c
}

/// Apply a remote config update to the dynamic config.
///
/// Returns `true` if a value was actually changed. An update whose version
/// is not strictly newer than the current one changes nothing at all.
pub fn apply_remote_config(cfg: &mut DynamicConfig, remote: &RemoteConfig, version: u64) -> (changed:
    bool)
    requires
        old(cfg).wf(),
    ensures
        final(cfg).wf(),
        final(cfg)@ == updated(old(cfg)@, remote@, version),
        changed == changes(old(cfg)@, remote@, version).any(),
        version <= old(cfg).config_version ==> *final(cfg) == *old(cfg) && !changed,
        final(cfg).config_version >= old(cfg).config_version,
{
    if version <= cfg.config_version {
        return false;
    }
    let c = remote_config_changes(cfg, remote, version);
    if let Some(name) = &remote.node_name {
        if c.node_name {
            cfg.node_name = name.clone();
        }
    }
    if let Some(ports) = &remote.allowed_ports {
        if c.allowed_ports {
            cfg.allowed_ports = port_set(ports);
        }
    }
    if let Some(interval) = remote.heartbeat_interval {
        cfg.heartbeat_interval = interval;
    }
    if let Some(level) = &remote.log_level {
        if c.log_level {
            cfg.log_level = level.clone();
        }
    }
    cfg.config_version = version;
    assert(cfg@ =~= updated(old(cfg)@, remote@, version));
    c.any()
}

} // verus!
