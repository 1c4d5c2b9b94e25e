//! Target policy: which hosts and ports the agent may connect to, and the
//! cache of validated addresses that the outbound connector is bound to.

use crate::text;
use std::collections::HashSet;
use vstd::prelude::*;

verus! {

broadcast use vstd::std_specs::hash::group_hash_axioms;

/// An IPv4 address by its four octets.
#[derive(Debug, Clone, Copy, PartialEq, Eq, Hash, Structural)]
pub struct Ipv4Addr(pub u8, pub u8, pub u8, pub u8);

/// An IPv6 address by its eight 16-bit segments.
#[derive(Debug, Clone, Copy, PartialEq, Eq, Hash, Structural)]
pub struct Ipv6Addr(pub u16, pub u16, pub u16, pub u16, pub u16, pub u16, pub u16, pub u16);

#[derive(Debug, Clone, Copy, PartialEq, Eq, Hash, Structural)]
pub enum IpAddr {
    V4(Ipv4Addr),
    V6(Ipv6Addr),
}

/// An address to connect to.
#[derive(Debug, Clone, Copy, PartialEq, Eq, Hash, Structural)]
pub struct SocketAddr {
    pub ip: IpAddr,
    pub port: u16,
}

impl Ipv4Addr {
    pub fn new(a: u8, b: u8, c: u8, d: u8) -> (ip: Ipv4Addr)
        ensures
            ip == Ipv4Addr(a, b, c, d),
    {
        Ipv4Addr(a, b, c, d)
    }

    /// The address as a 32-bit number.
    pub open spec fn value(self) -> nat {
        (self.0 * 0x100_0000 + self.1 * 0x1_0000 + self.2 * 0x100 + self.3) as nat
    }

    /// Whether the address lies in one of the private or reserved blocks:
    /// 0/8, 10/8, 100.64/10, 127/8, 169.254/16, 172.16/12, 192.0.0/24,
    /// 192.168/16, 198.18/15, 240/4.
    pub open spec fn is_private(self) -> bool {
        let v = self.value();
        ||| v <= 0x00FF_FFFF
        ||| 0x0A00_0000 <= v <= 0x0AFF_FFFF
        ||| 0x6440_0000 <= v <= 0x647F_FFFF
        ||| 0x7F00_0000 <= v <= 0x7FFF_FFFF
        ||| 0xA9FE_0000 <= v <= 0xA9FE_FFFF
        ||| 0xAC10_0000 <= v <= 0xAC1F_FFFF
        ||| 0xC000_0000 <= v <= 0xC000_00FF
        ||| 0xC0A8_0000 <= v <= 0xC0A8_FFFF
        ||| 0xC612_0000 <= v <= 0xC613_FFFF
        ||| 0xF000_0000 <= v
    }
}

impl Ipv6Addr {
    pub fn new(a: u16, b: u16, c: u16, d: u16, e: u16, f: u16, g: u16, h: u16) -> (ip: Ipv6Addr)
        ensures
            ip == Ipv6Addr(a, b, c, d, e, f, g, h),
    {
        Ipv6Addr(a, b, c, d, e, f, g, h)
    }

    /// The loopback address `::1`.
    pub fn localhost() -> (ip: Ipv6Addr)
        ensures
            ip == Ipv6Addr(0, 0, 0, 0, 0, 0, 0, 1),
    {
        Ipv6Addr(0, 0, 0, 0, 0, 0, 0, 1)
    }

    /// The unspecified address `::`.
    pub fn unspecified() -> (ip: Ipv6Addr)
        ensures
            ip == Ipv6Addr(0, 0, 0, 0, 0, 0, 0, 0),
    {
        Ipv6Addr(0, 0, 0, 0, 0, 0, 0, 0)
    }

    /// Whether this is an IPv4-mapped address, `::ffff:a.b.c.d`.
    pub open spec fn is_ipv4_mapped(self) -> bool {
        self.0 == 0 && self.1 == 0 && self.2 == 0 && self.3 == 0 && self.4 == 0 && self.5
            == 0xffff
    }

    /// The IPv4 address embedded in the last two segments.
    pub open spec fn embedded_v4(self) -> Ipv4Addr {
        Ipv4Addr((self.6 / 0x100) as u8, (self.6 % 0x100) as u8, (self.7 / 0x100) as u8, (self.7
            % 0x100) as u8)
    }

    /// Whether the address is loopback, unspecified, unique-local (fc00::/7),
    /// link-local (fe80::/10), or maps a private IPv4 address.
    pub open spec fn is_private(self) -> bool {
        ||| self == Ipv6Addr(0, 0, 0, 0, 0, 0, 0, 1)
        ||| self == Ipv6Addr(0, 0, 0, 0, 0, 0, 0, 0)
        ||| 0xfc00 <= self.0 <= 0xfdff
        ||| 0xfe80 <= self.0 <= 0xfebf
        ||| (self.is_ipv4_mapped() && self.embedded_v4().is_private())
    }
}

impl IpAddr {
    pub open spec fn is_private(self) -> bool {
        match self {
            IpAddr::V4(v4) => v4.is_private(),
            IpAddr::V6(v6) => v6.is_private(),
        }
    }
}

impl SocketAddr {
    pub fn new(ip: IpAddr, port: u16) -> (a: SocketAddr)
        ensures
            a == (SocketAddr { ip, port }),
    {
        SocketAddr { ip, port }
    }

    pub fn ip(&self) -> (ip: IpAddr)
        ensures
            ip == self.ip,
    {
        self.ip
    }

    pub fn port(&self) -> (port: u16)
        ensures
            port == self.port,
    {
        self.port
    }
}

/// Check if an IP address belongs to a private/reserved network.
pub fn is_private_ip(ip: &IpAddr) -> (r: bool)
    ensures
        r == ip.is_private(),
{
    match ip {
        IpAddr::V4(v4) => is_private_ipv4(v4),
        IpAddr::V6(v6) => is_private_ipv6(v6),
    }
}

fn is_private_ipv4(ip: &Ipv4Addr) -> (r: bool)
    ensures
        r == ip.is_private(),
{
    // 10.0.0.0/8
    if ip.0 == 10 {
        return true;
    }
    // 172.16.0.0/12
    if ip.0 == 172 && 16 <= ip.1 && ip.1 <= 31 {
        return true;
    }
    // 192.168.0.0/16
    if ip.0 == 192 && ip.1 == 168 {
        return true;
    }
    // 127.0.0.0/8
    if ip.0 == 127 {
        return true;
    }
    // 169.254.0.0/16 (link-local)
    if ip.0 == 169 && ip.1 == 254 {
        return true;
    }
    // 0.0.0.0/8
    if ip.0 == 0 {
        return true;
    }
    // 100.64.0.0/10 (CGNAT / shared address space)
    if ip.0 == 100 && 64 <= ip.1 && ip.1 <= 127 {
        return true;
    }
    // 192.0.0.0/24 (IETF protocol assignments)
    if ip.0 == 192 && ip.1 == 0 && ip.2 == 0 {
        return true;
    }
    // 198.18.0.0/15 (benchmark testing)
    if ip.0 == 198 && 18 <= ip.1 && ip.1 <= 19 {
        return true;
    }
    // 240.0.0.0/4 (reserved for future use)
    if ip.0 >= 240 {
        return true;
    }
    false
}

fn is_private_ipv6(ip: &Ipv6Addr) -> (r: bool)
    ensures
        r == ip.is_private(),
{
    let zero_head = ip.0 == 0 && ip.1 == 0 && ip.2 == 0 && ip.3 == 0 && ip.4 == 0;
    // ::1 loopback, :: unspecified
    if zero_head && ip.5 == 0 && ip.6 == 0 && (ip.7 == 1 || ip.7 == 0) {
        return true;
    }
    // fc00::/7 (ULA)
    if 0xfc00 <= ip.0 && ip.0 <= 0xfdff {
        return true;
    }
    // fe80::/10 (link-local)
    if 0xfe80 <= ip.0 && ip.0 <= 0xfebf {
        return true;
    }
    // IPv4-mapped IPv6 (::ffff:x.x.x.x): check the embedded IPv4
    if zero_head && ip.5 == 0xffff {
        let v4 = Ipv4Addr(
            (ip.6 / 0x100) as u8,
            (ip.6 % 0x100) as u8,
            (ip.7 / 0x100) as u8,
            (ip.7 % 0x100) as u8,
        );
        return is_private_ipv4(&v4);
    }
    false
}


/// Why a target was refused.
#[derive(Debug, Clone, PartialEq, Eq)]
pub enum FilterError {
    PrivateIp(IpAddr),
    PortNotAllowed(u16),
    DnsResolutionFailed(String),
    NoPublicAddrs(String),
}

/// An IPv4 address in dotted decimal.
pub open spec fn ipv4_text(ip: Ipv4Addr) -> Seq<char> {
    text::decimal(ip.0 as nat) + seq!['.'] + text::decimal(ip.1 as nat) + seq!['.']
        + text::decimal(ip.2 as nat) + seq!['.'] + text::decimal(ip.3 as nat)
}

/// The segments of an IPv6 address, in order.
pub open spec fn segments(ip: Ipv6Addr) -> Seq<u16> {
    seq![ip.0, ip.1, ip.2, ip.3, ip.4, ip.5, ip.6, ip.7]
}

/// The length of the run of zero segments that ends just before segment
/// `n`.
pub open spec fn zero_run(segs: Seq<u16>, n: nat) -> int
    decreases n,
{
    if n == 0 || n > segs.len() || segs[n - 1] != 0 {
        0
    } else {
        1 + zero_run(segs, (n - 1) as nat)
    }
}

/// The first longest run of zero segments among the first `n`: where it
/// starts and how long it is.
pub open spec fn longest_zero_run(segs: Seq<u16>, n: int) -> (int, int)
    decreases n,
{
    if n <= 0 {
        (0, 0)
    } else {
        let before = longest_zero_run(segs, n - 1);
        let run = zero_run(segs, n as nat);
        if run > before.1 {
            (n - run, run)
        } else {
            before
        }
    }
}

/// Segments in hexadecimal with colons between them.
pub open spec fn groups(segs: Seq<u16>) -> Seq<char>
    decreases segs.len(),
{
    if segs.len() == 0 {
        seq![]
    } else if segs.len() == 1 {
        text::hexadecimal(segs[0] as nat)
    } else {
        groups(segs.drop_last()) + seq![':'] + text::hexadecimal(segs.last() as nat)
    }
}

/// An IPv6 address in its canonical text: an address that maps an IPv4
/// address as `::ffff:` and the IPv4 address; else the segments in
/// hexadecimal, with the first longest run of two or more zero segments
/// shortened to `::`.
pub open spec fn ipv6_text(ip: Ipv6Addr) -> Seq<char> {
    if ip.is_ipv4_mapped() {
        "::ffff:"@ + ipv4_text(ip.embedded_v4())
    } else {
        let segs = segments(ip);
        let (start, len) = longest_zero_run(segs, 8);
        if len > 1 {
            groups(segs.take(start)) + "::"@ + groups(segs.skip(start + len))
        } else {
            groups(segs)
        }
    }
}

pub open spec fn ip_text(ip: IpAddr) -> Seq<char> {
    match ip {
        IpAddr::V4(v4) => ipv4_text(v4),
        IpAddr::V6(v6) => ipv6_text(v6),
    }
}

fn push_ipv4(s: &mut String, ip: &Ipv4Addr)
    ensures
        final(s)@ == old(s)@ + ipv4_text(*ip),
{
    text::push_numeral(s, ip.0 as u64, 10);
    text::push_char(s, '.');
    text::push_numeral(s, ip.1 as u64, 10);
    text::push_char(s, '.');
    text::push_numeral(s, ip.2 as u64, 10);
    text::push_char(s, '.');
    text::push_numeral(s, ip.3 as u64, 10);
    assert(s@ =~= old(s)@ + ipv4_text(*ip));
}

/// Appends the segments `segs[from..to]` in hexadecimal, colons between
/// them.
fn push_groups(s: &mut String, segs: &Vec<u16>, from: usize, to: usize)
    requires
        from <= to <= segs@.len(),
    ensures
        final(s)@ == old(s)@ + groups(segs@.subrange(from as int, to as int)),
{
    let mut i: usize = from;
    assert(segs@.subrange(from as int, from as int).len() == 0);
    assert(s@ =~= old(s)@ + groups(segs@.subrange(from as int, from as int)));
    while i < to
        invariant
            from <= i <= to <= segs@.len(),
            s@ == old(s)@ + groups(segs@.subrange(from as int, i as int)),
        decreases to - i,
    {
        let ghost upto = segs@.subrange(from as int, i + 1);
        assert(upto.drop_last() =~= segs@.subrange(from as int, i as int));
        assert(upto.last() == segs@[i as int]);
        if i > from {
            text::push_char(s, ':');
        } else {
            assert(upto[0] == segs@[from as int]);
        }
        text::push_numeral(s, segs[i] as u64, 16);
        assert(s@ =~= old(s)@ + groups(upto));
        i += 1;
    }
}

/// Where the first longest run of zero segments starts and how long it is.
fn find_zero_run(segs: &Vec<u16>) -> (r: (usize, usize))
    requires
        segs@.len() == 8,
    ensures
        (r.0 as int, r.1 as int) == longest_zero_run(segs@, 8),
        r.0 + r.1 <= 8,
{
    let mut best_start: usize = 0;
    let mut best_len: usize = 0;
    let mut run: usize = 0;
    let mut i: usize = 0;
    while i < 8
        invariant
            i <= 8,
            segs@.len() == 8,
            run == zero_run(segs@, i as nat),
            run <= i,
            (best_start as int, best_len as int) == longest_zero_run(segs@, i as int),
            best_start + best_len <= i,
        decreases 8 - i,
    {
        if segs[i] == 0 {
            run = run + 1;
            if run > best_len {
                best_start = i + 1 - run;
                best_len = run;
            }
        } else {
            run = 0;
        }
        i += 1;
    }
    (best_start, best_len)
}

fn ipv6_string(ip: &Ipv6Addr) -> (s: String)
    ensures
        s@ == ipv6_text(*ip),
{
    if ip.0 == 0 && ip.1 == 0 && ip.2 == 0 && ip.3 == 0 && ip.4 == 0 && ip.5 == 0xffff {
        let v4 = Ipv4Addr(
            (ip.6 / 0x100) as u8,
            (ip.6 % 0x100) as u8,
            (ip.7 / 0x100) as u8,
            (ip.7 % 0x100) as u8,
        );
        let mut s = String::from_str("::ffff:");
        push_ipv4(&mut s, &v4);
        return s;
    }
    let mut segs: Vec<u16> = Vec::new();
    segs.push(ip.0);
    segs.push(ip.1);
    segs.push(ip.2);
    segs.push(ip.3);
    segs.push(ip.4);
    segs.push(ip.5);
    segs.push(ip.6);
    segs.push(ip.7);
    assert(segs@ =~= segments(*ip));
    let (start, len) = find_zero_run(&segs);
    let mut s = String::new();
    if len > 1 {
        push_groups(&mut s, &segs, 0, start);
        s.append("::");
        push_groups(&mut s, &segs, start + len, 8);
        assert(segs@.subrange(0, start as int) =~= segs@.take(start as int));
        assert(segs@.subrange(start + len, 8) =~= segs@.skip(start + len));
    } else {
        push_groups(&mut s, &segs, 0, 8);
        assert(segs@.subrange(0, 8) =~= segs@);
    }
    s
}

impl IpAddr {
    /// The address as text.
    pub fn to_text(&self) -> (s: String)
        ensures
            s@ == ip_text(*self),
    {
        let mut s = String::new();
        match self {
            IpAddr::V4(ip) => {
                push_ipv4(&mut s, ip);
            },
            IpAddr::V6(ip) => {
                s = ipv6_string(ip);
            },
        }
        s
    }
}

impl FilterError {
    /// The error as a sentence for the peer.
    pub open spec fn text(self) -> Seq<char> {
        match self {
            FilterError::PrivateIp(ip) => "target IP "@ + ip_text(ip)
                + " is in private/reserved range"@,
            FilterError::PortNotAllowed(port) => "port "@ + text::decimal(port as nat)
                + " not in allowed list"@,
            FilterError::DnsResolutionFailed(host) => "DNS resolution failed for "@ + host@,
            FilterError::NoPublicAddrs(host) => "all resolved addresses for "@ + host@
                + " are private/reserved"@,
        }
    }

    pub fn message(&self) -> (s: String)
        ensures
            s@ == self.text(),
    {
        match self {
            FilterError::PrivateIp(ip) => {
                let t = ip.to_text();
                let mut s = text::concat("target IP ", t.as_str());
                s.append(" is in private/reserved range");
                s
            },
            FilterError::PortNotAllowed(port) => {
                let mut s = String::from_str("port ");
                text::push_numeral(&mut s, *port as u64, 10);
                s.append(" not in allowed list");
                s
            },
            FilterError::DnsResolutionFailed(host) => text::concat(
                "DNS resolution failed for ",
                host.as_str(),
            ),
            FilterError::NoPublicAddrs(host) => {
                let mut s = text::concat("all resolved addresses for ", host.as_str());
                s.append(" are private/reserved");
                s
            },
        }
    }
}


/// One cached resolution: the public addresses of a host for one port.
#[derive(Debug, Clone)]
pub struct DnsCacheEntry {
    /// The host, lower-cased.
    pub host: Vec<char>,
    pub port: u16,
    pub addrs: Vec<SocketAddr>,
    /// The first millisecond at which the entry no longer counts.
    pub expires_at: u64,
    pub inserted_at: u64,
}

impl DnsCacheEntry {
    /// The entry's key: the host, a colon and the port in decimal.
    pub open spec fn key(&self) -> Seq<char> {
        key_of(self.host@, self.port)
    }

    /// Whether the entry's key starts with `host` (lower-cased) and a
    /// colon.
    pub open spec fn shares_host(&self, host: Seq<char>) -> bool {
        text::has_at(self.key(), 0, host + seq![':'])
    }

    /// Whether this is the entry of `host` (lower-cased) and `port`, which
    /// is to say the entry with their key.
    pub open spec fn is_for(&self, host: Seq<char>, port: u16) -> bool {
        self.host@ == host && self.port == port
    }

    /// Every address is public and carries the entry's port.
    pub open spec fn sound(&self) -> bool {
        &&& self.addrs@.len() > 0
        &&& forall|i: int|
            0 <= i < self.addrs@.len() ==> !(#[trigger] self.addrs@[i]).ip.is_private()
                && self.addrs@[i].port == self.port
    }
}

/// The key of a host (lower-cased) and a port: `host:port`.
pub open spec fn key_of(host: Seq<char>, port: u16) -> Seq<char> {
    host + seq![':'] + text::decimal(port as nat)
}

/// The entries of `s` that have not expired at `now`, in order.
pub open spec fn live(s: Seq<DnsCacheEntry>, now: u64) -> Seq<DnsCacheEntry>
    decreases s.len(),
{
    if s.len() == 0 {
        s
    } else if s[0].expires_at > now {
        seq![s[0]] + live(s.drop_first(), now)
    } else {
        live(s.drop_first(), now)
    }
}

/// The entries of `s` but the one of `host` and `port`, in order.
pub open spec fn without(s: Seq<DnsCacheEntry>, host: Seq<char>, port: u16) -> Seq<
    DnsCacheEntry,
>
    decreases s.len(),
{
    if s.len() == 0 {
        s
    } else if s[0].is_for(host, port) {
        without(s.drop_first(), host, port)
    } else {
        seq![s[0]] + without(s.drop_first(), host, port)
    }
}

/// The index of the entry that was inserted first; of several inserted at the
/// same time, the one that stands first. 0 for an empty sequence.
pub open spec fn oldest(s: Seq<DnsCacheEntry>) -> int
    decreases s.len(),
{
    if s.len() <= 1 {
        0
    } else {
        let j = oldest(s.drop_last());
        if s.last().inserted_at < s[j].inserted_at {
            s.len() - 1
        } else {
            j
        }
    }
}

/// `s` after the oldest entries have left it one by one until fewer than
/// `capacity` are left.
pub open spec fn trimmed(s: Seq<DnsCacheEntry>, capacity: nat) -> Seq<DnsCacheEntry>
    decreases s.len(),
    via trimmed_decreases
{
    if s.len() > 0 && s.len() >= capacity {
        trimmed(s.remove(oldest(s)), capacity)
    } else {
        s
    }
}

#[via_fn]
proof fn trimmed_decreases(s: Seq<DnsCacheEntry>, capacity: nat) {
    lemma_oldest_bounds(s);
}

/// The index of the first entry of `host` and `port`; the length of `s` if
/// there is none.
pub open spec fn find(s: Seq<DnsCacheEntry>, host: Seq<char>, port: u16) -> int
    decreases s.len(),
{
    if s.len() == 0 {
        0
    } else if s[0].is_for(host, port) {
        0
    } else {
        1 + find(s.drop_first(), host, port)
    }
}

/// The index of the first entry whose key starts with `host` and a colon
/// and that has not expired at `now`; the length of `s` if there is none.
pub open spec fn find_host(s: Seq<DnsCacheEntry>, host: Seq<char>, now: u64) -> int
    decreases s.len(),
{
    if s.len() == 0 {
        0
    } else if s[0].shares_host(host) && s[0].expires_at > now {
        0
    } else {
        1 + find_host(s.drop_first(), host, now)
    }
}

/// No two entries are of the same host and port, and every entry is sound.
pub open spec fn sound(s: Seq<DnsCacheEntry>) -> bool {
    &&& forall|i: int| 0 <= i < s.len() ==> (#[trigger] s[i]).sound()
    &&& forall|i: int, j: int|
        0 <= i < s.len() && 0 <= j < s.len() && i != j ==> !(#[trigger] s[i]).is_for(
            (#[trigger] s[j]).host@,
            s[j].port,
        )
}

/// What a lookup of `host` and `port` at `now` finds among `s`.
pub open spec fn cached(s: Seq<DnsCacheEntry>, host: Seq<char>, port: u16, now: u64) -> Option<
    Seq<SocketAddr>,
> {
    let i = find(s, text::lower(host), port);
    if i < s.len() && s[i].expires_at > now {
        Some(s[i].addrs@)
    } else {
        None
    }
}

/// The key tells host and port: two keys are the same text exactly if they
/// are of the same host and the same port.
pub proof fn lemma_key_tells_host_and_port(host_a: Seq<char>, port_a: u16, host_b: Seq<char>, port_b: u16)
    ensures
        key_of(host_a, port_a) == key_of(host_b, port_b) <==> host_a == host_b && port_a == port_b,
{
    if key_of(host_a, port_a) == key_of(host_b, port_b) {
        let k = key_of(host_a, port_a);
        let digits_a = text::decimal(port_a as nat);
        let digits_b = text::decimal(port_b as nat);
        text::lemma_decimal(port_a as nat);
        text::lemma_decimal(port_b as nat);
        assert(k.len() == host_a.len() + 1 + digits_a.len());
        assert(k.len() == host_b.len() + 1 + digits_b.len());
        // the colon of one key cannot stand among the digits of the other
        if host_a.len() < host_b.len() {
            assert(key_of(host_b, port_b)[host_b.len() as int] == ':');
            assert(k[host_b.len() as int] == digits_a[host_b.len() - host_a.len() - 1]);
            assert(text::is_decimal_digit(digits_a[host_b.len() - host_a.len() - 1]));
        } else if host_b.len() < host_a.len() {
            assert(k[host_a.len() as int] == ':');
            assert(key_of(host_b, port_b)[host_a.len() as int] == digits_b[host_a.len() - host_b.len() - 1]);
            assert(text::is_decimal_digit(digits_b[host_a.len() - host_b.len() - 1]));
        }
        assert(host_a.len() == host_b.len());
        assert(host_a =~= k.subrange(0, host_a.len() as int));
        assert(host_b =~= key_of(host_b, port_b).subrange(0, host_b.len() as int));
        assert(digits_a =~= k.subrange(host_a.len() as int + 1, k.len() as int));
        assert(digits_b =~= key_of(host_b, port_b).subrange(host_b.len() as int + 1, k.len() as int));
    }
}

proof fn lemma_find_first(s: Seq<DnsCacheEntry>, host: Seq<char>, port: u16, i: int)
    requires
        0 <= i <= s.len(),
        forall|j: int| 0 <= j < i ==> !(#[trigger] s[j]).is_for(host, port),
        i < s.len() ==> s[i].is_for(host, port),
    ensures
        find(s, host, port) == i,
    decreases s.len(),
{
    if s.len() > 0 && i > 0 {
        let rest = s.drop_first();
        assert(!s[0].is_for(host, port));
        assert forall|j: int| 0 <= j < i - 1 implies !(#[trigger] rest[j]).is_for(host, port) by {
            assert(rest[j] == s[j + 1]);
        }
        lemma_find_first(rest, host, port, i - 1);
    }
}

proof fn lemma_find_host_first(s: Seq<DnsCacheEntry>, host: Seq<char>, now: u64, i: int)
    requires
        0 <= i <= s.len(),
        forall|j: int|
            0 <= j < i ==> !((#[trigger] s[j]).shares_host(host) && s[j].expires_at > now),
        i < s.len() ==> s[i].shares_host(host) && s[i].expires_at > now,
    ensures
        find_host(s, host, now) == i,
    decreases s.len(),
{
    if s.len() > 0 && i > 0 {
        let rest = s.drop_first();
        assert(!(s[0].shares_host(host) && s[0].expires_at > now));
        assert forall|j: int| 0 <= j < i - 1 implies !((#[trigger] rest[j]).shares_host(host)
            && rest[j].expires_at > now) by {
            assert(rest[j] == s[j + 1]);
        }
        lemma_find_host_first(rest, host, now, i - 1);
    }
}

proof fn lemma_remove_sound(s: Seq<DnsCacheEntry>, i: int)
    requires
        sound(s),
        0 <= i < s.len(),
    ensures
        sound(s.remove(i)),
{
    let r = s.remove(i);
    assert forall|a: int| 0 <= a < r.len() implies (#[trigger] r[a]).sound() by {
        if a < i {
            assert(r[a] == s[a]);
        } else {
            assert(r[a] == s[a + 1]);
        }
    }
    assert forall|a: int, b: int| 0 <= a < r.len() && 0 <= b < r.len() && a != b implies !(
    #[trigger] r[a]).is_for((#[trigger] r[b]).host@, r[b].port) by {
        let a0 = if a < i {
            a
        } else {
            a + 1
        };
        let b0 = if b < i {
            b
        } else {
            b + 1
        };
        assert(r[a] == s[a0]);
        assert(r[b] == s[b0]);
    }
}

proof fn lemma_oldest_bounds(s: Seq<DnsCacheEntry>)
    ensures
        0 <= oldest(s),
        s.len() > 0 ==> oldest(s) < s.len(),
    decreases s.len(),
{
    if s.len() > 1 {
        lemma_oldest_bounds(s.drop_last());
    }
}

/// The millisecond at which an entry inserted at `now` expires: `now + ttl`,
/// or the last millisecond there is where that would lie behind it.
pub open spec fn expiry(now: u64, ttl: u64) -> u64 {
    if now + ttl > u64::MAX {
        u64::MAX
    } else {
        (now + ttl) as u64
    }
}

/// All addresses are public and carry `port`.
pub open spec fn all_public(addrs: Seq<SocketAddr>, port: u16) -> bool {
    forall|k: int|
        0 <= k < addrs.len() ==> !(#[trigger] addrs[k]).ip.is_private() && addrs[k].port == port
}

proof fn lemma_push_sound(s: Seq<DnsCacheEntry>, e: DnsCacheEntry)
    requires
        sound(s),
        e.sound(),
        forall|j: int| 0 <= j < s.len() ==> !(#[trigger] s[j]).is_for(e.host@, e.port),
    ensures
        sound(s.push(e)),
{
    let r = s.push(e);
    assert forall|a: int, b: int| 0 <= a < r.len() && 0 <= b < r.len() && a != b implies !(
    #[trigger] r[a]).is_for((#[trigger] r[b]).host@, r[b].port) by {
        if a < s.len() && b < s.len() {
            assert(r[a] == s[a] && r[b] == s[b]);
        } else if a < s.len() {
            assert(r[a] == s[a]);
        } else {
            assert(r[b] == s[b]);
        }
    }
}

/// Lightweight DNS cache with TTL and capacity bounds. It stores all public
/// resolved addresses per host and port, so that the outbound connector can
/// be served the addresses that were validated.
#[derive(Debug)]
pub struct DnsCache {
    ttl: u64,
    capacity: usize,
    entries: Vec<DnsCacheEntry>,
}

fn same_chars(a: &Vec<char>, b: &Vec<char>) -> (r: bool)
    ensures
        r == (a@ == b@),
{
    if a.len() != b.len() {
        return false;
    }
    let r = text::match_at(a, 0, b);
    proof {
        assert(a@.subrange(0, a@.len() as int) =~= a@);
    }
    r
}

fn copy_addrs(v: &Vec<SocketAddr>) -> (r: Vec<SocketAddr>)
    ensures
        r@ == v@,
{
    let mut r: Vec<SocketAddr> = Vec::new();
    let mut i: usize = 0;
    while i < v.len()
        invariant
            i <= v@.len(),
            r@ == v@.subrange(0, i as int),
        decreases v@.len() - i,
    {
        r.push(v[i]);
        i += 1;
        assert(r@ =~= v@.subrange(0, i as int));
    }
    assert(v@.subrange(0, v@.len() as int) =~= v@);
    r
}

/// The key of an entry.
fn entry_key(e: &DnsCacheEntry) -> (k: Vec<char>)
    ensures
        k@ == e.key(),
{
    let mut k = copy_chars(&e.host);
    k.push(':');
    let digits = text::u64_to_string(e.port as u64);
    let mut tail = text::chars_of(digits.as_str());
    k.append(&mut tail);
    assert(k@ =~= e.key());
    k
}

fn copy_chars(v: &Vec<char>) -> (r: Vec<char>)
    ensures
        r@ == v@,
{
    let mut r: Vec<char> = Vec::new();
    let mut i: usize = 0;
    while i < v.len()
        invariant
            i <= v@.len(),
            r@ == v@.subrange(0, i as int),
        decreases v@.len() - i,
    {
        r.push(v[i]);
        i += 1;
        assert(r@ =~= v@.subrange(0, i as int));
    }
    assert(v@.subrange(0, v@.len() as int) =~= v@);
    r
}

/// The lower-cased characters of `host`.
fn host_key(host: &str) -> (k: Vec<char>)
    ensures
        k@ == text::lower(host@),
{
    let lowered = text::to_ascii_lowercase(host);
    text::chars_of(lowered.as_str())
}

impl DnsCache {
    /// How long an entry counts, in milliseconds.
    pub closed spec fn ttl(&self) -> u64 {
        self.ttl
    }

    /// How many entries the cache may hold.
    pub closed spec fn capacity(&self) -> usize {
        self.capacity
    }

    /// The entries, in the order in which they were inserted.
    pub closed spec fn entries(&self) -> Seq<DnsCacheEntry> {
        self.entries@
    }

    /// A cache with no time to live or no room stores nothing.
    pub open spec fn enabled(&self) -> bool {
        self.capacity() > 0 && self.ttl() > 0
    }

    /// The cache's invariant: at most `capacity` entries, no host and port
    /// twice, every cached address public.
    pub open spec fn wf(&self) -> bool {
        &&& self.entries().len() <= self.capacity()
        &&& sound(self.entries())
    }

    pub fn new(ttl: u64, capacity: usize) -> (c: DnsCache)
        ensures
            c.wf(),
            c.ttl() == ttl,
            c.capacity() == capacity,
            c.entries() == Seq::<DnsCacheEntry>::empty(),
    {
        DnsCache { ttl, capacity, entries: Vec::new() }
    }

    /// The number of entries.
    pub fn len(&self) -> (n: usize)
        ensures
            n == self.entries().len(),
    {
        self.entries.len()
    }

    /// Look up cached public addresses for a host (any port): those of the
    /// first unexpired entry whose key starts with the host and a colon.
    #[verifier::loop_isolation(false)]
    pub fn get_by_host(&self, host: &str, now: u64) -> (r: Option<Vec<SocketAddr>>)
        requires
            self.wf(),
        ensures
            ({
                let i = find_host(self.entries(), text::lower(host@), now);
                if self.enabled() && i < self.entries().len() {
                    r is Some && r->Some_0@ == self.entries()[i].addrs@
                } else {
                    r is None
                }
            }),
            r is Some ==> r->Some_0@.len() > 0 && forall|k: int|
                0 <= k < r->Some_0@.len() ==> !(#[trigger] r->Some_0@[k]).ip.is_private(),
    {
        if self.capacity == 0 || self.ttl == 0 {
            return None;
        }
        let mut prefix = host_key(host);
        prefix.push(':');
        let ghost wanted = text::lower(host@);
        assert(prefix@ =~= wanted + seq![':']);
        let mut i: usize = 0;
        while i < self.entries.len()
            invariant
                i <= self.entries@.len(),
                forall|j: int|
                    0 <= j < i ==> !((#[trigger] self.entries@[j]).shares_host(wanted)
                        && self.entries@[j].expires_at > now),
            decreases self.entries@.len() - i,
        {
            if self.entries[i].expires_at > now {
                let key = entry_key(&self.entries[i]);
                if text::match_at(&key, 0, &prefix) {
                    proof {
                        lemma_find_host_first(self.entries@, wanted, now, i as int);
                        assert(self.entries@[i as int].sound());
                    }
                    return Some(copy_addrs(&self.entries[i].addrs));
                }
            }
            i += 1;
        }
        proof {
            lemma_find_host_first(self.entries@, wanted, now, i as int);
        }
        None
    }

    /// Look up cached public addresses for a host and port. An entry found
    /// expired leaves the cache.
    #[verifier::loop_isolation(false)]
    pub fn get(&mut self, host: &str, port: u16, now: u64) -> (r: Option<Vec<SocketAddr>>)
        requires
            old(self).wf(),
        ensures
            final(self).wf(),
            final(self).ttl() == old(self).ttl(),
            final(self).capacity() == old(self).capacity(),
            ({
                let s = old(self).entries();
                let i = find(s, text::lower(host@), port);
                if old(self).enabled() && i < s.len() {
                    if s[i].expires_at > now {
                        r is Some && r->Some_0@ == s[i].addrs@ && final(self).entries() == s
                    } else {
                        r is None && final(self).entries() == s.remove(i)
                    }
                } else {
                    r is None && final(self).entries() == s
                }
            }),
            old(self).enabled() ==> (match r {
                Some(v) => Some(v@),
                None => None,
            }) == cached(old(self).entries(), host@, port, now),
            r is Some ==> cached(final(self).entries(), host@, port, now) == Some(r->Some_0@),
            r is Some ==> r->Some_0@.len() > 0 && all_public(r->Some_0@, port),
    {
        if self.capacity == 0 || self.ttl == 0 {
            return None;
        }
        let key = host_key(host);
        let mut i: usize = 0;
        while i < self.entries.len()
            invariant
                i <= self.entries@.len(),
                self.entries@ == old(self).entries@,
                self.ttl == old(self).ttl,
                self.capacity == old(self).capacity,
                forall|j: int| 0 <= j < i ==> !(#[trigger] self.entries@[j]).is_for(key@, port),
            decreases self.entries@.len() - i,
        {
            if self.entries[i].port == port && same_chars(&self.entries[i].host, &key) {
                proof {
                    lemma_find_first(self.entries@, key@, port, i as int);
                    assert(self.entries@[i as int].sound());
                }
                if self.entries[i].expires_at > now {
                    return Some(copy_addrs(&self.entries[i].addrs));
                }
                proof {
                    lemma_remove_sound(self.entries@, i as int);
                }
                self.entries.remove(i);
                return None;
            }
            i += 1;
        }
        proof {
            lemma_find_first(self.entries@, key@, port, i as int);
        }
        None
    }

    /// Drops the entries that have expired at `now`.
    #[verifier::loop_isolation(false)]
    fn purge(&mut self, now: u64)
        requires
            sound(old(self).entries@),
        ensures
            sound(final(self).entries@),
            final(self).entries@ == live(old(self).entries@, now),
            final(self).entries@.len() <= old(self).entries@.len(),
            final(self).ttl == old(self).ttl,
            final(self).capacity == old(self).capacity,
    {
        let mut i: usize = 0;
        assert(self.entries@.skip(0) =~= self.entries@);
        assert(self.entries@.take(0) + live(self.entries@, now) =~= live(self.entries@, now));
        while i < self.entries.len()
            invariant
                i <= self.entries@.len() <= old(self).entries@.len(),
                sound(self.entries@),
                self.ttl == old(self).ttl,
                self.capacity == old(self).capacity,
                live(old(self).entries@, now) == self.entries@.take(i as int) + live(
                    self.entries@.skip(i as int),
                    now,
                ),
            decreases self.entries@.len() - i,
        {
            let ghost before = self.entries@;
            assert(before.skip(i as int).drop_first() =~= before.skip(i + 1));
            if self.entries[i].expires_at > now {
                assert(before.take(i + 1) =~= before.take(i as int) + seq![before[i as int]]);
                assert(before.take(i as int) + (seq![before[i as int]] + live(
                    before.skip(i + 1),
                    now,
                )) =~= before.take(i + 1) + live(before.skip(i + 1), now));
                i += 1;
            } else {
                proof {
                    lemma_remove_sound(before, i as int);
                }
                self.entries.remove(i);
                assert(self.entries@.take(i as int) =~= before.take(i as int));
                assert(self.entries@.skip(i as int) =~= before.skip(i + 1));
            }
        }
        assert(self.entries@.take(i as int) =~= self.entries@);
        assert(self.entries@.take(i as int) + live(self.entries@.skip(i as int), now)
            =~= self.entries@);
    }

    /// The index of the entry that was inserted first.
    #[verifier::loop_isolation(false)]
    fn oldest_index(&self) -> (best: usize)
        requires
            self.entries@.len() > 0,
        ensures
            best == oldest(self.entries@),
            best < self.entries@.len(),
    {
        let mut best: usize = 0;
        let mut j: usize = 1;
        assert(oldest(self.entries@.take(1)) == 0);
        while j < self.entries.len()
            invariant
                1 <= j <= self.entries@.len(),
                best < j,
                best == oldest(self.entries@.take(j as int)),
            decreases self.entries@.len() - j,
        {
            assert(self.entries@.take(j + 1).drop_last() =~= self.entries@.take(j as int));
            if self.entries[j].inserted_at < self.entries[best].inserted_at {
                best = j;
            }
            j += 1;
        }
        assert(self.entries@.take(j as int) =~= self.entries@);
        best
    }

    /// Makes room for one entry: the oldest entries leave until fewer than
    /// `capacity` are left.
    #[verifier::loop_isolation(false)]
    fn trim(&mut self)
        requires
            sound(old(self).entries@),
            old(self).capacity > 0,
        ensures
            sound(final(self).entries@),
            final(self).entries@ == trimmed(old(self).entries@, old(self).capacity as nat),
            final(self).entries@.len() < old(self).capacity,
            final(self).ttl == old(self).ttl,
            final(self).capacity == old(self).capacity,
    {
        while self.entries.len() >= self.capacity
            invariant
                sound(self.entries@),
                self.ttl == old(self).ttl,
                self.capacity == old(self).capacity,
                trimmed(self.entries@, self.capacity as nat) == trimmed(
                    old(self).entries@,
                    old(self).capacity as nat,
                ),
            decreases self.entries@.len(),
        {
            let at = self.oldest_index();
            proof {
                lemma_remove_sound(self.entries@, at as int);
            }
            self.entries.remove(at);
        }
    }

    /// Drops the entry of `host` and `port`, if there is one.
    #[verifier::loop_isolation(false)]
    fn forget(&mut self, host: &Vec<char>, port: u16)
        requires
            sound(old(self).entries@),
        ensures
            sound(final(self).entries@),
            final(self).entries@ == without(old(self).entries@, host@, port),
            final(self).entries@.len() <= old(self).entries@.len(),
            forall|j: int|
                0 <= j < final(self).entries@.len() ==> !(#[trigger] final(self).entries@[j]).is_for(
                    host@,
                    port,
                ),
            final(self).ttl == old(self).ttl,
            final(self).capacity == old(self).capacity,
    {
        let mut i: usize = 0;
        assert(self.entries@.skip(0) =~= self.entries@);
        assert(self.entries@.take(0) + without(self.entries@, host@, port) =~= without(
            self.entries@,
            host@,
            port,
        ));
        while i < self.entries.len()
            invariant
                i <= self.entries@.len() <= old(self).entries@.len(),
                sound(self.entries@),
                self.ttl == old(self).ttl,
                self.capacity == old(self).capacity,
                forall|j: int| 0 <= j < i ==> !(#[trigger] self.entries@[j]).is_for(host@, port),
                without(old(self).entries@, host@, port) == self.entries@.take(i as int)
                    + without(self.entries@.skip(i as int), host@, port),
            decreases self.entries@.len() - i,
        {
            let ghost before = self.entries@;
            assert(before.skip(i as int).drop_first() =~= before.skip(i + 1));
            if self.entries[i].port == port && same_chars(&self.entries[i].host, host) {
                proof {
                    lemma_remove_sound(before, i as int);
                }
                self.entries.remove(i);
                assert(self.entries@.take(i as int) =~= before.take(i as int));
                assert(self.entries@.skip(i as int) =~= before.skip(i + 1));
            } else {
                assert(before.take(i + 1) =~= before.take(i as int) + seq![before[i as int]]);
                assert(before.take(i as int) + (seq![before[i as int]] + without(
                    before.skip(i + 1),
                    host@,
                    port,
                )) =~= before.take(i + 1) + without(before.skip(i + 1), host@, port));
                i += 1;
            }
        }
        assert(self.entries@.take(i as int) =~= self.entries@);
        assert(self.entries@.take(i as int) + without(self.entries@.skip(i as int), host@, port)
            =~= self.entries@);
    }

    /// Insert resolved public addresses into the cache: expired entries
    /// leave, then the oldest ones until there is room, then the entry takes
    /// the place of an earlier one of the same host and port. Nothing
    /// happens if the cache is disabled or `addrs` is empty.
    pub fn insert(&mut self, host: &str, port: u16, addrs: Vec<SocketAddr>, now: u64)
        requires
            old(self).wf(),
            all_public(addrs@, port),
        ensures
            final(self).wf(),
            final(self).ttl() == old(self).ttl(),
            final(self).capacity() == old(self).capacity(),
            if old(self).enabled() && addrs@.len() > 0 {
                inserted(
                    old(self).entries(),
                    final(self).entries(),
                    old(self).capacity() as nat,
                    old(self).ttl(),
                    text::lower(host@),
                    port,
                    addrs@,
                    now,
                )
            } else {
                final(self).entries() == old(self).entries()
            },
            old(self).enabled() && addrs@.len() > 0 ==> forall|t: u64|
                t < expiry(now, old(self).ttl()) ==> #[trigger] cached(
                    final(self).entries(),
                    host@,
                    port,
                    t,
                ) == Some(addrs@),
    {
        if self.capacity == 0 || self.ttl == 0 || addrs.len() == 0 {
            return ;
        }
        let key = host_key(host);
        self.purge(now);
        self.trim();
        self.forget(&key, port);
        let expires_at = if self.ttl > u64::MAX - now {
            u64::MAX
        } else {
            now + self.ttl
        };
        let entry = DnsCacheEntry { host: key, port, addrs, expires_at, inserted_at: now };
        proof {
            lemma_push_sound(self.entries@, entry);
            lemma_find_first(
                self.entries@.push(entry),
                text::lower(host@),
                port,
                self.entries@.len() as int,
            );
            assert(self.entries@.push(entry).drop_last() =~= self.entries@);
        }
        self.entries.push(entry);
    }
}


/// The socket addresses, on `port`, of the addresses among `ips` that are
/// not private, in order.
pub open spec fn public_addrs(ips: Seq<IpAddr>, port: u16) -> Seq<SocketAddr>
    decreases ips.len(),
{
    if ips.len() == 0 {
        Seq::empty()
    } else {
        let rest = public_addrs(ips.drop_last(), port);
        if ips.last().is_private() {
            rest
        } else {
            rest.push(SocketAddr { ip: ips.last(), port })
        }
    }
}

/// Drops the private addresses among `ips` and puts the others on `port`.
pub fn filter_public(ips: &Vec<IpAddr>, port: u16) -> (out: Vec<SocketAddr>)
    ensures
        out@ == public_addrs(ips@, port),
        all_public(out@, port),
{
    let mut out: Vec<SocketAddr> = Vec::new();
    let mut i: usize = 0;
    while i < ips.len()
        invariant
            i <= ips@.len(),
            out@ == public_addrs(ips@.take(i as int), port),
            all_public(out@, port),
        decreases ips@.len() - i,
    {
        assert(ips@.take(i + 1).drop_last() =~= ips@.take(i as int));
        if !is_private_ip(&ips[i]) {
            out.push(SocketAddr::new(ips[i], port));
        }
        i += 1;
    }
    assert(ips@.take(i as int) =~= ips@);
    out
}

/// The entries after a lookup of `host` (lower-cased) and `port` at `now`: an
/// entry found expired has left.
pub open spec fn looked_up(s: Seq<DnsCacheEntry>, host: Seq<char>, port: u16, now: u64) -> Seq<
    DnsCacheEntry,
> {
    let i = find(s, host, port);
    if i < s.len() && s[i].expires_at <= now {
        s.remove(i)
    } else {
        s
    }
}

/// Whether `after` is what an insertion of `addrs` for `host` (lower-cased)
/// and `port` at `now` makes of `before`.
pub open spec fn inserted(
    before: Seq<DnsCacheEntry>,
    after: Seq<DnsCacheEntry>,
    capacity: nat,
    ttl: u64,
    host: Seq<char>,
    port: u16,
    addrs: Seq<SocketAddr>,
    now: u64,
) -> bool {
    &&& after.len() > 0
    &&& after.drop_last() == without(trimmed(live(before, now), capacity), host, port)
    &&& after.last().is_for(host, port)
    &&& after.last().addrs@ == addrs
    &&& after.last().expires_at == expiry(now, ttl)
    &&& after.last().inserted_at == now
}

/// What validation says of a target that it does not refuse.
#[derive(Debug, Clone)]
pub enum Validated {
    /// The caller connects to these addresses and to no other.
    Addrs(Vec<SocketAddr>),
    /// The host is a name of which the cache holds nothing: it has to be
    /// resolved, and the outcome handed to `resolve_public_addrs`.
    Unresolved,
}

/// Resolve a hostname to public (non-private) socket addresses.
///
/// A cache hit is returned as it is. Otherwise `resolved` is what the
/// resolver found for `host` (`None` where it failed): private addresses are
/// dropped, and the others are cached and returned.
pub fn resolve_public_addrs(
    host: &str,
    port: u16,
    dns_cache: &mut DnsCache,
    now: u64,
    resolved: Option<Vec<IpAddr>>,
) -> (r: Result<Vec<SocketAddr>, FilterError>)
    requires
        old(dns_cache).wf(),
    ensures
        final(dns_cache).wf(),
        final(dns_cache).ttl() == old(dns_cache).ttl(),
        final(dns_cache).capacity() == old(dns_cache).capacity(),
        ({
            let before = old(dns_cache).entries();
            let after = final(dns_cache).entries();
            let hit = if old(dns_cache).enabled() {
                cached(before, host@, port, now)
            } else {
                None
            };
            let missed = if old(dns_cache).enabled() {
                looked_up(before, text::lower(host@), port, now)
            } else {
                before
            };
            if hit is Some {
                r is Ok && r->Ok_0@ == hit->Some_0 && after == before
            } else if resolved is None || resolved->Some_0@.len() == 0 {
                &&& r matches Err(FilterError::DnsResolutionFailed(h))
                &&& h@ == host@
                &&& after == missed
            } else if public_addrs(resolved->Some_0@, port).len() == 0 {
                &&& r matches Err(FilterError::NoPublicAddrs(h))
                &&& h@ == host@
                &&& after == missed
            } else {
                &&& r is Ok
                &&& r->Ok_0@ == public_addrs(resolved->Some_0@, port)
                &&& if old(dns_cache).enabled() {
                    inserted(
                        missed,
                        after,
                        old(dns_cache).capacity() as nat,
                        old(dns_cache).ttl(),
                        text::lower(host@),
                        port,
                        r->Ok_0@,
                        now,
                    )
                } else {
                    after == before
                }
            }
        }),
        r is Ok ==> r->Ok_0@.len() > 0 && all_public(r->Ok_0@, port),
        r is Ok && old(dns_cache).enabled() && now < u64::MAX ==> cached(
            final(dns_cache).entries(),
            host@,
            port,
            now,
        ) == Some(r->Ok_0@),
{
    // Cache hit
    if let Some(addrs) = dns_cache.get(host, port, now) {
        return Ok(addrs);
    }
    let ips = match resolved {
        Some(ips) => ips,
        None => {
            return Err(FilterError::DnsResolutionFailed(String::from_str(host)));
        },
    };
    if ips.len() == 0 {
        return Err(FilterError::DnsResolutionFailed(String::from_str(host)));
    }
    // Filter out private/reserved addresses
    let public = filter_public(&ips, port);
    if public.len() == 0 {
        return Err(FilterError::NoPublicAddrs(String::from_str(host)));
    }
    // Cache the validated public addresses
    dns_cache.insert(host, port, copy_addrs(&public), now);
    Ok(public)
}

/// Validate that the target host and port are allowed.
///
/// `literal` is the address that `host` spells where it is an IP literal.
/// In order: a port outside `allowed_ports` is refused; a literal is refused
/// if private, else it is the one address, which is cached like a resolved
/// one; a name is looked up in the cache. So whatever is returned is what
/// the cache serves right after.
pub fn validate_target(
    host: &str,
    literal: Option<IpAddr>,
    port: u16,
    allowed_ports: &HashSet<u16>,
    dns_cache: &mut DnsCache,
    now: u64,
) -> (r: Result<Validated, FilterError>)
    requires
        old(dns_cache).wf(),
    ensures
        final(dns_cache).wf(),
        final(dns_cache).ttl() == old(dns_cache).ttl(),
        final(dns_cache).capacity() == old(dns_cache).capacity(),
        ({
            let before = old(dns_cache).entries();
            let after = final(dns_cache).entries();
            if !allowed_ports@.contains(port) {
                r == Err::<Validated, FilterError>(FilterError::PortNotAllowed(port)) && after
                    == before
            } else if literal is Some {
                if literal->Some_0.is_private() {
                    &&& r == Err::<Validated, FilterError>(FilterError::PrivateIp(literal->Some_0))
                    &&& after == before
                } else {
                    &&& r matches Ok(Validated::Addrs(v))
                    &&& v@ == seq![SocketAddr { ip: literal->Some_0, port }]
                    &&& if old(dns_cache).enabled() {
                        inserted(
                            before,
                            after,
                            old(dns_cache).capacity() as nat,
                            old(dns_cache).ttl(),
                            text::lower(host@),
                            port,
                            v@,
                            now,
                        )
                    } else {
                        after == before
                    }
                }
            } else if !old(dns_cache).enabled() {
                r matches Ok(Validated::Unresolved) && after == before
            } else {
                &&& after == looked_up(before, text::lower(host@), port, now)
                &&& match cached(before, host@, port, now) {
                    Some(a) => r matches Ok(Validated::Addrs(v)) && v@ == a,
                    None => r matches Ok(Validated::Unresolved),
                }
            }
        }),
        r matches Ok(Validated::Addrs(v)) ==> {
            &&& allowed_ports@.contains(port)
            &&& v@.len() > 0
            &&& all_public(v@, port)
            &&& literal is None || (old(dns_cache).enabled() && now < u64::MAX) ==> cached(
                final(dns_cache).entries(),
                host@,
                port,
                now,
            ) == Some(v@)
        },
{
    // Port whitelist check
    if !allowed_ports.contains(&port) {
        return Err(FilterError::PortNotAllowed(port));
    }
    // An IP literal needs no DNS
    if let Some(ip) = literal {
        if is_private_ip(&ip) {
            return Err(FilterError::PrivateIp(ip));
        }
        let mut v: Vec<SocketAddr> = Vec::new();
        v.push(SocketAddr::new(ip, port));
        assert(v@ =~= seq![SocketAddr { ip, port }]);
        // cached, so that the connector is served the address that was validated
        dns_cache.insert(host, port, copy_addrs(&v), now);
        return Ok(Validated::Addrs(v));
    }
    match dns_cache.get(host, port, now) {
        Some(addrs) => Ok(Validated::Addrs(addrs)),
        None => Ok(Validated::Unresolved),
    }
}

} // verus!
