//! What a host reports about itself, as far as providers read it.
use vstd::prelude::*;

verus! {

/// The host's processor.
pub struct Cpu {
    /// Vendor, e.g. "GenuineIntel".
    pub vendor: String,
    /// Full description of the processor.
    pub brand_string: String,
    /// Number of cores.
    pub cores: u32,
}

impl Cpu {
    pub fn new(vendor: &str, brand_string: &str, cores: u32) -> (r: Cpu)
        ensures
            r.vendor@ == vendor@,
            r.brand_string@ == brand_string@,
            r.cores == cores,
    {
        Cpu { vendor: vendor.to_owned(), brand_string: brand_string.to_owned(), cores }
    }
}

/// Linux distribution family.
#[derive(Clone, Copy, Debug, PartialEq, Eq, Structural)]
pub enum LinuxDistro {
    Debian,
    RHEL,
    Standalone,
}

/// Operating system family.
#[derive(Clone, Copy, Debug, PartialEq, Eq, Structural)]
pub enum OsFamily {
    Bsd,
    Darwin,
    Linux(LinuxDistro),
}

/// Operating system name.
#[derive(Clone, Copy, Debug, PartialEq, Eq, Structural)]
pub enum OsPlatform {
    Centos,
    Debian,
    Fedora,
    Freebsd,
    Macos,
    Nixos,
    Ubuntu,
}

/// The host's operating system.
pub struct Os {
    /// Architecture, e.g. "x86_64".
    pub arch: String,
    pub family: OsFamily,
    pub platform: OsPlatform,
    /// Full version, e.g. "10.13".
    pub version_str: String,
    pub version_maj: u32,
    pub version_min: u32,
    pub version_patch: u32,
}

/// The user the agent runs as.
pub struct User {
    pub user: String,
    pub uid: u32,
    pub group: String,
    pub gid: u32,
    pub home_dir: String,
}

impl User {
    /// Whether this user is root: uid zero.
    pub fn is_root(&self) -> (r: bool)
        ensures
            r == (self.uid == 0),
    {
        self.uid == 0
    }
}

/// A mounted filesystem. Its capacity, the share used, follows from `used`
/// and `available`.
pub struct FsMount {
    /// The device, e.g. /dev/sd0s1.
    pub filesystem: String,
    /// Where it is mounted, e.g. /boot.
    pub mountpoint: String,
    /// Size in Kb.
    pub size: u64,
    /// Used, in Kb.
    pub used: u64,
    /// Available, in Kb.
    pub available: u64,
}

/// What a host reports about itself.
pub struct Telemetry {
    pub cpu: Cpu,
    /// The mounted filesystems.
    pub fs: Vec<FsMount>,
    /// Fully qualified host name.
    pub hostname: String,
    /// Memory, in bytes.
    pub memory: u64,
    /// The network interfaces.
    pub net: Vec<Netif>,
    pub os: Os,
    pub user: User,
}

/// Whether a network interface is up.
#[derive(Clone, Copy, Debug, PartialEq, Eq, Structural)]
pub enum NetifStatus {
    Active,
    Inactive,
}

/// An IPv4 address of an interface.
pub struct NetifIPv4 {
    pub address: String,
    pub netmask: String,
}

impl NetifIPv4 {
    pub fn new(address: &str, netmask: &str) -> (r: NetifIPv4)
        ensures
            r.address@ == address@,
            r.netmask@ == netmask@,
    {
        NetifIPv4 { address: address.to_owned(), netmask: netmask.to_owned() }
    }
}

/// An IPv6 address of an interface.
pub struct NetifIPv6 {
    pub address: String,
    pub prefixlen: u8,
    pub scopeid: Option<String>,
}

/// The text of an optional text.
pub open spec fn opt_text(s: Option<&str>) -> Option<Seq<char>> {
    match s {
        Some(t) => Some(t@),
        None => None,
    }
}

/// The text of an optional string.
pub open spec fn opt_string(s: Option<String>) -> Option<Seq<char>> {
    match s {
        Some(t) => Some(t@),
        None => None,
    }
}

fn owned(s: Option<&str>) -> (r: Option<String>)
    ensures
        opt_string(r) == opt_text(s),
{
    match s {
        Some(t) => Some(t.to_owned()),
        None => None,
    }
}

impl NetifIPv6 {
    pub fn new(address: &str, prefixlen: u8, scopeid: Option<&str>) -> (r: NetifIPv6)
        ensures
            r.address@ == address@,
            r.prefixlen == prefixlen,
            opt_string(r.scopeid) == opt_text(scopeid),
    {
        NetifIPv6 { address: address.to_owned(), prefixlen, scopeid: owned(scopeid) }
    }
}

/// A network interface.
pub struct Netif {
    pub interface: String,
    pub mac: Option<String>,
    pub inet: Option<NetifIPv4>,
    pub inet6: Option<NetifIPv6>,
    pub status: Option<NetifStatus>,
}

impl Netif {
    pub fn new(
        interface: &str,
        mac: Option<&str>,
        inet: Option<NetifIPv4>,
        inet6: Option<NetifIPv6>,
        status: Option<NetifStatus>,
    ) -> (r: Netif)
        ensures
            r.interface@ == interface@,
            opt_string(r.mac) == opt_text(mac),
            r.inet == inet,
            r.inet6 == inet6,
            r.status == status,
    {
        Netif { interface: interface.to_owned(), mac: owned(mac), inet, inet6, status }
    }
}

} // verus!
