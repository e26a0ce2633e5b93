//! The filesystem policy of the Landlock sandbox: which directories the
//! program may write to and which it may only read, and what it reports
//! about the enforcement.
use vstd::prelude::*;

verus! {

/// The directories the program may read and write: its configuration and
/// cache directories and `/tmp`.
pub fn read_write_paths(config_dir: &str, cache_dir: &str) -> (v: Vec<String>)
    ensures
        v@.len() == 3,
        v@[0]@ == config_dir@,
        v@[1]@ == cache_dir@,
        v@[2]@ == "/tmp"@,
{
    let mut v: Vec<String> = Vec::new();
    v.push(config_dir.to_owned());
    v.push(cache_dir.to_owned());
    v.push("/tmp".to_owned());
    v
}

/// The system paths the program may only read: libraries, the audio
/// subsystem, TLS certificates, name resolution, devices and kernel views.
pub open spec fn spec_read_only_paths() -> Seq<Seq<char>> {
    seq![
        "/usr"@, "/lib"@, "/lib64"@, "/etc/alsa"@, "/etc/asound.conf"@, "/etc/pipewire"@,
        "/etc/pulse"@, "/etc/ld.so.cache"@, "/etc/ld.so.conf"@, "/etc/ld.so.conf.d"@, "/etc/ssl"@,
        "/etc/ca-certificates"@, "/etc/pki"@, "/etc/resolv.conf"@, "/etc/nsswitch.conf"@,
        "/etc/hosts"@, "/etc/gai.conf"@, "/dev"@, "/proc"@, "/sys"@, "/run"@,
    ]
}

/// The paths by their text.
pub open spec fn paths_view(v: Seq<&'static str>) -> Seq<Seq<char>> {
    v.map_values(|p: &'static str| p@)
}

/// List the system paths the program may only read.
pub fn read_only_paths() -> (v: Vec<&'static str>)
    ensures
        paths_view(v@) == spec_read_only_paths(),
{
    let mut v: Vec<&'static str> = Vec::new();
    v.push("/usr");
    v.push("/lib");
    v.push("/lib64");
    v.push("/etc/alsa");
    v.push("/etc/asound.conf");
    v.push("/etc/pipewire");
    v.push("/etc/pulse");
    v.push("/etc/ld.so.cache");
    v.push("/etc/ld.so.conf");
    v.push("/etc/ld.so.conf.d");
    v.push("/etc/ssl");
    v.push("/etc/ca-certificates");
    v.push("/etc/pki");
    v.push("/etc/resolv.conf");
    v.push("/etc/nsswitch.conf");
    v.push("/etc/hosts");
    v.push("/etc/gai.conf");
    v.push("/dev");
    v.push("/proc");
    v.push("/sys");
    v.push("/run");
    assert(paths_view(v@) =~= spec_read_only_paths());
    v
}

/// How far the kernel enforced the sandbox.
#[derive(Debug, Clone, Copy, PartialEq, Eq, Structural)]
pub enum Enforcement {
    FullyEnforced,
    PartiallyEnforced,
    NotEnforced,
}

/// The line reported once the sandbox is in place.
pub fn enforcement_message(e: Enforcement) -> (m: &'static str)
    ensures
        e == Enforcement::FullyEnforced ==> m@ == "[sandbox] Landlock fully enforced"@,
        e == Enforcement::PartiallyEnforced ==> m@ == "[sandbox] Landlock partially enforced"@,
        e == Enforcement::NotEnforced ==> m@ == "[sandbox] Landlock not enforced (unsupported kernel)"@,
{
    match e {
        Enforcement::FullyEnforced => "[sandbox] Landlock fully enforced",
        Enforcement::PartiallyEnforced => "[sandbox] Landlock partially enforced",
        Enforcement::NotEnforced => "[sandbox] Landlock not enforced (unsupported kernel)",
    }
}

} // verus!
