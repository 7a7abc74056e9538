//! Managing system services: the init systems this library drives, how one
//! is chosen for a host, and the check-then-act steps that make start, stop,
//! enable and disable idempotent.
use vstd::prelude::*;
use crate::error::Error;
use crate::output::{Output, argv, join2, join3, pattern_matches, contains_text, occurs};
use crate::pattern::regex_result;
use crate::request::{
    Request,
    RequestModel,
    ServiceRunning,
    ServiceAction,
    ServiceEnabled,
    ServiceEnable,
    ServiceDisable,
    texts,
    opt_request,
};
use crate::telemetry::{Telemetry, OsFamily, LinuxDistro};

verus! {

/// The init systems.
#[derive(Clone, Copy, Debug, PartialEq, Eq, Structural)]
pub enum Provider {
    Debian,
    Homebrew,
    Launchctl,
    Rc,
    Redhat,
    Systemd,
}

/// systemd.
pub struct Systemd;

/// Debian's SysV init scripts.
pub struct Debian;

/// Red Hat's SysV init scripts.
pub struct Redhat;

/// The BSD rc.d system.
pub struct Rc;

/// macOS launchd, driven by `launchctl`: the domain services are managed in,
/// and the directory that holds their property lists.
pub struct Launchctl {
    pub domain_target: String,
    pub service_path: String,
}

/// Homebrew's services, which it hands to launchd.
pub struct Homebrew {
    pub inner: Launchctl,
}

/// The decimal text of a digit.
pub open spec fn digit_text(d: nat) -> Seq<char> {
    if d == 0 { "0"@ } else if d == 1 { "1"@ } else if d == 2 { "2"@ } else if d == 3 { "3"@ }
    else if d == 4 { "4"@ } else if d == 5 { "5"@ } else if d == 6 { "6"@ } else if d == 7 { "7"@ }
    else if d == 8 { "8"@ } else { "9"@ }
}

/// The decimal text of a number.
pub open spec fn decimal_text(n: nat) -> Seq<char>
    decreases n,
{
    if n < 10 {
        digit_text(n)
    } else {
        decimal_text(n / 10) + digit_text(n % 10)
    }
}

fn digit(d: u32) -> (r: &'static str)
    requires
        d < 10,
    ensures
        r@ == digit_text(d as nat),
{
    if d == 0 { "0" } else if d == 1 { "1" } else if d == 2 { "2" } else if d == 3 { "3" }
    else if d == 4 { "4" } else if d == 5 { "5" } else if d == 6 { "6" } else if d == 7 { "7" }
    else if d == 8 { "8" } else { "9" }
}

/// The decimal text of `n`.
pub fn decimal(n: u32) -> (r: String)
    ensures
        r@ == decimal_text(n as nat),
    decreases n,
{
    if n < 10 {
        digit(n).to_owned()
    } else {
        let mut s = decimal(n / 10);
        s.append(digit(n % 10));
        s
    }
}

/// The launchd domain and property list directory for a user: the system
/// domain and `/Library/LaunchDaemons` for root, else the user's GUI domain
/// and `Library/LaunchAgents` in their home.
pub open spec fn launchctl_domain(uid: u32) -> Seq<char> {
    if uid == 0 {
        "system"@
    } else {
        "gui/"@ + decimal_text(uid as nat)
    }
}

pub open spec fn launchctl_path(uid: u32, home: Seq<char>) -> Seq<char> {
    if uid == 0 {
        "/Library/LaunchDaemons"@
    } else {
        home + "/Library/LaunchAgents"@
    }
}

impl Launchctl {
    pub fn new(t: &Telemetry) -> (r: Launchctl)
        ensures
            r.domain_target@ == launchctl_domain(t.user.uid),
            r.service_path@ == launchctl_path(t.user.uid, t.user.home_dir@),
    {
        if t.user.is_root() {
            Launchctl {
                domain_target: "system".to_owned(),
                service_path: "/Library/LaunchDaemons".to_owned(),
            }
        } else {
            let uid = decimal(t.user.uid);
            Launchctl {
                domain_target: join2("gui/", uid.as_str()),
                service_path: join2(t.user.home_dir.as_str(), "/Library/LaunchAgents"),
            }
        }
    }

    /// Where the property list of the service `name` is installed.
    pub fn plist_path(&self, name: &str) -> (r: String)
        ensures
            r@ == self.service_path@ + "/"@ + name@ + ".plist"@,
    {
        let head = join3(self.service_path.as_str(), "/", name);
        join2(head.as_str(), ".plist")
    }
}

impl Homebrew {
    pub fn new(t: &Telemetry) -> (r: Homebrew)
        ensures
            r.inner.domain_target@ == launchctl_domain(t.user.uid),
            r.inner.service_path@ == launchctl_path(t.user.uid, t.user.home_dir@),
    {
        Homebrew { inner: Launchctl::new(t) }
    }

    /// The property list that Homebrew ships for the service `name`.
    pub fn plist_source(name: &str) -> (r: String)
        ensures
            r@ == "/usr/local/opt/"@ + name@ + "/homebrew.mxcl."@ + name@ + ".plist"@,
    {
        let head = join3("/usr/local/opt/", name, "/homebrew.mxcl.");
        join3(head.as_str(), name, ".plist")
    }

    /// The file work to do before an action on the service `name`: before
    /// "stop", remove its installed property list; before any other action,
    /// install Homebrew's property list into the service directory.
    pub fn plist_step(&self, name: &str, action: &str) -> (r: PlistStep)
        ensures
            action@ == "stop"@ ==> (r matches PlistStep::Uninstall { path } && path@
                == self.inner.service_path@ + "/"@ + name@ + ".plist"@),
            action@ != "stop"@ ==> (r matches PlistStep::Install { from, to } && from@
                == "/usr/local/opt/"@ + name@ + "/homebrew.mxcl."@ + name@ + ".plist"@ && to@
                == self.inner.service_path@ + "/homebrew.mxcl."@ + name@ + ".plist"@),
    {
        if crate::json::same_text(action, "stop") {
            PlistStep::Uninstall { path: self.inner.plist_path(name) }
        } else {
            let head = join3(self.inner.service_path.as_str(), "/homebrew.mxcl.", name);
            PlistStep::Install { from: Homebrew::plist_source(name), to: join2(head.as_str(), ".plist") }
        }
    }
}

/// File work that a Homebrew service action needs first.
pub enum PlistStep {
    /// Copy the property list `from` to `to`, unless `to` exists.
    Install { from: String, to: String },
    /// Remove the property list at `path`, if it exists.
    Uninstall { path: String },
}

/// What the host offers that the choice of init system depends on.
pub struct ServiceProbes {
    /// Whether process 1 is systemd.
    pub systemd: bool,
    /// Whether `brew` is on the `PATH`.
    pub brew: bool,
}

impl Systemd {
    /// Whether process 1 is systemd, read from the output of
    /// `stat --format=%N /proc/1/exe`.
    pub fn available(stat: &Output) -> (r: Result<bool, Error>)
        ensures
            stat.success ==> r == Ok::<bool, Error>(occurs(stat.stdout@, "systemd"@)),
            !stat.success ==> (r matches Err(Error::SystemCommand(c)) && c@ == "/usr/bin/stat"@),
    {
        if stat.success {
            Ok(contains_text(stat.stdout.as_str(), "systemd"))
        } else {
            Err(Error::SystemCommand("/usr/bin/stat".to_owned()))
        }
    }
}

/// Whether the init system `p` serves a host with telemetry `t` and probes
/// `b`.
pub open spec fn service_available(p: Provider, t: Telemetry, b: ServiceProbes) -> bool {
    match p {
        Provider::Systemd => b.systemd,
        Provider::Debian => t.os.family == OsFamily::Linux(LinuxDistro::Debian),
        Provider::Homebrew => b.brew && t.os.family == OsFamily::Darwin && t.os.version_min >= 11,
        Provider::Launchctl => t.os.family == OsFamily::Darwin && t.os.version_min >= 11,
        Provider::Rc => t.os.family == OsFamily::Bsd,
        Provider::Redhat => t.os.family == OsFamily::Linux(LinuxDistro::RHEL),
    }
}

/// The order in which init systems are tried.
pub open spec fn service_rank(p: Provider) -> int {
    match p {
        Provider::Systemd => 0,
        Provider::Debian => 1,
        Provider::Homebrew => 2,
        Provider::Launchctl => 3,
        Provider::Rc => 4,
        Provider::Redhat => 5,
    }
}

/// The first init system that serves the host, in the order systemd, Debian,
/// Homebrew, launchctl, rc.d, Red Hat.
pub open spec fn service_choice(t: Telemetry, b: ServiceProbes) -> Option<Provider> {
    if service_available(Provider::Systemd, t, b) {
        Some(Provider::Systemd)
    } else if service_available(Provider::Debian, t, b) {
        Some(Provider::Debian)
    } else if service_available(Provider::Homebrew, t, b) {
        Some(Provider::Homebrew)
    } else if service_available(Provider::Launchctl, t, b) {
        Some(Provider::Launchctl)
    } else if service_available(Provider::Rc, t, b) {
        Some(Provider::Rc)
    } else if service_available(Provider::Redhat, t, b) {
        Some(Provider::Redhat)
    } else {
        None
    }
}

impl Debian {
    pub fn available(t: &Telemetry) -> (r: bool)
        ensures
            r == (t.os.family == OsFamily::Linux(LinuxDistro::Debian)),
    {
        t.os.family == OsFamily::Linux(LinuxDistro::Debian)
    }
}

impl Redhat {
    pub fn available(t: &Telemetry) -> (r: bool)
        ensures
            r == (t.os.family == OsFamily::Linux(LinuxDistro::RHEL)),
    {
        t.os.family == OsFamily::Linux(LinuxDistro::RHEL)
    }
}

impl Rc {
    pub fn available(t: &Telemetry) -> (r: bool)
        ensures
            r == (t.os.family == OsFamily::Bsd),
    {
        t.os.family == OsFamily::Bsd
    }
}

impl Launchctl {
    pub fn available(t: &Telemetry) -> (r: bool)
        ensures
            r == (t.os.family == OsFamily::Darwin && t.os.version_min >= 11),
    {
        t.os.family == OsFamily::Darwin && t.os.version_min >= 11
    }
}

impl Homebrew {
    pub fn available(t: &Telemetry, brew: bool) -> (r: bool)
        ensures
            r == (brew && t.os.family == OsFamily::Darwin && t.os.version_min >= 11),
    {
        brew && Launchctl::available(t)
    }
}

/// The init system for a host: the first that serves it, in the order
/// systemd, Debian, Homebrew, launchctl, rc.d, Red Hat; none is an error.
pub fn factory(t: &Telemetry, b: &ServiceProbes) -> (r: Result<Provider, Error>)
    ensures
        match service_choice(*t, *b) {
            Some(p) => r == Ok::<Provider, Error>(p),
            None => r matches Err(Error::ProviderUnavailable(e)) && e@ == "Service"@,
        },
{
    if b.systemd {
        Ok(Provider::Systemd)
    } else if Debian::available(t) {
        Ok(Provider::Debian)
    } else if Homebrew::available(t, b.brew) {
        Ok(Provider::Homebrew)
    } else if Launchctl::available(t) {
        Ok(Provider::Launchctl)
    } else if Rc::available(t) {
        Ok(Provider::Rc)
    } else if Redhat::available(t) {
        Ok(Provider::Redhat)
    } else {
        Err(Error::ProviderUnavailable("Service".to_owned()))
    }
}

/// Choosing an init system is total: it picks one that serves the host and
/// before which none does, or fails exactly when none does.
pub proof fn lemma_service_factory_total(t: Telemetry, b: ServiceProbes)
    ensures
        service_choice(t, b) matches Some(p) ==> service_available(p, t, b) && forall|q: Provider|
            service_rank(q) < service_rank(p) ==> !service_available(q, t, b),
        service_choice(t, b) is None <==> forall|q: Provider| !service_available(q, t, b),
{
    if service_choice(t, b) is None {
        assert forall|q: Provider| !service_available(q, t, b) by {
            match q {
                Provider::Systemd => {},
                Provider::Debian => {},
                Provider::Homebrew => {},
                Provider::Launchctl => {},
                Provider::Rc => {},
                Provider::Redhat => {},
            }
        }
    }
}

/// The service operations that run a helper command.
#[derive(Clone, Copy, Debug, PartialEq, Eq, Structural)]
pub enum Op {
    /// Ask whether the service runs.
    Running,
    /// Perform an action such as "start".
    Action,
    /// Ask whether the service starts at boot (for Debian: ask the runlevel).
    Enabled,
    /// Make the service start at boot.
    Enable,
    /// Stop the service from starting at boot.
    Disable,
}

/// The launchctl subcommand for an action: "start" boots the service in,
/// "stop" boots it out, "restart" kicks it; others pass as they are.
pub open spec fn launch_verb(v: Seq<char>) -> Seq<char> {
    if v == "start"@ {
        "bootstrap"@
    } else if v == "stop"@ {
        "bootout"@
    } else if v == "restart"@ {
        "kickstart -k"@
    } else {
        v
    }
}

/// The command line of an operation on the service `n`; `v` is the action,
/// and `d` and `path` the launchd domain and property list directory.
pub open spec fn service_line(
    p: Provider,
    op: Op,
    n: Seq<char>,
    v: Seq<char>,
    d: Seq<char>,
    path: Seq<char>,
) -> Seq<Seq<char>> {
    match p {
        Provider::Systemd => match op {
            Op::Running => seq!["systemctl"@, "is-active"@, n],
            Op::Action => seq!["systemctl"@, v, n],
            Op::Enabled => seq!["systemctl"@, "is-enabled"@, n],
            Op::Enable => seq!["systemctl"@, "enable"@, n],
            Op::Disable => seq!["systemctl"@, "disable"@, n],
        },
        Provider::Debian => match op {
            Op::Running => seq!["service"@, n, "status"@],
            Op::Action => seq!["service"@, v, n],
            Op::Enabled => seq!["/sbin/runlevel"@],
            Op::Enable => seq!["/usr/sbin/update-rc.d"@, "enable"@, n],
            Op::Disable => seq!["/usr/sbin/update-rc.d"@, "disable"@, n],
        },
        Provider::Redhat => match op {
            Op::Running => seq!["service"@, n, "status"@],
            Op::Action => seq!["service"@, v, n],
            Op::Enabled => seq!["/usr/sbin/chkconfig"@, n],
            Op::Enable => seq!["/usr/sbin/chkconfig"@, n, "on"@],
            Op::Disable => seq!["/usr/sbin/chkconfig"@, n, "off"@],
        },
        Provider::Rc => match op {
            Op::Running => seq!["service"@, n, "status"@],
            Op::Action => seq!["service"@, v, n],
            Op::Enabled => seq!["/usr/sbin/sysrc"@, n + "_enable"@],
            Op::Enable => seq!["/usr/sbin/sysrc"@, n + "_enable=\"YES\""@],
            Op::Disable => seq!["/usr/sbin/sysrc"@, n + "_enable=\"NO\""@],
        },
        _ => match op {
            Op::Running => seq!["/bin/launchctl"@, "blame"@, d + "/"@ + n],
            Op::Action => seq![
                "/bin/sh"@,
                "-c"@,
                "/bin/launchctl "@ + launch_verb(v) + " "@ + d + "/"@ + path + "/"@ + n + ".plist"@,
            ],
            Op::Enabled => seq!["/bin/launchctl"@, "print-disabled"@, d],
            Op::Enable => seq!["/bin/launchctl"@, "enable"@, d + "/"@ + n],
            Op::Disable => seq!["/bin/launchctl"@, "disable"@, d + "/"@ + n],
        },
    }
}

impl Launchctl {
    /// The launchctl subcommand for an action.
    pub fn verb(action: &str) -> (r: &str)
        ensures
            r@ == launch_verb(action@),
    {
        if crate::json::same_text(action, "start") {
            "bootstrap"
        } else if crate::json::same_text(action, "stop") {
            "bootout"
        } else if crate::json::same_text(action, "restart") {
            "kickstart -k"
        } else {
            action
        }
    }
}

/// An init system as chosen for a host, with the launchd settings that its
/// launchctl and Homebrew flavours use.
pub struct ServiceProvider {
    pub provider: Provider,
    pub launchctl: Launchctl,
}

impl ServiceProvider {
    pub fn new(provider: Provider, t: &Telemetry) -> (r: ServiceProvider)
        ensures
            r.provider == provider,
            r.launchctl.domain_target@ == launchctl_domain(t.user.uid),
            r.launchctl.service_path@ == launchctl_path(t.user.uid, t.user.home_dir@),
    {
        ServiceProvider { provider, launchctl: Launchctl::new(t) }
    }

    /// The command line of the operation `op` on the service `name`; `action`
    /// is used by `Op::Action` only.
    pub fn command(&self, op: Op, name: &str, action: &str) -> (r: Vec<String>)
        ensures
            texts(r@) == service_line(
                self.provider,
                op,
                name@,
                action@,
                self.launchctl.domain_target@,
                self.launchctl.service_path@,
            ),
    {
        let d = self.launchctl.domain_target.as_str();
        let r = match self.provider {
            Provider::Systemd => match op {
                Op::Running => argv(&["systemctl", "is-active", name]),
                Op::Action => argv(&["systemctl", action, name]),
                Op::Enabled => argv(&["systemctl", "is-enabled", name]),
                Op::Enable => argv(&["systemctl", "enable", name]),
                Op::Disable => argv(&["systemctl", "disable", name]),
            },
            Provider::Debian => match op {
                Op::Running => argv(&["service", name, "status"]),
                Op::Action => argv(&["service", action, name]),
                Op::Enabled => argv(&["/sbin/runlevel"]),
                Op::Enable => argv(&["/usr/sbin/update-rc.d", "enable", name]),
                Op::Disable => argv(&["/usr/sbin/update-rc.d", "disable", name]),
            },
            Provider::Redhat => match op {
                Op::Running => argv(&["service", name, "status"]),
                Op::Action => argv(&["service", action, name]),
                Op::Enabled => argv(&["/usr/sbin/chkconfig", name]),
                Op::Enable => argv(&["/usr/sbin/chkconfig", name, "on"]),
                Op::Disable => argv(&["/usr/sbin/chkconfig", name, "off"]),
            },
            Provider::Rc => match op {
                Op::Running => argv(&["service", name, "status"]),
                Op::Action => argv(&["service", action, name]),
                Op::Enabled => {
                    let a = join2(name, "_enable");
                    argv(&["/usr/sbin/sysrc", a.as_str()])
                },
                Op::Enable => {
                    let a = join2(name, "_enable=\"YES\"");
                    argv(&["/usr/sbin/sysrc", a.as_str()])
                },
                Op::Disable => {
                    let a = join2(name, "_enable=\"NO\"");
                    argv(&["/usr/sbin/sysrc", a.as_str()])
                },
            },
            _ => match op {
                Op::Running => {
                    let t = join3(d, "/", name);
                    argv(&["/bin/launchctl", "blame", t.as_str()])
                },
                Op::Action => {
                    let a = join3("/bin/launchctl ", Launchctl::verb(action), " ");
                    let b = join3(a.as_str(), d, "/");
                    let c = join3(b.as_str(), self.launchctl.service_path.as_str(), "/");
                    let line = join3(c.as_str(), name, ".plist");
                    argv(&["/bin/sh", "-c", line.as_str()])
                },
                Op::Enabled => argv(&["/bin/launchctl", "print-disabled", d]),
                Op::Enable => {
                    let t = join3(d, "/", name);
                    argv(&["/bin/launchctl", "enable", t.as_str()])
                },
                Op::Disable => {
                    let t = join3(d, "/", name);
                    argv(&["/bin/launchctl", "disable", t.as_str()])
                },
            },
        };
        assert(texts(r@) =~= service_line(
            self.provider,
            op,
            name@,
            action@,
            self.launchctl.domain_target@,
            self.launchctl.service_path@,
        ));
        r
    }
}

/// The result of enabling or disabling: nothing on success, else an error
/// that carries the helper's standard error.
pub fn change_result(out: &Output, what: &str) -> (r: Result<(), Error>)
    ensures
        out.success ==> r is Ok,
        !out.success ==> (r matches Err(Error::Msg(m)) && m@ == "Could not "@ + what@ + " service: "@
            + out.stderr@),
{
    if out.success {
        Ok(())
    } else {
        let head = join3("Could not ", what, " service: ");
        Err(Error::Msg(join2(head.as_str(), out.stderr.as_str())))
    }
}

impl Systemd {
    /// Whether the service starts at boot, from `systemctl is-enabled`.
    pub fn enabled(out: &Output) -> (r: bool)
        ensures
            r == out.success,
    {
        out.success
    }
}

impl Redhat {
    /// Whether the service starts at boot, from `chkconfig <name>`.
    pub fn enabled(out: &Output) -> (r: bool)
        ensures
            r == out.success,
    {
        out.success
    }
}

/// The pattern of an rc.d service that is switched off.
pub open spec fn rc_disabled_pattern(n: Seq<char>) -> Seq<char> {
    "^"@ + n + "_enable: (?i:no)"@
}

impl Rc {
    /// Whether the service starts at boot, from `sysrc <name>_enable`: any
    /// value but "no" (in any case) is on; a failed query is off.
    pub fn enabled(name: &str, out: &Output) -> (r: Result<bool, Error>)
        ensures
            !out.success ==> r == Ok::<bool, Error>(false),
            out.success ==> match regex_result(rc_disabled_pattern(name@), out.stdout@) {
                Some(b) => r == Ok::<bool, Error>(!b),
                None => r is Err,
            },
    {
        if !out.success {
            return Ok(false);
        }
        let pat = join3("^", name, "_enable: (?i:no)");
        match pattern_matches(pat.as_str(), out.stdout.as_str()) {
            Ok(b) => Ok(!b),
            Err(e) => Err(e),
        }
    }
}

/// The pattern of a launchd service that is listed as disabled.
pub open spec fn launchctl_disabled_pattern(n: Seq<char>) -> Seq<char> {
    "(?m)^\\s+\""@ + n + "\" => false"@
}

impl Launchctl {
    /// Whether the service starts at boot, from `launchctl print-disabled`:
    /// on unless listed as disabled; a failed query is an error.
    pub fn enabled(name: &str, out: &Output) -> (r: Result<bool, Error>)
        ensures
            !out.success ==> (r matches Err(Error::SystemCommand(c)) && c@ == "/bin/launchctl"@),
            out.success ==> match regex_result(launchctl_disabled_pattern(name@), out.stdout@) {
                Some(b) => r == Ok::<bool, Error>(!b),
                None => r is Err,
            },
    {
        if !out.success {
            return Err(Error::SystemCommand("/bin/launchctl".to_owned()));
        }
        let pat = join3("(?m)^\\s+\"", name, "\" => false");
        match pattern_matches(pat.as_str(), out.stdout.as_str()) {
            Ok(b) => Ok(!b),
            Err(e) => Err(e),
        }
    }
}

/// `s` without the spaces and newlines at its end.
pub open spec fn trim_end(s: Seq<char>) -> Seq<char>
    decreases s.len(),
{
    if s.len() > 0 && (s.last() == '\n' || s.last() == ' ') {
        trim_end(s.drop_last())
    } else {
        s
    }
}

/// The rc directory of the runlevel that `runlevel` printed last.
pub open spec fn rc_dir_of(stdout: Seq<char>) -> Option<Seq<char>> {
    let t = trim_end(stdout);
    if t.len() == 0 {
        None
    } else {
        Some("/etc/rc"@ + t.subrange(t.len() - 1, t.len() as int) + ".d"@)
    }
}

/// Whether `pat` matches the path of one of `entries` in `dir`, checked in
/// order; `None` when the pattern does not compile.
pub open spec fn any_entry_matches(pat: Seq<char>, dir: Seq<char>, entries: Seq<Seq<char>>) -> Option<bool>
    decreases entries.len(),
{
    if entries.len() == 0 {
        Some(false)
    } else {
        match regex_result(pat, dir + "/"@ + entries[0]) {
            None => None,
            Some(true) => Some(true),
            Some(false) => any_entry_matches(pat, dir, entries.drop_first()),
        }
    }
}

/// The pattern of a start link of the service `n` in an rc directory.
pub open spec fn start_link_pattern(n: Seq<char>) -> Seq<char> {
    "/S[0-9]+"@ + n + "$"@
}

impl Debian {
    /// The rc directory of the current runlevel, from the output of
    /// `/sbin/runlevel`, whose last character is the runlevel.
    pub fn rc_dir(out: &Output) -> (r: Result<String, Error>)
        ensures
            !out.success ==> (r matches Err(Error::SystemCommand(c)) && c@ == "/sbin/runlevel"@),
            out.success ==> match rc_dir_of(out.stdout@) {
                Some(d) => r matches Ok(s) && s@ == d,
                None => r is Err,
            },
    {
        if !out.success {
            return Err(Error::SystemCommand("/sbin/runlevel".to_owned()));
        }
        let s = out.stdout.as_str();
        let mut k = s.unicode_len();
        assert(s@.take(k as int) =~= s@);
        while k > 0 && (s.get_char(k - 1) == '\n' || s.get_char(k - 1) == ' ')
            invariant
                k <= s@.len(),
                trim_end(s@) == trim_end(s@.take(k as int)),
            decreases k,
        {
            assert(s@.take(k as int).drop_last() =~= s@.take(k - 1));
            k = k - 1;
        }
        assert(trim_end(s@.take(k as int)) == s@.take(k as int));
        if k == 0 {
            return Err(Error::Msg("Could not determine current runlevel".to_owned()));
        }
        let level = s.substring_char(k - 1, k);
        assert(level@ =~= s@.take(k as int).subrange(k - 1, k as int));
        Ok(join3("/etc/rc", level, ".d"))
    }

    /// Whether the service starts at boot: some entry of the current rc
    /// directory `dir` is a start link of it.
    pub fn enabled(name: &str, dir: &str, entries: &Vec<String>) -> (r: Result<bool, Error>)
        ensures
            match any_entry_matches(start_link_pattern(name@), dir@, texts(entries@)) {
                Some(b) => r == Ok::<bool, Error>(b),
                None => r is Err,
            },
    {
        let pat = join3("/S[0-9]+", name, "$");
        let ghost all = texts(entries@);
        let mut i: usize = 0;
        assert(all.skip(0) =~= all);
        while i < entries.len()
            invariant
                i <= entries@.len(),
                all == texts(entries@),
                pat@ == start_link_pattern(name@),
                any_entry_matches(pat@, dir@, all) == any_entry_matches(pat@, dir@, all.skip(i as int)),
            decreases entries@.len() - i,
        {
            let path = join3(dir, "/", entries[i].as_str());
            let ghost rest = all.skip(i as int);
            assert(rest[0] == entries@[i as int]@);
            assert(rest.drop_first() =~= all.skip(i + 1));
            match pattern_matches(pat.as_str(), path.as_str()) {
                Ok(true) => {
                    return Ok(true);
                },
                Ok(false) => {},
                Err(e) => {
                    return Err(e);
                },
            }
            i = i + 1;
        }
        assert(all.skip(i as int) =~= Seq::<Seq<char>>::empty());
        Ok(false)
    }
}

/// What a service action does, given whether the service runs: "start" on a
/// running service and "stop" on a stopped one do nothing; any other case is
/// the action request.
pub open spec fn action_step(n: Seq<char>, v: Seq<char>, running: bool) -> Option<RequestModel> {
    if (running && v == "start"@) || (!running && v == "stop"@) {
        None
    } else {
        Some(RequestModel::ServiceAction(n, v))
    }
}

/// What enabling does, given whether the service is enabled.
pub open spec fn enable_step(n: Seq<char>, enabled: bool) -> Option<RequestModel> {
    if enabled {
        None
    } else {
        Some(RequestModel::ServiceEnable(n))
    }
}

/// What disabling does, given whether the service is enabled.
pub open spec fn disable_step(n: Seq<char>, enabled: bool) -> Option<RequestModel> {
    if enabled {
        Some(RequestModel::ServiceDisable(n))
    } else {
        None
    }
}

/// A service to be managed on a host.
pub struct Service {
    pub name: String,
}

impl Service {
    pub fn new(name: &str) -> (r: Service)
        ensures
            r.name@ == name@,
    {
        Service { name: name.to_owned() }
    }

    /// The request that asks whether the service runs.
    pub fn running(&self) -> (r: Request)
        ensures
            r@ == RequestModel::ServiceRunning(self.name@),
    {
        Request::ServiceRunning(ServiceRunning { name: self.name.clone() })
    }

    /// Whether an action first asks whether the service runs: "start" and
    /// "stop" do.
    pub fn checks_running(action: &str) -> (r: bool)
        ensures
            r == (action@ == "start"@ || action@ == "stop"@),
    {
        crate::json::same_text(action, "start") || crate::json::same_text(action, "stop")
    }

    /// Perform `action`, given whether the service runs (read only for
    /// "start" and "stop"): `None` when the service is in that state already,
    /// else the action request.
    pub fn action(&self, action: &str, running: bool) -> (r: Option<Request>)
        ensures
            opt_request(r) == action_step(self.name@, action@, running),
    {
        let start = crate::json::same_text(action, "start");
        let stop = crate::json::same_text(action, "stop");
        if (running && start) || (!running && stop) {
            None
        } else {
            Some(Request::ServiceAction(ServiceAction { name: self.name.clone(), action: action.to_owned() }))
        }
    }

    /// The request that asks whether the service starts at boot.
    pub fn enabled(&self) -> (r: Request)
        ensures
            r@ == RequestModel::ServiceEnabled(self.name@),
    {
        Request::ServiceEnabled(ServiceEnabled { name: self.name.clone() })
    }

    /// Enable the service, given whether it is enabled: `None` when it is.
    pub fn enable(&self, enabled: bool) -> (r: Option<Request>)
        ensures
            opt_request(r) == enable_step(self.name@, enabled),
    {
        if enabled {
            None
        } else {
            Some(Request::ServiceEnable(ServiceEnable { name: self.name.clone() }))
        }
    }

    /// Disable the service, given whether it is enabled: `None` when it is
    /// not.
    pub fn disable(&self, enabled: bool) -> (r: Option<Request>)
        ensures
            opt_request(r) == disable_step(self.name@, enabled),
    {
        if enabled {
            Some(Request::ServiceDisable(ServiceDisable { name: self.name.clone() }))
        } else {
            None
        }
    }
}

/// Starting a running service or stopping a stopped one does nothing; every
/// other action, and every action but "start" and "stop" whatever the state,
/// is passed on.
pub proof fn lemma_action_gated(n: Seq<char>, v: Seq<char>, running: bool)
    ensures
        (v == "start"@ || v == "stop"@) && running == (v == "start"@) ==> action_step(n, v, running)
            is None,
        (v == "start"@ || v == "stop"@) && running != (v == "start"@) ==> action_step(n, v, running)
            == Some(RequestModel::ServiceAction(n, v)),
        !(v == "start"@ || v == "stop"@) ==> action_step(n, v, running) == Some(
            RequestModel::ServiceAction(n, v),
        ),
{
    reveal_strlit("start");
    reveal_strlit("stop");
    crate::json::lemma_differ_at("start"@, "stop"@, 2);
}

/// Enabling and disabling are idempotent.
pub proof fn lemma_enable_idempotent(n: Seq<char>)
    ensures
        enable_step(n, true) is None,
        disable_step(n, false) is None,
{
}

} // verus!
