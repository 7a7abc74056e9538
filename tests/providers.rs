use intecture_api::error::Error;
use intecture_api::host::{get_providers, Plan, Reading};
use intecture_api::json::JsonValue;
use intecture_api::output::{contains_text, pattern_matches, Output};
use intecture_api::package::{self, Binaries, Package, PackageProvider};
use intecture_api::request::{PackageInstalled, Request, ServiceAction, ServiceEnabled};
use intecture_api::service::{self, Debian, Homebrew, Launchctl, Op, PlistStep, Provider, Rc, Service, ServiceProbes, ServiceProvider, Systemd};
use intecture_api::telemetry::{FsMount, Cpu, LinuxDistro, Os, OsFamily, OsPlatform, Telemetry, User};

fn out(success: bool, stdout: &str) -> Output {
    Output { success, stdout: stdout.to_string(), stderr: "err".to_string() }
}

fn words(v: &[&str]) -> Vec<String> {
    v.iter().map(|s| s.to_string()).collect()
}

fn bins(apt_get: bool, pkg: bool) -> Binaries {
    Binaries { apt_get, dnf: false, brew: false, nix_env: false, pkg, yum: false }
}

fn telemetry(family: OsFamily, version_min: u32, uid: u32) -> Telemetry {
    Telemetry {
        cpu: Cpu::new("GenuineIntel", "Moo Cow Super Fun Happy CPU", 100),
        hostname: "example.com".to_string(),
        memory: 10240,
        fs: vec![FsMount {
            filesystem: "/dev/disk0".to_string(),
            mountpoint: "/".to_string(),
            size: 10000,
            used: 5000,
            available: 5000,
        }],
        net: Vec::new(),
        os: Os {
            arch: "x86_64".to_string(),
            family,
            platform: OsPlatform::Debian,
            version_str: "1.0".to_string(),
            version_maj: 1,
            version_min,
            version_patch: 0,
        },
        user: User {
            user: "dr".to_string(),
            uid,
            group: "staff".to_string(),
            gid: 20,
            home_dir: "/Users/dr".to_string(),
        },
    }
}

#[test]
fn package_factory_order() {
    assert_eq!(package::factory(&bins(true, true)).ok(), Some(PackageProvider::Apt));
    assert_eq!(package::factory(&bins(false, true)).ok(), Some(PackageProvider::Pkg));
    match package::factory(&bins(false, false)) {
        Err(Error::ProviderUnavailable(e)) => assert_eq!(e, "Package"),
        _ => panic!("expected no provider"),
    }
}

#[test]
fn service_factory_order() {
    let deb = telemetry(OsFamily::Linux(LinuxDistro::Debian), 0, 0);
    let probes = ServiceProbes { systemd: true, brew: false };
    assert_eq!(service::factory(&deb, &probes).ok(), Some(Provider::Systemd));
    let no_systemd = ServiceProbes { systemd: false, brew: true };
    assert_eq!(service::factory(&deb, &no_systemd).ok(), Some(Provider::Debian));
    let mac = telemetry(OsFamily::Darwin, 13, 501);
    assert_eq!(service::factory(&mac, &no_systemd).ok(), Some(Provider::Homebrew));
    let bare = ServiceProbes { systemd: false, brew: false };
    assert_eq!(service::factory(&mac, &bare).ok(), Some(Provider::Launchctl));
    let old_mac = telemetry(OsFamily::Darwin, 10, 501);
    assert!(matches!(service::factory(&old_mac, &bare), Err(Error::ProviderUnavailable(e)) if e == "Service"));
    assert_eq!(service::factory(&telemetry(OsFamily::Bsd, 0, 0), &bare).ok(), Some(Provider::Rc));
    let rhel = telemetry(OsFamily::Linux(LinuxDistro::RHEL), 0, 0);
    assert_eq!(service::factory(&rhel, &bare).ok(), Some(Provider::Redhat));
}

#[test]
fn systemd_probe() {
    assert_eq!(Systemd::available(&out(true, "'/proc/1/exe' -> '/lib/systemd/systemd'")).ok(), Some(true));
    assert_eq!(Systemd::available(&out(true, "'/proc/1/exe' -> '/sbin/init'")).ok(), Some(false));
    assert!(matches!(Systemd::available(&out(false, "")), Err(Error::SystemCommand(c)) if c == "/usr/bin/stat"));
}

#[test]
fn idempotent_install() {
    let p = Package::new("foo");
    assert_eq!(PackageProvider::Pkg.query("foo"), words(&["pkg", "query", "%n", "foo"]));
    assert_eq!(PackageProvider::Pkg.installed("foo", "x86_64", &out(true, "")).ok(), Some(true));
    assert!(p.install(true).is_none());
    match p.install(false) {
        Some(Request::PackageInstall(i)) => assert_eq!(i.name, "foo"),
        _ => panic!("expected an install"),
    }
    assert!(p.uninstall(false).is_none());
    assert!(matches!(p.uninstall(true), Some(Request::PackageUninstall(_))));
    assert!(matches!(p.installed(), Request::PackageInstalled(_)));
}

#[test]
fn package_command_lines() {
    assert_eq!(PackageProvider::Apt.install("nginx"), words(&["apt-get", "-y", "install", "nginx"]));
    assert_eq!(PackageProvider::Dnf.uninstall("nginx"), words(&["dnf", "-y", "remove", "nginx"]));
    assert_eq!(PackageProvider::Homebrew.install("nginx"), words(&["brew", "install", "nginx"]));
    assert_eq!(PackageProvider::Nix.uninstall("nginx"), words(&["nix-env", "--uninstall", "nginx"]));
    assert_eq!(PackageProvider::Pkg.uninstall("nginx"), words(&["pkg", "delete", "-y", "nginx"]));
    assert_eq!(PackageProvider::Yum.query("nginx"), words(&["yum", "list", "installed"]));
}

#[test]
fn package_installed_readers() {
    let apt = PackageProvider::Apt;
    assert_eq!(apt.installed("nginx", "x86_64", &out(true, "bash\tinstall\nnginx\t\tinstall\n")).ok(), Some(true));
    assert_eq!(apt.installed("nginx", "x86_64", &out(true, "nginx\tdeinstall\n")).ok(), Some(false));
    assert!(matches!(apt.installed("nginx", "x86_64", &out(false, "")),
        Err(Error::Msg(m)) if m == "Error running `dpkg --get-selections`: err"));
    assert!(matches!(PackageProvider::Nix.installed("hello", "x86_64", &out(false, "")),
        Err(Error::Msg(m)) if m == "Error running `nix-env --install --dry-run hello`: err"));
    assert!(matches!(apt.installed("(", "x86_64", &out(true, "")), Err(Error::Regex(p)) if p == "(?m)(\\s+install$"));
    let dnf = PackageProvider::Dnf;
    assert_eq!(dnf.installed("nginx", "x86_64", &out(true, "nginx.x86_64  1.12 @fedora\n")).ok(), Some(true));
    assert_eq!(dnf.installed("nginx", "x86_64", &out(true, "nginx.i686  1.12 @fedora\n")).ok(), Some(false));
    let brew = PackageProvider::Homebrew;
    assert_eq!(brew.installed("wget", "x86_64", &out(true, "git wget \n")).ok(), Some(true));
    let nix = PackageProvider::Nix;
    assert_eq!(nix.installed("hello", "x86_64", &out(true, "these paths will be fetched (1 MiB)")).ok(), Some(false));
    assert_eq!(nix.installed("hello", "x86_64", &out(true, "")).ok(), Some(true));
    assert_eq!(PackageProvider::Pkg.installed("foo", "x86_64", &out(false, "")).ok(), Some(false));
}

#[test]
fn text_search() {
    assert!(contains_text("abcabd", "abd"));
    assert!(!contains_text("abcab", "abd"));
    assert!(contains_text("x", ""));
    assert_eq!(pattern_matches("^a+$", "aaa").ok(), Some(true));
    assert!(matches!(pattern_matches("(", "aaa"), Err(Error::Regex(_))));
}

#[test]
fn service_action_gating() {
    let s = Service::new("nginx");
    assert!(Service::checks_running("start"));
    assert!(!Service::checks_running("reload"));
    assert!(s.action("start", true).is_none());
    assert!(s.action("stop", false).is_none());
    match s.action("start", false) {
        Some(Request::ServiceAction(a)) => {
            assert_eq!(a.name, "nginx");
            assert_eq!(a.action, "start");
        }
        _ => panic!("expected an action"),
    }
    assert!(s.action("reload", true).is_some());
    assert!(s.enable(true).is_none());
    assert!(s.enable(false).is_some());
    assert!(s.disable(false).is_none());
    assert!(s.disable(true).is_some());
}

#[test]
fn systemd_routes_service_action() {
    let t = telemetry(OsFamily::Linux(LinuxDistro::Debian), 0, 0);
    let providers = get_providers(&t, &bins(true, false), &ServiceProbes { systemd: true, brew: false })
        .ok()
        .unwrap();
    let running = providers.route(Service::new("nginx").running());
    match running {
        Plan::Query { argv, reading: Reading::Running } => assert_eq!(argv, words(&["systemctl", "is-active", "nginx"])),
        _ => panic!("expected a query"),
    }
    let action = Request::ServiceAction(ServiceAction { name: "nginx".to_string(), action: "start".to_string() });
    match providers.route(action) {
        Plan::Stream { argv, plist: None } => assert_eq!(argv, words(&["systemctl", "start", "nginx"])),
        _ => panic!("expected a stream"),
    }
    match providers.answer(&Reading::Running, "x86_64", &out(true, "")) {
        Ok(JsonValue::Bool(b)) => assert!(b),
        _ => panic!("expected a yes"),
    }
}

#[test]
fn routes_package_and_debian_queries() {
    let t = telemetry(OsFamily::Linux(LinuxDistro::Debian), 0, 0);
    let providers = get_providers(&t, &bins(true, false), &ServiceProbes { systemd: false, brew: false })
        .ok()
        .unwrap();
    match providers.route(Request::PackageInstalled(PackageInstalled { name: "nginx".to_string() })) {
        Plan::Query { argv, reading } => {
            assert_eq!(argv, words(&["dpkg", "--get-selections"]));
            match providers.answer(&reading, "x86_64", &out(true, "nginx install")) {
                Ok(JsonValue::Bool(b)) => assert!(b),
                _ => panic!("expected a yes"),
            }
        }
        _ => panic!("expected a query"),
    }
    match providers.route(Request::ServiceEnabled(ServiceEnabled { name: "nginx".to_string() })) {
        Plan::DebianEnabled { argv, name } => {
            assert_eq!(argv, words(&["/sbin/runlevel"]));
            assert_eq!(name, "nginx");
        }
        _ => panic!("expected the runlevel"),
    }
    assert!(matches!(
        get_providers(&t, &bins(false, false), &ServiceProbes { systemd: true, brew: false }),
        Err(Error::ProviderUnavailable(e)) if e == "Package"
    ));
}

#[test]
fn debian_enabled_from_rc_dir() {
    let dir = Debian::rc_dir(&out(true, "N 2\n")).ok().unwrap();
    assert_eq!(dir, "/etc/rc2.d");
    assert!(matches!(Debian::rc_dir(&out(true, "\n")), Err(Error::Msg(_))));
    assert!(matches!(Debian::rc_dir(&out(false, "")), Err(Error::SystemCommand(_))));
    let entries = words(&["K01apache2", "S02nginx"]);
    assert_eq!(Debian::enabled("nginx", &dir, &entries).ok(), Some(true));
    assert_eq!(Debian::enabled("apache2", &dir, &entries).ok(), Some(false));
}

#[test]
fn rc_and_launchctl_enabled() {
    assert_eq!(Rc::enabled("nginx", &out(true, "nginx_enable: NO\n")).ok(), Some(false));
    assert_eq!(Rc::enabled("nginx", &out(true, "nginx_enable: YES\n")).ok(), Some(true));
    assert_eq!(Rc::enabled("nginx", &out(false, "")).ok(), Some(false));
    let disabled = "disabled services = {\n\t\"com.nginx\" => false\n}";
    assert_eq!(Launchctl::enabled("com.nginx", &out(true, disabled)).ok(), Some(false));
    assert_eq!(Launchctl::enabled("com.apache", &out(true, disabled)).ok(), Some(true));
    assert!(matches!(Launchctl::enabled("x", &out(false, "")), Err(Error::SystemCommand(_))));
    assert!(matches!(service::change_result(&out(false, ""), "enable"), Err(Error::Msg(m)) if m == "Could not enable service: err"));
}

#[test]
fn launchctl_paths_and_actions() {
    let user = telemetry(OsFamily::Darwin, 13, 501);
    let l = Launchctl::new(&user);
    assert_eq!(l.domain_target, "gui/501");
    assert_eq!(l.service_path, "/Users/dr/Library/LaunchAgents");
    let root = Launchctl::new(&telemetry(OsFamily::Darwin, 13, 0));
    assert_eq!(root.domain_target, "system");
    assert_eq!(root.plist_path("nginx"), "/Library/LaunchDaemons/nginx.plist");
    assert_eq!(Launchctl::verb("restart"), "kickstart -k");
    let sp = ServiceProvider::new(Provider::Launchctl, &user);
    assert_eq!(
        sp.command(Op::Action, "nginx", "start"),
        words(&["/bin/sh", "-c", "/bin/launchctl bootstrap gui/501//Users/dr/Library/LaunchAgents/nginx.plist"])
    );
    assert_eq!(sp.command(Op::Enable, "nginx", ""), words(&["/bin/launchctl", "enable", "gui/501/nginx"]));
    let rc = ServiceProvider::new(Provider::Rc, &user);
    assert_eq!(rc.command(Op::Disable, "nginx", ""), words(&["/usr/sbin/sysrc", "nginx_enable=\"NO\""]));
    let h = Homebrew::new(&user);
    match h.plist_step("nginx", "start") {
        PlistStep::Install { from, to } => {
            assert_eq!(from, "/usr/local/opt/nginx/homebrew.mxcl.nginx.plist");
            assert_eq!(to, "/Users/dr/Library/LaunchAgents/homebrew.mxcl.nginx.plist");
        }
        _ => panic!("expected an install"),
    }
    assert!(matches!(h.plist_step("nginx", "stop"), PlistStep::Uninstall { .. }));
}

#[test]
fn telemetry_records() {
    let t = telemetry(OsFamily::Linux(LinuxDistro::Debian), 0, 0);
    assert!(t.user.is_root());
    assert_eq!(t.cpu.cores, 100);
    let v4 = intecture_api::telemetry::NetifIPv4::new("127.0.0.1", "255.255.255.255");
    let v6 = intecture_api::telemetry::NetifIPv6::new("::1", 128, Some("0x4"));
    let n = intecture_api::telemetry::Netif::new("em0", Some("01:23:45:67:89:ab"), Some(v4), Some(v6), None);
    assert_eq!(n.interface, "em0");
    assert_eq!(n.mac.as_deref(), Some("01:23:45:67:89:ab"));
    assert_eq!(n.inet6.as_ref().unwrap().scopeid.as_deref(), Some("0x4"));
    assert_eq!(intecture_api::service::decimal(0), "0");
    assert_eq!(intecture_api::service::decimal(4294967295), "4294967295");
}

#[test]
fn routes_commands_and_homebrew_actions() {
    let mac = telemetry(OsFamily::Darwin, 13, 501);
    let brew = Binaries { apt_get: false, dnf: false, brew: true, nix_env: false, pkg: false, yum: false };
    let providers = get_providers(&mac, &brew, &ServiceProbes { systemd: false, brew: true }).ok().unwrap();
    assert_eq!(providers.package, PackageProvider::Homebrew);
    assert_eq!(providers.service.provider, Provider::Homebrew);
    let cmd = intecture_api::command::Command::new("echo hello", None).exec();
    match providers.route(cmd) {
        Plan::Stream { argv, plist: None } => assert_eq!(argv, words(&["/bin/sh", "-c", "echo hello"])),
        _ => panic!("expected a stream"),
    }
    let stop = Request::ServiceAction(ServiceAction { name: "nginx".to_string(), action: "stop".to_string() });
    match providers.route(stop) {
        Plan::Stream { argv, plist: Some(PlistStep::Uninstall { path }) } => {
            assert_eq!(path, "/Users/dr/Library/LaunchAgents/nginx.plist");
            assert_eq!(
                argv,
                words(&["/bin/sh", "-c", "/bin/launchctl bootout gui/501//Users/dr/Library/LaunchAgents/nginx.plist"])
            );
        }
        _ => panic!("expected a stream after the plist step"),
    }
    match providers.answer(&Reading::Change { enable: true }, "x86_64", &out(true, "")) {
        Ok(JsonValue::Null) => {}
        _ => panic!("expected success"),
    }
    let mut overridden = providers;
    overridden.set_package(PackageProvider::Nix);
    assert_eq!(overridden.package, PackageProvider::Nix);
}
