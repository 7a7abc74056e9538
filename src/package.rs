//! Managing system packages: the package managers this library drives, how
//! one is chosen for a host, and the check-then-act steps that make install
//! and uninstall idempotent.
use vstd::prelude::*;
use crate::error::Error;
use crate::output::{Output, argv, join2, join3, pattern_matches, contains_text, occurs};
use crate::pattern::regex_result;
use crate::request::{
    Request,
    RequestModel,
    PackageInstalled,
    PackageInstall,
    PackageUninstall,
    texts,
    opt_request,
};

verus! {

/// Which package manager binaries a host has on its `PATH`.
pub struct Binaries {
    pub apt_get: bool,
    pub dnf: bool,
    pub brew: bool,
    pub nix_env: bool,
    pub pkg: bool,
    pub yum: bool,
}

/// Debian's apt.
pub struct Apt;

/// Fedora's dnf.
pub struct Dnf;

/// Homebrew.
pub struct Homebrew;

/// Nix.
pub struct Nix;

/// FreeBSD's pkg.
pub struct Pkg;

/// Red Hat's yum.
pub struct Yum;

/// A package manager.
#[derive(Clone, Copy, Debug, PartialEq, Eq, Structural)]
pub enum PackageProvider {
    Apt,
    Dnf,
    Homebrew,
    Nix,
    Pkg,
    Yum,
}

/// Whether the host has the package manager `p`.
pub open spec fn package_available(p: PackageProvider, b: Binaries) -> bool {
    match p {
        PackageProvider::Apt => b.apt_get,
        PackageProvider::Dnf => b.dnf,
        PackageProvider::Homebrew => b.brew,
        PackageProvider::Nix => b.nix_env,
        PackageProvider::Pkg => b.pkg,
        PackageProvider::Yum => b.yum,
    }
}

/// The order in which package managers are tried.
pub open spec fn package_rank(p: PackageProvider) -> int {
    match p {
        PackageProvider::Apt => 0,
        PackageProvider::Dnf => 1,
        PackageProvider::Homebrew => 2,
        PackageProvider::Nix => 3,
        PackageProvider::Pkg => 4,
        PackageProvider::Yum => 5,
    }
}

/// The first available package manager, in the order apt, dnf, Homebrew, Nix,
/// pkg, yum.
pub open spec fn package_choice(b: Binaries) -> Option<PackageProvider> {
    if b.apt_get {
        Some(PackageProvider::Apt)
    } else if b.dnf {
        Some(PackageProvider::Dnf)
    } else if b.brew {
        Some(PackageProvider::Homebrew)
    } else if b.nix_env {
        Some(PackageProvider::Nix)
    } else if b.pkg {
        Some(PackageProvider::Pkg)
    } else if b.yum {
        Some(PackageProvider::Yum)
    } else {
        None
    }
}

impl Apt {
    pub fn available(b: &Binaries) -> (r: bool)
        ensures
            r == b.apt_get,
    {
        b.apt_get
    }
}

impl Dnf {
    pub fn available(b: &Binaries) -> (r: bool)
        ensures
            r == b.dnf,
    {
        b.dnf
    }
}

impl Homebrew {
    pub fn available(b: &Binaries) -> (r: bool)
        ensures
            r == b.brew,
    {
        b.brew
    }
}

impl Nix {
    pub fn available(b: &Binaries) -> (r: bool)
        ensures
            r == b.nix_env,
    {
        b.nix_env
    }
}

impl Pkg {
    pub fn available(b: &Binaries) -> (r: bool)
        ensures
            r == b.pkg,
    {
        b.pkg
    }
}

impl Yum {
    pub fn available(b: &Binaries) -> (r: bool)
        ensures
            r == b.yum,
    {
        b.yum
    }
}

/// The package manager for a host: the first available one, in the order
/// apt, dnf, Homebrew, Nix, pkg, yum; none available is an error.
pub fn factory(b: &Binaries) -> (r: Result<PackageProvider, Error>)
    ensures
        match package_choice(*b) {
            Some(p) => r == Ok::<PackageProvider, Error>(p),
            None => r matches Err(Error::ProviderUnavailable(e)) && e@ == "Package"@,
        },
{
    if Apt::available(b) {
        Ok(PackageProvider::Apt)
    } else if Dnf::available(b) {
        Ok(PackageProvider::Dnf)
    } else if Homebrew::available(b) {
        Ok(PackageProvider::Homebrew)
    } else if Nix::available(b) {
        Ok(PackageProvider::Nix)
    } else if Pkg::available(b) {
        Ok(PackageProvider::Pkg)
    } else if Yum::available(b) {
        Ok(PackageProvider::Yum)
    } else {
        Err(Error::ProviderUnavailable("Package".to_owned()))
    }
}

/// Choosing a package manager is total: it picks an available one before
/// which none is available, or fails exactly when none is available.
pub proof fn lemma_package_factory_total(b: Binaries)
    ensures
        package_choice(b) matches Some(p) ==> package_available(p, b) && forall|q: PackageProvider|
            package_rank(q) < package_rank(p) ==> !package_available(q, b),
        package_choice(b) is None <==> forall|q: PackageProvider| !package_available(q, b),
{
    if package_choice(b) is None {
        assert forall|q: PackageProvider| !package_available(q, b) by {
            match q {
                PackageProvider::Apt => {},
                PackageProvider::Dnf => {},
                PackageProvider::Homebrew => {},
                PackageProvider::Nix => {},
                PackageProvider::Pkg => {},
                PackageProvider::Yum => {},
            }
        }
    } else {
        let p = package_choice(b)->Some_0;
        assert(!package_available(p, b) ==> false);
    }
}

/// The command that asks the package manager what is installed.
pub open spec fn query_line(p: PackageProvider, name: Seq<char>) -> Seq<Seq<char>> {
    match p {
        PackageProvider::Apt => seq!["dpkg"@, "--get-selections"@],
        PackageProvider::Dnf => seq!["dnf"@, "list"@, "installed"@],
        PackageProvider::Homebrew => seq!["brew"@, "list"@],
        PackageProvider::Nix => seq!["nix-env"@, "--install"@, "--dry-run"@, name],
        PackageProvider::Pkg => seq!["pkg"@, "query"@, "%n"@, name],
        PackageProvider::Yum => seq!["yum"@, "list"@, "installed"@],
    }
}

/// The command that installs a package.
pub open spec fn install_line(p: PackageProvider, name: Seq<char>) -> Seq<Seq<char>> {
    match p {
        PackageProvider::Apt => seq!["apt-get"@, "-y"@, "install"@, name],
        PackageProvider::Dnf => seq!["dnf"@, "-y"@, "install"@, name],
        PackageProvider::Homebrew => seq!["brew"@, "install"@, name],
        PackageProvider::Nix => seq!["nix-env"@, "--install"@, name],
        PackageProvider::Pkg => seq!["pkg"@, "install"@, "-y"@, name],
        PackageProvider::Yum => seq!["yum"@, "-y"@, "install"@, name],
    }
}

/// The command that uninstalls a package.
pub open spec fn uninstall_line(p: PackageProvider, name: Seq<char>) -> Seq<Seq<char>> {
    match p {
        PackageProvider::Apt => seq!["apt-get"@, "-y"@, "remove"@, name],
        PackageProvider::Dnf => seq!["dnf"@, "-y"@, "remove"@, name],
        PackageProvider::Homebrew => seq!["brew"@, "uninstall"@, name],
        PackageProvider::Nix => seq!["nix-env"@, "--uninstall"@, name],
        PackageProvider::Pkg => seq!["pkg"@, "delete"@, "-y"@, name],
        PackageProvider::Yum => seq!["yum"@, "-y"@, "remove"@, name],
    }
}

/// The pattern that finds an installed package in the query's output, for
/// the managers that are read by pattern.
pub open spec fn installed_pattern(p: PackageProvider, name: Seq<char>, arch: Seq<char>) -> Seq<char> {
    match p {
        PackageProvider::Apt => "(?m)"@ + name + "\\s+install$"@,
        PackageProvider::Homebrew => "(?m)(^|\\s+)"@ + name + "\\s+"@,
        _ => "(?m)^"@ + name + "\\.("@ + arch + "|noarch)\\s+"@,
    }
}

/// What the query's output says: whether the package is installed, or `None`
/// for an error (the query failed, or its pattern did not compile).
pub open spec fn installed_answer(
    p: PackageProvider,
    name: Seq<char>,
    arch: Seq<char>,
    success: bool,
    stdout: Seq<char>,
) -> Option<bool> {
    match p {
        PackageProvider::Pkg => Some(success),
        PackageProvider::Nix => if success {
            Some(!occurs(stdout, "these paths will be fetched"@))
        } else {
            None
        },
        _ => if success {
            regex_result(installed_pattern(p, name, arch), stdout)
        } else {
            None
        },
    }
}

/// The message of a failed query, before the query's standard error.
pub open spec fn query_failure(p: PackageProvider, name: Seq<char>) -> Seq<char> {
    match p {
        PackageProvider::Apt => "Error running `dpkg --get-selections`: "@,
        PackageProvider::Dnf => "Error running `dnf list installed`: "@,
        PackageProvider::Homebrew => "Error running `brew list installed`: "@,
        PackageProvider::Nix => "Error running `nix-env --install --dry-run "@ + name + "`: "@,
        PackageProvider::Pkg => Seq::empty(),
        PackageProvider::Yum => "Error running `yum list installed`: "@,
    }
}

impl PackageProvider {
    /// The command that asks what is installed.
    pub fn query(&self, name: &str) -> (r: Vec<String>)
        ensures
            texts(r@) == query_line(*self, name@),
    {
        let r = match self {
            PackageProvider::Apt => argv(&["dpkg", "--get-selections"]),
            PackageProvider::Dnf => argv(&["dnf", "list", "installed"]),
            PackageProvider::Homebrew => argv(&["brew", "list"]),
            PackageProvider::Nix => argv(&["nix-env", "--install", "--dry-run", name]),
            PackageProvider::Pkg => argv(&["pkg", "query", "%n", name]),
            PackageProvider::Yum => argv(&["yum", "list", "installed"]),
        };
        assert(texts(r@) =~= query_line(*self, name@));
        r
    }

    /// The command that installs `name`.
    pub fn install(&self, name: &str) -> (r: Vec<String>)
        ensures
            texts(r@) == install_line(*self, name@),
    {
        let r = match self {
            PackageProvider::Apt => argv(&["apt-get", "-y", "install", name]),
            PackageProvider::Dnf => argv(&["dnf", "-y", "install", name]),
            PackageProvider::Homebrew => argv(&["brew", "install", name]),
            PackageProvider::Nix => argv(&["nix-env", "--install", name]),
            PackageProvider::Pkg => argv(&["pkg", "install", "-y", name]),
            PackageProvider::Yum => argv(&["yum", "-y", "install", name]),
        };
        assert(texts(r@) =~= install_line(*self, name@));
        r
    }

    /// The command that uninstalls `name`.
    pub fn uninstall(&self, name: &str) -> (r: Vec<String>)
        ensures
            texts(r@) == uninstall_line(*self, name@),
    {
        let r = match self {
            PackageProvider::Apt => argv(&["apt-get", "-y", "remove", name]),
            PackageProvider::Dnf => argv(&["dnf", "-y", "remove", name]),
            PackageProvider::Homebrew => argv(&["brew", "uninstall", name]),
            PackageProvider::Nix => argv(&["nix-env", "--uninstall", name]),
            PackageProvider::Pkg => argv(&["pkg", "delete", "-y", name]),
            PackageProvider::Yum => argv(&["yum", "-y", "remove", name]),
        };
        assert(texts(r@) =~= uninstall_line(*self, name@));
        r
    }

    /// Whether `name` is installed, read from the output of the query; `arch`
    /// is the host's architecture, which dnf and yum list packages under.
    pub fn installed(&self, name: &str, arch: &str, out: &Output) -> (r: Result<bool, Error>)
        ensures
            match installed_answer(*self, name@, arch@, out.success, out.stdout@) {
                Some(b) => r == Ok::<bool, Error>(b),
                None => r is Err,
            },
            *self != PackageProvider::Pkg && !out.success ==> (r matches Err(Error::Msg(m)) && m@
                == query_failure(*self, name@) + out.stderr@),
            *self != PackageProvider::Pkg && *self != PackageProvider::Nix && out.success && regex_result(
                installed_pattern(*self, name@, arch@),
                out.stdout@,
            ) is None ==> (r matches Err(Error::Regex(pat)) && pat@ == installed_pattern(*self, name@, arch@)),
    {
        match self {
            PackageProvider::Pkg => {
                return Ok(out.success);
            },
            _ => {},
        }
        if !out.success {
            let head = match self {
                PackageProvider::Apt => "Error running `dpkg --get-selections`: ".to_owned(),
                PackageProvider::Dnf => "Error running `dnf list installed`: ".to_owned(),
                PackageProvider::Homebrew => "Error running `brew list installed`: ".to_owned(),
                PackageProvider::Nix => join3("Error running `nix-env --install --dry-run ", name, "`: "),
                _ => "Error running `yum list installed`: ".to_owned(),
            };
            return Err(Error::Msg(join2(head.as_str(), out.stderr.as_str())));
        }
        match self {
            PackageProvider::Nix => Ok(!contains_text(out.stdout.as_str(), "these paths will be fetched")),
            PackageProvider::Apt => {
                let pat = join3("(?m)", name, "\\s+install$");
                pattern_matches(pat.as_str(), out.stdout.as_str())
            },
            PackageProvider::Homebrew => {
                let pat = join3("(?m)(^|\\s+)", name, "\\s+");
                pattern_matches(pat.as_str(), out.stdout.as_str())
            },
            _ => {
                let head = join3("(?m)^", name, "\\.(");
                let pat = join3(head.as_str(), arch, "|noarch)\\s+");
                pattern_matches(pat.as_str(), out.stdout.as_str())
            },
        }
    }
}

/// What installing does, given whether the package is installed: nothing
/// when it is, else the install request.
pub open spec fn install_step(name: Seq<char>, installed: bool) -> Option<RequestModel> {
    if installed {
        None
    } else {
        Some(RequestModel::PackageInstall(name))
    }
}

/// What uninstalling does, given whether the package is installed: the
/// uninstall request when it is, else nothing.
pub open spec fn uninstall_step(name: Seq<char>, installed: bool) -> Option<RequestModel> {
    if installed {
        Some(RequestModel::PackageUninstall(name))
    } else {
        None
    }
}

/// A package to be managed on a host.
pub struct Package {
    pub name: String,
}

impl Package {
    pub fn new(name: &str) -> (r: Package)
        ensures
            r.name@ == name@,
    {
        Package { name: name.to_owned() }
    }

    /// The request that asks whether the package is installed.
    pub fn installed(&self) -> (r: Request)
        ensures
            r@ == RequestModel::PackageInstalled(self.name@),
    {
        Request::PackageInstalled(PackageInstalled { name: self.name.clone() })
    }

    /// Install the package, given the answer to `installed`: `None` when it
    /// is installed already, else the request that installs it.
    pub fn install(&self, installed: bool) -> (r: Option<Request>)
        ensures
            opt_request(r) == install_step(self.name@, installed),
    {
        if installed {
            None
        } else {
            Some(Request::PackageInstall(PackageInstall { name: self.name.clone() }))
        }
    }

    /// Uninstall the package, given the answer to `installed`: the request
    /// that uninstalls it when it is installed, else `None`.
    pub fn uninstall(&self, installed: bool) -> (r: Option<Request>)
        ensures
            opt_request(r) == uninstall_step(self.name@, installed),
    {
        if installed {
            Some(Request::PackageUninstall(PackageUninstall { name: self.name.clone() }))
        } else {
            None
        }
    }
}

/// Installing is idempotent: once the package reads as installed, installing
/// it again does nothing; likewise uninstalling a package that is not there.
pub proof fn lemma_install_idempotent(name: Seq<char>)
    ensures
        install_step(name, true) is None,
        uninstall_step(name, false) is None,
        install_step(name, false) == Some(RequestModel::PackageInstall(name)),
        uninstall_step(name, true) == Some(RequestModel::PackageUninstall(name)),
{
}

} // verus!
