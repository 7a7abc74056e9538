//! The provider table of a host, and the router that turns each request into
//! the work the agent does for it.
use vstd::prelude::*;
use crate::command::Generic;
use crate::error::Error;
use crate::json::JsonValue;
use crate::output::Output;
use crate::package::{self, Binaries, PackageProvider, installed_answer, query_line, install_line, uninstall_line, package_choice};
use crate::request::{Request, RequestModel, texts};
use crate::pattern::regex_result;
use crate::service::{self, rc_disabled_pattern, launchctl_disabled_pattern, Launchctl, Op, PlistStep, Provider, Rc, ServiceProbes, ServiceProvider, service_choice, service_line, launchctl_domain, launchctl_path};
use crate::telemetry::Telemetry;

verus! {

/// The providers a host serves requests with.
pub struct Providers {
    pub command: Generic,
    pub package: PackageProvider,
    pub service: ServiceProvider,
}

/// Choose the providers for a host from its telemetry and probes; a missing
/// package manager or init system is an error.
pub fn get_providers(t: &Telemetry, bins: &Binaries, probes: &ServiceProbes) -> (r: Result<Providers, Error>)
    ensures
        match (package_choice(*bins), service_choice(*t, *probes)) {
            (Some(p), Some(s)) => r matches Ok(pr) && pr.package == p && pr.service.provider == s
                && pr.service.launchctl.domain_target@ == launchctl_domain(t.user.uid)
                && pr.service.launchctl.service_path@ == launchctl_path(t.user.uid, t.user.home_dir@),
            (None, _) => r matches Err(Error::ProviderUnavailable(e)) && e@ == "Package"@,
            (Some(_), None) => r matches Err(Error::ProviderUnavailable(e)) && e@ == "Service"@,
        },
{
    let command = match crate::command::factory() {
        Ok(c) => c,
        Err(e) => {
            return Err(e);
        },
    };
    let package = match package::factory(bins) {
        Ok(p) => p,
        Err(e) => {
            return Err(e);
        },
    };
    let provider = match service::factory(t, probes) {
        Ok(p) => p,
        Err(e) => {
            return Err(e);
        },
    };
    Ok(Providers { command, package, service: ServiceProvider::new(provider, t) })
}

/// How the answer of a helper command is read.
pub enum Reading {
    /// Whether the package `name` is installed.
    Installed { name: String },
    /// Whether the service runs: the helper's success.
    Running,
    /// Whether the service `name` starts at boot.
    Enabled { name: String },
    /// Whether enabling (or disabling) worked.
    Change { enable: bool },
}

/// The name a reading is about, if any.
pub open spec fn reading_name(r: Reading) -> Seq<char> {
    match r {
        Reading::Installed { name } => name@,
        Reading::Enabled { name } => name@,
        _ => Seq::empty(),
    }
}

/// The work an agent does to serve a request.
pub enum Plan {
    /// Run `argv` and stream its output as the response body; first do the
    /// property list step, if any.
    Stream { argv: Vec<String>, plist: Option<PlistStep> },
    /// Run `argv` to completion and read its output as `reading` says.
    Query { argv: Vec<String>, reading: Reading },
    /// Run `argv` for the runlevel, then look for start links of `name` in
    /// that runlevel's rc directory.
    DebianEnabled { argv: Vec<String>, name: String },
    /// Load the host's telemetry.
    Telemetry,
}

impl Providers {
    /// The command line of a service operation with this table's init system.
    pub open spec fn service_spec(&self, op: Op, n: Seq<char>, v: Seq<char>) -> Seq<Seq<char>> {
        service_line(
            self.service.provider,
            op,
            n,
            v,
            self.service.launchctl.domain_target@,
            self.service.launchctl.service_path@,
        )
    }

    /// Route a request to the work that serves it.
    pub fn route(&self, req: Request) -> (r: Plan)
        ensures
            req@ is CommandExec ==> (r matches Plan::Stream { argv, plist } && texts(argv@)
                == req@->CommandExec_0 && plist is None),
            req@ is PackageInstall ==> (r matches Plan::Stream { argv, plist } && texts(argv@)
                == install_line(self.package, req@->PackageInstall_0) && plist is None),
            req@ is PackageUninstall ==> (r matches Plan::Stream { argv, plist } && texts(argv@)
                == uninstall_line(self.package, req@->PackageUninstall_0) && plist is None),
            req@ is PackageInstalled ==> (r matches Plan::Query { argv, reading } && texts(argv@)
                == query_line(self.package, req@->PackageInstalled_0) && (reading matches Reading::Installed {
                name,
            } && name@ == req@->PackageInstalled_0)),
            req@ is ServiceAction ==> (r matches Plan::Stream { argv, plist } && texts(argv@)
                == self.service_spec(Op::Action, req@->ServiceAction_0, req@->ServiceAction_1) && (
            plist is Some <==> self.service.provider == Provider::Homebrew)),
            req@ is ServiceRunning ==> (r matches Plan::Query { argv, reading } && texts(argv@)
                == self.service_spec(Op::Running, req@->ServiceRunning_0, Seq::empty())
                && reading is Running),
            req@ is ServiceEnabled && self.service.provider == Provider::Debian ==> (r matches Plan::DebianEnabled {
                argv,
                name,
            } && texts(argv@) == self.service_spec(Op::Enabled, req@->ServiceEnabled_0, Seq::empty())
                && name@ == req@->ServiceEnabled_0),
            req@ is ServiceEnabled && self.service.provider != Provider::Debian ==> (r matches Plan::Query {
                argv,
                reading,
            } && texts(argv@) == self.service_spec(Op::Enabled, req@->ServiceEnabled_0, Seq::empty())
                && (reading matches Reading::Enabled { name } && name@ == req@->ServiceEnabled_0)),
            req@ is ServiceEnable ==> (r matches Plan::Query { argv, reading } && texts(argv@)
                == self.service_spec(Op::Enable, req@->ServiceEnable_0, Seq::empty())
                && reading == Reading::Change { enable: true }),
            req@ is ServiceDisable ==> (r matches Plan::Query { argv, reading } && texts(argv@)
                == self.service_spec(Op::Disable, req@->ServiceDisable_0, Seq::empty())
                && reading == Reading::Change { enable: false }),
            req@ is TelemetryLoad ==> r is Telemetry,
    {
        match req {
            Request::CommandExec(c) => Plan::Stream { argv: c.cmd, plist: None },
            Request::PackageInstall(p) => Plan::Stream { argv: self.package.install(p.name.as_str()), plist: None },
            Request::PackageUninstall(p) => Plan::Stream {
                argv: self.package.uninstall(p.name.as_str()),
                plist: None,
            },
            Request::PackageInstalled(p) => {
                let argv = self.package.query(p.name.as_str());
                Plan::Query { argv, reading: Reading::Installed { name: p.name } }
            },
            Request::ServiceAction(a) => {
                let argv = self.service.command(Op::Action, a.name.as_str(), a.action.as_str());
                let plist = match self.service.provider {
                    Provider::Homebrew => {
                        let h = service::Homebrew {
                            inner: Launchctl {
                                domain_target: self.service.launchctl.domain_target.clone(),
                                service_path: self.service.launchctl.service_path.clone(),
                            },
                        };
                        Some(h.plist_step(a.name.as_str(), a.action.as_str()))
                    },
                    _ => None,
                };
                Plan::Stream { argv, plist }
            },
            Request::ServiceRunning(s) => Plan::Query {
                argv: self.service.command(Op::Running, s.name.as_str(), ""),
                reading: Reading::Running,
            },
            Request::ServiceEnabled(s) => {
                let argv = self.service.command(Op::Enabled, s.name.as_str(), "");
                match self.service.provider {
                    Provider::Debian => Plan::DebianEnabled { argv, name: s.name },
                    _ => Plan::Query { argv, reading: Reading::Enabled { name: s.name } },
                }
            },
            Request::ServiceEnable(s) => Plan::Query {
                argv: self.service.command(Op::Enable, s.name.as_str(), ""),
                reading: Reading::Change { enable: true },
            },
            Request::ServiceDisable(s) => Plan::Query {
                argv: self.service.command(Op::Disable, s.name.as_str(), ""),
                reading: Reading::Change { enable: false },
            },
            Request::TelemetryLoad(_) => Plan::Telemetry,
        }
    }
}

impl Providers {
    /// The response value of a query, read from its helper's output; `arch`
    /// is the host's architecture.
    pub fn answer(&self, reading: &Reading, arch: &str, out: &Output) -> (r: Result<JsonValue, Error>)
        ensures
            reading matches Reading::Installed { name } ==> match installed_answer(
                self.package,
                name@,
                arch@,
                out.success,
                out.stdout@,
            ) {
                Some(b) => r == Ok::<JsonValue, Error>(JsonValue::Bool(b)),
                None => r is Err,
            },
            reading is Running ==> r == Ok::<JsonValue, Error>(JsonValue::Bool(out.success)),
            reading is Change ==> (out.success <==> r == Ok::<JsonValue, Error>(JsonValue::Null)),
            reading is Enabled && (self.service.provider == Provider::Systemd || self.service.provider
                == Provider::Redhat) ==> r == Ok::<JsonValue, Error>(JsonValue::Bool(out.success)),
            reading is Enabled && self.service.provider == Provider::Rc ==> (
            !out.success ==> r == Ok::<JsonValue, Error>(JsonValue::Bool(false))) && (out.success
                ==> match regex_result(rc_disabled_pattern(reading_name(*reading)), out.stdout@) {
                Some(b) => r == Ok::<JsonValue, Error>(JsonValue::Bool(!b)),
                None => r is Err,
            }),
            reading is Enabled && (self.service.provider == Provider::Launchctl
                || self.service.provider == Provider::Homebrew) ==> (!out.success ==> r is Err) && (
            out.success ==> match regex_result(launchctl_disabled_pattern(reading_name(*reading)), out.stdout@) {
                Some(b) => r == Ok::<JsonValue, Error>(JsonValue::Bool(!b)),
                None => r is Err,
            }),
            reading is Enabled && self.service.provider == Provider::Debian ==> r is Err,
    {
        match reading {
            Reading::Installed { name } => match self.package.installed(name.as_str(), arch, out) {
                Ok(b) => Ok(JsonValue::Bool(b)),
                Err(e) => Err(e),
            },
            Reading::Running => Ok(JsonValue::Bool(out.success)),
            Reading::Change { enable } => {
                let what = if *enable {
                    "enable"
                } else {
                    "disable"
                };
                match service::change_result(out, what) {
                    Ok(()) => Ok(JsonValue::Null),
                    Err(e) => Err(e),
                }
            },
            Reading::Enabled { name } => {
                let answer = match self.service.provider {
                    Provider::Systemd => Ok(service::Systemd::enabled(out)),
                    Provider::Redhat => Ok(service::Redhat::enabled(out)),
                    Provider::Rc => Rc::enabled(name.as_str(), out),
                    Provider::Debian => Err(
                        Error::Msg("Debian reads the enabled state from its rc directory".to_owned()),
                    ),
                    _ => Launchctl::enabled(name.as_str(), out),
                };
                match answer {
                    Ok(b) => Ok(JsonValue::Bool(b)),
                    Err(e) => Err(e),
                }
            },
        }
    }
}

impl Providers {
    /// Serve commands with `provider` from now on.
    pub fn set_command(&mut self, provider: Generic)
        ensures
            final(self).command == provider,
            final(self).package == old(self).package,
            final(self).service == old(self).service,
    {
        self.command = provider;
    }

    /// Serve package requests with `provider` from now on.
    pub fn set_package(&mut self, provider: PackageProvider)
        ensures
            final(self).package == provider,
            final(self).service == old(self).service,
    {
        self.package = provider;
    }

    /// Serve service requests with `provider` from now on.
    pub fn set_service(&mut self, provider: ServiceProvider)
        ensures
            final(self).service == provider,
            final(self).package == old(self).package,
    {
        self.service = provider;
    }
}

} // verus!
