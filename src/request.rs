//! The requests a controller sends to an agent, and their JSON schema.
//!
//! A request travels as an externally tagged object, `{"<Variant>": payload}`.
use vstd::prelude::*;
use crate::error::Error;
use crate::output::{join2, join3};
use crate::json::{JsonValue, get_spec, str_spec, member, same_text, lemma_differ_at};

verus! {

/// Run a command; `cmd[0]` is the program and the rest its arguments.
pub struct CommandExec {
    pub cmd: Vec<String>,
}

/// Ask whether a package is installed.
pub struct PackageInstalled {
    pub name: String,
}

/// Install a package.
pub struct PackageInstall {
    pub name: String,
}

/// Uninstall a package.
pub struct PackageUninstall {
    pub name: String,
}

/// Ask whether a service is running.
pub struct ServiceRunning {
    pub name: String,
}

/// Perform an action, such as "start", on a service.
pub struct ServiceAction {
    pub name: String,
    pub action: String,
}

/// Ask whether a service starts at boot.
pub struct ServiceEnabled {
    pub name: String,
}

/// Make a service start at boot.
pub struct ServiceEnable {
    pub name: String,
}

/// Stop a service from starting at boot.
pub struct ServiceDisable {
    pub name: String,
}

/// Ask for the host's telemetry.
pub struct TelemetryLoad;

/// Every request an agent serves.
pub enum Request {
    CommandExec(CommandExec),
    PackageInstalled(PackageInstalled),
    PackageInstall(PackageInstall),
    PackageUninstall(PackageUninstall),
    ServiceRunning(ServiceRunning),
    ServiceAction(ServiceAction),
    ServiceEnabled(ServiceEnabled),
    ServiceEnable(ServiceEnable),
    ServiceDisable(ServiceDisable),
    TelemetryLoad(TelemetryLoad),
}

/// A request with its texts as character sequences.
pub enum RequestModel {
    CommandExec(Seq<Seq<char>>),
    PackageInstalled(Seq<char>),
    PackageInstall(Seq<char>),
    PackageUninstall(Seq<char>),
    ServiceRunning(Seq<char>),
    ServiceAction(Seq<char>, Seq<char>),
    ServiceEnabled(Seq<char>),
    ServiceEnable(Seq<char>),
    ServiceDisable(Seq<char>),
    TelemetryLoad,
}

/// The texts of a list of strings.
pub open spec fn texts(v: Seq<String>) -> Seq<Seq<char>> {
    v.map_values(|s: String| s@)
}

impl View for Request {
    type V = RequestModel;

    open spec fn view(&self) -> RequestModel {
        match self {
            Request::CommandExec(r) => RequestModel::CommandExec(texts(r.cmd@)),
            Request::PackageInstalled(r) => RequestModel::PackageInstalled(r.name@),
            Request::PackageInstall(r) => RequestModel::PackageInstall(r.name@),
            Request::PackageUninstall(r) => RequestModel::PackageUninstall(r.name@),
            Request::ServiceRunning(r) => RequestModel::ServiceRunning(r.name@),
            Request::ServiceAction(r) => RequestModel::ServiceAction(r.name@, r.action@),
            Request::ServiceEnabled(r) => RequestModel::ServiceEnabled(r.name@),
            Request::ServiceEnable(r) => RequestModel::ServiceEnable(r.name@),
            Request::ServiceDisable(r) => RequestModel::ServiceDisable(r.name@),
            Request::TelemetryLoad(_) => RequestModel::TelemetryLoad,
        }
    }
}

/// The request an optional request stands for.
pub open spec fn opt_request(r: Option<Request>) -> Option<RequestModel> {
    match r {
        Some(q) => Some(q@),
        None => None,
    }
}

/// The tag under which a request travels.
pub open spec fn tag_of(m: RequestModel) -> Seq<char> {
    match m {
        RequestModel::CommandExec(_) => "CommandExec"@,
        RequestModel::PackageInstalled(_) => "PackageInstalled"@,
        RequestModel::PackageInstall(_) => "PackageInstall"@,
        RequestModel::PackageUninstall(_) => "PackageUninstall"@,
        RequestModel::ServiceRunning(_) => "ServiceRunning"@,
        RequestModel::ServiceAction(_, _) => "ServiceAction"@,
        RequestModel::ServiceEnabled(_) => "ServiceEnabled"@,
        RequestModel::ServiceEnable(_) => "ServiceEnable"@,
        RequestModel::ServiceDisable(_) => "ServiceDisable"@,
        RequestModel::TelemetryLoad => "TelemetryLoad"@,
    }
}

/// Whether `v` is an array of the strings `items`, in order.
pub open spec fn encodes_texts(v: JsonValue, items: Seq<Seq<char>>) -> bool {
    match v {
        JsonValue::Array(a) => a@.len() == items.len() && forall|i: int|
            0 <= i < items.len() ==> str_spec(#[trigger] a@[i]) == Some(items[i]),
        _ => false,
    }
}

/// Whether `p` is the object `{"name": name}`.
pub open spec fn encodes_name(p: JsonValue, name: Seq<char>) -> bool {
    match p {
        JsonValue::Object(f) => f@.len() == 1 && f@[0].0@ == "name"@ && str_spec(f@[0].1) == Some(
            name,
        ),
        _ => false,
    }
}

/// Whether `p` is the payload of the request `m`.
pub open spec fn encodes_payload(p: JsonValue, m: RequestModel) -> bool {
    match m {
        RequestModel::CommandExec(cmd) => match p {
            JsonValue::Object(f) => f@.len() == 1 && f@[0].0@ == "cmd"@ && encodes_texts(
                f@[0].1,
                cmd,
            ),
            _ => false,
        },
        RequestModel::ServiceAction(name, action) => match p {
            JsonValue::Object(f) => f@.len() == 2 && f@[0].0@ == "name"@ && str_spec(f@[0].1)
                == Some(name) && f@[1].0@ == "action"@ && str_spec(f@[1].1) == Some(action),
            _ => false,
        },
        RequestModel::TelemetryLoad => p is Null,
        RequestModel::PackageInstalled(n) => encodes_name(p, n),
        RequestModel::PackageInstall(n) => encodes_name(p, n),
        RequestModel::PackageUninstall(n) => encodes_name(p, n),
        RequestModel::ServiceRunning(n) => encodes_name(p, n),
        RequestModel::ServiceEnabled(n) => encodes_name(p, n),
        RequestModel::ServiceEnable(n) => encodes_name(p, n),
        RequestModel::ServiceDisable(n) => encodes_name(p, n),
    }
}

/// Whether `j` is the header of the request `m`: `{"<tag>": payload}`.
pub open spec fn encodes(j: JsonValue, m: RequestModel) -> bool {
    match j {
        JsonValue::Object(f) => f@.len() == 1 && f@[0].0@ == tag_of(m) && encodes_payload(
            f@[0].1,
            m,
        ),
        _ => false,
    }
}

/// The string under `key` in the object `p`.
pub open spec fn text_field(p: JsonValue, key: Seq<char>) -> Option<Seq<char>> {
    match get_spec(p, key) {
        Some(v) => str_spec(v),
        None => None,
    }
}

/// The strings of `v`, when it is an array of strings.
pub open spec fn texts_of(v: JsonValue) -> Option<Seq<Seq<char>>> {
    match v {
        JsonValue::Array(a) => if forall|i: int| 0 <= i < a@.len() ==> (#[trigger] str_spec(a@[i])) is Some {
            Some(Seq::new(a@.len(), |i: int| str_spec(a@[i])->0))
        } else {
            None
        },
        _ => None,
    }
}

/// Whether `tag` names a request.
pub open spec fn known_tag(tag: Seq<char>) -> bool {
    tag == "CommandExec"@ || tag == "PackageInstalled"@ || tag == "PackageInstall"@ || tag
        == "PackageUninstall"@ || tag == "ServiceRunning"@ || tag == "ServiceAction"@ || tag
        == "ServiceEnabled"@ || tag == "ServiceEnable"@ || tag == "ServiceDisable"@ || tag
        == "TelemetryLoad"@
}

/// Why a header that is no request is malformed: it is not an object of one
/// member, or its member names no request, or the payload does not fit the
/// request it names.
pub open spec fn malformed_reason(j: JsonValue) -> Seq<char> {
    match j {
        JsonValue::Object(f) => if f@.len() != 1 {
            "expected an object of one member"@
        } else if known_tag(f@[0].0@) {
            "invalid payload for `"@ + f@[0].0@ + "`"@
        } else {
            "unknown variant `"@ + f@[0].0@ + "`"@
        },
        _ => "expected an object of one member"@,
    }
}

fn malformed(reason: &str) -> (e: Error)
    ensures
        e matches Error::Malformed(m) && m@ == "Could not deserialize Request: "@ + reason@,
{
    Error::Malformed(join2("Could not deserialize Request: ", reason))
}

fn invalid_payload(tag: &str) -> (e: Error)
    ensures
        e matches Error::Malformed(m) && m@ == "Could not deserialize Request: "@ + ("invalid payload for `"@
            + tag@ + "`"@),
{
    malformed(join3("invalid payload for `", tag, "`").as_str())
}

/// The request a payload `p` stands for under `tag`, read as a name-only payload.
pub open spec fn named(tag: Seq<char>, n: Seq<char>) -> Option<RequestModel> {
    if tag == "PackageInstalled"@ {
        Some(RequestModel::PackageInstalled(n))
    } else if tag == "PackageInstall"@ {
        Some(RequestModel::PackageInstall(n))
    } else if tag == "PackageUninstall"@ {
        Some(RequestModel::PackageUninstall(n))
    } else if tag == "ServiceRunning"@ {
        Some(RequestModel::ServiceRunning(n))
    } else if tag == "ServiceEnabled"@ {
        Some(RequestModel::ServiceEnabled(n))
    } else if tag == "ServiceEnable"@ {
        Some(RequestModel::ServiceEnable(n))
    } else if tag == "ServiceDisable"@ {
        Some(RequestModel::ServiceDisable(n))
    } else {
        None
    }
}

/// The request that the payload `p` under `tag` stands for, if any.
pub open spec fn decode_payload(tag: Seq<char>, p: JsonValue) -> Option<RequestModel> {
    if tag == "CommandExec"@ {
        match get_spec(p, "cmd"@) {
            Some(v) => match texts_of(v) {
                Some(c) => Some(RequestModel::CommandExec(c)),
                None => None,
            },
            None => None,
        }
    } else if tag == "ServiceAction"@ {
        match (text_field(p, "name"@), text_field(p, "action"@)) {
            (Some(n), Some(a)) => Some(RequestModel::ServiceAction(n, a)),
            _ => None,
        }
    } else if tag == "TelemetryLoad"@ {
        if p is Null {
            Some(RequestModel::TelemetryLoad)
        } else {
            None
        }
    } else {
        match text_field(p, "name"@) {
            Some(n) => named(tag, n),
            None => None,
        }
    }
}

/// The request that the header `j` stands for, if any: an object of exactly
/// one member, whose name is the tag.
pub open spec fn decode_model(j: JsonValue) -> Option<RequestModel> {
    match j {
        JsonValue::Object(f) => if f@.len() == 1 {
            decode_payload(f@[0].0@, f@[0].1)
        } else {
            None
        },
        _ => None,
    }
}

/// The string under `key` in the object `p`, copied.
fn text_member(p: &JsonValue, key: &str) -> (r: Option<String>)
    ensures
        text_field(*p, key@) == match r {
            Some(s) => Some(s@),
            None => None::<Seq<char>>,
        },
{
    match p.get(key) {
        Some(v) => match v.as_text() {
            Some(s) => Some(s.clone()),
            None => None,
        },
        None => None,
    }
}

/// The strings of an array of strings, copied.
fn texts_member(v: &JsonValue) -> (r: Option<Vec<String>>)
    ensures
        texts_of(*v) == match r {
            Some(c) => Some(texts(c@)),
            None => None::<Seq<Seq<char>>>,
        },
{
    match v {
        JsonValue::Array(items) => {
            let mut out: Vec<String> = Vec::new();
            let mut i: usize = 0;
            while i < items.len()
                invariant
                    *v == JsonValue::Array(*items),
                    i <= items@.len(),
                    out@.len() == i,
                    forall|k: int| 0 <= k < i ==> str_spec(#[trigger] items@[k]) == Some(out@[k]@),
                decreases items@.len() - i,
            {
                let item = &items[i];
                match item.as_text() {
                    Some(s) => out.push(s.clone()),
                    None => {
                        assert(str_spec(items@[i as int]) is None);
                        return None;
                    },
                }
                i = i + 1;
            }
            assert(texts(out@) =~= Seq::new(items@.len(), |k: int| str_spec(items@[k])->0));
            Some(out)
        },
        _ => None,
    }
}

/// The object `{"name": name}`.
fn name_payload(name: &String) -> (r: JsonValue)
    ensures
        encodes_name(r, name@),
{
    JsonValue::single("name", JsonValue::Str(name.clone()))
}

impl Request {
    /// The header that carries this request.
    pub fn to_json(&self) -> (j: JsonValue)
        ensures
            encodes(j, self@),
    {
        match self {
            Request::CommandExec(r) => {
                let mut items: Vec<JsonValue> = Vec::new();
                let mut i: usize = 0;
                while i < r.cmd.len()
                    invariant
                        i <= r.cmd@.len(),
                        items@.len() == i,
                        forall|k: int| 0 <= k < i ==> str_spec(#[trigger] items@[k]) == Some(r.cmd@[k]@),
                    decreases r.cmd@.len() - i,
                {
                    items.push(JsonValue::Str(r.cmd[i].clone()));
                    i = i + 1;
                }
                JsonValue::single("CommandExec", JsonValue::single("cmd", JsonValue::Array(items)))
            },
            Request::PackageInstalled(r) => JsonValue::single("PackageInstalled", name_payload(&r.name)),
            Request::PackageInstall(r) => JsonValue::single("PackageInstall", name_payload(&r.name)),
            Request::PackageUninstall(r) => JsonValue::single("PackageUninstall", name_payload(&r.name)),
            Request::ServiceRunning(r) => JsonValue::single("ServiceRunning", name_payload(&r.name)),
            Request::ServiceAction(r) => {
                let mut f: Vec<(String, JsonValue)> = Vec::new();
                f.push(("name".to_owned(), JsonValue::Str(r.name.clone())));
                f.push(("action".to_owned(), JsonValue::Str(r.action.clone())));
                JsonValue::single("ServiceAction", JsonValue::Object(f))
            },
            Request::ServiceEnabled(r) => JsonValue::single("ServiceEnabled", name_payload(&r.name)),
            Request::ServiceEnable(r) => JsonValue::single("ServiceEnable", name_payload(&r.name)),
            Request::ServiceDisable(r) => JsonValue::single("ServiceDisable", name_payload(&r.name)),
            Request::TelemetryLoad(_) => JsonValue::single("TelemetryLoad", JsonValue::Null),
        }
    }

    /// The request that a header carries. Anything but an object of one
    /// member naming a request, with that request's payload, is malformed,
    /// and the error says why.
    pub fn from_json(j: &JsonValue) -> (r: Result<Request, Error>)
        ensures
            decode_model(*j) == match r {
                Ok(q) => Some(q@),
                Err(_) => None::<RequestModel>,
            },
            r matches Err(e) ==> (e matches Error::Malformed(m) && m@ == "Could not deserialize Request: "@
                + malformed_reason(*j)),
    {
        let (tag, p) = match j {
            JsonValue::Object(f) => {
                if f.len() != 1 {
                    return Err(malformed("expected an object of one member"));
                }
                let entry = &f[0];
                assert(*entry == f@[0]);
                (entry.0.as_str(), &entry.1)
            },
            _ => {
                return Err(malformed("expected an object of one member"));
            },
        };
        if same_text(tag, "CommandExec") {
            match p.get("cmd") {
                Some(v) => match texts_member(v) {
                    Some(cmd) => Ok(Request::CommandExec(CommandExec { cmd })),
                    None => Err(invalid_payload(tag)),
                },
                None => Err(invalid_payload(tag)),
            }
        } else if same_text(tag, "ServiceAction") {
            match (text_member(p, "name"), text_member(p, "action")) {
                (Some(name), Some(action)) => Ok(Request::ServiceAction(ServiceAction { name, action })),
                _ => Err(invalid_payload(tag)),
            }
        } else if same_text(tag, "TelemetryLoad") {
            match p {
                JsonValue::Null => Ok(Request::TelemetryLoad(TelemetryLoad)),
                _ => Err(invalid_payload(tag)),
            }
        } else {
            let installed = same_text(tag, "PackageInstalled");
            let install = same_text(tag, "PackageInstall");
            let uninstall = same_text(tag, "PackageUninstall");
            let running = same_text(tag, "ServiceRunning");
            let enabled = same_text(tag, "ServiceEnabled");
            let enable = same_text(tag, "ServiceEnable");
            let disable = same_text(tag, "ServiceDisable");
            if !(installed || install || uninstall || running || enabled || enable || disable) {
                return Err(malformed(join3("unknown variant `", tag, "`").as_str()));
            }
            let name = match text_member(p, "name") {
                Some(n) => n,
                None => {
                    return Err(invalid_payload(tag));
                },
            };
            if installed {
                Ok(Request::PackageInstalled(PackageInstalled { name }))
            } else if install {
                Ok(Request::PackageInstall(PackageInstall { name }))
            } else if uninstall {
                Ok(Request::PackageUninstall(PackageUninstall { name }))
            } else if running {
                Ok(Request::ServiceRunning(ServiceRunning { name }))
            } else if enabled {
                Ok(Request::ServiceEnabled(ServiceEnabled { name }))
            } else if enable {
                Ok(Request::ServiceEnable(ServiceEnable { name }))
            } else {
                Ok(Request::ServiceDisable(ServiceDisable { name }))
            }
        }
    }

    /// Whether the response to this request carries a body stream: exactly
    /// the requests answered by a running command.
    pub fn streams(&self) -> (r: bool)
        ensures
            r == (self is CommandExec || self is PackageInstall || self is PackageUninstall
                || self is ServiceAction),
    {
        match self {
            Request::CommandExec(_) | Request::PackageInstall(_) | Request::PackageUninstall(_)
            | Request::ServiceAction(_) => true,
            _ => false,
        }
    }
}

/// Round trip: the header that carries a request reads back as that same
/// request.
pub proof fn lemma_request_round_trip(r: Request, j: JsonValue)
    requires
        encodes(j, r@),
    ensures
        decode_model(j) == Some(r@),
{
    reveal_strlit("CommandExec");
    reveal_strlit("PackageInstalled");
    reveal_strlit("PackageInstall");
    reveal_strlit("PackageUninstall");
    reveal_strlit("ServiceRunning");
    reveal_strlit("ServiceAction");
    reveal_strlit("ServiceEnabled");
    reveal_strlit("ServiceEnable");
    reveal_strlit("ServiceDisable");
    reveal_strlit("TelemetryLoad");
    reveal_strlit("name");
    reveal_strlit("action");
    reveal_strlit("cmd");
    let f = j->Object_0;
    let p = f@[0].1;
    match r@ {
        RequestModel::CommandExec(cmd) => {
            let pf = p->Object_0;
            assert(get_spec(p, "cmd"@) == Some(pf@[0].1));
            let a = pf@[0].1->Array_0;
            assert(Seq::new(a@.len(), |i: int| str_spec(a@[i])->0) =~= cmd);
        },
        RequestModel::ServiceAction(n, act) => {
            let pf = p->Object_0;
            assert(text_field(p, "name"@) == Some(n));
            assert(pf@.drop_first()[0] == pf@[1]);
            assert("name"@.len() == 4 && "action"@.len() == 6);
            assert(pf@[0].0@ != "action"@);
            assert(member(pf@, "action"@) == member(pf@.drop_first(), "action"@));
            assert(text_field(p, "action"@) == Some(act));
            lemma_differ_at("ServiceAction"@, "CommandExec"@, 0);
        },
        RequestModel::TelemetryLoad => {
            lemma_differ_at("TelemetryLoad"@, "CommandExec"@, 0);
            lemma_differ_at("TelemetryLoad"@, "ServiceAction"@, 0);
        },
        RequestModel::PackageInstalled(_) => {
            let pf = p->Object_0;
            assert(get_spec(p, "name"@) == Some(pf@[0].1));
            lemma_differ_at("PackageInstalled"@, "CommandExec"@, 0);
            lemma_differ_at("PackageInstalled"@, "ServiceAction"@, 0);
            lemma_differ_at("PackageInstalled"@, "TelemetryLoad"@, 0);
        },
        RequestModel::PackageInstall(_) => {
            let pf = p->Object_0;
            assert(get_spec(p, "name"@) == Some(pf@[0].1));
            lemma_differ_at("PackageInstall"@, "CommandExec"@, 0);
            lemma_differ_at("PackageInstall"@, "ServiceAction"@, 0);
            lemma_differ_at("PackageInstall"@, "TelemetryLoad"@, 0);
            assert("PackageInstall"@.len() != "PackageInstalled"@.len());
        },
        RequestModel::PackageUninstall(_) => {
            let pf = p->Object_0;
            assert(get_spec(p, "name"@) == Some(pf@[0].1));
            lemma_differ_at("PackageUninstall"@, "CommandExec"@, 0);
            lemma_differ_at("PackageUninstall"@, "ServiceAction"@, 0);
            lemma_differ_at("PackageUninstall"@, "TelemetryLoad"@, 0);
            lemma_differ_at("PackageUninstall"@, "PackageInstalled"@, 7);
            lemma_differ_at("PackageUninstall"@, "PackageInstall"@, 7);
        },
        RequestModel::ServiceRunning(_) => {
            let pf = p->Object_0;
            assert(get_spec(p, "name"@) == Some(pf@[0].1));
            lemma_differ_at("ServiceRunning"@, "CommandExec"@, 0);
            lemma_differ_at("ServiceRunning"@, "ServiceAction"@, 7);
            lemma_differ_at("ServiceRunning"@, "TelemetryLoad"@, 0);
            lemma_differ_at("ServiceRunning"@, "PackageInstalled"@, 0);
            lemma_differ_at("ServiceRunning"@, "PackageInstall"@, 0);
            lemma_differ_at("ServiceRunning"@, "PackageUninstall"@, 0);
        },
        RequestModel::ServiceEnabled(_) => {
            let pf = p->Object_0;
            assert(get_spec(p, "name"@) == Some(pf@[0].1));
            lemma_differ_at("ServiceEnabled"@, "CommandExec"@, 0);
            lemma_differ_at("ServiceEnabled"@, "ServiceAction"@, 7);
            lemma_differ_at("ServiceEnabled"@, "TelemetryLoad"@, 0);
            lemma_differ_at("ServiceEnabled"@, "PackageInstalled"@, 0);
            lemma_differ_at("ServiceEnabled"@, "PackageInstall"@, 0);
            lemma_differ_at("ServiceEnabled"@, "PackageUninstall"@, 0);
            lemma_differ_at("ServiceEnabled"@, "ServiceRunning"@, 7);
        },
        RequestModel::ServiceEnable(_) => {
            let pf = p->Object_0;
            assert(get_spec(p, "name"@) == Some(pf@[0].1));
            lemma_differ_at("ServiceEnable"@, "CommandExec"@, 0);
            lemma_differ_at("ServiceEnable"@, "ServiceAction"@, 7);
            lemma_differ_at("ServiceEnable"@, "TelemetryLoad"@, 0);
            lemma_differ_at("ServiceEnable"@, "PackageInstalled"@, 0);
            lemma_differ_at("ServiceEnable"@, "PackageInstall"@, 0);
            lemma_differ_at("ServiceEnable"@, "PackageUninstall"@, 0);
            lemma_differ_at("ServiceEnable"@, "ServiceRunning"@, 7);
            assert("ServiceEnable"@.len() != "ServiceEnabled"@.len());
        },
        RequestModel::ServiceDisable(_) => {
            let pf = p->Object_0;
            assert(get_spec(p, "name"@) == Some(pf@[0].1));
            lemma_differ_at("ServiceDisable"@, "CommandExec"@, 0);
            lemma_differ_at("ServiceDisable"@, "ServiceAction"@, 7);
            lemma_differ_at("ServiceDisable"@, "TelemetryLoad"@, 0);
            lemma_differ_at("ServiceDisable"@, "PackageInstalled"@, 0);
            lemma_differ_at("ServiceDisable"@, "PackageInstall"@, 0);
            lemma_differ_at("ServiceDisable"@, "PackageUninstall"@, 0);
            lemma_differ_at("ServiceDisable"@, "ServiceRunning"@, 7);
            lemma_differ_at("ServiceDisable"@, "ServiceEnabled"@, 7);
            lemma_differ_at("ServiceDisable"@, "ServiceEnable"@, 7);
        },
    }
}

} // verus!
