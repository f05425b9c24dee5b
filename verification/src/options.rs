//! Options passed to the engine's container commands.
//!
//! Every option set uses the same builder pattern: a fixed default with
//! every option unset, configuration calls that each consume the value
//! and return it with exactly one field changed, and `to_url_params`,
//! which renders the set options into a form-urlencoded query string in
//! a fixed declaration order.  Setting a boolean flag renders `name=1`;
//! an unset option contributes nothing at all.

use vstd::prelude::*;

use crate::json::field_of;
use crate::json::get_opt_bool;
use crate::json::get_opt_str;
use crate::json::get_opt_str_arr;
use crate::json::get_opt_str_map;
use crate::json::is_opt_bool_field;
use crate::json::is_opt_str_arr_field;
use crate::json::is_opt_str_field;
use crate::json::is_opt_str_map_field;
use crate::json::jv_opt_bool;
use crate::json::jv_opt_str;
use crate::json::jv_opt_str_map;
use crate::json::jv_opt_strs;
use crate::json::lemma_json_field_views_index;
use crate::json::lookup;
use crate::json::mk_opt_bool_json;
use crate::json::mk_opt_str_json;
use crate::json::mk_opt_str_map_json;
use crate::json::mk_opt_strs_json;
use crate::json::opt_bool_field;
use crate::json::opt_str_arr_field;
use crate::json::opt_str_field;
use crate::json::opt_str_map_field;
use crate::json::json_field_views;
use crate::json::Json;
use crate::json::JsonV;
use crate::json::SchemaError;

use crate::encoding::dec_chars;
use crate::encoding::dec_string;
use crate::encoding::query_of;
use crate::encoding::render_pairs;

verus! {

/// The single `name=value` pair of a set option, or nothing for an
/// unset one.
pub open spec fn opt_pair(set: bool, name: Seq<char>, value: Seq<char>) -> Seq<
    (Seq<char>, Seq<char>),
> {
    if set {
        seq![(name, value)]
    } else {
        Seq::empty()
    }
}

/// Options for a container-listing call.
#[derive(Debug, Clone, PartialEq)]
pub struct ContainerListOptions {
    pub all: bool,
    pub latest: bool,
    pub limit: Option<u64>,
    pub size: bool,
}

impl ContainerListOptions {
    /// The fixed starting point: every option unset.
    pub open spec fn spec_default() -> Self {
        ContainerListOptions { all: false, latest: false, limit: None, size: false }
    }

    /// The raw pairs this configuration renders, in declaration order:
    /// all, latest, limit, size.
    pub open spec fn pairs(self) -> Seq<(Seq<char>, Seq<char>)> {
        opt_pair(self.all, "all"@, "1"@) + opt_pair(self.latest, "latest"@, "1"@) + opt_pair(
            self.limit is Some,
            "limit"@,
            dec_chars(self.limit->0 as nat),
        ) + opt_pair(self.size, "size"@, "1"@)
    }

    /// Return all containers, including stopped ones.
    pub fn all(self) -> (r: Self)
        ensures
            r == (Self { all: true, ..self }),
    {
        Self { all: true, ..self }
    }

    /// Return just the most-recently-started container (even if it has
    /// stopped).
    pub fn latest(self) -> (r: Self)
        ensures
            r == (Self { latest: true, ..self }),
    {
        Self { latest: true, ..self }
    }

    /// Limit the number of containers returned.
    pub fn limit(self, n: u64) -> (r: Self)
        ensures
            r == (Self { limit: Some(n), ..self }),
    {
        Self { limit: Some(n), ..self }
    }

    /// Calculate the total file sizes for the containers.  **Warning:**
    /// this is very expensive on the server side.
    pub fn size(self) -> (r: Self)
        ensures
            r == (Self { size: true, ..self }),
    {
        Self { size: true, ..self }
    }

    /// Renders the set options as a query string.
    pub fn to_url_params(&self) -> (r: String)
        ensures
            r@ == query_of(self.pairs()),
    {
        let mut pairs: Vec<(String, String)> = Vec::new();
        if self.all {
            pairs.push(("all".to_owned(), "1".to_owned()));
        }
        if self.latest {
            pairs.push(("latest".to_owned(), "1".to_owned()));
        }
        if let Some(n) = self.limit {
            pairs.push(("limit".to_owned(), dec_string(n)));
        }
        if self.size {
            pairs.push(("size".to_owned(), "1".to_owned()));
        }
        proof {
            assert(pairs.deep_view() =~= self.pairs());
        }
        render_pairs(&pairs)
    }
}

impl Default for ContainerListOptions {
    /// Every option unset.
    fn default() -> (r: Self)
        ensures
            r == Self::spec_default(),
    {
        ContainerListOptions { all: false, latest: false, limit: None, size: false }
    }
}

/// One configuration call on [`ContainerListOptions`].
pub enum ListCall {
    All,
    Latest,
    Limit(u64),
    Size,
}

/// The option a listing call sets, as a position in declaration order.
pub open spec fn list_call_field(c: ListCall) -> int {
    match c {
        ListCall::All => 0,
        ListCall::Latest => 1,
        ListCall::Limit(_) => 2,
        ListCall::Size => 3,
    }
}

/// What a listing call leaves behind.
pub open spec fn apply_list_call(o: ContainerListOptions, c: ListCall) -> ContainerListOptions {
    match c {
        ListCall::All => ContainerListOptions { all: true, ..o },
        ListCall::Latest => ContainerListOptions { latest: true, ..o },
        ListCall::Limit(n) => ContainerListOptions { limit: Some(n), ..o },
        ListCall::Size => ContainerListOptions { size: true, ..o },
    }
}

/// Law: two listing calls that set different options commute, so the
/// rendered output cannot depend on the order of such calls.
pub proof fn lemma_list_calls_commute(o: ContainerListOptions, a: ListCall, b: ListCall)
    requires
        list_call_field(a) != list_call_field(b),
    ensures
        apply_list_call(apply_list_call(o, a), b) == apply_list_call(apply_list_call(o, b), a),
{
}

/// Law: a freshly-defaulted listing builder renders to the empty string.
pub proof fn lemma_list_default_renders_empty()
    ensures
        query_of(ContainerListOptions::spec_default().pairs()) == Seq::<char>::empty(),
{
    assert(ContainerListOptions::spec_default().pairs() =~= Seq::<(Seq<char>, Seq<char>)>::empty());
    assert(query_of(ContainerListOptions::spec_default().pairs()) =~= Seq::<char>::empty());
}

/// Law: a set boolean flag contributes exactly its `name=1` pair, and
/// an unset flag contributes no pair under its name at all.
pub proof fn lemma_list_flag_pairs(o: ContainerListOptions)
    ensures
        o.all ==> o.pairs().contains(("all"@, "1"@)),
        !o.all ==> forall|i: int| 0 <= i < o.pairs().len() ==> (#[trigger] o.pairs()[i]).0
            != "all"@,
        o.latest ==> o.pairs().contains(("latest"@, "1"@)),
        !o.latest ==> forall|i: int| 0 <= i < o.pairs().len() ==> (#[trigger] o.pairs()[i]).0
            != "latest"@,
        o.size ==> o.pairs().contains(("size"@, "1"@)),
        !o.size ==> forall|i: int| 0 <= i < o.pairs().len() ==> (#[trigger] o.pairs()[i]).0
            != "size"@,
{
    reveal_strlit("all");
    reveal_strlit("latest");
    reveal_strlit("limit");
    reveal_strlit("size");
    reveal_strlit("1");
    assert("all"@.len() == 3);
    assert("latest"@.len() == 6);
    assert("limit"@.len() == 5);
    assert("size"@.len() == 4);
    if o.all {
        assert(o.pairs()[0] == ("all"@, "1"@));
    }
    if o.latest {
        let i: int = if o.all {
            1
        } else {
            0
        };
        assert(o.pairs()[i] == ("latest"@, "1"@));
    }
    if o.size {
        assert(o.pairs().last() == ("size"@, "1"@));
    }
    assert forall|i: int| 0 <= i < o.pairs().len() implies ((#[trigger] o.pairs()[i]).0 == "all"@
        ==> o.all) && (o.pairs()[i].0 == "latest"@ ==> o.latest) && (o.pairs()[i].0 == "size"@
        ==> o.size) by {
        let pa = opt_pair(o.all, "all"@, "1"@);
        let pl = opt_pair(o.latest, "latest"@, "1"@);
        let pm = opt_pair(o.limit is Some, "limit"@, dec_chars(o.limit->0 as nat));
        let ps = opt_pair(o.size, "size"@, "1"@);
        assert(o.pairs() == pa + pl + pm + ps);
        if i < pa.len() {
            assert(o.pairs()[i] == pa[i]);
        } else if i < pa.len() + pl.len() {
            assert(o.pairs()[i] == pl[i - pa.len()]);
        } else if i < pa.len() + pl.len() + pm.len() {
            assert(o.pairs()[i] == pm[i - pa.len() - pl.len()]);
        } else {
            assert(o.pairs()[i] == ps[i - pa.len() - pl.len() - pm.len()]);
        }
    }
}

/// Options for stopping or restarting a container.
#[derive(Debug, Clone, PartialEq)]
pub struct ContainerStatusOptions {
    /// Seconds to wait before the status change is forced.
    pub time: Option<u16>,
}

impl ContainerStatusOptions {
    /// The fixed starting point: every option unset.
    pub open spec fn spec_default() -> Self {
        ContainerStatusOptions { time: None }
    }

    /// The raw pairs this configuration renders.
    pub open spec fn pairs(self) -> Seq<(Seq<char>, Seq<char>)> {
        if self.time is Some {
            seq![("t"@, dec_chars(self.time->0 as nat))]
        } else {
            Seq::empty()
        }
    }

    /// The time to wait before changing the status.
    pub fn time(self, time: u16) -> (r: Self)
        ensures
            r == (Self { time: Some(time) }),
    {
        Self { time: Some(time) }
    }

    /// Renders the set options as a query string.
    pub fn to_url_params(&self) -> (r: String)
        ensures
            r@ == query_of(self.pairs()),
    {
        let mut pairs: Vec<(String, String)> = Vec::new();
        if let Some(time) = self.time {
            pairs.push(("t".to_owned(), dec_string(time as u64)));
        }
        proof {
            assert(pairs.deep_view() =~= self.pairs());
        }
        render_pairs(&pairs)
    }
}

impl Default for ContainerStatusOptions {
    /// Every option unset.
    fn default() -> (r: Self)
        ensures
            r == Self::spec_default(),
    {
        ContainerStatusOptions { time: None }
    }
}

/// Options for starting a created container.
#[derive(Debug, Clone, PartialEq)]
pub struct ContainerStartOptions {
    /// Custom key sequence for detaching from the container.
    pub detach_keys: Option<String>,
}

impl ContainerStartOptions {
    /// The fixed starting point: every option unset.
    pub open spec fn spec_default() -> Self {
        ContainerStartOptions { detach_keys: None }
    }

    /// The raw pairs this configuration renders.
    pub open spec fn pairs(self) -> Seq<(Seq<char>, Seq<char>)> {
        if self.detach_keys is Some {
            seq![("detachKeys"@, self.detach_keys->0@)]
        } else {
            Seq::empty()
        }
    }

    /// The key sequence that detaches from the container.
    pub fn detach_keys(self, keys: String) -> (r: Self)
        ensures
            r == (Self { detach_keys: Some(keys) }),
    {
        Self { detach_keys: Some(keys) }
    }

    /// Renders the set options as a query string.
    pub fn to_url_params(&self) -> (r: String)
        ensures
            r@ == query_of(self.pairs()),
    {
        let mut pairs: Vec<(String, String)> = Vec::new();
        match &self.detach_keys {
            Some(keys) => pairs.push(("detachKeys".to_owned(), keys.clone())),
            None => (),
        }
        proof {
            assert(pairs.deep_view() =~= self.pairs());
        }
        render_pairs(&pairs)
    }
}

impl Default for ContainerStartOptions {
    /// Every option unset.
    fn default() -> (r: Self)
        ensures
            r == Self::spec_default(),
    {
        ContainerStartOptions { detach_keys: None }
    }
}

/// Options for sending a signal to a container.
#[derive(Debug, Clone, PartialEq)]
pub struct ContainerKillOptions {
    /// The POSIX signal to send.
    pub signal: Option<String>,
}

impl ContainerKillOptions {
    /// The fixed starting point: every option unset.
    pub open spec fn spec_default() -> Self {
        ContainerKillOptions { signal: None }
    }

    /// The raw pairs this configuration renders.
    pub open spec fn pairs(self) -> Seq<(Seq<char>, Seq<char>)> {
        if self.signal is Some {
            seq![("signal"@, self.signal->0@)]
        } else {
            Seq::empty()
        }
    }

    /// The signal to send to the container.
    pub fn signal(self, signal: String) -> (r: Self)
        ensures
            r == (Self { signal: Some(signal) }),
    {
        Self { signal: Some(signal) }
    }

    /// Renders the set options as a query string.
    pub fn to_url_params(&self) -> (r: String)
        ensures
            r@ == query_of(self.pairs()),
    {
        let mut pairs: Vec<(String, String)> = Vec::new();
        match &self.signal {
            Some(signal) => pairs.push(("signal".to_owned(), signal.clone())),
            None => (),
        }
        proof {
            assert(pairs.deep_view() =~= self.pairs());
        }
        render_pairs(&pairs)
    }
}

impl Default for ContainerKillOptions {
    /// Every option unset.
    fn default() -> (r: Self)
        ensures
            r == Self::spec_default(),
    {
        ContainerKillOptions { signal: None }
    }
}

/// Law: a freshly-defaulted status builder renders to the empty string.
pub proof fn lemma_status_default_renders_empty()
    ensures
        query_of(ContainerStatusOptions::spec_default().pairs()) == Seq::<char>::empty(),
{
    assert(query_of(ContainerStatusOptions::spec_default().pairs()) =~= Seq::<char>::empty());
}

/// Law: a freshly-defaulted start builder renders to the empty string.
pub proof fn lemma_start_default_renders_empty()
    ensures
        query_of(ContainerStartOptions::spec_default().pairs()) == Seq::<char>::empty(),
{
    assert(query_of(ContainerStartOptions::spec_default().pairs()) =~= Seq::<char>::empty());
}

/// Law: a freshly-defaulted kill builder renders to the empty string.
pub proof fn lemma_kill_default_renders_empty()
    ensures
        query_of(ContainerKillOptions::spec_default().pairs()) == Seq::<char>::empty(),
{
    assert(query_of(ContainerKillOptions::spec_default().pairs()) =~= Seq::<char>::empty());
}

/// The mathematical value of a create-options record.
pub struct CreateOptionsV {
    pub hostname: Option<Seq<char>>,
    pub domain_name: Option<Seq<char>>,
    pub user: Option<Seq<char>>,
    pub attach_stdin: Option<bool>,
    pub attach_stdout: Option<bool>,
    pub attach_stderr: Option<bool>,
    pub tty: Option<bool>,
    pub open_stdin: Option<bool>,
    pub stdin_once: Option<bool>,
    pub env: Option<Seq<Seq<char>>>,
    pub cmd: Option<Seq<Seq<char>>>,
    pub entrypoint: Option<Seq<char>>,
    pub image: Option<Seq<char>>,
    pub labels: Option<Seq<(Seq<char>, Seq<char>)>>,
}

/// The body of a container-creation request.  Unlike the query-string
/// builders this one is routed through the schema encoder: the set
/// fields are structured, and the request is submitted as a JSON body.
/// An unset option encodes as `null`, which the schema reads back as
/// absent.
#[derive(Debug, Clone, PartialEq)]
pub struct ContainerCreateOptions {
    pub hostname: Option<String>,
    pub domain_name: Option<String>,
    pub user: Option<String>,
    pub attach_stdin: Option<bool>,
    pub attach_stdout: Option<bool>,
    pub attach_stderr: Option<bool>,
    pub tty: Option<bool>,
    pub open_stdin: Option<bool>,
    pub stdin_once: Option<bool>,
    pub env: Option<Vec<String>>,
    pub cmd: Option<Vec<String>>,
    pub entrypoint: Option<String>,
    pub image: Option<String>,
    pub labels: Option<Vec<(String, String)>>,
}

impl View for ContainerCreateOptions {
    type V = CreateOptionsV;

    open spec fn view(&self) -> CreateOptionsV {
        CreateOptionsV {
            hostname: self.hostname.deep_view(),
            domain_name: self.domain_name.deep_view(),
            user: self.user.deep_view(),
            attach_stdin: self.attach_stdin,
            attach_stdout: self.attach_stdout,
            attach_stderr: self.attach_stderr,
            tty: self.tty,
            open_stdin: self.open_stdin,
            stdin_once: self.stdin_once,
            env: self.env.deep_view(),
            cmd: self.cmd.deep_view(),
            entrypoint: self.entrypoint.deep_view(),
            image: self.image.deep_view(),
            labels: self.labels.deep_view(),
        }
    }
}

impl ContainerCreateOptions {
    /// The fixed starting point: every option unset.
    pub open spec fn spec_default() -> CreateOptionsV {
        CreateOptionsV {
            hostname: None,
            domain_name: None,
            user: None,
            attach_stdin: None,
            attach_stdout: None,
            attach_stderr: None,
            tty: None,
            open_stdin: None,
            stdin_once: None,
            env: None,
            cmd: None,
            entrypoint: None,
            image: None,
            labels: None,
        }
    }

    /// Every option unset.
    pub fn default() -> (r: Self)
        ensures
            r@ == Self::spec_default(),
    {
        ContainerCreateOptions {
            hostname: None,
            domain_name: None,
            user: None,
            attach_stdin: None,
            attach_stdout: None,
            attach_stderr: None,
            tty: None,
            open_stdin: None,
            stdin_once: None,
            env: None,
            cmd: None,
            entrypoint: None,
            image: None,
            labels: None,
        }
    }

    pub fn hostname(self, hostname: &str) -> (r: Self)
        ensures
            r@ == (CreateOptionsV { hostname: Some(hostname@), ..self@ }),
    {
        Self { hostname: Some(hostname.to_owned()), ..self }
    }

    pub fn domain_name(self, domain_name: &str) -> (r: Self)
        ensures
            r@ == (CreateOptionsV { domain_name: Some(domain_name@), ..self@ }),
    {
        Self { domain_name: Some(domain_name.to_owned()), ..self }
    }

    pub fn user(self, user: &str) -> (r: Self)
        ensures
            r@ == (CreateOptionsV { user: Some(user@), ..self@ }),
    {
        Self { user: Some(user.to_owned()), ..self }
    }

    pub fn attach_stdin(self, attach_stdin: bool) -> (r: Self)
        ensures
            r@ == (CreateOptionsV { attach_stdin: Some(attach_stdin), ..self@ }),
    {
        Self { attach_stdin: Some(attach_stdin), ..self }
    }

    pub fn attach_stdout(self, attach_stdout: bool) -> (r: Self)
        ensures
            r@ == (CreateOptionsV { attach_stdout: Some(attach_stdout), ..self@ }),
    {
        Self { attach_stdout: Some(attach_stdout), ..self }
    }

    pub fn attach_stderr(self, attach_stderr: bool) -> (r: Self)
        ensures
            r@ == (CreateOptionsV { attach_stderr: Some(attach_stderr), ..self@ }),
    {
        Self { attach_stderr: Some(attach_stderr), ..self }
    }

    pub fn tty(self, tty: bool) -> (r: Self)
        ensures
            r@ == (CreateOptionsV { tty: Some(tty), ..self@ }),
    {
        Self { tty: Some(tty), ..self }
    }

    pub fn open_stdin(self, open_stdin: bool) -> (r: Self)
        ensures
            r@ == (CreateOptionsV { open_stdin: Some(open_stdin), ..self@ }),
    {
        Self { open_stdin: Some(open_stdin), ..self }
    }

    pub fn stdin_once(self, stdin_once: bool) -> (r: Self)
        ensures
            r@ == (CreateOptionsV { stdin_once: Some(stdin_once), ..self@ }),
    {
        Self { stdin_once: Some(stdin_once), ..self }
    }

    pub fn env(self, env: Vec<String>) -> (r: Self)
        ensures
            r@ == (CreateOptionsV { env: Some(env.deep_view()), ..self@ }),
    {
        Self { env: Some(env), ..self }
    }

    pub fn cmd(self, cmd: Vec<String>) -> (r: Self)
        ensures
            r@ == (CreateOptionsV { cmd: Some(cmd.deep_view()), ..self@ }),
    {
        Self { cmd: Some(cmd), ..self }
    }

    pub fn entrypoint(self, entrypoint: &str) -> (r: Self)
        ensures
            r@ == (CreateOptionsV { entrypoint: Some(entrypoint@), ..self@ }),
    {
        Self { entrypoint: Some(entrypoint.to_owned()), ..self }
    }

    pub fn image(self, image: &str) -> (r: Self)
        ensures
            r@ == (CreateOptionsV { image: Some(image@), ..self@ }),
    {
        Self { image: Some(image.to_owned()), ..self }
    }

    pub fn labels(self, labels: Vec<(String, String)>) -> (r: Self)
        ensures
            r@ == (CreateOptionsV { labels: Some(labels.deep_view()), ..self@ }),
    {
        Self { labels: Some(labels), ..self }
    }

    /// The shape a create-options body must have: an object whose
    /// recognized fields each carry the declared type or `null`.
    pub open spec fn json_ok(v: JsonV) -> bool {
        &&& v is Obj
        &&& is_opt_str_field(field_of(v, "Hostname"@))
        &&& is_opt_str_field(field_of(v, "Domainname"@))
        &&& is_opt_str_field(field_of(v, "User"@))
        &&& is_opt_bool_field(field_of(v, "AttachStdin"@))
        &&& is_opt_bool_field(field_of(v, "AttachStdout"@))
        &&& is_opt_bool_field(field_of(v, "AttachStderr"@))
        &&& is_opt_bool_field(field_of(v, "Tty"@))
        &&& is_opt_bool_field(field_of(v, "OpenStdin"@))
        &&& is_opt_bool_field(field_of(v, "StdinOnce"@))
        &&& is_opt_str_arr_field(field_of(v, "Env"@))
        &&& is_opt_str_arr_field(field_of(v, "Cmd"@))
        &&& is_opt_str_field(field_of(v, "Entrypoint"@))
        &&& is_opt_str_field(field_of(v, "Image"@))
        &&& is_opt_str_map_field(field_of(v, "Labels"@))
    }

    /// The record a well-shaped body decodes to.
    pub open spec fn of_json(v: JsonV) -> CreateOptionsV {
        CreateOptionsV {
            hostname: opt_str_field(field_of(v, "Hostname"@)),
            domain_name: opt_str_field(field_of(v, "Domainname"@)),
            user: opt_str_field(field_of(v, "User"@)),
            attach_stdin: opt_bool_field(field_of(v, "AttachStdin"@)),
            attach_stdout: opt_bool_field(field_of(v, "AttachStdout"@)),
            attach_stderr: opt_bool_field(field_of(v, "AttachStderr"@)),
            tty: opt_bool_field(field_of(v, "Tty"@)),
            open_stdin: opt_bool_field(field_of(v, "OpenStdin"@)),
            stdin_once: opt_bool_field(field_of(v, "StdinOnce"@)),
            env: opt_str_arr_field(field_of(v, "Env"@)),
            cmd: opt_str_arr_field(field_of(v, "Cmd"@)),
            entrypoint: opt_str_field(field_of(v, "Entrypoint"@)),
            image: opt_str_field(field_of(v, "Image"@)),
            labels: opt_str_map_field(field_of(v, "Labels"@)),
        }
    }

    /// The body an option set encodes to: every field under its exact
    /// wire name, in declaration order, `null` for unset options.
    pub open spec fn spec_encode(v: CreateOptionsV) -> JsonV {
        JsonV::Obj(
            seq![
                ("Hostname"@, jv_opt_str(v.hostname)),
                ("Domainname"@, jv_opt_str(v.domain_name)),
                ("User"@, jv_opt_str(v.user)),
                ("AttachStdin"@, jv_opt_bool(v.attach_stdin)),
                ("AttachStdout"@, jv_opt_bool(v.attach_stdout)),
                ("AttachStderr"@, jv_opt_bool(v.attach_stderr)),
                ("Tty"@, jv_opt_bool(v.tty)),
                ("OpenStdin"@, jv_opt_bool(v.open_stdin)),
                ("StdinOnce"@, jv_opt_bool(v.stdin_once)),
                ("Env"@, jv_opt_strs(v.env)),
                ("Cmd"@, jv_opt_strs(v.cmd)),
                ("Entrypoint"@, jv_opt_str(v.entrypoint)),
                ("Image"@, jv_opt_str(v.image)),
                ("Labels"@, jv_opt_str_map(v.labels)),
            ],
        )
    }

    /// Encodes this option set as a request body.
    #[verifier::rlimit(100)]
    pub fn to_json(&self) -> (r: Json)
        ensures
            r@ == Self::spec_encode(self@),
    {
        let fields: Vec<(String, Json)> = vec![
            ("Hostname".to_owned(), mk_opt_str_json(&self.hostname)),
            ("Domainname".to_owned(), mk_opt_str_json(&self.domain_name)),
            ("User".to_owned(), mk_opt_str_json(&self.user)),
            ("AttachStdin".to_owned(), mk_opt_bool_json(&self.attach_stdin)),
            ("AttachStdout".to_owned(), mk_opt_bool_json(&self.attach_stdout)),
            ("AttachStderr".to_owned(), mk_opt_bool_json(&self.attach_stderr)),
            ("Tty".to_owned(), mk_opt_bool_json(&self.tty)),
            ("OpenStdin".to_owned(), mk_opt_bool_json(&self.open_stdin)),
            ("StdinOnce".to_owned(), mk_opt_bool_json(&self.stdin_once)),
            ("Env".to_owned(), mk_opt_strs_json(&self.env)),
            ("Cmd".to_owned(), mk_opt_strs_json(&self.cmd)),
            ("Entrypoint".to_owned(), mk_opt_str_json(&self.entrypoint)),
            ("Image".to_owned(), mk_opt_str_json(&self.image)),
            ("Labels".to_owned(), mk_opt_str_map_json(&self.labels)),
        ];
        let r = Json::Obj(fields);
        proof {
            lemma_json_field_views_index(fields@);
            let fv = json_field_views(fields@);
            assert(fields@.len() == 14);
            assert(fv[0] == ("Hostname"@, jv_opt_str(self@.hostname)));
            assert(fv[1] == ("Domainname"@, jv_opt_str(self@.domain_name)));
            assert(fv[2] == ("User"@, jv_opt_str(self@.user)));
            assert(fv[3] == ("AttachStdin"@, jv_opt_bool(self@.attach_stdin)));
            assert(fv[4] == ("AttachStdout"@, jv_opt_bool(self@.attach_stdout)));
            assert(fv[5] == ("AttachStderr"@, jv_opt_bool(self@.attach_stderr)));
            assert(fv[6] == ("Tty"@, jv_opt_bool(self@.tty)));
            assert(fv[7] == ("OpenStdin"@, jv_opt_bool(self@.open_stdin)));
            assert(fv[8] == ("StdinOnce"@, jv_opt_bool(self@.stdin_once)));
            assert(fv[9] == ("Env"@, jv_opt_strs(self@.env)));
            assert(fv[10] == ("Cmd"@, jv_opt_strs(self@.cmd)));
            assert(fv[11] == ("Entrypoint"@, jv_opt_str(self@.entrypoint)));
            assert(fv[12] == ("Image"@, jv_opt_str(self@.image)));
            assert(fv[13] == ("Labels"@, jv_opt_str_map(self@.labels)));
            assert(json_field_views(fields@) =~= Self::spec_encode(self@)->Obj_0);
        }
        r
    }

    /// Decodes a create-options body.
    pub fn decode(v: &Json) -> (r: Result<Self, SchemaError>)
        ensures
            r is Ok <==> Self::json_ok(v@),
            r matches Ok(o) ==> o@ == Self::of_json(v@),
    {
        let fields = match v {
            Json::Obj(fields) => fields,
            _ => {
                return Err(SchemaError);
            },
        };
        let hostname = get_opt_str(fields, "Hostname")?;
        let domain_name = get_opt_str(fields, "Domainname")?;
        let user = get_opt_str(fields, "User")?;
        let attach_stdin = get_opt_bool(fields, "AttachStdin")?;
        let attach_stdout = get_opt_bool(fields, "AttachStdout")?;
        let attach_stderr = get_opt_bool(fields, "AttachStderr")?;
        let tty = get_opt_bool(fields, "Tty")?;
        let open_stdin = get_opt_bool(fields, "OpenStdin")?;
        let stdin_once = get_opt_bool(fields, "StdinOnce")?;
        let env = get_opt_str_arr(fields, "Env")?;
        let cmd = get_opt_str_arr(fields, "Cmd")?;
        let entrypoint = get_opt_str(fields, "Entrypoint")?;
        let image = get_opt_str(fields, "Image")?;
        let labels = get_opt_str_map(fields, "Labels")?;
        Ok(
            ContainerCreateOptions {
                hostname,
                domain_name,
                user,
                attach_stdin,
                attach_stdout,
                attach_stderr,
                tty,
                open_stdin,
                stdin_once,
                env,
                cmd,
                entrypoint,
                image,
                labels,
            },
        )
    }
}

/// Law: decoding an encoded option set yields exactly the set back.
pub proof fn lemma_create_options_round_trip(v: CreateOptionsV)
    ensures
        ContainerCreateOptions::json_ok(ContainerCreateOptions::spec_encode(v)),
        ContainerCreateOptions::of_json(ContainerCreateOptions::spec_encode(v)) == v,
{
    reveal_strlit("Hostname");
    reveal_strlit("Domainname");
    reveal_strlit("User");
    reveal_strlit("AttachStdin");
    reveal_strlit("AttachStdout");
    reveal_strlit("AttachStderr");
    reveal_strlit("Tty");
    reveal_strlit("OpenStdin");
    reveal_strlit("StdinOnce");
    reveal_strlit("Env");
    reveal_strlit("Cmd");
    reveal_strlit("Entrypoint");
    reveal_strlit("Image");
    reveal_strlit("Labels");
    assert("Hostname"@.len() == 8);
    assert("Domainname"@.len() == 10);
    assert("User"@.len() == 4);
    assert("AttachStdin"@.len() == 11);
    assert("AttachStdout"@.len() == 12);
    assert("AttachStderr"@.len() == 12);
    assert("Tty"@.len() == 3);
    assert("OpenStdin"@.len() == 9);
    assert("StdinOnce"@.len() == 9);
    assert("Env"@.len() == 3);
    assert("Cmd"@.len() == 3);
    assert("Entrypoint"@.len() == 10);
    assert("Image"@.len() == 5);
    assert("Labels"@.len() == 6);
    assert("AttachStdout"@[9] == 'o');
    assert("AttachStderr"@[9] == 'e');
    assert("OpenStdin"@[0] == 'O');
    assert("StdinOnce"@[0] == 'S');
    assert("Tty"@[0] == 'T');
    assert("Env"@[0] == 'E');
    assert("Cmd"@[0] == 'C');
    assert("Domainname"@[0] == 'D');
    assert("Entrypoint"@[0] == 'E');
    reveal_with_fuel(lookup, 16);
    let w = ContainerCreateOptions::spec_encode(v);
    assert(field_of(w, "Hostname"@) == Some(jv_opt_str(v.hostname)));
    assert(field_of(w, "Domainname"@) == Some(jv_opt_str(v.domain_name)));
    assert(field_of(w, "User"@) == Some(jv_opt_str(v.user)));
    assert(field_of(w, "AttachStdin"@) == Some(jv_opt_bool(v.attach_stdin)));
    assert(field_of(w, "AttachStdout"@) == Some(jv_opt_bool(v.attach_stdout)));
    assert(field_of(w, "AttachStderr"@) == Some(jv_opt_bool(v.attach_stderr)));
    assert(field_of(w, "Tty"@) == Some(jv_opt_bool(v.tty)));
    assert(field_of(w, "OpenStdin"@) == Some(jv_opt_bool(v.open_stdin)));
    assert(field_of(w, "StdinOnce"@) == Some(jv_opt_bool(v.stdin_once)));
    assert(field_of(w, "Env"@) == Some(jv_opt_strs(v.env)));
    assert(field_of(w, "Cmd"@) == Some(jv_opt_strs(v.cmd)));
    assert(field_of(w, "Entrypoint"@) == Some(jv_opt_str(v.entrypoint)));
    assert(field_of(w, "Image"@) == Some(jv_opt_str(v.image)));
    assert(field_of(w, "Labels"@) == Some(jv_opt_str_map(v.labels)));
    if v.env is Some {
        assert(opt_str_arr_field(field_of(w, "Env"@)) =~~= v.env);
    }
    if v.cmd is Some {
        assert(opt_str_arr_field(field_of(w, "Cmd"@)) =~~= v.cmd);
    }
    if v.labels is Some {
        assert(opt_str_map_field(field_of(w, "Labels"@)) =~~= v.labels);
    }
}

/// One configuration call on [`ContainerCreateOptions`], by its value.
pub enum CreateCall {
    Hostname(Seq<char>),
    DomainName(Seq<char>),
    User(Seq<char>),
    AttachStdin(bool),
    AttachStdout(bool),
    AttachStderr(bool),
    Tty(bool),
    OpenStdin(bool),
    StdinOnce(bool),
    Env(Seq<Seq<char>>),
    Cmd(Seq<Seq<char>>),
    Entrypoint(Seq<char>),
    Image(Seq<char>),
    Labels(Seq<(Seq<char>, Seq<char>)>),
}

/// The option a creation call sets, as a position in declaration order.
pub open spec fn create_call_field(c: CreateCall) -> int {
    match c {
        CreateCall::Hostname(_) => 0,
        CreateCall::DomainName(_) => 1,
        CreateCall::User(_) => 2,
        CreateCall::AttachStdin(_) => 3,
        CreateCall::AttachStdout(_) => 4,
        CreateCall::AttachStderr(_) => 5,
        CreateCall::Tty(_) => 6,
        CreateCall::OpenStdin(_) => 7,
        CreateCall::StdinOnce(_) => 8,
        CreateCall::Env(_) => 9,
        CreateCall::Cmd(_) => 10,
        CreateCall::Entrypoint(_) => 11,
        CreateCall::Image(_) => 12,
        CreateCall::Labels(_) => 13,
    }
}

/// What a creation call leaves behind.
pub open spec fn apply_create_call(o: CreateOptionsV, c: CreateCall) -> CreateOptionsV {
    match c {
        CreateCall::Hostname(x) => CreateOptionsV { hostname: Some(x), ..o },
        CreateCall::DomainName(x) => CreateOptionsV { domain_name: Some(x), ..o },
        CreateCall::User(x) => CreateOptionsV { user: Some(x), ..o },
        CreateCall::AttachStdin(x) => CreateOptionsV { attach_stdin: Some(x), ..o },
        CreateCall::AttachStdout(x) => CreateOptionsV { attach_stdout: Some(x), ..o },
        CreateCall::AttachStderr(x) => CreateOptionsV { attach_stderr: Some(x), ..o },
        CreateCall::Tty(x) => CreateOptionsV { tty: Some(x), ..o },
        CreateCall::OpenStdin(x) => CreateOptionsV { open_stdin: Some(x), ..o },
        CreateCall::StdinOnce(x) => CreateOptionsV { stdin_once: Some(x), ..o },
        CreateCall::Env(x) => CreateOptionsV { env: Some(x), ..o },
        CreateCall::Cmd(x) => CreateOptionsV { cmd: Some(x), ..o },
        CreateCall::Entrypoint(x) => CreateOptionsV { entrypoint: Some(x), ..o },
        CreateCall::Image(x) => CreateOptionsV { image: Some(x), ..o },
        CreateCall::Labels(x) => CreateOptionsV { labels: Some(x), ..o },
    }
}

/// Law: two creation calls that set different options commute, so the
/// encoded body cannot depend on the order of such calls.
pub proof fn lemma_create_calls_commute(o: CreateOptionsV, a: CreateCall, b: CreateCall)
    requires
        create_call_field(a) != create_call_field(b),
    ensures
        apply_create_call(apply_create_call(o, a), b) == apply_create_call(
            apply_create_call(o, b),
            a,
        ),
{
}

} // verus!
