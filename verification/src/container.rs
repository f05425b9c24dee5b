//! The container resource records the engine API returns.
//!
//! Every record decodes from a [`Json`] tree with an explicit
//! per-field name mapping: the wire casing is irregular (ordinary
//! PascalCase next to all-caps acronyms such as `IP`, `RW` and
//! `OOMKilled`, and one lowercase `type`), so each field carries its
//! literal wire name rather than a blanket casing rule.  Unknown
//! fields are always ignored; a missing required field or a
//! wrong-shaped value is a [`SchemaError`].  Each record also encodes
//! back to a tree, with unset optional fields written as `null`.

use vstd::prelude::*;

use crate::json::bool_field;
use crate::json::field_of;
use crate::json::get_bool;
use crate::json::get_i64;
use crate::json::get_opt_obj_map;
use crate::json::get_opt_str;
use crate::json::get_opt_str_arr;
use crate::json::get_opt_str_map;
use crate::json::get_opt_u64;
use crate::json::get_str_map;
use crate::json::get_str;
use crate::json::get_str_arr;
use crate::json::get_u32;
use crate::json::get_u64;
use crate::json::i64_field;
use crate::json::is_bool_field;
use crate::json::is_i64_field;
use crate::json::is_opt_obj_map_field;
use crate::json::is_opt_str_arr_field;
use crate::json::is_opt_str_field;
use crate::json::is_str_map_field;
use crate::json::is_opt_str_map_field;
use crate::json::is_opt_u64_field;
use crate::json::is_str_arr_field;
use crate::json::is_str_field;
use crate::json::is_u32_field;
use crate::json::is_u64_field;
use crate::json::json_field_views;
use crate::json::json_view;
use crate::json::json_views;
use crate::json::jv_opt_obj_map;
use crate::json::jv_opt_str;
use crate::json::jv_opt_str_map;
use crate::json::jv_opt_strs;
use crate::json::jv_opt_u64;
use crate::json::jv_str_map;
use crate::json::jv_strs;
use crate::json::lemma_json_field_views_index;
use crate::json::lemma_json_views_index;
use crate::json::lookup;
use crate::json::mk_opt_obj_map_json;
use crate::json::mk_opt_str_json;
use crate::json::mk_opt_str_map_json;
use crate::json::mk_str_map_json;
use crate::json::mk_opt_strs_json;
use crate::json::mk_opt_u64_json;
use crate::json::mk_strs_json;
use crate::json::opt_obj_map_field;
use crate::json::opt_str_arr_field;
use crate::json::opt_str_field;
use crate::json::opt_str_map_field;
use crate::json::opt_u64_field;
use crate::json::str_map_field;
use crate::json::str_arr_field;
use crate::json::str_field;
use crate::json::u32_field;
use crate::json::u64_field;
use crate::json::Json;
use crate::json::JsonV;
use crate::json::SchemaError;

verus! {

/// A permissive placeholder for wire objects whose shape is
/// undocumented upstream: an ordered map of strings, carried through
/// untouched and useful only for presence checks.
pub type UnspecifiedObject = Vec<(String, String)>;

/// The mathematical value of a published-port record.
pub struct PortV {
    pub ip: Option<Seq<char>>,
    pub private_port: u64,
    pub public_port: Option<u64>,
    pub ty: Seq<char>,
}

/// One published port mapping in a container summary.  An absent
/// `public_port` means no published mapping exists, not port zero.
#[derive(Debug, Clone, PartialEq)]
pub struct Port {
    pub ip: Option<String>,
    pub private_port: u64,
    pub public_port: Option<u64>,
    pub ty: String,
}

impl View for Port {
    type V = PortV;

    open spec fn view(&self) -> PortV {
        PortV {
            ip: self.ip.deep_view(),
            private_port: self.private_port,
            public_port: self.public_port,
            ty: self.ty@,
        }
    }
}

impl DeepView for Port {
    type V = PortV;

    open spec fn deep_view(&self) -> PortV {
        self.view()
    }
}

impl Port {
    /// The shape a port record must have on the wire.
    pub open spec fn json_ok(v: JsonV) -> bool {
        &&& v is Obj
        &&& is_opt_str_field(field_of(v, "IP"@))
        &&& is_u64_field(field_of(v, "PrivatePort"@))
        &&& is_opt_u64_field(field_of(v, "PublicPort"@))
        &&& is_str_field(field_of(v, "type"@))
    }

    /// The record a well-shaped port decodes to.
    pub open spec fn of_json(v: JsonV) -> PortV {
        PortV {
            ip: opt_str_field(field_of(v, "IP"@)),
            private_port: u64_field(field_of(v, "PrivatePort"@)),
            public_port: opt_u64_field(field_of(v, "PublicPort"@)),
            ty: str_field(field_of(v, "type"@)),
        }
    }

    /// The tree a port record encodes to.
    pub open spec fn spec_encode(p: PortV) -> JsonV {
        JsonV::Obj(
            seq![
                ("IP"@, jv_opt_str(p.ip)),
                ("PrivatePort"@, JsonV::Num(p.private_port as int)),
                ("PublicPort"@, jv_opt_u64(p.public_port)),
                ("type"@, JsonV::Str(p.ty)),
            ],
        )
    }

    /// Decodes one port record.
    pub fn decode(v: &Json) -> (r: Result<Self, SchemaError>)
        ensures
            r is Ok <==> Self::json_ok(v@),
            r matches Ok(p) ==> p@ == Self::of_json(v@),
    {
        let fields = match v {
            Json::Obj(fields) => fields,
            _ => {
                return Err(SchemaError);
            },
        };
        let ip = get_opt_str(fields, "IP")?;
        let private_port = get_u64(fields, "PrivatePort")?;
        let public_port = get_opt_u64(fields, "PublicPort")?;
        let ty = get_str(fields, "type")?;
        Ok(Port { ip, private_port, public_port, ty })
    }

    /// Encodes this port record.
    pub fn to_json(&self) -> (r: Json)
        ensures
            r@ == Self::spec_encode(self@),
    {
        let fields: Vec<(String, Json)> = vec![
            ("IP".to_owned(), mk_opt_str_json(&self.ip)),
            ("PrivatePort".to_owned(), Json::Num(self.private_port as i128)),
            ("PublicPort".to_owned(), mk_opt_u64_json(&self.public_port)),
            ("type".to_owned(), Json::Str(self.ty.clone())),
        ];
        let r = Json::Obj(fields);
        proof {
            lemma_json_field_views_index(fields@);
            assert(json_field_views(fields@) =~= Self::spec_encode(self@)->Obj_0);
        }
        r
    }
}

/// Law: decoding an encoded port record yields the record back.
pub proof fn lemma_port_round_trip(p: PortV)
    ensures
        Port::json_ok(Port::spec_encode(p)),
        Port::of_json(Port::spec_encode(p)) == p,
{
    reveal_strlit("IP");
    reveal_strlit("PrivatePort");
    reveal_strlit("PublicPort");
    reveal_strlit("type");
    assert("IP"@.len() == 2);
    assert("PrivatePort"@.len() == 11);
    assert("PublicPort"@.len() == 10);
    assert("type"@.len() == 4);
    reveal_with_fuel(lookup, 6);
    let w = Port::spec_encode(p);
    assert(field_of(w, "IP"@) == Some(jv_opt_str(p.ip)));
    assert(field_of(w, "PrivatePort"@) == Some(JsonV::Num(p.private_port as int)));
    assert(field_of(w, "PublicPort"@) == Some(jv_opt_u64(p.public_port)));
    assert(field_of(w, "type"@) == Some(JsonV::Str(p.ty)));
}

/// The mathematical value of a host-config record.
pub struct HostConfigV {
    pub network_mode: Seq<char>,
}

/// The host-level configuration subset reported with a summary.  Only
/// one field is modeled; unknown fields are ignored, never rejected.
#[derive(Debug, Clone, PartialEq)]
pub struct HostConfig {
    pub network_mode: String,
}

impl View for HostConfig {
    type V = HostConfigV;

    open spec fn view(&self) -> HostConfigV {
        HostConfigV { network_mode: self.network_mode@ }
    }
}

impl DeepView for HostConfig {
    type V = HostConfigV;

    open spec fn deep_view(&self) -> HostConfigV {
        self.view()
    }
}

impl HostConfig {
    /// The shape a host-config record must have on the wire.
    pub open spec fn json_ok(v: JsonV) -> bool {
        &&& v is Obj
        &&& is_str_field(field_of(v, "NetworkMode"@))
    }

    /// The record a well-shaped host config decodes to.
    pub open spec fn of_json(v: JsonV) -> HostConfigV {
        HostConfigV { network_mode: str_field(field_of(v, "NetworkMode"@)) }
    }

    /// The tree a host-config record encodes to.
    pub open spec fn spec_encode(h: HostConfigV) -> JsonV {
        JsonV::Obj(seq![("NetworkMode"@, JsonV::Str(h.network_mode))])
    }

    /// Decodes one host-config record.
    pub fn decode(v: &Json) -> (r: Result<Self, SchemaError>)
        ensures
            r is Ok <==> Self::json_ok(v@),
            r matches Ok(h) ==> h@ == Self::of_json(v@),
    {
        let fields = match v {
            Json::Obj(fields) => fields,
            _ => {
                return Err(SchemaError);
            },
        };
        let network_mode = get_str(fields, "NetworkMode")?;
        Ok(HostConfig { network_mode })
    }

    /// Encodes this host-config record.
    pub fn to_json(&self) -> (r: Json)
        ensures
            r@ == Self::spec_encode(self@),
    {
        let fields: Vec<(String, Json)> = vec![
            ("NetworkMode".to_owned(), Json::Str(self.network_mode.clone())),
        ];
        let r = Json::Obj(fields);
        proof {
            lemma_json_field_views_index(fields@);
            assert(json_field_views(fields@) =~= Self::spec_encode(self@)->Obj_0);
        }
        r
    }
}

/// Law: decoding an encoded host config yields the record back.
pub proof fn lemma_host_config_round_trip(h: HostConfigV)
    ensures
        HostConfig::json_ok(HostConfig::spec_encode(h)),
        HostConfig::of_json(HostConfig::spec_encode(h)) == h,
{
    reveal_strlit("NetworkMode");
    reveal_with_fuel(lookup, 2);
    assert(field_of(HostConfig::spec_encode(h), "NetworkMode"@) == Some(
        JsonV::Str(h.network_mode),
    ));
}

/// An array whose items are all well-shaped port records.
pub open spec fn ports_ok(items: Seq<JsonV>) -> bool {
    forall|i: int| 0 <= i < items.len() ==> Port::json_ok(#[trigger] items[i])
}

/// The ports such an array decodes to.
pub open spec fn ports_of(items: Seq<JsonV>) -> Seq<PortV> {
    items.map_values(|j: JsonV| Port::of_json(j))
}

/// The tree a port list encodes to.
pub open spec fn jv_ports(ps: Seq<PortV>) -> JsonV {
    JsonV::Arr(ps.map_values(|p: PortV| Port::spec_encode(p)))
}

/// A required field holding an array of port records.
pub open spec fn is_port_arr_field(o: Option<JsonV>) -> bool {
    o matches Some(JsonV::Arr(items)) && ports_ok(items)
}

pub open spec fn port_arr_field(o: Option<JsonV>) -> Seq<PortV> {
    ports_of(o->0->Arr_0)
}

/// Reads a required array-of-ports field, decoding element-wise.
fn get_port_arr(fields: &Vec<(String, Json)>, name: &str) -> (r: Result<Vec<Port>, SchemaError>)
    ensures
        r is Ok <==> is_port_arr_field(lookup(json_field_views(fields@), name@)),
        r matches Ok(out) ==> out.deep_view() == port_arr_field(
            lookup(json_field_views(fields@), name@),
        ),
{
    let items = match crate::json::obj_get(fields, name) {
        Some(j) => match j {
            Json::Arr(items) => items,
            _ => {
                return Err(SchemaError);
            },
        },
        None => {
            return Err(SchemaError);
        },
    };
    proof {
        lemma_json_views_index(items@);
    }
    let mut out: Vec<Port> = Vec::new();
    let mut i: usize = 0;
    while i < items.len()
        invariant
            lookup(json_field_views(fields@), name@) == Some(JsonV::Arr(json_views(items@))),
            i <= items.len(),
            out@.len() == i,
            json_views(items@).len() == items@.len(),
            forall|k: int| 0 <= k < items@.len() ==> json_views(items@)[k]
                == json_view(#[trigger] items@[k]),
            forall|k: int| 0 <= k < i ==> Port::json_ok(#[trigger] json_views(items@)[k]),
            forall|k: int| 0 <= k < i ==> (#[trigger] out@[k])@ == Port::of_json(
                json_views(items@)[k],
            ),
        decreases items.len() - i,
    {
        match Port::decode(&items[i]) {
            Ok(p) => out.push(p),
            Err(e) => {
                proof {
                    assert(!Port::json_ok(json_views(items@)[i as int]));
                }
                return Err(e);
            },
        }
        i = i + 1;
    }
    proof {
        let target = ports_of(json_views(items@));
        assert forall|k: int| 0 <= k < out@.len() implies out.deep_view()[k] == target[k] by {
            assert(out.deep_view()[k] == out@[k]@);
            assert(target[k] == Port::of_json(json_views(items@)[k]));
        }
        assert(out.deep_view() =~= target);
    }
    Ok(out)
}

/// Encodes a port list element-wise.
fn mk_ports_json(ports: &Vec<Port>) -> (r: Json)
    ensures
        r@ == jv_ports(ports.deep_view()),
{
    let mut out: Vec<Json> = Vec::new();
    let mut i: usize = 0;
    while i < ports.len()
        invariant
            i <= ports.len(),
            out@.len() == i,
            forall|k: int| 0 <= k < i ==> (#[trigger] out@[k])@ == Port::spec_encode(
                ports@[k]@,
            ),
        decreases ports.len() - i,
    {
        out.push(ports[i].to_json());
        i = i + 1;
    }
    let r = Json::Arr(out);
    proof {
        lemma_json_views_index(out@);
        let target = ports.deep_view().map_values(|p: PortV| Port::spec_encode(p));
        assert forall|k: int| 0 <= k < out@.len() implies json_views(out@)[k] == target[k] by {
            assert(json_views(out@)[k] == json_view(out@[k]));
            assert(out@[k]@ == Port::spec_encode(ports@[k]@));
            assert(ports.deep_view()[k] == ports@[k]@);
        }
        assert(json_views(out@) =~= target);
    }
    r
}

/// A required field holding a well-shaped host config.
pub open spec fn is_host_config_field(o: Option<JsonV>) -> bool {
    o matches Some(j) && HostConfig::json_ok(j)
}

pub open spec fn host_config_field(o: Option<JsonV>) -> HostConfigV {
    HostConfig::of_json(o->0)
}

/// The mathematical value of a container summary.
pub struct ContainerV {
    pub id: Seq<char>,
    pub image: Seq<char>,
    pub status: Seq<char>,
    pub command: Seq<char>,
    pub created: u64,
    pub names: Seq<Seq<char>>,
    pub ports: Seq<PortV>,
    pub size_rw: Option<u64>,
    pub size_root_fs: Option<u64>,
    pub labels: Option<Seq<(Seq<char>, Seq<char>)>>,
    pub host_config: HostConfigV,
}

/// One row of a container-listing response.  The port list may be
/// empty but is never omitted; the size fields are absent on platforms
/// that do not report them.
#[derive(Debug, Clone, PartialEq)]
pub struct Container {
    pub id: String,
    pub image: String,
    pub status: String,
    pub command: String,
    pub created: u64,
    pub names: Vec<String>,
    pub ports: Vec<Port>,
    pub size_rw: Option<u64>,
    pub size_root_fs: Option<u64>,
    pub labels: Option<Vec<(String, String)>>,
    pub host_config: HostConfig,
}

impl View for Container {
    type V = ContainerV;

    open spec fn view(&self) -> ContainerV {
        ContainerV {
            id: self.id@,
            image: self.image@,
            status: self.status@,
            command: self.command@,
            created: self.created,
            names: self.names.deep_view(),
            ports: self.ports.deep_view(),
            size_rw: self.size_rw,
            size_root_fs: self.size_root_fs,
            labels: self.labels.deep_view(),
            host_config: self.host_config@,
        }
    }
}

impl Container {
    /// The identifier of this container; what a display of the record
    /// shows.
    pub fn display_id(&self) -> (r: String)
        ensures
            r@ == self@.id,
    {
        self.id.clone()
    }

    /// The shape a container summary must have on the wire.
    pub open spec fn json_ok(v: JsonV) -> bool {
        &&& v is Obj
        &&& is_str_field(field_of(v, "Id"@))
        &&& is_str_field(field_of(v, "Image"@))
        &&& is_str_field(field_of(v, "Status"@))
        &&& is_str_field(field_of(v, "Command"@))
        &&& is_u64_field(field_of(v, "Created"@))
        &&& is_str_arr_field(field_of(v, "Names"@))
        &&& is_port_arr_field(field_of(v, "Ports"@))
        &&& is_opt_u64_field(field_of(v, "SizeRW"@))
        &&& is_opt_u64_field(field_of(v, "SizeRootFs"@))
        &&& is_opt_str_map_field(field_of(v, "Labels"@))
        &&& is_host_config_field(field_of(v, "HostConfig"@))
    }

    /// The record a well-shaped summary decodes to.
    pub open spec fn of_json(v: JsonV) -> ContainerV {
        ContainerV {
            id: str_field(field_of(v, "Id"@)),
            image: str_field(field_of(v, "Image"@)),
            status: str_field(field_of(v, "Status"@)),
            command: str_field(field_of(v, "Command"@)),
            created: u64_field(field_of(v, "Created"@)),
            names: str_arr_field(field_of(v, "Names"@)),
            ports: port_arr_field(field_of(v, "Ports"@)),
            size_rw: opt_u64_field(field_of(v, "SizeRW"@)),
            size_root_fs: opt_u64_field(field_of(v, "SizeRootFs"@)),
            labels: opt_str_map_field(field_of(v, "Labels"@)),
            host_config: host_config_field(field_of(v, "HostConfig"@)),
        }
    }

    /// The tree a container summary encodes to.
    pub open spec fn spec_encode(c: ContainerV) -> JsonV {
        JsonV::Obj(
            seq![
                ("Id"@, JsonV::Str(c.id)),
                ("Image"@, JsonV::Str(c.image)),
                ("Status"@, JsonV::Str(c.status)),
                ("Command"@, JsonV::Str(c.command)),
                ("Created"@, JsonV::Num(c.created as int)),
                ("Names"@, jv_strs(c.names)),
                ("Ports"@, jv_ports(c.ports)),
                ("SizeRW"@, jv_opt_u64(c.size_rw)),
                ("SizeRootFs"@, jv_opt_u64(c.size_root_fs)),
                ("Labels"@, jv_opt_str_map(c.labels)),
                ("HostConfig"@, HostConfig::spec_encode(c.host_config)),
            ],
        )
    }

    /// Decodes one container summary.
    pub fn decode(v: &Json) -> (r: Result<Self, SchemaError>)
        ensures
            r is Ok <==> Self::json_ok(v@),
            r matches Ok(c) ==> c@ == Self::of_json(v@),
    {
        let fields = match v {
            Json::Obj(fields) => fields,
            _ => {
                return Err(SchemaError);
            },
        };
        let id = get_str(fields, "Id")?;
        let image = get_str(fields, "Image")?;
        let status = get_str(fields, "Status")?;
        let command = get_str(fields, "Command")?;
        let created = get_u64(fields, "Created")?;
        let names = get_str_arr(fields, "Names")?;
        let ports = get_port_arr(fields, "Ports")?;
        let size_rw = get_opt_u64(fields, "SizeRW")?;
        let size_root_fs = get_opt_u64(fields, "SizeRootFs")?;
        let labels = get_opt_str_map(fields, "Labels")?;
        let host_config = match crate::json::obj_get(fields, "HostConfig") {
            Some(j) => HostConfig::decode(j)?,
            None => {
                return Err(SchemaError);
            },
        };
        Ok(
            Container {
                id,
                image,
                status,
                command,
                created,
                names,
                ports,
                size_rw,
                size_root_fs,
                labels,
                host_config,
            },
        )
    }

    /// Encodes this container summary.
    #[verifier::rlimit(50)]
    pub fn to_json(&self) -> (r: Json)
        ensures
            r@ == Self::spec_encode(self@),
    {
        let fields: Vec<(String, Json)> = vec![
            ("Id".to_owned(), Json::Str(self.id.clone())),
            ("Image".to_owned(), Json::Str(self.image.clone())),
            ("Status".to_owned(), Json::Str(self.status.clone())),
            ("Command".to_owned(), Json::Str(self.command.clone())),
            ("Created".to_owned(), Json::Num(self.created as i128)),
            ("Names".to_owned(), mk_strs_json(&self.names)),
            ("Ports".to_owned(), mk_ports_json(&self.ports)),
            ("SizeRW".to_owned(), mk_opt_u64_json(&self.size_rw)),
            ("SizeRootFs".to_owned(), mk_opt_u64_json(&self.size_root_fs)),
            ("Labels".to_owned(), mk_opt_str_map_json(&self.labels)),
            ("HostConfig".to_owned(), self.host_config.to_json()),
        ];
        let r = Json::Obj(fields);
        proof {
            lemma_json_field_views_index(fields@);
            assert(json_field_views(fields@) =~= Self::spec_encode(self@)->Obj_0);
        }
        r
    }
}

impl Container {
    /// Decodes each row of a listing response independently: one
    /// malformed row yields its own error and does not affect its
    /// siblings.
    pub fn decode_each(items: &Vec<Json>) -> (r: Vec<Result<Self, SchemaError>>)
        ensures
            r@.len() == items@.len(),
            forall|k: int| 0 <= k < items@.len() ==> ((#[trigger] r@[k]) is Ok
                <==> Self::json_ok(items@[k]@)),
            forall|k: int| 0 <= k < items@.len() ==> ((#[trigger] r@[k]) matches Ok(c) ==> c@
                == Self::of_json(items@[k]@)),
    {
        let mut out: Vec<Result<Self, SchemaError>> = Vec::new();
        let mut i: usize = 0;
        while i < items.len()
            invariant
                i <= items.len(),
                out@.len() == i,
                forall|k: int| 0 <= k < i ==> ((#[trigger] out@[k]) is Ok <==> Self::json_ok(
                    items@[k]@,
                )),
                forall|k: int| 0 <= k < i ==> ((#[trigger] out@[k]) matches Ok(c) ==> c@
                    == Self::of_json(items@[k]@)),
            decreases items.len() - i,
        {
            out.push(Self::decode(&items[i]));
            i = i + 1;
        }
        out
    }
}

/// Law: decoding an encoded container summary yields the record back.
pub proof fn lemma_container_round_trip(c: ContainerV)
    ensures
        Container::json_ok(Container::spec_encode(c)),
        Container::of_json(Container::spec_encode(c)) == c,
{
    reveal_strlit("Id");
    reveal_strlit("Image");
    reveal_strlit("Status");
    reveal_strlit("Command");
    reveal_strlit("Created");
    reveal_strlit("Names");
    reveal_strlit("Ports");
    reveal_strlit("SizeRW");
    reveal_strlit("SizeRootFs");
    reveal_strlit("Labels");
    reveal_strlit("HostConfig");
    assert("Id"@.len() == 2);
    assert("Image"@.len() == 5);
    assert("Status"@.len() == 6);
    assert("Command"@.len() == 7);
    assert("Created"@.len() == 7);
    assert("Names"@.len() == 5);
    assert("Ports"@.len() == 5);
    assert("SizeRW"@.len() == 6);
    assert("SizeRootFs"@.len() == 10);
    assert("Labels"@.len() == 6);
    assert("HostConfig"@.len() == 10);
    assert("Image"@[0] == 'I');
    assert("Names"@[0] == 'N');
    assert("Ports"@[0] == 'P');
    assert("Status"@[1] == 't');
    assert("SizeRW"@[1] == 'i');
    assert("Labels"@[0] == 'L');
    assert("Command"@[1] == 'o');
    assert("Created"@[1] == 'r');
    assert("SizeRootFs"@[0] == 'S');
    assert("HostConfig"@[0] == 'H');
    reveal_with_fuel(lookup, 12);
    let w = Container::spec_encode(c);
    assert(field_of(w, "Id"@) == Some(JsonV::Str(c.id)));
    assert(field_of(w, "Image"@) == Some(JsonV::Str(c.image)));
    assert(field_of(w, "Status"@) == Some(JsonV::Str(c.status)));
    assert(field_of(w, "Command"@) == Some(JsonV::Str(c.command)));
    assert(field_of(w, "Created"@) == Some(JsonV::Num(c.created as int)));
    assert(field_of(w, "Names"@) == Some(jv_strs(c.names)));
    assert(field_of(w, "Ports"@) == Some(jv_ports(c.ports)));
    assert(field_of(w, "SizeRW"@) == Some(jv_opt_u64(c.size_rw)));
    assert(field_of(w, "SizeRootFs"@) == Some(jv_opt_u64(c.size_root_fs)));
    assert(field_of(w, "Labels"@) == Some(jv_opt_str_map(c.labels)));
    assert(field_of(w, "HostConfig"@) == Some(HostConfig::spec_encode(c.host_config)));
    assert(str_arr_field(field_of(w, "Names"@)) =~~= c.names);
    let items = jv_ports(c.ports)->Arr_0;
    assert forall|i: int| 0 <= i < items.len() implies Port::json_ok(#[trigger] items[i]) by {
        lemma_port_round_trip(c.ports[i]);
    }
    assert(port_arr_field(field_of(w, "Ports"@)) =~~= c.ports) by {
        assert forall|i: int| 0 <= i < items.len() implies ports_of(items)[i] == c.ports[i] by {
            lemma_port_round_trip(c.ports[i]);
        }
    }
    if c.labels is Some {
        assert(opt_str_map_field(field_of(w, "Labels"@)) =~~= c.labels);
    }
    lemma_host_config_round_trip(c.host_config);
}

/// Law (unknown-field tolerance): a summary payload carrying one
/// extra field under an unrecognized name decodes exactly as the same
/// payload without it.
pub proof fn lemma_container_unknown_field_tolerance(
    fields: Seq<(Seq<char>, JsonV)>,
    extra: (Seq<char>, JsonV),
)
    requires
        extra.0 != "Id"@,
        extra.0 != "Image"@,
        extra.0 != "Status"@,
        extra.0 != "Command"@,
        extra.0 != "Created"@,
        extra.0 != "Names"@,
        extra.0 != "Ports"@,
        extra.0 != "SizeRW"@,
        extra.0 != "SizeRootFs"@,
        extra.0 != "Labels"@,
        extra.0 != "HostConfig"@,
    ensures
        Container::json_ok(JsonV::Obj(fields.push(extra))) == Container::json_ok(
            JsonV::Obj(fields),
        ),
        Container::of_json(JsonV::Obj(fields.push(extra))) == Container::of_json(
            JsonV::Obj(fields),
        ),
{
    crate::json::lemma_lookup_ignores_unknown(fields, extra, "Id"@);
    crate::json::lemma_lookup_ignores_unknown(fields, extra, "Image"@);
    crate::json::lemma_lookup_ignores_unknown(fields, extra, "Status"@);
    crate::json::lemma_lookup_ignores_unknown(fields, extra, "Command"@);
    crate::json::lemma_lookup_ignores_unknown(fields, extra, "Created"@);
    crate::json::lemma_lookup_ignores_unknown(fields, extra, "Names"@);
    crate::json::lemma_lookup_ignores_unknown(fields, extra, "Ports"@);
    crate::json::lemma_lookup_ignores_unknown(fields, extra, "SizeRW"@);
    crate::json::lemma_lookup_ignores_unknown(fields, extra, "SizeRootFs"@);
    crate::json::lemma_lookup_ignores_unknown(fields, extra, "Labels"@);
    crate::json::lemma_lookup_ignores_unknown(fields, extra, "HostConfig"@);
}

/// The mathematical value of a mount record.
pub struct MountV {
    pub source: Seq<char>,
    pub destination: Seq<char>,
    pub mode: Seq<char>,
    pub rw: bool,
    pub propogration: Seq<char>,
}

/// One bind or volume mount of an inspected container.
#[derive(Debug, Clone, PartialEq)]
pub struct Mount {
    pub source: String,
    pub destination: String,
    pub mode: String,
    pub rw: bool,
    pub propogration: String,
}

impl View for Mount {
    type V = MountV;

    open spec fn view(&self) -> MountV {
        MountV {
            source: self.source@,
            destination: self.destination@,
            mode: self.mode@,
            rw: self.rw,
            propogration: self.propogration@,
        }
    }
}

impl DeepView for Mount {
    type V = MountV;

    open spec fn deep_view(&self) -> MountV {
        self.view()
    }
}

impl Mount {
    /// The shape a mount record must have on the wire.
    pub open spec fn json_ok(v: JsonV) -> bool {
        &&& v is Obj
        &&& is_str_field(field_of(v, "Source"@))
        &&& is_str_field(field_of(v, "Destination"@))
        &&& is_str_field(field_of(v, "Mode"@))
        &&& is_bool_field(field_of(v, "RW"@))
        &&& is_str_field(field_of(v, "Propogration"@))
    }

    /// The record a well-shaped mount decodes to.
    pub open spec fn of_json(v: JsonV) -> MountV {
        MountV {
            source: str_field(field_of(v, "Source"@)),
            destination: str_field(field_of(v, "Destination"@)),
            mode: str_field(field_of(v, "Mode"@)),
            rw: bool_field(field_of(v, "RW"@)),
            propogration: str_field(field_of(v, "Propogration"@)),
        }
    }

    /// The tree a mount record encodes to.
    pub open spec fn spec_encode(m: MountV) -> JsonV {
        JsonV::Obj(
            seq![
                ("Source"@, JsonV::Str(m.source)),
                ("Destination"@, JsonV::Str(m.destination)),
                ("Mode"@, JsonV::Str(m.mode)),
                ("RW"@, JsonV::Bool(m.rw)),
                ("Propogration"@, JsonV::Str(m.propogration)),
            ],
        )
    }

    /// Decodes one mount record.
    pub fn decode(v: &Json) -> (r: Result<Self, SchemaError>)
        ensures
            r is Ok <==> Self::json_ok(v@),
            r matches Ok(m) ==> m@ == Self::of_json(v@),
    {
        let fields = match v {
            Json::Obj(fields) => fields,
            _ => {
                return Err(SchemaError);
            },
        };
        let source = get_str(fields, "Source")?;
        let destination = get_str(fields, "Destination")?;
        let mode = get_str(fields, "Mode")?;
        let rw = get_bool(fields, "RW")?;
        let propogration = get_str(fields, "Propogration")?;
        Ok(Mount { source, destination, mode, rw, propogration })
    }

    /// Encodes this mount record.
    pub fn to_json(&self) -> (r: Json)
        ensures
            r@ == Self::spec_encode(self@),
    {
        let fields: Vec<(String, Json)> = vec![
            ("Source".to_owned(), Json::Str(self.source.clone())),
            ("Destination".to_owned(), Json::Str(self.destination.clone())),
            ("Mode".to_owned(), Json::Str(self.mode.clone())),
            ("RW".to_owned(), Json::Bool(self.rw)),
            ("Propogration".to_owned(), Json::Str(self.propogration.clone())),
        ];
        let r = Json::Obj(fields);
        proof {
            lemma_json_field_views_index(fields@);
            assert(json_field_views(fields@) =~= Self::spec_encode(self@)->Obj_0);
        }
        r
    }
}

/// Law: decoding an encoded mount yields the record back.
pub proof fn lemma_mount_round_trip(m: MountV)
    ensures
        Mount::json_ok(Mount::spec_encode(m)),
        Mount::of_json(Mount::spec_encode(m)) == m,
{
    reveal_strlit("Source");
    reveal_strlit("Destination");
    reveal_strlit("Mode");
    reveal_strlit("RW");
    reveal_strlit("Propogration");
    assert("Source"@.len() == 6);
    assert("Destination"@.len() == 11);
    assert("Mode"@.len() == 4);
    assert("RW"@.len() == 2);
    assert("Propogration"@.len() == 12);
    reveal_with_fuel(lookup, 7);
    let w = Mount::spec_encode(m);
    assert(field_of(w, "Source"@) == Some(JsonV::Str(m.source)));
    assert(field_of(w, "Destination"@) == Some(JsonV::Str(m.destination)));
    assert(field_of(w, "Mode"@) == Some(JsonV::Str(m.mode)));
    assert(field_of(w, "RW"@) == Some(JsonV::Bool(m.rw)));
    assert(field_of(w, "Propogration"@) == Some(JsonV::Str(m.propogration)));
}

/// The mathematical value of a host-side port binding.
pub struct PortMappingV {
    pub host_ip: Seq<char>,
    pub host_port: Seq<char>,
}

/// The host-side binding of a published port.  The port is a string,
/// not a number: the engine may report ranges.
#[derive(Debug, Clone, PartialEq)]
pub struct PortMapping {
    pub host_ip: String,
    pub host_port: String,
}

impl View for PortMapping {
    type V = PortMappingV;

    open spec fn view(&self) -> PortMappingV {
        PortMappingV { host_ip: self.host_ip@, host_port: self.host_port@ }
    }
}

impl DeepView for PortMapping {
    type V = PortMappingV;

    open spec fn deep_view(&self) -> PortMappingV {
        self.view()
    }
}

impl PortMapping {
    /// The shape a port-binding record must have on the wire.
    pub open spec fn json_ok(v: JsonV) -> bool {
        &&& v is Obj
        &&& is_str_field(field_of(v, "HostIp"@))
        &&& is_str_field(field_of(v, "HostPort"@))
    }

    /// The record a well-shaped binding decodes to.
    pub open spec fn of_json(v: JsonV) -> PortMappingV {
        PortMappingV {
            host_ip: str_field(field_of(v, "HostIp"@)),
            host_port: str_field(field_of(v, "HostPort"@)),
        }
    }

    /// The tree a binding encodes to.
    pub open spec fn spec_encode(p: PortMappingV) -> JsonV {
        JsonV::Obj(
            seq![("HostIp"@, JsonV::Str(p.host_ip)), ("HostPort"@, JsonV::Str(p.host_port))],
        )
    }

    /// Decodes one port binding.
    pub fn decode(v: &Json) -> (r: Result<Self, SchemaError>)
        ensures
            r is Ok <==> Self::json_ok(v@),
            r matches Ok(p) ==> p@ == Self::of_json(v@),
    {
        let fields = match v {
            Json::Obj(fields) => fields,
            _ => {
                return Err(SchemaError);
            },
        };
        let host_ip = get_str(fields, "HostIp")?;
        let host_port = get_str(fields, "HostPort")?;
        Ok(PortMapping { host_ip, host_port })
    }

    /// Encodes this port binding.
    pub fn to_json(&self) -> (r: Json)
        ensures
            r@ == Self::spec_encode(self@),
    {
        let fields: Vec<(String, Json)> = vec![
            ("HostIp".to_owned(), Json::Str(self.host_ip.clone())),
            ("HostPort".to_owned(), Json::Str(self.host_port.clone())),
        ];
        let r = Json::Obj(fields);
        proof {
            lemma_json_field_views_index(fields@);
            assert(json_field_views(fields@) =~= Self::spec_encode(self@)->Obj_0);
        }
        r
    }
}

/// Law: decoding an encoded port binding yields the record back.
pub proof fn lemma_port_mapping_round_trip(p: PortMappingV)
    ensures
        PortMapping::json_ok(PortMapping::spec_encode(p)),
        PortMapping::of_json(PortMapping::spec_encode(p)) == p,
{
    reveal_strlit("HostIp");
    reveal_strlit("HostPort");
    assert("HostIp"@.len() == 6);
    assert("HostPort"@.len() == 8);
    reveal_with_fuel(lookup, 4);
    let w = PortMapping::spec_encode(p);
    assert(field_of(w, "HostIp"@) == Some(JsonV::Str(p.host_ip)));
    assert(field_of(w, "HostPort"@) == Some(JsonV::Str(p.host_port)));
}

/// The mathematical value of a lifecycle snapshot.
pub struct StateV {
    pub status: Seq<char>,
    pub running: bool,
    pub paused: bool,
    pub restarting: bool,
    pub oom_killed: bool,
    pub dead: bool,
    pub pid: i64,
    pub exit_code: i64,
    pub error: Seq<char>,
    pub started_at: Seq<char>,
    pub finished_at: Seq<char>,
}

/// The engine-reported lifecycle snapshot of an inspected container.
/// It may be stale relative to reality, and the upstream API does not
/// guarantee the lifecycle flags mutually exclusive, so no such
/// invariant is imposed here.  Timestamps are kept as opaque strings.
#[derive(Debug, Clone, PartialEq)]
pub struct State {
    pub status: String,
    pub running: bool,
    pub paused: bool,
    pub restarting: bool,
    pub oom_killed: bool,
    pub dead: bool,
    pub pid: i64,
    pub exit_code: i64,
    pub error: String,
    pub started_at: String,
    pub finished_at: String,
}

impl View for State {
    type V = StateV;

    open spec fn view(&self) -> StateV {
        StateV {
            status: self.status@,
            running: self.running,
            paused: self.paused,
            restarting: self.restarting,
            oom_killed: self.oom_killed,
            dead: self.dead,
            pid: self.pid,
            exit_code: self.exit_code,
            error: self.error@,
            started_at: self.started_at@,
            finished_at: self.finished_at@,
        }
    }
}

impl State {
    /// The shape a lifecycle snapshot must have on the wire.
    pub open spec fn json_ok(v: JsonV) -> bool {
        &&& v is Obj
        &&& is_str_field(field_of(v, "Status"@))
        &&& is_bool_field(field_of(v, "Running"@))
        &&& is_bool_field(field_of(v, "Paused"@))
        &&& is_bool_field(field_of(v, "Restarting"@))
        &&& is_bool_field(field_of(v, "OOMKilled"@))
        &&& is_bool_field(field_of(v, "Dead"@))
        &&& is_i64_field(field_of(v, "Pid"@))
        &&& is_i64_field(field_of(v, "ExitCode"@))
        &&& is_str_field(field_of(v, "Error"@))
        &&& is_str_field(field_of(v, "StartedAt"@))
        &&& is_str_field(field_of(v, "FinishedAt"@))
    }

    /// The record a well-shaped snapshot decodes to.
    pub open spec fn of_json(v: JsonV) -> StateV {
        StateV {
            status: str_field(field_of(v, "Status"@)),
            running: bool_field(field_of(v, "Running"@)),
            paused: bool_field(field_of(v, "Paused"@)),
            restarting: bool_field(field_of(v, "Restarting"@)),
            oom_killed: bool_field(field_of(v, "OOMKilled"@)),
            dead: bool_field(field_of(v, "Dead"@)),
            pid: i64_field(field_of(v, "Pid"@)),
            exit_code: i64_field(field_of(v, "ExitCode"@)),
            error: str_field(field_of(v, "Error"@)),
            started_at: str_field(field_of(v, "StartedAt"@)),
            finished_at: str_field(field_of(v, "FinishedAt"@)),
        }
    }

    /// The tree a lifecycle snapshot encodes to.
    pub open spec fn spec_encode(s: StateV) -> JsonV {
        JsonV::Obj(
            seq![
                ("Status"@, JsonV::Str(s.status)),
                ("Running"@, JsonV::Bool(s.running)),
                ("Paused"@, JsonV::Bool(s.paused)),
                ("Restarting"@, JsonV::Bool(s.restarting)),
                ("OOMKilled"@, JsonV::Bool(s.oom_killed)),
                ("Dead"@, JsonV::Bool(s.dead)),
                ("Pid"@, JsonV::Num(s.pid as int)),
                ("ExitCode"@, JsonV::Num(s.exit_code as int)),
                ("Error"@, JsonV::Str(s.error)),
                ("StartedAt"@, JsonV::Str(s.started_at)),
                ("FinishedAt"@, JsonV::Str(s.finished_at)),
            ],
        )
    }

    /// Decodes one lifecycle snapshot.
    pub fn decode(v: &Json) -> (r: Result<Self, SchemaError>)
        ensures
            r is Ok <==> Self::json_ok(v@),
            r matches Ok(s) ==> s@ == Self::of_json(v@),
    {
        let fields = match v {
            Json::Obj(fields) => fields,
            _ => {
                return Err(SchemaError);
            },
        };
        let status = get_str(fields, "Status")?;
        let running = get_bool(fields, "Running")?;
        let paused = get_bool(fields, "Paused")?;
        let restarting = get_bool(fields, "Restarting")?;
        let oom_killed = get_bool(fields, "OOMKilled")?;
        let dead = get_bool(fields, "Dead")?;
        let pid = get_i64(fields, "Pid")?;
        let exit_code = get_i64(fields, "ExitCode")?;
        let error = get_str(fields, "Error")?;
        let started_at = get_str(fields, "StartedAt")?;
        let finished_at = get_str(fields, "FinishedAt")?;
        Ok(
            State {
                status,
                running,
                paused,
                restarting,
                oom_killed,
                dead,
                pid,
                exit_code,
                error,
                started_at,
                finished_at,
            },
        )
    }

    /// Encodes this lifecycle snapshot.
    #[verifier::rlimit(50)]
    pub fn to_json(&self) -> (r: Json)
        ensures
            r@ == Self::spec_encode(self@),
    {
        let fields: Vec<(String, Json)> = vec![
            ("Status".to_owned(), Json::Str(self.status.clone())),
            ("Running".to_owned(), Json::Bool(self.running)),
            ("Paused".to_owned(), Json::Bool(self.paused)),
            ("Restarting".to_owned(), Json::Bool(self.restarting)),
            ("OOMKilled".to_owned(), Json::Bool(self.oom_killed)),
            ("Dead".to_owned(), Json::Bool(self.dead)),
            ("Pid".to_owned(), Json::Num(self.pid as i128)),
            ("ExitCode".to_owned(), Json::Num(self.exit_code as i128)),
            ("Error".to_owned(), Json::Str(self.error.clone())),
            ("StartedAt".to_owned(), Json::Str(self.started_at.clone())),
            ("FinishedAt".to_owned(), Json::Str(self.finished_at.clone())),
        ];
        let r = Json::Obj(fields);
        proof {
            lemma_json_field_views_index(fields@);
            assert(json_field_views(fields@) =~= Self::spec_encode(self@)->Obj_0);
        }
        r
    }
}

/// Law: decoding an encoded lifecycle snapshot yields the record back.
pub proof fn lemma_state_round_trip(s: StateV)
    ensures
        State::json_ok(State::spec_encode(s)),
        State::of_json(State::spec_encode(s)) == s,
{
    reveal_strlit("Status");
    reveal_strlit("Running");
    reveal_strlit("Paused");
    reveal_strlit("Restarting");
    reveal_strlit("OOMKilled");
    reveal_strlit("Dead");
    reveal_strlit("Pid");
    reveal_strlit("ExitCode");
    reveal_strlit("Error");
    reveal_strlit("StartedAt");
    reveal_strlit("FinishedAt");
    assert("Status"@.len() == 6);
    assert("Running"@.len() == 7);
    assert("Paused"@.len() == 6);
    assert("Restarting"@.len() == 10);
    assert("OOMKilled"@.len() == 9);
    assert("Dead"@.len() == 4);
    assert("Pid"@.len() == 3);
    assert("ExitCode"@.len() == 8);
    assert("Error"@.len() == 5);
    assert("StartedAt"@.len() == 9);
    assert("FinishedAt"@.len() == 10);
    assert("Status"@[0] == 'S');
    assert("Paused"@[0] == 'P');
    assert("OOMKilled"@[0] == 'O');
    assert("StartedAt"@[0] == 'S');
    assert("Restarting"@[0] == 'R');
    assert("FinishedAt"@[0] == 'F');
    reveal_with_fuel(lookup, 12);
    let w = State::spec_encode(s);
    assert(field_of(w, "Status"@) == Some(JsonV::Str(s.status)));
    assert(field_of(w, "Running"@) == Some(JsonV::Bool(s.running)));
    assert(field_of(w, "Paused"@) == Some(JsonV::Bool(s.paused)));
    assert(field_of(w, "Restarting"@) == Some(JsonV::Bool(s.restarting)));
    assert(field_of(w, "OOMKilled"@) == Some(JsonV::Bool(s.oom_killed)));
    assert(field_of(w, "Dead"@) == Some(JsonV::Bool(s.dead)));
    assert(field_of(w, "Pid"@) == Some(JsonV::Num(s.pid as int)));
    assert(field_of(w, "ExitCode"@) == Some(JsonV::Num(s.exit_code as int)));
    assert(field_of(w, "Error"@) == Some(JsonV::Str(s.error)));
    assert(field_of(w, "StartedAt"@) == Some(JsonV::Str(s.started_at)));
    assert(field_of(w, "FinishedAt"@) == Some(JsonV::Str(s.finished_at)));
}

/// The mathematical value of a per-network record.
pub struct NetworkV {
    pub aliases: Option<Seq<Seq<char>>>,
    pub endpoint_id: Seq<char>,
    pub gateway: Seq<char>,
    pub global_ipv6_address: Seq<char>,
    pub global_ipv6_prefix_len: u32,
    pub ip_address: Seq<char>,
    pub ip_prefix_len: u32,
    pub ipv6_gateway: Seq<char>,
    pub mac_address: Seq<char>,
    pub network_id: Seq<char>,
}

/// Per-network addressing state of a container.  An empty string
/// stands for "not assigned", never `null`.
#[derive(Debug, Clone, PartialEq)]
pub struct Network {
    pub aliases: Option<Vec<String>>,
    pub endpoint_id: String,
    pub gateway: String,
    pub global_ipv6_address: String,
    pub global_ipv6_prefix_len: u32,
    pub ip_address: String,
    pub ip_prefix_len: u32,
    pub ipv6_gateway: String,
    pub mac_address: String,
    pub network_id: String,
}

impl View for Network {
    type V = NetworkV;

    open spec fn view(&self) -> NetworkV {
        NetworkV {
            aliases: self.aliases.deep_view(),
            endpoint_id: self.endpoint_id@,
            gateway: self.gateway@,
            global_ipv6_address: self.global_ipv6_address@,
            global_ipv6_prefix_len: self.global_ipv6_prefix_len,
            ip_address: self.ip_address@,
            ip_prefix_len: self.ip_prefix_len,
            ipv6_gateway: self.ipv6_gateway@,
            mac_address: self.mac_address@,
            network_id: self.network_id@,
        }
    }
}

impl DeepView for Network {
    type V = NetworkV;

    open spec fn deep_view(&self) -> NetworkV {
        self.view()
    }
}

impl Network {
    /// The shape a per-network record must have on the wire.
    pub open spec fn json_ok(v: JsonV) -> bool {
        &&& v is Obj
        &&& is_opt_str_arr_field(field_of(v, "Aliases"@))
        &&& is_str_field(field_of(v, "EndpointID"@))
        &&& is_str_field(field_of(v, "Gateway"@))
        &&& is_str_field(field_of(v, "GlobalIPv6Address"@))
        &&& is_u32_field(field_of(v, "GlobalIPv6PrefixLen"@))
        &&& is_str_field(field_of(v, "IPAddress"@))
        &&& is_u32_field(field_of(v, "IPPrefixLen"@))
        &&& is_str_field(field_of(v, "IPv6Gateway"@))
        &&& is_str_field(field_of(v, "MacAddress"@))
        &&& is_str_field(field_of(v, "NetworkID"@))
    }

    /// The record a well-shaped per-network record decodes to.
    pub open spec fn of_json(v: JsonV) -> NetworkV {
        NetworkV {
            aliases: opt_str_arr_field(field_of(v, "Aliases"@)),
            endpoint_id: str_field(field_of(v, "EndpointID"@)),
            gateway: str_field(field_of(v, "Gateway"@)),
            global_ipv6_address: str_field(field_of(v, "GlobalIPv6Address"@)),
            global_ipv6_prefix_len: u32_field(field_of(v, "GlobalIPv6PrefixLen"@)),
            ip_address: str_field(field_of(v, "IPAddress"@)),
            ip_prefix_len: u32_field(field_of(v, "IPPrefixLen"@)),
            ipv6_gateway: str_field(field_of(v, "IPv6Gateway"@)),
            mac_address: str_field(field_of(v, "MacAddress"@)),
            network_id: str_field(field_of(v, "NetworkID"@)),
        }
    }

    /// The tree a per-network record encodes to.
    pub open spec fn spec_encode(n: NetworkV) -> JsonV {
        JsonV::Obj(
            seq![
                ("Aliases"@, jv_opt_strs(n.aliases)),
                ("EndpointID"@, JsonV::Str(n.endpoint_id)),
                ("Gateway"@, JsonV::Str(n.gateway)),
                ("GlobalIPv6Address"@, JsonV::Str(n.global_ipv6_address)),
                ("GlobalIPv6PrefixLen"@, JsonV::Num(n.global_ipv6_prefix_len as int)),
                ("IPAddress"@, JsonV::Str(n.ip_address)),
                ("IPPrefixLen"@, JsonV::Num(n.ip_prefix_len as int)),
                ("IPv6Gateway"@, JsonV::Str(n.ipv6_gateway)),
                ("MacAddress"@, JsonV::Str(n.mac_address)),
                ("NetworkID"@, JsonV::Str(n.network_id)),
            ],
        )
    }

    /// Decodes one per-network record.
    pub fn decode(v: &Json) -> (r: Result<Self, SchemaError>)
        ensures
            r is Ok <==> Self::json_ok(v@),
            r matches Ok(n) ==> n@ == Self::of_json(v@),
    {
        let fields = match v {
            Json::Obj(fields) => fields,
            _ => {
                return Err(SchemaError);
            },
        };
        let aliases = get_opt_str_arr(fields, "Aliases")?;
        let endpoint_id = get_str(fields, "EndpointID")?;
        let gateway = get_str(fields, "Gateway")?;
        let global_ipv6_address = get_str(fields, "GlobalIPv6Address")?;
        let global_ipv6_prefix_len = get_u32(fields, "GlobalIPv6PrefixLen")?;
        let ip_address = get_str(fields, "IPAddress")?;
        let ip_prefix_len = get_u32(fields, "IPPrefixLen")?;
        let ipv6_gateway = get_str(fields, "IPv6Gateway")?;
        let mac_address = get_str(fields, "MacAddress")?;
        let network_id = get_str(fields, "NetworkID")?;
        Ok(
            Network {
                aliases,
                endpoint_id,
                gateway,
                global_ipv6_address,
                global_ipv6_prefix_len,
                ip_address,
                ip_prefix_len,
                ipv6_gateway,
                mac_address,
                network_id,
            },
        )
    }

    /// Encodes this per-network record.
    #[verifier::rlimit(50)]
    pub fn to_json(&self) -> (r: Json)
        ensures
            r@ == Self::spec_encode(self@),
    {
        let fields: Vec<(String, Json)> = vec![
            ("Aliases".to_owned(), mk_opt_strs_json(&self.aliases)),
            ("EndpointID".to_owned(), Json::Str(self.endpoint_id.clone())),
            ("Gateway".to_owned(), Json::Str(self.gateway.clone())),
            ("GlobalIPv6Address".to_owned(), Json::Str(self.global_ipv6_address.clone())),
            ("GlobalIPv6PrefixLen".to_owned(), Json::Num(self.global_ipv6_prefix_len as i128)),
            ("IPAddress".to_owned(), Json::Str(self.ip_address.clone())),
            ("IPPrefixLen".to_owned(), Json::Num(self.ip_prefix_len as i128)),
            ("IPv6Gateway".to_owned(), Json::Str(self.ipv6_gateway.clone())),
            ("MacAddress".to_owned(), Json::Str(self.mac_address.clone())),
            ("NetworkID".to_owned(), Json::Str(self.network_id.clone())),
        ];
        let r = Json::Obj(fields);
        proof {
            lemma_json_field_views_index(fields@);
            assert(json_field_views(fields@) =~= Self::spec_encode(self@)->Obj_0);
        }
        r
    }
}

/// Law: decoding an encoded per-network record yields the record back.
pub proof fn lemma_network_round_trip(n: NetworkV)
    ensures
        Network::json_ok(Network::spec_encode(n)),
        Network::of_json(Network::spec_encode(n)) == n,
{
    reveal_strlit("Aliases");
    reveal_strlit("EndpointID");
    reveal_strlit("Gateway");
    reveal_strlit("GlobalIPv6Address");
    reveal_strlit("GlobalIPv6PrefixLen");
    reveal_strlit("IPAddress");
    reveal_strlit("IPPrefixLen");
    reveal_strlit("IPv6Gateway");
    reveal_strlit("MacAddress");
    reveal_strlit("NetworkID");
    assert("Aliases"@.len() == 7);
    assert("EndpointID"@.len() == 10);
    assert("Gateway"@.len() == 7);
    assert("GlobalIPv6Address"@.len() == 17);
    assert("GlobalIPv6PrefixLen"@.len() == 19);
    assert("IPAddress"@.len() == 9);
    assert("IPPrefixLen"@.len() == 11);
    assert("IPv6Gateway"@.len() == 11);
    assert("MacAddress"@.len() == 10);
    assert("NetworkID"@.len() == 9);
    assert("Aliases"@[0] == 'A');
    assert("Gateway"@[0] == 'G');
    assert("EndpointID"@[0] == 'E');
    assert("MacAddress"@[0] == 'M');
    assert("IPAddress"@[0] == 'I');
    assert("NetworkID"@[0] == 'N');
    assert("IPPrefixLen"@[2] == 'P');
    assert("IPv6Gateway"@[2] == 'v');
    reveal_with_fuel(lookup, 11);
    let w = Network::spec_encode(n);
    assert(field_of(w, "Aliases"@) == Some(jv_opt_strs(n.aliases)));
    assert(field_of(w, "EndpointID"@) == Some(JsonV::Str(n.endpoint_id)));
    assert(field_of(w, "Gateway"@) == Some(JsonV::Str(n.gateway)));
    assert(field_of(w, "GlobalIPv6Address"@) == Some(JsonV::Str(n.global_ipv6_address)));
    assert(field_of(w, "GlobalIPv6PrefixLen"@) == Some(
        JsonV::Num(n.global_ipv6_prefix_len as int),
    ));
    assert(field_of(w, "IPAddress"@) == Some(JsonV::Str(n.ip_address)));
    assert(field_of(w, "IPPrefixLen"@) == Some(JsonV::Num(n.ip_prefix_len as int)));
    assert(field_of(w, "IPv6Gateway"@) == Some(JsonV::Str(n.ipv6_gateway)));
    assert(field_of(w, "MacAddress"@) == Some(JsonV::Str(n.mac_address)));
    assert(field_of(w, "NetworkID"@) == Some(JsonV::Str(n.network_id)));
    if n.aliases is Some {
        crate::json::lemma_jv_strs_round(n.aliases->0);
    }
}

/// An object whose values are all well-shaped per-network records.
pub open spec fn networks_ok(fs: Seq<(Seq<char>, JsonV)>) -> bool {
    forall|i: int| 0 <= i < fs.len() ==> Network::json_ok((#[trigger] fs[i]).1)
}

/// The name-to-network map such an object decodes to.
pub open spec fn networks_of(fs: Seq<(Seq<char>, JsonV)>) -> Seq<(Seq<char>, NetworkV)> {
    fs.map_values(|f: (Seq<char>, JsonV)| (f.0, Network::of_json(f.1)))
}

/// The tree a name-to-network map encodes to.
pub open spec fn jv_networks(ns: Seq<(Seq<char>, NetworkV)>) -> JsonV {
    JsonV::Obj(ns.map_values(|n: (Seq<char>, NetworkV)| (n.0, Network::spec_encode(n.1))))
}

/// A required field holding a name-to-network map.
pub open spec fn is_network_map_field(o: Option<JsonV>) -> bool {
    o matches Some(JsonV::Obj(fs)) && networks_ok(fs)
}

pub open spec fn network_map_field(o: Option<JsonV>) -> Seq<(Seq<char>, NetworkV)> {
    networks_of(o->0->Obj_0)
}

/// Reads a required name-to-network map field, decoding each value.
fn get_network_map(fields: &Vec<(String, Json)>, name: &str) -> (r: Result<
    Vec<(String, Network)>,
    SchemaError,
>)
    ensures
        r is Ok <==> is_network_map_field(lookup(json_field_views(fields@), name@)),
        r matches Ok(out) ==> out.deep_view() == network_map_field(
            lookup(json_field_views(fields@), name@),
        ),
{
    let inner = match crate::json::obj_get(fields, name) {
        Some(j) => match j {
            Json::Obj(inner) => inner,
            _ => {
                return Err(SchemaError);
            },
        },
        None => {
            return Err(SchemaError);
        },
    };
    proof {
        lemma_json_field_views_index(inner@);
    }
    let mut out: Vec<(String, Network)> = Vec::new();
    let mut i: usize = 0;
    while i < inner.len()
        invariant
            lookup(json_field_views(fields@), name@) == Some(
                JsonV::Obj(json_field_views(inner@)),
            ),
            i <= inner.len(),
            out@.len() == i,
            json_field_views(inner@).len() == inner@.len(),
            forall|k: int| 0 <= k < inner@.len() ==> json_field_views(inner@)[k]
                == ((#[trigger] inner@[k]).0@, json_view(inner@[k].1)),
            forall|k: int| 0 <= k < i ==> Network::json_ok(
                (#[trigger] json_field_views(inner@)[k]).1,
            ),
            forall|k: int| 0 <= k < i ==> (#[trigger] out@[k]).0@ == json_field_views(
                inner@,
            )[k].0 && out@[k].1@ == Network::of_json(json_field_views(inner@)[k].1),
        decreases inner.len() - i,
    {
        match Network::decode(&inner[i].1) {
            Ok(n) => out.push((inner[i].0.clone(), n)),
            Err(e) => {
                proof {
                    assert(!Network::json_ok(json_field_views(inner@)[i as int].1));
                }
                return Err(e);
            },
        }
        i = i + 1;
    }
    proof {
        let target = networks_of(json_field_views(inner@));
        assert forall|k: int| 0 <= k < out@.len() implies out.deep_view()[k] == target[k] by {
            assert(out.deep_view()[k] == (out@[k].0@, out@[k].1@));
            assert(target[k] == (
                json_field_views(inner@)[k].0,
                Network::of_json(json_field_views(inner@)[k].1),
            ));
        }
        assert(out.deep_view() =~= target);
    }
    Ok(out)
}

/// Encodes a name-to-network map.
fn mk_networks_json(networks: &Vec<(String, Network)>) -> (r: Json)
    ensures
        r@ == jv_networks(networks.deep_view()),
{
    let mut out: Vec<(String, Json)> = Vec::new();
    let mut i: usize = 0;
    while i < networks.len()
        invariant
            i <= networks.len(),
            out@.len() == i,
            forall|k: int| 0 <= k < i ==> (#[trigger] out@[k]).0@ == networks@[k].0@
                && out@[k].1@ == Network::spec_encode(networks@[k].1@),
        decreases networks.len() - i,
    {
        out.push((networks[i].0.clone(), networks[i].1.to_json()));
        i = i + 1;
    }
    let r = Json::Obj(out);
    proof {
        lemma_json_field_views_index(out@);
        let target = networks.deep_view().map_values(
            |n: (Seq<char>, NetworkV)| (n.0, Network::spec_encode(n.1)),
        );
        assert forall|k: int| 0 <= k < out@.len() implies json_field_views(out@)[k]
            == target[k] by {
            assert(json_field_views(out@)[k] == (out@[k].0@, json_view(out@[k].1)));
            assert(networks.deep_view()[k] == (networks@[k].0@, networks@[k].1@));
        }
        assert(json_field_views(out@) =~= target);
    }
    r
}

/// An array whose items are all well-shaped port bindings.
pub open spec fn pms_ok(items: Seq<JsonV>) -> bool {
    forall|i: int| 0 <= i < items.len() ==> PortMapping::json_ok(#[trigger] items[i])
}

/// The bindings such an array decodes to.
pub open spec fn pms_of(items: Seq<JsonV>) -> Seq<PortMappingV> {
    items.map_values(|j: JsonV| PortMapping::of_json(j))
}

/// The tree a binding list encodes to.
pub open spec fn jv_pms(ps: Seq<PortMappingV>) -> JsonV {
    JsonV::Arr(ps.map_values(|p: PortMappingV| PortMapping::spec_encode(p)))
}

/// A published-port map value: `null`, or an array of bindings.
pub open spec fn is_opt_pm_arr(j: JsonV) -> bool {
    ||| j is Null
    ||| (j matches JsonV::Arr(items) && pms_ok(items))
}

pub open spec fn opt_pm_arr(j: JsonV) -> Option<Seq<PortMappingV>> {
    if j matches JsonV::Arr(items) && pms_ok(items) {
        Some(pms_of(j->Arr_0))
    } else {
        None
    }
}

/// An optional published-port map: port spec to bindings, where a
/// port published without host bindings carries `null`.
pub open spec fn is_opt_pm_map_field(o: Option<JsonV>) -> bool {
    ||| o is None
    ||| o == Some(JsonV::Null)
    ||| (o matches Some(JsonV::Obj(fs)) && forall|i: int|
        0 <= i < fs.len() ==> is_opt_pm_arr((#[trigger] fs[i]).1))
}

pub open spec fn opt_pm_map_field(o: Option<JsonV>) -> Option<
    Seq<(Seq<char>, Option<Seq<PortMappingV>>)>,
> {
    if o matches Some(JsonV::Obj(fs)) && (forall|i: int|
        0 <= i < fs.len() ==> is_opt_pm_arr((#[trigger] fs[i]).1)) {
        Some((o->0->Obj_0).map_values(|f: (Seq<char>, JsonV)| (f.0, opt_pm_arr(f.1))))
    } else {
        None
    }
}

/// The encoding of one published-port map value.
pub open spec fn jv_opt_pms(o: Option<Seq<PortMappingV>>) -> JsonV {
    match o {
        Some(ps) => jv_pms(ps),
        None => JsonV::Null,
    }
}

/// The encoding of an optional published-port map: `null` when absent.
pub open spec fn jv_opt_pm_map(o: Option<Seq<(Seq<char>, Option<Seq<PortMappingV>>)>>) -> JsonV {
    match o {
        Some(ps) => JsonV::Obj(
            ps.map_values(|p: (Seq<char>, Option<Seq<PortMappingV>>)| (p.0, jv_opt_pms(p.1))),
        ),
        None => JsonV::Null,
    }
}

/// An encoded binding list reads back as itself.
pub proof fn lemma_jv_opt_pms_round(o: Option<Seq<PortMappingV>>)
    ensures
        is_opt_pm_arr(jv_opt_pms(o)),
        opt_pm_arr(jv_opt_pms(o)) == o,
{
    if o is Some {
        let ps = o->0;
        let items = ps.map_values(|p: PortMappingV| PortMapping::spec_encode(p));
        assert forall|i: int| 0 <= i < items.len() implies PortMapping::json_ok(
            #[trigger] items[i],
        ) by {
            lemma_port_mapping_round_trip(ps[i]);
        }
        assert forall|i: int| 0 <= i < ps.len() implies pms_of(items)[i] == ps[i] by {
            lemma_port_mapping_round_trip(ps[i]);
        }
        assert(pms_of(items) =~= ps);
    }
}

/// Reads an optional published-port map field.
fn get_opt_pm_map(fields: &Vec<(String, Json)>, name: &str) -> (r: Result<
    Option<Vec<(String, Option<Vec<PortMapping>>)>>,
    SchemaError,
>)
    ensures
        r is Ok <==> is_opt_pm_map_field(lookup(json_field_views(fields@), name@)),
        r matches Ok(m) ==> m.deep_view() == opt_pm_map_field(
            lookup(json_field_views(fields@), name@),
        ),
{
    let inner = match crate::json::obj_get(fields, name) {
        None => {
            return Ok(None);
        },
        Some(j) => match j {
            Json::Null => {
                return Ok(None);
            },
            Json::Obj(inner) => inner,
            _ => {
                return Err(SchemaError);
            },
        },
    };
    proof {
        lemma_json_field_views_index(inner@);
    }
    let mut out: Vec<(String, Option<Vec<PortMapping>>)> = Vec::new();
    let mut i: usize = 0;
    while i < inner.len()
        invariant
            lookup(json_field_views(fields@), name@) == Some(
                JsonV::Obj(json_field_views(inner@)),
            ),
            i <= inner.len(),
            out@.len() == i,
            json_field_views(inner@).len() == inner@.len(),
            forall|k: int| 0 <= k < inner@.len() ==> json_field_views(inner@)[k]
                == ((#[trigger] inner@[k]).0@, json_view(inner@[k].1)),
            forall|k: int| 0 <= k < i ==> is_opt_pm_arr(
                (#[trigger] json_field_views(inner@)[k]).1,
            ),
            forall|k: int| 0 <= k < i ==> (#[trigger] out@[k]).0@ == json_field_views(
                inner@,
            )[k].0 && out@[k].1.deep_view() == opt_pm_arr(json_field_views(inner@)[k].1),
        decreases inner.len() - i,
    {
        let val: Option<Vec<PortMapping>> = match &inner[i].1 {
            Json::Null => None,
            Json::Arr(items) => {
                proof {
                    lemma_json_views_index(items@);
                }
                let mut pms: Vec<PortMapping> = Vec::new();
                let mut k: usize = 0;
                while k < items.len()
                    invariant
                        lookup(json_field_views(fields@), name@) == Some(
                            JsonV::Obj(json_field_views(inner@)),
                        ),
                        json_view(inner@[i as int].1) == JsonV::Arr(json_views(items@)),
                        i < inner@.len(),
                        json_field_views(inner@).len() == inner@.len(),
                        forall|k2: int| 0 <= k2 < inner@.len() ==> json_field_views(inner@)[k2]
                            == ((#[trigger] inner@[k2]).0@, json_view(inner@[k2].1)),
                        k <= items.len(),
                        pms@.len() == k,
                        json_views(items@).len() == items@.len(),
                        forall|k2: int| 0 <= k2 < items@.len() ==> json_views(items@)[k2]
                            == json_view(#[trigger] items@[k2]),
                        forall|k2: int| 0 <= k2 < k ==> PortMapping::json_ok(
                            #[trigger] json_views(items@)[k2],
                        ),
                        forall|k2: int| 0 <= k2 < k ==> (#[trigger] pms@[k2])@
                            == PortMapping::of_json(json_views(items@)[k2]),
                    decreases items.len() - k,
                {
                    match PortMapping::decode(&items[k]) {
                        Ok(p) => pms.push(p),
                        Err(e) => {
                            proof {
                                assert(!PortMapping::json_ok(json_views(items@)[k as int]));
                                assert(!is_opt_pm_arr(json_field_views(inner@)[i as int].1));
                            }
                            return Err(e);
                        },
                    }
                    k = k + 1;
                }
                proof {
                    assert(pms.deep_view() =~= pms_of(json_views(items@)));
                }
                Some(pms)
            },
            _ => {
                proof {
                    assert(!is_opt_pm_arr(json_field_views(inner@)[i as int].1));
                }
                return Err(SchemaError);
            },
        };
        out.push((inner[i].0.clone(), val));
        i = i + 1;
    }
    proof {
        let fs = json_field_views(inner@);
        let target = fs.map_values(|f: (Seq<char>, JsonV)| (f.0, opt_pm_arr(f.1)));
        assert forall|k: int| 0 <= k < out@.len() implies out.deep_view()[k] == target[k] by {
            assert(out.deep_view()[k] == (out@[k].0@, out@[k].1.deep_view()));
        }
        assert(out.deep_view() =~= target);
    }
    Ok(Some(out))
}

/// Encodes an optional published-port map.
fn mk_opt_pm_map_json(o: &Option<Vec<(String, Option<Vec<PortMapping>>)>>) -> (r: Json)
    ensures
        r@ == jv_opt_pm_map(o.deep_view()),
{
    let pairs = match o {
        Some(pairs) => pairs,
        None => {
            return Json::Null;
        },
    };
    let mut out: Vec<(String, Json)> = Vec::new();
    let mut i: usize = 0;
    while i < pairs.len()
        invariant
            i <= pairs.len(),
            out@.len() == i,
            forall|k: int| 0 <= k < i ==> (#[trigger] out@[k]).0@ == pairs@[k].0@ && out@[k].1@
                == jv_opt_pms(pairs@[k].1.deep_view()),
        decreases pairs.len() - i,
    {
        let val: Json = match &pairs[i].1 {
            Some(pms) => {
                let mut items: Vec<Json> = Vec::new();
                let mut k: usize = 0;
                while k < pms.len()
                    invariant
                        k <= pms.len(),
                        items@.len() == k,
                        forall|k2: int| 0 <= k2 < k ==> (#[trigger] items@[k2])@
                            == PortMapping::spec_encode(pms@[k2]@),
                    decreases pms.len() - k,
                {
                    items.push(pms[k].to_json());
                    k = k + 1;
                }
                let val = Json::Arr(items);
                proof {
                    lemma_json_views_index(items@);
                    let target = pms.deep_view().map_values(
                        |p: PortMappingV| PortMapping::spec_encode(p),
                    );
                    assert forall|k2: int| 0 <= k2 < items@.len() implies json_views(
                        items@,
                    )[k2] == target[k2] by {
                        assert(json_views(items@)[k2] == json_view(items@[k2]));
                        assert(pms.deep_view()[k2] == pms@[k2]@);
                    }
                    assert(json_views(items@) =~= target);
                }
                val
            },
            None => Json::Null,
        };
        out.push((pairs[i].0.clone(), val));
        i = i + 1;
    }
    let r = Json::Obj(out);
    proof {
        lemma_json_field_views_index(out@);
        let target = pairs.deep_view().map_values(
            |p: (Seq<char>, Option<Seq<PortMappingV>>)| (p.0, jv_opt_pms(p.1)),
        );
        assert forall|k: int| 0 <= k < out@.len() implies json_field_views(out@)[k]
            == target[k] by {
            assert(json_field_views(out@)[k] == (out@[k].0@, json_view(out@[k].1)));
            assert(pairs.deep_view()[k] == (pairs@[k].0@, pairs@[k].1.deep_view()));
        }
        assert(json_field_views(out@) =~= target);
    }
    r
}

/// An encoded published-port map reads back as itself.
pub proof fn lemma_jv_opt_pm_map_round(o: Option<Seq<(Seq<char>, Option<Seq<PortMappingV>>)>>)
    ensures
        is_opt_pm_map_field(Some(jv_opt_pm_map(o))),
        opt_pm_map_field(Some(jv_opt_pm_map(o))) == o,
{
    if o is Some {
        let ps = o->0;
        let m = ps.map_values(|p: (Seq<char>, Option<Seq<PortMappingV>>)| (p.0, jv_opt_pms(p.1)));
        assert forall|i: int| 0 <= i < m.len() implies is_opt_pm_arr((#[trigger] m[i]).1) by {
            lemma_jv_opt_pms_round(ps[i].1);
        }
        let back = m.map_values(|f: (Seq<char>, JsonV)| (f.0, opt_pm_arr(f.1)));
        assert forall|i: int| 0 <= i < ps.len() implies back[i] == ps[i] by {
            lemma_jv_opt_pms_round(ps[i].1);
        }
        assert(back =~= ps);
    }
}

/// The mathematical value of a network-settings record.
pub struct NetworkSettingsV {
    pub bridge: Seq<char>,
    pub endpoint_id: Seq<char>,
    pub gateway: Seq<char>,
    pub global_ipv6_address: Seq<char>,
    pub global_ipv6_prefix_len: u32,
    pub hairpin_mode: bool,
    pub ip_address: Seq<char>,
    pub ip_prefix_len: u32,
    pub ipv6_gateway: Seq<char>,
    pub link_local_ipv6_address: Seq<char>,
    pub link_local_ipv6_prefix_len: u32,
    pub mac_address: Seq<char>,
    pub networks: Seq<(Seq<char>, NetworkV)>,
    pub ports: Option<Seq<(Seq<char>, Option<Seq<PortMappingV>>)>>,
    pub sandbox_id: Seq<char>,
    pub sandbox_key: Seq<char>,
}

/// The container-wide addressing state of an inspected container.
/// Network names in `networks` are unique on the wire; an empty
/// string stands for "not assigned", never `null`.
#[derive(Debug, Clone, PartialEq)]
pub struct NetworkSettings {
    pub bridge: String,
    pub endpoint_id: String,
    pub gateway: String,
    pub global_ipv6_address: String,
    pub global_ipv6_prefix_len: u32,
    pub hairpin_mode: bool,
    pub ip_address: String,
    pub ip_prefix_len: u32,
    pub ipv6_gateway: String,
    pub link_local_ipv6_address: String,
    pub link_local_ipv6_prefix_len: u32,
    pub mac_address: String,
    pub networks: Vec<(String, Network)>,
    pub ports: Option<Vec<(String, Option<Vec<PortMapping>>)>>,
    pub sandbox_id: String,
    pub sandbox_key: String,
}

impl View for NetworkSettings {
    type V = NetworkSettingsV;

    open spec fn view(&self) -> NetworkSettingsV {
        NetworkSettingsV {
            bridge: self.bridge@,
            endpoint_id: self.endpoint_id@,
            gateway: self.gateway@,
            global_ipv6_address: self.global_ipv6_address@,
            global_ipv6_prefix_len: self.global_ipv6_prefix_len,
            hairpin_mode: self.hairpin_mode,
            ip_address: self.ip_address@,
            ip_prefix_len: self.ip_prefix_len,
            ipv6_gateway: self.ipv6_gateway@,
            link_local_ipv6_address: self.link_local_ipv6_address@,
            link_local_ipv6_prefix_len: self.link_local_ipv6_prefix_len,
            mac_address: self.mac_address@,
            networks: self.networks.deep_view(),
            ports: self.ports.deep_view(),
            sandbox_id: self.sandbox_id@,
            sandbox_key: self.sandbox_key@,
        }
    }
}

impl NetworkSettings {
    /// The shape a network-settings record must have on the wire.
    pub open spec fn json_ok(v: JsonV) -> bool {
        &&& v is Obj
        &&& is_str_field(field_of(v, "Bridge"@))
        &&& is_str_field(field_of(v, "EndpointID"@))
        &&& is_str_field(field_of(v, "Gateway"@))
        &&& is_str_field(field_of(v, "GlobalIPv6Address"@))
        &&& is_u32_field(field_of(v, "GlobalIPv6PrefixLen"@))
        &&& is_bool_field(field_of(v, "HairpinMode"@))
        &&& is_str_field(field_of(v, "IPAddress"@))
        &&& is_u32_field(field_of(v, "IPPrefixLen"@))
        &&& is_str_field(field_of(v, "IPv6Gateway"@))
        &&& is_str_field(field_of(v, "LinkLocalIPv6Address"@))
        &&& is_u32_field(field_of(v, "LinkLocalIPv6PrefixLen"@))
        &&& is_str_field(field_of(v, "MacAddress"@))
        &&& is_network_map_field(field_of(v, "Networks"@))
        &&& is_opt_pm_map_field(field_of(v, "Ports"@))
        &&& is_str_field(field_of(v, "SandboxID"@))
        &&& is_str_field(field_of(v, "SandboxKey"@))
    }

    /// The record a well-shaped network-settings object decodes to.
    pub open spec fn of_json(v: JsonV) -> NetworkSettingsV {
        NetworkSettingsV {
            bridge: str_field(field_of(v, "Bridge"@)),
            endpoint_id: str_field(field_of(v, "EndpointID"@)),
            gateway: str_field(field_of(v, "Gateway"@)),
            global_ipv6_address: str_field(field_of(v, "GlobalIPv6Address"@)),
            global_ipv6_prefix_len: u32_field(field_of(v, "GlobalIPv6PrefixLen"@)),
            hairpin_mode: bool_field(field_of(v, "HairpinMode"@)),
            ip_address: str_field(field_of(v, "IPAddress"@)),
            ip_prefix_len: u32_field(field_of(v, "IPPrefixLen"@)),
            ipv6_gateway: str_field(field_of(v, "IPv6Gateway"@)),
            link_local_ipv6_address: str_field(field_of(v, "LinkLocalIPv6Address"@)),
            link_local_ipv6_prefix_len: u32_field(field_of(v, "LinkLocalIPv6PrefixLen"@)),
            mac_address: str_field(field_of(v, "MacAddress"@)),
            networks: network_map_field(field_of(v, "Networks"@)),
            ports: opt_pm_map_field(field_of(v, "Ports"@)),
            sandbox_id: str_field(field_of(v, "SandboxID"@)),
            sandbox_key: str_field(field_of(v, "SandboxKey"@)),
        }
    }

    /// The tree a network-settings record encodes to.
    pub open spec fn spec_encode(n: NetworkSettingsV) -> JsonV {
        JsonV::Obj(
            seq![
                ("Bridge"@, JsonV::Str(n.bridge)),
                ("EndpointID"@, JsonV::Str(n.endpoint_id)),
                ("Gateway"@, JsonV::Str(n.gateway)),
                ("GlobalIPv6Address"@, JsonV::Str(n.global_ipv6_address)),
                ("GlobalIPv6PrefixLen"@, JsonV::Num(n.global_ipv6_prefix_len as int)),
                ("HairpinMode"@, JsonV::Bool(n.hairpin_mode)),
                ("IPAddress"@, JsonV::Str(n.ip_address)),
                ("IPPrefixLen"@, JsonV::Num(n.ip_prefix_len as int)),
                ("IPv6Gateway"@, JsonV::Str(n.ipv6_gateway)),
                ("LinkLocalIPv6Address"@, JsonV::Str(n.link_local_ipv6_address)),
                ("LinkLocalIPv6PrefixLen"@, JsonV::Num(n.link_local_ipv6_prefix_len as int)),
                ("MacAddress"@, JsonV::Str(n.mac_address)),
                ("Networks"@, jv_networks(n.networks)),
                ("Ports"@, jv_opt_pm_map(n.ports)),
                ("SandboxID"@, JsonV::Str(n.sandbox_id)),
                ("SandboxKey"@, JsonV::Str(n.sandbox_key)),
            ],
        )
    }

    /// Decodes one network-settings record.
    pub fn decode(v: &Json) -> (r: Result<Self, SchemaError>)
        ensures
            r is Ok <==> Self::json_ok(v@),
            r matches Ok(n) ==> n@ == Self::of_json(v@),
    {
        let fields = match v {
            Json::Obj(fields) => fields,
            _ => {
                return Err(SchemaError);
            },
        };
        let bridge = get_str(fields, "Bridge")?;
        let endpoint_id = get_str(fields, "EndpointID")?;
        let gateway = get_str(fields, "Gateway")?;
        let global_ipv6_address = get_str(fields, "GlobalIPv6Address")?;
        let global_ipv6_prefix_len = get_u32(fields, "GlobalIPv6PrefixLen")?;
        let hairpin_mode = get_bool(fields, "HairpinMode")?;
        let ip_address = get_str(fields, "IPAddress")?;
        let ip_prefix_len = get_u32(fields, "IPPrefixLen")?;
        let ipv6_gateway = get_str(fields, "IPv6Gateway")?;
        let link_local_ipv6_address = get_str(fields, "LinkLocalIPv6Address")?;
        let link_local_ipv6_prefix_len = get_u32(fields, "LinkLocalIPv6PrefixLen")?;
        let mac_address = get_str(fields, "MacAddress")?;
        let networks = get_network_map(fields, "Networks")?;
        let ports = get_opt_pm_map(fields, "Ports")?;
        let sandbox_id = get_str(fields, "SandboxID")?;
        let sandbox_key = get_str(fields, "SandboxKey")?;
        Ok(
            NetworkSettings {
                bridge,
                endpoint_id,
                gateway,
                global_ipv6_address,
                global_ipv6_prefix_len,
                hairpin_mode,
                ip_address,
                ip_prefix_len,
                ipv6_gateway,
                link_local_ipv6_address,
                link_local_ipv6_prefix_len,
                mac_address,
                networks,
                ports,
                sandbox_id,
                sandbox_key,
            },
        )
    }

    /// Encodes this network-settings record.
    #[verifier::rlimit(100)]
    pub fn to_json(&self) -> (r: Json)
        ensures
            r@ == Self::spec_encode(self@),
    {
        let fields: Vec<(String, Json)> = vec![
            ("Bridge".to_owned(), Json::Str(self.bridge.clone())),
            ("EndpointID".to_owned(), Json::Str(self.endpoint_id.clone())),
            ("Gateway".to_owned(), Json::Str(self.gateway.clone())),
            ("GlobalIPv6Address".to_owned(), Json::Str(self.global_ipv6_address.clone())),
            ("GlobalIPv6PrefixLen".to_owned(), Json::Num(self.global_ipv6_prefix_len as i128)),
            ("HairpinMode".to_owned(), Json::Bool(self.hairpin_mode)),
            ("IPAddress".to_owned(), Json::Str(self.ip_address.clone())),
            ("IPPrefixLen".to_owned(), Json::Num(self.ip_prefix_len as i128)),
            ("IPv6Gateway".to_owned(), Json::Str(self.ipv6_gateway.clone())),
            ("LinkLocalIPv6Address".to_owned(), Json::Str(self.link_local_ipv6_address.clone())),
            (
                "LinkLocalIPv6PrefixLen".to_owned(),
                Json::Num(self.link_local_ipv6_prefix_len as i128),
            ),
            ("MacAddress".to_owned(), Json::Str(self.mac_address.clone())),
            ("Networks".to_owned(), mk_networks_json(&self.networks)),
            ("Ports".to_owned(), mk_opt_pm_map_json(&self.ports)),
            ("SandboxID".to_owned(), Json::Str(self.sandbox_id.clone())),
            ("SandboxKey".to_owned(), Json::Str(self.sandbox_key.clone())),
        ];
        let r = Json::Obj(fields);
        proof {
            lemma_json_field_views_index(fields@);
            assert(json_field_views(fields@) =~= Self::spec_encode(self@)->Obj_0);
        }
        r
    }
}

/// Law: decoding an encoded network-settings record yields it back.
#[verifier::rlimit(100)]
pub proof fn lemma_network_settings_round_trip(n: NetworkSettingsV)
    ensures
        NetworkSettings::json_ok(NetworkSettings::spec_encode(n)),
        NetworkSettings::of_json(NetworkSettings::spec_encode(n)) == n,
{
    reveal_strlit("Bridge");
    reveal_strlit("EndpointID");
    reveal_strlit("Gateway");
    reveal_strlit("GlobalIPv6Address");
    reveal_strlit("GlobalIPv6PrefixLen");
    reveal_strlit("HairpinMode");
    reveal_strlit("IPAddress");
    reveal_strlit("IPPrefixLen");
    reveal_strlit("IPv6Gateway");
    reveal_strlit("LinkLocalIPv6Address");
    reveal_strlit("LinkLocalIPv6PrefixLen");
    reveal_strlit("MacAddress");
    reveal_strlit("Networks");
    reveal_strlit("Ports");
    reveal_strlit("SandboxID");
    reveal_strlit("SandboxKey");
    assert("Bridge"@.len() == 6);
    assert("EndpointID"@.len() == 10);
    assert("Gateway"@.len() == 7);
    assert("GlobalIPv6Address"@.len() == 17);
    assert("GlobalIPv6PrefixLen"@.len() == 19);
    assert("HairpinMode"@.len() == 11);
    assert("IPAddress"@.len() == 9);
    assert("IPPrefixLen"@.len() == 11);
    assert("IPv6Gateway"@.len() == 11);
    assert("LinkLocalIPv6Address"@.len() == 20);
    assert("LinkLocalIPv6PrefixLen"@.len() == 22);
    assert("MacAddress"@.len() == 10);
    assert("Networks"@.len() == 8);
    assert("Ports"@.len() == 5);
    assert("SandboxID"@.len() == 9);
    assert("SandboxKey"@.len() == 10);
    assert("EndpointID"@[0] == 'E');
    assert("MacAddress"@[0] == 'M');
    assert("SandboxKey"@[0] == 'S');
    assert("HairpinMode"@[0] == 'H');
    assert("IPPrefixLen"@[2] == 'P');
    assert("IPv6Gateway"@[2] == 'v');
    assert("IPAddress"@[0] == 'I');
    assert("SandboxID"@[0] == 'S');
    reveal_with_fuel(lookup, 17);
    let w = NetworkSettings::spec_encode(n);
    assert(field_of(w, "Bridge"@) == Some(JsonV::Str(n.bridge)));
    assert(field_of(w, "EndpointID"@) == Some(JsonV::Str(n.endpoint_id)));
    assert(field_of(w, "Gateway"@) == Some(JsonV::Str(n.gateway)));
    assert(field_of(w, "GlobalIPv6Address"@) == Some(JsonV::Str(n.global_ipv6_address)));
    assert(field_of(w, "GlobalIPv6PrefixLen"@) == Some(
        JsonV::Num(n.global_ipv6_prefix_len as int),
    ));
    assert(field_of(w, "HairpinMode"@) == Some(JsonV::Bool(n.hairpin_mode)));
    assert(field_of(w, "IPAddress"@) == Some(JsonV::Str(n.ip_address)));
    assert(field_of(w, "IPPrefixLen"@) == Some(JsonV::Num(n.ip_prefix_len as int)));
    assert(field_of(w, "IPv6Gateway"@) == Some(JsonV::Str(n.ipv6_gateway)));
    assert(field_of(w, "LinkLocalIPv6Address"@) == Some(JsonV::Str(n.link_local_ipv6_address)));
    assert(field_of(w, "LinkLocalIPv6PrefixLen"@) == Some(
        JsonV::Num(n.link_local_ipv6_prefix_len as int),
    ));
    assert(field_of(w, "MacAddress"@) == Some(JsonV::Str(n.mac_address)));
    assert(field_of(w, "Networks"@) == Some(jv_networks(n.networks)));
    assert(field_of(w, "Ports"@) == Some(jv_opt_pm_map(n.ports)));
    assert(field_of(w, "SandboxID"@) == Some(JsonV::Str(n.sandbox_id)));
    assert(field_of(w, "SandboxKey"@) == Some(JsonV::Str(n.sandbox_key)));
    let m = n.networks.map_values(
        |x: (Seq<char>, NetworkV)| (x.0, Network::spec_encode(x.1)),
    );
    assert forall|i: int| 0 <= i < m.len() implies Network::json_ok((#[trigger] m[i]).1) by {
        lemma_network_round_trip(n.networks[i].1);
    }
    assert forall|i: int| 0 <= i < n.networks.len() implies networks_of(m)[i]
        == n.networks[i] by {
        lemma_network_round_trip(n.networks[i].1);
    }
    assert(networks_of(m) =~= n.networks);
    lemma_jv_opt_pm_map_round(n.ports);
}

/// The mathematical value of a declared-configuration record.
pub struct ConfigV {
    pub attach_stderr: bool,
    pub attach_stdin: bool,
    pub attach_stdout: bool,
    pub domain_name: Seq<char>,
    pub env: Option<Seq<Seq<char>>>,
    pub exposed_ports: Option<Seq<(Seq<char>, Seq<(Seq<char>, Seq<char>)>)>>,
    pub hostname: Seq<char>,
    pub image: Seq<char>,
    pub labels: Seq<(Seq<char>, Seq<char>)>,
    pub open_stdin: bool,
    pub stdin_once: bool,
    pub tty: bool,
    pub lsnr: Seq<char>,
    pub volumes: Option<Seq<(Seq<char>, Seq<(Seq<char>, Seq<char>)>)>>,
    pub working_dir: Seq<char>,
}

/// The configuration a container was declared with.  `env` entries are
/// `KEY=VALUE` strings, not validated here; `exposed_ports` and
/// `volumes` are permissive placeholders whose upstream shape is
/// unconfirmed, useful only for presence checks.
#[derive(Debug, Clone, PartialEq)]
pub struct Config {
    pub attach_stderr: bool,
    pub attach_stdin: bool,
    pub attach_stdout: bool,
    pub domain_name: String,
    pub env: Option<Vec<String>>,
    pub exposed_ports: Option<Vec<(String, UnspecifiedObject)>>,
    pub hostname: String,
    pub image: String,
    pub labels: Vec<(String, String)>,
    pub open_stdin: bool,
    pub stdin_once: bool,
    pub tty: bool,
    pub lsnr: String,
    pub volumes: Option<Vec<(String, UnspecifiedObject)>>,
    pub working_dir: String,
}

impl View for Config {
    type V = ConfigV;

    open spec fn view(&self) -> ConfigV {
        ConfigV {
            attach_stderr: self.attach_stderr,
            attach_stdin: self.attach_stdin,
            attach_stdout: self.attach_stdout,
            domain_name: self.domain_name@,
            env: self.env.deep_view(),
            exposed_ports: self.exposed_ports.deep_view(),
            hostname: self.hostname@,
            image: self.image@,
            labels: self.labels.deep_view(),
            open_stdin: self.open_stdin,
            stdin_once: self.stdin_once,
            tty: self.tty,
            lsnr: self.lsnr@,
            volumes: self.volumes.deep_view(),
            working_dir: self.working_dir@,
        }
    }
}

impl Config {
    /// The shape a declared configuration must have on the wire.
    pub open spec fn json_ok(v: JsonV) -> bool {
        &&& v is Obj
        &&& is_bool_field(field_of(v, "AttachStderr"@))
        &&& is_bool_field(field_of(v, "AttachStdin"@))
        &&& is_bool_field(field_of(v, "AttachStdout"@))
        &&& is_str_field(field_of(v, "Domainname"@))
        &&& is_opt_str_arr_field(field_of(v, "Env"@))
        &&& is_opt_obj_map_field(field_of(v, "ExposedPorts"@))
        &&& is_str_field(field_of(v, "Hostname"@))
        &&& is_str_field(field_of(v, "Image"@))
        &&& is_str_map_field(field_of(v, "Labels"@))
        &&& is_bool_field(field_of(v, "OpenStdin"@))
        &&& is_bool_field(field_of(v, "StdinOnce"@))
        &&& is_bool_field(field_of(v, "Tty"@))
        &&& is_str_field(field_of(v, "Lsnr"@))
        &&& is_opt_obj_map_field(field_of(v, "Volumes"@))
        &&& is_str_field(field_of(v, "WorkingDir"@))
    }

    /// The record a well-shaped configuration decodes to.
    pub open spec fn of_json(v: JsonV) -> ConfigV {
        ConfigV {
            attach_stderr: bool_field(field_of(v, "AttachStderr"@)),
            attach_stdin: bool_field(field_of(v, "AttachStdin"@)),
            attach_stdout: bool_field(field_of(v, "AttachStdout"@)),
            domain_name: str_field(field_of(v, "Domainname"@)),
            env: opt_str_arr_field(field_of(v, "Env"@)),
            exposed_ports: opt_obj_map_field(field_of(v, "ExposedPorts"@)),
            hostname: str_field(field_of(v, "Hostname"@)),
            image: str_field(field_of(v, "Image"@)),
            labels: str_map_field(field_of(v, "Labels"@)),
            open_stdin: bool_field(field_of(v, "OpenStdin"@)),
            stdin_once: bool_field(field_of(v, "StdinOnce"@)),
            tty: bool_field(field_of(v, "Tty"@)),
            lsnr: str_field(field_of(v, "Lsnr"@)),
            volumes: opt_obj_map_field(field_of(v, "Volumes"@)),
            working_dir: str_field(field_of(v, "WorkingDir"@)),
        }
    }

    /// The tree a declared configuration encodes to.
    pub open spec fn spec_encode(c: ConfigV) -> JsonV {
        JsonV::Obj(
            seq![
                ("AttachStderr"@, JsonV::Bool(c.attach_stderr)),
                ("AttachStdin"@, JsonV::Bool(c.attach_stdin)),
                ("AttachStdout"@, JsonV::Bool(c.attach_stdout)),
                ("Domainname"@, JsonV::Str(c.domain_name)),
                ("Env"@, jv_opt_strs(c.env)),
                ("ExposedPorts"@, jv_opt_obj_map(c.exposed_ports)),
                ("Hostname"@, JsonV::Str(c.hostname)),
                ("Image"@, JsonV::Str(c.image)),
                ("Labels"@, jv_str_map(c.labels)),
                ("OpenStdin"@, JsonV::Bool(c.open_stdin)),
                ("StdinOnce"@, JsonV::Bool(c.stdin_once)),
                ("Tty"@, JsonV::Bool(c.tty)),
                ("Lsnr"@, JsonV::Str(c.lsnr)),
                ("Volumes"@, jv_opt_obj_map(c.volumes)),
                ("WorkingDir"@, JsonV::Str(c.working_dir)),
            ],
        )
    }

    /// Decodes one declared configuration.
    pub fn decode(v: &Json) -> (r: Result<Self, SchemaError>)
        ensures
            r is Ok <==> Self::json_ok(v@),
            r matches Ok(c) ==> c@ == Self::of_json(v@),
    {
        let fields = match v {
            Json::Obj(fields) => fields,
            _ => {
                return Err(SchemaError);
            },
        };
        let attach_stderr = get_bool(fields, "AttachStderr")?;
        let attach_stdin = get_bool(fields, "AttachStdin")?;
        let attach_stdout = get_bool(fields, "AttachStdout")?;
        let domain_name = get_str(fields, "Domainname")?;
        let env = get_opt_str_arr(fields, "Env")?;
        let exposed_ports = get_opt_obj_map(fields, "ExposedPorts")?;
        let hostname = get_str(fields, "Hostname")?;
        let image = get_str(fields, "Image")?;
        let labels = get_str_map(fields, "Labels")?;
        let open_stdin = get_bool(fields, "OpenStdin")?;
        let stdin_once = get_bool(fields, "StdinOnce")?;
        let tty = get_bool(fields, "Tty")?;
        let lsnr = get_str(fields, "Lsnr")?;
        let volumes = get_opt_obj_map(fields, "Volumes")?;
        let working_dir = get_str(fields, "WorkingDir")?;
        Ok(
            Config {
                attach_stderr,
                attach_stdin,
                attach_stdout,
                domain_name,
                env,
                exposed_ports,
                hostname,
                image,
                labels,
                open_stdin,
                stdin_once,
                tty,
                lsnr,
                volumes,
                working_dir,
            },
        )
    }

    /// Encodes this declared configuration.
    #[verifier::rlimit(100)]
    pub fn to_json(&self) -> (r: Json)
        ensures
            r@ == Self::spec_encode(self@),
    {
        let fields: Vec<(String, Json)> = vec![
            ("AttachStderr".to_owned(), Json::Bool(self.attach_stderr)),
            ("AttachStdin".to_owned(), Json::Bool(self.attach_stdin)),
            ("AttachStdout".to_owned(), Json::Bool(self.attach_stdout)),
            ("Domainname".to_owned(), Json::Str(self.domain_name.clone())),
            ("Env".to_owned(), mk_opt_strs_json(&self.env)),
            ("ExposedPorts".to_owned(), mk_opt_obj_map_json(&self.exposed_ports)),
            ("Hostname".to_owned(), Json::Str(self.hostname.clone())),
            ("Image".to_owned(), Json::Str(self.image.clone())),
            ("Labels".to_owned(), mk_str_map_json(&self.labels)),
            ("OpenStdin".to_owned(), Json::Bool(self.open_stdin)),
            ("StdinOnce".to_owned(), Json::Bool(self.stdin_once)),
            ("Tty".to_owned(), Json::Bool(self.tty)),
            ("Lsnr".to_owned(), Json::Str(self.lsnr.clone())),
            ("Volumes".to_owned(), mk_opt_obj_map_json(&self.volumes)),
            ("WorkingDir".to_owned(), Json::Str(self.working_dir.clone())),
        ];
        let r = Json::Obj(fields);
        proof {
            lemma_json_field_views_index(fields@);
            assert(json_field_views(fields@) =~= Self::spec_encode(self@)->Obj_0);
        }
        r
    }
}

/// Law: decoding an encoded declared configuration yields it back.
#[verifier::rlimit(100)]
pub proof fn lemma_config_round_trip(c: ConfigV)
    ensures
        Config::json_ok(Config::spec_encode(c)),
        Config::of_json(Config::spec_encode(c)) == c,
{
    reveal_strlit("AttachStderr");
    reveal_strlit("AttachStdin");
    reveal_strlit("AttachStdout");
    reveal_strlit("Domainname");
    reveal_strlit("Env");
    reveal_strlit("ExposedPorts");
    reveal_strlit("Hostname");
    reveal_strlit("Image");
    reveal_strlit("Labels");
    reveal_strlit("OpenStdin");
    reveal_strlit("StdinOnce");
    reveal_strlit("Tty");
    reveal_strlit("Lsnr");
    reveal_strlit("Volumes");
    reveal_strlit("WorkingDir");
    assert("AttachStderr"@.len() == 12);
    assert("AttachStdin"@.len() == 11);
    assert("AttachStdout"@.len() == 12);
    assert("Domainname"@.len() == 10);
    assert("Env"@.len() == 3);
    assert("ExposedPorts"@.len() == 12);
    assert("Hostname"@.len() == 8);
    assert("Image"@.len() == 5);
    assert("Labels"@.len() == 6);
    assert("OpenStdin"@.len() == 9);
    assert("StdinOnce"@.len() == 9);
    assert("Tty"@.len() == 3);
    assert("Lsnr"@.len() == 4);
    assert("Volumes"@.len() == 7);
    assert("WorkingDir"@.len() == 10);
    assert("AttachStderr"@[9] == 'e');
    assert("AttachStdout"@[9] == 'o');
    assert("AttachStderr"@[0] == 'A');
    assert("AttachStdout"@[0] == 'A');
    assert("ExposedPorts"@[0] == 'E');
    assert("Env"@[0] == 'E');
    assert("Tty"@[0] == 'T');
    assert("OpenStdin"@[0] == 'O');
    assert("StdinOnce"@[0] == 'S');
    assert("Domainname"@[0] == 'D');
    assert("WorkingDir"@[0] == 'W');
    reveal_with_fuel(lookup, 17);
    let w = Config::spec_encode(c);
    assert(field_of(w, "AttachStderr"@) == Some(JsonV::Bool(c.attach_stderr)));
    assert(field_of(w, "AttachStdin"@) == Some(JsonV::Bool(c.attach_stdin)));
    assert(field_of(w, "AttachStdout"@) == Some(JsonV::Bool(c.attach_stdout)));
    assert(field_of(w, "Domainname"@) == Some(JsonV::Str(c.domain_name)));
    assert(field_of(w, "Env"@) == Some(jv_opt_strs(c.env)));
    assert(field_of(w, "ExposedPorts"@) == Some(jv_opt_obj_map(c.exposed_ports)));
    assert(field_of(w, "Hostname"@) == Some(JsonV::Str(c.hostname)));
    assert(field_of(w, "Image"@) == Some(JsonV::Str(c.image)));
    assert(field_of(w, "Labels"@) == Some(jv_str_map(c.labels)));
    assert(field_of(w, "OpenStdin"@) == Some(JsonV::Bool(c.open_stdin)));
    assert(field_of(w, "StdinOnce"@) == Some(JsonV::Bool(c.stdin_once)));
    assert(field_of(w, "Tty"@) == Some(JsonV::Bool(c.tty)));
    assert(field_of(w, "Lsnr"@) == Some(JsonV::Str(c.lsnr)));
    assert(field_of(w, "Volumes"@) == Some(jv_opt_obj_map(c.volumes)));
    assert(field_of(w, "WorkingDir"@) == Some(JsonV::Str(c.working_dir)));
    if c.env is Some {
        crate::json::lemma_jv_strs_round(c.env->0);
    }
    if c.exposed_ports is Some {
        crate::json::lemma_jv_obj_map_round(c.exposed_ports->0);
    }
    crate::json::lemma_jv_str_map_round(c.labels);
    if c.volumes is Some {
        crate::json::lemma_jv_obj_map_round(c.volumes->0);
    }
}

/// An array whose items are all well-shaped mounts.
pub open spec fn mounts_ok(items: Seq<JsonV>) -> bool {
    forall|i: int| 0 <= i < items.len() ==> Mount::json_ok(#[trigger] items[i])
}

/// The mounts such an array decodes to.
pub open spec fn mounts_of(items: Seq<JsonV>) -> Seq<MountV> {
    items.map_values(|j: JsonV| Mount::of_json(j))
}

/// The tree a mount list encodes to.
pub open spec fn jv_mounts(ms: Seq<MountV>) -> JsonV {
    JsonV::Arr(ms.map_values(|m: MountV| Mount::spec_encode(m)))
}

/// A required field holding an array of mounts.
pub open spec fn is_mount_arr_field(o: Option<JsonV>) -> bool {
    o matches Some(JsonV::Arr(items)) && mounts_ok(items)
}

pub open spec fn mount_arr_field(o: Option<JsonV>) -> Seq<MountV> {
    mounts_of(o->0->Arr_0)
}

/// Reads a required array-of-mounts field, decoding element-wise.
fn get_mount_arr(fields: &Vec<(String, Json)>, name: &str) -> (r: Result<Vec<Mount>, SchemaError>)
    ensures
        r is Ok <==> is_mount_arr_field(lookup(json_field_views(fields@), name@)),
        r matches Ok(out) ==> out.deep_view() == mount_arr_field(
            lookup(json_field_views(fields@), name@),
        ),
{
    let items = match crate::json::obj_get(fields, name) {
        Some(j) => match j {
            Json::Arr(items) => items,
            _ => {
                return Err(SchemaError);
            },
        },
        None => {
            return Err(SchemaError);
        },
    };
    proof {
        lemma_json_views_index(items@);
    }
    let mut out: Vec<Mount> = Vec::new();
    let mut i: usize = 0;
    while i < items.len()
        invariant
            lookup(json_field_views(fields@), name@) == Some(JsonV::Arr(json_views(items@))),
            i <= items.len(),
            out@.len() == i,
            json_views(items@).len() == items@.len(),
            forall|k: int| 0 <= k < items@.len() ==> json_views(items@)[k]
                == json_view(#[trigger] items@[k]),
            forall|k: int| 0 <= k < i ==> Mount::json_ok(#[trigger] json_views(items@)[k]),
            forall|k: int| 0 <= k < i ==> (#[trigger] out@[k])@ == Mount::of_json(
                json_views(items@)[k],
            ),
        decreases items.len() - i,
    {
        match Mount::decode(&items[i]) {
            Ok(m) => out.push(m),
            Err(e) => {
                proof {
                    assert(!Mount::json_ok(json_views(items@)[i as int]));
                }
                return Err(e);
            },
        }
        i = i + 1;
    }
    proof {
        let target = mounts_of(json_views(items@));
        assert forall|k: int| 0 <= k < out@.len() implies out.deep_view()[k] == target[k] by {
            assert(out.deep_view()[k] == out@[k]@);
            assert(target[k] == Mount::of_json(json_views(items@)[k]));
        }
        assert(out.deep_view() =~= target);
    }
    Ok(out)
}

/// Encodes a mount list element-wise.
fn mk_mounts_json(mounts: &Vec<Mount>) -> (r: Json)
    ensures
        r@ == jv_mounts(mounts.deep_view()),
{
    let mut out: Vec<Json> = Vec::new();
    let mut i: usize = 0;
    while i < mounts.len()
        invariant
            i <= mounts.len(),
            out@.len() == i,
            forall|k: int| 0 <= k < i ==> (#[trigger] out@[k])@ == Mount::spec_encode(
                mounts@[k]@,
            ),
        decreases mounts.len() - i,
    {
        out.push(mounts[i].to_json());
        i = i + 1;
    }
    let r = Json::Arr(out);
    proof {
        lemma_json_views_index(out@);
        let target = mounts.deep_view().map_values(|m: MountV| Mount::spec_encode(m));
        assert forall|k: int| 0 <= k < out@.len() implies json_views(out@)[k] == target[k] by {
            assert(json_views(out@)[k] == json_view(out@[k]));
            assert(out@[k]@ == Mount::spec_encode(mounts@[k]@));
            assert(mounts.deep_view()[k] == mounts@[k]@);
        }
        assert(json_views(out@) =~= target);
    }
    r
}

/// A required field holding a well-shaped declared configuration.
pub open spec fn is_config_field(o: Option<JsonV>) -> bool {
    o matches Some(j) && Config::json_ok(j)
}

pub open spec fn config_field(o: Option<JsonV>) -> ConfigV {
    Config::of_json(o->0)
}

/// A required field holding a well-shaped network-settings record.
pub open spec fn is_network_settings_field(o: Option<JsonV>) -> bool {
    o matches Some(j) && NetworkSettings::json_ok(j)
}

pub open spec fn network_settings_field(o: Option<JsonV>) -> NetworkSettingsV {
    NetworkSettings::of_json(o->0)
}

/// A required field holding a well-shaped lifecycle snapshot.
pub open spec fn is_state_field(o: Option<JsonV>) -> bool {
    o matches Some(j) && State::json_ok(j)
}

pub open spec fn state_field(o: Option<JsonV>) -> StateV {
    State::of_json(o->0)
}

/// The mathematical value of a container-inspect record.
pub struct ContainerInfoV {
    pub app_armor_profile: Seq<char>,
    pub args: Seq<Seq<char>>,
    pub config: ConfigV,
    pub created: Seq<char>,
    pub driver: Seq<char>,
    pub hostname_path: Seq<char>,
    pub hosts_path: Seq<char>,
    pub id: Seq<char>,
    pub image: Seq<char>,
    pub log_path: Seq<char>,
    pub mount_label: Seq<char>,
    pub mounts: Seq<MountV>,
    pub name: Seq<char>,
    pub network_settings: NetworkSettingsV,
    pub path: Seq<char>,
    pub process_label: Seq<char>,
    pub resolv_conf_path: Seq<char>,
    pub restart_count: u64,
    pub state: StateV,
}

/// The full record returned when one container is inspected.  `state`
/// reflects the engine-reported lifecycle at inspect time and may be
/// stale relative to reality.
#[derive(Debug, Clone, PartialEq)]
pub struct ContainerInfo {
    pub app_armor_profile: String,
    pub args: Vec<String>,
    pub config: Config,
    pub created: String,
    pub driver: String,
    pub hostname_path: String,
    pub hosts_path: String,
    pub id: String,
    pub image: String,
    pub log_path: String,
    pub mount_label: String,
    pub mounts: Vec<Mount>,
    pub name: String,
    pub network_settings: NetworkSettings,
    pub path: String,
    pub process_label: String,
    pub resolv_conf_path: String,
    pub restart_count: u64,
    pub state: State,
}

impl View for ContainerInfo {
    type V = ContainerInfoV;

    open spec fn view(&self) -> ContainerInfoV {
        ContainerInfoV {
            app_armor_profile: self.app_armor_profile@,
            args: self.args.deep_view(),
            config: self.config@,
            created: self.created@,
            driver: self.driver@,
            hostname_path: self.hostname_path@,
            hosts_path: self.hosts_path@,
            id: self.id@,
            image: self.image@,
            log_path: self.log_path@,
            mount_label: self.mount_label@,
            mounts: self.mounts.deep_view(),
            name: self.name@,
            network_settings: self.network_settings@,
            path: self.path@,
            process_label: self.process_label@,
            resolv_conf_path: self.resolv_conf_path@,
            restart_count: self.restart_count,
            state: self.state@,
        }
    }
}

impl ContainerInfo {
    /// The identifier of this container; what a display of the record
    /// shows.
    pub fn display_id(&self) -> (r: String)
        ensures
            r@ == self@.id,
    {
        self.id.clone()
    }

    /// The shape an inspect record must have on the wire.
    pub open spec fn json_ok(v: JsonV) -> bool {
        &&& v is Obj
        &&& is_str_field(field_of(v, "AppArmorProfile"@))
        &&& is_str_arr_field(field_of(v, "Args"@))
        &&& is_config_field(field_of(v, "Config"@))
        &&& is_str_field(field_of(v, "Created"@))
        &&& is_str_field(field_of(v, "Driver"@))
        &&& is_str_field(field_of(v, "HostnamePath"@))
        &&& is_str_field(field_of(v, "HostsPath"@))
        &&& is_str_field(field_of(v, "Id"@))
        &&& is_str_field(field_of(v, "Image"@))
        &&& is_str_field(field_of(v, "LogPath"@))
        &&& is_str_field(field_of(v, "MountLabel"@))
        &&& is_mount_arr_field(field_of(v, "Mounts"@))
        &&& is_str_field(field_of(v, "Name"@))
        &&& is_network_settings_field(field_of(v, "NetworkSettings"@))
        &&& is_str_field(field_of(v, "Path"@))
        &&& is_str_field(field_of(v, "ProcessLabel"@))
        &&& is_str_field(field_of(v, "ResolvConfPath"@))
        &&& is_u64_field(field_of(v, "RestartCount"@))
        &&& is_state_field(field_of(v, "State"@))
    }

    /// The record a well-shaped inspect response decodes to.
    pub open spec fn of_json(v: JsonV) -> ContainerInfoV {
        ContainerInfoV {
            app_armor_profile: str_field(field_of(v, "AppArmorProfile"@)),
            args: str_arr_field(field_of(v, "Args"@)),
            config: config_field(field_of(v, "Config"@)),
            created: str_field(field_of(v, "Created"@)),
            driver: str_field(field_of(v, "Driver"@)),
            hostname_path: str_field(field_of(v, "HostnamePath"@)),
            hosts_path: str_field(field_of(v, "HostsPath"@)),
            id: str_field(field_of(v, "Id"@)),
            image: str_field(field_of(v, "Image"@)),
            log_path: str_field(field_of(v, "LogPath"@)),
            mount_label: str_field(field_of(v, "MountLabel"@)),
            mounts: mount_arr_field(field_of(v, "Mounts"@)),
            name: str_field(field_of(v, "Name"@)),
            network_settings: network_settings_field(field_of(v, "NetworkSettings"@)),
            path: str_field(field_of(v, "Path"@)),
            process_label: str_field(field_of(v, "ProcessLabel"@)),
            resolv_conf_path: str_field(field_of(v, "ResolvConfPath"@)),
            restart_count: u64_field(field_of(v, "RestartCount"@)),
            state: state_field(field_of(v, "State"@)),
        }
    }

    /// The tree an inspect record encodes to.
    pub open spec fn spec_encode(c: ContainerInfoV) -> JsonV {
        JsonV::Obj(
            seq![
                ("AppArmorProfile"@, JsonV::Str(c.app_armor_profile)),
                ("Args"@, jv_strs(c.args)),
                ("Config"@, Config::spec_encode(c.config)),
                ("Created"@, JsonV::Str(c.created)),
                ("Driver"@, JsonV::Str(c.driver)),
                ("HostnamePath"@, JsonV::Str(c.hostname_path)),
                ("HostsPath"@, JsonV::Str(c.hosts_path)),
                ("Id"@, JsonV::Str(c.id)),
                ("Image"@, JsonV::Str(c.image)),
                ("LogPath"@, JsonV::Str(c.log_path)),
                ("MountLabel"@, JsonV::Str(c.mount_label)),
                ("Mounts"@, jv_mounts(c.mounts)),
                ("Name"@, JsonV::Str(c.name)),
                ("NetworkSettings"@, NetworkSettings::spec_encode(c.network_settings)),
                ("Path"@, JsonV::Str(c.path)),
                ("ProcessLabel"@, JsonV::Str(c.process_label)),
                ("ResolvConfPath"@, JsonV::Str(c.resolv_conf_path)),
                ("RestartCount"@, JsonV::Num(c.restart_count as int)),
                ("State"@, State::spec_encode(c.state)),
            ],
        )
    }

    /// Decodes one inspect record.
    pub fn decode(v: &Json) -> (r: Result<Self, SchemaError>)
        ensures
            r is Ok <==> Self::json_ok(v@),
            r matches Ok(c) ==> c@ == Self::of_json(v@),
    {
        let fields = match v {
            Json::Obj(fields) => fields,
            _ => {
                return Err(SchemaError);
            },
        };
        let app_armor_profile = get_str(fields, "AppArmorProfile")?;
        let args = get_str_arr(fields, "Args")?;
        let config = match crate::json::obj_get(fields, "Config") {
            Some(j) => Config::decode(j)?,
            None => {
                return Err(SchemaError);
            },
        };
        let created = get_str(fields, "Created")?;
        let driver = get_str(fields, "Driver")?;
        let hostname_path = get_str(fields, "HostnamePath")?;
        let hosts_path = get_str(fields, "HostsPath")?;
        let id = get_str(fields, "Id")?;
        let image = get_str(fields, "Image")?;
        let log_path = get_str(fields, "LogPath")?;
        let mount_label = get_str(fields, "MountLabel")?;
        let mounts = get_mount_arr(fields, "Mounts")?;
        let name = get_str(fields, "Name")?;
        let network_settings = match crate::json::obj_get(fields, "NetworkSettings") {
            Some(j) => NetworkSettings::decode(j)?,
            None => {
                return Err(SchemaError);
            },
        };
        let path = get_str(fields, "Path")?;
        let process_label = get_str(fields, "ProcessLabel")?;
        let resolv_conf_path = get_str(fields, "ResolvConfPath")?;
        let restart_count = get_u64(fields, "RestartCount")?;
        let state = match crate::json::obj_get(fields, "State") {
            Some(j) => State::decode(j)?,
            None => {
                return Err(SchemaError);
            },
        };
        Ok(
            ContainerInfo {
                app_armor_profile,
                args,
                config,
                created,
                driver,
                hostname_path,
                hosts_path,
                id,
                image,
                log_path,
                mount_label,
                mounts,
                name,
                network_settings,
                path,
                process_label,
                resolv_conf_path,
                restart_count,
                state,
            },
        )
    }

    /// Encodes this inspect record.
    #[verifier::rlimit(100)]
    pub fn to_json(&self) -> (r: Json)
        ensures
            r@ == Self::spec_encode(self@),
    {
        let fields: Vec<(String, Json)> = vec![
            ("AppArmorProfile".to_owned(), Json::Str(self.app_armor_profile.clone())),
            ("Args".to_owned(), mk_strs_json(&self.args)),
            ("Config".to_owned(), self.config.to_json()),
            ("Created".to_owned(), Json::Str(self.created.clone())),
            ("Driver".to_owned(), Json::Str(self.driver.clone())),
            ("HostnamePath".to_owned(), Json::Str(self.hostname_path.clone())),
            ("HostsPath".to_owned(), Json::Str(self.hosts_path.clone())),
            ("Id".to_owned(), Json::Str(self.id.clone())),
            ("Image".to_owned(), Json::Str(self.image.clone())),
            ("LogPath".to_owned(), Json::Str(self.log_path.clone())),
            ("MountLabel".to_owned(), Json::Str(self.mount_label.clone())),
            ("Mounts".to_owned(), mk_mounts_json(&self.mounts)),
            ("Name".to_owned(), Json::Str(self.name.clone())),
            ("NetworkSettings".to_owned(), self.network_settings.to_json()),
            ("Path".to_owned(), Json::Str(self.path.clone())),
            ("ProcessLabel".to_owned(), Json::Str(self.process_label.clone())),
            ("ResolvConfPath".to_owned(), Json::Str(self.resolv_conf_path.clone())),
            ("RestartCount".to_owned(), Json::Num(self.restart_count as i128)),
            ("State".to_owned(), self.state.to_json()),
        ];
        let r = Json::Obj(fields);
        proof {
            lemma_json_field_views_index(fields@);
            assert(json_field_views(fields@) =~= Self::spec_encode(self@)->Obj_0);
        }
        r
    }
}

/// Law: decoding an encoded inspect record yields the record back.
#[verifier::rlimit(100)]
pub proof fn lemma_container_info_round_trip(c: ContainerInfoV)
    ensures
        ContainerInfo::json_ok(ContainerInfo::spec_encode(c)),
        ContainerInfo::of_json(ContainerInfo::spec_encode(c)) == c,
{
    reveal_strlit("AppArmorProfile");
    reveal_strlit("Args");
    reveal_strlit("Config");
    reveal_strlit("Created");
    reveal_strlit("Driver");
    reveal_strlit("HostnamePath");
    reveal_strlit("HostsPath");
    reveal_strlit("Id");
    reveal_strlit("Image");
    reveal_strlit("LogPath");
    reveal_strlit("MountLabel");
    reveal_strlit("Mounts");
    reveal_strlit("Name");
    reveal_strlit("NetworkSettings");
    reveal_strlit("Path");
    reveal_strlit("ProcessLabel");
    reveal_strlit("ResolvConfPath");
    reveal_strlit("RestartCount");
    reveal_strlit("State");
    assert("AppArmorProfile"@.len() == 15);
    assert("Args"@.len() == 4);
    assert("Config"@.len() == 6);
    assert("Created"@.len() == 7);
    assert("Driver"@.len() == 6);
    assert("HostnamePath"@.len() == 12);
    assert("HostsPath"@.len() == 9);
    assert("Id"@.len() == 2);
    assert("Image"@.len() == 5);
    assert("LogPath"@.len() == 7);
    assert("MountLabel"@.len() == 10);
    assert("Mounts"@.len() == 6);
    assert("Name"@.len() == 4);
    assert("NetworkSettings"@.len() == 15);
    assert("Path"@.len() == 4);
    assert("ProcessLabel"@.len() == 12);
    assert("ResolvConfPath"@.len() == 14);
    assert("RestartCount"@.len() == 12);
    assert("State"@.len() == 5);
    assert("AppArmorProfile"@[0] == 'A');
    assert("NetworkSettings"@[0] == 'N');
    assert("Args"@[0] == 'A');
    assert("Name"@[0] == 'N');
    assert("Path"@[0] == 'P');
    assert("Config"@[0] == 'C');
    assert("Driver"@[0] == 'D');
    assert("Mounts"@[0] == 'M');
    assert("Created"@[0] == 'C');
    assert("LogPath"@[0] == 'L');
    assert("HostnamePath"@[0] == 'H');
    assert("ProcessLabel"@[0] == 'P');
    assert("RestartCount"@[0] == 'R');
    assert("Image"@[0] == 'I');
    assert("State"@[0] == 'S');
    reveal_with_fuel(lookup, 20);
    let w = ContainerInfo::spec_encode(c);
    assert(field_of(w, "AppArmorProfile"@) == Some(JsonV::Str(c.app_armor_profile)));
    assert(field_of(w, "Args"@) == Some(jv_strs(c.args)));
    assert(field_of(w, "Config"@) == Some(Config::spec_encode(c.config)));
    assert(field_of(w, "Created"@) == Some(JsonV::Str(c.created)));
    assert(field_of(w, "Driver"@) == Some(JsonV::Str(c.driver)));
    assert(field_of(w, "HostnamePath"@) == Some(JsonV::Str(c.hostname_path)));
    assert(field_of(w, "HostsPath"@) == Some(JsonV::Str(c.hosts_path)));
    assert(field_of(w, "Id"@) == Some(JsonV::Str(c.id)));
    assert(field_of(w, "Image"@) == Some(JsonV::Str(c.image)));
    assert(field_of(w, "LogPath"@) == Some(JsonV::Str(c.log_path)));
    assert(field_of(w, "MountLabel"@) == Some(JsonV::Str(c.mount_label)));
    assert(field_of(w, "Mounts"@) == Some(jv_mounts(c.mounts)));
    assert(field_of(w, "Name"@) == Some(JsonV::Str(c.name)));
    assert(field_of(w, "NetworkSettings"@) == Some(
        NetworkSettings::spec_encode(c.network_settings),
    ));
    assert(field_of(w, "Path"@) == Some(JsonV::Str(c.path)));
    assert(field_of(w, "ProcessLabel"@) == Some(JsonV::Str(c.process_label)));
    assert(field_of(w, "ResolvConfPath"@) == Some(JsonV::Str(c.resolv_conf_path)));
    assert(field_of(w, "RestartCount"@) == Some(JsonV::Num(c.restart_count as int)));
    assert(field_of(w, "State"@) == Some(State::spec_encode(c.state)));
    crate::json::lemma_jv_strs_round(c.args);
    lemma_config_round_trip(c.config);
    lemma_network_settings_round_trip(c.network_settings);
    lemma_state_round_trip(c.state);
    let items = c.mounts.map_values(|m: MountV| Mount::spec_encode(m));
    assert forall|i: int| 0 <= i < items.len() implies Mount::json_ok(#[trigger] items[i]) by {
        lemma_mount_round_trip(c.mounts[i]);
    }
    assert forall|i: int| 0 <= i < c.mounts.len() implies mounts_of(items)[i] == c.mounts[i] by {
        lemma_mount_round_trip(c.mounts[i]);
    }
    assert(mounts_of(items) =~= c.mounts);
}

} // verus!
