//! A self-contained JSON tree and the field-access vocabulary that the
//! record decoders share.
//!
//! The engine API sends loosely specified JSON: required fields mixed
//! with optional ones, `null` standing for "absent", and unknown fields
//! that must be ignored.  Everything here is stated against the
//! mathematical view [`JsonV`], so record contracts can say exactly
//! which fields are read and what each one must look like.

use vstd::prelude::*;

verus! {

/// A decoded JSON value.  Numbers are kept as `i128`, which holds every
/// integer the engine sends (both `u64` sizes and `i64` exit codes).
#[derive(Debug)]
pub enum Json {
    Null,
    Bool(bool),
    Num(i128),
    Str(String),
    Arr(Vec<Json>),
    Obj(Vec<(String, Json)>),
}

/// The mathematical shape of a [`Json`] value.
pub enum JsonV {
    Null,
    Bool(bool),
    Num(int),
    Str(Seq<char>),
    Arr(Seq<JsonV>),
    Obj(Seq<(Seq<char>, JsonV)>),
}

/// The view of one tree node, recursing into arrays and objects.
pub open spec fn json_view(j: Json) -> JsonV
    decreases j,
{
    match j {
        Json::Null => JsonV::Null,
        Json::Bool(b) => JsonV::Bool(b),
        Json::Num(n) => JsonV::Num(n as int),
        Json::Str(s) => JsonV::Str(s@),
        Json::Arr(items) => JsonV::Arr(json_views(items@)),
        Json::Obj(fields) => JsonV::Obj(json_field_views(fields@)),
    }
}

/// Element-wise [`json_view`] of an array's items.
pub open spec fn json_views(items: Seq<Json>) -> Seq<JsonV>
    decreases items,
{
    if items.len() == 0 {
        Seq::empty()
    } else {
        seq![json_view(items[0])] + json_views(items.drop_first())
    }
}

/// Element-wise view of an object's name/value bindings.
pub open spec fn json_field_views(fields: Seq<(String, Json)>) -> Seq<(Seq<char>, JsonV)>
    decreases fields,
{
    if fields.len() == 0 {
        Seq::empty()
    } else {
        seq![(fields[0].0@, json_view(fields[0].1))] + json_field_views(fields.drop_first())
    }
}

impl View for Json {
    type V = JsonV;

    open spec fn view(&self) -> JsonV {
        json_view(*self)
    }
}

/// The two sequence views keep lengths and are indexed element-wise.
pub broadcast proof fn lemma_json_views_index(items: Seq<Json>)
    ensures
        (#[trigger] json_views(items)).len() == items.len(),
        forall|i: int| 0 <= i < items.len() ==> json_views(items)[i] == json_view(#[trigger] items[i]),
    decreases items,
{
    if items.len() > 0 {
        lemma_json_views_index(items.drop_first());
        assert forall|i: int| 0 <= i < items.len() implies json_views(items)[i]
            == json_view(#[trigger] items[i]) by {
            if i > 0 {
                assert(items.drop_first()[i - 1] == items[i]);
                assert(json_views(items)[i] == json_views(items.drop_first())[i - 1]);
            }
        }
    }
}

/// Same for object field lists.
pub broadcast proof fn lemma_json_field_views_index(fields: Seq<(String, Json)>)
    ensures
        (#[trigger] json_field_views(fields)).len() == fields.len(),
        forall|i: int| 0 <= i < fields.len() ==> json_field_views(fields)[i]
            == ((#[trigger] fields[i]).0@, json_view(fields[i].1)),
    decreases fields,
{
    if fields.len() > 0 {
        lemma_json_field_views_index(fields.drop_first());
        assert forall|i: int| 0 <= i < fields.len() implies json_field_views(fields)[i]
            == ((#[trigger] fields[i]).0@, json_view(fields[i].1)) by {
            if i > 0 {
                assert(fields.drop_first()[i - 1] == fields[i]);
                assert(json_field_views(fields)[i] == json_field_views(fields.drop_first())[i - 1]);
            }
        }
    }
}

/// Decoding failed: a required field is missing, or a field does not
/// have the JSON shape the schema declares for it.
#[derive(Debug, Clone, PartialEq, Eq, Structural)]
pub struct SchemaError;

/// The first binding of `name` in an object's field list, if any.
/// Later duplicates are shadowed, as they are by ordinary JSON readers.
pub open spec fn lookup(fields: Seq<(Seq<char>, JsonV)>, name: Seq<char>) -> Option<JsonV>
    decreases fields.len(),
{
    if fields.len() == 0 {
        None
    } else if fields[0].0 == name {
        Some(fields[0].1)
    } else {
        lookup(fields.drop_first(), name)
    }
}

/// Field lookup on an object value.
pub open spec fn field_of(v: JsonV, name: Seq<char>) -> Option<JsonV> {
    lookup(v->Obj_0, name)
}

/// A looked-up field that is present with each required shape.
pub open spec fn is_str_field(o: Option<JsonV>) -> bool {
    o matches Some(JsonV::Str(_))
}

pub open spec fn str_field(o: Option<JsonV>) -> Seq<char> {
    o->0->Str_0
}

pub open spec fn is_bool_field(o: Option<JsonV>) -> bool {
    o matches Some(JsonV::Bool(_))
}

pub open spec fn bool_field(o: Option<JsonV>) -> bool {
    o->0->Bool_0
}

pub open spec fn is_u64_field(o: Option<JsonV>) -> bool {
    o matches Some(JsonV::Num(n)) && 0 <= n <= u64::MAX
}

pub open spec fn u64_field(o: Option<JsonV>) -> u64 {
    o->0->Num_0 as u64
}

pub open spec fn is_u32_field(o: Option<JsonV>) -> bool {
    o matches Some(JsonV::Num(n)) && 0 <= n <= u32::MAX
}

pub open spec fn u32_field(o: Option<JsonV>) -> u32 {
    o->0->Num_0 as u32
}

pub open spec fn is_u8_field(o: Option<JsonV>) -> bool {
    o matches Some(JsonV::Num(n)) && 0 <= n <= u8::MAX
}

pub open spec fn u8_field(o: Option<JsonV>) -> u8 {
    o->0->Num_0 as u8
}

pub open spec fn is_i64_field(o: Option<JsonV>) -> bool {
    o matches Some(JsonV::Num(n)) && i64::MIN <= n <= i64::MAX
}

pub open spec fn i64_field(o: Option<JsonV>) -> i64 {
    o->0->Num_0 as i64
}

/// An optional field: omission and an explicit `null` both mean "absent".
pub open spec fn is_opt_str_field(o: Option<JsonV>) -> bool {
    o is None || o == Some(JsonV::Null) || is_str_field(o)
}

pub open spec fn opt_str_field(o: Option<JsonV>) -> Option<Seq<char>> {
    if is_str_field(o) {
        Some(str_field(o))
    } else {
        None
    }
}

pub open spec fn is_opt_u64_field(o: Option<JsonV>) -> bool {
    o is None || o == Some(JsonV::Null) || is_u64_field(o)
}

pub open spec fn opt_u64_field(o: Option<JsonV>) -> Option<u64> {
    if is_u64_field(o) {
        Some(u64_field(o))
    } else {
        None
    }
}

pub open spec fn is_opt_bool_field(o: Option<JsonV>) -> bool {
    o is None || o == Some(JsonV::Null) || is_bool_field(o)
}

pub open spec fn opt_bool_field(o: Option<JsonV>) -> Option<bool> {
    if is_bool_field(o) {
        Some(bool_field(o))
    } else {
        None
    }
}

/// Arrays whose items are all strings.
pub open spec fn all_strs(items: Seq<JsonV>) -> bool {
    forall|i: int| 0 <= i < items.len() ==> (#[trigger] items[i]) is Str
}

pub open spec fn strs_of(items: Seq<JsonV>) -> Seq<Seq<char>> {
    items.map_values(|j: JsonV| j->Str_0)
}

pub open spec fn is_str_arr_field(o: Option<JsonV>) -> bool {
    o matches Some(JsonV::Arr(items)) && all_strs(items)
}

pub open spec fn str_arr_field(o: Option<JsonV>) -> Seq<Seq<char>> {
    strs_of(o->0->Arr_0)
}

pub open spec fn is_opt_str_arr_field(o: Option<JsonV>) -> bool {
    o is None || o == Some(JsonV::Null) || is_str_arr_field(o)
}

pub open spec fn opt_str_arr_field(o: Option<JsonV>) -> Option<Seq<Seq<char>>> {
    if is_str_arr_field(o) {
        Some(str_arr_field(o))
    } else {
        None
    }
}

/// The normalized reading of a nullable list field: a missing or `null`
/// list is the empty list, never an error and never a visible `null`.
pub open spec fn is_norm_str_arr_field(o: Option<JsonV>) -> bool {
    o is None || o == Some(JsonV::Null) || is_str_arr_field(o)
}

pub open spec fn norm_str_arr_field(o: Option<JsonV>) -> Seq<Seq<char>> {
    if is_str_arr_field(o) {
        str_arr_field(o)
    } else {
        Seq::empty()
    }
}

/// Objects whose values are all strings, read as ordered name/value maps.
pub open spec fn all_str_vals(fields: Seq<(Seq<char>, JsonV)>) -> bool {
    forall|i: int| 0 <= i < fields.len() ==> (#[trigger] fields[i]).1 is Str
}

pub open spec fn str_map_of(fields: Seq<(Seq<char>, JsonV)>) -> Seq<(Seq<char>, Seq<char>)> {
    fields.map_values(|f: (Seq<char>, JsonV)| (f.0, f.1->Str_0))
}

pub open spec fn is_str_map_field(o: Option<JsonV>) -> bool {
    o matches Some(JsonV::Obj(fs)) && all_str_vals(fs)
}

pub open spec fn str_map_field(o: Option<JsonV>) -> Seq<(Seq<char>, Seq<char>)> {
    str_map_of(o->0->Obj_0)
}

pub open spec fn is_opt_str_map_field(o: Option<JsonV>) -> bool {
    o is None || o == Some(JsonV::Null) || is_str_map_field(o)
}

pub open spec fn opt_str_map_field(o: Option<JsonV>) -> Option<Seq<(Seq<char>, Seq<char>)>> {
    if is_str_map_field(o) {
        Some(str_map_field(o))
    } else {
        None
    }
}

/// A permissive placeholder map: object values whose own shape is
/// undocumented upstream are kept as ordered string maps and carried
/// through untouched.
pub open spec fn all_obj_vals(fields: Seq<(Seq<char>, JsonV)>) -> bool {
    forall|i: int| 0 <= i < fields.len() ==> is_str_map_field(Some((#[trigger] fields[i]).1))
}

pub open spec fn obj_map_of(fields: Seq<(Seq<char>, JsonV)>) -> Seq<
    (Seq<char>, Seq<(Seq<char>, Seq<char>)>),
> {
    fields.map_values(|f: (Seq<char>, JsonV)| (f.0, str_map_field(Some(f.1))))
}

pub open spec fn is_opt_obj_map_field(o: Option<JsonV>) -> bool {
    o is None || o == Some(JsonV::Null) || (o matches Some(JsonV::Obj(fs)) && all_obj_vals(fs))
}

pub open spec fn opt_obj_map_field(o: Option<JsonV>) -> Option<
    Seq<(Seq<char>, Seq<(Seq<char>, Seq<char>)>)>,
> {
    if o matches Some(JsonV::Obj(fs)) && all_obj_vals(fs) {
        Some(obj_map_of(o->0->Obj_0))
    } else {
        None
    }
}

/// The encoding of an optional placeholder map: `null` when absent.
pub open spec fn jv_opt_obj_map(o: Option<Seq<(Seq<char>, Seq<(Seq<char>, Seq<char>)>)>>) -> JsonV {
    match o {
        Some(ps) => JsonV::Obj(
            ps.map_values(|p: (Seq<char>, Seq<(Seq<char>, Seq<char>)>)| (p.0, jv_str_map(p.1))),
        ),
        None => JsonV::Null,
    }
}

/// An encoded string list reads back as itself.
pub proof fn lemma_jv_strs_round(ss: Seq<Seq<char>>)
    ensures
        is_str_arr_field(Some(jv_strs(ss))),
        str_arr_field(Some(jv_strs(ss))) == ss,
{
    let items = ss.map_values(|s: Seq<char>| JsonV::Str(s));
    assert(all_strs(items));
    assert(str_arr_field(Some(jv_strs(ss))) =~= ss);
}

/// An encoded string map reads back as itself.
pub proof fn lemma_jv_str_map_round(ps: Seq<(Seq<char>, Seq<char>)>)
    ensures
        is_str_map_field(Some(jv_str_map(ps))),
        str_map_field(Some(jv_str_map(ps))) == ps,
{
    let m = ps.map_values(|p: (Seq<char>, Seq<char>)| (p.0, JsonV::Str(p.1)));
    assert(all_str_vals(m));
    assert forall|i: int| 0 <= i < ps.len() implies str_map_of(m)[i] == ps[i] by {
        assert(m[i] == (ps[i].0, JsonV::Str(ps[i].1)));
    }
    assert(str_map_field(Some(jv_str_map(ps))) =~= ps);
}

/// An encoded placeholder map reads back as itself.
pub proof fn lemma_jv_obj_map_round(ps: Seq<(Seq<char>, Seq<(Seq<char>, Seq<char>)>)>)
    ensures
        is_opt_obj_map_field(Some(jv_opt_obj_map(Some(ps)))),
        opt_obj_map_field(Some(jv_opt_obj_map(Some(ps)))) == Some(ps),
{
    let m = ps.map_values(
        |p: (Seq<char>, Seq<(Seq<char>, Seq<char>)>)| (p.0, jv_str_map(p.1)),
    );
    assert forall|i: int| 0 <= i < m.len() implies is_str_map_field(
        Some((#[trigger] m[i]).1),
    ) by {
        lemma_jv_str_map_round(ps[i].1);
    }
    assert(all_obj_vals(m));
    assert forall|i: int| 0 <= i < ps.len() implies obj_map_of(m)[i] == ps[i] by {
        lemma_jv_str_map_round(ps[i].1);
    }
    assert(obj_map_of(m) =~= ps);
}

/// Law (unknown-field tolerance, generic part): appending a binding
/// under any other name leaves a lookup unchanged, so a decoder that
/// reads an object only through [`lookup`] ignores unrecognized
/// fields.
pub proof fn lemma_lookup_ignores_unknown(
    fields: Seq<(Seq<char>, JsonV)>,
    extra: (Seq<char>, JsonV),
    name: Seq<char>,
)
    requires
        extra.0 != name,
    ensures
        lookup(fields.push(extra), name) == lookup(fields, name),
    decreases fields.len(),
{
    if fields.len() == 0 {
        assert(fields.push(extra)[0] == extra);
        assert(fields.push(extra).drop_first() =~= Seq::empty());
    } else {
        assert(fields.push(extra)[0] == fields[0]);
        assert(fields.push(extra).drop_first() =~= fields.drop_first().push(extra));
        lemma_lookup_ignores_unknown(fields.drop_first(), extra, name);
    }
}

/// If the first `i` names differ from `name`, lookup continues past them.
pub proof fn lemma_lookup_after(fields: Seq<(Seq<char>, JsonV)>, name: Seq<char>, i: int)
    requires
        0 <= i <= fields.len(),
        forall|j: int| 0 <= j < i ==> (#[trigger] fields[j]).0 != name,
    ensures
        lookup(fields, name) == lookup(fields.skip(i), name),
    decreases i,
{
    if i == 0 {
        assert(fields.skip(0) =~= fields);
    } else {
        lemma_lookup_after(fields, name, i - 1);
        let s = fields.skip(i - 1);
        assert(s.len() > 0);
        assert(s[0] == fields[i - 1]);
        assert(fields[i - 1].0 != name);
        assert(s.drop_first() =~= fields.skip(i));
        assert(lookup(s, name) == lookup(s.drop_first(), name));
    }
}

/// The encoding of an optional string: `null` when absent.
pub open spec fn jv_opt_str(o: Option<Seq<char>>) -> JsonV {
    match o {
        Some(s) => JsonV::Str(s),
        None => JsonV::Null,
    }
}

/// The encoding of an optional boolean: `null` when absent.
pub open spec fn jv_opt_bool(o: Option<bool>) -> JsonV {
    match o {
        Some(b) => JsonV::Bool(b),
        None => JsonV::Null,
    }
}

/// The encoding of an optional number: `null` when absent.
pub open spec fn jv_opt_u64(o: Option<u64>) -> JsonV {
    match o {
        Some(n) => JsonV::Num(n as int),
        None => JsonV::Null,
    }
}

/// The encoding of a string list.
pub open spec fn jv_strs(ss: Seq<Seq<char>>) -> JsonV {
    JsonV::Arr(ss.map_values(|s: Seq<char>| JsonV::Str(s)))
}

/// The encoding of an optional string list: `null` when absent.
pub open spec fn jv_opt_strs(o: Option<Seq<Seq<char>>>) -> JsonV {
    match o {
        Some(ss) => jv_strs(ss),
        None => JsonV::Null,
    }
}

/// The encoding of an ordered string-to-string map.
pub open spec fn jv_str_map(ps: Seq<(Seq<char>, Seq<char>)>) -> JsonV {
    JsonV::Obj(ps.map_values(|p: (Seq<char>, Seq<char>)| (p.0, JsonV::Str(p.1))))
}

/// The encoding of an optional map: `null` when absent.
pub open spec fn jv_opt_str_map(o: Option<Seq<(Seq<char>, Seq<char>)>>) -> JsonV {
    match o {
        Some(ps) => jv_str_map(ps),
        None => JsonV::Null,
    }
}

/// Builds the encoding of an optional string.
pub fn mk_opt_str_json(o: &Option<String>) -> (r: Json)
    ensures
        r@ == jv_opt_str(o.deep_view()),
{
    match o {
        Some(s) => Json::Str(s.clone()),
        None => Json::Null,
    }
}

/// Builds the encoding of an optional boolean.
pub fn mk_opt_bool_json(o: &Option<bool>) -> (r: Json)
    ensures
        r@ == jv_opt_bool(*o),
{
    match o {
        Some(b) => Json::Bool(*b),
        None => Json::Null,
    }
}

/// Builds the encoding of an optional number.
pub fn mk_opt_u64_json(o: &Option<u64>) -> (r: Json)
    ensures
        r@ == jv_opt_u64(*o),
{
    match o {
        Some(n) => Json::Num(*n as i128),
        None => Json::Null,
    }
}

/// Builds the encoding of a string list.
pub fn mk_strs_json(items: &Vec<String>) -> (r: Json)
    ensures
        r@ == jv_strs(items.deep_view()),
{
    let mut out: Vec<Json> = Vec::new();
    let mut i: usize = 0;
    while i < items.len()
        invariant
            i <= items.len(),
            out@.len() == i,
            forall|k: int| 0 <= k < i ==> out@[k] == (Json::Str(#[trigger] items@[k])),
        decreases items.len() - i,
    {
        out.push(Json::Str(items[i].clone()));
        i = i + 1;
    }
    let r = Json::Arr(out);
    proof {
        lemma_json_views_index(out@);
        assert(json_views(out@) =~= items.deep_view().map_values(|s: Seq<char>| JsonV::Str(s)));
    }
    r
}

/// Builds the encoding of an optional string list.
pub fn mk_opt_strs_json(o: &Option<Vec<String>>) -> (r: Json)
    ensures
        r@ == jv_opt_strs(o.deep_view()),
{
    match o {
        Some(items) => mk_strs_json(items),
        None => Json::Null,
    }
}

/// Builds the encoding of an ordered string-to-string map.
pub fn mk_str_map_json(pairs: &Vec<(String, String)>) -> (r: Json)
    ensures
        r@ == jv_str_map(pairs.deep_view()),
{
    let mut out: Vec<(String, Json)> = Vec::new();
    let mut i: usize = 0;
    while i < pairs.len()
        invariant
            i <= pairs.len(),
            out@.len() == i,
            forall|k: int| 0 <= k < i ==> out@[k] == ((#[trigger] pairs@[k]).0, Json::Str(
                pairs@[k].1,
            )),
        decreases pairs.len() - i,
    {
        out.push((pairs[i].0.clone(), Json::Str(pairs[i].1.clone())));
        i = i + 1;
    }
    let r = Json::Obj(out);
    proof {
        lemma_json_field_views_index(out@);
        assert(json_field_views(out@) =~= pairs.deep_view().map_values(
            |p: (Seq<char>, Seq<char>)| (p.0, JsonV::Str(p.1)),
        ));
    }
    r
}

/// Builds the encoding of an optional map.
pub fn mk_opt_str_map_json(o: &Option<Vec<(String, String)>>) -> (r: Json)
    ensures
        r@ == jv_opt_str_map(o.deep_view()),
{
    match o {
        Some(pairs) => mk_str_map_json(pairs),
        None => Json::Null,
    }
}

/// Finds `name` among an object's fields, as [`lookup`] describes.
pub fn obj_get<'a>(fields: &'a Vec<(String, Json)>, name: &str) -> (r: Option<&'a Json>)
    ensures
        (match r {
            Some(j) => lookup(json_field_views(fields@), name@) == Some(json_view(*j)),
            None => lookup(json_field_views(fields@), name@) is None,
        }),
{
    proof {
        lemma_json_field_views_index(fields@);
    }
    let name_string: String = name.to_owned();
    let mut i: usize = 0;
    while i < fields.len()
        invariant
            i <= fields.len(),
            name_string@ == name@,
            forall|j: int| 0 <= j < i ==> (#[trigger] json_field_views(fields@)[j]).0 != name@,
            json_field_views(fields@).len() == fields@.len(),
            forall|j: int| 0 <= j < fields@.len() ==> json_field_views(fields@)[j]
                == ((#[trigger] fields@[j]).0@, json_view(fields@[j].1)),
        decreases fields.len() - i,
    {
        if fields[i].0 == name_string {
            proof {
                let fv = json_field_views(fields@);
                lemma_lookup_after(fv, name@, i as int);
                assert(fv.skip(i as int)[0] == fv[i as int]);
                assert(fv.skip(i as int).len() > 0);
                assert(lookup(fv.skip(i as int), name@) == Some(fv[i as int].1));
            }
            return Some(&fields[i].1);
        }
        i = i + 1;
    }
    proof {
        lemma_lookup_after(json_field_views(fields@), name@, fields@.len() as int);
        assert(json_field_views(fields@).skip(fields@.len() as int) =~= Seq::empty());
    }
    None
}

/// A required string field.
pub fn get_str(fields: &Vec<(String, Json)>, name: &str) -> (r: Result<String, SchemaError>)
    ensures
        r is Ok <==> is_str_field(lookup(json_field_views(fields@), name@)),
        r matches Ok(s) ==> s@ == str_field(lookup(json_field_views(fields@), name@)),
{
    match obj_get(fields, name) {
        Some(j) => match j {
            Json::Str(s) => Ok(s.clone()),
            _ => Err(SchemaError),
        },
        None => Err(SchemaError),
    }
}

/// A required boolean field.
pub fn get_bool(fields: &Vec<(String, Json)>, name: &str) -> (r: Result<bool, SchemaError>)
    ensures
        r is Ok <==> is_bool_field(lookup(json_field_views(fields@), name@)),
        r matches Ok(b) ==> b == bool_field(lookup(json_field_views(fields@), name@)),
{
    match obj_get(fields, name) {
        Some(j) => match j {
            Json::Bool(b) => Ok(*b),
            _ => Err(SchemaError),
        },
        None => Err(SchemaError),
    }
}

/// A required unsigned 64-bit number field.
pub fn get_u64(fields: &Vec<(String, Json)>, name: &str) -> (r: Result<u64, SchemaError>)
    ensures
        r is Ok <==> is_u64_field(lookup(json_field_views(fields@), name@)),
        r matches Ok(n) ==> n == u64_field(lookup(json_field_views(fields@), name@)),
{
    match obj_get(fields, name) {
        Some(j) => match j {
            Json::Num(n) => {
                if 0 <= *n && *n <= u64::MAX as i128 {
                    Ok(*n as u64)
                } else {
                    Err(SchemaError)
                }
            },
            _ => Err(SchemaError),
        },
        None => Err(SchemaError),
    }
}

/// A required unsigned 32-bit number field.
pub fn get_u32(fields: &Vec<(String, Json)>, name: &str) -> (r: Result<u32, SchemaError>)
    ensures
        r is Ok <==> is_u32_field(lookup(json_field_views(fields@), name@)),
        r matches Ok(n) ==> n == u32_field(lookup(json_field_views(fields@), name@)),
{
    match obj_get(fields, name) {
        Some(j) => match j {
            Json::Num(n) => {
                if 0 <= *n && *n <= u32::MAX as i128 {
                    Ok(*n as u32)
                } else {
                    Err(SchemaError)
                }
            },
            _ => Err(SchemaError),
        },
        None => Err(SchemaError),
    }
}

/// A required unsigned 8-bit number field.
pub fn get_u8(fields: &Vec<(String, Json)>, name: &str) -> (r: Result<u8, SchemaError>)
    ensures
        r is Ok <==> is_u8_field(lookup(json_field_views(fields@), name@)),
        r matches Ok(n) ==> n == u8_field(lookup(json_field_views(fields@), name@)),
{
    match obj_get(fields, name) {
        Some(j) => match j {
            Json::Num(n) => {
                if 0 <= *n && *n <= u8::MAX as i128 {
                    Ok(*n as u8)
                } else {
                    Err(SchemaError)
                }
            },
            _ => Err(SchemaError),
        },
        None => Err(SchemaError),
    }
}

/// A required signed 64-bit number field.
pub fn get_i64(fields: &Vec<(String, Json)>, name: &str) -> (r: Result<i64, SchemaError>)
    ensures
        r is Ok <==> is_i64_field(lookup(json_field_views(fields@), name@)),
        r matches Ok(n) ==> n == i64_field(lookup(json_field_views(fields@), name@)),
{
    match obj_get(fields, name) {
        Some(j) => match j {
            Json::Num(n) => {
                if i64::MIN as i128 <= *n && *n <= i64::MAX as i128 {
                    Ok(*n as i64)
                } else {
                    Err(SchemaError)
                }
            },
            _ => Err(SchemaError),
        },
        None => Err(SchemaError),
    }
}

/// An optional string field; omitted and `null` both read as `None`.
pub fn get_opt_str(fields: &Vec<(String, Json)>, name: &str) -> (r: Result<
    Option<String>,
    SchemaError,
>)
    ensures
        r is Ok <==> is_opt_str_field(lookup(json_field_views(fields@), name@)),
        r matches Ok(s) ==> s.deep_view() == opt_str_field(lookup(json_field_views(fields@), name@)),
{
    match obj_get(fields, name) {
        None => Ok(None),
        Some(j) => match j {
            Json::Null => Ok(None),
            Json::Str(s) => Ok(Some(s.clone())),
            _ => Err(SchemaError),
        },
    }
}

/// An optional unsigned 64-bit number field.
pub fn get_opt_u64(fields: &Vec<(String, Json)>, name: &str) -> (r: Result<
    Option<u64>,
    SchemaError,
>)
    ensures
        r is Ok <==> is_opt_u64_field(lookup(json_field_views(fields@), name@)),
        r matches Ok(n) ==> n == opt_u64_field(lookup(json_field_views(fields@), name@)),
{
    match obj_get(fields, name) {
        None => Ok(None),
        Some(j) => match j {
            Json::Null => Ok(None),
            Json::Num(n) => {
                if 0 <= *n && *n <= u64::MAX as i128 {
                    Ok(Some(*n as u64))
                } else {
                    Err(SchemaError)
                }
            },
            _ => Err(SchemaError),
        },
    }
}

/// An optional boolean field.
pub fn get_opt_bool(fields: &Vec<(String, Json)>, name: &str) -> (r: Result<
    Option<bool>,
    SchemaError,
>)
    ensures
        r is Ok <==> is_opt_bool_field(lookup(json_field_views(fields@), name@)),
        r matches Ok(b) ==> b == opt_bool_field(lookup(json_field_views(fields@), name@)),
{
    match obj_get(fields, name) {
        None => Ok(None),
        Some(j) => match j {
            Json::Null => Ok(None),
            Json::Bool(b) => Ok(Some(*b)),
            _ => Err(SchemaError),
        },
    }
}

/// Reads an array's items as strings.
pub fn decode_str_items(items: &Vec<Json>) -> (r: Result<Vec<String>, SchemaError>)
    ensures
        r is Ok <==> all_strs(json_views(items@)),
        r matches Ok(out) ==> out.deep_view() == strs_of(json_views(items@)),
{
    proof {
        lemma_json_views_index(items@);
    }
    let mut out: Vec<String> = Vec::new();
    let mut i: usize = 0;
    while i < items.len()
        invariant
            i <= items.len(),
            out@.len() == i,
            json_views(items@).len() == items@.len(),
            forall|k: int| 0 <= k < items@.len() ==> json_views(items@)[k]
                == json_view(#[trigger] items@[k]),
            forall|k: int| 0 <= k < i ==> (#[trigger] json_views(items@)[k]) is Str,
            forall|k: int| 0 <= k < i ==> out@[k]@ == (#[trigger] json_views(items@)[k])->Str_0,
        decreases items.len() - i,
    {
        match &items[i] {
            Json::Str(s) => out.push(s.clone()),
            _ => {
                return Err(SchemaError);
            },
        }
        i = i + 1;
    }
    proof {
        assert(out.deep_view() =~= strs_of(json_views(items@)));
    }
    Ok(out)
}

/// Reads an object's values as strings, keeping the binding order.
pub fn decode_str_pairs(fields: &Vec<(String, Json)>) -> (r: Result<
    Vec<(String, String)>,
    SchemaError,
>)
    ensures
        r is Ok <==> all_str_vals(json_field_views(fields@)),
        r matches Ok(out) ==> out.deep_view() == str_map_of(json_field_views(fields@)),
{
    proof {
        lemma_json_field_views_index(fields@);
    }
    let mut out: Vec<(String, String)> = Vec::new();
    let mut i: usize = 0;
    while i < fields.len()
        invariant
            i <= fields.len(),
            out@.len() == i,
            json_field_views(fields@).len() == fields@.len(),
            forall|k: int| 0 <= k < fields@.len() ==> json_field_views(fields@)[k]
                == ((#[trigger] fields@[k]).0@, json_view(fields@[k].1)),
            forall|k: int| 0 <= k < i ==> (#[trigger] json_field_views(fields@)[k]).1 is Str,
            forall|k: int| 0 <= k < i ==> (#[trigger] out@[k]).0@ == json_field_views(fields@)[k].0
                && out@[k].1@ == json_field_views(fields@)[k].1->Str_0,
        decreases fields.len() - i,
    {
        match &fields[i].1 {
            Json::Str(s) => out.push((fields[i].0.clone(), s.clone())),
            _ => {
                return Err(SchemaError);
            },
        }
        i = i + 1;
    }
    proof {
        assert(out.deep_view() =~= str_map_of(json_field_views(fields@)));
    }
    Ok(out)
}

/// A required string array field.
pub fn get_str_arr(fields: &Vec<(String, Json)>, name: &str) -> (r: Result<
    Vec<String>,
    SchemaError,
>)
    ensures
        r is Ok <==> is_str_arr_field(lookup(json_field_views(fields@), name@)),
        r matches Ok(out) ==> out.deep_view() == str_arr_field(
            lookup(json_field_views(fields@), name@),
        ),
{
    match obj_get(fields, name) {
        Some(j) => match j {
            Json::Arr(items) => decode_str_items(items),
            _ => Err(SchemaError),
        },
        None => Err(SchemaError),
    }
}

/// An optional string array field.
pub fn get_opt_str_arr(fields: &Vec<(String, Json)>, name: &str) -> (r: Result<
    Option<Vec<String>>,
    SchemaError,
>)
    ensures
        r is Ok <==> is_opt_str_arr_field(lookup(json_field_views(fields@), name@)),
        r matches Ok(out) ==> out.deep_view() == opt_str_arr_field(
            lookup(json_field_views(fields@), name@),
        ),
{
    match obj_get(fields, name) {
        None => Ok(None),
        Some(j) => match j {
            Json::Null => Ok(None),
            Json::Arr(items) => match decode_str_items(items) {
                Ok(out) => Ok(Some(out)),
                Err(e) => Err(e),
            },
            _ => Err(SchemaError),
        },
    }
}

/// A nullable string array field, normalized: omitted or `null` reads
/// as the empty list.
pub fn get_norm_str_arr(fields: &Vec<(String, Json)>, name: &str) -> (r: Result<
    Vec<String>,
    SchemaError,
>)
    ensures
        r is Ok <==> is_norm_str_arr_field(lookup(json_field_views(fields@), name@)),
        r matches Ok(out) ==> out.deep_view() == norm_str_arr_field(
            lookup(json_field_views(fields@), name@),
        ),
{
    match obj_get(fields, name) {
        None => Ok(Vec::new()),
        Some(j) => match j {
            Json::Null => Ok(Vec::new()),
            Json::Arr(items) => decode_str_items(items),
            _ => Err(SchemaError),
        },
    }
}

/// A required string-to-string map field.
pub fn get_str_map(fields: &Vec<(String, Json)>, name: &str) -> (r: Result<
    Vec<(String, String)>,
    SchemaError,
>)
    ensures
        r is Ok <==> is_str_map_field(lookup(json_field_views(fields@), name@)),
        r matches Ok(out) ==> out.deep_view() == str_map_field(
            lookup(json_field_views(fields@), name@),
        ),
{
    match obj_get(fields, name) {
        Some(j) => match j {
            Json::Obj(inner) => decode_str_pairs(inner),
            _ => Err(SchemaError),
        },
        None => Err(SchemaError),
    }
}

/// An optional string-to-string map field.
pub fn get_opt_str_map(fields: &Vec<(String, Json)>, name: &str) -> (r: Result<
    Option<Vec<(String, String)>>,
    SchemaError,
>)
    ensures
        r is Ok <==> is_opt_str_map_field(lookup(json_field_views(fields@), name@)),
        r matches Ok(out) ==> out.deep_view() == opt_str_map_field(
            lookup(json_field_views(fields@), name@),
        ),
{
    match obj_get(fields, name) {
        None => Ok(None),
        Some(j) => match j {
            Json::Null => Ok(None),
            Json::Obj(inner) => match decode_str_pairs(inner) {
                Ok(out) => Ok(Some(out)),
                Err(e) => Err(e),
            },
            _ => Err(SchemaError),
        },
    }
}

/// An optional placeholder-map field: an object whose values are
/// themselves objects of strings, kept only as opaque content.
pub fn get_opt_obj_map(fields: &Vec<(String, Json)>, name: &str) -> (r: Result<
    Option<Vec<(String, Vec<(String, String)>)>>,
    SchemaError,
>)
    ensures
        r is Ok <==> is_opt_obj_map_field(lookup(json_field_views(fields@), name@)),
        r matches Ok(m) ==> m.deep_view() == opt_obj_map_field(
            lookup(json_field_views(fields@), name@),
        ),
{
    let inner = match obj_get(fields, name) {
        None => {
            return Ok(None);
        },
        Some(j) => match j {
            Json::Null => {
                return Ok(None);
            },
            Json::Obj(inner) => inner,
            _ => {
                return Err(SchemaError);
            },
        },
    };
    proof {
        lemma_json_field_views_index(inner@);
    }
    let mut out: Vec<(String, Vec<(String, String)>)> = Vec::new();
    let mut i: usize = 0;
    while i < inner.len()
        invariant
            lookup(json_field_views(fields@), name@) == Some(
                JsonV::Obj(json_field_views(inner@)),
            ),
            i <= inner.len(),
            out@.len() == i,
            json_field_views(inner@).len() == inner@.len(),
            forall|k: int| 0 <= k < inner@.len() ==> json_field_views(inner@)[k]
                == ((#[trigger] inner@[k]).0@, json_view(inner@[k].1)),
            forall|k: int| 0 <= k < i ==> is_str_map_field(
                Some((#[trigger] json_field_views(inner@)[k]).1),
            ),
            forall|k: int| 0 <= k < i ==> (#[trigger] out@[k]).0@ == json_field_views(
                inner@,
            )[k].0 && out@[k].1.deep_view() == str_map_field(
                Some(json_field_views(inner@)[k].1),
            ),
        decreases inner.len() - i,
    {
        let val = match &inner[i].1 {
            Json::Obj(vs) => match decode_str_pairs(vs) {
                Ok(val) => val,
                Err(e) => {
                    proof {
                        assert(!is_str_map_field(Some(json_field_views(inner@)[i as int].1)));
                    }
                    return Err(e);
                },
            },
            _ => {
                proof {
                    assert(!is_str_map_field(Some(json_field_views(inner@)[i as int].1)));
                }
                return Err(SchemaError);
            },
        };
        out.push((inner[i].0.clone(), val));
        i = i + 1;
    }
    proof {
        let target = obj_map_of(json_field_views(inner@));
        assert forall|k: int| 0 <= k < out@.len() implies out.deep_view()[k] == target[k] by {
            assert(out.deep_view()[k] == (out@[k].0@, out@[k].1.deep_view()));
            assert(target[k] == (
                json_field_views(inner@)[k].0,
                str_map_field(Some(json_field_views(inner@)[k].1)),
            ));
        }
        assert(out.deep_view() =~= target);
    }
    Ok(Some(out))
}

/// Builds the encoding of an optional placeholder map.
pub fn mk_opt_obj_map_json(o: &Option<Vec<(String, Vec<(String, String)>)>>) -> (r: Json)
    ensures
        r@ == jv_opt_obj_map(o.deep_view()),
{
    let pairs = match o {
        Some(pairs) => pairs,
        None => {
            return Json::Null;
        },
    };
    let mut out: Vec<(String, Json)> = Vec::new();
    let mut i: usize = 0;
    while i < pairs.len()
        invariant
            i <= pairs.len(),
            out@.len() == i,
            forall|k: int| 0 <= k < i ==> (#[trigger] out@[k]).0@ == pairs@[k].0@ && out@[k].1@
                == jv_str_map(pairs@[k].1.deep_view()),
        decreases pairs.len() - i,
    {
        out.push((pairs[i].0.clone(), mk_str_map_json(&pairs[i].1)));
        i = i + 1;
    }
    let r = Json::Obj(out);
    proof {
        lemma_json_field_views_index(out@);
        let target = pairs.deep_view().map_values(
            |p: (Seq<char>, Seq<(Seq<char>, Seq<char>)>)| (p.0, jv_str_map(p.1)),
        );
        assert forall|k: int| 0 <= k < out@.len() implies json_field_views(out@)[k]
            == target[k] by {
            assert(json_field_views(out@)[k] == (out@[k].0@, json_view(out@[k].1)));
            assert(pairs.deep_view()[k] == (pairs@[k].0@, pairs@[k].1.deep_view()));
        }
        assert(json_field_views(out@) =~= target);
    }
    r
}

} // verus!

