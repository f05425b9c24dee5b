//! The filesystem-diff records the engine API returns.

use vstd::prelude::*;

use crate::json::field_of;
use crate::json::get_str;
use crate::json::get_u8;
use crate::json::is_str_field;
use crate::json::is_u8_field;
use crate::json::json_field_views;
use crate::json::lemma_json_field_views_index;
use crate::json::lookup;
use crate::json::str_field;
use crate::json::u8_field;
use crate::json::Json;
use crate::json::JsonV;
use crate::json::SchemaError;

verus! {

/// The mathematical value of a diff entry.
pub struct FilesystemChangeV {
    pub path: Seq<char>,
    pub kind: u8,
}

/// One entry of a container filesystem diff.  `kind` is the engine's
/// small integer tag: added, modified or deleted.
#[derive(Debug, Clone, PartialEq)]
pub struct FilesystemChange {
    pub path: String,
    pub kind: u8,
}

impl View for FilesystemChange {
    type V = FilesystemChangeV;

    open spec fn view(&self) -> FilesystemChangeV {
        FilesystemChangeV { path: self.path@, kind: self.kind }
    }
}

impl FilesystemChange {
    /// The shape a diff entry must have on the wire.
    pub open spec fn json_ok(v: JsonV) -> bool {
        &&& v is Obj
        &&& is_str_field(field_of(v, "Path"@))
        &&& is_u8_field(field_of(v, "Kind"@))
    }

    /// The record a well-shaped diff entry decodes to.
    pub open spec fn of_json(v: JsonV) -> FilesystemChangeV {
        FilesystemChangeV {
            path: str_field(field_of(v, "Path"@)),
            kind: u8_field(field_of(v, "Kind"@)),
        }
    }

    /// The tree a diff entry encodes to.
    pub open spec fn spec_encode(c: FilesystemChangeV) -> JsonV {
        JsonV::Obj(seq![("Path"@, JsonV::Str(c.path)), ("Kind"@, JsonV::Num(c.kind as int))])
    }

    /// Decodes one diff entry.
    pub fn decode(v: &Json) -> (r: Result<Self, SchemaError>)
        ensures
            r is Ok <==> Self::json_ok(v@),
            r matches Ok(c) ==> c@ == Self::of_json(v@),
    {
        let fields = match v {
            Json::Obj(fields) => fields,
            _ => {
                return Err(SchemaError);
            },
        };
        let path = get_str(fields, "Path")?;
        let kind = get_u8(fields, "Kind")?;
        Ok(FilesystemChange { path, kind })
    }

    /// Encodes this diff entry.
    pub fn to_json(&self) -> (r: Json)
        ensures
            r@ == Self::spec_encode(self@),
    {
        let fields: Vec<(String, Json)> = vec![
            ("Path".to_owned(), Json::Str(self.path.clone())),
            ("Kind".to_owned(), Json::Num(self.kind as i128)),
        ];
        let r = Json::Obj(fields);
        proof {
            lemma_json_field_views_index(fields@);
            assert(json_field_views(fields@) =~= Self::spec_encode(self@)->Obj_0);
        }
        r
    }
}

impl FilesystemChange {
    /// Decodes each entry of a diff response independently: one
    /// malformed entry yields its own error and does not affect its
    /// siblings.
    pub fn decode_each(items: &Vec<Json>) -> (r: Vec<Result<Self, SchemaError>>)
        ensures
            r@.len() == items@.len(),
            forall|k: int| 0 <= k < items@.len() ==> ((#[trigger] r@[k]) is Ok
                <==> Self::json_ok(items@[k]@)),
            forall|k: int| 0 <= k < items@.len() ==> ((#[trigger] r@[k]) matches Ok(c) ==> c@
                == Self::of_json(items@[k]@)),
    {
        let mut out: Vec<Result<Self, SchemaError>> = Vec::new();
        let mut i: usize = 0;
        while i < items.len()
            invariant
                i <= items.len(),
                out@.len() == i,
                forall|k: int| 0 <= k < i ==> ((#[trigger] out@[k]) is Ok <==> Self::json_ok(
                    items@[k]@,
                )),
                forall|k: int| 0 <= k < i ==> ((#[trigger] out@[k]) matches Ok(c) ==> c@
                    == Self::of_json(items@[k]@)),
            decreases items.len() - i,
        {
            out.push(Self::decode(&items[i]));
            i = i + 1;
        }
        out
    }
}

/// Law: decoding an encoded diff entry yields the record back.
pub proof fn lemma_filesystem_change_round_trip(c: FilesystemChangeV)
    ensures
        FilesystemChange::json_ok(FilesystemChange::spec_encode(c)),
        FilesystemChange::of_json(FilesystemChange::spec_encode(c)) == c,
{
    reveal_strlit("Path");
    reveal_strlit("Kind");
    assert("Path"@.len() == 4);
    assert("Kind"@.len() == 4);
    assert("Path"@[0] == 'P');
    assert("Kind"@[0] == 'K');
    reveal_with_fuel(lookup, 3);
    let w = FilesystemChange::spec_encode(c);
    assert(field_of(w, "Path"@) == Some(JsonV::Str(c.path)));
    assert(field_of(w, "Kind"@) == Some(JsonV::Num(c.kind as int)));
}

} // verus!
