//! The image resource records the engine API returns.

use vstd::prelude::*;

use crate::json::field_of;
use crate::json::get_norm_str_arr;
use crate::json::get_opt_str;
use crate::json::get_str;
use crate::json::get_u64;
use crate::json::is_norm_str_arr_field;
use crate::json::is_opt_str_field;
use crate::json::is_str_field;
use crate::json::is_u64_field;
use crate::json::json_field_views;
use crate::json::jv_opt_str;
use crate::json::jv_strs;
use crate::json::lemma_json_field_views_index;
use crate::json::lemma_jv_strs_round;
use crate::json::lookup;
use crate::json::mk_opt_str_json;
use crate::json::mk_strs_json;
use crate::json::norm_str_arr_field;
use crate::json::opt_str_field;
use crate::json::str_field;
use crate::json::u64_field;
use crate::json::Json;
use crate::json::JsonV;
use crate::json::SchemaError;

verus! {

/// The mathematical value of an image-listing row.
pub struct ImageV {
    pub created: u64,
    pub id: Seq<char>,
    pub parent_id: Seq<char>,
    pub repo_tags: Seq<Seq<char>>,
    pub size: u64,
    pub virtual_size: u64,
}

/// One row of an image-listing response.  The server sends
/// `RepoTags: null` for an untagged image; decoding normalizes that to
/// an empty list, so callers never see a nullable value here.
#[derive(Debug, Clone, PartialEq)]
pub struct Image {
    pub created: u64,
    pub id: String,
    pub parent_id: String,
    pub repo_tags: Vec<String>,
    pub size: u64,
    pub virtual_size: u64,
}

impl View for Image {
    type V = ImageV;

    open spec fn view(&self) -> ImageV {
        ImageV {
            created: self.created,
            id: self.id@,
            parent_id: self.parent_id@,
            repo_tags: self.repo_tags.deep_view(),
            size: self.size,
            virtual_size: self.virtual_size,
        }
    }
}

impl Image {
    /// The shape an image row must have on the wire.  `RepoTags` may
    /// be a string list, `null`, or missing; anything else is an
    /// error, never a silent default.
    pub open spec fn json_ok(v: JsonV) -> bool {
        &&& v is Obj
        &&& is_u64_field(field_of(v, "Created"@))
        &&& is_str_field(field_of(v, "Id"@))
        &&& is_str_field(field_of(v, "ParentId"@))
        &&& is_norm_str_arr_field(field_of(v, "RepoTags"@))
        &&& is_u64_field(field_of(v, "Size"@))
        &&& is_u64_field(field_of(v, "VirtualSize"@))
    }

    /// The record a well-shaped image row decodes to.
    pub open spec fn of_json(v: JsonV) -> ImageV {
        ImageV {
            created: u64_field(field_of(v, "Created"@)),
            id: str_field(field_of(v, "Id"@)),
            parent_id: str_field(field_of(v, "ParentId"@)),
            repo_tags: norm_str_arr_field(field_of(v, "RepoTags"@)),
            size: u64_field(field_of(v, "Size"@)),
            virtual_size: u64_field(field_of(v, "VirtualSize"@)),
        }
    }

    /// The tree an image row encodes to.
    pub open spec fn spec_encode(m: ImageV) -> JsonV {
        JsonV::Obj(
            seq![
                ("Created"@, JsonV::Num(m.created as int)),
                ("Id"@, JsonV::Str(m.id)),
                ("ParentId"@, JsonV::Str(m.parent_id)),
                ("RepoTags"@, jv_strs(m.repo_tags)),
                ("Size"@, JsonV::Num(m.size as int)),
                ("VirtualSize"@, JsonV::Num(m.virtual_size as int)),
            ],
        )
    }

    /// Decodes one image row, normalizing a `null` tag list to empty.
    pub fn decode(v: &Json) -> (r: Result<Self, SchemaError>)
        ensures
            r is Ok <==> Self::json_ok(v@),
            r matches Ok(m) ==> m@ == Self::of_json(v@),
    {
        let fields = match v {
            Json::Obj(fields) => fields,
            _ => {
                return Err(SchemaError);
            },
        };
        let created = get_u64(fields, "Created")?;
        let id = get_str(fields, "Id")?;
        let parent_id = get_str(fields, "ParentId")?;
        let repo_tags = get_norm_str_arr(fields, "RepoTags")?;
        let size = get_u64(fields, "Size")?;
        let virtual_size = get_u64(fields, "VirtualSize")?;
        Ok(Image { created, id, parent_id, repo_tags, size, virtual_size })
    }

    /// Encodes this image row.
    pub fn to_json(&self) -> (r: Json)
        ensures
            r@ == Self::spec_encode(self@),
    {
        let fields: Vec<(String, Json)> = vec![
            ("Created".to_owned(), Json::Num(self.created as i128)),
            ("Id".to_owned(), Json::Str(self.id.clone())),
            ("ParentId".to_owned(), Json::Str(self.parent_id.clone())),
            ("RepoTags".to_owned(), mk_strs_json(&self.repo_tags)),
            ("Size".to_owned(), Json::Num(self.size as i128)),
            ("VirtualSize".to_owned(), Json::Num(self.virtual_size as i128)),
        ];
        let r = Json::Obj(fields);
        proof {
            lemma_json_field_views_index(fields@);
            assert(json_field_views(fields@) =~= Self::spec_encode(self@)->Obj_0);
        }
        r
    }
}

impl Image {
    /// Decodes each row of an image-listing response independently:
    /// one malformed row yields its own error and does not affect its
    /// siblings.
    pub fn decode_each(items: &Vec<Json>) -> (r: Vec<Result<Self, SchemaError>>)
        ensures
            r@.len() == items@.len(),
            forall|k: int| 0 <= k < items@.len() ==> ((#[trigger] r@[k]) is Ok
                <==> Self::json_ok(items@[k]@)),
            forall|k: int| 0 <= k < items@.len() ==> ((#[trigger] r@[k]) matches Ok(m) ==> m@
                == Self::of_json(items@[k]@)),
    {
        let mut out: Vec<Result<Self, SchemaError>> = Vec::new();
        let mut i: usize = 0;
        while i < items.len()
            invariant
                i <= items.len(),
                out@.len() == i,
                forall|k: int| 0 <= k < i ==> ((#[trigger] out@[k]) is Ok <==> Self::json_ok(
                    items@[k]@,
                )),
                forall|k: int| 0 <= k < i ==> ((#[trigger] out@[k]) matches Ok(m) ==> m@
                    == Self::of_json(items@[k]@)),
            decreases items.len() - i,
        {
            out.push(Self::decode(&items[i]));
            i = i + 1;
        }
        out
    }
}

/// Law: decoding an encoded image row yields the record back.
pub proof fn lemma_image_round_trip(m: ImageV)
    ensures
        Image::json_ok(Image::spec_encode(m)),
        Image::of_json(Image::spec_encode(m)) == m,
{
    reveal_strlit("Created");
    reveal_strlit("Id");
    reveal_strlit("ParentId");
    reveal_strlit("RepoTags");
    reveal_strlit("Size");
    reveal_strlit("VirtualSize");
    assert("Created"@.len() == 7);
    assert("Id"@.len() == 2);
    assert("ParentId"@.len() == 8);
    assert("RepoTags"@.len() == 8);
    assert("Size"@.len() == 4);
    assert("VirtualSize"@.len() == 11);
    assert("ParentId"@[0] == 'P');
    assert("RepoTags"@[0] == 'R');
    reveal_with_fuel(lookup, 7);
    let w = Image::spec_encode(m);
    assert(field_of(w, "Created"@) == Some(JsonV::Num(m.created as int)));
    assert(field_of(w, "Id"@) == Some(JsonV::Str(m.id)));
    assert(field_of(w, "ParentId"@) == Some(JsonV::Str(m.parent_id)));
    assert(field_of(w, "RepoTags"@) == Some(jv_strs(m.repo_tags)));
    assert(field_of(w, "Size"@) == Some(JsonV::Num(m.size as int)));
    assert(field_of(w, "VirtualSize"@) == Some(JsonV::Num(m.virtual_size as int)));
    lemma_jv_strs_round(m.repo_tags);
}

/// Law: a `null` tag list decodes to the empty list, never an error
/// and never a visible `null`.  The same holds when the field is
/// missing entirely.
pub proof fn lemma_image_null_tags_normalized(v: JsonV)
    requires
        Image::json_ok(v),
        field_of(v, "RepoTags"@) is None || field_of(v, "RepoTags"@) == Some(JsonV::Null),
    ensures
        Image::of_json(v).repo_tags == Seq::<Seq<char>>::empty(),
{
}

/// Law (unknown-field tolerance): a payload carrying one extra field
/// under an unrecognized name decodes exactly as the same payload
/// without it.
pub proof fn lemma_image_unknown_field_tolerance(
    fields: Seq<(Seq<char>, JsonV)>,
    extra: (Seq<char>, JsonV),
)
    requires
        extra.0 != "Created"@,
        extra.0 != "Id"@,
        extra.0 != "ParentId"@,
        extra.0 != "RepoTags"@,
        extra.0 != "Size"@,
        extra.0 != "VirtualSize"@,
    ensures
        Image::json_ok(JsonV::Obj(fields.push(extra))) == Image::json_ok(JsonV::Obj(fields)),
        Image::of_json(JsonV::Obj(fields.push(extra))) == Image::of_json(JsonV::Obj(fields)),
{
    crate::json::lemma_lookup_ignores_unknown(fields, extra, "Created"@);
    crate::json::lemma_lookup_ignores_unknown(fields, extra, "Id"@);
    crate::json::lemma_lookup_ignores_unknown(fields, extra, "ParentId"@);
    crate::json::lemma_lookup_ignores_unknown(fields, extra, "RepoTags"@);
    crate::json::lemma_lookup_ignores_unknown(fields, extra, "Size"@);
    crate::json::lemma_lookup_ignores_unknown(fields, extra, "VirtualSize"@);
}

/// The mathematical value of a pull or push progress frame.
pub struct ImageStatusV {
    pub status: Option<Seq<char>>,
    pub error: Option<Seq<char>>,
}

/// One progress frame of an image pull or push.  In practice exactly
/// one of the two fields is populated, but both stay optional to
/// tolerate partial frames.
#[derive(Debug, Clone, PartialEq)]
pub struct ImageStatus {
    pub status: Option<String>,
    pub error: Option<String>,
}

impl View for ImageStatus {
    type V = ImageStatusV;

    open spec fn view(&self) -> ImageStatusV {
        ImageStatusV { status: self.status.deep_view(), error: self.error.deep_view() }
    }
}

impl ImageStatus {
    /// The shape a progress frame must have on the wire.  These field
    /// names are lowercase on the wire, unlike the resource records.
    pub open spec fn json_ok(v: JsonV) -> bool {
        &&& v is Obj
        &&& is_opt_str_field(field_of(v, "status"@))
        &&& is_opt_str_field(field_of(v, "error"@))
    }

    /// The record a well-shaped frame decodes to.
    pub open spec fn of_json(v: JsonV) -> ImageStatusV {
        ImageStatusV {
            status: opt_str_field(field_of(v, "status"@)),
            error: opt_str_field(field_of(v, "error"@)),
        }
    }

    /// The tree a progress frame encodes to.
    pub open spec fn spec_encode(s: ImageStatusV) -> JsonV {
        JsonV::Obj(seq![("status"@, jv_opt_str(s.status)), ("error"@, jv_opt_str(s.error))])
    }

    /// Decodes one progress frame.
    pub fn decode(v: &Json) -> (r: Result<Self, SchemaError>)
        ensures
            r is Ok <==> Self::json_ok(v@),
            r matches Ok(s) ==> s@ == Self::of_json(v@),
    {
        let fields = match v {
            Json::Obj(fields) => fields,
            _ => {
                return Err(SchemaError);
            },
        };
        let status = get_opt_str(fields, "status")?;
        let error = get_opt_str(fields, "error")?;
        Ok(ImageStatus { status, error })
    }

    /// Encodes this progress frame.
    pub fn to_json(&self) -> (r: Json)
        ensures
            r@ == Self::spec_encode(self@),
    {
        let fields: Vec<(String, Json)> = vec![
            ("status".to_owned(), mk_opt_str_json(&self.status)),
            ("error".to_owned(), mk_opt_str_json(&self.error)),
        ];
        let r = Json::Obj(fields);
        proof {
            lemma_json_field_views_index(fields@);
            assert(json_field_views(fields@) =~= Self::spec_encode(self@)->Obj_0);
        }
        r
    }
}

/// Law: decoding an encoded progress frame yields the record back.
pub proof fn lemma_image_status_round_trip(s: ImageStatusV)
    ensures
        ImageStatus::json_ok(ImageStatus::spec_encode(s)),
        ImageStatus::of_json(ImageStatus::spec_encode(s)) == s,
{
    reveal_strlit("status");
    reveal_strlit("error");
    assert("status"@.len() == 6);
    assert("error"@.len() == 5);
    reveal_with_fuel(lookup, 3);
    let w = ImageStatus::spec_encode(s);
    assert(field_of(w, "status"@) == Some(jv_opt_str(s.status)));
    assert(field_of(w, "error"@) == Some(jv_opt_str(s.error)));
}

} // verus!
