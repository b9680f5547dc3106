//! Schema metadata: the generic attribute tree that describes any resource
//! type's shape, the embedded canonical schema documents, and the shared
//! `Meta` record.

use vstd::prelude::*;

use crate::json::{
    fe_error, fe_msg, field_bool, field_opt_bool, field_opt_string, field_opt_strings,
    field_string, json_ok, lemma_fields_deep_view, lemma_obj_get_at, lemma_ok_arr, lemma_ok_obj,
    lemma_ok_printable, lemma_opt_string_round_trip, lemma_opt_strings_json_ok,
    lemma_opt_strings_round_trip, lemma_spec_json_fields, lemma_spec_json_seq, not_object_error,
    not_object_msg, obj_get, opt_string_json, opt_strings_json, parse_json, print_json, res_view,
    spec_field_bool, spec_field_opt_bool, spec_field_opt_string, spec_field_opt_strings,
    spec_field_string, spec_json, spec_json_fields, spec_json_seq, spec_obj_get,
    spec_opt_string_json, spec_opt_strings_json, FieldError, JsonValue, SpecJson,
};
use crate::utils::error::{ErrorView, SCIMError};

verus! {

/// Resource metadata: kind, timestamps, version and location, all optional.
#[derive(Debug, PartialEq, Default)]
pub struct Meta {
    pub resource_type: Option<String>,
    pub created: Option<String>,
    pub last_modified: Option<String>,
    pub version: Option<String>,
    pub location: Option<String>,
}

/// Mathematical model of `Meta`.
#[verifier::ext_equal]
pub struct MetaView {
    pub resource_type: Option<Seq<char>>,
    pub created: Option<Seq<char>>,
    pub last_modified: Option<Seq<char>>,
    pub version: Option<Seq<char>>,
    pub location: Option<Seq<char>>,
}

impl DeepView for Meta {
    type V = MetaView;

    open spec fn deep_view(&self) -> MetaView {
        MetaView {
            resource_type: self.resource_type.deep_view(),
            created: self.created.deep_view(),
            last_modified: self.last_modified.deep_view(),
            version: self.version.deep_view(),
            location: self.location.deep_view(),
        }
    }
}

/// What reading a `Meta` from a document yields: five optional strings under
/// the protocol's names, or the first offending field in declaration order.
pub open spec fn spec_meta_from_json(j: SpecJson) -> Result<MetaView, ErrorView> {
    match j {
        SpecJson::Obj(fields) => match spec_field_opt_string(
            spec_obj_get(fields, "resourceType"@),
        ) {
            Err(e) => Err(fe_msg("resourceType"@, e)),
            Ok(resource_type) => match spec_field_opt_string(spec_obj_get(fields, "created"@)) {
                Err(e) => Err(fe_msg("created"@, e)),
                Ok(created) => match spec_field_opt_string(
                    spec_obj_get(fields, "lastModified"@),
                ) {
                    Err(e) => Err(fe_msg("lastModified"@, e)),
                    Ok(last_modified) => match spec_field_opt_string(
                        spec_obj_get(fields, "version"@),
                    ) {
                        Err(e) => Err(fe_msg("version"@, e)),
                        Ok(version) => match spec_field_opt_string(
                            spec_obj_get(fields, "location"@),
                        ) {
                            Err(e) => Err(fe_msg("location"@, e)),
                            Ok(location) => Ok(
                                MetaView {
                                    resource_type,
                                    created,
                                    last_modified,
                                    version,
                                    location,
                                },
                            ),
                        },
                    },
                },
            },
        },
        _ => Err(not_object_msg()),
    }
}

/// The document form of a `Meta`: one object, members in declaration order,
/// unset slots as null.
pub open spec fn spec_meta_to_json(m: MetaView) -> SpecJson {
    SpecJson::Obj(
        seq![
            ("resourceType"@, spec_opt_string_json(m.resource_type)),
            ("created"@, spec_opt_string_json(m.created)),
            ("lastModified"@, spec_opt_string_json(m.last_modified)),
            ("version"@, spec_opt_string_json(m.version)),
            ("location"@, spec_opt_string_json(m.location)),
        ],
    )
}

impl Meta {
    /// Reads a `Meta` from a document tree.
    pub fn from_json_value(v: &JsonValue) -> (r: Result<Meta, SCIMError>)
        ensures
            res_view(r) == spec_meta_from_json(v.deep_view()),
    {
        let fields = match v {
            JsonValue::Obj(fields) => fields,
            _ => {
                return Err(not_object_error());
            },
        };
        proof {
            crate::json::lemma_fields_deep_view(*fields);
        }
        let resource_type = match field_opt_string(obj_get(fields, "resourceType")) {
            Ok(x) => x,
            Err(e) => {
                return Err(fe_error("resourceType", e));
            },
        };
        let created = match field_opt_string(obj_get(fields, "created")) {
            Ok(x) => x,
            Err(e) => {
                return Err(fe_error("created", e));
            },
        };
        let last_modified = match field_opt_string(obj_get(fields, "lastModified")) {
            Ok(x) => x,
            Err(e) => {
                return Err(fe_error("lastModified", e));
            },
        };
        let version = match field_opt_string(obj_get(fields, "version")) {
            Ok(x) => x,
            Err(e) => {
                return Err(fe_error("version", e));
            },
        };
        let location = match field_opt_string(obj_get(fields, "location")) {
            Ok(x) => x,
            Err(e) => {
                return Err(fe_error("location", e));
            },
        };
        Ok(Meta { resource_type, created, last_modified, version, location })
    }

    /// Writes the `Meta` as a document tree.
    pub fn to_json_value(&self) -> (r: JsonValue)
        ensures
            r.deep_view() == spec_meta_to_json(self.deep_view()),
    {
        let mut fields: Vec<(String, JsonValue)> = Vec::new();
        fields.push((String::from_str("resourceType"), opt_string_json(&self.resource_type)));
        fields.push((String::from_str("created"), opt_string_json(&self.created)));
        fields.push((String::from_str("lastModified"), opt_string_json(&self.last_modified)));
        fields.push((String::from_str("version"), opt_string_json(&self.version)));
        fields.push((String::from_str("location"), opt_string_json(&self.location)));
        proof {
            crate::json::lemma_spec_json_fields(fields@);
            let target = spec_meta_to_json(self.deep_view())->Obj_0;
            assert(fields@.len() == 5);
            assert forall|k: int| 0 <= k < 5 implies spec_json_fields(fields@)[k] == target[k] by {
                assert(spec_json_fields(fields@)[k] == (fields@[k].0@, spec_json(fields@[k].1)));
            }
            assert(spec_json_fields(fields@) =~= target);
        }
        JsonValue::Obj(fields)
    }
}

/// An optional `Meta` field: absent and null mean unset.
pub open spec fn spec_opt_meta(f: Option<SpecJson>) -> Result<Option<MetaView>, ErrorView> {
    match f {
        None => Ok(None),
        Some(SpecJson::Null) => Ok(None),
        Some(j) => match spec_meta_from_json(j) {
            Ok(m) => Ok(Some(m)),
            Err(e) => Err(e),
        },
    }
}

/// Reads an optional `Meta` field.
pub fn opt_meta(f: Option<&JsonValue>) -> (r: Result<Option<Meta>, SCIMError>)
    ensures
        res_view(r) == spec_opt_meta(f.deep_view()),
{
    match f {
        None => Ok(None),
        Some(JsonValue::Null) => Ok(None),
        Some(v) => match Meta::from_json_value(v) {
            Ok(m) => Ok(Some(m)),
            Err(e) => Err(e),
        },
    }
}

/// The document form of an optional `Meta`: null when unset.
pub open spec fn spec_opt_meta_json(o: Option<MetaView>) -> SpecJson {
    match o {
        None => SpecJson::Null,
        Some(m) => spec_meta_to_json(m),
    }
}

/// Builds the document form of an optional `Meta`.
pub fn opt_meta_json(o: &Option<Meta>) -> (r: JsonValue)
    ensures
        r.deep_view() == spec_opt_meta_json(o.deep_view()),
{
    match o {
        None => JsonValue::Null,
        Some(m) => m.to_json_value(),
    }
}

/// An optional `Meta` is well-formed document data at any positive depth.
pub proof fn lemma_opt_meta_json_ok(o: Option<MetaView>, n: nat)
    ensures
        crate::json::json_ok(spec_opt_meta_json(o), n + 1),
{
    match o {
        None => {},
        Some(m) => {
            lemma_meta_json_ok(m, n);
        },
    }
}

/// Reading back the document form of an optional `Meta` yields it.
pub proof fn lemma_opt_meta_round_trip(o: Option<MetaView>)
    ensures
        spec_opt_meta(Some(spec_opt_meta_json(o))) == Ok::<Option<MetaView>, ErrorView>(o),
{
    match o {
        None => {},
        Some(m) => {
            lemma_meta_round_trip(m);
        },
    }
}

/// `Meta` is well-formed document data at any positive depth.
pub proof fn lemma_meta_json_ok(m: MetaView, n: nat)
    ensures
        crate::json::json_ok(spec_meta_to_json(m), n + 1),
{
    let fields = spec_meta_to_json(m)->Obj_0;
    reveal_strlit("resourceType");
    reveal_strlit("created");
    reveal_strlit("lastModified");
    reveal_strlit("version");
    reveal_strlit("location");
    assert("resourceType"@[0] == 'r' && "lastModified"@[0] == 'l');
    assert("created"@[0] == 'c' && "version"@[0] == 'v');
    assert(fields.len() == 5);
    assert forall|i: int| 0 <= i < fields.len() implies crate::json::json_ok(
        (#[trigger] fields[i]).1,
        n,
    ) by {
        assert(fields[0].1 == spec_opt_string_json(m.resource_type));
        assert(fields[1].1 == spec_opt_string_json(m.created));
        assert(fields[2].1 == spec_opt_string_json(m.last_modified));
        assert(fields[3].1 == spec_opt_string_json(m.version));
        assert(fields[4].1 == spec_opt_string_json(m.location));
    }
    assert forall|i: int, k: int| 0 <= i < k < fields.len() implies (#[trigger] fields[i]).0 != (
    #[trigger] fields[k]).0 by {
        assert(fields[0].0 == "resourceType"@);
        assert(fields[1].0 == "created"@);
        assert(fields[2].0 == "lastModified"@);
        assert(fields[3].0 == "version"@);
        assert(fields[4].0 == "location"@);
    }
    crate::json::lemma_ok_obj(fields, n);
}

/// Reading back the document form of a `Meta` yields it.
pub proof fn lemma_meta_round_trip(m: MetaView)
    ensures
        spec_meta_from_json(spec_meta_to_json(m)) == Ok::<MetaView, ErrorView>(m),
{
    reveal_strlit("resourceType");
    reveal_strlit("created");
    reveal_strlit("lastModified");
    reveal_strlit("version");
    reveal_strlit("location");
    assert("resourceType"@[0] == 'r' && "lastModified"@[0] == 'l');
    assert("created"@[0] == 'c' && "version"@[0] == 'v');
    let fields = spec_meta_to_json(m)->Obj_0;
    assert(fields[0] == ("resourceType"@, spec_opt_string_json(m.resource_type)));
    assert(fields[1] == ("created"@, spec_opt_string_json(m.created)));
    assert(fields[2] == ("lastModified"@, spec_opt_string_json(m.last_modified)));
    assert(fields[3] == ("version"@, spec_opt_string_json(m.version)));
    assert(fields[4] == ("location"@, spec_opt_string_json(m.location)));
    crate::json::lemma_obj_get_at(fields, "resourceType"@, 0);
    crate::json::lemma_obj_get_at(fields, "created"@, 1);
    crate::json::lemma_obj_get_at(fields, "lastModified"@, 2);
    crate::json::lemma_obj_get_at(fields, "version"@, 3);
    crate::json::lemma_obj_get_at(fields, "location"@, 4);
    crate::json::lemma_opt_string_round_trip(m.resource_type);
    crate::json::lemma_opt_string_round_trip(m.created);
    crate::json::lemma_opt_string_round_trip(m.last_modified);
    crate::json::lemma_opt_string_round_trip(m.version);
    crate::json::lemma_opt_string_round_trip(m.location);
    assert(spec_meta_from_json(spec_meta_to_json(m))->Ok_0 =~= m);
}


/// One nested attribute of a complex attribute. `name`, `type` and
/// `multiValued` are required; sub-attributes nest one level only, so this
/// record carries no further nesting.
#[derive(Debug, PartialEq)]
pub struct SubAttributes {
    pub name: String,
    pub type_: String,
    pub multi_valued: bool,
    pub description: Option<String>,
    pub required: Option<bool>,
    pub canonical_values: Option<Vec<String>>,
    pub case_exact: Option<bool>,
    pub mutability: Option<String>,
    pub returned: Option<String>,
    pub uniqueness: Option<String>,
    pub reference_types: Option<Vec<String>>,
}

/// One attribute of a schema. `name`, `type` and `multiValued` are
/// required; everything else is unspecified when absent.
#[derive(Debug, PartialEq)]
pub struct Attributes {
    pub name: String,
    pub type_: String,
    pub multi_valued: bool,
    pub description: Option<String>,
    pub required: Option<bool>,
    pub canonical_values: Option<Vec<String>>,
    pub case_exact: Option<bool>,
    pub mutability: Option<String>,
    pub returned: Option<String>,
    pub uniqueness: Option<String>,
    pub sub_attributes: Option<Vec<SubAttributes>>,
    pub reference_types: Option<Vec<String>>,
}

/// A schema document: identity, description and the ordered attribute
/// tree, with its metadata.
#[derive(Debug, PartialEq)]
pub struct Schema {
    pub id: String,
    pub name: String,
    pub description: String,
    pub attributes: Vec<Attributes>,
    pub meta: Meta,
}

/// Mathematical model of `SubAttributes`.
#[verifier::ext_equal]
pub struct SubAttributesView {
    pub name: Seq<char>,
    pub type_: Seq<char>,
    pub multi_valued: bool,
    pub description: Option<Seq<char>>,
    pub required: Option<bool>,
    pub canonical_values: Option<Seq<Seq<char>>>,
    pub case_exact: Option<bool>,
    pub mutability: Option<Seq<char>>,
    pub returned: Option<Seq<char>>,
    pub uniqueness: Option<Seq<char>>,
    pub reference_types: Option<Seq<Seq<char>>>,
}

/// Mathematical model of `Attributes`.
#[verifier::ext_equal]
pub struct AttributesView {
    pub name: Seq<char>,
    pub type_: Seq<char>,
    pub multi_valued: bool,
    pub description: Option<Seq<char>>,
    pub required: Option<bool>,
    pub canonical_values: Option<Seq<Seq<char>>>,
    pub case_exact: Option<bool>,
    pub mutability: Option<Seq<char>>,
    pub returned: Option<Seq<char>>,
    pub uniqueness: Option<Seq<char>>,
    pub sub_attributes: Option<Seq<SubAttributesView>>,
    pub reference_types: Option<Seq<Seq<char>>>,
}

/// Mathematical model of `Schema`.
#[verifier::ext_equal]
pub struct SchemaView {
    pub id: Seq<char>,
    pub name: Seq<char>,
    pub description: Seq<char>,
    pub attributes: Seq<AttributesView>,
    pub meta: MetaView,
}

impl DeepView for SubAttributes {
    type V = SubAttributesView;

    open spec fn deep_view(&self) -> SubAttributesView {
        SubAttributesView {
            name: self.name.deep_view(),
            type_: self.type_.deep_view(),
            multi_valued: self.multi_valued,
            description: self.description.deep_view(),
            required: self.required.deep_view(),
            canonical_values: self.canonical_values.deep_view(),
            case_exact: self.case_exact.deep_view(),
            mutability: self.mutability.deep_view(),
            returned: self.returned.deep_view(),
            uniqueness: self.uniqueness.deep_view(),
            reference_types: self.reference_types.deep_view(),
        }
    }
}

impl DeepView for Attributes {
    type V = AttributesView;

    open spec fn deep_view(&self) -> AttributesView {
        AttributesView {
            name: self.name.deep_view(),
            type_: self.type_.deep_view(),
            multi_valued: self.multi_valued,
            description: self.description.deep_view(),
            required: self.required.deep_view(),
            canonical_values: self.canonical_values.deep_view(),
            case_exact: self.case_exact.deep_view(),
            mutability: self.mutability.deep_view(),
            returned: self.returned.deep_view(),
            uniqueness: self.uniqueness.deep_view(),
            sub_attributes: self.sub_attributes.deep_view(),
            reference_types: self.reference_types.deep_view(),
        }
    }
}

impl DeepView for Schema {
    type V = SchemaView;

    open spec fn deep_view(&self) -> SchemaView {
        SchemaView {
            id: self.id.deep_view(),
            name: self.name.deep_view(),
            description: self.description.deep_view(),
            attributes: self.attributes.deep_view(),
            meta: self.meta.deep_view(),
        }
    }
}

/// The document form of the optional boolean metadata slots.
pub open spec fn spec_opt_bool_json(o: Option<bool>) -> SpecJson {
    match o {
        None => SpecJson::Null,
        Some(b) => SpecJson::Bool(b),
    }
}

/// What reading a `SubAttributes` node from a document yields, field by
/// field in declaration order.
pub open spec fn spec_sub_attributes_from_json(j: SpecJson) -> Result<
    SubAttributesView,
    ErrorView,
> {
    match j {
        SpecJson::Obj(fields) => match spec_field_string(spec_obj_get(fields, "name"@)) {
            Err(e) => Err(fe_msg("name"@, e)),
            Ok(name) => match spec_field_string(spec_obj_get(fields, "type"@)) {
                Err(e) => Err(fe_msg("type"@, e)),
                Ok(type_) => match spec_field_bool(spec_obj_get(fields, "multiValued"@)) {
                    Err(e) => Err(fe_msg("multiValued"@, e)),
                    Ok(multi_valued) => match spec_field_opt_string(
                        spec_obj_get(fields, "description"@),
                    ) {
                        Err(e) => Err(fe_msg("description"@, e)),
                        Ok(description) => match spec_field_opt_bool(
                            spec_obj_get(fields, "required"@),
                        ) {
                            Err(e) => Err(fe_msg("required"@, e)),
                            Ok(required) => spec_sub_attributes_from_json_rest(
                                fields,
                                name,
                                type_,
                                multi_valued,
                                description,
                                required,
                            ),
                        },
                    },
                },
            },
        },
        _ => Err(not_object_msg()),
    }
}

/// The remaining fields of a `SubAttributes` node, after the first five.
pub open spec fn spec_sub_attributes_from_json_rest(
    fields: Seq<(Seq<char>, SpecJson)>,
    name: Seq<char>,
    type_: Seq<char>,
    multi_valued: bool,
    description: Option<Seq<char>>,
    required: Option<bool>,
) -> Result<SubAttributesView, ErrorView> {
    match spec_field_opt_strings(spec_obj_get(fields, "canonicalValues"@)) {
        Err(e) => Err(fe_msg("canonicalValues"@, e)),
        Ok(canonical_values) => match spec_field_opt_bool(spec_obj_get(fields, "caseExact"@)) {
            Err(e) => Err(fe_msg("caseExact"@, e)),
            Ok(case_exact) => match spec_field_opt_string(spec_obj_get(fields, "mutability"@)) {
                Err(e) => Err(fe_msg("mutability"@, e)),
                Ok(mutability) => match spec_field_opt_string(spec_obj_get(fields, "returned"@)) {
                    Err(e) => Err(fe_msg("returned"@, e)),
                    Ok(returned) => match spec_field_opt_string(
                        spec_obj_get(fields, "uniqueness"@),
                    ) {
                        Err(e) => Err(fe_msg("uniqueness"@, e)),
                        Ok(uniqueness) => match spec_field_opt_strings(
                            spec_obj_get(fields, "referenceTypes"@),
                        ) {
                            Err(e) => Err(fe_msg("referenceTypes"@, e)),
                            Ok(reference_types) => Ok(
                                SubAttributesView {
                                    name,
                                    type_,
                                    multi_valued,
                                    description,
                                    required,
                                    canonical_values,
                                    case_exact,
                                    mutability,
                                    returned,
                                    uniqueness,
                                    reference_types,
                                },
                            ),
                        },
                    },
                },
            },
        },
    }
}

/// The document form of a `SubAttributes` node.
pub open spec fn spec_sub_attributes_to_json(x: SubAttributesView) -> SpecJson {
    SpecJson::Obj(
        seq![
            ("name"@, SpecJson::Str(x.name)),
            ("type"@, SpecJson::Str(x.type_)),
            ("multiValued"@, SpecJson::Bool(x.multi_valued)),
            ("description"@, spec_opt_string_json(x.description)),
            ("required"@, spec_opt_bool_json(x.required)),
            ("canonicalValues"@, spec_opt_strings_json(x.canonical_values)),
            ("caseExact"@, spec_opt_bool_json(x.case_exact)),
            ("mutability"@, spec_opt_string_json(x.mutability)),
            ("returned"@, spec_opt_string_json(x.returned)),
            ("uniqueness"@, spec_opt_string_json(x.uniqueness)),
            ("referenceTypes"@, spec_opt_strings_json(x.reference_types)),
        ],
    )
}

impl SubAttributes {
    /// Reads a `SubAttributes` node from a document tree.
    pub fn from_json_value(v: &JsonValue) -> (r: Result<SubAttributes, SCIMError>)
        ensures
            res_view(r) == spec_sub_attributes_from_json(v.deep_view()),
    {
        let fields = match v {
            JsonValue::Obj(fields) => fields,
            _ => {
                return Err(not_object_error());
            },
        };
        proof {
            lemma_fields_deep_view(*fields);
        }
        let name = match field_string(obj_get(fields, "name")) {
            Ok(x) => x,
            Err(e) => {
                return Err(fe_error("name", e));
            },
        };
        let type_ = match field_string(obj_get(fields, "type")) {
            Ok(x) => x,
            Err(e) => {
                return Err(fe_error("type", e));
            },
        };
        let multi_valued = match field_bool(obj_get(fields, "multiValued")) {
            Ok(x) => x,
            Err(e) => {
                return Err(fe_error("multiValued", e));
            },
        };
        let description = match field_opt_string(obj_get(fields, "description")) {
            Ok(x) => x,
            Err(e) => {
                return Err(fe_error("description", e));
            },
        };
        let required = match field_opt_bool(obj_get(fields, "required")) {
            Ok(x) => x,
            Err(e) => {
                return Err(fe_error("required", e));
            },
        };
        let canonical_values = match field_opt_strings(obj_get(fields, "canonicalValues")) {
            Ok(x) => x,
            Err(e) => {
                return Err(fe_error("canonicalValues", e));
            },
        };
        let case_exact = match field_opt_bool(obj_get(fields, "caseExact")) {
            Ok(x) => x,
            Err(e) => {
                return Err(fe_error("caseExact", e));
            },
        };
        let mutability = match field_opt_string(obj_get(fields, "mutability")) {
            Ok(x) => x,
            Err(e) => {
                return Err(fe_error("mutability", e));
            },
        };
        let returned = match field_opt_string(obj_get(fields, "returned")) {
            Ok(x) => x,
            Err(e) => {
                return Err(fe_error("returned", e));
            },
        };
        let uniqueness = match field_opt_string(obj_get(fields, "uniqueness")) {
            Ok(x) => x,
            Err(e) => {
                return Err(fe_error("uniqueness", e));
            },
        };
        let reference_types = match field_opt_strings(obj_get(fields, "referenceTypes")) {
            Ok(x) => x,
            Err(e) => {
                return Err(fe_error("referenceTypes", e));
            },
        };
        Ok(
            SubAttributes {
                name,
                type_,
                multi_valued,
                description,
                required,
                canonical_values,
                case_exact,
                mutability,
                returned,
                uniqueness,
                reference_types,
            },
        )
    }

    /// Writes the `SubAttributes` node as a document tree.
    pub fn to_json_value(&self) -> (r: JsonValue)
        ensures
            r.deep_view() == spec_sub_attributes_to_json(self.deep_view()),
    {
        let mut fields: Vec<(String, JsonValue)> = Vec::new();
        fields.push((String::from_str("name"), JsonValue::Str(self.name.clone())));
        fields.push((String::from_str("type"), JsonValue::Str(self.type_.clone())));
        fields.push((String::from_str("multiValued"), JsonValue::Bool(self.multi_valued)));
        fields.push((String::from_str("description"), opt_string_json(&self.description)));
        let required = match &self.required {
            None => JsonValue::Null,
            Some(b) => JsonValue::Bool(*b),
        };
        fields.push((String::from_str("required"), required));
        fields.push((String::from_str("canonicalValues"), opt_strings_json(&self.canonical_values)));
        let case_exact = match &self.case_exact {
            None => JsonValue::Null,
            Some(b) => JsonValue::Bool(*b),
        };
        fields.push((String::from_str("caseExact"), case_exact));
        fields.push((String::from_str("mutability"), opt_string_json(&self.mutability)));
        fields.push((String::from_str("returned"), opt_string_json(&self.returned)));
        fields.push((String::from_str("uniqueness"), opt_string_json(&self.uniqueness)));
        fields.push((String::from_str("referenceTypes"), opt_strings_json(&self.reference_types)));
        proof {
            lemma_spec_json_fields(fields@);
            let target = spec_sub_attributes_to_json(self.deep_view())->Obj_0;
            assert(fields@.len() == 11);
            assert forall|k: int| 0 <= k < 11 implies spec_json_fields(fields@)[k] == target[k] by {
                assert(spec_json_fields(fields@)[k] == (fields@[k].0@, spec_json(fields@[k].1)));
            }
            assert(spec_json_fields(fields@) =~= target);
        }
        JsonValue::Obj(fields)
    }
}

/// A `SubAttributes` node is well-formed document data at depth three.
pub proof fn lemma_sub_attributes_json_ok(x: SubAttributesView)
    ensures
        json_ok(spec_sub_attributes_to_json(x), 3),
{
    let fields = spec_sub_attributes_to_json(x)->Obj_0;
    reveal_strlit("name");
    reveal_strlit("type");
    reveal_strlit("multiValued");
    reveal_strlit("description");
    reveal_strlit("required");
    reveal_strlit("canonicalValues");
    reveal_strlit("caseExact");
    reveal_strlit("mutability");
    reveal_strlit("returned");
    reveal_strlit("uniqueness");
    reveal_strlit("referenceTypes");
    assert("name"@[0] == 'n' && "type"@[0] == 't');
    assert("multiValued"@[0] == 'm' && "description"@[0] == 'd');
    assert("required"@[2] == 'q' && "returned"@[2] == 't');
    assert("mutability"@[0] == 'm' && "uniqueness"@[0] == 'u');
    assert(fields.len() == 11);
    assert forall|i: int| 0 <= i < fields.len() implies json_ok((#[trigger] fields[i]).1, 2) by {
        assert(fields[0].1 == SpecJson::Str(x.name));
        assert(fields[1].1 == SpecJson::Str(x.type_));
        assert(fields[2].1 == SpecJson::Bool(x.multi_valued));
        assert(fields[3].1 == spec_opt_string_json(x.description));
        assert(fields[4].1 == spec_opt_bool_json(x.required));
        assert(fields[5].1 == spec_opt_strings_json(x.canonical_values));
        assert(fields[6].1 == spec_opt_bool_json(x.case_exact));
        assert(fields[7].1 == spec_opt_string_json(x.mutability));
        assert(fields[8].1 == spec_opt_string_json(x.returned));
        assert(fields[9].1 == spec_opt_string_json(x.uniqueness));
        assert(fields[10].1 == spec_opt_strings_json(x.reference_types));
        lemma_opt_strings_json_ok(x.canonical_values, 1);
        lemma_opt_strings_json_ok(x.reference_types, 1);
    }
    assert forall|i: int, k: int| 0 <= i < k < fields.len() implies (#[trigger] fields[i]).0 != (
    #[trigger] fields[k]).0 by {
        assert(fields[0].0 == "name"@);
        assert(fields[1].0 == "type"@);
        assert(fields[2].0 == "multiValued"@);
        assert(fields[3].0 == "description"@);
        assert(fields[4].0 == "required"@);
        assert(fields[5].0 == "canonicalValues"@);
        assert(fields[6].0 == "caseExact"@);
        assert(fields[7].0 == "mutability"@);
        assert(fields[8].0 == "returned"@);
        assert(fields[9].0 == "uniqueness"@);
        assert(fields[10].0 == "referenceTypes"@);
    }
    lemma_ok_obj(fields, 2);
}

/// Reading back the document form of a `SubAttributes` node yields it.
pub proof fn lemma_sub_attributes_round_trip(x: SubAttributesView)
    ensures
        spec_sub_attributes_from_json(spec_sub_attributes_to_json(x)) == Ok::<
            SubAttributesView,
            ErrorView,
        >(x),
{
    reveal_strlit("name");
    reveal_strlit("type");
    reveal_strlit("multiValued");
    reveal_strlit("description");
    reveal_strlit("required");
    reveal_strlit("canonicalValues");
    reveal_strlit("caseExact");
    reveal_strlit("mutability");
    reveal_strlit("returned");
    reveal_strlit("uniqueness");
    reveal_strlit("referenceTypes");
    assert("name"@[0] == 'n' && "type"@[0] == 't');
    assert("multiValued"@[0] == 'm' && "description"@[0] == 'd');
    assert("required"@[2] == 'q' && "returned"@[2] == 't');
    assert("mutability"@[0] == 'm' && "uniqueness"@[0] == 'u');
    let fields = spec_sub_attributes_to_json(x)->Obj_0;
    assert(fields[0] == ("name"@, SpecJson::Str(x.name)));
    assert(fields[1] == ("type"@, SpecJson::Str(x.type_)));
    assert(fields[2] == ("multiValued"@, SpecJson::Bool(x.multi_valued)));
    assert(fields[3] == ("description"@, spec_opt_string_json(x.description)));
    assert(fields[4] == ("required"@, spec_opt_bool_json(x.required)));
    assert(fields[5] == ("canonicalValues"@, spec_opt_strings_json(x.canonical_values)));
    assert(fields[6] == ("caseExact"@, spec_opt_bool_json(x.case_exact)));
    assert(fields[7] == ("mutability"@, spec_opt_string_json(x.mutability)));
    assert(fields[8] == ("returned"@, spec_opt_string_json(x.returned)));
    assert(fields[9] == ("uniqueness"@, spec_opt_string_json(x.uniqueness)));
    assert(fields[10] == ("referenceTypes"@, spec_opt_strings_json(x.reference_types)));
    lemma_obj_get_at(fields, "name"@, 0);
    lemma_obj_get_at(fields, "type"@, 1);
    lemma_obj_get_at(fields, "multiValued"@, 2);
    lemma_obj_get_at(fields, "description"@, 3);
    lemma_obj_get_at(fields, "required"@, 4);
    lemma_obj_get_at(fields, "canonicalValues"@, 5);
    lemma_obj_get_at(fields, "caseExact"@, 6);
    lemma_obj_get_at(fields, "mutability"@, 7);
    lemma_obj_get_at(fields, "returned"@, 8);
    lemma_obj_get_at(fields, "uniqueness"@, 9);
    lemma_obj_get_at(fields, "referenceTypes"@, 10);
    lemma_opt_string_round_trip(x.description);
    lemma_opt_strings_round_trip(x.canonical_values);
    lemma_opt_string_round_trip(x.mutability);
    lemma_opt_string_round_trip(x.returned);
    lemma_opt_string_round_trip(x.uniqueness);
    lemma_opt_strings_round_trip(x.reference_types);
    assert(spec_sub_attributes_from_json(spec_sub_attributes_to_json(x))->Ok_0 =~= x);
}


/// The nodes of an array whose elements must all be sub-attribute records;
/// the first offending element's error wins.
pub open spec fn spec_sub_attributes_of(items: Seq<SpecJson>) -> Result<
    Seq<SubAttributesView>,
    ErrorView,
>
    decreases items.len(),
{
    if items.len() == 0 {
        Ok(Seq::empty())
    } else {
        match spec_sub_attributes_from_json(items[0]) {
            Err(e) => Err(e),
            Ok(x) => match spec_sub_attributes_of(items.subrange(1, items.len() as int)) {
                Ok(rest) => Ok(seq![x] + rest),
                Err(e) => Err(e),
            },
        }
    }
}

/// Converts the elements of an array into sub-attribute records.
pub fn sub_attributes_of(items: &Vec<JsonValue>) -> (r: Result<Vec<SubAttributes>, SCIMError>)
    ensures
        res_view(r) == spec_sub_attributes_of(spec_json_seq(items@)),
{
    let ghost dv = spec_json_seq(items@);
    proof {
        lemma_spec_json_seq(items@);
        assert(dv.skip(0) =~= dv);
    }
    let mut out: Vec<SubAttributes> = Vec::new();
    let n = items.len();
    for i in 0..n
        invariant
            n == items.len(),
            dv == spec_json_seq(items@),
            dv.len() == n,
            forall|k: int| 0 <= k < n ==> dv[k] == spec_json(#[trigger] items@[k]),
            out.deep_view().len() == i,
            spec_sub_attributes_of(dv) == match spec_sub_attributes_of(dv.skip(i as int)) {
                Ok(rest) => Ok::<Seq<SubAttributesView>, ErrorView>(out.deep_view() + rest),
                Err(e) => Err::<Seq<SubAttributesView>, ErrorView>(e),
            },
    {
        proof {
            assert(dv.skip(i as int)[0] == dv[i as int]);
            assert(dv.skip(i as int).subrange(1, dv.skip(i as int).len() as int) =~= dv.skip(
                i as int + 1,
            ));
        }
        match SubAttributes::from_json_value(&items[i]) {
            Ok(x) => {
                let ghost prev = out.deep_view();
                let ghost elt = x.deep_view();
                out.push(x);
                proof {
                    assert(out.deep_view() =~= prev + seq![elt]);
                    match spec_sub_attributes_of(dv.skip(i as int + 1)) {
                        Ok(rest) => {
                            assert((prev + seq![elt]) + rest =~= prev + (seq![elt] + rest));
                        },
                        Err(_) => {},
                    }
                }
            },
            Err(e) => {
                return Err(e);
            },
        }
    }
    proof {
        assert(dv.skip(n as int) =~= Seq::empty());
        assert(out.deep_view() + Seq::<SubAttributesView>::empty() =~= out.deep_view());
    }
    Ok(out)
}

/// An optional sub-attribute list: absent and null mean unset.
pub open spec fn spec_opt_sub_attributes(f: Option<SpecJson>) -> Result<
    Option<Seq<SubAttributesView>>,
    ErrorView,
> {
    match f {
        None => Ok(None),
        Some(SpecJson::Null) => Ok(None),
        Some(SpecJson::Arr(items)) => match spec_sub_attributes_of(items) {
            Ok(xs) => Ok(Some(xs)),
            Err(e) => Err(e),
        },
        Some(_) => Err(fe_msg("subAttributes"@, FieldError::Invalid)),
    }
}

/// Reads an optional sub-attribute list.
pub fn opt_sub_attributes(f: Option<&JsonValue>) -> (r: Result<
    Option<Vec<SubAttributes>>,
    SCIMError,
>)
    ensures
        res_view(r) == spec_opt_sub_attributes(f.deep_view()),
{
    match f {
        None => Ok(None),
        Some(JsonValue::Null) => Ok(None),
        Some(JsonValue::Arr(items)) => match sub_attributes_of(items) {
            Ok(xs) => Ok(Some(xs)),
            Err(e) => Err(e),
        },
        Some(_) => Err(fe_error("subAttributes", FieldError::Invalid)),
    }
}

/// The document form of an optional sub-attribute list: null when unset.
pub open spec fn spec_sub_attributes_json(o: Option<Seq<SubAttributesView>>) -> SpecJson {
    match o {
        None => SpecJson::Null,
        Some(xs) => SpecJson::Arr(
            xs.map_values(|x: SubAttributesView| spec_sub_attributes_to_json(x)),
        ),
    }
}

/// Builds the document form of an optional sub-attribute list.
pub fn sub_attributes_json(o: &Option<Vec<SubAttributes>>) -> (r: JsonValue)
    ensures
        r.deep_view() == spec_sub_attributes_json(o.deep_view()),
{
    let xs = match o {
        None => {
            return JsonValue::Null;
        },
        Some(xs) => xs,
    };
    let mut out: Vec<JsonValue> = Vec::new();
    let n = xs.len();
    for i in 0..n
        invariant
            n == xs.len(),
            out@.len() == i,
            forall|k: int|
                0 <= k < i ==> spec_json(#[trigger] out@[k]) == spec_sub_attributes_to_json(
                    xs.deep_view()[k],
                ),
    {
        out.push(xs[i].to_json_value());
    }
    proof {
        lemma_spec_json_seq(out@);
        let target = xs.deep_view().map_values(
            |x: SubAttributesView| spec_sub_attributes_to_json(x),
        );
        assert forall|k: int| 0 <= k < out@.len() implies spec_json_seq(out@)[k] == target[k] by {
            assert(spec_json(out@[k]) == spec_sub_attributes_to_json(xs.deep_view()[k]));
        }
        assert(spec_json_seq(out@) =~= target);
    }
    JsonValue::Arr(out)
}

/// An optional sub-attribute list is well-formed document data at depth
/// four.
pub proof fn lemma_sub_attributes_list_json_ok(o: Option<Seq<SubAttributesView>>)
    ensures
        json_ok(spec_sub_attributes_json(o), 4),
{
    match o {
        None => {},
        Some(xs) => {
            let items = xs.map_values(|x: SubAttributesView| spec_sub_attributes_to_json(x));
            assert forall|i: int| 0 <= i < items.len() implies json_ok(#[trigger] items[i], 3) by {
                assert(items[i] == spec_sub_attributes_to_json(xs[i]));
                lemma_sub_attributes_json_ok(xs[i]);
            }
            lemma_ok_arr(items, 3);
        },
    }
}

/// Reading back the document form of a sub-attribute list yields it.
pub proof fn lemma_sub_attributes_of_round_trip(xs: Seq<SubAttributesView>)
    ensures
        spec_sub_attributes_of(
            xs.map_values(|x: SubAttributesView| spec_sub_attributes_to_json(x)),
        ) == Ok::<Seq<SubAttributesView>, ErrorView>(xs),
    decreases xs.len(),
{
    let items = xs.map_values(|x: SubAttributesView| spec_sub_attributes_to_json(x));
    if xs.len() == 0 {
        assert(Seq::<SubAttributesView>::empty() =~= xs);
    } else {
        lemma_sub_attributes_round_trip(xs[0]);
        let tail = xs.subrange(1, xs.len() as int);
        lemma_sub_attributes_of_round_trip(tail);
        assert(items.subrange(1, items.len() as int) =~= tail.map_values(
            |x: SubAttributesView| spec_sub_attributes_to_json(x),
        ));
        assert(seq![xs[0]] + tail =~= xs);
    }
}

/// Reading back the document form of an optional sub-attribute list yields
/// it.
pub proof fn lemma_opt_sub_attributes_round_trip(o: Option<Seq<SubAttributesView>>)
    ensures
        spec_opt_sub_attributes(Some(spec_sub_attributes_json(o))) == Ok::<
            Option<Seq<SubAttributesView>>,
            ErrorView,
        >(o),
{
    match o {
        None => {},
        Some(xs) => {
            lemma_sub_attributes_of_round_trip(xs);
        },
    }
}

/// What reading an `Attributes` node from a document yields, field by
/// field in declaration order.
pub open spec fn spec_attributes_from_json(j: SpecJson) -> Result<AttributesView, ErrorView> {
    match j {
        SpecJson::Obj(fields) => match spec_field_string(spec_obj_get(fields, "name"@)) {
            Err(e) => Err(fe_msg("name"@, e)),
            Ok(name) => match spec_field_string(spec_obj_get(fields, "type"@)) {
                Err(e) => Err(fe_msg("type"@, e)),
                Ok(type_) => match spec_field_bool(spec_obj_get(fields, "multiValued"@)) {
                    Err(e) => Err(fe_msg("multiValued"@, e)),
                    Ok(multi_valued) => match spec_field_opt_string(
                        spec_obj_get(fields, "description"@),
                    ) {
                        Err(e) => Err(fe_msg("description"@, e)),
                        Ok(description) => match spec_field_opt_bool(
                            spec_obj_get(fields, "required"@),
                        ) {
                            Err(e) => Err(fe_msg("required"@, e)),
                            Ok(required) => spec_attributes_from_json_rest(
                                fields,
                                name,
                                type_,
                                multi_valued,
                                description,
                                required,
                            ),
                        },
                    },
                },
            },
        },
        _ => Err(not_object_msg()),
    }
}

/// The remaining fields of an `Attributes` node, after the first five.
pub open spec fn spec_attributes_from_json_rest(
    fields: Seq<(Seq<char>, SpecJson)>,
    name: Seq<char>,
    type_: Seq<char>,
    multi_valued: bool,
    description: Option<Seq<char>>,
    required: Option<bool>,
) -> Result<AttributesView, ErrorView> {
    match spec_field_opt_strings(spec_obj_get(fields, "canonicalValues"@)) {
        Err(e) => Err(fe_msg("canonicalValues"@, e)),
        Ok(canonical_values) => match spec_field_opt_bool(spec_obj_get(fields, "caseExact"@)) {
            Err(e) => Err(fe_msg("caseExact"@, e)),
            Ok(case_exact) => match spec_field_opt_string(spec_obj_get(fields, "mutability"@)) {
                Err(e) => Err(fe_msg("mutability"@, e)),
                Ok(mutability) => match spec_field_opt_string(spec_obj_get(fields, "returned"@)) {
                    Err(e) => Err(fe_msg("returned"@, e)),
                    Ok(returned) => match spec_field_opt_string(
                        spec_obj_get(fields, "uniqueness"@),
                    ) {
                        Err(e) => Err(fe_msg("uniqueness"@, e)),
                        Ok(uniqueness) => match spec_opt_sub_attributes(
                            spec_obj_get(fields, "subAttributes"@),
                        ) {
                            Err(e) => Err(e),
                            Ok(sub_attributes) => match spec_field_opt_strings(
                                spec_obj_get(fields, "referenceTypes"@),
                            ) {
                                Err(e) => Err(fe_msg("referenceTypes"@, e)),
                                Ok(reference_types) => Ok(
                                    AttributesView {
                                        name,
                                        type_,
                                        multi_valued,
                                        description,
                                        required,
                                        canonical_values,
                                        case_exact,
                                        mutability,
                                        returned,
                                        uniqueness,
                                        sub_attributes,
                                        reference_types,
                                    },
                                ),
                            },
                        },
                    },
                },
            },
        },
    }
}

/// The document form of an `Attributes` node.
pub open spec fn spec_attributes_to_json(a: AttributesView) -> SpecJson {
    SpecJson::Obj(
        seq![
            ("name"@, SpecJson::Str(a.name)),
            ("type"@, SpecJson::Str(a.type_)),
            ("multiValued"@, SpecJson::Bool(a.multi_valued)),
            ("description"@, spec_opt_string_json(a.description)),
            ("required"@, spec_opt_bool_json(a.required)),
            ("canonicalValues"@, spec_opt_strings_json(a.canonical_values)),
            ("caseExact"@, spec_opt_bool_json(a.case_exact)),
            ("mutability"@, spec_opt_string_json(a.mutability)),
            ("returned"@, spec_opt_string_json(a.returned)),
            ("uniqueness"@, spec_opt_string_json(a.uniqueness)),
            ("subAttributes"@, spec_sub_attributes_json(a.sub_attributes)),
            ("referenceTypes"@, spec_opt_strings_json(a.reference_types)),
        ],
    )
}

impl Attributes {
    /// Reads an `Attributes` node from a document tree.
    pub fn from_json_value(v: &JsonValue) -> (r: Result<Attributes, SCIMError>)
        ensures
            res_view(r) == spec_attributes_from_json(v.deep_view()),
    {
        let fields = match v {
            JsonValue::Obj(fields) => fields,
            _ => {
                return Err(not_object_error());
            },
        };
        proof {
            lemma_fields_deep_view(*fields);
        }
        let name = match field_string(obj_get(fields, "name")) {
            Ok(x) => x,
            Err(e) => {
                return Err(fe_error("name", e));
            },
        };
        let type_ = match field_string(obj_get(fields, "type")) {
            Ok(x) => x,
            Err(e) => {
                return Err(fe_error("type", e));
            },
        };
        let multi_valued = match field_bool(obj_get(fields, "multiValued")) {
            Ok(x) => x,
            Err(e) => {
                return Err(fe_error("multiValued", e));
            },
        };
        let description = match field_opt_string(obj_get(fields, "description")) {
            Ok(x) => x,
            Err(e) => {
                return Err(fe_error("description", e));
            },
        };
        let required = match field_opt_bool(obj_get(fields, "required")) {
            Ok(x) => x,
            Err(e) => {
                return Err(fe_error("required", e));
            },
        };
        let canonical_values = match field_opt_strings(obj_get(fields, "canonicalValues")) {
            Ok(x) => x,
            Err(e) => {
                return Err(fe_error("canonicalValues", e));
            },
        };
        let case_exact = match field_opt_bool(obj_get(fields, "caseExact")) {
            Ok(x) => x,
            Err(e) => {
                return Err(fe_error("caseExact", e));
            },
        };
        let mutability = match field_opt_string(obj_get(fields, "mutability")) {
            Ok(x) => x,
            Err(e) => {
                return Err(fe_error("mutability", e));
            },
        };
        let returned = match field_opt_string(obj_get(fields, "returned")) {
            Ok(x) => x,
            Err(e) => {
                return Err(fe_error("returned", e));
            },
        };
        let uniqueness = match field_opt_string(obj_get(fields, "uniqueness")) {
            Ok(x) => x,
            Err(e) => {
                return Err(fe_error("uniqueness", e));
            },
        };
        let sub_attributes = match opt_sub_attributes(obj_get(fields, "subAttributes")) {
            Ok(x) => x,
            Err(e) => {
                return Err(e);
            },
        };
        let reference_types = match field_opt_strings(obj_get(fields, "referenceTypes")) {
            Ok(x) => x,
            Err(e) => {
                return Err(fe_error("referenceTypes", e));
            },
        };
        Ok(
            Attributes {
                name,
                type_,
                multi_valued,
                description,
                required,
                canonical_values,
                case_exact,
                mutability,
                returned,
                uniqueness,
                sub_attributes,
                reference_types,
            },
        )
    }

    /// Writes the `Attributes` node as a document tree.
    pub fn to_json_value(&self) -> (r: JsonValue)
        ensures
            r.deep_view() == spec_attributes_to_json(self.deep_view()),
    {
        let mut fields: Vec<(String, JsonValue)> = Vec::new();
        fields.push((String::from_str("name"), JsonValue::Str(self.name.clone())));
        fields.push((String::from_str("type"), JsonValue::Str(self.type_.clone())));
        fields.push((String::from_str("multiValued"), JsonValue::Bool(self.multi_valued)));
        fields.push((String::from_str("description"), opt_string_json(&self.description)));
        let required = match &self.required {
            None => JsonValue::Null,
            Some(b) => JsonValue::Bool(*b),
        };
        fields.push((String::from_str("required"), required));
        fields.push((String::from_str("canonicalValues"), opt_strings_json(&self.canonical_values)));
        let case_exact = match &self.case_exact {
            None => JsonValue::Null,
            Some(b) => JsonValue::Bool(*b),
        };
        fields.push((String::from_str("caseExact"), case_exact));
        fields.push((String::from_str("mutability"), opt_string_json(&self.mutability)));
        fields.push((String::from_str("returned"), opt_string_json(&self.returned)));
        fields.push((String::from_str("uniqueness"), opt_string_json(&self.uniqueness)));
        fields.push((String::from_str("subAttributes"), sub_attributes_json(&self.sub_attributes)));
        fields.push((String::from_str("referenceTypes"), opt_strings_json(&self.reference_types)));
        proof {
            lemma_spec_json_fields(fields@);
            let target = spec_attributes_to_json(self.deep_view())->Obj_0;
            assert(fields@.len() == 12);
            assert forall|k: int| 0 <= k < 12 implies spec_json_fields(fields@)[k] == target[k] by {
                assert(spec_json_fields(fields@)[k] == (fields@[k].0@, spec_json(fields@[k].1)));
            }
            assert(spec_json_fields(fields@) =~= target);
        }
        JsonValue::Obj(fields)
    }
}

/// An `Attributes` node is well-formed document data at depth five.
pub proof fn lemma_attributes_json_ok(a: AttributesView)
    ensures
        json_ok(spec_attributes_to_json(a), 5),
{
    let fields = spec_attributes_to_json(a)->Obj_0;
    reveal_strlit("name");
    reveal_strlit("type");
    reveal_strlit("multiValued");
    reveal_strlit("description");
    reveal_strlit("required");
    reveal_strlit("canonicalValues");
    reveal_strlit("caseExact");
    reveal_strlit("mutability");
    reveal_strlit("returned");
    reveal_strlit("uniqueness");
    reveal_strlit("subAttributes");
    reveal_strlit("referenceTypes");
    assert("name"@[0] == 'n' && "type"@[0] == 't');
    assert("multiValued"@[0] == 'm' && "description"@[0] == 'd');
    assert("required"@[2] == 'q' && "returned"@[2] == 't');
    assert("mutability"@[0] == 'm' && "uniqueness"@[0] == 'u');
    assert(fields.len() == 12);
    assert forall|i: int| 0 <= i < fields.len() implies json_ok((#[trigger] fields[i]).1, 4) by {
        assert(fields[0].1 == SpecJson::Str(a.name));
        assert(fields[1].1 == SpecJson::Str(a.type_));
        assert(fields[2].1 == SpecJson::Bool(a.multi_valued));
        assert(fields[3].1 == spec_opt_string_json(a.description));
        assert(fields[4].1 == spec_opt_bool_json(a.required));
        assert(fields[5].1 == spec_opt_strings_json(a.canonical_values));
        assert(fields[6].1 == spec_opt_bool_json(a.case_exact));
        assert(fields[7].1 == spec_opt_string_json(a.mutability));
        assert(fields[8].1 == spec_opt_string_json(a.returned));
        assert(fields[9].1 == spec_opt_string_json(a.uniqueness));
        assert(fields[10].1 == spec_sub_attributes_json(a.sub_attributes));
        assert(fields[11].1 == spec_opt_strings_json(a.reference_types));
        lemma_opt_strings_json_ok(a.canonical_values, 3);
        lemma_opt_strings_json_ok(a.reference_types, 3);
        lemma_sub_attributes_list_json_ok(a.sub_attributes);
    }
    assert forall|i: int, k: int| 0 <= i < k < fields.len() implies (#[trigger] fields[i]).0 != (
    #[trigger] fields[k]).0 by {
        assert(fields[0].0 == "name"@);
        assert(fields[1].0 == "type"@);
        assert(fields[2].0 == "multiValued"@);
        assert(fields[3].0 == "description"@);
        assert(fields[4].0 == "required"@);
        assert(fields[5].0 == "canonicalValues"@);
        assert(fields[6].0 == "caseExact"@);
        assert(fields[7].0 == "mutability"@);
        assert(fields[8].0 == "returned"@);
        assert(fields[9].0 == "uniqueness"@);
        assert(fields[10].0 == "subAttributes"@);
        assert(fields[11].0 == "referenceTypes"@);
    }
    lemma_ok_obj(fields, 4);
}

/// Reading back the document form of an `Attributes` node yields it.
pub proof fn lemma_attributes_round_trip(a: AttributesView)
    ensures
        spec_attributes_from_json(spec_attributes_to_json(a)) == Ok::<AttributesView, ErrorView>(
            a,
        ),
{
    reveal_strlit("name");
    reveal_strlit("type");
    reveal_strlit("multiValued");
    reveal_strlit("description");
    reveal_strlit("required");
    reveal_strlit("canonicalValues");
    reveal_strlit("caseExact");
    reveal_strlit("mutability");
    reveal_strlit("returned");
    reveal_strlit("uniqueness");
    reveal_strlit("subAttributes");
    reveal_strlit("referenceTypes");
    assert("name"@[0] == 'n' && "type"@[0] == 't');
    assert("multiValued"@[0] == 'm' && "description"@[0] == 'd');
    assert("required"@[2] == 'q' && "returned"@[2] == 't');
    assert("mutability"@[0] == 'm' && "uniqueness"@[0] == 'u');
    let fields = spec_attributes_to_json(a)->Obj_0;
    assert(fields[0] == ("name"@, SpecJson::Str(a.name)));
    assert(fields[1] == ("type"@, SpecJson::Str(a.type_)));
    assert(fields[2] == ("multiValued"@, SpecJson::Bool(a.multi_valued)));
    assert(fields[3] == ("description"@, spec_opt_string_json(a.description)));
    assert(fields[4] == ("required"@, spec_opt_bool_json(a.required)));
    assert(fields[5] == ("canonicalValues"@, spec_opt_strings_json(a.canonical_values)));
    assert(fields[6] == ("caseExact"@, spec_opt_bool_json(a.case_exact)));
    assert(fields[7] == ("mutability"@, spec_opt_string_json(a.mutability)));
    assert(fields[8] == ("returned"@, spec_opt_string_json(a.returned)));
    assert(fields[9] == ("uniqueness"@, spec_opt_string_json(a.uniqueness)));
    assert(fields[10] == ("subAttributes"@, spec_sub_attributes_json(a.sub_attributes)));
    assert(fields[11] == ("referenceTypes"@, spec_opt_strings_json(a.reference_types)));
    lemma_obj_get_at(fields, "name"@, 0);
    lemma_obj_get_at(fields, "type"@, 1);
    lemma_obj_get_at(fields, "multiValued"@, 2);
    lemma_obj_get_at(fields, "description"@, 3);
    lemma_obj_get_at(fields, "required"@, 4);
    lemma_obj_get_at(fields, "canonicalValues"@, 5);
    lemma_obj_get_at(fields, "caseExact"@, 6);
    lemma_obj_get_at(fields, "mutability"@, 7);
    lemma_obj_get_at(fields, "returned"@, 8);
    lemma_obj_get_at(fields, "uniqueness"@, 9);
    lemma_obj_get_at(fields, "subAttributes"@, 10);
    lemma_obj_get_at(fields, "referenceTypes"@, 11);
    lemma_opt_string_round_trip(a.description);
    lemma_opt_strings_round_trip(a.canonical_values);
    lemma_opt_string_round_trip(a.mutability);
    lemma_opt_string_round_trip(a.returned);
    lemma_opt_string_round_trip(a.uniqueness);
    lemma_opt_sub_attributes_round_trip(a.sub_attributes);
    lemma_opt_strings_round_trip(a.reference_types);
    assert(spec_attributes_from_json(spec_attributes_to_json(a))->Ok_0 =~= a);
}


/// The nodes of an array whose elements must all be attribute records; the
/// first offending element's error wins.
pub open spec fn spec_attributes_of(items: Seq<SpecJson>) -> Result<Seq<AttributesView>, ErrorView>
    decreases items.len(),
{
    if items.len() == 0 {
        Ok(Seq::empty())
    } else {
        match spec_attributes_from_json(items[0]) {
            Err(e) => Err(e),
            Ok(a) => match spec_attributes_of(items.subrange(1, items.len() as int)) {
                Ok(rest) => Ok(seq![a] + rest),
                Err(e) => Err(e),
            },
        }
    }
}

/// Converts the elements of an array into attribute records.
pub fn attributes_of(items: &Vec<JsonValue>) -> (r: Result<Vec<Attributes>, SCIMError>)
    ensures
        res_view(r) == spec_attributes_of(spec_json_seq(items@)),
{
    let ghost dv = spec_json_seq(items@);
    proof {
        lemma_spec_json_seq(items@);
        assert(dv.skip(0) =~= dv);
    }
    let mut out: Vec<Attributes> = Vec::new();
    let n = items.len();
    for i in 0..n
        invariant
            n == items.len(),
            dv == spec_json_seq(items@),
            dv.len() == n,
            forall|k: int| 0 <= k < n ==> dv[k] == spec_json(#[trigger] items@[k]),
            out.deep_view().len() == i,
            spec_attributes_of(dv) == match spec_attributes_of(dv.skip(i as int)) {
                Ok(rest) => Ok::<Seq<AttributesView>, ErrorView>(out.deep_view() + rest),
                Err(e) => Err::<Seq<AttributesView>, ErrorView>(e),
            },
    {
        proof {
            assert(dv.skip(i as int)[0] == dv[i as int]);
            assert(dv.skip(i as int).subrange(1, dv.skip(i as int).len() as int) =~= dv.skip(
                i as int + 1,
            ));
        }
        match Attributes::from_json_value(&items[i]) {
            Ok(a) => {
                let ghost prev = out.deep_view();
                let ghost elt = a.deep_view();
                out.push(a);
                proof {
                    assert(out.deep_view() =~= prev + seq![elt]);
                    match spec_attributes_of(dv.skip(i as int + 1)) {
                        Ok(rest) => {
                            assert((prev + seq![elt]) + rest =~= prev + (seq![elt] + rest));
                        },
                        Err(_) => {},
                    }
                }
            },
            Err(e) => {
                return Err(e);
            },
        }
    }
    proof {
        assert(dv.skip(n as int) =~= Seq::empty());
        assert(out.deep_view() + Seq::<AttributesView>::empty() =~= out.deep_view());
    }
    Ok(out)
}

/// Reading back the document form of an attribute list yields it.
pub proof fn lemma_attributes_of_round_trip(xs: Seq<AttributesView>)
    ensures
        spec_attributes_of(xs.map_values(|a: AttributesView| spec_attributes_to_json(a))) == Ok::<
            Seq<AttributesView>,
            ErrorView,
        >(xs),
    decreases xs.len(),
{
    let items = xs.map_values(|a: AttributesView| spec_attributes_to_json(a));
    if xs.len() == 0 {
        assert(Seq::<AttributesView>::empty() =~= xs);
    } else {
        lemma_attributes_round_trip(xs[0]);
        let tail = xs.subrange(1, xs.len() as int);
        lemma_attributes_of_round_trip(tail);
        assert(items.subrange(1, items.len() as int) =~= tail.map_values(
            |a: AttributesView| spec_attributes_to_json(a),
        ));
        assert(seq![xs[0]] + tail =~= xs);
    }
}

/// What reading a `Schema` from a document yields, field by field in
/// declaration order; every field is required.
pub open spec fn spec_schema_from_json(j: SpecJson) -> Result<SchemaView, ErrorView> {
    match j {
        SpecJson::Obj(fields) => match spec_field_string(spec_obj_get(fields, "id"@)) {
            Err(e) => Err(fe_msg("id"@, e)),
            Ok(id) => match spec_field_string(spec_obj_get(fields, "name"@)) {
                Err(e) => Err(fe_msg("name"@, e)),
                Ok(name) => match spec_field_string(spec_obj_get(fields, "description"@)) {
                    Err(e) => Err(fe_msg("description"@, e)),
                    Ok(description) => match spec_obj_get(fields, "attributes"@) {
                        None => Err(fe_msg("attributes"@, FieldError::Missing)),
                        Some(SpecJson::Arr(items)) => match spec_attributes_of(items) {
                            Err(e) => Err(e),
                            Ok(attributes) => match spec_obj_get(fields, "meta"@) {
                                None => Err(fe_msg("meta"@, FieldError::Missing)),
                                Some(mj) => match spec_meta_from_json(mj) {
                                    Err(e) => Err(e),
                                    Ok(meta) => Ok(
                                        SchemaView { id, name, description, attributes, meta },
                                    ),
                                },
                            },
                        },
                        Some(_) => Err(fe_msg("attributes"@, FieldError::Invalid)),
                    },
                },
            },
        },
        _ => Err(not_object_msg()),
    }
}

/// The document form of a `Schema`: one object, members in declaration
/// order.
pub open spec fn spec_schema_to_json(s: SchemaView) -> SpecJson {
    SpecJson::Obj(
        seq![
            ("id"@, SpecJson::Str(s.id)),
            ("name"@, SpecJson::Str(s.name)),
            ("description"@, SpecJson::Str(s.description)),
            (
                "attributes"@,
                SpecJson::Arr(
                    s.attributes.map_values(|a: AttributesView| spec_attributes_to_json(a)),
                ),
            ),
            ("meta"@, spec_meta_to_json(s.meta)),
        ],
    )
}

/// What deserializing a text yields: the parse error verbatim, or the
/// schema read from the parsed document.
pub open spec fn spec_schema_deserialize(s: Seq<char>) -> Result<SchemaView, ErrorView> {
    match crate::json::spec_parse_json(s) {
        Ok(j) => spec_schema_from_json(j),
        Err(m) => Err(ErrorView::DeserializationError(m)),
    }
}

impl Schema {
    /// Reads a `Schema` from a document tree.
    pub fn from_json_value(v: &JsonValue) -> (r: Result<Schema, SCIMError>)
        ensures
            res_view(r) == spec_schema_from_json(v.deep_view()),
    {
        let fields = match v {
            JsonValue::Obj(fields) => fields,
            _ => {
                return Err(not_object_error());
            },
        };
        proof {
            lemma_fields_deep_view(*fields);
        }
        let id = match field_string(obj_get(fields, "id")) {
            Ok(x) => x,
            Err(e) => {
                return Err(fe_error("id", e));
            },
        };
        let name = match field_string(obj_get(fields, "name")) {
            Ok(x) => x,
            Err(e) => {
                return Err(fe_error("name", e));
            },
        };
        let description = match field_string(obj_get(fields, "description")) {
            Ok(x) => x,
            Err(e) => {
                return Err(fe_error("description", e));
            },
        };
        let attributes = match obj_get(fields, "attributes") {
            None => {
                return Err(fe_error("attributes", FieldError::Missing));
            },
            Some(JsonValue::Arr(items)) => match attributes_of(items) {
                Ok(x) => x,
                Err(e) => {
                    return Err(e);
                },
            },
            Some(_) => {
                return Err(fe_error("attributes", FieldError::Invalid));
            },
        };
        let meta = match obj_get(fields, "meta") {
            None => {
                return Err(fe_error("meta", FieldError::Missing));
            },
            Some(mj) => match Meta::from_json_value(mj) {
                Ok(x) => x,
                Err(e) => {
                    return Err(e);
                },
            },
        };
        Ok(Schema { id, name, description, attributes, meta })
    }

    /// Writes the `Schema` as a document tree.
    pub fn to_json_value(&self) -> (r: JsonValue)
        ensures
            r.deep_view() == spec_schema_to_json(self.deep_view()),
    {
        let mut attrs: Vec<JsonValue> = Vec::new();
        let n = self.attributes.len();
        for i in 0..n
            invariant
                n == self.attributes.len(),
                attrs@.len() == i,
                forall|k: int|
                    0 <= k < i ==> spec_json(#[trigger] attrs@[k]) == spec_attributes_to_json(
                        self.attributes.deep_view()[k],
                    ),
        {
            attrs.push(self.attributes[i].to_json_value());
        }
        proof {
            lemma_spec_json_seq(attrs@);
            let target = self.attributes.deep_view().map_values(
                |a: AttributesView| spec_attributes_to_json(a),
            );
            assert forall|k: int| 0 <= k < attrs@.len() implies spec_json_seq(attrs@)[k]
                == target[k] by {
                assert(spec_json(attrs@[k]) == spec_attributes_to_json(
                    self.attributes.deep_view()[k],
                ));
            }
            assert(spec_json_seq(attrs@) =~= target);
        }
        let mut fields: Vec<(String, JsonValue)> = Vec::new();
        fields.push((String::from_str("id"), JsonValue::Str(self.id.clone())));
        fields.push((String::from_str("name"), JsonValue::Str(self.name.clone())));
        fields.push((String::from_str("description"), JsonValue::Str(self.description.clone())));
        fields.push((String::from_str("attributes"), JsonValue::Arr(attrs)));
        fields.push((String::from_str("meta"), self.meta.to_json_value()));
        proof {
            lemma_spec_json_fields(fields@);
            let target = spec_schema_to_json(self.deep_view())->Obj_0;
            assert(fields@.len() == 5);
            assert forall|k: int| 0 <= k < 5 implies spec_json_fields(fields@)[k] == target[k] by {
                assert(spec_json_fields(fields@)[k] == (fields@[k].0@, spec_json(fields@[k].1)));
            }
            assert(spec_json_fields(fields@) =~= target);
        }
        JsonValue::Obj(fields)
    }

    /// Serializes the schema to its JSON text. Never fails; deserializing
    /// the text yields this schema back.
    pub fn serialize(&self) -> (r: Result<String, SCIMError>)
        ensures
            r is Ok,
            r matches Ok(s) ==> s@ == crate::json::spec_print_json(
                spec_schema_to_json(self.deep_view()),
            ),
            r matches Ok(s) ==> spec_schema_deserialize(s@) == Ok::<SchemaView, ErrorView>(
                self.deep_view(),
            ),
    {
        let j = self.to_json_value();
        proof {
            lemma_schema_json_ok(self.deep_view());
            lemma_ok_printable(spec_schema_to_json(self.deep_view()), 7);
            lemma_schema_round_trip(self.deep_view());
        }
        Ok(print_json(&j))
    }

    /// Deserializes a schema from JSON text: the parse error verbatim when
    /// the text is not JSON, otherwise the fields read from the document.
    pub fn deserialize(s: &str) -> (r: Result<Schema, SCIMError>)
        ensures
            res_view(r) == spec_schema_deserialize(s@),
    {
        match parse_json(s) {
            Ok(j) => Schema::from_json_value(&j),
            Err(m) => Err(SCIMError::DeserializationError(m)),
        }
    }
}

/// A `Schema`'s document form is well-formed at depth seven.
pub proof fn lemma_schema_json_ok(s: SchemaView)
    ensures
        json_ok(spec_schema_to_json(s), 7),
{
    let fields = spec_schema_to_json(s)->Obj_0;
    reveal_strlit("id");
    reveal_strlit("name");
    reveal_strlit("description");
    reveal_strlit("attributes");
    reveal_strlit("meta");
    assert("name"@[0] == 'n' && "meta"@[0] == 'm');
    assert(fields.len() == 5);
    assert forall|i: int| 0 <= i < fields.len() implies json_ok((#[trigger] fields[i]).1, 6) by {
        assert(fields[0].1 == SpecJson::Str(s.id));
        assert(fields[1].1 == SpecJson::Str(s.name));
        assert(fields[2].1 == SpecJson::Str(s.description));
        assert(fields[4].1 == spec_meta_to_json(s.meta));
        let items = s.attributes.map_values(|a: AttributesView| spec_attributes_to_json(a));
        assert(fields[3].1 == SpecJson::Arr(items));
        assert forall|k: int| 0 <= k < items.len() implies json_ok(#[trigger] items[k], 5) by {
            assert(items[k] == spec_attributes_to_json(s.attributes[k]));
            lemma_attributes_json_ok(s.attributes[k]);
        }
        lemma_ok_arr(items, 5);
        lemma_meta_json_ok(s.meta, 5);
    }
    assert forall|i: int, k: int| 0 <= i < k < fields.len() implies (#[trigger] fields[i]).0 != (
    #[trigger] fields[k]).0 by {
        assert(fields[0].0 == "id"@);
        assert(fields[1].0 == "name"@);
        assert(fields[2].0 == "description"@);
        assert(fields[3].0 == "attributes"@);
        assert(fields[4].0 == "meta"@);
    }
    lemma_ok_obj(fields, 6);
}

/// Reading back the document form of a `Schema` yields it: the value-level
/// round trip under serialization.
pub proof fn lemma_schema_round_trip(s: SchemaView)
    ensures
        spec_schema_from_json(spec_schema_to_json(s)) == Ok::<SchemaView, ErrorView>(s),
{
    reveal_strlit("id");
    reveal_strlit("name");
    reveal_strlit("description");
    reveal_strlit("attributes");
    reveal_strlit("meta");
    assert("name"@[0] == 'n' && "meta"@[0] == 'm');
    let fields = spec_schema_to_json(s)->Obj_0;
    let items = s.attributes.map_values(|a: AttributesView| spec_attributes_to_json(a));
    assert(fields[0] == ("id"@, SpecJson::Str(s.id)));
    assert(fields[1] == ("name"@, SpecJson::Str(s.name)));
    assert(fields[2] == ("description"@, SpecJson::Str(s.description)));
    assert(fields[3] == ("attributes"@, SpecJson::Arr(items)));
    assert(fields[4] == ("meta"@, spec_meta_to_json(s.meta)));
    lemma_obj_get_at(fields, "id"@, 0);
    lemma_obj_get_at(fields, "name"@, 1);
    lemma_obj_get_at(fields, "description"@, 2);
    lemma_obj_get_at(fields, "attributes"@, 3);
    lemma_obj_get_at(fields, "meta"@, 4);
    lemma_attributes_of_round_trip(s.attributes);
    lemma_meta_round_trip(s.meta);
    assert(spec_schema_from_json(spec_schema_to_json(s))->Ok_0 =~= s);
}


/// A single-valued string attribute of a canonical schema document:
/// read-write, case-inexact, returned by default.
pub open spec fn spec_string_attr(
    name: Seq<char>,
    desc: Seq<char>,
    required: bool,
    returned: Seq<char>,
    uniqueness: Seq<char>,
) -> AttributesView {
    AttributesView {
        name,
        type_: "string"@,
        multi_valued: false,
        description: Some(desc),
        required: Some(required),
        canonical_values: None,
        case_exact: Some(false),
        mutability: Some("readWrite"@),
        returned: Some(returned),
        uniqueness: Some(uniqueness),
        sub_attributes: None,
        reference_types: None,
    }
}

/// Builds a single-valued string attribute of a canonical document.
fn string_attr(name: &str, desc: &str, required: bool, returned: &str, uniqueness: &str) -> (r:
    Attributes)
    ensures
        r.deep_view() == spec_string_attr(name@, desc@, required, returned@, uniqueness@),
{
    Attributes {
        name: String::from_str(name),
        type_: String::from_str("string"),
        multi_valued: false,
        description: Some(String::from_str(desc)),
        required: Some(required),
        canonical_values: None,
        case_exact: Some(false),
        mutability: Some(String::from_str("readWrite")),
        returned: Some(String::from_str(returned)),
        uniqueness: Some(String::from_str(uniqueness)),
        sub_attributes: None,
        reference_types: None,
    }
}

/// A complex attribute of a canonical schema document with the given
/// nested sub-attributes.
pub open spec fn spec_complex_attr(
    name: Seq<char>,
    desc: Seq<char>,
    multi: bool,
    subs: Seq<SubAttributesView>,
) -> AttributesView {
    AttributesView {
        name,
        type_: "complex"@,
        multi_valued: multi,
        description: Some(desc),
        required: Some(false),
        canonical_values: None,
        case_exact: None,
        mutability: Some("readWrite"@),
        returned: Some("default"@),
        uniqueness: None,
        sub_attributes: Some(subs),
        reference_types: None,
    }
}

/// Builds a complex attribute of a canonical document.
fn complex_attr(name: &str, desc: &str, multi: bool, subs: Vec<SubAttributes>) -> (r: Attributes)
    ensures
        r.deep_view() == spec_complex_attr(name@, desc@, multi, subs.deep_view()),
{
    Attributes {
        name: String::from_str(name),
        type_: String::from_str("complex"),
        multi_valued: multi,
        description: Some(String::from_str(desc)),
        required: Some(false),
        canonical_values: None,
        case_exact: None,
        mutability: Some(String::from_str("readWrite")),
        returned: Some(String::from_str("default")),
        uniqueness: None,
        sub_attributes: Some(subs),
        reference_types: None,
    }
}

/// A single-valued reference attribute of a canonical schema document.
pub open spec fn spec_ref_attr(name: Seq<char>, desc: Seq<char>) -> AttributesView {
    AttributesView {
        name,
        type_: "reference"@,
        multi_valued: false,
        description: Some(desc),
        required: Some(false),
        canonical_values: None,
        case_exact: Some(false),
        mutability: Some("readWrite"@),
        returned: Some("default"@),
        uniqueness: None,
        sub_attributes: None,
        reference_types: Some(seq!["external"@]),
    }
}

/// Builds a single-valued reference attribute of a canonical document.
fn ref_attr(name: &str, desc: &str) -> (r: Attributes)
    ensures
        r.deep_view() == spec_ref_attr(name@, desc@),
{
    let mut rt: Vec<String> = Vec::new();
    rt.push(String::from_str("external"));
    let r = Attributes {
        name: String::from_str(name),
        type_: String::from_str("reference"),
        multi_valued: false,
        description: Some(String::from_str(desc)),
        required: Some(false),
        canonical_values: None,
        case_exact: Some(false),
        mutability: Some(String::from_str("readWrite")),
        returned: Some(String::from_str("default")),
        uniqueness: None,
        sub_attributes: None,
        reference_types: Some(rt),
    };
    proof {
        assert(r.deep_view().reference_types->Some_0 =~= seq!["external"@]);
        assert(r.deep_view() =~= spec_ref_attr(name@, desc@));
    }
    r
}

/// The boolean `active` attribute of the canonical user document.
pub open spec fn spec_bool_attr(name: Seq<char>, desc: Seq<char>) -> AttributesView {
    AttributesView {
        name,
        type_: "boolean"@,
        multi_valued: false,
        description: Some(desc),
        required: Some(false),
        canonical_values: None,
        case_exact: None,
        mutability: Some("readWrite"@),
        returned: Some("default"@),
        uniqueness: None,
        sub_attributes: None,
        reference_types: None,
    }
}

/// Builds a boolean attribute of a canonical document.
fn bool_attr(name: &str, desc: &str) -> (r: Attributes)
    ensures
        r.deep_view() == spec_bool_attr(name@, desc@),
{
    Attributes {
        name: String::from_str(name),
        type_: String::from_str("boolean"),
        multi_valued: false,
        description: Some(String::from_str(desc)),
        required: Some(false),
        canonical_values: None,
        case_exact: None,
        mutability: Some(String::from_str("readWrite")),
        returned: Some(String::from_str("default")),
        uniqueness: None,
        sub_attributes: None,
        reference_types: None,
    }
}

/// A nested string sub-attribute of a canonical schema document.
pub open spec fn spec_sub_string(name: Seq<char>, desc: Seq<char>) -> SubAttributesView {
    SubAttributesView {
        name,
        type_: "string"@,
        multi_valued: false,
        description: Some(desc),
        required: Some(false),
        canonical_values: None,
        case_exact: Some(false),
        mutability: Some("readWrite"@),
        returned: Some("default"@),
        uniqueness: Some("none"@),
        reference_types: None,
    }
}

/// Builds a nested string sub-attribute of a canonical document.
fn sub_string(name: &str, desc: &str) -> (r: SubAttributes)
    ensures
        r.deep_view() == spec_sub_string(name@, desc@),
{
    SubAttributes {
        name: String::from_str(name),
        type_: String::from_str("string"),
        multi_valued: false,
        description: Some(String::from_str(desc)),
        required: Some(false),
        canonical_values: None,
        case_exact: Some(false),
        mutability: Some(String::from_str("readWrite")),
        returned: Some(String::from_str("default")),
        uniqueness: Some(String::from_str("none")),
        reference_types: None,
    }
}

/// A nested boolean sub-attribute of a canonical schema document.
pub open spec fn spec_sub_bool(name: Seq<char>, desc: Seq<char>) -> SubAttributesView {
    SubAttributesView {
        name,
        type_: "boolean"@,
        multi_valued: false,
        description: Some(desc),
        required: Some(false),
        canonical_values: None,
        case_exact: None,
        mutability: Some("readWrite"@),
        returned: Some("default"@),
        uniqueness: None,
        reference_types: None,
    }
}

/// Builds a nested boolean sub-attribute of a canonical document.
fn sub_bool(name: &str, desc: &str) -> (r: SubAttributes)
    ensures
        r.deep_view() == spec_sub_bool(name@, desc@),
{
    SubAttributes {
        name: String::from_str(name),
        type_: String::from_str("boolean"),
        multi_valued: false,
        description: Some(String::from_str(desc)),
        required: Some(false),
        canonical_values: None,
        case_exact: None,
        mutability: Some(String::from_str("readWrite")),
        returned: Some(String::from_str("default")),
        uniqueness: None,
        reference_types: None,
    }
}

/// A nested reference sub-attribute of a canonical schema document.
pub open spec fn spec_sub_ref(name: Seq<char>, desc: Seq<char>) -> SubAttributesView {
    SubAttributesView {
        name,
        type_: "reference"@,
        multi_valued: false,
        description: Some(desc),
        required: Some(false),
        canonical_values: None,
        case_exact: Some(false),
        mutability: Some("readWrite"@),
        returned: Some("default"@),
        uniqueness: None,
        reference_types: Some(seq!["external"@]),
    }
}

/// Builds a nested reference sub-attribute of a canonical document.
fn sub_ref(name: &str, desc: &str) -> (r: SubAttributes)
    ensures
        r.deep_view() == spec_sub_ref(name@, desc@),
{
    let mut rt: Vec<String> = Vec::new();
    rt.push(String::from_str("external"));
    let r = SubAttributes {
        name: String::from_str(name),
        type_: String::from_str("reference"),
        multi_valued: false,
        description: Some(String::from_str(desc)),
        required: Some(false),
        canonical_values: None,
        case_exact: Some(false),
        mutability: Some(String::from_str("readWrite")),
        returned: Some(String::from_str("default")),
        uniqueness: None,
        reference_types: Some(rt),
    };
    proof {
        assert(r.deep_view().reference_types->Some_0 =~= seq!["external"@]);
        assert(r.deep_view() =~= spec_sub_ref(name@, desc@));
    }
    r
}

/// The metadata of a canonical schema document at the given location.
pub open spec fn spec_schema_meta(location: Seq<char>) -> MetaView {
    MetaView {
        resource_type: Some("Schema"@),
        created: None,
        last_modified: None,
        version: None,
        location: Some(location),
    }
}

/// Builds the metadata of a canonical schema document.
fn schema_meta(location: &str) -> (r: Meta)
    ensures
        r.deep_view() == spec_schema_meta(location@),
{
    Meta {
        resource_type: Some(String::from_str("Schema")),
        created: None,
        last_modified: None,
        version: None,
        location: Some(String::from_str(location)),
    }
}

/// The sub-attributes of the `name` attribute of the canonical user
/// document.
pub open spec fn spec_name_subs() -> Seq<SubAttributesView> {
    seq![
        spec_sub_string("formatted"@, "The full name, formatted for display."@),
        spec_sub_string("familyName"@, "The family name of the User."@),
        spec_sub_string("givenName"@, "The given name of the User."@),
        spec_sub_string("middleName"@, "The middle name(s) of the User."@),
        spec_sub_string("honorificPrefix"@, "The honorific prefix(es) of the User."@),
        spec_sub_string("honorificSuffix"@, "The honorific suffix(es) of the User."@),
    ]
}

/// The sub-attributes of a multi-valued attribute of the canonical user
/// document: a value with its display, type and primary flag.
pub open spec fn spec_multi_value_subs() -> Seq<SubAttributesView> {
    seq![
        spec_sub_string("value"@, "The attribute's significant value."@),
        spec_sub_string("display"@, "A human-readable name for the value."@),
        spec_sub_string("type"@, "A label indicating the value's function."@),
        spec_sub_bool("primary"@, "Whether this is the primary value."@),
    ]
}

/// Builds the sub-attributes of the `name` attribute.
fn name_subs() -> (r: Vec<SubAttributes>)
    ensures
        r.deep_view() == spec_name_subs(),
{
    let mut v: Vec<SubAttributes> = Vec::new();
    v.push(sub_string("formatted", "The full name, formatted for display."));
    v.push(sub_string("familyName", "The family name of the User."));
    v.push(sub_string("givenName", "The given name of the User."));
    v.push(sub_string("middleName", "The middle name(s) of the User."));
    v.push(sub_string("honorificPrefix", "The honorific prefix(es) of the User."));
    v.push(sub_string("honorificSuffix", "The honorific suffix(es) of the User."));
    proof {
        assert(v.deep_view() =~= spec_name_subs());
    }
    v
}

/// Builds the sub-attributes of a multi-valued attribute.
fn multi_value_subs() -> (r: Vec<SubAttributes>)
    ensures
        r.deep_view() == spec_multi_value_subs(),
{
    let mut v: Vec<SubAttributes> = Vec::new();
    v.push(sub_string("value", "The attribute's significant value."));
    v.push(sub_string("display", "A human-readable name for the value."));
    v.push(sub_string("type", "A label indicating the value's function."));
    v.push(sub_bool("primary", "Whether this is the primary value."));
    proof {
        assert(v.deep_view() =~= spec_multi_value_subs());
    }
    v
}

/// The sub-attributes of the `addresses` attribute of the canonical user
/// document.
pub open spec fn spec_address_subs() -> Seq<SubAttributesView> {
    seq![
        spec_sub_string("formatted"@, "The full mailing address, formatted for display."@),
        spec_sub_string("streetAddress"@, "The full street address component."@),
        spec_sub_string("locality"@, "The city or locality component."@),
        spec_sub_string("region"@, "The state or region component."@),
        spec_sub_string("postalCode"@, "The zip code or postal code component."@),
        spec_sub_string("country"@, "The country name component."@),
        spec_sub_string("type"@, "A label indicating the address's function."@),
    ]
}

/// Builds the sub-attributes of the `addresses` attribute.
fn address_subs() -> (r: Vec<SubAttributes>)
    ensures
        r.deep_view() == spec_address_subs(),
{
    let mut v: Vec<SubAttributes> = Vec::new();
    v.push(sub_string("formatted", "The full mailing address, formatted for display."));
    v.push(sub_string("streetAddress", "The full street address component."));
    v.push(sub_string("locality", "The city or locality component."));
    v.push(sub_string("region", "The state or region component."));
    v.push(sub_string("postalCode", "The zip code or postal code component."));
    v.push(sub_string("country", "The country name component."));
    v.push(sub_string("type", "A label indicating the address's function."));
    proof {
        assert(v.deep_view() =~= spec_address_subs());
    }
    v
}

/// The sub-attributes of the `groups` attribute of the canonical user
/// document.
pub open spec fn spec_group_membership_subs() -> Seq<SubAttributesView> {
    seq![
        spec_sub_string("value"@, "The identifier of the User's group."@),
        spec_sub_ref("$ref"@, "The URI of the corresponding Group resource."@),
        spec_sub_string("display"@, "A human-readable name for the group."@),
        spec_sub_string("type"@, "A label indicating the group's function."@),
    ]
}

/// Builds the sub-attributes of the `groups` attribute.
fn group_membership_subs() -> (r: Vec<SubAttributes>)
    ensures
        r.deep_view() == spec_group_membership_subs(),
{
    let mut v: Vec<SubAttributes> = Vec::new();
    v.push(sub_string("value", "The identifier of the User's group."));
    v.push(sub_ref("$ref", "The URI of the corresponding Group resource."));
    v.push(sub_string("display", "A human-readable name for the group."));
    v.push(sub_string("type", "A label indicating the group's function."));
    proof {
        assert(v.deep_view() =~= spec_group_membership_subs());
    }
    v
}

/// The canonical user schema document: twenty-one attributes under the
/// core user URN.
pub open spec fn spec_user_schema() -> SchemaView {
    SchemaView {
        id: "urn:ietf:params:scim:schemas:core:2.0:User"@,
        name: "User"@,
        description: "User Account"@,
        attributes: seq![
            spec_string_attr(
                "userName"@,
                "Unique identifier for the User."@,
                true,
                "default"@,
                "server"@,
            ),
            spec_complex_attr("name"@, "The components of the user's real name."@, false, spec_name_subs()),
            spec_string_attr(
                "displayName"@,
                "The name of the User, suitable for display."@,
                false,
                "default"@,
                "none"@,
            ),
            spec_string_attr(
                "nickName"@,
                "The casual way to address the user."@,
                false,
                "default"@,
                "none"@,
            ),
            spec_ref_attr("profileUrl"@, "A URI that is a fully qualified URL to the user's online profile."@),
            spec_string_attr("title"@, "The user's title."@, false, "default"@, "none"@),
            spec_string_attr(
                "userType"@,
                "Identifies the relationship between the organization and the user."@,
                false,
                "default"@,
                "none"@,
            ),
            spec_string_attr(
                "preferredLanguage"@,
                "Indicates the User's preferred written or spoken language."@,
                false,
                "default"@,
                "none"@,
            ),
            spec_string_attr("locale"@, "Used to indicate the User's default location."@, false, "default"@, "none"@),
            spec_string_attr("timezone"@, "The User's time zone."@, false, "default"@, "none"@),
            spec_bool_attr("active"@, "Indicates the User's administrative status."@),
            spec_string_attr(
                "password"@,
                "The User's cleartext password."@,
                false,
                "never"@,
                "none"@,
            ),
            spec_complex_attr("emails"@, "Email addresses for the user."@, true, spec_multi_value_subs()),
            spec_complex_attr("phoneNumbers"@, "Phone numbers for the User."@, true, spec_multi_value_subs()),
            spec_complex_attr("ims"@, "Instant messaging addresses for the User."@, true, spec_multi_value_subs()),
            spec_complex_attr("photos"@, "URIs of photos of the User."@, true, spec_multi_value_subs()),
            spec_complex_attr("addresses"@, "Physical mailing addresses for this User."@, true, spec_address_subs()),
            spec_complex_attr("groups"@, "A list of groups to which the user belongs."@, true, spec_group_membership_subs()),
            spec_complex_attr("entitlements"@, "A list of entitlements for the User."@, true, spec_multi_value_subs()),
            spec_complex_attr("roles"@, "A list of roles for the User."@, true, spec_multi_value_subs()),
            spec_complex_attr("x509Certificates"@, "A list of certificates issued to the User."@, true, spec_multi_value_subs()),
        ],
        meta: spec_schema_meta("/v2/Schemas/urn:ietf:params:scim:schemas:core:2.0:User"@),
    }
}

/// Builds the canonical user schema document.
pub fn user_schema() -> (r: Schema)
    ensures
        r.deep_view() == spec_user_schema(),
{
    let mut attrs: Vec<Attributes> = Vec::new();
    attrs.push(string_attr("userName", "Unique identifier for the User.", true, "default", "server"));
    attrs.push(complex_attr("name", "The components of the user's real name.", false, name_subs()));
    attrs.push(string_attr("displayName", "The name of the User, suitable for display.", false, "default", "none"));
    attrs.push(string_attr("nickName", "The casual way to address the user.", false, "default", "none"));
    attrs.push(ref_attr("profileUrl", "A URI that is a fully qualified URL to the user's online profile."));
    attrs.push(string_attr("title", "The user's title.", false, "default", "none"));
    attrs.push(string_attr("userType", "Identifies the relationship between the organization and the user.", false, "default", "none"));
    attrs.push(string_attr("preferredLanguage", "Indicates the User's preferred written or spoken language.", false, "default", "none"));
    attrs.push(string_attr("locale", "Used to indicate the User's default location.", false, "default", "none"));
    attrs.push(string_attr("timezone", "The User's time zone.", false, "default", "none"));
    attrs.push(bool_attr("active", "Indicates the User's administrative status."));
    attrs.push(string_attr("password", "The User's cleartext password.", false, "never", "none"));
    attrs.push(complex_attr("emails", "Email addresses for the user.", true, multi_value_subs()));
    attrs.push(complex_attr("phoneNumbers", "Phone numbers for the User.", true, multi_value_subs()));
    attrs.push(complex_attr("ims", "Instant messaging addresses for the User.", true, multi_value_subs()));
    attrs.push(complex_attr("photos", "URIs of photos of the User.", true, multi_value_subs()));
    attrs.push(complex_attr("addresses", "Physical mailing addresses for this User.", true, address_subs()));
    attrs.push(complex_attr("groups", "A list of groups to which the user belongs.", true, group_membership_subs()));
    attrs.push(complex_attr("entitlements", "A list of entitlements for the User.", true, multi_value_subs()));
    attrs.push(complex_attr("roles", "A list of roles for the User.", true, multi_value_subs()));
    attrs.push(complex_attr("x509Certificates", "A list of certificates issued to the User.", true, multi_value_subs()));
    let r = Schema {
        id: String::from_str("urn:ietf:params:scim:schemas:core:2.0:User"),
        name: String::from_str("User"),
        description: String::from_str("User Account"),
        attributes: attrs,
        meta: schema_meta("/v2/Schemas/urn:ietf:params:scim:schemas:core:2.0:User"),
    };
    proof {
        assert(r.deep_view().attributes =~= spec_user_schema().attributes);
        assert(r.deep_view() =~= spec_user_schema());
    }
    r
}

/// The canonical enterprise-user extension schema document.
pub open spec fn spec_enterprise_user_schema() -> SchemaView {
    SchemaView {
        id: "urn:ietf:params:scim:schemas:extension:enterprise:2.0:User"@,
        name: "EnterpriseUser"@,
        description: "Enterprise User"@,
        attributes: seq![
            spec_string_attr(
                "employeeNumber"@,
                "A string identifier assigned to a person by the organization."@,
                false,
                "default"@,
                "none"@,
            ),
            spec_string_attr("costCenter"@, "Identifies the name of a cost center."@, false, "default"@, "none"@),
            spec_string_attr("organization"@, "Identifies the name of an organization."@, false, "default"@, "none"@),
            spec_string_attr("division"@, "Identifies the name of a division."@, false, "default"@, "none"@),
            spec_string_attr("department"@, "Identifies the name of a department."@, false, "default"@, "none"@),
            spec_complex_attr("manager"@, "The User's manager."@, false, spec_manager_subs()),
        ],
        meta: spec_schema_meta(
            "/v2/Schemas/urn:ietf:params:scim:schemas:extension:enterprise:2.0:User"@,
        ),
    }
}

/// The sub-attributes of the `manager` attribute of the enterprise
/// extension document.
pub open spec fn spec_manager_subs() -> Seq<SubAttributesView> {
    seq![
        spec_sub_string("value"@, "The id of the SCIM resource representing the User's manager."@),
        spec_sub_ref("$ref"@, "The URI of the SCIM resource representing the User's manager."@),
        spec_sub_string("displayName"@, "The displayName of the User's manager."@),
    ]
}

/// Builds the sub-attributes of the `manager` attribute.
fn manager_subs() -> (r: Vec<SubAttributes>)
    ensures
        r.deep_view() == spec_manager_subs(),
{
    let mut v: Vec<SubAttributes> = Vec::new();
    v.push(sub_string("value", "The id of the SCIM resource representing the User's manager."));
    v.push(sub_ref("$ref", "The URI of the SCIM resource representing the User's manager."));
    v.push(sub_string("displayName", "The displayName of the User's manager."));
    proof {
        assert(v.deep_view() =~= spec_manager_subs());
    }
    v
}

/// Builds the canonical enterprise-user extension schema document.
pub fn enterprise_user_schema() -> (r: Schema)
    ensures
        r.deep_view() == spec_enterprise_user_schema(),
{
    let mut attrs: Vec<Attributes> = Vec::new();
    attrs.push(string_attr("employeeNumber", "A string identifier assigned to a person by the organization.", false, "default", "none"));
    attrs.push(string_attr("costCenter", "Identifies the name of a cost center.", false, "default", "none"));
    attrs.push(string_attr("organization", "Identifies the name of an organization.", false, "default", "none"));
    attrs.push(string_attr("division", "Identifies the name of a division.", false, "default", "none"));
    attrs.push(string_attr("department", "Identifies the name of a department.", false, "default", "none"));
    attrs.push(complex_attr("manager", "The User's manager.", false, manager_subs()));
    let r = Schema {
        id: String::from_str("urn:ietf:params:scim:schemas:extension:enterprise:2.0:User"),
        name: String::from_str("EnterpriseUser"),
        description: String::from_str("Enterprise User"),
        attributes: attrs,
        meta: schema_meta("/v2/Schemas/urn:ietf:params:scim:schemas:extension:enterprise:2.0:User"),
    };
    proof {
        assert(r.deep_view().attributes =~= spec_enterprise_user_schema().attributes);
        assert(r.deep_view() =~= spec_enterprise_user_schema());
    }
    r
}

/// The canonical group schema document.
pub open spec fn spec_group_schema() -> SchemaView {
    SchemaView {
        id: "urn:ietf:params:scim:schemas:core:2.0:Group"@,
        name: "Group"@,
        description: "Group"@,
        attributes: seq![
            spec_string_attr("displayName"@, "A human-readable name for the Group."@, false, "default"@, "none"@),
            spec_complex_attr("members"@, "A list of members of the Group."@, true, spec_member_subs()),
        ],
        meta: spec_schema_meta("/v2/Schemas/urn:ietf:params:scim:schemas:core:2.0:Group"@),
    }
}

/// The sub-attributes of the `members` attribute of the group document.
pub open spec fn spec_member_subs() -> Seq<SubAttributesView> {
    seq![
        spec_sub_string("value"@, "Identifier of the member of this Group."@),
        spec_sub_ref("$ref"@, "The URI corresponding to a SCIM resource that is a member of this Group."@),
        spec_sub_string("type"@, "A label indicating the type of resource."@),
    ]
}

/// Builds the sub-attributes of the `members` attribute.
fn member_subs() -> (r: Vec<SubAttributes>)
    ensures
        r.deep_view() == spec_member_subs(),
{
    let mut v: Vec<SubAttributes> = Vec::new();
    v.push(sub_string("value", "Identifier of the member of this Group."));
    v.push(sub_ref("$ref", "The URI corresponding to a SCIM resource that is a member of this Group."));
    v.push(sub_string("type", "A label indicating the type of resource."));
    proof {
        assert(v.deep_view() =~= spec_member_subs());
    }
    v
}

/// Builds the canonical group schema document.
pub fn group_schema() -> (r: Schema)
    ensures
        r.deep_view() == spec_group_schema(),
{
    let mut attrs: Vec<Attributes> = Vec::new();
    attrs.push(string_attr("displayName", "A human-readable name for the Group.", false, "default", "none"));
    attrs.push(complex_attr("members", "A list of members of the Group.", true, member_subs()));
    let r = Schema {
        id: String::from_str("urn:ietf:params:scim:schemas:core:2.0:Group"),
        name: String::from_str("Group"),
        description: String::from_str("Group"),
        attributes: attrs,
        meta: schema_meta("/v2/Schemas/urn:ietf:params:scim:schemas:core:2.0:Group"),
    };
    proof {
        assert(r.deep_view().attributes =~= spec_group_schema().attributes);
        assert(r.deep_view() =~= spec_group_schema());
    }
    r
}

/// The embedded document a well-known name resolves to, if any.
pub open spec fn spec_schema_for(name: Seq<char>) -> Option<SchemaView> {
    if name == "user"@ {
        Some(spec_user_schema())
    } else if name == "enterprise_user"@ {
        Some(spec_enterprise_user_schema())
    } else if name == "group"@ {
        Some(spec_group_schema())
    } else {
        None
    }
}

/// What resolving a batch of names yields: the documents in request order,
/// or `SchemaNotFound` naming the first unknown name; the batch is
/// all-or-nothing.
pub open spec fn spec_get_schemas(names: Seq<Seq<char>>) -> Result<Seq<SchemaView>, ErrorView>
    decreases names.len(),
{
    if names.len() == 0 {
        Ok(Seq::empty())
    } else {
        match spec_schema_for(names[0]) {
            None => Err(ErrorView::SchemaNotFound(names[0])),
            Some(sch) => match spec_get_schemas(names.subrange(1, names.len() as int)) {
                Ok(rest) => Ok(seq![sch] + rest),
                Err(e) => Err(e),
            },
        }
    }
}

/// Resolves well-known schema names against the embedded canonical
/// documents. The batch is all-or-nothing: the first unrecognized name
/// aborts it with `SchemaNotFound`, and no partial result is returned.
pub fn get_schemas(schema_names: Vec<&str>) -> (r: Result<Vec<Schema>, SCIMError>)
    ensures
        res_view(r) == spec_get_schemas(schema_names.deep_view()),
{
    let ghost dv = schema_names.deep_view();
    proof {
        assert(dv.skip(0) =~= dv);
    }
    let mut out: Vec<Schema> = Vec::new();
    let n = schema_names.len();
    for i in 0..n
        invariant
            n == schema_names.len(),
            dv == schema_names.deep_view(),
            dv.len() == n,
            forall|k: int| 0 <= k < n ==> dv[k] == (#[trigger] schema_names@[k])@,
            out.deep_view().len() == i,
            spec_get_schemas(dv) == match spec_get_schemas(dv.skip(i as int)) {
                Ok(rest) => Ok::<Seq<SchemaView>, ErrorView>(out.deep_view() + rest),
                Err(e) => Err::<Seq<SchemaView>, ErrorView>(e),
            },
    {
        proof {
            assert(dv.skip(i as int)[0] == dv[i as int]);
            assert(dv.skip(i as int).subrange(1, dv.skip(i as int).len() as int) =~= dv.skip(
                i as int + 1,
            ));
        }
        let nm = schema_names[i];
        let sch = if crate::json::str_eq(nm, "user") {
            user_schema()
        } else if crate::json::str_eq(nm, "enterprise_user") {
            enterprise_user_schema()
        } else if crate::json::str_eq(nm, "group") {
            group_schema()
        } else {
            return Err(SCIMError::SchemaNotFound(String::from_str(nm)));
        };
        let ghost prev = out.deep_view();
        let ghost elt = sch.deep_view();
        out.push(sch);
        proof {
            assert(out.deep_view() =~= prev + seq![elt]);
            match spec_get_schemas(dv.skip(i as int + 1)) {
                Ok(rest) => {
                    assert((prev + seq![elt]) + rest =~= prev + (seq![elt] + rest));
                },
                Err(_) => {},
            }
        }
    }
    proof {
        assert(dv.skip(n as int) =~= Seq::empty());
        assert(out.deep_view() + Seq::<SchemaView>::empty() =~= out.deep_view());
    }
    Ok(out)
}

/// Resolving the well-known user name yields exactly one document: the
/// canonical user schema, named `User`, with its twenty-one attributes.
pub proof fn lemma_get_schemas_user()
    ensures
        spec_get_schemas(seq!["user"@]) == Ok::<Seq<SchemaView>, ErrorView>(
            seq![spec_user_schema()],
        ),
        spec_user_schema().name == "User"@,
        spec_user_schema().attributes.len() == 21,
{
    reveal_with_fuel(spec_get_schemas, 3);
    let names = seq!["user"@];
    assert(names.subrange(1, 1) =~= Seq::<Seq<char>>::empty());
    assert(seq![spec_user_schema()] + Seq::<SchemaView>::empty() =~= seq![spec_user_schema()]);
}

/// Resolving any unknown name fails with `SchemaNotFound` naming it.
pub proof fn lemma_get_schemas_unknown(name: Seq<char>)
    requires
        name != "user"@,
        name != "enterprise_user"@,
        name != "group"@,
    ensures
        spec_get_schemas(seq![name]) == Err::<Seq<SchemaView>, ErrorView>(
            ErrorView::SchemaNotFound(name),
        ),
{
}


impl TryFrom<&str> for Schema {
    type Error = SCIMError;

    /// Constructs a `Schema` from JSON text, as [`Schema::deserialize`] does.
    fn try_from(value: &str) -> (r: Result<Schema, SCIMError>)
        ensures
            res_view(r) == spec_schema_deserialize(value@),
    {
        Schema::deserialize(value)
    }
}

impl vstd::std_specs::convert::TryFromSpecImpl<&str> for Schema {
    /// The conversion's result holds owned strings, which a specification
    /// cannot construct, so its contract stands on the `try_from` method
    /// itself rather than through this hook.
    open spec fn obeys_try_from_spec() -> bool {
        false
    }

    open spec fn try_from_spec(v: &str) -> Result<Schema, SCIMError> {
        Err(SCIMError::InvalidJsonFormat)
    }
}
} // verus!
