//! Resource types: descriptors of one resource kind's endpoint and schema,
//! with presence validation and the JSON mapping of the wire format.

use vstd::prelude::*;

use crate::json::{
    fe_error, fe_msg, field_bool, field_opt_string, field_string, json_ok,
    lemma_fields_deep_view, lemma_obj_get_at, lemma_ok_arr, lemma_ok_obj, lemma_ok_printable,
    lemma_opt_string_round_trip, lemma_spec_json_fields, lemma_spec_json_seq, not_object_error,
    not_object_msg, obj_get, opt_string_json, parse_json, print_json, res_view, spec_field_bool,
    spec_field_opt_string, spec_field_string, spec_json, spec_json_fields, spec_json_seq,
    spec_obj_get, spec_opt_string_json, spec_parse_json, spec_print_json, FieldError, JsonValue,
    SpecJson,
};
use crate::utils::error::{ErrorView, SCIMError};

verus! {

/// A resource type: which endpoint serves a resource kind and which schema
/// describes it. `name`, `endpoint` and `schema` are required.
#[derive(Debug, PartialEq)]
pub struct ResourceType {
    pub id: Option<String>,
    pub name: String,
    pub description: Option<String>,
    pub endpoint: String,
    pub schema: String,
    pub schema_extensions: Option<Vec<SchemaExtension>>,
}

/// One schema extension of a resource type: the extension's URN and whether
/// resources of the type must carry it.
#[derive(Debug, PartialEq)]
pub struct SchemaExtension {
    pub schema: String,
    pub required: bool,
}

/// Mathematical model of `ResourceType`.
#[verifier::ext_equal]
pub struct ResourceTypeView {
    pub id: Option<Seq<char>>,
    pub name: Seq<char>,
    pub description: Option<Seq<char>>,
    pub endpoint: Seq<char>,
    pub schema: Seq<char>,
    pub schema_extensions: Option<Seq<SchemaExtensionView>>,
}

/// Mathematical model of `SchemaExtension`.
#[verifier::ext_equal]
pub struct SchemaExtensionView {
    pub schema: Seq<char>,
    pub required: bool,
}

impl DeepView for ResourceType {
    type V = ResourceTypeView;

    open spec fn deep_view(&self) -> ResourceTypeView {
        ResourceTypeView {
            id: self.id.deep_view(),
            name: self.name.deep_view(),
            description: self.description.deep_view(),
            endpoint: self.endpoint.deep_view(),
            schema: self.schema.deep_view(),
            schema_extensions: self.schema_extensions.deep_view(),
        }
    }
}

impl DeepView for SchemaExtension {
    type V = SchemaExtensionView;

    open spec fn deep_view(&self) -> SchemaExtensionView {
        SchemaExtensionView { schema: self.schema.deep_view(), required: self.required }
    }
}

/// What reading a `SchemaExtension` from a document yields: its URN and its
/// required flag, both mandatory.
pub open spec fn spec_schema_extension_from_json(j: SpecJson) -> Result<
    SchemaExtensionView,
    ErrorView,
> {
    match j {
        SpecJson::Obj(fields) => match spec_field_string(spec_obj_get(fields, "schema"@)) {
            Err(e) => Err(fe_msg("schema"@, e)),
            Ok(schema) => match spec_field_bool(spec_obj_get(fields, "required"@)) {
                Err(e) => Err(fe_msg("required"@, e)),
                Ok(required) => Ok(SchemaExtensionView { schema, required }),
            },
        },
        _ => Err(not_object_msg()),
    }
}

/// The document form of a `SchemaExtension`.
pub open spec fn spec_schema_extension_to_json(x: SchemaExtensionView) -> SpecJson {
    SpecJson::Obj(
        seq![("schema"@, SpecJson::Str(x.schema)), ("required"@, SpecJson::Bool(x.required))],
    )
}

impl SchemaExtension {
    /// Reads a `SchemaExtension` from a document tree.
    pub fn from_json_value(v: &JsonValue) -> (r: Result<SchemaExtension, SCIMError>)
        ensures
            res_view(r) == spec_schema_extension_from_json(v.deep_view()),
    {
        let fields = match v {
            JsonValue::Obj(fields) => fields,
            _ => {
                return Err(not_object_error());
            },
        };
        proof {
            lemma_fields_deep_view(*fields);
        }
        let schema = match field_string(obj_get(fields, "schema")) {
            Ok(x) => x,
            Err(e) => {
                return Err(fe_error("schema", e));
            },
        };
        let required = match field_bool(obj_get(fields, "required")) {
            Ok(x) => x,
            Err(e) => {
                return Err(fe_error("required", e));
            },
        };
        Ok(SchemaExtension { schema, required })
    }

    /// Writes the `SchemaExtension` as a document tree.
    pub fn to_json_value(&self) -> (r: JsonValue)
        ensures
            r.deep_view() == spec_schema_extension_to_json(self.deep_view()),
    {
        let mut fields: Vec<(String, JsonValue)> = Vec::new();
        fields.push((String::from_str("schema"), JsonValue::Str(self.schema.clone())));
        fields.push((String::from_str("required"), JsonValue::Bool(self.required)));
        proof {
            lemma_spec_json_fields(fields@);
            let target = spec_schema_extension_to_json(self.deep_view())->Obj_0;
            assert(fields@.len() == 2);
            assert forall|k: int| 0 <= k < 2 implies spec_json_fields(fields@)[k] == target[k] by {
                assert(spec_json_fields(fields@)[k] == (fields@[k].0@, spec_json(fields@[k].1)));
            }
            assert(spec_json_fields(fields@) =~= target);
        }
        JsonValue::Obj(fields)
    }
}

/// A `SchemaExtension` is well-formed document data at any positive depth.
pub proof fn lemma_schema_extension_json_ok(x: SchemaExtensionView, n: nat)
    ensures
        json_ok(spec_schema_extension_to_json(x), n + 1),
{
    let fields = spec_schema_extension_to_json(x)->Obj_0;
    reveal_strlit("schema");
    reveal_strlit("required");
    assert(fields.len() == 2);
    assert forall|i: int| 0 <= i < fields.len() implies json_ok((#[trigger] fields[i]).1, n) by {
        assert(fields[0].1 == SpecJson::Str(x.schema));
        assert(fields[1].1 == SpecJson::Bool(x.required));
    }
    assert forall|i: int, k: int| 0 <= i < k < fields.len() implies (#[trigger] fields[i]).0 != (
    #[trigger] fields[k]).0 by {
        assert(fields[0].0 == "schema"@);
        assert(fields[1].0 == "required"@);
    }
    lemma_ok_obj(fields, n);
}

/// Reading back the document form of a `SchemaExtension` yields it.
pub proof fn lemma_schema_extension_round_trip(x: SchemaExtensionView)
    ensures
        spec_schema_extension_from_json(spec_schema_extension_to_json(x)) == Ok::<
            SchemaExtensionView,
            ErrorView,
        >(x),
{
    reveal_strlit("schema");
    reveal_strlit("required");
    let fields = spec_schema_extension_to_json(x)->Obj_0;
    assert(fields[0] == ("schema"@, SpecJson::Str(x.schema)));
    assert(fields[1] == ("required"@, SpecJson::Bool(x.required)));
    lemma_obj_get_at(fields, "schema"@, 0);
    lemma_obj_get_at(fields, "required"@, 1);
    assert(spec_schema_extension_from_json(spec_schema_extension_to_json(x))->Ok_0 =~= x);
}

/// The extensions of an array whose elements must all be extension records;
/// the first offending element's error wins.
pub open spec fn spec_schema_extensions_of(items: Seq<SpecJson>) -> Result<
    Seq<SchemaExtensionView>,
    ErrorView,
>
    decreases items.len(),
{
    if items.len() == 0 {
        Ok(Seq::empty())
    } else {
        match spec_schema_extension_from_json(items[0]) {
            Err(e) => Err(e),
            Ok(x) => match spec_schema_extensions_of(items.subrange(1, items.len() as int)) {
                Ok(rest) => Ok(seq![x] + rest),
                Err(e) => Err(e),
            },
        }
    }
}

/// Converts the elements of an array into extension records.
pub fn schema_extensions_of(items: &Vec<JsonValue>) -> (r: Result<Vec<SchemaExtension>, SCIMError>)
    ensures
        res_view(r) == spec_schema_extensions_of(spec_json_seq(items@)),
{
    let ghost dv = spec_json_seq(items@);
    proof {
        lemma_spec_json_seq(items@);
        assert(dv.skip(0) =~= dv);
    }
    let mut out: Vec<SchemaExtension> = Vec::new();
    let n = items.len();
    for i in 0..n
        invariant
            n == items.len(),
            dv == spec_json_seq(items@),
            dv.len() == n,
            forall|k: int| 0 <= k < n ==> dv[k] == spec_json(#[trigger] items@[k]),
            out.deep_view().len() == i,
            spec_schema_extensions_of(dv) == match spec_schema_extensions_of(dv.skip(i as int)) {
                Ok(rest) => Ok::<Seq<SchemaExtensionView>, ErrorView>(out.deep_view() + rest),
                Err(e) => Err::<Seq<SchemaExtensionView>, ErrorView>(e),
            },
    {
        proof {
            assert(dv.skip(i as int)[0] == dv[i as int]);
            assert(dv.skip(i as int).subrange(1, dv.skip(i as int).len() as int) =~= dv.skip(
                i as int + 1,
            ));
        }
        match SchemaExtension::from_json_value(&items[i]) {
            Ok(x) => {
                let ghost prev = out.deep_view();
                let ghost elt = x.deep_view();
                out.push(x);
                proof {
                    assert(out.deep_view() =~= prev + seq![elt]);
                    match spec_schema_extensions_of(dv.skip(i as int + 1)) {
                        Ok(rest) => {
                            assert((prev + seq![elt]) + rest =~= prev + (seq![elt] + rest));
                        },
                        Err(_) => {},
                    }
                }
            },
            Err(e) => {
                return Err(e);
            },
        }
    }
    proof {
        assert(dv.skip(n as int) =~= Seq::empty());
        assert(out.deep_view() + Seq::<SchemaExtensionView>::empty() =~= out.deep_view());
    }
    Ok(out)
}

/// An optional extension list: absent and null mean unset; anything but an
/// array is rejected under the field's name.
pub open spec fn spec_opt_schema_extensions(f: Option<SpecJson>) -> Result<
    Option<Seq<SchemaExtensionView>>,
    ErrorView,
> {
    match f {
        None => Ok(None),
        Some(SpecJson::Null) => Ok(None),
        Some(SpecJson::Arr(items)) => match spec_schema_extensions_of(items) {
            Ok(xs) => Ok(Some(xs)),
            Err(e) => Err(e),
        },
        Some(_) => Err(fe_msg("schemaExtensions"@, FieldError::Invalid)),
    }
}

/// Reads an optional extension list.
pub fn opt_schema_extensions(f: Option<&JsonValue>) -> (r: Result<
    Option<Vec<SchemaExtension>>,
    SCIMError,
>)
    ensures
        res_view(r) == spec_opt_schema_extensions(f.deep_view()),
{
    match f {
        None => Ok(None),
        Some(JsonValue::Null) => Ok(None),
        Some(JsonValue::Arr(items)) => match schema_extensions_of(items) {
            Ok(xs) => Ok(Some(xs)),
            Err(e) => Err(e),
        },
        Some(_) => Err(fe_error("schemaExtensions", FieldError::Invalid)),
    }
}

/// The document form of an optional extension list: null when unset.
pub open spec fn spec_schema_extensions_json(o: Option<Seq<SchemaExtensionView>>) -> SpecJson {
    match o {
        None => SpecJson::Null,
        Some(xs) => SpecJson::Arr(
            xs.map_values(|x: SchemaExtensionView| spec_schema_extension_to_json(x)),
        ),
    }
}

/// Builds the document form of an optional extension list.
pub fn schema_extensions_json(o: &Option<Vec<SchemaExtension>>) -> (r: JsonValue)
    ensures
        r.deep_view() == spec_schema_extensions_json(o.deep_view()),
{
    let xs = match o {
        None => {
            return JsonValue::Null;
        },
        Some(xs) => xs,
    };
    let mut out: Vec<JsonValue> = Vec::new();
    let n = xs.len();
    for i in 0..n
        invariant
            n == xs.len(),
            out@.len() == i,
            forall|k: int|
                0 <= k < i ==> spec_json(#[trigger] out@[k]) == spec_schema_extension_to_json(
                    xs.deep_view()[k],
                ),
    {
        out.push(xs[i].to_json_value());
    }
    proof {
        lemma_spec_json_seq(out@);
        let target = xs.deep_view().map_values(
            |x: SchemaExtensionView| spec_schema_extension_to_json(x),
        );
        assert forall|k: int| 0 <= k < out@.len() implies spec_json_seq(out@)[k] == target[k] by {
            assert(spec_json(out@[k]) == spec_schema_extension_to_json(xs.deep_view()[k]));
        }
        assert(spec_json_seq(out@) =~= target);
    }
    JsonValue::Arr(out)
}

/// An optional extension list is well-formed document data.
pub proof fn lemma_schema_extensions_json_ok(o: Option<Seq<SchemaExtensionView>>, n: nat)
    ensures
        json_ok(spec_schema_extensions_json(o), n + 2),
{
    match o {
        None => {},
        Some(xs) => {
            let items = xs.map_values(|x: SchemaExtensionView| spec_schema_extension_to_json(x));
            assert forall|i: int| 0 <= i < items.len() implies json_ok(
                #[trigger] items[i],
                n + 1,
            ) by {
                assert(items[i] == spec_schema_extension_to_json(xs[i]));
                lemma_schema_extension_json_ok(xs[i], n);
            }
            lemma_ok_arr(items, (n + 1) as nat);
        },
    }
}

/// Reading back the document form of an extension list yields it.
pub proof fn lemma_schema_extensions_of_round_trip(xs: Seq<SchemaExtensionView>)
    ensures
        spec_schema_extensions_of(
            xs.map_values(|x: SchemaExtensionView| spec_schema_extension_to_json(x)),
        ) == Ok::<Seq<SchemaExtensionView>, ErrorView>(xs),
    decreases xs.len(),
{
    let items = xs.map_values(|x: SchemaExtensionView| spec_schema_extension_to_json(x));
    if xs.len() == 0 {
        assert(Seq::<SchemaExtensionView>::empty() =~= xs);
    } else {
        lemma_schema_extension_round_trip(xs[0]);
        let tail = xs.subrange(1, xs.len() as int);
        lemma_schema_extensions_of_round_trip(tail);
        assert(items.subrange(1, items.len() as int) =~= tail.map_values(
            |x: SchemaExtensionView| spec_schema_extension_to_json(x),
        ));
        assert(seq![xs[0]] + tail =~= xs);
    }
}

/// Reading back the document form of an optional extension list yields it.
pub proof fn lemma_opt_schema_extensions_round_trip(o: Option<Seq<SchemaExtensionView>>)
    ensures
        spec_opt_schema_extensions(Some(spec_schema_extensions_json(o))) == Ok::<
            Option<Seq<SchemaExtensionView>>,
            ErrorView,
        >(o),
{
    match o {
        None => {},
        Some(xs) => {
            lemma_schema_extensions_of_round_trip(xs);
        },
    }
}

/// What reading a `ResourceType` from a document yields, field by field in
/// declaration order; the first offending field wins.
pub open spec fn spec_resource_type_from_json(j: SpecJson) -> Result<ResourceTypeView, ErrorView> {
    match j {
        SpecJson::Obj(fields) => match spec_field_opt_string(spec_obj_get(fields, "id"@)) {
            Err(e) => Err(fe_msg("id"@, e)),
            Ok(id) => match spec_field_string(spec_obj_get(fields, "name"@)) {
                Err(e) => Err(fe_msg("name"@, e)),
                Ok(name) => match spec_field_opt_string(spec_obj_get(fields, "description"@)) {
                    Err(e) => Err(fe_msg("description"@, e)),
                    Ok(description) => match spec_field_string(
                        spec_obj_get(fields, "endpoint"@),
                    ) {
                        Err(e) => Err(fe_msg("endpoint"@, e)),
                        Ok(endpoint) => match spec_field_string(spec_obj_get(fields, "schema"@)) {
                            Err(e) => Err(fe_msg("schema"@, e)),
                            Ok(schema) => match spec_opt_schema_extensions(
                                spec_obj_get(fields, "schemaExtensions"@),
                            ) {
                                Err(e) => Err(e),
                                Ok(schema_extensions) => Ok(
                                    ResourceTypeView {
                                        id,
                                        name,
                                        description,
                                        endpoint,
                                        schema,
                                        schema_extensions,
                                    },
                                ),
                            },
                        },
                    },
                },
            },
        },
        _ => Err(not_object_msg()),
    }
}

/// The document form of a `ResourceType`: one object, members in
/// declaration order, unset slots as null.
pub open spec fn spec_resource_type_to_json(t: ResourceTypeView) -> SpecJson {
    SpecJson::Obj(
        seq![
            ("id"@, spec_opt_string_json(t.id)),
            ("name"@, SpecJson::Str(t.name)),
            ("description"@, spec_opt_string_json(t.description)),
            ("endpoint"@, SpecJson::Str(t.endpoint)),
            ("schema"@, SpecJson::Str(t.schema)),
            ("schemaExtensions"@, spec_schema_extensions_json(t.schema_extensions)),
        ],
    )
}

/// What deserializing a text yields: the parse error verbatim, or the
/// resource type read from the parsed document.
pub open spec fn spec_resource_type_deserialize(s: Seq<char>) -> Result<
    ResourceTypeView,
    ErrorView,
> {
    match spec_parse_json(s) {
        Ok(j) => spec_resource_type_from_json(j),
        Err(m) => Err(ErrorView::DeserializationError(m)),
    }
}

/// What validation returns: the first required field that is empty, in
/// declaration order, or success.
pub open spec fn spec_resource_type_validate(t: ResourceTypeView) -> Result<(), ErrorView> {
    if t.name.len() == 0 {
        Err(ErrorView::MissingRequiredField("name"@))
    } else if t.endpoint.len() == 0 {
        Err(ErrorView::MissingRequiredField("endpoint"@))
    } else if t.schema.len() == 0 {
        Err(ErrorView::MissingRequiredField("schema"@))
    } else {
        Ok(())
    }
}

/// The model of `ResourceType::default()`: placeholder name, endpoint and
/// schema, so that a default resource type validates.
pub open spec fn spec_default_resource_type() -> ResourceTypeView {
    ResourceTypeView {
        id: None,
        name: "default_name"@,
        description: None,
        endpoint: "default_endpoint"@,
        schema: "default_schema"@,
        schema_extensions: None,
    }
}

impl Default for ResourceType {
    /// The default resource type: placeholder identifiers in the required
    /// slots, everything optional unset.
    fn default() -> (d: Self)
        ensures
            d.deep_view() == spec_default_resource_type(),
    {
        ResourceType {
            id: None,
            name: String::from_str("default_name"),
            description: None,
            endpoint: String::from_str("default_endpoint"),
            schema: String::from_str("default_schema"),
            schema_extensions: None,
        }
    }
}

impl ResourceType {
    /// Validates the resource type: `name`, `endpoint` and `schema` must
    /// each be non-empty, checked in that order; the first empty one is
    /// reported.
    pub fn validate(&self) -> (r: Result<(), SCIMError>)
        ensures
            res_view(r) == spec_resource_type_validate(self.deep_view()),
    {
        if self.name.as_str().is_empty() {
            return Err(SCIMError::MissingRequiredField(String::from_str("name")));
        }
        if self.endpoint.as_str().is_empty() {
            return Err(SCIMError::MissingRequiredField(String::from_str("endpoint")));
        }
        if self.schema.as_str().is_empty() {
            return Err(SCIMError::MissingRequiredField(String::from_str("schema")));
        }
        Ok(())
    }

    /// Reads a `ResourceType` from a document tree.
    pub fn from_json_value(v: &JsonValue) -> (r: Result<ResourceType, SCIMError>)
        ensures
            res_view(r) == spec_resource_type_from_json(v.deep_view()),
    {
        let fields = match v {
            JsonValue::Obj(fields) => fields,
            _ => {
                return Err(not_object_error());
            },
        };
        proof {
            lemma_fields_deep_view(*fields);
        }
        let id = match field_opt_string(obj_get(fields, "id")) {
            Ok(x) => x,
            Err(e) => {
                return Err(fe_error("id", e));
            },
        };
        let name = match field_string(obj_get(fields, "name")) {
            Ok(x) => x,
            Err(e) => {
                return Err(fe_error("name", e));
            },
        };
        let description = match field_opt_string(obj_get(fields, "description")) {
            Ok(x) => x,
            Err(e) => {
                return Err(fe_error("description", e));
            },
        };
        let endpoint = match field_string(obj_get(fields, "endpoint")) {
            Ok(x) => x,
            Err(e) => {
                return Err(fe_error("endpoint", e));
            },
        };
        let schema = match field_string(obj_get(fields, "schema")) {
            Ok(x) => x,
            Err(e) => {
                return Err(fe_error("schema", e));
            },
        };
        let schema_extensions = match opt_schema_extensions(obj_get(fields, "schemaExtensions")) {
            Ok(x) => x,
            Err(e) => {
                return Err(e);
            },
        };
        Ok(ResourceType { id, name, description, endpoint, schema, schema_extensions })
    }

    /// Writes the `ResourceType` as a document tree.
    pub fn to_json_value(&self) -> (r: JsonValue)
        ensures
            r.deep_view() == spec_resource_type_to_json(self.deep_view()),
    {
        let mut fields: Vec<(String, JsonValue)> = Vec::new();
        fields.push((String::from_str("id"), opt_string_json(&self.id)));
        fields.push((String::from_str("name"), JsonValue::Str(self.name.clone())));
        fields.push((String::from_str("description"), opt_string_json(&self.description)));
        fields.push((String::from_str("endpoint"), JsonValue::Str(self.endpoint.clone())));
        fields.push((String::from_str("schema"), JsonValue::Str(self.schema.clone())));
        fields.push(
            (String::from_str("schemaExtensions"), schema_extensions_json(&self.schema_extensions)),
        );
        proof {
            lemma_spec_json_fields(fields@);
            let target = spec_resource_type_to_json(self.deep_view())->Obj_0;
            assert(fields@.len() == 6);
            assert forall|k: int| 0 <= k < 6 implies spec_json_fields(fields@)[k] == target[k] by {
                assert(spec_json_fields(fields@)[k] == (fields@[k].0@, spec_json(fields@[k].1)));
            }
            assert(spec_json_fields(fields@) =~= target);
        }
        JsonValue::Obj(fields)
    }

    /// Serializes the resource type to its JSON text. Never fails;
    /// deserializing the text yields this resource type back.
    pub fn serialize(&self) -> (r: Result<String, SCIMError>)
        ensures
            r is Ok,
            r matches Ok(s) ==> s@ == spec_print_json(
                spec_resource_type_to_json(self.deep_view()),
            ),
            r matches Ok(s) ==> spec_resource_type_deserialize(s@) == Ok::<
                ResourceTypeView,
                ErrorView,
            >(self.deep_view()),
    {
        let j = self.to_json_value();
        proof {
            lemma_resource_type_json_ok(self.deep_view());
            lemma_ok_printable(spec_resource_type_to_json(self.deep_view()), 4);
            lemma_resource_type_round_trip(self.deep_view());
        }
        Ok(print_json(&j))
    }

    /// Deserializes a resource type from JSON text: the parse error
    /// verbatim when the text is not JSON, otherwise the fields read from
    /// the document.
    pub fn deserialize(s: &str) -> (r: Result<ResourceType, SCIMError>)
        ensures
            res_view(r) == spec_resource_type_deserialize(s@),
    {
        match parse_json(s) {
            Ok(j) => ResourceType::from_json_value(&j),
            Err(m) => Err(SCIMError::DeserializationError(m)),
        }
    }
}

/// A `ResourceType`'s document form is well-formed at depth four.
pub proof fn lemma_resource_type_json_ok(t: ResourceTypeView)
    ensures
        json_ok(spec_resource_type_to_json(t), 4),
{
    let fields = spec_resource_type_to_json(t)->Obj_0;
    reveal_strlit("id");
    reveal_strlit("name");
    reveal_strlit("description");
    reveal_strlit("endpoint");
    reveal_strlit("schema");
    reveal_strlit("schemaExtensions");
    assert(fields.len() == 6);
    assert forall|i: int| 0 <= i < fields.len() implies json_ok((#[trigger] fields[i]).1, 3) by {
        assert(fields[0].1 == spec_opt_string_json(t.id));
        assert(fields[1].1 == SpecJson::Str(t.name));
        assert(fields[2].1 == spec_opt_string_json(t.description));
        assert(fields[3].1 == SpecJson::Str(t.endpoint));
        assert(fields[4].1 == SpecJson::Str(t.schema));
        assert(fields[5].1 == spec_schema_extensions_json(t.schema_extensions));
        lemma_schema_extensions_json_ok(t.schema_extensions, 1);
    }
    assert forall|i: int, k: int| 0 <= i < k < fields.len() implies (#[trigger] fields[i]).0 != (
    #[trigger] fields[k]).0 by {
        assert(fields[0].0 == "id"@);
        assert(fields[1].0 == "name"@);
        assert(fields[2].0 == "description"@);
        assert(fields[3].0 == "endpoint"@);
        assert(fields[4].0 == "schema"@);
        assert(fields[5].0 == "schemaExtensions"@);
    }
    lemma_ok_obj(fields, 3);
}

/// Reading back the document form of a `ResourceType` yields it: the
/// value-level round trip under serialization.
pub proof fn lemma_resource_type_round_trip(t: ResourceTypeView)
    ensures
        spec_resource_type_from_json(spec_resource_type_to_json(t)) == Ok::<
            ResourceTypeView,
            ErrorView,
        >(t),
{
    reveal_strlit("id");
    reveal_strlit("name");
    reveal_strlit("description");
    reveal_strlit("endpoint");
    reveal_strlit("schema");
    reveal_strlit("schemaExtensions");
    let fields = spec_resource_type_to_json(t)->Obj_0;
    assert(fields[0] == ("id"@, spec_opt_string_json(t.id)));
    assert(fields[1] == ("name"@, SpecJson::Str(t.name)));
    assert(fields[2] == ("description"@, spec_opt_string_json(t.description)));
    assert(fields[3] == ("endpoint"@, SpecJson::Str(t.endpoint)));
    assert(fields[4] == ("schema"@, SpecJson::Str(t.schema)));
    assert(fields[5] == ("schemaExtensions"@, spec_schema_extensions_json(t.schema_extensions)));
    lemma_obj_get_at(fields, "id"@, 0);
    lemma_obj_get_at(fields, "name"@, 1);
    lemma_obj_get_at(fields, "description"@, 2);
    lemma_obj_get_at(fields, "endpoint"@, 3);
    lemma_obj_get_at(fields, "schema"@, 4);
    lemma_obj_get_at(fields, "schemaExtensions"@, 5);
    lemma_opt_string_round_trip(t.id);
    lemma_opt_string_round_trip(t.description);
    lemma_opt_schema_extensions_round_trip(t.schema_extensions);
    assert(spec_resource_type_from_json(spec_resource_type_to_json(t))->Ok_0 =~= t);
}

/// A default-constructed resource type validates: its required fields are
/// complete.
pub proof fn lemma_default_resource_type_valid()
    ensures
        spec_resource_type_validate(spec_default_resource_type()) == Ok::<(), ErrorView>(()),
{
    reveal_strlit("default_name");
    reveal_strlit("default_endpoint");
    reveal_strlit("default_schema");
}


impl TryFrom<&str> for ResourceType {
    type Error = SCIMError;

    /// Constructs a `ResourceType` from JSON text, as [`ResourceType::deserialize`] does.
    fn try_from(value: &str) -> (r: Result<ResourceType, SCIMError>)
        ensures
            res_view(r) == spec_resource_type_deserialize(value@),
    {
        ResourceType::deserialize(value)
    }
}

impl vstd::std_specs::convert::TryFromSpecImpl<&str> for ResourceType {
    /// The conversion's result holds owned strings, which a specification
    /// cannot construct, so its contract stands on the `try_from` method
    /// itself rather than through this hook.
    open spec fn obeys_try_from_spec() -> bool {
        false
    }

    open spec fn try_from_spec(v: &str) -> Result<ResourceType, SCIMError> {
        Err(SCIMError::InvalidJsonFormat)
    }
}
} // verus!
