//! Service-provider capability descriptors: which optional protocol
//! features a provider supports, with the JSON mapping of the wire format.

use vstd::prelude::*;

use crate::json::{
    fe_error, fe_msg, field_bool, field_i64, field_opt_string, field_string, json_ok,
    lemma_fields_deep_view, lemma_i64_json_round_trip, lemma_obj_get_at, lemma_ok_arr,
    lemma_ok_obj, lemma_ok_printable, lemma_opt_string_round_trip, lemma_spec_json_fields,
    lemma_spec_json_seq, not_object_error, not_object_msg, obj_get, opt_string_json, parse_json,
    print_json, res_view, spec_field_bool, spec_field_i64, spec_field_opt_string,
    spec_field_string, spec_i64_json, spec_json, spec_json_fields, spec_json_seq, spec_obj_get,
    spec_opt_string_json, spec_parse_json, spec_print_json, FieldError, JsonValue, SpecJson,
};
use crate::utils::error::{ErrorView, SCIMError};

verus! {

/// A provider's capability descriptor. Every capability record is required
/// on the wire; only the documentation link is optional.
#[derive(Debug, PartialEq)]
pub struct ServiceProviderConfig {
    pub documentation_uri: Option<String>,
    pub patch: Supported,
    pub bulk: Bulk,
    pub filter: Filter,
    pub change_password: Supported,
    pub sort: Supported,
    pub etag: Supported,
    pub authentication_schemes: Vec<AuthenticationScheme>,
}

/// One authentication scheme a provider offers; all fields are required.
#[derive(Debug, PartialEq)]
pub struct AuthenticationScheme {
    pub name: String,
    pub description: String,
    pub spec_uri: String,
    pub documentation_uri: String,
}

/// Filtering capability: the toggle and the page-size ceiling.
#[derive(Debug, PartialEq)]
pub struct Filter {
    pub supported: bool,
    pub max_results: i64,
}

/// Bulk-request capability: the toggle and its operation and payload
/// ceilings.
#[derive(Debug, PartialEq)]
pub struct Bulk {
    pub supported: bool,
    pub max_operations: i64,
    pub max_payload_size: i64,
}

/// A simple capability toggle.
#[derive(Debug, PartialEq)]
pub struct Supported {
    pub supported: bool,
}

/// Mathematical model of `ServiceProviderConfig`.
#[verifier::ext_equal]
pub struct ServiceProviderConfigView {
    pub documentation_uri: Option<Seq<char>>,
    pub patch: SupportedView,
    pub bulk: BulkView,
    pub filter: FilterView,
    pub change_password: SupportedView,
    pub sort: SupportedView,
    pub etag: SupportedView,
    pub authentication_schemes: Seq<AuthenticationSchemeView>,
}

/// Mathematical model of `AuthenticationScheme`.
#[verifier::ext_equal]
pub struct AuthenticationSchemeView {
    pub name: Seq<char>,
    pub description: Seq<char>,
    pub spec_uri: Seq<char>,
    pub documentation_uri: Seq<char>,
}

/// Mathematical model of `Filter`.
#[verifier::ext_equal]
pub struct FilterView {
    pub supported: bool,
    pub max_results: i64,
}

/// Mathematical model of `Bulk`.
#[verifier::ext_equal]
pub struct BulkView {
    pub supported: bool,
    pub max_operations: i64,
    pub max_payload_size: i64,
}

/// Mathematical model of `Supported`.
#[verifier::ext_equal]
pub struct SupportedView {
    pub supported: bool,
}

impl DeepView for ServiceProviderConfig {
    type V = ServiceProviderConfigView;

    open spec fn deep_view(&self) -> ServiceProviderConfigView {
        ServiceProviderConfigView {
            documentation_uri: self.documentation_uri.deep_view(),
            patch: self.patch.deep_view(),
            bulk: self.bulk.deep_view(),
            filter: self.filter.deep_view(),
            change_password: self.change_password.deep_view(),
            sort: self.sort.deep_view(),
            etag: self.etag.deep_view(),
            authentication_schemes: self.authentication_schemes.deep_view(),
        }
    }
}

impl DeepView for AuthenticationScheme {
    type V = AuthenticationSchemeView;

    open spec fn deep_view(&self) -> AuthenticationSchemeView {
        AuthenticationSchemeView {
            name: self.name.deep_view(),
            description: self.description.deep_view(),
            spec_uri: self.spec_uri.deep_view(),
            documentation_uri: self.documentation_uri.deep_view(),
        }
    }
}

impl DeepView for Filter {
    type V = FilterView;

    open spec fn deep_view(&self) -> FilterView {
        FilterView { supported: self.supported, max_results: self.max_results }
    }
}

impl DeepView for Bulk {
    type V = BulkView;

    open spec fn deep_view(&self) -> BulkView {
        BulkView {
            supported: self.supported,
            max_operations: self.max_operations,
            max_payload_size: self.max_payload_size,
        }
    }
}

impl DeepView for Supported {
    type V = SupportedView;

    open spec fn deep_view(&self) -> SupportedView {
        SupportedView { supported: self.supported }
    }
}

/// What reading a `Supported` toggle from a document yields.
pub open spec fn spec_supported_from_json(j: SpecJson) -> Result<SupportedView, ErrorView> {
    match j {
        SpecJson::Obj(fields) => match spec_field_bool(spec_obj_get(fields, "supported"@)) {
            Err(e) => Err(fe_msg("supported"@, e)),
            Ok(supported) => Ok(SupportedView { supported }),
        },
        _ => Err(not_object_msg()),
    }
}

/// The document form of a `Supported` toggle.
pub open spec fn spec_supported_to_json(s: SupportedView) -> SpecJson {
    SpecJson::Obj(seq![("supported"@, SpecJson::Bool(s.supported))])
}

impl Supported {
    /// Reads a `Supported` toggle from a document tree.
    pub fn from_json_value(v: &JsonValue) -> (r: Result<Supported, SCIMError>)
        ensures
            res_view(r) == spec_supported_from_json(v.deep_view()),
    {
        let fields = match v {
            JsonValue::Obj(fields) => fields,
            _ => {
                return Err(not_object_error());
            },
        };
        proof {
            lemma_fields_deep_view(*fields);
        }
        let supported = match field_bool(obj_get(fields, "supported")) {
            Ok(x) => x,
            Err(e) => {
                return Err(fe_error("supported", e));
            },
        };
        Ok(Supported { supported })
    }

    /// Writes the `Supported` toggle as a document tree.
    pub fn to_json_value(&self) -> (r: JsonValue)
        ensures
            r.deep_view() == spec_supported_to_json(self.deep_view()),
    {
        let mut fields: Vec<(String, JsonValue)> = Vec::new();
        fields.push((String::from_str("supported"), JsonValue::Bool(self.supported)));
        proof {
            lemma_spec_json_fields(fields@);
            let target = spec_supported_to_json(self.deep_view())->Obj_0;
            assert(fields@.len() == 1);
            assert forall|k: int| 0 <= k < 1 implies spec_json_fields(fields@)[k] == target[k] by {
                assert(spec_json_fields(fields@)[k] == (fields@[k].0@, spec_json(fields@[k].1)));
            }
            assert(spec_json_fields(fields@) =~= target);
        }
        JsonValue::Obj(fields)
    }
}

/// A `Supported` toggle is well-formed document data.
pub proof fn lemma_supported_json_ok(s: SupportedView, n: nat)
    ensures
        json_ok(spec_supported_to_json(s), n + 1),
{
    let fields = spec_supported_to_json(s)->Obj_0;
    assert(fields.len() == 1);
    assert forall|i: int| 0 <= i < fields.len() implies json_ok((#[trigger] fields[i]).1, n) by {
        assert(fields[0].1 == SpecJson::Bool(s.supported));
    }
    lemma_ok_obj(fields, n);
}

/// Reading back the document form of a `Supported` toggle yields it.
pub proof fn lemma_supported_round_trip(s: SupportedView)
    ensures
        spec_supported_from_json(spec_supported_to_json(s)) == Ok::<SupportedView, ErrorView>(s),
{
    let fields = spec_supported_to_json(s)->Obj_0;
    assert(fields[0] == ("supported"@, SpecJson::Bool(s.supported)));
    lemma_obj_get_at(fields, "supported"@, 0);
    assert(spec_supported_from_json(spec_supported_to_json(s))->Ok_0 =~= s);
}

/// What reading a `Bulk` record from a document yields.
pub open spec fn spec_bulk_from_json(j: SpecJson) -> Result<BulkView, ErrorView> {
    match j {
        SpecJson::Obj(fields) => match spec_field_bool(spec_obj_get(fields, "supported"@)) {
            Err(e) => Err(fe_msg("supported"@, e)),
            Ok(supported) => match spec_field_i64(spec_obj_get(fields, "maxOperations"@)) {
                Err(e) => Err(fe_msg("maxOperations"@, e)),
                Ok(max_operations) => match spec_field_i64(
                    spec_obj_get(fields, "maxPayloadSize"@),
                ) {
                    Err(e) => Err(fe_msg("maxPayloadSize"@, e)),
                    Ok(max_payload_size) => Ok(
                        BulkView { supported, max_operations, max_payload_size },
                    ),
                },
            },
        },
        _ => Err(not_object_msg()),
    }
}

/// The document form of a `Bulk` record.
pub open spec fn spec_bulk_to_json(b: BulkView) -> SpecJson {
    SpecJson::Obj(
        seq![
            ("supported"@, SpecJson::Bool(b.supported)),
            ("maxOperations"@, spec_i64_json(b.max_operations)),
            ("maxPayloadSize"@, spec_i64_json(b.max_payload_size)),
        ],
    )
}

impl Bulk {
    /// Reads a `Bulk` record from a document tree.
    pub fn from_json_value(v: &JsonValue) -> (r: Result<Bulk, SCIMError>)
        ensures
            res_view(r) == spec_bulk_from_json(v.deep_view()),
    {
        let fields = match v {
            JsonValue::Obj(fields) => fields,
            _ => {
                return Err(not_object_error());
            },
        };
        proof {
            lemma_fields_deep_view(*fields);
        }
        let supported = match field_bool(obj_get(fields, "supported")) {
            Ok(x) => x,
            Err(e) => {
                return Err(fe_error("supported", e));
            },
        };
        let max_operations = match field_i64(obj_get(fields, "maxOperations")) {
            Ok(x) => x,
            Err(e) => {
                return Err(fe_error("maxOperations", e));
            },
        };
        let max_payload_size = match field_i64(obj_get(fields, "maxPayloadSize")) {
            Ok(x) => x,
            Err(e) => {
                return Err(fe_error("maxPayloadSize", e));
            },
        };
        Ok(Bulk { supported, max_operations, max_payload_size })
    }

    /// Writes the `Bulk` record as a document tree.
    pub fn to_json_value(&self) -> (r: JsonValue)
        ensures
            r.deep_view() == spec_bulk_to_json(self.deep_view()),
    {
        let mut fields: Vec<(String, JsonValue)> = Vec::new();
        fields.push((String::from_str("supported"), JsonValue::Bool(self.supported)));
        fields.push((String::from_str("maxOperations"), crate::json::i64_json(self.max_operations)));
        fields.push(
            (String::from_str("maxPayloadSize"), crate::json::i64_json(self.max_payload_size)),
        );
        proof {
            lemma_spec_json_fields(fields@);
            let target = spec_bulk_to_json(self.deep_view())->Obj_0;
            assert(fields@.len() == 3);
            assert forall|k: int| 0 <= k < 3 implies spec_json_fields(fields@)[k] == target[k] by {
                assert(spec_json_fields(fields@)[k] == (fields@[k].0@, spec_json(fields@[k].1)));
            }
            assert(spec_json_fields(fields@) =~= target);
        }
        JsonValue::Obj(fields)
    }
}

/// A `Bulk` record is well-formed document data.
pub proof fn lemma_bulk_json_ok(b: BulkView, n: nat)
    ensures
        json_ok(spec_bulk_to_json(b), n + 1),
{
    let fields = spec_bulk_to_json(b)->Obj_0;
    reveal_strlit("supported");
    reveal_strlit("maxOperations");
    reveal_strlit("maxPayloadSize");
    assert(fields.len() == 3);
    assert forall|i: int| 0 <= i < fields.len() implies json_ok((#[trigger] fields[i]).1, n) by {
        assert(fields[0].1 == SpecJson::Bool(b.supported));
        assert(fields[1].1 == spec_i64_json(b.max_operations));
        assert(fields[2].1 == spec_i64_json(b.max_payload_size));
    }
    assert forall|i: int, k: int| 0 <= i < k < fields.len() implies (#[trigger] fields[i]).0 != (
    #[trigger] fields[k]).0 by {
        assert(fields[0].0 == "supported"@);
        assert(fields[1].0 == "maxOperations"@);
        assert(fields[2].0 == "maxPayloadSize"@);
    }
    lemma_ok_obj(fields, n);
}

/// Reading back the document form of a `Bulk` record yields it.
pub proof fn lemma_bulk_round_trip(b: BulkView)
    ensures
        spec_bulk_from_json(spec_bulk_to_json(b)) == Ok::<BulkView, ErrorView>(b),
{
    reveal_strlit("supported");
    reveal_strlit("maxOperations");
    reveal_strlit("maxPayloadSize");
    let fields = spec_bulk_to_json(b)->Obj_0;
    assert(fields[0] == ("supported"@, SpecJson::Bool(b.supported)));
    assert(fields[1] == ("maxOperations"@, spec_i64_json(b.max_operations)));
    assert(fields[2] == ("maxPayloadSize"@, spec_i64_json(b.max_payload_size)));
    lemma_obj_get_at(fields, "supported"@, 0);
    lemma_obj_get_at(fields, "maxOperations"@, 1);
    lemma_obj_get_at(fields, "maxPayloadSize"@, 2);
    lemma_i64_json_round_trip(b.max_operations);
    lemma_i64_json_round_trip(b.max_payload_size);
    assert(spec_bulk_from_json(spec_bulk_to_json(b))->Ok_0 =~= b);
}

/// What reading a `Filter` record from a document yields.
pub open spec fn spec_filter_from_json(j: SpecJson) -> Result<FilterView, ErrorView> {
    match j {
        SpecJson::Obj(fields) => match spec_field_bool(spec_obj_get(fields, "supported"@)) {
            Err(e) => Err(fe_msg("supported"@, e)),
            Ok(supported) => match spec_field_i64(spec_obj_get(fields, "maxResults"@)) {
                Err(e) => Err(fe_msg("maxResults"@, e)),
                Ok(max_results) => Ok(FilterView { supported, max_results }),
            },
        },
        _ => Err(not_object_msg()),
    }
}

/// The document form of a `Filter` record.
pub open spec fn spec_filter_to_json(f: FilterView) -> SpecJson {
    SpecJson::Obj(
        seq![
            ("supported"@, SpecJson::Bool(f.supported)),
            ("maxResults"@, spec_i64_json(f.max_results)),
        ],
    )
}

impl Filter {
    /// Reads a `Filter` record from a document tree.
    pub fn from_json_value(v: &JsonValue) -> (r: Result<Filter, SCIMError>)
        ensures
            res_view(r) == spec_filter_from_json(v.deep_view()),
    {
        let fields = match v {
            JsonValue::Obj(fields) => fields,
            _ => {
                return Err(not_object_error());
            },
        };
        proof {
            lemma_fields_deep_view(*fields);
        }
        let supported = match field_bool(obj_get(fields, "supported")) {
            Ok(x) => x,
            Err(e) => {
                return Err(fe_error("supported", e));
            },
        };
        let max_results = match field_i64(obj_get(fields, "maxResults")) {
            Ok(x) => x,
            Err(e) => {
                return Err(fe_error("maxResults", e));
            },
        };
        Ok(Filter { supported, max_results })
    }

    /// Writes the `Filter` record as a document tree.
    pub fn to_json_value(&self) -> (r: JsonValue)
        ensures
            r.deep_view() == spec_filter_to_json(self.deep_view()),
    {
        let mut fields: Vec<(String, JsonValue)> = Vec::new();
        fields.push((String::from_str("supported"), JsonValue::Bool(self.supported)));
        fields.push((String::from_str("maxResults"), crate::json::i64_json(self.max_results)));
        proof {
            lemma_spec_json_fields(fields@);
            let target = spec_filter_to_json(self.deep_view())->Obj_0;
            assert(fields@.len() == 2);
            assert forall|k: int| 0 <= k < 2 implies spec_json_fields(fields@)[k] == target[k] by {
                assert(spec_json_fields(fields@)[k] == (fields@[k].0@, spec_json(fields@[k].1)));
            }
            assert(spec_json_fields(fields@) =~= target);
        }
        JsonValue::Obj(fields)
    }
}

/// A `Filter` record is well-formed document data.
pub proof fn lemma_filter_json_ok(f: FilterView, n: nat)
    ensures
        json_ok(spec_filter_to_json(f), n + 1),
{
    let fields = spec_filter_to_json(f)->Obj_0;
    reveal_strlit("supported");
    reveal_strlit("maxResults");
    assert(fields.len() == 2);
    assert forall|i: int| 0 <= i < fields.len() implies json_ok((#[trigger] fields[i]).1, n) by {
        assert(fields[0].1 == SpecJson::Bool(f.supported));
        assert(fields[1].1 == spec_i64_json(f.max_results));
    }
    assert forall|i: int, k: int| 0 <= i < k < fields.len() implies (#[trigger] fields[i]).0 != (
    #[trigger] fields[k]).0 by {
        assert(fields[0].0 == "supported"@);
        assert(fields[1].0 == "maxResults"@);
    }
    lemma_ok_obj(fields, n);
}

/// Reading back the document form of a `Filter` record yields it.
pub proof fn lemma_filter_round_trip(f: FilterView)
    ensures
        spec_filter_from_json(spec_filter_to_json(f)) == Ok::<FilterView, ErrorView>(f),
{
    reveal_strlit("supported");
    reveal_strlit("maxResults");
    let fields = spec_filter_to_json(f)->Obj_0;
    assert(fields[0] == ("supported"@, SpecJson::Bool(f.supported)));
    assert(fields[1] == ("maxResults"@, spec_i64_json(f.max_results)));
    lemma_obj_get_at(fields, "supported"@, 0);
    lemma_obj_get_at(fields, "maxResults"@, 1);
    lemma_i64_json_round_trip(f.max_results);
    assert(spec_filter_from_json(spec_filter_to_json(f))->Ok_0 =~= f);
}

/// What reading an `AuthenticationScheme` from a document yields: four
/// required strings under the protocol's names.
pub open spec fn spec_auth_scheme_from_json(j: SpecJson) -> Result<
    AuthenticationSchemeView,
    ErrorView,
> {
    match j {
        SpecJson::Obj(fields) => match spec_field_string(spec_obj_get(fields, "name"@)) {
            Err(e) => Err(fe_msg("name"@, e)),
            Ok(name) => match spec_field_string(spec_obj_get(fields, "description"@)) {
                Err(e) => Err(fe_msg("description"@, e)),
                Ok(description) => match spec_field_string(spec_obj_get(fields, "specUri"@)) {
                    Err(e) => Err(fe_msg("specUri"@, e)),
                    Ok(spec_uri) => match spec_field_string(
                        spec_obj_get(fields, "documentationUri"@),
                    ) {
                        Err(e) => Err(fe_msg("documentationUri"@, e)),
                        Ok(documentation_uri) => Ok(
                            AuthenticationSchemeView {
                                name,
                                description,
                                spec_uri,
                                documentation_uri,
                            },
                        ),
                    },
                },
            },
        },
        _ => Err(not_object_msg()),
    }
}

/// The document form of an `AuthenticationScheme`.
pub open spec fn spec_auth_scheme_to_json(a: AuthenticationSchemeView) -> SpecJson {
    SpecJson::Obj(
        seq![
            ("name"@, SpecJson::Str(a.name)),
            ("description"@, SpecJson::Str(a.description)),
            ("specUri"@, SpecJson::Str(a.spec_uri)),
            ("documentationUri"@, SpecJson::Str(a.documentation_uri)),
        ],
    )
}

impl AuthenticationScheme {
    /// Reads an `AuthenticationScheme` from a document tree.
    pub fn from_json_value(v: &JsonValue) -> (r: Result<AuthenticationScheme, SCIMError>)
        ensures
            res_view(r) == spec_auth_scheme_from_json(v.deep_view()),
    {
        let fields = match v {
            JsonValue::Obj(fields) => fields,
            _ => {
                return Err(not_object_error());
            },
        };
        proof {
            lemma_fields_deep_view(*fields);
        }
        let name = match field_string(obj_get(fields, "name")) {
            Ok(x) => x,
            Err(e) => {
                return Err(fe_error("name", e));
            },
        };
        let description = match field_string(obj_get(fields, "description")) {
            Ok(x) => x,
            Err(e) => {
                return Err(fe_error("description", e));
            },
        };
        let spec_uri = match field_string(obj_get(fields, "specUri")) {
            Ok(x) => x,
            Err(e) => {
                return Err(fe_error("specUri", e));
            },
        };
        let documentation_uri = match field_string(obj_get(fields, "documentationUri")) {
            Ok(x) => x,
            Err(e) => {
                return Err(fe_error("documentationUri", e));
            },
        };
        Ok(AuthenticationScheme { name, description, spec_uri, documentation_uri })
    }

    /// Writes the `AuthenticationScheme` as a document tree.
    pub fn to_json_value(&self) -> (r: JsonValue)
        ensures
            r.deep_view() == spec_auth_scheme_to_json(self.deep_view()),
    {
        let mut fields: Vec<(String, JsonValue)> = Vec::new();
        fields.push((String::from_str("name"), JsonValue::Str(self.name.clone())));
        fields.push((String::from_str("description"), JsonValue::Str(self.description.clone())));
        fields.push((String::from_str("specUri"), JsonValue::Str(self.spec_uri.clone())));
        fields.push(
            (String::from_str("documentationUri"), JsonValue::Str(self.documentation_uri.clone())),
        );
        proof {
            lemma_spec_json_fields(fields@);
            let target = spec_auth_scheme_to_json(self.deep_view())->Obj_0;
            assert(fields@.len() == 4);
            assert forall|k: int| 0 <= k < 4 implies spec_json_fields(fields@)[k] == target[k] by {
                assert(spec_json_fields(fields@)[k] == (fields@[k].0@, spec_json(fields@[k].1)));
            }
            assert(spec_json_fields(fields@) =~= target);
        }
        JsonValue::Obj(fields)
    }
}

/// An `AuthenticationScheme` is well-formed document data.
pub proof fn lemma_auth_scheme_json_ok(a: AuthenticationSchemeView, n: nat)
    ensures
        json_ok(spec_auth_scheme_to_json(a), n + 1),
{
    let fields = spec_auth_scheme_to_json(a)->Obj_0;
    reveal_strlit("name");
    reveal_strlit("description");
    reveal_strlit("specUri");
    reveal_strlit("documentationUri");
    assert(fields.len() == 4);
    assert forall|i: int| 0 <= i < fields.len() implies json_ok((#[trigger] fields[i]).1, n) by {
        assert(fields[0].1 == SpecJson::Str(a.name));
        assert(fields[1].1 == SpecJson::Str(a.description));
        assert(fields[2].1 == SpecJson::Str(a.spec_uri));
        assert(fields[3].1 == SpecJson::Str(a.documentation_uri));
    }
    assert forall|i: int, k: int| 0 <= i < k < fields.len() implies (#[trigger] fields[i]).0 != (
    #[trigger] fields[k]).0 by {
        assert(fields[0].0 == "name"@);
        assert(fields[1].0 == "description"@);
        assert(fields[2].0 == "specUri"@);
        assert(fields[3].0 == "documentationUri"@);
    }
    lemma_ok_obj(fields, n);
}

/// Reading back the document form of an `AuthenticationScheme` yields it.
pub proof fn lemma_auth_scheme_round_trip(a: AuthenticationSchemeView)
    ensures
        spec_auth_scheme_from_json(spec_auth_scheme_to_json(a)) == Ok::<
            AuthenticationSchemeView,
            ErrorView,
        >(a),
{
    reveal_strlit("name");
    reveal_strlit("description");
    reveal_strlit("specUri");
    reveal_strlit("documentationUri");
    let fields = spec_auth_scheme_to_json(a)->Obj_0;
    assert(fields[0] == ("name"@, SpecJson::Str(a.name)));
    assert(fields[1] == ("description"@, SpecJson::Str(a.description)));
    assert(fields[2] == ("specUri"@, SpecJson::Str(a.spec_uri)));
    assert(fields[3] == ("documentationUri"@, SpecJson::Str(a.documentation_uri)));
    lemma_obj_get_at(fields, "name"@, 0);
    lemma_obj_get_at(fields, "description"@, 1);
    lemma_obj_get_at(fields, "specUri"@, 2);
    lemma_obj_get_at(fields, "documentationUri"@, 3);
    assert(spec_auth_scheme_from_json(spec_auth_scheme_to_json(a))->Ok_0 =~= a);
}

/// The schemes of an array whose elements must all be scheme records; the
/// first offending element's error wins.
pub open spec fn spec_auth_schemes_of(items: Seq<SpecJson>) -> Result<
    Seq<AuthenticationSchemeView>,
    ErrorView,
>
    decreases items.len(),
{
    if items.len() == 0 {
        Ok(Seq::empty())
    } else {
        match spec_auth_scheme_from_json(items[0]) {
            Err(e) => Err(e),
            Ok(a) => match spec_auth_schemes_of(items.subrange(1, items.len() as int)) {
                Ok(rest) => Ok(seq![a] + rest),
                Err(e) => Err(e),
            },
        }
    }
}

/// Converts the elements of an array into scheme records.
pub fn auth_schemes_of(items: &Vec<JsonValue>) -> (r: Result<
    Vec<AuthenticationScheme>,
    SCIMError,
>)
    ensures
        res_view(r) == spec_auth_schemes_of(spec_json_seq(items@)),
{
    let ghost dv = spec_json_seq(items@);
    proof {
        lemma_spec_json_seq(items@);
        assert(dv.skip(0) =~= dv);
    }
    let mut out: Vec<AuthenticationScheme> = Vec::new();
    let n = items.len();
    for i in 0..n
        invariant
            n == items.len(),
            dv == spec_json_seq(items@),
            dv.len() == n,
            forall|k: int| 0 <= k < n ==> dv[k] == spec_json(#[trigger] items@[k]),
            out.deep_view().len() == i,
            spec_auth_schemes_of(dv) == match spec_auth_schemes_of(dv.skip(i as int)) {
                Ok(rest) => Ok::<Seq<AuthenticationSchemeView>, ErrorView>(
                    out.deep_view() + rest,
                ),
                Err(e) => Err::<Seq<AuthenticationSchemeView>, ErrorView>(e),
            },
    {
        proof {
            assert(dv.skip(i as int)[0] == dv[i as int]);
            assert(dv.skip(i as int).subrange(1, dv.skip(i as int).len() as int) =~= dv.skip(
                i as int + 1,
            ));
        }
        match AuthenticationScheme::from_json_value(&items[i]) {
            Ok(a) => {
                let ghost prev = out.deep_view();
                let ghost elt = a.deep_view();
                out.push(a);
                proof {
                    assert(out.deep_view() =~= prev + seq![elt]);
                    match spec_auth_schemes_of(dv.skip(i as int + 1)) {
                        Ok(rest) => {
                            assert((prev + seq![elt]) + rest =~= prev + (seq![elt] + rest));
                        },
                        Err(_) => {},
                    }
                }
            },
            Err(e) => {
                return Err(e);
            },
        }
    }
    proof {
        assert(dv.skip(n as int) =~= Seq::empty());
        assert(out.deep_view() + Seq::<AuthenticationSchemeView>::empty() =~= out.deep_view());
    }
    Ok(out)
}

/// Reading back the document form of a scheme list yields it.
pub proof fn lemma_auth_schemes_of_round_trip(schemes: Seq<AuthenticationSchemeView>)
    ensures
        spec_auth_schemes_of(
            schemes.map_values(|a: AuthenticationSchemeView| spec_auth_scheme_to_json(a)),
        ) == Ok::<Seq<AuthenticationSchemeView>, ErrorView>(schemes),
    decreases schemes.len(),
{
    let items = schemes.map_values(|a: AuthenticationSchemeView| spec_auth_scheme_to_json(a));
    if schemes.len() == 0 {
        assert(Seq::<AuthenticationSchemeView>::empty() =~= schemes);
    } else {
        lemma_auth_scheme_round_trip(schemes[0]);
        let tail = schemes.subrange(1, schemes.len() as int);
        lemma_auth_schemes_of_round_trip(tail);
        assert(items.subrange(1, items.len() as int) =~= tail.map_values(
            |a: AuthenticationSchemeView| spec_auth_scheme_to_json(a),
        ));
        assert(seq![schemes[0]] + tail =~= schemes);
    }
}

/// What reading a `ServiceProviderConfig` from a document yields, field by
/// field in declaration order; the first offending field wins.
pub open spec fn spec_spc_from_json(j: SpecJson) -> Result<ServiceProviderConfigView, ErrorView> {
    match j {
        SpecJson::Obj(fields) => match spec_field_opt_string(
            spec_obj_get(fields, "documentationUri"@),
        ) {
            Err(e) => Err(fe_msg("documentationUri"@, e)),
            Ok(documentation_uri) => match spec_req_obj(
                spec_obj_get(fields, "patch"@),
                "patch"@,
            ) {
                Err(e) => Err(e),
                Ok(patch_j) => match spec_supported_from_json(patch_j) {
                    Err(e) => Err(e),
                    Ok(patch) => match spec_req_obj(spec_obj_get(fields, "bulk"@), "bulk"@) {
                        Err(e) => Err(e),
                        Ok(bulk_j) => match spec_bulk_from_json(bulk_j) {
                            Err(e) => Err(e),
                            Ok(bulk) => match spec_req_obj(
                                spec_obj_get(fields, "filter"@),
                                "filter"@,
                            ) {
                                Err(e) => Err(e),
                                Ok(filter_j) => match spec_filter_from_json(filter_j) {
                                    Err(e) => Err(e),
                                    Ok(filter) => spec_spc_from_json_rest(
                                        fields,
                                        documentation_uri,
                                        patch,
                                        bulk,
                                        filter,
                                    ),
                                },
                            },
                        },
                    },
                },
            },
        },
        _ => Err(not_object_msg()),
    }
}

/// The remaining fields of a `ServiceProviderConfig`, after the first four.
pub open spec fn spec_spc_from_json_rest(
    fields: Seq<(Seq<char>, SpecJson)>,
    documentation_uri: Option<Seq<char>>,
    patch: SupportedView,
    bulk: BulkView,
    filter: FilterView,
) -> Result<ServiceProviderConfigView, ErrorView> {
    match spec_req_obj(spec_obj_get(fields, "changePassword"@), "changePassword"@) {
        Err(e) => Err(e),
        Ok(cp_j) => match spec_supported_from_json(cp_j) {
            Err(e) => Err(e),
            Ok(change_password) => match spec_req_obj(spec_obj_get(fields, "sort"@), "sort"@) {
                Err(e) => Err(e),
                Ok(sort_j) => match spec_supported_from_json(sort_j) {
                    Err(e) => Err(e),
                    Ok(sort) => match spec_req_obj(spec_obj_get(fields, "etag"@), "etag"@) {
                        Err(e) => Err(e),
                        Ok(etag_j) => match spec_supported_from_json(etag_j) {
                            Err(e) => Err(e),
                            Ok(etag) => match spec_obj_get(fields, "authenticationSchemes"@) {
                                None => Err(fe_msg("authenticationSchemes"@, FieldError::Missing)),
                                Some(SpecJson::Arr(items)) => match spec_auth_schemes_of(items) {
                                    Err(e) => Err(e),
                                    Ok(authentication_schemes) => Ok(
                                        ServiceProviderConfigView {
                                            documentation_uri,
                                            patch,
                                            bulk,
                                            filter,
                                            change_password,
                                            sort,
                                            etag,
                                            authentication_schemes,
                                        },
                                    ),
                                },
                                Some(_) => Err(
                                    fe_msg("authenticationSchemes"@, FieldError::Invalid),
                                ),
                            },
                        },
                    },
                },
            },
        },
    }
}

/// A required record-valued field: present or reported missing.
pub open spec fn spec_req_obj(f: Option<SpecJson>, name: Seq<char>) -> Result<
    SpecJson,
    ErrorView,
> {
    match f {
        None => Err(fe_msg(name, FieldError::Missing)),
        Some(j) => Ok(j),
    }
}

/// The document form of a `ServiceProviderConfig`: one object, members in
/// declaration order.
pub open spec fn spec_spc_to_json(c: ServiceProviderConfigView) -> SpecJson {
    SpecJson::Obj(
        seq![
            ("documentationUri"@, spec_opt_string_json(c.documentation_uri)),
            ("patch"@, spec_supported_to_json(c.patch)),
            ("bulk"@, spec_bulk_to_json(c.bulk)),
            ("filter"@, spec_filter_to_json(c.filter)),
            ("changePassword"@, spec_supported_to_json(c.change_password)),
            ("sort"@, spec_supported_to_json(c.sort)),
            ("etag"@, spec_supported_to_json(c.etag)),
            (
                "authenticationSchemes"@,
                SpecJson::Arr(
                    c.authentication_schemes.map_values(
                        |a: AuthenticationSchemeView| spec_auth_scheme_to_json(a),
                    ),
                ),
            ),
        ],
    )
}

/// What deserializing a text yields: the parse error verbatim, or the
/// descriptor read from the parsed document.
pub open spec fn spec_spc_deserialize(s: Seq<char>) -> Result<
    ServiceProviderConfigView,
    ErrorView,
> {
    match spec_parse_json(s) {
        Ok(j) => spec_spc_from_json(j),
        Err(m) => Err(ErrorView::DeserializationError(m)),
    }
}

/// The model of `ServiceProviderConfig::default()`: nothing supported, all
/// ceilings zero, no schemes.
pub open spec fn spec_default_spc() -> ServiceProviderConfigView {
    ServiceProviderConfigView {
        documentation_uri: None,
        patch: SupportedView { supported: false },
        bulk: BulkView { supported: false, max_operations: 0, max_payload_size: 0 },
        filter: FilterView { supported: false, max_results: 0 },
        change_password: SupportedView { supported: false },
        sort: SupportedView { supported: false },
        etag: SupportedView { supported: false },
        authentication_schemes: Seq::empty(),
    }
}

impl Default for ServiceProviderConfig {
    /// The default descriptor: every capability off, every ceiling zero.
    fn default() -> (d: Self)
        ensures
            d.deep_view() == spec_default_spc(),
    {
        let d = ServiceProviderConfig {
            documentation_uri: None,
            patch: Supported { supported: false },
            bulk: Bulk { supported: false, max_operations: 0, max_payload_size: 0 },
            filter: Filter { supported: false, max_results: 0 },
            change_password: Supported { supported: false },
            sort: Supported { supported: false },
            etag: Supported { supported: false },
            authentication_schemes: Vec::new(),
        };
        proof {
            assert(d.deep_view().authentication_schemes =~= spec_default_spc(
            ).authentication_schemes);
            assert(d.deep_view() =~= spec_default_spc());
        }
        d
    }
}

impl ServiceProviderConfig {
    /// Reads a `ServiceProviderConfig` from a document tree.
    pub fn from_json_value(v: &JsonValue) -> (r: Result<ServiceProviderConfig, SCIMError>)
        ensures
            res_view(r) == spec_spc_from_json(v.deep_view()),
    {
        let fields = match v {
            JsonValue::Obj(fields) => fields,
            _ => {
                return Err(not_object_error());
            },
        };
        proof {
            lemma_fields_deep_view(*fields);
        }
        let documentation_uri = match field_opt_string(obj_get(fields, "documentationUri")) {
            Ok(x) => x,
            Err(e) => {
                return Err(fe_error("documentationUri", e));
            },
        };
        let patch = match obj_get(fields, "patch") {
            None => {
                return Err(fe_error("patch", FieldError::Missing));
            },
            Some(j) => match Supported::from_json_value(j) {
                Ok(x) => x,
                Err(e) => {
                    return Err(e);
                },
            },
        };
        let bulk = match obj_get(fields, "bulk") {
            None => {
                return Err(fe_error("bulk", FieldError::Missing));
            },
            Some(j) => match Bulk::from_json_value(j) {
                Ok(x) => x,
                Err(e) => {
                    return Err(e);
                },
            },
        };
        let filter = match obj_get(fields, "filter") {
            None => {
                return Err(fe_error("filter", FieldError::Missing));
            },
            Some(j) => match Filter::from_json_value(j) {
                Ok(x) => x,
                Err(e) => {
                    return Err(e);
                },
            },
        };
        let change_password = match obj_get(fields, "changePassword") {
            None => {
                return Err(fe_error("changePassword", FieldError::Missing));
            },
            Some(j) => match Supported::from_json_value(j) {
                Ok(x) => x,
                Err(e) => {
                    return Err(e);
                },
            },
        };
        let sort = match obj_get(fields, "sort") {
            None => {
                return Err(fe_error("sort", FieldError::Missing));
            },
            Some(j) => match Supported::from_json_value(j) {
                Ok(x) => x,
                Err(e) => {
                    return Err(e);
                },
            },
        };
        let etag = match obj_get(fields, "etag") {
            None => {
                return Err(fe_error("etag", FieldError::Missing));
            },
            Some(j) => match Supported::from_json_value(j) {
                Ok(x) => x,
                Err(e) => {
                    return Err(e);
                },
            },
        };
        let authentication_schemes = match obj_get(fields, "authenticationSchemes") {
            None => {
                return Err(fe_error("authenticationSchemes", FieldError::Missing));
            },
            Some(JsonValue::Arr(items)) => match auth_schemes_of(items) {
                Ok(x) => x,
                Err(e) => {
                    return Err(e);
                },
            },
            Some(_) => {
                return Err(fe_error("authenticationSchemes", FieldError::Invalid));
            },
        };
        Ok(
            ServiceProviderConfig {
                documentation_uri,
                patch,
                bulk,
                filter,
                change_password,
                sort,
                etag,
                authentication_schemes,
            },
        )
    }

    /// Writes the `ServiceProviderConfig` as a document tree.
    pub fn to_json_value(&self) -> (r: JsonValue)
        ensures
            r.deep_view() == spec_spc_to_json(self.deep_view()),
    {
        let mut schemes: Vec<JsonValue> = Vec::new();
        let n = self.authentication_schemes.len();
        for i in 0..n
            invariant
                n == self.authentication_schemes.len(),
                schemes@.len() == i,
                forall|k: int|
                    0 <= k < i ==> spec_json(#[trigger] schemes@[k]) == spec_auth_scheme_to_json(
                        self.authentication_schemes.deep_view()[k],
                    ),
        {
            schemes.push(self.authentication_schemes[i].to_json_value());
        }
        proof {
            lemma_spec_json_seq(schemes@);
            let target = self.authentication_schemes.deep_view().map_values(
                |a: AuthenticationSchemeView| spec_auth_scheme_to_json(a),
            );
            assert forall|k: int| 0 <= k < schemes@.len() implies spec_json_seq(schemes@)[k]
                == target[k] by {
                assert(spec_json(schemes@[k]) == spec_auth_scheme_to_json(
                    self.authentication_schemes.deep_view()[k],
                ));
            }
            assert(spec_json_seq(schemes@) =~= target);
        }
        let mut fields: Vec<(String, JsonValue)> = Vec::new();
        fields.push(
            (String::from_str("documentationUri"), opt_string_json(&self.documentation_uri)),
        );
        fields.push((String::from_str("patch"), self.patch.to_json_value()));
        fields.push((String::from_str("bulk"), self.bulk.to_json_value()));
        fields.push((String::from_str("filter"), self.filter.to_json_value()));
        fields.push((String::from_str("changePassword"), self.change_password.to_json_value()));
        fields.push((String::from_str("sort"), self.sort.to_json_value()));
        fields.push((String::from_str("etag"), self.etag.to_json_value()));
        fields.push((String::from_str("authenticationSchemes"), JsonValue::Arr(schemes)));
        proof {
            lemma_spec_json_fields(fields@);
            let target = spec_spc_to_json(self.deep_view())->Obj_0;
            assert(fields@.len() == 8);
            assert forall|k: int| 0 <= k < 8 implies spec_json_fields(fields@)[k] == target[k] by {
                assert(spec_json_fields(fields@)[k] == (fields@[k].0@, spec_json(fields@[k].1)));
            }
            assert(spec_json_fields(fields@) =~= target);
        }
        JsonValue::Obj(fields)
    }

    /// Serializes the descriptor to its JSON text. Never fails;
    /// deserializing the text yields this descriptor back.
    pub fn serialize(&self) -> (r: Result<String, SCIMError>)
        ensures
            r is Ok,
            r matches Ok(s) ==> s@ == spec_print_json(spec_spc_to_json(self.deep_view())),
            r matches Ok(s) ==> spec_spc_deserialize(s@) == Ok::<
                ServiceProviderConfigView,
                ErrorView,
            >(self.deep_view()),
    {
        let j = self.to_json_value();
        proof {
            lemma_spc_json_ok(self.deep_view());
            lemma_ok_printable(spec_spc_to_json(self.deep_view()), 4);
            lemma_spc_round_trip(self.deep_view());
        }
        Ok(print_json(&j))
    }

    /// Deserializes a descriptor from JSON text: the parse error verbatim
    /// when the text is not JSON, otherwise the fields read from the
    /// document.
    pub fn deserialize(s: &str) -> (r: Result<ServiceProviderConfig, SCIMError>)
        ensures
            res_view(r) == spec_spc_deserialize(s@),
    {
        match parse_json(s) {
            Ok(j) => ServiceProviderConfig::from_json_value(&j),
            Err(m) => Err(SCIMError::DeserializationError(m)),
        }
    }
}

/// A `ServiceProviderConfig`'s document form is well-formed at depth four.
pub proof fn lemma_spc_json_ok(c: ServiceProviderConfigView)
    ensures
        json_ok(spec_spc_to_json(c), 4),
{
    let fields = spec_spc_to_json(c)->Obj_0;
    reveal_strlit("documentationUri");
    reveal_strlit("patch");
    reveal_strlit("bulk");
    reveal_strlit("filter");
    reveal_strlit("changePassword");
    reveal_strlit("sort");
    reveal_strlit("etag");
    reveal_strlit("authenticationSchemes");
    assert("bulk"@[0] == 'b' && "sort"@[0] == 's' && "etag"@[0] == 'e');
    assert(fields.len() == 8);
    assert forall|i: int| 0 <= i < fields.len() implies json_ok((#[trigger] fields[i]).1, 3) by {
        assert(fields[0].1 == spec_opt_string_json(c.documentation_uri));
        assert(fields[1].1 == spec_supported_to_json(c.patch));
        assert(fields[2].1 == spec_bulk_to_json(c.bulk));
        assert(fields[3].1 == spec_filter_to_json(c.filter));
        assert(fields[4].1 == spec_supported_to_json(c.change_password));
        assert(fields[5].1 == spec_supported_to_json(c.sort));
        assert(fields[6].1 == spec_supported_to_json(c.etag));
        lemma_supported_json_ok(c.patch, 2);
        lemma_bulk_json_ok(c.bulk, 2);
        lemma_filter_json_ok(c.filter, 2);
        lemma_supported_json_ok(c.change_password, 2);
        lemma_supported_json_ok(c.sort, 2);
        lemma_supported_json_ok(c.etag, 2);
        let items = c.authentication_schemes.map_values(
            |a: AuthenticationSchemeView| spec_auth_scheme_to_json(a),
        );
        assert(fields[7].1 == SpecJson::Arr(items));
        assert forall|k: int| 0 <= k < items.len() implies json_ok(#[trigger] items[k], 2) by {
            assert(items[k] == spec_auth_scheme_to_json(c.authentication_schemes[k]));
            lemma_auth_scheme_json_ok(c.authentication_schemes[k], 1);
        }
        lemma_ok_arr(items, 2);
    }
    assert forall|i: int, k: int| 0 <= i < k < fields.len() implies (#[trigger] fields[i]).0 != (
    #[trigger] fields[k]).0 by {
        assert(fields[0].0 == "documentationUri"@);
        assert(fields[1].0 == "patch"@);
        assert(fields[2].0 == "bulk"@);
        assert(fields[3].0 == "filter"@);
        assert(fields[4].0 == "changePassword"@);
        assert(fields[5].0 == "sort"@);
        assert(fields[6].0 == "etag"@);
        assert(fields[7].0 == "authenticationSchemes"@);
    }
    lemma_ok_obj(fields, 3);
}

/// Reading back the document form of a `ServiceProviderConfig` yields it:
/// the value-level round trip under serialization.
pub proof fn lemma_spc_round_trip(c: ServiceProviderConfigView)
    ensures
        spec_spc_from_json(spec_spc_to_json(c)) == Ok::<ServiceProviderConfigView, ErrorView>(c),
{
    reveal_strlit("documentationUri");
    reveal_strlit("patch");
    reveal_strlit("bulk");
    reveal_strlit("filter");
    reveal_strlit("changePassword");
    reveal_strlit("sort");
    reveal_strlit("etag");
    reveal_strlit("authenticationSchemes");
    assert("bulk"@[0] == 'b' && "sort"@[0] == 's' && "etag"@[0] == 'e');
    let fields = spec_spc_to_json(c)->Obj_0;
    let items = c.authentication_schemes.map_values(
        |a: AuthenticationSchemeView| spec_auth_scheme_to_json(a),
    );
    assert(fields[0] == ("documentationUri"@, spec_opt_string_json(c.documentation_uri)));
    assert(fields[1] == ("patch"@, spec_supported_to_json(c.patch)));
    assert(fields[2] == ("bulk"@, spec_bulk_to_json(c.bulk)));
    assert(fields[3] == ("filter"@, spec_filter_to_json(c.filter)));
    assert(fields[4] == ("changePassword"@, spec_supported_to_json(c.change_password)));
    assert(fields[5] == ("sort"@, spec_supported_to_json(c.sort)));
    assert(fields[6] == ("etag"@, spec_supported_to_json(c.etag)));
    assert(fields[7] == ("authenticationSchemes"@, SpecJson::Arr(items)));
    lemma_obj_get_at(fields, "documentationUri"@, 0);
    lemma_obj_get_at(fields, "patch"@, 1);
    lemma_obj_get_at(fields, "bulk"@, 2);
    lemma_obj_get_at(fields, "filter"@, 3);
    lemma_obj_get_at(fields, "changePassword"@, 4);
    lemma_obj_get_at(fields, "sort"@, 5);
    lemma_obj_get_at(fields, "etag"@, 6);
    lemma_obj_get_at(fields, "authenticationSchemes"@, 7);
    lemma_opt_string_round_trip(c.documentation_uri);
    lemma_supported_round_trip(c.patch);
    lemma_bulk_round_trip(c.bulk);
    lemma_filter_round_trip(c.filter);
    lemma_supported_round_trip(c.change_password);
    lemma_supported_round_trip(c.sort);
    lemma_supported_round_trip(c.etag);
    lemma_auth_schemes_of_round_trip(c.authentication_schemes);
    assert(spec_spc_from_json(spec_spc_to_json(c))->Ok_0 =~= c);
}

} // verus!
