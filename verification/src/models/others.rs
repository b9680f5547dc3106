//! Search and list envelopes, and the polymorphic resource union that lets
//! one response array mix users, schemas and groups without a discriminator
//! field: each element is resolved by shape, trying the variants in a fixed
//! order.

use vstd::prelude::*;

use crate::json::{
    fe_error, fe_msg, field_i64, field_opt_i64, field_opt_strings, field_string, field_strings,
    json_ok, lemma_fields_deep_view,
    lemma_i64_json_round_trip, lemma_obj_get_absent, lemma_obj_get_at, lemma_ok_arr,
    lemma_ok_obj, lemma_ok_printable, lemma_ok_strings, lemma_spec_json_fields,
    lemma_spec_json_seq,
    lemma_opt_i64_round_trip, lemma_opt_strings_json_ok, lemma_opt_strings_round_trip,
    lemma_strings_round_trip, not_object_error, not_object_msg, obj_get, opt_i64_json,
    opt_strings_json, parse_json, print_json, res_view, spec_field_i64, spec_field_opt_i64,
    spec_field_opt_strings, spec_field_string, spec_field_strings, spec_i64_json, spec_json,
    spec_json_fields, spec_json_seq, spec_obj_get, spec_opt_i64_json, spec_opt_strings_json,
    spec_parse_json, spec_print_json, spec_strings_json, FieldError, JsonValue, SpecJson,
};
use crate::models::group::{
    lemma_group_json_ok, lemma_group_round_trip, spec_group_from_json, spec_group_to_json, Group,
    GroupView,
};
use crate::models::scim_schema::{
    lemma_schema_json_ok, lemma_schema_round_trip, spec_schema_from_json, spec_schema_to_json,
    Schema, SchemaView,
};
use crate::models::user::{
    lemma_user_json_ok, lemma_user_round_trip, spec_user_from_json, spec_user_to_json, User,
    UserView,
};
use crate::utils::error::{ErrorView, SCIMError};

verus! {

/// A search request envelope with attribute selection and pagination.
#[derive(Debug, PartialEq)]
pub struct SearchRequest {
    pub schemas: Vec<String>,
    pub attributes: Option<Vec<String>>,
    pub excluded_attributes: Option<Vec<String>>,
    pub filter: String,
    pub start_index: i64,
    pub count: i64,
}

/// A list query: a filter with one-based pagination.
#[derive(Debug, PartialEq)]
pub struct ListQuery {
    pub filter: String,
    pub start_index: i64,
    pub count: Option<i64>,
}

/// One element of a list response: a user, a schema or a group. The wire
/// form carries no discriminator; the variant is inferred from the shape,
/// in this declaration order.
#[derive(Debug, PartialEq)]
pub enum Resource {
    User(Box<User>),
    Schema(Box<Schema>),
    Group(Box<Group>),
}

/// A list response envelope: pagination counters and the resolved
/// polymorphic resource sequence. `totalResults` need not equal the number
/// of resources carried; the wire format permits windowed pages.
#[derive(Debug, PartialEq)]
pub struct ListResponse {
    pub items_per_page: i64,
    pub total_results: i64,
    pub start_index: i64,
    pub schemas: Vec<String>,
    pub resources: Vec<Resource>,
}

/// Mathematical model of `SearchRequest`.
#[verifier::ext_equal]
pub struct SearchRequestView {
    pub schemas: Seq<Seq<char>>,
    pub attributes: Option<Seq<Seq<char>>>,
    pub excluded_attributes: Option<Seq<Seq<char>>>,
    pub filter: Seq<char>,
    pub start_index: i64,
    pub count: i64,
}

/// Mathematical model of `ListQuery`.
#[verifier::ext_equal]
pub struct ListQueryView {
    pub filter: Seq<char>,
    pub start_index: i64,
    pub count: Option<i64>,
}

/// Mathematical model of `Resource`.
#[verifier::ext_equal]
pub enum ResourceView {
    User(UserView),
    Schema(SchemaView),
    Group(GroupView),
}

/// Mathematical model of `ListResponse`.
#[verifier::ext_equal]
pub struct ListResponseView {
    pub items_per_page: i64,
    pub total_results: i64,
    pub start_index: i64,
    pub schemas: Seq<Seq<char>>,
    pub resources: Seq<ResourceView>,
}

impl DeepView for SearchRequest {
    type V = SearchRequestView;

    open spec fn deep_view(&self) -> SearchRequestView {
        SearchRequestView {
            schemas: self.schemas.deep_view(),
            attributes: self.attributes.deep_view(),
            excluded_attributes: self.excluded_attributes.deep_view(),
            filter: self.filter.deep_view(),
            start_index: self.start_index,
            count: self.count,
        }
    }
}

impl DeepView for ListQuery {
    type V = ListQueryView;

    open spec fn deep_view(&self) -> ListQueryView {
        ListQueryView {
            filter: self.filter.deep_view(),
            start_index: self.start_index,
            count: self.count,
        }
    }
}

impl DeepView for Resource {
    type V = ResourceView;

    open spec fn deep_view(&self) -> ResourceView {
        match self {
            Resource::User(u) => ResourceView::User(u.deep_view()),
            Resource::Schema(s) => ResourceView::Schema(s.deep_view()),
            Resource::Group(g) => ResourceView::Group(g.deep_view()),
        }
    }
}

impl DeepView for ListResponse {
    type V = ListResponseView;

    open spec fn deep_view(&self) -> ListResponseView {
        ListResponseView {
            items_per_page: self.items_per_page,
            total_results: self.total_results,
            start_index: self.start_index,
            schemas: self.schemas.deep_view(),
            resources: self.resources.deep_view(),
        }
    }
}

/// The model of `SearchRequest::default()`.
pub open spec fn spec_default_search_request() -> SearchRequestView {
    SearchRequestView {
        schemas: seq!["urn:ietf:params:scim:api:messages:2.0:SearchRequest"@],
        attributes: None,
        excluded_attributes: None,
        filter: Seq::empty(),
        start_index: 1,
        count: 100,
    }
}

impl Default for SearchRequest {
    /// The default request: canonical URN, no attribute selection, an empty
    /// filter, the first page of one hundred.
    fn default() -> (d: Self)
        ensures
            d.deep_view() == spec_default_search_request(),
    {
        let mut schemas: Vec<String> = Vec::new();
        schemas.push(String::from_str("urn:ietf:params:scim:api:messages:2.0:SearchRequest"));
        let d = SearchRequest {
            schemas,
            attributes: None,
            excluded_attributes: None,
            filter: String::new(),
            start_index: 1,
            count: 100,
        };
        proof {
            assert(d.deep_view().schemas =~= spec_default_search_request().schemas);
            assert(d.deep_view().filter =~= spec_default_search_request().filter);
            assert(d.deep_view() =~= spec_default_search_request());
        }
        d
    }
}

/// The model of `ListQuery::default()`.
pub open spec fn spec_default_list_query() -> ListQueryView {
    ListQueryView { filter: Seq::empty(), start_index: 1, count: Some(100) }
}

impl Default for ListQuery {
    /// The default query: an empty filter, the first page of one hundred.
    fn default() -> (d: Self)
        ensures
            d.deep_view() == spec_default_list_query(),
    {
        let d = ListQuery { filter: String::new(), start_index: 1, count: Some(100) };
        proof {
            assert(d.deep_view().filter =~= spec_default_list_query().filter);
            assert(d.deep_view() =~= spec_default_list_query());
        }
        d
    }
}

/// The message reported when no variant's shape matches an element.
pub open spec fn untagged_msg() -> ErrorView {
    ErrorView::DeserializationError("data did not match any variant of untagged enum Resource"@)
}

/// Builds the error for an element that no variant's shape matches.
pub fn untagged_error() -> (r: SCIMError)
    ensures
        r.deep_view() == untagged_msg(),
{
    SCIMError::DeserializationError(
        String::from_str("data did not match any variant of untagged enum Resource"),
    )
}

/// What reading a `Resource` from a document yields: the first variant, in
/// declaration order, whose shape accepts the document.
pub open spec fn spec_resource_from_json(j: SpecJson) -> Result<ResourceView, ErrorView> {
    match spec_user_from_json(j) {
        Ok(u) => Ok(ResourceView::User(u)),
        Err(_) => match spec_schema_from_json(j) {
            Ok(s) => Ok(ResourceView::Schema(s)),
            Err(_) => match spec_group_from_json(j) {
                Ok(g) => Ok(ResourceView::Group(g)),
                Err(_) => Err(untagged_msg()),
            },
        },
    }
}

/// The document form of a `Resource`: the variant's own form, with no
/// discriminator added.
pub open spec fn spec_resource_to_json(r: ResourceView) -> SpecJson {
    match r {
        ResourceView::User(u) => spec_user_to_json(u),
        ResourceView::Schema(s) => spec_schema_to_json(s),
        ResourceView::Group(g) => spec_group_to_json(g),
    }
}

impl Resource {
    /// Reads a `Resource` from a document tree, trying the variants in
    /// declaration order.
    pub fn from_json_value(v: &JsonValue) -> (r: Result<Resource, SCIMError>)
        ensures
            res_view(r) == spec_resource_from_json(v.deep_view()),
    {
        match User::from_json_value(v) {
            Ok(u) => Ok(Resource::User(Box::new(u))),
            Err(_) => match Schema::from_json_value(v) {
                Ok(s) => Ok(Resource::Schema(Box::new(s))),
                Err(_) => match Group::from_json_value(v) {
                    Ok(g) => Ok(Resource::Group(Box::new(g))),
                    Err(_) => Err(untagged_error()),
                },
            },
        }
    }

    /// Writes the `Resource` as a document tree.
    pub fn to_json_value(&self) -> (r: JsonValue)
        ensures
            r.deep_view() == spec_resource_to_json(self.deep_view()),
    {
        match self {
            Resource::User(u) => u.to_json_value(),
            Resource::Schema(s) => s.to_json_value(),
            Resource::Group(g) => g.to_json_value(),
        }
    }
}

/// A `Resource`'s document form is well-formed at depth seven.
pub proof fn lemma_resource_json_ok(r: ResourceView)
    ensures
        json_ok(spec_resource_to_json(r), 7),
{
    match r {
        ResourceView::User(u) => {
            lemma_user_json_ok(u);
            crate::json::lemma_ok_mono(spec_user_to_json(u), 5, 7);
        },
        ResourceView::Schema(s) => {
            lemma_schema_json_ok(s);
        },
        ResourceView::Group(g) => {
            lemma_group_json_ok(g);
            crate::json::lemma_ok_mono(spec_group_to_json(g), 4, 7);
        },
    }
}

/// A user's shape never accepts a schema document: schemas require a
/// `userName` member that a schema document does not carry.
pub proof fn lemma_user_rejects_schema_json(s: SchemaView)
    ensures
        spec_user_from_json(spec_schema_to_json(s)) is Err,
{
    reveal_strlit("id");
    reveal_strlit("name");
    reveal_strlit("description");
    reveal_strlit("attributes");
    reveal_strlit("meta");
    reveal_strlit("schemas");
    reveal_strlit("userName");
    let fields = spec_schema_to_json(s)->Obj_0;
    assert(fields[0] == ("id"@, SpecJson::Str(s.id)));
    lemma_obj_get_at(fields, "id"@, 0);
    assert forall|k: int| 0 <= k < fields.len() implies (#[trigger] fields[k]).0 != "schemas"@ by {
        assert(fields[0].0 == "id"@);
        assert(fields[1].0 == "name"@);
        assert(fields[2].0 == "description"@);
        assert(fields[3].0 == "attributes"@);
        assert(fields[4].0 == "meta"@);
    }
    lemma_obj_get_absent(fields, "schemas"@);
    assert forall|k: int| 0 <= k < fields.len() implies (#[trigger] fields[k]).0 != "userName"@ by {
        assert(fields[0].0 == "id"@);
        assert(fields[1].0 == "name"@);
        assert(fields[2].0 == "description"@);
        assert(fields[3].0 == "attributes"@);
        assert(fields[4].0 == "meta"@);
    }
    lemma_obj_get_absent(fields, "userName"@);
}

/// A user's shape never accepts a group document, for want of `userName`.
pub proof fn lemma_user_rejects_group_json(g: GroupView)
    ensures
        spec_user_from_json(spec_group_to_json(g)) is Err,
{
    reveal_strlit("schemas");
    reveal_strlit("id");
    reveal_strlit("displayName");
    reveal_strlit("members");
    reveal_strlit("meta");
    reveal_strlit("userName");
    assert("schemas"@[0] == 's' && "members"@[0] == 'm');
    let fields = spec_group_to_json(g)->Obj_0;
    assert(fields[0] == ("schemas"@, spec_strings_json(g.schemas)));
    assert(fields[1] == ("id"@, SpecJson::Str(g.id)));
    lemma_obj_get_at(fields, "schemas"@, 0);
    lemma_obj_get_at(fields, "id"@, 1);
    lemma_strings_round_trip(g.schemas);
    assert forall|k: int| 0 <= k < fields.len() implies (#[trigger] fields[k]).0 != "userName"@ by {
        assert(fields[0].0 == "schemas"@);
        assert(fields[1].0 == "id"@);
        assert(fields[2].0 == "displayName"@);
        assert(fields[3].0 == "members"@);
        assert(fields[4].0 == "meta"@);
    }
    lemma_obj_get_absent(fields, "userName"@);
}

/// A schema's shape never accepts a group document, for want of `name`.
pub proof fn lemma_schema_rejects_group_json(g: GroupView)
    ensures
        spec_schema_from_json(spec_group_to_json(g)) is Err,
{
    reveal_strlit("schemas");
    reveal_strlit("id");
    reveal_strlit("displayName");
    reveal_strlit("members");
    reveal_strlit("meta");
    reveal_strlit("name");
    assert("schemas"@[0] == 's' && "members"@[0] == 'm');
    assert("name"@[0] == 'n' && "meta"@[0] == 'm');
    let fields = spec_group_to_json(g)->Obj_0;
    assert(fields[1] == ("id"@, SpecJson::Str(g.id)));
    lemma_obj_get_at(fields, "id"@, 1);
    assert forall|k: int| 0 <= k < fields.len() implies (#[trigger] fields[k]).0 != "name"@ by {
        assert(fields[0].0 == "schemas"@);
        assert(fields[1].0 == "id"@);
        assert(fields[2].0 == "displayName"@);
        assert(fields[3].0 == "members"@);
        assert(fields[4].0 == "meta"@);
    }
    lemma_obj_get_absent(fields, "name"@);
}

/// Reading back the document form of a `Resource` yields it: the variant
/// shapes are mutually exclusive, so resolution restores the variant.
pub proof fn lemma_resource_round_trip(r: ResourceView)
    ensures
        spec_resource_from_json(spec_resource_to_json(r)) == Ok::<ResourceView, ErrorView>(r),
{
    match r {
        ResourceView::User(u) => {
            lemma_user_round_trip(u);
        },
        ResourceView::Schema(s) => {
            lemma_user_rejects_schema_json(s);
            lemma_schema_round_trip(s);
        },
        ResourceView::Group(g) => {
            lemma_user_rejects_group_json(g);
            lemma_schema_rejects_group_json(g);
            lemma_group_round_trip(g);
        },
    }
}

/// The resources of an array, each resolved by shape; the first element
/// that no variant accepts fails the whole array.
pub open spec fn spec_resources_of(items: Seq<SpecJson>) -> Result<Seq<ResourceView>, ErrorView>
    decreases items.len(),
{
    if items.len() == 0 {
        Ok(Seq::empty())
    } else {
        match spec_resource_from_json(items[0]) {
            Err(e) => Err(e),
            Ok(r) => match spec_resources_of(items.subrange(1, items.len() as int)) {
                Ok(rest) => Ok(seq![r] + rest),
                Err(e) => Err(e),
            },
        }
    }
}

/// Converts the elements of an array into resolved resources.
pub fn resources_of(items: &Vec<JsonValue>) -> (r: Result<Vec<Resource>, SCIMError>)
    ensures
        res_view(r) == spec_resources_of(spec_json_seq(items@)),
{
    let ghost dv = spec_json_seq(items@);
    proof {
        lemma_spec_json_seq(items@);
        assert(dv.skip(0) =~= dv);
    }
    let mut out: Vec<Resource> = Vec::new();
    let n = items.len();
    for i in 0..n
        invariant
            n == items.len(),
            dv == spec_json_seq(items@),
            dv.len() == n,
            forall|k: int| 0 <= k < n ==> dv[k] == spec_json(#[trigger] items@[k]),
            out.deep_view().len() == i,
            spec_resources_of(dv) == match spec_resources_of(dv.skip(i as int)) {
                Ok(rest) => Ok::<Seq<ResourceView>, ErrorView>(out.deep_view() + rest),
                Err(e) => Err::<Seq<ResourceView>, ErrorView>(e),
            },
    {
        proof {
            assert(dv.skip(i as int)[0] == dv[i as int]);
            assert(dv.skip(i as int).subrange(1, dv.skip(i as int).len() as int) =~= dv.skip(
                i as int + 1,
            ));
        }
        match Resource::from_json_value(&items[i]) {
            Ok(r) => {
                let ghost prev = out.deep_view();
                let ghost elt = r.deep_view();
                out.push(r);
                proof {
                    assert(out.deep_view() =~= prev + seq![elt]);
                    match spec_resources_of(dv.skip(i as int + 1)) {
                        Ok(rest) => {
                            assert((prev + seq![elt]) + rest =~= prev + (seq![elt] + rest));
                        },
                        Err(_) => {},
                    }
                }
            },
            Err(e) => {
                return Err(e);
            },
        }
    }
    proof {
        assert(dv.skip(n as int) =~= Seq::empty());
        assert(out.deep_view() + Seq::<ResourceView>::empty() =~= out.deep_view());
    }
    Ok(out)
}

/// Reading back the document forms of a resource list yields it, in order.
pub proof fn lemma_resources_of_round_trip(rs: Seq<ResourceView>)
    ensures
        spec_resources_of(rs.map_values(|r: ResourceView| spec_resource_to_json(r))) == Ok::<
            Seq<ResourceView>,
            ErrorView,
        >(rs),
    decreases rs.len(),
{
    let items = rs.map_values(|r: ResourceView| spec_resource_to_json(r));
    if rs.len() == 0 {
        assert(Seq::<ResourceView>::empty() =~= rs);
    } else {
        lemma_resource_round_trip(rs[0]);
        let tail = rs.subrange(1, rs.len() as int);
        lemma_resources_of_round_trip(tail);
        assert(items.subrange(1, items.len() as int) =~= tail.map_values(
            |r: ResourceView| spec_resource_to_json(r),
        ));
        assert(seq![rs[0]] + tail =~= rs);
    }
}

/// What reading a `ListResponse` from a document yields, field by field in
/// declaration order; every field is required and each element of
/// `Resources` must match some variant.
pub open spec fn spec_list_response_from_json(j: SpecJson) -> Result<ListResponseView, ErrorView> {
    match j {
        SpecJson::Obj(fields) => match spec_field_i64(spec_obj_get(fields, "itemsPerPage"@)) {
            Err(e) => Err(fe_msg("itemsPerPage"@, e)),
            Ok(items_per_page) => match spec_field_i64(spec_obj_get(fields, "totalResults"@)) {
                Err(e) => Err(fe_msg("totalResults"@, e)),
                Ok(total_results) => match spec_field_i64(spec_obj_get(fields, "startIndex"@)) {
                    Err(e) => Err(fe_msg("startIndex"@, e)),
                    Ok(start_index) => match spec_field_strings(
                        spec_obj_get(fields, "schemas"@),
                    ) {
                        Err(e) => Err(fe_msg("schemas"@, e)),
                        Ok(schemas) => match spec_obj_get(fields, "Resources"@) {
                            None => Err(fe_msg("Resources"@, FieldError::Missing)),
                            Some(SpecJson::Arr(items)) => match spec_resources_of(items) {
                                Err(e) => Err(e),
                                Ok(resources) => Ok(
                                    ListResponseView {
                                        items_per_page,
                                        total_results,
                                        start_index,
                                        schemas,
                                        resources,
                                    },
                                ),
                            },
                            Some(_) => Err(fe_msg("Resources"@, FieldError::Invalid)),
                        },
                    },
                },
            },
        },
        _ => Err(not_object_msg()),
    }
}

/// The document form of a `ListResponse`: one object, members in
/// declaration order, the resource sequence under the capitalized
/// `Resources` name.
pub open spec fn spec_list_response_to_json(l: ListResponseView) -> SpecJson {
    SpecJson::Obj(
        seq![
            ("itemsPerPage"@, spec_i64_json(l.items_per_page)),
            ("totalResults"@, spec_i64_json(l.total_results)),
            ("startIndex"@, spec_i64_json(l.start_index)),
            ("schemas"@, spec_strings_json(l.schemas)),
            (
                "Resources"@,
                SpecJson::Arr(l.resources.map_values(|r: ResourceView| spec_resource_to_json(r))),
            ),
        ],
    )
}

/// What deserializing a text yields: the parse error verbatim, or the
/// response read from the parsed document.
pub open spec fn spec_list_response_deserialize(s: Seq<char>) -> Result<
    ListResponseView,
    ErrorView,
> {
    match spec_parse_json(s) {
        Ok(j) => spec_list_response_from_json(j),
        Err(m) => Err(ErrorView::DeserializationError(m)),
    }
}

/// The model of `ListResponse::default()`.
pub open spec fn spec_default_list_response() -> ListResponseView {
    ListResponseView {
        items_per_page: 0,
        total_results: 0,
        start_index: 1,
        schemas: seq!["urn:ietf:params:scim:api:messages:2.0:ListResponse"@],
        resources: Seq::empty(),
    }
}

impl Default for ListResponse {
    /// The default response: empty, with the canonical URN and the first
    /// page index.
    fn default() -> (d: Self)
        ensures
            d.deep_view() == spec_default_list_response(),
    {
        let mut schemas: Vec<String> = Vec::new();
        schemas.push(String::from_str("urn:ietf:params:scim:api:messages:2.0:ListResponse"));
        let d = ListResponse {
            items_per_page: 0,
            total_results: 0,
            start_index: 1,
            schemas,
            resources: Vec::new(),
        };
        proof {
            assert(d.deep_view().schemas =~= spec_default_list_response().schemas);
            assert(d.deep_view().resources =~= spec_default_list_response().resources);
            assert(d.deep_view() =~= spec_default_list_response());
        }
        d
    }
}

impl ListResponse {
    /// Reads a `ListResponse` from a document tree.
    pub fn from_json_value(v: &JsonValue) -> (r: Result<ListResponse, SCIMError>)
        ensures
            res_view(r) == spec_list_response_from_json(v.deep_view()),
    {
        let fields = match v {
            JsonValue::Obj(fields) => fields,
            _ => {
                return Err(not_object_error());
            },
        };
        proof {
            lemma_fields_deep_view(*fields);
        }
        let items_per_page = match field_i64(obj_get(fields, "itemsPerPage")) {
            Ok(x) => x,
            Err(e) => {
                return Err(fe_error("itemsPerPage", e));
            },
        };
        let total_results = match field_i64(obj_get(fields, "totalResults")) {
            Ok(x) => x,
            Err(e) => {
                return Err(fe_error("totalResults", e));
            },
        };
        let start_index = match field_i64(obj_get(fields, "startIndex")) {
            Ok(x) => x,
            Err(e) => {
                return Err(fe_error("startIndex", e));
            },
        };
        let schemas = match field_strings(obj_get(fields, "schemas")) {
            Ok(x) => x,
            Err(e) => {
                return Err(fe_error("schemas", e));
            },
        };
        let resources = match obj_get(fields, "Resources") {
            None => {
                return Err(fe_error("Resources", FieldError::Missing));
            },
            Some(JsonValue::Arr(items)) => match resources_of(items) {
                Ok(x) => x,
                Err(e) => {
                    return Err(e);
                },
            },
            Some(_) => {
                return Err(fe_error("Resources", FieldError::Invalid));
            },
        };
        Ok(ListResponse { items_per_page, total_results, start_index, schemas, resources })
    }

    /// Writes the `ListResponse` as a document tree.
    pub fn to_json_value(&self) -> (r: JsonValue)
        ensures
            r.deep_view() == spec_list_response_to_json(self.deep_view()),
    {
        let mut rs: Vec<JsonValue> = Vec::new();
        let n = self.resources.len();
        for i in 0..n
            invariant
                n == self.resources.len(),
                rs@.len() == i,
                forall|k: int|
                    0 <= k < i ==> spec_json(#[trigger] rs@[k]) == spec_resource_to_json(
                        self.resources.deep_view()[k],
                    ),
        {
            rs.push(self.resources[i].to_json_value());
        }
        proof {
            lemma_spec_json_seq(rs@);
            let target = self.resources.deep_view().map_values(
                |r: ResourceView| spec_resource_to_json(r),
            );
            assert forall|k: int| 0 <= k < rs@.len() implies spec_json_seq(rs@)[k] == target[k] by {
                assert(spec_json(rs@[k]) == spec_resource_to_json(self.resources.deep_view()[k]));
            }
            assert(spec_json_seq(rs@) =~= target);
        }
        let mut fields: Vec<(String, JsonValue)> = Vec::new();
        fields.push((String::from_str("itemsPerPage"), crate::json::i64_json(self.items_per_page)));
        fields.push((String::from_str("totalResults"), crate::json::i64_json(self.total_results)));
        fields.push((String::from_str("startIndex"), crate::json::i64_json(self.start_index)));
        fields.push((String::from_str("schemas"), crate::json::strings_json(&self.schemas)));
        fields.push((String::from_str("Resources"), JsonValue::Arr(rs)));
        proof {
            lemma_spec_json_fields(fields@);
            let target = spec_list_response_to_json(self.deep_view())->Obj_0;
            assert(fields@.len() == 5);
            assert forall|k: int| 0 <= k < 5 implies spec_json_fields(fields@)[k] == target[k] by {
                assert(spec_json_fields(fields@)[k] == (fields@[k].0@, spec_json(fields@[k].1)));
            }
            assert(spec_json_fields(fields@) =~= target);
        }
        JsonValue::Obj(fields)
    }

    /// Serializes the response to its JSON text. Never fails; deserializing
    /// the text yields this response back.
    pub fn serialize(&self) -> (r: Result<String, SCIMError>)
        ensures
            r is Ok,
            r matches Ok(s) ==> s@ == spec_print_json(
                spec_list_response_to_json(self.deep_view()),
            ),
            r matches Ok(s) ==> spec_list_response_deserialize(s@) == Ok::<
                ListResponseView,
                ErrorView,
            >(self.deep_view()),
    {
        let j = self.to_json_value();
        proof {
            lemma_list_response_json_ok(self.deep_view());
            lemma_ok_printable(spec_list_response_to_json(self.deep_view()), 9);
            lemma_list_response_round_trip(self.deep_view());
        }
        Ok(print_json(&j))
    }

    /// Deserializes a response from JSON text: the parse error verbatim
    /// when the text is not JSON, otherwise the fields read from the
    /// document, each resource resolved to its variant in input order.
    pub fn deserialize(s: &str) -> (r: Result<ListResponse, SCIMError>)
        ensures
            res_view(r) == spec_list_response_deserialize(s@),
    {
        match parse_json(s) {
            Ok(j) => ListResponse::from_json_value(&j),
            Err(m) => Err(SCIMError::DeserializationError(m)),
        }
    }
}

/// A `ListResponse`'s document form is well-formed at depth nine.
pub proof fn lemma_list_response_json_ok(l: ListResponseView)
    ensures
        json_ok(spec_list_response_to_json(l), 9),
{
    let fields = spec_list_response_to_json(l)->Obj_0;
    reveal_strlit("itemsPerPage");
    reveal_strlit("totalResults");
    reveal_strlit("startIndex");
    reveal_strlit("schemas");
    reveal_strlit("Resources");
    assert("itemsPerPage"@[0] == 'i' && "totalResults"@[0] == 't');
    assert(fields.len() == 5);
    assert forall|i: int| 0 <= i < fields.len() implies json_ok((#[trigger] fields[i]).1, 8) by {
        assert(fields[0].1 == spec_i64_json(l.items_per_page));
        assert(fields[1].1 == spec_i64_json(l.total_results));
        assert(fields[2].1 == spec_i64_json(l.start_index));
        assert(fields[3].1 == spec_strings_json(l.schemas));
        lemma_ok_strings(l.schemas, 7);
        let items = l.resources.map_values(|r: ResourceView| spec_resource_to_json(r));
        assert(fields[4].1 == SpecJson::Arr(items));
        assert forall|k: int| 0 <= k < items.len() implies json_ok(#[trigger] items[k], 7) by {
            assert(items[k] == spec_resource_to_json(l.resources[k]));
            lemma_resource_json_ok(l.resources[k]);
        }
        lemma_ok_arr(items, 7);
    }
    assert forall|i: int, k: int| 0 <= i < k < fields.len() implies (#[trigger] fields[i]).0 != (
    #[trigger] fields[k]).0 by {
        assert(fields[0].0 == "itemsPerPage"@);
        assert(fields[1].0 == "totalResults"@);
        assert(fields[2].0 == "startIndex"@);
        assert(fields[3].0 == "schemas"@);
        assert(fields[4].0 == "Resources"@);
    }
    lemma_ok_obj(fields, 8);
}

/// Reading back the document form of a `ListResponse` yields it: the
/// round trip preserves pagination, schemas, and every resource with its
/// variant and position.
pub proof fn lemma_list_response_round_trip(l: ListResponseView)
    ensures
        spec_list_response_from_json(spec_list_response_to_json(l)) == Ok::<
            ListResponseView,
            ErrorView,
        >(l),
{
    reveal_strlit("itemsPerPage");
    reveal_strlit("totalResults");
    reveal_strlit("startIndex");
    reveal_strlit("schemas");
    reveal_strlit("Resources");
    assert("itemsPerPage"@[0] == 'i' && "totalResults"@[0] == 't');
    let fields = spec_list_response_to_json(l)->Obj_0;
    let items = l.resources.map_values(|r: ResourceView| spec_resource_to_json(r));
    assert(fields[0] == ("itemsPerPage"@, spec_i64_json(l.items_per_page)));
    assert(fields[1] == ("totalResults"@, spec_i64_json(l.total_results)));
    assert(fields[2] == ("startIndex"@, spec_i64_json(l.start_index)));
    assert(fields[3] == ("schemas"@, spec_strings_json(l.schemas)));
    assert(fields[4] == ("Resources"@, SpecJson::Arr(items)));
    lemma_obj_get_at(fields, "itemsPerPage"@, 0);
    lemma_obj_get_at(fields, "totalResults"@, 1);
    lemma_obj_get_at(fields, "startIndex"@, 2);
    lemma_obj_get_at(fields, "schemas"@, 3);
    lemma_obj_get_at(fields, "Resources"@, 4);
    lemma_i64_json_round_trip(l.items_per_page);
    lemma_i64_json_round_trip(l.total_results);
    lemma_i64_json_round_trip(l.start_index);
    lemma_strings_round_trip(l.schemas);
    lemma_resources_of_round_trip(l.resources);
    assert(spec_list_response_from_json(spec_list_response_to_json(l))->Ok_0 =~= l);
}


/// What reading a `SearchRequest` from a document yields, field by field
/// in declaration order.
pub open spec fn spec_search_request_from_json(j: SpecJson) -> Result<
    SearchRequestView,
    ErrorView,
> {
    match j {
        SpecJson::Obj(fields) => match spec_field_strings(spec_obj_get(fields, "schemas"@)) {
            Err(e) => Err(fe_msg("schemas"@, e)),
            Ok(schemas) => match spec_field_opt_strings(spec_obj_get(fields, "attributes"@)) {
                Err(e) => Err(fe_msg("attributes"@, e)),
                Ok(attributes) => match spec_field_opt_strings(
                    spec_obj_get(fields, "excludedAttributes"@),
                ) {
                    Err(e) => Err(fe_msg("excludedAttributes"@, e)),
                    Ok(excluded_attributes) => match spec_field_string(
                        spec_obj_get(fields, "filter"@),
                    ) {
                        Err(e) => Err(fe_msg("filter"@, e)),
                        Ok(filter) => match spec_field_i64(spec_obj_get(fields, "startIndex"@)) {
                            Err(e) => Err(fe_msg("startIndex"@, e)),
                            Ok(start_index) => match spec_field_i64(
                                spec_obj_get(fields, "count"@),
                            ) {
                                Err(e) => Err(fe_msg("count"@, e)),
                                Ok(count) => Ok(
                                    SearchRequestView {
                                        schemas,
                                        attributes,
                                        excluded_attributes,
                                        filter,
                                        start_index,
                                        count,
                                    },
                                ),
                            },
                        },
                    },
                },
            },
        },
        _ => Err(not_object_msg()),
    }
}

/// The document form of a `SearchRequest`: one object, members in
/// declaration order, unset slots as null.
pub open spec fn spec_search_request_to_json(r: SearchRequestView) -> SpecJson {
    SpecJson::Obj(
        seq![
            ("schemas"@, spec_strings_json(r.schemas)),
            ("attributes"@, spec_opt_strings_json(r.attributes)),
            ("excludedAttributes"@, spec_opt_strings_json(r.excluded_attributes)),
            ("filter"@, SpecJson::Str(r.filter)),
            ("startIndex"@, spec_i64_json(r.start_index)),
            ("count"@, spec_i64_json(r.count)),
        ],
    )
}

/// What deserializing a text yields: the parse error verbatim, or the
/// request read from the parsed document.
pub open spec fn spec_search_request_deserialize(s: Seq<char>) -> Result<
    SearchRequestView,
    ErrorView,
> {
    match spec_parse_json(s) {
        Ok(j) => spec_search_request_from_json(j),
        Err(m) => Err(ErrorView::DeserializationError(m)),
    }
}

impl SearchRequest {
    /// Reads a `SearchRequest` from a document tree.
    pub fn from_json_value(v: &JsonValue) -> (r: Result<SearchRequest, SCIMError>)
        ensures
            res_view(r) == spec_search_request_from_json(v.deep_view()),
    {
        let fields = match v {
            JsonValue::Obj(fields) => fields,
            _ => {
                return Err(not_object_error());
            },
        };
        proof {
            lemma_fields_deep_view(*fields);
        }
        let schemas = match field_strings(obj_get(fields, "schemas")) {
            Ok(x) => x,
            Err(e) => {
                return Err(fe_error("schemas", e));
            },
        };
        let attributes = match field_opt_strings(obj_get(fields, "attributes")) {
            Ok(x) => x,
            Err(e) => {
                return Err(fe_error("attributes", e));
            },
        };
        let excluded_attributes = match field_opt_strings(obj_get(fields, "excludedAttributes")) {
            Ok(x) => x,
            Err(e) => {
                return Err(fe_error("excludedAttributes", e));
            },
        };
        let filter = match field_string(obj_get(fields, "filter")) {
            Ok(x) => x,
            Err(e) => {
                return Err(fe_error("filter", e));
            },
        };
        let start_index = match field_i64(obj_get(fields, "startIndex")) {
            Ok(x) => x,
            Err(e) => {
                return Err(fe_error("startIndex", e));
            },
        };
        let count = match field_i64(obj_get(fields, "count")) {
            Ok(x) => x,
            Err(e) => {
                return Err(fe_error("count", e));
            },
        };
        Ok(
            SearchRequest {
                schemas,
                attributes,
                excluded_attributes,
                filter,
                start_index,
                count,
            },
        )
    }

    /// Writes the `SearchRequest` as a document tree.
    pub fn to_json_value(&self) -> (r: JsonValue)
        ensures
            r.deep_view() == spec_search_request_to_json(self.deep_view()),
    {
        let mut fields: Vec<(String, JsonValue)> = Vec::new();
        fields.push((String::from_str("schemas"), crate::json::strings_json(&self.schemas)));
        fields.push((String::from_str("attributes"), opt_strings_json(&self.attributes)));
        fields.push(
            (String::from_str("excludedAttributes"), opt_strings_json(&self.excluded_attributes)),
        );
        fields.push((String::from_str("filter"), JsonValue::Str(self.filter.clone())));
        fields.push((String::from_str("startIndex"), crate::json::i64_json(self.start_index)));
        fields.push((String::from_str("count"), crate::json::i64_json(self.count)));
        proof {
            lemma_spec_json_fields(fields@);
            let target = spec_search_request_to_json(self.deep_view())->Obj_0;
            assert(fields@.len() == 6);
            assert forall|k: int| 0 <= k < 6 implies spec_json_fields(fields@)[k] == target[k] by {
                assert(spec_json_fields(fields@)[k] == (fields@[k].0@, spec_json(fields@[k].1)));
            }
            assert(spec_json_fields(fields@) =~= target);
        }
        JsonValue::Obj(fields)
    }

    /// Serializes the request to its JSON text. Never fails; deserializing
    /// the text yields this request back.
    pub fn serialize(&self) -> (r: Result<String, SCIMError>)
        ensures
            r is Ok,
            r matches Ok(s) ==> s@ == spec_print_json(
                spec_search_request_to_json(self.deep_view()),
            ),
            r matches Ok(s) ==> spec_search_request_deserialize(s@) == Ok::<
                SearchRequestView,
                ErrorView,
            >(self.deep_view()),
    {
        let j = self.to_json_value();
        proof {
            lemma_search_request_json_ok(self.deep_view());
            lemma_ok_printable(spec_search_request_to_json(self.deep_view()), 3);
            lemma_search_request_round_trip(self.deep_view());
        }
        Ok(print_json(&j))
    }

    /// Deserializes a request from JSON text: the parse error verbatim when
    /// the text is not JSON, otherwise the fields read from the document.
    pub fn deserialize(s: &str) -> (r: Result<SearchRequest, SCIMError>)
        ensures
            res_view(r) == spec_search_request_deserialize(s@),
    {
        match parse_json(s) {
            Ok(j) => SearchRequest::from_json_value(&j),
            Err(m) => Err(SCIMError::DeserializationError(m)),
        }
    }
}

/// A `SearchRequest`'s document form is well-formed at depth three.
pub proof fn lemma_search_request_json_ok(r: SearchRequestView)
    ensures
        json_ok(spec_search_request_to_json(r), 3),
{
    let fields = spec_search_request_to_json(r)->Obj_0;
    reveal_strlit("schemas");
    reveal_strlit("attributes");
    reveal_strlit("excludedAttributes");
    reveal_strlit("filter");
    reveal_strlit("startIndex");
    reveal_strlit("count");
    assert("attributes"@[0] == 'a' && "startIndex"@[0] == 's');
    assert(fields.len() == 6);
    assert forall|i: int| 0 <= i < fields.len() implies json_ok((#[trigger] fields[i]).1, 2) by {
        assert(fields[0].1 == spec_strings_json(r.schemas));
        assert(fields[1].1 == spec_opt_strings_json(r.attributes));
        assert(fields[2].1 == spec_opt_strings_json(r.excluded_attributes));
        assert(fields[3].1 == SpecJson::Str(r.filter));
        assert(fields[4].1 == spec_i64_json(r.start_index));
        assert(fields[5].1 == spec_i64_json(r.count));
        lemma_ok_strings(r.schemas, 1);
        lemma_opt_strings_json_ok(r.attributes, 1);
        lemma_opt_strings_json_ok(r.excluded_attributes, 1);
    }
    assert forall|i: int, k: int| 0 <= i < k < fields.len() implies (#[trigger] fields[i]).0 != (
    #[trigger] fields[k]).0 by {
        assert(fields[0].0 == "schemas"@);
        assert(fields[1].0 == "attributes"@);
        assert(fields[2].0 == "excludedAttributes"@);
        assert(fields[3].0 == "filter"@);
        assert(fields[4].0 == "startIndex"@);
        assert(fields[5].0 == "count"@);
    }
    lemma_ok_obj(fields, 2);
}

/// Reading back the document form of a `SearchRequest` yields it.
pub proof fn lemma_search_request_round_trip(r: SearchRequestView)
    ensures
        spec_search_request_from_json(spec_search_request_to_json(r)) == Ok::<
            SearchRequestView,
            ErrorView,
        >(r),
{
    reveal_strlit("schemas");
    reveal_strlit("attributes");
    reveal_strlit("excludedAttributes");
    reveal_strlit("filter");
    reveal_strlit("startIndex");
    reveal_strlit("count");
    assert("attributes"@[0] == 'a' && "startIndex"@[0] == 's');
    let fields = spec_search_request_to_json(r)->Obj_0;
    assert(fields[0] == ("schemas"@, spec_strings_json(r.schemas)));
    assert(fields[1] == ("attributes"@, spec_opt_strings_json(r.attributes)));
    assert(fields[2] == ("excludedAttributes"@, spec_opt_strings_json(r.excluded_attributes)));
    assert(fields[3] == ("filter"@, SpecJson::Str(r.filter)));
    assert(fields[4] == ("startIndex"@, spec_i64_json(r.start_index)));
    assert(fields[5] == ("count"@, spec_i64_json(r.count)));
    lemma_obj_get_at(fields, "schemas"@, 0);
    lemma_obj_get_at(fields, "attributes"@, 1);
    lemma_obj_get_at(fields, "excludedAttributes"@, 2);
    lemma_obj_get_at(fields, "filter"@, 3);
    lemma_obj_get_at(fields, "startIndex"@, 4);
    lemma_obj_get_at(fields, "count"@, 5);
    lemma_strings_round_trip(r.schemas);
    lemma_opt_strings_round_trip(r.attributes);
    lemma_opt_strings_round_trip(r.excluded_attributes);
    lemma_i64_json_round_trip(r.start_index);
    lemma_i64_json_round_trip(r.count);
    assert(spec_search_request_from_json(spec_search_request_to_json(r))->Ok_0 =~= r);
}

/// What reading a `ListQuery` from a document yields, field by field in
/// declaration order.
pub open spec fn spec_list_query_from_json(j: SpecJson) -> Result<ListQueryView, ErrorView> {
    match j {
        SpecJson::Obj(fields) => match spec_field_string(spec_obj_get(fields, "filter"@)) {
            Err(e) => Err(fe_msg("filter"@, e)),
            Ok(filter) => match spec_field_i64(spec_obj_get(fields, "startIndex"@)) {
                Err(e) => Err(fe_msg("startIndex"@, e)),
                Ok(start_index) => match spec_field_opt_i64(spec_obj_get(fields, "count"@)) {
                    Err(e) => Err(fe_msg("count"@, e)),
                    Ok(count) => Ok(ListQueryView { filter, start_index, count }),
                },
            },
        },
        _ => Err(not_object_msg()),
    }
}

/// The document form of a `ListQuery`.
pub open spec fn spec_list_query_to_json(q: ListQueryView) -> SpecJson {
    SpecJson::Obj(
        seq![
            ("filter"@, SpecJson::Str(q.filter)),
            ("startIndex"@, spec_i64_json(q.start_index)),
            ("count"@, spec_opt_i64_json(q.count)),
        ],
    )
}

/// What deserializing a text yields: the parse error verbatim, or the
/// query read from the parsed document.
pub open spec fn spec_list_query_deserialize(s: Seq<char>) -> Result<ListQueryView, ErrorView> {
    match spec_parse_json(s) {
        Ok(j) => spec_list_query_from_json(j),
        Err(m) => Err(ErrorView::DeserializationError(m)),
    }
}

impl ListQuery {
    /// Reads a `ListQuery` from a document tree.
    pub fn from_json_value(v: &JsonValue) -> (r: Result<ListQuery, SCIMError>)
        ensures
            res_view(r) == spec_list_query_from_json(v.deep_view()),
    {
        let fields = match v {
            JsonValue::Obj(fields) => fields,
            _ => {
                return Err(not_object_error());
            },
        };
        proof {
            lemma_fields_deep_view(*fields);
        }
        let filter = match field_string(obj_get(fields, "filter")) {
            Ok(x) => x,
            Err(e) => {
                return Err(fe_error("filter", e));
            },
        };
        let start_index = match field_i64(obj_get(fields, "startIndex")) {
            Ok(x) => x,
            Err(e) => {
                return Err(fe_error("startIndex", e));
            },
        };
        let count = match field_opt_i64(obj_get(fields, "count")) {
            Ok(x) => x,
            Err(e) => {
                return Err(fe_error("count", e));
            },
        };
        Ok(ListQuery { filter, start_index, count })
    }

    /// Writes the `ListQuery` as a document tree.
    pub fn to_json_value(&self) -> (r: JsonValue)
        ensures
            r.deep_view() == spec_list_query_to_json(self.deep_view()),
    {
        let mut fields: Vec<(String, JsonValue)> = Vec::new();
        fields.push((String::from_str("filter"), JsonValue::Str(self.filter.clone())));
        fields.push((String::from_str("startIndex"), crate::json::i64_json(self.start_index)));
        fields.push((String::from_str("count"), opt_i64_json(&self.count)));
        proof {
            lemma_spec_json_fields(fields@);
            let target = spec_list_query_to_json(self.deep_view())->Obj_0;
            assert(fields@.len() == 3);
            assert forall|k: int| 0 <= k < 3 implies spec_json_fields(fields@)[k] == target[k] by {
                assert(spec_json_fields(fields@)[k] == (fields@[k].0@, spec_json(fields@[k].1)));
            }
            assert(spec_json_fields(fields@) =~= target);
        }
        JsonValue::Obj(fields)
    }

    /// Serializes the query to its JSON text. Never fails; deserializing
    /// the text yields this query back.
    pub fn serialize(&self) -> (r: Result<String, SCIMError>)
        ensures
            r is Ok,
            r matches Ok(s) ==> s@ == spec_print_json(spec_list_query_to_json(self.deep_view())),
            r matches Ok(s) ==> spec_list_query_deserialize(s@) == Ok::<ListQueryView, ErrorView>(
                self.deep_view(),
            ),
    {
        let j = self.to_json_value();
        proof {
            lemma_list_query_json_ok(self.deep_view());
            lemma_ok_printable(spec_list_query_to_json(self.deep_view()), 1);
            lemma_list_query_round_trip(self.deep_view());
        }
        Ok(print_json(&j))
    }

    /// Deserializes a query from JSON text: the parse error verbatim when
    /// the text is not JSON, otherwise the fields read from the document.
    pub fn deserialize(s: &str) -> (r: Result<ListQuery, SCIMError>)
        ensures
            res_view(r) == spec_list_query_deserialize(s@),
    {
        match parse_json(s) {
            Ok(j) => ListQuery::from_json_value(&j),
            Err(m) => Err(SCIMError::DeserializationError(m)),
        }
    }
}

/// A `ListQuery`'s document form is well-formed at depth one.
pub proof fn lemma_list_query_json_ok(q: ListQueryView)
    ensures
        json_ok(spec_list_query_to_json(q), 1),
{
    let fields = spec_list_query_to_json(q)->Obj_0;
    reveal_strlit("filter");
    reveal_strlit("startIndex");
    reveal_strlit("count");
    assert(fields.len() == 3);
    assert forall|i: int| 0 <= i < fields.len() implies json_ok((#[trigger] fields[i]).1, 0) by {
        assert(fields[0].1 == SpecJson::Str(q.filter));
        assert(fields[1].1 == spec_i64_json(q.start_index));
        assert(fields[2].1 == spec_opt_i64_json(q.count));
    }
    assert forall|i: int, k: int| 0 <= i < k < fields.len() implies (#[trigger] fields[i]).0 != (
    #[trigger] fields[k]).0 by {
        assert(fields[0].0 == "filter"@);
        assert(fields[1].0 == "startIndex"@);
        assert(fields[2].0 == "count"@);
    }
    lemma_ok_obj(fields, 0);
}

/// Reading back the document form of a `ListQuery` yields it.
pub proof fn lemma_list_query_round_trip(q: ListQueryView)
    ensures
        spec_list_query_from_json(spec_list_query_to_json(q)) == Ok::<ListQueryView, ErrorView>(
            q,
        ),
{
    reveal_strlit("filter");
    reveal_strlit("startIndex");
    reveal_strlit("count");
    let fields = spec_list_query_to_json(q)->Obj_0;
    assert(fields[0] == ("filter"@, SpecJson::Str(q.filter)));
    assert(fields[1] == ("startIndex"@, spec_i64_json(q.start_index)));
    assert(fields[2] == ("count"@, spec_opt_i64_json(q.count)));
    lemma_obj_get_at(fields, "filter"@, 0);
    lemma_obj_get_at(fields, "startIndex"@, 1);
    lemma_obj_get_at(fields, "count"@, 2);
    lemma_i64_json_round_trip(q.start_index);
    lemma_opt_i64_round_trip(q.count);
    assert(spec_list_query_from_json(spec_list_query_to_json(q))->Ok_0 =~= q);
}

} // verus!
