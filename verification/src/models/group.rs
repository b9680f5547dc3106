//! Groups: collections of member references, with presence validation of
//! their required fields and the JSON mapping of the wire format.

use vstd::prelude::*;

use crate::json::{
    fe_error, fe_msg, field_opt_string, field_string, field_strings, json_ok,
    lemma_fields_deep_view, lemma_obj_get_at, lemma_ok_arr, lemma_ok_obj, lemma_ok_printable,
    lemma_opt_string_round_trip, lemma_ok_strings, lemma_spec_json_fields, lemma_spec_json_seq,
    lemma_strings_round_trip, not_object_error, not_object_msg, obj_get, opt_string_json,
    parse_json, print_json, res_view, spec_field_opt_string, spec_field_string,
    spec_field_strings, spec_json, spec_json_fields, spec_json_seq, spec_obj_get,
    spec_opt_string_json, spec_parse_json, spec_print_json, spec_strings_json, JsonValue,
    SpecJson,
};
use crate::models::scim_schema::{
    lemma_opt_meta_json_ok, lemma_opt_meta_round_trip, opt_meta, opt_meta_json, spec_opt_meta,
    spec_opt_meta_json, Meta, MetaView,
};
use crate::utils::error::{ErrorView, SCIMError};

verus! {

/// A group resource. `schemas`, `id` and `displayName` are required on the
/// wire; members and metadata are optional.
#[derive(Debug, PartialEq)]
pub struct Group {
    pub schemas: Vec<String>,
    pub id: String,
    pub display_name: String,
    pub members: Option<Vec<Member>>,
    pub meta: Option<Meta>,
}

/// One member reference of a group; every component is optional, so a
/// member may be identified by reference alone.
#[derive(Debug, PartialEq)]
pub struct Member {
    pub value: Option<String>,
    pub ref_: Option<String>,
    pub type_: Option<String>,
    pub display: Option<String>,
}

/// Mathematical model of `Group`.
#[verifier::ext_equal]
pub struct GroupView {
    pub schemas: Seq<Seq<char>>,
    pub id: Seq<char>,
    pub display_name: Seq<char>,
    pub members: Option<Seq<MemberView>>,
    pub meta: Option<MetaView>,
}

/// Mathematical model of `Member`.
#[verifier::ext_equal]
pub struct MemberView {
    pub value: Option<Seq<char>>,
    pub ref_: Option<Seq<char>>,
    pub type_: Option<Seq<char>>,
    pub display: Option<Seq<char>>,
}

impl DeepView for Group {
    type V = GroupView;

    open spec fn deep_view(&self) -> GroupView {
        GroupView {
            schemas: self.schemas.deep_view(),
            id: self.id.deep_view(),
            display_name: self.display_name.deep_view(),
            members: self.members.deep_view(),
            meta: self.meta.deep_view(),
        }
    }
}

impl DeepView for Member {
    type V = MemberView;

    open spec fn deep_view(&self) -> MemberView {
        MemberView {
            value: self.value.deep_view(),
            ref_: self.ref_.deep_view(),
            type_: self.type_.deep_view(),
            display: self.display.deep_view(),
        }
    }
}

/// What reading a `Member` from a document yields: four optional strings, or
/// the first offending field in declaration order.
pub open spec fn spec_member_from_json(j: SpecJson) -> Result<MemberView, ErrorView> {
    match j {
        SpecJson::Obj(fields) => match spec_field_opt_string(spec_obj_get(fields, "value"@)) {
            Err(e) => Err(fe_msg("value"@, e)),
            Ok(value) => match spec_field_opt_string(spec_obj_get(fields, "$ref"@)) {
                Err(e) => Err(fe_msg("$ref"@, e)),
                Ok(ref_) => match spec_field_opt_string(spec_obj_get(fields, "type"@)) {
                    Err(e) => Err(fe_msg("type"@, e)),
                    Ok(type_) => match spec_field_opt_string(spec_obj_get(fields, "display"@)) {
                        Err(e) => Err(fe_msg("display"@, e)),
                        Ok(display) => Ok(MemberView { value, ref_, type_, display }),
                    },
                },
            },
        },
        _ => Err(not_object_msg()),
    }
}

/// The document form of a `Member`.
pub open spec fn spec_member_to_json(m: MemberView) -> SpecJson {
    SpecJson::Obj(
        seq![
            ("value"@, spec_opt_string_json(m.value)),
            ("$ref"@, spec_opt_string_json(m.ref_)),
            ("type"@, spec_opt_string_json(m.type_)),
            ("display"@, spec_opt_string_json(m.display)),
        ],
    )
}

impl Member {
    /// Reads a `Member` from a document tree.
    pub fn from_json_value(v: &JsonValue) -> (r: Result<Member, SCIMError>)
        ensures
            res_view(r) == spec_member_from_json(v.deep_view()),
    {
        let fields = match v {
            JsonValue::Obj(fields) => fields,
            _ => {
                return Err(not_object_error());
            },
        };
        proof {
            lemma_fields_deep_view(*fields);
        }
        let value = match field_opt_string(obj_get(fields, "value")) {
            Ok(x) => x,
            Err(e) => {
                return Err(fe_error("value", e));
            },
        };
        let ref_ = match field_opt_string(obj_get(fields, "$ref")) {
            Ok(x) => x,
            Err(e) => {
                return Err(fe_error("$ref", e));
            },
        };
        let type_ = match field_opt_string(obj_get(fields, "type")) {
            Ok(x) => x,
            Err(e) => {
                return Err(fe_error("type", e));
            },
        };
        let display = match field_opt_string(obj_get(fields, "display")) {
            Ok(x) => x,
            Err(e) => {
                return Err(fe_error("display", e));
            },
        };
        Ok(Member { value, ref_, type_, display })
    }

    /// Writes the `Member` as a document tree.
    pub fn to_json_value(&self) -> (r: JsonValue)
        ensures
            r.deep_view() == spec_member_to_json(self.deep_view()),
    {
        let mut fields: Vec<(String, JsonValue)> = Vec::new();
        fields.push((String::from_str("value"), opt_string_json(&self.value)));
        fields.push((String::from_str("$ref"), opt_string_json(&self.ref_)));
        fields.push((String::from_str("type"), opt_string_json(&self.type_)));
        fields.push((String::from_str("display"), opt_string_json(&self.display)));
        proof {
            lemma_spec_json_fields(fields@);
            let target = spec_member_to_json(self.deep_view())->Obj_0;
            assert(fields@.len() == 4);
            assert forall|k: int| 0 <= k < 4 implies spec_json_fields(fields@)[k] == target[k] by {
                assert(spec_json_fields(fields@)[k] == (fields@[k].0@, spec_json(fields@[k].1)));
            }
            assert(spec_json_fields(fields@) =~= target);
        }
        JsonValue::Obj(fields)
    }
}

/// A `Member` is well-formed document data at any positive depth.
pub proof fn lemma_member_json_ok(m: MemberView, n: nat)
    ensures
        json_ok(spec_member_to_json(m), n + 1),
{
    let fields = spec_member_to_json(m)->Obj_0;
    reveal_strlit("value");
    reveal_strlit("$ref");
    reveal_strlit("type");
    reveal_strlit("display");
    assert("$ref"@[0] == '$' && "type"@[0] == 't');
    assert(fields.len() == 4);
    assert forall|i: int| 0 <= i < fields.len() implies json_ok((#[trigger] fields[i]).1, n) by {
        assert(fields[0].1 == spec_opt_string_json(m.value));
        assert(fields[1].1 == spec_opt_string_json(m.ref_));
        assert(fields[2].1 == spec_opt_string_json(m.type_));
        assert(fields[3].1 == spec_opt_string_json(m.display));
    }
    assert forall|i: int, k: int| 0 <= i < k < fields.len() implies (#[trigger] fields[i]).0 != (
    #[trigger] fields[k]).0 by {
        assert(fields[0].0 == "value"@);
        assert(fields[1].0 == "$ref"@);
        assert(fields[2].0 == "type"@);
        assert(fields[3].0 == "display"@);
    }
    lemma_ok_obj(fields, n);
}

/// Reading back the document form of a `Member` yields it.
pub proof fn lemma_member_round_trip(m: MemberView)
    ensures
        spec_member_from_json(spec_member_to_json(m)) == Ok::<MemberView, ErrorView>(m),
{
    reveal_strlit("value");
    reveal_strlit("$ref");
    reveal_strlit("type");
    reveal_strlit("display");
    assert("$ref"@[0] == '$' && "type"@[0] == 't');
    let fields = spec_member_to_json(m)->Obj_0;
    assert(fields[0] == ("value"@, spec_opt_string_json(m.value)));
    assert(fields[1] == ("$ref"@, spec_opt_string_json(m.ref_)));
    assert(fields[2] == ("type"@, spec_opt_string_json(m.type_)));
    assert(fields[3] == ("display"@, spec_opt_string_json(m.display)));
    lemma_obj_get_at(fields, "value"@, 0);
    lemma_obj_get_at(fields, "$ref"@, 1);
    lemma_obj_get_at(fields, "type"@, 2);
    lemma_obj_get_at(fields, "display"@, 3);
    lemma_opt_string_round_trip(m.value);
    lemma_opt_string_round_trip(m.ref_);
    lemma_opt_string_round_trip(m.type_);
    lemma_opt_string_round_trip(m.display);
    assert(spec_member_from_json(spec_member_to_json(m))->Ok_0 =~= m);
}

/// The members of an array whose elements must all be member records; the
/// first offending element's error wins.
pub open spec fn spec_members_of(items: Seq<SpecJson>) -> Result<Seq<MemberView>, ErrorView>
    decreases items.len(),
{
    if items.len() == 0 {
        Ok(Seq::empty())
    } else {
        match spec_member_from_json(items[0]) {
            Err(e) => Err(e),
            Ok(m) => match spec_members_of(items.subrange(1, items.len() as int)) {
                Ok(rest) => Ok(seq![m] + rest),
                Err(e) => Err(e),
            },
        }
    }
}

/// Converts the elements of an array into member records.
pub fn members_of(items: &Vec<JsonValue>) -> (r: Result<Vec<Member>, SCIMError>)
    ensures
        res_view(r) == spec_members_of(spec_json_seq(items@)),
{
    let ghost dv = spec_json_seq(items@);
    proof {
        lemma_spec_json_seq(items@);
        assert(dv.skip(0) =~= dv);
    }
    let mut out: Vec<Member> = Vec::new();
    let n = items.len();
    for i in 0..n
        invariant
            n == items.len(),
            dv == spec_json_seq(items@),
            dv.len() == n,
            forall|k: int| 0 <= k < n ==> dv[k] == spec_json(#[trigger] items@[k]),
            out.deep_view().len() == i,
            spec_members_of(dv) == match spec_members_of(dv.skip(i as int)) {
                Ok(rest) => Ok::<Seq<MemberView>, ErrorView>(out.deep_view() + rest),
                Err(e) => Err::<Seq<MemberView>, ErrorView>(e),
            },
    {
        proof {
            assert(dv.skip(i as int)[0] == dv[i as int]);
            assert(dv.skip(i as int).subrange(1, dv.skip(i as int).len() as int) =~= dv.skip(
                i as int + 1,
            ));
        }
        match Member::from_json_value(&items[i]) {
            Ok(m) => {
                let ghost prev = out.deep_view();
                let ghost elt = m.deep_view();
                out.push(m);
                proof {
                    assert(out.deep_view() =~= prev + seq![elt]);
                    match spec_members_of(dv.skip(i as int + 1)) {
                        Ok(rest) => {
                            assert((prev + seq![elt]) + rest =~= prev + (seq![elt] + rest));
                        },
                        Err(_) => {},
                    }
                }
            },
            Err(e) => {
                return Err(e);
            },
        }
    }
    proof {
        assert(dv.skip(n as int) =~= Seq::empty());
        assert(out.deep_view() + Seq::<MemberView>::empty() =~= out.deep_view());
    }
    Ok(out)
}

/// An optional member list: absent and null mean unset; anything but an
/// array is rejected under the field's name.
pub open spec fn spec_opt_members(f: Option<SpecJson>) -> Result<
    Option<Seq<MemberView>>,
    ErrorView,
> {
    match f {
        None => Ok(None),
        Some(SpecJson::Null) => Ok(None),
        Some(SpecJson::Arr(items)) => match spec_members_of(items) {
            Ok(ms) => Ok(Some(ms)),
            Err(e) => Err(e),
        },
        Some(_) => Err(fe_msg("members"@, crate::json::FieldError::Invalid)),
    }
}

/// Reads an optional member list.
pub fn opt_members(f: Option<&JsonValue>) -> (r: Result<Option<Vec<Member>>, SCIMError>)
    ensures
        res_view(r) == spec_opt_members(f.deep_view()),
{
    match f {
        None => Ok(None),
        Some(JsonValue::Null) => Ok(None),
        Some(JsonValue::Arr(items)) => match members_of(items) {
            Ok(ms) => Ok(Some(ms)),
            Err(e) => Err(e),
        },
        Some(_) => Err(fe_error("members", crate::json::FieldError::Invalid)),
    }
}

/// The document form of an optional member list: null when unset.
pub open spec fn spec_members_json(o: Option<Seq<MemberView>>) -> SpecJson {
    match o {
        None => SpecJson::Null,
        Some(ms) => SpecJson::Arr(ms.map_values(|m: MemberView| spec_member_to_json(m))),
    }
}

/// Builds the document form of an optional member list.
pub fn members_json(o: &Option<Vec<Member>>) -> (r: JsonValue)
    ensures
        r.deep_view() == spec_members_json(o.deep_view()),
{
    let ms = match o {
        None => {
            return JsonValue::Null;
        },
        Some(ms) => ms,
    };
    let mut out: Vec<JsonValue> = Vec::new();
    let n = ms.len();
    for i in 0..n
        invariant
            n == ms.len(),
            out@.len() == i,
            forall|k: int|
                0 <= k < i ==> spec_json(#[trigger] out@[k]) == spec_member_to_json(
                    ms.deep_view()[k],
                ),
    {
        out.push(ms[i].to_json_value());
    }
    proof {
        lemma_spec_json_seq(out@);
        let target = ms.deep_view().map_values(|m: MemberView| spec_member_to_json(m));
        assert forall|k: int| 0 <= k < out@.len() implies spec_json_seq(out@)[k] == target[k] by {
            assert(spec_json(out@[k]) == spec_member_to_json(ms.deep_view()[k]));
        }
        assert(spec_json_seq(out@) =~= target);
    }
    JsonValue::Arr(out)
}

/// An optional member list is well-formed document data.
pub proof fn lemma_members_json_ok(o: Option<Seq<MemberView>>, n: nat)
    ensures
        json_ok(spec_members_json(o), n + 2),
{
    match o {
        None => {},
        Some(ms) => {
            let items = ms.map_values(|m: MemberView| spec_member_to_json(m));
            assert forall|i: int| 0 <= i < items.len() implies json_ok(
                #[trigger] items[i],
                n + 1,
            ) by {
                assert(items[i] == spec_member_to_json(ms[i]));
                lemma_member_json_ok(ms[i], n);
            }
            lemma_ok_arr(items, (n + 1) as nat);
        },
    }
}

/// Reading back the document form of a member list yields it.
pub proof fn lemma_members_of_round_trip(ms: Seq<MemberView>)
    ensures
        spec_members_of(ms.map_values(|m: MemberView| spec_member_to_json(m))) == Ok::<
            Seq<MemberView>,
            ErrorView,
        >(ms),
    decreases ms.len(),
{
    let items = ms.map_values(|m: MemberView| spec_member_to_json(m));
    if ms.len() == 0 {
        assert(Seq::<MemberView>::empty() =~= ms);
    } else {
        lemma_member_round_trip(ms[0]);
        let tail = ms.subrange(1, ms.len() as int);
        lemma_members_of_round_trip(tail);
        assert(items.subrange(1, items.len() as int) =~= tail.map_values(
            |m: MemberView| spec_member_to_json(m),
        ));
        assert(seq![ms[0]] + tail =~= ms);
    }
}

/// Reading back the document form of an optional member list yields it.
pub proof fn lemma_opt_members_round_trip(o: Option<Seq<MemberView>>)
    ensures
        spec_opt_members(Some(spec_members_json(o))) == Ok::<Option<Seq<MemberView>>, ErrorView>(
            o,
        ),
{
    match o {
        None => {},
        Some(ms) => {
            lemma_members_of_round_trip(ms);
        },
    }
}

/// What reading a `Group` from a document yields, field by field in
/// declaration order; the first offending field wins.
pub open spec fn spec_group_from_json(j: SpecJson) -> Result<GroupView, ErrorView> {
    match j {
        SpecJson::Obj(fields) => match spec_field_strings(spec_obj_get(fields, "schemas"@)) {
            Err(e) => Err(fe_msg("schemas"@, e)),
            Ok(schemas) => match spec_field_string(spec_obj_get(fields, "id"@)) {
                Err(e) => Err(fe_msg("id"@, e)),
                Ok(id) => match spec_field_string(spec_obj_get(fields, "displayName"@)) {
                    Err(e) => Err(fe_msg("displayName"@, e)),
                    Ok(display_name) => match spec_opt_members(
                        spec_obj_get(fields, "members"@),
                    ) {
                        Err(e) => Err(e),
                        Ok(members) => match spec_opt_meta(spec_obj_get(fields, "meta"@)) {
                            Err(e) => Err(e),
                            Ok(meta) => Ok(
                                GroupView { schemas, id, display_name, members, meta },
                            ),
                        },
                    },
                },
            },
        },
        _ => Err(not_object_msg()),
    }
}

/// The document form of a `Group`: one object, members in declaration
/// order, unset slots as null.
pub open spec fn spec_group_to_json(g: GroupView) -> SpecJson {
    SpecJson::Obj(
        seq![
            ("schemas"@, spec_strings_json(g.schemas)),
            ("id"@, SpecJson::Str(g.id)),
            ("displayName"@, SpecJson::Str(g.display_name)),
            ("members"@, spec_members_json(g.members)),
            ("meta"@, spec_opt_meta_json(g.meta)),
        ],
    )
}

/// What deserializing a text yields: the parse error verbatim, or the group
/// read from the parsed document.
pub open spec fn spec_group_deserialize(s: Seq<char>) -> Result<GroupView, ErrorView> {
    match spec_parse_json(s) {
        Ok(j) => spec_group_from_json(j),
        Err(m) => Err(ErrorView::DeserializationError(m)),
    }
}

/// What validation returns: the first required field that is empty, in
/// declaration order, or success.
pub open spec fn spec_group_verify(g: GroupView) -> Result<(), ErrorView> {
    if g.schemas.len() == 0 {
        Err(ErrorView::MissingRequiredField("schemas"@))
    } else if g.id.len() == 0 {
        Err(ErrorView::MissingRequiredField("id"@))
    } else if g.display_name.len() == 0 {
        Err(ErrorView::MissingRequiredField("display_name"@))
    } else {
        Ok(())
    }
}

/// The model of `Group::default()`: the canonical URN pre-filled and
/// placeholder identifiers, so that a default group validates.
pub open spec fn spec_default_group() -> GroupView {
    GroupView {
        schemas: seq!["urn:ietf:params:scim:schemas:core:2.0:Group"@],
        id: "default_id"@,
        display_name: "default_display_name"@,
        members: None,
        meta: None,
    }
}

impl Default for Group {
    /// The default group: canonical schema URN, placeholder identifiers, no
    /// members and no metadata.
    fn default() -> (d: Self)
        ensures
            d.deep_view() == spec_default_group(),
    {
        let mut schemas: Vec<String> = Vec::new();
        schemas.push(String::from_str("urn:ietf:params:scim:schemas:core:2.0:Group"));
        let d = Group {
            schemas,
            id: String::from_str("default_id"),
            display_name: String::from_str("default_display_name"),
            members: None,
            meta: None,
        };
        proof {
            assert(d.deep_view().schemas =~= spec_default_group().schemas);
            assert(d.deep_view() =~= spec_default_group());
        }
        d
    }
}

impl Group {
    /// Validates the group: `schemas`, `id` and `display_name` must each be
    /// non-empty, checked in that order; the first empty one is reported.
    pub fn verify(&self) -> (r: Result<(), SCIMError>)
        ensures
            res_view(r) == spec_group_verify(self.deep_view()),
    {
        if self.schemas.len() == 0 {
            return Err(SCIMError::MissingRequiredField(String::from_str("schemas")));
        }
        if self.id.as_str().is_empty() {
            return Err(SCIMError::MissingRequiredField(String::from_str("id")));
        }
        if self.display_name.as_str().is_empty() {
            return Err(SCIMError::MissingRequiredField(String::from_str("display_name")));
        }
        Ok(())
    }

    /// Reads a `Group` from a document tree.
    pub fn from_json_value(v: &JsonValue) -> (r: Result<Group, SCIMError>)
        ensures
            res_view(r) == spec_group_from_json(v.deep_view()),
    {
        let fields = match v {
            JsonValue::Obj(fields) => fields,
            _ => {
                return Err(not_object_error());
            },
        };
        proof {
            lemma_fields_deep_view(*fields);
        }
        let schemas = match field_strings(obj_get(fields, "schemas")) {
            Ok(x) => x,
            Err(e) => {
                return Err(fe_error("schemas", e));
            },
        };
        let id = match field_string(obj_get(fields, "id")) {
            Ok(x) => x,
            Err(e) => {
                return Err(fe_error("id", e));
            },
        };
        let display_name = match field_string(obj_get(fields, "displayName")) {
            Ok(x) => x,
            Err(e) => {
                return Err(fe_error("displayName", e));
            },
        };
        let members = match opt_members(obj_get(fields, "members")) {
            Ok(x) => x,
            Err(e) => {
                return Err(e);
            },
        };
        let meta = match opt_meta(obj_get(fields, "meta")) {
            Ok(x) => x,
            Err(e) => {
                return Err(e);
            },
        };
        Ok(Group { schemas, id, display_name, members, meta })
    }

    /// Writes the `Group` as a document tree.
    pub fn to_json_value(&self) -> (r: JsonValue)
        ensures
            r.deep_view() == spec_group_to_json(self.deep_view()),
    {
        let mut fields: Vec<(String, JsonValue)> = Vec::new();
        fields.push((String::from_str("schemas"), crate::json::strings_json(&self.schemas)));
        fields.push((String::from_str("id"), JsonValue::Str(self.id.clone())));
        fields.push((String::from_str("displayName"), JsonValue::Str(self.display_name.clone())));
        fields.push((String::from_str("members"), members_json(&self.members)));
        fields.push((String::from_str("meta"), opt_meta_json(&self.meta)));
        proof {
            lemma_spec_json_fields(fields@);
            let target = spec_group_to_json(self.deep_view())->Obj_0;
            assert(fields@.len() == 5);
            assert forall|k: int| 0 <= k < 5 implies spec_json_fields(fields@)[k] == target[k] by {
                assert(spec_json_fields(fields@)[k] == (fields@[k].0@, spec_json(fields@[k].1)));
            }
            assert(spec_json_fields(fields@) =~= target);
        }
        JsonValue::Obj(fields)
    }

    /// Serializes the group to its JSON text. Never fails; deserializing
    /// the text yields this group back.
    pub fn serialize(&self) -> (r: Result<String, SCIMError>)
        ensures
            r is Ok,
            r matches Ok(s) ==> s@ == spec_print_json(spec_group_to_json(self.deep_view())),
            r matches Ok(s) ==> spec_group_deserialize(s@) == Ok::<GroupView, ErrorView>(
                self.deep_view(),
            ),
    {
        let j = self.to_json_value();
        proof {
            lemma_group_json_ok(self.deep_view());
            lemma_ok_printable(spec_group_to_json(self.deep_view()), 4);
            lemma_group_round_trip(self.deep_view());
        }
        Ok(print_json(&j))
    }

    /// Deserializes a group from JSON text: the parse error verbatim when
    /// the text is not JSON, otherwise the fields read from the document.
    pub fn deserialize(s: &str) -> (r: Result<Group, SCIMError>)
        ensures
            res_view(r) == spec_group_deserialize(s@),
    {
        match parse_json(s) {
            Ok(j) => Group::from_json_value(&j),
            Err(m) => Err(SCIMError::DeserializationError(m)),
        }
    }
}

/// A `Group`'s document form is well-formed at depth four.
pub proof fn lemma_group_json_ok(g: GroupView)
    ensures
        json_ok(spec_group_to_json(g), 4),
{
    let fields = spec_group_to_json(g)->Obj_0;
    reveal_strlit("schemas");
    reveal_strlit("id");
    reveal_strlit("displayName");
    reveal_strlit("members");
    reveal_strlit("meta");
    assert("schemas"@[0] == 's' && "members"@[0] == 'm');
    assert(fields.len() == 5);
    assert forall|i: int| 0 <= i < fields.len() implies json_ok((#[trigger] fields[i]).1, 3) by {
        assert(fields[0].1 == spec_strings_json(g.schemas));
        assert(fields[1].1 == SpecJson::Str(g.id));
        assert(fields[2].1 == SpecJson::Str(g.display_name));
        assert(fields[3].1 == spec_members_json(g.members));
        assert(fields[4].1 == spec_opt_meta_json(g.meta));
        lemma_ok_strings(g.schemas, 2);
        lemma_members_json_ok(g.members, 1);
        lemma_opt_meta_json_ok(g.meta, 2);
    }
    assert forall|i: int, k: int| 0 <= i < k < fields.len() implies (#[trigger] fields[i]).0 != (
    #[trigger] fields[k]).0 by {
        assert(fields[0].0 == "schemas"@);
        assert(fields[1].0 == "id"@);
        assert(fields[2].0 == "displayName"@);
        assert(fields[3].0 == "members"@);
        assert(fields[4].0 == "meta"@);
    }
    lemma_ok_obj(fields, 3);
}

/// Reading back the document form of a `Group` yields it: the value-level
/// round trip under serialization.
pub proof fn lemma_group_round_trip(g: GroupView)
    ensures
        spec_group_from_json(spec_group_to_json(g)) == Ok::<GroupView, ErrorView>(g),
{
    reveal_strlit("schemas");
    reveal_strlit("id");
    reveal_strlit("displayName");
    reveal_strlit("members");
    reveal_strlit("meta");
    assert("schemas"@[0] == 's' && "members"@[0] == 'm');
    let fields = spec_group_to_json(g)->Obj_0;
    assert(fields[0] == ("schemas"@, spec_strings_json(g.schemas)));
    assert(fields[1] == ("id"@, SpecJson::Str(g.id)));
    assert(fields[2] == ("displayName"@, SpecJson::Str(g.display_name)));
    assert(fields[3] == ("members"@, spec_members_json(g.members)));
    assert(fields[4] == ("meta"@, spec_opt_meta_json(g.meta)));
    lemma_obj_get_at(fields, "schemas"@, 0);
    lemma_obj_get_at(fields, "id"@, 1);
    lemma_obj_get_at(fields, "displayName"@, 2);
    lemma_obj_get_at(fields, "members"@, 3);
    lemma_obj_get_at(fields, "meta"@, 4);
    lemma_strings_round_trip(g.schemas);
    lemma_opt_members_round_trip(g.members);
    lemma_opt_meta_round_trip(g.meta);
    assert(spec_group_from_json(spec_group_to_json(g))->Ok_0 =~= g);
}

/// A default-constructed group validates: its required fields are complete.
pub proof fn lemma_default_group_valid()
    ensures
        spec_group_verify(spec_default_group()) == Ok::<(), ErrorView>(()),
{
    reveal_strlit("default_id");
    reveal_strlit("default_display_name");
}

/// Validation short-circuits in declaration order: with `schemas` empty the
/// report names `schemas`, whatever `id` and the other fields hold.
pub proof fn lemma_group_verify_short_circuit(g: GroupView)
    requires
        g.schemas.len() == 0,
    ensures
        spec_group_verify(g) == Err::<(), ErrorView>(ErrorView::MissingRequiredField("schemas"@)),
{
}


impl TryFrom<&str> for Group {
    type Error = SCIMError;

    /// Constructs a `Group` from JSON text, as [`Group::deserialize`] does.
    fn try_from(value: &str) -> (r: Result<Group, SCIMError>)
        ensures
            res_view(r) == spec_group_deserialize(value@),
    {
        Group::deserialize(value)
    }
}

impl vstd::std_specs::convert::TryFromSpecImpl<&str> for Group {
    /// The conversion's result holds owned strings, which a specification
    /// cannot construct, so its contract stands on the `try_from` method
    /// itself rather than through this hook.
    open spec fn obeys_try_from_spec() -> bool {
        false
    }

    open spec fn try_from_spec(v: &str) -> Result<Group, SCIMError> {
        Err(SCIMError::InvalidJsonFormat)
    }
}

} // verus!
