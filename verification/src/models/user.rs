//! Users: identity principals with an optional enterprise extension keyed
//! by the extension's schema URN, and the JSON mapping of the wire format.

use vstd::prelude::*;

use crate::json::{
    fe_error, fe_msg, field_opt_bool, field_opt_string, field_string, json_ok,
    lemma_fields_deep_view, lemma_obj_get_at, lemma_ok_arr, lemma_ok_obj, lemma_ok_printable,
    lemma_ok_strings, lemma_opt_string_round_trip, lemma_spec_json_fields, lemma_spec_json_seq,
    lemma_strings_round_trip, not_object_error, not_object_msg, obj_get, opt_string_json,
    parse_json, print_json, res_view, spec_field_opt_bool, spec_field_opt_string,
    spec_field_string, spec_json, spec_json_fields, spec_json_seq, spec_obj_get,
    spec_opt_string_json, spec_parse_json, spec_print_json, spec_strings_json, strings_of,
    FieldError, JsonValue, SpecJson,
};
use crate::models::enterprise_user::{
    lemma_enterprise_user_json_ok, lemma_enterprise_user_round_trip,
    spec_enterprise_user_from_json, spec_enterprise_user_to_json, EnterpriseUser,
    EnterpriseUserView,
};
use crate::models::scim_schema::{
    lemma_opt_meta_json_ok, lemma_opt_meta_round_trip, opt_meta, opt_meta_json, spec_opt_meta,
    spec_opt_meta_json, Meta, MetaView,
};
use crate::utils::error::{ErrorView, SCIMError};

verus! {

/// A user resource. `userName` is required on the wire; everything else,
/// the enterprise extension included, is optional. The extension is keyed
/// by its own schema URN, which `schemas` must list when it is present.
#[derive(Debug, PartialEq)]
pub struct User {
    pub schemas: Vec<String>,
    pub id: Option<String>,
    pub user_name: String,
    pub name: Option<Name>,
    pub display_name: Option<String>,
    pub active: Option<bool>,
    pub emails: Option<Vec<Email>>,
    pub addresses: Option<Vec<Address>>,
    pub enterprise_user: Option<EnterpriseUser>,
    pub meta: Option<Meta>,
}

/// The components of a user's name, every one optional.
#[derive(Debug, PartialEq)]
pub struct Name {
    pub formatted: Option<String>,
    pub family_name: Option<String>,
    pub given_name: Option<String>,
    pub middle_name: Option<String>,
    pub honorific_prefix: Option<String>,
    pub honorific_suffix: Option<String>,
}

/// One email address of a user, every component optional.
#[derive(Debug, PartialEq)]
pub struct Email {
    pub value: Option<String>,
    pub type_: Option<String>,
    pub primary: Option<bool>,
    pub display: Option<String>,
}

/// One physical address of a user, every component optional.
#[derive(Debug, PartialEq)]
pub struct Address {
    pub formatted: Option<String>,
    pub street_address: Option<String>,
    pub locality: Option<String>,
    pub region: Option<String>,
    pub postal_code: Option<String>,
    pub country: Option<String>,
    pub type_: Option<String>,
}

/// Mathematical model of `User`.
#[verifier::ext_equal]
pub struct UserView {
    pub schemas: Seq<Seq<char>>,
    pub id: Option<Seq<char>>,
    pub user_name: Seq<char>,
    pub name: Option<NameView>,
    pub display_name: Option<Seq<char>>,
    pub active: Option<bool>,
    pub emails: Option<Seq<EmailView>>,
    pub addresses: Option<Seq<AddressView>>,
    pub enterprise_user: Option<EnterpriseUserView>,
    pub meta: Option<MetaView>,
}

/// Mathematical model of `Name`.
#[verifier::ext_equal]
pub struct NameView {
    pub formatted: Option<Seq<char>>,
    pub family_name: Option<Seq<char>>,
    pub given_name: Option<Seq<char>>,
    pub middle_name: Option<Seq<char>>,
    pub honorific_prefix: Option<Seq<char>>,
    pub honorific_suffix: Option<Seq<char>>,
}

/// Mathematical model of `Email`.
#[verifier::ext_equal]
pub struct EmailView {
    pub value: Option<Seq<char>>,
    pub type_: Option<Seq<char>>,
    pub primary: Option<bool>,
    pub display: Option<Seq<char>>,
}

/// Mathematical model of `Address`.
#[verifier::ext_equal]
pub struct AddressView {
    pub formatted: Option<Seq<char>>,
    pub street_address: Option<Seq<char>>,
    pub locality: Option<Seq<char>>,
    pub region: Option<Seq<char>>,
    pub postal_code: Option<Seq<char>>,
    pub country: Option<Seq<char>>,
    pub type_: Option<Seq<char>>,
}

impl DeepView for User {
    type V = UserView;

    open spec fn deep_view(&self) -> UserView {
        UserView {
            schemas: self.schemas.deep_view(),
            id: self.id.deep_view(),
            user_name: self.user_name.deep_view(),
            name: self.name.deep_view(),
            display_name: self.display_name.deep_view(),
            active: self.active.deep_view(),
            emails: self.emails.deep_view(),
            addresses: self.addresses.deep_view(),
            enterprise_user: self.enterprise_user.deep_view(),
            meta: self.meta.deep_view(),
        }
    }
}

impl DeepView for Name {
    type V = NameView;

    open spec fn deep_view(&self) -> NameView {
        NameView {
            formatted: self.formatted.deep_view(),
            family_name: self.family_name.deep_view(),
            given_name: self.given_name.deep_view(),
            middle_name: self.middle_name.deep_view(),
            honorific_prefix: self.honorific_prefix.deep_view(),
            honorific_suffix: self.honorific_suffix.deep_view(),
        }
    }
}

impl DeepView for Email {
    type V = EmailView;

    open spec fn deep_view(&self) -> EmailView {
        EmailView {
            value: self.value.deep_view(),
            type_: self.type_.deep_view(),
            primary: self.primary.deep_view(),
            display: self.display.deep_view(),
        }
    }
}

impl DeepView for Address {
    type V = AddressView;

    open spec fn deep_view(&self) -> AddressView {
        AddressView {
            formatted: self.formatted.deep_view(),
            street_address: self.street_address.deep_view(),
            locality: self.locality.deep_view(),
            region: self.region.deep_view(),
            postal_code: self.postal_code.deep_view(),
            country: self.country.deep_view(),
            type_: self.type_.deep_view(),
        }
    }
}

/// What reading a `Name` from a document yields.
pub open spec fn spec_name_from_json(j: SpecJson) -> Result<NameView, ErrorView> {
    match j {
        SpecJson::Obj(fields) => match spec_field_opt_string(spec_obj_get(fields, "formatted"@)) {
            Err(e) => Err(fe_msg("formatted"@, e)),
            Ok(formatted) => match spec_field_opt_string(spec_obj_get(fields, "familyName"@)) {
                Err(e) => Err(fe_msg("familyName"@, e)),
                Ok(family_name) => match spec_field_opt_string(
                    spec_obj_get(fields, "givenName"@),
                ) {
                    Err(e) => Err(fe_msg("givenName"@, e)),
                    Ok(given_name) => match spec_field_opt_string(
                        spec_obj_get(fields, "middleName"@),
                    ) {
                        Err(e) => Err(fe_msg("middleName"@, e)),
                        Ok(middle_name) => match spec_field_opt_string(
                            spec_obj_get(fields, "honorificPrefix"@),
                        ) {
                            Err(e) => Err(fe_msg("honorificPrefix"@, e)),
                            Ok(honorific_prefix) => match spec_field_opt_string(
                                spec_obj_get(fields, "honorificSuffix"@),
                            ) {
                                Err(e) => Err(fe_msg("honorificSuffix"@, e)),
                                Ok(honorific_suffix) => Ok(
                                    NameView {
                                        formatted,
                                        family_name,
                                        given_name,
                                        middle_name,
                                        honorific_prefix,
                                        honorific_suffix,
                                    },
                                ),
                            },
                        },
                    },
                },
            },
        },
        _ => Err(not_object_msg()),
    }
}

/// The document form of a `Name`.
pub open spec fn spec_name_to_json(m: NameView) -> SpecJson {
    SpecJson::Obj(
        seq![
            ("formatted"@, spec_opt_string_json(m.formatted)),
            ("familyName"@, spec_opt_string_json(m.family_name)),
            ("givenName"@, spec_opt_string_json(m.given_name)),
            ("middleName"@, spec_opt_string_json(m.middle_name)),
            ("honorificPrefix"@, spec_opt_string_json(m.honorific_prefix)),
            ("honorificSuffix"@, spec_opt_string_json(m.honorific_suffix)),
        ],
    )
}

impl Name {
    /// Reads a `Name` from a document tree.
    pub fn from_json_value(v: &JsonValue) -> (r: Result<Name, SCIMError>)
        ensures
            res_view(r) == spec_name_from_json(v.deep_view()),
    {
        let fields = match v {
            JsonValue::Obj(fields) => fields,
            _ => {
                return Err(not_object_error());
            },
        };
        proof {
            lemma_fields_deep_view(*fields);
        }
        let formatted = match field_opt_string(obj_get(fields, "formatted")) {
            Ok(x) => x,
            Err(e) => {
                return Err(fe_error("formatted", e));
            },
        };
        let family_name = match field_opt_string(obj_get(fields, "familyName")) {
            Ok(x) => x,
            Err(e) => {
                return Err(fe_error("familyName", e));
            },
        };
        let given_name = match field_opt_string(obj_get(fields, "givenName")) {
            Ok(x) => x,
            Err(e) => {
                return Err(fe_error("givenName", e));
            },
        };
        let middle_name = match field_opt_string(obj_get(fields, "middleName")) {
            Ok(x) => x,
            Err(e) => {
                return Err(fe_error("middleName", e));
            },
        };
        let honorific_prefix = match field_opt_string(obj_get(fields, "honorificPrefix")) {
            Ok(x) => x,
            Err(e) => {
                return Err(fe_error("honorificPrefix", e));
            },
        };
        let honorific_suffix = match field_opt_string(obj_get(fields, "honorificSuffix")) {
            Ok(x) => x,
            Err(e) => {
                return Err(fe_error("honorificSuffix", e));
            },
        };
        Ok(
            Name {
                formatted,
                family_name,
                given_name,
                middle_name,
                honorific_prefix,
                honorific_suffix,
            },
        )
    }

    /// Writes the `Name` as a document tree.
    pub fn to_json_value(&self) -> (r: JsonValue)
        ensures
            r.deep_view() == spec_name_to_json(self.deep_view()),
    {
        let mut fields: Vec<(String, JsonValue)> = Vec::new();
        fields.push((String::from_str("formatted"), opt_string_json(&self.formatted)));
        fields.push((String::from_str("familyName"), opt_string_json(&self.family_name)));
        fields.push((String::from_str("givenName"), opt_string_json(&self.given_name)));
        fields.push((String::from_str("middleName"), opt_string_json(&self.middle_name)));
        fields.push((String::from_str("honorificPrefix"), opt_string_json(&self.honorific_prefix)));
        fields.push((String::from_str("honorificSuffix"), opt_string_json(&self.honorific_suffix)));
        proof {
            lemma_spec_json_fields(fields@);
            let target = spec_name_to_json(self.deep_view())->Obj_0;
            assert(fields@.len() == 6);
            assert forall|k: int| 0 <= k < 6 implies spec_json_fields(fields@)[k] == target[k] by {
                assert(spec_json_fields(fields@)[k] == (fields@[k].0@, spec_json(fields@[k].1)));
            }
            assert(spec_json_fields(fields@) =~= target);
        }
        JsonValue::Obj(fields)
    }
}

/// A `Name` is well-formed document data at any positive depth.
pub proof fn lemma_name_json_ok(m: NameView, n: nat)
    ensures
        json_ok(spec_name_to_json(m), n + 1),
{
    let fields = spec_name_to_json(m)->Obj_0;
    reveal_strlit("formatted");
    reveal_strlit("familyName");
    reveal_strlit("givenName");
    reveal_strlit("middleName");
    reveal_strlit("honorificPrefix");
    reveal_strlit("honorificSuffix");
    assert("formatted"@[0] == 'f' && "givenName"@[0] == 'g');
    assert("familyName"@[0] == 'f' && "middleName"@[0] == 'm');
    assert("honorificPrefix"@[9] == 'P' && "honorificSuffix"@[9] == 'S');
    assert(fields.len() == 6);
    assert forall|i: int| 0 <= i < fields.len() implies json_ok((#[trigger] fields[i]).1, n) by {
        assert(fields[0].1 == spec_opt_string_json(m.formatted));
        assert(fields[1].1 == spec_opt_string_json(m.family_name));
        assert(fields[2].1 == spec_opt_string_json(m.given_name));
        assert(fields[3].1 == spec_opt_string_json(m.middle_name));
        assert(fields[4].1 == spec_opt_string_json(m.honorific_prefix));
        assert(fields[5].1 == spec_opt_string_json(m.honorific_suffix));
    }
    assert forall|i: int, k: int| 0 <= i < k < fields.len() implies (#[trigger] fields[i]).0 != (
    #[trigger] fields[k]).0 by {
        assert(fields[0].0 == "formatted"@);
        assert(fields[1].0 == "familyName"@);
        assert(fields[2].0 == "givenName"@);
        assert(fields[3].0 == "middleName"@);
        assert(fields[4].0 == "honorificPrefix"@);
        assert(fields[5].0 == "honorificSuffix"@);
    }
    lemma_ok_obj(fields, n);
}

/// Reading back the document form of a `Name` yields it.
pub proof fn lemma_name_round_trip(m: NameView)
    ensures
        spec_name_from_json(spec_name_to_json(m)) == Ok::<NameView, ErrorView>(m),
{
    reveal_strlit("formatted");
    reveal_strlit("familyName");
    reveal_strlit("givenName");
    reveal_strlit("middleName");
    reveal_strlit("honorificPrefix");
    reveal_strlit("honorificSuffix");
    assert("formatted"@[0] == 'f' && "givenName"@[0] == 'g');
    assert("familyName"@[0] == 'f' && "middleName"@[0] == 'm');
    assert("honorificPrefix"@[9] == 'P' && "honorificSuffix"@[9] == 'S');
    let fields = spec_name_to_json(m)->Obj_0;
    assert(fields[0] == ("formatted"@, spec_opt_string_json(m.formatted)));
    assert(fields[1] == ("familyName"@, spec_opt_string_json(m.family_name)));
    assert(fields[2] == ("givenName"@, spec_opt_string_json(m.given_name)));
    assert(fields[3] == ("middleName"@, spec_opt_string_json(m.middle_name)));
    assert(fields[4] == ("honorificPrefix"@, spec_opt_string_json(m.honorific_prefix)));
    assert(fields[5] == ("honorificSuffix"@, spec_opt_string_json(m.honorific_suffix)));
    lemma_obj_get_at(fields, "formatted"@, 0);
    lemma_obj_get_at(fields, "familyName"@, 1);
    lemma_obj_get_at(fields, "givenName"@, 2);
    lemma_obj_get_at(fields, "middleName"@, 3);
    lemma_obj_get_at(fields, "honorificPrefix"@, 4);
    lemma_obj_get_at(fields, "honorificSuffix"@, 5);
    lemma_opt_string_round_trip(m.formatted);
    lemma_opt_string_round_trip(m.family_name);
    lemma_opt_string_round_trip(m.given_name);
    lemma_opt_string_round_trip(m.middle_name);
    lemma_opt_string_round_trip(m.honorific_prefix);
    lemma_opt_string_round_trip(m.honorific_suffix);
    assert(spec_name_from_json(spec_name_to_json(m))->Ok_0 =~= m);
}

/// What reading an `Email` from a document yields.
pub open spec fn spec_email_from_json(j: SpecJson) -> Result<EmailView, ErrorView> {
    match j {
        SpecJson::Obj(fields) => match spec_field_opt_string(spec_obj_get(fields, "value"@)) {
            Err(e) => Err(fe_msg("value"@, e)),
            Ok(value) => match spec_field_opt_string(spec_obj_get(fields, "type"@)) {
                Err(e) => Err(fe_msg("type"@, e)),
                Ok(type_) => match spec_field_opt_bool(spec_obj_get(fields, "primary"@)) {
                    Err(e) => Err(fe_msg("primary"@, e)),
                    Ok(primary) => match spec_field_opt_string(
                        spec_obj_get(fields, "display"@),
                    ) {
                        Err(e) => Err(fe_msg("display"@, e)),
                        Ok(display) => Ok(EmailView { value, type_, primary, display }),
                    },
                },
            },
        },
        _ => Err(not_object_msg()),
    }
}

/// The document form of an `Email`.
pub open spec fn spec_email_to_json(m: EmailView) -> SpecJson {
    SpecJson::Obj(
        seq![
            ("value"@, spec_opt_string_json(m.value)),
            ("type"@, spec_opt_string_json(m.type_)),
            (
                "primary"@,
                match m.primary {
                    None => SpecJson::Null,
                    Some(b) => SpecJson::Bool(b),
                },
            ),
            ("display"@, spec_opt_string_json(m.display)),
        ],
    )
}

impl Email {
    /// Reads an `Email` from a document tree.
    pub fn from_json_value(v: &JsonValue) -> (r: Result<Email, SCIMError>)
        ensures
            res_view(r) == spec_email_from_json(v.deep_view()),
    {
        let fields = match v {
            JsonValue::Obj(fields) => fields,
            _ => {
                return Err(not_object_error());
            },
        };
        proof {
            lemma_fields_deep_view(*fields);
        }
        let value = match field_opt_string(obj_get(fields, "value")) {
            Ok(x) => x,
            Err(e) => {
                return Err(fe_error("value", e));
            },
        };
        let type_ = match field_opt_string(obj_get(fields, "type")) {
            Ok(x) => x,
            Err(e) => {
                return Err(fe_error("type", e));
            },
        };
        let primary = match field_opt_bool(obj_get(fields, "primary")) {
            Ok(x) => x,
            Err(e) => {
                return Err(fe_error("primary", e));
            },
        };
        let display = match field_opt_string(obj_get(fields, "display")) {
            Ok(x) => x,
            Err(e) => {
                return Err(fe_error("display", e));
            },
        };
        Ok(Email { value, type_, primary, display })
    }

    /// Writes the `Email` as a document tree.
    pub fn to_json_value(&self) -> (r: JsonValue)
        ensures
            r.deep_view() == spec_email_to_json(self.deep_view()),
    {
        let mut fields: Vec<(String, JsonValue)> = Vec::new();
        fields.push((String::from_str("value"), opt_string_json(&self.value)));
        fields.push((String::from_str("type"), opt_string_json(&self.type_)));
        let primary = match &self.primary {
            None => JsonValue::Null,
            Some(b) => JsonValue::Bool(*b),
        };
        fields.push((String::from_str("primary"), primary));
        fields.push((String::from_str("display"), opt_string_json(&self.display)));
        proof {
            lemma_spec_json_fields(fields@);
            let target = spec_email_to_json(self.deep_view())->Obj_0;
            assert(fields@.len() == 4);
            assert forall|k: int| 0 <= k < 4 implies spec_json_fields(fields@)[k] == target[k] by {
                assert(spec_json_fields(fields@)[k] == (fields@[k].0@, spec_json(fields@[k].1)));
            }
            assert(spec_json_fields(fields@) =~= target);
        }
        JsonValue::Obj(fields)
    }
}

/// An `Email` is well-formed document data at any positive depth.
pub proof fn lemma_email_json_ok(m: EmailView, n: nat)
    ensures
        json_ok(spec_email_to_json(m), n + 1),
{
    let fields = spec_email_to_json(m)->Obj_0;
    reveal_strlit("value");
    reveal_strlit("type");
    reveal_strlit("primary");
    reveal_strlit("display");
    assert("primary"@[0] == 'p' && "display"@[0] == 'd');
    assert(fields.len() == 4);
    assert forall|i: int| 0 <= i < fields.len() implies json_ok((#[trigger] fields[i]).1, n) by {
        assert(fields[0].1 == spec_opt_string_json(m.value));
        assert(fields[1].1 == spec_opt_string_json(m.type_));
        assert(fields[3].1 == spec_opt_string_json(m.display));
    }
    assert forall|i: int, k: int| 0 <= i < k < fields.len() implies (#[trigger] fields[i]).0 != (
    #[trigger] fields[k]).0 by {
        assert(fields[0].0 == "value"@);
        assert(fields[1].0 == "type"@);
        assert(fields[2].0 == "primary"@);
        assert(fields[3].0 == "display"@);
    }
    lemma_ok_obj(fields, n);
}

/// Reading back the document form of an `Email` yields it.
pub proof fn lemma_email_round_trip(m: EmailView)
    ensures
        spec_email_from_json(spec_email_to_json(m)) == Ok::<EmailView, ErrorView>(m),
{
    reveal_strlit("value");
    reveal_strlit("type");
    reveal_strlit("primary");
    reveal_strlit("display");
    assert("primary"@[0] == 'p' && "display"@[0] == 'd');
    let fields = spec_email_to_json(m)->Obj_0;
    assert(fields[0] == ("value"@, spec_opt_string_json(m.value)));
    assert(fields[1] == ("type"@, spec_opt_string_json(m.type_)));
    assert(fields[3] == ("display"@, spec_opt_string_json(m.display)));
    lemma_obj_get_at(fields, "value"@, 0);
    lemma_obj_get_at(fields, "type"@, 1);
    lemma_obj_get_at(fields, "primary"@, 2);
    lemma_obj_get_at(fields, "display"@, 3);
    lemma_opt_string_round_trip(m.value);
    lemma_opt_string_round_trip(m.type_);
    lemma_opt_string_round_trip(m.display);
    assert(spec_email_from_json(spec_email_to_json(m))->Ok_0 =~= m);
}

/// What reading an `Address` from a document yields.
pub open spec fn spec_address_from_json(j: SpecJson) -> Result<AddressView, ErrorView> {
    match j {
        SpecJson::Obj(fields) => match spec_field_opt_string(spec_obj_get(fields, "formatted"@)) {
            Err(e) => Err(fe_msg("formatted"@, e)),
            Ok(formatted) => match spec_field_opt_string(
                spec_obj_get(fields, "streetAddress"@),
            ) {
                Err(e) => Err(fe_msg("streetAddress"@, e)),
                Ok(street_address) => match spec_field_opt_string(
                    spec_obj_get(fields, "locality"@),
                ) {
                    Err(e) => Err(fe_msg("locality"@, e)),
                    Ok(locality) => match spec_field_opt_string(
                        spec_obj_get(fields, "region"@),
                    ) {
                        Err(e) => Err(fe_msg("region"@, e)),
                        Ok(region) => match spec_field_opt_string(
                            spec_obj_get(fields, "postalCode"@),
                        ) {
                            Err(e) => Err(fe_msg("postalCode"@, e)),
                            Ok(postal_code) => match spec_field_opt_string(
                                spec_obj_get(fields, "country"@),
                            ) {
                                Err(e) => Err(fe_msg("country"@, e)),
                                Ok(country) => match spec_field_opt_string(
                                    spec_obj_get(fields, "type"@),
                                ) {
                                    Err(e) => Err(fe_msg("type"@, e)),
                                    Ok(type_) => Ok(
                                        AddressView {
                                            formatted,
                                            street_address,
                                            locality,
                                            region,
                                            postal_code,
                                            country,
                                            type_,
                                        },
                                    ),
                                },
                            },
                        },
                    },
                },
            },
        },
        _ => Err(not_object_msg()),
    }
}

/// The document form of an `Address`.
pub open spec fn spec_address_to_json(m: AddressView) -> SpecJson {
    SpecJson::Obj(
        seq![
            ("formatted"@, spec_opt_string_json(m.formatted)),
            ("streetAddress"@, spec_opt_string_json(m.street_address)),
            ("locality"@, spec_opt_string_json(m.locality)),
            ("region"@, spec_opt_string_json(m.region)),
            ("postalCode"@, spec_opt_string_json(m.postal_code)),
            ("country"@, spec_opt_string_json(m.country)),
            ("type"@, spec_opt_string_json(m.type_)),
        ],
    )
}

impl Address {
    /// Reads an `Address` from a document tree.
    pub fn from_json_value(v: &JsonValue) -> (r: Result<Address, SCIMError>)
        ensures
            res_view(r) == spec_address_from_json(v.deep_view()),
    {
        let fields = match v {
            JsonValue::Obj(fields) => fields,
            _ => {
                return Err(not_object_error());
            },
        };
        proof {
            lemma_fields_deep_view(*fields);
        }
        let formatted = match field_opt_string(obj_get(fields, "formatted")) {
            Ok(x) => x,
            Err(e) => {
                return Err(fe_error("formatted", e));
            },
        };
        let street_address = match field_opt_string(obj_get(fields, "streetAddress")) {
            Ok(x) => x,
            Err(e) => {
                return Err(fe_error("streetAddress", e));
            },
        };
        let locality = match field_opt_string(obj_get(fields, "locality")) {
            Ok(x) => x,
            Err(e) => {
                return Err(fe_error("locality", e));
            },
        };
        let region = match field_opt_string(obj_get(fields, "region")) {
            Ok(x) => x,
            Err(e) => {
                return Err(fe_error("region", e));
            },
        };
        let postal_code = match field_opt_string(obj_get(fields, "postalCode")) {
            Ok(x) => x,
            Err(e) => {
                return Err(fe_error("postalCode", e));
            },
        };
        let country = match field_opt_string(obj_get(fields, "country")) {
            Ok(x) => x,
            Err(e) => {
                return Err(fe_error("country", e));
            },
        };
        let type_ = match field_opt_string(obj_get(fields, "type")) {
            Ok(x) => x,
            Err(e) => {
                return Err(fe_error("type", e));
            },
        };
        Ok(Address { formatted, street_address, locality, region, postal_code, country, type_ })
    }

    /// Writes the `Address` as a document tree.
    pub fn to_json_value(&self) -> (r: JsonValue)
        ensures
            r.deep_view() == spec_address_to_json(self.deep_view()),
    {
        let mut fields: Vec<(String, JsonValue)> = Vec::new();
        fields.push((String::from_str("formatted"), opt_string_json(&self.formatted)));
        fields.push((String::from_str("streetAddress"), opt_string_json(&self.street_address)));
        fields.push((String::from_str("locality"), opt_string_json(&self.locality)));
        fields.push((String::from_str("region"), opt_string_json(&self.region)));
        fields.push((String::from_str("postalCode"), opt_string_json(&self.postal_code)));
        fields.push((String::from_str("country"), opt_string_json(&self.country)));
        fields.push((String::from_str("type"), opt_string_json(&self.type_)));
        proof {
            lemma_spec_json_fields(fields@);
            let target = spec_address_to_json(self.deep_view())->Obj_0;
            assert(fields@.len() == 7);
            assert forall|k: int| 0 <= k < 7 implies spec_json_fields(fields@)[k] == target[k] by {
                assert(spec_json_fields(fields@)[k] == (fields@[k].0@, spec_json(fields@[k].1)));
            }
            assert(spec_json_fields(fields@) =~= target);
        }
        JsonValue::Obj(fields)
    }
}

/// An `Address` is well-formed document data at any positive depth.
pub proof fn lemma_address_json_ok(m: AddressView, n: nat)
    ensures
        json_ok(spec_address_to_json(m), n + 1),
{
    let fields = spec_address_to_json(m)->Obj_0;
    reveal_strlit("formatted");
    reveal_strlit("streetAddress");
    reveal_strlit("locality");
    reveal_strlit("region");
    reveal_strlit("postalCode");
    reveal_strlit("country");
    reveal_strlit("type");
    assert(fields.len() == 7);
    assert forall|i: int| 0 <= i < fields.len() implies json_ok((#[trigger] fields[i]).1, n) by {
        assert(fields[0].1 == spec_opt_string_json(m.formatted));
        assert(fields[1].1 == spec_opt_string_json(m.street_address));
        assert(fields[2].1 == spec_opt_string_json(m.locality));
        assert(fields[3].1 == spec_opt_string_json(m.region));
        assert(fields[4].1 == spec_opt_string_json(m.postal_code));
        assert(fields[5].1 == spec_opt_string_json(m.country));
        assert(fields[6].1 == spec_opt_string_json(m.type_));
    }
    assert forall|i: int, k: int| 0 <= i < k < fields.len() implies (#[trigger] fields[i]).0 != (
    #[trigger] fields[k]).0 by {
        assert(fields[0].0 == "formatted"@);
        assert(fields[1].0 == "streetAddress"@);
        assert(fields[2].0 == "locality"@);
        assert(fields[3].0 == "region"@);
        assert(fields[4].0 == "postalCode"@);
        assert(fields[5].0 == "country"@);
        assert(fields[6].0 == "type"@);
    }
    lemma_ok_obj(fields, n);
}

/// Reading back the document form of an `Address` yields it.
pub proof fn lemma_address_round_trip(m: AddressView)
    ensures
        spec_address_from_json(spec_address_to_json(m)) == Ok::<AddressView, ErrorView>(m),
{
    reveal_strlit("formatted");
    reveal_strlit("streetAddress");
    reveal_strlit("locality");
    reveal_strlit("region");
    reveal_strlit("postalCode");
    reveal_strlit("country");
    reveal_strlit("type");
    let fields = spec_address_to_json(m)->Obj_0;
    assert(fields[0] == ("formatted"@, spec_opt_string_json(m.formatted)));
    assert(fields[1] == ("streetAddress"@, spec_opt_string_json(m.street_address)));
    assert(fields[2] == ("locality"@, spec_opt_string_json(m.locality)));
    assert(fields[3] == ("region"@, spec_opt_string_json(m.region)));
    assert(fields[4] == ("postalCode"@, spec_opt_string_json(m.postal_code)));
    assert(fields[5] == ("country"@, spec_opt_string_json(m.country)));
    assert(fields[6] == ("type"@, spec_opt_string_json(m.type_)));
    lemma_obj_get_at(fields, "formatted"@, 0);
    lemma_obj_get_at(fields, "streetAddress"@, 1);
    lemma_obj_get_at(fields, "locality"@, 2);
    lemma_obj_get_at(fields, "region"@, 3);
    lemma_obj_get_at(fields, "postalCode"@, 4);
    lemma_obj_get_at(fields, "country"@, 5);
    lemma_obj_get_at(fields, "type"@, 6);
    lemma_opt_string_round_trip(m.formatted);
    lemma_opt_string_round_trip(m.street_address);
    lemma_opt_string_round_trip(m.locality);
    lemma_opt_string_round_trip(m.region);
    lemma_opt_string_round_trip(m.postal_code);
    lemma_opt_string_round_trip(m.country);
    lemma_opt_string_round_trip(m.type_);
    assert(spec_address_from_json(spec_address_to_json(m))->Ok_0 =~= m);
}


/// An optional `Name` field: absent and null mean unset.
pub open spec fn spec_opt_name(f: Option<SpecJson>) -> Result<Option<NameView>, ErrorView> {
    match f {
        None => Ok(None),
        Some(SpecJson::Null) => Ok(None),
        Some(j) => match spec_name_from_json(j) {
            Ok(m) => Ok(Some(m)),
            Err(e) => Err(e),
        },
    }
}

/// Reads an optional `Name` field.
pub fn opt_name(f: Option<&JsonValue>) -> (r: Result<Option<Name>, SCIMError>)
    ensures
        res_view(r) == spec_opt_name(f.deep_view()),
{
    match f {
        None => Ok(None),
        Some(JsonValue::Null) => Ok(None),
        Some(v) => match Name::from_json_value(v) {
            Ok(m) => Ok(Some(m)),
            Err(e) => Err(e),
        },
    }
}

/// The document form of an optional `Name`: null when unset.
pub open spec fn spec_opt_name_json(o: Option<NameView>) -> SpecJson {
    match o {
        None => SpecJson::Null,
        Some(m) => spec_name_to_json(m),
    }
}

/// Builds the document form of an optional `Name`.
pub fn opt_name_json(o: &Option<Name>) -> (r: JsonValue)
    ensures
        r.deep_view() == spec_opt_name_json(o.deep_view()),
{
    match o {
        None => JsonValue::Null,
        Some(m) => m.to_json_value(),
    }
}

/// An optional enterprise extension: absent and null mean unset.
pub open spec fn spec_opt_enterprise(f: Option<SpecJson>) -> Result<
    Option<EnterpriseUserView>,
    ErrorView,
> {
    match f {
        None => Ok(None),
        Some(SpecJson::Null) => Ok(None),
        Some(j) => match spec_enterprise_user_from_json(j) {
            Ok(e) => Ok(Some(e)),
            Err(e) => Err(e),
        },
    }
}

/// Reads an optional enterprise extension.
pub fn opt_enterprise(f: Option<&JsonValue>) -> (r: Result<Option<EnterpriseUser>, SCIMError>)
    ensures
        res_view(r) == spec_opt_enterprise(f.deep_view()),
{
    match f {
        None => Ok(None),
        Some(JsonValue::Null) => Ok(None),
        Some(v) => match EnterpriseUser::from_json_value(v) {
            Ok(e) => Ok(Some(e)),
            Err(e) => Err(e),
        },
    }
}

/// The document form of an optional enterprise extension: null when unset.
pub open spec fn spec_opt_enterprise_json(o: Option<EnterpriseUserView>) -> SpecJson {
    match o {
        None => SpecJson::Null,
        Some(e) => spec_enterprise_user_to_json(e),
    }
}

/// Builds the document form of an optional enterprise extension.
pub fn opt_enterprise_json(o: &Option<EnterpriseUser>) -> (r: JsonValue)
    ensures
        r.deep_view() == spec_opt_enterprise_json(o.deep_view()),
{
    match o {
        None => JsonValue::Null,
        Some(e) => e.to_json_value(),
    }
}

/// The emails of an array whose elements must all be email records; the
/// first offending element's error wins.
pub open spec fn spec_emails_of(items: Seq<SpecJson>) -> Result<Seq<EmailView>, ErrorView>
    decreases items.len(),
{
    if items.len() == 0 {
        Ok(Seq::empty())
    } else {
        match spec_email_from_json(items[0]) {
            Err(e) => Err(e),
            Ok(m) => match spec_emails_of(items.subrange(1, items.len() as int)) {
                Ok(rest) => Ok(seq![m] + rest),
                Err(e) => Err(e),
            },
        }
    }
}

/// Converts the elements of an array into email records.
pub fn emails_of(items: &Vec<JsonValue>) -> (r: Result<Vec<Email>, SCIMError>)
    ensures
        res_view(r) == spec_emails_of(spec_json_seq(items@)),
{
    let ghost dv = spec_json_seq(items@);
    proof {
        lemma_spec_json_seq(items@);
        assert(dv.skip(0) =~= dv);
    }
    let mut out: Vec<Email> = Vec::new();
    let n = items.len();
    for i in 0..n
        invariant
            n == items.len(),
            dv == spec_json_seq(items@),
            dv.len() == n,
            forall|k: int| 0 <= k < n ==> dv[k] == spec_json(#[trigger] items@[k]),
            out.deep_view().len() == i,
            spec_emails_of(dv) == match spec_emails_of(dv.skip(i as int)) {
                Ok(rest) => Ok::<Seq<EmailView>, ErrorView>(out.deep_view() + rest),
                Err(e) => Err::<Seq<EmailView>, ErrorView>(e),
            },
    {
        proof {
            assert(dv.skip(i as int)[0] == dv[i as int]);
            assert(dv.skip(i as int).subrange(1, dv.skip(i as int).len() as int) =~= dv.skip(
                i as int + 1,
            ));
        }
        match Email::from_json_value(&items[i]) {
            Ok(m) => {
                let ghost prev = out.deep_view();
                let ghost elt = m.deep_view();
                out.push(m);
                proof {
                    assert(out.deep_view() =~= prev + seq![elt]);
                    match spec_emails_of(dv.skip(i as int + 1)) {
                        Ok(rest) => {
                            assert((prev + seq![elt]) + rest =~= prev + (seq![elt] + rest));
                        },
                        Err(_) => {},
                    }
                }
            },
            Err(e) => {
                return Err(e);
            },
        }
    }
    proof {
        assert(dv.skip(n as int) =~= Seq::empty());
        assert(out.deep_view() + Seq::<EmailView>::empty() =~= out.deep_view());
    }
    Ok(out)
}

/// An optional email list: absent and null mean unset.
pub open spec fn spec_opt_emails(f: Option<SpecJson>) -> Result<Option<Seq<EmailView>>, ErrorView> {
    match f {
        None => Ok(None),
        Some(SpecJson::Null) => Ok(None),
        Some(SpecJson::Arr(items)) => match spec_emails_of(items) {
            Ok(ms) => Ok(Some(ms)),
            Err(e) => Err(e),
        },
        Some(_) => Err(fe_msg("emails"@, FieldError::Invalid)),
    }
}

/// Reads an optional email list.
pub fn opt_emails(f: Option<&JsonValue>) -> (r: Result<Option<Vec<Email>>, SCIMError>)
    ensures
        res_view(r) == spec_opt_emails(f.deep_view()),
{
    match f {
        None => Ok(None),
        Some(JsonValue::Null) => Ok(None),
        Some(JsonValue::Arr(items)) => match emails_of(items) {
            Ok(ms) => Ok(Some(ms)),
            Err(e) => Err(e),
        },
        Some(_) => Err(fe_error("emails", FieldError::Invalid)),
    }
}

/// The document form of an optional email list: null when unset.
pub open spec fn spec_emails_json(o: Option<Seq<EmailView>>) -> SpecJson {
    match o {
        None => SpecJson::Null,
        Some(ms) => SpecJson::Arr(ms.map_values(|m: EmailView| spec_email_to_json(m))),
    }
}

/// Builds the document form of an optional email list.
pub fn emails_json(o: &Option<Vec<Email>>) -> (r: JsonValue)
    ensures
        r.deep_view() == spec_emails_json(o.deep_view()),
{
    let ms = match o {
        None => {
            return JsonValue::Null;
        },
        Some(ms) => ms,
    };
    let mut out: Vec<JsonValue> = Vec::new();
    let n = ms.len();
    for i in 0..n
        invariant
            n == ms.len(),
            out@.len() == i,
            forall|k: int|
                0 <= k < i ==> spec_json(#[trigger] out@[k]) == spec_email_to_json(
                    ms.deep_view()[k],
                ),
    {
        out.push(ms[i].to_json_value());
    }
    proof {
        lemma_spec_json_seq(out@);
        let target = ms.deep_view().map_values(|m: EmailView| spec_email_to_json(m));
        assert forall|k: int| 0 <= k < out@.len() implies spec_json_seq(out@)[k] == target[k] by {
            assert(spec_json(out@[k]) == spec_email_to_json(ms.deep_view()[k]));
        }
        assert(spec_json_seq(out@) =~= target);
    }
    JsonValue::Arr(out)
}

/// Reading back the document form of an email list yields it.
pub proof fn lemma_emails_of_round_trip(ms: Seq<EmailView>)
    ensures
        spec_emails_of(ms.map_values(|m: EmailView| spec_email_to_json(m))) == Ok::<
            Seq<EmailView>,
            ErrorView,
        >(ms),
    decreases ms.len(),
{
    let items = ms.map_values(|m: EmailView| spec_email_to_json(m));
    if ms.len() == 0 {
        assert(Seq::<EmailView>::empty() =~= ms);
    } else {
        lemma_email_round_trip(ms[0]);
        let tail = ms.subrange(1, ms.len() as int);
        lemma_emails_of_round_trip(tail);
        assert(items.subrange(1, items.len() as int) =~= tail.map_values(
            |m: EmailView| spec_email_to_json(m),
        ));
        assert(seq![ms[0]] + tail =~= ms);
    }
}

/// The addresses of an array whose elements must all be address records;
/// the first offending element's error wins.
pub open spec fn spec_addresses_of(items: Seq<SpecJson>) -> Result<Seq<AddressView>, ErrorView>
    decreases items.len(),
{
    if items.len() == 0 {
        Ok(Seq::empty())
    } else {
        match spec_address_from_json(items[0]) {
            Err(e) => Err(e),
            Ok(m) => match spec_addresses_of(items.subrange(1, items.len() as int)) {
                Ok(rest) => Ok(seq![m] + rest),
                Err(e) => Err(e),
            },
        }
    }
}

/// Converts the elements of an array into address records.
pub fn addresses_of(items: &Vec<JsonValue>) -> (r: Result<Vec<Address>, SCIMError>)
    ensures
        res_view(r) == spec_addresses_of(spec_json_seq(items@)),
{
    let ghost dv = spec_json_seq(items@);
    proof {
        lemma_spec_json_seq(items@);
        assert(dv.skip(0) =~= dv);
    }
    let mut out: Vec<Address> = Vec::new();
    let n = items.len();
    for i in 0..n
        invariant
            n == items.len(),
            dv == spec_json_seq(items@),
            dv.len() == n,
            forall|k: int| 0 <= k < n ==> dv[k] == spec_json(#[trigger] items@[k]),
            out.deep_view().len() == i,
            spec_addresses_of(dv) == match spec_addresses_of(dv.skip(i as int)) {
                Ok(rest) => Ok::<Seq<AddressView>, ErrorView>(out.deep_view() + rest),
                Err(e) => Err::<Seq<AddressView>, ErrorView>(e),
            },
    {
        proof {
            assert(dv.skip(i as int)[0] == dv[i as int]);
            assert(dv.skip(i as int).subrange(1, dv.skip(i as int).len() as int) =~= dv.skip(
                i as int + 1,
            ));
        }
        match Address::from_json_value(&items[i]) {
            Ok(m) => {
                let ghost prev = out.deep_view();
                let ghost elt = m.deep_view();
                out.push(m);
                proof {
                    assert(out.deep_view() =~= prev + seq![elt]);
                    match spec_addresses_of(dv.skip(i as int + 1)) {
                        Ok(rest) => {
                            assert((prev + seq![elt]) + rest =~= prev + (seq![elt] + rest));
                        },
                        Err(_) => {},
                    }
                }
            },
            Err(e) => {
                return Err(e);
            },
        }
    }
    proof {
        assert(dv.skip(n as int) =~= Seq::empty());
        assert(out.deep_view() + Seq::<AddressView>::empty() =~= out.deep_view());
    }
    Ok(out)
}

/// An optional address list: absent and null mean unset.
pub open spec fn spec_opt_addresses(f: Option<SpecJson>) -> Result<
    Option<Seq<AddressView>>,
    ErrorView,
> {
    match f {
        None => Ok(None),
        Some(SpecJson::Null) => Ok(None),
        Some(SpecJson::Arr(items)) => match spec_addresses_of(items) {
            Ok(ms) => Ok(Some(ms)),
            Err(e) => Err(e),
        },
        Some(_) => Err(fe_msg("addresses"@, FieldError::Invalid)),
    }
}

/// Reads an optional address list.
pub fn opt_addresses(f: Option<&JsonValue>) -> (r: Result<Option<Vec<Address>>, SCIMError>)
    ensures
        res_view(r) == spec_opt_addresses(f.deep_view()),
{
    match f {
        None => Ok(None),
        Some(JsonValue::Null) => Ok(None),
        Some(JsonValue::Arr(items)) => match addresses_of(items) {
            Ok(ms) => Ok(Some(ms)),
            Err(e) => Err(e),
        },
        Some(_) => Err(fe_error("addresses", FieldError::Invalid)),
    }
}

/// The document form of an optional address list: null when unset.
pub open spec fn spec_addresses_json(o: Option<Seq<AddressView>>) -> SpecJson {
    match o {
        None => SpecJson::Null,
        Some(ms) => SpecJson::Arr(ms.map_values(|m: AddressView| spec_address_to_json(m))),
    }
}

/// Builds the document form of an optional address list.
pub fn addresses_json(o: &Option<Vec<Address>>) -> (r: JsonValue)
    ensures
        r.deep_view() == spec_addresses_json(o.deep_view()),
{
    let ms = match o {
        None => {
            return JsonValue::Null;
        },
        Some(ms) => ms,
    };
    let mut out: Vec<JsonValue> = Vec::new();
    let n = ms.len();
    for i in 0..n
        invariant
            n == ms.len(),
            out@.len() == i,
            forall|k: int|
                0 <= k < i ==> spec_json(#[trigger] out@[k]) == spec_address_to_json(
                    ms.deep_view()[k],
                ),
    {
        out.push(ms[i].to_json_value());
    }
    proof {
        lemma_spec_json_seq(out@);
        let target = ms.deep_view().map_values(|m: AddressView| spec_address_to_json(m));
        assert forall|k: int| 0 <= k < out@.len() implies spec_json_seq(out@)[k] == target[k] by {
            assert(spec_json(out@[k]) == spec_address_to_json(ms.deep_view()[k]));
        }
        assert(spec_json_seq(out@) =~= target);
    }
    JsonValue::Arr(out)
}

/// Reading back the document form of an address list yields it.
pub proof fn lemma_addresses_of_round_trip(ms: Seq<AddressView>)
    ensures
        spec_addresses_of(ms.map_values(|m: AddressView| spec_address_to_json(m))) == Ok::<
            Seq<AddressView>,
            ErrorView,
        >(ms),
    decreases ms.len(),
{
    let items = ms.map_values(|m: AddressView| spec_address_to_json(m));
    if ms.len() == 0 {
        assert(Seq::<AddressView>::empty() =~= ms);
    } else {
        lemma_address_round_trip(ms[0]);
        let tail = ms.subrange(1, ms.len() as int);
        lemma_addresses_of_round_trip(tail);
        assert(items.subrange(1, items.len() as int) =~= tail.map_values(
            |m: AddressView| spec_address_to_json(m),
        ));
        assert(seq![ms[0]] + tail =~= ms);
    }
}

/// A user's schema list: absent means none listed; present, it must be an
/// array of strings.
pub open spec fn spec_user_schemas(f: Option<SpecJson>) -> Result<Seq<Seq<char>>, FieldError> {
    match f {
        None => Ok(Seq::empty()),
        Some(SpecJson::Arr(items)) => crate::json::spec_strings_of(items),
        Some(_) => Err(FieldError::Invalid),
    }
}

/// Reads a user's schema list.
pub fn user_schemas(f: Option<&JsonValue>) -> (r: Result<Vec<String>, FieldError>)
    ensures
        res_view(r) == spec_user_schemas(f.deep_view()),
{
    match f {
        None => {
            let v: Vec<String> = Vec::new();
            proof {
                assert(v.deep_view() =~= Seq::<Seq<char>>::empty());
            }
            Ok(v)
        },
        Some(JsonValue::Arr(items)) => strings_of(items),
        Some(_) => Err(FieldError::Invalid),
    }
}

/// What reading a `User` from a document yields, field by field in
/// declaration order; the first offending field wins.
pub open spec fn spec_user_from_json(j: SpecJson) -> Result<UserView, ErrorView> {
    match j {
        SpecJson::Obj(fields) => match spec_user_schemas(spec_obj_get(fields, "schemas"@)) {
            Err(e) => Err(fe_msg("schemas"@, e)),
            Ok(schemas) => match spec_field_opt_string(spec_obj_get(fields, "id"@)) {
                Err(e) => Err(fe_msg("id"@, e)),
                Ok(id) => match spec_field_string(spec_obj_get(fields, "userName"@)) {
                    Err(e) => Err(fe_msg("userName"@, e)),
                    Ok(user_name) => match spec_opt_name(spec_obj_get(fields, "name"@)) {
                        Err(e) => Err(e),
                        Ok(name) => match spec_field_opt_string(
                            spec_obj_get(fields, "displayName"@),
                        ) {
                            Err(e) => Err(fe_msg("displayName"@, e)),
                            Ok(display_name) => match spec_field_opt_bool(
                                spec_obj_get(fields, "active"@),
                            ) {
                                Err(e) => Err(fe_msg("active"@, e)),
                                Ok(active) => spec_user_from_json_rest(
                                    fields,
                                    schemas,
                                    id,
                                    user_name,
                                    name,
                                    display_name,
                                    active,
                                ),
                            },
                        },
                    },
                },
            },
        },
        _ => Err(not_object_msg()),
    }
}

/// The remaining fields of a `User`, after the first six.
pub open spec fn spec_user_from_json_rest(
    fields: Seq<(Seq<char>, SpecJson)>,
    schemas: Seq<Seq<char>>,
    id: Option<Seq<char>>,
    user_name: Seq<char>,
    name: Option<NameView>,
    display_name: Option<Seq<char>>,
    active: Option<bool>,
) -> Result<UserView, ErrorView> {
    match spec_opt_emails(spec_obj_get(fields, "emails"@)) {
        Err(e) => Err(e),
        Ok(emails) => match spec_opt_addresses(spec_obj_get(fields, "addresses"@)) {
            Err(e) => Err(e),
            Ok(addresses) => match spec_opt_enterprise(
                spec_obj_get(fields, "urn:ietf:params:scim:schemas:extension:enterprise:2.0:User"@),
            ) {
                Err(e) => Err(e),
                Ok(enterprise_user) => match spec_opt_meta(spec_obj_get(fields, "meta"@)) {
                    Err(e) => Err(e),
                    Ok(meta) => Ok(
                        UserView {
                            schemas,
                            id,
                            user_name,
                            name,
                            display_name,
                            active,
                            emails,
                            addresses,
                            enterprise_user,
                            meta,
                        },
                    ),
                },
            },
        },
    }
}

/// The document form of a `User`: one object, members in declaration
/// order, unset slots as null, the enterprise extension under its URN.
pub open spec fn spec_user_to_json(u: UserView) -> SpecJson {
    SpecJson::Obj(
        seq![
            ("schemas"@, crate::json::spec_strings_json(u.schemas)),
            ("id"@, spec_opt_string_json(u.id)),
            ("userName"@, SpecJson::Str(u.user_name)),
            ("name"@, spec_opt_name_json(u.name)),
            ("displayName"@, spec_opt_string_json(u.display_name)),
            (
                "active"@,
                match u.active {
                    None => SpecJson::Null,
                    Some(b) => SpecJson::Bool(b),
                },
            ),
            ("emails"@, spec_emails_json(u.emails)),
            ("addresses"@, spec_addresses_json(u.addresses)),
            (
                "urn:ietf:params:scim:schemas:extension:enterprise:2.0:User"@,
                spec_opt_enterprise_json(u.enterprise_user),
            ),
            ("meta"@, spec_opt_meta_json(u.meta)),
        ],
    )
}

/// What deserializing a text yields: the parse error verbatim, or the user
/// read from the parsed document.
pub open spec fn spec_user_deserialize(s: Seq<char>) -> Result<UserView, ErrorView> {
    match spec_parse_json(s) {
        Ok(j) => spec_user_from_json(j),
        Err(m) => Err(ErrorView::DeserializationError(m)),
    }
}

/// The model of `User::default()`: the canonical URN pre-filled, the
/// required user name an empty string, everything optional unset.
pub open spec fn spec_default_user() -> UserView {
    UserView {
        schemas: seq!["urn:ietf:params:scim:schemas:core:2.0:User"@],
        id: None,
        user_name: Seq::empty(),
        name: None,
        display_name: None,
        active: None,
        emails: None,
        addresses: None,
        enterprise_user: None,
        meta: None,
    }
}

impl Default for User {
    /// The default user: canonical schema URN, empty user name, everything
    /// optional unset.
    fn default() -> (d: Self)
        ensures
            d.deep_view() == spec_default_user(),
    {
        let mut schemas: Vec<String> = Vec::new();
        schemas.push(String::from_str("urn:ietf:params:scim:schemas:core:2.0:User"));
        let d = User {
            schemas,
            id: None,
            user_name: String::new(),
            name: None,
            display_name: None,
            active: None,
            emails: None,
            addresses: None,
            enterprise_user: None,
            meta: None,
        };
        proof {
            assert(d.deep_view().schemas =~= spec_default_user().schemas);
            assert(d.deep_view().user_name =~= spec_default_user().user_name);
            assert(d.deep_view() =~= spec_default_user());
        }
        d
    }
}

impl User {
    /// Reads a `User` from a document tree.
    pub fn from_json_value(v: &JsonValue) -> (r: Result<User, SCIMError>)
        ensures
            res_view(r) == spec_user_from_json(v.deep_view()),
    {
        let fields = match v {
            JsonValue::Obj(fields) => fields,
            _ => {
                return Err(not_object_error());
            },
        };
        proof {
            lemma_fields_deep_view(*fields);
        }
        let schemas = match user_schemas(obj_get(fields, "schemas")) {
            Ok(x) => x,
            Err(e) => {
                return Err(fe_error("schemas", e));
            },
        };
        let id = match field_opt_string(obj_get(fields, "id")) {
            Ok(x) => x,
            Err(e) => {
                return Err(fe_error("id", e));
            },
        };
        let user_name = match field_string(obj_get(fields, "userName")) {
            Ok(x) => x,
            Err(e) => {
                return Err(fe_error("userName", e));
            },
        };
        let name = match opt_name(obj_get(fields, "name")) {
            Ok(x) => x,
            Err(e) => {
                return Err(e);
            },
        };
        let display_name = match field_opt_string(obj_get(fields, "displayName")) {
            Ok(x) => x,
            Err(e) => {
                return Err(fe_error("displayName", e));
            },
        };
        let active = match field_opt_bool(obj_get(fields, "active")) {
            Ok(x) => x,
            Err(e) => {
                return Err(fe_error("active", e));
            },
        };
        let emails = match opt_emails(obj_get(fields, "emails")) {
            Ok(x) => x,
            Err(e) => {
                return Err(e);
            },
        };
        let addresses = match opt_addresses(obj_get(fields, "addresses")) {
            Ok(x) => x,
            Err(e) => {
                return Err(e);
            },
        };
        let enterprise_user = match opt_enterprise(
            obj_get(fields, "urn:ietf:params:scim:schemas:extension:enterprise:2.0:User"),
        ) {
            Ok(x) => x,
            Err(e) => {
                return Err(e);
            },
        };
        let meta = match opt_meta(obj_get(fields, "meta")) {
            Ok(x) => x,
            Err(e) => {
                return Err(e);
            },
        };
        Ok(
            User {
                schemas,
                id,
                user_name,
                name,
                display_name,
                active,
                emails,
                addresses,
                enterprise_user,
                meta,
            },
        )
    }

    /// Writes the `User` as a document tree.
    pub fn to_json_value(&self) -> (r: JsonValue)
        ensures
            r.deep_view() == spec_user_to_json(self.deep_view()),
    {
        let mut fields: Vec<(String, JsonValue)> = Vec::new();
        fields.push((String::from_str("schemas"), crate::json::strings_json(&self.schemas)));
        fields.push((String::from_str("id"), opt_string_json(&self.id)));
        fields.push((String::from_str("userName"), JsonValue::Str(self.user_name.clone())));
        fields.push((String::from_str("name"), opt_name_json(&self.name)));
        fields.push((String::from_str("displayName"), opt_string_json(&self.display_name)));
        let active = match &self.active {
            None => JsonValue::Null,
            Some(b) => JsonValue::Bool(*b),
        };
        fields.push((String::from_str("active"), active));
        fields.push((String::from_str("emails"), emails_json(&self.emails)));
        fields.push((String::from_str("addresses"), addresses_json(&self.addresses)));
        fields.push(
            (
                String::from_str("urn:ietf:params:scim:schemas:extension:enterprise:2.0:User"),
                opt_enterprise_json(&self.enterprise_user),
            ),
        );
        fields.push((String::from_str("meta"), opt_meta_json(&self.meta)));
        proof {
            lemma_spec_json_fields(fields@);
            let target = spec_user_to_json(self.deep_view())->Obj_0;
            assert(fields@.len() == 10);
            assert forall|k: int| 0 <= k < 10 implies spec_json_fields(fields@)[k] == target[k] by {
                assert(spec_json_fields(fields@)[k] == (fields@[k].0@, spec_json(fields@[k].1)));
            }
            assert(spec_json_fields(fields@) =~= target);
        }
        JsonValue::Obj(fields)
    }

    /// Serializes the user to its JSON text. Never fails; deserializing
    /// the text yields this user back.
    pub fn serialize(&self) -> (r: Result<String, SCIMError>)
        ensures
            r is Ok,
            r matches Ok(s) ==> s@ == spec_print_json(spec_user_to_json(self.deep_view())),
            r matches Ok(s) ==> spec_user_deserialize(s@) == Ok::<UserView, ErrorView>(
                self.deep_view(),
            ),
    {
        let j = self.to_json_value();
        proof {
            lemma_user_json_ok(self.deep_view());
            lemma_ok_printable(spec_user_to_json(self.deep_view()), 5);
            lemma_user_round_trip(self.deep_view());
        }
        Ok(print_json(&j))
    }

    /// Deserializes a user from JSON text: the parse error verbatim when
    /// the text is not JSON, otherwise the fields read from the document.
    pub fn deserialize(s: &str) -> (r: Result<User, SCIMError>)
        ensures
            res_view(r) == spec_user_deserialize(s@),
    {
        match parse_json(s) {
            Ok(j) => User::from_json_value(&j),
            Err(m) => Err(SCIMError::DeserializationError(m)),
        }
    }
}

/// A `User`'s document form is well-formed at depth five.
pub proof fn lemma_user_json_ok(u: UserView)
    ensures
        json_ok(spec_user_to_json(u), 5),
{
    let fields = spec_user_to_json(u)->Obj_0;
    reveal_strlit("schemas");
    reveal_strlit("id");
    reveal_strlit("userName");
    reveal_strlit("name");
    reveal_strlit("displayName");
    reveal_strlit("active");
    reveal_strlit("emails");
    reveal_strlit("addresses");
    reveal_strlit("urn:ietf:params:scim:schemas:extension:enterprise:2.0:User");
    reveal_strlit("meta");
    assert("active"@[0] == 'a' && "emails"@[0] == 'e');
    assert("name"@[0] == 'n' && "meta"@[0] == 'm');
    assert(fields.len() == 10);
    assert forall|i: int| 0 <= i < fields.len() implies json_ok((#[trigger] fields[i]).1, 4) by {
        assert(fields[0].1 == crate::json::spec_strings_json(u.schemas));
        assert(fields[1].1 == spec_opt_string_json(u.id));
        assert(fields[2].1 == SpecJson::Str(u.user_name));
        assert(fields[3].1 == spec_opt_name_json(u.name));
        assert(fields[4].1 == spec_opt_string_json(u.display_name));
        assert(fields[6].1 == spec_emails_json(u.emails));
        assert(fields[7].1 == spec_addresses_json(u.addresses));
        assert(fields[8].1 == spec_opt_enterprise_json(u.enterprise_user));
        assert(fields[9].1 == spec_opt_meta_json(u.meta));
        lemma_ok_strings(u.schemas, 3);
        match u.name {
            None => {},
            Some(m) => {
                lemma_name_json_ok(m, 3);
            },
        }
        match u.emails {
            None => {},
            Some(ms) => {
                let items = ms.map_values(|m: EmailView| spec_email_to_json(m));
                assert forall|k: int| 0 <= k < items.len() implies json_ok(
                    #[trigger] items[k],
                    3,
                ) by {
                    assert(items[k] == spec_email_to_json(ms[k]));
                    lemma_email_json_ok(ms[k], 2);
                    crate::json::lemma_ok_mono(spec_email_to_json(ms[k]), 3, 3);
                }
                lemma_ok_arr(items, 3);
            },
        }
        match u.addresses {
            None => {},
            Some(ms) => {
                let items = ms.map_values(|m: AddressView| spec_address_to_json(m));
                assert forall|k: int| 0 <= k < items.len() implies json_ok(
                    #[trigger] items[k],
                    3,
                ) by {
                    assert(items[k] == spec_address_to_json(ms[k]));
                    lemma_address_json_ok(ms[k], 2);
                }
                lemma_ok_arr(items, 3);
            },
        }
        match u.enterprise_user {
            None => {},
            Some(e) => {
                lemma_enterprise_user_json_ok(e);
                crate::json::lemma_ok_mono(spec_enterprise_user_to_json(e), 3, 4);
            },
        }
        lemma_opt_meta_json_ok(u.meta, 3);
    }
    assert forall|i: int, k: int| 0 <= i < k < fields.len() implies (#[trigger] fields[i]).0 != (
    #[trigger] fields[k]).0 by {
        assert(fields[0].0 == "schemas"@);
        assert(fields[1].0 == "id"@);
        assert(fields[2].0 == "userName"@);
        assert(fields[3].0 == "name"@);
        assert(fields[4].0 == "displayName"@);
        assert(fields[5].0 == "active"@);
        assert(fields[6].0 == "emails"@);
        assert(fields[7].0 == "addresses"@);
        assert(fields[8].0 == "urn:ietf:params:scim:schemas:extension:enterprise:2.0:User"@);
        assert(fields[9].0 == "meta"@);
    }
    lemma_ok_obj(fields, 4);
}

/// Reading back the document form of a `User` yields it: the value-level
/// round trip under serialization.
pub proof fn lemma_user_round_trip(u: UserView)
    ensures
        spec_user_from_json(spec_user_to_json(u)) == Ok::<UserView, ErrorView>(u),
{
    reveal_strlit("schemas");
    reveal_strlit("id");
    reveal_strlit("userName");
    reveal_strlit("name");
    reveal_strlit("displayName");
    reveal_strlit("active");
    reveal_strlit("emails");
    reveal_strlit("addresses");
    reveal_strlit("urn:ietf:params:scim:schemas:extension:enterprise:2.0:User");
    reveal_strlit("meta");
    assert("active"@[0] == 'a' && "emails"@[0] == 'e');
    assert("name"@[0] == 'n' && "meta"@[0] == 'm');
    let fields = spec_user_to_json(u)->Obj_0;
    assert(fields[0] == ("schemas"@, crate::json::spec_strings_json(u.schemas)));
    assert(fields[1] == ("id"@, spec_opt_string_json(u.id)));
    assert(fields[2] == ("userName"@, SpecJson::Str(u.user_name)));
    assert(fields[3] == ("name"@, spec_opt_name_json(u.name)));
    assert(fields[4] == ("displayName"@, spec_opt_string_json(u.display_name)));
    assert(fields[6] == ("emails"@, spec_emails_json(u.emails)));
    assert(fields[7] == ("addresses"@, spec_addresses_json(u.addresses)));
    assert(fields[8] == (
        "urn:ietf:params:scim:schemas:extension:enterprise:2.0:User"@,
        spec_opt_enterprise_json(u.enterprise_user),
    ));
    assert(fields[9] == ("meta"@, spec_opt_meta_json(u.meta)));
    lemma_obj_get_at(fields, "schemas"@, 0);
    lemma_obj_get_at(fields, "id"@, 1);
    lemma_obj_get_at(fields, "userName"@, 2);
    lemma_obj_get_at(fields, "name"@, 3);
    lemma_obj_get_at(fields, "displayName"@, 4);
    lemma_obj_get_at(fields, "active"@, 5);
    lemma_obj_get_at(fields, "emails"@, 6);
    lemma_obj_get_at(fields, "addresses"@, 7);
    lemma_obj_get_at(fields, "urn:ietf:params:scim:schemas:extension:enterprise:2.0:User"@, 8);
    lemma_obj_get_at(fields, "meta"@, 9);
    lemma_strings_round_trip(u.schemas);
    lemma_opt_string_round_trip(u.id);
    lemma_opt_string_round_trip(u.display_name);
    match u.name {
        None => {},
        Some(m) => {
            lemma_name_round_trip(m);
        },
    }
    match u.emails {
        None => {},
        Some(ms) => {
            lemma_emails_of_round_trip(ms);
        },
    }
    match u.addresses {
        None => {},
        Some(ms) => {
            lemma_addresses_of_round_trip(ms);
        },
    }
    match u.enterprise_user {
        None => {},
        Some(e) => {
            lemma_enterprise_user_round_trip(e);
        },
    }
    lemma_opt_meta_round_trip(u.meta);
    assert(spec_user_from_json(spec_user_to_json(u))->Ok_0 =~= u);
}


impl TryFrom<&str> for User {
    type Error = SCIMError;

    /// Constructs a `User` from JSON text, as [`User::deserialize`] does.
    fn try_from(value: &str) -> (r: Result<User, SCIMError>)
        ensures
            res_view(r) == spec_user_deserialize(value@),
    {
        User::deserialize(value)
    }
}

impl vstd::std_specs::convert::TryFromSpecImpl<&str> for User {
    /// The conversion's result holds owned strings, which a specification
    /// cannot construct, so its contract stands on the `try_from` method
    /// itself rather than through this hook.
    open spec fn obeys_try_from_spec() -> bool {
        false
    }

    open spec fn try_from_spec(v: &str) -> Result<User, SCIMError> {
        Err(SCIMError::InvalidJsonFormat)
    }
}
} // verus!
