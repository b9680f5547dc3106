//! The enterprise extension attached to a user: organisational attributes
//! keyed by the extension's own schema URN.

use vstd::prelude::*;

use crate::json::{
    fe_error, fe_msg, field_opt_string, json_ok, lemma_fields_deep_view, lemma_obj_get_at,
    lemma_ok_obj, lemma_ok_printable, lemma_opt_string_round_trip, lemma_spec_json_fields,
    not_object_error, not_object_msg, obj_get, opt_string_json, parse_json, print_json, res_view,
    spec_field_opt_string, spec_json, spec_json_fields, spec_obj_get, spec_opt_string_json,
    spec_parse_json, spec_print_json, JsonValue, SpecJson,
};
use crate::utils::error::{ErrorView, SCIMError};

verus! {

/// Enterprise attributes of a user. Every field is optional at the type
/// level; this library's validation policy requires all of them present.
#[derive(Debug, PartialEq)]
pub struct EnterpriseUser {
    pub employee_number: Option<String>,
    pub cost_center: Option<String>,
    pub organization: Option<String>,
    pub division: Option<String>,
    pub department: Option<String>,
    pub manager: Option<Manager>,
}

/// Reference to a user's manager; identification by `value` or `$ref` alone
/// is permitted, so each component is optional.
#[derive(Debug, PartialEq)]
pub struct Manager {
    pub value: Option<String>,
    pub ref_: Option<String>,
    pub display_name: Option<String>,
}

/// Mathematical model of `EnterpriseUser`.
#[verifier::ext_equal]
pub struct EnterpriseUserView {
    pub employee_number: Option<Seq<char>>,
    pub cost_center: Option<Seq<char>>,
    pub organization: Option<Seq<char>>,
    pub division: Option<Seq<char>>,
    pub department: Option<Seq<char>>,
    pub manager: Option<ManagerView>,
}

/// Mathematical model of `Manager`.
#[verifier::ext_equal]
pub struct ManagerView {
    pub value: Option<Seq<char>>,
    pub ref_: Option<Seq<char>>,
    pub display_name: Option<Seq<char>>,
}

impl DeepView for EnterpriseUser {
    type V = EnterpriseUserView;

    open spec fn deep_view(&self) -> EnterpriseUserView {
        EnterpriseUserView {
            employee_number: self.employee_number.deep_view(),
            cost_center: self.cost_center.deep_view(),
            organization: self.organization.deep_view(),
            division: self.division.deep_view(),
            department: self.department.deep_view(),
            manager: self.manager.deep_view(),
        }
    }
}

impl DeepView for Manager {
    type V = ManagerView;

    open spec fn deep_view(&self) -> ManagerView {
        ManagerView {
            value: self.value.deep_view(),
            ref_: self.ref_.deep_view(),
            display_name: self.display_name.deep_view(),
        }
    }
}

/// What validation returns: the first absent field in declaration order, or
/// success when all six are present. Only presence is consulted, never the
/// content of a populated slot.
pub open spec fn spec_validate_enterprise_user(e: EnterpriseUserView) -> Result<(), ErrorView> {
    if e.employee_number is None {
        Err(ErrorView::MissingRequiredField("employee_number"@))
    } else if e.cost_center is None {
        Err(ErrorView::MissingRequiredField("cost_center"@))
    } else if e.organization is None {
        Err(ErrorView::MissingRequiredField("organization"@))
    } else if e.division is None {
        Err(ErrorView::MissingRequiredField("division"@))
    } else if e.department is None {
        Err(ErrorView::MissingRequiredField("department"@))
    } else if e.manager is None {
        Err(ErrorView::MissingRequiredField("manager"@))
    } else {
        Ok(())
    }
}

impl Default for EnterpriseUser {
    /// The default record: every optional slot unset.
    fn default() -> (d: Self)
        ensures
            d.deep_view() == spec_default_enterprise_user(),
    {
        EnterpriseUser {
            employee_number: None,
            cost_center: None,
            organization: None,
            division: None,
            department: None,
            manager: None,
        }
    }
}

/// The model of `EnterpriseUser::default()`.
pub open spec fn spec_default_enterprise_user() -> EnterpriseUserView {
    EnterpriseUserView {
        employee_number: None,
        cost_center: None,
        organization: None,
        division: None,
        department: None,
        manager: None,
    }
}

impl EnterpriseUser {
    /// Validates the record: each of the six required slots must be present,
    /// checked in declaration order; the first absent one is reported.
    pub fn validate(&self) -> (r: Result<(), SCIMError>)
        ensures
            crate::json::res_view(r) == spec_validate_enterprise_user(self.deep_view()),
    {
        if self.employee_number.is_none() {
            return Err(SCIMError::MissingRequiredField(String::from_str("employee_number")));
        }
        if self.cost_center.is_none() {
            return Err(SCIMError::MissingRequiredField(String::from_str("cost_center")));
        }
        if self.organization.is_none() {
            return Err(SCIMError::MissingRequiredField(String::from_str("organization")));
        }
        if self.division.is_none() {
            return Err(SCIMError::MissingRequiredField(String::from_str("division")));
        }
        if self.department.is_none() {
            return Err(SCIMError::MissingRequiredField(String::from_str("department")));
        }
        if self.manager.is_none() {
            return Err(SCIMError::MissingRequiredField(String::from_str("manager")));
        }
        Ok(())
    }
}

/// Validation consults presence alone: two records whose slots are populated
/// in the same places validate identically, whatever the populated values.
pub proof fn lemma_validate_ignores_content(a: EnterpriseUserView, b: EnterpriseUserView)
    requires
        a.employee_number is Some <==> b.employee_number is Some,
        a.cost_center is Some <==> b.cost_center is Some,
        a.organization is Some <==> b.organization is Some,
        a.division is Some <==> b.division is Some,
        a.department is Some <==> b.department is Some,
        a.manager is Some <==> b.manager is Some,
    ensures
        spec_validate_enterprise_user(a) == spec_validate_enterprise_user(b),
{
}


/// What reading a `Manager` from a document yields.
pub open spec fn spec_manager_from_json(j: SpecJson) -> Result<ManagerView, ErrorView> {
    match j {
        SpecJson::Obj(fields) => match spec_field_opt_string(spec_obj_get(fields, "value"@)) {
            Err(e) => Err(fe_msg("value"@, e)),
            Ok(value) => match spec_field_opt_string(spec_obj_get(fields, "$ref"@)) {
                Err(e) => Err(fe_msg("$ref"@, e)),
                Ok(ref_) => match spec_field_opt_string(spec_obj_get(fields, "displayName"@)) {
                    Err(e) => Err(fe_msg("displayName"@, e)),
                    Ok(display_name) => Ok(ManagerView { value, ref_, display_name }),
                },
            },
        },
        _ => Err(not_object_msg()),
    }
}

/// The document form of a `Manager`.
pub open spec fn spec_manager_to_json(m: ManagerView) -> SpecJson {
    SpecJson::Obj(
        seq![
            ("value"@, spec_opt_string_json(m.value)),
            ("$ref"@, spec_opt_string_json(m.ref_)),
            ("displayName"@, spec_opt_string_json(m.display_name)),
        ],
    )
}

impl Manager {
    /// Reads a `Manager` from a document tree.
    pub fn from_json_value(v: &JsonValue) -> (r: Result<Manager, SCIMError>)
        ensures
            res_view(r) == spec_manager_from_json(v.deep_view()),
    {
        let fields = match v {
            JsonValue::Obj(fields) => fields,
            _ => {
                return Err(not_object_error());
            },
        };
        proof {
            lemma_fields_deep_view(*fields);
        }
        let value = match field_opt_string(obj_get(fields, "value")) {
            Ok(x) => x,
            Err(e) => {
                return Err(fe_error("value", e));
            },
        };
        let ref_ = match field_opt_string(obj_get(fields, "$ref")) {
            Ok(x) => x,
            Err(e) => {
                return Err(fe_error("$ref", e));
            },
        };
        let display_name = match field_opt_string(obj_get(fields, "displayName")) {
            Ok(x) => x,
            Err(e) => {
                return Err(fe_error("displayName", e));
            },
        };
        Ok(Manager { value, ref_, display_name })
    }

    /// Writes the `Manager` as a document tree.
    pub fn to_json_value(&self) -> (r: JsonValue)
        ensures
            r.deep_view() == spec_manager_to_json(self.deep_view()),
    {
        let mut fields: Vec<(String, JsonValue)> = Vec::new();
        fields.push((String::from_str("value"), opt_string_json(&self.value)));
        fields.push((String::from_str("$ref"), opt_string_json(&self.ref_)));
        fields.push((String::from_str("displayName"), opt_string_json(&self.display_name)));
        proof {
            lemma_spec_json_fields(fields@);
            let target = spec_manager_to_json(self.deep_view())->Obj_0;
            assert(fields@.len() == 3);
            assert forall|k: int| 0 <= k < 3 implies spec_json_fields(fields@)[k] == target[k] by {
                assert(spec_json_fields(fields@)[k] == (fields@[k].0@, spec_json(fields@[k].1)));
            }
            assert(spec_json_fields(fields@) =~= target);
        }
        JsonValue::Obj(fields)
    }
}

/// A `Manager` is well-formed document data at any positive depth.
pub proof fn lemma_manager_json_ok(m: ManagerView, n: nat)
    ensures
        json_ok(spec_manager_to_json(m), n + 1),
{
    let fields = spec_manager_to_json(m)->Obj_0;
    reveal_strlit("value");
    reveal_strlit("$ref");
    reveal_strlit("displayName");
    assert(fields.len() == 3);
    assert forall|i: int| 0 <= i < fields.len() implies json_ok((#[trigger] fields[i]).1, n) by {
        assert(fields[0].1 == spec_opt_string_json(m.value));
        assert(fields[1].1 == spec_opt_string_json(m.ref_));
        assert(fields[2].1 == spec_opt_string_json(m.display_name));
    }
    assert forall|i: int, k: int| 0 <= i < k < fields.len() implies (#[trigger] fields[i]).0 != (
    #[trigger] fields[k]).0 by {
        assert(fields[0].0 == "value"@);
        assert(fields[1].0 == "$ref"@);
        assert(fields[2].0 == "displayName"@);
    }
    lemma_ok_obj(fields, n);
}

/// Reading back the document form of a `Manager` yields it.
pub proof fn lemma_manager_round_trip(m: ManagerView)
    ensures
        spec_manager_from_json(spec_manager_to_json(m)) == Ok::<ManagerView, ErrorView>(m),
{
    reveal_strlit("value");
    reveal_strlit("$ref");
    reveal_strlit("displayName");
    let fields = spec_manager_to_json(m)->Obj_0;
    assert(fields[0] == ("value"@, spec_opt_string_json(m.value)));
    assert(fields[1] == ("$ref"@, spec_opt_string_json(m.ref_)));
    assert(fields[2] == ("displayName"@, spec_opt_string_json(m.display_name)));
    lemma_obj_get_at(fields, "value"@, 0);
    lemma_obj_get_at(fields, "$ref"@, 1);
    lemma_obj_get_at(fields, "displayName"@, 2);
    lemma_opt_string_round_trip(m.value);
    lemma_opt_string_round_trip(m.ref_);
    lemma_opt_string_round_trip(m.display_name);
    assert(spec_manager_from_json(spec_manager_to_json(m))->Ok_0 =~= m);
}

/// An optional `Manager` field: absent and null mean unset.
pub open spec fn spec_opt_manager(f: Option<SpecJson>) -> Result<Option<ManagerView>, ErrorView> {
    match f {
        None => Ok(None),
        Some(SpecJson::Null) => Ok(None),
        Some(j) => match spec_manager_from_json(j) {
            Ok(m) => Ok(Some(m)),
            Err(e) => Err(e),
        },
    }
}

/// Reads an optional `Manager` field.
pub fn opt_manager(f: Option<&JsonValue>) -> (r: Result<Option<Manager>, SCIMError>)
    ensures
        res_view(r) == spec_opt_manager(f.deep_view()),
{
    match f {
        None => Ok(None),
        Some(JsonValue::Null) => Ok(None),
        Some(v) => match Manager::from_json_value(v) {
            Ok(m) => Ok(Some(m)),
            Err(e) => Err(e),
        },
    }
}

/// The document form of an optional `Manager`: null when unset.
pub open spec fn spec_opt_manager_json(o: Option<ManagerView>) -> SpecJson {
    match o {
        None => SpecJson::Null,
        Some(m) => spec_manager_to_json(m),
    }
}

/// Builds the document form of an optional `Manager`.
pub fn opt_manager_json(o: &Option<Manager>) -> (r: JsonValue)
    ensures
        r.deep_view() == spec_opt_manager_json(o.deep_view()),
{
    match o {
        None => JsonValue::Null,
        Some(m) => m.to_json_value(),
    }
}

/// What reading an `EnterpriseUser` from a document yields, field by field
/// in declaration order.
pub open spec fn spec_enterprise_user_from_json(j: SpecJson) -> Result<
    EnterpriseUserView,
    ErrorView,
> {
    match j {
        SpecJson::Obj(fields) => match spec_field_opt_string(
            spec_obj_get(fields, "employeeNumber"@),
        ) {
            Err(e) => Err(fe_msg("employeeNumber"@, e)),
            Ok(employee_number) => match spec_field_opt_string(
                spec_obj_get(fields, "costCenter"@),
            ) {
                Err(e) => Err(fe_msg("costCenter"@, e)),
                Ok(cost_center) => match spec_field_opt_string(
                    spec_obj_get(fields, "organization"@),
                ) {
                    Err(e) => Err(fe_msg("organization"@, e)),
                    Ok(organization) => match spec_field_opt_string(
                        spec_obj_get(fields, "division"@),
                    ) {
                        Err(e) => Err(fe_msg("division"@, e)),
                        Ok(division) => match spec_field_opt_string(
                            spec_obj_get(fields, "department"@),
                        ) {
                            Err(e) => Err(fe_msg("department"@, e)),
                            Ok(department) => match spec_opt_manager(
                                spec_obj_get(fields, "manager"@),
                            ) {
                                Err(e) => Err(e),
                                Ok(manager) => Ok(
                                    EnterpriseUserView {
                                        employee_number,
                                        cost_center,
                                        organization,
                                        division,
                                        department,
                                        manager,
                                    },
                                ),
                            },
                        },
                    },
                },
            },
        },
        _ => Err(not_object_msg()),
    }
}

/// The document form of an `EnterpriseUser`.
pub open spec fn spec_enterprise_user_to_json(e: EnterpriseUserView) -> SpecJson {
    SpecJson::Obj(
        seq![
            ("employeeNumber"@, spec_opt_string_json(e.employee_number)),
            ("costCenter"@, spec_opt_string_json(e.cost_center)),
            ("organization"@, spec_opt_string_json(e.organization)),
            ("division"@, spec_opt_string_json(e.division)),
            ("department"@, spec_opt_string_json(e.department)),
            ("manager"@, spec_opt_manager_json(e.manager)),
        ],
    )
}

/// What deserializing a text yields: the parse error verbatim, or the
/// record read from the parsed document.
pub open spec fn spec_enterprise_user_deserialize(s: Seq<char>) -> Result<
    EnterpriseUserView,
    ErrorView,
> {
    match spec_parse_json(s) {
        Ok(j) => spec_enterprise_user_from_json(j),
        Err(m) => Err(ErrorView::DeserializationError(m)),
    }
}

impl EnterpriseUser {
    /// Reads an `EnterpriseUser` from a document tree.
    pub fn from_json_value(v: &JsonValue) -> (r: Result<EnterpriseUser, SCIMError>)
        ensures
            res_view(r) == spec_enterprise_user_from_json(v.deep_view()),
    {
        let fields = match v {
            JsonValue::Obj(fields) => fields,
            _ => {
                return Err(not_object_error());
            },
        };
        proof {
            lemma_fields_deep_view(*fields);
        }
        let employee_number = match field_opt_string(obj_get(fields, "employeeNumber")) {
            Ok(x) => x,
            Err(e) => {
                return Err(fe_error("employeeNumber", e));
            },
        };
        let cost_center = match field_opt_string(obj_get(fields, "costCenter")) {
            Ok(x) => x,
            Err(e) => {
                return Err(fe_error("costCenter", e));
            },
        };
        let organization = match field_opt_string(obj_get(fields, "organization")) {
            Ok(x) => x,
            Err(e) => {
                return Err(fe_error("organization", e));
            },
        };
        let division = match field_opt_string(obj_get(fields, "division")) {
            Ok(x) => x,
            Err(e) => {
                return Err(fe_error("division", e));
            },
        };
        let department = match field_opt_string(obj_get(fields, "department")) {
            Ok(x) => x,
            Err(e) => {
                return Err(fe_error("department", e));
            },
        };
        let manager = match opt_manager(obj_get(fields, "manager")) {
            Ok(x) => x,
            Err(e) => {
                return Err(e);
            },
        };
        Ok(
            EnterpriseUser {
                employee_number,
                cost_center,
                organization,
                division,
                department,
                manager,
            },
        )
    }

    /// Writes the `EnterpriseUser` as a document tree.
    pub fn to_json_value(&self) -> (r: JsonValue)
        ensures
            r.deep_view() == spec_enterprise_user_to_json(self.deep_view()),
    {
        let mut fields: Vec<(String, JsonValue)> = Vec::new();
        fields.push((String::from_str("employeeNumber"), opt_string_json(&self.employee_number)));
        fields.push((String::from_str("costCenter"), opt_string_json(&self.cost_center)));
        fields.push((String::from_str("organization"), opt_string_json(&self.organization)));
        fields.push((String::from_str("division"), opt_string_json(&self.division)));
        fields.push((String::from_str("department"), opt_string_json(&self.department)));
        fields.push((String::from_str("manager"), opt_manager_json(&self.manager)));
        proof {
            lemma_spec_json_fields(fields@);
            let target = spec_enterprise_user_to_json(self.deep_view())->Obj_0;
            assert(fields@.len() == 6);
            assert forall|k: int| 0 <= k < 6 implies spec_json_fields(fields@)[k] == target[k] by {
                assert(spec_json_fields(fields@)[k] == (fields@[k].0@, spec_json(fields@[k].1)));
            }
            assert(spec_json_fields(fields@) =~= target);
        }
        JsonValue::Obj(fields)
    }

    /// Serializes the record to its JSON text. Never fails; deserializing
    /// the text yields this record back.
    pub fn serialize(&self) -> (r: Result<String, SCIMError>)
        ensures
            r is Ok,
            r matches Ok(s) ==> s@ == spec_print_json(
                spec_enterprise_user_to_json(self.deep_view()),
            ),
            r matches Ok(s) ==> spec_enterprise_user_deserialize(s@) == Ok::<
                EnterpriseUserView,
                ErrorView,
            >(self.deep_view()),
    {
        let j = self.to_json_value();
        proof {
            lemma_enterprise_user_json_ok(self.deep_view());
            lemma_ok_printable(spec_enterprise_user_to_json(self.deep_view()), 3);
            lemma_enterprise_user_round_trip(self.deep_view());
        }
        Ok(print_json(&j))
    }

    /// Deserializes a record from JSON text: the parse error verbatim when
    /// the text is not JSON, otherwise the fields read from the document.
    pub fn deserialize(s: &str) -> (r: Result<EnterpriseUser, SCIMError>)
        ensures
            res_view(r) == spec_enterprise_user_deserialize(s@),
    {
        match parse_json(s) {
            Ok(j) => EnterpriseUser::from_json_value(&j),
            Err(m) => Err(SCIMError::DeserializationError(m)),
        }
    }
}

/// An `EnterpriseUser`'s document form is well-formed at depth three.
pub proof fn lemma_enterprise_user_json_ok(e: EnterpriseUserView)
    ensures
        json_ok(spec_enterprise_user_to_json(e), 3),
{
    let fields = spec_enterprise_user_to_json(e)->Obj_0;
    reveal_strlit("employeeNumber");
    reveal_strlit("costCenter");
    reveal_strlit("organization");
    reveal_strlit("division");
    reveal_strlit("department");
    reveal_strlit("manager");
    assert("costCenter"@[0] == 'c' && "department"@[0] == 'd');
    assert(fields.len() == 6);
    assert forall|i: int| 0 <= i < fields.len() implies json_ok((#[trigger] fields[i]).1, 2) by {
        assert(fields[0].1 == spec_opt_string_json(e.employee_number));
        assert(fields[1].1 == spec_opt_string_json(e.cost_center));
        assert(fields[2].1 == spec_opt_string_json(e.organization));
        assert(fields[3].1 == spec_opt_string_json(e.division));
        assert(fields[4].1 == spec_opt_string_json(e.department));
        assert(fields[5].1 == spec_opt_manager_json(e.manager));
        match e.manager {
            None => {},
            Some(m) => {
                lemma_manager_json_ok(m, 1);
            },
        }
    }
    assert forall|i: int, k: int| 0 <= i < k < fields.len() implies (#[trigger] fields[i]).0 != (
    #[trigger] fields[k]).0 by {
        assert(fields[0].0 == "employeeNumber"@);
        assert(fields[1].0 == "costCenter"@);
        assert(fields[2].0 == "organization"@);
        assert(fields[3].0 == "division"@);
        assert(fields[4].0 == "department"@);
        assert(fields[5].0 == "manager"@);
    }
    lemma_ok_obj(fields, 2);
}

/// Reading back the document form of an `EnterpriseUser` yields it: the
/// value-level round trip under serialization.
pub proof fn lemma_enterprise_user_round_trip(e: EnterpriseUserView)
    ensures
        spec_enterprise_user_from_json(spec_enterprise_user_to_json(e)) == Ok::<
            EnterpriseUserView,
            ErrorView,
        >(e),
{
    reveal_strlit("employeeNumber");
    reveal_strlit("costCenter");
    reveal_strlit("organization");
    reveal_strlit("division");
    reveal_strlit("department");
    reveal_strlit("manager");
    assert("costCenter"@[0] == 'c' && "department"@[0] == 'd');
    let fields = spec_enterprise_user_to_json(e)->Obj_0;
    assert(fields[0] == ("employeeNumber"@, spec_opt_string_json(e.employee_number)));
    assert(fields[1] == ("costCenter"@, spec_opt_string_json(e.cost_center)));
    assert(fields[2] == ("organization"@, spec_opt_string_json(e.organization)));
    assert(fields[3] == ("division"@, spec_opt_string_json(e.division)));
    assert(fields[4] == ("department"@, spec_opt_string_json(e.department)));
    assert(fields[5] == ("manager"@, spec_opt_manager_json(e.manager)));
    lemma_obj_get_at(fields, "employeeNumber"@, 0);
    lemma_obj_get_at(fields, "costCenter"@, 1);
    lemma_obj_get_at(fields, "organization"@, 2);
    lemma_obj_get_at(fields, "division"@, 3);
    lemma_obj_get_at(fields, "department"@, 4);
    lemma_obj_get_at(fields, "manager"@, 5);
    lemma_opt_string_round_trip(e.employee_number);
    lemma_opt_string_round_trip(e.cost_center);
    lemma_opt_string_round_trip(e.organization);
    lemma_opt_string_round_trip(e.division);
    lemma_opt_string_round_trip(e.department);
    match e.manager {
        None => {},
        Some(m) => {
            lemma_manager_round_trip(m);
        },
    }
    assert(spec_enterprise_user_from_json(spec_enterprise_user_to_json(e))->Ok_0 =~= e);
}


impl TryFrom<&str> for EnterpriseUser {
    type Error = SCIMError;

    /// Constructs a `EnterpriseUser` from JSON text, as [`EnterpriseUser::deserialize`] does.
    fn try_from(value: &str) -> (r: Result<EnterpriseUser, SCIMError>)
        ensures
            res_view(r) == spec_enterprise_user_deserialize(value@),
    {
        EnterpriseUser::deserialize(value)
    }
}

impl vstd::std_specs::convert::TryFromSpecImpl<&str> for EnterpriseUser {
    /// The conversion's result holds owned strings, which a specification
    /// cannot construct, so its contract stands on the `try_from` method
    /// itself rather than through this hook.
    open spec fn obeys_try_from_spec() -> bool {
        false
    }

    open spec fn try_from_spec(v: &str) -> Result<EnterpriseUser, SCIMError> {
        Err(SCIMError::InvalidJsonFormat)
    }
}
} // verus!
