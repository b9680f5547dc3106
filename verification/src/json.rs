//! The JSON document model that every resource maps to and from.
//!
//! A document is held as a [`JsonValue`] tree of plain values; its
//! mathematical model is [`SpecJson`]. Turning text into a tree and back is
//! delegated to the `serde_json` crate behind two trusted wrappers; all
//! interpretation of a tree (which fields a resource reads, which shapes it
//! rejects) is verified code in the model modules.

use vstd::prelude::*;

verus! {

/// Mathematical model of a JSON document. Object members keep their textual
/// order; a number is a non-negative integer, a negative integer, or
/// `NonIntegral` when it fits no integer type.
#[verifier::ext_equal]
pub enum SpecJson {
    Null,
    Bool(bool),
    Nat(u64),
    Int(i64),
    NonIntegral,
    Str(Seq<char>),
    Arr(Seq<SpecJson>),
    Obj(Seq<(Seq<char>, SpecJson)>),
}

/// A JSON document as exchanged with the serialization boundary. Mirrors
/// [`SpecJson`] with executable types.
#[derive(Debug, PartialEq)]
pub enum JsonValue {
    Null,
    Bool(bool),
    Nat(u64),
    Int(i64),
    NonIntegral,
    Str(String),
    Arr(Vec<JsonValue>),
    Obj(Vec<(String, JsonValue)>),
}

/// The model of a document tree.
pub open spec fn spec_json(v: JsonValue) -> SpecJson
    decreases v,
{
    match v {
        JsonValue::Null => SpecJson::Null,
        JsonValue::Bool(b) => SpecJson::Bool(b),
        JsonValue::Nat(n) => SpecJson::Nat(n),
        JsonValue::Int(i) => SpecJson::Int(i),
        JsonValue::NonIntegral => SpecJson::NonIntegral,
        JsonValue::Str(s) => SpecJson::Str(s@),
        JsonValue::Arr(items) => {
            proof {
                broadcast use vstd::std_specs::vec::group_vec_axioms;

                assert(decreases_to!(v => items));
            }
            SpecJson::Arr(spec_json_seq(items@))
        },
        JsonValue::Obj(fields) => {
            proof {
                broadcast use vstd::std_specs::vec::group_vec_axioms;

                assert(decreases_to!(v => fields));
            }
            SpecJson::Obj(spec_json_fields(fields@))
        },
    }
}

/// The models of the elements of an array.
pub open spec fn spec_json_seq(s: Seq<JsonValue>) -> Seq<SpecJson>
    decreases s,
{
    if s.len() == 0 {
        Seq::empty()
    } else {
        seq![spec_json(s[0])] + spec_json_seq(s.subrange(1, s.len() as int))
    }
}

/// The models of the members of an object.
pub open spec fn spec_json_fields(s: Seq<(String, JsonValue)>) -> Seq<(Seq<char>, SpecJson)>
    decreases s,
{
    if s.len() == 0 {
        Seq::empty()
    } else {
        seq![(s[0].0@, spec_json(s[0].1))] + spec_json_fields(s.subrange(1, s.len() as int))
    }
}

/// The element models are pointwise models of the elements.
pub proof fn lemma_spec_json_seq(s: Seq<JsonValue>)
    ensures
        spec_json_seq(s).len() == s.len(),
        forall|i: int| 0 <= i < s.len() ==> spec_json_seq(s)[i] == spec_json(#[trigger] s[i]),
    decreases s.len(),
{
    if s.len() > 0 {
        let t = s.subrange(1, s.len() as int);
        lemma_spec_json_seq(t);
        assert forall|i: int| 0 <= i < s.len() implies spec_json_seq(s)[i] == spec_json(
            #[trigger] s[i],
        ) by {
            if i > 0 {
                assert(t[i - 1] == s[i]);
                assert(spec_json_seq(s)[i] == spec_json_seq(t)[i - 1]);
            }
        }
    }
}

/// The member models are pointwise models of the members.
pub proof fn lemma_spec_json_fields(s: Seq<(String, JsonValue)>)
    ensures
        spec_json_fields(s).len() == s.len(),
        forall|i: int|
            0 <= i < s.len() ==> spec_json_fields(s)[i] == ((#[trigger] s[i]).0@, spec_json(
                s[i].1,
            )),
    decreases s.len(),
{
    if s.len() > 0 {
        let t = s.subrange(1, s.len() as int);
        lemma_spec_json_fields(t);
        assert forall|i: int| 0 <= i < s.len() implies spec_json_fields(s)[i] == ((
        #[trigger] s[i]).0@, spec_json(s[i].1)) by {
            if i > 0 {
                assert(t[i - 1] == s[i]);
                assert(spec_json_fields(s)[i] == spec_json_fields(t)[i - 1]);
            }
        }
    }
}

impl DeepView for JsonValue {
    type V = SpecJson;

    open spec fn deep_view(&self) -> SpecJson {
        spec_json(*self)
    }
}

/// The two views of an object's member vector agree.
pub proof fn lemma_fields_deep_view(fields: Vec<(String, JsonValue)>)
    ensures
        fields.deep_view() == spec_json_fields(fields@),
{
    lemma_spec_json_fields(fields@);
    assert(fields.deep_view() =~= spec_json_fields(fields@));
}

/// Integers are in canonical form: every `Int` is negative (a non-negative
/// integer is always held as `Nat`). Parsed documents have this shape.
pub open spec fn json_num_canonical(j: SpecJson) -> bool
    decreases j,
{
    match j {
        SpecJson::Int(i) => i < 0,
        SpecJson::Arr(items) => forall|i: int|
            0 <= i < items.len() ==> json_num_canonical(#[trigger] items[i]),
        SpecJson::Obj(fields) => forall|i: int|
            0 <= i < fields.len() ==> json_num_canonical(#[trigger] fields[i].1),
        _ => true,
    }
}

/// No object holds two members with the same name.
pub open spec fn json_keys_unique(j: SpecJson) -> bool
    decreases j,
{
    match j {
        SpecJson::Arr(items) => forall|i: int|
            0 <= i < items.len() ==> json_keys_unique(#[trigger] items[i]),
        SpecJson::Obj(fields) => {
            &&& forall|i: int, k: int|
                0 <= i < k < fields.len() ==> (#[trigger] fields[i].0) != (#[trigger] fields[k].0)
            &&& forall|i: int| 0 <= i < fields.len() ==> json_keys_unique(#[trigger] fields[i].1)
        },
        _ => true,
    }
}

/// Every number in the document is an integer.
pub open spec fn json_integral(j: SpecJson) -> bool
    decreases j,
{
    match j {
        SpecJson::NonIntegral => false,
        SpecJson::Arr(items) => forall|i: int|
            0 <= i < items.len() ==> json_integral(#[trigger] items[i]),
        SpecJson::Obj(fields) => forall|i: int|
            0 <= i < fields.len() ==> json_integral(#[trigger] fields[i].1),
        _ => true,
    }
}

/// Containers nest at most `n` levels deep.
pub open spec fn json_depth_le(j: SpecJson, n: nat) -> bool
    decreases j,
{
    match j {
        SpecJson::Arr(items) => n > 0 && forall|i: int|
            0 <= i < items.len() ==> json_depth_le(#[trigger] items[i], (n - 1) as nat),
        SpecJson::Obj(fields) => n > 0 && forall|i: int|
            0 <= i < fields.len() ==> json_depth_le(#[trigger] fields[i].1, (n - 1) as nat),
        _ => true,
    }
}

/// The class of documents the printer accepts: canonical integers, unique
/// member names, shallow nesting. Printing such a document and parsing the
/// text yields the document back.
pub open spec fn json_printable(j: SpecJson) -> bool {
    json_num_canonical(j) && json_keys_unique(j) && json_integral(j) && json_depth_le(j, 100)
}

/// The first member with the given name, if any.
pub open spec fn spec_obj_get(fields: Seq<(Seq<char>, SpecJson)>, key: Seq<char>) -> Option<
    SpecJson,
>
    decreases fields.len(),
{
    if fields.len() == 0 {
        None
    } else if fields[0].0 == key {
        Some(fields[0].1)
    } else {
        spec_obj_get(fields.drop_first(), key)
    }
}

/// Evaluates a lookup: the member at `i` is the first whose name matches.
pub proof fn lemma_obj_get_at(fields: Seq<(Seq<char>, SpecJson)>, key: Seq<char>, i: int)
    requires
        0 <= i < fields.len(),
        fields[i].0 == key,
        forall|k: int| 0 <= k < i ==> (#[trigger] fields[k]).0 != key,
    ensures
        spec_obj_get(fields, key) == Some(fields[i].1),
    decreases i,
{
    if i > 0 {
        let t = fields.drop_first();
        assert(fields[0].0 != key);
        assert(t[i - 1] == fields[i]);
        assert forall|k: int| 0 <= k < i - 1 implies (#[trigger] t[k]).0 != key by {
            assert(t[k] == fields[k + 1]);
        }
        lemma_obj_get_at(t, key, i - 1);
    }
}

/// Evaluates a lookup of a name no member carries.
pub proof fn lemma_obj_get_absent(fields: Seq<(Seq<char>, SpecJson)>, key: Seq<char>)
    requires
        forall|k: int| 0 <= k < fields.len() ==> (#[trigger] fields[k]).0 != key,
    ensures
        spec_obj_get(fields, key) is None,
    decreases fields.len(),
{
    if fields.len() > 0 {
        let t = fields.drop_first();
        assert forall|k: int| 0 <= k < t.len() implies (#[trigger] t[k]).0 != key by {
            assert(t[k] == fields[k + 1]);
        }
        lemma_obj_get_absent(t, key);
    }
}

/// Relies on `str`'s `PartialEq`: two slices are equal exactly when their
/// character sequences are.
#[verifier::external_body]
pub(crate) fn str_eq(a: &str, b: &str) -> (r: bool)
    ensures
        r == (a@ == b@),
{
    a == b
}

/// Looks a member up by name, returning the first match.
pub fn obj_get<'a>(fields: &'a Vec<(String, JsonValue)>, key: &str) -> (r: Option<&'a JsonValue>)
    ensures
        match r {
            Some(v) => spec_obj_get(fields.deep_view(), key@) == Some(v.deep_view()),
            None => spec_obj_get(fields.deep_view(), key@) is None,
        },
{
    let ghost dv = fields.deep_view();
    proof {
        assert(dv.skip(0) =~= dv);
    }
    let n = fields.len();
    for i in 0..n
        invariant
            n == fields.len(),
            dv == fields.deep_view(),
            dv.len() == n,
            spec_obj_get(dv, key@) == spec_obj_get(dv.skip(i as int), key@),
            forall|k: int| 0 <= k < dv.len() ==> #[trigger] dv[k] == (fields@[k].0@, spec_json(
                fields@[k].1,
            )),
    {
        let entry = &fields[i];
        proof {
            assert(dv.skip(i as int)[0] == dv[i as int]);
        }
        if str_eq(entry.0.as_str(), key) {
            return Some(&entry.1);
        }
        proof {
            assert(dv.skip(i as int).drop_first() =~= dv.skip(i as int + 1));
        }
    }
    proof {
        assert(dv.skip(n as int) =~= Seq::empty());
    }
    None
}

/// How reading one field of an object can fail: the field is absent though
/// required, or present with the wrong shape.
#[derive(Clone, Copy, Debug, PartialEq)]
pub enum FieldError {
    Missing,
    Invalid,
}

impl DeepView for FieldError {
    type V = FieldError;

    open spec fn deep_view(&self) -> FieldError {
        *self
    }
}

/// A required string field: absent is `Missing`; anything but a string
/// (null included) is `Invalid`.
pub open spec fn spec_field_string(f: Option<SpecJson>) -> Result<Seq<char>, FieldError> {
    match f {
        None => Err(FieldError::Missing),
        Some(SpecJson::Str(s)) => Ok(s),
        Some(_) => Err(FieldError::Invalid),
    }
}

/// Reads a required string field.
pub fn field_string(f: Option<&JsonValue>) -> (r: Result<String, FieldError>)
    ensures
        res_view(r) == spec_field_string(f.deep_view()),
{
    match f {
        None => Err(FieldError::Missing),
        Some(JsonValue::Str(s)) => Ok(s.clone()),
        Some(_) => Err(FieldError::Invalid),
    }
}

/// An optional string field: absent and null mean unset.
pub open spec fn spec_field_opt_string(f: Option<SpecJson>) -> Result<
    Option<Seq<char>>,
    FieldError,
> {
    match f {
        None => Ok(None),
        Some(SpecJson::Null) => Ok(None),
        Some(SpecJson::Str(s)) => Ok(Some(s)),
        Some(_) => Err(FieldError::Invalid),
    }
}

/// Reads an optional string field.
pub fn field_opt_string(f: Option<&JsonValue>) -> (r: Result<Option<String>, FieldError>)
    ensures
        res_view(r) == spec_field_opt_string(f.deep_view()),
{
    match f {
        None => Ok(None),
        Some(JsonValue::Null) => Ok(None),
        Some(JsonValue::Str(s)) => Ok(Some(s.clone())),
        Some(_) => Err(FieldError::Invalid),
    }
}

/// A required boolean field.
pub open spec fn spec_field_bool(f: Option<SpecJson>) -> Result<bool, FieldError> {
    match f {
        None => Err(FieldError::Missing),
        Some(SpecJson::Bool(b)) => Ok(b),
        Some(_) => Err(FieldError::Invalid),
    }
}

/// Reads a required boolean field.
pub fn field_bool(f: Option<&JsonValue>) -> (r: Result<bool, FieldError>)
    ensures
        res_view(r) == spec_field_bool(f.deep_view()),
{
    match f {
        None => Err(FieldError::Missing),
        Some(JsonValue::Bool(b)) => Ok(*b),
        Some(_) => Err(FieldError::Invalid),
    }
}

/// An optional boolean field: absent and null mean unset.
pub open spec fn spec_field_opt_bool(f: Option<SpecJson>) -> Result<Option<bool>, FieldError> {
    match f {
        None => Ok(None),
        Some(SpecJson::Null) => Ok(None),
        Some(SpecJson::Bool(b)) => Ok(Some(b)),
        Some(_) => Err(FieldError::Invalid),
    }
}

/// Reads an optional boolean field.
pub fn field_opt_bool(f: Option<&JsonValue>) -> (r: Result<Option<bool>, FieldError>)
    ensures
        res_view(r) == spec_field_opt_bool(f.deep_view()),
{
    match f {
        None => Ok(None),
        Some(JsonValue::Null) => Ok(None),
        Some(JsonValue::Bool(b)) => Ok(Some(*b)),
        Some(_) => Err(FieldError::Invalid),
    }
}

/// A required integer field that must fit in `i64`.
pub open spec fn spec_field_i64(f: Option<SpecJson>) -> Result<i64, FieldError> {
    match f {
        None => Err(FieldError::Missing),
        Some(SpecJson::Nat(n)) => if n <= i64::MAX as u64 {
            Ok(n as i64)
        } else {
            Err(FieldError::Invalid)
        },
        Some(SpecJson::Int(i)) => Ok(i),
        Some(_) => Err(FieldError::Invalid),
    }
}

/// Reads a required integer field.
pub fn field_i64(f: Option<&JsonValue>) -> (r: Result<i64, FieldError>)
    ensures
        res_view(r) == spec_field_i64(f.deep_view()),
{
    match f {
        None => Err(FieldError::Missing),
        Some(JsonValue::Nat(n)) => if *n <= i64::MAX as u64 {
            Ok(*n as i64)
        } else {
            Err(FieldError::Invalid)
        },
        Some(JsonValue::Int(i)) => Ok(*i),
        Some(_) => Err(FieldError::Invalid),
    }
}

/// An optional integer field: absent and null mean unset.
pub open spec fn spec_field_opt_i64(f: Option<SpecJson>) -> Result<Option<i64>, FieldError> {
    match f {
        None => Ok(None),
        Some(SpecJson::Null) => Ok(None),
        Some(SpecJson::Nat(n)) => if n <= i64::MAX as u64 {
            Ok(Some(n as i64))
        } else {
            Err(FieldError::Invalid)
        },
        Some(SpecJson::Int(i)) => Ok(Some(i)),
        Some(_) => Err(FieldError::Invalid),
    }
}

/// Reads an optional integer field.
pub fn field_opt_i64(f: Option<&JsonValue>) -> (r: Result<Option<i64>, FieldError>)
    ensures
        res_view(r) == spec_field_opt_i64(f.deep_view()),
{
    match f {
        None => Ok(None),
        Some(JsonValue::Null) => Ok(None),
        Some(JsonValue::Nat(n)) => if *n <= i64::MAX as u64 {
            Ok(Some(*n as i64))
        } else {
            Err(FieldError::Invalid)
        },
        Some(JsonValue::Int(i)) => Ok(Some(*i)),
        Some(_) => Err(FieldError::Invalid),
    }
}

/// The strings of an array whose elements must all be strings; the position
/// of no element matters to failure, only whether one offends.
pub open spec fn spec_strings_of(items: Seq<SpecJson>) -> Result<Seq<Seq<char>>, FieldError>
    decreases items.len(),
{
    if items.len() == 0 {
        Ok(Seq::empty())
    } else {
        match items[0] {
            SpecJson::Str(s) => match spec_strings_of(items.subrange(1, items.len() as int)) {
                Ok(rest) => Ok(seq![s] + rest),
                Err(e) => Err(e),
            },
            _ => Err(FieldError::Invalid),
        }
    }
}

/// Converts the elements of an array into strings.
pub fn strings_of(items: &Vec<JsonValue>) -> (r: Result<Vec<String>, FieldError>)
    ensures
        res_view(r) == spec_strings_of(spec_json_seq(items@)),
{
    let ghost dv = spec_json_seq(items@);
    proof {
        lemma_spec_json_seq(items@);
        assert(dv.skip(0) =~= dv);
    }
    let mut out: Vec<String> = Vec::new();
    let n = items.len();
    for i in 0..n
        invariant
            n == items.len(),
            dv == spec_json_seq(items@),
            dv.len() == n,
            forall|k: int| 0 <= k < n ==> dv[k] == spec_json(#[trigger] items@[k]),
            out.deep_view().len() == i,
            spec_strings_of(dv) == match spec_strings_of(dv.skip(i as int)) {
                Ok(rest) => Ok::<Seq<Seq<char>>, FieldError>(out.deep_view() + rest),
                Err(e) => Err::<Seq<Seq<char>>, FieldError>(e),
            },
    {
        proof {
            assert(dv.skip(i as int)[0] == dv[i as int]);
            assert(dv.skip(i as int).subrange(1, dv.skip(i as int).len() as int) =~= dv.skip(
                i as int + 1,
            ));
        }
        match &items[i] {
            JsonValue::Str(s) => {
                let ghost prev = out.deep_view();
                let ghost elt = s@;
                out.push(s.clone());
                proof {
                    assert(out.deep_view() =~= prev + seq![elt]);
                    match spec_strings_of(dv.skip(i as int + 1)) {
                        Ok(rest) => {
                            assert((prev + seq![elt]) + rest =~= prev + (seq![elt] + rest));
                        },
                        Err(_) => {},
                    }
                }
            },
            _ => {
                return Err(FieldError::Invalid);
            },
        }
    }
    proof {
        assert(dv.skip(n as int) =~= Seq::empty());
        assert(out.deep_view() + Seq::<Seq<char>>::empty() =~= out.deep_view());
    }
    Ok(out)
}

/// A required array-of-strings field.
pub open spec fn spec_field_strings(f: Option<SpecJson>) -> Result<Seq<Seq<char>>, FieldError> {
    match f {
        None => Err(FieldError::Missing),
        Some(SpecJson::Arr(items)) => spec_strings_of(items),
        Some(_) => Err(FieldError::Invalid),
    }
}

/// Reads a required array-of-strings field.
pub fn field_strings(f: Option<&JsonValue>) -> (r: Result<Vec<String>, FieldError>)
    ensures
        res_view(r) == spec_field_strings(f.deep_view()),
{
    match f {
        None => Err(FieldError::Missing),
        Some(JsonValue::Arr(items)) => strings_of(items),
        Some(_) => Err(FieldError::Invalid),
    }
}

/// An optional array-of-strings field: absent and null mean unset.
pub open spec fn spec_field_opt_strings(f: Option<SpecJson>) -> Result<
    Option<Seq<Seq<char>>>,
    FieldError,
> {
    match f {
        None => Ok(None),
        Some(SpecJson::Null) => Ok(None),
        Some(SpecJson::Arr(items)) => match spec_strings_of(items) {
            Ok(ss) => Ok(Some(ss)),
            Err(e) => Err(e),
        },
        Some(_) => Err(FieldError::Invalid),
    }
}

/// Reads an optional array-of-strings field.
pub fn field_opt_strings(f: Option<&JsonValue>) -> (r: Result<Option<Vec<String>>, FieldError>)
    ensures
        res_view(r) == spec_field_opt_strings(f.deep_view()),
{
    match f {
        None => Ok(None),
        Some(JsonValue::Null) => Ok(None),
        Some(JsonValue::Arr(items)) => match strings_of(items) {
            Ok(ss) => Ok(Some(ss)),
            Err(e) => Err(e),
        },
        Some(_) => Err(FieldError::Invalid),
    }
}

/// The document form of an optional string: null when unset.
pub open spec fn spec_opt_string_json(o: Option<Seq<char>>) -> SpecJson {
    match o {
        None => SpecJson::Null,
        Some(s) => SpecJson::Str(s),
    }
}

/// Builds the document form of an optional string.
pub fn opt_string_json(o: &Option<String>) -> (r: JsonValue)
    ensures
        r.deep_view() == spec_opt_string_json(o.deep_view()),
{
    match o {
        None => JsonValue::Null,
        Some(s) => JsonValue::Str(s.clone()),
    }
}

/// The document form of a string sequence.
pub open spec fn spec_strings_json(ss: Seq<Seq<char>>) -> SpecJson {
    SpecJson::Arr(ss.map_values(|s: Seq<char>| SpecJson::Str(s)))
}

/// Builds the document form of a string vector.
pub fn strings_json(v: &Vec<String>) -> (r: JsonValue)
    ensures
        r.deep_view() == spec_strings_json(v.deep_view()),
{
    let mut out: Vec<JsonValue> = Vec::new();
    let n = v.len();
    for i in 0..n
        invariant
            n == v.len(),
            out@.len() == i,
            forall|k: int|
                0 <= k < i ==> spec_json(#[trigger] out@[k]) == SpecJson::Str(v.deep_view()[k]),
    {
        out.push(JsonValue::Str(v[i].clone()));
    }
    proof {
        lemma_spec_json_seq(out@);
        let target = v.deep_view().map_values(|s: Seq<char>| SpecJson::Str(s));
        assert forall|k: int| 0 <= k < out@.len() implies spec_json_seq(out@)[k] == target[k] by {
            assert(spec_json(out@[k]) == SpecJson::Str(v.deep_view()[k]));
        }
        assert(spec_json_seq(out@) =~= target);
    }
    JsonValue::Arr(out)
}

/// The document form of an optional string sequence: null when unset.
pub open spec fn spec_opt_strings_json(o: Option<Seq<Seq<char>>>) -> SpecJson {
    match o {
        None => SpecJson::Null,
        Some(ss) => spec_strings_json(ss),
    }
}

/// Builds the document form of an optional string vector.
pub fn opt_strings_json(o: &Option<Vec<String>>) -> (r: JsonValue)
    ensures
        r.deep_view() == spec_opt_strings_json(o.deep_view()),
{
    match o {
        None => JsonValue::Null,
        Some(ss) => strings_json(ss),
    }
}

/// An optional string array is well-formed document data.
pub proof fn lemma_opt_strings_json_ok(o: Option<Seq<Seq<char>>>, n: nat)
    ensures
        json_ok(spec_opt_strings_json(o), n + 1),
{
    match o {
        None => {},
        Some(ss) => {
            lemma_ok_strings(ss, n);
        },
    }
}

/// Reading back the document form of an optional string sequence yields it.
pub proof fn lemma_opt_strings_round_trip(o: Option<Seq<Seq<char>>>)
    ensures
        spec_field_opt_strings(Some(spec_opt_strings_json(o))) == Ok::<
            Option<Seq<Seq<char>>>,
            FieldError,
        >(o),
{
    match o {
        None => {},
        Some(ss) => {
            lemma_strings_round_trip(ss);
        },
    }
}

/// The document form of an integer: `Nat` when non-negative, `Int` below
/// zero, so the form is always canonical.
pub open spec fn spec_i64_json(x: i64) -> SpecJson {
    if x >= 0 {
        SpecJson::Nat(x as u64)
    } else {
        SpecJson::Int(x)
    }
}

/// Builds the document form of an integer.
pub fn i64_json(x: i64) -> (r: JsonValue)
    ensures
        r.deep_view() == spec_i64_json(x),
{
    if x >= 0 {
        JsonValue::Nat(x as u64)
    } else {
        JsonValue::Int(x)
    }
}

/// The document form of an optional integer: null when unset.
pub open spec fn spec_opt_i64_json(o: Option<i64>) -> SpecJson {
    match o {
        None => SpecJson::Null,
        Some(x) => spec_i64_json(x),
    }
}

/// Builds the document form of an optional integer.
pub fn opt_i64_json(o: &Option<i64>) -> (r: JsonValue)
    ensures
        r.deep_view() == spec_opt_i64_json(o.deep_view()),
{
    match o {
        None => JsonValue::Null,
        Some(x) => i64_json(*x),
    }
}

/// Reading back the document form of an optional integer yields it.
pub proof fn lemma_opt_i64_round_trip(o: Option<i64>)
    ensures
        spec_field_opt_i64(Some(spec_opt_i64_json(o))) == Ok::<Option<i64>, FieldError>(o),
{
}

/// Reading back the document form of an integer yields the integer.
pub proof fn lemma_i64_json_round_trip(x: i64)
    ensures
        spec_field_i64(Some(spec_i64_json(x))) == Ok::<i64, FieldError>(x),
{
}

/// Reading back the document form of an optional string yields it.
pub proof fn lemma_opt_string_round_trip(o: Option<Seq<char>>)
    ensures
        spec_field_opt_string(Some(spec_opt_string_json(o))) == Ok::<
            Option<Seq<char>>,
            FieldError,
        >(o),
{
}

/// Reading back the document form of a string sequence yields it.
pub proof fn lemma_strings_round_trip(ss: Seq<Seq<char>>)
    ensures
        spec_strings_of(spec_strings_json(ss)->Arr_0) == Ok::<Seq<Seq<char>>, FieldError>(ss),
    decreases ss.len(),
{
    let m = ss.map_values(|s: Seq<char>| SpecJson::Str(s));
    if ss.len() == 0 {
        assert(spec_strings_of(m) == Ok::<Seq<Seq<char>>, FieldError>(Seq::empty()));
        assert(Seq::<Seq<char>>::empty() =~= ss);
    } else {
        let tail = ss.subrange(1, ss.len() as int);
        lemma_strings_round_trip(tail);
        assert(m.subrange(1, m.len() as int) =~= tail.map_values(
            |s: Seq<char>| SpecJson::Str(s),
        ));
        assert(seq![ss[0]] + tail =~= ss);
    }
}

/// The message this crate reports for a field that could not be read.
pub open spec fn fe_msg(name: Seq<char>, e: FieldError) -> crate::utils::error::ErrorView {
    match e {
        FieldError::Missing => crate::utils::error::ErrorView::DeserializationError(
            "missing field `"@ + name + "`"@,
        ),
        FieldError::Invalid => crate::utils::error::ErrorView::DeserializationError(
            "invalid type: field `"@ + name + "`"@,
        ),
    }
}

/// Builds the error for a field that could not be read.
pub fn fe_error(name: &str, e: FieldError) -> (r: crate::utils::error::SCIMError)
    ensures
        r.deep_view() == fe_msg(name@, e),
{
    match e {
        FieldError::Missing => crate::utils::error::SCIMError::DeserializationError(
            String::from_str("missing field `").concat(name).concat("`"),
        ),
        FieldError::Invalid => crate::utils::error::SCIMError::DeserializationError(
            String::from_str("invalid type: field `").concat(name).concat("`"),
        ),
    }
}

/// The message this crate reports when a document that must be an object is
/// not one.
pub open spec fn not_object_msg() -> crate::utils::error::ErrorView {
    crate::utils::error::ErrorView::DeserializationError("invalid type: expected a JSON object"@)
}

/// Builds the error for a document that must be an object but is not one.
pub fn not_object_error() -> (r: crate::utils::error::SCIMError)
    ensures
        r.deep_view() == not_object_msg(),
{
    crate::utils::error::SCIMError::DeserializationError(
        String::from_str("invalid type: expected a JSON object"),
    )
}

/// All well-formedness conditions of a document at once, at nesting depth at
/// most `n`: canonical integers, unique member names, no non-integral
/// numbers.
pub open spec fn json_ok(j: SpecJson, n: nat) -> bool {
    json_num_canonical(j) && json_keys_unique(j) && json_integral(j) && json_depth_le(j, n)
}

/// Nesting bounds weaken upward.
pub proof fn lemma_depth_mono(j: SpecJson, n: nat, m: nat)
    requires
        json_depth_le(j, n),
        n <= m,
    ensures
        json_depth_le(j, m),
    decreases j,
{
    match j {
        SpecJson::Arr(items) => {
            assert forall|i: int| 0 <= i < items.len() implies json_depth_le(
                #[trigger] items[i],
                (m - 1) as nat,
            ) by {
                lemma_depth_mono(items[i], (n - 1) as nat, (m - 1) as nat);
            }
        },
        SpecJson::Obj(fields) => {
            assert forall|i: int| 0 <= i < fields.len() implies json_depth_le(
                (#[trigger] fields[i]).1,
                (m - 1) as nat,
            ) by {
                lemma_depth_mono(fields[i].1, (n - 1) as nat, (m - 1) as nat);
            }
        },
        _ => {},
    }
}

/// Well-formedness at a depth bound weakens upward.
pub proof fn lemma_ok_mono(j: SpecJson, n: nat, m: nat)
    requires
        json_ok(j, n),
        n <= m,
    ensures
        json_ok(j, m),
{
    lemma_depth_mono(j, n, m);
}

/// A document at bounded depth is printable.
pub proof fn lemma_ok_printable(j: SpecJson, n: nat)
    requires
        json_ok(j, n),
        n <= 100,
    ensures
        json_printable(j),
{
    lemma_depth_mono(j, n, 100);
}

/// An object whose member names are pairwise distinct and whose member
/// values are well-formed at depth `n` is well-formed at depth `n + 1`.
pub proof fn lemma_ok_obj(fields: Seq<(Seq<char>, SpecJson)>, n: nat)
    requires
        forall|i: int, k: int| 0 <= i < k < fields.len() ==> (#[trigger] fields[i]).0 != (
        #[trigger] fields[k]).0,
        forall|i: int| 0 <= i < fields.len() ==> json_ok((#[trigger] fields[i]).1, n),
    ensures
        json_ok(SpecJson::Obj(fields), n + 1),
{
    assert forall|i: int| 0 <= i < fields.len() implies json_num_canonical(
        (#[trigger] fields[i]).1,
    ) && json_keys_unique(fields[i].1) && json_integral(fields[i].1) && json_depth_le(
        fields[i].1,
        n,
    ) by {
        assert(json_ok(fields[i].1, n));
    }
}

/// An array whose elements are well-formed at depth `n` is well-formed at
/// depth `n + 1`.
pub proof fn lemma_ok_arr(items: Seq<SpecJson>, n: nat)
    requires
        forall|i: int| 0 <= i < items.len() ==> json_ok(#[trigger] items[i], n),
    ensures
        json_ok(SpecJson::Arr(items), n + 1),
{
    assert forall|i: int| 0 <= i < items.len() implies json_num_canonical(#[trigger] items[i])
        && json_keys_unique(items[i]) && json_integral(items[i]) && json_depth_le(
        items[i],
        n,
    ) by {
        assert(json_ok(items[i], n));
    }
}

/// String arrays are well-formed at any positive depth.
pub proof fn lemma_ok_strings(ss: Seq<Seq<char>>, n: nat)
    ensures
        json_ok(spec_strings_json(ss), n + 1),
{
    let items = ss.map_values(|s: Seq<char>| SpecJson::Str(s));
    assert forall|i: int| 0 <= i < items.len() implies json_ok(#[trigger] items[i], n) by {
        assert(items[i] == SpecJson::Str(ss[i]));
    }
    lemma_ok_arr(items, n);
}

/// View of a `Result` over the deep views of both sides.
pub open spec fn res_view<T: DeepView, E: DeepView>(r: Result<T, E>) -> Result<T::V, E::V> {
    match r {
        Ok(t) => Ok(t.deep_view()),
        Err(e) => Err(e.deep_view()),
    }
}

/// What `serde_json` makes of a text: the parsed document, or the parser's
/// message. A fixed function of the text alone.
pub uninterp spec fn spec_parse_json(s: Seq<char>) -> Result<SpecJson, Seq<char>>;

/// The text `serde_json` prints for a document. A fixed function of the
/// document alone.
pub uninterp spec fn spec_print_json(j: SpecJson) -> Seq<char>;

/// Relies on `serde_json::from_str::<serde_json::Value>`: parses the whole
/// text as one JSON document (trailing content is an error) and returns its
/// tree; the message of the parse error otherwise. The result is converted
/// member by member into the crate's own tree by [`value_to_json`].
#[verifier::external_body]
pub(crate) fn parse_json(s: &str) -> (r: Result<JsonValue, String>)
    ensures
        res_view(r) == spec_parse_json(s@),
{
    match serde_json::from_str::<serde_json::Value>(s) {
        Ok(v) => Ok(value_to_json(v)),
        Err(e) => Err(format!("{}", e)),
    }
}

/// The characters of a string, by name; used where a contract must apply a
/// specification function to a whole result.
pub open spec fn chars_of(s: String) -> Seq<char> {
    s@
}

/// Holds when the text parses back to exactly the given document.
pub open spec fn reparses_to(s: String, j: SpecJson) -> bool {
    spec_parse_json(s@) == Ok::<SpecJson, Seq<char>>(j)
}

/// Relies on `serde_json::to_string`: prints the document on one line with
/// members in order, and on `serde_json::from_str`, which parses that text
/// back to an equal tree. The round trip holds because the document is
/// `json_printable`: its text re-parses to the same members in the same
/// order, non-negative integers come back as `Nat`, negative ones as `Int`,
/// and `serde_json`'s recursion limit is never reached at this depth.
#[verifier::external_body]
pub(crate) fn print_json(v: &JsonValue) -> (r: String)
    requires
        json_printable(v.deep_view()),
    ensures
        chars_of(r) == spec_print_json(v.deep_view()),
        reparses_to(r, v.deep_view()),
{
    match serde_json::to_string(&json_to_value(v)) {
        Ok(s) => s,
        Err(_) => String::new(),
    }
}

/// The `serde_json` document tree, carried opaquely through the converters.
#[verifier::external_type_specification]
#[verifier::external_body]
pub struct ExValue(serde_json::Value);

/// Relies on `serde_json::Value`: converts its tree one node for one into
/// the crate's own, telling number variants apart with `as_u64`/`as_i64`
/// (`as_u64` first, so every non-negative integer becomes `Nat`).
#[verifier::external_body]
fn value_to_json(v: serde_json::Value) -> JsonValue {
    match v {
        serde_json::Value::Null => JsonValue::Null,
        serde_json::Value::Bool(b) => JsonValue::Bool(b),
        serde_json::Value::Number(n) => match (n.as_u64(), n.as_i64()) {
            (Some(u), _) => JsonValue::Nat(u),
            (None, Some(i)) => JsonValue::Int(i),
            _ => JsonValue::NonIntegral,
        },
        serde_json::Value::String(s) => JsonValue::Str(s),
        serde_json::Value::Array(a) => JsonValue::Arr(a.into_iter().map(value_to_json).collect()),
        serde_json::Value::Object(o) => JsonValue::Obj(
            o.into_iter().map(|(k, w)| (k, value_to_json(w))).collect(),
        ),
    }
}

/// Relies on `serde_json::Value`: converts the crate's tree one node for one
/// into its tree. `NonIntegral` (excluded wherever printing is promised to
/// invert) becomes `Null`.
#[verifier::external_body]
fn json_to_value(v: &JsonValue) -> serde_json::Value {
    match v {
        JsonValue::Null | JsonValue::NonIntegral => serde_json::Value::Null,
        JsonValue::Bool(b) => serde_json::Value::Bool(*b),
        JsonValue::Nat(n) => serde_json::Value::from(*n),
        JsonValue::Int(i) => serde_json::Value::from(*i),
        JsonValue::Str(s) => serde_json::Value::String(s.clone()),
        JsonValue::Arr(items) => serde_json::Value::Array(
            items.iter().map(json_to_value).collect(),
        ),
        JsonValue::Obj(fields) => serde_json::Value::Object(
            fields.iter().map(|(k, w)| (k.clone(), json_to_value(w))).collect(),
        ),
    }
}

} // verus!
