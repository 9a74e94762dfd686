use crate::errors::{DecodeError, DecodeErrorView};
use vstd::prelude::*;

verus! {

/// An in-memory JSON tree. Numbers are whole numbers only: every field
/// this schema carries over the wire is integral, so a single `i64` case
/// keeps the tree exact.
#[derive(Debug, PartialEq)]
pub enum JsonValue {
    Null,
    Bool(bool),
    Int(i64),
    Str(String),
    Arr(Vec<JsonValue>),
    Obj(Vec<(String, JsonValue)>),
}

/// Mathematical image of a JSON tree. An object is a map from key to
/// value: key order is meaningless on the wire, and a repeated key keeps
/// its last occurrence, as the text parser does.
#[verifier::ext_equal]
pub enum JsonSpec {
    Null,
    Bool(bool),
    Int(int),
    Str(Seq<char>),
    Arr(Seq<JsonSpec>),
    Obj(Map<Seq<char>, JsonSpec>),
}

/// The model of a tree node.
pub open spec fn jv_model(v: JsonValue) -> JsonSpec
    decreases v,
{
    match v {
        JsonValue::Null => JsonSpec::Null,
        JsonValue::Bool(b) => JsonSpec::Bool(b),
        JsonValue::Int(i) => JsonSpec::Int(i as int),
        JsonValue::Str(s) => JsonSpec::Str(s@),
        JsonValue::Arr(items) => JsonSpec::Arr(arr_model(items@)),
        JsonValue::Obj(pairs) => JsonSpec::Obj(obj_model(pairs@)),
    }
}

/// The models of an array's elements, in order.
pub open spec fn arr_model(s: Seq<JsonValue>) -> Seq<JsonSpec>
    decreases s,
{
    if s.len() == 0 {
        Seq::empty()
    } else {
        arr_model(s.drop_last()).push(jv_model(s.last()))
    }
}

/// The map an object's pair list denotes; a later pair overrides an
/// earlier one with the same key.
pub open spec fn obj_model(s: Seq<(String, JsonValue)>) -> Map<Seq<char>, JsonSpec>
    decreases s,
{
    if s.len() == 0 {
        Map::empty()
    } else {
        obj_model(s.drop_last()).insert(s.last().0@, jv_model(s.last().1))
    }
}

impl View for JsonValue {
    type V = JsonSpec;

    open spec fn view(&self) -> JsonSpec {
        jv_model(*self)
    }
}

impl DeepView for JsonValue {
    type V = JsonSpec;

    open spec fn deep_view(&self) -> JsonSpec {
        jv_model(*self)
    }
}

/// Looks a key up in an object node; `None` on a missing key or on any
/// non-object node.
pub open spec fn sget(j: JsonSpec, k: Seq<char>) -> Option<JsonSpec> {
    match j {
        JsonSpec::Obj(m) => obj_lookup(m, k),
        _ => None,
    }
}

/// Relies on `str`'s `PartialEq`: two string slices are equal exactly
/// when their character sequences are.
#[verifier::external_body]
pub(crate) fn str_eq(a: &str, b: &str) -> (r: bool)
    ensures
        r == (a@ == b@),
{
    a == b
}

/// Borrows the value under `key` in an object node, resolving a repeated
/// key to its last occurrence, as the model does.
pub fn obj_get<'a>(j: &'a JsonValue, key: &str) -> (r: Option<&'a JsonValue>)
    ensures
        match r {
            Some(v) => sget(j@, key@) == Some(v@),
            None => sget(j@, key@) is None,
        },
{
    match j {
        JsonValue::Obj(pairs) => {
            let ghost full: Seq<(String, JsonValue)> = pairs@;
            let mut i = pairs.len();
            proof {
                assert(full.take(i as int) =~= full);
            }
            while i > 0
                invariant
                    i <= pairs.len(),
                    pairs@ == full,
                    jv_model(*j) == JsonSpec::Obj(obj_model(full)),
                    obj_lookup(obj_model(full), key@) == obj_lookup(
                        obj_model(full.take(i as int)),
                        key@,
                    ),
                decreases i,
            {
                proof {
                    assert(full.take(i as int).drop_last() =~= full.take(i as int - 1));
                    assert(full.take(i as int).last() == full[i as int - 1]);
                }
                let p: &(String, JsonValue) = &pairs[i - 1];
                if str_eq(p.0.as_str(), key) {
                    proof {
                        let t = full.take(i as int);
                        assert(obj_model(t) == obj_model(t.drop_last()).insert(
                            t.last().0@,
                            jv_model(t.last().1),
                        ));
                        assert(p.0@ == key@);
                        assert(obj_lookup(obj_model(t), key@) == Some(jv_model(p.1)));
                        assert(sget(jv_model(*j), key@) == Some(jv_model(p.1)));
                    }
                    return Some(&p.1);
                }
                i = i - 1;
            }
            proof {
                assert(full.take(0) =~= Seq::<(String, JsonValue)>::empty());
            }
            None
        },
        _ => None,
    }
}

/// Option-valued map lookup.
pub open spec fn obj_lookup(m: Map<Seq<char>, JsonSpec>, k: Seq<char>) -> Option<JsonSpec> {
    if m.contains_key(k) {
        Some(m[k])
    } else {
        None
    }
}

/// Inserts an optional boolean field, or leaves the object unchanged.
/// Opaque so that a tower of optional fields stays one symbol per
/// layer; the facts below walk it one layer at a time.
#[verifier::opaque]
pub open spec fn opt_bool_ins(
    o: Map<Seq<char>, JsonSpec>,
    k: Seq<char>,
    v: Option<bool>,
) -> Map<Seq<char>, JsonSpec> {
    match v {
        Some(b) => o.insert(k, JsonSpec::Bool(b)),
        None => o,
    }
}

/// Inserts an optional integer field, or leaves the object unchanged.
#[verifier::opaque]
pub open spec fn opt_i64_ins(
    o: Map<Seq<char>, JsonSpec>,
    k: Seq<char>,
    v: Option<i64>,
) -> Map<Seq<char>, JsonSpec> {
    match v {
        Some(n) => o.insert(k, JsonSpec::Int(n as int)),
        None => o,
    }
}

/// Inserts an optional string field, or leaves the object unchanged.
#[verifier::opaque]
pub open spec fn opt_str_ins(
    o: Map<Seq<char>, JsonSpec>,
    k: Seq<char>,
    v: Option<Seq<char>>,
) -> Map<Seq<char>, JsonSpec> {
    match v {
        Some(s) => o.insert(k, JsonSpec::Str(s)),
        None => o,
    }
}

/// Inserts an optional field of any shape, or leaves the object
/// unchanged.
#[verifier::opaque]
pub open spec fn opt_val_ins(
    o: Map<Seq<char>, JsonSpec>,
    k: Seq<char>,
    v: Option<JsonSpec>,
) -> Map<Seq<char>, JsonSpec> {
    match v {
        Some(j) => o.insert(k, j),
        None => o,
    }
}

/// Every other key reads through an optional boolean layer unchanged.
pub broadcast proof fn lemma_opt_bool_ins(
    o: Map<Seq<char>, JsonSpec>,
    k: Seq<char>,
    v: Option<bool>,
    k2: Seq<char>,
)
    ensures
        k2 != k ==> #[trigger] obj_lookup(opt_bool_ins(o, k, v), k2) == obj_lookup(o, k2),
{
    reveal(opt_bool_ins);
}

/// An optional boolean layer adds its own key exactly when it holds a
/// value.
pub broadcast proof fn lemma_opt_bool_ins_own(
    o: Map<Seq<char>, JsonSpec>,
    k: Seq<char>,
    v: Option<bool>,
)
    ensures
        obj_lookup(o, k) is None ==> #[trigger] obj_lookup(opt_bool_ins(o, k, v), k) == (match v {
            Some(x) => Some(JsonSpec::Bool(x)),
            None => None::<JsonSpec>,
        }),
{
    reveal(opt_bool_ins);
}

/// Every other key reads through an optional integer layer unchanged.
pub broadcast proof fn lemma_opt_i64_ins(
    o: Map<Seq<char>, JsonSpec>,
    k: Seq<char>,
    v: Option<i64>,
    k2: Seq<char>,
)
    ensures
        k2 != k ==> #[trigger] obj_lookup(opt_i64_ins(o, k, v), k2) == obj_lookup(o, k2),
{
    reveal(opt_i64_ins);
}

/// An optional integer layer adds its own key exactly when it holds a
/// value.
pub broadcast proof fn lemma_opt_i64_ins_own(
    o: Map<Seq<char>, JsonSpec>,
    k: Seq<char>,
    v: Option<i64>,
)
    ensures
        obj_lookup(o, k) is None ==> #[trigger] obj_lookup(opt_i64_ins(o, k, v), k) == (match v {
            Some(x) => Some(JsonSpec::Int(x as int)),
            None => None::<JsonSpec>,
        }),
{
    reveal(opt_i64_ins);
}

/// Every other key reads through an optional string layer unchanged.
pub broadcast proof fn lemma_opt_str_ins(
    o: Map<Seq<char>, JsonSpec>,
    k: Seq<char>,
    v: Option<Seq<char>>,
    k2: Seq<char>,
)
    ensures
        k2 != k ==> #[trigger] obj_lookup(opt_str_ins(o, k, v), k2) == obj_lookup(o, k2),
{
    reveal(opt_str_ins);
}

/// An optional string layer adds its own key exactly when it holds a
/// value.
pub broadcast proof fn lemma_opt_str_ins_own(
    o: Map<Seq<char>, JsonSpec>,
    k: Seq<char>,
    v: Option<Seq<char>>,
)
    ensures
        obj_lookup(o, k) is None ==> #[trigger] obj_lookup(opt_str_ins(o, k, v), k) == (match v {
            Some(x) => Some(JsonSpec::Str(x)),
            None => None::<JsonSpec>,
        }),
{
    reveal(opt_str_ins);
}

/// Every other key reads through an optional layer unchanged.
pub broadcast proof fn lemma_opt_val_ins(
    o: Map<Seq<char>, JsonSpec>,
    k: Seq<char>,
    v: Option<JsonSpec>,
    k2: Seq<char>,
)
    ensures
        k2 != k ==> #[trigger] obj_lookup(opt_val_ins(o, k, v), k2) == obj_lookup(o, k2),
{
    reveal(opt_val_ins);
}

/// An optional layer adds its own key exactly when it holds a value.
pub broadcast proof fn lemma_opt_val_ins_own(
    o: Map<Seq<char>, JsonSpec>,
    k: Seq<char>,
    v: Option<JsonSpec>,
)
    ensures
        obj_lookup(o, k) is None ==> #[trigger] obj_lookup(opt_val_ins(o, k, v), k) == (match v {
            Some(x) => Some(x),
            None => None::<JsonSpec>,
        }),
{
    reveal(opt_val_ins);
}

/// The facts that walk a tower of optional-field layers.
pub broadcast group group_json_ins {
    lemma_opt_bool_ins,
    lemma_opt_bool_ins_own,
    lemma_opt_i64_ins,
    lemma_opt_i64_ins_own,
    lemma_opt_str_ins,
    lemma_opt_str_ins_own,
    lemma_opt_val_ins,
    lemma_opt_val_ins_own,
}

/// The image of a decode result: the decoded value's model, or the error's.
pub open spec fn res_view<T: DeepView>(r: Result<T, DecodeError>) -> Result<
    T::V,
    DecodeErrorView,
> {
    match r {
        Ok(v) => Ok(v.deep_view()),
        Err(e) => Err(e@),
    }
}

/// A required string field: absent is a missing-field error, any
/// non-string value (null included) a wrong-type error.
pub open spec fn sreq_str(j: JsonSpec, k: Seq<char>) -> Result<Seq<char>, DecodeErrorView> {
    match sget(j, k) {
        None => Err(DecodeErrorView::MissingField { path: k }),
        Some(v) => match v {
            JsonSpec::Str(s) => Ok(s),
            _ => Err(DecodeErrorView::WrongType { path: k }),
        },
    }
}

/// An optional string field: absent or null is no value at all.
pub open spec fn sopt_str(j: JsonSpec, k: Seq<char>) -> Result<
    Option<Seq<char>>,
    DecodeErrorView,
> {
    match sget(j, k) {
        None => Ok(None),
        Some(v) => match v {
            JsonSpec::Null => Ok(None),
            JsonSpec::Str(s) => Ok(Some(s)),
            _ => Err(DecodeErrorView::WrongType { path: k }),
        },
    }
}

/// A required integer field.
pub open spec fn sreq_i64(j: JsonSpec, k: Seq<char>) -> Result<i64, DecodeErrorView> {
    match sget(j, k) {
        None => Err(DecodeErrorView::MissingField { path: k }),
        Some(v) => match v {
            JsonSpec::Int(i) => if i64::MIN <= i <= i64::MAX {
                Ok(i as i64)
            } else {
                Err(DecodeErrorView::WrongType { path: k })
            },
            _ => Err(DecodeErrorView::WrongType { path: k }),
        },
    }
}

/// An optional integer field: absent or null is no value at all.
pub open spec fn sopt_i64(j: JsonSpec, k: Seq<char>) -> Result<Option<i64>, DecodeErrorView> {
    match sget(j, k) {
        None => Ok(None),
        Some(v) => match v {
            JsonSpec::Null => Ok(None),
            JsonSpec::Int(i) => if i64::MIN <= i <= i64::MAX {
                Ok(Some(i as i64))
            } else {
                Err(DecodeErrorView::WrongType { path: k })
            },
            _ => Err(DecodeErrorView::WrongType { path: k }),
        },
    }
}

/// A required non-negative integer field.
pub open spec fn sreq_u64(j: JsonSpec, k: Seq<char>) -> Result<u64, DecodeErrorView> {
    match sget(j, k) {
        None => Err(DecodeErrorView::MissingField { path: k }),
        Some(v) => match v {
            JsonSpec::Int(i) => if 0 <= i <= u64::MAX {
                Ok(i as u64)
            } else {
                Err(DecodeErrorView::WrongType { path: k })
            },
            _ => Err(DecodeErrorView::WrongType { path: k }),
        },
    }
}

/// A required boolean field.
pub open spec fn sreq_bool(j: JsonSpec, k: Seq<char>) -> Result<bool, DecodeErrorView> {
    match sget(j, k) {
        None => Err(DecodeErrorView::MissingField { path: k }),
        Some(v) => match v {
            JsonSpec::Bool(b) => Ok(b),
            _ => Err(DecodeErrorView::WrongType { path: k }),
        },
    }
}

/// An optional boolean field: absent or null is no value at all.
pub open spec fn sopt_bool(j: JsonSpec, k: Seq<char>) -> Result<Option<bool>, DecodeErrorView> {
    match sget(j, k) {
        None => Ok(None),
        Some(v) => match v {
            JsonSpec::Null => Ok(None),
            JsonSpec::Bool(b) => Ok(Some(b)),
            _ => Err(DecodeErrorView::WrongType { path: k }),
        },
    }
}

/// A required field of any shape.
pub open spec fn sreq_val(j: JsonSpec, k: Seq<char>) -> Result<JsonSpec, DecodeErrorView> {
    match sget(j, k) {
        None => Err(DecodeErrorView::MissingField { path: k }),
        Some(v) => Ok(v),
    }
}

/// An optional field of any shape: absent or null is no value at all.
pub open spec fn sopt_val(j: JsonSpec, k: Seq<char>) -> Result<Option<JsonSpec>, DecodeErrorView> {
    match sget(j, k) {
        None => Ok(None),
        Some(v) => match v {
            JsonSpec::Null => Ok(None),
            _ => Ok(Some(v)),
        },
    }
}

pub fn req_str(j: &JsonValue, key: &str) -> (r: Result<String, DecodeError>)
    ensures
        res_view(r) == sreq_str(j@, key@),
{
    match obj_get(j, key) {
        None => Err(DecodeError::MissingField { path: key.to_owned() }),
        Some(v) => match v {
            JsonValue::Str(s) => Ok(s.clone()),
            _ => Err(DecodeError::WrongType { path: key.to_owned() }),
        },
    }
}

pub fn opt_str(j: &JsonValue, key: &str) -> (r: Result<Option<String>, DecodeError>)
    ensures
        res_view(r) == sopt_str(j@, key@),
{
    match obj_get(j, key) {
        None => Ok(None),
        Some(v) => match v {
            JsonValue::Null => Ok(None),
            JsonValue::Str(s) => Ok(Some(s.clone())),
            _ => Err(DecodeError::WrongType { path: key.to_owned() }),
        },
    }
}

pub fn req_i64(j: &JsonValue, key: &str) -> (r: Result<i64, DecodeError>)
    ensures
        res_view(r) == sreq_i64(j@, key@),
{
    match obj_get(j, key) {
        None => Err(DecodeError::MissingField { path: key.to_owned() }),
        Some(v) => match v {
            JsonValue::Int(i) => Ok(*i),
            _ => Err(DecodeError::WrongType { path: key.to_owned() }),
        },
    }
}

pub fn opt_i64(j: &JsonValue, key: &str) -> (r: Result<Option<i64>, DecodeError>)
    ensures
        res_view(r) == sopt_i64(j@, key@),
{
    match obj_get(j, key) {
        None => Ok(None),
        Some(v) => match v {
            JsonValue::Null => Ok(None),
            JsonValue::Int(i) => Ok(Some(*i)),
            _ => Err(DecodeError::WrongType { path: key.to_owned() }),
        },
    }
}

pub fn req_u64(j: &JsonValue, key: &str) -> (r: Result<u64, DecodeError>)
    ensures
        res_view(r) == sreq_u64(j@, key@),
{
    match obj_get(j, key) {
        None => Err(DecodeError::MissingField { path: key.to_owned() }),
        Some(v) => match v {
            JsonValue::Int(i) => if *i >= 0 {
                Ok(*i as u64)
            } else {
                Err(DecodeError::WrongType { path: key.to_owned() })
            },
            _ => Err(DecodeError::WrongType { path: key.to_owned() }),
        },
    }
}

pub fn req_bool(j: &JsonValue, key: &str) -> (r: Result<bool, DecodeError>)
    ensures
        res_view(r) == sreq_bool(j@, key@),
{
    match obj_get(j, key) {
        None => Err(DecodeError::MissingField { path: key.to_owned() }),
        Some(v) => match v {
            JsonValue::Bool(b) => Ok(*b),
            _ => Err(DecodeError::WrongType { path: key.to_owned() }),
        },
    }
}

pub fn opt_bool(j: &JsonValue, key: &str) -> (r: Result<Option<bool>, DecodeError>)
    ensures
        res_view(r) == sopt_bool(j@, key@),
{
    match obj_get(j, key) {
        None => Ok(None),
        Some(v) => match v {
            JsonValue::Null => Ok(None),
            JsonValue::Bool(b) => Ok(Some(*b)),
            _ => Err(DecodeError::WrongType { path: key.to_owned() }),
        },
    }
}

pub fn req_val<'a>(j: &'a JsonValue, key: &str) -> (r: Result<&'a JsonValue, DecodeError>)
    ensures
        res_view(r) == sreq_val(j@, key@),
{
    match obj_get(j, key) {
        None => Err(DecodeError::MissingField { path: key.to_owned() }),
        Some(v) => Ok(v),
    }
}

pub fn opt_val<'a>(j: &'a JsonValue, key: &str) -> (r: Result<Option<&'a JsonValue>, DecodeError>)
    ensures
        res_view(r) == sopt_val(j@, key@),
{
    match obj_get(j, key) {
        None => Ok(None),
        Some(v) => match v {
            JsonValue::Null => Ok(None),
            _ => Ok(Some(v)),
        },
    }
}

/// Appends one field to an object under construction.
pub fn push_field(pairs: &mut Vec<(String, JsonValue)>, key: &str, v: JsonValue)
    ensures
        obj_model(final(pairs)@) == obj_model(old(pairs)@).insert(key@, v@),
{
    let ghost before: Seq<(String, JsonValue)> = pairs@;
    pairs.push((key.to_owned(), v));
    proof {
        assert(pairs@.drop_last() =~= before);
    }
}

/// Appends a string field.
pub fn push_str_field(pairs: &mut Vec<(String, JsonValue)>, key: &str, s: &String)
    ensures
        obj_model(final(pairs)@) == obj_model(old(pairs)@).insert(key@, JsonSpec::Str(s@)),
{
    push_field(pairs, key, JsonValue::Str(s.clone()));
}

/// Appends an integer field.
pub fn push_i64_field(pairs: &mut Vec<(String, JsonValue)>, key: &str, i: i64)
    ensures
        obj_model(final(pairs)@) == obj_model(old(pairs)@).insert(key@, JsonSpec::Int(i as int)),
{
    push_field(pairs, key, JsonValue::Int(i));
}

/// Appends a boolean field.
pub fn push_bool_field(pairs: &mut Vec<(String, JsonValue)>, key: &str, b: bool)
    ensures
        obj_model(final(pairs)@) == obj_model(old(pairs)@).insert(key@, JsonSpec::Bool(b)),
{
    push_field(pairs, key, JsonValue::Bool(b));
}

/// An array's model has one entry per element, in order.
pub proof fn lemma_arr_model_props(s: Seq<JsonValue>)
    ensures
        arr_model(s).len() == s.len(),
        forall|i: int| 0 <= i < s.len() ==> #[trigger] arr_model(s)[i] == jv_model(s[i]),
    decreases s.len(),
{
    if s.len() > 0 {
        lemma_arr_model_props(s.drop_last());
    }
}

/// Appends one element to an array under construction.
pub fn push_elem(items: &mut Vec<JsonValue>, v: JsonValue)
    ensures
        arr_model(final(items)@) == arr_model(old(items)@).push(v@),
{
    let ghost before: Seq<JsonValue> = items@;
    items.push(v);
    proof {
        assert(items@.drop_last() =~= before);
    }
}

/// Appends an optional string field, or omits the key entirely when the
/// field holds no value.
pub fn push_opt_str_field(pairs: &mut Vec<(String, JsonValue)>, key: &str, o: &Option<String>)
    ensures
        obj_model(final(pairs)@) == opt_str_ins(obj_model(old(pairs)@), key@, o.deep_view()),
{
    proof {
        reveal(opt_str_ins);
    }
    match o {
        Some(s) => push_str_field(pairs, key, s),
        None => (),
    }
}

/// Appends an optional integer field, or omits the key entirely.
pub fn push_opt_i64_field(pairs: &mut Vec<(String, JsonValue)>, key: &str, o: &Option<i64>)
    ensures
        obj_model(final(pairs)@) == opt_i64_ins(obj_model(old(pairs)@), key@, *o),
{
    proof {
        reveal(opt_i64_ins);
    }
    match o {
        Some(i) => push_i64_field(pairs, key, *i),
        None => (),
    }
}

/// Appends an optional boolean field, or omits the key entirely.
pub fn push_opt_bool_field(pairs: &mut Vec<(String, JsonValue)>, key: &str, o: &Option<bool>)
    ensures
        obj_model(final(pairs)@) == opt_bool_ins(obj_model(old(pairs)@), key@, *o),
{
    proof {
        reveal(opt_bool_ins);
    }
    match o {
        Some(b) => push_bool_field(pairs, key, *b),
        None => (),
    }
}

/// The array a list of strings serializes to, element for element.
pub open spec fn senc_str_seq(s: Seq<Seq<char>>) -> Seq<JsonSpec> {
    s.map_values(|x: Seq<char>| JsonSpec::Str(x))
}

/// The list of strings an array decodes to; the first non-string
/// element's error is the whole list's.
pub open spec fn sdec_str_seq(s: Seq<JsonSpec>, k: Seq<char>) -> Result<
    Seq<Seq<char>>,
    DecodeErrorView,
>
    decreases s.len(),
{
    if s.len() == 0 {
        Ok(Seq::empty())
    } else {
        match s[0] {
            JsonSpec::Str(x) => match sdec_str_seq(s.drop_first(), k) {
                Err(e) => Err(e),
                Ok(rest) => Ok(seq![x] + rest),
            },
            _ => Err(DecodeErrorView::WrongType { path: k }),
        }
    }
}

/// Encodes a list of strings as an array.
pub fn encode_str_list(v: &Vec<String>) -> (r: JsonValue)
    ensures
        r@ == JsonSpec::Arr(senc_str_seq(v.deep_view())),
{
    let ghost target: Seq<JsonSpec> = senc_str_seq(v.deep_view());
    let mut items: Vec<JsonValue> = Vec::new();
    let n = v.len();
    proof {
        assert(target.take(0) =~= arr_model(items@));
    }
    let mut i: usize = 0;
    while i < n
        invariant
            i <= n,
            n == v.len(),
            target == senc_str_seq(v.deep_view()),
            target.len() == n,
            arr_model(items@) == target.take(i as int),
        decreases n - i,
    {
        push_elem(&mut items, JsonValue::Str(v[i].clone()));
        proof {
            assert(target.take(i as int + 1) =~= target.take(i as int).push(target[i as int]));
        }
        i = i + 1;
    }
    proof {
        assert(target.take(n as int) =~= target);
    }
    JsonValue::Arr(items)
}

/// Decodes an array of strings; the error path names the field that
/// held the array.
pub fn decode_str_list(j: &JsonValue, key: &str) -> (r: Result<Vec<String>, DecodeError>)
    ensures
        match r {
            Ok(v) => jv_model(*j) matches JsonSpec::Arr(items) && sdec_str_seq(items, key@) == Ok::<
                Seq<Seq<char>>,
                DecodeErrorView,
            >(v.deep_view()),
            Err(e) => (jv_model(*j) matches JsonSpec::Arr(items) && sdec_str_seq(items, key@)
                == Err::<Seq<Seq<char>>, DecodeErrorView>(e@)) || (!(jv_model(*j) is Arr) && e@
                == DecodeErrorView::WrongType { path: key@ }),
        },
{
    match j {
        JsonValue::Arr(items) => {
            let ghost ms: Seq<JsonSpec> = arr_model(items@);
            proof {
                lemma_arr_model_props(items@);
                assert(ms.skip(0) =~= ms);
            }
            let mut out: Vec<String> = Vec::new();
            let n = items.len();
            let mut i: usize = 0;
            while i < n
                invariant
                    i <= n,
                    n == items.len(),
                    ms == arr_model(items@),
                    ms.len() == n,
                    jv_model(*j) == JsonSpec::Arr(ms),
                    forall|k: int| 0 <= k < n ==> #[trigger] ms[k] == jv_model(items@[k]),
                    out.deep_view().len() == i,
                    sdec_str_seq(ms, key@) == match sdec_str_seq(ms.skip(i as int), key@) {
                        Err(e) => Err::<Seq<Seq<char>>, DecodeErrorView>(e),
                        Ok(rest) => Ok(out.deep_view() + rest),
                    },
                decreases n - i,
            {
                proof {
                    assert(ms.skip(i as int).drop_first() =~= ms.skip(i as int + 1));
                    assert(ms.skip(i as int)[0] == ms[i as int]);
                }
                let ghost prev: Seq<Seq<char>> = out.deep_view();
                match &items[i] {
                    JsonValue::Str(x) => {
                        out.push(x.clone());
                        proof {
                            assert(out.deep_view() =~= prev.push(x@));
                            assert(prev.push(x@) =~= prev + seq![x@]);
                            assert(forall|rest: Seq<Seq<char>>|
                                (prev + seq![x@]) + rest =~= prev + (seq![x@] + rest));
                        }
                    },
                    _ => {
                        return Err(DecodeError::WrongType { path: key.to_owned() });
                    },
                }
                i = i + 1;
            }
            proof {
                assert(ms.skip(n as int) =~= Seq::<JsonSpec>::empty());
                assert(out.deep_view() + Seq::<Seq<char>>::empty() =~= out.deep_view());
            }
            Ok(out)
        },
        _ => Err(DecodeError::WrongType { path: key.to_owned() }),
    }
}

/// Decoding undoes encoding for every list of strings.
pub proof fn lemma_str_seq_round_trip(s: Seq<Seq<char>>, k: Seq<char>)
    ensures
        sdec_str_seq(senc_str_seq(s), k) == Ok::<Seq<Seq<char>>, DecodeErrorView>(s),
    decreases s.len(),
{
    if s.len() == 0 {
        assert(senc_str_seq(s) =~= Seq::<JsonSpec>::empty());
        assert(s =~= Seq::<Seq<char>>::empty());
    } else {
        let enc = senc_str_seq(s);
        lemma_str_seq_round_trip(s.drop_first(), k);
        assert(enc.len() == s.len());
        assert(enc.drop_first() =~= senc_str_seq(s.drop_first()));
        assert(enc[0] == JsonSpec::Str(s[0]));
        assert(seq![s[0]] + s.drop_first() =~= s);
    }
}

} // verus!
