use crate::errors::{DecodeError, DecodeErrorView};
use crate::json::{
    JsonSpec, JsonValue, obj_model, opt_val, opt_val_ins, push_field, push_str_field, req_str, res_view, sopt_val, sreq_str,
};
use vstd::prelude::*;

verus! {

/// The inline result a user chose.
#[derive(Debug, Clone, PartialEq)]
pub struct ChosenInlineResult {
    pub result_id: String,
    pub query: String,
}

/// Mathematical image of `ChosenInlineResult`.
#[verifier::ext_equal]
pub struct ChosenInlineResultView {
    pub result_id: Seq<char>,
    pub query: Seq<char>,
}

impl View for ChosenInlineResult {
    type V = ChosenInlineResultView;

    open spec fn view(&self) -> ChosenInlineResultView {
        ChosenInlineResultView {
            result_id: self.result_id@,
            query: self.query@,
        }
    }
}

impl DeepView for ChosenInlineResult {
    type V = ChosenInlineResultView;

    open spec fn deep_view(&self) -> ChosenInlineResultView {
        self.view()
    }
}

/// The object it serializes to.
pub open spec fn senc_chosen_inline_result(m: ChosenInlineResultView) -> JsonSpec {
    JsonSpec::Obj(Map::empty().insert("result_id"@, JsonSpec::Str(m.result_id)).insert("query"@, JsonSpec::Str(m.query)))
}

/// The value a tree decodes to.
pub open spec fn sdec_chosen_inline_result(j: JsonSpec) -> Result<ChosenInlineResultView, DecodeErrorView> {
    match sreq_str(j, "result_id"@) {
        Err(e) => Err(e),
        Ok(result_id) => {
            match sreq_str(j, "query"@) {
                Err(e) => Err(e),
                Ok(query) => {
                    Ok(ChosenInlineResultView { result_id, query })
                },
            }
        },
    }
}

pub fn encode_chosen_inline_result(x: &ChosenInlineResult) -> (r: JsonValue)
    ensures
        r@ == senc_chosen_inline_result(x@),
{
    let mut pairs: Vec<(String, JsonValue)> = Vec::new();
    push_str_field(&mut pairs, "result_id", &x.result_id);
    push_str_field(&mut pairs, "query", &x.query);
    JsonValue::Obj(pairs)
}

pub fn decode_chosen_inline_result(j: &JsonValue) -> (r: Result<ChosenInlineResult, DecodeError>)
    ensures
        res_view(r) == sdec_chosen_inline_result(j@),
{
    let result_id = match req_str(j, "result_id") {
        Ok(v) => v,
        Err(e) => {
            return Err(e);
        },
    };
    let query = match req_str(j, "query") {
        Ok(v) => v,
        Err(e) => {
            return Err(e);
        },
    };
    Ok(ChosenInlineResult { result_id, query })
}

/// Decoding undoes encoding, for every value.
pub proof fn lemma_chosen_inline_result_round_trip(m: ChosenInlineResultView)
    ensures
        sdec_chosen_inline_result(senc_chosen_inline_result(m)) == Ok::<ChosenInlineResultView, DecodeErrorView>(m),
{
    reveal_strlit("result_id");
    reveal_strlit("query");
    assert("result_id"@.len() == 9 && "query"@.len() == 5);
}

/// An optional field holding this shape: absent or null is no value,
/// any present value must decode as the shape itself.
pub open spec fn sdec_opt_chosen_inline_result(j: JsonSpec, k: Seq<char>) -> Result<
    Option<ChosenInlineResultView>,
    DecodeErrorView,
> {
    match sopt_val(j, k) {
        Err(e) => Err(e),
        Ok(None) => Ok(None),
        Ok(Some(vj)) => match sdec_chosen_inline_result(vj) {
            Err(e) => Err(e),
            Ok(v) => Ok(Some(v)),
        },
    }
}

pub fn decode_opt_chosen_inline_result(j: &JsonValue, key: &str) -> (r: Result<Option<ChosenInlineResult>, DecodeError>)
    ensures
        res_view(r) == sdec_opt_chosen_inline_result(j@, key@),
{
    match opt_val(j, key) {
        Ok(None) => Ok(None),
        Ok(Some(vj)) => match decode_chosen_inline_result(vj) {
            Ok(v) => Ok(Some(v)),
            Err(e) => Err(e),
        },
        Err(e) => Err(e),
    }
}

/// Appends an optional field holding this shape, or omits the key
/// entirely when the field holds no value.
pub fn push_opt_chosen_inline_result_field(
    pairs: &mut Vec<(String, JsonValue)>,
    key: &str,
    o: &Option<ChosenInlineResult>,
)
    ensures
        obj_model(final(pairs)@) == opt_val_ins(
            obj_model(old(pairs)@),
            key@,
            match o {
                Some(v) => Some(senc_chosen_inline_result(v@)),
                None => None,
            },
        ),
{
    proof {
        reveal(crate::json::opt_val_ins);
    }
    match o {
        Some(v) => push_field(pairs, key, encode_chosen_inline_result(v)),
        None => (),
    }
}

} // verus!
