use crate::errors::{DecodeError, DecodeErrorView};
use crate::json::{
    JsonSpec, JsonValue, obj_model, opt_val, opt_val_ins, push_field, push_i64_field, push_str_field, req_i64, req_str, res_view, sopt_val, sreq_i64, sreq_str,
};
use vstd::prelude::*;

verus! {

/// An incoming pre-checkout query.
#[derive(Debug, Clone, PartialEq)]
pub struct PreCheckoutQuery {
    pub id: String,
    pub currency: String,
    pub total_amount: i64,
}

/// Mathematical image of `PreCheckoutQuery`.
#[verifier::ext_equal]
pub struct PreCheckoutQueryView {
    pub id: Seq<char>,
    pub currency: Seq<char>,
    pub total_amount: i64,
}

impl View for PreCheckoutQuery {
    type V = PreCheckoutQueryView;

    open spec fn view(&self) -> PreCheckoutQueryView {
        PreCheckoutQueryView {
            id: self.id@,
            currency: self.currency@,
            total_amount: self.total_amount,
        }
    }
}

impl DeepView for PreCheckoutQuery {
    type V = PreCheckoutQueryView;

    open spec fn deep_view(&self) -> PreCheckoutQueryView {
        self.view()
    }
}

/// The object it serializes to.
pub open spec fn senc_pre_checkout_query(m: PreCheckoutQueryView) -> JsonSpec {
    JsonSpec::Obj(Map::empty().insert("id"@, JsonSpec::Str(m.id)).insert("currency"@, JsonSpec::Str(m.currency)).insert("total_amount"@, JsonSpec::Int(m.total_amount as int)))
}

/// The value a tree decodes to.
pub open spec fn sdec_pre_checkout_query(j: JsonSpec) -> Result<PreCheckoutQueryView, DecodeErrorView> {
    match sreq_str(j, "id"@) {
        Err(e) => Err(e),
        Ok(id) => {
            match sreq_str(j, "currency"@) {
                Err(e) => Err(e),
                Ok(currency) => {
                    match sreq_i64(j, "total_amount"@) {
                        Err(e) => Err(e),
                        Ok(total_amount) => {
                            Ok(PreCheckoutQueryView { id, currency, total_amount })
                        },
                    }
                },
            }
        },
    }
}

pub fn encode_pre_checkout_query(x: &PreCheckoutQuery) -> (r: JsonValue)
    ensures
        r@ == senc_pre_checkout_query(x@),
{
    let mut pairs: Vec<(String, JsonValue)> = Vec::new();
    push_str_field(&mut pairs, "id", &x.id);
    push_str_field(&mut pairs, "currency", &x.currency);
    push_i64_field(&mut pairs, "total_amount", x.total_amount);
    JsonValue::Obj(pairs)
}

pub fn decode_pre_checkout_query(j: &JsonValue) -> (r: Result<PreCheckoutQuery, DecodeError>)
    ensures
        res_view(r) == sdec_pre_checkout_query(j@),
{
    let id = match req_str(j, "id") {
        Ok(v) => v,
        Err(e) => {
            return Err(e);
        },
    };
    let currency = match req_str(j, "currency") {
        Ok(v) => v,
        Err(e) => {
            return Err(e);
        },
    };
    let total_amount = match req_i64(j, "total_amount") {
        Ok(v) => v,
        Err(e) => {
            return Err(e);
        },
    };
    Ok(PreCheckoutQuery { id, currency, total_amount })
}

/// Decoding undoes encoding, for every value.
pub proof fn lemma_pre_checkout_query_round_trip(m: PreCheckoutQueryView)
    ensures
        sdec_pre_checkout_query(senc_pre_checkout_query(m)) == Ok::<PreCheckoutQueryView, DecodeErrorView>(m),
{
    reveal_strlit("id");
    reveal_strlit("currency");
    reveal_strlit("total_amount");
    assert("id"@.len() == 2 && "currency"@.len() == 8 && "total_amount"@.len() == 12);
}

/// An optional field holding this shape: absent or null is no value,
/// any present value must decode as the shape itself.
pub open spec fn sdec_opt_pre_checkout_query(j: JsonSpec, k: Seq<char>) -> Result<
    Option<PreCheckoutQueryView>,
    DecodeErrorView,
> {
    match sopt_val(j, k) {
        Err(e) => Err(e),
        Ok(None) => Ok(None),
        Ok(Some(vj)) => match sdec_pre_checkout_query(vj) {
            Err(e) => Err(e),
            Ok(v) => Ok(Some(v)),
        },
    }
}

pub fn decode_opt_pre_checkout_query(j: &JsonValue, key: &str) -> (r: Result<Option<PreCheckoutQuery>, DecodeError>)
    ensures
        res_view(r) == sdec_opt_pre_checkout_query(j@, key@),
{
    match opt_val(j, key) {
        Ok(None) => Ok(None),
        Ok(Some(vj)) => match decode_pre_checkout_query(vj) {
            Ok(v) => Ok(Some(v)),
            Err(e) => Err(e),
        },
        Err(e) => Err(e),
    }
}

/// Appends an optional field holding this shape, or omits the key
/// entirely when the field holds no value.
pub fn push_opt_pre_checkout_query_field(
    pairs: &mut Vec<(String, JsonValue)>,
    key: &str,
    o: &Option<PreCheckoutQuery>,
)
    ensures
        obj_model(final(pairs)@) == opt_val_ins(
            obj_model(old(pairs)@),
            key@,
            match o {
                Some(v) => Some(senc_pre_checkout_query(v@)),
                None => None,
            },
        ),
{
    proof {
        reveal(crate::json::opt_val_ins);
    }
    match o {
        Some(v) => push_field(pairs, key, encode_pre_checkout_query(v)),
        None => (),
    }
}

} // verus!
