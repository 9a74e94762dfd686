use crate::errors::{DecodeError, DecodeErrorView};
use crate::json::{
    JsonSpec, JsonValue, obj_model, opt_val, opt_val_ins, push_field, push_str_field, req_str, res_view, sopt_val, sreq_str,
};
use vstd::prelude::*;

verus! {

/// An incoming shipping query.
#[derive(Debug, Clone, PartialEq)]
pub struct ShippingQuery {
    pub id: String,
    pub invoice_payload: String,
}

/// Mathematical image of `ShippingQuery`.
#[verifier::ext_equal]
pub struct ShippingQueryView {
    pub id: Seq<char>,
    pub invoice_payload: Seq<char>,
}

impl View for ShippingQuery {
    type V = ShippingQueryView;

    open spec fn view(&self) -> ShippingQueryView {
        ShippingQueryView {
            id: self.id@,
            invoice_payload: self.invoice_payload@,
        }
    }
}

impl DeepView for ShippingQuery {
    type V = ShippingQueryView;

    open spec fn deep_view(&self) -> ShippingQueryView {
        self.view()
    }
}

/// The object it serializes to.
pub open spec fn senc_shipping_query(m: ShippingQueryView) -> JsonSpec {
    JsonSpec::Obj(Map::empty().insert("id"@, JsonSpec::Str(m.id)).insert("invoice_payload"@, JsonSpec::Str(m.invoice_payload)))
}

/// The value a tree decodes to.
pub open spec fn sdec_shipping_query(j: JsonSpec) -> Result<ShippingQueryView, DecodeErrorView> {
    match sreq_str(j, "id"@) {
        Err(e) => Err(e),
        Ok(id) => {
            match sreq_str(j, "invoice_payload"@) {
                Err(e) => Err(e),
                Ok(invoice_payload) => {
                    Ok(ShippingQueryView { id, invoice_payload })
                },
            }
        },
    }
}

pub fn encode_shipping_query(x: &ShippingQuery) -> (r: JsonValue)
    ensures
        r@ == senc_shipping_query(x@),
{
    let mut pairs: Vec<(String, JsonValue)> = Vec::new();
    push_str_field(&mut pairs, "id", &x.id);
    push_str_field(&mut pairs, "invoice_payload", &x.invoice_payload);
    JsonValue::Obj(pairs)
}

pub fn decode_shipping_query(j: &JsonValue) -> (r: Result<ShippingQuery, DecodeError>)
    ensures
        res_view(r) == sdec_shipping_query(j@),
{
    let id = match req_str(j, "id") {
        Ok(v) => v,
        Err(e) => {
            return Err(e);
        },
    };
    let invoice_payload = match req_str(j, "invoice_payload") {
        Ok(v) => v,
        Err(e) => {
            return Err(e);
        },
    };
    Ok(ShippingQuery { id, invoice_payload })
}

/// Decoding undoes encoding, for every value.
pub proof fn lemma_shipping_query_round_trip(m: ShippingQueryView)
    ensures
        sdec_shipping_query(senc_shipping_query(m)) == Ok::<ShippingQueryView, DecodeErrorView>(m),
{
    reveal_strlit("id");
    reveal_strlit("invoice_payload");
    assert("id"@.len() == 2 && "invoice_payload"@.len() == 15);
}

/// An optional field holding this shape: absent or null is no value,
/// any present value must decode as the shape itself.
pub open spec fn sdec_opt_shipping_query(j: JsonSpec, k: Seq<char>) -> Result<
    Option<ShippingQueryView>,
    DecodeErrorView,
> {
    match sopt_val(j, k) {
        Err(e) => Err(e),
        Ok(None) => Ok(None),
        Ok(Some(vj)) => match sdec_shipping_query(vj) {
            Err(e) => Err(e),
            Ok(v) => Ok(Some(v)),
        },
    }
}

pub fn decode_opt_shipping_query(j: &JsonValue, key: &str) -> (r: Result<Option<ShippingQuery>, DecodeError>)
    ensures
        res_view(r) == sdec_opt_shipping_query(j@, key@),
{
    match opt_val(j, key) {
        Ok(None) => Ok(None),
        Ok(Some(vj)) => match decode_shipping_query(vj) {
            Ok(v) => Ok(Some(v)),
            Err(e) => Err(e),
        },
        Err(e) => Err(e),
    }
}

/// Appends an optional field holding this shape, or omits the key
/// entirely when the field holds no value.
pub fn push_opt_shipping_query_field(
    pairs: &mut Vec<(String, JsonValue)>,
    key: &str,
    o: &Option<ShippingQuery>,
)
    ensures
        obj_model(final(pairs)@) == opt_val_ins(
            obj_model(old(pairs)@),
            key@,
            match o {
                Some(v) => Some(senc_shipping_query(v@)),
                None => None,
            },
        ),
{
    proof {
        reveal(crate::json::opt_val_ins);
    }
    match o {
        Some(v) => push_field(pairs, key, encode_shipping_query(v)),
        None => (),
    }
}

} // verus!
