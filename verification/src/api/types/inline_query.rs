use crate::errors::{DecodeError, DecodeErrorView};
use crate::json::{
    JsonSpec, JsonValue, obj_model, opt_val, opt_val_ins, push_field, push_str_field, req_str, res_view, sopt_val, sreq_str,
};
use vstd::prelude::*;

verus! {

/// An incoming inline query.
#[derive(Debug, Clone, PartialEq)]
pub struct InlineQuery {
    pub id: String,
    pub query: String,
}

/// Mathematical image of `InlineQuery`.
#[verifier::ext_equal]
pub struct InlineQueryView {
    pub id: Seq<char>,
    pub query: Seq<char>,
}

impl View for InlineQuery {
    type V = InlineQueryView;

    open spec fn view(&self) -> InlineQueryView {
        InlineQueryView {
            id: self.id@,
            query: self.query@,
        }
    }
}

impl DeepView for InlineQuery {
    type V = InlineQueryView;

    open spec fn deep_view(&self) -> InlineQueryView {
        self.view()
    }
}

/// The object it serializes to.
pub open spec fn senc_inline_query(m: InlineQueryView) -> JsonSpec {
    JsonSpec::Obj(Map::empty().insert("id"@, JsonSpec::Str(m.id)).insert("query"@, JsonSpec::Str(m.query)))
}

/// The value a tree decodes to.
pub open spec fn sdec_inline_query(j: JsonSpec) -> Result<InlineQueryView, DecodeErrorView> {
    match sreq_str(j, "id"@) {
        Err(e) => Err(e),
        Ok(id) => {
            match sreq_str(j, "query"@) {
                Err(e) => Err(e),
                Ok(query) => {
                    Ok(InlineQueryView { id, query })
                },
            }
        },
    }
}

pub fn encode_inline_query(x: &InlineQuery) -> (r: JsonValue)
    ensures
        r@ == senc_inline_query(x@),
{
    let mut pairs: Vec<(String, JsonValue)> = Vec::new();
    push_str_field(&mut pairs, "id", &x.id);
    push_str_field(&mut pairs, "query", &x.query);
    JsonValue::Obj(pairs)
}

pub fn decode_inline_query(j: &JsonValue) -> (r: Result<InlineQuery, DecodeError>)
    ensures
        res_view(r) == sdec_inline_query(j@),
{
    let id = match req_str(j, "id") {
        Ok(v) => v,
        Err(e) => {
            return Err(e);
        },
    };
    let query = match req_str(j, "query") {
        Ok(v) => v,
        Err(e) => {
            return Err(e);
        },
    };
    Ok(InlineQuery { id, query })
}

/// Decoding undoes encoding, for every value.
pub proof fn lemma_inline_query_round_trip(m: InlineQueryView)
    ensures
        sdec_inline_query(senc_inline_query(m)) == Ok::<InlineQueryView, DecodeErrorView>(m),
{
    reveal_strlit("id");
    reveal_strlit("query");
    assert("id"@.len() == 2 && "query"@.len() == 5);
}

/// An optional field holding this shape: absent or null is no value,
/// any present value must decode as the shape itself.
pub open spec fn sdec_opt_inline_query(j: JsonSpec, k: Seq<char>) -> Result<
    Option<InlineQueryView>,
    DecodeErrorView,
> {
    match sopt_val(j, k) {
        Err(e) => Err(e),
        Ok(None) => Ok(None),
        Ok(Some(vj)) => match sdec_inline_query(vj) {
            Err(e) => Err(e),
            Ok(v) => Ok(Some(v)),
        },
    }
}

pub fn decode_opt_inline_query(j: &JsonValue, key: &str) -> (r: Result<Option<InlineQuery>, DecodeError>)
    ensures
        res_view(r) == sdec_opt_inline_query(j@, key@),
{
    match opt_val(j, key) {
        Ok(None) => Ok(None),
        Ok(Some(vj)) => match decode_inline_query(vj) {
            Ok(v) => Ok(Some(v)),
            Err(e) => Err(e),
        },
        Err(e) => Err(e),
    }
}

/// Appends an optional field holding this shape, or omits the key
/// entirely when the field holds no value.
pub fn push_opt_inline_query_field(
    pairs: &mut Vec<(String, JsonValue)>,
    key: &str,
    o: &Option<InlineQuery>,
)
    ensures
        obj_model(final(pairs)@) == opt_val_ins(
            obj_model(old(pairs)@),
            key@,
            match o {
                Some(v) => Some(senc_inline_query(v@)),
                None => None,
            },
        ),
{
    proof {
        reveal(crate::json::opt_val_ins);
    }
    match o {
        Some(v) => push_field(pairs, key, encode_inline_query(v)),
        None => (),
    }
}

} // verus!
