use crate::errors::{DecodeError, DecodeErrorView};
use crate::json::{
    JsonSpec, JsonValue, obj_model, opt_val, opt_val_ins, push_field, push_str_field, req_str, res_view, sopt_val, sreq_str,
};
use vstd::prelude::*;

verus! {

/// An incoming callback query from an inline keyboard.
#[derive(Debug, Clone, PartialEq)]
pub struct CallbackQuery {
    pub id: String,
    pub chat_instance: String,
}

/// Mathematical image of `CallbackQuery`.
#[verifier::ext_equal]
pub struct CallbackQueryView {
    pub id: Seq<char>,
    pub chat_instance: Seq<char>,
}

impl View for CallbackQuery {
    type V = CallbackQueryView;

    open spec fn view(&self) -> CallbackQueryView {
        CallbackQueryView {
            id: self.id@,
            chat_instance: self.chat_instance@,
        }
    }
}

impl DeepView for CallbackQuery {
    type V = CallbackQueryView;

    open spec fn deep_view(&self) -> CallbackQueryView {
        self.view()
    }
}

/// The object it serializes to.
pub open spec fn senc_callback_query(m: CallbackQueryView) -> JsonSpec {
    JsonSpec::Obj(Map::empty().insert("id"@, JsonSpec::Str(m.id)).insert("chat_instance"@, JsonSpec::Str(m.chat_instance)))
}

/// The value a tree decodes to.
pub open spec fn sdec_callback_query(j: JsonSpec) -> Result<CallbackQueryView, DecodeErrorView> {
    match sreq_str(j, "id"@) {
        Err(e) => Err(e),
        Ok(id) => {
            match sreq_str(j, "chat_instance"@) {
                Err(e) => Err(e),
                Ok(chat_instance) => {
                    Ok(CallbackQueryView { id, chat_instance })
                },
            }
        },
    }
}

pub fn encode_callback_query(x: &CallbackQuery) -> (r: JsonValue)
    ensures
        r@ == senc_callback_query(x@),
{
    let mut pairs: Vec<(String, JsonValue)> = Vec::new();
    push_str_field(&mut pairs, "id", &x.id);
    push_str_field(&mut pairs, "chat_instance", &x.chat_instance);
    JsonValue::Obj(pairs)
}

pub fn decode_callback_query(j: &JsonValue) -> (r: Result<CallbackQuery, DecodeError>)
    ensures
        res_view(r) == sdec_callback_query(j@),
{
    let id = match req_str(j, "id") {
        Ok(v) => v,
        Err(e) => {
            return Err(e);
        },
    };
    let chat_instance = match req_str(j, "chat_instance") {
        Ok(v) => v,
        Err(e) => {
            return Err(e);
        },
    };
    Ok(CallbackQuery { id, chat_instance })
}

/// Decoding undoes encoding, for every value.
pub proof fn lemma_callback_query_round_trip(m: CallbackQueryView)
    ensures
        sdec_callback_query(senc_callback_query(m)) == Ok::<CallbackQueryView, DecodeErrorView>(m),
{
    reveal_strlit("id");
    reveal_strlit("chat_instance");
    assert("id"@.len() == 2 && "chat_instance"@.len() == 13);
}

/// An optional field holding this shape: absent or null is no value,
/// any present value must decode as the shape itself.
pub open spec fn sdec_opt_callback_query(j: JsonSpec, k: Seq<char>) -> Result<
    Option<CallbackQueryView>,
    DecodeErrorView,
> {
    match sopt_val(j, k) {
        Err(e) => Err(e),
        Ok(None) => Ok(None),
        Ok(Some(vj)) => match sdec_callback_query(vj) {
            Err(e) => Err(e),
            Ok(v) => Ok(Some(v)),
        },
    }
}

pub fn decode_opt_callback_query(j: &JsonValue, key: &str) -> (r: Result<Option<CallbackQuery>, DecodeError>)
    ensures
        res_view(r) == sdec_opt_callback_query(j@, key@),
{
    match opt_val(j, key) {
        Ok(None) => Ok(None),
        Ok(Some(vj)) => match decode_callback_query(vj) {
            Ok(v) => Ok(Some(v)),
            Err(e) => Err(e),
        },
        Err(e) => Err(e),
    }
}

/// Appends an optional field holding this shape, or omits the key
/// entirely when the field holds no value.
pub fn push_opt_callback_query_field(
    pairs: &mut Vec<(String, JsonValue)>,
    key: &str,
    o: &Option<CallbackQuery>,
)
    ensures
        obj_model(final(pairs)@) == opt_val_ins(
            obj_model(old(pairs)@),
            key@,
            match o {
                Some(v) => Some(senc_callback_query(v@)),
                None => None,
            },
        ),
{
    proof {
        reveal(crate::json::opt_val_ins);
    }
    match o {
        Some(v) => push_field(pairs, key, encode_callback_query(v)),
        None => (),
    }
}

} // verus!
