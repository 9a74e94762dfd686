use crate::json::{JsonSpec, JsonValue};
use vstd::prelude::*;

verus! {

/// Parameters for answering a callback query; this schema carries none
/// of its optional knobs, so the payload is an empty object.
#[derive(Debug, Clone, Copy, PartialEq)]
pub struct AnswerCallbackQuery {}

impl View for AnswerCallbackQuery {
    type V = AnswerCallbackQuery;

    open spec fn view(&self) -> AnswerCallbackQuery {
        *self
    }
}

impl DeepView for AnswerCallbackQuery {
    type V = AnswerCallbackQuery;

    open spec fn deep_view(&self) -> AnswerCallbackQuery {
        *self
    }
}

/// The empty object the request serializes to.
pub open spec fn senc_answer_callback_query(m: AnswerCallbackQuery) -> JsonSpec {
    JsonSpec::Obj(Map::empty())
}

pub fn encode_answer_callback_query(p: &AnswerCallbackQuery) -> (r: JsonValue)
    ensures
        r@ == senc_answer_callback_query(p@),
{
    let pairs: Vec<(String, JsonValue)> = Vec::new();
    JsonValue::Obj(pairs)
}

} // verus!
