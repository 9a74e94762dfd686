use crate::errors::{DecodeError, DecodeErrorView};
use crate::json::{
    JsonSpec, JsonValue, obj_model, opt_val, opt_val_ins, push_field, push_str_field, req_str, res_view, sopt_val, sreq_str,
};
use vstd::prelude::*;

verus! {

/// An answer in a non-anonymous poll.
#[derive(Debug, Clone, PartialEq)]
pub struct PollAnswer {
    pub poll_id: String,
}

/// Mathematical image of `PollAnswer`.
#[verifier::ext_equal]
pub struct PollAnswerView {
    pub poll_id: Seq<char>,
}

impl View for PollAnswer {
    type V = PollAnswerView;

    open spec fn view(&self) -> PollAnswerView {
        PollAnswerView {
            poll_id: self.poll_id@,
        }
    }
}

impl DeepView for PollAnswer {
    type V = PollAnswerView;

    open spec fn deep_view(&self) -> PollAnswerView {
        self.view()
    }
}

/// The object it serializes to.
pub open spec fn senc_poll_answer(m: PollAnswerView) -> JsonSpec {
    JsonSpec::Obj(Map::empty().insert("poll_id"@, JsonSpec::Str(m.poll_id)))
}

/// The value a tree decodes to.
pub open spec fn sdec_poll_answer(j: JsonSpec) -> Result<PollAnswerView, DecodeErrorView> {
    match sreq_str(j, "poll_id"@) {
        Err(e) => Err(e),
        Ok(poll_id) => {
            Ok(PollAnswerView { poll_id })
        },
    }
}

pub fn encode_poll_answer(x: &PollAnswer) -> (r: JsonValue)
    ensures
        r@ == senc_poll_answer(x@),
{
    let mut pairs: Vec<(String, JsonValue)> = Vec::new();
    push_str_field(&mut pairs, "poll_id", &x.poll_id);
    JsonValue::Obj(pairs)
}

pub fn decode_poll_answer(j: &JsonValue) -> (r: Result<PollAnswer, DecodeError>)
    ensures
        res_view(r) == sdec_poll_answer(j@),
{
    let poll_id = match req_str(j, "poll_id") {
        Ok(v) => v,
        Err(e) => {
            return Err(e);
        },
    };
    Ok(PollAnswer { poll_id })
}

/// Decoding undoes encoding, for every value.
pub proof fn lemma_poll_answer_round_trip(m: PollAnswerView)
    ensures
        sdec_poll_answer(senc_poll_answer(m)) == Ok::<PollAnswerView, DecodeErrorView>(m),
{
    reveal_strlit("poll_id");
    assert("poll_id"@.len() == 7);
}

/// An optional field holding this shape: absent or null is no value,
/// any present value must decode as the shape itself.
pub open spec fn sdec_opt_poll_answer(j: JsonSpec, k: Seq<char>) -> Result<
    Option<PollAnswerView>,
    DecodeErrorView,
> {
    match sopt_val(j, k) {
        Err(e) => Err(e),
        Ok(None) => Ok(None),
        Ok(Some(vj)) => match sdec_poll_answer(vj) {
            Err(e) => Err(e),
            Ok(v) => Ok(Some(v)),
        },
    }
}

pub fn decode_opt_poll_answer(j: &JsonValue, key: &str) -> (r: Result<Option<PollAnswer>, DecodeError>)
    ensures
        res_view(r) == sdec_opt_poll_answer(j@, key@),
{
    match opt_val(j, key) {
        Ok(None) => Ok(None),
        Ok(Some(vj)) => match decode_poll_answer(vj) {
            Ok(v) => Ok(Some(v)),
            Err(e) => Err(e),
        },
        Err(e) => Err(e),
    }
}

/// Appends an optional field holding this shape, or omits the key
/// entirely when the field holds no value.
pub fn push_opt_poll_answer_field(
    pairs: &mut Vec<(String, JsonValue)>,
    key: &str,
    o: &Option<PollAnswer>,
)
    ensures
        obj_model(final(pairs)@) == opt_val_ins(
            obj_model(old(pairs)@),
            key@,
            match o {
                Some(v) => Some(senc_poll_answer(v@)),
                None => None,
            },
        ),
{
    proof {
        reveal(crate::json::opt_val_ins);
    }
    match o {
        Some(v) => push_field(pairs, key, encode_poll_answer(v)),
        None => (),
    }
}

} // verus!
