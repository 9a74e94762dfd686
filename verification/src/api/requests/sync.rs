use crate::api::params::answer_callback_query::{
    encode_answer_callback_query, senc_answer_callback_query, AnswerCallbackQuery,
};
use crate::api::params::ban_chat_sender_chat::{
    encode_ban_chat_sender_chat, senc_ban_chat_sender_chat, BanChatSenderChat,
};
use crate::api::params::delete_sticker_from_set::{
    encode_delete_sticker_from_set, senc_delete_sticker_from_set, DeleteStickerFromSet,
};
use crate::api::params::send_message::{encode_send_message, senc_send_message, SendMessage};
use crate::api::params::set_game_score::{
    encode_set_game_score, senc_set_game_score, SetGameScore,
};
use crate::api::params::unpin_chat_message::{
    encode_unpin_chat_message, senc_unpin_chat_message, UnpinChatMessage,
};
use crate::api::response::{
    decode_envelope, sdec_envelope, Envelope, EnvelopeView, ResponseSuccess, ResponseSuccessView,
};
use crate::api::types::update::{decode_update, sdec_update, Update, UpdateView};
use crate::api::types::user_chat_boosts::{
    decode_user_chat_boosts, sdec_user_chat_boosts, UserChatBoosts, UserChatBoostsView,
};
use crate::errors::{DecodeError, DecodeErrorView, Error, ErrorView};
use crate::json::{
    arr_model, jv_model, lemma_arr_model_props, res_view, JsonSpec, JsonValue,
};
use crate::wire::{dump_json, json_from_text, json_to_text, parse_json};
use vstd::prelude::*;

verus! {

/// The image of a remote call's outcome: the decoded result's model,
/// or the error's.
pub open spec fn call_view<T: DeepView>(r: Result<T, Error>) -> Result<T::V, ErrorView> {
    match r {
        Ok(v) => Ok(v.deep_view()),
        Err(e) => Err(e@),
    }
}

/// The payload text a send-message request serializes to.
pub fn send_message_payload(p: &SendMessage) -> (r: String)
    ensures
        r@ == dump_json(senc_send_message(p@)),
{
    let j = encode_send_message(p);
    json_to_text(&j)
}

/// The payload text a ban request serializes to.
pub fn ban_chat_sender_chat_payload(p: &BanChatSenderChat) -> (r: String)
    ensures
        r@ == dump_json(senc_ban_chat_sender_chat(p@)),
{
    let j = encode_ban_chat_sender_chat(p);
    json_to_text(&j)
}

/// The payload text an unpin request serializes to.
pub fn unpin_chat_message_payload(p: &UnpinChatMessage) -> (r: String)
    ensures
        r@ == dump_json(senc_unpin_chat_message(p@)),
{
    let j = encode_unpin_chat_message(p);
    json_to_text(&j)
}

/// The payload text a game-score request serializes to.
pub fn set_game_score_payload(p: &SetGameScore) -> (r: String)
    ensures
        r@ == dump_json(senc_set_game_score(p@)),
{
    let j = encode_set_game_score(p);
    json_to_text(&j)
}

/// The payload text a callback-answer request serializes to.
pub fn answer_callback_query_payload(p: &AnswerCallbackQuery) -> (r: String)
    ensures
        r@ == dump_json(senc_answer_callback_query(p@)),
{
    let j = encode_answer_callback_query(p);
    json_to_text(&j)
}

/// The payload text a sticker-deletion request serializes to.
pub fn delete_sticker_from_set_payload(p: &DeleteStickerFromSet) -> (r: String)
    ensures
        r@ == dump_json(senc_delete_sticker_from_set(p@)),
{
    let j = encode_delete_sticker_from_set(p);
    json_to_text(&j)
}

/// The list of updates an array decodes to; the first failing
/// element's error is the whole list's.
pub open spec fn sdec_update_seq(s: Seq<JsonSpec>) -> Result<Seq<UpdateView>, DecodeErrorView>
    decreases s.len(),
{
    if s.len() == 0 {
        Ok(Seq::empty())
    } else {
        match sdec_update(s[0]) {
            Err(e) => Err(e),
            Ok(u) => match sdec_update_seq(s.drop_first()) {
                Err(e) => Err(e),
                Ok(rest) => Ok(seq![u] + rest),
            },
        }
    }
}

/// What a whole response text to an update poll decodes to: the typed
/// update list on the success arm, the remote error on the error arm,
/// and a decode error on anything that fits neither.
pub open spec fn sdec_get_updates_text(text: Seq<char>) -> Result<
    ResponseSuccessView<Seq<UpdateView>>,
    ErrorView,
> {
    match parse_json(text) {
        None => Err(ErrorView::Decode(DecodeErrorView::NotJson)),
        Some(j) => match sdec_envelope(j) {
            Err(e) => Err(ErrorView::Decode(e)),
            Ok(EnvelopeView::Failure(re)) => Err(ErrorView::Response(re)),
            Ok(EnvelopeView::Success { result, description }) => match result {
                JsonSpec::Arr(items) => match sdec_update_seq(items) {
                    Err(e) => Err(ErrorView::Decode(e)),
                    Ok(us) => Ok(
                        ResponseSuccessView { ok: true, result: us, description },
                    ),
                },
                _ => Err(ErrorView::Decode(DecodeErrorView::WrongType { path: "result"@ })),
            },
        },
    }
}

/// What a whole response text to a boost query decodes to.
pub open spec fn sdec_user_chat_boosts_text(text: Seq<char>) -> Result<
    ResponseSuccessView<UserChatBoostsView>,
    ErrorView,
> {
    match parse_json(text) {
        None => Err(ErrorView::Decode(DecodeErrorView::NotJson)),
        Some(j) => match sdec_envelope(j) {
            Err(e) => Err(ErrorView::Decode(e)),
            Ok(EnvelopeView::Failure(re)) => Err(ErrorView::Response(re)),
            Ok(EnvelopeView::Success { result, description }) => match sdec_user_chat_boosts(
                result,
            ) {
                Err(e) => Err(ErrorView::Decode(e)),
                Ok(b) => Ok(ResponseSuccessView { ok: true, result: b, description }),
            },
        },
    }
}

/// Joins already-decoded updates with the rest of a list decode.
pub open spec fn update_seq_join(
    acc: Seq<UpdateView>,
    r: Result<Seq<UpdateView>, DecodeErrorView>,
) -> Result<Seq<UpdateView>, DecodeErrorView> {
    match r {
        Ok(s) => Ok(acc + s),
        Err(e) => Err(e),
    }
}

/// Decodes an array of updates.
fn decode_update_list(bj: &JsonValue) -> (r: Result<Vec<Update>, DecodeError>)
    ensures
        match r {
            Ok(v) => jv_model(*bj) matches JsonSpec::Arr(items) && sdec_update_seq(items) == Ok::<
                Seq<UpdateView>,
                DecodeErrorView,
            >(v.deep_view()),
            Err(e) => (jv_model(*bj) matches JsonSpec::Arr(items) && sdec_update_seq(items)
                == Err::<Seq<UpdateView>, DecodeErrorView>(e@)) || (!(jv_model(*bj) is Arr) && e@
                == DecodeErrorView::WrongType { path: "result"@ }),
        },
{
    match bj {
        JsonValue::Arr(items) => {
            let ghost ms: Seq<JsonSpec> = arr_model(items@);
            proof {
                lemma_arr_model_props(items@);
                assert(ms.skip(0) =~= ms);
            }
            let mut out: Vec<Update> = Vec::new();
            let n = items.len();
            let mut i: usize = 0;
            while i < n
                invariant
                    i <= n,
                    n == items.len(),
                    ms == arr_model(items@),
                    ms.len() == n,
                    jv_model(*bj) == JsonSpec::Arr(ms),
                    forall|k: int| 0 <= k < n ==> #[trigger] ms[k] == jv_model(items@[k]),
                    out.deep_view().len() == i,
                    sdec_update_seq(ms) == update_seq_join(
                        out.deep_view(),
                        sdec_update_seq(ms.skip(i as int)),
                    ),
                decreases n - i,
            {
                proof {
                    assert(ms.skip(i as int).drop_first() =~= ms.skip(i as int + 1));
                    assert(ms.skip(i as int)[0] == ms[i as int]);
                }
                let ghost prev: Seq<UpdateView> = out.deep_view();
                match decode_update(&items[i]) {
                    Ok(u) => {
                        out.push(u);
                        proof {
                            assert(out.deep_view() =~= prev.push(u@));
                            assert(prev.push(u@) =~= prev + seq![u@]);
                            assert(forall|rest: Seq<UpdateView>|
                                (prev + seq![u@]) + rest =~= prev + (seq![u@] + rest));
                        }
                    },
                    Err(e) => {
                        return Err(e);
                    },
                }
                i = i + 1;
            }
            proof {
                assert(ms.skip(n as int) =~= Seq::<JsonSpec>::empty());
                assert(out.deep_view() + Seq::<UpdateView>::empty() =~= out.deep_view());
            }
            Ok(out)
        },
        _ => Err(DecodeError::WrongType { path: "result".to_owned() }),
    }
}

/// Decodes a whole response text to an update poll: the success arm
/// yields the typed update list, the error arm the remote error as a
/// typed value, and anything else a decode error.
pub fn decode_get_updates_response(body: &str) -> (r: Result<ResponseSuccess<Vec<Update>>, Error>)
    ensures
        call_view(r) == sdec_get_updates_text(body@),
{
    let parsed: Option<JsonValue> = json_from_text(body);
    let j = match parsed {
        Some(j) => j,
        None => {
            return Err(Error::Decode(DecodeError::NotJson));
        },
    };
    match decode_envelope(&j) {
        Err(e) => Err(Error::Decode(e)),
        Ok(Envelope::Failure(re)) => Err(Error::Response(re)),
        Ok(Envelope::Success { result, description }) => match decode_update_list(result) {
            Err(e) => Err(Error::Decode(e)),
            Ok(us) => Ok(ResponseSuccess { ok: true, result: us, description }),
        },
    }
}

/// Decodes a whole response text to a boost query.
pub fn decode_user_chat_boosts_response(body: &str) -> (r: Result<
    ResponseSuccess<UserChatBoosts>,
    Error,
>)
    ensures
        call_view(r) == sdec_user_chat_boosts_text(body@),
{
    let parsed: Option<JsonValue> = json_from_text(body);
    let j = match parsed {
        Some(j) => j,
        None => {
            return Err(Error::Decode(DecodeError::NotJson));
        },
    };
    match decode_envelope(&j) {
        Err(e) => Err(Error::Decode(e)),
        Ok(Envelope::Failure(re)) => Err(Error::Response(re)),
        Ok(Envelope::Success { result, description }) => match decode_user_chat_boosts(result) {
            Err(e) => Err(Error::Decode(e)),
            Ok(b) => Ok(ResponseSuccess { ok: true, result: b, description }),
        },
    }
}

} // verus!
