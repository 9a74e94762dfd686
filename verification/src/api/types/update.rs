use crate::errors::{DecodeError, DecodeErrorView};
use crate::api::types::callback_query::{
    CallbackQuery, CallbackQueryView, decode_opt_callback_query, encode_callback_query, lemma_callback_query_round_trip, push_opt_callback_query_field, sdec_opt_callback_query, senc_callback_query,
};
use crate::api::types::chat_boost_removed::{
    ChatBoostRemoved, ChatBoostRemovedView, decode_opt_chat_boost_removed, encode_chat_boost_removed, lemma_chat_boost_removed_round_trip, push_opt_chat_boost_removed_field, sdec_opt_chat_boost_removed, senc_chat_boost_removed,
};
use crate::api::types::chat_boost_updated::{
    ChatBoostUpdated, ChatBoostUpdatedView, decode_opt_chat_boost_updated, encode_chat_boost_updated, lemma_chat_boost_updated_round_trip, push_opt_chat_boost_updated_field, sdec_opt_chat_boost_updated, senc_chat_boost_updated,
};
use crate::api::types::chat_join_request::{
    ChatJoinRequest, decode_opt_chat_join_request, encode_chat_join_request, lemma_chat_join_request_round_trip, push_opt_chat_join_request_field, sdec_opt_chat_join_request, senc_chat_join_request,
};
use crate::api::types::chat_member_updated::{
    ChatMemberUpdated, decode_opt_chat_member_updated, encode_chat_member_updated, lemma_chat_member_updated_round_trip, push_opt_chat_member_updated_field, sdec_opt_chat_member_updated, senc_chat_member_updated,
};
use crate::api::types::chosen_inline_result::{
    ChosenInlineResult, ChosenInlineResultView, decode_opt_chosen_inline_result, encode_chosen_inline_result, lemma_chosen_inline_result_round_trip, push_opt_chosen_inline_result_field, sdec_opt_chosen_inline_result, senc_chosen_inline_result,
};
use crate::api::types::inline_query::{
    InlineQuery, InlineQueryView, decode_opt_inline_query, encode_inline_query, lemma_inline_query_round_trip, push_opt_inline_query_field, sdec_opt_inline_query, senc_inline_query,
};
use crate::api::types::message::{
    Message, decode_opt_message, encode_message, lemma_message_round_trip, push_opt_message_field, sdec_opt_message, senc_message,
};
use crate::api::types::message_reaction_count_updated::{
    MessageReactionCountUpdated, decode_opt_message_reaction_count_updated, encode_message_reaction_count_updated, lemma_message_reaction_count_updated_round_trip, push_opt_message_reaction_count_updated_field, sdec_opt_message_reaction_count_updated, senc_message_reaction_count_updated,
};
use crate::api::types::message_reaction_updated::{
    MessageReactionUpdated, decode_opt_message_reaction_updated, encode_message_reaction_updated, lemma_message_reaction_updated_round_trip, push_opt_message_reaction_updated_field, sdec_opt_message_reaction_updated, senc_message_reaction_updated,
};
use crate::api::types::poll_answer::{
    PollAnswer, PollAnswerView, decode_opt_poll_answer, encode_poll_answer, lemma_poll_answer_round_trip, push_opt_poll_answer_field, sdec_opt_poll_answer, senc_poll_answer,
};
use crate::api::types::pre_checkout_query::{
    PreCheckoutQuery, PreCheckoutQueryView, decode_opt_pre_checkout_query, encode_pre_checkout_query, lemma_pre_checkout_query_round_trip, push_opt_pre_checkout_query_field, sdec_opt_pre_checkout_query, senc_pre_checkout_query,
};
use crate::api::types::shipping_query::{
    ShippingQuery, ShippingQueryView, decode_opt_shipping_query, encode_shipping_query, lemma_shipping_query_round_trip, push_opt_shipping_query_field, sdec_opt_shipping_query, senc_shipping_query,
};
use crate::json::{
    opt_val_ins, push_field, push_i64_field, req_i64, res_view, sopt_val, sreq_i64, JsonSpec,
    JsonValue,
};
use vstd::prelude::*;

verus! {

/// An incoming update. At most one of the optional payloads is
/// present in any given update; each absent payload leaves no key on
/// the wire.
#[derive(Debug, Clone, PartialEq)]
pub struct Update {
    pub update_id: i64,
    pub message: Option<Message>,
    pub edited_message: Option<Message>,
    pub channel_post: Option<Message>,
    pub edited_channel_post: Option<Message>,
    pub message_reaction: Option<MessageReactionUpdated>,
    pub message_reaction_count: Option<MessageReactionCountUpdated>,
    pub inline_query: Option<InlineQuery>,
    pub chosen_inline_result: Option<ChosenInlineResult>,
    pub callback_query: Option<CallbackQuery>,
    pub shipping_query: Option<ShippingQuery>,
    pub pre_checkout_query: Option<PreCheckoutQuery>,
    pub poll: Option<PreCheckoutQuery>,
    pub poll_answer: Option<PollAnswer>,
    pub my_chat_member: Option<ChatMemberUpdated>,
    pub chat_member: Option<ChatMemberUpdated>,
    pub chat_join_request: Option<ChatJoinRequest>,
    pub chat_boost: Option<ChatBoostUpdated>,
    pub removed_chat_boost: Option<ChatBoostRemoved>,
}

/// Mathematical image of `Update`.
#[verifier::ext_equal]
pub struct UpdateView {
    pub update_id: i64,
    pub message: Option<Message>,
    pub edited_message: Option<Message>,
    pub channel_post: Option<Message>,
    pub edited_channel_post: Option<Message>,
    pub message_reaction: Option<MessageReactionUpdated>,
    pub message_reaction_count: Option<MessageReactionCountUpdated>,
    pub inline_query: Option<InlineQueryView>,
    pub chosen_inline_result: Option<ChosenInlineResultView>,
    pub callback_query: Option<CallbackQueryView>,
    pub shipping_query: Option<ShippingQueryView>,
    pub pre_checkout_query: Option<PreCheckoutQueryView>,
    pub poll: Option<PreCheckoutQueryView>,
    pub poll_answer: Option<PollAnswerView>,
    pub my_chat_member: Option<ChatMemberUpdated>,
    pub chat_member: Option<ChatMemberUpdated>,
    pub chat_join_request: Option<ChatJoinRequest>,
    pub chat_boost: Option<ChatBoostUpdatedView>,
    pub removed_chat_boost: Option<ChatBoostRemovedView>,
}

impl View for Update {
    type V = UpdateView;

    open spec fn view(&self) -> UpdateView {
        UpdateView {
            update_id: self.update_id,
            message: self.message,
            edited_message: self.edited_message,
            channel_post: self.channel_post,
            edited_channel_post: self.edited_channel_post,
            message_reaction: self.message_reaction,
            message_reaction_count: self.message_reaction_count,
            inline_query: self.inline_query.deep_view(),
            chosen_inline_result: self.chosen_inline_result.deep_view(),
            callback_query: self.callback_query.deep_view(),
            shipping_query: self.shipping_query.deep_view(),
            pre_checkout_query: self.pre_checkout_query.deep_view(),
            poll: self.poll.deep_view(),
            poll_answer: self.poll_answer.deep_view(),
            my_chat_member: self.my_chat_member,
            chat_member: self.chat_member,
            chat_join_request: self.chat_join_request,
            chat_boost: self.chat_boost.deep_view(),
            removed_chat_boost: self.removed_chat_boost.deep_view(),
        }
    }
}

impl DeepView for Update {
    type V = UpdateView;

    open spec fn deep_view(&self) -> UpdateView {
        self.view()
    }
}

/// The object an update serializes to; absent payloads leave no key.
pub open spec fn senc_update(m: UpdateView) -> JsonSpec {
    let o = Map::empty().insert("update_id"@, JsonSpec::Int(m.update_id as int));
    let o = opt_val_ins(
        o,
        "message"@,
        match m.message {
            Some(v) => Some(senc_message(v)),
            None => None,
        },
    );
    let o = opt_val_ins(
        o,
        "edited_message"@,
        match m.edited_message {
            Some(v) => Some(senc_message(v)),
            None => None,
        },
    );
    let o = opt_val_ins(
        o,
        "channel_post"@,
        match m.channel_post {
            Some(v) => Some(senc_message(v)),
            None => None,
        },
    );
    let o = opt_val_ins(
        o,
        "edited_channel_post"@,
        match m.edited_channel_post {
            Some(v) => Some(senc_message(v)),
            None => None,
        },
    );
    let o = opt_val_ins(
        o,
        "message_reaction"@,
        match m.message_reaction {
            Some(v) => Some(senc_message_reaction_updated(v)),
            None => None,
        },
    );
    let o = opt_val_ins(
        o,
        "message_reaction_count"@,
        match m.message_reaction_count {
            Some(v) => Some(senc_message_reaction_count_updated(v)),
            None => None,
        },
    );
    let o = opt_val_ins(
        o,
        "inline_query"@,
        match m.inline_query {
            Some(v) => Some(senc_inline_query(v)),
            None => None,
        },
    );
    let o = opt_val_ins(
        o,
        "chosen_inline_result"@,
        match m.chosen_inline_result {
            Some(v) => Some(senc_chosen_inline_result(v)),
            None => None,
        },
    );
    let o = opt_val_ins(
        o,
        "callback_query"@,
        match m.callback_query {
            Some(v) => Some(senc_callback_query(v)),
            None => None,
        },
    );
    let o = opt_val_ins(
        o,
        "shipping_query"@,
        match m.shipping_query {
            Some(v) => Some(senc_shipping_query(v)),
            None => None,
        },
    );
    let o = opt_val_ins(
        o,
        "pre_checkout_query"@,
        match m.pre_checkout_query {
            Some(v) => Some(senc_pre_checkout_query(v)),
            None => None,
        },
    );
    let o = opt_val_ins(
        o,
        "poll"@,
        match m.poll {
            Some(v) => Some(senc_pre_checkout_query(v)),
            None => None,
        },
    );
    let o = opt_val_ins(
        o,
        "poll_answer"@,
        match m.poll_answer {
            Some(v) => Some(senc_poll_answer(v)),
            None => None,
        },
    );
    let o = opt_val_ins(
        o,
        "my_chat_member"@,
        match m.my_chat_member {
            Some(v) => Some(senc_chat_member_updated(v)),
            None => None,
        },
    );
    let o = opt_val_ins(
        o,
        "chat_member"@,
        match m.chat_member {
            Some(v) => Some(senc_chat_member_updated(v)),
            None => None,
        },
    );
    let o = opt_val_ins(
        o,
        "chat_join_request"@,
        match m.chat_join_request {
            Some(v) => Some(senc_chat_join_request(v)),
            None => None,
        },
    );
    let o = opt_val_ins(
        o,
        "chat_boost"@,
        match m.chat_boost {
            Some(v) => Some(senc_chat_boost_updated(v)),
            None => None,
        },
    );
    let o = opt_val_ins(
        o,
        "removed_chat_boost"@,
        match m.removed_chat_boost {
            Some(v) => Some(senc_chat_boost_removed(v)),
            None => None,
        },
    );
    JsonSpec::Obj(o)
}

/// The update a tree decodes to.
pub open spec fn sdec_update(j: JsonSpec) -> Result<UpdateView, DecodeErrorView> {
    match sreq_i64(j, "update_id"@) {
        Err(e) => Err(e),
        Ok(update_id) => {
            match sdec_opt_message(j, "message"@) {
                Err(e) => Err(e),
                Ok(message) => {
                    match sdec_opt_message(j, "edited_message"@) {
                        Err(e) => Err(e),
                        Ok(edited_message) => {
                            match sdec_opt_message(j, "channel_post"@) {
                                Err(e) => Err(e),
                                Ok(channel_post) => {
                                    match sdec_opt_message(j, "edited_channel_post"@) {
                                        Err(e) => Err(e),
                                        Ok(edited_channel_post) => {
                                            match sdec_opt_message_reaction_updated(j, "message_reaction"@) {
                                                Err(e) => Err(e),
                                                Ok(message_reaction) => {
                                                    match sdec_opt_message_reaction_count_updated(j, "message_reaction_count"@) {
                                                        Err(e) => Err(e),
                                                        Ok(message_reaction_count) => {
                                                            match sdec_opt_inline_query(j, "inline_query"@) {
                                                                Err(e) => Err(e),
                                                                Ok(inline_query) => {
                                                                    match sdec_opt_chosen_inline_result(j, "chosen_inline_result"@) {
                                                                        Err(e) => Err(e),
                                                                        Ok(chosen_inline_result) => {
                                                                            match sdec_opt_callback_query(j, "callback_query"@) {
                                                                                Err(e) => Err(e),
                                                                                Ok(callback_query) => {
                                                                                    match sdec_opt_shipping_query(j, "shipping_query"@) {
                                                                                        Err(e) => Err(e),
                                                                                        Ok(shipping_query) => {
                                                                                            match sdec_opt_pre_checkout_query(j, "pre_checkout_query"@) {
                                                                                                Err(e) => Err(e),
                                                                                                Ok(pre_checkout_query) => {
                                                                                                    match sdec_opt_pre_checkout_query(j, "poll"@) {
                                                                                                        Err(e) => Err(e),
                                                                                                        Ok(poll) => {
                                                                                                            match sdec_opt_poll_answer(j, "poll_answer"@) {
                                                                                                                Err(e) => Err(e),
                                                                                                                Ok(poll_answer) => {
                                                                                                                    match sdec_opt_chat_member_updated(j, "my_chat_member"@) {
                                                                                                                        Err(e) => Err(e),
                                                                                                                        Ok(my_chat_member) => {
                                                                                                                            match sdec_opt_chat_member_updated(j, "chat_member"@) {
                                                                                                                                Err(e) => Err(e),
                                                                                                                                Ok(chat_member) => {
                                                                                                                                    match sdec_opt_chat_join_request(j, "chat_join_request"@) {
                                                                                                                                        Err(e) => Err(e),
                                                                                                                                        Ok(chat_join_request) => {
                                                                                                                                            match sdec_opt_chat_boost_updated(j, "chat_boost"@) {
                                                                                                                                                Err(e) => Err(e),
                                                                                                                                                Ok(chat_boost) => {
                                                                                                                                                    match sdec_opt_chat_boost_removed(j, "removed_chat_boost"@) {
                                                                                                                                                        Err(e) => Err(e),
                                                                                                                                                        Ok(removed_chat_boost) => {
                                                                                                                                                            Ok(UpdateView { update_id, message, edited_message, channel_post, edited_channel_post, message_reaction, message_reaction_count, inline_query, chosen_inline_result, callback_query, shipping_query, pre_checkout_query, poll, poll_answer, my_chat_member, chat_member, chat_join_request, chat_boost, removed_chat_boost })
                                                                                                                                                        },
                                                                                                                                                    }
                                                                                                                                                },
                                                                                                                                            }
                                                                                                                                        },
                                                                                                                                    }
                                                                                                                                },
                                                                                                                            }
                                                                                                                        },
                                                                                                                    }
                                                                                                                },
                                                                                                            }
                                                                                                        },
                                                                                                    }
                                                                                                },
                                                                                            }
                                                                                        },
                                                                                    }
                                                                                },
                                                                            }
                                                                        },
                                                                    }
                                                                },
                                                            }
                                                        },
                                                    }
                                                },
                                            }
                                        },
                                    }
                                },
                            }
                        },
                    }
                },
            }
        },
    }
}

#[verifier::rlimit(100)]
#[verifier::spinoff_prover]
pub fn encode_update(u: &Update) -> (r: JsonValue)
    ensures
        r@ == senc_update(u@),
{
    let mut pairs: Vec<(String, JsonValue)> = Vec::new();
    push_i64_field(&mut pairs, "update_id", u.update_id);
    push_opt_message_field(&mut pairs, "message", &u.message);
    push_opt_message_field(&mut pairs, "edited_message", &u.edited_message);
    push_opt_message_field(&mut pairs, "channel_post", &u.channel_post);
    push_opt_message_field(&mut pairs, "edited_channel_post", &u.edited_channel_post);
    push_opt_message_reaction_updated_field(&mut pairs, "message_reaction", &u.message_reaction);
    push_opt_message_reaction_count_updated_field(&mut pairs, "message_reaction_count", &u.message_reaction_count);
    push_opt_inline_query_field(&mut pairs, "inline_query", &u.inline_query);
    push_opt_chosen_inline_result_field(&mut pairs, "chosen_inline_result", &u.chosen_inline_result);
    push_opt_callback_query_field(&mut pairs, "callback_query", &u.callback_query);
    push_opt_shipping_query_field(&mut pairs, "shipping_query", &u.shipping_query);
    push_opt_pre_checkout_query_field(&mut pairs, "pre_checkout_query", &u.pre_checkout_query);
    push_opt_pre_checkout_query_field(&mut pairs, "poll", &u.poll);
    push_opt_poll_answer_field(&mut pairs, "poll_answer", &u.poll_answer);
    push_opt_chat_member_updated_field(&mut pairs, "my_chat_member", &u.my_chat_member);
    push_opt_chat_member_updated_field(&mut pairs, "chat_member", &u.chat_member);
    push_opt_chat_join_request_field(&mut pairs, "chat_join_request", &u.chat_join_request);
    push_opt_chat_boost_updated_field(&mut pairs, "chat_boost", &u.chat_boost);
    push_opt_chat_boost_removed_field(&mut pairs, "removed_chat_boost", &u.removed_chat_boost);
    JsonValue::Obj(pairs)
}


#[verifier::rlimit(100)]
#[verifier::spinoff_prover]
pub fn decode_update(j: &JsonValue) -> (r: Result<Update, DecodeError>)
    ensures
        res_view(r) == sdec_update(j@),
{
    let update_id = match req_i64(j, "update_id") {
        Ok(v) => v,
        Err(e) => {
            return Err(e);
        },
    };
    let message = match decode_opt_message(j, "message") {
        Ok(v) => v,
        Err(e) => {
            return Err(e);
        },
    };
    let edited_message = match decode_opt_message(j, "edited_message") {
        Ok(v) => v,
        Err(e) => {
            return Err(e);
        },
    };
    let channel_post = match decode_opt_message(j, "channel_post") {
        Ok(v) => v,
        Err(e) => {
            return Err(e);
        },
    };
    let edited_channel_post = match decode_opt_message(j, "edited_channel_post") {
        Ok(v) => v,
        Err(e) => {
            return Err(e);
        },
    };
    let message_reaction = match decode_opt_message_reaction_updated(j, "message_reaction") {
        Ok(v) => v,
        Err(e) => {
            return Err(e);
        },
    };
    let message_reaction_count = match decode_opt_message_reaction_count_updated(j, "message_reaction_count") {
        Ok(v) => v,
        Err(e) => {
            return Err(e);
        },
    };
    let inline_query = match decode_opt_inline_query(j, "inline_query") {
        Ok(v) => v,
        Err(e) => {
            return Err(e);
        },
    };
    let chosen_inline_result = match decode_opt_chosen_inline_result(j, "chosen_inline_result") {
        Ok(v) => v,
        Err(e) => {
            return Err(e);
        },
    };
    let callback_query = match decode_opt_callback_query(j, "callback_query") {
        Ok(v) => v,
        Err(e) => {
            return Err(e);
        },
    };
    let shipping_query = match decode_opt_shipping_query(j, "shipping_query") {
        Ok(v) => v,
        Err(e) => {
            return Err(e);
        },
    };
    let pre_checkout_query = match decode_opt_pre_checkout_query(j, "pre_checkout_query") {
        Ok(v) => v,
        Err(e) => {
            return Err(e);
        },
    };
    let poll = match decode_opt_pre_checkout_query(j, "poll") {
        Ok(v) => v,
        Err(e) => {
            return Err(e);
        },
    };
    let poll_answer = match decode_opt_poll_answer(j, "poll_answer") {
        Ok(v) => v,
        Err(e) => {
            return Err(e);
        },
    };
    let my_chat_member = match decode_opt_chat_member_updated(j, "my_chat_member") {
        Ok(v) => v,
        Err(e) => {
            return Err(e);
        },
    };
    let chat_member = match decode_opt_chat_member_updated(j, "chat_member") {
        Ok(v) => v,
        Err(e) => {
            return Err(e);
        },
    };
    let chat_join_request = match decode_opt_chat_join_request(j, "chat_join_request") {
        Ok(v) => v,
        Err(e) => {
            return Err(e);
        },
    };
    let chat_boost = match decode_opt_chat_boost_updated(j, "chat_boost") {
        Ok(v) => v,
        Err(e) => {
            return Err(e);
        },
    };
    let removed_chat_boost = match decode_opt_chat_boost_removed(j, "removed_chat_boost") {
        Ok(v) => v,
        Err(e) => {
            return Err(e);
        },
    };
    Ok(Update { update_id, message, edited_message, channel_post, edited_channel_post, message_reaction, message_reaction_count, inline_query, chosen_inline_result, callback_query, shipping_query, pre_checkout_query, poll, poll_answer, my_chat_member, chat_member, chat_join_request, chat_boost, removed_chat_boost })
}

/// Reveals every key of an update and pins the characters that tell
/// same-length keys apart.
proof fn update_keys_facts()
    ensures
        "update_id"@.len() == 9,
        "message"@.len() == 7,
        "edited_message"@.len() == 14,
        "channel_post"@.len() == 12,
        "edited_channel_post"@.len() == 19,
        "message_reaction"@.len() == 16,
        "message_reaction_count"@.len() == 22,
        "inline_query"@.len() == 12,
        "chosen_inline_result"@.len() == 20,
        "callback_query"@.len() == 14,
        "shipping_query"@.len() == 14,
        "pre_checkout_query"@.len() == 18,
        "poll"@.len() == 4,
        "poll_answer"@.len() == 11,
        "my_chat_member"@.len() == 14,
        "chat_member"@.len() == 11,
        "chat_join_request"@.len() == 17,
        "chat_boost"@.len() == 10,
        "removed_chat_boost"@.len() == 18,
        "chat_member"@[0] == 'c',
        "poll_answer"@[0] == 'p',
        "channel_post"@[0] == 'c',
        "inline_query"@[0] == 'i',
        "callback_query"@[0] == 'c',
        "edited_message"@[0] == 'e',
        "my_chat_member"@[0] == 'm',
        "shipping_query"@[0] == 's',
        "pre_checkout_query"@[0] == 'p',
        "removed_chat_boost"@[0] == 'r',
{
    reveal_strlit("update_id");
    reveal_strlit("message");
    reveal_strlit("edited_message");
    reveal_strlit("channel_post");
    reveal_strlit("edited_channel_post");
    reveal_strlit("message_reaction");
    reveal_strlit("message_reaction_count");
    reveal_strlit("inline_query");
    reveal_strlit("chosen_inline_result");
    reveal_strlit("callback_query");
    reveal_strlit("shipping_query");
    reveal_strlit("pre_checkout_query");
    reveal_strlit("poll");
    reveal_strlit("poll_answer");
    reveal_strlit("my_chat_member");
    reveal_strlit("chat_member");
    reveal_strlit("chat_join_request");
    reveal_strlit("chat_boost");
    reveal_strlit("removed_chat_boost");
}

/// A band of an encoded update's keys reads back exactly.
#[verifier::rlimit(100)]
#[verifier::spinoff_prover]
proof fn lemma_update_lookups_1(m: UpdateView)
    ensures
        sreq_i64(senc_update(m), "update_id"@) == Ok::<i64, DecodeErrorView>(m.update_id),
        sopt_val(senc_update(m), "message"@) == Ok::<Option<JsonSpec>, DecodeErrorView>(
            match m.message {
                Some(v) => Some(senc_message(v)),
                None => None,
            },
        ),
        sopt_val(senc_update(m), "edited_message"@) == Ok::<Option<JsonSpec>, DecodeErrorView>(
            match m.edited_message {
                Some(v) => Some(senc_message(v)),
                None => None,
            },
        ),
        sopt_val(senc_update(m), "channel_post"@) == Ok::<Option<JsonSpec>, DecodeErrorView>(
            match m.channel_post {
                Some(v) => Some(senc_message(v)),
                None => None,
            },
        ),
        sopt_val(senc_update(m), "edited_channel_post"@) == Ok::<Option<JsonSpec>, DecodeErrorView>(
            match m.edited_channel_post {
                Some(v) => Some(senc_message(v)),
                None => None,
            },
        ),
        sopt_val(senc_update(m), "message_reaction"@) == Ok::<Option<JsonSpec>, DecodeErrorView>(
            match m.message_reaction {
                Some(v) => Some(senc_message_reaction_updated(v)),
                None => None,
            },
        ),
        sopt_val(senc_update(m), "message_reaction_count"@) == Ok::<Option<JsonSpec>, DecodeErrorView>(
            match m.message_reaction_count {
                Some(v) => Some(senc_message_reaction_count_updated(v)),
                None => None,
            },
        ),
{
    broadcast use crate::json::group_json_ins;

    update_keys_facts();
}

/// A band of an encoded update's keys reads back exactly.
#[verifier::rlimit(100)]
#[verifier::spinoff_prover]
proof fn lemma_update_lookups_2(m: UpdateView)
    ensures
        sopt_val(senc_update(m), "inline_query"@) == Ok::<Option<JsonSpec>, DecodeErrorView>(
            match m.inline_query {
                Some(v) => Some(senc_inline_query(v)),
                None => None,
            },
        ),
        sopt_val(senc_update(m), "chosen_inline_result"@) == Ok::<Option<JsonSpec>, DecodeErrorView>(
            match m.chosen_inline_result {
                Some(v) => Some(senc_chosen_inline_result(v)),
                None => None,
            },
        ),
        sopt_val(senc_update(m), "callback_query"@) == Ok::<Option<JsonSpec>, DecodeErrorView>(
            match m.callback_query {
                Some(v) => Some(senc_callback_query(v)),
                None => None,
            },
        ),
        sopt_val(senc_update(m), "shipping_query"@) == Ok::<Option<JsonSpec>, DecodeErrorView>(
            match m.shipping_query {
                Some(v) => Some(senc_shipping_query(v)),
                None => None,
            },
        ),
        sopt_val(senc_update(m), "pre_checkout_query"@) == Ok::<Option<JsonSpec>, DecodeErrorView>(
            match m.pre_checkout_query {
                Some(v) => Some(senc_pre_checkout_query(v)),
                None => None,
            },
        ),
        sopt_val(senc_update(m), "poll"@) == Ok::<Option<JsonSpec>, DecodeErrorView>(
            match m.poll {
                Some(v) => Some(senc_pre_checkout_query(v)),
                None => None,
            },
        ),
{
    broadcast use crate::json::group_json_ins;

    update_keys_facts();
}

/// A band of an encoded update's keys reads back exactly.
#[verifier::rlimit(100)]
#[verifier::spinoff_prover]
proof fn lemma_update_lookups_3(m: UpdateView)
    ensures
        sopt_val(senc_update(m), "poll_answer"@) == Ok::<Option<JsonSpec>, DecodeErrorView>(
            match m.poll_answer {
                Some(v) => Some(senc_poll_answer(v)),
                None => None,
            },
        ),
        sopt_val(senc_update(m), "my_chat_member"@) == Ok::<Option<JsonSpec>, DecodeErrorView>(
            match m.my_chat_member {
                Some(v) => Some(senc_chat_member_updated(v)),
                None => None,
            },
        ),
        sopt_val(senc_update(m), "chat_member"@) == Ok::<Option<JsonSpec>, DecodeErrorView>(
            match m.chat_member {
                Some(v) => Some(senc_chat_member_updated(v)),
                None => None,
            },
        ),
        sopt_val(senc_update(m), "chat_join_request"@) == Ok::<Option<JsonSpec>, DecodeErrorView>(
            match m.chat_join_request {
                Some(v) => Some(senc_chat_join_request(v)),
                None => None,
            },
        ),
        sopt_val(senc_update(m), "chat_boost"@) == Ok::<Option<JsonSpec>, DecodeErrorView>(
            match m.chat_boost {
                Some(v) => Some(senc_chat_boost_updated(v)),
                None => None,
            },
        ),
        sopt_val(senc_update(m), "removed_chat_boost"@) == Ok::<Option<JsonSpec>, DecodeErrorView>(
            match m.removed_chat_boost {
                Some(v) => Some(senc_chat_boost_removed(v)),
                None => None,
            },
        ),
{
    broadcast use crate::json::group_json_ins;

    update_keys_facts();
}

/// A band of an encoded update's optional payloads decodes back to
/// the very values that were encoded.
#[verifier::rlimit(100)]
#[verifier::spinoff_prover]
proof fn lemma_update_opt_decodes_1(m: UpdateView)
    ensures
        sdec_opt_message(senc_update(m), "message"@) == Ok::<Option<Message>, DecodeErrorView>(m.message),
        sdec_opt_message(senc_update(m), "edited_message"@) == Ok::<Option<Message>, DecodeErrorView>(m.edited_message),
        sdec_opt_message(senc_update(m), "channel_post"@) == Ok::<Option<Message>, DecodeErrorView>(m.channel_post),
        sdec_opt_message(senc_update(m), "edited_channel_post"@) == Ok::<Option<Message>, DecodeErrorView>(m.edited_channel_post),
        sdec_opt_message_reaction_updated(senc_update(m), "message_reaction"@) == Ok::<Option<MessageReactionUpdated>, DecodeErrorView>(m.message_reaction),
        sdec_opt_message_reaction_count_updated(senc_update(m), "message_reaction_count"@) == Ok::<Option<MessageReactionCountUpdated>, DecodeErrorView>(m.message_reaction_count),
{
    lemma_update_lookups_1(m);
    match m.message {
        Some(v) => lemma_message_round_trip(v),
        None => (),
    }
    match m.edited_message {
        Some(v) => lemma_message_round_trip(v),
        None => (),
    }
    match m.channel_post {
        Some(v) => lemma_message_round_trip(v),
        None => (),
    }
    match m.edited_channel_post {
        Some(v) => lemma_message_round_trip(v),
        None => (),
    }
    match m.message_reaction {
        Some(v) => lemma_message_reaction_updated_round_trip(v),
        None => (),
    }
    match m.message_reaction_count {
        Some(v) => lemma_message_reaction_count_updated_round_trip(v),
        None => (),
    }
}

/// A band of an encoded update's optional payloads decodes back to
/// the very values that were encoded.
#[verifier::rlimit(100)]
#[verifier::spinoff_prover]
proof fn lemma_update_opt_decodes_2(m: UpdateView)
    ensures
        sdec_opt_inline_query(senc_update(m), "inline_query"@) == Ok::<Option<InlineQueryView>, DecodeErrorView>(m.inline_query),
        sdec_opt_chosen_inline_result(senc_update(m), "chosen_inline_result"@) == Ok::<Option<ChosenInlineResultView>, DecodeErrorView>(m.chosen_inline_result),
        sdec_opt_callback_query(senc_update(m), "callback_query"@) == Ok::<Option<CallbackQueryView>, DecodeErrorView>(m.callback_query),
        sdec_opt_shipping_query(senc_update(m), "shipping_query"@) == Ok::<Option<ShippingQueryView>, DecodeErrorView>(m.shipping_query),
        sdec_opt_pre_checkout_query(senc_update(m), "pre_checkout_query"@) == Ok::<Option<PreCheckoutQueryView>, DecodeErrorView>(m.pre_checkout_query),
        sdec_opt_pre_checkout_query(senc_update(m), "poll"@) == Ok::<Option<PreCheckoutQueryView>, DecodeErrorView>(m.poll),
{
    lemma_update_lookups_2(m);
    match m.inline_query {
        Some(v) => lemma_inline_query_round_trip(v),
        None => (),
    }
    match m.chosen_inline_result {
        Some(v) => lemma_chosen_inline_result_round_trip(v),
        None => (),
    }
    match m.callback_query {
        Some(v) => lemma_callback_query_round_trip(v),
        None => (),
    }
    match m.shipping_query {
        Some(v) => lemma_shipping_query_round_trip(v),
        None => (),
    }
    match m.pre_checkout_query {
        Some(v) => lemma_pre_checkout_query_round_trip(v),
        None => (),
    }
    match m.poll {
        Some(v) => lemma_pre_checkout_query_round_trip(v),
        None => (),
    }
}

/// A band of an encoded update's optional payloads decodes back to
/// the very values that were encoded.
#[verifier::rlimit(100)]
#[verifier::spinoff_prover]
proof fn lemma_update_opt_decodes_3(m: UpdateView)
    ensures
        sdec_opt_poll_answer(senc_update(m), "poll_answer"@) == Ok::<Option<PollAnswerView>, DecodeErrorView>(m.poll_answer),
        sdec_opt_chat_member_updated(senc_update(m), "my_chat_member"@) == Ok::<Option<ChatMemberUpdated>, DecodeErrorView>(m.my_chat_member),
        sdec_opt_chat_member_updated(senc_update(m), "chat_member"@) == Ok::<Option<ChatMemberUpdated>, DecodeErrorView>(m.chat_member),
        sdec_opt_chat_join_request(senc_update(m), "chat_join_request"@) == Ok::<Option<ChatJoinRequest>, DecodeErrorView>(m.chat_join_request),
        sdec_opt_chat_boost_updated(senc_update(m), "chat_boost"@) == Ok::<Option<ChatBoostUpdatedView>, DecodeErrorView>(m.chat_boost),
        sdec_opt_chat_boost_removed(senc_update(m), "removed_chat_boost"@) == Ok::<Option<ChatBoostRemovedView>, DecodeErrorView>(m.removed_chat_boost),
{
    lemma_update_lookups_3(m);
    match m.poll_answer {
        Some(v) => lemma_poll_answer_round_trip(v),
        None => (),
    }
    match m.my_chat_member {
        Some(v) => lemma_chat_member_updated_round_trip(v),
        None => (),
    }
    match m.chat_member {
        Some(v) => lemma_chat_member_updated_round_trip(v),
        None => (),
    }
    match m.chat_join_request {
        Some(v) => lemma_chat_join_request_round_trip(v),
        None => (),
    }
    match m.chat_boost {
        Some(v) => lemma_chat_boost_updated_round_trip(v),
        None => (),
    }
    match m.removed_chat_boost {
        Some(v) => lemma_chat_boost_removed_round_trip(v),
        None => (),
    }
}

/// Decoding undoes encoding, for every update.
#[verifier::rlimit(100)]
#[verifier::spinoff_prover]
pub proof fn lemma_update_round_trip(m: UpdateView)
    ensures
        sdec_update(senc_update(m)) == Ok::<UpdateView, DecodeErrorView>(m),
{
    lemma_update_lookups_1(m);
    lemma_update_opt_decodes_1(m);
    lemma_update_opt_decodes_2(m);
    lemma_update_opt_decodes_3(m);
}

} // verus!
