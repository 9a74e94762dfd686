use crate::api::enums::chat_uid::{encode_chat_uid, senc_chat_uid, ChatUId, ChatUIdView};
use crate::json::{
    opt_i64_ins, push_field, push_opt_i64_field, sget, JsonSpec, JsonValue,
};
use vstd::prelude::*;

verus! {

/// Parameters for removing one message from a chat's pinned list.
#[derive(Debug, Clone, PartialEq)]
pub struct UnpinChatMessage {
    pub chat_id: ChatUId,
    pub message_id: Option<i64>,
}

/// Mathematical image of `UnpinChatMessage`.
#[verifier::ext_equal]
pub struct UnpinChatMessageView {
    pub chat_id: ChatUIdView,
    pub message_id: Option<i64>,
}

impl View for UnpinChatMessage {
    type V = UnpinChatMessageView;

    open spec fn view(&self) -> UnpinChatMessageView {
        UnpinChatMessageView { chat_id: self.chat_id@, message_id: self.message_id }
    }
}

impl DeepView for UnpinChatMessage {
    type V = UnpinChatMessageView;

    open spec fn deep_view(&self) -> UnpinChatMessageView {
        self.view()
    }
}

/// The object the request serializes to; an absent message identifier
/// leaves no key.
pub open spec fn senc_unpin_chat_message(m: UnpinChatMessageView) -> JsonSpec {
    let o = Map::empty().insert("chat_id"@, senc_chat_uid(m.chat_id));
    let o = opt_i64_ins(o, "message_id"@, m.message_id);
    JsonSpec::Obj(o)
}

pub fn encode_unpin_chat_message(p: &UnpinChatMessage) -> (r: JsonValue)
    ensures
        r@ == senc_unpin_chat_message(p@),
{
    let mut pairs: Vec<(String, JsonValue)> = Vec::new();
    push_field(&mut pairs, "chat_id", encode_chat_uid(&p.chat_id));
    push_opt_i64_field(&mut pairs, "message_id", &p.message_id);
    JsonValue::Obj(pairs)
}

/// The serialized payload holds a `message_id` key exactly when the
/// field holds a value; an absent field leaves no key, never a null.
pub proof fn lemma_unpin_chat_message_key_omission(m: UnpinChatMessageView)
    ensures
        sget(senc_unpin_chat_message(m), "chat_id"@) is Some,
        sget(senc_unpin_chat_message(m), "message_id"@) is Some <==> m.message_id is Some,
{
    broadcast use crate::json::group_json_ins;

    reveal_strlit("chat_id");
    reveal_strlit("message_id");
    assert("chat_id"@.len() == 7 && "message_id"@.len() == 10);
}

} // verus!
