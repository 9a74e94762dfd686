use crate::json::{push_i64_field, JsonSpec, JsonValue};
use vstd::prelude::*;

verus! {

/// Parameters for banning a channel chat in a supergroup or channel.
#[derive(Debug, Clone, Copy, PartialEq)]
pub struct BanChatSenderChat {
    pub chat_id: i64,
    pub sender_chat_id: i64,
}

impl View for BanChatSenderChat {
    type V = BanChatSenderChat;

    open spec fn view(&self) -> BanChatSenderChat {
        *self
    }
}

impl DeepView for BanChatSenderChat {
    type V = BanChatSenderChat;

    open spec fn deep_view(&self) -> BanChatSenderChat {
        *self
    }
}

/// The object the request serializes to.
pub open spec fn senc_ban_chat_sender_chat(m: BanChatSenderChat) -> JsonSpec {
    JsonSpec::Obj(
        Map::empty().insert("chat_id"@, JsonSpec::Int(m.chat_id as int)).insert(
            "sender_chat_id"@,
            JsonSpec::Int(m.sender_chat_id as int),
        ),
    )
}

pub fn encode_ban_chat_sender_chat(p: &BanChatSenderChat) -> (r: JsonValue)
    ensures
        r@ == senc_ban_chat_sender_chat(p@),
{
    let mut pairs: Vec<(String, JsonValue)> = Vec::new();
    push_i64_field(&mut pairs, "chat_id", p.chat_id);
    push_i64_field(&mut pairs, "sender_chat_id", p.sender_chat_id);
    JsonValue::Obj(pairs)
}

} // verus!
