use crate::api::types::message_origin_chat::{
    decode_message_origin_chat, encode_message_origin_chat, lemma_message_origin_chat_round_trip,
    sdec_message_origin_chat, senc_message_origin_chat, MessageOriginChat, MessageOriginChatView,
};
use crate::api::types::message_origin_user::{
    decode_message_origin_user, encode_message_origin_user, lemma_message_origin_user_round_trip,
    sdec_message_origin_user, senc_message_origin_user, MessageOriginUser, MessageOriginUserView,
};
use crate::errors::{DecodeError, DecodeErrorView};
use crate::json::{req_str, res_view, sreq_str, JsonSpec, JsonValue};
use vstd::prelude::*;
use vstd::string::StringExecFns;

verus! {

/// Where a message was originally sent from: a closed family resolved
/// by the literal `type` tag each member stores in its own `kind`.
#[derive(Debug, Clone, PartialEq)]
pub enum MessageOrigin {
    MessageOriginUser(MessageOriginUser),
    MessageOriginChat(MessageOriginChat),
}

/// Mathematical image of `MessageOrigin`.
#[verifier::ext_equal]
pub enum MessageOriginView {
    MessageOriginUser(MessageOriginUserView),
    MessageOriginChat(MessageOriginChatView),
}

impl View for MessageOrigin {
    type V = MessageOriginView;

    open spec fn view(&self) -> MessageOriginView {
        match self {
            MessageOrigin::MessageOriginUser(v) => MessageOriginView::MessageOriginUser(v@),
            MessageOrigin::MessageOriginChat(v) => MessageOriginView::MessageOriginChat(v@),
        }
    }
}

impl DeepView for MessageOrigin {
    type V = MessageOriginView;

    open spec fn deep_view(&self) -> MessageOriginView {
        self.view()
    }
}

/// A member is well formed when its stored `kind` names its own
/// variant's tag; only such values serialize to a payload that resolves
/// back to the same member.
pub open spec fn wf_message_origin(m: MessageOriginView) -> bool {
    match m {
        MessageOriginView::MessageOriginUser(v) => v.kind == "user"@,
        MessageOriginView::MessageOriginChat(v) => v.kind == "chat"@,
    }
}

/// The member an origin serializes as.
pub open spec fn senc_message_origin(m: MessageOriginView) -> JsonSpec {
    match m {
        MessageOriginView::MessageOriginUser(v) => senc_message_origin_user(v),
        MessageOriginView::MessageOriginChat(v) => senc_message_origin_chat(v),
    }
}

/// Resolves an origin payload against the closed tag table; a tag
/// outside the table is an error naming the family and the tag, never a
/// fallback member.
pub open spec fn sdec_message_origin(j: JsonSpec) -> Result<MessageOriginView, DecodeErrorView> {
    match sreq_str(j, "type"@) {
        Err(e) => Err(e),
        Ok(tag) => if tag == "user"@ {
            match sdec_message_origin_user(j) {
                Err(e) => Err(e),
                Ok(v) => Ok(MessageOriginView::MessageOriginUser(v)),
            }
        } else if tag == "chat"@ {
            match sdec_message_origin_chat(j) {
                Err(e) => Err(e),
                Ok(v) => Ok(MessageOriginView::MessageOriginChat(v)),
            }
        } else {
            Err(DecodeErrorView::UnknownTag { family: "MessageOrigin"@, tag })
        },
    }
}

pub fn encode_message_origin(m: &MessageOrigin) -> (r: JsonValue)
    ensures
        r@ == senc_message_origin(m@),
{
    match m {
        MessageOrigin::MessageOriginUser(v) => encode_message_origin_user(v),
        MessageOrigin::MessageOriginChat(v) => encode_message_origin_chat(v),
    }
}

pub fn decode_message_origin(j: &JsonValue) -> (r: Result<MessageOrigin, DecodeError>)
    ensures
        res_view(r) == sdec_message_origin(j@),
{
    let tag = match req_str(j, "type") {
        Ok(v) => v,
        Err(e) => {
            return Err(e);
        },
    };
    if crate::json::str_eq(tag.as_str(), "user") {
        match decode_message_origin_user(j) {
            Ok(v) => Ok(MessageOrigin::MessageOriginUser(v)),
            Err(e) => Err(e),
        }
    } else if crate::json::str_eq(tag.as_str(), "chat") {
        match decode_message_origin_chat(j) {
            Ok(v) => Ok(MessageOrigin::MessageOriginChat(v)),
            Err(e) => Err(e),
        }
    } else {
        Err(DecodeError::UnknownTag { family: String::from_str("MessageOrigin"), tag })
    }
}

/// Decoding undoes encoding, for every well-formed member of the
/// family. A member whose stored `kind` names a sibling's tag would
/// serialize to the sibling's payload, so well-formedness is required.
pub proof fn lemma_message_origin_round_trip(m: MessageOriginView)
    requires
        wf_message_origin(m),
    ensures
        sdec_message_origin(senc_message_origin(m)) == Ok::<MessageOriginView, DecodeErrorView>(m),
{
    reveal_strlit("type");
    reveal_strlit("user");
    reveal_strlit("chat");
    assert("type"@.len() == 4 && "user"@.len() == 4 && "chat"@.len() == 4);
    assert("type"@[0] == 't' && "user"@[0] == 'u' && "chat"@[0] == 'c');
    match m {
        MessageOriginView::MessageOriginUser(v) => lemma_message_origin_user_round_trip(v),
        MessageOriginView::MessageOriginChat(v) => lemma_message_origin_chat_round_trip(v),
    }
}

/// A tag outside the closed table is rejected by name, never resolved
/// to a fallback member.
pub proof fn lemma_message_origin_unknown_tag(j: JsonSpec, tag: Seq<char>)
    requires
        sreq_str(j, "type"@) == Ok::<Seq<char>, DecodeErrorView>(tag),
        tag != "user"@,
        tag != "chat"@,
    ensures
        sdec_message_origin(j) == Err::<MessageOriginView, DecodeErrorView>(
            DecodeErrorView::UnknownTag { family: "MessageOrigin"@, tag },
        ),
{
}

} // verus!
