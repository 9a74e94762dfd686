use crate::errors::{DecodeError, DecodeErrorView};
use crate::json::{
    opt_str, opt_str_ins, push_i64_field, push_opt_str_field, push_str_field, req_i64, req_str,
    res_view, sopt_str, sreq_i64, sreq_str, JsonSpec, JsonValue,
};
use vstd::prelude::*;

verus! {

/// A conversation, reduced to the fields this schema reads. Its own
/// `kind` rides the wire under the name `type`.
#[derive(Debug, Clone, PartialEq)]
pub struct Chat {
    pub id: i64,
    pub kind: String,
    pub title: Option<String>,
    pub username: Option<String>,
}

/// Mathematical image of `Chat`.
#[verifier::ext_equal]
pub struct ChatView {
    pub id: i64,
    pub kind: Seq<char>,
    pub title: Option<Seq<char>>,
    pub username: Option<Seq<char>>,
}

impl View for Chat {
    type V = ChatView;

    open spec fn view(&self) -> ChatView {
        ChatView {
            id: self.id,
            kind: self.kind@,
            title: self.title.deep_view(),
            username: self.username.deep_view(),
        }
    }
}

impl DeepView for Chat {
    type V = ChatView;

    open spec fn deep_view(&self) -> ChatView {
        self.view()
    }
}

/// The object a chat serializes to; absent optionals leave no key.
pub open spec fn senc_chat(m: ChatView) -> JsonSpec {
    let o = Map::empty().insert("id"@, JsonSpec::Int(m.id as int)).insert(
        "type"@,
        JsonSpec::Str(m.kind),
    );
    let o = opt_str_ins(o, "title"@, m.title);
    let o = opt_str_ins(o, "username"@, m.username);
    JsonSpec::Obj(o)
}

/// The chat a tree decodes to.
pub open spec fn sdec_chat(j: JsonSpec) -> Result<ChatView, DecodeErrorView> {
    match sreq_i64(j, "id"@) {
        Err(e) => Err(e),
        Ok(id) => match sreq_str(j, "type"@) {
            Err(e) => Err(e),
            Ok(kind) => match sopt_str(j, "title"@) {
                Err(e) => Err(e),
                Ok(title) => match sopt_str(j, "username"@) {
                    Err(e) => Err(e),
                    Ok(username) => Ok(ChatView { id, kind, title, username }),
                },
            },
        },
    }
}

pub fn encode_chat(c: &Chat) -> (r: JsonValue)
    ensures
        r@ == senc_chat(c@),
{
    let mut pairs: Vec<(String, JsonValue)> = Vec::new();
    push_i64_field(&mut pairs, "id", c.id);
    push_str_field(&mut pairs, "type", &c.kind);
    push_opt_str_field(&mut pairs, "title", &c.title);
    push_opt_str_field(&mut pairs, "username", &c.username);
    JsonValue::Obj(pairs)
}

pub fn decode_chat(j: &JsonValue) -> (r: Result<Chat, DecodeError>)
    ensures
        res_view(r) == sdec_chat(j@),
{
    let id = match req_i64(j, "id") {
        Ok(v) => v,
        Err(e) => {
            return Err(e);
        },
    };
    let kind = match req_str(j, "type") {
        Ok(v) => v,
        Err(e) => {
            return Err(e);
        },
    };
    let title = match opt_str(j, "title") {
        Ok(v) => v,
        Err(e) => {
            return Err(e);
        },
    };
    let username = match opt_str(j, "username") {
        Ok(v) => v,
        Err(e) => {
            return Err(e);
        },
    };
    Ok(Chat { id, kind, title, username })
}

/// Decoding undoes encoding, for every chat value.
pub proof fn lemma_chat_round_trip(m: ChatView)
    ensures
        sdec_chat(senc_chat(m)) == Ok::<ChatView, DecodeErrorView>(m),
{
    broadcast use crate::json::group_json_ins;

    reveal_strlit("id");
    reveal_strlit("type");
    reveal_strlit("title");
    reveal_strlit("username");
    assert("id"@.len() == 2 && "type"@.len() == 4 && "title"@.len() == 5 && "username"@.len()
        == 8);
}

} // verus!
