use crate::api::enums::chat_uid::{encode_chat_uid, senc_chat_uid, ChatUId, ChatUIdView};
use crate::json::{
    opt_bool_ins, opt_i64_ins, opt_str_ins, opt_val_ins, push_field, push_i64_field,
    push_opt_bool_field, push_opt_i64_field, push_opt_str_field, sget, JsonSpec, JsonValue,
};
use vstd::prelude::*;

verus! {

/// Parameters for setting a user's score in a game message.
#[derive(Debug, Clone, PartialEq)]
pub struct SetGameScore {
    pub user_id: i64,
    pub score: i64,
    pub force: Option<bool>,
    pub disable_edit_message: Option<bool>,
    pub chat_id: Option<ChatUId>,
    pub message_id: Option<i64>,
    pub inline_message_id: Option<String>,
}

/// Mathematical image of `SetGameScore`.
#[verifier::ext_equal]
pub struct SetGameScoreView {
    pub user_id: i64,
    pub score: i64,
    pub force: Option<bool>,
    pub disable_edit_message: Option<bool>,
    pub chat_id: Option<ChatUIdView>,
    pub message_id: Option<i64>,
    pub inline_message_id: Option<Seq<char>>,
}

impl View for SetGameScore {
    type V = SetGameScoreView;

    open spec fn view(&self) -> SetGameScoreView {
        SetGameScoreView {
            user_id: self.user_id,
            score: self.score,
            force: self.force,
            disable_edit_message: self.disable_edit_message,
            chat_id: self.chat_id.deep_view(),
            message_id: self.message_id,
            inline_message_id: self.inline_message_id.deep_view(),
        }
    }
}

impl DeepView for SetGameScore {
    type V = SetGameScoreView;

    open spec fn deep_view(&self) -> SetGameScoreView {
        self.view()
    }
}

/// The object the request serializes to; absent optionals leave no key.
pub open spec fn senc_set_game_score(m: SetGameScoreView) -> JsonSpec {
    let o = Map::empty().insert("user_id"@, JsonSpec::Int(m.user_id as int)).insert(
        "score"@,
        JsonSpec::Int(m.score as int),
    );
    let o = opt_bool_ins(o, "force"@, m.force);
    let o = opt_bool_ins(o, "disable_edit_message"@, m.disable_edit_message);
    let o = opt_val_ins(
        o,
        "chat_id"@,
        match m.chat_id {
            Some(u) => Some(senc_chat_uid(u)),
            None => None,
        },
    );
    let o = opt_i64_ins(o, "message_id"@, m.message_id);
    let o = opt_str_ins(o, "inline_message_id"@, m.inline_message_id);
    JsonSpec::Obj(o)
}

pub fn encode_set_game_score(p: &SetGameScore) -> (r: JsonValue)
    ensures
        r@ == senc_set_game_score(p@),
{
    proof {
        reveal(crate::json::opt_val_ins);
    }
    let mut pairs: Vec<(String, JsonValue)> = Vec::new();
    push_i64_field(&mut pairs, "user_id", p.user_id);
    push_i64_field(&mut pairs, "score", p.score);
    push_opt_bool_field(&mut pairs, "force", &p.force);
    push_opt_bool_field(&mut pairs, "disable_edit_message", &p.disable_edit_message);
    match &p.chat_id {
        Some(u) => push_field(&mut pairs, "chat_id", encode_chat_uid(u)),
        None => (),
    }
    push_opt_i64_field(&mut pairs, "message_id", &p.message_id);
    push_opt_str_field(&mut pairs, "inline_message_id", &p.inline_message_id);
    JsonValue::Obj(pairs)
}

/// The serialized payload holds a key for each optional field exactly
/// when the field holds a value; an absent field leaves no key, never a
/// null.
pub proof fn lemma_set_game_score_key_omission(m: SetGameScoreView)
    ensures
        sget(senc_set_game_score(m), "user_id"@) is Some,
        sget(senc_set_game_score(m), "score"@) is Some,
        sget(senc_set_game_score(m), "force"@) is Some <==> m.force is Some,
        sget(senc_set_game_score(m), "disable_edit_message"@) is Some
            <==> m.disable_edit_message is Some,
        sget(senc_set_game_score(m), "chat_id"@) is Some <==> m.chat_id is Some,
        sget(senc_set_game_score(m), "message_id"@) is Some <==> m.message_id is Some,
        sget(senc_set_game_score(m), "inline_message_id"@) is Some
            <==> m.inline_message_id is Some,
{
    broadcast use crate::json::group_json_ins;

    reveal_strlit("user_id");
    reveal_strlit("score");
    reveal_strlit("force");
    reveal_strlit("disable_edit_message");
    reveal_strlit("chat_id");
    reveal_strlit("message_id");
    reveal_strlit("inline_message_id");
    assert("user_id"@.len() == 7 && "score"@.len() == 5 && "force"@.len() == 5
        && "disable_edit_message"@.len() == 20);
    assert("chat_id"@.len() == 7 && "message_id"@.len() == 10 && "inline_message_id"@.len()
        == 17);
    assert("score"@[0] == 's' && "force"@[0] == 'f');
    assert("user_id"@[0] == 'u' && "chat_id"@[0] == 'c');
}

} // verus!
