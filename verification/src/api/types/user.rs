use crate::errors::{DecodeError, DecodeErrorView};
use crate::json::{
    push_bool_field, push_i64_field, push_str_field, req_bool, req_i64, req_str, res_view,
    sreq_bool, sreq_i64, sreq_str, JsonSpec, JsonValue,
};
use vstd::prelude::*;

verus! {

/// A remote account, reduced to the fields this schema reads.
#[derive(Debug, Clone, PartialEq)]
pub struct User {
    pub id: i64,
    pub is_bot: bool,
    pub first_name: String,
}

/// Mathematical image of `User`.
#[verifier::ext_equal]
pub struct UserView {
    pub id: i64,
    pub is_bot: bool,
    pub first_name: Seq<char>,
}

impl View for User {
    type V = UserView;

    open spec fn view(&self) -> UserView {
        UserView { id: self.id, is_bot: self.is_bot, first_name: self.first_name@ }
    }
}

impl DeepView for User {
    type V = UserView;

    open spec fn deep_view(&self) -> UserView {
        self.view()
    }
}

/// The object a user serializes to.
pub open spec fn senc_user(m: UserView) -> JsonSpec {
    JsonSpec::Obj(
        Map::empty().insert("id"@, JsonSpec::Int(m.id as int)).insert(
            "is_bot"@,
            JsonSpec::Bool(m.is_bot),
        ).insert("first_name"@, JsonSpec::Str(m.first_name)),
    )
}

/// The user a tree decodes to.
pub open spec fn sdec_user(j: JsonSpec) -> Result<UserView, DecodeErrorView> {
    match sreq_i64(j, "id"@) {
        Err(e) => Err(e),
        Ok(id) => match sreq_bool(j, "is_bot"@) {
            Err(e) => Err(e),
            Ok(is_bot) => match sreq_str(j, "first_name"@) {
                Err(e) => Err(e),
                Ok(first_name) => Ok(UserView { id, is_bot, first_name }),
            },
        },
    }
}

pub fn encode_user(u: &User) -> (r: JsonValue)
    ensures
        r@ == senc_user(u@),
{
    let mut pairs: Vec<(String, JsonValue)> = Vec::new();
    push_i64_field(&mut pairs, "id", u.id);
    push_bool_field(&mut pairs, "is_bot", u.is_bot);
    push_str_field(&mut pairs, "first_name", &u.first_name);
    JsonValue::Obj(pairs)
}

pub fn decode_user(j: &JsonValue) -> (r: Result<User, DecodeError>)
    ensures
        res_view(r) == sdec_user(j@),
{
    let id = match req_i64(j, "id") {
        Ok(v) => v,
        Err(e) => {
            return Err(e);
        },
    };
    let is_bot = match req_bool(j, "is_bot") {
        Ok(v) => v,
        Err(e) => {
            return Err(e);
        },
    };
    let first_name = match req_str(j, "first_name") {
        Ok(v) => v,
        Err(e) => {
            return Err(e);
        },
    };
    Ok(User { id, is_bot, first_name })
}

/// Decoding undoes encoding, for every user value.
pub proof fn lemma_user_round_trip(m: UserView)
    ensures
        sdec_user(senc_user(m)) == Ok::<UserView, DecodeErrorView>(m),
{
    reveal_strlit("id");
    reveal_strlit("is_bot");
    reveal_strlit("first_name");
    assert("id"@.len() == 2 && "is_bot"@.len() == 6 && "first_name"@.len() == 10);
}

} // verus!
