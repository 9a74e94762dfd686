use crate::api::types::user::{
    decode_user, encode_user, sdec_user, senc_user, User, UserView,
};
use crate::errors::{DecodeError, DecodeErrorView};
use crate::json::{
    opt_bool, opt_bool_ins, opt_val, opt_val_ins, push_field, push_i64_field,
    push_opt_bool_field, req_i64, req_str, req_val, res_view, sopt_bool, sopt_val, sreq_i64,
    sreq_str, sreq_val, JsonSpec, JsonValue,
};
use vstd::prelude::*;
use vstd::string::StringExecFns;

verus! {

/// A boost bought through a paid subscription.
#[derive(Debug, Clone, PartialEq)]
pub struct ChatBoostSourcePremium {
    pub user: User,
}

/// Mathematical image of `ChatBoostSourcePremium`.
#[verifier::ext_equal]
pub struct ChatBoostSourcePremiumView {
    pub user: UserView,
}

impl View for ChatBoostSourcePremium {
    type V = ChatBoostSourcePremiumView;

    open spec fn view(&self) -> ChatBoostSourcePremiumView {
        ChatBoostSourcePremiumView { user: self.user@ }
    }
}

impl DeepView for ChatBoostSourcePremium {
    type V = ChatBoostSourcePremiumView;

    open spec fn deep_view(&self) -> ChatBoostSourcePremiumView {
        self.view()
    }
}

/// A boost created from a gift code.
#[derive(Debug, Clone, PartialEq)]
pub struct ChatBoostSourceGiftCode {
    pub user: User,
}

/// Mathematical image of `ChatBoostSourceGiftCode`.
#[verifier::ext_equal]
pub struct ChatBoostSourceGiftCodeView {
    pub user: UserView,
}

impl View for ChatBoostSourceGiftCode {
    type V = ChatBoostSourceGiftCodeView;

    open spec fn view(&self) -> ChatBoostSourceGiftCodeView {
        ChatBoostSourceGiftCodeView { user: self.user@ }
    }
}

impl DeepView for ChatBoostSourceGiftCode {
    type V = ChatBoostSourceGiftCodeView;

    open spec fn deep_view(&self) -> ChatBoostSourceGiftCodeView {
        self.view()
    }
}

/// A boost created from a giveaway; its winner may still be unknown.
#[derive(Debug, Clone, PartialEq)]
pub struct ChatBoostSourceGiveaway {
    pub giveaway_message_id: i64,
    pub user: Option<User>,
    pub is_unclaimed: Option<bool>,
}

/// Mathematical image of `ChatBoostSourceGiveaway`.
#[verifier::ext_equal]
pub struct ChatBoostSourceGiveawayView {
    pub giveaway_message_id: i64,
    pub user: Option<UserView>,
    pub is_unclaimed: Option<bool>,
}

impl View for ChatBoostSourceGiveaway {
    type V = ChatBoostSourceGiveawayView;

    open spec fn view(&self) -> ChatBoostSourceGiveawayView {
        ChatBoostSourceGiveawayView {
            giveaway_message_id: self.giveaway_message_id,
            user: self.user.deep_view(),
            is_unclaimed: self.is_unclaimed,
        }
    }
}

impl DeepView for ChatBoostSourceGiveaway {
    type V = ChatBoostSourceGiveawayView;

    open spec fn deep_view(&self) -> ChatBoostSourceGiveawayView {
        self.view()
    }
}

/// The source of a chat boost: a closed family resolved by the literal
/// `type` tag.
#[derive(Debug, Clone, PartialEq)]
pub enum ChatBoostSource {
    ChatBoostSourcePremium(ChatBoostSourcePremium),
    ChatBoostSourceGiftCode(ChatBoostSourceGiftCode),
    ChatBoostSourceGiveaway(ChatBoostSourceGiveaway),
}

/// Mathematical image of `ChatBoostSource`.
#[verifier::ext_equal]
pub enum ChatBoostSourceView {
    ChatBoostSourcePremium(ChatBoostSourcePremiumView),
    ChatBoostSourceGiftCode(ChatBoostSourceGiftCodeView),
    ChatBoostSourceGiveaway(ChatBoostSourceGiveawayView),
}

impl View for ChatBoostSource {
    type V = ChatBoostSourceView;

    open spec fn view(&self) -> ChatBoostSourceView {
        match self {
            ChatBoostSource::ChatBoostSourcePremium(v) => {
                ChatBoostSourceView::ChatBoostSourcePremium(v@)
            },
            ChatBoostSource::ChatBoostSourceGiftCode(v) => {
                ChatBoostSourceView::ChatBoostSourceGiftCode(v@)
            },
            ChatBoostSource::ChatBoostSourceGiveaway(v) => {
                ChatBoostSourceView::ChatBoostSourceGiveaway(v@)
            },
        }
    }
}

impl DeepView for ChatBoostSource {
    type V = ChatBoostSourceView;

    open spec fn deep_view(&self) -> ChatBoostSourceView {
        self.view()
    }
}

/// The object a premium source serializes to, tag included.
pub open spec fn senc_premium(m: ChatBoostSourcePremiumView) -> JsonSpec {
    JsonSpec::Obj(
        Map::empty().insert("type"@, JsonSpec::Str("premium"@)).insert("user"@, senc_user(m.user)),
    )
}

/// The object a gift-code source serializes to, tag included.
pub open spec fn senc_gift_code(m: ChatBoostSourceGiftCodeView) -> JsonSpec {
    JsonSpec::Obj(
        Map::empty().insert("type"@, JsonSpec::Str("gift_code"@)).insert(
            "user"@,
            senc_user(m.user),
        ),
    )
}

/// The object a giveaway source serializes to, tag included; absent
/// optionals leave no key.
pub open spec fn senc_giveaway(m: ChatBoostSourceGiveawayView) -> JsonSpec {
    let o = Map::empty().insert("type"@, JsonSpec::Str("giveaway"@)).insert(
        "giveaway_message_id"@,
        JsonSpec::Int(m.giveaway_message_id as int),
    );
    let o = opt_val_ins(
        o,
        "user"@,
        match m.user {
            Some(u) => Some(senc_user(u)),
            None => None,
        },
    );
    let o = opt_bool_ins(o, "is_unclaimed"@, m.is_unclaimed);
    JsonSpec::Obj(o)
}

/// The member a boost source serializes as.
pub open spec fn senc_chat_boost_source(m: ChatBoostSourceView) -> JsonSpec {
    match m {
        ChatBoostSourceView::ChatBoostSourcePremium(v) => senc_premium(v),
        ChatBoostSourceView::ChatBoostSourceGiftCode(v) => senc_gift_code(v),
        ChatBoostSourceView::ChatBoostSourceGiveaway(v) => senc_giveaway(v),
    }
}

/// Decodes the premium member's own fields.
pub open spec fn sdec_premium(j: JsonSpec) -> Result<
    ChatBoostSourcePremiumView,
    DecodeErrorView,
> {
    match sreq_val(j, "user"@) {
        Err(e) => Err(e),
        Ok(u) => match sdec_user(u) {
            Err(e) => Err(e),
            Ok(user) => Ok(ChatBoostSourcePremiumView { user }),
        },
    }
}

/// Decodes the gift-code member's own fields.
pub open spec fn sdec_gift_code(j: JsonSpec) -> Result<
    ChatBoostSourceGiftCodeView,
    DecodeErrorView,
> {
    match sreq_val(j, "user"@) {
        Err(e) => Err(e),
        Ok(u) => match sdec_user(u) {
            Err(e) => Err(e),
            Ok(user) => Ok(ChatBoostSourceGiftCodeView { user }),
        },
    }
}

/// Decodes the giveaway member's own fields.
pub open spec fn sdec_giveaway(j: JsonSpec) -> Result<
    ChatBoostSourceGiveawayView,
    DecodeErrorView,
> {
    match sreq_i64(j, "giveaway_message_id"@) {
        Err(e) => Err(e),
        Ok(gmi) => match sopt_val(j, "user"@) {
            Err(e) => Err(e),
            Ok(None) => match sopt_bool(j, "is_unclaimed"@) {
                Err(e) => Err(e),
                Ok(iu) => Ok(
                    ChatBoostSourceGiveawayView {
                        giveaway_message_id: gmi,
                        user: None,
                        is_unclaimed: iu,
                    },
                ),
            },
            Ok(Some(uj)) => match sdec_user(uj) {
                Err(e) => Err(e),
                Ok(user) => match sopt_bool(j, "is_unclaimed"@) {
                    Err(e) => Err(e),
                    Ok(iu) => Ok(
                        ChatBoostSourceGiveawayView {
                            giveaway_message_id: gmi,
                            user: Some(user),
                            is_unclaimed: iu,
                        },
                    ),
                },
            },
        },
    }
}

/// Resolves a boost-source payload against the closed tag table; a tag
/// outside the table is an error naming the family and the tag, never a
/// fallback member.
pub open spec fn sdec_chat_boost_source(j: JsonSpec) -> Result<
    ChatBoostSourceView,
    DecodeErrorView,
> {
    match sreq_str(j, "type"@) {
        Err(e) => Err(e),
        Ok(tag) => if tag == "premium"@ {
            match sdec_premium(j) {
                Err(e) => Err(e),
                Ok(v) => Ok(ChatBoostSourceView::ChatBoostSourcePremium(v)),
            }
        } else if tag == "gift_code"@ {
            match sdec_gift_code(j) {
                Err(e) => Err(e),
                Ok(v) => Ok(ChatBoostSourceView::ChatBoostSourceGiftCode(v)),
            }
        } else if tag == "giveaway"@ {
            match sdec_giveaway(j) {
                Err(e) => Err(e),
                Ok(v) => Ok(ChatBoostSourceView::ChatBoostSourceGiveaway(v)),
            }
        } else {
            Err(DecodeErrorView::UnknownTag { family: "ChatBoostSource"@, tag })
        },
    }
}

pub fn encode_chat_boost_source(s: &ChatBoostSource) -> (r: JsonValue)
    ensures
        r@ == senc_chat_boost_source(s@),
{
    match s {
        ChatBoostSource::ChatBoostSourcePremium(v) => {
            let mut pairs: Vec<(String, JsonValue)> = Vec::new();
            push_field(&mut pairs, "type", JsonValue::Str(String::from_str("premium")));
            push_field(&mut pairs, "user", encode_user(&v.user));
            JsonValue::Obj(pairs)
        },
        ChatBoostSource::ChatBoostSourceGiftCode(v) => {
            let mut pairs: Vec<(String, JsonValue)> = Vec::new();
            push_field(&mut pairs, "type", JsonValue::Str(String::from_str("gift_code")));
            push_field(&mut pairs, "user", encode_user(&v.user));
            JsonValue::Obj(pairs)
        },
        ChatBoostSource::ChatBoostSourceGiveaway(v) => {
            proof {
                reveal(crate::json::opt_val_ins);
            }
            let mut pairs: Vec<(String, JsonValue)> = Vec::new();
            push_field(&mut pairs, "type", JsonValue::Str(String::from_str("giveaway")));
            push_i64_field(&mut pairs, "giveaway_message_id", v.giveaway_message_id);
            match &v.user {
                Some(u) => push_field(&mut pairs, "user", encode_user(u)),
                None => (),
            }
            push_opt_bool_field(&mut pairs, "is_unclaimed", &v.is_unclaimed);
            JsonValue::Obj(pairs)
        },
    }
}

pub fn decode_chat_boost_source(j: &JsonValue) -> (r: Result<ChatBoostSource, DecodeError>)
    ensures
        res_view(r) == sdec_chat_boost_source(j@),
{
    let tag = match req_str(j, "type") {
        Ok(v) => v,
        Err(e) => {
            return Err(e);
        },
    };
    if crate::json::str_eq(tag.as_str(), "premium") {
        let u = match req_val(j, "user") {
            Ok(v) => v,
            Err(e) => {
                return Err(e);
            },
        };
        let user = match decode_user(u) {
            Ok(v) => v,
            Err(e) => {
                return Err(e);
            },
        };
        Ok(ChatBoostSource::ChatBoostSourcePremium(ChatBoostSourcePremium { user }))
    } else if crate::json::str_eq(tag.as_str(), "gift_code") {
        let u = match req_val(j, "user") {
            Ok(v) => v,
            Err(e) => {
                return Err(e);
            },
        };
        let user = match decode_user(u) {
            Ok(v) => v,
            Err(e) => {
                return Err(e);
            },
        };
        Ok(ChatBoostSource::ChatBoostSourceGiftCode(ChatBoostSourceGiftCode { user }))
    } else if crate::json::str_eq(tag.as_str(), "giveaway") {
        let gmi = match req_i64(j, "giveaway_message_id") {
            Ok(v) => v,
            Err(e) => {
                return Err(e);
            },
        };
        let user = match opt_val(j, "user") {
            Ok(None) => None,
            Ok(Some(uj)) => match decode_user(uj) {
                Ok(v) => Some(v),
                Err(e) => {
                    return Err(e);
                },
            },
            Err(e) => {
                return Err(e);
            },
        };
        let iu = match opt_bool(j, "is_unclaimed") {
            Ok(v) => v,
            Err(e) => {
                return Err(e);
            },
        };
        Ok(
            ChatBoostSource::ChatBoostSourceGiveaway(
                ChatBoostSourceGiveaway {
                    giveaway_message_id: gmi,
                    user,
                    is_unclaimed: iu,
                },
            ),
        )
    } else {
        Err(DecodeError::UnknownTag { family: String::from_str("ChatBoostSource"), tag })
    }
}

/// Decoding undoes encoding, for every member of the family.
pub proof fn lemma_chat_boost_source_round_trip(m: ChatBoostSourceView)
    ensures
        sdec_chat_boost_source(senc_chat_boost_source(m)) == Ok::<
            ChatBoostSourceView,
            DecodeErrorView,
        >(m),
{
    broadcast use crate::json::group_json_ins;

    reveal_strlit("type");
    reveal_strlit("user");
    reveal_strlit("giveaway_message_id");
    reveal_strlit("is_unclaimed");
    reveal_strlit("premium");
    reveal_strlit("gift_code");
    reveal_strlit("giveaway");
    assert("type"@.len() == 4 && "user"@.len() == 4 && "giveaway_message_id"@.len() == 19
        && "is_unclaimed"@.len() == 12);
    assert("premium"@.len() == 7 && "gift_code"@.len() == 9 && "giveaway"@.len() == 8);
    assert("type"@[0] == 't' && "user"@[0] == 'u');
    match m {
        ChatBoostSourceView::ChatBoostSourcePremium(v) => {
            crate::api::types::user::lemma_user_round_trip(v.user);
        },
        ChatBoostSourceView::ChatBoostSourceGiftCode(v) => {
            crate::api::types::user::lemma_user_round_trip(v.user);
        },
        ChatBoostSourceView::ChatBoostSourceGiveaway(v) => {
            match v.user {
                Some(u) => crate::api::types::user::lemma_user_round_trip(u),
                None => (),
            }
        },
    }
}

/// A tag outside the closed table is rejected by name, never resolved
/// to a fallback member.
pub proof fn lemma_chat_boost_source_unknown_tag(j: JsonSpec, tag: Seq<char>)
    requires
        sreq_str(j, "type"@) == Ok::<Seq<char>, DecodeErrorView>(tag),
        tag != "premium"@,
        tag != "gift_code"@,
        tag != "giveaway"@,
    ensures
        sdec_chat_boost_source(j) == Err::<ChatBoostSourceView, DecodeErrorView>(
            DecodeErrorView::UnknownTag { family: "ChatBoostSource"@, tag },
        ),
{
}

} // verus!
