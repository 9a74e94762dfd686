use crate::errors::{DecodeError, DecodeErrorView};
use crate::json::{
    opt_bool, opt_bool_ins, push_bool_field, push_opt_bool_field, req_bool, res_view, sopt_bool,
    sreq_bool, JsonSpec, JsonValue,
};
use vstd::prelude::*;

verus! {

/// The rights of an administrator in a chat. The channel-only rights
/// are optional; every other right is always reported.
#[derive(Debug, Clone, Copy, PartialEq)]
pub struct ChatAdministratorRights {
    pub is_anonymous: bool,
    pub can_manage_chat: bool,
    pub can_delete_messages: bool,
    pub can_manage_video_chats: bool,
    pub can_restrict_members: bool,
    pub can_promote_members: bool,
    pub can_change_info: bool,
    pub can_invite_users: bool,
    pub can_post_messages: Option<bool>,
    pub can_edit_messages: Option<bool>,
    pub can_pin_messages: Option<bool>,
    pub can_post_stories: Option<bool>,
    pub can_edit_stories: Option<bool>,
    pub can_delete_stories: Option<bool>,
    pub can_manage_topics: Option<bool>,
}

impl View for ChatAdministratorRights {
    type V = ChatAdministratorRights;

    open spec fn view(&self) -> ChatAdministratorRights {
        *self
    }
}

impl DeepView for ChatAdministratorRights {
    type V = ChatAdministratorRights;

    open spec fn deep_view(&self) -> ChatAdministratorRights {
        *self
    }
}

/// The object a rights record serializes to; absent optionals leave no
/// key.
pub open spec fn senc_chat_administrator_rights(m: ChatAdministratorRights) -> JsonSpec {
    let o = Map::empty().insert("is_anonymous"@, JsonSpec::Bool(m.is_anonymous)).insert(
        "can_manage_chat"@,
        JsonSpec::Bool(m.can_manage_chat),
    ).insert("can_delete_messages"@, JsonSpec::Bool(m.can_delete_messages)).insert(
        "can_manage_video_chats"@,
        JsonSpec::Bool(m.can_manage_video_chats),
    ).insert("can_restrict_members"@, JsonSpec::Bool(m.can_restrict_members)).insert(
        "can_promote_members"@,
        JsonSpec::Bool(m.can_promote_members),
    ).insert("can_change_info"@, JsonSpec::Bool(m.can_change_info)).insert(
        "can_invite_users"@,
        JsonSpec::Bool(m.can_invite_users),
    );
    let o = opt_bool_ins(o, "can_post_messages"@, m.can_post_messages);
    let o = opt_bool_ins(o, "can_edit_messages"@, m.can_edit_messages);
    let o = opt_bool_ins(o, "can_pin_messages"@, m.can_pin_messages);
    let o = opt_bool_ins(o, "can_post_stories"@, m.can_post_stories);
    let o = opt_bool_ins(o, "can_edit_stories"@, m.can_edit_stories);
    let o = opt_bool_ins(o, "can_delete_stories"@, m.can_delete_stories);
    let o = opt_bool_ins(o, "can_manage_topics"@, m.can_manage_topics);
    JsonSpec::Obj(o)
}

/// The rights record a tree decodes to.
pub open spec fn sdec_chat_administrator_rights(j: JsonSpec) -> Result<
    ChatAdministratorRights,
    DecodeErrorView,
> {
    match sreq_bool(j, "is_anonymous"@) {
        Err(e) => Err(e),
        Ok(is_anonymous) => match sreq_bool(j, "can_manage_chat"@) {
            Err(e) => Err(e),
            Ok(can_manage_chat) => match sreq_bool(j, "can_delete_messages"@) {
                Err(e) => Err(e),
                Ok(can_delete_messages) => match sreq_bool(j, "can_manage_video_chats"@) {
                    Err(e) => Err(e),
                    Ok(can_manage_video_chats) => match sreq_bool(j, "can_restrict_members"@) {
                        Err(e) => Err(e),
                        Ok(can_restrict_members) => match sreq_bool(j, "can_promote_members"@) {
                            Err(e) => Err(e),
                            Ok(can_promote_members) => match sreq_bool(j, "can_change_info"@) {
                                Err(e) => Err(e),
                                Ok(can_change_info) => match sreq_bool(j, "can_invite_users"@) {
                                    Err(e) => Err(e),
                                    Ok(can_invite_users) => match sopt_bool(
                                        j,
                                        "can_post_messages"@,
                                    ) {
                                        Err(e) => Err(e),
                                        Ok(can_post_messages) => match sopt_bool(
                                            j,
                                            "can_edit_messages"@,
                                        ) {
                                            Err(e) => Err(e),
                                            Ok(can_edit_messages) => match sopt_bool(
                                                j,
                                                "can_pin_messages"@,
                                            ) {
                                                Err(e) => Err(e),
                                                Ok(can_pin_messages) => match sopt_bool(
                                                    j,
                                                    "can_post_stories"@,
                                                ) {
                                                    Err(e) => Err(e),
                                                    Ok(can_post_stories) => match sopt_bool(
                                                        j,
                                                        "can_edit_stories"@,
                                                    ) {
                                                        Err(e) => Err(e),
                                                        Ok(can_edit_stories) => match sopt_bool(
                                                            j,
                                                            "can_delete_stories"@,
                                                        ) {
                                                            Err(e) => Err(e),
                                                            Ok(can_delete_stories) => match sopt_bool(
                                                                j,
                                                                "can_manage_topics"@,
                                                            ) {
                                                                Err(e) => Err(e),
                                                                Ok(can_manage_topics) => Ok(
                                                                    ChatAdministratorRights {
                                                                        is_anonymous,
                                                                        can_manage_chat,
                                                                        can_delete_messages,
                                                                        can_manage_video_chats,
                                                                        can_restrict_members,
                                                                        can_promote_members,
                                                                        can_change_info,
                                                                        can_invite_users,
                                                                        can_post_messages,
                                                                        can_edit_messages,
                                                                        can_pin_messages,
                                                                        can_post_stories,
                                                                        can_edit_stories,
                                                                        can_delete_stories,
                                                                        can_manage_topics,
                                                                    },
                                                                ),
                                                            },
                                                        },
                                                    },
                                                },
                                            },
                                        },
                                    },
                                },
                            },
                        },
                    },
                },
            },
        },
    }
}

pub fn encode_chat_administrator_rights(m: &ChatAdministratorRights) -> (r: JsonValue)
    ensures
        r@ == senc_chat_administrator_rights(m@),
{
    let mut pairs: Vec<(String, JsonValue)> = Vec::new();
    push_bool_field(&mut pairs, "is_anonymous", m.is_anonymous);
    push_bool_field(&mut pairs, "can_manage_chat", m.can_manage_chat);
    push_bool_field(&mut pairs, "can_delete_messages", m.can_delete_messages);
    push_bool_field(&mut pairs, "can_manage_video_chats", m.can_manage_video_chats);
    push_bool_field(&mut pairs, "can_restrict_members", m.can_restrict_members);
    push_bool_field(&mut pairs, "can_promote_members", m.can_promote_members);
    push_bool_field(&mut pairs, "can_change_info", m.can_change_info);
    push_bool_field(&mut pairs, "can_invite_users", m.can_invite_users);
    push_opt_bool_field(&mut pairs, "can_post_messages", &m.can_post_messages);
    push_opt_bool_field(&mut pairs, "can_edit_messages", &m.can_edit_messages);
    push_opt_bool_field(&mut pairs, "can_pin_messages", &m.can_pin_messages);
    push_opt_bool_field(&mut pairs, "can_post_stories", &m.can_post_stories);
    push_opt_bool_field(&mut pairs, "can_edit_stories", &m.can_edit_stories);
    push_opt_bool_field(&mut pairs, "can_delete_stories", &m.can_delete_stories);
    push_opt_bool_field(&mut pairs, "can_manage_topics", &m.can_manage_topics);
    JsonValue::Obj(pairs)
}

pub fn decode_chat_administrator_rights(j: &JsonValue) -> (r: Result<
    ChatAdministratorRights,
    DecodeError,
>)
    ensures
        res_view(r) == sdec_chat_administrator_rights(j@),
{
    let is_anonymous = match req_bool(j, "is_anonymous") {
        Ok(v) => v,
        Err(e) => {
            return Err(e);
        },
    };
    let can_manage_chat = match req_bool(j, "can_manage_chat") {
        Ok(v) => v,
        Err(e) => {
            return Err(e);
        },
    };
    let can_delete_messages = match req_bool(j, "can_delete_messages") {
        Ok(v) => v,
        Err(e) => {
            return Err(e);
        },
    };
    let can_manage_video_chats = match req_bool(j, "can_manage_video_chats") {
        Ok(v) => v,
        Err(e) => {
            return Err(e);
        },
    };
    let can_restrict_members = match req_bool(j, "can_restrict_members") {
        Ok(v) => v,
        Err(e) => {
            return Err(e);
        },
    };
    let can_promote_members = match req_bool(j, "can_promote_members") {
        Ok(v) => v,
        Err(e) => {
            return Err(e);
        },
    };
    let can_change_info = match req_bool(j, "can_change_info") {
        Ok(v) => v,
        Err(e) => {
            return Err(e);
        },
    };
    let can_invite_users = match req_bool(j, "can_invite_users") {
        Ok(v) => v,
        Err(e) => {
            return Err(e);
        },
    };
    let can_post_messages = match opt_bool(j, "can_post_messages") {
        Ok(v) => v,
        Err(e) => {
            return Err(e);
        },
    };
    let can_edit_messages = match opt_bool(j, "can_edit_messages") {
        Ok(v) => v,
        Err(e) => {
            return Err(e);
        },
    };
    let can_pin_messages = match opt_bool(j, "can_pin_messages") {
        Ok(v) => v,
        Err(e) => {
            return Err(e);
        },
    };
    let can_post_stories = match opt_bool(j, "can_post_stories") {
        Ok(v) => v,
        Err(e) => {
            return Err(e);
        },
    };
    let can_edit_stories = match opt_bool(j, "can_edit_stories") {
        Ok(v) => v,
        Err(e) => {
            return Err(e);
        },
    };
    let can_delete_stories = match opt_bool(j, "can_delete_stories") {
        Ok(v) => v,
        Err(e) => {
            return Err(e);
        },
    };
    let can_manage_topics = match opt_bool(j, "can_manage_topics") {
        Ok(v) => v,
        Err(e) => {
            return Err(e);
        },
    };
    Ok(
        ChatAdministratorRights {
            is_anonymous,
            can_manage_chat,
            can_delete_messages,
            can_manage_video_chats,
            can_restrict_members,
            can_promote_members,
            can_change_info,
            can_invite_users,
            can_post_messages,
            can_edit_messages,
            can_pin_messages,
            can_post_stories,
            can_edit_stories,
            can_delete_stories,
            can_manage_topics,
        },
    )
}

/// Reveals every key of the rights record and pins the characters that
/// tell same-length keys apart.
pub(crate) proof fn rights_keys_facts()
    ensures
        "is_anonymous"@.len() == 12,
        "can_manage_chat"@.len() == 15,
        "can_delete_messages"@.len() == 19,
        "can_manage_video_chats"@.len() == 22,
        "can_restrict_members"@.len() == 20,
        "can_promote_members"@.len() == 19,
        "can_change_info"@.len() == 15,
        "can_invite_users"@.len() == 16,
        "can_post_messages"@.len() == 17,
        "can_edit_messages"@.len() == 17,
        "can_pin_messages"@.len() == 16,
        "can_post_stories"@.len() == 16,
        "can_edit_stories"@.len() == 16,
        "can_delete_stories"@.len() == 18,
        "can_manage_topics"@.len() == 17,
        "can_manage_chat"@[4] == 'm' && "can_change_info"@[4] == 'c',
        "can_delete_messages"@[4] == 'd' && "can_promote_members"@[4] == 'p',
        "can_invite_users"@[4] == 'i' && "can_pin_messages"@[4] == 'p',
        "can_post_stories"@[4] == 'p' && "can_edit_stories"@[4] == 'e',
        "can_pin_messages"@[5] == 'i' && "can_post_stories"@[5] == 'o',
        "can_post_messages"@[4] == 'p' && "can_edit_messages"@[4] == 'e',
        "can_manage_topics"@[4] == 'm',
{
    reveal_strlit("is_anonymous");
    reveal_strlit("can_manage_chat");
    reveal_strlit("can_delete_messages");
    reveal_strlit("can_manage_video_chats");
    reveal_strlit("can_restrict_members");
    reveal_strlit("can_promote_members");
    reveal_strlit("can_change_info");
    reveal_strlit("can_invite_users");
    reveal_strlit("can_post_messages");
    reveal_strlit("can_edit_messages");
    reveal_strlit("can_pin_messages");
    reveal_strlit("can_post_stories");
    reveal_strlit("can_edit_stories");
    reveal_strlit("can_delete_stories");
    reveal_strlit("can_manage_topics");
}

/// The required keys of an encoded rights record read back exactly.
proof fn lemma_rights_required_lookups(m: ChatAdministratorRights)
    ensures
        sreq_bool(senc_chat_administrator_rights(m), "is_anonymous"@) == Ok::<
            bool,
            DecodeErrorView,
        >(m.is_anonymous),
        sreq_bool(senc_chat_administrator_rights(m), "can_manage_chat"@) == Ok::<
            bool,
            DecodeErrorView,
        >(m.can_manage_chat),
        sreq_bool(senc_chat_administrator_rights(m), "can_delete_messages"@) == Ok::<
            bool,
            DecodeErrorView,
        >(m.can_delete_messages),
        sreq_bool(senc_chat_administrator_rights(m), "can_manage_video_chats"@) == Ok::<
            bool,
            DecodeErrorView,
        >(m.can_manage_video_chats),
        sreq_bool(senc_chat_administrator_rights(m), "can_restrict_members"@) == Ok::<
            bool,
            DecodeErrorView,
        >(m.can_restrict_members),
        sreq_bool(senc_chat_administrator_rights(m), "can_promote_members"@) == Ok::<
            bool,
            DecodeErrorView,
        >(m.can_promote_members),
        sreq_bool(senc_chat_administrator_rights(m), "can_change_info"@) == Ok::<
            bool,
            DecodeErrorView,
        >(m.can_change_info),
        sreq_bool(senc_chat_administrator_rights(m), "can_invite_users"@) == Ok::<
            bool,
            DecodeErrorView,
        >(m.can_invite_users),
{
    broadcast use crate::json::group_json_ins;

    rights_keys_facts();
}

/// The optional keys of an encoded rights record read back exactly; an
/// absent right reads back as no value.
proof fn lemma_rights_optional_lookups(m: ChatAdministratorRights)
    ensures
        sopt_bool(senc_chat_administrator_rights(m), "can_post_messages"@) == Ok::<
            Option<bool>,
            DecodeErrorView,
        >(m.can_post_messages),
        sopt_bool(senc_chat_administrator_rights(m), "can_edit_messages"@) == Ok::<
            Option<bool>,
            DecodeErrorView,
        >(m.can_edit_messages),
        sopt_bool(senc_chat_administrator_rights(m), "can_pin_messages"@) == Ok::<
            Option<bool>,
            DecodeErrorView,
        >(m.can_pin_messages),
        sopt_bool(senc_chat_administrator_rights(m), "can_post_stories"@) == Ok::<
            Option<bool>,
            DecodeErrorView,
        >(m.can_post_stories),
        sopt_bool(senc_chat_administrator_rights(m), "can_edit_stories"@) == Ok::<
            Option<bool>,
            DecodeErrorView,
        >(m.can_edit_stories),
        sopt_bool(senc_chat_administrator_rights(m), "can_delete_stories"@) == Ok::<
            Option<bool>,
            DecodeErrorView,
        >(m.can_delete_stories),
        sopt_bool(senc_chat_administrator_rights(m), "can_manage_topics"@) == Ok::<
            Option<bool>,
            DecodeErrorView,
        >(m.can_manage_topics),
{
    broadcast use crate::json::group_json_ins;

    rights_keys_facts();
}

/// Decoding undoes encoding, for every rights record.
pub proof fn lemma_chat_administrator_rights_round_trip(m: ChatAdministratorRights)
    ensures
        sdec_chat_administrator_rights(senc_chat_administrator_rights(m)) == Ok::<
            ChatAdministratorRights,
            DecodeErrorView,
        >(m),
{
    lemma_rights_required_lookups(m);
    lemma_rights_optional_lookups(m);
}

} // verus!
