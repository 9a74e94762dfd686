use crate::api::types::chat_administrator_rights::rights_keys_facts;
use crate::api::types::user::{
    decode_user, encode_user, lemma_user_round_trip, sdec_user, senc_user, User, UserView,
};
use crate::errors::{DecodeError, DecodeErrorView};
use crate::json::{
    opt_bool, opt_bool_ins, opt_str, opt_str_ins, push_bool_field, push_field,
    push_opt_bool_field, push_opt_str_field, push_str_field, req_bool, req_str, req_val,
    res_view, sopt_bool, sopt_str, sreq_bool, sreq_str, sreq_val, JsonSpec, JsonValue,
};
use vstd::prelude::*;

verus! {

/// A chat member that has administrator rights.
#[derive(Debug, Clone, PartialEq)]
pub struct ChatMemberAdministrator {
    pub status: String,
    pub user: User,
    pub can_be_edited: bool,
    pub is_anonymous: bool,
    pub can_manage_chat: bool,
    pub can_delete_messages: bool,
    pub can_manage_video_chats: bool,
    pub can_restrict_members: bool,
    pub can_promote_members: bool,
    pub can_change_info: bool,
    pub can_invite_users: bool,
    pub can_post_messages: Option<bool>,
    pub can_edit_messages: Option<bool>,
    pub can_pin_messages: Option<bool>,
    pub can_post_stories: Option<bool>,
    pub can_edit_stories: Option<bool>,
    pub can_delete_stories: Option<bool>,
    pub can_manage_topics: Option<bool>,
    pub custom_title: Option<String>,
}

/// Mathematical image of `ChatMemberAdministrator`.
#[verifier::ext_equal]
pub struct ChatMemberAdministratorView {
    pub status: Seq<char>,
    pub user: UserView,
    pub can_be_edited: bool,
    pub is_anonymous: bool,
    pub can_manage_chat: bool,
    pub can_delete_messages: bool,
    pub can_manage_video_chats: bool,
    pub can_restrict_members: bool,
    pub can_promote_members: bool,
    pub can_change_info: bool,
    pub can_invite_users: bool,
    pub can_post_messages: Option<bool>,
    pub can_edit_messages: Option<bool>,
    pub can_pin_messages: Option<bool>,
    pub can_post_stories: Option<bool>,
    pub can_edit_stories: Option<bool>,
    pub can_delete_stories: Option<bool>,
    pub can_manage_topics: Option<bool>,
    pub custom_title: Option<Seq<char>>,
}

impl View for ChatMemberAdministrator {
    type V = ChatMemberAdministratorView;

    open spec fn view(&self) -> ChatMemberAdministratorView {
        ChatMemberAdministratorView {
            status: self.status@,
            user: self.user@,
            can_be_edited: self.can_be_edited,
            is_anonymous: self.is_anonymous,
            can_manage_chat: self.can_manage_chat,
            can_delete_messages: self.can_delete_messages,
            can_manage_video_chats: self.can_manage_video_chats,
            can_restrict_members: self.can_restrict_members,
            can_promote_members: self.can_promote_members,
            can_change_info: self.can_change_info,
            can_invite_users: self.can_invite_users,
            can_post_messages: self.can_post_messages,
            can_edit_messages: self.can_edit_messages,
            can_pin_messages: self.can_pin_messages,
            can_post_stories: self.can_post_stories,
            can_edit_stories: self.can_edit_stories,
            can_delete_stories: self.can_delete_stories,
            can_manage_topics: self.can_manage_topics,
            custom_title: self.custom_title.deep_view(),
        }
    }
}

impl DeepView for ChatMemberAdministrator {
    type V = ChatMemberAdministratorView;

    open spec fn deep_view(&self) -> ChatMemberAdministratorView {
        self.view()
    }
}

/// The object an administrator member serializes to; absent optionals
/// leave no key.
pub open spec fn senc_chat_member_administrator(m: ChatMemberAdministratorView) -> JsonSpec {
    let o = Map::empty().insert("status"@, JsonSpec::Str(m.status)).insert(
        "user"@,
        senc_user(m.user),
    ).insert("can_be_edited"@, JsonSpec::Bool(m.can_be_edited)).insert(
        "is_anonymous"@,
        JsonSpec::Bool(m.is_anonymous),
    ).insert("can_manage_chat"@, JsonSpec::Bool(m.can_manage_chat)).insert(
        "can_delete_messages"@,
        JsonSpec::Bool(m.can_delete_messages),
    ).insert("can_manage_video_chats"@, JsonSpec::Bool(m.can_manage_video_chats)).insert(
        "can_restrict_members"@,
        JsonSpec::Bool(m.can_restrict_members),
    ).insert("can_promote_members"@, JsonSpec::Bool(m.can_promote_members)).insert(
        "can_change_info"@,
        JsonSpec::Bool(m.can_change_info),
    ).insert("can_invite_users"@, JsonSpec::Bool(m.can_invite_users));
    let o = opt_bool_ins(o, "can_post_messages"@, m.can_post_messages);
    let o = opt_bool_ins(o, "can_edit_messages"@, m.can_edit_messages);
    let o = opt_bool_ins(o, "can_pin_messages"@, m.can_pin_messages);
    let o = opt_bool_ins(o, "can_post_stories"@, m.can_post_stories);
    let o = opt_bool_ins(o, "can_edit_stories"@, m.can_edit_stories);
    let o = opt_bool_ins(o, "can_delete_stories"@, m.can_delete_stories);
    let o = opt_bool_ins(o, "can_manage_topics"@, m.can_manage_topics);
    let o = opt_str_ins(o, "custom_title"@, m.custom_title);
    JsonSpec::Obj(o)
}

/// The administrator member a tree decodes to.
pub open spec fn sdec_chat_member_administrator(j: JsonSpec) -> Result<
    ChatMemberAdministratorView,
    DecodeErrorView,
> {
    match sreq_str(j, "status"@) {
        Err(e) => Err(e),
        Ok(status) => match sreq_val(j, "user"@) {
            Err(e) => Err(e),
            Ok(uj) => match sdec_user(uj) {
                Err(e) => Err(e),
                Ok(user) => match sreq_bool(j, "can_be_edited"@) {
                    Err(e) => Err(e),
                    Ok(can_be_edited) => match sreq_bool(j, "is_anonymous"@) {
                        Err(e) => Err(e),
                        Ok(is_anonymous) => match sreq_bool(j, "can_manage_chat"@) {
                            Err(e) => Err(e),
                            Ok(can_manage_chat) => match sreq_bool(j, "can_delete_messages"@) {
                                Err(e) => Err(e),
                                Ok(can_delete_messages) => match sreq_bool(
                                    j,
                                    "can_manage_video_chats"@,
                                ) {
                                    Err(e) => Err(e),
                                    Ok(can_manage_video_chats) => match sreq_bool(
                                        j,
                                        "can_restrict_members"@,
                                    ) {
                                        Err(e) => Err(e),
                                        Ok(can_restrict_members) => match sreq_bool(
                                            j,
                                            "can_promote_members"@,
                                        ) {
                                            Err(e) => Err(e),
                                            Ok(can_promote_members) => match sreq_bool(
                                                j,
                                                "can_change_info"@,
                                            ) {
                                                Err(e) => Err(e),
                                                Ok(can_change_info) => match sreq_bool(
                                                    j,
                                                    "can_invite_users"@,
                                                ) {
                                                    Err(e) => Err(e),
                                                    Ok(can_invite_users) => match sdec_member_rest(
                                                        j,
                                                        status,
                                                        user,
                                                        can_be_edited,
                                                        is_anonymous,
                                                        can_manage_chat,
                                                        can_delete_messages,
                                                        can_manage_video_chats,
                                                        can_restrict_members,
                                                        can_promote_members,
                                                        can_change_info,
                                                        can_invite_users,
                                                    ) {
                                                        Err(e) => Err(e),
                                                        Ok(v) => Ok(v),
                                                    },
                                                },
                                            },
                                        },
                                    },
                                },
                            },
                        },
                    },
                },
            },
        },
    }
}

/// Decodes the optional tail of an administrator member, after every
/// required field has been read.
pub open spec fn sdec_member_rest(
    j: JsonSpec,
    status: Seq<char>,
    user: UserView,
    can_be_edited: bool,
    is_anonymous: bool,
    can_manage_chat: bool,
    can_delete_messages: bool,
    can_manage_video_chats: bool,
    can_restrict_members: bool,
    can_promote_members: bool,
    can_change_info: bool,
    can_invite_users: bool,
) -> Result<ChatMemberAdministratorView, DecodeErrorView> {
    match sopt_bool(j, "can_post_messages"@) {
        Err(e) => Err(e),
        Ok(can_post_messages) => match sopt_bool(j, "can_edit_messages"@) {
            Err(e) => Err(e),
            Ok(can_edit_messages) => match sopt_bool(j, "can_pin_messages"@) {
                Err(e) => Err(e),
                Ok(can_pin_messages) => match sopt_bool(j, "can_post_stories"@) {
                    Err(e) => Err(e),
                    Ok(can_post_stories) => match sopt_bool(j, "can_edit_stories"@) {
                        Err(e) => Err(e),
                        Ok(can_edit_stories) => match sopt_bool(j, "can_delete_stories"@) {
                            Err(e) => Err(e),
                            Ok(can_delete_stories) => match sopt_bool(j, "can_manage_topics"@) {
                                Err(e) => Err(e),
                                Ok(can_manage_topics) => match sopt_str(j, "custom_title"@) {
                                    Err(e) => Err(e),
                                    Ok(custom_title) => Ok(
                                        ChatMemberAdministratorView {
                                            status,
                                            user,
                                            can_be_edited,
                                            is_anonymous,
                                            can_manage_chat,
                                            can_delete_messages,
                                            can_manage_video_chats,
                                            can_restrict_members,
                                            can_promote_members,
                                            can_change_info,
                                            can_invite_users,
                                            can_post_messages,
                                            can_edit_messages,
                                            can_pin_messages,
                                            can_post_stories,
                                            can_edit_stories,
                                            can_delete_stories,
                                            can_manage_topics,
                                            custom_title,
                                        },
                                    ),
                                },
                            },
                        },
                    },
                },
            },
        },
    }
}

#[verifier::spinoff_prover]
pub fn encode_chat_member_administrator(m: &ChatMemberAdministrator) -> (r: JsonValue)
    ensures
        r@ == senc_chat_member_administrator(m@),
{
    let mut pairs: Vec<(String, JsonValue)> = Vec::new();
    push_str_field(&mut pairs, "status", &m.status);
    push_field(&mut pairs, "user", encode_user(&m.user));
    push_bool_field(&mut pairs, "can_be_edited", m.can_be_edited);
    push_bool_field(&mut pairs, "is_anonymous", m.is_anonymous);
    push_bool_field(&mut pairs, "can_manage_chat", m.can_manage_chat);
    push_bool_field(&mut pairs, "can_delete_messages", m.can_delete_messages);
    push_bool_field(&mut pairs, "can_manage_video_chats", m.can_manage_video_chats);
    push_bool_field(&mut pairs, "can_restrict_members", m.can_restrict_members);
    push_bool_field(&mut pairs, "can_promote_members", m.can_promote_members);
    push_bool_field(&mut pairs, "can_change_info", m.can_change_info);
    push_bool_field(&mut pairs, "can_invite_users", m.can_invite_users);
    push_opt_bool_field(&mut pairs, "can_post_messages", &m.can_post_messages);
    push_opt_bool_field(&mut pairs, "can_edit_messages", &m.can_edit_messages);
    push_opt_bool_field(&mut pairs, "can_pin_messages", &m.can_pin_messages);
    push_opt_bool_field(&mut pairs, "can_post_stories", &m.can_post_stories);
    push_opt_bool_field(&mut pairs, "can_edit_stories", &m.can_edit_stories);
    push_opt_bool_field(&mut pairs, "can_delete_stories", &m.can_delete_stories);
    push_opt_bool_field(&mut pairs, "can_manage_topics", &m.can_manage_topics);
    push_opt_str_field(&mut pairs, "custom_title", &m.custom_title);
    JsonValue::Obj(pairs)
}

#[verifier::rlimit(100)]
#[verifier::spinoff_prover]
pub fn decode_chat_member_administrator(j: &JsonValue) -> (r: Result<
    ChatMemberAdministrator,
    DecodeError,
>)
    ensures
        res_view(r) == sdec_chat_member_administrator(j@),
{
    let status = match req_str(j, "status") {
        Ok(v) => v,
        Err(e) => {
            return Err(e);
        },
    };
    let uj = match req_val(j, "user") {
        Ok(v) => v,
        Err(e) => {
            return Err(e);
        },
    };
    let user = match decode_user(uj) {
        Ok(v) => v,
        Err(e) => {
            return Err(e);
        },
    };
    let can_be_edited = match req_bool(j, "can_be_edited") {
        Ok(v) => v,
        Err(e) => {
            return Err(e);
        },
    };
    let is_anonymous = match req_bool(j, "is_anonymous") {
        Ok(v) => v,
        Err(e) => {
            return Err(e);
        },
    };
    let can_manage_chat = match req_bool(j, "can_manage_chat") {
        Ok(v) => v,
        Err(e) => {
            return Err(e);
        },
    };
    let can_delete_messages = match req_bool(j, "can_delete_messages") {
        Ok(v) => v,
        Err(e) => {
            return Err(e);
        },
    };
    let can_manage_video_chats = match req_bool(j, "can_manage_video_chats") {
        Ok(v) => v,
        Err(e) => {
            return Err(e);
        },
    };
    let can_restrict_members = match req_bool(j, "can_restrict_members") {
        Ok(v) => v,
        Err(e) => {
            return Err(e);
        },
    };
    let can_promote_members = match req_bool(j, "can_promote_members") {
        Ok(v) => v,
        Err(e) => {
            return Err(e);
        },
    };
    let can_change_info = match req_bool(j, "can_change_info") {
        Ok(v) => v,
        Err(e) => {
            return Err(e);
        },
    };
    let can_invite_users = match req_bool(j, "can_invite_users") {
        Ok(v) => v,
        Err(e) => {
            return Err(e);
        },
    };
    let can_post_messages = match opt_bool(j, "can_post_messages") {
        Ok(v) => v,
        Err(e) => {
            return Err(e);
        },
    };
    let can_edit_messages = match opt_bool(j, "can_edit_messages") {
        Ok(v) => v,
        Err(e) => {
            return Err(e);
        },
    };
    let can_pin_messages = match opt_bool(j, "can_pin_messages") {
        Ok(v) => v,
        Err(e) => {
            return Err(e);
        },
    };
    let can_post_stories = match opt_bool(j, "can_post_stories") {
        Ok(v) => v,
        Err(e) => {
            return Err(e);
        },
    };
    let can_edit_stories = match opt_bool(j, "can_edit_stories") {
        Ok(v) => v,
        Err(e) => {
            return Err(e);
        },
    };
    let can_delete_stories = match opt_bool(j, "can_delete_stories") {
        Ok(v) => v,
        Err(e) => {
            return Err(e);
        },
    };
    let can_manage_topics = match opt_bool(j, "can_manage_topics") {
        Ok(v) => v,
        Err(e) => {
            return Err(e);
        },
    };
    let custom_title = match opt_str(j, "custom_title") {
        Ok(v) => v,
        Err(e) => {
            return Err(e);
        },
    };
    Ok(
        ChatMemberAdministrator {
            status,
            user,
            can_be_edited,
            is_anonymous,
            can_manage_chat,
            can_delete_messages,
            can_manage_video_chats,
            can_restrict_members,
            can_promote_members,
            can_change_info,
            can_invite_users,
            can_post_messages,
            can_edit_messages,
            can_pin_messages,
            can_post_stories,
            can_edit_stories,
            can_delete_stories,
            can_manage_topics,
            custom_title,
        },
    )
}

/// Reveals the member-only keys and pins the characters that tell
/// same-length keys apart.
proof fn member_keys_facts()
    ensures
        "status"@.len() == 6,
        "user"@.len() == 4,
        "can_be_edited"@.len() == 13,
        "custom_title"@.len() == 12,
        "is_anonymous"@.len() == 12,
        "custom_title"@[0] == 'c' && "is_anonymous"@[0] == 'i',
{
    reveal_strlit("status");
    reveal_strlit("user");
    reveal_strlit("can_be_edited");
    reveal_strlit("custom_title");
    reveal_strlit("is_anonymous");
}

/// The required keys of an encoded administrator member read back
/// exactly.
proof fn lemma_member_required_lookups(m: ChatMemberAdministratorView)
    ensures
        sreq_str(senc_chat_member_administrator(m), "status"@) == Ok::<
            Seq<char>,
            DecodeErrorView,
        >(m.status),
        sreq_val(senc_chat_member_administrator(m), "user"@) == Ok::<JsonSpec, DecodeErrorView>(
            senc_user(m.user),
        ),
        sreq_bool(senc_chat_member_administrator(m), "can_be_edited"@) == Ok::<
            bool,
            DecodeErrorView,
        >(m.can_be_edited),
        sreq_bool(senc_chat_member_administrator(m), "is_anonymous"@) == Ok::<
            bool,
            DecodeErrorView,
        >(m.is_anonymous),
        sreq_bool(senc_chat_member_administrator(m), "can_manage_chat"@) == Ok::<
            bool,
            DecodeErrorView,
        >(m.can_manage_chat),
        sreq_bool(senc_chat_member_administrator(m), "can_delete_messages"@) == Ok::<
            bool,
            DecodeErrorView,
        >(m.can_delete_messages),
        sreq_bool(senc_chat_member_administrator(m), "can_manage_video_chats"@) == Ok::<
            bool,
            DecodeErrorView,
        >(m.can_manage_video_chats),
        sreq_bool(senc_chat_member_administrator(m), "can_restrict_members"@) == Ok::<
            bool,
            DecodeErrorView,
        >(m.can_restrict_members),
        sreq_bool(senc_chat_member_administrator(m), "can_promote_members"@) == Ok::<
            bool,
            DecodeErrorView,
        >(m.can_promote_members),
        sreq_bool(senc_chat_member_administrator(m), "can_change_info"@) == Ok::<
            bool,
            DecodeErrorView,
        >(m.can_change_info),
        sreq_bool(senc_chat_member_administrator(m), "can_invite_users"@) == Ok::<
            bool,
            DecodeErrorView,
        >(m.can_invite_users),
{
    broadcast use crate::json::group_json_ins;

    rights_keys_facts();
    member_keys_facts();
}

/// The optional keys of an encoded administrator member read back
/// exactly; an absent field reads back as no value.
proof fn lemma_member_optional_lookups(m: ChatMemberAdministratorView)
    ensures
        sopt_bool(senc_chat_member_administrator(m), "can_post_messages"@) == Ok::<
            Option<bool>,
            DecodeErrorView,
        >(m.can_post_messages),
        sopt_bool(senc_chat_member_administrator(m), "can_edit_messages"@) == Ok::<
            Option<bool>,
            DecodeErrorView,
        >(m.can_edit_messages),
        sopt_bool(senc_chat_member_administrator(m), "can_pin_messages"@) == Ok::<
            Option<bool>,
            DecodeErrorView,
        >(m.can_pin_messages),
        sopt_bool(senc_chat_member_administrator(m), "can_post_stories"@) == Ok::<
            Option<bool>,
            DecodeErrorView,
        >(m.can_post_stories),
        sopt_bool(senc_chat_member_administrator(m), "can_edit_stories"@) == Ok::<
            Option<bool>,
            DecodeErrorView,
        >(m.can_edit_stories),
        sopt_bool(senc_chat_member_administrator(m), "can_delete_stories"@) == Ok::<
            Option<bool>,
            DecodeErrorView,
        >(m.can_delete_stories),
        sopt_bool(senc_chat_member_administrator(m), "can_manage_topics"@) == Ok::<
            Option<bool>,
            DecodeErrorView,
        >(m.can_manage_topics),
        sopt_str(senc_chat_member_administrator(m), "custom_title"@) == Ok::<
            Option<Seq<char>>,
            DecodeErrorView,
        >(m.custom_title),
{
    broadcast use crate::json::group_json_ins;

    rights_keys_facts();
    member_keys_facts();
}

/// Decoding undoes encoding, for every administrator member.
pub proof fn lemma_chat_member_administrator_round_trip(m: ChatMemberAdministratorView)
    ensures
        sdec_chat_member_administrator(senc_chat_member_administrator(m)) == Ok::<
            ChatMemberAdministratorView,
            DecodeErrorView,
        >(m),
{
    lemma_member_required_lookups(m);
    lemma_member_optional_lookups(m);
    lemma_user_round_trip(m.user);
}

} // verus!
