//! The request parameter structs: one per API call, each holding
//! exactly the parameters that call accepts.
//!
//! Every struct encodes to a JSON object through `to_json` and decodes
//! back through `from_json`.  The contracts of `to_json` state the two
//! invariants of this layer: decoding an encoded request gives the
//! request back, and an optional parameter that is unset produces no
//! key in the output (never a null).  Length and range limits that the
//! remote API documents (title and description lengths, member limits)
//! are deliberately not enforced here: the remote side reports them,
//! as it does for the reference schema.

use vstd::prelude::*;
use crate::chat::{get_permissions, get_permissions_spec, Chat, ChatPermissions};
use crate::json::{
    get_bool, get_bool_or_false, get_bool_or_false_spec, get_bool_spec, get_i64, get_i64_spec,
    get_opt_bool, get_opt_bool_spec, get_opt_i32, get_opt_i32_spec, get_opt_i64, get_opt_i64_spec,
    get_opt_string, get_opt_string_spec, get_string, get_string_spec, lookup, opt_bool, opt_i32,
    opt_int, opt_push, opt_str, push_opt_bool, push_opt_i32, push_opt_int, push_opt_str,
    DecodeError, EncodeError, JsonValue, Key,
};
use crate::json::{lemma_lookup_empty, lemma_lookup_opt_push, lemma_lookup_push};

verus! {

/// A file handed to a request: a file already on the servers, named by
/// its identifier, or a local path or byte buffer that only a
/// multipart transport can carry.
#[derive(Clone, Debug, PartialEq)]
pub enum InputFile {
    /// A file that already lives on the servers
    FileId(String),
    /// A path to a local file
    Path(String),
    /// An in-memory buffer
    Bytes(Vec<u8>),
}

/// Parameters of the call that kicks a member out of a chat.
#[derive(Clone, Debug, PartialEq)]
pub struct KickChatMember {
    /// Unique identifier for the target chat
    pub chat_id: i64,
    /// Unique identifier of the target user
    pub user_id: i64,
    /// Date when the user will be unbanned, unix time; a ban further than
    /// 366 days or closer than 30 seconds from now is forever
    pub until_date: Option<i64>,
    /// Pass true to delete all messages from the chat for the removed user
    pub revoke_messages: Option<bool>,
}

impl KickChatMember {
    /// The pairs this request encodes to, in order: one per set
    /// field, and none for an unset optional field.
    pub open spec fn fields_spec(self) -> Seq<(Key, JsonValue)> {
        opt_push(opt_push(Seq::empty().push((Key::ChatId, JsonValue::Int(self.chat_id))).push((Key::UserId, JsonValue::Int(self.user_id))), Key::UntilDate, opt_int(self.until_date)), Key::RevokeMessages, opt_bool(self.revoke_messages))
    }

    /// What decoding the pairs of this request's object gives.
    pub open spec fn decode_fields_spec(p: Seq<(Key, JsonValue)>) -> Result<KickChatMember, DecodeError> {
        match get_i64_spec(p, Key::ChatId) {
            Err(e) => Err(e),
            Ok(chat_id) => {
            match get_i64_spec(p, Key::UserId) {
                Err(e) => Err(e),
                Ok(user_id) => {
                match get_opt_i64_spec(p, Key::UntilDate) {
                    Err(e) => Err(e),
                    Ok(until_date) => {
                    match get_opt_bool_spec(p, Key::RevokeMessages) {
                        Err(e) => Err(e),
                        Ok(revoke_messages) => {
                        Ok(KickChatMember { chat_id, user_id, until_date, revoke_messages })
                        },
                    }
                    },
                }
                },
            }
            },
        }
    }

    /// What decoding this request's wire value gives.
    pub open spec fn from_json_spec(v: JsonValue) -> Result<KickChatMember, DecodeError> {
        match v {
            JsonValue::Object(p) => Self::decode_fields_spec(p@),
            _ => Err(DecodeError::NotObject),
        }
    }

    /// Encodes this request; decoding the result gives the request
    /// back, and an unset optional field leaves no key in the
    /// output.
    pub fn to_json(&self) -> (r: JsonValue)
        ensures
            r matches JsonValue::Object(pairs) && pairs@ == self.fields_spec(),
            Self::from_json_spec(r) == Ok::<KickChatMember, DecodeError>(*self),
            r matches JsonValue::Object(pairs) && (lookup(pairs@, Key::UntilDate) is Some
                <==> self.until_date is Some),
            r matches JsonValue::Object(pairs) && (lookup(pairs@, Key::RevokeMessages) is Some
                <==> self.revoke_messages is Some),
    {
        let mut pairs: Vec<(Key, JsonValue)> = Vec::new();
        pairs.push((Key::ChatId, JsonValue::Int(self.chat_id)));
        pairs.push((Key::UserId, JsonValue::Int(self.user_id)));
        push_opt_int(&mut pairs, Key::UntilDate, self.until_date);
        push_opt_bool(&mut pairs, Key::RevokeMessages, self.revoke_messages);
        proof {
            broadcast use lemma_lookup_push, lemma_lookup_opt_push, lemma_lookup_empty;

            assert(pairs@ == self.fields_spec());
            assert(get_i64_spec(pairs@, Key::ChatId) == Ok::<i64, DecodeError>(
                self.chat_id,
            ));
            assert(get_i64_spec(pairs@, Key::UserId) == Ok::<i64, DecodeError>(
                self.user_id,
            ));
            assert(get_opt_i64_spec(pairs@, Key::UntilDate) == Ok::<Option<i64>, DecodeError>(
                self.until_date,
            ));
            assert(get_opt_bool_spec(pairs@, Key::RevokeMessages) == Ok::<Option<bool>, DecodeError>(
                self.revoke_messages,
            ));
            assert(lookup(pairs@, Key::UntilDate) is Some <==> self.until_date is Some);
            assert(lookup(pairs@, Key::RevokeMessages) is Some <==> self.revoke_messages is Some);
            assert(Self::decode_fields_spec(pairs@) == Ok::<KickChatMember, DecodeError>(*self));
        }
        JsonValue::Object(pairs)
    }

    /// Decodes this request's wire value.
    pub fn from_json(v: &JsonValue) -> (r: Result<KickChatMember, DecodeError>)
        ensures
            r == Self::from_json_spec(*v),
    {
        match v {
            JsonValue::Object(pairs) => {
                let chat_id = match get_i64(pairs, Key::ChatId) {
                    Ok(x) => x,
                    Err(e) => return Err(e),
                };
                let user_id = match get_i64(pairs, Key::UserId) {
                    Ok(x) => x,
                    Err(e) => return Err(e),
                };
                let until_date = match get_opt_i64(pairs, Key::UntilDate) {
                    Ok(x) => x,
                    Err(e) => return Err(e),
                };
                let revoke_messages = match get_opt_bool(pairs, Key::RevokeMessages) {
                    Ok(x) => x,
                    Err(e) => return Err(e),
                };
                Ok(KickChatMember { chat_id, user_id, until_date, revoke_messages })
            },
            _ => Err(DecodeError::NotObject),
        }
    }
}

/// Parameters of the call that lifts a ban from a chat member.
#[derive(Clone, Debug, PartialEq)]
pub struct UnbanChatMember {
    /// Unique identifier for the target chat
    pub chat_id: i64,
    /// Unique identifier of the target user
    pub user_id: i64,
    /// Do nothing if the user is not banned
    pub only_if_banned: bool,
}

impl UnbanChatMember {
    /// The pairs this request encodes to, in order: one per set
    /// field, and none for an unset optional field.
    pub open spec fn fields_spec(self) -> Seq<(Key, JsonValue)> {
        Seq::empty().push((Key::ChatId, JsonValue::Int(self.chat_id))).push((Key::UserId, JsonValue::Int(self.user_id))).push((Key::OnlyIfBanned, JsonValue::Bool(self.only_if_banned)))
    }

    /// What decoding the pairs of this request's object gives.
    pub open spec fn decode_fields_spec(p: Seq<(Key, JsonValue)>) -> Result<UnbanChatMember, DecodeError> {
        match get_i64_spec(p, Key::ChatId) {
            Err(e) => Err(e),
            Ok(chat_id) => {
            match get_i64_spec(p, Key::UserId) {
                Err(e) => Err(e),
                Ok(user_id) => {
                match get_bool_or_false_spec(p, Key::OnlyIfBanned) {
                    Err(e) => Err(e),
                    Ok(only_if_banned) => {
                    Ok(UnbanChatMember { chat_id, user_id, only_if_banned })
                    },
                }
                },
            }
            },
        }
    }

    /// What decoding this request's wire value gives.
    pub open spec fn from_json_spec(v: JsonValue) -> Result<UnbanChatMember, DecodeError> {
        match v {
            JsonValue::Object(p) => Self::decode_fields_spec(p@),
            _ => Err(DecodeError::NotObject),
        }
    }

    /// Encodes this request; decoding the result gives the request
    /// back.
    pub fn to_json(&self) -> (r: JsonValue)
        ensures
            r matches JsonValue::Object(pairs) && pairs@ == self.fields_spec(),
            Self::from_json_spec(r) == Ok::<UnbanChatMember, DecodeError>(*self),
    {
        let mut pairs: Vec<(Key, JsonValue)> = Vec::new();
        pairs.push((Key::ChatId, JsonValue::Int(self.chat_id)));
        pairs.push((Key::UserId, JsonValue::Int(self.user_id)));
        pairs.push((Key::OnlyIfBanned, JsonValue::Bool(self.only_if_banned)));
        proof {
            broadcast use lemma_lookup_push, lemma_lookup_opt_push, lemma_lookup_empty;

            assert(pairs@ == self.fields_spec());
            assert(get_i64_spec(pairs@, Key::ChatId) == Ok::<i64, DecodeError>(
                self.chat_id,
            ));
            assert(get_i64_spec(pairs@, Key::UserId) == Ok::<i64, DecodeError>(
                self.user_id,
            ));
            assert(get_bool_or_false_spec(pairs@, Key::OnlyIfBanned) == Ok::<bool, DecodeError>(
                self.only_if_banned,
            ));
            assert(Self::decode_fields_spec(pairs@) == Ok::<UnbanChatMember, DecodeError>(*self));
        }
        JsonValue::Object(pairs)
    }

    /// Decodes this request's wire value.
    pub fn from_json(v: &JsonValue) -> (r: Result<UnbanChatMember, DecodeError>)
        ensures
            r == Self::from_json_spec(*v),
    {
        match v {
            JsonValue::Object(pairs) => {
                let chat_id = match get_i64(pairs, Key::ChatId) {
                    Ok(x) => x,
                    Err(e) => return Err(e),
                };
                let user_id = match get_i64(pairs, Key::UserId) {
                    Ok(x) => x,
                    Err(e) => return Err(e),
                };
                let only_if_banned = match get_bool_or_false(pairs, Key::OnlyIfBanned) {
                    Ok(x) => x,
                    Err(e) => return Err(e),
                };
                Ok(UnbanChatMember { chat_id, user_id, only_if_banned })
            },
            _ => Err(DecodeError::NotObject),
        }
    }
}

/// Parameters of the call that restricts a chat member.
#[derive(Clone, Debug, PartialEq)]
pub struct RestrictChatMember {
    /// Unique identifier for the target chat
    pub chat_id: i64,
    /// Unique identifier of the target user
    pub user_id: i64,
    /// New user permissions
    pub permissions: ChatPermissions,
    /// Date when the restriction ends, unix time; further than 366 days or
    /// closer than 30 seconds from now means forever
    pub until_date: Option<i64>,
}

impl RestrictChatMember {
    /// What decoding the pairs of this request's object gives.
    pub open spec fn decode_fields_spec(p: Seq<(Key, JsonValue)>) -> Result<RestrictChatMember, DecodeError> {
        match get_i64_spec(p, Key::ChatId) {
            Err(e) => Err(e),
            Ok(chat_id) => {
            match get_i64_spec(p, Key::UserId) {
                Err(e) => Err(e),
                Ok(user_id) => {
                match get_permissions_spec(p, Key::Permissions) {
                    Err(e) => Err(e),
                    Ok(permissions) => {
                    match get_opt_i64_spec(p, Key::UntilDate) {
                        Err(e) => Err(e),
                        Ok(until_date) => {
                        Ok(RestrictChatMember { chat_id, user_id, permissions, until_date })
                        },
                    }
                    },
                }
                },
            }
            },
        }
    }

    /// What decoding this request's wire value gives.
    pub open spec fn from_json_spec(v: JsonValue) -> Result<RestrictChatMember, DecodeError> {
        match v {
            JsonValue::Object(p) => Self::decode_fields_spec(p@),
            _ => Err(DecodeError::NotObject),
        }
    }

    /// Encodes this request; decoding the result gives the request
    /// back, and an unset optional field leaves no key in the
    /// output.
    pub fn to_json(&self) -> (r: JsonValue)
        ensures
            Self::from_json_spec(r) == Ok::<RestrictChatMember, DecodeError>(*self),
            r matches JsonValue::Object(pairs) && (lookup(pairs@, Key::UntilDate) is Some
                <==> self.until_date is Some),
    {
        let mut pairs: Vec<(Key, JsonValue)> = Vec::new();
        pairs.push((Key::ChatId, JsonValue::Int(self.chat_id)));
        pairs.push((Key::UserId, JsonValue::Int(self.user_id)));
        pairs.push((Key::Permissions, self.permissions.to_json()));
        push_opt_int(&mut pairs, Key::UntilDate, self.until_date);
        proof {
            broadcast use lemma_lookup_push, lemma_lookup_opt_push, lemma_lookup_empty;

            assert(get_i64_spec(pairs@, Key::ChatId) == Ok::<i64, DecodeError>(
                self.chat_id,
            ));
            assert(get_i64_spec(pairs@, Key::UserId) == Ok::<i64, DecodeError>(
                self.user_id,
            ));
            assert(get_permissions_spec(pairs@, Key::Permissions) == Ok::<ChatPermissions, DecodeError>(
                self.permissions,
            ));
            assert(get_opt_i64_spec(pairs@, Key::UntilDate) == Ok::<Option<i64>, DecodeError>(
                self.until_date,
            ));
            assert(lookup(pairs@, Key::UntilDate) is Some <==> self.until_date is Some);
            assert(Self::decode_fields_spec(pairs@) == Ok::<RestrictChatMember, DecodeError>(*self));
        }
        JsonValue::Object(pairs)
    }

    /// Decodes this request's wire value.
    pub fn from_json(v: &JsonValue) -> (r: Result<RestrictChatMember, DecodeError>)
        ensures
            r == Self::from_json_spec(*v),
    {
        match v {
            JsonValue::Object(pairs) => {
                let chat_id = match get_i64(pairs, Key::ChatId) {
                    Ok(x) => x,
                    Err(e) => return Err(e),
                };
                let user_id = match get_i64(pairs, Key::UserId) {
                    Ok(x) => x,
                    Err(e) => return Err(e),
                };
                let permissions = match get_permissions(pairs, Key::Permissions) {
                    Ok(x) => x,
                    Err(e) => return Err(e),
                };
                let until_date = match get_opt_i64(pairs, Key::UntilDate) {
                    Ok(x) => x,
                    Err(e) => return Err(e),
                };
                Ok(RestrictChatMember { chat_id, user_id, permissions, until_date })
            },
            _ => Err(DecodeError::NotObject),
        }
    }
}

/// Parameters of the call that promotes or demotes a chat member.
#[derive(Clone, Debug, PartialEq)]
pub struct PromoteChatMember {
    /// Unique identifier for the target chat
    pub chat_id: i64,
    /// Unique identifier of the target user
    pub user_id: i64,
    /// If the administrator's presence in the chat is hidden
    pub is_anonymous: Option<bool>,
    /// If the administrator can create channel posts, channels only
    pub can_post_messages: Option<bool>,
    /// If the administrator can edit messages of other users and can pin
    /// messages, channels only
    pub can_edit_messages: Option<bool>,
    /// If the administrator can delete messages of other users
    pub can_delete_messages: Option<bool>,
    /// If the administrator can restrict, ban or unban chat members
    pub can_restrict_members: Option<bool>,
    /// If the administrator can add new administrators with a subset of
    /// their own privileges or demote administrators that they promoted
    pub can_promote_members: Option<bool>,
    /// If the administrator can change chat title, photo and other settings
    pub can_change_info: Option<bool>,
    /// If the administrator can invite new users to the chat
    pub can_invite_users: Option<bool>,
    /// If the administrator can pin messages, supergroups only
    pub can_pin_messages: Option<bool>,
    /// If the administrator can manage voice chats, supergroups only
    pub can_manage_voice_chats: Option<bool>,
    /// If the administrator can access the chat event log and statistics;
    /// implied by any other administrator privilege
    pub can_manage_chat: Option<bool>,
}

impl PromoteChatMember {
    /// The pairs this request encodes to, in order: one per set
    /// field, and none for an unset optional field.
    pub open spec fn fields_spec(self) -> Seq<(Key, JsonValue)> {
        opt_push(opt_push(opt_push(opt_push(opt_push(opt_push(opt_push(opt_push(opt_push(opt_push(opt_push(Seq::empty().push((Key::ChatId, JsonValue::Int(self.chat_id))).push((Key::UserId, JsonValue::Int(self.user_id))), Key::IsAnonymous, opt_bool(self.is_anonymous)), Key::CanPostMessages, opt_bool(self.can_post_messages)), Key::CanEditMessages, opt_bool(self.can_edit_messages)), Key::CanDeleteMessages, opt_bool(self.can_delete_messages)), Key::CanRestrictMembers, opt_bool(self.can_restrict_members)), Key::CanPromoteMembers, opt_bool(self.can_promote_members)), Key::CanChangeInfo, opt_bool(self.can_change_info)), Key::CanInviteUsers, opt_bool(self.can_invite_users)), Key::CanPinMessages, opt_bool(self.can_pin_messages)), Key::CanManageVoiceChats, opt_bool(self.can_manage_voice_chats)), Key::CanManageChat, opt_bool(self.can_manage_chat))
    }

    /// What decoding the pairs of this request's object gives.
    pub open spec fn decode_fields_spec(p: Seq<(Key, JsonValue)>) -> Result<PromoteChatMember, DecodeError> {
        match get_i64_spec(p, Key::ChatId) {
            Err(e) => Err(e),
            Ok(chat_id) => {
            match get_i64_spec(p, Key::UserId) {
                Err(e) => Err(e),
                Ok(user_id) => {
                match get_opt_bool_spec(p, Key::IsAnonymous) {
                    Err(e) => Err(e),
                    Ok(is_anonymous) => {
                    match get_opt_bool_spec(p, Key::CanPostMessages) {
                        Err(e) => Err(e),
                        Ok(can_post_messages) => {
                        match get_opt_bool_spec(p, Key::CanEditMessages) {
                            Err(e) => Err(e),
                            Ok(can_edit_messages) => {
                            match get_opt_bool_spec(p, Key::CanDeleteMessages) {
                                Err(e) => Err(e),
                                Ok(can_delete_messages) => {
                                match get_opt_bool_spec(p, Key::CanRestrictMembers) {
                                    Err(e) => Err(e),
                                    Ok(can_restrict_members) => {
                                    match get_opt_bool_spec(p, Key::CanPromoteMembers) {
                                        Err(e) => Err(e),
                                        Ok(can_promote_members) => {
                                        match get_opt_bool_spec(p, Key::CanChangeInfo) {
                                            Err(e) => Err(e),
                                            Ok(can_change_info) => {
                                            match get_opt_bool_spec(p, Key::CanInviteUsers) {
                                                Err(e) => Err(e),
                                                Ok(can_invite_users) => {
                                                match get_opt_bool_spec(p, Key::CanPinMessages) {
                                                    Err(e) => Err(e),
                                                    Ok(can_pin_messages) => {
                                                    match get_opt_bool_spec(p, Key::CanManageVoiceChats) {
                                                        Err(e) => Err(e),
                                                        Ok(can_manage_voice_chats) => {
                                                        match get_opt_bool_spec(p, Key::CanManageChat) {
                                                            Err(e) => Err(e),
                                                            Ok(can_manage_chat) => {
                                                            Ok(PromoteChatMember { chat_id, user_id, is_anonymous, can_post_messages, can_edit_messages, can_delete_messages, can_restrict_members, can_promote_members, can_change_info, can_invite_users, can_pin_messages, can_manage_voice_chats, can_manage_chat })
                                                            },
                                                        }
                                                        },
                                                    }
                                                    },
                                                }
                                                },
                                            }
                                            },
                                        }
                                        },
                                    }
                                    },
                                }
                                },
                            }
                            },
                        }
                        },
                    }
                    },
                }
                },
            }
            },
        }
    }

    /// What decoding this request's wire value gives.
    pub open spec fn from_json_spec(v: JsonValue) -> Result<PromoteChatMember, DecodeError> {
        match v {
            JsonValue::Object(p) => Self::decode_fields_spec(p@),
            _ => Err(DecodeError::NotObject),
        }
    }

    /// Encodes this request; decoding the result gives the request
    /// back, and an unset optional field leaves no key in the
    /// output.
    #[verifier::rlimit(100)]
    pub fn to_json(&self) -> (r: JsonValue)
        ensures
            r matches JsonValue::Object(pairs) && pairs@ == self.fields_spec(),
            Self::from_json_spec(r) == Ok::<PromoteChatMember, DecodeError>(*self),
            r matches JsonValue::Object(pairs) && (lookup(pairs@, Key::IsAnonymous) is Some
                <==> self.is_anonymous is Some),
            r matches JsonValue::Object(pairs) && (lookup(pairs@, Key::CanPostMessages) is Some
                <==> self.can_post_messages is Some),
            r matches JsonValue::Object(pairs) && (lookup(pairs@, Key::CanEditMessages) is Some
                <==> self.can_edit_messages is Some),
            r matches JsonValue::Object(pairs) && (lookup(pairs@, Key::CanDeleteMessages) is Some
                <==> self.can_delete_messages is Some),
            r matches JsonValue::Object(pairs) && (lookup(pairs@, Key::CanRestrictMembers) is Some
                <==> self.can_restrict_members is Some),
            r matches JsonValue::Object(pairs) && (lookup(pairs@, Key::CanPromoteMembers) is Some
                <==> self.can_promote_members is Some),
            r matches JsonValue::Object(pairs) && (lookup(pairs@, Key::CanChangeInfo) is Some
                <==> self.can_change_info is Some),
            r matches JsonValue::Object(pairs) && (lookup(pairs@, Key::CanInviteUsers) is Some
                <==> self.can_invite_users is Some),
            r matches JsonValue::Object(pairs) && (lookup(pairs@, Key::CanPinMessages) is Some
                <==> self.can_pin_messages is Some),
            r matches JsonValue::Object(pairs) && (lookup(pairs@, Key::CanManageVoiceChats) is Some
                <==> self.can_manage_voice_chats is Some),
            r matches JsonValue::Object(pairs) && (lookup(pairs@, Key::CanManageChat) is Some
                <==> self.can_manage_chat is Some),
    {
        let mut pairs: Vec<(Key, JsonValue)> = Vec::new();
        pairs.push((Key::ChatId, JsonValue::Int(self.chat_id)));
        pairs.push((Key::UserId, JsonValue::Int(self.user_id)));
        push_opt_bool(&mut pairs, Key::IsAnonymous, self.is_anonymous);
        push_opt_bool(&mut pairs, Key::CanPostMessages, self.can_post_messages);
        push_opt_bool(&mut pairs, Key::CanEditMessages, self.can_edit_messages);
        push_opt_bool(&mut pairs, Key::CanDeleteMessages, self.can_delete_messages);
        push_opt_bool(&mut pairs, Key::CanRestrictMembers, self.can_restrict_members);
        push_opt_bool(&mut pairs, Key::CanPromoteMembers, self.can_promote_members);
        push_opt_bool(&mut pairs, Key::CanChangeInfo, self.can_change_info);
        push_opt_bool(&mut pairs, Key::CanInviteUsers, self.can_invite_users);
        push_opt_bool(&mut pairs, Key::CanPinMessages, self.can_pin_messages);
        push_opt_bool(&mut pairs, Key::CanManageVoiceChats, self.can_manage_voice_chats);
        push_opt_bool(&mut pairs, Key::CanManageChat, self.can_manage_chat);
        proof {
            broadcast use lemma_lookup_push, lemma_lookup_opt_push, lemma_lookup_empty;

            assert(pairs@ == self.fields_spec());
            assert(get_i64_spec(pairs@, Key::ChatId) == Ok::<i64, DecodeError>(
                self.chat_id,
            ));
            assert(get_i64_spec(pairs@, Key::UserId) == Ok::<i64, DecodeError>(
                self.user_id,
            ));
            assert(get_opt_bool_spec(pairs@, Key::IsAnonymous) == Ok::<Option<bool>, DecodeError>(
                self.is_anonymous,
            ));
            assert(get_opt_bool_spec(pairs@, Key::CanPostMessages) == Ok::<Option<bool>, DecodeError>(
                self.can_post_messages,
            ));
            assert(get_opt_bool_spec(pairs@, Key::CanEditMessages) == Ok::<Option<bool>, DecodeError>(
                self.can_edit_messages,
            ));
            assert(get_opt_bool_spec(pairs@, Key::CanDeleteMessages) == Ok::<Option<bool>, DecodeError>(
                self.can_delete_messages,
            ));
            assert(get_opt_bool_spec(pairs@, Key::CanRestrictMembers) == Ok::<Option<bool>, DecodeError>(
                self.can_restrict_members,
            ));
            assert(get_opt_bool_spec(pairs@, Key::CanPromoteMembers) == Ok::<Option<bool>, DecodeError>(
                self.can_promote_members,
            ));
            assert(get_opt_bool_spec(pairs@, Key::CanChangeInfo) == Ok::<Option<bool>, DecodeError>(
                self.can_change_info,
            ));
            assert(get_opt_bool_spec(pairs@, Key::CanInviteUsers) == Ok::<Option<bool>, DecodeError>(
                self.can_invite_users,
            ));
            assert(get_opt_bool_spec(pairs@, Key::CanPinMessages) == Ok::<Option<bool>, DecodeError>(
                self.can_pin_messages,
            ));
            assert(get_opt_bool_spec(pairs@, Key::CanManageVoiceChats) == Ok::<Option<bool>, DecodeError>(
                self.can_manage_voice_chats,
            ));
            assert(get_opt_bool_spec(pairs@, Key::CanManageChat) == Ok::<Option<bool>, DecodeError>(
                self.can_manage_chat,
            ));
            assert(lookup(pairs@, Key::IsAnonymous) is Some <==> self.is_anonymous is Some);
            assert(lookup(pairs@, Key::CanPostMessages) is Some <==> self.can_post_messages is Some);
            assert(lookup(pairs@, Key::CanEditMessages) is Some <==> self.can_edit_messages is Some);
            assert(lookup(pairs@, Key::CanDeleteMessages) is Some <==> self.can_delete_messages is Some);
            assert(lookup(pairs@, Key::CanRestrictMembers) is Some <==> self.can_restrict_members is Some);
            assert(lookup(pairs@, Key::CanPromoteMembers) is Some <==> self.can_promote_members is Some);
            assert(lookup(pairs@, Key::CanChangeInfo) is Some <==> self.can_change_info is Some);
            assert(lookup(pairs@, Key::CanInviteUsers) is Some <==> self.can_invite_users is Some);
            assert(lookup(pairs@, Key::CanPinMessages) is Some <==> self.can_pin_messages is Some);
            assert(lookup(pairs@, Key::CanManageVoiceChats) is Some <==> self.can_manage_voice_chats is Some);
            assert(lookup(pairs@, Key::CanManageChat) is Some <==> self.can_manage_chat is Some);
            assert(Self::decode_fields_spec(pairs@) == Ok::<PromoteChatMember, DecodeError>(*self));
        }
        JsonValue::Object(pairs)
    }

    /// Decodes this request's wire value.
    pub fn from_json(v: &JsonValue) -> (r: Result<PromoteChatMember, DecodeError>)
        ensures
            r == Self::from_json_spec(*v),
    {
        match v {
            JsonValue::Object(pairs) => {
                let chat_id = match get_i64(pairs, Key::ChatId) {
                    Ok(x) => x,
                    Err(e) => return Err(e),
                };
                let user_id = match get_i64(pairs, Key::UserId) {
                    Ok(x) => x,
                    Err(e) => return Err(e),
                };
                let is_anonymous = match get_opt_bool(pairs, Key::IsAnonymous) {
                    Ok(x) => x,
                    Err(e) => return Err(e),
                };
                let can_post_messages = match get_opt_bool(pairs, Key::CanPostMessages) {
                    Ok(x) => x,
                    Err(e) => return Err(e),
                };
                let can_edit_messages = match get_opt_bool(pairs, Key::CanEditMessages) {
                    Ok(x) => x,
                    Err(e) => return Err(e),
                };
                let can_delete_messages = match get_opt_bool(pairs, Key::CanDeleteMessages) {
                    Ok(x) => x,
                    Err(e) => return Err(e),
                };
                let can_restrict_members = match get_opt_bool(pairs, Key::CanRestrictMembers) {
                    Ok(x) => x,
                    Err(e) => return Err(e),
                };
                let can_promote_members = match get_opt_bool(pairs, Key::CanPromoteMembers) {
                    Ok(x) => x,
                    Err(e) => return Err(e),
                };
                let can_change_info = match get_opt_bool(pairs, Key::CanChangeInfo) {
                    Ok(x) => x,
                    Err(e) => return Err(e),
                };
                let can_invite_users = match get_opt_bool(pairs, Key::CanInviteUsers) {
                    Ok(x) => x,
                    Err(e) => return Err(e),
                };
                let can_pin_messages = match get_opt_bool(pairs, Key::CanPinMessages) {
                    Ok(x) => x,
                    Err(e) => return Err(e),
                };
                let can_manage_voice_chats = match get_opt_bool(pairs, Key::CanManageVoiceChats) {
                    Ok(x) => x,
                    Err(e) => return Err(e),
                };
                let can_manage_chat = match get_opt_bool(pairs, Key::CanManageChat) {
                    Ok(x) => x,
                    Err(e) => return Err(e),
                };
                Ok(PromoteChatMember { chat_id, user_id, is_anonymous, can_post_messages, can_edit_messages, can_delete_messages, can_restrict_members, can_promote_members, can_change_info, can_invite_users, can_pin_messages, can_manage_voice_chats, can_manage_chat })
            },
            _ => Err(DecodeError::NotObject),
        }
    }
}

/// Parameters of the call that titles an administrator.
#[derive(Clone, Debug, PartialEq)]
pub struct SetChatAdministratorCustomTitle {
    /// Unique identifier for the target chat
    pub chat_id: i64,
    /// Unique identifier of the target user
    pub user_id: i64,
    /// New custom title for the administrator; 0-16 characters, emoji are
    /// not allowed
    pub custom_title: String,
}

impl SetChatAdministratorCustomTitle {
    /// The pairs this request encodes to, in order: one per set
    /// field, and none for an unset optional field.
    pub open spec fn fields_spec(self) -> Seq<(Key, JsonValue)> {
        Seq::empty().push((Key::ChatId, JsonValue::Int(self.chat_id))).push((Key::UserId, JsonValue::Int(self.user_id))).push((Key::CustomTitle, JsonValue::Str(self.custom_title)))
    }

    /// What decoding the pairs of this request's object gives.
    pub open spec fn decode_fields_spec(p: Seq<(Key, JsonValue)>) -> Result<SetChatAdministratorCustomTitle, DecodeError> {
        match get_i64_spec(p, Key::ChatId) {
            Err(e) => Err(e),
            Ok(chat_id) => {
            match get_i64_spec(p, Key::UserId) {
                Err(e) => Err(e),
                Ok(user_id) => {
                match get_string_spec(p, Key::CustomTitle) {
                    Err(e) => Err(e),
                    Ok(custom_title) => {
                    Ok(SetChatAdministratorCustomTitle { chat_id, user_id, custom_title })
                    },
                }
                },
            }
            },
        }
    }

    /// What decoding this request's wire value gives.
    pub open spec fn from_json_spec(v: JsonValue) -> Result<SetChatAdministratorCustomTitle, DecodeError> {
        match v {
            JsonValue::Object(p) => Self::decode_fields_spec(p@),
            _ => Err(DecodeError::NotObject),
        }
    }

    /// Encodes this request; decoding the result gives the request
    /// back.
    pub fn to_json(&self) -> (r: JsonValue)
        ensures
            r matches JsonValue::Object(pairs) && pairs@ == self.fields_spec(),
            Self::from_json_spec(r) == Ok::<SetChatAdministratorCustomTitle, DecodeError>(*self),
    {
        let mut pairs: Vec<(Key, JsonValue)> = Vec::new();
        pairs.push((Key::ChatId, JsonValue::Int(self.chat_id)));
        pairs.push((Key::UserId, JsonValue::Int(self.user_id)));
        pairs.push((Key::CustomTitle, JsonValue::Str(self.custom_title.clone())));
        proof {
            broadcast use lemma_lookup_push, lemma_lookup_opt_push, lemma_lookup_empty;

            assert(pairs@ == self.fields_spec());
            assert(get_i64_spec(pairs@, Key::ChatId) == Ok::<i64, DecodeError>(
                self.chat_id,
            ));
            assert(get_i64_spec(pairs@, Key::UserId) == Ok::<i64, DecodeError>(
                self.user_id,
            ));
            assert(get_string_spec(pairs@, Key::CustomTitle) == Ok::<String, DecodeError>(
                self.custom_title,
            ));
            assert(Self::decode_fields_spec(pairs@) == Ok::<SetChatAdministratorCustomTitle, DecodeError>(*self));
        }
        JsonValue::Object(pairs)
    }

    /// Decodes this request's wire value.
    pub fn from_json(v: &JsonValue) -> (r: Result<SetChatAdministratorCustomTitle, DecodeError>)
        ensures
            r == Self::from_json_spec(*v),
    {
        match v {
            JsonValue::Object(pairs) => {
                let chat_id = match get_i64(pairs, Key::ChatId) {
                    Ok(x) => x,
                    Err(e) => return Err(e),
                };
                let user_id = match get_i64(pairs, Key::UserId) {
                    Ok(x) => x,
                    Err(e) => return Err(e),
                };
                let custom_title = match get_string(pairs, Key::CustomTitle) {
                    Ok(x) => x,
                    Err(e) => return Err(e),
                };
                Ok(SetChatAdministratorCustomTitle { chat_id, user_id, custom_title })
            },
            _ => Err(DecodeError::NotObject),
        }
    }
}

/// Parameters of the call that sets a chat's default permissions.
#[derive(Clone, Debug, PartialEq)]
pub struct SetChatPermissions {
    /// Unique identifier for the target chat
    pub chat_id: i64,
    /// New default chat permissions
    pub permissions: ChatPermissions,
}

impl SetChatPermissions {
    /// What decoding the pairs of this request's object gives.
    pub open spec fn decode_fields_spec(p: Seq<(Key, JsonValue)>) -> Result<SetChatPermissions, DecodeError> {
        match get_i64_spec(p, Key::ChatId) {
            Err(e) => Err(e),
            Ok(chat_id) => {
            match get_permissions_spec(p, Key::Permissions) {
                Err(e) => Err(e),
                Ok(permissions) => {
                Ok(SetChatPermissions { chat_id, permissions })
                },
            }
            },
        }
    }

    /// What decoding this request's wire value gives.
    pub open spec fn from_json_spec(v: JsonValue) -> Result<SetChatPermissions, DecodeError> {
        match v {
            JsonValue::Object(p) => Self::decode_fields_spec(p@),
            _ => Err(DecodeError::NotObject),
        }
    }

    /// Encodes this request; decoding the result gives the request
    /// back.
    pub fn to_json(&self) -> (r: JsonValue)
        ensures
            Self::from_json_spec(r) == Ok::<SetChatPermissions, DecodeError>(*self),
    {
        let mut pairs: Vec<(Key, JsonValue)> = Vec::new();
        pairs.push((Key::ChatId, JsonValue::Int(self.chat_id)));
        pairs.push((Key::Permissions, self.permissions.to_json()));
        proof {
            broadcast use lemma_lookup_push, lemma_lookup_opt_push, lemma_lookup_empty;

            assert(get_i64_spec(pairs@, Key::ChatId) == Ok::<i64, DecodeError>(
                self.chat_id,
            ));
            assert(get_permissions_spec(pairs@, Key::Permissions) == Ok::<ChatPermissions, DecodeError>(
                self.permissions,
            ));
            assert(Self::decode_fields_spec(pairs@) == Ok::<SetChatPermissions, DecodeError>(*self));
        }
        JsonValue::Object(pairs)
    }

    /// Decodes this request's wire value.
    pub fn from_json(v: &JsonValue) -> (r: Result<SetChatPermissions, DecodeError>)
        ensures
            r == Self::from_json_spec(*v),
    {
        match v {
            JsonValue::Object(pairs) => {
                let chat_id = match get_i64(pairs, Key::ChatId) {
                    Ok(x) => x,
                    Err(e) => return Err(e),
                };
                let permissions = match get_permissions(pairs, Key::Permissions) {
                    Ok(x) => x,
                    Err(e) => return Err(e),
                };
                Ok(SetChatPermissions { chat_id, permissions })
            },
            _ => Err(DecodeError::NotObject),
        }
    }
}

/// Parameters of the call that exports a chat's main invite link.
#[derive(Clone, Debug, PartialEq)]
pub struct ExportChatInviteLink {
    /// Unique identifier for the target chat
    pub chat_id: i64,
}

impl ExportChatInviteLink {
    /// The pairs this request encodes to, in order: one per set
    /// field, and none for an unset optional field.
    pub open spec fn fields_spec(self) -> Seq<(Key, JsonValue)> {
        Seq::empty().push((Key::ChatId, JsonValue::Int(self.chat_id)))
    }

    /// What decoding the pairs of this request's object gives.
    pub open spec fn decode_fields_spec(p: Seq<(Key, JsonValue)>) -> Result<ExportChatInviteLink, DecodeError> {
        match get_i64_spec(p, Key::ChatId) {
            Err(e) => Err(e),
            Ok(chat_id) => {
            Ok(ExportChatInviteLink { chat_id })
            },
        }
    }

    /// What decoding this request's wire value gives.
    pub open spec fn from_json_spec(v: JsonValue) -> Result<ExportChatInviteLink, DecodeError> {
        match v {
            JsonValue::Object(p) => Self::decode_fields_spec(p@),
            _ => Err(DecodeError::NotObject),
        }
    }

    /// Encodes this request; decoding the result gives the request
    /// back.
    pub fn to_json(&self) -> (r: JsonValue)
        ensures
            r matches JsonValue::Object(pairs) && pairs@ == self.fields_spec(),
            Self::from_json_spec(r) == Ok::<ExportChatInviteLink, DecodeError>(*self),
    {
        let mut pairs: Vec<(Key, JsonValue)> = Vec::new();
        pairs.push((Key::ChatId, JsonValue::Int(self.chat_id)));
        proof {
            broadcast use lemma_lookup_push, lemma_lookup_opt_push, lemma_lookup_empty;

            assert(pairs@ == self.fields_spec());
            assert(get_i64_spec(pairs@, Key::ChatId) == Ok::<i64, DecodeError>(
                self.chat_id,
            ));
            assert(Self::decode_fields_spec(pairs@) == Ok::<ExportChatInviteLink, DecodeError>(*self));
        }
        JsonValue::Object(pairs)
    }

    /// Decodes this request's wire value.
    pub fn from_json(v: &JsonValue) -> (r: Result<ExportChatInviteLink, DecodeError>)
        ensures
            r == Self::from_json_spec(*v),
    {
        match v {
            JsonValue::Object(pairs) => {
                let chat_id = match get_i64(pairs, Key::ChatId) {
                    Ok(x) => x,
                    Err(e) => return Err(e),
                };
                Ok(ExportChatInviteLink { chat_id })
            },
            _ => Err(DecodeError::NotObject),
        }
    }
}

/// Parameters of the call that sets a chat's photo.
#[derive(Clone, Debug, PartialEq)]
pub struct SetChatPhoto {
    /// Unique identifier for the target chat
    pub chat_id: i64,
    /// New chat photo
    pub photo: InputFile,
}

impl SetChatPhoto {
    /// What decoding the pairs of this request's object gives.
    pub open spec fn decode_fields_spec(p: Seq<(Key, JsonValue)>) -> Result<SetChatPhoto, DecodeError> {
        match get_i64_spec(p, Key::ChatId) {
            Err(e) => Err(e),
            Ok(chat_id) => {
            match get_string_spec(p, Key::Photo) {
                Err(e) => Err(e),
                Ok(s) => {
                    let photo = InputFile::FileId(s);
                Ok(SetChatPhoto { chat_id, photo })
                },
            }
            },
        }
    }

    /// What decoding this request's wire value gives.
    pub open spec fn from_json_spec(v: JsonValue) -> Result<SetChatPhoto, DecodeError> {
        match v {
            JsonValue::Object(p) => Self::decode_fields_spec(p@),
            _ => Err(DecodeError::NotObject),
        }
    }

    /// Encodes this request when its photo is a server-side file
    /// identifier; a path or buffer needs a multipart transport and
    /// has no JSON form.  Decoding a successful encoding gives the
    /// request back.
    pub fn to_json(&self) -> (r: Result<JsonValue, EncodeError>)
        ensures
            self.photo matches InputFile::FileId(_) ==> (r matches Ok(v)
                && Self::from_json_spec(v) == Ok::<SetChatPhoto, DecodeError>(*self)),
            !(self.photo matches InputFile::FileId(_)) ==> r == Err::<JsonValue, EncodeError>(
                EncodeError::RequiresMultipart,
            ),
    {
        match &self.photo {
            InputFile::FileId(s) => {
                let mut pairs: Vec<(Key, JsonValue)> = Vec::new();
                pairs.push((Key::ChatId, JsonValue::Int(self.chat_id)));
                pairs.push((Key::Photo, JsonValue::Str(s.clone())));
                proof {
                    broadcast use lemma_lookup_push, lemma_lookup_opt_push, lemma_lookup_empty;

                    assert(Self::decode_fields_spec(pairs@) == Ok::<SetChatPhoto, DecodeError>(*self));
                }
                Ok(JsonValue::Object(pairs))
            },
            _ => Err(EncodeError::RequiresMultipart),
        }
    }

    /// Decodes this request's wire value.
    pub fn from_json(v: &JsonValue) -> (r: Result<SetChatPhoto, DecodeError>)
        ensures
            r == Self::from_json_spec(*v),
    {
        match v {
            JsonValue::Object(pairs) => {
                let chat_id = match get_i64(pairs, Key::ChatId) {
                    Ok(x) => x,
                    Err(e) => return Err(e),
                };
                let photo = match get_string(pairs, Key::Photo) {
                    Ok(s) => InputFile::FileId(s),
                    Err(e) => return Err(e),
                };
                Ok(SetChatPhoto { chat_id, photo })
            },
            _ => Err(DecodeError::NotObject),
        }
    }
}

/// Parameters of the call that deletes a chat's photo.
#[derive(Clone, Debug, PartialEq)]
pub struct DeleteChatPhoto {
    /// Unique identifier for the target chat
    pub chat_id: i64,
}

impl DeleteChatPhoto {
    /// The pairs this request encodes to, in order: one per set
    /// field, and none for an unset optional field.
    pub open spec fn fields_spec(self) -> Seq<(Key, JsonValue)> {
        Seq::empty().push((Key::ChatId, JsonValue::Int(self.chat_id)))
    }

    /// What decoding the pairs of this request's object gives.
    pub open spec fn decode_fields_spec(p: Seq<(Key, JsonValue)>) -> Result<DeleteChatPhoto, DecodeError> {
        match get_i64_spec(p, Key::ChatId) {
            Err(e) => Err(e),
            Ok(chat_id) => {
            Ok(DeleteChatPhoto { chat_id })
            },
        }
    }

    /// What decoding this request's wire value gives.
    pub open spec fn from_json_spec(v: JsonValue) -> Result<DeleteChatPhoto, DecodeError> {
        match v {
            JsonValue::Object(p) => Self::decode_fields_spec(p@),
            _ => Err(DecodeError::NotObject),
        }
    }

    /// Encodes this request; decoding the result gives the request
    /// back.
    pub fn to_json(&self) -> (r: JsonValue)
        ensures
            r matches JsonValue::Object(pairs) && pairs@ == self.fields_spec(),
            Self::from_json_spec(r) == Ok::<DeleteChatPhoto, DecodeError>(*self),
    {
        let mut pairs: Vec<(Key, JsonValue)> = Vec::new();
        pairs.push((Key::ChatId, JsonValue::Int(self.chat_id)));
        proof {
            broadcast use lemma_lookup_push, lemma_lookup_opt_push, lemma_lookup_empty;

            assert(pairs@ == self.fields_spec());
            assert(get_i64_spec(pairs@, Key::ChatId) == Ok::<i64, DecodeError>(
                self.chat_id,
            ));
            assert(Self::decode_fields_spec(pairs@) == Ok::<DeleteChatPhoto, DecodeError>(*self));
        }
        JsonValue::Object(pairs)
    }

    /// Decodes this request's wire value.
    pub fn from_json(v: &JsonValue) -> (r: Result<DeleteChatPhoto, DecodeError>)
        ensures
            r == Self::from_json_spec(*v),
    {
        match v {
            JsonValue::Object(pairs) => {
                let chat_id = match get_i64(pairs, Key::ChatId) {
                    Ok(x) => x,
                    Err(e) => return Err(e),
                };
                Ok(DeleteChatPhoto { chat_id })
            },
            _ => Err(DecodeError::NotObject),
        }
    }
}

/// Parameters of the call that sets a chat's title.
#[derive(Clone, Debug, PartialEq)]
pub struct SetChatTitle {
    /// Unique identifier for the target chat
    pub chat_id: i64,
    /// New chat title, 1-255 characters
    pub title: String,
}

impl SetChatTitle {
    /// The pairs this request encodes to, in order: one per set
    /// field, and none for an unset optional field.
    pub open spec fn fields_spec(self) -> Seq<(Key, JsonValue)> {
        Seq::empty().push((Key::ChatId, JsonValue::Int(self.chat_id))).push((Key::Title, JsonValue::Str(self.title)))
    }

    /// What decoding the pairs of this request's object gives.
    pub open spec fn decode_fields_spec(p: Seq<(Key, JsonValue)>) -> Result<SetChatTitle, DecodeError> {
        match get_i64_spec(p, Key::ChatId) {
            Err(e) => Err(e),
            Ok(chat_id) => {
            match get_string_spec(p, Key::Title) {
                Err(e) => Err(e),
                Ok(title) => {
                Ok(SetChatTitle { chat_id, title })
                },
            }
            },
        }
    }

    /// What decoding this request's wire value gives.
    pub open spec fn from_json_spec(v: JsonValue) -> Result<SetChatTitle, DecodeError> {
        match v {
            JsonValue::Object(p) => Self::decode_fields_spec(p@),
            _ => Err(DecodeError::NotObject),
        }
    }

    /// Encodes this request; decoding the result gives the request
    /// back.
    pub fn to_json(&self) -> (r: JsonValue)
        ensures
            r matches JsonValue::Object(pairs) && pairs@ == self.fields_spec(),
            Self::from_json_spec(r) == Ok::<SetChatTitle, DecodeError>(*self),
    {
        let mut pairs: Vec<(Key, JsonValue)> = Vec::new();
        pairs.push((Key::ChatId, JsonValue::Int(self.chat_id)));
        pairs.push((Key::Title, JsonValue::Str(self.title.clone())));
        proof {
            broadcast use lemma_lookup_push, lemma_lookup_opt_push, lemma_lookup_empty;

            assert(pairs@ == self.fields_spec());
            assert(get_i64_spec(pairs@, Key::ChatId) == Ok::<i64, DecodeError>(
                self.chat_id,
            ));
            assert(get_string_spec(pairs@, Key::Title) == Ok::<String, DecodeError>(
                self.title,
            ));
            assert(Self::decode_fields_spec(pairs@) == Ok::<SetChatTitle, DecodeError>(*self));
        }
        JsonValue::Object(pairs)
    }

    /// Decodes this request's wire value.
    pub fn from_json(v: &JsonValue) -> (r: Result<SetChatTitle, DecodeError>)
        ensures
            r == Self::from_json_spec(*v),
    {
        match v {
            JsonValue::Object(pairs) => {
                let chat_id = match get_i64(pairs, Key::ChatId) {
                    Ok(x) => x,
                    Err(e) => return Err(e),
                };
                let title = match get_string(pairs, Key::Title) {
                    Ok(x) => x,
                    Err(e) => return Err(e),
                };
                Ok(SetChatTitle { chat_id, title })
            },
            _ => Err(DecodeError::NotObject),
        }
    }
}

/// Parameters of the call that sets a chat's description.
#[derive(Clone, Debug, PartialEq)]
pub struct SetChatDescription {
    /// Unique identifier for the target chat
    pub chat_id: i64,
    /// New chat description, 0-255 characters
    pub description: Option<String>,
}

impl SetChatDescription {
    /// The pairs this request encodes to, in order: one per set
    /// field, and none for an unset optional field.
    pub open spec fn fields_spec(self) -> Seq<(Key, JsonValue)> {
        opt_push(Seq::empty().push((Key::ChatId, JsonValue::Int(self.chat_id))), Key::Description, opt_str(self.description))
    }

    /// What decoding the pairs of this request's object gives.
    pub open spec fn decode_fields_spec(p: Seq<(Key, JsonValue)>) -> Result<SetChatDescription, DecodeError> {
        match get_i64_spec(p, Key::ChatId) {
            Err(e) => Err(e),
            Ok(chat_id) => {
            match get_opt_string_spec(p, Key::Description) {
                Err(e) => Err(e),
                Ok(description) => {
                Ok(SetChatDescription { chat_id, description })
                },
            }
            },
        }
    }

    /// What decoding this request's wire value gives.
    pub open spec fn from_json_spec(v: JsonValue) -> Result<SetChatDescription, DecodeError> {
        match v {
            JsonValue::Object(p) => Self::decode_fields_spec(p@),
            _ => Err(DecodeError::NotObject),
        }
    }

    /// Encodes this request; decoding the result gives the request
    /// back, and an unset optional field leaves no key in the
    /// output.
    pub fn to_json(&self) -> (r: JsonValue)
        ensures
            r matches JsonValue::Object(pairs) && pairs@ == self.fields_spec(),
            Self::from_json_spec(r) == Ok::<SetChatDescription, DecodeError>(*self),
            r matches JsonValue::Object(pairs) && (lookup(pairs@, Key::Description) is Some
                <==> self.description is Some),
    {
        let mut pairs: Vec<(Key, JsonValue)> = Vec::new();
        pairs.push((Key::ChatId, JsonValue::Int(self.chat_id)));
        push_opt_str(&mut pairs, Key::Description, &self.description);
        proof {
            broadcast use lemma_lookup_push, lemma_lookup_opt_push, lemma_lookup_empty;

            assert(pairs@ == self.fields_spec());
            assert(get_i64_spec(pairs@, Key::ChatId) == Ok::<i64, DecodeError>(
                self.chat_id,
            ));
            assert(get_opt_string_spec(pairs@, Key::Description) == Ok::<Option<String>, DecodeError>(
                self.description,
            ));
            assert(lookup(pairs@, Key::Description) is Some <==> self.description is Some);
            assert(Self::decode_fields_spec(pairs@) == Ok::<SetChatDescription, DecodeError>(*self));
        }
        JsonValue::Object(pairs)
    }

    /// Decodes this request's wire value.
    pub fn from_json(v: &JsonValue) -> (r: Result<SetChatDescription, DecodeError>)
        ensures
            r == Self::from_json_spec(*v),
    {
        match v {
            JsonValue::Object(pairs) => {
                let chat_id = match get_i64(pairs, Key::ChatId) {
                    Ok(x) => x,
                    Err(e) => return Err(e),
                };
                let description = match get_opt_string(pairs, Key::Description) {
                    Ok(x) => x,
                    Err(e) => return Err(e),
                };
                Ok(SetChatDescription { chat_id, description })
            },
            _ => Err(DecodeError::NotObject),
        }
    }
}

/// Parameters of the call that pins a message in a chat.
#[derive(Clone, Debug, PartialEq)]
pub struct PinChatMessage {
    /// Unique identifier for the target chat
    pub chat_id: i64,
    /// Identifier of a message to pin
    pub message_id: i64,
    /// Pins the message silently; members get a notification with no sound
    pub disable_notification: bool,
}

impl PinChatMessage {
    /// The pairs this request encodes to, in order: one per set
    /// field, and none for an unset optional field.
    pub open spec fn fields_spec(self) -> Seq<(Key, JsonValue)> {
        Seq::empty().push((Key::ChatId, JsonValue::Int(self.chat_id))).push((Key::MessageId, JsonValue::Int(self.message_id))).push((Key::DisableNotification, JsonValue::Bool(self.disable_notification)))
    }

    /// What decoding the pairs of this request's object gives.
    pub open spec fn decode_fields_spec(p: Seq<(Key, JsonValue)>) -> Result<PinChatMessage, DecodeError> {
        match get_i64_spec(p, Key::ChatId) {
            Err(e) => Err(e),
            Ok(chat_id) => {
            match get_i64_spec(p, Key::MessageId) {
                Err(e) => Err(e),
                Ok(message_id) => {
                match get_bool_spec(p, Key::DisableNotification) {
                    Err(e) => Err(e),
                    Ok(disable_notification) => {
                    Ok(PinChatMessage { chat_id, message_id, disable_notification })
                    },
                }
                },
            }
            },
        }
    }

    /// What decoding this request's wire value gives.
    pub open spec fn from_json_spec(v: JsonValue) -> Result<PinChatMessage, DecodeError> {
        match v {
            JsonValue::Object(p) => Self::decode_fields_spec(p@),
            _ => Err(DecodeError::NotObject),
        }
    }

    /// Encodes this request; decoding the result gives the request
    /// back.
    pub fn to_json(&self) -> (r: JsonValue)
        ensures
            r matches JsonValue::Object(pairs) && pairs@ == self.fields_spec(),
            Self::from_json_spec(r) == Ok::<PinChatMessage, DecodeError>(*self),
    {
        let mut pairs: Vec<(Key, JsonValue)> = Vec::new();
        pairs.push((Key::ChatId, JsonValue::Int(self.chat_id)));
        pairs.push((Key::MessageId, JsonValue::Int(self.message_id)));
        pairs.push((Key::DisableNotification, JsonValue::Bool(self.disable_notification)));
        proof {
            broadcast use lemma_lookup_push, lemma_lookup_opt_push, lemma_lookup_empty;

            assert(pairs@ == self.fields_spec());
            assert(get_i64_spec(pairs@, Key::ChatId) == Ok::<i64, DecodeError>(
                self.chat_id,
            ));
            assert(get_i64_spec(pairs@, Key::MessageId) == Ok::<i64, DecodeError>(
                self.message_id,
            ));
            assert(get_bool_spec(pairs@, Key::DisableNotification) == Ok::<bool, DecodeError>(
                self.disable_notification,
            ));
            assert(Self::decode_fields_spec(pairs@) == Ok::<PinChatMessage, DecodeError>(*self));
        }
        JsonValue::Object(pairs)
    }

    /// Decodes this request's wire value.
    pub fn from_json(v: &JsonValue) -> (r: Result<PinChatMessage, DecodeError>)
        ensures
            r == Self::from_json_spec(*v),
    {
        match v {
            JsonValue::Object(pairs) => {
                let chat_id = match get_i64(pairs, Key::ChatId) {
                    Ok(x) => x,
                    Err(e) => return Err(e),
                };
                let message_id = match get_i64(pairs, Key::MessageId) {
                    Ok(x) => x,
                    Err(e) => return Err(e),
                };
                let disable_notification = match get_bool(pairs, Key::DisableNotification) {
                    Ok(x) => x,
                    Err(e) => return Err(e),
                };
                Ok(PinChatMessage { chat_id, message_id, disable_notification })
            },
            _ => Err(DecodeError::NotObject),
        }
    }
}

/// Parameters of the call that unpins a message in a chat.
#[derive(Clone, Debug, PartialEq)]
pub struct UnpinChatMessage {
    /// Unique identifier for the target chat
    pub chat_id: i64,
    /// Identifier of a message to unpin; if not specified, the most recent
    /// pinned message (by sending date) is unpinned
    pub message_id: Option<i64>,
}

impl UnpinChatMessage {
    /// The pairs this request encodes to, in order: one per set
    /// field, and none for an unset optional field.
    pub open spec fn fields_spec(self) -> Seq<(Key, JsonValue)> {
        opt_push(Seq::empty().push((Key::ChatId, JsonValue::Int(self.chat_id))), Key::MessageId, opt_int(self.message_id))
    }

    /// What decoding the pairs of this request's object gives.
    pub open spec fn decode_fields_spec(p: Seq<(Key, JsonValue)>) -> Result<UnpinChatMessage, DecodeError> {
        match get_i64_spec(p, Key::ChatId) {
            Err(e) => Err(e),
            Ok(chat_id) => {
            match get_opt_i64_spec(p, Key::MessageId) {
                Err(e) => Err(e),
                Ok(message_id) => {
                Ok(UnpinChatMessage { chat_id, message_id })
                },
            }
            },
        }
    }

    /// What decoding this request's wire value gives.
    pub open spec fn from_json_spec(v: JsonValue) -> Result<UnpinChatMessage, DecodeError> {
        match v {
            JsonValue::Object(p) => Self::decode_fields_spec(p@),
            _ => Err(DecodeError::NotObject),
        }
    }

    /// Encodes this request; decoding the result gives the request
    /// back, and an unset optional field leaves no key in the
    /// output.
    pub fn to_json(&self) -> (r: JsonValue)
        ensures
            r matches JsonValue::Object(pairs) && pairs@ == self.fields_spec(),
            Self::from_json_spec(r) == Ok::<UnpinChatMessage, DecodeError>(*self),
            r matches JsonValue::Object(pairs) && (lookup(pairs@, Key::MessageId) is Some
                <==> self.message_id is Some),
    {
        let mut pairs: Vec<(Key, JsonValue)> = Vec::new();
        pairs.push((Key::ChatId, JsonValue::Int(self.chat_id)));
        push_opt_int(&mut pairs, Key::MessageId, self.message_id);
        proof {
            broadcast use lemma_lookup_push, lemma_lookup_opt_push, lemma_lookup_empty;

            assert(pairs@ == self.fields_spec());
            assert(get_i64_spec(pairs@, Key::ChatId) == Ok::<i64, DecodeError>(
                self.chat_id,
            ));
            assert(get_opt_i64_spec(pairs@, Key::MessageId) == Ok::<Option<i64>, DecodeError>(
                self.message_id,
            ));
            assert(lookup(pairs@, Key::MessageId) is Some <==> self.message_id is Some);
            assert(Self::decode_fields_spec(pairs@) == Ok::<UnpinChatMessage, DecodeError>(*self));
        }
        JsonValue::Object(pairs)
    }

    /// Decodes this request's wire value.
    pub fn from_json(v: &JsonValue) -> (r: Result<UnpinChatMessage, DecodeError>)
        ensures
            r == Self::from_json_spec(*v),
    {
        match v {
            JsonValue::Object(pairs) => {
                let chat_id = match get_i64(pairs, Key::ChatId) {
                    Ok(x) => x,
                    Err(e) => return Err(e),
                };
                let message_id = match get_opt_i64(pairs, Key::MessageId) {
                    Ok(x) => x,
                    Err(e) => return Err(e),
                };
                Ok(UnpinChatMessage { chat_id, message_id })
            },
            _ => Err(DecodeError::NotObject),
        }
    }
}

/// Parameters of the call that unpins every message in a chat.
#[derive(Clone, Debug, PartialEq)]
pub struct UnpinAllChatMessages {
    /// Unique identifier for the target chat
    pub chat_id: i64,
}

impl UnpinAllChatMessages {
    /// The pairs this request encodes to, in order: one per set
    /// field, and none for an unset optional field.
    pub open spec fn fields_spec(self) -> Seq<(Key, JsonValue)> {
        Seq::empty().push((Key::ChatId, JsonValue::Int(self.chat_id)))
    }

    /// What decoding the pairs of this request's object gives.
    pub open spec fn decode_fields_spec(p: Seq<(Key, JsonValue)>) -> Result<UnpinAllChatMessages, DecodeError> {
        match get_i64_spec(p, Key::ChatId) {
            Err(e) => Err(e),
            Ok(chat_id) => {
            Ok(UnpinAllChatMessages { chat_id })
            },
        }
    }

    /// What decoding this request's wire value gives.
    pub open spec fn from_json_spec(v: JsonValue) -> Result<UnpinAllChatMessages, DecodeError> {
        match v {
            JsonValue::Object(p) => Self::decode_fields_spec(p@),
            _ => Err(DecodeError::NotObject),
        }
    }

    /// Encodes this request; decoding the result gives the request
    /// back.
    pub fn to_json(&self) -> (r: JsonValue)
        ensures
            r matches JsonValue::Object(pairs) && pairs@ == self.fields_spec(),
            Self::from_json_spec(r) == Ok::<UnpinAllChatMessages, DecodeError>(*self),
    {
        let mut pairs: Vec<(Key, JsonValue)> = Vec::new();
        pairs.push((Key::ChatId, JsonValue::Int(self.chat_id)));
        proof {
            broadcast use lemma_lookup_push, lemma_lookup_opt_push, lemma_lookup_empty;

            assert(pairs@ == self.fields_spec());
            assert(get_i64_spec(pairs@, Key::ChatId) == Ok::<i64, DecodeError>(
                self.chat_id,
            ));
            assert(Self::decode_fields_spec(pairs@) == Ok::<UnpinAllChatMessages, DecodeError>(*self));
        }
        JsonValue::Object(pairs)
    }

    /// Decodes this request's wire value.
    pub fn from_json(v: &JsonValue) -> (r: Result<UnpinAllChatMessages, DecodeError>)
        ensures
            r == Self::from_json_spec(*v),
    {
        match v {
            JsonValue::Object(pairs) => {
                let chat_id = match get_i64(pairs, Key::ChatId) {
                    Ok(x) => x,
                    Err(e) => return Err(e),
                };
                Ok(UnpinAllChatMessages { chat_id })
            },
            _ => Err(DecodeError::NotObject),
        }
    }
}

/// Parameters of the call that makes the bot leave a chat.
#[derive(Clone, Debug, PartialEq)]
pub struct LeaveChat {
    /// Unique identifier for the target chat
    pub chat_id: i64,
}

impl LeaveChat {
    /// The pairs this request encodes to, in order: one per set
    /// field, and none for an unset optional field.
    pub open spec fn fields_spec(self) -> Seq<(Key, JsonValue)> {
        Seq::empty().push((Key::ChatId, JsonValue::Int(self.chat_id)))
    }

    /// What decoding the pairs of this request's object gives.
    pub open spec fn decode_fields_spec(p: Seq<(Key, JsonValue)>) -> Result<LeaveChat, DecodeError> {
        match get_i64_spec(p, Key::ChatId) {
            Err(e) => Err(e),
            Ok(chat_id) => {
            Ok(LeaveChat { chat_id })
            },
        }
    }

    /// What decoding this request's wire value gives.
    pub open spec fn from_json_spec(v: JsonValue) -> Result<LeaveChat, DecodeError> {
        match v {
            JsonValue::Object(p) => Self::decode_fields_spec(p@),
            _ => Err(DecodeError::NotObject),
        }
    }

    /// Encodes this request; decoding the result gives the request
    /// back.
    pub fn to_json(&self) -> (r: JsonValue)
        ensures
            r matches JsonValue::Object(pairs) && pairs@ == self.fields_spec(),
            Self::from_json_spec(r) == Ok::<LeaveChat, DecodeError>(*self),
    {
        let mut pairs: Vec<(Key, JsonValue)> = Vec::new();
        pairs.push((Key::ChatId, JsonValue::Int(self.chat_id)));
        proof {
            broadcast use lemma_lookup_push, lemma_lookup_opt_push, lemma_lookup_empty;

            assert(pairs@ == self.fields_spec());
            assert(get_i64_spec(pairs@, Key::ChatId) == Ok::<i64, DecodeError>(
                self.chat_id,
            ));
            assert(Self::decode_fields_spec(pairs@) == Ok::<LeaveChat, DecodeError>(*self));
        }
        JsonValue::Object(pairs)
    }

    /// Decodes this request's wire value.
    pub fn from_json(v: &JsonValue) -> (r: Result<LeaveChat, DecodeError>)
        ensures
            r == Self::from_json_spec(*v),
    {
        match v {
            JsonValue::Object(pairs) => {
                let chat_id = match get_i64(pairs, Key::ChatId) {
                    Ok(x) => x,
                    Err(e) => return Err(e),
                };
                Ok(LeaveChat { chat_id })
            },
            _ => Err(DecodeError::NotObject),
        }
    }
}

/// Parameters of the call that fetches a chat.
#[derive(Clone, Debug, PartialEq)]
pub struct GetChat {
    /// Unique identifier for the target chat
    pub chat_id: i64,
}

impl GetChat {
    /// The pairs this request encodes to, in order: one per set
    /// field, and none for an unset optional field.
    pub open spec fn fields_spec(self) -> Seq<(Key, JsonValue)> {
        Seq::empty().push((Key::ChatId, JsonValue::Int(self.chat_id)))
    }

    /// What decoding the pairs of this request's object gives.
    pub open spec fn decode_fields_spec(p: Seq<(Key, JsonValue)>) -> Result<GetChat, DecodeError> {
        match get_i64_spec(p, Key::ChatId) {
            Err(e) => Err(e),
            Ok(chat_id) => {
            Ok(GetChat { chat_id })
            },
        }
    }

    /// What decoding this request's wire value gives.
    pub open spec fn from_json_spec(v: JsonValue) -> Result<GetChat, DecodeError> {
        match v {
            JsonValue::Object(p) => Self::decode_fields_spec(p@),
            _ => Err(DecodeError::NotObject),
        }
    }

    /// Encodes this request; decoding the result gives the request
    /// back.
    pub fn to_json(&self) -> (r: JsonValue)
        ensures
            r matches JsonValue::Object(pairs) && pairs@ == self.fields_spec(),
            Self::from_json_spec(r) == Ok::<GetChat, DecodeError>(*self),
    {
        let mut pairs: Vec<(Key, JsonValue)> = Vec::new();
        pairs.push((Key::ChatId, JsonValue::Int(self.chat_id)));
        proof {
            broadcast use lemma_lookup_push, lemma_lookup_opt_push, lemma_lookup_empty;

            assert(pairs@ == self.fields_spec());
            assert(get_i64_spec(pairs@, Key::ChatId) == Ok::<i64, DecodeError>(
                self.chat_id,
            ));
            assert(Self::decode_fields_spec(pairs@) == Ok::<GetChat, DecodeError>(*self));
        }
        JsonValue::Object(pairs)
    }

    /// Decodes this request's wire value.
    pub fn from_json(v: &JsonValue) -> (r: Result<GetChat, DecodeError>)
        ensures
            r == Self::from_json_spec(*v),
    {
        match v {
            JsonValue::Object(pairs) => {
                let chat_id = match get_i64(pairs, Key::ChatId) {
                    Ok(x) => x,
                    Err(e) => return Err(e),
                };
                Ok(GetChat { chat_id })
            },
            _ => Err(DecodeError::NotObject),
        }
    }
}

/// Parameters of the call that lists a chat's administrators.
#[derive(Clone, Debug, PartialEq)]
pub struct GetChatAdministrators {
    /// Unique identifier for the target chat
    pub chat_id: i64,
}

impl GetChatAdministrators {
    /// The pairs this request encodes to, in order: one per set
    /// field, and none for an unset optional field.
    pub open spec fn fields_spec(self) -> Seq<(Key, JsonValue)> {
        Seq::empty().push((Key::ChatId, JsonValue::Int(self.chat_id)))
    }

    /// What decoding the pairs of this request's object gives.
    pub open spec fn decode_fields_spec(p: Seq<(Key, JsonValue)>) -> Result<GetChatAdministrators, DecodeError> {
        match get_i64_spec(p, Key::ChatId) {
            Err(e) => Err(e),
            Ok(chat_id) => {
            Ok(GetChatAdministrators { chat_id })
            },
        }
    }

    /// What decoding this request's wire value gives.
    pub open spec fn from_json_spec(v: JsonValue) -> Result<GetChatAdministrators, DecodeError> {
        match v {
            JsonValue::Object(p) => Self::decode_fields_spec(p@),
            _ => Err(DecodeError::NotObject),
        }
    }

    /// Encodes this request; decoding the result gives the request
    /// back.
    pub fn to_json(&self) -> (r: JsonValue)
        ensures
            r matches JsonValue::Object(pairs) && pairs@ == self.fields_spec(),
            Self::from_json_spec(r) == Ok::<GetChatAdministrators, DecodeError>(*self),
    {
        let mut pairs: Vec<(Key, JsonValue)> = Vec::new();
        pairs.push((Key::ChatId, JsonValue::Int(self.chat_id)));
        proof {
            broadcast use lemma_lookup_push, lemma_lookup_opt_push, lemma_lookup_empty;

            assert(pairs@ == self.fields_spec());
            assert(get_i64_spec(pairs@, Key::ChatId) == Ok::<i64, DecodeError>(
                self.chat_id,
            ));
            assert(Self::decode_fields_spec(pairs@) == Ok::<GetChatAdministrators, DecodeError>(*self));
        }
        JsonValue::Object(pairs)
    }

    /// Decodes this request's wire value.
    pub fn from_json(v: &JsonValue) -> (r: Result<GetChatAdministrators, DecodeError>)
        ensures
            r == Self::from_json_spec(*v),
    {
        match v {
            JsonValue::Object(pairs) => {
                let chat_id = match get_i64(pairs, Key::ChatId) {
                    Ok(x) => x,
                    Err(e) => return Err(e),
                };
                Ok(GetChatAdministrators { chat_id })
            },
            _ => Err(DecodeError::NotObject),
        }
    }
}

/// Parameters of the call that counts a chat's members.
#[derive(Clone, Debug, PartialEq)]
pub struct GetChatMembersCount {
    /// Unique identifier for the target chat
    pub chat_id: i64,
}

impl GetChatMembersCount {
    /// The pairs this request encodes to, in order: one per set
    /// field, and none for an unset optional field.
    pub open spec fn fields_spec(self) -> Seq<(Key, JsonValue)> {
        Seq::empty().push((Key::ChatId, JsonValue::Int(self.chat_id)))
    }

    /// What decoding the pairs of this request's object gives.
    pub open spec fn decode_fields_spec(p: Seq<(Key, JsonValue)>) -> Result<GetChatMembersCount, DecodeError> {
        match get_i64_spec(p, Key::ChatId) {
            Err(e) => Err(e),
            Ok(chat_id) => {
            Ok(GetChatMembersCount { chat_id })
            },
        }
    }

    /// What decoding this request's wire value gives.
    pub open spec fn from_json_spec(v: JsonValue) -> Result<GetChatMembersCount, DecodeError> {
        match v {
            JsonValue::Object(p) => Self::decode_fields_spec(p@),
            _ => Err(DecodeError::NotObject),
        }
    }

    /// Encodes this request; decoding the result gives the request
    /// back.
    pub fn to_json(&self) -> (r: JsonValue)
        ensures
            r matches JsonValue::Object(pairs) && pairs@ == self.fields_spec(),
            Self::from_json_spec(r) == Ok::<GetChatMembersCount, DecodeError>(*self),
    {
        let mut pairs: Vec<(Key, JsonValue)> = Vec::new();
        pairs.push((Key::ChatId, JsonValue::Int(self.chat_id)));
        proof {
            broadcast use lemma_lookup_push, lemma_lookup_opt_push, lemma_lookup_empty;

            assert(pairs@ == self.fields_spec());
            assert(get_i64_spec(pairs@, Key::ChatId) == Ok::<i64, DecodeError>(
                self.chat_id,
            ));
            assert(Self::decode_fields_spec(pairs@) == Ok::<GetChatMembersCount, DecodeError>(*self));
        }
        JsonValue::Object(pairs)
    }

    /// Decodes this request's wire value.
    pub fn from_json(v: &JsonValue) -> (r: Result<GetChatMembersCount, DecodeError>)
        ensures
            r == Self::from_json_spec(*v),
    {
        match v {
            JsonValue::Object(pairs) => {
                let chat_id = match get_i64(pairs, Key::ChatId) {
                    Ok(x) => x,
                    Err(e) => return Err(e),
                };
                Ok(GetChatMembersCount { chat_id })
            },
            _ => Err(DecodeError::NotObject),
        }
    }
}

/// Parameters of the call that fetches one chat member.
#[derive(Clone, Debug, PartialEq)]
pub struct GetChatMember {
    /// Unique identifier for the target chat
    pub chat_id: i64,
    /// Unique identifier of the target user
    pub user_id: i64,
}

impl GetChatMember {
    /// The pairs this request encodes to, in order: one per set
    /// field, and none for an unset optional field.
    pub open spec fn fields_spec(self) -> Seq<(Key, JsonValue)> {
        Seq::empty().push((Key::ChatId, JsonValue::Int(self.chat_id))).push((Key::UserId, JsonValue::Int(self.user_id)))
    }

    /// What decoding the pairs of this request's object gives.
    pub open spec fn decode_fields_spec(p: Seq<(Key, JsonValue)>) -> Result<GetChatMember, DecodeError> {
        match get_i64_spec(p, Key::ChatId) {
            Err(e) => Err(e),
            Ok(chat_id) => {
            match get_i64_spec(p, Key::UserId) {
                Err(e) => Err(e),
                Ok(user_id) => {
                Ok(GetChatMember { chat_id, user_id })
                },
            }
            },
        }
    }

    /// What decoding this request's wire value gives.
    pub open spec fn from_json_spec(v: JsonValue) -> Result<GetChatMember, DecodeError> {
        match v {
            JsonValue::Object(p) => Self::decode_fields_spec(p@),
            _ => Err(DecodeError::NotObject),
        }
    }

    /// Encodes this request; decoding the result gives the request
    /// back.
    pub fn to_json(&self) -> (r: JsonValue)
        ensures
            r matches JsonValue::Object(pairs) && pairs@ == self.fields_spec(),
            Self::from_json_spec(r) == Ok::<GetChatMember, DecodeError>(*self),
    {
        let mut pairs: Vec<(Key, JsonValue)> = Vec::new();
        pairs.push((Key::ChatId, JsonValue::Int(self.chat_id)));
        pairs.push((Key::UserId, JsonValue::Int(self.user_id)));
        proof {
            broadcast use lemma_lookup_push, lemma_lookup_opt_push, lemma_lookup_empty;

            assert(pairs@ == self.fields_spec());
            assert(get_i64_spec(pairs@, Key::ChatId) == Ok::<i64, DecodeError>(
                self.chat_id,
            ));
            assert(get_i64_spec(pairs@, Key::UserId) == Ok::<i64, DecodeError>(
                self.user_id,
            ));
            assert(Self::decode_fields_spec(pairs@) == Ok::<GetChatMember, DecodeError>(*self));
        }
        JsonValue::Object(pairs)
    }

    /// Decodes this request's wire value.
    pub fn from_json(v: &JsonValue) -> (r: Result<GetChatMember, DecodeError>)
        ensures
            r == Self::from_json_spec(*v),
    {
        match v {
            JsonValue::Object(pairs) => {
                let chat_id = match get_i64(pairs, Key::ChatId) {
                    Ok(x) => x,
                    Err(e) => return Err(e),
                };
                let user_id = match get_i64(pairs, Key::UserId) {
                    Ok(x) => x,
                    Err(e) => return Err(e),
                };
                Ok(GetChatMember { chat_id, user_id })
            },
            _ => Err(DecodeError::NotObject),
        }
    }
}

/// Parameters of the call that sets a group's sticker set.
#[derive(Clone, Debug, PartialEq)]
pub struct SetChatStickerSet {
    /// Unique identifier for the target chat
    pub chat_id: i64,
    /// Name of the sticker set to be set as the group sticker set
    pub sticker_set_name: String,
}

impl SetChatStickerSet {
    /// The pairs this request encodes to, in order: one per set
    /// field, and none for an unset optional field.
    pub open spec fn fields_spec(self) -> Seq<(Key, JsonValue)> {
        Seq::empty().push((Key::ChatId, JsonValue::Int(self.chat_id))).push((Key::StickerSetName, JsonValue::Str(self.sticker_set_name)))
    }

    /// What decoding the pairs of this request's object gives.
    pub open spec fn decode_fields_spec(p: Seq<(Key, JsonValue)>) -> Result<SetChatStickerSet, DecodeError> {
        match get_i64_spec(p, Key::ChatId) {
            Err(e) => Err(e),
            Ok(chat_id) => {
            match get_string_spec(p, Key::StickerSetName) {
                Err(e) => Err(e),
                Ok(sticker_set_name) => {
                Ok(SetChatStickerSet { chat_id, sticker_set_name })
                },
            }
            },
        }
    }

    /// What decoding this request's wire value gives.
    pub open spec fn from_json_spec(v: JsonValue) -> Result<SetChatStickerSet, DecodeError> {
        match v {
            JsonValue::Object(p) => Self::decode_fields_spec(p@),
            _ => Err(DecodeError::NotObject),
        }
    }

    /// Encodes this request; decoding the result gives the request
    /// back.
    pub fn to_json(&self) -> (r: JsonValue)
        ensures
            r matches JsonValue::Object(pairs) && pairs@ == self.fields_spec(),
            Self::from_json_spec(r) == Ok::<SetChatStickerSet, DecodeError>(*self),
    {
        let mut pairs: Vec<(Key, JsonValue)> = Vec::new();
        pairs.push((Key::ChatId, JsonValue::Int(self.chat_id)));
        pairs.push((Key::StickerSetName, JsonValue::Str(self.sticker_set_name.clone())));
        proof {
            broadcast use lemma_lookup_push, lemma_lookup_opt_push, lemma_lookup_empty;

            assert(pairs@ == self.fields_spec());
            assert(get_i64_spec(pairs@, Key::ChatId) == Ok::<i64, DecodeError>(
                self.chat_id,
            ));
            assert(get_string_spec(pairs@, Key::StickerSetName) == Ok::<String, DecodeError>(
                self.sticker_set_name,
            ));
            assert(Self::decode_fields_spec(pairs@) == Ok::<SetChatStickerSet, DecodeError>(*self));
        }
        JsonValue::Object(pairs)
    }

    /// Decodes this request's wire value.
    pub fn from_json(v: &JsonValue) -> (r: Result<SetChatStickerSet, DecodeError>)
        ensures
            r == Self::from_json_spec(*v),
    {
        match v {
            JsonValue::Object(pairs) => {
                let chat_id = match get_i64(pairs, Key::ChatId) {
                    Ok(x) => x,
                    Err(e) => return Err(e),
                };
                let sticker_set_name = match get_string(pairs, Key::StickerSetName) {
                    Ok(x) => x,
                    Err(e) => return Err(e),
                };
                Ok(SetChatStickerSet { chat_id, sticker_set_name })
            },
            _ => Err(DecodeError::NotObject),
        }
    }
}

/// Parameters of the call that deletes a group's sticker set.
#[derive(Clone, Debug, PartialEq)]
pub struct DeleteChatStickerSet {
    /// Unique identifier for the target chat
    pub chat_id: i64,
}

impl DeleteChatStickerSet {
    /// The pairs this request encodes to, in order: one per set
    /// field, and none for an unset optional field.
    pub open spec fn fields_spec(self) -> Seq<(Key, JsonValue)> {
        Seq::empty().push((Key::ChatId, JsonValue::Int(self.chat_id)))
    }

    /// What decoding the pairs of this request's object gives.
    pub open spec fn decode_fields_spec(p: Seq<(Key, JsonValue)>) -> Result<DeleteChatStickerSet, DecodeError> {
        match get_i64_spec(p, Key::ChatId) {
            Err(e) => Err(e),
            Ok(chat_id) => {
            Ok(DeleteChatStickerSet { chat_id })
            },
        }
    }

    /// What decoding this request's wire value gives.
    pub open spec fn from_json_spec(v: JsonValue) -> Result<DeleteChatStickerSet, DecodeError> {
        match v {
            JsonValue::Object(p) => Self::decode_fields_spec(p@),
            _ => Err(DecodeError::NotObject),
        }
    }

    /// Encodes this request; decoding the result gives the request
    /// back.
    pub fn to_json(&self) -> (r: JsonValue)
        ensures
            r matches JsonValue::Object(pairs) && pairs@ == self.fields_spec(),
            Self::from_json_spec(r) == Ok::<DeleteChatStickerSet, DecodeError>(*self),
    {
        let mut pairs: Vec<(Key, JsonValue)> = Vec::new();
        pairs.push((Key::ChatId, JsonValue::Int(self.chat_id)));
        proof {
            broadcast use lemma_lookup_push, lemma_lookup_opt_push, lemma_lookup_empty;

            assert(pairs@ == self.fields_spec());
            assert(get_i64_spec(pairs@, Key::ChatId) == Ok::<i64, DecodeError>(
                self.chat_id,
            ));
            assert(Self::decode_fields_spec(pairs@) == Ok::<DeleteChatStickerSet, DecodeError>(*self));
        }
        JsonValue::Object(pairs)
    }

    /// Decodes this request's wire value.
    pub fn from_json(v: &JsonValue) -> (r: Result<DeleteChatStickerSet, DecodeError>)
        ensures
            r == Self::from_json_spec(*v),
    {
        match v {
            JsonValue::Object(pairs) => {
                let chat_id = match get_i64(pairs, Key::ChatId) {
                    Ok(x) => x,
                    Err(e) => return Err(e),
                };
                Ok(DeleteChatStickerSet { chat_id })
            },
            _ => Err(DecodeError::NotObject),
        }
    }
}

/// Parameters of the call that creates an additional invite link.
#[derive(Clone, Debug, PartialEq)]
pub struct CreateChatInviteLink {
    /// Unique identifier for the target chat
    pub chat_id: i64,
    /// Point in time (unix timestamp) when the link will expire
    pub expire_date: Option<i64>,
    /// Maximum number of users that can be chat members simultaneously
    /// after joining through this invite link; 1-99999
    pub member_limit: Option<i32>,
}

impl CreateChatInviteLink {
    /// The pairs this request encodes to, in order: one per set
    /// field, and none for an unset optional field.
    pub open spec fn fields_spec(self) -> Seq<(Key, JsonValue)> {
        opt_push(opt_push(Seq::empty().push((Key::ChatId, JsonValue::Int(self.chat_id))), Key::ExpireDate, opt_int(self.expire_date)), Key::MemberLimit, opt_i32(self.member_limit))
    }

    /// What decoding the pairs of this request's object gives.
    pub open spec fn decode_fields_spec(p: Seq<(Key, JsonValue)>) -> Result<CreateChatInviteLink, DecodeError> {
        match get_i64_spec(p, Key::ChatId) {
            Err(e) => Err(e),
            Ok(chat_id) => {
            match get_opt_i64_spec(p, Key::ExpireDate) {
                Err(e) => Err(e),
                Ok(expire_date) => {
                match get_opt_i32_spec(p, Key::MemberLimit) {
                    Err(e) => Err(e),
                    Ok(member_limit) => {
                    Ok(CreateChatInviteLink { chat_id, expire_date, member_limit })
                    },
                }
                },
            }
            },
        }
    }

    /// What decoding this request's wire value gives.
    pub open spec fn from_json_spec(v: JsonValue) -> Result<CreateChatInviteLink, DecodeError> {
        match v {
            JsonValue::Object(p) => Self::decode_fields_spec(p@),
            _ => Err(DecodeError::NotObject),
        }
    }

    /// Encodes this request; decoding the result gives the request
    /// back, and an unset optional field leaves no key in the
    /// output.
    pub fn to_json(&self) -> (r: JsonValue)
        ensures
            r matches JsonValue::Object(pairs) && pairs@ == self.fields_spec(),
            Self::from_json_spec(r) == Ok::<CreateChatInviteLink, DecodeError>(*self),
            r matches JsonValue::Object(pairs) && (lookup(pairs@, Key::ExpireDate) is Some
                <==> self.expire_date is Some),
            r matches JsonValue::Object(pairs) && (lookup(pairs@, Key::MemberLimit) is Some
                <==> self.member_limit is Some),
    {
        let mut pairs: Vec<(Key, JsonValue)> = Vec::new();
        pairs.push((Key::ChatId, JsonValue::Int(self.chat_id)));
        push_opt_int(&mut pairs, Key::ExpireDate, self.expire_date);
        push_opt_i32(&mut pairs, Key::MemberLimit, self.member_limit);
        proof {
            broadcast use lemma_lookup_push, lemma_lookup_opt_push, lemma_lookup_empty;

            assert(pairs@ == self.fields_spec());
            assert(get_i64_spec(pairs@, Key::ChatId) == Ok::<i64, DecodeError>(
                self.chat_id,
            ));
            assert(get_opt_i64_spec(pairs@, Key::ExpireDate) == Ok::<Option<i64>, DecodeError>(
                self.expire_date,
            ));
            assert(get_opt_i32_spec(pairs@, Key::MemberLimit) == Ok::<Option<i32>, DecodeError>(
                self.member_limit,
            ));
            assert(lookup(pairs@, Key::ExpireDate) is Some <==> self.expire_date is Some);
            assert(lookup(pairs@, Key::MemberLimit) is Some <==> self.member_limit is Some);
            assert(Self::decode_fields_spec(pairs@) == Ok::<CreateChatInviteLink, DecodeError>(*self));
        }
        JsonValue::Object(pairs)
    }

    /// Decodes this request's wire value.
    pub fn from_json(v: &JsonValue) -> (r: Result<CreateChatInviteLink, DecodeError>)
        ensures
            r == Self::from_json_spec(*v),
    {
        match v {
            JsonValue::Object(pairs) => {
                let chat_id = match get_i64(pairs, Key::ChatId) {
                    Ok(x) => x,
                    Err(e) => return Err(e),
                };
                let expire_date = match get_opt_i64(pairs, Key::ExpireDate) {
                    Ok(x) => x,
                    Err(e) => return Err(e),
                };
                let member_limit = match get_opt_i32(pairs, Key::MemberLimit) {
                    Ok(x) => x,
                    Err(e) => return Err(e),
                };
                Ok(CreateChatInviteLink { chat_id, expire_date, member_limit })
            },
            _ => Err(DecodeError::NotObject),
        }
    }
}

/// Parameters of the call that edits an invite link.
#[derive(Clone, Debug, PartialEq)]
pub struct EditChatInviteLink {
    /// Unique identifier for the target chat
    pub chat_id: i64,
    /// The invite link to edit
    pub invite_link: String,
    /// Point in time (unix timestamp) when the link will expire
    pub expire_date: Option<i64>,
    /// Maximum number of users that can be chat members simultaneously
    /// after joining through this invite link; 1-99999
    pub member_limit: Option<i32>,
}

impl EditChatInviteLink {
    /// The pairs this request encodes to, in order: one per set
    /// field, and none for an unset optional field.
    pub open spec fn fields_spec(self) -> Seq<(Key, JsonValue)> {
        opt_push(opt_push(Seq::empty().push((Key::ChatId, JsonValue::Int(self.chat_id))).push((Key::InviteLink, JsonValue::Str(self.invite_link))), Key::ExpireDate, opt_int(self.expire_date)), Key::MemberLimit, opt_i32(self.member_limit))
    }

    /// What decoding the pairs of this request's object gives.
    pub open spec fn decode_fields_spec(p: Seq<(Key, JsonValue)>) -> Result<EditChatInviteLink, DecodeError> {
        match get_i64_spec(p, Key::ChatId) {
            Err(e) => Err(e),
            Ok(chat_id) => {
            match get_string_spec(p, Key::InviteLink) {
                Err(e) => Err(e),
                Ok(invite_link) => {
                match get_opt_i64_spec(p, Key::ExpireDate) {
                    Err(e) => Err(e),
                    Ok(expire_date) => {
                    match get_opt_i32_spec(p, Key::MemberLimit) {
                        Err(e) => Err(e),
                        Ok(member_limit) => {
                        Ok(EditChatInviteLink { chat_id, invite_link, expire_date, member_limit })
                        },
                    }
                    },
                }
                },
            }
            },
        }
    }

    /// What decoding this request's wire value gives.
    pub open spec fn from_json_spec(v: JsonValue) -> Result<EditChatInviteLink, DecodeError> {
        match v {
            JsonValue::Object(p) => Self::decode_fields_spec(p@),
            _ => Err(DecodeError::NotObject),
        }
    }

    /// Encodes this request; decoding the result gives the request
    /// back, and an unset optional field leaves no key in the
    /// output.
    pub fn to_json(&self) -> (r: JsonValue)
        ensures
            r matches JsonValue::Object(pairs) && pairs@ == self.fields_spec(),
            Self::from_json_spec(r) == Ok::<EditChatInviteLink, DecodeError>(*self),
            r matches JsonValue::Object(pairs) && (lookup(pairs@, Key::ExpireDate) is Some
                <==> self.expire_date is Some),
            r matches JsonValue::Object(pairs) && (lookup(pairs@, Key::MemberLimit) is Some
                <==> self.member_limit is Some),
    {
        let mut pairs: Vec<(Key, JsonValue)> = Vec::new();
        pairs.push((Key::ChatId, JsonValue::Int(self.chat_id)));
        pairs.push((Key::InviteLink, JsonValue::Str(self.invite_link.clone())));
        push_opt_int(&mut pairs, Key::ExpireDate, self.expire_date);
        push_opt_i32(&mut pairs, Key::MemberLimit, self.member_limit);
        proof {
            broadcast use lemma_lookup_push, lemma_lookup_opt_push, lemma_lookup_empty;

            assert(pairs@ == self.fields_spec());
            assert(get_i64_spec(pairs@, Key::ChatId) == Ok::<i64, DecodeError>(
                self.chat_id,
            ));
            assert(get_string_spec(pairs@, Key::InviteLink) == Ok::<String, DecodeError>(
                self.invite_link,
            ));
            assert(get_opt_i64_spec(pairs@, Key::ExpireDate) == Ok::<Option<i64>, DecodeError>(
                self.expire_date,
            ));
            assert(get_opt_i32_spec(pairs@, Key::MemberLimit) == Ok::<Option<i32>, DecodeError>(
                self.member_limit,
            ));
            assert(lookup(pairs@, Key::ExpireDate) is Some <==> self.expire_date is Some);
            assert(lookup(pairs@, Key::MemberLimit) is Some <==> self.member_limit is Some);
            assert(Self::decode_fields_spec(pairs@) == Ok::<EditChatInviteLink, DecodeError>(*self));
        }
        JsonValue::Object(pairs)
    }

    /// Decodes this request's wire value.
    pub fn from_json(v: &JsonValue) -> (r: Result<EditChatInviteLink, DecodeError>)
        ensures
            r == Self::from_json_spec(*v),
    {
        match v {
            JsonValue::Object(pairs) => {
                let chat_id = match get_i64(pairs, Key::ChatId) {
                    Ok(x) => x,
                    Err(e) => return Err(e),
                };
                let invite_link = match get_string(pairs, Key::InviteLink) {
                    Ok(x) => x,
                    Err(e) => return Err(e),
                };
                let expire_date = match get_opt_i64(pairs, Key::ExpireDate) {
                    Ok(x) => x,
                    Err(e) => return Err(e),
                };
                let member_limit = match get_opt_i32(pairs, Key::MemberLimit) {
                    Ok(x) => x,
                    Err(e) => return Err(e),
                };
                Ok(EditChatInviteLink { chat_id, invite_link, expire_date, member_limit })
            },
            _ => Err(DecodeError::NotObject),
        }
    }
}

/// Parameters of the call that revokes an invite link.
#[derive(Clone, Debug, PartialEq)]
pub struct RevokeChatInviteLink {
    /// Unique identifier for the target chat
    pub chat_id: i64,
    /// The invite link to revoke
    pub invite_link: String,
}

impl RevokeChatInviteLink {
    /// The pairs this request encodes to, in order: one per set
    /// field, and none for an unset optional field.
    pub open spec fn fields_spec(self) -> Seq<(Key, JsonValue)> {
        Seq::empty().push((Key::ChatId, JsonValue::Int(self.chat_id))).push((Key::InviteLink, JsonValue::Str(self.invite_link)))
    }

    /// What decoding the pairs of this request's object gives.
    pub open spec fn decode_fields_spec(p: Seq<(Key, JsonValue)>) -> Result<RevokeChatInviteLink, DecodeError> {
        match get_i64_spec(p, Key::ChatId) {
            Err(e) => Err(e),
            Ok(chat_id) => {
            match get_string_spec(p, Key::InviteLink) {
                Err(e) => Err(e),
                Ok(invite_link) => {
                Ok(RevokeChatInviteLink { chat_id, invite_link })
                },
            }
            },
        }
    }

    /// What decoding this request's wire value gives.
    pub open spec fn from_json_spec(v: JsonValue) -> Result<RevokeChatInviteLink, DecodeError> {
        match v {
            JsonValue::Object(p) => Self::decode_fields_spec(p@),
            _ => Err(DecodeError::NotObject),
        }
    }

    /// Encodes this request; decoding the result gives the request
    /// back.
    pub fn to_json(&self) -> (r: JsonValue)
        ensures
            r matches JsonValue::Object(pairs) && pairs@ == self.fields_spec(),
            Self::from_json_spec(r) == Ok::<RevokeChatInviteLink, DecodeError>(*self),
    {
        let mut pairs: Vec<(Key, JsonValue)> = Vec::new();
        pairs.push((Key::ChatId, JsonValue::Int(self.chat_id)));
        pairs.push((Key::InviteLink, JsonValue::Str(self.invite_link.clone())));
        proof {
            broadcast use lemma_lookup_push, lemma_lookup_opt_push, lemma_lookup_empty;

            assert(pairs@ == self.fields_spec());
            assert(get_i64_spec(pairs@, Key::ChatId) == Ok::<i64, DecodeError>(
                self.chat_id,
            ));
            assert(get_string_spec(pairs@, Key::InviteLink) == Ok::<String, DecodeError>(
                self.invite_link,
            ));
            assert(Self::decode_fields_spec(pairs@) == Ok::<RevokeChatInviteLink, DecodeError>(*self));
        }
        JsonValue::Object(pairs)
    }

    /// Decodes this request's wire value.
    pub fn from_json(v: &JsonValue) -> (r: Result<RevokeChatInviteLink, DecodeError>)
        ensures
            r == Self::from_json_spec(*v),
    {
        match v {
            JsonValue::Object(pairs) => {
                let chat_id = match get_i64(pairs, Key::ChatId) {
                    Ok(x) => x,
                    Err(e) => return Err(e),
                };
                let invite_link = match get_string(pairs, Key::InviteLink) {
                    Ok(x) => x,
                    Err(e) => return Err(e),
                };
                Ok(RevokeChatInviteLink { chat_id, invite_link })
            },
            _ => Err(DecodeError::NotObject),
        }
    }
}

impl PromoteChatMember {
    /// Creates a promotion request for one user in one chat, with every
    /// permission flag unset.
    pub fn new(chat_id: i64, user_id: i64) -> (r: Self)
        ensures
            r.chat_id == chat_id,
            r.user_id == user_id,
            r.is_anonymous is None,
            r.can_post_messages is None,
            r.can_edit_messages is None,
            r.can_delete_messages is None,
            r.can_restrict_members is None,
            r.can_promote_members is None,
            r.can_change_info is None,
            r.can_invite_users is None,
            r.can_pin_messages is None,
            r.can_manage_voice_chats is None,
            r.can_manage_chat is None,
    {
        Self {
            chat_id,
            user_id,
            is_anonymous: None,
            can_manage_chat: None,
            can_post_messages: None,
            can_edit_messages: None,
            can_delete_messages: None,
            can_restrict_members: None,
            can_promote_members: None,
            can_change_info: None,
            can_invite_users: None,
            can_pin_messages: None,
            can_manage_voice_chats: None,
        }
    }
}

impl From<Chat> for ExportChatInviteLink {
    fn from(chat: Chat) -> Self {
        ExportChatInviteLink { chat_id: chat.get_id() }
    }
}

impl vstd::std_specs::convert::FromSpecImpl<Chat> for ExportChatInviteLink {
    open spec fn obeys_from_spec() -> bool {
        true
    }

    open spec fn from_spec(chat: Chat) -> ExportChatInviteLink {
        (ExportChatInviteLink { chat_id: chat.id_spec() })
    }
}

impl From<Chat> for DeleteChatPhoto {
    fn from(chat: Chat) -> Self {
        DeleteChatPhoto { chat_id: chat.get_id() }
    }
}

impl vstd::std_specs::convert::FromSpecImpl<Chat> for DeleteChatPhoto {
    open spec fn obeys_from_spec() -> bool {
        true
    }

    open spec fn from_spec(chat: Chat) -> DeleteChatPhoto {
        (DeleteChatPhoto { chat_id: chat.id_spec() })
    }
}

impl From<Chat> for UnpinAllChatMessages {
    fn from(chat: Chat) -> Self {
        UnpinAllChatMessages { chat_id: chat.get_id() }
    }
}

impl vstd::std_specs::convert::FromSpecImpl<Chat> for UnpinAllChatMessages {
    open spec fn obeys_from_spec() -> bool {
        true
    }

    open spec fn from_spec(chat: Chat) -> UnpinAllChatMessages {
        (UnpinAllChatMessages { chat_id: chat.id_spec() })
    }
}

impl From<Chat> for LeaveChat {
    fn from(chat: Chat) -> Self {
        LeaveChat { chat_id: chat.get_id() }
    }
}

impl vstd::std_specs::convert::FromSpecImpl<Chat> for LeaveChat {
    open spec fn obeys_from_spec() -> bool {
        true
    }

    open spec fn from_spec(chat: Chat) -> LeaveChat {
        (LeaveChat { chat_id: chat.id_spec() })
    }
}

impl From<Chat> for GetChat {
    fn from(chat: Chat) -> Self {
        GetChat { chat_id: chat.get_id() }
    }
}

impl vstd::std_specs::convert::FromSpecImpl<Chat> for GetChat {
    open spec fn obeys_from_spec() -> bool {
        true
    }

    open spec fn from_spec(chat: Chat) -> GetChat {
        (GetChat { chat_id: chat.id_spec() })
    }
}

impl From<Chat> for GetChatAdministrators {
    fn from(chat: Chat) -> Self {
        GetChatAdministrators { chat_id: chat.get_id() }
    }
}

impl vstd::std_specs::convert::FromSpecImpl<Chat> for GetChatAdministrators {
    open spec fn obeys_from_spec() -> bool {
        true
    }

    open spec fn from_spec(chat: Chat) -> GetChatAdministrators {
        (GetChatAdministrators { chat_id: chat.id_spec() })
    }
}

impl From<Chat> for GetChatMembersCount {
    fn from(chat: Chat) -> Self {
        GetChatMembersCount { chat_id: chat.get_id() }
    }
}

impl vstd::std_specs::convert::FromSpecImpl<Chat> for GetChatMembersCount {
    open spec fn obeys_from_spec() -> bool {
        true
    }

    open spec fn from_spec(chat: Chat) -> GetChatMembersCount {
        (GetChatMembersCount { chat_id: chat.id_spec() })
    }
}

impl From<Chat> for DeleteChatStickerSet {
    fn from(chat: Chat) -> Self {
        DeleteChatStickerSet { chat_id: chat.get_id() }
    }
}

impl vstd::std_specs::convert::FromSpecImpl<Chat> for DeleteChatStickerSet {
    open spec fn obeys_from_spec() -> bool {
        true
    }

    open spec fn from_spec(chat: Chat) -> DeleteChatStickerSet {
        (DeleteChatStickerSet { chat_id: chat.id_spec() })
    }
}

/// Converting a chat into a chat-scoped request keeps the chat's
/// identifier and sets nothing else: each such request holds the
/// converted chat's id as its only field.
pub proof fn lemma_chat_conversion_keeps_id(c: Chat)
    ensures
        <ExportChatInviteLink as vstd::std_specs::convert::FromSpec<Chat>>::from_spec(c) == (ExportChatInviteLink {
            chat_id: c.id_spec(),
        }),
        <DeleteChatPhoto as vstd::std_specs::convert::FromSpec<Chat>>::from_spec(c) == (DeleteChatPhoto {
            chat_id: c.id_spec(),
        }),
        <UnpinAllChatMessages as vstd::std_specs::convert::FromSpec<Chat>>::from_spec(c) == (UnpinAllChatMessages {
            chat_id: c.id_spec(),
        }),
        <LeaveChat as vstd::std_specs::convert::FromSpec<Chat>>::from_spec(c) == (LeaveChat {
            chat_id: c.id_spec(),
        }),
        <GetChat as vstd::std_specs::convert::FromSpec<Chat>>::from_spec(c) == (GetChat {
            chat_id: c.id_spec(),
        }),
        <GetChatAdministrators as vstd::std_specs::convert::FromSpec<Chat>>::from_spec(c) == (GetChatAdministrators {
            chat_id: c.id_spec(),
        }),
        <GetChatMembersCount as vstd::std_specs::convert::FromSpec<Chat>>::from_spec(c) == (GetChatMembersCount {
            chat_id: c.id_spec(),
        }),
        <DeleteChatStickerSet as vstd::std_specs::convert::FromSpec<Chat>>::from_spec(c) == (DeleteChatStickerSet {
            chat_id: c.id_spec(),
        }),
{
}

} // verus!
