//! A chat member: a user paired with a membership status.
//!
//! The status is a tagged variant: the wire object carries the member's
//! `user`, a `status` tag from a closed set, and the fields that
//! status' shape calls for.  A tag outside the closed set is rejected
//! as [`DecodeError::UnknownTag`].

use vstd::prelude::*;
use crate::json::{
    get_i64, get_i64_spec, get_opt_bool, get_opt_bool_spec, get_opt_string, get_opt_string_spec,
    get_string, get_string_spec, push_opt_bool, push_opt_str, str_eq, DecodeError, JsonValue,
    Key,
};
use crate::json::{lemma_lookup_empty, lemma_lookup_opt_push, lemma_lookup_push};
use crate::user::{get_user, get_user_spec, User};

verus! {

/// The membership status of a user in a chat, with the fields that
/// belong to that status.
#[derive(Clone, Debug, PartialEq)]
pub enum MemberStatus {
    /// The owner of the chat
    Creator {
        /// Custom title shown for the owner
        custom_title: Option<String>,
    },
    /// An administrator of the chat
    Administrator {
        /// Custom title shown for the administrator
        custom_title: Option<String>,
        /// If the administrator can change chat settings
        can_change_info: Option<bool>,
        /// If the administrator can delete messages of other users
        can_delete_messages: Option<bool>,
        /// If the administrator can restrict, ban or unban chat members
        can_restrict_members: Option<bool>,
        /// If the administrator can add or demote administrators
        can_promote_members: Option<bool>,
    },
    /// An ordinary member
    Member,
    /// A member under restrictions
    Restricted {
        /// Date when the restrictions end, unix time
        until_date: i64,
        /// If the member can send text messages
        can_send_messages: Option<bool>,
    },
    /// A user that left the chat
    Left,
    /// A user banned from the chat
    Kicked {
        /// Date when the ban ends, unix time
        until_date: i64,
    },
}

impl MemberStatus {
    /// The wire spelling of this status' tag.
    pub open spec fn tag_spec(self) -> Seq<char> {
        match self {
            MemberStatus::Creator { .. } => "creator"@,
            MemberStatus::Administrator { .. } => "administrator"@,
            MemberStatus::Member => "member"@,
            MemberStatus::Restricted { .. } => "restricted"@,
            MemberStatus::Left => "left"@,
            MemberStatus::Kicked { .. } => "kicked"@,
        }
    }
}

/// A user together with their status in one chat.
#[derive(Clone, Debug, PartialEq)]
pub struct ChatMember {
    /// The member
    pub user: User,
    /// The member's status in the chat
    pub status: MemberStatus,
}

impl ChatMember {
    /// What decoding the pairs of a chat member object gives: the
    /// `user`, then the `status` tag, then the fields of that status.
    pub open spec fn decode_fields_spec(p: Seq<(Key, JsonValue)>) -> Result<
        ChatMember,
        DecodeError,
    > {
        match get_user_spec(p, Key::User) {
            Err(e) => Err(e),
            Ok(user) => match get_string_spec(p, Key::Status) {
                Err(e) => Err(e),
                Ok(tag) => if tag@ == "creator"@ {
                    match get_opt_string_spec(p, Key::CustomTitle) {
                        Err(e) => Err(e),
                        Ok(custom_title) => Ok(
                            ChatMember { user, status: MemberStatus::Creator { custom_title } },
                        ),
                    }
                } else if tag@ == "administrator"@ {
                    match get_opt_string_spec(p, Key::CustomTitle) {
                        Err(e) => Err(e),
                        Ok(custom_title) => match get_opt_bool_spec(p, Key::CanChangeInfo) {
                            Err(e) => Err(e),
                            Ok(can_change_info) => match get_opt_bool_spec(
                                p,
                                Key::CanDeleteMessages,
                            ) {
                                Err(e) => Err(e),
                                Ok(can_delete_messages) => match get_opt_bool_spec(
                                    p,
                                    Key::CanRestrictMembers,
                                ) {
                                    Err(e) => Err(e),
                                    Ok(can_restrict_members) => match get_opt_bool_spec(
                                        p,
                                        Key::CanPromoteMembers,
                                    ) {
                                        Err(e) => Err(e),
                                        Ok(can_promote_members) => Ok(
                                            ChatMember {
                                                user,
                                                status: MemberStatus::Administrator {
                                                    custom_title,
                                                    can_change_info,
                                                    can_delete_messages,
                                                    can_restrict_members,
                                                    can_promote_members,
                                                },
                                            },
                                        ),
                                    },
                                },
                            },
                        },
                    }
                } else if tag@ == "member"@ {
                    Ok(ChatMember { user, status: MemberStatus::Member })
                } else if tag@ == "restricted"@ {
                    match get_i64_spec(p, Key::UntilDate) {
                        Err(e) => Err(e),
                        Ok(until_date) => match get_opt_bool_spec(p, Key::CanSendMessages) {
                            Err(e) => Err(e),
                            Ok(can_send_messages) => Ok(
                                ChatMember {
                                    user,
                                    status: MemberStatus::Restricted {
                                        until_date,
                                        can_send_messages,
                                    },
                                },
                            ),
                        },
                    }
                } else if tag@ == "left"@ {
                    Ok(ChatMember { user, status: MemberStatus::Left })
                } else if tag@ == "kicked"@ {
                    match get_i64_spec(p, Key::UntilDate) {
                        Err(e) => Err(e),
                        Ok(until_date) => Ok(
                            ChatMember { user, status: MemberStatus::Kicked { until_date } },
                        ),
                    }
                } else {
                    Err(DecodeError::UnknownTag(tag))
                },
            },
        }
    }

    /// What decoding a chat member value gives.
    pub open spec fn from_json_spec(v: JsonValue) -> Result<ChatMember, DecodeError> {
        match v {
            JsonValue::Object(p) => Self::decode_fields_spec(p@),
            _ => Err(DecodeError::NotObject),
        }
    }

    /// Encodes this member with its status tag; decoding the result
    /// gives the member back, and an unset optional field leaves no
    /// key in the output.
    pub fn to_json(&self) -> (r: JsonValue)
        ensures
            Self::from_json_spec(r) == Ok::<ChatMember, DecodeError>(*self),
    {
        let mut pairs: Vec<(Key, JsonValue)> = Vec::new();
        pairs.push((Key::User, self.user.to_json()));
        match &self.status {
            MemberStatus::Creator { custom_title } => {
                pairs.push((Key::Status, JsonValue::Str("creator".to_owned())));
                push_opt_str(&mut pairs, Key::CustomTitle, custom_title);
                proof {
                    broadcast use lemma_lookup_push, lemma_lookup_opt_push, lemma_lookup_empty;

                    assert(Self::decode_fields_spec(pairs@) == Ok::<ChatMember, DecodeError>(
                        *self,
                    ));
                }
            },
            MemberStatus::Administrator {
                custom_title,
                can_change_info,
                can_delete_messages,
                can_restrict_members,
                can_promote_members,
            } => {
                pairs.push((Key::Status, JsonValue::Str("administrator".to_owned())));
                push_opt_str(&mut pairs, Key::CustomTitle, custom_title);
                push_opt_bool(&mut pairs, Key::CanChangeInfo, *can_change_info);
                push_opt_bool(&mut pairs, Key::CanDeleteMessages, *can_delete_messages);
                push_opt_bool(&mut pairs, Key::CanRestrictMembers, *can_restrict_members);
                push_opt_bool(&mut pairs, Key::CanPromoteMembers, *can_promote_members);
                proof {
                    broadcast use lemma_lookup_push, lemma_lookup_opt_push, lemma_lookup_empty;

                    reveal_strlit("administrator");
                    reveal_strlit("creator");
                    assert("administrator"@.len() != "creator"@.len());
                    assert(Self::decode_fields_spec(pairs@) == Ok::<ChatMember, DecodeError>(
                        *self,
                    ));
                }
            },
            MemberStatus::Member => {
                pairs.push((Key::Status, JsonValue::Str("member".to_owned())));
                proof {
                    broadcast use lemma_lookup_push, lemma_lookup_opt_push, lemma_lookup_empty;

                    reveal_strlit("member");
                    reveal_strlit("creator");
                    reveal_strlit("administrator");
                    assert("member"@.len() != "creator"@.len());
                    assert("member"@.len() != "administrator"@.len());
                    assert(Self::decode_fields_spec(pairs@) == Ok::<ChatMember, DecodeError>(
                        *self,
                    ));
                }
            },
            MemberStatus::Restricted { until_date, can_send_messages } => {
                pairs.push((Key::Status, JsonValue::Str("restricted".to_owned())));
                pairs.push((Key::UntilDate, JsonValue::Int(*until_date)));
                push_opt_bool(&mut pairs, Key::CanSendMessages, *can_send_messages);
                proof {
                    broadcast use lemma_lookup_push, lemma_lookup_opt_push, lemma_lookup_empty;

                    reveal_strlit("restricted");
                    reveal_strlit("creator");
                    reveal_strlit("administrator");
                    reveal_strlit("member");
                    assert("restricted"@.len() != "creator"@.len());
                    assert("restricted"@.len() != "administrator"@.len());
                    assert("restricted"@.len() != "member"@.len());
                    assert(Self::decode_fields_spec(pairs@) == Ok::<ChatMember, DecodeError>(
                        *self,
                    ));
                }
            },
            MemberStatus::Left => {
                pairs.push((Key::Status, JsonValue::Str("left".to_owned())));
                proof {
                    broadcast use lemma_lookup_push, lemma_lookup_opt_push, lemma_lookup_empty;

                    reveal_strlit("left");
                    reveal_strlit("creator");
                    reveal_strlit("administrator");
                    reveal_strlit("member");
                    reveal_strlit("restricted");
                    assert("left"@.len() != "creator"@.len());
                    assert("left"@.len() != "administrator"@.len());
                    assert("left"@.len() != "member"@.len());
                    assert("left"@.len() != "restricted"@.len());
                    assert(Self::decode_fields_spec(pairs@) == Ok::<ChatMember, DecodeError>(
                        *self,
                    ));
                }
            },
            MemberStatus::Kicked { until_date } => {
                pairs.push((Key::Status, JsonValue::Str("kicked".to_owned())));
                pairs.push((Key::UntilDate, JsonValue::Int(*until_date)));
                proof {
                    broadcast use lemma_lookup_push, lemma_lookup_opt_push, lemma_lookup_empty;

                    reveal_strlit("kicked");
                    reveal_strlit("creator");
                    reveal_strlit("administrator");
                    reveal_strlit("member");
                    reveal_strlit("restricted");
                    reveal_strlit("left");
                    assert("kicked"@.len() != "creator"@.len());
                    assert("kicked"@.len() != "administrator"@.len());
                    assert("kicked"@[0] == 'k' && "member"@[0] == 'm');
                    assert("kicked"@ != "member"@);
                    assert("kicked"@.len() != "restricted"@.len());
                    assert("kicked"@.len() != "left"@.len());
                    assert(Self::decode_fields_spec(pairs@) == Ok::<ChatMember, DecodeError>(
                        *self,
                    ));
                }
            },
        }
        JsonValue::Object(pairs)
    }

    /// Decodes a chat member value.
    pub fn from_json(v: &JsonValue) -> (r: Result<ChatMember, DecodeError>)
        ensures
            r == Self::from_json_spec(*v),
    {
        match v {
            JsonValue::Object(pairs) => {
                let user = match get_user(pairs, Key::User) {
                    Ok(x) => x,
                    Err(e) => return Err(e),
                };
                let tag = match get_string(pairs, Key::Status) {
                    Ok(x) => x,
                    Err(e) => return Err(e),
                };
                if str_eq(&tag, "creator") {
                    let custom_title = match get_opt_string(pairs, Key::CustomTitle) {
                        Ok(x) => x,
                        Err(e) => return Err(e),
                    };
                    Ok(ChatMember { user, status: MemberStatus::Creator { custom_title } })
                } else if str_eq(&tag, "administrator") {
                    let custom_title = match get_opt_string(pairs, Key::CustomTitle) {
                        Ok(x) => x,
                        Err(e) => return Err(e),
                    };
                    let can_change_info = match get_opt_bool(pairs, Key::CanChangeInfo) {
                        Ok(x) => x,
                        Err(e) => return Err(e),
                    };
                    let can_delete_messages = match get_opt_bool(pairs, Key::CanDeleteMessages) {
                        Ok(x) => x,
                        Err(e) => return Err(e),
                    };
                    let can_restrict_members = match get_opt_bool(pairs, Key::CanRestrictMembers) {
                        Ok(x) => x,
                        Err(e) => return Err(e),
                    };
                    let can_promote_members = match get_opt_bool(pairs, Key::CanPromoteMembers) {
                        Ok(x) => x,
                        Err(e) => return Err(e),
                    };
                    Ok(
                        ChatMember {
                            user,
                            status: MemberStatus::Administrator {
                                custom_title,
                                can_change_info,
                                can_delete_messages,
                                can_restrict_members,
                                can_promote_members,
                            },
                        },
                    )
                } else if str_eq(&tag, "member") {
                    Ok(ChatMember { user, status: MemberStatus::Member })
                } else if str_eq(&tag, "restricted") {
                    let until_date = match get_i64(pairs, Key::UntilDate) {
                        Ok(x) => x,
                        Err(e) => return Err(e),
                    };
                    let can_send_messages = match get_opt_bool(pairs, Key::CanSendMessages) {
                        Ok(x) => x,
                        Err(e) => return Err(e),
                    };
                    Ok(
                        ChatMember {
                            user,
                            status: MemberStatus::Restricted { until_date, can_send_messages },
                        },
                    )
                } else if str_eq(&tag, "left") {
                    Ok(ChatMember { user, status: MemberStatus::Left })
                } else if str_eq(&tag, "kicked") {
                    let until_date = match get_i64(pairs, Key::UntilDate) {
                        Ok(x) => x,
                        Err(e) => return Err(e),
                    };
                    Ok(ChatMember { user, status: MemberStatus::Kicked { until_date } })
                } else {
                    Err(DecodeError::UnknownTag(tag))
                }
            },
            _ => Err(DecodeError::NotObject),
        }
    }
}

} // verus!
