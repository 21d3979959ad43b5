//! The chat entities: a polymorphic [`Chat`] whose wire form carries a
//! `type` tag selecting one of four shapes, and the [`ChatPermissions`]
//! record both chats and requests embed.
//!
//! An object whose `type` tag lies outside the closed set does not
//! decode: [`Chat`] has no catch-all variant, so an unrecognized tag is
//! reported as [`DecodeError::UnknownTag`].

use vstd::prelude::*;
use crate::json::{
    find, get_i64, get_i64_spec, get_opt_string, get_opt_string_spec, get_string, get_string_spec,
    get_opt_bool, get_opt_bool_spec, lookup, opt_bool, opt_push, push_opt_bool, str_eq,
    DecodeError, JsonValue, Key,
};
use crate::json::{lemma_lookup_empty, lemma_lookup_opt_push, lemma_lookup_push};

verus! {

/// The default or granted member permissions of a chat.  Every flag is
/// optional; an unset flag is omitted from the wire form.
#[derive(Clone, Copy, Debug, PartialEq)]
pub struct ChatPermissions {
    /// If members can send text messages and the like
    pub can_send_messages: Option<bool>,
    /// If members can send media messages; implies `can_send_messages`
    pub can_send_media_messages: Option<bool>,
    /// If members can send polls; implies `can_send_messages`
    pub can_send_polls: Option<bool>,
    /// If members can send animations, games, stickers and use inline
    /// bots; implies `can_send_media_messages`
    pub can_send_other_messages: Option<bool>,
    /// If members may add web page previews to their messages; implies
    /// `can_send_media_messages`
    pub can_add_web_page_previews: Option<bool>,
    /// If members can change the chat title, photo and other settings
    pub can_change_info: Option<bool>,
    /// If members can invite new users to the chat
    pub can_invite_users: Option<bool>,
    /// If members can pin messages
    pub can_pin_messages: Option<bool>,
}

impl ChatPermissions {
    /// The pairs this record encodes to: one per set flag, in this
    /// order, and none for an unset flag.
    pub open spec fn fields_spec(self) -> Seq<(Key, JsonValue)> {
        opt_push(
            opt_push(
                opt_push(
                    opt_push(
                        opt_push(
                            opt_push(
                                opt_push(
                                    opt_push(
                                        Seq::empty(),
                                        Key::CanSendMessages,
                                        opt_bool(self.can_send_messages),
                                    ),
                                    Key::CanSendMediaMessages,
                                    opt_bool(self.can_send_media_messages),
                                ),
                                Key::CanSendPolls,
                                opt_bool(self.can_send_polls),
                            ),
                            Key::CanSendOtherMessages,
                            opt_bool(self.can_send_other_messages),
                        ),
                        Key::CanAddWebPagePreviews,
                        opt_bool(self.can_add_web_page_previews),
                    ),
                    Key::CanChangeInfo,
                    opt_bool(self.can_change_info),
                ),
                Key::CanInviteUsers,
                opt_bool(self.can_invite_users),
            ),
            Key::CanPinMessages,
            opt_bool(self.can_pin_messages),
        )
    }

    /// What decoding the pairs of a permissions object gives.
    pub open spec fn decode_fields_spec(p: Seq<(Key, JsonValue)>) -> Result<
        ChatPermissions,
        DecodeError,
    > {
        match get_opt_bool_spec(p, Key::CanSendMessages) {
            Err(e) => Err(e),
            Ok(can_send_messages) => match get_opt_bool_spec(p, Key::CanSendMediaMessages) {
                Err(e) => Err(e),
                Ok(can_send_media_messages) => match get_opt_bool_spec(p, Key::CanSendPolls) {
                    Err(e) => Err(e),
                    Ok(can_send_polls) => match get_opt_bool_spec(p, Key::CanSendOtherMessages) {
                        Err(e) => Err(e),
                        Ok(can_send_other_messages) => match get_opt_bool_spec(
                            p,
                            Key::CanAddWebPagePreviews,
                        ) {
                            Err(e) => Err(e),
                            Ok(can_add_web_page_previews) => match get_opt_bool_spec(
                                p,
                                Key::CanChangeInfo,
                            ) {
                                Err(e) => Err(e),
                                Ok(can_change_info) => match get_opt_bool_spec(
                                    p,
                                    Key::CanInviteUsers,
                                ) {
                                    Err(e) => Err(e),
                                    Ok(can_invite_users) => match get_opt_bool_spec(
                                        p,
                                        Key::CanPinMessages,
                                    ) {
                                        Err(e) => Err(e),
                                        Ok(can_pin_messages) => Ok(
                                            ChatPermissions {
                                                can_send_messages,
                                                can_send_media_messages,
                                                can_send_polls,
                                                can_send_other_messages,
                                                can_add_web_page_previews,
                                                can_change_info,
                                                can_invite_users,
                                                can_pin_messages,
                                            },
                                        ),
                                    },
                                },
                            },
                        },
                    },
                },
            },
        }
    }

    /// What decoding a permissions value gives.
    pub open spec fn from_json_spec(v: JsonValue) -> Result<ChatPermissions, DecodeError> {
        match v {
            JsonValue::Object(p) => Self::decode_fields_spec(p@),
            _ => Err(DecodeError::NotObject),
        }
    }

    /// Encodes this record; decoding the result gives the record back,
    /// and an unset flag leaves no key in the output.
    #[verifier::rlimit(50)]
    pub fn to_json(&self) -> (r: JsonValue)
        ensures
            r matches JsonValue::Object(pairs) && pairs@ == self.fields_spec(),
            Self::from_json_spec(r) == Ok::<ChatPermissions, DecodeError>(*self),
    {
        let mut pairs: Vec<(Key, JsonValue)> = Vec::new();
        push_opt_bool(&mut pairs, Key::CanSendMessages, self.can_send_messages);
        push_opt_bool(&mut pairs, Key::CanSendMediaMessages, self.can_send_media_messages);
        push_opt_bool(&mut pairs, Key::CanSendPolls, self.can_send_polls);
        push_opt_bool(&mut pairs, Key::CanSendOtherMessages, self.can_send_other_messages);
        push_opt_bool(&mut pairs, Key::CanAddWebPagePreviews, self.can_add_web_page_previews);
        push_opt_bool(&mut pairs, Key::CanChangeInfo, self.can_change_info);
        push_opt_bool(&mut pairs, Key::CanInviteUsers, self.can_invite_users);
        push_opt_bool(&mut pairs, Key::CanPinMessages, self.can_pin_messages);
        proof {
            broadcast use lemma_lookup_push, lemma_lookup_opt_push, lemma_lookup_empty;

            assert(pairs@ == self.fields_spec());
            assert(get_opt_bool_spec(self.fields_spec(), Key::CanSendMessages) == Ok::<
                Option<bool>,
                DecodeError,
            >(self.can_send_messages));
            assert(get_opt_bool_spec(self.fields_spec(), Key::CanSendMediaMessages) == Ok::<
                Option<bool>,
                DecodeError,
            >(self.can_send_media_messages));
            assert(get_opt_bool_spec(self.fields_spec(), Key::CanSendPolls) == Ok::<
                Option<bool>,
                DecodeError,
            >(self.can_send_polls));
            assert(get_opt_bool_spec(self.fields_spec(), Key::CanSendOtherMessages) == Ok::<
                Option<bool>,
                DecodeError,
            >(self.can_send_other_messages));
            assert(get_opt_bool_spec(self.fields_spec(), Key::CanAddWebPagePreviews) == Ok::<
                Option<bool>,
                DecodeError,
            >(self.can_add_web_page_previews));
            assert(get_opt_bool_spec(self.fields_spec(), Key::CanChangeInfo) == Ok::<
                Option<bool>,
                DecodeError,
            >(self.can_change_info));
            assert(get_opt_bool_spec(self.fields_spec(), Key::CanInviteUsers) == Ok::<
                Option<bool>,
                DecodeError,
            >(self.can_invite_users));
            assert(get_opt_bool_spec(self.fields_spec(), Key::CanPinMessages) == Ok::<
                Option<bool>,
                DecodeError,
            >(self.can_pin_messages));
            assert(Self::decode_fields_spec(pairs@) == Ok::<ChatPermissions, DecodeError>(*self));
        }
        JsonValue::Object(pairs)
    }

    /// Decodes a permissions value.
    pub fn from_json(v: &JsonValue) -> (r: Result<ChatPermissions, DecodeError>)
        ensures
            r == Self::from_json_spec(*v),
    {
        match v {
            JsonValue::Object(pairs) => {
                let can_send_messages = match get_opt_bool(pairs, Key::CanSendMessages) {
                    Ok(x) => x,
                    Err(e) => return Err(e),
                };
                let can_send_media_messages = match get_opt_bool(pairs, Key::CanSendMediaMessages) {
                    Ok(x) => x,
                    Err(e) => return Err(e),
                };
                let can_send_polls = match get_opt_bool(pairs, Key::CanSendPolls) {
                    Ok(x) => x,
                    Err(e) => return Err(e),
                };
                let can_send_other_messages = match get_opt_bool(pairs, Key::CanSendOtherMessages) {
                    Ok(x) => x,
                    Err(e) => return Err(e),
                };
                let can_add_web_page_previews = match get_opt_bool(
                    pairs,
                    Key::CanAddWebPagePreviews,
                ) {
                    Ok(x) => x,
                    Err(e) => return Err(e),
                };
                let can_change_info = match get_opt_bool(pairs, Key::CanChangeInfo) {
                    Ok(x) => x,
                    Err(e) => return Err(e),
                };
                let can_invite_users = match get_opt_bool(pairs, Key::CanInviteUsers) {
                    Ok(x) => x,
                    Err(e) => return Err(e),
                };
                let can_pin_messages = match get_opt_bool(pairs, Key::CanPinMessages) {
                    Ok(x) => x,
                    Err(e) => return Err(e),
                };
                Ok(
                    ChatPermissions {
                        can_send_messages,
                        can_send_media_messages,
                        can_send_polls,
                        can_send_other_messages,
                        can_add_web_page_previews,
                        can_change_info,
                        can_invite_users,
                        can_pin_messages,
                    },
                )
            },
            _ => Err(DecodeError::NotObject),
        }
    }
}

/// What reading an optional embedded permissions object gives.
pub open spec fn get_opt_permissions_spec(s: Seq<(Key, JsonValue)>, k: Key) -> Result<
    Option<ChatPermissions>,
    DecodeError,
> {
    match lookup(s, k) {
        None => Ok(None),
        Some(JsonValue::Null) => Ok(None),
        Some(v) => match ChatPermissions::from_json_spec(v) {
            Ok(c) => Ok(Some(c)),
            Err(e) => Err(e),
        },
    }
}

/// Reads an optional embedded permissions object.
pub fn get_opt_permissions(pairs: &Vec<(Key, JsonValue)>, k: Key) -> (r: Result<
    Option<ChatPermissions>,
    DecodeError,
>)
    ensures
        r == get_opt_permissions_spec(pairs@, k),
{
    match find(pairs, &k) {
        None => Ok(None),
        Some(JsonValue::Null) => Ok(None),
        Some(v) => match ChatPermissions::from_json(v) {
            Ok(c) => Ok(Some(c)),
            Err(e) => Err(e),
        },
    }
}

/// What reading a required embedded permissions object gives.
pub open spec fn get_permissions_spec(s: Seq<(Key, JsonValue)>, k: Key) -> Result<
    ChatPermissions,
    DecodeError,
> {
    match lookup(s, k) {
        None => Err(DecodeError::Missing(k)),
        Some(v) => ChatPermissions::from_json_spec(v),
    }
}

/// Reads a required embedded permissions object.
pub fn get_permissions(pairs: &Vec<(Key, JsonValue)>, k: Key) -> (r: Result<
    ChatPermissions,
    DecodeError,
>)
    ensures
        r == get_permissions_spec(pairs@, k),
{
    match find(pairs, &k) {
        None => Err(DecodeError::Missing(k)),
        Some(v) => ChatPermissions::from_json(v),
    }
}

/// The kind of a chat, as the wire `type` tag spells it.
#[derive(Clone, Copy, Debug, PartialEq, Eq, Structural)]
pub enum ChatType {
    Private,
    Group,
    SuperGroup,
    Channel,
}

impl ChatType {
    /// The wire spelling of this kind.
    pub open spec fn tag_spec(self) -> Seq<char> {
        match self {
            ChatType::Private => "private"@,
            ChatType::Group => "group"@,
            ChatType::SuperGroup => "supergroup"@,
            ChatType::Channel => "channel"@,
        }
    }

    /// The kind a wire tag names, if any.
    pub open spec fn of_tag(s: Seq<char>) -> Option<ChatType> {
        if s == "private"@ {
            Some(ChatType::Private)
        } else if s == "group"@ {
            Some(ChatType::Group)
        } else if s == "supergroup"@ {
            Some(ChatType::SuperGroup)
        } else if s == "channel"@ {
            Some(ChatType::Channel)
        } else {
            None
        }
    }

    /// Spells this kind for the wire.
    pub fn tag(&self) -> (r: String)
        ensures
            r@ == self.tag_spec(),
    {
        match self {
            ChatType::Private => "private".to_owned(),
            ChatType::Group => "group".to_owned(),
            ChatType::SuperGroup => "supergroup".to_owned(),
            ChatType::Channel => "channel".to_owned(),
        }
    }

    /// Reads a wire tag back into a kind.
    pub fn parse_tag(s: &String) -> (r: Option<ChatType>)
        ensures
            r == Self::of_tag(s@),
    {
        if str_eq(s, "private") {
            Some(ChatType::Private)
        } else if str_eq(s, "group") {
            Some(ChatType::Group)
        } else if str_eq(s, "supergroup") {
            Some(ChatType::SuperGroup)
        } else if str_eq(s, "channel") {
            Some(ChatType::Channel)
        } else {
            None
        }
    }
}

/// A private conversation with a single user.
#[derive(Clone, Debug, PartialEq)]
pub struct PrivateChat {
    /// Unique identifier of the chat
    pub id: i64,
    /// First name of the other party
    pub first_name: Option<String>,
    /// Last name of the other party
    pub last_name: Option<String>,
    /// Username of the other party
    pub username: Option<String>,
}

/// A basic group chat.
#[derive(Clone, Debug, PartialEq)]
pub struct GroupChat {
    /// Unique identifier of the chat
    pub id: i64,
    /// Title of the group
    pub title: String,
    /// Default member permissions of the group
    pub permissions: Option<ChatPermissions>,
    /// The main invite link of the group
    pub invite_link: Option<String>,
}

/// A supergroup chat.
#[derive(Clone, Debug, PartialEq)]
pub struct SuperGroupChat {
    /// Unique identifier of the chat
    pub id: i64,
    /// Title of the supergroup
    pub title: String,
    /// Username of the supergroup
    pub username: Option<String>,
    /// Default member permissions of the supergroup
    pub permissions: Option<ChatPermissions>,
    /// The main invite link of the supergroup
    pub invite_link: Option<String>,
}

/// A channel.
#[derive(Clone, Debug, PartialEq)]
pub struct ChannelChat {
    /// Unique identifier of the chat
    pub id: i64,
    /// Title of the channel
    pub title: String,
    /// Username of the channel
    pub username: Option<String>,
    /// The main invite link of the channel
    pub invite_link: Option<String>,
}

/// A chat: one of four shapes, told apart on the wire by the `type`
/// tag.
#[derive(Clone, Debug, PartialEq)]
pub enum Chat {
    Private(PrivateChat),
    Group(GroupChat),
    SuperGroup(SuperGroupChat),
    Channel(ChannelChat),
}

impl Chat {
    /// The stable identifier of this chat, whatever its shape.
    pub open spec fn id_spec(self) -> i64 {
        match self {
            Chat::Private(c) => c.id,
            Chat::Group(c) => c.id,
            Chat::SuperGroup(c) => c.id,
            Chat::Channel(c) => c.id,
        }
    }

    /// The kind of this chat.
    pub open spec fn kind_spec(self) -> ChatType {
        match self {
            Chat::Private(_) => ChatType::Private,
            Chat::Group(_) => ChatType::Group,
            Chat::SuperGroup(_) => ChatType::SuperGroup,
            Chat::Channel(_) => ChatType::Channel,
        }
    }

    /// Returns the stable identifier of this chat.
    pub fn get_id(&self) -> (r: i64)
        ensures
            r == self.id_spec(),
    {
        match self {
            Chat::Private(c) => c.id,
            Chat::Group(c) => c.id,
            Chat::SuperGroup(c) => c.id,
            Chat::Channel(c) => c.id,
        }
    }

    /// Returns the kind of this chat.
    pub fn kind(&self) -> (r: ChatType)
        ensures
            r == self.kind_spec(),
    {
        match self {
            Chat::Private(_) => ChatType::Private,
            Chat::Group(_) => ChatType::Group,
            Chat::SuperGroup(_) => ChatType::SuperGroup,
            Chat::Channel(_) => ChatType::Channel,
        }
    }

    /// What decoding the pairs of a chat object gives: the `id`, then
    /// the `type` tag, then the fields the tag's shape calls for.
    pub open spec fn decode_fields_spec(p: Seq<(Key, JsonValue)>) -> Result<Chat, DecodeError> {
        match get_i64_spec(p, Key::Id) {
            Err(e) => Err(e),
            Ok(id) => match get_string_spec(p, Key::Type) {
                Err(e) => Err(e),
                Ok(tag) => match ChatType::of_tag(tag@) {
                    None => Err(DecodeError::UnknownTag(tag)),
                    Some(ChatType::Private) => match get_opt_string_spec(p, Key::FirstName) {
                        Err(e) => Err(e),
                        Ok(first_name) => match get_opt_string_spec(p, Key::LastName) {
                            Err(e) => Err(e),
                            Ok(last_name) => match get_opt_string_spec(p, Key::Username) {
                                Err(e) => Err(e),
                                Ok(username) => Ok(
                                    Chat::Private(
                                        PrivateChat { id, first_name, last_name, username },
                                    ),
                                ),
                            },
                        },
                    },
                    Some(ChatType::Group) => match get_string_spec(p, Key::Title) {
                        Err(e) => Err(e),
                        Ok(title) => match get_opt_permissions_spec(p, Key::Permissions) {
                            Err(e) => Err(e),
                            Ok(permissions) => match get_opt_string_spec(p, Key::InviteLink) {
                                Err(e) => Err(e),
                                Ok(invite_link) => Ok(
                                    Chat::Group(GroupChat { id, title, permissions, invite_link }),
                                ),
                            },
                        },
                    },
                    Some(ChatType::SuperGroup) => match get_string_spec(p, Key::Title) {
                        Err(e) => Err(e),
                        Ok(title) => match get_opt_string_spec(p, Key::Username) {
                            Err(e) => Err(e),
                            Ok(username) => match get_opt_permissions_spec(p, Key::Permissions) {
                                Err(e) => Err(e),
                                Ok(permissions) => match get_opt_string_spec(p, Key::InviteLink) {
                                    Err(e) => Err(e),
                                    Ok(invite_link) => Ok(
                                        Chat::SuperGroup(
                                            SuperGroupChat {
                                                id,
                                                title,
                                                username,
                                                permissions,
                                                invite_link,
                                            },
                                        ),
                                    ),
                                },
                            },
                        },
                    },
                    Some(ChatType::Channel) => match get_string_spec(p, Key::Title) {
                        Err(e) => Err(e),
                        Ok(title) => match get_opt_string_spec(p, Key::Username) {
                            Err(e) => Err(e),
                            Ok(username) => match get_opt_string_spec(p, Key::InviteLink) {
                                Err(e) => Err(e),
                                Ok(invite_link) => Ok(
                                    Chat::Channel(
                                        ChannelChat { id, title, username, invite_link },
                                    ),
                                ),
                            },
                        },
                    },
                },
            },
        }
    }

    /// What decoding a chat value gives.
    pub open spec fn from_json_spec(v: JsonValue) -> Result<Chat, DecodeError> {
        match v {
            JsonValue::Object(p) => Self::decode_fields_spec(p@),
            _ => Err(DecodeError::NotObject),
        }
    }

    /// Encodes this chat with its `type` tag; decoding the result gives
    /// the chat back, and an unset optional field leaves no key.
    pub fn to_json(&self) -> (r: JsonValue)
        ensures
            Self::from_json_spec(r) == Ok::<Chat, DecodeError>(*self),
    {
        let mut pairs: Vec<(Key, JsonValue)> = Vec::new();
        match self {
            Chat::Private(c) => {
                pairs.push((Key::Id, JsonValue::Int(c.id)));
                pairs.push((Key::Type, JsonValue::Str("private".to_owned())));
                if let Some(s) = &c.first_name {
                    pairs.push((Key::FirstName, JsonValue::Str(s.clone())));
                }
                if let Some(s) = &c.last_name {
                    pairs.push((Key::LastName, JsonValue::Str(s.clone())));
                }
                if let Some(s) = &c.username {
                    pairs.push((Key::Username, JsonValue::Str(s.clone())));
                }
                proof {
                    broadcast use lemma_lookup_push, lemma_lookup_empty;

                    assert(Self::decode_fields_spec(pairs@) == Ok::<Chat, DecodeError>(*self));
                }
            },
            Chat::Group(c) => {
                pairs.push((Key::Id, JsonValue::Int(c.id)));
                pairs.push((Key::Type, JsonValue::Str("group".to_owned())));
                pairs.push((Key::Title, JsonValue::Str(c.title.clone())));
                if let Some(perm) = &c.permissions {
                    pairs.push((Key::Permissions, perm.to_json()));
                }
                if let Some(s) = &c.invite_link {
                    pairs.push((Key::InviteLink, JsonValue::Str(s.clone())));
                }
                proof {
                    broadcast use lemma_lookup_push, lemma_lookup_empty;

                    reveal_strlit("group");
                    reveal_strlit("private");
                    assert("group"@.len() != "private"@.len());
                    assert(Self::decode_fields_spec(pairs@) == Ok::<Chat, DecodeError>(*self));
                }
            },
            Chat::SuperGroup(c) => {
                pairs.push((Key::Id, JsonValue::Int(c.id)));
                pairs.push((Key::Type, JsonValue::Str("supergroup".to_owned())));
                pairs.push((Key::Title, JsonValue::Str(c.title.clone())));
                if let Some(s) = &c.username {
                    pairs.push((Key::Username, JsonValue::Str(s.clone())));
                }
                if let Some(perm) = &c.permissions {
                    pairs.push((Key::Permissions, perm.to_json()));
                }
                if let Some(s) = &c.invite_link {
                    pairs.push((Key::InviteLink, JsonValue::Str(s.clone())));
                }
                proof {
                    broadcast use lemma_lookup_push, lemma_lookup_empty;

                    reveal_strlit("supergroup");
                    reveal_strlit("private");
                    reveal_strlit("group");
                    assert("supergroup"@.len() != "private"@.len());
                    assert("supergroup"@.len() != "group"@.len());
                    assert(Self::decode_fields_spec(pairs@) == Ok::<Chat, DecodeError>(*self));
                }
            },
            Chat::Channel(c) => {
                pairs.push((Key::Id, JsonValue::Int(c.id)));
                pairs.push((Key::Type, JsonValue::Str("channel".to_owned())));
                pairs.push((Key::Title, JsonValue::Str(c.title.clone())));
                if let Some(s) = &c.username {
                    pairs.push((Key::Username, JsonValue::Str(s.clone())));
                }
                if let Some(s) = &c.invite_link {
                    pairs.push((Key::InviteLink, JsonValue::Str(s.clone())));
                }
                proof {
                    broadcast use lemma_lookup_push, lemma_lookup_empty;

                    reveal_strlit("channel");
                    reveal_strlit("private");
                    reveal_strlit("group");
                    reveal_strlit("supergroup");
                    assert("channel"@[0] == 'c' && "private"@[0] == 'p');
                    assert("channel"@ != "private"@);
                    assert("channel"@.len() != "group"@.len());
                    assert("channel"@.len() != "supergroup"@.len());
                    assert(Self::decode_fields_spec(pairs@) == Ok::<Chat, DecodeError>(*self));
                }
            },
        }
        JsonValue::Object(pairs)
    }

    /// Decodes a chat value.
    pub fn from_json(v: &JsonValue) -> (r: Result<Chat, DecodeError>)
        ensures
            r == Self::from_json_spec(*v),
    {
        match v {
            JsonValue::Object(pairs) => {
                let id = match get_i64(pairs, Key::Id) {
                    Ok(x) => x,
                    Err(e) => return Err(e),
                };
                let tag = match get_string(pairs, Key::Type) {
                    Ok(x) => x,
                    Err(e) => return Err(e),
                };
                match ChatType::parse_tag(&tag) {
                    None => Err(DecodeError::UnknownTag(tag)),
                    Some(ChatType::Private) => {
                        let first_name = match get_opt_string(pairs, Key::FirstName) {
                            Ok(x) => x,
                            Err(e) => return Err(e),
                        };
                        let last_name = match get_opt_string(pairs, Key::LastName) {
                            Ok(x) => x,
                            Err(e) => return Err(e),
                        };
                        let username = match get_opt_string(pairs, Key::Username) {
                            Ok(x) => x,
                            Err(e) => return Err(e),
                        };
                        Ok(Chat::Private(PrivateChat { id, first_name, last_name, username }))
                    },
                    Some(ChatType::Group) => {
                        let title = match get_string(pairs, Key::Title) {
                            Ok(x) => x,
                            Err(e) => return Err(e),
                        };
                        let permissions = match get_opt_permissions(pairs, Key::Permissions) {
                            Ok(x) => x,
                            Err(e) => return Err(e),
                        };
                        let invite_link = match get_opt_string(pairs, Key::InviteLink) {
                            Ok(x) => x,
                            Err(e) => return Err(e),
                        };
                        Ok(Chat::Group(GroupChat { id, title, permissions, invite_link }))
                    },
                    Some(ChatType::SuperGroup) => {
                        let title = match get_string(pairs, Key::Title) {
                            Ok(x) => x,
                            Err(e) => return Err(e),
                        };
                        let username = match get_opt_string(pairs, Key::Username) {
                            Ok(x) => x,
                            Err(e) => return Err(e),
                        };
                        let permissions = match get_opt_permissions(pairs, Key::Permissions) {
                            Ok(x) => x,
                            Err(e) => return Err(e),
                        };
                        let invite_link = match get_opt_string(pairs, Key::InviteLink) {
                            Ok(x) => x,
                            Err(e) => return Err(e),
                        };
                        Ok(
                            Chat::SuperGroup(
                                SuperGroupChat { id, title, username, permissions, invite_link },
                            ),
                        )
                    },
                    Some(ChatType::Channel) => {
                        let title = match get_string(pairs, Key::Title) {
                            Ok(x) => x,
                            Err(e) => return Err(e),
                        };
                        let username = match get_opt_string(pairs, Key::Username) {
                            Ok(x) => x,
                            Err(e) => return Err(e),
                        };
                        let invite_link = match get_opt_string(pairs, Key::InviteLink) {
                            Ok(x) => x,
                            Err(e) => return Err(e),
                        };
                        Ok(Chat::Channel(ChannelChat { id, title, username, invite_link }))
                    },
                }
            },
            _ => Err(DecodeError::NotObject),
        }
    }
}

/// A decoded chat's shape agrees with its `type` tag — an object tagged
/// `private` can only ever yield the private shape — and a tag outside
/// the closed set never decodes: [`Chat`] has no catch-all variant, so
/// such a payload is rejected as [`DecodeError::UnknownTag`].
pub proof fn lemma_chat_tag_discrimination(p: Seq<(Key, JsonValue)>)
    ensures
        Chat::decode_fields_spec(p) matches Ok(c) ==> (get_string_spec(p, Key::Type) matches Ok(tag)
            && ChatType::of_tag(tag@) == Some(c.kind_spec())),
        ({
            &&& get_i64_spec(p, Key::Id) is Ok
            &&& get_string_spec(p, Key::Type) matches Ok(tag) && ChatType::of_tag(tag@) is None
        }) ==> Chat::decode_fields_spec(p) == Err::<Chat, DecodeError>(
            DecodeError::UnknownTag(get_string_spec(p, Key::Type)->Ok_0),
        ),
{
}

} // verus!
