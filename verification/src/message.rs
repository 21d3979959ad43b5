//! The message envelope and its content variants.
//!
//! A message's content is told apart by which content field its object
//! populates: a populated `text` gives text content, else a populated
//! `sticker` gives sticker content, and an object that populates
//! neither decodes to the catch-all [`MessageContent::Unrecognized`],
//! so that content kinds this schema does not model pass through
//! without failing the whole payload.

use vstd::prelude::*;
use crate::chat::Chat;
use crate::json::{
    find, get_i64, get_i64_spec, get_string, get_string_spec, lookup, DecodeError, JsonValue, Key,
};
use crate::json::{lemma_lookup_empty, lemma_lookup_opt_push, lemma_lookup_push};
use crate::user::{get_opt_user, get_opt_user_spec, User};

verus! {

/// The content a message carries.
#[derive(Clone, Debug, PartialEq)]
pub enum MessageContent {
    /// A text message
    Text {
        /// The text of the message
        text: String,
    },
    /// A sticker message
    Sticker {
        /// Identifier of the sticker file on the servers
        file_id: String,
    },
    /// Content of a kind this schema does not model
    Unrecognized,
}

/// A message: its envelope and its content.
#[derive(Clone, Debug, PartialEq)]
pub struct Message {
    /// Unique identifier of the message inside its chat
    pub message_id: i64,
    /// The account that sent the message; absent for channel posts
    pub from: Option<User>,
    /// Date the message was sent, unix time
    pub date: i64,
    /// The chat the message belongs to
    pub chat: Chat,
    /// What the message carries
    pub content: MessageContent,
}

/// What decoding the sticker content of a message object gives, once
/// its `text` field is known to be unpopulated.
pub open spec fn decode_sticker_content_spec(p: Seq<(Key, JsonValue)>) -> Result<
    MessageContent,
    DecodeError,
> {
    match lookup(p, Key::Sticker) {
        None => Ok(MessageContent::Unrecognized),
        Some(JsonValue::Null) => Ok(MessageContent::Unrecognized),
        Some(JsonValue::Object(sp)) => match get_string_spec(sp@, Key::FileId) {
            Err(e) => Err(e),
            Ok(file_id) => Ok(MessageContent::Sticker { file_id }),
        },
        Some(_) => Err(DecodeError::WrongType(Key::Sticker)),
    }
}

/// What decoding the content of a message object gives: a populated
/// `text` field wins, then a populated `sticker` field, and an object
/// that populates neither is the catch-all content.
pub open spec fn decode_content_spec(p: Seq<(Key, JsonValue)>) -> Result<
    MessageContent,
    DecodeError,
> {
    match lookup(p, Key::Text) {
        None => decode_sticker_content_spec(p),
        Some(JsonValue::Null) => decode_sticker_content_spec(p),
        Some(JsonValue::Str(text)) => Ok(MessageContent::Text { text }),
        Some(_) => Err(DecodeError::WrongType(Key::Text)),
    }
}

/// Decodes the content of a message object.
pub fn decode_content(pairs: &Vec<(Key, JsonValue)>) -> (r: Result<MessageContent, DecodeError>)
    ensures
        r == decode_content_spec(pairs@),
{
    match find(pairs, &Key::Text) {
        Some(JsonValue::Str(text)) => {
            return Ok(MessageContent::Text { text: text.clone() });
        },
        Some(JsonValue::Null) => {},
        Some(_) => {
            return Err(DecodeError::WrongType(Key::Text));
        },
        None => {},
    }
    match find(pairs, &Key::Sticker) {
        None => Ok(MessageContent::Unrecognized),
        Some(JsonValue::Null) => Ok(MessageContent::Unrecognized),
        Some(JsonValue::Object(sp)) => match get_string(sp, Key::FileId) {
            Err(e) => Err(e),
            Ok(file_id) => Ok(MessageContent::Sticker { file_id }),
        },
        Some(_) => Err(DecodeError::WrongType(Key::Sticker)),
    }
}

impl Message {
    /// What decoding the pairs of a message object gives.
    pub open spec fn decode_fields_spec(p: Seq<(Key, JsonValue)>) -> Result<Message, DecodeError> {
        match get_i64_spec(p, Key::MessageId) {
            Err(e) => Err(e),
            Ok(message_id) => match get_opt_user_spec(p, Key::Sender) {
                Err(e) => Err(e),
                Ok(from) => match get_i64_spec(p, Key::Date) {
                    Err(e) => Err(e),
                    Ok(date) => match lookup(p, Key::Chat) {
                        None => Err(DecodeError::Missing(Key::Chat)),
                        Some(cv) => match Chat::from_json_spec(cv) {
                            Err(e) => Err(e),
                            Ok(chat) => match decode_content_spec(p) {
                                Err(e) => Err(e),
                                Ok(content) => Ok(
                                    Message { message_id, from, date, chat, content },
                                ),
                            },
                        },
                    },
                },
            },
        }
    }

    /// What decoding a message value gives.
    pub open spec fn from_json_spec(v: JsonValue) -> Result<Message, DecodeError> {
        match v {
            JsonValue::Object(p) => Self::decode_fields_spec(p@),
            _ => Err(DecodeError::NotObject),
        }
    }

    /// Encodes this message; decoding the result gives the message
    /// back, and an absent sender leaves no key in the output.
    pub fn to_json(&self) -> (r: JsonValue)
        ensures
            Self::from_json_spec(r) == Ok::<Message, DecodeError>(*self),
    {
        let mut pairs: Vec<(Key, JsonValue)> = Vec::new();
        pairs.push((Key::MessageId, JsonValue::Int(self.message_id)));
        if let Some(u) = &self.from {
            pairs.push((Key::Sender, u.to_json()));
        }
        pairs.push((Key::Date, JsonValue::Int(self.date)));
        pairs.push((Key::Chat, self.chat.to_json()));
        match &self.content {
            MessageContent::Text { text } => {
                pairs.push((Key::Text, JsonValue::Str(text.clone())));
            },
            MessageContent::Sticker { file_id } => {
                let mut sp: Vec<(Key, JsonValue)> = Vec::new();
                sp.push((Key::FileId, JsonValue::Str(file_id.clone())));
                proof {
                    broadcast use lemma_lookup_push, lemma_lookup_empty;

                    assert(get_string_spec(sp@, Key::FileId) == Ok::<String, DecodeError>(
                        *file_id,
                    ));
                }
                pairs.push((Key::Sticker, JsonValue::Object(sp)));
            },
            MessageContent::Unrecognized => {},
        }
        proof {
            broadcast use lemma_lookup_push, lemma_lookup_opt_push, lemma_lookup_empty;

            assert(Self::decode_fields_spec(pairs@) == Ok::<Message, DecodeError>(*self));
        }
        JsonValue::Object(pairs)
    }

    /// Decodes a message value.
    pub fn from_json(v: &JsonValue) -> (r: Result<Message, DecodeError>)
        ensures
            r == Self::from_json_spec(*v),
    {
        match v {
            JsonValue::Object(pairs) => {
                let message_id = match get_i64(pairs, Key::MessageId) {
                    Ok(x) => x,
                    Err(e) => return Err(e),
                };
                let from = match get_opt_user(pairs, Key::Sender) {
                    Ok(x) => x,
                    Err(e) => return Err(e),
                };
                let date = match get_i64(pairs, Key::Date) {
                    Ok(x) => x,
                    Err(e) => return Err(e),
                };
                let chat = match find(pairs, &Key::Chat) {
                    None => return Err(DecodeError::Missing(Key::Chat)),
                    Some(cv) => match Chat::from_json(cv) {
                        Ok(c) => c,
                        Err(e) => return Err(e),
                    },
                };
                let content = match decode_content(pairs) {
                    Ok(x) => x,
                    Err(e) => return Err(e),
                };
                Ok(Message { message_id, from, date, chat, content })
            },
            _ => Err(DecodeError::NotObject),
        }
    }
}

} // verus!
