//! Events the platform delivers to a bot.
//!
//! An update object has no explicit tag: its kind is whichever of the
//! discriminating fields (`message`, `edited_message`, `callback_query`,
//! `poll`) is populated, where populated means present and not null.
//! Exactly one is expected; an update that populates none of them is
//! rejected as [`DecodeError::NoVariant`], and one that populates more
//! than one is rejected as [`DecodeError::Ambiguous`] — decoding fails
//! loudly rather than silently picking one of the candidates.

use vstd::prelude::*;
use crate::json::{
    find, get_bool, get_bool_spec, get_i64, get_i64_spec, get_opt_string, get_opt_string_spec,
    get_string, get_string_spec, lookup, push_opt_str, DecodeError, JsonValue, Key,
};
use crate::json::{lemma_lookup_empty, lemma_lookup_opt_push, lemma_lookup_push};
use crate::message::Message;
use crate::user::{get_user, get_user_spec, User};

verus! {

/// A button press on an inline keyboard.
#[derive(Clone, Debug, PartialEq)]
pub struct CallbackQuery {
    /// Unique identifier of the query
    pub id: String,
    /// The user that pressed the button
    pub from: User,
    /// Data associated with the pressed button
    pub data: Option<String>,
}

impl CallbackQuery {
    /// What decoding the pairs of a callback query object gives.
    pub open spec fn decode_fields_spec(p: Seq<(Key, JsonValue)>) -> Result<
        CallbackQuery,
        DecodeError,
    > {
        match get_string_spec(p, Key::Id) {
            Err(e) => Err(e),
            Ok(id) => match get_user_spec(p, Key::Sender) {
                Err(e) => Err(e),
                Ok(from) => match get_opt_string_spec(p, Key::Data) {
                    Err(e) => Err(e),
                    Ok(data) => Ok(CallbackQuery { id, from, data }),
                },
            },
        }
    }

    /// What decoding a callback query value gives.
    pub open spec fn from_json_spec(v: JsonValue) -> Result<CallbackQuery, DecodeError> {
        match v {
            JsonValue::Object(p) => Self::decode_fields_spec(p@),
            _ => Err(DecodeError::NotObject),
        }
    }

    /// Encodes this query; decoding the result gives the query back,
    /// and absent data leaves no key in the output.
    pub fn to_json(&self) -> (r: JsonValue)
        ensures
            Self::from_json_spec(r) == Ok::<CallbackQuery, DecodeError>(*self),
    {
        let mut pairs: Vec<(Key, JsonValue)> = Vec::new();
        pairs.push((Key::Id, JsonValue::Str(self.id.clone())));
        pairs.push((Key::Sender, self.from.to_json()));
        push_opt_str(&mut pairs, Key::Data, &self.data);
        proof {
            broadcast use lemma_lookup_push, lemma_lookup_opt_push, lemma_lookup_empty;

            assert(Self::decode_fields_spec(pairs@) == Ok::<CallbackQuery, DecodeError>(*self));
        }
        JsonValue::Object(pairs)
    }

    /// Decodes a callback query value.
    pub fn from_json(v: &JsonValue) -> (r: Result<CallbackQuery, DecodeError>)
        ensures
            r == Self::from_json_spec(*v),
    {
        match v {
            JsonValue::Object(pairs) => {
                let id = match get_string(pairs, Key::Id) {
                    Ok(x) => x,
                    Err(e) => return Err(e),
                };
                let from = match get_user(pairs, Key::Sender) {
                    Ok(x) => x,
                    Err(e) => return Err(e),
                };
                let data = match get_opt_string(pairs, Key::Data) {
                    Ok(x) => x,
                    Err(e) => return Err(e),
                };
                Ok(CallbackQuery { id, from, data })
            },
            _ => Err(DecodeError::NotObject),
        }
    }
}

/// A native poll.
#[derive(Clone, Debug, PartialEq)]
pub struct Poll {
    /// Unique identifier of the poll
    pub id: String,
    /// The question the poll asks
    pub question: String,
    /// If the poll is closed
    pub is_closed: bool,
}

impl Poll {
    /// What decoding the pairs of a poll object gives.
    pub open spec fn decode_fields_spec(p: Seq<(Key, JsonValue)>) -> Result<Poll, DecodeError> {
        match get_string_spec(p, Key::Id) {
            Err(e) => Err(e),
            Ok(id) => match get_string_spec(p, Key::Question) {
                Err(e) => Err(e),
                Ok(question) => match get_bool_spec(p, Key::IsClosed) {
                    Err(e) => Err(e),
                    Ok(is_closed) => Ok(Poll { id, question, is_closed }),
                },
            },
        }
    }

    /// What decoding a poll value gives.
    pub open spec fn from_json_spec(v: JsonValue) -> Result<Poll, DecodeError> {
        match v {
            JsonValue::Object(p) => Self::decode_fields_spec(p@),
            _ => Err(DecodeError::NotObject),
        }
    }

    /// Encodes this poll; decoding the result gives the poll back.
    pub fn to_json(&self) -> (r: JsonValue)
        ensures
            Self::from_json_spec(r) == Ok::<Poll, DecodeError>(*self),
    {
        let mut pairs: Vec<(Key, JsonValue)> = Vec::new();
        pairs.push((Key::Id, JsonValue::Str(self.id.clone())));
        pairs.push((Key::Question, JsonValue::Str(self.question.clone())));
        pairs.push((Key::IsClosed, JsonValue::Bool(self.is_closed)));
        proof {
            broadcast use lemma_lookup_push, lemma_lookup_empty;

            assert(Self::decode_fields_spec(pairs@) == Ok::<Poll, DecodeError>(*self));
        }
        JsonValue::Object(pairs)
    }

    /// Decodes a poll value.
    pub fn from_json(v: &JsonValue) -> (r: Result<Poll, DecodeError>)
        ensures
            r == Self::from_json_spec(*v),
    {
        match v {
            JsonValue::Object(pairs) => {
                let id = match get_string(pairs, Key::Id) {
                    Ok(x) => x,
                    Err(e) => return Err(e),
                };
                let question = match get_string(pairs, Key::Question) {
                    Ok(x) => x,
                    Err(e) => return Err(e),
                };
                let is_closed = match get_bool(pairs, Key::IsClosed) {
                    Ok(x) => x,
                    Err(e) => return Err(e),
                };
                Ok(Poll { id, question, is_closed })
            },
            _ => Err(DecodeError::NotObject),
        }
    }
}

/// The kinds of event an update can carry.
#[derive(Clone, Debug, PartialEq)]
pub enum UpdateContent {
    /// A new incoming message
    Message(Message),
    /// A new edit to a known message
    EditedMessage(Message),
    /// A button press on an inline keyboard
    CallbackQuery(CallbackQuery),
    /// A new poll state
    Poll(Poll),
}

/// A single event delivered by the platform.
#[derive(Clone, Debug, PartialEq)]
pub struct Update {
    /// Monotonically growing identifier of the update
    pub update_id: i64,
    /// The event the update carries
    pub content: UpdateContent,
}

/// Whether an object populates a key: the key is present and its value
/// is not null.
pub open spec fn populated(p: Seq<(Key, JsonValue)>, k: Key) -> bool {
    match lookup(p, k) {
        None => false,
        Some(JsonValue::Null) => false,
        Some(_) => true,
    }
}

/// How many of the discriminating fields of an update an object
/// populates.
pub open spec fn count_populated(p: Seq<(Key, JsonValue)>) -> int {
    (if populated(p, Key::Message) {
        1int
    } else {
        0int
    }) + (if populated(p, Key::EditedMessage) {
        1int
    } else {
        0int
    }) + (if populated(p, Key::CallbackQuery) {
        1int
    } else {
        0int
    }) + (if populated(p, Key::Poll) {
        1int
    } else {
        0int
    })
}

/// Tells whether an object populates a key.
pub fn is_populated(pairs: &Vec<(Key, JsonValue)>, k: Key) -> (r: bool)
    ensures
        r == populated(pairs@, k),
{
    match find(pairs, &k) {
        None => false,
        Some(JsonValue::Null) => false,
        Some(_) => true,
    }
}

impl Update {
    /// What decoding the pairs of an update object gives: its `update_id`,
    /// then the single populated discriminating field's payload; no
    /// populated field or several populated fields fail deterministically.
    pub open spec fn decode_fields_spec(p: Seq<(Key, JsonValue)>) -> Result<Update, DecodeError> {
        match get_i64_spec(p, Key::UpdateId) {
            Err(e) => Err(e),
            Ok(update_id) => if count_populated(p) == 0 {
                Err(DecodeError::NoVariant)
            } else if count_populated(p) > 1 {
                Err(DecodeError::Ambiguous)
            } else if populated(p, Key::Message) {
                match lookup(p, Key::Message) {
                    Some(v) => match Message::from_json_spec(v) {
                        Err(e) => Err(e),
                        Ok(m) => Ok(Update { update_id, content: UpdateContent::Message(m) }),
                    },
                    None => Err(DecodeError::NoVariant),
                }
            } else if populated(p, Key::EditedMessage) {
                match lookup(p, Key::EditedMessage) {
                    Some(v) => match Message::from_json_spec(v) {
                        Err(e) => Err(e),
                        Ok(m) => Ok(
                            Update { update_id, content: UpdateContent::EditedMessage(m) },
                        ),
                    },
                    None => Err(DecodeError::NoVariant),
                }
            } else if populated(p, Key::CallbackQuery) {
                match lookup(p, Key::CallbackQuery) {
                    Some(v) => match CallbackQuery::from_json_spec(v) {
                        Err(e) => Err(e),
                        Ok(q) => Ok(
                            Update { update_id, content: UpdateContent::CallbackQuery(q) },
                        ),
                    },
                    None => Err(DecodeError::NoVariant),
                }
            } else {
                match lookup(p, Key::Poll) {
                    Some(v) => match Poll::from_json_spec(v) {
                        Err(e) => Err(e),
                        Ok(q) => Ok(Update { update_id, content: UpdateContent::Poll(q) }),
                    },
                    None => Err(DecodeError::NoVariant),
                }
            },
        }
    }

    /// What decoding an update value gives.
    pub open spec fn from_json_spec(v: JsonValue) -> Result<Update, DecodeError> {
        match v {
            JsonValue::Object(p) => Self::decode_fields_spec(p@),
            _ => Err(DecodeError::NotObject),
        }
    }

    /// Encodes this update under its kind's discriminating key;
    /// decoding the result gives the update back.
    pub fn to_json(&self) -> (r: JsonValue)
        ensures
            Self::from_json_spec(r) == Ok::<Update, DecodeError>(*self),
    {
        let mut pairs: Vec<(Key, JsonValue)> = Vec::new();
        pairs.push((Key::UpdateId, JsonValue::Int(self.update_id)));
        match &self.content {
            UpdateContent::Message(m) => {
                pairs.push((Key::Message, m.to_json()));
            },
            UpdateContent::EditedMessage(m) => {
                pairs.push((Key::EditedMessage, m.to_json()));
            },
            UpdateContent::CallbackQuery(q) => {
                pairs.push((Key::CallbackQuery, q.to_json()));
            },
            UpdateContent::Poll(q) => {
                pairs.push((Key::Poll, q.to_json()));
            },
        }
        proof {
            broadcast use lemma_lookup_push, lemma_lookup_opt_push, lemma_lookup_empty;

            assert(Self::decode_fields_spec(pairs@) == Ok::<Update, DecodeError>(*self));
        }
        JsonValue::Object(pairs)
    }

    /// Decodes an update value.
    pub fn from_json(v: &JsonValue) -> (r: Result<Update, DecodeError>)
        ensures
            r == Self::from_json_spec(*v),
    {
        match v {
            JsonValue::Object(pairs) => {
                let update_id = match get_i64(pairs, Key::UpdateId) {
                    Ok(x) => x,
                    Err(e) => return Err(e),
                };
                let has_message = is_populated(pairs, Key::Message);
                let has_edited = is_populated(pairs, Key::EditedMessage);
                let has_query = is_populated(pairs, Key::CallbackQuery);
                let has_poll = is_populated(pairs, Key::Poll);
                let count: u32 = (if has_message {
                    1u32
                } else {
                    0u32
                }) + (if has_edited {
                    1u32
                } else {
                    0u32
                }) + (if has_query {
                    1u32
                } else {
                    0u32
                }) + (if has_poll {
                    1u32
                } else {
                    0u32
                });
                if count == 0 {
                    Err(DecodeError::NoVariant)
                } else if count > 1 {
                    Err(DecodeError::Ambiguous)
                } else if has_message {
                    match find(pairs, &Key::Message) {
                        Some(v) => match Message::from_json(v) {
                            Err(e) => Err(e),
                            Ok(m) => Ok(
                                Update { update_id, content: UpdateContent::Message(m) },
                            ),
                        },
                        None => Err(DecodeError::NoVariant),
                    }
                } else if has_edited {
                    match find(pairs, &Key::EditedMessage) {
                        Some(v) => match Message::from_json(v) {
                            Err(e) => Err(e),
                            Ok(m) => Ok(
                                Update { update_id, content: UpdateContent::EditedMessage(m) },
                            ),
                        },
                        None => Err(DecodeError::NoVariant),
                    }
                } else if has_query {
                    match find(pairs, &Key::CallbackQuery) {
                        Some(v) => match CallbackQuery::from_json(v) {
                            Err(e) => Err(e),
                            Ok(q) => Ok(
                                Update { update_id, content: UpdateContent::CallbackQuery(q) },
                            ),
                        },
                        None => Err(DecodeError::NoVariant),
                    }
                } else {
                    match find(pairs, &Key::Poll) {
                        Some(v) => match Poll::from_json(v) {
                            Err(e) => Err(e),
                            Ok(q) => Ok(Update { update_id, content: UpdateContent::Poll(q) }),
                        },
                        None => Err(DecodeError::NoVariant),
                    }
                }
            },
            _ => Err(DecodeError::NotObject),
        }
    }
}

/// The discrimination policy of update decoding, stated once over every
/// payload: an object that populates none of the discriminating fields
/// fails as [`DecodeError::NoVariant`]; one that populates several
/// fails as [`DecodeError::Ambiguous`]; and a decoded update's kind is
/// the kind of the single field its object populated.
pub proof fn lemma_update_exclusivity(p: Seq<(Key, JsonValue)>)
    ensures
        (get_i64_spec(p, Key::UpdateId) is Ok && count_populated(p) == 0)
            ==> Update::decode_fields_spec(p) == Err::<Update, DecodeError>(DecodeError::NoVariant),
        (get_i64_spec(p, Key::UpdateId) is Ok && count_populated(p) > 1)
            ==> Update::decode_fields_spec(p) == Err::<Update, DecodeError>(DecodeError::Ambiguous),
        Update::decode_fields_spec(p) is Ok ==> count_populated(p) == 1,
        Update::decode_fields_spec(p) matches Ok(u) ==> (populated(p, Key::Message)
            ==> u.content matches UpdateContent::Message(_)),
        Update::decode_fields_spec(p) matches Ok(u) ==> (populated(p, Key::EditedMessage)
            ==> u.content matches UpdateContent::EditedMessage(_)),
        Update::decode_fields_spec(p) matches Ok(u) ==> (populated(p, Key::CallbackQuery)
            ==> u.content matches UpdateContent::CallbackQuery(_)),
        Update::decode_fields_spec(p) matches Ok(u) ==> (populated(p, Key::Poll)
            ==> u.content matches UpdateContent::Poll(_)),
{
}

} // verus!
