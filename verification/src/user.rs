//! The user entity.

use vstd::prelude::*;
use crate::json::{
    find, get_bool, get_bool_spec, get_i64, get_i64_spec, get_opt_string, get_opt_string_spec,
    get_string, get_string_spec, lookup, opt_push, opt_str, push_opt_str, DecodeError, JsonValue,
    Key,
};
use crate::json::{lemma_lookup_empty, lemma_lookup_opt_push, lemma_lookup_push};

verus! {

/// A user or bot account.
#[derive(Clone, Debug, PartialEq)]
pub struct User {
    /// Unique identifier of the user
    pub id: i64,
    /// If this account is a bot
    pub is_bot: bool,
    /// First name of the user
    pub first_name: String,
    /// Last name of the user
    pub last_name: Option<String>,
    /// Username of the user
    pub username: Option<String>,
}

impl User {
    /// The pairs this entity encodes to, in order: one per set field,
    /// and none for an unset optional field.
    pub open spec fn fields_spec(self) -> Seq<(Key, JsonValue)> {
        opt_push(
            opt_push(
                Seq::empty().push((Key::Id, JsonValue::Int(self.id))).push(
                    (Key::IsBot, JsonValue::Bool(self.is_bot)),
                ).push((Key::FirstName, JsonValue::Str(self.first_name))),
                Key::LastName,
                opt_str(self.last_name),
            ),
            Key::Username,
            opt_str(self.username),
        )
    }

    /// What decoding the pairs of a user object gives.
    pub open spec fn decode_fields_spec(p: Seq<(Key, JsonValue)>) -> Result<User, DecodeError> {
        match get_i64_spec(p, Key::Id) {
            Err(e) => Err(e),
            Ok(id) => match get_bool_spec(p, Key::IsBot) {
                Err(e) => Err(e),
                Ok(is_bot) => match get_string_spec(p, Key::FirstName) {
                    Err(e) => Err(e),
                    Ok(first_name) => match get_opt_string_spec(p, Key::LastName) {
                        Err(e) => Err(e),
                        Ok(last_name) => match get_opt_string_spec(p, Key::Username) {
                            Err(e) => Err(e),
                            Ok(username) => Ok(
                                User { id, is_bot, first_name, last_name, username },
                            ),
                        },
                    },
                },
            },
        }
    }

    /// What decoding a user value gives.
    pub open spec fn from_json_spec(v: JsonValue) -> Result<User, DecodeError> {
        match v {
            JsonValue::Object(p) => Self::decode_fields_spec(p@),
            _ => Err(DecodeError::NotObject),
        }
    }

    /// Encodes this user; decoding the result gives the user back, and
    /// an unset optional field leaves no key in the output.
    pub fn to_json(&self) -> (r: JsonValue)
        ensures
            r matches JsonValue::Object(pairs) && pairs@ == self.fields_spec(),
            Self::from_json_spec(r) == Ok::<User, DecodeError>(*self),
    {
        let mut pairs: Vec<(Key, JsonValue)> = Vec::new();
        pairs.push((Key::Id, JsonValue::Int(self.id)));
        pairs.push((Key::IsBot, JsonValue::Bool(self.is_bot)));
        pairs.push((Key::FirstName, JsonValue::Str(self.first_name.clone())));
        push_opt_str(&mut pairs, Key::LastName, &self.last_name);
        push_opt_str(&mut pairs, Key::Username, &self.username);
        proof {
            broadcast use lemma_lookup_push, lemma_lookup_opt_push, lemma_lookup_empty;

            assert(pairs@ == self.fields_spec());
            assert(Self::decode_fields_spec(pairs@) == Ok::<User, DecodeError>(*self));
        }
        JsonValue::Object(pairs)
    }

    /// Decodes a user value.
    pub fn from_json(v: &JsonValue) -> (r: Result<User, DecodeError>)
        ensures
            r == Self::from_json_spec(*v),
    {
        match v {
            JsonValue::Object(pairs) => {
                let id = match get_i64(pairs, Key::Id) {
                    Ok(x) => x,
                    Err(e) => return Err(e),
                };
                let is_bot = match get_bool(pairs, Key::IsBot) {
                    Ok(x) => x,
                    Err(e) => return Err(e),
                };
                let first_name = match get_string(pairs, Key::FirstName) {
                    Ok(x) => x,
                    Err(e) => return Err(e),
                };
                let last_name = match get_opt_string(pairs, Key::LastName) {
                    Ok(x) => x,
                    Err(e) => return Err(e),
                };
                let username = match get_opt_string(pairs, Key::Username) {
                    Ok(x) => x,
                    Err(e) => return Err(e),
                };
                Ok(User { id, is_bot, first_name, last_name, username })
            },
            _ => Err(DecodeError::NotObject),
        }
    }
}

/// What reading a required embedded user object gives.
pub open spec fn get_user_spec(s: Seq<(Key, JsonValue)>, k: Key) -> Result<User, DecodeError> {
    match lookup(s, k) {
        None => Err(DecodeError::Missing(k)),
        Some(v) => User::from_json_spec(v),
    }
}

/// Reads a required embedded user object.
pub fn get_user(pairs: &Vec<(Key, JsonValue)>, k: Key) -> (r: Result<User, DecodeError>)
    ensures
        r == get_user_spec(pairs@, k),
{
    match find(pairs, &k) {
        None => Err(DecodeError::Missing(k)),
        Some(v) => User::from_json(v),
    }
}

/// What reading an optional embedded user object gives.
pub open spec fn get_opt_user_spec(s: Seq<(Key, JsonValue)>, k: Key) -> Result<
    Option<User>,
    DecodeError,
> {
    match lookup(s, k) {
        None => Ok(None),
        Some(JsonValue::Null) => Ok(None),
        Some(v) => match User::from_json_spec(v) {
            Ok(u) => Ok(Some(u)),
            Err(e) => Err(e),
        },
    }
}

/// Reads an optional embedded user object.
pub fn get_opt_user(pairs: &Vec<(Key, JsonValue)>, k: Key) -> (r: Result<
    Option<User>,
    DecodeError,
>)
    ensures
        r == get_opt_user_spec(pairs@, k),
{
    match find(pairs, &k) {
        None => Ok(None),
        Some(JsonValue::Null) => Ok(None),
        Some(v) => match User::from_json(v) {
            Ok(u) => Ok(Some(u)),
            Err(e) => Err(e),
        },
    }
}

} // verus!
