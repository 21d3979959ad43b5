//! A model of the JSON values this schema exchanges.
//!
//! Objects are sequences of key/value pairs.  Keys that belong to the
//! schema are variants of [`Key`], so that contracts can compare keys
//! structurally; any other key is carried as text in [`Key::Other`].
//! When an object holds the same key twice, the last occurrence wins,
//! as it does in `serde_json`'s value tree; [`lookup`] states that
//! policy once and every decoder goes through it.

use vstd::prelude::*;

verus! {

/// A JSON object key of this schema.
///
/// [`Key::text`] gives the wire spelling of each variant; keys outside
/// the schema travel in [`Key::Other`] with their spelling as data.
#[derive(Clone, Debug, PartialEq, Eq)]
pub enum Key {
    ChatId,
    UserId,
    UntilDate,
    RevokeMessages,
    OnlyIfBanned,
    Permissions,
    IsAnonymous,
    CanPostMessages,
    CanEditMessages,
    CanDeleteMessages,
    CanRestrictMembers,
    CanPromoteMembers,
    CanChangeInfo,
    CanInviteUsers,
    CanPinMessages,
    CanManageVoiceChats,
    CanManageChat,
    CustomTitle,
    Title,
    Description,
    MessageId,
    DisableNotification,
    StickerSetName,
    InviteLink,
    ExpireDate,
    MemberLimit,
    Photo,
    CanSendMessages,
    CanSendMediaMessages,
    CanSendPolls,
    CanSendOtherMessages,
    CanAddWebPagePreviews,
    Id,
    Type,
    FirstName,
    LastName,
    Username,
    IsBot,
    Status,
    User,
    Sender,
    Chat,
    Date,
    Text,
    Sticker,
    FileId,
    UpdateId,
    Message,
    EditedMessage,
    CallbackQuery,
    Poll,
    Data,
    Question,
    IsClosed,
    Other(String),
}

impl Key {
    /// The wire spelling of this key.
    pub open spec fn text_spec(self) -> Seq<char> {
        match self {
            Key::ChatId => "chat_id"@,
            Key::UserId => "user_id"@,
            Key::UntilDate => "until_date"@,
            Key::RevokeMessages => "revoke_messages"@,
            Key::OnlyIfBanned => "only_if_banned"@,
            Key::Permissions => "permissions"@,
            Key::IsAnonymous => "is_anonymous"@,
            Key::CanPostMessages => "can_post_messages"@,
            Key::CanEditMessages => "can_edit_messages"@,
            Key::CanDeleteMessages => "can_delete_messages"@,
            Key::CanRestrictMembers => "can_restrict_members"@,
            Key::CanPromoteMembers => "can_promote_members"@,
            Key::CanChangeInfo => "can_change_info"@,
            Key::CanInviteUsers => "can_invite_users"@,
            Key::CanPinMessages => "can_pin_messages"@,
            Key::CanManageVoiceChats => "can_manage_voice_chats"@,
            Key::CanManageChat => "can_manage_chat"@,
            Key::CustomTitle => "custom_title"@,
            Key::Title => "title"@,
            Key::Description => "description"@,
            Key::MessageId => "message_id"@,
            Key::DisableNotification => "disable_notification"@,
            Key::StickerSetName => "sticker_set_name"@,
            Key::InviteLink => "invite_link"@,
            Key::ExpireDate => "expire_date"@,
            Key::MemberLimit => "member_limit"@,
            Key::Photo => "photo"@,
            Key::CanSendMessages => "can_send_messages"@,
            Key::CanSendMediaMessages => "can_send_media_messages"@,
            Key::CanSendPolls => "can_send_polls"@,
            Key::CanSendOtherMessages => "can_send_other_messages"@,
            Key::CanAddWebPagePreviews => "can_add_web_page_previews"@,
            Key::Id => "id"@,
            Key::Type => "type"@,
            Key::FirstName => "first_name"@,
            Key::LastName => "last_name"@,
            Key::Username => "username"@,
            Key::IsBot => "is_bot"@,
            Key::Status => "status"@,
            Key::User => "user"@,
            Key::Sender => "from"@,
            Key::Chat => "chat"@,
            Key::Date => "date"@,
            Key::Text => "text"@,
            Key::Sticker => "sticker"@,
            Key::FileId => "file_id"@,
            Key::UpdateId => "update_id"@,
            Key::Message => "message"@,
            Key::EditedMessage => "edited_message"@,
            Key::CallbackQuery => "callback_query"@,
            Key::Poll => "poll"@,
            Key::Data => "data"@,
            Key::Question => "question"@,
            Key::IsClosed => "is_closed"@,
            Key::Other(s) => s@,
        }
    }

    /// Spells this key for the wire.
    pub fn text(&self) -> (r: String)
        ensures
            r@ == self.text_spec(),
    {
        match self {
            Key::ChatId => "chat_id".to_owned(),
            Key::UserId => "user_id".to_owned(),
            Key::UntilDate => "until_date".to_owned(),
            Key::RevokeMessages => "revoke_messages".to_owned(),
            Key::OnlyIfBanned => "only_if_banned".to_owned(),
            Key::Permissions => "permissions".to_owned(),
            Key::IsAnonymous => "is_anonymous".to_owned(),
            Key::CanPostMessages => "can_post_messages".to_owned(),
            Key::CanEditMessages => "can_edit_messages".to_owned(),
            Key::CanDeleteMessages => "can_delete_messages".to_owned(),
            Key::CanRestrictMembers => "can_restrict_members".to_owned(),
            Key::CanPromoteMembers => "can_promote_members".to_owned(),
            Key::CanChangeInfo => "can_change_info".to_owned(),
            Key::CanInviteUsers => "can_invite_users".to_owned(),
            Key::CanPinMessages => "can_pin_messages".to_owned(),
            Key::CanManageVoiceChats => "can_manage_voice_chats".to_owned(),
            Key::CanManageChat => "can_manage_chat".to_owned(),
            Key::CustomTitle => "custom_title".to_owned(),
            Key::Title => "title".to_owned(),
            Key::Description => "description".to_owned(),
            Key::MessageId => "message_id".to_owned(),
            Key::DisableNotification => "disable_notification".to_owned(),
            Key::StickerSetName => "sticker_set_name".to_owned(),
            Key::InviteLink => "invite_link".to_owned(),
            Key::ExpireDate => "expire_date".to_owned(),
            Key::MemberLimit => "member_limit".to_owned(),
            Key::Photo => "photo".to_owned(),
            Key::CanSendMessages => "can_send_messages".to_owned(),
            Key::CanSendMediaMessages => "can_send_media_messages".to_owned(),
            Key::CanSendPolls => "can_send_polls".to_owned(),
            Key::CanSendOtherMessages => "can_send_other_messages".to_owned(),
            Key::CanAddWebPagePreviews => "can_add_web_page_previews".to_owned(),
            Key::Id => "id".to_owned(),
            Key::Type => "type".to_owned(),
            Key::FirstName => "first_name".to_owned(),
            Key::LastName => "last_name".to_owned(),
            Key::Username => "username".to_owned(),
            Key::IsBot => "is_bot".to_owned(),
            Key::Status => "status".to_owned(),
            Key::User => "user".to_owned(),
            Key::Sender => "from".to_owned(),
            Key::Chat => "chat".to_owned(),
            Key::Date => "date".to_owned(),
            Key::Text => "text".to_owned(),
            Key::Sticker => "sticker".to_owned(),
            Key::FileId => "file_id".to_owned(),
            Key::UpdateId => "update_id".to_owned(),
            Key::Message => "message".to_owned(),
            Key::EditedMessage => "edited_message".to_owned(),
            Key::CallbackQuery => "callback_query".to_owned(),
            Key::Poll => "poll".to_owned(),
            Key::Data => "data".to_owned(),
            Key::Question => "question".to_owned(),
            Key::IsClosed => "is_closed".to_owned(),
            Key::Other(s) => s.clone(),
        }
    }
}

/// When two keys stand for the same wire name: equal variants, or two
/// [`Key::Other`] keys whose spellings agree.
pub open spec fn key_eqv(a: Key, b: Key) -> bool {
    match (a, b) {
        (Key::Other(x), Key::Other(y)) => x@ == y@,
        _ => a == b,
    }
}

/// A JSON value: no floating-point numbers and no arrays appear in the
/// parts of the schema modelled here, so numbers are `i64` and the
/// composite form is the object.
#[derive(Debug, PartialEq)]
pub enum JsonValue {
    Null,
    Bool(bool),
    Int(i64),
    Str(String),
    Object(Vec<(Key, JsonValue)>),
}

/// Errors a decoder can report, each naming the offending key or tag.
#[derive(Clone, Debug, PartialEq)]
pub enum DecodeError {
    /// The payload is not a JSON object.
    NotObject,
    /// A required field is missing.
    Missing(Key),
    /// A field is present but holds a value of the wrong type.
    WrongType(Key),
    /// An integer field holds a value outside the target range.
    OutOfRange(Key),
    /// A discriminating tag holds a value outside the closed set.
    UnknownTag(String),
    /// No discriminating field of a presence-tagged payload is populated.
    NoVariant,
    /// More than one discriminating field of a presence-tagged payload
    /// is populated.
    Ambiguous,
}

/// Errors an encoder can report.
#[derive(Clone, Debug, PartialEq, Eq)]
pub enum EncodeError {
    /// The value holds a file that only a multipart transport can
    /// carry, so it has no JSON form.
    RequiresMultipart,
}

/// The value an object associates with a key: the last pair whose key
/// matches, or nothing.
pub open spec fn lookup(s: Seq<(Key, JsonValue)>, k: Key) -> Option<JsonValue>
    decreases s.len(),
{
    if s.len() == 0 {
        None
    } else if key_eqv(s.last().0, k) {
        Some(s.last().1)
    } else {
        lookup(s.drop_last(), k)
    }
}

/// Appending a pair either answers for its own key or leaves every
/// lookup unchanged.
pub broadcast proof fn lemma_lookup_push(s: Seq<(Key, JsonValue)>, p: (Key, JsonValue), k: Key)
    ensures
        #[trigger] lookup(s.push(p), k) == if key_eqv(p.0, k) {
            Some(p.1)
        } else {
            lookup(s, k)
        },
{
    assert(s.push(p).last() == p);
    assert(s.push(p).drop_last() =~= s);
}

/// Nothing is found in the empty object.
pub broadcast proof fn lemma_lookup_empty(k: Key)
    ensures
        #[trigger] lookup(Seq::<(Key, JsonValue)>::empty(), k) is None,
{
}

/// Appends a pair for an optional field: nothing is appended when the
/// field is absent, so the encoded object carries no key for it.
pub open spec fn opt_push(s: Seq<(Key, JsonValue)>, k: Key, o: Option<JsonValue>) -> Seq<
    (Key, JsonValue),
> {
    match o {
        Some(j) => s.push((k, j)),
        None => s,
    }
}

/// How an optional append answers lookups: its own key when the field
/// is present, whatever the rest answers otherwise.
pub broadcast proof fn lemma_lookup_opt_push(
    s: Seq<(Key, JsonValue)>,
    k: Key,
    o: Option<JsonValue>,
    k2: Key,
)
    ensures
        #[trigger] lookup(opt_push(s, k, o), k2) == match o {
            Some(j) => if key_eqv(k, k2) {
                Some(j)
            } else {
                lookup(s, k2)
            },
            None => lookup(s, k2),
        },
{
    match o {
        Some(j) => lemma_lookup_push(s, (k, j), k2),
        None => {},
    }
}

/// The wire form of an optional integer field.
pub open spec fn opt_int(o: Option<i64>) -> Option<JsonValue> {
    match o {
        Some(i) => Some(JsonValue::Int(i)),
        None => None,
    }
}

/// The wire form of an optional boolean field.
pub open spec fn opt_bool(o: Option<bool>) -> Option<JsonValue> {
    match o {
        Some(b) => Some(JsonValue::Bool(b)),
        None => None,
    }
}

/// The wire form of an optional string field.
pub open spec fn opt_str(o: Option<String>) -> Option<JsonValue> {
    match o {
        Some(s) => Some(JsonValue::Str(s)),
        None => None,
    }
}

/// The wire form of an optional 32-bit integer field.
pub open spec fn opt_i32(o: Option<i32>) -> Option<JsonValue> {
    match o {
        Some(i) => Some(JsonValue::Int(i as i64)),
        None => None,
    }
}

/// What reading a required integer field gives.
pub open spec fn get_i64_spec(s: Seq<(Key, JsonValue)>, k: Key) -> Result<i64, DecodeError> {
    match lookup(s, k) {
        None => Err(DecodeError::Missing(k)),
        Some(JsonValue::Int(i)) => Ok(i),
        Some(_) => Err(DecodeError::WrongType(k)),
    }
}

/// What reading an optional integer field gives: an absent key and an
/// explicit null both mean the field is unset.
pub open spec fn get_opt_i64_spec(s: Seq<(Key, JsonValue)>, k: Key) -> Result<
    Option<i64>,
    DecodeError,
> {
    match lookup(s, k) {
        None => Ok(None),
        Some(JsonValue::Null) => Ok(None),
        Some(JsonValue::Int(i)) => Ok(Some(i)),
        Some(_) => Err(DecodeError::WrongType(k)),
    }
}

/// What reading a required boolean field gives.
pub open spec fn get_bool_spec(s: Seq<(Key, JsonValue)>, k: Key) -> Result<bool, DecodeError> {
    match lookup(s, k) {
        None => Err(DecodeError::Missing(k)),
        Some(JsonValue::Bool(b)) => Ok(b),
        Some(_) => Err(DecodeError::WrongType(k)),
    }
}

/// What reading a boolean field that defaults to `false` gives.
pub open spec fn get_bool_or_false_spec(s: Seq<(Key, JsonValue)>, k: Key) -> Result<
    bool,
    DecodeError,
> {
    match lookup(s, k) {
        None => Ok(false),
        Some(JsonValue::Bool(b)) => Ok(b),
        Some(_) => Err(DecodeError::WrongType(k)),
    }
}

/// What reading an optional boolean field gives.
pub open spec fn get_opt_bool_spec(s: Seq<(Key, JsonValue)>, k: Key) -> Result<
    Option<bool>,
    DecodeError,
> {
    match lookup(s, k) {
        None => Ok(None),
        Some(JsonValue::Null) => Ok(None),
        Some(JsonValue::Bool(b)) => Ok(Some(b)),
        Some(_) => Err(DecodeError::WrongType(k)),
    }
}

/// What reading a required string field gives.
pub open spec fn get_string_spec(s: Seq<(Key, JsonValue)>, k: Key) -> Result<String, DecodeError> {
    match lookup(s, k) {
        None => Err(DecodeError::Missing(k)),
        Some(JsonValue::Str(t)) => Ok(t),
        Some(_) => Err(DecodeError::WrongType(k)),
    }
}

/// What reading an optional string field gives.
pub open spec fn get_opt_string_spec(s: Seq<(Key, JsonValue)>, k: Key) -> Result<
    Option<String>,
    DecodeError,
> {
    match lookup(s, k) {
        None => Ok(None),
        Some(JsonValue::Null) => Ok(None),
        Some(JsonValue::Str(t)) => Ok(Some(t)),
        Some(_) => Err(DecodeError::WrongType(k)),
    }
}

/// What reading an optional 32-bit integer field gives: a number on the
/// wire that does not fit in 32 bits is rejected, not truncated.
pub open spec fn get_opt_i32_spec(s: Seq<(Key, JsonValue)>, k: Key) -> Result<
    Option<i32>,
    DecodeError,
> {
    match lookup(s, k) {
        None => Ok(None),
        Some(JsonValue::Null) => Ok(None),
        Some(JsonValue::Int(i)) => if i32::MIN <= i && i <= i32::MAX {
            Ok(Some(i as i32))
        } else {
            Err(DecodeError::OutOfRange(k))
        },
        Some(_) => Err(DecodeError::WrongType(k)),
    }
}

/// Exec twin of key equivalence.
pub fn key_eq(a: &Key, b: &Key) -> (r: bool)
    ensures
        r == key_eqv(*a, *b),
{
    match (a, b) {
        (Key::ChatId, Key::ChatId) => true,
        (Key::UserId, Key::UserId) => true,
        (Key::UntilDate, Key::UntilDate) => true,
        (Key::RevokeMessages, Key::RevokeMessages) => true,
        (Key::OnlyIfBanned, Key::OnlyIfBanned) => true,
        (Key::Permissions, Key::Permissions) => true,
        (Key::IsAnonymous, Key::IsAnonymous) => true,
        (Key::CanPostMessages, Key::CanPostMessages) => true,
        (Key::CanEditMessages, Key::CanEditMessages) => true,
        (Key::CanDeleteMessages, Key::CanDeleteMessages) => true,
        (Key::CanRestrictMembers, Key::CanRestrictMembers) => true,
        (Key::CanPromoteMembers, Key::CanPromoteMembers) => true,
        (Key::CanChangeInfo, Key::CanChangeInfo) => true,
        (Key::CanInviteUsers, Key::CanInviteUsers) => true,
        (Key::CanPinMessages, Key::CanPinMessages) => true,
        (Key::CanManageVoiceChats, Key::CanManageVoiceChats) => true,
        (Key::CanManageChat, Key::CanManageChat) => true,
        (Key::CustomTitle, Key::CustomTitle) => true,
        (Key::Title, Key::Title) => true,
        (Key::Description, Key::Description) => true,
        (Key::MessageId, Key::MessageId) => true,
        (Key::DisableNotification, Key::DisableNotification) => true,
        (Key::StickerSetName, Key::StickerSetName) => true,
        (Key::InviteLink, Key::InviteLink) => true,
        (Key::ExpireDate, Key::ExpireDate) => true,
        (Key::MemberLimit, Key::MemberLimit) => true,
        (Key::Photo, Key::Photo) => true,
        (Key::CanSendMessages, Key::CanSendMessages) => true,
        (Key::CanSendMediaMessages, Key::CanSendMediaMessages) => true,
        (Key::CanSendPolls, Key::CanSendPolls) => true,
        (Key::CanSendOtherMessages, Key::CanSendOtherMessages) => true,
        (Key::CanAddWebPagePreviews, Key::CanAddWebPagePreviews) => true,
        (Key::Id, Key::Id) => true,
        (Key::Type, Key::Type) => true,
        (Key::FirstName, Key::FirstName) => true,
        (Key::LastName, Key::LastName) => true,
        (Key::Username, Key::Username) => true,
        (Key::IsBot, Key::IsBot) => true,
        (Key::Status, Key::Status) => true,
        (Key::User, Key::User) => true,
        (Key::Sender, Key::Sender) => true,
        (Key::Chat, Key::Chat) => true,
        (Key::Date, Key::Date) => true,
        (Key::Text, Key::Text) => true,
        (Key::Sticker, Key::Sticker) => true,
        (Key::FileId, Key::FileId) => true,
        (Key::UpdateId, Key::UpdateId) => true,
        (Key::Message, Key::Message) => true,
        (Key::EditedMessage, Key::EditedMessage) => true,
        (Key::CallbackQuery, Key::CallbackQuery) => true,
        (Key::Poll, Key::Poll) => true,
        (Key::Data, Key::Data) => true,
        (Key::Question, Key::Question) => true,
        (Key::IsClosed, Key::IsClosed) => true,
        (Key::Other(x), Key::Other(y)) => x.eq(y),
        _ => false,
    }
}

/// Appends the pair for an optional boolean field, or nothing.
pub fn push_opt_bool(pairs: &mut Vec<(Key, JsonValue)>, k: Key, o: Option<bool>)
    ensures
        final(pairs)@ == opt_push(old(pairs)@, k, opt_bool(o)),
{
    if let Some(b) = o {
        pairs.push((k, JsonValue::Bool(b)));
    }
}

/// Appends the pair for an optional integer field, or nothing.
pub fn push_opt_int(pairs: &mut Vec<(Key, JsonValue)>, k: Key, o: Option<i64>)
    ensures
        final(pairs)@ == opt_push(old(pairs)@, k, opt_int(o)),
{
    if let Some(i) = o {
        pairs.push((k, JsonValue::Int(i)));
    }
}

/// Appends the pair for an optional 32-bit integer field, or nothing.
pub fn push_opt_i32(pairs: &mut Vec<(Key, JsonValue)>, k: Key, o: Option<i32>)
    ensures
        final(pairs)@ == opt_push(old(pairs)@, k, opt_i32(o)),
{
    if let Some(i) = o {
        pairs.push((k, JsonValue::Int(i as i64)));
    }
}

/// Appends the pair for an optional string field, or nothing.
pub fn push_opt_str(pairs: &mut Vec<(Key, JsonValue)>, k: Key, o: &Option<String>)
    ensures
        final(pairs)@ == opt_push(old(pairs)@, k, opt_str(*o)),
{
    if let Some(s) = o {
        pairs.push((k, JsonValue::Str(s.clone())));
    }
}

/// Compares a string against a wire spelling.
pub fn str_eq(a: &String, b: &str) -> (r: bool)
    ensures
        r == (a@ == b@),
{
    let o: String = b.to_owned();
    a.eq(&o)
}

/// Finds the value an object associates with a key, scanning from the
/// end so that the last occurrence wins.
pub fn find<'a>(pairs: &'a Vec<(Key, JsonValue)>, k: &Key) -> (r: Option<&'a JsonValue>)
    ensures
        match r {
            Some(v) => lookup(pairs@, *k) == Some(*v),
            None => lookup(pairs@, *k) is None,
        },
{
    let ghost all = pairs@;
    let mut i: usize = pairs.len();
    assert(pairs@.take(pairs@.len() as int) =~= pairs@);
    while i > 0
        invariant
            i <= pairs@.len(),
            lookup(pairs@, *k) == lookup(pairs@.take(i as int), *k),
        decreases i,
    {
        i = i - 1;
        let pair = &pairs[i];
        proof {
            assert(pairs@.take(i as int + 1).last() == pairs@[i as int]);
            assert(pairs@.take(i as int + 1).drop_last() =~= pairs@.take(i as int));
        }
        if key_eq(&pair.0, k) {
            return Some(&pair.1);
        }
    }
    proof {
        assert(pairs@.take(0) =~= Seq::<(Key, JsonValue)>::empty());
    }
    None
}

/// Reads a required integer field.
pub fn get_i64(pairs: &Vec<(Key, JsonValue)>, k: Key) -> (r: Result<i64, DecodeError>)
    ensures
        r == get_i64_spec(pairs@, k),
{
    match find(pairs, &k) {
        None => Err(DecodeError::Missing(k)),
        Some(JsonValue::Int(i)) => Ok(*i),
        Some(_) => Err(DecodeError::WrongType(k)),
    }
}

/// Reads an optional integer field; absent and null both mean unset.
pub fn get_opt_i64(pairs: &Vec<(Key, JsonValue)>, k: Key) -> (r: Result<Option<i64>, DecodeError>)
    ensures
        r == get_opt_i64_spec(pairs@, k),
{
    match find(pairs, &k) {
        None => Ok(None),
        Some(JsonValue::Null) => Ok(None),
        Some(JsonValue::Int(i)) => Ok(Some(*i)),
        Some(_) => Err(DecodeError::WrongType(k)),
    }
}

/// Reads a required boolean field.
pub fn get_bool(pairs: &Vec<(Key, JsonValue)>, k: Key) -> (r: Result<bool, DecodeError>)
    ensures
        r == get_bool_spec(pairs@, k),
{
    match find(pairs, &k) {
        None => Err(DecodeError::Missing(k)),
        Some(JsonValue::Bool(b)) => Ok(*b),
        Some(_) => Err(DecodeError::WrongType(k)),
    }
}

/// Reads a boolean field that defaults to `false` when absent.
pub fn get_bool_or_false(pairs: &Vec<(Key, JsonValue)>, k: Key) -> (r: Result<bool, DecodeError>)
    ensures
        r == get_bool_or_false_spec(pairs@, k),
{
    match find(pairs, &k) {
        None => Ok(false),
        Some(JsonValue::Bool(b)) => Ok(*b),
        Some(_) => Err(DecodeError::WrongType(k)),
    }
}

/// Reads an optional boolean field; absent and null both mean unset.
pub fn get_opt_bool(pairs: &Vec<(Key, JsonValue)>, k: Key) -> (r: Result<
    Option<bool>,
    DecodeError,
>)
    ensures
        r == get_opt_bool_spec(pairs@, k),
{
    match find(pairs, &k) {
        None => Ok(None),
        Some(JsonValue::Null) => Ok(None),
        Some(JsonValue::Bool(b)) => Ok(Some(*b)),
        Some(_) => Err(DecodeError::WrongType(k)),
    }
}

/// Reads a required string field.
pub fn get_string(pairs: &Vec<(Key, JsonValue)>, k: Key) -> (r: Result<String, DecodeError>)
    ensures
        r == get_string_spec(pairs@, k),
{
    match find(pairs, &k) {
        None => Err(DecodeError::Missing(k)),
        Some(JsonValue::Str(t)) => Ok(t.clone()),
        Some(_) => Err(DecodeError::WrongType(k)),
    }
}

/// Reads an optional string field; absent and null both mean unset.
pub fn get_opt_string(pairs: &Vec<(Key, JsonValue)>, k: Key) -> (r: Result<
    Option<String>,
    DecodeError,
>)
    ensures
        r == get_opt_string_spec(pairs@, k),
{
    match find(pairs, &k) {
        None => Ok(None),
        Some(JsonValue::Null) => Ok(None),
        Some(JsonValue::Str(t)) => Ok(Some(t.clone())),
        Some(_) => Err(DecodeError::WrongType(k)),
    }
}

/// Reads an optional 32-bit integer field, rejecting numbers that do
/// not fit.
pub fn get_opt_i32(pairs: &Vec<(Key, JsonValue)>, k: Key) -> (r: Result<Option<i32>, DecodeError>)
    ensures
        r == get_opt_i32_spec(pairs@, k),
{
    match find(pairs, &k) {
        None => Ok(None),
        Some(JsonValue::Null) => Ok(None),
        Some(JsonValue::Int(i)) => if i32::MIN as i64 <= *i && *i <= i32::MAX as i64 {
            Ok(Some(*i as i32))
        } else {
            Err(DecodeError::OutOfRange(k))
        },
        Some(_) => Err(DecodeError::WrongType(k)),
    }
}

} // verus!
