use telebot_types::json::{DecodeError, EncodeError, JsonValue, Key};
use telebot_types::chat::{Chat, ChatPermissions, PrivateChat};
use telebot_types::requests::{
    CreateChatInviteLink, DeleteChatPhoto, EditChatInviteLink, GetChat, GetChatMember, InputFile,
    KickChatMember, LeaveChat, PinChatMessage, PromoteChatMember, RestrictChatMember,
    SetChatDescription, SetChatPhoto, SetChatTitle, UnbanChatMember,
};

fn keys_of(v: &JsonValue) -> Vec<Key> {
    match v {
        JsonValue::Object(pairs) => pairs.iter().map(|(k, _)| k.clone()).collect(),
        _ => panic!("not an object"),
    }
}

#[test]
fn promote_new_has_only_ids_set() {
    let p = PromoteChatMember::new(111, 222);
    assert_eq!(p.chat_id, 111);
    assert_eq!(p.user_id, 222);
    assert_eq!(p.is_anonymous, None);
    assert_eq!(p.can_post_messages, None);
    assert_eq!(p.can_edit_messages, None);
    assert_eq!(p.can_delete_messages, None);
    assert_eq!(p.can_restrict_members, None);
    assert_eq!(p.can_promote_members, None);
    assert_eq!(p.can_change_info, None);
    assert_eq!(p.can_invite_users, None);
    assert_eq!(p.can_pin_messages, None);
    assert_eq!(p.can_manage_voice_chats, None);
    assert_eq!(p.can_manage_chat, None);
}

#[test]
fn promote_new_serializes_to_ids_only() {
    let p = PromoteChatMember::new(111, 222);
    let v = p.to_json();
    assert_eq!(keys_of(&v), vec![Key::ChatId, Key::UserId]);
    match &v {
        JsonValue::Object(pairs) => {
            assert_eq!(pairs[0], (Key::ChatId, JsonValue::Int(111)));
            assert_eq!(pairs[1], (Key::UserId, JsonValue::Int(222)));
        }
        _ => panic!("not an object"),
    }
}

#[test]
fn promote_round_trip_mixed() {
    let mut p = PromoteChatMember::new(7, 8);
    p.can_edit_messages = Some(true);
    p.can_pin_messages = Some(false);
    let decoded = PromoteChatMember::from_json(&p.to_json()).unwrap();
    assert_eq!(decoded, p);
}

#[test]
fn kick_round_trip_all_present() {
    let k = KickChatMember {
        chat_id: -100123,
        user_id: 42,
        until_date: Some(1700000000),
        revoke_messages: Some(true),
    };
    assert_eq!(KickChatMember::from_json(&k.to_json()).unwrap(), k);
}

#[test]
fn kick_round_trip_all_absent() {
    let k = KickChatMember { chat_id: 5, user_id: 6, until_date: None, revoke_messages: None };
    let v = k.to_json();
    assert_eq!(keys_of(&v), vec![Key::ChatId, Key::UserId]);
    assert_eq!(KickChatMember::from_json(&v).unwrap(), k);
}

#[test]
fn unban_missing_flag_defaults_to_false() {
    let v = JsonValue::Object(vec![
        (Key::ChatId, JsonValue::Int(1)),
        (Key::UserId, JsonValue::Int(2)),
    ]);
    let u = UnbanChatMember::from_json(&v).unwrap();
    assert_eq!(u, UnbanChatMember { chat_id: 1, user_id: 2, only_if_banned: false });
}

#[test]
fn unban_round_trip() {
    let u = UnbanChatMember { chat_id: 1, user_id: 2, only_if_banned: true };
    assert_eq!(UnbanChatMember::from_json(&u.to_json()).unwrap(), u);
}

#[test]
fn restrict_round_trip() {
    let r = RestrictChatMember {
        chat_id: 9,
        user_id: 10,
        permissions: ChatPermissions {
            can_send_messages: Some(false),
            can_send_media_messages: None,
            can_send_polls: None,
            can_send_other_messages: None,
            can_add_web_page_previews: None,
            can_change_info: None,
            can_invite_users: Some(true),
            can_pin_messages: None,
        },
        until_date: Some(1800000000),
    };
    assert_eq!(RestrictChatMember::from_json(&r.to_json()).unwrap(), r);
}

#[test]
fn description_absent_emits_no_key_and_no_null() {
    let s = SetChatDescription { chat_id: 3, description: None };
    let v = s.to_json();
    assert_eq!(keys_of(&v), vec![Key::ChatId]);
    assert_eq!(SetChatDescription::from_json(&v).unwrap(), s);
}

#[test]
fn description_null_decodes_to_unset() {
    let v = JsonValue::Object(vec![
        (Key::ChatId, JsonValue::Int(3)),
        (Key::Description, JsonValue::Null),
    ]);
    let s = SetChatDescription::from_json(&v).unwrap();
    assert_eq!(s, SetChatDescription { chat_id: 3, description: None });
}

#[test]
fn set_chat_title_round_trip() {
    let s = SetChatTitle { chat_id: 12, title: "weekly news".to_owned() };
    assert_eq!(SetChatTitle::from_json(&s.to_json()).unwrap(), s);
}

#[test]
fn pin_chat_message_round_trip() {
    let s = PinChatMessage { chat_id: 12, message_id: 77, disable_notification: true };
    assert_eq!(PinChatMessage::from_json(&s.to_json()).unwrap(), s);
}

#[test]
fn create_invite_link_round_trip() {
    let c = CreateChatInviteLink { chat_id: 4, expire_date: None, member_limit: Some(99999) };
    let v = c.to_json();
    assert_eq!(keys_of(&v), vec![Key::ChatId, Key::MemberLimit]);
    assert_eq!(CreateChatInviteLink::from_json(&v).unwrap(), c);
}

#[test]
fn member_limit_too_large_is_rejected() {
    let v = JsonValue::Object(vec![
        (Key::ChatId, JsonValue::Int(4)),
        (Key::MemberLimit, JsonValue::Int(5_000_000_000)),
    ]);
    assert_eq!(
        CreateChatInviteLink::from_json(&v),
        Err(DecodeError::OutOfRange(Key::MemberLimit))
    );
}

#[test]
fn edit_invite_link_round_trip() {
    let e = EditChatInviteLink {
        chat_id: 4,
        invite_link: "https://t.me/joinchat/abc".to_owned(),
        expire_date: Some(1900000000),
        member_limit: None,
    };
    assert_eq!(EditChatInviteLink::from_json(&e.to_json()).unwrap(), e);
}

#[test]
fn missing_required_field_is_reported() {
    let v = JsonValue::Object(vec![(Key::UserId, JsonValue::Int(2))]);
    assert_eq!(GetChatMember::from_json(&v), Err(DecodeError::Missing(Key::ChatId)));
}

#[test]
fn wrong_type_is_reported() {
    let v = JsonValue::Object(vec![(Key::ChatId, JsonValue::Str("abc".to_owned()))]);
    assert_eq!(GetChat::from_json(&v), Err(DecodeError::WrongType(Key::ChatId)));
}

#[test]
fn non_object_is_reported() {
    assert_eq!(LeaveChat::from_json(&JsonValue::Int(3)), Err(DecodeError::NotObject));
}

#[test]
fn set_chat_photo_file_id_round_trip() {
    let s = SetChatPhoto { chat_id: 8, photo: InputFile::FileId("AgACAgIAAx".to_owned()) };
    let v = s.to_json().unwrap();
    assert_eq!(keys_of(&v), vec![Key::ChatId, Key::Photo]);
    assert_eq!(SetChatPhoto::from_json(&v).unwrap(), s);
}

#[test]
fn set_chat_photo_path_needs_multipart() {
    let s = SetChatPhoto { chat_id: 8, photo: InputFile::Path("/tmp/photo.png".to_owned()) };
    assert_eq!(s.to_json(), Err(EncodeError::RequiresMultipart));
}

#[test]
fn chat_converts_to_id_only_requests() {
    let chat = Chat::Private(PrivateChat {
        id: 4242,
        first_name: Some("Ada".to_owned()),
        last_name: None,
        username: None,
    });
    let g: GetChat = chat.clone().into();
    assert_eq!(g, GetChat { chat_id: 4242 });
    let d: DeleteChatPhoto = chat.clone().into();
    assert_eq!(d, DeleteChatPhoto { chat_id: 4242 });
    let l: LeaveChat = chat.into();
    assert_eq!(l, LeaveChat { chat_id: 4242 });
}

#[test]
fn duplicate_key_last_occurrence_wins() {
    let v = JsonValue::Object(vec![
        (Key::ChatId, JsonValue::Int(1)),
        (Key::ChatId, JsonValue::Int(2)),
    ]);
    assert_eq!(GetChat::from_json(&v).unwrap(), GetChat { chat_id: 2 });
}
