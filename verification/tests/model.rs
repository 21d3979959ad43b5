use telebot_types::json::{DecodeError, JsonValue, Key};
use telebot_types::chat::{Chat, ChatPermissions, ChatType, GroupChat, PrivateChat};
use telebot_types::member::{ChatMember, MemberStatus};
use telebot_types::message::{Message, MessageContent};
use telebot_types::update::{CallbackQuery, Poll, Update, UpdateContent};
use telebot_types::user::User;

fn sample_user() -> User {
    User {
        id: 99,
        is_bot: false,
        first_name: "Grace".to_owned(),
        last_name: Some("Hopper".to_owned()),
        username: None,
    }
}

fn private_chat_json(id: i64) -> JsonValue {
    JsonValue::Object(vec![
        (Key::Id, JsonValue::Int(id)),
        (Key::Type, JsonValue::Str("private".to_owned())),
        (Key::FirstName, JsonValue::Str("Ada".to_owned())),
    ])
}

#[test]
fn chat_type_private_yields_private_variant() {
    let c = Chat::from_json(&private_chat_json(7)).unwrap();
    assert_eq!(c.kind(), ChatType::Private);
    assert_eq!(
        c,
        Chat::Private(PrivateChat {
            id: 7,
            first_name: Some("Ada".to_owned()),
            last_name: None,
            username: None,
        })
    );
}

#[test]
fn chat_unknown_type_is_rejected() {
    let v = JsonValue::Object(vec![
        (Key::Id, JsonValue::Int(7)),
        (Key::Type, JsonValue::Str("secret".to_owned())),
    ]);
    assert_eq!(Chat::from_json(&v), Err(DecodeError::UnknownTag("secret".to_owned())));
}

#[test]
fn chat_group_round_trip() {
    let g = Chat::Group(GroupChat {
        id: -100500,
        title: "reading club".to_owned(),
        permissions: Some(ChatPermissions {
            can_send_messages: Some(true),
            can_send_media_messages: Some(false),
            can_send_polls: None,
            can_send_other_messages: None,
            can_add_web_page_previews: None,
            can_change_info: None,
            can_invite_users: None,
            can_pin_messages: Some(true),
        }),
        invite_link: Some("https://t.me/joinchat/xyz".to_owned()),
    });
    assert_eq!(Chat::from_json(&g.to_json()).unwrap(), g);
    assert_eq!(g.get_id(), -100500);
}

#[test]
fn chat_supergroup_and_channel_round_trip() {
    let s = Chat::SuperGroup(telebot_types::chat::SuperGroupChat {
        id: 1,
        title: "big".to_owned(),
        username: Some("big_group".to_owned()),
        permissions: None,
        invite_link: None,
    });
    assert_eq!(Chat::from_json(&s.to_json()).unwrap(), s);
    let c = Chat::Channel(telebot_types::chat::ChannelChat {
        id: 2,
        title: "news".to_owned(),
        username: None,
        invite_link: None,
    });
    assert_eq!(Chat::from_json(&c.to_json()).unwrap(), c);
}

#[test]
fn permissions_absent_flags_emit_no_keys() {
    let p = ChatPermissions {
        can_send_messages: None,
        can_send_media_messages: None,
        can_send_polls: None,
        can_send_other_messages: None,
        can_add_web_page_previews: None,
        can_change_info: None,
        can_invite_users: None,
        can_pin_messages: None,
    };
    match p.to_json() {
        JsonValue::Object(pairs) => assert!(pairs.is_empty()),
        _ => panic!("not an object"),
    }
}

#[test]
fn user_round_trip() {
    let u = sample_user();
    assert_eq!(User::from_json(&u.to_json()).unwrap(), u);
}

#[test]
fn message_text_round_trip() {
    let m = Message {
        message_id: 10,
        from: Some(sample_user()),
        date: 1600000000,
        chat: Chat::Private(PrivateChat {
            id: 7,
            first_name: None,
            last_name: None,
            username: None,
        }),
        content: MessageContent::Text { text: "hello".to_owned() },
    };
    assert_eq!(Message::from_json(&m.to_json()).unwrap(), m);
}

#[test]
fn message_unknown_content_is_catch_all() {
    let v = JsonValue::Object(vec![
        (Key::MessageId, JsonValue::Int(10)),
        (Key::Date, JsonValue::Int(1600000000)),
        (Key::Chat, private_chat_json(7)),
        (Key::Other("voice".to_owned()), JsonValue::Object(vec![])),
    ]);
    let m = Message::from_json(&v).unwrap();
    assert_eq!(m.content, MessageContent::Unrecognized);
}

#[test]
fn message_sticker_round_trip() {
    let m = Message {
        message_id: 11,
        from: None,
        date: 1600000001,
        chat: Chat::Private(PrivateChat {
            id: 7,
            first_name: None,
            last_name: None,
            username: None,
        }),
        content: MessageContent::Sticker { file_id: "CAACAg".to_owned() },
    };
    assert_eq!(Message::from_json(&m.to_json()).unwrap(), m);
}

#[test]
fn update_with_no_discriminating_field_fails() {
    let v = JsonValue::Object(vec![(Key::UpdateId, JsonValue::Int(1))]);
    assert_eq!(Update::from_json(&v), Err(DecodeError::NoVariant));
}

#[test]
fn update_with_null_discriminating_field_still_fails() {
    let v = JsonValue::Object(vec![
        (Key::UpdateId, JsonValue::Int(1)),
        (Key::Message, JsonValue::Null),
    ]);
    assert_eq!(Update::from_json(&v), Err(DecodeError::NoVariant));
}

#[test]
fn update_with_two_discriminating_fields_fails() {
    let poll = JsonValue::Object(vec![
        (Key::Id, JsonValue::Str("p1".to_owned())),
        (Key::Question, JsonValue::Str("tea or coffee?".to_owned())),
        (Key::IsClosed, JsonValue::Bool(false)),
    ]);
    let query = JsonValue::Object(vec![
        (Key::Id, JsonValue::Str("q1".to_owned())),
        (Key::Sender, sample_user().to_json()),
    ]);
    let v = JsonValue::Object(vec![
        (Key::UpdateId, JsonValue::Int(1)),
        (Key::Poll, poll),
        (Key::CallbackQuery, query),
    ]);
    assert_eq!(Update::from_json(&v), Err(DecodeError::Ambiguous));
}

#[test]
fn update_with_exactly_one_field_yields_that_variant() {
    let poll = JsonValue::Object(vec![
        (Key::Id, JsonValue::Str("p1".to_owned())),
        (Key::Question, JsonValue::Str("tea or coffee?".to_owned())),
        (Key::IsClosed, JsonValue::Bool(true)),
    ]);
    let v = JsonValue::Object(vec![
        (Key::UpdateId, JsonValue::Int(33)),
        (Key::Poll, poll),
    ]);
    let u = Update::from_json(&v).unwrap();
    assert_eq!(
        u,
        Update {
            update_id: 33,
            content: UpdateContent::Poll(Poll {
                id: "p1".to_owned(),
                question: "tea or coffee?".to_owned(),
                is_closed: true,
            }),
        }
    );
}

#[test]
fn update_message_round_trip() {
    let u = Update {
        update_id: 5,
        content: UpdateContent::Message(Message {
            message_id: 10,
            from: Some(sample_user()),
            date: 1600000000,
            chat: Chat::Private(PrivateChat {
                id: 7,
                first_name: None,
                last_name: None,
                username: None,
            }),
            content: MessageContent::Text { text: "hi".to_owned() },
        }),
    };
    assert_eq!(Update::from_json(&u.to_json()).unwrap(), u);
}

#[test]
fn update_callback_query_round_trip() {
    let u = Update {
        update_id: 6,
        content: UpdateContent::CallbackQuery(CallbackQuery {
            id: "q9".to_owned(),
            from: sample_user(),
            data: Some("pressed".to_owned()),
        }),
    };
    assert_eq!(Update::from_json(&u.to_json()).unwrap(), u);
}

#[test]
fn member_administrator_round_trip() {
    let m = ChatMember {
        user: sample_user(),
        status: MemberStatus::Administrator {
            custom_title: Some("ops".to_owned()),
            can_change_info: Some(true),
            can_delete_messages: None,
            can_restrict_members: Some(false),
            can_promote_members: None,
        },
    };
    assert_eq!(ChatMember::from_json(&m.to_json()).unwrap(), m);
}

#[test]
fn member_kicked_round_trip() {
    let m = ChatMember {
        user: sample_user(),
        status: MemberStatus::Kicked { until_date: 1700000000 },
    };
    assert_eq!(ChatMember::from_json(&m.to_json()).unwrap(), m);
}

#[test]
fn member_unknown_status_is_rejected() {
    let v = JsonValue::Object(vec![
        (Key::User, sample_user().to_json()),
        (Key::Status, JsonValue::Str("lurker".to_owned())),
    ]);
    assert_eq!(ChatMember::from_json(&v), Err(DecodeError::UnknownTag("lurker".to_owned())));
}

#[test]
fn key_text_spells_wire_names() {
    assert_eq!(Key::ChatId.text(), "chat_id");
    assert_eq!(Key::Sender.text(), "from");
    assert_eq!(Key::Type.text(), "type");
    assert_eq!(Key::Other("voice".to_owned()).text(), "voice");
}
