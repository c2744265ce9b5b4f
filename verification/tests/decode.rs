use segment::decode::DecodeError;
use segment::event::{Alias, Group, Identify, Page, Screen, Track};
use segment::message::{Batch, BatchMessage, Message, StoredMessage};
use segment::user::User;
use segment::wire::WireKey;
use serde_json::Value;
use time::OffsetDateTime;

fn json(text: &str) -> Value {
    serde_json::from_str(text).unwrap()
}

fn extras(text: &str) -> serde_json::Map<String, Value> {
    match json(text) {
        Value::Object(map) => map,
        _ => panic!("not an object"),
    }
}

fn moment() -> OffsetDateTime {
    OffsetDateTime::from_unix_timestamp(1_600_000_000).unwrap()
}

#[test]
fn stored_track_names_its_kind_first() {
    let stored = StoredMessage::Track(Track {
        user: User::UserId { user_id: "foo".to_owned() },
        event: "Foo".to_owned(),
        properties: json("{}"),
        ..Default::default()
    });
    assert_eq!(
        stored.encode().unwrap(),
        r#"{"type":"track","userId":"foo","event":"Foo","properties":{}}"#
    );
}

#[test]
fn stored_batch_names_its_kind_and_the_kinds_of_its_items() {
    let stored = StoredMessage::Batch(Batch {
        batch: vec![BatchMessage::Alias(Alias {
            user: User::UserId { user_id: "foo".to_owned() },
            previous_id: "bar".to_owned(),
            ..Default::default()
        })],
        ..Default::default()
    });
    assert_eq!(
        stored.encode().unwrap(),
        r#"{"type":"batch","batch":[{"type":"alias","userId":"foo","previousId":"bar"}]}"#
    );
}

#[test]
fn timestamp_is_written_as_rfc3339() {
    let message = Message::Alias(Alias {
        user: User::UserId { user_id: "foo".to_owned() },
        previous_id: "bar".to_owned(),
        timestamp: Some(moment()),
        ..Default::default()
    });
    assert_eq!(
        message.encode().unwrap(),
        r#"{"userId":"foo","previousId":"bar","timestamp":"2020-09-13T12:26:40Z"}"#
    );
}

#[test]
fn page_without_name_says_null() {
    let message = Message::Page(Page {
        user: User::UserId { user_id: "foo".to_owned() },
        name: None,
        properties: json("{}"),
        ..Default::default()
    });
    assert_eq!(message.encode().unwrap(), r#"{"userId":"foo","name":null,"properties":{}}"#);
}

#[test]
fn keys_and_texts_are_escaped() {
    let message = Message::Track(Track {
        user: User::UserId { user_id: "a\"b".to_owned() },
        event: "line\nbreak".to_owned(),
        properties: json("{}"),
        extra: extras(r#"{"k\"ey": 1}"#),
        ..Default::default()
    });
    assert_eq!(
        message.encode().unwrap(),
        r#"{"userId":"a\"b","event":"line\nbreak","properties":{},"k\"ey":1}"#
    );
}

#[test]
fn context_and_integrations_follow_the_timestamp() {
    let message = Message::Identify(Identify {
        user: User::AnonymousId { anonymous_id: "anon".to_owned() },
        traits: json(r#"{"plan":"pro"}"#),
        timestamp: Some(moment()),
        context: Some(json(r#"{"ip":"10.0.0.1"}"#)),
        integrations: Some(json(r#"{"All":true}"#)),
        extra: extras(r#"{"messageId":"m-1","a":[1,2]}"#),
    });
    assert_eq!(
        message.encode().unwrap(),
        r#"{"anonymousId":"anon","traits":{"plan":"pro"},"timestamp":"2020-09-13T12:26:40Z","context":{"ip":"10.0.0.1"},"integrations":{"All":true},"a":[1,2],"messageId":"m-1"}"#
    );
}

fn every_kind() -> Vec<StoredMessage> {
    let both = User::Both { user_id: "u".to_owned(), anonymous_id: "a".to_owned() };
    let track = Track {
        user: both.clone(),
        event: "Played".to_owned(),
        properties: json(r#"{"n":1.5,"deep":{"x":[null,true]}}"#),
        timestamp: Some(moment()),
        context: Some(json(r#"{"ip":"10.0.0.1"}"#)),
        integrations: Some(json(r#"{"All":false}"#)),
        extra: extras(r#"{"messageId":"m-1"}"#),
    };
    vec![
        StoredMessage::Identify(Identify {
            user: User::UserId { user_id: "u".to_owned() },
            traits: json(r#"{"email":"u@example.com"}"#),
            context: Some(Value::Null),
            ..Default::default()
        }),
        StoredMessage::Track(track.clone()),
        StoredMessage::Page(Page {
            user: User::AnonymousId { anonymous_id: "a".to_owned() },
            name: None,
            properties: json("{}"),
            ..Default::default()
        }),
        StoredMessage::Page(Page {
            user: both.clone(),
            name: Some("Home".to_owned()),
            properties: json("[]"),
            ..Default::default()
        }),
        StoredMessage::Screen(Screen {
            user: both.clone(),
            name: "Main".to_owned(),
            properties: json("3"),
            ..Default::default()
        }),
        StoredMessage::Group(Group {
            user: both.clone(),
            group_id: "g".to_owned(),
            traits: json(r#"{"size":10}"#),
            ..Default::default()
        }),
        StoredMessage::Alias(Alias {
            user: both,
            previous_id: "old".to_owned(),
            ..Default::default()
        }),
        StoredMessage::Batch(Batch {
            batch: vec![
                BatchMessage::Track(track),
                BatchMessage::Alias(Alias {
                    user: User::UserId { user_id: "u".to_owned() },
                    previous_id: "old".to_owned(),
                    ..Default::default()
                }),
            ],
            context: Some(json(r#"{"library":"x"}"#)),
            integrations: None,
            extra: extras(r#"{"sentAt":"now"}"#),
        }),
    ]
}

#[test]
fn decoding_gives_back_what_was_encoded() {
    for stored in every_kind() {
        let text = stored.encode().unwrap();
        let decoded = StoredMessage::decode(&text).unwrap();
        assert_eq!(decoded, stored);
        assert_eq!(Message::from(decoded.clone()).encode().unwrap(), {
            let message: Message = stored.clone().into();
            message.encode().unwrap()
        });
    }
}

#[test]
fn conversion_keeps_kind_and_fields() {
    let track = Track {
        user: User::UserId { user_id: "u".to_owned() },
        event: "Played".to_owned(),
        properties: json("{}"),
        ..Default::default()
    };
    assert_eq!(Message::from(StoredMessage::Track(track.clone())), Message::Track(track.clone()));
    assert_eq!(Message::from(track.clone()), Message::Track(track.clone()));
    assert_eq!(BatchMessage::from(track.clone()), BatchMessage::Track(track));
    let batch = Batch::default();
    assert_eq!(Message::from(StoredMessage::Batch(batch.clone())), Message::Batch(batch));
}

#[test]
fn unknown_kind_is_named_in_the_error() {
    assert_eq!(
        StoredMessage::decode(r#"{"type":"unknown_kind","userId":"foo"}"#),
        Err(DecodeError::UnknownKind("unknown_kind".to_owned()))
    );
}

#[test]
fn batch_inside_batch_is_refused() {
    assert_eq!(
        StoredMessage::decode(r#"{"type":"batch","batch":[{"type":"batch","batch":[]}]}"#),
        Err(DecodeError::UnknownKind("batch".to_owned()))
    );
}

#[test]
fn text_that_is_not_json_is_refused() {
    assert_eq!(StoredMessage::decode("{"), Err(DecodeError::Syntax));
    assert_eq!(StoredMessage::decode(""), Err(DecodeError::Syntax));
}

#[test]
fn value_that_is_not_an_object_is_refused() {
    assert_eq!(StoredMessage::decode("[1]"), Err(DecodeError::NotAnObject));
    assert_eq!(
        StoredMessage::decode(r#"{"type":"batch","batch":[7]}"#),
        Err(DecodeError::NotAnObject)
    );
}

#[test]
fn missing_kind_is_refused() {
    assert_eq!(
        StoredMessage::decode(r#"{"userId":"foo","previousId":"bar"}"#),
        Err(DecodeError::MissingField(WireKey::Type))
    );
    assert_eq!(
        StoredMessage::decode(r#"{"type":7,"userId":"foo"}"#),
        Err(DecodeError::WrongType(WireKey::Type))
    );
}

#[test]
fn missing_required_field_is_refused() {
    assert_eq!(
        StoredMessage::decode(r#"{"type":"track","userId":"foo","properties":{}}"#),
        Err(DecodeError::MissingField(WireKey::Event))
    );
    assert_eq!(
        StoredMessage::decode(r#"{"type":"track","userId":"foo","event":"Foo"}"#),
        Err(DecodeError::MissingField(WireKey::Properties))
    );
    assert_eq!(
        StoredMessage::decode(r#"{"type":"identify","userId":"foo"}"#),
        Err(DecodeError::MissingField(WireKey::Traits))
    );
    assert_eq!(
        StoredMessage::decode(r#"{"type":"screen","userId":"foo","properties":{}}"#),
        Err(DecodeError::MissingField(WireKey::Name))
    );
    assert_eq!(
        StoredMessage::decode(r#"{"type":"group","userId":"foo","traits":{}}"#),
        Err(DecodeError::MissingField(WireKey::GroupId))
    );
    assert_eq!(
        StoredMessage::decode(r#"{"type":"alias","userId":"foo"}"#),
        Err(DecodeError::MissingField(WireKey::PreviousId))
    );
    assert_eq!(
        StoredMessage::decode(r#"{"type":"batch"}"#),
        Err(DecodeError::MissingField(WireKey::Batch))
    );
}

#[test]
fn field_of_the_wrong_type_is_refused() {
    assert_eq!(
        StoredMessage::decode(r#"{"type":"alias","userId":1,"previousId":"bar"}"#),
        Err(DecodeError::WrongType(WireKey::UserId))
    );
    assert_eq!(
        StoredMessage::decode(r#"{"type":"alias","anonymousId":[],"previousId":"bar"}"#),
        Err(DecodeError::WrongType(WireKey::AnonymousId))
    );
    assert_eq!(
        StoredMessage::decode(r#"{"type":"alias","userId":"foo","previousId":null}"#),
        Err(DecodeError::WrongType(WireKey::PreviousId))
    );
    assert_eq!(
        StoredMessage::decode(r#"{"type":"alias","userId":"foo","previousId":"b","timestamp":5}"#),
        Err(DecodeError::WrongType(WireKey::Timestamp))
    );
    assert_eq!(
        StoredMessage::decode(r#"{"type":"batch","batch":{}}"#),
        Err(DecodeError::WrongType(WireKey::Batch))
    );
}

#[test]
fn event_without_identity_is_refused() {
    assert_eq!(
        StoredMessage::decode(r#"{"type":"alias","previousId":"bar"}"#),
        Err(DecodeError::MissingIdentity)
    );
}

#[test]
fn timestamp_that_is_not_rfc3339_is_refused() {
    assert_eq!(
        StoredMessage::decode(
            r#"{"type":"alias","userId":"foo","previousId":"bar","timestamp":"yesterday"}"#
        ),
        Err(DecodeError::BadTimestamp)
    );
}

#[test]
fn first_unreadable_item_decides_the_error() {
    assert_eq!(
        StoredMessage::decode(
            r#"{"type":"batch","batch":[{"type":"alias","userId":"u","previousId":"p"},{"type":"alias","userId":"u"},{"type":"nope"}]}"#
        ),
        Err(DecodeError::MissingField(WireKey::PreviousId))
    );
}

#[test]
fn page_name_may_be_absent_or_null() {
    let expected = StoredMessage::Page(Page {
        user: User::UserId { user_id: "foo".to_owned() },
        name: None,
        properties: json("{}"),
        ..Default::default()
    });
    assert_eq!(
        StoredMessage::decode(r#"{"type":"page","userId":"foo","properties":{}}"#),
        Ok(expected.clone())
    );
    assert_eq!(
        StoredMessage::decode(r#"{"type":"page","userId":"foo","name":null,"properties":{}}"#),
        Ok(expected)
    );
}

#[test]
fn unknown_fields_become_extra_fields() {
    let decoded = StoredMessage::decode(
        r#"{"userId":"foo","zeta":1,"type":"alias","alpha":{"b":2},"previousId":"bar","timestamp":"2020-09-13T12:26:40Z"}"#,
    )
    .unwrap();
    assert_eq!(
        decoded,
        StoredMessage::Alias(Alias {
            user: User::UserId { user_id: "foo".to_owned() },
            previous_id: "bar".to_owned(),
            timestamp: Some(moment()),
            context: None,
            integrations: None,
            extra: extras(r#"{"alpha":{"b":2},"zeta":1}"#),
        })
    );
}

#[test]
fn both_identifiers_decode_to_both() {
    let decoded = StoredMessage::decode(
        r#"{"type":"alias","userId":"u","anonymousId":"a","previousId":"bar"}"#,
    )
    .unwrap();
    match decoded {
        StoredMessage::Alias(alias) => {
            assert_eq!(
                alias.user,
                User::Both { user_id: "u".to_owned(), anonymous_id: "a".to_owned() }
            );
            assert!(alias.extra.is_empty());
        }
        other => panic!("decoded to {:?}", other),
    }
}

#[test]
fn from_value_reads_a_parsed_object() {
    let decoded =
        StoredMessage::from_value(json(r#"{"type":"group","userId":"u","groupId":"g","traits":{}}"#));
    assert_eq!(
        decoded,
        Ok(StoredMessage::Group(Group {
            user: User::UserId { user_id: "u".to_owned() },
            group_id: "g".to_owned(),
            traits: json("{}"),
            ..Default::default()
        }))
    );
}

#[test]
fn stored_form_says_its_kind_and_transport_form_does_not() {
    for stored in every_kind() {
        let kind = stored.kind();
        let stored_text = stored.encode().unwrap();
        let prefix = format!("{{\"type\":\"{}\",", kind.name());
        assert!(stored_text.starts_with(&prefix), "{}", stored_text);
        let sent_text = Message::from(stored).encode().unwrap();
        assert_eq!(stored_text, format!("{}{}", prefix, &sent_text[1..]));
        let sent = json(&sent_text);
        assert!(sent.as_object().unwrap().get("type").is_none());
        let kept = json(&stored_text);
        assert_eq!(kept.as_object().unwrap().get("type"), Some(&Value::String(kind.name().to_owned())));
    }
}
