use segment::decode::DecodeError;
use segment::event::{Alias, Group, Identify, Page, Screen, Track};
use segment::message::{Batch, BatchMessage, Message};
use segment::user::User;
use serde_json::Value;
use time::OffsetDateTime;

fn json(text: &str) -> Value {
    serde_json::from_str(text).unwrap()
}

fn extras(text: &str) -> serde_json::Map<String, Value> {
    match json(text) {
        Value::Object(map) => map,
        _ => panic!("not an object"),
    }
}

fn user(id: &str) -> User {
    User::UserId { user_id: id.to_owned() }
}

#[test]
fn identify_comes_back_from_transport_form() {
    let message = Message::Identify(Identify {
        user: User::Both { user_id: "u".to_owned(), anonymous_id: "a".to_owned() },
        traits: json(r#"{"plan":"pro"}"#),
        timestamp: Some(OffsetDateTime::from_unix_timestamp(1_600_000_000).unwrap()),
        context: Some(json("{}")),
        integrations: Some(json(r#"{"All":true}"#)),
        extra: extras(r#"{"messageId":"m-1"}"#),
    });
    let text = message.encode().unwrap();
    assert_eq!(Message::decode(&text), Ok(message));
}

#[test]
fn track_page_alias_and_batch_come_back_from_transport_form() {
    let messages = vec![
        Message::Track(Track {
            user: user("u"),
            event: "Played".to_owned(),
            properties: json(r#"{"n":1}"#),
            ..Default::default()
        }),
        Message::Page(Page {
            user: user("u"),
            name: Some("Home".to_owned()),
            properties: json("{}"),
            ..Default::default()
        }),
        Message::Page(Page {
            user: user("u"),
            name: None,
            properties: json("{}"),
            ..Default::default()
        }),
        Message::Alias(Alias {
            user: user("u"),
            previous_id: "old".to_owned(),
            ..Default::default()
        }),
        Message::Batch(Batch {
            batch: vec![BatchMessage::Screen(Screen {
                user: user("u"),
                name: "Main".to_owned(),
                properties: json("{}"),
                ..Default::default()
            })],
            context: Some(json(r#"{"library":"x"}"#)),
            ..Default::default()
        }),
    ];
    for message in messages {
        let text = message.encode().unwrap();
        assert_eq!(Message::decode(&text), Ok(message));
    }
}

#[test]
fn screen_in_transport_form_reads_as_page() {
    let screen = Message::Screen(Screen {
        user: user("u"),
        name: "Main".to_owned(),
        properties: json("{}"),
        ..Default::default()
    });
    assert_eq!(
        Message::decode(&screen.encode().unwrap()),
        Ok(Message::Page(Page {
            user: user("u"),
            name: Some("Main".to_owned()),
            properties: json("{}"),
            ..Default::default()
        }))
    );
}

#[test]
fn group_in_transport_form_reads_as_identify() {
    let group = Message::Group(Group {
        user: user("u"),
        group_id: "g".to_owned(),
        traits: json("{}"),
        ..Default::default()
    });
    assert_eq!(
        Message::decode(&group.encode().unwrap()),
        Ok(Message::Identify(Identify {
            user: user("u"),
            traits: json("{}"),
            extra: extras(r#"{"groupId":"g"}"#),
            ..Default::default()
        }))
    );
}

#[test]
fn kind_in_a_transport_object_is_an_extra_field() {
    assert_eq!(
        Message::decode(r#"{"type":"alias","userId":"u","previousId":"old"}"#),
        Ok(Message::Alias(Alias {
            user: user("u"),
            previous_id: "old".to_owned(),
            extra: extras(r#"{"type":"alias"}"#),
            ..Default::default()
        }))
    );
}

#[test]
fn object_of_no_kind_is_unrecognized() {
    assert_eq!(Message::decode(r#"{"userId":"u"}"#), Err(DecodeError::Unrecognized));
    assert_eq!(Message::decode(r#"{"traits":{}}"#), Err(DecodeError::Unrecognized));
    assert_eq!(Message::decode("{}"), Err(DecodeError::Unrecognized));
    assert_eq!(Message::decode(r#"{"batch":[{"userId":"u"}]}"#), Err(DecodeError::Unrecognized));
}

#[test]
fn transport_text_must_be_a_json_object() {
    assert_eq!(Message::decode("nope"), Err(DecodeError::Syntax));
    assert_eq!(Message::decode("\"text\""), Err(DecodeError::NotAnObject));
    assert_eq!(Message::from_value(json("[]")), Err(DecodeError::NotAnObject));
}
