use segment::message::{
    Alias, Batch, BatchMessage, Group, Identify, Message, Page, Screen, Track, User,
};
use serde_json::Value;

fn text(s: &str) -> Value {
    Value::String(s.to_owned())
}

fn object(members: Vec<(&str, Value)>) -> Value {
    let mut map = serde_json::Map::new();
    for (key, value) in members {
        map.insert(key.to_owned(), value);
    }
    Value::Object(map)
}

fn foo_bar_baz_quux() -> Value {
    object(vec![("foo", text("bar")), ("baz", text("quux"))])
}

#[test]
fn serialize() {
    assert_eq!(
        Message::Identify(Identify {
            user: User::UserId { user_id: "foo".to_owned() },
            traits: foo_bar_baz_quux(),
            extra: [("messageId".to_owned(), text("123"))].iter().cloned().collect(),
            ..Default::default()
        })
        .encode()
        .unwrap(),
        r#"{"userId":"foo","traits":{"baz":"quux","foo":"bar"},"messageId":"123"}"#.to_owned(),
    );

    assert_eq!(
        Message::Track(Track {
            user: User::AnonymousId { anonymous_id: "foo".to_owned() },
            event: "Foo".to_owned(),
            properties: foo_bar_baz_quux(),
            ..Default::default()
        })
        .encode()
        .unwrap(),
        r#"{"anonymousId":"foo","event":"Foo","properties":{"baz":"quux","foo":"bar"}}"#
            .to_owned(),
    );

    assert_eq!(
        Message::Page(Page {
            user: User::Both { user_id: "foo".to_owned(), anonymous_id: "bar".to_owned() },
            name: Some("Foo".to_owned()),
            properties: foo_bar_baz_quux(),
            ..Default::default()
        })
        .encode()
        .unwrap(),
        r#"{"userId":"foo","anonymousId":"bar","name":"Foo","properties":{"baz":"quux","foo":"bar"}}"#
            .to_owned(),
    );

    assert_eq!(
        Message::Screen(Screen {
            user: User::Both { user_id: "foo".to_owned(), anonymous_id: "bar".to_owned() },
            name: "Foo".to_owned(),
            properties: foo_bar_baz_quux(),
            ..Default::default()
        })
        .encode()
        .unwrap(),
        r#"{"userId":"foo","anonymousId":"bar","name":"Foo","properties":{"baz":"quux","foo":"bar"}}"#
            .to_owned(),
    );

    assert_eq!(
        Message::Group(Group {
            user: User::UserId { user_id: "foo".to_owned() },
            group_id: "bar".to_owned(),
            traits: foo_bar_baz_quux(),
            ..Default::default()
        })
        .encode()
        .unwrap(),
        r#"{"userId":"foo","groupId":"bar","traits":{"baz":"quux","foo":"bar"}}"#.to_owned(),
    );

    assert_eq!(
        Message::Alias(Alias {
            user: User::UserId { user_id: "foo".to_owned() },
            previous_id: "bar".to_owned(),
            ..Default::default()
        })
        .encode()
        .unwrap(),
        r#"{"userId":"foo","previousId":"bar"}"#.to_owned(),
    );

    assert_eq!(
        Message::Batch(Batch {
            batch: vec![
                BatchMessage::Track(Track {
                    user: User::UserId { user_id: "foo".to_owned() },
                    event: "Foo".to_owned(),
                    properties: object(vec![]),
                    ..Default::default()
                }),
                BatchMessage::Track(Track {
                    user: User::UserId { user_id: "bar".to_owned() },
                    event: "Bar".to_owned(),
                    properties: object(vec![]),
                    ..Default::default()
                }),
                BatchMessage::Track(Track {
                    user: User::UserId { user_id: "baz".to_owned() },
                    event: "Baz".to_owned(),
                    properties: object(vec![]),
                    ..Default::default()
                })
            ],
            context: Some(object(vec![("foo", text("bar"))])),
            ..Default::default()
        })
        .encode()
        .unwrap(),
        r#"{"batch":[{"type":"track","userId":"foo","event":"Foo","properties":{}},{"type":"track","userId":"bar","event":"Bar","properties":{}},{"type":"track","userId":"baz","event":"Baz","properties":{}}],"context":{"foo":"bar"}}"#
            .to_owned(),
    );
}
