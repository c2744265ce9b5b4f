use segment::encode::{frame_list, frame_object, join, EncodeError};
use segment::event::{Alias, Group, Identify, Page, Screen, Track};
use segment::message::{Batch, BatchMessage, Message, StoredMessage};
use segment::user::User;
use segment::validate::{find_reserved, Fault, ValidationError};
use segment::wire::{same_text, Kind, WireKey};
use serde_json::Value;
use time::{OffsetDateTime, UtcOffset};

fn json(text: &str) -> Value {
    serde_json::from_str(text).unwrap()
}

fn extras(text: &str) -> serde_json::Map<String, Value> {
    match json(text) {
        Value::Object(map) => map,
        _ => panic!("not an object"),
    }
}

fn user(id: &str) -> User {
    User::UserId { user_id: id.to_owned() }
}

fn fault(fault: Fault) -> ValidationError {
    ValidationError { item: None, fault }
}

fn alias(id: &str) -> Alias {
    Alias { user: user(id), previous_id: "old".to_owned(), ..Default::default() }
}

#[test]
fn identity_shows_the_id_that_it_has() {
    assert_eq!(user("u-1").to_string(), "u-1");
    assert_eq!(User::AnonymousId { anonymous_id: "a-1".to_owned() }.to_string(), "a-1");
    assert_eq!(user("u-1").user_id(), Some(&"u-1".to_owned()));
    assert_eq!(user("u-1").anonymous_id(), None);
    let both = User::Both { user_id: "u".to_owned(), anonymous_id: "a".to_owned() };
    assert_eq!(both.user_id(), Some(&"u".to_owned()));
    assert_eq!(both.anonymous_id(), Some(&"a".to_owned()));
}

#[test]
fn default_identity_is_an_empty_anonymous_id() {
    assert_eq!(User::default(), User::AnonymousId { anonymous_id: "".to_owned() });
    assert!(!User::default().is_usable());
    assert!(user("u").is_usable());
    assert!(!User::Both { user_id: "u".to_owned(), anonymous_id: "".to_owned() }.is_usable());
    assert!(!User::Both { user_id: "".to_owned(), anonymous_id: "a".to_owned() }.is_usable());
}

#[test]
fn default_events_are_blank() {
    let track = Track::default();
    assert_eq!(track.user, User::default());
    assert_eq!(track.event, "");
    assert_eq!(track.properties, Value::Null);
    assert_eq!(track.timestamp, None);
    assert_eq!(track.context, None);
    assert_eq!(track.integrations, None);
    assert!(track.extra.is_empty());
    assert_eq!(Page::default().name, None);
    assert_eq!(Identify::default().traits, Value::Null);
    assert!(Batch::default().batch.is_empty());
}

#[test]
fn every_kind_has_its_path() {
    assert_eq!(Message::Identify(Identify::default()).path(), "/v1/identify");
    assert_eq!(Message::Track(Track::default()).path(), "/v1/track");
    assert_eq!(Message::Page(Page::default()).path(), "/v1/page");
    assert_eq!(Message::Screen(Screen::default()).path(), "/v1/screen");
    assert_eq!(Message::Group(Group::default()).path(), "/v1/group");
    assert_eq!(Message::Alias(Alias::default()).path(), "/v1/alias");
    assert_eq!(Message::Batch(Batch::default()).path(), "/v1/batch");
    assert_eq!(Kind::Track.path(), "/v1/track");
}

#[test]
fn every_kind_has_its_name() {
    let kinds = [
        (Kind::Identify, "identify"),
        (Kind::Track, "track"),
        (Kind::Page, "page"),
        (Kind::Screen, "screen"),
        (Kind::Group, "group"),
        (Kind::Alias, "alias"),
        (Kind::Batch, "batch"),
    ];
    for (kind, name) in kinds {
        assert_eq!(kind.name(), name);
        assert_eq!(Kind::from_name(name), Some(kind));
    }
    assert_eq!(Kind::from_name("unknown_kind"), None);
    assert_eq!(Kind::from_name("Track"), None);
    assert_eq!(Message::Track(Track::default()).kind(), Kind::Track);
    assert_eq!(StoredMessage::Batch(Batch::default()).kind(), Kind::Batch);
}

#[test]
fn field_names_are_camel_case_on_the_wire() {
    assert_eq!(WireKey::UserId.name(), "userId");
    assert_eq!(WireKey::AnonymousId.name(), "anonymousId");
    assert_eq!(WireKey::GroupId.name(), "groupId");
    assert_eq!(WireKey::PreviousId.name(), "previousId");
    assert_eq!(WireKey::Type.name(), "type");
    assert_eq!(Kind::Group.label_field(), Some(WireKey::GroupId));
    assert_eq!(Kind::Identify.label_field(), None);
    assert_eq!(Kind::Alias.payload_field(), None);
    assert_eq!(Kind::Track.payload_field(), Some(WireKey::Properties));
}

#[test]
fn reserved_keys_come_in_order() {
    assert_eq!(
        Kind::Track.reserved_keys(),
        vec![
            WireKey::Type,
            WireKey::UserId,
            WireKey::AnonymousId,
            WireKey::Event,
            WireKey::Properties,
            WireKey::Timestamp,
            WireKey::Context,
            WireKey::Integrations
        ]
    );
    assert_eq!(
        Kind::Alias.reserved_keys(),
        vec![
            WireKey::Type,
            WireKey::UserId,
            WireKey::AnonymousId,
            WireKey::PreviousId,
            WireKey::Timestamp,
            WireKey::Context,
            WireKey::Integrations
        ]
    );
    assert_eq!(
        Kind::Batch.reserved_keys(),
        vec![WireKey::Type, WireKey::Batch, WireKey::Context, WireKey::Integrations]
    );
    assert_eq!(Kind::Track.find_reserved_name("event"), Some(WireKey::Event));
    assert_eq!(Kind::Track.find_reserved_name("traits"), None);
    assert_eq!(Kind::Identify.find_reserved_name("traits"), Some(WireKey::Traits));
    assert_eq!(Kind::Batch.find_reserved_name("userId"), None);
}

#[test]
fn same_text_compares_characters() {
    assert!(same_text("type", "type"));
    assert!(!same_text("type", "Type"));
    assert!(!same_text("type", "typ"));
}

#[test]
fn framing_joins_what_it_is_given() {
    assert_eq!(join(&vec![]), "");
    assert_eq!(join(&vec!["a".to_owned()]), "a");
    assert_eq!(join(&vec!["a".to_owned(), "b".to_owned(), "c".to_owned()]), "a,b,c");
    assert_eq!(frame_list(&vec![]), "[]");
    assert_eq!(frame_list(&vec!["1".to_owned(), "{}".to_owned()]), "[1,{}]");
    assert_eq!(frame_object(&vec![]), "{}");
    assert_eq!(
        frame_object(&vec![
            ("\"a\"".to_owned(), "1".to_owned()),
            ("\"b\"".to_owned(), "null".to_owned())
        ]),
        r#"{"a":1,"b":null}"#
    );
}

#[test]
fn empty_identity_is_a_fault() {
    let event = Alias { previous_id: "old".to_owned(), ..Default::default() };
    assert_eq!(Message::Alias(event.clone()).validate(), Err(fault(Fault::MissingIdentity)));
    assert_eq!(
        Message::Alias(event).encode(),
        Err(EncodeError::Invalid(fault(Fault::MissingIdentity)))
    );
    assert_eq!(
        Alias::new(User::default(), "old".to_owned()),
        Err(fault(Fault::MissingIdentity))
    );
}

#[test]
fn empty_required_text_is_a_fault() {
    assert_eq!(
        Track::new(user("u"), "".to_owned(), json("{}")),
        Err(fault(Fault::EmptyField(WireKey::Event)))
    );
    assert_eq!(
        Screen::new(user("u"), "".to_owned(), json("{}")),
        Err(fault(Fault::EmptyField(WireKey::Name)))
    );
    assert_eq!(
        Group::new(user("u"), "".to_owned(), json("{}")),
        Err(fault(Fault::EmptyField(WireKey::GroupId)))
    );
    assert_eq!(
        Alias::new(user("u"), "".to_owned()),
        Err(fault(Fault::EmptyField(WireKey::PreviousId)))
    );
    assert!(Page::new(user("u"), Some("".to_owned()), json("{}")).is_ok());
    assert!(Page::new(user("u"), None, json("{}")).is_ok());
    assert_eq!(
        Track::new(User::default(), "".to_owned(), json("{}")),
        Err(fault(Fault::MissingIdentity))
    );
}

#[test]
fn constructors_make_bare_events() {
    assert_eq!(
        Track::new(user("u"), "Played".to_owned(), json(r#"{"n":1}"#)),
        Ok(Track {
            user: user("u"),
            event: "Played".to_owned(),
            properties: json(r#"{"n":1}"#),
            timestamp: None,
            context: None,
            integrations: None,
            extra: serde_json::Map::new(),
        })
    );
    assert_eq!(
        Identify::new(user("u"), json("{}")),
        Ok(Identify { user: user("u"), traits: json("{}"), ..Default::default() })
    );
    assert_eq!(Alias::new(user("u"), "old".to_owned()), Ok(alias("u")));
    assert_eq!(
        Batch::new(vec![BatchMessage::Alias(alias("u"))]),
        Ok(Batch { batch: vec![BatchMessage::Alias(alias("u"))], ..Default::default() })
    );
}

#[test]
fn extra_field_under_a_reserved_key_is_rejected() {
    let track = Track::new(user("u"), "Played".to_owned(), json("{}")).unwrap();
    assert_eq!(
        track.clone().with_extra("event".to_owned(), json("1")),
        Err(fault(Fault::ReservedKey(WireKey::Event)))
    );
    assert_eq!(
        track.clone().with_extra("type".to_owned(), json("1")),
        Err(fault(Fault::ReservedKey(WireKey::Type)))
    );
    assert_eq!(
        track.clone().with_extra("anonymousId".to_owned(), json("1")),
        Err(fault(Fault::ReservedKey(WireKey::AnonymousId)))
    );
    let with = track.clone().with_extra("messageId".to_owned(), json("\"m\"")).unwrap();
    assert_eq!(with.extra, extras(r#"{"messageId":"m"}"#));
    assert_eq!(with.event, "Played");
    let again = with.with_extra("messageId".to_owned(), json("2")).unwrap();
    assert_eq!(again.extra, extras(r#"{"messageId":2}"#));
    let traits = track.with_extra("traits".to_owned(), json("{}")).unwrap();
    assert_eq!(Message::Track(traits).validate(), Ok(()));
}

#[test]
fn event_written_with_a_reserved_extra_key_is_not_valid() {
    let track = Track {
        user: user("u"),
        event: "Played".to_owned(),
        properties: json("{}"),
        extra: extras(r#"{"event":"Other","timestamp":"t"}"#),
        ..Default::default()
    };
    assert_eq!(
        Message::Track(track.clone()).validate(),
        Err(fault(Fault::ReservedKey(WireKey::Event)))
    );
    assert_eq!(
        StoredMessage::Track(track.clone()).encode(),
        Err(EncodeError::Invalid(fault(Fault::ReservedKey(WireKey::Event))))
    );
    assert_eq!(find_reserved(&track.extra, Kind::Track), Some(WireKey::Event));
    assert_eq!(find_reserved(&track.extra, Kind::Batch), None);
    assert_eq!(find_reserved(&track.extra, Kind::Identify), Some(WireKey::Timestamp));
}

#[test]
fn empty_batch_is_a_fault() {
    assert_eq!(Batch::new(vec![]), Err(fault(Fault::EmptyBatch)));
    assert_eq!(Message::Batch(Batch::default()).validate(), Err(fault(Fault::EmptyBatch)));
    assert_eq!(
        Message::Batch(Batch::default()).encode(),
        Err(EncodeError::Invalid(fault(Fault::EmptyBatch)))
    );
    assert_eq!(BatchMessage::Alias(alias("u")).validate(), Ok(()));
}

#[test]
fn first_faulty_item_is_named() {
    let batch = Batch {
        batch: vec![
            BatchMessage::Alias(alias("u")),
            BatchMessage::Alias(alias("")),
            BatchMessage::Track(Track::default()),
        ],
        ..Default::default()
    };
    assert_eq!(
        batch.validate(),
        Err(ValidationError { item: Some(1), fault: Fault::MissingIdentity })
    );
    assert_eq!(
        Batch::new(batch.batch.clone()),
        Err(ValidationError { item: Some(1), fault: Fault::MissingIdentity })
    );
    let reserved = Batch { extra: extras(r#"{"batch":1}"#), ..batch };
    assert_eq!(reserved.validate(), Err(fault(Fault::ReservedKey(WireKey::Batch))));
    let fine = Batch::new(vec![BatchMessage::Alias(alias("u"))]).unwrap();
    assert_eq!(
        fine.clone().with_extra("context".to_owned(), json("1")),
        Err(fault(Fault::ReservedKey(WireKey::Context)))
    );
    assert_eq!(
        fine.with_extra("userId".to_owned(), json("1")).unwrap().extra,
        extras(r#"{"userId":1}"#)
    );
}

#[test]
fn timestamp_that_rfc3339_cannot_express_fails_the_encoding() {
    let offset = UtcOffset::from_hms(1, 2, 3).unwrap();
    let odd = OffsetDateTime::from_unix_timestamp(0).unwrap().to_offset(offset);
    let event = Alias { timestamp: Some(odd), ..alias("u") };
    assert_eq!(Message::Alias(event.clone()).encode(), Err(EncodeError::Timestamp));
    let batch = Batch {
        batch: vec![BatchMessage::Alias(alias("u")), BatchMessage::Alias(event)],
        ..Default::default()
    };
    assert_eq!(StoredMessage::Batch(batch).encode(), Err(EncodeError::Timestamp));
}

#[test]
fn backfill_stamps_only_items_without_a_timestamp() {
    let early = OffsetDateTime::from_unix_timestamp(1_000).unwrap();
    let now = OffsetDateTime::from_unix_timestamp(2_000).unwrap();
    let batch = Batch {
        batch: vec![
            BatchMessage::Alias(alias("a")),
            BatchMessage::Alias(Alias { timestamp: Some(early), ..alias("b") }),
            BatchMessage::Track(Track {
                user: user("c"),
                event: "Played".to_owned(),
                properties: json("{}"),
                ..Default::default()
            }),
        ],
        context: Some(json("{}")),
        ..Default::default()
    };
    let filled = batch.clone().backfill(now);
    assert_eq!(
        filled,
        Batch {
            batch: vec![
                BatchMessage::Alias(Alias { timestamp: Some(now), ..alias("a") }),
                BatchMessage::Alias(Alias { timestamp: Some(early), ..alias("b") }),
                BatchMessage::Track(Track {
                    user: user("c"),
                    event: "Played".to_owned(),
                    properties: json("{}"),
                    timestamp: Some(now),
                    ..Default::default()
                }),
            ],
            context: Some(json("{}")),
            ..Default::default()
        }
    );
    assert_eq!(
        Message::Batch(filled).encode().unwrap(),
        r#"{"batch":[{"type":"alias","userId":"a","previousId":"old","timestamp":"1970-01-01T00:33:20Z"},{"type":"alias","userId":"b","previousId":"old","timestamp":"1970-01-01T00:16:40Z"},{"type":"track","userId":"c","event":"Played","properties":{},"timestamp":"1970-01-01T00:33:20Z"}],"context":{}}"#
    );
    assert_eq!(BatchMessage::Alias(alias("a")).stamped(now), BatchMessage::Alias(Alias {
        timestamp: Some(now),
        ..alias("a")
    }));
}

#[test]
fn finalize_leaves_no_item_without_a_timestamp() {
    let early = OffsetDateTime::from_unix_timestamp(1_000).unwrap();
    let batch = Batch {
        batch: vec![
            BatchMessage::Alias(alias("a")),
            BatchMessage::Alias(Alias { timestamp: Some(early), ..alias("b") }),
            BatchMessage::Alias(alias("c")),
        ],
        ..Default::default()
    };
    let mut ready = batch.finalize();
    assert_eq!(ready.batch.len(), 3);
    let stamps: Vec<Option<OffsetDateTime>> =
        ready.batch.iter_mut().map(|item| *item.timestamp_mut()).collect();
    assert!(stamps.iter().all(|stamp| stamp.is_some()));
    assert_eq!(stamps[1], Some(early));
    assert_eq!(stamps[0], stamps[2]);
    assert!(stamps[0].unwrap() > early);
}

#[test]
fn timestamp_can_be_set_through_the_item() {
    let now = OffsetDateTime::from_unix_timestamp(2_000).unwrap();
    let mut item = BatchMessage::Alias(alias("a"));
    assert_eq!(*item.timestamp_mut(), None);
    *item.timestamp_mut() = Some(now);
    assert_eq!(item, BatchMessage::Alias(Alias { timestamp: Some(now), ..alias("a") }));
}
