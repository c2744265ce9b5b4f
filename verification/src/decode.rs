//! Reading messages back from JSON.
//!
//! The stored form is a JSON object that says what kind it is under `type`.
//! Decoding takes the kind out first, then the fields of that kind, each
//! under its own key, and keeps whatever is left as the extra fields. A
//! field that may be absent is absent where its key is; a page without a
//! name may also say so with `null`.
//!
//! The transport form does not say what kind it is. Decoding tries the
//! kinds in a fixed order and takes the first whose fields are all there.

use crate::event::{Alias, EventContent, Group, Identify, Page, Screen, Track};
use crate::json::{
    as_items, as_members, as_string, fields, into_items, into_object, is_null, json_parse,
    parse_json, remove, to_map, value_as_text, value_is_null, Object,
};
use crate::message::{
    Batch, BatchContent, BatchMessage, Message, MessageContent, MessageView, StoredMessage,
};
use crate::timestamp::{parse_rfc3339, rfc3339_parse};
use crate::user::{User, UserView};
use crate::wire::{Kind, WireKey};
use serde_json::Value;
use time::OffsetDateTime;
use vstd::pervasive::unreached;
use vstd::prelude::*;

verus! {

/// Why a text could not be decoded.
#[derive(PartialEq, Eq, Debug, Clone)]
pub enum DecodeError {
    /// The text is not JSON.
    Syntax,
    /// The message, or an item of a batch, is not a JSON object.
    NotAnObject,
    /// A field that the kind requires is not there.
    MissingField(WireKey),
    /// The value under this field is not of the type that the field takes.
    WrongType(WireKey),
    /// The object names a kind that is not known, or, inside a batch, a
    /// batch.
    UnknownKind(String),
    /// The event has neither a user id nor an anonymous id.
    MissingIdentity,
    /// The timestamp is not RFC 3339.
    BadTimestamp,
    /// The object can be read as no kind of message.
    Unrecognized,
}

/// A decoding error as plain data.
pub enum DecodeErrorView {
    Syntax,
    NotAnObject,
    MissingField(WireKey),
    WrongType(WireKey),
    UnknownKind(Seq<char>),
    MissingIdentity,
    BadTimestamp,
    Unrecognized,
}

impl View for DecodeError {
    type V = DecodeErrorView;

    open spec fn view(&self) -> DecodeErrorView {
        match *self {
            DecodeError::Syntax => DecodeErrorView::Syntax,
            DecodeError::NotAnObject => DecodeErrorView::NotAnObject,
            DecodeError::MissingField(key) => DecodeErrorView::MissingField(key),
            DecodeError::WrongType(key) => DecodeErrorView::WrongType(key),
            DecodeError::UnknownKind(tag) => DecodeErrorView::UnknownKind(tag@),
            DecodeError::MissingIdentity => DecodeErrorView::MissingIdentity,
            DecodeError::BadTimestamp => DecodeErrorView::BadTimestamp,
            DecodeError::Unrecognized => DecodeErrorView::Unrecognized,
        }
    }
}

/// The value under a key, where the object has the key.
pub open spec fn value_at(m: Map<Seq<char>, Value>, key: WireKey) -> Option<Value> {
    if m.dom().contains(key.text()) {
        Some(m[key.text()])
    } else {
        None
    }
}

/// The text under a key: nothing where the key is absent, an error where
/// the value is not a JSON string.
pub open spec fn text_at(m: Map<Seq<char>, Value>, key: WireKey) -> Result<
    Option<Seq<char>>,
    DecodeErrorView,
> {
    match value_at(m, key) {
        None => Ok(None),
        Some(v) => match as_string(v) {
            Some(s) => Ok(Some(s)),
            None => Err(DecodeErrorView::WrongType(key)),
        },
    }
}

/// The kind that the object says it is.
pub open spec fn kind_in(m: Map<Seq<char>, Value>) -> Result<Kind, DecodeErrorView> {
    match text_at(m, WireKey::Type) {
        Err(e) => Err(e),
        Ok(None) => Err(DecodeErrorView::MissingField(WireKey::Type)),
        Ok(Some(tag)) => match Kind::named(tag) {
            Some(kind) => Ok(kind),
            None => Err(DecodeErrorView::UnknownKind(tag)),
        },
    }
}

/// The identity that the object names: the identifiers that are there, of
/// which there must be one.
pub open spec fn user_in(m: Map<Seq<char>, Value>) -> Result<UserView, DecodeErrorView> {
    match text_at(m, WireKey::UserId) {
        Err(e) => Err(e),
        Ok(user_id) => match text_at(m, WireKey::AnonymousId) {
            Err(e) => Err(e),
            Ok(anonymous_id) => if user_id is None && anonymous_id is None {
                Err(DecodeErrorView::MissingIdentity)
            } else {
                Ok(UserView { user_id, anonymous_id })
            },
        },
    }
}

/// The kind's own text. It is required, except that a page may go without
/// its name or have `null` for it.
pub open spec fn label_in(kind: Kind, m: Map<Seq<char>, Value>) -> Result<
    Option<Seq<char>>,
    DecodeErrorView,
> {
    match kind.label_key() {
        None => Ok(None),
        Some(key) => match value_at(m, key) {
            None => if kind.label_optional() {
                Ok(None)
            } else {
                Err(DecodeErrorView::MissingField(key))
            },
            Some(v) => if kind.label_optional() && is_null(v) {
                Ok(None)
            } else {
                match as_string(v) {
                    Some(s) => Ok(Some(s)),
                    None => Err(DecodeErrorView::WrongType(key)),
                }
            },
        },
    }
}

/// The kind's free-form data, which is required where the kind has some.
pub open spec fn payload_in(kind: Kind, m: Map<Seq<char>, Value>) -> Result<
    Option<Value>,
    DecodeErrorView,
> {
    match kind.payload_key() {
        None => Ok(None),
        Some(key) => match value_at(m, key) {
            None => Err(DecodeErrorView::MissingField(key)),
            Some(v) => Ok(Some(v)),
        },
    }
}

/// The timestamp, where there is one: it must be RFC 3339 text.
pub open spec fn timestamp_in(m: Map<Seq<char>, Value>) -> Result<
    Option<OffsetDateTime>,
    DecodeErrorView,
> {
    match text_at(m, WireKey::Timestamp) {
        Err(e) => Err(e),
        Ok(None) => Ok(None),
        Ok(Some(s)) => match rfc3339_parse(s) {
            Some(t) => Ok(Some(t)),
            None => Err(DecodeErrorView::BadTimestamp),
        },
    }
}

/// The object without the key of the kind's own text.
pub open spec fn without_label(kind: Kind, m: Map<Seq<char>, Value>) -> Map<Seq<char>, Value> {
    match kind.label_key() {
        Some(key) => m.remove(key.text()),
        None => m,
    }
}

/// The object without the key of the kind's free-form data.
pub open spec fn without_payload(kind: Kind, m: Map<Seq<char>, Value>) -> Map<Seq<char>, Value> {
    match kind.payload_key() {
        Some(key) => m.remove(key.text()),
        None => m,
    }
}

/// What is left of an event's object once every field of the event is
/// taken out: the extra fields.
pub open spec fn rest_of_event(kind: Kind, m: Map<Seq<char>, Value>) -> Map<Seq<char>, Value> {
    without_payload(
        kind,
        without_label(
            kind,
            m.remove(WireKey::UserId.text()).remove(WireKey::AnonymousId.text()),
        ),
    ).remove(WireKey::Timestamp.text()).remove(WireKey::Context.text()).remove(
        WireKey::Integrations.text(),
    )
}

/// What is left of a batch's object once every field of the batch is taken
/// out: the extra fields.
pub open spec fn rest_of_batch(m: Map<Seq<char>, Value>) -> Map<Seq<char>, Value> {
    m.remove(WireKey::Batch.text()).remove(WireKey::Context.text()).remove(
        WireKey::Integrations.text(),
    )
}

/// The event of the given kind that an object holds, where the object does
/// not say its kind or no longer does. The first field that cannot be read
/// decides the error: the identity, then the kind's own text, then its
/// data, then the timestamp.
pub open spec fn event_in(kind: Kind, m: Map<Seq<char>, Value>) -> Result<
    EventContent,
    DecodeErrorView,
> {
    match user_in(m) {
        Err(e) => Err(e),
        Ok(user) => match label_in(kind, m) {
            Err(e) => Err(e),
            Ok(label) => match payload_in(kind, m) {
                Err(e) => Err(e),
                Ok(payload) => match timestamp_in(m) {
                    Err(e) => Err(e),
                    Ok(timestamp) => Ok(
                        EventContent {
                            kind,
                            user,
                            label,
                            payload,
                            timestamp,
                            context: value_at(m, WireKey::Context),
                            integrations: value_at(m, WireKey::Integrations),
                            extra: rest_of_event(kind, m),
                        },
                    ),
                },
            },
        },
    }
}

/// The event that an item of a batch holds: the object says its kind, and
/// what it has beside the kind is the event. An item cannot be a batch.
pub open spec fn item_in(v: Value) -> Result<EventContent, DecodeErrorView> {
    match as_members(v) {
        None => Err(DecodeErrorView::NotAnObject),
        Some(es) => match kind_in(to_map(es)) {
            Err(e) => Err(e),
            Ok(kind) => if kind == Kind::Batch {
                Err(DecodeErrorView::UnknownKind(Kind::Batch.tag()))
            } else {
                event_in(kind, to_map(es).remove(WireKey::Type.text()))
            },
        },
    }
}

/// The events that the items of a batch hold. The first item that cannot be
/// read decides the error.
pub open spec fn items_in(items: Seq<Value>) -> Result<Seq<EventContent>, DecodeErrorView>
    decreases items.len(),
{
    if items.len() == 0 {
        Ok(Seq::empty())
    } else {
        match items_in(items.drop_last()) {
            Err(e) => Err(e),
            Ok(events) => match item_in(items.last()) {
                Err(e) => Err(e),
                Ok(event) => Ok(events.push(event)),
            },
        }
    }
}

/// The batch that an object holds, where the object does not say its kind
/// or no longer does.
pub open spec fn batch_in(m: Map<Seq<char>, Value>) -> Result<BatchContent, DecodeErrorView> {
    match value_at(m, WireKey::Batch) {
        None => Err(DecodeErrorView::MissingField(WireKey::Batch)),
        Some(v) => match as_items(v) {
            None => Err(DecodeErrorView::WrongType(WireKey::Batch)),
            Some(items) => match items_in(items) {
                Err(e) => Err(e),
                Ok(events) => Ok(
                    BatchContent {
                        items: events,
                        context: value_at(m, WireKey::Context),
                        integrations: value_at(m, WireKey::Integrations),
                        extra: rest_of_batch(m),
                    },
                ),
            },
        },
    }
}

/// The message that a JSON value holds in stored form: the object says its
/// kind, and what it has beside the kind is the message.
pub open spec fn message_in(v: Value) -> Result<MessageContent, DecodeErrorView> {
    match as_members(v) {
        None => Err(DecodeErrorView::NotAnObject),
        Some(es) => match kind_in(to_map(es)) {
            Err(e) => Err(e),
            Ok(kind) => if kind == Kind::Batch {
                match batch_in(to_map(es).remove(WireKey::Type.text())) {
                    Err(e) => Err(e),
                    Ok(b) => Ok(MessageContent::Batch(b)),
                }
            } else {
                match event_in(kind, to_map(es).remove(WireKey::Type.text())) {
                    Err(e) => Err(e),
                    Ok(ev) => Ok(MessageContent::Event(ev)),
                }
            },
        },
    }
}

/// The message that a text holds in stored form.
pub open spec fn message_in_text(text: Seq<char>) -> Result<MessageContent, DecodeErrorView> {
    match json_parse(text) {
        None => Err(DecodeErrorView::Syntax),
        Some(v) => message_in(v),
    }
}

/// The first kind as which an object that does not say its kind can be
/// read. The kinds are tried in the order identify, track, page, screen,
/// group, alias, batch.
pub open spec fn first_readable(m: Map<Seq<char>, Value>) -> Option<Kind> {
    if event_in(Kind::Identify, m) is Ok {
        Some(Kind::Identify)
    } else if event_in(Kind::Track, m) is Ok {
        Some(Kind::Track)
    } else if event_in(Kind::Page, m) is Ok {
        Some(Kind::Page)
    } else if event_in(Kind::Screen, m) is Ok {
        Some(Kind::Screen)
    } else if event_in(Kind::Group, m) is Ok {
        Some(Kind::Group)
    } else if event_in(Kind::Alias, m) is Ok {
        Some(Kind::Alias)
    } else if batch_in(m) is Ok {
        Some(Kind::Batch)
    } else {
        None
    }
}

/// The message that a JSON value holds in transport form: the message of
/// the first kind as which the object can be read.
pub open spec fn sent_message_in(v: Value) -> Result<MessageContent, DecodeErrorView> {
    match as_members(v) {
        None => Err(DecodeErrorView::NotAnObject),
        Some(es) => match first_readable(to_map(es)) {
            None => Err(DecodeErrorView::Unrecognized),
            Some(kind) => if kind == Kind::Batch {
                Ok(MessageContent::Batch(batch_in(to_map(es))->Ok_0))
            } else {
                Ok(MessageContent::Event(event_in(kind, to_map(es))->Ok_0))
            },
        },
    }
}

/// The message that a text holds in transport form.
pub open spec fn sent_message_in_text(text: Seq<char>) -> Result<
    MessageContent,
    DecodeErrorView,
> {
    match json_parse(text) {
        None => Err(DecodeErrorView::Syntax),
        Some(v) => sent_message_in(v),
    }
}

/// A text that may be absent, as plain data.
pub open spec fn text_view(text: Option<String>) -> Option<Seq<char>> {
    match text {
        Some(s) => Some(s@),
        None => None,
    }
}

/// Takes the value under a key out of the object.
fn take_value(obj: &mut Object, key: WireKey) -> (r: Option<Value>)
    ensures
        fields(*final(obj)) == fields(*old(obj)).remove(key.text()),
        r == value_at(fields(*old(obj)), key),
{
    remove(obj, key.name())
}

/// Takes the text under a key out of the object.
fn take_text(obj: &mut Object, key: WireKey) -> (r: Result<Option<String>, DecodeError>)
    ensures
        fields(*final(obj)) == fields(*old(obj)).remove(key.text()),
        match r {
            Ok(text) => text_at(fields(*old(obj)), key) == Ok::<_, DecodeErrorView>(
                text_view(text),
            ),
            Err(e) => text_at(fields(*old(obj)), key) == Err::<Option<Seq<char>>, _>(e@),
        },
{
    match take_value(obj, key) {
        None => Ok(None),
        Some(v) => match value_as_text(&v) {
            Some(s) => Ok(Some(s)),
            None => Err(DecodeError::WrongType(key)),
        },
    }
}

/// Takes the kind out of the object.
fn take_kind(obj: &mut Object) -> (r: Result<Kind, DecodeError>)
    ensures
        fields(*final(obj)) == fields(*old(obj)).remove(WireKey::Type.text()),
        match r {
            Ok(kind) => kind_in(fields(*old(obj))) == Ok::<_, DecodeErrorView>(kind),
            Err(e) => kind_in(fields(*old(obj))) == Err::<Kind, _>(e@),
        },
{
    match take_text(obj, WireKey::Type) {
        Err(e) => Err(e),
        Ok(None) => Err(DecodeError::MissingField(WireKey::Type)),
        Ok(Some(tag)) => match Kind::from_name(tag.as_str()) {
            Some(kind) => Ok(kind),
            None => Err(DecodeError::UnknownKind(tag)),
        },
    }
}

/// Takes the identity out of the object.
fn take_user(obj: &mut Object) -> (r: Result<User, DecodeError>)
    ensures
        fields(*final(obj)) == fields(*old(obj)).remove(WireKey::UserId.text()).remove(
            WireKey::AnonymousId.text(),
        ),
        match r {
            Ok(user) => user_in(fields(*old(obj))) == Ok::<_, DecodeErrorView>(user@),
            Err(e) => user_in(fields(*old(obj))) == Err::<UserView, _>(e@),
        },
{
    proof {
        WireKey::lemma_names_differ(WireKey::UserId, WireKey::AnonymousId);
    }
    let user_id = take_text(obj, WireKey::UserId);
    let anonymous_id = take_text(obj, WireKey::AnonymousId);
    match user_id {
        Err(e) => Err(e),
        Ok(user_id) => match anonymous_id {
            Err(e) => Err(e),
            Ok(anonymous_id) => match (user_id, anonymous_id) {
                (Some(user_id), Some(anonymous_id)) => Ok(User::Both { user_id, anonymous_id }),
                (Some(user_id), None) => Ok(User::UserId { user_id }),
                (None, Some(anonymous_id)) => Ok(User::AnonymousId { anonymous_id }),
                (None, None) => Err(DecodeError::MissingIdentity),
            },
        },
    }
}

/// Takes the kind's own text out of the object.
fn take_label(obj: &mut Object, kind: Kind) -> (r: Result<Option<String>, DecodeError>)
    ensures
        fields(*final(obj)) == without_label(kind, fields(*old(obj))),
        match r {
            Ok(label) => label_in(kind, fields(*old(obj))) == Ok::<_, DecodeErrorView>(
                text_view(label),
            ),
            Err(e) => label_in(kind, fields(*old(obj))) == Err::<Option<Seq<char>>, _>(e@),
        },
{
    match kind.label_field() {
        None => Ok(None),
        Some(key) => match take_value(obj, key) {
            None => if kind == Kind::Page {
                Ok(None)
            } else {
                Err(DecodeError::MissingField(key))
            },
            Some(v) => if kind == Kind::Page && value_is_null(&v) {
                Ok(None)
            } else {
                match value_as_text(&v) {
                    Some(s) => Ok(Some(s)),
                    None => Err(DecodeError::WrongType(key)),
                }
            },
        },
    }
}

/// Takes the kind's free-form data out of the object.
fn take_payload(obj: &mut Object, kind: Kind) -> (r: Result<Option<Value>, DecodeError>)
    ensures
        fields(*final(obj)) == without_payload(kind, fields(*old(obj))),
        match r {
            Ok(payload) => payload_in(kind, fields(*old(obj))) == Ok::<_, DecodeErrorView>(
                payload,
            ),
            Err(e) => payload_in(kind, fields(*old(obj))) == Err::<Option<Value>, _>(e@),
        },
{
    match kind.payload_field() {
        None => Ok(None),
        Some(key) => match take_value(obj, key) {
            None => Err(DecodeError::MissingField(key)),
            Some(v) => Ok(Some(v)),
        },
    }
}

/// Takes the timestamp out of the object.
fn take_timestamp(obj: &mut Object) -> (r: Result<Option<OffsetDateTime>, DecodeError>)
    ensures
        fields(*final(obj)) == fields(*old(obj)).remove(WireKey::Timestamp.text()),
        match r {
            Ok(timestamp) => timestamp_in(fields(*old(obj))) == Ok::<_, DecodeErrorView>(
                timestamp,
            ),
            Err(e) => timestamp_in(fields(*old(obj))) == Err::<Option<OffsetDateTime>, _>(e@),
        },
{
    match take_text(obj, WireKey::Timestamp) {
        Err(e) => Err(e),
        Ok(None) => Ok(None),
        Ok(Some(s)) => match parse_rfc3339(s.as_str()) {
            Ok(t) => Ok(Some(t)),
            Err(_) => Err(DecodeError::BadTimestamp),
        },
    }
}

/// Whether the parts are those that an event of the kind is made of.
pub open spec fn fits(kind: Kind, label: Option<String>, payload: Option<Value>) -> bool {
    &&& kind != Kind::Batch
    &&& label is Some ==> kind.label_key() is Some
    &&& label is None ==> kind.label_key() is None || kind.label_optional()
    &&& payload is Some <==> kind.payload_key() is Some
}

/// The event of the given kind with the given fields.
fn build_event(
    kind: Kind,
    user: User,
    label: Option<String>,
    payload: Option<Value>,
    timestamp: Option<OffsetDateTime>,
    context: Option<Value>,
    integrations: Option<Value>,
    extra: Object,
) -> (r: BatchMessage)
    requires
        fits(kind, label, payload),
    ensures
        r@.content() == (EventContent {
            kind,
            user: user@,
            label: text_view(label),
            payload,
            timestamp,
            context,
            integrations,
            extra: fields(extra),
        }),
{
    match kind {
        Kind::Identify => BatchMessage::Identify(
            Identify { user, traits: payload.unwrap(), timestamp, context, integrations, extra },
        ),
        Kind::Track => BatchMessage::Track(
            Track {
                user,
                event: label.unwrap(),
                properties: payload.unwrap(),
                timestamp,
                context,
                integrations,
                extra,
            },
        ),
        Kind::Page => BatchMessage::Page(
            Page {
                user,
                name: label,
                properties: payload.unwrap(),
                timestamp,
                context,
                integrations,
                extra,
            },
        ),
        Kind::Screen => BatchMessage::Screen(
            Screen {
                user,
                name: label.unwrap(),
                properties: payload.unwrap(),
                timestamp,
                context,
                integrations,
                extra,
            },
        ),
        Kind::Group => BatchMessage::Group(
            Group {
                user,
                group_id: label.unwrap(),
                traits: payload.unwrap(),
                timestamp,
                context,
                integrations,
                extra,
            },
        ),
        Kind::Alias => BatchMessage::Alias(
            Alias { user, previous_id: label.unwrap(), timestamp, context, integrations, extra },
        ),
        Kind::Batch => unreached(),
    }
}

/// Reads the event of the given kind from an object that does not say its
/// kind or no longer does.
fn event_from(kind: Kind, obj: Object) -> (r: Result<BatchMessage, DecodeError>)
    requires
        kind != Kind::Batch,
    ensures
        match r {
            Ok(event) => event_in(kind, fields(obj)) == Ok::<_, DecodeErrorView>(
                event@.content(),
            ),
            Err(e) => event_in(kind, fields(obj)) == Err::<EventContent, _>(e@),
        },
{
    let mut obj = obj;
    proof {
        lemma_names_all_differ();
    }
    let user = match take_user(&mut obj) {
        Ok(user) => user,
        Err(e) => {
            return Err(e);
        },
    };
    let label = match take_label(&mut obj, kind) {
        Ok(label) => label,
        Err(e) => {
            return Err(e);
        },
    };
    let payload = match take_payload(&mut obj, kind) {
        Ok(payload) => payload,
        Err(e) => {
            return Err(e);
        },
    };
    let timestamp = match take_timestamp(&mut obj) {
        Ok(timestamp) => timestamp,
        Err(e) => {
            return Err(e);
        },
    };
    let context = take_value(&mut obj, WireKey::Context);
    let integrations = take_value(&mut obj, WireKey::Integrations);
    Ok(build_event(kind, user, label, payload, timestamp, context, integrations, obj))
}

/// No two field names are spelled alike.
proof fn lemma_names_all_differ()
    ensures
        forall|a: WireKey, b: WireKey| #[trigger] a.text() == #[trigger] b.text() <==> a == b,
{
    assert forall|a: WireKey, b: WireKey| #[trigger] a.text() == #[trigger] b.text() <==> a
        == b by {
        WireKey::lemma_names_differ(a, b);
    }
}

/// Once an item cannot be read, no item after it changes the error.
proof fn lemma_first_error_stays(items: Seq<Value>, n: int)
    requires
        0 <= n <= items.len(),
        items_in(items.take(n)) is Err,
    ensures
        items_in(items) == items_in(items.take(n)),
    decreases items.len() - n,
{
    if n < items.len() {
        assert(items.take(n + 1).drop_last() =~= items.take(n));
        lemma_first_error_stays(items, n + 1);
    } else {
        assert(items.take(n) =~= items);
    }
}

/// What the events hold, one by one.
pub open spec fn contents(events: Seq<BatchMessage>) -> Seq<EventContent> {
    Seq::new(events.len(), |i: int| events[i]@.content())
}

/// Reads an item of a batch.
fn item_from(v: Value) -> (r: Result<BatchMessage, DecodeError>)
    ensures
        match r {
            Ok(event) => item_in(v) == Ok::<_, DecodeErrorView>(event@.content()),
            Err(e) => item_in(v) == Err::<EventContent, _>(e@),
        },
{
    let mut obj = match into_object(v) {
        Some(obj) => obj,
        None => {
            return Err(DecodeError::NotAnObject);
        },
    };
    let kind = match take_kind(&mut obj) {
        Ok(kind) => kind,
        Err(e) => {
            return Err(e);
        },
    };
    if kind == Kind::Batch {
        return Err(DecodeError::UnknownKind(Kind::Batch.name().to_owned()));
    }
    event_from(kind, obj)
}

/// Reads the items of a batch.
fn items_from(items: Vec<Value>) -> (r: Result<Vec<BatchMessage>, DecodeError>)
    ensures
        match r {
            Ok(events) => items_in(items@) == Ok::<_, DecodeErrorView>(contents(events@)),
            Err(e) => items_in(items@) == Err::<Seq<EventContent>, _>(e@),
        },
{
    let mut events: Vec<BatchMessage> = Vec::new();
    let ghost all = items@;
    assert(contents(events@) =~= Seq::empty());
    assert(all.take(0) =~= Seq::empty());
    for item in it: items.into_iter()
        invariant
            it.seq() == all,
            items_in(all.take(it.index() as int)) == Ok::<_, DecodeErrorView>(contents(events@)),
    {
        let ghost n = it.index() as int;
        assert(all.take(n + 1).drop_last() =~= all.take(n));
        assert(all.take(n + 1).last() == item);
        match item_from(item) {
            Ok(event) => {
                let ghost before = contents(events@);
                events.push(event);
                assert(contents(events@) =~= before.push(event@.content()));
            },
            Err(e) => {
                proof {
                    lemma_first_error_stays(all, n + 1);
                }
                return Err(e);
            },
        }
    }
    assert(all.take(all.len() as int) =~= all);
    Ok(events)
}

/// Reads a batch from an object that does not say its kind or no longer
/// does.
fn batch_from(obj: Object) -> (r: Result<Batch, DecodeError>)
    ensures
        match r {
            Ok(batch) => batch_in(fields(obj)) == Ok::<_, DecodeErrorView>(batch@.content()),
            Err(e) => batch_in(fields(obj)) == Err::<BatchContent, _>(e@),
        },
{
    let mut obj = obj;
    proof {
        lemma_names_all_differ();
    }
    let items = match take_value(&mut obj, WireKey::Batch) {
        None => {
            return Err(DecodeError::MissingField(WireKey::Batch));
        },
        Some(v) => match into_items(v) {
            None => {
                return Err(DecodeError::WrongType(WireKey::Batch));
            },
            Some(items) => items,
        },
    };
    let events = match items_from(items) {
        Ok(events) => events,
        Err(e) => {
            return Err(e);
        },
    };
    let context = take_value(&mut obj, WireKey::Context);
    let integrations = take_value(&mut obj, WireKey::Integrations);
    let batch = Batch { batch: events, context, integrations, extra: obj };
    assert(batch@.content().items =~= contents(events@));
    Ok(batch)
}

/// The event as a stored message.
fn stored_event(event: BatchMessage) -> (r: StoredMessage)
    ensures
        r@ == MessageView::Event(event@),
{
    match event {
        BatchMessage::Identify(e) => StoredMessage::Identify(e),
        BatchMessage::Track(e) => StoredMessage::Track(e),
        BatchMessage::Page(e) => StoredMessage::Page(e),
        BatchMessage::Screen(e) => StoredMessage::Screen(e),
        BatchMessage::Group(e) => StoredMessage::Group(e),
        BatchMessage::Alias(e) => StoredMessage::Alias(e),
    }
}

impl StoredMessage {
    /// Reads a stored message from the JSON value that holds it.
    ///
    /// The value must be an object that names its kind under `type` and has
    /// every field that the kind requires, each of the type that the field
    /// takes. What the kind gives no meaning to becomes the extra fields.
    pub fn from_value(v: Value) -> (r: Result<StoredMessage, DecodeError>)
        ensures
            match r {
                Ok(message) => message_in(v) == Ok::<_, DecodeErrorView>(message@.content()),
                Err(e) => message_in(v) == Err::<MessageContent, _>(e@),
            },
    {
        let mut obj = match into_object(v) {
            Some(obj) => obj,
            None => {
                return Err(DecodeError::NotAnObject);
            },
        };
        let kind = match take_kind(&mut obj) {
            Ok(kind) => kind,
            Err(e) => {
                return Err(e);
            },
        };
        if kind == Kind::Batch {
            match batch_from(obj) {
                Ok(batch) => Ok(StoredMessage::Batch(batch)),
                Err(e) => Err(e),
            }
        } else {
            match event_from(kind, obj) {
                Ok(event) => Ok(stored_event(event)),
                Err(e) => Err(e),
            }
        }
    }

    /// Reads a stored message from its JSON text.
    ///
    /// Fails where the text is not JSON, and where the value that it denotes
    /// is refused by [`StoredMessage::from_value`].
    pub fn decode(text: &str) -> (r: Result<StoredMessage, DecodeError>)
        ensures
            match r {
                Ok(message) => message_in_text(text@) == Ok::<_, DecodeErrorView>(
                    message@.content(),
                ),
                Err(e) => message_in_text(text@) == Err::<MessageContent, _>(e@),
            },
    {
        match parse_json(text) {
            Ok(v) => StoredMessage::from_value(v),
            Err(_) => Err(DecodeError::Syntax),
        }
    }
}

/// Tries to read the object as an event of the given kind.
fn read_as(kind: Kind, obj: &Object) -> (r: Option<Message>)
    requires
        kind != Kind::Batch,
    ensures
        match r {
            Some(message) => event_in(kind, fields(*obj)) == Ok::<_, DecodeErrorView>(
                message@->Event_0.content(),
            ) && message@ is Event,
            None => event_in(kind, fields(*obj)) is Err,
        },
{
    match event_from(kind, obj.clone()) {
        Ok(event) => Some(sent_event(event)),
        Err(_) => None,
    }
}

/// The event as a message to send.
fn sent_event(event: BatchMessage) -> (r: Message)
    ensures
        r@ == MessageView::Event(event@),
{
    match event {
        BatchMessage::Identify(e) => Message::Identify(e),
        BatchMessage::Track(e) => Message::Track(e),
        BatchMessage::Page(e) => Message::Page(e),
        BatchMessage::Screen(e) => Message::Screen(e),
        BatchMessage::Group(e) => Message::Group(e),
        BatchMessage::Alias(e) => Message::Alias(e),
    }
}

impl Message {
    /// Reads a message in transport form from the JSON value that holds it.
    ///
    /// The transport form does not say what kind the message is, so the
    /// kinds are tried in a fixed order: identify, track, page, screen,
    /// group, alias, batch. The message is of the first kind whose fields
    /// the object has, each of the type that the field takes; what that
    /// kind gives no meaning to becomes the extra fields. So an object that
    /// has the fields of two kinds is read as the earlier one: a screen
    /// comes back as a page, a group as an identify with the group among
    /// its extra fields. Where the kind matters, use the stored form.
    pub fn from_value(v: Value) -> (r: Result<Message, DecodeError>)
        ensures
            match r {
                Ok(message) => sent_message_in(v) == Ok::<_, DecodeErrorView>(
                    message@.content(),
                ),
                Err(e) => sent_message_in(v) == Err::<MessageContent, _>(e@),
            },
    {
        let obj = match into_object(v) {
            Some(obj) => obj,
            None => {
                return Err(DecodeError::NotAnObject);
            },
        };
        if let Some(message) = read_as(Kind::Identify, &obj) {
            return Ok(message);
        }
        if let Some(message) = read_as(Kind::Track, &obj) {
            return Ok(message);
        }
        if let Some(message) = read_as(Kind::Page, &obj) {
            return Ok(message);
        }
        if let Some(message) = read_as(Kind::Screen, &obj) {
            return Ok(message);
        }
        if let Some(message) = read_as(Kind::Group, &obj) {
            return Ok(message);
        }
        if let Some(message) = read_as(Kind::Alias, &obj) {
            return Ok(message);
        }
        match batch_from(obj) {
            Ok(batch) => Ok(Message::Batch(batch)),
            Err(_) => Err(DecodeError::Unrecognized),
        }
    }

    /// Reads a message in transport form from its JSON text.
    ///
    /// Fails where the text is not JSON, and where the value that it denotes
    /// is refused by [`Message::from_value`].
    pub fn decode(text: &str) -> (r: Result<Message, DecodeError>)
        ensures
            match r {
                Ok(message) => sent_message_in_text(text@) == Ok::<_, DecodeErrorView>(
                    message@.content(),
                ),
                Err(e) => sent_message_in_text(text@) == Err::<MessageContent, _>(e@),
            },
    {
        match parse_json(text) {
            Ok(v) => Message::from_value(v),
            Err(_) => Err(DecodeError::Syntax),
        }
    }
}

} // verus!
