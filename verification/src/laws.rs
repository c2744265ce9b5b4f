//! What holds of the library as a whole: laws that relate validation, the
//! two encodings, decoding and conversion.

use crate::decode::{
    batch_in, event_in, first_readable, item_in, items_in, kind_in, label_in, message_in,
    payload_in, rest_of_batch, rest_of_event, sent_message_in, timestamp_in, user_in,
    DecodeErrorView,
};
use crate::encode::{
    batch_members, event_members, stored_members, tag_member, tagged_members, transport_members,
};
use crate::event::EventView;
use crate::json::{as_items, as_members, as_string, has_key, is_null, to_map};
use crate::members::{
    has_member, lemma_batch_member_keys, lemma_event_member_keys, lemma_has_member_in_row,
    lemma_has_member_single,
};
use crate::message::{BatchMessage, BatchView, Message, MessageView, StoredMessage};
use crate::timestamp::rfc3339_parse;
use crate::user::User;
use crate::validate::{
    batch_fault, event_fault, first_faulty, lemma_first_reserved, lemma_valid_batch_extras,
    lemma_valid_event_extras, Fault,
};
use crate::wire::{Kind, WireKey};
use serde_json::Value;
use time::OffsetDateTime;
use vstd::prelude::*;
use vstd::std_specs::convert::FromSpec;

verus! {

/// An identity that has both identifiers shows its user id.
pub proof fn lemma_user_id_comes_first(user: User)
    requires
        user is Both,
    ensures
        user@.shown() == user->Both_user_id@,
{
}

/// After the items of a batch that had no timestamp were given one, every
/// item has a timestamp, and an item that had one has kept it.
pub proof fn lemma_backfilled_is_stamped(b: BatchView, now: OffsetDateTime)
    ensures
        b.backfilled(now).all_stamped(),
        b.backfilled(now).items.len() == b.items.len(),
        forall|i: int|
            0 <= i < b.items.len() && (#[trigger] b.items[i]).timestamp is Some ==> b.backfilled(
                now,
            ).items[i] == b.items[i],
{
}

/// An event with an extra field under a key that its kind reserves is not
/// valid: where nothing else is wrong with it, the fault is a reserved key.
pub proof fn lemma_reserved_key_is_rejected(ev: EventView, key: WireKey)
    requires
        ev.kind.reserved().contains(key),
        has_key(ev.extra, key.text()),
    ensures
        !ev.is_valid(),
        event_fault(ev) matches Some(fault) ==> fault == Fault::MissingIdentity || (
        fault matches Fault::EmptyField(_)) || (fault matches Fault::ReservedKey(k)
            && ev.kind.reserved().contains(k) && has_key(ev.extra, k.text())),
{
    lemma_first_reserved(to_map(ev.extra).dom(), ev.kind.reserved());
}

/// A batch with an extra field under a key that a batch reserves is not
/// valid.
pub proof fn lemma_reserved_batch_key_is_rejected(b: BatchView, key: WireKey)
    requires
        Kind::Batch.reserved().contains(key),
        has_key(b.extra, key.text()),
    ensures
        !b.is_valid(),
{
    lemma_first_reserved(to_map(b.extra).dom(), Kind::Batch.reserved());
}

/// Every kind reserves `type`.
pub proof fn lemma_type_is_reserved(kind: Kind)
    ensures
        kind.reserved().contains(WireKey::Type),
{
    assert(kind.reserved()[0] == WireKey::Type);
}

/// The transport form of a valid message has no member under `type`: it
/// does not say what kind it is. The stored form is the transport form with
/// one member in front, which is under `type` and holds the kind's
/// discriminant.
pub proof fn lemma_discriminant(m: MessageView)
    requires
        m.is_valid(),
    ensures
        !has_member(transport_members(m), WireKey::Type.text()),
        stored_members(m) == seq![tag_member(m.kind())] + transport_members(m),
        stored_members(m)[0] == tag_member(m.kind()),
        forall|i: int|
            1 <= i < stored_members(m).len() ==> (#[trigger] stored_members(m)[i]).0
                != WireKey::Type.text(),
{
    let key = WireKey::Type.text();
    assert forall|k: WireKey| k != WireKey::Type implies #[trigger] k.text() != key by {
        WireKey::lemma_names_differ(k, WireKey::Type);
    }
    match m {
        MessageView::Event(ev) => {
            lemma_event_member_keys(ev, key);
            lemma_type_is_reserved(ev.kind);
            lemma_valid_event_extras(ev, WireKey::Type);
        },
        MessageView::Batch(b) => {
            lemma_batch_member_keys(b, key);
            lemma_type_is_reserved(Kind::Batch);
            lemma_valid_batch_extras(b, WireKey::Type);
        },
    }
    let stored = stored_members(m);
    let sent = transport_members(m);
    assert forall|i: int| 1 <= i < stored.len() implies (#[trigger] stored[i]).0 != key by {
        assert(stored[i] == sent[i - 1]);
    }
}

/// Whether a JSON object holds an event in one of the two forms, the stored
/// one where `tagged` says so: it has a value under every key under which
/// that form writes a member, and under no other; and each value is what
/// the event has in that field. A text is held as a JSON string, an absent
/// name of a page as `null`, a timestamp as a JSON string that denotes it.
pub open spec fn holds_event(m: Map<Seq<char>, Value>, ev: EventView, tagged: bool) -> bool {
    &&& forall|key: Seq<char>| #[trigger]
        m.dom().contains(key) <==> has_member(
            tagged_members(ev.kind, tagged, event_members(ev)),
            key,
        )
    &&& tagged ==> as_string(m[WireKey::Type.text()]) == Some(ev.kind.tag())
    &&& ev.user.user_id matches Some(id) ==> as_string(m[WireKey::UserId.text()]) == Some(id)
    &&& ev.user.anonymous_id matches Some(id) ==> as_string(m[WireKey::AnonymousId.text()])
        == Some(id)
    &&& ev.kind.label_key() matches Some(key) ==> match ev.label {
        Some(s) => as_string(m[key.text()]) == Some(s) && !is_null(m[key.text()]),
        None => is_null(m[key.text()]),
    }
    &&& ev.kind.payload_key() matches Some(key) ==> (ev.payload matches Some(v) ==> m[key.text()]
        == v)
    &&& ev.timestamp matches Some(t) ==> match as_string(m[WireKey::Timestamp.text()]) {
        Some(s) => rfc3339_parse(s) == Some(t),
        None => false,
    }
    &&& ev.context matches Some(v) ==> m[WireKey::Context.text()] == v
    &&& ev.integrations matches Some(v) ==> m[WireKey::Integrations.text()] == v
    &&& forall|i: int| 0 <= i < ev.extra.len() ==> m[(#[trigger] ev.extra[i]).0] == ev.extra[i].1
}

/// Whether an event writes a member under a field name.
pub open spec fn event_has(ev: EventView, key: WireKey, tagged: bool) -> bool {
    ||| key == WireKey::Type && tagged
    ||| key == WireKey::UserId && ev.user.user_id is Some
    ||| key == WireKey::AnonymousId && ev.user.anonymous_id is Some
    ||| ev.kind.label_key() == Some(key)
    ||| ev.kind.payload_key() == Some(key) && ev.payload is Some
    ||| key == WireKey::Timestamp && ev.timestamp is Some && ev.can_format()
    ||| key == WireKey::Context && ev.context is Some
    ||| key == WireKey::Integrations && ev.integrations is Some
}

/// The field names that the kind of an event reserves.
pub proof fn lemma_reserved_of_event(kind: Kind, key: WireKey)
    requires
        kind != Kind::Batch,
    ensures
        kind.reserved().contains(key) <==> (key == WireKey::Type || key == WireKey::UserId || key
            == WireKey::AnonymousId || kind.label_key() == Some(key) || kind.payload_key() == Some(
            key,
        ) || key == WireKey::Timestamp || key == WireKey::Context || key
            == WireKey::Integrations),
{
    let keys = kind.reserved();
    assert(keys[0] == WireKey::Type);
    assert(keys[1] == WireKey::UserId);
    assert(keys[2] == WireKey::AnonymousId);
    assert(keys[keys.len() - 3] == WireKey::Timestamp);
    assert(keys[keys.len() - 2] == WireKey::Context);
    assert(keys[keys.len() - 1] == WireKey::Integrations);
    if kind.label_key() is Some {
        assert(keys[3] == kind.label_key()->0);
    }
    if kind.payload_key() is Some {
        assert(keys[keys.len() - 4] == kind.payload_key()->0);
    }
    if keys.contains(key) {
        let i = choose|i: int| 0 <= i < keys.len() && keys[i] == key;
        assert(i == 0 || i == 1 || i == 2 || i == 3 || i == 4 || i == 5 || i == 6 || i == 7);
    }
}

/// The keys of the members of a message in one of the two forms: in the
/// stored form `type`, and in both the keys of the transport form.
proof fn lemma_tagged_member_keys(
    kind: Kind,
    tagged: bool,
    members: Seq<(Seq<char>, Seq<char>)>,
    key: Seq<char>,
)
    ensures
        has_member(tagged_members(kind, tagged, members), key) <==> (tagged && key
            == WireKey::Type.text()) || has_member(members, key),
{
    if tagged {
        lemma_has_member_in_row(seq![tag_member(kind)], members, key);
        lemma_has_member_single(tag_member(kind), key);
    }
}

/// An object that holds a valid event has a value under a reserved field
/// name exactly where the event writes a member under it.
proof fn lemma_held_names(m: Map<Seq<char>, Value>, ev: EventView, tagged: bool, key: WireKey)
    requires
        ev.kind != Kind::Batch,
        ev.is_valid(),
        holds_event(m, ev, tagged),
        ev.kind.reserved().contains(key),
    ensures
        m.dom().contains(key.text()) <==> event_has(ev, key, tagged),
{
    let members = event_members(ev);
    lemma_tagged_member_keys(ev.kind, tagged, members, key.text());
    lemma_event_member_keys(ev, key.text());
    lemma_valid_event_extras(ev, key);
    lemma_reserved_of_event(ev.kind, key);
    assert forall|k: WireKey| k != key implies #[trigger] k.text() != key.text() by {
        WireKey::lemma_names_differ(k, key);
    }
    assert(m.dom().contains(key.text()) <==> has_member(
        tagged_members(ev.kind, tagged, members),
        key.text(),
    ));
}

/// An object that holds a valid event has, beside the reserved field
/// names, the keys of the event's extra fields.
proof fn lemma_held_extras(m: Map<Seq<char>, Value>, ev: EventView, tagged: bool)
    requires
        ev.kind != Kind::Batch,
        ev.is_valid(),
        holds_event(m, ev, tagged),
    ensures
        rest_of_event(ev.kind, m.remove(WireKey::Type.text())) == to_map(ev.extra),
{
    let rest = rest_of_event(ev.kind, m.remove(WireKey::Type.text()));
    let extra = to_map(ev.extra);
    let members = event_members(ev);
    assert forall|key: Seq<char>| rest.dom().contains(key) <==> extra.dom().contains(key) by {
        lemma_tagged_member_keys(ev.kind, tagged, members, key);
        lemma_event_member_keys(ev, key);
        assert(m.dom().contains(key) <==> has_member(
            tagged_members(ev.kind, tagged, members),
            key,
        ));
        if has_key(ev.extra, key) {
            assert forall|k: WireKey| ev.kind.reserved().contains(k) implies k.text() != key by {
                lemma_valid_event_extras(ev, k);
            }
            lemma_reserved_of_event(ev.kind, WireKey::Type);
            lemma_reserved_of_event(ev.kind, WireKey::UserId);
            lemma_reserved_of_event(ev.kind, WireKey::AnonymousId);
            lemma_reserved_of_event(ev.kind, WireKey::Timestamp);
            lemma_reserved_of_event(ev.kind, WireKey::Context);
            lemma_reserved_of_event(ev.kind, WireKey::Integrations);
            if ev.kind.label_key() is Some {
                lemma_reserved_of_event(ev.kind, ev.kind.label_key()->0);
            }
            if ev.kind.payload_key() is Some {
                lemma_reserved_of_event(ev.kind, ev.kind.payload_key()->0);
            }
        }
    }
    assert forall|key: Seq<char>| rest.dom().contains(key) implies rest[key] == extra[key] by {
        let i = choose|i: int| 0 <= i < ev.extra.len() && (#[trigger] ev.extra[i]).0 == key;
        assert(m[ev.extra[i].0] == ev.extra[i].1);
    }
    assert(rest =~= extra);
}

/// An object that holds a valid event decodes to that event: every field
/// comes back as it was, and from the stored form the kind too. An object
/// that holds the event in transport form has nothing under `type`.
pub proof fn lemma_event_round_trip(m: Map<Seq<char>, Value>, ev: EventView, tagged: bool)
    requires
        ev.well_shaped(),
        ev.is_valid(),
        ev.can_format(),
        holds_event(m, ev, tagged),
    ensures
        tagged ==> kind_in(m) == Ok::<_, DecodeErrorView>(ev.kind),
        !tagged ==> m.remove(WireKey::Type.text()) == m,
        event_in(ev.kind, m.remove(WireKey::Type.text())) == Ok::<_, DecodeErrorView>(
            ev.content(),
        ),
{
    let kind = ev.kind;
    let rest = m.remove(WireKey::Type.text());
    assert forall|k: WireKey| k != WireKey::Type implies #[trigger] k.text()
        != WireKey::Type.text() by {
        WireKey::lemma_names_differ(k, WireKey::Type);
    }
    Kind::lemma_named(kind.tag(), kind);
    lemma_reserved_of_event(kind, WireKey::Type);
    lemma_reserved_of_event(kind, WireKey::UserId);
    lemma_reserved_of_event(kind, WireKey::AnonymousId);
    lemma_reserved_of_event(kind, WireKey::Timestamp);
    lemma_reserved_of_event(kind, WireKey::Context);
    lemma_reserved_of_event(kind, WireKey::Integrations);
    lemma_held_names(m, ev, tagged, WireKey::Type);
    lemma_held_names(m, ev, tagged, WireKey::UserId);
    lemma_held_names(m, ev, tagged, WireKey::AnonymousId);
    lemma_held_names(m, ev, tagged, WireKey::Timestamp);
    lemma_held_names(m, ev, tagged, WireKey::Context);
    lemma_held_names(m, ev, tagged, WireKey::Integrations);
    if kind.label_key() is Some {
        lemma_reserved_of_event(kind, kind.label_key()->0);
        lemma_held_names(m, ev, tagged, kind.label_key()->0);
    }
    if kind.payload_key() is Some {
        lemma_reserved_of_event(kind, kind.payload_key()->0);
        lemma_held_names(m, ev, tagged, kind.payload_key()->0);
    }
    lemma_held_extras(m, ev, tagged);
    if !tagged {
        assert(rest =~= m);
    }
    assert(user_in(rest) == Ok::<_, DecodeErrorView>(ev.user));
    assert(label_in(kind, rest) == Ok::<_, DecodeErrorView>(ev.label));
    assert(payload_in(kind, rest) == Ok::<_, DecodeErrorView>(ev.payload));
    assert(timestamp_in(rest) == Ok::<_, DecodeErrorView>(ev.timestamp));
}

/// Whether a JSON value holds an event in stored form: see
/// [`holds_event`].
pub open spec fn holds_item(v: Value, ev: EventView) -> bool {
    match as_members(v) {
        Some(es) => holds_event(to_map(es), ev, true),
        None => false,
    }
}

/// Whether a JSON object holds a batch in one of the two forms, the stored
/// one where `tagged` says so: it has a value under every key under which
/// that form writes a member, and under no other; the value under `batch`
/// is an array that holds the items in order, each in stored form; and
/// every other value is what the batch has in that field.
pub open spec fn holds_batch(m: Map<Seq<char>, Value>, b: BatchView, tagged: bool) -> bool {
    &&& forall|key: Seq<char>| #[trigger]
        m.dom().contains(key) <==> has_member(
            tagged_members(Kind::Batch, tagged, batch_members(b)),
            key,
        )
    &&& tagged ==> as_string(m[WireKey::Type.text()]) == Some(Kind::Batch.tag())
    &&& match as_items(m[WireKey::Batch.text()]) {
        Some(items) => items.len() == b.items.len() && forall|i: int|
            0 <= i < items.len() ==> holds_item(#[trigger] items[i], b.items[i]),
        None => false,
    }
    &&& b.context matches Some(v) ==> m[WireKey::Context.text()] == v
    &&& b.integrations matches Some(v) ==> m[WireKey::Integrations.text()] == v
    &&& forall|i: int| 0 <= i < b.extra.len() ==> m[(#[trigger] b.extra[i]).0] == b.extra[i].1
}

/// Whether a JSON value holds a message in one of the two forms, the stored
/// one where `tagged` says so.
pub open spec fn holds_message(v: Value, m: MessageView, tagged: bool) -> bool {
    match as_members(v) {
        Some(es) => match m {
            MessageView::Event(ev) => holds_event(to_map(es), ev, tagged),
            MessageView::Batch(b) => holds_batch(to_map(es), b, tagged),
        },
        None => false,
    }
}

/// Every item of a valid batch is valid.
pub proof fn lemma_valid_items(b: BatchView, i: int)
    requires
        b.is_valid(),
        0 <= i < b.items.len(),
    ensures
        b.items[i].is_valid(),
{
    lemma_no_faulty_from(b.items, 0, i);
}

/// Where no item at or after `from` has a fault, the item at `i` has none.
proof fn lemma_no_faulty_from(items: Seq<EventView>, from: int, i: int)
    requires
        0 <= from <= i < items.len(),
        first_faulty(items, from) is None,
    ensures
        event_fault(items[i]) is None,
    decreases i - from,
{
    if from < i {
        lemma_no_faulty_from(items, from + 1, i);
    }
}

/// Values that hold valid events, one by one, decode to those events.
proof fn lemma_items_round_trip(items: Seq<Value>, events: Seq<EventView>)
    requires
        items.len() == events.len(),
        forall|i: int|
            0 <= i < events.len() ==> {
                &&& (#[trigger] events[i]).well_shaped()
                &&& events[i].is_valid()
                &&& events[i].can_format()
                &&& holds_item(items[i], events[i])
            },
    ensures
        items_in(items) == Ok::<_, DecodeErrorView>(
            Seq::new(events.len(), |i: int| events[i].content()),
        ),
    decreases items.len(),
{
    let all = Seq::new(events.len(), |i: int| events[i].content());
    if items.len() == 0 {
        assert(all =~= Seq::empty());
    } else {
        let n = items.len() - 1;
        let head = events.drop_last();
        assert forall|i: int| 0 <= i < head.len() implies {
            &&& (#[trigger] head[i]).well_shaped()
            &&& head[i].is_valid()
            &&& head[i].can_format()
            &&& holds_item(items.drop_last()[i], head[i])
        } by {
            assert(head[i] == events[i]);
        }
        lemma_items_round_trip(items.drop_last(), head);
        let last = events[n];
        assert(last.well_shaped() && holds_item(items[n], last));
        lemma_event_round_trip(to_map(as_members(items[n])->0), last, true);
        assert(item_in(items.last()) == Ok::<_, DecodeErrorView>(last.content()));
        assert(Seq::new(head.len(), |i: int| head[i].content()).push(last.content()) =~= all);
    }
}

/// The field names that a batch reserves.
pub proof fn lemma_reserved_of_batch(key: WireKey)
    ensures
        Kind::Batch.reserved().contains(key) <==> (key == WireKey::Type || key == WireKey::Batch
            || key == WireKey::Context || key == WireKey::Integrations),
{
    let keys = Kind::Batch.reserved();
    assert(keys[0] == WireKey::Type);
    assert(keys[1] == WireKey::Batch);
    assert(keys[2] == WireKey::Context);
    assert(keys[3] == WireKey::Integrations);
}

/// An object that holds a valid batch has a value under a reserved field
/// name exactly where the batch writes a member under it.
proof fn lemma_held_batch_names(
    m: Map<Seq<char>, Value>,
    b: BatchView,
    tagged: bool,
    key: WireKey,
)
    requires
        b.is_valid(),
        holds_batch(m, b, tagged),
        Kind::Batch.reserved().contains(key),
    ensures
        m.dom().contains(key.text()) <==> ((key == WireKey::Type && tagged) || key
            == WireKey::Batch || (key == WireKey::Context && b.context is Some) || (key
            == WireKey::Integrations && b.integrations is Some)),
{
    let members = batch_members(b);
    lemma_tagged_member_keys(Kind::Batch, tagged, members, key.text());
    lemma_batch_member_keys(b, key.text());
    lemma_valid_batch_extras(b, key);
    lemma_reserved_of_batch(key);
    assert forall|k: WireKey| k != key implies #[trigger] k.text() != key.text() by {
        WireKey::lemma_names_differ(k, key);
    }
    assert(m.dom().contains(key.text()) <==> has_member(
        tagged_members(Kind::Batch, tagged, members),
        key.text(),
    ));
}

/// An object that holds a valid batch has, beside the reserved field names,
/// the keys of the batch's extra fields.
proof fn lemma_held_batch_extras(m: Map<Seq<char>, Value>, b: BatchView, tagged: bool)
    requires
        b.is_valid(),
        holds_batch(m, b, tagged),
    ensures
        rest_of_batch(m.remove(WireKey::Type.text())) == to_map(b.extra),
{
    let rest = rest_of_batch(m.remove(WireKey::Type.text()));
    let extra = to_map(b.extra);
    let members = batch_members(b);
    assert forall|key: Seq<char>| rest.dom().contains(key) <==> extra.dom().contains(key) by {
        lemma_tagged_member_keys(Kind::Batch, tagged, members, key);
        lemma_batch_member_keys(b, key);
        assert(m.dom().contains(key) <==> has_member(
            tagged_members(Kind::Batch, tagged, members),
            key,
        ));
        if has_key(b.extra, key) {
            assert forall|k: WireKey| Kind::Batch.reserved().contains(k) implies k.text()
                != key by {
                lemma_valid_batch_extras(b, k);
            }
            lemma_reserved_of_batch(WireKey::Type);
            lemma_reserved_of_batch(WireKey::Batch);
            lemma_reserved_of_batch(WireKey::Context);
            lemma_reserved_of_batch(WireKey::Integrations);
        }
    }
    assert forall|key: Seq<char>| rest.dom().contains(key) implies rest[key] == extra[key] by {
        let i = choose|i: int| 0 <= i < b.extra.len() && (#[trigger] b.extra[i]).0 == key;
        assert(m[b.extra[i].0] == b.extra[i].1);
    }
    assert(rest =~= extra);
}

/// An object that holds a valid batch decodes to that batch: every item
/// and every field come back as they were, and from the stored form the
/// kind too. An object that holds the batch in transport form has nothing
/// under `type`.
pub proof fn lemma_batch_round_trip(m: Map<Seq<char>, Value>, b: BatchView, tagged: bool)
    requires
        forall|i: int| 0 <= i < b.items.len() ==> (#[trigger] b.items[i]).well_shaped(),
        b.is_valid(),
        MessageView::Batch(b).can_format(),
        holds_batch(m, b, tagged),
    ensures
        tagged ==> kind_in(m) == Ok::<_, DecodeErrorView>(Kind::Batch),
        !tagged ==> m.remove(WireKey::Type.text()) == m,
        batch_in(m.remove(WireKey::Type.text())) == Ok::<_, DecodeErrorView>(b.content()),
{
    Kind::lemma_named(Kind::Batch.tag(), Kind::Batch);
    assert forall|k: WireKey| k != WireKey::Type implies #[trigger] k.text()
        != WireKey::Type.text() by {
        WireKey::lemma_names_differ(k, WireKey::Type);
    }
    lemma_reserved_of_batch(WireKey::Type);
    lemma_reserved_of_batch(WireKey::Batch);
    lemma_reserved_of_batch(WireKey::Context);
    lemma_reserved_of_batch(WireKey::Integrations);
    lemma_held_batch_names(m, b, tagged, WireKey::Type);
    lemma_held_batch_names(m, b, tagged, WireKey::Batch);
    lemma_held_batch_names(m, b, tagged, WireKey::Context);
    lemma_held_batch_names(m, b, tagged, WireKey::Integrations);
    lemma_held_batch_extras(m, b, tagged);
    if !tagged {
        assert(m.remove(WireKey::Type.text()) =~= m);
    }
    let items = as_items(m[WireKey::Batch.text()])->0;
    assert forall|i: int| 0 <= i < b.items.len() implies {
        &&& (#[trigger] b.items[i]).well_shaped()
        &&& b.items[i].is_valid()
        &&& b.items[i].can_format()
        &&& holds_item(items[i], b.items[i])
    } by {
        lemma_valid_items(b, i);
    }
    lemma_items_round_trip(items, b.items);
}

/// The view of an event in a batch has the shape of its kind.
pub proof fn lemma_event_shape(event: BatchMessage)
    ensures
        event@.well_shaped(),
{
    match event {
        BatchMessage::Identify(e) => lemma_user_shape(e.user),
        BatchMessage::Track(e) => lemma_user_shape(e.user),
        BatchMessage::Page(e) => lemma_user_shape(e.user),
        BatchMessage::Screen(e) => lemma_user_shape(e.user),
        BatchMessage::Group(e) => lemma_user_shape(e.user),
        BatchMessage::Alias(e) => lemma_user_shape(e.user),
    }
}

/// An identity has an identifier.
pub proof fn lemma_user_shape(user: User)
    ensures
        user@.user_id is Some || user@.anonymous_id is Some,
{
}

/// The view of a stored message has the shape of its kind, and so has the
/// view of every item where the message is a batch.
pub proof fn lemma_stored_shape(stored: StoredMessage)
    ensures
        match stored@ {
            MessageView::Event(ev) => ev.well_shaped(),
            MessageView::Batch(b) => forall|i: int|
                0 <= i < b.items.len() ==> (#[trigger] b.items[i]).well_shaped(),
        },
{
    match stored {
        StoredMessage::Identify(e) => lemma_user_shape(e.user),
        StoredMessage::Track(e) => lemma_user_shape(e.user),
        StoredMessage::Page(e) => lemma_user_shape(e.user),
        StoredMessage::Screen(e) => lemma_user_shape(e.user),
        StoredMessage::Group(e) => lemma_user_shape(e.user),
        StoredMessage::Alias(e) => lemma_user_shape(e.user),
        StoredMessage::Batch(b) => {
            assert forall|i: int| 0 <= i < b@.items.len() implies (
            #[trigger] b@.items[i]).well_shaped() by {
                lemma_event_shape(b.batch@[i]);
            }
        },
    }
}

/// The view of a message to send has the shape of its kind, and so has the
/// view of every item where the message is a batch.
pub proof fn lemma_sent_shape(message: Message)
    ensures
        match message@ {
            MessageView::Event(ev) => ev.well_shaped(),
            MessageView::Batch(b) => forall|i: int|
                0 <= i < b.items.len() ==> (#[trigger] b.items[i]).well_shaped(),
        },
{
    match message {
        Message::Identify(e) => lemma_user_shape(e.user),
        Message::Track(e) => lemma_user_shape(e.user),
        Message::Page(e) => lemma_user_shape(e.user),
        Message::Screen(e) => lemma_user_shape(e.user),
        Message::Group(e) => lemma_user_shape(e.user),
        Message::Alias(e) => lemma_user_shape(e.user),
        Message::Batch(b) => {
            assert forall|i: int| 0 <= i < b@.items.len() implies (
            #[trigger] b@.items[i]).well_shaped() by {
                lemma_event_shape(b.batch@[i]);
            }
        },
    }
}

/// Decoding inverts the stored form: a JSON value that holds a valid stored
/// message, with timestamps that have a text, decodes to that message. The
/// kind and every field come back as they were.
pub proof fn lemma_decoding_inverts_storing(v: Value, stored: StoredMessage)
    requires
        stored@.is_valid(),
        stored@.can_format(),
        holds_message(v, stored@, true),
    ensures
        message_in(v) == Ok::<_, DecodeErrorView>(stored@.content()),
{
    let m = to_map(as_members(v)->0);
    lemma_stored_shape(stored);
    match stored@ {
        MessageView::Event(ev) => lemma_event_round_trip(m, ev, true),
        MessageView::Batch(b) => lemma_batch_round_trip(m, b, true),
    }
}

/// A stored message and the message to send that it converts to are of the
/// same kind and hold the same in every field.
pub proof fn lemma_conversion_keeps_fields(stored: StoredMessage)
    ensures
        Message::from_spec(stored)@ == stored@,
{
}

/// Round trip: where a valid stored message is encoded, read back and
/// converted to a message to send, that message is of the same kind and
/// holds in every field what the stored message held. The reading starts
/// from a JSON value that holds the stored message; `decoded` is any
/// message that [`StoredMessage::from_value`] may return for it.
pub proof fn lemma_round_trip(v: Value, stored: StoredMessage, decoded: StoredMessage)
    requires
        stored@.is_valid(),
        stored@.can_format(),
        holds_message(v, stored@, true),
        message_in(v) == Ok::<_, DecodeErrorView>(decoded@.content()),
    ensures
        Message::from_spec(decoded)@.content() == stored@.content(),
        Message::from_spec(decoded)@.kind() == stored@.kind(),
{
    lemma_decoding_inverts_storing(v, stored);
    lemma_conversion_keeps_fields(decoded);
}

/// A JSON value that holds a valid message in transport form can be read as
/// a message of that kind, with every field as it was. Decoding gives that
/// message back unless the value can also be read as a kind that is tried
/// earlier; an identify, which is tried first, always comes back.
pub proof fn lemma_sent_message_is_readable(v: Value, message: Message)
    requires
        message@.is_valid(),
        message@.can_format(),
        holds_message(v, message@, false),
    ensures
        match message@ {
            MessageView::Event(ev) => event_in(ev.kind, to_map(as_members(v)->0)) == Ok::<
                _,
                DecodeErrorView,
            >(ev.content()),
            MessageView::Batch(b) => batch_in(to_map(as_members(v)->0)) == Ok::<
                _,
                DecodeErrorView,
            >(b.content()),
        },
        first_readable(to_map(as_members(v)->0)) is Some,
        first_readable(to_map(as_members(v)->0)) == Some(message@.kind()) ==> sent_message_in(v)
            == Ok::<_, DecodeErrorView>(message@.content()),
        message is Identify ==> sent_message_in(v) == Ok::<_, DecodeErrorView>(
            message@.content(),
        ),
{
    let m = to_map(as_members(v)->0);
    lemma_sent_shape(message);
    match message@ {
        MessageView::Event(ev) => lemma_event_round_trip(m, ev, false),
        MessageView::Batch(b) => lemma_batch_round_trip(m, b, false),
    }
}

/// Giving the items of a batch their timestamps changes nothing that
/// validation looks at: a batch has after it the fault that it had before.
pub proof fn lemma_backfilled_keeps_faults(b: BatchView, now: OffsetDateTime)
    ensures
        batch_fault(b.backfilled(now)) == batch_fault(b),
{
    let after = b.backfilled(now);
    assert forall|i: int| 0 <= i < b.items.len() implies event_fault(#[trigger] after.items[i])
        == event_fault(b.items[i]) by {}
    lemma_same_faults(b.items, after.items, 0);
}

/// Items that have the same faults one by one have the same first faulty
/// item.
proof fn lemma_same_faults(a: Seq<EventView>, b: Seq<EventView>, from: int)
    requires
        a.len() == b.len(),
        0 <= from <= a.len(),
        forall|i: int| 0 <= i < a.len() ==> event_fault(#[trigger] b[i]) == event_fault(a[i]),
    ensures
        first_faulty(b, from) == first_faulty(a, from),
    decreases a.len() - from,
{
    if from < a.len() {
        lemma_same_faults(a, b, from + 1);
    }
}

/// The extra fields that decoding keeps never have a key that the kind
/// reserves: the extra fields of a decoded event do not stand in the way of
/// encoding it again.
pub proof fn lemma_decoded_extras_are_free(kind: Kind, m: Map<Seq<char>, Value>, key: WireKey)
    requires
        kind != Kind::Batch,
        kind.reserved().contains(key),
    ensures
        !rest_of_event(kind, m.remove(WireKey::Type.text())).dom().contains(key.text()),
{
    lemma_reserved_of_event(kind, key);
}

/// The extra fields that decoding keeps for a batch never have a key that
/// a batch reserves.
pub proof fn lemma_decoded_batch_extras_are_free(m: Map<Seq<char>, Value>, key: WireKey)
    requires
        Kind::Batch.reserved().contains(key),
    ensures
        !rest_of_batch(m.remove(WireKey::Type.text())).dom().contains(key.text()),
{
    lemma_reserved_of_batch(key);
}

} // verus!
