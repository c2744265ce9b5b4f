//! The two encodings of a message as JSON text.
//!
//! The transport form is what the API takes: one JSON object with the
//! message's fields, and nothing that says what kind of message it is. The
//! stored form is the same object with the kind written first, under
//! `type`. The items of a batch are always written in stored form.
//!
//! The fields come in a fixed order: the identity, the kind's own text, its
//! free-form data, the timestamp, the context, the integrations, and the
//! extra fields last. What is absent is left out, not written as `null`;
//! only a page without a name still says so.

use crate::event::{EventRef, EventView};
use crate::json::{entries, json_text, object_entries, quoted, string_value, value_text, Object};
use crate::message::{Batch, BatchView, Message, MessageRef, MessageView, StoredMessage};
use crate::timestamp::{format_rfc3339, rfc3339_text};
use crate::user::{User, UserView};
use crate::validate::{message_fault, ValidationError};
use crate::wire::{Kind, WireKey};
use serde_json::Value;
use time::OffsetDateTime;
use vstd::prelude::*;
use vstd::string::StringExecFns;

verus! {

/// Why a message could not be encoded.
#[derive(PartialEq, Eq, Structural, Clone, Copy, Debug)]
pub enum EncodeError {
    /// The message is not fit to be encoded.
    Invalid(ValidationError),
    /// A timestamp of the message has no RFC 3339 text.
    Timestamp,
}

/// The texts in order, with a comma between each two.
pub open spec fn separated(texts: Seq<Seq<char>>) -> Seq<char>
    decreases texts.len(),
{
    if texts.len() == 0 {
        Seq::empty()
    } else if texts.len() == 1 {
        texts[0]
    } else {
        separated(texts.drop_last()) + ","@ + texts.last()
    }
}

/// The text of a JSON array, from the texts of its items.
pub open spec fn listed(items: Seq<Seq<char>>) -> Seq<char> {
    "["@ + separated(items) + "]"@
}

/// The text of a JSON object, from the texts of its keys and values.
pub open spec fn framed(parts: Seq<(Seq<char>, Seq<char>)>) -> Seq<char> {
    "{"@ + separated(Seq::new(parts.len(), |i: int| parts[i].0 + ":"@ + parts[i].1)) + "}"@
}

/// The members with each key as JSON text.
pub open spec fn quoted_keys(members: Seq<(Seq<char>, Seq<char>)>) -> Seq<
    (Seq<char>, Seq<char>),
> {
    Seq::new(members.len(), |i: int| (quoted(members[i].0), members[i].1))
}

/// The text of a JSON object, from its members: each a key and the JSON
/// text of its value.
pub open spec fn object_text(members: Seq<(Seq<char>, Seq<char>)>) -> Seq<char> {
    framed(quoted_keys(members))
}

/// The member for a value that may be absent.
pub open spec fn optional_member(key: WireKey, value: Option<Value>) -> Seq<
    (Seq<char>, Seq<char>),
> {
    match value {
        Some(v) => seq![(key.text(), json_text(v))],
        None => seq![],
    }
}

/// The members that name the user.
pub open spec fn user_members(user: UserView) -> Seq<(Seq<char>, Seq<char>)> {
    (match user.user_id {
        Some(id) => seq![(WireKey::UserId.text(), quoted(id))],
        None => seq![],
    }) + (match user.anonymous_id {
        Some(id) => seq![(WireKey::AnonymousId.text(), quoted(id))],
        None => seq![],
    })
}

/// The member for the kind's own text. A kind that has such a text writes
/// it even where it is absent, as `null`.
pub open spec fn label_members(kind: Kind, label: Option<Seq<char>>) -> Seq<
    (Seq<char>, Seq<char>),
> {
    match kind.label_key() {
        Some(key) => seq![
            (
                key.text(),
                match label {
                    Some(s) => quoted(s),
                    None => "null"@,
                },
            ),
        ],
        None => seq![],
    }
}

/// The member for the kind's free-form data.
pub open spec fn payload_members(kind: Kind, payload: Option<Value>) -> Seq<
    (Seq<char>, Seq<char>),
> {
    match kind.payload_key() {
        Some(key) => optional_member(key, payload),
        None => seq![],
    }
}

/// The member for the timestamp, where there is one that has a text.
pub open spec fn timestamp_members(timestamp: Option<OffsetDateTime>) -> Seq<
    (Seq<char>, Seq<char>),
> {
    match timestamp {
        Some(t) => match rfc3339_text(t) {
            Some(s) => seq![(WireKey::Timestamp.text(), quoted(s))],
            None => seq![],
        },
        None => seq![],
    }
}

/// The members for the extra fields, in their order.
pub open spec fn extra_members(extra: Seq<(Seq<char>, Value)>) -> Seq<(Seq<char>, Seq<char>)> {
    Seq::new(extra.len(), |i: int| (extra[i].0, json_text(extra[i].1)))
}

/// The members of an event in transport form.
pub open spec fn event_members(ev: EventView) -> Seq<(Seq<char>, Seq<char>)> {
    user_members(ev.user) + label_members(ev.kind, ev.label) + payload_members(
        ev.kind,
        ev.payload,
    ) + timestamp_members(ev.timestamp) + optional_member(WireKey::Context, ev.context)
        + optional_member(WireKey::Integrations, ev.integrations) + extra_members(ev.extra)
}

/// The member that says what kind a stored message is.
pub open spec fn tag_member(kind: Kind) -> (Seq<char>, Seq<char>) {
    (WireKey::Type.text(), quoted(kind.tag()))
}

/// The members with the kind in front, where the form is the stored one.
pub open spec fn tagged_members(
    kind: Kind,
    tagged: bool,
    members: Seq<(Seq<char>, Seq<char>)>,
) -> Seq<(Seq<char>, Seq<char>)> {
    if tagged {
        seq![tag_member(kind)] + members
    } else {
        members
    }
}

/// The texts of the items of a batch: each in stored form.
pub open spec fn item_texts(items: Seq<EventView>) -> Seq<Seq<char>> {
    Seq::new(
        items.len(),
        |i: int| object_text(tagged_members(items[i].kind, true, event_members(items[i]))),
    )
}

/// The members of a batch in transport form.
pub open spec fn batch_members(b: BatchView) -> Seq<(Seq<char>, Seq<char>)> {
    seq![(WireKey::Batch.text(), listed(item_texts(b.items)))] + optional_member(
        WireKey::Context,
        b.context,
    ) + optional_member(WireKey::Integrations, b.integrations) + extra_members(b.extra)
}

/// The members of a message in transport form.
pub open spec fn transport_members(m: MessageView) -> Seq<(Seq<char>, Seq<char>)> {
    match m {
        MessageView::Event(ev) => event_members(ev),
        MessageView::Batch(b) => batch_members(b),
    }
}

/// The members of a message in stored form: the kind, then the members of
/// the transport form.
pub open spec fn stored_members(m: MessageView) -> Seq<(Seq<char>, Seq<char>)> {
    tagged_members(m.kind(), true, transport_members(m))
}

/// The transport form of a message.
pub open spec fn transport_text(m: MessageView) -> Seq<char> {
    object_text(transport_members(m))
}

/// The stored form of a message.
pub open spec fn stored_text(m: MessageView) -> Seq<char> {
    object_text(stored_members(m))
}

impl EventView {
    /// Whether the timestamp of the event, if it has one, has a text.
    pub open spec fn can_format(self) -> bool {
        self.timestamp matches Some(t) ==> rfc3339_text(t) is Some
    }
}

impl MessageView {
    /// Whether every timestamp in the message has a text.
    pub open spec fn can_format(self) -> bool {
        match self {
            MessageView::Event(ev) => ev.can_format(),
            MessageView::Batch(b) => forall|i: int|
                0 <= i < b.items.len() ==> (#[trigger] b.items[i]).can_format(),
        }
    }
}

/// The texts as plain data.
pub open spec fn text_views(texts: Seq<String>) -> Seq<Seq<char>> {
    Seq::new(texts.len(), |i: int| texts[i]@)
}

/// The pairs of texts as plain data.
pub open spec fn pair_views(pairs: Seq<(String, String)>) -> Seq<(Seq<char>, Seq<char>)> {
    Seq::new(pairs.len(), |i: int| (pairs[i].0@, pairs[i].1@))
}

/// Joins texts with commas.
pub fn join(texts: &Vec<String>) -> (r: String)
    ensures
        r@ == separated(text_views(texts@)),
{
    let mut out = String::new();
    let mut i: usize = 0;
    while i < texts.len()
        invariant
            i <= texts.len(),
            out@ == separated(text_views(texts@).take(i as int)),
        decreases texts.len() - i,
    {
        proof {
            let now = text_views(texts@).take(i as int + 1);
            assert(now.drop_last() =~= text_views(texts@).take(i as int));
            assert(now.last() == texts@[i as int]@);
        }
        if i > 0 {
            out.append(",");
        }
        out.append(texts[i].as_str());
        i += 1;
    }
    assert(text_views(texts@).take(i as int) =~= text_views(texts@));
    out
}

/// Writes a JSON array from the texts of its items.
pub fn frame_list(items: &Vec<String>) -> (r: String)
    ensures
        r@ == listed(text_views(items@)),
{
    let mut out = "[".to_owned();
    let inner = join(items);
    out.append(inner.as_str());
    out.append("]");
    out
}

/// Writes a JSON object from the texts of its keys and values.
pub fn frame_object(parts: &Vec<(String, String)>) -> (r: String)
    ensures
        r@ == framed(pair_views(parts@)),
{
    let mut texts: Vec<String> = Vec::new();
    let mut i: usize = 0;
    while i < parts.len()
        invariant
            i <= parts.len(),
            texts.len() == i,
            forall|j: int|
                0 <= j < i ==> (#[trigger] texts@[j])@ == parts@[j].0@ + ":"@ + parts@[j].1@,
        decreases parts.len() - i,
    {
        let mut text = parts[i].0.clone();
        text.append(":");
        text.append(parts[i].1.as_str());
        texts.push(text);
        i += 1;
    }
    let ghost ps = pair_views(parts@);
    assert(text_views(texts@) =~= Seq::new(ps.len(), |i: int| ps[i].0 + ":"@ + ps[i].1));
    let mut out = "{".to_owned();
    let inner = join(&texts);
    out.append(inner.as_str());
    out.append("}");
    out
}

/// The JSON text of a string.
pub(crate) fn quote(s: &str) -> (r: String)
    ensures
        r@ == quoted(s@),
{
    let v = string_value(s);
    value_text(&v)
}

/// Writes a JSON object from its members: each a key and the JSON text of
/// its value.
pub(crate) fn render_object(members: &Vec<(String, String)>) -> (r: String)
    ensures
        r@ == object_text(pair_views(members@)),
{
    let mut parts: Vec<(String, String)> = Vec::new();
    let mut i: usize = 0;
    while i < members.len()
        invariant
            i <= members.len(),
            parts.len() == i,
            forall|j: int|
                0 <= j < i ==> (#[trigger] parts@[j]).0@ == quoted(members@[j].0@) && parts@[j].1@
                    == members@[j].1@,
        decreases members.len() - i,
    {
        let key = quote(members[i].0.as_str());
        let text = members[i].1.clone();
        parts.push((key, text));
        i += 1;
    }
    assert(pair_views(parts@) =~= quoted_keys(pair_views(members@)));
    frame_object(&parts)
}

/// Adds one member.
fn put(members: &mut Vec<(String, String)>, key: WireKey, text: String)
    ensures
        pair_views(final(members)@) == pair_views(old(members)@).push((key.text(), text@)),
{
    members.push((key.name().to_owned(), text));
    assert(pair_views(members@) =~= pair_views(old(members)@).push((key.text(), text@)));
}

/// Adds the member for a value that may be absent.
fn put_optional(members: &mut Vec<(String, String)>, key: WireKey, value: &Option<Value>)
    ensures
        pair_views(final(members)@) == pair_views(old(members)@) + optional_member(key, *value),
{
    match value {
        Some(v) => {
            put(members, key, value_text(v));
            assert(pair_views(members@) =~= pair_views(old(members)@) + optional_member(
                key,
                *value,
            ));
        },
        None => {
            assert(pair_views(members@) =~= pair_views(old(members)@) + optional_member(
                key,
                *value,
            ));
        },
    }
}

/// Adds the members for the extra fields.
fn put_extras(members: &mut Vec<(String, String)>, extra: &Object)
    ensures
        pair_views(final(members)@) == pair_views(old(members)@) + extra_members(entries(*extra)),
{
    let items = object_entries(extra);
    let mut i: usize = 0;
    assert(pair_views(members@) =~= pair_views(old(members)@) + extra_members(
        entries(*extra),
    ).take(0));
    while i < items.len()
        invariant
            i <= items.len(),
            items.len() == entries(*extra).len(),
            forall|j: int|
                0 <= j < items.len() ==> (#[trigger] items[j]).0@ == entries(*extra)[j].0
                    && items[j].1 == entries(*extra)[j].1,
            pair_views(members@) == pair_views(old(members)@) + extra_members(
                entries(*extra),
            ).take(i as int),
        decreases items.len() - i,
    {
        let ghost before = pair_views(members@);
        let key = items[i].0.clone();
        let text = value_text(&items[i].1);
        members.push((key, text));
        assert(pair_views(members@) =~= before.push((key@, text@)));
        assert(pair_views(members@) =~= pair_views(old(members)@) + extra_members(
            entries(*extra),
        ).take(i as int + 1));
        i += 1;
    }
    assert(extra_members(entries(*extra)).take(i as int) =~= extra_members(entries(*extra)));
}

/// Adds the member that says the kind, where the form is the stored one.
fn put_tag(members: &mut Vec<(String, String)>, kind: Kind, tagged: bool)
    ensures
        pair_views(final(members)@) == pair_views(old(members)@) + tagged_members(
            kind,
            tagged,
            Seq::empty(),
        ),
{
    if tagged {
        put(members, WireKey::Type, quote(kind.name()));
    }
    assert(pair_views(members@) =~= pair_views(old(members)@) + tagged_members(
        kind,
        tagged,
        Seq::empty(),
    ));
}

/// Adds the members that name the user.
fn put_user(members: &mut Vec<(String, String)>, user: &User)
    ensures
        pair_views(final(members)@) == pair_views(old(members)@) + user_members(user@),
{
    if let Some(id) = user.user_id() {
        put(members, WireKey::UserId, quote(id.as_str()));
    }
    if let Some(id) = user.anonymous_id() {
        put(members, WireKey::AnonymousId, quote(id.as_str()));
    }
    assert(pair_views(members@) =~= pair_views(old(members)@) + user_members(user@));
}

/// Adds the member for the kind's own text.
fn put_label(members: &mut Vec<(String, String)>, kind: Kind, label: Option<&String>)
    ensures
        pair_views(final(members)@) == pair_views(old(members)@) + label_members(
            kind,
            match label {
                Some(s) => Some(s@),
                None => None,
            },
        ),
{
    if let Some(key) = kind.label_field() {
        let text = match label {
            Some(s) => quote(s.as_str()),
            None => "null".to_owned(),
        };
        put(members, key, text);
    }
    assert(pair_views(members@) =~= pair_views(old(members)@) + label_members(
        kind,
        match label {
            Some(s) => Some(s@),
            None => None,
        },
    ));
}

/// Adds the member for the kind's free-form data.
fn put_payload(members: &mut Vec<(String, String)>, kind: Kind, payload: Option<&Value>)
    ensures
        pair_views(final(members)@) == pair_views(old(members)@) + payload_members(
            kind,
            match payload {
                Some(v) => Some(*v),
                None => None,
            },
        ),
{
    if let Some(key) = kind.payload_field() {
        if let Some(v) = payload {
            put(members, key, value_text(v));
        }
    }
    assert(pair_views(members@) =~= pair_views(old(members)@) + payload_members(
        kind,
        match payload {
            Some(v) => Some(*v),
            None => None,
        },
    ));
}

/// Adds the member for the timestamp. Fails, and adds nothing, where the
/// timestamp has no text.
fn put_timestamp(members: &mut Vec<(String, String)>, timestamp: &Option<OffsetDateTime>) -> (r:
    Result<(), EncodeError>)
    ensures
        match r {
            Ok(_) => (*timestamp matches Some(t) ==> rfc3339_text(t) is Some) && pair_views(
                final(members)@,
            ) == pair_views(old(members)@) + timestamp_members(*timestamp),
            Err(e) => e == EncodeError::Timestamp && (*timestamp matches Some(t) && rfc3339_text(t)
                is None) && final(members)@ == old(members)@,
        },
{
    if let Some(t) = timestamp {
        match format_rfc3339(t) {
            Ok(s) => {
                put(members, WireKey::Timestamp, quote(s.as_str()));
            },
            Err(_) => {
                return Err(EncodeError::Timestamp);
            },
        }
    }
    assert(pair_views(members@) =~= pair_views(old(members)@) + timestamp_members(*timestamp));
    Ok(())
}

/// Members that were added group by group are the kind's member, where the
/// form is the stored one, followed by the groups in a row.
proof fn lemma_groups_in_a_row(
    kind: Kind,
    tagged: bool,
    groups: Seq<Seq<(Seq<char>, Seq<char>)>>,
)
    requires
        groups.len() == 7,
    ensures
        Seq::empty() + tagged_members(kind, tagged, Seq::empty()) + groups[0] + groups[1]
            + groups[2] + groups[3] + groups[4] + groups[5] + groups[6] == tagged_members(
            kind,
            tagged,
            groups[0] + groups[1] + groups[2] + groups[3] + groups[4] + groups[5] + groups[6],
        ),
{
    let row = groups[0] + groups[1] + groups[2] + groups[3] + groups[4] + groups[5] + groups[6];
    let head = tagged_members(kind, tagged, Seq::empty());
    assert(Seq::empty() + head + groups[0] + groups[1] + groups[2] + groups[3] + groups[4]
        + groups[5] + groups[6] =~= head + row);
    assert(head + row =~= tagged_members(kind, tagged, row));
}

/// The members of an event, with the kind in front where `tagged` says so.
/// Fails only where the event has a timestamp without a text.
fn members_of_event(ev: &EventRef<'_>, tagged: bool) -> (r: Result<
    Vec<(String, String)>,
    EncodeError,
>)
    ensures
        match r {
            Ok(members) => ev@.can_format() && pair_views(members@) == tagged_members(
                ev@.kind,
                tagged,
                event_members(ev@),
            ),
            Err(e) => e == EncodeError::Timestamp && !ev@.can_format(),
        },
{
    let mut members: Vec<(String, String)> = Vec::new();
    assert(pair_views(members@) =~= Seq::empty());
    put_tag(&mut members, ev.kind, tagged);
    put_user(&mut members, ev.user);
    put_label(&mut members, ev.kind, ev.label);
    put_payload(&mut members, ev.kind, ev.payload);
    if let Err(e) = put_timestamp(&mut members, ev.timestamp) {
        return Err(e);
    }
    put_optional(&mut members, WireKey::Context, ev.context);
    put_optional(&mut members, WireKey::Integrations, ev.integrations);
    put_extras(&mut members, ev.extra);
    proof {
        let view = ev@;
        lemma_groups_in_a_row(
            view.kind,
            tagged,
            seq![
                user_members(view.user),
                label_members(view.kind, view.label),
                payload_members(view.kind, view.payload),
                timestamp_members(view.timestamp),
                optional_member(WireKey::Context, view.context),
                optional_member(WireKey::Integrations, view.integrations),
                extra_members(view.extra),
            ],
        );
    }
    Ok(members)
}

/// The texts of the items of a batch. Fails only where an item has a
/// timestamp without a text.
fn texts_of_items(b: &Batch) -> (r: Result<Vec<String>, EncodeError>)
    ensures
        match r {
            Ok(texts) => MessageView::Batch(b@).can_format() && text_views(texts@) == item_texts(
                b@.items,
            ),
            Err(e) => e == EncodeError::Timestamp && !MessageView::Batch(b@).can_format(),
        },
{
    let mut texts: Vec<String> = Vec::new();
    let mut i: usize = 0;
    while i < b.batch.len()
        invariant
            i <= b.batch.len(),
            b@.items.len() == b.batch.len(),
            texts.len() == i,
            forall|j: int| 0 <= j < i ==> (#[trigger] b@.items[j]).can_format(),
            forall|j: int| 0 <= j < i ==> (#[trigger] texts@[j])@ == item_texts(b@.items)[j],
        decreases b.batch.len() - i,
    {
        assert(b@.items[i as int] == b.batch[i as int]@);
        let ev = b.batch[i].as_event();
        match members_of_event(&ev, true) {
            Ok(members) => {
                texts.push(render_object(&members));
            },
            Err(e) => {
                return Err(e);
            },
        }
        i += 1;
    }
    assert(text_views(texts@) =~= item_texts(b@.items));
    Ok(texts)
}

/// The members of a batch, with the kind in front where `tagged` says so.
fn members_of_batch(b: &Batch, tagged: bool) -> (r: Result<Vec<(String, String)>, EncodeError>)
    ensures
        match r {
            Ok(members) => MessageView::Batch(b@).can_format() && pair_views(members@)
                == tagged_members(Kind::Batch, tagged, batch_members(b@)),
            Err(e) => e == EncodeError::Timestamp && !MessageView::Batch(b@).can_format(),
        },
{
    let texts = match texts_of_items(b) {
        Ok(texts) => texts,
        Err(e) => {
            return Err(e);
        },
    };
    let mut members: Vec<(String, String)> = Vec::new();
    assert(pair_views(members@) =~= Seq::empty());
    put_tag(&mut members, Kind::Batch, tagged);
    put(&mut members, WireKey::Batch, frame_list(&texts));
    put_optional(&mut members, WireKey::Context, &b.context);
    put_optional(&mut members, WireKey::Integrations, &b.integrations);
    put_extras(&mut members, &b.extra);
    assert(pair_views(members@) =~= tagged_members(Kind::Batch, tagged, batch_members(b@)));
    Ok(members)
}

impl MessageRef<'_> {
    /// Encodes the message: in stored form where `tagged` says so, else in
    /// transport form.
    ///
    /// A message that is not fit to be encoded is refused with what is wrong
    /// with it. A message that is fit is encoded, unless one of its
    /// timestamps has no RFC 3339 text.
    pub fn encode(&self, tagged: bool) -> (r: Result<String, EncodeError>)
        ensures
            match r {
                Ok(text) => self@.is_valid() && self@.can_format() && text@ == (if tagged {
                    stored_text(self@)
                } else {
                    transport_text(self@)
                }),
                Err(EncodeError::Invalid(e)) => message_fault(self@) == Some(e),
                Err(EncodeError::Timestamp) => self@.is_valid() && !self@.can_format(),
            },
    {
        if let Err(e) = self.validate() {
            return Err(EncodeError::Invalid(e));
        }
        let built = match self {
            MessageRef::Event(ev) => members_of_event(ev, tagged),
            MessageRef::Batch(b) => members_of_batch(b, tagged),
        };
        match built {
            Ok(members) => Ok(render_object(&members)),
            Err(e) => Err(e),
        }
    }
}

impl Message {
    /// Encodes the message in transport form: the JSON text that the
    /// endpoint of [`Message::path`] takes.
    ///
    /// A message that is not fit to be encoded is refused with what is wrong
    /// with it. A message that is fit is encoded, unless one of its
    /// timestamps has no RFC 3339 text.
    pub fn encode(&self) -> (r: Result<String, EncodeError>)
        ensures
            match r {
                Ok(text) => self@.is_valid() && self@.can_format() && text@ == transport_text(
                    self@,
                ),
                Err(EncodeError::Invalid(e)) => message_fault(self@) == Some(e),
                Err(EncodeError::Timestamp) => self@.is_valid() && !self@.can_format(),
            },
    {
        self.as_message().encode(false)
    }
}

impl StoredMessage {
    /// Encodes the message in stored form: the JSON text that a queue keeps.
    ///
    /// A message that is not fit to be encoded is refused with what is wrong
    /// with it. A message that is fit is encoded, unless one of its
    /// timestamps has no RFC 3339 text.
    pub fn encode(&self) -> (r: Result<String, EncodeError>)
        ensures
            match r {
                Ok(text) => self@.is_valid() && self@.can_format() && text@ == stored_text(self@),
                Err(EncodeError::Invalid(e)) => message_fault(self@) == Some(e),
                Err(EncodeError::Timestamp) => self@.is_valid() && !self@.can_format(),
            },
    {
        self.as_message().encode(true)
    }
}

} // verus!
