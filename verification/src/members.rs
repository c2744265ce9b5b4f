//! The keys under which the encodings write their members.
//!
//! An encoded message is a run of members, each a key and the JSON text of
//! a value. The lemmas here say which keys a run has, from the message that
//! it encodes.

use crate::encode::{
    batch_members, event_members, extra_members, label_members, optional_member, payload_members,
    timestamp_members, user_members,
};
use crate::event::EventView;
use crate::json::{has_key, quoted};
use crate::message::BatchView;
use crate::timestamp::rfc3339_text;
use crate::wire::WireKey;
use serde_json::Value;
use vstd::prelude::*;

verus! {

/// Whether some member has the given key.
pub open spec fn has_member(members: Seq<(Seq<char>, Seq<char>)>, key: Seq<char>) -> bool {
    exists|i: int| 0 <= i < members.len() && (#[trigger] members[i]).0 == key
}

/// The members of two runs in a row have the keys of either run.
pub proof fn lemma_has_member_in_row(
    a: Seq<(Seq<char>, Seq<char>)>,
    b: Seq<(Seq<char>, Seq<char>)>,
    key: Seq<char>,
)
    ensures
        has_member(a + b, key) <==> has_member(a, key) || has_member(b, key),
{
    if has_member(a, key) {
        let i = choose|i: int| 0 <= i < a.len() && (#[trigger] a[i]).0 == key;
        assert((a + b)[i] == a[i]);
    }
    if has_member(b, key) {
        let i = choose|i: int| 0 <= i < b.len() && (#[trigger] b[i]).0 == key;
        assert((a + b)[a.len() + i] == b[i]);
    }
    if has_member(a + b, key) {
        let i = choose|i: int| 0 <= i < (a + b).len() && (#[trigger] (a + b)[i]).0 == key;
        if i < a.len() {
            assert(a[i] == (a + b)[i]);
        } else {
            assert(b[i - a.len()] == (a + b)[i]);
        }
    }
}

/// The keys under which an event writes its members: the wire names of the
/// fields that it has, and the keys of its extra fields.
pub open spec fn event_writes(ev: EventView, key: Seq<char>) -> bool {
    ||| ev.user.user_id is Some && key == WireKey::UserId.text()
    ||| ev.user.anonymous_id is Some && key == WireKey::AnonymousId.text()
    ||| ev.kind.label_key() matches Some(k) && key == k.text()
    ||| ev.kind.payload_key() matches Some(k) && ev.payload is Some && key == k.text()
    ||| ev.timestamp matches Some(t) && rfc3339_text(t) is Some && key
        == WireKey::Timestamp.text()
    ||| ev.context is Some && key == WireKey::Context.text()
    ||| ev.integrations is Some && key == WireKey::Integrations.text()
    ||| has_key(ev.extra, key)
}

/// The keys under which a batch writes its members.
pub open spec fn batch_writes(b: BatchView, key: Seq<char>) -> bool {
    ||| key == WireKey::Batch.text()
    ||| b.context is Some && key == WireKey::Context.text()
    ||| b.integrations is Some && key == WireKey::Integrations.text()
    ||| has_key(b.extra, key)
}

/// A run of one member has the key of that member.
pub proof fn lemma_has_member_single(member: (Seq<char>, Seq<char>), key: Seq<char>)
    ensures
        has_member(seq![member], key) <==> member.0 == key,
{
    assert(seq![member][0] == member);
}

/// An empty run has no key.
pub proof fn lemma_has_member_none(key: Seq<char>)
    ensures
        !has_member(Seq::empty(), key),
{
}

/// The members of the extra fields have the keys of the extra fields.
pub proof fn lemma_has_member_extra(extra: Seq<(Seq<char>, Value)>, key: Seq<char>)
    ensures
        has_member(extra_members(extra), key) <==> has_key(extra, key),
{
    let ms = extra_members(extra);
    if has_member(ms, key) {
        let i = choose|i: int| 0 <= i < ms.len() && (#[trigger] ms[i]).0 == key;
        assert(extra[i].0 == key);
    }
    if has_key(extra, key) {
        let i = choose|i: int| 0 <= i < extra.len() && (#[trigger] extra[i]).0 == key;
        assert(ms[i].0 == key);
    }
}

/// The member of a value that may be absent has its key where the value is
/// there.
pub proof fn lemma_has_member_optional(at: WireKey, value: Option<Value>, key: Seq<char>)
    ensures
        has_member(optional_member(at, value), key) <==> value is Some && key == at.text(),
{
    match value {
        Some(v) => {
            lemma_has_member_single(optional_member(at, value)[0], key);
            assert(optional_member(at, value) =~= seq![optional_member(at, value)[0]]);
        },
        None => {
            lemma_has_member_none(key);
        },
    }
}

/// An event writes its members under the keys of [`event_writes`].
pub proof fn lemma_event_member_keys(ev: EventView, key: Seq<char>)
    ensures
        has_member(event_members(ev), key) <==> event_writes(ev, key),
{
    let user = user_members(ev.user);
    let label = label_members(ev.kind, ev.label);
    let payload = payload_members(ev.kind, ev.payload);
    let timestamp = timestamp_members(ev.timestamp);
    let context = optional_member(WireKey::Context, ev.context);
    let integrations = optional_member(WireKey::Integrations, ev.integrations);
    let extra = extra_members(ev.extra);
    lemma_has_member_in_row(
        user + label + payload + timestamp + context + integrations,
        extra,
        key,
    );
    lemma_has_member_in_row(user + label + payload + timestamp + context, integrations, key);
    lemma_has_member_in_row(user + label + payload + timestamp, context, key);
    lemma_has_member_in_row(user + label + payload, timestamp, key);
    lemma_has_member_in_row(user + label, payload, key);
    lemma_has_member_in_row(user, label, key);
    lemma_has_member_extra(ev.extra, key);
    lemma_has_member_optional(WireKey::Context, ev.context, key);
    lemma_has_member_optional(WireKey::Integrations, ev.integrations, key);
    assert(has_member(user, key) <==> (ev.user.user_id is Some && key == WireKey::UserId.text())
        || (ev.user.anonymous_id is Some && key == WireKey::AnonymousId.text())) by {
        let first: Seq<(Seq<char>, Seq<char>)> = match ev.user.user_id {
            Some(id) => seq![(WireKey::UserId.text(), quoted(id))],
            None => seq![],
        };
        let second: Seq<(Seq<char>, Seq<char>)> = match ev.user.anonymous_id {
            Some(id) => seq![(WireKey::AnonymousId.text(), quoted(id))],
            None => seq![],
        };
        lemma_has_member_in_row(first, second, key);
        if ev.user.user_id is Some {
            lemma_has_member_single(first[0], key);
            assert(first =~= seq![first[0]]);
        } else {
            lemma_has_member_none(key);
        }
        if ev.user.anonymous_id is Some {
            lemma_has_member_single(second[0], key);
            assert(second =~= seq![second[0]]);
        } else {
            lemma_has_member_none(key);
        }
    }
    assert(has_member(label, key) <==> (ev.kind.label_key() matches Some(k) && key == k.text()))
        by {
        if ev.kind.label_key() is Some {
            lemma_has_member_single(label[0], key);
            assert(label =~= seq![label[0]]);
        } else {
            lemma_has_member_none(key);
        }
    }
    assert(has_member(payload, key) <==> (ev.kind.payload_key() matches Some(k) && ev.payload
        is Some && key == k.text())) by {
        match ev.kind.payload_key() {
            Some(k) => {
                lemma_has_member_optional(k, ev.payload, key);
            },
            None => {
                lemma_has_member_none(key);
            },
        }
    }
    assert(has_member(timestamp, key) <==> (ev.timestamp matches Some(t) && rfc3339_text(t)
        is Some && key == WireKey::Timestamp.text())) by {
        if ev.timestamp is Some && rfc3339_text(ev.timestamp->0) is Some {
            lemma_has_member_single(timestamp[0], key);
            assert(timestamp =~= seq![timestamp[0]]);
        } else {
            lemma_has_member_none(key);
        }
    }
}

/// A batch writes its members under the keys of [`batch_writes`].
pub proof fn lemma_batch_member_keys(b: BatchView, key: Seq<char>)
    ensures
        has_member(batch_members(b), key) <==> batch_writes(b, key),
{
    let items = seq![batch_members(b)[0]];
    let context = optional_member(WireKey::Context, b.context);
    let integrations = optional_member(WireKey::Integrations, b.integrations);
    let extra = extra_members(b.extra);
    assert(batch_members(b) =~= items + context + integrations + extra);
    lemma_has_member_in_row(items + context + integrations, extra, key);
    lemma_has_member_in_row(items + context, integrations, key);
    lemma_has_member_in_row(items, context, key);
    lemma_has_member_single(batch_members(b)[0], key);
    lemma_has_member_extra(b.extra, key);
    lemma_has_member_optional(WireKey::Context, b.context, key);
    lemma_has_member_optional(WireKey::Integrations, b.integrations, key);
}

} // verus!
