//! What makes a message fit to be encoded, and the check that finds the
//! first thing wrong with one.

use crate::event::{EventRef, EventView};
use crate::json::{contains_key, fields, has_key, to_map, Object};
use crate::message::{
    Batch, BatchMessage, BatchView, Message, MessageRef, MessageView, StoredMessage,
};
use crate::wire::{Kind, WireKey};
use vstd::prelude::*;

verus! {

/// What can be wrong with a message.
#[derive(PartialEq, Eq, Structural, Clone, Copy, Debug)]
pub enum Fault {
    /// An identifier of the user is empty.
    MissingIdentity,
    /// The text under this field is required and is empty.
    EmptyField(WireKey),
    /// An extra field has this key, which the encoding gives a meaning to.
    ReservedKey(WireKey),
    /// The batch has no items.
    EmptyBatch,
}

/// The first thing wrong with a message, and where.
#[derive(PartialEq, Eq, Structural, Clone, Copy, Debug)]
pub struct ValidationError {
    /// The index of the batch item at fault; nothing where the message
    /// itself is.
    pub item: Option<usize>,
    pub fault: Fault,
}

/// The first of `keys` that is a key of the object, if any is.
pub open spec fn first_reserved(dom: Set<Seq<char>>, keys: Seq<WireKey>) -> Option<WireKey>
    decreases keys.len(),
{
    if keys.len() == 0 {
        None
    } else if dom.contains(keys[0].text()) {
        Some(keys[0])
    } else {
        first_reserved(dom, keys.skip(1))
    }
}

/// What is wrong with an event, if anything: an identifier that is empty;
/// else a required text that is empty; else an extra field under a reserved
/// key, the first in the order of [`Kind::reserved`].
pub open spec fn event_fault(ev: EventView) -> Option<Fault> {
    if !ev.user.usable() {
        Some(Fault::MissingIdentity)
    } else if ev.kind.label_key() is Some && !ev.kind.label_optional() && ev.label == Some(
        Seq::<char>::empty(),
    ) {
        Some(Fault::EmptyField(ev.kind.label_key().unwrap()))
    } else {
        match first_reserved(to_map(ev.extra).dom(), ev.kind.reserved()) {
            Some(key) => Some(Fault::ReservedKey(key)),
            None => None,
        }
    }
}

/// The first item at or after `from` that has a fault, with the fault.
pub open spec fn first_faulty(items: Seq<EventView>, from: int) -> Option<(int, Fault)>
    decreases items.len() - from,
{
    if from < 0 || from >= items.len() {
        None
    } else {
        match event_fault(items[from]) {
            Some(fault) => Some((from, fault)),
            None => first_faulty(items, from + 1),
        }
    }
}

/// What is wrong with a batch, if anything: that it is empty; else an extra
/// field of its own under a reserved key; else the fault of its first
/// faulty item.
pub open spec fn batch_fault(b: BatchView) -> Option<ValidationError> {
    if b.items.len() == 0 {
        Some(ValidationError { item: None, fault: Fault::EmptyBatch })
    } else {
        match first_reserved(to_map(b.extra).dom(), Kind::Batch.reserved()) {
            Some(key) => Some(ValidationError { item: None, fault: Fault::ReservedKey(key) }),
            None => match first_faulty(b.items, 0) {
                Some((i, fault)) => Some(ValidationError { item: Some(i as usize), fault }),
                None => None,
            },
        }
    }
}

/// What is wrong with a message, if anything.
pub open spec fn message_fault(m: MessageView) -> Option<ValidationError> {
    match m {
        MessageView::Event(ev) => match event_fault(ev) {
            Some(fault) => Some(ValidationError { item: None, fault }),
            None => None,
        },
        MessageView::Batch(b) => batch_fault(b),
    }
}

impl EventView {
    /// Whether the event is fit to be encoded.
    pub open spec fn is_valid(self) -> bool {
        event_fault(self) is None
    }
}

impl BatchView {
    /// Whether the batch is fit to be encoded.
    pub open spec fn is_valid(self) -> bool {
        batch_fault(self) is None
    }
}

impl MessageView {
    /// Whether the message is fit to be encoded.
    pub open spec fn is_valid(self) -> bool {
        message_fault(self) is None
    }
}

/// The first of the kind's reserved keys that the extra fields use, if they
/// use any.
pub fn find_reserved(extra: &Object, kind: Kind) -> (r: Option<WireKey>)
    ensures
        r == first_reserved(fields(*extra).dom(), kind.reserved()),
{
    let keys = kind.reserved_keys();
    let mut i: usize = 0;
    assert(keys@.skip(0) =~= keys@);
    while i < keys.len()
        invariant
            i <= keys.len(),
            keys@ == kind.reserved(),
            first_reserved(fields(*extra).dom(), keys@) == first_reserved(
                fields(*extra).dom(),
                keys@.skip(i as int),
            ),
        decreases keys.len() - i,
    {
        let key = keys[i];
        assert(keys@.skip(i as int)[0] == key);
        assert(keys@.skip(i as int).skip(1) =~= keys@.skip(i as int + 1));
        if contains_key(extra, key.name()) {
            return Some(key);
        }
        i += 1;
    }
    assert(keys@.skip(i as int).len() == 0);
    None
}

impl EventRef<'_> {
    /// Checks that the event is fit to be encoded, and says what is wrong
    /// where it is not.
    pub fn validate(&self) -> (r: Result<(), Fault>)
        ensures
            match r {
                Ok(_) => self@.is_valid(),
                Err(fault) => event_fault(self@) == Some(fault),
            },
    {
        if !self.user.is_usable() {
            return Err(Fault::MissingIdentity);
        }
        if let Some(key) = self.kind.label_field() {
            if self.kind != Kind::Page {
                if let Some(label) = self.label {
                    if label.as_str().is_empty() {
                        assert(label@ =~= Seq::<char>::empty());
                        return Err(Fault::EmptyField(key));
                    }
                }
            }
        }
        match find_reserved(self.extra, self.kind) {
            Some(key) => Err(Fault::ReservedKey(key)),
            None => Ok(()),
        }
    }
}

impl BatchMessage {
    /// Checks that the event is fit to be encoded, and says what is wrong
    /// where it is not.
    pub fn validate(&self) -> (r: Result<(), ValidationError>)
        ensures
            match r {
                Ok(_) => self@.is_valid(),
                Err(e) => e.item is None && event_fault(self@) == Some(e.fault),
            },
    {
        match self.as_event().validate() {
            Ok(_) => Ok(()),
            Err(fault) => Err(ValidationError { item: None, fault }),
        }
    }
}

impl Batch {
    /// Checks that the batch is fit to be encoded, and says what is wrong
    /// where it is not.
    pub fn validate(&self) -> (r: Result<(), ValidationError>)
        ensures
            match r {
                Ok(_) => self@.is_valid(),
                Err(e) => batch_fault(self@) == Some(e),
            },
    {
        if self.batch.len() == 0 {
            return Err(ValidationError { item: None, fault: Fault::EmptyBatch });
        }
        if let Some(key) = find_reserved(&self.extra, Kind::Batch) {
            return Err(ValidationError { item: None, fault: Fault::ReservedKey(key) });
        }
        let mut i: usize = 0;
        while i < self.batch.len()
            invariant
                i <= self.batch.len(),
                self@.items.len() == self.batch.len() > 0,
                first_reserved(fields(self.extra).dom(), Kind::Batch.reserved()) is None,
                first_faulty(self@.items, 0) == first_faulty(self@.items, i as int),
            decreases self.batch.len() - i,
        {
            assert(self@.items[i as int] == self.batch[i as int]@);
            if let Err(fault) = self.batch[i].as_event().validate() {
                return Err(ValidationError { item: Some(i), fault });
            }
            i += 1;
        }
        Ok(())
    }
}

impl MessageRef<'_> {
    /// Checks that the message is fit to be encoded, and says what is wrong
    /// where it is not.
    pub fn validate(&self) -> (r: Result<(), ValidationError>)
        ensures
            match r {
                Ok(_) => self@.is_valid(),
                Err(e) => message_fault(self@) == Some(e),
            },
    {
        match self {
            MessageRef::Event(ev) => match ev.validate() {
                Ok(_) => Ok(()),
                Err(fault) => Err(ValidationError { item: None, fault }),
            },
            MessageRef::Batch(b) => b.validate(),
        }
    }
}

impl Message {
    /// Checks that the message is fit to be encoded, and says what is wrong
    /// where it is not.
    pub fn validate(&self) -> (r: Result<(), ValidationError>)
        ensures
            match r {
                Ok(_) => self@.is_valid(),
                Err(e) => message_fault(self@) == Some(e),
            },
    {
        self.as_message().validate()
    }
}

impl StoredMessage {
    /// Checks that the message is fit to be encoded, and says what is wrong
    /// where it is not.
    pub fn validate(&self) -> (r: Result<(), ValidationError>)
        ensures
            match r {
                Ok(_) => self@.is_valid(),
                Err(e) => message_fault(self@) == Some(e),
            },
    {
        self.as_message().validate()
    }
}

/// A reserved key is found among the keys of an object exactly where the
/// object uses one of them, and the key that is found is one that it uses.
pub proof fn lemma_first_reserved(dom: Set<Seq<char>>, keys: Seq<WireKey>)
    ensures
        first_reserved(dom, keys) is None <==> forall|i: int|
            0 <= i < keys.len() ==> !dom.contains((#[trigger] keys[i]).text()),
        first_reserved(dom, keys) matches Some(key) ==> keys.contains(key) && dom.contains(
            key.text(),
        ),
    decreases keys.len(),
{
    if keys.len() > 0 {
        let rest = keys.skip(1);
        lemma_first_reserved(dom, rest);
        assert(forall|i: int| 0 <= i < rest.len() ==> rest[i] == keys[i + 1]);
        if !dom.contains(keys[0].text()) {
            if first_reserved(dom, rest) is None {
                assert forall|i: int| 0 <= i < keys.len() implies !dom.contains(
                    (#[trigger] keys[i]).text(),
                ) by {
                    if i > 0 {
                        assert(rest[i - 1] == keys[i]);
                    }
                }
            } else {
                let key = first_reserved(dom, rest)->0;
                let j = choose|j: int| 0 <= j < rest.len() && rest[j] == key;
                assert(keys[j + 1] == key);
            }
        } else {
            assert(keys.contains(keys[0]));
        }
    }
}

/// No extra field of a valid event has a key that the kind reserves.
pub proof fn lemma_valid_event_extras(ev: EventView, key: WireKey)
    requires
        ev.is_valid(),
        ev.kind.reserved().contains(key),
    ensures
        !has_key(ev.extra, key.text()),
{
    lemma_first_reserved(to_map(ev.extra).dom(), ev.kind.reserved());
}

/// No extra field of a valid batch has a key that a batch reserves.
pub proof fn lemma_valid_batch_extras(b: BatchView, key: WireKey)
    requires
        b.is_valid(),
        Kind::Batch.reserved().contains(key),
    ensures
        !has_key(b.extra, key.text()),
{
    lemma_first_reserved(to_map(b.extra).dom(), Kind::Batch.reserved());
}

} // verus!
