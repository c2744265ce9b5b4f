//! Making messages that are fit to be encoded.
//!
//! The fields of a message are public, and a message of any content can be
//! written down; [`crate::validate`] finds what is wrong with one. The
//! functions here make messages with nothing wrong: they refuse a user
//! without a usable identity, a required text that is empty, and an extra
//! field whose key the encoding gives a meaning to.

use crate::event::{Alias, EventContent, EventView, Group, Identify, Page, Screen, Track};
use crate::json::{empty_object, fields, insert, Object};
use crate::message::{Batch, BatchContent, BatchMessage, BatchView};
use crate::user::{User, UserView};
use crate::validate::{
    batch_fault, event_fault, first_reserved, lemma_first_reserved, Fault, ValidationError,
};
use crate::wire::{same_text, Kind, WireKey};
use serde_json::Value;
use vstd::prelude::*;

verus! {

impl EventView {
    /// The event that has the given identity, text and data, and nothing
    /// else.
    pub open spec fn bare(
        kind: Kind,
        user: UserView,
        label: Option<Seq<char>>,
        payload: Option<Value>,
    ) -> EventView {
        EventView {
            kind,
            user,
            label,
            payload,
            timestamp: None,
            context: None,
            integrations: None,
            extra: Seq::empty(),
        }
    }
}

impl EventContent {
    /// The same event with one more extra field, or with another value for
    /// the extra field of that key.
    pub open spec fn with_extra(self, key: Seq<char>, value: Value) -> EventContent {
        EventContent { extra: self.extra.insert(key, value), ..self }
    }
}

impl BatchContent {
    /// The same batch with one more extra field, or with another value for
    /// the extra field of that key.
    pub open spec fn with_extra(self, key: Seq<char>, value: Value) -> BatchContent {
        BatchContent { extra: self.extra.insert(key, value), ..self }
    }
}

impl Kind {
    /// The field name of this kind that is spelled like the given key, if
    /// the kind reserves one that is.
    pub open spec fn reserved_name(self, key: Seq<char>) -> Option<WireKey> {
        first_reserved(set![key], self.reserved())
    }

    /// The field name of this kind that is spelled like the given key, if
    /// the kind reserves one that is.
    pub fn find_reserved_name(self, key: &str) -> (r: Option<WireKey>)
        ensures
            r == self.reserved_name(key@),
    {
        let keys = self.reserved_keys();
        let mut i: usize = 0;
        assert(keys@.skip(0) =~= keys@);
        while i < keys.len()
            invariant
                i <= keys.len(),
                keys@ == self.reserved(),
                first_reserved(set![key@], keys@) == first_reserved(
                    set![key@],
                    keys@.skip(i as int),
                ),
            decreases keys.len() - i,
        {
            let candidate = keys[i];
            assert(keys@.skip(i as int)[0] == candidate);
            assert(keys@.skip(i as int).skip(1) =~= keys@.skip(i as int + 1));
            if same_text(candidate.name(), key) {
                return Some(candidate);
            }
            i += 1;
        }
        None
    }
}

/// Adds an extra field, unless its key is one that the kind reserves.
fn add_extra(extra: &mut Object, kind: Kind, key: String, value: Value) -> (r: Result<
    (),
    ValidationError,
>)
    ensures
        match r {
            Ok(_) => kind.reserved_name(key@) is None && fields(*final(extra)) == fields(
                *old(extra),
            ).insert(key@, value) && (first_reserved(fields(*old(extra)).dom(), kind.reserved())
                is None ==> first_reserved(fields(*final(extra)).dom(), kind.reserved()) is None),
            Err(e) => e.item is None && kind.reserved_name(key@) == Some(e.fault->ReservedKey_0)
                && e.fault is ReservedKey && *final(extra) == *old(extra),
        },
{
    match kind.find_reserved_name(key.as_str()) {
        Some(name) => Err(ValidationError { item: None, fault: Fault::ReservedKey(name) }),
        None => {
            proof {
                lemma_first_reserved(set![key@], kind.reserved());
                lemma_first_reserved(fields(*extra).dom(), kind.reserved());
                lemma_first_reserved(fields(*extra).dom().insert(key@), kind.reserved());
            }
            insert(extra, key, value);
            Ok(())
        },
    }
}

impl Identify {
    /// An identify event for the user, with the traits to assign to them
    /// and nothing else. Refused where the event would not be valid.
    pub fn new(user: User, traits: Value) -> (r: Result<Identify, ValidationError>)
        ensures
            match r {
                Ok(made) => made@.is_valid() && made@ == EventView::bare(
                    Kind::Identify,
                    user@,
                    None,
                    Some(traits),
                ),
                Err(e) => e.item is None && event_fault(
                    EventView::bare(
                        Kind::Identify,
                        user@,
                        None,
                        Some(traits),
                    ),
                ) == Some(e.fault),
            },
    {
        let made = Identify {
            user,
            traits,
            timestamp: None,
            context: None,
            integrations: None,
            extra: empty_object(),
        };
        match made.as_event().validate() {
            Ok(_) => Ok(made),
            Err(fault) => Err(ValidationError { item: None, fault }),
        }
    }

    /// The event with one more extra field, or with another value for the
    /// extra field of that key. Refused where the key is a field name that
    /// the kind reserves, with that name; a valid event stays valid.
    pub fn with_extra(self, key: String, value: Value) -> (r: Result<Identify, ValidationError>)
        ensures
            match r {
                Ok(made) => Kind::Identify.reserved_name(key@) is None && made@.content()
                    == self@.content().with_extra(key@, value) && (self@.is_valid()
                    ==> made@.is_valid()),
                Err(e) => e.item is None && e.fault is ReservedKey && Kind::Identify.reserved_name(
                    key@,
                ) == Some(e.fault->ReservedKey_0),
            },
    {
        let mut made = self;
        match add_extra(&mut made.extra, Kind::Identify, key, value) {
            Ok(_) => Ok(made),
            Err(e) => Err(e),
        }
    }
}

impl Track {
    /// A track event for the user, with the name of the event and its
    /// properties, and nothing else. Refused where the event would not be valid.
    pub fn new(user: User, event: String, properties: Value) -> (r: Result<Track, ValidationError>)
        ensures
            match r {
                Ok(made) => made@.is_valid() && made@ == EventView::bare(
                    Kind::Track,
                    user@,
                    Some(event@),
                    Some(properties),
                ),
                Err(e) => e.item is None && event_fault(
                    EventView::bare(
                        Kind::Track,
                        user@,
                        Some(event@),
                        Some(properties),
                    ),
                ) == Some(e.fault),
            },
    {
        let made = Track {
            user,
            event,
            properties,
            timestamp: None,
            context: None,
            integrations: None,
            extra: empty_object(),
        };
        match made.as_event().validate() {
            Ok(_) => Ok(made),
            Err(fault) => Err(ValidationError { item: None, fault }),
        }
    }

    /// The event with one more extra field, or with another value for the
    /// extra field of that key. Refused where the key is a field name that
    /// the kind reserves, with that name; a valid event stays valid.
    pub fn with_extra(self, key: String, value: Value) -> (r: Result<Track, ValidationError>)
        ensures
            match r {
                Ok(made) => Kind::Track.reserved_name(key@) is None && made@.content()
                    == self@.content().with_extra(key@, value) && (self@.is_valid()
                    ==> made@.is_valid()),
                Err(e) => e.item is None && e.fault is ReservedKey && Kind::Track.reserved_name(
                    key@,
                ) == Some(e.fault->ReservedKey_0),
            },
    {
        let mut made = self;
        match add_extra(&mut made.extra, Kind::Track, key, value) {
            Ok(_) => Ok(made),
            Err(e) => Err(e),
        }
    }
}

impl Page {
    /// A page event for the user, with the name of the page, if it has one,
    /// and its properties, and nothing else. Refused where the event would not be valid.
    pub fn new(user: User, name: Option<String>, properties: Value) -> (r: Result<
        Page,
        ValidationError,
    >)
        ensures
            match r {
                Ok(made) => made@.is_valid() && made@ == EventView::bare(
                    Kind::Page,
                    user@,
                    match name {
                        Some(s) => Some(s@),
                        None => None,
                    },
                    Some(properties),
                ),
                Err(e) => e.item is None && event_fault(
                    EventView::bare(
                        Kind::Page,
                        user@,
                        match name {
                            Some(s) => Some(s@),
                            None => None,
                        },
                        Some(properties),
                    ),
                ) == Some(e.fault),
            },
    {
        let made = Page {
            user,
            name,
            properties,
            timestamp: None,
            context: None,
            integrations: None,
            extra: empty_object(),
        };
        match made.as_event().validate() {
            Ok(_) => Ok(made),
            Err(fault) => Err(ValidationError { item: None, fault }),
        }
    }

    /// The event with one more extra field, or with another value for the
    /// extra field of that key. Refused where the key is a field name that
    /// the kind reserves, with that name; a valid event stays valid.
    pub fn with_extra(self, key: String, value: Value) -> (r: Result<Page, ValidationError>)
        ensures
            match r {
                Ok(made) => Kind::Page.reserved_name(key@) is None && made@.content()
                    == self@.content().with_extra(key@, value) && (self@.is_valid()
                    ==> made@.is_valid()),
                Err(e) => e.item is None && e.fault is ReservedKey && Kind::Page.reserved_name(
                    key@,
                ) == Some(e.fault->ReservedKey_0),
            },
    {
        let mut made = self;
        match add_extra(&mut made.extra, Kind::Page, key, value) {
            Ok(_) => Ok(made),
            Err(e) => Err(e),
        }
    }
}

impl Screen {
    /// A screen event for the user, with the name of the screen and its
    /// properties, and nothing else. Refused where the event would not be valid.
    pub fn new(user: User, name: String, properties: Value) -> (r: Result<Screen, ValidationError>)
        ensures
            match r {
                Ok(made) => made@.is_valid() && made@ == EventView::bare(
                    Kind::Screen,
                    user@,
                    Some(name@),
                    Some(properties),
                ),
                Err(e) => e.item is None && event_fault(
                    EventView::bare(
                        Kind::Screen,
                        user@,
                        Some(name@),
                        Some(properties),
                    ),
                ) == Some(e.fault),
            },
    {
        let made = Screen {
            user,
            name,
            properties,
            timestamp: None,
            context: None,
            integrations: None,
            extra: empty_object(),
        };
        match made.as_event().validate() {
            Ok(_) => Ok(made),
            Err(fault) => Err(ValidationError { item: None, fault }),
        }
    }

    /// The event with one more extra field, or with another value for the
    /// extra field of that key. Refused where the key is a field name that
    /// the kind reserves, with that name; a valid event stays valid.
    pub fn with_extra(self, key: String, value: Value) -> (r: Result<Screen, ValidationError>)
        ensures
            match r {
                Ok(made) => Kind::Screen.reserved_name(key@) is None && made@.content()
                    == self@.content().with_extra(key@, value) && (self@.is_valid()
                    ==> made@.is_valid()),
                Err(e) => e.item is None && e.fault is ReservedKey && Kind::Screen.reserved_name(
                    key@,
                ) == Some(e.fault->ReservedKey_0),
            },
    {
        let mut made = self;
        match add_extra(&mut made.extra, Kind::Screen, key, value) {
            Ok(_) => Ok(made),
            Err(e) => Err(e),
        }
    }
}

impl Group {
    /// A group event for the user, with the group and the traits to assign
    /// to it, and nothing else. Refused where the event would not be valid.
    pub fn new(user: User, group_id: String, traits: Value) -> (r: Result<Group, ValidationError>)
        ensures
            match r {
                Ok(made) => made@.is_valid() && made@ == EventView::bare(
                    Kind::Group,
                    user@,
                    Some(group_id@),
                    Some(traits),
                ),
                Err(e) => e.item is None && event_fault(
                    EventView::bare(
                        Kind::Group,
                        user@,
                        Some(group_id@),
                        Some(traits),
                    ),
                ) == Some(e.fault),
            },
    {
        let made = Group {
            user,
            group_id,
            traits,
            timestamp: None,
            context: None,
            integrations: None,
            extra: empty_object(),
        };
        match made.as_event().validate() {
            Ok(_) => Ok(made),
            Err(fault) => Err(ValidationError { item: None, fault }),
        }
    }

    /// The event with one more extra field, or with another value for the
    /// extra field of that key. Refused where the key is a field name that
    /// the kind reserves, with that name; a valid event stays valid.
    pub fn with_extra(self, key: String, value: Value) -> (r: Result<Group, ValidationError>)
        ensures
            match r {
                Ok(made) => Kind::Group.reserved_name(key@) is None && made@.content()
                    == self@.content().with_extra(key@, value) && (self@.is_valid()
                    ==> made@.is_valid()),
                Err(e) => e.item is None && e.fault is ReservedKey && Kind::Group.reserved_name(
                    key@,
                ) == Some(e.fault->ReservedKey_0),
            },
    {
        let mut made = self;
        match add_extra(&mut made.extra, Kind::Group, key, value) {
            Ok(_) => Ok(made),
            Err(e) => Err(e),
        }
    }
}

impl Alias {
    /// An alias event for the user, with the identity that they had before,
    /// and nothing else. Refused where the event would not be valid.
    pub fn new(user: User, previous_id: String) -> (r: Result<Alias, ValidationError>)
        ensures
            match r {
                Ok(made) => made@.is_valid() && made@ == EventView::bare(
                    Kind::Alias,
                    user@,
                    Some(previous_id@),
                    None,
                ),
                Err(e) => e.item is None && event_fault(
                    EventView::bare(
                        Kind::Alias,
                        user@,
                        Some(previous_id@),
                        None,
                    ),
                ) == Some(e.fault),
            },
    {
        let made = Alias {
            user,
            previous_id,
            timestamp: None,
            context: None,
            integrations: None,
            extra: empty_object(),
        };
        match made.as_event().validate() {
            Ok(_) => Ok(made),
            Err(fault) => Err(ValidationError { item: None, fault }),
        }
    }

    /// The event with one more extra field, or with another value for the
    /// extra field of that key. Refused where the key is a field name that
    /// the kind reserves, with that name; a valid event stays valid.
    pub fn with_extra(self, key: String, value: Value) -> (r: Result<Alias, ValidationError>)
        ensures
            match r {
                Ok(made) => Kind::Alias.reserved_name(key@) is None && made@.content()
                    == self@.content().with_extra(key@, value) && (self@.is_valid()
                    ==> made@.is_valid()),
                Err(e) => e.item is None && e.fault is ReservedKey && Kind::Alias.reserved_name(
                    key@,
                ) == Some(e.fault->ReservedKey_0),
            },
    {
        let mut made = self;
        match add_extra(&mut made.extra, Kind::Alias, key, value) {
            Ok(_) => Ok(made),
            Err(e) => Err(e),
        }
    }
}

impl Batch {
    /// A batch of the given items, and nothing else. Refused where the
    /// batch would not be valid: where it is empty, and where an item is
    /// not valid.
    pub fn new(items: Vec<BatchMessage>) -> (r: Result<Batch, ValidationError>)
        ensures
            match r {
                Ok(batch) => batch@.is_valid() && batch.batch == items && batch@.context is None
                    && batch@.integrations is None && batch@.extra == Seq::<
                    (Seq<char>, Value),
                >::empty(),
                Err(e) => batch_fault(
                    BatchView {
                        items: Seq::new(items@.len(), |i: int| items@[i]@),
                        context: None,
                        integrations: None,
                        extra: Seq::empty(),
                    },
                ) == Some(e),
            },
    {
        let batch = Batch {
            batch: items,
            context: None,
            integrations: None,
            extra: empty_object(),
        };
        match batch.validate() {
            Ok(_) => Ok(batch),
            Err(e) => Err(e),
        }
    }

    /// The batch with one more extra field, or with another value for the
    /// extra field of that key. Refused where the key is a field name that
    /// a batch reserves, with that name; a valid batch stays valid.
    pub fn with_extra(self, key: String, value: Value) -> (r: Result<Batch, ValidationError>)
        ensures
            match r {
                Ok(batch) => Kind::Batch.reserved_name(key@) is None && batch@.content()
                    == self@.content().with_extra(key@, value) && (self@.is_valid()
                    ==> batch@.is_valid()),
                Err(e) => e.item is None && e.fault is ReservedKey && Kind::Batch.reserved_name(
                    key@,
                ) == Some(e.fault->ReservedKey_0),
            },
    {
        let mut batch = self;
        match add_extra(&mut batch.extra, Kind::Batch, key, value) {
            Ok(_) => {
                assert(batch@.content().items =~= self@.content().items);
                Ok(batch)
            },
            Err(e) => Err(e),
        }
    }
}

} // verus!
