//! The six kinds of event. Every event names its user and may carry a
//! timestamp, a context, integrations and extra top-level fields; each kind
//! adds its own text and its own free-form data.

use crate::json::{empty_object, entries, is_null, null_value, to_map, Object};
use crate::user::{User, UserView};
use crate::wire::Kind;
use serde_json::Value;
use time::OffsetDateTime;
use vstd::prelude::*;

verus! {

/// An event as plain data: its kind and what each of its fields holds.
pub struct EventView {
    pub kind: Kind,
    pub user: UserView,
    /// The kind's own text, which the wire carries under
    /// [`Kind::label_key`].
    pub label: Option<Seq<char>>,
    /// The kind's free-form data, which the wire carries under
    /// [`Kind::payload_key`].
    pub payload: Option<Value>,
    pub timestamp: Option<OffsetDateTime>,
    pub context: Option<Value>,
    pub integrations: Option<Value>,
    /// The extra fields, in the order in which their object hands them out.
    pub extra: Seq<(Seq<char>, Value)>,
}

/// What an event holds, field by field: the event as plain data, with the
/// extra fields as a map from key to value.
pub struct EventContent {
    pub kind: Kind,
    pub user: UserView,
    pub label: Option<Seq<char>>,
    pub payload: Option<Value>,
    pub timestamp: Option<OffsetDateTime>,
    pub context: Option<Value>,
    pub integrations: Option<Value>,
    pub extra: Map<Seq<char>, Value>,
}

impl EventView {
    /// What the event holds, field by field.
    pub open spec fn content(self) -> EventContent {
        EventContent {
            kind: self.kind,
            user: self.user,
            label: self.label,
            payload: self.payload,
            timestamp: self.timestamp,
            context: self.context,
            integrations: self.integrations,
            extra: to_map(self.extra),
        }
    }

    /// Whether the fields are those that an event of this kind has: an
    /// identifier of the user, its own text where the kind has one (a page
    /// may go without), and its free-form data where the kind has some.
    pub open spec fn well_shaped(self) -> bool {
        &&& self.kind != Kind::Batch
        &&& self.user.user_id is Some || self.user.anonymous_id is Some
        &&& self.label is Some ==> self.kind.label_key() is Some
        &&& self.label is None ==> self.kind.label_key() is None || self.kind.label_optional()
        &&& self.payload is Some <==> self.kind.payload_key() is Some
    }

    /// Whether this is the event that `Default` makes for the kind: the
    /// placeholder identity, empty text, `null` data, and nothing else.
    pub open spec fn is_blank(self, kind: Kind) -> bool {
        &&& self.kind == kind
        &&& self.user == UserView::placeholder()
        &&& self.label == (if kind.label_key() is Some && !kind.label_optional() {
            Some(Seq::<char>::empty())
        } else {
            None
        })
        &&& match self.payload {
            Some(v) => kind.payload_key() is Some && is_null(v),
            None => kind.payload_key() is None,
        }
        &&& self.timestamp is None
        &&& self.context is None
        &&& self.integrations is None
        &&& self.extra == Seq::<(Seq<char>, Value)>::empty()
    }

    /// The same event with another timestamp.
    pub open spec fn with_timestamp(self, timestamp: Option<OffsetDateTime>) -> EventView {
        EventView { timestamp, ..self }
    }
}

/// The fields of an event, borrowed from the event that owns them.
pub struct EventRef<'a> {
    pub kind: Kind,
    pub user: &'a User,
    pub label: Option<&'a String>,
    pub payload: Option<&'a Value>,
    pub timestamp: &'a Option<OffsetDateTime>,
    pub context: &'a Option<Value>,
    pub integrations: &'a Option<Value>,
    pub extra: &'a Object,
}

impl View for EventRef<'_> {
    type V = EventView;

    open spec fn view(&self) -> EventView {
        EventView {
            kind: self.kind,
            user: self.user@,
            label: match self.label {
                Some(s) => Some(s@),
                None => None,
            },
            payload: match self.payload {
                Some(v) => Some(*v),
                None => None,
            },
            timestamp: *self.timestamp,
            context: *self.context,
            integrations: *self.integrations,
            extra: entries(*self.extra),
        }
    }
}

/// An identify event: ties a user to the traits that describe them.
#[derive(PartialEq, Eq, Debug, Clone)]
pub struct Identify {
    /// The user associated with this message.
    pub user: User,
    /// The traits to assign to the user.
    pub traits: Value,
    /// The timestamp associated with this message.
    pub timestamp: Option<OffsetDateTime>,
    /// Context associated with this message.
    pub context: Option<Value>,
    /// Integrations to route this message to.
    pub integrations: Option<Value>,
    /// Extra fields to put at the top level of this message.
    pub extra: Object,
}

impl View for Identify {
    type V = EventView;

    open spec fn view(&self) -> EventView {
        EventView {
            kind: Kind::Identify,
            user: self.user@,
            label: None,
            payload: Some(self.traits),
            timestamp: self.timestamp,
            context: self.context,
            integrations: self.integrations,
            extra: entries(self.extra),
        }
    }
}

impl Identify {
    /// The fields of the event.
    pub fn as_event(&self) -> (r: EventRef<'_>)
        ensures
            r@ == self@,
    {
        EventRef {
            kind: Kind::Identify,
            user: &self.user,
            label: None,
            payload: Some(&self.traits),
            timestamp: &self.timestamp,
            context: &self.context,
            integrations: &self.integrations,
            extra: &self.extra,
        }
    }
}

impl Default for Identify {
    /// An event that still has to be filled in: see [`EventView::is_blank`].
    fn default() -> (r: Identify)
        ensures
            r@.is_blank(Kind::Identify),
    {
        Identify {
            user: User::default(),
            traits: null_value(),
            timestamp: None,
            context: None,
            integrations: None,
            extra: empty_object(),
        }
    }
}

/// A track event: records something that a user did.
#[derive(PartialEq, Eq, Debug, Clone)]
pub struct Track {
    /// The user associated with this message.
    pub user: User,
    /// The name of the event being tracked.
    pub event: String,
    /// The properties associated with the event.
    pub properties: Value,
    /// The timestamp associated with this message.
    pub timestamp: Option<OffsetDateTime>,
    /// Context associated with this message.
    pub context: Option<Value>,
    /// Integrations to route this message to.
    pub integrations: Option<Value>,
    /// Extra fields to put at the top level of this message.
    pub extra: Object,
}

impl View for Track {
    type V = EventView;

    open spec fn view(&self) -> EventView {
        EventView {
            kind: Kind::Track,
            user: self.user@,
            label: Some(self.event@),
            payload: Some(self.properties),
            timestamp: self.timestamp,
            context: self.context,
            integrations: self.integrations,
            extra: entries(self.extra),
        }
    }
}

impl Track {
    /// The fields of the event.
    pub fn as_event(&self) -> (r: EventRef<'_>)
        ensures
            r@ == self@,
    {
        EventRef {
            kind: Kind::Track,
            user: &self.user,
            label: Some(&self.event),
            payload: Some(&self.properties),
            timestamp: &self.timestamp,
            context: &self.context,
            integrations: &self.integrations,
            extra: &self.extra,
        }
    }
}

impl Default for Track {
    /// An event that still has to be filled in: see [`EventView::is_blank`].
    fn default() -> (r: Track)
        ensures
            r@.is_blank(Kind::Track),
    {
        Track {
            user: User::default(),
            event: String::new(),
            properties: null_value(),
            timestamp: None,
            context: None,
            integrations: None,
            extra: empty_object(),
        }
    }
}

/// A page event: records that a user saw a page.
#[derive(PartialEq, Eq, Debug, Clone)]
pub struct Page {
    /// The user associated with this message.
    pub user: User,
    /// The name of the page being tracked.
    pub name: Option<String>,
    /// The properties associated with the page.
    pub properties: Value,
    /// The timestamp associated with this message.
    pub timestamp: Option<OffsetDateTime>,
    /// Context associated with this message.
    pub context: Option<Value>,
    /// Integrations to route this message to.
    pub integrations: Option<Value>,
    /// Extra fields to put at the top level of this message.
    pub extra: Object,
}

impl View for Page {
    type V = EventView;

    open spec fn view(&self) -> EventView {
        EventView {
            kind: Kind::Page,
            user: self.user@,
            label: match self.name {
                Some(s) => Some(s@),
                None => None,
            },
            payload: Some(self.properties),
            timestamp: self.timestamp,
            context: self.context,
            integrations: self.integrations,
            extra: entries(self.extra),
        }
    }
}

impl Page {
    /// The fields of the event.
    pub fn as_event(&self) -> (r: EventRef<'_>)
        ensures
            r@ == self@,
    {
        EventRef {
            kind: Kind::Page,
            user: &self.user,
            label: match &self.name {
                Some(s) => Some(s),
                None => None,
            },
            payload: Some(&self.properties),
            timestamp: &self.timestamp,
            context: &self.context,
            integrations: &self.integrations,
            extra: &self.extra,
        }
    }
}

impl Default for Page {
    /// An event that still has to be filled in: see [`EventView::is_blank`].
    fn default() -> (r: Page)
        ensures
            r@.is_blank(Kind::Page),
    {
        Page {
            user: User::default(),
            name: None,
            properties: null_value(),
            timestamp: None,
            context: None,
            integrations: None,
            extra: empty_object(),
        }
    }
}

/// A screen event: records that a user saw a screen.
#[derive(PartialEq, Eq, Debug, Clone)]
pub struct Screen {
    /// The user associated with this message.
    pub user: User,
    /// The name of the screen being tracked.
    pub name: String,
    /// The properties associated with the screen.
    pub properties: Value,
    /// The timestamp associated with this message.
    pub timestamp: Option<OffsetDateTime>,
    /// Context associated with this message.
    pub context: Option<Value>,
    /// Integrations to route this message to.
    pub integrations: Option<Value>,
    /// Extra fields to put at the top level of this message.
    pub extra: Object,
}

impl View for Screen {
    type V = EventView;

    open spec fn view(&self) -> EventView {
        EventView {
            kind: Kind::Screen,
            user: self.user@,
            label: Some(self.name@),
            payload: Some(self.properties),
            timestamp: self.timestamp,
            context: self.context,
            integrations: self.integrations,
            extra: entries(self.extra),
        }
    }
}

impl Screen {
    /// The fields of the event.
    pub fn as_event(&self) -> (r: EventRef<'_>)
        ensures
            r@ == self@,
    {
        EventRef {
            kind: Kind::Screen,
            user: &self.user,
            label: Some(&self.name),
            payload: Some(&self.properties),
            timestamp: &self.timestamp,
            context: &self.context,
            integrations: &self.integrations,
            extra: &self.extra,
        }
    }
}

impl Default for Screen {
    /// An event that still has to be filled in: see [`EventView::is_blank`].
    fn default() -> (r: Screen)
        ensures
            r@.is_blank(Kind::Screen),
    {
        Screen {
            user: User::default(),
            name: String::new(),
            properties: null_value(),
            timestamp: None,
            context: None,
            integrations: None,
            extra: empty_object(),
        }
    }
}

/// A group event: ties a user to a group.
#[derive(PartialEq, Eq, Debug, Clone)]
pub struct Group {
    /// The user associated with this message.
    pub user: User,
    /// The group the user is being associated with.
    pub group_id: String,
    /// The traits to assign to the group.
    pub traits: Value,
    /// The timestamp associated with this message.
    pub timestamp: Option<OffsetDateTime>,
    /// Context associated with this message.
    pub context: Option<Value>,
    /// Integrations to route this message to.
    pub integrations: Option<Value>,
    /// Extra fields to put at the top level of this message.
    pub extra: Object,
}

impl View for Group {
    type V = EventView;

    open spec fn view(&self) -> EventView {
        EventView {
            kind: Kind::Group,
            user: self.user@,
            label: Some(self.group_id@),
            payload: Some(self.traits),
            timestamp: self.timestamp,
            context: self.context,
            integrations: self.integrations,
            extra: entries(self.extra),
        }
    }
}

impl Group {
    /// The fields of the event.
    pub fn as_event(&self) -> (r: EventRef<'_>)
        ensures
            r@ == self@,
    {
        EventRef {
            kind: Kind::Group,
            user: &self.user,
            label: Some(&self.group_id),
            payload: Some(&self.traits),
            timestamp: &self.timestamp,
            context: &self.context,
            integrations: &self.integrations,
            extra: &self.extra,
        }
    }
}

impl Default for Group {
    /// An event that still has to be filled in: see [`EventView::is_blank`].
    fn default() -> (r: Group)
        ensures
            r@.is_blank(Kind::Group),
    {
        Group {
            user: User::default(),
            group_id: String::new(),
            traits: null_value(),
            timestamp: None,
            context: None,
            integrations: None,
            extra: empty_object(),
        }
    }
}

/// An alias event: merges a previous identity into the user's.
#[derive(PartialEq, Eq, Debug, Clone)]
pub struct Alias {
    /// The user associated with this message.
    pub user: User,
    /// The user's previous id.
    pub previous_id: String,
    /// The timestamp associated with this message.
    pub timestamp: Option<OffsetDateTime>,
    /// Context associated with this message.
    pub context: Option<Value>,
    /// Integrations to route this message to.
    pub integrations: Option<Value>,
    /// Extra fields to put at the top level of this message.
    pub extra: Object,
}

impl View for Alias {
    type V = EventView;

    open spec fn view(&self) -> EventView {
        EventView {
            kind: Kind::Alias,
            user: self.user@,
            label: Some(self.previous_id@),
            payload: None,
            timestamp: self.timestamp,
            context: self.context,
            integrations: self.integrations,
            extra: entries(self.extra),
        }
    }
}

impl Alias {
    /// The fields of the event.
    pub fn as_event(&self) -> (r: EventRef<'_>)
        ensures
            r@ == self@,
    {
        EventRef {
            kind: Kind::Alias,
            user: &self.user,
            label: Some(&self.previous_id),
            payload: None,
            timestamp: &self.timestamp,
            context: &self.context,
            integrations: &self.integrations,
            extra: &self.extra,
        }
    }
}

impl Default for Alias {
    /// An event that still has to be filled in: see [`EventView::is_blank`].
    fn default() -> (r: Alias)
        ensures
            r@.is_blank(Kind::Alias),
    {
        Alias {
            user: User::default(),
            previous_id: String::new(),
            timestamp: None,
            context: None,
            integrations: None,
            extra: empty_object(),
        }
    }
}

} // verus!
