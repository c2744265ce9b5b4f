//! Messages: an event or a batch of events, in the form that is sent and in
//! the form that is stored.

pub use crate::event::{Alias, Group, Identify, Page, Screen, Track};
use crate::event::{EventContent, EventRef, EventView};
use crate::json::{empty_object, entries, to_map, Object};
pub use crate::user::User;
use crate::wire::Kind;
use serde_json::Value;
use time::OffsetDateTime;
use vstd::prelude::*;
use vstd::std_specs::convert::FromSpecImpl;

verus! {

/// A batch as plain data: its items in order, and its own fields.
pub struct BatchView {
    pub items: Seq<EventView>,
    pub context: Option<Value>,
    pub integrations: Option<Value>,
    /// The extra fields, in the order in which their object hands them out.
    pub extra: Seq<(Seq<char>, Value)>,
}

/// A message as plain data.
pub enum MessageView {
    Event(EventView),
    Batch(BatchView),
}

/// What a batch holds, field by field.
pub struct BatchContent {
    pub items: Seq<EventContent>,
    pub context: Option<Value>,
    pub integrations: Option<Value>,
    pub extra: Map<Seq<char>, Value>,
}

/// What a message holds, field by field.
pub enum MessageContent {
    Event(EventContent),
    Batch(BatchContent),
}

impl BatchView {
    /// What the batch holds, field by field.
    pub open spec fn content(self) -> BatchContent {
        BatchContent {
            items: Seq::new(self.items.len(), |i: int| self.items[i].content()),
            context: self.context,
            integrations: self.integrations,
            extra: to_map(self.extra),
        }
    }
}

impl MessageView {
    /// What the message holds, field by field.
    pub open spec fn content(self) -> MessageContent {
        match self {
            MessageView::Event(ev) => MessageContent::Event(ev.content()),
            MessageView::Batch(b) => MessageContent::Batch(b.content()),
        }
    }

    /// What the message is.
    pub open spec fn kind(self) -> Kind {
        match self {
            MessageView::Event(ev) => ev.kind,
            MessageView::Batch(_) => Kind::Batch,
        }
    }
}

/// An event inside a batch. There is no batch among them: batches do not
/// nest.
#[derive(PartialEq, Eq, Debug, Clone)]
pub enum BatchMessage {
    Identify(Identify),
    Track(Track),
    Page(Page),
    Screen(Screen),
    Group(Group),
    Alias(Alias),
}

impl View for BatchMessage {
    type V = EventView;

    open spec fn view(&self) -> EventView {
        match *self {
            BatchMessage::Identify(e) => e@,
            BatchMessage::Track(e) => e@,
            BatchMessage::Page(e) => e@,
            BatchMessage::Screen(e) => e@,
            BatchMessage::Group(e) => e@,
            BatchMessage::Alias(e) => e@,
        }
    }
}

impl BatchMessage {
    /// The fields of the event.
    pub fn as_event(&self) -> (r: EventRef<'_>)
        ensures
            r@ == self@,
    {
        match self {
            BatchMessage::Identify(e) => e.as_event(),
            BatchMessage::Track(e) => e.as_event(),
            BatchMessage::Page(e) => e.as_event(),
            BatchMessage::Screen(e) => e.as_event(),
            BatchMessage::Group(e) => e.as_event(),
            BatchMessage::Alias(e) => e.as_event(),
        }
    }

    /// The timestamp of the event, to read or to set.
    pub fn timestamp_mut(&mut self) -> (r: &mut Option<OffsetDateTime>)
        ensures
            *r == old(self)@.timestamp,
            final(self)@ == old(self)@.with_timestamp(*final(r)),
    {
        match self {
            BatchMessage::Identify(e) => &mut e.timestamp,
            BatchMessage::Track(e) => &mut e.timestamp,
            BatchMessage::Page(e) => &mut e.timestamp,
            BatchMessage::Screen(e) => &mut e.timestamp,
            BatchMessage::Group(e) => &mut e.timestamp,
            BatchMessage::Alias(e) => &mut e.timestamp,
        }
    }
}

/// A batch of events.
#[derive(PartialEq, Eq, Debug, Clone)]
pub struct Batch {
    /// The batch of messages to send.
    pub batch: Vec<BatchMessage>,
    /// Context associated with this message.
    pub context: Option<Value>,
    /// Integrations to route this message to.
    pub integrations: Option<Value>,
    /// Extra fields to put at the top level of this message.
    pub extra: Object,
}

impl View for Batch {
    type V = BatchView;

    open spec fn view(&self) -> BatchView {
        BatchView {
            items: Seq::new(self.batch@.len(), |i: int| self.batch@[i]@),
            context: self.context,
            integrations: self.integrations,
            extra: entries(self.extra),
        }
    }
}

impl Default for Batch {
    /// A batch without items and without fields.
    fn default() -> (r: Batch)
        ensures
            r@ == (BatchView {
                items: Seq::empty(),
                context: None,
                integrations: None,
                extra: Seq::empty(),
            }),
    {
        let r = Batch {
            batch: Vec::new(),
            context: None,
            integrations: None,
            extra: empty_object(),
        };
        assert(r@.items =~= Seq::empty());
        r
    }
}

/// A message of either form, borrowed from the message that owns it.
pub enum MessageRef<'a> {
    Event(EventRef<'a>),
    Batch(&'a Batch),
}

impl View for MessageRef<'_> {
    type V = MessageView;

    open spec fn view(&self) -> MessageView {
        match *self {
            MessageRef::Event(ev) => MessageView::Event(ev@),
            MessageRef::Batch(b) => MessageView::Batch(b@),
        }
    }
}

/// A message in the form that is sent to the API. The encoded message does
/// not say what kind it is: the endpoint that it is sent to does.
#[derive(PartialEq, Eq, Debug, Clone)]
pub enum Message {
    Identify(Identify),
    Track(Track),
    Page(Page),
    Screen(Screen),
    Group(Group),
    Alias(Alias),
    Batch(Batch),
}

impl View for Message {
    type V = MessageView;

    open spec fn view(&self) -> MessageView {
        match *self {
            Message::Identify(e) => MessageView::Event(e@),
            Message::Track(e) => MessageView::Event(e@),
            Message::Page(e) => MessageView::Event(e@),
            Message::Screen(e) => MessageView::Event(e@),
            Message::Group(e) => MessageView::Event(e@),
            Message::Alias(e) => MessageView::Event(e@),
            Message::Batch(b) => MessageView::Batch(b@),
        }
    }
}

impl Message {
    /// What the message is.
    pub fn kind(&self) -> (r: Kind)
        ensures
            r == self@.kind(),
    {
        match self {
            Message::Identify(_) => Kind::Identify,
            Message::Track(_) => Kind::Track,
            Message::Page(_) => Kind::Page,
            Message::Screen(_) => Kind::Screen,
            Message::Group(_) => Kind::Group,
            Message::Alias(_) => Kind::Alias,
            Message::Batch(_) => Kind::Batch,
        }
    }

    /// The message, borrowed.
    pub fn as_message(&self) -> (r: MessageRef<'_>)
        ensures
            r@ == self@,
    {
        match self {
            Message::Identify(e) => MessageRef::Event(e.as_event()),
            Message::Track(e) => MessageRef::Event(e.as_event()),
            Message::Page(e) => MessageRef::Event(e.as_event()),
            Message::Screen(e) => MessageRef::Event(e.as_event()),
            Message::Group(e) => MessageRef::Event(e.as_event()),
            Message::Alias(e) => MessageRef::Event(e.as_event()),
            Message::Batch(b) => MessageRef::Batch(b),
        }
    }

    /// The path of the endpoint that takes this message.
    pub fn path(&self) -> (r: &'static str)
        ensures
            r@ == self@.kind().endpoint(),
    {
        self.kind().path()
    }
}

/// A message in the form that is queued before it is sent. The encoded
/// message says what kind it is, so that a queue of mixed messages can be
/// read back.
#[derive(PartialEq, Eq, Debug, Clone)]
pub enum StoredMessage {
    Identify(Identify),
    Track(Track),
    Page(Page),
    Screen(Screen),
    Group(Group),
    Alias(Alias),
    Batch(Batch),
}

impl View for StoredMessage {
    type V = MessageView;

    open spec fn view(&self) -> MessageView {
        match *self {
            StoredMessage::Identify(e) => MessageView::Event(e@),
            StoredMessage::Track(e) => MessageView::Event(e@),
            StoredMessage::Page(e) => MessageView::Event(e@),
            StoredMessage::Screen(e) => MessageView::Event(e@),
            StoredMessage::Group(e) => MessageView::Event(e@),
            StoredMessage::Alias(e) => MessageView::Event(e@),
            StoredMessage::Batch(b) => MessageView::Batch(b@),
        }
    }
}

impl StoredMessage {
    /// The message, borrowed.
    pub fn as_message(&self) -> (r: MessageRef<'_>)
        ensures
            r@ == self@,
    {
        match self {
            StoredMessage::Identify(e) => MessageRef::Event(e.as_event()),
            StoredMessage::Track(e) => MessageRef::Event(e.as_event()),
            StoredMessage::Page(e) => MessageRef::Event(e.as_event()),
            StoredMessage::Screen(e) => MessageRef::Event(e.as_event()),
            StoredMessage::Group(e) => MessageRef::Event(e.as_event()),
            StoredMessage::Alias(e) => MessageRef::Event(e.as_event()),
            StoredMessage::Batch(b) => MessageRef::Batch(b),
        }
    }

    /// What the message is.
    pub fn kind(&self) -> (r: Kind)
        ensures
            r == self@.kind(),
    {
        match self {
            StoredMessage::Identify(_) => Kind::Identify,
            StoredMessage::Track(_) => Kind::Track,
            StoredMessage::Page(_) => Kind::Page,
            StoredMessage::Screen(_) => Kind::Screen,
            StoredMessage::Group(_) => Kind::Group,
            StoredMessage::Alias(_) => Kind::Alias,
            StoredMessage::Batch(_) => Kind::Batch,
        }
    }
}

impl From<StoredMessage> for Message {
    /// The stored message as a message to send: the same kind with the same
    /// fields.
    fn from(other: StoredMessage) -> (r: Message) {
        match other {
            StoredMessage::Identify(e) => Message::Identify(e),
            StoredMessage::Track(e) => Message::Track(e),
            StoredMessage::Page(e) => Message::Page(e),
            StoredMessage::Screen(e) => Message::Screen(e),
            StoredMessage::Group(e) => Message::Group(e),
            StoredMessage::Alias(e) => Message::Alias(e),
            StoredMessage::Batch(b) => Message::Batch(b),
        }
    }
}

impl FromSpecImpl<StoredMessage> for Message {
    open spec fn obeys_from_spec() -> bool {
        true
    }

    open spec fn from_spec(other: StoredMessage) -> Message {
        match other {
            StoredMessage::Identify(e) => Message::Identify(e),
            StoredMessage::Track(e) => Message::Track(e),
            StoredMessage::Page(e) => Message::Page(e),
            StoredMessage::Screen(e) => Message::Screen(e),
            StoredMessage::Group(e) => Message::Group(e),
            StoredMessage::Alias(e) => Message::Alias(e),
            StoredMessage::Batch(b) => Message::Batch(b),
        }
    }
}

impl From<Identify> for Message {
    fn from(message: Identify) -> (r: Message) {
        Message::Identify(message)
    }
}

impl FromSpecImpl<Identify> for Message {
    open spec fn obeys_from_spec() -> bool {
        true
    }

    open spec fn from_spec(message: Identify) -> Message {
        Message::Identify(message)
    }
}

impl From<Track> for Message {
    fn from(message: Track) -> (r: Message) {
        Message::Track(message)
    }
}

impl FromSpecImpl<Track> for Message {
    open spec fn obeys_from_spec() -> bool {
        true
    }

    open spec fn from_spec(message: Track) -> Message {
        Message::Track(message)
    }
}

impl From<Page> for Message {
    fn from(message: Page) -> (r: Message) {
        Message::Page(message)
    }
}

impl FromSpecImpl<Page> for Message {
    open spec fn obeys_from_spec() -> bool {
        true
    }

    open spec fn from_spec(message: Page) -> Message {
        Message::Page(message)
    }
}

impl From<Screen> for Message {
    fn from(message: Screen) -> (r: Message) {
        Message::Screen(message)
    }
}

impl FromSpecImpl<Screen> for Message {
    open spec fn obeys_from_spec() -> bool {
        true
    }

    open spec fn from_spec(message: Screen) -> Message {
        Message::Screen(message)
    }
}

impl From<Group> for Message {
    fn from(message: Group) -> (r: Message) {
        Message::Group(message)
    }
}

impl FromSpecImpl<Group> for Message {
    open spec fn obeys_from_spec() -> bool {
        true
    }

    open spec fn from_spec(message: Group) -> Message {
        Message::Group(message)
    }
}

impl From<Alias> for Message {
    fn from(message: Alias) -> (r: Message) {
        Message::Alias(message)
    }
}

impl FromSpecImpl<Alias> for Message {
    open spec fn obeys_from_spec() -> bool {
        true
    }

    open spec fn from_spec(message: Alias) -> Message {
        Message::Alias(message)
    }
}

impl From<Batch> for Message {
    fn from(message: Batch) -> (r: Message) {
        Message::Batch(message)
    }
}

impl FromSpecImpl<Batch> for Message {
    open spec fn obeys_from_spec() -> bool {
        true
    }

    open spec fn from_spec(message: Batch) -> Message {
        Message::Batch(message)
    }
}

impl From<Identify> for BatchMessage {
    fn from(message: Identify) -> (r: BatchMessage) {
        BatchMessage::Identify(message)
    }
}

impl FromSpecImpl<Identify> for BatchMessage {
    open spec fn obeys_from_spec() -> bool {
        true
    }

    open spec fn from_spec(message: Identify) -> BatchMessage {
        BatchMessage::Identify(message)
    }
}

impl From<Track> for BatchMessage {
    fn from(message: Track) -> (r: BatchMessage) {
        BatchMessage::Track(message)
    }
}

impl FromSpecImpl<Track> for BatchMessage {
    open spec fn obeys_from_spec() -> bool {
        true
    }

    open spec fn from_spec(message: Track) -> BatchMessage {
        BatchMessage::Track(message)
    }
}

impl From<Page> for BatchMessage {
    fn from(message: Page) -> (r: BatchMessage) {
        BatchMessage::Page(message)
    }
}

impl FromSpecImpl<Page> for BatchMessage {
    open spec fn obeys_from_spec() -> bool {
        true
    }

    open spec fn from_spec(message: Page) -> BatchMessage {
        BatchMessage::Page(message)
    }
}

impl From<Screen> for BatchMessage {
    fn from(message: Screen) -> (r: BatchMessage) {
        BatchMessage::Screen(message)
    }
}

impl FromSpecImpl<Screen> for BatchMessage {
    open spec fn obeys_from_spec() -> bool {
        true
    }

    open spec fn from_spec(message: Screen) -> BatchMessage {
        BatchMessage::Screen(message)
    }
}

impl From<Group> for BatchMessage {
    fn from(message: Group) -> (r: BatchMessage) {
        BatchMessage::Group(message)
    }
}

impl FromSpecImpl<Group> for BatchMessage {
    open spec fn obeys_from_spec() -> bool {
        true
    }

    open spec fn from_spec(message: Group) -> BatchMessage {
        BatchMessage::Group(message)
    }
}

impl From<Alias> for BatchMessage {
    fn from(message: Alias) -> (r: BatchMessage) {
        BatchMessage::Alias(message)
    }
}

impl FromSpecImpl<Alias> for BatchMessage {
    open spec fn obeys_from_spec() -> bool {
        true
    }

    open spec fn from_spec(message: Alias) -> BatchMessage {
        BatchMessage::Alias(message)
    }
}

} // verus!
