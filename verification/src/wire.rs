//! The vocabulary of the wire: the kinds of message and the names of the
//! fields that an encoded message carries.

use vstd::prelude::*;

verus! {

/// What a message is: one of the six events, or a batch of events.
#[derive(PartialEq, Eq, Structural, Clone, Copy, Debug)]
pub enum Kind {
    Identify,
    Track,
    Page,
    Screen,
    Group,
    Alias,
    Batch,
}

/// A field name that the encodings give a meaning to.
#[derive(PartialEq, Eq, Structural, Clone, Copy, Debug)]
pub enum WireKey {
    Type,
    UserId,
    AnonymousId,
    Event,
    Name,
    GroupId,
    PreviousId,
    Traits,
    Properties,
    Timestamp,
    Context,
    Integrations,
    Batch,
}

/// Whether two texts are the same, character by character.
pub fn same_text(a: &str, b: &str) -> (r: bool)
    ensures
        r == (a@ == b@),
{
    a.to_owned() == b.to_owned()
}

impl WireKey {
    /// The field name as it stands on the wire.
    pub open spec fn text(self) -> Seq<char> {
        match self {
            WireKey::Type => "type"@,
            WireKey::UserId => "userId"@,
            WireKey::AnonymousId => "anonymousId"@,
            WireKey::Event => "event"@,
            WireKey::Name => "name"@,
            WireKey::GroupId => "groupId"@,
            WireKey::PreviousId => "previousId"@,
            WireKey::Traits => "traits"@,
            WireKey::Properties => "properties"@,
            WireKey::Timestamp => "timestamp"@,
            WireKey::Context => "context"@,
            WireKey::Integrations => "integrations"@,
            WireKey::Batch => "batch"@,
        }
    }

    /// The field name as it stands on the wire.
    pub fn name(self) -> (r: &'static str)
        ensures
            r@ == self.text(),
    {
        match self {
            WireKey::Type => "type",
            WireKey::UserId => "userId",
            WireKey::AnonymousId => "anonymousId",
            WireKey::Event => "event",
            WireKey::Name => "name",
            WireKey::GroupId => "groupId",
            WireKey::PreviousId => "previousId",
            WireKey::Traits => "traits",
            WireKey::Properties => "properties",
            WireKey::Timestamp => "timestamp",
            WireKey::Context => "context",
            WireKey::Integrations => "integrations",
            WireKey::Batch => "batch",
        }
    }

    /// No two field names are spelled alike.
    pub proof fn lemma_names_differ(a: WireKey, b: WireKey)
        ensures
            a.text() == b.text() <==> a == b,
    {
        reveal_strlit("type");
        reveal_strlit("userId");
        reveal_strlit("anonymousId");
        reveal_strlit("event");
        reveal_strlit("name");
        reveal_strlit("groupId");
        reveal_strlit("previousId");
        reveal_strlit("traits");
        reveal_strlit("properties");
        reveal_strlit("timestamp");
        reveal_strlit("context");
        reveal_strlit("integrations");
        reveal_strlit("batch");
        if a != b && a.text() == b.text() {
            assert(a.text().len() == b.text().len());
            assert(a.text()[0] == b.text()[0]);
            assert(a.text()[2] == b.text()[2]);
        }
    }
}

impl Kind {
    /// The discriminant that the stored form writes for this kind.
    pub open spec fn tag(self) -> Seq<char> {
        match self {
            Kind::Identify => "identify"@,
            Kind::Track => "track"@,
            Kind::Page => "page"@,
            Kind::Screen => "screen"@,
            Kind::Group => "group"@,
            Kind::Alias => "alias"@,
            Kind::Batch => "batch"@,
        }
    }

    /// The path of the endpoint that takes messages of this kind.
    pub open spec fn endpoint(self) -> Seq<char> {
        match self {
            Kind::Identify => "/v1/identify"@,
            Kind::Track => "/v1/track"@,
            Kind::Page => "/v1/page"@,
            Kind::Screen => "/v1/screen"@,
            Kind::Group => "/v1/group"@,
            Kind::Alias => "/v1/alias"@,
            Kind::Batch => "/v1/batch"@,
        }
    }

    /// The kind that a discriminant names, if it names one.
    pub open spec fn named(tag: Seq<char>) -> Option<Kind> {
        if tag == Kind::Identify.tag() {
            Some(Kind::Identify)
        } else if tag == Kind::Track.tag() {
            Some(Kind::Track)
        } else if tag == Kind::Page.tag() {
            Some(Kind::Page)
        } else if tag == Kind::Screen.tag() {
            Some(Kind::Screen)
        } else if tag == Kind::Group.tag() {
            Some(Kind::Group)
        } else if tag == Kind::Alias.tag() {
            Some(Kind::Alias)
        } else if tag == Kind::Batch.tag() {
            Some(Kind::Batch)
        } else {
            None
        }
    }

    /// The name of the field that holds the kind's own text: the event name
    /// of a track, the name of a page or screen, the group of a group, the
    /// previous id of an alias. An identify has none, nor has a batch.
    pub open spec fn label_key(self) -> Option<WireKey> {
        match self {
            Kind::Identify => None,
            Kind::Track => Some(WireKey::Event),
            Kind::Page => Some(WireKey::Name),
            Kind::Screen => Some(WireKey::Name),
            Kind::Group => Some(WireKey::GroupId),
            Kind::Alias => Some(WireKey::PreviousId),
            Kind::Batch => None,
        }
    }

    /// The name of the field that holds the kind's free-form data: traits or
    /// properties. An alias has none, nor has a batch.
    pub open spec fn payload_key(self) -> Option<WireKey> {
        match self {
            Kind::Identify => Some(WireKey::Traits),
            Kind::Track => Some(WireKey::Properties),
            Kind::Page => Some(WireKey::Properties),
            Kind::Screen => Some(WireKey::Properties),
            Kind::Group => Some(WireKey::Traits),
            Kind::Alias => None,
            Kind::Batch => None,
        }
    }

    /// Whether the kind's own text may be missing: only a page can go without
    /// its name.
    pub open spec fn label_optional(self) -> bool {
        self == Kind::Page
    }

    /// The field names that an encoded message of this kind gives a meaning
    /// to, in the order in which they are looked for. None of them can be
    /// the key of an extra field.
    pub open spec fn reserved(self) -> Seq<WireKey> {
        if self == Kind::Batch {
            seq![WireKey::Type, WireKey::Batch, WireKey::Context, WireKey::Integrations]
        } else {
            seq![WireKey::Type, WireKey::UserId, WireKey::AnonymousId] + (match self.label_key() {
                Some(k) => seq![k],
                None => seq![],
            }) + (match self.payload_key() {
                Some(k) => seq![k],
                None => seq![],
            }) + seq![WireKey::Timestamp, WireKey::Context, WireKey::Integrations]
        }
    }

    /// The discriminant that the stored form writes for this kind.
    pub fn name(self) -> (r: &'static str)
        ensures
            r@ == self.tag(),
    {
        match self {
            Kind::Identify => "identify",
            Kind::Track => "track",
            Kind::Page => "page",
            Kind::Screen => "screen",
            Kind::Group => "group",
            Kind::Alias => "alias",
            Kind::Batch => "batch",
        }
    }

    /// The path of the endpoint that takes messages of this kind.
    pub fn path(self) -> (r: &'static str)
        ensures
            r@ == self.endpoint(),
    {
        match self {
            Kind::Identify => "/v1/identify",
            Kind::Track => "/v1/track",
            Kind::Page => "/v1/page",
            Kind::Screen => "/v1/screen",
            Kind::Group => "/v1/group",
            Kind::Alias => "/v1/alias",
            Kind::Batch => "/v1/batch",
        }
    }

    /// The kind that a discriminant names, if it names one.
    pub fn from_name(name: &str) -> (r: Option<Kind>)
        ensures
            r == Kind::named(name@),
    {
        if same_text(name, "identify") {
            Some(Kind::Identify)
        } else if same_text(name, "track") {
            Some(Kind::Track)
        } else if same_text(name, "page") {
            Some(Kind::Page)
        } else if same_text(name, "screen") {
            Some(Kind::Screen)
        } else if same_text(name, "group") {
            Some(Kind::Group)
        } else if same_text(name, "alias") {
            Some(Kind::Alias)
        } else if same_text(name, "batch") {
            Some(Kind::Batch)
        } else {
            None
        }
    }

    /// See [`Kind::label_key`].
    pub fn label_field(self) -> (r: Option<WireKey>)
        ensures
            r == self.label_key(),
    {
        match self {
            Kind::Identify => None,
            Kind::Track => Some(WireKey::Event),
            Kind::Page => Some(WireKey::Name),
            Kind::Screen => Some(WireKey::Name),
            Kind::Group => Some(WireKey::GroupId),
            Kind::Alias => Some(WireKey::PreviousId),
            Kind::Batch => None,
        }
    }

    /// See [`Kind::payload_key`].
    pub fn payload_field(self) -> (r: Option<WireKey>)
        ensures
            r == self.payload_key(),
    {
        match self {
            Kind::Identify => Some(WireKey::Traits),
            Kind::Track => Some(WireKey::Properties),
            Kind::Page => Some(WireKey::Properties),
            Kind::Screen => Some(WireKey::Properties),
            Kind::Group => Some(WireKey::Traits),
            Kind::Alias => None,
            Kind::Batch => None,
        }
    }

    /// The reserved field names of this kind, in order.
    pub fn reserved_keys(self) -> (r: Vec<WireKey>)
        ensures
            r@ == self.reserved(),
    {
        let mut keys: Vec<WireKey> = Vec::new();
        keys.push(WireKey::Type);
        if self == Kind::Batch {
            keys.push(WireKey::Batch);
        } else {
            keys.push(WireKey::UserId);
            keys.push(WireKey::AnonymousId);
            if let Some(k) = self.label_field() {
                keys.push(k);
            }
            if let Some(k) = self.payload_field() {
                keys.push(k);
            }
            keys.push(WireKey::Timestamp);
        }
        keys.push(WireKey::Context);
        keys.push(WireKey::Integrations);
        assert(keys@ =~= self.reserved());
        keys
    }

    /// A discriminant names the kind that writes it, and no other.
    pub proof fn lemma_named(tag: Seq<char>, kind: Kind)
        ensures
            Kind::named(tag) == Some(kind) <==> tag == kind.tag(),
    {
        Kind::lemma_tags_differ(kind, Kind::Identify);
        Kind::lemma_tags_differ(kind, Kind::Track);
        Kind::lemma_tags_differ(kind, Kind::Page);
        Kind::lemma_tags_differ(kind, Kind::Screen);
        Kind::lemma_tags_differ(kind, Kind::Group);
        Kind::lemma_tags_differ(kind, Kind::Alias);
        Kind::lemma_tags_differ(kind, Kind::Batch);
    }

    /// No two kinds share a discriminant.
    pub proof fn lemma_tags_differ(a: Kind, b: Kind)
        ensures
            a.tag() == b.tag() <==> a == b,
    {
        reveal_strlit("identify");
        reveal_strlit("track");
        reveal_strlit("page");
        reveal_strlit("screen");
        reveal_strlit("group");
        reveal_strlit("alias");
        reveal_strlit("batch");
        if a != b && a.tag() == b.tag() {
            assert(a.tag().len() == b.tag().len());
            assert(a.tag()[0] == b.tag()[0]);
        }
    }
}

} // verus!
