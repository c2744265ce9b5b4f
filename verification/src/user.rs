//! Who an event is about.

use vstd::prelude::*;

verus! {

/// The identity behind an event: a user id, an anonymous id, or both. At
/// least one identifier is always there.
#[derive(PartialEq, Eq, Debug, Clone)]
pub enum User {
    /// The user is identified only by a user id.
    UserId { user_id: String },
    /// The user is identified only by an anonymous id.
    AnonymousId { anonymous_id: String },
    /// The user is identified by both a user id and an anonymous id.
    Both { user_id: String, anonymous_id: String },
}

/// An identity as plain data: each identifier, where the identity has it.
pub struct UserView {
    pub user_id: Option<Seq<char>>,
    pub anonymous_id: Option<Seq<char>>,
}

impl UserView {
    /// The identity that a fresh event starts with: an anonymous id that is
    /// still empty.
    pub open spec fn placeholder() -> UserView {
        UserView { user_id: None, anonymous_id: Some(Seq::empty()) }
    }

    /// The text that stands for the identity: the user id where there is
    /// one, else the anonymous id.
    pub open spec fn shown(self) -> Seq<char> {
        match self.user_id {
            Some(id) => id,
            None => match self.anonymous_id {
                Some(id) => id,
                None => Seq::empty(),
            },
        }
    }

    /// Whether the identity can be sent: every identifier it has is
    /// non-empty.
    pub open spec fn usable(self) -> bool {
        &&& self.user_id matches Some(id) ==> id.len() > 0
        &&& self.anonymous_id matches Some(id) ==> id.len() > 0
    }
}

impl View for User {
    type V = UserView;

    open spec fn view(&self) -> UserView {
        match *self {
            User::UserId { user_id } => UserView { user_id: Some(user_id@), anonymous_id: None },
            User::AnonymousId { anonymous_id } => UserView {
                user_id: None,
                anonymous_id: Some(anonymous_id@),
            },
            User::Both { user_id, anonymous_id } => UserView {
                user_id: Some(user_id@),
                anonymous_id: Some(anonymous_id@),
            },
        }
    }
}

impl User {
    /// The user id, where the identity has one.
    pub fn user_id(&self) -> (r: Option<&String>)
        ensures
            match r {
                Some(id) => self@.user_id == Some(id@),
                None => self@.user_id is None,
            },
    {
        match self {
            User::UserId { user_id } => Some(user_id),
            User::AnonymousId { .. } => None,
            User::Both { user_id, .. } => Some(user_id),
        }
    }

    /// The anonymous id, where the identity has one.
    pub fn anonymous_id(&self) -> (r: Option<&String>)
        ensures
            match r {
                Some(id) => self@.anonymous_id == Some(id@),
                None => self@.anonymous_id is None,
            },
    {
        match self {
            User::UserId { .. } => None,
            User::AnonymousId { anonymous_id } => Some(anonymous_id),
            User::Both { anonymous_id, .. } => Some(anonymous_id),
        }
    }

    /// The identity as text. An identity with both identifiers shows its
    /// user id.
    pub fn to_string(&self) -> (r: String)
        ensures
            r@ == self@.shown(),
            self is Both ==> r@ == self->Both_user_id@,
    {
        match self {
            User::UserId { user_id } => user_id.clone(),
            User::AnonymousId { anonymous_id } => anonymous_id.clone(),
            User::Both { user_id, .. } => user_id.clone(),
        }
    }

    /// Whether the identity can be sent: every identifier it has is
    /// non-empty.
    pub fn is_usable(&self) -> (r: bool)
        ensures
            r == self@.usable(),
    {
        match self {
            User::UserId { user_id } => !user_id.as_str().is_empty(),
            User::AnonymousId { anonymous_id } => !anonymous_id.as_str().is_empty(),
            User::Both { user_id, anonymous_id } => !user_id.as_str().is_empty()
                && !anonymous_id.as_str().is_empty(),
        }
    }
}

impl Default for User {
    /// An anonymous id that is still empty: a placeholder that has to be
    /// overwritten before the event can be sent.
    fn default() -> (r: User)
        ensures
            r@ == UserView::placeholder(),
            !r@.usable(),
    {
        User::AnonymousId { anonymous_id: String::new() }
    }
}

} // verus!
