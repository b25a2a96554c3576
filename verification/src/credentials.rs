//! A username/token pair and the rule that picks between a supplied pair and
//! a stored one.

use vstd::prelude::*;

verus! {

/// A username/token pair that identifies a user to the authentication
/// endpoint.
#[derive(Debug)]
pub struct Credentials {
    pub username: String,
    pub token: String,
}

/// The mathematical value of a pair of credentials.
pub struct CredentialsView {
    pub username: Seq<char>,
    pub token: Seq<char>,
}

impl CredentialsView {
    /// A pair is valid when both of its fields are non-empty.
    pub open spec fn is_valid(self) -> bool {
        self.username.len() > 0 && self.token.len() > 0
    }
}

impl View for Credentials {
    type V = CredentialsView;

    open spec fn view(&self) -> CredentialsView {
        CredentialsView { username: self.username@, token: self.token@ }
    }
}

/// The pair that an authentication attempt uses: the supplied one when it is
/// valid, else the stored one when that is valid, else none.
pub open spec fn resolved(supplied: CredentialsView, stored: CredentialsView) -> Option<
    CredentialsView,
> {
    if supplied.is_valid() {
        Some(supplied)
    } else if stored.is_valid() {
        Some(stored)
    } else {
        None
    }
}

impl Credentials {
    /// A pair with the given fields.
    pub fn new(username: String, token: String) -> (c: Credentials)
        ensures
            c@ == (CredentialsView { username: username@, token: token@ }),
    {
        Credentials { username, token }
    }

    /// The pair with two empty fields, as a fresh database holds it.
    pub fn empty() -> (c: Credentials)
        ensures
            c@ == (CredentialsView {
                username: Seq::<char>::empty(),
                token: Seq::<char>::empty(),
            }),
            !c@.is_valid(),
    {
        Credentials { username: String::new(), token: String::new() }
    }

    /// Whether both fields are non-empty.
    pub fn is_valid(&self) -> (valid: bool)
        ensures
            valid == self@.is_valid(),
    {
        !self.username.as_str().is_empty() && !self.token.as_str().is_empty()
    }

    /// A copy with the same fields.
    pub fn duplicate(&self) -> (c: Credentials)
        ensures
            c@ == self@,
    {
        Credentials { username: self.username.clone(), token: self.token.clone() }
    }

    /// Picks the pair to authenticate with. The supplied pair takes
    /// precedence when both are valid; without a valid pair there is none.
    pub fn resolve(supplied: &Credentials, stored: &Credentials) -> (chosen: Option<Credentials>)
        ensures
            chosen.is_some() == (supplied@.is_valid() || stored@.is_valid()),
            match chosen {
                Some(c) => Some(c@) == resolved(supplied@, stored@),
                None => resolved(supplied@, stored@).is_none(),
            },
    {
        if supplied.is_valid() {
            Some(supplied.duplicate())
        } else if stored.is_valid() {
            Some(stored.duplicate())
        } else {
            None
        }
    }
}

/// No pair is chosen exactly when neither the supplied pair nor the stored
/// pair has both fields non-empty.
pub proof fn lemma_unresolved_iff_neither_valid(supplied: CredentialsView, stored: CredentialsView)
    ensures
        resolved(supplied, stored).is_none() <==> (!supplied.is_valid() && !stored.is_valid()),
        supplied.is_valid() ==> resolved(supplied, stored) == Some(supplied),
        !supplied.is_valid() && stored.is_valid() ==> resolved(supplied, stored) == Some(stored),
{
}

} // verus!
