//! The claims that a verified token makes about its bearer.

use crate::json::{
    as_flag, as_items, as_text, as_unsigned, decimal, flag, flag_text, json_flag, json_items,
    json_member, json_quoted, json_text, json_unsigned, list, list_text, member, number, quote,
    texts, texts_of, texts_view,
};
use vstd::prelude::*;

verus! {

/// The decoded payload of a token.
#[derive(Debug)]
pub struct Claims {
    pub sub: String,
    pub iss: String,
    pub aud: String,
    pub exp: usize,
    pub roles: Vec<String>,
    pub channels: Vec<String>,
    pub is_linked: bool,
    pub is_subscribed: bool,
}

/// The mathematical value of a set of claims.
pub struct ClaimsView {
    pub sub: Seq<char>,
    pub iss: Seq<char>,
    pub aud: Seq<char>,
    pub exp: nat,
    pub roles: Seq<Seq<char>>,
    pub channels: Seq<Seq<char>>,
    pub is_linked: bool,
    pub is_subscribed: bool,
}

impl View for Claims {
    type V = ClaimsView;

    open spec fn view(&self) -> ClaimsView {
        ClaimsView {
            sub: self.sub@,
            iss: self.iss@,
            aud: self.aud@,
            exp: self.exp as nat,
            roles: texts_view(self.roles@),
            channels: texts_view(self.channels@),
            is_linked: self.is_linked,
            is_subscribed: self.is_subscribed,
        }
    }
}

/// What a field of the payload holds, seen as a value of one kind.
pub enum Field<T> {
    /// The payload has no member of this name.
    Missing,
    /// The member is of another kind.
    Mismatch,
    /// The member is of this kind and holds this.
    Present(T),
}

/// The member `name` of a payload as a text.
pub open spec fn text_field(payload: serde_json::Value, name: Seq<char>) -> Field<Seq<char>> {
    match json_member(payload, name) {
        None => Field::Missing,
        Some(m) => match json_text(m) {
            Some(text) => Field::Present(text),
            None => Field::Mismatch,
        },
    }
}

/// The member `name` of a payload as a number that the machine can index
/// with.
pub open spec fn size_field(payload: serde_json::Value, name: Seq<char>) -> Field<nat> {
    match json_member(payload, name) {
        None => Field::Missing,
        Some(m) => match json_unsigned(m) {
            Some(n) => if n <= usize::MAX {
                Field::Present(n as nat)
            } else {
                Field::Mismatch
            },
            None => Field::Mismatch,
        },
    }
}

/// The member `name` of a payload as a truth value.
pub open spec fn flag_field(payload: serde_json::Value, name: Seq<char>) -> Field<bool> {
    match json_member(payload, name) {
        None => Field::Missing,
        Some(m) => match json_flag(m) {
            Some(b) => Field::Present(b),
            None => Field::Mismatch,
        },
    }
}

/// The member `name` of a payload as a list of texts.
pub open spec fn list_field(payload: serde_json::Value, name: Seq<char>) -> Field<
    Seq<Seq<char>>,
> {
    match json_member(payload, name) {
        None => Field::Missing,
        Some(m) => match json_items(m) {
            Some(items) => match texts_of(items) {
                Some(list) => Field::Present(list),
                None => Field::Mismatch,
            },
            None => Field::Mismatch,
        },
    }
}

/// A list field that may be left out: a missing one is the empty list.
pub open spec fn list_or_empty(field: Field<Seq<Seq<char>>>) -> Option<Seq<Seq<char>>> {
    match field {
        Field::Missing => Some(Seq::<Seq<char>>::empty()),
        Field::Mismatch => None,
        Field::Present(list) => Some(list),
    }
}

/// The claims that a payload makes. Subject, issuer, audience, expiry and
/// the two flags must be there, each of its kind; the two lists may be left
/// out, and are then empty. Members of other names are not looked at.
pub open spec fn claims_of(payload: serde_json::Value) -> Option<ClaimsView> {
    match (
        text_field(payload, "sub"@),
        text_field(payload, "iss"@),
        text_field(payload, "aud"@),
        size_field(payload, "exp"@),
        list_or_empty(list_field(payload, "roles"@)),
        list_or_empty(list_field(payload, "releaseChannels"@)),
        flag_field(payload, "IsPatreonAccountLinked"@),
        flag_field(payload, "IsPatreonSubscriptionActive"@),
    ) {
        (
            Field::Present(sub),
            Field::Present(iss),
            Field::Present(aud),
            Field::Present(exp),
            Some(roles),
            Some(channels),
            Field::Present(is_linked),
            Field::Present(is_subscribed),
        ) => Some(
            ClaimsView { sub, iss, aud, exp, roles, channels, is_linked, is_subscribed },
        ),
        _ => None,
    }
}

/// Reads a member as a text.
fn read_text(payload: &serde_json::Value, name: &str) -> (text: Option<String>)
    ensures
        match text {
            Some(t) => text_field(*payload, name@) == Field::Present(t@),
            None => !(text_field(*payload, name@) is Present),
        },
{
    match member(payload, name) {
        Some(m) => as_text(m),
        None => None,
    }
}

/// Reads a member as a size.
fn read_size(payload: &serde_json::Value, name: &str) -> (size: Option<usize>)
    ensures
        match size {
            Some(n) => size_field(*payload, name@) == Field::Present(n as nat),
            None => !(size_field(*payload, name@) is Present),
        },
{
    match member(payload, name) {
        Some(m) => match as_unsigned(m) {
            Some(n) => if n <= usize::MAX as u64 {
                Some(n as usize)
            } else {
                None
            },
            None => None,
        },
        None => None,
    }
}

/// Reads a member as a truth value.
fn read_flag(payload: &serde_json::Value, name: &str) -> (flag: Option<bool>)
    ensures
        match flag {
            Some(b) => flag_field(*payload, name@) == Field::Present(b),
            None => !(flag_field(*payload, name@) is Present),
        },
{
    match member(payload, name) {
        Some(m) => as_flag(m),
        None => None,
    }
}

/// Reads a member that may be left out as a list of texts.
fn read_list(payload: &serde_json::Value, name: &str) -> (list: Option<Vec<String>>)
    ensures
        match list {
            Some(l) => list_or_empty(list_field(*payload, name@)) == Some(texts_view(l@)),
            None => list_or_empty(list_field(*payload, name@)).is_none(),
        },
{
    match member(payload, name) {
        Some(m) => match as_items(m) {
            Some(items) => texts(items),
            None => None,
        },
        None => {
            let empty: Vec<String> = Vec::new();
            assert(texts_view(empty@) == Seq::<Seq<char>>::empty());
            Some(empty)
        },
    }
}

/// The claims as JSON: an object with the members in the order of the
/// fields, without white space. `None` where a text cannot be written.
pub open spec fn claims_json(claims: ClaimsView) -> Option<Seq<char>> {
    match (
        json_quoted(claims.sub),
        json_quoted(claims.iss),
        json_quoted(claims.aud),
        list_text(claims.roles),
        list_text(claims.channels),
    ) {
        (Some(sub), Some(iss), Some(aud), Some(roles), Some(channels)) => Some(
            "{\"sub\":"@ + sub + ",\"iss\":"@ + iss + ",\"aud\":"@ + aud + ",\"exp\":"@ + decimal(
                claims.exp,
            ) + ",\"roles\":"@ + roles + ",\"releaseChannels\":"@ + channels
                + ",\"IsPatreonAccountLinked\":"@ + flag_text(claims.is_linked)
                + ",\"IsPatreonSubscriptionActive\":"@ + flag_text(claims.is_subscribed) + "}"@,
        ),
        _ => None,
    }
}

impl Claims {
    /// Reads the claims out of the payload of a token. `None` where the
    /// payload does not make them all.
    pub fn from_payload(payload: &serde_json::Value) -> (claims: Option<Claims>)
        ensures
            match claims {
                Some(c) => claims_of(*payload) == Some(c@),
                None => claims_of(*payload).is_none(),
            },
    {
        let sub = match read_text(payload, "sub") {
            Some(v) => v,
            None => return None,
        };
        let iss = match read_text(payload, "iss") {
            Some(v) => v,
            None => return None,
        };
        let aud = match read_text(payload, "aud") {
            Some(v) => v,
            None => return None,
        };
        let exp = match read_size(payload, "exp") {
            Some(v) => v,
            None => return None,
        };
        let roles = match read_list(payload, "roles") {
            Some(v) => v,
            None => return None,
        };
        let channels = match read_list(payload, "releaseChannels") {
            Some(v) => v,
            None => return None,
        };
        let is_linked = match read_flag(payload, "IsPatreonAccountLinked") {
            Some(v) => v,
            None => return None,
        };
        let is_subscribed = match read_flag(payload, "IsPatreonSubscriptionActive") {
            Some(v) => v,
            None => return None,
        };
        Some(Claims { sub, iss, aud, exp, roles, channels, is_linked, is_subscribed })
    }

    /// Writes the claims as JSON. `None` where a text cannot be written.
    pub fn to_json(&self) -> (json: Option<String>)
        ensures
            match json {
                Some(text) => claims_json(self@) == Some(text@),
                None => claims_json(self@).is_none(),
            },
    {
        let sub = match quote(self.sub.as_str()) {
            Ok(v) => v,
            Err(_) => return None,
        };
        let iss = match quote(self.iss.as_str()) {
            Ok(v) => v,
            Err(_) => return None,
        };
        let aud = match quote(self.aud.as_str()) {
            Ok(v) => v,
            Err(_) => return None,
        };
        let roles = match list(&self.roles) {
            Some(v) => v,
            None => return None,
        };
        let channels = match list(&self.channels) {
            Some(v) => v,
            None => return None,
        };
        let exp = number(self.exp as u64);
        let is_linked = flag(self.is_linked);
        let is_subscribed = flag(self.is_subscribed);
        let mut text = "{\"sub\":".to_owned();
        text.append(sub.as_str());
        text.append(",\"iss\":");
        text.append(iss.as_str());
        text.append(",\"aud\":");
        text.append(aud.as_str());
        text.append(",\"exp\":");
        text.append(exp.as_str());
        text.append(",\"roles\":");
        text.append(roles.as_str());
        text.append(",\"releaseChannels\":");
        text.append(channels.as_str());
        text.append(",\"IsPatreonAccountLinked\":");
        text.append(is_linked.as_str());
        text.append(",\"IsPatreonSubscriptionActive\":");
        text.append(is_subscribed.as_str());
        text.append("}");
        Some(text)
    }
}

} // verus!
