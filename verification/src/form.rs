//! The fields of a form as a request body carries them.

use vstd::prelude::*;

verus! {

/// The name/value pairs that a body in `application/x-www-form-urlencoded`
/// syntax holds, in the order in which it holds them.
pub uninterp spec fn form_pairs(body: Seq<u8>) -> Seq<(Seq<char>, Seq<char>)>;

/// The pairs of a list as texts.
pub open spec fn pairs_view(pairs: Seq<(String, String)>) -> Seq<(Seq<char>, Seq<char>)> {
    pairs.map_values(|pair: (String, String)| (pair.0@, pair.1@))
}

/// The value of the field `name`: that of the last pair with this name, as
/// a map filled pair by pair would hold it; `None` without such a pair.
pub open spec fn field_value(pairs: Seq<(Seq<char>, Seq<char>)>, name: Seq<char>) -> Option<
    Seq<char>,
>
    decreases pairs.len(),
{
    if pairs.len() == 0 {
        None
    } else if pairs.last().0 == name {
        Some(pairs.last().1)
    } else {
        field_value(pairs.drop_last(), name)
    }
}

/// The value of a field, with the empty text for a field that was not sent.
pub open spec fn field_or_empty(pairs: Seq<(Seq<char>, Seq<char>)>, name: Seq<char>) -> Seq<
    char,
> {
    match field_value(pairs, name) {
        Some(value) => value,
        None => Seq::<char>::empty(),
    }
}

/// `url::form_urlencoded::parse`, collected: the decoded pairs of the body,
/// in order. What the decoding yields is taken from the parser as it is.
#[verifier::external_body]
pub(crate) fn parse_pairs(body: &[u8]) -> (pairs: Vec<(String, String)>)
    ensures
        pairs_view(pairs@) == form_pairs(body@),
{
    url::form_urlencoded::parse(body).into_owned().collect()
}

/// Looks a field up by name. Where a name occurs more than once, the last
/// occurrence counts.
pub fn field(pairs: &Vec<(String, String)>, name: &str) -> (value: Option<String>)
    ensures
        match value {
            Some(v) => field_value(pairs_view(pairs@), name@) == Some(v@),
            None => field_value(pairs_view(pairs@), name@).is_none(),
        },
{
    let key = name.to_owned();
    let mut i: usize = pairs.len();
    assert(pairs_view(pairs@).take(i as int) == pairs_view(pairs@));
    while i > 0
        invariant
            i <= pairs.len(),
            key@ == name@,
            field_value(pairs_view(pairs@), name@) == field_value(
                pairs_view(pairs@).take(i as int),
                name@,
            ),
        decreases i,
    {
        let ghost prefix = pairs_view(pairs@).take(i as int);
        assert(prefix.last() == (pairs@[i - 1].0@, pairs@[i - 1].1@));
        assert(prefix.drop_last() == pairs_view(pairs@).take(i - 1));
        i = i - 1;
        if pairs[i].0 == key {
            return Some(pairs[i].1.clone());
        }
    }
    assert(pairs_view(pairs@).take(0).len() == 0);
    None
}

/// The value of a field, with the empty text for a field that was not sent.
pub fn field_or_default(pairs: &Vec<(String, String)>, name: &str) -> (value: String)
    ensures
        value@ == field_or_empty(pairs_view(pairs@), name@),
{
    match field(pairs, name) {
        Some(v) => v,
        None => String::new(),
    }
}

} // verus!
