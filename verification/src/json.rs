//! JSON values as the payload of a token carries them, and JSON text as the
//! services send it.

use vstd::prelude::*;

verus! {

/// `serde_json::Value`: a JSON value, looked into only through the
/// functions below.
#[verifier::external_type_specification]
#[verifier::external_body]
pub struct ExJsonValue(serde_json::Value);

/// `serde_json::Error`: why the serialiser failed. Nothing is read from it.
#[verifier::external_type_specification]
#[verifier::external_body]
pub struct ExJsonError(serde_json::Error);

/// The member of a JSON object under a name; `None` where the value is no
/// object or has no such member.
pub uninterp spec fn json_member(value: serde_json::Value, name: Seq<char>) -> Option<
    serde_json::Value,
>;

/// The text of a JSON string; `None` for every other value.
pub uninterp spec fn json_text(value: serde_json::Value) -> Option<Seq<char>>;

/// The number that a JSON value holds as an unsigned integer of 64 bits;
/// `None` for every other value.
pub uninterp spec fn json_unsigned(value: serde_json::Value) -> Option<u64>;

/// The truth value of a JSON boolean; `None` for every other value.
pub uninterp spec fn json_flag(value: serde_json::Value) -> Option<bool>;

/// The items of a JSON array; `None` for every other value.
pub uninterp spec fn json_items(value: serde_json::Value) -> Option<Seq<serde_json::Value>>;

/// A text as a JSON string, in quotes and escaped; `None` where the
/// serialiser fails.
pub uninterp spec fn json_quoted(text: Seq<char>) -> Option<Seq<char>>;

/// `serde_json::Value::get` with a string index: the member under `name`
/// where the value is an object that has one, else `None`.
#[verifier::external_body]
pub(crate) fn member<'a>(value: &'a serde_json::Value, name: &str) -> (found: Option<
    &'a serde_json::Value,
>)
    ensures
        match found {
            Some(m) => json_member(*value, name@) == Some(*m),
            None => json_member(*value, name@).is_none(),
        },
{
    value.get(name)
}

/// `serde_json::Value::as_str`: the text where the value is a string, else
/// `None`.
#[verifier::external_body]
pub(crate) fn as_text(value: &serde_json::Value) -> (text: Option<String>)
    ensures
        match text {
            Some(t) => json_text(*value) == Some(t@),
            None => json_text(*value).is_none(),
        },
{
    value.as_str().map(|s| s.to_owned())
}

/// `serde_json::Value::as_u64`: the number where the value is an integer
/// that is not negative and fits 64 bits, else `None`.
#[verifier::external_body]
pub(crate) fn as_unsigned(value: &serde_json::Value) -> (number: Option<u64>)
    ensures
        number == json_unsigned(*value),
{
    value.as_u64()
}

/// `serde_json::Value::as_bool`: the truth value where the value is a
/// boolean, else `None`.
#[verifier::external_body]
pub(crate) fn as_flag(value: &serde_json::Value) -> (flag: Option<bool>)
    ensures
        flag == json_flag(*value),
{
    value.as_bool()
}

/// `serde_json::Value::as_array`: the items where the value is an array,
/// else `None`.
#[verifier::external_body]
pub(crate) fn as_items<'a>(value: &'a serde_json::Value) -> (items: Option<
    &'a Vec<serde_json::Value>,
>)
    ensures
        match items {
            Some(list) => json_items(*value) == Some(list@),
            None => json_items(*value).is_none(),
        },
{
    value.as_array()
}

/// `serde_json::to_string` on a text: the text as a JSON string, or the
/// serialiser's error.
#[verifier::external_body]
pub(crate) fn quote(text: &str) -> (quoted: Result<String, serde_json::Error>)
    ensures
        match quoted {
            Ok(q) => json_quoted(text@) == Some(q@),
            Err(_) => json_quoted(text@).is_none(),
        },
{
    serde_json::to_string(text)
}

/// The texts of a list of JSON values where each of them is a string; `None`
/// where one is not.
pub open spec fn texts_of(items: Seq<serde_json::Value>) -> Option<Seq<Seq<char>>>
    decreases items.len(),
{
    if items.len() == 0 {
        Some(Seq::<Seq<char>>::empty())
    } else {
        match (texts_of(items.drop_last()), json_text(items.last())) {
            (Some(head), Some(text)) => Some(head.push(text)),
            _ => None,
        }
    }
}

/// The texts of a list as sequences of characters.
pub open spec fn texts_view(texts: Seq<String>) -> Seq<Seq<char>> {
    texts.map_values(|text: String| text@)
}

/// The texts of a list of JSON values, if each of them is a string.
pub fn texts(items: &Vec<serde_json::Value>) -> (list: Option<Vec<String>>)
    ensures
        match list {
            Some(l) => texts_of(items@) == Some(texts_view(l@)),
            None => texts_of(items@).is_none(),
        },
{
    let mut list: Vec<String> = Vec::new();
    let mut i: usize = 0;
    assert(items@.take(0) == Seq::<serde_json::Value>::empty());
    assert(texts_view(list@) == Seq::<Seq<char>>::empty());
    while i < items.len()
        invariant
            i <= items.len(),
            texts_of(items@.take(i as int)) == Some(texts_view(list@)),
        decreases items.len() - i,
    {
        let ghost next = items@.take(i + 1);
        assert(next.drop_last() == items@.take(i as int));
        assert(next.last() == items@[i as int]);
        match as_text(&items[i]) {
            Some(text) => {
                let ghost before = texts_view(list@);
                list.push(text);
                assert(texts_view(list@) == before.push(text@));
            },
            None => {
                proof {
                    lemma_texts_of_prefix(items@, i + 1);
                }
                return None;
            },
        }
        i = i + 1;
    }
    assert(items@.take(i as int) == items@);
    Some(list)
}

/// A list whose prefix holds a value that is no string holds one itself.
proof fn lemma_texts_of_prefix(items: Seq<serde_json::Value>, n: int)
    requires
        0 <= n <= items.len(),
        texts_of(items.take(n)).is_none(),
    ensures
        texts_of(items).is_none(),
    decreases items.len() - n,
{
    if n < items.len() {
        let next = items.take(n + 1);
        assert(next.drop_last() == items.take(n));
        lemma_texts_of_prefix(items, n + 1);
    } else {
        assert(items.take(n) == items);
    }
}

/// The character of a decimal digit.
pub open spec fn digit_char(digit: nat) -> char {
    if digit == 0 {
        '0'
    } else if digit == 1 {
        '1'
    } else if digit == 2 {
        '2'
    } else if digit == 3 {
        '3'
    } else if digit == 4 {
        '4'
    } else if digit == 5 {
        '5'
    } else if digit == 6 {
        '6'
    } else if digit == 7 {
        '7'
    } else if digit == 8 {
        '8'
    } else {
        '9'
    }
}

/// A number in decimal, without sign and without leading zeros.
pub open spec fn decimal(number: nat) -> Seq<char>
    decreases number,
{
    if number < 10 {
        seq![digit_char(number)]
    } else {
        decimal(number / 10).push(digit_char(number % 10))
    }
}

/// The text of one decimal digit.
fn digit_text(digit: u64) -> (text: &'static str)
    requires
        digit < 10,
    ensures
        text@ == seq![digit_char(digit as nat)],
{
    proof {
        reveal_strlit("0");
        reveal_strlit("1");
        reveal_strlit("2");
        reveal_strlit("3");
        reveal_strlit("4");
        reveal_strlit("5");
        reveal_strlit("6");
        reveal_strlit("7");
        reveal_strlit("8");
        reveal_strlit("9");
    }
    let text = if digit == 0 {
        "0"
    } else if digit == 1 {
        "1"
    } else if digit == 2 {
        "2"
    } else if digit == 3 {
        "3"
    } else if digit == 4 {
        "4"
    } else if digit == 5 {
        "5"
    } else if digit == 6 {
        "6"
    } else if digit == 7 {
        "7"
    } else if digit == 8 {
        "8"
    } else {
        "9"
    };
    assert(text@ =~= seq![digit_char(digit as nat)]);
    text
}

/// Writes a number as JSON does: in decimal.
pub fn number(value: u64) -> (text: String)
    ensures
        text@ == decimal(value as nat),
    decreases value,
{
    if value < 10 {
        digit_text(value).to_owned()
    } else {
        let mut text = number(value / 10);
        text.append(digit_text(value % 10));
        text
    }
}

/// A truth value as JSON writes it.
pub open spec fn flag_text(flag: bool) -> Seq<char> {
    if flag {
        "true"@
    } else {
        "false"@
    }
}

/// Writes a truth value as JSON does.
pub fn flag(value: bool) -> (text: String)
    ensures
        text@ == flag_text(value),
{
    if value {
        "true".to_owned()
    } else {
        "false".to_owned()
    }
}

/// The quoted items of a list, separated by commas; `None` where one of
/// them cannot be written.
pub open spec fn list_items(items: Seq<Seq<char>>) -> Option<Seq<char>>
    decreases items.len(),
{
    if items.len() == 0 {
        Some(Seq::<char>::empty())
    } else {
        match (list_items(items.drop_last()), json_quoted(items.last())) {
            (Some(head), Some(quoted)) => Some(
                if items.len() == 1 {
                    quoted
                } else {
                    head + ","@ + quoted
                },
            ),
            _ => None,
        }
    }
}

/// A list of texts as a JSON array of strings.
pub open spec fn list_text(items: Seq<Seq<char>>) -> Option<Seq<char>> {
    match list_items(items) {
        Some(inner) => Some("["@ + inner + "]"@),
        None => None,
    }
}

/// A list whose prefix cannot be written cannot be written itself.
proof fn lemma_list_items_prefix(items: Seq<Seq<char>>, n: int)
    requires
        0 <= n <= items.len(),
        list_items(items.take(n)).is_none(),
    ensures
        list_items(items).is_none(),
    decreases items.len() - n,
{
    if n < items.len() {
        let next = items.take(n + 1);
        assert(next.drop_last() == items.take(n));
        lemma_list_items_prefix(items, n + 1);
    } else {
        assert(items.take(n) == items);
    }
}

/// Writes a list of texts as a JSON array of strings.
pub fn list(items: &Vec<String>) -> (text: Option<String>)
    ensures
        match text {
            Some(t) => list_text(texts_view(items@)) == Some(t@),
            None => list_text(texts_view(items@)).is_none(),
        },
{
    let mut text = "[".to_owned();
    let mut i: usize = 0;
    let ghost mut inner = Seq::<char>::empty();
    assert(texts_view(items@).take(0) == Seq::<Seq<char>>::empty());
    while i < items.len()
        invariant
            i <= items.len(),
            list_items(texts_view(items@).take(i as int)) == Some(inner),
            text@ == "["@ + inner,
        decreases items.len() - i,
    {
        let ghost next = texts_view(items@).take(i + 1);
        assert(next.drop_last() == texts_view(items@).take(i as int));
        assert(next.last() == items@[i as int]@);
        match quote(items[i].as_str()) {
            Ok(quoted) => {
                if i > 0 {
                    text.append(",");
                    proof {
                        inner = inner + ","@;
                    }
                }
                text.append(quoted.as_str());
                proof {
                    inner = inner + quoted@;
                }
                assert(list_items(next) == Some(inner));
            },
            Err(_) => {
                proof {
                    lemma_list_items_prefix(texts_view(items@), i + 1);
                }
                return None;
            },
        }
        i = i + 1;
    }
    assert(texts_view(items@).take(i as int) == texts_view(items@));
    text.append("]");
    Some(text)
}

} // verus!
