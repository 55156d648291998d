//! Reading the members of a command body.
//!
//! The server is not consistent in how it writes a value: a number may come
//! as a number or as a string of digits, a character as a string or as an
//! object with an `identity` member. The readers here accept every form and
//! hand out one.

use vstd::prelude::*;
use serde_json::Value;
use crate::data::{Channel, Character};
use crate::json::{member, models, value_as_array, value_as_bool, value_as_i64, value_as_str, value_as_u64, value_get, value_is_real, value_model, print_value, JsonModel};
use crate::util::fits;
use crate::text::{decimal_string, decimal_text, decimal_value, parse_decimal, push_char, text_eq};
use vstd::string::StringExecFns;

verus! {

/// Whether a result holds the value that was expected of it, by its view.
pub open spec fn holds<T: View>(r: Option<T>, expected: Option<T::V>) -> bool {
    match expected {
        Some(e) => r.is_some() && r.unwrap()@ == e,
        None => r.is_none(),
    }
}

/// The views of a sequence of values.
pub open spec fn views<T: View>(items: Seq<T>) -> Seq<T::V> {
    items.map_values(|x: T| x@)
}

/// Whether a result holds the sequence that was expected of it, by the views
/// of its items.
pub open spec fn holds_all<T: View>(r: Option<Vec<T>>, expected: Option<Seq<T::V>>) -> bool {
    match expected {
        Some(e) => r.is_some() && views(r.unwrap()@) == e,
        None => r.is_none(),
    }
}

/// A number that stands for the first three characters of a tag.
pub open spec fn tag_code(tag: Seq<char>) -> int {
    (tag[0] as int) * 65536 + (tag[1] as int) * 256 + (tag[2] as int)
}

/// A string document's text.
pub open spec fn text_of(doc: JsonModel) -> Option<Seq<char>> {
    match doc {
        JsonModel::Str(s) => Some(s),
        _ => None,
    }
}

/// A name of at most `max` bytes: a string, or an object whose `identity`
/// member is a string.
pub open spec fn name_of(doc: JsonModel, max: nat) -> Option<Seq<char>> {
    let text = match doc {
        JsonModel::Object(_) => match member(doc, "identity"@) {
            Some(inner) => text_of(inner),
            None => None,
        },
        _ => text_of(doc),
    };
    match text {
        Some(s) => if fits(s, max) {
            Some(s)
        } else {
            None
        },
        None => None,
    }
}

/// The name of a character.
pub open spec fn character_of(doc: JsonModel) -> Option<Seq<char>> {
    name_of(doc, 20)
}

/// The name of a channel.
pub open spec fn channel_of(doc: JsonModel) -> Option<Seq<char>> {
    name_of(doc, 26)
}

/// A number from 0 to `max`: an integer, or a string that is its decimal
/// numeral.
pub open spec fn uint_of(doc: JsonModel, max: nat) -> Option<nat> {
    match doc {
        JsonModel::Int(i) => if 0 <= i <= max {
            Some(i as nat)
        } else {
            None
        },
        JsonModel::Str(s) => match decimal_value(s) {
            Some(v) => if v <= max {
                Some(v)
            } else {
                None
            },
            None => None,
        },
        _ => None,
    }
}

/// A number that fits in 64 bits without sign.
pub open spec fn u64_of(doc: JsonModel) -> Option<u64> {
    match uint_of(doc, u64::MAX as nat) {
        Some(v) => Some(v as u64),
        None => None,
    }
}

/// A number that fits in 32 bits without sign.
pub open spec fn u32_of(doc: JsonModel) -> Option<u32> {
    match uint_of(doc, u32::MAX as nat) {
        Some(v) => Some(v as u32),
        None => None,
    }
}

/// A number that fits in 32 bits with sign: an integer, or a string that is
/// the decimal numeral of one that is not negative.
pub open spec fn i32_of(doc: JsonModel) -> Option<i32> {
    match doc {
        JsonModel::Int(i) => if i32::MIN <= i <= i32::MAX {
            Some(i as i32)
        } else {
            None
        },
        JsonModel::Str(_) => match uint_of(doc, i32::MAX as nat) {
            Some(v) => Some(v as i32),
            None => None,
        },
        _ => None,
    }
}

/// A truth value: a boolean, or one of the strings `true` and `false`.
pub open spec fn bool_of(doc: JsonModel) -> Option<bool> {
    match doc {
        JsonModel::Bool(b) => Some(b),
        JsonModel::Str(s) => if s == "true"@ {
            Some(true)
        } else if s == "false"@ {
            Some(false)
        } else {
            None
        },
        _ => None,
    }
}

/// The decimal numeral of an integer, with `-` before a negative one.
pub open spec fn int_text(i: int) -> Seq<char> {
    if i < 0 {
        seq!['-'] + decimal_text((-i) as nat)
    } else {
        decimal_text(i as nat)
    }
}

/// A number as its decimal text: the text that the parser prints for a
/// number with a fraction or an exponent, the numeral of an integer of at
/// most 64 bits.
pub open spec fn number_text_of(doc: JsonModel) -> Option<Seq<char>> {
    match doc {
        JsonModel::Real(t) => Some(t),
        JsonModel::Int(i) => if i64::MIN <= i <= u64::MAX {
            Some(int_text(i))
        } else {
            None
        },
        _ => None,
    }
}

/// A list of texts.
pub open spec fn texts_of(doc: JsonModel) -> Option<Seq<Seq<char>>> {
    match doc {
        JsonModel::Array(items) => if forall|i: int|
            0 <= i < items.len() ==> (#[trigger] text_of(items[i])).is_some() {
            Some(items.map_values(|item: JsonModel| text_of(item).unwrap()))
        } else {
            None
        },
        _ => None,
    }
}

/// A list of character names.
pub open spec fn characters_of(doc: JsonModel) -> Option<Seq<Seq<char>>> {
    match doc {
        JsonModel::Array(items) => if forall|i: int|
            0 <= i < items.len() ==> (#[trigger] character_of(items[i])).is_some() {
            Some(items.map_values(|item: JsonModel| character_of(item).unwrap()))
        } else {
            None
        },
        _ => None,
    }
}

/// A list of channel names.
pub open spec fn channels_of(doc: JsonModel) -> Option<Seq<Seq<char>>> {
    match doc {
        JsonModel::Array(items) => if forall|i: int|
            0 <= i < items.len() ==> (#[trigger] channel_of(items[i])).is_some() {
            Some(items.map_values(|item: JsonModel| channel_of(item).unwrap()))
        } else {
            None
        },
        _ => None,
    }
}

/// A list of numbers that fit in 32 bits without sign.
pub open spec fn u32s_of(doc: JsonModel) -> Option<Seq<u32>> {
    match doc {
        JsonModel::Array(items) => if forall|i: int|
            0 <= i < items.len() ==> (#[trigger] u32_of(items[i])).is_some() {
            Some(items.map_values(|item: JsonModel| u32_of(item).unwrap()))
        } else {
            None
        },
        _ => None,
    }
}

/// A list of numbers that fit in 32 bits with sign.
pub open spec fn i32s_of(doc: JsonModel) -> Option<Seq<i32>> {
    match doc {
        JsonModel::Array(items) => if forall|i: int|
            0 <= i < items.len() ==> (#[trigger] i32_of(items[i])).is_some() {
            Some(items.map_values(|item: JsonModel| i32_of(item).unwrap()))
        } else {
            None
        },
        _ => None,
    }
}

/// The member under a key, read by [`text_of`].
pub open spec fn text_at(body: JsonModel, key: Seq<char>) -> Option<Seq<char>> {
    match member(body, key) {
        Some(doc) => text_of(doc),
        None => None,
    }
}

/// The member under a key, read by [`character_of`].
pub open spec fn character_at(body: JsonModel, key: Seq<char>) -> Option<Seq<char>> {
    match member(body, key) {
        Some(doc) => character_of(doc),
        None => None,
    }
}

/// The member under a key, read by [`channel_of`].
pub open spec fn channel_at(body: JsonModel, key: Seq<char>) -> Option<Seq<char>> {
    match member(body, key) {
        Some(doc) => channel_of(doc),
        None => None,
    }
}

/// The member under a key, read by [`u64_of`].
pub open spec fn u64_at(body: JsonModel, key: Seq<char>) -> Option<u64> {
    match member(body, key) {
        Some(doc) => u64_of(doc),
        None => None,
    }
}

/// The member under a key, read by [`u32_of`].
pub open spec fn u32_at(body: JsonModel, key: Seq<char>) -> Option<u32> {
    match member(body, key) {
        Some(doc) => u32_of(doc),
        None => None,
    }
}

/// The member under a key, read by [`i32_of`].
pub open spec fn i32_at(body: JsonModel, key: Seq<char>) -> Option<i32> {
    match member(body, key) {
        Some(doc) => i32_of(doc),
        None => None,
    }
}

/// The member under a key, read by [`number_text_of`].
pub open spec fn number_text_at(body: JsonModel, key: Seq<char>) -> Option<Seq<char>> {
    match member(body, key) {
        Some(doc) => number_text_of(doc),
        None => None,
    }
}

/// The member under a key, read by [`texts_of`].
pub open spec fn texts_at(body: JsonModel, key: Seq<char>) -> Option<Seq<Seq<char>>> {
    match member(body, key) {
        Some(doc) => texts_of(doc),
        None => None,
    }
}

/// The member under a key, read by [`characters_of`].
pub open spec fn characters_at(body: JsonModel, key: Seq<char>) -> Option<Seq<Seq<char>>> {
    match member(body, key) {
        Some(doc) => characters_of(doc),
        None => None,
    }
}

/// The member under a key, read by [`channels_of`].
pub open spec fn channels_at(body: JsonModel, key: Seq<char>) -> Option<Seq<Seq<char>>> {
    match member(body, key) {
        Some(doc) => channels_of(doc),
        None => None,
    }
}

/// The member under a key, read by [`u32s_of`].
pub open spec fn u32s_at(body: JsonModel, key: Seq<char>) -> Option<Seq<u32>> {
    match member(body, key) {
        Some(doc) => u32s_of(doc),
        None => None,
    }
}

/// The member under a key, read by [`i32s_of`].
pub open spec fn i32s_at(body: JsonModel, key: Seq<char>) -> Option<Seq<i32>> {
    match member(body, key) {
        Some(doc) => i32s_of(doc),
        None => None,
    }
}


/// The text under a key; the empty text where there is no such member.
pub open spec fn text_or_empty_at(body: JsonModel, key: Seq<char>) -> Option<Seq<char>> {
    match member(body, key) {
        Some(doc) => text_of(doc),
        None => Some(Seq::empty()),
    }
}

/// The character under a key; the empty name where there is no such member.
pub open spec fn character_or_empty_at(body: JsonModel, key: Seq<char>) -> Option<Seq<char>> {
    match member(body, key) {
        Some(doc) => character_of(doc),
        None => Some(Seq::empty()),
    }
}

/// The characters under a key; none where there is no such member.
pub open spec fn characters_or_empty_at(body: JsonModel, key: Seq<char>) -> Option<
    Seq<Seq<char>>,
> {
    match member(body, key) {
        Some(doc) => characters_of(doc),
        None => Some(Seq::empty()),
    }
}

/// Reads a text.
pub fn read_text(v: &Value) -> (r: Option<String>)
    ensures
        holds(r, text_of(value_model(*v))),
{
    match value_as_str(v) {
        Some(s) => Some(s.to_owned()),
        None => None,
    }
}

/// Reads the text of a name: the string itself, or the `identity` member of
/// an object.
fn read_name_text(v: &Value) -> (r: Option<&str>)
    ensures
        holds(
            r,
            match value_model(*v) {
                JsonModel::Object(_) => match member(value_model(*v), "identity"@) {
                    Some(inner) => text_of(inner),
                    None => None,
                },
                _ => text_of(value_model(*v)),
            },
        ),
{
    match value_as_str(v) {
        Some(s) => Some(s),
        None => match value_get(v, "identity") {
            Some(inner) => value_as_str(inner),
            None => None,
        },
    }
}

/// Reads the name of a character.
pub fn read_character(v: &Value) -> (r: Option<Character>)
    ensures
        holds(r, character_of(value_model(*v))),
{
    match read_name_text(v) {
        Some(s) => Character::try_new(s),
        None => None,
    }
}

/// Reads the name of a channel.
pub fn read_channel(v: &Value) -> (r: Option<Channel>)
    ensures
        holds(r, channel_of(value_model(*v))),
{
    match read_name_text(v) {
        Some(s) => Channel::try_new(s),
        None => None,
    }
}

/// Reads a number that fits in 64 bits without sign.
pub fn read_u64(v: &Value) -> (r: Option<u64>)
    ensures
        r == u64_of(value_model(*v)),
{
    match value_as_u64(v) {
        Some(n) => Some(n),
        None => match value_as_str(v) {
            Some(s) => parse_decimal(s),
            None => None,
        },
    }
}

/// Reads a number that fits in 32 bits without sign.
pub fn read_u32(v: &Value) -> (r: Option<u32>)
    ensures
        r == u32_of(value_model(*v)),
{
    match read_u64(v) {
        Some(n) => if n <= u32::MAX as u64 {
            Some(n as u32)
        } else {
            None
        },
        None => None,
    }
}

/// Reads a number that fits in 32 bits with sign.
pub fn read_i32(v: &Value) -> (r: Option<i32>)
    ensures
        r == i32_of(value_model(*v)),
{
    match value_as_i64(v) {
        Some(n) => if -2147483648 <= n && n <= 2147483647 {
            Some(n as i32)
        } else {
            None
        },
        None => match value_as_str(v) {
            Some(s) => match parse_decimal(s) {
                Some(n) => if n <= 2147483647 {
                    Some(n as i32)
                } else {
                    None
                },
                None => None,
            },
            None => None,
        },
    }
}

/// Reads a truth value.
pub fn read_bool(v: &Value) -> (r: Option<bool>)
    ensures
        r == bool_of(value_model(*v)),
{
    match value_as_bool(v) {
        Some(b) => Some(b),
        None => match value_as_str(v) {
            Some(s) => if text_eq(s, "true") {
                Some(true)
            } else if text_eq(s, "false") {
                Some(false)
            } else {
                None
            },
            None => None,
        },
    }
}

/// The numeral of an integer.
pub fn int_string(i: i64) -> (r: String)
    ensures
        r@ == int_text(i as int),
{
    if i < 0 {
        let magnitude: u64 = if i == i64::MIN {
            9223372036854775808u64
        } else {
            (-i) as u64
        };
        let mut out = String::new();
        push_char(&mut out, '-');
        let digits = decimal_string(magnitude);
        out.append(digits.as_str());
        assert(out@ =~= seq!['-'] + digits@);
        out
    } else {
        decimal_string(i as u64)
    }
}

/// Reads a number as its decimal text.
pub fn read_number_text(v: &Value) -> (r: Option<String>)
    ensures
        holds(r, number_text_of(value_model(*v))),
{
    if value_is_real(v) {
        Some(print_value(v))
    } else {
        match value_as_u64(v) {
            Some(n) => Some(decimal_string(n)),
            None => match value_as_i64(v) {
                Some(i) => Some(int_string(i)),
                None => None,
            },
        }
    }
}

/// Reads a list of texts.
pub fn read_texts(v: &Value) -> (r: Option<Vec<String>>)
    ensures
        holds_all(r, texts_of(value_model(*v))),
{
    let items = match value_as_array(v) {
        Some(items) => items,
        None => {
            return None;
        },
    };
    let ghost docs = models(items@);
    let mut out: Vec<String> = Vec::new();
    let mut i: usize = 0;
    while i < items.len()
        invariant
            i <= items@.len(),
            docs == models(items@),
            value_model(*v) == JsonModel::Array(docs),
            out@.len() == i,
            forall|k: int| 0 <= k < i ==> (#[trigger] text_of(docs[k])) == Some(out@[k]@),
        decreases items@.len() - i,
    {
        match read_text(&items[i]) {
            Some(item) => {
                out.push(item);
            },
            None => {
                assert(text_of(docs[i as int]).is_none());
                return None;
            },
        }
        i += 1;
    }
    assert(views(out@) =~= docs.map_values(|item: JsonModel| text_of(item).unwrap()));
    Some(out)
}

/// Reads a list of character names.
pub fn read_characters(v: &Value) -> (r: Option<Vec<Character>>)
    ensures
        holds_all(r, characters_of(value_model(*v))),
{
    let items = match value_as_array(v) {
        Some(items) => items,
        None => {
            return None;
        },
    };
    let ghost docs = models(items@);
    let mut out: Vec<Character> = Vec::new();
    let mut i: usize = 0;
    while i < items.len()
        invariant
            i <= items@.len(),
            docs == models(items@),
            value_model(*v) == JsonModel::Array(docs),
            out@.len() == i,
            forall|k: int| 0 <= k < i ==> (#[trigger] character_of(docs[k])) == Some(out@[k]@),
        decreases items@.len() - i,
    {
        match read_character(&items[i]) {
            Some(item) => {
                out.push(item);
            },
            None => {
                assert(character_of(docs[i as int]).is_none());
                return None;
            },
        }
        i += 1;
    }
    assert(views(out@) =~= docs.map_values(|item: JsonModel| character_of(item).unwrap()));
    Some(out)
}

/// Reads a list of channel names.
pub fn read_channels(v: &Value) -> (r: Option<Vec<Channel>>)
    ensures
        holds_all(r, channels_of(value_model(*v))),
{
    let items = match value_as_array(v) {
        Some(items) => items,
        None => {
            return None;
        },
    };
    let ghost docs = models(items@);
    let mut out: Vec<Channel> = Vec::new();
    let mut i: usize = 0;
    while i < items.len()
        invariant
            i <= items@.len(),
            docs == models(items@),
            value_model(*v) == JsonModel::Array(docs),
            out@.len() == i,
            forall|k: int| 0 <= k < i ==> (#[trigger] channel_of(docs[k])) == Some(out@[k]@),
        decreases items@.len() - i,
    {
        match read_channel(&items[i]) {
            Some(item) => {
                out.push(item);
            },
            None => {
                assert(channel_of(docs[i as int]).is_none());
                return None;
            },
        }
        i += 1;
    }
    assert(views(out@) =~= docs.map_values(|item: JsonModel| channel_of(item).unwrap()));
    Some(out)
}

/// Reads a list of numbers that fit in 32 bits without sign.
pub fn read_u32s(v: &Value) -> (r: Option<Vec<u32>>)
    ensures
        holds_all(r, u32s_of(value_model(*v))),
{
    let items = match value_as_array(v) {
        Some(items) => items,
        None => {
            return None;
        },
    };
    let ghost docs = models(items@);
    let mut out: Vec<u32> = Vec::new();
    let mut i: usize = 0;
    while i < items.len()
        invariant
            i <= items@.len(),
            docs == models(items@),
            value_model(*v) == JsonModel::Array(docs),
            out@.len() == i,
            forall|k: int| 0 <= k < i ==> (#[trigger] u32_of(docs[k])) == Some(out@[k]@),
        decreases items@.len() - i,
    {
        match read_u32(&items[i]) {
            Some(item) => {
                out.push(item);
            },
            None => {
                assert(u32_of(docs[i as int]).is_none());
                return None;
            },
        }
        i += 1;
    }
    assert(views(out@) =~= docs.map_values(|item: JsonModel| u32_of(item).unwrap()));
    Some(out)
}

/// Reads a list of numbers that fit in 32 bits with sign.
pub fn read_i32s(v: &Value) -> (r: Option<Vec<i32>>)
    ensures
        holds_all(r, i32s_of(value_model(*v))),
{
    let items = match value_as_array(v) {
        Some(items) => items,
        None => {
            return None;
        },
    };
    let ghost docs = models(items@);
    let mut out: Vec<i32> = Vec::new();
    let mut i: usize = 0;
    while i < items.len()
        invariant
            i <= items@.len(),
            docs == models(items@),
            value_model(*v) == JsonModel::Array(docs),
            out@.len() == i,
            forall|k: int| 0 <= k < i ==> (#[trigger] i32_of(docs[k])) == Some(out@[k]@),
        decreases items@.len() - i,
    {
        match read_i32(&items[i]) {
            Some(item) => {
                out.push(item);
            },
            None => {
                assert(i32_of(docs[i as int]).is_none());
                return None;
            },
        }
        i += 1;
    }
    assert(views(out@) =~= docs.map_values(|item: JsonModel| i32_of(item).unwrap()));
    Some(out)
}

/// Reads the member under a key with [`read_text`].
pub fn get_text(body: &Value, key: &str) -> (r: Option<String>)
    ensures
        holds(r, text_at(value_model(*body), key@)),
{
    match value_get(body, key) {
        Some(v) => read_text(v),
        None => None,
    }
}

/// Reads the member under a key with [`read_character`].
pub fn get_character(body: &Value, key: &str) -> (r: Option<Character>)
    ensures
        holds(r, character_at(value_model(*body), key@)),
{
    match value_get(body, key) {
        Some(v) => read_character(v),
        None => None,
    }
}

/// Reads the member under a key with [`read_channel`].
pub fn get_channel(body: &Value, key: &str) -> (r: Option<Channel>)
    ensures
        holds(r, channel_at(value_model(*body), key@)),
{
    match value_get(body, key) {
        Some(v) => read_channel(v),
        None => None,
    }
}

/// Reads the member under a key with [`read_u64`].
pub fn get_u64(body: &Value, key: &str) -> (r: Option<u64>)
    ensures
        r == u64_at(value_model(*body), key@),
{
    match value_get(body, key) {
        Some(v) => read_u64(v),
        None => None,
    }
}

/// Reads the member under a key with [`read_u32`].
pub fn get_u32(body: &Value, key: &str) -> (r: Option<u32>)
    ensures
        r == u32_at(value_model(*body), key@),
{
    match value_get(body, key) {
        Some(v) => read_u32(v),
        None => None,
    }
}

/// Reads the member under a key with [`read_i32`].
pub fn get_i32(body: &Value, key: &str) -> (r: Option<i32>)
    ensures
        r == i32_at(value_model(*body), key@),
{
    match value_get(body, key) {
        Some(v) => read_i32(v),
        None => None,
    }
}

/// Reads the member under a key with [`read_number_text`].
pub fn get_number_text(body: &Value, key: &str) -> (r: Option<String>)
    ensures
        holds(r, number_text_at(value_model(*body), key@)),
{
    match value_get(body, key) {
        Some(v) => read_number_text(v),
        None => None,
    }
}

/// Reads the member under a key with [`read_texts`].
pub fn get_texts(body: &Value, key: &str) -> (r: Option<Vec<String>>)
    ensures
        holds_all(r, texts_at(value_model(*body), key@)),
{
    match value_get(body, key) {
        Some(v) => read_texts(v),
        None => None,
    }
}

/// Reads the member under a key with [`read_characters`].
pub fn get_characters(body: &Value, key: &str) -> (r: Option<Vec<Character>>)
    ensures
        holds_all(r, characters_at(value_model(*body), key@)),
{
    match value_get(body, key) {
        Some(v) => read_characters(v),
        None => None,
    }
}

/// Reads the member under a key with [`read_channels`].
pub fn get_channels(body: &Value, key: &str) -> (r: Option<Vec<Channel>>)
    ensures
        holds_all(r, channels_at(value_model(*body), key@)),
{
    match value_get(body, key) {
        Some(v) => read_channels(v),
        None => None,
    }
}

/// Reads the member under a key with [`read_u32s`].
pub fn get_u32s(body: &Value, key: &str) -> (r: Option<Vec<u32>>)
    ensures
        holds_all(r, u32s_at(value_model(*body), key@)),
{
    match value_get(body, key) {
        Some(v) => read_u32s(v),
        None => None,
    }
}

/// Reads the member under a key with [`read_i32s`].
pub fn get_i32s(body: &Value, key: &str) -> (r: Option<Vec<i32>>)
    ensures
        holds_all(r, i32s_at(value_model(*body), key@)),
{
    match value_get(body, key) {
        Some(v) => read_i32s(v),
        None => None,
    }
}


/// Reads the text under a key, or the empty text where there is no such
/// member.
pub fn get_text_or_empty(body: &Value, key: &str) -> (r: Option<String>)
    ensures
        holds(r, text_or_empty_at(value_model(*body), key@)),
{
    match value_get(body, key) {
        Some(v) => read_text(v),
        None => Some(String::new()),
    }
}

/// Reads the character under a key, or the empty name where there is no such
/// member.
pub fn get_character_or_empty(body: &Value, key: &str) -> (r: Option<Character>)
    ensures
        holds(r, character_or_empty_at(value_model(*body), key@)),
{
    match value_get(body, key) {
        Some(v) => read_character(v),
        None => Some(Character::default()),
    }
}

/// Reads the characters under a key, or none where there is no such member.
pub fn get_characters_or_empty(body: &Value, key: &str) -> (r: Option<Vec<Character>>)
    ensures
        holds_all(r, characters_or_empty_at(value_model(*body), key@)),
{
    match value_get(body, key) {
        Some(v) => read_characters(v),
        None => {
            let none: Vec<Character> = Vec::new();
            assert(views(none@) =~= Seq::<Seq<char>>::empty());
            Some(none)
        },
    }
}

} // verus!
