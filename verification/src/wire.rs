//! Values that go by a name on the wire, and how documents carry them.

use vstd::prelude::*;
use serde_json::Value;
use crate::json::{member, models, value_as_str, value_from_array, value_from_str, value_get, value_model, JsonModel};

verus! {

/// A value of a closed set in which each value has a name of its own on the
/// wire.
pub trait WireName: Sized + Copy {
    /// The name of the value on the wire.
    spec fn wire(self) -> Seq<char>;

    /// The value that a wire name stands for.
    spec fn of_wire(name: Seq<char>) -> Option<Self>;

    /// The name of the value on the wire.
    fn wire_name(&self) -> (name: &'static str)
        ensures
            name@ == self.wire(),
    ;

    /// Reads a wire name.
    fn from_wire_name(name: &str) -> (r: Option<Self>)
        ensures
            r == Self::of_wire(name@),
    ;

    /// Every value is read back from its own wire name.
    proof fn lemma_wire_round_trip(self)
        ensures
            Self::of_wire(self.wire()) == Some(self),
    ;
}

/// The value that a document stands for: a string that is a wire name.
pub open spec fn named_of<E: WireName>(doc: JsonModel) -> Option<E> {
    match doc {
        JsonModel::Str(s) => E::of_wire(s),
        _ => None,
    }
}

/// The value under a key of a body.
pub open spec fn named_at<E: WireName>(body: JsonModel, key: Seq<char>) -> Option<E> {
    match member(body, key) {
        Some(doc) => named_of::<E>(doc),
        None => None,
    }
}

/// The document that stands for a value: its wire name as a string.
pub open spec fn named_json<E: WireName>(value: E) -> JsonModel {
    JsonModel::Str(value.wire())
}

/// The document that stands for a list of values.
pub open spec fn named_list_json<E: WireName>(items: Seq<E>) -> JsonModel {
    JsonModel::Array(items.map_values(|x: E| named_json(x)))
}

/// The list of values that a document stands for: nothing where the
/// document is no array or an item is no wire name.
pub open spec fn named_list_of<E: WireName>(doc: JsonModel) -> Option<Seq<E>> {
    match doc {
        JsonModel::Array(items) => if forall|i: int|
            0 <= i < items.len() ==> (#[trigger] named_of::<E>(items[i])).is_some() {
            Some(items.map_values(|item: JsonModel| named_of::<E>(item).unwrap()))
        } else {
            None
        },
        _ => None,
    }
}

/// The list of values under a key of a body.
pub open spec fn named_list_at<E: WireName>(body: JsonModel, key: Seq<char>) -> Option<Seq<E>> {
    match member(body, key) {
        Some(doc) => named_list_of::<E>(doc),
        None => None,
    }
}

/// Reads a document as a value.
pub fn read_named<E: WireName>(v: &Value) -> (r: Option<E>)
    ensures
        r == named_of::<E>(value_model(*v)),
{
    match value_as_str(v) {
        Some(s) => E::from_wire_name(s),
        None => None,
    }
}

/// Reads the member under a key of a body as a value.
pub fn get_named<E: WireName>(body: &Value, key: &str) -> (r: Option<E>)
    ensures
        r == named_at::<E>(value_model(*body), key@),
{
    match value_get(body, key) {
        Some(v) => read_named(v),
        None => None,
    }
}

/// Writes a value as a document.
pub fn named_value<E: WireName>(value: &E) -> (v: Value)
    ensures
        value_model(v) == named_json(*value),
{
    value_from_str(value.wire_name())
}

/// Writes a list of values as a document.
pub fn named_list_value<E: WireName>(items: &Vec<E>) -> (v: Value)
    ensures
        value_model(v) == named_list_json(items@),
{
    let mut out: Vec<Value> = Vec::new();
    let mut i: usize = 0;
    while i < items.len()
        invariant
            i <= items@.len(),
            out@.len() == i,
            forall|k: int| 0 <= k < i ==> value_model(#[trigger] out@[k]) == named_json(items@[k]),
        decreases items@.len() - i,
    {
        out.push(named_value(&items[i]));
        i += 1;
    }
    assert(models(out@) =~= items@.map_values(|x: E| named_json(x)));
    value_from_array(out)
}

/// Every list of values is read back from its own document.
pub proof fn lemma_named_list_round_trip<E: WireName>(items: Seq<E>)
    ensures
        named_list_of::<E>(named_list_json(items)) == Some(items),
{
    let docs = items.map_values(|x: E| named_json(x));
    assert forall|i: int| 0 <= i < docs.len() implies (#[trigger] named_of::<E>(docs[i])) == Some(
        items[i],
    ) by {
        items[i].lemma_wire_round_trip();
    }
    assert(docs.map_values(|item: JsonModel| named_of::<E>(item).unwrap()) =~= items);
}

} // verus!
