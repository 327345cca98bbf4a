//! The key/value dictionary that an overlay is written to, and the plain
//! values that stand for its entries in contracts.

use figment::value::Value;
use std::collections::BTreeMap;
use vstd::prelude::*;

verus! {

/// A dictionary from configuration keys to values.
pub type Dict = BTreeMap<String, Value>;

/// What a configuration value holds.
pub ghost enum Setting {
    /// A boolean switch.
    Flag(bool),
    /// An unsigned number.
    Number(nat),
    /// A piece of text.
    Text(Seq<char>),
}

/// `figment::value::Value`, carried through as an opaque value.
#[verifier::external_type_specification]
#[verifier::external_body]
pub struct ExValue(figment::value::Value);

/// The setting that a value holds.
pub uninterp spec fn value_model(value: Value) -> Setting;

/// The entries of a dictionary: its keys, each with the setting its value holds.
pub uninterp spec fn dict_entries(dict: Dict) -> Map<Seq<char>, Setting>;

/// The entries of a dictionary that holds nothing.
pub open spec fn no_entries() -> Map<Seq<char>, Setting> {
    Map::empty()
}

/// `Value::from` on a `bool`: a boolean value with that content.
#[verifier::external_body]
pub(crate) fn flag_value(flag: bool) -> (value: Value)
    ensures
        value_model(value) == Setting::Flag(flag),
{
    Value::from(flag)
}

/// `Value::from` on a `u64`: a numeric value with that content.
#[verifier::external_body]
pub(crate) fn number_value(number: u64) -> (value: Value)
    ensures
        value_model(value) == Setting::Number(number as nat),
{
    Value::from(number)
}

/// `Value::from` on a `&str`: a string value with a copy of the text.
#[verifier::external_body]
pub(crate) fn text_value(text: &str) -> (value: Value)
    ensures
        value_model(value) == Setting::Text(text@),
{
    Value::from(text)
}

/// `String::from_iter` on characters: the string made of them, in order.
#[verifier::external_body]
pub(crate) fn string_of(chars: &Vec<char>) -> (text: String)
    ensures
        text@ == chars@,
{
    String::from_iter(chars.iter())
}

/// `BTreeMap::new`: a dictionary without entries.
#[verifier::external_body]
pub(crate) fn empty_dict() -> (dict: Dict)
    ensures
        dict_entries(dict) == no_entries(),
{
    BTreeMap::new()
}

/// `BTreeMap::insert`: the key holds the new value afterwards, whether or not
/// it was present before, and every other entry is as it was.
#[verifier::external_body]
pub(crate) fn dict_insert(dict: &mut Dict, key: &str, value: Value)
    ensures
        dict_entries(*final(dict)) == dict_entries(*old(dict)).insert(key@, value_model(value)),
{
    dict.insert(key.to_string(), value);
}

} // verus!
