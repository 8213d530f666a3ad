//! JSON documents, read through `serde_json`.
//!
//! A `serde_json::Value` is opaque to the verifier. What the library reads
//! from one is named here by uninterpreted functions, one for each accessor
//! of `serde_json` that it calls, and the decoders' contracts are stated over
//! those names. Nothing is claimed about what a name yields on a given text.
//!
//! A type that can be read from a document implements `FromJson`: `fits` says
//! which documents hold a value of the type, `read_from` which value a
//! document holds, and `decode` reads it.

use vstd::prelude::*;

verus! {

/// `serde_json::Value`: one JSON document. What is inside one is known only through the
/// accessors below.
#[verifier::external_type_specification]
#[verifier::external_body]
pub struct ExValue(serde_json::Value);

/// The document that `text` holds; `None` where `text` is not one JSON value.
pub uninterp spec fn json_document(text: Seq<char>) -> Option<serde_json::Value>;

/// The items of an array; `None` for every other kind of value.
pub uninterp spec fn json_items(v: serde_json::Value) -> Option<Seq<serde_json::Value>>;

/// The characters of a string; `None` for every other kind of value.
pub uninterp spec fn json_text(v: serde_json::Value) -> Option<Seq<char>>;

/// The member of an object under `key`; `None` where `v` is no object or has no such member.
pub uninterp spec fn json_member(v: serde_json::Value, key: Seq<char>) -> Option<
    serde_json::Value,
>;

/// A number that is a non-negative integer below 2^64; `None` for everything else.
pub uninterp spec fn json_unsigned(v: serde_json::Value) -> Option<u64>;

/// A number that is an integer of 64 bits with sign; `None` for everything else.
pub uninterp spec fn json_signed(v: serde_json::Value) -> Option<i64>;

/// A boolean; `None` for every other kind of value.
pub uninterp spec fn json_flag(v: serde_json::Value) -> Option<bool>;

/// Whether the value is `null`.
pub uninterp spec fn json_is_null(v: serde_json::Value) -> bool;

/// Whether the value is an object.
pub uninterp spec fn json_is_object(v: serde_json::Value) -> bool;

/// The IEEE 754 bit pattern of a number read as a double; `None` where `v` is no number.
pub uninterp spec fn json_double_bits(v: serde_json::Value) -> Option<u64>;

/// `serde_json::Value::as_array`: the vector inside `Value::Array`, `None` for the other
/// variants.
pub assume_specification<'a>[ serde_json::Value::as_array ](v: &'a serde_json::Value) -> (r:
    Option<&'a Vec<serde_json::Value>>)
    ensures
        r matches Some(items) ==> json_items(*v) == Some(items@),
        r is None ==> json_items(*v) is None,
;

/// `serde_json::Value::as_str`: the string inside `Value::String`, `None` for the other
/// variants.
pub assume_specification<'a>[ serde_json::Value::as_str ](v: &'a serde_json::Value) -> (r: Option<
    &'a str,
>)
    ensures
        r matches Some(s) ==> json_text(*v) == Some(s@),
        r is None ==> json_text(*v) is None,
;

/// `serde_json::Value::as_u64`: the number where it is stored as a non-negative integer.
pub assume_specification[ serde_json::Value::as_u64 ](v: &serde_json::Value) -> (r: Option<u64>)
    ensures
        r == json_unsigned(*v),
;

/// `serde_json::Value::as_i64`: the number where it is an integer that fits in `i64`.
pub assume_specification[ serde_json::Value::as_i64 ](v: &serde_json::Value) -> (r: Option<i64>)
    ensures
        r == json_signed(*v),
;

/// `serde_json::Value::as_bool`: the boolean inside `Value::Bool`, `None` for the other
/// variants.
pub assume_specification[ serde_json::Value::as_bool ](v: &serde_json::Value) -> (r: Option<bool>)
    ensures
        r == json_flag(*v),
;

/// `serde_json::Value::is_null`: whether the value is `Value::Null`.
pub assume_specification[ serde_json::Value::is_null ](v: &serde_json::Value) -> (r: bool)
    ensures
        r == json_is_null(*v),
;

/// `serde_json::Value::is_object`: whether the value is `Value::Object`.
pub assume_specification[ serde_json::Value::is_object ](v: &serde_json::Value) -> (r: bool)
    ensures
        r == json_is_object(*v),
;

/// `<serde_json::Value as Clone>::clone`: a copy that is the same document.
pub assume_specification[ <serde_json::Value as Clone>::clone ](v: &serde_json::Value) -> (r:
    serde_json::Value)
    ensures
        r == *v,
;

/// `serde_json::from_str::<Value>`: the whole of `text` parsed as one JSON value; parse errors
/// are reported as `None`.
#[verifier::external_body]
pub(crate) fn parse(text: &str) -> (r: Option<serde_json::Value>)
    ensures
        r == json_document(text@),
{
    serde_json::from_str::<serde_json::Value>(text).ok()
}

/// `serde_json::Value::get` with a string key: the member of an object under that key.
#[verifier::external_body]
pub(crate) fn member<'a>(v: &'a serde_json::Value, key: &str) -> (r: Option<&'a serde_json::Value>)
    ensures
        r matches Some(m) ==> json_member(*v, key@) == Some(*m),
        r is None ==> json_member(*v, key@) is None,
{
    v.get(key)
}

/// `serde_json::Value::as_f64`, followed by `to_bits`: a number as a double, handed out as its
/// bit pattern.
#[verifier::external_body]
pub(crate) fn double_bits(v: &serde_json::Value) -> (r: Option<u64>)
    ensures
        r == json_double_bits(*v),
{
    v.as_f64().map(|x| x.to_bits())
}

/// The string member of `v` under `key`.
pub open spec fn text_at(v: serde_json::Value, key: Seq<char>) -> Option<Seq<char>> {
    match json_member(v, key) {
        Some(m) => json_text(m),
        None => None,
    }
}

/// A type whose values are read from JSON documents.
pub trait FromJson: Sized {
    /// The document `v` holds a value of this type.
    spec fn fits(v: serde_json::Value) -> bool;

    /// `self` is the value that the document `v` holds.
    spec fn read_from(self, v: serde_json::Value) -> bool;

    /// Reads the value that `v` holds; `None` where `v` holds none of this type.
    fn decode(v: &serde_json::Value) -> (r: Option<Self>)
        ensures
            r is Some <==> Self::fits(*v),
            r matches Some(value) ==> value.read_from(*v),
    ;
}

/// Any document is a document.
impl FromJson for serde_json::Value {
    open spec fn fits(v: serde_json::Value) -> bool {
        true
    }

    open spec fn read_from(self, v: serde_json::Value) -> bool {
        self == v
    }

    fn decode(v: &serde_json::Value) -> (r: Option<serde_json::Value>) {
        Some(v.clone())
    }
}

/// A string, and nothing that could be turned into one.
impl FromJson for String {
    open spec fn fits(v: serde_json::Value) -> bool {
        json_text(v) is Some
    }

    open spec fn read_from(self, v: serde_json::Value) -> bool {
        json_text(v) == Some(self@)
    }

    fn decode(v: &serde_json::Value) -> (r: Option<String>) {
        match v.as_str() {
            Some(text) => Some(text.to_owned()),
            None => None,
        }
    }
}

/// `true` or `false`.
impl FromJson for bool {
    open spec fn fits(v: serde_json::Value) -> bool {
        json_flag(v) is Some
    }

    open spec fn read_from(self, v: serde_json::Value) -> bool {
        json_flag(v) == Some(self)
    }

    fn decode(v: &serde_json::Value) -> (r: Option<bool>) {
        v.as_bool()
    }
}

/// An integer from 0 to 255.
impl FromJson for u8 {
    open spec fn fits(v: serde_json::Value) -> bool {
        json_unsigned(v) matches Some(n) && n <= u8::MAX
    }

    open spec fn read_from(self, v: serde_json::Value) -> bool {
        json_unsigned(v) == Some(self as u64)
    }

    fn decode(v: &serde_json::Value) -> (r: Option<u8>) {
        match v.as_u64() {
            Some(n) if n <= 255 => Some(n as u8),
            _ => None,
        }
    }
}

/// An integer from 0 to 2^32 - 1.
impl FromJson for u32 {
    open spec fn fits(v: serde_json::Value) -> bool {
        json_unsigned(v) matches Some(n) && n <= u32::MAX
    }

    open spec fn read_from(self, v: serde_json::Value) -> bool {
        json_unsigned(v) == Some(self as u64)
    }

    fn decode(v: &serde_json::Value) -> (r: Option<u32>) {
        match v.as_u64() {
            Some(n) if n <= 0xffff_ffff => Some(n as u32),
            _ => None,
        }
    }
}

/// An integer from -2^31 to 2^31 - 1.
impl FromJson for i32 {
    open spec fn fits(v: serde_json::Value) -> bool {
        json_signed(v) matches Some(n) && i32::MIN <= n <= i32::MAX
    }

    open spec fn read_from(self, v: serde_json::Value) -> bool {
        json_signed(v) == Some(self as i64)
    }

    fn decode(v: &serde_json::Value) -> (r: Option<i32>) {
        match v.as_i64() {
            Some(n) if -0x8000_0000 <= n && n <= 0x7fff_ffff => Some(n as i32),
            _ => None,
        }
    }
}

/// An array `v` all of whose items hold a `T`.
pub open spec fn list_fits<T: FromJson>(v: serde_json::Value) -> bool {
    json_items(v) matches Some(items) && forall|i: int|
        0 <= i < items.len() ==> T::fits(#[trigger] items[i])
}

/// `list` holds, one for one and in the same order, what the items of the array `v` hold.
pub open spec fn list_read_from<T: FromJson>(list: Seq<T>, v: serde_json::Value) -> bool {
    json_items(v) matches Some(items) && items.len() == list.len() && forall|i: int|
        0 <= i < list.len() ==> (#[trigger] list[i]).read_from(items[i])
}

/// An array of values, in the array's order. One item that holds no `T` spoils the array:
/// no item is left out.
impl<T: FromJson> FromJson for Vec<T> {
    open spec fn fits(v: serde_json::Value) -> bool {
        list_fits::<T>(v)
    }

    open spec fn read_from(self, v: serde_json::Value) -> bool {
        list_read_from(self@, v)
    }

    fn decode(v: &serde_json::Value) -> (r: Option<Vec<T>>) {
        let items = v.as_array()?;
        let mut list: Vec<T> = Vec::new();
        let mut i: usize = 0;
        while i < items.len()
            invariant
                json_items(*v) == Some(items@),
                i <= items.len(),
                list.len() == i,
                forall|j: int| 0 <= j < i ==> T::fits(#[trigger] items@[j]),
                forall|j: int| 0 <= j < i ==> (#[trigger] list@[j]).read_from(items@[j]),
            decreases items.len() - i,
        {
            match T::decode(&items[i]) {
                Some(value) => {
                    list.push(value);
                },
                None => {
                    assert(!T::fits(json_items(*v)->0[i as int]));
                    return None;
                },
            }
            i += 1;
        }
        Some(list)
    }
}

/// A value behind a pointer is read like the value.
impl<T: FromJson> FromJson for Box<T> {
    open spec fn fits(v: serde_json::Value) -> bool {
        T::fits(v)
    }

    open spec fn read_from(self, v: serde_json::Value) -> bool {
        (*self).read_from(v)
    }

    fn decode(v: &serde_json::Value) -> (r: Option<Box<T>>) {
        match T::decode(v) {
            Some(value) => Some(Box::new(value)),
            None => None,
        }
    }
}

/// The object `v` has a member `key` that holds a `T`.
pub open spec fn has<T: FromJson>(v: serde_json::Value, key: Seq<char>) -> bool {
    json_member(v, key) matches Some(m) && T::fits(m)
}

/// `value` is what the member `key` of the object `v` holds.
pub open spec fn holds<T: FromJson>(value: T, v: serde_json::Value, key: Seq<char>) -> bool {
    json_member(v, key) matches Some(m) && value.read_from(m)
}

/// The object `v` has no member `key`, or one that is `null`, or one that holds a `T`.
pub open spec fn may_have<T: FromJson>(v: serde_json::Value, key: Seq<char>) -> bool {
    match json_member(v, key) {
        Some(m) => json_is_null(m) || T::fits(m),
        None => true,
    }
}

/// `value` is what the member `key` of the object `v` holds, and `None` where `v` has no such
/// member or the member is `null`.
pub open spec fn may_hold<T: FromJson>(
    value: Option<T>,
    v: serde_json::Value,
    key: Seq<char>,
) -> bool {
    match json_member(v, key) {
        Some(m) => if json_is_null(m) {
            value is None
        } else {
            value matches Some(inner) && inner.read_from(m)
        },
        None => value is None,
    }
}

/// Reads the member `key` of the object `v`.
pub fn field<T: FromJson>(v: &serde_json::Value, key: &str) -> (r: Option<T>)
    ensures
        r is Some <==> has::<T>(*v, key@),
        r matches Some(value) ==> holds(value, *v, key@),
{
    match member(v, key) {
        Some(m) => T::decode(m),
        None => None,
    }
}

/// Reads the member `key` of the object `v` where it may be missing or `null`. The outer
/// `None` is a member that is there and holds no `T`.
pub fn optional_field<T: FromJson>(v: &serde_json::Value, key: &str) -> (r: Option<Option<T>>)
    ensures
        r is Some <==> may_have::<T>(*v, key@),
        r matches Some(value) ==> may_hold(value, *v, key@),
{
    match member(v, key) {
        Some(m) => {
            if m.is_null() {
                Some(None)
            } else {
                match T::decode(m) {
                    Some(value) => Some(Some(value)),
                    None => None,
                }
            }
        },
        None => Some(None),
    }
}

/// The text `text` is a JSON document that holds a `T`.
pub open spec fn text_fits<T: FromJson>(text: Seq<char>) -> bool {
    json_document(text) matches Some(v) && T::fits(v)
}

/// Reads a `T` from a text: `None` where the text is no JSON or its document holds no `T`.
pub fn from_str<T: FromJson>(text: &str) -> (r: Option<T>)
    ensures
        r is Some <==> text_fits::<T>(text@),
        r matches Some(value) ==> value.read_from(json_document(text@)->0),
{
    match parse(text) {
        Some(v) => T::decode(&v),
        None => None,
    }
}

} // verus!
