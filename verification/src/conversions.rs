//! Conversions into [`Value`]: from each scalar, from strings, from tuples
//! of two to five convertible elements, and from arrays of one to twelve
//! elements of one convertible type.

use crate::value::{Value, ValueView};
use vstd::prelude::*;
use vstd::string::*;

verus! {

/// Whether the conversion of `x` into a [`Value`] can give a value with the
/// content `v`.
pub open spec fn converts_to<T: Into<Value>>(x: T, v: ValueView) -> bool {
    exists|r: Value| call_ensures(<T as Into<Value>>::into, (x,), r) && r@ == v
}

/// Whether the conversion of a copy of `x` into a [`Value`] can give a value
/// with the content `v`.
pub open spec fn copy_converts_to<T: Into<Value> + Clone>(x: T, v: ValueView) -> bool {
    exists|c: T| cloned(x, c) && converts_to(c, v)
}

/// Whether `value` is the sequence of the conversions of copies of `items`,
/// in order.
pub open spec fn array_converted<T: Into<Value> + Clone>(items: Seq<T>, value: ValueView) -> bool {
    &&& value is List
    &&& value->List_0.len() == items.len()
    &&& forall|i: int|
        0 <= i < items.len() ==> copy_converts_to(#[trigger] items[i], value->List_0[i])
}

impl From<bool> for Value {
    fn from(f: bool) -> (value: Value) {
        Value::Bool(f)
    }
}

impl vstd::std_specs::convert::FromSpecImpl<bool> for Value {
    open spec fn obeys_from_spec() -> bool {
        true
    }

    open spec fn from_spec(f: bool) -> Value {
        Value::Bool(f)
    }
}

impl From<u8> for Value {
    fn from(f: u8) -> (value: Value) {
        Value::U8(f)
    }
}

impl vstd::std_specs::convert::FromSpecImpl<u8> for Value {
    open spec fn obeys_from_spec() -> bool {
        true
    }

    open spec fn from_spec(f: u8) -> Value {
        Value::U8(f)
    }
}

impl From<u16> for Value {
    fn from(f: u16) -> (value: Value) {
        Value::U16(f)
    }
}

impl vstd::std_specs::convert::FromSpecImpl<u16> for Value {
    open spec fn obeys_from_spec() -> bool {
        true
    }

    open spec fn from_spec(f: u16) -> Value {
        Value::U16(f)
    }
}

impl From<u32> for Value {
    fn from(f: u32) -> (value: Value) {
        Value::U32(f)
    }
}

impl vstd::std_specs::convert::FromSpecImpl<u32> for Value {
    open spec fn obeys_from_spec() -> bool {
        true
    }

    open spec fn from_spec(f: u32) -> Value {
        Value::U32(f)
    }
}

impl From<u64> for Value {
    fn from(f: u64) -> (value: Value) {
        Value::U64(f)
    }
}

impl vstd::std_specs::convert::FromSpecImpl<u64> for Value {
    open spec fn obeys_from_spec() -> bool {
        true
    }

    open spec fn from_spec(f: u64) -> Value {
        Value::U64(f)
    }
}

impl From<u128> for Value {
    fn from(f: u128) -> (value: Value) {
        Value::U128(f)
    }
}

impl vstd::std_specs::convert::FromSpecImpl<u128> for Value {
    open spec fn obeys_from_spec() -> bool {
        true
    }

    open spec fn from_spec(f: u128) -> Value {
        Value::U128(f)
    }
}

impl From<usize> for Value {
    fn from(f: usize) -> (value: Value) {
        Value::Usize(f)
    }
}

impl vstd::std_specs::convert::FromSpecImpl<usize> for Value {
    open spec fn obeys_from_spec() -> bool {
        true
    }

    open spec fn from_spec(f: usize) -> Value {
        Value::Usize(f)
    }
}

impl From<i8> for Value {
    fn from(f: i8) -> (value: Value) {
        Value::I8(f)
    }
}

impl vstd::std_specs::convert::FromSpecImpl<i8> for Value {
    open spec fn obeys_from_spec() -> bool {
        true
    }

    open spec fn from_spec(f: i8) -> Value {
        Value::I8(f)
    }
}

impl From<i16> for Value {
    fn from(f: i16) -> (value: Value) {
        Value::I16(f)
    }
}

impl vstd::std_specs::convert::FromSpecImpl<i16> for Value {
    open spec fn obeys_from_spec() -> bool {
        true
    }

    open spec fn from_spec(f: i16) -> Value {
        Value::I16(f)
    }
}

impl From<i32> for Value {
    fn from(f: i32) -> (value: Value) {
        Value::I32(f)
    }
}

impl vstd::std_specs::convert::FromSpecImpl<i32> for Value {
    open spec fn obeys_from_spec() -> bool {
        true
    }

    open spec fn from_spec(f: i32) -> Value {
        Value::I32(f)
    }
}

impl From<i64> for Value {
    fn from(f: i64) -> (value: Value) {
        Value::I64(f)
    }
}

impl vstd::std_specs::convert::FromSpecImpl<i64> for Value {
    open spec fn obeys_from_spec() -> bool {
        true
    }

    open spec fn from_spec(f: i64) -> Value {
        Value::I64(f)
    }
}

impl From<i128> for Value {
    fn from(f: i128) -> (value: Value) {
        Value::I128(f)
    }
}

impl vstd::std_specs::convert::FromSpecImpl<i128> for Value {
    open spec fn obeys_from_spec() -> bool {
        true
    }

    open spec fn from_spec(f: i128) -> Value {
        Value::I128(f)
    }
}

impl From<isize> for Value {
    fn from(f: isize) -> (value: Value) {
        Value::Isize(f)
    }
}

impl vstd::std_specs::convert::FromSpecImpl<isize> for Value {
    open spec fn obeys_from_spec() -> bool {
        true
    }

    open spec fn from_spec(f: isize) -> Value {
        Value::Isize(f)
    }
}

impl From<String> for Value {
    fn from(f: String) -> (value: Value) {
        Value::String(f)
    }
}

impl vstd::std_specs::convert::FromSpecImpl<String> for Value {
    open spec fn obeys_from_spec() -> bool {
        true
    }

    open spec fn from_spec(f: String) -> Value {
        Value::String(f)
    }
}

impl<'a> From<&'a str> for Value {
    fn from(v: &'a str) -> (value: Value)
        ensures
            value@ == ValueView::Text(v@),
    {
        Value::String(String::from_str(v))
    }
}

impl<'a> vstd::std_specs::convert::FromSpecImpl<&'a str> for Value {
    open spec fn obeys_from_spec() -> bool {
        false
    }

    open spec fn from_spec(v: &'a str) -> Value {
        arbitrary()
    }
}

impl<T: Into<Value>, U: Into<Value>> From<(T, U)> for Value {
    fn from(v: (T, U)) -> (value: Value)
        ensures
            exists|a: ValueView, b: ValueView| {
                &&& converts_to(v.0, a)
                &&& converts_to(v.1, b)
                &&& value@ == ValueView::List(seq![a, b])
            },
    {
        let first: Value = v.0.into();
        let second: Value = v.1.into();
        let mut items: Vec<Value> = Vec::new();
        items.push(first);
        items.push(second);
        let value = Value::Vec(items);
        assert(value@->List_0 =~= seq![first@, second@]);
        assert(converts_to(v.0, first@));
        assert(converts_to(v.1, second@));
        value
    }
}

impl<T: Into<Value>, U: Into<Value>> vstd::std_specs::convert::FromSpecImpl<(T, U)> for Value {
    open spec fn obeys_from_spec() -> bool {
        false
    }

    open spec fn from_spec(v: (T, U)) -> Value {
        arbitrary()
    }
}

impl<T: Into<Value>, U: Into<Value>, V: Into<Value>> From<(T, U, V)> for Value {
    fn from(v: (T, U, V)) -> (value: Value)
        ensures
            exists|a: ValueView, b: ValueView, c: ValueView| {
                &&& converts_to(v.0, a)
                &&& converts_to(v.1, b)
                &&& converts_to(v.2, c)
                &&& value@ == ValueView::List(seq![a, b, c])
            },
    {
        let first: Value = v.0.into();
        let second: Value = v.1.into();
        let third: Value = v.2.into();
        let mut items: Vec<Value> = Vec::new();
        items.push(first);
        items.push(second);
        items.push(third);
        let value = Value::Vec(items);
        assert(value@->List_0 =~= seq![first@, second@, third@]);
        assert(converts_to(v.0, first@));
        assert(converts_to(v.1, second@));
        assert(converts_to(v.2, third@));
        value
    }
}

impl<T: Into<Value>, U: Into<Value>, V: Into<Value>> vstd::std_specs::convert::FromSpecImpl<(T, U, V)> for Value {
    open spec fn obeys_from_spec() -> bool {
        false
    }

    open spec fn from_spec(v: (T, U, V)) -> Value {
        arbitrary()
    }
}

impl<T: Into<Value>, U: Into<Value>, V: Into<Value>, X: Into<Value>> From<(T, U, V, X)> for Value {
    fn from(v: (T, U, V, X)) -> (value: Value)
        ensures
            exists|a: ValueView, b: ValueView, c: ValueView, d: ValueView| {
                &&& converts_to(v.0, a)
                &&& converts_to(v.1, b)
                &&& converts_to(v.2, c)
                &&& converts_to(v.3, d)
                &&& value@ == ValueView::List(seq![a, b, c, d])
            },
    {
        let first: Value = v.0.into();
        let second: Value = v.1.into();
        let third: Value = v.2.into();
        let fourth: Value = v.3.into();
        let mut items: Vec<Value> = Vec::new();
        items.push(first);
        items.push(second);
        items.push(third);
        items.push(fourth);
        let value = Value::Vec(items);
        assert(value@->List_0 =~= seq![first@, second@, third@, fourth@]);
        assert(converts_to(v.0, first@));
        assert(converts_to(v.1, second@));
        assert(converts_to(v.2, third@));
        assert(converts_to(v.3, fourth@));
        value
    }
}

impl<T: Into<Value>, U: Into<Value>, V: Into<Value>, X: Into<Value>> vstd::std_specs::convert::FromSpecImpl<(T, U, V, X)> for Value {
    open spec fn obeys_from_spec() -> bool {
        false
    }

    open spec fn from_spec(v: (T, U, V, X)) -> Value {
        arbitrary()
    }
}

impl<T: Into<Value>, U: Into<Value>, V: Into<Value>, X: Into<Value>, Z: Into<Value>> From<(T, U, V, X, Z)> for Value {
    fn from(v: (T, U, V, X, Z)) -> (value: Value)
        ensures
            exists|a: ValueView, b: ValueView, c: ValueView, d: ValueView, e: ValueView| {
                &&& converts_to(v.0, a)
                &&& converts_to(v.1, b)
                &&& converts_to(v.2, c)
                &&& converts_to(v.3, d)
                &&& converts_to(v.4, e)
                &&& value@ == ValueView::List(seq![a, b, c, d, e])
            },
    {
        let first: Value = v.0.into();
        let second: Value = v.1.into();
        let third: Value = v.2.into();
        let fourth: Value = v.3.into();
        let fifth: Value = v.4.into();
        let mut items: Vec<Value> = Vec::new();
        items.push(first);
        items.push(second);
        items.push(third);
        items.push(fourth);
        items.push(fifth);
        let value = Value::Vec(items);
        assert(value@->List_0 =~= seq![first@, second@, third@, fourth@, fifth@]);
        assert(converts_to(v.0, first@));
        assert(converts_to(v.1, second@));
        assert(converts_to(v.2, third@));
        assert(converts_to(v.3, fourth@));
        assert(converts_to(v.4, fifth@));
        value
    }
}

impl<T: Into<Value>, U: Into<Value>, V: Into<Value>, X: Into<Value>, Z: Into<Value>> vstd::std_specs::convert::FromSpecImpl<(T, U, V, X, Z)> for Value {
    open spec fn obeys_from_spec() -> bool {
        false
    }

    open spec fn from_spec(v: (T, U, V, X, Z)) -> Value {
        arbitrary()
    }
}

/// Converts a copy of each element of `items`, in order.
fn array_values<T: Into<Value> + Clone, const N: usize>(items: [T; N]) -> (value: Value)
    ensures
        array_converted(items@, value@),
{
    let mut values: Vec<Value> = Vec::new();
    let mut i: usize = 0;
    while i < N
        invariant
            i <= N,
            items@.len() == N,
            values@.len() == i,
            forall|k: int| 0 <= k < i ==> copy_converts_to(#[trigger] items@[k], values@[k]@),
        decreases N - i,
    {
        let copy = items[i].clone();
        let converted: Value = copy.into();
        assert(converts_to(copy, converted@));
        assert(copy_converts_to(items@[i as int], converted@));
        values.push(converted);
        i += 1;
    }
    let value = Value::Vec(values);
    assert(value@->List_0.len() == N);
    assert forall|k: int| 0 <= k < N implies copy_converts_to(
        #[trigger] items@[k],
        value@->List_0[k],
    ) by {
        assert(value@->List_0[k] == values@[k]@);
    }
    value
}

impl<T: Into<Value> + Clone> From<[T; 1]> for Value {
    fn from(v: [T; 1]) -> (value: Value)
        ensures
            array_converted(v@, value@),
    {
        array_values(v)
    }
}

impl<T: Into<Value> + Clone> vstd::std_specs::convert::FromSpecImpl<[T; 1]> for Value {
    open spec fn obeys_from_spec() -> bool {
        false
    }

    open spec fn from_spec(v: [T; 1]) -> Value {
        arbitrary()
    }
}

impl<T: Into<Value> + Clone> From<[T; 2]> for Value {
    fn from(v: [T; 2]) -> (value: Value)
        ensures
            array_converted(v@, value@),
    {
        array_values(v)
    }
}

impl<T: Into<Value> + Clone> vstd::std_specs::convert::FromSpecImpl<[T; 2]> for Value {
    open spec fn obeys_from_spec() -> bool {
        false
    }

    open spec fn from_spec(v: [T; 2]) -> Value {
        arbitrary()
    }
}

impl<T: Into<Value> + Clone> From<[T; 3]> for Value {
    fn from(v: [T; 3]) -> (value: Value)
        ensures
            array_converted(v@, value@),
    {
        array_values(v)
    }
}

impl<T: Into<Value> + Clone> vstd::std_specs::convert::FromSpecImpl<[T; 3]> for Value {
    open spec fn obeys_from_spec() -> bool {
        false
    }

    open spec fn from_spec(v: [T; 3]) -> Value {
        arbitrary()
    }
}

impl<T: Into<Value> + Clone> From<[T; 4]> for Value {
    fn from(v: [T; 4]) -> (value: Value)
        ensures
            array_converted(v@, value@),
    {
        array_values(v)
    }
}

impl<T: Into<Value> + Clone> vstd::std_specs::convert::FromSpecImpl<[T; 4]> for Value {
    open spec fn obeys_from_spec() -> bool {
        false
    }

    open spec fn from_spec(v: [T; 4]) -> Value {
        arbitrary()
    }
}

impl<T: Into<Value> + Clone> From<[T; 5]> for Value {
    fn from(v: [T; 5]) -> (value: Value)
        ensures
            array_converted(v@, value@),
    {
        array_values(v)
    }
}

impl<T: Into<Value> + Clone> vstd::std_specs::convert::FromSpecImpl<[T; 5]> for Value {
    open spec fn obeys_from_spec() -> bool {
        false
    }

    open spec fn from_spec(v: [T; 5]) -> Value {
        arbitrary()
    }
}

impl<T: Into<Value> + Clone> From<[T; 6]> for Value {
    fn from(v: [T; 6]) -> (value: Value)
        ensures
            array_converted(v@, value@),
    {
        array_values(v)
    }
}

impl<T: Into<Value> + Clone> vstd::std_specs::convert::FromSpecImpl<[T; 6]> for Value {
    open spec fn obeys_from_spec() -> bool {
        false
    }

    open spec fn from_spec(v: [T; 6]) -> Value {
        arbitrary()
    }
}

impl<T: Into<Value> + Clone> From<[T; 7]> for Value {
    fn from(v: [T; 7]) -> (value: Value)
        ensures
            array_converted(v@, value@),
    {
        array_values(v)
    }
}

impl<T: Into<Value> + Clone> vstd::std_specs::convert::FromSpecImpl<[T; 7]> for Value {
    open spec fn obeys_from_spec() -> bool {
        false
    }

    open spec fn from_spec(v: [T; 7]) -> Value {
        arbitrary()
    }
}

impl<T: Into<Value> + Clone> From<[T; 8]> for Value {
    fn from(v: [T; 8]) -> (value: Value)
        ensures
            array_converted(v@, value@),
    {
        array_values(v)
    }
}

impl<T: Into<Value> + Clone> vstd::std_specs::convert::FromSpecImpl<[T; 8]> for Value {
    open spec fn obeys_from_spec() -> bool {
        false
    }

    open spec fn from_spec(v: [T; 8]) -> Value {
        arbitrary()
    }
}

impl<T: Into<Value> + Clone> From<[T; 9]> for Value {
    fn from(v: [T; 9]) -> (value: Value)
        ensures
            array_converted(v@, value@),
    {
        array_values(v)
    }
}

impl<T: Into<Value> + Clone> vstd::std_specs::convert::FromSpecImpl<[T; 9]> for Value {
    open spec fn obeys_from_spec() -> bool {
        false
    }

    open spec fn from_spec(v: [T; 9]) -> Value {
        arbitrary()
    }
}

impl<T: Into<Value> + Clone> From<[T; 10]> for Value {
    fn from(v: [T; 10]) -> (value: Value)
        ensures
            array_converted(v@, value@),
    {
        array_values(v)
    }
}

impl<T: Into<Value> + Clone> vstd::std_specs::convert::FromSpecImpl<[T; 10]> for Value {
    open spec fn obeys_from_spec() -> bool {
        false
    }

    open spec fn from_spec(v: [T; 10]) -> Value {
        arbitrary()
    }
}

impl<T: Into<Value> + Clone> From<[T; 11]> for Value {
    fn from(v: [T; 11]) -> (value: Value)
        ensures
            array_converted(v@, value@),
    {
        array_values(v)
    }
}

impl<T: Into<Value> + Clone> vstd::std_specs::convert::FromSpecImpl<[T; 11]> for Value {
    open spec fn obeys_from_spec() -> bool {
        false
    }

    open spec fn from_spec(v: [T; 11]) -> Value {
        arbitrary()
    }
}

impl<T: Into<Value> + Clone> From<[T; 12]> for Value {
    fn from(v: [T; 12]) -> (value: Value)
        ensures
            array_converted(v@, value@),
    {
        array_values(v)
    }
}

impl<T: Into<Value> + Clone> vstd::std_specs::convert::FromSpecImpl<[T; 12]> for Value {
    open spec fn obeys_from_spec() -> bool {
        false
    }

    open spec fn from_spec(v: [T; 12]) -> Value {
        arbitrary()
    }
}

} // verus!
