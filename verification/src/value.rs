//! The values that an attribute can hold.

use crate::decimal::{decimal_text, signed_text, unsigned_text};
use vstd::prelude::*;
use vstd::string::*;

verus! {

/// A datum of an attribute: a boolean, a string, an integer of any width, or
/// an ordered sequence of values.
#[derive(Debug, PartialEq)]
pub enum Value {
    Bool(bool),
    String(String),
    Vec(Vec<Value>),
    U8(u8),
    U16(u16),
    U32(u32),
    U64(u64),
    Usize(usize),
    U128(u128),
    I8(i8),
    I16(i16),
    I32(i32),
    I64(i64),
    I128(i128),
    Isize(isize),
}

/// The mathematical content of a [`Value`].
pub enum ValueView {
    Bool(bool),
    Text(Seq<char>),
    List(Seq<ValueView>),
    U8(u8),
    U16(u16),
    U32(u32),
    U64(u64),
    Usize(usize),
    U128(u128),
    I8(i8),
    I16(i16),
    I32(i32),
    I64(i64),
    I128(i128),
    Isize(isize),
}

/// The content of `v`, with the content of each element of a sequence in
/// place of the element.
pub open spec fn value_model(v: Value) -> ValueView
    decreases v,
{
    match v {
        Value::Bool(b) => ValueView::Bool(b),
        Value::String(s) => ValueView::Text(s@),
        Value::Vec(items) => ValueView::List(
            Seq::new(
                items@.len(),
                |i: int|
                    if 0 <= i < items@.len() {
                        value_model(items@[i])
                    } else {
                        ValueView::Bool(false)
                    },
            ),
        ),
        Value::U8(n) => ValueView::U8(n),
        Value::U16(n) => ValueView::U16(n),
        Value::U32(n) => ValueView::U32(n),
        Value::U64(n) => ValueView::U64(n),
        Value::Usize(n) => ValueView::Usize(n),
        Value::U128(n) => ValueView::U128(n),
        Value::I8(n) => ValueView::I8(n),
        Value::I16(n) => ValueView::I16(n),
        Value::I32(n) => ValueView::I32(n),
        Value::I64(n) => ValueView::I64(n),
        Value::I128(n) => ValueView::I128(n),
        Value::Isize(n) => ValueView::Isize(n),
    }
}

impl View for Value {
    type V = ValueView;

    open spec fn view(&self) -> ValueView {
        value_model(*self)
    }
}

/// The text of a value: `true` or `false` for a boolean, the string itself,
/// the decimal text of an integer, and for a sequence the texts of its
/// elements with one space between neighbours.
pub open spec fn rendering(v: ValueView) -> Seq<char>
    decreases v,
{
    match v {
        ValueView::Bool(b) => if b {
            "true"@
        } else {
            "false"@
        },
        ValueView::Text(s) => s,
        ValueView::List(items) => rendering_joined(items),
        ValueView::U8(n) => decimal_text(n as int),
        ValueView::U16(n) => decimal_text(n as int),
        ValueView::U32(n) => decimal_text(n as int),
        ValueView::U64(n) => decimal_text(n as int),
        ValueView::Usize(n) => decimal_text(n as int),
        ValueView::U128(n) => decimal_text(n as int),
        ValueView::I8(n) => decimal_text(n as int),
        ValueView::I16(n) => decimal_text(n as int),
        ValueView::I32(n) => decimal_text(n as int),
        ValueView::I64(n) => decimal_text(n as int),
        ValueView::I128(n) => decimal_text(n as int),
        ValueView::Isize(n) => decimal_text(n as int),
    }
}

/// The texts of `items` in order, with one space between neighbours.
pub open spec fn rendering_joined(items: Seq<ValueView>) -> Seq<char>
    decreases items,
{
    if items.len() == 0 {
        Seq::empty()
    } else if items.len() == 1 {
        rendering(items[0])
    } else {
        rendering_joined(items.drop_last()) + seq![' '] + rendering(items.last())
    }
}

/// The bytes that a value stands for: a sequence whose elements are all
/// `U8` is the sequence of those bytes; no other value stands for bytes.
pub open spec fn bytes_of(v: ValueView) -> Option<Seq<u8>> {
    match v {
        ValueView::List(items) => if forall|i: int| 0 <= i < items.len() ==> items[i] is U8 {
            Some(Seq::new(items.len(), |i: int| items[i]->U8_0))
        } else {
            None
        },
        _ => None,
    }
}

impl Clone for Value {
    fn clone(&self) -> (copy: Value)
        ensures
            copy@ == self@,
    {
        self.duplicate()
    }
}

impl Value {
    /// A value with the same content.
    fn duplicate(&self) -> (copy: Value)
        ensures
            copy@ == self@,
        decreases self,
    {
        match self {
            Value::Bool(b) => Value::Bool(*b),
            Value::String(s) => Value::String(s.clone()),
            Value::Vec(items) => {
                let mut copies: Vec<Value> = Vec::new();
                let mut i: usize = 0;
                while i < items.len()
                    invariant
                        i <= items.len(),
                        *self == Value::Vec(*items),
                        copies@.len() == i,
                        forall|k: int| 0 <= k < i ==> #[trigger] copies@[k]@ == items@[k]@,
                    decreases items.len() - i,
                {
                    proof {
                        assert(decreases_to!(*self => self->Vec_0));
                        assert(decreases_to!(*items => items@));
                        assert(decreases_to!(items@ => items@[i as int]));
                    }
                    let copy = items[i].duplicate();
                    copies.push(copy);
                    i += 1;
                }
                let copy = Value::Vec(copies);
                assert forall|k: int| 0 <= k < copies@.len() implies copy@->List_0[k]
                    == self@->List_0[k] by {
                    assert(copies@[k]@ == items@[k]@);
                }
                assert(copy@->List_0 =~= self@->List_0);
                copy
            },
            Value::U8(n) => Value::U8(*n),
            Value::U16(n) => Value::U16(*n),
            Value::U32(n) => Value::U32(*n),
            Value::U64(n) => Value::U64(*n),
            Value::Usize(n) => Value::Usize(*n),
            Value::U128(n) => Value::U128(*n),
            Value::I8(n) => Value::I8(*n),
            Value::I16(n) => Value::I16(*n),
            Value::I32(n) => Value::I32(*n),
            Value::I64(n) => Value::I64(*n),
            Value::I128(n) => Value::I128(*n),
            Value::Isize(n) => Value::Isize(*n),
        }
    }

    /// The canonical text of the value.
    pub fn render_text(&self) -> (text: String)
        ensures
            text@ == rendering(self@),
        decreases self,
    {
        match self {
            Value::Bool(b) => {
                if *b {
                    String::from_str("true")
                } else {
                    String::from_str("false")
                }
            },
            Value::String(s) => s.clone(),
            Value::Vec(items) => {
                let ghost models = self@->List_0;
                let mut text = String::new();
                let mut i: usize = 0;
                while i < items.len()
                    invariant
                        i <= items.len(),
                        *self == Value::Vec(*items),
                        models == self@->List_0,
                        models.len() == items@.len(),
                        text@ == rendering_joined(models.take(i as int)),
                    decreases items.len() - i,
                {
                    if i > 0 {
                        proof {
                            reveal_strlit(" ");
                        }
                        text.append(" ");
                    }
                    let part = items[i].render_text();
                    text.append(part.as_str());
                    proof {
                        let before = models.take(i as int);
                        let now = models.take(i + 1);
                        assert(now.drop_last() =~= before);
                        assert(now.last() == items@[i as int]@);
                        assert(text@ =~= rendering_joined(now));
                    }
                    i += 1;
                }
                assert(models.take(i as int) =~= models);
                text
            },
            Value::U8(n) => unsigned_text(*n as u128),
            Value::U16(n) => unsigned_text(*n as u128),
            Value::U32(n) => unsigned_text(*n as u128),
            Value::U64(n) => unsigned_text(*n as u128),
            Value::Usize(n) => unsigned_text(*n as u128),
            Value::U128(n) => unsigned_text(*n),
            Value::I8(n) => signed_text(*n as i128),
            Value::I16(n) => signed_text(*n as i128),
            Value::I32(n) => signed_text(*n as i128),
            Value::I64(n) => signed_text(*n as i128),
            Value::I128(n) => signed_text(*n),
            Value::Isize(n) => signed_text(*n as i128),
        }
    }

    /// The string of a `String` value; no other value has one.
    pub fn as_str(&self) -> (text: Option<&str>)
        ensures
            match self@ {
                ValueView::Text(s) => text is Some && text->0@ == s,
                _ => text is None,
            },
    {
        match self {
            Value::String(s) => Some(s.as_str()),
            _ => None,
        }
    }

    /// The boolean of a `Bool` value; no other value has one.
    pub fn as_bool(&self) -> (flag: Option<bool>)
        ensures
            match self@ {
                ValueView::Bool(b) => flag == Some(b),
                _ => flag is None,
            },
    {
        match self {
            Value::Bool(b) => Some(*b),
            _ => None,
        }
    }

    /// The bytes of a sequence of `U8` values; no other value has any.
    pub fn as_bytes(&self) -> (bytes: Option<Vec<u8>>)
        ensures
            match bytes_of(self@) {
                Some(b) => bytes is Some && bytes->0@ == b,
                None => bytes is None,
            },
    {
        match self {
            Value::Vec(items) => {
                let ghost models = self@->List_0;
                let mut bytes: Vec<u8> = Vec::new();
                let mut i: usize = 0;
                while i < items.len()
                    invariant
                        i <= items.len(),
                        models == self@->List_0,
                        models.len() == items@.len(),
                        forall|k: int| 0 <= k < items@.len() ==> models[k] == items@[k]@,
                        bytes@.len() == i,
                        forall|k: int| 0 <= k < i ==> (#[trigger] models[k]) == ValueView::U8(bytes@[k]),
                    decreases items.len() - i,
                {
                    match &items[i] {
                        Value::U8(b) => {
                            bytes.push(*b);
                        },
                        _ => {
                            assert(!(models[i as int] is U8));
                            return None;
                        },
                    }
                    i += 1;
                }
                assert(bytes@ =~= bytes_of(self@)->0);
                Some(bytes)
            },
            _ => None,
        }
    }
}

} // verus!
