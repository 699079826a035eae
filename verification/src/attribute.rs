//! Attributes of a widget node, and the lookups over a node's attribute list.

use crate::value::{Value, ValueView};
use vstd::prelude::*;

verus! {

/// The keys that the translation reads.
#[derive(Clone, Copy, Debug, PartialEq, Eq, Structural)]
pub enum AttribKey {
    Value,
    Label,
    SvgImage,
    ClickEvent,
    InputEvent,
    Data,
}

/// A key with an optional value and any number of callbacks. `C` is the type
/// of a callback; nothing here looks inside one.
#[derive(Debug, PartialEq)]
pub struct Attribute<C> {
    pub name: AttribKey,
    pub value: Option<Value>,
    pub callbacks: Vec<C>,
}

/// The mathematical content of an [`Attribute`].
pub struct AttributeView<C> {
    pub name: AttribKey,
    pub value: Option<ValueView>,
    pub callbacks: Seq<C>,
}

impl<C> View for Attribute<C> {
    type V = AttributeView<C>;

    open spec fn view(&self) -> AttributeView<C> {
        AttributeView {
            name: self.name,
            value: match self.value {
                Some(v) => Some(v@),
                None => None,
            },
            callbacks: self.callbacks@,
        }
    }
}

/// The contents of the attributes of a list, in order.
pub open spec fn attribute_views<C>(attrs: Seq<Attribute<C>>) -> Seq<AttributeView<C>> {
    Seq::new(attrs.len(), |i: int| attrs[i]@)
}

/// The value of the first attribute named `key`, if there is such an
/// attribute and it has a value.
pub open spec fn found_value<C>(key: AttribKey, attrs: Seq<AttributeView<C>>) -> Option<ValueView>
    decreases attrs.len(),
{
    if attrs.len() == 0 {
        None
    } else if attrs[0].name == key {
        attrs[0].value
    } else {
        found_value(key, attrs.drop_first())
    }
}

/// The callbacks of all attributes named `key`, in the order of the list.
pub open spec fn callbacks_of<C>(key: AttribKey, attrs: Seq<AttributeView<C>>) -> Seq<C>
    decreases attrs.len(),
{
    if attrs.len() == 0 {
        Seq::empty()
    } else if attrs.last().name == key {
        callbacks_of(key, attrs.drop_last()) + attrs.last().callbacks
    } else {
        callbacks_of(key, attrs.drop_last())
    }
}

/// The lookup of a value stops at the first attribute named `key`: where
/// that is the attribute at `i`, the result is what that attribute holds,
/// whatever stands behind it.
pub proof fn lemma_found_value_first<C>(key: AttribKey, attrs: Seq<AttributeView<C>>, i: int)
    requires
        0 <= i < attrs.len(),
        attrs[i].name == key,
        forall|j: int| 0 <= j < i ==> (#[trigger] attrs[j]).name != key,
    ensures
        found_value(key, attrs) == attrs[i].value,
    decreases i,
{
    if i > 0 {
        assert(attrs[0].name != key);
        let rest = attrs.drop_first();
        assert forall|j: int| 0 <= j < i - 1 implies (#[trigger] rest[j]).name != key by {
            assert(attrs[j + 1].name != key);
        }
        lemma_found_value_first(key, rest, i - 1);
    }
}

impl<C> Attribute<C> {
    /// An attribute that holds `value` and no callback.
    pub fn with_value(name: AttribKey, value: Value) -> (attribute: Attribute<C>)
        ensures
            attribute@ == (AttributeView::<C> {
                name,
                value: Some(value@),
                callbacks: Seq::empty(),
            }),
    {
        Attribute { name, value: Some(value), callbacks: Vec::new() }
    }

    /// An attribute that holds `callback` and no value.
    pub fn with_callback(name: AttribKey, callback: C) -> (attribute: Attribute<C>)
        ensures
            attribute@ == (AttributeView::<C> {
                name,
                value: None,
                callbacks: seq![callback],
            }),
    {
        let mut callbacks: Vec<C> = Vec::new();
        callbacks.push(callback);
        assert(callbacks@ =~= seq![callback]);
        Attribute { name, value: None, callbacks }
    }

    /// The key of the attribute.
    pub fn name(&self) -> (name: AttribKey)
        ensures
            name == self@.name,
    {
        self.name
    }

    /// The value of the attribute, if it has one.
    pub fn get_value(&self) -> (value: Option<&Value>)
        ensures
            match self@.value {
                Some(v) => value is Some && value->0@ == v,
                None => value is None,
            },
    {
        self.value.as_ref()
    }

    /// The callbacks of the attribute.
    pub fn get_callback(&self) -> (callbacks: &Vec<C>)
        ensures
            callbacks@ == self@.callbacks,
    {
        &self.callbacks
    }
}

/// Finds the value of the first attribute named `key`. The first such
/// attribute decides: where it has no value, the result is `None`.
pub fn find_value<C>(key: AttribKey, attrs: &Vec<Attribute<C>>) -> (found: Option<&Value>)
    ensures
        match found_value(key, attribute_views(attrs@)) {
            Some(v) => found is Some && found->0@ == v,
            None => found is None,
        },
{
    let ghost views = attribute_views(attrs@);
    let mut i: usize = 0;
    assert(views.skip(0) =~= views);
    while i < attrs.len()
        invariant
            i <= attrs.len(),
            views == attribute_views(attrs@),
            found_value(key, views) == found_value(key, views.skip(i as int)),
        decreases attrs.len() - i,
    {
        proof {
            let rest = views.skip(i as int);
            assert(rest[0] == attrs@[i as int]@);
            assert(rest.drop_first() =~= views.skip(i + 1));
        }
        if attrs[i].name == key {
            return attrs[i].value.as_ref();
        }
        i += 1;
    }
    assert(views.skip(i as int).len() == 0);
    None
}

/// Collects the callbacks of all attributes named `key`, in the order of the
/// list.
pub fn callbacks_for<C>(key: AttribKey, attrs: &Vec<Attribute<C>>) -> (found: Vec<&C>)
    ensures
        found@.len() == callbacks_of(key, attribute_views(attrs@)).len(),
        forall|k: int|
            0 <= k < found@.len() ==> *#[trigger] found@[k] == callbacks_of(
                key,
                attribute_views(attrs@),
            )[k],
{
    let ghost views = attribute_views(attrs@);
    let mut found: Vec<&C> = Vec::new();
    let mut i: usize = 0;
    while i < attrs.len()
        invariant
            i <= attrs.len(),
            views == attribute_views(attrs@),
            found@.len() == callbacks_of(key, views.take(i as int)).len(),
            forall|k: int|
                0 <= k < found@.len() ==> *#[trigger] found@[k] == callbacks_of(
                    key,
                    views.take(i as int),
                )[k],
        decreases attrs.len() - i,
    {
        let ghost before = callbacks_of(key, views.take(i as int));
        proof {
            let now = views.take(i + 1);
            assert(now.drop_last() =~= views.take(i as int));
            assert(now.last() == attrs@[i as int]@);
        }
        if attrs[i].name == key {
            let callbacks = &attrs[i].callbacks;
            let mut j: usize = 0;
            while j < callbacks.len()
                invariant
                    j <= callbacks.len(),
                    found@.len() == before.len() + j,
                    forall|k: int| 0 <= k < before.len() ==> *#[trigger] found@[k] == before[k],
                    forall|k: int|
                        0 <= k < j ==> *#[trigger] found@[before.len() + k] == callbacks@[k],
                decreases callbacks.len() - j,
            {
                found.push(&callbacks[j]);
                j += 1;
            }
        }
        proof {
            let now = callbacks_of(key, views.take(i + 1));
            assert(now.len() == found@.len());
            assert forall|k: int| 0 <= k < found@.len() implies *#[trigger] found@[k] == now[k] by {
                if k >= before.len() {
                    assert(*found@[before.len() + (k - before.len())] == attrs@[i as int].callbacks@[k
                        - before.len()]);
                }
            }
        }
        i += 1;
    }
    assert(views.take(i as int) =~= views);
    found
}

/// Takes the callbacks of all attributes named `key` out of the list, in the
/// order of the list.
pub fn take_callbacks<C>(key: AttribKey, attrs: Vec<Attribute<C>>) -> (taken: Vec<C>)
    ensures
        taken@ == callbacks_of(key, attribute_views(attrs@)),
{
    let ghost views = attribute_views(attrs@);
    let mut taken: Vec<C> = Vec::new();
    for attribute in it: attrs
        invariant
            it.seq() == attrs@,
            views == attribute_views(attrs@),
            taken@ == callbacks_of(key, views.take(it.index() as int)),
    {
        proof {
            let now = views.take(it.index() + 1);
            assert(now.drop_last() =~= views.take(it.index() as int));
            assert(now.last() == attribute@);
        }
        if attribute.name == key {
            let mut callbacks = attribute.callbacks;
            taken.append(&mut callbacks);
        }
    }
    assert(views.take(attrs@.len() as int) =~= views);
    taken
}

} // verus!
