//! The abstract widget tree.

use crate::attribute::{attribute_views, AttribKey, Attribute, AttributeView};
use crate::value::{Value, ValueView};
use vstd::prelude::*;
use vstd::string::*;

verus! {

/// The kinds of widgets.
#[derive(Clone, Copy, Debug, PartialEq, Eq, Structural)]
pub enum Widget {
    /// Lays its children out from top to bottom.
    Vbox,
    /// Lays its children out from left to right.
    Hbox,
    /// A vertical box that fills its parent.
    Vpane,
    /// A horizontal box that fills its parent and gives each child half of
    /// its width.
    Hpane,
    /// Stacks its children on top of each other.
    Overlay,
    /// Groups its children without any styling.
    GroupBox,
    Label,
    Button,
    Paragraph,
    /// A single-line text input.
    TextInput,
    /// A multi-line text input.
    TextArea,
    Checkbox,
    Radio,
    /// A raster image.
    Image,
    /// A vector image.
    Svg,
}

/// A widget with its attributes and children.
#[derive(Debug, PartialEq)]
pub struct Element<C> {
    pub tag: Widget,
    pub attrs: Vec<Attribute<C>>,
    pub children: Vec<Node<C>>,
}

/// A node of the widget tree: a widget or a text leaf.
#[derive(Debug, PartialEq)]
pub enum Node<C> {
    Element(Element<C>),
    Text(String),
}

/// The mathematical content of a [`Node`].
pub enum NodeView<C> {
    Element { tag: Widget, attrs: Seq<AttributeView<C>>, children: Seq<NodeView<C>> },
    Text(Seq<char>),
}

/// The content of `node`, with the content of each child in place of the
/// child.
pub open spec fn node_model<C>(node: Node<C>) -> NodeView<C>
    decreases node,
{
    match node {
        Node::Text(text) => NodeView::Text(text@),
        Node::Element(element) => NodeView::Element {
            tag: element.tag,
            attrs: attribute_views(element.attrs@),
            children: Seq::new(
                element.children@.len(),
                |i: int|
                    if 0 <= i < element.children@.len() {
                        node_model(element.children@[i])
                    } else {
                        NodeView::Text(Seq::empty())
                    },
            ),
        },
    }
}

impl<C> View for Node<C> {
    type V = NodeView<C>;

    open spec fn view(&self) -> NodeView<C> {
        node_model(*self)
    }
}

/// The contents of the nodes of a list, in order.
pub open spec fn node_views<C>(nodes: Seq<Node<C>>) -> Seq<NodeView<C>> {
    Seq::new(nodes.len(), |i: int| nodes[i]@)
}

/// The content of an element is made of the contents of its parts.
pub proof fn lemma_element_view<C>(element: Element<C>)
    ensures
        Node::Element(element)@ == (NodeView::Element {
            tag: element.tag,
            attrs: attribute_views(element.attrs@),
            children: node_views(element.children@),
        }),
{
    assert(Node::Element(element)@->children =~= node_views(element.children@));
}

/// The number of nodes of a tree.
pub open spec fn visit_count<C>(node: NodeView<C>) -> nat
    decreases node,
{
    match node {
        NodeView::Text(_) => 1,
        NodeView::Element { children, .. } => 1 + visit_count_all(children),
    }
}

/// The number of nodes of the trees of a list.
pub open spec fn visit_count_all<C>(nodes: Seq<NodeView<C>>) -> nat
    decreases nodes,
{
    if nodes.len() == 0 {
        0
    } else {
        visit_count_all(nodes.drop_last()) + visit_count(nodes.last())
    }
}

/// A prefix of a list of trees has no more nodes than the list.
pub proof fn lemma_visit_count_prefix<C>(nodes: Seq<NodeView<C>>, k: int)
    requires
        0 <= k <= nodes.len(),
    ensures
        visit_count_all(nodes.take(k)) <= visit_count_all(nodes),
    decreases nodes.len(),
{
    if k == nodes.len() {
        assert(nodes.take(k) =~= nodes);
    } else {
        lemma_visit_count_prefix(nodes.drop_last(), k);
        assert(nodes.drop_last().take(k) =~= nodes.take(k));
    }
}

/// Builds a widget node.
pub fn widget<C>(kind: Widget, attrs: Vec<Attribute<C>>, children: Vec<Node<C>>) -> (node: Node<
    C,
>)
    ensures
        node@ == (NodeView::Element {
            tag: kind,
            attrs: attribute_views(attrs@),
            children: node_views(children@),
        }),
{
    let element = Element { tag: kind, attrs, children };
    proof {
        lemma_element_view(element);
    }
    Node::Element(element)
}

/// Builds a vertical box.
pub fn column<C>(attrs: Vec<Attribute<C>>, children: Vec<Node<C>>) -> (node: Node<C>)
    ensures
        node@ == (NodeView::Element {
            tag: Widget::Vbox,
            attrs: attribute_views(attrs@),
            children: node_views(children@),
        }),
{
    widget(Widget::Vbox, attrs, children)
}

/// Builds a horizontal box.
pub fn row<C>(attrs: Vec<Attribute<C>>, children: Vec<Node<C>>) -> (node: Node<C>)
    ensures
        node@ == (NodeView::Element {
            tag: Widget::Hbox,
            attrs: attribute_views(attrs@),
            children: node_views(children@),
        }),
{
    widget(Widget::Hbox, attrs, children)
}

/// Builds a button that shows `txt`: its first attribute is the label `txt`,
/// and `attrs` follow.
pub fn button<C>(attrs: Vec<Attribute<C>>, txt: &str) -> (node: Node<C>)
    ensures
        node@ == (NodeView::Element {
            tag: Widget::Button,
            attrs: seq![
                AttributeView::<C> {
                    name: AttribKey::Label,
                    value: Some(ValueView::Text(txt@)),
                    callbacks: Seq::empty(),
                },
            ] + attribute_views(attrs@),
            children: Seq::empty(),
        }),
{
    let ghost given = attrs@;
    let mut attrs = attrs;
    let label = Attribute::with_value(AttribKey::Label, Value::String(String::from_str(txt)));
    let mut all: Vec<Attribute<C>> = Vec::new();
    all.push(label);
    all.append(&mut attrs);
    let node = widget(Widget::Button, all, Vec::new());
    assert(node@->attrs =~= seq![label@] + attribute_views(given));
    assert(node@->children =~= Seq::empty());
    node
}

/// Builds a text leaf.
pub fn text<C>(txt: &str) -> (node: Node<C>)
    ensures
        node@ == NodeView::<C>::Text(txt@),
{
    Node::Text(String::from_str(txt))
}

} // verus!
