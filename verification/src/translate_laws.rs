//! Laws of the translation.

use crate::attribute::{callbacks_of, found_value, AttribKey, AttributeView};
use crate::data_uri::{base64_text, data_uri_text};
use crate::decimal::{decimal_digits, lemma_decimal_digits_injective};
use crate::html::{
    with_attribute, AttrName, HtmlAttributeView, HtmlNodeView, HtmlTag, StyleProperty,
};
use crate::mime::{sniffed_format, svg_mime_text};
use crate::translate::{
    absolute_style, button_image_style, bytes_at, data_bytes, element, element_html,
    half_pane_style, html_of, html_of_all, kind_translatable, plain, synthesized_id, text_of,
    toggle_html, translatable,
};
use crate::value::ValueView;
use crate::widget::{visit_count, visit_count_all, NodeView, Widget};
use vstd::prelude::*;

verus! {

/// Whether two trees have the same shape: a text leaf where the other has a
/// text leaf, a widget where the other has a widget, with as many children,
/// and the children of the same shape one by one. Kinds, attributes and
/// texts may differ.
pub open spec fn same_shape<C>(a: NodeView<C>, b: NodeView<C>) -> bool
    decreases a,
{
    match a {
        NodeView::Text(_) => b is Text,
        NodeView::Element { children, .. } => {
            &&& b is Element
            &&& b->children.len() == children.len()
            &&& forall|i: int|
                0 <= i < children.len() ==> same_shape(#[trigger] children[i], b->children[i])
        },
    }
}

/// The index of the node at `path` in a tree whose root has the index
/// `index`. A path gives, from the root down, the position of each node
/// among the children of its parent. Where the path leaves the tree, the
/// result is the index of the last node that it reached.
pub open spec fn index_at<C>(node: NodeView<C>, path: Seq<int>, index: nat) -> nat
    decreases path.len(),
{
    if path.len() == 0 {
        index
    } else {
        match node {
            NodeView::Element { children, .. } => if 0 <= path[0] < children.len() {
                index_at(
                    children[path[0]],
                    path.drop_first(),
                    index + 1 + visit_count_all(children.take(path[0])),
                )
            } else {
                index
            },
            NodeView::Text(_) => index,
        }
    }
}

/// What a container of kind `parent` makes of the HTML of a child: a
/// horizontal pane and an overlay add their style, the others leave it.
pub open spec fn styled_as_child<C>(parent: Widget, html: HtmlNodeView<C>) -> HtmlNodeView<C> {
    match parent {
        Widget::Hpane => with_attribute(html, half_pane_style()),
        Widget::Overlay => with_attribute(html, absolute_style()),
        _ => html,
    }
}

/// The kinds that keep the HTML of their children.
pub open spec fn is_container(tag: Widget) -> bool {
    tag is Vbox || tag is Hbox || tag is Vpane || tag is Hpane || tag is Overlay || tag is GroupBox
}

/// Lists of trees that agree in shape one by one have the same number of
/// nodes.
pub proof fn lemma_same_shape_count_all<C>(a: Seq<NodeView<C>>, b: Seq<NodeView<C>>)
    requires
        a.len() == b.len(),
        forall|i: int| 0 <= i < a.len() ==> same_shape(#[trigger] a[i], b[i]),
    ensures
        visit_count_all(a) == visit_count_all(b),
    decreases a,
{
    if a.len() > 0 {
        assert(same_shape(a[a.len() - 1], b[a.len() - 1]));
        lemma_same_shape_count(a.last(), b.last());
        assert forall|i: int| 0 <= i < a.drop_last().len() implies same_shape(
            #[trigger] a.drop_last()[i],
            b.drop_last()[i],
        ) by {
            assert(same_shape(a[i], b[i]));
        }
        lemma_same_shape_count_all(a.drop_last(), b.drop_last());
    }
}

/// Trees of the same shape have the same number of nodes.
pub proof fn lemma_same_shape_count<C>(a: NodeView<C>, b: NodeView<C>)
    requires
        same_shape(a, b),
    ensures
        visit_count(a) == visit_count(b),
    decreases a,
{
    match a {
        NodeView::Text(_) => {},
        NodeView::Element { children, .. } => {
            lemma_same_shape_count_all(children, b->children);
        },
    }
}

/// In trees of the same shape, walked from the same index, the nodes at the
/// same position have the same index, whatever the kinds and attributes of
/// the nodes are.
pub proof fn lemma_same_shape_index<C>(a: NodeView<C>, b: NodeView<C>, path: Seq<int>, index: nat)
    requires
        same_shape(a, b),
    ensures
        index_at(a, path, index) == index_at(b, path, index),
    decreases path.len(),
{
    if path.len() > 0 {
        match a {
            NodeView::Text(_) => {},
            NodeView::Element { children, .. } => {
                let k = path[0];
                if 0 <= k < children.len() {
                    let others = b->children;
                    assert forall|i: int| 0 <= i < children.take(k).len() implies same_shape(
                        #[trigger] children.take(k)[i],
                        others.take(k)[i],
                    ) by {
                        assert(same_shape(children[i], others[i]));
                    }
                    lemma_same_shape_count_all(children.take(k), others.take(k));
                    assert(same_shape(children[k], others[k]));
                    lemma_same_shape_index(
                        children[k],
                        others[k],
                        path.drop_first(),
                        index + 1 + visit_count_all(children.take(k)),
                    );
                }
            },
        }
    }
}

/// The HTML of the child at position `k` of a list is the HTML of that child
/// at the index after the nodes of the children before it.
pub proof fn lemma_html_of_all_index<C>(nodes: Seq<NodeView<C>>, index: nat, k: int)
    requires
        0 <= k < nodes.len(),
    ensures
        html_of_all(nodes, index).len() == nodes.len(),
        html_of_all(nodes, index)[k] == html_of(nodes[k], index + visit_count_all(nodes.take(k))),
    decreases nodes.len(),
{
    lemma_html_of_all_len(nodes, index);
    lemma_html_of_all_len(nodes.drop_last(), index);
    if k == nodes.len() - 1 {
        assert(nodes.take(k) =~= nodes.drop_last());
    } else {
        lemma_html_of_all_index(nodes.drop_last(), index, k);
        assert(nodes.drop_last().take(k) =~= nodes.take(k));
    }
}

/// A list of trees has as many HTML nodes as trees.
pub proof fn lemma_html_of_all_len<C>(nodes: Seq<NodeView<C>>, index: nat)
    ensures
        html_of_all(nodes, index).len() == nodes.len(),
    decreases nodes.len(),
{
    if nodes.len() > 0 {
        lemma_html_of_all_len(nodes.drop_last(), index);
    }
}

/// The HTML of a container holds, at the position of each child, the HTML
/// of that child at the index that [`index_at`] gives it, with the style
/// that the container adds.
pub proof fn lemma_child_html<C>(node: NodeView<C>, index: nat, k: int)
    requires
        node is Element,
        is_container(node->tag),
        0 <= k < node->children.len(),
    ensures
        html_of(node, index) is Element,
        html_of(node, index)->children.len() == node->children.len(),
        html_of(node, index)->children[k] == styled_as_child(
            node->tag,
            html_of(node->children[k], index_at(node, seq![k], index)),
        ),
{
    lemma_html_of_all_index(node->children, index + 1, k);
    let child_index = index + 1 + visit_count_all(node->children.take(k));
    assert(seq![k].drop_first() =~= Seq::<int>::empty());
    assert(seq![k][0] == k);
    assert(index_at(node->children[k], seq![k].drop_first(), child_index) == child_index);
    assert(index_at(node, seq![k], index) == child_index);
}

/// The subtree at `path`, where the path stays inside the tree.
pub open spec fn subtree<C>(node: NodeView<C>, path: Seq<int>) -> Option<NodeView<C>>
    decreases path.len(),
{
    if path.len() == 0 {
        Some(node)
    } else {
        match node {
            NodeView::Element { children, .. } => if 0 <= path[0] < children.len() {
                subtree(children[path[0]], path.drop_first())
            } else {
                None
            },
            NodeView::Text(_) => None,
        }
    }
}

/// The node of an HTML tree at `path`, where the path stays inside the tree.
pub open spec fn html_at<C>(html: HtmlNodeView<C>, path: Seq<int>) -> Option<HtmlNodeView<C>>
    decreases path.len(),
{
    if path.len() == 0 {
        Some(html)
    } else {
        match html {
            HtmlNodeView::Element { children, .. } => if 0 <= path[0] < children.len() {
                html_at(children[path[0]], path.drop_first())
            } else {
                None
            },
            HtmlNodeView::Text(_) => None,
        }
    }
}

/// Whether `path` stays inside the tree and every node on it but the last
/// is a container.
pub open spec fn through_containers<C>(node: NodeView<C>, path: Seq<int>) -> bool
    decreases path.len(),
{
    if path.len() == 0 {
        true
    } else {
        match node {
            NodeView::Element { tag, children, .. } => {
                &&& is_container(tag)
                &&& 0 <= path[0] < children.len()
                &&& through_containers(children[path[0]], path.drop_first())
            },
            NodeView::Text(_) => false,
        }
    }
}

/// The kind of the parent of the node at `path`.
pub open spec fn parent_kind<C>(node: NodeView<C>, path: Seq<int>) -> Widget
    decreases path.len(),
{
    match node {
        NodeView::Element { tag, children, .. } => if path.len() <= 1 {
            tag
        } else if 0 <= path[0] < children.len() {
            parent_kind(children[path[0]], path.drop_first())
        } else {
            tag
        },
        NodeView::Text(_) => Widget::GroupBox,
    }
}

/// Below containers the HTML tree has the shape of the widget tree: at the
/// position of a widget stands the HTML of that widget, built with the
/// index that [`index_at`] gives the widget, and with the style that its
/// parent adds.
pub proof fn lemma_descendant_html<C>(node: NodeView<C>, path: Seq<int>, index: nat)
    requires
        path.len() > 0,
        through_containers(node, path),
    ensures
        subtree(node, path) is Some,
        html_at(html_of(node, index), path) == Some(
            styled_as_child(
                parent_kind(node, path),
                html_of(subtree(node, path)->0, index_at(node, path, index)),
            ),
        ),
    decreases path.len(),
{
    let k = path[0];
    let rest = path.drop_first();
    let child = node->children[k];
    let child_index = index + 1 + visit_count_all(node->children.take(k));
    lemma_child_html(node, index, k);
    assert(seq![k].drop_first() =~= Seq::<int>::empty());
    assert(index_at(child, seq![k].drop_first(), child_index) == child_index);
    assert(index_at(node, seq![k], index) == child_index);
    let placed = html_of(node, index)->children[k];
    assert(placed == styled_as_child(node->tag, html_of(child, child_index)));
    if rest.len() == 0 {
        assert(path =~= seq![k]);
        assert(html_at(placed, rest) == Some(placed));
    } else {
        lemma_descendant_html(child, rest, child_index);
        let built = html_of(child, child_index);
        assert(built is Element);
        assert(placed is Element);
        assert(placed->children == built->children);
        assert(html_at(placed, rest) == html_at(built, rest));
    }
}

/// A checkbox and a radio button with the same index have ids with the same
/// number: the id is `checkbox_` or `radio_` and then the digits of the
/// index, and different indices give different ids. The label of each
/// points to the id of its input.
pub proof fn lemma_toggle_ids<C>(
    checkbox_attrs: Seq<AttributeView<C>>,
    checkbox_children: Seq<HtmlNodeView<C>>,
    radio_attrs: Seq<AttributeView<C>>,
    radio_children: Seq<HtmlNodeView<C>>,
    index: nat,
    other: nat,
)
    ensures
        ({
            let checkbox = element_html(Widget::Checkbox, checkbox_attrs, checkbox_children, index);
            let radio = element_html(Widget::Radio, radio_attrs, radio_children, index);
            let checkbox_id = synthesized_id("checkbox_"@, index);
            let radio_id = synthesized_id("radio_"@, index);
            &&& checkbox->children[0]->attrs[1] == plain::<C>(AttrName::Id, checkbox_id)
            &&& checkbox->children[1]->attrs[0] == plain::<C>(AttrName::For, checkbox_id)
            &&& radio->children[0]->attrs[1] == plain::<C>(AttrName::Id, radio_id)
            &&& radio->children[1]->attrs[0] == plain::<C>(AttrName::For, radio_id)
            &&& checkbox_id.skip(9) == decimal_digits(index)
            &&& radio_id.skip(6) == decimal_digits(index)
            &&& other != index ==> synthesized_id("checkbox_"@, other) != checkbox_id
            &&& other != index ==> synthesized_id("radio_"@, other) != radio_id
        }),
{
    reveal_strlit("checkbox_");
    reveal_strlit("radio_");
    let checkbox_id = synthesized_id("checkbox_"@, index);
    let radio_id = synthesized_id("radio_"@, index);
    assert(checkbox_id.skip(9) =~= decimal_digits(index));
    assert(radio_id.skip(6) =~= decimal_digits(index));
    if other != index {
        if synthesized_id("checkbox_"@, other) == checkbox_id {
            assert(synthesized_id("checkbox_"@, other).skip(9) =~= decimal_digits(other));
            lemma_decimal_digits_injective(other, index);
        }
        if synthesized_id("radio_"@, other) == radio_id {
            assert(synthesized_id("radio_"@, other).skip(6) =~= decimal_digits(other));
            lemma_decimal_digits_injective(other, index);
        }
    }
}

/// A button without a value under `SvgImage`, or with a value there that
/// stands for no bytes, has its label as its only child. A button with bytes
/// under `SvgImage` has a second child: an image whose source is
/// `data:image/svg+xml;base64,` and then the base64 text of those bytes.
pub proof fn lemma_button_image<C>(
    attrs: Seq<AttributeView<C>>,
    children: Seq<HtmlNodeView<C>>,
    index: nat,
)
    ensures
        ({
            let button = element_html(Widget::Button, attrs, children, index);
            let label = HtmlNodeView::<C>::Text(text_of(AttribKey::Label, attrs));
            &&& button is Element
            &&& button->tag == HtmlTag::Button
            &&& found_value(AttribKey::SvgImage, attrs) is None ==> bytes_at(
                AttribKey::SvgImage,
                attrs,
            ) is None
            &&& bytes_at(AttribKey::SvgImage, attrs) is None ==> button->children == seq![label]
            &&& bytes_at(AttribKey::SvgImage, attrs) is Some ==> {
                &&& button->children.len() == 2
                &&& button->children[0] == label
                &&& button->children[1] == element(
                    HtmlTag::Img,
                    seq![
                        button_image_style::<C>(),
                        plain(
                            AttrName::Src,
                            "data:image/svg+xml;base64,"@ + base64_text(
                                bytes_at(AttribKey::SvgImage, attrs)->0,
                            ),
                        ),
                    ],
                    Seq::empty(),
                )
            }
        }),
{
    reveal_strlit("data:image/svg+xml;base64,");
    reveal_strlit("data:");
    reveal_strlit("image/svg+xml");
    reveal_strlit(";base64,");
    assert("data:image/svg+xml;base64,"@ =~= "data:"@ + "image/svg+xml"@ + ";base64,"@);
    if bytes_at(AttribKey::SvgImage, attrs) is Some {
        let bytes = bytes_at(AttribKey::SvgImage, attrs)->0;
        let button = element_html(Widget::Button, attrs, children, index);
        assert(data_uri_text(svg_mime_text(), bytes) =~= "data:image/svg+xml;base64,"@
            + base64_text(bytes));
        assert(button->children[1]->attrs =~= seq![
            button_image_style::<C>(),
            plain(AttrName::Src, "data:image/svg+xml;base64,"@ + base64_text(bytes)),
        ]);
    }
}

/// A checkbox is a `div` of an input and a label. The input is checked
/// where the first value under `Value` is `true`, and not checked where
/// there is no value under `Value`.
pub proof fn lemma_checkbox_checked<C>(
    attrs: Seq<AttributeView<C>>,
    children: Seq<HtmlNodeView<C>>,
    index: nat,
)
    ensures
        ({
            let checkbox = element_html(Widget::Checkbox, attrs, children, index);
            let input = checkbox->children[0];
            let checked = plain::<C>(AttrName::Checked, "checked"@);
            &&& checkbox is Element
            &&& checkbox->tag == HtmlTag::Div
            &&& checkbox->children.len() == 2
            &&& input is Element
            &&& input->tag == HtmlTag::Input
            &&& input->attrs[0] == plain::<C>(AttrName::Type, "checkbox"@)
            &&& found_value(AttribKey::Value, attrs) == Some(ValueView::Bool(true))
                ==> input->attrs.len() == 3 && input->attrs[2] == checked
            &&& found_value(AttribKey::Value, attrs) is None ==> input->attrs.len() == 2
            &&& checkbox->children[1] is Element
            &&& checkbox->children[1]->tag == HtmlTag::Label
        }),
{
}

/// A raster image whose bytes start with no recognized signature cannot be
/// translated, and neither can a tree that has such an image as its root or
/// as a child of its root.
pub proof fn lemma_unrecognized_image<C>(
    attrs: Seq<AttributeView<C>>,
    children: Seq<NodeView<C>>,
    parent: NodeView<C>,
    k: int,
)
    requires
        sniffed_format(data_bytes(attrs)) is None,
    ensures
        !kind_translatable(Widget::Image, attrs),
        !translatable(NodeView::Element { tag: Widget::Image, attrs, children }),
        parent is Element && 0 <= k < parent->children.len() && parent->children[k] == (
        NodeView::Element { tag: Widget::Image, attrs, children }) ==> !translatable(parent),
{
}

/// A tree that can be translated has only subtrees that can be translated.
pub proof fn lemma_translatable_child<C>(node: NodeView<C>, k: int)
    requires
        translatable(node),
        node is Element,
        0 <= k < node->children.len(),
    ensures
        translatable(node->children[k]),
{
}

/// The keys that a widget of kind `tag` reads.
pub open spec fn reads(tag: Widget, key: AttribKey) -> bool {
    match tag {
        Widget::Label | Widget::Paragraph | Widget::TextArea => key is Value,
        Widget::Button => key is Label || key is SvgImage || key is ClickEvent,
        Widget::TextInput => key is Value || key is InputEvent,
        Widget::Checkbox | Widget::Radio => key is Label || key is Value,
        Widget::Image | Widget::Svg => key is Data,
        _ => false,
    }
}

/// The HTML of a widget of kind `tag` that has none of the attributes that
/// its kind reads: every text is empty, nothing is checked, no callback is
/// bound, and an image has no bytes.
pub open spec fn default_html<C>(
    tag: Widget,
    children: Seq<HtmlNodeView<C>>,
    index: nat,
) -> HtmlNodeView<C> {
    let empty_text = HtmlNodeView::<C>::Text(Seq::empty());
    match tag {
        Widget::Label => element(
            HtmlTag::Label,
            seq![HtmlAttributeView::Styles(seq![(StyleProperty::UserSelect, "none"@)])],
            seq![empty_text],
        ),
        Widget::Button => element(HtmlTag::Button, Seq::empty(), seq![empty_text]),
        Widget::Paragraph => element(HtmlTag::P, Seq::empty(), seq![empty_text]),
        Widget::TextInput => element(
            HtmlTag::Input,
            seq![plain(AttrName::Type, "text"@), plain(AttrName::Value, Seq::empty())],
            Seq::empty(),
        ),
        Widget::TextArea => element(
            HtmlTag::Textarea,
            seq![
                plain(AttrName::Value, Seq::empty()),
                HtmlAttributeView::Styles(seq![(StyleProperty::Height, "100%"@)]),
            ],
            seq![empty_text],
        ),
        Widget::Checkbox => toggle_html(
            "checkbox"@,
            synthesized_id("checkbox_"@, index),
            Seq::empty(),
        ),
        Widget::Radio => toggle_html("radio"@, synthesized_id("radio_"@, index), Seq::empty()),
        Widget::Svg => element(
            HtmlTag::Div,
            Seq::empty(),
            seq![
                element(
                    HtmlTag::Img,
                    seq![plain(AttrName::Src, "data:image/svg+xml;base64,"@)],
                    Seq::empty(),
                ),
            ],
        ),
        _ => element_html(tag, Seq::empty(), children, index),
    }
}

/// A list without an attribute named `key` has no value and no callback
/// under `key`.
pub proof fn lemma_key_absent<C>(key: AttribKey, attrs: Seq<AttributeView<C>>)
    requires
        forall|i: int| 0 <= i < attrs.len() ==> (#[trigger] attrs[i]).name != key,
    ensures
        found_value(key, attrs) is None,
        callbacks_of(key, attrs) == Seq::<C>::empty(),
    decreases attrs.len(),
{
    if attrs.len() > 0 {
        assert(attrs[0].name != key);
        assert(attrs.last().name != key);
        assert forall|i: int| 0 <= i < attrs.drop_first().len() implies (
        #[trigger] attrs.drop_first()[i]).name != key by {
            assert(attrs[i + 1].name != key);
        }
        lemma_key_absent_front(key, attrs);
        assert forall|i: int| 0 <= i < attrs.drop_last().len() implies (
        #[trigger] attrs.drop_last()[i]).name != key by {
            assert(attrs[i].name != key);
        }
        lemma_key_absent(key, attrs.drop_last());
    }
}

/// A list without an attribute named `key` has no value under `key`.
proof fn lemma_key_absent_front<C>(key: AttribKey, attrs: Seq<AttributeView<C>>)
    requires
        forall|i: int| 0 <= i < attrs.len() ==> (#[trigger] attrs[i]).name != key,
    ensures
        found_value(key, attrs) is None,
    decreases attrs.len(),
{
    if attrs.len() > 0 {
        assert(attrs[0].name != key);
        assert forall|i: int| 0 <= i < attrs.drop_first().len() implies (
        #[trigger] attrs.drop_first()[i]).name != key by {
            assert(attrs[i + 1].name != key);
        }
        lemma_key_absent_front(key, attrs.drop_first());
    }
}

/// Every kind but the raster image has an HTML for a widget without any of
/// the attributes that the kind reads: the widget can be translated, its
/// HTML is an element, and that element holds the defaults of the kind. A
/// raster image without bytes cannot be translated.
pub proof fn lemma_defaults<C>(
    tag: Widget,
    attrs: Seq<AttributeView<C>>,
    children: Seq<HtmlNodeView<C>>,
    index: nat,
)
    requires
        forall|i: int| 0 <= i < attrs.len() ==> !reads(tag, (#[trigger] attrs[i]).name),
    ensures
        tag != Widget::Image ==> kind_translatable(tag, attrs),
        tag != Widget::Image ==> element_html(tag, attrs, children, index) is Element,
        tag != Widget::Image ==> element_html(tag, attrs, children, index) == default_html(
            tag,
            children,
            index,
        ),
        tag == Widget::Image ==> !kind_translatable(tag, attrs),
{
    reveal_strlit("data:image/svg+xml;base64,");
    reveal_strlit("data:");
    reveal_strlit("image/svg+xml");
    reveal_strlit(";base64,");
    let none = Seq::<AttributeView<C>>::empty();
    lemma_key_absent(AttribKey::Value, none);
    lemma_key_absent(AttribKey::Label, none);
    match tag {
        Widget::Label | Widget::Paragraph | Widget::TextArea => {
            lemma_key_absent(AttribKey::Value, attrs);
        },
        Widget::Button => {
            lemma_key_absent(AttribKey::Label, attrs);
            lemma_key_absent(AttribKey::SvgImage, attrs);
            lemma_key_absent(AttribKey::ClickEvent, attrs);
            assert(element_html(tag, attrs, children, index)->attrs =~= Seq::empty());
        },
        Widget::TextInput => {
            lemma_key_absent(AttribKey::Value, attrs);
            lemma_key_absent(AttribKey::InputEvent, attrs);
            assert(element_html(tag, attrs, children, index)->attrs =~= seq![
                plain(AttrName::Type, "text"@),
                plain(AttrName::Value, Seq::empty()),
            ]);
        },
        Widget::Checkbox | Widget::Radio => {
            lemma_key_absent(AttribKey::Value, attrs);
            lemma_key_absent(AttribKey::Label, attrs);
        },
        Widget::Image => {
            lemma_key_absent(AttribKey::Data, attrs);
            assert(data_bytes(attrs) =~= Seq::<u8>::empty());
        },
        Widget::Svg => {
            lemma_key_absent(AttribKey::Data, attrs);
            assert(data_bytes(attrs) =~= Seq::<u8>::empty());
            assert(base64_text(data_bytes(attrs)) =~= Seq::<char>::empty());
            assert(data_uri_text(svg_mime_text(), data_bytes(attrs))
                =~= "data:image/svg+xml;base64,"@);
            assert(element_html(tag, attrs, children, index)->children[0]->attrs =~= seq![
                plain(AttrName::Src, "data:image/svg+xml;base64,"@),
            ]);
            assert(element_html(tag, attrs, children, index)->children =~= default_html(
                tag,
                children,
                index,
            )->children);
        },
        _ => {},
    }
}

/// The HTML of a tree and the number of its nodes depend on nothing but the
/// content of the tree and the index of its root: two trees with the same
/// content, walked from the same index, give the same HTML, with the same
/// ids, and leave the same count.
pub proof fn lemma_translation_determined<C>(a: NodeView<C>, b: NodeView<C>, index: nat)
    requires
        a == b,
    ensures
        html_of(a, index) == html_of(b, index),
        visit_count(a) == visit_count(b),
        translatable(a) == translatable(b),
{
}

} // verus!
