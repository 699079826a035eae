//! The translation of a widget tree into an HTML tree.
//!
//! The walk visits the nodes in pre-order and counts them. The count that a
//! node finds at its visit is its index: the number of nodes visited before
//! it, from the count the walk started with. A checkbox or a radio button
//! takes its element id from its index.

use crate::attribute::{
    attribute_views, callbacks_of, find_value, found_value, take_callbacks, AttribKey, Attribute,
    AttributeView,
};
use crate::data_uri::{data_uri, data_uri_text, encodable_len, is_encodable_len};
use crate::decimal::{decimal_digits, unsigned_text};
use crate::html::{
    declaration_views, html_attribute_views, html_views, style, with_attribute, AttrName, HtmlAttribute,
    HtmlAttributeView, HtmlNode, HtmlNodeView, HtmlTag, NativeEvent, StyleDeclaration,
    StyleProperty,
};
use crate::mime::{image_format, image_mime_type, mime_text, sniffed_format, svg_mime_text};
use crate::value::{bytes_of, rendering, ValueView};
use crate::widget::{
    lemma_element_view, lemma_visit_count_prefix, node_views, visit_count, visit_count_all, Node,
    NodeView, Widget,
};
use vstd::prelude::*;
use vstd::string::*;

verus! {

/// The text of the first value under `key`, or the empty text where there is
/// none.
pub open spec fn text_of<C>(key: AttribKey, attrs: Seq<AttributeView<C>>) -> Seq<char> {
    match found_value(key, attrs) {
        Some(v) => rendering(v),
        None => Seq::empty(),
    }
}

/// Whether the first value under `key` is the boolean `true`.
pub open spec fn flag_of<C>(key: AttribKey, attrs: Seq<AttributeView<C>>) -> bool {
    found_value(key, attrs) == Some(ValueView::Bool(true))
}

/// The bytes of the first value under `key`, where there is one and it
/// stands for bytes.
pub open spec fn bytes_at<C>(key: AttribKey, attrs: Seq<AttributeView<C>>) -> Option<Seq<u8>> {
    match found_value(key, attrs) {
        Some(v) => bytes_of(v),
        None => None,
    }
}

/// The bytes under the key `Data`, or no bytes where there are none.
pub open spec fn data_bytes<C>(attrs: Seq<AttributeView<C>>) -> Seq<u8> {
    match bytes_at(AttribKey::Data, attrs) {
        Some(bytes) => bytes,
        None => Seq::empty(),
    }
}

/// A plain attribute.
pub open spec fn plain<C>(name: AttrName, value: Seq<char>) -> HtmlAttributeView<C> {
    HtmlAttributeView::Plain { name, value }
}

/// An element.
pub open spec fn element<C>(
    tag: HtmlTag,
    attrs: Seq<HtmlAttributeView<C>>,
    children: Seq<HtmlNodeView<C>>,
) -> HtmlNodeView<C> {
    HtmlNodeView::Element { tag, attrs, children }
}

/// The style of a flex container with the main axis `direction`.
pub open spec fn flex_style<C>(direction: Seq<char>) -> HtmlAttributeView<C> {
    HtmlAttributeView::Styles(
        seq![(StyleProperty::Display, "flex"@), (StyleProperty::FlexDirection, direction)],
    )
}

/// The sizing hints of a pane: full width and full height.
pub open spec fn full_size<C>() -> Seq<HtmlAttributeView<C>> {
    seq![plain(AttrName::Width, "100%"@), plain(AttrName::Height, "100%"@)]
}

/// The style of a child of a horizontal pane: half width, full height.
pub open spec fn half_pane_style<C>() -> HtmlAttributeView<C> {
    HtmlAttributeView::Styles(
        seq![(StyleProperty::Width, "50%"@), (StyleProperty::Height, "100%"@)],
    )
}

/// The style of a child of an overlay.
pub open spec fn absolute_style<C>() -> HtmlAttributeView<C> {
    HtmlAttributeView::Styles(seq![(StyleProperty::Position, "absolute"@)])
}

/// The style of an image inside a button.
pub open spec fn button_image_style<C>() -> HtmlAttributeView<C> {
    HtmlAttributeView::Styles(
        seq![
            (StyleProperty::Width, "100%"@),
            (StyleProperty::Height, "auto"@),
            (StyleProperty::MaxWidth, "800px"@),
        ],
    )
}

/// Each node of `nodes` with `attribute` after its own attributes.
pub open spec fn each_with<C>(
    nodes: Seq<HtmlNodeView<C>>,
    attribute: HtmlAttributeView<C>,
) -> Seq<HtmlNodeView<C>> {
    Seq::new(nodes.len(), |i: int| with_attribute(nodes[i], attribute))
}

/// One listener of `event` for each callback, in order.
pub open spec fn listeners<C>(event: NativeEvent, callbacks: Seq<C>) -> Seq<HtmlAttributeView<C>> {
    Seq::new(callbacks.len(), |i: int| HtmlAttributeView::Listener { event, callback: callbacks[i] })
}

/// The element id of the node with the given index: the prefix and the
/// decimal digits of the index.
pub open spec fn synthesized_id(prefix: Seq<char>, index: nat) -> Seq<char> {
    prefix + decimal_digits(index)
}

/// An image element whose source is the `data:` URI of `bytes`.
pub open spec fn image_html<C>(
    styles: Seq<HtmlAttributeView<C>>,
    mime: Seq<char>,
    bytes: Seq<u8>,
) -> HtmlNodeView<C> {
    element(
        HtmlTag::Img,
        styles.push(plain(AttrName::Src, data_uri_text(mime, bytes))),
        Seq::empty(),
    )
}

/// The children of a button: its label, and its image where the attribute
/// `SvgImage` holds bytes.
pub open spec fn button_children<C>(attrs: Seq<AttributeView<C>>) -> Seq<HtmlNodeView<C>> {
    let label = HtmlNodeView::Text(text_of(AttribKey::Label, attrs));
    match bytes_at(AttribKey::SvgImage, attrs) {
        Some(bytes) => seq![
            label,
            image_html(seq![button_image_style()], svg_mime_text(), bytes),
        ],
        None => seq![label],
    }
}

/// A checkbox or radio button with its label: an input of the given type,
/// checked where the value under `Value` is `true`, and a label for it. The
/// input's id and the label's target are both `id`.
pub open spec fn toggle_html<C>(
    input_type: Seq<char>,
    id: Seq<char>,
    attrs: Seq<AttributeView<C>>,
) -> HtmlNodeView<C> {
    let checked = if flag_of(AttribKey::Value, attrs) {
        seq![plain(AttrName::Checked, "checked"@)]
    } else {
        Seq::empty()
    };
    element(
        HtmlTag::Div,
        Seq::empty(),
        seq![
            element(
                HtmlTag::Input,
                seq![plain(AttrName::Type, input_type), plain(AttrName::Id, id)] + checked,
                Seq::empty(),
            ),
            element(
                HtmlTag::Label,
                seq![plain(AttrName::For, id)],
                seq![HtmlNodeView::Text(text_of(AttribKey::Label, attrs))],
            ),
        ],
    )
}

/// The HTML of a widget of kind `tag` with the attributes `attrs`, whose
/// children have the HTML `children` and whose index is `index`.
///
/// A kind reads the first value under each of its keys and takes the empty
/// text, `false` or no bytes where there is none of the right sort. A
/// button binds every callback under `ClickEvent` to the native click
/// event, a single-line text input every callback under `InputEvent` to the
/// native input event. A multi-line text input binds no callback: what
/// stands under `InputEvent` there has no effect.
pub open spec fn element_html<C>(
    tag: Widget,
    attrs: Seq<AttributeView<C>>,
    children: Seq<HtmlNodeView<C>>,
    index: nat,
) -> HtmlNodeView<C> {
    match tag {
        Widget::Vbox => element(HtmlTag::Div, seq![flex_style("column"@)], children),
        Widget::Hbox => element(HtmlTag::Div, seq![flex_style("row"@)], children),
        Widget::Vpane => element(
            HtmlTag::Div,
            seq![flex_style("column"@)] + full_size(),
            children,
        ),
        Widget::Hpane => element(
            HtmlTag::Div,
            seq![flex_style("row"@)] + full_size(),
            each_with(children, half_pane_style()),
        ),
        Widget::Overlay => element(
            HtmlTag::Div,
            seq![plain(AttrName::Class, "overlay"@)],
            each_with(children, absolute_style()),
        ),
        Widget::GroupBox => element(HtmlTag::Div, Seq::empty(), children),
        Widget::Label => element(
            HtmlTag::Label,
            seq![HtmlAttributeView::Styles(seq![(StyleProperty::UserSelect, "none"@)])],
            seq![HtmlNodeView::Text(text_of(AttribKey::Value, attrs))],
        ),
        Widget::Button => element(
            HtmlTag::Button,
            listeners(NativeEvent::Click, callbacks_of(AttribKey::ClickEvent, attrs)),
            button_children(attrs),
        ),
        Widget::Paragraph => element(
            HtmlTag::P,
            Seq::empty(),
            seq![HtmlNodeView::Text(text_of(AttribKey::Value, attrs))],
        ),
        Widget::TextInput => element(
            HtmlTag::Input,
            seq![
                plain(AttrName::Type, "text"@),
                plain(AttrName::Value, text_of(AttribKey::Value, attrs)),
            ] + listeners(NativeEvent::Input, callbacks_of(AttribKey::InputEvent, attrs)),
            Seq::empty(),
        ),
        Widget::TextArea => element(
            HtmlTag::Textarea,
            seq![
                plain(AttrName::Value, text_of(AttribKey::Value, attrs)),
                HtmlAttributeView::Styles(seq![(StyleProperty::Height, "100%"@)]),
            ],
            seq![HtmlNodeView::Text(text_of(AttribKey::Value, attrs))],
        ),
        Widget::Checkbox => toggle_html("checkbox"@, synthesized_id("checkbox_"@, index), attrs),
        Widget::Radio => toggle_html("radio"@, synthesized_id("radio_"@, index), attrs),
        Widget::Image => element(
            HtmlTag::Div,
            Seq::empty(),
            seq![
                image_html(
                    Seq::empty(),
                    mime_text(sniffed_format(data_bytes(attrs)).unwrap()),
                    data_bytes(attrs),
                ),
            ],
        ),
        Widget::Svg => element(
            HtmlTag::Div,
            Seq::empty(),
            seq![image_html(Seq::empty(), svg_mime_text(), data_bytes(attrs))],
        ),
    }
}

/// The HTML of a tree whose root has the index `index`. A text leaf becomes
/// a text. A widget becomes the HTML of its kind; its first child has the
/// index after its own, and each further child the index after the last
/// node of the child before it. The children of a widget that is no
/// container are visited and counted, and their HTML is dropped.
pub open spec fn html_of<C>(node: NodeView<C>, index: nat) -> HtmlNodeView<C>
    decreases node,
{
    match node {
        NodeView::Text(text) => HtmlNodeView::Text(text),
        NodeView::Element { tag, attrs, children } => element_html(
            tag,
            attrs,
            html_of_all(children, index + 1),
            index,
        ),
    }
}

/// The HTML of the trees of a list, of which the first root has the index
/// `index`.
pub open spec fn html_of_all<C>(nodes: Seq<NodeView<C>>, index: nat) -> Seq<HtmlNodeView<C>>
    decreases nodes,
{
    if nodes.len() == 0 {
        Seq::empty()
    } else {
        html_of_all(nodes.drop_last(), index).push(
            html_of(nodes.last(), index + visit_count_all(nodes.drop_last())),
        )
    }
}

/// Whether a widget of kind `tag` with the attributes `attrs` can be
/// translated: the bytes of a raster image start with the signature of a
/// recognized format, and the base64 text of the bytes of any image fits in
/// a string.
pub open spec fn kind_translatable<C>(tag: Widget, attrs: Seq<AttributeView<C>>) -> bool {
    match tag {
        Widget::Image => sniffed_format(data_bytes(attrs)) is Some && encodable_len(
            data_bytes(attrs).len(),
        ),
        Widget::Svg => encodable_len(data_bytes(attrs).len()),
        Widget::Button => match bytes_at(AttribKey::SvgImage, attrs) {
            Some(bytes) => encodable_len(bytes.len()),
            None => true,
        },
        _ => true,
    }
}

/// Whether every widget of a tree can be translated.
pub open spec fn translatable<C>(node: NodeView<C>) -> bool
    decreases node,
{
    match node {
        NodeView::Text(_) => true,
        NodeView::Element { tag, attrs, children } => {
            &&& kind_translatable(tag, attrs)
            &&& forall|i: int| 0 <= i < children.len() ==> translatable(#[trigger] children[i])
        },
    }
}

/// Renders the first value under `key`.
fn text_for<C>(key: AttribKey, attrs: &Vec<Attribute<C>>) -> (text: String)
    ensures
        text@ == text_of(key, attribute_views(attrs@)),
{
    match find_value(key, attrs) {
        Some(v) => v.render_text(),
        None => String::new(),
    }
}

/// Reads the first value under `key` as a flag.
fn flag_for<C>(key: AttribKey, attrs: &Vec<Attribute<C>>) -> (flag: bool)
    ensures
        flag == flag_of(key, attribute_views(attrs@)),
{
    match find_value(key, attrs) {
        Some(v) => match v.as_bool() {
            Some(b) => b,
            None => false,
        },
        None => false,
    }
}

/// Reads the first value under `key` as bytes.
fn bytes_for<C>(key: AttribKey, attrs: &Vec<Attribute<C>>) -> (bytes: Option<Vec<u8>>)
    ensures
        match bytes_at(key, attribute_views(attrs@)) {
            Some(b) => bytes is Some && bytes->0@ == b,
            None => bytes is None,
        },
{
    match find_value(key, attrs) {
        Some(v) => v.as_bytes(),
        None => None,
    }
}

/// Reads the bytes under the key `Data`.
fn data_for<C>(attrs: &Vec<Attribute<C>>) -> (bytes: Vec<u8>)
    ensures
        bytes@ == data_bytes(attribute_views(attrs@)),
{
    match bytes_for(AttribKey::Data, attrs) {
        Some(bytes) => bytes,
        None => Vec::new(),
    }
}

/// Builds a plain attribute with a fixed value.
fn plain_attr<C>(name: AttrName, value: &str) -> (attribute: HtmlAttribute<C>)
    ensures
        attribute@ == plain::<C>(name, value@),
{
    HtmlAttribute::plain(name, String::from_str(value))
}

/// Builds an inline style of one declaration.
fn one_style<C>(property: StyleProperty, value: &str) -> (attribute: HtmlAttribute<C>)
    ensures
        attribute@ == HtmlAttributeView::<C>::Styles(seq![(property, value@)]),
{
    let mut declarations: Vec<StyleDeclaration> = Vec::new();
    declarations.push(style(property, value));
    assert(declaration_views(declarations@) =~= seq![(property, value@)]);
    HtmlAttribute::styles(declarations)
}

/// Builds an inline style of two declarations.
fn two_styles<C>(
    first: StyleProperty,
    first_value: &str,
    second: StyleProperty,
    second_value: &str,
) -> (attribute: HtmlAttribute<C>)
    ensures
        attribute@ == HtmlAttributeView::<C>::Styles(
            seq![(first, first_value@), (second, second_value@)],
        ),
{
    let mut declarations: Vec<StyleDeclaration> = Vec::new();
    declarations.push(style(first, first_value));
    declarations.push(style(second, second_value));
    assert(declaration_views(declarations@) =~= seq![
        (first, first_value@),
        (second, second_value@),
    ]);
    HtmlAttribute::styles(declarations)
}

/// Builds the style of a flex container.
fn flex<C>(direction: &str) -> (attribute: HtmlAttribute<C>)
    ensures
        attribute@ == flex_style::<C>(direction@),
{
    two_styles(StyleProperty::Display, "flex", StyleProperty::FlexDirection, direction)
}

/// The attributes of a flex container, with the sizing hints of a pane
/// where `pane` is set.
fn container_attrs<C>(direction: &str, pane: bool) -> (attrs: Vec<HtmlAttribute<C>>)
    ensures
        html_attribute_views(attrs@) == if pane {
            seq![flex_style::<C>(direction@)] + full_size()
        } else {
            seq![flex_style::<C>(direction@)]
        },
{
    let mut attrs: Vec<HtmlAttribute<C>> = Vec::new();
    attrs.push(flex(direction));
    if pane {
        attrs.push(plain_attr(AttrName::Width, "100%"));
        attrs.push(plain_attr(AttrName::Height, "100%"));
        assert(html_attribute_views(attrs@) =~= seq![flex_style::<C>(direction@)] + full_size());
    } else {
        assert(html_attribute_views(attrs@) =~= seq![flex_style::<C>(direction@)]);
    }
    attrs
}

/// Puts one listener of `event` for each callback after `attributes`.
fn push_listeners<C>(
    attributes: &mut Vec<HtmlAttribute<C>>,
    event: NativeEvent,
    callbacks: Vec<C>,
)
    ensures
        html_attribute_views(final(attributes)@) == html_attribute_views(old(attributes)@)
            + listeners(event, callbacks@),
{
    let ghost before = html_attribute_views(attributes@);
    assert(html_attribute_views(attributes@) =~= before + listeners(event, callbacks@.take(0)));
    for callback in it: callbacks
        invariant
            it.seq() == callbacks@,
            html_attribute_views(attributes@) == before + listeners(
                event,
                callbacks@.take(it.index() as int),
            ),
    {
        let ghost had = html_attribute_views(attributes@);
        attributes.push(HtmlAttribute::listener(event, callback));
        assert(html_attribute_views(attributes@) =~= before + listeners(
            event,
            callbacks@.take(it.index() + 1),
        )) by {
            assert(html_attribute_views(attributes@) =~= had.push(
                HtmlAttributeView::Listener { event, callback },
            ));
        }
    }
    assert(callbacks@.take(callbacks@.len() as int) =~= callbacks@);
}

/// Gives each element of `children` the style of a child of a horizontal
/// pane where `half` is set, and that of a child of an overlay otherwise.
fn style_children<C>(children: Vec<HtmlNode<C>>, half: bool) -> (styled: Vec<HtmlNode<C>>)
    ensures
        html_views(styled@) == each_with(
            html_views(children@),
            if half {
                half_pane_style()
            } else {
                absolute_style()
            },
        ),
{
    let ghost views = html_views(children@);
    let ghost layout: HtmlAttributeView<C> = if half {
        half_pane_style()
    } else {
        absolute_style()
    };
    let mut styled: Vec<HtmlNode<C>> = Vec::new();
    for child in it: children
        invariant
            it.seq() == children@,
            views == html_views(children@),
            layout == if half {
                half_pane_style::<C>()
            } else {
                absolute_style::<C>()
            },
            styled@.len() == it.index(),
            forall|k: int|
                0 <= k < it.index() ==> (#[trigger] styled@[k])@ == with_attribute(views[k], layout),
    {
        let attribute = if half {
            two_styles(StyleProperty::Width, "50%", StyleProperty::Height, "100%")
        } else {
            one_style(StyleProperty::Position, "absolute")
        };
        styled.push(child.add_attribute(attribute));
    }
    assert(html_views(styled@) =~= each_with(views, layout));
    styled
}

/// Builds an image element whose source is the `data:` URI of `bytes`.
fn image<C>(styles: Vec<HtmlAttribute<C>>, mime: &str, bytes: &Vec<u8>) -> (node: HtmlNode<C>)
    requires
        encodable_len(bytes@.len()),
    ensures
        node@ == image_html(html_attribute_views(styles@), mime@, bytes@),
{
    let ghost given = html_attribute_views(styles@);
    let mut attrs = styles;
    attrs.push(HtmlAttribute::plain(AttrName::Src, data_uri(mime, bytes.as_slice())));
    assert(html_attribute_views(attrs@) =~= given.push(
        plain(AttrName::Src, data_uri_text(mime@, bytes@)),
    ));
    let node = HtmlNode::element(HtmlTag::Img, attrs, Vec::new());
    assert(node@->children =~= Seq::empty());
    node
}

/// Builds a checkbox or radio button with its label.
fn toggle<C>(input_type: &str, prefix: &str, index: usize, attrs: &Vec<Attribute<C>>) -> (node:
    HtmlNode<C>)
    ensures
        node@ == toggle_html(
            input_type@,
            synthesized_id(prefix@, index as nat),
            attribute_views(attrs@),
        ),
{
    let label = text_for(AttribKey::Label, attrs);
    let checked = flag_for(AttribKey::Value, attrs);
    let mut id = String::from_str(prefix);
    id.append(unsigned_text(index as u128).as_str());
    let target = id.clone();

    let mut input_attrs: Vec<HtmlAttribute<C>> = Vec::new();
    input_attrs.push(plain_attr(AttrName::Type, input_type));
    input_attrs.push(HtmlAttribute::plain(AttrName::Id, id));
    if checked {
        input_attrs.push(plain_attr(AttrName::Checked, "checked"));
    }
    let input = HtmlNode::element(HtmlTag::Input, input_attrs, Vec::new());

    let mut label_attrs: Vec<HtmlAttribute<C>> = Vec::new();
    label_attrs.push(HtmlAttribute::plain(AttrName::For, target));
    let mut label_children: Vec<HtmlNode<C>> = Vec::new();
    label_children.push(HtmlNode::text(label));
    let label_node = HtmlNode::element(HtmlTag::Label, label_attrs, label_children);

    let mut children: Vec<HtmlNode<C>> = Vec::new();
    children.push(input);
    children.push(label_node);
    let node = HtmlNode::element(HtmlTag::Div, Vec::new(), children);
    proof {
        let expected = toggle_html::<C>(
            input_type@,
            synthesized_id(prefix@, index as nat),
            attribute_views(attrs@),
        );
        assert(input@->attrs =~= expected->children[0]->attrs);
        assert(input@->children =~= expected->children[0]->children);
        assert(label_node@->attrs =~= expected->children[1]->attrs);
        assert(label_node@->children =~= expected->children[1]->children);
        assert(node@->attrs =~= expected->attrs);
        assert(node@->children =~= expected->children);
    }
    node
}

/// Builds an element with one text child.
fn with_text<C>(tag: HtmlTag, attrs: Vec<HtmlAttribute<C>>, text: String) -> (node: HtmlNode<C>)
    ensures
        node@ == element(tag, html_attribute_views(attrs@), seq![HtmlNodeView::Text(text@)]),
{
    let mut children: Vec<HtmlNode<C>> = Vec::new();
    children.push(HtmlNode::text(text));
    assert(html_views(children@) =~= seq![HtmlNodeView::<C>::Text(text@)]);
    HtmlNode::element(tag, attrs, children)
}

/// Builds a `div` without attributes around one child.
fn wrapped<C>(child: HtmlNode<C>) -> (node: HtmlNode<C>)
    ensures
        node@ == element(HtmlTag::Div, Seq::empty(), seq![child@]),
{
    let mut children: Vec<HtmlNode<C>> = Vec::new();
    children.push(child);
    assert(html_views(children@) =~= seq![child@]);
    let node = HtmlNode::element(HtmlTag::Div, Vec::new(), children);
    assert(node@->attrs =~= Seq::empty());
    node
}

/// Translates a widget tree into an HTML tree.
///
/// `cur_node_idx` holds the index of the root on entry, and the index after
/// the last node of the tree on return.
pub fn widget_tree_to_html_node<C>(widget_node: Node<C>, cur_node_idx: &mut usize) -> (html:
    HtmlNode<C>)
    requires
        translatable(widget_node@),
        *old(cur_node_idx) + visit_count(widget_node@) <= usize::MAX,
    ensures
        html@ == html_of(widget_node@, *old(cur_node_idx) as nat),
        *final(cur_node_idx) == *old(cur_node_idx) + visit_count(widget_node@),
    decreases widget_node,
{
    match widget_node {
        Node::Element(widget) => {
            proof {
                lemma_element_view(widget);
            }
            widget_to_html(widget.tag, widget.attrs, widget.children, cur_node_idx)
        },
        Node::Text(txt) => {
            *cur_node_idx += 1;
            HtmlNode::text(txt)
        },
    }
}

/// Translates a widget of kind `widget` with its attributes and children.
///
/// The widget takes the index that `cur_node_idx` holds on entry. Its
/// children are visited left to right, whatever the kind; only a container
/// keeps their HTML.
pub fn widget_to_html<C>(
    widget: Widget,
    attrs: Vec<Attribute<C>>,
    widget_children: Vec<Node<C>>,
    cur_node_idx: &mut usize,
) -> (html: HtmlNode<C>)
    requires
        kind_translatable(widget, attribute_views(attrs@)),
        forall|i: int|
            0 <= i < widget_children@.len() ==> translatable(
                #[trigger] node_views(widget_children@)[i],
            ),
        *old(cur_node_idx) + 1 + visit_count_all(node_views(widget_children@)) <= usize::MAX,
    ensures
        html@ == element_html(
            widget,
            attribute_views(attrs@),
            html_of_all(node_views(widget_children@), (*old(cur_node_idx) + 1) as nat),
            *old(cur_node_idx) as nat,
        ),
        *final(cur_node_idx) == *old(cur_node_idx) + 1 + visit_count_all(
            node_views(widget_children@),
        ),
    decreases widget_children,
{
    let ghost models = node_views(widget_children@);
    let ghost views = attribute_views(attrs@);
    let index: usize = *cur_node_idx;
    *cur_node_idx += 1;

    let mut html_children: Vec<HtmlNode<C>> = Vec::new();
    for widget_child in it: widget_children
        invariant
            it.seq() == widget_children@,
            models == node_views(widget_children@),
            forall|i: int| 0 <= i < models.len() ==> translatable(#[trigger] models[i]),
            index + 1 + visit_count_all(models) <= usize::MAX,
            *cur_node_idx == index + 1 + visit_count_all(models.take(it.index() as int)),
            html_views(html_children@) == html_of_all(
                models.take(it.index() as int),
                (index + 1) as nat,
            ),
    {
        let ghost had = html_views(html_children@);
        proof {
            let now = models.take(it.index() + 1);
            lemma_visit_count_prefix(models, it.index() + 1);
            assert(now.drop_last() =~= models.take(it.index() as int));
            assert(now.last() == widget_child@);
            assert(translatable(models[it.index() as int]));
            assert(decreases_to!(widget_children => widget_children@));
            assert(decreases_to!(widget_children@ => widget_children@[it.index() as int]));
        }
        let html_child = widget_tree_to_html_node(widget_child, cur_node_idx);
        html_children.push(html_child);
        assert(html_views(html_children@) =~= had.push(html_child@));
    }
    assert(models.take(models.len() as int) =~= models);

    let html = match widget {
        Widget::Vbox => HtmlNode::element(
            HtmlTag::Div,
            container_attrs("column", false),
            html_children,
        ),
        Widget::Hbox => HtmlNode::element(HtmlTag::Div, container_attrs("row", false), html_children),
        Widget::Vpane => HtmlNode::element(
            HtmlTag::Div,
            container_attrs("column", true),
            html_children,
        ),
        Widget::Hpane => HtmlNode::element(
            HtmlTag::Div,
            container_attrs("row", true),
            style_children(html_children, true),
        ),
        Widget::Overlay => {
            let mut attributes: Vec<HtmlAttribute<C>> = Vec::new();
            attributes.push(plain_attr(AttrName::Class, "overlay"));
            assert(html_attribute_views(attributes@) =~= seq![
                plain::<C>(AttrName::Class, "overlay"@),
            ]);
            HtmlNode::element(HtmlTag::Div, attributes, style_children(html_children, false))
        },
        Widget::GroupBox => {
            let attributes: Vec<HtmlAttribute<C>> = Vec::new();
            assert(html_attribute_views(attributes@) =~= Seq::empty());
            HtmlNode::element(HtmlTag::Div, attributes, html_children)
        },
        Widget::Label => {
            let value = text_for(AttribKey::Value, &attrs);
            let mut attributes: Vec<HtmlAttribute<C>> = Vec::new();
            attributes.push(one_style(StyleProperty::UserSelect, "none"));
            assert(html_attribute_views(attributes@) =~= seq![
                HtmlAttributeView::<C>::Styles(seq![(StyleProperty::UserSelect, "none"@)]),
            ]);
            with_text(HtmlTag::Label, attributes, value)
        },
        Widget::Button => {
            let label = text_for(AttribKey::Label, &attrs);
            let svg_image_data = bytes_for(AttribKey::SvgImage, &attrs);
            let callbacks = take_callbacks(AttribKey::ClickEvent, attrs);
            let mut attributes: Vec<HtmlAttribute<C>> = Vec::new();
            assert(html_attribute_views(attributes@) =~= Seq::empty());
            push_listeners(&mut attributes, NativeEvent::Click, callbacks);
            assert(html_attribute_views(attributes@) =~= listeners(
                NativeEvent::Click,
                callbacks_of(AttribKey::ClickEvent, views),
            ));
            let mut children: Vec<HtmlNode<C>> = Vec::new();
            children.push(HtmlNode::text(label));
            match svg_image_data {
                Some(bytes) => {
                    let mut styles: Vec<HtmlAttribute<C>> = Vec::new();
                    let mut declarations: Vec<StyleDeclaration> = Vec::new();
                    declarations.push(style(StyleProperty::Width, "100%"));
                    declarations.push(style(StyleProperty::Height, "auto"));
                    declarations.push(style(StyleProperty::MaxWidth, "800px"));
                    assert(declaration_views(declarations@) =~= seq![
                        (StyleProperty::Width, "100%"@),
                        (StyleProperty::Height, "auto"@),
                        (StyleProperty::MaxWidth, "800px"@),
                    ]);
                    styles.push(HtmlAttribute::styles(declarations));
                    assert(html_attribute_views(styles@) =~= seq![button_image_style::<C>()]);
                    children.push(image(styles, "image/svg+xml", &bytes));
                },
                None => {},
            }
            assert(html_views(children@) =~= button_children(views));
            HtmlNode::element(HtmlTag::Button, attributes, children)
        },
        Widget::Paragraph => {
            let txt_value = text_for(AttribKey::Value, &attrs);
            let attributes: Vec<HtmlAttribute<C>> = Vec::new();
            assert(html_attribute_views(attributes@) =~= Seq::empty());
            with_text(HtmlTag::P, attributes, txt_value)
        },
        Widget::TextInput => {
            let txt_value = text_for(AttribKey::Value, &attrs);
            let callbacks = take_callbacks(AttribKey::InputEvent, attrs);
            let mut attributes: Vec<HtmlAttribute<C>> = Vec::new();
            attributes.push(plain_attr(AttrName::Type, "text"));
            attributes.push(HtmlAttribute::plain(AttrName::Value, txt_value));
            assert(html_attribute_views(attributes@) =~= seq![
                plain::<C>(AttrName::Type, "text"@),
                plain::<C>(AttrName::Value, text_of(AttribKey::Value, views)),
            ]);
            push_listeners(&mut attributes, NativeEvent::Input, callbacks);
            let node = HtmlNode::element(HtmlTag::Input, attributes, Vec::new());
            assert(node@->children =~= Seq::empty());
            node
        },
        Widget::TextArea => {
            let txt_value = text_for(AttribKey::Value, &attrs);
            let mut attributes: Vec<HtmlAttribute<C>> = Vec::new();
            attributes.push(HtmlAttribute::plain(AttrName::Value, txt_value.clone()));
            attributes.push(one_style(StyleProperty::Height, "100%"));
            assert(html_attribute_views(attributes@) =~= seq![
                plain::<C>(AttrName::Value, text_of(AttribKey::Value, views)),
                HtmlAttributeView::<C>::Styles(seq![(StyleProperty::Height, "100%"@)]),
            ]);
            with_text(HtmlTag::Textarea, attributes, txt_value)
        },
        Widget::Checkbox => toggle("checkbox", "checkbox_", index, &attrs),
        Widget::Radio => toggle("radio", "radio_", index, &attrs),
        Widget::Image => {
            let bytes = data_for(&attrs);
            let mime_type = match image_mime_type(bytes.as_slice()) {
                Some(mime_type) => mime_type,
                None => vstd::pervasive::unreached(),
            };
            let styles: Vec<HtmlAttribute<C>> = Vec::new();
            assert(html_attribute_views(styles@) =~= Seq::empty());
            wrapped(image(styles, mime_type, &bytes))
        },
        Widget::Svg => {
            let bytes = data_for(&attrs);
            let styles: Vec<HtmlAttribute<C>> = Vec::new();
            assert(html_attribute_views(styles@) =~= Seq::empty());
            wrapped(image(styles, "image/svg+xml", &bytes))
        },
    };
    html
}

/// Tests whether a widget of kind `tag` with the attributes `attrs` can be
/// translated.
pub fn is_kind_translatable<C>(tag: Widget, attrs: &Vec<Attribute<C>>) -> (ok: bool)
    ensures
        ok == kind_translatable(tag, attribute_views(attrs@)),
{
    match tag {
        Widget::Image => {
            let bytes = data_for(attrs);
            image_format(bytes.as_slice()).is_some() && is_encodable_len(bytes.len())
        },
        Widget::Svg => {
            let bytes = data_for(attrs);
            is_encodable_len(bytes.len())
        },
        Widget::Button => match bytes_for(AttribKey::SvgImage, attrs) {
            Some(bytes) => is_encodable_len(bytes.len()),
            None => true,
        },
        _ => true,
    }
}

/// Tests whether every widget of a tree can be translated.
pub fn is_translatable<C>(node: &Node<C>) -> (ok: bool)
    ensures
        ok == translatable(node@),
    decreases node,
{
    match node {
        Node::Text(_) => true,
        Node::Element(widget) => {
            proof {
                lemma_element_view(*widget);
            }
            if !is_kind_translatable(widget.tag, &widget.attrs) {
                return false;
            }
            let ghost models = node_views(widget.children@);
            let mut i: usize = 0;
            while i < widget.children.len()
                invariant
                    i <= widget.children.len(),
                    *node == Node::Element(*widget),
                    models == node_views(widget.children@),
                    node@ is Element,
                    node@->children == models,
                    kind_translatable(node@->tag, node@->attrs),
                    forall|k: int| 0 <= k < i ==> translatable(#[trigger] models[k]),
                decreases widget.children.len() - i,
            {
                proof {
                    assert(decreases_to!(*node => node->Element_0));
                    assert(decreases_to!(*widget => widget.children));
                    assert(decreases_to!(widget.children => widget.children@));
                    assert(decreases_to!(widget.children@ => widget.children@[i as int]));
                }
                if !is_translatable(&widget.children[i]) {
                    assert(!translatable(models[i as int]));
                    return false;
                }
                i += 1;
            }
            true
        },
    }
}

/// Counts the nodes of a tree, as far as the count fits.
pub fn checked_visit_count<C>(node: &Node<C>) -> (count: Option<usize>)
    ensures
        match count {
            Some(n) => n == visit_count(node@),
            None => visit_count(node@) > usize::MAX,
        },
    decreases node,
{
    match node {
        Node::Text(_) => Some(1),
        Node::Element(widget) => {
            proof {
                lemma_element_view(*widget);
            }
            let ghost models = node_views(widget.children@);
            let mut total: usize = 1;
            let mut i: usize = 0;
            while i < widget.children.len()
                invariant
                    i <= widget.children.len(),
                    *node == Node::Element(*widget),
                    models == node_views(widget.children@),
                    node@ is Element,
                    node@->children == models,
                    total == 1 + visit_count_all(models.take(i as int)),
                decreases widget.children.len() - i,
            {
                proof {
                    assert(decreases_to!(*node => node->Element_0));
                    assert(decreases_to!(*widget => widget.children));
                    assert(decreases_to!(widget.children => widget.children@));
                    assert(decreases_to!(widget.children@ => widget.children@[i as int]));
                    let now = models.take(i + 1);
                    assert(now.drop_last() =~= models.take(i as int));
                    assert(now.last() == widget.children@[i as int]@);
                    lemma_visit_count_prefix(models, i + 1);
                }
                let next = match checked_visit_count(&widget.children[i]) {
                    Some(count) => total.checked_add(count),
                    None => None,
                };
                match next {
                    Some(sum) => {
                        total = sum;
                    },
                    None => {
                        return None;
                    },
                }
                i += 1;
            }
            assert(models.take(i as int) =~= models);
            Some(total)
        },
    }
}

/// Translates a whole widget tree, with the index 0 for its root.
///
/// The tree comes back unchanged where it cannot be translated: where the
/// bytes of a raster image are not recognized, where the bytes of an image
/// are too many to encode, or where the nodes are too many to count.
pub fn translate_tree<C>(widget_node: Node<C>) -> (result: Result<HtmlNode<C>, Node<C>>)
    ensures
        match result {
            Ok(html) => {
                &&& translatable(widget_node@)
                &&& visit_count(widget_node@) <= usize::MAX
                &&& html@ == html_of(widget_node@, 0)
            },
            Err(node) => {
                &&& !(translatable(widget_node@) && visit_count(widget_node@) <= usize::MAX)
                &&& node == widget_node
            },
        },
{
    if !is_translatable(&widget_node) {
        return Err(widget_node);
    }
    if checked_visit_count(&widget_node).is_none() {
        return Err(widget_node);
    }
    let mut cur_node_idx: usize = 0;
    Ok(widget_tree_to_html_node(widget_node, &mut cur_node_idx))
}

} // verus!
