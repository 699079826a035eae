use widget_html::attribute::{AttribKey, Attribute};
use widget_html::html::{
    AttrName, HtmlAttribute, HtmlElement, HtmlNode, HtmlTag, NativeEvent, StyleDeclaration,
    StyleProperty,
};
use widget_html::translate::{
    checked_visit_count, is_kind_translatable, is_translatable, translate_tree, widget_to_html,
    widget_tree_to_html_node,
};
use widget_html::value::Value;
use widget_html::widget::{button, row, text, widget, Element, Node, Widget};

type Callback = &'static str;

fn plain(name: AttrName, value: &str) -> HtmlAttribute<Callback> {
    HtmlAttribute::Plain { name, value: value.to_string() }
}

fn styles(declarations: &[(StyleProperty, &str)]) -> HtmlAttribute<Callback> {
    HtmlAttribute::Styles(
        declarations
            .iter()
            .map(|(property, value)| StyleDeclaration {
                property: *property,
                value: value.to_string(),
            })
            .collect(),
    )
}

fn listener(event: NativeEvent, callback: Callback) -> HtmlAttribute<Callback> {
    HtmlAttribute::Listener { event, callback }
}

fn el(
    tag: HtmlTag,
    attrs: Vec<HtmlAttribute<Callback>>,
    children: Vec<HtmlNode<Callback>>,
) -> HtmlNode<Callback> {
    HtmlNode::Element(HtmlElement { tag, attrs, children })
}

fn txt(text: &str) -> HtmlNode<Callback> {
    HtmlNode::Text(text.to_string())
}

fn flex(direction: &str) -> HtmlAttribute<Callback> {
    styles(&[(StyleProperty::Display, "flex"), (StyleProperty::FlexDirection, direction)])
}

fn value(name: AttribKey, value: Value) -> Attribute<Callback> {
    Attribute::with_value(name, value)
}

fn on(name: AttribKey, callback: Callback) -> Attribute<Callback> {
    Attribute::with_callback(name, callback)
}

fn bytes(data: &[u8]) -> Value {
    Value::Vec(data.iter().map(|b| Value::U8(*b)).collect())
}

fn leaf(kind: Widget, attrs: Vec<Attribute<Callback>>) -> Node<Callback> {
    widget(kind, attrs, vec![])
}

fn translated(node: Node<Callback>) -> HtmlNode<Callback> {
    match translate_tree(node) {
        Ok(html) => html,
        Err(_) => panic!("the tree cannot be translated"),
    }
}

fn toggle(kind: &str, id: &str, checked: bool, label: &str) -> HtmlNode<Callback> {
    let mut input_attrs = vec![plain(AttrName::Type, kind), plain(AttrName::Id, id)];
    if checked {
        input_attrs.push(plain(AttrName::Checked, "checked"));
    }
    el(
        HtmlTag::Div,
        vec![],
        vec![
            el(HtmlTag::Input, input_attrs, vec![]),
            el(HtmlTag::Label, vec![plain(AttrName::For, id)], vec![txt(label)]),
        ],
    )
}

const PNG: [u8; 8] = [0x89, 0x50, 0x4E, 0x47, 0x0D, 0x0A, 0x1A, 0x0A];

#[test]
fn text_leaf_becomes_text() {
    assert_eq!(translated(text("hello")), txt("hello"));
    assert_eq!(translated(Node::Text(String::new())), txt(""));
}

#[test]
fn boxes_are_flex_containers() {
    let node = widget_html::widget::column(vec![], vec![text("a"), row(vec![], vec![text("b")])]);
    assert_eq!(
        translated(node),
        el(
            HtmlTag::Div,
            vec![flex("column")],
            vec![txt("a"), el(HtmlTag::Div, vec![flex("row")], vec![txt("b")])],
        )
    );
}

#[test]
fn vertical_pane_fills_its_parent() {
    let node = widget(Widget::Vpane, vec![], vec![text("a")]);
    assert_eq!(
        translated(node),
        el(
            HtmlTag::Div,
            vec![
                flex("column"),
                plain(AttrName::Width, "100%"),
                plain(AttrName::Height, "100%"),
            ],
            vec![txt("a")],
        )
    );
}

#[test]
fn horizontal_pane_halves_its_children() {
    let node = widget(
        Widget::Hpane,
        vec![],
        vec![widget_html::widget::column(vec![], vec![]), text("t"), leaf(Widget::GroupBox, vec![])],
    );
    let half = || styles(&[(StyleProperty::Width, "50%"), (StyleProperty::Height, "100%")]);
    assert_eq!(
        translated(node),
        el(
            HtmlTag::Div,
            vec![flex("row"), plain(AttrName::Width, "100%"), plain(AttrName::Height, "100%")],
            vec![
                el(HtmlTag::Div, vec![flex("column"), half()], vec![]),
                txt("t"),
                el(HtmlTag::Div, vec![half()], vec![]),
            ],
        )
    );
}

#[test]
fn overlay_positions_its_children_absolutely() {
    let node = widget(
        Widget::Overlay,
        vec![],
        vec![row(vec![], vec![text("x")]), text("t")],
    );
    let absolute = || styles(&[(StyleProperty::Position, "absolute")]);
    assert_eq!(
        translated(node),
        el(
            HtmlTag::Div,
            vec![plain(AttrName::Class, "overlay")],
            vec![el(HtmlTag::Div, vec![flex("row"), absolute()], vec![txt("x")]), txt("t")],
        )
    );
}

#[test]
fn group_has_no_styling() {
    let node = widget(Widget::GroupBox, vec![], vec![text("a"), text("b")]);
    assert_eq!(translated(node), el(HtmlTag::Div, vec![], vec![txt("a"), txt("b")]));
}

#[test]
fn label_shows_its_value() {
    let node = leaf(Widget::Label, vec![value(AttribKey::Value, Value::from("Name"))]);
    let user_select = || styles(&[(StyleProperty::UserSelect, "none")]);
    assert_eq!(translated(node), el(HtmlTag::Label, vec![user_select()], vec![txt("Name")]));

    let node = leaf(Widget::Label, vec![value(AttribKey::Value, Value::from((10, "px")))]);
    assert_eq!(translated(node), el(HtmlTag::Label, vec![user_select()], vec![txt("10 px")]));

    let node = leaf(Widget::Label, vec![value(AttribKey::Label, Value::from("ignored"))]);
    assert_eq!(translated(node), el(HtmlTag::Label, vec![user_select()], vec![txt("")]));
}

#[test]
fn paragraph_shows_its_value() {
    let node = leaf(Widget::Paragraph, vec![value(AttribKey::Value, Value::from(42u32))]);
    assert_eq!(translated(node), el(HtmlTag::P, vec![], vec![txt("42")]));
    assert_eq!(translated(leaf(Widget::Paragraph, vec![])), el(HtmlTag::P, vec![], vec![txt("")]));
}

#[test]
fn button_without_image_has_only_its_label() {
    let node = leaf(Widget::Button, vec![value(AttribKey::Label, Value::from("Ok"))]);
    assert_eq!(translated(node), el(HtmlTag::Button, vec![], vec![txt("Ok")]));

    let node = leaf(
        Widget::Button,
        vec![
            value(AttribKey::Label, Value::from("Ok")),
            value(AttribKey::SvgImage, Value::from("<svg/>")),
        ],
    );
    assert_eq!(translated(node), el(HtmlTag::Button, vec![], vec![txt("Ok")]));
}

#[test]
fn button_with_image_has_a_data_uri_image() {
    let node = leaf(
        Widget::Button,
        vec![
            value(AttribKey::SvgImage, bytes(b"<svg/>")),
            value(AttribKey::Label, Value::from("Ok")),
        ],
    );
    assert_eq!(
        translated(node),
        el(
            HtmlTag::Button,
            vec![],
            vec![
                txt("Ok"),
                el(
                    HtmlTag::Img,
                    vec![
                        styles(&[
                            (StyleProperty::Width, "100%"),
                            (StyleProperty::Height, "auto"),
                            (StyleProperty::MaxWidth, "800px"),
                        ]),
                        plain(AttrName::Src, "data:image/svg+xml;base64,PHN2Zy8+"),
                    ],
                    vec![],
                ),
            ],
        )
    );
}

#[test]
fn button_binds_each_click_callback() {
    let node = leaf(
        Widget::Button,
        vec![
            on(AttribKey::ClickEvent, "first"),
            on(AttribKey::InputEvent, "other"),
            value(AttribKey::Label, Value::from("Go")),
            Attribute {
                name: AttribKey::ClickEvent,
                value: None,
                callbacks: vec!["second", "third"],
            },
        ],
    );
    assert_eq!(
        translated(node),
        el(
            HtmlTag::Button,
            vec![
                listener(NativeEvent::Click, "first"),
                listener(NativeEvent::Click, "second"),
                listener(NativeEvent::Click, "third"),
            ],
            vec![txt("Go")],
        )
    );
}

#[test]
fn text_input_binds_each_input_callback() {
    let node = leaf(
        Widget::TextInput,
        vec![
            on(AttribKey::InputEvent, "changed"),
            value(AttribKey::Value, Value::from("abc")),
            on(AttribKey::ClickEvent, "clicked"),
            on(AttribKey::InputEvent, "again"),
        ],
    );
    assert_eq!(
        translated(node),
        el(
            HtmlTag::Input,
            vec![
                plain(AttrName::Type, "text"),
                plain(AttrName::Value, "abc"),
                listener(NativeEvent::Input, "changed"),
                listener(NativeEvent::Input, "again"),
            ],
            vec![],
        )
    );
}

#[test]
fn text_area_shows_its_value_twice_and_binds_nothing() {
    let node = leaf(
        Widget::TextArea,
        vec![
            value(AttribKey::Value, Value::from("lines")),
            on(AttribKey::InputEvent, "changed"),
        ],
    );
    assert_eq!(
        translated(node),
        el(
            HtmlTag::Textarea,
            vec![plain(AttrName::Value, "lines"), styles(&[(StyleProperty::Height, "100%")])],
            vec![txt("lines")],
        )
    );
}

#[test]
fn checkbox_is_checked_by_a_true_value() {
    let node = leaf(
        Widget::Checkbox,
        vec![
            value(AttribKey::Label, Value::from("Agree")),
            value(AttribKey::Value, Value::from(true)),
        ],
    );
    assert_eq!(translated(node), toggle("checkbox", "checkbox_0", true, "Agree"));
}

#[test]
fn checkbox_is_unchecked_otherwise() {
    let node = leaf(Widget::Checkbox, vec![value(AttribKey::Label, Value::from("Agree"))]);
    assert_eq!(translated(node), toggle("checkbox", "checkbox_0", false, "Agree"));

    let node = leaf(Widget::Checkbox, vec![value(AttribKey::Value, Value::from(false))]);
    assert_eq!(translated(node), toggle("checkbox", "checkbox_0", false, ""));

    let node = leaf(Widget::Checkbox, vec![value(AttribKey::Value, Value::from("true"))]);
    assert_eq!(translated(node), toggle("checkbox", "checkbox_0", false, ""));

    let node = leaf(
        Widget::Checkbox,
        vec![
            value(AttribKey::Value, Value::from(false)),
            value(AttribKey::Value, Value::from(true)),
        ],
    );
    assert_eq!(translated(node), toggle("checkbox", "checkbox_0", false, ""));
}

#[test]
fn label_of_a_checkbox_points_to_its_input() {
    let html = translated(widget_html::widget::column(
        vec![],
        vec![text("a"), leaf(Widget::Checkbox, vec![value(AttribKey::Value, Value::from(true))])],
    ));
    match html {
        HtmlNode::Element(div) => match &div.children[1] {
            HtmlNode::Element(pair) => match (&pair.children[0], &pair.children[1]) {
                (HtmlNode::Element(input), HtmlNode::Element(label)) => {
                    assert_eq!(input.attrs[1], plain(AttrName::Id, "checkbox_2"));
                    assert_eq!(label.attrs[0], plain(AttrName::For, "checkbox_2"));
                    assert_eq!(input.attrs[2], plain(AttrName::Checked, "checked"));
                }
                _ => panic!("a checkbox is an input and a label"),
            },
            _ => panic!("a checkbox is an element"),
        },
        _ => panic!("a column is an element"),
    }
}

#[test]
fn radio_is_like_a_checkbox() {
    let node = leaf(
        Widget::Radio,
        vec![
            value(AttribKey::Value, Value::from(true)),
            value(AttribKey::Label, Value::from("One")),
        ],
    );
    assert_eq!(translated(node), toggle("radio", "radio_0", true, "One"));
    assert_eq!(translated(leaf(Widget::Radio, vec![])), toggle("radio", "radio_0", false, ""));
}

#[test]
fn raster_image_has_the_sniffed_mime_type() {
    let node = leaf(Widget::Image, vec![value(AttribKey::Data, bytes(&PNG))]);
    assert_eq!(
        translated(node),
        el(
            HtmlTag::Div,
            vec![],
            vec![el(
                HtmlTag::Img,
                vec![plain(AttrName::Src, "data:image/png;base64,iVBORw0KGgo=")],
                vec![],
            )],
        )
    );
    let node = leaf(Widget::Image, vec![value(AttribKey::Data, bytes(b"GIF89a"))]);
    assert_eq!(
        translated(node),
        el(
            HtmlTag::Div,
            vec![],
            vec![el(
                HtmlTag::Img,
                vec![plain(AttrName::Src, "data:image/gif;base64,R0lGODlh")],
                vec![],
            )],
        )
    );
}

#[test]
fn unrecognized_raster_image_is_fatal() {
    let junk = || leaf(Widget::Image, vec![value(AttribKey::Data, bytes(b"not an image"))]);
    assert!(!is_translatable(&junk()));
    assert_eq!(translate_tree(junk()), Err(junk()));

    let svg_as_raster = || leaf(Widget::Image, vec![value(AttribKey::Data, bytes(b"<svg/>"))]);
    assert_eq!(translate_tree(svg_as_raster()), Err(svg_as_raster()));

    let nested = || {
        widget_html::widget::column(
            vec![],
            vec![text("a"), row(vec![], vec![leaf(Widget::Label, vec![]), junk()])],
        )
    };
    assert!(!is_translatable(&nested()));
    assert_eq!(translate_tree(nested()), Err(nested()));

    let under_a_label = || widget(Widget::Label, vec![], vec![junk()]);
    assert!(!is_translatable(&under_a_label()));
    assert_eq!(translate_tree(under_a_label()), Err(under_a_label()));
}

#[test]
fn raster_image_without_bytes_is_fatal() {
    let empty = || leaf(Widget::Image, vec![]);
    assert!(!is_translatable(&empty()));
    assert_eq!(translate_tree(empty()), Err(empty()));

    let text_data = || leaf(Widget::Image, vec![value(AttribKey::Data, Value::from("GIF89a"))]);
    assert_eq!(translate_tree(text_data()), Err(text_data()));
}

#[test]
fn vector_image_is_always_svg() {
    let node = leaf(Widget::Svg, vec![value(AttribKey::Data, bytes(b"<svg/>"))]);
    assert_eq!(
        translated(node),
        el(
            HtmlTag::Div,
            vec![],
            vec![el(
                HtmlTag::Img,
                vec![plain(AttrName::Src, "data:image/svg+xml;base64,PHN2Zy8+")],
                vec![],
            )],
        )
    );
    let node = leaf(Widget::Svg, vec![value(AttribKey::Data, bytes(&PNG))]);
    assert_eq!(
        translated(node),
        el(
            HtmlTag::Div,
            vec![],
            vec![el(
                HtmlTag::Img,
                vec![plain(AttrName::Src, "data:image/svg+xml;base64,iVBORw0KGgo=")],
                vec![],
            )],
        )
    );
}

#[test]
fn every_kind_has_defaults() {
    let empty_svg = el(
        HtmlTag::Div,
        vec![],
        vec![el(HtmlTag::Img, vec![plain(AttrName::Src, "data:image/svg+xml;base64,")], vec![])],
    );
    let cases: Vec<(Widget, HtmlNode<Callback>)> = vec![
        (Widget::Vbox, el(HtmlTag::Div, vec![flex("column")], vec![])),
        (Widget::Hbox, el(HtmlTag::Div, vec![flex("row")], vec![])),
        (
            Widget::Vpane,
            el(
                HtmlTag::Div,
                vec![
                    flex("column"),
                    plain(AttrName::Width, "100%"),
                    plain(AttrName::Height, "100%"),
                ],
                vec![],
            ),
        ),
        (
            Widget::Hpane,
            el(
                HtmlTag::Div,
                vec![flex("row"), plain(AttrName::Width, "100%"), plain(AttrName::Height, "100%")],
                vec![],
            ),
        ),
        (Widget::Overlay, el(HtmlTag::Div, vec![plain(AttrName::Class, "overlay")], vec![])),
        (Widget::GroupBox, el(HtmlTag::Div, vec![], vec![])),
        (
            Widget::Label,
            el(
                HtmlTag::Label,
                vec![styles(&[(StyleProperty::UserSelect, "none")])],
                vec![txt("")],
            ),
        ),
        (Widget::Button, el(HtmlTag::Button, vec![], vec![txt("")])),
        (Widget::Paragraph, el(HtmlTag::P, vec![], vec![txt("")])),
        (
            Widget::TextInput,
            el(
                HtmlTag::Input,
                vec![plain(AttrName::Type, "text"), plain(AttrName::Value, "")],
                vec![],
            ),
        ),
        (
            Widget::TextArea,
            el(
                HtmlTag::Textarea,
                vec![plain(AttrName::Value, ""), styles(&[(StyleProperty::Height, "100%")])],
                vec![txt("")],
            ),
        ),
        (Widget::Checkbox, toggle("checkbox", "checkbox_0", false, "")),
        (Widget::Radio, toggle("radio", "radio_0", false, "")),
        (Widget::Svg, empty_svg),
    ];
    for (kind, expected) in cases {
        assert!(is_kind_translatable::<Callback>(kind, &vec![]));
        assert_eq!(translated(leaf(kind, vec![])), expected);
        let unrelated = match kind {
            Widget::Button => vec![value(AttribKey::Data, Value::from(1u8))],
            _ => vec![on(AttribKey::ClickEvent, "f"), value(AttribKey::SvgImage, bytes(b"x"))],
        };
        let again = match kind {
            Widget::Button => el(HtmlTag::Button, vec![], vec![txt("")]),
            _ => translated(leaf(kind, vec![])),
        };
        assert_eq!(translated(leaf(kind, unrelated)), again);
    }
    assert!(!is_kind_translatable::<Callback>(Widget::Image, &vec![]));
}

fn sample(first: Widget, second: Widget) -> Node<Callback> {
    widget_html::widget::column(
        vec![],
        vec![
            text("intro"),
            leaf(first, vec![value(AttribKey::Label, Value::from("a"))]),
            row(vec![], vec![leaf(second, vec![]), leaf(first, vec![])]),
            leaf(second, vec![]),
        ],
    )
}

#[test]
fn ids_count_the_nodes_in_pre_order() {
    let html = translated(sample(Widget::Checkbox, Widget::Radio));
    assert_eq!(
        html,
        el(
            HtmlTag::Div,
            vec![flex("column")],
            vec![
                txt("intro"),
                toggle("checkbox", "checkbox_2", false, "a"),
                el(
                    HtmlTag::Div,
                    vec![flex("row")],
                    vec![
                        toggle("radio", "radio_4", false, ""),
                        toggle("checkbox", "checkbox_5", false, ""),
                    ],
                ),
                toggle("radio", "radio_6", false, ""),
            ],
        )
    );
}

#[test]
fn checkbox_and_radio_at_one_position_share_the_number() {
    let html = translated(sample(Widget::Radio, Widget::Checkbox));
    assert_eq!(
        html,
        el(
            HtmlTag::Div,
            vec![flex("column")],
            vec![
                txt("intro"),
                toggle("radio", "radio_2", false, "a"),
                el(
                    HtmlTag::Div,
                    vec![flex("row")],
                    vec![
                        toggle("checkbox", "checkbox_4", false, ""),
                        toggle("radio", "radio_5", false, ""),
                    ],
                ),
                toggle("checkbox", "checkbox_6", false, ""),
            ],
        )
    );
}

#[test]
fn translation_is_deterministic() {
    let first = translated(sample(Widget::Checkbox, Widget::Radio));
    let second = translated(sample(Widget::Checkbox, Widget::Radio));
    assert_eq!(first, second);
}

#[test]
fn children_of_a_leaf_widget_are_counted_and_dropped() {
    let node = widget_html::widget::column(
        vec![],
        vec![
            widget(Widget::Label, vec![], vec![text("x"), leaf(Widget::Checkbox, vec![])]),
            leaf(Widget::Checkbox, vec![]),
        ],
    );
    assert_eq!(checked_visit_count(&node), Some(5));
    assert_eq!(
        translated(node),
        el(
            HtmlTag::Div,
            vec![flex("column")],
            vec![
                el(
                    HtmlTag::Label,
                    vec![styles(&[(StyleProperty::UserSelect, "none")])],
                    vec![txt("")],
                ),
                toggle("checkbox", "checkbox_4", false, ""),
            ],
        )
    );
}

#[test]
fn counter_advances_by_one_per_node() {
    let mut index: usize = 0;
    let html = widget_tree_to_html_node(sample(Widget::Checkbox, Widget::Radio), &mut index);
    assert_eq!(index, 7);
    assert_eq!(html, translated(sample(Widget::Checkbox, Widget::Radio)));

    let mut index: usize = 10;
    let html = widget_tree_to_html_node(text::<Callback>("t"), &mut index);
    assert_eq!(index, 11);
    assert_eq!(html, txt("t"));

    let mut index: usize = 41;
    let html = widget_tree_to_html_node(leaf(Widget::Radio, vec![]), &mut index);
    assert_eq!(index, 42);
    assert_eq!(html, toggle("radio", "radio_41", false, ""));

    let mut index: usize = 99;
    let html = widget_tree_to_html_node(
        widget_html::widget::column(vec![], vec![text("a"), leaf(Widget::Checkbox, vec![])]),
        &mut index,
    );
    assert_eq!(index, 102);
    assert_eq!(
        html,
        el(
            HtmlTag::Div,
            vec![flex("column")],
            vec![txt("a"), toggle("checkbox", "checkbox_101", false, "")],
        )
    );
}

#[test]
fn widget_to_html_takes_the_parts_of_an_element() {
    let mut index: usize = 3;
    let html = widget_to_html(
        Widget::Hbox,
        vec![],
        vec![leaf(Widget::Checkbox, vec![]), text("t")],
        &mut index,
    );
    assert_eq!(index, 6);
    assert_eq!(
        html,
        el(
            HtmlTag::Div,
            vec![flex("row")],
            vec![toggle("checkbox", "checkbox_4", false, ""), txt("t")],
        )
    );
}

#[test]
fn visit_count_counts_every_node() {
    assert_eq!(checked_visit_count(&text::<Callback>("t")), Some(1));
    assert_eq!(checked_visit_count(&leaf(Widget::Vbox, vec![])), Some(1));
    assert_eq!(checked_visit_count(&sample(Widget::Checkbox, Widget::Radio)), Some(7));
}

#[test]
fn translatable_trees() {
    assert!(is_translatable(&text::<Callback>("t")));
    assert!(is_translatable(&sample(Widget::Checkbox, Widget::Radio)));
    assert!(is_translatable(&leaf(Widget::Image, vec![value(AttribKey::Data, bytes(&PNG))])));
    assert!(is_kind_translatable(
        Widget::Image,
        &vec![value(AttribKey::Data, bytes(&PNG))]
    ));
    assert!(!is_kind_translatable(
        Widget::Image,
        &vec![value(AttribKey::Data, bytes(b"PNG"))]
    ));
    assert!(is_kind_translatable(
        Widget::Label,
        &vec![value(AttribKey::Data, bytes(b"PNG"))]
    ));
}

#[test]
fn builders_make_widget_nodes() {
    let node: Node<Callback> = widget_html::widget::column(vec![], vec![text("a")]);
    assert_eq!(
        node,
        Node::Element(Element {
            tag: Widget::Vbox,
            attrs: vec![],
            children: vec![Node::Text(String::from("a"))],
        })
    );
    let node: Node<Callback> = row(vec![on(AttribKey::ClickEvent, "f")], vec![]);
    assert_eq!(
        node,
        Node::Element(Element {
            tag: Widget::Hbox,
            attrs: vec![on(AttribKey::ClickEvent, "f")],
            children: vec![],
        })
    );
    let node: Node<Callback> = button(vec![on(AttribKey::ClickEvent, "f")], "Ok");
    assert_eq!(
        node,
        Node::Element(Element {
            tag: Widget::Button,
            attrs: vec![value(AttribKey::Label, Value::from("Ok")), on(AttribKey::ClickEvent, "f")],
            children: vec![],
        })
    );
    assert_eq!(
        translated(node),
        el(HtmlTag::Button, vec![listener(NativeEvent::Click, "f")], vec![txt("Ok")])
    );
    let node: Node<Callback> = widget(Widget::Radio, vec![], vec![]);
    assert_eq!(
        node,
        Node::Element(Element { tag: Widget::Radio, attrs: vec![], children: vec![] })
    );
}

#[test]
fn button_builder_label_comes_first() {
    let node: Node<Callback> = button(vec![value(AttribKey::Label, Value::from("late"))], "Ok");
    assert_eq!(translated(node), el(HtmlTag::Button, vec![], vec![txt("Ok")]));
}
