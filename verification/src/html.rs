//! The concrete HTML node tree.

use vstd::prelude::*;
use vstd::string::*;

verus! {

/// The tags of the elements that a translation produces.
#[derive(Clone, Copy, Debug, PartialEq, Eq, Structural)]
pub enum HtmlTag {
    Div,
    Label,
    Button,
    Img,
    P,
    Input,
    Textarea,
}

/// The names of the plain attributes that a translation sets.
#[derive(Clone, Copy, Debug, PartialEq, Eq, Structural)]
pub enum AttrName {
    Class,
    For,
    Height,
    Id,
    Src,
    Type,
    Value,
    Width,
    Checked,
}

/// The style properties that a translation sets.
#[derive(Clone, Copy, Debug, PartialEq, Eq, Structural)]
pub enum StyleProperty {
    Display,
    FlexDirection,
    Width,
    Height,
    MaxWidth,
    Position,
    UserSelect,
}

/// The native events that a callback can be bound to. The handler of a
/// `Click` hands its callback a mouse event, that of an `Input` an input
/// event.
#[derive(Clone, Copy, Debug, PartialEq, Eq, Structural)]
pub enum NativeEvent {
    Click,
    Input,
}

/// The name of a tag as it is written in markup.
pub open spec fn tag_name(tag: HtmlTag) -> Seq<char> {
    match tag {
        HtmlTag::Div => "div"@,
        HtmlTag::Label => "label"@,
        HtmlTag::Button => "button"@,
        HtmlTag::Img => "img"@,
        HtmlTag::P => "p"@,
        HtmlTag::Input => "input"@,
        HtmlTag::Textarea => "textarea"@,
    }
}

/// The name of an attribute as it is written in markup.
pub open spec fn attr_name(name: AttrName) -> Seq<char> {
    match name {
        AttrName::Class => "class"@,
        AttrName::For => "for"@,
        AttrName::Height => "height"@,
        AttrName::Id => "id"@,
        AttrName::Src => "src"@,
        AttrName::Type => "type"@,
        AttrName::Value => "value"@,
        AttrName::Width => "width"@,
        AttrName::Checked => "checked"@,
    }
}

/// The name of a style property as it is written in a style sheet.
pub open spec fn property_name(property: StyleProperty) -> Seq<char> {
    match property {
        StyleProperty::Display => "display"@,
        StyleProperty::FlexDirection => "flex-direction"@,
        StyleProperty::Width => "width"@,
        StyleProperty::Height => "height"@,
        StyleProperty::MaxWidth => "max-width"@,
        StyleProperty::Position => "position"@,
        StyleProperty::UserSelect => "user-select"@,
    }
}

/// The name of a native event.
pub open spec fn event_name(event: NativeEvent) -> Seq<char> {
    match event {
        NativeEvent::Click => "click"@,
        NativeEvent::Input => "input"@,
    }
}

impl HtmlTag {
    /// The name of the tag as it is written in markup.
    pub fn name(&self) -> (name: &'static str)
        ensures
            name@ == tag_name(*self),
    {
        match self {
            HtmlTag::Div => "div",
            HtmlTag::Label => "label",
            HtmlTag::Button => "button",
            HtmlTag::Img => "img",
            HtmlTag::P => "p",
            HtmlTag::Input => "input",
            HtmlTag::Textarea => "textarea",
        }
    }
}

impl AttrName {
    /// The name of the attribute as it is written in markup.
    pub fn name(&self) -> (name: &'static str)
        ensures
            name@ == attr_name(*self),
    {
        match self {
            AttrName::Class => "class",
            AttrName::For => "for",
            AttrName::Height => "height",
            AttrName::Id => "id",
            AttrName::Src => "src",
            AttrName::Type => "type",
            AttrName::Value => "value",
            AttrName::Width => "width",
            AttrName::Checked => "checked",
        }
    }
}

impl StyleProperty {
    /// The name of the property as it is written in a style sheet.
    pub fn name(&self) -> (name: &'static str)
        ensures
            name@ == property_name(*self),
    {
        match self {
            StyleProperty::Display => "display",
            StyleProperty::FlexDirection => "flex-direction",
            StyleProperty::Width => "width",
            StyleProperty::Height => "height",
            StyleProperty::MaxWidth => "max-width",
            StyleProperty::Position => "position",
            StyleProperty::UserSelect => "user-select",
        }
    }
}

impl NativeEvent {
    /// The name of the event.
    pub fn name(&self) -> (name: &'static str)
        ensures
            name@ == event_name(*self),
    {
        match self {
            NativeEvent::Click => "click",
            NativeEvent::Input => "input",
        }
    }
}

/// One declaration of an inline style.
#[derive(Debug, PartialEq)]
pub struct StyleDeclaration {
    pub property: StyleProperty,
    pub value: String,
}

impl View for StyleDeclaration {
    type V = (StyleProperty, Seq<char>);

    open spec fn view(&self) -> (StyleProperty, Seq<char>) {
        (self.property, self.value@)
    }
}

/// The contents of the declarations of a list, in order.
pub open spec fn declaration_views(declarations: Seq<StyleDeclaration>) -> Seq<
    (StyleProperty, Seq<char>),
> {
    Seq::new(declarations.len(), |i: int| declarations[i]@)
}

/// An attribute of an HTML element: a plain attribute, an inline style, or
/// a callback bound to a native event.
#[derive(Debug, PartialEq)]
pub enum HtmlAttribute<C> {
    Plain { name: AttrName, value: String },
    Styles(Vec<StyleDeclaration>),
    Listener { event: NativeEvent, callback: C },
}

/// The mathematical content of an [`HtmlAttribute`].
pub enum HtmlAttributeView<C> {
    Plain { name: AttrName, value: Seq<char> },
    Styles(Seq<(StyleProperty, Seq<char>)>),
    Listener { event: NativeEvent, callback: C },
}

impl<C> View for HtmlAttribute<C> {
    type V = HtmlAttributeView<C>;

    open spec fn view(&self) -> HtmlAttributeView<C> {
        match *self {
            HtmlAttribute::Plain { name, value } => HtmlAttributeView::Plain { name, value: value@ },
            HtmlAttribute::Styles(declarations) => HtmlAttributeView::Styles(
                declaration_views(declarations@),
            ),
            HtmlAttribute::Listener { event, callback } => HtmlAttributeView::Listener {
                event,
                callback,
            },
        }
    }
}

/// The contents of the attributes of a list, in order.
pub open spec fn html_attribute_views<C>(attrs: Seq<HtmlAttribute<C>>) -> Seq<
    HtmlAttributeView<C>,
> {
    Seq::new(attrs.len(), |i: int| attrs[i]@)
}

/// An HTML element.
#[derive(Debug, PartialEq)]
pub struct HtmlElement<C> {
    pub tag: HtmlTag,
    pub attrs: Vec<HtmlAttribute<C>>,
    pub children: Vec<HtmlNode<C>>,
}

/// A node of the HTML tree: an element or a text.
#[derive(Debug, PartialEq)]
pub enum HtmlNode<C> {
    Element(HtmlElement<C>),
    Text(String),
}

/// The mathematical content of an [`HtmlNode`].
pub enum HtmlNodeView<C> {
    Element { tag: HtmlTag, attrs: Seq<HtmlAttributeView<C>>, children: Seq<HtmlNodeView<C>> },
    Text(Seq<char>),
}

/// The content of `node`, with the content of each child in place of the
/// child.
pub open spec fn html_model<C>(node: HtmlNode<C>) -> HtmlNodeView<C>
    decreases node,
{
    match node {
        HtmlNode::Text(text) => HtmlNodeView::Text(text@),
        HtmlNode::Element(element) => HtmlNodeView::Element {
            tag: element.tag,
            attrs: html_attribute_views(element.attrs@),
            children: Seq::new(
                element.children@.len(),
                |i: int|
                    if 0 <= i < element.children@.len() {
                        html_model(element.children@[i])
                    } else {
                        HtmlNodeView::Text(Seq::empty())
                    },
            ),
        },
    }
}

impl<C> View for HtmlNode<C> {
    type V = HtmlNodeView<C>;

    open spec fn view(&self) -> HtmlNodeView<C> {
        html_model(*self)
    }
}

/// The contents of the nodes of a list, in order.
pub open spec fn html_views<C>(nodes: Seq<HtmlNode<C>>) -> Seq<HtmlNodeView<C>> {
    Seq::new(nodes.len(), |i: int| nodes[i]@)
}

/// `node` with `attribute` after its own attributes. A text has no
/// attributes and stays as it is.
pub open spec fn with_attribute<C>(
    node: HtmlNodeView<C>,
    attribute: HtmlAttributeView<C>,
) -> HtmlNodeView<C> {
    match node {
        HtmlNodeView::Element { tag, attrs, children } => HtmlNodeView::Element {
            tag,
            attrs: attrs.push(attribute),
            children,
        },
        HtmlNodeView::Text(text) => HtmlNodeView::Text(text),
    }
}

/// Builds one declaration of an inline style.
pub fn style(property: StyleProperty, value: &str) -> (declaration: StyleDeclaration)
    ensures
        declaration@ == (property, value@),
{
    StyleDeclaration { property, value: String::from_str(value) }
}

impl<C> HtmlAttribute<C> {
    /// Builds a plain attribute.
    pub fn plain(name: AttrName, value: String) -> (attribute: HtmlAttribute<C>)
        ensures
            attribute@ == (HtmlAttributeView::<C>::Plain { name, value: value@ }),
    {
        HtmlAttribute::Plain { name, value }
    }

    /// Builds an inline style.
    pub fn styles(declarations: Vec<StyleDeclaration>) -> (attribute: HtmlAttribute<C>)
        ensures
            attribute@ == HtmlAttributeView::<C>::Styles(declaration_views(declarations@)),
    {
        HtmlAttribute::Styles(declarations)
    }

    /// Binds `callback` to `event`.
    pub fn listener(event: NativeEvent, callback: C) -> (attribute: HtmlAttribute<C>)
        ensures
            attribute@ == (HtmlAttributeView::Listener { event, callback }),
    {
        HtmlAttribute::Listener { event, callback }
    }
}

impl<C> HtmlNode<C> {
    /// Builds an element.
    pub fn element(tag: HtmlTag, attrs: Vec<HtmlAttribute<C>>, children: Vec<HtmlNode<C>>) -> (node:
        HtmlNode<C>)
        ensures
            node@ == (HtmlNodeView::Element {
                tag,
                attrs: html_attribute_views(attrs@),
                children: html_views(children@),
            }),
    {
        let node = HtmlNode::Element(HtmlElement { tag, attrs, children });
        assert(node@->children =~= html_views(children@));
        node
    }

    /// Builds a text.
    pub fn text(text: String) -> (node: HtmlNode<C>)
        ensures
            node@ == HtmlNodeView::<C>::Text(text@),
    {
        HtmlNode::Text(text)
    }

    /// Puts `attribute` after the attributes of an element. A text stays as
    /// it is.
    pub fn add_attribute(self, attribute: HtmlAttribute<C>) -> (node: HtmlNode<C>)
        ensures
            node@ == with_attribute(self@, attribute@),
    {
        match self {
            HtmlNode::Element(element) => {
                let HtmlElement { tag, attrs, children } = element;
                let ghost before = html_attribute_views(attrs@);
                let mut attrs = attrs;
                attrs.push(attribute);
                let node = HtmlNode::element(tag, attrs, children);
                assert(node@->attrs =~= before.push(attribute@));
                assert(self@->children =~= html_views(children@));
                node
            },
            HtmlNode::Text(text) => HtmlNode::Text(text),
        }
    }
}

} // verus!
