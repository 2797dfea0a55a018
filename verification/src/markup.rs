//! The markup of a rendered icon, as plain values: a `span` that holds an `svg`, which holds
//! a description and one `path` per entry of the icon's path data. Each element can list
//! its attributes by name, as they are written into the page.
use vstd::prelude::*;
use yew::{Callback, MouseEvent};
use crate::text::text_of;

verus! {

/// The tag of the element that wraps an icon.
pub const SPAN_TAG: &'static str = "span";

/// The tag of the drawing.
pub const SVG_TAG: &'static str = "svg";

/// The tag of the description inside the drawing.
pub const DESC_TAG: &'static str = "desc";

/// The tag of each path of the drawing.
pub const PATH_TAG: &'static str = "path";

/// The value of an attribute.
#[derive(Clone, Debug, PartialEq)]
pub enum AttributeValue {
    /// A text, written as it is.
    Text(String),
    /// A whole number, written in decimal.
    Number(i32),
}

/// What an [`AttributeValue`] says.
pub enum ValueView {
    Text(Seq<char>),
    Number(i32),
}

impl View for AttributeValue {
    type V = ValueView;

    open spec fn view(&self) -> ValueView {
        match self {
            AttributeValue::Text(text) => ValueView::Text(text@),
            AttributeValue::Number(number) => ValueView::Number(*number),
        }
    }
}

/// One attribute of an element.
#[derive(Clone, Debug, PartialEq)]
pub struct Attribute {
    pub name: &'static str,
    pub value: AttributeValue,
}

/// What an [`Attribute`] says.
pub struct AttributeView {
    pub name: Seq<char>,
    pub value: ValueView,
}

impl View for Attribute {
    type V = AttributeView;

    open spec fn view(&self) -> AttributeView {
        AttributeView { name: self.name@, value: self.value@ }
    }
}

/// What a list of attributes says, entry by entry.
pub open spec fn attribute_views(list: Seq<Attribute>) -> Seq<AttributeView> {
    Seq::new(list.len(), |i: int| list[i]@)
}

/// Whether `list` has an attribute of the given name.
pub open spec fn has_attribute(list: Seq<AttributeView>, name: Seq<char>) -> bool {
    exists|i: int| 0 <= i < list.len() && (#[trigger] list[i]).name == name
}

/// The attribute `name` with a text for its value.
pub open spec fn text_attribute(name: Seq<char>, value: Seq<char>) -> AttributeView {
    AttributeView { name, value: ValueView::Text(value) }
}

/// The attribute `name` with a number for its value.
pub open spec fn number_attribute(name: Seq<char>, value: i32) -> AttributeView {
    AttributeView { name, value: ValueView::Number(value) }
}

/// A `path` element.
#[derive(Clone, Copy, Debug, PartialEq)]
pub struct PathElement {
    /// The `d` attribute: the path data.
    pub d: &'static str,
    /// The `fill-rule` attribute.
    pub fill_rule: &'static str,
}

/// What a [`PathElement`] says.
pub struct PathView {
    pub d: Seq<char>,
    pub fill_rule: Seq<char>,
}

impl View for PathElement {
    type V = PathView;

    open spec fn view(&self) -> PathView {
        PathView { d: self.d@, fill_rule: self.fill_rule@ }
    }
}

/// What a list of `path` elements says, entry by entry.
pub open spec fn path_views(paths: Seq<PathElement>) -> Seq<PathView> {
    Seq::new(paths.len(), |i: int| paths[i]@)
}

/// The attributes of a `path`: its data and its fill rule.
pub open spec fn path_attributes(path: PathView) -> Seq<AttributeView> {
    seq![text_attribute("d"@, path.d), text_attribute("fill-rule"@, path.fill_rule)]
}

impl PathElement {
    /// The attributes of the element.
    pub fn attributes(&self) -> (list: Vec<Attribute>)
        ensures
            attribute_views(list@) == path_attributes(self@),
    {
        let list = vec![
            Attribute { name: "d", value: AttributeValue::Text(self.d.to_owned()) },
            Attribute { name: "fill-rule", value: AttributeValue::Text(self.fill_rule.to_owned()) },
        ];
        list
    }
}

/// The `svg` element of an icon.
#[derive(Clone, Debug, PartialEq)]
pub struct Svg {
    /// The `fill` attribute; the element has none where this is `None`.
    pub fill: Option<String>,
    /// The `data-icon` attribute.
    pub data_icon: &'static str,
    /// The `width` attribute, in pixels.
    pub width: i32,
    /// The `height` attribute, in pixels.
    pub height: i32,
    /// The `viewBox` attribute.
    pub view_box: &'static str,
    /// The text of the `desc` child, which comes first.
    pub desc: String,
    /// The `path` children, in drawing order, after the description.
    pub paths: Vec<PathElement>,
}

/// What an [`Svg`] says.
pub struct SvgView {
    pub fill: Option<Seq<char>>,
    pub data_icon: Seq<char>,
    pub width: i32,
    pub height: i32,
    pub view_box: Seq<char>,
    pub desc: Seq<char>,
    pub paths: Seq<PathView>,
}

impl View for Svg {
    type V = SvgView;

    open spec fn view(&self) -> SvgView {
        SvgView {
            fill: text_of(self.fill),
            data_icon: self.data_icon@,
            width: self.width,
            height: self.height,
            view_box: self.view_box@,
            desc: self.desc@,
            paths: path_views(self.paths@),
        }
    }
}

/// The `fill` attribute of an `svg`, if it has one.
pub open spec fn fill_attribute(fill: Option<Seq<char>>) -> Seq<AttributeView> {
    match fill {
        Some(color) => seq![text_attribute("fill"@, color)],
        None => Seq::empty(),
    }
}

/// The attributes of an `svg`: `fill` where there is one, then the name of the icon, width,
/// height and `viewBox`.
pub open spec fn svg_attributes(svg: SvgView) -> Seq<AttributeView> {
    fill_attribute(svg.fill) + seq![
        text_attribute("data-icon"@, svg.data_icon),
        number_attribute("width"@, svg.width),
        number_attribute("height"@, svg.height),
        text_attribute("viewBox"@, svg.view_box),
    ]
}

/// An `svg` has a `fill` attribute exactly where it has a fill, and always the other four.
pub proof fn lemma_svg_attribute_names(svg: SvgView)
    ensures
        has_attribute(svg_attributes(svg), "fill"@) <==> svg.fill is Some,
        has_attribute(svg_attributes(svg), "data-icon"@),
        has_attribute(svg_attributes(svg), "width"@),
        has_attribute(svg_attributes(svg), "height"@),
        has_attribute(svg_attributes(svg), "viewBox"@),
{
    reveal_strlit("fill");
    reveal_strlit("data-icon");
    reveal_strlit("width");
    reveal_strlit("height");
    reveal_strlit("viewBox");
    let list = svg_attributes(svg);
    let shift = fill_attribute(svg.fill).len() as int;
    assert(list[shift].name == "data-icon"@);
    assert(list[shift + 1].name == "width"@);
    assert(list[shift + 2].name == "height"@);
    assert(list[shift + 3].name == "viewBox"@);
    if svg.fill is Some {
        assert(list[0].name == "fill"@);
    }
}

impl Svg {
    /// The attributes of the element.
    pub fn attributes(&self) -> (list: Vec<Attribute>)
        ensures
            attribute_views(list@) == svg_attributes(self@),
    {
        let mut list: Vec<Attribute> = Vec::new();
        match &self.fill {
            Some(color) => {
                list.push(Attribute { name: "fill", value: AttributeValue::Text(color.clone()) });
            },
            None => {},
        }
        list.push(
            Attribute { name: "data-icon", value: AttributeValue::Text(self.data_icon.to_owned()) },
        );
        list.push(Attribute { name: "width", value: AttributeValue::Number(self.width) });
        list.push(Attribute { name: "height", value: AttributeValue::Number(self.height) });
        list.push(
            Attribute { name: "viewBox", value: AttributeValue::Text(self.view_box.to_owned()) },
        );
        list
    }
}

/// The `span` element that wraps an icon.
#[derive(Clone, Debug, PartialEq)]
pub struct Span {
    /// The `class` attribute.
    pub class: String,
    /// The click handler; the element has none where this is `None`.
    pub onclick: Option<Callback<MouseEvent>>,
    /// The one child.
    pub svg: Svg,
}

/// What a [`Span`] says.
pub struct SpanView {
    pub class: Seq<char>,
    pub onclick: Option<Callback<MouseEvent>>,
    pub svg: SvgView,
}

impl View for Span {
    type V = SpanView;

    open spec fn view(&self) -> SpanView {
        SpanView { class: self.class@, onclick: self.onclick, svg: self.svg@ }
    }
}

/// The attributes of a `span`: its class.
pub open spec fn span_attributes(span: SpanView) -> Seq<AttributeView> {
    seq![text_attribute("class"@, span.class)]
}

impl Span {
    /// The attributes of the element. The click handler is no attribute: it stands in
    /// `onclick`.
    pub fn attributes(&self) -> (list: Vec<Attribute>)
        ensures
            attribute_views(list@) == span_attributes(self@),
    {
        vec![Attribute { name: "class", value: AttributeValue::Text(self.class.clone()) }]
    }
}

} // verus!
