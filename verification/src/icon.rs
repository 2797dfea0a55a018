//! The icon widget: its properties, and how they become markup.
use vstd::prelude::*;
use yew::{Callback, MouseEvent};
use crate::handler::{clone_handler, same_handler};
use crate::icons::IconName;
use crate::intent::Intent;
use crate::markup::{Span, Svg};
use crate::text::text_of;
use crate::render::{
    class_attribute, description, draw_paths, rendered, select_paths, view_box,
};

verus! {

/// The pixel size at which an icon is drawn from its 16-pixel art.
pub const SIZE_STANDARD: i32 = 16;

/// The pixel size from which on an icon is laid out on the 20-pixel grid.
pub const SIZE_LARGE: i32 = 20;

/// What an icon is asked to show.
#[derive(Clone, Debug, PartialEq)]
pub struct Props {
    /// Which icon to draw.
    pub icon: IconName,
    /// Further class names, as written by the caller.
    pub class: String,
    /// A description for readers who cannot see the icon; the icon's name stands in where
    /// there is none.
    pub title: Option<String>,
    /// The fill colour; left to the style sheet where there is none.
    pub color: Option<String>,
    /// A styling intent, which adds its class.
    pub intent: Option<Intent>,
    /// The width and height of the icon, in pixels.
    pub icon_size: i32,
    /// What to call when the icon is clicked.
    pub onclick: Option<Callback<MouseEvent>>,
}

/// What a [`Props`] says.
pub struct PropsView {
    pub icon: IconName,
    pub class: Seq<char>,
    pub title: Option<Seq<char>>,
    pub color: Option<Seq<char>>,
    pub intent: Option<Intent>,
    pub icon_size: i32,
    pub onclick: Option<Callback<MouseEvent>>,
}

impl View for Props {
    type V = PropsView;

    open spec fn view(&self) -> PropsView {
        PropsView {
            icon: self.icon,
            class: self.class@,
            title: text_of(self.title),
            color: text_of(self.color),
            intent: self.intent,
            icon_size: self.icon_size,
            onclick: self.onclick,
        }
    }
}

/// The properties of `icon` with every other setting left at its default.
pub open spec fn default_props(icon: IconName) -> PropsView {
    PropsView {
        icon,
        class: Seq::empty(),
        title: None,
        color: None,
        intent: None,
        icon_size: SIZE_STANDARD,
        onclick: None,
    }
}

/// Whether two sets of properties hold the same settings, the click handler aside.
pub open spec fn settings_agree(a: PropsView, b: PropsView) -> bool {
    &&& a.icon == b.icon
    &&& a.class == b.class
    &&& a.title == b.title
    &&& a.color == b.color
    &&& a.intent == b.intent
    &&& a.icon_size == b.icon_size
}

/// Whether two sets of properties are equal, where `handlers_same` tells whether their
/// click handlers are one and the same; it counts only where both have a handler.
pub open spec fn props_agree(a: PropsView, b: PropsView, handlers_same: bool) -> bool {
    &&& settings_agree(a, b)
    &&& match (a.onclick, b.onclick) {
        (None, None) => true,
        (Some(_), Some(_)) => handlers_same,
        _ => false,
    }
}

/// Whether two optional texts are both absent or hold the same text.
fn same_text(a: &Option<String>, b: &Option<String>) -> (same: bool)
    ensures
        same == (text_of(*a) == text_of(*b)),
{
    match (a, b) {
        (Some(a), Some(b)) => *a == *b,
        (None, None) => true,
        _ => false,
    }
}

/// Whether two optional intents are both absent or the same intent.
fn same_intent(a: Option<Intent>, b: Option<Intent>) -> (same: bool)
    ensures
        same == (a == b),
{
    match (a, b) {
        (Some(a), Some(b)) => a == b,
        (None, None) => true,
        _ => false,
    }
}

impl Props {
    /// The properties of `icon` with every other setting at its default: no further class,
    /// title, colour, intent or click handler, and the standard size.
    pub fn new(icon: IconName) -> (props: Props)
        ensures
            props@ == default_props(icon),
    {
        Props {
            icon,
            class: String::new(),
            title: None,
            color: None,
            intent: None,
            icon_size: SIZE_STANDARD,
            onclick: None,
        }
    }

    /// Whether `self` and `other` are equal, given in `handlers_same` whether their click
    /// handlers are one and the same.
    pub fn same_as(&self, other: &Props, handlers_same: bool) -> (same: bool)
        ensures
            same == props_agree(self@, other@, handlers_same),
    {
        let handlers = match (&self.onclick, &other.onclick) {
            (None, None) => true,
            (Some(_), Some(_)) => handlers_same,
            _ => false,
        };
        self.icon == other.icon && self.class == other.class && same_text(
            &self.title,
            &other.title,
        ) && same_text(&self.color, &other.color) && same_intent(self.intent, other.intent)
            && self.icon_size == other.icon_size && handlers
    }
}

impl Default for Props {
    /// The properties of the blank icon with every setting at its default.
    fn default() -> (props: Props)
        ensures
            props@ == default_props(IconName::Blank),
    {
        Props::new(IconName::Blank)
    }
}

/// The icon widget. It keeps the properties it was last given and renders from them alone.
pub struct Icon {
    props: Props,
}

impl Icon {
    /// What the properties at hand say.
    pub closed spec fn settings(&self) -> PropsView {
        self.props@
    }

    /// A widget that shows `props`.
    pub fn create(props: Props) -> (icon: Icon)
        ensures
            icon.settings() == props@,
    {
        Icon { props }
    }

    /// The properties that the widget shows.
    pub fn props(&self) -> (props: &Props)
        ensures
            props@ == self.settings(),
    {
        &self.props
    }

    /// Takes a message. The widget has none of its own: it stays as it is and asks to be
    /// rendered again.
    pub fn update(&mut self, _msg: ()) -> (render: bool)
        ensures
            render,
            final(self).settings() == old(self).settings(),
    {
        true
    }

    /// Takes new properties, told in `handlers_same` whether their click handler and the one
    /// at hand are one and the same. Where the new properties differ from those at hand the
    /// widget keeps the new ones and asks to be rendered again; where they are equal it
    /// stays as it is.
    pub fn apply_change(&mut self, props: Props, handlers_same: bool) -> (render: bool)
        ensures
            render == !props_agree(old(self).settings(), props@, handlers_same),
            render ==> final(self).settings() == props@,
            !render ==> final(self).settings() == old(self).settings(),
    {
        if self.props.same_as(&props, handlers_same) {
            false
        } else {
            self.props = props;
            true
        }
    }

    /// Takes new properties. Where they differ from those at hand the widget keeps the new
    /// ones and asks to be rendered again; where they are equal it stays as it is.
    ///
    /// Every setting but the click handler is compared by its value. Two click handlers
    /// are equal only if they are one and the same callback, which the host framework
    /// decides: with a handler on both sides and all else equal, the answer is its answer.
    pub fn change(&mut self, props: Props) -> (render: bool)
        ensures
            exists|handlers_same: bool|
                render == !#[trigger] props_agree(old(self).settings(), props@, handlers_same),
            render ==> final(self).settings() == props@,
            !render ==> final(self).settings() == old(self).settings(),
    {
        let handlers_same = match (&self.props.onclick, &props.onclick) {
            (Some(held), Some(given)) => same_handler(held, given),
            _ => true,
        };
        self.apply_change(props, handlers_same)
    }

    /// The markup of the icon.
    pub fn view(&self) -> (span: Span)
        ensures
            span@ == rendered(self.settings()),
    {
        let props = &self.props;
        let class = class_attribute(props.class.as_str(), props.intent);
        let paths = draw_paths(select_paths(props.icon, props.icon_size));
        let fill = match &props.color {
            Some(color) => Some(color.clone()),
            None => None,
        };
        let onclick = match &props.onclick {
            Some(handler) => Some(clone_handler(handler)),
            None => None,
        };
        let svg = Svg {
            fill,
            data_icon: props.icon.name(),
            width: props.icon_size,
            height: props.icon_size,
            view_box: view_box(props.icon_size),
            desc: description(&props.title, props.icon),
            paths,
        };
        Span { class, onclick, svg }
    }
}

/// A sample for the documentation: a block that shows one icon.
pub struct IconDoc {}

impl IconDoc {
    /// The sample. It has no properties.
    pub fn create(_props: ()) -> (doc: IconDoc)
        ensures
            doc == (IconDoc {  }),
    {
        IconDoc {  }
    }

    /// Takes a message; the sample always asks to be rendered again.
    pub fn update(&mut self, _msg: ()) -> (render: bool)
        ensures
            render,
    {
        true
    }

    /// Takes new properties; the sample always asks to be rendered again.
    pub fn change(&mut self, _props: ()) -> (render: bool)
        ensures
            render,
    {
        true
    }

    /// What the sample shows inside its block: the print icon, every other setting at its
    /// default.
    pub fn view(&self) -> (shown: Props)
        ensures
            shown@ == default_props(IconName::Print),
    {
        Props::new(IconName::Print)
    }
}

} // verus!
