//! How the properties of an icon become markup: which grid and which path data an icon of a
//! given size uses, how its class list is put together, and what each attribute says.
use vstd::prelude::*;
use crate::classes::{
    class_tokens, classes_extend, classes_from, classes_push, classes_to_string,
    lemma_with_tokens, lemma_with_tokens_nested, no_token_twice, with_tokens,
};
use crate::icon::{PropsView, SIZE_LARGE, SIZE_STANDARD};
use crate::icons::{icon_paths_16, icon_paths_20, paths_for_16, paths_for_20, texts_of, IconName};
use crate::intent::Intent;
use crate::markup::{
    has_attribute, lemma_svg_attribute_names, path_views, svg_attributes, text_attribute,
    PathElement, PathView, SpanView, SvgView,
};
use crate::text::{
    all_tokens, decimal_text, is_token, join_with_space, lemma_split_gives_tokens,
    lemma_split_join, lemma_split_one_token, split_whitespace, text_of,
};

verus! {

/// The class that every icon carries.
pub const BASE_CLASS: &'static str = "bp3-icon";

/// The fill rule of every path of an icon.
pub const FILL_RULE: &'static str = "evenodd";

/// The side of the coordinate system that an icon of the given pixel size is laid out in.
pub open spec fn grid_side(icon_size: i32) -> i32 {
    if icon_size >= SIZE_LARGE {
        SIZE_LARGE
    } else {
        SIZE_STANDARD
    }
}

/// The path data that draws `icon` at the given pixel size: the 16-pixel art at exactly the
/// standard size, the 20-pixel art at every other size.
pub open spec fn chosen_paths(icon: IconName, icon_size: i32) -> Seq<Seq<char>> {
    if icon_size == SIZE_STANDARD {
        icon_paths_16(icon)
    } else {
        icon_paths_20(icon)
    }
}

/// The `viewBox` of a square coordinate system of the given side, with its origin at zero.
pub open spec fn view_box_text(side: nat) -> Seq<char> {
    "0 0 "@ + decimal_text(side) + " "@ + decimal_text(side)
}

/// The class tokens that an intent adds.
pub open spec fn intent_tokens(intent: Option<Intent>) -> Seq<Seq<char>> {
    match intent {
        Some(intent) => seq![intent.class_text()],
        None => Seq::empty(),
    }
}

/// The class list of an icon: the base class, then the tokens of `class`, then the class of
/// the intent, each token once, at the place where it first came.
pub open spec fn icon_classes(class: Seq<char>, intent: Option<Intent>) -> Seq<Seq<char>> {
    with_tokens(with_tokens(seq![BASE_CLASS@], split_whitespace(class)), intent_tokens(intent))
}

/// The description of an icon: its title, or its name where it has no title.
pub open spec fn description_text(title: Option<Seq<char>>, icon: IconName) -> Seq<char> {
    match title {
        Some(title) => title,
        None => icon.label(),
    }
}

/// The `path` elements that draw the given path data.
pub open spec fn path_elements(data: Seq<Seq<char>>) -> Seq<PathView> {
    Seq::new(data.len(), |i: int| PathView { d: data[i], fill_rule: FILL_RULE@ })
}

/// The markup of an icon with the given properties.
pub open spec fn rendered(props: PropsView) -> SpanView {
    SpanView {
        class: join_with_space(icon_classes(props.class, props.intent)),
        onclick: props.onclick,
        svg: SvgView {
            fill: props.color,
            data_icon: props.icon.label(),
            width: props.icon_size,
            height: props.icon_size,
            view_box: view_box_text(grid_side(props.icon_size) as nat),
            desc: description_text(props.title, props.icon),
            paths: path_elements(chosen_paths(props.icon, props.icon_size)),
        },
    }
}

/// The `viewBox` of each grid, written out.
pub proof fn lemma_view_box_texts()
    ensures
        view_box_text(16) == "0 0 16 16"@,
        view_box_text(20) == "0 0 20 20"@,
{
    reveal_strlit("0 0 ");
    reveal_strlit(" ");
    reveal_strlit("0 0 16 16");
    reveal_strlit("0 0 20 20");
    reveal_with_fuel(decimal_text, 2);
}

/// The base class is one token.
pub proof fn lemma_base_class_is_token()
    ensures
        is_token(BASE_CLASS@),
{
    reveal_strlit("bp3-icon");
}

/// Every entry of the class list of an icon is a token: not empty, free of white space.
pub proof fn lemma_icon_classes_are_tokens(class: Seq<char>, intent: Option<Intent>)
    ensures
        all_tokens(icon_classes(class, intent)),
{
    let base = seq![BASE_CLASS@];
    let given = split_whitespace(class);
    let list = icon_classes(class, intent);
    lemma_base_class_is_token();
    lemma_split_gives_tokens(class);
    lemma_with_tokens(base, given);
    lemma_with_tokens(with_tokens(base, given), intent_tokens(intent));
    assert forall|i: int| 0 <= i < list.len() implies is_token(#[trigger] list[i]) by {
        let t = list[i];
        assert(list.contains(t));
        if intent_tokens(intent).contains(t) {
            let added = intent->Some_0;
            added.lemma_class_is_token();
            assert(t == added.class_text());
        } else if given.contains(t) {
            let k = choose|k: int| 0 <= k < given.len() && given[k] == t;
            assert(is_token(given[k]));
        } else {
            assert(base.contains(t));
            assert(t == base[0]);
        }
    }
}

/// The grid of a rendered icon: its `viewBox` is that of the 20-pixel grid exactly where
/// the size asked for is 20 pixels or more, and that of the 16-pixel grid at all other
/// sizes. Width and height are the size asked for, whichever grid that is.
pub proof fn lemma_grid_selection(props: PropsView)
    ensures
        grid_side(props.icon_size) == 20 <==> props.icon_size >= 20,
        grid_side(props.icon_size) == 16 <==> props.icon_size < 20,
        props.icon_size >= 20 ==> rendered(props).svg.view_box == "0 0 20 20"@,
        props.icon_size < 20 ==> rendered(props).svg.view_box == "0 0 16 16"@,
        rendered(props).svg.width == props.icon_size,
        rendered(props).svg.height == props.icon_size,
{
    lemma_view_box_texts();
}

/// The paths of a rendered icon: as many as the chosen art has entries, each with the path
/// data of the entry at its place and the even-odd fill rule. The art is that of the
/// 16-pixel grid exactly where the size asked for is 16, else that of the 20-pixel grid.
pub proof fn lemma_path_source(props: PropsView)
    ensures
        ({
            let art = if props.icon_size == 16 {
                icon_paths_16(props.icon)
            } else {
                icon_paths_20(props.icon)
            };
            let paths = rendered(props).svg.paths;
            &&& paths.len() == art.len()
            &&& forall|i: int|
                0 <= i < art.len() ==> (#[trigger] paths[i]).d == art[i] && paths[i].fill_rule
                    == "evenodd"@
        }),
{
}

/// The blank icon has no path on either grid, so it renders without a `path`.
pub proof fn lemma_blank_is_empty(props: PropsView)
    ensures
        icon_paths_16(IconName::Blank).len() == 0,
        icon_paths_20(IconName::Blank).len() == 0,
        props.icon == IconName::Blank ==> rendered(props).svg.paths.len() == 0,
{
}

/// Optional attributes: the `svg` has a `fill` attribute exactly where a colour is given,
/// and its value is that colour; the `span` has a click handler exactly where one is given,
/// and it is that handler.
pub proof fn lemma_attribute_presence(props: PropsView)
    ensures
        has_attribute(svg_attributes(rendered(props).svg), "fill"@) <==> props.color is Some,
        props.color matches Some(color) ==> svg_attributes(rendered(props).svg)[0]
            == text_attribute("fill"@, color),
        rendered(props).svg.fill == props.color,
        rendered(props).onclick is Some <==> props.onclick is Some,
        rendered(props).onclick == props.onclick,
{
    lemma_svg_attribute_names(rendered(props).svg);
}

/// The description of a rendered icon is the title where one is given, else the name of
/// the icon; the `data-icon` attribute is the name of the icon in either case.
pub proof fn lemma_description_fallback(props: PropsView)
    ensures
        props.title matches Some(title) ==> rendered(props).svg.desc == title,
        props.title is None ==> rendered(props).svg.desc == props.icon.label(),
        rendered(props).svg.data_icon == props.icon.label(),
{
}

/// The class list of a rendered icon, read back from its `class` attribute, is the base
/// class first, then the tokens of the class text given, then the class of the intent.
/// It holds each of them, each as it was given, none twice, and nothing else.
pub proof fn lemma_class_composition(props: PropsView)
    ensures
        ({
            let list = split_whitespace(rendered(props).class);
            let given = split_whitespace(props.class);
            &&& list == icon_classes(props.class, props.intent)
            &&& list.len() > 0 && list[0] == BASE_CLASS@
            &&& list.contains(BASE_CLASS@)
            &&& forall|t: Seq<char>| given.contains(t) ==> list.contains(t)
            &&& props.intent matches Some(intent) ==> list.contains(intent.class_text())
            &&& forall|t: Seq<char>| #[trigger]
                list.contains(t) ==> t == BASE_CLASS@ || given.contains(t) || intent_tokens(
                    props.intent,
                ).contains(t)
            &&& no_token_twice(list)
        }),
{
    let base = seq![BASE_CLASS@];
    let given = split_whitespace(props.class);
    let added = intent_tokens(props.intent);
    let inner = with_tokens(base, given);
    let list = icon_classes(props.class, props.intent);
    lemma_icon_classes_are_tokens(props.class, props.intent);
    lemma_split_join(list);
    lemma_with_tokens(base, given);
    lemma_with_tokens(inner, added);
    assert(list[0] == BASE_CLASS@) by {
        assert(inner.take(1)[0] == base[0]);
        assert(list.take(inner.len() as int)[0] == inner[0]);
    }
    assert forall|t: Seq<char>| given.contains(t) implies list.contains(t) by {
        assert(inner.contains(t));
        let k = choose|k: int| 0 <= k < inner.len() && inner[k] == t;
        assert(list.take(inner.len() as int)[k] == t);
        assert(list[k] == t);
    }
    if let Some(intent) = props.intent {
        assert(added[0] == intent.class_text());
        assert(added.contains(intent.class_text()));
    }
    assert forall|t: Seq<char>| #[trigger] list.contains(t) implies t == BASE_CLASS@
        || given.contains(t) || added.contains(t) by {
        if inner.contains(t) && !given.contains(t) {
            assert(base.contains(t));
            assert(t == base[0]);
        }
    }
    assert(no_token_twice(base));
}

/// Rendering depends on the properties alone: equal properties give equal markup.
pub proof fn lemma_render_is_pure(a: PropsView, b: PropsView)
    requires
        a == b,
    ensures
        rendered(a) == rendered(b),
{
}

/// The side of the coordinate system for an icon of `icon_size` pixels: 20 from 20 pixels
/// on, else 16.
pub fn pixel_grid_size(icon_size: i32) -> (side: i32)
    ensures
        side == grid_side(icon_size),
{
    if icon_size >= SIZE_LARGE {
        SIZE_LARGE
    } else {
        SIZE_STANDARD
    }
}

/// The `viewBox` attribute for an icon of `icon_size` pixels.
pub fn view_box(icon_size: i32) -> (text: &'static str)
    ensures
        text@ == view_box_text(grid_side(icon_size) as nat),
{
    proof {
        lemma_view_box_texts();
    }
    if pixel_grid_size(icon_size) == SIZE_LARGE {
        "0 0 20 20"
    } else {
        "0 0 16 16"
    }
}

/// The path data that draws `icon` at `icon_size` pixels.
pub fn select_paths(icon: IconName, icon_size: i32) -> (paths: Vec<&'static str>)
    ensures
        texts_of(paths@) == chosen_paths(icon, icon_size),
{
    if icon_size == SIZE_STANDARD {
        paths_for_16(icon)
    } else {
        paths_for_20(icon)
    }
}

/// The `class` attribute of an icon: the tokens of its class list with single spaces
/// between them.
pub fn class_attribute(class: &str, intent: Option<Intent>) -> (text: String)
    ensures
        text@ == join_with_space(icon_classes(class@, intent)),
{
    let mut list = classes_from(BASE_CLASS);
    proof {
        reveal_strlit("bp3-icon");
        lemma_split_one_token(BASE_CLASS@);
        assert(class_tokens(list) =~= seq![BASE_CLASS@]) by {
            reveal_with_fuel(with_tokens, 2);
        }
    }
    classes_push(&mut list, class);
    proof {
        lemma_with_tokens_nested(seq![BASE_CLASS@], Seq::empty(), split_whitespace(class@));
    }
    let list = match intent {
        Some(intent) => {
            let added = classes_from(intent.class_name());
            proof {
                intent.lemma_class_is_token();
                lemma_split_one_token(intent.class_text());
                assert(class_tokens(added) =~= seq![intent.class_text()]) by {
                    reveal_with_fuel(with_tokens, 2);
                }
            }
            classes_extend(list, added)
        },
        None => list,
    };
    classes_to_string(&list)
}

/// The description of an icon: `title` if there is one, else the name of the icon.
pub fn description(title: &Option<String>, icon: IconName) -> (text: String)
    ensures
        text@ == description_text(text_of(*title), icon),
{
    match title {
        Some(title) => title.clone(),
        None => icon.name().to_owned(),
    }
}

/// The `path` elements that draw the given path data, in the same order.
pub fn draw_paths(data: Vec<&'static str>) -> (paths: Vec<PathElement>)
    ensures
        path_views(paths@) == path_elements(texts_of(data@)),
{
    let mut paths: Vec<PathElement> = Vec::new();
    let mut i: usize = 0;
    while i < data.len()
        invariant
            i <= data.len(),
            paths@.len() == i,
            forall|k: int|
                0 <= k < i ==> (#[trigger] paths@[k])@ == (PathView {
                    d: data@[k]@,
                    fill_rule: FILL_RULE@,
                }),
        decreases data.len() - i,
    {
        paths.push(PathElement { d: data[i], fill_rule: FILL_RULE });
        i = i + 1;
    }
    assert(path_views(paths@) =~= path_elements(texts_of(data@)));
    paths
}

} // verus!
