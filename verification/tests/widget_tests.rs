use blueprint_icon::icon::{Icon, IconDoc, Props};
use blueprint_icon::icons::{paths_for_16, paths_for_20, IconName};
use blueprint_icon::intent::Intent;
use yew::{Callback, MouseEvent};

fn all_icons() -> Vec<IconName> {
    vec![
        IconName::Blank,
        IconName::Add,
        IconName::Minus,
        IconName::Cross,
        IconName::Tick,
        IconName::ChevronUp,
        IconName::ChevronDown,
        IconName::ChevronLeft,
        IconName::ChevronRight,
        IconName::Menu,
        IconName::Print,
        IconName::Play,
        IconName::Pause,
        IconName::Stop,
        IconName::Document,
        IconName::FullCircle,
    ]
}

#[test]
fn default_icon_is_blank() {
    assert_eq!(IconName::default(), IconName::Blank);
}

#[test]
fn default_props_show_the_blank_icon_at_16() {
    let props = Props::default();
    assert_eq!(props.icon, IconName::Blank);
    assert_eq!(props.class, "");
    assert_eq!(props.title, None);
    assert_eq!(props.color, None);
    assert_eq!(props.intent, None);
    assert_eq!(props.icon_size, 16);
    assert!(props.onclick.is_none());
    assert_eq!(props, Props::new(IconName::Blank));
}

#[test]
fn new_props_name_the_icon_and_leave_the_rest() {
    let props = Props::new(IconName::Tick);
    assert_eq!(props.icon, IconName::Tick);
    assert_eq!(props.class, "");
    assert_eq!(props.title, None);
    assert_eq!(props.color, None);
    assert_eq!(props.intent, None);
    assert_eq!(props.icon_size, 16);
    assert!(props.onclick.is_none());
}

#[test]
fn blank_is_empty_on_both_grids() {
    assert!(paths_for_16(IconName::Blank).is_empty());
    assert!(paths_for_20(IconName::Blank).is_empty());
}

#[test]
fn every_other_icon_has_art_on_both_grids() {
    for icon in all_icons() {
        if icon != IconName::Blank {
            assert!(!paths_for_16(icon).is_empty());
            assert!(!paths_for_20(icon).is_empty());
            assert_eq!(paths_for_16(icon).len(), paths_for_20(icon).len());
            for path in paths_for_16(icon).into_iter().chain(paths_for_20(icon)) {
                assert!(path.starts_with('M'));
                assert!(path.ends_with('z'));
            }
        }
    }
}

#[test]
fn path_data_comes_in_drawing_order() {
    assert_eq!(
        paths_for_16(IconName::Menu),
        vec!["M1 3h14v2H1z", "M1 7h14v2H1z", "M1 11h14v2H1z"]
    );
    assert_eq!(
        paths_for_20(IconName::Menu),
        vec!["M1 4h18v2H1z", "M1 9h18v2H1z", "M1 14h18v2H1z"]
    );
    assert_eq!(paths_for_16(IconName::Pause), vec!["M3 2h4v12H3z", "M9 2h4v12H9z"]);
    assert_eq!(paths_for_20(IconName::Stop), vec!["M4 4h12v12H4z"]);
}

#[test]
fn name_is_the_spelling_of_the_variant() {
    for icon in all_icons() {
        assert_eq!(icon.name(), format!("{:?}", icon));
    }
    assert_eq!(IconName::Print.name(), "Print");
    assert_eq!(IconName::ChevronRight.name(), "ChevronRight");
    assert_eq!(IconName::FullCircle.name(), "FullCircle");
}

#[test]
fn names_differ_from_icon_to_icon() {
    let icons = all_icons();
    for (i, a) in icons.iter().enumerate() {
        for b in icons.iter().skip(i + 1) {
            assert_ne!(a.name(), b.name());
        }
    }
}

#[test]
fn intent_class_names() {
    assert_eq!(Intent::Primary.class_name(), "bp3-intent-primary");
    assert_eq!(Intent::Success.class_name(), "bp3-intent-success");
    assert_eq!(Intent::Warning.class_name(), "bp3-intent-warning");
    assert_eq!(Intent::Danger.class_name(), "bp3-intent-danger");
}

#[test]
fn create_keeps_the_props() {
    let mut props = Props::new(IconName::Cross);
    props.class = String::from("close");
    props.icon_size = 20;
    let icon = Icon::create(props.clone());
    assert_eq!(*icon.props(), props);
}

#[test]
fn update_asks_for_a_render_and_keeps_the_props() {
    let props = Props::new(IconName::Add);
    let mut icon = Icon::create(props.clone());
    assert!(icon.update(()));
    assert_eq!(*icon.props(), props);
}

#[test]
fn change_with_equal_props_asks_for_nothing() {
    let mut props = Props::new(IconName::Print);
    props.class = String::from("mr-2");
    props.title = Some(String::from("Print job"));
    props.color = Some(String::from("red"));
    props.intent = Some(Intent::Danger);
    props.icon_size = 20;
    let mut icon = Icon::create(props.clone());
    assert!(!icon.change(props.clone()));
    assert_eq!(*icon.props(), props);
}

#[test]
fn change_in_any_setting_asks_for_a_render() {
    let base = Props::new(IconName::Print);

    let mut other = base.clone();
    other.icon = IconName::Tick;
    let mut icon = Icon::create(base.clone());
    assert!(icon.change(other.clone()));
    assert_eq!(*icon.props(), other);

    let mut other = base.clone();
    other.class = String::from("x");
    let mut icon = Icon::create(base.clone());
    assert!(icon.change(other.clone()));
    assert_eq!(*icon.props(), other);

    let mut other = base.clone();
    other.title = Some(String::new());
    let mut icon = Icon::create(base.clone());
    assert!(icon.change(other.clone()));
    assert_eq!(*icon.props(), other);

    let mut other = base.clone();
    other.color = Some(String::from("red"));
    let mut icon = Icon::create(base.clone());
    assert!(icon.change(other.clone()));
    assert_eq!(*icon.props(), other);

    let mut other = base.clone();
    other.intent = Some(Intent::Primary);
    let mut icon = Icon::create(base.clone());
    assert!(icon.change(other.clone()));
    assert_eq!(*icon.props(), other);

    let mut other = base.clone();
    other.icon_size = 17;
    let mut icon = Icon::create(base.clone());
    assert!(icon.change(other.clone()));
    assert_eq!(*icon.props(), other);
}

#[test]
fn change_tells_intents_and_texts_apart() {
    let mut held = Props::new(IconName::Print);
    held.intent = Some(Intent::Warning);
    held.color = Some(String::from("red"));
    let mut given = held.clone();
    given.intent = Some(Intent::Danger);
    let mut icon = Icon::create(held.clone());
    assert!(icon.change(given));
    let mut given = held.clone();
    given.color = Some(String::from("blue"));
    let mut icon = Icon::create(held.clone());
    assert!(icon.change(given));
    let mut given = held.clone();
    given.color = None;
    let mut icon = Icon::create(held);
    assert!(icon.change(given));
}

#[test]
fn change_goes_by_the_identity_of_the_click_handler() {
    let handler: Callback<MouseEvent> = Callback::from(|_: MouseEvent| ());
    let mut held = Props::new(IconName::Play);
    held.onclick = Some(handler.clone());

    let mut icon = Icon::create(held.clone());
    assert!(!icon.change(held.clone()));

    let mut given = held.clone();
    given.onclick = Some(Callback::from(|_: MouseEvent| ()));
    assert!(icon.change(given.clone()));
    assert_eq!(*icon.props(), given);

    let mut given = held.clone();
    given.onclick = None;
    let mut icon = Icon::create(held.clone());
    assert!(icon.change(given));
    assert!(icon.props().onclick.is_none());

    let mut icon = Icon::create(Props::new(IconName::Play));
    assert!(icon.change(held.clone()));
    assert_eq!(icon.props().onclick, Some(handler));
}

#[test]
fn same_as_compares_setting_by_setting() {
    let handler: Callback<MouseEvent> = Callback::from(|_: MouseEvent| ());
    let plain = Props::new(IconName::Menu);
    assert!(plain.same_as(&plain.clone(), true));
    assert!(plain.same_as(&plain.clone(), false));

    let mut with_handler = plain.clone();
    with_handler.onclick = Some(handler);
    assert!(with_handler.same_as(&with_handler.clone(), true));
    assert!(!with_handler.same_as(&with_handler.clone(), false));
    assert!(!with_handler.same_as(&plain, true));
    assert!(!plain.same_as(&with_handler, true));

    let mut sized = plain.clone();
    sized.icon_size = 20;
    assert!(!plain.same_as(&sized, true));
    let mut titled = plain.clone();
    titled.title = Some(String::from("Menu"));
    assert!(!plain.same_as(&titled, true));
    assert!(titled.same_as(&titled.clone(), true));
}

#[test]
fn change_then_view_shows_the_new_props() {
    let mut icon = Icon::create(Props::new(IconName::Blank));
    let mut props = Props::new(IconName::Print);
    props.icon_size = 20;
    assert!(icon.change(props));
    let span = icon.view();
    assert_eq!(span.svg.data_icon, "Print");
    assert_eq!(span.svg.view_box, "0 0 20 20");
    assert_eq!(span.svg.paths.len(), 3);
}

#[test]
fn doc_sample_shows_the_print_icon() {
    let mut doc = IconDoc::create(());
    assert!(doc.update(()));
    assert!(doc.change(()));
    let shown = doc.view();
    assert_eq!(shown, Props::new(IconName::Print));
    let span = Icon::create(shown).view();
    assert_eq!(span.svg.data_icon, "Print");
    assert_eq!(span.svg.width, 16);
}

#[test]
fn apply_change_replaces_the_props_only_where_they_differ() {
    let handler: Callback<MouseEvent> = Callback::from(|_: MouseEvent| ());
    let mut held = Props::new(IconName::Pause);
    held.onclick = Some(handler);
    let mut given = held.clone();
    given.onclick = Some(Callback::from(|_: MouseEvent| ()));

    let mut icon = Icon::create(held.clone());
    assert!(!icon.apply_change(given.clone(), true));
    assert_eq!(*icon.props(), held);
    assert!(icon.apply_change(given.clone(), false));
    assert_eq!(*icon.props(), given);

    let mut sized = given.clone();
    sized.icon_size = 20;
    assert!(icon.apply_change(sized.clone(), true));
    assert_eq!(*icon.props(), sized);

    let mut icon = Icon::create(Props::new(IconName::Pause));
    assert!(!icon.apply_change(Props::new(IconName::Pause), false));
    assert!(icon.apply_change(held.clone(), true));
    assert_eq!(*icon.props(), held);
}
