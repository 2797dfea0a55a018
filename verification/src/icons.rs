//! The icon set: the names of the icons and, for each, the path data that draws it on the
//! 16-pixel grid and on the 20-pixel grid.
use vstd::prelude::*;

verus! {

/// The name of an icon. `Blank`, the default, draws nothing.
#[derive(Clone, Copy, Debug, PartialEq, Eq, Structural, Hash)]
pub enum IconName {
    Blank,
    Add,
    Minus,
    Cross,
    Tick,
    ChevronUp,
    ChevronDown,
    ChevronLeft,
    ChevronRight,
    Menu,
    Print,
    Play,
    Pause,
    Stop,
    Document,
    FullCircle,
}

impl Default for IconName {
    fn default() -> (name: IconName)
        ensures
            name == IconName::Blank,
    {
        IconName::Blank
    }
}

impl IconName {
    /// The spelling of the name: the text that marks the icon in the markup and that
    /// describes it where no title is given.
    pub open spec fn label(self) -> Seq<char> {
        match self {
            IconName::Blank => "Blank"@,
            IconName::Add => "Add"@,
            IconName::Minus => "Minus"@,
            IconName::Cross => "Cross"@,
            IconName::Tick => "Tick"@,
            IconName::ChevronUp => "ChevronUp"@,
            IconName::ChevronDown => "ChevronDown"@,
            IconName::ChevronLeft => "ChevronLeft"@,
            IconName::ChevronRight => "ChevronRight"@,
            IconName::Menu => "Menu"@,
            IconName::Print => "Print"@,
            IconName::Play => "Play"@,
            IconName::Pause => "Pause"@,
            IconName::Stop => "Stop"@,
            IconName::Document => "Document"@,
            IconName::FullCircle => "FullCircle"@,
        }
    }

    /// The spelling of the name, as text.
    pub fn name(self) -> (text: &'static str)
        ensures
            text@ == self.label(),
    {
        match self {
            IconName::Blank => "Blank",
            IconName::Add => "Add",
            IconName::Minus => "Minus",
            IconName::Cross => "Cross",
            IconName::Tick => "Tick",
            IconName::ChevronUp => "ChevronUp",
            IconName::ChevronDown => "ChevronDown",
            IconName::ChevronLeft => "ChevronLeft",
            IconName::ChevronRight => "ChevronRight",
            IconName::Menu => "Menu",
            IconName::Print => "Print",
            IconName::Play => "Play",
            IconName::Pause => "Pause",
            IconName::Stop => "Stop",
            IconName::Document => "Document",
            IconName::FullCircle => "FullCircle",
        }
    }
}

/// The path data of an icon on the 16-pixel grid, in drawing order.
pub open spec fn icon_paths_16(name: IconName) -> Seq<Seq<char>> {
    match name {
        IconName::Blank => seq![],
        IconName::Add => seq!["M9 7h5v2H9v5H7V9H2V7h5V2h2z"@],
        IconName::Minus => seq!["M2 7h12v2H2z"@],
        IconName::Cross => seq![
            "M9.4 8l4.3-4.3-1.4-1.4L8 6.6 3.7 2.3 2.3 3.7 6.6 8l-4.3 4.3 1.4 1.4L8 9.4l4.3 4.3 1.4-1.4z"@,
        ],
        IconName::Tick => seq!["M6 10.6L3.4 8 2 9.4l4 4 8-8L12.6 4z"@],
        IconName::ChevronUp => seq!["M3 10l5-5 5 5-1.4 1.4L8 7.8l-3.6 3.6z"@],
        IconName::ChevronDown => seq!["M3 6l5 5 5-5-1.4-1.4L8 8.2 4.4 4.6z"@],
        IconName::ChevronLeft => seq!["M10 3L5 8l5 5 1.4-1.4L7.8 8l3.6-3.6z"@],
        IconName::ChevronRight => seq!["M6 3l5 5-5 5-1.4-1.4L8.2 8 4.6 4.4z"@],
        IconName::Menu => seq!["M1 3h14v2H1z"@, "M1 7h14v2H1z"@, "M1 11h14v2H1z"@],
        IconName::Print => seq!["M4 1h8v3H4z"@, "M1 5h14v7h-2V9H3v3H1z"@, "M4 10h8v5H4z"@],
        IconName::Play => seq!["M4 2l10 6-10 6z"@],
        IconName::Pause => seq!["M3 2h4v12H3z"@, "M9 2h4v12H9z"@],
        IconName::Stop => seq!["M3 3h10v10H3z"@],
        IconName::Document => seq!["M3 0h7l4 4v12H3zM9 1v4h4z"@],
        IconName::FullCircle => seq!["M8 0a8 8 0 1 0 0 16A8 8 0 0 0 8 0z"@],
    }
}

/// The path data of an icon on the 20-pixel grid, in drawing order.
pub open spec fn icon_paths_20(name: IconName) -> Seq<Seq<char>> {
    match name {
        IconName::Blank => seq![],
        IconName::Add => seq!["M11 9h7v2h-7v7H9v-7H2V9h7V2h2z"@],
        IconName::Minus => seq!["M2 9h16v2H2z"@],
        IconName::Cross => seq![
            "M11.4 10l5.3-5.3-1.4-1.4-5.3 5.3-5.3-5.3-1.4 1.4L8.6 10l-5.3 5.3 1.4 1.4 5.3-5.3 5.3 5.3 1.4-1.4z"@,
        ],
        IconName::Tick => seq!["M8 13.6L4.4 10 3 11.4l5 5 10-10L16.6 5z"@],
        IconName::ChevronUp => seq!["M4 12l6-6 6 6-1.4 1.4L10 8.8l-4.6 4.6z"@],
        IconName::ChevronDown => seq!["M4 8l6 6 6-6-1.4-1.4-4.6 4.6-4.6-4.6z"@],
        IconName::ChevronLeft => seq!["M12 4l-6 6 6 6 1.4-1.4L8.8 10l4.6-4.6z"@],
        IconName::ChevronRight => seq!["M8 4l6 6-6 6-1.4-1.4 4.6-4.6-4.6-4.6z"@],
        IconName::Menu => seq!["M1 4h18v2H1z"@, "M1 9h18v2H1z"@, "M1 14h18v2H1z"@],
        IconName::Print => seq!["M5 1h10v4H5z"@, "M1 6h18v9h-3v-4H4v4H1z"@, "M5 12h10v7H5z"@],
        IconName::Play => seq!["M5 3l12 7-12 7z"@],
        IconName::Pause => seq!["M4 3h5v14H4z"@, "M11 3h5v14h-5z"@],
        IconName::Stop => seq!["M4 4h12v12H4z"@],
        IconName::Document => seq!["M4 0h8l5 5v15H4zM11 1v5h5z"@],
        IconName::FullCircle => seq!["M10 0a10 10 0 1 0 0 20 10 10 0 0 0 0-20z"@],
    }
}

/// The texts that a list of string slices holds.
pub open spec fn texts_of(items: Seq<&'static str>) -> Seq<Seq<char>> {
    Seq::new(items.len(), |i: int| items[i]@)
}

/// The path data of `name` on the 16-pixel grid, in drawing order; none for `Blank`.
pub fn paths_for_16(name: IconName) -> (paths: Vec<&'static str>)
    ensures
        texts_of(paths@) == icon_paths_16(name),
        name == IconName::Blank ==> paths@.len() == 0,
{
    let paths: Vec<&'static str> = match name {
        IconName::Blank => Vec::new(),
        IconName::Add => vec!["M9 7h5v2H9v5H7V9H2V7h5V2h2z"],
        IconName::Minus => vec!["M2 7h12v2H2z"],
        IconName::Cross => vec![
            "M9.4 8l4.3-4.3-1.4-1.4L8 6.6 3.7 2.3 2.3 3.7 6.6 8l-4.3 4.3 1.4 1.4L8 9.4l4.3 4.3 1.4-1.4z",
        ],
        IconName::Tick => vec!["M6 10.6L3.4 8 2 9.4l4 4 8-8L12.6 4z"],
        IconName::ChevronUp => vec!["M3 10l5-5 5 5-1.4 1.4L8 7.8l-3.6 3.6z"],
        IconName::ChevronDown => vec!["M3 6l5 5 5-5-1.4-1.4L8 8.2 4.4 4.6z"],
        IconName::ChevronLeft => vec!["M10 3L5 8l5 5 1.4-1.4L7.8 8l3.6-3.6z"],
        IconName::ChevronRight => vec!["M6 3l5 5-5 5-1.4-1.4L8.2 8 4.6 4.4z"],
        IconName::Menu => vec!["M1 3h14v2H1z", "M1 7h14v2H1z", "M1 11h14v2H1z"],
        IconName::Print => vec!["M4 1h8v3H4z", "M1 5h14v7h-2V9H3v3H1z", "M4 10h8v5H4z"],
        IconName::Play => vec!["M4 2l10 6-10 6z"],
        IconName::Pause => vec!["M3 2h4v12H3z", "M9 2h4v12H9z"],
        IconName::Stop => vec!["M3 3h10v10H3z"],
        IconName::Document => vec!["M3 0h7l4 4v12H3zM9 1v4h4z"],
        IconName::FullCircle => vec!["M8 0a8 8 0 1 0 0 16A8 8 0 0 0 8 0z"],
    };
    paths
}

/// The path data of `name` on the 20-pixel grid, in drawing order; none for `Blank`.
pub fn paths_for_20(name: IconName) -> (paths: Vec<&'static str>)
    ensures
        texts_of(paths@) == icon_paths_20(name),
        name == IconName::Blank ==> paths@.len() == 0,
{
    let paths: Vec<&'static str> = match name {
        IconName::Blank => Vec::new(),
        IconName::Add => vec!["M11 9h7v2h-7v7H9v-7H2V9h7V2h2z"],
        IconName::Minus => vec!["M2 9h16v2H2z"],
        IconName::Cross => vec![
            "M11.4 10l5.3-5.3-1.4-1.4-5.3 5.3-5.3-5.3-1.4 1.4L8.6 10l-5.3 5.3 1.4 1.4 5.3-5.3 5.3 5.3 1.4-1.4z",
        ],
        IconName::Tick => vec!["M8 13.6L4.4 10 3 11.4l5 5 10-10L16.6 5z"],
        IconName::ChevronUp => vec!["M4 12l6-6 6 6-1.4 1.4L10 8.8l-4.6 4.6z"],
        IconName::ChevronDown => vec!["M4 8l6 6 6-6-1.4-1.4-4.6 4.6-4.6-4.6z"],
        IconName::ChevronLeft => vec!["M12 4l-6 6 6 6 1.4-1.4L8.8 10l4.6-4.6z"],
        IconName::ChevronRight => vec!["M8 4l6 6-6 6-1.4-1.4 4.6-4.6-4.6-4.6z"],
        IconName::Menu => vec!["M1 4h18v2H1z", "M1 9h18v2H1z", "M1 14h18v2H1z"],
        IconName::Print => vec!["M5 1h10v4H5z", "M1 6h18v9h-3v-4H4v4H1z", "M5 12h10v7H5z"],
        IconName::Play => vec!["M5 3l12 7-12 7z"],
        IconName::Pause => vec!["M4 3h5v14H4z", "M11 3h5v14h-5z"],
        IconName::Stop => vec!["M4 4h12v12H4z"],
        IconName::Document => vec!["M4 0h8l5 5v15H4zM11 1v5h5z"],
        IconName::FullCircle => vec!["M10 0a10 10 0 1 0 0 20 10 10 0 0 0 0-20z"],
    };
    paths
}

} // verus!
