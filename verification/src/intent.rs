//! Styling intents: what a widget is meant to convey, told to the style sheet by a class.
use vstd::prelude::*;
use crate::text::is_token;

verus! {

/// What a widget conveys beyond its content.
#[derive(Clone, Copy, Debug, PartialEq, Eq, Structural, Hash)]
pub enum Intent {
    Primary,
    Success,
    Warning,
    Danger,
}

impl Intent {
    /// The class that marks a widget with this intent.
    pub open spec fn class_text(self) -> Seq<char> {
        match self {
            Intent::Primary => "bp3-intent-primary"@,
            Intent::Success => "bp3-intent-success"@,
            Intent::Warning => "bp3-intent-warning"@,
            Intent::Danger => "bp3-intent-danger"@,
        }
    }

    /// The class that marks a widget with this intent, as text.
    pub fn class_name(self) -> (name: &'static str)
        ensures
            name@ == self.class_text(),
    {
        match self {
            Intent::Primary => "bp3-intent-primary",
            Intent::Success => "bp3-intent-success",
            Intent::Warning => "bp3-intent-warning",
            Intent::Danger => "bp3-intent-danger",
        }
    }

    /// The class of an intent is one token: it is not empty and holds no white space.
    pub proof fn lemma_class_is_token(self)
        ensures
            is_token(self.class_text()),
    {
        reveal_strlit("bp3-intent-primary");
        reveal_strlit("bp3-intent-success");
        reveal_strlit("bp3-intent-warning");
        reveal_strlit("bp3-intent-danger");
    }
}

} // verus!
