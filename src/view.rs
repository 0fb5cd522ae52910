use vstd::prelude::*;
use vstd::string::StringExecFns;

use crate::progress::ShaiRequestProgress;
use crate::session::{Layout, ShaiState};

verus! {

/// How tall a region of the screen is.
#[derive(Clone, Copy, Debug, PartialEq, Eq, Structural)]
pub enum PaneConstraint {
    /// Exactly this many rows.
    Length(u16),
    /// At least this many rows.
    Min(u16),
}

impl Layout {
    /// The regions of the screen from top to bottom, with the main pane
    /// `main_response_size` rows tall: input line, main answer, then, where
    /// shown, the explanation, and the key help line.
    pub open spec fn spec_create(self, main_response_size: u16) -> Seq<PaneConstraint> {
        match self {
            Layout::InputResponse => seq![
                PaneConstraint::Length(3),
                PaneConstraint::Min(main_response_size),
                PaneConstraint::Length(2),
            ],
            Layout::InputResponseExplanation => seq![
                PaneConstraint::Length(3),
                PaneConstraint::Length(main_response_size),
                PaneConstraint::Min(3),
                PaneConstraint::Length(2),
            ],
        }
    }

    pub fn create(&self, main_response_size: u16) -> (r: Vec<PaneConstraint>)
        ensures
            r@ == self.spec_create(main_response_size),
    {
        let r = match self {
            Layout::InputResponse => vec![
                PaneConstraint::Length(3),
                PaneConstraint::Min(main_response_size),
                PaneConstraint::Length(2),
            ],
            Layout::InputResponseExplanation => vec![
                PaneConstraint::Length(3),
                PaneConstraint::Length(main_response_size),
                PaneConstraint::Min(3),
                PaneConstraint::Length(2),
            ],
        };
        assert(r@ =~= self.spec_create(main_response_size));
        r
    }
}

/// The key help shown in each state.
pub open spec fn controls_of(state: ShaiState) -> Seq<char> {
    match state {
        ShaiState::Started => "<C-c>: Exit | Enter: Send Prompt"@,
        ShaiState::Processing => "<C-c>: Exit | Esc: Cancel "@,
        ShaiState::ExplanationGenerated => "<C-c>: Exit | Enter: Send Prompt | <C-u|d>: Scroll"@,
        ShaiState::CommandGenerated =>
            "<C-c>: Exit | Enter: Send Prompt | <C-a>: Accept | <C-r>: Accept (raw) | <C-e>: Explain"@,
        ShaiState::AuxExplanationGenerated =>
            "<C-c>: Exit | Enter: Send Prompt | <C-a>: Accept | <C-r>: Accept (raw) | <C-e>: Explain | <Tab>: Toggle Focus | <C-u|d>: Scroll | <S-Up|Down>: Resize explanation"@,
    }
}

/// The key help line for a state.
pub fn controls_text(state: ShaiState) -> (r: String)
    ensures
        r@ == controls_of(state),
{
    match state {
        ShaiState::Started => String::from_str("<C-c>: Exit | Enter: Send Prompt"),
        ShaiState::Processing => String::from_str("<C-c>: Exit | Esc: Cancel "),
        ShaiState::ExplanationGenerated => String::from_str(
            "<C-c>: Exit | Enter: Send Prompt | <C-u|d>: Scroll",
        ),
        ShaiState::CommandGenerated => String::from_str(
            "<C-c>: Exit | Enter: Send Prompt | <C-a>: Accept | <C-r>: Accept (raw) | <C-e>: Explain",
        ),
        ShaiState::AuxExplanationGenerated => String::from_str(
            "<C-c>: Exit | Enter: Send Prompt | <C-a>: Accept | <C-r>: Accept (raw) | <C-e>: Explain | <Tab>: Toggle Focus | <C-u|d>: Scroll | <S-Up|Down>: Resize explanation",
        ),
    }
}

/// The title of an answer pane: its spinner, and a star when scroll keys act
/// on it.
pub fn response_title(thinking: ShaiRequestProgress, focus: bool) -> (r: String)
    ensures
        r@ == "Shai "@ + thinking.spec_symbol() + " "@ + if focus {
            "*"@
        } else {
            ""@
        },
{
    let mut r = String::from_str("Shai ");
    r.append(thinking.symbol().as_str());
    r.append(" ");
    if focus {
        r.append("*");
    } else {
        r.append("");
    }
    r
}

} // verus!
