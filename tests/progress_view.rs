use shai::progress::ShaiRequestProgress;
use shai::session::{Layout, ShaiState};
use shai::text::count_lines;
use shai::view::{controls_text, response_title, PaneConstraint};

#[test]
fn spinner_cycles() {
    let mut p = ShaiRequestProgress::default();
    assert_eq!(p, ShaiRequestProgress::Idle);
    let mut seen = Vec::new();
    for _ in 0..5 {
        p = p.next_state();
        seen.push(p.symbol());
    }
    assert_eq!(seen, vec!["-", "\\", "|", "/", "-"]);
    assert_eq!(ShaiRequestProgress::Idle.symbol(), "");
}

#[test]
fn pane_titles() {
    assert_eq!(response_title(ShaiRequestProgress::S2, true), "Shai | *");
    assert_eq!(response_title(ShaiRequestProgress::Idle, false), "Shai  ");
}

#[test]
fn controls_by_state() {
    assert_eq!(controls_text(ShaiState::Started), "<C-c>: Exit | Enter: Send Prompt");
    assert_eq!(controls_text(ShaiState::Processing), "<C-c>: Exit | Esc: Cancel ");
    assert!(controls_text(ShaiState::CommandGenerated).contains("<C-e>: Explain"));
}

#[test]
fn layouts() {
    assert_eq!(
        Layout::InputResponse.create(7),
        vec![PaneConstraint::Length(3), PaneConstraint::Min(7), PaneConstraint::Length(2)]
    );
    assert_eq!(
        Layout::InputResponseExplanation.create(5),
        vec![
            PaneConstraint::Length(3),
            PaneConstraint::Length(5),
            PaneConstraint::Min(3),
            PaneConstraint::Length(2)
        ]
    );
}

#[test]
fn line_counts_follow_lines() {
    for s in ["", "a", "a\n", "a\nb", "\n", "\n\n", "a\r\nb\r\n", "x\n\ny"] {
        assert_eq!(count_lines(s), s.lines().count(), "on {s:?}");
    }
}
