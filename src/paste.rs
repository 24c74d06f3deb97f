use vstd::prelude::*;
use crate::error::ErrorKind;
use crate::keys::Shortcut;
use crate::registry::{KeyState, Registry, fires};

verus! {

/// A key that the paste keystroke uses.
#[derive(Debug, Clone, Copy, PartialEq, Eq, Structural)]
pub enum Key {
    /// The platform's command key (Super / Windows / Command).
    Meta,
    /// The key that types this character.
    Unicode(char),
}

/// How a synthetic key event moves a key.
#[derive(Debug, Clone, Copy, PartialEq, Eq, Structural)]
pub enum Direction {
    Press,
    Click,
    Release,
}

/// One side effect of the action, in the order it is performed.
#[derive(Debug)]
pub enum PasteStep {
    /// Replace the clipboard's contents with this text.
    SetClipboard(String),
    /// Send one synthetic key event.
    Key(Key, Direction),
}

/// What a step does, with its text as a sequence of characters.
pub enum StepView {
    SetClipboard(Seq<char>),
    Key(Key, Direction),
}

impl View for PasteStep {
    type V = StepView;

    open spec fn view(&self) -> StepView {
        match self {
            PasteStep::SetClipboard(t) => StepView::SetClipboard(t@),
            PasteStep::Key(k, d) => StepView::Key(*k, *d),
        }
    }
}

/// The steps of a list, as views.
pub open spec fn step_views(steps: Seq<PasteStep>) -> Seq<StepView> {
    steps.map_values(|p: PasteStep| p@)
}

/// The text that the action puts on the clipboard.
pub open spec fn spec_paste_text() -> Seq<char> {
    "hello world"@
}

/// Write `text` to the clipboard, then paste it: command key down, `v`
/// clicked, command key up.
pub open spec fn paste_steps(text: Seq<char>) -> Seq<StepView> {
    seq![
        StepView::SetClipboard(text),
        StepView::Key(Key::Meta, Direction::Press),
        StepView::Key(Key::Unicode('v'), Direction::Click),
        StepView::Key(Key::Meta, Direction::Release),
    ]
}

/// The text that the action puts on the clipboard.
pub fn paste_text() -> (r: String)
    ensures
        r@ == spec_paste_text(),
{
    "hello world".to_string()
}

/// The steps that put `text` on the clipboard and paste it.
pub fn paste_plan(text: &str) -> (r: Vec<PasteStep>)
    ensures
        step_views(r@) == paste_steps(text@),
{
    let mut steps: Vec<PasteStep> = Vec::new();
    steps.push(PasteStep::SetClipboard(text.to_string()));
    steps.push(PasteStep::Key(Key::Meta, Direction::Press));
    steps.push(PasteStep::Key(Key::Unicode('v'), Direction::Click));
    steps.push(PasteStep::Key(Key::Meta, Direction::Release));
    assert(step_views(steps@) =~= paste_steps(text@));
    steps
}

/// What to do on a key event of a global shortcut: the paste of the fixed
/// text when the event fires the binding, nothing otherwise.
pub fn on_hotkey(registry: &Registry, pressed: &Shortcut, state: KeyState) -> (r: Vec<PasteStep>)
    ensures
        fires(registry@, pressed@, state) ==> step_views(r@) == paste_steps(spec_paste_text()),
        !fires(registry@, pressed@, state) ==> r@.len() == 0,
{
    if registry.is_triggered(pressed, state) {
        let text = paste_text();
        paste_plan(text.as_str())
    } else {
        Vec::new()
    }
}

/// The error to report when a step fails. Every failure is reported and the
/// remaining steps still run, so that a pressed command key is released.
pub fn failure_kind(step: &PasteStep) -> (r: ErrorKind)
    ensures
        step matches PasteStep::SetClipboard(_) ==> r == ErrorKind::ClipboardUnavailable,
        step matches PasteStep::Key(_, _) ==> r == ErrorKind::InputInjectionFailed,
{
    match step {
        PasteStep::SetClipboard(_) => ErrorKind::ClipboardUnavailable,
        PasteStep::Key(_, _) => ErrorKind::InputInjectionFailed,
    }
}

} // verus!
