use vstd::prelude::*;
use crate::error::ErrorKind;
use global_hotkey::hotkey::Code;

verus! {

/// The modifier keys of a shortcut.
#[derive(Debug, Clone, Copy, PartialEq, Eq, Structural)]
pub struct Modifiers {
    pub shift: bool,
    pub control: bool,
    pub alt: bool,
    pub meta: bool,
}

impl Modifiers {
    /// Control alone: the modifier of every binding this utility makes.
    pub open spec fn spec_control() -> Modifiers {
        Modifiers { shift: false, control: true, alt: false, meta: false }
    }

    pub fn control() -> (r: Modifiers)
        ensures
            r == Modifiers::spec_control(),
    {
        Modifiers { shift: false, control: true, alt: false, meta: false }
    }
}

/// A key combination: modifiers and the name of one key code ("KeyQ").
#[derive(Debug)]
pub struct Shortcut {
    pub mods: Modifiers,
    pub key: String,
}

impl View for Shortcut {
    type V = (Modifiers, Seq<char>);

    open spec fn view(&self) -> (Modifiers, Seq<char>) {
        (self.mods, self.key@)
    }
}

impl Clone for Shortcut {
    fn clone(&self) -> (r: Self)
        ensures
            r@ == self@,
    {
        Shortcut { mods: self.mods, key: self.key.clone() }
    }
}

impl Shortcut {
    pub fn new(mods: Modifiers, key: String) -> (r: Shortcut)
        ensures
            r@ == (mods, key@),
    {
        Shortcut { mods, key }
    }

    /// True when `other` is the same combination: equal modifiers and key.
    pub fn matches(&self, other: &Shortcut) -> (r: bool)
        ensures
            r == (self@ == other@),
    {
        self.mods == other.mods && self.key == other.key
    }
}

/// Whether a string is the name of a key code ("KeyQ", "Digit0", "F5", ...).
pub uninterp spec fn is_code_name(s: Seq<char>) -> bool;

/// Relies on `Code::from_str` (keyboard-types, re-exported by global-hotkey),
/// which accepts exactly the names of the key codes and nothing else, and
/// depends on its argument alone.
#[verifier::external_body]
fn parse_code_ok(s: &str) -> (r: bool)
    ensures
        r == is_code_name(s@),
{
    s.parse::<Code>().is_ok()
}

/// The Control binding for `key`, given whether `key` names a key code.
pub fn ctrl_shortcut_from(key: &str, known: bool) -> (r: Result<Shortcut, ErrorKind>)
    ensures
        known ==> (r matches Ok(s) && s@ == (Modifiers::spec_control(), key@)),
        !known ==> r == Err::<Shortcut, ErrorKind>(ErrorKind::ParseError),
{
    if known {
        Ok(Shortcut::new(Modifiers::control(), key.to_string()))
    } else {
        Err(ErrorKind::ParseError)
    }
}

/// The Control binding for the key named `key`; a name that is no key code
/// is a `ParseError`.
pub fn ctrl_shortcut(key: &str) -> (r: Result<Shortcut, ErrorKind>)
    ensures
        is_code_name(key@) ==> (r matches Ok(s) && s@ == (Modifiers::spec_control(), key@)),
        !is_code_name(key@) ==> r == Err::<Shortcut, ErrorKind>(ErrorKind::ParseError),
{
    let known = parse_code_ok(key);
    ctrl_shortcut_from(key, known)
}

} // verus!
