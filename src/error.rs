use vstd::prelude::*;

verus! {

/// What can go wrong around the shortcut and its action.
#[derive(Debug, Clone, Copy, PartialEq, Eq, Structural)]
pub enum ErrorKind {
    /// The key name is not a known key code.
    ParseError,
    /// The operating system refused the key combination (often because
    /// another program holds it).
    RegistrationConflict,
    /// The clipboard could not be opened or written.
    ClipboardUnavailable,
    /// A synthetic key event could not be sent.
    InputInjectionFailed,
}

} // verus!
