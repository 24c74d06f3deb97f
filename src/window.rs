use vstd::prelude::*;

verus! {

/// What the main window and the tray can ask of the application.
#[derive(Debug, Clone, Copy, PartialEq, Eq, Structural)]
pub enum WindowEvent {
    /// The user closed the main window.
    CloseRequested,
    /// The user asked for the main window again (from the tray).
    ShowRequested,
    /// The user chose to quit.
    QuitRequested,
}

/// What the application does in answer.
#[derive(Debug, Clone, Copy, PartialEq, Eq, Structural)]
pub enum ShellAction {
    /// Hide the main window and keep the close from going through.
    HideWindow,
    /// Show the main window.
    ShowWindow,
    /// End the process.
    Exit,
    /// Nothing: the application has already ended.
    Ignore,
}

/// Whether the main window is shown and whether the process goes on.
#[derive(Debug, Clone, Copy, PartialEq, Eq, Structural)]
pub struct Shell {
    pub visible: bool,
    pub running: bool,
}

/// The state after `e`. Closing hides the window; only quitting ends the
/// process; once ended, nothing changes.
pub open spec fn shell_next(s: Shell, e: WindowEvent) -> Shell {
    if !s.running {
        s
    } else {
        match e {
            WindowEvent::CloseRequested => Shell { visible: false, running: true },
            WindowEvent::ShowRequested => Shell { visible: true, running: true },
            WindowEvent::QuitRequested => Shell { visible: false, running: false },
        }
    }
}

/// The answer to `e` in state `s`.
pub open spec fn shell_action(s: Shell, e: WindowEvent) -> ShellAction {
    if !s.running {
        ShellAction::Ignore
    } else {
        match e {
            WindowEvent::CloseRequested => ShellAction::HideWindow,
            WindowEvent::ShowRequested => ShellAction::ShowWindow,
            WindowEvent::QuitRequested => ShellAction::Exit,
        }
    }
}

/// The state after a whole sequence of events.
pub open spec fn shell_after(s: Shell, events: Seq<WindowEvent>) -> Shell
    decreases events.len(),
{
    if events.len() == 0 {
        s
    } else {
        shell_next(shell_after(s, events.drop_last()), events.last())
    }
}

impl Shell {
    /// The start-up state: window shown, process running.
    pub fn new() -> (r: Shell)
        ensures
            r == (Shell { visible: true, running: true }),
    {
        Shell { visible: true, running: true }
    }

    /// Takes one event and says what to do about it.
    pub fn handle(&mut self, e: WindowEvent) -> (r: ShellAction)
        ensures
            *final(self) == shell_next(*old(self), e),
            r == shell_action(*old(self), e),
    {
        if !self.running {
            return ShellAction::Ignore;
        }
        match e {
            WindowEvent::CloseRequested => {
                self.visible = false;
                ShellAction::HideWindow
            },
            WindowEvent::ShowRequested => {
                self.visible = true;
                ShellAction::ShowWindow
            },
            WindowEvent::QuitRequested => {
                self.visible = false;
                self.running = false;
                ShellAction::Exit
            },
        }
    }
}

/// Closing the main window hides it and never ends the process: a running
/// application stays running through any sequence of events without a quit,
/// and after a close its window is hidden.
pub proof fn lemma_only_quit_ends(s: Shell, events: Seq<WindowEvent>)
    requires
        s.running,
        forall|i: int| 0 <= i < events.len() ==> events[i] != WindowEvent::QuitRequested,
    ensures
        shell_after(s, events).running,
        events.len() > 0 && events.last() == WindowEvent::CloseRequested
            ==> !shell_after(s, events).visible,
    decreases events.len(),
{
    if events.len() > 0 {
        let rest = events.drop_last();
        assert forall|i: int| 0 <= i < rest.len() implies rest[i] != WindowEvent::QuitRequested by {
            assert(rest[i] == events[i]);
        }
        lemma_only_quit_ends(s, rest);
        assert(events.last() == events[events.len() - 1]);
    }
}

/// A quit ends the process, and nothing after it starts it again.
pub proof fn lemma_quit_is_final(s: Shell, before: Seq<WindowEvent>, after: Seq<WindowEvent>)
    ensures
        !shell_after(s, before.push(WindowEvent::QuitRequested) + after).running,
    decreases after.len(),
{
    let quit = before.push(WindowEvent::QuitRequested);
    if after.len() == 0 {
        assert(quit + after =~= quit);
        assert(quit.drop_last() =~= before);
    } else {
        lemma_quit_is_final(s, before, after.drop_last());
        assert((quit + after).drop_last() =~= quit + after.drop_last());
    }
}

} // verus!
