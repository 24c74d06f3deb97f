use vstd::prelude::*;
use crate::error::ErrorKind;
use crate::keys::{Modifiers, Shortcut, ctrl_shortcut};

verus! {

/// Whether a key of a shortcut went down or came up.
#[derive(Debug, Clone, Copy, PartialEq, Eq, Structural)]
pub enum KeyState {
    Pressed,
    Released,
}

/// The binding made at start-up: Control and Q.
pub open spec fn default_binding() -> (Modifiers, Seq<char>) {
    (Modifiers::spec_control(), "KeyQ"@)
}

/// Whether a key event of `pressed` fires the action while `active` is the
/// binding: only the key going down of the bound combination does.
pub open spec fn fires(
    active: Option<(Modifiers, Seq<char>)>,
    pressed: (Modifiers, Seq<char>),
    state: KeyState,
) -> bool {
    state == KeyState::Pressed && active == Some(pressed)
}

/// The binding once a rebind has been answered: the new one when the
/// operating system took it, the retired one (restored) when it did not.
pub open spec fn after_rebind(
    retired: Option<(Modifiers, Seq<char>)>,
    installed: (Modifiers, Seq<char>),
    registered: bool,
) -> Option<(Modifiers, Seq<char>)> {
    if registered {
        Some(installed)
    } else {
        retired
    }
}

/// The one active global shortcut, if any.
#[derive(Debug)]
pub struct Registry {
    active: Option<Shortcut>,
}

/// A rebind in progress: `retire` is to be unregistered first, then
/// `install` registered in its place.
#[derive(Debug)]
pub struct RebindPlan {
    pub retire: Option<Shortcut>,
    pub install: Shortcut,
}

impl View for Registry {
    type V = Option<(Modifiers, Seq<char>)>;

    closed spec fn view(&self) -> Option<(Modifiers, Seq<char>)> {
        match self.active {
            Some(s) => Some(s@),
            None => None,
        }
    }
}

impl RebindPlan {
    pub open spec fn retired(&self) -> Option<(Modifiers, Seq<char>)> {
        match self.retire {
            Some(s) => Some(s@),
            None => None,
        }
    }
}

impl Registry {
    /// The start-up state: Control+Q bound.
    pub fn new() -> (r: Registry)
        ensures
            r@ == Some(default_binding()),
    {
        Registry { active: Some(Shortcut::new(Modifiers::control(), "KeyQ".to_string())) }
    }

    /// No binding at all.
    pub fn unregistered() -> (r: Registry)
        ensures
            r@ == None::<(Modifiers, Seq<char>)>,
    {
        Registry { active: None }
    }

    /// The active binding.
    pub fn active(&self) -> (r: Option<&Shortcut>)
        ensures
            match r {
                Some(s) => self@ == Some(s@),
                None => self@ == None::<(Modifiers, Seq<char>)>,
            },
    {
        match &self.active {
            Some(s) => Some(s),
            None => None,
        }
    }

    /// Whether a key event fires the action: the bound combination going
    /// down fires it once; its release and every other combination do not.
    pub fn is_triggered(&self, pressed: &Shortcut, state: KeyState) -> (r: bool)
        ensures
            r == fires(self@, pressed@, state),
    {
        match &self.active {
            Some(s) => state == KeyState::Pressed && s.matches(pressed),
            None => false,
        }
    }

    /// The plan that replaces the active binding by `new`: the old one is
    /// retired before the new one is registered.
    pub fn plan_rebind(&self, new: Shortcut) -> (r: RebindPlan)
        ensures
            r.retired() == self@,
            r.install@ == new@,
    {
        let retire = match &self.active {
            Some(s) => Some(s.clone()),
            None => None,
        };
        RebindPlan { retire, install: new }
    }

    /// The plan that binds Control with the key named `key`; a name that is
    /// no key code is a `ParseError` and leaves nothing to do.
    pub fn rebind_to(&self, key: &str) -> (r: Result<RebindPlan, ErrorKind>)
        ensures
            crate::keys::is_code_name(key@) ==> (r matches Ok(p) && p.retired() == self@
                && p.install@ == (Modifiers::spec_control(), key@)),
            !crate::keys::is_code_name(key@) ==> r matches Err(ErrorKind::ParseError),
    {
        match ctrl_shortcut(key) {
            Ok(s) => Ok(self.plan_rebind(s)),
            Err(e) => Err(e),
        }
    }

    /// Ends a rebind once the operating system has answered the
    /// registration of `plan.install`. When it was taken, it becomes the
    /// binding. When it was refused, the retired binding is the binding
    /// again (the caller registers it anew) and the answer is a
    /// `RegistrationConflict`.
    pub fn commit(&mut self, plan: RebindPlan, registered: bool) -> (r: Result<(), ErrorKind>)
        ensures
            final(self)@ == after_rebind(plan.retired(), plan.install@, registered),
            registered ==> r == Ok::<(), ErrorKind>(()),
            !registered ==> r == Err::<(), ErrorKind>(ErrorKind::RegistrationConflict),
    {
        if registered {
            self.active = Some(plan.install);
            Ok(())
        } else {
            self.active = plan.retire;
            Err(ErrorKind::RegistrationConflict)
        }
    }
}

/// How many events of `events` fire the action while `active` is bound.
pub open spec fn firings(
    active: Option<(Modifiers, Seq<char>)>,
    events: Seq<((Modifiers, Seq<char>), KeyState)>,
) -> nat
    decreases events.len(),
{
    if events.len() == 0 {
        0
    } else {
        firings(active, events.drop_last()) + if fires(active, events.last().0, events.last().1) {
            1nat
        } else {
            0nat
        }
    }
}

/// `n` physical strokes of `pressed`: each goes down and comes up.
pub open spec fn strokes(pressed: (Modifiers, Seq<char>), n: nat) -> Seq<
    ((Modifiers, Seq<char>), KeyState),
>
    decreases n,
{
    if n == 0 {
        Seq::empty()
    } else {
        strokes(pressed, (n - 1) as nat).push((pressed, KeyState::Pressed)).push(
            (pressed, KeyState::Released),
        )
    }
}

/// The bound combination fires the action exactly once per physical
/// stroke: `n` strokes give `n` firings, and strokes of any other
/// combination give none.
pub proof fn lemma_once_per_stroke(
    active: Option<(Modifiers, Seq<char>)>,
    pressed: (Modifiers, Seq<char>),
    n: nat,
)
    ensures
        active == Some(pressed) ==> firings(active, strokes(pressed, n)) == n,
        active != Some(pressed) ==> firings(active, strokes(pressed, n)) == 0,
    decreases n,
{
    if n > 0 {
        let prev = strokes(pressed, (n - 1) as nat);
        let down = prev.push((pressed, KeyState::Pressed));
        lemma_once_per_stroke(active, pressed, (n - 1) as nat);
        let all = down.push((pressed, KeyState::Released));
        assert(all.drop_last() =~= down);
        assert(down.drop_last() =~= prev);
        assert(strokes(pressed, n) == all);
        assert(all.last() == (pressed, KeyState::Released));
        assert(down.last() == (pressed, KeyState::Pressed));
        assert(firings(active, all) == firings(active, down));
        assert(firings(active, down) == firings(active, prev) + if active == Some(pressed) {
            1nat
        } else {
            0nat
        });
    }
}

/// After a rebind that the operating system accepted, only the new
/// combination fires: the one it replaced (Control+Q, say, rebound to
/// Control+W) and every other one no longer do.
pub proof fn lemma_rebind_retires_old(
    retired: Option<(Modifiers, Seq<char>)>,
    installed: (Modifiers, Seq<char>),
    pressed: (Modifiers, Seq<char>),
    state: KeyState,
)
    requires
        pressed != installed,
    ensures
        !fires(after_rebind(retired, installed, true), pressed, state),
        fires(after_rebind(retired, installed, true), installed, KeyState::Pressed),
{
}

/// A refused rebind leaves the earlier binding in force, unchanged.
pub proof fn lemma_refused_rebind_restores(
    retired: Option<(Modifiers, Seq<char>)>,
    installed: (Modifiers, Seq<char>),
)
    ensures
        after_rebind(retired, installed, false) == retired,
{
}

} // verus!
