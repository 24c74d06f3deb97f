use fast_paste::{
    ctrl_shortcut, failure_kind, greet, on_hotkey, paste_plan, paste_text, Direction, ErrorKind,
    Key, KeyState, Modifiers, PasteStep, Registry, Shell, ShellAction, Shortcut, WindowEvent,
};

fn ctrl(key: &str) -> Shortcut {
    Shortcut::new(Modifiers::control(), key.to_string())
}

fn is_hello_world_paste(steps: &[PasteStep]) -> bool {
    steps.len() == 4
        && matches!(&steps[0], PasteStep::SetClipboard(t) if t == "hello world")
        && matches!(&steps[1], PasteStep::Key(Key::Meta, Direction::Press))
        && matches!(&steps[2], PasteStep::Key(Key::Unicode('v'), Direction::Click))
        && matches!(&steps[3], PasteStep::Key(Key::Meta, Direction::Release))
}

#[test]
fn greet_formats_name() {
    assert_eq!(greet("Tauri"), "Hello, Tauri! You've been greeted from Rust!");
    assert_eq!(greet(""), "Hello, ! You've been greeted from Rust!");
}

#[test]
fn ctrl_shortcut_accepts_key_code_names() {
    let s = ctrl_shortcut("KeyQ").unwrap();
    assert_eq!(s.mods, Modifiers { shift: false, control: true, alt: false, meta: false });
    assert_eq!(s.key, "KeyQ");
    let w = ctrl_shortcut("KeyW").unwrap();
    assert_eq!(w.key, "KeyW");
    let f = ctrl_shortcut("F5").unwrap();
    assert_eq!(f.key, "F5");
}

#[test]
fn ctrl_shortcut_rejects_unknown_names() {
    assert!(matches!(ctrl_shortcut("NotAKey"), Err(ErrorKind::ParseError)));
    assert!(matches!(ctrl_shortcut("keyq"), Err(ErrorKind::ParseError)));
    assert!(matches!(ctrl_shortcut(""), Err(ErrorKind::ParseError)));
    assert!(matches!(ctrl_shortcut("Ctrl+Q"), Err(ErrorKind::ParseError)));
}

#[test]
fn default_binding_is_ctrl_q() {
    let reg = Registry::new();
    let active = reg.active().unwrap();
    assert!(active.matches(&ctrl("KeyQ")));
    assert!(!active.matches(&ctrl("KeyW")));
    assert!(Registry::unregistered().active().is_none());
}

#[test]
fn trigger_fires_once_per_stroke() {
    let reg = Registry::new();
    let q = ctrl("KeyQ");
    let mut fired = 0;
    for _ in 0..3 {
        for state in [KeyState::Pressed, KeyState::Released] {
            if reg.is_triggered(&q, state) {
                fired += 1;
            }
        }
    }
    assert_eq!(fired, 3);
}

#[test]
fn other_combinations_do_not_fire() {
    let reg = Registry::new();
    assert!(!reg.is_triggered(&ctrl("KeyW"), KeyState::Pressed));
    let shift_q = Shortcut::new(
        Modifiers { shift: true, control: true, alt: false, meta: false },
        "KeyQ".to_string(),
    );
    assert!(!reg.is_triggered(&shift_q, KeyState::Pressed));
    assert!(!Registry::unregistered().is_triggered(&ctrl("KeyQ"), KeyState::Pressed));
}

#[test]
fn rebind_retires_previous_binding() {
    let mut reg = Registry::new();
    let plan = reg.rebind_to("KeyW").unwrap();
    assert!(plan.retire.as_ref().unwrap().matches(&ctrl("KeyQ")));
    assert!(plan.install.matches(&ctrl("KeyW")));
    assert_eq!(reg.commit(plan, true), Ok(()));
    assert!(!reg.is_triggered(&ctrl("KeyQ"), KeyState::Pressed));
    assert!(reg.is_triggered(&ctrl("KeyW"), KeyState::Pressed));
}

#[test]
fn refused_rebind_restores_previous_binding() {
    let mut reg = Registry::new();
    let plan = reg.rebind_to("KeyW").unwrap();
    assert_eq!(reg.commit(plan, false), Err(ErrorKind::RegistrationConflict));
    assert!(reg.is_triggered(&ctrl("KeyQ"), KeyState::Pressed));
    assert!(!reg.is_triggered(&ctrl("KeyW"), KeyState::Pressed));
}

#[test]
fn rebind_to_invalid_key_is_parse_error() {
    let reg = Registry::new();
    assert!(matches!(reg.rebind_to("NoSuchKey"), Err(ErrorKind::ParseError)));
    assert!(reg.is_triggered(&ctrl("KeyQ"), KeyState::Pressed));
}

#[test]
fn rebind_from_unregistered_retires_nothing() {
    let mut reg = Registry::unregistered();
    let plan = reg.plan_rebind(ctrl("Digit1"));
    assert!(plan.retire.is_none());
    assert_eq!(reg.commit(plan, true), Ok(()));
    assert!(reg.is_triggered(&ctrl("Digit1"), KeyState::Pressed));
}

#[test]
fn default_shortcut_pastes_hello_world() {
    let reg = Registry::new();
    let steps = on_hotkey(&reg, &ctrl("KeyQ"), KeyState::Pressed);
    assert!(is_hello_world_paste(&steps));
}

#[test]
fn release_and_other_keys_do_nothing() {
    let reg = Registry::new();
    assert!(on_hotkey(&reg, &ctrl("KeyQ"), KeyState::Released).is_empty());
    assert!(on_hotkey(&reg, &ctrl("KeyW"), KeyState::Pressed).is_empty());
}

#[test]
fn paste_plan_puts_text_first() {
    assert_eq!(paste_text(), "hello world");
    let steps = paste_plan("abc");
    assert_eq!(steps.len(), 4);
    assert!(matches!(&steps[0], PasteStep::SetClipboard(t) if t == "abc"));
    assert!(matches!(&steps[3], PasteStep::Key(Key::Meta, Direction::Release)));
}

#[test]
fn failures_map_to_error_kinds() {
    let steps = paste_plan("x");
    assert_eq!(failure_kind(&steps[0]), ErrorKind::ClipboardUnavailable);
    assert_eq!(failure_kind(&steps[1]), ErrorKind::InputInjectionFailed);
    assert_eq!(failure_kind(&steps[2]), ErrorKind::InputInjectionFailed);
}

#[test]
fn close_hides_without_exit() {
    let mut shell = Shell::new();
    assert_eq!(shell.handle(WindowEvent::CloseRequested), ShellAction::HideWindow);
    assert!(shell.running);
    assert!(!shell.visible);
    assert_eq!(shell.handle(WindowEvent::CloseRequested), ShellAction::HideWindow);
    assert_eq!(shell.handle(WindowEvent::ShowRequested), ShellAction::ShowWindow);
    assert!(shell.visible && shell.running);
}

#[test]
fn quit_exits_and_stays_exited() {
    let mut shell = Shell::new();
    assert_eq!(shell.handle(WindowEvent::QuitRequested), ShellAction::Exit);
    assert!(!shell.running);
    assert_eq!(shell.handle(WindowEvent::ShowRequested), ShellAction::Ignore);
    assert!(!shell.running);
}
