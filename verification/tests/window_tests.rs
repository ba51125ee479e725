use sakura_shell::shortcut::{bindings, fired, Binding, Key, KeyCombo, KeyState, Modifiers};
use sakura_shell::window::{
    Command, Coordinator, Effect, LogicalSize, Placement, Signal, Trigger, Window, WindowState,
};

fn main_fx(command: Command) -> Effect {
    Effect { target: Window::Main, command }
}

fn bubble_fx(command: Command) -> Effect {
    Effect { target: Window::Bubble, command }
}

fn size(width: u32, height: u32) -> LogicalSize {
    LogicalSize { width, height }
}

fn alt(key: Key) -> KeyCombo {
    KeyCombo { modifiers: Modifiers { alt: true, control: false, shift: false, meta: false }, key }
}

#[test]
fn coordinator_starts_with_bubble_shown_and_main_hidden() {
    let c = Coordinator::new();
    assert!(c.is_visible(Window::Bubble));
    assert!(!c.is_visible(Window::Main));
    assert_eq!(c.main, WindowState { visible: false, size: None, placement: Placement::Unset });
    assert_eq!(c.bubble, WindowState { visible: true, size: None, placement: Placement::Unset });
}

#[test]
fn toggle_signal_reveals_main_at_the_toggle_size() {
    let mut c = Coordinator::new();
    let fx = c.dispatch(Trigger::ToggleSignal);
    assert_eq!(
        fx,
        vec![
            main_fx(Command::Resize(size(480, 640))),
            main_fx(Command::Show),
            main_fx(Command::Focus)
        ]
    );
    assert!(c.main.visible);
    assert_eq!(c.main.size, Some(size(480, 640)));
    assert_eq!(c.main.placement, Placement::Unset);
}

#[test]
fn toggle_signal_hides_main_without_touching_geometry() {
    let mut c = Coordinator::new();
    c.dispatch(Trigger::ForceFullMode);
    let before = c.main;
    let fx = c.dispatch(Trigger::ToggleSignal);
    assert_eq!(fx, vec![main_fx(Command::Hide)]);
    assert_eq!(c.main, WindowState { visible: false, ..before });
}

#[test]
fn quick_search_shows_compact_and_centered() {
    let mut c = Coordinator::new();
    let fx = c.dispatch(Trigger::QuickSearch);
    assert_eq!(
        fx,
        vec![
            main_fx(Command::Resize(size(600, 60))),
            main_fx(Command::Center),
            main_fx(Command::Show),
            main_fx(Command::Focus),
            main_fx(Command::Emit(Signal::QuickSearchTrigger)),
        ]
    );
    assert_eq!(
        c.main,
        WindowState { visible: true, size: Some(size(600, 60)), placement: Placement::Centered }
    );
}

#[test]
fn quick_search_hides_and_restores_the_full_size() {
    let mut c = Coordinator::new();
    c.dispatch(Trigger::QuickSearch);
    let fx = c.dispatch(Trigger::QuickSearch);
    assert_eq!(
        fx,
        vec![
            main_fx(Command::Hide),
            main_fx(Command::Resize(size(1000, 800))),
            main_fx(Command::Center),
        ]
    );
    assert_eq!(
        c.main,
        WindowState { visible: false, size: Some(size(1000, 800)), placement: Placement::Centered }
    );
}

#[test]
fn reveal_after_quick_search_does_not_use_the_compact_size() {
    let mut c = Coordinator::new();
    c.dispatch(Trigger::QuickSearch);
    c.dispatch(Trigger::QuickSearch);
    assert_eq!(c.main.size, Some(size(1000, 800)));
    let fx = c.dispatch(Trigger::ToggleSignal);
    assert_eq!(fx[0], main_fx(Command::Resize(size(480, 640))));
    assert!(c.main.visible);
    assert_eq!(c.main.size, Some(size(480, 640)));
    assert_ne!(c.main.size, Some(size(600, 60)));
}

#[test]
fn force_full_mode_is_idempotent() {
    let mut c = Coordinator::new();
    let first = c.dispatch(Trigger::ForceFullMode);
    let after_first = c;
    let second = c.dispatch(Trigger::ForceFullMode);
    assert_eq!(first, second);
    assert_eq!(c, after_first);
    assert_eq!(
        first,
        vec![
            main_fx(Command::Resize(size(400, 600))),
            main_fx(Command::Center),
            main_fx(Command::Show),
            main_fx(Command::Focus),
            main_fx(Command::Emit(Signal::FullModeTrigger)),
        ]
    );
    assert_eq!(
        c.main,
        WindowState { visible: true, size: Some(size(400, 600)), placement: Placement::Centered }
    );
}

#[test]
fn hide_mode_after_full_mode_hides_main_too() {
    let mut c = Coordinator::new();
    assert!(!c.main.visible);
    c.dispatch(Trigger::ForceFullMode);
    assert!(c.main.visible);
    let fx = c.dispatch(Trigger::HideMode);
    assert_eq!(fx, vec![bubble_fx(Command::Hide), main_fx(Command::Hide)]);
    assert!(!c.bubble.visible);
    assert!(!c.main.visible);
}

#[test]
fn hide_mode_shows_the_bubble_again_and_leaves_main_alone() {
    let mut c = Coordinator::new();
    c.dispatch(Trigger::HideMode);
    let main_before = c.main;
    let fx = c.dispatch(Trigger::HideMode);
    assert_eq!(fx, vec![bubble_fx(Command::Show)]);
    assert!(c.bubble.visible);
    assert_eq!(c.main, main_before);
}

#[test]
fn interface_commands_flip_show_and_hide_main() {
    let mut c = Coordinator::new();
    assert_eq!(c.toggle_main_window(), vec![main_fx(Command::Show), main_fx(Command::Focus)]);
    assert!(c.main.visible);
    assert_eq!(c.main.size, None);
    assert_eq!(c.toggle_main_window(), vec![main_fx(Command::Hide)]);
    assert!(!c.main.visible);
    assert_eq!(c.show_main_window(), vec![main_fx(Command::Show), main_fx(Command::Focus)]);
    assert!(c.main.visible);
    assert_eq!(c.hide_main_window(), vec![main_fx(Command::Hide)]);
    assert!(!c.main.visible);
    assert_eq!(c.hide_main_window(), vec![main_fx(Command::Hide)]);
    assert!(!c.main.visible);
}

#[test]
fn close_request_on_main_is_turned_into_hiding() {
    let mut c = Coordinator::new();
    c.dispatch(Trigger::QuickSearch);
    let before = c.main;
    let fx = c.dispatch(Trigger::CloseRequested(Window::Main));
    assert_eq!(fx, vec![main_fx(Command::PreventClose), main_fx(Command::Hide)]);
    assert_eq!(c.main, WindowState { visible: false, ..before });
    assert!(!Coordinator::ends_application(Trigger::CloseRequested(Window::Main)));
}

#[test]
fn close_request_on_bubble_is_let_through() {
    let mut c = Coordinator::new();
    let before = c;
    let fx = c.dispatch(Trigger::CloseRequested(Window::Bubble));
    assert_eq!(fx, vec![]);
    assert_eq!(c, before);
}

#[test]
fn only_the_destruction_of_the_bubble_ends_the_application() {
    assert!(Coordinator::ends_application(Trigger::Destroyed(Window::Bubble)));
    assert!(!Coordinator::ends_application(Trigger::Destroyed(Window::Main)));
    assert!(!Coordinator::ends_application(Trigger::HideMode));
    assert!(!Coordinator::ends_application(Trigger::CloseRequested(Window::Bubble)));
    let mut c = Coordinator::new();
    assert_eq!(c.dispatch(Trigger::Destroyed(Window::Bubble)), vec![]);
    assert!(!c.bubble.visible);
}

#[test]
fn reveal_and_pin_bubble() {
    let mut c = Coordinator::new();
    assert_eq!(c.dispatch(Trigger::Reveal), vec![main_fx(Command::Show), main_fx(Command::Focus)]);
    assert!(c.main.visible);
    assert_eq!(
        c.dispatch(Trigger::PinBubble { x: 1680, y: 810 }),
        vec![bubble_fx(Command::MoveTo { x: 1680, y: 810 })]
    );
    assert_eq!(c.bubble.placement, Placement::At { x: 1680, y: 810 });
}

#[test]
fn observe_takes_over_the_reported_visibility() {
    let mut c = Coordinator::new();
    c.observe(Window::Main, true);
    assert!(c.main.visible);
    assert_eq!(c.dispatch(Trigger::ToggleSignal), vec![main_fx(Command::Hide)]);
    c.observe(Window::Bubble, false);
    assert_eq!(c.dispatch(Trigger::HideMode), vec![bubble_fx(Command::Show)]);
}

#[test]
fn signal_names_and_window_labels() {
    assert_eq!(Signal::ToggleMain.name(), "toggle_main");
    assert_eq!(Signal::QuickSearchTrigger.name(), "quick_search_trigger");
    assert_eq!(Signal::FullModeTrigger.name(), "full_mode_trigger");
    assert_eq!(Signal::NoInternet.name(), "no_internet");
    assert_eq!(Window::Bubble.label(), "bubble");
    assert_eq!(Window::Main.label(), "main");
}

#[test]
fn binding_table_in_registration_order() {
    assert_eq!(
        bindings(),
        vec![Binding::ToggleQuickSearch, Binding::ForceFullMode, Binding::ToggleHideMode]
    );
    assert_eq!(Binding::ToggleQuickSearch.accelerator(), "Alt+S");
    assert_eq!(Binding::ForceFullMode.accelerator(), "Alt+F");
    assert_eq!(Binding::ToggleHideMode.accelerator(), "Alt+M");
    assert_eq!(Binding::ToggleQuickSearch.combo(), alt(Key::S));
    assert_eq!(Binding::ForceFullMode.combo(), alt(Key::F));
    assert_eq!(Binding::ToggleHideMode.combo(), alt(Key::M));
    assert_eq!(Binding::ToggleQuickSearch.trigger(), Trigger::QuickSearch);
    assert_eq!(Binding::ForceFullMode.trigger(), Trigger::ForceFullMode);
    assert_eq!(Binding::ToggleHideMode.trigger(), Trigger::HideMode);
}

#[test]
fn pressed_shortcuts_fire_their_trigger() {
    assert_eq!(fired(alt(Key::S), KeyState::Pressed), vec![Trigger::QuickSearch]);
    assert_eq!(fired(alt(Key::F), KeyState::Pressed), vec![Trigger::ForceFullMode]);
    assert_eq!(fired(alt(Key::M), KeyState::Pressed), vec![Trigger::HideMode]);
}

#[test]
fn released_or_foreign_keys_fire_nothing() {
    assert_eq!(fired(alt(Key::S), KeyState::Released), vec![]);
    assert_eq!(fired(alt(Key::Other), KeyState::Pressed), vec![]);
    let with_shift = KeyCombo {
        modifiers: Modifiers { alt: true, control: false, shift: true, meta: false },
        key: Key::S,
    };
    assert_eq!(fired(with_shift, KeyState::Pressed), vec![]);
    let bare = KeyCombo {
        modifiers: Modifiers { alt: false, control: false, shift: false, meta: false },
        key: Key::M,
    };
    assert_eq!(fired(bare, KeyState::Pressed), vec![]);
    assert!(Binding::ToggleHideMode.matches(alt(Key::M)));
    assert!(!Binding::ToggleHideMode.matches(bare));
}
