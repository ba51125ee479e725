//! The two managed windows and the coordinator that decides, for every
//! trigger, what becomes of them and which commands the host must issue.

use vstd::prelude::*;

verus! {

/// The two windows the controller manages.
#[derive(Clone, Copy, Debug, PartialEq, Eq, Structural)]
pub enum Window {
    /// The small, always-present trigger widget.
    Bubble,
    /// The primary interaction surface.
    Main,
}

/// A window size in logical pixels.
#[derive(Clone, Copy, Debug, PartialEq, Eq, Structural)]
pub struct LogicalSize {
    pub width: u32,
    pub height: u32,
}

// The sizes forced on `main`, in logical pixels.

pub const TOGGLE_WIDTH: u32 = 480;

pub const TOGGLE_HEIGHT: u32 = 640;

pub const QUICK_SEARCH_WIDTH: u32 = 600;

pub const QUICK_SEARCH_HEIGHT: u32 = 60;

pub const RESTORED_WIDTH: u32 = 1000;

pub const RESTORED_HEIGHT: u32 = 800;

pub const FULL_MODE_WIDTH: u32 = 400;

pub const FULL_MODE_HEIGHT: u32 = 600;

/// Size forced on `main` when the bubble's toggle signal reveals it.
pub open spec fn toggle_size() -> LogicalSize {
    LogicalSize { width: TOGGLE_WIDTH, height: TOGGLE_HEIGHT }
}

/// Compact size of `main` in quick-search mode.
pub open spec fn quick_search_size() -> LogicalSize {
    LogicalSize { width: QUICK_SEARCH_WIDTH, height: QUICK_SEARCH_HEIGHT }
}

/// Size to which `main` is reset when quick search hides it.
pub open spec fn restored_size() -> LogicalSize {
    LogicalSize { width: RESTORED_WIDTH, height: RESTORED_HEIGHT }
}

/// Size forced on `main` by the full-mode shortcut.
pub open spec fn full_mode_size() -> LogicalSize {
    LogicalSize { width: FULL_MODE_WIDTH, height: FULL_MODE_HEIGHT }
}

/// Where a window stands on screen.
#[derive(Clone, Copy, Debug, PartialEq, Eq, Structural)]
pub enum Placement {
    /// Never placed by the coordinator.
    Unset,
    /// Centered on its monitor.
    Centered,
    /// At a position in physical pixels.
    At { x: i32, y: i32 },
}

/// What the coordinator knows of one window.
#[derive(Clone, Copy, Debug, PartialEq, Eq, Structural)]
pub struct WindowState {
    pub visible: bool,
    /// The last size the coordinator forced; `None` while the window still has
    /// the size it was created with.
    pub size: Option<LogicalSize>,
    pub placement: Placement,
}

/// A payload-free event delivered to a window's embedded interface.
#[derive(Clone, Copy, Debug, PartialEq, Eq, Structural)]
pub enum Signal {
    ToggleMain,
    QuickSearchTrigger,
    FullModeTrigger,
    NoInternet,
}

impl Signal {
    /// The event name on the wire.
    pub open spec fn spec_name(self) -> Seq<char> {
        match self {
            Signal::ToggleMain => "toggle_main"@,
            Signal::QuickSearchTrigger => "quick_search_trigger"@,
            Signal::FullModeTrigger => "full_mode_trigger"@,
            Signal::NoInternet => "no_internet"@,
        }
    }

    /// The event name on the wire.
    pub fn name(self) -> (s: &'static str)
        ensures
            s@ == self.spec_name(),
    {
        match self {
            Signal::ToggleMain => "toggle_main",
            Signal::QuickSearchTrigger => "quick_search_trigger",
            Signal::FullModeTrigger => "full_mode_trigger",
            Signal::NoInternet => "no_internet",
        }
    }
}

impl Window {
    /// The label under which the host knows the window.
    pub open spec fn spec_label(self) -> Seq<char> {
        match self {
            Window::Bubble => "bubble"@,
            Window::Main => "main"@,
        }
    }

    /// The label under which the host knows the window.
    pub fn label(self) -> (s: &'static str)
        ensures
            s@ == self.spec_label(),
    {
        match self {
            Window::Bubble => "bubble",
            Window::Main => "main",
        }
    }
}

/// One instruction for the host's window system.
#[derive(Clone, Copy, Debug, PartialEq, Eq, Structural)]
pub enum Command {
    Show,
    Hide,
    Focus,
    Resize(LogicalSize),
    Center,
    MoveTo { x: i32, y: i32 },
    Emit(Signal),
    /// Veto the close the operating system asked for.
    PreventClose,
}

/// A command addressed to one window.
#[derive(Clone, Copy, Debug, PartialEq, Eq, Structural)]
pub struct Effect {
    pub target: Window,
    pub command: Command,
}

/// Everything that can move a window.
#[derive(Clone, Copy, Debug, PartialEq, Eq, Structural)]
pub enum Trigger {
    /// The bubble's interface fired the cross-window toggle signal.
    ToggleSignal,
    /// The quick-search shortcut was pressed.
    QuickSearch,
    /// The force-full-mode shortcut was pressed.
    ForceFullMode,
    /// The hide-mode shortcut was pressed.
    HideMode,
    /// The interface asked to flip `main` without touching its geometry.
    ToggleCommand,
    /// The interface asked to show `main`.
    ShowCommand,
    /// The interface asked to hide `main`.
    HideCommand,
    /// Startup is over and `main` is to be revealed.
    Reveal,
    /// The bubble is to be pinned at a position in physical pixels.
    PinBubble { x: i32, y: i32 },
    /// The operating system asks to close a window.
    CloseRequested(Window),
    /// The operating system has destroyed a window.
    Destroyed(Window),
}

/// The visibility and geometry of both windows.
#[derive(Clone, Copy, Debug, PartialEq, Eq, Structural)]
pub struct Coordinator {
    pub bubble: WindowState,
    pub main: WindowState,
}

/// The effect `command` on `main`.
pub open spec fn on_main(command: Command) -> Effect {
    Effect { target: Window::Main, command }
}

/// The effect `command` on `bubble`.
pub open spec fn on_bubble(command: Command) -> Effect {
    Effect { target: Window::Bubble, command }
}

impl WindowState {
    /// The window on screen, otherwise unchanged.
    pub open spec fn shown(self) -> WindowState {
        WindowState { visible: true, ..self }
    }

    /// The window off screen, otherwise unchanged.
    pub open spec fn hidden(self) -> WindowState {
        WindowState { visible: false, ..self }
    }

    /// The window at a forced size, otherwise unchanged.
    pub open spec fn sized(self, size: LogicalSize) -> WindowState {
        WindowState { size: Some(size), ..self }
    }

    /// The window centered on its monitor, otherwise unchanged.
    pub open spec fn centered(self) -> WindowState {
        WindowState { placement: Placement::Centered, ..self }
    }
}

impl Coordinator {
    /// The state at launch: the bubble on screen, `main` hidden, no geometry
    /// forced yet.
    pub open spec fn spec_new() -> Coordinator {
        Coordinator {
            bubble: WindowState { visible: true, size: None, placement: Placement::Unset },
            main: WindowState { visible: false, size: None, placement: Placement::Unset },
        }
    }

    /// The state after `trigger`.
    pub open spec fn spec_next(self, trigger: Trigger) -> Coordinator {
        match trigger {
            Trigger::ToggleSignal => if self.main.visible {
                Coordinator { main: self.main.hidden(), ..self }
            } else {
                Coordinator { main: self.main.sized(toggle_size()).shown(), ..self }
            },
            Trigger::QuickSearch => if self.main.visible {
                Coordinator { main: self.main.hidden().sized(restored_size()).centered(), ..self }
            } else {
                Coordinator {
                    main: self.main.sized(quick_search_size()).centered().shown(),
                    ..self
                }
            },
            Trigger::ForceFullMode => Coordinator {
                main: self.main.sized(full_mode_size()).centered().shown(),
                ..self
            },
            Trigger::HideMode => if self.bubble.visible {
                Coordinator { bubble: self.bubble.hidden(), main: self.main.hidden() }
            } else {
                Coordinator { bubble: self.bubble.shown(), ..self }
            },
            Trigger::ToggleCommand => if self.main.visible {
                Coordinator { main: self.main.hidden(), ..self }
            } else {
                Coordinator { main: self.main.shown(), ..self }
            },
            Trigger::ShowCommand => Coordinator { main: self.main.shown(), ..self },
            Trigger::HideCommand => Coordinator { main: self.main.hidden(), ..self },
            Trigger::Reveal => Coordinator { main: self.main.shown(), ..self },
            Trigger::PinBubble { x, y } => Coordinator {
                bubble: WindowState { placement: Placement::At { x, y }, ..self.bubble },
                ..self
            },
            Trigger::CloseRequested(Window::Main) => Coordinator {
                main: self.main.hidden(),
                ..self
            },
            Trigger::CloseRequested(Window::Bubble) => self,
            Trigger::Destroyed(Window::Bubble) => Coordinator {
                bubble: self.bubble.hidden(),
                ..self
            },
            Trigger::Destroyed(Window::Main) => Coordinator { main: self.main.hidden(), ..self },
        }
    }

    /// The commands the host must issue for `trigger`, in order.
    pub open spec fn spec_effects(self, trigger: Trigger) -> Seq<Effect> {
        match trigger {
            Trigger::ToggleSignal => if self.main.visible {
                seq![on_main(Command::Hide)]
            } else {
                seq![
                    on_main(Command::Resize(toggle_size())),
                    on_main(Command::Show),
                    on_main(Command::Focus),
                ]
            },
            Trigger::QuickSearch => if self.main.visible {
                seq![
                    on_main(Command::Hide),
                    on_main(Command::Resize(restored_size())),
                    on_main(Command::Center),
                ]
            } else {
                seq![
                    on_main(Command::Resize(quick_search_size())),
                    on_main(Command::Center),
                    on_main(Command::Show),
                    on_main(Command::Focus),
                    on_main(Command::Emit(Signal::QuickSearchTrigger)),
                ]
            },
            Trigger::ForceFullMode => seq![
                on_main(Command::Resize(full_mode_size())),
                on_main(Command::Center),
                on_main(Command::Show),
                on_main(Command::Focus),
                on_main(Command::Emit(Signal::FullModeTrigger)),
            ],
            Trigger::HideMode => if self.bubble.visible {
                seq![on_bubble(Command::Hide), on_main(Command::Hide)]
            } else {
                seq![on_bubble(Command::Show)]
            },
            Trigger::ToggleCommand => if self.main.visible {
                seq![on_main(Command::Hide)]
            } else {
                seq![on_main(Command::Show), on_main(Command::Focus)]
            },
            Trigger::ShowCommand => seq![on_main(Command::Show), on_main(Command::Focus)],
            Trigger::HideCommand => seq![on_main(Command::Hide)],
            Trigger::Reveal => seq![on_main(Command::Show), on_main(Command::Focus)],
            Trigger::PinBubble { x, y } => seq![on_bubble(Command::MoveTo { x, y })],
            Trigger::CloseRequested(Window::Main) => seq![
                on_main(Command::PreventClose),
                on_main(Command::Hide),
            ],
            Trigger::CloseRequested(Window::Bubble) => seq![],
            Trigger::Destroyed(_) => seq![],
        }
    }

    /// Whether `trigger` ends the application: only the destruction of the
    /// bubble does.
    pub open spec fn spec_ends_application(trigger: Trigger) -> bool {
        trigger == Trigger::Destroyed(Window::Bubble)
    }
}

fn main_effect(command: Command) -> (e: Effect)
    ensures
        e == on_main(command),
{
    Effect { target: Window::Main, command }
}

fn bubble_effect(command: Command) -> (e: Effect)
    ensures
        e == on_bubble(command),
{
    Effect { target: Window::Bubble, command }
}

impl Coordinator {
    /// The state at launch.
    pub fn new() -> (c: Coordinator)
        ensures
            c == Coordinator::spec_new(),
    {
        Coordinator {
            bubble: WindowState { visible: true, size: None, placement: Placement::Unset },
            main: WindowState { visible: false, size: None, placement: Placement::Unset },
        }
    }

    /// Takes over what the window system reports of a window's visibility,
    /// and leaves everything else as it is.
    pub fn observe(&mut self, window: Window, visible: bool)
        ensures
            window == Window::Main ==> *final(self) == (Coordinator {
                main: WindowState { visible, ..old(self).main },
                ..*old(self)
            }),
            window == Window::Bubble ==> *final(self) == (Coordinator {
                bubble: WindowState { visible, ..old(self).bubble },
                ..*old(self)
            }),
    {
        match window {
            Window::Main => {
                self.main.visible = visible;
            },
            Window::Bubble => {
                self.bubble.visible = visible;
            },
        }
    }

    /// Whether `window` is on screen, as far as the coordinator knows.
    pub fn is_visible(&self, window: Window) -> (v: bool)
        ensures
            v == match window {
                Window::Main => self.main.visible,
                Window::Bubble => self.bubble.visible,
            },
    {
        match window {
            Window::Main => self.main.visible,
            Window::Bubble => self.bubble.visible,
        }
    }

    /// Applies `trigger`: moves to the next state and returns the commands the
    /// host must issue, in order.
    pub fn dispatch(&mut self, trigger: Trigger) -> (effects: Vec<Effect>)
        ensures
            *final(self) == old(self).spec_next(trigger),
            effects@ == old(self).spec_effects(trigger),
    {
        let ghost before = *self;
        let mut effects: Vec<Effect> = Vec::new();
        match trigger {
            Trigger::ToggleSignal => {
                if self.main.visible {
                    self.main.visible = false;
                    effects.push(main_effect(Command::Hide));
                } else {
                    let size = LogicalSize { width: TOGGLE_WIDTH, height: TOGGLE_HEIGHT };
                    self.main.size = Some(size);
                    self.main.visible = true;
                    effects.push(main_effect(Command::Resize(size)));
                    effects.push(main_effect(Command::Show));
                    effects.push(main_effect(Command::Focus));
                }
            },
            Trigger::QuickSearch => {
                if self.main.visible {
                    let size = LogicalSize { width: RESTORED_WIDTH, height: RESTORED_HEIGHT };
                    self.main.visible = false;
                    self.main.size = Some(size);
                    self.main.placement = Placement::Centered;
                    effects.push(main_effect(Command::Hide));
                    effects.push(main_effect(Command::Resize(size)));
                    effects.push(main_effect(Command::Center));
                } else {
                    let size = LogicalSize {
                        width: QUICK_SEARCH_WIDTH,
                        height: QUICK_SEARCH_HEIGHT,
                    };
                    self.main.size = Some(size);
                    self.main.placement = Placement::Centered;
                    self.main.visible = true;
                    effects.push(main_effect(Command::Resize(size)));
                    effects.push(main_effect(Command::Center));
                    effects.push(main_effect(Command::Show));
                    effects.push(main_effect(Command::Focus));
                    effects.push(main_effect(Command::Emit(Signal::QuickSearchTrigger)));
                }
            },
            Trigger::ForceFullMode => {
                let size = LogicalSize { width: FULL_MODE_WIDTH, height: FULL_MODE_HEIGHT };
                self.main.size = Some(size);
                self.main.placement = Placement::Centered;
                self.main.visible = true;
                effects.push(main_effect(Command::Resize(size)));
                effects.push(main_effect(Command::Center));
                effects.push(main_effect(Command::Show));
                effects.push(main_effect(Command::Focus));
                effects.push(main_effect(Command::Emit(Signal::FullModeTrigger)));
            },
            Trigger::HideMode => {
                if self.bubble.visible {
                    self.bubble.visible = false;
                    self.main.visible = false;
                    effects.push(bubble_effect(Command::Hide));
                    effects.push(main_effect(Command::Hide));
                } else {
                    self.bubble.visible = true;
                    effects.push(bubble_effect(Command::Show));
                }
            },
            Trigger::ToggleCommand => {
                if self.main.visible {
                    self.main.visible = false;
                    effects.push(main_effect(Command::Hide));
                } else {
                    self.main.visible = true;
                    effects.push(main_effect(Command::Show));
                    effects.push(main_effect(Command::Focus));
                }
            },
            Trigger::ShowCommand => {
                self.main.visible = true;
                effects.push(main_effect(Command::Show));
                effects.push(main_effect(Command::Focus));
            },
            Trigger::HideCommand => {
                self.main.visible = false;
                effects.push(main_effect(Command::Hide));
            },
            Trigger::Reveal => {
                self.main.visible = true;
                effects.push(main_effect(Command::Show));
                effects.push(main_effect(Command::Focus));
            },
            Trigger::PinBubble { x, y } => {
                self.bubble.placement = Placement::At { x, y };
                effects.push(bubble_effect(Command::MoveTo { x, y }));
            },
            Trigger::CloseRequested(Window::Main) => {
                self.main.visible = false;
                effects.push(main_effect(Command::PreventClose));
                effects.push(main_effect(Command::Hide));
            },
            Trigger::CloseRequested(Window::Bubble) => {},
            Trigger::Destroyed(Window::Bubble) => {
                self.bubble.visible = false;
            },
            Trigger::Destroyed(Window::Main) => {
                self.main.visible = false;
            },
        }
        assert(effects@ =~= before.spec_effects(trigger));
        effects
    }

    /// Whether `trigger` ends the application.
    pub fn ends_application(trigger: Trigger) -> (quit: bool)
        ensures
            quit == Coordinator::spec_ends_application(trigger),
    {
        match trigger {
            Trigger::Destroyed(Window::Bubble) => true,
            _ => false,
        }
    }

    /// Flips `main` without touching its geometry.
    pub fn toggle_main_window(&mut self) -> (effects: Vec<Effect>)
        ensures
            *final(self) == old(self).spec_next(Trigger::ToggleCommand),
            effects@ == old(self).spec_effects(Trigger::ToggleCommand),
    {
        self.dispatch(Trigger::ToggleCommand)
    }

    /// Shows `main` and gives it the input focus.
    pub fn show_main_window(&mut self) -> (effects: Vec<Effect>)
        ensures
            *final(self) == old(self).spec_next(Trigger::ShowCommand),
            effects@ == old(self).spec_effects(Trigger::ShowCommand),
    {
        self.dispatch(Trigger::ShowCommand)
    }

    /// Hides `main`.
    pub fn hide_main_window(&mut self) -> (effects: Vec<Effect>)
        ensures
            *final(self) == old(self).spec_next(Trigger::HideCommand),
            effects@ == old(self).spec_effects(Trigger::HideCommand),
    {
        self.dispatch(Trigger::HideCommand)
    }
}

/// Hiding the bubble hides `main` as well: whenever the bubble is on screen,
/// the hide-mode shortcut leaves both windows hidden, whatever revealed `main`
/// before. In particular, forcing full mode and then pressing hide mode ends
/// with `main` hidden.
pub proof fn lemma_hide_mode_hides_main(c: Coordinator)
    requires
        c.bubble.visible,
    ensures
        !c.spec_next(Trigger::HideMode).main.visible,
        !c.spec_next(Trigger::HideMode).bubble.visible,
        c.spec_effects(Trigger::HideMode).contains(on_main(Command::Hide)),
        !c.spec_next(Trigger::ForceFullMode).spec_next(Trigger::HideMode).main.visible,
{
    let effects = c.spec_effects(Trigger::HideMode);
    assert(effects[1] == on_main(Command::Hide));
}

/// Quick search does not leave its compact size behind. From a hidden `main`,
/// showing it by quick search and hiding it by quick search again leaves the
/// restored size on record; the toggle signal that follows reveals `main` at
/// the toggle size, commanded by the first effect of that reveal.
pub proof fn lemma_quick_search_resets_size(c: Coordinator)
    requires
        !c.main.visible,
    ensures
        ({
            let shown = c.spec_next(Trigger::QuickSearch);
            let hidden = shown.spec_next(Trigger::QuickSearch);
            let revealed = hidden.spec_next(Trigger::ToggleSignal);
            &&& shown.main.visible
            &&& shown.main.size == Some(quick_search_size())
            &&& !hidden.main.visible
            &&& hidden.main.size == Some(restored_size())
            &&& revealed.main.visible
            &&& revealed.main.size == Some(toggle_size())
            &&& revealed.main.size != Some(quick_search_size())
            &&& hidden.spec_effects(Trigger::ToggleSignal)[0] == on_main(
                Command::Resize(toggle_size()),
            )
        }),
{
}

/// The full-mode shortcut is idempotent: pressed twice it leaves the state it
/// left the first time, and it asks for the same commands whatever the state.
pub proof fn lemma_force_full_mode_idempotent(c: Coordinator, d: Coordinator)
    ensures
        c.spec_next(Trigger::ForceFullMode).spec_next(Trigger::ForceFullMode) == c.spec_next(
            Trigger::ForceFullMode,
        ),
        c.spec_effects(Trigger::ForceFullMode) == d.spec_effects(Trigger::ForceFullMode),
        c.spec_next(Trigger::ForceFullMode).main.visible,
{
}

/// A close request never changes the geometry of `main`, and never ends the
/// application.
pub proof fn lemma_close_request_only_hides(c: Coordinator, window: Window)
    ensures
        c.spec_next(Trigger::CloseRequested(window)).main.size == c.main.size,
        c.spec_next(Trigger::CloseRequested(window)).main.placement == c.main.placement,
        !c.spec_next(Trigger::CloseRequested(Window::Main)).main.visible,
        !Coordinator::spec_ends_application(Trigger::CloseRequested(window)),
{
}

} // verus!
