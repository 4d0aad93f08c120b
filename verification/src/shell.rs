use vstd::prelude::*;
use crate::gpu::BackendModel;
use crate::gpu::WGpuState;

verus! {

/// Identifies one created platform window. Windows are numbered in creation
/// order, so the n-th window the shell asks for carries id n.
#[derive(Clone, Copy, PartialEq, Eq, Structural, Debug)]
pub struct WindowHandle {
    pub id: u64,
}

/// The attributes the shell asks for when it creates a window: a title, an
/// initial size in physical pixels, and whether the window starts visible.
pub struct WindowConfig {
    pub title: String,
    pub width: u32,
    pub height: u32,
    pub visible: bool,
}

/// Mathematical view of a `WindowConfig`.
pub ghost struct ConfigModel {
    pub title: Seq<char>,
    pub width: nat,
    pub height: nat,
    pub visible: bool,
}

impl View for WindowConfig {
    type V = ConfigModel;

    open spec fn view(&self) -> ConfigModel {
        ConfigModel {
            title: self.title@,
            width: self.width as nat,
            height: self.height as nat,
            visible: self.visible,
        }
    }
}

/// Lifecycle phase of the window shell: no window yet, a window exists, or
/// the event loop has been told to exit.
#[derive(Clone, Copy, PartialEq, Eq, Structural, Debug)]
pub enum Phase {
    Uninitialized,
    Running,
    Exited,
}

/// The two kinds of window event the shell distinguishes: a close request,
/// and everything else, which it ignores.
#[derive(Clone, Copy, PartialEq, Eq, Structural, Debug)]
pub enum WindowEventKind {
    CloseRequested,
    Other,
}

/// A lifecycle event delivered to the shell by the platform event loop.
#[derive(Clone, Copy, PartialEq, Eq, Structural, Debug)]
pub enum ShellEvent {
    Resumed,
    Window(WindowEventKind),
}

/// What the platform layer must do after the shell has handled an event.
#[derive(Clone, Copy, PartialEq, Eq, Structural, Debug)]
pub enum ShellAction {
    CreateWindow,
    ExitLoop,
    Ignore,
}

/// Mathematical view of the shell: its phase, its configuration, the id of
/// the current window if one exists, the backend stub if one exists, and how
/// many windows have been created in all.
pub ghost struct ShellModel {
    pub phase: Phase,
    pub config: ConfigModel,
    pub window: Option<nat>,
    pub backend: Option<BackendModel>,
    pub windows_created: nat,
}

impl ShellModel {
    /// The state of a freshly constructed shell: nothing created yet.
    pub open spec fn init(config: ConfigModel) -> ShellModel {
        ShellModel {
            phase: Phase::Uninitialized,
            config: config,
            window: None,
            backend: None,
            windows_created: 0,
        }
    }

    /// Well-formedness: before the first resume nothing exists; while running
    /// the current window is the most recently created one and the backend
    /// references exactly that window.
    pub open spec fn inv(self) -> bool {
        &&& (self.phase is Uninitialized ==> {
            &&& self.window is None
            &&& self.backend is None
            &&& self.windows_created == 0
        })
        &&& (self.phase is Running ==> {
            &&& self.window is Some
            &&& self.backend is Some
        })
        &&& (self.window matches Some(id) ==> id + 1 == self.windows_created)
        &&& (self.backend matches Some(b) ==> self.window == Some(b.window))
    }
}

/// The shell's transition function: what one delivered event does to the
/// state, and which action the platform layer must perform for it.
///
/// Once the shell has exited, every event is ignored and nothing changes.
/// Otherwise a resume creates a fresh window (replacing any earlier one,
/// which matches delivering resume more than once) together with a backend
/// stub referencing it, a close request exits the loop, and any other window
/// event is ignored.
pub open spec fn step(m: ShellModel, e: ShellEvent) -> (ShellModel, ShellAction) {
    if m.phase is Exited {
        (m, ShellAction::Ignore)
    } else {
        match e {
            ShellEvent::Resumed => (
                ShellModel {
                    phase: Phase::Running,
                    window: Some(m.windows_created),
                    backend: Some(BackendModel { window: m.windows_created, redraw_requests: 0 }),
                    windows_created: m.windows_created + 1,
                    ..m
                },
                ShellAction::CreateWindow,
            ),
            ShellEvent::Window(WindowEventKind::CloseRequested) => (
                ShellModel { phase: Phase::Exited, ..m },
                ShellAction::ExitLoop,
            ),
            ShellEvent::Window(WindowEventKind::Other) => (m, ShellAction::Ignore),
        }
    }
}

/// The window shell: owns the configuration, the handle of the current
/// window, and the render backend stub. The platform layer delivers events
/// through `on_resumed` and `on_window_event` and performs the returned
/// actions; the shell itself decides everything.
pub struct Shell {
    phase: Phase,
    config: WindowConfig,
    window: Option<WindowHandle>,
    state: Option<WGpuState>,
    windows_created: u64,
}

impl View for Shell {
    type V = ShellModel;

    closed spec fn view(&self) -> ShellModel {
        ShellModel {
            phase: self.phase,
            config: self.config@,
            window: match self.window {
                Some(h) => Some(h.id as nat),
                None => None,
            },
            backend: match self.state {
                Some(ref s) => Some(s@),
                None => None,
            },
            windows_created: self.windows_created as nat,
        }
    }
}

impl Shell {
    /// A fresh shell that will ask for windows with the given attributes.
    pub fn new(config: WindowConfig) -> (s: Shell)
        ensures
            s@ == ShellModel::init(config@),
            s@.inv(),
    {
        Shell {
            phase: Phase::Uninitialized,
            config: config,
            window: None,
            state: None,
            windows_created: 0,
        }
    }

    /// Handle the platform's resume event, exactly as `step` describes it:
    /// unless the shell has already exited, one window is created and a fresh
    /// backend stub referencing it is constructed.
    pub fn on_resumed(&mut self) -> (a: ShellAction)
        requires
            old(self)@.inv(),
            old(self)@.windows_created < u64::MAX,
        ensures
            final(self)@ == step(old(self)@, ShellEvent::Resumed).0,
            a == step(old(self)@, ShellEvent::Resumed).1,
            final(self)@.inv(),
    {
        match self.phase {
            Phase::Exited => ShellAction::Ignore,
            _ => {
                let handle = WindowHandle { id: self.windows_created };
                self.window = Some(handle);
                self.state = Some(WGpuState::new(handle));
                self.windows_created = self.windows_created + 1;
                self.phase = Phase::Running;
                ShellAction::CreateWindow
            },
        }
    }

    /// Handle one window event, exactly as `step` describes it: a close
    /// request exits the loop, everything else is ignored.
    pub fn on_window_event(&mut self, kind: WindowEventKind) -> (a: ShellAction)
        requires
            old(self)@.inv(),
        ensures
            final(self)@ == step(old(self)@, ShellEvent::Window(kind)).0,
            a == step(old(self)@, ShellEvent::Window(kind)).1,
            final(self)@.inv(),
    {
        match self.phase {
            Phase::Exited => ShellAction::Ignore,
            _ => {
                match kind {
                    WindowEventKind::CloseRequested => {
                        self.phase = Phase::Exited;
                        ShellAction::ExitLoop
                    },
                    WindowEventKind::Other => ShellAction::Ignore,
                }
            },
        }
    }

    /// The current lifecycle phase.
    pub fn phase(&self) -> (p: Phase)
        ensures
            p == self@.phase,
    {
        self.phase
    }

    /// The attributes the shell asks for when it creates a window.
    pub fn config(&self) -> (c: &WindowConfig)
        ensures
            c@ == self@.config,
    {
        &self.config
    }

    /// The handle of the current window, if one exists.
    pub fn window(&self) -> (w: Option<WindowHandle>)
        ensures
            w is Some <==> self@.window is Some,
            w matches Some(h) ==> self@.window == Some(h.id as nat),
    {
        self.window
    }

    /// The render backend stub, if one has been constructed.
    pub fn backend(&self) -> (b: &Option<WGpuState>)
        ensures
            b is Some <==> self@.backend is Some,
            b matches Some(s) ==> self@.backend == Some(s@),
    {
        &self.state
    }

    /// How many windows the shell has created in all.
    pub fn windows_created(&self) -> (n: u64)
        ensures
            n as nat == self@.windows_created,
    {
        self.windows_created
    }
}

} // verus!
