//! What a host's event loop does with each event it is handed.
//!
//! A mobile host gets lifecycle events from its activity; a desktop host
//! gets window events from its event loop. Either way the loop itself, the
//! polling and the sleeping are the host's part, and what an event leads
//! to is decided here.

use vstd::prelude::*;

verus! {

/// A native window as the host sees it: an identity that tells two windows
/// apart, and its size.
#[derive(Clone, Copy, Debug, PartialEq, Eq, Structural)]
pub struct WindowInfo {
    pub id: u64,
    pub width: u32,
    pub height: u32,
}

/// A lifecycle event of a mobile activity. Window events carry the native
/// window, if the activity has one at that moment.
#[derive(Clone, Copy, Debug, PartialEq, Eq)]
pub enum HostEvent {
    Destroy,
    TerminateWindow,
    Pause,
    Resume,
    InitWindow { window: Option<WindowInfo> },
    WindowResized { window: Option<WindowInfo> },
    RedrawNeeded,
    Other,
}

/// What the host has to do about a lifecycle event.
#[derive(Clone, Copy, Debug, PartialEq, Eq, Structural)]
pub enum HostCommand {
    Nothing,
    /// Shut the engine down.
    Shutdown,
    /// Initialize the engine on this window.
    Initialize { window: WindowInfo },
    /// Resize the engine's surface.
    Resize { width: u32, height: u32 },
}

/// The state of a mobile host's loop.
#[derive(Clone, Copy, Debug, PartialEq, Eq, Structural)]
pub struct HostLoop {
    /// The loop ends once this is set.
    pub quit: bool,
    /// No frames are made while the activity is paused.
    pub suspended: bool,
    pub redraw_requested: bool,
    /// Whether the loop has already said that it is waiting for the engine.
    pub waiting_logged: bool,
}

/// An event of a desktop window.
#[derive(Clone, Copy, Debug, PartialEq, Eq, Structural)]
pub enum WindowEvent {
    CloseRequested,
    Resized { width: u32, height: u32 },
    RedrawRequested,
    AboutToWait,
    Other,
}

/// What a desktop host has to do about a window event.
#[derive(Clone, Copy, Debug, PartialEq, Eq, Structural)]
pub enum WindowCommand {
    Nothing,
    /// Leave the event loop.
    Exit,
    /// Resize the engine's surface, then ask for a redraw.
    Resize { width: u32, height: u32 },
    /// Update and render, then ask for a redraw.
    Frame,
    /// Ask for a redraw.
    RequestRedraw,
}

impl HostLoop {
    /// The loop as it starts: running, not suspended, with a redraw due.
    pub open spec fn initial() -> HostLoop {
        HostLoop { quit: false, suspended: false, redraw_requested: true, waiting_logged: false }
    }

    /// The loop as it starts.
    pub fn new() -> (state: HostLoop)
        ensures
            state == Self::initial(),
    {
        HostLoop { quit: false, suspended: false, redraw_requested: true, waiting_logged: false }
    }

    /// Whether a resize event for `window` calls for a new surface: there
    /// is a surface, and it was made on another window.
    pub open spec fn needs_new_surface(surface_window: Option<u64>, window: WindowInfo) -> bool {
        surface_window matches Some(id) && id != window.id
    }

    /// The command that `event` leads to. `surface_window` is the identity
    /// of the window that the current surface was made on, if there is a
    /// surface.
    pub open spec fn command_for(event: HostEvent, surface_window: Option<u64>) -> HostCommand {
        match event {
            HostEvent::Destroy => HostCommand::Shutdown,
            HostEvent::TerminateWindow => HostCommand::Shutdown,
            HostEvent::InitWindow { window: Some(window) } => HostCommand::Initialize { window },
            HostEvent::WindowResized { window: Some(window) } => if Self::needs_new_surface(
                surface_window,
                window,
            ) {
                HostCommand::Initialize { window }
            } else {
                HostCommand::Resize { width: window.width, height: window.height }
            },
            _ => HostCommand::Nothing,
        }
    }

    /// The loop's state after `event`.
    pub open spec fn after(self, event: HostEvent) -> HostLoop {
        match event {
            HostEvent::Destroy => HostLoop { quit: true, ..self },
            HostEvent::Pause => HostLoop { suspended: true, ..self },
            HostEvent::Resume => HostLoop { suspended: false, ..self },
            HostEvent::InitWindow { window } => HostLoop { suspended: false, ..self },
            HostEvent::RedrawNeeded => HostLoop { redraw_requested: true, ..self },
            _ => self,
        }
    }

    /// Takes a lifecycle event and returns what the host has to do.
    pub fn on_event(&mut self, event: HostEvent, surface_window: Option<u64>) -> (command:
        HostCommand)
        ensures
            command == Self::command_for(event, surface_window),
            *final(self) == old(self).after(event),
    {
        match event {
            HostEvent::Destroy => {
                self.quit = true;
                HostCommand::Shutdown
            },
            HostEvent::TerminateWindow => HostCommand::Shutdown,
            HostEvent::Pause => {
                self.suspended = true;
                HostCommand::Nothing
            },
            HostEvent::Resume => {
                self.suspended = false;
                HostCommand::Nothing
            },
            HostEvent::InitWindow { window } => {
                self.suspended = false;
                match window {
                    Some(window) => HostCommand::Initialize { window },
                    None => HostCommand::Nothing,
                }
            },
            HostEvent::WindowResized { window } => match window {
                Some(window) => {
                    let changed = match surface_window {
                        Some(id) => id != window.id,
                        None => false,
                    };
                    if changed {
                        HostCommand::Initialize { window }
                    } else {
                        HostCommand::Resize { width: window.width, height: window.height }
                    }
                },
                None => HostCommand::Nothing,
            },
            HostEvent::RedrawNeeded => {
                self.redraw_requested = true;
                HostCommand::Nothing
            },
            HostEvent::Other => HostCommand::Nothing,
        }
    }

    /// Whether the loop updates and renders in this round: the activity is
    /// not paused and the engine is up.
    pub open spec fn spec_frame_due(self, initialized: bool) -> bool {
        !self.suspended && initialized
    }

    /// Whether the loop updates and renders in this round.
    pub fn frame_due(&self, initialized: bool) -> (due: bool)
        ensures
            due == self.spec_frame_due(initialized),
    {
        !self.suspended && initialized
    }

    /// Whether the loop says in this round that it is waiting for the
    /// engine: the engine is not up, and the loop has not said so before.
    pub open spec fn spec_reports_waiting(self, initialized: bool) -> bool {
        !initialized && !self.waiting_logged
    }

    /// The loop's state after a round in which it had the chance to say that
    /// it is waiting.
    pub open spec fn after_waiting(self, initialized: bool) -> HostLoop {
        if self.spec_reports_waiting(initialized) {
            HostLoop { waiting_logged: true, ..self }
        } else {
            self
        }
    }

    /// Returns whether to say, in this round, that the loop is waiting for
    /// the engine. It is said at most once.
    pub fn report_waiting(&mut self, initialized: bool) -> (report: bool)
        ensures
            report == old(self).spec_reports_waiting(initialized),
            *final(self) == old(self).after_waiting(initialized),
    {
        if !initialized && !self.waiting_logged {
            self.waiting_logged = true;
            true
        } else {
            false
        }
    }
}

/// The state of the loop after a run of events.
pub open spec fn after_all(state: HostLoop, events: Seq<HostEvent>) -> HostLoop
    decreases events.len(),
{
    if events.len() == 0 {
        state
    } else {
        after_all(state, events.drop_last()).after(events.last())
    }
}

/// Once the activity was destroyed the loop ends, whatever comes after:
/// no event takes `quit` back.
pub proof fn lemma_quit_is_final(state: HostLoop, events: Seq<HostEvent>)
    requires
        state.quit,
    ensures
        after_all(state, events).quit,
    decreases events.len(),
{
    if events.len() > 0 {
        lemma_quit_is_final(state, events.drop_last());
    }
}

/// A paused activity makes no frames until it is resumed or gets a new
/// window, and it is never initialized or resized on an event that carries
/// no window.
pub proof fn lemma_paused_makes_no_frames(state: HostLoop, event: HostEvent, initialized: bool)
    requires
        state.suspended,
        event != HostEvent::Resume,
        !(event is InitWindow),
    ensures
        !state.after(event).spec_frame_due(initialized),
{
}

/// The size that a signed size stands for: itself if it is not negative,
/// else its two's complement, which is larger than any size a device
/// allows and is cut down like any other size that is too large.
pub open spec fn extent_of(signed: i32) -> u32 {
    if signed >= 0 {
        signed as u32
    } else {
        (signed + 0x1_0000_0000) as u32
    }
}

/// Reads a size that a foreign interface passed as a signed number.
pub fn extent_from_signed(signed: i32) -> (extent: u32)
    ensures
        extent == extent_of(signed),
        signed < 0 ==> extent > i32::MAX,
{
    if signed >= 0 {
        signed as u32
    } else {
        let wrapped: i64 = (signed as i64) + 0x1_0000_0000;
        wrapped as u32
    }
}

/// What `event` of a desktop window leads to. A resize to nothing is
/// ignored.
pub open spec fn window_command_for(event: WindowEvent) -> WindowCommand {
    match event {
        WindowEvent::CloseRequested => WindowCommand::Exit,
        WindowEvent::Resized { width, height } => if width > 0 && height > 0 {
            WindowCommand::Resize { width, height }
        } else {
            WindowCommand::Nothing
        },
        WindowEvent::RedrawRequested => WindowCommand::Frame,
        WindowEvent::AboutToWait => WindowCommand::RequestRedraw,
        WindowEvent::Other => WindowCommand::Nothing,
    }
}

/// Takes an event of a desktop window and returns what the host has to do.
pub fn on_window_event(event: WindowEvent) -> (command: WindowCommand)
    ensures
        command == window_command_for(event),
{
    match event {
        WindowEvent::CloseRequested => WindowCommand::Exit,
        WindowEvent::Resized { width, height } => {
            if width > 0 && height > 0 {
                WindowCommand::Resize { width, height }
            } else {
                WindowCommand::Nothing
            }
        },
        WindowEvent::RedrawRequested => WindowCommand::Frame,
        WindowEvent::AboutToWait => WindowCommand::RequestRedraw,
        WindowEvent::Other => WindowCommand::Nothing,
    }
}

} // verus!
