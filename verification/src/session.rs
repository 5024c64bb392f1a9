//! The capture session: what it remembers between protocol events, and what it
//! asks its caller to do in answer to each of them.
//!
//! A session never talks to the compositor itself. Each handler takes one event,
//! updates the session and returns an action; the caller performs the action
//! before it hands over the next event.

use crate::geometry::BufferGeometry;
use crate::registry::{classify, kind_of, GlobalKind};
use vstd::prelude::*;

verus! {

/// The integer that a capture request carries beside the output: zero, which
/// asks for the plain contents of the output.
pub const CAPTURE_OPTION: i32 = 0;

/// An event of an output, as far as a session tells them apart.
#[derive(Clone, Copy, Debug, PartialEq, Eq, Structural)]
pub enum OutputEvent {
    /// The output has sent all of its configuration.
    Done,
    /// Any other event of an output.
    Other,
}

/// An event of a frame, as far as a session tells them apart.
#[derive(Clone, Copy, Debug, PartialEq, Eq, Structural)]
pub enum FrameEvent {
    /// The compositor has named every buffer type that it accepts.
    BufferDone,
    /// The copy is complete: the shared buffer holds the frame.
    Ready,
    /// The compositor gave the frame up.
    Failed,
    /// Any other event of a frame.
    Other,
}

/// What to do about an announced global.
#[derive(Clone, Copy, Debug, PartialEq, Eq, Structural)]
pub enum RegistryAction {
    /// Bind the shared-memory factory under `name` at `version`; create backing
    /// storage of exactly the size of `geometry`, share it as a pool, create the
    /// one buffer that `geometry` describes at offset 0 of the pool, and map the
    /// storage.
    ProvisionBuffer { name: u32, version: u32, geometry: BufferGeometry },
    /// Bind the screencopy manager under `name` at `version` and keep it.
    BindManager { name: u32, version: u32 },
    /// Bind the output under `name` at `version`.
    BindOutput { name: u32, version: u32 },
    /// Leave the global alone.
    Ignore,
}

/// What to do about an event of an output.
#[derive(Clone, Copy, Debug, PartialEq, Eq, Structural)]
pub enum OutputAction {
    /// Ask the screencopy manager for a frame of this output, with `option` as
    /// the integer argument of the request.
    Capture { option: i32 },
    /// Do nothing.
    Nothing,
}

/// What to do about an event of a frame.
#[derive(Clone, Copy, Debug, PartialEq, Eq, Structural)]
pub enum FrameAction {
    /// Ask the compositor to copy the frame into the session's buffer, which
    /// is the one of geometry `buffer`.
    Copy { buffer: BufferGeometry },
    /// Destroy the frame. Then, where a geometry is given, render the mapped
    /// region of the buffer of that geometry and write the image out.
    Finish { save: Option<BufferGeometry> },
    /// Do nothing.
    Nothing,
}

/// What a session remembers.
pub struct SessionState {
    /// Whether the caller is to go on dispatching events.
    pub running: bool,
    /// The geometry of the shared buffer, once it was provisioned.
    pub buffer: Option<BufferGeometry>,
    /// Whether the screencopy manager was bound.
    pub manager_bound: bool,
}

/// The state of a session before its first event.
pub open spec fn initial_state() -> SessionState {
    SessionState { running: true, buffer: None, manager_bound: false }
}

/// The action that answers the announcement of a global.
pub open spec fn global_action(name: u32, interface: Seq<char>, version: u32) -> RegistryAction {
    match kind_of(interface) {
        GlobalKind::SharedMemory => RegistryAction::ProvisionBuffer {
            name,
            version,
            geometry: BufferGeometry::spec_target(),
        },
        GlobalKind::ScreencopyManager => RegistryAction::BindManager { name, version },
        GlobalKind::Output => RegistryAction::BindOutput { name, version },
        GlobalKind::Other => RegistryAction::Ignore,
    }
}

/// The state after the announcement of a global.
pub open spec fn after_global(s: SessionState, interface: Seq<char>) -> SessionState {
    match kind_of(interface) {
        GlobalKind::SharedMemory => SessionState {
            buffer: Some(BufferGeometry::spec_target()),
            ..s
        },
        GlobalKind::ScreencopyManager => SessionState { manager_bound: true, ..s },
        GlobalKind::Output => s,
        GlobalKind::Other => s,
    }
}

/// The action that answers an event of an output. No such event changes the
/// state.
pub open spec fn output_action(s: SessionState, event: OutputEvent) -> OutputAction {
    if event == OutputEvent::Done && s.manager_bound {
        OutputAction::Capture { option: CAPTURE_OPTION }
    } else {
        OutputAction::Nothing
    }
}

/// The action that answers an event of a frame.
pub open spec fn frame_action(s: SessionState, event: FrameEvent) -> FrameAction {
    match event {
        FrameEvent::BufferDone => match s.buffer {
            Some(buffer) => FrameAction::Copy { buffer },
            None => FrameAction::Nothing,
        },
        FrameEvent::Ready => FrameAction::Finish { save: s.buffer },
        FrameEvent::Failed => FrameAction::Nothing,
        FrameEvent::Other => FrameAction::Nothing,
    }
}

/// The state after an event of a frame.
pub open spec fn after_frame(s: SessionState, event: FrameEvent) -> SessionState {
    if event == FrameEvent::Ready {
        SessionState { running: false, ..s }
    } else {
        s
    }
}

/// A capture session.
#[derive(Clone, Copy, Debug, PartialEq, Eq)]
pub struct Session {
    running: bool,
    buffer: Option<BufferGeometry>,
    manager_bound: bool,
}

impl View for Session {
    type V = SessionState;

    closed spec fn view(&self) -> SessionState {
        SessionState {
            running: self.running,
            buffer: self.buffer,
            manager_bound: self.manager_bound,
        }
    }
}

impl Session {
    /// A session that is running and has neither a buffer nor a manager.
    pub fn new() -> (session: Session)
        ensures
            session@ == initial_state(),
    {
        Session { running: true, buffer: None, manager_bound: false }
    }

    /// Whether the caller is to go on dispatching events.
    pub fn running(&self) -> (running: bool)
        ensures
            running == self@.running,
    {
        self.running
    }

    /// The geometry of the shared buffer, once it was provisioned.
    pub fn buffer(&self) -> (buffer: Option<BufferGeometry>)
        ensures
            buffer == self@.buffer,
    {
        self.buffer
    }

    /// Whether the screencopy manager was bound.
    pub fn manager_bound(&self) -> (bound: bool)
        ensures
            bound == self@.manager_bound,
    {
        self.manager_bound
    }

    /// Takes the announcement of the global `name`, of interface `interface` at
    /// `version`. The shared-memory factory gets the buffer of the capture target
    /// provisioned, the screencopy manager and every output get bound, and any
    /// other global is left alone, in whatever order they are announced.
    pub fn on_global(&mut self, name: u32, interface: &str, version: u32) -> (action:
        RegistryAction)
        ensures
            action == global_action(name, interface@, version),
            final(self)@ == after_global(old(self)@, interface@),
    {
        match classify(interface) {
            GlobalKind::SharedMemory => {
                let geometry: BufferGeometry = BufferGeometry::target();
                self.buffer = Some(geometry);
                RegistryAction::ProvisionBuffer { name, version, geometry }
            },
            GlobalKind::ScreencopyManager => {
                self.manager_bound = true;
                RegistryAction::BindManager { name, version }
            },
            GlobalKind::Output => RegistryAction::BindOutput { name, version },
            GlobalKind::Other => RegistryAction::Ignore,
        }
    }

    /// Takes an event of an output. Once the output is done with its
    /// configuration a frame of it is asked for, provided that the manager is
    /// bound by then; if it is not, nothing happens and nothing is kept for
    /// later.
    pub fn on_output_event(&self, event: OutputEvent) -> (action: OutputAction)
        ensures
            action == output_action(self@, event),
    {
        match event {
            OutputEvent::Done => {
                if self.manager_bound {
                    OutputAction::Capture { option: CAPTURE_OPTION }
                } else {
                    OutputAction::Nothing
                }
            },
            OutputEvent::Other => OutputAction::Nothing,
        }
    }

    /// Takes an event of a frame. `BufferDone` is answered by the copy request
    /// if the session has a buffer, and by nothing if it has none. `Ready` stops
    /// the session and finishes the frame. Every other event is passed over.
    pub fn on_frame_event(&mut self, event: FrameEvent) -> (action: FrameAction)
        ensures
            action == frame_action(old(self)@, event),
            final(self)@ == after_frame(old(self)@, event),
    {
        match event {
            FrameEvent::BufferDone => match self.buffer {
                Some(buffer) => FrameAction::Copy { buffer },
                None => FrameAction::Nothing,
            },
            FrameEvent::Ready => {
                self.running = false;
                FrameAction::Finish { save: self.buffer }
            },
            FrameEvent::Failed => FrameAction::Nothing,
            FrameEvent::Other => FrameAction::Nothing,
        }
    }
}

} // verus!
