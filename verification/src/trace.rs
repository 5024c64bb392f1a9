//! Whole runs of a session: the events of a compositor, taken one after the
//! other, and the actions that answer them.

use crate::session::{
    after_frame, after_global, frame_action, global_action, output_action, FrameAction,
    FrameEvent, OutputAction, OutputEvent, RegistryAction, Session, SessionState,
};
use vstd::prelude::*;

verus! {

/// One event of the compositor, with the object that it belongs to.
#[allow(inconsistent_fields)]
#[derive(Clone, Debug, PartialEq, Eq)]
pub enum Event {
    /// The registry announces the global `name`, of interface `interface` at
    /// `version`.
    Global { name: u32, interface: String, version: u32 },
    /// An event of the output `output`.
    Output { output: u32, event: OutputEvent },
    /// An event of the frame `frame`.
    Frame { frame: u32, event: FrameEvent },
}

/// The answer to one event, with the object that it is about.
#[allow(inconsistent_fields)]
#[derive(Clone, Copy, Debug, PartialEq, Eq, Structural)]
pub enum Action {
    /// The answer to an announcement of the registry.
    Registry(RegistryAction),
    /// The answer to an event of the output `output`.
    Output { output: u32, action: OutputAction },
    /// The answer to an event of the frame `frame`.
    Frame { frame: u32, action: FrameAction },
}

/// The state after one event.
pub open spec fn step_state(s: SessionState, e: Event) -> SessionState {
    match e {
        Event::Global { name, interface, version } => after_global(s, interface@),
        Event::Output { output, event } => s,
        Event::Frame { frame, event } => after_frame(s, event),
    }
}

/// The answer to one event.
pub open spec fn step_action(s: SessionState, e: Event) -> Action {
    match e {
        Event::Global { name, interface, version } => Action::Registry(
            global_action(name, interface@, version),
        ),
        Event::Output { output, event } => Action::Output {
            output,
            action: output_action(s, event),
        },
        Event::Frame { frame, event } => Action::Frame { frame, action: frame_action(s, event) },
    }
}

/// The state after the first `n` of `events`.
pub open spec fn state_after(s: SessionState, events: Seq<Event>, n: int) -> SessionState
    decreases n,
{
    if n <= 0 {
        s
    } else {
        step_state(state_after(s, events, n - 1), events[n - 1])
    }
}

/// The answer to the event at position `i` of `events`.
pub open spec fn action_at(s: SessionState, events: Seq<Event>, i: int) -> Action {
    step_action(state_after(s, events, i), events[i])
}

/// The state after all of `events`.
pub open spec fn run_state(s: SessionState, events: Seq<Event>) -> SessionState {
    state_after(s, events, events.len() as int)
}

/// The answers to all of `events`, one for each.
pub open spec fn run_actions(s: SessionState, events: Seq<Event>) -> Seq<Action> {
    Seq::new(events.len(), |i: int| action_at(s, events, i))
}

/// The state in which the dispatch loop leaves a session that it found in state
/// `s`, when the compositor delivers the batches from position `from` on: the
/// loop looks at `running` between two batches only, so it takes whole batches
/// for as long as the session runs and there is one left.
pub open spec fn drive_state(s: SessionState, batches: Seq<Vec<Event>>, from: int) -> SessionState
    decreases batches.len() - from,
{
    if from < 0 || from >= batches.len() || !s.running {
        s
    } else {
        drive_state(run_state(s, batches[from]@), batches, from + 1)
    }
}

/// The events that the dispatch loop handles from position `from` on: those of
/// the batches that it takes, in their order.
pub open spec fn handled(s: SessionState, batches: Seq<Vec<Event>>, from: int) -> Seq<Event>
    decreases batches.len() - from,
{
    if from < 0 || from >= batches.len() || !s.running {
        Seq::empty()
    } else {
        batches[from]@ + handled(run_state(s, batches[from]@), batches, from + 1)
    }
}

/// The answers that the dispatch loop gives from position `from` on.
pub open spec fn drive_actions(s: SessionState, batches: Seq<Vec<Event>>, from: int) -> Seq<
    Action,
>
    decreases batches.len() - from,
{
    if from < 0 || from >= batches.len() || !s.running {
        Seq::empty()
    } else {
        run_actions(s, batches[from]@) + drive_actions(
            run_state(s, batches[from]@),
            batches,
            from + 1,
        )
    }
}

impl Session {
    /// Takes one event, whatever object it belongs to.
    pub fn handle(&mut self, event: &Event) -> (action: Action)
        ensures
            action == step_action(old(self)@, *event),
            final(self)@ == step_state(old(self)@, *event),
    {
        match event {
            Event::Global { name, interface, version } => Action::Registry(
                self.on_global(*name, interface.as_str(), *version),
            ),
            Event::Output { output, event } => Action::Output {
                output: *output,
                action: self.on_output_event(*event),
            },
            Event::Frame { frame, event } => Action::Frame {
                frame: *frame,
                action: self.on_frame_event(*event),
            },
        }
    }

    /// Takes all the events that one dispatch delivers, in their order. Every
    /// one of them is handled, also those that follow the event that stops the
    /// session.
    pub fn dispatch(&mut self, batch: &Vec<Event>) -> (actions: Vec<Action>)
        ensures
            actions@ == run_actions(old(self)@, batch@),
            final(self)@ == run_state(old(self)@, batch@),
    {
        let mut actions: Vec<Action> = Vec::with_capacity(batch.len());
        let mut i: usize = 0;
        while i < batch.len()
            invariant
                i <= batch.len(),
                self@ == state_after(old(self)@, batch@, i as int),
                actions@.len() == i,
                forall|j: int| 0 <= j < i ==> actions@[j] == action_at(old(self)@, batch@, j),
            decreases batch.len() - i,
        {
            let action: Action = self.handle(&batch[i]);
            actions.push(action);
            i += 1;
        }
        assert(actions@ =~= run_actions(old(self)@, batch@));
        actions
    }

    /// Runs the dispatch loop over the batches that a compositor delivers: one
    /// batch after the other is dispatched for as long as the session is
    /// running. The batches that follow the one in which the session stopped
    /// are not touched.
    pub fn drive(&mut self, batches: &Vec<Vec<Event>>) -> (actions: Vec<Action>)
        ensures
            actions@ == drive_actions(old(self)@, batches@, 0),
            final(self)@ == drive_state(old(self)@, batches@, 0),
    {
        let mut actions: Vec<Action> = Vec::new();
        let mut k: usize = 0;
        while k < batches.len() && self.running()
            invariant
                k <= batches.len(),
                drive_state(old(self)@, batches@, 0) == drive_state(self@, batches@, k as int),
                drive_actions(old(self)@, batches@, 0) == actions@ + drive_actions(
                    self@,
                    batches@,
                    k as int,
                ),
            decreases batches.len() - k,
        {
            let ghost before = actions@;
            let ghost rest = drive_actions(self@, batches@, k as int);
            let mut answers: Vec<Action> = self.dispatch(&batches[k]);
            assert(rest == answers@ + drive_actions(self@, batches@, k + 1));
            actions.append(&mut answers);
            assert(actions@ + drive_actions(self@, batches@, k + 1) =~= before + rest);
            k += 1;
        }
        assert(actions@ + drive_actions(self@, batches@, k as int) =~= actions@);
        actions
    }
}

} // verus!
