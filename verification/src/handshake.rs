//! What holds of every run of a session, whatever the compositor sends and in
//! whatever order.
//!
//! A capture goes through a fixed handshake. The session asks for a frame when
//! an output is done with its configuration. The compositor describes the
//! buffers that it accepts and ends with `BufferDone`, which the session
//! answers with the copy request. The compositor fills the buffer and tells so
//! with `Ready`, upon which the session finishes the frame and stops. The
//! lemmas of this module say that the session takes no step of the handshake
//! early, and when it takes each.

use crate::geometry::BufferGeometry;
use crate::registry::{kind_of, GlobalKind};
use crate::session::{
    initial_state, FrameAction, FrameEvent, OutputAction, OutputEvent, SessionState,
    CAPTURE_OPTION,
};
use crate::trace::{
    action_at, drive_actions, drive_state, handled, run_actions, run_state, state_after, Action,
    Event,
};
use vstd::prelude::*;

verus! {

/// Whether `e` announces a global of kind `kind`.
pub open spec fn announces(e: Event, kind: GlobalKind) -> bool {
    e matches Event::Global { interface, .. } && kind_of(interface@) == kind
}

/// Whether `e` tells that some frame is ready.
pub open spec fn is_ready(e: Event) -> bool {
    e matches Event::Frame { event, .. } && event == FrameEvent::Ready
}

/// Whether one of the first `n` of `events` announces a global of kind `kind`.
pub open spec fn announced_before(events: Seq<Event>, kind: GlobalKind, n: int) -> bool {
    exists|j: int| 0 <= j < n && #[trigger] announces(events[j], kind)
}

/// Whether one of the first `n` of `events` tells that some frame is ready.
pub open spec fn ready_before(events: Seq<Event>, n: int) -> bool {
    exists|j: int| 0 <= j < n && #[trigger] is_ready(events[j])
}

/// What a session remembers after the first `n` events is told by which events
/// were among them, in whatever order they came: it runs until the first
/// `Ready`, it has the manager once the manager was announced, and it has the
/// buffer of the capture target once the shared-memory factory was announced.
pub proof fn lemma_state_after(s: SessionState, events: Seq<Event>, n: int)
    requires
        0 <= n <= events.len(),
    ensures
        state_after(s, events, n).running <==> s.running && !ready_before(events, n),
        state_after(s, events, n).manager_bound <==> s.manager_bound || announced_before(
            events,
            GlobalKind::ScreencopyManager,
            n,
        ),
        state_after(s, events, n).buffer == if announced_before(
            events,
            GlobalKind::SharedMemory,
            n,
        ) {
            Some(BufferGeometry::spec_target())
        } else {
            s.buffer
        },
    decreases n,
{
    if n > 0 {
        lemma_state_after(s, events, n - 1);
        let e = events[n - 1];
        assert(ready_before(events, n) <==> ready_before(events, n - 1) || is_ready(e));
        assert(announced_before(events, GlobalKind::ScreencopyManager, n) <==> announced_before(
            events,
            GlobalKind::ScreencopyManager,
            n - 1,
        ) || announces(e, GlobalKind::ScreencopyManager));
        assert(announced_before(events, GlobalKind::SharedMemory, n) <==> announced_before(
            events,
            GlobalKind::SharedMemory,
            n - 1,
        ) || announces(e, GlobalKind::SharedMemory));
    }
}

/// Nothing is undone in a run: a session that has stopped stays stopped, a
/// manager that was bound stays bound, and a buffer that was provisioned stays.
pub proof fn lemma_nothing_is_undone(s: SessionState, events: Seq<Event>, m: int, n: int)
    requires
        0 <= m <= n <= events.len(),
    ensures
        !state_after(s, events, m).running ==> !state_after(s, events, n).running,
        state_after(s, events, m).manager_bound ==> state_after(s, events, n).manager_bound,
        state_after(s, events, m).buffer.is_some() ==> state_after(s, events, n).buffer.is_some(),
{
    lemma_state_after(s, events, m);
    lemma_state_after(s, events, n);
}

/// A session never stops before a `Ready`: it is still running after `n` events
/// exactly if it was running at first and none of them was a `Ready`.
pub proof fn lemma_stops_at_ready_only(s: SessionState, events: Seq<Event>, n: int)
    requires
        0 <= n <= events.len(),
    ensures
        state_after(s, events, n).running <==> s.running && !ready_before(events, n),
{
    lemma_state_after(s, events, n);
}

/// A copy request is never issued before `BufferDone`: it is the answer to the
/// `BufferDone` of the very frame that it is for, and to nothing else. It is
/// given exactly if the session has a buffer by then, and names that buffer:
/// the buffer of the capture target if the shared-memory factory was announced.
pub proof fn lemma_copy_answers_buffer_done(
    s: SessionState,
    events: Seq<Event>,
    i: int,
    frame: u32,
    buffer: BufferGeometry,
)
    requires
        0 <= i < events.len(),
    ensures
        action_at(s, events, i) == (Action::Frame { frame, action: FrameAction::Copy { buffer } })
            <==> {
            &&& events[i] == (Event::Frame { frame, event: FrameEvent::BufferDone })
            &&& Some(buffer) == if announced_before(events, GlobalKind::SharedMemory, i) {
                Some(BufferGeometry::spec_target())
            } else {
                s.buffer
            }
        },
{
    lemma_state_after(s, events, i);
}

/// A frame is finished exactly in answer to its own `Ready`, and what is saved
/// then is the buffer that the session has at that moment: the buffer of the
/// capture target if the shared-memory factory was announced by then.
pub proof fn lemma_finish_answers_ready(
    s: SessionState,
    events: Seq<Event>,
    i: int,
    frame: u32,
    save: Option<BufferGeometry>,
)
    requires
        0 <= i < events.len(),
    ensures
        action_at(s, events, i) == (Action::Frame { frame, action: FrameAction::Finish { save } })
            <==> {
            &&& events[i] == (Event::Frame { frame, event: FrameEvent::Ready })
            &&& save == if announced_before(events, GlobalKind::SharedMemory, i) {
                Some(BufferGeometry::spec_target())
            } else {
                s.buffer
            }
        },
{
    lemma_state_after(s, events, i);
}

/// A frame is asked for exactly in answer to the `Done` of an output that comes
/// when the manager is bound. A `Done` that comes earlier is lost: nothing is
/// asked for then, and nothing later makes up for it.
pub proof fn lemma_capture_needs_manager(
    s: SessionState,
    events: Seq<Event>,
    i: int,
    output: u32,
)
    requires
        0 <= i < events.len(),
    ensures
        action_at(s, events, i) == (Action::Output {
            output,
            action: OutputAction::Capture { option: CAPTURE_OPTION },
        }) <==> {
            &&& events[i] == (Event::Output { output, event: OutputEvent::Done })
            &&& (s.manager_bound || announced_before(events, GlobalKind::ScreencopyManager, i))
        },
{
    lemma_state_after(s, events, i);
}

/// Nothing is asked of a frame or of an output but in answer to an event of
/// that same object: an object that sends no more events gets no more requests.
pub proof fn lemma_actions_answer_their_object(s: SessionState, events: Seq<Event>, i: int)
    requires
        0 <= i < events.len(),
    ensures
        match action_at(s, events, i) {
            Action::Registry(_) => events[i] is Global,
            Action::Output { output, .. } => events[i] is Output && events[i]->Output_output
                == output,
            Action::Frame { frame, .. } => events[i] is Frame && events[i]->Frame_frame == frame,
        },
{
}

/// A frame that sends no more events is asked nothing more: if no event after
/// position `i` belongs to `frame`, no answer after position `i` is about it.
pub proof fn lemma_silent_frame_is_left_alone(
    s: SessionState,
    events: Seq<Event>,
    i: int,
    frame: u32,
)
    requires
        0 <= i < events.len(),
        forall|j: int|
            i < j < events.len() ==> !(#[trigger] events[j] matches Event::Frame { frame: f, .. }
                && f == frame),
    ensures
        forall|j: int|
            i < j < events.len() ==> !(#[trigger] action_at(s, events, j) matches Action::Frame {
                frame: f,
                ..
            } && f == frame),
{
    assert forall|j: int| i < j < events.len() implies !(#[trigger] action_at(
        s,
        events,
        j,
    ) matches Action::Frame { frame: f, .. } && f == frame) by {
        lemma_actions_answer_their_object(s, events, j);
        assert(!(events[j] matches Event::Frame { frame: f, .. } && f == frame));
    }
}

/// A run over two stretches of events is the run over the first followed by the
/// run over the second.
pub proof fn lemma_run_in_two(s: SessionState, a: Seq<Event>, b: Seq<Event>)
    ensures
        run_state(s, a + b) == run_state(run_state(s, a), b),
        run_actions(s, a + b) == run_actions(s, a) + run_actions(run_state(s, a), b),
{
    let ab = a + b;
    let mid = run_state(s, a);
    assert forall|n: int| 0 <= n <= a.len() implies state_after(s, ab, n) == state_after(
        s,
        a,
        n,
    ) by {
        lemma_state_after_first(s, a, b, n);
    }
    assert forall|n: int| 0 <= n <= b.len() implies state_after(s, ab, a.len() + n)
        == state_after(mid, b, n) by {
        lemma_state_after_second(s, a, b, n);
    }
    assert(run_state(s, ab) == state_after(s, ab, a.len() + (b.len() as int)));
    let joined = run_actions(s, a) + run_actions(mid, b);
    assert forall|i: int| 0 <= i < ab.len() implies run_actions(s, ab)[i] == joined[i] by {
        if i < a.len() {
            assert(ab[i] == a[i]);
            assert(state_after(s, ab, i) == state_after(s, a, i));
        } else {
            let k = i - a.len();
            assert(ab[i] == b[k]);
            assert(state_after(s, ab, a.len() + k) == state_after(mid, b, k));
        }
    }
    assert(run_actions(s, ab) =~= joined);
}

proof fn lemma_state_after_first(s: SessionState, a: Seq<Event>, b: Seq<Event>, n: int)
    requires
        0 <= n <= a.len(),
    ensures
        state_after(s, a + b, n) == state_after(s, a, n),
    decreases n,
{
    if n > 0 {
        lemma_state_after_first(s, a, b, n - 1);
        assert((a + b)[n - 1] == a[n - 1]);
    }
}

proof fn lemma_state_after_second(s: SessionState, a: Seq<Event>, b: Seq<Event>, n: int)
    requires
        0 <= n <= b.len(),
    ensures
        state_after(s, a + b, a.len() + n) == state_after(run_state(s, a), b, n),
    decreases n,
{
    if n > 0 {
        lemma_state_after_second(s, a, b, n - 1);
        assert((a + b)[a.len() + n - 1] == b[n - 1]);
    } else {
        lemma_state_after_first(s, a, b, a.len() as int);
    }
}

/// The dispatch loop is a run: it leaves the session in the state, and gives
/// the answers, of one run over the events that it handles. So whatever holds
/// of every run holds of the loop.
pub proof fn lemma_drive_is_a_run(s: SessionState, batches: Seq<Vec<Event>>, from: int)
    requires
        0 <= from <= batches.len(),
    ensures
        drive_state(s, batches, from) == run_state(s, handled(s, batches, from)),
        drive_actions(s, batches, from) == run_actions(s, handled(s, batches, from)),
    decreases batches.len() - from,
{
    if from < batches.len() && s.running {
        let first = batches[from]@;
        let next = run_state(s, first);
        lemma_drive_is_a_run(next, batches, from + 1);
        lemma_run_in_two(s, first, handled(next, batches, from + 1));
    } else {
        assert(run_actions(s, Seq::<Event>::empty()) =~= Seq::<Action>::empty());
    }
}

/// The dispatch loop ends with a stopped session exactly if the session was
/// stopped to begin with or one of the batches held a `Ready`.
pub proof fn lemma_drive_stops_at_ready_only(
    s: SessionState,
    batches: Seq<Vec<Event>>,
    from: int,
)
    requires
        0 <= from <= batches.len(),
    ensures
        drive_state(s, batches, from).running <==> s.running && forall|k: int|
            from <= k < batches.len() ==> !ready_before(
                (#[trigger] batches[k])@,
                batches[k]@.len() as int,
            ),
    decreases batches.len() - from,
{
    if from < batches.len() && s.running {
        lemma_state_after(s, batches[from]@, batches[from]@.len() as int);
        lemma_drive_stops_at_ready_only(run_state(s, batches[from]@), batches, from + 1);
    }
}

/// The handshake completes whatever the order of the announcements. Let the
/// first `n` events be announcements of globals, the shared-memory factory and
/// the screencopy manager among them, and let an output then be done and its
/// frame go through `BufferDone` and `Ready`. Then the frame is asked for,
/// copied into the buffer of the capture target and finished with that buffer
/// to save, in this order; the session runs until the `Ready` and has stopped
/// after it; and no other event of the run is answered by a capture, a copy or
/// a finish.
pub proof fn lemma_handshake_completes(
    events: Seq<Event>,
    n: int,
    output: u32,
    frame: u32,
)
    requires
        0 <= n,
        events.len() == n + 3,
        forall|j: int| 0 <= j < n ==> #[trigger] events[j] is Global,
        announced_before(events, GlobalKind::SharedMemory, n),
        announced_before(events, GlobalKind::ScreencopyManager, n),
        events[n] == (Event::Output { output, event: OutputEvent::Done }),
        events[n + 1] == (Event::Frame { frame, event: FrameEvent::BufferDone }),
        events[n + 2] == (Event::Frame { frame, event: FrameEvent::Ready }),
    ensures
        forall|j: int| 0 <= j < n ==> #[trigger] action_at(initial_state(), events, j) is Registry,
        action_at(initial_state(), events, n) == (Action::Output {
            output,
            action: OutputAction::Capture { option: CAPTURE_OPTION },
        }),
        action_at(initial_state(), events, n + 1) == (Action::Frame {
            frame,
            action: FrameAction::Copy { buffer: BufferGeometry::spec_target() },
        }),
        action_at(initial_state(), events, n + 2) == (Action::Frame {
            frame,
            action: FrameAction::Finish { save: Some(BufferGeometry::spec_target()) },
        }),
        state_after(initial_state(), events, n + 2).running,
        !run_state(initial_state(), events).running,
{
    let s = initial_state();
    lemma_state_after(s, events, n);
    lemma_state_after(s, events, n + 1);
    lemma_state_after(s, events, n + 2);
    lemma_state_after(s, events, n + 3);
    assert forall|j: int| 0 <= j < n implies #[trigger] action_at(s, events, j) is Registry by {
        assert(events[j] is Global);
    }
    assert(!ready_before(events, n + 2)) by {
        assert forall|j: int| 0 <= j < n + 2 implies !#[trigger] is_ready(events[j]) by {
            if j < n {
                assert(events[j] is Global);
            }
        }
    }
    assert(announced_before(events, GlobalKind::SharedMemory, n + 1));
    assert(announced_before(events, GlobalKind::SharedMemory, n + 2));
    assert(is_ready(events[n + 2]));
}

} // verus!
