use screencopy::geometry::BufferGeometry;
use screencopy::session::{
    FrameAction, FrameEvent, OutputAction, OutputEvent, RegistryAction, Session, CAPTURE_OPTION,
};

#[test]
fn new_session_runs_and_holds_nothing() {
    let session = Session::new();
    assert!(session.running());
    assert_eq!(session.buffer(), None);
    assert!(!session.manager_bound());
}

#[test]
fn shared_memory_global_provisions_the_target_buffer() {
    let mut session = Session::new();
    let action = session.on_global(7, "wl_shm", 1);
    assert_eq!(
        action,
        RegistryAction::ProvisionBuffer { name: 7, version: 1, geometry: BufferGeometry::target() }
    );
    assert_eq!(session.buffer(), Some(BufferGeometry::target()));
    assert!(session.running());
    assert!(!session.manager_bound());
}

#[test]
fn provisioned_buffer_is_1920_by_1080_at_offset_0() {
    let mut session = Session::new();
    match session.on_global(1, "wl_shm", 2) {
        RegistryAction::ProvisionBuffer { name, version, geometry } => {
            assert_eq!((name, version), (1, 2));
            assert_eq!(geometry.offset(), 0);
            assert_eq!(geometry.width(), 1920);
            assert_eq!(geometry.height(), 1080);
            assert_eq!(geometry.stride(), 7680);
            assert_eq!(geometry.size(), 8_294_400);
        }
        other => panic!("{:?}", other),
    }
}

#[test]
fn manager_global_is_bound_and_kept() {
    let mut session = Session::new();
    let action = session.on_global(12, "zwlr_screencopy_manager_v1", 3);
    assert_eq!(action, RegistryAction::BindManager { name: 12, version: 3 });
    assert!(session.manager_bound());
    assert_eq!(session.buffer(), None);
    assert!(session.running());
}

#[test]
fn output_global_is_bound_without_capture() {
    let mut session = Session::new();
    let action = session.on_global(30, "wl_output", 4);
    assert_eq!(action, RegistryAction::BindOutput { name: 30, version: 4 });
    assert_eq!(session, Session::new());
}

#[test]
fn other_global_is_ignored() {
    let mut session = Session::new();
    assert_eq!(session.on_global(2, "wl_compositor", 5), RegistryAction::Ignore);
    assert_eq!(session.on_global(3, "", 1), RegistryAction::Ignore);
    assert_eq!(session, Session::new());
}

#[test]
fn output_done_with_manager_asks_for_a_frame() {
    let mut session = Session::new();
    session.on_global(12, "zwlr_screencopy_manager_v1", 3);
    assert_eq!(CAPTURE_OPTION, 0);
    assert_eq!(session.on_output_event(OutputEvent::Done), OutputAction::Capture { option: 0 });
}

#[test]
fn output_done_without_manager_does_nothing() {
    let session = Session::new();
    assert_eq!(session.on_output_event(OutputEvent::Done), OutputAction::Nothing);
}

#[test]
fn other_output_events_do_nothing() {
    let mut session = Session::new();
    assert_eq!(session.on_output_event(OutputEvent::Other), OutputAction::Nothing);
    session.on_global(12, "zwlr_screencopy_manager_v1", 3);
    assert_eq!(session.on_output_event(OutputEvent::Other), OutputAction::Nothing);
}

#[test]
fn buffer_done_with_buffer_is_answered_by_copy() {
    let mut session = Session::new();
    session.on_global(7, "wl_shm", 1);
    let before = session;
    assert_eq!(
        session.on_frame_event(FrameEvent::BufferDone),
        FrameAction::Copy { buffer: BufferGeometry::target() }
    );
    assert_eq!(session, before);
}

#[test]
fn buffer_done_without_buffer_is_skipped() {
    let mut session = Session::new();
    assert_eq!(session.on_frame_event(FrameEvent::BufferDone), FrameAction::Nothing);
    assert_eq!(session, Session::new());
}

#[test]
fn ready_stops_the_session_and_finishes_the_frame() {
    let mut session = Session::new();
    session.on_global(7, "wl_shm", 1);
    session.on_global(12, "zwlr_screencopy_manager_v1", 3);
    let action = session.on_frame_event(FrameEvent::Ready);
    assert_eq!(action, FrameAction::Finish { save: Some(BufferGeometry::target()) });
    assert!(!session.running());
    assert_eq!(session.buffer(), Some(BufferGeometry::target()));
    assert!(session.manager_bound());
}

#[test]
fn ready_without_buffer_has_nothing_to_save() {
    let mut session = Session::new();
    assert_eq!(session.on_frame_event(FrameEvent::Ready), FrameAction::Finish { save: None });
    assert!(!session.running());
}

#[test]
fn failed_frame_is_passed_over_and_the_session_keeps_running() {
    let mut session = Session::new();
    session.on_global(7, "wl_shm", 1);
    let before = session;
    assert_eq!(session.on_frame_event(FrameEvent::Failed), FrameAction::Nothing);
    assert_eq!(session, before);
    assert!(session.running());
}

#[test]
fn other_frame_events_are_passed_over() {
    let mut session = Session::new();
    assert_eq!(session.on_frame_event(FrameEvent::Other), FrameAction::Nothing);
    assert_eq!(session, Session::new());
}

#[test]
fn only_ready_stops_the_session() {
    let mut session = Session::new();
    session.on_global(7, "wl_shm", 1);
    session.on_global(12, "zwlr_screencopy_manager_v1", 3);
    session.on_global(30, "wl_output", 4);
    session.on_global(31, "wl_seat", 4);
    session.on_output_event(OutputEvent::Done);
    session.on_output_event(OutputEvent::Other);
    session.on_frame_event(FrameEvent::Other);
    session.on_frame_event(FrameEvent::BufferDone);
    session.on_frame_event(FrameEvent::Failed);
    assert!(session.running());
    session.on_frame_event(FrameEvent::Ready);
    assert!(!session.running());
}

#[test]
fn second_shared_memory_global_provisions_again() {
    let mut session = Session::new();
    session.on_global(7, "wl_shm", 1);
    let again = session.on_global(8, "wl_shm", 2);
    assert_eq!(
        again,
        RegistryAction::ProvisionBuffer { name: 8, version: 2, geometry: BufferGeometry::target() }
    );
    assert_eq!(session.buffer(), Some(BufferGeometry::target()));
}
