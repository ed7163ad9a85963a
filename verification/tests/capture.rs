use krane_cam::capture::{request_step, RequestAction, RequestPhase};
use krane_cam::capture::{
    check_granted_buffers, mapped_len, wait_outcome, CaptureError, CaptureState, Teardown,
    DEFAULT_BUFFER_COUNT,
};

#[test]
fn granted_buffer_count_must_be_positive() {
    assert_eq!(check_granted_buffers(0), Err(CaptureError::InsufficientBuffers { granted: 0 }));
    assert_eq!(check_granted_buffers(1), Ok(1));
    assert_eq!(check_granted_buffers(DEFAULT_BUFFER_COUNT), Ok(4));
}

#[test]
fn select_results_are_classified() {
    assert_eq!(wait_outcome(1), Ok(()));
    assert_eq!(wait_outcome(3), Ok(()));
    assert_eq!(wait_outcome(0), Err(CaptureError::Timeout));
    assert_eq!(wait_outcome(-1), Err(CaptureError::WaitFailed));
}

#[test]
fn mapped_length_prefers_bytesused_when_it_fits() {
    assert_eq!(mapped_len(100, 200), 100);
    assert_eq!(mapped_len(200, 200), 200);
    assert_eq!(mapped_len(0, 200), 200);
    assert_eq!(mapped_len(300, 200), 200);
}

#[test]
fn session_sets_up_once_and_rotates_buffers() {
    let mut state = CaptureState::new();
    assert!(state.needs_init());
    assert!(state.needs_stream_on());
    assert_eq!(state.teardown(), Teardown { stop_streaming: false, release_buffers: false });

    state.mark_initialized();
    assert!(!state.needs_init());
    state.mark_streaming();
    assert!(!state.needs_stream_on());

    let taken: Vec<usize> = (0..9).map(|_| state.take_buffer(4)).collect();
    assert_eq!(taken, vec![0, 1, 2, 3, 0, 1, 2, 3, 0]);
    assert_eq!(state.next_buffer(), 1);
    assert!(!state.needs_stream_on());
    assert_eq!(state.teardown(), Teardown { stop_streaming: true, release_buffers: true });
}

#[test]
fn single_buffer_is_reused() {
    let mut state = CaptureState::new();
    state.mark_initialized();
    assert_eq!(state.take_buffer(1), 0);
    assert_eq!(state.take_buffer(1), 0);
    assert_eq!(state.teardown(), Teardown { stop_streaming: false, release_buffers: true });
}

#[test]
fn request_steps_run_in_order_and_close_after_allocation() {
    assert_eq!(request_step(RequestPhase::Allocate, true), RequestAction::Next(RequestPhase::QueueBuffer));
    assert_eq!(request_step(RequestPhase::QueueBuffer, true), RequestAction::Next(RequestPhase::Submit));
    assert_eq!(request_step(RequestPhase::Submit, true), RequestAction::Next(RequestPhase::Wait));
    assert_eq!(request_step(RequestPhase::Wait, true), RequestAction::Next(RequestPhase::Dequeue));
    assert_eq!(request_step(RequestPhase::Dequeue, true), RequestAction::ReinitAndClose);
    assert_eq!(request_step(RequestPhase::Allocate, false), RequestAction::Fail);
    for phase in [RequestPhase::QueueBuffer, RequestPhase::Submit, RequestPhase::Wait, RequestPhase::Dequeue] {
        assert_eq!(request_step(phase, false), RequestAction::CloseAndFail);
    }
}

#[test]
fn rotation_from_a_middle_position_with_three_buffers() {
    let mut state = CaptureState::new();
    state.mark_initialized();
    assert_eq!(state.take_buffer(3), 0);
    assert_eq!(state.take_buffer(3), 1);
    let taken: Vec<usize> = (0..5).map(|_| state.take_buffer(3)).collect();
    assert_eq!(taken, vec![2, 0, 1, 2, 0]);
}
