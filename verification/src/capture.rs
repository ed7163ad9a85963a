//! Decisions of a Media Request API capture session: when to set up
//! buffers and start streaming, which buffer each capture uses, how a wait
//! for a request ended, how much of a mapped buffer holds the frame, and
//! what to undo when the session ends.

use vstd::prelude::*;

verus! {

/// Number of kernel buffers a session asks for when it sets itself up on
/// its first capture.
pub const DEFAULT_BUFFER_COUNT: u32 = 4;

/// Seconds a capture waits for a queued request to complete.
pub const REQUEST_TIMEOUT_SECS: i64 = 5;

/// A failure that the capture logic itself decides.
#[derive(Debug, Clone, Copy, PartialEq, Eq, Structural)]
pub enum CaptureError {
    /// The kernel granted fewer than one buffer.
    InsufficientBuffers { granted: u32 },
    /// No request completed within [`REQUEST_TIMEOUT_SECS`].
    Timeout,
    /// Waiting for the request failed.
    WaitFailed,
}

/// Accept the buffer count that `VIDIOC_REQBUFS` granted: at least one
/// buffer is needed.
pub fn check_granted_buffers(granted: u32) -> (r: Result<u32, CaptureError>)
    ensures
        granted >= 1 ==> r == Ok::<u32, CaptureError>(granted),
        granted < 1 ==> r == Err::<u32, CaptureError>(CaptureError::InsufficientBuffers { granted }),
{
    if granted < 1 {
        Err(CaptureError::InsufficientBuffers { granted })
    } else {
        Ok(granted)
    }
}

/// Classify the result of `select()` on a request's file descriptor: a
/// positive count means the request completed, zero that the wait timed
/// out, and a negative value that the call failed.
pub fn wait_outcome(select_ret: i32) -> (r: Result<(), CaptureError>)
    ensures
        select_ret > 0 ==> r == Ok::<(), CaptureError>(()),
        select_ret == 0 ==> r == Err::<(), CaptureError>(CaptureError::Timeout),
        select_ret < 0 ==> r == Err::<(), CaptureError>(CaptureError::WaitFailed),
{
    if select_ret > 0 {
        Ok(())
    } else if select_ret == 0 {
        Err(CaptureError::Timeout)
    } else {
        Err(CaptureError::WaitFailed)
    }
}

/// How many bytes of a mapped buffer of `length` bytes hold the frame: the
/// `bytesused` that the driver reported when it is positive and fits,
/// otherwise the whole buffer.
pub fn mapped_len(bytesused: usize, length: usize) -> (n: usize)
    ensures
        n == (if bytesused > 0 && bytesused <= length {
            bytesused
        } else {
            length
        }),
        n <= length,
{
    if bytesused > 0 && bytesused <= length {
        bytesused
    } else {
        length
    }
}

/// The steps of one Media Request capture, in the order they run:
/// allocate a request (`MEDIA_IOC_REQUEST_ALLOC`), queue the buffer with it
/// (`VIDIOC_QBUF`), submit it (`MEDIA_REQUEST_IOC_QUEUE`), wait for it to
/// complete (`select`), and dequeue the filled buffer (`VIDIOC_DQBUF`).
#[derive(Debug, Clone, Copy, PartialEq, Eq, Structural)]
pub enum RequestPhase {
    Allocate,
    QueueBuffer,
    Submit,
    Wait,
    Dequeue,
}

/// What to do once a step of a request has finished.
#[derive(Debug, Clone, Copy, PartialEq, Eq, Structural)]
pub enum RequestAction {
    /// Perform this step next.
    Next(RequestPhase),
    /// Fail; no request descriptor is open.
    Fail,
    /// Close the request descriptor, then fail.
    CloseAndFail,
    /// The capture succeeded: copy the dequeued frame, then reinitialize
    /// (`MEDIA_REQUEST_IOC_REINIT`) and close the request descriptor.
    ReinitAndClose,
}

/// The request flow: each step that succeeds leads to the next one, and a
/// dequeued buffer ends the capture with the request reinitialized and
/// closed. A failed allocation leaves nothing open; any step that fails
/// after the request was allocated closes the request descriptor.
pub open spec fn request_flow(completed: RequestPhase, ok: bool) -> RequestAction {
    match completed {
        RequestPhase::Allocate => if ok {
            RequestAction::Next(RequestPhase::QueueBuffer)
        } else {
            RequestAction::Fail
        },
        RequestPhase::QueueBuffer => if ok {
            RequestAction::Next(RequestPhase::Submit)
        } else {
            RequestAction::CloseAndFail
        },
        RequestPhase::Submit => if ok {
            RequestAction::Next(RequestPhase::Wait)
        } else {
            RequestAction::CloseAndFail
        },
        RequestPhase::Wait => if ok {
            RequestAction::Next(RequestPhase::Dequeue)
        } else {
            RequestAction::CloseAndFail
        },
        RequestPhase::Dequeue => if ok {
            RequestAction::ReinitAndClose
        } else {
            RequestAction::CloseAndFail
        },
    }
}

/// What to do after step `completed` of a request finished, successfully
/// when `ok`.
pub fn request_step(completed: RequestPhase, ok: bool) -> (a: RequestAction)
    ensures
        a == request_flow(completed, ok),
{
    match completed {
        RequestPhase::Allocate => if ok {
            RequestAction::Next(RequestPhase::QueueBuffer)
        } else {
            RequestAction::Fail
        },
        RequestPhase::QueueBuffer => if ok {
            RequestAction::Next(RequestPhase::Submit)
        } else {
            RequestAction::CloseAndFail
        },
        RequestPhase::Submit => if ok {
            RequestAction::Next(RequestPhase::Wait)
        } else {
            RequestAction::CloseAndFail
        },
        RequestPhase::Wait => if ok {
            RequestAction::Next(RequestPhase::Dequeue)
        } else {
            RequestAction::CloseAndFail
        },
        RequestPhase::Dequeue => if ok {
            RequestAction::ReinitAndClose
        } else {
            RequestAction::CloseAndFail
        },
    }
}

/// Where a request's flow is after `outcomes.len()` steps from
/// `Allocate`, each succeeding or failing as `outcomes` says: `Some` step
/// still to run, or `None` once the flow has ended.
pub open spec fn request_run(outcomes: Seq<bool>) -> Option<RequestPhase>
    decreases outcomes.len(),
{
    if outcomes.len() == 0 {
        Some(RequestPhase::Allocate)
    } else {
        match request_run(outcomes.drop_last()) {
            Some(phase) => match request_flow(phase, outcomes.last()) {
                RequestAction::Next(next) => Some(next),
                _ => None,
            },
            None => None,
        }
    }
}

/// A request runs its steps in a fixed order and closes its descriptor on
/// every path once allocated: from `Allocate`, four successful steps lead
/// to `Dequeue`, and a successful dequeue ends the capture with the
/// request reinitialized and closed; a failure at any step after the
/// allocation closes the request, and only a failed allocation fails
/// without closing anything.
pub proof fn lemma_request_order(completed: RequestPhase, ok: bool)
    ensures
        request_run(seq![true, true, true, true]) == Some(RequestPhase::Dequeue),
        request_flow(RequestPhase::Dequeue, true) == RequestAction::ReinitAndClose,
        !ok && completed != RequestPhase::Allocate ==> request_flow(completed, ok)
            == RequestAction::CloseAndFail,
        request_flow(completed, ok) == RequestAction::Fail ==> completed == RequestPhase::Allocate
            && !ok,
{
    let s4 = seq![true, true, true, true];
    assert(s4.drop_last() =~= seq![true, true, true]);
    assert(seq![true, true, true].drop_last() =~= seq![true, true]);
    assert(seq![true, true].drop_last() =~= seq![true]);
    assert(seq![true].drop_last() =~= Seq::<bool>::empty());
    assert(request_run(Seq::<bool>::empty()) == Some(RequestPhase::Allocate));
    assert(seq![true].last() == true);
    assert(seq![true, true].last() == true);
    assert(seq![true, true, true].last() == true);
    assert(s4.last() == true);
    assert(request_run(seq![true]) == Some(RequestPhase::QueueBuffer));
    assert(request_run(seq![true, true]) == Some(RequestPhase::Submit));
    assert(request_run(seq![true, true, true]) == Some(RequestPhase::Wait));
}

/// What ending a session must undo.
#[derive(Debug, Clone, Copy, PartialEq, Eq, Structural)]
pub struct Teardown {
    /// Stop streaming (`VIDIOC_STREAMOFF`).
    pub stop_streaming: bool,
    /// Free the kernel buffers (`VIDIOC_REQBUFS` with a count of 0).
    pub release_buffers: bool,
}

/// Abstract state of a [`CaptureState`].
pub struct CaptureStateView {
    pub initialized: bool,
    pub streaming: bool,
    pub next_buffer: usize,
}

/// Where a capture session stands: whether its buffers are set up, whether
/// streaming is on (it stays on between captures), and which buffer the
/// next capture queues.
#[derive(Debug)]
pub struct CaptureState {
    initialized: bool,
    streaming: bool,
    next_buffer: usize,
}

impl View for CaptureState {
    type V = CaptureStateView;

    closed spec fn view(&self) -> CaptureStateView {
        CaptureStateView {
            initialized: self.initialized,
            streaming: self.streaming,
            next_buffer: self.next_buffer,
        }
    }
}

/// The buffer position after `k` captures that started at `start`, with
/// `count` buffers in rotation.
pub open spec fn rotated(start: int, count: int, k: nat) -> int
    decreases k,
{
    if k == 0 {
        start
    } else {
        (rotated(start, count, (k - 1) as nat) + 1) % count
    }
}

/// After `k` captures from position `start`, the rotation stands at
/// `(start + k) % count`.
proof fn lemma_rotated_position(start: int, count: int, k: nat)
    requires
        0 <= start < count,
    ensures
        rotated(start, count, k) == (start + k) % count,
    decreases k,
{
    if k > 0 {
        lemma_rotated_position(start, count, (k - 1) as nat);
        vstd::arithmetic::div_mod::lemma_add_mod_noop_right(1, start + k - 1, count);
    } else {
        vstd::arithmetic::div_mod::lemma_small_mod(start as nat, count as nat);
    }
}

/// Captures use the buffers in turn: after `k` captures from position
/// `start`, the rotation stands at `(start + k) % count`, so every
/// `count` captures use each buffer once and come back to where they
/// began.
pub proof fn lemma_rotation_cycles(start: int, count: int, k: nat)
    requires
        0 <= start < count,
    ensures
        rotated(start, count, k) == (start + k) % count,
        rotated(start, count, count as nat) == start,
{
    lemma_rotated_position(start, count, k);
    lemma_rotated_position(start, count, count as nat);
    vstd::arithmetic::div_mod::lemma_mod_add_multiples_vanish(start, count);
    vstd::arithmetic::div_mod::lemma_small_mod(start as nat, count as nat);
}

/// One capture took buffer `index` out of `count` in rotation, moving the
/// session from `before` to `after`: the index is where the rotation
/// stood, the rotation moves on by one, and setup and streaming stay as
/// they were.
pub open spec fn takes_buffer(
    before: CaptureStateView,
    after: CaptureStateView,
    index: int,
    count: int,
) -> bool {
    &&& index == before.next_buffer
    &&& after.next_buffer == (index + 1) % count
    &&& after.initialized == before.initialized
    &&& after.streaming == before.streaming
}

/// Along a run of captures, state `j` stands at rotation step `j`.
proof fn lemma_takes_reach(
    states: Seq<CaptureStateView>,
    indices: Seq<int>,
    count: int,
    j: int,
)
    requires
        0 < count,
        states.len() == indices.len() + 1,
        0 <= states[0].next_buffer < count,
        forall|i: int|
            0 <= i < indices.len() ==> #[trigger] takes_buffer(
                states[i],
                states[i + 1],
                indices[i],
                count,
            ),
        0 <= j < states.len(),
    ensures
        states[j].next_buffer == rotated(states[0].next_buffer as int, count, j as nat),
        states[j].initialized == states[0].initialized,
        states[j].streaming == states[0].streaming,
    decreases j,
{
    if j > 0 {
        lemma_takes_reach(states, indices, count, j - 1);
        let i = j - 1;
        assert(takes_buffer(states[i], states[i + 1], indices[i], count));
    }
}

/// A run of captures uses the buffers in turn: when each capture of the run
/// goes from one state to the next as [`CaptureState::take_buffer`] says,
/// capture `j` takes buffer `(start + j) % count`, the rotation then stands
/// at `(start + j + 1) % count`, and setup and streaming never change. With
/// four buffers from a new session that is buffers 0, 1, 2, 3, 0, 1, ...
pub proof fn lemma_successive_takes(
    states: Seq<CaptureStateView>,
    indices: Seq<int>,
    count: int,
)
    requires
        0 < count,
        states.len() == indices.len() + 1,
        0 <= states[0].next_buffer < count,
        forall|i: int|
            0 <= i < indices.len() ==> #[trigger] takes_buffer(
                states[i],
                states[i + 1],
                indices[i],
                count,
            ),
    ensures
        forall|j: int|
            0 <= j < indices.len() ==> #[trigger] indices[j] == (states[0].next_buffer + j)
                % count,
        forall|j: int|
            #![trigger states[j]]
            0 <= j < states.len() ==> states[j].next_buffer == (states[0].next_buffer + j) % count
                && states[j].streaming == states[0].streaming && states[j].initialized
                == states[0].initialized,
{
    let start = states[0].next_buffer as int;
    assert forall|j: int|
        #![trigger states[j]]
        0 <= j < states.len() implies states[j].next_buffer == (start + j) % count
            && states[j].streaming == states[0].streaming && states[j].initialized
            == states[0].initialized by {
        lemma_takes_reach(states, indices, count, j);
        lemma_rotated_position(start, count, j as nat);
    }
    assert forall|j: int| 0 <= j < indices.len() implies #[trigger] indices[j] == (start + j)
        % count by {
        assert(takes_buffer(states[j], states[j + 1], indices[j], count));
        assert(states[j].next_buffer == (start + j) % count);
    }
}

impl CaptureState {
    /// A session that has set up nothing yet.
    pub fn new() -> (s: Self)
        ensures
            !s@.initialized,
            !s@.streaming,
            s@.next_buffer == 0,
    {
        CaptureState { initialized: false, streaming: false, next_buffer: 0 }
    }

    /// Whether the buffers still have to be set up; setting up an
    /// initialized session does nothing.
    pub fn needs_init(&self) -> (b: bool)
        ensures
            b == !self@.initialized,
    {
        !self.initialized
    }

    /// Record that the buffers are set up.
    pub fn mark_initialized(&mut self)
        ensures
            final(self)@.initialized,
            final(self)@.streaming == old(self)@.streaming,
            final(self)@.next_buffer == old(self)@.next_buffer,
    {
        self.initialized = true;
    }

    /// Whether streaming still has to be started.
    pub fn needs_stream_on(&self) -> (b: bool)
        ensures
            b == !self@.streaming,
    {
        !self.streaming
    }

    /// Record that streaming is on; it stays on for the rest of the session.
    pub fn mark_streaming(&mut self)
        ensures
            final(self)@.streaming,
            final(self)@.initialized == old(self)@.initialized,
            final(self)@.next_buffer == old(self)@.next_buffer,
    {
        self.streaming = true;
    }

    /// The buffer the next capture queues.
    pub fn next_buffer(&self) -> (n: usize)
        ensures
            n == self@.next_buffer,
    {
        self.next_buffer
    }

    /// Take the buffer for this capture out of `buffer_count` buffers in
    /// rotation, and advance the rotation.
    pub fn take_buffer(&mut self, buffer_count: usize) -> (index: usize)
        requires
            old(self)@.next_buffer < buffer_count,
        ensures
            takes_buffer(old(self)@, final(self)@, index as int, buffer_count as int),
            index == old(self)@.next_buffer,
            final(self)@.next_buffer == (index + 1) % (buffer_count as int),
            final(self)@.next_buffer < buffer_count,
            final(self)@.initialized == old(self)@.initialized,
            final(self)@.streaming == old(self)@.streaming,
    {
        let index = self.next_buffer;
        self.next_buffer = (self.next_buffer + 1) % buffer_count;
        index
    }

    /// What ending the session must undo: streaming if it was started, and
    /// the kernel buffers if they were set up.
    pub fn teardown(&self) -> (t: Teardown)
        ensures
            t.stop_streaming == self@.streaming,
            t.release_buffers == self@.initialized,
    {
        Teardown { stop_streaming: self.streaming, release_buffers: self.initialized }
    }
}

} // verus!
