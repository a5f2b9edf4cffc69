//! One relay direction as a three-state machine, and the join of two directions.

use vstd::prelude::*;

use crate::copy::{CopyBuffer, CopyFault, Direction, Phase, Progress};
use crate::text::{decode_lossy, lossy_utf8};

verus! {

/// The lifecycle of one relay direction. It only moves forward:
/// `Running`, then `ShuttingDown`, then `Done`.
pub enum TransferState {
    /// The pump is relaying.
    Running(CopyBuffer),
    /// The pump finished with this byte count and captured text; the sink
    /// is being shut down.
    ShuttingDown(u64, String),
    /// The sink is shut down; the result is final.
    Done(u64, String),
}

/// What the driver of one direction must do next.
pub enum TransferPoll {
    /// Drive the `Running` pump with its own phase.
    DriveCopy,
    /// Shut the sink down, then report `shutdown_complete`.
    Shutdown,
    /// Finished: the byte count and the captured text.
    Ready(u64, String),
    /// The pump stopped on a fault.
    Failed(CopyFault),
}

impl TransferState {
    pub open spec fn wf(&self) -> bool {
        match self {
            TransferState::Running(b) => b.wf(),
            _ => true,
        }
    }

    /// Position in the lifecycle; no transition lowers it.
    pub open spec fn rank(&self) -> nat {
        match self {
            TransferState::Running(_) => 0,
            TransferState::ShuttingDown(_, _) => 1,
            TransferState::Done(_, _) => 2,
        }
    }

    /// A fresh direction with a pump of `buf_size` bytes.
    pub fn new(buf_size: usize, direction: Direction) -> (r: Self)
        requires
            buf_size > 0,
        ensures
            r.wf(),
            r matches TransferState::Running(b) && b@.direction == direction && b@.phase
                == Phase::Read && b@.capacity == buf_size && b@.received.len() == 0,
    {
        TransferState::Running(CopyBuffer::new(buf_size, direction))
    }

    /// The sink of a `ShuttingDown` direction has been shut down.
    pub fn shutdown_complete(&mut self)
        requires
            old(self).wf(),
        ensures
            final(self).wf(),
            final(self).rank() >= old(self).rank(),
            match *old(self) {
                TransferState::ShuttingDown(c, t) => *final(self) == TransferState::Done(c, t),
                _ => *final(self) == *old(self),
            },
    {
        let next = match self {
            TransferState::ShuttingDown(c, t) => Some(TransferState::Done(*c, t.clone())),
            _ => None,
        };
        if let Some(n) = next {
            *self = n;
        }
    }
}

/// Advances one direction as far as it can go without I/O, and says what the
/// driver must do. A pump that completed becomes `ShuttingDown` with its byte
/// count and its captured bytes decoded permissively. `Done` is final: it is
/// left as it is and reports the same pair on every call.
pub fn transfer_one_direction(state: &mut TransferState) -> (r: TransferPoll)
    requires
        old(state).wf(),
    ensures
        final(state).wf(),
        final(state).rank() >= old(state).rank(),
        match *old(state) {
            TransferState::Running(b) => if b@.phase == Phase::Complete {
                &&& r is Shutdown
                &&& *final(state) matches TransferState::ShuttingDown(c, t)
                &&& c == b@.amt
                &&& t@ == lossy_utf8(b@.written)
            } else {
                &&& *final(state) == *old(state)
                &&& match b@.phase {
                    Phase::Failed(f) => r == TransferPoll::Failed(f),
                    _ => r is DriveCopy,
                }
            },
            TransferState::ShuttingDown(_, _) => r is Shutdown && *final(state) == *old(state),
            TransferState::Done(c, t) => r == TransferPoll::Ready(c, t) && *final(state)
                == *old(state),
        },
{
    let next = match state {
        TransferState::Running(b) => {
            match b.phase() {
                Phase::Complete => {
                    let text = decode_lossy(b.captured().as_slice());
                    Some(TransferState::ShuttingDown(b.amt(), text))
                },
                _ => None,
            }
        },
        _ => None,
    };
    match next {
        Some(n) => {
            *state = n;
            TransferPoll::Shutdown
        },
        None => match state {
            TransferState::Running(b) => match b.phase() {
                Phase::Failed(f) => TransferPoll::Failed(f),
                _ => TransferPoll::DriveCopy,
            },
            TransferState::ShuttingDown(_, _) => TransferPoll::Shutdown,
            TransferState::Done(c, t) => TransferPoll::Ready(*c, t.clone()),
        },
    }
}

/// Combines the two directions of a relay: a failure of either fails the
/// whole (the first direction is looked at first); it is ready only when both are.
pub fn join_directions(
    a: Progress<(u64, String)>,
    b: Progress<(u64, String)>,
) -> (r: Progress<((u64, String), (u64, String))>)
    ensures
        a is Failed ==> r is Failed,
        b is Failed ==> r is Failed,
        match (a, b) {
            (Progress::Ready(x), Progress::Ready(y)) => r == Progress::Ready((x, y)),
            _ => !(r is Ready),
        },
        (a is Pending && !(b is Failed)) ==> r is Pending,
        (b is Pending && !(a is Failed)) ==> r is Pending,
{
    match (a, b) {
        (Progress::Failed, _) => Progress::Failed,
        (_, Progress::Failed) => Progress::Failed,
        (Progress::Ready(x), Progress::Ready(y)) => Progress::Ready((x, y)),
        _ => Progress::Pending,
    }
}

} // verus!
