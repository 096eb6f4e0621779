//! Waiting for a work completion on a completion queue.
//!
//! The wait polls the queue, and when it is empty asks for a completion
//! event, polls once more (a completion may have arrived before the
//! request), and then sleeps until the completion channel is readable and
//! fetches the event. Each call is made by the caller; this module decides
//! what comes next.

use vstd::prelude::*;
use crate::error::{failure_text, is_rdma_error, Failure, RdmaError, Result};
use crate::registry::Completion;

verus! {

/// The call that the caller makes next.
#[derive(Debug, Clone, Copy, PartialEq, Eq)]
pub enum PollStage {
    /// `ibv_poll_cq` for one completion.
    Poll,
    /// `ibv_req_notify_cq`.
    Notify,
    /// `ibv_poll_cq` again, after the notification was requested.
    Repoll,
    /// Wait until the completion channel is readable.
    Wait,
    /// `ibv_get_cq_event`.
    Fetch,
}

/// What the call of a stage gave.
#[derive(Debug)]
pub enum PollEvent {
    /// The poll call returned `ret`; `wc` is the completion it wrote when
    /// `ret` is positive.
    Polled { ret: i32, wc: Completion },
    /// The notification request returned `ret`.
    Notified { ret: i32 },
    /// The channel became readable.
    Readable,
    /// Waiting for readability failed.
    WaitFailed(std::io::Error),
    /// The event fetch returned `ret`, with `errno` read after it.
    Fetched { ret: i32, errno: i32 },
}

/// Whether `event` is what the call of `stage` gives.
pub open spec fn poll_event_fits(stage: PollStage, event: PollEvent) -> bool {
    match stage {
        PollStage::Poll | PollStage::Repoll => event is Polled,
        PollStage::Notify => event is Notified,
        PollStage::Wait => event is Readable || event is WaitFailed,
        PollStage::Fetch => event is Fetched,
    }
}

/// The next step of a wait.
#[derive(Debug)]
pub enum PollStep {
    /// Go on with `stage`; first acknowledge the fetched event when
    /// `ack_event` is set and clear the readiness of the channel when
    /// `clear_ready` is set.
    Next { stage: PollStage, ack_event: bool, clear_ready: bool },
    /// The wait is over.
    Done(Result<Completion>),
}

/// One step of waiting for a completion. `eagain` is the code of a fetch
/// that found no event.
pub fn poll_step(stage: PollStage, event: PollEvent, eagain: i32) -> (s: PollStep)
    requires
        poll_event_fits(stage, event),
    ensures
        // The wait sleeps only after it armed the notification and then
        // found the queue still empty, so no completion is missed.
        s matches PollStep::Next { stage: PollStage::Wait, .. } ==> stage is Repoll,
        // Only a fetched event is acknowledged, and every fetched one is.
        s matches PollStep::Next { ack_event: true, .. } ==> event matches PollEvent::Fetched {
            ret,
            ..
        } && ret == 0,
        // A completion comes only from a poll that found one.
        s matches PollStep::Done(Ok(c)) ==> event matches PollEvent::Polled { ret, wc } && ret > 0
            && c == wc,
        stage is Poll ==> match event {
            PollEvent::Polled { ret, wc } => if ret > 0 {
                s == PollStep::Done(Ok(wc))
            } else if ret < 0 {
                s matches PollStep::Done(Err(e)) && is_rdma_error(e, failure_text(Failure::PollCq))
            } else {
                s == PollStep::Next { stage: PollStage::Notify, ack_event: false, clear_ready: false }
            },
            _ => false,
        },
        stage is Notify ==> match event {
            PollEvent::Notified { ret } => if ret != 0 {
                s matches PollStep::Done(Err(e)) && is_rdma_error(e, failure_text(Failure::ReqNotifyCq))
            } else {
                s == PollStep::Next { stage: PollStage::Repoll, ack_event: false, clear_ready: false }
            },
            _ => false,
        },
        stage is Repoll ==> match event {
            PollEvent::Polled { ret, wc } => if ret > 0 {
                s == PollStep::Done(Ok(wc))
            } else {
                s == PollStep::Next { stage: PollStage::Wait, ack_event: false, clear_ready: false }
            },
            _ => false,
        },
        stage is Wait ==> match event {
            PollEvent::Readable => s == PollStep::Next {
                stage: PollStage::Fetch,
                ack_event: false,
                clear_ready: false,
            },
            PollEvent::WaitFailed(e) => s == PollStep::Done(Err(RdmaError::Io(e))),
            _ => false,
        },
        stage is Fetch ==> match event {
            PollEvent::Fetched { ret, errno } => if ret == 0 {
                s == PollStep::Next { stage: PollStage::Poll, ack_event: true, clear_ready: true }
            } else if errno != eagain {
                s matches PollStep::Done(Err(e)) && is_rdma_error(e, failure_text(Failure::GetCqEvent))
            } else {
                s == PollStep::Next { stage: PollStage::Poll, ack_event: false, clear_ready: true }
            },
            _ => false,
        },
{
    match event {
        PollEvent::Polled { ret, wc } => {
            if ret > 0 {
                PollStep::Done(Ok(wc))
            } else {
                match stage {
                    PollStage::Poll => {
                        if ret < 0 {
                            PollStep::Done(Err(Failure::PollCq.error()))
                        } else {
                            PollStep::Next {
                                stage: PollStage::Notify,
                                ack_event: false,
                                clear_ready: false,
                            }
                        }
                    },
                    _ => PollStep::Next { stage: PollStage::Wait, ack_event: false, clear_ready: false },
                }
            }
        },
        PollEvent::Notified { ret } => {
            if ret != 0 {
                PollStep::Done(Err(Failure::ReqNotifyCq.error()))
            } else {
                PollStep::Next { stage: PollStage::Repoll, ack_event: false, clear_ready: false }
            }
        },
        PollEvent::Readable => PollStep::Next {
            stage: PollStage::Fetch,
            ack_event: false,
            clear_ready: false,
        },
        PollEvent::WaitFailed(e) => PollStep::Done(Err(RdmaError::Io(e))),
        PollEvent::Fetched { ret, errno } => {
            if ret == 0 {
                PollStep::Next { stage: PollStage::Poll, ack_event: true, clear_ready: true }
            } else if errno != eagain {
                PollStep::Done(Err(Failure::GetCqEvent.error()))
            } else {
                PollStep::Next { stage: PollStage::Poll, ack_event: false, clear_ready: true }
            }
        },
    }
}

} // verus!
