//! Establishing connections, and the work requests of a connection.

use vstd::prelude::*;
use crate::error::{is_rdma_error, RdmaError, Result};
use crate::qp::{
    flags_of, post_prefix, post_result, rdma_request, recv_request, requests_fit, send_request,
    sge_of, MrRef, PostKind, RecvWr, SendWr, Sge,
};
use crate::registry::{fresh_slot, PendingRequests};
use crate::text::{int_decimal, with_number};
use crate::verbs::{
    IBV_WR_RDMA_READ, IBV_WR_RDMA_WRITE, IBV_WR_SEND, RDMA_CM_EVENT_ADDR_RESOLVED,
    RDMA_CM_EVENT_CONNECT_REQUEST, RDMA_CM_EVENT_ESTABLISHED, RDMA_CM_EVENT_ROUTE_RESOLVED,
};

verus! {

/// The number of entries of a connection's completion queue.
pub const CQ_SIZE: i32 = 16;

/// The backlog of a listening identifier.
pub const LISTEN_BACKLOG: i32 = 10;

/// The stages of an active connect: each waits for one event.
#[derive(Debug, Clone, Copy, PartialEq, Eq)]
pub enum ConnectStage {
    /// The address is being resolved.
    ResolvingAddr,
    /// The route is being resolved.
    ResolvingRoute,
    /// The resources exist and the connect request was sent.
    Connecting,
}

/// Where an event takes a connect or an accept.
#[derive(Debug, Clone, Copy, PartialEq, Eq)]
pub enum Progress<S> {
    /// On to this stage.
    Next(S),
    /// The connection is established.
    Established,
    /// The connection failed.
    Failed,
    /// The event is ignored; the stage stays.
    Ignored,
}

/// The event that a connect stage waits for.
pub open spec fn awaited_event(stage: ConnectStage) -> u32 {
    match stage {
        ConnectStage::ResolvingAddr => RDMA_CM_EVENT_ADDR_RESOLVED,
        ConnectStage::ResolvingRoute => RDMA_CM_EVENT_ROUTE_RESOLVED,
        ConnectStage::Connecting => RDMA_CM_EVENT_ESTABLISHED,
    }
}

/// The text that a connect failure's error starts with.
pub open spec fn connect_failure_prefix(stage: ConnectStage) -> Seq<char> {
    match stage {
        ConnectStage::ResolvingAddr => "Addr resolution failed: "@,
        ConnectStage::ResolvingRoute => "Route resolution failed: "@,
        ConnectStage::Connecting => "Connection failed: "@,
    }
}

/// Where the event `event_type` takes a connect in `stage`.
pub open spec fn connect_progress(stage: ConnectStage, event_type: u32) -> Progress<ConnectStage> {
    if event_type != awaited_event(stage) {
        Progress::Failed
    } else {
        match stage {
            ConnectStage::ResolvingAddr => Progress::Next(ConnectStage::ResolvingRoute),
            ConnectStage::ResolvingRoute => Progress::Next(ConnectStage::Connecting),
            ConnectStage::Connecting => Progress::Established,
        }
    }
}

/// The decision on an event of an active connect.
#[derive(Debug)]
pub enum ConnectStep {
    /// Make the calls of this stage (resolve the route; or create the
    /// protection domain, completion queue and queue pair and connect),
    /// then wait for the next event.
    Next(ConnectStage),
    /// The connection is established.
    Established,
    /// The connect failed.
    Failed(RdmaError),
}

/// The decision on the event `event_type` of a connect in `stage`: it
/// goes on when the event is the one the stage waits for and fails
/// otherwise, naming the event's type.
pub fn connect_step(stage: ConnectStage, event_type: u32) -> (s: ConnectStep)
    ensures
        connect_progress(stage, event_type) matches Progress::Next(n) ==> s == ConnectStep::Next(n),
        connect_progress(stage, event_type) is Established ==> s is Established,
        connect_progress(stage, event_type) is Failed ==> (s matches ConnectStep::Failed(e)
            && is_rdma_error(e, connect_failure_prefix(stage) + int_decimal(event_type as int))),
        !(connect_progress(stage, event_type) is Ignored),
{
    match stage {
        ConnectStage::ResolvingAddr => {
            if event_type != RDMA_CM_EVENT_ADDR_RESOLVED {
                return ConnectStep::Failed(
                    RdmaError::Rdma(with_number("Addr resolution failed: ", event_type as i64)),
                );
            }
            ConnectStep::Next(ConnectStage::ResolvingRoute)
        },
        ConnectStage::ResolvingRoute => {
            if event_type != RDMA_CM_EVENT_ROUTE_RESOLVED {
                return ConnectStep::Failed(
                    RdmaError::Rdma(with_number("Route resolution failed: ", event_type as i64)),
                );
            }
            ConnectStep::Next(ConnectStage::Connecting)
        },
        ConnectStage::Connecting => {
            if event_type != RDMA_CM_EVENT_ESTABLISHED {
                return ConnectStep::Failed(
                    RdmaError::Rdma(with_number("Connection failed: ", event_type as i64)),
                );
            }
            ConnectStep::Established
        },
    }
}

/// Where a sequence of events takes a connect in `stage`: the first
/// event that establishes or fails the connection decides, later events
/// do not count.
pub open spec fn connect_run(stage: ConnectStage, events: Seq<u32>) -> Progress<ConnectStage>
    decreases events.len(),
{
    if events.len() == 0 {
        Progress::Next(stage)
    } else {
        match connect_progress(stage, events[0]) {
            Progress::Next(n) => connect_run(n, events.drop_first()),
            other => other,
        }
    }
}

/// A connect is established by its events exactly when they begin with
/// address resolved, route resolved and established, in that order.
pub proof fn lemma_connect_established_exactly_in_order(events: Seq<u32>)
    ensures
        connect_run(ConnectStage::ResolvingAddr, events) is Established <==> (events.len() >= 3
            && events[0] == RDMA_CM_EVENT_ADDR_RESOLVED && events[1]
            == RDMA_CM_EVENT_ROUTE_RESOLVED && events[2] == RDMA_CM_EVENT_ESTABLISHED),
{
    reveal_with_fuel(connect_run, 4);
    if events.len() >= 1 {
        let e1 = events.drop_first();
        if e1.len() >= 1 {
            let e2 = e1.drop_first();
            assert(e1[0] == events[1]);
            if e2.len() >= 1 {
                assert(e2[0] == events[2]);
            }
        }
    }
}

/// The stages of accepting a connection on a listening identifier.
#[derive(Debug, Clone, Copy, PartialEq, Eq)]
pub enum AcceptStage {
    /// Waiting for a connect request on the listener's channel.
    AwaitingRequest,
    /// The request was accepted; waiting on the connection's own channel.
    AwaitingEstablished,
}

/// Where the event `event_type` takes an accept in `stage`.
pub open spec fn accept_progress(stage: AcceptStage, event_type: u32) -> Progress<AcceptStage> {
    match stage {
        AcceptStage::AwaitingRequest => if event_type == RDMA_CM_EVENT_CONNECT_REQUEST {
            Progress::Next(AcceptStage::AwaitingEstablished)
        } else {
            Progress::Ignored
        },
        AcceptStage::AwaitingEstablished => if event_type == RDMA_CM_EVENT_ESTABLISHED {
            Progress::Established
        } else {
            Progress::Failed
        },
    }
}

/// The decision on an event of an accept.
#[derive(Debug)]
pub enum AcceptStep {
    /// Not a connect request: drop it and wait for the next event.
    Ignore,
    /// A connect request: move its identifier to a channel of its own,
    /// create the protection domain, completion queue and queue pair,
    /// accept, and wait on the new channel.
    Accept,
    /// The connection is established.
    Established,
    /// The accept failed.
    Failed(RdmaError),
}

/// The decision on the event `event_type` of an accept in `stage`.
pub fn accept_step(stage: AcceptStage, event_type: u32) -> (s: AcceptStep)
    ensures
        accept_progress(stage, event_type) is Ignored ==> s is Ignore,
        accept_progress(stage, event_type) is Next ==> s is Accept,
        accept_progress(stage, event_type) is Established ==> s is Established,
        accept_progress(stage, event_type) is Failed ==> (s matches AcceptStep::Failed(e)
            && is_rdma_error(e, "Accept failed: "@ + int_decimal(event_type as int))),
{
    match stage {
        AcceptStage::AwaitingRequest => {
            if event_type == RDMA_CM_EVENT_CONNECT_REQUEST {
                AcceptStep::Accept
            } else {
                AcceptStep::Ignore
            }
        },
        AcceptStage::AwaitingEstablished => {
            if event_type != RDMA_CM_EVENT_ESTABLISHED {
                return AcceptStep::Failed(
                    RdmaError::Rdma(with_number("Accept failed: ", event_type as i64)),
                );
            }
            AcceptStep::Established
        },
    }
}

/// Where a sequence of events takes an accept in `stage`.
pub open spec fn accept_run(stage: AcceptStage, events: Seq<u32>) -> Progress<AcceptStage>
    decreases events.len(),
{
    if events.len() == 0 {
        Progress::Next(stage)
    } else {
        match accept_progress(stage, events[0]) {
            Progress::Next(n) => accept_run(n, events.drop_first()),
            Progress::Ignored => accept_run(stage, events.drop_first()),
            other => other,
        }
    }
}

/// The position of the first connect request among `events`, if any.
pub open spec fn first_request(events: Seq<u32>, i: int) -> bool {
    &&& 0 <= i < events.len()
    &&& events[i] == RDMA_CM_EVENT_CONNECT_REQUEST
    &&& forall|j: int| 0 <= j < i ==> events[j] != RDMA_CM_EVENT_CONNECT_REQUEST
}

/// An accept is established by its events exactly when some event after
/// the first connect request follows it directly and is the established
/// event; the events before that request are ignored.
pub proof fn lemma_accept_established_after_first_request(events: Seq<u32>)
    ensures
        accept_run(AcceptStage::AwaitingRequest, events) is Established <==> exists|i: int|
            #[trigger] first_request(events, i) && i + 1 < events.len() && events[i + 1]
                == RDMA_CM_EVENT_ESTABLISHED,
    decreases events.len(),
{
    if events.len() == 0 {
    } else if events[0] == RDMA_CM_EVENT_CONNECT_REQUEST {
        let rest = events.drop_first();
        reveal_with_fuel(accept_run, 2);
        assert(first_request(events, 0));
        if exists|i: int| #[trigger] first_request(events, i) && i + 1 < events.len() && events[i + 1]
            == RDMA_CM_EVENT_ESTABLISHED {
            let i: int = choose|i: int| #[trigger] first_request(events, i) && i + 1 < events.len()
                && events[i + 1] == RDMA_CM_EVENT_ESTABLISHED;
            if i > 0 {
                assert(events[0] != RDMA_CM_EVENT_CONNECT_REQUEST);
            }
            assert(rest[0] == events[1]);
        }
        if rest.len() >= 1 {
            assert(rest[0] == events[1]);
        }
    } else {
        let rest = events.drop_first();
        lemma_accept_established_after_first_request(rest);
        if exists|i: int| #[trigger] first_request(events, i) && i + 1 < events.len() && events[i + 1]
            == RDMA_CM_EVENT_ESTABLISHED {
            let i: int = choose|i: int| #[trigger] first_request(events, i) && i + 1 < events.len()
                && events[i + 1] == RDMA_CM_EVENT_ESTABLISHED;
            assert(i > 0);
            assert(first_request(rest, i - 1));
            assert(rest[i] == events[i + 1]);
        }
        if exists|i: int| #[trigger] first_request(rest, i) && i + 1 < rest.len() && rest[i + 1]
            == RDMA_CM_EVENT_ESTABLISHED {
            let i: int = choose|i: int| #[trigger] first_request(rest, i) && i + 1 < rest.len() && rest[i
                + 1] == RDMA_CM_EVENT_ESTABLISHED;
            assert forall|j: int| 0 <= j < i + 1 implies events[j] != RDMA_CM_EVENT_CONNECT_REQUEST by {
                if j > 0 {
                    assert(events[j] == rest[j - 1]);
                }
            }
            assert(first_request(events, i + 1));
        }
    }
}

/// The operations of a connection.
#[derive(Debug, Clone, Copy, PartialEq, Eq)]
pub enum StreamOp {
    /// A send of local memory.
    Send,
    /// A receive into local memory.
    Recv,
    /// An RDMA read of remote memory at `remote_addr` into local memory.
    Read { remote_addr: u64, rkey: u32 },
    /// An RDMA write of local memory to remote memory at `remote_addr`.
    Write { remote_addr: u64, rkey: u32 },
}

/// The kind of post that carries an operation.
pub open spec fn spec_post_kind(op: StreamOp) -> PostKind {
    match op {
        StreamOp::Send => PostKind::Send,
        StreamOp::Recv => PostKind::Recv,
        _ => PostKind::Rdma,
    }
}

impl StreamOp {
    /// The kind of post that carries this operation.
    pub fn post_kind(self) -> (k: PostKind)
        ensures
            k == spec_post_kind(self),
    {
        match self {
            StreamOp::Send => PostKind::Send,
            StreamOp::Recv => PostKind::Recv,
            _ => PostKind::Rdma,
        }
    }
}

/// A work request to post.
#[derive(Debug)]
pub enum WorkRequest {
    Recv(RecvWr),
    Send(SendWr),
}

/// The scatter/gather elements of a work request.
pub open spec fn request_sg_list(w: WorkRequest) -> Seq<Sge> {
    match w {
        WorkRequest::Recv(wr) => wr.sg_list@,
        WorkRequest::Send(wr) => wr.sg_list@,
    }
}

/// The work request of operation `op` on the regions `reqs` under the id
/// `wr_id`: every request of a connection is signalled, so that its
/// completion reaches the task that waits for it.
pub fn stream_request(op: StreamOp, reqs: &Vec<(MrRef, u64, u32)>, wr_id: usize) -> (w: WorkRequest)
    requires
        requests_fit(reqs@),
    ensures
        request_sg_list(w).len() == reqs@.len(),
        forall|i: int|
            #![trigger request_sg_list(w)[i]]
            0 <= i < reqs@.len() ==> request_sg_list(w)[i].addr == reqs@[i].0.addr + reqs@[i].1
                && request_sg_list(w)[i].length == reqs@[i].2 && request_sg_list(w)[i].lkey
                == reqs@[i].0.lkey,
        op is Recv ==> (w matches WorkRequest::Recv(wr) && wr.wr_id == wr_id && wr.sg_list@
            == reqs@.map_values(|r: (MrRef, u64, u32)| sge_of(r)) && wr.num_sge == reqs@.len()),
        !(op is Recv) ==> (w matches WorkRequest::Send(wr) && wr.wr_id == wr_id && wr.sg_list@
            == reqs@.map_values(|r: (MrRef, u64, u32)| sge_of(r)) && wr.num_sge == reqs@.len()
            && wr.send_flags == flags_of(true) && match op {
            StreamOp::Send => wr.opcode == IBV_WR_SEND && wr.remote_addr == 0 && wr.rkey == 0,
            StreamOp::Read { remote_addr, rkey } => wr.opcode == IBV_WR_RDMA_READ && wr.remote_addr
                == remote_addr && wr.rkey == rkey,
            StreamOp::Write { remote_addr, rkey } => wr.opcode == IBV_WR_RDMA_WRITE
                && wr.remote_addr == remote_addr && wr.rkey == rkey,
            StreamOp::Recv => false,
        }),
{
    let id: u64 = wr_id as u64;
    match op {
        StreamOp::Send => WorkRequest::Send(send_request(reqs, id, true)),
        StreamOp::Recv => WorkRequest::Recv(recv_request(reqs, id)),
        StreamOp::Read { remote_addr, rkey } => WorkRequest::Send(
            rdma_request(reqs, IBV_WR_RDMA_READ, id, true, remote_addr, rkey),
        ),
        StreamOp::Write { remote_addr, rkey } => WorkRequest::Send(
            rdma_request(reqs, IBV_WR_RDMA_WRITE, id, true, remote_addr, rkey),
        ),
    }
}

/// The id that a work request carries.
pub open spec fn request_id(w: WorkRequest) -> u64 {
    match w {
        WorkRequest::Recv(wr) => wr.wr_id,
        WorkRequest::Send(wr) => wr.wr_id,
    }
}

impl PendingRequests {
    /// Registers operation `op` on the regions `reqs` and lays out its
    /// work request, whose id is the key of its slot.
    pub fn start_request(&mut self, op: StreamOp, reqs: &Vec<(MrRef, u64, u32)>) -> (r: (
        usize,
        WorkRequest,
    ))
        requires
            requests_fit(reqs@),
        ensures
            !old(self)@.contains_key(r.0),
            final(self)@ == old(self)@.insert(r.0, fresh_slot()),
            request_id(r.1) == r.0 as u64,
            (r.0 as u64) as usize == r.0,
            request_sg_list(r.1).len() == reqs@.len(),
            forall|i: int|
                #![trigger request_sg_list(r.1)[i]]
                0 <= i < reqs@.len() ==> request_sg_list(r.1)[i].addr == reqs@[i].0.addr + reqs@[i].1
                    && request_sg_list(r.1)[i].length == reqs@[i].2 && request_sg_list(r.1)[i].lkey
                    == reqs@[i].0.lkey,
            op is Recv ==> (r.1 matches WorkRequest::Recv(wr) && wr.sg_list@ == reqs@.map_values(
                |q: (MrRef, u64, u32)| sge_of(q),
            ) && wr.num_sge == reqs@.len()),
            !(op is Recv) ==> (r.1 matches WorkRequest::Send(wr) && wr.sg_list@ == reqs@.map_values(
                |q: (MrRef, u64, u32)| sge_of(q),
            ) && wr.num_sge == reqs@.len() && wr.send_flags == flags_of(true) && match op {
                StreamOp::Send => wr.opcode == IBV_WR_SEND && wr.remote_addr == 0 && wr.rkey == 0,
                StreamOp::Read { remote_addr, rkey } => wr.opcode == IBV_WR_RDMA_READ
                    && wr.remote_addr == remote_addr && wr.rkey == rkey,
                StreamOp::Write { remote_addr, rkey } => wr.opcode == IBV_WR_RDMA_WRITE
                    && wr.remote_addr == remote_addr && wr.rkey == rkey,
                StreamOp::Recv => false,
            }),
    {
        let key: usize = self.register();
        let w = stream_request(op, reqs, key);
        (key, w)
    }

    /// The outcome of posting the request registered under `key`, from the
    /// post call's return code: a failed post forgets the request and
    /// reports the failure.
    pub fn finish_post(&mut self, key: usize, op: StreamOp, ret: i32) -> (r: Result<()>)
        requires
            old(self)@.contains_key(key),
        ensures
            ret == 0 ==> r is Ok && final(self)@ == old(self)@,
            ret != 0 ==> (r matches Err(e) && is_rdma_error(
                e,
                post_prefix(spec_post_kind(op)) + int_decimal(ret as int),
            )) && final(self)@ == old(self)@.remove(key),
    {
        let r = post_result(op.post_kind(), ret);
        if r.is_err() {
            self.cancel(key);
        }
        r
    }
}

} // verus!
