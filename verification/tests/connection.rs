use tokio_rdma::cq::{poll_step, PollEvent, PollStage, PollStep};
use tokio_rdma::error::RdmaError;
use tokio_rdma::qp::{MrRef, PostKind};
use tokio_rdma::registry::{Completion, PendingRequests, PollerStep};
use tokio_rdma::setup::{nonblocking_flags, setup_step, ChannelKind, OsConsts, SetupEvent, SetupStage, SetupStep};
use tokio_rdma::stream::{
    accept_step, connect_step, AcceptStage, AcceptStep, ConnectStage, ConnectStep, StreamOp,
    WorkRequest,
};
use std::sync::atomic::{AtomicUsize, Ordering};
use std::sync::Arc;
use std::task::{Wake, Waker};

fn text(e: RdmaError) -> String {
    match e {
        RdmaError::Rdma(s) => s,
        other => panic!("unexpected error {:?}", other),
    }
}

fn wc(wr_id: u64, byte_len: u32) -> Completion {
    Completion {
        wr_id,
        status: 0,
        opcode: 0,
        vendor_err: 0,
        byte_len,
        imm_data: 0,
        qp_num: 1,
        src_qp: 0,
        wc_flags: 0,
        pkey_index: 0,
        slid: 0,
        sl: 0,
        dlid_path_bits: 0,
    }
}

struct Counter(AtomicUsize);

impl Wake for Counter {
    fn wake(self: Arc<Self>) {
        self.0.fetch_add(1, Ordering::SeqCst);
    }
}

fn counting_waker() -> (Arc<Counter>, Waker) {
    let c = Arc::new(Counter(AtomicUsize::new(0)));
    (c.clone(), Waker::from(c))
}

#[test]
fn registered_keys_are_distinct() {
    let mut p = PendingRequests::new();
    let a = p.register();
    let b = p.register();
    assert_ne!(a, b);
    assert!(p.contains(a) && p.contains(b));
}

#[test]
fn completion_after_poll_wakes_the_waiting_task() {
    let mut p = PendingRequests::new();
    let key = p.register();
    let (count, waker) = counting_waker();
    assert!(p.poll(key, waker).is_none());
    let w = p.complete(wc(key as u64, 64)).expect("the waiting task's waker");
    w.wake();
    assert_eq!(count.0.load(Ordering::SeqCst), 1);
    let got = p.poll(key, Waker::noop().clone()).expect("the completion");
    assert_eq!(got.wc, wc(key as u64, 64));
    assert!(!p.contains(key));
}

#[test]
fn completion_before_poll_is_kept_for_the_task() {
    let mut p = PendingRequests::new();
    let key = p.register();
    assert!(p.complete(wc(key as u64, 8)).is_none());
    let got = p.poll(key, Waker::noop().clone()).expect("the completion");
    assert_eq!(got.wc.byte_len, 8);
    assert!(!p.contains(key));
}

#[test]
fn completion_with_unknown_id_is_ignored() {
    let mut p = PendingRequests::new();
    let key = p.register();
    assert!(p.complete(wc(key as u64 + 5, 1)).is_none());
    assert!(p.contains(key));
    assert!(p.poll(key, Waker::noop().clone()).is_none());
}

#[test]
fn completion_reaches_only_its_request() {
    let mut p = PendingRequests::new();
    let a = p.register();
    let b = p.register();
    p.complete(wc(b as u64, 2));
    assert!(p.poll(a, Waker::noop().clone()).is_none());
    assert_eq!(p.poll(b, Waker::noop().clone()).unwrap().wc.byte_len, 2);
    assert!(p.contains(a));
}

#[test]
fn cancel_forgets_a_request() {
    let mut p = PendingRequests::new();
    let key = p.register();
    p.cancel(key);
    assert!(!p.contains(key));
}

#[test]
fn failed_post_rolls_back_the_request() {
    let mut p = PendingRequests::new();
    let reqs = vec![(MrRef { addr: 0x2000, lkey: 3 }, 8, 16)];
    let (key, w) = p.start_request(StreamOp::Send, &reqs);
    match w {
        WorkRequest::Send(wr) => {
            assert_eq!((wr.wr_id, wr.opcode, wr.send_flags), (key as u64, 2, 2));
            assert_eq!(wr.sg_list[0].addr, 0x2008);
        }
        other => panic!("unexpected {:?}", other),
    }
    assert_eq!(text(p.finish_post(key, StreamOp::Send, 12).unwrap_err()), "Failed to post send: 12");
    assert!(!p.contains(key));
    let (key2, _) = p.start_request(StreamOp::Recv, &reqs);
    assert!(p.finish_post(key2, StreamOp::Recv, 0).is_ok());
    assert!(p.contains(key2));
}

#[test]
fn stream_operations_choose_their_requests() {
    let mut p = PendingRequests::new();
    let reqs = vec![(MrRef { addr: 0x2000, lkey: 3 }, 0, 16)];
    match p.start_request(StreamOp::Recv, &reqs).1 {
        WorkRequest::Recv(wr) => assert_eq!(wr.num_sge, 1),
        other => panic!("unexpected {:?}", other),
    }
    match p.start_request(StreamOp::Read { remote_addr: 0x9000, rkey: 5 }, &reqs).1 {
        WorkRequest::Send(wr) => assert_eq!((wr.opcode, wr.remote_addr, wr.rkey, wr.send_flags), (4, 0x9000, 5, 2)),
        other => panic!("unexpected {:?}", other),
    }
    match p.start_request(StreamOp::Write { remote_addr: 0x9000, rkey: 5 }, &reqs).1 {
        WorkRequest::Send(wr) => assert_eq!((wr.opcode, wr.remote_addr, wr.rkey), (0, 0x9000, 5)),
        other => panic!("unexpected {:?}", other),
    }
    assert_eq!(StreamOp::Recv.post_kind(), PostKind::Recv);
    assert_eq!(StreamOp::Write { remote_addr: 0, rkey: 0 }.post_kind(), PostKind::Rdma);
}

#[test]
fn connect_goes_through_the_three_events() {
    assert!(matches!(connect_step(ConnectStage::ResolvingAddr, 0), ConnectStep::Next(ConnectStage::ResolvingRoute)));
    assert!(matches!(connect_step(ConnectStage::ResolvingRoute, 2), ConnectStep::Next(ConnectStage::Connecting)));
    assert!(matches!(connect_step(ConnectStage::Connecting, 9), ConnectStep::Established));
}

#[test]
fn connect_fails_on_other_events() {
    match connect_step(ConnectStage::ResolvingAddr, 1) {
        ConnectStep::Failed(e) => assert_eq!(text(e), "Addr resolution failed: 1"),
        other => panic!("unexpected {:?}", other),
    }
    match connect_step(ConnectStage::ResolvingRoute, 3) {
        ConnectStep::Failed(e) => assert_eq!(text(e), "Route resolution failed: 3"),
        other => panic!("unexpected {:?}", other),
    }
    match connect_step(ConnectStage::Connecting, 8) {
        ConnectStep::Failed(e) => assert_eq!(text(e), "Connection failed: 8"),
        other => panic!("unexpected {:?}", other),
    }
}

#[test]
fn accept_ignores_events_until_a_request() {
    assert!(matches!(accept_step(AcceptStage::AwaitingRequest, 10), AcceptStep::Ignore));
    assert!(matches!(accept_step(AcceptStage::AwaitingRequest, 9), AcceptStep::Ignore));
    assert!(matches!(accept_step(AcceptStage::AwaitingRequest, 4), AcceptStep::Accept));
    assert!(matches!(accept_step(AcceptStage::AwaitingEstablished, 9), AcceptStep::Established));
    match accept_step(AcceptStage::AwaitingEstablished, 8) {
        AcceptStep::Failed(e) => assert_eq!(text(e), "Accept failed: 8"),
        other => panic!("unexpected {:?}", other),
    }
}

#[test]
fn poll_returns_a_found_completion() {
    match poll_step(PollStage::Poll, PollEvent::Polled { ret: 1, wc: wc(7, 3) }, 11) {
        PollStep::Done(Ok(c)) => assert_eq!(c, wc(7, 3)),
        other => panic!("unexpected {:?}", other),
    }
}

#[test]
fn poll_sleeps_only_after_a_second_look() {
    assert!(matches!(
        poll_step(PollStage::Poll, PollEvent::Polled { ret: 0, wc: wc(0, 0) }, 11),
        PollStep::Next { stage: PollStage::Notify, ack_event: false, clear_ready: false }
    ));
    assert!(matches!(
        poll_step(PollStage::Notify, PollEvent::Notified { ret: 0 }, 11),
        PollStep::Next { stage: PollStage::Repoll, .. }
    ));
    assert!(matches!(
        poll_step(PollStage::Repoll, PollEvent::Polled { ret: 1, wc: wc(2, 0) }, 11),
        PollStep::Done(Ok(_))
    ));
    assert!(matches!(
        poll_step(PollStage::Repoll, PollEvent::Polled { ret: -1, wc: wc(0, 0) }, 11),
        PollStep::Next { stage: PollStage::Wait, .. }
    ));
    assert!(matches!(
        poll_step(PollStage::Wait, PollEvent::Readable, 11),
        PollStep::Next { stage: PollStage::Fetch, .. }
    ));
    assert!(matches!(
        poll_step(PollStage::Fetch, PollEvent::Fetched { ret: 0, errno: 0 }, 11),
        PollStep::Next { stage: PollStage::Poll, ack_event: true, clear_ready: true }
    ));
    assert!(matches!(
        poll_step(PollStage::Fetch, PollEvent::Fetched { ret: -1, errno: 11 }, 11),
        PollStep::Next { stage: PollStage::Poll, ack_event: false, clear_ready: true }
    ));
}

#[test]
fn poll_errors() {
    let cases = [
        (PollStage::Poll, PollEvent::Polled { ret: -1, wc: wc(0, 0) }, "Poll CQ failed"),
        (PollStage::Notify, PollEvent::Notified { ret: 5 }, "Req notify failed"),
        (PollStage::Fetch, PollEvent::Fetched { ret: -1, errno: 9 }, "Get CQ event failed"),
    ];
    for (stage, event, msg) in cases {
        match poll_step(stage, event, 11) {
            PollStep::Done(Err(e)) => assert_eq!(text(e), msg),
            other => panic!("unexpected {:?}", other),
        }
    }
    let io = std::io::Error::new(std::io::ErrorKind::Other, "gone");
    assert!(matches!(poll_step(PollStage::Wait, PollEvent::WaitFailed(io), 11), PollStep::Done(Err(RdmaError::Io(_)))));
}

#[test]
fn nonblocking_flags_keep_other_flags() {
    assert_eq!(nonblocking_flags(-1, 2048), None);
    assert_eq!(nonblocking_flags(2, 2048), Some(2050));
    assert_eq!(nonblocking_flags(2048, 2048), Some(2048));
}

#[test]
fn os_constants_of_linux() {
    let c = OsConsts::current();
    assert_eq!(c.eagain, libc::EAGAIN);
    assert_eq!(c.ewouldblock, libc::EWOULDBLOCK);
    assert_eq!(c.o_nonblock, libc::O_NONBLOCK);
    assert_eq!((c.eagain, c.ewouldblock), (11, 11));
    assert!([2048, 128, 16384].contains(&c.o_nonblock));
}

#[test]
fn completion_queue_setup() {
    let k = ChannelKind::Completion;
    assert!(matches!(setup_step(k, SetupStage::CreateChannel, SetupEvent::ChannelCreated { ok: true }, 2048), SetupStep::Next(SetupStage::CreateCq)));
    match setup_step(k, SetupStage::CreateChannel, SetupEvent::ChannelCreated { ok: false }, 2048) {
        SetupStep::Fail { destroy_channel, error } => {
            assert!(!destroy_channel);
            assert_eq!(text(error), "Failed to create completion channel");
        }
        other => panic!("unexpected {:?}", other),
    }
    match setup_step(k, SetupStage::CreateCq, SetupEvent::CqCreated { ok: false }, 2048) {
        SetupStep::Fail { destroy_channel, error } => {
            assert!(destroy_channel);
            assert_eq!(text(error), "Failed to create CQ");
        }
        other => panic!("unexpected {:?}", other),
    }
    assert!(matches!(setup_step(k, SetupStage::CreateCq, SetupEvent::CqCreated { ok: true }, 2048), SetupStep::Next(SetupStage::ReadFlags)));
    assert!(matches!(setup_step(k, SetupStage::ReadFlags, SetupEvent::FlagsRead { flags: 2 }, 2048), SetupStep::Next(SetupStage::WriteFlags(2050))));
    assert!(matches!(setup_step(k, SetupStage::ReadFlags, SetupEvent::FlagsRead { flags: -1 }, 2048), SetupStep::Next(SetupStage::Register)));
    assert!(matches!(setup_step(k, SetupStage::WriteFlags(2050), SetupEvent::FlagsWritten, 2048), SetupStep::Next(SetupStage::Register)));
    assert!(matches!(setup_step(k, SetupStage::Register, SetupEvent::Registered(Ok(())), 2048), SetupStep::Ready));
    let io = std::io::Error::new(std::io::ErrorKind::Other, "epoll");
    assert!(matches!(
        setup_step(k, SetupStage::Register, SetupEvent::Registered(Err(io)), 2048),
        SetupStep::Fail { destroy_channel: false, error: RdmaError::Io(_) }
    ));
}

#[test]
fn event_channel_setup() {
    let k = ChannelKind::CmEvents;
    assert!(matches!(setup_step(k, SetupStage::CreateChannel, SetupEvent::ChannelCreated { ok: true }, 2048), SetupStep::Next(SetupStage::ReadFlags)));
    match setup_step(k, SetupStage::CreateChannel, SetupEvent::ChannelCreated { ok: false }, 2048) {
        SetupStep::Fail { error, .. } => assert_eq!(text(error), "Failed to create CM event channel"),
        other => panic!("unexpected {:?}", other),
    }
}

#[test]
fn poller_stops_on_a_failed_wait() {
    let mut p = PendingRequests::new();
    let key = p.register();
    assert!(matches!(p.on_polled(Err(RdmaError::OperationFailed)), PollerStep::Stop));
    assert!(p.contains(key));
    let (count, waker) = counting_waker();
    assert!(p.poll(key, waker).is_none());
    match p.on_polled(Ok(wc(key as u64, 4))) {
        PollerStep::Continue(Some(w)) => w.wake(),
        other => panic!("unexpected {:?}", other),
    }
    assert_eq!(count.0.load(Ordering::SeqCst), 1);
    assert!(matches!(p.on_polled(Ok(wc(999, 4))), PollerStep::Continue(None)));
}
