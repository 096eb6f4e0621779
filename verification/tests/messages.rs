use tokio_rdma::cm::{accept_param, cm_result, connect_param, get_event_step, CmOp, GetEventStep};
use tokio_rdma::error::{Failure, RdmaError};
use tokio_rdma::mr::{registration_result, MrInfo, Registration};
use tokio_rdma::text::{decimal, with_number, with_ret_and_errno};
use tokio_rdma::utils::ptr_to_string;

fn rdma_text(e: RdmaError) -> String {
    match e {
        RdmaError::Rdma(s) => s,
        other => panic!("unexpected error {:?}", other),
    }
}

#[test]
fn decimal_renders_like_format() {
    for n in [0i64, 7, 10, 42, 2000, -1, -105, i64::MAX, i64::MIN, i32::MIN as i64] {
        assert_eq!(decimal(n), format!("{}", n));
    }
    assert_eq!(decimal(-2147483648), "-2147483648");
}

#[test]
fn with_number_appends_decimal() {
    assert_eq!(with_number("Poll: ", 5), "Poll: 5");
    assert_eq!(with_ret_and_errno("Failed to bind CM ID: ", -1, 98), "Failed to bind CM ID: -1 (errno 98)");
}

#[test]
fn ptr_to_string_of_null_is_empty() {
    assert_eq!(ptr_to_string(None), "");
}

#[test]
fn ptr_to_string_keeps_ascii_names() {
    assert_eq!(ptr_to_string(Some(b"mlx5_0")), "mlx5_0");
}

#[test]
fn ptr_to_string_replaces_invalid_utf8() {
    assert_eq!(ptr_to_string(Some(&[b'a', 0xff, b'b'])), "a\u{fffd}b");
    assert_eq!(ptr_to_string(Some("é".as_bytes())), "é");
}

#[test]
fn failure_texts() {
    assert_eq!(rdma_text(Failure::AllocPd.error()), "Failed to allocate PD");
    assert_eq!(rdma_text(Failure::GetDeviceList.error()), "Failed to get device list");
    assert_eq!(rdma_text(Failure::OpenDeviceContext.error()), "Failed to open device context");
    assert_eq!(rdma_text(Failure::QueryPort.error()), "Failed to query port");
    assert_eq!(rdma_text(Failure::QueryGid.error()), "Failed to query GID");
    assert_eq!(rdma_text(Failure::CreateCompChannel.error()), "Failed to create completion channel");
    assert_eq!(rdma_text(Failure::CreateCq.error()), "Failed to create CQ");
    assert_eq!(rdma_text(Failure::PollCq.error()), "Poll CQ failed");
    assert_eq!(rdma_text(Failure::ReqNotifyCq.error()), "Req notify failed");
    assert_eq!(rdma_text(Failure::GetCqEvent.error()), "Get CQ event failed");
    assert_eq!(rdma_text(Failure::CreateCmChannel.error()), "Failed to create CM event channel");
    assert_eq!(rdma_text(Failure::CreateCmId.error()), "Failed to create CM ID");
}

#[test]
fn failure_check_passes_success_through() {
    assert!(Failure::CreateCmId.check(true).is_ok());
    assert_eq!(rdma_text(Failure::CreateCmId.check(false).unwrap_err()), "Failed to create CM ID");
}

#[test]
fn error_display_texts() {
    assert_eq!(RdmaError::Rdma("x".to_string()).to_string(), "RDMA Error: x");
    assert_eq!(RdmaError::DeviceNotFound.to_string(), "Device not found");
    assert_eq!(RdmaError::OperationFailed.to_string(), "Operation failed");
    let io = std::io::Error::new(std::io::ErrorKind::Other, "boom");
    assert_eq!(RdmaError::Io(io).to_string(), "IO Error: boom");
}

#[test]
fn io_errors_convert() {
    let io = std::io::Error::new(std::io::ErrorKind::WouldBlock, "later");
    let e: RdmaError = io.into();
    assert!(matches!(e, RdmaError::Io(ref inner) if inner.kind() == std::io::ErrorKind::WouldBlock));
}

#[test]
fn cm_operation_errors() {
    assert!(cm_result(CmOp::Bind, 0, 98).is_ok());
    let cases = [
        (CmOp::Bind, "Failed to bind CM ID: -1 (errno 98)"),
        (CmOp::Listen, "Failed to listen on CM ID: -1 (errno 98)"),
        (CmOp::ResolveAddr, "Failed to resolve CM addr: -1 (errno 98)"),
        (CmOp::ResolveRoute, "Failed to resolve CM route: -1 (errno 98)"),
        (CmOp::Connect, "Failed to connect CM ID: -1 (errno 98)"),
        (CmOp::Accept, "Failed to accept CM ID: -1 (errno 98)"),
        (CmOp::Migrate, "Failed to migrate CM ID: -1 (errno 98)"),
    ];
    for (op, text) in cases {
        assert_eq!(rdma_text(cm_result(op, -1, 98).unwrap_err()), text);
    }
}

#[test]
fn cm_event_fetch_decisions() {
    assert!(matches!(get_event_step(0, 11, 11, 11), GetEventStep::Deliver));
    assert!(matches!(get_event_step(-1, 11, 11, 11), GetEventStep::Wait));
    assert!(matches!(get_event_step(-1, 35, 11, 35), GetEventStep::Wait));
    match get_event_step(-1, 22, 11, 11) {
        GetEventStep::Fail(e) => assert_eq!(rdma_text(e), "Failed to get CM event: 22"),
        other => panic!("unexpected {:?}", other),
    }
}

#[test]
fn connection_parameters() {
    let c = connect_param();
    assert_eq!((c.responder_resources, c.initiator_depth, c.retry_count), (1, 1, 7));
    assert_eq!((c.flow_control, c.rnr_retry_count, c.srq, c.qp_num), (0, 0, 0, 0));
    let a = accept_param();
    assert_eq!((a.responder_resources, a.initiator_depth, a.retry_count), (1, 1, 0));
}

#[test]
fn registration_errors() {
    assert!(registration_result(Registration::Host, true, 0).is_ok());
    assert_eq!(
        rdma_text(registration_result(Registration::Host, false, 12).unwrap_err()),
        "Failed to register MR: errno 12"
    );
    assert_eq!(
        rdma_text(registration_result(Registration::DmaBuf, false, 22).unwrap_err()),
        "Failed to register dmabuf MR: errno 22"
    );
    assert_eq!(
        rdma_text(registration_result(Registration::User, false, 14).unwrap_err()),
        "Failed to register external MR: errno 14"
    );
}

#[test]
fn memory_region_accessors() {
    let mr = MrInfo { addr: 0x1000, length: 4096, lkey: 7, rkey: 9 };
    assert_eq!((mr.addr(), mr.len(), mr.lkey(), mr.rkey()), (0x1000, 4096, 7, 9));
    let r = mr.as_ref();
    assert_eq!((r.addr, r.lkey), (0x1000, 7));
}
