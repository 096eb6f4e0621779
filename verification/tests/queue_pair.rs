use tokio_rdma::qp::{
    create_attr, create_result, modify_result, post_result, rdma_request, recv_request,
    send_request, to_init, to_rtr, to_rts, MrRef, PostKind, Transition,
};
use tokio_rdma::error::RdmaError;

fn text(e: RdmaError) -> String {
    match e {
        RdmaError::Rdma(s) => s,
        other => panic!("unexpected error {:?}", other),
    }
}

#[test]
fn create_attributes() {
    let a = create_attr();
    assert_eq!(a.qp_type, 2);
    assert_eq!(a.sq_sig_all, 0);
    assert_eq!((a.max_send_wr, a.max_recv_wr, a.max_send_sge, a.max_recv_sge), (128, 128, 1, 1));
    assert!(create_result(0).is_ok());
    assert_eq!(text(create_result(-22).unwrap_err()), "Failed to create CM QP: -22");
}

#[test]
fn init_transition() {
    let m = to_init(1);
    assert_eq!(m.attr.qp_state, 1);
    assert_eq!(m.attr.port_num, 1);
    assert_eq!(m.attr.pkey_index, 0);
    assert_eq!(m.attr.qp_access_flags, 7);
    assert_eq!(m.mask, 1 | 16 | 32 | 8);
    assert_eq!(m.attr.path_mtu, 0);
}

#[test]
fn rtr_transition_with_and_without_gid() {
    let gid = [3u8; 16];
    let m = to_rtr(0x11, 5, 1, 0x22, Some(gid));
    assert_eq!(m.attr.qp_state, 2);
    assert_eq!(m.attr.path_mtu, 3);
    assert_eq!((m.attr.dest_qp_num, m.attr.rq_psn), (0x11, 0x22));
    assert_eq!((m.attr.max_dest_rd_atomic, m.attr.min_rnr_timer), (1, 12));
    assert_eq!((m.attr.ah_attr.dlid, m.attr.ah_attr.port_num), (5, 1));
    assert_eq!(m.attr.ah_attr.is_global, 1);
    assert_eq!(m.attr.ah_attr.dgid, gid);
    assert_eq!(m.attr.ah_attr.hop_limit, 1);
    assert_eq!(m.mask, 1 | 128 | 256 | 1048576 | 4096 | 131072 | 32768);
    let n = to_rtr(0x11, 5, 1, 0x22, None);
    assert_eq!(n.attr.ah_attr.is_global, 0);
    assert_eq!(n.attr.ah_attr.dgid, [0u8; 16]);
    assert_eq!(n.attr.ah_attr.hop_limit, 0);
}

#[test]
fn rts_transition() {
    let m = to_rts(0x33);
    assert_eq!(m.attr.qp_state, 3);
    assert_eq!((m.attr.timeout, m.attr.retry_cnt, m.attr.rnr_retry), (14, 7, 7));
    assert_eq!((m.attr.sq_psn, m.attr.max_rd_atomic), (0x33, 1));
    assert_eq!(m.mask, 1 | 512 | 1024 | 2048 | 65536 | 8192);
}

#[test]
fn transition_errors() {
    assert!(modify_result(Transition::Init, 0).is_ok());
    assert_eq!(text(modify_result(Transition::Init, 22).unwrap_err()), "Failed to modify QP to INIT: 22");
    assert_eq!(text(modify_result(Transition::Rtr, 22).unwrap_err()), "Failed to modify QP to RTR: 22");
    assert_eq!(text(modify_result(Transition::Rts, -5).unwrap_err()), "Failed to modify QP to RTS: -5");
}

#[test]
fn work_request_layout() {
    let reqs = vec![
        (MrRef { addr: 0x1000, lkey: 7 }, 16, 100),
        (MrRef { addr: 0x8000, lkey: 9 }, 0, 4),
    ];
    let r = recv_request(&reqs, 42);
    assert_eq!(r.wr_id, 42);
    assert_eq!(r.num_sge, 2);
    assert_eq!((r.sg_list[0].addr, r.sg_list[0].length, r.sg_list[0].lkey), (0x1010, 100, 7));
    assert_eq!((r.sg_list[1].addr, r.sg_list[1].length, r.sg_list[1].lkey), (0x8000, 4, 9));
    let s = send_request(&reqs, 3, true);
    assert_eq!((s.opcode, s.send_flags, s.num_sge), (2, 2, 2));
    let u = send_request(&reqs, 3, false);
    assert_eq!(u.send_flags, 0);
    let w = rdma_request(&reqs[..1].to_vec(), 0, 4, true, 0xdead0000, 77);
    assert_eq!((w.opcode, w.remote_addr, w.rkey, w.num_sge), (0, 0xdead0000, 77, 1));
    assert_eq!(recv_request(&Vec::new(), 1).num_sge, 0);
}

#[test]
fn post_errors() {
    assert!(post_result(PostKind::Send, 0).is_ok());
    assert_eq!(text(post_result(PostKind::Recv, 12).unwrap_err()), "Failed to post recv : 12");
    assert_eq!(text(post_result(PostKind::Send, 12).unwrap_err()), "Failed to post send: 12");
    assert_eq!(text(post_result(PostKind::Rdma, 12).unwrap_err()), "Failed to post rdma: 12");
}
