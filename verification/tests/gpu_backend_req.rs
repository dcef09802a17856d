use vhost::error::Error;
use vhost::gpu_backend_req::GpuBackend;
use vhost::gpu_message::{
    GpuBackendReq, VhostUserGpuCursorPos, VhostUserGpuCursorUpdate, VhostUserGpuDMABUFScanout,
    VhostUserGpuDMABUFScanout2, VhostUserGpuEdidRequest, VhostUserGpuMsgHeader,
    VhostUserGpuScanout, VhostUserGpuUpdate, VirtioGpuRespDisplayInfo,
    VHOST_USER_GPU_HEADER_FLAG_REPLY,
};
use vhost::header::VhostUserMsgHeader;
use vhost::message::{VhostUserEmpty, VhostUserU64};

type GpuHdr = VhostUserGpuMsgHeader<GpuBackendReq>;

const REQUEST: GpuBackendReq = GpuBackendReq::GET_PROTOCOL_FEATURES;

#[test]
fn test_gpu_backend_req_set_failed() {
    let mut backend = GpuBackend::new();
    assert!(backend.error().is_none());
    backend.set_failed(libc::EAGAIN);
    assert_eq!(backend.error(), Some(libc::EAGAIN));
}

#[test]
fn test_gpu_backend_cannot_send_when_failed() {
    let mut backend = GpuBackend::new();
    backend.set_failed(libc::EAGAIN);

    backend
        .send_header(GpuBackendReq::GET_PROTOCOL_FEATURES)
        .unwrap_err();

    backend
        .send_message::<VhostUserEmpty>(GpuBackendReq::GET_PROTOCOL_FEATURES, &VhostUserEmpty)
        .unwrap_err();

    backend
        .send_message_no_reply::<VhostUserEmpty>(
            GpuBackendReq::GET_PROTOCOL_FEATURES,
            &VhostUserEmpty,
        )
        .unwrap_err();

    backend
        .send_message_oversized_no_reply::<VhostUserEmpty>(
            GpuBackendReq::GET_PROTOCOL_FEATURES,
            &VhostUserEmpty,
        )
        .unwrap_err();

    backend
        .send_message_oversized_with_payload_no_reply::<VhostUserEmpty>(
            GpuBackendReq::GET_PROTOCOL_FEATURES,
            &VhostUserEmpty,
            &[],
        )
        .unwrap_err();
}

#[test]
fn failed_backend_reports_its_error() {
    let mut backend = GpuBackend::new();
    assert_eq!(backend.check_state(), Ok(0));
    backend.set_failed(libc::EPIPE);
    assert_eq!(backend.check_state(), Err(Error::SocketBroken(libc::EPIPE)));
    assert_eq!(
        backend.get_display_info(),
        Err(Error::SocketBroken(libc::EPIPE))
    );
    assert_eq!(
        backend.cursor_update(&VhostUserGpuCursorUpdate::default()),
        Err(Error::SocketBroken(libc::EPIPE))
    );
    let hdr = GpuHdr::new(REQUEST, 0, 0);
    let reply = GpuHdr::new(REQUEST, VHOST_USER_GPU_HEADER_FLAG_REPLY, 8);
    assert_eq!(
        backend.wait_for_ack(&hdr, &reply, VhostUserU64::new(1), false),
        Err(Error::SocketBroken(libc::EPIPE))
    );
    backend.set_failed(libc::EAGAIN);
    assert_eq!(backend.error(), Some(libc::EAGAIN));
}

#[test]
fn send_header_builds_request_header() {
    let backend = GpuBackend::new();
    assert_eq!(backend.send_header(REQUEST), Ok(GpuHdr::new(REQUEST, 0, 0)));
}

#[test]
fn send_message_announces_body_size() {
    let backend = GpuBackend::new();
    let body = VhostUserU64::new(123);
    assert_eq!(
        backend.send_message(REQUEST, &body),
        Ok(GpuHdr::new(REQUEST, 0, 8))
    );
    assert_eq!(
        backend.send_message_no_reply(REQUEST, &body),
        Ok(GpuHdr::new(REQUEST, 0, 8))
    );
    assert_eq!(
        backend.send_message_no_reply(REQUEST, &VhostUserEmpty),
        Ok(GpuHdr::new(REQUEST, 0, 0))
    );
}

#[test]
fn oversized_cursor_message_announces_full_size() {
    let backend = GpuBackend::new();
    let cursor_update = VhostUserGpuCursorUpdate {
        pos: VhostUserGpuCursorPos {
            scanout_id: 1,
            x: 10,
            y: 10,
        },
        hot_x: 15,
        hot_y: 15,
        data: [0; 4096],
    };
    let expected_hdr = GpuHdr::new(
        GpuBackendReq::CURSOR_UPDATE,
        0,
        std::mem::size_of_val(&cursor_update) as u32,
    );
    assert_eq!(expected_hdr.get_size(), 16404);
    assert_eq!(backend.cursor_update(&cursor_update), Ok(expected_hdr));
    assert_eq!(
        backend.send_message_oversized_no_reply(GpuBackendReq::CURSOR_UPDATE, &cursor_update),
        Ok(expected_hdr)
    );
}

#[test]
fn oversized_message_with_payload_announces_body_and_payload() {
    let backend = GpuBackend::new();
    let payload = vec![1u8; 8192];
    let body = VhostUserU64::new(123);
    assert_eq!(
        backend.send_message_oversized_with_payload_no_reply(REQUEST, &body, &payload),
        Ok(GpuHdr::new(REQUEST, 0, 8 + 8192))
    );
    assert_eq!(
        backend.update_scanout(&VhostUserGpuUpdate::default(), &payload),
        Ok(GpuHdr::new(GpuBackendReq::UPDATE, 0, 20 + 8192))
    );
    assert_eq!(
        backend.update_scanout(&VhostUserGpuUpdate::default(), &[]),
        Ok(GpuHdr::new(GpuBackendReq::UPDATE, 0, 20))
    );
}

#[test]
fn each_request_goes_out_with_its_code_and_size() {
    let backend = GpuBackend::new();
    let req = GpuBackendReq::GET_PROTOCOL_FEATURES;
    assert_eq!(backend.get_protocol_features(), Ok(GpuHdr::new(req, 0, 0)));
    let req = GpuBackendReq::SET_PROTOCOL_FEATURES;
    assert_eq!(
        backend.set_protocol_features(&VhostUserU64::new(0x3)),
        Ok(GpuHdr::new(req, 0, 8))
    );
    let req = GpuBackendReq::GET_DISPLAY_INFO;
    assert_eq!(backend.get_display_info(), Ok(GpuHdr::new(req, 0, 0)));
    let req = GpuBackendReq::GET_EDID;
    assert_eq!(
        backend.get_edid(&VhostUserGpuEdidRequest { scanout_id: 2 }),
        Ok(GpuHdr::new(req, 0, 4))
    );
    let req = GpuBackendReq::SCANOUT;
    assert_eq!(
        backend.set_scanout(&VhostUserGpuScanout::default()),
        Ok(GpuHdr::new(req, 0, 12))
    );
    let req = GpuBackendReq::DMABUF_SCANOUT;
    assert_eq!(
        backend.set_dmabuf_scanout(&VhostUserGpuDMABUFScanout::default()),
        Ok(GpuHdr::new(req, 0, 40))
    );
    let req = GpuBackendReq::DMABUF_SCANOUT2;
    assert_eq!(
        backend.set_dmabuf_scanout2(&VhostUserGpuDMABUFScanout2::default()),
        Ok(GpuHdr::new(req, 0, 48))
    );
    let req = GpuBackendReq::DMABUF_UPDATE;
    assert_eq!(
        backend.update_dmabuf_scanout(&VhostUserGpuUpdate::default()),
        Ok(GpuHdr::new(req, 0, 20))
    );
    let pos = VhostUserGpuCursorPos { scanout_id: 0, x: 3, y: 4 };
    let req = GpuBackendReq::CURSOR_POS;
    assert_eq!(backend.cursor_pos(&pos), Ok(GpuHdr::new(req, 0, 12)));
    let req = GpuBackendReq::CURSOR_POS_HIDE;
    assert_eq!(backend.cursor_pos_hide(&pos), Ok(GpuHdr::new(req, 0, 12)));
}

#[test]
fn wait_for_ack_accepts_only_the_matching_reply() {
    let backend = GpuBackend::new();
    let hdr = backend.send_header(REQUEST).unwrap();
    let response = VhostUserU64::new(456);

    let reply = GpuHdr::new(REQUEST, VHOST_USER_GPU_HEADER_FLAG_REPLY, 8);
    assert_eq!(backend.wait_for_ack(&hdr, &reply, response, false), Ok(response));

    // the reply must carry the reply flag
    let not_reply = GpuHdr::new(REQUEST, 0, 8);
    assert_eq!(
        backend.wait_for_ack(&hdr, &not_reply, response, false),
        Err(Error::InvalidMessage)
    );
    // and answer the same request
    let other = GpuHdr::new(GpuBackendReq::GET_DISPLAY_INFO, VHOST_USER_GPU_HEADER_FLAG_REPLY, 8);
    assert_eq!(
        backend.wait_for_ack(&hdr, &other, response, false),
        Err(Error::InvalidMessage)
    );
    // with no file descriptors
    assert_eq!(
        backend.wait_for_ack(&hdr, &reply, response, true),
        Err(Error::InvalidMessage)
    );
    // the request header itself is no reply
    assert_eq!(
        backend.wait_for_ack(&hdr, &hdr, response, false),
        Err(Error::InvalidMessage)
    );
}

#[test]
fn wait_for_ack_refuses_an_invalid_body() {
    let backend = GpuBackend::new();
    let hdr = backend.get_display_info().unwrap();
    let reply = GpuHdr::new(
        GpuBackendReq::GET_DISPLAY_INFO,
        VHOST_USER_GPU_HEADER_FLAG_REPLY,
        408,
    );
    let info = backend
        .wait_for_ack(&hdr, &reply, VirtioGpuRespDisplayInfo::default(), false)
        .unwrap();
    assert_eq!(info.pmodes.len(), 16);

    // a default vhost-user header carries no known request and is not a valid body
    let invalid_body = VhostUserMsgHeader::<GpuBackendReq>::default();
    assert_eq!(
        backend.wait_for_ack(&hdr, &reply, invalid_body, false),
        Err(Error::InvalidMessage)
    );
}
