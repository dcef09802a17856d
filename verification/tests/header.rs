use vhost::error::Error;
use vhost::gpu_message::GpuBackendReq;
use vhost::header::VhostUserMsgHeader;
use vhost::message::{VhostUserMsgValidator, MAX_MSG_SIZE};

type Hdr = VhostUserMsgHeader<GpuBackendReq>;

#[test]
fn new_keeps_only_reply_flags_and_sets_version_one() {
    let hdr = Hdr::new(GpuBackendReq::SCANOUT, 0xffff_ffff, 0x100);
    assert_eq!(hdr.get_version(), 1);
    assert!(hdr.is_reply());
    assert!(hdr.is_need_reply());
    assert_eq!(hdr.get_size(), 0x100);
    assert_eq!(hdr.get_code(), Ok(GpuBackendReq::SCANOUT));
    assert!(hdr.is_valid());

    let hdr = Hdr::new(GpuBackendReq::UPDATE, 0, 0);
    assert_eq!(hdr.get_version(), 1);
    assert!(!hdr.is_reply());
    assert!(!hdr.is_need_reply());
    assert!(hdr.is_valid());
}

#[test]
fn size_limit_decides_validity() {
    let hdr = Hdr::new(GpuBackendReq::SCANOUT, 0, MAX_MSG_SIZE as u32);
    assert!(hdr.is_valid());
    let hdr = Hdr::new(GpuBackendReq::SCANOUT, 0, MAX_MSG_SIZE as u32 + 1);
    assert!(!hdr.is_valid());
    let mut hdr = Hdr::new(GpuBackendReq::SCANOUT, 0, 0);
    hdr.set_size(0x2000);
    assert_eq!(hdr.get_size(), 0x2000);
    assert!(!hdr.is_valid());
    hdr.set_size(0x10);
    assert!(hdr.is_valid());
}

#[test]
fn version_is_two_low_bits_and_must_be_one() {
    let mut hdr = Hdr::new(GpuBackendReq::GET_EDID, 0, 0);
    hdr.set_version(3);
    assert_eq!(hdr.get_version(), 3);
    assert!(!hdr.is_valid());
    hdr.set_version(0x5);
    assert_eq!(hdr.get_version(), 1);
    assert!(hdr.is_valid());
    hdr.set_version(0);
    assert_eq!(hdr.get_version(), 0);
    assert!(!hdr.is_valid());
}

#[test]
fn set_reply_and_need_reply() {
    let mut hdr = Hdr::new(GpuBackendReq::GET_EDID, 0, 4);
    hdr.set_reply(true);
    assert!(hdr.is_reply());
    assert!(!hdr.is_need_reply());
    hdr.set_need_reply(true);
    assert!(hdr.is_reply());
    assert!(hdr.is_need_reply());
    hdr.set_reply(false);
    assert!(!hdr.is_reply());
    assert!(hdr.is_need_reply());
    hdr.set_need_reply(false);
    assert!(!hdr.is_need_reply());
    assert_eq!(hdr.get_version(), 1);
    assert_eq!(hdr.get_size(), 4);
    assert!(hdr.is_valid());
    assert_eq!(hdr, Hdr::new(GpuBackendReq::GET_EDID, 0, 4));
}

#[test]
fn set_code_replaces_request() {
    let mut hdr = Hdr::new(GpuBackendReq::GET_EDID, 0x4, 4);
    hdr.set_code(GpuBackendReq::CURSOR_POS);
    assert_eq!(hdr.get_code(), Ok(GpuBackendReq::CURSOR_POS));
    assert!(hdr.is_reply());
    assert_eq!(hdr.get_size(), 4);
}

#[test]
fn reply_for_request() {
    let req = Hdr::new(GpuBackendReq::GET_DISPLAY_INFO, 0x8, 0);
    let mut reply = req.clone();
    reply.set_reply(true);
    reply.set_size(8);
    assert!(reply.is_reply_for(&req));
    assert!(!req.is_reply_for(&reply));
    assert!(!req.is_reply_for(&req));
    assert!(!reply.is_reply_for(&reply));

    let other = Hdr::new(GpuBackendReq::GET_EDID, 0x4, 0);
    assert!(!other.is_reply_for(&req));

    let unknown = Hdr::default();
    assert!(!unknown.is_reply_for(&req));
    assert!(!reply.is_reply_for(&unknown));
}

#[test]
fn default_header_is_not_valid() {
    let hdr = Hdr::default();
    assert_eq!(hdr.get_version(), 1);
    assert_eq!(hdr.get_size(), 0);
    assert!(!hdr.is_reply());
    assert!(!hdr.is_need_reply());
    assert_eq!(hdr.get_code(), Err(Error::InvalidMessage));
    assert!(!hdr.is_valid());
}

#[test]
fn header_equality_compares_fields() {
    let a = Hdr::new(GpuBackendReq::SCANOUT, 0x4, 12);
    assert_eq!(a, Hdr::new(GpuBackendReq::SCANOUT, 0x4, 12));
    assert_ne!(a, Hdr::new(GpuBackendReq::SCANOUT, 0x0, 12));
    assert_ne!(a, Hdr::new(GpuBackendReq::SCANOUT, 0x4, 13));
    assert_ne!(a, Hdr::new(GpuBackendReq::UPDATE, 0x4, 12));
}

#[test]
fn setting_a_flag_to_its_current_value_changes_nothing() {
    let mut hdr = Hdr::new(GpuBackendReq::CURSOR_POS, 0x4, 12);
    let before = hdr;
    let reply = hdr.is_reply();
    hdr.set_reply(reply);
    let need_reply = hdr.is_need_reply();
    hdr.set_need_reply(need_reply);
    assert_eq!(hdr, before);
}

#[test]
fn changing_a_flag_and_back_restores_the_header() {
    let initial = Hdr::new(GpuBackendReq::SCANOUT, 0x8, 12);
    let mut hdr = initial;
    hdr.set_reply(true);
    assert_ne!(hdr, initial);
    hdr.set_reply(false);
    assert_eq!(hdr, initial);
    hdr.set_need_reply(false);
    assert_ne!(hdr, initial);
    hdr.set_need_reply(true);
    assert_eq!(hdr, initial);
}

#[test]
fn raw_fields_round_trip() {
    let hdr = Hdr::new(GpuBackendReq::UPDATE, 0xc, 20);
    assert_eq!(hdr.to_raw(), (8, 0xd, 20));
    assert_eq!(Hdr::from_raw(8, 0xd, 20), hdr);

    // raw fields are taken as they are, reserved bits and unknown codes included
    let raw = Hdr::from_raw(99, 0x12, 0x2000);
    assert_eq!(raw.to_raw(), (99, 0x12, 0x2000));
    assert_eq!(raw.get_version(), 2);
    assert!(!raw.is_valid());
    let reserved = Hdr::from_raw(8, 0x11, 0);
    assert_eq!(reserved.get_version(), 1);
    assert!(!reserved.is_valid());
}
