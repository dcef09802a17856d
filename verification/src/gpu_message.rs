//! Messages of the vhost-user GPU protocol, sent on the socket that
//! VHOST_USER_SET_GPU_SOCKET hands to the backend.

use core::marker::PhantomData;
use vstd::prelude::*;
use vstd::std_specs::cmp::PartialEqSpecImpl;
use vstd::std_specs::convert::{FromSpec, FromSpecImpl, TryFromSpec, TryFromSpecImpl};

use crate::error::{Error, Result};
use crate::header::MsgHeaderView;
use crate::message::{Req, VhostUserMsgValidator};

verus! {

/// Type of requests sending from gpu backends to gpu frontends.
#[derive(Clone, Copy, Debug, PartialEq, Eq, Structural, PartialOrd, Ord)]
#[allow(non_camel_case_types)]
pub enum GpuBackendReq {
    /// Get the supported protocol features bitmask.
    GET_PROTOCOL_FEATURES,
    /// Enable protocol features using a bitmask.
    SET_PROTOCOL_FEATURES,
    /// Get the preferred display configuration.
    GET_DISPLAY_INFO,
    /// Set/show the cursor position.
    CURSOR_POS,
    /// Set/hide the cursor.
    CURSOR_POS_HIDE,
    /// Update the cursor shape and location.
    CURSOR_UPDATE,
    /// Set the scanout resolution.
    /// To disable a scanout, the dimensions width/height are set to 0.
    SCANOUT,
    /// Update the scanout content. The data payload contains the graphical bits.
    /// The display should be flushed and presented.
    UPDATE,
    /// Set the scanout resolution/configuration, and share a DMABUF file descriptor for the scanout content,
    /// which is passed as ancillary data.
    /// To disable a scanout, the dimensions width/height are set to 0, there is no file descriptor passed.
    DMABUF_SCANOUT,
    /// The display should be flushed and presented according to updated region from VhostUserGpuUpdate.
    DMABUF_UPDATE,
    /// Retrieve the EDID data for a given scanout.
    /// This message requires the VHOST_USER_GPU_PROTOCOL_F_EDID protocol feature to be supported.
    GET_EDID,
    /// Same as DMABUF_SCANOUT, but also sends the dmabuf modifiers appended to the message,
    /// which were not provided in the other message.
    /// This message requires the VHOST_USER_GPU_PROTOCOL_F_DMABUF2 protocol feature to be supported.
    DMABUF_SCANOUT2,
}

impl Req for GpuBackendReq {
    open spec fn spec_from_value(v: u32) -> Option<GpuBackendReq> {
        if v == 1 {
            Some(GpuBackendReq::GET_PROTOCOL_FEATURES)
        } else if v == 2 {
            Some(GpuBackendReq::SET_PROTOCOL_FEATURES)
        } else if v == 3 {
            Some(GpuBackendReq::GET_DISPLAY_INFO)
        } else if v == 4 {
            Some(GpuBackendReq::CURSOR_POS)
        } else if v == 5 {
            Some(GpuBackendReq::CURSOR_POS_HIDE)
        } else if v == 6 {
            Some(GpuBackendReq::CURSOR_UPDATE)
        } else if v == 7 {
            Some(GpuBackendReq::SCANOUT)
        } else if v == 8 {
            Some(GpuBackendReq::UPDATE)
        } else if v == 9 {
            Some(GpuBackendReq::DMABUF_SCANOUT)
        } else if v == 10 {
            Some(GpuBackendReq::DMABUF_UPDATE)
        } else if v == 11 {
            Some(GpuBackendReq::GET_EDID)
        } else if v == 12 {
            Some(GpuBackendReq::DMABUF_SCANOUT2)
        } else {
            None
        }
    }

    open spec fn spec_value(self) -> u32 {
        match self {
            GpuBackendReq::GET_PROTOCOL_FEATURES => 1,
            GpuBackendReq::SET_PROTOCOL_FEATURES => 2,
            GpuBackendReq::GET_DISPLAY_INFO => 3,
            GpuBackendReq::CURSOR_POS => 4,
            GpuBackendReq::CURSOR_POS_HIDE => 5,
            GpuBackendReq::CURSOR_UPDATE => 6,
            GpuBackendReq::SCANOUT => 7,
            GpuBackendReq::UPDATE => 8,
            GpuBackendReq::DMABUF_SCANOUT => 9,
            GpuBackendReq::DMABUF_UPDATE => 10,
            GpuBackendReq::GET_EDID => 11,
            GpuBackendReq::DMABUF_SCANOUT2 => 12,
        }
    }

    proof fn lemma_value_decodes(r: GpuBackendReq) {
    }

    proof fn lemma_decoded_value(v: u32) {
    }

    fn value(&self) -> (v: u32) {
        match self {
            GpuBackendReq::GET_PROTOCOL_FEATURES => 1,
            GpuBackendReq::SET_PROTOCOL_FEATURES => 2,
            GpuBackendReq::GET_DISPLAY_INFO => 3,
            GpuBackendReq::CURSOR_POS => 4,
            GpuBackendReq::CURSOR_POS_HIDE => 5,
            GpuBackendReq::CURSOR_UPDATE => 6,
            GpuBackendReq::SCANOUT => 7,
            GpuBackendReq::UPDATE => 8,
            GpuBackendReq::DMABUF_SCANOUT => 9,
            GpuBackendReq::DMABUF_UPDATE => 10,
            GpuBackendReq::GET_EDID => 11,
            GpuBackendReq::DMABUF_SCANOUT2 => 12,
        }
    }

    fn from_value(v: u32) -> (r: Option<GpuBackendReq>) {
        match v {
            1 => Some(GpuBackendReq::GET_PROTOCOL_FEATURES),
            2 => Some(GpuBackendReq::SET_PROTOCOL_FEATURES),
            3 => Some(GpuBackendReq::GET_DISPLAY_INFO),
            4 => Some(GpuBackendReq::CURSOR_POS),
            5 => Some(GpuBackendReq::CURSOR_POS_HIDE),
            6 => Some(GpuBackendReq::CURSOR_UPDATE),
            7 => Some(GpuBackendReq::SCANOUT),
            8 => Some(GpuBackendReq::UPDATE),
            9 => Some(GpuBackendReq::DMABUF_SCANOUT),
            10 => Some(GpuBackendReq::DMABUF_UPDATE),
            11 => Some(GpuBackendReq::GET_EDID),
            12 => Some(GpuBackendReq::DMABUF_SCANOUT2),
            _ => None,
        }
    }
}

impl From<GpuBackendReq> for u32 {
    /// The wire code of the request.
    fn from(req: GpuBackendReq) -> (v: u32) {
        req.value()
    }
}

impl FromSpecImpl<GpuBackendReq> for u32 {
    open spec fn obeys_from_spec() -> bool {
        true
    }

    open spec fn from_spec(req: GpuBackendReq) -> u32 {
        req.spec_value()
    }
}

impl TryFrom<u32> for GpuBackendReq {
    type Error = Error;

    /// The request that the wire code `v` stands for; an unknown code is an invalid message.
    fn try_from(v: u32) -> (r: Result<GpuBackendReq>) {
        match GpuBackendReq::from_value(v) {
            Some(req) => Ok(req),
            None => Err(Error::InvalidMessage),
        }
    }
}

impl TryFromSpecImpl<u32> for GpuBackendReq {
    open spec fn obeys_try_from_spec() -> bool {
        true
    }

    open spec fn try_from_spec(v: u32) -> Result<GpuBackendReq> {
        match GpuBackendReq::spec_from_value(v) {
            Some(req) => Ok(req),
            None => Err(Error::InvalidMessage),
        }
    }
}

/// Header flag of the GPU protocol: the message is a reply.
pub const VHOST_USER_GPU_HEADER_FLAG_REPLY: u32 = 0x4;

/// A vhost-user GPU message consists of 3 header fields and an optional payload.
/// All numbers are in the machine native byte order.
#[derive(Copy, Debug)]
pub struct VhostUserGpuMsgHeader<R: Req> {
    request: u32,
    flags: u32,
    size: u32,
    _r: PhantomData<R>,
}

impl<R: Req> View for VhostUserGpuMsgHeader<R> {
    type V = MsgHeaderView;

    closed spec fn view(&self) -> MsgHeaderView {
        MsgHeaderView { request: self.request, flags: self.flags, size: self.size }
    }
}

impl<R: Req> VhostUserGpuMsgHeader<R> {
    /// Create a new instance of `VhostUserGpuMsgHeader`; the flags are kept as given.
    pub fn new(request: R, flags: u32, size: u32) -> (h: Self)
        ensures
            h@ == (MsgHeaderView { request: request.spec_value(), flags, size }),
    {
        VhostUserGpuMsgHeader { request: request.value(), flags, size, _r: PhantomData }
    }

    /// The header with the given raw fields, as they were read from the wire.
    pub fn from_raw(request: u32, flags: u32, size: u32) -> (h: Self)
        ensures
            h@ == (MsgHeaderView { request, flags, size }),
    {
        VhostUserGpuMsgHeader { request, flags, size, _r: PhantomData }
    }

    /// The raw fields (request code, flags, size), as they go on the wire.
    pub fn to_raw(&self) -> (r: (u32, u32, u32))
        ensures
            r == (self@.request, self@.flags, self@.size),
    {
        (self.request, self.flags, self.size)
    }

    /// Get message type.
    pub fn get_code(&self) -> (r: Result<R>)
        ensures
            r == match self@.code::<R>() {
                Some(c) => Ok(c),
                None => Err(Error::InvalidMessage),
            },
    {
        match R::from_value(self.request) {
            Some(c) => Ok(c),
            None => Err(Error::InvalidMessage),
        }
    }

    /// Check whether it's a reply message.
    pub fn is_reply(&self) -> (r: bool)
        ensures
            r == self@.is_reply(),
    {
        (self.flags & VHOST_USER_GPU_HEADER_FLAG_REPLY) != 0
    }

    /// Mark message as reply.
    pub fn set_reply(&mut self, is_reply: bool)
        ensures
            final(self)@ == old(self)@.with_flag(VHOST_USER_GPU_HEADER_FLAG_REPLY, is_reply),
    {
        if is_reply {
            self.flags = self.flags | VHOST_USER_GPU_HEADER_FLAG_REPLY;
        } else {
            self.flags = self.flags & !VHOST_USER_GPU_HEADER_FLAG_REPLY;
        }
    }

    /// Check whether it's the reply message for the request `req`.
    pub fn is_reply_for(&self, req: &VhostUserGpuMsgHeader<R>) -> (r: bool)
        ensures
            r == self@.is_reply_for::<R>(req@),
    {
        if let (Ok(code1), Ok(code2)) = (self.get_code(), req.get_code()) {
            proof {
                R::lemma_value_decodes(code1);
                R::lemma_value_decodes(code2);
            }
            self.is_reply() && !req.is_reply() && code1.value() == code2.value()
        } else {
            false
        }
    }

    /// Get message size.
    pub fn get_size(&self) -> (s: u32)
        ensures
            s == self@.size,
    {
        self.size
    }

    /// Set message size.
    pub fn set_size(&mut self, size: u32)
        ensures
            final(self)@ == old(self)@.with_size(size),
    {
        self.size = size;
    }
}

impl<R: Req> Clone for VhostUserGpuMsgHeader<R> {
    fn clone(&self) -> (h: Self)
        ensures
            h@ == self@,
    {
        *self
    }
}

impl<R: Req> Default for VhostUserGpuMsgHeader<R> {
    /// A header with request code 0, flags 1 and no payload.
    fn default() -> (h: Self)
        ensures
            h@ == (MsgHeaderView { request: 0, flags: 1, size: 0 }),
    {
        VhostUserGpuMsgHeader { request: 0, flags: 0x1, size: 0, _r: PhantomData }
    }
}

impl<R: Req> PartialEq for VhostUserGpuMsgHeader<R> {
    fn eq(&self, other: &Self) -> (r: bool) {
        self.request == other.request && self.flags == other.flags && self.size == other.size
    }
}

impl<R: Req> PartialEqSpecImpl for VhostUserGpuMsgHeader<R> {
    open spec fn obeys_eq_spec() -> bool {
        true
    }

    open spec fn eq_spec(&self, other: &Self) -> bool {
        self@ == other@
    }
}

impl<R: Req> VhostUserMsgValidator for VhostUserGpuMsgHeader<R> {
    open spec fn spec_is_valid(&self) -> bool {
        self@.code::<R>() is Some
    }

    fn is_valid(&self) -> (r: bool) {
        self.get_code().is_ok()
    }
}

/* data passed in the control vq, 2d related */

/// The rectangle represents the portion of the blob resource being displayed.
#[derive(Copy, Clone, Debug, Default)]
pub struct VirtioGpuRect {
    /// The position field x describe how the displays are arranged
    pub x: u32,
    /// The position field y describe how the displays are arranged
    pub y: u32,
    /// The size field width
    pub width: u32,
    /// The size field height
    pub height: u32,
}

/// The Structure of virtio_gpu_display_one
#[derive(Copy, Clone, Debug, Default)]
pub struct VirtioGpuDisplayOne {
    /// The structure of the rectangle
    pub r: VirtioGpuRect,
    /// The enabled field is set when the user enabled the display.
    pub enabled: u32,
    /// The display flag
    pub flags: u32,
}

/// The fixed header struct virtio_gpu_ctrl_hdr in each request
#[derive(Copy, Clone, Debug, Default)]
pub struct VirtioGpuCtrlHdr {
    /// Specifies the type of the driver request (VIRTIO_GPU_CMD_*)
    /// or device response (VIRTIO_GPU_RESP_*).
    pub type_: u32,
    /// Request / response flags.
    pub flags: u32,
    /// Set VIRTIO_GPU_FLAG_FENCE bit in the response
    pub fence_id: u64,
    /// Rendering context (used in 3D mode only).
    pub ctx_id: u32,
    /// ring_idx indicates the value of a context-specific ring index.
    /// The minimum value is 0 and maximum value is 63 (inclusive).
    pub ring_idx: u8,
    /// padding of the structure
    pub padding: [u8; 3],
}

/// VIRTIO_GPU_MAX_SCANOUTS data
pub const VIRTIO_GPU_MAX_SCANOUTS: usize = 16;

/* VIRTIO_GPU_RESP_OK_DISPLAY_INFO */
///The response contains a list of per-scanout information.
#[derive(Copy, Clone, Debug, Default)]
pub struct VirtioGpuRespDisplayInfo {
    /// The fixed header struct
    pub hdr: VirtioGpuCtrlHdr,
    /// pmodes contains whether the scanout is enabled and what
    /// its preferred position and size is
    pub pmodes: [VirtioGpuDisplayOne; VIRTIO_GPU_MAX_SCANOUTS],
}

impl VhostUserMsgValidator for VirtioGpuRespDisplayInfo {
    open spec fn spec_is_valid(&self) -> bool {
        true
    }

    fn is_valid(&self) -> (r: bool) {
        true
    }
}

/// Retrieve the EDID data for a given scanout
/// Request data is struct VhostUserGpuEdidRequest
#[derive(Copy, Clone, Debug, Default)]
pub struct VhostUserGpuEdidRequest {
    /// scanout information
    pub scanout_id: u32,
}

impl VhostUserMsgValidator for VhostUserGpuEdidRequest {
    open spec fn spec_is_valid(&self) -> bool {
        true
    }

    fn is_valid(&self) -> (r: bool) {
        true
    }
}

/// Set the scanout resolution.
/// Data is struct VhostUserGpuScanout
#[derive(Copy, Clone, Debug, Default)]
pub struct VhostUserGpuScanout {
    /// scanout information
    pub scanout_id: u32,
    /// scanout width size
    pub width: u32,
    /// scanout height size
    pub height: u32,
}

impl VhostUserMsgValidator for VhostUserGpuScanout {
    open spec fn spec_is_valid(&self) -> bool {
        true
    }

    fn is_valid(&self) -> (r: bool) {
        true
    }
}

/// Set the scanout resolution.
/// Data is struct VhostUserGpuDMABUFScanout
#[derive(Copy, Clone, Debug, Default)]
pub struct VhostUserGpuDMABUFScanout {
    /// scanout information
    pub scanout_id: u32,
    /// The position field x of the scanout within the DMABUF
    pub x: u32,
    /// The position field y of the scanout within the DMABUF
    pub y: u32,
    /// scanout width size
    pub width: u32,
    /// scanout height size
    pub height: u32,
    /// the DMABUF width
    pub fd_width: u32,
    /// the DMABUF height
    pub fd_height: u32,
    /// the DMABUF stride
    pub fd_stride: u32,
    /// the DMABUF flags
    pub fd_flags: u32,
    /// the DMABUF fourcc
    pub fd_drm_fourcc: u32,
}

impl VhostUserMsgValidator for VhostUserGpuDMABUFScanout {
    open spec fn spec_is_valid(&self) -> bool {
        true
    }

    fn is_valid(&self) -> (r: bool) {
        true
    }
}

/// Same as VhostUserGpuDMABUFScanout, with the DMABUF modifiers appended.
/// Data is struct VhostUserGpuDMABUFScanout2
#[derive(Copy, Clone, Debug, Default)]
pub struct VhostUserGpuDMABUFScanout2 {
    /// The scanout configuration
    pub dmabuf_scanout: VhostUserGpuDMABUFScanout,
    /// The DMABUF modifiers
    pub modifier: u64,
}

impl VhostUserMsgValidator for VhostUserGpuDMABUFScanout2 {
    open spec fn spec_is_valid(&self) -> bool {
        true
    }

    fn is_valid(&self) -> (r: bool) {
        true
    }
}

/// Update the scanout content.
/// Data is struct VhostUserGpuUpdate
#[derive(Copy, Clone, Debug, Default)]
pub struct VhostUserGpuUpdate {
    /// scanout content to update
    pub scanout_id: u32,
    /// The position field x of the scanout update
    pub x: u32,
    /// The position field y of the scanout update
    pub y: u32,
    /// scanout updated width size
    pub width: u32,
    /// scanout updated height size
    pub height: u32,
}

impl VhostUserMsgValidator for VhostUserGpuUpdate {
    open spec fn spec_is_valid(&self) -> bool {
        true
    }

    fn is_valid(&self) -> (r: bool) {
        true
    }
}

/// The cursor location
/// Data is struct VhostUserGpuCursorPos
#[derive(Copy, Clone, Debug, Default)]
pub struct VhostUserGpuCursorPos {
    /// the scanout where the cursor is located
    pub scanout_id: u32,
    /// The cursor position field x
    pub x: u32,
    /// The cursor position field y
    pub y: u32,
}

impl VhostUserMsgValidator for VhostUserGpuCursorPos {
    open spec fn spec_is_valid(&self) -> bool {
        true
    }

    fn is_valid(&self) -> (r: bool) {
        true
    }
}

/// Update the cursor shape and location.
/// Data is struct VhostUserGpuCursorUpdate
#[derive(Copy, Clone, Debug)]
pub struct VhostUserGpuCursorUpdate {
    /// The cursor location
    pub pos: VhostUserGpuCursorPos,
    /// The cursor hot location x
    pub hot_x: u32,
    /// The cursor hot location y
    pub hot_y: u32,
    /// 64x64 RGBA cursor data
    pub data: [u32; 4096],
}

impl Default for VhostUserGpuCursorUpdate {
    /// A cursor at position (0, 0) of scanout 0, hot spot (0, 0), all pixels zero.
    fn default() -> (r: Self)
        ensures
            r.pos.scanout_id == 0,
            r.pos.x == 0,
            r.pos.y == 0,
            r.hot_x == 0,
            r.hot_y == 0,
            forall|i: int| 0 <= i < 4096 ==> r.data[i] == 0,
    {
        VhostUserGpuCursorUpdate {
            pos: VhostUserGpuCursorPos { scanout_id: 0, x: 0, y: 0 },
            hot_x: 0,
            hot_y: 0,
            data: [0; 4096],
        }
    }
}

impl VhostUserMsgValidator for VhostUserGpuCursorUpdate {
    open spec fn spec_is_valid(&self) -> bool {
        true
    }

    fn is_valid(&self) -> (r: bool) {
        true
    }
}

/* VIRTIO_GPU_RESP_OK_EDID */
/// Response type is VIRTIO_GPU_RESP_OK_EDID
#[derive(Copy, Clone, Debug)]
pub struct VirtioGpuRespGetEdid {
    /// The fixed header struct
    pub hdr: VirtioGpuCtrlHdr,
    /// size of the structure containing information
    pub size: u32,
    /// padding of the structure
    pub padding: u32,
    /// The EDID display data blob (as specified by VESA) for the scanout.
    pub edid: [u8; 1024],
}

impl Default for VirtioGpuRespGetEdid {
    /// An all-zero response.
    fn default() -> (r: Self)
        ensures
            r.hdr.type_ == 0,
            r.hdr.flags == 0,
            r.hdr.fence_id == 0,
            r.hdr.ctx_id == 0,
            r.hdr.ring_idx == 0,
            forall|i: int| 0 <= i < 3 ==> r.hdr.padding[i] == 0,
            r.size == 0,
            r.padding == 0,
            forall|i: int| 0 <= i < 1024 ==> r.edid[i] == 0,
    {
        VirtioGpuRespGetEdid {
            hdr: VirtioGpuCtrlHdr {
                type_: 0,
                flags: 0,
                fence_id: 0,
                ctx_id: 0,
                ring_idx: 0,
                padding: [0; 3],
            },
            size: 0,
            padding: 0,
            edid: [0; 1024],
        }
    }
}

impl VhostUserMsgValidator for VirtioGpuRespGetEdid {
    open spec fn spec_is_valid(&self) -> bool {
        true
    }

    fn is_valid(&self) -> (r: bool) {
        true
    }
}

/// Exactly the codes 1 to 12 name a GPU backend request.
pub proof fn law_gpu_request_codes(v: u32)
    ensures
        GpuBackendReq::spec_from_value(v) is Some <==> 1 <= v <= 12,
{
}

/// A header built by `VhostUserGpuMsgHeader::new` carries the request it was
/// built for, the given size and the given flags, so it is a reply exactly
/// when the reply bit is among them; its known code makes it valid.
pub proof fn law_gpu_new_header<R: Req>(request: R, flags: u32, size: u32)
    ensures
        (MsgHeaderView { request: request.spec_value(), flags, size }).code::<R>() == Some(
            request,
        ),
        (MsgHeaderView { request: request.spec_value(), flags, size }).is_reply() == (flags
            & VHOST_USER_GPU_HEADER_FLAG_REPLY != 0),
{
    R::lemma_value_decodes(request);
}

/// Marking a GPU header as reply (or not) makes `is_reply` answer so and keeps
/// its request code and size.
pub proof fn law_gpu_set_reply<R: Req>(h: MsgHeaderView, on: bool)
    ensures
        h.with_flag(VHOST_USER_GPU_HEADER_FLAG_REPLY, on).is_reply() == on,
        h.with_flag(VHOST_USER_GPU_HEADER_FLAG_REPLY, on).code::<R>() == h.code::<R>(),
        h.with_flag(VHOST_USER_GPU_HEADER_FLAG_REPLY, on).size == h.size,
{
    crate::header::law_set_reply::<R>(h, on);
}

/// The default GPU header carries no known request, so it is not valid.
pub proof fn law_gpu_default_header_invalid()
    ensures
        (MsgHeaderView { request: 0, flags: 1, size: 0 }).code::<GpuBackendReq>() is None,
{
}

/// A GPU message header is valid exactly when it carries a known request
/// code, whatever its size and flags: two headers with the same request code
/// are both valid or both invalid, and a GPU backend request header is valid
/// exactly when its code is one of 1 to 12.
pub proof fn law_gpu_header_valid_iff_known_code<R: Req>(
    h: VhostUserGpuMsgHeader<R>,
    g: VhostUserGpuMsgHeader<R>,
    q: VhostUserGpuMsgHeader<GpuBackendReq>,
)
    ensures
        h.spec_is_valid() <==> R::spec_from_value(h@.request) is Some,
        h@.request == g@.request ==> (h.spec_is_valid() <==> g.spec_is_valid()),
        q.spec_is_valid() <==> 1 <= q@.request <= 12,
{
}

/// Converting a request to its wire code and back gives the request, and
/// `try_from` decodes exactly the codes of the requests: it fails with
/// `InvalidMessage` on every other code.
pub proof fn law_try_from_decodes_wire_codes(r: GpuBackendReq, v: u32)
    ensures
        <GpuBackendReq as TryFromSpec<u32>>::try_from_spec(
            <u32 as FromSpec<GpuBackendReq>>::from_spec(r),
        ) == Ok::<GpuBackendReq, Error>(r),
        <GpuBackendReq as TryFromSpec<u32>>::try_from_spec(v) is Ok <==> 1 <= v <= 12,
        <GpuBackendReq as TryFromSpec<u32>>::try_from_spec(v) matches Ok(q) ==> q.spec_value()
            == v,
        !(1 <= v <= 12) ==> <GpuBackendReq as TryFromSpec<u32>>::try_from_spec(v) == Err::<
            GpuBackendReq,
            Error,
        >(Error::InvalidMessage),
{
}

/// Every display-info reply body is valid, whatever the display modes and
/// control header it carries.
pub proof fn law_display_info_body_always_valid(d: VirtioGpuRespDisplayInfo)
    ensures
        d.spec_is_valid(),
{
}

/// Every EDID reply body is valid, whatever its size field and EDID bytes.
pub proof fn law_edid_body_always_valid(e: VirtioGpuRespGetEdid)
    ensures
        e.spec_is_valid(),
{
}

/// Every request body the backend sends is valid, whatever its fields.
pub proof fn law_request_bodies_always_valid(
    a: VhostUserGpuEdidRequest,
    b: VhostUserGpuScanout,
    c: VhostUserGpuDMABUFScanout,
    d: VhostUserGpuDMABUFScanout2,
    e: VhostUserGpuUpdate,
    f: VhostUserGpuCursorPos,
    g: VhostUserGpuCursorUpdate,
)
    ensures
        a.spec_is_valid(),
        b.spec_is_valid(),
        c.spec_is_valid(),
        d.spec_is_valid(),
        e.spec_is_valid(),
        f.spec_is_valid(),
        g.spec_is_valid(),
{
}

/// The wire code of each GPU backend request, as the vhost-user GPU protocol
/// numbers them.
pub proof fn law_gpu_request_wire_codes()
    ensures
        GpuBackendReq::GET_PROTOCOL_FEATURES.spec_value() == 1,
        GpuBackendReq::SET_PROTOCOL_FEATURES.spec_value() == 2,
        GpuBackendReq::GET_DISPLAY_INFO.spec_value() == 3,
        GpuBackendReq::CURSOR_POS.spec_value() == 4,
        GpuBackendReq::CURSOR_POS_HIDE.spec_value() == 5,
        GpuBackendReq::CURSOR_UPDATE.spec_value() == 6,
        GpuBackendReq::SCANOUT.spec_value() == 7,
        GpuBackendReq::UPDATE.spec_value() == 8,
        GpuBackendReq::DMABUF_SCANOUT.spec_value() == 9,
        GpuBackendReq::DMABUF_UPDATE.spec_value() == 10,
        GpuBackendReq::GET_EDID.spec_value() == 11,
        GpuBackendReq::DMABUF_SCANOUT2.spec_value() == 12,
{
}

} // verus!
