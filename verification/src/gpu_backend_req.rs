//! The decisions of a GPU backend that talks to its frontend over the socket
//! obtained from VHOST_USER_GPU_SET_SOCKET: which header goes out with each
//! request, when the connection refuses to send, and which replies are
//! accepted. The protocol is documented at
//! <https://www.qemu.org/docs/master/interop/vhost-user-gpu.html>.
//!
//! The backend's state is whether its connection has failed. Each request
//! method answers with the header to put on the wire ahead of the request's
//! body; `wait_for_ack` judges the reply that came back.

use vstd::layout::size_of;
use vstd::prelude::*;

use crate::error::{Error, Result};
use crate::gpu_message::{
    GpuBackendReq, VhostUserGpuCursorPos, VhostUserGpuCursorUpdate, VhostUserGpuDMABUFScanout,
    VhostUserGpuDMABUFScanout2, VhostUserGpuEdidRequest, VhostUserGpuMsgHeader,
    VhostUserGpuScanout, VhostUserGpuUpdate,
};
use crate::header::MsgHeaderView;
use crate::message::{Req, VhostUserMsgValidator, VhostUserU64};

verus! {

/// The header that a backend whose connection is in state `failure` puts on
/// the wire for `request` with `len` bytes of body, or the error that stops it.
pub open spec fn outgoing_header(failure: Option<i32>, request: GpuBackendReq, len: usize) -> Result<
    MsgHeaderView,
> {
    match failure {
        Some(e) => Err(Error::SocketBroken(e)),
        None => Ok(MsgHeaderView { request: request.spec_value(), flags: 0, size: len as u32 }),
    }
}

/// A header result seen as plain numbers.
pub open spec fn header_result_view(r: Result<VhostUserGpuMsgHeader<GpuBackendReq>>) -> Result<
    MsgHeaderView,
> {
    match r {
        Ok(h) => Ok(h@),
        Err(e) => Err(e),
    }
}

/// Why a reply is refused, if it is: the connection has failed, or the reply
/// header does not answer the request header, or file descriptors came with
/// it, or its body is malformed.
pub open spec fn ack_error(
    failure: Option<i32>,
    hdr: MsgHeaderView,
    reply: MsgHeaderView,
    has_fds: bool,
    body_valid: bool,
) -> Option<Error> {
    match failure {
        Some(e) => Some(Error::SocketBroken(e)),
        None => if !reply.is_reply_for::<GpuBackendReq>(hdr) || has_fds || !body_valid {
            Some(Error::InvalidMessage)
        } else {
            None
        },
    }
}

/// Sends messages from the backend to the frontend over the GPU socket:
/// the state of that connection, which is either sound or failed with an OS
/// error code.
pub struct GpuBackend {
    // whether the endpoint has encountered any failure
    error: Option<i32>,
}

impl View for GpuBackend {
    type V = Option<i32>;

    closed spec fn view(&self) -> Option<i32> {
        self.error
    }
}

impl GpuBackend {
    /// A backend whose connection has not failed.
    pub fn new() -> (b: Self)
        ensures
            b@ is None,
    {
        GpuBackend { error: None }
    }

    /// The error code the connection was marked as failed with, if any.
    pub fn error(&self) -> (e: Option<i32>)
        ensures
            e == self@,
    {
        self.error
    }

    /// Mark endpoint as failed with specified error code.
    pub fn set_failed(&mut self, error: i32)
        ensures
            final(self)@ == Some(error),
    {
        self.error = Some(error);
    }

    /// `Ok(0)` while the connection is sound, the error it failed with otherwise.
    pub fn check_state(&self) -> (r: Result<u64>)
        ensures
            r == match self@ {
                Some(e) => Err(Error::SocketBroken(e)),
                None => Ok(0u64),
            },
    {
        match self.error {
            Some(e) => Err(Error::SocketBroken(e)),
            None => Ok(0),
        }
    }

    /// The header for `request` with `len` bytes of body.
    fn header_for(&self, request: GpuBackendReq, len: usize) -> (r: Result<
        VhostUserGpuMsgHeader<GpuBackendReq>,
    >)
        ensures
            header_result_view(r) == outgoing_header(self@, request, len),
    {
        match self.check_state() {
            Err(e) => Err(e),
            Ok(_) => Ok(VhostUserGpuMsgHeader::new(request, 0, len as u32)),
        }
    }

    /// The header of a request that has no body and waits for a reply.
    pub fn send_header(&self, request: GpuBackendReq) -> (r: Result<
        VhostUserGpuMsgHeader<GpuBackendReq>,
    >)
        ensures
            header_result_view(r) == outgoing_header(self@, request, 0),
    {
        self.header_for(request, 0)
    }

    /// The header of a request whose body is `body` and that waits for a reply.
    pub fn send_message<T>(&self, request: GpuBackendReq, body: &T) -> (r: Result<
        VhostUserGpuMsgHeader<GpuBackendReq>,
    >)
        ensures
            header_result_view(r) == outgoing_header(self@, request, size_of::<T>() as usize),
    {
        let len = core::mem::size_of::<T>();
        self.header_for(request, len)
    }

    /// The header of a request whose body is `body`, sent without waiting for a reply.
    pub fn send_message_no_reply<T>(&self, request: GpuBackendReq, body: &T) -> (r: Result<
        VhostUserGpuMsgHeader<GpuBackendReq>,
    >)
        ensures
            header_result_view(r) == outgoing_header(self@, request, size_of::<T>() as usize),
    {
        let len = core::mem::size_of::<T>();
        self.header_for(request, len)
    }

    /// The header of a request whose body `body` may exceed the usual message
    /// size, sent without waiting for a reply.
    pub fn send_message_oversized_no_reply<T>(&self, request: GpuBackendReq, body: &T) -> (r:
        Result<VhostUserGpuMsgHeader<GpuBackendReq>>)
        ensures
            header_result_view(r) == outgoing_header(self@, request, size_of::<T>() as usize),
    {
        let len = core::mem::size_of::<T>();
        self.header_for(request, len)
    }

    /// The header of a request whose body `body` is followed by the payload
    /// `data`, sent without waiting for a reply: it announces the size of both.
    pub fn send_message_oversized_with_payload_no_reply<T>(
        &self,
        request: GpuBackendReq,
        body: &T,
        data: &[u8],
    ) -> (r: Result<VhostUserGpuMsgHeader<GpuBackendReq>>)
        requires
            size_of::<T>() + data@.len() <= usize::MAX,
        ensures
            header_result_view(r) == outgoing_header(
                self@,
                request,
                (size_of::<T>() + data@.len()) as usize,
            ),
    {
        let len = core::mem::size_of::<T>() + data.len();
        self.header_for(request, len)
    }

    /// Judges the reply to the request that went out with header `hdr`: the
    /// reply header `reply`, its body `body`, and whether file descriptors
    /// came with it. The body is handed back when the reply is accepted.
    pub fn wait_for_ack<V: VhostUserMsgValidator>(
        &self,
        hdr: &VhostUserGpuMsgHeader<GpuBackendReq>,
        reply: &VhostUserGpuMsgHeader<GpuBackendReq>,
        body: V,
        has_fds: bool,
    ) -> (r: Result<V>)
        ensures
            r == match ack_error(self@, hdr@, reply@, has_fds, body.spec_is_valid()) {
                Some(e) => Err(e),
                None => Ok(body),
            },
    {
        match self.check_state() {
            Err(e) => Err(e),
            Ok(_) => {
                if !reply.is_reply_for(hdr) || has_fds || !body.is_valid() {
                    Err(Error::InvalidMessage)
                } else {
                    Ok(body)
                }
            },
        }
    }

    /// The header of the VHOST_USER_GPU_GET_PROTOCOL_FEATURES message, which waits for a reply.
    /// Get the supported protocol features bitmask.
    pub fn get_protocol_features(&self) -> (r: Result<VhostUserGpuMsgHeader<GpuBackendReq>>)
        ensures
            header_result_view(r) == outgoing_header(
                self@,
                GpuBackendReq::GET_PROTOCOL_FEATURES,
                0,
            ),
    {
        self.send_header(GpuBackendReq::GET_PROTOCOL_FEATURES)
    }

    /// The header of the VHOST_USER_GPU_SET_PROTOCOL_FEATURES message. Doesn't wait for a reply.
    /// Enable protocol features using a bitmask.
    pub fn set_protocol_features(&self, msg: &VhostUserU64) -> (r: Result<
        VhostUserGpuMsgHeader<GpuBackendReq>,
    >)
        ensures
            header_result_view(r) == outgoing_header(
                self@,
                GpuBackendReq::SET_PROTOCOL_FEATURES,
                size_of::<VhostUserU64>() as usize,
            ),
    {
        self.send_message_no_reply(GpuBackendReq::SET_PROTOCOL_FEATURES, msg)
    }

    /// The header of the VHOST_USER_GPU_GET_DISPLAY_INFO message, which waits for a reply.
    /// Get the preferred display configuration.
    pub fn get_display_info(&self) -> (r: Result<VhostUserGpuMsgHeader<GpuBackendReq>>)
        ensures
            header_result_view(r) == outgoing_header(self@, GpuBackendReq::GET_DISPLAY_INFO, 0),
    {
        self.send_header(GpuBackendReq::GET_DISPLAY_INFO)
    }

    /// The header of the VHOST_USER_GPU_GET_EDID message, which waits for a reply.
    /// Retrieve the EDID data for a given scanout.
    /// This message requires the VHOST_USER_GPU_PROTOCOL_F_EDID protocol feature to be supported.
    pub fn get_edid(&self, get_edid: &VhostUserGpuEdidRequest) -> (r: Result<
        VhostUserGpuMsgHeader<GpuBackendReq>,
    >)
        ensures
            header_result_view(r) == outgoing_header(
                self@,
                GpuBackendReq::GET_EDID,
                size_of::<VhostUserGpuEdidRequest>() as usize,
            ),
    {
        self.send_message(GpuBackendReq::GET_EDID, get_edid)
    }

    /// The header of the VHOST_USER_GPU_SCANOUT message. Doesn't wait for a reply.
    /// Set the scanout resolution. To disable a scanout, the dimensions width/height are set to 0.
    pub fn set_scanout(&self, scanout: &VhostUserGpuScanout) -> (r: Result<
        VhostUserGpuMsgHeader<GpuBackendReq>,
    >)
        ensures
            header_result_view(r) == outgoing_header(
                self@,
                GpuBackendReq::SCANOUT,
                size_of::<VhostUserGpuScanout>() as usize,
            ),
    {
        self.send_message_no_reply(GpuBackendReq::SCANOUT, scanout)
    }

    /// The header of the VHOST_USER_GPU_UPDATE message. Doesn't wait for a reply.
    /// Updates the scanout content. The data payload contains the graphical bits.
    /// The display should be flushed and presented.
    pub fn update_scanout(&self, update: &VhostUserGpuUpdate, data: &[u8]) -> (r: Result<
        VhostUserGpuMsgHeader<GpuBackendReq>,
    >)
        requires
            size_of::<VhostUserGpuUpdate>() + data@.len() <= usize::MAX,
        ensures
            header_result_view(r) == outgoing_header(
                self@,
                GpuBackendReq::UPDATE,
                (size_of::<VhostUserGpuUpdate>() + data@.len()) as usize,
            ),
    {
        self.send_message_oversized_with_payload_no_reply(GpuBackendReq::UPDATE, update, data)
    }

    /// The header of the VHOST_USER_GPU_DMABUF_SCANOUT message. Doesn't wait for a reply.
    /// Set the scanout resolution/configuration; the DMABUF file descriptor of the scanout
    /// content travels as ancillary data next to the message. To disable a scanout, the
    /// dimensions width/height are set to 0, there is no file descriptor passed.
    pub fn set_dmabuf_scanout(&self, scanout: &VhostUserGpuDMABUFScanout) -> (r: Result<
        VhostUserGpuMsgHeader<GpuBackendReq>,
    >)
        ensures
            header_result_view(r) == outgoing_header(
                self@,
                GpuBackendReq::DMABUF_SCANOUT,
                size_of::<VhostUserGpuDMABUFScanout>() as usize,
            ),
    {
        self.send_message_no_reply(GpuBackendReq::DMABUF_SCANOUT, scanout)
    }

    /// The header of the VHOST_USER_GPU_DMABUF_SCANOUT2 message. Doesn't wait for a reply.
    /// Same as `set_dmabuf_scanout`, but also sends the dmabuf modifiers appended to the
    /// message. This message requires the VHOST_USER_GPU_PROTOCOL_F_DMABUF2 protocol
    /// feature to be supported.
    pub fn set_dmabuf_scanout2(&self, scanout: &VhostUserGpuDMABUFScanout2) -> (r: Result<
        VhostUserGpuMsgHeader<GpuBackendReq>,
    >)
        ensures
            header_result_view(r) == outgoing_header(
                self@,
                GpuBackendReq::DMABUF_SCANOUT2,
                size_of::<VhostUserGpuDMABUFScanout2>() as usize,
            ),
    {
        self.send_message_no_reply(GpuBackendReq::DMABUF_SCANOUT2, scanout)
    }

    /// The header of the VHOST_USER_GPU_DMABUF_UPDATE message. Doesn't wait for a reply.
    /// The display should be flushed and presented according to updated region
    /// from VhostUserGpuUpdate.
    pub fn update_dmabuf_scanout(&self, update: &VhostUserGpuUpdate) -> (r: Result<
        VhostUserGpuMsgHeader<GpuBackendReq>,
    >)
        ensures
            header_result_view(r) == outgoing_header(
                self@,
                GpuBackendReq::DMABUF_UPDATE,
                size_of::<VhostUserGpuUpdate>() as usize,
            ),
    {
        self.send_message_no_reply(GpuBackendReq::DMABUF_UPDATE, update)
    }

    /// The header of the VHOST_USER_GPU_CURSOR_POS message. Doesn't wait for a reply.
    /// Set/show the cursor position.
    pub fn cursor_pos(&self, cursor_pos: &VhostUserGpuCursorPos) -> (r: Result<
        VhostUserGpuMsgHeader<GpuBackendReq>,
    >)
        ensures
            header_result_view(r) == outgoing_header(
                self@,
                GpuBackendReq::CURSOR_POS,
                size_of::<VhostUserGpuCursorPos>() as usize,
            ),
    {
        self.send_message_no_reply(GpuBackendReq::CURSOR_POS, cursor_pos)
    }

    /// The header of the VHOST_USER_GPU_CURSOR_POS_HIDE message. Doesn't wait for a reply.
    /// Set/hide the cursor.
    pub fn cursor_pos_hide(&self, cursor_pos: &VhostUserGpuCursorPos) -> (r: Result<
        VhostUserGpuMsgHeader<GpuBackendReq>,
    >)
        ensures
            header_result_view(r) == outgoing_header(
                self@,
                GpuBackendReq::CURSOR_POS_HIDE,
                size_of::<VhostUserGpuCursorPos>() as usize,
            ),
    {
        self.send_message_no_reply(GpuBackendReq::CURSOR_POS_HIDE, cursor_pos)
    }

    /// The header of the VHOST_USER_GPU_CURSOR_UPDATE message. Doesn't wait for a reply.
    /// Update the cursor shape and location.
    pub fn cursor_update(&self, cursor_update: &VhostUserGpuCursorUpdate) -> (r: Result<
        VhostUserGpuMsgHeader<GpuBackendReq>,
    >)
        ensures
            header_result_view(r) == outgoing_header(
                self@,
                GpuBackendReq::CURSOR_UPDATE,
                size_of::<VhostUserGpuCursorUpdate>() as usize,
            ),
    {
        self.send_message_oversized_no_reply(GpuBackendReq::CURSOR_UPDATE, cursor_update)
    }
}

/// A backend whose connection has failed sends nothing and accepts no reply:
/// every request and every reply is answered with the error it failed with.
pub proof fn law_failed_backend_refuses(
    e: i32,
    request: GpuBackendReq,
    len: usize,
    hdr: MsgHeaderView,
    reply: MsgHeaderView,
    has_fds: bool,
    body_valid: bool,
)
    ensures
        outgoing_header(Some(e), request, len) == Err::<MsgHeaderView, Error>(
            Error::SocketBroken(e),
        ),
        ack_error(Some(e), hdr, reply, has_fds, body_valid) == Some(Error::SocketBroken(e)),
{
}

/// A sound backend sends, for each request, a header that carries the
/// request's code, no flag and the body's size.
pub proof fn law_sound_backend_sends(request: GpuBackendReq, len: usize)
    ensures
        outgoing_header(None, request, len) is Ok,
        outgoing_header(None, request, len)->Ok_0.code::<GpuBackendReq>() == Some(request),
        outgoing_header(None, request, len)->Ok_0.flags == 0,
        outgoing_header(None, request, len)->Ok_0.size == len as u32,
{
}

/// On a sound connection, the reply to a request that went out is accepted
/// exactly when it carries the request's code and the reply flag, comes
/// without file descriptors and has a valid body; in particular the request
/// header itself is never accepted as its own reply.
pub proof fn law_ack_of_sent_request(
    request: GpuBackendReq,
    len: usize,
    reply: MsgHeaderView,
    has_fds: bool,
    body_valid: bool,
)
    ensures
        ack_error(None, outgoing_header(None, request, len)->Ok_0, reply, has_fds, body_valid)
            is None <==> (reply.code::<GpuBackendReq>() == Some(request) && reply.is_reply()
            && !has_fds && body_valid),
        ack_error(
            None,
            outgoing_header(None, request, len)->Ok_0,
            outgoing_header(None, request, len)->Ok_0,
            has_fds,
            body_valid,
        ) == Some(Error::InvalidMessage),
{
    assert(0u32 & 4 == 0) by (bit_vector);
}

} // verus!
