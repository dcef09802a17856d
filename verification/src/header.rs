use core::marker::PhantomData;
use vstd::prelude::*;
use vstd::std_specs::cmp::PartialEqSpecImpl;

use crate::error::{Error, Result};
use crate::message::{
    Req, VhostUserMsgValidator, MAX_MSG_SIZE, VHOST_USER_HEADER_FLAG_ALL_FLAGS,
    VHOST_USER_HEADER_FLAG_NEED_REPLY, VHOST_USER_HEADER_FLAG_REPLY,
    VHOST_USER_HEADER_FLAG_RESERVED_BITS, VHOST_USER_HEADER_FLAG_VERSION,
};

verus! {

/// The three fields of a message header as plain numbers: the request code,
/// the flag bits and the size of the payload that follows the header.
pub struct MsgHeaderView {
    pub request: u32,
    pub flags: u32,
    pub size: u32,
}

impl MsgHeaderView {
    /// The request that the header's code stands for, if any.
    pub open spec fn code<R: Req>(self) -> Option<R> {
        R::spec_from_value(self.request)
    }

    /// The protocol version held in the two lowest flag bits.
    pub open spec fn version(self) -> u32 {
        self.flags & VHOST_USER_HEADER_FLAG_VERSION
    }

    /// Whether the reply flag is set.
    pub open spec fn is_reply(self) -> bool {
        self.flags & VHOST_USER_HEADER_FLAG_REPLY != 0
    }

    /// Whether the need-reply flag is set.
    pub open spec fn is_need_reply(self) -> bool {
        self.flags & VHOST_USER_HEADER_FLAG_NEED_REPLY != 0
    }

    /// The reserved flag bits that are set.
    pub open spec fn reserved_bits(self) -> u32 {
        self.flags & VHOST_USER_HEADER_FLAG_RESERVED_BITS
    }

    /// Whether this header is the reply to the request header `req`: both
    /// carry a known request code, the same one, this one is a reply and
    /// `req` is not.
    pub open spec fn is_reply_for<R: Req>(self, req: MsgHeaderView) -> bool {
        match (self.code::<R>(), req.code::<R>()) {
            (Some(c1), Some(c2)) => self.is_reply() && !req.is_reply() && c1 == c2,
            _ => false,
        }
    }

    /// The same header with the flag bits `bit` set (`on`) or cleared.
    pub open spec fn with_flag(self, bit: u32, on: bool) -> MsgHeaderView {
        MsgHeaderView {
            request: self.request,
            flags: if on {
                self.flags | bit
            } else {
                self.flags & !bit
            },
            size: self.size,
        }
    }

    /// The same header with the version bits replaced by the two lowest bits of `ver`.
    pub open spec fn with_version(self, ver: u32) -> MsgHeaderView {
        MsgHeaderView {
            request: self.request,
            flags: (self.flags & !VHOST_USER_HEADER_FLAG_VERSION) | (ver
                & VHOST_USER_HEADER_FLAG_VERSION),
            size: self.size,
        }
    }

    /// The same header with the request code `request`.
    pub open spec fn with_request(self, request: u32) -> MsgHeaderView {
        MsgHeaderView { request, flags: self.flags, size: self.size }
    }

    /// The same header with the payload size `size`.
    pub open spec fn with_size(self, size: u32) -> MsgHeaderView {
        MsgHeaderView { request: self.request, flags: self.flags, size }
    }

    /// Whether this is a well-formed vhost-user header: a known request code,
    /// a payload of at most `MAX_MSG_SIZE` bytes, version 1 and no reserved
    /// flag bit set.
    pub open spec fn is_valid_vhost_user<R: Req>(self) -> bool {
        &&& self.code::<R>() is Some
        &&& self.size <= MAX_MSG_SIZE
        &&& self.version() == 1
        &&& self.reserved_bits() == 0
    }
}

/// The header that `VhostUserMsgHeader::new(request, flags, size)` builds:
/// only the reply and need-reply bits of `flags` are kept, and the version is 1.
pub open spec fn vhost_user_header_new<R: Req>(request: R, flags: u32, size: u32) -> MsgHeaderView {
    MsgHeaderView {
        request: request.spec_value(),
        flags: (flags & VHOST_USER_HEADER_FLAG_ALL_FLAGS) | 1,
        size,
    }
}

/// Common message header for vhost-user requests and replies.
/// A vhost-user message consists of 3 header fields and an optional payload.
/// All numbers are in the machine native byte order.
#[derive(Copy, Debug)]
pub struct VhostUserMsgHeader<R: Req> {
    request: u32,
    flags: u32,
    size: u32,
    _r: PhantomData<R>,
}

impl<R: Req> View for VhostUserMsgHeader<R> {
    type V = MsgHeaderView;

    closed spec fn view(&self) -> MsgHeaderView {
        MsgHeaderView { request: self.request, flags: self.flags, size: self.size }
    }
}

impl<R: Req> VhostUserMsgHeader<R> {
    /// Create a new instance of `VhostUserMsgHeader`.
    /// Only the reply and need-reply bits of `flags` are kept; the version is 1.
    pub fn new(request: R, flags: u32, size: u32) -> (h: Self)
        ensures
            h@ == vhost_user_header_new(request, flags, size),
    {
        // Default to protocol version 1
        let fl = (flags & VHOST_USER_HEADER_FLAG_ALL_FLAGS) | 0x1;
        VhostUserMsgHeader { request: request.value(), flags: fl, size, _r: PhantomData }
    }

    /// The header with the given raw fields, as they were read from the wire.
    pub fn from_raw(request: u32, flags: u32, size: u32) -> (h: Self)
        ensures
            h@ == (MsgHeaderView { request, flags, size }),
    {
        VhostUserMsgHeader { request, flags, size, _r: PhantomData }
    }

    /// The raw fields (request code, flags, size), as they go on the wire.
    pub fn to_raw(&self) -> (r: (u32, u32, u32))
        ensures
            r == (self@.request, self@.flags, self@.size),
    {
        (self.request, self.flags, self.size)
    }

    /// Get message type.
    pub fn get_code(&self) -> (r: Result<R>)
        ensures
            r == match self@.code::<R>() {
                Some(c) => Ok(c),
                None => Err(Error::InvalidMessage),
            },
    {
        match R::from_value(self.request) {
            Some(c) => Ok(c),
            None => Err(Error::InvalidMessage),
        }
    }

    /// Set message type.
    pub fn set_code(&mut self, request: R)
        ensures
            final(self)@ == old(self)@.with_request(request.spec_value()),
    {
        self.request = request.value();
    }

    /// Get message version number.
    pub fn get_version(&self) -> (v: u32)
        ensures
            v == self@.version(),
    {
        self.flags & 0x3
    }

    /// Set message version number.
    pub fn set_version(&mut self, ver: u32)
        ensures
            final(self)@ == old(self)@.with_version(ver),
    {
        self.flags = self.flags & !0x3;
        self.flags = self.flags | (ver & 0x3);
    }

    /// Check whether it's a reply message.
    pub fn is_reply(&self) -> (r: bool)
        ensures
            r == self@.is_reply(),
    {
        (self.flags & VHOST_USER_HEADER_FLAG_REPLY) != 0
    }

    /// Mark message as reply.
    pub fn set_reply(&mut self, is_reply: bool)
        ensures
            final(self)@ == old(self)@.with_flag(VHOST_USER_HEADER_FLAG_REPLY, is_reply),
    {
        if is_reply {
            self.flags = self.flags | VHOST_USER_HEADER_FLAG_REPLY;
        } else {
            self.flags = self.flags & !VHOST_USER_HEADER_FLAG_REPLY;
        }
    }

    /// Check whether reply for this message is requested.
    pub fn is_need_reply(&self) -> (r: bool)
        ensures
            r == self@.is_need_reply(),
    {
        (self.flags & VHOST_USER_HEADER_FLAG_NEED_REPLY) != 0
    }

    /// Mark that reply for this message is needed.
    pub fn set_need_reply(&mut self, need_reply: bool)
        ensures
            final(self)@ == old(self)@.with_flag(VHOST_USER_HEADER_FLAG_NEED_REPLY, need_reply),
    {
        if need_reply {
            self.flags = self.flags | VHOST_USER_HEADER_FLAG_NEED_REPLY;
        } else {
            self.flags = self.flags & !VHOST_USER_HEADER_FLAG_NEED_REPLY;
        }
    }

    /// Check whether it's the reply message for the request `req`.
    pub fn is_reply_for(&self, req: &VhostUserMsgHeader<R>) -> (r: bool)
        ensures
            r == self@.is_reply_for::<R>(req@),
    {
        if let (Ok(code1), Ok(code2)) = (self.get_code(), req.get_code()) {
            proof {
                R::lemma_value_decodes(code1);
                R::lemma_value_decodes(code2);
            }
            self.is_reply() && !req.is_reply() && code1.value() == code2.value()
        } else {
            false
        }
    }

    /// Get message size.
    pub fn get_size(&self) -> (s: u32)
        ensures
            s == self@.size,
    {
        self.size
    }

    /// Set message size.
    pub fn set_size(&mut self, size: u32)
        ensures
            final(self)@ == old(self)@.with_size(size),
    {
        self.size = size;
    }
}

impl<R: Req> Clone for VhostUserMsgHeader<R> {
    fn clone(&self) -> (h: Self)
        ensures
            h@ == self@,
    {
        *self
    }
}

impl<R: Req> Default for VhostUserMsgHeader<R> {
    /// A header with request code 0, version 1, no other flag and no payload.
    fn default() -> (h: Self)
        ensures
            h@ == (MsgHeaderView { request: 0, flags: 1, size: 0 }),
    {
        VhostUserMsgHeader { request: 0, flags: 0x1, size: 0, _r: PhantomData }
    }
}

impl<R: Req> PartialEq for VhostUserMsgHeader<R> {
    fn eq(&self, other: &Self) -> (r: bool) {
        self.request == other.request && self.flags == other.flags && self.size == other.size
    }
}

impl<R: Req> PartialEqSpecImpl for VhostUserMsgHeader<R> {
    open spec fn obeys_eq_spec() -> bool {
        true
    }

    open spec fn eq_spec(&self, other: &Self) -> bool {
        self@ == other@
    }
}

impl<R: Req> VhostUserMsgValidator for VhostUserMsgHeader<R> {
    open spec fn spec_is_valid(&self) -> bool {
        self@.is_valid_vhost_user::<R>()
    }

    fn is_valid(&self) -> (r: bool) {
        if self.get_code().is_err() {
            return false;
        } else if self.size as usize > MAX_MSG_SIZE {
            return false;
        } else if self.get_version() != 0x1 {
            return false;
        } else if (self.flags & VHOST_USER_HEADER_FLAG_RESERVED_BITS) != 0 {
            return false;
        }
        true
    }
}

/// Setting or clearing the flag bits `bit` leaves every bit of `mask` outside them as it was.
proof fn lemma_flag_update_keeps(f: u32, bit: u32, mask: u32)
    by (bit_vector)
    requires
        bit & mask == 0,
    ensures
        (f | bit) & mask == f & mask,
        (f & !bit) & mask == f & mask,
{
}

/// Setting the flag bits `bit` sets them; clearing them clears them.
proof fn lemma_flag_update_sets(f: u32, bit: u32)
    by (bit_vector)
    ensures
        (f | bit) & bit == bit,
        (f & !bit) & bit == 0,
{
}

/// Setting a flag bit that is set, or clearing one that is clear, changes nothing.
proof fn lemma_flag_update_noop(f: u32, bit: u32)
    by (bit_vector)
    ensures
        f & bit == bit ==> f | bit == f,
        f & bit == 0 ==> f & !bit == f,
{
}

/// A header built by `VhostUserMsgHeader::new` carries the request it was
/// built for and the given size, has version 1, keeps only the reply and
/// need-reply bits of the given flags, and is valid exactly when its size is
/// at most `MAX_MSG_SIZE`.
pub proof fn law_new_header<R: Req>(request: R, flags: u32, size: u32)
    ensures
        vhost_user_header_new(request, flags, size).code::<R>() == Some(request),
        vhost_user_header_new(request, flags, size).size == size,
        vhost_user_header_new(request, flags, size).version() == 1,
        vhost_user_header_new(request, flags, size).reserved_bits() == 0,
        vhost_user_header_new(request, flags, size).is_reply() == (flags
            & VHOST_USER_HEADER_FLAG_REPLY != 0),
        vhost_user_header_new(request, flags, size).is_need_reply() == (flags
            & VHOST_USER_HEADER_FLAG_NEED_REPLY != 0),
        vhost_user_header_new(request, flags, size).is_valid_vhost_user::<R>() == (size
            <= MAX_MSG_SIZE),
{
    R::lemma_value_decodes(request);
    assert(((flags & 0xc) | 1) & 0x3 == 1) by (bit_vector);
    assert(((flags & 0xc) | 1) & 0xffff_fff0 == 0) by (bit_vector);
    assert((((flags & 0xc) | 1) & 0x4 != 0) == (flags & 0x4 != 0)) by (bit_vector);
    assert((((flags & 0xc) | 1) & 0x8 != 0) == (flags & 0x8 != 0)) by (bit_vector);
}

/// Marking a header as reply (or not) makes `is_reply` answer so, and keeps
/// the request code, the size, the version, the need-reply flag, the reserved
/// bits, and hence validity, as they were.
pub proof fn law_set_reply<R: Req>(h: MsgHeaderView, on: bool)
    ensures
        h.with_flag(VHOST_USER_HEADER_FLAG_REPLY, on).is_reply() == on,
        h.with_flag(VHOST_USER_HEADER_FLAG_REPLY, on).request == h.request,
        h.with_flag(VHOST_USER_HEADER_FLAG_REPLY, on).size == h.size,
        h.with_flag(VHOST_USER_HEADER_FLAG_REPLY, on).version() == h.version(),
        h.with_flag(VHOST_USER_HEADER_FLAG_REPLY, on).is_need_reply() == h.is_need_reply(),
        h.with_flag(VHOST_USER_HEADER_FLAG_REPLY, on).reserved_bits() == h.reserved_bits(),
        h.with_flag(VHOST_USER_HEADER_FLAG_REPLY, on).is_valid_vhost_user::<R>()
            == h.is_valid_vhost_user::<R>(),
{
    assert(4u32 & 3 == 0 && 4u32 & 8 == 0 && 4u32 & 0xffff_fff0 == 0) by (bit_vector);
    lemma_flag_update_sets(h.flags, 4);
    lemma_flag_update_keeps(h.flags, 4, 3);
    lemma_flag_update_keeps(h.flags, 4, 8);
    lemma_flag_update_keeps(h.flags, 4, 0xffff_fff0);
}

/// Asking for a reply (or not) makes `is_need_reply` answer so, and keeps the
/// request code, the size, the version, the reply flag, the reserved bits,
/// and hence validity, as they were.
pub proof fn law_set_need_reply<R: Req>(h: MsgHeaderView, on: bool)
    ensures
        h.with_flag(VHOST_USER_HEADER_FLAG_NEED_REPLY, on).is_need_reply() == on,
        h.with_flag(VHOST_USER_HEADER_FLAG_NEED_REPLY, on).request == h.request,
        h.with_flag(VHOST_USER_HEADER_FLAG_NEED_REPLY, on).size == h.size,
        h.with_flag(VHOST_USER_HEADER_FLAG_NEED_REPLY, on).version() == h.version(),
        h.with_flag(VHOST_USER_HEADER_FLAG_NEED_REPLY, on).is_reply() == h.is_reply(),
        h.with_flag(VHOST_USER_HEADER_FLAG_NEED_REPLY, on).reserved_bits() == h.reserved_bits(),
        h.with_flag(VHOST_USER_HEADER_FLAG_NEED_REPLY, on).is_valid_vhost_user::<R>()
            == h.is_valid_vhost_user::<R>(),
{
    assert(8u32 & 3 == 0 && 8u32 & 4 == 0 && 8u32 & 0xffff_fff0 == 0) by (bit_vector);
    lemma_flag_update_sets(h.flags, 8);
    lemma_flag_update_keeps(h.flags, 8, 3);
    lemma_flag_update_keeps(h.flags, 8, 4);
    lemma_flag_update_keeps(h.flags, 8, 0xffff_fff0);
}

/// Setting a flag to the value it already has leaves the header unchanged.
pub proof fn law_set_flag_to_current(h: MsgHeaderView)
    ensures
        h.with_flag(VHOST_USER_HEADER_FLAG_REPLY, h.is_reply()) == h,
        h.with_flag(VHOST_USER_HEADER_FLAG_NEED_REPLY, h.is_need_reply()) == h,
{
    lemma_flag_update_noop(h.flags, 4);
    lemma_flag_update_noop(h.flags, 8);
    let f = h.flags;
    assert(f & 4 != 0 ==> f & 4 == 4) by (bit_vector);
    assert(f & 8 != 0 ==> f & 8 == 8) by (bit_vector);
}

/// Changing the reply or need-reply flag and then setting it back to what it
/// was restores the header.
pub proof fn law_flag_change_undone(h: MsgHeaderView, on: bool)
    ensures
        h.with_flag(VHOST_USER_HEADER_FLAG_REPLY, on).with_flag(
            VHOST_USER_HEADER_FLAG_REPLY,
            h.is_reply(),
        ) == h,
        h.with_flag(VHOST_USER_HEADER_FLAG_NEED_REPLY, on).with_flag(
            VHOST_USER_HEADER_FLAG_NEED_REPLY,
            h.is_need_reply(),
        ) == h,
{
    let f = h.flags;
    assert(f & 4 != 0 ==> (f | 4) | 4 == f && (f & !4u32) | 4 == f) by (bit_vector);
    assert(f & 4 == 0 ==> (f | 4) & !4u32 == f && (f & !4u32) & !4u32 == f) by (bit_vector);
    assert(f & 8 != 0 ==> (f | 8) | 8 == f && (f & !8u32) | 8 == f) by (bit_vector);
    assert(f & 8 == 0 ==> (f | 8) & !8u32 == f && (f & !8u32) & !8u32 == f) by (bit_vector);
}

/// Setting the version makes `get_version` answer the two lowest bits of the
/// given number, and keeps the request code, the size, the reply and
/// need-reply flags and the reserved bits as they were; the header is then
/// valid exactly when it was valid apart from its version and the new version is 1.
pub proof fn law_set_version<R: Req>(h: MsgHeaderView, ver: u32)
    ensures
        h.with_version(ver).version() == ver & VHOST_USER_HEADER_FLAG_VERSION,
        h.with_version(ver).request == h.request,
        h.with_version(ver).size == h.size,
        h.with_version(ver).is_reply() == h.is_reply(),
        h.with_version(ver).is_need_reply() == h.is_need_reply(),
        h.with_version(ver).reserved_bits() == h.reserved_bits(),
        h.with_version(ver).is_valid_vhost_user::<R>() == (h.code::<R>() is Some && h.size
            <= MAX_MSG_SIZE && h.reserved_bits() == 0 && ver & VHOST_USER_HEADER_FLAG_VERSION
            == 1),
{
    let f = h.flags;
    assert(((f & !3u32) | (ver & 3)) & 3 == ver & 3) by (bit_vector);
    assert(((f & !3u32) | (ver & 3)) & 4 == f & 4) by (bit_vector);
    assert(((f & !3u32) | (ver & 3)) & 8 == f & 8) by (bit_vector);
    assert(((f & !3u32) | (ver & 3)) & 0xffff_fff0 == f & 0xffff_fff0) by (bit_vector);
}

/// Setting the request code makes `get_code` give that request back, and
/// keeps the flags and the size; setting the size makes `get_size` give it
/// back and keeps the request code and the flags.
pub proof fn law_set_code_and_size<R: Req>(h: MsgHeaderView, request: R, size: u32)
    ensures
        h.with_request(request.spec_value()).code::<R>() == Some(request),
        h.with_request(request.spec_value()).flags == h.flags,
        h.with_request(request.spec_value()).size == h.size,
        h.with_size(size).size == size,
        h.with_size(size).request == h.request,
        h.with_size(size).flags == h.flags,
{
    R::lemma_value_decodes(request);
}

/// Being the reply for a request is one-way: no header answers itself, and
/// when `a` answers `b`, `b` does not answer `a`.
pub proof fn law_reply_for_is_one_way<R: Req>(a: MsgHeaderView, b: MsgHeaderView)
    ensures
        !a.is_reply_for::<R>(a),
        a.is_reply_for::<R>(b) ==> !b.is_reply_for::<R>(a),
{
}

/// A header that carries the known request code of a request that is not a
/// reply, and has the reply flag set, answers that request, whatever the
/// other flags and the sizes.
pub proof fn law_reply_answers_request<R: Req>(req: MsgHeaderView, reply: MsgHeaderView)
    requires
        req.code::<R>() is Some,
        !req.is_reply(),
        reply.request == req.request,
        reply.is_reply(),
    ensures
        reply.is_reply_for::<R>(req),
{
}

/// Marking a copy of a request (that is not itself a reply and carries a
/// known request code) as a reply yields a reply to that request.
pub proof fn law_marked_copy_answers_request<R: Req>(req: MsgHeaderView)
    requires
        req.code::<R>() is Some,
        !req.is_reply(),
    ensures
        req.with_flag(VHOST_USER_HEADER_FLAG_REPLY, true).is_reply_for::<R>(req),
{
    lemma_flag_update_sets(req.flags, 4);
}

/// The default header has version 1, no reply, need-reply or reserved bit,
/// request code 0 and size 0.
pub proof fn law_default_header()
    ensures
        (MsgHeaderView { request: 0, flags: 1, size: 0 }).version() == 1,
        !(MsgHeaderView { request: 0, flags: 1, size: 0 }).is_reply(),
        !(MsgHeaderView { request: 0, flags: 1, size: 0 }).is_need_reply(),
        (MsgHeaderView { request: 0, flags: 1, size: 0 }).reserved_bits() == 0,
{
    assert(1u32 & 3 == 1) by (bit_vector);
    assert(1u32 & 4 == 0) by (bit_vector);
    assert(1u32 & 8 == 0) by (bit_vector);
    assert(1u32 & 0xffff_fff0 == 0) by (bit_vector);
}

/// A vhost-user header is valid exactly when its request code is known, it
/// announces at most 4096 bytes of payload, its two version bits hold 1 and
/// none of the flag bits above the need-reply bit is set.
pub proof fn law_vhost_user_header_validity<R: Req>(h: VhostUserMsgHeader<R>)
    ensures
        h.spec_is_valid() <==> (R::spec_from_value(h@.request) is Some && h@.size <= 4096
            && h@.flags & 3 == 1 && h@.flags >> 4 == 0),
{
    let f = h@.flags;
    assert(f & 0xffff_fff0 == 0 <==> f >> 4 == 0) by (bit_vector);
}

} // verus!
