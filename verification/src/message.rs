use vstd::prelude::*;

verus! {

/// The largest message payload, in bytes, that a vhost-user header may announce.
pub const MAX_MSG_SIZE: usize = 0x1000;

/// Bits 0 and 1 of the header flags hold the protocol version.
pub const VHOST_USER_HEADER_FLAG_VERSION: u32 = 0x3;

/// Header flag: the message is a reply.
pub const VHOST_USER_HEADER_FLAG_REPLY: u32 = 0x4;

/// Header flag: the sender anticipates a reply message from the peer.
pub const VHOST_USER_HEADER_FLAG_NEED_REPLY: u32 = 0x8;

/// All header flags that a sender may set besides the version.
pub const VHOST_USER_HEADER_FLAG_ALL_FLAGS: u32 = 0xc;

/// Header flag bits that are reserved and must be clear.
pub const VHOST_USER_HEADER_FLAG_RESERVED_BITS: u32 = 0xffff_fff0;

/// A request code of a vhost-user protocol: a closed set of values, each with
/// a distinct `u32` code on the wire.
pub trait Req: Sized + Copy {
    /// The request that the wire code `v` stands for, if any.
    spec fn spec_from_value(v: u32) -> Option<Self>;

    /// The wire code of this request.
    spec fn spec_value(self) -> u32;

    /// Decoding the code of a request gives the request back.
    proof fn lemma_value_decodes(r: Self)
        ensures
            Self::spec_from_value(r.spec_value()) == Some(r),
    ;

    /// A code that decodes to a request is that request's code.
    proof fn lemma_decoded_value(v: u32)
        ensures
            Self::spec_from_value(v) matches Some(r) ==> r.spec_value() == v,
    ;

    /// The wire code of this request.
    fn value(&self) -> (v: u32)
        ensures
            v == self.spec_value(),
    ;

    /// The request that the wire code `v` stands for, if any.
    fn from_value(v: u32) -> (r: Option<Self>)
        ensures
            r == Self::spec_from_value(v),
    ;
}

/// A message part that can tell whether its contents are well formed.
pub trait VhostUserMsgValidator {
    /// Whether the contents are well formed.
    spec fn spec_is_valid(&self) -> bool;

    /// Whether the contents are well formed.
    fn is_valid(&self) -> (r: bool)
        ensures
            r == self.spec_is_valid(),
    ;
}

/// A message body that carries one `u64`.
#[derive(Clone, Copy, Debug, Default, PartialEq, Eq, Structural)]
pub struct VhostUserU64 {
    /// The value.
    pub value: u64,
}

impl VhostUserU64 {
    /// Creates a body that carries `value`.
    pub fn new(value: u64) -> (r: Self)
        ensures
            r.value == value,
    {
        VhostUserU64 { value }
    }
}

impl VhostUserMsgValidator for VhostUserU64 {
    open spec fn spec_is_valid(&self) -> bool {
        true
    }

    fn is_valid(&self) -> (r: bool) {
        true
    }
}

/// An empty message body.
#[derive(Clone, Copy, Debug, Default, PartialEq, Eq, Structural)]
pub struct VhostUserEmpty;

impl VhostUserMsgValidator for VhostUserEmpty {
    open spec fn spec_is_valid(&self) -> bool {
        true
    }

    fn is_valid(&self) -> (r: bool) {
        true
    }
}

/// Every `u64` reply body and every empty body is valid, whatever bits it carries.
pub proof fn law_u64_body_always_valid(v: VhostUserU64, e: VhostUserEmpty)
    ensures
        v.spec_is_valid(),
        e.spec_is_valid(),
{
}

} // verus!
