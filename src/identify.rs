//! The Identify Controller data structure.

use vstd::prelude::*;
use crate::bytes::{le16, read_le16, copy_range};

verus! {

/// Size of the Identify Controller buffer.
pub const IDENTIFY_LEN: usize = 4096;

/// Offset of the Optional Admin Command Support word.
pub const OACS_OFFSET: usize = 256;

/// OACS bit: the controller supports Security Send and Security Receive.
pub const OACS_SECURITY: u16 = 0x0001;

/// The fields of the Identify Controller data that this library reads.
#[derive(Debug)]
pub struct IdentifyController {
    /// PCI vendor id.
    pub vid: u16,
    /// PCI subsystem vendor id.
    pub ssvid: u16,
    /// Serial number, 20 ASCII bytes.
    pub sn: Vec<u8>,
    /// Model number, 40 ASCII bytes.
    pub mn: Vec<u8>,
    /// Firmware revision, 8 ASCII bytes.
    pub fr: Vec<u8>,
    /// Optional Admin Command Support mask.
    pub oacs: u16,
}

/// What `decode_identity` makes of a buffer.
pub open spec fn identity_matches(id: IdentifyController, raw: Seq<u8>) -> bool {
    &&& id.vid == le16(raw, 0)
    &&& id.ssvid == le16(raw, 2)
    &&& id.sn@ == raw.subrange(4, 24)
    &&& id.mn@ == raw.subrange(24, 64)
    &&& id.fr@ == raw.subrange(64, 72)
    &&& id.oacs == le16(raw, OACS_OFFSET as int)
}

impl IdentifyController {
    /// Whether the controller supports the security command tunnel.
    pub open spec fn security_spec(&self) -> bool {
        self.oacs & OACS_SECURITY != 0
    }

    /// Whether the controller supports the security command tunnel.
    pub fn security(&self) -> (r: bool)
        ensures
            r == self.security_spec(),
    {
        self.oacs & OACS_SECURITY != 0
    }
}

/// Decodes an Identify Controller buffer.
pub fn decode_identity(raw: &[u8]) -> (r: IdentifyController)
    requires
        raw@.len() == IDENTIFY_LEN,
    ensures
        identity_matches(r, raw@),
{
    IdentifyController {
        vid: read_le16(raw, 0),
        ssvid: read_le16(raw, 2),
        sn: copy_range(raw, 4, 20),
        mn: copy_range(raw, 24, 40),
        fr: copy_range(raw, 64, 8),
        oacs: read_le16(raw, OACS_OFFSET),
    }
}

} // verus!
