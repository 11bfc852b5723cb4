//! The ATA Security protocol as tunneled through Security Send / Receive.

use vstd::prelude::*;
use crate::bytes::{le16, read_le16};

verus! {

/// Security protocol id of the ATA Security tunnel.
pub const ATA_SECURITY_ID: u8 = 0xEF;

/// Length of the ATA Security status response.
pub const STATUS_LEN: usize = 16;

/// Length of an ATA Security password payload.
pub const PAYLOAD_LEN: usize = 36;

/// Length of a password.
pub const PASSWORD_LEN: usize = 32;

/// A security protocol that a device reports.
#[derive(Debug, Clone, Copy, PartialEq, Eq, Structural)]
pub enum Protocol {
    AtaSecurity,
    Other(u8),
}

/// The protocol that a protocol-id byte stands for.
pub open spec fn protocol_of(b: u8) -> Protocol {
    if b == ATA_SECURITY_ID {
        Protocol::AtaSecurity
    } else {
        Protocol::Other(b)
    }
}

impl Protocol {
    /// The protocol that a protocol-id byte stands for.
    pub fn from_id(b: u8) -> (r: Protocol)
        ensures
            r == protocol_of(b),
    {
        if b == ATA_SECURITY_ID {
            Protocol::AtaSecurity
        } else {
            Protocol::Other(b)
        }
    }

    /// The protocol-id byte of a protocol.
    pub open spec fn id_spec(self) -> u8 {
        match self {
            Protocol::AtaSecurity => ATA_SECURITY_ID,
            Protocol::Other(b) => b,
        }
    }

    /// The protocol-id byte of a protocol.
    pub fn id(self) -> (r: u8)
        ensures
            r == self.id_spec(),
    {
        match self {
            Protocol::AtaSecurity => ATA_SECURITY_ID,
            Protocol::Other(b) => b,
        }
    }
}

/// Maps the protocol-id bytes of a list to protocols, in order.
pub open spec fn protocols_of(ids: Seq<u8>) -> Seq<Protocol> {
    ids.map_values(|b: u8| protocol_of(b))
}

/// Decodes the second response of protocol discovery: the `count` protocol-id
/// bytes that follow the 8-byte header, in the order the device gave them.
pub fn decode_protocols(buf: &[u8], count: usize) -> (r: Vec<Protocol>)
    requires
        buf@.len() == count + 8,
    ensures
        r@ == protocols_of(buf@.subrange(8, count + 8)),
{
    let n: usize = buf.len();
    let mut r: Vec<Protocol> = Vec::with_capacity(count);
    let mut i: usize = 0;
    while i < count
        invariant
            i <= count,
            buf@.len() == count + 8,
            buf@.len() == n,
            r@ == protocols_of(buf@.subrange(8, 8 + i)),
        decreases count - i,
    {
        r.push(Protocol::from_id(buf[8 + i]));
        i = i + 1;
        assert(r@ =~= protocols_of(buf@.subrange(8, 8 + i)));
    }
    assert(buf@.subrange(8, 8 + count) =~= buf@.subrange(8, count + 8));
    r
}

/// Whether the ATA Security tunnel is among the protocols.
pub fn has_ata_security(protocols: &Vec<Protocol>) -> (r: bool)
    ensures
        r == protocols@.contains(Protocol::AtaSecurity),
{
    let mut i: usize = 0;
    while i < protocols.len()
        invariant
            i <= protocols@.len(),
            forall|j: int| 0 <= j < i ==> protocols@[j] != Protocol::AtaSecurity,
        decreases protocols@.len() - i,
    {
        if protocols[i] == Protocol::AtaSecurity {
            return true;
        }
        i = i + 1;
    }
    false
}

/// Status flag: the ATA Security feature set is supported.
pub const FLAG_SUPPORTED: u16 = 0x0001;
/// Status flag: a user password is set.
pub const FLAG_ENABLED: u16 = 0x0002;
/// Status flag: the device is locked.
pub const FLAG_LOCKED: u16 = 0x0004;
/// Status flag: the security state is frozen.
pub const FLAG_FROZEN: u16 = 0x0008;
/// Status flag: the password attempt counter is exhausted.
pub const FLAG_ATTEMPTS_EXCEEDED: u16 = 0x0010;
/// Status flag: enhanced erase is supported.
pub const FLAG_ENHANCED_ERASE: u16 = 0x0020;
/// Status flag: the maximum security level is selected.
pub const FLAG_MAXIMUM_LEVEL: u16 = 0x0100;

/// The decoded ATA Security status.
#[derive(Debug, Clone, Copy, PartialEq, Eq, Structural)]
pub struct AtaSecurityStatus {
    /// Erase time estimate: 0 unspecified, 1 to 254 in units of two minutes,
    /// 255 for 508 minutes or more.
    pub erase_time: u16,
    /// Enhanced erase time estimate, in the same units.
    pub enhanced_erase_time: u16,
    /// Master password identifier.
    pub master_password_id: u16,
    pub supported: bool,
    pub enabled: bool,
    pub locked: bool,
    pub frozen: bool,
    pub attempts_exceeded: bool,
    pub enhanced_erase_supported: bool,
    pub maximum_level: bool,
}

/// The status whose flags word is `flags` and whose time and identifier words
/// are the three given.
pub open spec fn status_of_words(flags: u16, erase: u16, enhanced: u16, id: u16) -> AtaSecurityStatus {
    AtaSecurityStatus {
        erase_time: erase,
        enhanced_erase_time: enhanced,
        master_password_id: id,
        supported: flags & FLAG_SUPPORTED != 0,
        enabled: flags & FLAG_ENABLED != 0,
        locked: flags & FLAG_LOCKED != 0,
        frozen: flags & FLAG_FROZEN != 0,
        attempts_exceeded: flags & FLAG_ATTEMPTS_EXCEEDED != 0,
        enhanced_erase_supported: flags & FLAG_ENHANCED_ERASE != 0,
        maximum_level: flags & FLAG_MAXIMUM_LEVEL != 0,
    }
}

/// The status that a 16-byte response holds: four little-endian words, the
/// rest reserved.
pub open spec fn status_of(buf: Seq<u8>) -> AtaSecurityStatus {
    status_of_words(le16(buf, 0), le16(buf, 2), le16(buf, 4), le16(buf, 6))
}

/// Decodes the ATA Security status response.
pub fn decode_status(buf: &[u8]) -> (r: AtaSecurityStatus)
    requires
        buf@.len() == STATUS_LEN,
    ensures
        r == status_of(buf@),
{
    let flags = read_le16(buf, 0);
    AtaSecurityStatus {
        erase_time: read_le16(buf, 2),
        enhanced_erase_time: read_le16(buf, 4),
        master_password_id: read_le16(buf, 6),
        supported: flags & FLAG_SUPPORTED != 0,
        enabled: flags & FLAG_ENABLED != 0,
        locked: flags & FLAG_LOCKED != 0,
        frozen: flags & FLAG_FROZEN != 0,
        attempts_exceeded: flags & FLAG_ATTEMPTS_EXCEEDED != 0,
        enhanced_erase_supported: flags & FLAG_ENHANCED_ERASE != 0,
        maximum_level: flags & FLAG_MAXIMUM_LEVEL != 0,
    }
}

/// The two bytes of a 16-bit value, least significant first.
pub open spec fn le16_bytes(w: u16) -> Seq<u8> {
    seq![(w % 256) as u8, (w / 256) as u8]
}

/// A status response laid out from four words, with `reserved` after them.
pub open spec fn status_buffer(flags: u16, erase: u16, enhanced: u16, id: u16, reserved: Seq<u8>) -> Seq<u8> {
    le16_bytes(flags) + le16_bytes(erase) + le16_bytes(enhanced) + le16_bytes(id) + reserved
}

/// The bytes of a little-endian word read back give the word.
pub proof fn lemma_le16_bytes(w: u16, rest: Seq<u8>, pre: Seq<u8>)
    ensures
        le16(pre + le16_bytes(w) + rest, pre.len() as int) == w,
{
    let b = pre + le16_bytes(w) + rest;
    assert(b[pre.len() as int] == (w % 256) as u8);
    assert(b[pre.len() as int + 1] == (w / 256) as u8);
}

/// Decoding a status response laid out from any four words and any reserved
/// bytes gives back those words, and each flag is the bit of the flags word
/// that names it.
pub proof fn lemma_status_round_trip(flags: u16, erase: u16, enhanced: u16, id: u16, reserved: Seq<u8>)
    requires
        reserved.len() == 8,
    ensures
        status_buffer(flags, erase, enhanced, id, reserved).len() == STATUS_LEN,
        status_of(status_buffer(flags, erase, enhanced, id, reserved)) == status_of_words(flags, erase, enhanced, id),
{
    let b = status_buffer(flags, erase, enhanced, id, reserved);
    let e = Seq::<u8>::empty();
    lemma_le16_bytes(flags, b.subrange(2, 16), e);
    assert(e + le16_bytes(flags) + b.subrange(2, 16) =~= b);
    lemma_le16_bytes(erase, b.subrange(4, 16), b.subrange(0, 2));
    assert(b.subrange(0, 2) + le16_bytes(erase) + b.subrange(4, 16) =~= b);
    lemma_le16_bytes(enhanced, b.subrange(6, 16), b.subrange(0, 4));
    assert(b.subrange(0, 4) + le16_bytes(enhanced) + b.subrange(6, 16) =~= b);
    lemma_le16_bytes(id, b.subrange(8, 16), b.subrange(0, 6));
    assert(b.subrange(0, 6) + le16_bytes(id) + b.subrange(8, 16) =~= b);
}

} // verus!
