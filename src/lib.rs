//! Configuration of the ATA Security feature set on NVMe devices, tunneled
//! through Security Send / Security Receive.
//!
//! The library holds the binary protocol layer and the ordering of commands:
//! decoding of identify data, the two-phase discovery of security protocols,
//! decoding of the ATA Security status, encoding of password payloads, and a
//! session that decides, response by response, which device command comes next.
//! Issuing the commands themselves is left to the caller.

pub mod bytes;
pub mod identify;
pub mod security;
pub mod password;
pub mod session;
