//! ATA Security password payloads and the policy that turns an entered
//! password into the fixed-size form the device takes.

use vstd::prelude::*;
use crate::security::{le16_bytes, PASSWORD_LEN};

verus! {

/// The control word: bit 0 selects the master password, bit 8 the maximum
/// security level (or, for an erase, the enhanced mode).
pub open spec fn control_bytes(master: bool, maximum: Option<bool>) -> Seq<u8> {
    seq![if master { 1u8 } else { 0u8 }, if maximum == Some(true) { 1u8 } else { 0u8 }]
}

/// The master password identifier field: the identifier for the master
/// role, zero otherwise.
pub open spec fn identifier_field(master: bool, master_id: Option<u16>) -> u16 {
    if master {
        match master_id {
            Some(id) => id,
            None => 0,
        }
    } else {
        0
    }
}

/// The 36-byte payload: control word, 32 password bytes, identifier.
pub open spec fn payload_of(password: Seq<u8>, master: bool, maximum: Option<bool>, master_id: Option<u16>) -> Seq<u8> {
    control_bytes(master, maximum) + password + le16_bytes(identifier_field(master, master_id))
}

/// Builds the ATA Security password payload.
pub fn encode_password(password: &[u8; 32], master: bool, maximum: Option<bool>, master_id: Option<u16>) -> (r: Vec<u8>)
    ensures
        r@ == payload_of(password@, master, maximum, master_id),
        r@.len() == 36,
        r@.subrange(2, 34) == password@,
        !master ==> r@[34] == 0 && r@[35] == 0,
{
    let mut r: Vec<u8> = Vec::with_capacity(36);
    r.push(if master { 1u8 } else { 0u8 });
    r.push(if maximum == Some(true) { 1u8 } else { 0u8 });
    let mut i: usize = 0;
    while i < PASSWORD_LEN
        invariant
            i <= PASSWORD_LEN,
            password@.len() == PASSWORD_LEN,
            r@ == control_bytes(master, maximum) + password@.subrange(0, i as int),
        decreases PASSWORD_LEN - i,
    {
        r.push(password[i]);
        i = i + 1;
        assert(r@ =~= control_bytes(master, maximum) + password@.subrange(0, i as int));
    }
    let id: u16 = if master {
        match master_id {
            Some(id) => id,
            None => 0,
        }
    } else {
        0
    };
    r.push((id % 256) as u8);
    r.push((id / 256) as u8);
    assert(password@.subrange(0, 32) =~= password@);
    assert(r@ =~= payload_of(password@, master, maximum, master_id));
    assert(r@.subrange(2, 34) =~= password@);
    r
}

/// Why an entered password cannot be used.
#[derive(Debug, Clone, Copy, PartialEq, Eq, Structural)]
pub enum PasswordError {
    /// Nothing was entered.
    Empty,
    /// More than 32 bytes were entered.
    TooLong,
    /// The confirmation differs from the first entry.
    Mismatch,
}

/// An entered password right-padded with zeros to 32 bytes.
pub open spec fn padded(input: Seq<u8>) -> Seq<u8> {
    input + Seq::new((PASSWORD_LEN - input.len()) as nat, |i: int| 0u8)
}

/// Turns an entered password into its 32-byte form: shorter input is padded
/// with zeros on the right, longer input is refused rather than truncated.
pub fn normalize_password(input: &[u8]) -> (r: Result<[u8; 32], PasswordError>)
    ensures
        normalized(input@, r),
        input@.len() == 0 <==> r == Err::<[u8; 32], PasswordError>(PasswordError::Empty),
        input@.len() > PASSWORD_LEN <==> r == Err::<[u8; 32], PasswordError>(PasswordError::TooLong),
        r is Ok <==> 0 < input@.len() <= PASSWORD_LEN,
        r matches Ok(p) ==> p@ == padded(input@),
{
    let n: usize = input.len();
    if n == 0 {
        return Err(PasswordError::Empty);
    }
    if n > PASSWORD_LEN {
        return Err(PasswordError::TooLong);
    }
    let mut buf: [u8; 32] = [0u8; 32];
    let mut i: usize = 0;
    while i < n
        invariant
            i <= n,
            n == input@.len(),
            n <= PASSWORD_LEN,
            buf@.len() == PASSWORD_LEN,
            forall|j: int| 0 <= j < i ==> buf@[j] == input@[j],
            forall|j: int| i <= j < PASSWORD_LEN ==> buf@[j] == 0,
        decreases n - i,
    {
        buf[i] = input[i];
        i = i + 1;
    }
    assert(buf@ =~= padded(input@));
    Ok(buf)
}

/// Whether `r` is the outcome that the padding policy gives for `input`.
pub open spec fn normalized(input: Seq<u8>, r: Result<[u8; 32], PasswordError>) -> bool {
    if input.len() == 0 {
        r == Err::<[u8; 32], PasswordError>(PasswordError::Empty)
    } else if input.len() > PASSWORD_LEN {
        r == Err::<[u8; 32], PasswordError>(PasswordError::TooLong)
    } else {
        r matches Ok(p) && p@ == padded(input)
    }
}

/// Accepts an entered password together with its confirmation: they must be
/// equal, and the entry must pass `normalize_password`.
pub fn confirm_password(first: &[u8], second: &[u8]) -> (r: Result<[u8; 32], PasswordError>)
    ensures
        first@ != second@ ==> r == Err::<[u8; 32], PasswordError>(PasswordError::Mismatch),
        first@ == second@ ==> normalized(first@, r),
{
    if first.len() != second.len() {
        return Err(PasswordError::Mismatch);
    }
    let mut i: usize = 0;
    while i < first.len()
        invariant
            i <= first@.len(),
            first@.len() == second@.len(),
            forall|j: int| 0 <= j < i ==> first@[j] == second@[j],
        decreases first@.len() - i,
    {
        if first[i] != second[i] {
            return Err(PasswordError::Mismatch);
        }
        i = i + 1;
    }
    assert(first@ =~= second@);
    normalize_password(first)
}

} // verus!
