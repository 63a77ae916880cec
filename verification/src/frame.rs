//! The frame: four bytes that spell the uncompressed length, least
//! significant byte first, followed by the compressed payload.

use vstd::prelude::*;

verus! {

/// Number of bytes that the length prefix takes at the start of a frame.
pub const PREFIX_LEN: usize = 4;

/// The number that four bytes spell, least significant byte first.
pub open spec fn le_value(bytes: Seq<u8>) -> nat
    recommends
        bytes.len() == 4,
{
    (bytes[0] as nat) + 0x100 * (bytes[1] as nat) + 0x1_0000 * (bytes[2] as nat) + 0x100_0000 * (
    bytes[3] as nat)
}

/// The four bytes that spell `n`, least significant byte first. Above
/// `u32::MAX` only the low 32 bits of `n` are spelled.
pub open spec fn le_bytes(n: nat) -> Seq<u8> {
    seq![
        (n % 0x100) as u8,
        (n / 0x100 % 0x100) as u8,
        (n / 0x1_0000 % 0x100) as u8,
        (n / 0x100_0000 % 0x100) as u8,
    ]
}

/// The uncompressed length that a frame declares; `None` where the frame is too
/// short to hold a whole prefix.
pub open spec fn declared_len(frame: Seq<u8>) -> Option<nat> {
    if frame.len() < 4 {
        None
    } else {
        Some(le_value(frame.subrange(0, 4)))
    }
}

/// Reading back what was spelled gives the number again.
pub proof fn lemma_le_value_of_le_bytes(n: nat)
    requires
        n <= u32::MAX,
    ensures
        le_bytes(n).len() == 4,
        le_value(le_bytes(n)) == n,
{
}

/// Reads the length prefix of a frame. Looks at the first four bytes and at
/// nothing else, and only once it has seen that they are there.
pub fn read_declared_len(frame: &[u8]) -> (declared: Option<u32>)
    ensures
        match declared {
            Some(n) => declared_len(frame@) == Some(n as nat),
            None => declared_len(frame@) is None,
        },
{
    if frame.len() < PREFIX_LEN {
        return None;
    }
    let b0: u32 = frame[0] as u32;
    let b1: u32 = frame[1] as u32;
    let b2: u32 = frame[2] as u32;
    let b3: u32 = frame[3] as u32;
    Some(b0 + 0x100 * b1 + 0x1_0000 * b2 + 0x100_0000 * b3)
}

} // verus!
