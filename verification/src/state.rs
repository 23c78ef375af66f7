//! The persisted state: a single unsigned 32-bit counter, stored as exactly
//! four little-endian bytes with no padding and no header.

use vstd::prelude::*;

use crate::error::ProgramError;

verus! {

/// The counter value encoded by four little-endian bytes: the first byte is
/// the least significant.
pub open spec fn u32_from_le(b: Seq<u8>) -> u32
    recommends
        b.len() == 4,
{
    (b[0] + b[1] * 0x100 + b[2] * 0x10000 + b[3] * 0x1000000) as u32
}

/// The four little-endian bytes that encode a counter value.
pub open spec fn u32_to_le(x: u32) -> Seq<u8> {
    seq![
        (x % 0x100) as u8,
        ((x / 0x100) % 0x100) as u8,
        ((x / 0x10000) % 0x100) as u8,
        ((x / 0x1000000) % 0x100) as u8,
    ]
}

/// Encoding a counter and decoding the bytes again gives the counter back.
pub proof fn lemma_le_round_trip(x: u32)
    ensures
        u32_from_le(u32_to_le(x)) == x,
{
    let w0: u32 = (x % 0x100) as u32;
    let w1: u32 = ((x / 0x100) % 0x100) as u32;
    let w2: u32 = ((x / 0x10000) % 0x100) as u32;
    let w3: u32 = ((x / 0x1000000) % 0x100) as u32;
    assert(w0 + w1 * 0x100 + w2 * 0x10000 + w3 * 0x1000000 == x) by (bit_vector)
        requires
            w0 == x % 0x100,
            w1 == (x / 0x100) % 0x100,
            w2 == (x / 0x10000) % 0x100,
            w3 == (x / 0x1000000) % 0x100,
    ;
}

/// The persisted account state: the number of greetings so far.
#[derive(Clone, Copy, Debug, PartialEq, Eq, Structural)]
pub struct GreetingAccount {
    /// How many greetings the account has recorded.
    pub counter: u32,
}

impl GreetingAccount {
    /// Parse an account's stored bytes. Succeeds exactly on a four-byte
    /// buffer, whose little-endian value becomes the counter.
    pub fn try_from_slice(data: &[u8]) -> (r: Result<GreetingAccount, ProgramError>)
        ensures
            data@.len() == 4 ==> (r matches Ok(g) && g.counter == u32_from_le(data@)),
            data@.len() != 4 ==> r == Err::<GreetingAccount, ProgramError>(
                ProgramError::BorshIoError,
            ),
    {
        if data.len() != 4 {
            return Err(ProgramError::BorshIoError);
        }
        let counter: u32 = (data[0] as u32) + (data[1] as u32) * 0x100 + (data[2] as u32) * 0x10000
            + (data[3] as u32) * 0x1000000;
        Ok(GreetingAccount { counter })
    }

    /// Encode the counter as its four little-endian bytes.
    pub fn serialize(&self) -> (r: Vec<u8>)
        ensures
            r@ == u32_to_le(self.counter),
    {
        let mut out: Vec<u8> = Vec::new();
        out.push((self.counter % 0x100) as u8);
        out.push(((self.counter / 0x100) % 0x100) as u8);
        out.push(((self.counter / 0x10000) % 0x100) as u8);
        out.push(((self.counter / 0x1000000) % 0x100) as u8);
        proof {
            assert(out@ =~= u32_to_le(self.counter));
        }
        out
    }
}

} // verus!
