//! The caller-facing account model: an identity and a mutable byte buffer.

use vstd::prelude::*;

verus! {

/// A program or account identity: an opaque fixed-size identifier, compared
/// only for equality. The conventional identity is 32 bytes long.
#[derive(Debug)]
pub struct Pubkey {
    /// The identifier's raw bytes.
    pub bytes: Vec<u8>,
}

impl View for Pubkey {
    type V = Seq<u8>;

    open spec fn view(&self) -> Seq<u8> {
        self.bytes@
    }
}

impl Pubkey {
    /// Wrap raw identifier bytes.
    pub fn new(bytes: Vec<u8>) -> (r: Pubkey)
        ensures
            r@ == bytes@,
    {
        Pubkey { bytes }
    }

    /// Whether two identities are the same, byte for byte.
    pub fn eq_key(&self, other: &Pubkey) -> (r: bool)
        ensures
            r == (self@ == other@),
    {
        if self.bytes.len() != other.bytes.len() {
            return false;
        }
        let mut i: usize = 0;
        while i < self.bytes.len()
            invariant
                i <= self.bytes.len(),
                self.bytes.len() == other.bytes.len(),
                forall|j: int| 0 <= j < i ==> self.bytes@[j] == other.bytes@[j],
            decreases self.bytes.len() - i,
        {
            if self.bytes[i] != other.bytes[i] {
                return false;
            }
            i += 1;
        }
        proof {
            assert(self.bytes@ =~= other.bytes@);
        }
        true
    }
}

impl Default for Pubkey {
    /// The all-zero 32-byte identity.
    fn default() -> (r: Pubkey)
        ensures
            r@.len() == 32,
            forall|i: int| 0 <= i < 32 ==> r@[i] == 0u8,
    {
        let mut bytes: Vec<u8> = Vec::new();
        let mut i: usize = 0;
        while i < 32
            invariant
                i <= 32,
                bytes@.len() == i,
                forall|j: int| 0 <= j < i ==> bytes@[j] == 0u8,
            decreases 32 - i,
        {
            bytes.push(0u8);
            i += 1;
        }
        Pubkey { bytes }
    }
}

/// One account as the program sees it: the identity that owns it and its
/// persisted byte storage. The runtime metadata the program never reads is
/// left out.
#[derive(Debug)]
pub struct Account {
    /// The identity recorded as the account's owner.
    pub owner: Pubkey,
    /// The account's persisted byte buffer.
    pub data: Vec<u8>,
}

} // verus!
