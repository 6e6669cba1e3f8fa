//! Public keys: the 32 raw bytes that identify a Nostr account.

use vstd::prelude::*;

verus! {

/// A Nostr account's public key, held as its 32 raw bytes.
#[derive(Clone, Copy, Debug)]
pub struct Pubkey {
    bytes: [u8; 32],
}

impl View for Pubkey {
    type V = Seq<u8>;

    closed spec fn view(&self) -> Seq<u8> {
        self.bytes@
    }
}

impl Pubkey {
    pub fn new(bytes: [u8; 32]) -> (pk: Pubkey)
        ensures
            pk@ == bytes@,
    {
        Pubkey { bytes }
    }

    pub fn bytes(&self) -> (b: &[u8; 32])
        ensures
            b@ == self@,
    {
        &self.bytes
    }
}

} // verus!
