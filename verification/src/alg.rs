//! Cipher algorithm selection and its block size.

use vstd::prelude::*;

verus! {

/// A symmetric block-cipher algorithm and mode of operation.
///
/// Each variant is backed by the matching OpenSSL cipher; the adapters only
/// need its block size, which is a fixed property of the algorithm.
#[derive(Clone, Copy, PartialEq, Eq, Structural, Debug)]
pub enum CipherAlg {
    /// AES with a 128-bit key in CBC mode.
    Aes128Cbc,
    /// AES with a 256-bit key in CBC mode.
    Aes256Cbc,
    /// AES with a 128-bit key in ECB mode.
    Aes128Ecb,
}

impl CipherAlg {
    /// The cipher's block size in bytes.
    pub open spec fn spec_block_size(self) -> nat {
        16
    }

    /// The cipher's block size in bytes (16 for every AES variant).
    pub fn block_size(&self) -> (n: usize)
        ensures
            n == self.spec_block_size(),
            n > 0,
    {
        16
    }

    /// Whether the mode of operation requires an initialization vector.
    pub open spec fn needs_iv(self) -> bool {
        !(self is Aes128Ecb)
    }

    /// Whether the mode of operation requires an initialization vector
    /// (every CBC variant does, ECB does not).
    pub fn iv_required(&self) -> (r: bool)
        ensures
            r == self.needs_iv(),
    {
        match self {
            CipherAlg::Aes128Ecb => false,
            _ => true,
        }
    }
}

} // verus!
