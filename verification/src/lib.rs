//! Streaming encryption and decryption adapters.
//!
//! `EncryptWriter` turns plaintext writes into buffered ciphertext that a
//! caller drains into an underlying byte sink; `DecryptReader` turns
//! ciphertext fed from an underlying byte source into buffered plaintext
//! that a caller reads out incrementally. Both reconcile the cipher's
//! block-oriented update/finalize protocol with byte-oriented, partial I/O.

use vstd::prelude::*;

mod alg;
mod cipher;
mod decrypt;
mod encrypt;

pub use alg::CipherAlg;
pub use cipher::CryptoError;
pub use cipher::full_ciphertext;
pub use cipher::full_plaintext;
pub use cipher::final_block;
pub use cipher::transformed;
pub use cipher::iv_fits;
pub use cipher::iv_view;
pub use decrypt::DecryptReader;
pub use decrypt::lemma_delivered_is_full_plaintext;
pub use decrypt::lemma_plaintext_read_invariant;
pub use encrypt::EncryptWriter;
pub use encrypt::lemma_ciphertext_chunk_invariant;
pub use encrypt::lemma_empty_plaintext_is_one_final_block;
pub use encrypt::lemma_flushed_is_full_ciphertext;

verus! {

/// Law (round trip): the adapters neither lose nor alter a byte. Whenever
/// the cipher primitive inverts its own output — decrypting the full
/// ciphertext of a plaintext yields that plaintext back, which is the
/// primitive's own guarantee, not this layer's — a decrypting source fed
/// exactly the bytes an encrypting sink delivered gives the caller back
/// exactly the plaintext the sink accepted, once both sides are finalized
/// and drained.
pub proof fn lemma_round_trip(w: EncryptWriter, d: DecryptReader)
    requires
        w.wf(),
        d.wf(),
        !w.failed(),
        !d.failed(),
        w.finalized(),
        d.finalized(),
        w.pending().len() == 0,
        d.available().len() == 0,
        w.alg() == d.alg(),
        w.key() == d.key(),
        w.iv() == d.iv(),
        d.ciphertext() == w.flushed(),
        full_plaintext(w.alg(), w.key(), w.iv(), full_ciphertext(w.alg(), w.key(), w.iv(), w.plaintext()))
            == w.plaintext(),
    ensures
        d.delivered() == w.plaintext(),
{
    lemma_flushed_is_full_ciphertext(w);
    lemma_delivered_is_full_plaintext(d);
}

} // verus!
