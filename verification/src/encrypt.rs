//! The encrypting sink adapter.
//!
//! `EncryptWriter` accepts plaintext writes, runs them through the cipher's
//! update step, and buffers the resulting ciphertext. The caller drains the
//! buffer into the underlying sink at whatever pace the sink accepts
//! (`pending_slice` / `record_written`), tolerating partial writes, and runs
//! the cipher's finalize step exactly once at shutdown.

use vstd::prelude::*;

use crate::alg::CipherAlg;
use crate::cipher::CipherStream;
use crate::cipher::CryptoError;
use crate::cipher::final_block;
use crate::cipher::full_ciphertext;
use crate::cipher::iv_view;

verus! {

/// A sink adapter that encrypts everything written through it.
///
/// The caller writes plaintext with `write`, drains the buffered ciphertext
/// with `pending_slice` / `record_written`, and closes the stream with
/// `finalize`, which appends the cipher's final padded block exactly once.
pub struct EncryptWriter {
    stream: CipherStream,
    buf: Vec<u8>,
    written: usize,
    is_finalized: bool,
    failed: bool,
    flushed: Ghost<Seq<u8>>,
}

impl EncryptWriter {
    /// The algorithm this writer encrypts with.
    pub closed spec fn alg(self) -> CipherAlg {
        self.stream.alg()
    }

    /// The key this writer encrypts with.
    pub closed spec fn key(self) -> Seq<u8> {
        self.stream.key()
    }

    /// The IV this writer encrypts with.
    pub closed spec fn iv(self) -> Option<Seq<u8>> {
        self.stream.iv()
    }

    /// All plaintext accepted so far.
    pub closed spec fn plaintext(self) -> Seq<u8> {
        self.stream.fed()
    }

    /// Ciphertext produced but not yet drained to the underlying sink.
    pub closed spec fn pending(self) -> Seq<u8> {
        self.buf@.skip(self.written as int)
    }

    /// Ciphertext already handed to the underlying sink, in order.
    pub closed spec fn flushed(self) -> Seq<u8> {
        self.flushed@
    }

    /// Whether the cipher's finalize step has run (it runs at most once).
    pub closed spec fn finalized(self) -> bool {
        self.is_finalized
    }

    /// Whether a cipher step failed; the adapter is then terminal.
    pub closed spec fn failed(self) -> bool {
        self.failed
    }

    /// Every byte of ciphertext this writer has produced, drained or not:
    /// the update outputs for the accepted plaintext, plus the final block
    /// once finalized.
    pub closed spec fn emitted(self) -> Seq<u8> {
        self.stream.out_so_far() + if self.finalized() {
            final_block(true, self.alg(), self.key(), self.iv(), self.plaintext())
        } else {
            Seq::<u8>::empty()
        }
    }

    /// The adapter's invariant: the cursor stays inside the buffer, the
    /// cipher runs in the encrypt direction with finalize mirrored in the
    /// flag, and (until a cipher failure) the drained and pending bytes
    /// together are exactly the ciphertext produced for the accepted
    /// plaintext.
    pub closed spec fn wf(self) -> bool {
        &&& self.written <= self.buf@.len()
        &&& self.stream.is_encrypt()
        &&& self.stream.wf()
        &&& self.is_finalized == self.stream.finalized()
        &&& !self.failed ==> self.flushed() + self.pending() == self.emitted()
    }

    /// The writer's transform parameters are unchanged.
    pub open spec fn same_params(self, other: EncryptWriter) -> bool {
        &&& self.alg() == other.alg()
        &&& self.key() == other.key()
        &&& self.iv() == other.iv()
    }

    /// Creates an encrypting sink adapter for the given algorithm, key and
    /// optional IV. Fails with `InvalidIv` exactly when the IV does not fit
    /// the algorithm, and with `Cipher` when the primitive rejects the key.
    pub fn new(alg: CipherAlg, key: &[u8], iv: Option<&[u8]>) -> (r: Result<
        EncryptWriter,
        CryptoError,
    >)
        ensures
            match r {
                Ok(w) => {
                    &&& crate::cipher::iv_fits(alg, iv_view(iv))
                    &&& w.wf()
                    &&& w.alg() == alg
                    &&& w.key() == key@
                    &&& w.iv() == iv_view(iv)
                    &&& w.plaintext() == Seq::<u8>::empty()
                    &&& w.pending() == Seq::<u8>::empty()
                    &&& w.flushed() == Seq::<u8>::empty()
                    &&& !w.finalized()
                    &&& !w.failed()
                },
                Err(e) => e is InvalidIv <==> !crate::cipher::iv_fits(alg, iv_view(iv)),
            },
    {
        match CipherStream::new(alg, true, key, iv) {
            Ok(stream) => Ok(
                EncryptWriter {
                    stream,
                    buf: Vec::new(),
                    written: 0,
                    is_finalized: false,
                    failed: false,
                    flushed: Ghost(Seq::empty()),
                },
            ),
            Err(e) => Err(e),
        }
    }

    /// How many buffered ciphertext bytes still await draining.
    pub fn pending_len(&self) -> (n: usize)
        requires
            self.wf(),
        ensures
            n == self.pending().len(),
    {
        self.buf.len() - self.written
    }

    /// The buffered ciphertext that still awaits draining: the caller
    /// offers (a prefix of) it to the underlying sink and reports how much
    /// was accepted with `record_written`.
    pub fn pending_slice(&self) -> (b: &[u8])
        requires
            self.wf(),
        ensures
            b@ == self.pending(),
    {
        let b = vstd::slice::slice_subrange(self.buf.as_slice(), self.written, self.buf.len());
        proof {
            assert(b@ =~= self.pending());
        }
        b
    }

    /// Records that the underlying sink accepted the first `n` pending
    /// bytes: the cursor advances, no byte is lost and none is re-sent.
    /// Once everything pending is drained the buffer is reset.
    pub fn record_written(&mut self, n: usize)
        requires
            old(self).wf(),
            n <= old(self).pending().len(),
        ensures
            final(self).wf(),
            old(self).same_params(*final(self)),
            final(self).flushed() == old(self).flushed() + old(self).pending().take(n as int),
            final(self).pending() == old(self).pending().skip(n as int),
            final(self).plaintext() == old(self).plaintext(),
            final(self).finalized() == old(self).finalized(),
            final(self).failed() == old(self).failed(),
    {
        proof {
            assert(old(self).pending().take(n as int) =~= self.buf@.subrange(
                self.written as int,
                self.written + n,
            ));
        }
        self.flushed = Ghost(self.flushed@ + self.buf@.subrange(
            self.written as int,
            self.written + n,
        ));
        let len = self.buf.len();
        self.written = self.written + n;
        if self.written == len {
            self.buf.clear();
            self.written = 0;
        }
        proof {
            assert(self.pending() =~= old(self).pending().skip(n as int));
            assert(self.flushed() + self.pending() =~= old(self).flushed() + old(self).pending());
        }
    }

    /// Whether the ciphertext buffer is fully drained; only then may new
    /// plaintext be written.
    pub fn is_drained(&self) -> (r: bool)
        requires
            self.wf(),
        ensures
            r == (self.pending().len() == 0),
    {
        self.written == self.buf.len()
    }

    /// Accepts a full plaintext slice: runs the cipher's update step over
    /// all of it (the update is atomic over its input — no partial
    /// acceptance) and replaces the drained buffer with the resulting
    /// ciphertext. Requires the previous buffer to be fully drained and the
    /// stream neither finalized nor failed.
    ///
    /// On success the whole input is accepted, and the bytes drained so far
    /// plus the new pending ciphertext are exactly the cipher's output for
    /// all plaintext accepted so far. On failure the adapter is terminal.
    pub fn write(&mut self, data: &[u8]) -> (r: Result<usize, CryptoError>)
        requires
            old(self).wf(),
            old(self).pending().len() == 0,
            !old(self).finalized(),
            !old(self).failed(),
            data@.len() + old(self).alg().spec_block_size() <= 0x7fff_ffff,
        ensures
            final(self).wf(),
            old(self).same_params(*final(self)),
            final(self).flushed() == old(self).flushed(),
            !final(self).finalized(),
            match r {
                Ok(n) => {
                    &&& n == data@.len()
                    &&& !final(self).failed()
                    &&& final(self).plaintext() == old(self).plaintext() + data@
                    &&& final(self).flushed() + final(self).pending() == crate::cipher::transformed(
                        true,
                        old(self).alg(),
                        old(self).key(),
                        old(self).iv(),
                        final(self).plaintext(),
                    )
                },
                Err(_) => final(self).failed(),
            },
    {
        match self.stream.update(data) {
            Ok(out) => {
                self.buf = out;
                self.written = 0;
                proof {
                    assert(self.pending() =~= self.buf@);
                    assert(old(self).flushed() + old(self).pending() =~= old(self).flushed());
                    assert(self.flushed() + self.pending() =~= self.emitted());
                }
                Ok(data.len())
            },
            Err(e) => {
                self.failed = true;
                Err(e)
            },
        }
    }

    /// Whether the cipher's finalize step has already run.
    pub fn is_finalized(&self) -> (r: bool)
        ensures
            r == self.finalized(),
    {
        self.is_finalized
    }

    /// Whether a cipher step has failed; the adapter is then terminal.
    pub fn has_failed(&self) -> (r: bool)
        ensures
            r == self.failed(),
    {
        self.failed
    }

    /// Runs the cipher's finalize step exactly once: the first call appends
    /// the final, possibly padded, block to the pending buffer and sets the
    /// finalized flag; every later call leaves the adapter exactly as it
    /// was. The caller drains the buffer afterwards.
    pub fn finalize(&mut self) -> (r: Result<(), CryptoError>)
        requires
            old(self).wf(),
            !old(self).failed(),
        ensures
            final(self).wf(),
            old(self).same_params(*final(self)),
            final(self).flushed() == old(self).flushed(),
            final(self).plaintext() == old(self).plaintext(),
            match r {
                Ok(_) => {
                    &&& !final(self).failed()
                    &&& final(self).finalized()
                    &&& old(self).finalized() ==> *final(self) == *old(self)
                    &&& !old(self).finalized() ==> final(self).pending() == old(self).pending()
                        + final_block(
                        true,
                        old(self).alg(),
                        old(self).key(),
                        old(self).iv(),
                        old(self).plaintext(),
                    )
                },
                Err(_) => final(self).failed(),
            },
    {
        if self.is_finalized {
            return Ok(());
        }
        match self.stream.finalize() {
            Ok(mut out) => {
                self.buf.append(&mut out);
                self.is_finalized = true;
                proof {
                    assert(self.pending() =~= old(self).pending() + final_block(
                        true,
                        old(self).alg(),
                        old(self).key(),
                        old(self).iv(),
                        old(self).plaintext(),
                    ));
                    assert(self.flushed() + self.pending() =~= self.emitted());
                }
                Ok(())
            },
            Err(e) => {
                self.failed = true;
                self.is_finalized = true;
                Err(e)
            },
        }
    }
}

/// Law: the ciphertext an encrypting sink delivers is a function of the
/// algorithm, key, IV and accepted plaintext alone. Once the stream is
/// finalized and fully drained, the bytes handed to the underlying sink are
/// exactly `full_ciphertext` of the accepted plaintext — however the
/// plaintext was split into writes and however the sink fragmented the
/// drain.
pub proof fn lemma_flushed_is_full_ciphertext(w: EncryptWriter)
    requires
        w.wf(),
        !w.failed(),
        w.finalized(),
        w.pending().len() == 0,
    ensures
        w.flushed() == full_ciphertext(w.alg(), w.key(), w.iv(), w.plaintext()),
{
    assert(w.flushed() =~= w.flushed() + w.pending());
}

/// Law (chunk-invariance and partial-I/O robustness): two encrypting sinks
/// with the same algorithm, key and IV that accepted the same plaintext
/// deliver byte-identical ciphertext once finalized and fully drained, no
/// matter how the writes were chunked or how the underlying sinks
/// fragmented the drain.
pub proof fn lemma_ciphertext_chunk_invariant(a: EncryptWriter, b: EncryptWriter)
    requires
        a.wf(),
        b.wf(),
        !a.failed(),
        !b.failed(),
        a.finalized(),
        b.finalized(),
        a.pending().len() == 0,
        b.pending().len() == 0,
        a.alg() == b.alg(),
        a.key() == b.key(),
        a.iv() == b.iv(),
        a.plaintext() == b.plaintext(),
    ensures
        a.flushed() == b.flushed(),
{
    lemma_flushed_is_full_ciphertext(a);
    lemma_flushed_is_full_ciphertext(b);
}

/// Law (zero-length input): an encrypting sink that accepted no plaintext
/// delivers, once finalized and fully drained, exactly one finalize block
/// and nothing else.
pub proof fn lemma_empty_plaintext_is_one_final_block(w: EncryptWriter)
    requires
        w.wf(),
        !w.failed(),
        w.finalized(),
        w.pending().len() == 0,
        w.plaintext() == Seq::<u8>::empty(),
    ensures
        w.flushed() == final_block(true, w.alg(), w.key(), w.iv(), Seq::<u8>::empty()),
{
    lemma_flushed_is_full_ciphertext(w);
    assert(w.flushed() =~= final_block(true, w.alg(), w.key(), w.iv(), Seq::<u8>::empty()));
}

} // verus!
