//! The decrypting source adapter.
//!
//! `DecryptReader` is fed ciphertext pulled from an underlying byte source,
//! runs it through the cipher's update step, and buffers the resulting
//! plaintext, serving it to the caller incrementally (`read_out`). At end of
//! the underlying input the caller signals `finish`, which runs the cipher's
//! finalize step exactly once — an explicit guard keeps a repeated
//! end-of-input signal from finalizing twice.

use vstd::prelude::*;

use crate::alg::CipherAlg;
use crate::cipher::CipherStream;
use crate::cipher::CryptoError;
use crate::cipher::final_block;
use crate::cipher::full_plaintext;
use crate::cipher::iv_view;

verus! {

/// A source adapter that decrypts everything read through it.
///
/// The caller feeds ciphertext with `feed`, signals end of input with
/// `finish`, and reads the buffered plaintext out with `read_out`.
pub struct DecryptReader {
    stream: CipherStream,
    buf: Vec<u8>,
    read: usize,
    is_finalized: bool,
    failed: bool,
    delivered: Ghost<Seq<u8>>,
}

impl DecryptReader {
    /// The algorithm this reader decrypts with.
    pub closed spec fn alg(self) -> CipherAlg {
        self.stream.alg()
    }

    /// The key this reader decrypts with.
    pub closed spec fn key(self) -> Seq<u8> {
        self.stream.key()
    }

    /// The IV this reader decrypts with.
    pub closed spec fn iv(self) -> Option<Seq<u8>> {
        self.stream.iv()
    }

    /// All ciphertext fed so far.
    pub closed spec fn ciphertext(self) -> Seq<u8> {
        self.stream.fed()
    }

    /// Decrypted bytes buffered but not yet delivered to the caller.
    pub closed spec fn available(self) -> Seq<u8> {
        self.buf@.skip(self.read as int)
    }

    /// Decrypted bytes already delivered to the caller, in order.
    pub closed spec fn delivered(self) -> Seq<u8> {
        self.delivered@
    }

    /// Whether the cipher's finalize step has run (it runs at most once).
    pub closed spec fn finalized(self) -> bool {
        self.is_finalized
    }

    /// Whether a cipher step failed; the adapter is then terminal.
    pub closed spec fn failed(self) -> bool {
        self.failed
    }

    /// Every plaintext byte this reader has produced, delivered or not: the
    /// update outputs for the ciphertext fed so far, plus the final block
    /// once finalized.
    pub closed spec fn emitted(self) -> Seq<u8> {
        self.stream.out_so_far() + if self.finalized() {
            final_block(false, self.alg(), self.key(), self.iv(), self.ciphertext())
        } else {
            Seq::<u8>::empty()
        }
    }

    /// The adapter's invariant: the cursor stays inside the buffer, the
    /// cipher runs in the decrypt direction with finalize mirrored in the
    /// flag, and (until a cipher failure) the delivered and still-buffered
    /// bytes together are exactly the plaintext produced for the ciphertext
    /// fed so far.
    pub closed spec fn wf(self) -> bool {
        &&& self.read <= self.buf@.len()
        &&& !self.stream.is_encrypt()
        &&& self.stream.wf()
        &&& self.is_finalized == self.stream.finalized()
        &&& !self.failed ==> self.delivered() + self.available() == self.emitted()
    }

    /// The reader's transform parameters are unchanged.
    pub open spec fn same_params(self, other: DecryptReader) -> bool {
        &&& self.alg() == other.alg()
        &&& self.key() == other.key()
        &&& self.iv() == other.iv()
    }

    /// Creates a decrypting source adapter for the given algorithm, key and
    /// optional IV. Fails with `InvalidIv` exactly when the IV does not fit
    /// the algorithm, and with `Cipher` when the primitive rejects the key.
    pub fn new(alg: CipherAlg, key: &[u8], iv: Option<&[u8]>) -> (r: Result<
        DecryptReader,
        CryptoError,
    >)
        ensures
            match r {
                Ok(d) => {
                    &&& crate::cipher::iv_fits(alg, iv_view(iv))
                    &&& d.wf()
                    &&& d.alg() == alg
                    &&& d.key() == key@
                    &&& d.iv() == iv_view(iv)
                    &&& d.ciphertext() == Seq::<u8>::empty()
                    &&& d.available() == Seq::<u8>::empty()
                    &&& d.delivered() == Seq::<u8>::empty()
                    &&& !d.finalized()
                    &&& !d.failed()
                },
                Err(e) => e is InvalidIv <==> !crate::cipher::iv_fits(alg, iv_view(iv)),
            },
    {
        match CipherStream::new(alg, false, key, iv) {
            Ok(stream) => Ok(
                DecryptReader {
                    stream,
                    buf: Vec::new(),
                    read: 0,
                    is_finalized: false,
                    failed: false,
                    delivered: Ghost(Seq::empty()),
                },
            ),
            Err(e) => Err(e),
        }
    }

    /// How many decrypted bytes are buffered and ready to be read out.
    pub fn available_len(&self) -> (n: usize)
        requires
            self.wf(),
        ensures
            n == self.available().len(),
    {
        self.buf.len() - self.read
    }

    /// Whether the cipher's finalize step has already run.
    pub fn is_finalized(&self) -> (r: bool)
        ensures
            r == self.finalized(),
    {
        self.is_finalized
    }

    /// Whether a cipher step has failed; the adapter is then terminal.
    pub fn has_failed(&self) -> (r: bool)
        ensures
            r == self.failed(),
    {
        self.failed
    }

    /// Whether the stream has ended: the input was finalized and every
    /// decrypted byte was delivered. A read at end of stream returns no
    /// bytes.
    pub fn is_eof(&self) -> (r: bool)
        requires
            self.wf(),
        ensures
            r == (self.finalized() && self.available().len() == 0),
    {
        self.is_finalized && self.read == self.buf.len()
    }

    /// Delivers up to `max` buffered decrypted bytes: the longest prefix of
    /// the buffered bytes that fits, without suspension and without touching
    /// the cipher. No byte is lost, duplicated or reordered.
    pub fn read_out(&mut self, max: usize) -> (r: Vec<u8>)
        requires
            old(self).wf(),
        ensures
            final(self).wf(),
            old(self).same_params(*final(self)),
            r@ == (if max <= old(self).available().len() {
                old(self).available().take(max as int)
            } else {
                old(self).available()
            }),
            final(self).available() == (if max <= old(self).available().len() {
                old(self).available().skip(max as int)
            } else {
                Seq::<u8>::empty()
            }),
            final(self).delivered() == old(self).delivered() + r@,
            final(self).ciphertext() == old(self).ciphertext(),
            final(self).finalized() == old(self).finalized(),
            final(self).failed() == old(self).failed(),
    {
        let len = self.buf.len();
        let avail = len - self.read;
        let k = if max <= avail {
            max
        } else {
            avail
        };
        let out = vstd::slice::slice_to_vec(
            vstd::slice::slice_subrange(self.buf.as_slice(), self.read, self.read + k),
        );
        proof {
            assert(out@ =~= (if max <= old(self).available().len() {
                old(self).available().take(max as int)
            } else {
                old(self).available()
            }));
        }
        self.delivered = Ghost(self.delivered@ + out@);
        self.read = self.read + k;
        if self.read == len {
            self.buf.clear();
            self.read = 0;
        }
        proof {
            assert(self.available() =~= old(self).available().skip(k as int));
            if max > old(self).available().len() {
                assert(self.available() =~= Seq::<u8>::empty());
            }
            assert(self.delivered() + self.available() =~= old(self).delivered() + old(
                self,
            ).available());
        }
        out
    }

    /// Accepts the next chunk of ciphertext pulled from the underlying
    /// source: runs the cipher's update step over all of it and replaces
    /// the exhausted buffer with the resulting plaintext. Requires every
    /// previously decrypted byte to have been read out first, and the
    /// stream neither finalized nor failed.
    ///
    /// On success, the bytes delivered so far plus the newly buffered
    /// plaintext are exactly the cipher's output for all ciphertext fed so
    /// far. On failure the adapter is terminal.
    pub fn feed(&mut self, data: &[u8]) -> (r: Result<(), CryptoError>)
        requires
            old(self).wf(),
            old(self).available().len() == 0,
            !old(self).finalized(),
            !old(self).failed(),
            data@.len() + old(self).alg().spec_block_size() <= 0x7fff_ffff,
        ensures
            final(self).wf(),
            old(self).same_params(*final(self)),
            final(self).delivered() == old(self).delivered(),
            !final(self).finalized(),
            match r {
                Ok(_) => {
                    &&& !final(self).failed()
                    &&& final(self).ciphertext() == old(self).ciphertext() + data@
                    &&& final(self).delivered() + final(self).available()
                        == crate::cipher::transformed(
                        false,
                        old(self).alg(),
                        old(self).key(),
                        old(self).iv(),
                        final(self).ciphertext(),
                    )
                },
                Err(_) => final(self).failed(),
            },
    {
        match self.stream.update(data) {
            Ok(out) => {
                self.buf = out;
                self.read = 0;
                proof {
                    assert(self.available() =~= self.buf@);
                    assert(old(self).delivered() + old(self).available() =~= old(
                        self,
                    ).delivered());
                    assert(self.delivered() + self.available() =~= self.emitted());
                }
                Ok(())
            },
            Err(e) => {
                self.failed = true;
                Err(e)
            },
        }
    }

    /// Signals end of the underlying input: runs the cipher's finalize step
    /// exactly once, replacing the exhausted buffer with the final plaintext
    /// bytes (padding removed). A repeated end-of-input signal leaves the
    /// reader exactly as it was, so a transiently reappearing source cannot
    /// finalize twice.
    pub fn finish(&mut self) -> (r: Result<(), CryptoError>)
        requires
            old(self).wf(),
            old(self).available().len() == 0,
            !old(self).failed(),
        ensures
            final(self).wf(),
            old(self).same_params(*final(self)),
            final(self).delivered() == old(self).delivered(),
            final(self).ciphertext() == old(self).ciphertext(),
            match r {
                Ok(_) => {
                    &&& !final(self).failed()
                    &&& final(self).finalized()
                    &&& old(self).finalized() ==> *final(self) == *old(self)
                    &&& !old(self).finalized() ==> final(self).available() == final_block(
                        false,
                        old(self).alg(),
                        old(self).key(),
                        old(self).iv(),
                        old(self).ciphertext(),
                    )
                },
                Err(_) => final(self).failed(),
            },
    {
        if self.is_finalized {
            return Ok(());
        }
        match self.stream.finalize() {
            Ok(out) => {
                self.buf = out;
                self.read = 0;
                self.is_finalized = true;
                proof {
                    assert(self.available() =~= self.buf@);
                    assert(old(self).delivered() + old(self).available() =~= old(
                        self,
                    ).delivered());
                    assert(self.delivered() + self.available() =~= self.emitted());
                }
                Ok(())
            },
            Err(e) => {
                self.failed = true;
                self.is_finalized = true;
                Err(e)
            },
        }
    }
}

/// Law: the plaintext a decrypting source delivers is a function of the
/// algorithm, key, IV and the ciphertext fed alone. Once the input has
/// ended (finalize has run) and every buffered byte was read out, the bytes
/// delivered to the caller are exactly `full_plaintext` of the ciphertext —
/// however the source fragmented the input and however the caller sized its
/// reads.
pub proof fn lemma_delivered_is_full_plaintext(d: DecryptReader)
    requires
        d.wf(),
        !d.failed(),
        d.finalized(),
        d.available().len() == 0,
    ensures
        d.delivered() == full_plaintext(d.alg(), d.key(), d.iv(), d.ciphertext()),
{
    assert(d.delivered() =~= d.delivered() + d.available());
}

/// Law (partial-I/O robustness on the read side): two decrypting sources
/// with the same algorithm, key and IV that were fed the same ciphertext
/// deliver byte-identical plaintext once the input has ended and every byte
/// was read out, no matter how the feeding was fragmented or how the reads
/// were sized.
pub proof fn lemma_plaintext_read_invariant(a: DecryptReader, b: DecryptReader)
    requires
        a.wf(),
        b.wf(),
        !a.failed(),
        !b.failed(),
        a.finalized(),
        b.finalized(),
        a.available().len() == 0,
        b.available().len() == 0,
        a.alg() == b.alg(),
        a.key() == b.key(),
        a.iv() == b.iv(),
        a.ciphertext() == b.ciphertext(),
    ensures
        a.delivered() == b.delivered(),
{
    lemma_delivered_is_full_plaintext(a);
    lemma_delivered_is_full_plaintext(b);
}

} // verus!
