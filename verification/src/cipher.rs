//! A running cipher transform with exactly-once finalization.
//!
//! `CipherStream` owns an OpenSSL crypter together with a ghost record of
//! the bytes fed through it so far. The trusted contracts below state the
//! one fact the adapters build on: for a fixed algorithm, direction, key and
//! IV, the bytes a crypter has produced are a function of the bytes it has
//! been fed, and each `update` call returns exactly the newly produced
//! suffix of that stream.

use vstd::prelude::*;

use crate::alg::CipherAlg;

verus! {

#[verifier::external_type_specification]
#[verifier::external_body]
pub struct ExCrypter(openssl::symm::Crypter);

#[verifier::external_type_specification]
#[verifier::external_body]
pub struct ExErrorStack(openssl::error::ErrorStack);

/// The bytes a crypter running in the given direction, with the given
/// algorithm, key and IV, has produced after being fed exactly `fed`
/// through `update` calls (the concatenation of every `update` output).
pub uninterp spec fn transformed(
    encrypt: bool,
    alg: CipherAlg,
    key: Seq<u8>,
    iv: Option<Seq<u8>>,
    fed: Seq<u8>,
) -> Seq<u8>;

/// The bytes the crypter's `finalize` call produces after it has been fed
/// exactly `fed`: the final, possibly padded, block.
pub uninterp spec fn final_block(
    encrypt: bool,
    alg: CipherAlg,
    key: Seq<u8>,
    iv: Option<Seq<u8>>,
    fed: Seq<u8>,
) -> Seq<u8>;

/// The complete ciphertext an encrypting stream produces for plaintext `pt`:
/// every `update` output followed by the `finalize` output.
pub open spec fn full_ciphertext(
    alg: CipherAlg,
    key: Seq<u8>,
    iv: Option<Seq<u8>>,
    pt: Seq<u8>,
) -> Seq<u8> {
    transformed(true, alg, key, iv, pt) + final_block(true, alg, key, iv, pt)
}

/// The complete plaintext a decrypting stream produces for ciphertext `ct`:
/// every `update` output followed by the `finalize` output (padding removed).
pub open spec fn full_plaintext(
    alg: CipherAlg,
    key: Seq<u8>,
    iv: Option<Seq<u8>>,
    ct: Seq<u8>,
) -> Seq<u8> {
    transformed(false, alg, key, iv, ct) + final_block(false, alg, key, iv, ct)
}

/// The mathematical view of an optional IV argument.
pub open spec fn iv_view(iv: Option<&[u8]>) -> Option<Seq<u8>> {
    match iv {
        Some(v) => Some(v@),
        None => None,
    }
}

/// A cipher failure. A setup failure is surfaced at adapter construction
/// (the adapter is not created); a transform failure is terminal for the
/// adapter that reports it: callers must discard it.
#[derive(Debug)]
pub enum CryptoError {
    /// The cipher mode requires a block-sized IV and got none, or a
    /// mis-sized one.
    InvalidIv,
    /// The cipher primitive reported a failure (bad key length, bad
    /// padding, or an internal error), carried as the OpenSSL error stack.
    Cipher(openssl::error::ErrorStack),
}

/// Whether the given IV fits the algorithm: where the mode needs an IV, one
/// must be present and exactly a block long.
pub open spec fn iv_fits(alg: CipherAlg, iv: Option<Seq<u8>>) -> bool {
    match iv {
        Some(v) => v.len() == alg.spec_block_size() || !alg.needs_iv(),
        None => !alg.needs_iv(),
    }
}

/// A cipher primitive with its running state: the OpenSSL crypter plus the
/// ghost history of what has been fed through it.
pub struct CipherStream {
    crypter: openssl::symm::Crypter,
    alg: CipherAlg,
    encrypt: Ghost<bool>,
    key: Ghost<Seq<u8>>,
    iv: Ghost<Option<Seq<u8>>>,
    fed: Ghost<Seq<u8>>,
    finalized: Ghost<bool>,
}

impl CipherStream {
    /// The algorithm this stream runs.
    pub closed spec fn alg(self) -> CipherAlg {
        self.alg
    }

    /// Whether this stream encrypts (`true`) or decrypts (`false`).
    pub closed spec fn is_encrypt(self) -> bool {
        self.encrypt@
    }

    /// The key the stream was created with.
    pub closed spec fn key(self) -> Seq<u8> {
        self.key@
    }

    /// The IV the stream was created with.
    pub closed spec fn iv(self) -> Option<Seq<u8>> {
        self.iv@
    }

    /// All bytes fed through `update` so far.
    pub closed spec fn fed(self) -> Seq<u8> {
        self.fed@
    }

    /// Whether `finalize` has been run on this stream.
    pub closed spec fn finalized(self) -> bool {
        self.finalized@
    }

    /// All bytes the stream's `update` calls have produced so far.
    pub open spec fn out_so_far(self) -> Seq<u8> {
        transformed(self.is_encrypt(), self.alg(), self.key(), self.iv(), self.fed())
    }

    /// A fresh stream has produced nothing; carried from construction so
    /// that callers can relate `out_so_far` to an empty history.
    pub open spec fn wf(self) -> bool {
        transformed(self.is_encrypt(), self.alg(), self.key(), self.iv(), Seq::<u8>::empty())
            == Seq::<u8>::empty()
    }

    /// Whether `self` and `other` run the same transform: same algorithm,
    /// direction, key and IV.
    pub open spec fn same_transform(self, other: CipherStream) -> bool {
        &&& self.alg() == other.alg()
        &&& self.is_encrypt() == other.is_encrypt()
        &&& self.key() == other.key()
        &&& self.iv() == other.iv()
    }

    /// The identity of the transform is unchanged: same algorithm,
    /// direction, key and IV, and `wf` kept.
    pub open spec fn keeps_identity(self, other: CipherStream) -> bool {
        &&& self.same_transform(other)
        &&& (self.wf() ==> other.wf())
    }

    /// Creates a cipher stream for the given direction.
    ///
    /// Fails with `InvalidIv` exactly when the IV does not fit the chosen
    /// algorithm, and with `Cipher` when the primitive rejects the key.
    pub fn new(alg: CipherAlg, encrypt: bool, key: &[u8], iv: Option<&[u8]>) -> (r: Result<
        CipherStream,
        CryptoError,
    >)
        ensures
            match r {
                Ok(s) => {
                    &&& iv_fits(alg, iv_view(iv))
                    &&& s.wf()
                    &&& s.alg() == alg
                    &&& s.is_encrypt() == encrypt
                    &&& s.key() == key@
                    &&& s.iv() == iv_view(iv)
                    &&& s.fed() == Seq::<u8>::empty()
                    &&& !s.finalized()
                    &&& s.out_so_far() == Seq::<u8>::empty()
                },
                Err(e) => e is InvalidIv <==> !iv_fits(alg, iv_view(iv)),
            },
    {
        let fits = match iv {
            Some(v) => v.len() == alg.block_size() || !alg.iv_required(),
            None => !alg.iv_required(),
        };
        if !fits {
            return Err(CryptoError::InvalidIv);
        }
        match raw_new(alg, encrypt, key, iv) {
            Ok(crypter) => Ok(
                CipherStream {
                    crypter,
                    alg,
                    encrypt: Ghost(encrypt),
                    key: Ghost(key@),
                    iv: Ghost(iv_view(iv)),
                    fed: Ghost(Seq::empty()),
                    finalized: Ghost(false),
                },
            ),
            Err(stack) => Err(CryptoError::Cipher(stack)),
        }
    }

    /// Feeds `input` through the cipher and returns the bytes it produced:
    /// exactly the new suffix of the stream's output.
    ///
    /// On failure the stream's output history is no longer tracked; the
    /// caller must treat the stream as terminal.
    pub fn update(&mut self, input: &[u8]) -> (r: Result<Vec<u8>, CryptoError>)
        requires
            !old(self).finalized(),
            input@.len() + old(self).alg().spec_block_size() <= 0x7fff_ffff,
        ensures
            old(self).keeps_identity(*final(self)),
            !final(self).finalized(),
            match r {
                Ok(out) => {
                    &&& final(self).fed() == old(self).fed() + input@
                    &&& final(self).out_so_far() == old(self).out_so_far() + out@
                },
                Err(_) => true,
            },
    {
        let bs = self.alg.block_size();
        let mut out = zero_vec(input.len() + bs);
        match raw_update(self, input, &mut out) {
            Ok(n) => {
                out.truncate(n);
                Ok(out)
            },
            Err(stack) => Err(CryptoError::Cipher(stack)),
        }
    }

    /// Runs the cipher's terminal `finalize` step and returns the final,
    /// possibly padded, block. May be called only once over the stream's
    /// lifetime, and no `update` may follow it.
    pub fn finalize(&mut self) -> (r: Result<Vec<u8>, CryptoError>)
        requires
            !old(self).finalized(),
        ensures
            old(self).keeps_identity(*final(self)),
            final(self).finalized(),
            final(self).fed() == old(self).fed(),
            match r {
                Ok(out) => {
                    &&& out@ == final_block(
                        old(self).is_encrypt(),
                        old(self).alg(),
                        old(self).key(),
                        old(self).iv(),
                        old(self).fed(),
                    )
                },
                Err(_) => true,
            },
    {
        let bs = self.alg.block_size();
        let mut out = zero_vec(bs);
        match raw_finalize(self, &mut out) {
            Ok(n) => {
                out.truncate(n);
                Ok(out)
            },
            Err(stack) => Err(CryptoError::Cipher(stack)),
        }
    }
}

/// A vector of `n` zero bytes.
fn zero_vec(n: usize) -> (v: Vec<u8>)
    ensures
        v@.len() == n,
{
    let mut v: Vec<u8> = Vec::new();
    while v.len() < n
        invariant
            v@.len() <= n,
        decreases n - v@.len(),
    {
        v.push(0);
    }
    v
}

/// Relies on `openssl::symm::Crypter::new`: builds a cipher context for the
/// given algorithm, direction, key and IV, and fails when the key length
/// does not fit the cipher. It panics when a cipher that needs an IV gets
/// none or a short one, which the precondition rules out. A fresh context
/// has produced no output.
#[verifier::external_body]
fn raw_new(alg: CipherAlg, encrypt: bool, key: &[u8], iv: Option<&[u8]>) -> (r: Result<
    openssl::symm::Crypter,
    openssl::error::ErrorStack,
>)
    requires
        iv_fits(alg, iv_view(iv)),
    ensures
        r is Ok ==> transformed(encrypt, alg, key@, iv_view(iv), Seq::<u8>::empty())
            == Seq::<u8>::empty(),
{
    let cipher = match alg {
        CipherAlg::Aes128Cbc => openssl::symm::Cipher::aes_128_cbc(),
        CipherAlg::Aes256Cbc => openssl::symm::Cipher::aes_256_cbc(),
        CipherAlg::Aes128Ecb => openssl::symm::Cipher::aes_128_ecb(),
    };
    let mode = if encrypt {
        openssl::symm::Mode::Encrypt
    } else {
        openssl::symm::Mode::Decrypt
    };
    openssl::symm::Crypter::new(cipher, mode, key, iv)
}

/// Relies on `openssl::symm::Crypter::update`: feeds `input` through the
/// cipher and writes the produced bytes into `out`, returning their count.
/// The bytes produced so far are a deterministic function of the algorithm,
/// direction, key, IV and the bytes fed so far, and each call writes exactly
/// the newly produced suffix of that stream. It panics when `out` is shorter
/// than `input` plus a block, or longer than a C `int` can count, which the
/// preconditions rule out.
#[verifier::external_body]
fn raw_update(s: &mut CipherStream, input: &[u8], out: &mut Vec<u8>) -> (r: Result<
    usize,
    openssl::error::ErrorStack,
>)
    requires
        !old(s).finalized(),
        old(out)@.len() >= input@.len() + old(s).alg().spec_block_size(),
        old(out)@.len() <= 0x7fff_ffff,
    ensures
        old(s).keeps_identity(*final(s)),
        !final(s).finalized(),
        final(out)@.len() == old(out)@.len(),
        match r {
            Ok(n) => {
                &&& n <= final(out)@.len()
                &&& final(s).fed() == old(s).fed() + input@
                &&& final(s).out_so_far() == old(s).out_so_far() + final(out)@.subrange(
                    0,
                    n as int,
                )
            },
            Err(_) => true,
        },
{
    s.crypter.update(input, out.as_mut_slice())
}

/// Relies on `openssl::symm::Crypter::finalize`: writes the final, possibly
/// padded, block into `out` and returns its length. That block is a
/// deterministic function of the algorithm, direction, key, IV and the bytes
/// fed so far. It panics when `out` is shorter than a block, which the
/// precondition rules out. No `update` may follow it.
#[verifier::external_body]
fn raw_finalize(s: &mut CipherStream, out: &mut Vec<u8>) -> (r: Result<
    usize,
    openssl::error::ErrorStack,
>)
    requires
        !old(s).finalized(),
        old(out)@.len() >= old(s).alg().spec_block_size(),
        old(out)@.len() <= 0x7fff_ffff,
    ensures
        old(s).keeps_identity(*final(s)),
        final(s).finalized(),
        final(s).fed() == old(s).fed(),
        final(out)@.len() == old(out)@.len(),
        match r {
            Ok(n) => {
                &&& n <= final(out)@.len()
                &&& final(out)@.subrange(0, n as int) == final_block(
                    old(s).is_encrypt(),
                    old(s).alg(),
                    old(s).key(),
                    old(s).iv(),
                    old(s).fed(),
                )
            },
            Err(_) => true,
        },
{
    s.crypter.finalize(out.as_mut_slice())
}

} // verus!
