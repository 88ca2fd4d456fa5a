//! End-to-end exercises of the encrypting sink and decrypting source
//! adapters, driven against real OpenSSL ciphers.

use cipher_io::CipherAlg;
use cipher_io::DecryptReader;
use cipher_io::EncryptWriter;

fn min(a: usize, b: usize) -> usize {
    if a < b { a } else { b }
}

/// Drains every pending ciphertext byte into `sink`, letting the sink
/// accept at most `step` bytes per call (worst-case fragmentation when
/// `step` is 1).
fn drain(w: &mut EncryptWriter, sink: &mut Vec<u8>, step: usize) {
    while w.pending_len() > 0 {
        let p = w.pending_slice();
        let n = min(step, p.len());
        sink.extend_from_slice(&p[..n]);
        w.record_written(n);
    }
}

/// Encrypts `chunks` written one by one, finalizes, and returns the full
/// ciphertext the underlying sink received, draining `step` bytes per call.
fn encrypt_chunks(
    alg: CipherAlg,
    key: &[u8],
    iv: Option<&[u8]>,
    chunks: &[&[u8]],
    step: usize,
) -> Vec<u8> {
    let mut w = EncryptWriter::new(alg, key, iv).expect("cipher setup");
    let mut sink = Vec::new();
    for c in chunks {
        drain(&mut w, &mut sink, step);
        assert!(w.is_drained());
        let n = w.write(c).expect("cipher update");
        assert_eq!(n, c.len());
    }
    w.finalize().expect("cipher finalize");
    drain(&mut w, &mut sink, step);
    sink
}

/// Reads every currently buffered plaintext byte, `read_step` bytes per
/// call, into `out`.
fn read_all(d: &mut DecryptReader, out: &mut Vec<u8>, read_step: usize) {
    while d.available_len() > 0 {
        let part = d.read_out(read_step);
        assert!(part.len() <= read_step);
        out.extend_from_slice(&part);
    }
}

/// Decrypts `ct` fed `feed_step` bytes at a time, reading out `read_step`
/// bytes at a time, and returns the plaintext delivered.
fn decrypt_chunked(
    alg: CipherAlg,
    key: &[u8],
    iv: Option<&[u8]>,
    ct: &[u8],
    feed_step: usize,
    read_step: usize,
) -> Vec<u8> {
    let mut d = DecryptReader::new(alg, key, iv).expect("cipher setup");
    let mut out = Vec::new();
    let mut i = 0;
    while i < ct.len() {
        read_all(&mut d, &mut out, read_step);
        let n = min(feed_step, ct.len() - i);
        d.feed(&ct[i..i + n]).expect("cipher update");
        i += n;
    }
    read_all(&mut d, &mut out, read_step);
    d.finish().expect("cipher finalize");
    read_all(&mut d, &mut out, read_step);
    assert!(d.is_eof());
    let tail = d.read_out(64);
    assert_eq!(tail.len(), 0, "a read at end of stream returns no bytes");
    out
}

fn sample_plaintext(len: usize) -> Vec<u8> {
    (0..len).map(|i| (i * 31 + 7) as u8).collect()
}

const KEY16: [u8; 16] = [
    0x11, 0x22, 0x33, 0x44, 0x55, 0x66, 0x77, 0x88, 0x99, 0xaa, 0xbb, 0xcc, 0xdd, 0xee, 0xff,
    0x01,
];
const IV16: [u8; 16] = [
    0xa0, 0xa1, 0xa2, 0xa3, 0xa4, 0xa5, 0xa6, 0xa7, 0xa8, 0xa9, 0xaa, 0xab, 0xac, 0xad, 0xae,
    0xaf,
];
const KEY32: [u8; 32] = [0x42; 32];

#[test]
fn round_trip_single_write() {
    let pt = sample_plaintext(100);
    let ct = encrypt_chunks(CipherAlg::Aes128Cbc, &KEY16, Some(&IV16), &[&pt], 4096);
    let back = decrypt_chunked(CipherAlg::Aes128Cbc, &KEY16, Some(&IV16), &ct, 4096, 4096);
    assert_eq!(back, pt);
}

#[test]
fn round_trip_aes256() {
    let pt = sample_plaintext(333);
    let ct = encrypt_chunks(CipherAlg::Aes256Cbc, &KEY32, Some(&IV16), &[&pt], 64);
    let back = decrypt_chunked(CipherAlg::Aes256Cbc, &KEY32, Some(&IV16), &ct, 7, 13);
    assert_eq!(back, pt);
}

#[test]
fn round_trip_ecb_without_iv() {
    let pt = sample_plaintext(48);
    assert!(!CipherAlg::Aes128Ecb.iv_required());
    let ct = encrypt_chunks(CipherAlg::Aes128Ecb, &KEY16, None, &[&pt], 16);
    let back = decrypt_chunked(CipherAlg::Aes128Ecb, &KEY16, None, &ct, 5, 9);
    assert_eq!(back, pt);
}

#[test]
fn chunk_invariance() {
    let pt = sample_plaintext(9000);
    let whole = encrypt_chunks(CipherAlg::Aes128Cbc, &KEY16, Some(&IV16), &[&pt], 4096);
    for chunk_size in [1usize, 7, 4096, pt.len()] {
        let chunks: Vec<&[u8]> = pt.chunks(chunk_size).collect();
        let ct = encrypt_chunks(CipherAlg::Aes128Cbc, &KEY16, Some(&IV16), &chunks, 4096);
        assert_eq!(ct, whole, "chunk size {} changed the ciphertext", chunk_size);
    }
}

#[test]
fn partial_io_one_byte_at_a_time() {
    let pt = sample_plaintext(200);
    let smooth = encrypt_chunks(CipherAlg::Aes128Cbc, &KEY16, Some(&IV16), &[&pt], 4096);
    let fragmented = encrypt_chunks(CipherAlg::Aes128Cbc, &KEY16, Some(&IV16), &[&pt], 1);
    assert_eq!(fragmented, smooth);

    let smooth_pt = decrypt_chunked(CipherAlg::Aes128Cbc, &KEY16, Some(&IV16), &smooth, 4096, 4096);
    let fragmented_pt = decrypt_chunked(CipherAlg::Aes128Cbc, &KEY16, Some(&IV16), &smooth, 1, 1);
    assert_eq!(fragmented_pt, smooth_pt);
    assert_eq!(fragmented_pt, pt);
}

#[test]
fn finalize_once_despite_second_shutdown() {
    let mut w = EncryptWriter::new(CipherAlg::Aes128Cbc, &KEY16, Some(&IV16)).unwrap();
    let mut sink = Vec::new();
    w.write(b"hello world").unwrap();
    w.finalize().unwrap();
    drain(&mut w, &mut sink, 4096);
    w.finalize().unwrap();
    drain(&mut w, &mut sink, 4096);
    assert_eq!(sink.len(), 16, "a second shutdown must not append a second finalize block");

    let reference = encrypt_chunks(CipherAlg::Aes128Cbc, &KEY16, Some(&IV16), &[b"hello world"], 4096);
    assert_eq!(sink, reference);
}

#[test]
fn finalize_before_drain_appends_to_pending() {
    let mut w = EncryptWriter::new(CipherAlg::Aes128Cbc, &KEY16, Some(&IV16)).unwrap();
    let mut sink = Vec::new();
    let pt = sample_plaintext(32);
    w.write(&pt).unwrap();
    w.finalize().unwrap();
    drain(&mut w, &mut sink, 4096);
    let reference = encrypt_chunks(CipherAlg::Aes128Cbc, &KEY16, Some(&IV16), &[&pt], 4096);
    assert_eq!(sink, reference);
}

#[test]
fn empty_plaintext_yields_one_finalize_block() {
    let ct = encrypt_chunks(CipherAlg::Aes128Cbc, &KEY16, Some(&IV16), &[], 4096);
    assert_eq!(ct.len(), 16, "an empty CBC plaintext pads to exactly one block");
    let back = decrypt_chunked(CipherAlg::Aes128Cbc, &KEY16, Some(&IV16), &ct, 4096, 4096);
    assert_eq!(back, Vec::<u8>::new());
}

#[test]
fn hello_world_zero_key_scenario() {
    let key = [0u8; 16];
    let iv = [0u8; 16];
    let pt = b"hello world";
    let ct = encrypt_chunks(CipherAlg::Aes128Cbc, &key, Some(&iv), &[pt], 4096);
    assert_eq!(ct.len(), 16, "11 plaintext bytes pad to one 16-byte block");

    let mut d = DecryptReader::new(CipherAlg::Aes128Cbc, &key, Some(&iv)).unwrap();
    let mut out = Vec::new();
    d.feed(&ct).unwrap();
    read_all(&mut d, &mut out, 5);
    d.finish().unwrap();
    read_all(&mut d, &mut out, 5);
    assert!(d.is_eof());
    assert_eq!(out, pt);
}

#[test]
fn matches_one_shot_openssl_encryption() {
    let pt = sample_plaintext(777);
    let ct = encrypt_chunks(CipherAlg::Aes128Cbc, &KEY16, Some(&IV16), &[&pt], 17);
    let reference = openssl::symm::encrypt(
        openssl::symm::Cipher::aes_128_cbc(),
        &KEY16,
        Some(&IV16),
        &pt,
    )
    .unwrap();
    assert_eq!(ct, reference);
}

#[test]
fn matches_one_shot_openssl_decryption() {
    let pt = sample_plaintext(90);
    let ct = openssl::symm::encrypt(
        openssl::symm::Cipher::aes_256_cbc(),
        &KEY32,
        Some(&IV16),
        &pt,
    )
    .unwrap();
    let back = decrypt_chunked(CipherAlg::Aes256Cbc, &KEY32, Some(&IV16), &ct, 16, 32);
    assert_eq!(back, pt);
}

#[test]
fn wrong_key_length_fails_setup() {
    let r = EncryptWriter::new(CipherAlg::Aes128Cbc, &[0u8; 5], Some(&IV16));
    assert!(r.is_err(), "a 5-byte key must be rejected at setup");
    let r = DecryptReader::new(CipherAlg::Aes256Cbc, &KEY16, Some(&IV16));
    assert!(r.is_err(), "a 16-byte key must be rejected for a 256-bit cipher");
}

#[test]
fn wrong_iv_length_fails_setup() {
    let r = EncryptWriter::new(CipherAlg::Aes128Cbc, &KEY16, Some(&[0u8; 3]));
    assert!(
        matches!(r, Err(cipher_io::CryptoError::InvalidIv)),
        "a 3-byte IV must be rejected at setup"
    );
    let r = DecryptReader::new(CipherAlg::Aes128Cbc, &KEY16, None);
    assert!(
        matches!(r, Err(cipher_io::CryptoError::InvalidIv)),
        "a CBC cipher without an IV must be rejected at setup"
    );
}

#[test]
fn corrupt_padding_fails_finalize() {
    let garbage = [0x5au8; 16];
    let mut d = DecryptReader::new(CipherAlg::Aes128Cbc, &KEY16, Some(&IV16)).unwrap();
    d.feed(&garbage).unwrap();
    let mut out = Vec::new();
    read_all(&mut d, &mut out, 64);
    let r = d.finish();
    assert!(r.is_err(), "random bytes almost surely carry bad padding");
    assert!(d.has_failed());
}

#[test]
fn finish_twice_is_idempotent() {
    let ct = encrypt_chunks(CipherAlg::Aes128Cbc, &KEY16, Some(&IV16), &[b"abc"], 4096);
    let mut d = DecryptReader::new(CipherAlg::Aes128Cbc, &KEY16, Some(&IV16)).unwrap();
    let mut out = Vec::new();
    d.feed(&ct).unwrap();
    read_all(&mut d, &mut out, 64);
    d.finish().unwrap();
    read_all(&mut d, &mut out, 64);
    assert!(d.is_eof());
    d.finish().unwrap();
    assert!(d.is_eof());
    assert_eq!(d.read_out(64).len(), 0);
    assert_eq!(out, b"abc");
}
