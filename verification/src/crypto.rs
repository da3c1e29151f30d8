//! The cryptographic primitives that the password verification and key exchange
//! rest on: RSA (PKCS#1 v1.5 encryption), X25519 and HKDF-SHA512.
//!
//! Everything here calls into the `rsa`, `rand` and `ring` crates. The items
//! marked `external_body` are trusted: their contracts restate what the
//! source of those crates shows and are not proved.
use rand::rngs::ThreadRng;
use ring::agreement::{agree_ephemeral, EphemeralPrivateKey, UnparsedPublicKey, X25519};
use ring::error::Unspecified;
use ring::hkdf::{Salt, HKDF_SHA512};
use ring::rand::{SecureRandom, SystemRandom};
use rsa::{BigUint, PaddingScheme, PublicKey, RsaPublicKey};
use vstd::arithmetic::power::pow;
use vstd::prelude::*;

verus! {

/// The smallest public exponent that `rsa` accepts in a public key.
pub const MIN_PUBLIC_EXPONENT: u64 = 2;

/// The largest public exponent that `rsa` accepts in a public key (2^30).
pub const MAX_PUBLIC_EXPONENT: u64 = 1073741824;

/// PKCS#1 v1.5 encryption pads the message with at least this many bytes.
pub const PKCS1V15_OVERHEAD: usize = 11;

/// Length in bytes of an X25519 public key and of an X25519 shared secret.
pub const X25519_KEY_LEN: usize = 32;

/// Length in bytes of a ChaCha20-Poly1305 key, the length of each derived key.
pub const CHACHA20_POLY1305_KEY_LEN: usize = 32;

/// The unsigned integer that `bytes` spell in little-endian order.
pub open spec fn le_value(bytes: Seq<u8>) -> nat
    decreases bytes.len(),
{
    if bytes.len() == 0 {
        0
    } else {
        bytes[0] as nat + 256 * le_value(bytes.drop_first())
    }
}

/// The number of significant bytes of the little-endian integer `bytes`:
/// its length once the high-order zero bytes are dropped. For an RSA modulus
/// this is the size of the key in bytes, the length of every ciphertext.
pub open spec fn le_byte_len(bytes: Seq<u8>) -> nat
    decreases bytes.len(),
{
    if bytes.len() == 0 {
        0
    } else if bytes.last() == 0 {
        le_byte_len(bytes.drop_last())
    } else {
        bytes.len()
    }
}

/// The unsigned integer that `bytes` spell in big-endian order.
pub open spec fn be_value(bytes: Seq<u8>) -> nat
    decreases bytes.len(),
{
    if bytes.len() == 0 {
        0
    } else {
        be_value(bytes.drop_last()) * 256 + bytes.last() as nat
    }
}

/// The PKCS#1 v1.5 encryption block `00 02 PS 00 m`.
pub open spec fn pkcs1v15_block(padding: Seq<u8>, m: Seq<u8>) -> Seq<u8> {
    seq![0u8, 2u8] + padding + seq![0u8] + m
}

/// Whether `c` is a PKCS#1 v1.5 encryption of `m` under the RSA key with
/// little-endian modulus `n` and exponent `e`: for some padding of non-zero
/// bytes that makes the block as long as the key, `c` is the big-endian
/// encoding, as long as the key, of the block raised to `e` modulo `n`.
pub open spec fn pkcs1v15_encrypts(n: Seq<u8>, e: Seq<u8>, m: Seq<u8>, c: Seq<u8>) -> bool {
    exists|padding: Seq<u8>|
        #![trigger pkcs1v15_block(padding, m)]
        {
            &&& forall|i: int| 0 <= i < padding.len() ==> padding[i] != 0
            &&& padding.len() + m.len() + 3 == le_byte_len(n)
            &&& c.len() == le_byte_len(n)
            &&& be_value(c) as int == pow(be_value(pkcs1v15_block(padding, m)) as int, le_value(e))
                % (le_value(n) as int)
        }
}

/// Whether `rsa` accepts `exponent` (little-endian) as a public exponent.
pub open spec fn exponent_accepted(exponent: Seq<u8>) -> bool {
    MIN_PUBLIC_EXPONENT <= le_value(exponent) <= MAX_PUBLIC_EXPONENT
}


/// Reading the most significant byte last: the value of `bytes` is that of
/// all but its last byte, plus the last byte times 256 to the power of their
/// count.
proof fn lemma_le_value_last(bytes: Seq<u8>)
    requires
        bytes.len() > 0,
    ensures
        le_value(bytes) == le_value(bytes.drop_last()) + bytes.last() * pow(256, (bytes.len() - 1) as nat),
    decreases bytes.len(),
{
    reveal(pow);
    if bytes.len() == 1 {
        assert(bytes.drop_first().len() == 0);
        assert(le_value(bytes.drop_first()) == 0);
        assert(bytes.drop_last().len() == 0);
        assert(le_value(bytes.drop_last()) == 0);
        assert(pow(256, 0) == 1);
        assert(bytes.last() == bytes[0]);
        assert(le_value(bytes) == bytes[0] + 256 * le_value(bytes.drop_first()));
    } else {
        let rest = bytes.drop_first();
        lemma_le_value_last(rest);
        assert(rest.drop_last() =~= bytes.drop_last().drop_first());
        assert(rest.last() == bytes.last());
        let dl = bytes.drop_last();
        assert(dl.len() > 0);
        assert(le_value(dl) == dl[0] + 256 * le_value(dl.drop_first()));
        assert(dl[0] == bytes[0]);
        assert(le_value(bytes) == bytes[0] + 256 * le_value(rest));
        let p = pow(256, (rest.len() - 1) as nat);
        assert(pow(256, (bytes.len() - 1) as nat) == 256 * p);
        assert(256 * (le_value(rest.drop_last()) + bytes.last() * p) == 256 * le_value(rest.drop_last()) + bytes.last() * (256 * p)) by (nonlinear_arith);
        assert(le_value(rest.drop_last()) == le_value(dl.drop_first()));
    }
}

/// A little-endian integer of `n` bytes is less than 256 to the power `n`.
proof fn lemma_le_value_bound(bytes: Seq<u8>)
    ensures
        le_value(bytes) < pow(256, bytes.len()),
    decreases bytes.len(),
{
    reveal(pow);
    if bytes.len() > 0 {
        let rest = bytes.drop_first();
        lemma_le_value_bound(rest);
        let p = pow(256, rest.len());
        assert(pow(256, bytes.len()) == 256 * p);
        assert(le_value(rest) + 1 <= p);
        assert(256 * (le_value(rest) + 1) <= 256 * p) by (nonlinear_arith)
            requires le_value(rest) + 1 <= p;
    }
}

/// The key size is the length of the modulus's value in bytes: zero for the
/// value zero, and otherwise the `k` with `256^(k-1) <= value < 256^k`; it
/// never exceeds the number of bytes given.
pub proof fn law_significant_len_is_byte_length(bytes: Seq<u8>)
    ensures
        le_byte_len(bytes) <= bytes.len(),
        le_byte_len(bytes) == 0 <==> le_value(bytes) == 0,
        le_byte_len(bytes) > 0 ==> pow(256, (le_byte_len(bytes) - 1) as nat) <= le_value(bytes),
        le_value(bytes) < pow(256, le_byte_len(bytes)),
    decreases bytes.len(),
{
    reveal(pow);
    if bytes.len() > 0 {
        lemma_le_value_last(bytes);
        let p = pow(256, (bytes.len() - 1) as nat);
        vstd::arithmetic::power::lemma_pow_positive(256, (bytes.len() - 1) as nat);
        if bytes.last() == 0 {
            law_significant_len_is_byte_length(bytes.drop_last());
            assert(bytes.last() * p == 0);
        } else {
            lemma_le_value_bound(bytes);
            assert(bytes.last() * p >= p) by (nonlinear_arith)
                requires bytes.last() >= 1, p > 0;
        }
    }
}

/// The number of significant bytes of the little-endian integer `bytes`.
pub fn significant_len(bytes: &[u8]) -> (n: usize)
    ensures
        n == le_byte_len(bytes@),
        n <= bytes@.len(),
        n == 0 <==> le_value(bytes@) == 0,
        n > 0 ==> pow(256, (n - 1) as nat) <= le_value(bytes@),
        le_value(bytes@) < pow(256, n as nat),
{
    proof {
        law_significant_len_is_byte_length(bytes@);
    }
    let mut n: usize = bytes.len();
    assert(bytes@.subrange(0, n as int) =~= bytes@);
    while n > 0 && bytes[n - 1] == 0
        invariant
            n <= bytes@.len(),
            le_byte_len(bytes@) == le_byte_len(bytes@.subrange(0, n as int)),
        decreases n,
    {
        assert(bytes@.subrange(0, n as int).drop_last() =~= bytes@.subrange(0, n - 1));
        n = n - 1;
    }
    proof {
        if n > 0 {
            assert(bytes@.subrange(0, n as int).last() != 0);
        } else {
            assert(bytes@.subrange(0, 0) =~= Seq::<u8>::empty());
        }
    }
    n
}

/// An RSA public key with which the remote device asks passwords to be
/// encrypted, kept together with the little-endian bytes it was built from.
pub struct PasswordVerifyKey {
    key: RsaPublicKey,
    modulus: Vec<u8>,
    exponent: Vec<u8>,
}

impl View for PasswordVerifyKey {
    type V = (Seq<u8>, Seq<u8>);

    /// The modulus and the exponent, as the little-endian bytes they were read from.
    closed spec fn view(&self) -> (Seq<u8>, Seq<u8>) {
        (self.modulus@, self.exponent@)
    }
}

impl PasswordVerifyKey {
    /// The size of the key in bytes: the number of significant bytes of its modulus.
    pub fn key_size(&self) -> (n: usize)
        ensures
            n == le_byte_len(self.view().0),
    {
        significant_len(self.modulus.as_slice())
    }

    /// Builds the key with `rsa::RsaPublicKey::new` from the modulus `n` and
    /// the exponent `e`, each read as a little-endian integer by
    /// `rsa::BigUint::from_bytes_le`. In rsa 0.6.1, `RsaPublicKey::new` runs
    /// `check_public`, which accepts exactly the exponents from 2 to 2^30 and
    /// does not look at the modulus. Which error variant comes back is left
    /// unsaid.
    #[verifier::external_body]
    pub(crate) fn from_le_bytes(n: &[u8], e: &[u8]) -> (r: Result<PasswordVerifyKey, rsa::errors::Error>)
        ensures
            r is Ok <==> exponent_accepted(e@),
            r matches Ok(k) ==> k.view() == (n@, e@),
    {
        match RsaPublicKey::new(BigUint::from_bytes_le(n), BigUint::from_bytes_le(e)) {
            Ok(key) => Ok(PasswordVerifyKey { key, modulus: n.to_vec(), exponent: e.to_vec() }),
            Err(err) => Err(err),
        }
    }

    /// Encrypts `msg` with `rsa::PublicKey::encrypt` under PKCS#1 v1.5 padding.
    /// In rsa 0.6.1 (`pkcs1v15::encrypt`) this fails exactly when the message
    /// is longer than the key size minus 11 bytes, and otherwise returns a
    /// ciphertext as long as the key (`left_pad` to the key size). The key size
    /// is the number of significant bytes of the modulus; below 11 bytes the
    /// crate underflows and panics, hence the `requires`. The ciphertext is
    /// the big-endian encoding, padded to the key size, of `EM^e mod n`, where
    /// `EM = 00 02 PS 00 msg` fills the key size and `PS` are random non-zero
    /// bytes (`non_zero_random_bytes`, `raw_encryption_primitive`); which `PS`
    /// was drawn is left unsaid.
    #[verifier::external_body]
    pub(crate) fn encrypt_pkcs1v15(&self, rng: &mut ThreadRng, msg: &[u8]) -> (r: Result<Vec<u8>, rsa::errors::Error>)
        requires
            le_byte_len(self.view().0) >= PKCS1V15_OVERHEAD,
        ensures
            r is Ok <==> msg@.len() + PKCS1V15_OVERHEAD <= le_byte_len(self.view().0),
            r matches Ok(c) ==> c@.len() == le_byte_len(self.view().0),
            r matches Ok(c) ==> pkcs1v15_encrypts(self.view().0, self.view().1, msg@, c@),
    {
        self.key.encrypt(rng, PaddingScheme::PKCS1v15Encrypt, msg)
    }
}

#[verifier::external_type_specification]
#[verifier::external_body]
pub struct ExRsaPublicKey(RsaPublicKey);

#[verifier::external_type_specification]
#[verifier::external_body]
pub struct ExRsaError(rsa::errors::Error);

#[verifier::external_type_specification]
#[verifier::external_body]
pub struct ExThreadRng(ThreadRng);

#[verifier::external_type_specification]
#[verifier::external_body]
pub struct ExSystemRandom(SystemRandom);

#[verifier::external_type_specification]
#[verifier::external_body]
pub struct ExEphemeralPrivateKey(EphemeralPrivateKey);

#[verifier::external_type_specification]
#[verifier::external_body]
pub struct ExUnspecified(Unspecified);

/// `rand::thread_rng`: the thread-local generator. Nothing is promised of it.
pub assume_specification[ rand::thread_rng ]() -> ThreadRng;

/// `ring::rand::SystemRandom::new`: the operating system's generator.
/// Nothing is promised of it.
pub assume_specification[ SystemRandom::new ]() -> SystemRandom;

/// Fills `dest` with `ring::rand::SecureRandom::fill` on the system
/// generator. The bytes drawn, and whether the call fails (it reads from the
/// operating system), are left unsaid; the length of `dest` does not change.
#[verifier::external_body]
pub(crate) fn fill_random(rng: &SystemRandom, dest: &mut Vec<u8>) -> (r: Result<(), Unspecified>)
    ensures
        final(dest)@.len() == old(dest)@.len(),
{
    rng.fill(dest.as_mut_slice())
}

/// Generates an X25519 private key with
/// `ring::agreement::EphemeralPrivateKey::generate`. The key is random and
/// the call may fail when the generator does; nothing is promised.
#[verifier::external_body]
pub(crate) fn x25519_generate(rng: &SystemRandom) -> (r: Result<EphemeralPrivateKey, Unspecified>) {
    EphemeralPrivateKey::generate(&X25519, rng)
}

/// The public key of `key`, by `EphemeralPrivateKey::compute_public_key`,
/// as bytes. ring 0.16.20 writes X25519 public keys of 32 bytes.
#[verifier::external_body]
pub(crate) fn x25519_public_key(key: &EphemeralPrivateKey) -> (r: Result<Vec<u8>, Unspecified>)
    ensures
        r matches Ok(pk) ==> pk@.len() == X25519_KEY_LEN,
{
    match key.compute_public_key() {
        Ok(pk) => Ok(pk.as_ref().to_vec()),
        Err(err) => Err(err),
    }
}

/// Hands the shared secret on unchanged.
fn take_shared_secret(secret: &[u8]) -> (r: Result<Vec<u8>, Unspecified>)
    ensures
        r matches Ok(s) && s@ == secret@,
{
    Ok(vstd::slice::slice_to_vec(secret))
}

/// X25519 agreement of `key` with the peer's public key `peer`, by
/// `ring::agreement::agree_ephemeral`, handing back the shared secret. In
/// ring 0.16.20 (`x25519_ecdh`) the agreement fails when `peer` is not 32
/// bytes long (and when the shared point is zero); the secret is 32 bytes.
/// The secret depends on the random private key and is left unsaid.
#[verifier::external_body]
pub(crate) fn x25519_agree(key: EphemeralPrivateKey, peer: &[u8]) -> (r: Result<Vec<u8>, Unspecified>)
    ensures
        peer@.len() != X25519_KEY_LEN ==> r is Err,
        r matches Ok(s) ==> s@.len() == X25519_KEY_LEN,
{
    agree_ephemeral(key, &UnparsedPublicKey::new(&X25519, peer), Unspecified, |secret| take_shared_secret(secret))
}

/// The 32 bytes that HKDF-SHA512 derives from `salt`, `secret` and `info`.
pub uninterp spec fn hkdf_sha512_key(salt: Seq<u8>, secret: Seq<u8>, info: Seq<u8>) -> Seq<u8>;

/// Derives a ChaCha20-Poly1305 key into `out` with ring's HKDF-SHA512:
/// `Salt::new(HKDF_SHA512, salt).extract(secret)`, then `expand` with the
/// single info piece `info` to the key length of `CHACHA20_POLY1305`, then
/// `Okm::fill(out)`. In ring 0.16.20 `expand` fails only beyond 255 * 64
/// bytes, and `fill` fails, writing nothing, exactly when `out` is not as long
/// as the key (32 bytes).
#[verifier::external_body]
pub(crate) fn hkdf_sha512_fill(salt: &[u8], secret: &[u8], info: &[u8], out: &mut Vec<u8>) -> (r: Result<(), Unspecified>)
    ensures
        r is Ok <==> old(out)@.len() == CHACHA20_POLY1305_KEY_LEN,
        r is Ok ==> final(out)@ == hkdf_sha512_key(salt@, secret@, info@),
        r is Err ==> final(out)@ == old(out)@,
{
    let info = [info];
    let prk = Salt::new(HKDF_SHA512, salt).extract(secret);
    match prk.expand(&info, &ring::aead::CHACHA20_POLY1305) {
        Ok(okm) => okm.fill(out.as_mut_slice()),
        Err(err) => Err(err),
    }
}

} // verus!
