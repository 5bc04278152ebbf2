//! The byte transform of the one-time pad.
use vstd::prelude::*;

verus! {

/// The byte-by-byte XOR of two sequences, as long as the shorter of the two.
pub open spec fn xor_seq(a: Seq<u8>, b: Seq<u8>) -> Seq<u8> {
    Seq::new(min_len(a, b), |i: int| a[i] ^ b[i])
}

/// The length of the shorter of two sequences.
pub open spec fn min_len(a: Seq<u8>, b: Seq<u8>) -> nat {
    if a.len() <= b.len() {
        a.len()
    } else {
        b.len()
    }
}

#[verifier::external_type_specification]
#[verifier::external_body]
pub struct ExThreadRng(rand::rngs::ThreadRng);

/// Relies on rand::thread_rng: a handle to the generator of this thread.
pub assume_specification[ rand::thread_rng ]() -> rand::rngs::ThreadRng;

/// Relies on rand::Rng::gen for `u8`: one byte drawn from the generator.
/// Nothing is promised of its value.
#[verifier::external_body]
fn next_byte(rng: &mut rand::rngs::ThreadRng) -> u8 {
    rand::Rng::gen::<u8>(rng)
}

/// A ciphertext and the key that it was made with.
pub struct Pad {
    pub cipher: Vec<u8>,
    pub key: Vec<u8>,
}

/// Draws `n` fresh bytes from `rng`.
pub fn random_key(rng: &mut rand::rngs::ThreadRng, n: usize) -> (key: Vec<u8>)
    ensures
        key@.len() == n,
{
    let mut key: Vec<u8> = Vec::with_capacity(n);
    let mut i: usize = 0;
    while i < n
        invariant
            i <= n,
            key@.len() == i,
        decreases n - i,
    {
        let b = next_byte(rng);
        key.push(b);
        i = i + 1;
    }
    key
}

/// Combines `a` with `b` byte by byte, up to the end of the shorter input.
pub fn xor_bytes(a: &[u8], b: &[u8]) -> (r: Vec<u8>)
    ensures
        r@ == xor_seq(a@, b@),
{
    let n: usize = if a.len() <= b.len() { a.len() } else { b.len() };
    let mut r: Vec<u8> = Vec::with_capacity(n);
    let mut i: usize = 0;
    while i < n
        invariant
            i <= n,
            n <= a@.len(),
            n <= b@.len(),
            n == min_len(a@, b@),
            r@ == xor_seq(a@, b@).subrange(0, i as int),
        decreases n - i,
    {
        r.push(a[i] ^ b[i]);
        i = i + 1;
    }
    assert(r@ =~= xor_seq(a@, b@));
    r
}

/// Encrypts `plain` with a key of the same length: each ciphertext byte is the
/// plaintext byte XOR the key byte at the same index.
pub fn encrypt_with_key(plain: &[u8], key: &[u8]) -> (cipher: Vec<u8>)
    requires
        key@.len() == plain@.len(),
    ensures
        cipher@.len() == plain@.len(),
        cipher@ == xor_seq(plain@, key@),
        forall|i: int| 0 <= i < plain@.len() ==> #[trigger] cipher@[i] == plain@[i] ^ key@[i],
{
    xor_bytes(plain, key)
}

/// Encrypts `plain` with a key of its length drawn fresh from the generator of
/// this thread, and returns the ciphertext together with that key.
pub fn encrypt(plain: &[u8]) -> (r: Pad)
    ensures
        r.key@.len() == plain@.len(),
        r.cipher@.len() == plain@.len(),
        r.cipher@ == xor_seq(plain@, r.key@),
{
    let mut rng = rand::thread_rng();
    let key = random_key(&mut rng, plain.len());
    let cipher = encrypt_with_key(plain, key.as_slice());
    Pad { cipher, key }
}

/// Decrypts `cipher` with `key`. The two are paired byte by byte and iteration
/// stops as soon as either is exhausted: the result is as long as the shorter.
pub fn decrypt(cipher: &[u8], key: &[u8]) -> (plain: Vec<u8>)
    ensures
        plain@.len() == min_len(cipher@, key@),
        plain@ == xor_seq(cipher@, key@),
        forall|i: int| 0 <= i < plain@.len() ==> #[trigger] plain@[i] == cipher@[i] ^ key@[i],
{
    xor_bytes(cipher, key)
}

/// XOR with the same byte twice leaves a byte unchanged.
pub proof fn lemma_xor_cancel(a: u8, b: u8)
    ensures
        (a ^ b) ^ b == a,
{
    assert((a ^ b) ^ b == a) by (bit_vector);
}

/// Decrypting a ciphertext with the key that it was encrypted with gives back
/// the plaintext exactly.
pub proof fn lemma_round_trip(plain: Seq<u8>, key: Seq<u8>)
    requires
        key.len() == plain.len(),
    ensures
        xor_seq(xor_seq(plain, key), key) == plain,
{
    assert forall|i: int| 0 <= i < plain.len() implies #[trigger] xor_seq(
        xor_seq(plain, key),
        key,
    )[i] == plain[i] by {
        lemma_xor_cancel(plain[i], key[i]);
    }
    assert(xor_seq(xor_seq(plain, key), key) =~= plain);
}

/// Every byte of a ciphertext, XOR the key byte at its index, is the
/// plaintext byte at that index.
pub proof fn lemma_cipher_xor_key(plain: Seq<u8>, key: Seq<u8>)
    requires
        key.len() == plain.len(),
    ensures
        xor_seq(plain, key).len() == plain.len(),
        forall|i: int| 0 <= i < plain.len() ==> #[trigger] xor_seq(plain, key)[i] ^ key[i] == plain[i],
{
    assert forall|i: int| 0 <= i < plain.len() implies #[trigger] xor_seq(plain, key)[i] ^ key[i]
        == plain[i] by {
        lemma_xor_cancel(plain[i], key[i]);
    }
}

/// Decryption yields exactly as many bytes as the shorter of ciphertext and
/// key: a key shorter than the ciphertext decrypts only the ciphertext's
/// prefix of the key's length, and a longer key is used only up to the
/// ciphertext's length.
pub proof fn lemma_truncation(cipher: Seq<u8>, key: Seq<u8>)
    ensures
        xor_seq(cipher, key).len() == if cipher.len() <= key.len() {
            cipher.len()
        } else {
            key.len()
        },
        key.len() <= cipher.len() ==> xor_seq(cipher, key) == xor_seq(
            cipher.subrange(0, key.len() as int),
            key,
        ),
        cipher.len() <= key.len() ==> xor_seq(cipher, key) == xor_seq(
            cipher,
            key.subrange(0, cipher.len() as int),
        ),
{
    if key.len() <= cipher.len() {
        assert(xor_seq(cipher, key) =~= xor_seq(cipher.subrange(0, key.len() as int), key));
    }
    if cipher.len() <= key.len() {
        assert(xor_seq(cipher, key) =~= xor_seq(cipher, key.subrange(0, cipher.len() as int)));
    }
}

/// Decrypting a ciphertext with the first `m` bytes of its key gives the
/// first `m` bytes of the plaintext.
pub proof fn lemma_truncated_key(plain: Seq<u8>, key: Seq<u8>, m: int)
    requires
        key.len() == plain.len(),
        0 <= m <= key.len(),
    ensures
        xor_seq(xor_seq(plain, key), key.subrange(0, m)) == plain.subrange(0, m),
{
    lemma_round_trip(plain, key);
    assert forall|i: int| 0 <= i < m implies #[trigger] xor_seq(
        xor_seq(plain, key),
        key.subrange(0, m),
    )[i] == plain.subrange(0, m)[i] by {
        lemma_xor_cancel(plain[i], key[i]);
    }
    assert(xor_seq(xor_seq(plain, key), key.subrange(0, m)) =~= plain.subrange(0, m));
}

} // verus!
