use otp::pad::{decrypt, encrypt, encrypt_with_key, random_key, xor_bytes};

#[test]
fn round_trip_restores_plaintext() {
    let plain: Vec<u8> = b"attack at dawn \x00\xff binary too".to_vec();
    let pad = encrypt(&plain);
    assert_eq!(decrypt(&pad.cipher, &pad.key), plain);
}

#[test]
fn key_and_cipher_have_plaintext_length() {
    let plain: Vec<u8> = (0u8..=200).collect();
    let pad = encrypt(&plain);
    assert_eq!(pad.key.len(), plain.len());
    assert_eq!(pad.cipher.len(), plain.len());
}

#[test]
fn cipher_xor_key_is_plaintext() {
    let plain: Vec<u8> = b"report contents".to_vec();
    let pad = encrypt(&plain);
    for i in 0..plain.len() {
        assert_eq!(pad.cipher[i] ^ pad.key[i], plain[i]);
    }
}

#[test]
fn encryption_is_not_deterministic() {
    let plain: Vec<u8> = vec![7u8; 64];
    let first = encrypt(&plain);
    let second = encrypt(&plain);
    assert_ne!(first.key, second.key);
    assert_ne!(first.cipher, second.cipher);
}

#[test]
fn encrypt_with_key_exact_bytes() {
    let cipher = encrypt_with_key(&[0x0f, 0xf0, 0x00, 0xaa], &[0xff, 0xff, 0x12, 0xaa]);
    assert_eq!(cipher, vec![0xf0, 0x0f, 0x12, 0x00]);
}

#[test]
fn decrypt_exact_bytes() {
    assert_eq!(decrypt(&[0xf0, 0x0f, 0x12, 0x00], &[0xff, 0xff, 0x12, 0xaa]), vec![0x0f, 0xf0, 0x00, 0xaa]);
}

#[test]
fn decrypt_short_key_truncates_to_key() {
    assert_eq!(decrypt(&[1, 2, 3, 4], &[5, 6]), vec![4, 4]);
}

#[test]
fn decrypt_long_key_truncates_to_cipher() {
    assert_eq!(decrypt(&[1, 2], &[5, 6, 7, 8, 9]), vec![4, 4]);
}

#[test]
fn decrypt_with_key_prefix_gives_plaintext_prefix() {
    let plain: Vec<u8> = b"0123456789".to_vec();
    let pad = encrypt(&plain);
    assert_eq!(decrypt(&pad.cipher, &pad.key[..4]), plain[..4].to_vec());
}

#[test]
fn empty_input_gives_empty_artifacts() {
    let pad = encrypt(&[]);
    assert!(pad.cipher.is_empty());
    assert!(pad.key.is_empty());
    assert!(decrypt(&[], &[]).is_empty());
}

#[test]
fn random_key_has_requested_length() {
    let mut rng = rand::thread_rng();
    assert_eq!(random_key(&mut rng, 0).len(), 0);
    assert_eq!(random_key(&mut rng, 1000).len(), 1000);
}

#[test]
fn xor_bytes_is_symmetric_in_length() {
    assert_eq!(xor_bytes(&[0xaa; 3], &[0x55; 5]), vec![0xff; 3]);
    assert_eq!(xor_bytes(&[0x55; 5], &[0xaa; 3]), vec![0xff; 3]);
}
