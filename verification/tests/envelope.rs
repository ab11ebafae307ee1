use aes_gcm::aead::{Aead, KeyInit};
use aes_gcm::{Aes256Gcm, Key, Nonce};
use lockbox::crypto::{
    assemble, decrypt_file, encrypt_file, encrypt_with, open_content, open_envelope, seal_envelope,
    take_key32, to_key32, to_nonce12, OVERHEAD,
};
use lockbox::error::LockBoxError;
use lockbox::header::Header;

const MASTER: [u8; 32] = [0x11; 32];
const FILE_KEY: [u8; 32] = [0x22; 32];
const NONCE: [u8; 12] = [0x33; 12];

fn bad_key() -> LockBoxError {
    LockBoxError::Crypto("Key must be 32 bytes".to_string())
}

fn refused() -> LockBoxError {
    LockBoxError::Crypto("aead::Error".to_string())
}

fn seal_directly(key: &[u8], nonce: &[u8], plaintext: &[u8]) -> Vec<u8> {
    Aes256Gcm::new(Key::<Aes256Gcm>::from_slice(key))
        .encrypt(Nonce::from_slice(nonce), plaintext)
        .unwrap()
}

fn encrypt_fixed(master: &[u8], plaintext: &[u8]) -> Result<Vec<u8>, LockBoxError> {
    let mut file_key = FILE_KEY;
    encrypt_with(master, &mut file_key, &NONCE, plaintext)
}

fn frame(nonce: &[u8], wrapped_key: &[u8], ciphertext: &[u8]) -> Vec<u8> {
    let mut file = Vec::new();
    Header { nonce: nonce.to_vec(), wrapped_key: wrapped_key.to_vec() }
        .write_to(&mut file)
        .unwrap();
    file.extend_from_slice(ciphertext);
    file
}

#[test]
fn key_of_32_bytes_is_copied() {
    let bytes: Vec<u8> = (100u8..132).collect();
    let key = to_key32(&bytes).unwrap();
    assert_eq!(&key[..], &bytes[..]);
}

#[test]
fn key_of_another_length_is_refused() {
    for len in [0usize, 1, 16, 31, 33, 64] {
        assert_eq!(to_key32(&vec![5u8; len]), Err(bad_key()), "length {}", len);
    }
}

#[test]
fn nonce_of_12_bytes_is_copied() {
    let bytes: Vec<u8> = (1u8..13).collect();
    assert_eq!(to_nonce12(&bytes), Ok([1, 2, 3, 4, 5, 6, 7, 8, 9, 10, 11, 12]));
}

#[test]
fn nonce_of_another_length_is_refused() {
    for len in [0usize, 8, 11, 13, 16] {
        assert_eq!(
            to_nonce12(&vec![5u8; len]),
            Err(LockBoxError::Crypto("Nonce must be 12 bytes".to_string())),
            "length {}",
            len
        );
    }
}

#[test]
fn round_trip_of_hello() {
    let file = encrypt_file(&MASTER, b"hello").unwrap();
    assert_eq!(decrypt_file(&MASTER, &file), Ok(b"hello".to_vec()));
}

#[test]
fn round_trip_of_nothing() {
    let file = encrypt_file(&MASTER, b"").unwrap();
    assert_eq!(file.len(), 84);
    assert_eq!(decrypt_file(&MASTER, &file), Ok(Vec::new()));
}

#[test]
fn round_trip_of_many_sizes() {
    for len in [1usize, 15, 16, 17, 255, 256, 4096, 100_000] {
        let plaintext: Vec<u8> = (0..len).map(|i| (i * 7 + 3) as u8).collect();
        let file = encrypt_file(&MASTER, &plaintext).unwrap();
        assert_eq!(file.len(), 84 + len);
        assert_eq!(decrypt_file(&MASTER, &file), Ok(plaintext));
    }
}

#[test]
fn round_trip_with_given_key_and_nonce() {
    let file = encrypt_fixed(&MASTER, b"attack at dawn").unwrap();
    assert_eq!(decrypt_file(&MASTER, &file), Ok(b"attack at dawn".to_vec()));
}

#[test]
fn hello_has_the_documented_layout() {
    let file = encrypt_file(&MASTER, b"hello").unwrap();
    assert_eq!(&file[..5], &[0x4C, 0x42, 0x58, 0x31, 0x01]);
    let nonce_len = file[5] as usize;
    let wrapped_key_len = u16::from_be_bytes([file[6], file[7]]) as usize;
    assert_eq!(nonce_len, 12);
    assert_eq!(wrapped_key_len, 48);
    assert_eq!(file.len() - 8, 12 + wrapped_key_len + 21);
    assert_eq!(file.len(), 89);
}

#[test]
fn file_is_header_then_ciphertext() {
    let file = encrypt_fixed(&MASTER, b"hello").unwrap();
    let wrapped = seal_directly(&MASTER, &NONCE, &FILE_KEY);
    let sealed = seal_directly(&FILE_KEY, &NONCE, b"hello");
    assert_eq!(wrapped.len(), 48);
    assert_eq!(sealed.len(), 21);
    assert_eq!(file, frame(&NONCE, &wrapped, &sealed));
    let (header, used) = Header::read_from(&file).unwrap();
    assert_eq!(header.nonce, NONCE.to_vec());
    assert_eq!(header.wrapped_key, wrapped);
    assert_eq!(&file[used..], &sealed[..]);
}

#[test]
fn content_is_sealed_with_aes_256_gcm() {
    let zeros = [0u8; 16];
    let mut file_key = [0u8; 32];
    let file = encrypt_with(&MASTER, &mut file_key, &[0u8; 12], &zeros).unwrap();
    let expected = [
        0xce, 0xa7, 0x40, 0x3d, 0x4d, 0x60, 0x6b, 0x6e, 0x07, 0x4e, 0xc5, 0xd3, 0xba, 0xf3, 0x9d,
        0x18, 0xd0, 0xd1, 0xc8, 0xa7, 0x99, 0x99, 0x6b, 0xf0, 0x26, 0x5b, 0x98, 0xb5, 0xd4, 0x8a,
        0xb9, 0x19,
    ];
    assert_eq!(&file[68..], &expected[..]);
    assert_ne!(&file[68..84], &zeros[..]);
}

#[test]
fn encrypt_with_is_a_function_of_its_arguments() {
    let a = encrypt_fixed(&MASTER, b"same").unwrap();
    let b = encrypt_fixed(&MASTER, b"same").unwrap();
    assert_eq!(a, b);
    let mut file_key = FILE_KEY;
    let c = encrypt_with(&MASTER, &mut file_key, &[0x34; 12], b"same").unwrap();
    assert_ne!(a, c);
    assert_eq!(&a[..8], &c[..8]);
    assert_ne!(&a[8..20], &c[8..20]);
}

#[test]
fn successive_encryptions_differ() {
    let a = encrypt_file(&MASTER, b"identical plaintext").unwrap();
    let b = encrypt_file(&MASTER, b"identical plaintext").unwrap();
    assert_eq!(a.len(), b.len());
    assert_ne!(&a[8..20], &b[8..20], "nonce");
    assert_ne!(&a[20..68], &b[20..68], "wrapped key");
    assert_ne!(&a[68..], &b[68..], "ciphertext");
}

#[test]
fn encrypt_wants_a_master_key_of_32_bytes() {
    for len in [0usize, 16, 31, 33] {
        assert_eq!(encrypt_file(&vec![1u8; len], b"hello"), Err(bad_key()));
        assert_eq!(encrypt_fixed(&vec![1u8; len], b"hello"), Err(bad_key()));
    }
}

#[test]
fn decrypt_wants_a_master_key_of_32_bytes() {
    let file = encrypt_file(&MASTER, b"hello").unwrap();
    for len in [0usize, 16, 31, 33] {
        assert_eq!(decrypt_file(&vec![0x11u8; len], &file), Err(bad_key()));
    }
}

#[test]
fn flipped_bit_in_the_wrapped_key_is_detected() {
    let file = encrypt_file(&MASTER, b"hello").unwrap();
    for at in 20..68 {
        for bit in 0..8 {
            let mut tampered = file.clone();
            tampered[at] ^= 1 << bit;
            assert_eq!(decrypt_file(&MASTER, &tampered), Err(refused()), "byte {} bit {}", at, bit);
        }
    }
}

#[test]
fn flipped_bit_in_the_ciphertext_is_detected() {
    let file = encrypt_file(&MASTER, b"hello").unwrap();
    for at in 68..file.len() {
        for bit in 0..8 {
            let mut tampered = file.clone();
            tampered[at] ^= 1 << bit;
            assert_eq!(decrypt_file(&MASTER, &tampered), Err(refused()), "byte {} bit {}", at, bit);
        }
    }
}

#[test]
fn flipped_bit_in_the_nonce_is_detected() {
    let file = encrypt_file(&MASTER, b"hello").unwrap();
    for at in 8..20 {
        let mut tampered = file.clone();
        tampered[at] ^= 0x80;
        assert_eq!(decrypt_file(&MASTER, &tampered), Err(refused()));
    }
}

#[test]
fn truncated_ciphertext_is_refused() {
    let file = encrypt_file(&MASTER, b"hello").unwrap();
    for kept in 68..file.len() {
        assert_eq!(decrypt_file(&MASTER, &file[..kept]), Err(refused()), "kept {}", kept);
    }
}

#[test]
fn wrong_master_key_is_refused() {
    let file = encrypt_file(&MASTER, b"hello").unwrap();
    assert_eq!(decrypt_file(&[0x12; 32], &file), Err(refused()));
    let mut close = MASTER;
    close[31] ^= 0x01;
    assert_eq!(decrypt_file(&close, &file), Err(refused()));
}

#[test]
fn altered_magic_is_a_format_error() {
    let mut file = encrypt_file(&MASTER, b"hello").unwrap();
    file[0] = b'X';
    assert_eq!(
        decrypt_file(&MASTER, &file),
        Err(LockBoxError::Format("Bad file header".to_string()))
    );
}

#[test]
fn unsupported_version_is_a_format_error() {
    let mut file = encrypt_file(&MASTER, b"hello").unwrap();
    file[4] = 2;
    assert_eq!(
        decrypt_file(&MASTER, &file),
        Err(LockBoxError::Format("Unsupported version".to_string()))
    );
}

#[test]
fn truncated_header_is_an_io_error() {
    let file = encrypt_file(&MASTER, b"hello").unwrap();
    for kept in 0..68 {
        assert_eq!(
            decrypt_file(&MASTER, &file[..kept]),
            Err(LockBoxError::Io("failed to fill whole buffer".to_string())),
            "kept {}",
            kept
        );
    }
}

#[test]
fn header_is_judged_before_the_master_key() {
    let mut file = encrypt_file(&MASTER, b"hello").unwrap();
    file[1] = 0;
    assert_eq!(
        decrypt_file(&[1u8; 5], &file),
        Err(LockBoxError::Format("Bad file header".to_string()))
    );
    assert_eq!(
        decrypt_file(&[1u8; 5], &[]),
        Err(LockBoxError::Io("failed to fill whole buffer".to_string()))
    );
}

#[test]
fn nonce_of_another_length_in_the_header_is_refused() {
    let file = frame(&[0x33; 8], &[0x44; 48], &[0x55; 21]);
    assert_eq!(
        decrypt_file(&MASTER, &file),
        Err(LockBoxError::Crypto("Nonce must be 12 bytes".to_string()))
    );
    assert_eq!(decrypt_file(&[1u8; 5], &file), Err(bad_key()));
}

#[test]
fn wrapped_key_of_another_length_is_refused() {
    let short_key = [0x22u8; 16];
    let wrapped = seal_directly(&MASTER, &NONCE, &short_key);
    let file = frame(&NONCE, &wrapped, &[0x55; 21]);
    assert_eq!(decrypt_file(&MASTER, &file), Err(bad_key()));
}

#[test]
fn file_made_by_hand_decrypts() {
    let wrapped = seal_directly(&MASTER, &NONCE, &FILE_KEY);
    let sealed = seal_directly(&FILE_KEY, &NONCE, b"made elsewhere");
    let file = frame(&NONCE, &wrapped, &sealed);
    assert_eq!(decrypt_file(&MASTER, &file), Ok(b"made elsewhere".to_vec()));
}

#[test]
fn header_alone_is_refused_by_the_cipher() {
    let wrapped = seal_directly(&MASTER, &NONCE, &FILE_KEY);
    let file = frame(&NONCE, &wrapped, &[]);
    assert_eq!(decrypt_file(&MASTER, &file), Err(refused()));
}

#[test]
fn assemble_puts_the_header_first() {
    let header = Header { nonce: vec![1, 2, 3], wrapped_key: vec![4, 5] };
    assert_eq!(
        assemble(&header, &[6, 7, 8, 9]),
        Ok(vec![0x4C, 0x42, 0x58, 0x31, 0x01, 0x03, 0x00, 0x02, 1, 2, 3, 4, 5, 6, 7, 8, 9])
    );
}

#[test]
fn assemble_refuses_a_header_that_does_not_fit() {
    let header = Header { nonce: vec![0; 12], wrapped_key: vec![0; 65536] };
    assert_eq!(
        assemble(&header, &[6, 7, 8, 9]),
        Err(LockBoxError::Format("Wrapped key too long".to_string()))
    );
}

#[test]
fn overhead_is_84_bytes() {
    assert_eq!(OVERHEAD, 84);
    let file = encrypt_file(&MASTER, &[0u8; 1000]).unwrap();
    assert_eq!(file.len(), 1000 + OVERHEAD);
}

#[test]
fn encrypt_with_wipes_the_file_key() {
    let mut file_key = FILE_KEY;
    assert!(encrypt_with(&MASTER, &mut file_key, &NONCE, b"hello").is_ok());
    assert_eq!(file_key, [0u8; 32]);
}

#[test]
fn encrypt_with_wipes_the_file_key_when_it_fails() {
    let mut file_key = FILE_KEY;
    assert_eq!(encrypt_with(&[1u8; 31], &mut file_key, &NONCE, b"hello"), Err(bad_key()));
    assert_eq!(file_key, [0u8; 32]);
}

#[test]
fn take_key32_empties_the_buffer() {
    let mut bytes: Vec<u8> = (100u8..132).collect();
    let key = take_key32(&mut bytes).unwrap();
    assert_eq!(key[0], 100);
    assert_eq!(key[31], 131);
    assert!(bytes.is_empty());
}

#[test]
fn take_key32_empties_a_buffer_that_held_no_key() {
    let mut bytes = vec![9u8; 16];
    assert_eq!(take_key32(&mut bytes), Err(bad_key()));
    assert!(bytes.is_empty());
}

#[test]
fn seal_envelope_makes_the_same_file_as_encrypt_with() {
    let mut master = MASTER;
    let mut file_key = FILE_KEY;
    let file = seal_envelope(&mut master, &mut file_key, &NONCE, b"hello").unwrap();
    assert_eq!(file, encrypt_fixed(&MASTER, b"hello").unwrap());
}

#[test]
fn seal_envelope_wipes_both_keys() {
    let mut master = MASTER;
    let mut file_key = FILE_KEY;
    assert!(seal_envelope(&mut master, &mut file_key, &NONCE, b"hello").is_ok());
    assert_eq!(master, [0u8; 32]);
    assert_eq!(file_key, [0u8; 32]);
}

#[test]
fn wrapped_key_stands_at_bytes_20_to_68() {
    let file = encrypt_fixed(&MASTER, b"hello").unwrap();
    assert_eq!(&file[20..68], &seal_directly(&MASTER, &NONCE, &FILE_KEY)[..]);
    assert_eq!(&file[68..], &seal_directly(&FILE_KEY, &NONCE, b"hello")[..]);
    let (header, _) = Header::read_from(&file).unwrap();
    assert_eq!(header.wrapped_key, seal_directly(&MASTER, &NONCE, &FILE_KEY));
}

#[test]
fn open_envelope_opens_what_was_sealed() {
    let file = encrypt_fixed(&MASTER, b"hello").unwrap();
    let (header, used) = Header::read_from(&file).unwrap();
    let mut master = MASTER;
    assert_eq!(open_envelope(&mut master, &header, &file[used..]), Ok(b"hello".to_vec()));
    assert_eq!(master, [0u8; 32]);
}

#[test]
fn open_envelope_wipes_the_master_key_when_it_fails() {
    let file = encrypt_fixed(&MASTER, b"hello").unwrap();
    let (header, used) = Header::read_from(&file).unwrap();

    let mut wrong = [0x12u8; 32];
    assert_eq!(open_envelope(&mut wrong, &header, &file[used..]), Err(refused()));
    assert_eq!(wrong, [0u8; 32]);

    let mut master = MASTER;
    assert_eq!(open_envelope(&mut master, &header, &file[used..file.len() - 1]), Err(refused()));
    assert_eq!(master, [0u8; 32]);

    let short_nonce = Header { nonce: vec![0x33; 8], wrapped_key: header.wrapped_key.clone() };
    let mut master = MASTER;
    assert_eq!(
        open_envelope(&mut master, &short_nonce, &file[used..]),
        Err(LockBoxError::Crypto("Nonce must be 12 bytes".to_string()))
    );
    assert_eq!(master, [0u8; 32]);
}

#[test]
fn open_content_opens_under_the_file_key() {
    let sealed = seal_directly(&FILE_KEY, &NONCE, b"content");
    let mut file_key = FILE_KEY;
    assert_eq!(open_content(&mut file_key, &NONCE, &sealed), Ok(b"content".to_vec()));
    assert_eq!(file_key, [0u8; 32]);
}

#[test]
fn open_content_wipes_the_file_key_when_it_fails() {
    let mut sealed = seal_directly(&FILE_KEY, &NONCE, b"content");
    sealed[0] ^= 1;
    let mut file_key = FILE_KEY;
    assert_eq!(open_content(&mut file_key, &NONCE, &sealed), Err(refused()));
    assert_eq!(file_key, [0u8; 32]);
}
