//! The envelope: a fresh file key wrapped under the master key, and the
//! content sealed under the file key, both with one nonce.
//!
//! An encrypted file is the header, which carries the nonce and the wrapped
//! file key, followed by the sealed content up to the end of the file.

use vstd::prelude::*;
use vstd::slice::*;
use crate::cipher::{
    aes256_gcm_opened, aes256_gcm_sealed, open, refusal_text, seal, KEY_LEN, MAX_PLAINTEXT_LEN,
    NONCE_LEN, TAG_LEN,
};
use crate::error::{outcome, Failure, LockBoxError, LockBoxResult};
use crate::header::{lemma_read_after_write, parsed, Header, HeaderView, FIXED_LEN};
use crate::secret::{fill_random, wipe, wipe_key, wiped};

verus! {

/// By how many bytes an encrypted file is longer than its plaintext: the
/// fixed part of the header, the nonce, the wrapped key with its tag, and
/// the tag of the content.
pub const OVERHEAD: usize = FIXED_LEN + NONCE_LEN + KEY_LEN + TAG_LEN + TAG_LEN;

/// The fault raised for a key that is not 32 bytes long.
pub open spec fn wrong_key_length() -> Failure {
    Failure::Crypto("Key must be 32 bytes"@)
}

/// The fault raised for a nonce that is not 12 bytes long.
pub open spec fn wrong_nonce_length() -> Failure {
    Failure::Crypto("Nonce must be 12 bytes"@)
}

/// The fault raised when the cipher refuses to seal or to open.
pub open spec fn refused() -> Failure {
    Failure::Crypto(refusal_text())
}

/// The eight bytes every encrypted file starts with: magic, version, the
/// nonce's length (12) and the wrapped key's length (48).
pub open spec fn file_prefix() -> Seq<u8> {
    seq![0x4Cu8, 0x42u8, 0x58u8, 0x31u8, 1u8, 12u8, 0u8, 48u8]
}

/// The header that stands in front of content sealed under `file_key`:
/// the nonce, and the file key wrapped under the master key.
pub open spec fn envelope_header(master: Seq<u8>, file_key: Seq<u8>, nonce: Seq<u8>) -> HeaderView {
    HeaderView { nonce, wrapped_key: aes256_gcm_sealed(master, nonce, file_key) }
}

/// The encrypted file for a plaintext, given the file key and the nonce
/// that were drawn for it.
pub open spec fn sealed_file(
    master: Seq<u8>,
    file_key: Seq<u8>,
    nonce: Seq<u8>,
    plaintext: Seq<u8>,
) -> Result<Seq<u8>, Failure>
    recommends
        file_key.len() == KEY_LEN,
        nonce.len() == NONCE_LEN,
{
    if master.len() != KEY_LEN {
        Err(wrong_key_length())
    } else if plaintext.len() > MAX_PLAINTEXT_LEN {
        Err(refused())
    } else {
        Ok(
            envelope_header(master, file_key, nonce).encoded() + aes256_gcm_sealed(
                file_key,
                nonce,
                plaintext,
            ),
        )
    }
}

/// What opening the content under a file key gives: the plaintext, or the
/// cipher's refusal.
pub open spec fn opened_content(file_key: Seq<u8>, nonce: Seq<u8>, ciphertext: Seq<u8>) -> Result<
    Seq<u8>,
    Failure,
> {
    match aes256_gcm_opened(file_key, nonce, ciphertext) {
        None => Err(refused()),
        Some(plaintext) => Ok(plaintext),
    }
}

/// The plaintext behind a header and the ciphertext that follows it: the
/// master key opens the wrapped key, and what comes out, if it is a key,
/// opens the content.
pub open spec fn opened_parts(master: Seq<u8>, h: HeaderView, ciphertext: Seq<u8>) -> Result<
    Seq<u8>,
    Failure,
> {
    if master.len() != KEY_LEN {
        Err(wrong_key_length())
    } else if h.nonce.len() != NONCE_LEN {
        Err(wrong_nonce_length())
    } else {
        match aes256_gcm_opened(master, h.nonce, h.wrapped_key) {
            None => Err(refused()),
            Some(file_key) => if file_key.len() != KEY_LEN {
                Err(wrong_key_length())
            } else {
                opened_content(file_key, h.nonce, ciphertext)
            },
        }
    }
}

/// The plaintext of an encrypted file: the header is read from its front,
/// and all that follows the header is the ciphertext.
pub open spec fn opened_file(master: Seq<u8>, file: Seq<u8>) -> Result<Seq<u8>, Failure> {
    match parsed(file) {
        Err(fault) => Err(fault),
        Ok((h, used)) => opened_parts(master, h, file.skip(used)),
    }
}

/// What holds of a file that was sealed for `plaintext` with `file_key` and
/// `nonce` under `master`: where its parts stand, what they are, and that
/// each part opens to what it was made from.
pub open spec fn well_sealed(
    file: Seq<u8>,
    master: Seq<u8>,
    file_key: Seq<u8>,
    nonce: Seq<u8>,
    plaintext: Seq<u8>,
) -> bool {
    let wrapped_key = file.subrange(20, 68);
    let ciphertext = file.subrange(68, file.len() as int);
    &&& file.len() == OVERHEAD + plaintext.len()
    &&& file.subrange(0, 8) == file_prefix()
    &&& file.subrange(8, 20) == nonce
    &&& wrapped_key == aes256_gcm_sealed(master, nonce, file_key)
    &&& ciphertext == aes256_gcm_sealed(file_key, nonce, plaintext)
    &&& aes256_gcm_opened(master, nonce, wrapped_key) == Some(file_key)
    &&& aes256_gcm_opened(file_key, nonce, ciphertext) == Some(plaintext)
    &&& opened_file(master, file) == Ok::<_, Failure>(plaintext)
}

/// Copies `N` bytes into an array of that size, if there are exactly `N`.
fn to_array<const N: usize>(bytes: &[u8]) -> (r: Option<[u8; N]>)
    ensures
        r is Some <==> bytes@.len() == N,
        r matches Some(array) ==> array@ == bytes@,
{
    if bytes.len() != N {
        return None;
    }
    let mut array = [0u8; N];
    let mut i: usize = 0;
    while i < N
        invariant
            i <= N,
            bytes@.len() == N,
            forall|j: int| 0 <= j < i ==> array@[j] == bytes@[j],
        decreases N - i,
    {
        array[i] = bytes[i];
        i += 1;
    }
    Some(array)
}

/// Copies a key of exactly 32 bytes into a fixed-size array.
pub fn to_key32(bytes: &[u8]) -> (r: LockBoxResult<[u8; 32]>)
    ensures
        r is Ok <==> bytes@.len() == KEY_LEN,
        r matches Ok(key) ==> key@ == bytes@,
        r matches Err(e) ==> e@ == wrong_key_length(),
{
    match to_array(bytes) {
        Some(key) => Ok(key),
        None => Err(LockBoxError::Crypto("Key must be 32 bytes".to_owned())),
    }
}

/// Copies a nonce of exactly 12 bytes into a fixed-size array.
pub fn to_nonce12(bytes: &[u8]) -> (r: LockBoxResult<[u8; 12]>)
    ensures
        r is Ok <==> bytes@.len() == NONCE_LEN,
        r matches Ok(nonce) ==> nonce@ == bytes@,
        r matches Err(e) ==> e@ == wrong_nonce_length(),
{
    match to_array(bytes) {
        Some(nonce) => Ok(nonce),
        None => Err(LockBoxError::Crypto("Nonce must be 12 bytes".to_owned())),
    }
}

/// Moves a key of exactly 32 bytes out of a buffer: the key is copied into
/// a fixed-size array, and the buffer is wiped and left empty whether or
/// not it held a key.
pub fn take_key32(bytes: &mut Vec<u8>) -> (r: LockBoxResult<[u8; 32]>)
    ensures
        r is Ok <==> old(bytes)@.len() == KEY_LEN,
        r matches Ok(key) ==> key@ == old(bytes)@,
        r matches Err(e) ==> e@ == wrong_key_length(),
        final(bytes)@.len() == 0,
{
    let r = to_key32(bytes.as_slice());
    wipe(bytes);
    r
}

/// Puts a file together: the encoded header, then the ciphertext.
pub fn assemble(header: &Header, ciphertext: &[u8]) -> (r: LockBoxResult<Vec<u8>>)
    ensures
        r is Ok <==> header@.fits(),
        r matches Ok(file) ==> file@ == header@.encoded() + ciphertext@,
        r matches Err(e) ==> e@ == header@.refusal(),
{
    let mut file: Vec<u8> = Vec::new();
    match header.write_to(&mut file) {
        Ok(()) => {},
        Err(e) => {
            return Err(e);
        },
    }
    file.extend_from_slice(ciphertext);
    Ok(file)
}

/// Wraps the file key, seals the content, puts the file together, and uses
/// both keys up.
///
/// Whether or not a file comes back, the master key and the file key are
/// wiped.
pub fn seal_envelope(
    master: &mut [u8; 32],
    file_key: &mut [u8; 32],
    nonce: &[u8; 12],
    plaintext: &[u8],
) -> (r: LockBoxResult<Vec<u8>>)
    ensures
        outcome(r) == sealed_file(old(master)@, old(file_key)@, nonce@, plaintext@),
        r matches Ok(file) ==> well_sealed(
            file@,
            old(master)@,
            old(file_key)@,
            nonce@,
            plaintext@,
        ),
        wiped(final(master)@),
        wiped(final(file_key)@),
{
    let wrapped = seal(&*master, nonce, file_key.as_slice());
    wipe_key(master);
    let sealed = seal(&*file_key, nonce, plaintext);
    wipe_key(file_key);
    let wrapped_key = match wrapped {
        Ok(bytes) => bytes,
        Err(text) => {
            return Err(LockBoxError::Crypto(text));
        },
    };
    let ciphertext = match sealed {
        Ok(bytes) => bytes,
        Err(text) => {
            return Err(LockBoxError::Crypto(text));
        },
    };
    let header = Header { nonce: slice_to_vec(nonce.as_slice()), wrapped_key };
    proof {
        lemma_round_trip(old(master)@, old(file_key)@, nonce@, plaintext@);
    }
    assemble(&header, ciphertext.as_slice())
}

/// Encrypts `plaintext` with a given file key and nonce, and uses the file
/// key up.
///
/// The file key is wrapped under the master key, the content is sealed
/// under the file key, and both use the one nonce. What comes back is the
/// whole file. Decrypting it under the same master key gives the plaintext
/// back. Whether or not a file comes back, the file key is wiped.
pub fn encrypt_with(
    master_key: &[u8],
    file_key: &mut [u8; 32],
    nonce: &[u8; 12],
    plaintext: &[u8],
) -> (r: LockBoxResult<Vec<u8>>)
    ensures
        outcome(r) == sealed_file(master_key@, old(file_key)@, nonce@, plaintext@),
        r matches Ok(file) ==> well_sealed(
            file@,
            master_key@,
            old(file_key)@,
            nonce@,
            plaintext@,
        ),
        wiped(final(file_key)@),
{
    match to_key32(master_key) {
        Ok(mut master) => seal_envelope(&mut master, file_key, nonce, plaintext),
        Err(e) => {
            wipe_key(file_key);
            Err(e)
        },
    }
}

/// Encrypts `input` under a fresh random file key and a fresh random nonce.
///
/// Succeeds exactly when the master key is 32 bytes long and the input is
/// no longer than the cipher takes. The file key is wiped before returning.
pub fn encrypt_file(master_key: &[u8], input: &[u8]) -> (r: LockBoxResult<Vec<u8>>)
    ensures
        exists|file_key: Seq<u8>, nonce: Seq<u8>|
            {
                &&& file_key.len() == KEY_LEN
                &&& nonce.len() == NONCE_LEN
                &&& outcome(r) == #[trigger] sealed_file(master_key@, file_key, nonce, input@)
                &&& r matches Ok(file) ==> well_sealed(file@, master_key@, file_key, nonce, input@)
            },
        r is Ok <==> master_key@.len() == KEY_LEN && input@.len() <= MAX_PLAINTEXT_LEN,
        r matches Ok(file) ==> {
            &&& file@.len() == OVERHEAD + input@.len()
            &&& file@.subrange(0, 8) == file_prefix()
            &&& opened_file(master_key@, file@) == Ok::<_, Failure>(input@)
        },
{
    let mut file_key = [0u8; 32];
    fill_random(&mut file_key);
    let mut nonce = [0u8; 12];
    fill_random(&mut nonce);
    encrypt_with(master_key, &mut file_key, &nonce, input)
}

/// Opens the content under the file key, and uses the file key up: whether
/// or not the content opens, the key is wiped.
pub fn open_content(file_key: &mut [u8; 32], nonce: &[u8; 12], ciphertext: &[u8]) -> (r:
    LockBoxResult<Vec<u8>>)
    ensures
        outcome(r) == opened_content(old(file_key)@, nonce@, ciphertext@),
        wiped(final(file_key)@),
{
    let opened = open(&*file_key, nonce, ciphertext);
    wipe_key(file_key);
    match opened {
        Ok(plaintext) => Ok(plaintext),
        Err(text) => Err(LockBoxError::Crypto(text)),
    }
}

/// Opens the two parts of a file, and uses the master key up.
///
/// The master key opens the header's wrapped key, and the file key that
/// comes out opens the content. Whatever the outcome, the master key is
/// wiped; so are the file key and the buffer it came in.
pub fn open_envelope(master: &mut [u8; 32], header: &Header, ciphertext: &[u8]) -> (r:
    LockBoxResult<Vec<u8>>)
    ensures
        outcome(r) == opened_parts(old(master)@, header@, ciphertext@),
        wiped(final(master)@),
{
    let nonce = match to_nonce12(header.nonce.as_slice()) {
        Ok(nonce) => nonce,
        Err(e) => {
            wipe_key(master);
            return Err(e);
        },
    };
    let unwrapped = open(&*master, &nonce, header.wrapped_key.as_slice());
    wipe_key(master);
    let mut unwrapped_key = match unwrapped {
        Ok(bytes) => bytes,
        Err(text) => {
            return Err(LockBoxError::Crypto(text));
        },
    };
    let mut file_key = match take_key32(&mut unwrapped_key) {
        Ok(key) => key,
        Err(e) => {
            return Err(e);
        },
    };
    open_content(&mut file_key, &nonce, ciphertext)
}

/// Decrypts an encrypted file.
///
/// The header is read first; then the master key opens the wrapped key, and
/// the file key opens the content. Nothing is returned unless both openings
/// authenticate. Every copy of a key made on the way is wiped.
pub fn decrypt_file(master_key: &[u8], input: &[u8]) -> (r: LockBoxResult<Vec<u8>>)
    ensures
        outcome(r) == opened_file(master_key@, input@),
{
    let (header, used) = match Header::read_from(input) {
        Ok(found) => found,
        Err(e) => {
            return Err(e);
        },
    };
    let mut master = match to_key32(master_key) {
        Ok(key) => key,
        Err(e) => {
            return Err(e);
        },
    };
    open_envelope(&mut master, &header, slice_subrange(input, used, input.len()))
}

/// The cipher gives back, under the same key and nonce, what it sealed, and
/// its ciphertext is longer than the plaintext by the tag.
pub open spec fn cipher_restores(key: Seq<u8>, nonce: Seq<u8>, plaintext: Seq<u8>) -> bool {
    let ciphertext = aes256_gcm_sealed(key, nonce, plaintext);
    &&& ciphertext.len() == plaintext.len() + TAG_LEN
    &&& aes256_gcm_opened(key, nonce, ciphertext) == Some(plaintext)
}

/// The cipher authenticates both parts of a file under `master`: the
/// wrapped key opens to a key, and that key opens the content.
pub open spec fn authenticates(master: Seq<u8>, h: HeaderView, ciphertext: Seq<u8>) -> bool {
    &&& aes256_gcm_opened(master, h.nonce, h.wrapped_key) matches Some(file_key)
    &&& file_key.len() == KEY_LEN
    &&& aes256_gcm_opened(file_key, h.nonce, ciphertext) is Some
}

/// A file with one byte of its wrapped key or of its ciphertext replaced,
/// as the header and the ciphertext that it then consists of. `at` counts
/// from the start of the file.
pub open spec fn with_byte(h: HeaderView, ciphertext: Seq<u8>, at: int, byte: u8) -> (
    HeaderView,
    Seq<u8>,
) {
    let key_at = FIXED_LEN + h.nonce.len();
    let end = key_at + h.wrapped_key.len();
    if at < end {
        (
            HeaderView { nonce: h.nonce, wrapped_key: h.wrapped_key.update(at - key_at, byte) },
            ciphertext,
        )
    } else {
        (h, ciphertext.update(at - end, byte))
    }
}

/// Decrypting a framed file is opening its two parts: whatever stands
/// behind a header that fits is taken as the ciphertext, to the last byte.
pub proof fn lemma_opened_framed(master: Seq<u8>, h: HeaderView, ciphertext: Seq<u8>)
    requires
        h.fits(),
    ensures
        opened_file(master, h.encoded() + ciphertext) == opened_parts(master, h, ciphertext),
{
    lemma_read_after_write(h, ciphertext);
}

/// Round trip: where the cipher restores what it seals, a plaintext that
/// the cipher takes, encrypted under a master key of 32 bytes with any file
/// key and nonce, decrypts under that master key to itself. The file is
/// longer than the plaintext by `OVERHEAD`, starts with the fixed prefix,
/// and holds the nonce, the wrapped key and the sealed content in turn.
pub proof fn lemma_round_trip(
    master: Seq<u8>,
    file_key: Seq<u8>,
    nonce: Seq<u8>,
    plaintext: Seq<u8>,
)
    requires
        master.len() == KEY_LEN,
        file_key.len() == KEY_LEN,
        nonce.len() == NONCE_LEN,
        plaintext.len() <= MAX_PLAINTEXT_LEN,
        cipher_restores(master, nonce, file_key),
        cipher_restores(file_key, nonce, plaintext),
    ensures
        envelope_header(master, file_key, nonce).fits(),
        sealed_file(master, file_key, nonce, plaintext) matches Ok(file) && well_sealed(
            file,
            master,
            file_key,
            nonce,
            plaintext,
        ),
{
    let h = envelope_header(master, file_key, nonce);
    let ciphertext = aes256_gcm_sealed(file_key, nonce, plaintext);
    let file = h.encoded() + ciphertext;
    lemma_read_after_write(h, ciphertext);
    lemma_opened_framed(master, h, ciphertext);
    assert(file.subrange(0, 8) =~= file_prefix());
    assert(file.subrange(8, 20) =~= nonce);
    assert(file.subrange(20, 68) =~= h.wrapped_key);
    assert(file.subrange(68, file.len() as int) =~= ciphertext);
}

/// Wrong key: a framed file is refused with a Crypto error under every key
/// with which the cipher does not authenticate it, and it decrypts only
/// under a key with which the cipher does.
pub proof fn lemma_wrong_key_rejected(key: Seq<u8>, h: HeaderView, ciphertext: Seq<u8>)
    requires
        h.fits(),
    ensures
        !authenticates(key, h, ciphertext) ==> opened_file(key, h.encoded() + ciphertext) matches Err(
            Failure::Crypto(_),
        ),
        opened_file(key, h.encoded() + ciphertext) is Ok ==> authenticates(key, h, ciphertext),
{
    lemma_opened_framed(key, h, ciphertext);
}

/// Tampering reaches the cipher: with one byte of the wrapped key or of the
/// ciphertext replaced, the file still reads as a header and a ciphertext
/// of the same lengths, and the replaced byte is in a part that is
/// authenticated. So decryption either fails with a Crypto error or returns
/// what the cipher authenticated; it fails whenever the cipher does not
/// authenticate the changed parts.
pub proof fn lemma_tamper_detected(
    master: Seq<u8>,
    h: HeaderView,
    ciphertext: Seq<u8>,
    at: int,
    byte: u8,
)
    requires
        h.fits(),
        FIXED_LEN + h.nonce.len() <= at < (h.encoded() + ciphertext).len(),
    ensures
        ({
            let (changed, rest) = with_byte(h, ciphertext, at, byte);
            let file = (h.encoded() + ciphertext).update(at, byte);
            &&& file == changed.encoded() + rest
            &&& opened_file(master, file) == opened_parts(master, changed, rest)
            &&& opened_file(master, file) is Ok ==> authenticates(master, changed, rest)
            &&& !authenticates(master, changed, rest) ==> opened_file(master, file) matches Err(
                Failure::Crypto(_),
            )
        }),
{
    let (changed, rest) = with_byte(h, ciphertext, at, byte);
    lemma_read_after_write(h, ciphertext);
    lemma_read_after_write(changed, rest);
    assert((h.encoded() + ciphertext).update(at, byte) =~= changed.encoded() + rest);
    lemma_opened_framed(master, changed, rest);
}

/// A fresh nonce makes a fresh file: two framed files whose nonces differ
/// are different files, whatever else they hold.
pub proof fn lemma_nonce_tells_files_apart(
    h1: HeaderView,
    ciphertext1: Seq<u8>,
    h2: HeaderView,
    ciphertext2: Seq<u8>,
)
    requires
        h1.fits(),
        h2.fits(),
        h1.nonce != h2.nonce,
    ensures
        h1.encoded() + ciphertext1 != h2.encoded() + ciphertext2,
{
    lemma_read_after_write(h1, ciphertext1);
    lemma_read_after_write(h2, ciphertext2);
}

} // verus!
