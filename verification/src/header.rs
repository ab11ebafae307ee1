//! The binary preamble of an encrypted file.
//!
//! Layout, in order: the magic bytes `LBX1`, one version byte, one byte
//! holding the nonce's length, two bytes holding the wrapped key's length
//! (big-endian), the nonce, the wrapped key.

use vstd::prelude::*;
use vstd::slice::*;
use crate::error::{Failure, LockBoxError, LockBoxResult};

verus! {

/// The nonce and the wrapped file key that precede the ciphertext.
#[derive(Debug, PartialEq, Eq)]
pub struct Header {
    pub nonce: Vec<u8>,
    pub wrapped_key: Vec<u8>,
}

/// A header as mathematical values.
pub struct HeaderView {
    pub nonce: Seq<u8>,
    pub wrapped_key: Seq<u8>,
}

impl View for Header {
    type V = HeaderView;

    open spec fn view(&self) -> HeaderView {
        HeaderView { nonce: self.nonce@, wrapped_key: self.wrapped_key@ }
    }
}

/// The largest nonce whose length fits its one-byte prefix.
pub const MAX_NONCE_LEN: usize = 255;

/// The largest wrapped key whose length fits its two-byte prefix.
pub const MAX_WRAPPED_KEY_LEN: usize = 65535;

/// The number of bytes in front of the nonce.
pub const FIXED_LEN: usize = 8;

/// Magic and version: the five bytes every encoded header starts with.
pub open spec fn preamble() -> Seq<u8> {
    Header::MAGIC@.push(Header::VERSION)
}

impl HeaderView {
    /// Both fields are short enough for their length prefixes.
    pub open spec fn fits(self) -> bool {
        self.nonce.len() <= MAX_NONCE_LEN && self.wrapped_key.len() <= MAX_WRAPPED_KEY_LEN
    }

    /// The three length bytes: the nonce's length, then the wrapped key's
    /// length with its high byte first.
    pub open spec fn length_prefix(self) -> Seq<u8> {
        seq![
            self.nonce.len() as u8,
            (self.wrapped_key.len() / 256) as u8,
            (self.wrapped_key.len() % 256) as u8,
        ]
    }

    /// The bytes of a header that fits.
    pub open spec fn encoded(self) -> Seq<u8> {
        preamble() + self.length_prefix() + self.nonce + self.wrapped_key
    }

    /// Why a header that does not fit is refused.
    pub open spec fn refusal(self) -> Failure {
        if self.nonce.len() > MAX_NONCE_LEN {
            Failure::Format("Nonce too long"@)
        } else {
            Failure::Format("Wrapped key too long"@)
        }
    }
}

/// The fault raised when the input ends inside the header.
pub open spec fn truncated() -> Failure {
    Failure::Io("failed to fill whole buffer"@)
}

/// The input starts with the magic.
pub open spec fn has_magic(s: Seq<u8>) -> bool {
    &&& s.len() >= 4
    &&& s[0] == Header::MAGIC[0]
    &&& s[1] == Header::MAGIC[1]
    &&& s[2] == Header::MAGIC[2]
    &&& s[3] == Header::MAGIC[3]
}

/// The length that the two big-endian bytes at offsets 6 and 7 declare.
pub open spec fn declared_key_len(s: Seq<u8>) -> int {
    s[6] * 256 + s[7]
}

/// What reading a header from the front of `s` gives: the header and the
/// number of bytes it occupies, or the first fault met when reading the
/// fields in order, each one checked as soon as it has been read.
pub open spec fn parsed(s: Seq<u8>) -> Result<(HeaderView, int), Failure> {
    if s.len() < 4 {
        Err(truncated())
    } else if !has_magic(s) {
        Err(Failure::Format("Bad file header"@))
    } else if s.len() < 5 {
        Err(truncated())
    } else if s[4] != Header::VERSION {
        Err(Failure::Format("Unsupported version"@))
    } else if s.len() < FIXED_LEN || s.len() < FIXED_LEN + s[5] + declared_key_len(s) {
        Err(truncated())
    } else {
        let key_at = FIXED_LEN + s[5];
        let end = key_at + declared_key_len(s);
        Ok((HeaderView { nonce: s.subrange(8, key_at), wrapped_key: s.subrange(key_at, end) }, end))
    }
}

impl Header {
    /// The four bytes every encrypted file starts with: `LBX1`.
    pub const MAGIC: [u8; 4] = [0x4C, 0x42, 0x58, 0x31];

    /// The one version of the layout that is written and read.
    pub const VERSION: u8 = 1;

    /// Appends the encoded header to `w`.
    ///
    /// Both lengths are examined before anything is written, so a header
    /// that does not fit leaves `w` as it was.
    pub fn write_to(&self, w: &mut Vec<u8>) -> (r: LockBoxResult<()>)
        ensures
            r is Ok <==> self@.fits(),
            r is Ok ==> final(w)@ == old(w)@ + self@.encoded(),
            r matches Err(e) ==> e@ == self@.refusal() && final(w)@ == old(w)@,
    {
        if self.nonce.len() > MAX_NONCE_LEN {
            return Err(LockBoxError::Format("Nonce too long".to_owned()));
        }
        if self.wrapped_key.len() > MAX_WRAPPED_KEY_LEN {
            return Err(LockBoxError::Format("Wrapped key too long".to_owned()));
        }
        w.extend_from_slice(Self::MAGIC.as_slice());
        w.push(Self::VERSION);
        w.push(self.nonce.len() as u8);
        let key_len: u16 = self.wrapped_key.len() as u16;
        w.push((key_len / 256) as u8);
        w.push((key_len % 256) as u8);
        w.extend_from_slice(self.nonce.as_slice());
        w.extend_from_slice(self.wrapped_key.as_slice());
        Ok(())
    }

    /// Reads a header from the front of `r` and says how many bytes it took.
    pub fn read_from(r: &[u8]) -> (out: LockBoxResult<(Header, usize)>)
        ensures
            match out {
                Ok((header, used)) => parsed(r@) == Ok::<_, Failure>((header@, used as int)),
                Err(e) => parsed(r@) == Err::<(HeaderView, int), _>(e@),
            },
    {
        let len = r.len();
        if len < 4 {
            return Err(LockBoxError::Io("failed to fill whole buffer".to_owned()));
        }
        if r[0] != Self::MAGIC[0] || r[1] != Self::MAGIC[1] || r[2] != Self::MAGIC[2] || r[3]
            != Self::MAGIC[3] {
            return Err(LockBoxError::Format("Bad file header".to_owned()));
        }
        if len < 5 {
            return Err(LockBoxError::Io("failed to fill whole buffer".to_owned()));
        }
        if r[4] != Self::VERSION {
            return Err(LockBoxError::Format("Unsupported version".to_owned()));
        }
        if len < FIXED_LEN {
            return Err(LockBoxError::Io("failed to fill whole buffer".to_owned()));
        }
        let nonce_len: usize = r[5] as usize;
        let wrapped_len: usize = r[6] as usize * 256 + r[7] as usize;
        if len - FIXED_LEN < nonce_len + wrapped_len {
            return Err(LockBoxError::Io("failed to fill whole buffer".to_owned()));
        }
        let key_at: usize = FIXED_LEN + nonce_len;
        let end: usize = key_at + wrapped_len;
        let nonce = slice_to_vec(slice_subrange(r, FIXED_LEN, key_at));
        let wrapped_key = slice_to_vec(slice_subrange(r, key_at, end));
        Ok((Header { nonce, wrapped_key }, end))
    }
}

/// Reading back what was written: a header that fits, encoded and followed
/// by any bytes at all, is read as that header, and the bytes taken are
/// exactly its encoding.
pub proof fn lemma_read_after_write(h: HeaderView, rest: Seq<u8>)
    requires
        h.fits(),
    ensures
        h.encoded().len() == FIXED_LEN + h.nonce.len() + h.wrapped_key.len(),
        parsed(h.encoded() + rest) == Ok::<_, Failure>((h, h.encoded().len() as int)),
        (h.encoded() + rest).skip(h.encoded().len() as int) == rest,
{
    let s = h.encoded() + rest;
    let n = h.nonce.len() as int;
    let k = h.wrapped_key.len() as int;
    assert(s.subrange(8, 8 + n) =~= h.nonce);
    assert(s.subrange(8 + n, 8 + n + k) =~= h.wrapped_key);
}

/// Writing back what was read: a header is only ever read from its own
/// encoding. Whatever input a header is read from starts with the encoding
/// of that header, and the bytes taken are exactly that encoding.
pub proof fn lemma_write_after_read(s: Seq<u8>)
    ensures
        parsed(s) matches Ok((h, used)) ==> {
            &&& h.fits()
            &&& 0 <= used <= s.len()
            &&& s.take(used) == h.encoded()
        },
{
    if let Ok((h, used)) = parsed(s) {
        assert(s.take(used) =~= h.encoded());
    }
}

/// Altered magic: input of four bytes or more that does not start with
/// the magic is refused as malformed, whatever follows.
pub proof fn lemma_altered_magic(s: Seq<u8>)
    requires
        s.len() >= 4,
        !has_magic(s),
    ensures
        parsed(s) == Err::<(HeaderView, int), _>(Failure::Format("Bad file header"@)),
{
}

/// Unsupported version: input that starts with the magic and goes on with
/// any byte other than the supported version is refused as malformed.
pub proof fn lemma_unsupported_version(s: Seq<u8>)
    requires
        s.len() >= 5,
        has_magic(s),
        s[4] != Header::VERSION,
    ensures
        parsed(s) == Err::<(HeaderView, int), _>(Failure::Format("Unsupported version"@)),
{
}

/// Truncation: every proper prefix of an encoded header is refused because
/// the input ended too early.
pub proof fn lemma_truncated_header(h: HeaderView, kept: int)
    requires
        h.fits(),
        0 <= kept < h.encoded().len(),
    ensures
        parsed(h.encoded().take(kept)) == Err::<(HeaderView, int), _>(truncated()),
{
    let full = h.encoded();
    let s = full.take(kept);
    lemma_read_after_write(h, Seq::empty());
}

} // verus!
