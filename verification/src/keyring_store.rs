//! The master key and the store that keeps it.
//!
//! The store holds at most one secret: the master key as base64 text. The
//! library works on a copy of the store in memory, or on what a lookup in
//! the real store gave; whoever owns the real secret store does the lookup
//! before a call and saves what the call hands back.

use vstd::prelude::*;
use crate::cipher::KEY_LEN;
use crate::encoding::{base64_decoded, base64_encoded, decode, decodes_to, encode_key};
use crate::error::{outcome, Failure, LockBoxError, LockBoxResult};
use crate::secret::{fill_random, wipe_key, wiped};

verus! {

/// The service under which the master key is kept in a secret store.
pub const SERVICE: &'static str = "lockbox";

/// The account under which the master key is kept in a secret store.
pub const ACCOUNT: &'static str = "master-key";

/// What the secret store holds for the lockbox: the encoded master key, or
/// nothing.
#[derive(Debug, PartialEq, Eq)]
pub struct KeyStore {
    pub secret: Option<String>,
}

impl View for KeyStore {
    type V = Option<Seq<char>>;

    open spec fn view(&self) -> Option<Seq<char>> {
        text_of(self.secret)
    }
}

/// A secret, if there is one, as the characters it consists of.
pub open spec fn text_of(secret: Option<String>) -> Option<Seq<char>> {
    match secret {
        Some(text) => Some(text@),
        None => None,
    }
}

/// The fault raised when the store holds no secret.
pub open spec fn not_found() -> Failure {
    Failure::Keyring("No matching entry found in secure storage"@)
}

impl KeyStore {
    /// A store that holds nothing.
    pub fn new() -> (store: KeyStore)
        ensures
            store@ is None,
    {
        KeyStore { secret: None }
    }

    /// The secret, if there is one. It is lent, not copied.
    pub fn get(&self) -> (r: LockBoxResult<&str>)
        ensures
            match self@ {
                Some(text) => r matches Ok(found) && found@ == text,
                None => r matches Err(e) && e@ == not_found(),
            },
    {
        match &self.secret {
            Some(text) => Ok(text.as_str()),
            None => Err(
                LockBoxError::Keyring("No matching entry found in secure storage".to_owned()),
            ),
        }
    }

    /// Replaces whatever the store held by `secret`.
    pub fn set(&mut self, secret: String)
        ensures
            final(self)@ == Some(secret@),
    {
        self.secret = Some(secret);
    }
}

/// The text decodes to a key of the right length.
pub open spec fn holds_key(text: Seq<char>) -> bool {
    base64_decoded(text) matches Ok(key) && key.len() == KEY_LEN
}

/// How initialization changes the store: a secret that is there stays as
/// it is, and an empty store receives a fresh key.
pub open spec fn initialized(before: Option<Seq<char>>, after: Option<Seq<char>>) -> bool {
    match before {
        Some(_) => after == before,
        None => after matches Some(text) && holds_key(text),
    }
}

/// What loading the master key gives: the decoded secret, or why there is
/// none.
pub open spec fn loaded(store: Option<Seq<char>>) -> Result<Seq<u8>, Failure> {
    match store {
        None => Err(not_found()),
        Some(text) => match base64_decoded(text) {
            Ok(key) => Ok(key),
            Err(complaint) => Err(Failure::Keyring(complaint)),
        },
    }
}

/// Puts `key` into the store as base64 text, in place of whatever the
/// store held, and wipes the key.
pub fn store_key(store: &mut KeyStore, key: &mut [u8; 32])
    ensures
        final(store)@ == Some(base64_encoded(old(key)@)),
        final(store)@ matches Some(text) && decodes_to(text, old(key)@),
        wiped(final(key)@),
{
    let text = encode_key(&*key);
    wipe_key(key);
    store.set(text);
}

/// Makes sure the store holds a master key, and says whether one had to be
/// created.
///
/// A store that already holds a secret is left alone. An empty store
/// receives 32 fresh random bytes as base64 text; the bytes themselves are
/// wiped before returning.
pub fn init_master_key(store: &mut KeyStore) -> (created: bool)
    ensures
        initialized(old(store)@, final(store)@),
        created <==> old(store)@ is None,
{
    if store.secret.is_some() {
        return false;
    }
    let mut key = [0u8; 32];
    fill_random(&mut key);
    store_key(store, &mut key);
    true
}

/// What looking the master key up in a secret store gave.
#[derive(Debug, PartialEq, Eq)]
pub enum Lookup {
    /// The store holds this secret.
    Found(String),
    /// The store was read, and it holds no secret.
    Missing,
    /// The store could not be read; the text says why.
    Failed(String),
}

impl Lookup {
    /// What the store is known to hold: the secret that was found, or
    /// nothing.
    pub open spec fn held(self) -> Option<Seq<char>> {
        match self {
            Lookup::Found(text) => Some(text@),
            _ => None,
        }
    }
}

/// What a store holds once a change has been saved to it: the new secret,
/// or, where there is nothing to save, what it held before.
pub open spec fn saved(before: Option<Seq<char>>, change: Option<Seq<char>>) -> Option<Seq<char>> {
    match change {
        Some(text) => Some(text),
        None => before,
    }
}

/// Decides, from what a lookup gave, what initialization has to do.
///
/// A secret that was found stays: there is nothing to save. A store that
/// holds none receives a fresh key: its text is handed back to be saved. A
/// store that could not be read is left alone, and the failure is reported
/// as a Keyring error; no key is made for it.
///
/// Where the store could be read, saving what is handed back changes the
/// store exactly as initialization does.
pub fn init_from(found: Lookup) -> (r: LockBoxResult<Option<String>>)
    ensures
        match found {
            Lookup::Found(_) => r matches Ok(None),
            Lookup::Missing => r matches Ok(Some(text)) && holds_key(text@),
            Lookup::Failed(why) => r matches Err(e) && e@ == Failure::Keyring(why@),
        },
        r matches Ok(change) ==> initialized(found.held(), saved(found.held(), text_of(change))),
{
    match found {
        Lookup::Found(_) => Ok(None),
        Lookup::Missing => {
            let mut store = KeyStore::new();
            init_master_key(&mut store);
            Ok(store.secret)
        },
        Lookup::Failed(why) => Err(LockBoxError::Keyring(why)),
    }
}

/// Decodes the master key that the store holds.
///
/// The length of the key is not examined here: a key of the wrong length is
/// refused when it is used. The key belongs to the caller from here on, and
/// it is the caller who wipes it.
pub fn load_master_key(store: &KeyStore) -> (r: LockBoxResult<Vec<u8>>)
    ensures
        outcome(r) == loaded(store@),
{
    let text = match store.get() {
        Ok(text) => text,
        Err(e) => {
            return Err(e);
        },
    };
    match decode(text) {
        Ok(key) => Ok(key),
        Err(complaint) => Err(LockBoxError::Keyring(complaint)),
    }
}

/// Decides, from what a lookup gave, what the master key is.
///
/// A secret that was found is decoded as `load_master_key` decodes it. A
/// store that holds none, and a store that could not be read, give a
/// Keyring error.
pub fn load_from(found: Lookup) -> (r: LockBoxResult<Vec<u8>>)
    ensures
        outcome(r) == match found {
            Lookup::Found(text) => loaded(Some(text@)),
            Lookup::Missing => loaded(None),
            Lookup::Failed(why) => Err(Failure::Keyring(why@)),
        },
{
    match found {
        Lookup::Found(text) => load_master_key(&KeyStore { secret: Some(text) }),
        Lookup::Missing => load_master_key(&KeyStore::new()),
        Lookup::Failed(why) => Err(LockBoxError::Keyring(why)),
    }
}

/// Initializing twice is initializing once: whatever the store held at
/// first, the second initialization leaves the store exactly as the first
/// one left it, and it holds a secret.
pub proof fn lemma_init_is_idempotent(
    start: Option<Seq<char>>,
    once: Option<Seq<char>>,
    twice: Option<Seq<char>>,
)
    requires
        initialized(start, once),
        initialized(once, twice),
    ensures
        once is Some,
        twice == once,
{
}

/// A key made by initialization can be loaded: from a store that was empty
/// before, loading gives a key of 32 bytes.
pub proof fn lemma_fresh_key_loads(after: Option<Seq<char>>)
    requires
        initialized(None, after),
    ensures
        loaded(after) matches Ok(key) && key.len() == KEY_LEN,
{
}

} // verus!
