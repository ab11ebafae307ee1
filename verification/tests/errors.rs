use lockbox::error::LockBoxError;

#[test]
fn message_names_the_kind() {
    assert_eq!(
        LockBoxError::Keyring("no store".to_string()).message(),
        "Keyring error: no store"
    );
    assert_eq!(
        LockBoxError::Crypto("Key must be 32 bytes".to_string()).message(),
        "Crypto error: Key must be 32 bytes"
    );
    assert_eq!(
        LockBoxError::Io("failed to fill whole buffer".to_string()).message(),
        "I/O error: failed to fill whole buffer"
    );
    assert_eq!(
        LockBoxError::Format("Bad file header".to_string()).message(),
        "Format error: Bad file header"
    );
}

#[test]
fn message_of_an_empty_text() {
    assert_eq!(LockBoxError::Format(String::new()).message(), "Format error: ");
}
