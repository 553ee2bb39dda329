use vstd::prelude::*;

verus! {

/// Error taxonomy of the persistence core.
///
/// `StorageUnavailable` and `SchemaDefinitionFailed` are fatal engine-level
/// failures; the remaining variants are recoverable and surfaced to callers
/// as validation or lookup failures. `InvalidCredentials` is deliberately
/// returned both for an unknown username and for a wrong password, so a
/// caller cannot tell which check failed. `DuplicateTitle` belongs to a
/// stricter schema variant with a uniqueness index on conversation titles;
/// the schema here normalizes empty titles instead and never raises it.
#[derive(Clone, Copy, Debug, PartialEq, Eq, Structural)]
pub enum StoreError {
    StorageUnavailable,
    SchemaDefinitionFailed,
    DuplicateUsername,
    DuplicateTitle,
    UserNotFound,
    ConversationNotFound,
    NotFound,
    InvalidCredentials,
    MalformedContent,
}

impl StoreError {
    /// The description `message` returns for each variant.
    pub open spec fn message_spec(self) -> Seq<char> {
        match self {
            StoreError::StorageUnavailable => "storage engine unavailable"@,
            StoreError::SchemaDefinitionFailed => "schema definition failed"@,
            StoreError::DuplicateUsername => "username already taken"@,
            StoreError::DuplicateTitle => "conversation title already taken"@,
            StoreError::UserNotFound => "user not found"@,
            StoreError::ConversationNotFound => "conversation not found"@,
            StoreError::NotFound => "record not found"@,
            StoreError::InvalidCredentials => "invalid credentials"@,
            StoreError::MalformedContent => "stored message content is malformed"@,
        }
    }

    /// A short human-readable description of the error.
    pub fn message(&self) -> (r: &'static str)
        ensures
            r@ == self.message_spec(),
    {
        match self {
            StoreError::StorageUnavailable => "storage engine unavailable",
            StoreError::SchemaDefinitionFailed => "schema definition failed",
            StoreError::DuplicateUsername => "username already taken",
            StoreError::DuplicateTitle => "conversation title already taken",
            StoreError::UserNotFound => "user not found",
            StoreError::ConversationNotFound => "conversation not found",
            StoreError::NotFound => "record not found",
            StoreError::InvalidCredentials => "invalid credentials",
            StoreError::MalformedContent => "stored message content is malformed",
        }
    }
}

} // verus!
