use vstd::prelude::*;

verus! {

/// Why the registry turned an operation down. A rejected operation never
/// changes the registry.
#[derive(Clone, Copy, Debug, PartialEq, Eq, Structural)]
pub enum StealthError {
    /// The handle is longer than 32 bytes.
    HandleTooLong,
    /// The handle has no characters.
    HandleEmpty,
    /// The handle holds a character other than an ASCII letter, an ASCII digit
    /// or an underscore.
    InvalidHandleChars,
    /// The caller does not control the entry's current authority.
    Unauthorized,
    /// The location derived from the handle already holds an entry.
    HandleAlreadyRegistered,
    /// The caller did not prove control of the identity that is to become the
    /// authority of a new entry.
    AuthorizationFailed,
    /// The location derived from the handle holds no entry.
    HandleNotFound,
}

impl StealthError {
    /// The sentence that tells a caller what went wrong.
    pub open spec fn spec_message(self) -> Seq<char> {
        match self {
            StealthError::HandleTooLong => "Handle exceeds maximum length of 32 characters."@,
            StealthError::HandleEmpty => "Handle cannot be empty."@,
            StealthError::InvalidHandleChars =>
                "Handle contains invalid characters. Use alphanumeric and underscores only."@,
            StealthError::Unauthorized => "You are not authorized to modify this handle."@,
            StealthError::HandleAlreadyRegistered => "Handle is already registered."@,
            StealthError::AuthorizationFailed =>
                "Control of the new authority was not proven."@,
            StealthError::HandleNotFound => "Handle is not registered."@,
        }
    }

    /// The sentence that tells a caller what went wrong.
    pub fn message(&self) -> (text: &'static str)
        ensures
            text@ == self.spec_message(),
    {
        match self {
            StealthError::HandleTooLong => "Handle exceeds maximum length of 32 characters.",
            StealthError::HandleEmpty => "Handle cannot be empty.",
            StealthError::InvalidHandleChars =>
                "Handle contains invalid characters. Use alphanumeric and underscores only.",
            StealthError::Unauthorized => "You are not authorized to modify this handle.",
            StealthError::HandleAlreadyRegistered => "Handle is already registered.",
            StealthError::AuthorizationFailed => "Control of the new authority was not proven.",
            StealthError::HandleNotFound => "Handle is not registered.",
        }
    }
}

} // verus!
