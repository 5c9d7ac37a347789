//! The ways in which a request can be turned down.

use vstd::prelude::*;

verus! {

/// Why an operation was refused. Every failure is local to the input that
/// caused it, and trying again with the same input gives the same answer.
#[derive(Clone, Copy, Debug, PartialEq, Eq, Structural)]
pub enum ApiError {
    /// A required text field is empty, or an amount is zero.
    MissingRequiredFields,
    /// A textual identifier is not base58, or decodes to the wrong number of
    /// bytes.
    InvalidInputEncoding,
    /// The two halves of a decoded secret do not belong together.
    InvalidKeyMaterial,
    /// A signature is not base64, or decodes to a length the signature scheme
    /// cannot accept.
    InvalidSignatureEncoding,
    /// The instruction constructor rejected parameters that were well typed.
    ConstructionError,
}

impl ApiError {
    /// The sentence shown to a caller for each kind of failure.
    pub open spec fn message_text(self) -> Seq<char> {
        match self {
            ApiError::MissingRequiredFields => "Missing required fields"@,
            ApiError::InvalidInputEncoding => "Invalid base58 encoding"@,
            ApiError::InvalidKeyMaterial => "Invalid secret key"@,
            ApiError::InvalidSignatureEncoding => "Invalid signature encoding"@,
            ApiError::ConstructionError => "Failed to create instruction"@,
        }
    }

    /// Renders the failure as text.
    pub fn message(&self) -> (text: String)
        ensures
            text@ == self.message_text(),
    {
        match self {
            ApiError::MissingRequiredFields => "Missing required fields".to_owned(),
            ApiError::InvalidInputEncoding => "Invalid base58 encoding".to_owned(),
            ApiError::InvalidKeyMaterial => "Invalid secret key".to_owned(),
            ApiError::InvalidSignatureEncoding => "Invalid signature encoding".to_owned(),
            ApiError::ConstructionError => "Failed to create instruction".to_owned(),
        }
    }
}

/// A result with its value replaced by the value's view: what a contract
/// says of a fallible operation.
pub open spec fn outcome<T: View>(r: Result<T, ApiError>) -> Result<T::V, ApiError> {
    match r {
        Ok(value) => Ok(value@),
        Err(e) => Err(e),
    }
}

/// An optional value replaced by its view.
pub open spec fn found<T: View>(r: Option<T>) -> Option<T::V> {
    match r {
        Some(value) => Some(value@),
        None => None,
    }
}

} // verus!
