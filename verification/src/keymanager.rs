//! Data shapes exchanged with the field-level encryption collaborator: who a
//! data key belongs to, and the requests that create or transfer one.

use vstd::prelude::*;

verus! {

/// The owner of an encryption key: a user or a merchant, by its identifier.
#[derive(Clone, Debug, PartialEq, Eq)]
pub enum Identifier {
    User(String),
    Merchant(String),
}

impl Identifier {
    /// The raw identifier text, whichever owner kind carries it.
    pub fn inner(&self) -> (r: &String)
        ensures
            match self {
                Identifier::User(s) => r == s,
                Identifier::Merchant(s) => r == s,
            },
    {
        match self {
            Identifier::User(s) => s,
            Identifier::Merchant(s) => s,
        }
    }

    /// Whether the key belongs to a merchant.
    pub fn is_merchant(&self) -> (r: bool)
        ensures
            r == (self is Merchant),
    {
        matches!(self, Identifier::Merchant(_))
    }
}

/// Asks the encryption service to create a key for the identified owner.
#[derive(Clone, Debug, PartialEq, Eq)]
pub struct EncryptionCreateRequest {
    pub identifier: Identifier,
}

/// Asks the encryption service to take over an existing key.
#[derive(Clone, Debug, PartialEq, Eq)]
pub struct EncryptionTransferRequest {
    pub identifier: Identifier,
    pub key: String,
}

/// The encryption service's answer: the owner and the key version created.
#[derive(Debug)]
pub struct DataKeyCreateResponse {
    pub identifier: Identifier,
    pub key_version: String,
}

} // verus!
