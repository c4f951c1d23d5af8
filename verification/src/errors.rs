//! Every way a registry call can fail. A failure aborts the whole call: the
//! registry is left exactly as it was, and the caller receives the reason.

use vstd::prelude::*;

verus! {

/// The reason a registry call failed.
#[derive(Clone, Copy, Debug, PartialEq, Eq, Structural)]
pub enum RegistryError {
    /// The account string is not a valid account identifier.
    InvalidAccount,
    /// The calling principal is not an authorized source.
    UnauthorizedSigner,
    /// The call did not come from the service's own identity.
    NotSelfCall,
    /// The account to transfer a DID from holds none.
    DidNotFound,
    /// The account to transfer a DID to already holds one.
    DidAlreadyAssociated,
    /// The account is already an authorized source.
    SourceAlreadyExists,
    /// The account is not an authorized source.
    SourceNotFound,
    /// The alias already has a definition, which is write-once.
    DefinitionAlreadyExists,
    /// The alias has no definition.
    DefinitionNotFound,
}

impl RegistryError {
    /// The human-readable reason, handed to callers verbatim.
    pub open spec fn spec_message(self) -> Seq<char> {
        match self {
            RegistryError::InvalidAccount => "Not a valid NEAR account"@,
            RegistryError::UnauthorizedSigner => "Invalid signer wallet."@,
            RegistryError::NotSelfCall => "Method is private"@,
            RegistryError::DidNotFound => "DID not found."@,
            RegistryError::DidAlreadyAssociated => "AccountId already have DID associated."@,
            RegistryError::SourceAlreadyExists => "Source already exists."@,
            RegistryError::SourceNotFound => "Source not found."@,
            RegistryError::DefinitionAlreadyExists => "Definition already exists."@,
            RegistryError::DefinitionNotFound => "Definition not found for this alias."@,
        }
    }

    /// The human-readable reason, handed to callers verbatim.
    pub fn message(&self) -> (r: &'static str)
        ensures
            r@ == self.spec_message(),
    {
        match self {
            RegistryError::InvalidAccount => "Not a valid NEAR account",
            RegistryError::UnauthorizedSigner => "Invalid signer wallet.",
            RegistryError::NotSelfCall => "Method is private",
            RegistryError::DidNotFound => "DID not found.",
            RegistryError::DidAlreadyAssociated => "AccountId already have DID associated.",
            RegistryError::SourceAlreadyExists => "Source already exists.",
            RegistryError::SourceNotFound => "Source not found.",
            RegistryError::DefinitionAlreadyExists => "Definition already exists.",
            RegistryError::DefinitionNotFound => "Definition not found for this alias.",
        }
    }
}

} // verus!
