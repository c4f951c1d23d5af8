//! The registry service: an identity map from accounts to DIDs, the set of
//! source accounts authorized to write identities on others' behalf, and a
//! write-once alias dictionary, all behind one authorization policy.
//!
//! The execution environment is modelled by explicit inputs: source-gated
//! calls take the `caller` identity the host resolved for the call, and
//! self-gated calls take `is_self`, true only when the service acts on its
//! own behalf. Every call checks all of its preconditions before mutating
//! anything, so a failed call leaves the registry exactly as it was.

use vstd::prelude::*;

use crate::account::account_id_is_valid;
use crate::account::valid_account_id;
use crate::errors::RegistryError;
use crate::store::StrMap;

verus! {

/// The DID registry: three independent keyspaces behind one policy.
pub struct CoretoDID {
    registry: StrMap,
    mapped_definitions: StrMap,
    sources: StrMap,
}

impl CoretoDID {
    /// The identity map: account identifier to DID.
    pub closed spec fn dids(self) -> Map<Seq<char>, Seq<char>> {
        self.registry@
    }

    /// The alias dictionary: alias to definition, write-once.
    pub closed spec fn definitions(self) -> Map<Seq<char>, Seq<char>> {
        self.mapped_definitions@
    }

    /// The authorized sources: account identifier to descriptive label.
    /// Membership alone gates writes; the label never does.
    pub closed spec fn sources(self) -> Map<Seq<char>, Seq<char>> {
        self.sources@
    }

    /// The DID currently held by `account_id`, or absent. Unauthenticated;
    /// fails only on a malformed account identifier.
    pub fn get_did(&self, account_id: String) -> (r: Result<Option<String>, RegistryError>)
        ensures
            match r {
                Ok(Some(d)) => valid_account_id(account_id@) && self.dids().dom().contains(
                    account_id@,
                ) && d@ == self.dids()[account_id@],
                Ok(None) => valid_account_id(account_id@) && !self.dids().dom().contains(
                    account_id@,
                ),
                Err(e) => e == RegistryError::InvalidAccount && !valid_account_id(account_id@),
            },
    {
        if !account_id_is_valid(&account_id) {
            return Err(RegistryError::InvalidAccount);
        }
        match self.registry.get(&account_id) {
            Some(d) => Ok(Some(d.clone())),
            None => Ok(None),
        }
    }

    /// Whether `account_id` currently holds a DID. Unauthenticated, and
    /// placing no demand on the account string.
    pub fn has_did(&self, account_id: String) -> (r: bool)
        ensures
            r == self.dids().dom().contains(account_id@),
    {
        self.registry.contains(&account_id)
    }

    /// Registers (or re-registers) `account_id -> did`. Only a caller in the
    /// source set may do so; anyone else fails and changes nothing.
    pub fn put_did(&mut self, caller: String, account_id: String, did: String) -> (r: Result<
        bool,
        RegistryError,
    >)
        ensures
            final(self).sources() == old(self).sources(),
            final(self).definitions() == old(self).definitions(),
            old(self).sources().dom().contains(caller@) ==> r == Ok::<bool, RegistryError>(true)
                && final(self).dids() == old(self).dids().insert(account_id@, did@),
            !old(self).sources().dom().contains(caller@) ==> r == Err::<bool, RegistryError>(
                RegistryError::UnauthorizedSigner,
            ) && final(self).dids() == old(self).dids(),
    {
        if !self.sources.contains(&caller) {
            return Err(RegistryError::UnauthorizedSigner);
        }
        self.registry.insert(account_id, did);
        Ok(true)
    }

    /// Moves the DID held by `old_account_id` to `new_account_id` as one
    /// atomic transition: every precondition is checked before either map
    /// entry changes, so a failure changes nothing.
    pub fn transfer_did(&mut self, caller: String, old_account_id: String, new_account_id: String)
        -> (r: Result<bool, RegistryError>)
        ensures
            final(self).sources() == old(self).sources(),
            final(self).definitions() == old(self).definitions(),
            (r == Ok::<bool, RegistryError>(true) <==> (old(self).sources().dom().contains(caller@)
                && old(self).dids().dom().contains(old_account_id@) && !old(self).dids().dom().contains(new_account_id@))),
            !old(self).sources().dom().contains(caller@) ==> r == Err::<bool, RegistryError>(
                RegistryError::UnauthorizedSigner,
            ) && final(self).dids() == old(self).dids(),
            old(self).sources().dom().contains(caller@) && !old(self).dids().dom().contains(
                old_account_id@,
            ) ==> r == Err::<bool, RegistryError>(RegistryError::DidNotFound) && final(self).dids()
                == old(self).dids(),
            old(self).sources().dom().contains(caller@) && old(self).dids().dom().contains(
                old_account_id@,
            ) && old(self).dids().dom().contains(new_account_id@) ==> r == Err::<
                bool,
                RegistryError,
            >(RegistryError::DidAlreadyAssociated) && final(self).dids() == old(self).dids(),
            old(self).sources().dom().contains(caller@) && old(self).dids().dom().contains(
                old_account_id@,
            ) && !old(self).dids().dom().contains(new_account_id@) ==> final(self).dids() == old(self).dids().remove(old_account_id@).insert(
                new_account_id@,
                old(self).dids()[old_account_id@],
            ),
    {
        if !self.sources.contains(&caller) {
            return Err(RegistryError::UnauthorizedSigner);
        }
        let did: String = match self.registry.get(&old_account_id) {
            Some(d) => d.clone(),
            None => {
                return Err(RegistryError::DidNotFound);
            },
        };
        if self.registry.contains(&new_account_id) {
            return Err(RegistryError::DidAlreadyAssociated);
        }
        self.registry.remove(&old_account_id);
        self.registry.insert(new_account_id, did);
        Ok(true)
    }

    /// Adds `source` to the authorized sources. Self-only: no external
    /// principal may call this, however privileged.
    pub fn add_source(&mut self, is_self: bool, source: String, source_label: String) -> (r: Result<
        (),
        RegistryError,
    >)
        ensures
            final(self).dids() == old(self).dids(),
            final(self).definitions() == old(self).definitions(),
            !is_self ==> r == Err::<(), RegistryError>(RegistryError::NotSelfCall) && final(self).sources() == old(self).sources(),
            is_self && old(self).sources().dom().contains(source@) ==> r == Err::<
                (),
                RegistryError,
            >(RegistryError::SourceAlreadyExists) && final(self).sources() == old(self).sources(),
            is_self && !old(self).sources().dom().contains(source@) ==> r == Ok::<
                (),
                RegistryError,
            >(()) && final(self).sources() == old(self).sources().insert(source@, source_label@),
    {
        if !is_self {
            return Err(RegistryError::NotSelfCall);
        }
        if self.sources.contains(&source) {
            return Err(RegistryError::SourceAlreadyExists);
        }
        self.sources.insert(source, source_label);
        Ok(())
    }

    /// Removes `source` from the authorized sources. Self-only, like
    /// `add_source`.
    pub fn remove_source(&mut self, is_self: bool, source: String) -> (r: Result<
        (),
        RegistryError,
    >)
        ensures
            final(self).dids() == old(self).dids(),
            final(self).definitions() == old(self).definitions(),
            !is_self ==> r == Err::<(), RegistryError>(RegistryError::NotSelfCall) && final(self).sources() == old(self).sources(),
            is_self && !old(self).sources().dom().contains(source@) ==> r == Err::<
                (),
                RegistryError,
            >(RegistryError::SourceNotFound) && final(self).sources() == old(self).sources(),
            is_self && old(self).sources().dom().contains(source@) ==> r == Ok::<
                (),
                RegistryError,
            >(()) && final(self).sources() == old(self).sources().remove(source@),
    {
        if !is_self {
            return Err(RegistryError::NotSelfCall);
        }
        if !self.sources.contains(&source) {
            return Err(RegistryError::SourceNotFound);
        }
        self.sources.remove(&source);
        Ok(())
    }

    /// The definition stored under `alias`. Unlike `get_did`, an absent
    /// alias fails loudly rather than answering absent.
    pub fn retrieve_definition(&self, alias: String) -> (r: Result<String, RegistryError>)
        ensures
            match r {
                Ok(d) => self.definitions().dom().contains(alias@) && d@ == self.definitions()[alias@],
                Err(e) => e == RegistryError::DefinitionNotFound && !self.definitions().dom().contains(alias@),
            },
    {
        match self.mapped_definitions.get(&alias) {
            Some(d) => Ok(d.clone()),
            None => Err(RegistryError::DefinitionNotFound),
        }
    }

    /// Whether `alias` has a stored definition. Unauthenticated.
    pub fn has_alias_definition(&self, alias: String) -> (r: bool)
        ensures
            r == self.definitions().dom().contains(alias@),
    {
        self.mapped_definitions.contains(&alias)
    }

    /// Stores `alias -> definition` once and for all: a later call for the
    /// same alias fails and leaves the first definition standing. Any caller
    /// may store a definition for a fresh alias.
    pub fn store_definition(&mut self, alias: String, definition: String) -> (r: Result<
        bool,
        RegistryError,
    >)
        ensures
            final(self).dids() == old(self).dids(),
            final(self).sources() == old(self).sources(),
            old(self).definitions().dom().contains(alias@) ==> r == Err::<bool, RegistryError>(
                RegistryError::DefinitionAlreadyExists,
            ) && final(self).definitions() == old(self).definitions(),
            !old(self).definitions().dom().contains(alias@) ==> r == Ok::<bool, RegistryError>(
                true,
            ) && final(self).definitions() == old(self).definitions().insert(alias@, definition@),
    {
        if self.mapped_definitions.contains(&alias) {
            return Err(RegistryError::DefinitionAlreadyExists);
        }
        self.mapped_definitions.insert(alias, definition);
        Ok(true)
    }
}

impl Default for CoretoDID {
    /// A fresh registry: no DIDs, no sources, no definitions.
    fn default() -> (r: Self)
        ensures
            r.dids() == Map::<Seq<char>, Seq<char>>::empty(),
            r.sources() == Map::<Seq<char>, Seq<char>>::empty(),
            r.definitions() == Map::<Seq<char>, Seq<char>>::empty(),
    {
        CoretoDID { registry: StrMap::new(), mapped_definitions: StrMap::new(), sources: StrMap::new() }
    }
}

} // verus!
