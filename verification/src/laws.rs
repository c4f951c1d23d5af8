//! The laws the registry obeys, stated over the same views its operations
//! are specified with, so each composes directly with those contracts.

use vstd::prelude::*;

use crate::account::valid_account_id;
use crate::registry::CoretoDID;

verus! {

/// A fresh registry holds nothing: for every account, `has_did` answers
/// false and `get_did` answers absent (for a valid identifier), by their
/// contracts together with this fact.
pub proof fn lemma_fresh_registry_is_empty(reg: CoretoDID, account: Seq<char>)
    requires
        reg.dids() == Map::<Seq<char>, Seq<char>>::empty(),
    ensures
        !reg.dids().dom().contains(account),
{
}

/// After `put_did(account, did)` by an authorized source, the account holds
/// exactly that DID: `get_did` returns it (the identifier being valid) and
/// `has_did` answers true, by their contracts together with this fact.
pub proof fn lemma_put_then_lookup(
    before: CoretoDID,
    after: CoretoDID,
    caller: Seq<char>,
    account: Seq<char>,
    did: Seq<char>,
)
    requires
        before.sources().dom().contains(caller),
        valid_account_id(account),
        after.dids() == before.dids().insert(account, did),
    ensures
        after.dids().dom().contains(account),
        after.dids()[account] == did,
{
}

/// After a successful `transfer_did(from, to)`, the destination holds the
/// very DID the origin held, and the origin holds none.
pub proof fn lemma_transfer_moves_did(
    before: CoretoDID,
    after: CoretoDID,
    from: Seq<char>,
    to: Seq<char>,
)
    requires
        before.dids().dom().contains(from),
        !before.dids().dom().contains(to),
        after.dids() == before.dids().remove(from).insert(to, before.dids()[from]),
    ensures
        after.dids().dom().contains(to),
        after.dids()[to] == before.dids()[from],
        !after.dids().dom().contains(from),
        after.dids().dom() =~= before.dids().dom().remove(from).insert(to),
{
}

/// After a successful `add_source`, the account is in the source set, so a
/// second `add_source` for it without an intervening removal must fail with
/// `SourceAlreadyExists`, by `add_source`'s contract.
pub proof fn lemma_add_source_twice(
    before: CoretoDID,
    after: CoretoDID,
    source: Seq<char>,
    label: Seq<char>,
)
    requires
        after.sources() == before.sources().insert(source, label),
    ensures
        after.sources().dom().contains(source),
{
}

/// After a successful `remove_source`, the account is out of the source
/// set, so a second `remove_source` for it without an intervening addition
/// must fail with `SourceNotFound`, by `remove_source`'s contract.
pub proof fn lemma_remove_source_twice(before: CoretoDID, after: CoretoDID, source: Seq<char>)
    requires
        after.sources() == before.sources().remove(source),
    ensures
        !after.sources().dom().contains(source),
{
}

/// After a successful `store_definition(alias, definition)`, the alias is
/// bound to exactly that definition: a later `store_definition` for it must
/// fail with `DefinitionAlreadyExists` while `retrieve_definition` keeps
/// returning the first definition, by their contracts.
pub proof fn lemma_definition_write_once(
    before: CoretoDID,
    after: CoretoDID,
    alias: Seq<char>,
    definition: Seq<char>,
)
    requires
        !before.definitions().dom().contains(alias),
        after.definitions() == before.definitions().insert(alias, definition),
    ensures
        after.definitions().dom().contains(alias),
        after.definitions()[alias] == definition,
{
}

} // verus!
