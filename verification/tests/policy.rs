use coreto_did::CoretoDID;
use coreto_did::RegistryError;

#[test]
fn fresh_registry_has_no_dids() {
    let contract = CoretoDID::default();
    assert_eq!(false, contract.has_did("alice".to_string()));
    assert_eq!(false, contract.has_did("bob.near".to_string()));
    assert_eq!(None, contract.get_did("alice".to_string()).unwrap());
    assert_eq!(None, contract.get_did("francis.near".to_string()).unwrap());
}

#[test]
fn unauthorized_put_leaves_registry_unchanged() {
    let mut contract = CoretoDID::default();
    let r = contract.put_did("eve".to_string(), "charlie".to_string(), "did:x:9".to_string());
    assert_eq!(r, Err(RegistryError::UnauthorizedSigner));
    assert_eq!(false, contract.has_did("charlie".to_string()));
    assert_eq!(None, contract.get_did("charlie".to_string()).unwrap());
}

#[test]
fn reregistration_overwrites_did() {
    let mut contract = CoretoDID::default();
    contract
        .add_source(true, "bob".to_string(), "main_source".to_string())
        .unwrap();
    contract
        .put_did("bob".to_string(), "charlie".to_string(), "did:x:1".to_string())
        .unwrap();
    contract
        .put_did("bob".to_string(), "charlie".to_string(), "did:x:2".to_string())
        .unwrap();
    assert_eq!(
        "did:x:2".to_string(),
        contract.get_did("charlie".to_string()).unwrap().unwrap()
    );
}

#[test]
fn failed_transfers_change_nothing() {
    let mut contract = CoretoDID::default();
    contract
        .add_source(true, "bob".to_string(), "main_source".to_string())
        .unwrap();
    contract
        .put_did("bob".to_string(), "charlie".to_string(), "did:x:1".to_string())
        .unwrap();
    contract
        .put_did("bob".to_string(), "danny".to_string(), "did:x:2".to_string())
        .unwrap();

    let r = contract.transfer_did("bob".to_string(), "eugene".to_string(), "fargo".to_string());
    assert_eq!(r, Err(RegistryError::DidNotFound));
    let r = contract.transfer_did("bob".to_string(), "charlie".to_string(), "danny".to_string());
    assert_eq!(r, Err(RegistryError::DidAlreadyAssociated));
    // A transfer onto the very same account is a transfer onto an account
    // that already holds a DID.
    let r = contract.transfer_did("bob".to_string(), "charlie".to_string(), "charlie".to_string());
    assert_eq!(r, Err(RegistryError::DidAlreadyAssociated));

    assert_eq!(
        "did:x:1".to_string(),
        contract.get_did("charlie".to_string()).unwrap().unwrap()
    );
    assert_eq!(
        "did:x:2".to_string(),
        contract.get_did("danny".to_string()).unwrap().unwrap()
    );
    assert_eq!(false, contract.has_did("eugene".to_string()));
    assert_eq!(false, contract.has_did("fargo".to_string()));
}

#[test]
fn source_management_is_self_only() {
    let mut contract = CoretoDID::default();

    let r = contract.add_source(false, "s1".to_string(), "label".to_string());
    assert_eq!(r, Err(RegistryError::NotSelfCall));
    assert_eq!(r.unwrap_err().message(), "Method is private");

    // The set is unchanged: "s1" still may not write DIDs.
    let r = contract.put_did("s1".to_string(), "charlie".to_string(), "did:x:1".to_string());
    assert_eq!(r, Err(RegistryError::UnauthorizedSigner));

    let r = contract.remove_source(false, "s1".to_string());
    assert_eq!(r, Err(RegistryError::NotSelfCall));
}

#[test]
fn source_add_and_remove_fail_the_second_time() {
    let mut contract = CoretoDID::default();

    contract
        .add_source(true, "s1".to_string(), "label one".to_string())
        .unwrap();
    let r = contract.add_source(true, "s1".to_string(), "label two".to_string());
    assert_eq!(r, Err(RegistryError::SourceAlreadyExists));
    assert_eq!(r.unwrap_err().message(), "Source already exists.");

    contract.remove_source(true, "s1".to_string()).unwrap();
    let r = contract.remove_source(true, "s1".to_string());
    assert_eq!(r, Err(RegistryError::SourceNotFound));
    assert_eq!(r.unwrap_err().message(), "Source not found.");

    // Once removed, "s1" may no longer write DIDs.
    let r = contract.put_did("s1".to_string(), "charlie".to_string(), "did:x:1".to_string());
    assert_eq!(r, Err(RegistryError::UnauthorizedSigner));
}

#[test]
fn definitions_are_write_once() {
    let mut contract = CoretoDID::default();
    contract
        .store_definition("alias_a".to_string(), "first definition".to_string())
        .unwrap();
    let r = contract.store_definition("alias_a".to_string(), "second definition".to_string());
    assert_eq!(r, Err(RegistryError::DefinitionAlreadyExists));
    assert_eq!(r.unwrap_err().message(), "Definition already exists.");
    assert_eq!(
        "first definition".to_string(),
        contract.retrieve_definition("alias_a".to_string()).unwrap()
    );
}

#[test]
fn scenario_source_registers_and_transfers() {
    let mut contract = CoretoDID::default();

    contract
        .add_source(true, "s1".to_string(), "scenario source".to_string())
        .unwrap();

    assert_eq!(
        Ok(true),
        contract.put_did("s1".to_string(), "acct2".to_string(), "did:x:1".to_string())
    );
    assert_eq!(
        "did:x:1".to_string(),
        contract.get_did("acct2".to_string()).unwrap().unwrap()
    );

    assert_eq!(
        Ok(true),
        contract.transfer_did("s1".to_string(), "acct2".to_string(), "acct3".to_string())
    );
    assert_eq!(
        "did:x:1".to_string(),
        contract.get_did("acct3".to_string()).unwrap().unwrap()
    );
    assert_eq!(false, contract.has_did("acct2".to_string()));
}

#[test]
fn scenario_empty_dictionary_fails_loudly() {
    let contract = CoretoDID::default();
    // An unknown alias is an error, not an absent value ...
    assert_eq!(
        Err(RegistryError::DefinitionNotFound),
        contract.retrieve_definition("unknown".to_string())
    );
    // ... while an unknown account's DID is an absent value, not an error.
    assert_eq!(None, contract.get_did("unknown".to_string()).unwrap());
}

#[test]
fn malformed_account_identifiers_are_rejected() {
    let contract = CoretoDID::default();
    // Too short, too long, bad characters, and misplaced separators.
    assert_eq!(
        Err(RegistryError::InvalidAccount),
        contract.get_did("x".to_string())
    );
    assert_eq!(
        Err(RegistryError::InvalidAccount),
        contract.get_did("a".repeat(65))
    );
    assert_eq!(
        Err(RegistryError::InvalidAccount),
        contract.get_did("Francis.Near".to_string())
    );
    assert_eq!(
        Err(RegistryError::InvalidAccount),
        contract.get_did("-bob".to_string())
    );
    assert_eq!(
        Err(RegistryError::InvalidAccount),
        contract.get_did("bob-".to_string())
    );
    assert_eq!(
        Err(RegistryError::InvalidAccount),
        contract.get_did("bo..b".to_string())
    );
    let r = contract.get_did("x".to_string());
    assert_eq!(r.unwrap_err().message(), "Not a valid NEAR account");
    // Well-formed identifiers of every shape pass the same gate.
    assert_eq!(None, contract.get_did("ok".to_string()).unwrap());
    assert_eq!(None, contract.get_did("a".repeat(64)).unwrap());
    assert_eq!(None, contract.get_did("sub.domain-1.near".to_string()).unwrap());
    assert_eq!(None, contract.get_did("ed_25519.sig".to_string()).unwrap());
}

#[test]
fn error_messages_are_verbatim() {
    assert_eq!(RegistryError::InvalidAccount.message(), "Not a valid NEAR account");
    assert_eq!(RegistryError::UnauthorizedSigner.message(), "Invalid signer wallet.");
    assert_eq!(RegistryError::NotSelfCall.message(), "Method is private");
    assert_eq!(RegistryError::DidNotFound.message(), "DID not found.");
    assert_eq!(
        RegistryError::DidAlreadyAssociated.message(),
        "AccountId already have DID associated."
    );
    assert_eq!(RegistryError::SourceAlreadyExists.message(), "Source already exists.");
    assert_eq!(RegistryError::SourceNotFound.message(), "Source not found.");
    assert_eq!(
        RegistryError::DefinitionAlreadyExists.message(),
        "Definition already exists."
    );
    assert_eq!(
        RegistryError::DefinitionNotFound.message(),
        "Definition not found for this alias."
    );
}
