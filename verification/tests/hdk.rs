use holochain_core::content::{Address, HashString, JsonString};
use holochain_core::hdk::{
    call, close_bundle, commit_entry, debug, get_entry, get_links, link_entries, make_hash, property,
    query, remove_entry, send, sign, start_bundle, update_agent, update_entry, verify_signature,
    BundleOnClose, CommitEntryResult, EntryStatus, GetEntryMask, GetEntryResult, GetResultStatus,
    RibosomeError, SerializedEntry,
};

fn null() -> serde_json::Value {
    serde_json::Value::Null
}

fn serialized() -> SerializedEntry {
    SerializedEntry { value: "\"hello\"".to_string(), entry_type: "post".to_string() }
}

#[test]
fn ribosome_error_messages() {
    assert_eq!(RibosomeError::RibosomeFailed("out of memory".to_string()).to_string(), "out of memory");
    assert_eq!(RibosomeError::FunctionNotImplemented.to_string(), "Function not implemented");
    assert_eq!(RibosomeError::HashNotFound.to_string(), "Hash not found");
    assert_eq!(
        RibosomeError::ValidationFailed("too long".to_string()).to_string(),
        "Validation failed: too long"
    );
    assert_eq!(RibosomeError::ValidationFailed(String::new()).to_string(), "Validation failed: ");
}

#[test]
fn ribosome_error_as_json_is_its_message_as_a_json_string() {
    assert_eq!(RibosomeError::HashNotFound.to_json(), JsonString::from_str("\"Hash not found\""));
    assert_eq!(
        RibosomeError::FunctionNotImplemented.to_json(),
        JsonString::from_str("\"Function not implemented\"")
    );
    assert_eq!(
        RibosomeError::ValidationFailed("say \"hi\"\n".to_string()).to_json(),
        JsonString::from_str("\"Validation failed: say \\\"hi\\\"\\n\"")
    );
    assert_eq!(
        RibosomeError::RibosomeFailed("a\\b".to_string()).to_json().json,
        serde_json::to_string("a\\b").unwrap()
    );
}

#[test]
fn commit_entry_returns_the_address_of_a_valid_entry() {
    let reply = Ok(CommitEntryResult {
        address: Address::from_str("QmCommitted"),
        validation_failure: String::new(),
    });
    match commit_entry(reply) {
        Ok(address) => assert_eq!(address, HashString::from_str("QmCommitted")),
        Err(e) => panic!("commit failed: {:?}", e),
    }
}

#[test]
fn commit_entry_reports_a_validation_failure() {
    let reply = Ok(CommitEntryResult {
        address: Address::from_str("QmCommitted"),
        validation_failure: "entry too long".to_string(),
    });
    match commit_entry(reply) {
        Err(RibosomeError::ValidationFailed(reason)) => assert_eq!(reason, "entry too long"),
        other => panic!("unexpected: {:?}", other),
    }
}

#[test]
fn commit_entry_reports_a_broken_exchange() {
    match commit_entry(Err("allocation failed".to_string())) {
        Err(RibosomeError::RibosomeFailed(text)) => assert_eq!(text, "allocation failed"),
        other => panic!("unexpected: {:?}", other),
    }
}

#[test]
fn get_entry_hands_on_what_was_found() {
    let reply = Ok(GetEntryResult {
        status: GetResultStatus::Found,
        maybe_serialized_entry: Some(serialized()),
    });
    match get_entry(reply) {
        Ok(Some(entry)) => assert_eq!(entry, serialized()),
        other => panic!("unexpected: {:?}", other),
    }
    let reply = Ok(GetEntryResult { status: GetResultStatus::Found, maybe_serialized_entry: None });
    assert!(matches!(get_entry(reply), Ok(None)));
}

#[test]
fn get_entry_of_a_missing_entry_is_no_error() {
    let reply = Ok(GetEntryResult {
        status: GetResultStatus::NotFound,
        maybe_serialized_entry: Some(serialized()),
    });
    assert!(matches!(get_entry(reply), Ok(None)));
    let reply = Ok(GetEntryResult {
        status: GetResultStatus::NotFound,
        maybe_serialized_entry: None,
    });
    assert!(matches!(get_entry(reply), Ok(None)));
}

#[test]
fn get_entry_reports_a_broken_exchange() {
    match get_entry(Err("bad encoding".to_string())) {
        Err(RibosomeError::RibosomeFailed(text)) => assert_eq!(text, "bad encoding"),
        other => panic!("unexpected: {:?}", other),
    }
}

#[test]
fn unimplemented_calls_say_so() {
    let hash = || HashString::from_str("Qm");
    assert!(matches!(property("Name"), Err(RibosomeError::FunctionNotImplemented)));
    assert!(matches!(make_hash("post", null()), Err(RibosomeError::FunctionNotImplemented)));
    assert!(matches!(call("zome", "function", null()), Err(RibosomeError::FunctionNotImplemented)));
    assert!(matches!(sign("doc".to_string()), Err(RibosomeError::FunctionNotImplemented)));
    assert!(matches!(
        verify_signature("sig", "data", "key"),
        Err(RibosomeError::FunctionNotImplemented)
    ));
    assert!(matches!(
        update_entry("post", null(), hash()),
        Err(RibosomeError::FunctionNotImplemented)
    ));
    assert!(matches!(update_agent(), Err(RibosomeError::FunctionNotImplemented)));
    assert!(matches!(remove_entry(hash(), "gone"), Err(RibosomeError::FunctionNotImplemented)));
    assert!(matches!(
        link_entries(hash(), hash(), "tag"),
        Err(RibosomeError::FunctionNotImplemented)
    ));
    assert!(matches!(get_links(hash(), "tag"), Err(RibosomeError::FunctionNotImplemented)));
    assert!(matches!(query(), Err(RibosomeError::FunctionNotImplemented)));
    assert!(matches!(send(hash(), null()), Err(RibosomeError::FunctionNotImplemented)));
    start_bundle(1000, null());
    close_bundle(BundleOnClose::Commit);
    close_bundle(BundleOnClose::Discard);
}

#[test]
fn get_entry_mask_flags() {
    assert_eq!(GetEntryMask::entry().bits(), 1);
    assert_eq!(GetEntryMask::entry_type().bits(), 2);
    assert_eq!(GetEntryMask::sources().bits(), 4);
    assert_eq!(GetEntryMask::empty().bits(), 0);
    assert_eq!(GetEntryMask::all().bits(), 7);
    assert_eq!(GetEntryMask::default(), GetEntryMask::entry());
    let both = GetEntryMask::entry().union(GetEntryMask::sources());
    assert_eq!(both.bits(), 5);
    assert!(both.contains(GetEntryMask::entry()));
    assert!(both.contains(GetEntryMask::sources()));
    assert!(!both.contains(GetEntryMask::entry_type()));
    assert!(both.contains(GetEntryMask::empty()));
    assert!(GetEntryMask::all().contains(both));
    assert!(!both.contains(GetEntryMask::all()));
    assert_eq!(GetEntryMask::from_bits(5), Some(both));
    assert_eq!(GetEntryMask::from_bits(7), Some(GetEntryMask::all()));
    assert_eq!(GetEntryMask::from_bits(8), None);
    assert_eq!(GetEntryMask::from_bits(255), None);
}

#[test]
fn entry_status_flags() {
    assert_eq!(EntryStatus::live().bits(), 1);
    assert_eq!(EntryStatus::rejected().bits(), 2);
    assert_eq!(EntryStatus::deleted().bits(), 4);
    assert_eq!(EntryStatus::modified().bits(), 8);
    assert_eq!(EntryStatus::empty().bits(), 0);
    assert_eq!(EntryStatus::all().bits(), 15);
    let gone = EntryStatus::deleted().union(EntryStatus::modified());
    assert_eq!(gone.bits(), 12);
    assert!(gone.contains(EntryStatus::deleted()));
    assert!(!gone.contains(EntryStatus::live()));
    assert_eq!(EntryStatus::from_bits(12), Some(gone));
    assert_eq!(EntryStatus::from_bits(15), Some(EntryStatus::all()));
    assert_eq!(EntryStatus::from_bits(16), None);
}

#[test]
fn debug_reports_a_broken_exchange() {
    assert!(matches!(debug(Ok(())), Ok(())));
    match debug(Err("out of memory".to_string())) {
        Err(RibosomeError::RibosomeFailed(text)) => assert_eq!(text, "out of memory"),
        other => panic!("unexpected: {:?}", other),
    }
}
