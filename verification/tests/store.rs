use near_sdk::test_utils::VMContextBuilder;
use near_sdk::MockedBlockchain;
use welcome::Welcome;

/// Install a mocked host for the current thread, with the given signer and
/// view flag.
fn host_context(signer: &str, is_view: bool) {
    let mut builder = VMContextBuilder::new();
    builder.signer_account_id(signer.parse().unwrap());
    builder.is_view(is_view);
    let context = builder.build();
    near_sdk::env::set_blockchain_interface(MockedBlockchain::new(
        context,
        near_sdk::test_vm_config(),
        near_sdk::RuntimeFeesConfig::test(),
        Vec::new(),
        std::collections::HashMap::new(),
        std::collections::HashMap::new(),
        None,
    ));
}

#[test]
fn set_then_get_name() {
    host_context("bob_near", false);
    let mut contract = Welcome::default();
    contract.set_name("bob".to_string());
    assert_eq!("bob".to_string(), contract.get_name("bob_near".to_string()));
}

#[test]
fn get_default_name() {
    host_context("bob_near", true);
    let contract = Welcome::default();
    // this test did not call set_name so should return the default "" name
    assert_eq!("".to_string(), contract.get_name("francis.near".to_string()));
}

#[test]
fn overwrite_last_write_wins() {
    host_context("bob_near", false);
    let mut contract = Welcome::default();
    contract.set_name("first".to_string());
    contract.set_name("second".to_string());
    assert_eq!("second".to_string(), contract.get_name("bob_near".to_string()));
}

#[test]
fn writes_are_isolated() {
    host_context("bob_near", false);
    let mut contract = Welcome::default();
    contract.set_name("bob".to_string());
    assert_eq!("".to_string(), contract.get_name("alice_near".to_string()));
    assert_eq!("bob".to_string(), contract.get_name("bob_near".to_string()));
}

#[test]
fn two_writers_keep_their_own_records() {
    host_context("bob_near", false);
    let mut contract = Welcome::default();
    contract.set_name("bob".to_string());
    host_context("alice_near", false);
    contract.set_name("alice".to_string());
    assert_eq!("bob".to_string(), contract.get_name("bob_near".to_string()));
    assert_eq!("alice".to_string(), contract.get_name("alice_near".to_string()));
}

#[test]
fn repeated_reads_agree() {
    host_context("bob_near", false);
    let mut contract = Welcome::default();
    contract.set_name("bob".to_string());
    let first = contract.get_name("bob_near".to_string());
    let second = contract.get_name("bob_near".to_string());
    assert_eq!(first, second);
    let unset_first = contract.get_name("carol_near".to_string());
    let unset_second = contract.get_name("carol_near".to_string());
    assert_eq!(unset_first, unset_second);
    assert_eq!("".to_string(), unset_first);
}

#[test]
fn set_name_for_explicit_caller() {
    host_context("bob_near", false);
    let mut contract = Welcome::default();
    contract.set_name_for("carol_near".to_string(), "carol".to_string());
    assert_eq!("carol".to_string(), contract.get_name("carol_near".to_string()));
    assert_eq!("".to_string(), contract.get_name("bob_near".to_string()));
}

#[test]
fn empty_value_can_be_stored() {
    host_context("bob_near", false);
    let mut contract = Welcome::default();
    contract.set_name("".to_string());
    assert_eq!("".to_string(), contract.get_name("bob_near".to_string()));
}
