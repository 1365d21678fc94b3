use evm_ds::context::{NetworkContext, INCREMENTAL_NAME, STATEDELTA_NAME};
use evm_ds::incremental::{Incremental, NotABlockNumber};

#[test]
fn a_context_keeps_what_it_was_given() {
    let ctx = NetworkContext::new("mainnet-v901", "/data/zilliqa");
    assert_eq!(ctx.network_name(), "mainnet-v901");
    assert_eq!(ctx.target_path(), "/data/zilliqa");
}

#[test]
fn new_never_fails() {
    let ctx = NetworkContext::new("mainnet-v901", "/data");
    assert!(Incremental::new(&ctx).is_ok());
    let nameless = NetworkContext::new("", "");
    assert!(Incremental::new(&nameless).is_ok());
}

#[test]
fn lockfile_key_is_under_the_network() {
    let ctx = NetworkContext::new("mainnet-v901", "/data");
    let incremental = Incremental::new(&ctx).unwrap();
    assert_eq!(INCREMENTAL_NAME, "incremental");
    assert_eq!(incremental.lockfile_key(), "incremental/mainnet-v901/.lock");
}

#[test]
fn current_tx_block_key_is_under_the_network() {
    let ctx = NetworkContext::new("testnet", "/data");
    let incremental = Incremental::new(&ctx).unwrap();
    assert_eq!(incremental.current_tx_block_key(), "incremental/testnet/.currentTxBlk");
    let nameless = NetworkContext::new("", "/data");
    assert_eq!(
        Incremental::new(&nameless).unwrap().current_tx_block_key(),
        "incremental//.currentTxBlk"
    );
}

#[test]
fn roots_and_prefixes_are_under_the_network() {
    let ctx = NetworkContext::new("testnet", "/data");
    let incremental = Incremental::new(&ctx).unwrap();
    assert_eq!(STATEDELTA_NAME, "statedelta");
    assert_eq!(incremental.state_delta_root(), "statedelta/testnet");
    assert_eq!(incremental.state_delta_prefix(), "statedelta/testnet/stateDelta");
    assert_eq!(incremental.incremental_root(), "incremental/testnet");
    assert_eq!(incremental.persistence_diff_prefix(), "incremental/testnet/diff_persistence");
    assert_eq!(incremental.persistence_root(), "incremental/testnet/persistence");
}

#[test]
fn a_block_number_is_decimal_digits_with_an_optional_sign() {
    assert_eq!(Incremental::max_block_from("0"), Ok(0));
    assert_eq!(Incremental::max_block_from("2918473"), Ok(2918473));
    assert_eq!(Incremental::max_block_from("007"), Ok(7));
    assert_eq!(Incremental::max_block_from("+15"), Ok(15));
    assert_eq!(Incremental::max_block_from("-15"), Ok(-15));
    assert_eq!(Incremental::max_block_from("9223372036854775807"), Ok(i64::MAX));
    assert_eq!(Incremental::max_block_from("-9223372036854775808"), Ok(i64::MIN));
}

#[test]
fn anything_else_is_not_a_block_number() {
    for text in [
        "", "+", "-", " 12", "12 ", "12\n", "1_000", "0x10", "12.5", "twelve", "--1", "+-1",
        "9223372036854775808", "-9223372036854775809", "١٢",
    ] {
        assert_eq!(Incremental::max_block_from(text), Err(NotABlockNumber {}), "{:?}", text);
    }
}
