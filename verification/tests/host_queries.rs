use evm::backend::{MemoryAccount, MemoryBackend, MemoryVicinity};
use evm::executor::stack::{MemoryStackState, StackSubstateMetadata};
use evm::Config;
use evm_ds::cps_executor::{CpsExecutor, CpsPhase};
use evm_ds::host::PrecompileMap;
use primitive_types::{H160, H256, U256};
use std::collections::BTreeMap;

const KECCAK_OF_NOTHING: [u8; 32] = [
    0xc5, 0xd2, 0x46, 0x01, 0x86, 0xf7, 0x23, 0x3c, 0x92, 0x7e, 0x7d, 0xb2, 0xdc, 0xc7, 0x03, 0xc0,
    0xe5, 0x00, 0xb6, 0x53, 0xca, 0x82, 0x27, 0x3b, 0x7b, 0xfa, 0xd8, 0x04, 0x5d, 0x85, 0xa4, 0x70,
];

fn rich() -> H160 {
    H160::repeat_byte(0x01)
}

fn plain() -> H160 {
    H160::repeat_byte(0x02)
}

fn stranger() -> H160 {
    H160::repeat_byte(0x03)
}

fn vicinity() -> MemoryVicinity {
    MemoryVicinity {
        gas_price: U256::from(7u64),
        origin: H160::repeat_byte(0xaa),
        chain_id: U256::from(32769u64),
        block_hashes: vec![H256::repeat_byte(0x11), H256::repeat_byte(0x22)],
        block_number: U256::from(100u64),
        block_coinbase: H160::repeat_byte(0xcb),
        block_timestamp: U256::from(1_650_000_000u64),
        block_difficulty: U256::from(5u64),
        block_gas_limit: U256::from(8_000_000u64),
        block_base_fee_per_gas: U256::from(3u64),
    }
}

fn accounts() -> BTreeMap<H160, MemoryAccount> {
    let mut storage = BTreeMap::new();
    storage.insert(H256::from_low_u64_be(1), H256::from_low_u64_be(42));
    let mut state = BTreeMap::new();
    state.insert(
        rich(),
        MemoryAccount {
            nonce: U256::from(1u64),
            balance: U256::from(1000u64),
            storage,
            code: vec![0x60, 0x00, 0x60, 0x00, 0xf3],
        },
    );
    state.insert(
        plain(),
        MemoryAccount {
            nonce: U256::zero(),
            balance: U256::from(5u64),
            storage: BTreeMap::new(),
            code: Vec::new(),
        },
    );
    state
}

fn with_executor<R>(config: Config, gas: u64, body: impl FnOnce(&mut CpsExecutor<'_>) -> R) -> R {
    let vicinity = vicinity();
    let backend = MemoryBackend::new(&vicinity, accounts());
    let state = MemoryStackState::new(StackSubstateMetadata::new(gas, &config), &backend);
    let precompiles = PrecompileMap(BTreeMap::new());
    let mut executor = CpsExecutor::new_with_precompiles(state, &config, &precompiles);
    body(&mut executor)
}

#[test]
fn new_executor_is_running() {
    with_executor(Config::istanbul(), 100_000, |executor| {
        assert_eq!(executor.phase(), CpsPhase::Running);
    });
}

#[test]
fn gas_is_the_limit_before_anything_ran() {
    with_executor(Config::istanbul(), 100_000, |executor| {
        assert_eq!(executor.gas(), 100_000);
        assert_eq!(executor.gas_left(), U256::from(100_000u64));
    });
    with_executor(Config::istanbul(), 7, |executor| {
        assert_eq!(executor.gas(), 7);
        assert_eq!(executor.gas_left(), U256::from(7u64));
    });
}

#[test]
fn balance_is_read_from_the_backend() {
    with_executor(Config::istanbul(), 100_000, |executor| {
        assert_eq!(executor.balance(rich()), U256::from(1000u64));
        assert_eq!(executor.balance(plain()), U256::from(5u64));
        assert_eq!(executor.balance(stranger()), U256::zero());
    });
}

#[test]
fn code_and_its_size_are_read_from_the_backend() {
    with_executor(Config::istanbul(), 100_000, |executor| {
        assert_eq!(executor.code(rich()), vec![0x60, 0x00, 0x60, 0x00, 0xf3]);
        assert_eq!(executor.code_size(rich()), U256::from(5u64));
        assert_eq!(executor.code(plain()), Vec::<u8>::new());
        assert_eq!(executor.code_size(plain()), U256::zero());
        assert_eq!(executor.code_size(stranger()), U256::zero());
    });
}

#[test]
fn code_hash_is_keccak_of_the_code_or_zero_for_a_stranger() {
    with_executor(Config::istanbul(), 100_000, |executor| {
        assert_eq!(executor.code_hash(plain()), H256::from(KECCAK_OF_NOTHING));
        assert_eq!(executor.code_hash(stranger()), H256::zero());
        assert_ne!(executor.code_hash(rich()), H256::from(KECCAK_OF_NOTHING));
        assert_ne!(executor.code_hash(rich()), H256::zero());
    });
}

#[test]
fn storage_is_read_from_the_backend() {
    with_executor(Config::istanbul(), 100_000, |executor| {
        let slot = H256::from_low_u64_be(1);
        assert_eq!(executor.storage(rich(), slot), H256::from_low_u64_be(42));
        assert_eq!(executor.original_storage(rich(), slot), H256::from_low_u64_be(42));
        assert_eq!(executor.storage(rich(), H256::from_low_u64_be(2)), H256::zero());
        assert_eq!(executor.storage(stranger(), slot), H256::zero());
        assert_eq!(executor.original_storage(stranger(), slot), H256::zero());
    });
}

#[test]
fn environment_is_read_from_the_vicinity() {
    with_executor(Config::istanbul(), 100_000, |executor| {
        assert_eq!(executor.gas_price(), U256::from(7u64));
        assert_eq!(executor.origin(), H160::repeat_byte(0xaa));
        assert_eq!(executor.chain_id(), U256::from(32769u64));
        assert_eq!(executor.block_number(), U256::from(100u64));
        assert_eq!(executor.block_coinbase(), H160::repeat_byte(0xcb));
        assert_eq!(executor.block_timestamp(), U256::from(1_650_000_000u64));
        assert_eq!(executor.block_difficulty(), U256::from(5u64));
        assert_eq!(executor.block_gas_limit(), U256::from(8_000_000u64));
        assert_eq!(executor.block_base_fee_per_gas(), U256::from(3u64));
    });
}

#[test]
fn block_hash_reaches_back_over_the_known_blocks_only() {
    with_executor(Config::istanbul(), 100_000, |executor| {
        assert_eq!(executor.block_hash(U256::from(99u64)), H256::repeat_byte(0x11));
        assert_eq!(executor.block_hash(U256::from(98u64)), H256::repeat_byte(0x22));
        assert_eq!(executor.block_hash(U256::from(97u64)), H256::zero());
        assert_eq!(executor.block_hash(U256::from(100u64)), H256::zero());
        assert_eq!(executor.block_hash(U256::from(101u64)), H256::zero());
    });
}

#[test]
fn existence_and_deletion_are_read_from_the_backend() {
    with_executor(Config::istanbul(), 100_000, |executor| {
        assert!(executor.account_exists(rich()));
        assert!(executor.account_exists(plain()));
        assert!(!executor.account_exists(stranger()));
        assert!(!executor.deleted(rich()));
        assert!(!executor.deleted(stranger()));
    });
}

#[test]
fn everything_is_cold_before_the_first_access() {
    with_executor(Config::berlin(), 100_000, |executor| {
        assert!(executor.is_cold(rich(), None));
        assert!(executor.is_cold(rich(), Some(H256::from_low_u64_be(1))));
        assert!(executor.is_cold(stranger(), None));
    });
}

#[test]
fn reading_twice_gives_the_same_answers() {
    with_executor(Config::berlin(), 100_000, |executor| {
        let slot = H256::from_low_u64_be(1);
        let first = (
            executor.balance(rich()),
            executor.code(rich()),
            executor.code_hash(rich()),
            executor.storage(rich(), slot),
            executor.block_number(),
            executor.block_hash(U256::from(99u64)),
            executor.is_cold(rich(), None),
            executor.gas(),
        );
        let second = (
            executor.balance(rich()),
            executor.code(rich()),
            executor.code_hash(rich()),
            executor.storage(rich(), slot),
            executor.block_number(),
            executor.block_hash(U256::from(99u64)),
            executor.is_cold(rich(), None),
            executor.gas(),
        );
        assert_eq!(first, second);
        assert_eq!(first.0, U256::from(1000u64));
        assert!(first.6);
    });
}

#[test]
fn into_state_gives_back_the_state() {
    let config = Config::istanbul();
    let vicinity = vicinity();
    let backend = MemoryBackend::new(&vicinity, accounts());
    let state = MemoryStackState::new(StackSubstateMetadata::new(100_000, &config), &backend);
    let precompiles = PrecompileMap(BTreeMap::new());
    let mut executor = CpsExecutor::new_with_precompiles(state, &config, &precompiles);
    let slot = H256::from_low_u64_be(9);
    assert!(executor.set_storage(plain(), slot, H256::from_low_u64_be(77)).is_ok());
    let state = executor.into_state();
    let again = CpsExecutor::new_with_precompiles(state, &config, &precompiles);
    assert_eq!(again.storage(plain(), slot), H256::from_low_u64_be(77));
    assert_eq!(again.balance(rich()), U256::from(1000u64));
}
