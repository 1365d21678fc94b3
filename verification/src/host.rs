//! The host capability provider: the journaled account and storage model of
//! the `evm` crate, held behind contracts that Verus takes on trust.
//!
//! No function in this file is proved. Each hands its arguments to one
//! function of the `evm` crate and the result back, and its contract records
//! what that crate's source shows of the call. What verified code knows of
//! the host is the map of its answers, [`host_answers`].

use vstd::prelude::*;
use evm::backend::MemoryBackend;
use evm::executor::stack::{
    MemoryStackState, PrecompileFn, StackExecutor, StackState, StackSubstateMetadata,
};
use evm::{
    Capture, Config, Context, CreateScheme, ExitError, ExitReason, Handler, Opcode, Stack,
    Transfer,
};
use primitive_types::{H160, H256, U256};
use std::collections::BTreeMap;

verus! {

/// `primitive_types::H160`, a 160-bit account address.
#[verifier::external_type_specification]
#[verifier::external_body]
pub struct ExH160(H160);

/// `primitive_types::H256`, a 256-bit storage key, storage value or hash.
#[verifier::external_type_specification]
#[verifier::external_body]
pub struct ExH256(H256);

/// `primitive_types::U256`, a 256-bit unsigned word.
#[verifier::external_type_specification]
#[verifier::external_body]
pub struct ExU256(U256);

/// `evm::CreateScheme`, the way the address of a new contract is derived.
#[verifier::external_type_specification]
#[verifier::external_body]
pub struct ExCreateScheme(CreateScheme);

/// `evm::Transfer`, a movement of value from a source to a target.
#[verifier::external_type_specification]
#[verifier::external_body]
pub struct ExTransfer(Transfer);

/// `evm::Context`, the acting address, caller and apparent value of a call.
#[verifier::external_type_specification]
#[verifier::external_body]
pub struct ExContext(Context);

/// `evm::ExitReason`, why a computation ended.
#[verifier::external_type_specification]
#[verifier::external_body]
pub struct ExExitReason(ExitReason);

/// `evm::ExitError`, an error that the host reports.
#[verifier::external_type_specification]
#[verifier::external_body]
pub struct ExExitError(ExitError);

/// `evm::Opcode`, one instruction byte.
#[verifier::external_type_specification]
#[verifier::external_body]
pub struct ExOpcode(Opcode);

/// `evm::Stack`, the operand stack of the engine.
#[verifier::external_type_specification]
#[verifier::external_body]
pub struct ExStack(Stack);

/// `evm::Config`, the gas schedule and feature switches of a hard fork.
#[verifier::external_type_specification]
#[verifier::external_body]
pub struct ExConfig(Config);

/// `evm::backend::MemoryBackend`, account state held in memory.
#[verifier::external_type_specification]
#[verifier::external_body]
pub struct ExMemoryBackend<'vicinity>(MemoryBackend<'vicinity>);

/// `evm::executor::stack::MemoryStackState`, the journal of changes laid over
/// a backend.
#[verifier::external_type_specification]
#[verifier::external_body]
#[verifier::reject_recursive_types(B)]
pub struct ExMemoryStackState<'backend, 'config, B>(MemoryStackState<'backend, 'config, B>);

/// The journaled state that a [`HostExecutor`] is built from and gives back.
pub type HostState<'a> = MemoryStackState<'a, 'a, MemoryBackend<'a>>;

/// The table of precompiled contracts, by address. It wraps a
/// `BTreeMap<H160, evm::executor::stack::PrecompileFn>`, whose values are
/// function pointers and therefore cannot be named in a verified signature.
/// The table is never read by verified code; it is only lent to the
/// executor, which runs its functions as they are: what they do is theirs.
/// No contract here says what a run that calls them comes to; that such a
/// function returns at all is taken for granted.
#[verifier::external_body]
pub struct PrecompileMap(pub BTreeMap<H160, PrecompileFn>);

/// `evm::executor::stack::StackExecutor` over a [`HostState`] and a
/// [`PrecompileMap`]. The executor's type mentions the function pointers of
/// the precompile table, so it is held in this opaque handle.
#[verifier::external_body]
pub struct HostExecutor<'a> {
    inner: StackExecutor<'a, 'a, HostState<'a>, BTreeMap<H160, PrecompileFn>>,
}

/// What an attempt or an advance reported: it ran to an end, or it stopped
/// and waits for work that has to be done elsewhere.
#[derive(Clone, Debug, PartialEq, Eq)]
pub enum Captured<E, T> {
    /// It ended with this outcome.
    Exit(E),
    /// It is suspended with this payload.
    Trap(T),
}

/// A read-only question that can be put to the host.
pub enum HostQuery {
    Balance(H160),
    CodeSize(H160),
    CodeHash(H160),
    Code(H160),
    Storage(H160, H256),
    OriginalStorage(H160, H256),
    Gas,
    UsedGas,
    CallStipend,
    Nonce(H160),
    GasLeft,
    GasPrice,
    Origin,
    BlockHash(U256),
    BlockNumber,
    BlockCoinbase,
    BlockTimestamp,
    BlockDifficulty,
    BlockGasLimit,
    BlockBaseFeePerGas,
    ChainId,
    Exists(H160),
    Deleted(H160),
    IsCold(H160, Option<H256>),
}

/// The host's answer to a [`HostQuery`].
pub enum HostAnswer {
    Word(U256),
    Hash(H256),
    Address(H160),
    Code(Seq<u8>),
    Flag(bool),
    Gas(u64),
    Used(Option<u64>),
    Nonce([u64; 4]),
}

/// The answers that an executor gives in its present state, one for each
/// query. This is the whole of what verified code knows of an executor: the
/// accounts, storage and gas meter behind the answers stay inside the `evm`
/// crate.
pub uninterp spec fn host_answers(host: HostExecutor<'_>) -> Map<HostQuery, HostAnswer>;

/// The journaled state that an executor holds: the one it was built from,
/// with every change that was made through the executor since.
pub uninterp spec fn held_state(host: HostExecutor<'_>) -> HostState<'_>;

/// Whether a transfer moves no value, that is whether its value is zero.
pub uninterp spec fn moves_nothing(transfer: Transfer) -> bool;

/// The gas that the meter charges for a call that moves value, on top of the
/// price of the call itself.
pub const CALL_VALUE_GAS: u64 = 9000;

/// The most that a price of the configuration may be for the gas meter to
/// add prices, and count refunds, within its integers.
pub const PRICE_CAP: u64 = 0x10_0000;

/// The most that the gas limit of the meter may be, for the same reason.
pub const GAS_LIMIT_CAP: u64 = 0x100_0000_0000;

/// The value of the most significant of the four words of a nonce from which
/// on the nonce counts as having no room: half of the range of the nonce.
pub const NONCE_TOP_CAP: u64 = 0x8000_0000_0000_0000;

/// The prices of a configuration that the gas meter computes with.
#[derive(Clone, Copy, Debug, PartialEq, Eq, Structural)]
pub struct MeterPrices {
    pub call_stipend: u64,
    pub gas_sload: u64,
    pub gas_sstore_set: u64,
    pub gas_sstore_reset: u64,
    pub gas_sload_cold: u64,
    pub gas_storage_read_warm: u64,
    pub gas_account_access_cold: u64,
    pub gas_call: u64,
    pub gas_balance: u64,
    pub gas_ext_code: u64,
    pub gas_ext_code_hash: u64,
    pub gas_expbyte: u64,
    pub gas_suicide: u64,
    pub gas_suicide_new_account: u64,
    pub refund_sstore_clears: i64,
}

/// The prices that a configuration holds.
pub uninterp spec fn prices_of(config: Config) -> MeterPrices;

/// The configuration that an executor was built with.
pub uninterp spec fn held_config(host: HostExecutor<'_>) -> Config;

/// Whether no price is above [`PRICE_CAP`], and the refund for a cleared
/// slot is within that range on either side of zero.
pub open spec fn capped_prices(prices: MeterPrices) -> bool {
    &&& prices.gas_sload <= PRICE_CAP
    &&& prices.gas_sstore_set <= PRICE_CAP
    &&& prices.gas_sstore_reset <= PRICE_CAP
    &&& prices.gas_sload_cold <= PRICE_CAP
    &&& prices.gas_storage_read_warm <= PRICE_CAP
    &&& prices.gas_account_access_cold <= PRICE_CAP
    &&& prices.gas_call <= PRICE_CAP
    &&& prices.gas_balance <= PRICE_CAP
    &&& prices.gas_ext_code <= PRICE_CAP
    &&& prices.gas_ext_code_hash <= PRICE_CAP
    &&& prices.gas_expbyte <= PRICE_CAP
    &&& prices.gas_suicide <= PRICE_CAP
    &&& prices.gas_suicide_new_account <= PRICE_CAP
    &&& -PRICE_CAP <= prices.refund_sstore_clears <= PRICE_CAP
}

/// Whether the gas meter can compute with these prices. The stipend of a
/// call that moves value is taken back from the gas that the caller's frame
/// has used, and that frame has been charged [`CALL_VALUE_GAS`] at least: so
/// the stipend may not be more. The refund for a storage slot that is set
/// back is the price of setting or resetting it less the price of a load: so
/// the load may not cost more than either. And the meter adds prices to one
/// another and to the gas used, and sums up refunds, all without a check: so
/// every price is capped.
pub open spec fn sound_prices(prices: MeterPrices) -> bool {
    &&& prices.call_stipend <= CALL_VALUE_GAS
    &&& prices.gas_sload <= prices.gas_sstore_set
    &&& prices.gas_sload <= prices.gas_sstore_reset
    &&& capped_prices(prices)
}

/// What an executor stands on besides its configuration: the gas limit of
/// the meter of the state it was built from, if that meter has not failed,
/// and the nonces of the accounts which that state knew, each as its four
/// words from the least significant up.
pub struct Footing {
    pub gas_limit: Option<u64>,
    pub nonces: Seq<[u64; 4]>,
}

/// The footing that a journaled state gives.
pub uninterp spec fn footing_of(state: HostState<'_>) -> Footing;

/// The footing that an executor was built on. It is that of the state as it
/// was then, and does not follow the state.
pub uninterp spec fn held_footing(host: HostExecutor<'_>) -> Footing;

/// The nonces of the accounts of a backend, in the order of their addresses,
/// each as its four words from the least significant up.
pub uninterp spec fn backend_nonces(backend: MemoryBackend<'_>) -> Seq<[u64; 4]>;

/// Whether a nonce is in the lower half of its range.
pub open spec fn has_room(nonce: [u64; 4]) -> bool {
    nonce[3] < NONCE_TOP_CAP
}

/// Whether every one of the nonces is in the lower half of its range.
pub open spec fn all_have_room(nonces: Seq<[u64; 4]>) -> bool {
    forall|i: int| 0 <= i < nonces.len() ==> has_room(#[trigger] nonces[i])
}

/// Whether an executor can run on this footing. The meter adds costs to the
/// gas used without a check, and counts refunds in a signed integer: so the
/// gas limit is capped. A creation raises the nonce of its caller by one
/// without a check, and the code that runs can create from any account: so
/// every nonce starts in the lower half of its range, which no run that any
/// gas limit pays for can leave.
pub open spec fn sound_footing(footing: Footing) -> bool {
    &&& match footing.gas_limit {
        Some(gas_limit) => gas_limit <= GAS_LIMIT_CAP,
        None => false,
    }
    &&& all_have_room(footing.nonces)
}

/// Whether the host can attempt a creation by this caller: the caller's
/// nonce is in the lower half of its range.
pub open spec fn affords_create(answers: Map<HostQuery, HostAnswer>, caller: H160) -> bool {
    match answers[HostQuery::Nonce(caller)] {
        HostAnswer::Nonce(nonce) => has_room(nonce),
        _ => false,
    }
}

/// The sum of two words, or the largest word where the sum is beyond it.
pub uninterp spec fn saturating_sum(left: U256, right: U256) -> U256;

/// Whether a word is zero.
pub uninterp spec fn word_is_zero(word: U256) -> bool;

/// Whether `after` answers for the balances as a deletion of `address` in
/// favour of `target` leaves them: the balance of the account is zero, and
/// the balance of any other target is what it was and what the account had,
/// added up.
pub open spec fn routes_balance(
    before: Map<HostQuery, HostAnswer>,
    after: Map<HostQuery, HostAnswer>,
    address: H160,
    target: H160,
) -> bool {
    &&& match after[HostQuery::Balance(address)] {
        HostAnswer::Word(left) => word_is_zero(left),
        _ => false,
    }
    &&& address != target ==> match (
        before[HostQuery::Balance(target)],
        before[HostQuery::Balance(address)],
    ) {
        (HostAnswer::Word(had), HostAnswer::Word(moved)) => after[HostQuery::Balance(target)]
            == HostAnswer::Word(saturating_sum(had, moved)),
        _ => false,
    }
}

/// How a computation, or a part of one, ended.
#[derive(Clone, Copy, Debug, PartialEq, Eq, Structural)]
pub enum ExitClass {
    Succeed,
    Error,
    Revert,
    Fatal,
}

/// The class of an exit reason: which of its four variants it is.
pub uninterp spec fn class_of(reason: ExitReason) -> ExitClass;

/// A log entry, as contracts see it.
pub struct LogEntry {
    pub address: H160,
    pub topics: Seq<H256>,
    pub data: Seq<u8>,
}

/// The log entries that a journaled state has recorded in its current
/// substate, oldest first.
pub uninterp spec fn journal_logs(state: HostState<'_>) -> Seq<LogEntry>;

/// The verdict of an executor in this state on an opcode that is about to
/// run in this context on this stack: whether its gas can be paid and the
/// opcode is allowed.
pub uninterp spec fn pre_validation(
    host: HostExecutor<'_>,
    context: Context,
    opcode: Opcode,
    stack: Stack,
) -> Result<(), ExitError>;

/// Whether a query is answered from the gas meter or from the sets of
/// accessed addresses and slots.
pub open spec fn is_metered(query: HostQuery) -> bool {
    query is Gas || query is GasLeft || query is UsedGas || query is IsCold
}

/// Whether `after` answers as `before` does, but for the queries that are
/// answered from the gas meter or from the accessed sets.
pub open spec fn differs_in_meters_only(
    before: Map<HostQuery, HostAnswer>,
    after: Map<HostQuery, HostAnswer>,
) -> bool {
    forall|query: HostQuery, answer: HostAnswer|
        #![trigger before.contains_pair(query, answer)]
        #![trigger after.contains_pair(query, answer)]
        !is_metered(query) ==> (before.contains_pair(query, answer) <==> after.contains_pair(
            query,
            answer,
        ))
}

/// Whether the gas meter can take back the stipend of a call that moves
/// value: the gas that the current substate has used so far is at least the
/// call stipend of the configuration, or the meter has failed and counts no
/// more.
pub open spec fn covers_stipend(answers: Map<HostQuery, HostAnswer>) -> bool {
    match (answers[HostQuery::UsedGas], answers[HostQuery::CallStipend]) {
        (HostAnswer::Used(Some(used)), HostAnswer::Gas(stipend)) => used >= stipend,
        (HostAnswer::Used(None), _) => true,
        _ => false,
    }
}

/// Whether the host can attempt a call with this transfer. A call that moves
/// value hands its callee a stipend on top of the gas it is charged for, and
/// the meter takes back what the callee leaves: so the stipend has to be
/// covered by gas that was used before. The engine sees to that by charging
/// the call opcode before it asks for the call.
pub open spec fn affords_call(
    answers: Map<HostQuery, HostAnswer>,
    transfer: Option<Transfer>,
) -> bool {
    match transfer {
        Some(transfer) => moves_nothing(transfer) || covers_stipend(answers),
        None => true,
    }
}

/// Whether every address and every storage slot that `before` reports as warm
/// is reported as warm by `after` too.
pub open spec fn keeps_warm(
    before: Map<HostQuery, HostAnswer>,
    after: Map<HostQuery, HostAnswer>,
) -> bool {
    forall|address: H160, index: Option<H256>| #[trigger]
        before.contains_pair(HostQuery::IsCold(address, index), HostAnswer::Flag(false))
            ==> after.contains_pair(HostQuery::IsCold(address, index), HostAnswer::Flag(false))
}

/// The prices of an `evm::Config`, picked from its fields of the same names.
#[verifier::external_body]
pub(crate) fn config_prices(config: &Config) -> (prices: MeterPrices)
    ensures
        prices == prices_of(*config),
{
    let c = config;
    MeterPrices {
        call_stipend: c.call_stipend, gas_sload: c.gas_sload,
        gas_sstore_set: c.gas_sstore_set, gas_sstore_reset: c.gas_sstore_reset,
        gas_sload_cold: c.gas_sload_cold, gas_storage_read_warm: c.gas_storage_read_warm,
        gas_account_access_cold: c.gas_account_access_cold, gas_call: c.gas_call,
        gas_balance: c.gas_balance, gas_ext_code: c.gas_ext_code,
        gas_ext_code_hash: c.gas_ext_code_hash, gas_expbyte: c.gas_expbyte,
        gas_suicide: c.gas_suicide, gas_suicide_new_account: c.gas_suicide_new_account,
        refund_sstore_clears: c.refund_sstore_clears,
    }
}

/// `MemoryBackend::state`, of which the nonce of every account is handed out
/// as its four words.
#[verifier::external_body]
pub(crate) fn backend_nonce_words(backend: &MemoryBackend<'_>) -> (nonces: Vec<[u64; 4]>)
    ensures
        nonces@ == backend_nonces(*backend),
{
    backend.state().values().map(|account| account.nonce.0).collect()
}

/// `MemoryStackState::new` over a `StackSubstateMetadata::new`: a journal
/// without an entry over the backend, with a meter of the given gas limit
/// that has charged nothing. The accounts it knows are those of the backend.
#[verifier::external_body]
pub(crate) fn fresh_state<'a>(
    backend: &'a MemoryBackend<'a>,
    gas_limit: u64,
    config: &'a Config,
) -> (state: HostState<'a>)
    ensures
        footing_of(state) == (Footing {
            gas_limit: Some(gas_limit),
            nonces: backend_nonces(*backend),
        }),
{
    MemoryStackState::new(StackSubstateMetadata::new(gas_limit, config), backend)
}

/// `StackExecutor::nonce`: the nonce of the account, from the journal, else
/// from the backend, handed out as its four words. The claim is only that
/// this is the executor's answer to [`HostQuery::Nonce`].
#[verifier::external_body]
pub(crate) fn host_nonce<'a>(host: &HostExecutor<'a>, address: H160) -> (nonce: [u64; 4])
    ensures
        host_answers(*host).contains_pair(HostQuery::Nonce(address), HostAnswer::Nonce(nonce)),
{
    host.inner.nonce(address).0
}

/// The variant of an `evm::ExitReason`.
#[verifier::external_body]
pub(crate) fn exit_class(reason: &ExitReason) -> (class: ExitClass)
    ensures
        class == class_of(*reason),
{
    match reason {
        ExitReason::Succeed(_) => ExitClass::Succeed,
        ExitReason::Error(_) => ExitClass::Error,
        ExitReason::Revert(_) => ExitClass::Revert,
        ExitReason::Fatal(_) => ExitClass::Fatal,
    }
}

/// `Clone::clone` of an optional `evm::Transfer`, which `derive` wrote: a
/// transfer with the same source, target and value.
#[verifier::external_body]
pub(crate) fn transfer_copy(transfer: &Option<Transfer>) -> (copy: Option<Transfer>)
    ensures
        copy == *transfer,
{
    transfer.clone()
}

/// `Clone::clone` of an `evm::Context`, which `derive` wrote: a context with
/// the same address, caller and apparent value.
#[verifier::external_body]
pub(crate) fn context_copy(context: &Context) -> (copy: Context)
    ensures
        copy == *context,
{
    context.clone()
}

/// `Clone::clone` of an `evm::ExitReason`, which `derive` wrote: the same
/// reason.
#[verifier::external_body]
pub(crate) fn reason_copy(reason: &ExitReason) -> (copy: ExitReason)
    ensures
        copy == *reason,
{
    reason.clone()
}

/// `StackExecutor::new_with_precompiles`: stores the state, the configuration
/// and the table. The claim is that the executor holds the state and the
/// configuration given, and stands on the footing of that state.
#[verifier::external_body]
pub(crate) fn host_new<'a>(
    state: HostState<'a>,
    config: &'a Config,
    precompile_set: &'a PrecompileMap,
) -> (host: HostExecutor<'a>)
    ensures
        held_state(host) == state,
        held_config(host) == *config,
        held_footing(host) == footing_of(state),
{
    HostExecutor { inner: StackExecutor::new_with_precompiles(state, config, &precompile_set.0) }
}

/// `StackExecutor::into_state`: gives back the state that the executor
/// holds.
#[verifier::external_body]
pub(crate) fn host_into_state<'a>(host: HostExecutor<'a>) -> (state: HostState<'a>)
    ensures
        state == held_state(host),
{
    host.inner.into_state()
}

/// `StackExecutor::gas`: the gas that the meter of the current substate has
/// left. The claim is only that this is the executor's answer to
/// [`HostQuery::Gas`].
#[verifier::external_body]
pub(crate) fn host_gas<'a>(host: &HostExecutor<'a>) -> (gas: u64)
    ensures
        host_answers(*host).contains_pair(HostQuery::Gas, HostAnswer::Gas(gas)),
{
    host.inner.gas()
}

/// `Gasometer::snapshot` of the meter of the current substate, of which the
/// used gas is taken: the gas charged so far without the gas for memory, or
/// nothing where the meter has failed. The claim is only that this is the
/// executor's answer to [`HostQuery::UsedGas`].
#[verifier::external_body]
pub(crate) fn host_used_gas<'a>(host: &HostExecutor<'a>) -> (used: Option<u64>)
    ensures
        host_answers(*host).contains_pair(HostQuery::UsedGas, HostAnswer::Used(used)),
{
    host.inner.state().metadata().gasometer().snapshot().map(|snapshot| snapshot.used_gas)
}

/// `StackExecutor::config`, of which the call stipend is taken. The claim is
/// only that this is the executor's answer to [`HostQuery::CallStipend`].
#[verifier::external_body]
pub(crate) fn host_call_stipend<'a>(host: &HostExecutor<'a>) -> (stipend: u64)
    ensures
        host_answers(*host).contains_pair(HostQuery::CallStipend, HostAnswer::Gas(stipend)),
{
    host.inner.config().call_stipend
}

/// `U256::is_zero` on the value of a transfer.
#[verifier::external_body]
pub(crate) fn transfer_moves_nothing(transfer: &Transfer) -> (nothing: bool)
    ensures
        nothing == moves_nothing(*transfer),
{
    transfer.value.is_zero()
}

/// `Handler::balance` of the executor: reads the account's balance from the
/// journal, else from the backend. The claim is only that this is the
/// executor's answer to [`HostQuery::Balance`].
#[verifier::external_body]
pub(crate) fn host_balance<'a>(host: &HostExecutor<'a>, address: H160) -> (balance: U256)
    ensures
        host_answers(*host).contains_pair(HostQuery::Balance(address), HostAnswer::Word(balance)),
{
    host.inner.balance(address)
}

/// `Handler::code_size` of the executor: the length of the account's code.
/// The claim is only that this is the answer to [`HostQuery::CodeSize`].
#[verifier::external_body]
pub(crate) fn host_code_size<'a>(host: &HostExecutor<'a>, address: H160) -> (size: U256)
    ensures
        host_answers(*host).contains_pair(HostQuery::CodeSize(address), HostAnswer::Word(size)),
{
    host.inner.code_size(address)
}

/// `Handler::code_hash` of the executor: the Keccak hash of the account's
/// code, or the zero hash where the account does not exist. The claim is only
/// that this is the answer to [`HostQuery::CodeHash`].
#[verifier::external_body]
pub(crate) fn host_code_hash<'a>(host: &HostExecutor<'a>, address: H160) -> (hash: H256)
    ensures
        host_answers(*host).contains_pair(HostQuery::CodeHash(address), HostAnswer::Hash(hash)),
{
    host.inner.code_hash(address)
}

/// `Handler::code` of the executor: a copy of the account's code. The claim
/// is only that these bytes are the answer to [`HostQuery::Code`].
#[verifier::external_body]
pub(crate) fn host_code<'a>(host: &HostExecutor<'a>, address: H160) -> (code: Vec<u8>)
    ensures
        host_answers(*host).contains_pair(HostQuery::Code(address), HostAnswer::Code(code@)),
{
    host.inner.code(address)
}

/// `Handler::storage` of the executor: the value at a storage slot, from the
/// journal, else from the backend. The claim is only that this is the answer
/// to [`HostQuery::Storage`].
#[verifier::external_body]
pub(crate) fn host_storage<'a>(host: &HostExecutor<'a>, address: H160, index: H256) -> (value: H256)
    ensures
        host_answers(*host).contains_pair(
            HostQuery::Storage(address, index),
            HostAnswer::Hash(value),
        ),
{
    host.inner.storage(address, index)
}

/// `Handler::original_storage` of the executor: the value that a slot had
/// before the transaction, zero where none is known. The claim is only that
/// this is the answer to [`HostQuery::OriginalStorage`].
#[verifier::external_body]
pub(crate) fn host_original_storage<'a>(
    host: &HostExecutor<'a>,
    address: H160,
    index: H256,
) -> (value: H256)
    ensures
        host_answers(*host).contains_pair(
            HostQuery::OriginalStorage(address, index),
            HostAnswer::Hash(value),
        ),
{
    host.inner.original_storage(address, index)
}

/// `Handler::gas_left` of the executor: the remaining gas as a word. The
/// claim is only that this is the answer to [`HostQuery::GasLeft`].
#[verifier::external_body]
pub(crate) fn host_gas_left<'a>(host: &HostExecutor<'a>) -> (gas: U256)
    ensures
        host_answers(*host).contains_pair(HostQuery::GasLeft, HostAnswer::Word(gas)),
{
    host.inner.gas_left()
}

/// `Handler::gas_price` of the executor, read from the backend. The claim is
/// only that this is the answer to [`HostQuery::GasPrice`].
#[verifier::external_body]
pub(crate) fn host_gas_price<'a>(host: &HostExecutor<'a>) -> (price: U256)
    ensures
        host_answers(*host).contains_pair(HostQuery::GasPrice, HostAnswer::Word(price)),
{
    host.inner.gas_price()
}

/// `Handler::origin` of the executor, read from the backend. The claim is
/// only that this is the answer to [`HostQuery::Origin`].
#[verifier::external_body]
pub(crate) fn host_origin<'a>(host: &HostExecutor<'a>) -> (origin: H160)
    ensures
        host_answers(*host).contains_pair(HostQuery::Origin, HostAnswer::Address(origin)),
{
    host.inner.origin()
}

/// `Handler::block_hash` of the executor: the hash of one of the recent
/// blocks, zero for a block outside the backend's window. The claim is only
/// that this is the answer to [`HostQuery::BlockHash`].
#[verifier::external_body]
pub(crate) fn host_block_hash<'a>(host: &HostExecutor<'a>, number: U256) -> (hash: H256)
    ensures
        host_answers(*host).contains_pair(HostQuery::BlockHash(number), HostAnswer::Hash(hash)),
{
    host.inner.block_hash(number)
}

/// `Handler::block_number` of the executor, read from the backend. The claim
/// is only that this is the answer to [`HostQuery::BlockNumber`].
#[verifier::external_body]
pub(crate) fn host_block_number<'a>(host: &HostExecutor<'a>) -> (number: U256)
    ensures
        host_answers(*host).contains_pair(HostQuery::BlockNumber, HostAnswer::Word(number)),
{
    host.inner.block_number()
}

/// `Handler::block_coinbase` of the executor, read from the backend. The
/// claim is only that this is the answer to [`HostQuery::BlockCoinbase`].
#[verifier::external_body]
pub(crate) fn host_block_coinbase<'a>(host: &HostExecutor<'a>) -> (coinbase: H160)
    ensures
        host_answers(*host).contains_pair(HostQuery::BlockCoinbase, HostAnswer::Address(coinbase)),
{
    host.inner.block_coinbase()
}

/// `Handler::block_timestamp` of the executor, read from the backend. The
/// claim is only that this is the answer to [`HostQuery::BlockTimestamp`].
#[verifier::external_body]
pub(crate) fn host_block_timestamp<'a>(host: &HostExecutor<'a>) -> (timestamp: U256)
    ensures
        host_answers(*host).contains_pair(HostQuery::BlockTimestamp, HostAnswer::Word(timestamp)),
{
    host.inner.block_timestamp()
}

/// `Handler::block_difficulty` of the executor, read from the backend. The
/// claim is only that this is the answer to [`HostQuery::BlockDifficulty`].
#[verifier::external_body]
pub(crate) fn host_block_difficulty<'a>(host: &HostExecutor<'a>) -> (difficulty: U256)
    ensures
        host_answers(*host).contains_pair(
            HostQuery::BlockDifficulty,
            HostAnswer::Word(difficulty),
        ),
{
    host.inner.block_difficulty()
}

/// `Handler::block_gas_limit` of the executor, read from the backend. The
/// claim is only that this is the answer to [`HostQuery::BlockGasLimit`].
#[verifier::external_body]
pub(crate) fn host_block_gas_limit<'a>(host: &HostExecutor<'a>) -> (limit: U256)
    ensures
        host_answers(*host).contains_pair(HostQuery::BlockGasLimit, HostAnswer::Word(limit)),
{
    host.inner.block_gas_limit()
}

/// `Handler::block_base_fee_per_gas` of the executor, read from the backend.
/// The claim is only that this is the answer to
/// [`HostQuery::BlockBaseFeePerGas`].
#[verifier::external_body]
pub(crate) fn host_block_base_fee_per_gas<'a>(host: &HostExecutor<'a>) -> (fee: U256)
    ensures
        host_answers(*host).contains_pair(HostQuery::BlockBaseFeePerGas, HostAnswer::Word(fee)),
{
    host.inner.block_base_fee_per_gas()
}

/// `Handler::chain_id` of the executor, read from the backend. The claim is
/// only that this is the answer to [`HostQuery::ChainId`].
#[verifier::external_body]
pub(crate) fn host_chain_id<'a>(host: &HostExecutor<'a>) -> (id: U256)
    ensures
        host_answers(*host).contains_pair(HostQuery::ChainId, HostAnswer::Word(id)),
{
    host.inner.chain_id()
}

/// `Handler::exists` of the executor: whether the journal or the backend
/// knows the account (and, where the configuration says so, the account is
/// not empty). The claim is only that this is the answer to
/// [`HostQuery::Exists`].
#[verifier::external_body]
pub(crate) fn host_exists<'a>(host: &HostExecutor<'a>, address: H160) -> (known: bool)
    ensures
        host_answers(*host).contains_pair(HostQuery::Exists(address), HostAnswer::Flag(known)),
{
    host.inner.exists(address)
}

/// `Handler::deleted` of the executor: whether the account is marked for
/// deletion in the journal. The claim is only that this is the answer to
/// [`HostQuery::Deleted`].
#[verifier::external_body]
pub(crate) fn host_deleted<'a>(host: &HostExecutor<'a>, address: H160) -> (marked: bool)
    ensures
        host_answers(*host).contains_pair(HostQuery::Deleted(address), HostAnswer::Flag(marked)),
{
    host.inner.deleted(address)
}

/// `Handler::is_cold` of the executor: whether the address, or the storage
/// slot, is absent from the sets of accessed addresses and slots (an address
/// in the precompile table is never cold). It reads the sets and does not
/// add to them. The claim is only that this is the answer to
/// [`HostQuery::IsCold`].
#[verifier::external_body]
pub(crate) fn host_is_cold<'a>(host: &HostExecutor<'a>, address: H160, index: Option<H256>) -> (cold: bool)
    ensures
        host_answers(*host).contains_pair(
            HostQuery::IsCold(address, index),
            HostAnswer::Flag(cold),
        ),
{
    host.inner.is_cold(address, index)
}

/// `Handler::set_storage` of the executor: inserts the value into the
/// journal's storage map under the pair of address and slot, touches nothing
/// else, and reports success. So the answer to the storage query for that
/// slot is the value written, every other answer is as before, and so are
/// the list of logs and the configuration.
#[verifier::external_body]
pub(crate) fn host_set_storage<'a>(
    host: &mut HostExecutor<'a>,
    address: H160,
    index: H256,
    value: H256,
) -> (written: Result<(), ExitError>)
    ensures
        written is Ok,
        host_answers(*final(host)) == host_answers(*old(host)).insert(
            HostQuery::Storage(address, index),
            HostAnswer::Hash(value),
        ),
        journal_logs(held_state(*final(host))) == journal_logs(held_state(*old(host))),
        held_config(*final(host)) == held_config(*old(host)),
        held_footing(*final(host)) == held_footing(*old(host)),
{
    host.inner.set_storage(address, index, value)
}

/// `Handler::log` of the executor: appends one entry, made of the address,
/// the topics and the data, to the list of logs of the journal's current
/// substate, and reports success. No query reads that list, so every answer
/// is as before.
#[verifier::external_body]
pub(crate) fn host_log<'a>(
    host: &mut HostExecutor<'a>,
    address: H160,
    topics: Vec<H256>,
    data: Vec<u8>,
) -> (logged: Result<(), ExitError>)
    ensures
        logged is Ok,
        host_answers(*final(host)) == host_answers(*old(host)),
        journal_logs(held_state(*final(host))) == journal_logs(held_state(*old(host))).push(
            LogEntry { address, topics: topics@, data: data@ },
        ),
        held_config(*final(host)) == held_config(*old(host)),
        held_footing(*final(host)) == held_footing(*old(host)),
{
    host.inner.log(address, topics, data)
}

/// `Handler::mark_delete` of the executor: reads the account's balance,
/// moves that balance to the target, sets the balance to zero and adds the
/// account to the journal's set of deleted accounts. The transfer cannot
/// fail, as it moves exactly what the account has, so success is reported.
/// The sets of accessed addresses and slots, the list of logs and the
/// configuration are not touched. The claim: success, what was warm stays
/// warm, the account is answered as deleted with a balance of zero, a target
/// other than the account has what it had and what the account had, added
/// up without going beyond the largest word, and the logs, the configuration
/// and the footing are as before.
#[verifier::external_body]
pub(crate) fn host_mark_delete<'a>(
    host: &mut HostExecutor<'a>,
    address: H160,
    target: H160,
) -> (marked: Result<(), ExitError>)
    ensures
        marked is Ok,
        keeps_warm(host_answers(*old(host)), host_answers(*final(host))),
        host_answers(*final(host)).contains_pair(
            HostQuery::Deleted(address),
            HostAnswer::Flag(true),
        ),
        match host_answers(*final(host))[HostQuery::Balance(address)] {
            HostAnswer::Word(left) => word_is_zero(left),
            _ => false,
        },
        address != target ==> match (
            host_answers(*old(host))[HostQuery::Balance(target)],
            host_answers(*old(host))[HostQuery::Balance(address)],
        ) {
            (HostAnswer::Word(had), HostAnswer::Word(moved)) => host_answers(
                *final(host),
            )[HostQuery::Balance(target)] == HostAnswer::Word(saturating_sum(had, moved)),
            _ => false,
        },
        journal_logs(held_state(*final(host))) == journal_logs(held_state(*old(host))),
        held_config(*final(host)) == held_config(*old(host)),
        held_footing(*final(host)) == held_footing(*old(host)),
{
    host.inner.mark_delete(address, target)
}

/// `Handler::create` of the executor: attempts the creation, running the
/// initialization code in a substate of the journal. Addresses and slots are
/// only ever added to the accessed sets, and a substate that is left is
/// merged into its parent or dropped, so what was warm before the call is
/// warm after it. Nothing is claimed of the outcome: the code that is run
/// may call the functions of the precompile table. (The executor of this
/// version of the crate runs a creation to its end by itself: its own
/// interrupt type has no values. The contract does not rely on that.) What
/// `requires` leaves out: the executor raises the nonce of the caller, and
/// of every account that the code creates from, by one without a check; and
/// the gas meter subtracts and adds prices of the configuration, adds costs
/// to the gas used and sums up refunds, all without a check. So the caller's
/// nonce has room, and the executor was built with sound prices on a sound
/// footing. The configuration and the footing are never replaced.
#[verifier::external_body]
pub(crate) fn host_create<'a>(
    host: &mut HostExecutor<'a>,
    caller: H160,
    scheme: CreateScheme,
    value: U256,
    init_code: &Vec<u8>,
    target_gas: Option<u64>,
) -> (attempted: Captured<(ExitReason, Option<H160>, Vec<u8>), ()>)
    requires
        sound_prices(prices_of(held_config(*old(host)))),
        sound_footing(held_footing(*old(host))),
        affords_create(host_answers(*old(host)), caller),
    ensures
        held_config(*final(host)) == held_config(*old(host)),
        held_footing(*final(host)) == held_footing(*old(host)),
        keeps_warm(host_answers(*old(host)), host_answers(*final(host))),
{
    match host.inner.create(caller, scheme, value, init_code.clone(), target_gas) {
        Capture::Exit(outcome) => Captured::Exit(outcome),
        Capture::Trap(_) => Captured::Trap(()),
    }
}

/// `Handler::call` of the executor: attempts the message call, running a
/// function of the precompile table or the target's code in a substate of
/// the journal. As for creation, what was warm before the call is warm after
/// it, nothing is claimed of the outcome, and the executor of this version
/// never suspends by itself. What `requires` leaves out is what it leaves
/// out for a creation, but for the caller's nonce; and the gas meter
/// subtracts what the callee leaves from the gas used so far, which with the
/// stipend of a call that moves value can be more than was used. (The cost
/// that a function of the precompile table reports is added to the gas used
/// of a meter that has charged nothing yet, so that sum stays within the
/// integers whatever the cost.) The configuration and the footing are never
/// replaced.
#[verifier::external_body]
pub(crate) fn host_call<'a>(
    host: &mut HostExecutor<'a>,
    code_address: H160,
    transfer: &Option<Transfer>,
    input: &Vec<u8>,
    target_gas: Option<u64>,
    is_static: bool,
    context: &Context,
) -> (attempted: Captured<(ExitReason, Vec<u8>), ()>)
    requires
        sound_prices(prices_of(held_config(*old(host)))),
        sound_footing(held_footing(*old(host))),
        affords_call(host_answers(*old(host)), *transfer),
    ensures
        held_config(*final(host)) == held_config(*old(host)),
        held_footing(*final(host)) == held_footing(*old(host)),
        keeps_warm(host_answers(*old(host)), host_answers(*final(host))),
{
    let (transfer, input, context) = (transfer.clone(), input.clone(), context.clone());
    match host.inner.call(code_address, transfer, input, target_gas, is_static, context) {
        Capture::Exit(outcome) => Captured::Exit(outcome),
        Capture::Trap(_) => Captured::Trap(()),
    }
}

/// `Handler::pre_validate` of the executor: charges the gas of the opcode
/// and, for an opcode that touches an account or a slot, adds it to the
/// accessed sets. It writes to the gas meter and to the accessed sets and to
/// nothing else, and removes nothing from the sets: so what was warm stays
/// warm, and every answer that is not read from the meter or the sets is as
/// before, whether the verdict is a success or an error. The list of logs
/// and the configuration are not written to either. The verdict is the one
/// that the executor's state and the values given determine. The meter
/// subtracts and adds prices of the configuration, adds the cost to the gas
/// used and sums up refunds, all without a check: `requires` leaves out the
/// prices and gas limits with which that leaves the integers.
#[verifier::external_body]
pub(crate) fn host_pre_validate<'a>(
    host: &mut HostExecutor<'a>,
    context: &Context,
    opcode: Opcode,
    stack: &Stack,
) -> (checked: Result<(), ExitError>)
    requires
        sound_prices(prices_of(held_config(*old(host)))),
        sound_footing(held_footing(*old(host))),
    ensures
        held_config(*final(host)) == held_config(*old(host)),
        held_footing(*final(host)) == held_footing(*old(host)),
        journal_logs(held_state(*final(host))) == journal_logs(held_state(*old(host))),
        checked == pre_validation(*old(host), *context, opcode, *stack),
        keeps_warm(host_answers(*old(host)), host_answers(*final(host))),
        differs_in_meters_only(host_answers(*old(host)), host_answers(*final(host))),
{
    host.inner.pre_validate(context, opcode, stack)
}

} // verus!
