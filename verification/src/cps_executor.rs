//! The control-transfer layer. It forwards every host query and host
//! mutation to the executor it holds, and turns a creation or message call
//! that the executor cannot finish on the spot into an interrupt that names
//! every value the driver needs to perform it elsewhere.

use vstd::prelude::*;
use crate::host::{
    affords_call, affords_create, backend_nonce_words, backend_nonces, class_of, config_prices,
    context_copy, differs_in_meters_only, exit_class, footing_of, fresh_state, has_room,
    held_config, held_footing, held_state, host_answers, host_balance, host_block_base_fee_per_gas,
    host_block_coinbase, host_block_difficulty, host_block_gas_limit, host_block_hash,
    host_block_number, host_block_timestamp, host_call, host_call_stipend, host_chain_id,
    host_code, host_code_hash, host_code_size, host_create, host_deleted, host_exists, host_gas,
    host_gas_left, host_gas_price, host_into_state, host_is_cold, host_log, host_mark_delete,
    host_new, host_nonce, host_origin, host_original_storage, host_pre_validate, host_set_storage,
    host_storage, host_used_gas, journal_logs, keeps_warm, prices_of, reason_copy, routes_balance,
    sound_footing, sound_prices, transfer_copy, transfer_moves_nothing, Captured, ExitClass,
    Footing, HostAnswer, HostExecutor, HostQuery, HostState, LogEntry, PrecompileMap,
};
use evm::backend::MemoryBackend;
use evm::{Config, Context, CreateScheme, ExitError, ExitReason, Opcode, Stack, Transfer};
use primitive_types::{H160, H256, U256};

verus! {

/// The kind of sub-call that an interrupt asks for.
#[derive(Clone, Copy, Debug, PartialEq, Eq, Structural)]
pub enum InterruptKind {
    Create,
    Call,
}

/// Where a computation stands.
#[derive(Clone, Copy, Debug, PartialEq, Eq, Structural)]
pub enum CpsPhase {
    /// The engine may be advanced, and may ask for a creation or a call.
    Running,
    /// An interrupt of this kind has been handed out and not yet fed back.
    Suspended(InterruptKind),
    /// The engine has reported its final exit.
    Terminated,
}

impl CpsPhase {
    /// The kind of the interrupt that is outstanding, if one is.
    pub open spec fn outstanding(self) -> Option<InterruptKind> {
        match self {
            CpsPhase::Suspended(kind) => Some(kind),
            _ => None,
        }
    }

    /// Whether a creation or a call may be asked for.
    pub open spec fn accepts_request(self) -> bool {
        self == CpsPhase::Running
    }

    /// The phase that a running computation is in after a request of the
    /// given kind, by whether the request was suspended.
    pub open spec fn after_request(kind: InterruptKind, suspended: bool) -> CpsPhase {
        if suspended {
            CpsPhase::Suspended(kind)
        } else {
            CpsPhase::Running
        }
    }

    /// Whether the engine can report `advanced` in this phase: a final exit
    /// while running or once more after the end, a suspension only once an
    /// interrupt is out.
    pub open spec fn admits(self, advanced: Captured<ExitReason, ()>) -> bool {
        match advanced {
            Captured::Exit(_) => self == CpsPhase::Running || self == CpsPhase::Terminated,
            Captured::Trap(_) => self.outstanding() is Some,
        }
    }

    /// The phase after the engine has reported `advanced`.
    pub open spec fn after_advance(self, advanced: Captured<ExitReason, ()>) -> CpsPhase {
        match advanced {
            Captured::Exit(_) => CpsPhase::Terminated,
            Captured::Trap(_) => self,
        }
    }
}

/// The values of a creation request.
pub struct CreateRequest {
    pub caller: H160,
    pub scheme: CreateScheme,
    pub value: U256,
    pub init_code: Seq<u8>,
    pub target_gas: Option<u64>,
}

/// The values of a message-call request.
pub struct CallRequest {
    pub code_address: H160,
    pub transfer: Option<Transfer>,
    pub input: Seq<u8>,
    pub target_gas: Option<u64>,
    pub is_static: bool,
    pub context: Context,
}

/// A creation that waits to be performed by the driver: the caller, the
/// scheme, the value to move, the initialization code and the gas ceiling,
/// as they were asked for.
#[derive(Debug)]
pub struct CpsCreateInterrupt {
    caller: H160,
    scheme: CreateScheme,
    value: U256,
    init_code: Vec<u8>,
    target_gas: Option<u64>,
}

impl View for CpsCreateInterrupt {
    type V = CreateRequest;

    closed spec fn view(&self) -> CreateRequest {
        CreateRequest {
            caller: self.caller,
            scheme: self.scheme,
            value: self.value,
            init_code: self.init_code@,
            target_gas: self.target_gas,
        }
    }
}

impl CpsCreateInterrupt {
    /// The address that asked for the creation.
    pub fn caller(&self) -> (caller: H160)
        ensures
            caller == self@.caller,
    {
        self.caller
    }

    /// How the address of the new contract is derived.
    pub fn scheme(&self) -> (scheme: CreateScheme)
        ensures
            scheme == self@.scheme,
    {
        self.scheme
    }

    /// The value to move to the new contract.
    pub fn value(&self) -> (value: U256)
        ensures
            value == self@.value,
    {
        self.value
    }

    /// The initialization code.
    pub fn init_code(&self) -> (init_code: &Vec<u8>)
        ensures
            init_code@ == self@.init_code,
    {
        &self.init_code
    }

    /// The gas ceiling, if one was given.
    pub fn target_gas(&self) -> (target_gas: Option<u64>)
        ensures
            target_gas == self@.target_gas,
    {
        self.target_gas
    }
}

/// What the driver hands back once a creation has been performed: why it
/// ended, the address of the new contract if one was made, and the bytes it
/// returned.
#[derive(Debug, PartialEq, Eq)]
pub struct CpsCreateFeedback {
    pub reason: ExitReason,
    pub address: Option<H160>,
    pub return_data: Vec<u8>,
}

/// The values of a [`CpsCreateFeedback`].
pub struct CreateFeedbackView {
    pub reason: ExitReason,
    pub address: Option<H160>,
    pub return_data: Seq<u8>,
}

impl View for CpsCreateFeedback {
    type V = CreateFeedbackView;

    open spec fn view(&self) -> CreateFeedbackView {
        CreateFeedbackView {
            reason: self.reason,
            address: self.address,
            return_data: self.return_data@,
        }
    }
}

/// A message call that waits to be performed by the driver: the address of
/// the code, the transfer, the input, the gas ceiling, the static flag and
/// the context, as they were asked for.
#[derive(Debug)]
pub struct CpsCallInterrupt {
    code_address: H160,
    transfer: Option<Transfer>,
    input: Vec<u8>,
    target_gas: Option<u64>,
    is_static: bool,
    context: Context,
}

impl View for CpsCallInterrupt {
    type V = CallRequest;

    closed spec fn view(&self) -> CallRequest {
        CallRequest {
            code_address: self.code_address,
            transfer: self.transfer,
            input: self.input@,
            target_gas: self.target_gas,
            is_static: self.is_static,
            context: self.context,
        }
    }
}

impl CpsCallInterrupt {
    /// The address whose code is to run.
    pub fn code_address(&self) -> (code_address: H160)
        ensures
            code_address == self@.code_address,
    {
        self.code_address
    }

    /// The value movement that comes with the call, if there is one.
    pub fn transfer(&self) -> (transfer: &Option<Transfer>)
        ensures
            *transfer == self@.transfer,
    {
        &self.transfer
    }

    /// The input of the call.
    pub fn input(&self) -> (input: &Vec<u8>)
        ensures
            input@ == self@.input,
    {
        &self.input
    }

    /// The gas ceiling, if one was given.
    pub fn target_gas(&self) -> (target_gas: Option<u64>)
        ensures
            target_gas == self@.target_gas,
    {
        self.target_gas
    }

    /// Whether the call may not change state.
    pub fn is_static(&self) -> (is_static: bool)
        ensures
            is_static == self@.is_static,
    {
        self.is_static
    }

    /// The context under which the call runs.
    pub fn context(&self) -> (context: &Context)
        ensures
            *context == self@.context,
    {
        &self.context
    }
}

/// What the driver hands back once a message call has been performed: why
/// it ended and the bytes it returned.
#[derive(Debug, PartialEq, Eq)]
pub struct CpsCallFeedback {
    pub reason: ExitReason,
    pub return_data: Vec<u8>,
}

/// The values of a [`CpsCallFeedback`].
pub struct CallFeedbackView {
    pub reason: ExitReason,
    pub return_data: Seq<u8>,
}

impl View for CpsCallFeedback {
    type V = CallFeedbackView;

    open spec fn view(&self) -> CallFeedbackView {
        CallFeedbackView { reason: self.reason, return_data: self.return_data@ }
    }
}

/// An interrupt of either kind.
#[derive(Debug)]
pub enum CpsInterrupt {
    Create(CpsCreateInterrupt),
    Call(CpsCallInterrupt),
}

/// The values of an interrupt of either kind.
pub enum InterruptRequest {
    Create(CreateRequest),
    Call(CallRequest),
}

impl InterruptRequest {
    /// The kind of the interrupt.
    pub open spec fn kind(self) -> InterruptKind {
        match self {
            InterruptRequest::Create(_) => InterruptKind::Create,
            InterruptRequest::Call(_) => InterruptKind::Call,
        }
    }
}

impl View for CpsInterrupt {
    type V = InterruptRequest;

    open spec fn view(&self) -> InterruptRequest {
        match self {
            CpsInterrupt::Create(interrupt) => InterruptRequest::Create(interrupt@),
            CpsInterrupt::Call(interrupt) => InterruptRequest::Call(interrupt@),
        }
    }
}

/// The word that takes the place of the zero word which the engine left on
/// its stack when it was suspended.
#[derive(Debug, PartialEq, Eq)]
pub enum ResumedWord {
    /// The sub-call did not succeed.
    Zero,
    /// The message call succeeded.
    One,
    /// The creation succeeded and made the contract at this address.
    Address(H160),
}

/// What the engine is handed when it resumes after a sub-call, as it would
/// have taken the outcome had the host performed the sub-call on the spot.
#[derive(Debug, PartialEq, Eq)]
pub struct CpsResumption {
    /// The word for the top of the stack.
    pub word: ResumedWord,
    /// The new content of the return data buffer.
    pub return_data: Vec<u8>,
    /// Whether the returned bytes are also copied to the output range that
    /// the call opcode named, as far as they fit.
    pub copies_output: bool,
    /// The reason with which the computation ends at once, where the
    /// sub-call ended fatally.
    pub ends: Option<ExitReason>,
}

/// The values of a [`CpsResumption`].
pub struct ResumptionView {
    pub word: ResumedWord,
    pub return_data: Seq<u8>,
    pub copies_output: bool,
    pub ends: Option<ExitReason>,
}

impl View for CpsResumption {
    type V = ResumptionView;

    open spec fn view(&self) -> ResumptionView {
        ResumptionView {
            word: self.word,
            return_data: self.return_data@,
            copies_output: self.copies_output,
            ends: self.ends,
        }
    }
}

/// What the engine is handed after a creation. The returned bytes fill the
/// return data buffer whatever the outcome. The word is the address of the
/// new contract where the creation succeeded and made one, and zero
/// otherwise. A fatal end of the creation ends the computation.
pub open spec fn create_resumption(feedback: CreateFeedbackView) -> ResumptionView {
    ResumptionView {
        word: match (class_of(feedback.reason), feedback.address) {
            (ExitClass::Succeed, Some(address)) => ResumedWord::Address(address),
            _ => ResumedWord::Zero,
        },
        return_data: feedback.return_data,
        copies_output: false,
        ends: if class_of(feedback.reason) == ExitClass::Fatal {
            Some(feedback.reason)
        } else {
            None
        },
    }
}

/// What the engine is handed after a message call. The returned bytes fill
/// the return data buffer whatever the outcome, and are copied to the output
/// range where the call succeeded or reverted. The word is one where the
/// call succeeded and zero otherwise. A fatal end of the call ends the
/// computation.
pub open spec fn call_resumption(feedback: CallFeedbackView) -> ResumptionView {
    ResumptionView {
        word: if class_of(feedback.reason) == ExitClass::Succeed {
            ResumedWord::One
        } else {
            ResumedWord::Zero
        },
        return_data: feedback.return_data,
        copies_output: class_of(feedback.reason) == ExitClass::Succeed || class_of(
            feedback.reason,
        ) == ExitClass::Revert,
        ends: if class_of(feedback.reason) == ExitClass::Fatal {
            Some(feedback.reason)
        } else {
            None
        },
    }
}

impl CpsCreateFeedback {
    /// What the engine is handed for this feedback.
    pub fn resumption(self) -> (resumption: CpsResumption)
        ensures
            resumption@ == create_resumption(self@),
    {
        let class = exit_class(&self.reason);
        let word = match (class, self.address) {
            (ExitClass::Succeed, Some(address)) => ResumedWord::Address(address),
            _ => ResumedWord::Zero,
        };
        let ends = match class {
            ExitClass::Fatal => Some(self.reason),
            _ => None,
        };
        CpsResumption { word, return_data: self.return_data, copies_output: false, ends }
    }
}

impl CpsCallFeedback {
    /// What the engine is handed for this feedback.
    pub fn resumption(self) -> (resumption: CpsResumption)
        ensures
            resumption@ == call_resumption(self@),
    {
        let class = exit_class(&self.reason);
        let word = match class {
            ExitClass::Succeed => ResumedWord::One,
            _ => ResumedWord::Zero,
        };
        let copies_output = match class {
            ExitClass::Succeed => true,
            ExitClass::Revert => true,
            _ => false,
        };
        let ends = match class {
            ExitClass::Fatal => Some(self.reason),
            _ => None,
        };
        CpsResumption { word, return_data: self.return_data, copies_output, ends }
    }
}

/// How an advance of the engine ended.
#[derive(Debug, PartialEq, Eq)]
pub enum CpsReason {
    /// The engine exited for this reason.
    NormalExit(ExitReason),
    /// The engine is suspended and the driver has to serve an interrupt.
    Other,
}

impl CpsReason {
    /// The reason that stands for what the engine reported.
    pub open spec fn of(advanced: Captured<ExitReason, ()>) -> CpsReason {
        match advanced {
            Captured::Exit(exit) => CpsReason::NormalExit(exit),
            Captured::Trap(_) => CpsReason::Other,
        }
    }
}

/// What contracts say of a [`CpsExecutor`]: the answers of its host, the
/// configuration and the footing it was built on, the phase of its
/// computation, the
/// interrupt that is outstanding, what the engine is to be handed when it
/// resumes, and the exit that ended the computation.
pub struct CpsExecutorView {
    pub host: Map<HostQuery, HostAnswer>,
    pub config: Config,
    pub footing: Footing,
    pub phase: CpsPhase,
    pub outstanding: Option<InterruptRequest>,
    pub resumption: Option<ResumptionView>,
    pub exit: Option<ExitReason>,
}

impl CpsExecutorView {
    /// Whether the phase is the one that the exit and the outstanding
    /// interrupt make: ended once there is an exit, suspended while an
    /// interrupt is outstanding, and running otherwise.
    pub open spec fn coherent(self) -> bool {
        match (self.exit, self.outstanding) {
            (Some(_), outstanding) => self.phase == CpsPhase::Terminated && outstanding is None,
            (None, Some(request)) => self.phase == CpsPhase::Suspended(request.kind()),
            (None, None) => self.phase == CpsPhase::Running,
        }
    }

    /// The layer after a request has been settled: where it was suspended,
    /// the request is outstanding.
    pub open spec fn after_request(self, request: InterruptRequest, suspended: bool) -> Self {
        if suspended {
            CpsExecutorView {
                phase: CpsPhase::Suspended(request.kind()),
                outstanding: Some(request),
                ..self
            }
        } else {
            self
        }
    }

    /// The layer after the engine has reported `advanced`: the first final
    /// exit ends the computation and stays its exit.
    pub open spec fn after_advance(self, advanced: Captured<ExitReason, ()>) -> Self {
        match (advanced, self.exit) {
            (Captured::Exit(exit), None) => CpsExecutorView {
                phase: CpsPhase::Terminated,
                exit: Some(exit),
                ..self
            },
            _ => self,
        }
    }

    /// Whether the host can run: its gas meter can compute with the prices
    /// of the configuration and the gas limit, and the nonces it started
    /// from have room.
    pub open spec fn meters_soundly(self) -> bool {
        sound_prices(prices_of(self.config)) && sound_footing(self.footing)
    }

    /// How an advance that reported `advanced` ended: with the exit that is
    /// fixed, if the computation had ended before, else as reported.
    pub open spec fn reason(self, advanced: Captured<ExitReason, ()>) -> CpsReason {
        match self.exit {
            Some(fixed) => CpsReason::NormalExit(fixed),
            None => CpsReason::of(advanced),
        }
    }
}

/// Where the layer stands, with what it holds there.
enum Stage {
    Running,
    Suspended(CpsInterrupt),
    Terminated(ExitReason),
}

/// The layer itself: an executor of the `evm` crate, the stage of the
/// computation with the interrupt that waits for feedback or the exit that
/// ended it, and what the last feedback hands to the engine.
pub struct CpsExecutor<'a> {
    stack_executor: HostExecutor<'a>,
    stage: Stage,
    resumption: Option<CpsResumption>,
}

impl<'a> View for CpsExecutor<'a> {
    type V = CpsExecutorView;

    closed spec fn view(&self) -> CpsExecutorView {
        CpsExecutorView {
            host: host_answers(self.stack_executor),
            config: held_config(self.stack_executor),
            footing: held_footing(self.stack_executor),
            phase: match self.stage {
                Stage::Running => CpsPhase::Running,
                Stage::Suspended(interrupt) => CpsPhase::Suspended(interrupt@.kind()),
                Stage::Terminated(_) => CpsPhase::Terminated,
            },
            outstanding: match self.stage {
                Stage::Suspended(interrupt) => Some(interrupt@),
                _ => None,
            },
            resumption: match self.resumption {
                Some(resumption) => Some(resumption@),
                None => None,
            },
            exit: match self.stage {
                Stage::Terminated(exit) => Some(exit),
                _ => None,
            },
        }
    }
}

impl<'a> CpsExecutor<'a> {
    /// The journaled state that the host holds: the one the layer was built
    /// over, with every change that was made through the layer since.
    pub closed spec fn state(&self) -> HostState<'a> {
        held_state(self.stack_executor)
    }

    /// The log entries that the host has recorded, oldest first.
    pub open spec fn logs(&self) -> Seq<LogEntry> {
        journal_logs(self.state())
    }

    /// The verdict of the host, as it stands, on an opcode that is about to
    /// run in this context on this stack.
    pub closed spec fn pre_validation(&self, context: Context, opcode: Opcode, stack: Stack) -> Result<
        (),
        ExitError,
    > {
        crate::host::pre_validation(self.stack_executor, context, opcode, stack)
    }

    /// Whether the host's gas meter can compute with the prices of this
    /// configuration: the call stipend is at most what a call that moves
    /// value is charged, loading a storage slot costs at most what setting
    /// or resetting one costs, and no price is above the cap.
    pub fn accepts_config(config: &Config) -> (accepted: bool)
        ensures
            accepted == sound_prices(prices_of(*config)),
    {
        let prices = config_prices(config);
        let cap = crate::host::PRICE_CAP;
        let refund_cap: i64 = 0x10_0000;
        prices.call_stipend <= crate::host::CALL_VALUE_GAS && prices.gas_sload
            <= prices.gas_sstore_set && prices.gas_sload <= prices.gas_sstore_reset
            && prices.gas_sload <= cap && prices.gas_sstore_set <= cap && prices.gas_sstore_reset
            <= cap && prices.gas_sload_cold <= cap && prices.gas_storage_read_warm <= cap
            && prices.gas_account_access_cold <= cap && prices.gas_call <= cap
            && prices.gas_balance <= cap && prices.gas_ext_code <= cap && prices.gas_ext_code_hash
            <= cap && prices.gas_expbyte <= cap && prices.gas_suicide <= cap
            && prices.gas_suicide_new_account <= cap && -refund_cap <= prices.refund_sstore_clears
            && prices.refund_sstore_clears <= refund_cap
    }

    /// Whether every account of this backend has a nonce with room: one in
    /// the lower half of its range.
    pub fn accepts_backend(backend: &MemoryBackend<'_>) -> (accepted: bool)
        ensures
            accepted == crate::host::all_have_room(backend_nonces(*backend)),
    {
        let nonces = backend_nonce_words(backend);
        let mut i: usize = 0;
        while i < nonces.len()
            invariant
                i <= nonces.len(),
                nonces@ == backend_nonces(*backend),
                forall|j: int| 0 <= j < i ==> has_room(#[trigger] nonces@[j]),
            decreases nonces.len() - i,
        {
            if nonces[i][3] >= crate::host::NONCE_TOP_CAP {
                assert(!has_room(nonces@[i as int]));
                return false;
            }
            i += 1;
        }
        true
    }

    /// A layer over the given state, configuration and precompile table,
    /// ready to run: no interrupt is outstanding, nothing has been fed back
    /// and nothing has ended. The host must be able to run on them: the
    /// prices of the configuration and the gas limit of the state's meter
    /// are ones that the meter can compute with, and the nonces that the
    /// state knows have room. [`Self::try_over_backend`] finds that out by
    /// itself for a state that it makes over a backend.
    pub fn new_with_precompiles(
        state: HostState<'a>,
        config: &'a Config,
        precompile_set: &'a PrecompileMap,
    ) -> (executor: Self)
        requires
            sound_prices(prices_of(*config)),
            sound_footing(footing_of(state)),
        ensures
            executor@.config == *config,
            executor@.footing == footing_of(state),
            executor@.meters_soundly(),
            executor@.phase == CpsPhase::Running,
            executor@.outstanding is None,
            executor@.resumption is None,
            executor@.exit is None,
            executor.state() == state,
    {
        CpsExecutor {
            stack_executor: host_new(state, config, precompile_set),
            stage: Stage::Running,
            resumption: None,
        }
    }

    /// A layer as [`Self::new_with_precompiles`] makes it, over a journal
    /// without an entry on the given backend and with a meter of the given
    /// gas limit; or none, where the host could not run: where the prices of
    /// the configuration or the gas limit are beyond what the meter can
    /// compute with, or an account of the backend has a nonce without room.
    pub fn try_over_backend(
        backend: &'a MemoryBackend<'a>,
        gas_limit: u64,
        config: &'a Config,
        precompile_set: &'a PrecompileMap,
    ) -> (made: Option<Self>)
        ensures
            made is Some <==> sound_prices(prices_of(*config)) && sound_footing(
                Footing { gas_limit: Some(gas_limit), nonces: backend_nonces(*backend) },
            ),
            made matches Some(executor) ==> {
                &&& executor@.config == *config
                &&& executor@.footing == (Footing {
                    gas_limit: Some(gas_limit),
                    nonces: backend_nonces(*backend),
                })
                &&& executor@.meters_soundly()
                &&& executor@.phase == CpsPhase::Running
                &&& executor@.outstanding is None
                &&& executor@.resumption is None
                &&& executor@.exit is None
                &&& footing_of(executor.state()) == executor@.footing
            },
    {
        if Self::accepts_config(config) && gas_limit <= crate::host::GAS_LIMIT_CAP
            && Self::accepts_backend(backend) {
            let state = fresh_state(backend, gas_limit, config);
            Some(Self::new_with_precompiles(state, config, precompile_set))
        } else {
            None
        }
    }

    /// The phase of the computation. It is the one that the exit and the
    /// outstanding interrupt make.
    pub fn phase(&self) -> (phase: CpsPhase)
        ensures
            phase == self@.phase,
            self@.coherent(),
    {
        match &self.stage {
            Stage::Running => CpsPhase::Running,
            Stage::Suspended(CpsInterrupt::Create(_)) => CpsPhase::Suspended(InterruptKind::Create),
            Stage::Suspended(CpsInterrupt::Call(_)) => CpsPhase::Suspended(InterruptKind::Call),
            Stage::Terminated(_) => CpsPhase::Terminated,
        }
    }

    /// The interrupt that waits for feedback, if one does: the one that the
    /// last suspended request was answered with.
    pub fn outstanding(&self) -> (outstanding: Option<&CpsInterrupt>)
        ensures
            match outstanding {
                Some(interrupt) => self@.outstanding == Some(interrupt@),
                None => self@.outstanding is None,
            },
            self@.coherent(),
    {
        match &self.stage {
            Stage::Suspended(interrupt) => Some(interrupt),
            _ => None,
        }
    }

    /// The exit that ended the computation, if it has ended.
    pub fn exit(&self) -> (exit: Option<&ExitReason>)
        ensures
            match exit {
                Some(reason) => self@.exit == Some(*reason),
                None => self@.exit is None,
            },
            self@.coherent(),
    {
        match &self.stage {
            Stage::Terminated(reason) => Some(reason),
            _ => None,
        }
    }

    /// Whether the engine can report `advanced` in the present phase.
    pub fn admits(&self, advanced: &Captured<ExitReason, ()>) -> (admitted: bool)
        ensures
            admitted == self@.phase.admits(*advanced),
    {
        match (advanced, &self.stage) {
            (Captured::Exit(_), Stage::Suspended(_)) => false,
            (Captured::Exit(_), _) => true,
            (Captured::Trap(_), Stage::Suspended(_)) => true,
            (Captured::Trap(_), _) => false,
        }
    }

    /// Takes what an advance of the engine reported and says how it ended.
    /// The first final exit ends the computation for good and stays its
    /// exit: an advance after the end ends with that same exit. A suspension
    /// leaves the interrupt outstanding: the driver takes it from
    /// [`Self::outstanding`], serves it and feeds the result back. The host
    /// is not touched.
    pub fn execute(&mut self, advanced: Captured<ExitReason, ()>) -> (reason: CpsReason)
        requires
            old(self)@.phase.admits(advanced),
        ensures
            reason == old(self)@.reason(advanced),
            final(self)@ == old(self)@.after_advance(advanced),
            final(self)@.phase == old(self)@.phase.after_advance(advanced),
            final(self).state() == old(self).state(),
    {
        match advanced {
            Captured::Exit(exit) => match &self.stage {
                Stage::Terminated(fixed) => CpsReason::NormalExit(reason_copy(fixed)),
                _ => {
                    self.stage = Stage::Terminated(reason_copy(&exit));
                    CpsReason::NormalExit(exit)
                },
            },
            Captured::Trap(_) => CpsReason::Other,
        }
    }

    /// Takes what the last feedback hands to the engine, if it has not been
    /// taken yet. Nothing else changes.
    pub fn take_resumption(&mut self) -> (taken: Option<CpsResumption>)
        ensures
            match taken {
                Some(resumption) => old(self)@.resumption == Some(resumption@),
                None => old(self)@.resumption is None,
            },
            final(self)@ == (CpsExecutorView { resumption: None, ..old(self)@ }),
            final(self).state() == old(self).state(),
    {
        let mut taken = None;
        std::mem::swap(&mut self.resumption, &mut taken);
        taken
    }

    /// The gas that is left.
    pub fn gas(&self) -> (gas: u64)
        ensures
            self@.host.contains_pair(HostQuery::Gas, HostAnswer::Gas(gas)),
    {
        host_gas(&self.stack_executor)
    }

    /// Ends the layer and gives back the journaled state that the host
    /// holds.
    pub fn into_state(self) -> (state: HostState<'a>)
        ensures
            state == self.state(),
    {
        host_into_state(self.stack_executor)
    }

    /// The balance of an address.
    pub fn balance(&self, address: H160) -> (balance: U256)
        ensures
            self@.host.contains_pair(HostQuery::Balance(address), HostAnswer::Word(balance)),
    {
        host_balance(&self.stack_executor, address)
    }

    /// The size of the code of an address.
    pub fn code_size(&self, address: H160) -> (size: U256)
        ensures
            self@.host.contains_pair(HostQuery::CodeSize(address), HostAnswer::Word(size)),
    {
        host_code_size(&self.stack_executor, address)
    }

    /// The hash of the code of an address.
    pub fn code_hash(&self, address: H160) -> (hash: H256)
        ensures
            self@.host.contains_pair(HostQuery::CodeHash(address), HostAnswer::Hash(hash)),
    {
        host_code_hash(&self.stack_executor, address)
    }

    /// The code of an address.
    pub fn code(&self, address: H160) -> (code: Vec<u8>)
        ensures
            self@.host.contains_pair(HostQuery::Code(address), HostAnswer::Code(code@)),
    {
        host_code(&self.stack_executor, address)
    }

    /// The value of a storage slot of an address.
    pub fn storage(&self, address: H160, index: H256) -> (value: H256)
        ensures
            self@.host.contains_pair(HostQuery::Storage(address, index), HostAnswer::Hash(value)),
    {
        host_storage(&self.stack_executor, address, index)
    }

    /// The value that a storage slot had before the transaction.
    pub fn original_storage(&self, address: H160, index: H256) -> (value: H256)
        ensures
            self@.host.contains_pair(
                HostQuery::OriginalStorage(address, index),
                HostAnswer::Hash(value),
            ),
    {
        host_original_storage(&self.stack_executor, address, index)
    }

    /// The gas that is left, as a word.
    pub fn gas_left(&self) -> (gas: U256)
        ensures
            self@.host.contains_pair(HostQuery::GasLeft, HostAnswer::Word(gas)),
    {
        host_gas_left(&self.stack_executor)
    }

    /// The gas price.
    pub fn gas_price(&self) -> (price: U256)
        ensures
            self@.host.contains_pair(HostQuery::GasPrice, HostAnswer::Word(price)),
    {
        host_gas_price(&self.stack_executor)
    }

    /// The origin of the transaction.
    pub fn origin(&self) -> (origin: H160)
        ensures
            self@.host.contains_pair(HostQuery::Origin, HostAnswer::Address(origin)),
    {
        host_origin(&self.stack_executor)
    }

    /// The hash of the block with the given number.
    pub fn block_hash(&self, number: U256) -> (hash: H256)
        ensures
            self@.host.contains_pair(HostQuery::BlockHash(number), HostAnswer::Hash(hash)),
    {
        host_block_hash(&self.stack_executor, number)
    }

    /// The number of the current block.
    pub fn block_number(&self) -> (number: U256)
        ensures
            self@.host.contains_pair(HostQuery::BlockNumber, HostAnswer::Word(number)),
    {
        host_block_number(&self.stack_executor)
    }

    /// The coinbase of the current block.
    pub fn block_coinbase(&self) -> (coinbase: H160)
        ensures
            self@.host.contains_pair(HostQuery::BlockCoinbase, HostAnswer::Address(coinbase)),
    {
        host_block_coinbase(&self.stack_executor)
    }

    /// The timestamp of the current block.
    pub fn block_timestamp(&self) -> (timestamp: U256)
        ensures
            self@.host.contains_pair(HostQuery::BlockTimestamp, HostAnswer::Word(timestamp)),
    {
        host_block_timestamp(&self.stack_executor)
    }

    /// The difficulty of the current block.
    pub fn block_difficulty(&self) -> (difficulty: U256)
        ensures
            self@.host.contains_pair(HostQuery::BlockDifficulty, HostAnswer::Word(difficulty)),
    {
        host_block_difficulty(&self.stack_executor)
    }

    /// The gas limit of the current block.
    pub fn block_gas_limit(&self) -> (limit: U256)
        ensures
            self@.host.contains_pair(HostQuery::BlockGasLimit, HostAnswer::Word(limit)),
    {
        host_block_gas_limit(&self.stack_executor)
    }

    /// The base fee per gas of the current block.
    pub fn block_base_fee_per_gas(&self) -> (fee: U256)
        ensures
            self@.host.contains_pair(HostQuery::BlockBaseFeePerGas, HostAnswer::Word(fee)),
    {
        host_block_base_fee_per_gas(&self.stack_executor)
    }

    /// The chain id.
    pub fn chain_id(&self) -> (id: U256)
        ensures
            self@.host.contains_pair(HostQuery::ChainId, HostAnswer::Word(id)),
    {
        host_chain_id(&self.stack_executor)
    }

    /// Whether an address exists.
    pub fn account_exists(&self, address: H160) -> (known: bool)
        ensures
            self@.host.contains_pair(HostQuery::Exists(address), HostAnswer::Flag(known)),
    {
        host_exists(&self.stack_executor, address)
    }

    /// Whether an address has been marked for deletion.
    pub fn deleted(&self, address: H160) -> (marked: bool)
        ensures
            self@.host.contains_pair(HostQuery::Deleted(address), HostAnswer::Flag(marked)),
    {
        host_deleted(&self.stack_executor, address)
    }

    /// Whether an address, or a storage slot of it, has not been accessed
    /// yet. The query itself registers no access: asked again, it gives the
    /// same answer until the host registers one.
    pub fn is_cold(&self, address: H160, index: Option<H256>) -> (cold: bool)
        ensures
            self@.host.contains_pair(HostQuery::IsCold(address, index), HostAnswer::Flag(cold)),
    {
        host_is_cold(&self.stack_executor, address, index)
    }

    /// Writes a storage slot. The host of this layer takes every write: the
    /// slot reads back as the value written and every other answer is
    /// unchanged, as is the log. The host's verdict is passed on as it is.
    pub fn set_storage(&mut self, address: H160, index: H256, value: H256) -> (written: Result<
        (),
        ExitError,
    >)
        ensures
            written is Ok,
            final(self)@ == (CpsExecutorView {
                host: old(self)@.host.insert(
                    HostQuery::Storage(address, index),
                    HostAnswer::Hash(value),
                ),
                ..old(self)@
            }),
            final(self).logs() == old(self).logs(),
            keeps_warm(old(self)@.host, final(self)@.host),
    {
        host_set_storage(&mut self.stack_executor, address, index, value)
    }

    /// Records a log entry for an address: the entry, made of the address,
    /// the topics and the data, is the newest of the host's log. The host
    /// of this layer takes every entry, and no answer of the host changes.
    /// The host's verdict is passed on as it is.
    pub fn log(&mut self, address: H160, topics: Vec<H256>, data: Vec<u8>) -> (logged: Result<
        (),
        ExitError,
    >)
        ensures
            logged is Ok,
            final(self)@ == old(self)@,
            final(self).logs() == old(self).logs().push(
                LogEntry { address, topics: topics@, data: data@ },
            ),
    {
        host_log(&mut self.stack_executor, address, topics, data)
    }

    /// Marks an address for deletion, its balance going to the target. The
    /// host of this layer takes every mark, as it moves no more than the
    /// account has: the address is answered as deleted from now on and has
    /// a balance of zero, and a target other than the address has what it
    /// had and what the address had, added up without going beyond the
    /// largest word. The log is as before. The host's verdict is passed on
    /// as it is.
    pub fn mark_delete(&mut self, address: H160, target: H160) -> (marked: Result<(), ExitError>)
        ensures
            marked is Ok,
            final(self)@ == (CpsExecutorView { host: final(self)@.host, ..old(self)@ }),
            final(self)@.host.contains_pair(HostQuery::Deleted(address), HostAnswer::Flag(true)),
            routes_balance(old(self)@.host, final(self)@.host, address, target),
            final(self).logs() == old(self).logs(),
            keeps_warm(old(self)@.host, final(self)@.host),
    {
        host_mark_delete(&mut self.stack_executor, address, target)
    }

    /// Settles a creation request once the host has attempted it. An
    /// outcome that the host reached is passed on as it is and the
    /// computation runs on. A suspension is answered with an interrupt made
    /// of the values that were asked for, whatever the host's own suspension
    /// carried; the layer keeps that interrupt as the outstanding one until
    /// [`Self::create_feedback`]. The host is not touched.
    pub fn intercept_create(
        &mut self,
        attempted: Captured<(ExitReason, Option<H160>, Vec<u8>), ()>,
        caller: H160,
        scheme: CreateScheme,
        value: U256,
        init_code: Vec<u8>,
        target_gas: Option<u64>,
    ) -> (captured: Captured<(ExitReason, Option<H160>, Vec<u8>), CpsCreateInterrupt>)
        requires
            old(self)@.phase.accepts_request(),
        ensures
            match attempted {
                Captured::Exit(outcome) => captured == Captured::<
                    (ExitReason, Option<H160>, Vec<u8>),
                    CpsCreateInterrupt,
                >::Exit(outcome),
                Captured::Trap(_) => captured matches Captured::Trap(interrupt) && interrupt@ == (
                CreateRequest { caller, scheme, value, init_code: init_code@, target_gas }),
            },
            final(self)@ == old(self)@.after_request(
                InterruptRequest::Create(
                    CreateRequest { caller, scheme, value, init_code: init_code@, target_gas },
                ),
                attempted is Trap,
            ),
            final(self)@.phase == CpsPhase::after_request(
                InterruptKind::Create,
                attempted is Trap,
            ),
            final(self).state() == old(self).state(),
    {
        match attempted {
            Captured::Exit(outcome) => Captured::Exit(outcome),
            Captured::Trap(_) => {
                let kept = CpsCreateInterrupt {
                    caller,
                    scheme,
                    value,
                    init_code: bytes_copy(&init_code),
                    target_gas,
                };
                self.stage = Stage::Suspended(CpsInterrupt::Create(kept));
                Captured::Trap(CpsCreateInterrupt { caller, scheme, value, init_code, target_gas })
            },
        }
    }

    /// Asks for a creation. The host attempts it with the values given
    /// here, and the attempt is settled by [`Self::intercept_create`]: the
    /// result is the outcome that the host reached, as it is, or an
    /// interrupt made of these values where the host suspends. An interrupt
    /// is also kept by the layer as the outstanding one. The host must be
    /// able to afford the creation; [`Self::try_create`] finds that out by
    /// itself.
    pub fn create(
        &mut self,
        caller: H160,
        scheme: CreateScheme,
        value: U256,
        init_code: Vec<u8>,
        target_gas: Option<u64>,
    ) -> (captured: Captured<(ExitReason, Option<H160>, Vec<u8>), CpsCreateInterrupt>)
        requires
            old(self)@.meters_soundly(),
            old(self)@.phase.accepts_request(),
            affords_create(old(self)@.host, caller),
        ensures
            captured matches Captured::Trap(interrupt) ==> interrupt@ == (CreateRequest {
                caller,
                scheme,
                value,
                init_code: init_code@,
                target_gas,
            }),
            final(self)@ == (CpsExecutorView {
                host: final(self)@.host,
                ..old(self)@.after_request(
                    InterruptRequest::Create(
                        CreateRequest { caller, scheme, value, init_code: init_code@, target_gas },
                    ),
                    captured is Trap,
                )
            }),
            final(self)@.phase == CpsPhase::after_request(
                InterruptKind::Create,
                captured is Trap,
            ),
            keeps_warm(old(self)@.host, final(self)@.host),
    {
        let attempted = host_create(
            &mut self.stack_executor,
            caller,
            scheme,
            value,
            &init_code,
            target_gas,
        );
        self.intercept_create(attempted, caller, scheme, value, init_code, target_gas)
    }

    /// Whether the host can afford a creation by this caller.
    pub fn affords_create(&self, caller: H160) -> (afforded: bool)
        ensures
            afforded == affords_create(self@.host, caller),
    {
        let nonce = host_nonce(&self.stack_executor, caller);
        nonce[3] < crate::host::NONCE_TOP_CAP
    }

    /// Asks for a creation as [`Self::create`] does, where a request is
    /// accepted and the host can afford the creation. Otherwise nothing is
    /// done and there is no result: so while an interrupt is outstanding, no
    /// second one is made. The layer must have been built on what the host
    /// can run on, as every layer that a constructor of this type made has
    /// been.
    pub fn try_create(
        &mut self,
        caller: H160,
        scheme: CreateScheme,
        value: U256,
        init_code: Vec<u8>,
        target_gas: Option<u64>,
    ) -> (attempt: Option<Captured<(ExitReason, Option<H160>, Vec<u8>), CpsCreateInterrupt>>)
        requires
            old(self)@.meters_soundly(),
        ensures
            attempt is Some <==> old(self)@.phase.accepts_request() && affords_create(
                old(self)@.host,
                caller,
            ),
            attempt is None ==> final(self)@ == old(self)@ && final(self).state() == old(
                self,
            ).state(),
            attempt matches Some(captured) ==> {
                &&& captured matches Captured::Trap(interrupt) ==> interrupt@ == (CreateRequest {
                    caller,
                    scheme,
                    value,
                    init_code: init_code@,
                    target_gas,
                })
                &&& final(self)@ == (CpsExecutorView {
                    host: final(self)@.host,
                    ..old(self)@.after_request(
                        InterruptRequest::Create(
                            CreateRequest {
                                caller,
                                scheme,
                                value,
                                init_code: init_code@,
                                target_gas,
                            },
                        ),
                        captured is Trap,
                    )
                })
                &&& final(self)@.phase == CpsPhase::after_request(
                    InterruptKind::Create,
                    captured is Trap,
                )
                &&& keeps_warm(old(self)@.host, final(self)@.host)
            },
    {
        if self.phase() == CpsPhase::Running && self.affords_create(caller) {
            Some(self.create(caller, scheme, value, init_code, target_gas))
        } else {
            None
        }
    }

    /// Takes the driver's feedback for the outstanding creation. The
    /// interrupt is resolved, the computation runs on, and the layer holds
    /// what the engine is to be handed for this outcome until
    /// [`Self::take_resumption`]. The host is not touched.
    pub fn create_feedback(&mut self, feedback: CpsCreateFeedback) -> (fed: Result<(), ExitError>)
        requires
            old(self)@.phase == CpsPhase::Suspended(InterruptKind::Create),
        ensures
            fed is Ok,
            final(self)@ == (CpsExecutorView {
                phase: CpsPhase::Running,
                outstanding: None,
                resumption: Some(create_resumption(feedback@)),
                ..old(self)@
            }),
            final(self).state() == old(self).state(),
    {
        self.stage = Stage::Running;
        self.resumption = Some(feedback.resumption());
        Ok(())
    }

    /// Settles a message-call request once the host has attempted it, as
    /// [`Self::intercept_create`] does for a creation. The interrupt is
    /// outstanding until [`Self::call_feedback`].
    pub fn intercept_call(
        &mut self,
        attempted: Captured<(ExitReason, Vec<u8>), ()>,
        code_address: H160,
        transfer: Option<Transfer>,
        input: Vec<u8>,
        target_gas: Option<u64>,
        is_static: bool,
        context: Context,
    ) -> (captured: Captured<(ExitReason, Vec<u8>), CpsCallInterrupt>)
        requires
            old(self)@.phase.accepts_request(),
        ensures
            match attempted {
                Captured::Exit(outcome) => captured == Captured::<
                    (ExitReason, Vec<u8>),
                    CpsCallInterrupt,
                >::Exit(outcome),
                Captured::Trap(_) => captured matches Captured::Trap(interrupt) && interrupt@ == (
                CallRequest {
                    code_address,
                    transfer,
                    input: input@,
                    target_gas,
                    is_static,
                    context,
                }),
            },
            final(self)@ == old(self)@.after_request(
                InterruptRequest::Call(
                    CallRequest {
                        code_address,
                        transfer,
                        input: input@,
                        target_gas,
                        is_static,
                        context,
                    },
                ),
                attempted is Trap,
            ),
            final(self)@.phase == CpsPhase::after_request(InterruptKind::Call, attempted is Trap),
            final(self).state() == old(self).state(),
    {
        match attempted {
            Captured::Exit(outcome) => Captured::Exit(outcome),
            Captured::Trap(_) => {
                let kept = CpsCallInterrupt {
                    code_address,
                    transfer: transfer_copy(&transfer),
                    input: bytes_copy(&input),
                    target_gas,
                    is_static,
                    context: context_copy(&context),
                };
                self.stage = Stage::Suspended(CpsInterrupt::Call(kept));
                Captured::Trap(
                    CpsCallInterrupt {
                        code_address,
                        transfer,
                        input,
                        target_gas,
                        is_static,
                        context,
                    },
                )
            },
        }
    }

    /// Asks for a message call. The host attempts it with the values given
    /// here, and the attempt is settled by [`Self::intercept_call`]: the
    /// result is the outcome that the host reached, as it is, or an
    /// interrupt made of these values where the host suspends. An interrupt
    /// is also kept by the layer as the outstanding one. The host must be
    /// able to afford the call; [`Self::try_call`] finds that out by
    /// itself.
    pub fn call(
        &mut self,
        code_address: H160,
        transfer: Option<Transfer>,
        input: Vec<u8>,
        target_gas: Option<u64>,
        is_static: bool,
        context: Context,
    ) -> (captured: Captured<(ExitReason, Vec<u8>), CpsCallInterrupt>)
        requires
            old(self)@.meters_soundly(),
            old(self)@.phase.accepts_request(),
            affords_call(old(self)@.host, transfer),
        ensures
            captured matches Captured::Trap(interrupt) ==> interrupt@ == (CallRequest {
                code_address,
                transfer,
                input: input@,
                target_gas,
                is_static,
                context,
            }),
            final(self)@ == (CpsExecutorView {
                host: final(self)@.host,
                ..old(self)@.after_request(
                    InterruptRequest::Call(
                        CallRequest {
                            code_address,
                            transfer,
                            input: input@,
                            target_gas,
                            is_static,
                            context,
                        },
                    ),
                    captured is Trap,
                )
            }),
            final(self)@.phase == CpsPhase::after_request(InterruptKind::Call, captured is Trap),
            keeps_warm(old(self)@.host, final(self)@.host),
    {
        let attempted = host_call(
            &mut self.stack_executor,
            code_address,
            &transfer,
            &input,
            target_gas,
            is_static,
            &context,
        );
        self.intercept_call(attempted, code_address, transfer, input, target_gas, is_static, context)
    }

    /// Whether the host can afford a call with this transfer.
    pub fn affords_call(&self, transfer: &Option<Transfer>) -> (afforded: bool)
        ensures
            afforded == affords_call(self@.host, *transfer),
    {
        match transfer {
            None => true,
            Some(transfer) => {
                if transfer_moves_nothing(transfer) {
                    true
                } else {
                    let stipend = host_call_stipend(&self.stack_executor);
                    match host_used_gas(&self.stack_executor) {
                        Some(used) => used >= stipend,
                        None => true,
                    }
                }
            },
        }
    }

    /// Asks for a message call as [`Self::call`] does, where a request is
    /// accepted and the host can afford the call. Otherwise nothing is done
    /// and there is no result: so while an interrupt is outstanding, no
    /// second one is made. The layer must have been built on what the host
    /// can run on, as every layer that a constructor of this type made has
    /// been.
    pub fn try_call(
        &mut self,
        code_address: H160,
        transfer: Option<Transfer>,
        input: Vec<u8>,
        target_gas: Option<u64>,
        is_static: bool,
        context: Context,
    ) -> (attempt: Option<Captured<(ExitReason, Vec<u8>), CpsCallInterrupt>>)
        requires
            old(self)@.meters_soundly(),
        ensures
            attempt is Some <==> old(self)@.phase.accepts_request() && affords_call(
                old(self)@.host,
                transfer,
            ),
            attempt is None ==> final(self)@ == old(self)@ && final(self).state() == old(
                self,
            ).state(),
            attempt matches Some(captured) ==> {
                &&& captured matches Captured::Trap(interrupt) ==> interrupt@ == (CallRequest {
                    code_address,
                    transfer,
                    input: input@,
                    target_gas,
                    is_static,
                    context,
                })
                &&& final(self)@ == (CpsExecutorView {
                    host: final(self)@.host,
                    ..old(self)@.after_request(
                        InterruptRequest::Call(
                            CallRequest {
                                code_address,
                                transfer,
                                input: input@,
                                target_gas,
                                is_static,
                                context,
                            },
                        ),
                        captured is Trap,
                    )
                })
                &&& final(self)@.phase == CpsPhase::after_request(
                    InterruptKind::Call,
                    captured is Trap,
                )
                &&& keeps_warm(old(self)@.host, final(self)@.host)
            },
    {
        if self.phase() == CpsPhase::Running && self.affords_call(&transfer) {
            Some(self.call(code_address, transfer, input, target_gas, is_static, context))
        } else {
            None
        }
    }

    /// Takes the driver's feedback for the outstanding message call. The
    /// interrupt is resolved, the computation runs on, and the layer holds
    /// what the engine is to be handed for this outcome until
    /// [`Self::take_resumption`]. The host is not touched.
    pub fn call_feedback(&mut self, feedback: CpsCallFeedback) -> (fed: Result<(), ExitError>)
        requires
            old(self)@.phase == CpsPhase::Suspended(InterruptKind::Call),
        ensures
            fed is Ok,
            final(self)@ == (CpsExecutorView {
                phase: CpsPhase::Running,
                outstanding: None,
                resumption: Some(call_resumption(feedback@)),
                ..old(self)@
            }),
            final(self).state() == old(self).state(),
    {
        self.stage = Stage::Running;
        self.resumption = Some(feedback.resumption());
        Ok(())
    }

    /// Lets the host check an opcode before it runs. The result is the
    /// host's verdict, as it is. Whatever the verdict, the check writes to
    /// the gas meter and the accessed sets only: every answer that is not
    /// read from them is as before, the log is as before, and what was warm
    /// stays warm.
    pub fn pre_validate(&mut self, context: &Context, opcode: Opcode, stack: &Stack) -> (checked:
        Result<(), ExitError>)
        requires
            old(self)@.meters_soundly(),
        ensures
            checked == old(self).pre_validation(*context, opcode, *stack),
            final(self)@ == (CpsExecutorView { host: final(self)@.host, ..old(self)@ }),
            final(self).logs() == old(self).logs(),
            keeps_warm(old(self)@.host, final(self)@.host),
            differs_in_meters_only(old(self)@.host, final(self)@.host),
    {
        host_pre_validate(&mut self.stack_executor, context, opcode, stack)
    }
}

/// A copy of a byte string.
fn bytes_copy(bytes: &Vec<u8>) -> (copy: Vec<u8>)
    ensures
        copy@ == bytes@,
{
    let mut copy = Vec::new();
    let mut i: usize = 0;
    while i < bytes.len()
        invariant
            i <= bytes.len(),
            copy@ == bytes@.subrange(0, i as int),
        decreases bytes.len() - i,
    {
        copy.push(bytes[i]);
        assert(bytes@.subrange(0, i + 1) =~= bytes@.subrange(0, i as int).push(bytes@[i as int]));
        i += 1;
    }
    assert(bytes@.subrange(0, bytes.len() as int) =~= bytes@);
    copy
}

/// A request that the host settles on the spot leaves no interrupt behind,
/// and a computation without an outstanding interrupt can only be advanced
/// to a normal exit, which ends it.
pub proof fn lemma_settled_request_ends_in_normal_exit(
    kind: InterruptKind,
    advanced: Captured<ExitReason, ()>,
)
    requires
        CpsPhase::after_request(kind, false).admits(advanced),
    ensures
        CpsPhase::after_request(kind, false).outstanding() is None,
        CpsReason::of(advanced) is NormalExit,
        CpsPhase::after_request(kind, false).after_advance(advanced) == CpsPhase::Terminated,
{
}

/// At most one interrupt is outstanding. A phase that accepts a request has
/// none; a request that is suspended leaves exactly its own interrupt
/// outstanding, and no further request is accepted while it is. While it is
/// outstanding the engine can report a suspension and nothing else, and that
/// report changes nothing.
pub proof fn lemma_one_interrupt_at_a_time(
    phase: CpsPhase,
    kind: InterruptKind,
    advanced: Captured<ExitReason, ()>,
)
    ensures
        phase.accepts_request() ==> phase.outstanding() is None,
        CpsPhase::after_request(kind, true).outstanding() == Some(kind),
        !CpsPhase::after_request(kind, true).accepts_request(),
        CpsPhase::after_request(kind, true).admits(advanced) ==> advanced is Trap
            && CpsPhase::after_request(kind, true).after_advance(advanced)
            == CpsPhase::after_request(kind, true),
{
}

/// Warmth is never lost along a run of host operations: where each of two
/// successive operations keeps warm what was warm, so does the pair, and an
/// operation that only writes a storage slot keeps warm what was warm.
pub proof fn lemma_warm_stays_warm(
    first: Map<HostQuery, HostAnswer>,
    second: Map<HostQuery, HostAnswer>,
    third: Map<HostQuery, HostAnswer>,
    address: H160,
    index: H256,
    value: H256,
)
    requires
        keeps_warm(first, second),
        keeps_warm(second, third),
    ensures
        keeps_warm(first, first),
        keeps_warm(first, third),
        keeps_warm(
            first,
            first.insert(HostQuery::Storage(address, index), HostAnswer::Hash(value)),
        ),
{
}

/// Reading is repeatable: two answers that one state of the host gives to
/// the same query are equal.
pub proof fn lemma_answers_repeat(
    host: Map<HostQuery, HostAnswer>,
    query: HostQuery,
    first: HostAnswer,
    second: HostAnswer,
)
    requires
        host.contains_pair(query, first),
        host.contains_pair(query, second),
    ensures
        first == second,
{
}

} // verus!
