//! The `XAsync` call protocol: the per-call state the runtime parks behind an `XAsyncBlock`,
//! and the decisions that drive a provider through
//!
//! ```text
//! Begin -> (DoWork)* -> XAsyncComplete -> completion callback -> GetResult -> Cleanup
//! ```
//!
//! Games allocate `XAsyncBlock` themselves and give the runtime the 32 opaque bytes of
//! `XAsyncBlock::internal`; the layout here is a signature word, then the address of the
//! call's state. The signature is what lets a stale or never-started block be rejected instead
//! of dereferenced.
use vstd::prelude::*;
use vstd::bytes::*;
use crate::hresult::{
    E_ABORT, E_ILLEGAL_METHOD_CALL, E_INVALIDARG, E_NOT_SUFFICIENT_BUFFER, E_PENDING, E_POINTER,
    S_OK,
};
use crate::task_queue::{
    DispatchMode, PortHandle, PortKind, ProcessQueueSlot, QueueHandle, default_process_queue,
    dispatch_mode_of, port_kind_of, set_process_queue,
};
use crate::handle_table::handle_lookup;
use crate::text::{chars_of, contains_chars, matches_at};

verus! {

/// The provider operations of `XAsyncOp`.
#[derive(Clone, Copy, Debug, PartialEq, Eq, Structural)]
pub enum XAsyncOp {
    Begin,
    DoWork,
    GetResult,
    Cancel,
    Cleanup,
}

/// The raw ABI value of an operation.
pub open spec fn xasync_op_raw(op: XAsyncOp) -> u32 {
    match op {
        XAsyncOp::Begin => 0,
        XAsyncOp::DoWork => 1,
        XAsyncOp::GetResult => 2,
        XAsyncOp::Cancel => 3,
        XAsyncOp::Cleanup => 4,
    }
}

impl XAsyncOp {
    /// The raw ABI value of this operation.
    pub fn as_raw(self) -> (raw: u32)
        ensures
            raw == xasync_op_raw(self),
    {
        match self {
            XAsyncOp::Begin => 0,
            XAsyncOp::DoWork => 1,
            XAsyncOp::GetResult => 2,
            XAsyncOp::Cancel => 3,
            XAsyncOp::Cleanup => 4,
        }
    }

    /// The operation a raw ABI value names, if any.
    pub fn from_raw(raw: u32) -> (op: Option<Self>)
        ensures
            op is Some <==> raw <= 4,
            op is Some ==> xasync_op_raw(op->0) == raw,
    {
        if raw == 0 {
            Some(XAsyncOp::Begin)
        } else if raw == 1 {
            Some(XAsyncOp::DoWork)
        } else if raw == 2 {
            Some(XAsyncOp::GetResult)
        } else if raw == 3 {
            Some(XAsyncOp::Cancel)
        } else if raw == 4 {
            Some(XAsyncOp::Cleanup)
        } else {
            None
        }
    }
}

/// The word at the start of `XAsyncBlock::internal` while a call is alive ("XASYNC_1").
pub const SIGNATURE: u64 = 0x584153594e435f31;

/// The bytes a live block's `internal` holds: the signature, the state's address, then zeros.
/// Words are little-endian, the byte order of every target this runtime is built for.
pub open spec fn internal_bytes(state: u64) -> Seq<u8> {
    spec_u64_to_le_bytes(SIGNATURE) + spec_u64_to_le_bytes(state) + Seq::new(16, |i: int| 0u8)
}

/// The signature word and state address stored in `internal`.
pub open spec fn internal_words(internal: Seq<u8>) -> (u64, u64) {
    (
        spec_u64_from_le_bytes(internal.subrange(0, 8)),
        spec_u64_from_le_bytes(internal.subrange(8, 16)),
    )
}

/// The state a block refers to: only a block carrying the signature and a nonzero address
/// refers to any.
pub open spec fn live_state_of(internal: Seq<u8>) -> Option<u64> {
    let (signature, state) = internal_words(internal);
    if signature == SIGNATURE && state != 0 {
        Some(state)
    } else {
        None
    }
}

/// Reads the signature word and the state address out of a block's `internal` bytes.
pub fn read_internal(internal: &[u8; 32]) -> (words: (u64, u64))
    ensures
        words == internal_words(internal@),
{
    let bytes = internal.as_slice();
    let mut signature: Vec<u8> = Vec::new();
    let mut state: Vec<u8> = Vec::new();
    let mut i: usize = 0;
    while i < 8
        invariant
            bytes@ == internal@,
            internal@.len() == 32,
            0 <= i <= 8,
            signature@ == internal@.subrange(0, i as int),
            state@ == internal@.subrange(8, 8 + i as int),
        decreases 8 - i,
    {
        signature.push(bytes[i]);
        state.push(bytes[8 + i]);
        i = i + 1;
        proof {
            assert(signature@ =~= internal@.subrange(0, i as int));
            assert(state@ =~= internal@.subrange(8, 8 + i as int));
        }
    }
    (u64_from_le_bytes(signature.as_slice()), u64_from_le_bytes(state.as_slice()))
}

/// The state a block refers to, if it is live.
pub fn live_state(internal: &[u8; 32]) -> (state: Option<u64>)
    ensures
        state == live_state_of(internal@),
{
    let (signature, state) = read_internal(internal);
    if signature == SIGNATURE && state != 0 {
        Some(state)
    } else {
        None
    }
}

/// Marks a block as driving the call whose state lives at `state`.
pub fn write_internal(internal: &mut [u8; 32], state: u64)
    ensures
        final(internal)@ == internal_bytes(state),
{
    let signature = u64_to_le_bytes(SIGNATURE);
    let address = u64_to_le_bytes(state);
    let mut i: usize = 0;
    while i < 32
        invariant
            0 <= i <= 32,
            signature@ == spec_u64_to_le_bytes(SIGNATURE),
            address@ == spec_u64_to_le_bytes(state),
            signature@.len() == 8,
            address@.len() == 8,
            internal@.len() == 32,
            forall|j: int| 0 <= j < i ==> internal@[j] == #[trigger] internal_bytes(state)[j],
        decreases 32 - i,
    {
        let byte = if i < 8 {
            signature[i]
        } else if i < 16 {
            address[i - 8]
        } else {
            0u8
        };
        internal[i] = byte;
        i = i + 1;
    }
    proof {
        assert(internal@ =~= internal_bytes(state));
    }
}

/// Detaches a block from its call: zeroes every byte, so it no longer refers to any state.
pub fn clear_internal(internal: &mut [u8; 32])
    ensures
        final(internal)@ == Seq::new(32, |i: int| 0u8),
        live_state_of(final(internal)@) is None,
{
    let mut i: usize = 0;
    while i < 32
        invariant
            0 <= i <= 32,
            internal@.len() == 32,
            forall|j: int| 0 <= j < i ==> internal@[j] == 0u8,
        decreases 32 - i,
    {
        internal[i] = 0u8;
        i = i + 1;
    }
    proof {
        assert(internal@ =~= Seq::new(32, |i: int| 0u8));
        lemma_taken_block_is_reusable(0x1);
    }
}

/// A block is reusable once its result has been taken: while it drives a call it refers to
/// that call's state (so `XAsyncBegin` refuses it as in use), and once taking the result has
/// cleared it, it refers to no state at all (so a new `XAsyncBegin` accepts it and a repeated
/// `XAsyncGetResult` finds no call).
pub proof fn lemma_taken_block_is_reusable(state: u64)
    requires
        state != 0,
    ensures
        live_state_of(internal_bytes(state)) == Some(state),
        live_state_of(Seq::new(32, |i: int| 0u8)) is None,
{
    lemma_written_block_refers_to_its_state(state);
    let cleared = Seq::new(32, |i: int| 0u8);
    lemma_auto_spec_u64_to_from_le_bytes();
    spec_u64_to_le_bytes_to_open(0);
    let zero: u64 = 0;
    assert(zero & 0xff == 0 && (zero >> 8) & 0xff == 0 && (zero >> 16) & 0xff == 0 && (zero >> 24)
        & 0xff == 0 && (zero >> 32) & 0xff == 0 && (zero >> 40) & 0xff == 0 && (zero >> 48) & 0xff
        == 0 && (zero >> 56) & 0xff == 0) by (bit_vector)
        requires
            zero == 0,
    ;
    assert(cleared.subrange(0, 8) =~= spec_u64_to_le_bytes(0));
}

/// A block written for a nonzero state address refers to exactly that state.
pub proof fn lemma_written_block_refers_to_its_state(state: u64)
    requires
        state != 0,
    ensures
        live_state_of(internal_bytes(state)) == Some(state),
{
    lemma_auto_spec_u64_to_from_le_bytes();
    let bytes = internal_bytes(state);
    assert(bytes.subrange(0, 8) =~= spec_u64_to_le_bytes(SIGNATURE));
    assert(bytes.subrange(8, 16) =~= spec_u64_to_le_bytes(state));
}

/// The status and bookkeeping of one call.
pub struct AsyncCall {
    /// `E_PENDING` until the call completes.
    pub status: i32,
    /// The result buffer size the completion asked for.
    pub result_size: usize,
    /// Whether cancellation has been requested.
    pub canceled: bool,
    /// Set once the provider has been sent `Cleanup`, so it happens exactly once.
    pub cleaned_up: bool,
}

/// What `XAsyncGetResult` does with a call in a given state.
pub enum ResultPlan {
    /// Not complete yet: report `E_PENDING` and leave the call alone.
    Pending,
    /// The call failed: clean it up and report its status.
    Failed(i32),
    /// The caller named a different API than the one that started the call: refuse with
    /// `E_INVALIDARG` and leave the call alone.
    IdentityMismatch,
    /// The caller's buffer cannot hold the result: refuse with `E_NOT_SUFFICIENT_BUFFER` and
    /// leave the call alone, so a right-sized read still works.
    BufferTooSmall,
    /// Ask the provider for the result, report this many bytes used, then clean up.
    Deliver(usize),
}

/// The status `XAsyncGetResult` returns for a plan, where the plan alone decides it.
pub open spec fn result_plan_status(plan: ResultPlan) -> Option<i32> {
    match plan {
        ResultPlan::Pending => Some(E_PENDING),
        ResultPlan::Failed(status) => Some(status),
        ResultPlan::IdentityMismatch => Some(E_INVALIDARG),
        ResultPlan::BufferTooSmall => Some(E_NOT_SUFFICIENT_BUFFER),
        ResultPlan::Deliver(_) => None,
    }
}

/// What `XAsyncGetResult` decides for a call: pending, failed, wrong identity, too small a
/// buffer, or delivery, checked in that order. A null `identity` (0) matches any call.
pub open spec fn result_plan_for(
    status: i32,
    result_size: usize,
    identity: usize,
    state_identity: usize,
    buffer_size: u64,
) -> ResultPlan {
    if status == E_PENDING {
        ResultPlan::Pending
    } else if status != S_OK {
        ResultPlan::Failed(status)
    } else if identity != 0 && identity != state_identity {
        ResultPlan::IdentityMismatch
    } else if (buffer_size as int) < result_size {
        ResultPlan::BufferTooSmall
    } else {
        ResultPlan::Deliver(result_size)
    }
}

/// The status `XAsyncGetResult` returns for a plan that decides it alone.
pub fn plan_status(plan: &ResultPlan) -> (status: Option<i32>)
    ensures
        status == result_plan_status(*plan),
{
    match plan {
        ResultPlan::Pending => Some(E_PENDING),
        ResultPlan::Failed(status) => Some(*status),
        ResultPlan::IdentityMismatch => Some(E_INVALIDARG),
        ResultPlan::BufferTooSmall => Some(E_NOT_SUFFICIENT_BUFFER),
        ResultPlan::Deliver(_) => None,
    }
}

impl AsyncCall {
    /// A call that has just begun: pending, nothing requested, nothing cleaned up.
    pub fn new() -> (call: Self)
        ensures
            call == (AsyncCall { status: E_PENDING, result_size: 0, canceled: false, cleaned_up: false }),
    {
        AsyncCall { status: E_PENDING, result_size: 0, canceled: false, cleaned_up: false }
    }

    /// Whether the call is still pending.
    pub fn is_pending(&self) -> (pending: bool)
        ensures
            pending == (self.status == E_PENDING),
    {
        self.status == E_PENDING
    }

    /// `XAsyncComplete`: the first completion wins. Returns whether this one did; a call that
    /// is already complete is left as it was, which is the normal path for providers that both
    /// complete and return a status from `DoWork`.
    pub fn complete(&mut self, result: i32, required_buffer_size: usize) -> (completed: bool)
        ensures
            completed == (old(self).status == E_PENDING),
            *final(self) == completed_with(*old(self), result, required_buffer_size),
    {
        if self.status != E_PENDING {
            return false;
        }
        self.status = result;
        self.result_size = required_buffer_size;
        true
    }

    /// A provider's `Begin` failed with `hr`: the call never started, and that is its status.
    pub fn begin_failed(&mut self, hr: i32)
        ensures
            *final(self) == (AsyncCall { status: hr, ..*old(self) }),
    {
        self.status = hr;
    }

    /// Claims the one `Cleanup` a call gets. Returns whether the caller should send it now;
    /// every later claim is refused.
    pub fn claim_cleanup(&mut self) -> (claimed: bool)
        ensures
            claimed == !old(self).cleaned_up,
            *final(self) == (AsyncCall { cleaned_up: true, ..*old(self) }),
    {
        if self.cleaned_up {
            return false;
        }
        self.cleaned_up = true;
        true
    }

    /// `XAsyncCancel`: records a cancellation request for a call that is still pending and not
    /// already canceled. Returns whether the provider should be sent `Cancel`.
    pub fn request_cancel(&mut self) -> (requested: bool)
        ensures
            requested == (old(self).status == E_PENDING && !old(self).canceled),
            requested ==> *final(self) == (AsyncCall { canceled: true, ..*old(self) }),
            !requested ==> *final(self) == *old(self),
    {
        if self.status != E_PENDING || self.canceled {
            return false;
        }
        self.canceled = true;
        true
    }

    /// Whether `XAsyncGetStatus` has to block until completion: only when asked to wait on a
    /// pending call from outside a dispatch callback. Inside one, blocking would deadlock the
    /// pump thread, so the caller gets `E_PENDING` and polls instead.
    pub fn must_wait(&self, wait: bool, in_dispatch: bool) -> (block: bool)
        ensures
            block == (wait && self.status == E_PENDING && !in_dispatch),
    {
        wait && self.status == E_PENDING && !in_dispatch
    }

    /// What `XAsyncGetStatus` reports, and whether the call is finished now: a completed call
    /// with no result payload has no `XAsyncGetResult` coming to release it.
    pub fn status_report(&self) -> (report: (i32, bool))
        ensures
            report == (self.status, self.status != E_PENDING && self.result_size == 0),
    {
        (self.status, self.status != E_PENDING && self.result_size == 0)
    }

    /// What `XAsyncGetResultSize` reports: `E_PENDING` with no size while pending, otherwise
    /// the call's status and the size its completion asked for.
    pub fn result_size_report(&self) -> (report: (i32, Option<usize>))
        ensures
            self.status == E_PENDING ==> report == (E_PENDING, None::<usize>),
            self.status != E_PENDING ==> report == (self.status, Some(self.result_size)),
    {
        if self.status == E_PENDING {
            (E_PENDING, None)
        } else {
            (self.status, Some(self.result_size))
        }
    }

    /// What `XAsyncGetResult` does for a caller naming `identity` (0 for none) with a buffer of
    /// `buffer_size` bytes, for a call started under `state_identity`.
    pub fn result_plan(&self, identity: usize, state_identity: usize, buffer_size: u64) -> (plan:
        ResultPlan)
        ensures
            plan == result_plan_for(
                self.status,
                self.result_size,
                identity,
                state_identity,
                buffer_size,
            ),
    {
        if self.status == E_PENDING {
            ResultPlan::Pending
        } else if self.status != S_OK {
            ResultPlan::Failed(self.status)
        } else if identity != 0 && identity != state_identity {
            ResultPlan::IdentityMismatch
        } else if (buffer_size as u128) < (self.result_size as u128) {
            ResultPlan::BufferTooSmall
        } else {
            ResultPlan::Deliver(self.result_size)
        }
    }
}

/// A call after `XAsyncComplete(result, size)`: a pending call takes the result and size,
/// a completed one is left as it is.
pub open spec fn completed_with(call: AsyncCall, result: i32, size: usize) -> AsyncCall {
    if call.status == E_PENDING {
        AsyncCall { status: result, result_size: size, ..call }
    } else {
        call
    }
}

/// The first completion of a call is the one that counts: a second completion changes
/// nothing, whatever it reports, and the result read afterwards is the first one's.
pub proof fn lemma_first_completion_wins(
    start: AsyncCall,
    first: i32,
    first_size: usize,
    second: i32,
    second_size: usize,
)
    requires
        first != E_PENDING,
    ensures
        completed_with(completed_with(start, first, first_size), second, second_size)
            == completed_with(start, first, first_size),
        start.status == E_PENDING ==> result_plan_for(
            completed_with(completed_with(start, first, first_size), second, second_size).status,
            completed_with(completed_with(start, first, first_size), second, second_size).result_size,
            0,
            0,
            u64::MAX,
        ) == if first == S_OK {
            ResultPlan::Deliver(first_size)
        } else {
            ResultPlan::Failed(first)
        },
{
}

/// A result is only ever delivered for a call that completed with `S_OK`, into a buffer at
/// least as large as the completion asked for.
pub proof fn lemma_delivery_only_on_success(
    status: i32,
    result_size: usize,
    identity: usize,
    state_identity: usize,
    buffer_size: u64,
)
    requires
        result_plan_for(status, result_size, identity, state_identity, buffer_size) is Deliver,
    ensures
        status == S_OK,
        buffer_size >= result_size,
        identity == 0 || identity == state_identity,
{
}

/// How a completed call reaches the game's completion callback.
#[derive(Clone, Copy, Debug, PartialEq, Eq, Structural)]
pub enum CompletionDelivery {
    /// The block names no callback: the caller polls `XAsyncGetStatus`.
    Polled,
    /// Delivered on the queue's completion port.
    Queued,
    /// The completion port refused it (terminated); deliver it right here, marked canceled,
    /// rather than dropping it on the floor.
    Inline,
}

/// How a completion is delivered, given whether the block names a callback and, if so,
/// whether the completion port accepted it.
pub fn completion_delivery(has_callback: bool, submitted: bool) -> (delivery: CompletionDelivery)
    ensures
        !has_callback ==> delivery == CompletionDelivery::Polled,
        has_callback && submitted ==> delivery == CompletionDelivery::Queued,
        has_callback && !submitted ==> delivery == CompletionDelivery::Inline,
{
    if !has_callback {
        CompletionDelivery::Polled
    } else if submitted {
        CompletionDelivery::Queued
    } else {
        CompletionDelivery::Inline
    }
}

/// What one `DoWork` pass on the work port leads to. A pass for a terminated queue
/// completes the call with `E_ABORT`; otherwise a provider answering `E_PENDING` will
/// schedule itself again, and any other answer completes the call with it (a no-op for a
/// well-behaved provider that already completed).
pub fn after_work_pass(canceled: bool, provider_hr: i32) -> (completion: Option<i32>)
    ensures
        canceled ==> completion == Some(E_ABORT),
        !canceled && provider_hr == E_PENDING ==> completion is None,
        !canceled && provider_hr != E_PENDING ==> completion == Some(provider_hr),
{
    if canceled {
        Some(E_ABORT)
    } else if provider_hr == E_PENDING {
        None
    } else {
        Some(provider_hr)
    }
}

/// Why `XAsyncBegin` refuses to start a call, if it does: a null block or provider is
/// `E_POINTER`, a block still driving another call or naming an unknown queue is
/// `E_INVALIDARG`.
pub fn begin_refusal(
    block_is_null: bool,
    provider_is_null: bool,
    block_in_use: bool,
    queue_found: bool,
) -> (refusal: Option<i32>)
    ensures
        block_is_null ==> refusal == Some(E_POINTER),
        !block_is_null && provider_is_null ==> refusal == Some(E_POINTER),
        !block_is_null && !provider_is_null && block_in_use ==> refusal == Some(E_INVALIDARG),
        !block_is_null && !provider_is_null && !block_in_use && !queue_found ==> refusal == Some(
            E_INVALIDARG,
        ),
        !block_is_null && !provider_is_null && !block_in_use && queue_found ==> refusal is None,
{
    if block_is_null || provider_is_null {
        Some(E_POINTER)
    } else if block_in_use || !queue_found {
        Some(E_INVALIDARG)
    } else {
        None
    }
}

/// Which queue a starting call runs on.
#[derive(Clone, Copy, Debug, PartialEq, Eq, Structural)]
pub enum QueueRoute {
    /// The queue the block names.
    AsNamed,
    /// The block names no queue: write the process queue's handle into it, so providers that
    /// read `asyncBlock->queue` directly see a real queue.
    Backfill,
    /// The block names a manual queue nobody pumps: move it to the pumped process queue.
    Reroute,
}

/// Where a starting call runs: a block naming no queue is backfilled with the process
/// queue; one naming a queue whose work port is manual and which is not the process queue is
/// rerouted to the process queue; anything else runs where it says.
pub fn queue_route(block_queue: u64, work_mode: DispatchMode, is_process_queue: bool) -> (route:
    QueueRoute)
    ensures
        block_queue == 0 ==> route == QueueRoute::Backfill,
        block_queue != 0 && work_mode == DispatchMode::Manual && !is_process_queue ==> route
            == QueueRoute::Reroute,
        block_queue != 0 && !(work_mode == DispatchMode::Manual && !is_process_queue) ==> route
            == QueueRoute::AsNamed,
{
    if block_queue == 0 {
        QueueRoute::Backfill
    } else if work_mode == DispatchMode::Manual && !is_process_queue {
        QueueRoute::Reroute
    } else {
        QueueRoute::AsNamed
    }
}

/// The queue a block's call runs on: the process queue (created with `make` if there is none
/// yet) for a block that names no queue, otherwise whatever live handle it names.
pub fn queue_for<Q: Clone, F: FnOnce() -> Q>(
    block_queue: u64,
    slot: &mut ProcessQueueSlot<Q>,
    handles: &QueueHandle<Q>,
    make: F,
) -> (queue: Option<Q>)
    requires
        block_queue == 0 && old(slot).queue is None ==> make.requires(()),
    ensures
        block_queue == 0 ==> queue is Some && final(slot).queue is Some && cloned(
            final(slot).queue->0,
            queue->0,
        ) && (old(slot).queue is Some ==> final(slot).queue == old(slot).queue),
        block_queue == 0 ==> final(slot).handle == old(slot).handle && (old(slot).queue is None
            ==> make.ensures((), final(slot).queue->0)),
        forall|live: Map<u64, Q>| old(slot).tracks(live) ==> #[trigger] final(slot).tracks(live),
        block_queue != 0 ==> *final(slot) == *old(slot) && (queue is Some <==> handle_lookup(
            handles@,
            block_queue,
        ) is Some) && (queue is Some ==> cloned(
            handle_lookup(handles@, block_queue)->0,
            queue->0,
        )),
{
    if block_queue == 0 {
        Some(default_process_queue(slot, make))
    } else {
        handles.get(block_queue)
    }
}

/// The state a `run_sync` call keeps between its provider operations.
pub struct RunSyncCall<T> {
    /// What the call completes with; `E_ABORT` until the work has run.
    pub result: i32,
    /// Whether `Cancel` was received.
    pub canceled: bool,
    /// The work's value, once it succeeded.
    pub payload: Option<T>,
}

/// What the `run_sync` provider does for each operation.
#[derive(Clone, Copy, Debug, PartialEq, Eq, Structural)]
pub enum RunSyncStep {
    /// `Begin`: hand the blocking work to a worker (or run it inline if no worker takes it).
    StartWork,
    /// `DoWork`: nothing, the worker completes the call itself.
    Nothing,
    /// `GetResult`: copy the payload out, if there is one to copy.
    CopyResult,
    /// `Cancel`: remember that cancellation was asked for.
    MarkCanceled,
    /// `Cleanup`: free the call's state.
    Free,
}

/// The `run_sync` provider's step for an operation.
pub fn run_sync_step(op: XAsyncOp) -> (step: RunSyncStep)
    ensures
        op == XAsyncOp::Begin ==> step == RunSyncStep::StartWork,
        op == XAsyncOp::DoWork ==> step == RunSyncStep::Nothing,
        op == XAsyncOp::GetResult ==> step == RunSyncStep::CopyResult,
        op == XAsyncOp::Cancel ==> step == RunSyncStep::MarkCanceled,
        op == XAsyncOp::Cleanup ==> step == RunSyncStep::Free,
{
    match op {
        XAsyncOp::Begin => RunSyncStep::StartWork,
        XAsyncOp::DoWork => RunSyncStep::Nothing,
        XAsyncOp::GetResult => RunSyncStep::CopyResult,
        XAsyncOp::Cancel => RunSyncStep::MarkCanceled,
        XAsyncOp::Cleanup => RunSyncStep::Free,
    }
}

impl<T> RunSyncCall<T> {
    /// A call whose work has not run: it would complete with `E_ABORT`.
    pub fn new() -> (call: Self)
        ensures
            call.result == E_ABORT,
            !call.canceled,
            call.payload is None,
    {
        RunSyncCall { result: E_ABORT, canceled: false, payload: None }
    }

    /// Records what the work produced: its value and `S_OK`, or its error.
    pub fn record(&mut self, outcome: Result<T, i32>)
        ensures
            final(self).canceled == old(self).canceled,
            outcome is Ok ==> final(self).result == S_OK && final(self).payload == Some(
                outcome->Ok_0,
            ),
            outcome is Err ==> final(self).result == outcome->Err_0 && final(self).payload
                == old(self).payload,
    {
        match outcome {
            Ok(value) => {
                self.result = S_OK;
                self.payload = Some(value);
            },
            Err(hr) => {
                self.result = hr;
            },
        }
    }

    /// The worker pool went away before the work ran: the call still completes, with
    /// `E_ABORT`, so the caller does not wait forever.
    pub fn record_abandoned(&mut self)
        ensures
            final(self).result == E_ABORT,
            final(self).canceled == old(self).canceled,
            final(self).payload == old(self).payload,
    {
        self.result = E_ABORT;
    }

    /// `Cancel` received.
    pub fn mark_canceled(&mut self)
        ensures
            final(self).canceled,
            final(self).result == old(self).result,
            final(self).payload == old(self).payload,
    {
        self.canceled = true;
    }

    /// The value `GetResult` copies out: only after the work succeeded.
    pub fn result_to_copy(&self) -> (value: Option<&T>)
        ensures
            self.result == S_OK && self.payload is Some ==> value == Some(&self.payload->0),
            !(self.result == S_OK && self.payload is Some) ==> value is None,
    {
        if self.result == S_OK {
            match &self.payload {
                Some(value) => Some(value),
                None => None,
            }
        } else {
            None
        }
    }
}

/// Whether an async identity name belongs to libHttpClient's own sub-calls (those started
/// inside another API's work, which diagnostics attribute to that parent API): names starting
/// `HC_`, names containing `httpclient`, and `run_async`.
pub open spec fn is_lhc_internal_name(name: Seq<char>) -> bool {
    ||| name.len() >= 3 && name.subrange(0, 3) == seq!['H', 'C', '_']
    ||| exists|i: int|
        0 <= i && i + 10 <= name.len() && #[trigger] name.subrange(i, i + 10) == seq![
            'h',
            't',
            't',
            'p',
            'c',
            'l',
            'i',
            'e',
            'n',
            't',
        ]
    ||| name == seq!['r', 'u', 'n', '_', 'a', 's', 'y', 'n', 'c']
}

/// Whether an async identity name belongs to libHttpClient's own sub-calls.
pub fn is_lhc_internal(name: &str) -> (internal: bool)
    ensures
        internal == is_lhc_internal_name(name@),
{
    let chars = chars_of(name);
    let prefix = ['H', 'C', '_'];
    let infix = ['h', 't', 't', 'p', 'c', 'l', 'i', 'e', 'n', 't'];
    let whole = ['r', 'u', 'n', '_', 'a', 's', 'y', 'n', 'c'];
    proof {
        assert(prefix@ =~= seq!['H', 'C', '_']);
        assert(infix@ =~= seq!['h', 't', 't', 'p', 'c', 'l', 'i', 'e', 'n', 't']);
        assert(whole@ =~= seq!['r', 'u', 'n', '_', 'a', 's', 'y', 'n', 'c']);
    }
    if matches_at(&chars, 0, prefix.as_slice()) {
        return true;
    }
    if contains_chars(&chars, infix.as_slice()) {
        return true;
    }
    if chars.len() == whole.len() && matches_at(&chars, 0, whole.as_slice()) {
        proof {
            assert(chars@ =~= chars@.subrange(0, 9));
        }
        return true;
    }
    proof {
        if name@ == seq!['r', 'u', 'n', '_', 'a', 's', 'y', 'n', 'c'] {
            assert(chars@.subrange(0, 9) =~= chars@);
        }
        assert forall|i: int| 0 <= i && i + 10 <= name@.len() implies #[trigger] name@.subrange(
            i,
            i + 10,
        ) != seq!['h', 't', 't', 'p', 'c', 'l', 'i', 'e', 'n', 't'] by {
            assert(chars@.subrange(i, i + infix@.len()) != infix@);
        }
    }
    false
}

/// `XAsyncSchedule`'s answer: `E_ILLEGAL_METHOD_CALL` for a block with no live call;
/// `S_OK` once the `DoWork` pass is queued; `E_ABORT` when the work port refused it, in which
/// case the call is completed with `E_ABORT` too.
pub fn schedule_answer(has_call: bool, submitted: bool) -> (answer: (i32, Option<i32>))
    ensures
        !has_call ==> answer == (E_ILLEGAL_METHOD_CALL, None::<i32>),
        has_call && submitted ==> answer == (S_OK, None::<i32>),
        has_call && !submitted ==> answer == (E_ABORT, Some(E_ABORT)),
{
    if !has_call {
        (E_ILLEGAL_METHOD_CALL, None)
    } else if submitted {
        (S_OK, None)
    } else {
        (E_ABORT, Some(E_ABORT))
    }
}

/// `XAsyncGetResultSize`: `E_POINTER` without an out-pointer, `E_ILLEGAL_METHOD_CALL` for a
/// block with no live call, then what the call reports.
pub fn result_size_answer(has_out: bool, call: Option<&AsyncCall>) -> (answer: (i32, Option<usize>))
    ensures
        !has_out ==> answer == (E_POINTER, None::<usize>),
        has_out && call is None ==> answer == (E_ILLEGAL_METHOD_CALL, None::<usize>),
        has_out && call is Some ==> answer == if call->0.status == E_PENDING {
            (E_PENDING, None::<usize>)
        } else {
            (call->0.status, Some(call->0.result_size))
        },
{
    if !has_out {
        return (E_POINTER, None);
    }
    match call {
        None => (E_ILLEGAL_METHOD_CALL, None),
        Some(c) => c.result_size_report(),
    }
}

/// `XAsyncRun`: `E_POINTER` without a work routine; otherwise the call begins with the run
/// provider.
pub fn run_check(has_work: bool) -> (refusal: Option<i32>)
    ensures
        refusal == if has_work {
            None::<i32>
        } else {
            Some(E_POINTER)
        },
{
    if has_work {
        None
    } else {
        Some(E_POINTER)
    }
}

/// What `XAsyncRun`'s provider does for each operation.
#[derive(Clone, Copy, Debug, PartialEq, Eq, Structural)]
pub enum RunProviderStep {
    /// `Begin`: queue one `DoWork` pass on the call's work port.
    ScheduleWork,
    /// `DoWork`: run the work routine and answer with what it returns.
    RunWork,
    /// `GetResult`, `Cancel`, `Cleanup`: nothing to do; answer `S_OK`.
    Succeed,
}

/// `XAsyncRun`'s provider step for an operation.
pub fn run_provider_step(op: XAsyncOp) -> (step: RunProviderStep)
    ensures
        op == XAsyncOp::Begin ==> step == RunProviderStep::ScheduleWork,
        op == XAsyncOp::DoWork ==> step == RunProviderStep::RunWork,
        op != XAsyncOp::Begin && op != XAsyncOp::DoWork ==> step == RunProviderStep::Succeed,
{
    match op {
        XAsyncOp::Begin => RunProviderStep::ScheduleWork,
        XAsyncOp::DoWork => RunProviderStep::RunWork,
        _ => RunProviderStep::Succeed,
    }
}

/// What `XAsyncRun`'s provider answers to `Begin`: `E_ILLEGAL_METHOD_CALL` when the block
/// drives no call, `S_OK` once the work pass is queued, `E_ABORT` when the work port refused
/// it (a terminated queue).
pub fn run_begin_answer(has_call: bool, submitted: bool) -> (hr: i32)
    ensures
        !has_call ==> hr == E_ILLEGAL_METHOD_CALL,
        has_call && submitted ==> hr == S_OK,
        has_call && !submitted ==> hr == E_ABORT,
{
    if !has_call {
        E_ILLEGAL_METHOD_CALL
    } else if submitted {
        S_OK
    } else {
        E_ABORT
    }
}

/// How `XAsyncCancel` completes a call that is still pending once the provider has seen
/// `Cancel`. Such a call gets a `DoWork` pass in which the provider completes itself
/// (completing it here could free a context its work still uses); only when the work port
/// refuses that pass is the call completed here, with `E_ABORT`, so the game still hears of
/// it.
pub fn cancel_completion(submitted: bool) -> (completion: Option<i32>)
    ensures
        submitted ==> completion is None,
        !submitted ==> completion == Some(E_ABORT),
{
    if submitted {
        None
    } else {
        Some(E_ABORT)
    }
}

/// `XAsync`'s task-queue half: the live queue handles, the port handles handed out for
/// composite queues, and the process queue.
pub struct XAsyncObject<Q, P> {
    pub queues: QueueHandle<Q>,
    pub ports: PortHandle<P>,
    pub process: ProcessQueueSlot<Q>,
}

impl<Q: Clone, P: Clone> XAsyncObject<Q, P> {
    /// Both handle tables are well formed.
    pub open spec fn wf(&self) -> bool {
        &&& self.queues.wf()
        &&& self.ports.wf()
    }

    /// The cached process-queue handle, if any, is live and nonzero.
    pub open spec fn process_tracked(&self) -> bool {
        self.process.tracks(self.queues@)
    }

    /// No handles and no process queue; the first queue and port handles will be `1`.
    pub fn new() -> (runtime: Self)
        ensures
            runtime.wf(),
            runtime.process_tracked(),
            runtime.queues.next_id() == 1,
            runtime.ports.next_id() == 1,
            runtime.queues@ == Map::<u64, Q>::empty(),
            runtime.ports@ == Map::<u64, P>::empty(),
            runtime.process.queue is None,
            runtime.process.handle is None,
    {
        XAsyncObject { queues: QueueHandle::new(), ports: PortHandle::new(), process: ProcessQueueSlot::new() }
    }

    /// `XTaskQueueCreate`: `E_POINTER` without an out-pointer, `E_INVALIDARG` unless both
    /// dispatch modes are valid; else a handle to a new queue made by `make` with the modes.
    pub fn task_queue_create<F: FnOnce(DispatchMode, DispatchMode) -> Q>(
        &mut self,
        work_mode: u64,
        completion_mode: u64,
        has_out: bool,
        make: F,
    ) -> (handle: Result<u64, i32>)
        requires
            old(self).wf(),
            old(self).queues.next_id() < u64::MAX,
            forall|w: DispatchMode, c: DispatchMode| make.requires((w, c)),
        ensures
            final(self).wf(),
            final(self).ports == old(self).ports,
            final(self).process == old(self).process,
            old(self).process_tracked() ==> final(self).process_tracked(),
            !has_out ==> handle == Err::<u64, i32>(E_POINTER) && final(self).queues == old(self).queues,
            has_out && (dispatch_mode_of(work_mode) is None || dispatch_mode_of(completion_mode) is None)
                ==> handle == Err::<u64, i32>(E_INVALIDARG) && final(self).queues == old(self).queues,
            has_out && dispatch_mode_of(work_mode) is Some && dispatch_mode_of(completion_mode) is Some
                ==> (handle matches Ok(h) && h != 0 && h == old(self).queues.next_id()
                && final(self).queues.next_id() == old(self).queues.next_id() + 1
                && !old(self).queues@.contains_key(h)
                && final(self).queues@.contains_key(h) && make.ensures(
                (dispatch_mode_of(work_mode)->0, dispatch_mode_of(completion_mode)->0),
                final(self).queues@[h],
            ) && final(self).queues@.remove(h) == old(self).queues@),
    {
        if !has_out {
            return Err(E_POINTER);
        }
        let work = DispatchMode::from_raw(work_mode);
        let completion = DispatchMode::from_raw(completion_mode);
        match (work, completion) {
            (Some(work), Some(completion)) => {
                let ghost (w, c) = (work, completion);
                let queue = make(work, completion);
                let handle = self.queues.create(queue);
                proof {
                    assert(self.queues@.remove(handle) =~= old(self).queues@);
                    assert(make.ensures((w, c), self.queues@[handle]));
                }
                Ok(handle)
            },
            _ => Err(E_INVALIDARG),
        }
    }

    /// `XTaskQueueDuplicateHandle`: `E_POINTER` without an out-pointer, `E_INVALIDARG` for a
    /// handle that is not live; else a new handle to the same queue.
    pub fn duplicate_handle(&mut self, queue: u64, has_out: bool) -> (handle: Result<u64, i32>)
        requires
            old(self).wf(),
            old(self).queues.next_id() < u64::MAX,
        ensures
            final(self).wf(),
            final(self).ports == old(self).ports,
            final(self).process == old(self).process,
            old(self).process_tracked() ==> final(self).process_tracked(),
            !has_out ==> handle == Err::<u64, i32>(E_POINTER) && final(self).queues == old(self).queues,
            has_out && handle_lookup(old(self).queues@, queue) is None ==> handle == Err::<u64, i32>(
                E_INVALIDARG,
            ) && final(self).queues == old(self).queues,
            has_out && handle_lookup(old(self).queues@, queue) is Some ==> (handle matches Ok(h) && h
                != queue && h != 0 && h == old(self).queues.next_id() && final(self).queues.next_id()
                == old(self).queues.next_id() + 1 && !old(self).queues@.contains_key(h) && cloned(
                old(self).queues@[queue],
                final(self).queues@[h],
            ) && final(self).queues@.remove(h) == old(self).queues@
                && final(self).queues@.contains_key(h)),
    {
        if !has_out {
            return Err(E_POINTER);
        }
        match self.queues.get(queue) {
            Some(found) => {
                let handle = self.queues.create(found);
                proof {
                    assert(self.queues@.remove(handle) =~= old(self).queues@);
                }
                Ok(handle)
            },
            None => Err(E_INVALIDARG),
        }
    }

    /// `XTaskQueueGetPort`: `E_POINTER` without an out-pointer, `E_INVALIDARG` for a queue
    /// handle that is not live or a port value that names no port; else a new handle to the
    /// port `port_of` finds on the queue.
    pub fn get_port<G: FnOnce(Q, PortKind) -> P>(
        &mut self,
        queue: u64,
        port: u64,
        has_out: bool,
        port_of: G,
    ) -> (handle: Result<u64, i32>)
        requires
            old(self).wf(),
            old(self).ports.next_id() < u64::MAX,
            forall|q: Q, k: PortKind| port_of.requires((q, k)),
        ensures
            final(self).wf(),
            final(self).queues == old(self).queues,
            final(self).process == old(self).process,
            old(self).process_tracked() ==> final(self).process_tracked(),
            !has_out ==> handle == Err::<u64, i32>(E_POINTER) && final(self).ports == old(self).ports,
            has_out && (handle_lookup(old(self).queues@, queue) is None || port_kind_of(port) is None)
                ==> handle == Err::<u64, i32>(E_INVALIDARG) && final(self).ports == old(self).ports,
            has_out && handle_lookup(old(self).queues@, queue) is Some && port_kind_of(port) is Some
                ==> (handle matches Ok(h) && h != 0 && h == old(self).ports.next_id()
                && final(self).ports.next_id() == old(self).ports.next_id() + 1
                && !old(self).ports@.contains_key(h)
                && final(self).ports@.contains_key(h) && final(self).ports@.remove(h) == old(
                self,
            ).ports@ && exists|q: Q|
                cloned(old(self).queues@[queue], q) && #[trigger] port_of.ensures(
                    (q, port_kind_of(port)->0),
                    final(self).ports@[h],
                )),
    {
        if !has_out {
            return Err(E_POINTER);
        }
        let found = self.queues.get(queue);
        let kind = PortKind::from_raw(port);
        match (found, kind) {
            (Some(found), Some(kind)) => {
                let ghost q = found;
                let port = port_of(found, kind);
                let handle = self.ports.create(port);
                proof {
                    assert(self.ports@.remove(handle) =~= old(self).ports@);
                    assert(port_of.ensures((q, kind), self.ports@[handle]));
                }
                Ok(handle)
            },
            _ => Err(E_INVALIDARG),
        }
    }

    /// `XTaskQueueCreateComposite`: `E_POINTER` without an out-pointer, `E_INVALIDARG` unless
    /// both port handles are live; else a handle to the queue `make` builds over the two
    /// ports.
    pub fn create_composite<F: FnOnce(P, P) -> Q>(
        &mut self,
        work_port: u64,
        completion_port: u64,
        has_out: bool,
        make: F,
    ) -> (handle: Result<u64, i32>)
        requires
            old(self).wf(),
            old(self).queues.next_id() < u64::MAX,
            forall|w: P, c: P| make.requires((w, c)),
        ensures
            final(self).wf(),
            final(self).ports == old(self).ports,
            final(self).process == old(self).process,
            old(self).process_tracked() ==> final(self).process_tracked(),
            !has_out ==> handle == Err::<u64, i32>(E_POINTER) && final(self).queues == old(self).queues,
            has_out && (handle_lookup(old(self).ports@, work_port) is None || handle_lookup(
                old(self).ports@,
                completion_port,
            ) is None) ==> handle == Err::<u64, i32>(E_INVALIDARG) && final(self).queues == old(
                self,
            ).queues,
            has_out && handle_lookup(old(self).ports@, work_port) is Some && handle_lookup(
                old(self).ports@,
                completion_port,
            ) is Some ==> (handle matches Ok(h) && h != 0 && h == old(self).queues.next_id()
                && final(self).queues.next_id() == old(self).queues.next_id() + 1
                && !old(self).queues@.contains_key(h)
                && final(self).queues@.contains_key(h) && final(self).queues@.remove(h) == old(
                self,
            ).queues@ && exists|w: P, c: P|
                cloned(old(self).ports@[work_port], w) && cloned(old(self).ports@[completion_port], c)
                    && #[trigger] make.ensures((w, c), final(self).queues@[h])),
    {
        if !has_out {
            return Err(E_POINTER);
        }
        let work = self.ports.get(work_port);
        let completion = self.ports.get(completion_port);
        match (work, completion) {
            (Some(work), Some(completion)) => {
                let ghost (w, c) = (work, completion);
                let queue = make(work, completion);
                let handle = self.queues.create(queue);
                proof {
                    assert(self.queues@.remove(handle) =~= old(self).queues@);
                    assert(make.ensures((w, c), self.queues@[handle]));
                }
                Ok(handle)
            },
            _ => Err(E_INVALIDARG),
        }
    }

    /// `XTaskQueueCloseHandle`.
    pub fn close_handle(&mut self, queue: u64)
        requires
            old(self).wf(),
        ensures
            final(self).wf(),
            final(self).queues@ == old(self).queues@.remove(queue),
            final(self).queues.next_id() == old(self).queues.next_id(),
            final(self).ports == old(self).ports,
            final(self).process == old(self).process,
            old(self).process_tracked() && old(self).process.handle != Some(queue) ==> final(self).process_tracked(),
    {
        self.queues.close(queue);
    }

    /// The queue and port a submission (`XTaskQueueSubmitCallback`,
    /// `XTaskQueueSubmitDelayedCallback`) goes to: `E_POINTER` without a callback,
    /// `E_INVALIDARG` for a queue handle that is not live or a port value that names no port.
    pub fn submit_target(&self, queue: u64, port: u64, has_callback: bool) -> (target: Result<(Q, PortKind), i32>)
        ensures
            !has_callback ==> target == Err::<(Q, PortKind), i32>(E_POINTER),
            has_callback && (handle_lookup(self.queues@, queue) is None || port_kind_of(port) is None)
                ==> target == Err::<(Q, PortKind), i32>(E_INVALIDARG),
            has_callback && handle_lookup(self.queues@, queue) is Some && port_kind_of(port) is Some
                ==> (target matches Ok((q, k)) && k == port_kind_of(port)->0 && cloned(
                self.queues@[queue],
                q,
            )),
    {
        if !has_callback {
            return Err(E_POINTER);
        }
        let found = self.queues.get(queue);
        let kind = PortKind::from_raw(port);
        match (found, kind) {
            (Some(found), Some(kind)) => Ok((found, kind)),
            _ => Err(E_INVALIDARG),
        }
    }

    /// The queue and port `XTaskQueueDispatch` pumps, if the handle is live and the port
    /// value names a port; otherwise the call reports nothing dispatched.
    pub fn dispatch_target(&self, queue: u64, port: u64) -> (target: Option<(Q, PortKind)>)
        ensures
            (handle_lookup(self.queues@, queue) is None || port_kind_of(port) is None) ==> target is None,
            handle_lookup(self.queues@, queue) is Some && port_kind_of(port) is Some ==> (target matches Some(
                (q, k),
            ) && k == port_kind_of(port)->0 && cloned(self.queues@[queue], q)),
    {
        let found = self.queues.get(queue);
        let kind = PortKind::from_raw(port);
        match (found, kind) {
            (Some(found), Some(kind)) => Some((found, kind)),
            _ => None,
        }
    }

    /// The queue and port `XTaskQueueRegisterWaiter` registers on: `E_POINTER` without a
    /// token out-pointer or a callback, `E_INVALIDARG` for a queue handle that is not live or
    /// a port value that names no port.
    pub fn waiter_target(&self, queue: u64, port: u64, has_token: bool, has_callback: bool) -> (target:
        Result<(Q, PortKind), i32>)
        ensures
            (!has_token || !has_callback) ==> target == Err::<(Q, PortKind), i32>(E_POINTER),
            has_token && has_callback && (handle_lookup(self.queues@, queue) is None || port_kind_of(
                port,
            ) is None) ==> target == Err::<(Q, PortKind), i32>(E_INVALIDARG),
            has_token && has_callback && handle_lookup(self.queues@, queue) is Some && port_kind_of(
                port,
            ) is Some ==> (target matches Ok((q, k)) && k == port_kind_of(port)->0 && cloned(
                self.queues@[queue],
                q,
            )),
    {
        if !has_token || !has_callback {
            return Err(E_POINTER);
        }
        self.submit_target(queue, port, true)
    }

    /// The queue `XTaskQueueTerminate` terminates: `E_INVALIDARG` for a handle that is not
    /// live.
    pub fn terminate_target(&self, queue: u64) -> (target: Result<Q, i32>)
        ensures
            handle_lookup(self.queues@, queue) is None ==> target == Err::<Q, i32>(E_INVALIDARG),
            handle_lookup(self.queues@, queue) is Some ==> (target matches Ok(q) && cloned(
                self.queues@[queue],
                q,
            )),
    {
        match self.queues.get(queue) {
            Some(found) => Ok(found),
            None => Err(E_INVALIDARG),
        }
    }

    /// The queue `XTaskQueueRegisterMonitor` registers on: `E_POINTER` without a token
    /// out-pointer or a callback, `E_INVALIDARG` for a handle that is not live.
    pub fn monitor_target(&self, queue: u64, has_token: bool, has_callback: bool) -> (target: Result<
        Q,
        i32,
    >)
        ensures
            (!has_token || !has_callback) ==> target == Err::<Q, i32>(E_POINTER),
            has_token && has_callback && handle_lookup(self.queues@, queue) is None ==> target == Err::<
                Q,
                i32,
            >(E_INVALIDARG),
            has_token && has_callback && handle_lookup(self.queues@, queue) is Some ==> (target matches Ok(
                q,
            ) && cloned(self.queues@[queue], q)),
    {
        if !has_token || !has_callback {
            return Err(E_POINTER);
        }
        self.terminate_target(queue)
    }

    /// `XTaskQueueGetCurrentProcessTaskQueue`: reports whether a process queue is set, and
    /// if so hands out a new handle to it. Nothing is written without an out-pointer, and
    /// `0` is written when there is no process queue.
    pub fn get_current_process_task_queue<F: FnOnce() -> Q>(&mut self, has_out: bool, make: F) -> (answer: (
        bool,
        Option<u64>,
    ))
        requires
            old(self).wf(),
            old(self).queues.next_id() < u64::MAX,
            make.requires(()),
        ensures
            final(self).wf(),
            final(self).ports == old(self).ports,
            final(self).process == old(self).process,
            old(self).process_tracked() ==> final(self).process_tracked(),
            !has_out ==> answer == (false, None::<u64>) && final(self).queues == old(self).queues,
            has_out && old(self).process.queue is None ==> answer == (false, Some(0u64))
                && final(self).queues == old(self).queues,
            has_out && old(self).process.queue is Some ==> (answer matches (true, Some(h)) && h != 0
                && h == old(self).queues.next_id() && final(self).queues.next_id() == old(
                self,
            ).queues.next_id() + 1 && !old(self).queues@.contains_key(h) && final(self).queues@.contains_key(h)
                && cloned(old(self).process.queue->0, final(self).queues@[h])
                && final(self).queues@.remove(h) == old(self).queues@),
    {
        if !has_out {
            return (false, None);
        }
        if self.process.queue.is_none() {
            return (false, Some(0));
        }
        let queue = default_process_queue(&mut self.process, make);
        let handle = self.queues.create(queue);
        proof {
            assert(self.queues@.remove(handle) =~= old(self).queues@);
        }
        (true, Some(handle))
    }

    /// `XTaskQueueSetCurrentProcessTaskQueue`: installs the queue `queue` refers to, or clears
    /// the process queue when the handle is not live.
    pub fn set_current_process_task_queue(&mut self, queue: u64)
        requires
            old(self).wf(),
        ensures
            final(self).wf(),
            final(self).queues == old(self).queues,
            final(self).ports == old(self).ports,
            handle_lookup(old(self).queues@, queue) is None ==> final(self).process.queue is None
                && final(self).process.handle is None,
            handle_lookup(old(self).queues@, queue) is Some ==> final(self).process.queue is Some
                && cloned(old(self).queues@[queue], final(self).process.queue->0)
                && final(self).process.handle == old(self).process.handle,
            old(self).process_tracked() ==> final(self).process_tracked(),
    {
        let resolved = self.queues.get(queue);
        set_process_queue(&mut self.process, resolved);
    }
}

} // verus!
