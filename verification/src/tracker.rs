use vstd::prelude::*;

use crate::addr::Address;
use crate::comp_def::{
    CompDef, CompKind, KIND_COUNT, comp_def_offset, comp_def_offset_of, kind_index,
    kind_index_spec, kind_name, kind_name_spec, kind_of_index,
};

verus! {

/// The failure conditions of the request/callback protocol.
#[derive(Clone, Copy, PartialEq, Eq, Structural, Debug)]
pub enum ErrorCode {
    /// The remote executor reported failure for a queued computation.
    AbortedComputation,
    /// A callback arrived outside the pinned executor/definition binding.
    OriginMismatch,
    /// A queue call reused an offset that is still pending.
    DuplicateOffset,
    /// A queue call referenced a definition that was never initialized.
    DefinitionNotInitialized,
    /// A definition was initialized a second time.
    AlreadyInitialized,
    /// A callback referenced an offset with no queued record.
    NotPending,
    /// A success payload did not match the kind's expected shape.
    MalformedOutput,
}

/// One typed argument supplied at queue time.
#[derive(Clone, Copy, PartialEq, Eq, Structural, Debug)]
pub enum Argument {
    PlaintextU64(u64),
    PlaintextU128(u128),
}

/// The one-shot lifecycle of a pending computation.
#[derive(Clone, Copy, PartialEq, Eq, Structural, Debug)]
pub enum CompStatus {
    Queued,
    Resolved,
    Aborted,
}

/// One in-flight computation request, keyed by its caller-chosen offset.
#[derive(Clone, Debug)]
pub struct PendingComputation {
    pub offset: u64,
    pub kind: CompKind,
    pub comp_def_id: u32,
    pub args: Vec<Argument>,
    pub requester: Address,
    pub status: CompStatus,
}

/// What the caller must hand to the remote executor after a successful
/// queue call: the request data together with the callback route, pinned
/// to the definition's numeric identifier and the protocol's signer.
#[derive(Clone, Debug)]
pub struct SubmitRequest {
    pub offset: u64,
    pub comp_def_id: u32,
    pub args: Vec<Argument>,
    pub callback_signer: Address,
}

/// What the runtime reports about an incoming callback: who invoked it and
/// which computation definition the callback route was built for.
#[derive(Clone, Copy, PartialEq, Eq, Structural, Debug)]
pub struct CallbackContext {
    pub invoker: Address,
    pub comp_def_id: u32,
}

/// The raw result payload a callback carries.
#[derive(Clone, PartialEq, Eq, Debug)]
pub enum Payload {
    /// An opaque encrypted blob reference (storage-initialization kinds).
    Blob(Vec<u8>),
    /// A disclosed boolean predicate (proof kinds).
    Flag(bool),
    /// A disclosed numeric result (plain arithmetic kinds).
    Number(u64),
}

/// The outcome a callback delivers for a queued computation.
#[derive(Clone, PartialEq, Eq, Debug)]
pub enum ComputationOutputs {
    Success(Payload),
    Aborted,
}

/// What a successful resolution is allowed to disclose, per kind.
#[derive(Clone, Copy, PartialEq, Eq, Structural, Debug)]
pub enum Disclosed {
    /// Storage was initialized or updated; nothing beyond completion.
    Completed,
    /// The private value met the public threshold (the predicate only).
    MeetsThreshold(bool),
    /// A plain numeric result.
    Value(u64),
}

/// The payload shape a kind's callback is expected to carry.
#[derive(Clone, Copy, PartialEq, Eq, Structural, Debug)]
pub enum PayloadShape {
    BlobShape,
    FlagShape,
    NumberShape,
}

/// Which payload shape each kind's remote computation returns.
pub open spec fn shape_of(k: CompKind) -> PayloadShape {
    match k {
        CompKind::InitEmissionsCertificate => PayloadShape::BlobShape,
        CompKind::UpdateEmissions => PayloadShape::BlobShape,
        CompKind::ProveThreshold => PayloadShape::FlagShape,
        CompKind::InitSemaReport => PayloadShape::BlobShape,
        CompKind::UpdateSemaReport => PayloadShape::BlobShape,
        CompKind::ProveSemaCompliance => PayloadShape::FlagShape,
        CompKind::CalculateOffsetPct => PayloadShape::NumberShape,
        CompKind::AddTogether => PayloadShape::NumberShape,
    }
}

pub fn kind_shape(k: CompKind) -> (r: PayloadShape)
    ensures
        r == shape_of(k),
{
    match k {
        CompKind::InitEmissionsCertificate => PayloadShape::BlobShape,
        CompKind::UpdateEmissions => PayloadShape::BlobShape,
        CompKind::ProveThreshold => PayloadShape::FlagShape,
        CompKind::InitSemaReport => PayloadShape::BlobShape,
        CompKind::UpdateSemaReport => PayloadShape::BlobShape,
        CompKind::ProveSemaCompliance => PayloadShape::FlagShape,
        CompKind::CalculateOffsetPct => PayloadShape::NumberShape,
        CompKind::AddTogether => PayloadShape::NumberShape,
    }
}

/// Decoding a success payload against a kind's expected shape. Only the
/// derived predicate or completion marker survives; an encrypted blob is
/// never disclosed.
pub open spec fn decode_spec(k: CompKind, p: Payload) -> Option<Disclosed> {
    match p {
        Payload::Blob(_) => if shape_of(k) == PayloadShape::BlobShape {
            Some(Disclosed::Completed)
        } else {
            None
        },
        Payload::Flag(b) => if shape_of(k) == PayloadShape::FlagShape {
            Some(Disclosed::MeetsThreshold(b))
        } else {
            None
        },
        Payload::Number(n) => if shape_of(k) == PayloadShape::NumberShape {
            Some(Disclosed::Value(n))
        } else {
            None
        },
    }
}

pub fn decode_output(k: CompKind, p: Payload) -> (r: Option<Disclosed>)
    ensures
        r == decode_spec(k, p),
{
    let shape = kind_shape(k);
    match p {
        Payload::Blob(_) => if shape == PayloadShape::BlobShape {
            Some(Disclosed::Completed)
        } else {
            None
        },
        Payload::Flag(b) => if shape == PayloadShape::FlagShape {
            Some(Disclosed::MeetsThreshold(b))
        } else {
            None
        },
        Payload::Number(n) => if shape == PayloadShape::NumberShape {
            Some(Disclosed::Value(n))
        } else {
            None
        },
    }
}

/// The same record with its status replaced.
pub open spec fn status_set(rec: PendingComputation, st: CompStatus) -> PendingComputation {
    PendingComputation {
        offset: rec.offset,
        kind: rec.kind,
        comp_def_id: rec.comp_def_id,
        args: rec.args,
        requester: rec.requester,
        status: st,
    }
}

/// The whole protocol state: the pinned executor identity, the derived
/// signer that authorizes the callback route, the definition registry and
/// the pending-computation records.
pub struct MpcState {
    pub executor: Address,
    pub signer: Address,
    pub defs: Vec<CompDef>,
    pub pending: Vec<PendingComputation>,
}

impl MpcState {
    /// Structural invariant: one registry entry per kind, in registry
    /// order, and pairwise-distinct pending offsets.
    pub open spec fn wf(self) -> bool {
        &&& self.defs@.len() == KIND_COUNT
        &&& forall|i: int|
            0 <= i < KIND_COUNT ==> (#[trigger] self.defs@[i]).kind == kind_of_index(i)
        &&& forall|i: int, j: int|
            0 <= i < j < self.pending@.len() ==> (#[trigger] self.pending@[i]).offset != (
            #[trigger] self.pending@[j]).offset
    }

    pub open spec fn has_pending(self, offset: u64) -> bool {
        exists|i: int| 0 <= i < self.pending@.len() && (#[trigger] self.pending@[i]).offset == offset
    }

    pub open spec fn pending_index(self, offset: u64) -> int {
        choose|i: int| 0 <= i < self.pending@.len() && (#[trigger] self.pending@[i]).offset == offset
    }

    pub open spec fn pending_at(self, offset: u64) -> PendingComputation {
        self.pending@[self.pending_index(offset)]
    }

    pub open spec fn def_of(self, kind: CompKind) -> CompDef {
        self.defs@[kind_index_spec(kind)]
    }

    pub open spec fn def_ready(self, kind: CompKind) -> bool {
        self.def_of(kind).initialized
    }

    /// A fresh state: every kind registered under the identifier derived
    /// from its name, nothing initialized, nothing pending.
    pub fn new(executor: Address, signer: Address) -> (s: MpcState)
        ensures
            s.wf(),
            s.executor == executor,
            s.signer == signer,
            s.pending@.len() == 0,
            forall|i: int|
                0 <= i < KIND_COUNT ==> !(#[trigger] s.defs@[i]).initialized,
            forall|i: int|
                0 <= i < KIND_COUNT ==> (#[trigger] s.defs@[i]).comp_def_id == comp_def_offset_of(
                    kind_name_spec(kind_of_index(i))),
    {
        let mut defs: Vec<CompDef> = Vec::new();
        let mut i: usize = 0;
        while i < KIND_COUNT
            invariant
                i <= KIND_COUNT,
                defs@.len() == i,
                forall|j: int| 0 <= j < i ==> (#[trigger] defs@[j]).kind == kind_of_index(j),
                forall|j: int| 0 <= j < i ==> !(#[trigger] defs@[j]).initialized,
                forall|j: int|
                    0 <= j < i ==> (#[trigger] defs@[j]).comp_def_id == comp_def_offset_of(
                        kind_name_spec(kind_of_index(j))),
            decreases KIND_COUNT - i,
        {
            let k = crate::comp_def::kind_at(i);
            let id = comp_def_offset(kind_name(k));
            defs.push(CompDef { kind: k, comp_def_id: id, initialized: false });
            i = i + 1;
        }
        MpcState { executor, signer, defs, pending: Vec::new() }
    }

    /// The outcome that an initialization of `kind` must have on `self`.
    pub open spec fn init_def_result(self, kind: CompKind) -> Result<(), ErrorCode> {
        if self.def_ready(kind) {
            Err(ErrorCode::AlreadyInitialized)
        } else {
            Ok(())
        }
    }

    /// Exactly how one initialization call relates its pre- and post-state.
    pub open spec fn init_def_post(
        pre: MpcState,
        post: MpcState,
        r: Result<(), ErrorCode>,
        kind: CompKind,
    ) -> bool {
        &&& r == pre.init_def_result(kind)
        &&& match r {
            Ok(_) => {
                &&& post.executor == pre.executor
                &&& post.signer == pre.signer
                &&& post.pending == pre.pending
                &&& post.defs@ == pre.defs@.update(
                    kind_index_spec(kind),
                    CompDef {
                        kind: pre.def_of(kind).kind,
                        comp_def_id: pre.def_of(kind).comp_def_id,
                        initialized: true,
                    },
                )
            },
            Err(_) => post == pre,
        }
    }

    /// The position of the record at `offset`, or `None` when no record
    /// carries that offset.
    pub fn find_pending(&self, offset: u64) -> (r: Option<usize>)
        requires
            self.wf(),
        ensures
            match r {
                Some(i) => {
                    &&& self.has_pending(offset)
                    &&& i == self.pending_index(offset)
                    &&& i < self.pending@.len()
                    &&& self.pending@[i as int].offset == offset
                },
                None => !self.has_pending(offset),
            },
    {
        let n = self.pending.len();
        let mut i: usize = 0;
        while i < n
            invariant
                self.wf(),
                n == self.pending@.len(),
                i <= n,
                forall|j: int| 0 <= j < i ==> (#[trigger] self.pending@[j]).offset != offset,
            decreases n - i,
        {
            if self.pending[i].offset == offset {
                proof {
                    let w = self.pending_index(offset);
                    assert(0 <= w < self.pending@.len() && self.pending@[w].offset == offset);
                    if w < i as int {
                        assert(self.pending@[w].offset != self.pending@[i as int].offset);
                    } else if (i as int) < w {
                        assert(self.pending@[i as int].offset != self.pending@[w].offset);
                    }
                    assert(w == i);
                }
                return Some(i);
            }
            i = i + 1;
        }
        None
    }

    /// Initialize a computation definition. Idempotence is an error, not a
    /// mutation: a second initialization fails and changes nothing.
    pub fn init_comp_def(&mut self, kind: CompKind) -> (r: Result<(), ErrorCode>)
        requires
            old(self).wf(),
        ensures
            final(self).wf(),
            MpcState::init_def_post(*old(self), *final(self), r, kind),
    {
        let idx = kind_index(kind);
        if self.defs[idx].initialized {
            Err(ErrorCode::AlreadyInitialized)
        } else {
            let mut d = self.defs[idx];
            d.initialized = true;
            self.defs.set(idx, d);
            Ok(())
        }
    }

    /// The error a queue call must return on `self`, or `None` when it is
    /// owed success: the offset must be fresh and the definition ready.
    pub open spec fn queue_error(self, kind: CompKind, offset: u64) -> Option<ErrorCode> {
        if self.has_pending(offset) {
            Some(ErrorCode::DuplicateOffset)
        } else if !self.def_ready(kind) {
            Some(ErrorCode::DefinitionNotInitialized)
        } else {
            None
        }
    }

    /// Exactly how one queue call relates its pre- and post-state: on
    /// failure nothing changes; on success one new record is appended,
    /// Queued, with the supplied arguments pinned, and the returned submit
    /// request carries the definition's identifier and the protocol signer
    /// as the callback route.
    pub open spec fn queue_post(
        pre: MpcState,
        post: MpcState,
        r: Result<SubmitRequest, ErrorCode>,
        kind: CompKind,
        offset: u64,
        args: Vec<Argument>,
        requester: Address,
    ) -> bool {
        match r {
            Err(e) => {
                &&& pre.queue_error(kind, offset) == Some(e)
                &&& post == pre
            },
            Ok(req) => {
                &&& pre.queue_error(kind, offset) is None
                &&& req.offset == offset
                &&& req.comp_def_id == pre.def_of(kind).comp_def_id
                &&& req.args@ == args@
                &&& req.callback_signer == pre.signer
                &&& post.executor == pre.executor
                &&& post.signer == pre.signer
                &&& post.defs == pre.defs
                &&& post.pending@ == pre.pending@.push(
                    PendingComputation {
                        offset,
                        kind,
                        comp_def_id: pre.def_of(kind).comp_def_id,
                        args,
                        requester,
                        status: CompStatus::Queued,
                    },
                )
            },
        }
    }

    /// Queue a computation: record it under a fresh caller-chosen offset
    /// and hand back what must be submitted to the remote executor. The
    /// arguments are immutable from this point; no event is emitted until
    /// resolution.
    pub fn queue_computation(
        &mut self,
        kind: CompKind,
        offset: u64,
        args: Vec<Argument>,
        requester: Address,
    ) -> (r: Result<SubmitRequest, ErrorCode>)
        requires
            old(self).wf(),
        ensures
            final(self).wf(),
            MpcState::queue_post(*old(self), *final(self), r, kind, offset, args, requester),
    {
        if self.find_pending(offset).is_some() {
            return Err(ErrorCode::DuplicateOffset);
        }
        let idx = kind_index(kind);
        if !self.defs[idx].initialized {
            return Err(ErrorCode::DefinitionNotInitialized);
        }
        let def_id = self.defs[idx].comp_def_id;
        let req_args = copy_args(&args);
        let ghost pre = *self;
        self.pending.push(
            PendingComputation {
                offset,
                kind,
                comp_def_id: def_id,
                args,
                requester,
                status: CompStatus::Queued,
            },
        );
        proof {
            assert forall|i: int, j: int|
                0 <= i < j < self.pending@.len() implies (#[trigger] self.pending@[i]).offset != (
            #[trigger] self.pending@[j]).offset by {
                if j == self.pending@.len() - 1 {
                    assert(!pre.has_pending(offset));
                    assert(pre.pending@[i].offset != offset);
                }
            }
        }
        Ok(SubmitRequest { offset, comp_def_id: def_id, args: req_args, callback_signer: self.signer })
    }

    /// The result a resolve call must return on `self`: a record must be
    /// queued at the offset, the invocation must come from the pinned
    /// executor through the route bound to the record's definition and
    /// kind, and the outcome must decode to the kind's disclosed shape.
    pub open spec fn resolve_result(
        self,
        ctx: CallbackContext,
        offset: u64,
        expected_kind: CompKind,
        outcome: ComputationOutputs,
    ) -> Result<Disclosed, ErrorCode> {
        if !(self.has_pending(offset) && self.pending_at(offset).status == CompStatus::Queued) {
            Err(ErrorCode::NotPending)
        } else if !(ctx.invoker == self.executor && self.pending_at(offset).kind == expected_kind
            && ctx.comp_def_id == self.pending_at(offset).comp_def_id) {
            Err(ErrorCode::OriginMismatch)
        } else {
            match outcome {
                ComputationOutputs::Aborted => Err(ErrorCode::AbortedComputation),
                ComputationOutputs::Success(p) => match decode_spec(
                    self.pending_at(offset).kind,
                    p,
                ) {
                    Some(d) => Ok(d),
                    None => Err(ErrorCode::MalformedOutput),
                },
            }
        }
    }

    /// Exactly how one resolve call relates its pre- and post-state: on
    /// success the record becomes Resolved; on an aborted outcome it
    /// becomes Aborted and the call fails; every other failure leaves the
    /// state untouched.
    pub open spec fn resolve_post(
        pre: MpcState,
        post: MpcState,
        r: Result<Disclosed, ErrorCode>,
        ctx: CallbackContext,
        offset: u64,
        expected_kind: CompKind,
        outcome: ComputationOutputs,
    ) -> bool {
        &&& r == pre.resolve_result(ctx, offset, expected_kind, outcome)
        &&& match r {
            Ok(_) => {
                &&& post.executor == pre.executor
                &&& post.signer == pre.signer
                &&& post.defs == pre.defs
                &&& post.pending@ == pre.pending@.update(
                    pre.pending_index(offset),
                    status_set(pre.pending_at(offset), CompStatus::Resolved),
                )
            },
            Err(e) => if e == ErrorCode::AbortedComputation {
                &&& post.executor == pre.executor
                &&& post.signer == pre.signer
                &&& post.defs == pre.defs
                &&& post.pending@ == pre.pending@.update(
                    pre.pending_index(offset),
                    status_set(pre.pending_at(offset), CompStatus::Aborted),
                )
            } else {
                post == pre
            },
        }
    }

    /// Resolve the record at `offset` with the executor's outcome. This is
    /// the sole path out of Queued, and it runs at most once per record:
    /// afterwards the record is terminal and a second callback fails.
    pub fn resolve_computation(
        &mut self,
        ctx: CallbackContext,
        offset: u64,
        expected_kind: CompKind,
        outcome: ComputationOutputs,
    ) -> (r: Result<Disclosed, ErrorCode>)
        requires
            old(self).wf(),
        ensures
            final(self).wf(),
            MpcState::resolve_post(*old(self), *final(self), r, ctx, offset, expected_kind, outcome),
    {
        let found = self.find_pending(offset);
        let i: usize = match found {
            Some(i) => i,
            None => {
                return Err(ErrorCode::NotPending);
            },
        };
        if !matches!(self.pending[i].status, CompStatus::Queued) {
            return Err(ErrorCode::NotPending);
        }
        let rec_kind = self.pending[i].kind;
        let rec_id = self.pending[i].comp_def_id;
        if !(self.invoker_ok(ctx) && rec_kind == expected_kind && ctx.comp_def_id == rec_id) {
            return Err(ErrorCode::OriginMismatch);
        }
        let ghost pre = *self;
        match outcome {
            ComputationOutputs::Aborted => {
                self.set_status(i, CompStatus::Aborted);
                proof {
                    MpcState::lemma_status_update_wf(pre, *self, i as int);
                }
                Err(ErrorCode::AbortedComputation)
            },
            ComputationOutputs::Success(p) => {
                match decode_output(rec_kind, p) {
                    Some(d) => {
                        self.set_status(i, CompStatus::Resolved);
                        proof {
                            MpcState::lemma_status_update_wf(pre, *self, i as int);
                        }
                        Ok(d)
                    },
                    None => Err(ErrorCode::MalformedOutput),
                }
            },
        }
    }

    fn invoker_ok(&self, ctx: CallbackContext) -> (r: bool)
        ensures
            r == (ctx.invoker == self.executor),
    {
        ctx.invoker.id == self.executor.id
    }

    /// Replace the status of the record at position `i`, leaving every
    /// other field and record as it was.
    fn set_status(&mut self, i: usize, st: CompStatus)
        requires
            i < old(self).pending@.len(),
        ensures
            final(self).executor == old(self).executor,
            final(self).signer == old(self).signer,
            final(self).defs == old(self).defs,
            final(self).pending@ == old(self).pending@.update(
                i as int,
                status_set(old(self).pending@[i as int], st),
            ),
    {
        let ghost pre = *self;
        let mut rec = self.pending.remove(i);
        rec.status = st;
        self.pending.insert(i, rec);
        proof {
            assert(self.pending@ =~= pre.pending@.update(
                i as int,
                status_set(pre.pending@[i as int], st),
            ));
        }
    }

    /// An in-place status update keeps the invariant: offsets are
    /// untouched.
    proof fn lemma_status_update_wf(pre: MpcState, post: MpcState, i: int)
        requires
            pre.wf(),
            0 <= i < pre.pending@.len(),
            post.defs == pre.defs,
            exists|st: CompStatus|
                post.pending@ == pre.pending@.update(
                    i,
                    status_set(pre.pending@[i], st),
                ),
        ensures
            post.wf(),
    {
        assert forall|a: int, b: int|
            0 <= a < b < post.pending@.len() implies (#[trigger] post.pending@[a]).offset != (
        #[trigger] post.pending@[b]).offset by {
            assert(pre.pending@[a].offset != pre.pending@[b].offset);
        }
    }
}

/// Queuing twice under one offset fails: whenever a queue call succeeds,
/// any further queue call with the same offset, of whatever kind and with
/// whatever arguments, returns DuplicateOffset and changes nothing.
pub proof fn lemma_duplicate_offset_rejected(
    pre: MpcState,
    mid: MpcState,
    post: MpcState,
    r1: Result<SubmitRequest, ErrorCode>,
    r2: Result<SubmitRequest, ErrorCode>,
    kind1: CompKind,
    kind2: CompKind,
    offset: u64,
    args1: Vec<Argument>,
    args2: Vec<Argument>,
    rq1: Address,
    rq2: Address,
)
    requires
        MpcState::queue_post(pre, mid, r1, kind1, offset, args1, rq1),
        r1 is Ok,
        MpcState::queue_post(mid, post, r2, kind2, offset, args2, rq2),
    ensures
        r2 == Err::<SubmitRequest, ErrorCode>(ErrorCode::DuplicateOffset),
        post == mid,
{
    let n = mid.pending@.len() - 1;
    assert(mid.pending@[n].offset == offset);
    assert(mid.has_pending(offset));
}

/// A terminal record is never resurrected: once an offset has resolved,
/// queuing under the same offset still fails with DuplicateOffset and the
/// old record stays exactly as it was.
pub proof fn lemma_resolved_offset_not_resurrected(
    pre: MpcState,
    mid: MpcState,
    post: MpcState,
    r1: Result<Disclosed, ErrorCode>,
    r2: Result<SubmitRequest, ErrorCode>,
    ctx: CallbackContext,
    offset: u64,
    kind1: CompKind,
    kind2: CompKind,
    out1: ComputationOutputs,
    args2: Vec<Argument>,
    rq2: Address,
)
    requires
        pre.wf(),
        MpcState::resolve_post(pre, mid, r1, ctx, offset, kind1, out1),
        r1 is Ok,
        MpcState::queue_post(mid, post, r2, kind2, offset, args2, rq2),
    ensures
        r2 == Err::<SubmitRequest, ErrorCode>(ErrorCode::DuplicateOffset),
        post == mid,
{
    let i = pre.pending_index(offset);
    assert(pre.has_pending(offset));
    assert(0 <= i < pre.pending@.len() && pre.pending@[i].offset == offset);
    assert(mid.pending@[i].offset == offset);
    assert(mid.has_pending(offset));
}

/// A callback from anyone but the pinned executor fails with
/// OriginMismatch and leaves the record Queued and the state untouched.
pub proof fn lemma_origin_mismatch_leaves_record_queued(
    pre: MpcState,
    post: MpcState,
    r: Result<Disclosed, ErrorCode>,
    ctx: CallbackContext,
    offset: u64,
    expected_kind: CompKind,
    outcome: ComputationOutputs,
)
    requires
        pre.has_pending(offset),
        pre.pending_at(offset).status == CompStatus::Queued,
        ctx.invoker != pre.executor,
        MpcState::resolve_post(pre, post, r, ctx, offset, expected_kind, outcome),
    ensures
        r == Err::<Disclosed, ErrorCode>(ErrorCode::OriginMismatch),
        post == pre,
        post.pending_at(offset).status == CompStatus::Queued,
{
}

/// Initializing a definition twice fails: whenever an initialization
/// succeeds, a second one for the same kind returns AlreadyInitialized and
/// mutates nothing.
pub proof fn lemma_reinit_rejected(
    pre: MpcState,
    mid: MpcState,
    post: MpcState,
    r1: Result<(), ErrorCode>,
    r2: Result<(), ErrorCode>,
    kind: CompKind,
)
    requires
        pre.wf(),
        MpcState::init_def_post(pre, mid, r1, kind),
        r1 is Ok,
        MpcState::init_def_post(mid, post, r2, kind),
    ensures
        r2 == Err::<(), ErrorCode>(ErrorCode::AlreadyInitialized),
        post == mid,
{
    assert(mid.def_of(kind).initialized);
}

/// A record resolves at most once: whenever a resolve call succeeds, any
/// further resolve call on the same offset, whatever its context, kind or
/// outcome, returns NotPending and changes nothing.
pub proof fn lemma_single_resolution(
    pre: MpcState,
    mid: MpcState,
    post: MpcState,
    r1: Result<Disclosed, ErrorCode>,
    r2: Result<Disclosed, ErrorCode>,
    ctx1: CallbackContext,
    ctx2: CallbackContext,
    offset: u64,
    kind1: CompKind,
    kind2: CompKind,
    out1: ComputationOutputs,
    out2: ComputationOutputs,
)
    requires
        pre.wf(),
        MpcState::resolve_post(pre, mid, r1, ctx1, offset, kind1, out1),
        r1 is Ok,
        MpcState::resolve_post(mid, post, r2, ctx2, offset, kind2, out2),
    ensures
        r2 == Err::<Disclosed, ErrorCode>(ErrorCode::NotPending),
        post == mid,
{
    let i = pre.pending_index(offset);
    assert(pre.has_pending(offset));
    assert(0 <= i < pre.pending@.len() && pre.pending@[i].offset == offset);
    assert(mid.pending@[i].offset == offset);
    assert(mid.has_pending(offset));
    let j = mid.pending_index(offset);
    assert(0 <= j < mid.pending@.len() && mid.pending@[j].offset == offset);
    if i != j {
        assert(mid.pending@[j].offset == pre.pending@[j].offset);
        if i < j {
            assert(pre.pending@[i].offset != pre.pending@[j].offset);
        } else {
            assert(pre.pending@[j].offset != pre.pending@[i].offset);
        }
        assert(false);
    }
    assert(mid.pending_at(offset).status == CompStatus::Resolved);
}

/// A fresh vector holding the same arguments.
fn copy_args(v: &Vec<Argument>) -> (r: Vec<Argument>)
    ensures
        r@ == v@,
{
    let mut r: Vec<Argument> = Vec::new();
    let mut i: usize = 0;
    while i < v.len()
        invariant
            i <= v@.len(),
            r@ =~= v@.subrange(0, i as int),
        decreases v@.len() - i,
    {
        r.push(v[i]);
        i = i + 1;
    }
    proof {
        assert(r@ =~= v@);
    }
    r
}

} // verus!
