use vstd::prelude::*;

use crate::addr::Address;
use crate::comp_def::CompKind;
use crate::tracker::{
    Argument, CallbackContext, CompStatus, ComputationOutputs, Disclosed, ErrorCode, MpcState,
    Payload, PendingComputation, SubmitRequest,
};

verus! {

/// Emitted when encrypted emissions-certificate storage was initialized:
/// a completion marker, nothing else.
#[derive(Clone, Copy, PartialEq, Eq, Structural, Debug)]
pub struct EmissionsCertificateInitialized {
    pub timestamp: i64,
}

/// Emitted when a threshold proof resolved: only the derived predicate and
/// the clock, never the private magnitude that was compared.
#[derive(Clone, Copy, PartialEq, Eq, Structural, Debug)]
pub struct ThresholdProved {
    pub meets_threshold: bool,
    pub timestamp: i64,
}

/// Emitted when encrypted SEMA-report storage was initialized.
#[derive(Clone, Copy, PartialEq, Eq, Structural, Debug)]
pub struct SemaReportInitialized {
    pub timestamp: i64,
}

/// Emitted when a SEMA-compliance proof resolved: the predicate only.
#[derive(Clone, Copy, PartialEq, Eq, Structural, Debug)]
pub struct SemaComplianceProved {
    pub meets_threshold: bool,
    pub timestamp: i64,
}

/// Register the emissions-certificate computation definition.
pub fn init_emissions_comp_def(state: &mut MpcState) -> (r: Result<(), ErrorCode>)
    requires
        old(state).wf(),
    ensures
        final(state).wf(),
        MpcState::init_def_post(*old(state), *final(state), r, CompKind::InitEmissionsCertificate),
{
    state.init_comp_def(CompKind::InitEmissionsCertificate)
}

/// Register the threshold-proof computation definition.
pub fn init_prove_comp_def(state: &mut MpcState) -> (r: Result<(), ErrorCode>)
    requires
        old(state).wf(),
    ensures
        final(state).wf(),
        MpcState::init_def_post(*old(state), *final(state), r, CompKind::ProveThreshold),
{
    state.init_comp_def(CompKind::ProveThreshold)
}

/// Register the SEMA-report computation definition.
pub fn init_sema_comp_def(state: &mut MpcState) -> (r: Result<(), ErrorCode>)
    requires
        old(state).wf(),
    ensures
        final(state).wf(),
        MpcState::init_def_post(*old(state), *final(state), r, CompKind::InitSemaReport),
{
    state.init_comp_def(CompKind::InitSemaReport)
}

/// Like `MpcState::queue_post`, stated over the argument sequence instead
/// of one concrete vector, for callers that build their argument list.
pub open spec fn queue_post_view(
    pre: MpcState,
    post: MpcState,
    r: Result<SubmitRequest, ErrorCode>,
    kind: CompKind,
    offset: u64,
    args: Seq<Argument>,
    requester: Address,
) -> bool {
    match r {
        Err(e) => {
            &&& pre.queue_error(kind, offset) == Some(e)
            &&& post == pre
        },
        Ok(req) => {
            &&& pre.queue_error(kind, offset) is None
            &&& req.offset == offset
            &&& req.comp_def_id == pre.def_of(kind).comp_def_id
            &&& req.args@ == args
            &&& req.callback_signer == pre.signer
            &&& post.executor == pre.executor
            &&& post.signer == pre.signer
            &&& post.defs == pre.defs
            &&& post.pending@.len() == pre.pending@.len() + 1
            &&& post.pending@.subrange(0, pre.pending@.len() as int) == pre.pending@
            &&& post.pending@.last().offset == offset
            &&& post.pending@.last().kind == kind
            &&& post.pending@.last().comp_def_id == pre.def_of(kind).comp_def_id
            &&& post.pending@.last().args@ == args
            &&& post.pending@.last().requester == requester
            &&& post.pending@.last().status == CompStatus::Queued
        },
    }
}

proof fn lemma_queue_post_view(
    pre: MpcState,
    post: MpcState,
    r: Result<SubmitRequest, ErrorCode>,
    kind: CompKind,
    offset: u64,
    args: Vec<Argument>,
    requester: Address,
)
    requires
        MpcState::queue_post(pre, post, r, kind, offset, args, requester),
    ensures
        queue_post_view(pre, post, r, kind, offset, args@, requester),
{
    if r is Ok {
        assert(post.pending@.subrange(0, pre.pending@.len() as int) =~= pre.pending@);
    }
}

/// Queue the initialization of encrypted emissions-certificate storage.
/// The nonce for the encrypted input is the single plaintext argument.
pub fn init_emissions_certificate(
    state: &mut MpcState,
    computation_offset: u64,
    nonce: u128,
    requester: Address,
) -> (r: Result<SubmitRequest, ErrorCode>)
    requires
        old(state).wf(),
    ensures
        final(state).wf(),
        queue_post_view(
            *old(state),
            *final(state),
            r,
            CompKind::InitEmissionsCertificate,
            computation_offset,
            seq![Argument::PlaintextU128(nonce)],
            requester,
        ),
{
    let mut args: Vec<Argument> = Vec::new();
    args.push(Argument::PlaintextU128(nonce));
    let ghost args_snap = args;
    let r = state.queue_computation(
        CompKind::InitEmissionsCertificate,
        computation_offset,
        args,
        requester,
    );
    proof {
        assert(args_snap@ =~= seq![Argument::PlaintextU128(nonce)]);
        lemma_queue_post_view(
            *old(state),
            *state,
            r,
            CompKind::InitEmissionsCertificate,
            computation_offset,
            args_snap,
            requester,
        );
    }
    r
}

/// Queue a threshold proof: the public threshold is the single plaintext
/// argument; the private value stays with the executor.
pub fn prove_threshold(
    state: &mut MpcState,
    computation_offset: u64,
    threshold: u64,
    requester: Address,
) -> (r: Result<SubmitRequest, ErrorCode>)
    requires
        old(state).wf(),
    ensures
        final(state).wf(),
        queue_post_view(
            *old(state),
            *final(state),
            r,
            CompKind::ProveThreshold,
            computation_offset,
            seq![Argument::PlaintextU64(threshold)],
            requester,
        ),
{
    let mut args: Vec<Argument> = Vec::new();
    args.push(Argument::PlaintextU64(threshold));
    let ghost args_snap = args;
    let r = state.queue_computation(
        CompKind::ProveThreshold,
        computation_offset,
        args,
        requester,
    );
    proof {
        assert(args_snap@ =~= seq![Argument::PlaintextU64(threshold)]);
        lemma_queue_post_view(
            *old(state),
            *state,
            r,
            CompKind::ProveThreshold,
            computation_offset,
            args_snap,
            requester,
        );
    }
    r
}

/// Queue the initialization of encrypted SEMA-report storage.
pub fn init_sema_report(
    state: &mut MpcState,
    computation_offset: u64,
    nonce: u128,
    requester: Address,
) -> (r: Result<SubmitRequest, ErrorCode>)
    requires
        old(state).wf(),
    ensures
        final(state).wf(),
        queue_post_view(
            *old(state),
            *final(state),
            r,
            CompKind::InitSemaReport,
            computation_offset,
            seq![Argument::PlaintextU128(nonce)],
            requester,
        ),
{
    let mut args: Vec<Argument> = Vec::new();
    args.push(Argument::PlaintextU128(nonce));
    let ghost args_snap = args;
    let r = state.queue_computation(
        CompKind::InitSemaReport,
        computation_offset,
        args,
        requester,
    );
    proof {
        assert(args_snap@ =~= seq![Argument::PlaintextU128(nonce)]);
        lemma_queue_post_view(
            *old(state),
            *state,
            r,
            CompKind::InitSemaReport,
            computation_offset,
            args_snap,
            requester,
        );
    }
    r
}

/// Queue a SEMA-compliance proof against a public threshold.
pub fn prove_sema_compliance(
    state: &mut MpcState,
    computation_offset: u64,
    threshold: u64,
    requester: Address,
) -> (r: Result<SubmitRequest, ErrorCode>)
    requires
        old(state).wf(),
    ensures
        final(state).wf(),
        queue_post_view(
            *old(state),
            *final(state),
            r,
            CompKind::ProveSemaCompliance,
            computation_offset,
            seq![Argument::PlaintextU64(threshold)],
            requester,
        ),
{
    let mut args: Vec<Argument> = Vec::new();
    args.push(Argument::PlaintextU64(threshold));
    let ghost args_snap = args;
    let r = state.queue_computation(
        CompKind::ProveSemaCompliance,
        computation_offset,
        args,
        requester,
    );
    proof {
        assert(args_snap@ =~= seq![Argument::PlaintextU64(threshold)]);
        lemma_queue_post_view(
            *old(state),
            *state,
            r,
            CompKind::ProveSemaCompliance,
            computation_offset,
            args_snap,
            requester,
        );
    }
    r
}

/// The disclosed value a completion-marker callback stands for.
pub open spec fn disclosed_of_completed<E>(r: Result<E, ErrorCode>) -> Result<
    Disclosed,
    ErrorCode,
> {
    match r {
        Ok(_) => Ok(Disclosed::Completed),
        Err(e) => Err(e),
    }
}

/// The disclosed value a threshold-proof callback stands for.
pub open spec fn disclosed_of_threshold(r: Result<ThresholdProved, ErrorCode>) -> Result<
    Disclosed,
    ErrorCode,
> {
    match r {
        Ok(ev) => Ok(Disclosed::MeetsThreshold(ev.meets_threshold)),
        Err(e) => Err(e),
    }
}

/// The disclosed value a SEMA-compliance callback stands for.
pub open spec fn disclosed_of_sema(r: Result<SemaComplianceProved, ErrorCode>) -> Result<
    Disclosed,
    ErrorCode,
> {
    match r {
        Ok(ev) => Ok(Disclosed::MeetsThreshold(ev.meets_threshold)),
        Err(e) => Err(e),
    }
}

/// Resolve the emissions-certificate initialization at `computation_offset`
/// and emit the completion event; the encrypted blob itself is dropped.
pub fn init_emissions_certificate_callback(
    state: &mut MpcState,
    ctx: CallbackContext,
    computation_offset: u64,
    output: ComputationOutputs,
    timestamp: i64,
) -> (r: Result<EmissionsCertificateInitialized, ErrorCode>)
    requires
        old(state).wf(),
    ensures
        final(state).wf(),
        MpcState::resolve_post(
            *old(state),
            *final(state),
            disclosed_of_completed(r),
            ctx,
            computation_offset,
            CompKind::InitEmissionsCertificate,
            output,
        ),
        r matches Ok(ev) ==> ev.timestamp == timestamp,
{
    match state.resolve_computation(
        ctx,
        computation_offset,
        CompKind::InitEmissionsCertificate,
        output,
    ) {
        Ok(d) => match d {
            Disclosed::Completed => Ok(EmissionsCertificateInitialized { timestamp }),
            _ => {
                proof {
                    assert(false);
                }
                Err(ErrorCode::MalformedOutput)
            },
        },
        Err(e) => Err(e),
    }
}

/// Resolve the threshold proof at `computation_offset` and emit only the
/// boolean predicate together with the clock.
pub fn prove_threshold_callback(
    state: &mut MpcState,
    ctx: CallbackContext,
    computation_offset: u64,
    output: ComputationOutputs,
    timestamp: i64,
) -> (r: Result<ThresholdProved, ErrorCode>)
    requires
        old(state).wf(),
    ensures
        final(state).wf(),
        MpcState::resolve_post(
            *old(state),
            *final(state),
            disclosed_of_threshold(r),
            ctx,
            computation_offset,
            CompKind::ProveThreshold,
            output,
        ),
        r matches Ok(ev) ==> ev.timestamp == timestamp,
{
    match state.resolve_computation(ctx, computation_offset, CompKind::ProveThreshold, output) {
        Ok(d) => match d {
            Disclosed::MeetsThreshold(b) => Ok(ThresholdProved { meets_threshold: b, timestamp }),
            _ => {
                proof {
                    assert(false);
                }
                Err(ErrorCode::MalformedOutput)
            },
        },
        Err(e) => Err(e),
    }
}

/// Resolve the SEMA-report initialization at `computation_offset` and emit
/// the completion event.
pub fn init_sema_report_callback(
    state: &mut MpcState,
    ctx: CallbackContext,
    computation_offset: u64,
    output: ComputationOutputs,
    timestamp: i64,
) -> (r: Result<SemaReportInitialized, ErrorCode>)
    requires
        old(state).wf(),
    ensures
        final(state).wf(),
        MpcState::resolve_post(
            *old(state),
            *final(state),
            disclosed_of_completed(r),
            ctx,
            computation_offset,
            CompKind::InitSemaReport,
            output,
        ),
        r matches Ok(ev) ==> ev.timestamp == timestamp,
{
    match state.resolve_computation(ctx, computation_offset, CompKind::InitSemaReport, output) {
        Ok(d) => match d {
            Disclosed::Completed => Ok(SemaReportInitialized { timestamp }),
            _ => {
                proof {
                    assert(false);
                }
                Err(ErrorCode::MalformedOutput)
            },
        },
        Err(e) => Err(e),
    }
}

/// Resolve the SEMA-compliance proof at `computation_offset` and emit only
/// the boolean predicate together with the clock.
pub fn prove_sema_compliance_callback(
    state: &mut MpcState,
    ctx: CallbackContext,
    computation_offset: u64,
    output: ComputationOutputs,
    timestamp: i64,
) -> (r: Result<SemaComplianceProved, ErrorCode>)
    requires
        old(state).wf(),
    ensures
        final(state).wf(),
        MpcState::resolve_post(
            *old(state),
            *final(state),
            disclosed_of_sema(r),
            ctx,
            computation_offset,
            CompKind::ProveSemaCompliance,
            output,
        ),
        r matches Ok(ev) ==> ev.timestamp == timestamp,
{
    match state.resolve_computation(
        ctx,
        computation_offset,
        CompKind::ProveSemaCompliance,
        output,
    ) {
        Ok(d) => match d {
            Disclosed::MeetsThreshold(b) => Ok(
                SemaComplianceProved { meets_threshold: b, timestamp },
            ),
            _ => {
                proof {
                    assert(false);
                }
                Err(ErrorCode::MalformedOutput)
            },
        },
        Err(e) => Err(e),
    }
}

/// A threshold event carries only the disclosed predicate and the clock:
/// two successful resolutions whose outcomes disclose the same boolean at
/// the same time emit identical events, whatever states, offsets, queued
/// thresholds or requesters stand behind them.
pub proof fn lemma_threshold_event_discloses_only_predicate(
    pre1: MpcState,
    post1: MpcState,
    r1: Result<ThresholdProved, ErrorCode>,
    ctx1: CallbackContext,
    off1: u64,
    pre2: MpcState,
    post2: MpcState,
    r2: Result<ThresholdProved, ErrorCode>,
    ctx2: CallbackContext,
    off2: u64,
    b: bool,
    ts: i64,
    ev1: ThresholdProved,
    ev2: ThresholdProved,
)
    requires
        MpcState::resolve_post(
            pre1,
            post1,
            disclosed_of_threshold(r1),
            ctx1,
            off1,
            CompKind::ProveThreshold,
            ComputationOutputs::Success(Payload::Flag(b)),
        ),
        MpcState::resolve_post(
            pre2,
            post2,
            disclosed_of_threshold(r2),
            ctx2,
            off2,
            CompKind::ProveThreshold,
            ComputationOutputs::Success(Payload::Flag(b)),
        ),
        r1 == Ok::<ThresholdProved, ErrorCode>(ev1),
        r2 == Ok::<ThresholdProved, ErrorCode>(ev2),
        ev1.timestamp == ts,
        ev2.timestamp == ts,
    ensures
        ev1 == ev2,
        ev1.meets_threshold == b,
{
}

/// The same disclosure bound for SEMA-compliance events.
pub proof fn lemma_sema_event_discloses_only_predicate(
    pre1: MpcState,
    post1: MpcState,
    r1: Result<SemaComplianceProved, ErrorCode>,
    ctx1: CallbackContext,
    off1: u64,
    pre2: MpcState,
    post2: MpcState,
    r2: Result<SemaComplianceProved, ErrorCode>,
    ctx2: CallbackContext,
    off2: u64,
    b: bool,
    ts: i64,
    ev1: SemaComplianceProved,
    ev2: SemaComplianceProved,
)
    requires
        MpcState::resolve_post(
            pre1,
            post1,
            disclosed_of_sema(r1),
            ctx1,
            off1,
            CompKind::ProveSemaCompliance,
            ComputationOutputs::Success(Payload::Flag(b)),
        ),
        MpcState::resolve_post(
            pre2,
            post2,
            disclosed_of_sema(r2),
            ctx2,
            off2,
            CompKind::ProveSemaCompliance,
            ComputationOutputs::Success(Payload::Flag(b)),
        ),
        r1 == Ok::<SemaComplianceProved, ErrorCode>(ev1),
        r2 == Ok::<SemaComplianceProved, ErrorCode>(ev2),
        ev1.timestamp == ts,
        ev2.timestamp == ts,
    ensures
        ev1 == ev2,
        ev1.meets_threshold == b,
{
}

} // verus!
