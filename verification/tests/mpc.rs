use climemate::addr::Address;
use climemate::comp_def::{comp_def_offset, kind_name, CompKind};
use climemate::instructions::{
    init_emissions_certificate, init_emissions_certificate_callback, init_emissions_comp_def,
    init_prove_comp_def, init_sema_comp_def, init_sema_report, init_sema_report_callback,
    prove_sema_compliance, prove_sema_compliance_callback, prove_threshold,
    prove_threshold_callback,
};
use climemate::tracker::{
    Argument, CallbackContext, ComputationOutputs, ErrorCode, MpcState, Payload,
};

const EXECUTOR: u64 = 0xA1C1;
const SIGNER: u64 = 0x51;
const REQUESTER: u64 = 0x77;

fn executor() -> Address {
    Address::new(EXECUTOR)
}

fn fresh_state() -> MpcState {
    MpcState::new(Address::new(EXECUTOR), Address::new(SIGNER))
}

fn requester() -> Address {
    Address::new(REQUESTER)
}

fn route(comp_def_id: u32) -> CallbackContext {
    CallbackContext { invoker: executor(), comp_def_id }
}

#[test]
fn test_comp_def_offset_known_values() {
    // First four bytes of the name's sha256 digest, little-endian.
    assert_eq!(comp_def_offset("prove_threshold"), 2621833013);
    assert_eq!(comp_def_offset("init_emissions_certificate"), 4103075983);
    assert_eq!(comp_def_offset("init_sema_report"), 3421990175);
    assert_eq!(comp_def_offset("prove_sema_compliance"), 1156464497);
    assert_eq!(comp_def_offset("add_together"), 4005749700);
}

#[test]
fn test_registry_ids_derive_from_names() {
    let mut s = fresh_state();
    assert!(init_prove_comp_def(&mut s).is_ok());
    let req = prove_threshold(&mut s, 1, 250, requester()).unwrap();
    assert_eq!(req.comp_def_id, comp_def_offset(kind_name(CompKind::ProveThreshold)));
    assert_eq!(req.comp_def_id, 2621833013);
    assert_eq!(req.offset, 1);
    assert_eq!(req.callback_signer, Address::new(SIGNER));
    assert_eq!(req.args, vec![Argument::PlaintextU64(250)]);
}

#[test]
fn test_queue_requires_initialized_definition() {
    let mut s = fresh_state();
    let r = prove_threshold(&mut s, 1, 100, requester());
    assert!(matches!(r, Err(ErrorCode::DefinitionNotInitialized)));
}

#[test]
fn test_queue_duplicate_offset() {
    let mut s = fresh_state();
    assert!(init_prove_comp_def(&mut s).is_ok());
    assert!(init_emissions_comp_def(&mut s).is_ok());
    assert!(prove_threshold(&mut s, 7, 100, requester()).is_ok());
    // Same offset, same kind: rejected while the first is still pending.
    let r = prove_threshold(&mut s, 7, 200, requester());
    assert!(matches!(r, Err(ErrorCode::DuplicateOffset)));
    // Same offset, another kind: rejected all the same.
    let r2 = init_emissions_certificate(&mut s, 7, 99, requester());
    assert!(matches!(r2, Err(ErrorCode::DuplicateOffset)));
    // A fresh offset is fine.
    assert!(prove_threshold(&mut s, 8, 200, requester()).is_ok());
}

#[test]
fn test_reinit_definition_fails() {
    let mut s = fresh_state();
    assert!(init_prove_comp_def(&mut s).is_ok());
    let r = init_prove_comp_def(&mut s);
    assert!(matches!(r, Err(ErrorCode::AlreadyInitialized)));
    // The failed second initialization mutated nothing: queuing still works.
    assert!(prove_threshold(&mut s, 1, 100, requester()).is_ok());
}

#[test]
fn test_origin_mismatch_leaves_record_queued() {
    let mut s = fresh_state();
    assert!(init_prove_comp_def(&mut s).is_ok());
    let req = prove_threshold(&mut s, 3, 100, requester()).unwrap();
    let spoofed = CallbackContext { invoker: Address::new(0xBAD), comp_def_id: req.comp_def_id };
    let r = prove_threshold_callback(
        &mut s,
        spoofed,
        3,
        ComputationOutputs::Success(Payload::Flag(true)),
        1111,
    );
    assert!(matches!(r, Err(ErrorCode::OriginMismatch)));
    // The record is still Queued: the genuine callback resolves it.
    let ev = prove_threshold_callback(
        &mut s,
        route(req.comp_def_id),
        3,
        ComputationOutputs::Success(Payload::Flag(true)),
        2222,
    )
    .unwrap();
    assert!(ev.meets_threshold);
    assert_eq!(ev.timestamp, 2222);
}

#[test]
fn test_wrong_definition_binding_rejected() {
    let mut s = fresh_state();
    assert!(init_prove_comp_def(&mut s).is_ok());
    let req = prove_threshold(&mut s, 4, 100, requester()).unwrap();
    let wrong_def = CallbackContext {
        invoker: executor(),
        comp_def_id: req.comp_def_id.wrapping_add(1),
    };
    let r = prove_threshold_callback(
        &mut s,
        wrong_def,
        4,
        ComputationOutputs::Success(Payload::Flag(true)),
        1,
    );
    assert!(matches!(r, Err(ErrorCode::OriginMismatch)));
}

#[test]
fn test_threshold_scenario() {
    let mut s = fresh_state();
    assert!(init_prove_comp_def(&mut s).is_ok());
    let req = prove_threshold(&mut s, 42, 100, requester()).unwrap();
    let ev = prove_threshold_callback(
        &mut s,
        route(req.comp_def_id),
        42,
        ComputationOutputs::Success(Payload::Flag(true)),
        1700000000,
    )
    .unwrap();
    assert!(ev.meets_threshold);
    assert_eq!(ev.timestamp, 1700000000);
    // No second resolution for the same offset.
    let again = prove_threshold_callback(
        &mut s,
        route(req.comp_def_id),
        42,
        ComputationOutputs::Success(Payload::Flag(true)),
        1700000001,
    );
    assert!(matches!(again, Err(ErrorCode::NotPending)));
}

#[test]
fn test_offset_not_reusable_after_resolution() {
    let mut s = fresh_state();
    assert!(init_prove_comp_def(&mut s).is_ok());
    let req = prove_threshold(&mut s, 13, 100, requester()).unwrap();
    let ev = prove_threshold_callback(
        &mut s,
        route(req.comp_def_id),
        13,
        ComputationOutputs::Success(Payload::Flag(true)),
        1,
    )
    .unwrap();
    assert!(ev.meets_threshold);
    // The terminal record is retained, so the offset stays occupied and no
    // new computation can resurrect it.
    let r = prove_threshold(&mut s, 13, 500, requester());
    assert!(matches!(r, Err(ErrorCode::DuplicateOffset)));
    let again = prove_threshold_callback(
        &mut s,
        route(req.comp_def_id),
        13,
        ComputationOutputs::Success(Payload::Flag(false)),
        2,
    );
    assert!(matches!(again, Err(ErrorCode::NotPending)));
}

#[test]
fn test_callback_on_unknown_offset() {
    let mut s = fresh_state();
    assert!(init_prove_comp_def(&mut s).is_ok());
    let r = prove_threshold_callback(
        &mut s,
        route(2621833013),
        9,
        ComputationOutputs::Success(Payload::Flag(false)),
        1,
    );
    assert!(matches!(r, Err(ErrorCode::NotPending)));
}

#[test]
fn test_aborted_computation_is_terminal() {
    let mut s = fresh_state();
    assert!(init_prove_comp_def(&mut s).is_ok());
    let req = prove_threshold(&mut s, 5, 100, requester()).unwrap();
    let r = prove_threshold_callback(&mut s, route(req.comp_def_id), 5, ComputationOutputs::Aborted, 1);
    assert!(matches!(r, Err(ErrorCode::AbortedComputation)));
    // The record reports failure and cannot be resolved afterwards.
    let again = prove_threshold_callback(
        &mut s,
        route(req.comp_def_id),
        5,
        ComputationOutputs::Success(Payload::Flag(true)),
        2,
    );
    assert!(matches!(again, Err(ErrorCode::NotPending)));
    // Retry means a fresh offset, not a resurrected record.
    assert!(prove_threshold(&mut s, 6, 100, requester()).is_ok());
}

#[test]
fn test_malformed_payload_rejected_without_mutation() {
    let mut s = fresh_state();
    assert!(init_prove_comp_def(&mut s).is_ok());
    let req = prove_threshold(&mut s, 11, 100, requester()).unwrap();
    let r = prove_threshold_callback(
        &mut s,
        route(req.comp_def_id),
        11,
        ComputationOutputs::Success(Payload::Number(55)),
        1,
    );
    assert!(matches!(r, Err(ErrorCode::MalformedOutput)));
    // The record is still Queued: a well-shaped outcome resolves it.
    let ev = prove_threshold_callback(
        &mut s,
        route(req.comp_def_id),
        11,
        ComputationOutputs::Success(Payload::Flag(false)),
        2,
    )
    .unwrap();
    assert!(!ev.meets_threshold);
}

#[test]
fn test_emissions_certificate_flow() {
    let mut s = fresh_state();
    assert!(init_emissions_comp_def(&mut s).is_ok());
    let req = init_emissions_certificate(&mut s, 1, 0xDEADBEEF, requester()).unwrap();
    assert_eq!(req.args, vec![Argument::PlaintextU128(0xDEADBEEF)]);
    let ev = init_emissions_certificate_callback(
        &mut s,
        route(req.comp_def_id),
        1,
        ComputationOutputs::Success(Payload::Blob(vec![9, 9, 9])),
        123,
    )
    .unwrap();
    // Only a completion marker is emitted; the blob is dropped.
    assert_eq!(ev.timestamp, 123);
}

#[test]
fn test_sema_flow() {
    let mut s = fresh_state();
    assert!(init_sema_comp_def(&mut s).is_ok());
    let req = init_sema_report(&mut s, 2, 77, requester()).unwrap();
    let ev = init_sema_report_callback(
        &mut s,
        route(req.comp_def_id),
        2,
        ComputationOutputs::Success(Payload::Blob(vec![1])),
        456,
    )
    .unwrap();
    assert_eq!(ev.timestamp, 456);

    assert!(s.init_comp_def(CompKind::ProveSemaCompliance).is_ok());
    let req2 = prove_sema_compliance(&mut s, 3, 80, requester()).unwrap();
    let ev2 = prove_sema_compliance_callback(
        &mut s,
        route(req2.comp_def_id),
        3,
        ComputationOutputs::Success(Payload::Flag(false)),
        789,
    )
    .unwrap();
    assert!(!ev2.meets_threshold);
    assert_eq!(ev2.timestamp, 789);
}

#[test]
fn test_threshold_event_carries_only_predicate_and_clock() {
    // Two resolutions with very different private context (thresholds,
    // offsets, requesters) but the same disclosed boolean and clock emit
    // identical events.
    let mut s1 = fresh_state();
    assert!(init_prove_comp_def(&mut s1).is_ok());
    let req1 = prove_threshold(&mut s1, 1, 50, Address::new(1)).unwrap();
    let ev1 = prove_threshold_callback(
        &mut s1,
        route(req1.comp_def_id),
        1,
        ComputationOutputs::Success(Payload::Flag(true)),
        999,
    )
    .unwrap();

    let mut s2 = fresh_state();
    assert!(init_prove_comp_def(&mut s2).is_ok());
    let req2 = prove_threshold(&mut s2, 88, 123456789, Address::new(2)).unwrap();
    let ev2 = prove_threshold_callback(
        &mut s2,
        route(req2.comp_def_id),
        88,
        ComputationOutputs::Success(Payload::Flag(true)),
        999,
    )
    .unwrap();

    assert_eq!(ev1, ev2);
    assert!(ev1.meets_threshold);
    assert_eq!(ev1.timestamp, 999);
}

#[test]
fn test_generic_numeric_kind_flow() {
    let mut s = fresh_state();
    assert!(s.init_comp_def(CompKind::AddTogether).is_ok());
    let req = s
        .queue_computation(
            CompKind::AddTogether,
            21,
            vec![Argument::PlaintextU64(2), Argument::PlaintextU64(3)],
            requester(),
        )
        .unwrap();
    assert_eq!(req.comp_def_id, comp_def_offset("add_together"));
    let d = s
        .resolve_computation(
            route(req.comp_def_id),
            21,
            CompKind::AddTogether,
            ComputationOutputs::Success(Payload::Number(5)),
        )
        .unwrap();
    assert_eq!(d, climemate::tracker::Disclosed::Value(5));
}
