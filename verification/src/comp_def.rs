use vstd::prelude::*;

verus! {

/// The closed set of computation kinds the protocol registers. Each kind
/// names one unit of remote confidential computation logic.
#[derive(Clone, Copy, PartialEq, Eq, Structural, Debug)]
pub enum CompKind {
    InitEmissionsCertificate,
    UpdateEmissions,
    ProveThreshold,
    InitSemaReport,
    UpdateSemaReport,
    ProveSemaCompliance,
    CalculateOffsetPct,
    AddTogether,
}

/// How many computation kinds the registry holds.
pub const KIND_COUNT: usize = 8;

/// The stable name under which a kind's computation logic is registered with
/// the remote executor.
pub open spec fn kind_name_spec(k: CompKind) -> Seq<char> {
    match k {
        CompKind::InitEmissionsCertificate => "init_emissions_certificate"@,
        CompKind::UpdateEmissions => "update_emissions"@,
        CompKind::ProveThreshold => "prove_threshold"@,
        CompKind::InitSemaReport => "init_sema_report"@,
        CompKind::UpdateSemaReport => "update_sema_report"@,
        CompKind::ProveSemaCompliance => "prove_sema_compliance"@,
        CompKind::CalculateOffsetPct => "calculate_offset_percentage"@,
        CompKind::AddTogether => "add_together"@,
    }
}

pub fn kind_name(k: CompKind) -> (r: &'static str)
    ensures
        r@ == kind_name_spec(k),
{
    match k {
        CompKind::InitEmissionsCertificate => "init_emissions_certificate",
        CompKind::UpdateEmissions => "update_emissions",
        CompKind::ProveThreshold => "prove_threshold",
        CompKind::InitSemaReport => "init_sema_report",
        CompKind::UpdateSemaReport => "update_sema_report",
        CompKind::ProveSemaCompliance => "prove_sema_compliance",
        CompKind::CalculateOffsetPct => "calculate_offset_percentage",
        CompKind::AddTogether => "add_together",
    }
}

/// The numeric identifier the executor derives from a computation's name:
/// the leading bytes of a cryptographic digest of the name, read
/// little-endian. The digest is a pure function of the name alone.
pub uninterp spec fn comp_def_offset_of(name: Seq<char>) -> u32;

/// Relies on arcium_anchor::comp_def_offset: a pure digest of the name's
/// bytes, truncated to the identifier width; it depends on the name alone.
#[verifier::external_body]
pub fn comp_def_offset(name: &str) -> (r: u32)
    ensures
        r == comp_def_offset_of(name@),
{
    arcium_anchor::comp_def_offset(name)
}

/// The position a kind occupies in the definition registry.
pub open spec fn kind_index_spec(k: CompKind) -> int {
    match k {
        CompKind::InitEmissionsCertificate => 0,
        CompKind::UpdateEmissions => 1,
        CompKind::ProveThreshold => 2,
        CompKind::InitSemaReport => 3,
        CompKind::UpdateSemaReport => 4,
        CompKind::ProveSemaCompliance => 5,
        CompKind::CalculateOffsetPct => 6,
        CompKind::AddTogether => 7,
    }
}

/// The kind stored at a registry position.
pub open spec fn kind_of_index(i: int) -> CompKind {
    if i == 0 {
        CompKind::InitEmissionsCertificate
    } else if i == 1 {
        CompKind::UpdateEmissions
    } else if i == 2 {
        CompKind::ProveThreshold
    } else if i == 3 {
        CompKind::InitSemaReport
    } else if i == 4 {
        CompKind::UpdateSemaReport
    } else if i == 5 {
        CompKind::ProveSemaCompliance
    } else if i == 6 {
        CompKind::CalculateOffsetPct
    } else {
        CompKind::AddTogether
    }
}

pub fn kind_index(k: CompKind) -> (r: usize)
    ensures
        r == kind_index_spec(k),
        r < KIND_COUNT,
{
    match k {
        CompKind::InitEmissionsCertificate => 0,
        CompKind::UpdateEmissions => 1,
        CompKind::ProveThreshold => 2,
        CompKind::InitSemaReport => 3,
        CompKind::UpdateSemaReport => 4,
        CompKind::ProveSemaCompliance => 5,
        CompKind::CalculateOffsetPct => 6,
        CompKind::AddTogether => 7,
    }
}

pub fn kind_at(i: usize) -> (r: CompKind)
    requires
        i < KIND_COUNT,
    ensures
        r == kind_of_index(i as int),
{
    if i == 0 {
        CompKind::InitEmissionsCertificate
    } else if i == 1 {
        CompKind::UpdateEmissions
    } else if i == 2 {
        CompKind::ProveThreshold
    } else if i == 3 {
        CompKind::InitSemaReport
    } else if i == 4 {
        CompKind::UpdateSemaReport
    } else if i == 5 {
        CompKind::ProveSemaCompliance
    } else if i == 6 {
        CompKind::CalculateOffsetPct
    } else {
        CompKind::AddTogether
    }
}

/// One entry of the definition registry: a kind, the numeric identifier
/// derived from its name, and whether it has been initialized yet.
#[derive(Clone, Copy, PartialEq, Eq, Structural, Debug)]
pub struct CompDef {
    pub kind: CompKind,
    pub comp_def_id: u32,
    pub initialized: bool,
}

} // verus!
