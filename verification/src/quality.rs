//! Quality records: incoming inspections, dispositions, reworks, CAPAs and alerts.
use vstd::prelude::*;
use crate::error::AppError;
use crate::ids::uuid_hyphenated;
use crate::text::str_eq;

verus! {

/// Status of an incoming inspection.
#[derive(Debug, Clone, Copy, PartialEq, Eq)]
pub enum IqcStatus {
    /// Inspection under way.
    InProgress,
    /// Passed the AQL check.
    Passed,
    /// Failed the AQL check (awaiting a concession).
    Failed,
    /// Accepted by concession.
    ConcessionallyApproved,
    /// Returned or scrapped.
    Rejected,
}

/// AQL judgment of an inspection.
#[derive(Debug, Clone, Copy, PartialEq, Eq)]
pub enum AqlJudgment {
    Accept,
    Reject,
    Hold,
}

/// The stored name of an inspection status.
pub open spec fn spec_iqc_status_name(s: IqcStatus) -> Seq<char> {
    match s {
        IqcStatus::InProgress => "in_progress"@,
        IqcStatus::Passed => "passed"@,
        IqcStatus::Failed => "failed"@,
        IqcStatus::ConcessionallyApproved => "concessionally_approved"@,
        IqcStatus::Rejected => "rejected"@,
    }
}

/// The stored name of a judgment (its lower-cased variant name).
pub open spec fn spec_judgment_name(j: AqlJudgment) -> Seq<char> {
    match j {
        AqlJudgment::Accept => "accept"@,
        AqlJudgment::Reject => "reject"@,
        AqlJudgment::Hold => "hold"@,
    }
}

impl IqcStatus {
    /// The stored name of this status.
    pub fn as_db_str(&self) -> (res: &'static str)
        ensures
            res@ == spec_iqc_status_name(*self),
    {
        match self {
            IqcStatus::InProgress => "in_progress",
            IqcStatus::Passed => "passed",
            IqcStatus::Failed => "failed",
            IqcStatus::ConcessionallyApproved => "concessionally_approved",
            IqcStatus::Rejected => "rejected",
        }
    }
}

impl AqlJudgment {
    /// The stored name of this judgment.
    pub fn as_db_str(&self) -> (res: &'static str)
        ensures
            res@ == spec_judgment_name(*self),
    {
        match self {
            AqlJudgment::Accept => "accept",
            AqlJudgment::Reject => "reject",
            AqlJudgment::Hold => "hold",
        }
    }
}

/// The judgment and status of an inspection with `total_defects` defects.
pub open spec fn spec_judge(total_defects: i64) -> (AqlJudgment, IqcStatus) {
    if total_defects == 0 {
        (AqlJudgment::Accept, IqcStatus::Passed)
    } else {
        (AqlJudgment::Reject, IqcStatus::Failed)
    }
}

/// Judges an inspection from its total defect count: accepted and passed without defects,
/// rejected and failed otherwise.
pub fn judge_inspection(total_defects: i64) -> (res: (AqlJudgment, IqcStatus))
    ensures
        res == spec_judge(total_defects),
        total_defects == 0 ==> res == (AqlJudgment::Accept, IqcStatus::Passed),
        total_defects != 0 ==> res == (AqlJudgment::Reject, IqcStatus::Failed),
{
    if total_defects == 0 {
        (AqlJudgment::Accept, IqcStatus::Passed)
    } else {
        (AqlJudgment::Reject, IqcStatus::Failed)
    }
}

/// Checks that a concession may be granted (API-iqc-004): only a failed inspection can be
/// accepted by concession, and only by a user other than the applicant who registered it.
pub fn check_concession(current: &str, approver: u128, creator: u128) -> (res: Result<IqcStatus, AppError>)
    ensures
        current@ != "failed"@ ==> (res matches Err(AppError::InvalidStateTransition(m))
            && m@ == "Failed 状態の検査のみ特採承認できます"@),
        current@ == "failed"@ && approver == creator ==> res == Err::<IqcStatus, AppError>(
            AppError::TwoPersonIntegrityViolation,
        ),
        current@ == "failed"@ && approver != creator ==> res == Ok::<IqcStatus, AppError>(
            IqcStatus::ConcessionallyApproved,
        ),
{
    if !str_eq(current, "failed") {
        return Err(AppError::InvalidStateTransition("Failed 状態の検査のみ特採承認できます".to_owned()));
    }
    if approver == creator {
        Err(AppError::TwoPersonIntegrityViolation)
    } else {
        Ok(IqcStatus::ConcessionallyApproved)
    }
}

/// Checks that an inspection may be judged: one that was judged already is refused.
pub fn check_not_judged(current: &str) -> (res: Result<(), AppError>)
    ensures
        current@ == "in_progress"@ ==> res is Ok,
        current@ != "in_progress"@ ==> res == Err::<(), AppError>(AppError::AlreadyJudged),
{
    if str_eq(current, "in_progress") {
        Ok(())
    } else {
        Err(AppError::AlreadyJudged)
    }
}

/// Checks that a measurement may be added: only an inspection under way takes measurements.
pub fn check_measurement_open(current: &str) -> (res: Result<(), AppError>)
    ensures
        current@ == "in_progress"@ ==> res is Ok,
        current@ != "in_progress"@ ==> (res matches Err(AppError::InvalidStateTransition(m))
            && m@ == "InProgress 状態の検査にのみ測定値を追加できます"@),
{
    if str_eq(current, "in_progress") {
        Ok(())
    } else {
        Err(AppError::InvalidStateTransition("InProgress 状態の検査にのみ測定値を追加できます".to_owned()))
    }
}

/// Two-person integrity: the second person (approver or verifier) must differ from the
/// user who records the decision.
pub fn check_two_person_integrity(actor: u128, second_person: u128) -> (res: Result<(), AppError>)
    ensures
        actor != second_person ==> res is Ok,
        actor == second_person ==> res == Err::<(), AppError>(AppError::TwoPersonIntegrityViolation),
{
    if actor == second_person {
        Err(AppError::TwoPersonIntegrityViolation)
    } else {
        Ok(())
    }
}

/// Checks the two people of a rework verification (FR-AU-007): the verifier must differ from
/// the second verifier and from the user who carried out the rework, which must exist
/// (`None` when it does not).
pub fn check_rework_verifiers(verifier: u128, second_verifier: u128, rework_id: u128, rework_creator: Option<u128>) -> (res: Result<(), AppError>)
    ensures
        verifier == second_verifier ==> res == Err::<(), AppError>(AppError::TwoPersonIntegrityViolation),
        verifier != second_verifier && rework_creator is None ==> (res matches Err(AppError::NotFound(r))
            && r@ == "rework"@ + ":"@ + uuid_hyphenated(rework_id)),
        verifier != second_verifier && rework_creator == Some(verifier) ==> res == Err::<(), AppError>(
            AppError::TwoPersonIntegrityViolation,
        ),
        verifier != second_verifier && (rework_creator matches Some(c) && c != verifier) ==> res is Ok,
{
    if verifier == second_verifier {
        return Err(AppError::TwoPersonIntegrityViolation);
    }
    match rework_creator {
        None => Err(AppError::not_found_record("rework", rework_id)),
        Some(c) => {
            if c == verifier {
                Err(AppError::TwoPersonIntegrityViolation)
            } else {
                Ok(())
            }
        },
    }
}

/// The status of a rework after its verification.
pub fn rework_status_after_verification(is_passed: bool) -> (res: &'static str)
    ensures
        is_passed ==> res@ == "verified"@,
        !is_passed ==> res@ == "failed_verification"@,
{
    if is_passed {
        "verified"
    } else {
        "failed_verification"
    }
}

/// The status of an alert after it is acknowledged, or resolved when `resolved` is set.
pub fn acknowledgement_status(resolved: bool) -> (res: &'static str)
    ensures
        resolved ==> res@ == "resolved"@,
        !resolved ==> res@ == "acknowledged"@,
{
    if resolved {
        "resolved"
    } else {
        "acknowledged"
    }
}

/// An update that touched no row means the record does not exist.
pub fn require_updated(rows_affected: u64, kind: &str, id: u128) -> (res: Result<(), AppError>)
    ensures
        rows_affected > 0 ==> res is Ok,
        rows_affected == 0 ==> (res matches Err(AppError::NotFound(r)) && r@ == kind@ + ":"@
            + uuid_hyphenated(id)),
{
    if rows_affected == 0 {
        Err(AppError::not_found_record(kind, id))
    } else {
        Ok(())
    }
}

/// The stored changes of a CAPA update.
#[derive(Debug, Clone, PartialEq, Eq)]
pub struct CapaUpdate {
    /// New status.
    pub status: String,
    /// New root cause (corrective action) text.
    pub root_cause: String,
    /// Whether the update closes the CAPA (its closing time is set).
    pub closes: bool,
}

/// Whether a CAPA status is the final one: `closed`, also stored in upper case as `CLOSED`.
pub open spec fn capa_closed(status: Seq<char>) -> bool {
    status == "closed"@ || status == "CLOSED"@
}

/// Plans the update of a CAPA (statuses `open`, `in_progress`, `pending_verification`,
/// `closed`): a closed CAPA is never changed (ERR-BIZ-008, a conflict); otherwise the
/// requested status and corrective action replace the stored ones where given, and moving to
/// `closed` closes it. Both spellings `closed` and `CLOSED` count as closed.
pub fn plan_capa_update(
    current_status: &str,
    requested_status: Option<&str>,
    corrective_action: Option<&str>,
    existing_root_cause: &str,
) -> (res: Result<CapaUpdate, AppError>)
    ensures
        capa_closed(current_status@) ==> (res matches Err(AppError::Conflict(m)) && m@
            == "closed 状態の CAPA は更新できません（ERR-BIZ-008）"@),
        !capa_closed(current_status@) ==> (res matches Ok(u) && {
            &&& u.status@ == (match requested_status {
                Some(s) => s@,
                None => current_status@,
            })
            &&& u.root_cause@ == (match corrective_action {
                Some(c) => c@,
                None => existing_root_cause@,
            })
            &&& u.closes == capa_closed(u.status@)
        }),
{
    if str_eq(current_status, "closed") || str_eq(current_status, "CLOSED") {
        return Err(AppError::Conflict("closed 状態の CAPA は更新できません（ERR-BIZ-008）".to_owned()));
    }
    let status: String = match requested_status {
        Some(s) => s.to_owned(),
        None => current_status.to_owned(),
    };
    let root_cause: String = match corrective_action {
        Some(c) => c.to_owned(),
        None => existing_root_cause.to_owned(),
    };
    let closes = str_eq(status.as_str(), "closed") || str_eq(status.as_str(), "CLOSED");
    Ok(CapaUpdate { status, root_cause, closes })
}

/// Request to accept a failed inspection by concession.
#[derive(Debug, Clone, PartialEq, Eq)]
pub struct ApproveInspectionRequest {
    /// Why the concession is granted.
    pub concession_reason: String,
    /// Restrictions on use.
    pub use_restrictions: Option<String>,
    /// Comment of the approver.
    pub approver_comment: Option<String>,
}


/// Each inspection status is stored under its snake_case name; in particular a failed
/// inspection is stored as `failed`, the status a concession is granted from, and a rejected
/// one as `rejected`.
pub proof fn law_iqc_status_name_of_each_kind()
    ensures
        spec_iqc_status_name(IqcStatus::InProgress) == "in_progress"@,
        spec_iqc_status_name(IqcStatus::Passed) == "passed"@,
        spec_iqc_status_name(IqcStatus::Failed) == "failed"@,
        spec_iqc_status_name(IqcStatus::ConcessionallyApproved) == "concessionally_approved"@,
        spec_iqc_status_name(IqcStatus::Rejected) == "rejected"@,
{
}

/// Each AQL judgment is stored under its lower-cased name.
pub proof fn law_judgment_name_of_each_kind()
    ensures
        spec_judgment_name(AqlJudgment::Accept) == "accept"@,
        spec_judgment_name(AqlJudgment::Reject) == "reject"@,
        spec_judgment_name(AqlJudgment::Hold) == "hold"@,
{
}


/// An inspection judged with defects is stored under the one status name a concession is
/// granted from (`failed`, as `check_concession` requires), and with none as `passed`; the
/// two are rejected and accepted by AQL.
pub proof fn law_judged_status_names(total_defects: i64)
    ensures
        total_defects != 0 ==> spec_iqc_status_name(spec_judge(total_defects).1) == "failed"@
            && spec_judgment_name(spec_judge(total_defects).0) == "reject"@,
        total_defects == 0 ==> spec_iqc_status_name(spec_judge(total_defects).1) == "passed"@
            && spec_judgment_name(spec_judge(total_defects).0) == "accept"@,
{
}

} // verus!
