//! Master-data versions: their statuses, the approval workflow and the dry run.
//!
//! A version is edited while `draft`, submitted to `pending_approval`, approved to
//! `published` and rolled back to `archived`.
use vstd::prelude::*;
use crate::error::AppError;
use crate::ids::{uuid_simple, uuid_to_string};
use crate::text::{decimal_int, i64_to_string, str_chars, str_eq, string_from_chars};

verus! {

/// Status of a master-data version.
#[derive(Debug, Clone, Copy, PartialEq, Eq)]
pub enum MasterVersionStatus {
    /// Being edited.
    Draft,
    /// Waiting for approval.
    PendingApproval,
    /// Approved and in force.
    Published,
    /// Rolled back.
    Archived,
}

/// The stored name of a status.
pub open spec fn spec_status_name(s: MasterVersionStatus) -> Seq<char> {
    match s {
        MasterVersionStatus::Draft => "draft"@,
        MasterVersionStatus::PendingApproval => "pending_approval"@,
        MasterVersionStatus::Published => "published"@,
        MasterVersionStatus::Archived => "archived"@,
    }
}

/// The status a stored name denotes; any unknown name reads as a draft.
pub open spec fn spec_parse_status(s: Seq<char>) -> MasterVersionStatus {
    if s == "pending_approval"@ {
        MasterVersionStatus::PendingApproval
    } else if s == "published"@ {
        MasterVersionStatus::Published
    } else if s == "archived"@ {
        MasterVersionStatus::Archived
    } else {
        MasterVersionStatus::Draft
    }
}

impl MasterVersionStatus {
    /// The stored name of this status.
    pub fn as_db_str(&self) -> (res: &'static str)
        ensures
            res@ == spec_status_name(*self),
    {
        match self {
            MasterVersionStatus::Draft => "draft",
            MasterVersionStatus::PendingApproval => "pending_approval",
            MasterVersionStatus::Published => "published",
            MasterVersionStatus::Archived => "archived",
        }
    }
}

/// Reads a stored status name.
pub fn parse_status(s: &str) -> (res: MasterVersionStatus)
    ensures
        res == spec_parse_status(s@),
{
    if str_eq(s, "pending_approval") {
        MasterVersionStatus::PendingApproval
    } else if str_eq(s, "published") {
        MasterVersionStatus::Published
    } else if str_eq(s, "archived") {
        MasterVersionStatus::Archived
    } else {
        MasterVersionStatus::Draft
    }
}

/// A step of the version workflow.
#[derive(Debug, Clone, Copy, PartialEq, Eq)]
pub enum MasterVersionAction {
    /// Edit the data of a draft.
    Edit,
    /// Submit a draft for approval.
    Submit,
    /// Approve and publish a pending version.
    Approve,
    /// Roll back a published version.
    Rollback,
}

/// The stored status from which an action is allowed.
pub open spec fn spec_required_status(a: MasterVersionAction) -> Seq<char> {
    match a {
        MasterVersionAction::Edit | MasterVersionAction::Submit => "draft"@,
        MasterVersionAction::Approve => "pending_approval"@,
        MasterVersionAction::Rollback => "published"@,
    }
}

/// The status a version has after an action.
pub open spec fn spec_resulting_status(a: MasterVersionAction) -> MasterVersionStatus {
    match a {
        MasterVersionAction::Edit => MasterVersionStatus::Draft,
        MasterVersionAction::Submit => MasterVersionStatus::PendingApproval,
        MasterVersionAction::Approve => MasterVersionStatus::Published,
        MasterVersionAction::Rollback => MasterVersionStatus::Archived,
    }
}

/// Why an action is refused from any other status.
pub open spec fn spec_refusal_message(a: MasterVersionAction) -> Seq<char> {
    match a {
        MasterVersionAction::Edit => "Draft 状態のバージョンのみ編集可能です"@,
        MasterVersionAction::Submit => "Draft 状態のバージョンのみ承認申請できます"@,
        MasterVersionAction::Approve => "PendingApproval 状態のバージョンのみ承認できます"@,
        MasterVersionAction::Rollback => "Published 状態のバージョンのみロールバックできます"@,
    }
}

/// Checks an action against the stored status of a version: the status the version will
/// have, or `InvalidStateTransition` where the action is not allowed from that status.
pub fn check_version_transition(action: MasterVersionAction, current: &str) -> (res: Result<MasterVersionStatus, AppError>)
    ensures
        current@ == spec_required_status(action) ==> res == Ok::<MasterVersionStatus, AppError>(
            spec_resulting_status(action),
        ),
        current@ != spec_required_status(action) ==> (res matches Err(AppError::InvalidStateTransition(m))
            && m@ == spec_refusal_message(action)),
{
    match action {
        MasterVersionAction::Edit => {
            if str_eq(current, "draft") {
                Ok(MasterVersionStatus::Draft)
            } else {
                Err(AppError::InvalidStateTransition("Draft 状態のバージョンのみ編集可能です".to_owned()))
            }
        },
        MasterVersionAction::Submit => {
            if str_eq(current, "draft") {
                Ok(MasterVersionStatus::PendingApproval)
            } else {
                Err(AppError::InvalidStateTransition("Draft 状態のバージョンのみ承認申請できます".to_owned()))
            }
        },
        MasterVersionAction::Approve => {
            if str_eq(current, "pending_approval") {
                Ok(MasterVersionStatus::Published)
            } else {
                Err(AppError::InvalidStateTransition("PendingApproval 状態のバージョンのみ承認できます".to_owned()))
            }
        },
        MasterVersionAction::Rollback => {
            if str_eq(current, "published") {
                Ok(MasterVersionStatus::Archived)
            } else {
                Err(AppError::InvalidStateTransition("Published 状態のバージョンのみロールバックできます".to_owned()))
            }
        },
    }
}

/// Checks the approval of a version (API-master-005): it must be pending approval, and the
/// approver must be another user than the applicant who created and submitted it.
pub fn check_version_approval(current: &str, approver: u128, submitter: u128) -> (res: Result<MasterVersionStatus, AppError>)
    ensures
        current@ != spec_required_status(MasterVersionAction::Approve) ==> (res matches Err(
            AppError::InvalidStateTransition(m),
        ) && m@ == spec_refusal_message(MasterVersionAction::Approve)),
        current@ == spec_required_status(MasterVersionAction::Approve) && approver == submitter
            ==> res == Err::<MasterVersionStatus, AppError>(AppError::TwoPersonIntegrityViolation),
        current@ == spec_required_status(MasterVersionAction::Approve) && approver != submitter
            ==> res == Ok::<MasterVersionStatus, AppError>(MasterVersionStatus::Published),
{
    let next = check_version_transition(MasterVersionAction::Approve, current);
    match next {
        Err(e) => Err(e),
        Ok(st) => {
            if approver == submitter {
                Err(AppError::TwoPersonIntegrityViolation)
            } else {
                Ok(st)
            }
        },
    }
}

/// Reading back the stored name of a status gives the status.
pub proof fn law_status_name_round_trip(s: MasterVersionStatus)
    ensures
        spec_parse_status(spec_status_name(s)) == s,
{
    reveal_strlit("draft");
    reveal_strlit("pending_approval");
    reveal_strlit("published");
    reveal_strlit("archived");
    assert("draft"@.len() == 5 && "published"@.len() == 9 && "archived"@.len() == 8
        && "pending_approval"@.len() == 16);
}

/// The workflow is the chain draft, pending approval, published, archived: submitting
/// leads to where approving starts, approving to where rolling back starts, and no action
/// starts from an archived version.
pub proof fn law_workflow_chain(a: MasterVersionAction)
    ensures
        spec_status_name(spec_resulting_status(MasterVersionAction::Submit)) == spec_required_status(
            MasterVersionAction::Approve,
        ),
        spec_status_name(spec_resulting_status(MasterVersionAction::Approve)) == spec_required_status(
            MasterVersionAction::Rollback,
        ),
        spec_status_name(spec_resulting_status(MasterVersionAction::Edit)) == spec_required_status(
            MasterVersionAction::Submit,
        ),
        spec_required_status(a) != spec_status_name(MasterVersionStatus::Archived),
{
    reveal_strlit("draft");
    reveal_strlit("pending_approval");
    reveal_strlit("published");
    reveal_strlit("archived");
    assert("draft"@.len() == 5 && "published"@.len() == 9 && "archived"@.len() == 8
        && "pending_approval"@.len() == 16);
}

/// The label of a new draft when `count` versions exist: `v{count + 1}.0.0`.
pub fn draft_version_label(count: i64) -> (res: String)
    requires
        count < i64::MAX,
    ensures
        res@ == "v"@ + decimal_int(count + 1) + ".0.0"@,
{
    let n = i64_to_string(count + 1);
    let mut s = "v".to_owned();
    s.append(n.as_str());
    s.append(".0.0");
    s
}

/// A referential-integrity problem found by a dry run.
#[derive(Debug, Clone, PartialEq, Eq)]
pub struct DryRunError {
    /// Kind of problem.
    pub error_type: String,
    /// Field or entity concerned.
    pub field: String,
    /// Description.
    pub message: String,
}

/// Outcome of a dry run of a version.
#[derive(Debug, Clone, PartialEq, Eq)]
pub struct DryRunResult {
    /// True when no error was found.
    pub is_valid: bool,
    /// Errors found.
    pub errors: Vec<DryRunError>,
    /// Points to review that are not errors.
    pub warnings: Vec<String>,
}

/// The warning given for empty master data.
pub open spec fn empty_data_warning() -> Seq<char> {
    "マスタデータが空です。公開前に内容を確認してください。"@
}

/// Dry run of a version's data, given the number of entries of the data when it is a JSON
/// object (`None` for any other JSON value): valid, with a warning when the data is not an
/// object with entries.
pub fn dry_run_result(object_entries: Option<usize>) -> (res: DryRunResult)
    ensures
        res.is_valid,
        res.errors@.len() == 0,
        (object_entries is None || object_entries == Some(0usize)) ==> (res.warnings@.len() == 1
            && res.warnings@[0]@ == empty_data_warning()),
        (object_entries matches Some(n) && n > 0) ==> res.warnings@.len() == 0,
{
    let errors: Vec<DryRunError> = Vec::new();
    let mut warnings: Vec<String> = Vec::new();
    let empty = match object_entries {
        Some(n) => n == 0,
        None => true,
    };
    if empty {
        warnings.push("マスタデータが空です。公開前に内容を確認してください。".to_owned());
    }
    let is_valid = errors.len() == 0;
    DryRunResult { is_valid, errors, warnings }
}

/// Request to submit a draft for approval.
#[derive(Debug, Clone, PartialEq, Eq)]
pub struct SubmitVersionRequest {
    /// Comment of the submission.
    pub comment: Option<String>,
}

/// Request to approve and publish a pending version.
#[derive(Debug, Clone, PartialEq, Eq)]
pub struct ApproveVersionRequest {
    /// Comment of the approval.
    pub comment: Option<String>,
}

/// Request to roll back a published version.
#[derive(Debug, Clone, PartialEq, Eq)]
pub struct RollbackVersionRequest {
    /// Why the version is rolled back.
    pub reason: String,
}

/// The upper-case form of an ASCII letter; other characters are unchanged.
pub open spec fn ascii_upper(c: char) -> char {
    if 'a' <= c <= 'z' {
        ((c as u32) - 32) as char
    } else {
        c
    }
}

/// The code given to a new SOP without one: `SOP-` and the first eight hex digits of its
/// identifier in upper case.
pub fn default_sop_code(sop_id: u128) -> (res: String)
    ensures
        res@ == "SOP-"@ + uuid_simple(sop_id).take(8).map_values(|c: char| ascii_upper(c)),
{
    let text = uuid_to_string(sop_id);
    let chars = str_chars(text.as_str());
    let mut out: Vec<char> = Vec::new();
    out.push('S');
    out.push('O');
    out.push('P');
    out.push('-');
    let ghost upper = uuid_simple(sop_id).take(8).map_values(|c: char| ascii_upper(c));
    proof {
        let s = uuid_simple(sop_id);
        assert forall|j: int| 0 <= j < 8 implies chars@[j] == uuid_simple(sop_id)[j] by {
            assert(chars@[j] == (s.subrange(0, 8) + seq!['-'] + s.subrange(8, 12) + seq!['-']
                + s.subrange(12, 16) + seq!['-'] + s.subrange(16, 20) + seq!['-'] + s.subrange(20, 32))[j]);
        }
    }
    let mut i: usize = 0;
    while i < 8
        invariant
            chars@.len() == 36,
            upper == uuid_simple(sop_id).take(8).map_values(|c: char| ascii_upper(c)),
            forall|j: int| 0 <= j < 8 ==> chars@[j] == uuid_simple(sop_id)[j],
            0 <= i <= 8,
            out@ == seq!['S', 'O', 'P', '-'] + upper.take(i as int),
        decreases 8 - i,
    {
        let c = chars[i];
        let u = if 'a' <= c && c <= 'z' { ((c as u32) - 32) as u8 as char } else { c };
        proof {
            assert(u == ascii_upper(c));
            assert(upper[i as int] == ascii_upper(chars@[i as int]));
            assert(upper.take(i + 1) =~= upper.take(i as int).push(u));
        }
        out.push(u);
        i = i + 1;
    }
    proof {
        reveal_strlit("SOP-");
        assert(upper.take(8) =~= upper);
        assert(out@ =~= "SOP-"@ + upper);
    }
    string_from_chars(out.as_slice())
}


/// Each version status is stored under its snake_case name.
pub proof fn law_status_name_of_each_kind()
    ensures
        spec_status_name(MasterVersionStatus::Draft) == "draft"@,
        spec_status_name(MasterVersionStatus::PendingApproval) == "pending_approval"@,
        spec_status_name(MasterVersionStatus::Published) == "published"@,
        spec_status_name(MasterVersionStatus::Archived) == "archived"@,
{
}

} // verus!
