use wnav_core::master::check_version_approval;
use wnav_core::error::AppError;
use wnav_core::master::{check_version_transition, default_sop_code, draft_version_label, dry_run_result, parse_status, MasterVersionAction, MasterVersionStatus};

#[test]
fn status_names_round_trip() {
    for s in [MasterVersionStatus::Draft, MasterVersionStatus::PendingApproval, MasterVersionStatus::Published, MasterVersionStatus::Archived] {
        assert_eq!(parse_status(s.as_db_str()), s);
    }
    assert_eq!(MasterVersionStatus::PendingApproval.as_db_str(), "pending_approval");
    assert_eq!(parse_status("bogus"), MasterVersionStatus::Draft);
}

#[test]
fn workflow_transitions_allowed() {
    assert_eq!(check_version_transition(MasterVersionAction::Edit, "draft"), Ok(MasterVersionStatus::Draft));
    assert_eq!(check_version_transition(MasterVersionAction::Submit, "draft"), Ok(MasterVersionStatus::PendingApproval));
    assert_eq!(check_version_transition(MasterVersionAction::Approve, "pending_approval"), Ok(MasterVersionStatus::Published));
    assert_eq!(check_version_transition(MasterVersionAction::Rollback, "published"), Ok(MasterVersionStatus::Archived));
}

#[test]
fn workflow_transitions_refused() {
    assert_eq!(
        check_version_transition(MasterVersionAction::Submit, "published"),
        Err(AppError::InvalidStateTransition("Draft 状態のバージョンのみ承認申請できます".to_string()))
    );
    assert_eq!(
        check_version_transition(MasterVersionAction::Edit, "archived"),
        Err(AppError::InvalidStateTransition("Draft 状態のバージョンのみ編集可能です".to_string()))
    );
    assert_eq!(
        check_version_transition(MasterVersionAction::Approve, "draft"),
        Err(AppError::InvalidStateTransition("PendingApproval 状態のバージョンのみ承認できます".to_string()))
    );
    assert_eq!(
        check_version_transition(MasterVersionAction::Rollback, "archived"),
        Err(AppError::InvalidStateTransition("Published 状態のバージョンのみロールバックできます".to_string()))
    );
    let e = check_version_transition(MasterVersionAction::Approve, "Pending_Approval").unwrap_err();
    assert_eq!(e.status_code(), 422);
}

#[test]
fn workflow_chain_walks_to_archived() {
    let mut status = "draft".to_string();
    for a in [MasterVersionAction::Edit, MasterVersionAction::Submit, MasterVersionAction::Approve, MasterVersionAction::Rollback] {
        status = check_version_transition(a, &status).unwrap().as_db_str().to_string();
    }
    assert_eq!(status, "archived");
    for a in [MasterVersionAction::Edit, MasterVersionAction::Submit, MasterVersionAction::Approve, MasterVersionAction::Rollback] {
        assert!(check_version_transition(a, "archived").is_err());
    }
}

#[test]
fn draft_labels() {
    assert_eq!(draft_version_label(0), "v1.0.0");
    assert_eq!(draft_version_label(9), "v10.0.0");
    assert_eq!(draft_version_label(-1), "v0.0.0");
    assert_eq!(draft_version_label(-5), "v-4.0.0");
}

#[test]
fn dry_runs() {
    let r = dry_run_result(Some(3));
    assert!(r.is_valid);
    assert!(r.errors.is_empty());
    assert!(r.warnings.is_empty());
    let r = dry_run_result(Some(0));
    assert!(r.is_valid);
    assert_eq!(r.warnings, vec!["マスタデータが空です。公開前に内容を確認してください。".to_string()]);
    let r = dry_run_result(None);
    assert_eq!(r.warnings.len(), 1);
}

#[test]
fn sop_codes() {
    assert_eq!(default_sop_code(0x123e4567e89b12d3a456426614174000), "SOP-123E4567");
    assert_eq!(default_sop_code(0xabcdef01_0000_0000_0000_000000000000), "SOP-ABCDEF01");
    assert_eq!(default_sop_code(0), "SOP-00000000");
}

#[test]
fn approval_needs_another_user() {
    assert_eq!(check_version_approval("pending_approval", 1, 2), Ok(MasterVersionStatus::Published));
    assert_eq!(check_version_approval("pending_approval", 2, 2), Err(AppError::TwoPersonIntegrityViolation));
    assert_eq!(
        check_version_approval("draft", 1, 2),
        Err(AppError::InvalidStateTransition("PendingApproval 状態のバージョンのみ承認できます".to_string()))
    );
}
