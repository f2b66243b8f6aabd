use wnav_core::error::AppError;
use wnav_core::trace::chain_tip;
use wnav_core::quality::{acknowledgement_status, check_concession, check_not_judged, check_rework_verifiers, check_two_person_integrity, judge_inspection, plan_capa_update, require_updated, rework_status_after_verification, AqlJudgment, IqcStatus};

#[test]
fn judgments() {
    assert_eq!(judge_inspection(0), (AqlJudgment::Accept, IqcStatus::Passed));
    assert_eq!(judge_inspection(3), (AqlJudgment::Reject, IqcStatus::Failed));
    assert_eq!(judge_inspection(-1), (AqlJudgment::Reject, IqcStatus::Failed));
    assert_eq!(AqlJudgment::Accept.as_db_str(), "accept");
    assert_eq!(AqlJudgment::Hold.as_db_str(), "hold");
    assert_eq!(IqcStatus::ConcessionallyApproved.as_db_str(), "concessionally_approved");
    assert_eq!(IqcStatus::InProgress.as_db_str(), "in_progress");
}

#[test]
fn concession_only_from_failed_by_another_user() {
    assert_eq!(check_concession("failed", 1, 2), Ok(IqcStatus::ConcessionallyApproved));
    assert_eq!(check_concession("failed", 3, 3), Err(AppError::TwoPersonIntegrityViolation));
    assert_eq!(
        check_concession("passed", 1, 2),
        Err(AppError::InvalidStateTransition("Failed 状態の検査のみ特採承認できます".to_string()))
    );
    assert_eq!(
        check_concession("passed", 3, 3),
        Err(AppError::InvalidStateTransition("Failed 状態の検査のみ特採承認できます".to_string()))
    );
}

#[test]
fn judging_twice_is_refused() {
    assert_eq!(check_not_judged("in_progress"), Ok(()));
    for s in ["passed", "failed", "concessionally_approved", "rejected"] {
        assert_eq!(check_not_judged(s), Err(AppError::AlreadyJudged));
    }
    assert_eq!(AppError::AlreadyJudged.status_code(), 409);
}

#[test]
fn rework_verification_needs_two_other_people() {
    let id = 0x123e4567e89b12d3a456426614174000u128;
    assert_eq!(check_rework_verifiers(1, 2, id, Some(3)), Ok(()));
    assert_eq!(check_rework_verifiers(1, 1, id, Some(3)), Err(AppError::TwoPersonIntegrityViolation));
    assert_eq!(check_rework_verifiers(1, 2, id, Some(1)), Err(AppError::TwoPersonIntegrityViolation));
    assert_eq!(
        check_rework_verifiers(1, 2, id, None),
        Err(AppError::NotFound("rework:123e4567-e89b-12d3-a456-426614174000".to_string()))
    );
}

#[test]
fn chain_tips() {
    let genesis = [7u8; 32];
    let hex: String = (0..32u8).map(|b| format!("{b:02x}")).collect();
    let want: Vec<u8> = (0..32).collect();
    assert_eq!(chain_tip(Some(&hex), genesis).to_vec(), want);
    assert_eq!(chain_tip(Some(&hex.to_uppercase()), genesis).to_vec(), want);
    assert_eq!(chain_tip(None, genesis), genesis);
    assert_eq!(chain_tip(Some("zz"), genesis), genesis);
    assert_eq!(chain_tip(Some("abcd"), genesis), genesis);
    assert_eq!(chain_tip(Some(&hex[..63]), genesis), genesis);
}

#[test]
fn two_person_integrity() {
    assert_eq!(check_two_person_integrity(1, 2), Ok(()));
    assert_eq!(check_two_person_integrity(7, 7), Err(AppError::TwoPersonIntegrityViolation));
}

#[test]
fn status_words() {
    assert_eq!(rework_status_after_verification(true), "verified");
    assert_eq!(rework_status_after_verification(false), "failed_verification");
    assert_eq!(acknowledgement_status(true), "resolved");
    assert_eq!(acknowledgement_status(false), "acknowledged");
}

#[test]
fn updates_that_touch_nothing_are_not_found() {
    assert_eq!(require_updated(1, "rework", 5), Ok(()));
    assert_eq!(
        require_updated(0, "rework", 0x123e4567e89b12d3a456426614174000),
        Err(AppError::NotFound("rework:123e4567-e89b-12d3-a456-426614174000".to_string()))
    );
}

#[test]
fn capa_updates() {
    assert_eq!(
        plan_capa_update("closed", Some("open"), None, "x"),
        Err(AppError::Conflict("closed 状態の CAPA は更新できません（ERR-BIZ-008）".to_string()))
    );
    assert_eq!(plan_capa_update("closed", None, None, "x").unwrap_err().status_code(), 409);
    let u = plan_capa_update("in_progress", Some("closed"), Some("retrain"), "old").unwrap();
    assert_eq!(u.status, "closed");
    assert_eq!(u.root_cause, "retrain");
    assert!(u.closes);
    let u = plan_capa_update("open", None, None, "old").unwrap();
    assert_eq!(u.status, "open");
    assert_eq!(u.root_cause, "old");
    assert!(!u.closes);
    let u = plan_capa_update("open", Some("pending_verification"), None, "old").unwrap();
    assert!(!u.closes);
    assert_eq!(
        plan_capa_update("CLOSED", Some("open"), None, "x"),
        Err(AppError::Conflict("closed 状態の CAPA は更新できません（ERR-BIZ-008）".to_string()))
    );
    let u = plan_capa_update("OPEN", Some("CLOSED"), None, "old").unwrap();
    assert!(u.closes);
    assert!(!plan_capa_update("open", Some("Closed"), None, "old").unwrap().closes);
}

#[test]
fn measurements_only_while_in_progress() {
    assert_eq!(wnav_core::quality::check_measurement_open("in_progress"), Ok(()));
    assert_eq!(
        wnav_core::quality::check_measurement_open("passed"),
        Err(AppError::InvalidStateTransition("InProgress 状態の検査にのみ測定値を追加できます".to_string()))
    );
}
