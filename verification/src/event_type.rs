//! Kinds of outbox events and their database names.
use vstd::prelude::*;

verus! {

/// Kind of an outbox event; its database name must match the table's CHECK constraint.
#[derive(Debug, Clone, Copy, PartialEq, Eq)]
pub enum OutboxEventType {
    /// 作業イベント（ステップ完了・作業開始等）
    WorkEvent,
    /// 電子サイン記録
    ElectronicSign,
    /// 証拠ファイル（写真・動画）
    EvidenceFile,
    /// 測定値記録
    Measurement,
    /// 作業中断
    Suspension,
    /// アンドン発報
    AndonAlert,
    /// 不適合記録
    Nonconformity,
    /// CAPA（是正・予防措置）
    Capa,
    /// 改善提案
    KaizenProposal,
    /// 受入検査
    IncomingInspection,
    /// 受入検査測定値
    IncomingInspectionMeasurement,
    /// 特採承認
    ConcessionApproval,
    /// リワーク
    Rework,
    /// 処置決定
    Disposition,
    /// リワーク検証
    ReworkVerification,
    /// リワーク済みロットラベル
    ReworkedLotLabel,
    /// 廃棄記録
    ScrapRecord,
    /// ベンダー返品
    ReturnToVendor,
}

/// The database name of an event kind.
pub open spec fn spec_event_type_name(t: OutboxEventType) -> Seq<char> {
    match t {
        OutboxEventType::WorkEvent => "work_event"@,
        OutboxEventType::ElectronicSign => "electronic_sign"@,
        OutboxEventType::EvidenceFile => "evidence_file"@,
        OutboxEventType::Measurement => "measurement"@,
        OutboxEventType::Suspension => "suspension"@,
        OutboxEventType::AndonAlert => "andon_alert"@,
        OutboxEventType::Nonconformity => "nonconformity"@,
        OutboxEventType::Capa => "capa"@,
        OutboxEventType::KaizenProposal => "kaizen_proposal"@,
        OutboxEventType::IncomingInspection => "incoming_inspection"@,
        OutboxEventType::IncomingInspectionMeasurement => "incoming_inspection_measurement"@,
        OutboxEventType::ConcessionApproval => "concession_approval"@,
        OutboxEventType::Rework => "rework"@,
        OutboxEventType::Disposition => "disposition"@,
        OutboxEventType::ReworkVerification => "rework_verification"@,
        OutboxEventType::ReworkedLotLabel => "reworked_lot_label"@,
        OutboxEventType::ScrapRecord => "scrap_record"@,
        OutboxEventType::ReturnToVendor => "return_to_vendor"@,
    }
}

impl OutboxEventType {
    /// The name stored in the database for this kind.
    pub fn as_str(&self) -> (res: &'static str)
        ensures
            res@ == spec_event_type_name(*self),
    {
        match self {
            OutboxEventType::WorkEvent => "work_event",
            OutboxEventType::ElectronicSign => "electronic_sign",
            OutboxEventType::EvidenceFile => "evidence_file",
            OutboxEventType::Measurement => "measurement",
            OutboxEventType::Suspension => "suspension",
            OutboxEventType::AndonAlert => "andon_alert",
            OutboxEventType::Nonconformity => "nonconformity",
            OutboxEventType::Capa => "capa",
            OutboxEventType::KaizenProposal => "kaizen_proposal",
            OutboxEventType::IncomingInspection => "incoming_inspection",
            OutboxEventType::IncomingInspectionMeasurement => "incoming_inspection_measurement",
            OutboxEventType::ConcessionApproval => "concession_approval",
            OutboxEventType::Rework => "rework",
            OutboxEventType::Disposition => "disposition",
            OutboxEventType::ReworkVerification => "rework_verification",
            OutboxEventType::ReworkedLotLabel => "reworked_lot_label",
            OutboxEventType::ScrapRecord => "scrap_record",
            OutboxEventType::ReturnToVendor => "return_to_vendor",
        }
    }
}

/// Distinct kinds have distinct database names, so the name identifies the kind.
pub proof fn law_event_type_names_distinct(a: OutboxEventType, b: OutboxEventType)
    requires
        spec_event_type_name(a) == spec_event_type_name(b),
    ensures
        a == b,
{
    reveal_strlit("work_event");
    reveal_strlit("electronic_sign");
    reveal_strlit("evidence_file");
    reveal_strlit("measurement");
    reveal_strlit("suspension");
    reveal_strlit("andon_alert");
    reveal_strlit("nonconformity");
    reveal_strlit("capa");
    reveal_strlit("kaizen_proposal");
    reveal_strlit("incoming_inspection");
    reveal_strlit("incoming_inspection_measurement");
    reveal_strlit("concession_approval");
    reveal_strlit("rework");
    reveal_strlit("disposition");
    reveal_strlit("rework_verification");
    reveal_strlit("reworked_lot_label");
    reveal_strlit("scrap_record");
    reveal_strlit("return_to_vendor");
    if a != b {
        match a {
            OutboxEventType::WorkEvent => {
                match b {
                    OutboxEventType::ElectronicSign => assert("work_event"@[0] == 'w' && "electronic_sign"@[0] == 'e'),
                    OutboxEventType::EvidenceFile => assert("work_event"@[0] == 'w' && "evidence_file"@[0] == 'e'),
                    OutboxEventType::Measurement => assert("work_event"@[0] == 'w' && "measurement"@[0] == 'm'),
                    OutboxEventType::Suspension => assert("work_event"@[0] == 'w' && "suspension"@[0] == 's'),
                    OutboxEventType::AndonAlert => assert("work_event"@[0] == 'w' && "andon_alert"@[0] == 'a'),
                    OutboxEventType::Nonconformity => assert("work_event"@[0] == 'w' && "nonconformity"@[0] == 'n'),
                    OutboxEventType::Capa => assert("work_event"@[0] == 'w' && "capa"@[0] == 'c'),
                    OutboxEventType::KaizenProposal => assert("work_event"@[0] == 'w' && "kaizen_proposal"@[0] == 'k'),
                    OutboxEventType::IncomingInspection => assert("work_event"@[0] == 'w' && "incoming_inspection"@[0] == 'i'),
                    OutboxEventType::IncomingInspectionMeasurement => assert("work_event"@[0] == 'w' && "incoming_inspection_measurement"@[0] == 'i'),
                    OutboxEventType::ConcessionApproval => assert("work_event"@[0] == 'w' && "concession_approval"@[0] == 'c'),
                    OutboxEventType::Rework => assert("work_event"@[0] == 'w' && "rework"@[0] == 'r'),
                    OutboxEventType::Disposition => assert("work_event"@[0] == 'w' && "disposition"@[0] == 'd'),
                    OutboxEventType::ReworkVerification => assert("work_event"@[0] == 'w' && "rework_verification"@[0] == 'r'),
                    OutboxEventType::ReworkedLotLabel => assert("work_event"@[0] == 'w' && "reworked_lot_label"@[0] == 'r'),
                    OutboxEventType::ScrapRecord => assert("work_event"@[0] == 'w' && "scrap_record"@[0] == 's'),
                    OutboxEventType::ReturnToVendor => assert("work_event"@[0] == 'w' && "return_to_vendor"@[0] == 'r'),
                    _ => {},
                }
            },
            OutboxEventType::ElectronicSign => {
                match b {
                    OutboxEventType::WorkEvent => assert("electronic_sign"@[0] == 'e' && "work_event"@[0] == 'w'),
                    OutboxEventType::EvidenceFile => assert("electronic_sign"@[1] == 'l' && "evidence_file"@[1] == 'v'),
                    OutboxEventType::Measurement => assert("electronic_sign"@[0] == 'e' && "measurement"@[0] == 'm'),
                    OutboxEventType::Suspension => assert("electronic_sign"@[0] == 'e' && "suspension"@[0] == 's'),
                    OutboxEventType::AndonAlert => assert("electronic_sign"@[0] == 'e' && "andon_alert"@[0] == 'a'),
                    OutboxEventType::Nonconformity => assert("electronic_sign"@[0] == 'e' && "nonconformity"@[0] == 'n'),
                    OutboxEventType::Capa => assert("electronic_sign"@[0] == 'e' && "capa"@[0] == 'c'),
                    OutboxEventType::KaizenProposal => assert("electronic_sign"@[0] == 'e' && "kaizen_proposal"@[0] == 'k'),
                    OutboxEventType::IncomingInspection => assert("electronic_sign"@[0] == 'e' && "incoming_inspection"@[0] == 'i'),
                    OutboxEventType::IncomingInspectionMeasurement => assert("electronic_sign"@[0] == 'e' && "incoming_inspection_measurement"@[0] == 'i'),
                    OutboxEventType::ConcessionApproval => assert("electronic_sign"@[0] == 'e' && "concession_approval"@[0] == 'c'),
                    OutboxEventType::Rework => assert("electronic_sign"@[0] == 'e' && "rework"@[0] == 'r'),
                    OutboxEventType::Disposition => assert("electronic_sign"@[0] == 'e' && "disposition"@[0] == 'd'),
                    OutboxEventType::ReworkVerification => assert("electronic_sign"@[0] == 'e' && "rework_verification"@[0] == 'r'),
                    OutboxEventType::ReworkedLotLabel => assert("electronic_sign"@[0] == 'e' && "reworked_lot_label"@[0] == 'r'),
                    OutboxEventType::ScrapRecord => assert("electronic_sign"@[0] == 'e' && "scrap_record"@[0] == 's'),
                    OutboxEventType::ReturnToVendor => assert("electronic_sign"@[0] == 'e' && "return_to_vendor"@[0] == 'r'),
                    _ => {},
                }
            },
            OutboxEventType::EvidenceFile => {
                match b {
                    OutboxEventType::WorkEvent => assert("evidence_file"@[0] == 'e' && "work_event"@[0] == 'w'),
                    OutboxEventType::ElectronicSign => assert("evidence_file"@[1] == 'v' && "electronic_sign"@[1] == 'l'),
                    OutboxEventType::Measurement => assert("evidence_file"@[0] == 'e' && "measurement"@[0] == 'm'),
                    OutboxEventType::Suspension => assert("evidence_file"@[0] == 'e' && "suspension"@[0] == 's'),
                    OutboxEventType::AndonAlert => assert("evidence_file"@[0] == 'e' && "andon_alert"@[0] == 'a'),
                    OutboxEventType::Nonconformity => assert("evidence_file"@[0] == 'e' && "nonconformity"@[0] == 'n'),
                    OutboxEventType::Capa => assert("evidence_file"@[0] == 'e' && "capa"@[0] == 'c'),
                    OutboxEventType::KaizenProposal => assert("evidence_file"@[0] == 'e' && "kaizen_proposal"@[0] == 'k'),
                    OutboxEventType::IncomingInspection => assert("evidence_file"@[0] == 'e' && "incoming_inspection"@[0] == 'i'),
                    OutboxEventType::IncomingInspectionMeasurement => assert("evidence_file"@[0] == 'e' && "incoming_inspection_measurement"@[0] == 'i'),
                    OutboxEventType::ConcessionApproval => assert("evidence_file"@[0] == 'e' && "concession_approval"@[0] == 'c'),
                    OutboxEventType::Rework => assert("evidence_file"@[0] == 'e' && "rework"@[0] == 'r'),
                    OutboxEventType::Disposition => assert("evidence_file"@[0] == 'e' && "disposition"@[0] == 'd'),
                    OutboxEventType::ReworkVerification => assert("evidence_file"@[0] == 'e' && "rework_verification"@[0] == 'r'),
                    OutboxEventType::ReworkedLotLabel => assert("evidence_file"@[0] == 'e' && "reworked_lot_label"@[0] == 'r'),
                    OutboxEventType::ScrapRecord => assert("evidence_file"@[0] == 'e' && "scrap_record"@[0] == 's'),
                    OutboxEventType::ReturnToVendor => assert("evidence_file"@[0] == 'e' && "return_to_vendor"@[0] == 'r'),
                    _ => {},
                }
            },
            OutboxEventType::Measurement => {
                match b {
                    OutboxEventType::WorkEvent => assert("measurement"@[0] == 'm' && "work_event"@[0] == 'w'),
                    OutboxEventType::ElectronicSign => assert("measurement"@[0] == 'm' && "electronic_sign"@[0] == 'e'),
                    OutboxEventType::EvidenceFile => assert("measurement"@[0] == 'm' && "evidence_file"@[0] == 'e'),
                    OutboxEventType::Suspension => assert("measurement"@[0] == 'm' && "suspension"@[0] == 's'),
                    OutboxEventType::AndonAlert => assert("measurement"@[0] == 'm' && "andon_alert"@[0] == 'a'),
                    OutboxEventType::Nonconformity => assert("measurement"@[0] == 'm' && "nonconformity"@[0] == 'n'),
                    OutboxEventType::Capa => assert("measurement"@[0] == 'm' && "capa"@[0] == 'c'),
                    OutboxEventType::KaizenProposal => assert("measurement"@[0] == 'm' && "kaizen_proposal"@[0] == 'k'),
                    OutboxEventType::IncomingInspection => assert("measurement"@[0] == 'm' && "incoming_inspection"@[0] == 'i'),
                    OutboxEventType::IncomingInspectionMeasurement => assert("measurement"@[0] == 'm' && "incoming_inspection_measurement"@[0] == 'i'),
                    OutboxEventType::ConcessionApproval => assert("measurement"@[0] == 'm' && "concession_approval"@[0] == 'c'),
                    OutboxEventType::Rework => assert("measurement"@[0] == 'm' && "rework"@[0] == 'r'),
                    OutboxEventType::Disposition => assert("measurement"@[0] == 'm' && "disposition"@[0] == 'd'),
                    OutboxEventType::ReworkVerification => assert("measurement"@[0] == 'm' && "rework_verification"@[0] == 'r'),
                    OutboxEventType::ReworkedLotLabel => assert("measurement"@[0] == 'm' && "reworked_lot_label"@[0] == 'r'),
                    OutboxEventType::ScrapRecord => assert("measurement"@[0] == 'm' && "scrap_record"@[0] == 's'),
                    OutboxEventType::ReturnToVendor => assert("measurement"@[0] == 'm' && "return_to_vendor"@[0] == 'r'),
                    _ => {},
                }
            },
            OutboxEventType::Suspension => {
                match b {
                    OutboxEventType::WorkEvent => assert("suspension"@[0] == 's' && "work_event"@[0] == 'w'),
                    OutboxEventType::ElectronicSign => assert("suspension"@[0] == 's' && "electronic_sign"@[0] == 'e'),
                    OutboxEventType::EvidenceFile => assert("suspension"@[0] == 's' && "evidence_file"@[0] == 'e'),
                    OutboxEventType::Measurement => assert("suspension"@[0] == 's' && "measurement"@[0] == 'm'),
                    OutboxEventType::AndonAlert => assert("suspension"@[0] == 's' && "andon_alert"@[0] == 'a'),
                    OutboxEventType::Nonconformity => assert("suspension"@[0] == 's' && "nonconformity"@[0] == 'n'),
                    OutboxEventType::Capa => assert("suspension"@[0] == 's' && "capa"@[0] == 'c'),
                    OutboxEventType::KaizenProposal => assert("suspension"@[0] == 's' && "kaizen_proposal"@[0] == 'k'),
                    OutboxEventType::IncomingInspection => assert("suspension"@[0] == 's' && "incoming_inspection"@[0] == 'i'),
                    OutboxEventType::IncomingInspectionMeasurement => assert("suspension"@[0] == 's' && "incoming_inspection_measurement"@[0] == 'i'),
                    OutboxEventType::ConcessionApproval => assert("suspension"@[0] == 's' && "concession_approval"@[0] == 'c'),
                    OutboxEventType::Rework => assert("suspension"@[0] == 's' && "rework"@[0] == 'r'),
                    OutboxEventType::Disposition => assert("suspension"@[0] == 's' && "disposition"@[0] == 'd'),
                    OutboxEventType::ReworkVerification => assert("suspension"@[0] == 's' && "rework_verification"@[0] == 'r'),
                    OutboxEventType::ReworkedLotLabel => assert("suspension"@[0] == 's' && "reworked_lot_label"@[0] == 'r'),
                    OutboxEventType::ScrapRecord => assert("suspension"@[1] == 'u' && "scrap_record"@[1] == 'c'),
                    OutboxEventType::ReturnToVendor => assert("suspension"@[0] == 's' && "return_to_vendor"@[0] == 'r'),
                    _ => {},
                }
            },
            OutboxEventType::AndonAlert => {
                match b {
                    OutboxEventType::WorkEvent => assert("andon_alert"@[0] == 'a' && "work_event"@[0] == 'w'),
                    OutboxEventType::ElectronicSign => assert("andon_alert"@[0] == 'a' && "electronic_sign"@[0] == 'e'),
                    OutboxEventType::EvidenceFile => assert("andon_alert"@[0] == 'a' && "evidence_file"@[0] == 'e'),
                    OutboxEventType::Measurement => assert("andon_alert"@[0] == 'a' && "measurement"@[0] == 'm'),
                    OutboxEventType::Suspension => assert("andon_alert"@[0] == 'a' && "suspension"@[0] == 's'),
                    OutboxEventType::Nonconformity => assert("andon_alert"@[0] == 'a' && "nonconformity"@[0] == 'n'),
                    OutboxEventType::Capa => assert("andon_alert"@[0] == 'a' && "capa"@[0] == 'c'),
                    OutboxEventType::KaizenProposal => assert("andon_alert"@[0] == 'a' && "kaizen_proposal"@[0] == 'k'),
                    OutboxEventType::IncomingInspection => assert("andon_alert"@[0] == 'a' && "incoming_inspection"@[0] == 'i'),
                    OutboxEventType::IncomingInspectionMeasurement => assert("andon_alert"@[0] == 'a' && "incoming_inspection_measurement"@[0] == 'i'),
                    OutboxEventType::ConcessionApproval => assert("andon_alert"@[0] == 'a' && "concession_approval"@[0] == 'c'),
                    OutboxEventType::Rework => assert("andon_alert"@[0] == 'a' && "rework"@[0] == 'r'),
                    OutboxEventType::Disposition => assert("andon_alert"@[0] == 'a' && "disposition"@[0] == 'd'),
                    OutboxEventType::ReworkVerification => assert("andon_alert"@[0] == 'a' && "rework_verification"@[0] == 'r'),
                    OutboxEventType::ReworkedLotLabel => assert("andon_alert"@[0] == 'a' && "reworked_lot_label"@[0] == 'r'),
                    OutboxEventType::ScrapRecord => assert("andon_alert"@[0] == 'a' && "scrap_record"@[0] == 's'),
                    OutboxEventType::ReturnToVendor => assert("andon_alert"@[0] == 'a' && "return_to_vendor"@[0] == 'r'),
                    _ => {},
                }
            },
            OutboxEventType::Nonconformity => {
                match b {
                    OutboxEventType::WorkEvent => assert("nonconformity"@[0] == 'n' && "work_event"@[0] == 'w'),
                    OutboxEventType::ElectronicSign => assert("nonconformity"@[0] == 'n' && "electronic_sign"@[0] == 'e'),
                    OutboxEventType::EvidenceFile => assert("nonconformity"@[0] == 'n' && "evidence_file"@[0] == 'e'),
                    OutboxEventType::Measurement => assert("nonconformity"@[0] == 'n' && "measurement"@[0] == 'm'),
                    OutboxEventType::Suspension => assert("nonconformity"@[0] == 'n' && "suspension"@[0] == 's'),
                    OutboxEventType::AndonAlert => assert("nonconformity"@[0] == 'n' && "andon_alert"@[0] == 'a'),
                    OutboxEventType::Capa => assert("nonconformity"@[0] == 'n' && "capa"@[0] == 'c'),
                    OutboxEventType::KaizenProposal => assert("nonconformity"@[0] == 'n' && "kaizen_proposal"@[0] == 'k'),
                    OutboxEventType::IncomingInspection => assert("nonconformity"@[0] == 'n' && "incoming_inspection"@[0] == 'i'),
                    OutboxEventType::IncomingInspectionMeasurement => assert("nonconformity"@[0] == 'n' && "incoming_inspection_measurement"@[0] == 'i'),
                    OutboxEventType::ConcessionApproval => assert("nonconformity"@[0] == 'n' && "concession_approval"@[0] == 'c'),
                    OutboxEventType::Rework => assert("nonconformity"@[0] == 'n' && "rework"@[0] == 'r'),
                    OutboxEventType::Disposition => assert("nonconformity"@[0] == 'n' && "disposition"@[0] == 'd'),
                    OutboxEventType::ReworkVerification => assert("nonconformity"@[0] == 'n' && "rework_verification"@[0] == 'r'),
                    OutboxEventType::ReworkedLotLabel => assert("nonconformity"@[0] == 'n' && "reworked_lot_label"@[0] == 'r'),
                    OutboxEventType::ScrapRecord => assert("nonconformity"@[0] == 'n' && "scrap_record"@[0] == 's'),
                    OutboxEventType::ReturnToVendor => assert("nonconformity"@[0] == 'n' && "return_to_vendor"@[0] == 'r'),
                    _ => {},
                }
            },
            OutboxEventType::Capa => {
                match b {
                    OutboxEventType::WorkEvent => assert("capa"@[0] == 'c' && "work_event"@[0] == 'w'),
                    OutboxEventType::ElectronicSign => assert("capa"@[0] == 'c' && "electronic_sign"@[0] == 'e'),
                    OutboxEventType::EvidenceFile => assert("capa"@[0] == 'c' && "evidence_file"@[0] == 'e'),
                    OutboxEventType::Measurement => assert("capa"@[0] == 'c' && "measurement"@[0] == 'm'),
                    OutboxEventType::Suspension => assert("capa"@[0] == 'c' && "suspension"@[0] == 's'),
                    OutboxEventType::AndonAlert => assert("capa"@[0] == 'c' && "andon_alert"@[0] == 'a'),
                    OutboxEventType::Nonconformity => assert("capa"@[0] == 'c' && "nonconformity"@[0] == 'n'),
                    OutboxEventType::KaizenProposal => assert("capa"@[0] == 'c' && "kaizen_proposal"@[0] == 'k'),
                    OutboxEventType::IncomingInspection => assert("capa"@[0] == 'c' && "incoming_inspection"@[0] == 'i'),
                    OutboxEventType::IncomingInspectionMeasurement => assert("capa"@[0] == 'c' && "incoming_inspection_measurement"@[0] == 'i'),
                    OutboxEventType::ConcessionApproval => assert("capa"@[1] == 'a' && "concession_approval"@[1] == 'o'),
                    OutboxEventType::Rework => assert("capa"@[0] == 'c' && "rework"@[0] == 'r'),
                    OutboxEventType::Disposition => assert("capa"@[0] == 'c' && "disposition"@[0] == 'd'),
                    OutboxEventType::ReworkVerification => assert("capa"@[0] == 'c' && "rework_verification"@[0] == 'r'),
                    OutboxEventType::ReworkedLotLabel => assert("capa"@[0] == 'c' && "reworked_lot_label"@[0] == 'r'),
                    OutboxEventType::ScrapRecord => assert("capa"@[0] == 'c' && "scrap_record"@[0] == 's'),
                    OutboxEventType::ReturnToVendor => assert("capa"@[0] == 'c' && "return_to_vendor"@[0] == 'r'),
                    _ => {},
                }
            },
            OutboxEventType::KaizenProposal => {
                match b {
                    OutboxEventType::WorkEvent => assert("kaizen_proposal"@[0] == 'k' && "work_event"@[0] == 'w'),
                    OutboxEventType::ElectronicSign => assert("kaizen_proposal"@[0] == 'k' && "electronic_sign"@[0] == 'e'),
                    OutboxEventType::EvidenceFile => assert("kaizen_proposal"@[0] == 'k' && "evidence_file"@[0] == 'e'),
                    OutboxEventType::Measurement => assert("kaizen_proposal"@[0] == 'k' && "measurement"@[0] == 'm'),
                    OutboxEventType::Suspension => assert("kaizen_proposal"@[0] == 'k' && "suspension"@[0] == 's'),
                    OutboxEventType::AndonAlert => assert("kaizen_proposal"@[0] == 'k' && "andon_alert"@[0] == 'a'),
                    OutboxEventType::Nonconformity => assert("kaizen_proposal"@[0] == 'k' && "nonconformity"@[0] == 'n'),
                    OutboxEventType::Capa => assert("kaizen_proposal"@[0] == 'k' && "capa"@[0] == 'c'),
                    OutboxEventType::IncomingInspection => assert("kaizen_proposal"@[0] == 'k' && "incoming_inspection"@[0] == 'i'),
                    OutboxEventType::IncomingInspectionMeasurement => assert("kaizen_proposal"@[0] == 'k' && "incoming_inspection_measurement"@[0] == 'i'),
                    OutboxEventType::ConcessionApproval => assert("kaizen_proposal"@[0] == 'k' && "concession_approval"@[0] == 'c'),
                    OutboxEventType::Rework => assert("kaizen_proposal"@[0] == 'k' && "rework"@[0] == 'r'),
                    OutboxEventType::Disposition => assert("kaizen_proposal"@[0] == 'k' && "disposition"@[0] == 'd'),
                    OutboxEventType::ReworkVerification => assert("kaizen_proposal"@[0] == 'k' && "rework_verification"@[0] == 'r'),
                    OutboxEventType::ReworkedLotLabel => assert("kaizen_proposal"@[0] == 'k' && "reworked_lot_label"@[0] == 'r'),
                    OutboxEventType::ScrapRecord => assert("kaizen_proposal"@[0] == 'k' && "scrap_record"@[0] == 's'),
                    OutboxEventType::ReturnToVendor => assert("kaizen_proposal"@[0] == 'k' && "return_to_vendor"@[0] == 'r'),
                    _ => {},
                }
            },
            OutboxEventType::IncomingInspection => {
                match b {
                    OutboxEventType::WorkEvent => assert("incoming_inspection"@[0] == 'i' && "work_event"@[0] == 'w'),
                    OutboxEventType::ElectronicSign => assert("incoming_inspection"@[0] == 'i' && "electronic_sign"@[0] == 'e'),
                    OutboxEventType::EvidenceFile => assert("incoming_inspection"@[0] == 'i' && "evidence_file"@[0] == 'e'),
                    OutboxEventType::Measurement => assert("incoming_inspection"@[0] == 'i' && "measurement"@[0] == 'm'),
                    OutboxEventType::Suspension => assert("incoming_inspection"@[0] == 'i' && "suspension"@[0] == 's'),
                    OutboxEventType::AndonAlert => assert("incoming_inspection"@[0] == 'i' && "andon_alert"@[0] == 'a'),
                    OutboxEventType::Nonconformity => assert("incoming_inspection"@[0] == 'i' && "nonconformity"@[0] == 'n'),
                    OutboxEventType::Capa => assert("incoming_inspection"@[0] == 'i' && "capa"@[0] == 'c'),
                    OutboxEventType::KaizenProposal => assert("incoming_inspection"@[0] == 'i' && "kaizen_proposal"@[0] == 'k'),
                    OutboxEventType::IncomingInspectionMeasurement => assert("incoming_inspection"@.len() == 19 && "incoming_inspection_measurement"@.len() == 31),
                    OutboxEventType::ConcessionApproval => assert("incoming_inspection"@[0] == 'i' && "concession_approval"@[0] == 'c'),
                    OutboxEventType::Rework => assert("incoming_inspection"@[0] == 'i' && "rework"@[0] == 'r'),
                    OutboxEventType::Disposition => assert("incoming_inspection"@[0] == 'i' && "disposition"@[0] == 'd'),
                    OutboxEventType::ReworkVerification => assert("incoming_inspection"@[0] == 'i' && "rework_verification"@[0] == 'r'),
                    OutboxEventType::ReworkedLotLabel => assert("incoming_inspection"@[0] == 'i' && "reworked_lot_label"@[0] == 'r'),
                    OutboxEventType::ScrapRecord => assert("incoming_inspection"@[0] == 'i' && "scrap_record"@[0] == 's'),
                    OutboxEventType::ReturnToVendor => assert("incoming_inspection"@[0] == 'i' && "return_to_vendor"@[0] == 'r'),
                    _ => {},
                }
            },
            OutboxEventType::IncomingInspectionMeasurement => {
                match b {
                    OutboxEventType::WorkEvent => assert("incoming_inspection_measurement"@[0] == 'i' && "work_event"@[0] == 'w'),
                    OutboxEventType::ElectronicSign => assert("incoming_inspection_measurement"@[0] == 'i' && "electronic_sign"@[0] == 'e'),
                    OutboxEventType::EvidenceFile => assert("incoming_inspection_measurement"@[0] == 'i' && "evidence_file"@[0] == 'e'),
                    OutboxEventType::Measurement => assert("incoming_inspection_measurement"@[0] == 'i' && "measurement"@[0] == 'm'),
                    OutboxEventType::Suspension => assert("incoming_inspection_measurement"@[0] == 'i' && "suspension"@[0] == 's'),
                    OutboxEventType::AndonAlert => assert("incoming_inspection_measurement"@[0] == 'i' && "andon_alert"@[0] == 'a'),
                    OutboxEventType::Nonconformity => assert("incoming_inspection_measurement"@[0] == 'i' && "nonconformity"@[0] == 'n'),
                    OutboxEventType::Capa => assert("incoming_inspection_measurement"@[0] == 'i' && "capa"@[0] == 'c'),
                    OutboxEventType::KaizenProposal => assert("incoming_inspection_measurement"@[0] == 'i' && "kaizen_proposal"@[0] == 'k'),
                    OutboxEventType::IncomingInspection => assert("incoming_inspection_measurement"@.len() == 31 && "incoming_inspection"@.len() == 19),
                    OutboxEventType::ConcessionApproval => assert("incoming_inspection_measurement"@[0] == 'i' && "concession_approval"@[0] == 'c'),
                    OutboxEventType::Rework => assert("incoming_inspection_measurement"@[0] == 'i' && "rework"@[0] == 'r'),
                    OutboxEventType::Disposition => assert("incoming_inspection_measurement"@[0] == 'i' && "disposition"@[0] == 'd'),
                    OutboxEventType::ReworkVerification => assert("incoming_inspection_measurement"@[0] == 'i' && "rework_verification"@[0] == 'r'),
                    OutboxEventType::ReworkedLotLabel => assert("incoming_inspection_measurement"@[0] == 'i' && "reworked_lot_label"@[0] == 'r'),
                    OutboxEventType::ScrapRecord => assert("incoming_inspection_measurement"@[0] == 'i' && "scrap_record"@[0] == 's'),
                    OutboxEventType::ReturnToVendor => assert("incoming_inspection_measurement"@[0] == 'i' && "return_to_vendor"@[0] == 'r'),
                    _ => {},
                }
            },
            OutboxEventType::ConcessionApproval => {
                match b {
                    OutboxEventType::WorkEvent => assert("concession_approval"@[0] == 'c' && "work_event"@[0] == 'w'),
                    OutboxEventType::ElectronicSign => assert("concession_approval"@[0] == 'c' && "electronic_sign"@[0] == 'e'),
                    OutboxEventType::EvidenceFile => assert("concession_approval"@[0] == 'c' && "evidence_file"@[0] == 'e'),
                    OutboxEventType::Measurement => assert("concession_approval"@[0] == 'c' && "measurement"@[0] == 'm'),
                    OutboxEventType::Suspension => assert("concession_approval"@[0] == 'c' && "suspension"@[0] == 's'),
                    OutboxEventType::AndonAlert => assert("concession_approval"@[0] == 'c' && "andon_alert"@[0] == 'a'),
                    OutboxEventType::Nonconformity => assert("concession_approval"@[0] == 'c' && "nonconformity"@[0] == 'n'),
                    OutboxEventType::Capa => assert("concession_approval"@[1] == 'o' && "capa"@[1] == 'a'),
                    OutboxEventType::KaizenProposal => assert("concession_approval"@[0] == 'c' && "kaizen_proposal"@[0] == 'k'),
                    OutboxEventType::IncomingInspection => assert("concession_approval"@[0] == 'c' && "incoming_inspection"@[0] == 'i'),
                    OutboxEventType::IncomingInspectionMeasurement => assert("concession_approval"@[0] == 'c' && "incoming_inspection_measurement"@[0] == 'i'),
                    OutboxEventType::Rework => assert("concession_approval"@[0] == 'c' && "rework"@[0] == 'r'),
                    OutboxEventType::Disposition => assert("concession_approval"@[0] == 'c' && "disposition"@[0] == 'd'),
                    OutboxEventType::ReworkVerification => assert("concession_approval"@[0] == 'c' && "rework_verification"@[0] == 'r'),
                    OutboxEventType::ReworkedLotLabel => assert("concession_approval"@[0] == 'c' && "reworked_lot_label"@[0] == 'r'),
                    OutboxEventType::ScrapRecord => assert("concession_approval"@[0] == 'c' && "scrap_record"@[0] == 's'),
                    OutboxEventType::ReturnToVendor => assert("concession_approval"@[0] == 'c' && "return_to_vendor"@[0] == 'r'),
                    _ => {},
                }
            },
            OutboxEventType::Rework => {
                match b {
                    OutboxEventType::WorkEvent => assert("rework"@[0] == 'r' && "work_event"@[0] == 'w'),
                    OutboxEventType::ElectronicSign => assert("rework"@[0] == 'r' && "electronic_sign"@[0] == 'e'),
                    OutboxEventType::EvidenceFile => assert("rework"@[0] == 'r' && "evidence_file"@[0] == 'e'),
                    OutboxEventType::Measurement => assert("rework"@[0] == 'r' && "measurement"@[0] == 'm'),
                    OutboxEventType::Suspension => assert("rework"@[0] == 'r' && "suspension"@[0] == 's'),
                    OutboxEventType::AndonAlert => assert("rework"@[0] == 'r' && "andon_alert"@[0] == 'a'),
                    OutboxEventType::Nonconformity => assert("rework"@[0] == 'r' && "nonconformity"@[0] == 'n'),
                    OutboxEventType::Capa => assert("rework"@[0] == 'r' && "capa"@[0] == 'c'),
                    OutboxEventType::KaizenProposal => assert("rework"@[0] == 'r' && "kaizen_proposal"@[0] == 'k'),
                    OutboxEventType::IncomingInspection => assert("rework"@[0] == 'r' && "incoming_inspection"@[0] == 'i'),
                    OutboxEventType::IncomingInspectionMeasurement => assert("rework"@[0] == 'r' && "incoming_inspection_measurement"@[0] == 'i'),
                    OutboxEventType::ConcessionApproval => assert("rework"@[0] == 'r' && "concession_approval"@[0] == 'c'),
                    OutboxEventType::Disposition => assert("rework"@[0] == 'r' && "disposition"@[0] == 'd'),
                    OutboxEventType::ReworkVerification => assert("rework"@.len() == 6 && "rework_verification"@.len() == 19),
                    OutboxEventType::ReworkedLotLabel => assert("rework"@.len() == 6 && "reworked_lot_label"@.len() == 18),
                    OutboxEventType::ScrapRecord => assert("rework"@[0] == 'r' && "scrap_record"@[0] == 's'),
                    OutboxEventType::ReturnToVendor => assert("rework"@[2] == 'w' && "return_to_vendor"@[2] == 't'),
                    _ => {},
                }
            },
            OutboxEventType::Disposition => {
                match b {
                    OutboxEventType::WorkEvent => assert("disposition"@[0] == 'd' && "work_event"@[0] == 'w'),
                    OutboxEventType::ElectronicSign => assert("disposition"@[0] == 'd' && "electronic_sign"@[0] == 'e'),
                    OutboxEventType::EvidenceFile => assert("disposition"@[0] == 'd' && "evidence_file"@[0] == 'e'),
                    OutboxEventType::Measurement => assert("disposition"@[0] == 'd' && "measurement"@[0] == 'm'),
                    OutboxEventType::Suspension => assert("disposition"@[0] == 'd' && "suspension"@[0] == 's'),
                    OutboxEventType::AndonAlert => assert("disposition"@[0] == 'd' && "andon_alert"@[0] == 'a'),
                    OutboxEventType::Nonconformity => assert("disposition"@[0] == 'd' && "nonconformity"@[0] == 'n'),
                    OutboxEventType::Capa => assert("disposition"@[0] == 'd' && "capa"@[0] == 'c'),
                    OutboxEventType::KaizenProposal => assert("disposition"@[0] == 'd' && "kaizen_proposal"@[0] == 'k'),
                    OutboxEventType::IncomingInspection => assert("disposition"@[0] == 'd' && "incoming_inspection"@[0] == 'i'),
                    OutboxEventType::IncomingInspectionMeasurement => assert("disposition"@[0] == 'd' && "incoming_inspection_measurement"@[0] == 'i'),
                    OutboxEventType::ConcessionApproval => assert("disposition"@[0] == 'd' && "concession_approval"@[0] == 'c'),
                    OutboxEventType::Rework => assert("disposition"@[0] == 'd' && "rework"@[0] == 'r'),
                    OutboxEventType::ReworkVerification => assert("disposition"@[0] == 'd' && "rework_verification"@[0] == 'r'),
                    OutboxEventType::ReworkedLotLabel => assert("disposition"@[0] == 'd' && "reworked_lot_label"@[0] == 'r'),
                    OutboxEventType::ScrapRecord => assert("disposition"@[0] == 'd' && "scrap_record"@[0] == 's'),
                    OutboxEventType::ReturnToVendor => assert("disposition"@[0] == 'd' && "return_to_vendor"@[0] == 'r'),
                    _ => {},
                }
            },
            OutboxEventType::ReworkVerification => {
                match b {
                    OutboxEventType::WorkEvent => assert("rework_verification"@[0] == 'r' && "work_event"@[0] == 'w'),
                    OutboxEventType::ElectronicSign => assert("rework_verification"@[0] == 'r' && "electronic_sign"@[0] == 'e'),
                    OutboxEventType::EvidenceFile => assert("rework_verification"@[0] == 'r' && "evidence_file"@[0] == 'e'),
                    OutboxEventType::Measurement => assert("rework_verification"@[0] == 'r' && "measurement"@[0] == 'm'),
                    OutboxEventType::Suspension => assert("rework_verification"@[0] == 'r' && "suspension"@[0] == 's'),
                    OutboxEventType::AndonAlert => assert("rework_verification"@[0] == 'r' && "andon_alert"@[0] == 'a'),
                    OutboxEventType::Nonconformity => assert("rework_verification"@[0] == 'r' && "nonconformity"@[0] == 'n'),
                    OutboxEventType::Capa => assert("rework_verification"@[0] == 'r' && "capa"@[0] == 'c'),
                    OutboxEventType::KaizenProposal => assert("rework_verification"@[0] == 'r' && "kaizen_proposal"@[0] == 'k'),
                    OutboxEventType::IncomingInspection => assert("rework_verification"@[0] == 'r' && "incoming_inspection"@[0] == 'i'),
                    OutboxEventType::IncomingInspectionMeasurement => assert("rework_verification"@[0] == 'r' && "incoming_inspection_measurement"@[0] == 'i'),
                    OutboxEventType::ConcessionApproval => assert("rework_verification"@[0] == 'r' && "concession_approval"@[0] == 'c'),
                    OutboxEventType::Rework => assert("rework_verification"@.len() == 19 && "rework"@.len() == 6),
                    OutboxEventType::Disposition => assert("rework_verification"@[0] == 'r' && "disposition"@[0] == 'd'),
                    OutboxEventType::ReworkedLotLabel => assert("rework_verification"@[6] == '_' && "reworked_lot_label"@[6] == 'e'),
                    OutboxEventType::ScrapRecord => assert("rework_verification"@[0] == 'r' && "scrap_record"@[0] == 's'),
                    OutboxEventType::ReturnToVendor => assert("rework_verification"@[2] == 'w' && "return_to_vendor"@[2] == 't'),
                    _ => {},
                }
            },
            OutboxEventType::ReworkedLotLabel => {
                match b {
                    OutboxEventType::WorkEvent => assert("reworked_lot_label"@[0] == 'r' && "work_event"@[0] == 'w'),
                    OutboxEventType::ElectronicSign => assert("reworked_lot_label"@[0] == 'r' && "electronic_sign"@[0] == 'e'),
                    OutboxEventType::EvidenceFile => assert("reworked_lot_label"@[0] == 'r' && "evidence_file"@[0] == 'e'),
                    OutboxEventType::Measurement => assert("reworked_lot_label"@[0] == 'r' && "measurement"@[0] == 'm'),
                    OutboxEventType::Suspension => assert("reworked_lot_label"@[0] == 'r' && "suspension"@[0] == 's'),
                    OutboxEventType::AndonAlert => assert("reworked_lot_label"@[0] == 'r' && "andon_alert"@[0] == 'a'),
                    OutboxEventType::Nonconformity => assert("reworked_lot_label"@[0] == 'r' && "nonconformity"@[0] == 'n'),
                    OutboxEventType::Capa => assert("reworked_lot_label"@[0] == 'r' && "capa"@[0] == 'c'),
                    OutboxEventType::KaizenProposal => assert("reworked_lot_label"@[0] == 'r' && "kaizen_proposal"@[0] == 'k'),
                    OutboxEventType::IncomingInspection => assert("reworked_lot_label"@[0] == 'r' && "incoming_inspection"@[0] == 'i'),
                    OutboxEventType::IncomingInspectionMeasurement => assert("reworked_lot_label"@[0] == 'r' && "incoming_inspection_measurement"@[0] == 'i'),
                    OutboxEventType::ConcessionApproval => assert("reworked_lot_label"@[0] == 'r' && "concession_approval"@[0] == 'c'),
                    OutboxEventType::Rework => assert("reworked_lot_label"@.len() == 18 && "rework"@.len() == 6),
                    OutboxEventType::Disposition => assert("reworked_lot_label"@[0] == 'r' && "disposition"@[0] == 'd'),
                    OutboxEventType::ReworkVerification => assert("reworked_lot_label"@[6] == 'e' && "rework_verification"@[6] == '_'),
                    OutboxEventType::ScrapRecord => assert("reworked_lot_label"@[0] == 'r' && "scrap_record"@[0] == 's'),
                    OutboxEventType::ReturnToVendor => assert("reworked_lot_label"@[2] == 'w' && "return_to_vendor"@[2] == 't'),
                    _ => {},
                }
            },
            OutboxEventType::ScrapRecord => {
                match b {
                    OutboxEventType::WorkEvent => assert("scrap_record"@[0] == 's' && "work_event"@[0] == 'w'),
                    OutboxEventType::ElectronicSign => assert("scrap_record"@[0] == 's' && "electronic_sign"@[0] == 'e'),
                    OutboxEventType::EvidenceFile => assert("scrap_record"@[0] == 's' && "evidence_file"@[0] == 'e'),
                    OutboxEventType::Measurement => assert("scrap_record"@[0] == 's' && "measurement"@[0] == 'm'),
                    OutboxEventType::Suspension => assert("scrap_record"@[1] == 'c' && "suspension"@[1] == 'u'),
                    OutboxEventType::AndonAlert => assert("scrap_record"@[0] == 's' && "andon_alert"@[0] == 'a'),
                    OutboxEventType::Nonconformity => assert("scrap_record"@[0] == 's' && "nonconformity"@[0] == 'n'),
                    OutboxEventType::Capa => assert("scrap_record"@[0] == 's' && "capa"@[0] == 'c'),
                    OutboxEventType::KaizenProposal => assert("scrap_record"@[0] == 's' && "kaizen_proposal"@[0] == 'k'),
                    OutboxEventType::IncomingInspection => assert("scrap_record"@[0] == 's' && "incoming_inspection"@[0] == 'i'),
                    OutboxEventType::IncomingInspectionMeasurement => assert("scrap_record"@[0] == 's' && "incoming_inspection_measurement"@[0] == 'i'),
                    OutboxEventType::ConcessionApproval => assert("scrap_record"@[0] == 's' && "concession_approval"@[0] == 'c'),
                    OutboxEventType::Rework => assert("scrap_record"@[0] == 's' && "rework"@[0] == 'r'),
                    OutboxEventType::Disposition => assert("scrap_record"@[0] == 's' && "disposition"@[0] == 'd'),
                    OutboxEventType::ReworkVerification => assert("scrap_record"@[0] == 's' && "rework_verification"@[0] == 'r'),
                    OutboxEventType::ReworkedLotLabel => assert("scrap_record"@[0] == 's' && "reworked_lot_label"@[0] == 'r'),
                    OutboxEventType::ReturnToVendor => assert("scrap_record"@[0] == 's' && "return_to_vendor"@[0] == 'r'),
                    _ => {},
                }
            },
            OutboxEventType::ReturnToVendor => {
                match b {
                    OutboxEventType::WorkEvent => assert("return_to_vendor"@[0] == 'r' && "work_event"@[0] == 'w'),
                    OutboxEventType::ElectronicSign => assert("return_to_vendor"@[0] == 'r' && "electronic_sign"@[0] == 'e'),
                    OutboxEventType::EvidenceFile => assert("return_to_vendor"@[0] == 'r' && "evidence_file"@[0] == 'e'),
                    OutboxEventType::Measurement => assert("return_to_vendor"@[0] == 'r' && "measurement"@[0] == 'm'),
                    OutboxEventType::Suspension => assert("return_to_vendor"@[0] == 'r' && "suspension"@[0] == 's'),
                    OutboxEventType::AndonAlert => assert("return_to_vendor"@[0] == 'r' && "andon_alert"@[0] == 'a'),
                    OutboxEventType::Nonconformity => assert("return_to_vendor"@[0] == 'r' && "nonconformity"@[0] == 'n'),
                    OutboxEventType::Capa => assert("return_to_vendor"@[0] == 'r' && "capa"@[0] == 'c'),
                    OutboxEventType::KaizenProposal => assert("return_to_vendor"@[0] == 'r' && "kaizen_proposal"@[0] == 'k'),
                    OutboxEventType::IncomingInspection => assert("return_to_vendor"@[0] == 'r' && "incoming_inspection"@[0] == 'i'),
                    OutboxEventType::IncomingInspectionMeasurement => assert("return_to_vendor"@[0] == 'r' && "incoming_inspection_measurement"@[0] == 'i'),
                    OutboxEventType::ConcessionApproval => assert("return_to_vendor"@[0] == 'r' && "concession_approval"@[0] == 'c'),
                    OutboxEventType::Rework => assert("return_to_vendor"@[2] == 't' && "rework"@[2] == 'w'),
                    OutboxEventType::Disposition => assert("return_to_vendor"@[0] == 'r' && "disposition"@[0] == 'd'),
                    OutboxEventType::ReworkVerification => assert("return_to_vendor"@[2] == 't' && "rework_verification"@[2] == 'w'),
                    OutboxEventType::ReworkedLotLabel => assert("return_to_vendor"@[2] == 't' && "reworked_lot_label"@[2] == 'w'),
                    OutboxEventType::ScrapRecord => assert("return_to_vendor"@[0] == 'r' && "scrap_record"@[0] == 's'),
                    _ => {},
                }
            },
        }
    }
}


/// Each event kind is stored under its snake_case name, the value the outbox table accepts
/// for it (measurement events as `measurement`, dispositions as `disposition`, ...).
pub proof fn law_event_type_name_of_each_kind()
    ensures
        spec_event_type_name(OutboxEventType::WorkEvent) == "work_event"@,
        spec_event_type_name(OutboxEventType::ElectronicSign) == "electronic_sign"@,
        spec_event_type_name(OutboxEventType::EvidenceFile) == "evidence_file"@,
        spec_event_type_name(OutboxEventType::Measurement) == "measurement"@,
        spec_event_type_name(OutboxEventType::Suspension) == "suspension"@,
        spec_event_type_name(OutboxEventType::AndonAlert) == "andon_alert"@,
        spec_event_type_name(OutboxEventType::Nonconformity) == "nonconformity"@,
        spec_event_type_name(OutboxEventType::Capa) == "capa"@,
        spec_event_type_name(OutboxEventType::KaizenProposal) == "kaizen_proposal"@,
        spec_event_type_name(OutboxEventType::IncomingInspection) == "incoming_inspection"@,
        spec_event_type_name(OutboxEventType::IncomingInspectionMeasurement) == "incoming_inspection_measurement"@,
        spec_event_type_name(OutboxEventType::ConcessionApproval) == "concession_approval"@,
        spec_event_type_name(OutboxEventType::Rework) == "rework"@,
        spec_event_type_name(OutboxEventType::Disposition) == "disposition"@,
        spec_event_type_name(OutboxEventType::ReworkVerification) == "rework_verification"@,
        spec_event_type_name(OutboxEventType::ReworkedLotLabel) == "reworked_lot_label"@,
        spec_event_type_name(OutboxEventType::ScrapRecord) == "scrap_record"@,
        spec_event_type_name(OutboxEventType::ReturnToVendor) == "return_to_vendor"@,
{
}

} // verus!
