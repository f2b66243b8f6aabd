use wnav_core::event_type::OutboxEventType;
use wnav_core::outbox::{saturating_mul, saturating_pow2, DispatchResult, OutboxAction, OutboxConfig, OutboxConsumer, OutboxError};

fn default_consumer() -> OutboxConsumer {
    OutboxConsumer::from_config(OutboxConfig::default())
}

#[test]
fn default_config_values() {
    let c = OutboxConfig::default();
    assert_eq!(c.poll_interval_ms, 60_000);
    assert_eq!(c.batch_size, 10);
    assert_eq!(c.max_retry_attempts, 5);
    assert_eq!(c.initial_backoff_ms, 1_000);
    assert_eq!(c.max_backoff_ms, 32_000);
    assert_eq!(c.http_timeout_secs, 30);
    assert!(c.parent_api_url.is_empty());
}

#[test]
fn default_backoff_schedule() {
    let c = default_consumer();
    let got: Vec<u64> = (1..=7).map(|n| c.compute_backoff_ms(n)).collect();
    assert_eq!(got, vec![1000, 2000, 4000, 8000, 16000, 32000, 32000]);
    assert_eq!(c.compute_backoff_ms(0), 1000);
    assert_eq!(c.compute_backoff_ms(u32::MAX), 32000);
}

#[test]
fn backoff_saturates() {
    let c = OutboxConsumer::new(1000, 5, u64::MAX);
    assert_eq!(c.backoff_max_ms, u64::MAX);
    assert_eq!(c.initial_backoff_ms, 1000);
    assert_eq!(c.batch_size, 10);
    assert_eq!(c.compute_backoff_ms(100), u64::MAX);
    assert_eq!(saturating_pow2(63), 1u64 << 63);
    assert_eq!(saturating_pow2(64), u64::MAX);
    assert_eq!(saturating_mul(u64::MAX, 2), u64::MAX);
    assert_eq!(saturating_mul(3, 7), 21);
    let d = OutboxConsumer::new(500, 3, 30);
    assert_eq!(d.backoff_max_ms, 30_000);
    assert_eq!(d.interval_ms, 500);
    assert_eq!(d.retry_max, 3);
}

#[test]
fn backoff_is_monotone_and_capped() {
    let c = default_consumer();
    let mut prev = 0;
    for n in 0..100u32 {
        let d = c.compute_backoff_ms(n);
        assert!(d >= prev);
        assert!(d <= 32_000);
        prev = d;
    }
}

#[test]
fn delivered_event_is_marked_sent() {
    assert_eq!(default_consumer().decide(0, &Ok(())), OutboxAction::MarkSent);
}

#[test]
fn client_error_is_dead_lettered_at_once() {
    let a = default_consumer().decide(0, &Err(OutboxError::HttpStatus(404)));
    assert_eq!(a, OutboxAction::DeadLetter { retry_count: 1, last_error: "HTTP status error: 404".to_string() });
}

#[test]
fn server_error_is_retried_with_backoff() {
    let c = default_consumer();
    let a = c.decide(0, &Err(OutboxError::HttpStatus(503)));
    assert_eq!(a, OutboxAction::ScheduleRetry { retry_count: 1, backoff_ms: 1000, last_error: "HTTP status error: 503".to_string() });
    let a = c.decide(2, &Err(OutboxError::Http("connection reset".to_string())));
    assert_eq!(a, OutboxAction::ScheduleRetry { retry_count: 3, backoff_ms: 4000, last_error: "HTTP error: connection reset".to_string() });
}

#[test]
fn retry_limit_dead_letters() {
    let c = default_consumer();
    let a = c.decide(4, &Err(OutboxError::HttpStatus(500)));
    assert_eq!(a, OutboxAction::ScheduleRetry { retry_count: 5, backoff_ms: 16000, last_error: "HTTP status error: 500".to_string() });
    let a = c.decide(5, &Err(OutboxError::HttpStatus(500)));
    assert_eq!(a, OutboxAction::DeadLetter { retry_count: 6, last_error: "HTTP status error: 500".to_string() });
    let a = c.decide(3, &Err(OutboxError::WebhookFailed("bad".to_string())));
    assert!(matches!(a, OutboxAction::ScheduleRetry { retry_count: 4, backoff_ms: 8000, .. }));
}

#[test]
fn outbox_error_messages() {
    assert_eq!(OutboxError::Database("pool closed".to_string()).message(), "Database error: pool closed");
    assert_eq!(OutboxError::WebhookFailed("x".to_string()).message(), "Webhook delivery failed: x");
    assert_eq!(OutboxError::InvalidConfig("hex".to_string()).message(), "Invalid configuration: hex");
    assert_eq!(
        OutboxError::MaxRetriesExceeded { outbox_id: 0x123e4567e89b12d3a456426614174000 }.message(),
        "Max retries exceeded for outbox_id=123e4567-e89b-12d3-a456-426614174000"
    );
    assert_eq!(OutboxError::HttpStatus(0).message(), "HTTP status error: 0");
}

#[test]
fn dispatch_counts_each_event_once() {
    let c = default_consumer();
    let mut r = DispatchResult::default();
    let outcomes = vec![Ok(()), Err(OutboxError::HttpStatus(400)), Err(OutboxError::HttpStatus(502)), Ok(())];
    for o in &outcomes {
        let a = c.decide(0, o);
        r.record(&a);
    }
    assert_eq!(r.sent_count, 2);
    assert_eq!(r.dlq_count, 1);
    assert_eq!(r.failed_count, 1);
    assert_eq!((r.sent_count + r.dlq_count + r.failed_count) as usize, outcomes.len());
}

#[test]
fn event_type_names() {
    assert_eq!(OutboxEventType::WorkEvent.as_str(), "work_event");
    assert_eq!(OutboxEventType::IncomingInspectionMeasurement.as_str(), "incoming_inspection_measurement");
    assert_eq!(OutboxEventType::ReturnToVendor.as_str(), "return_to_vendor");
    assert_eq!(OutboxEventType::Capa.as_str(), "capa");
}

#[test]
fn event_type_names_are_distinct() {
    let all = [
        OutboxEventType::WorkEvent,
        OutboxEventType::ElectronicSign,
        OutboxEventType::EvidenceFile,
        OutboxEventType::Measurement,
        OutboxEventType::Suspension,
        OutboxEventType::AndonAlert,
        OutboxEventType::Nonconformity,
        OutboxEventType::Capa,
        OutboxEventType::KaizenProposal,
        OutboxEventType::IncomingInspection,
        OutboxEventType::IncomingInspectionMeasurement,
        OutboxEventType::ConcessionApproval,
        OutboxEventType::Rework,
        OutboxEventType::Disposition,
        OutboxEventType::ReworkVerification,
        OutboxEventType::ReworkedLotLabel,
        OutboxEventType::ScrapRecord,
        OutboxEventType::ReturnToVendor,
    ];
    for a in &all {
        for b in &all {
            assert_eq!(a.as_str() == b.as_str(), a == b);
        }
    }
}

#[test]
fn failing_event_walks_the_default_schedule() {
    let c = default_consumer();
    let mut stored: i16 = 0;
    let mut delays = Vec::new();
    loop {
        match c.decide(stored, &Err(OutboxError::Http("timeout".to_string()))) {
            OutboxAction::ScheduleRetry { retry_count, backoff_ms, .. } => {
                delays.push(backoff_ms);
                stored = retry_count as i16;
            }
            OutboxAction::DeadLetter { retry_count, .. } => {
                assert_eq!(retry_count, 6);
                break;
            }
            OutboxAction::MarkSent => unreachable!(),
        }
    }
    assert_eq!(delays, vec![1000, 2000, 4000, 8000, 16000]);
}
