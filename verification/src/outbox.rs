//! Outbox consumer: configuration, retry schedule and the per-event dispatch decision.
//!
//! Pending events are posted to the parent API. A delivered event is marked sent; a 4xx
//! answer, or a failure of an event whose stored retry count has reached the limit, moves
//! it to the dead-letter queue;
//! any other failure schedules a retry after an exponential backoff
//! `min(initial_backoff_ms * 2^(retry_count - 1), max_backoff_ms)`.
use vstd::prelude::*;
use vstd::arithmetic::power2::{pow2, lemma2_to64, lemma_pow2_strictly_increases, lemma_pow2_unfold};
use vstd::arithmetic::mul::lemma_mul_inequality;
use crate::ids::{uuid_hyphenated, uuid_to_string};
use crate::text::{decimal, u64_to_string};

verus! {

/// The consumer's settings as read from configuration.
#[derive(Debug, Clone)]
pub struct OutboxConfig {
    /// Polling interval in milliseconds.
    pub poll_interval_ms: u64,
    /// Events taken per poll.
    pub batch_size: i64,
    /// Failures after which an event is dead-lettered.
    pub max_retry_attempts: u32,
    /// First backoff in milliseconds.
    pub initial_backoff_ms: u64,
    /// Largest backoff in milliseconds.
    pub max_backoff_ms: u64,
    /// Endpoint of the parent API.
    pub parent_api_url: String,
    /// Secret of the HMAC signatures (UTF-8 text).
    pub hmac_secret: String,
    /// HTTP timeout in seconds.
    pub http_timeout_secs: u64,
}

impl Default for OutboxConfig {
    fn default() -> (res: Self)
        ensures
            res.poll_interval_ms == 60_000,
            res.batch_size == 10,
            res.max_retry_attempts == 5,
            res.initial_backoff_ms == 1_000,
            res.max_backoff_ms == 32_000,
            res.parent_api_url@ == Seq::<char>::empty(),
            res.hmac_secret@ == Seq::<char>::empty(),
            res.http_timeout_secs == 30,
    {
        OutboxConfig {
            poll_interval_ms: 60_000,
            batch_size: 10,
            max_retry_attempts: 5,
            initial_backoff_ms: 1_000,
            max_backoff_ms: 32_000,
            parent_api_url: String::new(),
            hmac_secret: String::new(),
            http_timeout_secs: 30,
        }
    }
}

/// Counts of one dispatch cycle.
#[derive(Debug)]
pub struct DispatchResult {
    /// Events delivered.
    pub sent_count: u32,
    /// Events that failed and were scheduled for a retry.
    pub failed_count: u32,
    /// Events moved to the dead-letter queue.
    pub dlq_count: u32,
}

impl Default for DispatchResult {
    fn default() -> (res: Self)
        ensures
            res.sent_count == 0,
            res.failed_count == 0,
            res.dlq_count == 0,
    {
        DispatchResult { sent_count: 0, failed_count: 0, dlq_count: 0 }
    }
}

/// Why a delivery or a consumer operation failed.
#[derive(Debug, Clone, PartialEq, Eq)]
pub enum OutboxError {
    /// A database operation failed (its message).
    Database(String),
    /// The webhook could not be delivered.
    WebhookFailed(String),
    /// An event exceeded the retry limit.
    MaxRetriesExceeded { outbox_id: u128 },
    /// A setting is invalid.
    InvalidConfig(String),
    /// The HTTP exchange failed.
    Http(String),
    /// The parent API answered with a non-2xx status.
    HttpStatus(u16),
}

/// The message of an outbox error, as its `Display` renders it.
pub open spec fn spec_outbox_message(e: OutboxError) -> Seq<char> {
    match e {
        OutboxError::Database(m) => "Database error: "@ + m@,
        OutboxError::WebhookFailed(m) => "Webhook delivery failed: "@ + m@,
        OutboxError::MaxRetriesExceeded { outbox_id } => "Max retries exceeded for outbox_id="@
            + uuid_hyphenated(outbox_id),
        OutboxError::InvalidConfig(m) => "Invalid configuration: "@ + m@,
        OutboxError::Http(m) => "HTTP error: "@ + m@,
        OutboxError::HttpStatus(s) => "HTTP status error: "@ + decimal(s as nat),
    }
}

fn joined(a: &str, b: &str) -> (res: String)
    ensures
        res@ == a@ + b@,
{
    let mut s = a.to_owned();
    s.append(b);
    s
}

impl OutboxError {
    /// The message of this error (what is stored as the event's last error).
    pub fn message(&self) -> (res: String)
        ensures
            res@ == spec_outbox_message(*self),
    {
        match self {
            OutboxError::Database(m) => joined("Database error: ", m.as_str()),
            OutboxError::WebhookFailed(m) => joined("Webhook delivery failed: ", m.as_str()),
            OutboxError::MaxRetriesExceeded { outbox_id } => {
                let id = uuid_to_string(*outbox_id);
                joined("Max retries exceeded for outbox_id=", id.as_str())
            },
            OutboxError::InvalidConfig(m) => joined("Invalid configuration: ", m.as_str()),
            OutboxError::Http(m) => joined("HTTP error: ", m.as_str()),
            OutboxError::HttpStatus(s) => {
                let n = u64_to_string(*s as u64);
                joined("HTTP status error: ", n.as_str())
            },
        }
    }
}

/// `a * b`, or `u64::MAX` where the product does not fit.
pub open spec fn sat_mul(a: u64, b: u64) -> u64 {
    if a * b > u64::MAX {
        u64::MAX
    } else {
        (a * b) as u64
    }
}

/// `2^e`, or `u64::MAX` where the power does not fit.
pub open spec fn sat_pow2(e: u32) -> u64 {
    if pow2(e as nat) > u64::MAX {
        u64::MAX
    } else {
        pow2(e as nat) as u64
    }
}

/// The delay before retry number `retry_count` (1-based):
/// `min(initial_ms * 2^(retry_count - 1), max_ms)`, each step saturating.
pub open spec fn spec_backoff_ms(initial_ms: u64, max_ms: u64, retry_count: u32) -> u64 {
    let exponent: u32 = if retry_count >= 1 { (retry_count - 1) as u32 } else { 0 };
    let delay = sat_mul(initial_ms, sat_pow2(exponent));
    if delay <= max_ms {
        delay
    } else {
        max_ms
    }
}

/// `u64::saturating_mul`.
pub fn saturating_mul(a: u64, b: u64) -> (res: u64)
    ensures
        res == sat_mul(a, b),
{
    match a.checked_mul(b) {
        Some(p) => p,
        None => u64::MAX,
    }
}

/// `2u64.saturating_pow(e)`.
pub fn saturating_pow2(e: u32) -> (res: u64)
    ensures
        res == sat_pow2(e),
{
    let mut r: u64 = 1;
    let mut i: u32 = 0;
    proof {
        lemma2_to64();
    }
    while i < e
        invariant
            i <= e,
            r as nat == pow2(i as nat),
        decreases e - i,
    {
        proof {
            lemma_pow2_unfold((i + 1) as nat);
        }
        if r > u64::MAX / 2 {
            proof {
                lemma_pow2_strictly_increases(i as nat, e as nat);
                if (i + 1) < e {
                    lemma_pow2_strictly_increases((i + 1) as nat, e as nat);
                }
            }
            return u64::MAX;
        }
        r = r * 2;
        i = i + 1;
    }
    r
}

/// The consumer's settings; the connection pool and the HTTP sender are held beside it.
#[derive(Debug, Clone)]
pub struct OutboxConsumer {
    /// Polling interval in milliseconds.
    pub interval_ms: u64,
    /// Failures after which an event is dead-lettered.
    pub retry_max: u32,
    /// Largest backoff in milliseconds.
    pub backoff_max_ms: u64,
    /// First backoff in milliseconds.
    pub initial_backoff_ms: u64,
    /// Events taken per poll.
    pub batch_size: i64,
    /// Endpoint of the parent API.
    pub parent_api_url: String,
    /// Secret of the HMAC signatures.
    pub hmac_secret: String,
}

/// What to do with an event after a delivery attempt.
#[derive(Debug, Clone, PartialEq, Eq)]
pub enum OutboxAction {
    /// Mark the event sent.
    MarkSent,
    /// Move the event to the dead-letter queue with its new retry count and error.
    DeadLetter { retry_count: i32, last_error: String },
    /// Keep the event pending and retry it after `backoff_ms`.
    ScheduleRetry { retry_count: i32, backoff_ms: u64, last_error: String },
}

/// Whether a failed delivery dead-letters the event: a 4xx answer cannot succeed on a
/// retry, and an event whose stored retry count has reached the limit gets no more retries.
pub open spec fn spec_dead_letters(retry_max: u32, retry_count: i16, e: OutboxError) -> bool {
    let non_retryable = e matches OutboxError::HttpStatus(s) && 400 <= s < 500;
    non_retryable || retry_count as int >= retry_max as int
}

impl OutboxConsumer {
    /// Settings with the given polling interval, retry limit and backoff ceiling in seconds;
    /// the first backoff is one second and a poll takes ten events.
    pub fn new(interval_ms: u64, retry_max: u32, backoff_max_sec: u64) -> (res: Self)
        ensures
            res.interval_ms == interval_ms,
            res.retry_max == retry_max,
            res.backoff_max_ms == sat_mul(backoff_max_sec, 1000),
            res.initial_backoff_ms == 1000,
            res.batch_size == 10,
            res.parent_api_url@ == Seq::<char>::empty(),
            res.hmac_secret@ == Seq::<char>::empty(),
    {
        OutboxConsumer {
            interval_ms,
            retry_max,
            backoff_max_ms: saturating_mul(backoff_max_sec, 1000),
            initial_backoff_ms: 1000,
            batch_size: 10,
            parent_api_url: String::new(),
            hmac_secret: String::new(),
        }
    }

    /// Settings taken from a configuration.
    pub fn from_config(config: OutboxConfig) -> (res: Self)
        ensures
            res.interval_ms == config.poll_interval_ms,
            res.retry_max == config.max_retry_attempts,
            res.backoff_max_ms == config.max_backoff_ms,
            res.initial_backoff_ms == config.initial_backoff_ms,
            res.batch_size == config.batch_size,
            res.parent_api_url == config.parent_api_url,
            res.hmac_secret == config.hmac_secret,
    {
        OutboxConsumer {
            interval_ms: config.poll_interval_ms,
            retry_max: config.max_retry_attempts,
            backoff_max_ms: config.max_backoff_ms,
            initial_backoff_ms: config.initial_backoff_ms,
            batch_size: config.batch_size,
            parent_api_url: config.parent_api_url,
            hmac_secret: config.hmac_secret,
        }
    }

    /// The delay before retry number `retry_count`.
    pub fn compute_backoff_ms(&self, retry_count: u32) -> (res: u64)
        ensures
            res == spec_backoff_ms(self.initial_backoff_ms, self.backoff_max_ms, retry_count),
    {
        let exponent = retry_count.saturating_sub(1);
        let delay = saturating_mul(self.initial_backoff_ms, saturating_pow2(exponent));
        if delay <= self.backoff_max_ms {
            delay
        } else {
            self.backoff_max_ms
        }
    }

    /// Decides what becomes of an event with `retry_count` earlier failures after a
    /// delivery attempt that ended with `delivery`.
    pub fn decide(&self, retry_count: i16, delivery: &Result<(), OutboxError>) -> (res: OutboxAction)
        ensures
            match *delivery {
                Ok(_) => res is MarkSent,
                Err(e) => match res {
                    OutboxAction::MarkSent => false,
                    OutboxAction::DeadLetter { retry_count: n, last_error } => {
                        &&& spec_dead_letters(self.retry_max, retry_count, e)
                        &&& n == retry_count + 1
                        &&& last_error@ == spec_outbox_message(e)
                    },
                    OutboxAction::ScheduleRetry { retry_count: n, backoff_ms, last_error } => {
                        &&& !spec_dead_letters(self.retry_max, retry_count, e)
                        &&& n == retry_count + 1
                        &&& backoff_ms == spec_backoff_ms(
                            self.initial_backoff_ms,
                            self.backoff_max_ms,
                            n as u32,
                        )
                        &&& last_error@ == spec_outbox_message(e)
                    },
                },
            },
    {
        match delivery {
            Ok(()) => OutboxAction::MarkSent,
            Err(e) => {
                let new_retry_count: i32 = retry_count as i32 + 1;
                let error_msg = e.message();
                let is_non_retryable = match e {
                    OutboxError::HttpStatus(s) => 400u16 <= *s && *s < 500u16,
                    _ => false,
                };
                let is_max_retries = retry_count >= 0 && retry_count as u32 >= self.retry_max;
                if is_non_retryable || is_max_retries {
                    OutboxAction::DeadLetter { retry_count: new_retry_count, last_error: error_msg }
                } else {
                    let backoff_ms = self.compute_backoff_ms(new_retry_count as u32);
                    OutboxAction::ScheduleRetry {
                        retry_count: new_retry_count,
                        backoff_ms,
                        last_error: error_msg,
                    }
                }
            },
        }
    }
}

/// The total number of events a cycle's counts account for.
pub open spec fn spec_dispatch_total(r: DispatchResult) -> int {
    r.sent_count + r.failed_count + r.dlq_count
}

impl DispatchResult {
    /// Counts one decided event.
    pub fn record(&mut self, action: &OutboxAction)
        requires
            match *action {
                OutboxAction::MarkSent => old(self).sent_count < u32::MAX,
                OutboxAction::DeadLetter { .. } => old(self).dlq_count < u32::MAX,
                OutboxAction::ScheduleRetry { .. } => old(self).failed_count < u32::MAX,
            },
        ensures
            final(self).sent_count == old(self).sent_count + (if action is MarkSent { 1int } else { 0 }),
            final(self).dlq_count == old(self).dlq_count + (if action is DeadLetter { 1int } else { 0 }),
            final(self).failed_count == old(self).failed_count + (if action is ScheduleRetry { 1int } else { 0 }),
    {
        match action {
            OutboxAction::MarkSent => self.sent_count = self.sent_count + 1,
            OutboxAction::DeadLetter { .. } => self.dlq_count = self.dlq_count + 1,
            OutboxAction::ScheduleRetry { .. } => self.failed_count = self.failed_count + 1,
        }
    }
}

/// Every recorded event is counted exactly once: the cycle total grows by one.
pub proof fn law_each_event_counted_once(before: DispatchResult, after: DispatchResult, action: OutboxAction)
    requires
        after.sent_count == before.sent_count + (if action is MarkSent { 1int } else { 0 }),
        after.dlq_count == before.dlq_count + (if action is DeadLetter { 1int } else { 0 }),
        after.failed_count == before.failed_count + (if action is ScheduleRetry { 1int } else { 0 }),
    ensures
        spec_dispatch_total(after) == spec_dispatch_total(before) + 1,
{
}

/// The backoff never exceeds the configured ceiling.
pub proof fn law_backoff_capped(initial_ms: u64, max_ms: u64, retry_count: u32)
    ensures
        spec_backoff_ms(initial_ms, max_ms, retry_count) <= max_ms,
{
}

/// Later retries never wait less than earlier ones.
pub proof fn law_backoff_monotone(initial_ms: u64, max_ms: u64, a: u32, b: u32)
    requires
        a <= b,
    ensures
        spec_backoff_ms(initial_ms, max_ms, a) <= spec_backoff_ms(initial_ms, max_ms, b),
{
    let ea: u32 = if a >= 1 { (a - 1) as u32 } else { 0 };
    let eb: u32 = if b >= 1 { (b - 1) as u32 } else { 0 };
    assert(ea <= eb);
    if ea < eb {
        lemma_pow2_strictly_increases(ea as nat, eb as nat);
    }
    assert(sat_pow2(ea) <= sat_pow2(eb));
    lemma_mul_inequality(sat_pow2(ea) as int, sat_pow2(eb) as int, initial_ms as int);
    assert(sat_pow2(ea) * initial_ms <= sat_pow2(eb) * initial_ms);
    assert(initial_ms * sat_pow2(ea) <= initial_ms * sat_pow2(eb)) by (nonlinear_arith)
        requires sat_pow2(ea) * initial_ms <= sat_pow2(eb) * initial_ms;
    assert(sat_mul(initial_ms, sat_pow2(ea)) <= sat_mul(initial_ms, sat_pow2(eb)));
}

/// Retries are scheduled only while the stored retry count is below the limit, so a
/// retried event's new count never exceeds the limit, and a 4xx answer is never retried.
pub proof fn law_retries_stay_below_limit(retry_max: u32, retry_count: i16, e: OutboxError)
    requires
        !spec_dead_letters(retry_max, retry_count, e),
    ensures
        retry_count < retry_max,
        retry_count + 1 <= retry_max,
        !(e matches OutboxError::HttpStatus(s) && 400 <= s < 500),
{
}

/// An event that keeps failing with a retryable error (anything but a 4xx answer) is
/// retried after each of its first `retry_max` failures and dead-lettered at the next one,
/// when its stored retry count has reached `retry_max` (counts are stored as `i16`).
pub proof fn law_retry_budget(retry_max: u32, e: OutboxError)
    requires
        !(e matches OutboxError::HttpStatus(s) && 400 <= s < 500),
        retry_max <= i16::MAX,
    ensures
        forall|k: i16| 0 <= k < retry_max ==> !#[trigger] spec_dead_letters(retry_max, k, e),
        spec_dead_letters(retry_max, retry_max as i16, e),
{
}

/// With the default settings (five retries, first backoff one second, ceiling 32 s) a
/// failing event is retried after 1000, 2000, 4000, 8000 and 16000 ms and dead-lettered at
/// its sixth failure.
pub proof fn law_default_retry_schedule(e: OutboxError)
    requires
        !(e matches OutboxError::HttpStatus(s) && 400 <= s < 500),
    ensures
        spec_backoff_ms(1000, 32000, 1) == 1000,
        spec_backoff_ms(1000, 32000, 2) == 2000,
        spec_backoff_ms(1000, 32000, 3) == 4000,
        spec_backoff_ms(1000, 32000, 4) == 8000,
        spec_backoff_ms(1000, 32000, 5) == 16000,
        forall|k: i16| 0 <= k < 5 ==> !#[trigger] spec_dead_letters(5, k, e),
        spec_dead_letters(5, 5, e),
{
    lemma2_to64();
}

} // verus!
