//! Alert delivery to a webhook: the retry decisions.
//!
//! The caller makes each HTTP request and reports what came back; the
//! attempt tracker says whether the alert is delivered, whether to send again
//! after a pause, or which error ends the delivery.

use vstd::prelude::*;

use crate::text::{decimal, push_digits};

verus! {

/// Timeout of one webhook request, in seconds.
pub const REQUEST_TIMEOUT_SECONDS: u64 = 10;

/// How many requests one delivery makes at most.
pub const MAX_ATTEMPTS: usize = 2;

/// Pause between two requests of one delivery, in seconds.
pub const RETRY_DELAY_SECONDS: u64 = 2;

/// Why a webhook delivery failed.
#[derive(Debug)]
pub enum WebhookError {
    /// The request could not be made; holds the transport's message.
    Request(String),
    /// The endpoint answered with a status outside 200..=299.
    Status(u16),
}

/// The message that describes `e`.
pub open spec fn webhook_error_text(e: WebhookError) -> Seq<char> {
    match e {
        WebhookError::Request(m) => "request failed: "@ + m@,
        WebhookError::Status(code) => "unexpected HTTP status: "@ + decimal(code as nat),
    }
}

impl WebhookError {
    /// The message that describes this error.
    pub fn message(&self) -> (s: String)
        ensures
            s@ == webhook_error_text(*self),
    {
        match self {
            WebhookError::Request(m) => {
                let mut s = String::from_str("request failed: ");
                s.append(m.as_str());
                s
            },
            WebhookError::Status(code) => {
                let mut s = String::from_str("unexpected HTTP status: ");
                push_digits(&mut s, *code as u64, 10);
                s
            },
        }
    }
}

/// What one webhook request gave.
#[derive(Debug)]
pub enum SendOutcome {
    /// The endpoint answered with this HTTP status code.
    Answered(u16),
    /// The request failed before an answer; holds the transport's message.
    Failed(String),
}

/// What the delivery does after a request.
#[derive(Debug)]
pub enum DeliveryStep {
    /// The alert is delivered; the delivery ends.
    Delivered,
    /// Send again after this many seconds.
    RetryAfter(u64),
    /// The delivery ends with this error.
    GiveUp(WebhookError),
}

/// Whether `code` is a success status (200..=299).
pub open spec fn is_success(code: u16) -> bool {
    200 <= code && code <= 299
}

/// The error that a failed request stands for.
pub open spec fn outcome_error(o: SendOutcome) -> WebhookError {
    match o {
        SendOutcome::Answered(code) => WebhookError::Status(code),
        SendOutcome::Failed(m) => WebhookError::Request(m),
    }
}

/// The step after the request numbered `attempt` (counting from 1) gave `o`.
pub open spec fn next_step(attempt: int, o: SendOutcome) -> DeliveryStep {
    if o matches SendOutcome::Answered(code) && is_success(code) {
        DeliveryStep::Delivered
    } else if attempt < MAX_ATTEMPTS {
        DeliveryStep::RetryAfter(RETRY_DELAY_SECONDS)
    } else {
        DeliveryStep::GiveUp(outcome_error(o))
    }
}

/// Counts the requests of one delivery and decides what follows each.
#[derive(Debug)]
pub struct DeliveryAttempts {
    made: usize,
}

impl DeliveryAttempts {
    /// How many requests the delivery has made.
    pub closed spec fn made(&self) -> int {
        self.made as int
    }

    /// Whether the delivery may make another request.
    pub open spec fn may_send(&self) -> bool {
        self.made() < MAX_ATTEMPTS
    }

    /// A delivery that has made no request yet.
    pub fn new() -> (d: Self)
        ensures
            d.made() == 0,
    {
        DeliveryAttempts { made: 0 }
    }

    /// Whether the delivery may make another request.
    pub fn can_send(&self) -> (b: bool)
        ensures
            b == self.may_send(),
    {
        self.made < MAX_ATTEMPTS
    }

    /// Records what the next request gave and says what follows: delivered
    /// on a 2xx answer; else a pause before the next request while fewer
    /// than `MAX_ATTEMPTS` requests were made; else the error of this last
    /// request.
    pub fn record(&mut self, outcome: SendOutcome) -> (step: DeliveryStep)
        requires
            old(self).may_send(),
        ensures
            final(self).made() == old(self).made() + 1,
            step == next_step(final(self).made(), outcome),
            step is RetryAfter ==> final(self).may_send(),
    {
        self.made = self.made + 1;
        match outcome {
            SendOutcome::Answered(code) => {
                if 200 <= code && code <= 299 {
                    return DeliveryStep::Delivered;
                }
                if self.made < MAX_ATTEMPTS {
                    DeliveryStep::RetryAfter(RETRY_DELAY_SECONDS)
                } else {
                    DeliveryStep::GiveUp(WebhookError::Status(code))
                }
            },
            SendOutcome::Failed(m) => {
                if self.made < MAX_ATTEMPTS {
                    DeliveryStep::RetryAfter(RETRY_DELAY_SECONDS)
                } else {
                    DeliveryStep::GiveUp(WebhookError::Request(m))
                }
            },
        }
    }
}

/// Any answer with a status in 200..=299 delivers the alert, at every attempt;
/// an answer outside that range, or a failed request, never does.
pub proof fn law_any_2xx_delivers(attempt: int, code: u16, message: String)
    ensures
        (200 <= code && code <= 299) ==> next_step(attempt, SendOutcome::Answered(code))
            is Delivered,
        !(200 <= code && code <= 299) ==> !(next_step(attempt, SendOutcome::Answered(code))
            is Delivered),
        !(next_step(attempt, SendOutcome::Failed(message)) is Delivered),
{
}

/// A delivery makes at most `MAX_ATTEMPTS` requests: after the last one the
/// step is never a retry; it is `Delivered` exactly on a 2xx answer, and
/// otherwise gives up with the error of that last request.
pub proof fn law_last_attempt_ends_delivery(o: SendOutcome)
    ensures
        !(next_step(MAX_ATTEMPTS as int, o) is RetryAfter),
        next_step(MAX_ATTEMPTS as int, o) is Delivered <==> (o matches SendOutcome::Answered(
            code,
        ) && is_success(code)),
        !(next_step(MAX_ATTEMPTS as int, o) is Delivered) ==> next_step(MAX_ATTEMPTS as int, o)
            == DeliveryStep::GiveUp(outcome_error(o)),
{
}

/// A success answer always ends the delivery, whatever the attempt; a failed
/// attempt before the last is always followed by a retry after
/// `RETRY_DELAY_SECONDS`.
pub proof fn law_retry_only_after_failure(attempt: int, o: SendOutcome)
    requires
        1 <= attempt < MAX_ATTEMPTS,
    ensures
        (o matches SendOutcome::Answered(code) && is_success(code)) ==> next_step(attempt, o)
            is Delivered,
        !(o matches SendOutcome::Answered(code) && is_success(code)) ==> next_step(attempt, o)
            == DeliveryStep::RetryAfter(RETRY_DELAY_SECONDS),
{
}

} // verus!
