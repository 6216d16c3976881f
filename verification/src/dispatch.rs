//! The dispatcher: routing by queue name, decode classification, and the
//! per-delivery retry engine with its exponential schedule.

use vstd::prelude::*;

use crate::codec::{decode_callback, decode_email, parse_callback_text, parse_email_text, DecodeError};
use crate::errors::{Error, ErrorContext, ErrorKind};
use crate::json::str_eq;
use crate::models::{Callback, CallbackV, Email, EmailV, PushNotifications, PushV};
use crate::push_codec::{decode_push, parse_push_text};

verus! {

// ---------------------------------------------------------------------------
// Routing
// ---------------------------------------------------------------------------

/// Where a queue's deliveries are routed.
#[derive(Clone, Copy, Debug, PartialEq, Eq, Structural)]
pub enum Route {
    Callbacks,
    Emails,
    Pushes,
    Unknown,
}

/// The routing table, keyed by queue name.
pub open spec fn route_of(queue: Seq<char>) -> Route {
    if queue == "callbacks"@ { Route::Callbacks }
    else if queue == "emails"@ { Route::Emails }
    else if queue == "pushes"@ { Route::Pushes }
    else { Route::Unknown }
}

/// Routes a queue name.
pub fn route_queue(queue: &str) -> (r: Route)
    ensures
        r == route_of(queue@),
{
    if str_eq(queue, "callbacks") { Route::Callbacks }
    else if str_eq(queue, "emails") { Route::Emails }
    else if str_eq(queue, "pushes") { Route::Pushes }
    else { Route::Unknown }
}

// ---------------------------------------------------------------------------
// Decode classification
// ---------------------------------------------------------------------------

/// What the dispatcher decides to do with one delivery, before any egress
/// call.
#[derive(Clone, Debug, PartialEq, Eq)]
pub enum DispatchCommand {
    /// Run the retry engine against the callback egress.
    DeliverCallback(Callback),
    /// Run the retry engine against the email egress.
    DeliverEmail(Email),
    /// Run the retry engine against the push egress.
    DeliverPush(PushNotifications),
    /// The push egress is disabled: complete at once, with no egress call.
    CompleteNoop,
    /// The payload does not decode: terminal, complete after a warning, with
    /// no egress call and no dead-letter publish.
    CompleteMalformed(DecodeError),
    /// No such queue: the dispatcher fails and the supervisor requeues.
    RejectUnknownQueue,
}

/// The mathematical value of a [`DispatchCommand`].
pub enum DispatchV {
    DeliverCallback(CallbackV),
    DeliverEmail(EmailV),
    DeliverPush(PushV),
    CompleteNoop,
    CompleteMalformed(DecodeError),
    RejectUnknownQueue,
}

impl View for DispatchCommand {
    type V = DispatchV;

    open spec fn view(&self) -> DispatchV {
        match self {
            DispatchCommand::DeliverCallback(c) => DispatchV::DeliverCallback(c@),
            DispatchCommand::DeliverEmail(e) => DispatchV::DeliverEmail(e@),
            DispatchCommand::DeliverPush(p) => DispatchV::DeliverPush(p@),
            DispatchCommand::CompleteNoop => DispatchV::CompleteNoop,
            DispatchCommand::CompleteMalformed(e) => DispatchV::CompleteMalformed(*e),
            DispatchCommand::RejectUnknownQueue => DispatchV::RejectUnknownQueue,
        }
    }
}

/// The decode outcome of one payload against the callback document.
pub open spec fn decoded_callback(data: Seq<u8>) -> Result<CallbackV, DecodeError> {
    if !vstd::utf8::valid_utf8(data) {
        Err(DecodeError::Utf8)
    } else {
        match parse_callback_text(vstd::utf8::decode_utf8(data)) {
            Some(c) => Ok(c),
            None => Err(DecodeError::Json),
        }
    }
}

/// The decode outcome of one payload against the email document.
pub open spec fn decoded_email(data: Seq<u8>) -> Result<EmailV, DecodeError> {
    if !vstd::utf8::valid_utf8(data) {
        Err(DecodeError::Utf8)
    } else {
        match parse_email_text(vstd::utf8::decode_utf8(data)) {
            Some(e) => Ok(e),
            None => Err(DecodeError::Json),
        }
    }
}

/// The decode outcome of one payload against the push document.
pub open spec fn decoded_push(data: Seq<u8>) -> Result<PushV, DecodeError> {
    if !vstd::utf8::valid_utf8(data) {
        Err(DecodeError::Utf8)
    } else {
        match parse_push_text(vstd::utf8::decode_utf8(data)) {
            Some(p) => Ok(p),
            None => Err(DecodeError::Json),
        }
    }
}

/// What the dispatcher does with a delivery from `queue` carrying `data`:
/// route by queue name, decode strictly, and classify failures as terminal.
pub open spec fn dispatch_of(queue: Seq<char>, data: Seq<u8>, push_enabled: bool) -> DispatchV {
    match route_of(queue) {
        Route::Callbacks => match decoded_callback(data) {
            Ok(c) => DispatchV::DeliverCallback(c),
            Err(e) => DispatchV::CompleteMalformed(e),
        },
        Route::Emails => match decoded_email(data) {
            Ok(e) => DispatchV::DeliverEmail(e),
            Err(e) => DispatchV::CompleteMalformed(e),
        },
        Route::Pushes => if !push_enabled {
            DispatchV::CompleteNoop
        } else {
            match decoded_push(data) {
                Ok(p) => DispatchV::DeliverPush(p),
                Err(e) => DispatchV::CompleteMalformed(e),
            }
        },
        Route::Unknown => DispatchV::RejectUnknownQueue,
    }
}

/// Routes and decodes one delivery.
pub fn dispatch_message(queue: &str, data: &Vec<u8>, push_enabled: bool) -> (r: DispatchCommand)
    ensures
        r@ == dispatch_of(queue@, data@, push_enabled),
{
    match route_queue(queue) {
        Route::Callbacks => match decode_callback(data) {
            Ok(c) => DispatchCommand::DeliverCallback(c),
            Err(e) => DispatchCommand::CompleteMalformed(e),
        },
        Route::Emails => match decode_email(data) {
            Ok(e) => DispatchCommand::DeliverEmail(e),
            Err(e) => DispatchCommand::CompleteMalformed(e),
        },
        Route::Pushes => if !push_enabled {
            DispatchCommand::CompleteNoop
        } else {
            match decode_push(data) {
                Ok(p) => DispatchCommand::DeliverPush(p),
                Err(e) => DispatchCommand::CompleteMalformed(e),
            }
        },
        Route::Unknown => DispatchCommand::RejectUnknownQueue,
    }
}

/// The error the dispatcher reports for an unsupported queue name.
pub fn unknown_queue_error() -> (e: Error)
    ensures
        e.kind == ErrorKind::Internal,
        e.context@ == seq![ErrorContext::NotSupported],
        e.source is None,
{
    let e = Error::new(ErrorKind::Internal).context(ErrorContext::NotSupported);
    assert(e.context@ =~= seq![ErrorContext::NotSupported]);
    e
}

// ---------------------------------------------------------------------------
// The retry engine
// ---------------------------------------------------------------------------

/// The fixed schedule of inter-attempt waits, in seconds.
pub open spec fn retry_schedule() -> Seq<u64> {
    seq![2u64, 4u64, 8u64, 16u64, 32u64, 64u64, 128u64, 256u64, 512u64, 1024u64, 2048u64]
}

/// The schedule as a vector: 2, 4, 8, ... 2048 seconds, eleven entries.
pub fn retry_delays() -> (r: Vec<u64>)
    ensures
        r@ == retry_schedule(),
{
    let mut v: Vec<u64> = Vec::new();
    v.push(2);
    v.push(4);
    v.push(8);
    v.push(16);
    v.push(32);
    v.push(64);
    v.push(128);
    v.push(256);
    v.push(512);
    v.push(1024);
    v.push(2048);
    assert(v@ =~= retry_schedule());
    v
}

/// An egress failure is transient, and worth retrying, unless the egress
/// itself ruled the input out.
pub open spec fn is_transient(k: ErrorKind) -> bool {
    k != ErrorKind::Unauthorized && k != ErrorKind::MalformedInput
}

/// Classifies one egress failure.
pub fn transient(k: ErrorKind) -> (r: bool)
    ensures
        r == is_transient(k),
{
    match k {
        ErrorKind::Unauthorized => false,
        ErrorKind::MalformedInput => false,
        _ => true,
    }
}

/// What the engine does after one attempt.
#[derive(Clone, Copy, Debug, PartialEq, Eq)]
pub enum RetryDecision {
    /// The attempt succeeded: stop; the supervisor acks.
    Delivered,
    /// The egress ruled the input out: stop with no retry; the supervisor
    /// acks.
    Terminal(ErrorKind),
    /// Transient failure: sleep this many seconds, then attempt again.
    Retry(u64),
    /// Transient failure on the last attempt: sleep this many seconds, then
    /// publish to the dead-letter queue.
    Exhausted(u64),
}

/// The engine's decision after attempt number `attempt` (counted from zero)
/// came back with `outcome`.
pub open spec fn retry_decision(attempt: int, outcome: Option<ErrorKind>) -> RetryDecision {
    match outcome {
        None => RetryDecision::Delivered,
        Some(k) => if !is_transient(k) {
            RetryDecision::Terminal(k)
        } else if attempt < 10 {
            RetryDecision::Retry(retry_schedule()[attempt])
        } else {
            RetryDecision::Exhausted(retry_schedule()[10])
        },
    }
}

/// Decides what to do after one attempt.
pub fn retry_decide(attempt: usize, outcome: Option<ErrorKind>) -> (d: RetryDecision)
    requires
        attempt < 11,
    ensures
        d == retry_decision(attempt as int, outcome),
{
    match outcome {
        None => RetryDecision::Delivered,
        Some(k) => {
            if !transient(k) {
                RetryDecision::Terminal(k)
            } else {
                let delays = retry_delays();
                if attempt < 10 {
                    RetryDecision::Retry(delays[attempt])
                } else {
                    RetryDecision::Exhausted(delays[10])
                }
            }
        },
    }
}

/// How one delivery ended, as the supervisor sees it.
#[derive(Clone, Copy, Debug, PartialEq, Eq, Structural)]
pub enum Disposition {
    /// An egress attempt succeeded.
    Delivered,
    /// Retries ran out and the dead-letter publish was accepted.
    Exhausted,
    /// A terminal condition: a non-retryable egress error, a malformed
    /// payload, or the disabled push egress.
    Terminal,
    /// The dispatcher failed: an unknown queue, or a dead-letter publish the
    /// broker did not accept.
    Failed,
    /// The per-delivery deadline expired.
    TimedOut,
}

/// What one full engine run did.
pub struct RetryRunV {
    /// The inter-attempt delays consumed, in order.
    pub delays: Seq<u64>,
    /// How many dead-letter publishes were issued.
    pub publishes: nat,
    /// How the delivery ended.
    pub disposition: Disposition,
}

/// The engine run from attempt number `attempt` on, driven by the attempt
/// outcomes `outs`; `publish_ok` says whether the broker accepts the
/// dead-letter publish on exhaustion. Running out of outcomes counts as a
/// dispatcher failure.
pub open spec fn retry_run_from(outs: Seq<Option<ErrorKind>>, attempt: int, publish_ok: bool) -> RetryRunV
    decreases 11 - attempt,
{
    if attempt < 0 || attempt >= 11 || attempt >= outs.len() {
        RetryRunV { delays: Seq::empty(), publishes: 0, disposition: Disposition::Failed }
    } else {
        match retry_decision(attempt, outs[attempt]) {
            RetryDecision::Delivered => RetryRunV {
                delays: Seq::empty(),
                publishes: 0,
                disposition: Disposition::Delivered,
            },
            RetryDecision::Terminal(_) => RetryRunV {
                delays: Seq::empty(),
                publishes: 0,
                disposition: Disposition::Terminal,
            },
            RetryDecision::Retry(d) => {
                let rest = retry_run_from(outs, attempt + 1, publish_ok);
                RetryRunV {
                    delays: seq![d] + rest.delays,
                    publishes: rest.publishes,
                    disposition: rest.disposition,
                }
            },
            RetryDecision::Exhausted(d) => RetryRunV {
                delays: seq![d],
                publishes: 1,
                disposition: if publish_ok { Disposition::Exhausted } else { Disposition::Failed },
            },
        }
    }
}

/// One full engine run over the attempt outcomes `outs`.
pub open spec fn retry_run(outs: Seq<Option<ErrorKind>>, publish_ok: bool) -> RetryRunV {
    retry_run_from(outs, 0, publish_ok)
}

/// The index of the first outcome, from `attempt` on, that is not a
/// transient failure; `outs.len()` if every one is.
pub open spec fn first_settled_from(outs: Seq<Option<ErrorKind>>, attempt: int) -> int
    decreases outs.len() - attempt,
{
    if attempt < 0 || attempt >= outs.len() {
        outs.len() as int
    } else {
        match outs[attempt] {
            Some(k) => if is_transient(k) {
                first_settled_from(outs, attempt + 1)
            } else {
                attempt
            },
            None => attempt,
        }
    }
}

/// The index of the first outcome that is not a transient failure.
pub open spec fn first_settled(outs: Seq<Option<ErrorKind>>) -> int {
    first_settled_from(outs, 0)
}

/// The first settled index never lies before `attempt`, nor past the end.
proof fn lemma_first_settled_bounds(outs: Seq<Option<ErrorKind>>, attempt: int)
    requires
        0 <= attempt <= outs.len(),
    ensures
        attempt <= first_settled_from(outs, attempt) <= outs.len(),
    decreases outs.len() - attempt,
{
    if attempt < outs.len() {
        match outs[attempt] {
            Some(k) => if is_transient(k) {
                lemma_first_settled_bounds(outs, attempt + 1);
            },
            None => {},
        }
    }
}

/// The run from `attempt` on, characterized: the delays consumed are exactly
/// the schedule entries from `attempt` up to the first settled outcome,
/// capped at the schedule's end; exactly one dead-letter publish happens if
/// and only if the schedule was exhausted; and the disposition follows the
/// settling outcome.
proof fn lemma_retry_run_from(outs: Seq<Option<ErrorKind>>, attempt: int, publish_ok: bool)
    requires
        outs.len() >= 11,
        0 <= attempt <= 10,
    ensures
        ({
            let m = if first_settled_from(outs, attempt) < 11 {
                first_settled_from(outs, attempt)
            } else {
                11int
            };
            let run = retry_run_from(outs, attempt, publish_ok);
            &&& run.delays == retry_schedule().subrange(attempt, m)
            &&& run.publishes == (if m == 11 { 1nat } else { 0nat })
            &&& (m == 11 ==> run.disposition == (if publish_ok {
                Disposition::Exhausted
            } else {
                Disposition::Failed
            }))
            &&& (m < 11 && outs[m] is None ==> run.disposition == Disposition::Delivered)
            &&& (m < 11 && outs[m] is Some ==> run.disposition == Disposition::Terminal)
        }),
    decreases 11 - attempt,
{
    let fs = first_settled_from(outs, attempt);
    let m = if fs < 11 { fs } else { 11int };
    let run = retry_run_from(outs, attempt, publish_ok);
    match outs[attempt] {
        None => {
            assert(run.delays =~= retry_schedule().subrange(attempt, m));
        },
        Some(k) => {
            if !is_transient(k) {
                assert(run.delays =~= retry_schedule().subrange(attempt, m));
            } else if attempt < 10 {
                lemma_retry_run_from(outs, attempt + 1, publish_ok);
                lemma_first_settled_bounds(outs, attempt + 1);
                let fs1 = first_settled_from(outs, attempt + 1);
                let m1 = if fs1 < 11 { fs1 } else { 11int };
                assert(fs == fs1 && m == m1);
                assert(run.delays =~= retry_schedule().subrange(attempt, m)) by {
                    assert(retry_run_from(outs, attempt + 1, publish_ok).delays
                        == retry_schedule().subrange(attempt + 1, m1));
                }
            } else {
                lemma_first_settled_bounds(outs, 11);
                assert(fs == first_settled_from(outs, 11) && fs >= 11);
                assert(run.delays =~= retry_schedule().subrange(attempt, m));
            }
        },
    }
}

/// The inter-attempt delays a delivery observes are exactly the prefix of
/// the schedule consumed before the first settled outcome, or the whole
/// schedule when every attempt fails transiently.
pub proof fn lemma_retry_delays(outs: Seq<Option<ErrorKind>>, publish_ok: bool)
    requires
        outs.len() >= 11,
    ensures
        retry_run(outs, publish_ok).delays == retry_schedule().take(
            if first_settled(outs) < 11 { first_settled(outs) } else { 11int },
        ),
{
    lemma_retry_run_from(outs, 0, publish_ok);
    let m = if first_settled(outs) < 11 { first_settled(outs) } else { 11int };
    assert(retry_schedule().subrange(0, m) =~= retry_schedule().take(m));
}

/// On retry exhaustion exactly one dead-letter publish occurs, and none
/// otherwise; the disposition follows the outcome that settled the delivery.
pub proof fn lemma_retry_exhaustion(outs: Seq<Option<ErrorKind>>, publish_ok: bool)
    requires
        outs.len() >= 11,
    ensures
        retry_run(outs, publish_ok).publishes == (if first_settled(outs) >= 11 { 1nat } else { 0nat }),
        first_settled(outs) >= 11 ==> retry_run(outs, publish_ok).disposition == (if publish_ok {
            Disposition::Exhausted
        } else {
            Disposition::Failed
        }),
        first_settled(outs) < 11 && outs[first_settled(outs)] is None
            ==> retry_run(outs, publish_ok).disposition == Disposition::Delivered,
        first_settled(outs) < 11 && outs[first_settled(outs)] is Some
            ==> retry_run(outs, publish_ok).disposition == Disposition::Terminal,
{
    lemma_retry_run_from(outs, 0, publish_ok);
}

/// One full engine run, executed against a recorded outcome list.
pub struct RetryRun {
    pub delays: Vec<u64>,
    pub publishes: u32,
    pub disposition: Disposition,
}

/// Drives the engine over recorded attempt outcomes; used to check the
/// engine against concrete histories.
pub fn drive_retry(outcomes: &Vec<Option<ErrorKind>>, publish_ok: bool) -> (r: RetryRun)
    ensures
        r.delays@ == retry_run(outcomes@, publish_ok).delays,
        r.publishes as nat == retry_run(outcomes@, publish_ok).publishes,
        r.disposition == retry_run(outcomes@, publish_ok).disposition,
{
    let ghost total = retry_run(outcomes@, publish_ok);
    let mut delays: Vec<u64> = Vec::new();
    let mut attempt: usize = 0;
    loop
        invariant
            attempt <= 11,
            retry_run(outcomes@, publish_ok) == ({
                let rest = retry_run_from(outcomes@, attempt as int, publish_ok);
                RetryRunV {
                    delays: delays@ + rest.delays,
                    publishes: rest.publishes,
                    disposition: rest.disposition,
                }
            }),
        decreases 11 - attempt,
    {
        if attempt >= outcomes.len() || attempt >= 11 {
            proof {
                assert(delays@ + retry_run_from(outcomes@, attempt as int, publish_ok).delays
                    =~= delays@);
            }
            return RetryRun { delays, publishes: 0, disposition: Disposition::Failed };
        }
        let d = retry_decide(attempt, outcomes[attempt]);
        match d {
            RetryDecision::Delivered => {
                proof {
                    assert(delays@ + retry_run_from(outcomes@, attempt as int, publish_ok).delays
                        =~= delays@);
                }
                return RetryRun { delays, publishes: 0, disposition: Disposition::Delivered };
            },
            RetryDecision::Terminal(_) => {
                proof {
                    assert(delays@ + retry_run_from(outcomes@, attempt as int, publish_ok).delays
                        =~= delays@);
                }
                return RetryRun { delays, publishes: 0, disposition: Disposition::Terminal };
            },
            RetryDecision::Retry(w) => {
                proof {
                    let rest = retry_run_from(outcomes@, attempt as int, publish_ok);
                    let rest1 = retry_run_from(outcomes@, attempt + 1 as int, publish_ok);
                    assert(delays@ + rest.delays =~= delays@.push(w) + rest1.delays);
                }
                delays.push(w);
                attempt = attempt + 1;
            },
            RetryDecision::Exhausted(w) => {
                proof {
                    let rest = retry_run_from(outcomes@, attempt as int, publish_ok);
                    assert(delays@ + rest.delays =~= delays@.push(w));
                }
                delays.push(w);
                let disposition = if publish_ok {
                    Disposition::Exhausted
                } else {
                    Disposition::Failed
                };
                return RetryRun { delays, publishes: 1, disposition };
            },
        }
    }
}

} // verus!
