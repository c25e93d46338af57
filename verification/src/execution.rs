//! The execution loop's pacing decisions.
//!
//! The loop forever pops one action, executes it, and turns the classified
//! outcome into a decision: how long to pause before the next dequeue and
//! at which severity to report the outcome. The waiting itself is the
//! runtime's; every outcome maps to a decision, so the loop never stops.

use vstd::prelude::*;
use crate::action_queue::spec_classify;
use crate::error::Error;
use crate::response::{APIResponse, ActionData};

verus! {

/// The fixed pause after the remote side rejects an action because the
/// character is still on cooldown.
pub const COOLDOWN_BACKOFF_SECONDS: u64 = 5;

/// How an outcome is reported: not at all, as a warning, or as an error.
#[derive(Debug, Clone, Copy, PartialEq, Eq, Structural)]
pub enum LogLevel {
    Silent,
    Warn,
    Error,
}

/// One loop decision: pause this many seconds, report at this severity,
/// then return to draining the queue.
#[derive(Debug, Clone, Copy, PartialEq, Eq, Structural)]
pub struct LoopDecision {
    pub delay_seconds: u64,
    pub log: LogLevel,
}

/// The loop's decision for every possible outcome of one executed action:
/// a success pauses for its cooldown (a negative figure counts as zero),
/// a no-op proceeds immediately, a cooldown rejection pauses for the fixed
/// backoff at warning severity, and any other failure proceeds immediately
/// but is reported as an error. No outcome stops the loop.
pub open spec fn spec_loop_step(outcome: Result<Option<i64>, Error>) -> LoopDecision {
    match outcome {
        Ok(Some(s)) => (LoopDecision {
            delay_seconds: if s < 0 { 0u64 } else { s as u64 },
            log: LogLevel::Silent,
        }),
        Ok(None) => (LoopDecision { delay_seconds: 0, log: LogLevel::Silent }),
        Err(e) => match e {
            Error::Cooldown => (LoopDecision {
                delay_seconds: COOLDOWN_BACKOFF_SECONDS,
                log: LogLevel::Warn,
            }),
            _ => (LoopDecision { delay_seconds: 0, log: LogLevel::Error }),
        },
    }
}

/// Decide how the loop paces after one executed action.
pub fn loop_step(outcome: Result<Option<i64>, Error>) -> (d: LoopDecision)
    ensures
        d == spec_loop_step(outcome),
{
    match outcome {
        Ok(Some(s)) => {
            let delay: u64 = if s < 0 { 0 } else { s as u64 };
            LoopDecision { delay_seconds: delay, log: LogLevel::Silent }
        }
        Ok(None) => LoopDecision { delay_seconds: 0, log: LogLevel::Silent },
        Err(Error::Cooldown) => LoopDecision {
            delay_seconds: COOLDOWN_BACKOFF_SECONDS,
            log: LogLevel::Warn,
        },
        Err(_) => LoopDecision { delay_seconds: 0, log: LogLevel::Error },
    }
}

/// Law: after a success envelope reporting `s` remaining cooldown seconds,
/// the loop's next dequeue is delayed by exactly `s`, silently.
pub proof fn lemma_success_paces_by_cooldown(res: APIResponse<ActionData>)
    requires
        res.data is Some,
        res.error is None,
        res.data->Some_0.cooldown.remaining_seconds >= 0,
    ensures
        spec_loop_step(spec_classify(res)).delay_seconds
            == res.data->Some_0.cooldown.remaining_seconds,
        spec_loop_step(spec_classify(res)).log == LogLevel::Silent,
{
}

/// Law: an error envelope with the no-op code 490 is treated as success —
/// the loop proceeds to the next item with zero delay and nothing is
/// reported as a warning or an error.
pub proof fn lemma_noop_proceeds_immediately(res: APIResponse<ActionData>)
    requires
        res.data is None,
        res.error is Some,
        res.error->Some_0.code == 490,
    ensures
        spec_classify(res) == Ok::<Option<i64>, Error>(None),
        spec_loop_step(spec_classify(res)) == (LoopDecision {
            delay_seconds: 0,
            log: LogLevel::Silent,
        }),
{
}

/// Law: an error envelope with the cooldown-rejection code 499 makes the
/// loop wait exactly the fixed backoff, reported as a warning only; the
/// outcome carries no request, so nothing is requeued.
pub proof fn lemma_cooldown_rejection_backs_off(res: APIResponse<ActionData>)
    requires
        res.data is None,
        res.error is Some,
        res.error->Some_0.code == 499,
    ensures
        spec_classify(res) == Err::<Option<i64>, Error>(Error::Cooldown),
        spec_loop_step(spec_classify(res)) == (LoopDecision {
            delay_seconds: COOLDOWN_BACKOFF_SECONDS,
            log: LogLevel::Warn,
        }),
{
}

/// Law: an envelope with both payloads present, or with neither, is a
/// protocol violation; the loop reports it as an error and survives,
/// proceeding to the next item with zero delay.
pub proof fn lemma_protocol_violation_survives(res: APIResponse<ActionData>)
    requires
        res.data is Some <==> res.error is Some,
    ensures
        spec_classify(res) == Err::<Option<i64>, Error>(Error::InvalidAPIResponse),
        spec_loop_step(spec_classify(res)) == (LoopDecision {
            delay_seconds: 0,
            log: LogLevel::Error,
        }),
{
}

} // verus!
