//! The retry governor: the bounded-retry/backoff policy consulted at the
//! start of every retryable network operation in the pipeline.

use vstd::prelude::*;

verus! {

/// Number of retries allowed after the first attempt: attempts are
/// numbered 0 through `RETRY_LIMIT`, and an attempt counter above the
/// limit is fatal.
pub const RETRY_LIMIT: u8 = 5;

/// Fixed delay, in seconds, waited before every attempt after the first.
pub const RETRY_DELAY_SECONDS: u64 = 5;

/// What the governor tells the caller to do with attempt number `n`:
/// either go ahead after waiting `delay_seconds` (zero for the very
/// first attempt), or abort the whole process because the retry ceiling
/// has been exceeded.
#[derive(Clone, Copy, PartialEq, Eq, Structural, Debug)]
pub enum RetryGate {
    Go { delay_seconds: u64 },
    Fatal,
}

/// The governor's decision for attempt number `n`, as a function.
pub open spec fn gate_spec(n: nat) -> RetryGate {
    if n > RETRY_LIMIT {
        RetryGate::Fatal
    } else if n == 0 {
        RetryGate::Go { delay_seconds: 0 }
    } else {
        RetryGate::Go { delay_seconds: RETRY_DELAY_SECONDS as u64 }
    }
}

/// Decide whether an operation may make attempt number `retry_count`,
/// and how long it must wait first: no wait for attempt 0, a fixed
/// delay for attempts 1 through the retry limit, fatal beyond it.
pub fn handle_retry(retry_count: u8) -> (gate: RetryGate)
    ensures
        gate == gate_spec(retry_count as nat),
        retry_count == 0 ==> gate == (RetryGate::Go { delay_seconds: 0u64 }),
        1 <= retry_count <= RETRY_LIMIT ==> gate == (RetryGate::Go {
            delay_seconds: RETRY_DELAY_SECONDS,
        }),
        retry_count > RETRY_LIMIT ==> gate == RetryGate::Fatal,
{
    if retry_count > RETRY_LIMIT {
        RetryGate::Fatal
    } else if retry_count == 0 {
        RetryGate::Go { delay_seconds: 0 }
    } else {
        RetryGate::Go { delay_seconds: RETRY_DELAY_SECONDS }
    }
}

/// How many attempts an operation that fails every time makes, counting
/// from attempt number `n`, before the governor turns it away.
pub open spec fn attempts_until_fatal(n: nat) -> nat
    decreases RETRY_LIMIT + 1 - n,
{
    if gate_spec(n) == RetryGate::Fatal {
        0
    } else {
        1 + attempts_until_fatal(n + 1)
    }
}

/// The delays, in seconds, waited before each attempt of an operation
/// that fails every time, counting from attempt number `n`.
pub open spec fn delays_until_fatal(n: nat) -> Seq<u64>
    decreases RETRY_LIMIT + 1 - n,
{
    match gate_spec(n) {
        RetryGate::Fatal => Seq::empty(),
        RetryGate::Go { delay_seconds } => seq![delay_seconds] + delays_until_fatal(n + 1),
    }
}

/// An operation that fails on every attempt makes exactly six attempts
/// (numbers 0 through 5) before the governor signals fatal, waiting
/// 0, 5, 5, 5, 5 and 5 seconds before them in turn.
pub proof fn lemma_retry_schedule()
    ensures
        attempts_until_fatal(0) == 6,
        delays_until_fatal(0) =~= seq![0u64, 5u64, 5u64, 5u64, 5u64, 5u64],
{
    reveal_with_fuel(attempts_until_fatal, 8);
    reveal_with_fuel(delays_until_fatal, 8);
}

} // verus!
