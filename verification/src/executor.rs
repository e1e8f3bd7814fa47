//! The authenticated request executor's policy: how a response status
//! is interpreted, and how transport failures are retried with
//! exponential backoff and jitter, capped at five attempts in all.

use vstd::prelude::*;

use crate::errors::Error;

verus! {

/// Ten to the `n`th power.
pub open spec fn pow10(n: nat) -> int
    decreases n,
{
    if n == 0 {
        1
    } else {
        10 * pow10((n - 1) as nat)
    }
}

/// The most attempts one request may make.
pub const MAX_ATTEMPTS: u8 = 5;

/// Relies on tokio_retry::strategy::jitter: scales a delay by a random
/// factor in `[0, 1)`, so the result never exceeds the input.
#[verifier::external_body]
fn jitter_ms(ms: u64) -> (r: u64)
    ensures
        r <= ms,
{
    let jittered = tokio_retry::strategy::jitter(core::time::Duration::from_millis(ms));
    jittered.as_millis() as u64
}

/// How a response status is read: success passes the body through, a
/// 401 is the distinct unauthorized signal that ends the run and asks
/// for the credential to be scrubbed, and every other status is fatal
/// and carries its code.
pub fn interpret_status(status: u16) -> (r: Option<Error>)
    ensures
        status == 200 ==> r is None,
        status == 401 ==> r == Some(Error::Unauthorized),
        status != 200 && status != 401 ==> r == Some(Error::ApiStatus(status)),
{
    if status == 200 {
        None
    } else if status == 401 {
        Some(Error::Unauthorized)
    } else {
        Some(Error::ApiStatus(status))
    }
}

/// The base backoff before retry number `attempt`: ten milliseconds,
/// growing tenfold with each further attempt.
pub fn base_delay_ms(attempt: u8) -> (r: u64)
    requires
        1 <= attempt <= 4,
    ensures
        r as int == pow10(attempt as nat) as int,
{
    proof {
        assert(pow10(0) == 1);
        assert(pow10(1) == 10);
        assert(pow10(2) == 100);
        assert(pow10(3) == 1000);
        assert(pow10(4) == 10000);
    }
    if attempt == 1 {
        10
    } else if attempt == 2 {
        100
    } else if attempt == 3 {
        1000
    } else {
        10000
    }
}

/// After `attempts` attempts have failed at the transport level: retry
/// with a jittered exponential backoff while the budget of five
/// attempts is not spent, and give up otherwise.
pub fn retry_decision(attempts: u8) -> (r: Option<u64>)
    requires
        1 <= attempts,
    ensures
        (attempts < MAX_ATTEMPTS) <==> r is Some,
        r is Some ==> r->0 as int <= pow10(attempts as nat) as int,
{
    if attempts < 5 {
        let base = base_delay_ms(attempts);
        Some(jitter_ms(base))
    } else {
        None
    }
}

} // verus!
