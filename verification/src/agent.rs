//! The socket agent's decision rules. The agent owns one connected channel
//! and performs one request/response exchange at a time; connecting retries
//! transient failures on a fixed interval until a timeout, and receiving
//! accumulates the bytes of each fixed-size chunk read until a zero-length
//! or short read completes the message. The rules below decide each step;
//! the caller does the actual socket work.

use vstd::prelude::*;

use crate::Error;

verus! {

/// Reads happen in chunks of this many bytes.
pub const MAX_BUFFER_SIZE: usize = 64;

/// How long to sleep between connect attempts, in milliseconds.
pub const RETRY_INTERVAL_MS: u64 = 100;

/// The default bound on connection establishment, in milliseconds.
pub const DEFAULT_CONNECT_TIMEOUT_MS: u64 = 3000;

/// What one connect attempt came to: connected; refused in a transient way
/// (the socket was not found, or the peer refused), worth retrying; or
/// failed with some other error, which is final at once.
#[derive(Debug)]
pub enum ConnectOutcome {
    Connected,
    Refused(String),
    Failed(String),
}

/// What to do after a connect attempt.
#[derive(Debug)]
pub enum ConnectStep {
    Ready,
    RetryAfterMillis(u64),
    Fail(Error),
}

/// Whether a transient connect failure may still be retried: only while
/// the elapsed time has not yet reached the timeout.
pub open spec fn spec_retry_allowed(elapsed_ms: u64, timeout_ms: u64) -> bool {
    elapsed_ms < timeout_ms
}

/// Decides the next step of the connect loop. A transient failure is
/// retried after the fixed interval until the timeout has elapsed, then
/// reported as a connection timeout; any other failure is reported at once.
pub fn connect_step(outcome: &ConnectOutcome, elapsed_ms: u64, timeout_ms: u64) -> (r: ConnectStep)
    ensures
        outcome is Connected ==> r is Ready,
        outcome is Refused && spec_retry_allowed(elapsed_ms, timeout_ms) ==> r
            is RetryAfterMillis && r->RetryAfterMillis_0 == RETRY_INTERVAL_MS,
        outcome is Refused && !spec_retry_allowed(elapsed_ms, timeout_ms) ==> r is Fail && r
            ->Fail_0 is Agent && r->Fail_0.spec_message() == "Connection timed out: "@ + outcome
            ->Refused_0@,
        outcome is Failed ==> r is Fail && r->Fail_0 is IO && r->Fail_0.spec_message() == outcome
            ->Failed_0@,
{
    match outcome {
        ConnectOutcome::Connected => ConnectStep::Ready,
        ConnectOutcome::Refused(why) => {
            if elapsed_ms < timeout_ms {
                ConnectStep::RetryAfterMillis(RETRY_INTERVAL_MS)
            } else {
                let mut msg = "Connection timed out: ".to_owned();
                msg.append(why.as_str());
                ConnectStep::Fail(Error::Agent(msg))
            }
        },
        ConnectOutcome::Failed(why) => ConnectStep::Fail(Error::IO(why.clone())),
    }
}

/// The connect loop cannot hang: each retry sleeps the fixed interval, so
/// once the number of retries passes `timeout / interval`, the elapsed time
/// has reached the timeout and `connect_step` no longer allows a retry —
/// it fails with the timeout error instead.
pub proof fn lemma_connect_terminates(timeout_ms: u64, retries: nat, elapsed_ms: u64)
    requires
        elapsed_ms >= retries * RETRY_INTERVAL_MS,
        retries > timeout_ms / RETRY_INTERVAL_MS,
    ensures
        !spec_retry_allowed(elapsed_ms, timeout_ms),
{
    let q = timeout_ms / RETRY_INTERVAL_MS;
    assert(retries >= q + 1);
    assert(retries * RETRY_INTERVAL_MS >= (q + 1) * RETRY_INTERVAL_MS) by (nonlinear_arith)
        requires
            retries >= q + 1,
    ;
    assert((q + 1) * RETRY_INTERVAL_MS == q * RETRY_INTERVAL_MS + RETRY_INTERVAL_MS)
        by (nonlinear_arith);
    assert(timeout_ms == q * RETRY_INTERVAL_MS + timeout_ms % RETRY_INTERVAL_MS);
    assert(timeout_ms % RETRY_INTERVAL_MS < RETRY_INTERVAL_MS);
}

/// One step of the receive loop: `n` bytes were read into the fixed-size
/// chunk buffer. A zero-length read means the peer closed and the message
/// is complete, with nothing to add; otherwise exactly the `n` bytes read
/// are accumulated, and a short read (`n` below the chunk size) completes
/// the message, so an echoed message comes back byte for byte. Returns
/// whether the message is complete.
pub fn recv_extend(acc: &mut Vec<u8>, chunk: &[u8], n: usize) -> (done: bool)
    requires
        chunk@.len() == MAX_BUFFER_SIZE,
        n <= MAX_BUFFER_SIZE,
    ensures
        n == 0 ==> final(acc)@ == old(acc)@ && done,
        n > 0 ==> final(acc)@ == old(acc)@ + chunk@.subrange(0, n as int) && (done <==> n
            < MAX_BUFFER_SIZE),
{
    if n == 0 {
        return true;
    }
    let mut i: usize = 0;
    while i < n
        invariant
            i <= n <= chunk@.len(),
            acc@ == old(acc)@ + chunk@.subrange(0, i as int),
        decreases n - i,
    {
        acc.push(chunk[i]);
        i = i + 1;
        proof {
            assert(acc@ =~= old(acc)@ + chunk@.subrange(0, i as int));
        }
    }
    n < MAX_BUFFER_SIZE
}

} // verus!
