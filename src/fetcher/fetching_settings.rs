use vstd::prelude::*;
use crate::fetcher::fetcher_error::{FetchingError, FetchingResult, NativeFetchingError};
use crate::utils::{fib, fibonacci, lemma_fib_past_u64, MAX_FIB_INDEX};

verus! {

/// Largest number of signatures that one discovery call asks for.
pub const MAX_TRANSACTION_BATCH_SIZE: usize = 20;

/// Settings of the fetching stage.
#[derive(Clone, Debug)]
pub struct FetchingSettings {
    /// Base delay between remote-call retries, in milliseconds.
    pub rpc_request_timeout: u64,
    /// Number of attempts after which a failing remote call is given up.
    pub retry_limit: u64,
    /// Number of signatures asked for in one discovery call.
    pub transaction_batch_size: usize,
}

/// The delay before the retry that follows failure number `attempt`: the
/// base delay times `fib(attempt)`, saturated at `u64::MAX`.
pub open spec fn retry_delay_ms(timeout: u64, attempt: u64) -> u64 {
    let d = timeout * fib(attempt as nat);
    if d <= u64::MAX {
        d as u64
    } else {
        u64::MAX
    }
}

/// What a retry decision yields after failure number `attempt`.
pub open spec fn retry_outcome(s: FetchingSettings, attempt: u64) -> Result<u64, NativeFetchingError> {
    if attempt >= s.retry_limit {
        Err(NativeFetchingError::RpcCallLimit)
    } else {
        Ok(retry_delay_ms(s.rpc_request_timeout, attempt))
    }
}

impl Default for FetchingSettings {
    fn default() -> (r: Self)
        ensures
            r.rpc_request_timeout == 100,
            r.retry_limit == 10,
            r.transaction_batch_size == MAX_TRANSACTION_BATCH_SIZE,
    {
        FetchingSettings {
            rpc_request_timeout: 100,
            retry_limit: 10,
            transaction_batch_size: MAX_TRANSACTION_BATCH_SIZE,
        }
    }
}

impl FetchingSettings {
    /// The configured batch size, capped at the per-call maximum.
    pub open spec fn signatures_limit_spec(&self) -> usize {
        if self.transaction_batch_size <= MAX_TRANSACTION_BATCH_SIZE {
            self.transaction_batch_size
        } else {
            MAX_TRANSACTION_BATCH_SIZE
        }
    }

    /// The number of signatures that one discovery call asks for: the
    /// configured batch size, capped at the per-call maximum.
    pub fn signatures_limit(&self) -> (r: usize)
        ensures
            r == self.signatures_limit_spec(),
    {
        if self.transaction_batch_size <= MAX_TRANSACTION_BATCH_SIZE {
            self.transaction_batch_size
        } else {
            MAX_TRANSACTION_BATCH_SIZE
        }
    }

    /// Decides the retry that follows failure number `attempt` (counted from 1):
    /// the delay to sleep in milliseconds, or `RpcCallLimit` once the limit is reached.
    pub fn retry_delay(&self, attempt: u64) -> (r: FetchingResult<u64>)
        ensures
            attempt >= self.retry_limit ==> r matches Err(
                FetchingError::NativeFetcher(NativeFetchingError::RpcCallLimit),
            ),
            attempt < self.retry_limit ==> (r matches Ok(d) && d == retry_delay_ms(
                self.rpc_request_timeout,
                attempt,
            )),
    {
        if attempt >= self.retry_limit {
            return Err(FetchingError::NativeFetcher(NativeFetchingError::RpcCallLimit));
        }
        let t = self.rpc_request_timeout;
        if t == 0 {
            assert(t * fib(attempt as nat) == 0);
            return Ok(0);
        }
        if attempt > MAX_FIB_INDEX {
            proof {
                lemma_fib_past_u64(attempt as nat);
                let f = fib(attempt as nat);
                assert(t * f >= f) by (nonlinear_arith)
                    requires
                        t >= 1,
                ;
            }
            return Ok(u64::MAX);
        }
        let f = fibonacci(attempt);
        match t.checked_mul(f) {
            Some(d) => Ok(d),
            None => Ok(u64::MAX),
        }
    }
}

} // verus!
