//! When the cached record of a transaction may be dropped after its checkout commit: only once
//! the store shows the checkout commit, retrying with a growing delay, or once the checkout is
//! old enough that waiting longer is pointless.

use vstd::prelude::*;

verus! {

/// What one read of the store showed for the transaction.
#[derive(Debug, Clone, Copy, PartialEq, Eq, Structural)]
pub enum CleanupProbe {
    /// The stage holds its checkout commit time.
    CommitPersisted,
    /// The stage exists but its checkout commit time is not set yet.
    CommitNotPersisted,
    /// No stage was found, or the store could not be read.
    RecordMissing,
}

/// The next step of the cleanup.
#[derive(Debug, Clone, Copy, PartialEq, Eq, Structural)]
pub enum CleanupStep {
    /// Drop the cached record and its cached fee lines.
    Clear,
    /// Read the store again after this many milliseconds.
    RetryAfter { delay_ms: u64 },
    /// Keep the cached record.
    Skip,
}

/// The step after read number `attempt` (from 0) of at most `max_retries + 1` showed `probe`:
/// clear once the commit shows; otherwise read again after `delay_ms` times the number of
/// reads so far while reads are left; after the last read, clear only where the checkout
/// (`checkout_ms`, ms) lies at least `allow_clear_after_ms` before `now`.
pub open spec fn cleanup_step_of(attempt: u64, max_retries: u64, delay_ms: u64, probe: CleanupProbe, checkout_ms: Option<i64>, now: i64, allow_clear_after_ms: i64) -> CleanupStep {
    if probe == CleanupProbe::CommitPersisted {
        CleanupStep::Clear
    } else if attempt < max_retries {
        CleanupStep::RetryAfter { delay_ms: (delay_ms * (attempt + 1)) as u64 }
    } else if checkout_ms matches Some(ts) && now - ts >= allow_clear_after_ms {
        CleanupStep::Clear
    } else {
        CleanupStep::Skip
    }
}

/// The step of the cleanup after a read of the store (see [`cleanup_step_of`]).
pub fn cleanup_step(attempt: u64, max_retries: u64, delay_ms: u64, probe: CleanupProbe, checkout_ms: Option<i64>, now: i64, allow_clear_after_ms: i64) -> (r: CleanupStep)
    requires
        attempt <= max_retries,
        delay_ms * (max_retries + 1) <= u64::MAX,
        checkout_ms matches Some(ts) ==> i64::MIN <= now - ts <= i64::MAX,
    ensures
        r == cleanup_step_of(attempt, max_retries, delay_ms, probe, checkout_ms, now, allow_clear_after_ms),
{
    match probe {
        CleanupProbe::CommitPersisted => CleanupStep::Clear,
        _ => {
            if attempt < max_retries {
                proof {
                    assert(delay_ms * (attempt + 1) <= delay_ms * (max_retries + 1)) by (nonlinear_arith)
                        requires
                            attempt < max_retries;
                }
                CleanupStep::RetryAfter { delay_ms: delay_ms * (attempt + 1) }
            } else {
                match checkout_ms {
                    Some(ts) => {
                        if now - ts >= allow_clear_after_ms {
                            CleanupStep::Clear
                        } else {
                            CleanupStep::Skip
                        }
                    },
                    None => CleanupStep::Skip,
                }
            }
        },
    }
}

/// The cleanup clears only where the store showed the commit, or, after the last read, where
/// the checkout is old enough; while reads are left it never skips.
pub proof fn law_cleanup_clears_only_when_safe(attempt: u64, max_retries: u64, delay_ms: u64, probe: CleanupProbe, checkout_ms: Option<i64>, now: i64, allow_clear_after_ms: i64)
    requires
        attempt <= max_retries,
    ensures
        cleanup_step_of(attempt, max_retries, delay_ms, probe, checkout_ms, now, allow_clear_after_ms) == CleanupStep::Clear ==> probe
            == CleanupProbe::CommitPersisted || (attempt == max_retries && checkout_ms is Some && now - checkout_ms->0
            >= allow_clear_after_ms),
        attempt < max_retries ==> cleanup_step_of(attempt, max_retries, delay_ms, probe, checkout_ms, now, allow_clear_after_ms)
            != CleanupStep::Skip,
{
}

} // verus!
