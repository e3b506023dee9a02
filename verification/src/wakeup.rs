//! Waking the control plane.

use std::sync::Arc;

use vstd::prelude::*;

use crate::duration::Duration;

verus! {

/// A lock of the standard library.
#[verifier::external_type_specification]
#[verifier::external_body]
#[verifier::reject_recursive_types(T)]
pub struct ExMutex<T: ?Sized>(std::sync::Mutex<T>);

/// A held lock of the standard library.
#[verifier::external_type_specification]
#[verifier::external_body]
#[verifier::reject_recursive_types(T)]
pub struct ExMutexGuard<'a, T: ?Sized + 'a>(std::sync::MutexGuard<'a, T>);

/// A condition variable of the standard library.
#[verifier::external_type_specification]
#[verifier::external_body]
pub struct ExCondvar(std::sync::Condvar);

/// How a timed wait of the standard library ended.
#[verifier::external_type_specification]
#[verifier::external_body]
pub struct ExWaitTimeoutResult(std::sync::WaitTimeoutResult);

/// Nanoseconds in a second.
pub const NANOS_PER_SECOND: u32 = 1_000_000_000;

/// A fresh lock (`std::sync::Mutex::new`).
#[verifier::external_body]
fn new_lock() -> std::sync::Mutex<()> {
    std::sync::Mutex::new(())
}

/// A fresh condition variable (`std::sync::Condvar::new`).
#[verifier::external_body]
fn new_condvar() -> std::sync::Condvar {
    std::sync::Condvar::new()
}

/// Takes the lock (`std::sync::Mutex::lock`); nothing where another thread
/// panicked while it held it.
#[verifier::external_body]
fn take_lock<'a>(lock: &'a std::sync::Mutex<()>) -> Option<std::sync::MutexGuard<'a, ()>> {
    lock.lock().ok()
}

/// Wakes one waiting thread (`std::sync::Condvar::notify_one`).
#[verifier::external_body]
fn notify_one(condvar: &std::sync::Condvar) {
    condvar.notify_one()
}

/// Waits for a wakeup for at most so many seconds and nanoseconds
/// (`std::sync::Condvar::wait_timeout`); a panic of another thread does not
/// change how the wait ended.
#[verifier::external_body]
fn wait_for<'a>(
    condvar: &std::sync::Condvar,
    guard: std::sync::MutexGuard<'a, ()>,
    limit: (u64, u32),
) -> (std::sync::MutexGuard<'a, ()>, std::sync::WaitTimeoutResult)
    requires
        limit.1 < NANOS_PER_SECOND,
{
    match condvar.wait_timeout(guard, std::time::Duration::new(limit.0, limit.1)) {
        Ok(ended) => ended,
        Err(poisoned) => poisoned.into_inner(),
    }
}

/// Whether the wait ended by timeout (`std::sync::WaitTimeoutResult::timed_out`).
#[verifier::external_body]
fn ended_by_timeout(result: &std::sync::WaitTimeoutResult) -> bool {
    result.timed_out()
}

/// A timeout as whole seconds and the nanoseconds beyond them. A timeout of
/// more seconds than the first number can say is the longest that both can.
pub fn wait_limit(timeout: Duration) -> (r: (u64, u32))
    ensures
        r.1 < NANOS_PER_SECOND,
        timeout@ / NANOS_PER_SECOND as nat <= u64::MAX ==> r.0 * NANOS_PER_SECOND + r.1 == timeout@,
        timeout@ / NANOS_PER_SECOND as nat > u64::MAX ==> r.0 == u64::MAX && r.1
            == NANOS_PER_SECOND - 1,
{
    let nanos: u128 = timeout.as_nanos();
    let seconds: u128 = nanos / 1_000_000_000;
    if seconds > u64::MAX as u128 {
        (u64::MAX, NANOS_PER_SECOND - 1)
    } else {
        (seconds as u64, (nanos % 1_000_000_000) as u32)
    }
}

/// Whether a wait was ended by a wakeup: it took place, and not its timeout
/// ended it.
pub fn wakeup_came(timed_out: Option<bool>) -> (r: bool)
    ensures
        r == (timed_out == Some(false)),
{
    match timed_out {
        Some(by_timeout) => !by_timeout,
        None => false,
    }
}

/// Wakes the control plane's loop ahead of its next poll.
#[derive(Debug, Clone)]
pub struct ControlPlaneWakeup {
    inner: Arc<(std::sync::Mutex<()>, std::sync::Condvar)>,
}

impl ControlPlaneWakeup {
    /// A wakeup that nobody waits on yet.
    pub fn new() -> Self {
        ControlPlaneWakeup { inner: Arc::new((new_lock(), new_condvar())) }
    }

    /// Wakes the waiting thread.
    pub fn notify(&self) {
        notify_one(&self.inner.1);
    }

    /// Waits for a wakeup, for at most `timeout`. Returns whether one came,
    /// which other threads decide.
    pub fn wait_timeout(&self, timeout: Duration) -> bool {
        let timed_out = match take_lock(&self.inner.0) {
            Some(guard) => {
                let (_guard, result) = wait_for(&self.inner.1, guard, wait_limit(timeout));
                Some(ended_by_timeout(&result))
            },
            None => None,
        };
        wakeup_came(timed_out)
    }
}

impl Default for ControlPlaneWakeup {
    fn default() -> Self {
        ControlPlaneWakeup::new()
    }
}

} // verus!
