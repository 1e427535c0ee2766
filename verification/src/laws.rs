//! Lifecycle laws of the guard, stated and proved over the transition
//! relations that `Mlock::new` and `Mlock::unlock` ensure.

use vstd::prelude::*;

use crate::LockFailed;
use crate::Mlock;
use crate::PlatformError;
use crate::Value;
use crate::lock_transition;
use crate::unlock_transition;

verus! {

/// A successful lock yields a guard whose content is exactly the caller's
/// value: dereferencing the guard reads the very item that was locked.
pub proof fn lemma_lock_preserves_content<T>(v: Value<T>, locked: Result<Mlock<T>, LockFailed<T>>)
    requires
        lock_transition(v, Ok(()), locked),
    ensures
        locked matches Ok(m) && m.spec_inner() == v.spec_inner(),
{
}

/// Round-trip law: when both primitives succeed, releasing a guard obtained
/// by locking `v` returns exactly `v`, content and storage strategy included.
pub proof fn lemma_lock_unlock_round_trip<T>(
    v: Value<T>,
    locked: Result<Mlock<T>, LockFailed<T>>,
    released: Result<Value<T>, PlatformError>,
)
    requires
        lock_transition(v, Ok(()), locked),
        unlock_transition(locked->Ok_0, Ok(()), released),
    ensures
        released matches Ok(w) && w == v,
{
}

/// A failed lock never yields a guard; the caller gets the platform error
/// back together with the original value, so no ownership is lost.
pub proof fn lemma_failed_lock_keeps_value<T>(
    v: Value<T>,
    e: PlatformError,
    locked: Result<Mlock<T>, LockFailed<T>>,
)
    requires
        lock_transition(v, Err(e), locked),
    ensures
        locked matches Err(f) && f.value == v && f.error == e,
{
}

/// A failed unlock reports exactly the platform error: success is never
/// claimed and no returned value is fabricated.
pub proof fn lemma_failed_unlock_is_error<T>(
    m: Mlock<T>,
    e: PlatformError,
    released: Result<Value<T>, PlatformError>,
)
    requires
        unlock_transition(m, Err(e), released),
    ensures
        released matches Err(f) && f == e,
        !(released is Ok),
{
}

} // verus!
