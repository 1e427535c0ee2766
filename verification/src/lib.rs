//! Guarded ownership wrapper for values whose backing memory is locked into
//! RAM (pinned, so the operating system will not write it to swap storage).
//!
//! The guard itself only decides the lock/unlock lifecycle: the two platform
//! primitives (`mlock`/`munlock` on POSIX, `VirtualLock`/`VirtualUnlock` on
//! Windows) are external collaborators, and their outcomes are handed to the
//! guard as plain `Result` values by the unverified platform layer.

use vstd::prelude::*;

pub mod laws;

verus! {

/// Structured error reported by a failed platform lock or unlock call:
/// the native OS error code and its human-readable message.
#[derive(Debug)]
pub struct PlatformError {
    /// Native OS error code (`errno` on POSIX, `GetLastError` on Windows).
    pub code: i32,
    /// Human-readable description of the error.
    pub message: String,
}

/// A value to be protected, owned either directly or through a separate
/// heap allocation. A boxed value keeps a stable address across moves of
/// the `Value` itself, which matters to the platform layer.
#[derive(Debug)]
pub enum Value<T> {
    Boxed(Box<T>),
    Raw(T),
}

impl<T> Value<T> {
    /// The wrapped item, regardless of how it is stored.
    pub open spec fn spec_inner(self) -> T {
        match self {
            Value::Boxed(b) => *b,
            Value::Raw(t) => t,
        }
    }

    /// Exact byte length of the wrapped item's in-memory representation;
    /// this is the length handed to both the lock and the unlock call.
    pub fn size_of(&self) -> (n: usize)
        ensures
            n as nat == vstd::layout::size_of::<T>(),
    {
        core::mem::size_of::<T>()
    }

    /// Shared access to the wrapped item.
    pub fn as_ref(&self) -> (r: &T)
        ensures
            *r == self.spec_inner(),
    {
        match self {
            Value::Boxed(b) => b,
            Value::Raw(t) => t,
        }
    }

    /// Exclusive access to the wrapped item. The storage strategy (boxed or
    /// raw) is never changed by a write through the returned reference.
    pub fn as_mut(&mut self) -> (r: &mut T)
        ensures
            *r == old(self).spec_inner(),
            final(self).spec_inner() == *final(r),
            *final(self) is Boxed <==> *old(self) is Boxed,
    {
        match self {
            Value::Boxed(b) => b,
            Value::Raw(t) => t,
        }
    }
}

/// A failed lock attempt: the platform error, together with the caller's
/// original value handed back unlocked. Construction is atomic — the caller
/// ends up with a locked guard or with this, never with a guard that is not
/// actually locked.
#[derive(Debug)]
pub struct LockFailed<T> {
    pub error: PlatformError,
    pub value: Value<T>,
}

/// What `Mlock::new` returns for a value `v` and a platform lock outcome:
/// on success, a guard owning exactly `v`; on failure, exactly the platform
/// error together with `v` itself, so ownership is never lost.
pub open spec fn lock_transition<T>(
    v: Value<T>,
    outcome: Result<(), PlatformError>,
    r: Result<Mlock<T>, LockFailed<T>>,
) -> bool {
    match outcome {
        Ok(_) => r matches Ok(m) && m.spec_value() == v,
        Err(e) => r matches Err(f) && f.value == v && f.error == e,
    }
}

/// What `Mlock::unlock` returns for a guard `m` and a platform unlock
/// outcome: on success, exactly the value `m` owned; on failure, exactly the
/// platform error and no value — success is never claimed and no value is
/// fabricated when the primitive failed.
pub open spec fn unlock_transition<T>(
    m: Mlock<T>,
    outcome: Result<(), PlatformError>,
    r: Result<Value<T>, PlatformError>,
) -> bool {
    match outcome {
        Ok(_) => r matches Ok(v) && v == m.spec_value(),
        Err(e) => r matches Err(f) && f == e,
    }
}

/// Memory-lock guard: owns one `Value` for the whole span during which its
/// backing memory is pinned. The only reachable state after a successful
/// construction is "locked"; `unlock` consumes the guard, so lock and unlock
/// are always paired, over the same value and hence the same byte length.
pub struct Mlock<T> {
    inner: Value<T>,
}

impl<T> Mlock<T> {
    /// The owned value, storage strategy included.
    pub closed spec fn spec_value(self) -> Value<T> {
        self.inner
    }

    /// The wrapped item itself.
    pub open spec fn spec_inner(self) -> T {
        self.spec_value().spec_inner()
    }

    /// Wrap `inner`, given the outcome the platform layer reported for the
    /// lock call on `inner`'s memory region. On a success outcome the guard
    /// owns `inner` unchanged; on a failure outcome the error is surfaced
    /// and `inner` is returned to the caller unlocked.
    ///
    /// A zero-sized item is passed through unchanged like any other: whether
    /// the platform accepts a zero-length region is the platform's decision,
    /// and this layer only relays it.
    pub fn new(inner: Value<T>, lock_outcome: Result<(), PlatformError>) -> (r: Result<
        Mlock<T>,
        LockFailed<T>,
    >)
        ensures
            lock_transition(inner, lock_outcome, r),
    {
        match lock_outcome {
            Ok(_) => Ok(Mlock { inner }),
            Err(error) => Err(LockFailed { error, value: inner }),
        }
    }

    /// Consume the guard, given the outcome the platform layer reported for
    /// the unlock call on the owned region. On a success outcome the owned
    /// value is moved out and returned; on a failure outcome the error is
    /// returned and the value is gone with the guard — a failed unlock is
    /// deliberately terminal, since the region may still be pinned and
    /// handing the value out as usable would be misleading.
    pub fn unlock(self, unlock_outcome: Result<(), PlatformError>) -> (r: Result<
        Value<T>,
        PlatformError,
    >)
        ensures
            unlock_transition(self, unlock_outcome, r),
    {
        match unlock_outcome {
            Ok(_) => Ok(self.inner),
            Err(error) => Err(error),
        }
    }

    /// Exact byte length of the owned item: the same length for the lock
    /// call and for the eventual unlock call.
    pub fn size_of(&self) -> (n: usize)
        ensures
            n as nat == vstd::layout::size_of::<T>(),
    {
        core::mem::size_of::<T>()
    }

    /// Read access to the owned item, without unlocking: a plain memory
    /// indirection that cannot fail.
    pub fn access(&self) -> (r: &T)
        ensures
            *r == self.spec_inner(),
    {
        self.inner.as_ref()
    }

    /// Write access to the owned item, without unlocking. The reference
    /// leads into the guard's own storage, so a write through it is exactly
    /// a write to the value that `unlock` will later hand back.
    pub fn access_mut(&mut self) -> (r: &mut T)
        ensures
            *r == old(self).spec_inner(),
            final(self).spec_inner() == *final(r),
            final(self).spec_value() is Boxed <==> old(self).spec_value() is Boxed,
    {
        self.inner.as_mut()
    }
}

} // verus!
