use vstd::prelude::*;

use crate::error::EsdmError;

verus! {

/// Nanoseconds in one second.
pub const NANOS_PER_SEC: i64 = 1_000_000_000;

/// A point on the monotonic clock, as the wait channel takes it.
#[derive(Clone, Copy, Debug, PartialEq, Eq, Structural)]
pub struct Timespec {
    pub sec: i64,
    pub nsec: i64,
}

/// Whether the nanoseconds of `t` lie within one second.
pub open spec fn is_normalized(t: Timespec) -> bool {
    0 <= t.nsec < NANOS_PER_SEC
}

/// Nanoseconds in one second, as a mathematical integer.
pub open spec fn nanos_per_sec() -> int {
    NANOS_PER_SEC as int
}

/// The point `t` in nanoseconds.
pub open spec fn total_nanos(t: Timespec) -> int {
    t.sec * nanos_per_sec() + t.nsec
}

/// The deadline that lies `secs` seconds and `nanos` nanoseconds after `now`, with
/// its nanoseconds within one second; `None` where `now` is not normalized or the
/// deadline's seconds do not fit in 64 bits.
pub open spec fn deadline_of(now: Timespec, secs: u64, nanos: u32) -> Option<Timespec> {
    let x: int = now.nsec + nanos;
    let sec: int = now.sec + secs + x / nanos_per_sec();
    if is_normalized(now) && sec <= i64::MAX {
        Some(Timespec { sec: sec as i64, nsec: (x % nanos_per_sec()) as i64 })
    } else {
        None
    }
}

/// A deadline lies exactly the timeout after the point it was computed from; a
/// zero timeout gives that point itself.
pub proof fn lemma_deadline_is_now_plus_timeout(now: Timespec, secs: u64, nanos: u32)
    requires
        deadline_of(now, secs, nanos).is_some(),
    ensures
        is_normalized(deadline_of(now, secs, nanos).unwrap()),
        total_nanos(deadline_of(now, secs, nanos).unwrap()) == total_nanos(now) + secs
            * nanos_per_sec() + nanos,
        secs == 0 && nanos == 0 ==> deadline_of(now, secs, nanos) == Some(now),
{
    let d = deadline_of(now, secs, nanos).unwrap();
    let x: int = now.nsec + nanos;
    let q: int = x / nanos_per_sec();
    let m: int = x % nanos_per_sec();
    assert(x == q * 1_000_000_000 + m && 0 <= m < 1_000_000_000) by (nonlinear_arith)
        requires
            x >= 0,
            q == x / 1_000_000_000,
            m == x % 1_000_000_000,
    ;
    assert(total_nanos(d) == (now.sec + secs + q) * 1_000_000_000 + m);
    assert((now.sec + secs + q) * 1_000_000_000 == now.sec * 1_000_000_000 + secs
        * 1_000_000_000 + q * 1_000_000_000) by (nonlinear_arith);
}

/// The deadline for a wait of `secs` seconds and `nanos` nanoseconds that starts at
/// `now`.
pub fn deadline_after(now: Timespec, secs: u64, nanos: u32) -> (r: Option<Timespec>)
    ensures
        r == deadline_of(now, secs, nanos),
{
    if now.nsec < 0 || now.nsec >= NANOS_PER_SEC {
        return None;
    }
    let x: i64 = now.nsec + nanos as i64;
    let carry: i64 = x / NANOS_PER_SEC;
    let nsec: i64 = x % NANOS_PER_SEC;
    let sec: i128 = now.sec as i128 + secs as i128 + carry as i128;
    if sec > i64::MAX as i128 {
        return None;
    }
    Some(Timespec { sec: sec as i64, nsec })
}

/// How a timed wait on the wait channel ended.
#[derive(Clone, Copy, Debug, PartialEq, Eq, Structural)]
pub enum WaitSignal {
    /// The daemon signalled that it needs entropy, or the wait ended otherwise
    /// before its deadline.
    Woken,
    /// The deadline passed first.
    TimedOut,
}

/// Where a notification handle stands.
#[derive(Clone, Copy, Debug, PartialEq, Eq, Structural)]
pub enum NotifierState {
    /// The wait channel is set up and no wait is in progress.
    Created,
    /// A timed wait is in progress.
    Waiting,
    /// The wait channel is released; the handle is spent.
    Finalized,
}

/// A handle on the wait channel through which the daemon signals that it needs
/// entropy. It is set up once and must be finalized exactly once.
pub struct EsdmNotification {
    state: NotifierState,
}

impl EsdmNotification {
    pub closed spec fn spec_state(&self) -> NotifierState {
        self.state
    }

    /// A handle on the wait channel, where its init call answered `init_code`: only
    /// a success (`0`) gives one.
    pub fn new(init_code: i32) -> (r: Option<EsdmNotification>)
        ensures
            r.is_some() == (init_code == 0),
            r.is_some() ==> r.unwrap().spec_state() == NotifierState::Created,
    {
        if init_code == 0 {
            Some(EsdmNotification { state: NotifierState::Created })
        } else {
            None
        }
    }

    /// Where the handle stands.
    pub fn state(&self) -> (s: NotifierState)
        ensures
            s == self.spec_state(),
    {
        self.state
    }

    /// Starts a timed wait of `secs` seconds and `nanos` nanoseconds, given the
    /// monotonic clock's reading (`None` where it could not be read). Returns the
    /// absolute deadline to wait until; the deadline is computed anew for every wait.
    pub fn begin_wait(&mut self, now: Option<Timespec>, secs: u64, nanos: u32) -> (r: Result<
        Timespec,
        EsdmError,
    >)
        requires
            old(self).spec_state() == NotifierState::Created,
        ensures
            match now {
                Some(t) => match deadline_of(t, secs, nanos) {
                    Some(d) => r == Ok::<Timespec, EsdmError>(d),
                    None => r == Err::<Timespec, EsdmError>(EsdmError::Clock),
                },
                None => r == Err::<Timespec, EsdmError>(EsdmError::Clock),
            },
            final(self).spec_state() == if r.is_ok() {
                NotifierState::Waiting
            } else {
                NotifierState::Created
            },
    {
        match now {
            Some(t) => match deadline_after(t, secs, nanos) {
                Some(d) => {
                    self.state = NotifierState::Waiting;
                    Ok(d)
                },
                None => Err(EsdmError::Clock),
            },
            None => Err(EsdmError::Clock),
        }
    }

    /// Ends the timed wait in progress. A wait that reached its deadline fails with
    /// `TimedOut`; otherwise the caller goes on to query the entropy count.
    pub fn end_wait(&mut self, signal: WaitSignal) -> (r: Result<(), EsdmError>)
        requires
            old(self).spec_state() == NotifierState::Waiting,
        ensures
            r == match signal {
                WaitSignal::Woken => Ok::<(), EsdmError>(()),
                WaitSignal::TimedOut => Err(EsdmError::TimedOut),
            },
            final(self).spec_state() == NotifierState::Created,
    {
        self.state = NotifierState::Created;
        match signal {
            WaitSignal::Woken => Ok(()),
            WaitSignal::TimedOut => Err(EsdmError::TimedOut),
        }
    }

    /// Releases the handle: the caller then makes the wait channel's fini call. A
    /// handle is finalized once only.
    pub fn finalize(&mut self)
        requires
            old(self).spec_state() != NotifierState::Finalized,
        ensures
            final(self).spec_state() == NotifierState::Finalized,
    {
        self.state = NotifierState::Finalized;
    }
}

} // verus!
