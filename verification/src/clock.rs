//! The mock-capable clock facade.
//!
//! `Clock` reads real time from the system (wall-clock UTC through chrono,
//! monotonic readings through std) unless the mock state it is handed is
//! active, in which case every call consumes the next pre-scripted value from
//! a FIFO queue and advances a call counter. `MockClockGuard` is the token of
//! an active mocking session: it activates the state on construction and is
//! the only API for feeding scripted samples. Mock state is meant to be owned
//! by one thread; callers that keep it in thread-local storage get full
//! isolation between threads, because no other thread can reach the value.
//!
//! Scripted monotonic readings are replayed as the absolute captured instants
//! that were queued, so two equal readings in a test script mean the very
//! same queued value.

use vstd::pervasive::unreached;
use vstd::prelude::*;

use crate::time::Duration;
use crate::time::Time;

verus! {

/// std's monotonic instant, opaque to the verifier; values are only carried
/// through queues and handed back unchanged.
#[verifier::external_type_specification]
#[verifier::external_body]
pub struct ExInstant(std::time::Instant);

/// Relies on std::time::Instant::now: an opaque reading of the monotonic
/// clock. The value depends on the machine and the moment, so nothing is
/// stated of it.
#[verifier::external_body]
fn instant_now() -> std::time::Instant {
    std::time::Instant::now()
}

/// Relies on chrono::Utc::now and chrono::DateTime::timestamp_nanos_opt: the
/// current wall-clock UTC reading, counted as non-leap nanoseconds since the
/// Unix epoch, or `None` for a reading outside the roughly 584-year span an
/// `i64` nanosecond count can carry. The two calls stand in one body because
/// chrono's timestamp type carries a trait bound that cannot be declared to
/// the verifier. The value depends on the machine and the moment, so nothing
/// is stated of it.
#[verifier::external_body]
fn utc_now_nanos() -> Option<i64> {
    chrono::Utc::now().timestamp_nanos_opt()
}

/// The scripted samples and call counters of one mocking session.
pub struct MockClockPerState {
    /// Scripted UTC readings, consumed oldest-first by `Clock::utc`.
    pub utc_list: Vec<Time>,
    /// Scripted monotonic readings, consumed oldest-first by `Clock::instant`.
    pub instant_list: Vec<std::time::Instant>,
    /// How many times `Clock::utc` was called since activation.
    pub utc_call_count: u64,
    /// How many times `Clock::instant` was called since activation.
    pub instant_call_count: u64,
}

impl MockClockPerState {
    /// Well-formed: each counter can still advance once per queued sample
    /// without wrapping.
    pub open spec fn wf(self) -> bool {
        &&& self.utc_call_count + self.utc_list@.len() <= u64::MAX
        &&& self.instant_call_count + self.instant_list@.len() <= u64::MAX
    }

    /// A fresh session: empty queues, zero counters.
    pub fn new() -> (r: MockClockPerState)
        ensures
            r.utc_list@ == Seq::<Time>::empty(),
            r.instant_list@ == Seq::<std::time::Instant>::empty(),
            r.utc_call_count == 0,
            r.instant_call_count == 0,
            r.wf(),
    {
        MockClockPerState {
            utc_list: Vec::new(),
            instant_list: Vec::new(),
            utc_call_count: 0,
            instant_call_count: 0,
        }
    }
}

impl Default for MockClockPerState {
    /// Same fresh session as `new`.
    fn default() -> (r: MockClockPerState)
        ensures
            r.utc_list@ == Seq::<Time>::empty(),
            r.instant_list@ == Seq::<std::time::Instant>::empty(),
            r.utc_call_count == 0,
            r.instant_call_count == 0,
            r.wf(),
    {
        MockClockPerState::new()
    }
}

/// The whole mocking state of one thread: `mock` present means a session is
/// active; absent means every clock call reads real time. Queues and counters
/// live only inside an active session and are discarded wholesale when it
/// ends.
pub struct MockClockPerThread {
    /// The active session, if any.
    pub mock: Option<MockClockPerState>,
}

impl MockClockPerThread {
    /// Well-formed: an active session is itself well-formed.
    pub open spec fn wf(self) -> bool {
        self.mock matches Some(s) ==> s.wf()
    }

    /// The initial state of a thread: inactive.
    pub fn new() -> (r: MockClockPerThread)
        ensures
            r.mock is None,
            r.wf(),
    {
        MockClockPerThread { mock: None }
    }
}

impl Default for MockClockPerThread {
    /// Same inactive state as `new`.
    fn default() -> (r: MockClockPerThread)
        ensures
            r.mock is None,
            r.wf(),
    {
        MockClockPerThread::new()
    }
}

/// The clock facade. It holds no data of its own; every method dispatches on
/// the mock state it is handed: real readings while inactive, the next
/// scripted value while active.
pub struct Clock {}

impl Clock {
    /// Turns the mocking logic on: the state becomes an active session with
    /// empty queues and zero counters, whatever it was before. The one-guard-
    /// per-thread rule is enforced by `MockClockGuard::new`, not here.
    pub fn set_mock(state: &mut MockClockPerThread)
        ensures
            final(state).mock matches Some(s) && s.utc_list@ == Seq::<Time>::empty()
                && s.instant_list@ == Seq::<std::time::Instant>::empty() && s.utc_call_count == 0
                && s.instant_call_count == 0,
            final(state).wf(),
    {
        state.mock = Some(MockClockPerState::new());
    }

    /// Turns the mocking logic off, discarding any unconsumed scripted
    /// samples and the counters.
    pub fn reset(state: &mut MockClockPerThread)
        ensures
            final(state).mock is None,
            final(state).wf(),
    {
        state.mock = None;
    }

    /// The current UTC reading as a `Time`. Inactive state: a real reading
    /// from the system wall clock, the state untouched. Active state: the
    /// call counter advances and the oldest scripted sample is consumed; an
    /// empty queue is a fatal test-authoring error, excluded here by
    /// precondition.
    pub fn utc(state: &mut MockClockPerThread) -> (r: Time)
        requires
            old(state).wf(),
            old(state).mock matches Some(s) ==> s.utc_list@.len() > 0,
        ensures
            final(state).wf(),
            old(state).mock is None ==> *final(state) == *old(state),
            old(state).mock matches Some(s) ==> final(state).mock matches Some(s2) && r
                == s.utc_list@[0] && s2.utc_list@ == s.utc_list@.remove(0) && s2.utc_call_count
                == s.utc_call_count + 1 && s2.instant_list@ == s.instant_list@
                && s2.instant_call_count == s.instant_call_count,
    {
        match &mut state.mock {
            Some(s) => {
                s.utc_call_count = s.utc_call_count + 1;
                s.utc_list.remove(0)
            },
            None => {
                match utc_now_nanos() {
                    Some(n) => Time::from_unix_nanos(n),
                    None => Time::from_nanos_since_epoch(0),
                }
            },
        }
    }

    /// The current monotonic reading. Inactive state: a real reading, the
    /// state untouched. Active state: the call counter advances and the
    /// oldest scripted instant is replayed; an empty queue is a fatal
    /// test-authoring error, excluded here by precondition.
    pub fn instant(state: &mut MockClockPerThread) -> (r: std::time::Instant)
        requires
            old(state).wf(),
            old(state).mock matches Some(s) ==> s.instant_list@.len() > 0,
        ensures
            final(state).wf(),
            old(state).mock is None ==> *final(state) == *old(state),
            old(state).mock matches Some(s) ==> final(state).mock matches Some(s2) && r
                == s.instant_list@[0] && s2.instant_list@ == s.instant_list@.remove(0)
                && s2.instant_call_count == s.instant_call_count + 1 && s2.utc_list@
                == s.utc_list@ && s2.utc_call_count == s.utc_call_count,
    {
        match &mut state.mock {
            Some(s) => {
                s.instant_call_count = s.instant_call_count + 1;
                s.instant_list.remove(0)
            },
            None => instant_now(),
        }
    }

    /// The current time as a `Time`; built on `utc`, so it is mock-aware
    /// through `utc` and has no separate mocking path.
    pub fn now(state: &mut MockClockPerThread) -> (r: Time)
        requires
            old(state).wf(),
            old(state).mock matches Some(s) ==> s.utc_list@.len() > 0,
        ensures
            final(state).wf(),
            old(state).mock is None ==> *final(state) == *old(state),
            old(state).mock matches Some(s) ==> final(state).mock matches Some(s2) && r
                == s.utc_list@[0] && s2.utc_list@ == s.utc_list@.remove(0) && s2.utc_call_count
                == s.utc_call_count + 1 && s2.instant_list@ == s.instant_list@
                && s2.instant_call_count == s.instant_call_count,
    {
        Clock::utc(state)
    }
}

/// The token of an active mocking session. Constructing one activates the
/// mock state; it is the sole API for scripting samples. At most one live
/// guard per state: constructing a second is a fatal misuse, excluded here by
/// precondition. Callers that hold the state in thread-local storage and tie
/// the reset to the guard's scope end get the session cleaned on every exit
/// path.
pub struct MockClockGuard {}

impl MockClockGuard {
    /// Activates mocking on `state`. A state that already has an active
    /// session is a fatal misuse.
    pub fn new(state: &mut MockClockPerThread) -> (g: MockClockGuard)
        requires
            old(state).mock is None,
        ensures
            final(state).mock matches Some(s) && s.utc_list@ == Seq::<Time>::empty()
                && s.instant_list@ == Seq::<std::time::Instant>::empty() && s.utc_call_count == 0
                && s.instant_call_count == 0,
            final(state).wf(),
    {
        if state.mock.is_some() {
            return unreached();
        }
        Clock::set_mock(state);
        MockClockGuard {}
    }

    /// Appends one scripted UTC sample; it will be returned by a future
    /// `Clock::utc` call. Adding to an inactive state is a fatal misuse.
    pub fn add_utc(&self, state: &mut MockClockPerThread, mock_date: Time)
        requires
            old(state).wf(),
            old(state).mock matches Some(s) && s.utc_call_count + s.utc_list@.len() < u64::MAX,
        ensures
            final(state).wf(),
            old(state).mock matches Some(s) ==> final(state).mock matches Some(s2) && s2.utc_list@
                == s.utc_list@.push(mock_date) && s2.instant_list@ == s.instant_list@
                && s2.utc_call_count == s.utc_call_count && s2.instant_call_count
                == s.instant_call_count,
    {
        match &mut state.mock {
            Some(s) => s.utc_list.push(mock_date),
            None => unreached(),
        }
    }

    /// Appends one scripted monotonic reading; it will be replayed by a
    /// future `Clock::instant` call. Adding to an inactive state is a fatal
    /// misuse.
    pub fn add_instant(&self, state: &mut MockClockPerThread, mock_date: std::time::Instant)
        requires
            old(state).wf(),
            old(state).mock matches Some(s) && s.instant_call_count + s.instant_list@.len()
                < u64::MAX,
        ensures
            final(state).wf(),
            old(state).mock matches Some(s) ==> final(state).mock matches Some(s2)
                && s2.instant_list@ == s.instant_list@.push(mock_date) && s2.utc_list@
                == s.utc_list@ && s2.utc_call_count == s.utc_call_count && s2.instant_call_count
                == s.instant_call_count,
    {
        match &mut state.mock {
            Some(s) => s.instant_list.push(mock_date),
            None => unreached(),
        }
    }

    /// How many times `Clock::utc` was called since activation. Reading it
    /// off an inactive state is a fatal misuse.
    pub fn utc_call_count(&self, state: &MockClockPerThread) -> (r: u64)
        requires
            state.mock is Some,
        ensures
            state.mock matches Some(s) ==> r == s.utc_call_count,
    {
        match &state.mock {
            Some(s) => s.utc_call_count,
            None => unreached(),
        }
    }

    /// How many times `Clock::instant` was called since activation. Reading
    /// it off an inactive state is a fatal misuse.
    pub fn instant_call_count(&self, state: &MockClockPerThread) -> (r: u64)
        requires
            state.mock is Some,
        ensures
            state.mock matches Some(s) ==> r == s.instant_call_count,
    {
        match &state.mock {
            Some(s) => s.instant_call_count,
            None => unreached(),
        }
    }

    /// Ends the session: deactivates the state and discards all scripted
    /// data, exactly as the session's scope end is meant to. Consumes the
    /// guard, so a released session cannot be scripted further through it.
    pub fn release(self, state: &mut MockClockPerThread)
        ensures
            final(state).mock is None,
            final(state).wf(),
    {
        Clock::reset(state);
    }
}

impl Time {
    /// How long ago `self` was, measured against `Clock::now` on the given
    /// state: mock-aware through `utc`, saturating to zero for instants
    /// still in the future.
    pub fn elapsed(self, state: &mut MockClockPerThread) -> (r: Duration)
        requires
            old(state).wf(),
            old(state).mock matches Some(s) ==> s.utc_list@.len() > 0,
        ensures
            final(state).wf(),
            old(state).mock is None ==> *final(state) == *old(state),
            old(state).mock matches Some(s) ==> final(state).mock matches Some(s2) && r
                == s.utc_list@[0].spec_duration_since(self) && s2.utc_list@
                == s.utc_list@.remove(0) && s2.utc_call_count == s.utc_call_count + 1 && s2.instant_list@ == s.instant_list@
                && s2.instant_call_count == s.instant_call_count,
    {
        let now = Clock::now(state);
        now.duration_since(self)
    }
}

} // verus!

