//! A deterministic time abstraction: a clock facade that normally reads the
//! real system clock but can be switched, per explicitly threaded mock state,
//! to replay pre-scripted readings, together with a nanosecond-precision
//! absolute-time value type with arithmetic and a fixed 8-byte wire encoding.

pub mod clock;
pub mod time;

pub use clock::Clock;
pub use clock::MockClockGuard;
pub use clock::MockClockPerState;
pub use clock::MockClockPerThread;
pub use time::Duration;
pub use time::Time;
pub use time::TimeDecodeError;
