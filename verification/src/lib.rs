//! A pluggable notion of time: a clock can capture an instant and can be asked
//! to let a duration pass. One clock follows the machine's monotonic timer, the
//! other a virtual cursor that moves only when it is told to.

pub mod clock;
pub mod cursor;
pub mod real_clock;
pub mod span;
pub mod virtual_clock;

pub use clock::{Clock, InstantHandle, Suspension, Time};
pub use cursor::{FakeTime, OverflowError, VirtualCursor};
pub use real_clock::{RealClock, RealTime};
pub use span::millis_of;
pub use virtual_clock::FakeClock;
