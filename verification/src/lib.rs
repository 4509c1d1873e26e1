//! A spin lock for very short critical sections.
//!
//! A [`SpinLock`] keeps one value and a flag that is either free or held.
//! Whoever turns the flag from free to held receives a [`Guard`], reads and
//! writes the value through it, and frees the flag by letting the guard go
//! out of scope. Whoever finds the flag held tries again, as often as the
//! caller allows: waiting is busy-waiting, never sleep.
//!
//! * [`flag`] holds the flag's two values, the atomic operations on it as
//!   pure transitions, and the atomic cell itself;
//! * [`model`] holds the lock as a state machine of flag, payload and live
//!   handles, and the laws proved of every run of it;
//! * [`lock`] holds the lock and its guard.
pub mod flag;
pub mod lock;
pub mod model;
mod slot;

pub use lock::Guard;
pub use lock::SpinLock;
