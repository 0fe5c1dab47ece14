//! Decoder for the single-wire timing protocol of a DHT22 humidity and
//! temperature sensor.
//!
//! A read is one [`Exchange`] with the sensor: the line is pulled low to
//! request a reading, the sensor answers with a handshake and 40 bits, each
//! told by how long the line stays high, and the durations between the 81
//! edges are decoded into a [`SensorReading`]. All that is needed from the
//! hardware is a pin ([`IOPin`]) and a free-running microsecond counter
//! ([`MicroTimer`]).
//!
//! The exchange is a state machine that performs no I/O itself. It names the
//! next operation on the pin or the clock and takes its answer, and so decides
//! the order of the protocol, every timeout and every error. [`Dht22`]
//! carries out single operations. What remains for the caller is the busy
//! loop that advances an exchange until it is done, and the critical section
//! that keeps interrupts away while the exchange is timing-critical:
//!
//! ```text
//! let mut exchange = Exchange::new();
//! critical_section(|| while exchange.is_timing_critical() {
//!     sensor.advance(&mut exchange);
//! });
//! while sensor.advance(&mut exchange) {}
//! let outcome = exchange.finish();
//! ```
//!
//! The modules, from the leaves up:
//! - [`time`]: instants and elapsed time on a counter that wraps;
//! - [`waiter`]: one wait against the clock, poll by poll;
//! - [`reading`]: from durations to bits, bytes, checksum and values;
//! - [`error`]: what can go wrong;
//! - [`exchange`]: the state machine;
//! - [`trace`]: what holds of every exchange, whatever comes in;
//! - [`polling`]: how an exchange gets through its waits, and what a sensor
//!   that answers in time is read as;
//! - [`capability`], [`sensor`]: the pin, the clock, and the sensor on them;
//! - [`cleanup`], [`region`]: helpers for the end of a scope and for the
//!   timing-critical part.

pub mod capability;
pub mod cleanup;
pub mod error;
pub mod exchange;
pub mod polling;
pub mod reading;
pub mod region;
pub mod sensor;
pub mod time;
pub mod trace;
pub mod waiter;

pub use capability::{IOPin, MicroTimer};
pub use cleanup::WithCleanup;
pub use error::DhtError;
pub use exchange::{Action, Event, Exchange};
pub use reading::SensorReading;
pub use sensor::Dht22;
pub use time::Microseconds;
pub use waiter::Waiter;
