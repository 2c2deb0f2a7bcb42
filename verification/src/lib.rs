//! Actuation and coordination layer of a buffer-exchange rig.
//!
//! The rig is a manifold of servo-driven valves and one peristaltic pump on an
//! H-bridge. This crate is the decision-making half of its driver: it keeps a
//! model of every output line, works out which writes and waits a command
//! calls for, and sequences commands into a protocol run. Every duration and
//! instant is a whole number of microseconds.
//!
//! Nothing here touches the hardware. Each actuator says what a command
//! calls for (`planned`), the program around the library carries that out,
//! and the actuator takes note of how it went (`committed`). The coordinator
//! works the same way: it names the pending step and takes the answer.
//! Every actuator can also be driven on its model alone, where a line
//! refuses a write exactly when a failure is on record for it.

pub mod comm;
pub mod config;
pub mod interlock;
pub mod messages;
pub mod motor;
pub mod pin;
pub mod pump;
pub mod scheduler;
pub mod setup;

pub use comm::{
    Actuator, Cause, Coordinator, Error as CoordError, State as ExecState, Status, Step,
};
pub use config::{Config, ConfigError, MotorSpec, PumpConfig};
pub use motor::{Error as MotorError, Message as MotorMessage, Motor};
pub use pin::{Error as PinError, Pin, PinBank, Pwm};
pub use pump::{Direction as PumpDirection, Message as PumpMessage, Pump, Refusal, Signal};
pub use scheduler::{Delivery, PulseQueue, ScheduledChange, Supervisor};
pub use setup::{assemble, SetupError};
