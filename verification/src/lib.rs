//! Driver for the MPU6050 six-axis motion sensor behind a register-addressed
//! serial bus: transactions on registers, bring-up, single readings, the
//! buffer of the device, and paced streams of samples.
//!
//! The driver reaches the outside world through a [`Bus`] alone. Everything
//! it does there is recorded, and the contracts of its operations say what
//! an operation adds to that record and what it returns for it.

pub mod bus;
pub mod common;
pub mod engine;
pub mod error;
pub mod fifo;
pub mod mpu6050;
pub mod pacing;
pub mod reading;
pub mod registers;
pub mod sink;
pub mod status;
pub mod stream;
pub mod text;
pub mod ticks;
pub mod trace;

pub use bus::{Bus, Channel, ChannelConfig};
pub use common::TimeKeeper;
pub use error::Mpu6050Error;
pub use fifo::{divider, FifoState};
pub use mpu6050::{Command, Mpu6050};
pub use pacing::Pacer;
pub use reading::{parse_fifo_data, SensorData};
pub use sink::StreamControl;
pub use status::status_to_string;
pub use ticks::{Plan, Source, Stop};
