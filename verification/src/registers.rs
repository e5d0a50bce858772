//! The register map of the sensor.

use vstd::prelude::*;

verus! {

/// The address of the sensor on the bus.
pub const MPU6050_ADDRESS: u8 = 0x68;

pub const REG_SMPLRT_DIV: u8 = 0x19;
pub const REG_CONFIG: u8 = 0x1A;
pub const REG_GYRO_CONFIG: u8 = 0x1B;
pub const REG_ACCEL_CONFIG: u8 = 0x1C;
pub const REG_FIFO_EN: u8 = 0x23;
pub const REG_INT_STATUS: u8 = 0x3A;
pub const REG_ACCEL_XOUT_H: u8 = 0x3B;
pub const REG_GYRO_XOUT_H: u8 = 0x43;
pub const REG_USER_CTRL: u8 = 0x6A;
pub const REG_PWR_MGMT_1: u8 = 0x6B;
pub const REG_FIFO_COUNTH: u8 = 0x72;
pub const REG_FIFO_COUNTL: u8 = 0x73;
pub const REG_FIFO_R_W: u8 = 0x74;
pub const REG_WHO_AM_I: u8 = 0x75;

/// What the identity register holds.
pub const WHO_AM_I_VALUE: u8 = 0x68;

/// Routes the accelerometer into the buffer.
pub const FIFO_EN_ACCEL: u8 = 0x08;
/// Routes the x axis of the gyroscope into the buffer.
pub const FIFO_EN_GYRO_X: u8 = 0x40;
/// Routes the y axis of the gyroscope into the buffer.
pub const FIFO_EN_GYRO_Y: u8 = 0x20;
/// Routes the z axis of the gyroscope into the buffer.
pub const FIFO_EN_GYRO_Z: u8 = 0x10;
/// Routes all six axes into the buffer.
pub const FIFO_EN_ALL_SENSORS: u8 = FIFO_EN_ACCEL | FIFO_EN_GYRO_X | FIFO_EN_GYRO_Y
    | FIFO_EN_GYRO_Z;

/// The bit of the user control register that turns buffering on.
pub const USER_CTRL_FIFO_EN: u8 = 0x40;
/// The bit of the user control register that clears the buffer.
pub const USER_CTRL_FIFO_RESET: u8 = 0x04;
/// Both bits: clears the buffer and leaves buffering on.
pub const USER_CTRL_FIFO_RESET_KEEP: u8 = USER_CTRL_FIFO_RESET | USER_CTRL_FIFO_EN;

/// The bit of the interrupt status that reports an overflow of the buffer.
pub const INT_STATUS_FIFO_OVERFLOW: u8 = 0x10;

/// Low-pass filter setting under which the device samples at 1 kHz.
pub const DLPF_1KHZ: u8 = 0x01;

/// The rate at which the device samples under `DLPF_1KHZ`.
pub const GYRO_OUTPUT_RATE_HZ: u16 = 1000;

/// Settle time after waking the device.
pub const WAKE_SETTLE_MICROS: u64 = 100_000;
/// Settle time after clearing the buffer while it is being set up.
pub const ENABLE_SETTLE_MICROS: u64 = 10_000;
/// Settle time after clearing the buffer while it runs.
pub const RESET_SETTLE_MICROS: u64 = 1_000;

} // verus!
