//! The errors of the driver.

use vstd::prelude::*;
use vstd::string::*;
use crate::status::{status_text, status_to_string, FT_OK};
use crate::text::{append_decimal, append_hex_byte, decimal_text, hex_byte_text};

verus! {

/// What can go wrong while talking to the sensor.
#[derive(Debug, Clone, PartialEq, Eq)]
pub enum Mpu6050Error {
    /// The bus reported a status other than `FT_OK`.
    BusFault { status: u32, description: String },
    /// The bridge offers no channel at all.
    NoChannelsFound,
    /// The channel index is not below the number of channels.
    InvalidChannel(u32),
    /// The identity register did not hold the expected value.
    InvalidDeviceId(u8),
    /// The bus moved another number of bytes than was asked for.
    TransferError { expected: u32, actual: u32 },
    /// An argument is outside its range.
    InvalidParameter(String),
    /// A buffered read was asked for while buffering is off.
    FifoNotEnabled,
    /// The buffer of the device overflowed; roughly `samples_lost` samples
    /// were in it when it was cleared.
    FifoOverflow { samples_lost: u16 },
    /// Buffered data does not consist of whole samples.
    InvalidFifoConfig(String),
}

/// An error with its texts as sequences of characters.
pub enum ErrorView {
    BusFault { status: u32, description: Seq<char> },
    NoChannelsFound,
    InvalidChannel(u32),
    InvalidDeviceId(u8),
    TransferError { expected: u32, actual: u32 },
    InvalidParameter(Seq<char>),
    FifoNotEnabled,
    FifoOverflow { samples_lost: u16 },
    InvalidFifoConfig(Seq<char>),
}

impl View for Mpu6050Error {
    type V = ErrorView;

    open spec fn view(&self) -> ErrorView {
        match self {
            Mpu6050Error::BusFault { status, description } => ErrorView::BusFault {
                status: *status,
                description: description@,
            },
            Mpu6050Error::NoChannelsFound => ErrorView::NoChannelsFound,
            Mpu6050Error::InvalidChannel(index) => ErrorView::InvalidChannel(*index),
            Mpu6050Error::InvalidDeviceId(got) => ErrorView::InvalidDeviceId(*got),
            Mpu6050Error::TransferError { expected, actual } => ErrorView::TransferError {
                expected: *expected,
                actual: *actual,
            },
            Mpu6050Error::InvalidParameter(reason) => ErrorView::InvalidParameter(reason@),
            Mpu6050Error::FifoNotEnabled => ErrorView::FifoNotEnabled,
            Mpu6050Error::FifoOverflow { samples_lost } => ErrorView::FifoOverflow {
                samples_lost: *samples_lost,
            },
            Mpu6050Error::InvalidFifoConfig(reason) => ErrorView::InvalidFifoConfig(reason@),
        }
    }
}

/// The fault that stands for a status other than `FT_OK`.
pub open spec fn bus_fault(status: u32) -> ErrorView {
    ErrorView::BusFault { status, description: status_text(status) }
}

/// The text that describes an error to a person.
pub open spec fn message_text(e: ErrorView) -> Seq<char> {
    match e {
        ErrorView::BusFault { status, description } => "FTDI error: "@ + decimal_text(
            status as nat,
        ) + " ("@ + description + ")"@,
        ErrorView::NoChannelsFound => "No I2C channels found"@,
        ErrorView::InvalidChannel(index) => "Invalid channel index: "@ + decimal_text(
            index as nat,
        ),
        ErrorView::InvalidDeviceId(got) => "Invalid WHO_AM_I response: expected 0x68, got 0x"@
            + hex_byte_text(got),
        ErrorView::TransferError { expected, actual } => "Data transfer error: expected "@
            + decimal_text(expected as nat) + " bytes, transferred "@ + decimal_text(
            actual as nat,
        ),
        ErrorView::InvalidParameter(reason) => "Invalid parameter: "@ + reason,
        ErrorView::FifoNotEnabled => "FIFO not enabled"@,
        ErrorView::FifoOverflow { samples_lost } => "FIFO overflow: ~"@ + decimal_text(
            samples_lost as nat,
        ) + " samples lost"@,
        ErrorView::InvalidFifoConfig(reason) => "Invalid FIFO configuration: "@ + reason,
    }
}

impl Mpu6050Error {
    /// The fault for a status that the bus reported. `FT_OK` is no fault.
    pub fn from(status: u32) -> (e: Mpu6050Error)
        requires
            status != FT_OK,
        ensures
            e@ == bus_fault(status),
    {
        Mpu6050Error::BusFault {
            status,
            description: String::from_str(status_to_string(status)),
        }
    }

    /// Describes the error to a person.
    pub fn message(&self) -> (text: String)
        ensures
            text@ == message_text(self@),
    {
        match self {
            Mpu6050Error::BusFault { status, description } => {
                let mut text = String::from_str("FTDI error: ");
                append_decimal(&mut text, *status as u64);
                text.append(" (");
                text.append(description.as_str());
                text.append(")");
                text
            },
            Mpu6050Error::NoChannelsFound => String::from_str("No I2C channels found"),
            Mpu6050Error::InvalidChannel(index) => {
                let mut text = String::from_str("Invalid channel index: ");
                append_decimal(&mut text, *index as u64);
                text
            },
            Mpu6050Error::InvalidDeviceId(got) => {
                let mut text = String::from_str(
                    "Invalid WHO_AM_I response: expected 0x68, got 0x",
                );
                append_hex_byte(&mut text, *got);
                text
            },
            Mpu6050Error::TransferError { expected, actual } => {
                let mut text = String::from_str("Data transfer error: expected ");
                append_decimal(&mut text, *expected as u64);
                text.append(" bytes, transferred ");
                append_decimal(&mut text, *actual as u64);
                text
            },
            Mpu6050Error::InvalidParameter(reason) => {
                let mut text = String::from_str("Invalid parameter: ");
                text.append(reason.as_str());
                text
            },
            Mpu6050Error::FifoNotEnabled => String::from_str("FIFO not enabled"),
            Mpu6050Error::FifoOverflow { samples_lost } => {
                let mut text = String::from_str("FIFO overflow: ~");
                append_decimal(&mut text, *samples_lost as u64);
                text.append(" samples lost");
                text
            },
            Mpu6050Error::InvalidFifoConfig(reason) => {
                let mut text = String::from_str("Invalid FIFO configuration: ");
                text.append(reason.as_str());
                text
            },
        }
    }
}

} // verus!
