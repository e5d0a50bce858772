//! Status codes reported by the bus bridge, and their names.

use vstd::prelude::*;

verus! {

pub const FT_OK: u32 = 0;
pub const FT_INVALID_HANDLE: u32 = 1;
pub const FT_DEVICE_NOT_FOUND: u32 = 2;
pub const FT_DEVICE_NOT_OPENED: u32 = 3;
pub const FT_IO_ERROR: u32 = 4;
pub const FT_INSUFFICIENT_RESOURCES: u32 = 5;
pub const FT_INVALID_PARAMETER: u32 = 6;
pub const FT_INVALID_BAUD_RATE: u32 = 7;
pub const FT_DEVICE_NOT_OPENED_FOR_ERASE: u32 = 8;
pub const FT_DEVICE_NOT_OPENED_FOR_WRITE: u32 = 9;
pub const FT_FAILED_TO_WRITE_DEVICE: u32 = 10;
pub const FT_EEPROM_READ_FAILED: u32 = 11;
pub const FT_EEPROM_WRITE_FAILED: u32 = 12;
pub const FT_EEPROM_ERASE_FAILED: u32 = 13;
pub const FT_EEPROM_NOT_PRESENT: u32 = 14;
pub const FT_EEPROM_NOT_PROGRAMMED: u32 = 15;
pub const FT_INVALID_ARGS: u32 = 16;
pub const FT_NOT_SUPPORTED: u32 = 17;
pub const FT_OTHER_ERROR: u32 = 18;

/// The name of a status code, as a sequence of characters. Codes above
/// `FT_OTHER_ERROR` have no name of their own.
pub open spec fn status_text(status: u32) -> Seq<char> {
    if status == FT_OK {
        "FT_OK"@
    } else if status == FT_INVALID_HANDLE {
        "FT_INVALID_HANDLE"@
    } else if status == FT_DEVICE_NOT_FOUND {
        "FT_DEVICE_NOT_FOUND"@
    } else if status == FT_DEVICE_NOT_OPENED {
        "FT_DEVICE_NOT_OPENED"@
    } else if status == FT_IO_ERROR {
        "FT_IO_ERROR"@
    } else if status == FT_INSUFFICIENT_RESOURCES {
        "FT_INSUFFICIENT_RESOURCES"@
    } else if status == FT_INVALID_PARAMETER {
        "FT_INVALID_PARAMETER"@
    } else if status == FT_INVALID_BAUD_RATE {
        "FT_INVALID_BAUD_RATE"@
    } else if status == FT_DEVICE_NOT_OPENED_FOR_ERASE {
        "FT_DEVICE_NOT_OPENED_FOR_ERASE"@
    } else if status == FT_DEVICE_NOT_OPENED_FOR_WRITE {
        "FT_DEVICE_NOT_OPENED_FOR_WRITE"@
    } else if status == FT_FAILED_TO_WRITE_DEVICE {
        "FT_FAILED_TO_WRITE_DEVICE"@
    } else if status == FT_EEPROM_READ_FAILED {
        "FT_EEPROM_READ_FAILED"@
    } else if status == FT_EEPROM_WRITE_FAILED {
        "FT_EEPROM_WRITE_FAILED"@
    } else if status == FT_EEPROM_ERASE_FAILED {
        "FT_EEPROM_ERASE_FAILED"@
    } else if status == FT_EEPROM_NOT_PRESENT {
        "FT_EEPROM_NOT_PRESENT"@
    } else if status == FT_EEPROM_NOT_PROGRAMMED {
        "FT_EEPROM_NOT_PROGRAMMED"@
    } else if status == FT_INVALID_ARGS {
        "FT_INVALID_ARGS"@
    } else if status == FT_NOT_SUPPORTED {
        "FT_NOT_SUPPORTED"@
    } else if status == FT_OTHER_ERROR {
        "FT_OTHER_ERROR"@
    } else {
        "UNKNOWN_ERROR"@
    }
}

/// Names a status code.
pub fn status_to_string(status: u32) -> (name: &'static str)
    ensures
        name@ == status_text(status),
{
    match status {
        0 => "FT_OK",
        1 => "FT_INVALID_HANDLE",
        2 => "FT_DEVICE_NOT_FOUND",
        3 => "FT_DEVICE_NOT_OPENED",
        4 => "FT_IO_ERROR",
        5 => "FT_INSUFFICIENT_RESOURCES",
        6 => "FT_INVALID_PARAMETER",
        7 => "FT_INVALID_BAUD_RATE",
        8 => "FT_DEVICE_NOT_OPENED_FOR_ERASE",
        9 => "FT_DEVICE_NOT_OPENED_FOR_WRITE",
        10 => "FT_FAILED_TO_WRITE_DEVICE",
        11 => "FT_EEPROM_READ_FAILED",
        12 => "FT_EEPROM_WRITE_FAILED",
        13 => "FT_EEPROM_ERASE_FAILED",
        14 => "FT_EEPROM_NOT_PRESENT",
        15 => "FT_EEPROM_NOT_PROGRAMMED",
        16 => "FT_INVALID_ARGS",
        17 => "FT_NOT_SUPPORTED",
        18 => "FT_OTHER_ERROR",
        _ => "UNKNOWN_ERROR",
    }
}

} // verus!
