//! One sample of the six axes, and how it is laid out on the wire.

use vstd::prelude::*;
use vstd::string::*;
use crate::error::{ErrorView, Mpu6050Error};
use crate::text::{append_decimal, decimal_text};

verus! {

/// Bytes that one buffered sample takes: two for each of the six axes.
pub const FIFO_SAMPLE_SIZE: usize = 12;

/// Bytes of one burst over the data registers: accelerometer, temperature,
/// gyroscope.
pub const BURST_SIZE: usize = 14;

/// Raw counts per g at the default range of two g.
pub const ACCEL_LSB_PER_G: i64 = 16384;

/// Raw counts per degree per second at the default range of 250 degrees per
/// second.
pub const GYRO_LSB_PER_DPS: i64 = 131;

/// The raw values of the six axes at one instant.
#[derive(Debug, Clone, Copy, PartialEq, Eq, Structural)]
pub struct SensorData {
    pub accel_x: i16,
    pub accel_y: i16,
    pub accel_z: i16,
    pub gyro_x: i16,
    pub gyro_y: i16,
    pub gyro_z: i16,
}

/// The signed 16-bit number whose big-endian bytes are `hi`, `lo`.
pub open spec fn be_i16(hi: u8, lo: u8) -> i16 {
    let u = hi as int * 256 + lo as int;
    if u >= 32768 {
        (u - 65536) as i16
    } else {
        u as i16
    }
}

/// The six axes read from `bytes[at .. at + 6]` and `bytes[at + gap + 6 .. at + gap + 12]`.
pub open spec fn sample_at(bytes: Seq<u8>, at: int, gap: int) -> SensorData {
    SensorData {
        accel_x: be_i16(bytes[at], bytes[at + 1]),
        accel_y: be_i16(bytes[at + 2], bytes[at + 3]),
        accel_z: be_i16(bytes[at + 4], bytes[at + 5]),
        gyro_x: be_i16(bytes[at + gap + 6], bytes[at + gap + 7]),
        gyro_y: be_i16(bytes[at + gap + 8], bytes[at + gap + 9]),
        gyro_z: be_i16(bytes[at + gap + 10], bytes[at + gap + 11]),
    }
}

/// The sample that a burst over the data registers holds: the two bytes of
/// temperature between accelerometer and gyroscope are passed over.
pub open spec fn burst_sample(bytes: Seq<u8>) -> SensorData {
    sample_at(bytes, 0, 2)
}

/// The samples that buffered bytes hold, one for each whole group of twelve.
pub open spec fn decode_samples(bytes: Seq<u8>) -> Seq<SensorData> {
    Seq::new(bytes.len() / 12, |i: int| sample_at(bytes, 12 * i, 0))
}

/// Why buffered data of `len` bytes is refused.
pub open spec fn misaligned_text(len: nat) -> Seq<char> {
    "FIFO data length "@ + decimal_text(len) + " is not a multiple of sample size 12"@
}

/// A raw value in millionths of the unit of which `scale` raw counts make one,
/// rounded towards zero.
pub open spec fn scaled_millionths(raw: i16, scale: int) -> int {
    if raw >= 0 {
        raw as int * 1_000_000 / scale
    } else {
        -((-(raw as int)) * 1_000_000 / scale)
    }
}

/// Reads a big-endian signed 16-bit number.
pub fn i16_from_be(hi: u8, lo: u8) -> (v: i16)
    ensures
        v == be_i16(hi, lo),
{
    let u: u16 = hi as u16 * 256 + lo as u16;
    if u >= 32768 {
        (u as i32 - 65536) as i16
    } else {
        u as i16
    }
}

fn decode_at(bytes: &[u8], at: usize, gap: usize) -> (sample: SensorData)
    requires
        gap <= 2,
        at + gap + 12 <= bytes@.len(),
    ensures
        sample == sample_at(bytes@, at as int, gap as int),
{
    let len: usize = bytes.len();
    let g: usize = at + gap;
    SensorData {
        accel_x: i16_from_be(bytes[at], bytes[at + 1]),
        accel_y: i16_from_be(bytes[at + 2], bytes[at + 3]),
        accel_z: i16_from_be(bytes[at + 4], bytes[at + 5]),
        gyro_x: i16_from_be(bytes[g + 6], bytes[g + 7]),
        gyro_y: i16_from_be(bytes[g + 8], bytes[g + 9]),
        gyro_z: i16_from_be(bytes[g + 10], bytes[g + 11]),
    }
}

/// Decodes one burst over the data registers.
pub fn parse_burst(bytes: &[u8]) -> (sample: SensorData)
    requires
        bytes@.len() >= BURST_SIZE,
    ensures
        sample == burst_sample(bytes@),
{
    decode_at(bytes, 0, 2)
}

/// Decodes buffered bytes into samples. Data that does not consist of whole
/// samples is refused.
pub fn parse_fifo_data(buffer: &[u8]) -> (res: Result<Vec<SensorData>, Mpu6050Error>)
    ensures
        buffer@.len() % 12 == 0 ==> res is Ok && res->Ok_0@ == decode_samples(buffer@)
            && res->Ok_0@.len() == buffer@.len() / 12,
        buffer@.len() % 12 != 0 ==> res is Err && res->Err_0@ == ErrorView::InvalidFifoConfig(
            misaligned_text(buffer@.len()),
        ),
{
    if buffer.len() % FIFO_SAMPLE_SIZE != 0 {
        let mut reason = String::from_str("FIFO data length ");
        append_decimal(&mut reason, buffer.len() as u64);
        reason.append(" is not a multiple of sample size 12");
        return Err(Mpu6050Error::InvalidFifoConfig(reason));
    }
    let len: usize = buffer.len();
    let count: usize = len / FIFO_SAMPLE_SIZE;
    let mut samples: Vec<SensorData> = Vec::new();
    let mut i: usize = 0;
    while i < count
        invariant
            i <= count,
            len == buffer@.len(),
            count == buffer@.len() / 12,
            buffer@.len() % 12 == 0,
            samples@.len() == i,
            forall|k: int| 0 <= k < i ==> samples@[k] == sample_at(buffer@, 12 * k, 0),
        decreases count - i,
    {
        samples.push(decode_at(buffer, i * FIFO_SAMPLE_SIZE, 0));
        i = i + 1;
    }
    assert(samples@ =~= decode_samples(buffer@));
    Ok(samples)
}

fn millionths(raw: i16, scale: i64) -> (v: i32)
    requires
        scale == ACCEL_LSB_PER_G || scale == GYRO_LSB_PER_DPS,
    ensures
        v == scaled_millionths(raw, scale as int),
{
    let wide: i64 = raw as i64;
    if wide >= 0 {
        let q: i64 = wide * 1_000_000 / scale;
        assert(0 <= q <= 32767 * 1_000_000 / 131) by (nonlinear_arith)
            requires
                0 <= wide <= 32767,
                scale == 16384 || scale == 131,
                q == wide * 1_000_000 / (scale as int),
        ;
        q as i32
    } else {
        let q: i64 = (-wide) * 1_000_000 / scale;
        assert(0 <= q <= 32768 * 1_000_000 / 131) by (nonlinear_arith)
            requires
                0 < -wide <= 32768,
                scale == 16384 || scale == 131,
                q == (-wide) * 1_000_000 / (scale as int),
        ;
        (-q) as i32
    }
}

impl SensorData {
    /// The acceleration on each axis in millionths of g.
    pub fn accel_to_micro_g(&self) -> (g: (i32, i32, i32))
        ensures
            g.0 == scaled_millionths(self.accel_x, 16384),
            g.1 == scaled_millionths(self.accel_y, 16384),
            g.2 == scaled_millionths(self.accel_z, 16384),
    {
        (
            millionths(self.accel_x, ACCEL_LSB_PER_G),
            millionths(self.accel_y, ACCEL_LSB_PER_G),
            millionths(self.accel_z, ACCEL_LSB_PER_G),
        )
    }

    /// The rate of rotation about each axis in millionths of a degree per
    /// second.
    pub fn gyro_to_micro_dps(&self) -> (dps: (i32, i32, i32))
        ensures
            dps.0 == scaled_millionths(self.gyro_x, 131),
            dps.1 == scaled_millionths(self.gyro_y, 131),
            dps.2 == scaled_millionths(self.gyro_z, 131),
    {
        (
            millionths(self.gyro_x, GYRO_LSB_PER_DPS),
            millionths(self.gyro_y, GYRO_LSB_PER_DPS),
            millionths(self.gyro_z, GYRO_LSB_PER_DPS),
        )
    }
}

/// A conversion loses less than one raw count: the raw value is the whole
/// number nearest to the converted value times the scale, over a million.
/// This holds for both scales.
pub proof fn lemma_conversion_recovers_raw(raw: i16, scale: int)
    requires
        scale == 16384 || scale == 131,
    ensures
        -scale < scaled_millionths(raw, scale) * scale - raw * 1_000_000 < scale,
        raw >= 0 ==> scaled_millionths(raw, scale) * scale <= raw * 1_000_000,
        raw <= 0 ==> scaled_millionths(raw, scale) * scale >= raw * 1_000_000,
{
    let m: int = if raw >= 0 { raw as int } else { -(raw as int) };
    let q: int = m * 1_000_000 / scale;
    assert(0 <= m * 1_000_000 - q * scale < scale) by (nonlinear_arith)
        requires
            m >= 0,
            scale > 0,
            q == m * 1_000_000 / scale,
    ;
    if raw < 0 {
        assert((-q) * scale == -(q * scale)) by (nonlinear_arith);
    }
}

} // verus!
