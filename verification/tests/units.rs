use ft232_sensor_interface::bus::{Bus, Channel};
use ft232_sensor_interface::reading::{i16_from_be, parse_burst};
use ft232_sensor_interface::text::{append_decimal, append_hex_byte};
use ft232_sensor_interface::{
    divider, status_to_string, ChannelConfig, Mpu6050Error, Pacer, SensorData, TimeKeeper,
};

fn sample(accel: i16, gyro: i16) -> SensorData {
    SensorData {
        accel_x: accel,
        accel_y: accel,
        accel_z: accel,
        gyro_x: gyro,
        gyro_y: gyro,
        gyro_z: gyro,
    }
}

#[test]
fn one_g_is_a_million_micro_g() {
    assert_eq!(sample(16384, 0).accel_to_micro_g(), (1_000_000, 1_000_000, 1_000_000));
    assert_eq!(sample(-16384, 0).accel_to_micro_g().0, -1_000_000);
    assert_eq!(sample(8192, 0).accel_to_micro_g().0, 500_000);
    assert_eq!(sample(0, 0).accel_to_micro_g().0, 0);
}

#[test]
fn conversions_round_towards_zero() {
    // 1_000_000 / 16384 is 61.03..., and 1_000_000 / 131 is 7633.58...
    assert_eq!(sample(1, 1).accel_to_micro_g().1, 61);
    assert_eq!(sample(-1, -1).accel_to_micro_g().1, -61);
    assert_eq!(sample(1, 1).gyro_to_micro_dps().2, 7_633);
    assert_eq!(sample(-1, -1).gyro_to_micro_dps().2, -7_633);
    assert_eq!(sample(0, 131).gyro_to_micro_dps().0, 1_000_000);
    assert_eq!(sample(i16::MAX, i16::MIN).accel_to_micro_g().0, 1_999_938);
    assert_eq!(sample(i16::MAX, i16::MIN).gyro_to_micro_dps().0, -250_137_404);
}

#[test]
fn conversions_recover_every_raw_value() {
    for raw in i16::MIN..=i16::MAX {
        let s = sample(raw, raw);
        let g = s.accel_to_micro_g().0 as i64;
        let dps = s.gyro_to_micro_dps().0 as i64;
        let back_g = (g * 16384 + if g >= 0 { 500_000 } else { -500_000 }) / 1_000_000;
        let back_dps = (dps * 131 + if dps >= 0 { 500_000 } else { -500_000 }) / 1_000_000;
        assert_eq!(back_g, raw as i64);
        assert_eq!(back_dps, raw as i64);
    }
}

#[test]
fn divider_for_the_rates_of_the_buffer() {
    assert_eq!(divider(1000), 0);
    assert_eq!(divider(500), 1);
    assert_eq!(divider(100), 9);
    assert_eq!(divider(4), 249);
    assert_eq!(divider(3), 332);
    assert_eq!(divider(1001), 0);
    assert_eq!(divider(u16::MAX), 0);
}

#[test]
fn big_endian_words() {
    assert_eq!(i16_from_be(0x00, 0x00), 0);
    assert_eq!(i16_from_be(0x7F, 0xFF), i16::MAX);
    assert_eq!(i16_from_be(0x80, 0x00), i16::MIN);
    assert_eq!(i16_from_be(0xFF, 0xFF), -1);
    assert_eq!(i16_from_be(0x12, 0x34), 0x1234);
    for hi in 0..=255u8 {
        for lo in [0u8, 1, 127, 128, 255] {
            assert_eq!(i16_from_be(hi, lo), i16::from_be_bytes([hi, lo]));
        }
    }
}

#[test]
fn a_burst_has_the_temperature_in_the_middle() {
    let bytes: Vec<u8> = (1..=14).collect();
    assert_eq!(
        parse_burst(&bytes),
        SensorData {
            accel_x: 0x0102,
            accel_y: 0x0304,
            accel_z: 0x0506,
            gyro_x: 0x090A,
            gyro_y: 0x0B0C,
            gyro_z: 0x0D0E,
        }
    );
}

#[test]
fn status_names() {
    assert_eq!(status_to_string(0), "FT_OK");
    assert_eq!(status_to_string(1), "FT_INVALID_HANDLE");
    assert_eq!(status_to_string(2), "FT_DEVICE_NOT_FOUND");
    assert_eq!(status_to_string(9), "FT_DEVICE_NOT_OPENED_FOR_WRITE");
    assert_eq!(status_to_string(17), "FT_NOT_SUPPORTED");
    assert_eq!(status_to_string(18), "FT_OTHER_ERROR");
    assert_eq!(status_to_string(19), "UNKNOWN_ERROR");
    assert_eq!(status_to_string(u32::MAX), "UNKNOWN_ERROR");
}

#[test]
fn every_error_has_its_message() {
    assert_eq!(Mpu6050Error::from(4).message(), "FTDI error: 4 (FT_IO_ERROR)");
    assert_eq!(
        Mpu6050Error::from(4_000_000_000).message(),
        "FTDI error: 4000000000 (UNKNOWN_ERROR)"
    );
    assert_eq!(Mpu6050Error::NoChannelsFound.message(), "No I2C channels found");
    assert_eq!(Mpu6050Error::InvalidChannel(12).message(), "Invalid channel index: 12");
    assert_eq!(
        Mpu6050Error::InvalidDeviceId(0x0A).message(),
        "Invalid WHO_AM_I response: expected 0x68, got 0x0A"
    );
    assert_eq!(
        Mpu6050Error::InvalidDeviceId(0xFF).message(),
        "Invalid WHO_AM_I response: expected 0x68, got 0xFF"
    );
    assert_eq!(
        Mpu6050Error::TransferError { expected: 1, actual: 8 }.message(),
        "Data transfer error: expected 1 bytes, transferred 8"
    );
    assert_eq!(
        Mpu6050Error::InvalidParameter("too large".to_string()).message(),
        "Invalid parameter: too large"
    );
    assert_eq!(Mpu6050Error::FifoNotEnabled.message(), "FIFO not enabled");
    assert_eq!(
        Mpu6050Error::FifoOverflow { samples_lost: 0 }.message(),
        "FIFO overflow: ~0 samples lost"
    );
    assert_eq!(
        Mpu6050Error::InvalidFifoConfig("odd".to_string()).message(),
        "Invalid FIFO configuration: odd"
    );
}

#[test]
fn numbers_as_text() {
    let mut text = String::from("n=");
    append_decimal(&mut text, 0);
    text.push(',');
    append_decimal(&mut text, 10);
    text.push(',');
    append_decimal(&mut text, 909);
    text.push(',');
    append_decimal(&mut text, u64::MAX);
    text.push(',');
    append_hex_byte(&mut text, 0x00);
    append_hex_byte(&mut text, 0x9A);
    append_hex_byte(&mut text, 0xF0);
    assert_eq!(text, "n=0,10,909,18446744073709551615,009AF0");
}

#[test]
fn default_channel_is_fast_mode() {
    let config = ChannelConfig::default();
    assert_eq!(config.clock_rate, 400_000);
    assert_eq!(config.latency_timer, 8);
    assert_eq!((config.options, config.pin, config.current_pin_state), (0, 0, 0));
}

#[test]
fn test_timekeeper() {
    let keeper = TimeKeeper::new(5_000);
    assert_eq!(keeper.elapsed_micros(15_000), 10_000);
    assert_eq!(keeper.elapsed_micros(5_000), 0);
    assert_eq!(keeper.elapsed_micros(4_999), 0);
}

#[test]
fn pacer_keeps_to_the_schedule() {
    let mut pacer = Pacer::new(1_000, 250);
    assert_eq!(pacer.advance(1_100), 150);
    assert_eq!(pacer.deadline, 1_250);
    // A tick that is late is not waited for, and the schedule stays.
    assert_eq!(pacer.advance(2_000), 0);
    assert_eq!(pacer.deadline, 1_500);
    assert_eq!(pacer.advance(1_750), 0);
    assert_eq!(pacer.advance(1_800), 200);
    assert_eq!(pacer.deadline, 2_000);
}

#[test]
fn pacer_stops_at_the_end_of_time() {
    let mut pacer = Pacer::new(u64::MAX - 10, 100);
    assert_eq!(pacer.advance(u64::MAX - 5), 5);
    assert_eq!(pacer.deadline, u64::MAX);
    assert_eq!(pacer.advance(u64::MAX), 0);
    assert_eq!(pacer.deadline, u64::MAX);
}

struct ShortBus;

impl Bus for ShortBus {
    fn channel_count(&mut self) -> (u32, u32) {
        (0, 1)
    }
    fn open(&mut self, _index: u32) -> u32 {
        0
    }
    fn configure(&mut self, _config: ChannelConfig) -> u32 {
        0
    }
    fn write(&mut self, _address: u8, _bytes: &[u8], _options: u32) -> (u32, u32) {
        (0, 0)
    }
    fn read(&mut self, _address: u8, count: usize, _options: u32) -> (u32, Vec<u8>, u32) {
        (0, vec![0x68; count / 2], count as u32)
    }
    fn close(&mut self) {}
    fn now_micros(&mut self) -> u64 {
        0
    }
    fn sleep_micros(&mut self, _micros: u64) {}
}

#[test]
fn a_read_of_the_wrong_length_counts_as_failed() {
    let mut channel = Channel::new(ShortBus);
    let (status, data, transferred) = channel.read(0x68, 14, 0x1B);
    assert_eq!((status, data.len(), transferred), (18, 7, 14));
    let (status, data, _) = channel.read(0x68, 0, 0x1B);
    assert_eq!((status, data.len()), (0, 0));
    let (e, _) = ft232_sensor_interface::Mpu6050::new(ShortBus, 0).err().unwrap();
    assert_eq!(
        e,
        Mpu6050Error::BusFault { status: 18, description: "FT_OTHER_ERROR".to_string() }
    );
}
