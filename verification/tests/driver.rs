use std::cell::RefCell;
use std::collections::VecDeque;
use std::rc::Rc;

use ft232_sensor_interface::bus::{
    BURST_POINTER_OPTIONS, BURST_READ_OPTIONS, POINTER_OPTIONS, READ_OPTIONS, WRITE_OPTIONS,
};
use ft232_sensor_interface::fifo::FifoState;
use ft232_sensor_interface::sink::NoSink;
use ft232_sensor_interface::{
    Bus, ChannelConfig, Command, Mpu6050, Mpu6050Error, Plan, SensorData, Source, Stop,
    StreamControl,
};

/// What the simulated bus saw.
#[derive(Debug, Clone, PartialEq, Eq)]
enum Seen {
    ChannelCount,
    Open(u32),
    Configure(ChannelConfig),
    Write(u8, Vec<u8>, u32),
    Read(u8, usize, u32),
    Close,
    Now,
    Sleep(u64),
}

/// A sensor that exists in memory only.
struct Device {
    channels: u32,
    identity: u8,
    regs: [u8; 256],
    pointer: u8,
    fifo: VecDeque<u8>,
    overflow: bool,
    now: u64,
    transfer_cost: u64,
    producing: bool,
    produced_until: u64,
    next_sample: i16,
    fail_transfer: Option<(usize, u32)>,
    transfers: usize,
    short_read: bool,
    seen: Vec<Seen>,
}

impl Device {
    fn new() -> Device {
        Device {
            channels: 1,
            identity: 0x68,
            regs: [0u8; 256],
            pointer: 0,
            fifo: VecDeque::new(),
            overflow: false,
            now: 0,
            transfer_cost: 0,
            producing: false,
            produced_until: 0,
            next_sample: 0,
            fail_transfer: None,
            transfers: 0,
            short_read: false,
            seen: Vec::new(),
        }
    }

    fn buffering(&self) -> bool {
        self.regs[0x6A] & 0x40 != 0 && self.regs[0x23] == 0x78
    }

    fn push_sample(&mut self, base: i16) {
        for k in 0..6i16 {
            let v = base.wrapping_add(k);
            let bytes = v.to_be_bytes();
            self.fifo.push_back(bytes[0]);
            self.fifo.push_back(bytes[1]);
        }
    }

    /// Lets time pass; while buffering is on the device samples into its
    /// buffer at the rate that the divider gives.
    fn pass(&mut self, micros: u64) {
        self.now += micros;
        if !self.producing || !self.buffering() {
            self.produced_until = self.now;
            return;
        }
        let period = 1000 * (1 + self.regs[0x19] as u64);
        while self.produced_until + period <= self.now {
            self.produced_until += period;
            if self.fifo.len() + 12 > 1024 {
                self.overflow = true;
            } else {
                let base = self.next_sample;
                self.push_sample(base);
                self.next_sample = self.next_sample.wrapping_add(1);
            }
        }
    }

    fn failing(&mut self) -> Option<u32> {
        let index = self.transfers;
        self.transfers += 1;
        match self.fail_transfer {
            Some((at, status)) if at == index => Some(status),
            _ => None,
        }
    }

    fn writes(&self) -> usize {
        self.seen.iter().filter(|s| matches!(s, Seen::Write(..))).count()
    }

    fn reads(&self) -> usize {
        self.seen.iter().filter(|s| matches!(s, Seen::Read(..))).count()
    }

    fn closes(&self) -> usize {
        self.seen.iter().filter(|s| matches!(s, Seen::Close)).count()
    }
}

struct SimBus {
    device: Rc<RefCell<Device>>,
}

impl Bus for SimBus {
    fn channel_count(&mut self) -> (u32, u32) {
        let mut d = self.device.borrow_mut();
        d.seen.push(Seen::ChannelCount);
        match d.failing() {
            Some(status) => (status, 0),
            None => (0, d.channels),
        }
    }

    fn open(&mut self, index: u32) -> u32 {
        let mut d = self.device.borrow_mut();
        d.seen.push(Seen::Open(index));
        d.failing().unwrap_or(0)
    }

    fn configure(&mut self, config: ChannelConfig) -> u32 {
        let mut d = self.device.borrow_mut();
        d.seen.push(Seen::Configure(config));
        d.failing().unwrap_or(0)
    }

    fn write(&mut self, address: u8, bytes: &[u8], options: u32) -> (u32, u32) {
        let mut d = self.device.borrow_mut();
        d.seen.push(Seen::Write(address, bytes.to_vec(), options));
        let cost = d.transfer_cost;
        d.pass(cost);
        if let Some(status) = d.failing() {
            return (status, 0);
        }
        if address != 0x68 {
            return (2, 0);
        }
        if bytes.len() == 1 {
            d.pointer = bytes[0];
        } else if bytes.len() == 2 {
            let (reg, value) = (bytes[0], bytes[1]);
            if reg == 0x6A && value & 0x04 != 0 {
                d.fifo.clear();
                d.regs[0x6A] = value & !0x04;
            } else {
                d.regs[reg as usize] = value;
            }
        }
        (0, (bytes.len() * 8) as u32)
    }

    fn read(&mut self, address: u8, count: usize, options: u32) -> (u32, Vec<u8>, u32) {
        let mut d = self.device.borrow_mut();
        d.seen.push(Seen::Read(address, count, options));
        let cost = d.transfer_cost;
        d.pass(cost);
        if let Some(status) = d.failing() {
            return (status, vec![0u8; count], 0);
        }
        if d.short_read {
            return (0, vec![0u8; count], 0);
        }
        let mut data = Vec::with_capacity(count);
        for k in 0..count {
            let reg = if d.pointer == 0x74 { 0x74 } else { d.pointer.wrapping_add(k as u8) };
            let byte = match reg {
                0x74 => d.fifo.pop_front().unwrap_or(0xFF),
                0x72 => (d.fifo.len() >> 8) as u8,
                0x73 => (d.fifo.len() & 0xFF) as u8,
                0x3A => {
                    let flags = if d.overflow { 0x10 } else { 0x00 };
                    d.overflow = false;
                    flags
                }
                0x75 => d.identity,
                other => d.regs[other as usize],
            };
            data.push(byte);
        }
        (0, data, count as u32)
    }

    fn close(&mut self) {
        self.device.borrow_mut().seen.push(Seen::Close);
    }

    fn now_micros(&mut self) -> u64 {
        let mut d = self.device.borrow_mut();
        d.seen.push(Seen::Now);
        d.now
    }

    fn sleep_micros(&mut self, micros: u64) {
        let mut d = self.device.borrow_mut();
        d.seen.push(Seen::Sleep(micros));
        d.pass(micros);
    }
}

fn device() -> Rc<RefCell<Device>> {
    Rc::new(RefCell::new(Device::new()))
}

fn open(device: &Rc<RefCell<Device>>) -> Mpu6050<SimBus> {
    let sensor = match Mpu6050::new(SimBus { device: device.clone() }, 0) {
        Ok(sensor) => sensor,
        Err((e, _)) => panic!("bring-up failed: {:?}", e),
    };
    let mut d = device.borrow_mut();
    d.seen.clear();
    d.transfers = 0;
    d.now = 0;
    d.produced_until = 0;
    sensor
}

fn put(reg: u8, value: u8) -> Seen {
    Seen::Write(0x68, vec![reg, value], WRITE_OPTIONS)
}

fn invalid(reason: &str) -> Mpu6050Error {
    Mpu6050Error::InvalidParameter(reason.to_string())
}

fn fault(status: u32, description: &str) -> Mpu6050Error {
    Mpu6050Error::BusFault { status, description: description.to_string() }
}

#[test]
fn framing_options_combine_the_flags() {
    assert_eq!(WRITE_OPTIONS, 0x01 | 0x02 | 0x10);
    assert_eq!(POINTER_OPTIONS, 0x01 | 0x04);
    assert_eq!(READ_OPTIONS, 0x01 | 0x02 | 0x08);
    assert_eq!(BURST_POINTER_OPTIONS, 0x01 | 0x04 | 0x10);
    assert_eq!(BURST_READ_OPTIONS, 0x01 | 0x02 | 0x08 | 0x10);
}

#[test]
fn bring_up_wakes_checks_and_sets_ranges() {
    let dev = device();
    let sensor = match Mpu6050::new(SimBus { device: dev.clone() }, 0) {
        Ok(sensor) => sensor,
        Err((e, _)) => panic!("bring-up failed: {:?}", e),
    };
    assert!(!sensor.is_fifo_enabled());
    let config = ChannelConfig {
        clock_rate: 1_000_000,
        latency_timer: 1,
        options: 0,
        pin: 0,
        current_pin_state: 0,
    };
    assert_eq!(
        dev.borrow().seen,
        vec![
            Seen::ChannelCount,
            Seen::Open(0),
            Seen::Configure(config),
            put(0x6B, 0x00),
            Seen::Sleep(100_000),
            Seen::Write(0x68, vec![0x75], POINTER_OPTIONS),
            Seen::Read(0x68, 1, READ_OPTIONS),
            put(0x1C, 0x00),
            put(0x1B, 0x00),
        ]
    );
}

#[test]
fn bring_up_without_channels() {
    let dev = device();
    dev.borrow_mut().channels = 0;
    let (e, channel) = Mpu6050::new(SimBus { device: dev.clone() }, 0).err().unwrap();
    assert_eq!(e, Mpu6050Error::NoChannelsFound);
    assert_eq!(e.message(), "No I2C channels found");
    assert_eq!(dev.borrow().seen, vec![Seen::ChannelCount]);
    let _bus: SimBus = channel.into_inner();
}

#[test]
fn bring_up_with_channel_out_of_range() {
    let dev = device();
    dev.borrow_mut().channels = 2;
    let (e, _) = Mpu6050::new(SimBus { device: dev.clone() }, 2).err().unwrap();
    assert_eq!(e, Mpu6050Error::InvalidChannel(2));
    assert_eq!(e.message(), "Invalid channel index: 2");
    assert_eq!(dev.borrow().seen, vec![Seen::ChannelCount]);
    let dev = device();
    dev.borrow_mut().channels = 2;
    assert!(Mpu6050::new(SimBus { device: dev.clone() }, 1).is_ok());
    assert_eq!(dev.borrow().seen[1], Seen::Open(1));
}

#[test]
fn bring_up_closes_a_channel_that_cannot_be_set_up() {
    let dev = device();
    dev.borrow_mut().fail_transfer = Some((2, 7));
    let (e, _) = Mpu6050::new(SimBus { device: dev.clone() }, 0).err().unwrap();
    assert_eq!(e, fault(7, "FT_INVALID_BAUD_RATE"));
    assert_eq!(dev.borrow().seen.len(), 4);
    assert_eq!(dev.borrow().seen[3], Seen::Close);
    assert_eq!(dev.borrow().closes(), 1);
}

#[test]
fn bring_up_does_not_close_what_did_not_open() {
    let dev = device();
    dev.borrow_mut().fail_transfer = Some((1, 3));
    let (e, _) = Mpu6050::new(SimBus { device: dev.clone() }, 0).err().unwrap();
    assert_eq!(e, fault(3, "FT_DEVICE_NOT_OPENED"));
    assert_eq!(dev.borrow().seen, vec![Seen::ChannelCount, Seen::Open(0)]);
}

#[test]
fn bring_up_gives_up_a_device_of_another_identity() {
    let dev = device();
    dev.borrow_mut().identity = 0x71;
    let (e, _) = Mpu6050::new(SimBus { device: dev.clone() }, 0).err().unwrap();
    assert_eq!(e, Mpu6050Error::InvalidDeviceId(0x71));
    assert_eq!(e.message(), "Invalid WHO_AM_I response: expected 0x68, got 0x71");
    let d = dev.borrow();
    assert_eq!(d.closes(), 1);
    assert_eq!(d.seen.last(), Some(&Seen::Close));
    assert_eq!(
        d.seen[7..].to_vec(),
        vec![put(0x6A, 0), put(0x23, 0), put(0x19, 0), put(0x1A, 0), Seen::Close]
    );
}

#[test]
fn bring_up_closes_even_where_turning_off_fails() {
    let dev = device();
    // Transfers 0 to 2 set the channel up, 3 wakes the device, 4 and 5 read
    // the identity, 6 is the first write of the teardown.
    dev.borrow_mut().identity = 0x00;
    dev.borrow_mut().fail_transfer = Some((6, 4));
    let (e, _) = Mpu6050::new(SimBus { device: dev.clone() }, 0).err().unwrap();
    assert_eq!(e, Mpu6050Error::InvalidDeviceId(0x00));
    let d = dev.borrow();
    assert_eq!(d.seen[7..].to_vec(), vec![put(0x6A, 0), Seen::Close]);
}

#[test]
fn close_turns_buffering_off_and_closes_once() {
    let dev = device();
    let mut sensor = open(&dev);
    sensor.enable_fifo(1000).unwrap();
    dev.borrow_mut().seen.clear();
    let channel = sensor.close();
    assert_eq!(
        dev.borrow().seen,
        vec![put(0x6A, 0), put(0x23, 0), put(0x19, 0), put(0x1A, 0), Seen::Close]
    );
    let _bus: SimBus = channel.into_inner();
    assert_eq!(dev.borrow().closes(), 1);
}

#[test]
fn write_register_is_one_framed_transaction() {
    let dev = device();
    let mut sensor = open(&dev);
    sensor.write_register(0x1C, 0x18).unwrap();
    assert_eq!(dev.borrow().seen, vec![put(0x1C, 0x18)]);
    assert_eq!(dev.borrow().regs[0x1C], 0x18);
}

#[test]
fn write_register_reports_the_fault_of_the_bus() {
    let dev = device();
    let mut sensor = open(&dev);
    dev.borrow_mut().fail_transfer = Some((0, 4));
    let e = sensor.write_register(0x1C, 0x18).unwrap_err();
    assert_eq!(e, fault(4, "FT_IO_ERROR"));
    assert_eq!(e.message(), "FTDI error: 4 (FT_IO_ERROR)");
    dev.borrow_mut().fail_transfer = Some((1, 99));
    let e = sensor.write_register(0x1C, 0x18).unwrap_err();
    assert_eq!(e, fault(99, "UNKNOWN_ERROR"));
}

#[test]
fn read_register_keeps_the_bus_between_address_and_data() {
    let dev = device();
    let mut sensor = open(&dev);
    dev.borrow_mut().regs[0x1A] = 0x5A;
    assert_eq!(sensor.read_register(0x1A).unwrap(), 0x5A);
    assert_eq!(
        dev.borrow().seen,
        vec![Seen::Write(0x68, vec![0x1A], POINTER_OPTIONS), Seen::Read(0x68, 1, READ_OPTIONS)]
    );
}

#[test]
fn read_register_stops_after_a_failed_address_phase() {
    let dev = device();
    let mut sensor = open(&dev);
    dev.borrow_mut().fail_transfer = Some((0, 2));
    assert_eq!(sensor.read_register(0x1A).unwrap_err(), fault(2, "FT_DEVICE_NOT_FOUND"));
    assert_eq!(dev.borrow().reads(), 0);
    dev.borrow_mut().fail_transfer = Some((2, 4));
    assert_eq!(sensor.read_register(0x1A).unwrap_err(), fault(4, "FT_IO_ERROR"));
}

#[test]
fn read_register_checks_the_transferred_count() {
    let dev = device();
    let mut sensor = open(&dev);
    dev.borrow_mut().short_read = true;
    let e = sensor.read_register(0x1A).unwrap_err();
    assert_eq!(e, Mpu6050Error::TransferError { expected: 1, actual: 0 });
    assert_eq!(e.message(), "Data transfer error: expected 1 bytes, transferred 0");
}

#[test]
fn read_registers_goes_by_the_status_alone() {
    let dev = device();
    let mut sensor = open(&dev);
    for k in 0..4 {
        dev.borrow_mut().regs[0x20 + k] = 0xA0 + k as u8;
    }
    dev.borrow_mut().short_read = false;
    assert_eq!(sensor.read_registers(0x20, 4).unwrap(), vec![0xA0, 0xA1, 0xA2, 0xA3]);
    assert_eq!(
        dev.borrow().seen,
        vec![
            Seen::Write(0x68, vec![0x20], BURST_POINTER_OPTIONS),
            Seen::Read(0x68, 4, BURST_READ_OPTIONS)
        ]
    );
    // A count of zero transferred bytes is no error under fast transfer.
    dev.borrow_mut().short_read = true;
    assert_eq!(sensor.read_registers(0x20, 4).unwrap(), vec![0, 0, 0, 0]);
}

fn load_data_registers(dev: &Rc<RefCell<Device>>) {
    let bytes: [u8; 14] =
        [0x01, 0x02, 0xFF, 0xFE, 0x80, 0x00, 0x12, 0x34, 0x7F, 0xFF, 0x00, 0x00, 0xFF, 0xFF];
    for (k, b) in bytes.iter().enumerate() {
        dev.borrow_mut().regs[0x3B + k] = *b;
    }
}

#[test]
fn read_all_drops_the_temperature() {
    let dev = device();
    let mut sensor = open(&dev);
    load_data_registers(&dev);
    let data = sensor.read_all().unwrap();
    assert_eq!(
        data,
        SensorData {
            accel_x: 0x0102,
            accel_y: -2,
            accel_z: -32768,
            gyro_x: 32767,
            gyro_y: 0,
            gyro_z: -1,
        }
    );
    assert_eq!(
        dev.borrow().seen,
        vec![
            Seen::Write(0x68, vec![0x3B], BURST_POINTER_OPTIONS),
            Seen::Read(0x68, 14, BURST_READ_OPTIONS)
        ]
    );
}

#[test]
fn read_accel_and_read_gyro_read_six_bytes_each() {
    let dev = device();
    let mut sensor = open(&dev);
    load_data_registers(&dev);
    assert_eq!(sensor.read_accel().unwrap(), (0x0102, -2, -32768));
    assert_eq!(sensor.read_gyro().unwrap(), (32767, 0, -1));
    assert_eq!(dev.borrow().seen[1], Seen::Read(0x68, 6, BURST_READ_OPTIONS));
    assert_eq!(dev.borrow().seen[2], Seen::Write(0x68, vec![0x43], BURST_POINTER_OPTIONS));
}

#[test]
fn enable_refuses_rates_out_of_range_without_a_write() {
    for rate in [0u16, 3, 1001] {
        let dev = device();
        let mut sensor = open(&dev);
        let e = sensor.enable_fifo(rate).unwrap_err();
        assert_eq!(e, invalid(&format!("Sample rate must be 4-1000 Hz, got {}", rate)));
        assert_eq!(dev.borrow().writes(), 0);
        assert!(dev.borrow().seen.is_empty());
        assert!(!sensor.is_fifo_enabled());
    }
    let e = invalid("Sample rate must be 4-1000 Hz, got 1001");
    assert_eq!(e.message(), "Invalid parameter: Sample rate must be 4-1000 Hz, got 1001");
}

#[test]
fn enable_sets_filter_divider_and_routing() {
    let dev = device();
    let mut sensor = open(&dev);
    sensor.enable_fifo(100).unwrap();
    assert!(sensor.is_fifo_enabled());
    assert_eq!(
        dev.borrow().seen,
        vec![
            put(0x1A, 0x01),
            put(0x19, 9),
            put(0x6A, 0x04),
            Seen::Sleep(10_000),
            put(0x23, 0x78),
            put(0x6A, 0x40),
        ]
    );
}

#[test]
fn enable_again_turns_off_first() {
    let dev = device();
    let mut sensor = open(&dev);
    sensor.enable_fifo(1000).unwrap();
    dev.borrow_mut().seen.clear();
    sensor.enable_fifo(4).unwrap();
    let d = dev.borrow();
    assert_eq!(d.seen.len(), 10);
    assert_eq!(d.seen[..4].to_vec(), vec![put(0x6A, 0), put(0x23, 0), put(0x19, 0), put(0x1A, 0)]);
    assert_eq!(d.seen[5], put(0x19, 249));
    assert!(sensor.is_fifo_enabled());
}

#[test]
fn enable_that_fails_leaves_buffering_off() {
    let dev = device();
    let mut sensor = open(&dev);
    dev.borrow_mut().fail_transfer = Some((3, 4));
    assert_eq!(sensor.enable_fifo(1000).unwrap_err(), fault(4, "FT_IO_ERROR"));
    assert!(!sensor.is_fifo_enabled());
    assert_eq!(dev.borrow().seen.len(), 5);
}

#[test]
fn enable_again_that_fails_while_turning_off_leaves_buffering_on() {
    let dev = device();
    let mut sensor = open(&dev);
    sensor.enable_fifo(1000).unwrap();
    dev.borrow_mut().transfers = 0;
    dev.borrow_mut().fail_transfer = Some((1, 4));
    assert!(sensor.enable_fifo(500).is_err());
    assert!(sensor.is_fifo_enabled());
    dev.borrow_mut().transfers = 0;
    dev.borrow_mut().fail_transfer = Some((4, 4));
    assert!(sensor.enable_fifo(500).is_err());
    assert!(!sensor.is_fifo_enabled());
}

#[test]
fn disable_is_idempotent() {
    let dev = device();
    let mut sensor = open(&dev);
    sensor.disable_fifo().unwrap();
    assert!(!sensor.is_fifo_enabled());
    sensor.enable_fifo(1000).unwrap();
    sensor.disable_fifo().unwrap();
    assert!(!sensor.is_fifo_enabled());
    dev.borrow_mut().seen.clear();
    sensor.disable_fifo().unwrap();
    assert!(!sensor.is_fifo_enabled());
    assert_eq!(
        dev.borrow().seen,
        vec![put(0x6A, 0), put(0x23, 0), put(0x19, 0), put(0x1A, 0)]
    );
}

#[test]
fn count_is_read_high_byte_first() {
    let dev = device();
    let mut sensor = open(&dev);
    for _ in 0..300 {
        dev.borrow_mut().fifo.push_back(0);
    }
    assert_eq!(sensor.get_fifo_count().unwrap(), 300);
    assert_eq!(
        dev.borrow().seen,
        vec![
            Seen::Write(0x68, vec![0x72], POINTER_OPTIONS),
            Seen::Read(0x68, 1, READ_OPTIONS),
            Seen::Write(0x68, vec![0x73], POINTER_OPTIONS),
            Seen::Read(0x68, 1, READ_OPTIONS),
        ]
    );
}

#[test]
fn reset_while_off_leaves_buffering_off() {
    let dev = device();
    let mut sensor = open(&dev);
    dev.borrow_mut().push_sample(7);
    sensor.reset_fifo().unwrap();
    assert_eq!(dev.borrow().seen, vec![put(0x6A, 0x04), Seen::Sleep(1_000), put(0x6A, 0x00)]);
    assert!(!sensor.is_fifo_enabled());
    assert_eq!(dev.borrow().regs[0x6A], 0x00);
    assert_eq!(dev.borrow().fifo.len(), 0);
    assert!(!dev.borrow().buffering());
}

#[test]
fn reset_that_fails_stops_at_the_failed_write() {
    let dev = device();
    let mut sensor = open(&dev);
    dev.borrow_mut().fail_transfer = Some((0, 4));
    assert_eq!(sensor.reset_fifo().unwrap_err(), fault(4, "FT_IO_ERROR"));
    assert_eq!(dev.borrow().seen, vec![put(0x6A, 0x04)]);
    assert!(!sensor.is_fifo_enabled());
}

#[test]
fn reset_pulses_the_bit_and_keeps_buffering_on() {
    let dev = device();
    let mut sensor = open(&dev);
    sensor.enable_fifo(1000).unwrap();
    dev.borrow_mut().push_sample(7);
    dev.borrow_mut().seen.clear();
    sensor.reset_fifo().unwrap();
    assert_eq!(dev.borrow().seen, vec![put(0x6A, 0x44), Seen::Sleep(1_000), put(0x6A, 0x40)]);
    assert!(sensor.is_fifo_enabled());
    assert_eq!(dev.borrow().regs[0x6A], 0x40);
}

#[test]
fn batch_while_off_is_refused_without_bus_traffic() {
    let dev = device();
    let mut sensor = open(&dev);
    let e = sensor.read_fifo_batch().unwrap_err();
    assert_eq!(e, Mpu6050Error::FifoNotEnabled);
    assert_eq!(e.message(), "FIFO not enabled");
    assert!(dev.borrow().seen.is_empty());
}

#[test]
fn batch_after_overflow_clears_the_buffer() {
    let dev = device();
    let mut sensor = open(&dev);
    sensor.enable_fifo(1000).unwrap();
    {
        let mut d = dev.borrow_mut();
        d.fifo.clear();
        for _ in 0..1000 {
            d.fifo.push_back(0x11);
        }
        d.overflow = true;
    }
    let e = sensor.read_fifo_batch().unwrap_err();
    assert_eq!(e, Mpu6050Error::FifoOverflow { samples_lost: 83 });
    assert_eq!(e.message(), "FIFO overflow: ~83 samples lost");
    assert!(sensor.is_fifo_enabled());
    assert_eq!(sensor.get_fifo_count().unwrap(), 0);
}

#[test]
fn batch_reads_whole_samples_only() {
    let dev = device();
    let mut sensor = open(&dev);
    sensor.enable_fifo(1000).unwrap();
    {
        let mut d = dev.borrow_mut();
        d.fifo.clear();
        d.push_sample(100);
        d.push_sample(-200);
        for _ in 0..5 {
            d.fifo.push_back(0xEE);
        }
        d.seen.clear();
    }
    let batch = sensor.read_fifo_batch().unwrap();
    assert_eq!(batch.len(), 2);
    assert_eq!(
        batch[1],
        SensorData {
            accel_x: -200,
            accel_y: -199,
            accel_z: -198,
            gyro_x: -197,
            gyro_y: -196,
            gyro_z: -195,
        }
    );
    let d = dev.borrow();
    assert_eq!(d.seen.len(), 8);
    assert_eq!(d.seen[0], Seen::Write(0x68, vec![0x3A], POINTER_OPTIONS));
    assert_eq!(d.seen[6], Seen::Write(0x68, vec![0x74], BURST_POINTER_OPTIONS));
    assert_eq!(d.seen[7], Seen::Read(0x68, 24, BURST_READ_OPTIONS));
    assert_eq!(d.fifo.len(), 5);
}

#[test]
fn batch_of_less_than_a_sample_reads_only_the_count() {
    let dev = device();
    let mut sensor = open(&dev);
    sensor.enable_fifo(1000).unwrap();
    {
        let mut d = dev.borrow_mut();
        d.fifo.clear();
        for _ in 0..11 {
            d.fifo.push_back(0xEE);
        }
        d.seen.clear();
    }
    assert_eq!(sensor.read_fifo_batch().unwrap(), vec![]);
    assert_eq!(dev.borrow().seen.len(), 6);
    assert_eq!(dev.borrow().fifo.len(), 11);
}

#[test]
fn stream_that_stops_at_once_reads_one_sample() {
    let dev = device();
    let mut sensor = open(&dev);
    load_data_registers(&dev);
    let mut calls = 0;
    let count = sensor
        .stream(250, |data| {
            calls += 1;
            assert_eq!(data.accel_x, 0x0102);
            StreamControl::Break
        })
        .unwrap();
    assert_eq!(count, 1);
    assert_eq!(calls, 1);
    assert_eq!(dev.borrow().reads(), 1);
    assert_eq!(
        dev.borrow().seen,
        vec![
            Seen::Now,
            Seen::Write(0x68, vec![0x3B], BURST_POINTER_OPTIONS),
            Seen::Read(0x68, 14, BURST_READ_OPTIONS)
        ]
    );
}

#[test]
fn stream_refuses_rates_out_of_range() {
    let dev = device();
    let mut sensor = open(&dev);
    for rate in [0u32, 1001] {
        let e = sensor.stream(rate, |_| StreamControl::Break).unwrap_err();
        assert_eq!(e, invalid(&format!("Sample rate must be between 1-1000 Hz, got {}", rate)));
    }
    assert!(dev.borrow().seen.is_empty());
    assert!(sensor.stream(1, |_| StreamControl::Break).is_ok());
    assert!(sensor.stream(1000, |_| StreamControl::Break).is_ok());
}

#[test]
fn stream_sleeps_to_the_next_deadline() {
    let dev = device();
    let mut sensor = open(&dev);
    dev.borrow_mut().transfer_cost = 300;
    let mut calls = 0;
    let count = sensor
        .stream(100, |_| {
            calls += 1;
            if calls == 3 {
                StreamControl::Break
            } else {
                StreamControl::Continue
            }
        })
        .unwrap();
    assert_eq!(count, 3);
    let sleeps: Vec<Seen> =
        dev.borrow().seen.iter().filter(|s| matches!(s, Seen::Sleep(_))).cloned().collect();
    assert_eq!(sleeps, vec![Seen::Sleep(9_400), Seen::Sleep(9_400)]);
    assert_eq!(dev.borrow().now, 20_600);
}

#[test]
fn stream_passes_a_read_error_on() {
    let dev = device();
    let mut sensor = open(&dev);
    dev.borrow_mut().fail_transfer = Some((3, 4));
    let mut calls = 0;
    let e = sensor
        .stream(100, |_| {
            calls += 1;
            StreamControl::Continue
        })
        .unwrap_err();
    assert_eq!(e, fault(4, "FT_IO_ERROR"));
    assert_eq!(calls, 1);
}

#[test]
fn stream_for_keeps_the_rate_over_a_second() {
    let dev = device();
    let mut sensor = open(&dev);
    dev.borrow_mut().transfer_cost = 100;
    let mut calls = 0u64;
    let count = sensor.stream_for(100, 1_000_000, |_| calls += 1).unwrap();
    assert_eq!(count, calls);
    assert!(count >= 99 && count <= 101, "count was {}", count);
    let elapsed = dev.borrow().now;
    assert!(elapsed >= 1_000_000 && elapsed < 1_010_000);
}

#[test]
fn stream_for_of_no_time_reads_one_sample() {
    let dev = device();
    let mut sensor = open(&dev);
    let count = sensor.stream_for(1000, 0, |_| {}).unwrap();
    assert_eq!(count, 1);
    assert_eq!(dev.borrow().seen.iter().filter(|s| matches!(s, Seen::Now)).count(), 3);
}

#[test]
fn a_slow_tick_does_not_shift_the_schedule() {
    let dev = device();
    let mut sensor = open(&dev);
    let shared = dev.clone();
    let mut calls = 0;
    let mut seen_at = Vec::new();
    let count = sensor
        .stream(100, |_| {
            calls += 1;
            seen_at.push(shared.borrow().now);
            if calls == 2 {
                // This tick takes two and a half intervals.
                shared.borrow_mut().now += 25_000;
            }
            if calls == 6 {
                StreamControl::Break
            } else {
                StreamControl::Continue
            }
        })
        .unwrap();
    assert_eq!(count, 6);
    // Ticks three and four follow at once, being due already; from the fifth
    // on the ticks are back on the schedule that began at zero.
    assert_eq!(seen_at, vec![0, 10_000, 35_000, 35_000, 40_000, 50_000]);
}

#[test]
fn collect_samples_returns_what_was_asked_for() {
    let dev = device();
    let mut sensor = open(&dev);
    load_data_registers(&dev);
    let samples = sensor.collect_samples(500, 7).unwrap();
    assert_eq!(samples.len(), 7);
    assert_eq!(samples[6].gyro_x, 32767);
    assert_eq!(dev.borrow().reads(), 7);
    assert_eq!(sensor.collect_samples(500, 0).unwrap().len(), 1);
    assert!(sensor.collect_samples(0, 7).is_err());
}

#[test]
fn stream_fifo_refuses_intervals_out_of_range() {
    let dev = device();
    let mut sensor = open(&dev);
    for interval in [9u64, 1001] {
        let e = sensor.stream_fifo(interval, |_| StreamControl::Break).unwrap_err();
        assert_eq!(e, invalid(&format!("Batch interval must be 10-1000 ms, got {}", interval)));
    }
    let e = sensor.stream_fifo(10, |_| StreamControl::Break).unwrap_err();
    assert_eq!(e, Mpu6050Error::FifoNotEnabled);
    assert!(dev.borrow().seen.is_empty());
}

#[test]
fn stream_fifo_hands_on_empty_batches_too() {
    let dev = device();
    let mut sensor = open(&dev);
    dev.borrow_mut().producing = true;
    sensor.enable_fifo(4).unwrap();
    dev.borrow_mut().fifo.clear();
    let mut sizes = Vec::new();
    // At four samples a second a sample comes every 250 ms; the buffer is
    // drained every 100 ms.
    let total = sensor
        .stream_fifo(100, |batch| {
            sizes.push(batch.len());
            if sizes.len() == 6 {
                StreamControl::Break
            } else {
                StreamControl::Continue
            }
        })
        .unwrap();
    assert_eq!(sizes, vec![0, 0, 0, 1, 0, 1]);
    assert_eq!(total, 2);
}

#[test]
fn stream_fifo_stops_at_an_empty_batch() {
    let dev = device();
    let mut sensor = open(&dev);
    sensor.enable_fifo(4).unwrap();
    dev.borrow_mut().fifo.clear();
    let mut calls = 0;
    let total = sensor
        .stream_fifo(100, |batch| {
            calls += 1;
            assert!(batch.is_empty());
            StreamControl::Break
        })
        .unwrap();
    assert_eq!((total, calls), (0, 1));
}

#[test]
fn stream_fifo_passes_an_overflow_on() {
    let dev = device();
    let mut sensor = open(&dev);
    dev.borrow_mut().producing = true;
    sensor.enable_fifo(1000).unwrap();
    let mut calls = 0;
    // At a thousand samples a second the buffer of 1024 bytes is full after
    // 85 ms; it is drained every 200 ms.
    let e = sensor
        .stream_fifo(200, |_| {
            calls += 1;
            StreamControl::Continue
        })
        .unwrap_err();
    assert_eq!(e, Mpu6050Error::FifoOverflow { samples_lost: 85 });
    assert_eq!(calls, 1);
    assert!(sensor.is_fifo_enabled());
    // The buffer was cleared; one sample came while the device settled.
    assert_eq!(dev.borrow().fifo.len(), 12);
}

#[test]
fn collect_samples_fifo_drops_what_the_last_batch_brought_too_much() {
    let dev = device();
    let mut sensor = open(&dev);
    dev.borrow_mut().producing = true;
    let samples = sensor.collect_samples_fifo(1000, 2048).unwrap();
    assert_eq!(samples.len(), 2048);
    assert!(sensor.is_fifo_enabled());
    for (k, sample) in samples.iter().enumerate() {
        assert_eq!(sample.accel_x, samples[0].accel_x.wrapping_add(k as i16));
    }
    // The last batch brought more than was asked for.
    let fetched = dev.borrow().next_sample as usize - dev.borrow().fifo.len() / 12;
    assert!(fetched > 2048, "fetched {}", fetched);
}

#[test]
fn collect_samples_fifo_keeps_the_rate_of_a_running_buffer() {
    let dev = device();
    let mut sensor = open(&dev);
    dev.borrow_mut().producing = true;
    sensor.enable_fifo(100).unwrap();
    dev.borrow_mut().seen.clear();
    let samples = sensor.collect_samples_fifo(0, 12).unwrap();
    assert_eq!(samples.len(), 12);
    assert_eq!(dev.borrow().regs[0x19], 9);
    assert_eq!(dev.borrow().seen[..3].to_vec(), vec![put(0x6A, 0x44), Seen::Sleep(1_000), put(0x6A, 0x40)]);
}

#[test]
fn collect_samples_fifo_refuses_a_rate_out_of_range_while_off() {
    let dev = device();
    let mut sensor = open(&dev);
    let e = sensor.collect_samples_fifo(3, 10).unwrap_err();
    assert_eq!(e, invalid("Sample rate must be 4-1000 Hz, got 3"));
    assert!(dev.borrow().seen.is_empty());
    assert_eq!(sensor.collect_samples_fifo(1000, 0).unwrap(), vec![]);
}

#[test]
fn state_carries_the_divider() {
    let dev = device();
    let mut sensor = open(&dev);
    assert_eq!(sensor.fifo(), FifoState::Disabled);
    sensor.enable_fifo(100).unwrap();
    assert_eq!(sensor.fifo(), FifoState::Enabled { divider: 9 });
    sensor.enable_fifo(4).unwrap();
    assert_eq!(sensor.fifo(), FifoState::Enabled { divider: 249 });
    dev.borrow_mut().transfers = 0;
    dev.borrow_mut().fail_transfer = Some((0, 4));
    assert!(sensor.enable_fifo(1000).is_err());
    assert_eq!(sensor.fifo(), FifoState::Enabled { divider: 249 });
    sensor.disable_fifo().unwrap();
    assert_eq!(sensor.fifo(), FifoState::Disabled);
}

#[test]
fn perform_stops_at_the_first_write_that_fails() {
    let dev = device();
    let mut sensor = open(&dev);
    let commands = vec![
        Command::Put { reg: 0x10, value: 1 },
        Command::Settle { micros: 5 },
        Command::Put { reg: 0x11, value: 2 },
        Command::Put { reg: 0x12, value: 3 },
    ];
    sensor.perform(&commands).unwrap();
    assert_eq!(
        dev.borrow().seen,
        vec![put(0x10, 1), Seen::Sleep(5), put(0x11, 2), put(0x12, 3)]
    );
    dev.borrow_mut().seen.clear();
    dev.borrow_mut().transfers = 0;
    dev.borrow_mut().fail_transfer = Some((1, 16));
    assert_eq!(sensor.perform(&commands).unwrap_err(), fault(16, "FT_INVALID_ARGS"));
    assert_eq!(dev.borrow().seen, vec![put(0x10, 1), Seen::Sleep(5), put(0x11, 2)]);
    assert!(sensor.perform(&Vec::new()).is_ok());
}

#[test]
fn run_follows_the_plan() {
    let dev = device();
    let mut sensor = open(&dev);
    load_data_registers(&dev);
    let plan = Plan { source: Source::Registers, stop: Stop::Count(3), interval: 2_000 };
    let (total, samples) = sensor.run(plan, &mut NoSink::new()).unwrap();
    assert_eq!((total, samples.len()), (3, 3));
    assert_eq!(dev.borrow().now, 4_000);
    let plan = Plan { source: Source::Buffer, stop: Stop::Count(3), interval: 2_000 };
    dev.borrow_mut().seen.clear();
    assert_eq!(sensor.run(plan, &mut NoSink::new()).unwrap_err(), Mpu6050Error::FifoNotEnabled);
    assert!(dev.borrow().seen.is_empty());
    let plan = Plan { source: Source::Registers, stop: Stop::Deadline(9_000), interval: 2_000 };
    let (total, samples) = sensor.run(plan, &mut NoSink::new()).unwrap();
    assert_eq!((total, samples.len()), (4, 0));
}
