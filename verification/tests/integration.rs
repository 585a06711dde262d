use keller_ld::Date;
use keller_ld::KellerLD;
use keller_ld::NoopDelay;
use keller_ld::PressureMode;
use keller_ld::ReplayBus;
use keller_ld::Transaction;
use keller_ld::DEFAULT_ADDR;

// Evaluate the documented pressure formula on a decoded measurement:
// (raw / 32768 - 0.5) * (max - min) + min + mode offset.
fn pressure_bar(measurement: &keller_ld::Measurement) -> f32 {
    let min = f32::from_bits(measurement.min_pressure_bits);
    let max = f32::from_bits(measurement.max_pressure_bits);
    let offset = measurement.pressure_mode.offset() as f32 / 100000.0;
    (measurement.raw_pressure as f32 / 32768.0 - 0.5) * (max - min) + min + offset
}

// Evaluate the documented temperature formula on a decoded measurement:
// the integer ticks times 0.05, minus 50.
fn temperature_celsius(measurement: &keller_ld::Measurement) -> f32 {
    keller_ld::temperature_ticks(measurement.raw_temperature) as f32 * 0.05 - 50.0
}

#[test]
fn get_date_success() {
    let expectations = vec![
        Transaction::write(0x40, vec![0x12]),
        Transaction::read(0x40, vec![0x40, 0b00010101, 0b01110100]),
    ];
    let mock = ReplayBus::new(expectations);

    let mut keller_ld = KellerLD::new(mock, DEFAULT_ADDR, NoopDelay);
    let date = keller_ld.get_pressure_mode().unwrap();

    assert_eq!(
        date,
        Date {
            year: 2012,
            month: 10,
            day: 29,
        }
    );

    assert!(keller_ld.destroy().is_done());
}

#[test]
fn get_pressure_mode_success() {
    let expectations = vec![
        Transaction::write(0x40, vec![0x12]),
        Transaction::read(0x40, vec![0x40, 0b00010101, 0b01110100]),
    ];
    let mock = ReplayBus::new(expectations);

    let mut keller_ld = KellerLD::new(mock, DEFAULT_ADDR, NoopDelay);
    let _ = keller_ld.get_pressure_mode().unwrap();

    assert_eq!(keller_ld.pressure_mode, Some(PressureMode::Vented));

    assert!(keller_ld.destroy().is_done());
}

#[test]
fn get_min_pressure_success() {
    let expectations = vec![
        Transaction::write(0x40, vec![0x13]),
        Transaction::read(0x40, vec![0x40, 0xBF, 0x80]),
        Transaction::write(0x40, vec![0x14]),
        Transaction::read(0x40, vec![0x40, 0x00, 0x00]),
    ];
    let mock = ReplayBus::new(expectations);

    let mut keller_ld = KellerLD::new(mock, DEFAULT_ADDR, NoopDelay);
    let _ = keller_ld.get_min_pressure().unwrap();

    assert_eq!(keller_ld.min_pressure, Some((-1.0f32).to_bits()));

    assert!(keller_ld.destroy().is_done());
}

#[test]
fn get_max_pressure_success() {
    let expectations = vec![
        Transaction::write(0x40, vec![0x15]),
        Transaction::read(0x40, vec![0x40, 0x41, 0x20]),
        Transaction::write(0x40, vec![0x16]),
        Transaction::read(0x40, vec![0x40, 0x00, 0x00]),
    ];
    let mock = ReplayBus::new(expectations);

    let mut keller_ld = KellerLD::new(mock, DEFAULT_ADDR, NoopDelay);
    let _ = keller_ld.get_max_pressure().unwrap();

    assert_eq!(keller_ld.max_pressure, Some((10.0f32).to_bits()));

    assert!(keller_ld.destroy().is_done());
}

#[test]
fn get_calibration_success() {
    let expectations = vec![
        Transaction::write(0x40, vec![0x12]),
        Transaction::read(0x40, vec![0x40, 0b00010101, 0b01110100]),
        Transaction::write(0x40, vec![0x13]),
        Transaction::read(0x40, vec![0x40, 0xBF, 0x80]),
        Transaction::write(0x40, vec![0x14]),
        Transaction::read(0x40, vec![0x40, 0x00, 0x00]),
        Transaction::write(0x40, vec![0x15]),
        Transaction::read(0x40, vec![0x40, 0x41, 0x20]),
        Transaction::write(0x40, vec![0x16]),
        Transaction::read(0x40, vec![0x40, 0x00, 0x00]),
    ];
    let mock = ReplayBus::new(expectations);

    let mut keller_ld = KellerLD::new(mock, DEFAULT_ADDR, NoopDelay);
    let _ = keller_ld.get_calibration().unwrap();

    assert!(keller_ld.destroy().is_done());
}

#[test]
fn read_pressure_pr_7ld_success() {
    let expectations = vec![
        Transaction::write(0x40, vec![0xAC]),
        Transaction::read(0x40, vec![0x40, 0x4E, 0x20, 0x5D, 0xD1]),
    ];
    let mock = ReplayBus::new(expectations);

    let mut keller_ld = KellerLD::new(mock, DEFAULT_ADDR, NoopDelay);
    keller_ld.pressure_mode = Some(PressureMode::Absolute);
    keller_ld.min_pressure = Some((-1.0f32).to_bits());
    keller_ld.max_pressure = Some((10.0f32).to_bits());

    let measurement = keller_ld.read().unwrap();

    assert!((pressure_bar(&measurement) - 0.213867).abs() <= 1.0e-6);

    assert!(keller_ld.destroy().is_done());
}

#[test]
fn read_pressure_pa_4ld_success() {
    let expectations = vec![
        Transaction::write(0x40, vec![0xAC]),
        Transaction::read(0x40, vec![0x40, 0x4E, 0x20, 0x5D, 0xD1]),
    ];
    let mock = ReplayBus::new(expectations);

    let mut keller_ld = KellerLD::new(mock, DEFAULT_ADDR, NoopDelay);
    keller_ld.pressure_mode = Some(PressureMode::Sealed);
    keller_ld.min_pressure = Some((0.0f32).to_bits());
    keller_ld.max_pressure = Some((30.0f32).to_bits());

    let measurement = keller_ld.read().unwrap();

    assert!((pressure_bar(&measurement) - 4.31055).abs() <= 1.0e-5);

    assert!(keller_ld.destroy().is_done());
}

#[test]
fn read_pressure_paa_9ld_success() {
    let expectations = vec![
        Transaction::write(0x40, vec![0xAC]),
        Transaction::read(0x40, vec![0x40, 0x4E, 0x20, 0x5D, 0xD1]),
    ];
    let mock = ReplayBus::new(expectations);

    let mut keller_ld = KellerLD::new(mock, DEFAULT_ADDR, NoopDelay);
    keller_ld.pressure_mode = Some(PressureMode::Absolute);
    keller_ld.min_pressure = Some((0.0f32).to_bits());
    keller_ld.max_pressure = Some((3.0f32).to_bits());

    let measurement = keller_ld.read().unwrap();

    assert!((pressure_bar(&measurement) - 0.331055).abs() <= 1.0e-6);

    assert!(keller_ld.destroy().is_done());
}

#[test]
fn read_temperature_success() {
    let expectations = vec![
        Transaction::write(0x40, vec![0xAC]),
        Transaction::read(0x40, vec![0x40, 0x4E, 0x20, 0x5D, 0xD1]),
    ];
    let mock = ReplayBus::new(expectations);

    let mut keller_ld = KellerLD::new(mock, DEFAULT_ADDR, NoopDelay);
    keller_ld.pressure_mode = Some(PressureMode::Absolute);
    keller_ld.min_pressure = Some((-1.0f32).to_bits());
    keller_ld.max_pressure = Some((10.0f32).to_bits());

    let measurement = keller_ld.read().unwrap();

    assert!((temperature_celsius(&measurement) - 23.85).abs() <= 1.0e-2);

    assert!(keller_ld.destroy().is_done());
}
