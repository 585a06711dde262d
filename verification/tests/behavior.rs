use keller_ld::be_u16;
use keller_ld::be_u32;
use keller_ld::check_status;
use keller_ld::decode_date;
use keller_ld::decode_pressure_mode;
use keller_ld::pressure_fraction_numerator;
use keller_ld::temperature_ticks;
use keller_ld::Date;
use keller_ld::KellerLD;
use keller_ld::KellerLDError;
use keller_ld::NoopDelay;
use keller_ld::PressureMode;
use keller_ld::ReplayBus;
use keller_ld::Transaction;
use keller_ld::DEFAULT_ADDR;

fn measurement_driver(status: u8) -> KellerLD<ReplayBus, NoopDelay> {
    let expectations = vec![
        Transaction::write(0x40, vec![0xAC]),
        Transaction::read(0x40, vec![status, 0x4E, 0x20, 0x5D, 0xD1]),
    ];
    KellerLD::new(ReplayBus::new(expectations), DEFAULT_ADDR, NoopDelay)
}

fn calibrate(driver: &mut KellerLD<ReplayBus, NoopDelay>) {
    driver.pressure_mode = Some(PressureMode::Absolute);
    driver.min_pressure = Some((-1.0f32).to_bits());
    driver.max_pressure = Some((10.0f32).to_bits());
}

#[test]
fn busy_status_is_reported_even_when_calibrated() {
    let mut driver = measurement_driver(0x20);
    calibrate(&mut driver);
    assert_eq!(driver.read(), Err(KellerLDError::Busy));
}

#[test]
fn busy_status_takes_priority_over_uncalibrated() {
    // No calibration at all: the status byte is still interpreted first.
    let mut driver = measurement_driver(0x20);
    assert_eq!(driver.read(), Err(KellerLDError::Busy));
}

#[test]
fn busy_wins_when_every_status_flag_is_set() {
    let mut driver = measurement_driver(0x3C);
    calibrate(&mut driver);
    assert_eq!(driver.read(), Err(KellerLDError::Busy));
}

#[test]
fn incorrect_mode_wins_over_checksum_mismatch() {
    let mut driver = measurement_driver(0x1C);
    calibrate(&mut driver);
    assert_eq!(driver.read(), Err(KellerLDError::IncorrectMode));
}

#[test]
fn either_mode_bit_reports_incorrect_mode() {
    let mut low = measurement_driver(0x08);
    calibrate(&mut low);
    assert_eq!(low.read(), Err(KellerLDError::IncorrectMode));

    let mut high = measurement_driver(0x10);
    calibrate(&mut high);
    assert_eq!(high.read(), Err(KellerLDError::IncorrectMode));
}

#[test]
fn checksum_bit_reports_checksum_mismatch() {
    let mut driver = measurement_driver(0x04);
    calibrate(&mut driver);
    assert_eq!(driver.read(), Err(KellerLDError::ChecksumMismatch));
}

#[test]
fn clear_status_with_ignored_bits_passes() {
    // Bits 6 and 0-1 carry no condition; 0x43 must decode normally.
    let mut driver = measurement_driver(0x43);
    calibrate(&mut driver);
    let measurement = driver.read().unwrap();
    assert_eq!(measurement.raw_pressure, 0x4E20);
    assert_eq!(measurement.raw_temperature, 0x5DD1);
    assert_eq!(measurement.pressure_mode, PressureMode::Absolute);
}

#[test]
fn read_without_any_calibration_is_uncalibrated() {
    let mut driver = measurement_driver(0x40);
    assert_eq!(driver.read(), Err(KellerLDError::Uncalibrated));
}

#[test]
fn read_with_one_field_missing_is_uncalibrated() {
    let mut no_mode = measurement_driver(0x40);
    calibrate(&mut no_mode);
    no_mode.pressure_mode = None;
    assert_eq!(no_mode.read(), Err(KellerLDError::Uncalibrated));

    let mut no_min = measurement_driver(0x40);
    calibrate(&mut no_min);
    no_min.min_pressure = None;
    assert_eq!(no_min.read(), Err(KellerLDError::Uncalibrated));

    let mut no_max = measurement_driver(0x40);
    calibrate(&mut no_max);
    no_max.max_pressure = None;
    assert_eq!(no_max.read(), Err(KellerLDError::Uncalibrated));
}

#[test]
fn reserved_pressure_mode_encoding_is_rejected() {
    let expectations = vec![
        Transaction::write(0x40, vec![0x12]),
        // Low two bits 11: the reserved mode encoding.
        Transaction::read(0x40, vec![0x40, 0x15, 0x77]),
    ];
    let mut driver = KellerLD::new(ReplayBus::new(expectations), DEFAULT_ADDR, NoopDelay);
    assert_eq!(driver.get_pressure_mode(), Err(KellerLDError::UnexpectedValue));
    assert_eq!(driver.pressure_mode, None);
    assert!(driver.destroy().is_done());
}

#[test]
fn transport_failure_is_wrapped_as_bus_error() {
    let mut driver = KellerLD::new(ReplayBus::new(vec![]), DEFAULT_ADDR, NoopDelay);
    match driver.get_pressure_mode() {
        Err(KellerLDError::Bus(_)) => {}
        other => panic!("expected a bus error, got {:?}", other),
    }
}

#[test]
fn calibration_keeps_pressure_mode_when_range_fetch_fails() {
    // Script only the scaling_0 exchange: the first range exchange fails,
    // and the already-fetched pressure mode deliberately stays in place.
    let expectations = vec![
        Transaction::write(0x40, vec![0x12]),
        Transaction::read(0x40, vec![0x40, 0b00010101, 0b01110100]),
    ];
    let mut driver = KellerLD::new(ReplayBus::new(expectations), DEFAULT_ADDR, NoopDelay);
    match driver.get_calibration() {
        Err(KellerLDError::Bus(_)) => {}
        other => panic!("expected a bus error, got {:?}", other),
    }
    assert_eq!(driver.pressure_mode, Some(PressureMode::Vented));
    assert_eq!(driver.min_pressure, None);
    assert_eq!(driver.max_pressure, None);
}

#[test]
fn temperature_ticks_match_the_documented_formula() {
    assert_eq!(temperature_ticks(0x5DD1), 1477);
    assert_eq!(temperature_ticks(0), -24);
    assert_eq!(temperature_ticks(0xFFFF), 4071);
    // The Celsius value of the measurement-scenario word.
    let celsius = temperature_ticks(0x5DD1) as f32 * 0.05 - 50.0;
    assert!((celsius - 23.85).abs() <= 1.0e-2);
}

#[test]
fn temperature_ticks_never_decrease() {
    let mut previous = temperature_ticks(0);
    let mut raw: u32 = 1;
    while raw <= 0xFFFF {
        let current = temperature_ticks(raw as u16);
        assert!(previous <= current);
        previous = current;
        raw += 1;
    }
}

#[test]
fn pressure_fraction_numerator_matches_the_centred_remap() {
    assert_eq!(pressure_fraction_numerator(0), -32768);
    assert_eq!(pressure_fraction_numerator(16384), 0);
    assert_eq!(pressure_fraction_numerator(32768), 32768);
    assert_eq!(pressure_fraction_numerator(0xFFFF), 98302);
    // The numerator over 65536 equals raw / 32768 - 0.5 exactly.
    let raw: u16 = 0x4E20;
    let from_numerator = pressure_fraction_numerator(raw) as f32 / 65536.0;
    let direct = raw as f32 / 32768.0 - 0.5;
    assert_eq!(from_numerator, direct);
}

#[test]
fn pressure_is_monotonic_in_the_raw_word() {
    let min = -1.0f32;
    let max = 10.0f32;
    let mut previous = f32::NEG_INFINITY;
    let mut raw: u32 = 0;
    while raw <= 0xFFFF {
        let pressure = (raw as f32 / 32768.0 - 0.5) * (max - min) + min;
        assert!(previous <= pressure);
        previous = pressure;
        raw += 1;
    }
}

#[test]
fn raw_word_16384_decodes_to_the_minimum_plus_offset() {
    // The centred fraction is zero at raw word 16384, so the decoded
    // pressure is the calibrated minimum plus the mode offset.
    let expectations = vec![
        Transaction::write(0x40, vec![0xAC]),
        Transaction::read(0x40, vec![0x40, 0x40, 0x00, 0x5D, 0xD1]),
    ];
    let mut driver = KellerLD::new(ReplayBus::new(expectations), DEFAULT_ADDR, NoopDelay);
    driver.pressure_mode = Some(PressureMode::Vented);
    driver.min_pressure = Some((-1.0f32).to_bits());
    driver.max_pressure = Some((10.0f32).to_bits());
    let measurement = driver.read().unwrap();
    assert_eq!(measurement.raw_pressure, 16384);
    let min = f32::from_bits(measurement.min_pressure_bits);
    let max = f32::from_bits(measurement.max_pressure_bits);
    let offset = measurement.pressure_mode.offset() as f32 / 100000.0;
    let pressure = (measurement.raw_pressure as f32 / 32768.0 - 0.5) * (max - min) + min + offset;
    assert!((pressure - (-1.0 + 1.01325)).abs() <= 1.0e-6);
}

#[test]
fn raw_word_32768_decodes_to_the_middle_of_the_range() {
    // The centred fraction is one half at raw word 32768, so the decoded
    // pressure is the middle of the calibrated range plus the mode offset.
    let expectations = vec![
        Transaction::write(0x40, vec![0xAC]),
        Transaction::read(0x40, vec![0x40, 0x80, 0x00, 0x5D, 0xD1]),
    ];
    let mut driver = KellerLD::new(ReplayBus::new(expectations), DEFAULT_ADDR, NoopDelay);
    driver.pressure_mode = Some(PressureMode::Absolute);
    driver.min_pressure = Some((-1.0f32).to_bits());
    driver.max_pressure = Some((10.0f32).to_bits());
    let measurement = driver.read().unwrap();
    assert_eq!(measurement.raw_pressure, 32768);
    let min = f32::from_bits(measurement.min_pressure_bits);
    let max = f32::from_bits(measurement.max_pressure_bits);
    let pressure = (measurement.raw_pressure as f32 / 32768.0 - 0.5) * (max - min) + min;
    assert!((pressure - (min + max) / 2.0).abs() <= 1.0e-6);
}

#[test]
fn mode_offsets_are_the_documented_constants() {
    assert_eq!(PressureMode::Vented.offset(), 101325);
    assert_eq!(PressureMode::Sealed.offset(), 100000);
    assert_eq!(PressureMode::Absolute.offset(), 0);
    assert!((PressureMode::Vented.offset() as f32 / 100000.0 - 1.01325).abs() == 0.0);
}

#[test]
fn big_endian_words_are_assembled_high_byte_first() {
    assert_eq!(be_u16(0x4E, 0x20), 0x4E20);
    assert_eq!(be_u16(0x00, 0xFF), 0x00FF);
    assert_eq!(be_u32(0xBF, 0x80, 0x00, 0x00), 0xBF800000);
    assert_eq!(f32::from_bits(be_u32(0xBF, 0x80, 0x00, 0x00)), -1.0);
    assert_eq!(f32::from_bits(be_u32(0x41, 0x20, 0x00, 0x00)), 10.0);
}

#[test]
fn scaling_register_decodes_mode_and_date() {
    let date = decode_date(0b00010101_01110100);
    assert_eq!(
        date,
        Date {
            year: 2012,
            month: 10,
            day: 29,
        }
    );
    assert_eq!(decode_pressure_mode(0b00), Ok(PressureMode::Vented));
    assert_eq!(decode_pressure_mode(0b01), Ok(PressureMode::Sealed));
    assert_eq!(decode_pressure_mode(0b10), Ok(PressureMode::Absolute));
    assert_eq!(
        decode_pressure_mode(0b11),
        Err(KellerLDError::UnexpectedValue)
    );
}

#[test]
fn status_checks_follow_the_documented_order() {
    assert_eq!(check_status(0x00), Ok(()));
    assert_eq!(check_status(0x40), Ok(()));
    assert_eq!(check_status(0x20), Err(KellerLDError::Busy));
    assert_eq!(check_status(0x38), Err(KellerLDError::Busy));
    assert_eq!(check_status(0x18), Err(KellerLDError::IncorrectMode));
    assert_eq!(check_status(0x1C), Err(KellerLDError::IncorrectMode));
    assert_eq!(check_status(0x04), Err(KellerLDError::ChecksumMismatch));
}
