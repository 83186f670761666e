use tindeq::hx711::{
    sample_from_word, shift_in, Calibration, GainMode, Hx711, CALIBRATION_FACTOR,
    CALIBRATION_OFFSET, HX711_MAXIMUM, HX711_MINIMUM, MEASUREMENT_SAMPLES,
};
use tindeq::outbox::DataPointChannel;
use tindeq::progressor::{on_command, DeviceIdentity, DeviceState, MeasurementTaskStatus};

fn bits_of(sample: i32) -> [bool; 24] {
    let word = (sample as u32) & 0x00FF_FFFF;
    let mut bits = [false; 24];
    for (i, bit) in bits.iter_mut().enumerate() {
        *bit = (word >> (23 - i)) & 1 == 1;
    }
    bits
}

#[test]
fn gain_modes_cost_one_two_or_three_pulses() {
    assert_eq!(GainMode::A128.extra_pulses(), 1);
    assert_eq!(GainMode::B32.extra_pulses(), 2);
    assert_eq!(GainMode::A64.extra_pulses(), 3);
}

#[test]
fn a_new_driver_has_gain_64_no_tare_and_default_calibration() {
    let driver = Hx711::new();
    assert_eq!(driver.gain_mode(), GainMode::A64);
    assert_eq!(driver.gain_pulses(), 3);
    assert_eq!(driver.tare_value(), 0);
    assert_eq!(f32::from_bits(driver.calibration().factor), 1.3145);
    assert_eq!(f32::from_bits(driver.calibration().offset), -3.8790);
    assert_eq!(driver.calibration().factor, CALIBRATION_FACTOR);
    assert_eq!(driver.calibration().offset, CALIBRATION_OFFSET);
}

#[test]
fn gain_mode_is_kept_for_the_next_conversion() {
    let mut driver = Hx711::new();
    driver.set_gain_mode(GainMode::B32);
    assert_eq!(driver.gain_mode(), GainMode::B32);
    assert_eq!(driver.gain_pulses(), 2);
    assert_eq!(driver.tare_value(), 0);
}

#[test]
fn converter_is_ready_when_the_data_line_is_low() {
    assert!(Hx711::is_ready(false));
    assert!(!Hx711::is_ready(true));
}

#[test]
fn conversions_are_read_msb_first_in_twos_complement() {
    assert_eq!(Hx711::read_raw(&[false; 24]), 0);
    assert_eq!(Hx711::read_raw(&[true; 24]), -1);
    assert_eq!(Hx711::read_raw(&bits_of(1)), 1);
    assert_eq!(Hx711::read_raw(&bits_of(1000)), 1000);
    assert_eq!(Hx711::read_raw(&bits_of(-1000)), -1000);
    assert_eq!(Hx711::read_raw(&bits_of(HX711_MAXIMUM)), HX711_MAXIMUM);
    assert_eq!(Hx711::read_raw(&bits_of(HX711_MINIMUM)), HX711_MINIMUM);
    let mut first_only = [false; 24];
    first_only[0] = true;
    assert_eq!(Hx711::read_raw(&first_only), HX711_MINIMUM);
    let mut last_only = [false; 24];
    last_only[23] = true;
    assert_eq!(Hx711::read_raw(&last_only), 1);
}

#[test]
fn words_are_sign_extended_and_clamped() {
    assert_eq!(sample_from_word(0), 0);
    assert_eq!(sample_from_word(0x7F_FFFF), 8_388_607);
    assert_eq!(sample_from_word(0x80_0000), -8_388_608);
    assert_eq!(sample_from_word(0xFF_FFFF), -1);
    assert_eq!(sample_from_word(0x0100_0000), HX711_MAXIMUM);
    assert_eq!(sample_from_word(0x7F00_0000), HX711_MAXIMUM);
    assert_eq!(sample_from_word(0x8000_0000), HX711_MINIMUM);
    assert_eq!(sample_from_word(0x0180_0001), -8_388_607);
    assert_eq!(shift_in(0b101, true), 0b1011);
    assert_eq!(shift_in(0b101, false), 0b1010);
}

#[test]
fn readings_have_the_tare_baseline_subtracted() {
    let mut driver = Hx711::new();
    assert_eq!(driver.read(&bits_of(1000)), 1000);
    driver.set_tare_value(100);
    assert_eq!(driver.tare_value(), 100);
    assert_eq!(driver.read(&bits_of(1000)), 900);
    assert_eq!(driver.read(&bits_of(-50)), -150);
    driver.set_tare_value(HX711_MINIMUM);
    assert_eq!(driver.read(&bits_of(HX711_MAXIMUM)), 16_777_215);
    driver.set_tare_value(HX711_MAXIMUM);
    assert_eq!(driver.read(&bits_of(HX711_MINIMUM)), -16_777_215);
}

#[test]
fn calibration_can_be_set_and_reset() {
    let mut driver = Hx711::new();
    let custom = Calibration { offset: 0.0f32.to_bits(), factor: 1.0f32.to_bits() };
    driver.set_calibration(custom);
    assert_eq!(driver.calibration(), custom);
    driver.restore_default_calibration();
    assert_eq!(driver.calibration().factor, CALIBRATION_FACTOR);
    assert_eq!(driver.calibration().offset, CALIBRATION_OFFSET);
}

#[test]
fn tare_scale_over_four_samples_gives_baseline_100() {
    let mut channel = DataPointChannel::new();
    let mut state = DeviceState::new();
    let identity = DeviceIdentity::new(b"1.0.4", 1).unwrap();
    let mut driver = Hx711::new();
    on_command(&[0x64], &mut channel, &mut state, 0, &identity);
    assert_eq!(state.measurement_status, MeasurementTaskStatus::Tare);
    let work = state.scheduled_work();
    let mut total: f32 = 0.0;
    for (n, sample) in [100, 102, 98, 100].into_iter().enumerate() {
        let raw = Hx711::read_raw(&bits_of(sample));
        assert_eq!(raw, sample);
        total += (raw as f32 - total) / (n + 1) as f32;
    }
    driver.set_tare_value((total as i32).clamp(HX711_MINIMUM, HX711_MAXIMUM));
    state.complete(work);
    assert_eq!(driver.tare_value(), 100);
    assert!(state.tared);
    assert_eq!(state.measurement_status, MeasurementTaskStatus::Disabled);
    assert_eq!(driver.read(&bits_of(100)), 0);
}

#[test]
fn twenty_readings_of_1000_average_to_one_kilogram() {
    let mut driver = Hx711::new();
    driver.set_calibration(Calibration { offset: 0.0f32.to_bits(), factor: 1.0f32.to_bits() });
    let factor = f32::from_bits(driver.calibration().factor);
    let offset = f32::from_bits(driver.calibration().offset);
    let mut weight = 0.0f32;
    for _ in 0..MEASUREMENT_SAMPLES {
        let reading = driver.read(&bits_of(1000));
        weight += reading as f32 * factor - offset;
    }
    assert_eq!(weight / (MEASUREMENT_SAMPLES as f32 * 1000.0), 1.0);
}
