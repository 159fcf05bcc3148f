use aht20::initialize_command;
use aht20::is_busy;
use aht20::is_calibrated;
use aht20::trigger_measurement_command;
use aht20::Aht20Error;
use aht20::BusError;
use aht20::DriverState;
use aht20::AHT20;
use aht20::AHT20_ADDRESS;
use aht20::DELAY_INIT_CALIBRATION_MS;
use aht20::DELAY_MEASUREMENT_MS;

#[test]
fn fresh_driver_is_uninitialized() {
    let d = AHT20::new();
    assert_eq!(d.state, DriverState::Uninitialized);
    assert!(d.needs_init());
}

#[test]
fn init_succeeds_on_calibration_set() {
    let mut d = AHT20::new();
    assert!(d.init(0b0000_1000).is_ok());
    assert_eq!(d.state, DriverState::Calibrated);
    assert!(!d.needs_init());
}

#[test]
fn init_fails_on_calibration_clear() {
    let mut d = AHT20::new();
    assert_eq!(d.init(0b0000_0000), Err(Aht20Error::NotCalibrated));
    assert_eq!(d.state, DriverState::Uninitialized);
}

#[test]
fn init_tolerates_busy_flag() {
    // A set busy flag after initialization is unexpected but informational:
    // the call still succeeds when the calibration flag is set.
    let mut d = AHT20::new();
    assert!(d.init(0b1000_1000).is_ok());
    assert_eq!(d.state, DriverState::Calibrated);
}

#[test]
fn busy_measurement_is_rejected() {
    let mut d = AHT20::new();
    d.init(0x08).unwrap();
    let r = d.read([0x88, 0x12, 0x34, 0x56, 0x78, 0x9A, 0x00]);
    assert_eq!(r, Err(Aht20Error::MeasurementBusy));
    assert_eq!(d.state, DriverState::Calibrated);
}

#[test]
fn busy_flag_is_checked_before_calibration_flag() {
    // Busy and calibration both unfavourable: the frame is not ready, so it
    // is rejected as busy and the state is left alone.
    let mut d = AHT20::new();
    d.init(0x08).unwrap();
    let r = d.read([0x80, 0x00, 0x00, 0x00, 0x00, 0x00, 0x00]);
    assert_eq!(r, Err(Aht20Error::MeasurementBusy));
    assert_eq!(d.state, DriverState::Calibrated);
}

#[test]
fn half_scale_humidity_reads_fifty_percent() {
    let mut d = AHT20::new();
    d.init(0x08).unwrap();
    let m = d.read([0x08, 0x80, 0x00, 0x00, 0x00, 0x00, 0x00]).unwrap();
    assert_eq!(m.raw_humidity, 524288);
    let humidity = (m.raw_humidity as f32 / 1_048_576.0) * 100.0;
    assert_eq!(humidity, 50.0);
    assert_eq!(aht20::decode_humidity_milli(m.raw_humidity), 50_000);
}

#[test]
fn measure_on_fresh_driver_initializes_first() {
    // The decision that puts the initialization sequence ahead of the
    // trigger-measurement write.
    let mut d = AHT20::new();
    assert!(d.needs_init());
    d.init(0x08).unwrap();
    assert!(!d.needs_init());
    assert!(d.read([0x08, 0x00, 0x00, 0x00, 0x00, 0x00, 0x00]).is_ok());
}

#[test]
fn calibration_loss_forces_reinitialization() {
    let mut d = AHT20::new();
    d.init(0x08).unwrap();
    let r = d.read([0x00, 0x00, 0x00, 0x00, 0x00, 0x00, 0x00]);
    assert_eq!(r, Err(Aht20Error::NotCalibrated));
    assert_eq!(d.state, DriverState::Uninitialized);
    // The measurement that follows must begin with initialization again.
    assert!(d.needs_init());
    assert!(d.init(0x08).is_ok());
    assert!(!d.needs_init());
}

#[test]
fn successful_measurement_keeps_calibrated_state() {
    let mut d = AHT20::new();
    d.init(0x08).unwrap();
    let m = d.read([0x1C, 0x5A, 0xA5, 0x3C, 0x7E, 0x01, 0x55]).unwrap();
    assert_eq!(d.state, DriverState::Calibrated);
    assert_eq!(m.status, 0x1C);
    assert_eq!(m.raw_humidity, 0x5AA53);
    assert_eq!(m.raw_temperature, 0xC7E01);
    assert_eq!(m.crc, 0x55);
}

#[test]
fn strict_policy_reports_not_initialized() {
    let mut d = AHT20::new();
    assert_eq!(d.require_initialized(), Err(Aht20Error::NotInitialized));
    d.init(0x08).unwrap();
    assert!(d.require_initialized().is_ok());
    d.read([0x00, 0x00, 0x00, 0x00, 0x00, 0x00, 0x00]).unwrap_err();
    assert_eq!(d.require_initialized(), Err(Aht20Error::NotInitialized));
}

#[test]
fn bus_errors_wrap_unchanged() {
    assert_eq!(Aht20Error::from(BusError::Nack), Aht20Error::I2c(BusError::Nack));
    assert_eq!(Aht20Error::from(BusError::Timeout), Aht20Error::I2c(BusError::Timeout));
}

#[test]
fn protocol_constants() {
    assert_eq!(AHT20_ADDRESS, 0x38);
    assert_eq!(initialize_command(), [0xBE, 0x08, 0x00]);
    assert_eq!(trigger_measurement_command(), [0xAC, 0x33, 0x00]);
    assert_eq!(DELAY_INIT_CALIBRATION_MS, 80);
    assert_eq!(DELAY_MEASUREMENT_MS, 80);
}

#[test]
fn status_flags() {
    assert!(is_busy(0x80));
    assert!(!is_busy(0x08));
    assert!(is_calibrated(0x08));
    assert!(!is_calibrated(0x80));
    assert!(is_busy(0xFF));
    assert!(is_calibrated(0xFF));
    assert!(!is_busy(0x00));
    assert!(!is_calibrated(0x00));
}
