use dungeonctl::characteristic::{
    BATTERY_CHARACTERISTIC_UUID, NOTIFY_CHARACTERISTIC_UUID, WRITE_CHARACTERISTIC_UUID,
};
use dungeonctl::error::Error;
use uuid::Uuid;

#[test]
fn message_of_a_missing_characteristic() {
    assert_eq!(
        Error::MissingCharacteristic(WRITE_CHARACTERISTIC_UUID).message(),
        "missing device characteristic '0000150a-0000-1000-8000-00805f9b34fb'"
    );
    assert_eq!(
        Error::MissingCharacteristic(0x01234567_89ab_cdef_0123_456789abcdef).message(),
        "missing device characteristic '01234567-89ab-cdef-0123-456789abcdef'"
    );
}

#[test]
fn message_of_a_device_that_was_not_found() {
    assert_eq!(
        Error::DeviceNotFound("47L121000".to_string()).message(),
        "no BLE device matching '47L121000' found"
    );
}

#[test]
fn an_error_of_btleplug_speaks_for_itself() {
    let error = Error::from(btleplug::Error::DeviceNotFound);
    assert!(matches!(error, Error::Btleplug(btleplug::Error::DeviceNotFound)));
    assert_eq!(error.message(), btleplug::Error::DeviceNotFound.to_string());
    assert!(matches!(error.source(), Some(btleplug::Error::DeviceNotFound)));
    let error = Error::from(btleplug::Error::NotSupported("this".to_string()));
    assert_eq!(error.message(), btleplug::Error::NotSupported("this".to_string()).to_string());
}

#[test]
fn other_errors_have_no_source() {
    assert!(Error::MissingCharacteristic(1).source().is_none());
    assert!(Error::DeviceNotFound("x".to_string()).source().is_none());
}

#[test]
fn uuids_of_the_characteristics() {
    let uuid = |text: &str| Uuid::parse_str(text).unwrap().as_u128();
    assert_eq!(WRITE_CHARACTERISTIC_UUID, uuid("0000150A-0000-1000-8000-00805f9b34fb"));
    assert_eq!(NOTIFY_CHARACTERISTIC_UUID, uuid("0000150B-0000-1000-8000-00805f9b34fb"));
    assert_eq!(BATTERY_CHARACTERISTIC_UUID, uuid("00001500-0000-1000-8000-00805f9b34fb"));
}
