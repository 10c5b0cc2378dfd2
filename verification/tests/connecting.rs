use dungeonctl::builder::DEVICE_NAME;
use dungeonctl::characteristic::{
    find_last_place, find_next_notifying, BATTERY_CHARACTERISTIC_UUID, NOTIFY_CHARACTERISTIC_UUID,
    WRITE_CHARACTERISTIC_UUID,
};
use dungeonctl::connect::{ConnectAction, ConnectEvent, Connecting};
use dungeonctl::device::Coyote3;
use dungeonctl::error::Error;
use dungeonctl::settings::DeviceSettings;
use dungeonctl::state::State;
use dungeonctl::stereo::Stereo;

const SETTINGS: DeviceSettings = DeviceSettings {
    limit: Stereo { a: 50, b: 0 },
    frequency_balance: Stereo { a: 160, b: 160 },
    intensity_balance: Stereo { a: 0, b: 0 },
};

fn discovered(name: &str) -> ConnectEvent {
    ConnectEvent::Discovered(Some(name.to_string()))
}

/// A connection that has come to the list of characteristics.
fn listing() -> Connecting {
    let (mut connecting, action) = Connecting::begin("x".to_string(), SETTINGS, true, true);
    assert!(matches!(action, ConnectAction::Connect));
    assert!(matches!(connecting.step(ConnectEvent::Done), ConnectAction::DiscoverServices));
    assert!(matches!(connecting.step(ConnectEvent::Done), ConnectAction::ListCharacteristics));
    connecting
}

/// A connection that is scanning for a device.
fn scanning(target: &str) -> Connecting {
    let (mut connecting, action) = Connecting::begin(target.to_string(), SETTINGS, true, false);
    assert!(matches!(action, ConnectAction::StartScan));
    assert!(matches!(connecting.step(ConnectEvent::Done), ConnectAction::AwaitEvent));
    connecting
}

#[test]
fn a_whole_connection() {
    let builder = Coyote3::connect().settings(SETTINGS);
    let (mut connecting, action, adapter, peripheral) = builder.connect();
    assert!(adapter.is_none());
    assert!(peripheral.is_none());
    assert!(matches!(action, ConnectAction::FindAdapter));
    assert!(matches!(connecting.step(ConnectEvent::Done), ConnectAction::StartScan));
    assert!(matches!(connecting.step(ConnectEvent::Done), ConnectAction::AwaitEvent));
    assert!(matches!(connecting.step(ConnectEvent::OtherScanEvent), ConnectAction::AwaitEvent));
    assert!(matches!(connecting.step(ConnectEvent::Discovered(None)), ConnectAction::AwaitEvent));
    assert!(matches!(connecting.step(discovered("47L121001")), ConnectAction::AwaitEvent));
    assert!(matches!(connecting.step(discovered("47L121000")), ConnectAction::StopScan));
    assert!(matches!(connecting.step(ConnectEvent::Done), ConnectAction::Connect));
    assert!(matches!(connecting.step(ConnectEvent::Done), ConnectAction::DiscoverServices));
    assert!(matches!(connecting.step(ConnectEvent::Done), ConnectAction::ListCharacteristics));
    let uuids = vec![
        7,
        BATTERY_CHARACTERISTIC_UUID,
        WRITE_CHARACTERISTIC_UUID,
        8,
        NOTIFY_CHARACTERISTIC_UUID,
    ];
    assert!(matches!(
        connecting.step(ConnectEvent::Characteristics(uuids)),
        ConnectAction::Subscribe(1)
    ));
    assert!(matches!(connecting.step(ConnectEvent::Done), ConnectAction::Subscribe(4)));
    assert!(matches!(connecting.step(ConnectEvent::Done), ConnectAction::ReadValue(1)));
    assert!(matches!(
        connecting.step(ConnectEvent::Value(vec![93])),
        ConnectAction::OpenNotifications
    ));
    match connecting.step(ConnectEvent::Done) {
        ConnectAction::Write(request) => {
            assert_eq!(request.characteristic, 2);
            assert_eq!(&*request.bytes, [0xbf, 50, 0, 160, 160, 0, 0]);
        }
        action => panic!("{:?}", action),
    }
    match connecting.step(ConnectEvent::Done) {
        ConnectAction::Finish(coyote) => assert_eq!(
            coyote,
            Coyote3 {
                write: 2,
                state: State {
                    battery: 93,
                    intensity: Stereo { a: 0, b: 0 },
                    settings: SETTINGS,
                },
            }
        ),
        action => panic!("{:?}", action),
    }
}

#[test]
fn what_is_given_is_not_looked_for() {
    let first = |adapter_given: bool, peripheral_given: bool| {
        Connecting::begin("x".to_string(), SETTINGS, adapter_given, peripheral_given)
    };
    assert!(matches!(first(false, false).1, ConnectAction::FindAdapter));
    assert!(matches!(first(true, false).1, ConnectAction::StartScan));
    assert!(matches!(first(true, true).1, ConnectAction::Connect));
    let (mut connecting, action) = first(false, true);
    assert!(matches!(action, ConnectAction::FindAdapter));
    assert!(matches!(connecting.step(ConnectEvent::Done), ConnectAction::Connect));
}

#[test]
fn default_device_name() {
    assert_eq!(DEVICE_NAME, "47L121000");
    let builder = Coyote3::connect();
    assert_eq!(builder.device_name.as_deref(), Some("47L121000"));
    assert_eq!(builder.settings, DeviceSettings::default());
    assert!(builder.adapter.is_none());
    assert!(builder.peripheral.is_none());
}

#[test]
fn another_device_name() {
    let builder = Coyote3::connect()
        .device_name("first".to_string())
        .settings(SETTINGS)
        .device_name("second".to_string());
    assert_eq!(builder.device_name.as_deref(), Some("second"));
    assert_eq!(builder.settings, SETTINGS);
    let (mut connecting, _, _, _) = builder.connect();
    connecting.step(ConnectEvent::Done);
    connecting.step(ConnectEvent::Done);
    assert!(matches!(connecting.step(discovered("47L121000")), ConnectAction::AwaitEvent));
    assert!(matches!(connecting.step(discovered("first")), ConnectAction::AwaitEvent));
    assert!(matches!(connecting.step(discovered("second")), ConnectAction::StopScan));
}

#[test]
fn no_device_name_means_the_default_one() {
    let mut builder = Coyote3::connect();
    builder.device_name = None;
    let (mut connecting, _, _, _) = builder.connect();
    connecting.step(ConnectEvent::Done);
    connecting.step(ConnectEvent::Done);
    assert!(matches!(connecting.step(discovered("47L121000")), ConnectAction::StopScan));
}

#[test]
fn a_scan_without_the_device_fails_with_its_name() {
    let mut connecting = scanning("mine");
    assert!(matches!(connecting.step(discovered("Mine")), ConnectAction::AwaitEvent));
    assert!(matches!(connecting.step(discovered("mine ")), ConnectAction::AwaitEvent));
    match connecting.step(ConnectEvent::ScanEnded) {
        ConnectAction::Fail(Error::DeviceNotFound(name)) => assert_eq!(name, "mine"),
        action => panic!("{:?}", action),
    }
}

#[test]
fn a_missing_characteristic_fails() {
    for (uuids, missing) in [
        (vec![], WRITE_CHARACTERISTIC_UUID),
        (vec![NOTIFY_CHARACTERISTIC_UUID, 9], WRITE_CHARACTERISTIC_UUID),
        (vec![BATTERY_CHARACTERISTIC_UUID], WRITE_CHARACTERISTIC_UUID),
        (vec![WRITE_CHARACTERISTIC_UUID], BATTERY_CHARACTERISTIC_UUID),
        (
            vec![NOTIFY_CHARACTERISTIC_UUID, WRITE_CHARACTERISTIC_UUID],
            BATTERY_CHARACTERISTIC_UUID,
        ),
    ] {
        let mut connecting = listing();
        let mut action = connecting.step(ConnectEvent::Characteristics(uuids));
        while let ConnectAction::Subscribe(_) = action {
            action = connecting.step(ConnectEvent::Done);
        }
        match action {
            ConnectAction::Fail(Error::MissingCharacteristic(uuid)) => assert_eq!(uuid, missing),
            action => panic!("{:?}", action),
        }
    }
}

#[test]
fn a_missing_notify_characteristic_is_no_failure() {
    let mut connecting = listing();
    let uuids = vec![WRITE_CHARACTERISTIC_UUID, BATTERY_CHARACTERISTIC_UUID];
    assert!(matches!(
        connecting.step(ConnectEvent::Characteristics(uuids)),
        ConnectAction::Subscribe(1)
    ));
    assert!(matches!(connecting.step(ConnectEvent::Done), ConnectAction::ReadValue(1)));
}

#[test]
fn of_several_characteristics_the_last_counts() {
    let mut connecting = listing();
    let uuids = vec![
        BATTERY_CHARACTERISTIC_UUID,
        WRITE_CHARACTERISTIC_UUID,
        BATTERY_CHARACTERISTIC_UUID,
        WRITE_CHARACTERISTIC_UUID,
    ];
    assert!(matches!(
        connecting.step(ConnectEvent::Characteristics(uuids)),
        ConnectAction::Subscribe(0)
    ));
    assert!(matches!(connecting.step(ConnectEvent::Done), ConnectAction::Subscribe(2)));
    assert!(matches!(connecting.step(ConnectEvent::Done), ConnectAction::ReadValue(2)));
    connecting.step(ConnectEvent::Value(vec![1]));
    match connecting.step(ConnectEvent::Done) {
        ConnectAction::Write(request) => assert_eq!(request.characteristic, 3),
        action => panic!("{:?}", action),
    }
}

#[test]
fn places_of_characteristics() {
    let uuids = vec![
        WRITE_CHARACTERISTIC_UUID,
        NOTIFY_CHARACTERISTIC_UUID,
        WRITE_CHARACTERISTIC_UUID,
        BATTERY_CHARACTERISTIC_UUID,
    ];
    assert_eq!(find_next_notifying(&uuids, 0), Some(1));
    assert_eq!(find_next_notifying(&uuids, 1), Some(1));
    assert_eq!(find_next_notifying(&uuids, 2), Some(3));
    assert_eq!(find_next_notifying(&uuids, 4), None);
    assert_eq!(find_next_notifying(&uuids, 100), None);
    assert_eq!(find_last_place(&uuids, WRITE_CHARACTERISTIC_UUID), Some(2));
    assert_eq!(find_last_place(&uuids, BATTERY_CHARACTERISTIC_UUID), Some(3));
    assert_eq!(find_last_place(&uuids, 5), None);
}

#[test]
fn failures_are_passed_on() {
    let fails = |mut connecting: Connecting| {
        let event = ConnectEvent::Failed(btleplug::Error::NotConnected);
        match connecting.step(event) {
            ConnectAction::Fail(Error::Btleplug(btleplug::Error::NotConnected)) => {}
            action => panic!("{:?}", action),
        }
    };
    fails(Connecting::begin("x".to_string(), SETTINGS, false, false).0);
    fails(Connecting::begin("x".to_string(), SETTINGS, true, false).0);
    fails(Connecting::begin("x".to_string(), SETTINGS, true, true).0);
    fails(scanning("x"));
    let mut connecting = listing();
    connecting.step(ConnectEvent::Characteristics(vec![
        BATTERY_CHARACTERISTIC_UUID,
        WRITE_CHARACTERISTIC_UUID,
    ]));
    fails(connecting);
}

#[test]
fn a_longer_battery_value_counts_by_its_first_byte() {
    let mut connecting = listing();
    connecting.step(ConnectEvent::Characteristics(vec![
        BATTERY_CHARACTERISTIC_UUID,
        WRITE_CHARACTERISTIC_UUID,
    ]));
    connecting.step(ConnectEvent::Done);
    connecting.step(ConnectEvent::Value(vec![42, 43]));
    connecting.step(ConnectEvent::Done);
    match connecting.step(ConnectEvent::Done) {
        ConnectAction::Finish(coyote) => assert_eq!(coyote.state().battery, 42),
        action => panic!("{:?}", action),
    }
}
