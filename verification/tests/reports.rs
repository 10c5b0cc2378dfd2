use dungeonctl::characteristic::{
    BATTERY_CHARACTERISTIC_UUID, NOTIFY_CHARACTERISTIC_UUID, WRITE_CHARACTERISTIC_UUID,
};
use dungeonctl::command::Command;
use dungeonctl::device::Coyote3;
use dungeonctl::notification::{Notification, ReadError};
use dungeonctl::pulse::{IntensityChange, Pulse, Pulses};
use dungeonctl::settings::DeviceSettings;
use dungeonctl::state::State;
use dungeonctl::stereo::Stereo;

const SETTINGS: DeviceSettings = DeviceSettings {
    limit: Stereo { a: 1, b: 2 },
    frequency_balance: Stereo { a: 3, b: 4 },
    intensity_balance: Stereo { a: 5, b: 6 },
};

#[test]
fn intensity_notifications_are_read() {
    assert_eq!(
        Notification::read(&[0xb1, 9, 20, 30]),
        Ok(Notification::IntensityChange {
            serial: 9,
            intensity: Stereo { a: 20, b: 30 }
        })
    );
}

#[test]
fn settings_notifications_are_read() {
    assert_eq!(
        Notification::read(&[0xbe, 1, 2, 3, 4, 5, 6]),
        Ok(Notification::DeviceSettingsChange(SETTINGS))
    );
}

#[test]
fn settings_that_were_sent_are_read_back() {
    let mut bytes = Command::UpdateSettings(SETTINGS).to_bytes().to_vec();
    bytes[0] = 0xbe;
    assert_eq!(
        Notification::read(&bytes),
        Ok(Notification::DeviceSettingsChange(SETTINGS))
    );
}

#[test]
fn bytes_behind_a_notification_are_ignored() {
    assert_eq!(
        Notification::read(&[0xb1, 9, 20, 30, 77, 78]),
        Notification::read(&[0xb1, 9, 20, 30])
    );
    assert_eq!(
        Notification::read(&[0xbe, 1, 2, 3, 4, 5, 6, 7, 8]),
        Ok(Notification::DeviceSettingsChange(SETTINGS))
    );
}

#[test]
fn incomplete_notifications_are_refused() {
    let intensity = [0xb1, 9, 20, 30];
    for n in 0..4 {
        assert_eq!(Notification::read(&intensity[..n]), Err(ReadError::UnexpectedEnd));
    }
    let settings = [0xbe, 1, 2, 3, 4, 5, 6];
    for n in 0..7 {
        assert_eq!(Notification::read(&settings[..n]), Err(ReadError::UnexpectedEnd));
    }
}

#[test]
fn unknown_notifications_are_refused() {
    for kind in 0..=255 {
        if kind != 0xb1 && kind != 0xbe {
            assert_eq!(
                Notification::read(&[kind, 1, 2, 3, 4, 5, 6]),
                Err(ReadError::UnknownNotification(kind))
            );
        }
    }
    assert_eq!(Notification::read(&[0xb0]), Err(ReadError::UnknownNotification(0xb0)));
}

#[test]
fn default_state() {
    let state = State::default();
    assert_eq!(state.battery, 0);
    assert_eq!(state.intensity, Stereo { a: 0, b: 0 });
    assert_eq!(state.settings, DeviceSettings::default());
}

#[test]
fn reports_change_the_part_that_they_are_about() {
    let mut state = State::default();
    let mut expected = State::default();

    expected.battery = 80;
    assert_eq!(state.report(BATTERY_CHARACTERISTIC_UUID, &[80]), Some(expected));
    assert_eq!(state, expected);

    expected.intensity = Stereo { a: 20, b: 30 };
    assert_eq!(state.report(NOTIFY_CHARACTERISTIC_UUID, &[0xb1, 0, 20, 30]), Some(expected));
    assert_eq!(state, expected);

    expected.settings = SETTINGS;
    assert_eq!(
        state.report(NOTIFY_CHARACTERISTIC_UUID, &[0xbe, 1, 2, 3, 4, 5, 6]),
        Some(expected)
    );
    assert_eq!(state, expected);
}

#[test]
fn the_latest_report_counts() {
    let mut state = State::default();
    for level in [90, 89, 88] {
        state.report(NOTIFY_CHARACTERISTIC_UUID, &[0xb1, 0, level, level / 2]);
        state.report(BATTERY_CHARACTERISTIC_UUID, &[level]);
    }
    state.report(NOTIFY_CHARACTERISTIC_UUID, &[0xb1, 0]);
    assert_eq!(state.battery, 88);
    assert_eq!(state.intensity, Stereo { a: 88, b: 44 });
    assert_eq!(state.settings, DeviceSettings::default());
}

#[test]
fn other_reports_change_nothing() {
    let mut state = State {
        battery: 3,
        intensity: Stereo { a: 4, b: 5 },
        settings: SETTINGS,
    };
    let before = state;
    assert_eq!(state.report(WRITE_CHARACTERISTIC_UUID, &[0xb1, 0, 20, 30]), None);
    assert_eq!(state.report(0, &[]), None);
    assert_eq!(state.report(NOTIFY_CHARACTERISTIC_UUID, &[]), None);
    assert_eq!(state.report(NOTIFY_CHARACTERISTIC_UUID, &[0xb1, 0, 20]), None);
    assert_eq!(state.report(NOTIFY_CHARACTERISTIC_UUID, &[0xb2, 0, 20, 30]), None);
    assert_eq!(state, before);
}

#[test]
fn a_device_keeps_its_state_and_sends_its_commands() {
    let mut coyote = Coyote3 {
        write: 4,
        state: State::default(),
    };
    let reported = coyote.report(BATTERY_CHARACTERISTIC_UUID, &[55]);
    assert_eq!(reported, Some(coyote.state()));
    assert_eq!(coyote.state().battery, 55);
    assert_eq!(coyote.report(WRITE_CHARACTERISTIC_UUID, &[66]), None);
    assert_eq!(coyote.state().battery, 55);

    let request = coyote.update_settings(SETTINGS);
    assert_eq!(request.characteristic, 4);
    assert_eq!(&*request.bytes, [0xbf, 1, 2, 3, 4, 5, 6]);

    let pulse = Pulse {
        frequency: 100,
        intensity: 50,
    };
    let request = coyote.send_pulses(Pulses {
        intensity: Stereo {
            a: IntensityChange::DoNotChange,
            b: IntensityChange::RelativeIncrease(1),
        },
        pulses: [Stereo { a: pulse, b: pulse }; 4],
    });
    assert_eq!(request.characteristic, 4);
    assert_eq!(
        &*request.bytes,
        [0xb0, 1, 0, 1, 10, 10, 10, 10, 50, 50, 50, 50, 10, 10, 10, 10, 50, 50, 50, 50]
    );

    let request = coyote.send_command(Command::UpdateSettings(DeviceSettings::default()));
    assert_eq!(request.characteristic, 4);
    assert_eq!(&*request.bytes, [0xbf, 70, 70, 160, 160, 0, 0]);
}
