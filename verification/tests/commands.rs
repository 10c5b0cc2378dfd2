use dungeonctl::command::Command;
use dungeonctl::pulse::{IntensityChange, Pulse, Pulses};
use dungeonctl::settings::DeviceSettings;
use dungeonctl::stereo::Stereo;

/// The bytes that a string of hexadecimal digits stands for.
fn hex(digits: &str) -> Vec<u8> {
    (0..digits.len() / 2)
        .map(|i| u8::from_str_radix(&digits[2 * i..2 * i + 2], 16).unwrap())
        .collect()
}

fn pulses(a: IntensityChange, b: IntensityChange, pulses: [Stereo<Pulse>; 4]) -> Pulses {
    Pulses {
        intensity: Stereo { a, b },
        pulses,
    }
}

fn pulse(frequency: u8, intensity: u8) -> Pulse {
    Pulse {
        frequency,
        intensity,
    }
}

#[test]
fn test_b0_command() {
    assert_eq!(
        &*Command::SendPulses(Pulses {
            intensity: Stereo {
                a: IntensityChange::AbsoluteChange(10),
                b: IntensityChange::AbsoluteChange(0)
            },
            pulses: [Stereo {
                a: Pulse {
                    frequency: 100,
                    intensity: 0
                },
                b: Pulse {
                    frequency: 30,
                    intensity: 0
                }
            }; 4]
        })
        .to_bytes(),
        hex("b00f0a000a0a0a0a000000002121212100000000")
    );
    assert_eq!(
        &*Command::SendPulses(Pulses {
            intensity: Stereo {
                a: IntensityChange::AbsoluteChange(10),
                b: IntensityChange::AbsoluteChange(0)
            },
            pulses: [Stereo {
                a: Pulse {
                    frequency: 100,
                    intensity: 100
                },
                b: Pulse {
                    frequency: 30,
                    intensity: 100
                }
            }; 4]
        })
        .to_bytes(),
        hex("b00f0a000a0a0a0a646464642121212164646464")
    );
}

#[test]
fn test_bf_command() {
    assert_eq!(
        &*Command::UpdateSettings(DeviceSettings {
            limit: Stereo { a: 200, b: 200 },
            frequency_balance: Stereo { a: 160, b: 160 },
            intensity_balance: Stereo { a: 0, b: 0 },
        })
        .to_bytes(),
        hex("bfc8c8a0a00000")
    );
}

#[test]
fn settings_are_sent_field_by_field() {
    let settings = DeviceSettings {
        limit: Stereo { a: 1, b: 2 },
        frequency_balance: Stereo { a: 3, b: 4 },
        intensity_balance: Stereo { a: 5, b: 6 },
    };
    assert_eq!(&*Command::UpdateSettings(settings).to_bytes(), hex("bf010203040506"));
}

#[test]
fn default_settings() {
    let settings = DeviceSettings::default();
    assert_eq!(settings.limit, Stereo { a: 70, b: 70 });
    assert_eq!(settings.frequency_balance, Stereo { a: 160, b: 160 });
    assert_eq!(settings.intensity_balance, Stereo { a: 0, b: 0 });
    let limited = DeviceSettings {
        limit: Stereo { a: 50, b: 0 },
        ..Default::default()
    };
    assert_eq!(&*Command::UpdateSettings(limited).to_bytes(), hex("bf3200a0a00000"));
}

#[test]
fn pulses_are_sent_by_channel_and_quantity() {
    let command = Command::SendPulses(pulses(
        IntensityChange::RelativeIncrease(7),
        IntensityChange::RelativeDecrease(9),
        [
            Stereo { a: pulse(100, 1), b: pulse(50, 11) },
            Stereo { a: pulse(40, 2), b: pulse(25, 12) },
            Stereo { a: pulse(20, 3), b: pulse(10, 13) },
            Stereo { a: pulse(0, 4), b: pulse(1, 140) },
        ],
    ));
    assert_eq!(
        &*command.to_bytes(),
        [
            0xb0, 0b0110, 7, 9, 10, 25, 50, 0, 1, 2, 3, 4, 20, 40, 100, 240, 11, 12, 13, 100
        ]
    );
}

#[test]
fn commands_have_fixed_lengths() {
    let quiet = Stereo { a: pulse(0, 0), b: pulse(0, 0) };
    let command = Command::SendPulses(pulses(
        IntensityChange::DoNotChange,
        IntensityChange::DoNotChange,
        [quiet; 4],
    ));
    assert_eq!(command.to_bytes().len(), 20);
    assert_eq!(&*command.to_bytes(), hex("b000000000000000000000000000000000000000"));
    assert_eq!(Command::UpdateSettings(DeviceSettings::default()).to_bytes().len(), 7);
}

#[test]
fn pulses_that_are_sent_alike() {
    let loud = Stereo { a: pulse(200, 100), b: pulse(1, 0) };
    let too_loud = Stereo { a: pulse(255, 101), b: pulse(1, 0) };
    let change = IntensityChange::DoNotChange;
    assert_eq!(
        Command::SendPulses(pulses(change, change, [loud; 4])).to_bytes(),
        Command::SendPulses(pulses(change, change, [too_loud; 4])).to_bytes()
    );
    let other = IntensityChange::RelativeIncrease(0);
    assert_ne!(
        Command::SendPulses(pulses(change, change, [loud; 4])).to_bytes(),
        Command::SendPulses(pulses(other, change, [loud; 4])).to_bytes()
    );
    assert_ne!(
        Command::SendPulses(pulses(other, change, [loud; 4])).to_bytes(),
        Command::SendPulses(pulses(change, other, [loud; 4])).to_bytes()
    );
}
