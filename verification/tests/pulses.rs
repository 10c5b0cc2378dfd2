use dungeonctl::pulse::{IntensityChange, Pulse, Pulses};
use dungeonctl::stereo::Stereo;

fn compressed(frequency: u8) -> u8 {
    Pulse {
        frequency,
        intensity: 0,
    }
    .compressed_frequency_value()
}

/// The compressed period, computed with floating point numbers.
fn compressed_with_floats(frequency: u8) -> u8 {
    if frequency == 0 {
        return 0;
    }
    let t = 1000.0 / (frequency as f32);
    let compressed_t = if t < 5.0 {
        5.0
    } else if t < 100.0 {
        t
    } else if t < 600.0 {
        (t - 100.0) / 5.0 + 100.0
    } else if t < 1000.0 {
        (t - 600.0) / 10.0 + 200.0
    } else {
        240.0
    };
    compressed_t as u8
}

#[test]
fn every_frequency_is_compressed_as_with_floats() {
    for frequency in 0..=255 {
        assert_eq!(compressed(frequency), compressed_with_floats(frequency));
    }
}

#[test]
fn some_compressed_frequencies() {
    assert_eq!(compressed(0), 0);
    assert_eq!(compressed(1), 240);
    assert_eq!(compressed(2), 180);
    assert_eq!(compressed(3), 146);
    assert_eq!(compressed(9), 102);
    assert_eq!(compressed(10), 100);
    assert_eq!(compressed(11), 90);
    assert_eq!(compressed(30), 33);
    assert_eq!(compressed(100), 10);
    assert_eq!(compressed(200), 5);
    assert_eq!(compressed(201), 5);
    assert_eq!(compressed(255), 5);
}

#[test]
fn higher_frequencies_have_no_larger_bytes() {
    for frequency in 1..255 {
        assert!(compressed(frequency + 1) <= compressed(frequency));
        assert!(compressed(frequency) >= 5 && compressed(frequency) <= 240);
    }
}

#[test]
fn amplitudes_are_clamped() {
    for intensity in 0..=255 {
        let pulse = Pulse {
            frequency: 10,
            intensity,
        };
        assert_eq!(pulse.clamped_intensity(), intensity.clamp(0, 100));
    }
}

#[test]
fn modes_and_values_of_intensity_changes() {
    assert_eq!(IntensityChange::DoNotChange.mode(), 0b00);
    assert_eq!(IntensityChange::RelativeIncrease(5).mode(), 0b01);
    assert_eq!(IntensityChange::RelativeDecrease(6).mode(), 0b10);
    assert_eq!(IntensityChange::AbsoluteChange(7).mode(), 0b11);
    assert_eq!(IntensityChange::DoNotChange.value(), 0);
    assert_eq!(IntensityChange::RelativeIncrease(5).value(), 5);
    assert_eq!(IntensityChange::RelativeDecrease(6).value(), 6);
    assert_eq!(IntensityChange::AbsoluteChange(7).value(), 7);
}

#[test]
fn intensity_bytes_tell_changes_apart() {
    let changes = [
        IntensityChange::DoNotChange,
        IntensityChange::RelativeIncrease(0),
        IntensityChange::RelativeIncrease(1),
        IntensityChange::RelativeDecrease(1),
        IntensityChange::AbsoluteChange(1),
    ];
    let mut seen = Vec::new();
    for a in changes {
        for b in changes {
            let bytes = Pulses::convert_intensity(&Stereo { a, b });
            assert!(!seen.contains(&bytes));
            seen.push(bytes);
        }
    }
    assert_eq!(
        Pulses::convert_intensity(&Stereo {
            a: IntensityChange::RelativeDecrease(3),
            b: IntensityChange::AbsoluteChange(200),
        }),
        (0b1011, 3, 200)
    );
}

#[test]
fn pulses_are_sorted_by_channel_and_quantity() {
    let pulse = |frequency: u8, intensity: u8| Pulse {
        frequency,
        intensity,
    };
    let rows = Pulses::convert_pulses(&[
        Stereo { a: pulse(100, 1), b: pulse(50, 5) },
        Stereo { a: pulse(40, 2), b: pulse(25, 6) },
        Stereo { a: pulse(20, 3), b: pulse(10, 7) },
        Stereo { a: pulse(10, 4), b: pulse(5, 255) },
    ]);
    assert_eq!(rows, [[10, 25, 50, 100], [1, 2, 3, 4], [20, 40, 100, 120], [5, 6, 7, 100]]);
}

#[test]
fn pairs_become_channels() {
    assert_eq!(Stereo::from((1, 2)), Stereo { a: 1, b: 2 });
    assert_eq!(Stereo::<u8>::default(), Stereo { a: 0, b: 0 });
}
