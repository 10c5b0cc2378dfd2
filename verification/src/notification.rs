//! The notifications that the device sends.

use crate::command::Command;
use crate::settings::DeviceSettings;
use crate::stereo::Stereo;
use crate::wire;
use vstd::prelude::*;

verus! {

/// The first byte of a notification about changed intensities.
pub const INTENSITY_CHANGE: u8 = 0xB1;

/// The first byte of a notification about changed device settings.
pub const DEVICE_SETTINGS_CHANGE: u8 = 0xBE;

/// A notification of the device.
#[derive(Clone, Copy, Debug, PartialEq)]
pub enum Notification {
    /// The stimulation intensity has changed.
    IntensityChange {
        /// The serial number that the device gave with the change.
        serial: u8,
        /// The intensity that now holds.
        intensity: Stereo<u8>,
    },
    /// The device settings have changed to these.
    DeviceSettingsChange(DeviceSettings),
}

/// Why bytes could not be read as a notification.
#[derive(Clone, Copy, Debug, PartialEq)]
pub enum ReadError {
    /// The bytes end before the notification does.
    UnexpectedEnd,
    /// No notification starts with this byte.
    UnknownNotification(u8),
}

impl Notification {
    /// The bytes of the notification: a byte that tells the notifications apart, then the data.
    pub open spec fn encoding(self) -> Seq<u8> {
        match self {
            Notification::IntensityChange { serial, intensity } => seq![
                INTENSITY_CHANGE,
                serial,
                intensity.a,
                intensity.b,
            ],
            Notification::DeviceSettingsChange(settings) => seq![DEVICE_SETTINGS_CHANGE]
                + settings.encoding(),
        }
    }

    /// What `bytes` are read as.
    pub open spec fn reading(bytes: Seq<u8>) -> Result<Notification, ReadError> {
        if bytes.len() == 0 {
            Err(ReadError::UnexpectedEnd)
        } else if bytes[0] == INTENSITY_CHANGE {
            if bytes.len() < 4 {
                Err(ReadError::UnexpectedEnd)
            } else {
                Ok(
                    Notification::IntensityChange {
                        serial: bytes[1],
                        intensity: Stereo { a: bytes[2], b: bytes[3] },
                    },
                )
            }
        } else if bytes[0] == DEVICE_SETTINGS_CHANGE {
            if bytes.len() < 7 {
                Err(ReadError::UnexpectedEnd)
            } else {
                Ok(Notification::DeviceSettingsChange(DeviceSettings::decoding(bytes.skip(1))))
            }
        } else {
            Err(ReadError::UnknownNotification(bytes[0]))
        }
    }

    /// Reads a notification from the start of `bytes`.
    ///
    /// Bytes behind the notification are ignored.
    pub fn read(bytes: &[u8]) -> (r: Result<Notification, ReadError>)
        ensures
            r == Notification::reading(bytes@),
    {
        let mut rest: &[u8] = bytes;
        let kind: u8 = read_u8(&mut rest)?;
        if kind == INTENSITY_CHANGE {
            let serial: u8 = read_u8(&mut rest)?;
            let intensity: Stereo<u8> = read_stereo(&mut rest)?;
            Ok(Notification::IntensityChange { serial, intensity })
        } else if kind == DEVICE_SETTINGS_CHANGE {
            let settings: DeviceSettings = read_settings(&mut rest)?;
            Ok(Notification::DeviceSettingsChange(settings))
        } else {
            Err(ReadError::UnknownNotification(kind))
        }
    }
}

/// Takes the first byte off the input.
fn read_u8(input: &mut &[u8]) -> (r: Result<u8, ReadError>)
    ensures
        match r {
            Ok(byte) => old(input)@.len() >= 1 && byte == old(input)@[0] && final(input)@
                == old(input)@.skip(1),
            Err(e) => old(input)@.len() < 1 && e == ReadError::UnexpectedEnd,
        },
{
    match wire::read_byte(input) {
        Ok(byte) => Ok(byte),
        Err(_) => Err(ReadError::UnexpectedEnd),
    }
}

/// Takes the values of both channels off the input.
fn read_stereo(input: &mut &[u8]) -> (r: Result<Stereo<u8>, ReadError>)
    ensures
        match r {
            Ok(v) => old(input)@.len() >= 2 && v == (Stereo {
                a: old(input)@[0],
                b: old(input)@[1],
            }) && final(input)@ == old(input)@.skip(2),
            Err(e) => old(input)@.len() < 2 && e == ReadError::UnexpectedEnd,
        },
{
    let a: u8 = read_u8(input)?;
    let b: u8 = read_u8(input)?;
    Ok(Stereo { a, b })
}

/// Takes device settings off the input.
fn read_settings(input: &mut &[u8]) -> (r: Result<DeviceSettings, ReadError>)
    ensures
        match r {
            Ok(settings) => old(input)@.len() >= 6 && settings == DeviceSettings::decoding(
                old(input)@,
            ),
            Err(e) => old(input)@.len() < 6 && e == ReadError::UnexpectedEnd,
        },
{
    let limit: Stereo<u8> = read_stereo(input)?;
    let frequency_balance: Stereo<u8> = read_stereo(input)?;
    let intensity_balance: Stereo<u8> = read_stereo(input)?;
    Ok(DeviceSettings { limit, frequency_balance, intensity_balance })
}

/// Bytes are read as a notification exactly if they start with the bytes of that notification.
///
/// So a notification that was written is read back, whatever follows it, and nothing else is.
pub proof fn law_reading_finds_what_was_written(bytes: Seq<u8>, notification: Notification)
    ensures
        Notification::reading(bytes) == Ok::<Notification, ReadError>(notification)
            <==> notification.encoding().is_prefix_of(bytes),
{
    let encoding = notification.encoding();
    if encoding.is_prefix_of(bytes) {
        assert(encoding =~= bytes.subrange(0, encoding.len() as int));
        assert forall|i: int| 0 <= i < encoding.len() implies bytes[i] == encoding[i] by {
            assert(bytes[i] == bytes.subrange(0, encoding.len() as int)[i]);
        }
        if let Notification::DeviceSettingsChange(settings) = notification {
            assert forall|i: int| 0 <= i < 6 implies bytes.skip(1)[i] == settings.encoding()[i] by {
                assert(bytes[i + 1] == encoding[i + 1]);
            }
        }
    }
    if Notification::reading(bytes) == Ok::<Notification, ReadError>(notification) {
        assert(encoding =~= bytes.subrange(0, encoding.len() as int));
    }
}

/// Settings that the device echoes, with the byte of its notification in place of that of the
/// command, are read as the settings that were sent.
pub proof fn law_echoed_settings_are_read_back(settings: DeviceSettings)
    ensures
        Notification::reading(
            Command::UpdateSettings(settings).encoding().update(0, DEVICE_SETTINGS_CHANGE),
        ) == Ok::<Notification, ReadError>(Notification::DeviceSettingsChange(settings)),
{
    let echo = Command::UpdateSettings(settings).encoding().update(0, DEVICE_SETTINGS_CHANGE);
    let notification = Notification::DeviceSettingsChange(settings);
    assert(echo =~= notification.encoding());
    assert(echo =~= echo.subrange(0, echo.len() as int));
    law_reading_finds_what_was_written(echo, notification);
}

/// Reading fails for want of bytes exactly where more bytes could make a notification of them.
pub proof fn law_unexpected_end_means_incomplete(bytes: Seq<u8>)
    ensures
        Notification::reading(bytes) == Err::<Notification, ReadError>(ReadError::UnexpectedEnd)
            <==> exists|n: Notification|
            bytes.is_prefix_of(#[trigger] n.encoding()) && bytes.len() < n.encoding().len(),
{
    if Notification::reading(bytes) == Err::<Notification, ReadError>(ReadError::UnexpectedEnd) {
        let padded = bytes + Seq::new(7, |i: int| 0u8);
        let n = if bytes.len() == 0 || bytes[0] == INTENSITY_CHANGE {
            Notification::IntensityChange {
                serial: padded[1],
                intensity: Stereo { a: padded[2], b: padded[3] },
            }
        } else {
            Notification::DeviceSettingsChange(DeviceSettings::decoding(padded.skip(1)))
        };
        assert(bytes =~= n.encoding().subrange(0, bytes.len() as int));
        assert(bytes.is_prefix_of(n.encoding()));
    }
    if exists|n: Notification|
        bytes.is_prefix_of(#[trigger] n.encoding()) && bytes.len() < n.encoding().len() {
        let n = choose|n: Notification|
            bytes.is_prefix_of(#[trigger] n.encoding()) && bytes.len() < n.encoding().len();
        if bytes.len() > 0 {
            assert(bytes[0] == n.encoding().subrange(0, bytes.len() as int)[0]);
        }
    }
}

/// An intensity notification is the byte 0xB1, a serial number and the intensities of channel A and
/// of channel B, whatever follows.
pub proof fn law_intensity_notification_byte_by_byte(serial: u8, a: u8, b: u8, rest: Seq<u8>)
    ensures
        ({
            let notification = Notification::IntensityChange {
                serial,
                intensity: Stereo { a, b },
            };
            let bytes = seq![0xB1u8, serial, a, b];
            &&& notification.encoding() == bytes
            &&& Notification::reading(bytes + rest) == Ok::<Notification, ReadError>(notification)
        }),
{
}

/// A settings notification is the byte 0xBE, then limit, frequency balance and intensity balance,
/// each of channel A and of channel B, whatever follows.
pub proof fn law_settings_notification_byte_by_byte(settings: DeviceSettings, rest: Seq<u8>)
    ensures
        ({
            let notification = Notification::DeviceSettingsChange(settings);
            let bytes = seq![
                0xBEu8,
                settings.limit.a,
                settings.limit.b,
                settings.frequency_balance.a,
                settings.frequency_balance.b,
                settings.intensity_balance.a,
                settings.intensity_balance.b,
            ];
            &&& notification.encoding() == bytes
            &&& Notification::reading(bytes + rest) == Ok::<Notification, ReadError>(notification)
        }),
{
    crate::settings::law_settings_byte_by_byte(settings, rest);
}

/// Bytes that are cut off before their notification ends, and bytes that start with anything but
/// 0xB1 or 0xBE, are not read, and the error says which it was.
pub proof fn law_unreadable_bytes(bytes: Seq<u8>)
    ensures
        bytes.len() == 0 ==> Notification::reading(bytes) == Err::<Notification, ReadError>(
            ReadError::UnexpectedEnd,
        ),
        bytes.len() > 0 && bytes[0] == 0xB1 && bytes.len() < 4 ==> Notification::reading(bytes)
            == Err::<Notification, ReadError>(ReadError::UnexpectedEnd),
        bytes.len() > 0 && bytes[0] == 0xBE && bytes.len() < 7 ==> Notification::reading(bytes)
            == Err::<Notification, ReadError>(ReadError::UnexpectedEnd),
        bytes.len() > 0 && bytes[0] != 0xB1 && bytes[0] != 0xBE ==> Notification::reading(bytes)
            == Err::<Notification, ReadError>(ReadError::UnknownNotification(bytes[0])),
{
}

} // verus!
