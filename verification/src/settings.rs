//! The settings of the device.

use crate::stereo::Stereo;
use vstd::prelude::*;

verus! {

/// The device settings of the Coyote 3.
#[derive(Clone, Copy, Debug, PartialEq)]
pub struct DeviceSettings {
    /// The maximum intensity limit.
    ///
    /// <div class="warning">It is very important that a user can set this to appropriate levels.</div>
    pub limit: Stereo<u8>,
    /// The "frequency balance" parameter affects the perceived intensity at different frequencies.
    ///
    /// The official app explains it as following:
    ///
    /// > This parameter controls the relative intensity of waveforms at different frequencies,
    /// > under a fixed channel intensity. Higher values increase the throbbing sensation of
    /// > low-frequency waveforms.
    pub frequency_balance: Stereo<u8>,
    /// The "intensity balance" parameter affects the pulse width of the waveform.
    /// Whether this parameter actually influences the waveform is currently questionable.
    ///
    /// The official app explains it as following:
    ///
    /// > This parameter controls the relative intensity of waveforms at different frequencies,
    /// > under a fixed channel intensity. Higher values increase the perceived stimulation of
    /// > low-frequency waveforms.
    pub intensity_balance: Stereo<u8>,
}

impl Default for DeviceSettings {
    fn default() -> (r: Self)
        ensures
            r == DeviceSettings::initial(),
    {
        DeviceSettings {
            limit: Stereo::from((70, 70)),
            frequency_balance: Stereo::from((160, 160)),
            intensity_balance: Stereo::from((0, 0)),
        }
    }
}

impl DeviceSettings {
    /// The settings that are used where nothing else is asked for.
    pub open spec fn initial() -> DeviceSettings {
        DeviceSettings {
            limit: Stereo { a: 70, b: 70 },
            frequency_balance: Stereo { a: 160, b: 160 },
            intensity_balance: Stereo { a: 0, b: 0 },
        }
    }

    /// The six bytes of the settings, in the order of the fields, channel A before channel B.
    pub open spec fn encoding(self) -> Seq<u8> {
        seq![
            self.limit.a,
            self.limit.b,
            self.frequency_balance.a,
            self.frequency_balance.b,
            self.intensity_balance.a,
            self.intensity_balance.b,
        ]
    }

    /// The settings that six bytes stand for.
    pub open spec fn decoding(bytes: Seq<u8>) -> DeviceSettings
        recommends
            bytes.len() >= 6,
    {
        DeviceSettings {
            limit: Stereo { a: bytes[0], b: bytes[1] },
            frequency_balance: Stereo { a: bytes[2], b: bytes[3] },
            intensity_balance: Stereo { a: bytes[4], b: bytes[5] },
        }
    }
}

/// Settings come back unchanged from their bytes, and bytes from the settings that they stand for.
pub proof fn law_settings_round_trip(settings: DeviceSettings, bytes: Seq<u8>)
    requires
        bytes.len() == 6,
    ensures
        DeviceSettings::decoding(settings.encoding()) == settings,
        DeviceSettings::decoding(bytes).encoding() == bytes,
{
}

/// Where nothing else is asked for, the limit is 70, the frequency balance 160 and the intensity
/// balance 0, on both channels.
pub proof fn law_initial_settings()
    ensures
        DeviceSettings::initial().limit == (Stereo { a: 70u8, b: 70u8 }),
        DeviceSettings::initial().frequency_balance == (Stereo { a: 160u8, b: 160u8 }),
        DeviceSettings::initial().intensity_balance == (Stereo { a: 0u8, b: 0u8 }),
{
}

/// Which byte is which setting, in both directions and whatever follows the six bytes.
pub proof fn law_settings_byte_by_byte(settings: DeviceSettings, rest: Seq<u8>)
    ensures
        ({
            let bytes = seq![
                settings.limit.a,
                settings.limit.b,
                settings.frequency_balance.a,
                settings.frequency_balance.b,
                settings.intensity_balance.a,
                settings.intensity_balance.b,
            ];
            &&& settings.encoding() == bytes
            &&& DeviceSettings::decoding(bytes + rest) == settings
        }),
{
}

} // verus!
