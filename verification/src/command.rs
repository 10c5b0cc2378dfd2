//! The commands that are sent to the device.

use crate::frequency;
use crate::pulse;
use crate::pulse::{IntensityChange, Pulse, Pulses};
use crate::settings::DeviceSettings;
use crate::wire;
use arrayvec::ArrayVec;
use vstd::prelude::*;

verus! {

/// The first byte of a command that sends pulses.
pub const SEND_PULSES: u8 = 0xB0;

/// The first byte of a command that updates the device settings.
pub const UPDATE_SETTINGS: u8 = 0xBF;

/// A command to the device.
#[derive(Clone, Copy, Debug)]
pub enum Command {
    /// Play the next four pulses.
    SendPulses(Pulses),
    /// Use these device settings from now on.
    UpdateSettings(DeviceSettings),
}

/// Two pulses are sent with the same bytes.
pub open spec fn sent_alike(x: Pulse, y: Pulse) -> bool {
    &&& frequency::frequency_byte(x.frequency) == frequency::frequency_byte(y.frequency)
    &&& x.amplitude() == y.amplitude()
}

impl Command {
    /// The bytes of the command: a byte that tells the commands apart, then the data.
    pub open spec fn encoding(self) -> Seq<u8> {
        match self {
            Command::SendPulses(pulses) => seq![SEND_PULSES] + pulses.encoding(),
            Command::UpdateSettings(settings) => seq![UPDATE_SETTINGS] + settings.encoding(),
        }
    }

    /// The bytes of the command, as they are written to the device.
    pub fn to_bytes(self) -> (r: ArrayVec<u8, 20>)
        ensures
            wire::message_bytes(r) == self.encoding(),
    {
        let mut message = wire::new_message();
        match self {
            Command::SendPulses(pulses) => {
                let intensity: (u8, u8, u8) = Pulses::convert_intensity(&pulses.intensity);
                let rows: [[u8; 4]; 4] = Pulses::convert_pulses(&pulses.pulses);
                wire::put_byte(&mut message, SEND_PULSES);
                wire::put_byte(&mut message, intensity.0);
                wire::put_channels(&mut message, intensity.1, intensity.2);
                wire::put_row(&mut message, &rows[0]);
                wire::put_row(&mut message, &rows[1]);
                wire::put_row(&mut message, &rows[2]);
                wire::put_row(&mut message, &rows[3]);
            },
            Command::UpdateSettings(settings) => {
                wire::put_byte(&mut message, UPDATE_SETTINGS);
                wire::put_channels(&mut message, settings.limit.a, settings.limit.b);
                wire::put_channels(
                    &mut message,
                    settings.frequency_balance.a,
                    settings.frequency_balance.b,
                );
                wire::put_channels(
                    &mut message,
                    settings.intensity_balance.a,
                    settings.intensity_balance.b,
                );
            },
        }
        assert(wire::message_bytes(message) =~= self.encoding());
        message
    }
}

/// Every command fits into a message: one with pulses takes up all of it, one with settings takes
/// 7 bytes.
pub proof fn law_command_fits(command: Command)
    ensures
        command.encoding().len() == (if command is SendPulses { 20int } else { 7 }),
        command.encoding().len() <= wire::MESSAGE_CAPACITY,
{
}

/// The first byte of a command tells what command it is.
pub proof fn law_first_byte_tells_commands_apart(command: Command)
    ensures
        command is SendPulses <==> command.encoding()[0] == SEND_PULSES,
        command is UpdateSettings <==> command.encoding()[0] == UPDATE_SETTINGS,
{
}

/// The device learns the very settings that were sent.
pub proof fn law_settings_command_is_injective(x: DeviceSettings, y: DeviceSettings)
    requires
        Command::UpdateSettings(x).encoding() == Command::UpdateSettings(y).encoding(),
    ensures
        x == y,
{
    let tag = seq![UPDATE_SETTINGS];
    assert((tag + x.encoding()).skip(1) =~= x.encoding());
    assert((tag + y.encoding()).skip(1) =~= y.encoding());
    crate::settings::law_settings_round_trip(x, x.encoding());
    crate::settings::law_settings_round_trip(y, y.encoding());
}

/// Where each byte of a command with pulses stands.
pub proof fn law_pulses_command_layout(pulses: Pulses, i: int)
    requires
        0 <= i < 4,
    ensures
        ({
            let bytes = Command::SendPulses(pulses).encoding();
            let pulse = pulses.pulses[i];
            &&& bytes.subrange(1, 4) == pulse::intensity_bytes(pulses.intensity)
            &&& bytes[4 + i] == frequency::frequency_byte(pulse.a.frequency)
            &&& bytes[8 + i] == pulse.a.amplitude()
            &&& bytes[12 + i] == frequency::frequency_byte(pulse.b.frequency)
            &&& bytes[16 + i] == pulse.b.amplitude()
        }),
{
    let bytes = Command::SendPulses(pulses).encoding();
    assert(bytes.subrange(1, 4) =~= pulse::intensity_bytes(pulses.intensity));
}

/// Two commands with pulses have the same bytes exactly if they ask for the same intensity changes
/// and, pulse by pulse and on both channels, for frequencies and amplitudes that are sent alike.
pub proof fn law_pulses_command_distinguishes(x: Pulses, y: Pulses)
    ensures
        Command::SendPulses(x).encoding() == Command::SendPulses(y).encoding() <==> {
            &&& x.intensity == y.intensity
            &&& forall|i: int|
                0 <= i < 4 ==> sent_alike((#[trigger] x.pulses[i]).a, y.pulses[i].a)
                    && sent_alike(x.pulses[i].b, y.pulses[i].b)
        },
{
    let cx = Command::SendPulses(x).encoding();
    let cy = Command::SendPulses(y).encoding();
    assert forall|i: int| 0 <= i < 4 && cx == cy implies sent_alike(
        (#[trigger] x.pulses[i]).a,
        y.pulses[i].a,
    ) && sent_alike(x.pulses[i].b, y.pulses[i].b) by {
        law_pulses_command_layout(x, i);
        law_pulses_command_layout(y, i);
    }
    if cx == cy {
        law_pulses_command_layout(x, 0);
        law_pulses_command_layout(y, 0);
        pulse::law_intensity_bytes_are_injective(x.intensity, y.intensity);
    }
    if x.intensity == y.intensity && (forall|i: int|
        0 <= i < 4 ==> sent_alike((#[trigger] x.pulses[i]).a, y.pulses[i].a) && sent_alike(
            x.pulses[i].b,
            y.pulses[i].b,
        )) {
        assert(pulse::frequency_bytes(pulse::channel_a(x.pulses@)) =~= pulse::frequency_bytes(
            pulse::channel_a(y.pulses@),
        ));
        assert(pulse::amplitude_bytes(pulse::channel_a(x.pulses@)) =~= pulse::amplitude_bytes(
            pulse::channel_a(y.pulses@),
        ));
        assert(pulse::frequency_bytes(pulse::channel_b(x.pulses@)) =~= pulse::frequency_bytes(
            pulse::channel_b(y.pulses@),
        ));
        assert(pulse::amplitude_bytes(pulse::channel_b(x.pulses@)) =~= pulse::amplitude_bytes(
            pulse::channel_b(y.pulses@),
        ));
    }
}

/// The seven bytes of a settings command, one by one.
pub proof fn law_settings_command_byte_by_byte(settings: DeviceSettings)
    ensures
        ({
            let bytes = Command::UpdateSettings(settings).encoding();
            &&& bytes.len() == 7
            &&& bytes[0] == 0xBF
            &&& bytes[1] == settings.limit.a
            &&& bytes[2] == settings.limit.b
            &&& bytes[3] == settings.frequency_balance.a
            &&& bytes[4] == settings.frequency_balance.b
            &&& bytes[5] == settings.intensity_balance.a
            &&& bytes[6] == settings.intensity_balance.b
        }),
{
}

/// The twenty bytes of a pulse command: 0xB0; the kinds of change with channel A above channel B;
/// the values of the changes; then for the `i`-th pulse its frequency and its amplitude, limited to
/// 100, on channel A and the same on channel B.
pub proof fn law_pulses_command_byte_by_byte(pulses: Pulses, i: int)
    requires
        0 <= i < 4,
    ensures
        ({
            let bytes = Command::SendPulses(pulses).encoding();
            let a = pulses.pulses[i].a;
            let b = pulses.pulses[i].b;
            &&& bytes.len() == 20
            &&& bytes[0] == 0xB0
            &&& bytes[1] / 4 == (match pulses.intensity.a {
                IntensityChange::DoNotChange => 0u8,
                IntensityChange::RelativeIncrease(_) => 1u8,
                IntensityChange::RelativeDecrease(_) => 2u8,
                IntensityChange::AbsoluteChange(_) => 3u8,
            })
            &&& bytes[1] % 4 == (match pulses.intensity.b {
                IntensityChange::DoNotChange => 0u8,
                IntensityChange::RelativeIncrease(_) => 1u8,
                IntensityChange::RelativeDecrease(_) => 2u8,
                IntensityChange::AbsoluteChange(_) => 3u8,
            })
            &&& bytes[2] == (match pulses.intensity.a {
                IntensityChange::DoNotChange => 0u8,
                IntensityChange::RelativeIncrease(x) => x,
                IntensityChange::RelativeDecrease(x) => x,
                IntensityChange::AbsoluteChange(x) => x,
            })
            &&& bytes[3] == (match pulses.intensity.b {
                IntensityChange::DoNotChange => 0u8,
                IntensityChange::RelativeIncrease(x) => x,
                IntensityChange::RelativeDecrease(x) => x,
                IntensityChange::AbsoluteChange(x) => x,
            })
            &&& bytes[4 + i] == frequency::frequency_byte(a.frequency)
            &&& bytes[8 + i] == (if a.intensity <= 100 { a.intensity } else { 100 })
            &&& bytes[12 + i] == frequency::frequency_byte(b.frequency)
            &&& bytes[16 + i] == (if b.intensity <= 100 { b.intensity } else { 100 })
        }),
{
    pulse::law_intensity_bytes_by_channel(pulses.intensity);
    pulse::law_rows_by_channel(pulses.pulses@, i);
    law_pulses_command_layout(pulses, i);
    let bytes = Command::SendPulses(pulses).encoding();
    assert(bytes[1] == bytes.subrange(1, 4)[0]);
    assert(bytes[2] == bytes.subrange(1, 4)[1]);
    assert(bytes[3] == bytes.subrange(1, 4)[2]);
}

} // verus!
