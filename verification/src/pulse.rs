//! Waveform pulses and intensity changes, as they go to the device.

use crate::frequency;
use crate::stereo::Stereo;
use vstd::prelude::*;

verus! {

/// A single frequency-intensity set representing 25 ms of a waveform for a single channel.
#[derive(Clone, Copy, Debug, PartialEq)]
pub struct Pulse {
    /// The frequency in Hz in the range of 1 Hz to 100 Hz (official maximum) / 200 Hz (actual
    /// maximum).
    pub frequency: u8,
    /// The pulse amplitude as an abstract value in the range of 0 to 100.
    pub intensity: u8,
}

impl Pulse {
    /// The amplitude, limited to the range of 0 to 100.
    pub open spec fn amplitude(self) -> u8 {
        if self.intensity <= 100 {
            self.intensity
        } else {
            100
        }
    }

    /// The frequency as the device expects it.
    pub fn compressed_frequency_value(&self) -> (r: u8)
        ensures
            r == frequency::frequency_byte(self.frequency),
            self.frequency > 0 ==> r == frequency::compressed_period(
                frequency::period(self.frequency),
            ).floor(),
    {
        if self.frequency == 0 {
            return 0;
        }
        proof {
            frequency::lemma_whole_compressed_period_range(1000, self.frequency as int);
            frequency::law_frequency_byte_is_compressed_period(self.frequency);
        }
        let f: u32 = self.frequency as u32;
        // The period is 1000 / f milliseconds; both sides of each test are multiplied by f.
        let compressed: u32 = if 1000 < 5 * f {
            5
        } else if 1000 < 100 * f {
            1000 / f
        } else if 1000 < 600 * f {
            (1000 - 100 * f) / (5 * f) + 100
        } else if 1000 < 1000 * f {
            (1000 - 600 * f) / (10 * f) + 200
        } else {
            240
        };
        compressed as u8
    }

    /// The amplitude, limited to the range of 0 to 100.
    pub fn clamped_intensity(&self) -> (r: u8)
        ensures
            r == self.amplitude(),
    {
        if self.intensity <= 100 {
            self.intensity
        } else {
            100
        }
    }
}

/// Used to describe if and how the stimulation intensity should be changed.
///
/// Note that relative changes should be preferred in many cases over absolute changes since
/// absolute changes will overwrite any intensity changes that were made using the hardware
/// "shoulder" switches of the coyote, basically rendering them useless.
#[derive(Clone, Copy, Debug, PartialEq)]
pub enum IntensityChange {
    /// Do not change the intensity.
    DoNotChange,
    /// Increase the intensity by `x`.
    RelativeIncrease(u8),
    /// Decrease the intensity by `x`.
    RelativeDecrease(u8),
    /// Set the intensity to `x`.
    AbsoluteChange(u8),
}

impl IntensityChange {
    /// The two bits that tell the device what kind of change this is.
    pub open spec fn mode_bits(self) -> u8 {
        match self {
            IntensityChange::DoNotChange => 0,
            IntensityChange::RelativeIncrease(_) => 1,
            IntensityChange::RelativeDecrease(_) => 2,
            IntensityChange::AbsoluteChange(_) => 3,
        }
    }

    /// The value that goes with the change.
    pub open spec fn amount(self) -> u8 {
        match self {
            IntensityChange::DoNotChange => 0,
            IntensityChange::RelativeIncrease(x) => x,
            IntensityChange::RelativeDecrease(x) => x,
            IntensityChange::AbsoluteChange(x) => x,
        }
    }

    /// The two bits that tell the device what kind of change this is.
    pub fn mode(&self) -> (r: u8)
        ensures
            r == self.mode_bits(),
    {
        match self {
            IntensityChange::DoNotChange => 0b00,
            IntensityChange::RelativeIncrease(_) => 0b01,
            IntensityChange::RelativeDecrease(_) => 0b10,
            IntensityChange::AbsoluteChange(_) => 0b11,
        }
    }

    /// The value that goes with the change, 0 for no change.
    pub fn value(&self) -> (r: u8)
        ensures
            r == self.amount(),
    {
        match self {
            IntensityChange::DoNotChange => 0,
            IntensityChange::RelativeIncrease(v)
            | IntensityChange::RelativeDecrease(v)
            | IntensityChange::AbsoluteChange(v) => *v,
        }
    }
}

/// The three bytes that describe the intensity changes of both channels: the mode bits of
/// channel A above those of channel B, then the two values.
pub open spec fn intensity_bytes(intensity: Stereo<IntensityChange>) -> Seq<u8> {
    seq![
        (4 * intensity.a.mode_bits() + intensity.b.mode_bits()) as u8,
        intensity.a.amount(),
        intensity.b.amount(),
    ]
}

/// The frequency bytes of a channel's pulses.
pub open spec fn frequency_bytes(channel: Seq<Pulse>) -> Seq<u8> {
    channel.map_values(|p: Pulse| frequency::frequency_byte(p.frequency))
}

/// The amplitude bytes of a channel's pulses.
pub open spec fn amplitude_bytes(channel: Seq<Pulse>) -> Seq<u8> {
    channel.map_values(|p: Pulse| p.amplitude())
}

/// The pulses of channel A.
pub open spec fn channel_a(pulses: Seq<Stereo<Pulse>>) -> Seq<Pulse> {
    pulses.map_values(|p: Stereo<Pulse>| p.a)
}

/// The pulses of channel B.
pub open spec fn channel_b(pulses: Seq<Stereo<Pulse>>) -> Seq<Pulse> {
    pulses.map_values(|p: Stereo<Pulse>| p.b)
}

/// The pulse data that is expected to be sent every 100 ms to the coyote.
#[derive(Clone, Copy, Debug)]
pub struct Pulses {
    /// This field is used to change the stimulation intensity per channel.
    ///
    /// Note that relative changes should be preferred in many cases over absolute changes since
    /// absolute changes will overwrite any intensity changes that were made using the hardware
    /// "shoulder" switches of the coyote, basically rendering them useless.
    pub intensity: Stereo<IntensityChange>,
    /// The actual waveform data.
    ///
    /// This is an array of 4 pulses of 25 ms length each, where each pulse contains the frequency
    /// and relative amplitude for each channel.
    pub pulses: [Stereo<Pulse>; 4],
}

impl Pulses {
    /// The 19 bytes of the pulse data: the intensity changes, then for each channel its
    /// frequencies and its amplitudes.
    pub open spec fn encoding(self) -> Seq<u8> {
        intensity_bytes(self.intensity)
            + frequency_bytes(channel_a(self.pulses@))
            + amplitude_bytes(channel_a(self.pulses@))
            + frequency_bytes(channel_b(self.pulses@))
            + amplitude_bytes(channel_b(self.pulses@))
    }

    /// Sorts the waveform data by channel and quantity, in the form that the device expects.
    pub fn convert_pulses(pulses: &[Stereo<Pulse>; 4]) -> (r: [[u8; 4]; 4])
        ensures
            r[0]@ == frequency_bytes(channel_a(pulses@)),
            r[1]@ == amplitude_bytes(channel_a(pulses@)),
            r[2]@ == frequency_bytes(channel_b(pulses@)),
            r[3]@ == amplitude_bytes(channel_b(pulses@)),
            forall|i: int|
                #![trigger pulses[i]]
                0 <= i < 4 ==> {
                    &&& r[0][i] == frequency::frequency_byte(pulses[i].a.frequency)
                    &&& r[1][i] == pulses[i].a.amplitude()
                    &&& r[2][i] == frequency::frequency_byte(pulses[i].b.frequency)
                    &&& r[3][i] == pulses[i].b.amplitude()
                },
    {
        [
            [
                pulses[0].a.compressed_frequency_value(),
                pulses[1].a.compressed_frequency_value(),
                pulses[2].a.compressed_frequency_value(),
                pulses[3].a.compressed_frequency_value(),
            ],
            [
                pulses[0].a.clamped_intensity(),
                pulses[1].a.clamped_intensity(),
                pulses[2].a.clamped_intensity(),
                pulses[3].a.clamped_intensity(),
            ],
            [
                pulses[0].b.compressed_frequency_value(),
                pulses[1].b.compressed_frequency_value(),
                pulses[2].b.compressed_frequency_value(),
                pulses[3].b.compressed_frequency_value(),
            ],
            [
                pulses[0].b.clamped_intensity(),
                pulses[1].b.clamped_intensity(),
                pulses[2].b.clamped_intensity(),
                pulses[3].b.clamped_intensity(),
            ],
        ]
    }

    /// The intensity changes of both channels as three bytes.
    pub fn convert_intensity(intensity: &Stereo<IntensityChange>) -> (r: (u8, u8, u8))
        ensures
            seq![r.0, r.1, r.2] == intensity_bytes(*intensity),
            r.0 == 4 * intensity.a.mode_bits() + intensity.b.mode_bits(),
            r.1 == intensity.a.amount(),
            r.2 == intensity.b.amount(),
    {
        let a: u8 = intensity.a.mode();
        let b: u8 = intensity.b.mode();
        assert((a << 2) | b == 4 * a + b) by (bit_vector)
            requires
                a <= 3,
                b <= 3,
        ;
        ((a << 2) | b, intensity.a.value(), intensity.b.value())
    }
}

/// An intensity change is determined by its mode bits and its value.
pub proof fn law_intensity_change_is_determined(x: IntensityChange, y: IntensityChange)
    requires
        x.mode_bits() == y.mode_bits(),
        x.amount() == y.amount(),
    ensures
        x == y,
{
}

/// The three intensity bytes determine the intensity changes of both channels.
pub proof fn law_intensity_bytes_are_injective(
    x: Stereo<IntensityChange>,
    y: Stereo<IntensityChange>,
)
    requires
        intensity_bytes(x) == intensity_bytes(y),
    ensures
        x == y,
{
    assert(intensity_bytes(x)[0] == intensity_bytes(y)[0]);
    assert(intensity_bytes(x)[1] == intensity_bytes(y)[1]);
    assert(intensity_bytes(x)[2] == intensity_bytes(y)[2]);
    law_intensity_change_is_determined(x.a, y.a);
    law_intensity_change_is_determined(x.b, y.b);
}

/// The amplitude that is sent never exceeds 100: an amplitude up to 100 is sent as it is, a larger
/// one as 100.
pub proof fn law_amplitude_range(p: Pulse)
    ensures
        p.amplitude() <= 100,
        p.intensity <= 100 ==> p.amplitude() == p.intensity,
        p.intensity > 100 ==> p.amplitude() == 100,
{
}

/// Each kind of change has its own mode bits, and goes with the value that it was made with.
pub proof fn law_intensity_change_codes(x: u8)
    ensures
        IntensityChange::DoNotChange.mode_bits() == 0b00,
        IntensityChange::RelativeIncrease(x).mode_bits() == 0b01,
        IntensityChange::RelativeDecrease(x).mode_bits() == 0b10,
        IntensityChange::AbsoluteChange(x).mode_bits() == 0b11,
        IntensityChange::DoNotChange.amount() == 0,
        IntensityChange::RelativeIncrease(x).amount() == x,
        IntensityChange::RelativeDecrease(x).amount() == x,
        IntensityChange::AbsoluteChange(x).amount() == x,
{
}

/// Of the three intensity bytes, the first holds the kind of change of channel A in bits 3 and 2
/// and that of channel B in bits 1 and 0; the second is the value for channel A and the third the
/// value for channel B.
pub proof fn law_intensity_bytes_by_channel(intensity: Stereo<IntensityChange>)
    ensures
        intensity_bytes(intensity).len() == 3,
        intensity_bytes(intensity)[0] / 4 == (match intensity.a {
            IntensityChange::DoNotChange => 0u8,
            IntensityChange::RelativeIncrease(_) => 1u8,
            IntensityChange::RelativeDecrease(_) => 2u8,
            IntensityChange::AbsoluteChange(_) => 3u8,
        }),
        intensity_bytes(intensity)[0] % 4 == (match intensity.b {
            IntensityChange::DoNotChange => 0u8,
            IntensityChange::RelativeIncrease(_) => 1u8,
            IntensityChange::RelativeDecrease(_) => 2u8,
            IntensityChange::AbsoluteChange(_) => 3u8,
        }),
        intensity_bytes(intensity)[1] == (match intensity.a {
            IntensityChange::DoNotChange => 0u8,
            IntensityChange::RelativeIncrease(x) => x,
            IntensityChange::RelativeDecrease(x) => x,
            IntensityChange::AbsoluteChange(x) => x,
        }),
        intensity_bytes(intensity)[2] == (match intensity.b {
            IntensityChange::DoNotChange => 0u8,
            IntensityChange::RelativeIncrease(x) => x,
            IntensityChange::RelativeDecrease(x) => x,
            IntensityChange::AbsoluteChange(x) => x,
        }),
{
}

/// The rows of a channel hold, pulse by pulse, what that channel is to play.
pub proof fn law_rows_by_channel(pulses: Seq<Stereo<Pulse>>, i: int)
    requires
        0 <= i < pulses.len(),
    ensures
        frequency_bytes(channel_a(pulses)).len() == pulses.len(),
        amplitude_bytes(channel_a(pulses)).len() == pulses.len(),
        frequency_bytes(channel_b(pulses)).len() == pulses.len(),
        amplitude_bytes(channel_b(pulses)).len() == pulses.len(),
        frequency_bytes(channel_a(pulses))[i] == frequency::frequency_byte(pulses[i].a.frequency),
        amplitude_bytes(channel_a(pulses))[i] == (if pulses[i].a.intensity <= 100 {
            pulses[i].a.intensity
        } else {
            100
        }),
        frequency_bytes(channel_b(pulses))[i] == frequency::frequency_byte(pulses[i].b.frequency),
        amplitude_bytes(channel_b(pulses))[i] == (if pulses[i].b.intensity <= 100 {
            pulses[i].b.intensity
        } else {
            100
        }),
{
}

} // verus!
