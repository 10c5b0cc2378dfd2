//! A connected device.

use crate::builder::Coyote3Builder;
use crate::command::Command;
use crate::pulse::Pulses;
use crate::settings::DeviceSettings;
use crate::state::State;
use crate::wire;
use arrayvec::ArrayVec;
use vstd::prelude::*;

verus! {

/// Bytes to be written to a characteristic, without waiting for a response.
#[derive(Debug)]
pub struct WriteRequest {
    /// The place of the characteristic among those of the device.
    pub characteristic: usize,
    /// The bytes.
    pub bytes: ArrayVec<u8, 20>,
}

/// A write request, with its bytes as a sequence.
pub struct WriteRequestView {
    /// The place of the characteristic among those of the device.
    pub characteristic: usize,
    /// The bytes.
    pub bytes: Seq<u8>,
}

impl View for WriteRequest {
    type V = WriteRequestView;

    open spec fn view(&self) -> WriteRequestView {
        WriteRequestView {
            characteristic: self.characteristic,
            bytes: wire::message_bytes(self.bytes),
        }
    }
}

/// The protocol side of a connected Coyote 3: where its commands go and what is known of its
/// state.
#[derive(Clone, Copy, Debug, PartialEq)]
pub struct Coyote3 {
    /// The place of the characteristic that takes commands, among those of the device.
    pub write: usize,
    /// What the device has told of its state.
    pub state: State,
}

impl Coyote3 {
    /// Connect to a Coyote 3.
    pub fn connect() -> (r: Coyote3Builder)
        ensures
            r.adapter is None,
            r.peripheral is None,
            r.settings == DeviceSettings::initial(),
            r.device_name is Some && r.device_name->0@ == crate::builder::DEVICE_NAME@,
    {
        Coyote3Builder::default()
    }

    /// The request that brings a command to the device.
    pub open spec fn request(self, command: Command) -> WriteRequestView {
        WriteRequestView { characteristic: self.write, bytes: command.encoding() }
    }

    /// Get the state of the connected Coyote 3.
    pub fn state(&self) -> (r: State)
        ensures
            r == self.state,
    {
        self.state
    }

    /// Send the next pulses to the Coyote 3.
    ///
    /// This is expected to be called every 100 ms and
    /// provides the signal data for the next four 25 ms pulses.
    pub fn send_pulses(&self, pulses: Pulses) -> (r: WriteRequest)
        ensures
            r@ == self.request(Command::SendPulses(pulses)),
            r.characteristic == self.write,
            wire::message_bytes(r.bytes) == Command::SendPulses(pulses).encoding(),
    {
        self.send_command(Command::SendPulses(pulses))
    }

    /// Update the device settings.
    pub fn update_settings(&self, settings: DeviceSettings) -> (r: WriteRequest)
        ensures
            r@ == self.request(Command::UpdateSettings(settings)),
            r.characteristic == self.write,
            wire::message_bytes(r.bytes) == Command::UpdateSettings(settings).encoding(),
    {
        self.send_command(Command::UpdateSettings(settings))
    }

    /// Bring a command to the device.
    pub fn send_command(&self, command: Command) -> (r: WriteRequest)
        ensures
            r@ == self.request(command),
            r.characteristic == self.write,
            wire::message_bytes(r.bytes) == command.encoding(),
    {
        WriteRequest { characteristic: self.write, bytes: command.to_bytes() }
    }

    /// Take in a report of `value` from the characteristic `uuid`.
    ///
    /// Returns the new state, or nothing where the report says nothing about the state.
    pub fn report(&mut self, uuid: u128, value: &[u8]) -> (r: Option<State>)
        requires
            uuid == crate::characteristic::BATTERY_CHARACTERISTIC_UUID ==> value@.len() > 0,
        ensures
            r == old(self).state.reported(uuid, value@),
            final(self).write == old(self).write,
            final(self).state == (match r {
                Some(state) => state,
                None => old(self).state,
            }),
    {
        self.state.report(uuid, value)
    }
}

/// A request is seen as it is: its place and the bytes that it holds.
pub proof fn law_request_is_seen_as_it_is(request: WriteRequest)
    ensures
        request@.characteristic == request.characteristic,
        request@.bytes == wire::message_bytes(request.bytes),
{
}

/// A command goes to the characteristic that the device keeps for commands, with its own bytes and
/// nothing else.
pub proof fn law_request_holds_the_command(coyote: Coyote3, command: Command)
    ensures
        coyote.request(command).characteristic == coyote.write,
        coyote.request(command).bytes == command.encoding(),
{
}

/// What is written for pulses, byte by byte: the frequency and the amplitude of the `i`-th pulse
/// on channel A, and the same on channel B, behind the intensity changes of channel A and B.
pub proof fn law_pulses_request_byte_by_byte(coyote: Coyote3, pulses: Pulses, i: int)
    requires
        0 <= i < 4,
    ensures
        ({
            let bytes = coyote.request(Command::SendPulses(pulses)).bytes;
            let a = pulses.pulses[i].a;
            let b = pulses.pulses[i].b;
            &&& bytes.len() == 20
            &&& bytes[0] == 0xB0
            &&& bytes[1] == 4 * pulses.intensity.a.mode_bits() + pulses.intensity.b.mode_bits()
            &&& bytes[2] == pulses.intensity.a.amount()
            &&& bytes[3] == pulses.intensity.b.amount()
            &&& bytes[4 + i] == crate::frequency::frequency_byte(a.frequency)
            &&& bytes[8 + i] == (if a.intensity <= 100 { a.intensity } else { 100 })
            &&& bytes[12 + i] == crate::frequency::frequency_byte(b.frequency)
            &&& bytes[16 + i] == (if b.intensity <= 100 { b.intensity } else { 100 })
        }),
{
    crate::command::law_pulses_command_byte_by_byte(pulses, i);
}

/// What is written for settings, byte by byte.
pub proof fn law_settings_request_byte_by_byte(coyote: Coyote3, settings: DeviceSettings)
    ensures
        coyote.request(Command::UpdateSettings(settings)).bytes == seq![
            0xBFu8,
            settings.limit.a,
            settings.limit.b,
            settings.frequency_balance.a,
            settings.frequency_balance.b,
            settings.intensity_balance.a,
            settings.intensity_balance.b,
        ],
{
    crate::command::law_settings_command_byte_by_byte(settings);
}

} // verus!
