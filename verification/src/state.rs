//! The state of the device, as its notifications tell it.

use crate::characteristic::{BATTERY_CHARACTERISTIC_UUID, NOTIFY_CHARACTERISTIC_UUID};
use crate::notification::Notification;
use crate::settings::DeviceSettings;
use crate::stereo::Stereo;
use vstd::prelude::*;

verus! {

/// The current state of the Coyote 3.
#[derive(Clone, Copy, Debug, PartialEq)]
pub struct State {
    /// The current battery charge in percent.
    pub battery: u8,
    /// The current stimulation intensity.
    pub intensity: Stereo<u8>,
    /// The current device settings.
    pub settings: DeviceSettings,
}

impl Default for State {
    fn default() -> (r: Self)
        ensures
            r == (State {
                battery: 0,
                intensity: Stereo { a: 0, b: 0 },
                settings: DeviceSettings::initial(),
            }),
    {
        State { battery: 0, intensity: Stereo::default(), settings: DeviceSettings::default() }
    }
}

impl State {
    /// The state after a report of `value` from the characteristic `uuid`, if the report says
    /// anything about the state.
    pub open spec fn reported(self, uuid: u128, value: Seq<u8>) -> Option<State> {
        if uuid == NOTIFY_CHARACTERISTIC_UUID {
            match Notification::reading(value) {
                Ok(Notification::IntensityChange { serial, intensity }) => Some(
                    State { intensity, ..self },
                ),
                Ok(Notification::DeviceSettingsChange(settings)) => Some(
                    State { settings, ..self },
                ),
                Err(_) => None,
            }
        } else if uuid == BATTERY_CHARACTERISTIC_UUID {
            Some(State { battery: value[0], ..self })
        } else {
            None
        }
    }

    /// Takes in a report of `value` from the characteristic `uuid`.
    ///
    /// Returns the new state, or nothing where the report says nothing about the state: then it
    /// comes from another characteristic, or it is a notification that cannot be read.
    pub fn report(&mut self, uuid: u128, value: &[u8]) -> (r: Option<State>)
        requires
            uuid == BATTERY_CHARACTERISTIC_UUID ==> value@.len() > 0,
        ensures
            r == old(self).reported(uuid, value@),
            *final(self) == (match r {
                Some(state) => state,
                None => *old(self),
            }),
    {
        if uuid == NOTIFY_CHARACTERISTIC_UUID {
            match Notification::read(value) {
                Ok(Notification::IntensityChange { serial: _, intensity }) => {
                    self.intensity = intensity;
                    Some(*self)
                },
                Ok(Notification::DeviceSettingsChange(settings)) => {
                    self.settings = settings;
                    Some(*self)
                },
                Err(_) => None,
            }
        } else if uuid == BATTERY_CHARACTERISTIC_UUID {
            self.battery = value[0];
            Some(*self)
        } else {
            None
        }
    }
}

/// A report of the device: the UUID of a characteristic and the value that it has.
pub struct Report {
    /// The UUID of the characteristic.
    pub uuid: u128,
    /// The value.
    pub value: Seq<u8>,
}

impl Report {
    /// The battery charge that the report tells, if it tells one.
    pub open spec fn battery(self) -> Option<u8> {
        if self.uuid == BATTERY_CHARACTERISTIC_UUID {
            Some(self.value[0])
        } else {
            None
        }
    }

    /// The intensity that the report tells, if it tells one.
    pub open spec fn intensity(self) -> Option<Stereo<u8>> {
        match Notification::reading(self.value) {
            Ok(Notification::IntensityChange { serial, intensity }) if self.uuid
                == NOTIFY_CHARACTERISTIC_UUID => Some(intensity),
            _ => None,
        }
    }

    /// The device settings that the report tells, if it tells them.
    pub open spec fn settings(self) -> Option<DeviceSettings> {
        match Notification::reading(self.value) {
            Ok(Notification::DeviceSettingsChange(settings)) if self.uuid
                == NOTIFY_CHARACTERISTIC_UUID => Some(settings),
            _ => None,
        }
    }
}

/// The state after all of `reports`, where it was `initial` before them.
pub open spec fn state_after(initial: State, reports: Seq<Report>) -> State
    decreases reports.len(),
{
    if reports.len() == 0 {
        initial
    } else {
        let before = state_after(initial, reports.drop_last());
        match before.reported(reports.last().uuid, reports.last().value) {
            Some(state) => state,
            None => before,
        }
    }
}

/// `current` is what the last report that tells anything tells, and `initial` if none does.
pub open spec fn is_latest<T>(
    reports: Seq<Report>,
    told: spec_fn(Report) -> Option<T>,
    initial: T,
    current: T,
) -> bool {
    ||| exists|i: int|
        {
            &&& 0 <= i < reports.len()
            &&& told(#[trigger] reports[i]) == Some(current)
            &&& forall|j: int| i < j < reports.len() ==> told(#[trigger] reports[j]) is None
        }
    ||| current == initial && forall|j: int|
        0 <= j < reports.len() ==> told(#[trigger] reports[j]) is None
}

/// One more report either tells the current value or leaves the latest one current.
proof fn lemma_latest_step<T>(
    reports: Seq<Report>,
    told: spec_fn(Report) -> Option<T>,
    initial: T,
    before: T,
)
    requires
        reports.len() > 0,
        is_latest(reports.drop_last(), told, initial, before),
    ensures
        is_latest(
            reports,
            told,
            initial,
            match told(reports.last()) {
                Some(current) => current,
                None => before,
            },
        ),
{
    let earlier = reports.drop_last();
    let last = reports.len() - 1;
    match told(reports.last()) {
        Some(current) => {
            assert(told(reports[last]) == Some(current));
        },
        None => {
            if exists|i: int|
                {
                    &&& 0 <= i < earlier.len()
                    &&& told(#[trigger] earlier[i]) == Some(before)
                    &&& forall|j: int| i < j < earlier.len() ==> told(#[trigger] earlier[j]) is None
                } {
                let i = choose|i: int|
                    {
                        &&& 0 <= i < earlier.len()
                        &&& told(#[trigger] earlier[i]) == Some(before)
                        &&& forall|j: int|
                            i < j < earlier.len() ==> told(#[trigger] earlier[j]) is None
                    };
                assert(told(reports[i]) == Some(before));
                assert forall|j: int| i < j < reports.len() implies told(
                    #[trigger] reports[j],
                ) is None by {
                    if j < last {
                        assert(told(earlier[j]) is None);
                    }
                }
            } else {
                assert forall|j: int| 0 <= j < reports.len() implies told(
                    #[trigger] reports[j],
                ) is None by {
                    if j < last {
                        assert(told(earlier[j]) is None);
                    }
                }
            }
        },
    }
}

/// After any reports, each part of the state is what the last report about it told, and what it
/// was at first if there was none.
pub proof fn law_state_is_current(initial: State, reports: Seq<Report>)
    ensures
        is_latest(
            reports,
            |r: Report| r.battery(),
            initial.battery,
            state_after(initial, reports).battery,
        ),
        is_latest(
            reports,
            |r: Report| r.intensity(),
            initial.intensity,
            state_after(initial, reports).intensity,
        ),
        is_latest(
            reports,
            |r: Report| r.settings(),
            initial.settings,
            state_after(initial, reports).settings,
        ),
    decreases reports.len(),
{
    if reports.len() > 0 {
        let before = state_after(initial, reports.drop_last());
        law_state_is_current(initial, reports.drop_last());
        lemma_latest_step(reports, |r: Report| r.battery(), initial.battery, before.battery);
        lemma_latest_step(reports, |r: Report| r.intensity(), initial.intensity, before.intensity);
        lemma_latest_step(reports, |r: Report| r.settings(), initial.settings, before.settings);
    }
}

/// A report changes no part of the state but the one that it is about.
pub proof fn law_report_is_about_one_part(state: State, report: Report)
    ensures
        match state.reported(report.uuid, report.value) {
            Some(after) => {
                ||| report.battery() == Some(after.battery) && after == State {
                    battery: after.battery,
                    ..state
                }
                ||| report.intensity() == Some(after.intensity) && after == State {
                    intensity: after.intensity,
                    ..state
                }
                ||| report.settings() == Some(after.settings) && after == State {
                    settings: after.settings,
                    ..state
                }
            },
            None => report.battery() is None && report.intensity() is None
                && report.settings() is None,
        },
{
}

/// From the notify characteristic (150B), the bytes 0xB1, `s`, `a`, `b` give the state with the
/// intensities `a` and `b`, just as they are, whatever follows them.
pub proof fn law_intensity_report(state: State, s: u8, a: u8, b: u8, rest: Seq<u8>)
    ensures
        ({
            let uuid = 0x0000150B_0000_1000_8000_00805f9b34fbu128;
            let value = seq![0xB1u8, s, a, b] + rest;
            let report = Report { uuid, value };
            &&& state.reported(uuid, value) == Some(
                State { battery: state.battery, intensity: Stereo { a, b }, settings: state.settings },
            )
            &&& report.battery() is None
            &&& report.intensity() == Some(Stereo { a, b })
            &&& report.settings() is None
        }),
{
    crate::notification::law_intensity_notification_byte_by_byte(s, a, b, rest);
}

/// From the notify characteristic (150B), the byte 0xBE and six settings bytes give the state with
/// those settings, just as they are, whatever follows them.
pub proof fn law_settings_report(state: State, settings: DeviceSettings, rest: Seq<u8>)
    ensures
        ({
            let uuid = 0x0000150B_0000_1000_8000_00805f9b34fbu128;
            let value = seq![
                0xBEu8,
                settings.limit.a,
                settings.limit.b,
                settings.frequency_balance.a,
                settings.frequency_balance.b,
                settings.intensity_balance.a,
                settings.intensity_balance.b,
            ] + rest;
            let report = Report { uuid, value };
            &&& state.reported(uuid, value) == Some(
                State { battery: state.battery, intensity: state.intensity, settings },
            )
            &&& report.battery() is None
            &&& report.intensity() is None
            &&& report.settings() == Some(settings)
        }),
{
    crate::notification::law_settings_notification_byte_by_byte(settings, rest);
}

/// From the battery characteristic (1500), the first byte is the battery charge, just as it is,
/// whatever follows it.
pub proof fn law_battery_report(state: State, charge: u8, rest: Seq<u8>)
    ensures
        ({
            let uuid = 0x00001500_0000_1000_8000_00805f9b34fbu128;
            let value = seq![charge] + rest;
            let report = Report { uuid, value };
            &&& state.reported(uuid, value) == Some(
                State { battery: charge, intensity: state.intensity, settings: state.settings },
            )
            &&& report.battery() == Some(charge)
            &&& report.intensity() is None
            &&& report.settings() is None
        }),
{
}

/// What comes from any other characteristic, and what cannot be read as a notification, says
/// nothing about the state.
pub proof fn law_report_about_nothing(state: State, uuid: u128, value: Seq<u8>)
    requires
        uuid != 0x00001500_0000_1000_8000_00805f9b34fbu128,
        uuid != 0x0000150B_0000_1000_8000_00805f9b34fbu128 || value.len() == 0 || (value[0] == 0xB1
            && value.len() < 4) || (value[0] == 0xBE && value.len() < 7) || (value[0] != 0xB1
            && value[0] != 0xBE),
    ensures
        state.reported(uuid, value) is None,
        (Report { uuid, value }).battery() is None,
        (Report { uuid, value }).intensity() is None,
        (Report { uuid, value }).settings() is None,
{
    crate::notification::law_unreadable_bytes(value);
}

/// Reports are taken in one after the other: the last one meets the state that the others left.
pub proof fn law_state_after_one_more_report(initial: State, reports: Seq<Report>, report: Report)
    ensures
        state_after(initial, Seq::empty()) == initial,
        state_after(initial, reports.push(report)) == (match state_after(
            initial,
            reports,
        ).reported(report.uuid, report.value) {
            Some(state) => state,
            None => state_after(initial, reports),
        }),
{
    assert(reports.push(report).drop_last() =~= reports);
}

} // verus!
