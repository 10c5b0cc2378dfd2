//! The steps of connecting to a device.
//!
//! [`Connecting`] decides what to do next; whoever talks to the Bluetooth stack does it and tells
//! what came of it.

use crate::characteristic::{
    find_last_place, find_next_notifying, BATTERY_CHARACTERISTIC_UUID, WRITE_CHARACTERISTIC_UUID,
};
use crate::command::Command;
use crate::device::{Coyote3, WriteRequest, WriteRequestView};
use crate::error::{Error, ErrorView};
use crate::settings::DeviceSettings;
use crate::state::State;
use crate::stereo::Stereo;
use btleplug::Error as BtleplugError;
use vstd::pervasive::unreached;
use vstd::prelude::*;

verus! {

/// Something to be done for the connection.
#[derive(Debug)]
pub enum ConnectAction {
    /// Take the first Bluetooth adapter of this machine.
    FindAdapter,
    /// Start to scan for devices.
    StartScan,
    /// Wait for the next event of the scan.
    AwaitEvent,
    /// Stop to scan; the device that was discovered last is the one to connect to.
    StopScan,
    /// Connect to the device.
    Connect,
    /// Let the device tell its services.
    DiscoverServices,
    /// List the characteristics of the device.
    ListCharacteristics,
    /// Subscribe to the characteristic at this place in the list.
    Subscribe(usize),
    /// Read the value of the characteristic at this place in the list.
    ReadValue(usize),
    /// Open the stream of notifications.
    OpenNotifications,
    /// Write to a characteristic.
    Write(WriteRequest),
    /// Nothing: this is the connected device.
    Finish(Coyote3),
    /// Nothing: the connection failed.
    Fail(Error),
}

/// What came of an action.
#[derive(Debug)]
pub enum ConnectEvent {
    /// The action was done.
    Done,
    /// A device was discovered that has this name, if it has one.
    Discovered(Option<String>),
    /// The scan told something other than a discovered device.
    OtherScanEvent,
    /// The scan told that nothing more will come.
    ScanEnded,
    /// The characteristics of the device have these UUIDs.
    Characteristics(Vec<u128>),
    /// The characteristic has this value.
    Value(Vec<u8>),
    /// The action failed.
    Failed(BtleplugError),
}

/// An action over mathematical values.
pub enum ActionView {
    /// Take the first Bluetooth adapter of this machine.
    FindAdapter,
    /// Start to scan for devices.
    StartScan,
    /// Wait for the next event of the scan.
    AwaitEvent,
    /// Stop to scan.
    StopScan,
    /// Connect to the device.
    Connect,
    /// Let the device tell its services.
    DiscoverServices,
    /// List the characteristics of the device.
    ListCharacteristics,
    /// Subscribe to a characteristic.
    Subscribe(usize),
    /// Read the value of a characteristic.
    ReadValue(usize),
    /// Open the stream of notifications.
    OpenNotifications,
    /// Write to a characteristic.
    Write(WriteRequestView),
    /// Nothing: this is the connected device.
    Finish(Coyote3),
    /// Nothing: the connection failed.
    Fail(ErrorView),
}

/// An event over mathematical values.
pub enum EventView {
    /// The action was done.
    Done,
    /// A device was discovered that has this name, if it has one.
    Discovered(Option<Seq<char>>),
    /// The scan told something other than a discovered device.
    OtherScanEvent,
    /// The scan told that nothing more will come.
    ScanEnded,
    /// The characteristics of the device have these UUIDs.
    Characteristics(Seq<u128>),
    /// The characteristic has this value.
    Value(Seq<u8>),
    /// The action failed.
    Failed(BtleplugError),
}

impl View for ConnectAction {
    type V = ActionView;

    open spec fn view(&self) -> ActionView {
        match *self {
            ConnectAction::FindAdapter => ActionView::FindAdapter,
            ConnectAction::StartScan => ActionView::StartScan,
            ConnectAction::AwaitEvent => ActionView::AwaitEvent,
            ConnectAction::StopScan => ActionView::StopScan,
            ConnectAction::Connect => ActionView::Connect,
            ConnectAction::DiscoverServices => ActionView::DiscoverServices,
            ConnectAction::ListCharacteristics => ActionView::ListCharacteristics,
            ConnectAction::Subscribe(i) => ActionView::Subscribe(i),
            ConnectAction::ReadValue(i) => ActionView::ReadValue(i),
            ConnectAction::OpenNotifications => ActionView::OpenNotifications,
            ConnectAction::Write(request) => ActionView::Write(request@),
            ConnectAction::Finish(coyote) => ActionView::Finish(coyote),
            ConnectAction::Fail(e) => ActionView::Fail(e@),
        }
    }
}

impl View for ConnectEvent {
    type V = EventView;

    open spec fn view(&self) -> EventView {
        match *self {
            ConnectEvent::Done => EventView::Done,
            ConnectEvent::Discovered(Some(name)) => EventView::Discovered(Some(name@)),
            ConnectEvent::Discovered(None) => EventView::Discovered(None),
            ConnectEvent::OtherScanEvent => EventView::OtherScanEvent,
            ConnectEvent::ScanEnded => EventView::ScanEnded,
            ConnectEvent::Characteristics(uuids) => EventView::Characteristics(uuids@),
            ConnectEvent::Value(value) => EventView::Value(value@),
            ConnectEvent::Failed(e) => EventView::Failed(e),
        }
    }
}

/// How far the connection has come: what is being done.
#[derive(Clone, Copy, Debug)]
pub enum Phase {
    /// An adapter is looked for.
    FindingAdapter,
    /// The scan is started.
    StartingScan,
    /// Devices are looked for.
    Scanning,
    /// The scan is stopped.
    StoppingScan,
    /// The device is connected to.
    Linking,
    /// The services of the device are discovered.
    DiscoveringServices,
    /// The characteristics of the device are listed.
    ListingCharacteristics,
    /// The characteristic at this place is subscribed to.
    Subscribing(usize),
    /// The battery charge is read; the characteristic that takes commands is at this place.
    ReadingBattery(usize),
    /// The stream of notifications is opened for this device.
    OpeningNotifications(Coyote3),
    /// The settings are written to this device.
    WritingSettings(Coyote3),
    /// Nothing is left to be done.
    Over,
}

/// A connection that is being made.
#[derive(Debug)]
pub struct Connecting {
    target: String,
    settings: DeviceSettings,
    peripheral_given: bool,
    characteristics: Vec<u128>,
    phase: Phase,
}

/// A connection that is being made, over mathematical values.
#[verifier::ext_equal]
pub struct ConnectingView {
    /// The name of the device to scan for.
    pub target: Seq<char>,
    /// The settings that the device is to have.
    pub settings: DeviceSettings,
    /// Whether a specific device is asked for, so that no scan is needed.
    pub peripheral_given: bool,
    /// The UUIDs of the device's characteristics, once they are listed.
    pub characteristics: Seq<u128>,
    /// How far the connection has come.
    pub phase: Phase,
}

impl View for Connecting {
    type V = ConnectingView;

    closed spec fn view(&self) -> ConnectingView {
        ConnectingView {
            target: self.target@,
            settings: self.settings,
            peripheral_given: self.peripheral_given,
            characteristics: self.characteristics@,
            phase: self.phase,
        }
    }
}

/// How a connection begins: with the adapter, unless one is given.
pub open spec fn beginning(
    target: Seq<char>,
    settings: DeviceSettings,
    adapter_given: bool,
    peripheral_given: bool,
) -> (ConnectingView, ActionView) {
    let connecting = ConnectingView {
        target,
        settings,
        peripheral_given,
        characteristics: Seq::empty(),
        phase: Phase::FindingAdapter,
    };
    if adapter_given {
        connecting.with_adapter()
    } else {
        (connecting, ActionView::FindAdapter)
    }
}

impl ConnectingView {
    /// The connection in another phase.
    pub open spec fn at(self, phase: Phase) -> ConnectingView {
        ConnectingView { phase, ..self }
    }

    /// With an adapter at hand: scan for the device, unless one is given.
    pub open spec fn with_adapter(self) -> (ConnectingView, ActionView) {
        if self.peripheral_given {
            (self.at(Phase::Linking), ActionView::Connect)
        } else {
            (self.at(Phase::StartingScan), ActionView::StartScan)
        }
    }

    /// With every characteristic before place `from` seen to: subscribe to the next one that gives
    /// notifications. Where none is left, go on with the battery charge, if both the
    /// characteristic that holds it and the one that takes commands are there. Fail with the
    /// missing one otherwise, with the one that takes commands where both are missing.
    pub open spec fn seen_up_to(self, from: int) -> (ConnectingView, ActionView) {
        let uuids = self.characteristics;
        match crate::characteristic::next_notifying(uuids, from) {
            Some(i) => (self.at(Phase::Subscribing(i)), ActionView::Subscribe(i)),
            None => match (
                crate::characteristic::last_place(uuids, BATTERY_CHARACTERISTIC_UUID),
                crate::characteristic::last_place(uuids, WRITE_CHARACTERISTIC_UUID),
            ) {
                (Some(battery), Some(write)) => (
                    self.at(Phase::ReadingBattery(write)),
                    ActionView::ReadValue(battery),
                ),
                (None, Some(_)) => self.failed(
                    ErrorView::MissingCharacteristic(BATTERY_CHARACTERISTIC_UUID),
                ),
                (_, None) => self.failed(
                    ErrorView::MissingCharacteristic(WRITE_CHARACTERISTIC_UUID),
                ),
            },
        }
    }

    /// The connection has failed.
    pub open spec fn failed(self, e: ErrorView) -> (ConnectingView, ActionView) {
        (self.at(Phase::Over), ActionView::Fail(e))
    }

    /// The event can come of what is being done.
    pub open spec fn expects(self, event: EventView) -> bool {
        match self.phase {
            Phase::Scanning => event is Discovered || event is OtherScanEvent || event is ScanEnded
                || event is Failed,
            Phase::ListingCharacteristics => event is Characteristics,
            Phase::ReadingBattery(_) => event is Failed || (event matches EventView::Value(value)
                && value.len() > 0),
            Phase::Over => false,
            _ => event is Done || event is Failed,
        }
    }

    /// What an event leads to: the connection after it, and the next action.
    pub open spec fn next(self, event: EventView) -> (ConnectingView, ActionView) {
        match event {
            EventView::Failed(e) => self.failed(ErrorView::Btleplug(e)),
            _ => match self.phase {
                Phase::FindingAdapter => self.with_adapter(),
                Phase::StartingScan => (self.at(Phase::Scanning), ActionView::AwaitEvent),
                Phase::Scanning => if event == EventView::Discovered(Some(self.target)) {
                    (self.at(Phase::StoppingScan), ActionView::StopScan)
                } else if event is ScanEnded {
                    self.failed(ErrorView::DeviceNotFound(self.target))
                } else {
                    (self, ActionView::AwaitEvent)
                },
                Phase::StoppingScan => (self.at(Phase::Linking), ActionView::Connect),
                Phase::Linking => (
                    self.at(Phase::DiscoveringServices),
                    ActionView::DiscoverServices,
                ),
                Phase::DiscoveringServices => (
                    self.at(Phase::ListingCharacteristics),
                    ActionView::ListCharacteristics,
                ),
                Phase::ListingCharacteristics => ConnectingView {
                    characteristics: event->Characteristics_0,
                    ..self
                }.seen_up_to(0),
                Phase::Subscribing(i) => self.seen_up_to(i + 1),
                Phase::ReadingBattery(write) => {
                    let state = State {
                        battery: event->Value_0[0],
                        intensity: Stereo { a: 0, b: 0 },
                        settings: self.settings,
                    };
                    (
                        self.at(Phase::OpeningNotifications(Coyote3 { write, state })),
                        ActionView::OpenNotifications,
                    )
                },
                Phase::OpeningNotifications(coyote) => (
                    self.at(Phase::WritingSettings(coyote)),
                    ActionView::Write(coyote.request(Command::UpdateSettings(self.settings))),
                ),
                Phase::WritingSettings(coyote) => (
                    self.at(Phase::Over),
                    ActionView::Finish(coyote),
                ),
                Phase::Over => (self, arbitrary()),
            },
        }
    }
}

impl Connecting {
    /// A characteristic that is subscribed to is one of those listed.
    #[verifier::type_invariant]
    spec fn well_formed(self) -> bool {
        self.phase matches Phase::Subscribing(i) ==> i < self.characteristics.len()
    }

    /// Begin to connect to the device of the name `target`, which is to have `settings`.
    ///
    /// No adapter is looked for where one is given, and no device where one is given.
    pub fn begin(
        target: String,
        settings: DeviceSettings,
        adapter_given: bool,
        peripheral_given: bool,
    ) -> (r: (Connecting, ConnectAction))
        ensures
            (r.0@, r.1@) == beginning(target@, settings, adapter_given, peripheral_given),
    {
        let mut connecting = Connecting {
            target,
            settings,
            peripheral_given,
            characteristics: Vec::new(),
            phase: Phase::FindingAdapter,
        };
        let action: ConnectAction = if adapter_given {
            connecting.use_adapter()
        } else {
            ConnectAction::FindAdapter
        };
        (connecting, action)
    }

    /// Take in what came of the last action, and tell the next one.
    pub fn step(&mut self, event: ConnectEvent) -> (r: ConnectAction)
        requires
            old(self)@.expects(event@),
        ensures
            (final(self)@, r@) == old(self)@.next(event@),
    {
        if let ConnectEvent::Failed(e) = event {
            self.phase = Phase::Over;
            return ConnectAction::Fail(Error::from(e));
        }
        match self.phase {
            Phase::FindingAdapter => self.use_adapter(),
            Phase::StartingScan => {
                self.phase = Phase::Scanning;
                ConnectAction::AwaitEvent
            },
            Phase::Scanning => match event {
                ConnectEvent::Discovered(Some(name)) if name == self.target => {
                    self.phase = Phase::StoppingScan;
                    ConnectAction::StopScan
                },
                ConnectEvent::ScanEnded => {
                    self.phase = Phase::Over;
                    ConnectAction::Fail(Error::DeviceNotFound(self.target.clone()))
                },
                _ => ConnectAction::AwaitEvent,
            },
            Phase::StoppingScan => {
                self.phase = Phase::Linking;
                ConnectAction::Connect
            },
            Phase::Linking => {
                self.phase = Phase::DiscoveringServices;
                ConnectAction::DiscoverServices
            },
            Phase::DiscoveringServices => {
                self.phase = Phase::ListingCharacteristics;
                ConnectAction::ListCharacteristics
            },
            Phase::ListingCharacteristics => {
                self.characteristics = match event {
                    ConnectEvent::Characteristics(uuids) => uuids,
                    _ => unreached(),
                };
                self.subscribe_from(0)
            },
            Phase::Subscribing(i) => {
                proof {
                    use_type_invariant(&*self);
                }
                self.subscribe_from(i + 1)
            },
            Phase::ReadingBattery(write) => {
                let battery: u8 = match event {
                    ConnectEvent::Value(value) => value[0],
                    _ => unreached(),
                };
                let state = State {
                    battery,
                    intensity: Stereo { a: 0, b: 0 },
                    settings: self.settings,
                };
                self.phase = Phase::OpeningNotifications(Coyote3 { write, state });
                ConnectAction::OpenNotifications
            },
            Phase::OpeningNotifications(coyote) => {
                self.phase = Phase::WritingSettings(coyote);
                ConnectAction::Write(coyote.update_settings(self.settings))
            },
            Phase::WritingSettings(coyote) => {
                self.phase = Phase::Over;
                ConnectAction::Finish(coyote)
            },
            Phase::Over => unreached(),
        }
    }

    /// Scan for the device, unless one is given.
    fn use_adapter(&mut self) -> (r: ConnectAction)
        ensures
            (final(self)@, r@) == old(self)@.with_adapter(),
    {
        if self.peripheral_given {
            self.phase = Phase::Linking;
            ConnectAction::Connect
        } else {
            self.phase = Phase::StartingScan;
            ConnectAction::StartScan
        }
    }

    /// Subscribe to the next characteristic at or after place `from` that gives notifications, and
    /// go on with the battery charge where none is left.
    fn subscribe_from(&mut self, from: usize) -> (r: ConnectAction)
        ensures
            (final(self)@, r@) == old(self)@.seen_up_to(from as int),
    {
        if let Some(i) = find_next_notifying(&self.characteristics, from) {
            self.phase = Phase::Subscribing(i);
            return ConnectAction::Subscribe(i);
        }
        let battery: Option<usize> = find_last_place(
            &self.characteristics,
            BATTERY_CHARACTERISTIC_UUID,
        );
        let write: Option<usize> = find_last_place(
            &self.characteristics,
            WRITE_CHARACTERISTIC_UUID,
        );
        match (battery, write) {
            (Some(battery), Some(write)) => {
                self.phase = Phase::ReadingBattery(write);
                ConnectAction::ReadValue(battery)
            },
            (None, Some(_)) => {
                self.phase = Phase::Over;
                ConnectAction::Fail(Error::MissingCharacteristic(BATTERY_CHARACTERISTIC_UUID))
            },
            (_, None) => {
                self.phase = Phase::Over;
                ConnectAction::Fail(Error::MissingCharacteristic(WRITE_CHARACTERISTIC_UUID))
            },
        }
    }
}

} // verus!
