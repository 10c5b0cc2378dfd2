//! What a connection is asked for.

use crate::connect::{ConnectAction, Connecting};
use crate::settings::DeviceSettings;
use btleplug::platform::{Adapter, Peripheral};
use vstd::prelude::*;

verus! {

/// The BLE device name of a Coyote 3.
pub const DEVICE_NAME: &'static str = "47L121000";

/// `btleplug::platform::Adapter`, a Bluetooth adapter of this machine.
#[verifier::external_type_specification]
#[verifier::external_body]
pub struct ExAdapter(btleplug::platform::Adapter);

/// `btleplug::platform::Peripheral`, a device within reach of an adapter.
#[verifier::external_type_specification]
#[verifier::external_body]
pub struct ExPeripheral(btleplug::platform::Peripheral);

/// Builder type to connect to a Coyote 3.
#[derive(Debug)]
pub struct Coyote3Builder {
    /// The adapter to connect with, if a specific one is asked for.
    pub adapter: Option<Adapter>,
    /// The device to connect to, if a specific one is asked for.
    pub peripheral: Option<Peripheral>,
    /// The device settings to use.
    pub settings: DeviceSettings,
    /// The BLE device name to scan for.
    pub device_name: Option<String>,
}

impl Default for Coyote3Builder {
    fn default() -> (r: Self)
        ensures
            r.adapter is None,
            r.peripheral is None,
            r.settings == DeviceSettings::initial(),
            r.device_name is Some && r.device_name->0@ == DEVICE_NAME@,
    {
        Coyote3Builder {
            adapter: None,
            peripheral: None,
            settings: DeviceSettings::default(),
            device_name: Some(DEVICE_NAME.to_owned()),
        }
    }
}

impl Coyote3Builder {
    /// The BLE device name that is scanned for.
    pub open spec fn target(self) -> Seq<char> {
        match self.device_name {
            Some(name) => name@,
            None => DEVICE_NAME@,
        }
    }

    /// Connect using a specific [`btleplug::platform::Adapter`].
    pub fn with(self, adapter: Adapter) -> (r: Self)
        ensures
            r == (Coyote3Builder { adapter: Some(adapter), ..self }),
    {
        Coyote3Builder { adapter: Some(adapter), ..self }
    }

    /// Connect to a specific [`btleplug::platform::Peripheral`].
    pub fn to(self, peripheral: Peripheral) -> (r: Self)
        ensures
            r == (Coyote3Builder { peripheral: Some(peripheral), ..self }),
    {
        Coyote3Builder { peripheral: Some(peripheral), ..self }
    }

    /// Set the device settings.
    pub fn settings(self, settings: DeviceSettings) -> (r: Self)
        ensures
            r == (Coyote3Builder { settings, ..self }),
    {
        Coyote3Builder { settings, ..self }
    }

    /// Override the BLE device name to scan for (default: "47L121000").
    pub fn device_name(self, name: String) -> (r: Self)
        ensures
            r == (Coyote3Builder { device_name: Some(name), ..self }),
    {
        Coyote3Builder { device_name: Some(name), ..self }
    }

    /// Start to connect: the steps to take, the first of them, and the adapter and the device to
    /// take them with as far as specific ones are asked for.
    pub fn connect(self) -> (r: (Connecting, ConnectAction, Option<Adapter>, Option<Peripheral>))
        ensures
            r.2 == self.adapter,
            r.3 == self.peripheral,
            (r.0@, r.1@) == crate::connect::beginning(
                self.target(),
                self.settings,
                self.adapter is Some,
                self.peripheral is Some,
            ),
    {
        let target: String = match self.device_name {
            Some(name) => name,
            None => DEVICE_NAME.to_owned(),
        };
        let (connecting, action) = Connecting::begin(
            target,
            self.settings,
            self.adapter.is_some(),
            self.peripheral.is_some(),
        );
        (connecting, action, self.adapter, self.peripheral)
    }
}

/// The name that is scanned for is the one that was asked for, and "47L121000" where none was.
pub proof fn law_target_is_the_name_asked_for(builder: Coyote3Builder, name: String)
    ensures
        (Coyote3Builder { device_name: Some(name), ..builder }).target() == name@,
        (Coyote3Builder { device_name: None, ..builder }).target() == "47L121000"@,
{
}

} // verus!
