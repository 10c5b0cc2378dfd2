//! What can go wrong.

use crate::characteristic;
use btleplug::Error as BtleplugError;
use vstd::prelude::*;
use vstd::string::StringExecFns;

verus! {

/// `btleplug::Error`, which says what went wrong between this machine and the device.
#[verifier::external_type_specification]
#[verifier::external_body]
pub struct ExBtleplugError(BtleplugError);

/// The error type returned by this library.
#[non_exhaustive]
#[derive(Debug)]
pub enum Error {
    /// The device is missing the BLE characteristic with this UUID.
    ///
    /// This should never occur using an original device.
    MissingCharacteristic(u128),
    /// No BLE device matching the given name was found during scan.
    DeviceNotFound(String),
    /// An error returned by `btleplug`.
    Btleplug(BtleplugError),
}

/// An error, with its name as a sequence of characters.
pub enum ErrorView {
    /// A characteristic is missing.
    MissingCharacteristic(u128),
    /// No device of that name was found.
    DeviceNotFound(Seq<char>),
    /// An error returned by `btleplug`.
    Btleplug(BtleplugError),
}

impl View for Error {
    type V = ErrorView;

    open spec fn view(&self) -> ErrorView {
        match *self {
            Error::MissingCharacteristic(uuid) => ErrorView::MissingCharacteristic(uuid),
            Error::DeviceNotFound(name) => ErrorView::DeviceNotFound(name@),
            Error::Btleplug(e) => ErrorView::Btleplug(e),
        }
    }
}

impl Error {
    /// `text` is the message of the error: for an error of `btleplug` the text that its own
    /// `Display` gives, with nothing added.
    pub open spec fn is_message(self, text: String) -> bool {
        match self {
            Error::MissingCharacteristic(uuid) => text@ == "missing device characteristic '"@
                + characteristic::uuid_text(uuid) + "'"@,
            Error::DeviceNotFound(name) => text@ == "no BLE device matching '"@ + name@
                + "' found"@,
            Error::Btleplug(e) => vstd::string::to_string_from_display_ensures::<BtleplugError>(
                &e,
                text,
            ),
        }
    }

    /// The message for the user.
    pub fn message(&self) -> (r: String)
        ensures
            self.is_message(r),
    {
        match self {
            Error::MissingCharacteristic(uuid) => {
                let mut text: String = "missing device characteristic '".to_owned();
                text.append(characteristic::format_uuid(*uuid).as_str());
                text.append("'");
                text
            },
            Error::DeviceNotFound(name) => {
                let mut text: String = "no BLE device matching '".to_owned();
                text.append(name.as_str());
                text.append("' found");
                text
            },
            Error::Btleplug(e) => e.to_string(),
        }
    }

    /// The error of `btleplug` that caused this one, if one did.
    pub fn source(&self) -> (r: Option<&BtleplugError>)
        ensures
            r == (match *self {
                Error::Btleplug(e) => Some(&e),
                _ => None,
            }),
    {
        match self {
            Error::MissingCharacteristic(_) | Error::DeviceNotFound(_) => None,
            Error::Btleplug(e) => Some(e),
        }
    }
}

impl From<BtleplugError> for Error {
    fn from(e: BtleplugError) -> (r: Self) {
        Error::Btleplug(e)
    }
}

impl vstd::std_specs::convert::FromSpecImpl<BtleplugError> for Error {
    open spec fn obeys_from_spec() -> bool {
        true
    }

    open spec fn from_spec(e: BtleplugError) -> Self {
        Error::Btleplug(e)
    }
}

/// An error of `btleplug` is kept as it is, and its own text is the message.
pub proof fn law_btleplug_error_speaks_for_itself(e: BtleplugError, text: String)
    ensures
        ({
            let error = <Error as vstd::std_specs::convert::FromSpec<BtleplugError>>::from_spec(e);
            &&& error == Error::Btleplug(e)
            &&& error.is_message(text) <==> vstd::string::to_string_from_display_ensures::<
                BtleplugError,
            >(&e, text)
        }),
{
}

/// The texts of the library's own errors, with the UUID and the name just as they are.
pub proof fn law_messages(uuid: u128, name: String, text: String)
    ensures
        Error::MissingCharacteristic(uuid).is_message(text) <==> text@
            == "missing device characteristic '"@ + characteristic::uuid_text(uuid) + "'"@,
        Error::DeviceNotFound(name).is_message(text) <==> text@ == "no BLE device matching '"@
            + name@ + "' found"@,
{
}

/// An error is seen as it is.
pub proof fn law_error_is_seen_as_it_is(uuid: u128, name: String, e: BtleplugError)
    ensures
        Error::MissingCharacteristic(uuid)@ == ErrorView::MissingCharacteristic(uuid),
        Error::DeviceNotFound(name)@ == ErrorView::DeviceNotFound(name@),
        Error::Btleplug(e)@ == ErrorView::Btleplug(e),
{
}

} // verus!
