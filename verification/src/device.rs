//! Appliances as devices with properties and actions.
//!
//! A driver knows one family of appliances: the keys that unlock it, where
//! in its memory each property lives and how it is encoded, and which writes
//! trigger its actions. [`connect`] asks the appliance for its software ID and
//! picks the driver.
pub mod access;
pub mod id132;
pub mod id1998;
pub mod id324;
pub mod id419;
pub mod id605;
pub mod id629;
mod private;
pub mod registry;
pub mod table;
pub mod utils;
pub mod value;

use crate::command::Error as ProtocolError;
use crate::device::private::Sealed;
use crate::interface::Interface;
use crate::port::Port;
use crate::text::append_text;
use vstd::prelude::*;
use vstd::string::StringExecFns;

pub use crate::device::access::{
    byte_written, eeprom_decoded, fine, identifying, known, lemma_byte_written, lemma_identified,
    lemma_performed, lemma_unlocked, lift, lifted, mapped, memory_decoded, require_known, unlock,
    unlocked, unlocking, write_byte,
};
pub use crate::device::registry::{AnyDevice, connect};
pub use crate::device::table::{
    Action, ActionKind, ActionParameters, ActionView, ParametersView, Property, PropertyKind,
    PropertyView, actions_view, find_action, find_property, lemma_position, position,
    properties_view, same_texts, texts,
};
pub use crate::device::value::{
    Date, Fault, Value, ValueView, argument_view, text_outcome, value_outcome,
};

verus! {

/// Why an operation of a device failed.
///
/// `E` is the error of the byte channel.
#[derive(PartialEq, Eq, Debug)]
pub enum Error<E> {
    /// No driver knows the software ID, or the driver asked for does not
    /// know it.
    UnknownSoftwareId(u16),
    /// The argument of an action is missing, superfluous or not one of the
    /// values that the action declares. Nothing was transmitted.
    InvalidArgument,
    /// The appliance is not in a state in which the action is possible.
    InvalidState,
    /// The appliance's memory holds a value that the driver cannot decode.
    UnexpectedMemoryValue,
    /// The device has no such property. Nothing was transmitted.
    UnknownProperty,
    /// The device has no such action. Nothing was transmitted.
    UnknownAction,
    /// The diagnostic protocol failed.
    Protocol(ProtocolError<E>),
}

/// The decimal digits of `n`.
pub open spec fn decimal(n: nat) -> Seq<char>
    decreases n,
{
    if n < 10 {
        seq![digit_char(n)]
    } else {
        decimal(n / 10).push(digit_char(n % 10))
    }
}

/// The character of one decimal digit.
pub open spec fn digit_char(d: nat) -> char {
    if d == 0 {
        '0'
    } else if d == 1 {
        '1'
    } else if d == 2 {
        '2'
    } else if d == 3 {
        '3'
    } else if d == 4 {
        '4'
    } else if d == 5 {
        '5'
    } else if d == 6 {
        '6'
    } else if d == 7 {
        '7'
    } else if d == 8 {
        '8'
    } else {
        '9'
    }
}

/// Appends the decimal digits of `n` to `out`.
pub fn append_decimal(out: &mut String, n: u32)
    ensures
        final(out)@ == old(out)@ + decimal(n as nat),
    decreases n,
{
    if n >= 10 {
        append_decimal(out, n / 10);
    }
    let d: u32 = n % 10;
    let c: char = if d == 0 {
        '0'
    } else if d == 1 {
        '1'
    } else if d == 2 {
        '2'
    } else if d == 3 {
        '3'
    } else if d == 4 {
        '4'
    } else if d == 5 {
        '5'
    } else if d == 6 {
        '6'
    } else if d == 7 {
        '7'
    } else if d == 8 {
        '8'
    } else {
        '9'
    };
    out.push(c);
    proof {
        if n >= 10 {
            assert(out@ =~= old(out)@ + decimal((n / 10) as nat).push(c));
        } else {
            assert(out@ =~= old(out)@ + seq![c]);
        }
    }
}

/// Writes `n` in decimal digits.
pub fn decimal_string(n: u32) -> (r: String)
    ensures
        r@ == decimal(n as nat),
{
    let mut out = String::new();
    append_decimal(&mut out, n);
    assert(out@ =~= decimal(n as nat));
    out
}

impl<E> Error<E> {
    /// The error that a failure of the protocol stands for.
    pub fn from_protocol(err: ProtocolError<E>) -> (r: Error<E>)
        ensures
            r == Error::Protocol(err),
    {
        Error::Protocol(err)
    }

    /// A short description of the error.
    pub fn to_string(&self) -> (r: String)
        ensures
            r@ == match *self {
                Error::UnknownSoftwareId(id) => "unknown software ID: "@ + decimal(id as nat),
                Error::InvalidArgument => "invalid argument"@,
                Error::InvalidState => "invalid state"@,
                Error::UnexpectedMemoryValue => "unexpected memory value"@,
                Error::UnknownProperty => "unknown property"@,
                Error::UnknownAction => "unknown action"@,
                Error::Protocol(err) => "protocol error: "@ + match err {
                    ProtocolError::InvalidArgument => "invalid argument"@,
                    ProtocolError::IncorrectChecksum => "incorrect checksum"@,
                    ProtocolError::InvalidCommand => "invalid command"@,
                    ProtocolError::InvalidResponse => "invalid response"@,
                    ProtocolError::UnexpectedEof => "unexpected end-of-file"@,
                    ProtocolError::Io(_) => "input/output error"@,
                },
            },
    {
        match self {
            Error::UnknownSoftwareId(id) => {
                let mut out = String::from_str("unknown software ID: ");
                append_decimal(&mut out, *id as u32);
                out
            },
            Error::InvalidArgument => "invalid argument".to_string(),
            Error::InvalidState => "invalid state".to_string(),
            Error::UnexpectedMemoryValue => "unexpected memory value".to_string(),
            Error::UnknownProperty => "unknown property".to_string(),
            Error::UnknownAction => "unknown action".to_string(),
            Error::Protocol(err) => {
                let mut out = String::from_str("protocol error: ");
                let inner = err.to_string();
                append_text(&mut out, inner.as_str());
                out
            },
        }
    }
}

impl<E> vstd::std_specs::convert::FromSpecImpl<ProtocolError<E>> for Error<E> {
    open spec fn obeys_from_spec() -> bool {
        true
    }

    open spec fn from_spec(err: ProtocolError<E>) -> Error<E> {
        Error::Protocol(err)
    }
}

impl<E> From<ProtocolError<E>> for Error<E> {
    fn from(err: ProtocolError<E>) -> (r: Error<E>) {
        Error::Protocol(err)
    }
}

/// The kind of an appliance.
#[derive(PartialEq, Eq, Structural, Copy, Clone, Debug)]
pub enum DeviceKind {
    /// A washing machine.
    WashingMachine,
    /// A tumble dryer.
    TumbleDryer,
    /// A washing machine that also dries.
    WasherDryer,
    /// A dishwasher.
    Dishwasher,
    /// A coffee machine.
    CoffeeMachine,
}

impl DeviceKind {
    /// The kind in words.
    pub open spec fn name(self) -> Seq<char> {
        match self {
            DeviceKind::WashingMachine => "Washing Machine"@,
            DeviceKind::TumbleDryer => "Tumble Dryer"@,
            DeviceKind::WasherDryer => "Washer Dryer"@,
            DeviceKind::Dishwasher => "Dishwasher"@,
            DeviceKind::CoffeeMachine => "Coffee Machine"@,
        }
    }

    /// Returns the kind in words.
    pub fn to_string(&self) -> (r: String)
        ensures
            r@ == self.name(),
    {
        match self {
            DeviceKind::WashingMachine => "Washing Machine".to_string(),
            DeviceKind::TumbleDryer => "Tumble Dryer".to_string(),
            DeviceKind::WasherDryer => "Washer Dryer".to_string(),
            DeviceKind::Dishwasher => "Dishwasher".to_string(),
            DeviceKind::CoffeeMachine => "Coffee Machine".to_string(),
        }
    }
}

/// Whether `r` is the refusal of an argument.
pub open spec fn refused<T, E>(r: Result<T, Error<E>>) -> bool {
    r is Err && r->Err_0 is InvalidArgument
}

/// Whether `r` says that the appliance was not in the state for the action.
pub open spec fn out_of_turn<T, E>(r: Result<T, Error<E>>) -> bool {
    r is Err && r->Err_0 is InvalidState
}

/// Whether `r` says that the appliance's memory could not be decoded.
pub open spec fn unexpected<T, E>(r: Result<T, Error<E>>) -> bool {
    r is Err && r->Err_0 is UnexpectedMemoryValue
}

/// Whether `r` is a failure of the protocol.
pub open spec fn failed_on_the_wire<T, E>(r: Result<T, Error<E>>) -> bool {
    r is Err && r->Err_0 is Protocol
}

/// What every driver offers: the identity of the appliance, its properties
/// and actions, and the way to query the ones and trigger the others.
///
/// Only the drivers of this crate implement the trait.
pub trait Device<P: Port>: Sealed + Sized {
    /// The state of the diagnostic interface that the device talks through.
    spec fn intf(&self) -> Interface<P>;

    /// The software ID that the appliance reported when it was connected.
    spec fn id(&self) -> u16;

    /// The kind of the appliance.
    spec fn kind_of(&self) -> DeviceKind;

    /// The properties of the device, in the order in which it lists them.
    spec fn property_table(&self) -> Seq<PropertyView>;

    /// The actions of the device, in the order in which it lists them.
    spec fn action_table(&self) -> Seq<ActionView>;

    /// Whether the driver knows appliances with the software ID `id`.
    spec fn knows(id: u16) -> bool;

    /// Connects to the appliance behind `port`: asks for its software ID
    /// and, where the driver knows it, unlocks the diagnostic interface.
    ///
    /// A software ID that the driver does not know is reported as
    /// [`Error::UnknownSoftwareId`]. Every other failure is one of the
    /// protocol.
    fn connect(port: P) -> (r: Result<Self, Error<P::Error>>)
        ensures
            match r {
                Ok(dev) => dev.intf().wf() && Self::knows(dev.id()),
                Err(Error::UnknownSoftwareId(id)) => !Self::knows(id),
                Err(e) => e is Protocol,
            },
    ;

    /// The software ID of the appliance.
    fn software_id(&self) -> (r: u16)
        ensures
            r == self.id(),
    ;

    /// The kind of the appliance.
    fn kind(&self) -> (r: DeviceKind)
        ensures
            r == self.kind_of(),
    ;

    /// The properties that can be queried.
    fn properties(&self) -> (r: &'static [Property])
        ensures
            properties_view(r) == self.property_table(),
    ;

    /// The actions that can be triggered.
    fn actions(&self) -> (r: &'static [Action])
        ensures
            actions_view(r) == self.action_table(),
    ;

    /// Queries a property.
    ///
    /// A property that the device does not list is an
    /// [`Error::UnknownProperty`], and nothing is transmitted for it. A
    /// property that it lists gives a value, a failure of the protocol, or
    /// [`Error::UnexpectedMemoryValue`] where the appliance's memory cannot be
    /// decoded.
    fn query_property(&mut self, prop: &Property) -> (r: Result<Value, Error<P::Error>>)
        requires
            old(self).intf().wf(),
        ensures
            final(self).intf().wf(),
            final(self).id() == old(self).id(),
            final(self).kind_of() == old(self).kind_of(),
            final(self).property_table() == old(self).property_table(),
            final(self).action_table() == old(self).action_table(),
            match position(old(self).property_table(), prop@) {
                Some(_) => r is Ok || unexpected(r) || failed_on_the_wire(r),
                None => {
                    &&& r == Err::<Value, Error<P::Error>>(Error::UnknownProperty)
                    &&& final(self).intf() == old(self).intf()
                },
            },
    ;

    /// Triggers an action.
    ///
    /// An action that the device does not list is an
    /// [`Error::UnknownAction`]. An action that declares parameters takes a
    /// string that names them; one that declares none takes no argument.
    /// Every other argument is an [`Error::InvalidArgument`]. Nothing is
    /// transmitted for either error.
    fn trigger_action(&mut self, action: &Action, param: Option<Value>) -> (r: Result<
        (),
        Error<P::Error>,
    >)
        requires
            old(self).intf().wf(),
        ensures
            final(self).intf().wf(),
            final(self).id() == old(self).id(),
            final(self).kind_of() == old(self).kind_of(),
            final(self).property_table() == old(self).property_table(),
            final(self).action_table() == old(self).action_table(),
            match position(old(self).action_table(), action@) {
                Some(_) => {
                    &&& r is Ok || refused(r) || out_of_turn(r) || failed_on_the_wire(r)
                    &&& (action@.params is Some) != (param is Some) ==> refused(r)
                    &&& action@.params is None && param is None ==> !refused(r)
                    &&& refused(r) ==> final(self).intf() == old(self).intf()
                },
                None => {
                    &&& r == Err::<(), Error<P::Error>>(Error::UnknownAction)
                    &&& final(self).intf() == old(self).intf()
                },
            },
    ;

    /// The diagnostic interface, for what the driver does not offer.
    fn interface(&mut self) -> (r: &mut Interface<P>)
        ensures
            *r == old(self).intf(),
            final(self).intf() == *final(r),
            final(self).id() == old(self).id(),
            final(self).kind_of() == old(self).kind_of(),
            final(self).property_table() == old(self).property_table(),
            final(self).action_table() == old(self).action_table(),
    ;
}

} // verus!
