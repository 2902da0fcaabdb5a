//! The values of properties and the arguments of actions.
use crate::device::Error;
use core::time::Duration;
use vstd::prelude::*;

verus! {

/// A calendar date.
#[derive(PartialEq, Eq, Structural, Copy, Clone, Debug)]
pub struct Date {
    /// The year.
    pub year: u16,
    /// The month, counted from 1.
    pub month: u8,
    /// The day of the month, counted from 1.
    pub day: u8,
}

impl Date {
    /// The date of the three given parts.
    pub fn new(year: u16, month: u8, day: u8) -> (r: Self)
        ensures
            r == (Date { year, month, day }),
    {
        Date { year, month, day }
    }
}

/// The state of one fault of an appliance that reports its faults one by
/// one.
#[derive(PartialEq, Eq, Structural, Copy, Clone, Debug)]
pub enum Fault {
    /// The fault is neither present nor on record.
    Clear,
    /// The fault is present now.
    Active,
    /// The fault was present and is on record.
    Stored,
}

impl Fault {
    /// The state in words.
    pub open spec fn name(self) -> Seq<char> {
        match self {
            Fault::Clear => "Ok"@,
            Fault::Active => "Active"@,
            Fault::Stored => "Stored"@,
        }
    }

    /// Returns the state in words.
    pub fn to_string(&self) -> (r: String)
        ensures
            r@ == self.name(),
    {
        match self {
            Fault::Clear => "Ok".to_string(),
            Fault::Active => "Active".to_string(),
            Fault::Stored => "Stored".to_string(),
        }
    }
}

/// The value of a property, or the argument of an action.
#[derive(PartialEq, Eq, Debug)]
pub enum Value {
    /// A truth value.
    Bool(bool),
    /// A number.
    Number(u32),
    /// A sensor's reading and the reading that the appliance aims at.
    Sensor(u32, u32),
    /// A text.
    String(String),
    /// A span of time.
    Duration(Duration),
    /// A date.
    Date(Date),
}

/// A value as plain values.
pub enum ValueView {
    /// A truth value.
    Bool(bool),
    /// A number.
    Number(u32),
    /// A sensor's reading and the reading that the appliance aims at.
    Sensor(u32, u32),
    /// A text.
    Text(Seq<char>),
    /// A span of time.
    Duration(Duration),
    /// A date.
    Date(Date),
}

impl View for Value {
    type V = ValueView;

    open spec fn view(&self) -> ValueView {
        match *self {
            Value::Bool(b) => ValueView::Bool(b),
            Value::Number(n) => ValueView::Number(n),
            Value::Sensor(current, target) => ValueView::Sensor(current, target),
            Value::String(s) => ValueView::Text(s@),
            Value::Duration(d) => ValueView::Duration(d),
            Value::Date(d) => ValueView::Date(d),
        }
    }
}

/// An optional value as plain values.
pub open spec fn argument_view(param: Option<Value>) -> Option<ValueView> {
    match param {
        Some(value) => Some(value@),
        None => None,
    }
}

/// The result of a query for a text, as plain values.
pub open spec fn text_outcome<E>(r: Result<String, Error<E>>) -> Result<Seq<char>, Error<E>> {
    match r {
        Ok(text) => Ok(text@),
        Err(e) => Err(e),
    }
}

/// The result of a query for a value, as plain values.
pub open spec fn value_outcome<E>(r: Result<Value, Error<E>>) -> Result<ValueView, Error<E>> {
    match r {
        Ok(value) => Ok(value@),
        Err(e) => Err(e),
    }
}

impl vstd::std_specs::convert::FromSpecImpl<bool> for Value {
    open spec fn obeys_from_spec() -> bool {
        true
    }

    open spec fn from_spec(val: bool) -> Value {
        Value::Bool(val)
    }
}

impl From<bool> for Value {
    fn from(val: bool) -> (r: Value) {
        Value::Bool(val)
    }
}

impl vstd::std_specs::convert::FromSpecImpl<u8> for Value {
    open spec fn obeys_from_spec() -> bool {
        true
    }

    open spec fn from_spec(val: u8) -> Value {
        Value::Number(val as u32)
    }
}

impl From<u8> for Value {
    fn from(val: u8) -> (r: Value) {
        Value::Number(val as u32)
    }
}

impl vstd::std_specs::convert::FromSpecImpl<u16> for Value {
    open spec fn obeys_from_spec() -> bool {
        true
    }

    open spec fn from_spec(val: u16) -> Value {
        Value::Number(val as u32)
    }
}

impl From<u16> for Value {
    fn from(val: u16) -> (r: Value) {
        Value::Number(val as u32)
    }
}

impl vstd::std_specs::convert::FromSpecImpl<u32> for Value {
    open spec fn obeys_from_spec() -> bool {
        true
    }

    open spec fn from_spec(val: u32) -> Value {
        Value::Number(val)
    }
}

impl From<u32> for Value {
    fn from(val: u32) -> (r: Value) {
        Value::Number(val)
    }
}

impl vstd::std_specs::convert::FromSpecImpl<(u8, u8)> for Value {
    open spec fn obeys_from_spec() -> bool {
        true
    }

    open spec fn from_spec(vals: (u8, u8)) -> Value {
        Value::Sensor(vals.0 as u32, vals.1 as u32)
    }
}

impl From<(u8, u8)> for Value {
    fn from(vals: (u8, u8)) -> (r: Value) {
        Value::Sensor(vals.0 as u32, vals.1 as u32)
    }
}

impl vstd::std_specs::convert::FromSpecImpl<(u16, u16)> for Value {
    open spec fn obeys_from_spec() -> bool {
        true
    }

    open spec fn from_spec(vals: (u16, u16)) -> Value {
        Value::Sensor(vals.0 as u32, vals.1 as u32)
    }
}

impl From<(u16, u16)> for Value {
    fn from(vals: (u16, u16)) -> (r: Value) {
        Value::Sensor(vals.0 as u32, vals.1 as u32)
    }
}

impl vstd::std_specs::convert::FromSpecImpl<(u32, u32)> for Value {
    open spec fn obeys_from_spec() -> bool {
        true
    }

    open spec fn from_spec(vals: (u32, u32)) -> Value {
        Value::Sensor(vals.0, vals.1)
    }
}

impl From<(u32, u32)> for Value {
    fn from(vals: (u32, u32)) -> (r: Value) {
        Value::Sensor(vals.0, vals.1)
    }
}

impl vstd::std_specs::convert::FromSpecImpl<String> for Value {
    open spec fn obeys_from_spec() -> bool {
        true
    }

    open spec fn from_spec(string: String) -> Value {
        Value::String(string)
    }
}

impl From<String> for Value {
    fn from(string: String) -> (r: Value) {
        Value::String(string)
    }
}

impl vstd::std_specs::convert::FromSpecImpl<Duration> for Value {
    open spec fn obeys_from_spec() -> bool {
        true
    }

    open spec fn from_spec(dur: Duration) -> Value {
        Value::Duration(dur)
    }
}

impl From<Duration> for Value {
    fn from(dur: Duration) -> (r: Value) {
        Value::Duration(dur)
    }
}

impl vstd::std_specs::convert::FromSpecImpl<Date> for Value {
    open spec fn obeys_from_spec() -> bool {
        true
    }

    open spec fn from_spec(date: Date) -> Value {
        Value::Date(date)
    }
}

impl From<Date> for Value {
    fn from(date: Date) -> (r: Value) {
        Value::Date(date)
    }
}

} // verus!
