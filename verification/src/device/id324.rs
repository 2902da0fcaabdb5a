//! Washing machines of the W 8xx and W 9xx series with an EDPW 213 board.
//!
//! The driver knows appliances with software ID 324.
use crate::command::Error as ProtocolError;
use crate::device::private::Sealed;
use crate::device::utils::{
    decode_display_contents, decode_duty_cycle, decode_ntc_reading, decode_operating_time,
    display_text, duration_of_secs, duty_percent, ntc_reading, operating_seconds, rpm,
    rpm_from_motor_speed,
};
use crate::device::{
    Action, ActionKind, ActionParameters, ActionView, Device, DeviceKind, Error, ParametersView,
    Property, PropertyKind, PropertyView, Value, ValueView, actions_view, argument_view,
    byte_written, decimal, find_action, find_property, fine, identifying, known, lemma_identified,
    lemma_position, lemma_unlocked, mapped, memory_decoded, position, properties_view,
    require_known, text_outcome, texts, unlock, unlocked, unlocking, value_outcome, write_byte,
};
use crate::flags::{
    all_bits, flags_text, format_flags, narrow, parse_flags, parsed, table_view, valid_bits,
};
use crate::interface::Interface;
use crate::port::Port;
use crate::text::same_text;
use crate::wire::Wire;
use core::time::Duration;
use vstd::prelude::*;

verus! {

/// The software ID that this driver knows.
pub const SOFTWARE_ID: u16 = 324;

/// The key that unlocks read access.
pub const READ_KEY: u16 = 0x43ea;

/// The key that unlocks full access.
pub const FULL_KEY: u16 = 0x1f02;

/// The faults that the machine has on record. Several can be on record at
/// once.
#[derive(PartialEq, Eq, Structural, Copy, Clone, Debug)]
pub struct Fault {
    bits: u16,
}

impl Fault {
    /// The faults with their masks, in the order in which they are written.
    pub open spec fn flags() -> Seq<(Seq<char>, u16)> {
        seq![
            ("PressureSensor"@, 0x0001u16),
            ("NtcThermistor"@, 0x0002u16),
            ("Heater"@, 0x0004u16),
            ("TachometerGenerator"@, 0x0008u16),
            ("DetergentOverdose"@, 0x0010u16),
            ("Inlet"@, 0x0020u16),
            ("Drainage"@, 0x0040u16),
            ("SpinCycle"@, 0x0080u16),
            ("Eeprom"@, 0x0100u16),
        ]
    }

    /// The bits of the set.
    pub closed spec fn value(self) -> u16 {
        self.bits
    }

    /// The set with the bits `bits`, if every bit is one of the table.
    pub closed spec fn of_bits(bits: u16) -> Option<Fault> {
        if bits & !all_bits(Self::flags()) == 0 {
            Some(Fault { bits })
        } else {
            None
        }
    }

    /// The names of the faults of the set, separated by `" | "`.
    pub open spec fn text(self) -> Seq<char> {
        flags_text(Self::flags(), self.value() as u16)
    }

    /// The faults with their masks.
    pub fn table() -> (r: &'static [(&'static str, u16)])
        ensures
            table_view(r) == Self::flags(),
    {
        let r: &'static [(&'static str, u16)] = &[
            ("PressureSensor", 0x0001),
            ("NtcThermistor", 0x0002),
            ("Heater", 0x0004),
            ("TachometerGenerator", 0x0008),
            ("DetergentOverdose", 0x0010),
            ("Inlet", 0x0020),
            ("Drainage", 0x0040),
            ("SpinCycle", 0x0080),
            ("Eeprom", 0x0100),
        ];
        assert(table_view(r) =~= Self::flags());
        r
    }

    /// The set with the bits `bits`. Bits that are none of the table are
    /// refused.
    pub fn from_bits(bits: u16) -> (r: Option<Fault>)
        ensures
            r == Self::of_bits(bits),
            r matches Some(set) ==> set.value() == bits,
            r is Some <==> bits & !all_bits(Self::flags()) == 0,
    {
        if valid_bits(Self::table(), bits) {
            Some(Fault { bits })
        } else {
            None
        }
    }

    /// The bits of the set.
    pub fn bits(&self) -> (r: u16)
        ensures
            r == self.value(),
    {
        self.bits
    }

    /// The names of the faults of the set, separated by `" | "`.
    pub fn to_string(&self) -> (r: String)
        ensures
            r@ == self.text(),
    {
        format_flags(Self::table(), self.bits)
    }
}

/// The operating mode of the machine.
#[derive(PartialEq, Eq, Structural, Copy, Clone, Debug)]
pub enum OperatingMode {
    /// The door is open.
    DoorOpen,
    /// The machine is switched on and no program is running.
    ProgramIdle,
    /// A program is running.
    ProgramRunning,
    /// A program has finished.
    ProgramFinished,
    /// The programming mode of the service, with every setting of the
    /// machine.
    ServiceProgramming,
    /// The service mode, in which faults are shown and actuators are tested.
    Service,
    /// The programming mode of the customer, with some of the settings.
    CustomerProgramming,
}

impl OperatingMode {
    /// The number that stands for the mode in the appliance's memory.
    pub open spec fn repr(self) -> u8 {
        match self {
            OperatingMode::DoorOpen => 0x00,
            OperatingMode::ProgramIdle => 0x01,
            OperatingMode::ProgramRunning => 0x02,
            OperatingMode::ProgramFinished => 0x03,
            OperatingMode::ServiceProgramming => 0x04,
            OperatingMode::Service => 0x05,
            OperatingMode::CustomerProgramming => 0x06,
        }
    }

    /// The mode that `value` stands for, if it stands for one.
    pub open spec fn of_repr(value: u8) -> Option<OperatingMode> {
        if value == 0x00 {
            Some(OperatingMode::DoorOpen)
        } else if value == 0x01 {
            Some(OperatingMode::ProgramIdle)
        } else if value == 0x02 {
            Some(OperatingMode::ProgramRunning)
        } else if value == 0x03 {
            Some(OperatingMode::ProgramFinished)
        } else if value == 0x04 {
            Some(OperatingMode::ServiceProgramming)
        } else if value == 0x05 {
            Some(OperatingMode::Service)
        } else if value == 0x06 {
            Some(OperatingMode::CustomerProgramming)
        } else {
            None
        }
    }

    /// The name of the mode.
    pub open spec fn name(self) -> Seq<char> {
        match self {
            OperatingMode::DoorOpen => "DoorOpen"@,
            OperatingMode::ProgramIdle => "ProgramIdle"@,
            OperatingMode::ProgramRunning => "ProgramRunning"@,
            OperatingMode::ProgramFinished => "ProgramFinished"@,
            OperatingMode::ServiceProgramming => "ServiceProgramming"@,
            OperatingMode::Service => "Service"@,
            OperatingMode::CustomerProgramming => "CustomerProgramming"@,
        }
    }

    /// Returns the mode that `value` stands for, if it stands for one.
    pub fn from_repr(value: u8) -> (r: Option<OperatingMode>)
        ensures
            r == Self::of_repr(value),
    {
        match value {
            0x00 => Some(OperatingMode::DoorOpen),
            0x01 => Some(OperatingMode::ProgramIdle),
            0x02 => Some(OperatingMode::ProgramRunning),
            0x03 => Some(OperatingMode::ProgramFinished),
            0x04 => Some(OperatingMode::ServiceProgramming),
            0x05 => Some(OperatingMode::Service),
            0x06 => Some(OperatingMode::CustomerProgramming),
            _ => None,
        }
    }

    /// Returns the number that stands for the mode in the appliance's memory.
    pub fn to_repr(self) -> (r: u8)
        ensures
            r == self.repr(),
    {
        match self {
            OperatingMode::DoorOpen => 0x00,
            OperatingMode::ProgramIdle => 0x01,
            OperatingMode::ProgramRunning => 0x02,
            OperatingMode::ProgramFinished => 0x03,
            OperatingMode::ServiceProgramming => 0x04,
            OperatingMode::Service => 0x05,
            OperatingMode::CustomerProgramming => 0x06,
        }
    }

    /// Returns the name of the mode.
    pub fn to_string(&self) -> (r: String)
        ensures
            r@ == self.name(),
    {
        match self {
            OperatingMode::DoorOpen => "DoorOpen".to_string(),
            OperatingMode::ProgramIdle => "ProgramIdle".to_string(),
            OperatingMode::ProgramRunning => "ProgramRunning".to_string(),
            OperatingMode::ProgramFinished => "ProgramFinished".to_string(),
            OperatingMode::ServiceProgramming => "ServiceProgramming".to_string(),
            OperatingMode::Service => "Service".to_string(),
            OperatingMode::CustomerProgramming => "CustomerProgramming".to_string(),
        }
    }
}

/// The position of the program selector.
#[derive(PartialEq, Eq, Structural, Copy, Clone, Debug)]
pub enum SelectorPosition {
    /// The end position: no program.
    Finish,
    /// Cottons, 95 °C.
    Cottons95,
    /// Cottons, 75 °C.
    Cottons75,
    /// Cottons, 60 °C.
    Cottons60,
    /// Cottons, 40 °C.
    Cottons40,
    /// Cottons, 30 °C.
    Cottons30,
    /// Minimum iron, 60 °C.
    MinimumIron60,
    /// Minimum iron, 50 °C.
    MinimumIron50,
    /// Minimum iron, 40 °C.
    MinimumIron40,
    /// Minimum iron, 30 °C.
    MinimumIron30,
    /// Delicates, 40 °C.
    Delicates40,
    /// Delicates, 30 °C.
    Delicates30,
    /// Delicates, cold.
    DelicatesCold,
    /// Woolens, 40 °C.
    Woolens40,
    /// Woolens, 30 °C.
    Woolens30,
    /// Woolens, cold.
    WoolensCold,
    /// Quick wash, 40 °C.
    QuickWash40,
    /// Starch.
    Starch,
    /// Spin.
    Spin,
    /// Drain.
    Drain,
    /// Separate rinse.
    SeparateRinse,
    /// Mixed wash, 40 °C.
    MixedWash40,
}

impl SelectorPosition {
    /// The number that stands for the position in the appliance's memory.
    pub open spec fn repr(self) -> u8 {
        match self {
            SelectorPosition::Finish => 0x00,
            SelectorPosition::Cottons95 => 0x01,
            SelectorPosition::Cottons75 => 0x02,
            SelectorPosition::Cottons60 => 0x03,
            SelectorPosition::Cottons40 => 0x04,
            SelectorPosition::Cottons30 => 0x05,
            SelectorPosition::MinimumIron60 => 0x06,
            SelectorPosition::MinimumIron50 => 0x07,
            SelectorPosition::MinimumIron40 => 0x08,
            SelectorPosition::MinimumIron30 => 0x09,
            SelectorPosition::Delicates40 => 0x0a,
            SelectorPosition::Delicates30 => 0x0b,
            SelectorPosition::DelicatesCold => 0x0c,
            SelectorPosition::Woolens40 => 0x0d,
            SelectorPosition::Woolens30 => 0x0e,
            SelectorPosition::WoolensCold => 0x0f,
            SelectorPosition::QuickWash40 => 0x10,
            SelectorPosition::Starch => 0x11,
            SelectorPosition::Spin => 0x12,
            SelectorPosition::Drain => 0x13,
            SelectorPosition::SeparateRinse => 0x14,
            SelectorPosition::MixedWash40 => 0x15,
        }
    }

    /// The position that `value` stands for, if it stands for one.
    pub open spec fn of_repr(value: u8) -> Option<SelectorPosition> {
        if value == 0x00 {
            Some(SelectorPosition::Finish)
        } else if value == 0x01 {
            Some(SelectorPosition::Cottons95)
        } else if value == 0x02 {
            Some(SelectorPosition::Cottons75)
        } else if value == 0x03 {
            Some(SelectorPosition::Cottons60)
        } else if value == 0x04 {
            Some(SelectorPosition::Cottons40)
        } else if value == 0x05 {
            Some(SelectorPosition::Cottons30)
        } else if value == 0x06 {
            Some(SelectorPosition::MinimumIron60)
        } else if value == 0x07 {
            Some(SelectorPosition::MinimumIron50)
        } else if value == 0x08 {
            Some(SelectorPosition::MinimumIron40)
        } else if value == 0x09 {
            Some(SelectorPosition::MinimumIron30)
        } else if value == 0x0a {
            Some(SelectorPosition::Delicates40)
        } else if value == 0x0b {
            Some(SelectorPosition::Delicates30)
        } else if value == 0x0c {
            Some(SelectorPosition::DelicatesCold)
        } else if value == 0x0d {
            Some(SelectorPosition::Woolens40)
        } else if value == 0x0e {
            Some(SelectorPosition::Woolens30)
        } else if value == 0x0f {
            Some(SelectorPosition::WoolensCold)
        } else if value == 0x10 {
            Some(SelectorPosition::QuickWash40)
        } else if value == 0x11 {
            Some(SelectorPosition::Starch)
        } else if value == 0x12 {
            Some(SelectorPosition::Spin)
        } else if value == 0x13 {
            Some(SelectorPosition::Drain)
        } else if value == 0x14 {
            Some(SelectorPosition::SeparateRinse)
        } else if value == 0x15 {
            Some(SelectorPosition::MixedWash40)
        } else {
            None
        }
    }

    /// The name of the position.
    pub open spec fn name(self) -> Seq<char> {
        match self {
            SelectorPosition::Finish => "Finish"@,
            SelectorPosition::Cottons95 => "Cottons95"@,
            SelectorPosition::Cottons75 => "Cottons75"@,
            SelectorPosition::Cottons60 => "Cottons60"@,
            SelectorPosition::Cottons40 => "Cottons40"@,
            SelectorPosition::Cottons30 => "Cottons30"@,
            SelectorPosition::MinimumIron60 => "MinimumIron60"@,
            SelectorPosition::MinimumIron50 => "MinimumIron50"@,
            SelectorPosition::MinimumIron40 => "MinimumIron40"@,
            SelectorPosition::MinimumIron30 => "MinimumIron30"@,
            SelectorPosition::Delicates40 => "Delicates40"@,
            SelectorPosition::Delicates30 => "Delicates30"@,
            SelectorPosition::DelicatesCold => "DelicatesCold"@,
            SelectorPosition::Woolens40 => "Woolens40"@,
            SelectorPosition::Woolens30 => "Woolens30"@,
            SelectorPosition::WoolensCold => "WoolensCold"@,
            SelectorPosition::QuickWash40 => "QuickWash40"@,
            SelectorPosition::Starch => "Starch"@,
            SelectorPosition::Spin => "Spin"@,
            SelectorPosition::Drain => "Drain"@,
            SelectorPosition::SeparateRinse => "SeparateRinse"@,
            SelectorPosition::MixedWash40 => "MixedWash40"@,
        }
    }

    /// Returns the position that `value` stands for, if it stands for one.
    pub fn from_repr(value: u8) -> (r: Option<SelectorPosition>)
        ensures
            r == Self::of_repr(value),
    {
        match value {
            0x00 => Some(SelectorPosition::Finish),
            0x01 => Some(SelectorPosition::Cottons95),
            0x02 => Some(SelectorPosition::Cottons75),
            0x03 => Some(SelectorPosition::Cottons60),
            0x04 => Some(SelectorPosition::Cottons40),
            0x05 => Some(SelectorPosition::Cottons30),
            0x06 => Some(SelectorPosition::MinimumIron60),
            0x07 => Some(SelectorPosition::MinimumIron50),
            0x08 => Some(SelectorPosition::MinimumIron40),
            0x09 => Some(SelectorPosition::MinimumIron30),
            0x0a => Some(SelectorPosition::Delicates40),
            0x0b => Some(SelectorPosition::Delicates30),
            0x0c => Some(SelectorPosition::DelicatesCold),
            0x0d => Some(SelectorPosition::Woolens40),
            0x0e => Some(SelectorPosition::Woolens30),
            0x0f => Some(SelectorPosition::WoolensCold),
            0x10 => Some(SelectorPosition::QuickWash40),
            0x11 => Some(SelectorPosition::Starch),
            0x12 => Some(SelectorPosition::Spin),
            0x13 => Some(SelectorPosition::Drain),
            0x14 => Some(SelectorPosition::SeparateRinse),
            0x15 => Some(SelectorPosition::MixedWash40),
            _ => None,
        }
    }

    /// Returns the number that stands for the position in the appliance's memory.
    pub fn to_repr(self) -> (r: u8)
        ensures
            r == self.repr(),
    {
        match self {
            SelectorPosition::Finish => 0x00,
            SelectorPosition::Cottons95 => 0x01,
            SelectorPosition::Cottons75 => 0x02,
            SelectorPosition::Cottons60 => 0x03,
            SelectorPosition::Cottons40 => 0x04,
            SelectorPosition::Cottons30 => 0x05,
            SelectorPosition::MinimumIron60 => 0x06,
            SelectorPosition::MinimumIron50 => 0x07,
            SelectorPosition::MinimumIron40 => 0x08,
            SelectorPosition::MinimumIron30 => 0x09,
            SelectorPosition::Delicates40 => 0x0a,
            SelectorPosition::Delicates30 => 0x0b,
            SelectorPosition::DelicatesCold => 0x0c,
            SelectorPosition::Woolens40 => 0x0d,
            SelectorPosition::Woolens30 => 0x0e,
            SelectorPosition::WoolensCold => 0x0f,
            SelectorPosition::QuickWash40 => 0x10,
            SelectorPosition::Starch => 0x11,
            SelectorPosition::Spin => 0x12,
            SelectorPosition::Drain => 0x13,
            SelectorPosition::SeparateRinse => 0x14,
            SelectorPosition::MixedWash40 => 0x15,
        }
    }

    /// Returns the name of the position.
    pub fn to_string(&self) -> (r: String)
        ensures
            r@ == self.name(),
    {
        match self {
            SelectorPosition::Finish => "Finish".to_string(),
            SelectorPosition::Cottons95 => "Cottons95".to_string(),
            SelectorPosition::Cottons75 => "Cottons75".to_string(),
            SelectorPosition::Cottons60 => "Cottons60".to_string(),
            SelectorPosition::Cottons40 => "Cottons40".to_string(),
            SelectorPosition::Cottons30 => "Cottons30".to_string(),
            SelectorPosition::MinimumIron60 => "MinimumIron60".to_string(),
            SelectorPosition::MinimumIron50 => "MinimumIron50".to_string(),
            SelectorPosition::MinimumIron40 => "MinimumIron40".to_string(),
            SelectorPosition::MinimumIron30 => "MinimumIron30".to_string(),
            SelectorPosition::Delicates40 => "Delicates40".to_string(),
            SelectorPosition::Delicates30 => "Delicates30".to_string(),
            SelectorPosition::DelicatesCold => "DelicatesCold".to_string(),
            SelectorPosition::Woolens40 => "Woolens40".to_string(),
            SelectorPosition::Woolens30 => "Woolens30".to_string(),
            SelectorPosition::WoolensCold => "WoolensCold".to_string(),
            SelectorPosition::QuickWash40 => "QuickWash40".to_string(),
            SelectorPosition::Starch => "Starch".to_string(),
            SelectorPosition::Spin => "Spin".to_string(),
            SelectorPosition::Drain => "Drain".to_string(),
            SelectorPosition::SeparateRinse => "SeparateRinse".to_string(),
            SelectorPosition::MixedWash40 => "MixedWash40".to_string(),
        }
    }
}

/// The type of a washing program: what the program is for, whatever its
/// temperature.
#[derive(PartialEq, Eq, Structural, Copy, Clone, Debug)]
pub enum ProgramType {
    /// No program.
    NoProgram,
    /// Cottons.
    Cottons,
    /// Minimum iron.
    MinimumIron,
    /// Delicates.
    Delicates,
    /// Woolens.
    Woolens,
    /// Quick wash.
    QuickWash,
    /// Starch.
    Starch,
    /// Spin.
    Spin,
    /// Drain.
    Drain,
    /// Separate rinse.
    SeparateRinse,
    /// Mixed wash.
    MixedWash,
}

impl ProgramType {
    /// The number that stands for the program type in the appliance's memory.
    pub open spec fn repr(self) -> u8 {
        match self {
            ProgramType::NoProgram => 0x00,
            ProgramType::Cottons => 0x01,
            ProgramType::MinimumIron => 0x02,
            ProgramType::Delicates => 0x03,
            ProgramType::Woolens => 0x04,
            ProgramType::QuickWash => 0x05,
            ProgramType::Starch => 0x06,
            ProgramType::Spin => 0x07,
            ProgramType::Drain => 0x08,
            ProgramType::SeparateRinse => 0x09,
            ProgramType::MixedWash => 0x0a,
        }
    }

    /// The program type that `value` stands for, if it stands for one.
    pub open spec fn of_repr(value: u8) -> Option<ProgramType> {
        if value == 0x00 {
            Some(ProgramType::NoProgram)
        } else if value == 0x01 {
            Some(ProgramType::Cottons)
        } else if value == 0x02 {
            Some(ProgramType::MinimumIron)
        } else if value == 0x03 {
            Some(ProgramType::Delicates)
        } else if value == 0x04 {
            Some(ProgramType::Woolens)
        } else if value == 0x05 {
            Some(ProgramType::QuickWash)
        } else if value == 0x06 {
            Some(ProgramType::Starch)
        } else if value == 0x07 {
            Some(ProgramType::Spin)
        } else if value == 0x08 {
            Some(ProgramType::Drain)
        } else if value == 0x09 {
            Some(ProgramType::SeparateRinse)
        } else if value == 0x0a {
            Some(ProgramType::MixedWash)
        } else {
            None
        }
    }

    /// The name of the program type.
    pub open spec fn name(self) -> Seq<char> {
        match self {
            ProgramType::NoProgram => "None"@,
            ProgramType::Cottons => "Cottons"@,
            ProgramType::MinimumIron => "MinimumIron"@,
            ProgramType::Delicates => "Delicates"@,
            ProgramType::Woolens => "Woolens"@,
            ProgramType::QuickWash => "QuickWash"@,
            ProgramType::Starch => "Starch"@,
            ProgramType::Spin => "Spin"@,
            ProgramType::Drain => "Drain"@,
            ProgramType::SeparateRinse => "SeparateRinse"@,
            ProgramType::MixedWash => "MixedWash"@,
        }
    }

    /// Returns the program type that `value` stands for, if it stands for one.
    pub fn from_repr(value: u8) -> (r: Option<ProgramType>)
        ensures
            r == Self::of_repr(value),
    {
        match value {
            0x00 => Some(ProgramType::NoProgram),
            0x01 => Some(ProgramType::Cottons),
            0x02 => Some(ProgramType::MinimumIron),
            0x03 => Some(ProgramType::Delicates),
            0x04 => Some(ProgramType::Woolens),
            0x05 => Some(ProgramType::QuickWash),
            0x06 => Some(ProgramType::Starch),
            0x07 => Some(ProgramType::Spin),
            0x08 => Some(ProgramType::Drain),
            0x09 => Some(ProgramType::SeparateRinse),
            0x0a => Some(ProgramType::MixedWash),
            _ => None,
        }
    }

    /// Returns the number that stands for the program type in the appliance's memory.
    pub fn to_repr(self) -> (r: u8)
        ensures
            r == self.repr(),
    {
        match self {
            ProgramType::NoProgram => 0x00,
            ProgramType::Cottons => 0x01,
            ProgramType::MinimumIron => 0x02,
            ProgramType::Delicates => 0x03,
            ProgramType::Woolens => 0x04,
            ProgramType::QuickWash => 0x05,
            ProgramType::Starch => 0x06,
            ProgramType::Spin => 0x07,
            ProgramType::Drain => 0x08,
            ProgramType::SeparateRinse => 0x09,
            ProgramType::MixedWash => 0x0a,
        }
    }

    /// Returns the name of the program type.
    pub fn to_string(&self) -> (r: String)
        ensures
            r@ == self.name(),
    {
        match self {
            ProgramType::NoProgram => "None".to_string(),
            ProgramType::Cottons => "Cottons".to_string(),
            ProgramType::MinimumIron => "MinimumIron".to_string(),
            ProgramType::Delicates => "Delicates".to_string(),
            ProgramType::Woolens => "Woolens".to_string(),
            ProgramType::QuickWash => "QuickWash".to_string(),
            ProgramType::Starch => "Starch".to_string(),
            ProgramType::Spin => "Spin".to_string(),
            ProgramType::Drain => "Drain".to_string(),
            ProgramType::SeparateRinse => "SeparateRinse".to_string(),
            ProgramType::MixedWash => "MixedWash".to_string(),
        }
    }
}

/// The options of a washing program. Any of them can be combined.
#[derive(PartialEq, Eq, Structural, Copy, Clone, Debug)]
pub struct ProgramOption {
    bits: u8,
}

impl ProgramOption {
    /// The options with their masks, in the order in which they are written.
    pub open spec fn flags() -> Seq<(Seq<char>, u16)> {
        seq![
            ("Soak"@, 0x10u16),
            ("PreWash"@, 0x20u16),
            ("WaterPlus"@, 0x40u16),
            ("Short"@, 0x80u16),
        ]
    }

    /// The bits of the set.
    pub closed spec fn value(self) -> u8 {
        self.bits
    }

    /// The set with the bits `bits`, if every bit is one of the table.
    pub closed spec fn of_bits(bits: u8) -> Option<ProgramOption> {
        if bits as u16 & !all_bits(Self::flags()) == 0 {
            Some(ProgramOption { bits })
        } else {
            None
        }
    }

    /// The names of the options of the set, separated by `" | "`.
    pub open spec fn text(self) -> Seq<char> {
        flags_text(Self::flags(), self.value() as u16)
    }

    /// The set that `text` names, if it names one.
    pub closed spec fn of_text(text: Seq<char>) -> Option<ProgramOption> {
        match parsed(Self::flags(), text) {
            Some(bits) => Some(ProgramOption { bits: bits as u8 }),
            None => None,
        }
    }

    /// The options with their masks.
    pub fn table() -> (r: &'static [(&'static str, u16)])
        ensures
            table_view(r) == Self::flags(),
    {
        let r: &'static [(&'static str, u16)] = &[
            ("Soak", 0x10),
            ("PreWash", 0x20),
            ("WaterPlus", 0x40),
            ("Short", 0x80),
        ];
        assert(table_view(r) =~= Self::flags());
        r
    }

    /// The set with the bits `bits`. Bits that are none of the table are
    /// refused.
    pub fn from_bits(bits: u8) -> (r: Option<ProgramOption>)
        ensures
            r == Self::of_bits(bits),
            r matches Some(set) ==> set.value() == bits,
            r is Some <==> bits as u16 & !all_bits(Self::flags()) == 0,
    {
        if valid_bits(Self::table(), bits as u16) {
            Some(ProgramOption { bits })
        } else {
            None
        }
    }

    /// The bits of the set.
    pub fn bits(&self) -> (r: u8)
        ensures
            r == self.value(),
    {
        self.bits
    }

    /// The names of the options of the set, separated by `" | "`.
    pub fn to_string(&self) -> (r: String)
        ensures
            r@ == self.text(),
    {
        format_flags(Self::table(), self.bits as u16)
    }

    /// Parses the names of options, separated by `|`, with any white space
    /// around them. A text of white space alone is the empty set.
    pub fn parse(text: &str) -> (r: Option<ProgramOption>)
        ensures
            r == Self::of_text(text@),
            match r {
                Some(set) => parsed(Self::flags(), text@) == Some(set.value() as u16),
                None => parsed(Self::flags(), text@) is None,
            },
    {
        assert(narrow(Self::flags()));
        match parse_flags(Self::table(), text) {
            Some(bits) => Some(ProgramOption { bits: bits as u8 }),
            None => None,
        }
    }
}

/// The spin setting of a washing program.
#[derive(PartialEq, Eq, Structural, Copy, Clone, Debug)]
pub enum SpinSetting {
    /// No spin.
    WithoutSpin,
    /// The water of the last rinse stays in the drum.
    RinseHold,
    /// The lowest speed.
    SpinMin,
    /// A low speed.
    SpinLow,
    /// A medium speed.
    SpinMed,
    /// A high speed.
    SpinHigh,
    /// A very high speed.
    SpinVeryHigh,
    /// The highest speed.
    SpinMax,
}

impl SpinSetting {
    /// The number that stands for the spin setting in the appliance's memory.
    pub open spec fn repr(self) -> u8 {
        match self {
            SpinSetting::WithoutSpin => 0x00,
            SpinSetting::RinseHold => 0x01,
            SpinSetting::SpinMin => 0x02,
            SpinSetting::SpinLow => 0x03,
            SpinSetting::SpinMed => 0x04,
            SpinSetting::SpinHigh => 0x05,
            SpinSetting::SpinVeryHigh => 0x06,
            SpinSetting::SpinMax => 0x07,
        }
    }

    /// The spin setting that `value` stands for, if it stands for one.
    pub open spec fn of_repr(value: u8) -> Option<SpinSetting> {
        if value == 0x00 {
            Some(SpinSetting::WithoutSpin)
        } else if value == 0x01 {
            Some(SpinSetting::RinseHold)
        } else if value == 0x02 {
            Some(SpinSetting::SpinMin)
        } else if value == 0x03 {
            Some(SpinSetting::SpinLow)
        } else if value == 0x04 {
            Some(SpinSetting::SpinMed)
        } else if value == 0x05 {
            Some(SpinSetting::SpinHigh)
        } else if value == 0x06 {
            Some(SpinSetting::SpinVeryHigh)
        } else if value == 0x07 {
            Some(SpinSetting::SpinMax)
        } else {
            None
        }
    }

    /// The name of the spin setting.
    pub open spec fn name(self) -> Seq<char> {
        match self {
            SpinSetting::WithoutSpin => "WithoutSpin"@,
            SpinSetting::RinseHold => "RinseHold"@,
            SpinSetting::SpinMin => "SpinMin"@,
            SpinSetting::SpinLow => "SpinLow"@,
            SpinSetting::SpinMed => "SpinMed"@,
            SpinSetting::SpinHigh => "SpinHigh"@,
            SpinSetting::SpinVeryHigh => "SpinVeryHigh"@,
            SpinSetting::SpinMax => "SpinMax"@,
        }
    }

    /// The names of every spin setting, in the order of their numbers.
    pub open spec fn names() -> Seq<Seq<char>> {
        seq![
            "WithoutSpin"@,
            "RinseHold"@,
            "SpinMin"@,
            "SpinLow"@,
            "SpinMed"@,
            "SpinHigh"@,
            "SpinVeryHigh"@,
            "SpinMax"@,
        ]
    }

    /// The spin setting with the name `text`, if there is one. Names are compared
    /// letter for letter.
    pub open spec fn of_name(text: Seq<char>) -> Option<SpinSetting> {
        if text == "WithoutSpin"@ {
            Some(SpinSetting::WithoutSpin)
        } else if text == "RinseHold"@ {
            Some(SpinSetting::RinseHold)
        } else if text == "SpinMin"@ {
            Some(SpinSetting::SpinMin)
        } else if text == "SpinLow"@ {
            Some(SpinSetting::SpinLow)
        } else if text == "SpinMed"@ {
            Some(SpinSetting::SpinMed)
        } else if text == "SpinHigh"@ {
            Some(SpinSetting::SpinHigh)
        } else if text == "SpinVeryHigh"@ {
            Some(SpinSetting::SpinVeryHigh)
        } else if text == "SpinMax"@ {
            Some(SpinSetting::SpinMax)
        } else {
            None
        }
    }

    /// Returns the spin setting that `value` stands for, if it stands for one.
    pub fn from_repr(value: u8) -> (r: Option<SpinSetting>)
        ensures
            r == Self::of_repr(value),
    {
        match value {
            0x00 => Some(SpinSetting::WithoutSpin),
            0x01 => Some(SpinSetting::RinseHold),
            0x02 => Some(SpinSetting::SpinMin),
            0x03 => Some(SpinSetting::SpinLow),
            0x04 => Some(SpinSetting::SpinMed),
            0x05 => Some(SpinSetting::SpinHigh),
            0x06 => Some(SpinSetting::SpinVeryHigh),
            0x07 => Some(SpinSetting::SpinMax),
            _ => None,
        }
    }

    /// Returns the number that stands for the spin setting in the appliance's memory.
    pub fn to_repr(self) -> (r: u8)
        ensures
            r == self.repr(),
    {
        match self {
            SpinSetting::WithoutSpin => 0x00,
            SpinSetting::RinseHold => 0x01,
            SpinSetting::SpinMin => 0x02,
            SpinSetting::SpinLow => 0x03,
            SpinSetting::SpinMed => 0x04,
            SpinSetting::SpinHigh => 0x05,
            SpinSetting::SpinVeryHigh => 0x06,
            SpinSetting::SpinMax => 0x07,
        }
    }

    /// Returns the name of the spin setting.
    pub fn to_string(&self) -> (r: String)
        ensures
            r@ == self.name(),
    {
        match self {
            SpinSetting::WithoutSpin => "WithoutSpin".to_string(),
            SpinSetting::RinseHold => "RinseHold".to_string(),
            SpinSetting::SpinMin => "SpinMin".to_string(),
            SpinSetting::SpinLow => "SpinLow".to_string(),
            SpinSetting::SpinMed => "SpinMed".to_string(),
            SpinSetting::SpinHigh => "SpinHigh".to_string(),
            SpinSetting::SpinVeryHigh => "SpinVeryHigh".to_string(),
            SpinSetting::SpinMax => "SpinMax".to_string(),
        }
    }

    /// The names of every spin setting, in the order of their numbers.
    pub fn variants() -> (r: &'static [&'static str])
        ensures
            texts(r) == Self::names(),
    {
        let r: &'static [&'static str] = &[
            "WithoutSpin",
            "RinseHold",
            "SpinMin",
            "SpinLow",
            "SpinMed",
            "SpinHigh",
            "SpinVeryHigh",
            "SpinMax",
        ];
        assert(texts(r) =~= Self::names());
        r
    }

    /// Returns the spin setting with the name `text`, if there is one.
    pub fn from_name(text: &str) -> (r: Option<SpinSetting>)
        ensures
            r == Self::of_name(text@),
    {
        if same_text(text, "WithoutSpin") {
            Some(SpinSetting::WithoutSpin)
        } else if same_text(text, "RinseHold") {
            Some(SpinSetting::RinseHold)
        } else if same_text(text, "SpinMin") {
            Some(SpinSetting::SpinMin)
        } else if same_text(text, "SpinLow") {
            Some(SpinSetting::SpinLow)
        } else if same_text(text, "SpinMed") {
            Some(SpinSetting::SpinMed)
        } else if same_text(text, "SpinHigh") {
            Some(SpinSetting::SpinHigh)
        } else if same_text(text, "SpinVeryHigh") {
            Some(SpinSetting::SpinVeryHigh)
        } else if same_text(text, "SpinMax") {
            Some(SpinSetting::SpinMax)
        } else {
            None
        }
    }
}

/// The phase of a washing program. A program need not go through every phase,
/// nor in this order.
#[derive(PartialEq, Eq, Structural, Copy, Clone, Debug)]
pub enum ProgramPhase {
    /// No program has started.
    Idle,
    /// The program waits for its start time.
    DelayedStart,
    /// Soak or pre-wash, first part.
    SoakPreWash1,
    /// Soak or pre-wash, second part.
    SoakPreWash2,
    /// Main wash.
    MainWash,
    /// First rinse.
    Rinse1,
    /// Second rinse.
    Rinse2,
    /// Third rinse.
    Rinse3,
    /// Fourth rinse.
    Rinse4,
    /// Fifth rinse.
    Rinse5,
    /// Rinse hold.
    RinseHold,
    /// Drain.
    Drain,
    /// Final spin.
    FinalSpin,
    /// Anti-crease, or the end of the program.
    AntiCreaseFinish,
}

impl ProgramPhase {
    /// The number that stands for the phase in the appliance's memory.
    pub open spec fn repr(self) -> u8 {
        match self {
            ProgramPhase::Idle => 0x00,
            ProgramPhase::DelayedStart => 0x01,
            ProgramPhase::SoakPreWash1 => 0x02,
            ProgramPhase::SoakPreWash2 => 0x03,
            ProgramPhase::MainWash => 0x04,
            ProgramPhase::Rinse1 => 0x05,
            ProgramPhase::Rinse2 => 0x06,
            ProgramPhase::Rinse3 => 0x07,
            ProgramPhase::Rinse4 => 0x08,
            ProgramPhase::Rinse5 => 0x09,
            ProgramPhase::RinseHold => 0x0a,
            ProgramPhase::Drain => 0x0b,
            ProgramPhase::FinalSpin => 0x0c,
            ProgramPhase::AntiCreaseFinish => 0x0d,
        }
    }

    /// The phase that `value` stands for, if it stands for one.
    pub open spec fn of_repr(value: u8) -> Option<ProgramPhase> {
        if value == 0x00 {
            Some(ProgramPhase::Idle)
        } else if value == 0x01 {
            Some(ProgramPhase::DelayedStart)
        } else if value == 0x02 {
            Some(ProgramPhase::SoakPreWash1)
        } else if value == 0x03 {
            Some(ProgramPhase::SoakPreWash2)
        } else if value == 0x04 {
            Some(ProgramPhase::MainWash)
        } else if value == 0x05 {
            Some(ProgramPhase::Rinse1)
        } else if value == 0x06 {
            Some(ProgramPhase::Rinse2)
        } else if value == 0x07 {
            Some(ProgramPhase::Rinse3)
        } else if value == 0x08 {
            Some(ProgramPhase::Rinse4)
        } else if value == 0x09 {
            Some(ProgramPhase::Rinse5)
        } else if value == 0x0a {
            Some(ProgramPhase::RinseHold)
        } else if value == 0x0b {
            Some(ProgramPhase::Drain)
        } else if value == 0x0c {
            Some(ProgramPhase::FinalSpin)
        } else if value == 0x0d {
            Some(ProgramPhase::AntiCreaseFinish)
        } else {
            None
        }
    }

    /// The name of the phase.
    pub open spec fn name(self) -> Seq<char> {
        match self {
            ProgramPhase::Idle => "Idle"@,
            ProgramPhase::DelayedStart => "DelayedStart"@,
            ProgramPhase::SoakPreWash1 => "SoakPreWash1"@,
            ProgramPhase::SoakPreWash2 => "SoakPreWash2"@,
            ProgramPhase::MainWash => "MainWash"@,
            ProgramPhase::Rinse1 => "Rinse1"@,
            ProgramPhase::Rinse2 => "Rinse2"@,
            ProgramPhase::Rinse3 => "Rinse3"@,
            ProgramPhase::Rinse4 => "Rinse4"@,
            ProgramPhase::Rinse5 => "Rinse5"@,
            ProgramPhase::RinseHold => "RinseHold"@,
            ProgramPhase::Drain => "Drain"@,
            ProgramPhase::FinalSpin => "FinalSpin"@,
            ProgramPhase::AntiCreaseFinish => "AntiCreaseFinish"@,
        }
    }

    /// Returns the phase that `value` stands for, if it stands for one.
    pub fn from_repr(value: u8) -> (r: Option<ProgramPhase>)
        ensures
            r == Self::of_repr(value),
    {
        match value {
            0x00 => Some(ProgramPhase::Idle),
            0x01 => Some(ProgramPhase::DelayedStart),
            0x02 => Some(ProgramPhase::SoakPreWash1),
            0x03 => Some(ProgramPhase::SoakPreWash2),
            0x04 => Some(ProgramPhase::MainWash),
            0x05 => Some(ProgramPhase::Rinse1),
            0x06 => Some(ProgramPhase::Rinse2),
            0x07 => Some(ProgramPhase::Rinse3),
            0x08 => Some(ProgramPhase::Rinse4),
            0x09 => Some(ProgramPhase::Rinse5),
            0x0a => Some(ProgramPhase::RinseHold),
            0x0b => Some(ProgramPhase::Drain),
            0x0c => Some(ProgramPhase::FinalSpin),
            0x0d => Some(ProgramPhase::AntiCreaseFinish),
            _ => None,
        }
    }

    /// Returns the number that stands for the phase in the appliance's memory.
    pub fn to_repr(self) -> (r: u8)
        ensures
            r == self.repr(),
    {
        match self {
            ProgramPhase::Idle => 0x00,
            ProgramPhase::DelayedStart => 0x01,
            ProgramPhase::SoakPreWash1 => 0x02,
            ProgramPhase::SoakPreWash2 => 0x03,
            ProgramPhase::MainWash => 0x04,
            ProgramPhase::Rinse1 => 0x05,
            ProgramPhase::Rinse2 => 0x06,
            ProgramPhase::Rinse3 => 0x07,
            ProgramPhase::Rinse4 => 0x08,
            ProgramPhase::Rinse5 => 0x09,
            ProgramPhase::RinseHold => 0x0a,
            ProgramPhase::Drain => 0x0b,
            ProgramPhase::FinalSpin => 0x0c,
            ProgramPhase::AntiCreaseFinish => 0x0d,
        }
    }

    /// Returns the name of the phase.
    pub fn to_string(&self) -> (r: String)
        ensures
            r@ == self.name(),
    {
        match self {
            ProgramPhase::Idle => "Idle".to_string(),
            ProgramPhase::DelayedStart => "DelayedStart".to_string(),
            ProgramPhase::SoakPreWash1 => "SoakPreWash1".to_string(),
            ProgramPhase::SoakPreWash2 => "SoakPreWash2".to_string(),
            ProgramPhase::MainWash => "MainWash".to_string(),
            ProgramPhase::Rinse1 => "Rinse1".to_string(),
            ProgramPhase::Rinse2 => "Rinse2".to_string(),
            ProgramPhase::Rinse3 => "Rinse3".to_string(),
            ProgramPhase::Rinse4 => "Rinse4".to_string(),
            ProgramPhase::Rinse5 => "Rinse5".to_string(),
            ProgramPhase::RinseHold => "RinseHold".to_string(),
            ProgramPhase::Drain => "Drain".to_string(),
            ProgramPhase::FinalSpin => "FinalSpin".to_string(),
            ProgramPhase::AntiCreaseFinish => "AntiCreaseFinish".to_string(),
        }
    }
}

/// The actuators of the machine that are switched on. Several can be on at
/// once.
#[derive(PartialEq, Eq, Structural, Copy, Clone, Debug)]
pub struct Actuator {
    bits: u16,
}

impl Actuator {
    /// The actuators with their masks, in the order in which they are written.
    pub open spec fn flags() -> Seq<(Seq<char>, u16)> {
        seq![
            ("FieldSwitch"@, 0x0001u16),
            ("DrainPump"@, 0x0002u16),
            ("PwmShortCircuit"@, 0x0008u16),
            ("Reverse"@, 0x0010u16),
            ("Heater"@, 0x0020u16),
            ("Softener"@, 0x0040u16),
            ("PreWash"@, 0x0080u16),
            ("RelayEconomizer"@, 0x0100u16),
            ("MainWash"@, 0x2000u16),
            ("WarmWater"@, 0x4000u16),
        ]
    }

    /// The bits of the set.
    pub closed spec fn value(self) -> u16 {
        self.bits
    }

    /// The set with the bits `bits`, if every bit is one of the table.
    pub closed spec fn of_bits(bits: u16) -> Option<Actuator> {
        if bits & !all_bits(Self::flags()) == 0 {
            Some(Actuator { bits })
        } else {
            None
        }
    }

    /// The names of the actuators of the set, separated by `" | "`.
    pub open spec fn text(self) -> Seq<char> {
        flags_text(Self::flags(), self.value() as u16)
    }

    /// The actuators with their masks.
    pub fn table() -> (r: &'static [(&'static str, u16)])
        ensures
            table_view(r) == Self::flags(),
    {
        let r: &'static [(&'static str, u16)] = &[
            ("FieldSwitch", 0x0001),
            ("DrainPump", 0x0002),
            ("PwmShortCircuit", 0x0008),
            ("Reverse", 0x0010),
            ("Heater", 0x0020),
            ("Softener", 0x0040),
            ("PreWash", 0x0080),
            ("RelayEconomizer", 0x0100),
            ("MainWash", 0x2000),
            ("WarmWater", 0x4000),
        ];
        assert(table_view(r) =~= Self::flags());
        r
    }

    /// The set with the bits `bits`. Bits that are none of the table are
    /// refused.
    pub fn from_bits(bits: u16) -> (r: Option<Actuator>)
        ensures
            r == Self::of_bits(bits),
            r matches Some(set) ==> set.value() == bits,
            r is Some <==> bits & !all_bits(Self::flags()) == 0,
    {
        if valid_bits(Self::table(), bits) {
            Some(Actuator { bits })
        } else {
            None
        }
    }

    /// The bits of the set.
    pub fn bits(&self) -> (r: u16)
        ensures
            r == self.value(),
    {
        self.bits
    }

    /// The names of the actuators of the set, separated by `" | "`.
    pub fn to_string(&self) -> (r: String)
        ensures
            r@ == self.text(),
    {
        format_flags(Self::table(), self.bits)
    }
}

/// The properties of the machine, in the order in which it lists them.
pub open spec fn property_list() -> Seq<PropertyView> {
    seq![
        PropertyView {
            kind: PropertyKind::General,
            id: "rom_code"@,
            name: "ROM Code"@,
            unit: None,
        },
        PropertyView {
            kind: PropertyKind::General,
            id: "operating_time"@,
            name: "Operating Time"@,
            unit: None,
        },
        PropertyView {
            kind: PropertyKind::Operation,
            id: "operating_mode"@,
            name: "Operating Mode"@,
            unit: None,
        },
        PropertyView {
            kind: PropertyKind::Operation,
            id: "program_selector"@,
            name: "Program Selector"@,
            unit: None,
        },
        PropertyView {
            kind: PropertyKind::Operation,
            id: "program_type"@,
            name: "Program Type"@,
            unit: None,
        },
        PropertyView {
            kind: PropertyKind::Operation,
            id: "program_temperature"@,
            name: "Program Temperature"@,
            unit: Some("\u{b0}C"@),
        },
        PropertyView {
            kind: PropertyKind::Operation,
            id: "program_options"@,
            name: "Program Options"@,
            unit: None,
        },
        PropertyView {
            kind: PropertyKind::Operation,
            id: "buzzer_enabled"@,
            name: "Buzzer Enabled"@,
            unit: None,
        },
        PropertyView {
            kind: PropertyKind::Operation,
            id: "program_spin_setting"@,
            name: "Program Spin Setting"@,
            unit: None,
        },
        PropertyView {
            kind: PropertyKind::Operation,
            id: "program_spin_speed"@,
            name: "Program Spin Speed"@,
            unit: Some("rpm"@),
        },
        PropertyView {
            kind: PropertyKind::Operation,
            id: "program_phase"@,
            name: "Program Phase"@,
            unit: None,
        },
        PropertyView {
            kind: PropertyKind::Operation,
            id: "program_locked"@,
            name: "Program Locked"@,
            unit: None,
        },
        PropertyView {
            kind: PropertyKind::Operation,
            id: "load_level"@,
            name: "Load Level"@,
            unit: None,
        },
        PropertyView {
            kind: PropertyKind::Operation,
            id: "display_contents"@,
            name: "Display Contents"@,
            unit: None,
        },
        PropertyView {
            kind: PropertyKind::Io,
            id: "active_actuators"@,
            name: "Active Actuators"@,
            unit: None,
        },
        PropertyView {
            kind: PropertyKind::Io,
            id: "ntc_resistance"@,
            name: "NTC Resistance"@,
            unit: Some("\u{3a9}"@),
        },
        PropertyView {
            kind: PropertyKind::Io,
            id: "temperature"@,
            name: "Temperature"@,
            unit: Some("\u{b0}C"@),
        },
        PropertyView {
            kind: PropertyKind::Io,
            id: "water_level"@,
            name: "Water Level"@,
            unit: Some("mmH\u{2082}O"@),
        },
        PropertyView {
            kind: PropertyKind::Io,
            id: "motor_pwm_duty_cycle"@,
            name: "Motor PWM Duty Cycle"@,
            unit: Some("%"@),
        },
        PropertyView {
            kind: PropertyKind::Io,
            id: "tachometer_speed"@,
            name: "Tachometer Speed"@,
            unit: Some("rpm"@),
        },
    ]
}

/// The actions of the machine, in the order in which it lists them.
pub open spec fn action_list() -> Seq<ActionView> {
    seq![
        ActionView {
            kind: ActionKind::Operation,
            id: "set_program_options"@,
            name: "Set Program Options"@,
            params: Some(ParametersView::Flags(seq!["Soak"@, "PreWash"@, "WaterPlus"@, "Short"@])),
        },
        ActionView {
            kind: ActionKind::Operation,
            id: "set_program_spin_setting"@,
            name: "Set Program Spin Setting"@,
            params: Some(ParametersView::Enumeration(SpinSetting::names())),
        },
        ActionView {
            kind: ActionKind::Operation,
            id: "start_program"@,
            name: "Start Program"@,
            params: None,
        },
    ]
}

/// The table of the machine's properties.
pub fn property_table() -> (r: &'static [Property])
    ensures
        properties_view(r) == property_list(),
{
    let r: &'static [Property] = &[
        Property {
            kind: PropertyKind::General,
            id: "rom_code",
            name: "ROM Code",
            unit: None,
        },
        Property {
            kind: PropertyKind::General,
            id: "operating_time",
            name: "Operating Time",
            unit: None,
        },
        Property {
            kind: PropertyKind::Operation,
            id: "operating_mode",
            name: "Operating Mode",
            unit: None,
        },
        Property {
            kind: PropertyKind::Operation,
            id: "program_selector",
            name: "Program Selector",
            unit: None,
        },
        Property {
            kind: PropertyKind::Operation,
            id: "program_type",
            name: "Program Type",
            unit: None,
        },
        Property {
            kind: PropertyKind::Operation,
            id: "program_temperature",
            name: "Program Temperature",
            unit: Some("\u{b0}C"),
        },
        Property {
            kind: PropertyKind::Operation,
            id: "program_options",
            name: "Program Options",
            unit: None,
        },
        Property {
            kind: PropertyKind::Operation,
            id: "buzzer_enabled",
            name: "Buzzer Enabled",
            unit: None,
        },
        Property {
            kind: PropertyKind::Operation,
            id: "program_spin_setting",
            name: "Program Spin Setting",
            unit: None,
        },
        Property {
            kind: PropertyKind::Operation,
            id: "program_spin_speed",
            name: "Program Spin Speed",
            unit: Some("rpm"),
        },
        Property {
            kind: PropertyKind::Operation,
            id: "program_phase",
            name: "Program Phase",
            unit: None,
        },
        Property {
            kind: PropertyKind::Operation,
            id: "program_locked",
            name: "Program Locked",
            unit: None,
        },
        Property {
            kind: PropertyKind::Operation,
            id: "load_level",
            name: "Load Level",
            unit: None,
        },
        Property {
            kind: PropertyKind::Operation,
            id: "display_contents",
            name: "Display Contents",
            unit: None,
        },
        Property {
            kind: PropertyKind::Io,
            id: "active_actuators",
            name: "Active Actuators",
            unit: None,
        },
        Property {
            kind: PropertyKind::Io,
            id: "ntc_resistance",
            name: "NTC Resistance",
            unit: Some("\u{3a9}"),
        },
        Property {
            kind: PropertyKind::Io,
            id: "temperature",
            name: "Temperature",
            unit: Some("\u{b0}C"),
        },
        Property {
            kind: PropertyKind::Io,
            id: "water_level",
            name: "Water Level",
            unit: Some("mmH\u{2082}O"),
        },
        Property {
            kind: PropertyKind::Io,
            id: "motor_pwm_duty_cycle",
            name: "Motor PWM Duty Cycle",
            unit: Some("%"),
        },
        Property {
            kind: PropertyKind::Io,
            id: "tachometer_speed",
            name: "Tachometer Speed",
            unit: Some("rpm"),
        },
    ];
    assert(properties_view(r) =~= property_list());
    r
}

/// The table of the machine's actions.
pub fn action_table() -> (r: &'static [Action])
    ensures
        actions_view(r) == action_list(),
{
    let r: &'static [Action] = &[
        Action {
            kind: ActionKind::Operation,
            id: "set_program_options",
            name: "Set Program Options",
            params: Some(ActionParameters::Flags(&["Soak", "PreWash", "WaterPlus", "Short"])),
        },
        Action {
            kind: ActionKind::Operation,
            id: "set_program_spin_setting",
            name: "Set Program Spin Setting",
            params: Some(
                ActionParameters::Enumeration(
                    &[
                        "WithoutSpin",
                        "RinseHold",
                        "SpinMin",
                        "SpinLow",
                        "SpinMed",
                        "SpinHigh",
                        "SpinVeryHigh",
                        "SpinMax",
                    ],
                ),
            ),
        },
        Action {
            kind: ActionKind::Operation,
            id: "start_program",
            name: "Start Program",
            params: None,
        },
    ];
    assert(
        texts(r@[0].params->Some_0->Flags_0) =~= seq!["Soak"@, "PreWash"@, "WaterPlus"@, "Short"@]
    );
    assert(texts(r@[1].params->Some_0->Enumeration_0) =~= SpinSetting::names());
    assert(actions_view(r) =~= action_list());
    r
}

/// No two properties of the machine have the same identifier, and no two of
/// its actions have.
pub proof fn ids_are_unique()
    ensures
        forall|i: int, j: int|
            0 <= i < j < property_list().len() ==> property_list()[i].id != property_list()[j].id,
        forall|i: int, j: int|
            0 <= i < j < action_list().len() ==> action_list()[i].id != action_list()[j].id,
{
    reveal_strlit("rom_code");
    reveal_strlit("operating_time");
    reveal_strlit("operating_mode");
    reveal_strlit("program_selector");
    reveal_strlit("program_type");
    reveal_strlit("program_temperature");
    reveal_strlit("program_options");
    reveal_strlit("buzzer_enabled");
    reveal_strlit("program_spin_setting");
    reveal_strlit("program_spin_speed");
    reveal_strlit("program_phase");
    reveal_strlit("program_locked");
    reveal_strlit("load_level");
    reveal_strlit("display_contents");
    reveal_strlit("active_actuators");
    reveal_strlit("ntc_resistance");
    reveal_strlit("temperature");
    reveal_strlit("water_level");
    reveal_strlit("motor_pwm_duty_cycle");
    reveal_strlit("tachometer_speed");
    reveal_strlit("set_program_options");
    reveal_strlit("set_program_spin_setting");
    reveal_strlit("start_program");
    assert(property_list()[0].id.len() == 8);
    assert(property_list()[1].id.len() == 14);
    assert(property_list()[1].id[0] == 'o');
    assert(property_list()[1].id[10] == 't');
    assert(property_list()[2].id.len() == 14);
    assert(property_list()[2].id[0] == 'o');
    assert(property_list()[2].id[10] == 'm');
    assert(property_list()[3].id.len() == 16);
    assert(property_list()[3].id[0] == 'p');
    assert(property_list()[4].id.len() == 12);
    assert(property_list()[5].id.len() == 19);
    assert(property_list()[6].id.len() == 15);
    assert(property_list()[7].id.len() == 14);
    assert(property_list()[7].id[0] == 'b');
    assert(property_list()[8].id.len() == 20);
    assert(property_list()[8].id[0] == 'p');
    assert(property_list()[9].id.len() == 18);
    assert(property_list()[10].id.len() == 13);
    assert(property_list()[11].id.len() == 14);
    assert(property_list()[11].id[0] == 'p');
    assert(property_list()[12].id.len() == 10);
    assert(property_list()[13].id.len() == 16);
    assert(property_list()[13].id[0] == 'd');
    assert(property_list()[14].id.len() == 16);
    assert(property_list()[14].id[0] == 'a');
    assert(property_list()[15].id.len() == 14);
    assert(property_list()[15].id[0] == 'n');
    assert(property_list()[16].id.len() == 11);
    assert(property_list()[16].id[0] == 't');
    assert(property_list()[17].id.len() == 11);
    assert(property_list()[17].id[0] == 'w');
    assert(property_list()[18].id.len() == 20);
    assert(property_list()[18].id[0] == 'm');
    assert(property_list()[19].id.len() == 16);
    assert(property_list()[19].id[0] == 't');
    assert(action_list()[0].id.len() == 19);
    assert(action_list()[1].id.len() == 24);
    assert(action_list()[2].id.len() == 13);
}

/// A washing machine with software ID 324.
pub struct WashingMachine<P> {
    intf: Interface<P>,
    software_id: u16,
}

impl<P: Port> WashingMachine<P> {
    /// The state of the diagnostic interface.
    pub closed spec fn intf(&self) -> Interface<P> {
        self.intf
    }

    /// The software ID that the machine reported.
    pub closed spec fn id(&self) -> u16 {
        self.software_id
    }

    /// The machine can be talked to.
    pub open spec fn wf(&self) -> bool {
        self.intf().wf()
    }

    /// Whether `after` is this machine, still usable if it was.
    pub open spec fn kept(self, after: Self) -> bool {
        &&& after.id() == self.id()
        &&& self.wf() ==> after.wf()
    }

    /// Whether the driver knows appliances with the software ID `id`.
    pub open spec fn supports(id: u16) -> bool {
        id == SOFTWARE_ID
    }

    /// The write that ends the unlock sequence: this driver needs none.
    pub open spec fn last_write() -> Option<(u32, u8)> {
        None
    }

    /// What the unlock sequence puts on the wire when it succeeds.
    pub open spec fn handshake(chunk: nat) -> Wire {
        unlocking(READ_KEY, FULL_KEY, Self::last_write(), chunk, false)
    }

    /// Whether `dev` is a machine after a connection that succeeded: the
    /// software ID was asked for and is one that the driver knows, the unlock
    /// sequence went through, and nothing else has crossed the wire.
    pub open spec fn connected(dev: Self) -> bool {
        &&& dev.wf()
        &&& Self::supports(dev.id())
        &&& dev.intf().dummy_bytes() == false
        &&& dev.intf().chunk_size() == 4
        &&& dev.intf().wire() == identifying(dev.id()).followed_by(Self::handshake(4))
    }

    /// Whether the unlocking of a machine that has reported the software ID
    /// `software_id`, started in the state `start` of the interface, has
    /// ended with the result `r`. Where the unlock sequence goes through, the
    /// result is the device; where it fails, the result is that failure.
    pub open spec fn initialized(
        start: Interface<P>,
        software_id: u16,
        r: Result<Self, Error<P::Error>>,
    ) -> bool {
        exists|after: Interface<P>, done: Result<(), Error<P::Error>>|
            {
                &&& #[trigger] unlocked(
                    start,
                    after,
                    READ_KEY,
                    FULL_KEY,
                    Self::last_write(),
                    done,
                )
                &&& match done {
                    Ok(()) => r is Ok && r->Ok_0.intf() == after && r->Ok_0.id() == software_id,
                    Err(e) => r is Err && r->Err_0 == e,
                }
            }
    }

    /// Whether a connection to the appliance behind `port` has ended with the
    /// result `r`. The appliance is asked for its software ID on a new
    /// interface. Where the driver knows the ID, the machine is unlocked;
    /// where it does not, the result is [`Error::UnknownSoftwareId`] with
    /// that ID.
    pub open spec fn connecting(port: P, r: Result<Self, Error<P::Error>>) -> bool {
        exists|asked: Interface<P>, id: Result<u16, ProtocolError<P::Error>>|
            {
                &&& #[trigger] Interface::fresh(port).software_id_queried(asked, id)
                &&& match id {
                    Ok(id) => if Self::supports(id) {
                        Self::initialized(asked, id, r)
                    } else {
                        r is Err && r->Err_0 == Error::<P::Error>::UnknownSoftwareId(id)
                    },
                    Err(e) => r is Err && r->Err_0 == Error::Protocol(e),
                }
            }
    }

    /// Unlocks the diagnostic interface of a machine that has reported the
    /// software ID `software_id`.
    pub(crate) fn initialize(intf: Interface<P>, software_id: u16) -> (r: Result<
        Self,
        Error<P::Error>,
    >)
        requires
            intf.wf(),
            !intf.dummy_bytes(),
        ensures
            Self::initialized(intf, software_id, r),
            match r {
                Ok(dev) => {
                    &&& dev.wf()
                    &&& dev.id() == software_id
                    &&& dev.intf().dummy_bytes() == false
                    &&& dev.intf().chunk_size() == intf.chunk_size()
                    &&& dev.intf().wire() == intf.wire().followed_by(
                        Self::handshake(intf.chunk_size()),
                    )
                },
                Err(e) => e is Protocol,
            },
    {
        let mut intf = intf;
        let ghost ready = intf;
        let done = unlock(&mut intf, READ_KEY, FULL_KEY, None);
        proof {
            lemma_unlocked(ready, intf, READ_KEY, FULL_KEY, Self::last_write(), done);
        }
        match done {
            Ok(()) => Ok(WashingMachine { intf, software_id }),
            Err(e) => Err(e),
        }
    }

    /// Whether a query of the ROM code, started in this state, has ended in
    /// the state `after` with the result `out`.
    pub open spec fn rom_code_queried(self, after: Self, out: Result<u8, Error<P::Error>>) -> bool {
        &&& self.kept(after)
        &&& memory_decoded::<P, u8, u8, 1>(
            self.intf(),
            after.intf(),
            0xffdf,
            |raw: u8| fine(raw),
            out,
        )
    }

    /// Queries the ROM code of the microcontroller, a small number.
    pub fn query_rom_code(&mut self) -> (r: Result<u8, Error<P::Error>>)
        requires
            old(self).wf(),
        ensures
            (*old(self)).rom_code_queried(*final(self), r),
    {
        match self.intf.read_memory::<u8, 1>(0xffdf) {
            Ok(raw) => Ok(raw),
            Err(e) => Err(Error::Protocol(e)),
        }
    }

    /// Whether a query of the operating time, started in this state, has
    /// ended in the state `after` with the result `out`.
    pub open spec fn operating_time_queried(
        self,
        after: Self,
        out: Result<Duration, Error<P::Error>>,
    ) -> bool {
        &&& self.kept(after)
        &&& memory_decoded::<P, u32, Duration, 4>(
            self.intf(),
            after.intf(),
            0x0010,
            |raw: u32| fine(duration_of_secs(operating_seconds(raw))),
            out,
        )
    }

    /// Queries the time for which the appliance has run programs.
    ///
    /// The appliance counts minutes and hours; the hours are kept as packed
    /// decimal digits.
    pub fn query_operating_time(&mut self) -> (r: Result<Duration, Error<P::Error>>)
        requires
            old(self).wf(),
        ensures
            (*old(self)).operating_time_queried(*final(self), r),
    {
        match self.intf.read_memory::<u32, 4>(0x0010) {
            Ok(raw) => Ok(decode_operating_time(raw)),
            Err(e) => Err(Error::Protocol(e)),
        }
    }

    /// Whether a query of the faults on record, started in this state, has
    /// ended in the state `after` with the result `out`.
    pub open spec fn stored_faults_queried(
        self,
        after: Self,
        out: Result<Fault, Error<P::Error>>,
    ) -> bool {
        &&& self.kept(after)
        &&& memory_decoded::<P, u16, Fault, 2>(
            self.intf(),
            after.intf(),
            0x000e,
            |raw: u16| known(Fault::of_bits(raw & 0x01ff)),
            out,
        )
    }

    /// Queries the faults on record. The machine keeps them when it is
    /// switched off. Of the two bytes read, the lower nine bits are faults.
    pub fn query_stored_faults(&mut self) -> (r: Result<Fault, Error<P::Error>>)
        requires
            old(self).wf(),
        ensures
            (*old(self)).stored_faults_queried(*final(self), r),
    {
        match self.intf.read_memory::<u16, 2>(0x000e) {
            Ok(raw) => require_known(Fault::from_bits(raw & 0x01ff)),
            Err(e) => Err(Error::Protocol(e)),
        }
    }

    /// Whether a query of the operating mode, started in this state, has
    /// ended in the state `after` with the result `out`.
    pub open spec fn operating_mode_queried(
        self,
        after: Self,
        out: Result<OperatingMode, Error<P::Error>>,
    ) -> bool {
        &&& self.kept(after)
        &&& memory_decoded::<P, u8, OperatingMode, 1>(
            self.intf(),
            after.intf(),
            0x0089,
            |raw: u8| known(OperatingMode::of_repr(raw)),
            out,
        )
    }

    /// Queries the operating mode.
    pub fn query_operating_mode(&mut self) -> (r: Result<OperatingMode, Error<P::Error>>)
        requires
            old(self).wf(),
        ensures
            (*old(self)).operating_mode_queried(*final(self), r),
    {
        match self.intf.read_memory::<u8, 1>(0x0089) {
            Ok(raw) => require_known(OperatingMode::from_repr(raw)),
            Err(e) => Err(Error::Protocol(e)),
        }
    }

    /// Whether a query of the position of the program selector, started in
    /// this state, has ended in the state `after` with the result `out`.
    pub open spec fn program_selector_queried(
        self,
        after: Self,
        out: Result<SelectorPosition, Error<P::Error>>,
    ) -> bool {
        &&& self.kept(after)
        &&& memory_decoded::<P, u8, SelectorPosition, 1>(
            self.intf(),
            after.intf(),
            0x0071,
            |raw: u8| known(SelectorPosition::of_repr(raw)),
            out,
        )
    }

    /// Queries the position of the program selector.
    pub fn query_program_selector(&mut self) -> (r: Result<SelectorPosition, Error<P::Error>>)
        requires
            old(self).wf(),
        ensures
            (*old(self)).program_selector_queried(*final(self), r),
    {
        match self.intf.read_memory::<u8, 1>(0x0071) {
            Ok(raw) => require_known(SelectorPosition::from_repr(raw)),
            Err(e) => Err(Error::Protocol(e)),
        }
    }

    /// Whether a query of the type of the program, started in this state, has
    /// ended in the state `after` with the result `out`.
    pub open spec fn program_type_queried(
        self,
        after: Self,
        out: Result<ProgramType, Error<P::Error>>,
    ) -> bool {
        &&& self.kept(after)
        &&& memory_decoded::<P, u8, ProgramType, 1>(
            self.intf(),
            after.intf(),
            0x009c,
            |raw: u8| known(ProgramType::of_repr(raw)),
            out,
        )
    }

    /// Queries the type of the program that the selector points at.
    pub fn query_program_type(&mut self) -> (r: Result<ProgramType, Error<P::Error>>)
        requires
            old(self).wf(),
        ensures
            (*old(self)).program_type_queried(*final(self), r),
    {
        match self.intf.read_memory::<u8, 1>(0x009c) {
            Ok(raw) => require_known(ProgramType::from_repr(raw)),
            Err(e) => Err(Error::Protocol(e)),
        }
    }

    /// Whether a query of the temperature of the program, started in this
    /// state, has ended in the state `after` with the result `out`.
    pub open spec fn program_temperature_queried(
        self,
        after: Self,
        out: Result<u8, Error<P::Error>>,
    ) -> bool {
        &&& self.kept(after)
        &&& memory_decoded::<P, u8, u8, 1>(
            self.intf(),
            after.intf(),
            0x009d,
            |raw: u8| fine(raw),
            out,
        )
    }

    /// Queries the temperature of the program in degrees Celsius. For some
    /// programs it is a little below the one on the selector.
    pub fn query_program_temperature(&mut self) -> (r: Result<u8, Error<P::Error>>)
        requires
            old(self).wf(),
        ensures
            (*old(self)).program_temperature_queried(*final(self), r),
    {
        match self.intf.read_memory::<u8, 1>(0x009d) {
            Ok(raw) => Ok(raw),
            Err(e) => Err(Error::Protocol(e)),
        }
    }

    /// Whether a query of the program options, started in this state, has
    /// ended in the state `after` with the result `out`.
    pub open spec fn program_options_queried(
        self,
        after: Self,
        out: Result<ProgramOption, Error<P::Error>>,
    ) -> bool {
        &&& self.kept(after)
        &&& memory_decoded::<P, u8, ProgramOption, 1>(
            self.intf(),
            after.intf(),
            0x0016,
            |raw: u8| known(ProgramOption::of_bits(raw)),
            out,
        )
    }

    /// Queries the options of the program.
    pub fn query_program_options(&mut self) -> (r: Result<ProgramOption, Error<P::Error>>)
        requires
            old(self).wf(),
        ensures
            (*old(self)).program_options_queried(*final(self), r),
    {
        match self.intf.read_memory::<u8, 1>(0x0016) {
            Ok(raw) => require_known(ProgramOption::from_bits(raw)),
            Err(e) => Err(Error::Protocol(e)),
        }
    }

    /// Whether a change of the program options to `opts`, started in this
    /// state, has ended in the state `after` with the result `out`.
    pub open spec fn program_options_set(
        self,
        after: Self,
        opts: ProgramOption,
        out: Result<(), Error<P::Error>>,
    ) -> bool {
        &&& self.kept(after)
        &&& byte_written(self.intf(), after.intf(), 0x0016, opts.value(), out)
    }

    /// Sets the options of the program.
    ///
    /// The machine takes every combination, also those that its buttons do
    /// not offer.
    pub fn set_program_options(&mut self, opts: ProgramOption) -> (r: Result<(), Error<P::Error>>)
        requires
            old(self).wf(),
        ensures
            (*old(self)).program_options_set(*final(self), opts, r),
    {
        write_byte(&mut self.intf, 0x0016, opts.bits())
    }

    /// Whether a query of the buzzer setting, started in this state, has
    /// ended in the state `after` with the result `out`.
    pub open spec fn buzzer_enabled_queried(
        self,
        after: Self,
        out: Result<bool, Error<P::Error>>,
    ) -> bool {
        &&& self.kept(after)
        &&& memory_decoded::<P, u8, bool, 1>(
            self.intf(),
            after.intf(),
            0x0005,
            |raw: u8| fine(raw & 0x01 != 0x00),
            out,
        )
    }

    /// Queries whether the buzzer sounds at the end of a program.
    pub fn query_buzzer_enabled(&mut self) -> (r: Result<bool, Error<P::Error>>)
        requires
            old(self).wf(),
        ensures
            (*old(self)).buzzer_enabled_queried(*final(self), r),
    {
        match self.intf.read_memory::<u8, 1>(0x0005) {
            Ok(raw) => Ok(raw & 0x01 != 0x00),
            Err(e) => Err(Error::Protocol(e)),
        }
    }

    /// Whether a query of the spin setting, started in this state, has ended
    /// in the state `after` with the result `out`.
    pub open spec fn program_spin_setting_queried(
        self,
        after: Self,
        out: Result<SpinSetting, Error<P::Error>>,
    ) -> bool {
        &&& self.kept(after)
        &&& memory_decoded::<P, u8, SpinSetting, 1>(
            self.intf(),
            after.intf(),
            0x0015,
            |raw: u8| known(SpinSetting::of_repr(raw)),
            out,
        )
    }

    /// Queries the spin setting of the program.
    pub fn query_program_spin_setting(&mut self) -> (r: Result<SpinSetting, Error<P::Error>>)
        requires
            old(self).wf(),
        ensures
            (*old(self)).program_spin_setting_queried(*final(self), r),
    {
        match self.intf.read_memory::<u8, 1>(0x0015) {
            Ok(raw) => require_known(SpinSetting::from_repr(raw)),
            Err(e) => Err(Error::Protocol(e)),
        }
    }

    /// Whether a change of the spin setting to `speed`, started in this
    /// state, has ended in the state `after` with the result `out`.
    pub open spec fn program_spin_setting_set(
        self,
        after: Self,
        speed: SpinSetting,
        out: Result<(), Error<P::Error>>,
    ) -> bool {
        &&& self.kept(after)
        &&& byte_written(self.intf(), after.intf(), 0x0015, speed.repr(), out)
    }

    /// Sets the spin setting of the program.
    ///
    /// The speed that belongs to a setting depends on how the machine is
    /// programmed.
    pub fn set_program_spin_setting(
        &mut self,
        speed: SpinSetting,
    ) -> (r: Result<(), Error<P::Error>>)
        requires
            old(self).wf(),
        ensures
            (*old(self)).program_spin_setting_set(*final(self), speed, r),
    {
        write_byte(&mut self.intf, 0x0015, speed.to_repr())
    }

    /// Whether a query of the spin speed of the program, started in this
    /// state, has ended in the state `after` with the result `out`.
    pub open spec fn program_spin_speed_queried(
        self,
        after: Self,
        out: Result<u16, Error<P::Error>>,
    ) -> bool {
        &&& self.kept(after)
        &&& memory_decoded::<P, u8, u16, 1>(
            self.intf(),
            after.intf(),
            0x00a8,
            |raw: u8| fine((raw * 50) as u16),
            out,
        )
    }

    /// Queries the spin speed of the program in revolutions per minute. The
    /// machine keeps it in steps of 50.
    pub fn query_program_spin_speed(&mut self) -> (r: Result<u16, Error<P::Error>>)
        requires
            old(self).wf(),
        ensures
            (*old(self)).program_spin_speed_queried(*final(self), r),
    {
        match self.intf.read_memory::<u8, 1>(0x00a8) {
            Ok(raw) => Ok(raw as u16 * 50),
            Err(e) => Err(Error::Protocol(e)),
        }
    }

    /// Whether a query of the phase of the program, started in this state,
    /// has ended in the state `after` with the result `out`.
    pub open spec fn program_phase_queried(
        self,
        after: Self,
        out: Result<ProgramPhase, Error<P::Error>>,
    ) -> bool {
        &&& self.kept(after)
        &&& memory_decoded::<P, u8, ProgramPhase, 1>(
            self.intf(),
            after.intf(),
            0x005e,
            |raw: u8| known(ProgramPhase::of_repr(raw)),
            out,
        )
    }

    /// Queries the phase that the program is in.
    pub fn query_program_phase(&mut self) -> (r: Result<ProgramPhase, Error<P::Error>>)
        requires
            old(self).wf(),
        ensures
            (*old(self)).program_phase_queried(*final(self), r),
    {
        match self.intf.read_memory::<u8, 1>(0x005e) {
            Ok(raw) => require_known(ProgramPhase::from_repr(raw)),
            Err(e) => Err(Error::Protocol(e)),
        }
    }

    /// Whether a query of the program lock, started in this state, has ended
    /// in the state `after` with the result `out`.
    pub open spec fn program_locked_queried(
        self,
        after: Self,
        out: Result<bool, Error<P::Error>>,
    ) -> bool {
        &&& self.kept(after)
        &&& memory_decoded::<P, u8, bool, 1>(
            self.intf(),
            after.intf(),
            0x0005,
            |raw: u8| fine(raw & 0x04 != 0x00),
            out,
        )
    }

    /// Queries whether the running program is locked against changes.
    pub fn query_program_locked(&mut self) -> (r: Result<bool, Error<P::Error>>)
        requires
            old(self).wf(),
        ensures
            (*old(self)).program_locked_queried(*final(self), r),
    {
        match self.intf.read_memory::<u8, 1>(0x0005) {
            Ok(raw) => Ok(raw & 0x04 != 0x00),
            Err(e) => Err(Error::Protocol(e)),
        }
    }

    /// Whether a query of the load level, started in this state, has ended in
    /// the state `after` with the result `out`.
    pub open spec fn load_level_queried(
        self,
        after: Self,
        out: Result<u8, Error<P::Error>>,
    ) -> bool {
        &&& self.kept(after)
        &&& memory_decoded::<P, u8, u8, 1>(
            self.intf(),
            after.intf(),
            0x000a,
            |raw: u8| fine(raw),
            out,
        )
    }

    /// Queries the load level, from 1 to 4, as the machine has measured it.
    pub fn query_load_level(&mut self) -> (r: Result<u8, Error<P::Error>>)
        requires
            old(self).wf(),
        ensures
            (*old(self)).load_level_queried(*final(self), r),
    {
        match self.intf.read_memory::<u8, 1>(0x000a) {
            Ok(raw) => Ok(raw),
            Err(e) => Err(Error::Protocol(e)),
        }
    }

    /// Whether a query of the contents of the display, started in this state,
    /// has ended in the state `after` with the result `out`.
    pub open spec fn display_contents_queried(
        self,
        after: Self,
        out: Result<Seq<char>, Error<P::Error>>,
    ) -> bool {
        &&& self.kept(after)
        &&& memory_decoded::<P, u32, Seq<char>, 4>(
            self.intf(),
            after.intf(),
            0x005a,
            |raw: u32| fine(display_text(raw)),
            out,
        )
    }

    /// Queries what the display of three positions shows.
    ///
    /// Mostly that is the time that the program still takes, in hours and
    /// minutes. In other operating modes the display also shows letters.
    pub fn query_display_contents(&mut self) -> (r: Result<String, Error<P::Error>>)
        requires
            old(self).wf(),
        ensures
            (*old(self)).display_contents_queried(*final(self), text_outcome(r)),
    {
        match self.intf.read_memory::<u32, 4>(0x005a) {
            Ok(raw) => Ok(decode_display_contents(raw)),
            Err(e) => Err(Error::Protocol(e)),
        }
    }

    /// Whether a query of the active actuators, started in this state, has
    /// ended in the state `after` with the result `out`.
    pub open spec fn active_actuators_queried(
        self,
        after: Self,
        out: Result<Actuator, Error<P::Error>>,
    ) -> bool {
        &&& self.kept(after)
        &&& memory_decoded::<P, u16, Actuator, 2>(
            self.intf(),
            after.intf(),
            0x0039,
            |raw: u16| known(Actuator::of_bits(raw)),
            out,
        )
    }

    /// Queries the actuators that are switched on.
    pub fn query_active_actuators(&mut self) -> (r: Result<Actuator, Error<P::Error>>)
        requires
            old(self).wf(),
        ensures
            (*old(self)).active_actuators_queried(*final(self), r),
    {
        match self.intf.read_memory::<u16, 2>(0x0039) {
            Ok(raw) => require_known(Actuator::from_bits(raw)),
            Err(e) => Err(Error::Protocol(e)),
        }
    }

    /// Whether a query of the resistance of the thermistor, started in this
    /// state, has ended in the state `after` with the result `out`.
    pub open spec fn ntc_resistance_queried(
        self,
        after: Self,
        out: Result<u32, Error<P::Error>>,
    ) -> bool {
        &&& self.kept(after)
        &&& memory_decoded::<P, u8, u32, 1>(
            self.intf(),
            after.intf(),
            0x0171,
            |raw: u8| ntc_reading(raw),
            out,
        )
    }

    /// Queries the resistance of the temperature sensor in ohms.
    ///
    /// The resistance is computed from the reading of the analog converter.
    /// The reading 255, which stands for a sensor that is not connected, is
    /// an unexpected memory value.
    pub fn query_ntc_resistance(&mut self) -> (r: Result<u32, Error<P::Error>>)
        requires
            old(self).wf(),
        ensures
            (*old(self)).ntc_resistance_queried(*final(self), r),
    {
        match self.intf.read_memory::<u8, 1>(0x0171) {
            Ok(raw) => decode_ntc_reading(raw),
            Err(e) => Err(Error::Protocol(e)),
        }
    }

    /// Whether a query of the temperature, started in this state, has ended
    /// in the state `after` with the result `out`.
    pub open spec fn temperature_queried(
        self,
        after: Self,
        out: Result<(u8, u8), Error<P::Error>>,
    ) -> bool {
        &&& self.kept(after)
        &&& memory_decoded::<P, [u8; 2], (u8, u8), 2>(
            self.intf(),
            after.intf(),
            0x0135,
            |raw: [u8; 2]| fine((raw@[1], raw@[0])),
            out,
        )
    }

    /// Queries the temperature in degrees Celsius: the one that the sensor
    /// reads, then the one that the program aims at.
    pub fn query_temperature(&mut self) -> (r: Result<(u8, u8), Error<P::Error>>)
        requires
            old(self).wf(),
        ensures
            (*old(self)).temperature_queried(*final(self), r),
    {
        match self.intf.read_memory::<[u8; 2], 2>(0x0135) {
            Ok(raw) => Ok((raw[1], raw[0])),
            Err(e) => Err(Error::Protocol(e)),
        }
    }

    /// Whether a query of the water level, started in this state, has ended
    /// in the state `after` with the result `out`.
    pub open spec fn water_level_queried(
        self,
        after: Self,
        out: Result<(u8, u8), Error<P::Error>>,
    ) -> bool {
        &&& self.kept(after)
        &&& memory_decoded::<P, [u8; 2], (u8, u8), 2>(
            self.intf(),
            after.intf(),
            0x003b,
            |raw: [u8; 2]| fine((raw@[0], raw@[1])),
            out,
        )
    }

    /// Queries the water level in millimetres of water: the one that the
    /// sensor reads, then the one that the program aims at.
    pub fn query_water_level(&mut self) -> (r: Result<(u8, u8), Error<P::Error>>)
        requires
            old(self).wf(),
        ensures
            (*old(self)).water_level_queried(*final(self), r),
    {
        match self.intf.read_memory::<[u8; 2], 2>(0x003b) {
            Ok(raw) => Ok((raw[0], raw[1])),
            Err(e) => Err(Error::Protocol(e)),
        }
    }

    /// Whether a query of the duty cycle of the motor, started in this state,
    /// has ended in the state `after` with the result `out`.
    pub open spec fn motor_pwm_duty_cycle_queried(
        self,
        after: Self,
        out: Result<u8, Error<P::Error>>,
    ) -> bool {
        &&& self.kept(after)
        &&& memory_decoded::<P, u8, u8, 1>(
            self.intf(),
            after.intf(),
            0x004f,
            |raw: u8| fine(duty_percent(raw)),
            out,
        )
    }

    /// Queries the duty cycle with which the drum motor is driven, in
    /// percent.
    pub fn query_motor_pwm_duty_cycle(&mut self) -> (r: Result<u8, Error<P::Error>>)
        requires
            old(self).wf(),
        ensures
            (*old(self)).motor_pwm_duty_cycle_queried(*final(self), r),
    {
        match self.intf.read_memory::<u8, 1>(0x004f) {
            Ok(raw) => Ok(decode_duty_cycle(raw)),
            Err(e) => Err(Error::Protocol(e)),
        }
    }

    /// Whether a query of the speed of the drum motor, started in this state,
    /// has ended in the state `after` with the result `out`.
    ///
    /// Five bytes are read: the raw value of the tachometer in three bytes,
    /// then the raw value that the program aims at in two.
    pub open spec fn tachometer_speed_queried(
        self,
        after: Self,
        out: Result<(u16, u16), Error<P::Error>>,
    ) -> bool {
        &&& self.kept(after)
        &&& memory_decoded::<P, [u8; 5], (u16, u16), 5>(
            self.intf(),
            after.intf(),
            0x0091,
            |raw: [u8; 5]|
                fine(
                    (
                        rpm(raw@[0] + 256 * raw@[1] + 65536 * raw@[2]) as u16,
                        rpm(raw@[3] + 256 * raw@[4]) as u16,
                    ),
                ),
            out,
        )
    }

    /// Queries the speed of the drum motor in revolutions per minute: the
    /// one that the tachometer reads, then the one that the program aims at.
    pub fn query_tachometer_speed(&mut self) -> (r: Result<(u16, u16), Error<P::Error>>)
        requires
            old(self).wf(),
        ensures
            (*old(self)).tachometer_speed_queried(*final(self), r),
    {
        match self.intf.read_memory::<[u8; 5], 5>(0x0091) {
            Ok(raw) => {
                let current: u32 = raw[0] as u32 + 256 * (raw[1] as u32) + 65536 * (raw[2] as u32);
                let target: u32 = raw[3] as u32 + 256 * (raw[4] as u32);
                Ok((rpm_from_motor_speed(current), rpm_from_motor_speed(target)))
            },
            Err(e) => Err(Error::Protocol(e)),
        }
    }

    /// Whether a start of the chosen program, started in this state, has
    /// ended in the state `after` with the result `out`.
    ///
    /// The state of the program control is read. Where it is "chosen and
    /// ready", "run" is written in its place. In every other state nothing is
    /// written and the result is [`Error::InvalidState`].
    pub open spec fn program_started(self, after: Self, out: Result<(), Error<P::Error>>) -> bool {
        &&& self.kept(after)
        &&& exists|mid: Interface<P>, state: Result<u8, ProtocolError<P::Error>>|
            {
                &&& #[trigger] self.intf().memory_read::<u8, 1>(mid, 0x00a5, state)
                &&& match state {
                    Ok(value) => if value == 0x01 {
                        byte_written(mid, after.intf(), 0x00a5, 0x02, out)
                    } else {
                        after.intf() == mid && out == Err::<(), Error<P::Error>>(
                            Error::InvalidState,
                        )
                    },
                    Err(e) => after.intf() == mid && out == Err::<(), Error<P::Error>>(
                        Error::Protocol(e),
                    ),
                }
            }
    }

    /// Starts the program that has been chosen.
    ///
    /// The program cannot be chosen through the diagnostic interface: that is
    /// done at the appliance. Where no program is chosen, or one is running
    /// already, the result is [`Error::InvalidState`] and nothing is written.
    pub fn start_program(&mut self) -> (r: Result<(), Error<P::Error>>)
        requires
            old(self).wf(),
        ensures
            (*old(self)).program_started(*final(self), r),
    {
        let state = self.intf.read_memory::<u8, 1>(0x00a5);
        let ghost mid = self.intf;
        match state {
            Ok(value) => if value == 0x01 {
                write_byte(&mut self.intf, 0x00a5, 0x02)
            } else {
                Err(Error::InvalidState)
            },
            Err(e) => Err(Error::Protocol(e)),
        }
    }

    /// Whether a query of the property at the place `index` of the table,
    /// started in this state, has ended in the state `after` with the result
    /// `out`: the result of the query that belongs to the property, as a
    /// value.
    pub open spec fn property_queried(
        self,
        after: Self,
        index: int,
        out: Result<ValueView, Error<P::Error>>,
    ) -> bool {
        if index == 0 {
            exists|v: Result<u8, Error<P::Error>>|
                {
                    &&& #[trigger] self.rom_code_queried(after, v)
                    &&& out == mapped(v, |n: u8| ValueView::Number(n as u32))
                }
        } else if index == 1 {
            exists|v: Result<Duration, Error<P::Error>>|
                {
                    &&& #[trigger] self.operating_time_queried(after, v)
                    &&& out == mapped(v, |d: Duration| ValueView::Duration(d))
                }
        } else if index == 2 {
            exists|v: Result<OperatingMode, Error<P::Error>>|
                {
                    &&& #[trigger] self.operating_mode_queried(after, v)
                    &&& out == mapped(v, |m: OperatingMode| ValueView::Text(m.name()))
                }
        } else if index == 3 {
            exists|v: Result<SelectorPosition, Error<P::Error>>|
                {
                    &&& #[trigger] self.program_selector_queried(after, v)
                    &&& out == mapped(v, |m: SelectorPosition| ValueView::Text(m.name()))
                }
        } else if index == 4 {
            exists|v: Result<ProgramType, Error<P::Error>>|
                {
                    &&& #[trigger] self.program_type_queried(after, v)
                    &&& out == mapped(v, |m: ProgramType| ValueView::Text(m.name()))
                }
        } else if index == 5 {
            exists|v: Result<u8, Error<P::Error>>|
                {
                    &&& #[trigger] self.program_temperature_queried(after, v)
                    &&& out == mapped(v, |n: u8| ValueView::Number(n as u32))
                }
        } else if index == 6 {
            exists|v: Result<ProgramOption, Error<P::Error>>|
                {
                    &&& #[trigger] self.program_options_queried(after, v)
                    &&& out == mapped(v, |f: ProgramOption| ValueView::Text(f.text()))
                }
        } else if index == 7 {
            exists|v: Result<bool, Error<P::Error>>|
                {
                    &&& #[trigger] self.buzzer_enabled_queried(after, v)
                    &&& out == mapped(v, |b: bool| ValueView::Bool(b))
                }
        } else if index == 8 {
            exists|v: Result<SpinSetting, Error<P::Error>>|
                {
                    &&& #[trigger] self.program_spin_setting_queried(after, v)
                    &&& out == mapped(v, |m: SpinSetting| ValueView::Text(m.name()))
                }
        } else if index == 9 {
            exists|v: Result<u16, Error<P::Error>>|
                {
                    &&& #[trigger] self.program_spin_speed_queried(after, v)
                    &&& out == mapped(v, |n: u16| ValueView::Number(n as u32))
                }
        } else if index == 10 {
            exists|v: Result<ProgramPhase, Error<P::Error>>|
                {
                    &&& #[trigger] self.program_phase_queried(after, v)
                    &&& out == mapped(v, |m: ProgramPhase| ValueView::Text(m.name()))
                }
        } else if index == 11 {
            exists|v: Result<bool, Error<P::Error>>|
                {
                    &&& #[trigger] self.program_locked_queried(after, v)
                    &&& out == mapped(v, |b: bool| ValueView::Bool(b))
                }
        } else if index == 12 {
            exists|v: Result<u8, Error<P::Error>>|
                {
                    &&& #[trigger] self.load_level_queried(after, v)
                    &&& out == mapped(v, |n: u8| ValueView::Number(n as u32))
                }
        } else if index == 13 {
            exists|v: Result<Seq<char>, Error<P::Error>>|
                {
                    &&& #[trigger] self.display_contents_queried(after, v)
                    &&& out == mapped(v, |t: Seq<char>| ValueView::Text(t))
                }
        } else if index == 14 {
            exists|v: Result<Actuator, Error<P::Error>>|
                {
                    &&& #[trigger] self.active_actuators_queried(after, v)
                    &&& out == mapped(v, |f: Actuator| ValueView::Text(f.text()))
                }
        } else if index == 15 {
            exists|v: Result<u32, Error<P::Error>>|
                {
                    &&& #[trigger] self.ntc_resistance_queried(after, v)
                    &&& out == mapped(v, |n: u32| ValueView::Number(n))
                }
        } else if index == 16 {
            exists|v: Result<(u8, u8), Error<P::Error>>|
                {
                    &&& #[trigger] self.temperature_queried(after, v)
                    &&& out == mapped(v, |s: (u8, u8)| ValueView::Sensor(s.0 as u32, s.1 as u32))
                }
        } else if index == 17 {
            exists|v: Result<(u8, u8), Error<P::Error>>|
                {
                    &&& #[trigger] self.water_level_queried(after, v)
                    &&& out == mapped(v, |s: (u8, u8)| ValueView::Sensor(s.0 as u32, s.1 as u32))
                }
        } else if index == 18 {
            exists|v: Result<u8, Error<P::Error>>|
                {
                    &&& #[trigger] self.motor_pwm_duty_cycle_queried(after, v)
                    &&& out == mapped(v, |n: u8| ValueView::Number(n as u32))
                }
        } else {
            exists|v: Result<(u16, u16), Error<P::Error>>|
                {
                    &&& #[trigger] self.tachometer_speed_queried(after, v)
                    &&& out == mapped(v, |s: (u16, u16)| ValueView::Sensor(s.0 as u32, s.1 as u32))
                }
        }
    }

    /// Whether a trigger of the action at the place `index` of the table with
    /// the argument `param`, started in this state, has ended in the state
    /// `after` with the result `out`.
    ///
    /// An action with parameters takes a string that names them. An action
    /// without takes no argument. Any other argument is refused and nothing
    /// is transmitted.
    pub open spec fn action_triggered(
        self,
        after: Self,
        index: int,
        param: Option<ValueView>,
        out: Result<(), Error<P::Error>>,
    ) -> bool {
        if index == 0 {
            match param {
                Some(ValueView::Text(text)) => match ProgramOption::of_text(text) {
                    Some(arg) => self.program_options_set(after, arg, out),
                    None => after == self && out == Err::<(), Error<P::Error>>(
                        Error::InvalidArgument,
                    ),
                },
                _ => after == self && out == Err::<(), Error<P::Error>>(Error::InvalidArgument),
            }
        } else if index == 1 {
            match param {
                Some(ValueView::Text(text)) => match SpinSetting::of_name(text) {
                    Some(arg) => self.program_spin_setting_set(after, arg, out),
                    None => after == self && out == Err::<(), Error<P::Error>>(
                        Error::InvalidArgument,
                    ),
                },
                _ => after == self && out == Err::<(), Error<P::Error>>(Error::InvalidArgument),
            }
        } else {
            match param {
                None => self.program_started(after, out),
                Some(_) => after == self && out == Err::<(), Error<P::Error>>(
                    Error::InvalidArgument,
                ),
            }
        }
    }
}

impl<P> Sealed for WashingMachine<P> {

}

impl<P: Port> Device<P> for WashingMachine<P> {
    open spec fn intf(&self) -> Interface<P> {
        WashingMachine::intf(self)
    }

    open spec fn id(&self) -> u16 {
        WashingMachine::id(self)
    }

    open spec fn kind_of(&self) -> DeviceKind {
        DeviceKind::WashingMachine
    }

    open spec fn property_table(&self) -> Seq<PropertyView> {
        property_list()
    }

    open spec fn action_table(&self) -> Seq<ActionView> {
        action_list()
    }

    open spec fn knows(id: u16) -> bool {
        Self::supports(id)
    }

    fn connect(port: P) -> (r: Result<Self, Error<P::Error>>)
        ensures
            Self::connecting(port, r),
            r matches Ok(dev) ==> Self::connected(dev),
    {
        let mut intf = Interface::new(port);
        let ghost start = intf;
        let id = match intf.query_software_id() {
            Ok(id) => id,
            Err(e) => {
                return Err(Error::Protocol(e));
            },
        };
        proof {
            lemma_identified(start, intf, id);
        }
        if id == SOFTWARE_ID {
            Self::initialize(intf, id)
        } else {
            Err(Error::UnknownSoftwareId(id))
        }
    }

    fn software_id(&self) -> (r: u16) {
        self.software_id
    }

    fn kind(&self) -> (r: DeviceKind) {
        DeviceKind::WashingMachine
    }

    fn properties(&self) -> (r: &'static [Property]) {
        property_table()
    }

    fn actions(&self) -> (r: &'static [Action]) {
        action_table()
    }

    fn query_property(&mut self, prop: &Property) -> (r: Result<Value, Error<P::Error>>)
        ensures
            match position(property_list(), prop@) {
                Some(index) => (*old(self)).property_queried(
                    *final(self),
                    index,
                    value_outcome(r),
                ),
                None => *final(self) == *old(self),
            },
    {
        match find_property(property_table(), prop) {
            Some(0) => match self.query_rom_code() {
                Ok(v) => Ok(Value::Number(v as u32)),
                Err(e) => Err(e),
            },
            Some(1) => match self.query_operating_time() {
                Ok(v) => Ok(Value::Duration(v)),
                Err(e) => Err(e),
            },
            Some(2) => match self.query_operating_mode() {
                Ok(v) => Ok(Value::String(v.to_string())),
                Err(e) => Err(e),
            },
            Some(3) => match self.query_program_selector() {
                Ok(v) => Ok(Value::String(v.to_string())),
                Err(e) => Err(e),
            },
            Some(4) => match self.query_program_type() {
                Ok(v) => Ok(Value::String(v.to_string())),
                Err(e) => Err(e),
            },
            Some(5) => match self.query_program_temperature() {
                Ok(v) => Ok(Value::Number(v as u32)),
                Err(e) => Err(e),
            },
            Some(6) => match self.query_program_options() {
                Ok(v) => Ok(Value::String(v.to_string())),
                Err(e) => Err(e),
            },
            Some(7) => match self.query_buzzer_enabled() {
                Ok(v) => Ok(Value::Bool(v)),
                Err(e) => Err(e),
            },
            Some(8) => match self.query_program_spin_setting() {
                Ok(v) => Ok(Value::String(v.to_string())),
                Err(e) => Err(e),
            },
            Some(9) => match self.query_program_spin_speed() {
                Ok(v) => Ok(Value::Number(v as u32)),
                Err(e) => Err(e),
            },
            Some(10) => match self.query_program_phase() {
                Ok(v) => Ok(Value::String(v.to_string())),
                Err(e) => Err(e),
            },
            Some(11) => match self.query_program_locked() {
                Ok(v) => Ok(Value::Bool(v)),
                Err(e) => Err(e),
            },
            Some(12) => match self.query_load_level() {
                Ok(v) => Ok(Value::Number(v as u32)),
                Err(e) => Err(e),
            },
            Some(13) => match self.query_display_contents() {
                Ok(v) => Ok(Value::String(v)),
                Err(e) => Err(e),
            },
            Some(14) => match self.query_active_actuators() {
                Ok(v) => Ok(Value::String(v.to_string())),
                Err(e) => Err(e),
            },
            Some(15) => match self.query_ntc_resistance() {
                Ok(v) => Ok(Value::Number(v)),
                Err(e) => Err(e),
            },
            Some(16) => match self.query_temperature() {
                Ok(v) => Ok(Value::Sensor(v.0 as u32, v.1 as u32)),
                Err(e) => Err(e),
            },
            Some(17) => match self.query_water_level() {
                Ok(v) => Ok(Value::Sensor(v.0 as u32, v.1 as u32)),
                Err(e) => Err(e),
            },
            Some(18) => match self.query_motor_pwm_duty_cycle() {
                Ok(v) => Ok(Value::Number(v as u32)),
                Err(e) => Err(e),
            },
            Some(19) => match self.query_tachometer_speed() {
                Ok(v) => Ok(Value::Sensor(v.0 as u32, v.1 as u32)),
                Err(e) => Err(e),
            },
            _ => Err(Error::UnknownProperty),
        }
    }

    fn trigger_action(&mut self, action: &Action, param: Option<Value>) -> (r: Result<
        (),
        Error<P::Error>,
    >)
        ensures
            match position(action_list(), action@) {
                Some(index) => (*old(self)).action_triggered(
                    *final(self),
                    index,
                    argument_view(param),
                    r,
                ),
                None => *final(self) == *old(self),
            },
    {
        proof {
            lemma_position(action_list(), action@);
        }
        match find_action(action_table(), action) {
            Some(0) => match param {
                Some(Value::String(text)) => match ProgramOption::parse(text.as_str()) {
                    Some(arg) => self.set_program_options(arg),
                    None => Err(Error::InvalidArgument),
                },
                _ => Err(Error::InvalidArgument),
            },
            Some(1) => match param {
                Some(Value::String(text)) => match SpinSetting::from_name(text.as_str()) {
                    Some(arg) => self.set_program_spin_setting(arg),
                    None => Err(Error::InvalidArgument),
                },
                _ => Err(Error::InvalidArgument),
            },
            Some(2) => match param {
                None => self.start_program(),
                Some(_) => Err(Error::InvalidArgument),
            },
            _ => Err(Error::UnknownAction),
        }
    }

    fn interface(&mut self) -> (r: &mut Interface<P>) {
        &mut self.intf
    }
}

} // verus!
