//! Dishwashers of the G 6xx series.
//!
//! The driver knows appliances with software ID 605, which mostly have an
//! EGPL 542-C electronics board.
use crate::command::Error as ProtocolError;
use crate::device::private::Sealed;
use crate::device::utils::{
    decode_ntc_reading, ntc_reading, ntc_resistance, ntc_resistance_from_adc,
};
use crate::device::{
    Action, ActionKind, ActionView, Device, DeviceKind, Error, Property, PropertyKind,
    PropertyView, Value, ValueView, actions_view, argument_view, byte_written, eeprom_decoded,
    find_action, find_property, fine, identifying, known, lemma_identified, lemma_position,
    lemma_unlocked, mapped, memory_decoded, position, properties_view, require_known,
    text_outcome, unlock, unlocked, unlocking, value_outcome, write_byte,
};
use crate::flags::{all_bits, flags_text, format_flags, table_view, valid_bits};
use crate::interface::Interface;
use crate::port::Port;
use crate::text::{decoded, text_of_bytes};
use crate::wire::Wire;
use vstd::prelude::*;
use vstd::slice::slice_subrange;

verus! {

/// The software ID that this driver knows.
pub const SOFTWARE_ID: u16 = 605;

/// The key that unlocks read access.
pub const READ_KEY: u16 = 0x1234;

/// The key that unlocks full access.
pub const FULL_KEY: u16 = 0x5678;

/// The faults that the dishwasher has on record. Several can be on record at
/// once.
#[derive(PartialEq, Eq, Structural, Copy, Clone, Debug)]
pub struct Fault {
    bits: u16,
}

impl Fault {
    /// The faults with their masks, in the order in which they are written.
    pub open spec fn flags() -> Seq<(Seq<char>, u16)> {
        seq![
            ("NtcThermistorOpen"@, 0x0001u16),
            ("NtcThermistorShort"@, 0x0002u16),
            ("ProgramSelector"@, 0x0004u16),
            ("Heater"@, 0x0008u16),
            ("Drainage"@, 0x0010u16),
            ("InletStart"@, 0x0020u16),
            ("InletEnd"@, 0x0040u16),
            ("PressureSwitchInlet"@, 0x0080u16),
            ("PressureSwitchHeating"@, 0x0100u16),
        ]
    }

    /// The bits of the set.
    pub closed spec fn value(self) -> u16 {
        self.bits
    }

    /// The set with the bits `bits`, if every bit is one of the table.
    pub closed spec fn of_bits(bits: u16) -> Option<Fault> {
        if bits & !all_bits(Self::flags()) == 0 {
            Some(Fault { bits })
        } else {
            None
        }
    }

    /// The names of the faults of the set, separated by `" | "`.
    pub open spec fn text(self) -> Seq<char> {
        flags_text(Self::flags(), self.value() as u16)
    }

    /// The faults with their masks.
    pub fn table() -> (r: &'static [(&'static str, u16)])
        ensures
            table_view(r) == Self::flags(),
    {
        let r: &'static [(&'static str, u16)] = &[
            ("NtcThermistorOpen", 0x0001),
            ("NtcThermistorShort", 0x0002),
            ("ProgramSelector", 0x0004),
            ("Heater", 0x0008),
            ("Drainage", 0x0010),
            ("InletStart", 0x0020),
            ("InletEnd", 0x0040),
            ("PressureSwitchInlet", 0x0080),
            ("PressureSwitchHeating", 0x0100),
        ];
        assert(table_view(r) =~= Self::flags());
        r
    }

    /// The set with the bits `bits`. Bits that are none of the table are
    /// refused.
    pub fn from_bits(bits: u16) -> (r: Option<Fault>)
        ensures
            r == Self::of_bits(bits),
            r matches Some(set) ==> set.value() == bits,
            r is Some <==> bits & !all_bits(Self::flags()) == 0,
    {
        if valid_bits(Self::table(), bits) {
            Some(Fault { bits })
        } else {
            None
        }
    }

    /// The bits of the set.
    pub fn bits(&self) -> (r: u16)
        ensures
            r == self.value(),
    {
        self.bits
    }

    /// The names of the faults of the set, separated by `" | "`.
    pub fn to_string(&self) -> (r: String)
        ensures
            r@ == self.text(),
    {
        format_flags(Self::table(), self.bits)
    }
}

/// The type of a dishwashing program.
#[derive(PartialEq, Eq, Structural, Copy, Clone, Debug)]
pub enum ProgramType {
    /// No program.
    NoProgram,
    /// Universal plus.
    UniversalPlus,
    /// Energy save.
    EnergySave,
    /// Gentle.
    Gentle,
    /// Universal.
    Universal,
    /// Economy.
    Economy,
    /// Pre wash.
    PreWash,
    /// Intensive.
    Intensive,
    /// Normal.
    Normal,
    /// The test program of the service.
    Test,
}

impl ProgramType {
    /// The number that stands for the program type in the appliance's memory.
    pub open spec fn repr(self) -> u8 {
        match self {
            ProgramType::NoProgram => 0x00,
            ProgramType::UniversalPlus => 0x03,
            ProgramType::EnergySave => 0x04,
            ProgramType::Gentle => 0x05,
            ProgramType::Universal => 0x06,
            ProgramType::Economy => 0x07,
            ProgramType::PreWash => 0x08,
            ProgramType::Intensive => 0x0a,
            ProgramType::Normal => 0x0b,
            ProgramType::Test => 0x0c,
        }
    }

    /// The program type that `value` stands for, if it stands for one.
    pub open spec fn of_repr(value: u8) -> Option<ProgramType> {
        if value == 0x00 {
            Some(ProgramType::NoProgram)
        } else if value == 0x03 {
            Some(ProgramType::UniversalPlus)
        } else if value == 0x04 {
            Some(ProgramType::EnergySave)
        } else if value == 0x05 {
            Some(ProgramType::Gentle)
        } else if value == 0x06 {
            Some(ProgramType::Universal)
        } else if value == 0x07 {
            Some(ProgramType::Economy)
        } else if value == 0x08 {
            Some(ProgramType::PreWash)
        } else if value == 0x0a {
            Some(ProgramType::Intensive)
        } else if value == 0x0b {
            Some(ProgramType::Normal)
        } else if value == 0x0c {
            Some(ProgramType::Test)
        } else {
            None
        }
    }

    /// The name of the program type.
    pub open spec fn name(self) -> Seq<char> {
        match self {
            ProgramType::NoProgram => "None"@,
            ProgramType::UniversalPlus => "UniversalPlus"@,
            ProgramType::EnergySave => "EnergySave"@,
            ProgramType::Gentle => "Gentle"@,
            ProgramType::Universal => "Universal"@,
            ProgramType::Economy => "Economy"@,
            ProgramType::PreWash => "PreWash"@,
            ProgramType::Intensive => "Intensive"@,
            ProgramType::Normal => "Normal"@,
            ProgramType::Test => "Test"@,
        }
    }

    /// Returns the program type that `value` stands for, if it stands for one.
    pub fn from_repr(value: u8) -> (r: Option<ProgramType>)
        ensures
            r == Self::of_repr(value),
    {
        match value {
            0x00 => Some(ProgramType::NoProgram),
            0x03 => Some(ProgramType::UniversalPlus),
            0x04 => Some(ProgramType::EnergySave),
            0x05 => Some(ProgramType::Gentle),
            0x06 => Some(ProgramType::Universal),
            0x07 => Some(ProgramType::Economy),
            0x08 => Some(ProgramType::PreWash),
            0x0a => Some(ProgramType::Intensive),
            0x0b => Some(ProgramType::Normal),
            0x0c => Some(ProgramType::Test),
            _ => None,
        }
    }

    /// Returns the number that stands for the program type in the appliance's memory.
    pub fn to_repr(self) -> (r: u8)
        ensures
            r == self.repr(),
    {
        match self {
            ProgramType::NoProgram => 0x00,
            ProgramType::UniversalPlus => 0x03,
            ProgramType::EnergySave => 0x04,
            ProgramType::Gentle => 0x05,
            ProgramType::Universal => 0x06,
            ProgramType::Economy => 0x07,
            ProgramType::PreWash => 0x08,
            ProgramType::Intensive => 0x0a,
            ProgramType::Normal => 0x0b,
            ProgramType::Test => 0x0c,
        }
    }

    /// Returns the name of the program type.
    pub fn to_string(&self) -> (r: String)
        ensures
            r@ == self.name(),
    {
        match self {
            ProgramType::NoProgram => "None".to_string(),
            ProgramType::UniversalPlus => "UniversalPlus".to_string(),
            ProgramType::EnergySave => "EnergySave".to_string(),
            ProgramType::Gentle => "Gentle".to_string(),
            ProgramType::Universal => "Universal".to_string(),
            ProgramType::Economy => "Economy".to_string(),
            ProgramType::PreWash => "PreWash".to_string(),
            ProgramType::Intensive => "Intensive".to_string(),
            ProgramType::Normal => "Normal".to_string(),
            ProgramType::Test => "Test".to_string(),
        }
    }
}

/// The phase of a dishwashing program. A program need not go through every
/// phase.
#[derive(PartialEq, Eq, Structural, Copy, Clone, Debug)]
pub enum ProgramPhase {
    /// No program has started.
    Idle,
    /// The water softener is regenerated.
    Reactivation,
    /// First pre-wash.
    PreWash1,
    /// Second pre-wash.
    PreWash2,
    /// Main wash.
    MainWash,
    /// First interim rinse.
    InterimRinse1,
    /// Second interim rinse.
    InterimRinse2,
    /// Final rinse.
    FinalRinse,
    /// Drying.
    Drying,
    /// The program has ended.
    Finish,
}

impl ProgramPhase {
    /// The number that stands for the phase in the appliance's memory.
    pub open spec fn repr(self) -> u8 {
        match self {
            ProgramPhase::Idle => 0x00,
            ProgramPhase::Reactivation => 0x01,
            ProgramPhase::PreWash1 => 0x02,
            ProgramPhase::PreWash2 => 0x03,
            ProgramPhase::MainWash => 0x04,
            ProgramPhase::InterimRinse1 => 0x05,
            ProgramPhase::InterimRinse2 => 0x06,
            ProgramPhase::FinalRinse => 0x07,
            ProgramPhase::Drying => 0x08,
            ProgramPhase::Finish => 0x09,
        }
    }

    /// The phase that `value` stands for, if it stands for one.
    pub open spec fn of_repr(value: u8) -> Option<ProgramPhase> {
        if value == 0x00 {
            Some(ProgramPhase::Idle)
        } else if value == 0x01 {
            Some(ProgramPhase::Reactivation)
        } else if value == 0x02 {
            Some(ProgramPhase::PreWash1)
        } else if value == 0x03 {
            Some(ProgramPhase::PreWash2)
        } else if value == 0x04 {
            Some(ProgramPhase::MainWash)
        } else if value == 0x05 {
            Some(ProgramPhase::InterimRinse1)
        } else if value == 0x06 {
            Some(ProgramPhase::InterimRinse2)
        } else if value == 0x07 {
            Some(ProgramPhase::FinalRinse)
        } else if value == 0x08 {
            Some(ProgramPhase::Drying)
        } else if value == 0x09 {
            Some(ProgramPhase::Finish)
        } else {
            None
        }
    }

    /// The name of the phase.
    pub open spec fn name(self) -> Seq<char> {
        match self {
            ProgramPhase::Idle => "Idle"@,
            ProgramPhase::Reactivation => "Reactivation"@,
            ProgramPhase::PreWash1 => "PreWash1"@,
            ProgramPhase::PreWash2 => "PreWash2"@,
            ProgramPhase::MainWash => "MainWash"@,
            ProgramPhase::InterimRinse1 => "InterimRinse1"@,
            ProgramPhase::InterimRinse2 => "InterimRinse2"@,
            ProgramPhase::FinalRinse => "FinalRinse"@,
            ProgramPhase::Drying => "Drying"@,
            ProgramPhase::Finish => "Finish"@,
        }
    }

    /// Returns the phase that `value` stands for, if it stands for one.
    pub fn from_repr(value: u8) -> (r: Option<ProgramPhase>)
        ensures
            r == Self::of_repr(value),
    {
        match value {
            0x00 => Some(ProgramPhase::Idle),
            0x01 => Some(ProgramPhase::Reactivation),
            0x02 => Some(ProgramPhase::PreWash1),
            0x03 => Some(ProgramPhase::PreWash2),
            0x04 => Some(ProgramPhase::MainWash),
            0x05 => Some(ProgramPhase::InterimRinse1),
            0x06 => Some(ProgramPhase::InterimRinse2),
            0x07 => Some(ProgramPhase::FinalRinse),
            0x08 => Some(ProgramPhase::Drying),
            0x09 => Some(ProgramPhase::Finish),
            _ => None,
        }
    }

    /// Returns the number that stands for the phase in the appliance's memory.
    pub fn to_repr(self) -> (r: u8)
        ensures
            r == self.repr(),
    {
        match self {
            ProgramPhase::Idle => 0x00,
            ProgramPhase::Reactivation => 0x01,
            ProgramPhase::PreWash1 => 0x02,
            ProgramPhase::PreWash2 => 0x03,
            ProgramPhase::MainWash => 0x04,
            ProgramPhase::InterimRinse1 => 0x05,
            ProgramPhase::InterimRinse2 => 0x06,
            ProgramPhase::FinalRinse => 0x07,
            ProgramPhase::Drying => 0x08,
            ProgramPhase::Finish => 0x09,
        }
    }

    /// Returns the name of the phase.
    pub fn to_string(&self) -> (r: String)
        ensures
            r@ == self.name(),
    {
        match self {
            ProgramPhase::Idle => "Idle".to_string(),
            ProgramPhase::Reactivation => "Reactivation".to_string(),
            ProgramPhase::PreWash1 => "PreWash1".to_string(),
            ProgramPhase::PreWash2 => "PreWash2".to_string(),
            ProgramPhase::MainWash => "MainWash".to_string(),
            ProgramPhase::InterimRinse1 => "InterimRinse1".to_string(),
            ProgramPhase::InterimRinse2 => "InterimRinse2".to_string(),
            ProgramPhase::FinalRinse => "FinalRinse".to_string(),
            ProgramPhase::Drying => "Drying".to_string(),
            ProgramPhase::Finish => "Finish".to_string(),
        }
    }
}

/// The actuators of the dishwasher that are switched on. Several can be on at
/// once.
#[derive(PartialEq, Eq, Structural, Copy, Clone, Debug)]
pub struct Actuator {
    bits: u16,
}

impl Actuator {
    /// The actuators with their masks, in the order in which they are written.
    pub open spec fn flags() -> Seq<(Seq<char>, u16)> {
        seq![
            ("ReleaseElement"@, 0x0001u16),
            ("TopSoloCirculation"@, 0x0002u16),
            ("DetergentDosing"@, 0x0004u16),
            ("RinseAidDosing"@, 0x0008u16),
            ("Reactivation"@, 0x0010u16),
            ("Inlet"@, 0x0020u16),
            ("Heater"@, 0x0040u16),
            ("WaterHardness"@, 0x0080u16),
            ("DryingFan"@, 0x2000u16),
            ("DrainPump"@, 0x4000u16),
            ("CirculationPump"@, 0x8000u16),
        ]
    }

    /// The bits of the set.
    pub closed spec fn value(self) -> u16 {
        self.bits
    }

    /// The set with the bits `bits`, if every bit is one of the table.
    pub closed spec fn of_bits(bits: u16) -> Option<Actuator> {
        if bits & !all_bits(Self::flags()) == 0 {
            Some(Actuator { bits })
        } else {
            None
        }
    }

    /// The names of the actuators of the set, separated by `" | "`.
    pub open spec fn text(self) -> Seq<char> {
        flags_text(Self::flags(), self.value() as u16)
    }

    /// The actuators with their masks.
    pub fn table() -> (r: &'static [(&'static str, u16)])
        ensures
            table_view(r) == Self::flags(),
    {
        let r: &'static [(&'static str, u16)] = &[
            ("ReleaseElement", 0x0001),
            ("TopSoloCirculation", 0x0002),
            ("DetergentDosing", 0x0004),
            ("RinseAidDosing", 0x0008),
            ("Reactivation", 0x0010),
            ("Inlet", 0x0020),
            ("Heater", 0x0040),
            ("WaterHardness", 0x0080),
            ("DryingFan", 0x2000),
            ("DrainPump", 0x4000),
            ("CirculationPump", 0x8000),
        ];
        assert(table_view(r) =~= Self::flags());
        r
    }

    /// The set with the bits `bits`. Bits that are none of the table are
    /// refused.
    pub fn from_bits(bits: u16) -> (r: Option<Actuator>)
        ensures
            r == Self::of_bits(bits),
            r matches Some(set) ==> set.value() == bits,
            r is Some <==> bits & !all_bits(Self::flags()) == 0,
    {
        if valid_bits(Self::table(), bits) {
            Some(Actuator { bits })
        } else {
            None
        }
    }

    /// The bits of the set.
    pub fn bits(&self) -> (r: u16)
        ensures
            r == self.value(),
    {
        self.bits
    }

    /// The names of the actuators of the set, separated by `" | "`.
    pub fn to_string(&self) -> (r: String)
        ensures
            r@ == self.text(),
    {
        format_flags(Self::table(), self.bits)
    }
}

/// The switches of the dishwasher that are closed. Several can be closed at
/// once.
#[derive(PartialEq, Eq, Structural, Copy, Clone, Debug)]
pub struct Switch {
    bits: u8,
}

impl Switch {
    /// The switches with their masks, in the order in which they are written.
    pub open spec fn flags() -> Seq<(Seq<char>, u16)> {
        seq![
            ("HeaterPressure"@, 0x01u16),
            ("SaltReservoirEmpty"@, 0x02u16),
            ("RinseAidReservoirEmpty"@, 0x04u16),
        ]
    }

    /// The bits of the set.
    pub closed spec fn value(self) -> u8 {
        self.bits
    }

    /// The set with the bits `bits`, if every bit is one of the table.
    pub closed spec fn of_bits(bits: u8) -> Option<Switch> {
        if bits as u16 & !all_bits(Self::flags()) == 0 {
            Some(Switch { bits })
        } else {
            None
        }
    }

    /// The names of the switches of the set, separated by `" | "`.
    pub open spec fn text(self) -> Seq<char> {
        flags_text(Self::flags(), self.value() as u16)
    }

    /// The switches with their masks.
    pub fn table() -> (r: &'static [(&'static str, u16)])
        ensures
            table_view(r) == Self::flags(),
    {
        let r: &'static [(&'static str, u16)] = &[
            ("HeaterPressure", 0x01),
            ("SaltReservoirEmpty", 0x02),
            ("RinseAidReservoirEmpty", 0x04),
        ];
        assert(table_view(r) =~= Self::flags());
        r
    }

    /// The set with the bits `bits`. Bits that are none of the table are
    /// refused.
    pub fn from_bits(bits: u8) -> (r: Option<Switch>)
        ensures
            r == Self::of_bits(bits),
            r matches Some(set) ==> set.value() == bits,
            r is Some <==> bits as u16 & !all_bits(Self::flags()) == 0,
    {
        if valid_bits(Self::table(), bits as u16) {
            Some(Switch { bits })
        } else {
            None
        }
    }

    /// The bits of the set.
    pub fn bits(&self) -> (r: u8)
        ensures
            r == self.value(),
    {
        self.bits
    }

    /// The names of the switches of the set, separated by `" | "`.
    pub fn to_string(&self) -> (r: String)
        ensures
            r@ == self.text(),
    {
        format_flags(Self::table(), self.bits as u16)
    }
}

/// An amount of water in millilitres from the amount in centilitres, where
/// it fits 16 bits.
pub open spec fn water_amount<E>(raw: u16) -> Result<u16, Error<E>> {
    if raw * 10 <= 0xffff {
        Ok((raw * 10) as u16)
    } else {
        Err(Error::UnexpectedMemoryValue)
    }
}

/// Converts an amount of water from centilitres to millilitres.
pub fn decode_water_amount<E>(raw: u16) -> (r: Result<u16, Error<E>>)
    ensures
        r == water_amount::<E>(raw),
{
    if raw <= 6553 {
        Ok(raw * 10)
    } else {
        Err(Error::UnexpectedMemoryValue)
    }
}

/// The properties of the dishwasher, in the order in which it lists them.
pub open spec fn property_list() -> Seq<PropertyView> {
    seq![
        PropertyView {
            kind: PropertyKind::General,
            id: "board_number"@,
            name: "Board Number"@,
            unit: None,
        },
        PropertyView {
            kind: PropertyKind::Failure,
            id: "faults"@,
            name: "Faults"@,
            unit: None,
        },
        PropertyView {
            kind: PropertyKind::Operation,
            id: "program_selector"@,
            name: "Program Selector"@,
            unit: None,
        },
        PropertyView {
            kind: PropertyKind::Operation,
            id: "program_type"@,
            name: "Program Type"@,
            unit: None,
        },
        PropertyView {
            kind: PropertyKind::Operation,
            id: "top_solo_enabled"@,
            name: "Top Solo Enabled"@,
            unit: None,
        },
        PropertyView {
            kind: PropertyKind::Operation,
            id: "program_phase"@,
            name: "Program Phase"@,
            unit: None,
        },
        PropertyView {
            kind: PropertyKind::Operation,
            id: "program_step"@,
            name: "Program Step"@,
            unit: None,
        },
        PropertyView {
            kind: PropertyKind::Io,
            id: "active_actuators"@,
            name: "Active Actuators"@,
            unit: None,
        },
        PropertyView {
            kind: PropertyKind::Io,
            id: "closed_switches"@,
            name: "Closed Switches"@,
            unit: None,
        },
        PropertyView {
            kind: PropertyKind::Io,
            id: "ntc_resistance"@,
            name: "NTC Resistance"@,
            unit: Some("\u{3a9}"@),
        },
        PropertyView {
            kind: PropertyKind::Io,
            id: "flow_meter_pulses"@,
            name: "Flow Meter Pulses"@,
            unit: None,
        },
        PropertyView {
            kind: PropertyKind::Io,
            id: "target_water_amount"@,
            name: "Target Water Amount"@,
            unit: Some("ml"@),
        },
    ]
}

/// The actions of the dishwasher, in the order in which it lists them.
pub open spec fn action_list() -> Seq<ActionView> {
    seq![
        ActionView {
            kind: ActionKind::Operation,
            id: "start_program"@,
            name: "Start Program"@,
            params: None,
        },
    ]
}

/// The table of the dishwasher's properties.
pub fn property_table() -> (r: &'static [Property])
    ensures
        properties_view(r) == property_list(),
{
    let r: &'static [Property] = &[
        Property {
            kind: PropertyKind::General,
            id: "board_number",
            name: "Board Number",
            unit: None,
        },
        Property {
            kind: PropertyKind::Failure,
            id: "faults",
            name: "Faults",
            unit: None,
        },
        Property {
            kind: PropertyKind::Operation,
            id: "program_selector",
            name: "Program Selector",
            unit: None,
        },
        Property {
            kind: PropertyKind::Operation,
            id: "program_type",
            name: "Program Type",
            unit: None,
        },
        Property {
            kind: PropertyKind::Operation,
            id: "top_solo_enabled",
            name: "Top Solo Enabled",
            unit: None,
        },
        Property {
            kind: PropertyKind::Operation,
            id: "program_phase",
            name: "Program Phase",
            unit: None,
        },
        Property {
            kind: PropertyKind::Operation,
            id: "program_step",
            name: "Program Step",
            unit: None,
        },
        Property {
            kind: PropertyKind::Io,
            id: "active_actuators",
            name: "Active Actuators",
            unit: None,
        },
        Property {
            kind: PropertyKind::Io,
            id: "closed_switches",
            name: "Closed Switches",
            unit: None,
        },
        Property {
            kind: PropertyKind::Io,
            id: "ntc_resistance",
            name: "NTC Resistance",
            unit: Some("\u{3a9}"),
        },
        Property {
            kind: PropertyKind::Io,
            id: "flow_meter_pulses",
            name: "Flow Meter Pulses",
            unit: None,
        },
        Property {
            kind: PropertyKind::Io,
            id: "target_water_amount",
            name: "Target Water Amount",
            unit: Some("ml"),
        },
    ];
    assert(properties_view(r) =~= property_list());
    r
}

/// The table of the dishwasher's actions.
pub fn action_table() -> (r: &'static [Action])
    ensures
        actions_view(r) == action_list(),
{
    let r: &'static [Action] = &[
        Action {
            kind: ActionKind::Operation,
            id: "start_program",
            name: "Start Program",
            params: None,
        },
    ];
    assert(actions_view(r) =~= action_list());
    r
}

/// No two properties of the dishwasher have the same identifier, and no two of
/// its actions have.
pub proof fn ids_are_unique()
    ensures
        forall|i: int, j: int|
            0 <= i < j < property_list().len() ==> property_list()[i].id != property_list()[j].id,
        forall|i: int, j: int|
            0 <= i < j < action_list().len() ==> action_list()[i].id != action_list()[j].id,
{
    reveal_strlit("board_number");
    reveal_strlit("faults");
    reveal_strlit("program_selector");
    reveal_strlit("program_type");
    reveal_strlit("top_solo_enabled");
    reveal_strlit("program_phase");
    reveal_strlit("program_step");
    reveal_strlit("active_actuators");
    reveal_strlit("closed_switches");
    reveal_strlit("ntc_resistance");
    reveal_strlit("flow_meter_pulses");
    reveal_strlit("target_water_amount");
    reveal_strlit("start_program");
    assert(property_list()[0].id.len() == 12);
    assert(property_list()[0].id[0] == 'b');
    assert(property_list()[1].id.len() == 6);
    assert(property_list()[2].id.len() == 16);
    assert(property_list()[2].id[0] == 'p');
    assert(property_list()[3].id.len() == 12);
    assert(property_list()[3].id[0] == 'p');
    assert(property_list()[3].id[8] == 't');
    assert(property_list()[4].id.len() == 16);
    assert(property_list()[4].id[0] == 't');
    assert(property_list()[5].id.len() == 13);
    assert(property_list()[6].id.len() == 12);
    assert(property_list()[6].id[0] == 'p');
    assert(property_list()[6].id[8] == 's');
    assert(property_list()[7].id.len() == 16);
    assert(property_list()[7].id[0] == 'a');
    assert(property_list()[8].id.len() == 15);
    assert(property_list()[9].id.len() == 14);
    assert(property_list()[10].id.len() == 17);
    assert(property_list()[11].id.len() == 19);
    assert(action_list()[0].id.len() == 13);
}

/// A dishwasher with software ID 605.
pub struct Dishwasher<P> {
    intf: Interface<P>,
    software_id: u16,
}

impl<P: Port> Dishwasher<P> {
    /// The state of the diagnostic interface.
    pub closed spec fn intf(&self) -> Interface<P> {
        self.intf
    }

    /// The software ID that the dishwasher reported.
    pub closed spec fn id(&self) -> u16 {
        self.software_id
    }

    /// The dishwasher can be talked to.
    pub open spec fn wf(&self) -> bool {
        self.intf().wf()
    }

    /// Whether `after` is this dishwasher, still usable if it was.
    pub open spec fn kept(self, after: Self) -> bool {
        &&& after.id() == self.id()
        &&& self.wf() ==> after.wf()
    }

    /// Whether the driver knows appliances with the software ID `id`.
    pub open spec fn supports(id: u16) -> bool {
        id == SOFTWARE_ID
    }

    /// The write that ends the unlock sequence: the address and the byte. At
    /// the end the read-out protection of the ROM is switched off, so that
    /// memory above 0x8000 can be read.
    pub open spec fn last_write() -> Option<(u32, u8)> {
        Some((0x00f4, 0x02))
    }

    /// What the unlock sequence puts on the wire when it succeeds.
    pub open spec fn handshake(chunk: nat) -> Wire {
        unlocking(READ_KEY, FULL_KEY, Self::last_write(), chunk, false)
    }

    /// Whether `dev` is a dishwasher after a connection that succeeded: the
    /// software ID was asked for and is one that the driver knows, the unlock
    /// sequence went through, and nothing else has crossed the wire.
    pub open spec fn connected(dev: Self) -> bool {
        &&& dev.wf()
        &&& Self::supports(dev.id())
        &&& dev.intf().dummy_bytes() == false
        &&& dev.intf().chunk_size() == 4
        &&& dev.intf().wire() == identifying(dev.id()).followed_by(Self::handshake(4))
    }

    /// Whether the unlocking of a dishwasher that has reported the software
    /// ID `software_id`, started in the state `start` of the interface, has
    /// ended with the result `r`. Where the unlock sequence goes through, the
    /// result is the device; where it fails, the result is that failure.
    pub open spec fn initialized(
        start: Interface<P>,
        software_id: u16,
        r: Result<Self, Error<P::Error>>,
    ) -> bool {
        exists|after: Interface<P>, done: Result<(), Error<P::Error>>|
            {
                &&& #[trigger] unlocked(
                    start,
                    after,
                    READ_KEY,
                    FULL_KEY,
                    Self::last_write(),
                    done,
                )
                &&& match done {
                    Ok(()) => r is Ok && r->Ok_0.intf() == after && r->Ok_0.id() == software_id,
                    Err(e) => r is Err && r->Err_0 == e,
                }
            }
    }

    /// Whether a connection to the appliance behind `port` has ended with the
    /// result `r`. The appliance is asked for its software ID on a new
    /// interface. Where the driver knows the ID, the dishwasher is unlocked;
    /// where it does not, the result is [`Error::UnknownSoftwareId`] with
    /// that ID.
    pub open spec fn connecting(port: P, r: Result<Self, Error<P::Error>>) -> bool {
        exists|asked: Interface<P>, id: Result<u16, ProtocolError<P::Error>>|
            {
                &&& #[trigger] Interface::fresh(port).software_id_queried(asked, id)
                &&& match id {
                    Ok(id) => if Self::supports(id) {
                        Self::initialized(asked, id, r)
                    } else {
                        r is Err && r->Err_0 == Error::<P::Error>::UnknownSoftwareId(id)
                    },
                    Err(e) => r is Err && r->Err_0 == Error::Protocol(e),
                }
            }
    }

    /// Unlocks the diagnostic interface of a dishwasher that has reported the
    /// software ID `software_id`.
    pub(crate) fn initialize(intf: Interface<P>, software_id: u16) -> (r: Result<
        Self,
        Error<P::Error>,
    >)
        requires
            intf.wf(),
            !intf.dummy_bytes(),
        ensures
            Self::initialized(intf, software_id, r),
            match r {
                Ok(dev) => {
                    &&& dev.wf()
                    &&& dev.id() == software_id
                    &&& dev.intf().dummy_bytes() == false
                    &&& dev.intf().chunk_size() == intf.chunk_size()
                    &&& dev.intf().wire() == intf.wire().followed_by(
                        Self::handshake(intf.chunk_size()),
                    )
                },
                Err(e) => e is Protocol,
            },
    {
        let mut intf = intf;
        let ghost ready = intf;
        let done = unlock(&mut intf, READ_KEY, FULL_KEY, Some((0x00f4, 0x02)));
        proof {
            lemma_unlocked(ready, intf, READ_KEY, FULL_KEY, Self::last_write(), done);
        }
        match done {
            Ok(()) => Ok(Dishwasher { intf, software_id }),
            Err(e) => Err(e),
        }
    }

    /// Whether a query of the number of the electronics board, started in
    /// this state, has ended in the state `after` with the result `out`.
    pub open spec fn board_number_queried(
        self,
        after: Self,
        out: Result<Seq<char>, Error<P::Error>>,
    ) -> bool {
        &&& self.kept(after)
        &&& eeprom_decoded::<P, [u8; 8], Seq<char>, 8>(
            self.intf(),
            after.intf(),
            0x00ec,
            |raw: [u8; 8]| known(decoded(raw@.subrange(0, 8))),
            out,
        )
    }

    /// Queries the number of the electronics board: eight characters, as on
    /// the label of the board.
    pub fn query_board_number(&mut self) -> (r: Result<String, Error<P::Error>>)
        requires
            old(self).wf(),
        ensures
            (*old(self)).board_number_queried(*final(self), text_outcome(r)),
    {
        match self.intf.read_eeprom::<[u8; 8], 8>(0x00ec) {
            Ok(raw) => require_known(text_of_bytes(slice_subrange(raw.as_slice(), 0, 8))),
            Err(e) => Err(Error::Protocol(e)),
        }
    }

    /// Whether a query of the faults on record, started in this state, has
    /// ended in the state `after` with the result `out`.
    pub open spec fn faults_queried(
        self,
        after: Self,
        out: Result<Fault, Error<P::Error>>,
    ) -> bool {
        &&& self.kept(after)
        &&& memory_decoded::<P, u16, Fault, 2>(
            self.intf(),
            after.intf(),
            0x0082,
            |raw: u16| known(Fault::of_bits(raw)),
            out,
        )
    }

    /// Queries the faults on record. The dishwasher keeps them when it is
    /// switched off.
    pub fn query_faults(&mut self) -> (r: Result<Fault, Error<P::Error>>)
        requires
            old(self).wf(),
        ensures
            (*old(self)).faults_queried(*final(self), r),
    {
        match self.intf.read_memory::<u16, 2>(0x0082) {
            Ok(raw) => require_known(Fault::from_bits(raw)),
            Err(e) => Err(Error::Protocol(e)),
        }
    }

    /// Whether a query of the position of the program selector, started in
    /// this state, has ended in the state `after` with the result `out`.
    pub open spec fn program_selector_queried(
        self,
        after: Self,
        out: Result<u8, Error<P::Error>>,
    ) -> bool {
        &&& self.kept(after)
        &&& memory_decoded::<P, u8, u8, 1>(
            self.intf(),
            after.intf(),
            0x00af,
            |raw: u8| fine(raw),
            out,
        )
    }

    /// Queries the position of the program selector as a number. Which
    /// program belongs to a position depends on the model.
    pub fn query_program_selector(&mut self) -> (r: Result<u8, Error<P::Error>>)
        requires
            old(self).wf(),
        ensures
            (*old(self)).program_selector_queried(*final(self), r),
    {
        match self.intf.read_memory::<u8, 1>(0x00af) {
            Ok(raw) => Ok(raw),
            Err(e) => Err(Error::Protocol(e)),
        }
    }

    /// Whether a query of the type of the program, started in this state, has
    /// ended in the state `after` with the result `out`.
    pub open spec fn program_type_queried(
        self,
        after: Self,
        out: Result<ProgramType, Error<P::Error>>,
    ) -> bool {
        &&& self.kept(after)
        &&& memory_decoded::<P, u8, ProgramType, 1>(
            self.intf(),
            after.intf(),
            0x0065,
            |raw: u8| known(ProgramType::of_repr(raw)),
            out,
        )
    }

    /// Queries the type of the program that the selector points at.
    pub fn query_program_type(&mut self) -> (r: Result<ProgramType, Error<P::Error>>)
        requires
            old(self).wf(),
        ensures
            (*old(self)).program_type_queried(*final(self), r),
    {
        match self.intf.read_memory::<u8, 1>(0x0065) {
            Ok(raw) => require_known(ProgramType::from_repr(raw)),
            Err(e) => Err(Error::Protocol(e)),
        }
    }

    /// Whether a query of the top solo setting, started in this state, has
    /// ended in the state `after` with the result `out`.
    pub open spec fn top_solo_enabled_queried(
        self,
        after: Self,
        out: Result<bool, Error<P::Error>>,
    ) -> bool {
        &&& self.kept(after)
        &&& memory_decoded::<P, u8, bool, 1>(
            self.intf(),
            after.intf(),
            0x008e,
            |raw: u8| fine(raw & 0x01 != 0x00),
            out,
        )
    }

    /// Queries whether only the upper basket is washed.
    pub fn query_top_solo_enabled(&mut self) -> (r: Result<bool, Error<P::Error>>)
        requires
            old(self).wf(),
        ensures
            (*old(self)).top_solo_enabled_queried(*final(self), r),
    {
        match self.intf.read_memory::<u8, 1>(0x008e) {
            Ok(raw) => Ok(raw & 0x01 != 0x00),
            Err(e) => Err(Error::Protocol(e)),
        }
    }

    /// Whether a query of the phase of the program, started in this state,
    /// has ended in the state `after` with the result `out`.
    pub open spec fn program_phase_queried(
        self,
        after: Self,
        out: Result<ProgramPhase, Error<P::Error>>,
    ) -> bool {
        &&& self.kept(after)
        &&& memory_decoded::<P, u8, ProgramPhase, 1>(
            self.intf(),
            after.intf(),
            0x006a,
            |raw: u8| known(ProgramPhase::of_repr(raw)),
            out,
        )
    }

    /// Queries the phase that the program is in.
    pub fn query_program_phase(&mut self) -> (r: Result<ProgramPhase, Error<P::Error>>)
        requires
            old(self).wf(),
        ensures
            (*old(self)).program_phase_queried(*final(self), r),
    {
        match self.intf.read_memory::<u8, 1>(0x006a) {
            Ok(raw) => require_known(ProgramPhase::from_repr(raw)),
            Err(e) => Err(Error::Protocol(e)),
        }
    }

    /// Whether a query of the step of the program, started in this state, has
    /// ended in the state `after` with the result `out`.
    pub open spec fn program_step_queried(
        self,
        after: Self,
        out: Result<u8, Error<P::Error>>,
    ) -> bool {
        &&& self.kept(after)
        &&& memory_decoded::<P, u8, u8, 1>(
            self.intf(),
            after.intf(),
            0x020d,
            |raw: u8| fine(raw),
            out,
        )
    }

    /// Queries the step of the program, as the program chart numbers the
    /// steps.
    pub fn query_program_step(&mut self) -> (r: Result<u8, Error<P::Error>>)
        requires
            old(self).wf(),
        ensures
            (*old(self)).program_step_queried(*final(self), r),
    {
        match self.intf.read_memory::<u8, 1>(0x020d) {
            Ok(raw) => Ok(raw),
            Err(e) => Err(Error::Protocol(e)),
        }
    }

    /// Whether a query of the active actuators, started in this state, has
    /// ended in the state `after` with the result `out`.
    pub open spec fn active_actuators_queried(
        self,
        after: Self,
        out: Result<Actuator, Error<P::Error>>,
    ) -> bool {
        &&& self.kept(after)
        &&& memory_decoded::<P, u16, Actuator, 2>(
            self.intf(),
            after.intf(),
            0x022a,
            |raw: u16| known(Actuator::of_bits(raw & 0xe0ff)),
            out,
        )
    }

    /// Queries the actuators that are switched on. Of the two bytes read, the
    /// bits 8 to 12 belong to something else and are left out.
    pub fn query_active_actuators(&mut self) -> (r: Result<Actuator, Error<P::Error>>)
        requires
            old(self).wf(),
        ensures
            (*old(self)).active_actuators_queried(*final(self), r),
    {
        match self.intf.read_memory::<u16, 2>(0x022a) {
            Ok(raw) => require_known(Actuator::from_bits(raw & 0xe0ff)),
            Err(e) => Err(Error::Protocol(e)),
        }
    }

    /// Whether a query of the closed switches, started in this state, has
    /// ended in the state `after` with the result `out`.
    pub open spec fn closed_switches_queried(
        self,
        after: Self,
        out: Result<Switch, Error<P::Error>>,
    ) -> bool {
        &&& self.kept(after)
        &&& memory_decoded::<P, u8, Switch, 1>(
            self.intf(),
            after.intf(),
            0x006f,
            |raw: u8| known(Switch::of_bits(raw)),
            out,
        )
    }

    /// Queries the switches that are closed.
    pub fn query_closed_switches(&mut self) -> (r: Result<Switch, Error<P::Error>>)
        requires
            old(self).wf(),
        ensures
            (*old(self)).closed_switches_queried(*final(self), r),
    {
        match self.intf.read_memory::<u8, 1>(0x006f) {
            Ok(raw) => require_known(Switch::from_bits(raw)),
            Err(e) => Err(Error::Protocol(e)),
        }
    }

    /// Whether a query of the resistance of the thermistor, started in this
    /// state, has ended in the state `after` with the result `out`.
    ///
    /// Two readings are taken from memory: the one of the sensor, then the one
    /// that the program aims at. 255 in place of the second means that the
    /// program aims at none, and counts as 0.
    pub open spec fn ntc_resistance_queried(
        self,
        after: Self,
        out: Result<(u32, u32), Error<P::Error>>,
    ) -> bool {
        &&& self.kept(after)
        &&& exists|mid: Interface<P>, current: Result<u8, ProtocolError<P::Error>>|
            {
                &&& #[trigger] self.intf().memory_read::<u8, 1>(mid, 0x0061, current)
                &&& match current {
                    Ok(first) => memory_decoded::<P, u8, (u32, u32), 1>(
                        mid,
                        after.intf(),
                        0x006c,
                        |second: u8|
                            match ntc_reading::<P::Error>(first) {
                                Ok(now) => Ok(
                                    (
                                        now,
                                        if second == 0xff {
                                            0u32
                                        } else {
                                            ntc_resistance(second as int) as u32
                                        },
                                    ),
                                ),
                                Err(e) => Err(e),
                            },
                        out,
                    ),
                    Err(e) => after.intf() == mid && out == Err::<(u32, u32), Error<P::Error>>(
                        Error::Protocol(e),
                    ),
                }
            }
    }

    /// Queries the resistance of the temperature sensor in ohms: the one
    /// that the sensor has, then the one that the program aims at.
    ///
    /// A reading of 255 from the sensor, which stands for a sensor that is not
    /// connected, is an unexpected memory value.
    pub fn query_ntc_resistance(&mut self) -> (r: Result<(u32, u32), Error<P::Error>>)
        requires
            old(self).wf(),
        ensures
            (*old(self)).ntc_resistance_queried(*final(self), r),
    {
        let first = match self.intf.read_memory::<u8, 1>(0x0061) {
            Ok(first) => first,
            Err(e) => {
                return Err(Error::Protocol(e));
            },
        };
        match self.intf.read_memory::<u8, 1>(0x006c) {
            Ok(second) => match decode_ntc_reading(first) {
                Ok(now) => {
                    let target: u32 = if second == 0xff {
                        0
                    } else {
                        ntc_resistance_from_adc(second)
                    };
                    Ok((now, target))
                },
                Err(e) => Err(e),
            },
            Err(e) => Err(Error::Protocol(e)),
        }
    }

    /// Whether a query of the pulses of the flow meter, started in this
    /// state, has ended in the state `after` with the result `out`.
    ///
    /// Two counts are taken from memory: the pulses counted, then the pulses
    /// that the program aims at.
    pub open spec fn flow_meter_pulses_queried(
        self,
        after: Self,
        out: Result<(u16, u16), Error<P::Error>>,
    ) -> bool {
        &&& self.kept(after)
        &&& exists|mid: Interface<P>, current: Result<u16, ProtocolError<P::Error>>|
            {
                &&& #[trigger] self.intf().memory_read::<u16, 2>(mid, 0x0088, current)
                &&& match current {
                    Ok(first) => memory_decoded::<P, u16, (u16, u16), 2>(
                        mid,
                        after.intf(),
                        0x00c5,
                        |second: u16| fine((first, second)),
                        out,
                    ),
                    Err(e) => after.intf() == mid && out == Err::<(u16, u16), Error<P::Error>>(
                        Error::Protocol(e),
                    ),
                }
            }
    }

    /// Queries the pulses of the flow meter: the ones counted for the water
    /// that has come in, then the ones that the program aims at.
    pub fn query_flow_meter_pulses(&mut self) -> (r: Result<(u16, u16), Error<P::Error>>)
        requires
            old(self).wf(),
        ensures
            (*old(self)).flow_meter_pulses_queried(*final(self), r),
    {
        let first = match self.intf.read_memory::<u16, 2>(0x0088) {
            Ok(first) => first,
            Err(e) => {
                return Err(Error::Protocol(e));
            },
        };
        match self.intf.read_memory::<u16, 2>(0x00c5) {
            Ok(second) => Ok((first, second)),
            Err(e) => Err(Error::Protocol(e)),
        }
    }

    /// Whether a query of the amount of water aimed at, started in this
    /// state, has ended in the state `after` with the result `out`.
    pub open spec fn target_water_amount_queried(
        self,
        after: Self,
        out: Result<u16, Error<P::Error>>,
    ) -> bool {
        &&& self.kept(after)
        &&& memory_decoded::<P, u16, u16, 2>(
            self.intf(),
            after.intf(),
            0x00d6,
            |raw: u16| water_amount(raw),
            out,
        )
    }

    /// Queries the amount of water that the program aims at, in millilitres.
    ///
    /// The dishwasher keeps the amount in centilitres. An amount that in
    /// millilitres does not fit 16 bits is an unexpected memory value.
    pub fn query_target_water_amount(&mut self) -> (r: Result<u16, Error<P::Error>>)
        requires
            old(self).wf(),
        ensures
            (*old(self)).target_water_amount_queried(*final(self), r),
    {
        match self.intf.read_memory::<u16, 2>(0x00d6) {
            Ok(raw) => decode_water_amount(raw),
            Err(e) => Err(Error::Protocol(e)),
        }
    }

    /// Whether a start of the chosen program, started in this state, has
    /// ended in the state `after` with the result `out`.
    ///
    /// The state of the program control is read. Where it is "chosen and
    /// ready", "run" is written in its place. In every other state nothing is
    /// written and the result is [`Error::InvalidState`].
    pub open spec fn program_started(self, after: Self, out: Result<(), Error<P::Error>>) -> bool {
        &&& self.kept(after)
        &&& exists|mid: Interface<P>, state: Result<u8, ProtocolError<P::Error>>|
            {
                &&& #[trigger] self.intf().memory_read::<u8, 1>(mid, 0x0084, state)
                &&& match state {
                    Ok(value) => if value == 0x02 {
                        byte_written(mid, after.intf(), 0x0084, 0x05, out)
                    } else {
                        after.intf() == mid && out == Err::<(), Error<P::Error>>(
                            Error::InvalidState,
                        )
                    },
                    Err(e) => after.intf() == mid && out == Err::<(), Error<P::Error>>(
                        Error::Protocol(e),
                    ),
                }
            }
    }

    /// Starts the program that has been chosen.
    ///
    /// The program cannot be chosen through the diagnostic interface: that is
    /// done at the appliance. Where no program is chosen, or one is running
    /// already, the result is [`Error::InvalidState`] and nothing is written.
    pub fn start_program(&mut self) -> (r: Result<(), Error<P::Error>>)
        requires
            old(self).wf(),
        ensures
            (*old(self)).program_started(*final(self), r),
    {
        let state = self.intf.read_memory::<u8, 1>(0x0084);
        let ghost mid = self.intf;
        match state {
            Ok(value) => if value == 0x02 {
                write_byte(&mut self.intf, 0x0084, 0x05)
            } else {
                Err(Error::InvalidState)
            },
            Err(e) => Err(Error::Protocol(e)),
        }
    }

    /// Whether a query of the property at the place `index` of the table,
    /// started in this state, has ended in the state `after` with the result
    /// `out`: the result of the query that belongs to the property, as a
    /// value.
    pub open spec fn property_queried(
        self,
        after: Self,
        index: int,
        out: Result<ValueView, Error<P::Error>>,
    ) -> bool {
        if index == 0 {
            exists|v: Result<Seq<char>, Error<P::Error>>|
                {
                    &&& #[trigger] self.board_number_queried(after, v)
                    &&& out == mapped(v, |t: Seq<char>| ValueView::Text(t))
                }
        } else if index == 1 {
            exists|v: Result<Fault, Error<P::Error>>|
                {
                    &&& #[trigger] self.faults_queried(after, v)
                    &&& out == mapped(v, |f: Fault| ValueView::Text(f.text()))
                }
        } else if index == 2 {
            exists|v: Result<u8, Error<P::Error>>|
                {
                    &&& #[trigger] self.program_selector_queried(after, v)
                    &&& out == mapped(v, |n: u8| ValueView::Number(n as u32))
                }
        } else if index == 3 {
            exists|v: Result<ProgramType, Error<P::Error>>|
                {
                    &&& #[trigger] self.program_type_queried(after, v)
                    &&& out == mapped(v, |m: ProgramType| ValueView::Text(m.name()))
                }
        } else if index == 4 {
            exists|v: Result<bool, Error<P::Error>>|
                {
                    &&& #[trigger] self.top_solo_enabled_queried(after, v)
                    &&& out == mapped(v, |b: bool| ValueView::Bool(b))
                }
        } else if index == 5 {
            exists|v: Result<ProgramPhase, Error<P::Error>>|
                {
                    &&& #[trigger] self.program_phase_queried(after, v)
                    &&& out == mapped(v, |m: ProgramPhase| ValueView::Text(m.name()))
                }
        } else if index == 6 {
            exists|v: Result<u8, Error<P::Error>>|
                {
                    &&& #[trigger] self.program_step_queried(after, v)
                    &&& out == mapped(v, |n: u8| ValueView::Number(n as u32))
                }
        } else if index == 7 {
            exists|v: Result<Actuator, Error<P::Error>>|
                {
                    &&& #[trigger] self.active_actuators_queried(after, v)
                    &&& out == mapped(v, |f: Actuator| ValueView::Text(f.text()))
                }
        } else if index == 8 {
            exists|v: Result<Switch, Error<P::Error>>|
                {
                    &&& #[trigger] self.closed_switches_queried(after, v)
                    &&& out == mapped(v, |f: Switch| ValueView::Text(f.text()))
                }
        } else if index == 9 {
            exists|v: Result<(u32, u32), Error<P::Error>>|
                {
                    &&& #[trigger] self.ntc_resistance_queried(after, v)
                    &&& out == mapped(v, |s: (u32, u32)| ValueView::Sensor(s.0, s.1))
                }
        } else if index == 10 {
            exists|v: Result<(u16, u16), Error<P::Error>>|
                {
                    &&& #[trigger] self.flow_meter_pulses_queried(after, v)
                    &&& out == mapped(v, |s: (u16, u16)| ValueView::Sensor(s.0 as u32, s.1 as u32))
                }
        } else {
            exists|v: Result<u16, Error<P::Error>>|
                {
                    &&& #[trigger] self.target_water_amount_queried(after, v)
                    &&& out == mapped(v, |n: u16| ValueView::Number(n as u32))
                }
        }
    }

    /// Whether a trigger of the action at the place `index` of the table with
    /// the argument `param`, started in this state, has ended in the state
    /// `after` with the result `out`.
    ///
    /// An action with parameters takes a string that names them. An action
    /// without takes no argument. Any other argument is refused and nothing
    /// is transmitted.
    pub open spec fn action_triggered(
        self,
        after: Self,
        index: int,
        param: Option<ValueView>,
        out: Result<(), Error<P::Error>>,
    ) -> bool {
        match param {
            None => self.program_started(after, out),
            Some(_) => after == self && out == Err::<(), Error<P::Error>>(Error::InvalidArgument),
        }
    }
}

impl<P> Sealed for Dishwasher<P> {

}

impl<P: Port> Device<P> for Dishwasher<P> {
    open spec fn intf(&self) -> Interface<P> {
        Dishwasher::intf(self)
    }

    open spec fn id(&self) -> u16 {
        Dishwasher::id(self)
    }

    open spec fn kind_of(&self) -> DeviceKind {
        DeviceKind::Dishwasher
    }

    open spec fn property_table(&self) -> Seq<PropertyView> {
        property_list()
    }

    open spec fn action_table(&self) -> Seq<ActionView> {
        action_list()
    }

    open spec fn knows(id: u16) -> bool {
        Self::supports(id)
    }

    fn connect(port: P) -> (r: Result<Self, Error<P::Error>>)
        ensures
            Self::connecting(port, r),
            r matches Ok(dev) ==> Self::connected(dev),
    {
        let mut intf = Interface::new(port);
        let ghost start = intf;
        let id = match intf.query_software_id() {
            Ok(id) => id,
            Err(e) => {
                return Err(Error::Protocol(e));
            },
        };
        proof {
            lemma_identified(start, intf, id);
        }
        if id == SOFTWARE_ID {
            Self::initialize(intf, id)
        } else {
            Err(Error::UnknownSoftwareId(id))
        }
    }

    fn software_id(&self) -> (r: u16) {
        self.software_id
    }

    fn kind(&self) -> (r: DeviceKind) {
        DeviceKind::Dishwasher
    }

    fn properties(&self) -> (r: &'static [Property]) {
        property_table()
    }

    fn actions(&self) -> (r: &'static [Action]) {
        action_table()
    }

    fn query_property(&mut self, prop: &Property) -> (r: Result<Value, Error<P::Error>>)
        ensures
            match position(property_list(), prop@) {
                Some(index) => (*old(self)).property_queried(
                    *final(self),
                    index,
                    value_outcome(r),
                ),
                None => *final(self) == *old(self),
            },
    {
        match find_property(property_table(), prop) {
            Some(0) => match self.query_board_number() {
                Ok(v) => Ok(Value::String(v)),
                Err(e) => Err(e),
            },
            Some(1) => match self.query_faults() {
                Ok(v) => Ok(Value::String(v.to_string())),
                Err(e) => Err(e),
            },
            Some(2) => match self.query_program_selector() {
                Ok(v) => Ok(Value::Number(v as u32)),
                Err(e) => Err(e),
            },
            Some(3) => match self.query_program_type() {
                Ok(v) => Ok(Value::String(v.to_string())),
                Err(e) => Err(e),
            },
            Some(4) => match self.query_top_solo_enabled() {
                Ok(v) => Ok(Value::Bool(v)),
                Err(e) => Err(e),
            },
            Some(5) => match self.query_program_phase() {
                Ok(v) => Ok(Value::String(v.to_string())),
                Err(e) => Err(e),
            },
            Some(6) => match self.query_program_step() {
                Ok(v) => Ok(Value::Number(v as u32)),
                Err(e) => Err(e),
            },
            Some(7) => match self.query_active_actuators() {
                Ok(v) => Ok(Value::String(v.to_string())),
                Err(e) => Err(e),
            },
            Some(8) => match self.query_closed_switches() {
                Ok(v) => Ok(Value::String(v.to_string())),
                Err(e) => Err(e),
            },
            Some(9) => match self.query_ntc_resistance() {
                Ok(v) => Ok(Value::Sensor(v.0, v.1)),
                Err(e) => Err(e),
            },
            Some(10) => match self.query_flow_meter_pulses() {
                Ok(v) => Ok(Value::Sensor(v.0 as u32, v.1 as u32)),
                Err(e) => Err(e),
            },
            Some(11) => match self.query_target_water_amount() {
                Ok(v) => Ok(Value::Number(v as u32)),
                Err(e) => Err(e),
            },
            _ => Err(Error::UnknownProperty),
        }
    }

    fn trigger_action(&mut self, action: &Action, param: Option<Value>) -> (r: Result<
        (),
        Error<P::Error>,
    >)
        ensures
            match position(action_list(), action@) {
                Some(index) => (*old(self)).action_triggered(
                    *final(self),
                    index,
                    argument_view(param),
                    r,
                ),
                None => *final(self) == *old(self),
            },
    {
        proof {
            lemma_position(action_list(), action@);
        }
        match find_action(action_table(), action) {
            Some(0) => match param {
                None => self.start_program(),
                Some(_) => Err(Error::InvalidArgument),
            },
            _ => Err(Error::UnknownAction),
        }
    }

    fn interface(&mut self) -> (r: &mut Interface<P>) {
        &mut self.intf
    }
}

} // verus!
