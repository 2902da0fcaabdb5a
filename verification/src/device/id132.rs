//! Washing machines of the W 8xx and W 9xx series with an EDPW 122 board.
//!
//! The driver knows appliances with software ID 132. They report their
//! faults one by one: each fault has a bit that says that it is present and,
//! mostly, a bit that says that it is on record.
use crate::command::Error as ProtocolError;
use crate::device::private::Sealed;
use crate::device::utils::{
    decode_ntc_reading, decode_operating_time, duration_of_secs, ntc_reading, operating_seconds,
    rpm, rpm_from_motor_speed,
};
use crate::device::{
    Action, ActionView, Device, DeviceKind, Error, Fault, Property, PropertyKind, PropertyView,
    Value, ValueView, actions_view, decimal, decimal_string, find_property, fine, identifying,
    known, lemma_identified, lemma_unlocked, mapped, memory_decoded, position, properties_view,
    require_known, unlock, unlocked, unlocking, value_outcome,
};
use crate::flags::{all_bits, flags_text, format_flags, table_view, valid_bits};
use crate::interface::Interface;
use crate::port::Port;
use crate::wire::Wire;
use core::time::Duration;
use vstd::prelude::*;

verus! {

/// The software ID that this driver knows.
pub const SOFTWARE_ID: u16 = 132;

/// The key that unlocks read access.
pub const READ_KEY: u16 = 0x15a8;

/// The key that unlocks full access.
pub const FULL_KEY: u16 = 0x703d;

/// A fault of the machine, as the service documents number them from F1 to
/// F9.
#[derive(PartialEq, Eq, Structural, Copy, Clone, Debug)]
pub enum FaultCode {
    /// F1: the level switch, which senses the water level.
    LevelSwitch,
    /// F2: the thermistor, which senses the temperature.
    NtcThermistor,
    /// F3: the heater.
    Heater,
    /// F4: the tachometer of the drum motor.
    Tachometer,
    /// F5: too much detergent.
    DetergentOverdose,
    /// F6: the water inlet.
    WaterInlet,
    /// F7: the drainage.
    Drainage,
    /// F8: the final spin stayed below 400 revolutions per minute.
    FinalSpinSpeed,
    /// F9: the EEPROM.
    Eeprom,
}

impl FaultCode {
    /// Where the machine keeps the bit that says that the fault is present
    /// now: the address and the mask.
    pub open spec fn active(self) -> (u16, u8) {
        match self {
            FaultCode::LevelSwitch => (0x0061, 0x02),
            FaultCode::NtcThermistor => (0x0061, 0x04),
            FaultCode::Heater => (0x0004, 0x20),
            FaultCode::Tachometer => (0x007a, 0x02),
            FaultCode::DetergentOverdose => (0x000e, 0x10),
            FaultCode::WaterInlet => (0x0004, 0x02),
            FaultCode::Drainage => (0x0004, 0x04),
            FaultCode::FinalSpinSpeed => (0x0037, 0x10),
            FaultCode::Eeprom => (0x0131, 0x0c),
        }
    }

    /// Where the machine keeps the bit that says that the fault is on record:
    /// the address and the mask. Too much detergent has no such bit.
    pub open spec fn stored(self) -> Option<(u16, u8)> {
        match self {
            FaultCode::LevelSwitch => Some((0x000e, 0x01)),
            FaultCode::NtcThermistor => Some((0x000e, 0x02)),
            FaultCode::Heater => Some((0x000e, 0x04)),
            FaultCode::Tachometer => Some((0x000e, 0x08)),
            FaultCode::DetergentOverdose => None,
            FaultCode::WaterInlet => Some((0x000e, 0x20)),
            FaultCode::Drainage => Some((0x000e, 0x40)),
            FaultCode::FinalSpinSpeed => Some((0x000e, 0x80)),
            FaultCode::Eeprom => Some((0x000f, 0x01)),
        }
    }

    /// Returns the address and the mask of the fault's active bit.
    pub fn active_place(self) -> (r: (u16, u8))
        ensures
            r == self.active(),
    {
        match self {
            FaultCode::LevelSwitch => (0x0061, 0x02),
            FaultCode::NtcThermistor => (0x0061, 0x04),
            FaultCode::Heater => (0x0004, 0x20),
            FaultCode::Tachometer => (0x007a, 0x02),
            FaultCode::DetergentOverdose => (0x000e, 0x10),
            FaultCode::WaterInlet => (0x0004, 0x02),
            FaultCode::Drainage => (0x0004, 0x04),
            FaultCode::FinalSpinSpeed => (0x0037, 0x10),
            FaultCode::Eeprom => (0x0131, 0x0c),
        }
    }

    /// Returns the address and the mask of the fault's stored bit, if it has
    /// one.
    pub fn stored_place(self) -> (r: Option<(u16, u8)>)
        ensures
            r == self.stored(),
    {
        match self {
            FaultCode::LevelSwitch => Some((0x000e, 0x01)),
            FaultCode::NtcThermistor => Some((0x000e, 0x02)),
            FaultCode::Heater => Some((0x000e, 0x04)),
            FaultCode::Tachometer => Some((0x000e, 0x08)),
            FaultCode::DetergentOverdose => None,
            FaultCode::WaterInlet => Some((0x000e, 0x20)),
            FaultCode::Drainage => Some((0x000e, 0x40)),
            FaultCode::FinalSpinSpeed => Some((0x000e, 0x80)),
            FaultCode::Eeprom => Some((0x000f, 0x01)),
        }
    }
}

/// The temperatures in degrees Celsius that the machine can aim at, by
/// temperature index. The machine compares the sensor's readings with
/// thresholds of its own; this table names the temperature of each.
pub open spec fn temperatures() -> Seq<u8> {
    seq![
        90u8, 21u8, 27u8, 32u8, 34u8, 37u8, 47u8, 57u8, 72u8, 77u8, 80u8, 82u8, 85u8, 86u8,
        65u8,
    ]
}

/// The temperature in degrees Celsius that belongs to a temperature index,
/// where the table has the index.
pub open spec fn target_temperature<E>(index: u8) -> Result<u8, Error<E>> {
    if index < 15 {
        Ok(temperatures()[index as int])
    } else {
        Err(Error::UnexpectedMemoryValue)
    }
}

/// Looks the temperature of a temperature index up.
pub fn decode_target_temperature<E>(index: u8) -> (r: Result<u8, Error<E>>)
    ensures
        r == target_temperature::<E>(index),
{
    let table: [u8; 15] = [90, 21, 27, 32, 34, 37, 47, 57, 72, 77, 80, 82, 85, 86, 65];
    if index < 15 {
        Ok(table[index as usize])
    } else {
        Err(Error::UnexpectedMemoryValue)
    }
}

/// A washing program: a position of the program selector.
#[derive(PartialEq, Eq, Structural, Copy, Clone, Debug)]
pub enum Program {
    /// The end position: no program.
    Finish,
    /// Cottons, 95 °C.
    Cottons95,
    /// Cottons, 75 °C.
    Cottons75,
    /// Cottons, 60 °C.
    Cottons60,
    /// Cottons, 50 °C.
    Cottons50,
    /// Cottons, 40 °C.
    Cottons40,
    /// Cottons, 30 °C.
    Cottons30,
    /// Minimum iron, 60 °C.
    MinimumIron60,
    /// Minimum iron, 50 °C.
    MinimumIron50,
    /// Minimum iron, 40 °C.
    MinimumIron40,
    /// Minimum iron, 30 °C.
    MinimumIron30,
    /// Delicates, 60 °C.
    Delicates60,
    /// Delicates, 50 °C.
    Delicates50,
    /// Delicates, 40 °C.
    Delicates40,
    /// Delicates, 30 °C.
    Delicates30,
    /// Delicates, cold.
    DelicatesCold,
    /// Woolens, 40 °C.
    Woolens40,
    /// Woolens, 30 °C.
    Woolens30,
    /// Woolens, cold.
    WoolensCold,
    /// Quick wash, 40 °C.
    QuickWash40,
    /// Starch.
    Starch,
    /// Spin.
    Spin,
    /// Drain.
    Drain,
    /// Separate rinse.
    SeparateRinse,
}

impl Program {
    /// The number that stands for the program in the appliance's memory.
    pub open spec fn repr(self) -> u8 {
        match self {
            Program::Finish => 0x00,
            Program::Cottons95 => 0x01,
            Program::Cottons75 => 0x02,
            Program::Cottons60 => 0x03,
            Program::Cottons50 => 0x04,
            Program::Cottons40 => 0x05,
            Program::Cottons30 => 0x06,
            Program::MinimumIron60 => 0x07,
            Program::MinimumIron50 => 0x08,
            Program::MinimumIron40 => 0x09,
            Program::MinimumIron30 => 0x0a,
            Program::Delicates60 => 0x0b,
            Program::Delicates50 => 0x0c,
            Program::Delicates40 => 0x0d,
            Program::Delicates30 => 0x0e,
            Program::DelicatesCold => 0x0f,
            Program::Woolens40 => 0x10,
            Program::Woolens30 => 0x11,
            Program::WoolensCold => 0x12,
            Program::QuickWash40 => 0x13,
            Program::Starch => 0x14,
            Program::Spin => 0x15,
            Program::Drain => 0x16,
            Program::SeparateRinse => 0x17,
        }
    }

    /// The program that `value` stands for, if it stands for one.
    pub open spec fn of_repr(value: u8) -> Option<Program> {
        if value == 0x00 {
            Some(Program::Finish)
        } else if value == 0x01 {
            Some(Program::Cottons95)
        } else if value == 0x02 {
            Some(Program::Cottons75)
        } else if value == 0x03 {
            Some(Program::Cottons60)
        } else if value == 0x04 {
            Some(Program::Cottons50)
        } else if value == 0x05 {
            Some(Program::Cottons40)
        } else if value == 0x06 {
            Some(Program::Cottons30)
        } else if value == 0x07 {
            Some(Program::MinimumIron60)
        } else if value == 0x08 {
            Some(Program::MinimumIron50)
        } else if value == 0x09 {
            Some(Program::MinimumIron40)
        } else if value == 0x0a {
            Some(Program::MinimumIron30)
        } else if value == 0x0b {
            Some(Program::Delicates60)
        } else if value == 0x0c {
            Some(Program::Delicates50)
        } else if value == 0x0d {
            Some(Program::Delicates40)
        } else if value == 0x0e {
            Some(Program::Delicates30)
        } else if value == 0x0f {
            Some(Program::DelicatesCold)
        } else if value == 0x10 {
            Some(Program::Woolens40)
        } else if value == 0x11 {
            Some(Program::Woolens30)
        } else if value == 0x12 {
            Some(Program::WoolensCold)
        } else if value == 0x13 {
            Some(Program::QuickWash40)
        } else if value == 0x14 {
            Some(Program::Starch)
        } else if value == 0x15 {
            Some(Program::Spin)
        } else if value == 0x16 {
            Some(Program::Drain)
        } else if value == 0x17 {
            Some(Program::SeparateRinse)
        } else {
            None
        }
    }

    /// The name of the program.
    pub open spec fn name(self) -> Seq<char> {
        match self {
            Program::Finish => "Finish"@,
            Program::Cottons95 => "Cottons95"@,
            Program::Cottons75 => "Cottons75"@,
            Program::Cottons60 => "Cottons60"@,
            Program::Cottons50 => "Cottons50"@,
            Program::Cottons40 => "Cottons40"@,
            Program::Cottons30 => "Cottons30"@,
            Program::MinimumIron60 => "MinimumIron60"@,
            Program::MinimumIron50 => "MinimumIron50"@,
            Program::MinimumIron40 => "MinimumIron40"@,
            Program::MinimumIron30 => "MinimumIron30"@,
            Program::Delicates60 => "Delicates60"@,
            Program::Delicates50 => "Delicates50"@,
            Program::Delicates40 => "Delicates40"@,
            Program::Delicates30 => "Delicates30"@,
            Program::DelicatesCold => "DelicatesCold"@,
            Program::Woolens40 => "Woolens40"@,
            Program::Woolens30 => "Woolens30"@,
            Program::WoolensCold => "WoolensCold"@,
            Program::QuickWash40 => "QuickWash40"@,
            Program::Starch => "Starch"@,
            Program::Spin => "Spin"@,
            Program::Drain => "Drain"@,
            Program::SeparateRinse => "SeparateRinse"@,
        }
    }

    /// Returns the program that `value` stands for, if it stands for one.
    pub fn from_repr(value: u8) -> (r: Option<Program>)
        ensures
            r == Self::of_repr(value),
    {
        match value {
            0x00 => Some(Program::Finish),
            0x01 => Some(Program::Cottons95),
            0x02 => Some(Program::Cottons75),
            0x03 => Some(Program::Cottons60),
            0x04 => Some(Program::Cottons50),
            0x05 => Some(Program::Cottons40),
            0x06 => Some(Program::Cottons30),
            0x07 => Some(Program::MinimumIron60),
            0x08 => Some(Program::MinimumIron50),
            0x09 => Some(Program::MinimumIron40),
            0x0a => Some(Program::MinimumIron30),
            0x0b => Some(Program::Delicates60),
            0x0c => Some(Program::Delicates50),
            0x0d => Some(Program::Delicates40),
            0x0e => Some(Program::Delicates30),
            0x0f => Some(Program::DelicatesCold),
            0x10 => Some(Program::Woolens40),
            0x11 => Some(Program::Woolens30),
            0x12 => Some(Program::WoolensCold),
            0x13 => Some(Program::QuickWash40),
            0x14 => Some(Program::Starch),
            0x15 => Some(Program::Spin),
            0x16 => Some(Program::Drain),
            0x17 => Some(Program::SeparateRinse),
            _ => None,
        }
    }

    /// Returns the number that stands for the program in the appliance's memory.
    pub fn to_repr(self) -> (r: u8)
        ensures
            r == self.repr(),
    {
        match self {
            Program::Finish => 0x00,
            Program::Cottons95 => 0x01,
            Program::Cottons75 => 0x02,
            Program::Cottons60 => 0x03,
            Program::Cottons50 => 0x04,
            Program::Cottons40 => 0x05,
            Program::Cottons30 => 0x06,
            Program::MinimumIron60 => 0x07,
            Program::MinimumIron50 => 0x08,
            Program::MinimumIron40 => 0x09,
            Program::MinimumIron30 => 0x0a,
            Program::Delicates60 => 0x0b,
            Program::Delicates50 => 0x0c,
            Program::Delicates40 => 0x0d,
            Program::Delicates30 => 0x0e,
            Program::DelicatesCold => 0x0f,
            Program::Woolens40 => 0x10,
            Program::Woolens30 => 0x11,
            Program::WoolensCold => 0x12,
            Program::QuickWash40 => 0x13,
            Program::Starch => 0x14,
            Program::Spin => 0x15,
            Program::Drain => 0x16,
            Program::SeparateRinse => 0x17,
        }
    }

    /// Returns the name of the program.
    pub fn to_string(&self) -> (r: String)
        ensures
            r@ == self.name(),
    {
        match self {
            Program::Finish => "Finish".to_string(),
            Program::Cottons95 => "Cottons95".to_string(),
            Program::Cottons75 => "Cottons75".to_string(),
            Program::Cottons60 => "Cottons60".to_string(),
            Program::Cottons50 => "Cottons50".to_string(),
            Program::Cottons40 => "Cottons40".to_string(),
            Program::Cottons30 => "Cottons30".to_string(),
            Program::MinimumIron60 => "MinimumIron60".to_string(),
            Program::MinimumIron50 => "MinimumIron50".to_string(),
            Program::MinimumIron40 => "MinimumIron40".to_string(),
            Program::MinimumIron30 => "MinimumIron30".to_string(),
            Program::Delicates60 => "Delicates60".to_string(),
            Program::Delicates50 => "Delicates50".to_string(),
            Program::Delicates40 => "Delicates40".to_string(),
            Program::Delicates30 => "Delicates30".to_string(),
            Program::DelicatesCold => "DelicatesCold".to_string(),
            Program::Woolens40 => "Woolens40".to_string(),
            Program::Woolens30 => "Woolens30".to_string(),
            Program::WoolensCold => "WoolensCold".to_string(),
            Program::QuickWash40 => "QuickWash40".to_string(),
            Program::Starch => "Starch".to_string(),
            Program::Spin => "Spin".to_string(),
            Program::Drain => "Drain".to_string(),
            Program::SeparateRinse => "SeparateRinse".to_string(),
        }
    }
}

/// The phase of a washing program. A program need not go through every phase,
/// nor in this order.
#[derive(PartialEq, Eq, Structural, Copy, Clone, Debug)]
pub enum ProgramPhase {
    /// No program has started.
    Idle,
    /// The program waits for its start time.
    DelayedStart,
    /// Soak or pre-wash, first part.
    SoakPreWash1,
    /// Soak or pre-wash, second part.
    SoakPreWash2,
    /// Main wash.
    MainWash,
    /// First rinse.
    Rinse1,
    /// Second rinse.
    Rinse2,
    /// Third rinse.
    Rinse3,
    /// Fourth rinse.
    Rinse4,
    /// Fifth rinse.
    Rinse5,
    /// Rinse hold.
    RinseHold,
    /// Drain.
    Drain,
    /// Final spin.
    FinalSpin,
    /// Anti-crease, or the end of the program.
    AntiCreaseFinish,
}

impl ProgramPhase {
    /// The number that stands for the phase in the appliance's memory.
    pub open spec fn repr(self) -> u8 {
        match self {
            ProgramPhase::Idle => 0x00,
            ProgramPhase::DelayedStart => 0x01,
            ProgramPhase::SoakPreWash1 => 0x02,
            ProgramPhase::SoakPreWash2 => 0x03,
            ProgramPhase::MainWash => 0x04,
            ProgramPhase::Rinse1 => 0x05,
            ProgramPhase::Rinse2 => 0x06,
            ProgramPhase::Rinse3 => 0x07,
            ProgramPhase::Rinse4 => 0x08,
            ProgramPhase::Rinse5 => 0x09,
            ProgramPhase::RinseHold => 0x0a,
            ProgramPhase::Drain => 0x0b,
            ProgramPhase::FinalSpin => 0x0c,
            ProgramPhase::AntiCreaseFinish => 0x0d,
        }
    }

    /// The phase that `value` stands for, if it stands for one.
    pub open spec fn of_repr(value: u8) -> Option<ProgramPhase> {
        if value == 0x00 {
            Some(ProgramPhase::Idle)
        } else if value == 0x01 {
            Some(ProgramPhase::DelayedStart)
        } else if value == 0x02 {
            Some(ProgramPhase::SoakPreWash1)
        } else if value == 0x03 {
            Some(ProgramPhase::SoakPreWash2)
        } else if value == 0x04 {
            Some(ProgramPhase::MainWash)
        } else if value == 0x05 {
            Some(ProgramPhase::Rinse1)
        } else if value == 0x06 {
            Some(ProgramPhase::Rinse2)
        } else if value == 0x07 {
            Some(ProgramPhase::Rinse3)
        } else if value == 0x08 {
            Some(ProgramPhase::Rinse4)
        } else if value == 0x09 {
            Some(ProgramPhase::Rinse5)
        } else if value == 0x0a {
            Some(ProgramPhase::RinseHold)
        } else if value == 0x0b {
            Some(ProgramPhase::Drain)
        } else if value == 0x0c {
            Some(ProgramPhase::FinalSpin)
        } else if value == 0x0d {
            Some(ProgramPhase::AntiCreaseFinish)
        } else {
            None
        }
    }

    /// The name of the phase.
    pub open spec fn name(self) -> Seq<char> {
        match self {
            ProgramPhase::Idle => "Idle"@,
            ProgramPhase::DelayedStart => "DelayedStart"@,
            ProgramPhase::SoakPreWash1 => "SoakPreWash1"@,
            ProgramPhase::SoakPreWash2 => "SoakPreWash2"@,
            ProgramPhase::MainWash => "MainWash"@,
            ProgramPhase::Rinse1 => "Rinse1"@,
            ProgramPhase::Rinse2 => "Rinse2"@,
            ProgramPhase::Rinse3 => "Rinse3"@,
            ProgramPhase::Rinse4 => "Rinse4"@,
            ProgramPhase::Rinse5 => "Rinse5"@,
            ProgramPhase::RinseHold => "RinseHold"@,
            ProgramPhase::Drain => "Drain"@,
            ProgramPhase::FinalSpin => "FinalSpin"@,
            ProgramPhase::AntiCreaseFinish => "AntiCreaseFinish"@,
        }
    }

    /// Returns the phase that `value` stands for, if it stands for one.
    pub fn from_repr(value: u8) -> (r: Option<ProgramPhase>)
        ensures
            r == Self::of_repr(value),
    {
        match value {
            0x00 => Some(ProgramPhase::Idle),
            0x01 => Some(ProgramPhase::DelayedStart),
            0x02 => Some(ProgramPhase::SoakPreWash1),
            0x03 => Some(ProgramPhase::SoakPreWash2),
            0x04 => Some(ProgramPhase::MainWash),
            0x05 => Some(ProgramPhase::Rinse1),
            0x06 => Some(ProgramPhase::Rinse2),
            0x07 => Some(ProgramPhase::Rinse3),
            0x08 => Some(ProgramPhase::Rinse4),
            0x09 => Some(ProgramPhase::Rinse5),
            0x0a => Some(ProgramPhase::RinseHold),
            0x0b => Some(ProgramPhase::Drain),
            0x0c => Some(ProgramPhase::FinalSpin),
            0x0d => Some(ProgramPhase::AntiCreaseFinish),
            _ => None,
        }
    }

    /// Returns the number that stands for the phase in the appliance's memory.
    pub fn to_repr(self) -> (r: u8)
        ensures
            r == self.repr(),
    {
        match self {
            ProgramPhase::Idle => 0x00,
            ProgramPhase::DelayedStart => 0x01,
            ProgramPhase::SoakPreWash1 => 0x02,
            ProgramPhase::SoakPreWash2 => 0x03,
            ProgramPhase::MainWash => 0x04,
            ProgramPhase::Rinse1 => 0x05,
            ProgramPhase::Rinse2 => 0x06,
            ProgramPhase::Rinse3 => 0x07,
            ProgramPhase::Rinse4 => 0x08,
            ProgramPhase::Rinse5 => 0x09,
            ProgramPhase::RinseHold => 0x0a,
            ProgramPhase::Drain => 0x0b,
            ProgramPhase::FinalSpin => 0x0c,
            ProgramPhase::AntiCreaseFinish => 0x0d,
        }
    }

    /// Returns the name of the phase.
    pub fn to_string(&self) -> (r: String)
        ensures
            r@ == self.name(),
    {
        match self {
            ProgramPhase::Idle => "Idle".to_string(),
            ProgramPhase::DelayedStart => "DelayedStart".to_string(),
            ProgramPhase::SoakPreWash1 => "SoakPreWash1".to_string(),
            ProgramPhase::SoakPreWash2 => "SoakPreWash2".to_string(),
            ProgramPhase::MainWash => "MainWash".to_string(),
            ProgramPhase::Rinse1 => "Rinse1".to_string(),
            ProgramPhase::Rinse2 => "Rinse2".to_string(),
            ProgramPhase::Rinse3 => "Rinse3".to_string(),
            ProgramPhase::Rinse4 => "Rinse4".to_string(),
            ProgramPhase::Rinse5 => "Rinse5".to_string(),
            ProgramPhase::RinseHold => "RinseHold".to_string(),
            ProgramPhase::Drain => "Drain".to_string(),
            ProgramPhase::FinalSpin => "FinalSpin".to_string(),
            ProgramPhase::AntiCreaseFinish => "AntiCreaseFinish".to_string(),
        }
    }
}

/// The actuators of the machine that are switched on. Several can be on at
/// once.
#[derive(PartialEq, Eq, Structural, Copy, Clone, Debug)]
pub struct Actuator {
    bits: u16,
}

impl Actuator {
    /// The actuators with their masks, in the order in which they are written.
    pub open spec fn flags() -> Seq<(Seq<char>, u16)> {
        seq![
            ("Softener"@, 0x0002u16),
            ("PreWash"@, 0x0004u16),
            ("MainWash"@, 0x0008u16),
            ("DrainPump"@, 0x0010u16),
            ("WarmWater"@, 0x0020u16),
            ("Reverse"@, 0x2000u16),
            ("FieldSwitch"@, 0x4000u16),
            ("Heater"@, 0x8000u16),
        ]
    }

    /// The bits of the set.
    pub closed spec fn value(self) -> u16 {
        self.bits
    }

    /// The set with the bits `bits`, if every bit is one of the table.
    pub closed spec fn of_bits(bits: u16) -> Option<Actuator> {
        if bits & !all_bits(Self::flags()) == 0 {
            Some(Actuator { bits })
        } else {
            None
        }
    }

    /// The names of the actuators of the set, separated by `" | "`.
    pub open spec fn text(self) -> Seq<char> {
        flags_text(Self::flags(), self.value() as u16)
    }

    /// The actuators with their masks.
    pub fn table() -> (r: &'static [(&'static str, u16)])
        ensures
            table_view(r) == Self::flags(),
    {
        let r: &'static [(&'static str, u16)] = &[
            ("Softener", 0x0002),
            ("PreWash", 0x0004),
            ("MainWash", 0x0008),
            ("DrainPump", 0x0010),
            ("WarmWater", 0x0020),
            ("Reverse", 0x2000),
            ("FieldSwitch", 0x4000),
            ("Heater", 0x8000),
        ];
        assert(table_view(r) =~= Self::flags());
        r
    }

    /// The set with the bits `bits`. Bits that are none of the table are
    /// refused.
    pub fn from_bits(bits: u16) -> (r: Option<Actuator>)
        ensures
            r == Self::of_bits(bits),
            r matches Some(set) ==> set.value() == bits,
            r is Some <==> bits & !all_bits(Self::flags()) == 0,
    {
        if valid_bits(Self::table(), bits) {
            Some(Actuator { bits })
        } else {
            None
        }
    }

    /// The bits of the set.
    pub fn bits(&self) -> (r: u16)
        ensures
            r == self.value(),
    {
        self.bits
    }

    /// The names of the actuators of the set, separated by `" | "`.
    pub fn to_string(&self) -> (r: String)
        ensures
            r@ == self.text(),
    {
        format_flags(Self::table(), self.bits)
    }
}

/// The properties of the machine, in the order in which it lists them.
pub open spec fn property_list() -> Seq<PropertyView> {
    seq![
        PropertyView {
            kind: PropertyKind::General,
            id: "operating_time"@,
            name: "Operating Time"@,
            unit: None,
        },
        PropertyView {
            kind: PropertyKind::Failure,
            id: "fault_f1"@,
            name: "F1: Water Level Switch"@,
            unit: None,
        },
        PropertyView {
            kind: PropertyKind::Failure,
            id: "fault_f2"@,
            name: "F2: NTC Thermistor"@,
            unit: None,
        },
        PropertyView {
            kind: PropertyKind::Failure,
            id: "fault_f3"@,
            name: "F3: Heater"@,
            unit: None,
        },
        PropertyView {
            kind: PropertyKind::Failure,
            id: "fault_f4"@,
            name: "F4: Tachometer"@,
            unit: None,
        },
        PropertyView {
            kind: PropertyKind::Failure,
            id: "fault_f5"@,
            name: "F5: Detergent Overdose"@,
            unit: None,
        },
        PropertyView {
            kind: PropertyKind::Failure,
            id: "fault_f6"@,
            name: "F6: Water Inlet"@,
            unit: None,
        },
        PropertyView {
            kind: PropertyKind::Failure,
            id: "fault_f7"@,
            name: "F7: Drainage"@,
            unit: None,
        },
        PropertyView {
            kind: PropertyKind::Failure,
            id: "fault_f8"@,
            name: "F8: Final Spin Speed"@,
            unit: None,
        },
        PropertyView {
            kind: PropertyKind::Failure,
            id: "fault_f9"@,
            name: "F9: EEPROM"@,
            unit: None,
        },
        PropertyView {
            kind: PropertyKind::Operation,
            id: "selected_program"@,
            name: "Selected Program"@,
            unit: None,
        },
        PropertyView {
            kind: PropertyKind::Operation,
            id: "program_options"@,
            name: "Program Options"@,
            unit: None,
        },
        PropertyView {
            kind: PropertyKind::Operation,
            id: "program_spin_setting"@,
            name: "Program Spin Setting"@,
            unit: None,
        },
        PropertyView {
            kind: PropertyKind::Operation,
            id: "program_spin_speed"@,
            name: "Program Spin Speed"@,
            unit: None,
        },
        PropertyView {
            kind: PropertyKind::Operation,
            id: "program_phase"@,
            name: "Program Phase"@,
            unit: None,
        },
        PropertyView {
            kind: PropertyKind::Io,
            id: "active_actuators"@,
            name: "Active Actuators"@,
            unit: None,
        },
        PropertyView {
            kind: PropertyKind::Io,
            id: "ntc_resistance"@,
            name: "NTC Resistance"@,
            unit: Some("\u{3a9}"@),
        },
        PropertyView {
            kind: PropertyKind::Io,
            id: "target_temperature"@,
            name: "Target Temperature"@,
            unit: Some("\u{b0}C"@),
        },
        PropertyView {
            kind: PropertyKind::Io,
            id: "water_level"@,
            name: "Water Level"@,
            unit: None,
        },
        PropertyView {
            kind: PropertyKind::Io,
            id: "tachometer_speed"@,
            name: "Tachometer Speed"@,
            unit: Some("rpm"@),
        },
    ]
}

/// The actions of the machine, in the order in which it lists them.
pub open spec fn action_list() -> Seq<ActionView> {
    Seq::empty()
}

/// The table of the machine's properties.
pub fn property_table() -> (r: &'static [Property])
    ensures
        properties_view(r) == property_list(),
{
    let r: &'static [Property] = &[
        Property {
            kind: PropertyKind::General,
            id: "operating_time",
            name: "Operating Time",
            unit: None,
        },
        Property {
            kind: PropertyKind::Failure,
            id: "fault_f1",
            name: "F1: Water Level Switch",
            unit: None,
        },
        Property {
            kind: PropertyKind::Failure,
            id: "fault_f2",
            name: "F2: NTC Thermistor",
            unit: None,
        },
        Property {
            kind: PropertyKind::Failure,
            id: "fault_f3",
            name: "F3: Heater",
            unit: None,
        },
        Property {
            kind: PropertyKind::Failure,
            id: "fault_f4",
            name: "F4: Tachometer",
            unit: None,
        },
        Property {
            kind: PropertyKind::Failure,
            id: "fault_f5",
            name: "F5: Detergent Overdose",
            unit: None,
        },
        Property {
            kind: PropertyKind::Failure,
            id: "fault_f6",
            name: "F6: Water Inlet",
            unit: None,
        },
        Property {
            kind: PropertyKind::Failure,
            id: "fault_f7",
            name: "F7: Drainage",
            unit: None,
        },
        Property {
            kind: PropertyKind::Failure,
            id: "fault_f8",
            name: "F8: Final Spin Speed",
            unit: None,
        },
        Property {
            kind: PropertyKind::Failure,
            id: "fault_f9",
            name: "F9: EEPROM",
            unit: None,
        },
        Property {
            kind: PropertyKind::Operation,
            id: "selected_program",
            name: "Selected Program",
            unit: None,
        },
        Property {
            kind: PropertyKind::Operation,
            id: "program_options",
            name: "Program Options",
            unit: None,
        },
        Property {
            kind: PropertyKind::Operation,
            id: "program_spin_setting",
            name: "Program Spin Setting",
            unit: None,
        },
        Property {
            kind: PropertyKind::Operation,
            id: "program_spin_speed",
            name: "Program Spin Speed",
            unit: None,
        },
        Property {
            kind: PropertyKind::Operation,
            id: "program_phase",
            name: "Program Phase",
            unit: None,
        },
        Property {
            kind: PropertyKind::Io,
            id: "active_actuators",
            name: "Active Actuators",
            unit: None,
        },
        Property {
            kind: PropertyKind::Io,
            id: "ntc_resistance",
            name: "NTC Resistance",
            unit: Some("\u{3a9}"),
        },
        Property {
            kind: PropertyKind::Io,
            id: "target_temperature",
            name: "Target Temperature",
            unit: Some("\u{b0}C"),
        },
        Property {
            kind: PropertyKind::Io,
            id: "water_level",
            name: "Water Level",
            unit: None,
        },
        Property {
            kind: PropertyKind::Io,
            id: "tachometer_speed",
            name: "Tachometer Speed",
            unit: Some("rpm"),
        },
    ];
    assert(properties_view(r) =~= property_list());
    r
}

/// The table of the machine's actions.
pub fn action_table() -> (r: &'static [Action])
    ensures
        actions_view(r) == action_list(),
{
    let r: &'static [Action] = &[
    ];
    assert(actions_view(r) =~= action_list());
    r
}

/// No two properties of the machine have the same identifier, and no two of
/// its actions have.
pub proof fn ids_are_unique()
    ensures
        forall|i: int, j: int|
            0 <= i < j < property_list().len() ==> property_list()[i].id != property_list()[j].id,
        forall|i: int, j: int|
            0 <= i < j < action_list().len() ==> action_list()[i].id != action_list()[j].id,
{
    reveal_strlit("operating_time");
    reveal_strlit("fault_f1");
    reveal_strlit("fault_f2");
    reveal_strlit("fault_f3");
    reveal_strlit("fault_f4");
    reveal_strlit("fault_f5");
    reveal_strlit("fault_f6");
    reveal_strlit("fault_f7");
    reveal_strlit("fault_f8");
    reveal_strlit("fault_f9");
    reveal_strlit("selected_program");
    reveal_strlit("program_options");
    reveal_strlit("program_spin_setting");
    reveal_strlit("program_spin_speed");
    reveal_strlit("program_phase");
    reveal_strlit("active_actuators");
    reveal_strlit("ntc_resistance");
    reveal_strlit("target_temperature");
    reveal_strlit("water_level");
    reveal_strlit("tachometer_speed");
    assert(property_list()[0].id.len() == 14);
    assert(property_list()[0].id[0] == 'o');
    assert(property_list()[1].id.len() == 8);
    assert(property_list()[1].id[7] == '1');
    assert(property_list()[2].id.len() == 8);
    assert(property_list()[2].id[7] == '2');
    assert(property_list()[3].id.len() == 8);
    assert(property_list()[3].id[7] == '3');
    assert(property_list()[4].id.len() == 8);
    assert(property_list()[4].id[7] == '4');
    assert(property_list()[5].id.len() == 8);
    assert(property_list()[5].id[7] == '5');
    assert(property_list()[6].id.len() == 8);
    assert(property_list()[6].id[7] == '6');
    assert(property_list()[7].id.len() == 8);
    assert(property_list()[7].id[7] == '7');
    assert(property_list()[8].id.len() == 8);
    assert(property_list()[8].id[7] == '8');
    assert(property_list()[9].id.len() == 8);
    assert(property_list()[9].id[7] == '9');
    assert(property_list()[10].id.len() == 16);
    assert(property_list()[10].id[0] == 's');
    assert(property_list()[11].id.len() == 15);
    assert(property_list()[12].id.len() == 20);
    assert(property_list()[13].id.len() == 18);
    assert(property_list()[13].id[0] == 'p');
    assert(property_list()[14].id.len() == 13);
    assert(property_list()[15].id.len() == 16);
    assert(property_list()[15].id[0] == 'a');
    assert(property_list()[16].id.len() == 14);
    assert(property_list()[16].id[0] == 'n');
    assert(property_list()[17].id.len() == 18);
    assert(property_list()[17].id[0] == 't');
    assert(property_list()[18].id.len() == 11);
    assert(property_list()[19].id.len() == 16);
    assert(property_list()[19].id[0] == 't');
}

/// A washing machine with software ID 132.
pub struct WashingMachine<P> {
    intf: Interface<P>,
    software_id: u16,
}

impl<P: Port> WashingMachine<P> {
    /// The state of the diagnostic interface.
    pub closed spec fn intf(&self) -> Interface<P> {
        self.intf
    }

    /// The software ID that the machine reported.
    pub closed spec fn id(&self) -> u16 {
        self.software_id
    }

    /// The machine can be talked to.
    pub open spec fn wf(&self) -> bool {
        self.intf().wf()
    }

    /// Whether `after` is this machine, still usable if it was.
    pub open spec fn kept(self, after: Self) -> bool {
        &&& after.id() == self.id()
        &&& self.wf() ==> after.wf()
    }

    /// Whether the driver knows appliances with the software ID `id`.
    pub open spec fn supports(id: u16) -> bool {
        id == SOFTWARE_ID
    }

    /// The write that ends the unlock sequence: this driver needs none.
    pub open spec fn last_write() -> Option<(u32, u8)> {
        None
    }

    /// What the unlock sequence puts on the wire when it succeeds.
    pub open spec fn handshake(chunk: nat) -> Wire {
        unlocking(READ_KEY, FULL_KEY, Self::last_write(), chunk, false)
    }

    /// Whether `dev` is a machine after a connection that succeeded: the
    /// software ID was asked for and is one that the driver knows, the unlock
    /// sequence went through, and nothing else has crossed the wire.
    pub open spec fn connected(dev: Self) -> bool {
        &&& dev.wf()
        &&& Self::supports(dev.id())
        &&& dev.intf().dummy_bytes() == false
        &&& dev.intf().chunk_size() == 4
        &&& dev.intf().wire() == identifying(dev.id()).followed_by(Self::handshake(4))
    }

    /// Whether the unlocking of a machine that has reported the software ID
    /// `software_id`, started in the state `start` of the interface, has
    /// ended with the result `r`. Where the unlock sequence goes through, the
    /// result is the device; where it fails, the result is that failure.
    pub open spec fn initialized(
        start: Interface<P>,
        software_id: u16,
        r: Result<Self, Error<P::Error>>,
    ) -> bool {
        exists|after: Interface<P>, done: Result<(), Error<P::Error>>|
            {
                &&& #[trigger] unlocked(
                    start,
                    after,
                    READ_KEY,
                    FULL_KEY,
                    Self::last_write(),
                    done,
                )
                &&& match done {
                    Ok(()) => r is Ok && r->Ok_0.intf() == after && r->Ok_0.id() == software_id,
                    Err(e) => r is Err && r->Err_0 == e,
                }
            }
    }

    /// Whether a connection to the appliance behind `port` has ended with the
    /// result `r`. The appliance is asked for its software ID on a new
    /// interface. Where the driver knows the ID, the machine is unlocked;
    /// where it does not, the result is [`Error::UnknownSoftwareId`] with
    /// that ID.
    pub open spec fn connecting(port: P, r: Result<Self, Error<P::Error>>) -> bool {
        exists|asked: Interface<P>, id: Result<u16, ProtocolError<P::Error>>|
            {
                &&& #[trigger] Interface::fresh(port).software_id_queried(asked, id)
                &&& match id {
                    Ok(id) => if Self::supports(id) {
                        Self::initialized(asked, id, r)
                    } else {
                        r is Err && r->Err_0 == Error::<P::Error>::UnknownSoftwareId(id)
                    },
                    Err(e) => r is Err && r->Err_0 == Error::Protocol(e),
                }
            }
    }

    /// Unlocks the diagnostic interface of a machine that has reported the
    /// software ID `software_id`.
    pub(crate) fn initialize(intf: Interface<P>, software_id: u16) -> (r: Result<
        Self,
        Error<P::Error>,
    >)
        requires
            intf.wf(),
            !intf.dummy_bytes(),
        ensures
            Self::initialized(intf, software_id, r),
            match r {
                Ok(dev) => {
                    &&& dev.wf()
                    &&& dev.id() == software_id
                    &&& dev.intf().dummy_bytes() == false
                    &&& dev.intf().chunk_size() == intf.chunk_size()
                    &&& dev.intf().wire() == intf.wire().followed_by(
                        Self::handshake(intf.chunk_size()),
                    )
                },
                Err(e) => e is Protocol,
            },
    {
        let mut intf = intf;
        let ghost ready = intf;
        let done = unlock(&mut intf, READ_KEY, FULL_KEY, None);
        proof {
            lemma_unlocked(ready, intf, READ_KEY, FULL_KEY, Self::last_write(), done);
        }
        match done {
            Ok(()) => Ok(WashingMachine { intf, software_id }),
            Err(e) => Err(e),
        }
    }

    /// Whether a query of the operating time, started in this state, has
    /// ended in the state `after` with the result `out`.
    pub open spec fn operating_time_queried(
        self,
        after: Self,
        out: Result<Duration, Error<P::Error>>,
    ) -> bool {
        &&& self.kept(after)
        &&& memory_decoded::<P, u32, Duration, 4>(
            self.intf(),
            after.intf(),
            0x0012,
            |raw: u32| fine(duration_of_secs(operating_seconds(raw))),
            out,
        )
    }

    /// Queries the time for which the appliance has run programs.
    ///
    /// The appliance counts minutes and hours; the hours are kept as packed
    /// decimal digits.
    pub fn query_operating_time(&mut self) -> (r: Result<Duration, Error<P::Error>>)
        requires
            old(self).wf(),
        ensures
            (*old(self)).operating_time_queried(*final(self), r),
    {
        match self.intf.read_memory::<u32, 4>(0x0012) {
            Ok(raw) => Ok(decode_operating_time(raw)),
            Err(e) => Err(Error::Protocol(e)),
        }
    }

    /// Whether a query of the fault `code`, started in this state, has ended
    /// in the state `after` with the result `out`.
    ///
    /// The byte with the fault's active bit is read. Where that bit is set,
    /// the fault is active. Else, where the fault has a stored bit, the byte
    /// with that bit is read too, and the fault is stored where it is set.
    pub open spec fn fault_queried(
        self,
        after: Self,
        code: FaultCode,
        out: Result<Fault, Error<P::Error>>,
    ) -> bool {
        &&& self.kept(after)
        &&& exists|mid: Interface<P>, active: Result<u8, ProtocolError<P::Error>>|
            {
                &&& #[trigger] self.intf().memory_read::<u8, 1>(mid, code.active().0 as u32, active)
                &&& match active {
                    Ok(first) => if first & code.active().1 != 0x00 {
                        after.intf() == mid && out == Ok::<Fault, Error<P::Error>>(Fault::Active)
                    } else {
                        match code.stored() {
                            Some(place) => memory_decoded::<P, u8, Fault, 1>(
                                mid,
                                after.intf(),
                                place.0 as u32,
                                |second: u8|
                                    fine(
                                        if second & place.1 != 0x00 {
                                            Fault::Stored
                                        } else {
                                            Fault::Clear
                                        },
                                    ),
                                out,
                            ),
                            None => after.intf() == mid && out == Ok::<Fault, Error<P::Error>>(
                                Fault::Clear,
                            ),
                        }
                    },
                    Err(e) => after.intf() == mid && out == Err::<Fault, Error<P::Error>>(
                        Error::Protocol(e),
                    ),
                }
            }
    }

    /// Queries the state of one fault.
    pub fn query_fault(&mut self, code: FaultCode) -> (r: Result<Fault, Error<P::Error>>)
        requires
            old(self).wf(),
        ensures
            (*old(self)).fault_queried(*final(self), code, r),
    {
        let (addr, mask) = code.active_place();
        let first = match self.intf.read_memory::<u8, 1>(addr as u32) {
            Ok(first) => first,
            Err(e) => {
                return Err(Error::Protocol(e));
            },
        };
        if first & mask != 0x00 {
            return Ok(Fault::Active);
        }
        match code.stored_place() {
            Some((addr, mask)) => match self.intf.read_memory::<u8, 1>(addr as u32) {
                Ok(second) => if second & mask != 0x00 {
                    Ok(Fault::Stored)
                } else {
                    Ok(Fault::Clear)
                },
                Err(e) => Err(Error::Protocol(e)),
            },
            None => Ok(Fault::Clear),
        }
    }

    /// Whether a query of the chosen program, started in this state, has
    /// ended in the state `after` with the result `out`.
    pub open spec fn selected_program_queried(
        self,
        after: Self,
        out: Result<Program, Error<P::Error>>,
    ) -> bool {
        &&& self.kept(after)
        &&& memory_decoded::<P, u8, Program, 1>(
            self.intf(),
            after.intf(),
            0x0114,
            |raw: u8| known(Program::of_repr(raw)),
            out,
        )
    }

    /// Queries the program that the selector points at.
    pub fn query_selected_program(&mut self) -> (r: Result<Program, Error<P::Error>>)
        requires
            old(self).wf(),
        ensures
            (*old(self)).selected_program_queried(*final(self), r),
    {
        match self.intf.read_memory::<u8, 1>(0x0114) {
            Ok(raw) => require_known(Program::from_repr(raw)),
            Err(e) => Err(Error::Protocol(e)),
        }
    }

    /// Whether a query of the program options, started in this state, has
    /// ended in the state `after` with the result `out`.
    pub open spec fn program_options_queried(
        self,
        after: Self,
        out: Result<u8, Error<P::Error>>,
    ) -> bool {
        &&& self.kept(after)
        &&& memory_decoded::<P, u8, u8, 1>(
            self.intf(),
            after.intf(),
            0x006c,
            |raw: u8| fine(raw),
            out,
        )
    }

    /// Queries the options of the program as the machine keeps them: a number
    /// whose bits have not been worked out.
    pub fn query_program_options(&mut self) -> (r: Result<u8, Error<P::Error>>)
        requires
            old(self).wf(),
        ensures
            (*old(self)).program_options_queried(*final(self), r),
    {
        match self.intf.read_memory::<u8, 1>(0x006c) {
            Ok(raw) => Ok(raw),
            Err(e) => Err(Error::Protocol(e)),
        }
    }

    /// Whether a query of the spin setting, started in this state, has ended
    /// in the state `after` with the result `out`.
    pub open spec fn program_spin_setting_queried(
        self,
        after: Self,
        out: Result<u8, Error<P::Error>>,
    ) -> bool {
        &&& self.kept(after)
        &&& memory_decoded::<P, u8, u8, 1>(
            self.intf(),
            after.intf(),
            0x006d,
            |raw: u8| fine(raw),
            out,
        )
    }

    /// Queries the spin setting of the program as the machine keeps it.
    pub fn query_program_spin_setting(&mut self) -> (r: Result<u8, Error<P::Error>>)
        requires
            old(self).wf(),
        ensures
            (*old(self)).program_spin_setting_queried(*final(self), r),
    {
        match self.intf.read_memory::<u8, 1>(0x006d) {
            Ok(raw) => Ok(raw),
            Err(e) => Err(Error::Protocol(e)),
        }
    }

    /// Whether a query of the spin speed of the program, started in this
    /// state, has ended in the state `after` with the result `out`.
    pub open spec fn program_spin_speed_queried(
        self,
        after: Self,
        out: Result<u8, Error<P::Error>>,
    ) -> bool {
        &&& self.kept(after)
        &&& memory_decoded::<P, u8, u8, 1>(
            self.intf(),
            after.intf(),
            0x0059,
            |raw: u8| fine(raw),
            out,
        )
    }

    /// Queries the spin speed of the program as the machine keeps it.
    pub fn query_program_spin_speed(&mut self) -> (r: Result<u8, Error<P::Error>>)
        requires
            old(self).wf(),
        ensures
            (*old(self)).program_spin_speed_queried(*final(self), r),
    {
        match self.intf.read_memory::<u8, 1>(0x0059) {
            Ok(raw) => Ok(raw),
            Err(e) => Err(Error::Protocol(e)),
        }
    }

    /// Whether a query of the phase of the program, started in this state,
    /// has ended in the state `after` with the result `out`.
    pub open spec fn program_phase_queried(
        self,
        after: Self,
        out: Result<ProgramPhase, Error<P::Error>>,
    ) -> bool {
        &&& self.kept(after)
        &&& memory_decoded::<P, u8, ProgramPhase, 1>(
            self.intf(),
            after.intf(),
            0x001c,
            |raw: u8| known(ProgramPhase::of_repr(raw)),
            out,
        )
    }

    /// Queries the phase that the program is in.
    pub fn query_program_phase(&mut self) -> (r: Result<ProgramPhase, Error<P::Error>>)
        requires
            old(self).wf(),
        ensures
            (*old(self)).program_phase_queried(*final(self), r),
    {
        match self.intf.read_memory::<u8, 1>(0x001c) {
            Ok(raw) => require_known(ProgramPhase::from_repr(raw)),
            Err(e) => Err(Error::Protocol(e)),
        }
    }

    /// Whether a query of the active actuators, started in this state, has
    /// ended in the state `after` with the result `out`.
    pub open spec fn active_actuators_queried(
        self,
        after: Self,
        out: Result<Actuator, Error<P::Error>>,
    ) -> bool {
        &&& self.kept(after)
        &&& memory_decoded::<P, u16, Actuator, 2>(
            self.intf(),
            after.intf(),
            0x003a,
            |raw: u16| known(Actuator::of_bits(raw)),
            out,
        )
    }

    /// Queries the actuators that are switched on.
    pub fn query_active_actuators(&mut self) -> (r: Result<Actuator, Error<P::Error>>)
        requires
            old(self).wf(),
        ensures
            (*old(self)).active_actuators_queried(*final(self), r),
    {
        match self.intf.read_memory::<u16, 2>(0x003a) {
            Ok(raw) => require_known(Actuator::from_bits(raw)),
            Err(e) => Err(Error::Protocol(e)),
        }
    }

    /// Whether a query of the resistance of the thermistor, started in this
    /// state, has ended in the state `after` with the result `out`.
    pub open spec fn ntc_resistance_queried(
        self,
        after: Self,
        out: Result<u32, Error<P::Error>>,
    ) -> bool {
        &&& self.kept(after)
        &&& memory_decoded::<P, u8, u32, 1>(
            self.intf(),
            after.intf(),
            0x0021,
            |raw: u8| ntc_reading(raw),
            out,
        )
    }

    /// Queries the resistance of the temperature sensor in ohms.
    ///
    /// The resistance is computed from the reading of the analog converter.
    /// The reading 255, which stands for a sensor that is not connected, is
    /// an unexpected memory value.
    pub fn query_ntc_resistance(&mut self) -> (r: Result<u32, Error<P::Error>>)
        requires
            old(self).wf(),
        ensures
            (*old(self)).ntc_resistance_queried(*final(self), r),
    {
        match self.intf.read_memory::<u8, 1>(0x0021) {
            Ok(raw) => decode_ntc_reading(raw),
            Err(e) => Err(Error::Protocol(e)),
        }
    }

    /// Whether a query of the temperature aimed at, started in this state,
    /// has ended in the state `after` with the result `out`.
    pub open spec fn target_temperature_queried(
        self,
        after: Self,
        out: Result<u8, Error<P::Error>>,
    ) -> bool {
        &&& self.kept(after)
        &&& memory_decoded::<P, u8, u8, 1>(
            self.intf(),
            after.intf(),
            0x005c,
            |raw: u8| target_temperature(raw),
            out,
        )
    }

    /// Queries the temperature that the program aims at, in degrees Celsius.
    ///
    /// The machine keeps an index into its table of thresholds. An index that
    /// the table does not have is an unexpected memory value.
    pub fn query_target_temperature(&mut self) -> (r: Result<u8, Error<P::Error>>)
        requires
            old(self).wf(),
        ensures
            (*old(self)).target_temperature_queried(*final(self), r),
    {
        match self.intf.read_memory::<u8, 1>(0x005c) {
            Ok(raw) => decode_target_temperature(raw),
            Err(e) => Err(Error::Protocol(e)),
        }
    }

    /// Whether a query of the water level, started in this state, has ended
    /// in the state `after` with the result `out`.
    pub open spec fn water_level_queried(
        self,
        after: Self,
        out: Result<(u8, u8), Error<P::Error>>,
    ) -> bool {
        &&& self.kept(after)
        &&& memory_decoded::<P, [u8; 2], (u8, u8), 2>(
            self.intf(),
            after.intf(),
            0x003c,
            |raw: [u8; 2]| fine((raw@[0], raw@[1])),
            out,
        )
    }

    /// Queries the water level: the one that the level switch reads, then the
    /// one that the program aims at.
    pub fn query_water_level(&mut self) -> (r: Result<(u8, u8), Error<P::Error>>)
        requires
            old(self).wf(),
        ensures
            (*old(self)).water_level_queried(*final(self), r),
    {
        match self.intf.read_memory::<[u8; 2], 2>(0x003c) {
            Ok(raw) => Ok((raw[0], raw[1])),
            Err(e) => Err(Error::Protocol(e)),
        }
    }

    /// Whether a query of the speed of the drum motor, started in this state,
    /// has ended in the state `after` with the result `out`.
    ///
    /// Five bytes are read: the raw value that the program aims at in two
    /// bytes, then the raw value of the tachometer in three.
    pub open spec fn tachometer_speed_queried(
        self,
        after: Self,
        out: Result<(u16, u16), Error<P::Error>>,
    ) -> bool {
        &&& self.kept(after)
        &&& memory_decoded::<P, [u8; 5], (u16, u16), 5>(
            self.intf(),
            after.intf(),
            0x006f,
            |raw: [u8; 5]|
                fine(
                    (
                        rpm(raw@[2] + 256 * raw@[3] + 65536 * raw@[4]) as u16,
                        rpm(raw@[0] + 256 * raw@[1]) as u16,
                    ),
                ),
            out,
        )
    }

    /// Queries the speed of the drum motor in revolutions per minute: the
    /// one that the tachometer reads, then the one that the program aims at.
    pub fn query_tachometer_speed(&mut self) -> (r: Result<(u16, u16), Error<P::Error>>)
        requires
            old(self).wf(),
        ensures
            (*old(self)).tachometer_speed_queried(*final(self), r),
    {
        match self.intf.read_memory::<[u8; 5], 5>(0x006f) {
            Ok(raw) => {
                let target: u32 = raw[0] as u32 + 256 * (raw[1] as u32);
                let current: u32 = raw[2] as u32 + 256 * (raw[3] as u32) + 65536 * (raw[4] as u32);
                Ok((rpm_from_motor_speed(current), rpm_from_motor_speed(target)))
            },
            Err(e) => Err(Error::Protocol(e)),
        }
    }

    /// Whether a query of the property at the place `index` of the table,
    /// started in this state, has ended in the state `after` with the result
    /// `out`: the result of the query that belongs to the property, as a
    /// value.
    pub open spec fn property_queried(
        self,
        after: Self,
        index: int,
        out: Result<ValueView, Error<P::Error>>,
    ) -> bool {
        if index == 0 {
            exists|v: Result<Duration, Error<P::Error>>|
                {
                    &&& #[trigger] self.operating_time_queried(after, v)
                    &&& out == mapped(v, |d: Duration| ValueView::Duration(d))
                }
        } else if index == 1 {
            exists|v: Result<Fault, Error<P::Error>>|
                {
                    &&& #[trigger] self.fault_queried(after, FaultCode::LevelSwitch, v)
                    &&& out == mapped(v, |m: Fault| ValueView::Text(m.name()))
                }
        } else if index == 2 {
            exists|v: Result<Fault, Error<P::Error>>|
                {
                    &&& #[trigger] self.fault_queried(after, FaultCode::NtcThermistor, v)
                    &&& out == mapped(v, |m: Fault| ValueView::Text(m.name()))
                }
        } else if index == 3 {
            exists|v: Result<Fault, Error<P::Error>>|
                {
                    &&& #[trigger] self.fault_queried(after, FaultCode::Heater, v)
                    &&& out == mapped(v, |m: Fault| ValueView::Text(m.name()))
                }
        } else if index == 4 {
            exists|v: Result<Fault, Error<P::Error>>|
                {
                    &&& #[trigger] self.fault_queried(after, FaultCode::Tachometer, v)
                    &&& out == mapped(v, |m: Fault| ValueView::Text(m.name()))
                }
        } else if index == 5 {
            exists|v: Result<Fault, Error<P::Error>>|
                {
                    &&& #[trigger] self.fault_queried(after, FaultCode::DetergentOverdose, v)
                    &&& out == mapped(v, |m: Fault| ValueView::Text(m.name()))
                }
        } else if index == 6 {
            exists|v: Result<Fault, Error<P::Error>>|
                {
                    &&& #[trigger] self.fault_queried(after, FaultCode::WaterInlet, v)
                    &&& out == mapped(v, |m: Fault| ValueView::Text(m.name()))
                }
        } else if index == 7 {
            exists|v: Result<Fault, Error<P::Error>>|
                {
                    &&& #[trigger] self.fault_queried(after, FaultCode::Drainage, v)
                    &&& out == mapped(v, |m: Fault| ValueView::Text(m.name()))
                }
        } else if index == 8 {
            exists|v: Result<Fault, Error<P::Error>>|
                {
                    &&& #[trigger] self.fault_queried(after, FaultCode::FinalSpinSpeed, v)
                    &&& out == mapped(v, |m: Fault| ValueView::Text(m.name()))
                }
        } else if index == 9 {
            exists|v: Result<Fault, Error<P::Error>>|
                {
                    &&& #[trigger] self.fault_queried(after, FaultCode::Eeprom, v)
                    &&& out == mapped(v, |m: Fault| ValueView::Text(m.name()))
                }
        } else if index == 10 {
            exists|v: Result<Program, Error<P::Error>>|
                {
                    &&& #[trigger] self.selected_program_queried(after, v)
                    &&& out == mapped(v, |m: Program| ValueView::Text(m.name()))
                }
        } else if index == 11 {
            exists|v: Result<u8, Error<P::Error>>|
                {
                    &&& #[trigger] self.program_options_queried(after, v)
                    &&& out == mapped(v, |n: u8| ValueView::Text(decimal(n as nat)))
                }
        } else if index == 12 {
            exists|v: Result<u8, Error<P::Error>>|
                {
                    &&& #[trigger] self.program_spin_setting_queried(after, v)
                    &&& out == mapped(v, |n: u8| ValueView::Text(decimal(n as nat)))
                }
        } else if index == 13 {
            exists|v: Result<u8, Error<P::Error>>|
                {
                    &&& #[trigger] self.program_spin_speed_queried(after, v)
                    &&& out == mapped(v, |n: u8| ValueView::Text(decimal(n as nat)))
                }
        } else if index == 14 {
            exists|v: Result<ProgramPhase, Error<P::Error>>|
                {
                    &&& #[trigger] self.program_phase_queried(after, v)
                    &&& out == mapped(v, |m: ProgramPhase| ValueView::Text(m.name()))
                }
        } else if index == 15 {
            exists|v: Result<Actuator, Error<P::Error>>|
                {
                    &&& #[trigger] self.active_actuators_queried(after, v)
                    &&& out == mapped(v, |f: Actuator| ValueView::Text(f.text()))
                }
        } else if index == 16 {
            exists|v: Result<u32, Error<P::Error>>|
                {
                    &&& #[trigger] self.ntc_resistance_queried(after, v)
                    &&& out == mapped(v, |n: u32| ValueView::Number(n))
                }
        } else if index == 17 {
            exists|v: Result<u8, Error<P::Error>>|
                {
                    &&& #[trigger] self.target_temperature_queried(after, v)
                    &&& out == mapped(v, |n: u8| ValueView::Number(n as u32))
                }
        } else if index == 18 {
            exists|v: Result<(u8, u8), Error<P::Error>>|
                {
                    &&& #[trigger] self.water_level_queried(after, v)
                    &&& out == mapped(v, |s: (u8, u8)| ValueView::Sensor(s.0 as u32, s.1 as u32))
                }
        } else {
            exists|v: Result<(u16, u16), Error<P::Error>>|
                {
                    &&& #[trigger] self.tachometer_speed_queried(after, v)
                    &&& out == mapped(v, |s: (u16, u16)| ValueView::Sensor(s.0 as u32, s.1 as u32))
                }
        }
    }
}

impl<P> Sealed for WashingMachine<P> {

}

impl<P: Port> Device<P> for WashingMachine<P> {
    open spec fn intf(&self) -> Interface<P> {
        WashingMachine::intf(self)
    }

    open spec fn id(&self) -> u16 {
        WashingMachine::id(self)
    }

    open spec fn kind_of(&self) -> DeviceKind {
        DeviceKind::WashingMachine
    }

    open spec fn property_table(&self) -> Seq<PropertyView> {
        property_list()
    }

    open spec fn action_table(&self) -> Seq<ActionView> {
        action_list()
    }

    open spec fn knows(id: u16) -> bool {
        Self::supports(id)
    }

    fn connect(port: P) -> (r: Result<Self, Error<P::Error>>)
        ensures
            Self::connecting(port, r),
            r matches Ok(dev) ==> Self::connected(dev),
    {
        let mut intf = Interface::new(port);
        let ghost start = intf;
        let id = match intf.query_software_id() {
            Ok(id) => id,
            Err(e) => {
                return Err(Error::Protocol(e));
            },
        };
        proof {
            lemma_identified(start, intf, id);
        }
        if id == SOFTWARE_ID {
            Self::initialize(intf, id)
        } else {
            Err(Error::UnknownSoftwareId(id))
        }
    }

    fn software_id(&self) -> (r: u16) {
        self.software_id
    }

    fn kind(&self) -> (r: DeviceKind) {
        DeviceKind::WashingMachine
    }

    fn properties(&self) -> (r: &'static [Property]) {
        property_table()
    }

    fn actions(&self) -> (r: &'static [Action]) {
        action_table()
    }

    fn query_property(&mut self, prop: &Property) -> (r: Result<Value, Error<P::Error>>)
        ensures
            match position(property_list(), prop@) {
                Some(index) => (*old(self)).property_queried(
                    *final(self),
                    index,
                    value_outcome(r),
                ),
                None => *final(self) == *old(self),
            },
    {
        match find_property(property_table(), prop) {
            Some(0) => match self.query_operating_time() {
                Ok(v) => Ok(Value::Duration(v)),
                Err(e) => Err(e),
            },
            Some(1) => match self.query_fault(FaultCode::LevelSwitch) {
                Ok(v) => Ok(Value::String(v.to_string())),
                Err(e) => Err(e),
            },
            Some(2) => match self.query_fault(FaultCode::NtcThermistor) {
                Ok(v) => Ok(Value::String(v.to_string())),
                Err(e) => Err(e),
            },
            Some(3) => match self.query_fault(FaultCode::Heater) {
                Ok(v) => Ok(Value::String(v.to_string())),
                Err(e) => Err(e),
            },
            Some(4) => match self.query_fault(FaultCode::Tachometer) {
                Ok(v) => Ok(Value::String(v.to_string())),
                Err(e) => Err(e),
            },
            Some(5) => match self.query_fault(FaultCode::DetergentOverdose) {
                Ok(v) => Ok(Value::String(v.to_string())),
                Err(e) => Err(e),
            },
            Some(6) => match self.query_fault(FaultCode::WaterInlet) {
                Ok(v) => Ok(Value::String(v.to_string())),
                Err(e) => Err(e),
            },
            Some(7) => match self.query_fault(FaultCode::Drainage) {
                Ok(v) => Ok(Value::String(v.to_string())),
                Err(e) => Err(e),
            },
            Some(8) => match self.query_fault(FaultCode::FinalSpinSpeed) {
                Ok(v) => Ok(Value::String(v.to_string())),
                Err(e) => Err(e),
            },
            Some(9) => match self.query_fault(FaultCode::Eeprom) {
                Ok(v) => Ok(Value::String(v.to_string())),
                Err(e) => Err(e),
            },
            Some(10) => match self.query_selected_program() {
                Ok(v) => Ok(Value::String(v.to_string())),
                Err(e) => Err(e),
            },
            Some(11) => match self.query_program_options() {
                Ok(v) => Ok(Value::String(decimal_string(v as u32))),
                Err(e) => Err(e),
            },
            Some(12) => match self.query_program_spin_setting() {
                Ok(v) => Ok(Value::String(decimal_string(v as u32))),
                Err(e) => Err(e),
            },
            Some(13) => match self.query_program_spin_speed() {
                Ok(v) => Ok(Value::String(decimal_string(v as u32))),
                Err(e) => Err(e),
            },
            Some(14) => match self.query_program_phase() {
                Ok(v) => Ok(Value::String(v.to_string())),
                Err(e) => Err(e),
            },
            Some(15) => match self.query_active_actuators() {
                Ok(v) => Ok(Value::String(v.to_string())),
                Err(e) => Err(e),
            },
            Some(16) => match self.query_ntc_resistance() {
                Ok(v) => Ok(Value::Number(v)),
                Err(e) => Err(e),
            },
            Some(17) => match self.query_target_temperature() {
                Ok(v) => Ok(Value::Number(v as u32)),
                Err(e) => Err(e),
            },
            Some(18) => match self.query_water_level() {
                Ok(v) => Ok(Value::Sensor(v.0 as u32, v.1 as u32)),
                Err(e) => Err(e),
            },
            Some(19) => match self.query_tachometer_speed() {
                Ok(v) => Ok(Value::Sensor(v.0 as u32, v.1 as u32)),
                Err(e) => Err(e),
            },
            _ => Err(Error::UnknownProperty),
        }
    }

    fn trigger_action(&mut self, action: &Action, param: Option<Value>) -> (r: Result<
        (),
        Error<P::Error>,
    >)
        ensures
            *final(self) == *old(self),
    {
        Err(Error::UnknownAction)
    }

    fn interface(&mut self) -> (r: &mut Interface<P>) {
        &mut self.intf
    }
}

} // verus!
