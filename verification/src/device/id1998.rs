//! Washing machines of the W 6xx series with software ID 1998.
//!
//! This driver is provisional. The keys are known. The places in memory are
//! those of the driver for software ID 419 and have not been confirmed on
//! an appliance, so [`connect`](crate::device::connect) does not pick this
//! driver: it has to be asked for by name.
use crate::command::Error as ProtocolError;
use crate::device::private::Sealed;
use crate::device::utils::{decode_operating_time, duration_of_secs, operating_seconds};
use crate::device::{
    Action, ActionView, Device, DeviceKind, Error, Property, PropertyKind, PropertyView, Value,
    ValueView, actions_view, decimal, find_property, fine, identifying, known, lemma_identified,
    lemma_unlocked, mapped, memory_decoded, position, properties_view, require_known, unlock,
    unlocked, unlocking, value_outcome,
};
use crate::flags::{all_bits, flags_text, format_flags, table_view, valid_bits};
use crate::interface::Interface;
use crate::port::Port;
use crate::wire::Wire;
use core::time::Duration;
use vstd::prelude::*;

verus! {

/// The software ID that this driver knows.
pub const SOFTWARE_ID: u16 = 1998;

/// The key that unlocks read access.
pub const READ_KEY: u16 = 0x2b67;

/// The key that unlocks full access.
pub const FULL_KEY: u16 = 0x8235;

/// The faults that the machine has on record. Several can be on record at
/// once.
#[derive(PartialEq, Eq, Structural, Copy, Clone, Debug)]
pub struct Fault {
    bits: u8,
}

impl Fault {
    /// The faults with their masks, in the order in which they are written.
    pub open spec fn flags() -> Seq<(Seq<char>, u16)> {
        seq![
            ("PressureSensor"@, 0x01u16),
            ("NtcThermistor"@, 0x02u16),
            ("Heater"@, 0x04u16),
            ("TachometerGenerator"@, 0x08u16),
            ("DetergentOverdose"@, 0x10u16),
            ("Inlet"@, 0x20u16),
            ("Drainage"@, 0x40u16),
            ("Eeprom"@, 0x80u16),
        ]
    }

    /// The bits of the set.
    pub closed spec fn value(self) -> u8 {
        self.bits
    }

    /// The set with the bits `bits`, if every bit is one of the table.
    pub closed spec fn of_bits(bits: u8) -> Option<Fault> {
        if bits as u16 & !all_bits(Self::flags()) == 0 {
            Some(Fault { bits })
        } else {
            None
        }
    }

    /// The names of the faults of the set, separated by `" | "`.
    pub open spec fn text(self) -> Seq<char> {
        flags_text(Self::flags(), self.value() as u16)
    }

    /// The faults with their masks.
    pub fn table() -> (r: &'static [(&'static str, u16)])
        ensures
            table_view(r) == Self::flags(),
    {
        let r: &'static [(&'static str, u16)] = &[
            ("PressureSensor", 0x01),
            ("NtcThermistor", 0x02),
            ("Heater", 0x04),
            ("TachometerGenerator", 0x08),
            ("DetergentOverdose", 0x10),
            ("Inlet", 0x20),
            ("Drainage", 0x40),
            ("Eeprom", 0x80),
        ];
        assert(table_view(r) =~= Self::flags());
        r
    }

    /// The set with the bits `bits`. Bits that are none of the table are
    /// refused.
    pub fn from_bits(bits: u8) -> (r: Option<Fault>)
        ensures
            r == Self::of_bits(bits),
            r matches Some(set) ==> set.value() == bits,
            r is Some <==> bits as u16 & !all_bits(Self::flags()) == 0,
    {
        if valid_bits(Self::table(), bits as u16) {
            Some(Fault { bits })
        } else {
            None
        }
    }

    /// The bits of the set.
    pub fn bits(&self) -> (r: u8)
        ensures
            r == self.value(),
    {
        self.bits
    }

    /// The names of the faults of the set, separated by `" | "`.
    pub fn to_string(&self) -> (r: String)
        ensures
            r@ == self.text(),
    {
        format_flags(Self::table(), self.bits as u16)
    }
}

/// The operating mode of the machine.
#[derive(PartialEq, Eq, Structural, Copy, Clone, Debug)]
pub enum OperatingMode {
    /// The machine is switched on and no program is running.
    ProgramIdle,
    /// A program is running.
    ProgramRunning,
    /// A program has finished.
    ProgramFinished,
    /// The programming mode of the service, with every setting of the
    /// machine.
    ServiceProgramming,
    /// The service mode, in which faults are shown and actuators are tested.
    Service,
    /// The programming mode of the customer, with some of the settings.
    CustomerProgramming,
}

impl OperatingMode {
    /// The number that stands for the mode in the appliance's memory.
    pub open spec fn repr(self) -> u8 {
        match self {
            OperatingMode::ProgramIdle => 0x01,
            OperatingMode::ProgramRunning => 0x02,
            OperatingMode::ProgramFinished => 0x03,
            OperatingMode::ServiceProgramming => 0x04,
            OperatingMode::Service => 0x05,
            OperatingMode::CustomerProgramming => 0x06,
        }
    }

    /// The mode that `value` stands for, if it stands for one.
    pub open spec fn of_repr(value: u8) -> Option<OperatingMode> {
        if value == 0x01 {
            Some(OperatingMode::ProgramIdle)
        } else if value == 0x02 {
            Some(OperatingMode::ProgramRunning)
        } else if value == 0x03 {
            Some(OperatingMode::ProgramFinished)
        } else if value == 0x04 {
            Some(OperatingMode::ServiceProgramming)
        } else if value == 0x05 {
            Some(OperatingMode::Service)
        } else if value == 0x06 {
            Some(OperatingMode::CustomerProgramming)
        } else {
            None
        }
    }

    /// The name of the mode.
    pub open spec fn name(self) -> Seq<char> {
        match self {
            OperatingMode::ProgramIdle => "ProgramIdle"@,
            OperatingMode::ProgramRunning => "ProgramRunning"@,
            OperatingMode::ProgramFinished => "ProgramFinished"@,
            OperatingMode::ServiceProgramming => "ServiceProgramming"@,
            OperatingMode::Service => "Service"@,
            OperatingMode::CustomerProgramming => "CustomerProgramming"@,
        }
    }

    /// Returns the mode that `value` stands for, if it stands for one.
    pub fn from_repr(value: u8) -> (r: Option<OperatingMode>)
        ensures
            r == Self::of_repr(value),
    {
        match value {
            0x01 => Some(OperatingMode::ProgramIdle),
            0x02 => Some(OperatingMode::ProgramRunning),
            0x03 => Some(OperatingMode::ProgramFinished),
            0x04 => Some(OperatingMode::ServiceProgramming),
            0x05 => Some(OperatingMode::Service),
            0x06 => Some(OperatingMode::CustomerProgramming),
            _ => None,
        }
    }

    /// Returns the number that stands for the mode in the appliance's memory.
    pub fn to_repr(self) -> (r: u8)
        ensures
            r == self.repr(),
    {
        match self {
            OperatingMode::ProgramIdle => 0x01,
            OperatingMode::ProgramRunning => 0x02,
            OperatingMode::ProgramFinished => 0x03,
            OperatingMode::ServiceProgramming => 0x04,
            OperatingMode::Service => 0x05,
            OperatingMode::CustomerProgramming => 0x06,
        }
    }

    /// Returns the name of the mode.
    pub fn to_string(&self) -> (r: String)
        ensures
            r@ == self.name(),
    {
        match self {
            OperatingMode::ProgramIdle => "ProgramIdle".to_string(),
            OperatingMode::ProgramRunning => "ProgramRunning".to_string(),
            OperatingMode::ProgramFinished => "ProgramFinished".to_string(),
            OperatingMode::ServiceProgramming => "ServiceProgramming".to_string(),
            OperatingMode::Service => "Service".to_string(),
            OperatingMode::CustomerProgramming => "CustomerProgramming".to_string(),
        }
    }
}

/// The properties of the machine, in the order in which it lists them.
pub open spec fn property_list() -> Seq<PropertyView> {
    seq![
        PropertyView {
            kind: PropertyKind::General,
            id: "rom_code"@,
            name: "ROM Code"@,
            unit: None,
        },
        PropertyView {
            kind: PropertyKind::General,
            id: "operating_time"@,
            name: "Operating Time"@,
            unit: None,
        },
        PropertyView {
            kind: PropertyKind::Failure,
            id: "faults"@,
            name: "Faults"@,
            unit: None,
        },
        PropertyView {
            kind: PropertyKind::Operation,
            id: "operating_mode"@,
            name: "Operating Mode"@,
            unit: None,
        },
    ]
}

/// The actions of the machine, in the order in which it lists them.
pub open spec fn action_list() -> Seq<ActionView> {
    Seq::empty()
}

/// The table of the machine's properties.
pub fn property_table() -> (r: &'static [Property])
    ensures
        properties_view(r) == property_list(),
{
    let r: &'static [Property] = &[
        Property {
            kind: PropertyKind::General,
            id: "rom_code",
            name: "ROM Code",
            unit: None,
        },
        Property {
            kind: PropertyKind::General,
            id: "operating_time",
            name: "Operating Time",
            unit: None,
        },
        Property {
            kind: PropertyKind::Failure,
            id: "faults",
            name: "Faults",
            unit: None,
        },
        Property {
            kind: PropertyKind::Operation,
            id: "operating_mode",
            name: "Operating Mode",
            unit: None,
        },
    ];
    assert(properties_view(r) =~= property_list());
    r
}

/// The table of the machine's actions.
pub fn action_table() -> (r: &'static [Action])
    ensures
        actions_view(r) == action_list(),
{
    let r: &'static [Action] = &[
    ];
    assert(actions_view(r) =~= action_list());
    r
}

/// No two properties of the machine have the same identifier, and no two of
/// its actions have.
pub proof fn ids_are_unique()
    ensures
        forall|i: int, j: int|
            0 <= i < j < property_list().len() ==> property_list()[i].id != property_list()[j].id,
        forall|i: int, j: int|
            0 <= i < j < action_list().len() ==> action_list()[i].id != action_list()[j].id,
{
    reveal_strlit("rom_code");
    reveal_strlit("operating_time");
    reveal_strlit("faults");
    reveal_strlit("operating_mode");
    assert(property_list()[0].id.len() == 8);
    assert(property_list()[1].id.len() == 14);
    assert(property_list()[1].id[10] == 't');
    assert(property_list()[2].id.len() == 6);
    assert(property_list()[3].id.len() == 14);
    assert(property_list()[3].id[10] == 'm');
}

/// A washing machine with software ID 1998.
pub struct WashingMachine<P> {
    intf: Interface<P>,
    software_id: u16,
}

impl<P: Port> WashingMachine<P> {
    /// The state of the diagnostic interface.
    pub closed spec fn intf(&self) -> Interface<P> {
        self.intf
    }

    /// The software ID that the machine reported.
    pub closed spec fn id(&self) -> u16 {
        self.software_id
    }

    /// The machine can be talked to.
    pub open spec fn wf(&self) -> bool {
        self.intf().wf()
    }

    /// Whether `after` is this machine, still usable if it was.
    pub open spec fn kept(self, after: Self) -> bool {
        &&& after.id() == self.id()
        &&& self.wf() ==> after.wf()
    }

    /// Whether the driver knows appliances with the software ID `id`.
    pub open spec fn supports(id: u16) -> bool {
        id == SOFTWARE_ID
    }

    /// The write that ends the unlock sequence: this driver needs none.
    pub open spec fn last_write() -> Option<(u32, u8)> {
        None
    }

    /// What the unlock sequence puts on the wire when it succeeds, with a
    /// dummy run in front of each request header.
    pub open spec fn handshake(chunk: nat) -> Wire {
        unlocking(READ_KEY, FULL_KEY, Self::last_write(), chunk, true)
    }

    /// Whether `dev` is a machine after a connection that succeeded: the
    /// software ID was asked for and is one that the driver knows, the unlock
    /// sequence went through, and nothing else has crossed the wire.
    pub open spec fn connected(dev: Self) -> bool {
        &&& dev.wf()
        &&& Self::supports(dev.id())
        &&& dev.intf().dummy_bytes() == true
        &&& dev.intf().chunk_size() == 4
        &&& dev.intf().wire() == identifying(dev.id()).followed_by(Self::handshake(4))
    }

    /// Whether the unlocking of a machine that has reported the software ID
    /// `software_id`, started in the state `start` of the interface, has
    /// ended with the result `r`. Dummy bytes are enabled first: the
    /// appliance has the legacy firmware. Where the unlock sequence goes
    /// through, the result is the device; where it fails, the result is that
    /// failure.
    pub open spec fn initialized(
        start: Interface<P>,
        software_id: u16,
        r: Result<Self, Error<P::Error>>,
    ) -> bool {
        exists|after: Interface<P>, done: Result<(), Error<P::Error>>|
            {
                &&& #[trigger] unlocked(
                    start.with_dummy_bytes(),
                    after,
                    READ_KEY,
                    FULL_KEY,
                    Self::last_write(),
                    done,
                )
                &&& match done {
                    Ok(()) => r is Ok && r->Ok_0.intf() == after && r->Ok_0.id() == software_id,
                    Err(e) => r is Err && r->Err_0 == e,
                }
            }
    }

    /// Whether a connection to the appliance behind `port` has ended with the
    /// result `r`. The appliance is asked for its software ID on a new
    /// interface. Where the driver knows the ID, the machine is unlocked;
    /// where it does not, the result is [`Error::UnknownSoftwareId`] with
    /// that ID.
    pub open spec fn connecting(port: P, r: Result<Self, Error<P::Error>>) -> bool {
        exists|asked: Interface<P>, id: Result<u16, ProtocolError<P::Error>>|
            {
                &&& #[trigger] Interface::fresh(port).software_id_queried(asked, id)
                &&& match id {
                    Ok(id) => if Self::supports(id) {
                        Self::initialized(asked, id, r)
                    } else {
                        r is Err && r->Err_0 == Error::<P::Error>::UnknownSoftwareId(id)
                    },
                    Err(e) => r is Err && r->Err_0 == Error::Protocol(e),
                }
            }
    }

    /// Unlocks the diagnostic interface of a machine that has reported the
    /// software ID `software_id`.
    pub(crate) fn initialize(intf: Interface<P>, software_id: u16) -> (r: Result<
        Self,
        Error<P::Error>,
    >)
        requires
            intf.wf(),
        ensures
            Self::initialized(intf, software_id, r),
            match r {
                Ok(dev) => {
                    &&& dev.wf()
                    &&& dev.id() == software_id
                    &&& dev.intf().dummy_bytes() == true
                    &&& dev.intf().chunk_size() == intf.chunk_size()
                    &&& dev.intf().wire() == intf.wire().followed_by(
                        Self::handshake(intf.chunk_size()),
                    )
                },
                Err(e) => e is Protocol,
            },
    {
        let mut intf = intf;
        intf.enable_dummy_bytes();
        let ghost ready = intf;
        let done = unlock(&mut intf, READ_KEY, FULL_KEY, None);
        proof {
            lemma_unlocked(ready, intf, READ_KEY, FULL_KEY, Self::last_write(), done);
        }
        match done {
            Ok(()) => Ok(WashingMachine { intf, software_id }),
            Err(e) => Err(e),
        }
    }

    /// Whether a query of the ROM code, started in this state, has ended in
    /// the state `after` with the result `out`.
    pub open spec fn rom_code_queried(self, after: Self, out: Result<u8, Error<P::Error>>) -> bool {
        &&& self.kept(after)
        &&& memory_decoded::<P, u8, u8, 1>(
            self.intf(),
            after.intf(),
            0xffdf,
            |raw: u8| fine(raw),
            out,
        )
    }

    /// Queries the ROM code of the microcontroller, a small number.
    pub fn query_rom_code(&mut self) -> (r: Result<u8, Error<P::Error>>)
        requires
            old(self).wf(),
        ensures
            (*old(self)).rom_code_queried(*final(self), r),
    {
        match self.intf.read_memory::<u8, 1>(0xffdf) {
            Ok(raw) => Ok(raw),
            Err(e) => Err(Error::Protocol(e)),
        }
    }

    /// Whether a query of the operating time, started in this state, has
    /// ended in the state `after` with the result `out`.
    pub open spec fn operating_time_queried(
        self,
        after: Self,
        out: Result<Duration, Error<P::Error>>,
    ) -> bool {
        &&& self.kept(after)
        &&& memory_decoded::<P, u32, Duration, 4>(
            self.intf(),
            after.intf(),
            0x0014,
            |raw: u32| fine(duration_of_secs(operating_seconds(raw))),
            out,
        )
    }

    /// Queries the time for which the appliance has run programs.
    ///
    /// The appliance counts minutes and hours; the hours are kept as packed
    /// decimal digits.
    pub fn query_operating_time(&mut self) -> (r: Result<Duration, Error<P::Error>>)
        requires
            old(self).wf(),
        ensures
            (*old(self)).operating_time_queried(*final(self), r),
    {
        match self.intf.read_memory::<u32, 4>(0x0014) {
            Ok(raw) => Ok(decode_operating_time(raw)),
            Err(e) => Err(Error::Protocol(e)),
        }
    }

    /// Whether a query of the faults on record, started in this state, has
    /// ended in the state `after` with the result `out`.
    pub open spec fn faults_queried(
        self,
        after: Self,
        out: Result<Fault, Error<P::Error>>,
    ) -> bool {
        &&& self.kept(after)
        &&& memory_decoded::<P, u8, Fault, 1>(
            self.intf(),
            after.intf(),
            0x000e,
            |raw: u8| known(Fault::of_bits(raw)),
            out,
        )
    }

    /// Queries the faults on record.
    pub fn query_faults(&mut self) -> (r: Result<Fault, Error<P::Error>>)
        requires
            old(self).wf(),
        ensures
            (*old(self)).faults_queried(*final(self), r),
    {
        match self.intf.read_memory::<u8, 1>(0x000e) {
            Ok(raw) => require_known(Fault::from_bits(raw)),
            Err(e) => Err(Error::Protocol(e)),
        }
    }

    /// Whether a query of the operating mode, started in this state, has
    /// ended in the state `after` with the result `out`.
    pub open spec fn operating_mode_queried(
        self,
        after: Self,
        out: Result<OperatingMode, Error<P::Error>>,
    ) -> bool {
        &&& self.kept(after)
        &&& memory_decoded::<P, u8, OperatingMode, 1>(
            self.intf(),
            after.intf(),
            0x0089,
            |raw: u8| known(OperatingMode::of_repr(raw)),
            out,
        )
    }

    /// Queries the operating mode.
    pub fn query_operating_mode(&mut self) -> (r: Result<OperatingMode, Error<P::Error>>)
        requires
            old(self).wf(),
        ensures
            (*old(self)).operating_mode_queried(*final(self), r),
    {
        match self.intf.read_memory::<u8, 1>(0x0089) {
            Ok(raw) => require_known(OperatingMode::from_repr(raw)),
            Err(e) => Err(Error::Protocol(e)),
        }
    }

    /// Whether a query of the property at the place `index` of the table,
    /// started in this state, has ended in the state `after` with the result
    /// `out`: the result of the query that belongs to the property, as a
    /// value.
    pub open spec fn property_queried(
        self,
        after: Self,
        index: int,
        out: Result<ValueView, Error<P::Error>>,
    ) -> bool {
        if index == 0 {
            exists|v: Result<u8, Error<P::Error>>|
                {
                    &&& #[trigger] self.rom_code_queried(after, v)
                    &&& out == mapped(v, |n: u8| ValueView::Number(n as u32))
                }
        } else if index == 1 {
            exists|v: Result<Duration, Error<P::Error>>|
                {
                    &&& #[trigger] self.operating_time_queried(after, v)
                    &&& out == mapped(v, |d: Duration| ValueView::Duration(d))
                }
        } else if index == 2 {
            exists|v: Result<Fault, Error<P::Error>>|
                {
                    &&& #[trigger] self.faults_queried(after, v)
                    &&& out == mapped(v, |f: Fault| ValueView::Text(f.text()))
                }
        } else {
            exists|v: Result<OperatingMode, Error<P::Error>>|
                {
                    &&& #[trigger] self.operating_mode_queried(after, v)
                    &&& out == mapped(v, |m: OperatingMode| ValueView::Text(m.name()))
                }
        }
    }
}

impl<P> Sealed for WashingMachine<P> {

}

impl<P: Port> Device<P> for WashingMachine<P> {
    open spec fn intf(&self) -> Interface<P> {
        WashingMachine::intf(self)
    }

    open spec fn id(&self) -> u16 {
        WashingMachine::id(self)
    }

    open spec fn kind_of(&self) -> DeviceKind {
        DeviceKind::WashingMachine
    }

    open spec fn property_table(&self) -> Seq<PropertyView> {
        property_list()
    }

    open spec fn action_table(&self) -> Seq<ActionView> {
        action_list()
    }

    open spec fn knows(id: u16) -> bool {
        Self::supports(id)
    }

    fn connect(port: P) -> (r: Result<Self, Error<P::Error>>)
        ensures
            Self::connecting(port, r),
            r matches Ok(dev) ==> Self::connected(dev),
    {
        let mut intf = Interface::new(port);
        let ghost start = intf;
        let id = match intf.query_software_id() {
            Ok(id) => id,
            Err(e) => {
                return Err(Error::Protocol(e));
            },
        };
        proof {
            lemma_identified(start, intf, id);
        }
        if id == SOFTWARE_ID {
            Self::initialize(intf, id)
        } else {
            Err(Error::UnknownSoftwareId(id))
        }
    }

    fn software_id(&self) -> (r: u16) {
        self.software_id
    }

    fn kind(&self) -> (r: DeviceKind) {
        DeviceKind::WashingMachine
    }

    fn properties(&self) -> (r: &'static [Property]) {
        property_table()
    }

    fn actions(&self) -> (r: &'static [Action]) {
        action_table()
    }

    fn query_property(&mut self, prop: &Property) -> (r: Result<Value, Error<P::Error>>)
        ensures
            match position(property_list(), prop@) {
                Some(index) => (*old(self)).property_queried(
                    *final(self),
                    index,
                    value_outcome(r),
                ),
                None => *final(self) == *old(self),
            },
    {
        match find_property(property_table(), prop) {
            Some(0) => match self.query_rom_code() {
                Ok(v) => Ok(Value::Number(v as u32)),
                Err(e) => Err(e),
            },
            Some(1) => match self.query_operating_time() {
                Ok(v) => Ok(Value::Duration(v)),
                Err(e) => Err(e),
            },
            Some(2) => match self.query_faults() {
                Ok(v) => Ok(Value::String(v.to_string())),
                Err(e) => Err(e),
            },
            Some(3) => match self.query_operating_mode() {
                Ok(v) => Ok(Value::String(v.to_string())),
                Err(e) => Err(e),
            },
            _ => Err(Error::UnknownProperty),
        }
    }

    fn trigger_action(&mut self, action: &Action, param: Option<Value>) -> (r: Result<
        (),
        Error<P::Error>,
    >)
        ensures
            *final(self) == *old(self),
    {
        Err(Error::UnknownAction)
    }

    fn interface(&mut self) -> (r: &mut Interface<P>) {
        &mut self.intf
    }
}

} // verus!
