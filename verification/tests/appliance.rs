use freemdu::device::id132;
use freemdu::device::id1998;
use freemdu::device::id324;
use freemdu::device::id419;
use freemdu::device::id605;
use freemdu::device::id629;
use freemdu::device::{
    connect, Action, ActionKind, ActionParameters, AnyDevice, Device, DeviceKind, Error, Fault,
    Property, PropertyKind, Value,
};
use freemdu::framing::compute_checksum;
use freemdu::{Error as ProtocolError, Interface, NoError, Port, ReadExactError};
use std::collections::VecDeque;
use std::time::Duration;

/// What the simulated appliance expects next from the host.
enum Expect {
    /// A request header.
    Header,
    /// The data of a write, for the given place.
    Data { eeprom: bool, addr: usize, len: usize },
    /// The acknowledgements of a reply of that many chunks.
    Acks(usize),
}

/// An appliance in memory: it speaks the diagnostic protocol, checks the
/// keys, and keeps a memory and an EEPROM that can be read and written.
///
/// It also records every request header that it accepts and every byte that
/// it receives.
struct Appliance {
    software_id: u16,
    read_key: u16,
    full_key: u16,
    dummy_bytes: bool,
    memory: Vec<u8>,
    eeprom: Vec<u8>,
    access: u8,
    chunk_size: usize,
    extension: Option<(u16, u8)>,
    expect: Expect,
    incoming: Vec<u8>,
    outgoing: VecDeque<u8>,
    requests: Vec<[u8; 4]>,
    heard: Vec<u8>,
}

impl Appliance {
    fn new(software_id: u16, read_key: u16, full_key: u16, dummy_bytes: bool) -> Self {
        Self {
            software_id,
            read_key,
            full_key,
            dummy_bytes,
            memory: vec![0x00; 0x1_0000],
            eeprom: vec![0x00; 0x1_0000],
            access: 0,
            chunk_size: 4,
            extension: None,
            expect: Expect::Header,
            incoming: Vec::new(),
            outgoing: VecDeque::new(),
            requests: Vec::new(),
            heard: Vec::new(),
        }
    }

    fn id132() -> Self {
        Self::new(132, 0x15a8, 0x703d, false)
    }

    fn id324() -> Self {
        Self::new(324, 0x43ea, 0x1f02, false)
    }

    fn id419() -> Self {
        Self::new(419, 0xb4ee, 0x4e83, true)
    }

    fn id605() -> Self {
        Self::new(605, 0x1234, 0x5678, false)
    }

    fn id629() -> Self {
        Self::new(629, 0x43ea, 0x1f02, false)
    }

    fn id1998() -> Self {
        Self::new(1998, 0x2b67, 0x8235, true)
    }

    fn with_memory(mut self, addr: usize, bytes: &[u8]) -> Self {
        self.memory[addr..addr + bytes.len()].copy_from_slice(bytes);
        self
    }

    fn with_eeprom(mut self, addr: usize, bytes: &[u8]) -> Self {
        self.eeprom[addr..addr + bytes.len()].copy_from_slice(bytes);
        self
    }

    fn reply(&mut self, data: &[u8]) {
        for chunk in data.chunks(self.chunk_size) {
            self.outgoing.extend(chunk);
            self.outgoing.push_back(compute_checksum(chunk));
        }
        self.expect = Expect::Acks(data.len().div_ceil(self.chunk_size));
    }

    /// Takes one chunk with its checksum off the bytes that have come in, if
    /// a whole one is there, and acknowledges it.
    fn take_chunk(&mut self, len: usize) -> Option<Vec<u8>> {
        let size = len.min(self.chunk_size);

        if self.incoming.len() < size + 1 {
            return None;
        }

        let chunk: Vec<u8> = self.incoming.drain(..size).collect();
        let sum = self.incoming.remove(0);

        if sum == compute_checksum(&chunk) {
            self.outgoing.push_back(0x00);
            Some(chunk)
        } else {
            self.outgoing.push_back(0x01);
            Some(Vec::new())
        }
    }

    fn handle(&mut self, header: [u8; 4]) {
        let [cmd, lo, hi, len] = header;
        let param = u16::from_le_bytes([lo, hi]);
        let extension = self.extension.take();
        let addr = (usize::from(extension.map_or(0, |e| e.0)) << 16) | usize::from(param);
        let count = (usize::from(extension.map_or(0, |e| e.1)) << 8) | usize::from(len);
        let allowed = match cmd {
            0x10 | 0x11 | 0x20 | 0x21 => true,
            0x30 | 0x31 | 0x32 | 0x37 | 0x38 => self.access >= 1,
            _ => self.access >= 2,
        };

        if !allowed {
            // The acknowledgement of the header is taken back.
            self.outgoing.pop_back();
            self.outgoing.push_back(0x02);
            return;
        }

        self.requests.push(header);

        match cmd {
            0x10 => self.access = 0,
            0x11 => self.reply(&self.software_id.to_le_bytes()),
            0x20 => self.access = u8::from(param == self.read_key),
            0x21 => {}
            0x30 => {
                let data = self.memory[addr & 0xffff..][..count].to_vec();
                self.reply(&data);
            }
            0x31 => {
                let data = self.eeprom[addr..][..count].to_vec();
                self.reply(&data);
            }
            0x32 => {
                if param == self.full_key {
                    self.access = 2;
                }
            }
            0x37 => self.extension = Some((param, len)),
            0x38 => self.reply(&[0x03, 0x03]),
            0x40 => self.expect = Expect::Data { eeprom: false, addr: addr & 0xffff, len: count },
            0x41 => self.expect = Expect::Data { eeprom: true, addr, len: count },
            0x4a => {
                let size = param.clamp(4, 128) as u8;
                self.reply(&[size]);
                self.chunk_size = usize::from(size);
            }
            _ => {}
        }
    }

    fn process(&mut self) {
        loop {
            match self.expect {
                Expect::Header => {
                    // No opcode is zero: a zero byte in place of one starts a
                    // dummy run, which an appliance with the legacy firmware
                    // takes and any other appliance does not understand.
                    let skip = match self.incoming.first() {
                        Some(0x00) if self.dummy_bytes => 4,
                        Some(_) => 0,
                        None => return,
                    };

                    if self.incoming.len() < skip + 5 {
                        return;
                    }

                    self.incoming.drain(..skip);

                    let Some(chunk) = self.take_chunk(4) else { return };

                    if let Ok(header) = <[u8; 4]>::try_from(chunk) {
                        self.handle(header);
                    }
                }
                Expect::Data { eeprom, addr, len } => {
                    let Some(chunk) = self.take_chunk(len) else { return };
                    let target = if eeprom { &mut self.eeprom } else { &mut self.memory };

                    target[addr..addr + chunk.len()].copy_from_slice(&chunk);
                    self.expect = if chunk.len() == len || chunk.is_empty() {
                        Expect::Header
                    } else {
                        Expect::Data { eeprom, addr: addr + chunk.len(), len: len - chunk.len() }
                    };
                }
                Expect::Acks(left) => {
                    if self.incoming.is_empty() {
                        return;
                    }

                    self.incoming.remove(0);
                    self.expect = if left > 1 { Expect::Acks(left - 1) } else { Expect::Header };
                }
            }
        }
    }
}

impl Port for Appliance {
    type Error = NoError;

    fn read_exact(&mut self, len: usize) -> Result<Vec<u8>, ReadExactError<NoError>> {
        if self.outgoing.len() < len {
            self.outgoing.clear();
            return Err(ReadExactError::UnexpectedEof);
        }

        Ok(self.outgoing.drain(..len).collect())
    }

    fn write_all(&mut self, buf: &[u8]) -> Result<(), NoError> {
        self.heard.extend(buf);
        self.incoming.extend(buf);
        self.process();

        Ok(())
    }
}

fn all_ids_are_unique(properties: &[Property], actions: &[Action]) {
    for (i, a) in properties.iter().enumerate() {
        for b in &properties[i + 1..] {
            assert_ne!(a.id, b.id, "property ids should be unique");
        }
    }
    for (i, a) in actions.iter().enumerate() {
        for b in &actions[i + 1..] {
            assert_ne!(a.id, b.id, "action ids should be unique");
        }
    }
}

/// Queries every property of the device and checks that each gives a value
/// or one of the errors that a listed property can give.
fn query_all<D: Device<Appliance>>(dev: &mut D) -> Vec<(&'static str, Result<Value, Error<NoError>>)> {
    let mut values = Vec::new();

    for prop in dev.properties() {
        let res = dev.query_property(prop);

        assert!(
            matches!(
                res,
                Ok(_) | Err(Error::UnexpectedMemoryValue) | Err(Error::Protocol(_))
            ),
            "{}: {res:?}",
            prop.id
        );
        values.push((prop.id, res));
    }

    values
}

fn value_of(values: &[(&'static str, Result<Value, Error<NoError>>)], id: &str) -> Result<Value, Error<NoError>> {
    let (_, res) = values.iter().find(|(i, _)| *i == id).unwrap();

    match res {
        Ok(Value::Bool(b)) => Ok(Value::Bool(*b)),
        Ok(Value::Number(n)) => Ok(Value::Number(*n)),
        Ok(Value::Sensor(a, b)) => Ok(Value::Sensor(*a, *b)),
        Ok(Value::String(s)) => Ok(Value::String(s.clone())),
        Ok(Value::Duration(d)) => Ok(Value::Duration(*d)),
        Ok(Value::Date(d)) => Ok(Value::Date(*d)),
        Err(Error::UnexpectedMemoryValue) => Err(Error::UnexpectedMemoryValue),
        Err(_) => Err(Error::InvalidState),
    }
}

fn text(s: &str) -> Result<Value, Error<NoError>> {
    Ok(Value::String(s.to_string()))
}

/// Triggers every action of the device without an argument and checks the
/// result against what the action declares.
fn trigger_all_without_argument<D: Device<Appliance>>(dev: &mut D) {
    for action in dev.actions() {
        let before = dev.interface().as_port().heard.len();
        let res = dev.trigger_action(action, None);

        if action.params.is_some() {
            assert_eq!(res, Err(Error::InvalidArgument), "{}", action.id);
            assert_eq!(
                dev.interface().as_port().heard.len(),
                before,
                "nothing should be sent"
            );
        } else {
            assert!(
                matches!(
                    res,
                    Ok(()) | Err(Error::InvalidState) | Err(Error::Protocol(_))
                ),
                "{}: {res:?}",
                action.id
            );
        }
    }
}

#[test]
fn connect_to_simulated_appliance() {
    let mut dev = connect(Appliance::id629()).unwrap();

    assert_eq!(dev.software_id(), 629);
    assert_eq!(dev.kind(), DeviceKind::WashingMachine);
    assert!(matches!(dev, AnyDevice::Id629(_)));
    // The read-out protection of the ROM has been switched off.
    assert_eq!(dev.interface().as_port().memory[0x02c2], 0x01);
    assert_eq!(dev.interface().as_port().access, 2);
    assert_eq!(
        dev.interface().as_port().requests,
        [
            [0x11, 0x00, 0x00, 0x02],
            [0x20, 0xea, 0x43, 0x00],
            [0x32, 0x02, 0x1f, 0x00],
            [0x40, 0xc2, 0x02, 0x01],
        ]
    );
}

#[test]
fn registry_picks_the_driver_by_software_id() {
    assert!(matches!(connect(Appliance::id132()), Ok(AnyDevice::Id132(_))));
    assert!(matches!(connect(Appliance::id324()), Ok(AnyDevice::Id324(_))));
    assert!(matches!(connect(Appliance::id419()), Ok(AnyDevice::Id419(_))));
    assert!(matches!(connect(Appliance::id605()), Ok(AnyDevice::Id605(_))));
    assert!(matches!(connect(Appliance::id629()), Ok(AnyDevice::Id629(_))));
    // The provisional driver is not in the registry.
    assert!(matches!(
        connect(Appliance::new(1998, 0, 0, false)),
        Err(Error::UnknownSoftwareId(1998))
    ));
    assert!(matches!(
        connect(Appliance::new(360, 0, 0, false)),
        Err(Error::UnknownSoftwareId(360))
    ));

    let dev = connect(Appliance::id605()).unwrap();

    assert_eq!(dev.kind(), DeviceKind::Dishwasher);
    assert_eq!(dev.software_id(), 605);
    assert_eq!(dev.kind().to_string(), "Dishwasher");
    assert_eq!(DeviceKind::WashingMachine.to_string(), "Washing Machine");
    assert_eq!(DeviceKind::TumbleDryer.to_string(), "Tumble Dryer");
    assert_eq!(DeviceKind::WasherDryer.to_string(), "Washer Dryer");
    assert_eq!(DeviceKind::CoffeeMachine.to_string(), "Coffee Machine");
}

#[test]
fn wrong_keys_leave_the_appliance_locked() {
    // The appliance takes both unlock commands and stays locked, so the
    // write at the end of the connection is refused.
    let res = connect(Appliance::new(629, 0x1111, 0x2222, false));

    assert!(matches!(
        res,
        Err(Error::Protocol(ProtocolError::InvalidCommand))
    ));
}

#[test]
fn dummy_bytes_precede_every_header() {
    let mut dev = id419::WashingMachine::connect(Appliance::id419()).unwrap();

    assert_eq!(
        dev.interface().as_port().heard,
        [
            // The software ID is asked for before dummy bytes are enabled.
            0x11, 0x00, 0x00, 0x02, 0x13, 0x00,
            // From then on a run of four zero bytes precedes each header.
            0x00, 0x00, 0x00, 0x00, 0x20, 0xee, 0xb4, 0x00, 0xc2,
            0x00, 0x00, 0x00, 0x00, 0x32, 0x83, 0x4e, 0x00, 0x03,
        ]
    );

    let before = dev.interface().as_port().heard.len();

    assert_eq!(dev.query_rom_code(), Ok(0x00));
    assert_eq!(
        dev.interface().as_port().heard[before..],
        [0x00, 0x00, 0x00, 0x00, 0x30, 0xdf, 0xff, 0x01, 0x0f, 0x00]
    );
}

#[test]
fn every_property_of_every_driver_can_be_queried() {
    let mut dev = id132::WashingMachine::connect(Appliance::id132()).unwrap();
    assert_eq!(query_all(&mut dev).len(), 20);
    all_ids_are_unique(dev.properties(), dev.actions());

    let mut dev = id324::WashingMachine::connect(Appliance::id324()).unwrap();
    assert_eq!(query_all(&mut dev).len(), 20);
    all_ids_are_unique(dev.properties(), dev.actions());

    let mut dev = id419::WashingMachine::connect(Appliance::id419()).unwrap();
    assert_eq!(query_all(&mut dev).len(), 16);
    all_ids_are_unique(dev.properties(), dev.actions());

    let mut dev = id605::Dishwasher::connect(Appliance::id605()).unwrap();
    assert_eq!(query_all(&mut dev).len(), 12);
    all_ids_are_unique(dev.properties(), dev.actions());

    let mut dev = id629::WashingMachine::connect(Appliance::id629()).unwrap();
    assert_eq!(query_all(&mut dev).len(), 24);
    all_ids_are_unique(dev.properties(), dev.actions());

    let mut dev = id1998::WashingMachine::connect(Appliance::id1998()).unwrap();
    assert_eq!(query_all(&mut dev).len(), 4);
    all_ids_are_unique(dev.properties(), dev.actions());

    let mut dev = connect(Appliance::id605()).unwrap();
    assert_eq!(query_all(&mut dev).len(), 12);
}

#[test]
fn actions_without_argument() {
    let mut dev = id132::WashingMachine::connect(Appliance::id132()).unwrap();
    assert!(dev.actions().is_empty());
    trigger_all_without_argument(&mut dev);

    let mut dev = id324::WashingMachine::connect(Appliance::id324()).unwrap();
    assert_eq!(dev.actions().len(), 3);
    trigger_all_without_argument(&mut dev);

    let mut dev = id419::WashingMachine::connect(Appliance::id419()).unwrap();
    assert_eq!(dev.actions().len(), 3);
    trigger_all_without_argument(&mut dev);

    let mut dev = id605::Dishwasher::connect(Appliance::id605()).unwrap();
    assert_eq!(dev.actions().len(), 1);
    trigger_all_without_argument(&mut dev);

    let mut dev = id629::WashingMachine::connect(Appliance::id629()).unwrap();
    assert_eq!(dev.actions().len(), 3);
    trigger_all_without_argument(&mut dev);

    let mut dev = connect(Appliance::id629().with_memory(0x00e7, &[0x01])).unwrap();
    trigger_all_without_argument(&mut dev);
    assert_eq!(dev.interface().as_port().memory[0x00e7], 0x02);

    let mut dev = id1998::WashingMachine::connect(Appliance::id1998()).unwrap();
    assert!(dev.actions().is_empty());
    assert_eq!(
        dev.trigger_action(
            &Action {
                kind: ActionKind::Operation,
                id: "start_program",
                name: "Start Program",
                params: None
            },
            None
        ),
        Err(Error::UnknownAction)
    );
}

#[test]
fn properties_of_id629() {
    let appliance = Appliance::id629()
        .with_eeprom(0x01ba, b"\x0893140239")
        .with_eeprom(0x01bf, b"\x0fW2446          ")
        .with_eeprom(0x01ca, b"56554705")
        .with_memory(0xffdb, &[0x04])
        .with_memory(0x0052, &[0x1e, 0x34, 0x12, 0x00])
        .with_memory(0x004e, &[0x41, 0x01])
        .with_memory(0x00cd, &[0x02])
        .with_memory(0x00b5, &[0x0d])
        .with_memory(0x00de, &[0x0a])
        .with_memory(0x00df, &[40])
        .with_memory(0x0058, &[0x30])
        .with_memory(0x0057, &[0x06])
        .with_memory(0x00a2, &[0x04])
        .with_memory(0x0045, &[0x04])
        .with_memory(0x004a, &[3])
        .with_memory(0x009e, &[0x21, 0x03, 0x10, 0x00])
        .with_memory(0x007d, &[0x24, 0x04])
        .with_memory(0x0136, &[60, 42])
        .with_memory(0x02be, &[17])
        .with_memory(0x007f, &[55, 80])
        .with_memory(0x02b9, &[128])
        .with_memory(0x01a4, &[0xb0, 0x04, 0xa0, 0x05]);
    let mut dev = id629::WashingMachine::connect(appliance).unwrap();

    // The index of the serial number overlaps the serial number in the
    // EEPROM: the bytes at 0x01be are "0239", and the index is the middle two.
    // The model number at 0x01bf starts one byte later and so holds the
    // last digits of the serial number too in this made-up EEPROM.
    assert_eq!(dev.query_board_number(), Ok("56554705".to_string()));
    assert_eq!(dev.query_rom_code(), Ok(4));
    assert_eq!(
        dev.query_operating_time(),
        Ok(Duration::from_secs((1234 * 60 + 30) * 60))
    );
    assert_eq!(dev.query_faults().unwrap().bits(), 0x0141);
    assert_eq!(
        dev.query_faults().unwrap().to_string(),
        "PressureSensor | Drainage | Eeprom"
    );
    assert_eq!(
        dev.query_operating_mode(),
        Ok(id629::OperatingMode::ProgramRunning)
    );
    assert_eq!(
        dev.query_program_selector(),
        Ok(id629::SelectorPosition::AutomaticMixedWash40)
    );
    assert_eq!(
        dev.query_program_type(),
        Ok(id629::ProgramType::AutomaticMixedWash)
    );
    assert_eq!(dev.query_program_temperature(), Ok(40));
    assert_eq!(dev.query_program_options().unwrap().bits(), 0x30);
    assert_eq!(
        dev.query_program_spin_setting(),
        Ok(id629::SpinSetting::SpinMax)
    );
    assert_eq!(dev.query_program_phase(), Ok(id629::ProgramPhase::MainWash));
    assert_eq!(dev.query_program_locked(), Ok(true));
    assert_eq!(dev.query_load_level(), Ok(3));
    assert_eq!(dev.query_display_contents(), Ok("1.23".to_string()));
    assert_eq!(
        dev.query_active_actuators().unwrap().to_string(),
        "DrainPump | Heater | MainWash"
    );
    assert_eq!(dev.query_temperature(), Ok((42, 60)));
    assert_eq!(dev.query_pressure_sensor_value(), Ok(17));
    assert_eq!(dev.query_water_level(), Ok((55, 80)));
    assert_eq!(dev.query_motor_pwm_duty_cycle(), Ok(50));
    assert_eq!(dev.query_tachometer_speed(), Ok((0x05a0, 0x04b0)));

    let values = query_all(&mut dev);

    assert_eq!(value_of(&values, "board_number"), text("56554705"));
    assert_eq!(value_of(&values, "rom_code"), Ok(Value::Number(4)));
    assert_eq!(
        value_of(&values, "operating_time"),
        Ok(Value::Duration(Duration::from_secs((1234 * 60 + 30) * 60)))
    );
    assert_eq!(
        value_of(&values, "faults"),
        text("PressureSensor | Drainage | Eeprom")
    );
    assert_eq!(value_of(&values, "operating_mode"), text("ProgramRunning"));
    assert_eq!(
        value_of(&values, "program_selector"),
        text("AutomaticMixedWash40")
    );
    assert_eq!(value_of(&values, "program_type"), text("AutomaticMixedWash"));
    assert_eq!(
        value_of(&values, "program_temperature"),
        Ok(Value::Number(40))
    );
    assert_eq!(value_of(&values, "program_options"), text("Soak | PreWash"));
    assert_eq!(value_of(&values, "program_spin_setting"), text("SpinMax"));
    assert_eq!(value_of(&values, "program_phase"), text("MainWash"));
    assert_eq!(value_of(&values, "program_locked"), Ok(Value::Bool(true)));
    assert_eq!(value_of(&values, "load_level"), Ok(Value::Number(3)));
    assert_eq!(value_of(&values, "display_contents"), text("1.23"));
    assert_eq!(
        value_of(&values, "active_actuators"),
        text("DrainPump | Heater | MainWash")
    );
    assert_eq!(value_of(&values, "temperature"), Ok(Value::Sensor(42, 60)));
    assert_eq!(
        value_of(&values, "pressure_sensor_value"),
        Ok(Value::Number(17))
    );
    assert_eq!(value_of(&values, "water_level"), Ok(Value::Sensor(55, 80)));
    assert_eq!(
        value_of(&values, "motor_pwm_duty_cycle"),
        Ok(Value::Number(50))
    );
    assert_eq!(
        value_of(&values, "tachometer_speed"),
        Ok(Value::Sensor(0x05a0, 0x04b0))
    );
}

#[test]
fn texts_from_the_eeprom_of_id629() {
    let appliance = Appliance::id629()
        .with_eeprom(0x01ba, b"\x0893140239\x00")
        .with_eeprom(0x01ca, b"56554705");
    let mut dev = id629::WashingMachine::connect(appliance).unwrap();

    assert_eq!(dev.query_serial_number(), Ok("93140239".to_string()));

    let appliance = Appliance::id629().with_eeprom(0x01be, b"\x0203\x00");
    let mut dev = id629::WashingMachine::connect(appliance).unwrap();

    assert_eq!(dev.query_serial_number_index(), Ok("03".to_string()));

    let appliance = Appliance::id629().with_eeprom(0x01bf, b"\x0fW2446          ");
    let mut dev = id629::WashingMachine::connect(appliance).unwrap();

    assert_eq!(dev.query_model_number(), Ok("W2446".to_string()));

    // Bytes that are no text are an unexpected memory value.
    let appliance = Appliance::id629().with_eeprom(0x01ca, &[0xff; 8]);
    let mut dev = id629::WashingMachine::connect(appliance).unwrap();

    assert_eq!(dev.query_board_number(), Err(Error::UnexpectedMemoryValue));

    let prop = &dev.properties()[3];

    assert_eq!(prop.id, "board_number");
    assert_eq!(dev.query_property(prop), Err(Error::UnexpectedMemoryValue));
}

#[test]
fn unexpected_memory_values_of_id629() {
    let appliance = Appliance::id629()
        .with_memory(0x004e, &[0x00, 0x02])
        .with_memory(0x00cd, &[0x07])
        .with_memory(0x00b5, &[22])
        .with_memory(0x00de, &[0x08])
        .with_memory(0x0058, &[0x01])
        .with_memory(0x0057, &[7])
        .with_memory(0x00a2, &[14])
        .with_memory(0x007d, &[0x01, 0x00])
        .with_memory(0x01bf, &[0xff]);
    let mut dev = id629::WashingMachine::connect(appliance).unwrap();

    assert_eq!(
        dev.query_faults().err(),
        Some(Error::UnexpectedMemoryValue)
    );
    assert_eq!(
        dev.query_operating_mode(),
        Err(Error::UnexpectedMemoryValue)
    );
    assert_eq!(
        dev.query_program_selector(),
        Err(Error::UnexpectedMemoryValue)
    );
    assert_eq!(dev.query_program_type(), Err(Error::UnexpectedMemoryValue));
    assert_eq!(
        dev.query_program_options().err(),
        Some(Error::UnexpectedMemoryValue)
    );
    assert_eq!(
        dev.query_program_spin_setting(),
        Err(Error::UnexpectedMemoryValue)
    );
    assert_eq!(
        dev.query_program_phase(),
        Err(Error::UnexpectedMemoryValue)
    );
    assert_eq!(
        dev.query_active_actuators().err(),
        Some(Error::UnexpectedMemoryValue)
    );
    assert_eq!(
        dev.query_ntc_resistance(),
        Err(Error::UnexpectedMemoryValue)
    );
}

#[test]
fn setters_of_id629() {
    let mut dev = id629::WashingMachine::connect(Appliance::id629()).unwrap();
    let opts = id629::ProgramOption::parse("WaterPlus | IntensiveShort").unwrap();

    assert_eq!(opts.bits(), 0xc0);
    assert_eq!(opts.to_string(), "WaterPlus | IntensiveShort");
    assert_eq!(dev.set_program_options(opts), Ok(()));
    assert_eq!(dev.interface().as_port().memory[0x0058], 0xc0);
    assert_eq!(dev.query_program_options().map(|o| o.bits()), Ok(0xc0));
    assert_eq!(
        dev.set_program_spin_setting(id629::SpinSetting::RinseHold),
        Ok(())
    );
    assert_eq!(dev.interface().as_port().memory[0x0057], 0x01);
    assert_eq!(
        dev.query_program_spin_setting(),
        Ok(id629::SpinSetting::RinseHold)
    );
    assert_eq!(dev.start_program(), Err(Error::InvalidState));
    assert_eq!(dev.interface().as_port().memory[0x00e7], 0x00);

    dev.interface().write_memory(0x00e7, 0x01u8).unwrap();

    assert_eq!(dev.start_program(), Ok(()));
    assert_eq!(dev.interface().as_port().memory[0x00e7], 0x02);
    assert_eq!(dev.start_program(), Err(Error::InvalidState));
}

#[test]
fn enums_and_flags_of_id629() {
    assert_eq!(id629::OperatingMode::from_repr(0), None);
    assert_eq!(
        id629::OperatingMode::from_repr(8),
        Some(id629::OperatingMode::Demo)
    );
    assert_eq!(id629::OperatingMode::from_repr(7), None);
    assert_eq!(id629::OperatingMode::Demo.to_repr(), 8);
    assert_eq!(id629::OperatingMode::Demo.to_string(), "Demo");
    assert_eq!(
        id629::ProgramType::from_repr(0),
        Some(id629::ProgramType::NoProgram)
    );
    assert_eq!(id629::ProgramType::NoProgram.to_string(), "None");
    assert_eq!(id629::ProgramType::from_repr(8), None);
    assert_eq!(
        id629::ProgramType::from_repr(11),
        Some(id629::ProgramType::Silks)
    );
    assert_eq!(
        id629::SpinSetting::variants(),
        [
            "WithoutSpin",
            "RinseHold",
            "SpinMin",
            "SpinLow",
            "SpinMed",
            "SpinHigh",
            "SpinMax"
        ]
    );
    for (i, name) in id629::SpinSetting::variants().iter().enumerate() {
        let setting = id629::SpinSetting::from_name(name).unwrap();

        assert_eq!(usize::from(setting.to_repr()), i);
        assert_eq!(setting.to_string(), *name);
        assert_eq!(id629::SpinSetting::from_repr(i as u8), Some(setting));
    }
    assert_eq!(id629::SpinSetting::from_name("SpinVeryHigh"), None);
    assert_eq!(id629::SpinSetting::from_name("spinmax"), None);
    assert_eq!(id629::SpinSetting::from_repr(7), None);
    assert_eq!(id629::Fault::from_bits(0x01ff).unwrap().bits(), 0x01ff);
    assert_eq!(id629::Fault::from_bits(0x0200), None);
    assert_eq!(id629::Fault::from_bits(0).unwrap().to_string(), "");
    assert_eq!(id629::Actuator::from_bits(0x0003), None);
    assert_eq!(
        id629::Actuator::from_bits(0x07fc).unwrap().to_string(),
        "DrainPump | DrumLights | Reverse | Heater | Softener | PreWash | FieldSwitch | WarmWater | MainWash"
    );
    assert_eq!(id629::ProgramOption::from_bits(0x0f), None);
    assert_eq!(id629::ProgramOption::parse("Short"), None);
    assert_eq!(id629::ProgramOption::parse("").map(|o| o.bits()), Some(0));
    assert_eq!(
        id324::ProgramOption::parse("Short").map(|o| o.bits()),
        Some(0x80)
    );
    assert_eq!(id324::ProgramOption::parse("IntensiveShort"), None);
    assert_eq!(
        id324::SpinSetting::from_name("SpinVeryHigh"),
        Some(id324::SpinSetting::SpinVeryHigh)
    );
    assert_eq!(id324::SpinSetting::SpinMax.to_repr(), 7);
}

#[test]
fn properties_of_id324() {
    let appliance = Appliance::id324()
        .with_memory(0xffdf, &[0x07])
        .with_memory(0x0010, &[59, 0x99, 0x00, 0x00])
        .with_memory(0x000e, &[0x81, 0xff])
        .with_memory(0x0089, &[0x00])
        .with_memory(0x0071, &[21])
        .with_memory(0x009c, &[0x08])
        .with_memory(0x009d, &[95])
        .with_memory(0x0016, &[0x80])
        .with_memory(0x0005, &[0x05])
        .with_memory(0x0015, &[0x06])
        .with_memory(0x00a8, &[32])
        .with_memory(0x005e, &[0x01])
        .with_memory(0x000a, &[1])
        .with_memory(0x005a, &[0x85, 0x0d, 0x20, 0x08])
        .with_memory(0x0039, &[0x22, 0x60])
        .with_memory(0x0171, &[128])
        .with_memory(0x0135, &[30, 29])
        .with_memory(0x003b, &[10, 20])
        .with_memory(0x004f, &[255])
        .with_memory(0x0091, &[0x27, 0x01, 0x00, 0xba, 0x01]);
    let mut dev = id324::WashingMachine::connect(appliance).unwrap();

    assert_eq!(dev.query_rom_code(), Ok(7));
    assert_eq!(
        dev.query_operating_time(),
        Ok(Duration::from_secs((99 * 60 + 59) * 60))
    );
    // Of the word 0xff81 the lower nine bits are faults.
    assert_eq!(dev.query_stored_faults().unwrap().bits(), 0x0181);
    assert_eq!(
        dev.query_stored_faults().unwrap().to_string(),
        "PressureSensor | SpinCycle | Eeprom"
    );
    assert_eq!(dev.query_operating_mode(), Ok(id324::OperatingMode::DoorOpen));
    assert_eq!(
        dev.query_program_selector(),
        Ok(id324::SelectorPosition::MixedWash40)
    );
    assert_eq!(dev.query_program_type(), Ok(id324::ProgramType::Drain));
    assert_eq!(dev.query_program_temperature(), Ok(95));
    assert_eq!(dev.query_program_options().unwrap().to_string(), "Short");
    assert_eq!(dev.query_buzzer_enabled(), Ok(true));
    assert_eq!(
        dev.query_program_spin_setting(),
        Ok(id324::SpinSetting::SpinVeryHigh)
    );
    assert_eq!(dev.query_program_spin_speed(), Ok(1600));
    assert_eq!(
        dev.query_program_phase(),
        Ok(id324::ProgramPhase::DelayedStart)
    );
    assert_eq!(dev.query_program_locked(), Ok(true));
    assert_eq!(dev.query_load_level(), Ok(1));
    // Codes 5, 8 and 13; the third in the special set; the point after the
    // second position.
    assert_eq!(dev.query_display_contents(), Ok("58.-".to_string()));
    assert_eq!(
        dev.query_active_actuators().unwrap().to_string(),
        "DrainPump | Heater | MainWash | WarmWater"
    );
    assert_eq!(dev.query_ntc_resistance(), Ok(2150));
    assert_eq!(dev.query_temperature(), Ok((29, 30)));
    assert_eq!(dev.query_water_level(), Ok((10, 20)));
    assert_eq!(dev.query_motor_pwm_duty_cycle(), Ok(100));
    // 442500 / 295 and 442500 / 442.
    assert_eq!(dev.query_tachometer_speed(), Ok((1500, 1001)));

    let values = query_all(&mut dev);

    assert_eq!(value_of(&values, "buzzer_enabled"), Ok(Value::Bool(true)));
    assert_eq!(
        value_of(&values, "program_spin_speed"),
        Ok(Value::Number(1600))
    );
    assert_eq!(
        value_of(&values, "tachometer_speed"),
        Ok(Value::Sensor(1500, 1001))
    );
    assert_eq!(value_of(&values, "ntc_resistance"), Ok(Value::Number(2150)));
    assert_eq!(value_of(&values, "display_contents"), text("58.-"));
    assert_eq!(value_of(&values, "operating_mode"), text("DoorOpen"));
    assert!(values.iter().all(|(id, _)| *id != "faults"));
    // The spin speed fills 16 bits where the byte is large.
    dev.interface().write_memory(0x00a8, 0xffu8).unwrap();
    assert_eq!(dev.query_program_spin_speed(), Ok(12750));
    // No speed, and a raw value too small for 16 bits of speed.
    dev.interface()
        .write_memory(0x0091, [0xff, 0xff, 0x00, 0x01, 0x00])
        .unwrap();
    assert_eq!(dev.query_tachometer_speed(), Ok((0, 65535)));
}

#[test]
fn actions_of_id324_and_id419() {
    let mut dev = id324::WashingMachine::connect(Appliance::id324()).unwrap();
    let actions = dev.actions();

    assert_eq!(
        actions[0].params,
        Some(ActionParameters::Flags(&[
            "Soak",
            "PreWash",
            "WaterPlus",
            "Short"
        ]))
    );
    assert_eq!(
        actions[1].params,
        Some(ActionParameters::Enumeration(id324::SpinSetting::variants()))
    );
    assert_eq!(actions[2].params, None);
    assert_eq!(
        dev.trigger_action(&actions[0], Some(Value::String("Short|Soak".to_string()))),
        Ok(())
    );
    assert_eq!(dev.interface().as_port().memory[0x0016], 0x90);
    assert_eq!(
        dev.trigger_action(&actions[1], Some(Value::String("SpinVeryHigh".to_string()))),
        Ok(())
    );
    assert_eq!(dev.interface().as_port().memory[0x0015], 0x06);
    assert_eq!(
        dev.trigger_action(&actions[2], None),
        Err(Error::InvalidState)
    );
    dev.interface().write_memory(0x00a5, 0x01u8).unwrap();
    assert_eq!(dev.trigger_action(&actions[2], None), Ok(()));
    assert_eq!(dev.interface().as_port().memory[0x00a5], 0x02);

    let mut dev = id419::WashingMachine::connect(Appliance::id419()).unwrap();
    let actions = dev.actions();

    assert_eq!(
        dev.trigger_action(&actions[0], Some(Value::String("WaterPlus".to_string()))),
        Ok(())
    );
    assert_eq!(dev.interface().as_port().memory[0x0012], 0x40);
    assert_eq!(
        dev.trigger_action(&actions[1], Some(Value::String("SpinMin".to_string()))),
        Ok(())
    );
    assert_eq!(dev.interface().as_port().memory[0x0011], 0x02);
    dev.interface().write_memory(0x00a5, 0x01u8).unwrap();
    assert_eq!(dev.start_program(), Ok(()));
    assert_eq!(dev.interface().as_port().memory[0x00a5], 0x02);
}

#[test]
fn properties_of_id419() {
    let appliance = Appliance::id419()
        .with_memory(0xffdf, &[0x02])
        .with_memory(0x0014, &[0x00, 0x01, 0x00, 0x00])
        .with_memory(0x000e, &[0x82])
        .with_memory(0x0089, &[0x06])
        .with_memory(0x0071, &[0x12])
        .with_memory(0x009e, &[0x07])
        .with_memory(0x009f, &[30])
        .with_memory(0x0012, &[0x10])
        .with_memory(0x0011, &[0x00])
        .with_memory(0x005e, &[13])
        .with_memory(0x0005, &[0x03])
        .with_memory(0x000a, &[4])
        .with_memory(0x0039, &[0x01, 0x40])
        .with_memory(0x0179, &[64])
        .with_memory(0x0138, &[75, 20])
        .with_memory(0x003b, &[0, 35]);
    let mut dev = id419::WashingMachine::connect(appliance).unwrap();

    assert_eq!(dev.query_rom_code(), Ok(2));
    assert_eq!(dev.query_operating_time(), Ok(Duration::from_secs(3600)));
    assert_eq!(
        dev.query_faults().unwrap().to_string(),
        "NtcThermistor | Eeprom"
    );
    assert_eq!(
        dev.query_operating_mode(),
        Ok(id419::OperatingMode::CustomerProgramming)
    );
    assert_eq!(dev.query_program_selector(), Ok(id419::SelectorPosition::Spin));
    assert_eq!(dev.query_program_type(), Ok(id419::ProgramType::Spin));
    assert_eq!(dev.query_program_temperature(), Ok(30));
    assert_eq!(dev.query_program_options().unwrap().to_string(), "Soak");
    assert_eq!(
        dev.query_program_spin_setting(),
        Ok(id419::SpinSetting::WithoutSpin)
    );
    assert_eq!(
        dev.query_program_phase(),
        Ok(id419::ProgramPhase::AntiCreaseFinish)
    );
    assert_eq!(dev.query_program_locked(), Ok(false));
    assert_eq!(dev.query_load_level(), Ok(4));
    assert_eq!(
        dev.query_active_actuators().unwrap().to_string(),
        "FieldSwitch | WarmWater"
    );
    assert_eq!(dev.query_ntc_resistance(), Ok(716));
    assert_eq!(dev.query_temperature(), Ok((20, 75)));
    assert_eq!(dev.query_water_level(), Ok((0, 35)));

    let values = query_all(&mut dev);

    assert_eq!(value_of(&values, "faults"), text("NtcThermistor | Eeprom"));
    assert_eq!(value_of(&values, "program_locked"), Ok(Value::Bool(false)));
    assert_eq!(value_of(&values, "temperature"), Ok(Value::Sensor(20, 75)));
    assert_eq!(
        value_of(&values, "operating_time"),
        Ok(Value::Duration(Duration::from_secs(3600)))
    );
}

#[test]
fn properties_of_id605() {
    let appliance = Appliance::id605()
        .with_eeprom(0x00ec, b"06175932")
        .with_memory(0x0082, &[0x08, 0x01])
        .with_memory(0x00af, &[5])
        .with_memory(0x0065, &[0x0b])
        .with_memory(0x008e, &[0x01])
        .with_memory(0x006a, &[0x08])
        .with_memory(0x020d, &[12])
        .with_memory(0x022a, &[0x60, 0xdf])
        .with_memory(0x006f, &[0x05])
        .with_memory(0x0061, &[200])
        .with_memory(0x006c, &[0xff])
        .with_memory(0x0088, &[0x34, 0x12])
        .with_memory(0x00c5, &[0x78, 0x56])
        .with_memory(0x00d6, &[0xc2, 0x01]);
    let mut dev = id605::Dishwasher::connect(appliance).unwrap();

    assert_eq!(dev.interface().as_port().memory[0x00f4], 0x02);
    assert_eq!(dev.query_board_number(), Ok("06175932".to_string()));
    assert_eq!(
        dev.query_faults().unwrap().to_string(),
        "Heater | PressureSwitchHeating"
    );
    assert_eq!(dev.query_program_selector(), Ok(5));
    assert_eq!(dev.query_program_type(), Ok(id605::ProgramType::Normal));
    assert_eq!(dev.query_top_solo_enabled(), Ok(true));
    assert_eq!(dev.query_program_phase(), Ok(id605::ProgramPhase::Drying));
    assert_eq!(dev.query_program_step(), Ok(12));
    // Of the word 0xdf60 the bits 8 to 12 are left out.
    assert_eq!(dev.query_active_actuators().unwrap().bits(), 0xc060);
    assert_eq!(
        dev.query_active_actuators().unwrap().to_string(),
        "Inlet | Heater | DrainPump | CirculationPump"
    );
    assert_eq!(
        dev.query_closed_switches().unwrap().to_string(),
        "HeaterPressure | RinseAidReservoirEmpty"
    );
    // No target is set: 255 counts as 0.
    assert_eq!(dev.query_ntc_resistance(), Ok((7678, 0)));
    assert_eq!(dev.query_flow_meter_pulses(), Ok((0x1234, 0x5678)));
    assert_eq!(dev.query_target_water_amount(), Ok(4500));

    let values = query_all(&mut dev);

    assert_eq!(value_of(&values, "board_number"), text("06175932"));
    assert_eq!(value_of(&values, "program_selector"), Ok(Value::Number(5)));
    assert_eq!(value_of(&values, "program_type"), text("Normal"));
    assert_eq!(value_of(&values, "top_solo_enabled"), Ok(Value::Bool(true)));
    assert_eq!(
        value_of(&values, "ntc_resistance"),
        Ok(Value::Sensor(7678, 0))
    );
    assert_eq!(
        value_of(&values, "flow_meter_pulses"),
        Ok(Value::Sensor(0x1234, 0x5678))
    );
    assert_eq!(
        value_of(&values, "target_water_amount"),
        Ok(Value::Number(4500))
    );
    assert_eq!(
        value_of(&values, "closed_switches"),
        text("HeaterPressure | RinseAidReservoirEmpty")
    );

    dev.interface().write_memory(0x006c, 128u8).unwrap();
    assert_eq!(dev.query_ntc_resistance(), Ok((7678, 2150)));
    dev.interface().write_memory(0x0061, 255u8).unwrap();
    assert_eq!(
        dev.query_ntc_resistance(),
        Err(Error::UnexpectedMemoryValue)
    );
    // 6553 cl are 65530 ml; 6554 cl do not fit 16 bits of millilitres.
    dev.interface().write_memory(0x00d6, 6553u16).unwrap();
    assert_eq!(dev.query_target_water_amount(), Ok(65530));
    dev.interface().write_memory(0x00d6, 6554u16).unwrap();
    assert_eq!(
        dev.query_target_water_amount(),
        Err(Error::UnexpectedMemoryValue)
    );
    assert_eq!(id605::Switch::from_bits(0x08), None);
    assert_eq!(id605::ProgramType::from_repr(1), None);
    assert_eq!(id605::ProgramType::from_repr(9), None);
    assert_eq!(id605::ProgramPhase::from_repr(10), None);
}

#[test]
fn start_program_of_id605() {
    let mut dev = id605::Dishwasher::connect(Appliance::id605().with_memory(0x0084, &[0x01])).unwrap();
    let actions = dev.actions();

    assert_eq!(actions[0].id, "start_program");
    assert_eq!(dev.start_program(), Err(Error::InvalidState));
    assert_eq!(dev.interface().as_port().memory[0x0084], 0x01);
    dev.interface().write_memory(0x0084, 0x02u8).unwrap();
    assert_eq!(dev.trigger_action(&actions[0], None), Ok(()));
    assert_eq!(dev.interface().as_port().memory[0x0084], 0x05);
    assert_eq!(
        dev.trigger_action(&actions[0], Some(Value::Number(1))),
        Err(Error::InvalidArgument)
    );
}

#[test]
fn properties_of_id132() {
    let appliance = Appliance::id132()
        .with_memory(0x0012, &[0x05, 0x10, 0x00, 0x00])
        .with_memory(0x0114, &[23])
        .with_memory(0x006c, &[0x81])
        .with_memory(0x006d, &[3])
        .with_memory(0x0059, &[120])
        .with_memory(0x001c, &[0x0c])
        .with_memory(0x003a, &[0x12, 0x80])
        .with_memory(0x0021, &[1])
        .with_memory(0x005c, &[14])
        .with_memory(0x003c, &[1, 2])
        .with_memory(0x006f, &[0xba, 0x01, 0x27, 0x01, 0x00]);
    let mut dev = id132::WashingMachine::connect(appliance).unwrap();

    assert_eq!(
        dev.query_operating_time(),
        Ok(Duration::from_secs((10 * 60 + 5) * 60))
    );
    assert_eq!(
        dev.query_selected_program(),
        Ok(id132::Program::SeparateRinse)
    );
    assert_eq!(dev.query_program_options(), Ok(0x81));
    assert_eq!(dev.query_program_spin_setting(), Ok(3));
    assert_eq!(dev.query_program_spin_speed(), Ok(120));
    assert_eq!(dev.query_program_phase(), Ok(id132::ProgramPhase::FinalSpin));
    assert_eq!(
        dev.query_active_actuators().unwrap().to_string(),
        "Softener | DrainPump | Heater"
    );
    assert_eq!(dev.query_ntc_resistance(), Ok(8));
    assert_eq!(dev.query_target_temperature(), Ok(65));
    assert_eq!(dev.query_water_level(), Ok((1, 2)));
    assert_eq!(dev.query_tachometer_speed(), Ok((1500, 1001)));

    let values = query_all(&mut dev);

    assert_eq!(value_of(&values, "selected_program"), text("SeparateRinse"));
    assert_eq!(value_of(&values, "program_options"), text("129"));
    assert_eq!(value_of(&values, "program_spin_setting"), text("3"));
    assert_eq!(value_of(&values, "program_spin_speed"), text("120"));
    assert_eq!(
        value_of(&values, "target_temperature"),
        Ok(Value::Number(65))
    );
    assert_eq!(value_of(&values, "fault_f1"), text("Ok"));
    assert_eq!(value_of(&values, "fault_f9"), text("Ok"));

    dev.interface().write_memory(0x005c, 0u8).unwrap();
    assert_eq!(dev.query_target_temperature(), Ok(90));
    dev.interface().write_memory(0x005c, 15u8).unwrap();
    assert_eq!(
        dev.query_target_temperature(),
        Err(Error::UnexpectedMemoryValue)
    );
    dev.interface().write_memory(0x0114, 24u8).unwrap();
    assert_eq!(
        dev.query_selected_program(),
        Err(Error::UnexpectedMemoryValue)
    );
}

#[test]
fn faults_of_id132() {
    let appliance = Appliance::id132()
        // The heater's active bit and the inlet's active bit.
        .with_memory(0x0004, &[0x22])
        // Stored: level switch, drainage, and the detergent overdose, which
        // has this bit for its active state.
        .with_memory(0x000e, &[0x51])
        .with_memory(0x000f, &[0x01])
        .with_memory(0x0131, &[0x04]);
    let mut dev = id132::WashingMachine::connect(appliance).unwrap();

    assert_eq!(dev.query_fault(id132::FaultCode::LevelSwitch), Ok(Fault::Stored));
    assert_eq!(dev.query_fault(id132::FaultCode::NtcThermistor), Ok(Fault::Clear));
    assert_eq!(dev.query_fault(id132::FaultCode::Heater), Ok(Fault::Active));
    assert_eq!(dev.query_fault(id132::FaultCode::Tachometer), Ok(Fault::Clear));
    assert_eq!(
        dev.query_fault(id132::FaultCode::DetergentOverdose),
        Ok(Fault::Active)
    );
    assert_eq!(dev.query_fault(id132::FaultCode::WaterInlet), Ok(Fault::Active));
    assert_eq!(dev.query_fault(id132::FaultCode::Drainage), Ok(Fault::Stored));
    assert_eq!(
        dev.query_fault(id132::FaultCode::FinalSpinSpeed),
        Ok(Fault::Clear)
    );
    // One of the two active bits of the EEPROM fault is enough.
    assert_eq!(dev.query_fault(id132::FaultCode::Eeprom), Ok(Fault::Active));
    dev.interface().write_memory(0x0131, 0x00u8).unwrap();
    assert_eq!(dev.query_fault(id132::FaultCode::Eeprom), Ok(Fault::Stored));

    // An active fault is decided by one read, the others by two.
    let before = dev.interface().as_port().requests.len();

    dev.query_fault(id132::FaultCode::Heater).unwrap();
    assert_eq!(dev.interface().as_port().requests.len(), before + 1);
    dev.query_fault(id132::FaultCode::Drainage).unwrap();
    assert_eq!(dev.interface().as_port().requests.len(), before + 3);
    dev.interface().write_memory(0x000e, 0x00u8).unwrap();

    let before = dev.interface().as_port().requests.len();

    // Without its one bit the overdose is decided by one read too.
    assert_eq!(
        dev.query_fault(id132::FaultCode::DetergentOverdose),
        Ok(Fault::Clear)
    );
    assert_eq!(dev.interface().as_port().requests.len(), before + 1);

    let values = query_all(&mut dev);

    assert_eq!(value_of(&values, "fault_f3"), text("Active"));
    assert_eq!(value_of(&values, "fault_f6"), text("Active"));
    assert_eq!(value_of(&values, "fault_f9"), text("Stored"));
    assert_eq!(value_of(&values, "fault_f5"), text("Ok"));
}

#[test]
fn properties_of_id1998() {
    let appliance = Appliance::id1998()
        .with_memory(0xffdf, &[0x09])
        .with_memory(0x0014, &[0x01, 0x02, 0x00, 0x00])
        .with_memory(0x000e, &[0x10])
        .with_memory(0x0089, &[0x03]);
    let mut dev = id1998::WashingMachine::connect(appliance).unwrap();

    assert_eq!(dev.software_id(), 1998);
    assert_eq!(dev.kind(), DeviceKind::WashingMachine);
    assert_eq!(dev.query_rom_code(), Ok(9));
    assert_eq!(
        dev.query_operating_time(),
        Ok(Duration::from_secs((2 * 60 + 1) * 60))
    );
    assert_eq!(dev.query_faults().unwrap().to_string(), "DetergentOverdose");
    assert_eq!(
        dev.query_operating_mode(),
        Ok(id1998::OperatingMode::ProgramFinished)
    );

    let values = query_all(&mut dev);

    assert_eq!(value_of(&values, "rom_code"), Ok(Value::Number(9)));
    assert_eq!(value_of(&values, "faults"), text("DetergentOverdose"));
    assert_eq!(value_of(&values, "operating_mode"), text("ProgramFinished"));
}

#[test]
fn property_tables() {
    let dev = id629::WashingMachine::connect(Appliance::id629()).unwrap();
    let props = dev.properties();

    assert_eq!(
        props[0],
        Property {
            kind: PropertyKind::General,
            id: "serial_number",
            name: "Serial Number",
            unit: None
        }
    );
    assert_eq!(
        props[10],
        Property {
            kind: PropertyKind::Operation,
            id: "program_temperature",
            name: "Program Temperature",
            unit: Some("°C")
        }
    );
    assert_eq!(props[18].unit, Some("Ω"));
    assert_eq!(props[21].unit, Some("mmH₂O"));
    assert_eq!(props[22].unit, Some("%"));
    assert_eq!(props[23].unit, Some("rpm"));
    assert!(props[0].matches(&props[0]));
    assert!(!props[0].matches(&props[1]));

    let dev = id132::WashingMachine::connect(Appliance::id132()).unwrap();
    let props = dev.properties();

    assert_eq!(props[1].id, "fault_f1");
    assert_eq!(props[1].name, "F1: Water Level Switch");
    assert_eq!(props[1].kind, PropertyKind::Failure);
    assert_eq!(props[9].name, "F9: EEPROM");
}

#[test]
fn interface_of_a_simulated_appliance() {
    let mut intf = Interface::new(Appliance::id629());

    // Locked: reads are refused.
    assert_eq!(
        intf.read_memory::<u8, 1>(0x0000),
        Err(ProtocolError::InvalidCommand)
    );
    assert_eq!(intf.query_software_id(), Ok(629));
    intf.unlock_read_access(0x43ea).unwrap();
    assert_eq!(intf.read_memory::<u8, 1>(0x0000), Ok(0));
    // Read access: writes are refused.
    assert_eq!(
        intf.write_memory(0x0000, 1u8),
        Err(ProtocolError::InvalidCommand)
    );
    intf.unlock_full_access(0x1f02).unwrap();
    intf.write_memory(0x0100, [1u8, 2, 3, 4, 5, 6, 7, 8, 9]).unwrap();
    assert_eq!(intf.read_memory::<[u8; 9], 9>(0x0100), Ok([1, 2, 3, 4, 5, 6, 7, 8, 9]));
    assert_eq!(intf.read_memory::<u32, 4>(0x0101), Ok(0x0504_0302));
    assert_eq!(intf.read_memory::<i8, 1>(0x0100), Ok(1));
    intf.write_memory(0x0200, -2i16).unwrap();
    assert_eq!(intf.read_memory::<[u8; 2], 2>(0x0200), Ok([0xfe, 0xff]));
    assert_eq!(intf.read_memory::<i16, 2>(0x0200), Ok(-2));
    intf.write_memory(0x0200, -3i32).unwrap();
    assert_eq!(intf.read_memory::<i32, 4>(0x0200), Ok(-3));
    intf.write_eeprom(0x0010, 0xabcdu16).unwrap();
    assert_eq!(intf.read_eeprom::<u16, 2>(0x0010), Ok(0xabcd));
    assert_eq!(intf.as_port().eeprom[0x0010..0x0012], [0xcd, 0xab]);
    // A larger chunk size changes the framing of both directions.
    intf.set_chunk_size(200).unwrap();
    assert_eq!(intf.as_port().chunk_size, 128);

    let before = intf.as_port().heard.len();

    assert_eq!(intf.read_memory::<[u8; 9], 9>(0x0100), Ok([1, 2, 3, 4, 5, 6, 7, 8, 9]));
    // One header with its checksum and one acknowledgement.
    assert_eq!(intf.as_port().heard.len(), before + 6);
    intf.set_chunk_size(1).unwrap();
    assert_eq!(intf.as_port().chunk_size, 4);
    // 300 bytes need the address extension for their length.
    assert!(intf.read_memory::<[u8; 300], 300>(0x0100).is_ok());
    assert_eq!(intf.as_port().requests[intf.as_port().requests.len() - 2], [0x37, 0x00, 0x00, 0x01]);
    assert_eq!(intf.as_port().requests[intf.as_port().requests.len() - 1], [0x30, 0x00, 0x01, 0x2c]);
    intf.lock().unwrap();
    assert_eq!(
        intf.read_memory::<u8, 1>(0x0000),
        Err(ProtocolError::InvalidCommand)
    );
}
