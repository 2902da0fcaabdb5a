use freemdu::device::id629;
use freemdu::device::{
    connect, Action, ActionKind, ActionParameters, Device, DeviceKind, Error, Property,
    PropertyKind, Value,
};
use freemdu::{Error as ProtocolError, Loopback, NoError};

/// What an appliance with software ID 629 answers during the connection:
/// the acknowledgement and the two bytes of the ID with their checksum, then
/// the acknowledgements of the two unlock commands and of the write that
/// switches the read-out protection off.
const HANDSHAKE_629: [u8; 8] = [0x00, 0x75, 0x02, 0x77, 0x00, 0x00, 0x00, 0x00];

/// What the host has put into the queue by the end of that connection.
const CONNECTED_629: [u8; 23] = [
    0x11, 0x00, 0x00, 0x02, 0x13, 0x00, 0x20, 0xea, 0x43, 0x00, 0x4d, 0x32, 0x02, 0x1f, 0x00, 0x53,
    0x40, 0xc2, 0x02, 0x01, 0x05, 0x01, 0x01,
];

fn machine_629(replies: &[u8]) -> id629::WashingMachine<Loopback> {
    let mut incoming = HANDSHAKE_629.to_vec();

    incoming.extend(replies);

    let mut dev = id629::WashingMachine::connect(Loopback::new(&incoming)).unwrap();

    // Only the replies are left in front of what the host has written.
    assert_eq!(written(&mut dev, replies.len()), CONNECTED_629);

    dev
}

/// What the queue holds behind its first `skip` bytes.
fn written<D: Device<Loopback>>(dev: &mut D, skip: usize) -> Vec<u8> {
    dev.interface().as_port().contents()[skip..].to_vec()
}

#[test]
fn connect_to_device() {
    let mut dev = connect(Loopback::new(&HANDSHAKE_629)).unwrap();

    assert_eq!(dev.software_id(), 629, "software ID should be correct");
    assert_eq!(
        dev.kind(),
        DeviceKind::WashingMachine,
        "device kind should be correct"
    );

    assert_eq!(
        dev.interface().as_port().contents(),
        [
            0x11, 0x00, 0x00, 0x02, 0x13, 0x00, 0x20, 0xea, 0x43, 0x00, 0x4d, 0x32, 0x02, 0x1f,
            0x00, 0x53, 0x40, 0xc2, 0x02, 0x01, 0x05, 0x01, 0x01,
        ],
        "deque contents should be correct"
    );
}

#[test]
fn error_unknown_software_id() {
    let res = connect(Loopback::new(&[0x00, 0xff, 0xff, 0xfe, 0x00, 0x00]));

    assert!(
        matches!(res, Err(Error::UnknownSoftwareId(0xffff))),
        "result should be unknown software ID error"
    );
}

#[test]
fn driver_refuses_another_software_id() {
    // The appliance reports 605, which the driver for 629 does not know.
    let res = id629::WashingMachine::connect(Loopback::new(&[0x00, 0x5d, 0x02, 0x5f]));

    assert!(matches!(res, Err(Error::UnknownSoftwareId(605))));
}

#[test]
fn connection_fails_with_the_protocol() {
    // The appliance refuses the second unlock command.
    let res = connect(Loopback::new(&[0x00, 0x75, 0x02, 0x77, 0x00, 0x02]));

    assert!(matches!(
        res,
        Err(Error::Protocol(ProtocolError::InvalidCommand))
    ));

    // The appliance does not answer at all.
    let res = connect(Loopback::new(&[]));

    assert!(matches!(res, Err(Error::Protocol(_))));
}

#[test]
fn start_program_when_ready() {
    // State 0x01 at 0x00e7: a program is chosen and ready.
    let mut dev = machine_629(&[0x00, 0x01, 0x01, 0x00, 0x00]);

    assert_eq!(dev.start_program(), Ok(()));
    assert_eq!(
        written(&mut dev, 0)[CONNECTED_629.len()..],
        [
            // The state is read ...
            0x30, 0xe7, 0x00, 0x01, 0x18, 0x00,
            // ... and 0x02 is written in its place.
            0x40, 0xe7, 0x00, 0x01, 0x28, 0x02, 0x02,
        ]
    );
}

#[test]
fn start_program_when_not_ready() {
    // State 0x00 at 0x00e7: no program is chosen.
    let mut dev = machine_629(&[0x00, 0x00, 0x00]);

    assert_eq!(dev.start_program(), Err(Error::InvalidState));
    // The state has been read, and nothing has been written.
    assert_eq!(
        written(&mut dev, 0)[CONNECTED_629.len()..],
        [0x30, 0xe7, 0x00, 0x01, 0x18, 0x00]
    );

    // State 0x05: a program is running.
    let mut dev = machine_629(&[0x00, 0x05, 0x05]);

    assert_eq!(dev.start_program(), Err(Error::InvalidState));
}

#[test]
fn set_program_options_by_action() {
    let mut dev = machine_629(&[0x00, 0x00]);
    let actions = dev.actions();

    assert_eq!(actions[0].id, "set_program_options");
    assert_eq!(
        dev.trigger_action(&actions[0], Some(Value::String("Soak | PreWash".to_string()))),
        Ok(())
    );
    // 0x10 | 0x20 = 0x30 is written to the options byte at 0x0058.
    assert_eq!(
        written(&mut dev, 0)[CONNECTED_629.len()..],
        [0x40, 0x58, 0x00, 0x01, 0x99, 0x30, 0x30]
    );
}

#[test]
fn action_arguments_are_checked_before_anything_is_sent() {
    let mut dev = machine_629(&[]);
    let actions = dev.actions();
    let refused = |dev: &mut id629::WashingMachine<Loopback>,
                   action: &Action,
                   param: Option<Value>| {
        assert_eq!(dev.trigger_action(action, param), Err(Error::InvalidArgument));
        assert_eq!(written(dev, 0), CONNECTED_629, "nothing should be sent");
    };

    // An action with parameters needs an argument, and it has to be a string
    // that names them.
    refused(&mut dev, &actions[0], None);
    refused(&mut dev, &actions[0], Some(Value::Number(0x30)));
    refused(&mut dev, &actions[0], Some(Value::Bool(true)));
    refused(&mut dev, &actions[0], Some(Value::String("Soak | Bleach".to_string())));
    refused(&mut dev, &actions[0], Some(Value::String("Soak |".to_string())));
    refused(&mut dev, &actions[0], Some(Value::String("soak".to_string())));
    refused(&mut dev, &actions[1], None);
    refused(&mut dev, &actions[1], Some(Value::String("SpinFast".to_string())));
    refused(&mut dev, &actions[1], Some(Value::String(" SpinMax".to_string())));
    refused(&mut dev, &actions[1], Some(Value::String("spinmax".to_string())));
    refused(&mut dev, &actions[1], Some(Value::String(String::new())));
    // An action without parameters takes no argument.
    refused(&mut dev, &actions[2], Some(Value::String(String::new())));
    refused(&mut dev, &actions[2], Some(Value::Bool(true)));
}

#[test]
fn set_program_spin_setting_by_action() {
    let mut dev = machine_629(&[0x00, 0x00]);
    let actions = dev.actions();

    assert_eq!(actions[1].id, "set_program_spin_setting");
    assert_eq!(
        dev.trigger_action(&actions[1], Some(Value::String("SpinMax".to_string()))),
        Ok(())
    );
    // SpinMax is 6, and it goes to 0x0057.
    assert_eq!(
        written(&mut dev, 0)[CONNECTED_629.len()..],
        [0x40, 0x57, 0x00, 0x01, 0x98, 0x06, 0x06]
    );
}

#[test]
fn empty_options_clear_every_option() {
    let mut dev = machine_629(&[0x00, 0x00]);
    let actions = dev.actions();

    assert_eq!(
        dev.trigger_action(&actions[0], Some(Value::String("  ".to_string()))),
        Ok(())
    );
    assert_eq!(
        written(&mut dev, 0)[CONNECTED_629.len()..],
        [0x40, 0x58, 0x00, 0x01, 0x99, 0x00, 0x00]
    );
}

#[test]
fn unknown_property_and_action() {
    let mut dev = machine_629(&[]);
    let prop = Property {
        kind: PropertyKind::General,
        id: "rom_code",
        name: "Rom Code",
        unit: None,
    };
    let action = Action {
        kind: ActionKind::Calibration,
        id: "start_program",
        name: "Start Program",
        params: None,
    };
    let other = Action {
        kind: ActionKind::Operation,
        id: "set_program_options",
        name: "Set Program Options",
        params: Some(ActionParameters::Flags(&["Soak", "PreWash", "WaterPlus"])),
    };

    // The name differs in one letter from the one in the table.
    assert_eq!(dev.query_property(&prop), Err(Error::UnknownProperty));
    // The kind differs.
    assert_eq!(dev.trigger_action(&action, None), Err(Error::UnknownAction));
    // One flag is missing.
    assert_eq!(
        dev.trigger_action(&other, Some(Value::String("Soak".to_string()))),
        Err(Error::UnknownAction)
    );
    assert_eq!(written(&mut dev, 0), CONNECTED_629, "nothing should be sent");
}

#[test]
fn an_equal_property_is_the_property() {
    // The ROM code 4 at 0xffdb.
    let mut dev = machine_629(&[0x00, 0x04, 0x04]);
    let prop = Property {
        kind: PropertyKind::General,
        id: "rom_code",
        name: "ROM Code",
        unit: None,
    };

    assert_eq!(dev.query_property(&prop), Ok(Value::Number(4)));
    assert_eq!(
        written(&mut dev, 0)[CONNECTED_629.len()..],
        [0x30, 0xdb, 0xff, 0x01, 0x0b, 0x00]
    );
}

#[test]
fn invalid_command_ack_drains_one_byte() {
    // After the connection the appliance answers a request with 0x02. One
    // more byte waits behind it.
    let mut dev = machine_629(&[0x02, 0xaa]);

    assert_eq!(
        dev.query_rom_code(),
        Err(Error::Protocol(ProtocolError::InvalidCommand))
    );

    // The 0x02 has been taken and the byte behind it has not.
    let left = dev.interface().as_port().contents();

    assert_eq!(left[0], 0xaa);
    assert_eq!(left[1..][CONNECTED_629.len()..], [0x30, 0xdb, 0xff, 0x01, 0x0b]);
}

#[test]
fn no_device_error_is_a_protocol_error_by_accident() {
    let wire: Error<NoError> = Error::from_protocol(ProtocolError::InvalidArgument);

    assert_eq!(wire, Error::Protocol(ProtocolError::InvalidArgument));
    assert_ne!(wire, Error::InvalidArgument);
}
