use freemdu::{BaudRate, Error, Interface, Loopback, NoError, Payload, Port, ReadExactError};

type Outcome<T> = Result<T, Error<NoError>>;

#[test]
fn lock() {
    let mut intf = Interface::new(Loopback::new(&[0x00]));

    intf.lock().unwrap();

    assert_eq!(
        intf.into_port().contents(),
        [0x10, 0x00, 0x00, 0x00, 0x10],
        "deque contents should be correct"
    );
}

#[test]
fn query_software_id() {
    let mut intf = Interface::new(Loopback::new(&[0x00, 0x75, 0x02, 0x77]));
    let id = intf.query_software_id().unwrap();

    assert_eq!(id, 629, "software ID should be correct");
    assert_eq!(
        intf.into_port().contents(),
        [0x11, 0x00, 0x00, 0x02, 0x13, 0x00],
        "deque contents should be correct"
    );
}

#[test]
fn unlock_read_access() {
    let mut intf = Interface::new(Loopback::new(&[0x00]));

    intf.unlock_read_access(0xabcd).unwrap();

    assert_eq!(
        intf.into_port().contents(),
        [0x20, 0xcd, 0xab, 0x00, 0x98],
        "deque contents should be correct"
    );
}

#[test]
fn unlock_smart_home_access() {
    let mut intf = Interface::new(Loopback::new(&[0x00]));

    intf.unlock_smart_home_access().unwrap();

    assert_eq!(
        intf.into_port().contents(),
        [0x21, 0x00, 0x00, 0x00, 0x21],
        "deque contents should be correct"
    );
}

#[test]
fn read_memory() {
    let mut intf = Interface::new(Loopback::new(&[
        0x00, 0x11, 0x22, 0x33, 0x44, 0xaa, 0xab, 0xcd, 0xef, 0x99, 0x00, 0xde, 0xad, 0x8b,
    ]));
    let data: [u8; 10] = intf.read_memory(0xabcd).unwrap();

    assert_eq!(
        intf.into_port().contents(),
        [0x30, 0xcd, 0xab, 0x0a, 0xb2, 0x00, 0x00, 0x00],
        "deque contents should be correct"
    );

    assert_eq!(
        data,
        [0x11, 0x22, 0x33, 0x44, 0xab, 0xcd, 0xef, 0x99, 0xde, 0xad],
        "memory contents should be correct"
    );
}

#[test]
fn read_memory_extended() {
    let mut intf = Interface::new(Loopback::new(&[
        0x00, 0x00, 0x11, 0x22, 0x33, 0x44, 0xaa, 0xab, 0xcd, 0xef, 0x99, 0x00, 0xde, 0xad, 0x8b,
    ]));
    let data: [u8; 10] = intf.read_memory(0x1234_abcd).unwrap();

    assert_eq!(
        intf.into_port().contents(),
        [0x37, 0x34, 0x12, 0x00, 0x7d, 0x30, 0xcd, 0xab, 0x0a, 0xb2, 0x00, 0x00, 0x00],
        "deque contents should be correct"
    );

    assert_eq!(
        data,
        [0x11, 0x22, 0x33, 0x44, 0xab, 0xcd, 0xef, 0x99, 0xde, 0xad],
        "memory contents should be correct"
    );
}

#[test]
fn read_eeprom() {
    let mut intf = Interface::new(Loopback::new(&[
        0x00, 0x11, 0x22, 0x33, 0x44, 0xaa, 0xab, 0xcd, 0xef, 0x99, 0x00, 0xde, 0xad, 0x8b,
    ]));
    let data: [u8; 10] = intf.read_eeprom(0xabcd).unwrap();

    assert_eq!(
        intf.into_port().contents(),
        [0x31, 0xcd, 0xab, 0x0a, 0xb3, 0x00, 0x00, 0x00],
        "deque contents should be correct"
    );

    assert_eq!(
        data,
        [0x11, 0x22, 0x33, 0x44, 0xab, 0xcd, 0xef, 0x99, 0xde, 0xad],
        "EEPROM contents should be correct"
    );
}

#[test]
fn query_max_baud_rate() {
    let mut intf = Interface::new(Loopback::new(&[0x00, 0x80, 0x03, 0x83]));
    let rate = intf.query_max_baud_rate().unwrap();

    assert_eq!(
        intf.into_port().contents(),
        [0x38, 0x00, 0x00, 0x02, 0x3a, 0x00],
        "deque contents should be correct"
    );

    assert_eq!(rate, BaudRate::Baud38400, "baud rate should be correct");
}

#[test]
fn unlock_full_access() {
    let mut intf = Interface::new(Loopback::new(&[0x00]));

    intf.unlock_full_access(0xabcd).unwrap();

    assert_eq!(
        intf.into_port().contents(),
        [0x32, 0xcd, 0xab, 0x00, 0xaa],
        "deque contents should be correct"
    );
}

#[test]
fn write_memory() {
    let mut intf = Interface::new(Loopback::new(&[0x00, 0x00, 0x00, 0x00]));

    intf.write_memory(
        0xabcd,
        [0x11, 0x22, 0x33, 0x44, 0xab, 0xcd, 0xef, 0x99, 0xde, 0xad],
    )
    .unwrap();

    assert_eq!(
        intf.into_port().contents(),
        [
            0x40, 0xcd, 0xab, 0x0a, 0xc2, 0x11, 0x22, 0x33, 0x44, 0xaa, 0xab, 0xcd, 0xef, 0x99,
            0x00, 0xde, 0xad, 0x8b
        ],
        "deque contents should be correct"
    );
}

#[test]
fn write_memory_extended() {
    let mut intf = Interface::new(Loopback::new(&[0x00, 0x00, 0x00, 0x00, 0x00]));

    intf.write_memory(
        0x1234_abcd,
        [0x11, 0x22, 0x33, 0x44, 0xab, 0xcd, 0xef, 0x99, 0xde, 0xad],
    )
    .unwrap();

    assert_eq!(
        intf.into_port().contents(),
        [
            0x37, 0x34, 0x12, 0x00, 0x7d, 0x40, 0xcd, 0xab, 0x0a, 0xc2, 0x11, 0x22, 0x33, 0x44,
            0xaa, 0xab, 0xcd, 0xef, 0x99, 0x00, 0xde, 0xad, 0x8b
        ],
        "deque contents should be correct"
    );
}

#[test]
fn write_eeprom() {
    let mut intf = Interface::new(Loopback::new(&[0x00, 0x00, 0x00, 0x00]));

    intf.write_eeprom(
        0xabcd,
        [0x11, 0x22, 0x33, 0x44, 0xab, 0xcd, 0xef, 0x99, 0xde, 0xad],
    )
    .unwrap();

    assert_eq!(
        intf.into_port().contents(),
        [
            0x41, 0xcd, 0xab, 0x0a, 0xc3, 0x11, 0x22, 0x33, 0x44, 0xaa, 0xab, 0xcd, 0xef, 0x99,
            0x00, 0xde, 0xad, 0x8b
        ],
        "deque contents should be correct"
    );
}

#[test]
fn jump_to_subroutine() {
    let mut intf = Interface::new(Loopback::new(&[0x00, 0x00]));

    intf.jump_to_subroutine(0xabcd).unwrap();

    assert_eq!(
        intf.into_port().contents(),
        [0x42, 0xcd, 0xab, 0x00, 0xba],
        "deque contents should be correct"
    );
}

#[test]
fn jump_to_subroutine_extended() {
    let mut intf = Interface::new(Loopback::new(&[0x00, 0x00, 0x00]));

    intf.jump_to_subroutine(0x1234_abcd).unwrap();

    assert_eq!(
        intf.into_port().contents(),
        [0x37, 0x34, 0x12, 0x00, 0x7d, 0x42, 0xcd, 0xab, 0x00, 0xba],
        "deque contents should be correct"
    );
}

#[test]
fn halt() {
    let mut intf = Interface::new(Loopback::new(&[0x00]));

    intf.halt().unwrap();

    assert_eq!(
        intf.into_port().contents(),
        [0x45, 0x00, 0x00, 0x00, 0x45],
        "deque contents should be correct"
    );
}

#[test]
fn set_baud_rate_2400() {
    let mut intf = Interface::new(Loopback::new(&[0x00]));

    intf.set_baud_rate(BaudRate::Baud2400).unwrap();

    assert_eq!(
        intf.into_port().contents(),
        [0x46, 0x00, 0x00, 0x00, 0x46],
        "deque contents should be correct"
    );
}

#[test]
fn set_baud_rate_9600() {
    let mut intf = Interface::new(Loopback::new(&[0x00]));

    intf.set_baud_rate(BaudRate::Baud9600).unwrap();

    assert_eq!(
        intf.into_port().contents(),
        [0x47, 0x00, 0x00, 0x00, 0x47],
        "deque contents should be correct"
    );
}

#[test]
fn set_chunk_size() {
    let mut intf = Interface::new(Loopback::new(&[
        0x00, 0x80, 0x80, 0x00, 0x11, 0x22, 0x33, 0x44, 0xab, 0xcd, 0xef, 0x99, 0xde, 0xad, 0x35,
    ]));

    intf.set_chunk_size(128).unwrap();

    let data: [u8; 10] = intf.read_memory(0xabcd).unwrap();

    assert_eq!(
        intf.into_port().contents(),
        [0x4a, 0x80, 0x0, 0x1, 0xcb, 0x00, 0x30, 0xcd, 0xab, 0x0a, 0xb2, 0x00],
        "deque contents should be correct"
    );

    assert_eq!(
        data,
        [0x11, 0x22, 0x33, 0x44, 0xab, 0xcd, 0xef, 0x99, 0xde, 0xad],
        "memory contents should be correct"
    );
}

#[test]
fn set_baud_rate() {
    let mut intf = Interface::new(Loopback::new(&[0x00, 0x02, 0x02]));

    intf.set_baud_rate(BaudRate::Baud19200).unwrap();

    assert_eq!(
        intf.into_port().contents(),
        [0x4b, 0x02, 0x00, 0x01, 0x4e, 0x00],
        "deque contents should be correct"
    );
}

#[test]
fn reset() {
    let mut intf = Interface::new(Loopback::new(&[0x00]));

    intf.reset().unwrap();

    assert_eq!(
        intf.into_port().contents(),
        [0x4e, 0x00, 0x00, 0x00, 0x4e],
        "deque contents should be correct"
    );
}

#[test]
fn send_smart_home_request() {
    let mut intf = Interface::new(Loopback::new(&[0x00, 0x00, 0x00, 0x00, 0x00]));
    let payload: Payload<2> = intf
        .send_smart_home_request(0x0001, [0x00, 0x03].into())
        .unwrap();

    assert_eq!(
        intf.into_port().contents(),
        [0x85, 0x01, 0x00, 0x02, 0x88, 0x00, 0x03, 0x03, 0x00],
        "deque contents should be correct"
    );

    assert_eq!(payload.0, [0x00, 0x00], "response should be correct");
}

#[test]
fn error_invalid_argument() {
    static DATA: [u8; 65536] = [0x00; 65536];

    let mut intf = Interface::new(Loopback::new(&[]));
    let res: Outcome<[u8; 65536]> = intf.read_memory(0xabcd);

    assert_eq!(
        res.unwrap_err(),
        Error::InvalidArgument,
        "result should be invalid argument error"
    );

    let res = intf.write_memory(0xabcd, DATA);

    assert_eq!(
        res.unwrap_err(),
        Error::InvalidArgument,
        "result should be invalid argument error"
    );

    assert_eq!(
        intf.into_port().contents(),
        [0u8; 0],
        "nothing should have been transmitted"
    );
}

#[test]
fn error_incorrect_checksum() {
    let mut intf = Interface::new(Loopback::new(&[0x01, 0x00, 0x11, 0xff]));
    let res = intf.lock();

    assert_eq!(
        res.unwrap_err(),
        Error::IncorrectChecksum,
        "result should be incorrect checksum error"
    );

    let res: Outcome<u8> = intf.read_memory(0xabcd);

    assert_eq!(
        res.unwrap_err(),
        Error::IncorrectChecksum,
        "result should be incorrect checksum error"
    );
}

#[test]
fn error_invalid_command() {
    let mut intf = Interface::new(Loopback::new(&[0x02]));
    let res = intf.lock();

    assert_eq!(
        res.unwrap_err(),
        Error::InvalidCommand,
        "result should be invalid command error"
    );
}

#[test]
fn error_unknown_response_code() {
    let mut intf = Interface::new(Loopback::new(&[0xff]));
    let res = intf.halt();

    assert_eq!(
        res.unwrap_err(),
        Error::InvalidResponse,
        "result should be invalid response error"
    );
}

#[test]
fn error_unexpected_eof() {
    let mut intf = Interface::new(Loopback::new(&[0x00]));
    let res: Outcome<[u8; 5]> = intf.read_memory(0xabcd);

    assert_eq!(
        res.unwrap_err(),
        Error::UnexpectedEof,
        "result should be unexpected end-of-file error"
    );
}

/// A port that takes a given number of writes and reads and fails from
/// then on.
struct Failing {
    inner: Loopback,
    left: usize,
}

#[derive(Debug, PartialEq, Eq)]
struct Unplugged;

impl Failing {
    fn after(left: usize, incoming: &[u8]) -> Self {
        Self {
            inner: Loopback::new(incoming),
            left,
        }
    }

    fn step(&mut self) -> Result<(), Unplugged> {
        self.left = self.left.checked_sub(1).ok_or(Unplugged)?;
        Ok(())
    }
}

impl Port for Failing {
    type Error = Unplugged;

    fn read_exact(&mut self, len: usize) -> Result<Vec<u8>, ReadExactError<Unplugged>> {
        self.step().map_err(ReadExactError::Other)?;
        self.inner.read_exact(len).map_err(|err| match err {
            ReadExactError::UnexpectedEof => ReadExactError::UnexpectedEof,
            ReadExactError::Other(NoError) => ReadExactError::Other(Unplugged),
        })
    }

    fn write_all(&mut self, buf: &[u8]) -> Result<(), Unplugged> {
        self.step()?;
        self.inner.write_all(buf).map_err(|NoError| Unplugged)
    }
}

#[test]
fn error_io() {
    // The port fails at the first write, at the second, and at the read of
    // the acknowledgement.
    for (left, written) in [(0usize, 0usize), (1, 4), (2, 5)] {
        let mut intf = Interface::new(Failing::after(left, &[0x00]));

        assert_eq!(intf.lock().unwrap_err(), Error::Io(Unplugged));
        assert_eq!(intf.into_port().inner.contents().len(), 1 + written);
    }

    // The port fails when the reply is to be acknowledged.
    let mut intf = Interface::new(Failing::after(5, &[0x00, 0x75, 0x02, 0x77]));

    assert_eq!(intf.query_software_id(), Err(Error::Io(Unplugged)));

    // It holds for exactly as long as one query takes.
    let mut intf = Interface::new(Failing::after(6, &[0x00, 0x75, 0x02, 0x77]));

    assert_eq!(intf.query_software_id(), Ok(629));
    assert_eq!(intf.lock(), Err(Error::Io(Unplugged)));
}

#[test]
fn error_invalid_baud_rate_index() {
    let mut intf = Interface::new(Loopback::new(&[0x00, 0x03, 0x07, 0x0a]));

    assert_eq!(intf.query_max_baud_rate(), Err(Error::InvalidResponse));

    // Only the second byte of the reply counts.
    let mut intf = Interface::new(Loopback::new(&[0x00, 0xff, 0x06, 0x05]));

    assert_eq!(intf.query_max_baud_rate(), Ok(BaudRate::Baud115200));
}

#[test]
fn chunk_size_of_zero_is_refused() {
    let mut intf = Interface::new(Loopback::new(&[
        0x00, 0x00, 0x00, 0x00, 0x11, 0x22, 0x33, 0x44, 0xaa, 0x55, 0x55,
    ]));

    assert_eq!(intf.set_chunk_size(0), Err(Error::InvalidResponse));

    // The chunk size is what it was: the next reply comes in chunks of 4.
    let data: [u8; 5] = intf.read_memory(0x0000).unwrap();

    assert_eq!(data, [0x11, 0x22, 0x33, 0x44, 0x55]);
}

#[test]
fn chunk_size_applies_to_what_is_sent() {
    let mut intf = Interface::new(Loopback::new(&[0x00, 0x02, 0x02, 0x00, 0x00]));

    intf.set_chunk_size(2).unwrap();
    intf.lock().unwrap();

    assert_eq!(
        intf.into_port().contents(),
        [
            // The request, still in one chunk of 4, and the acknowledgement
            // of the reply.
            0x4a, 0x02, 0x00, 0x01, 0x4d, 0x00,
            // The next header in chunks of 2.
            0x10, 0x00, 0x10, 0x00, 0x00, 0x00,
        ]
    );
}

#[test]
fn dummy_bytes_precede_headers_only() {
    let mut intf = Interface::new(Loopback::new(&[0x00, 0x00, 0x00, 0x00]));

    intf.lock().unwrap();
    intf.enable_dummy_bytes();
    intf.write_memory(0x0010, [0xaa, 0xbb]).unwrap();
    intf.enable_dummy_bytes();
    intf.lock().unwrap();

    assert_eq!(
        intf.into_port().contents(),
        [
            0x10, 0x00, 0x00, 0x00, 0x10,
            // A dummy run, the header of the write, and its data without one.
            0x00, 0x00, 0x00, 0x00, 0x40, 0x10, 0x00, 0x02, 0x52, 0xaa, 0xbb, 0x65,
            0x00, 0x00, 0x00, 0x00, 0x10, 0x00, 0x00, 0x00, 0x10,
        ]
    );
}

#[test]
fn dummy_bytes_precede_the_address_extension() {
    let mut intf = Interface::new(Loopback::new(&[0x00, 0x00, 0x00]));

    intf.enable_dummy_bytes();
    intf.jump_to_subroutine(0x0001_0000).unwrap();

    assert_eq!(
        intf.into_port().contents(),
        [
            0x00, 0x00, 0x00, 0x00, 0x37, 0x01, 0x00, 0x00, 0x38,
            0x00, 0x00, 0x00, 0x00, 0x42, 0x00, 0x00, 0x00, 0x42,
        ]
    );
}

#[test]
fn empty_payloads() {
    let mut intf = Interface::new(Loopback::new(&[0x00, 0x00]));
    let data: [u8; 0] = intf.read_memory(0x0010).unwrap();

    assert_eq!(data, [0u8; 0]);
    intf.write_memory(0x0010, [0u8; 0]).unwrap();

    // Headers only: an empty payload has no chunk.
    assert_eq!(
        intf.into_port().contents(),
        [0x30, 0x10, 0x00, 0x00, 0x40, 0x40, 0x10, 0x00, 0x00, 0x50]
    );
}

#[test]
fn address_extension_for_the_length_alone() {
    let mut incoming = vec![0x00, 0x00];

    // 300 bytes in 75 chunks of 4, each with its checksum.
    for i in 0..75u8 {
        incoming.extend([i, i, i, i, i.wrapping_mul(4)]);
    }

    let mut intf = Interface::new(Loopback::new(&incoming));
    let data: [u8; 300] = intf.read_memory(0xabcd).unwrap();

    for (i, byte) in data.iter().enumerate() {
        assert_eq!(usize::from(*byte), i / 4);
    }

    let mut expected = vec![
        // 300 = 0x012c: the extension holds 0x01, the command 0x2c.
        0x37, 0x00, 0x00, 0x01, 0x38, 0x30, 0xcd, 0xab, 0x2c, 0xd4,
    ];

    expected.extend([0x00; 75]);
    assert_eq!(intf.into_port().contents(), expected);
}

#[test]
fn no_address_extension_at_the_limits() {
    let mut incoming = vec![0x00];

    // 255 bytes: 63 chunks of 4 and one of 3.
    for _ in 0..63 {
        incoming.extend([0x01, 0x02, 0x03, 0x04, 0x0a]);
    }
    incoming.extend([0x01, 0x02, 0x03, 0x06]);

    let mut intf = Interface::new(Loopback::new(&incoming));
    let data: [u8; 255] = intf.read_memory(0xffff).unwrap();

    assert_eq!(data[252..], [0x01, 0x02, 0x03]);

    let written = intf.into_port().contents();

    assert_eq!(written[..5], [0x30, 0xff, 0xff, 0xff, 0x2d]);
    assert_eq!(written.len(), 5 + 64);

    // One more in the address needs the extension.
    let mut intf = Interface::new(Loopback::new(&[0x00, 0x00, 0x07, 0x07]));
    let data: u8 = intf.read_memory(0x0001_0000).unwrap();

    assert_eq!(data, 0x07);
    assert_eq!(
        intf.into_port().contents(),
        [0x37, 0x01, 0x00, 0x00, 0x38, 0x30, 0x00, 0x00, 0x01, 0x31, 0x00]
    );
}

#[test]
fn lengths_that_do_not_fit_are_refused_before_anything_is_sent() {
    let mut intf = Interface::new(Loopback::new(&[]));
    let res: Outcome<[u8; 256]> = intf.read_eeprom(0x0000);

    assert_eq!(res, Err(Error::InvalidArgument));
    assert_eq!(
        intf.write_eeprom(0x0000, [0x00; 256]),
        Err(Error::InvalidArgument)
    );

    let res: Outcome<Payload<1>> = intf.send_smart_home_request(0x0001, Payload([0x00; 256]));

    assert!(matches!(res, Err(Error::InvalidArgument)));
    assert_eq!(intf.into_port().contents(), [0u8; 0]);

    // 255 bytes are the most that an EEPROM command takes.
    let mut incoming = vec![0x00];

    incoming.extend([0x00; 64]);

    let mut intf = Interface::new(Loopback::new(&incoming));

    assert_eq!(intf.write_eeprom(0x0000, [0x00; 255]), Ok(()));
    assert_eq!(intf.into_port().contents()[..5], [0x41, 0x00, 0x00, 0xff, 0x40]);
}

#[test]
fn a_bad_checksum_is_not_acknowledged() {
    // The second chunk of the reply has a wrong checksum.
    let mut intf = Interface::new(Loopback::new(&[
        0x00, 0x11, 0x22, 0x33, 0x44, 0xaa, 0x55, 0x56, 0xee,
    ]));
    let res: Outcome<[u8; 5]> = intf.read_memory(0x0000);

    assert_eq!(res, Err(Error::IncorrectChecksum));
    // The first chunk has been acknowledged, the second has not, and the
    // byte behind it has not been taken.
    assert_eq!(
        intf.into_port().contents(),
        [0xee, 0x30, 0x00, 0x00, 0x05, 0x35, 0x00]
    );
}

#[test]
fn an_ack_of_two_aborts_and_takes_that_byte_only() {
    let mut intf = Interface::new(Loopback::new(&[0x02, 0x00]));

    assert_eq!(
        intf.write_memory(0x0000, 0x01u8),
        Err(Error::InvalidCommand)
    );
    // The data has not been sent after the header was refused.
    assert_eq!(
        intf.into_port().contents(),
        [0x00, 0x40, 0x00, 0x00, 0x01, 0x41]
    );
}

#[test]
fn jump_waits_for_the_subroutine() {
    // The command is acknowledged and the subroutine never returns.
    let mut intf = Interface::new(Failing::after(3, &[0x00]));

    assert_eq!(intf.jump_to_subroutine(0x1000), Err(Error::Io(Unplugged)));

    // The byte that it returns is taken whatever it is.
    let mut intf = Interface::new(Loopback::new(&[0x00, 0xff, 0x77]));

    assert_eq!(intf.jump_to_subroutine(0x1000), Ok(()));
    assert_eq!(
        intf.into_port().contents(),
        [0x77, 0x42, 0x00, 0x10, 0x00, 0x52]
    );
}

#[test]
fn the_port_of_an_interface() {
    let mut intf = Interface::new(Loopback::new(&[0x00]));

    assert_eq!(intf.as_port().contents(), [0x00]);
    intf.halt().unwrap();
    assert_eq!(intf.as_port().contents(), [0x45, 0x00, 0x00, 0x00, 0x45]);
}

#[test]
fn loopback_reads_what_was_written() {
    let mut port = Loopback::new(&[0x01, 0x02]);

    assert_eq!(port.write_all(&[0x03]), Ok(()));
    assert_eq!(port.read_exact(0), Ok(vec![]));
    assert_eq!(port.read_exact(3), Ok(vec![0x01, 0x02, 0x03]));
    assert_eq!(port.write_all(&[0x04, 0x05]), Ok(()));
    // A read of more than is there empties the queue and fails.
    assert_eq!(port.read_exact(3), Err(ReadExactError::UnexpectedEof));
    assert_eq!(port.contents(), [0u8; 0]);
    assert_eq!(port.read_exact(1), Err(ReadExactError::UnexpectedEof));
}
