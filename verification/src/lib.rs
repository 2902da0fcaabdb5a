//! The diagnostic protocol of household appliances that have a serial
//! diagnostic link: washing machines, dishwashers and their relatives.
//!
//! The crate has two layers.
//!
//! The wire layer is the [`Interface`]. It frames payloads into chunks with
//! checksums ([`framing`]), encodes the commands of the protocol
//! ([`command`]) and reads the replies as typed values ([`payload`]). It talks
//! through a [`Port`], which is any channel that can read an exact number of
//! bytes and write all of some bytes.
//!
//! The device layer is [`device`]. [`device::connect`] asks the appliance for
//! its software ID, picks the driver that knows it, and unlocks the
//! appliance. A device lists its properties and actions, and each driver
//! offers the same queries under names of their own.
//!
//! Every operation is stated over the [`wire`]: which bytes it has written
//! and which it has read, when it succeeds and when it breaks off. The
//! [`channel`] keeps that record.
pub mod channel;
pub mod command;
pub mod device;
pub mod flags;
pub mod framing;
pub mod interface;
pub mod payload;
pub mod port;
pub mod text;
pub mod wire;

pub use command::{BaudRate, Command, Error, Request, ResponseCode};
pub use interface::Interface;
pub use payload::Payload;
pub use port::{Loopback, NoError, Port, ReadExactError};
