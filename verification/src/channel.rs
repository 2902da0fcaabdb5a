//! A byte channel together with the record of what has crossed it.
use crate::port::{Port, ReadExactError};
use crate::wire::Wire;
use vstd::prelude::*;

verus! {

/// A port and the record of its traffic.
///
/// Every read and every write of the protocol goes through the two methods
/// of this type, and nothing else can change the record. So the record holds
/// exactly the bytes of the writes that the port accepted and of the reads
/// that it answered, in their order.
pub struct Channel<P> {
    port: P,
    record: Ghost<Wire>,
}

impl<P: Port> Channel<P> {
    /// The port.
    pub closed spec fn port(&self) -> P {
        self.port
    }

    /// The record: the bytes written and the bytes read so far.
    pub closed spec fn wire(&self) -> Wire {
        self.record@
    }

    /// The channel that is made of `port`, with an empty record.
    pub closed spec fn fresh(port: P) -> Self {
        Channel { port, record: Ghost(Wire::empty()) }
    }

    /// What a new channel is.
    pub proof fn lemma_fresh(port: P)
        ensures
            Self::fresh(port).port() == port,
            Self::fresh(port).wire() == Wire::empty(),
    {
    }

    /// A new channel on `port`. Nothing has crossed it.
    pub fn new(port: P) -> (r: Self)
        ensures
            r == Self::fresh(port),
            r.port() == port,
            r.wire() == Wire::empty(),
    {
        Channel { port, record: Ghost(Wire::empty()) }
    }

    /// Gives the port back.
    pub fn into_port(self) -> (r: P)
        ensures
            r == self.port(),
    {
        self.port
    }

    /// The port.
    pub fn as_port(&self) -> (r: &P)
        ensures
            *r == self.port(),
    {
        &self.port
    }

    /// Takes exactly `len` bytes from the port. The bytes of a read that
    /// succeeds are added to the record; a read that fails leaves the record
    /// as it is.
    pub fn read_exact(&mut self, len: usize) -> (r: Result<Vec<u8>, ReadExactError<P::Error>>)
        ensures
            match r {
                Ok(data) => {
                    &&& data@.len() == len
                    &&& final(self).wire() == Wire {
                        sent: old(self).wire().sent,
                        received: old(self).wire().received + data@,
                    }
                },
                Err(_) => final(self).wire() == old(self).wire(),
            },
    {
        let r = self.port.read_exact(len);
        proof {
            if r is Ok {
                self.record@ = Wire {
                    sent: self.record@.sent,
                    received: self.record@.received + r->Ok_0@,
                };
            }
        }
        r
    }

    /// Writes all of `buf` to the port. The bytes of a write that succeeds
    /// are added to the record; a write that fails leaves the record as it
    /// is, whatever part of `buf` may have left the host.
    pub fn write_all(&mut self, buf: &[u8]) -> (r: Result<(), P::Error>)
        ensures
            match r {
                Ok(()) => final(self).wire() == Wire {
                    sent: old(self).wire().sent + buf@,
                    received: old(self).wire().received,
                },
                Err(_) => final(self).wire() == old(self).wire(),
            },
    {
        let r = self.port.write_all(buf);
        proof {
            if r is Ok {
                self.record@ = Wire {
                    sent: self.record@.sent + buf@,
                    received: self.record@.received,
                };
            }
        }
        r
    }
}

} // verus!
