//! The diagnostic interface: every command of the protocol as an operation
//! on a byte channel.
use crate::command::{
    BaudRate, Command, Error, Request, acknowledged, check_acknowledgement, header,
};
use crate::framing::{
    acks, checksum, chunk_at, chunk_count, chunk_start, compute_checksum, framed, frames,
    lemma_chunk_count, lemma_frames_len,
};
use crate::channel::Channel;
use crate::payload::Payload;
use crate::port::Port;
use crate::wire::{
    DUMMY_BYTE, DUMMY_RUN, Exchange, Wire, command_failed, commanding, dummy_run,
    invalid_argument_has_no_dialogue, lemma_chunk_pending, lemma_receive_mismatch,
    lemma_receive_short, lemma_receive_size, lemma_receive_step, lemma_receive_unanswered,
    lemma_send_refused, lemma_send_stopped, preamble, receive_failed, receiving, send_failed,
    sending,
};
use vstd::prelude::*;
use vstd::slice::slice_subrange;
use vstd::std_specs::convert::{FromSpec, IntoSpec};

verus! {

/// The diagnostic interface of one appliance.
///
/// It owns the byte channel and remembers two settings: the chunk size,
/// which the appliance may change on request, and whether a dummy run
/// precedes every request header. The contracts of its operations are
/// stated over the channel's record of what has crossed the wire.
///
/// The interface does not track the appliance's access level. An operation
/// that the appliance does not allow at its current level fails with the
/// error that the appliance reports.
pub struct Interface<P> {
    channel: Channel<P>,
    chunk_size: u8,
    dummy_bytes: bool,
}

/// What the wire shows of an operation's result: the bytes of the reply.
pub open spec fn reply_of<E, const N: usize>(r: Result<Payload<N>, Error<E>>) -> Result<
    Seq<u8>,
    Error<E>,
> {
    match r {
        Ok(payload) => Ok(payload@),
        Err(e) => Err(e),
    }
}

/// What the wire shows of the result of an operation without a reply.
pub open spec fn done_of<E>(r: Result<(), Error<E>>) -> Result<Seq<u8>, Error<E>> {
    match r {
        Ok(()) => Ok(Seq::empty()),
        Err(e) => Err(e),
    }
}

/// Whether `r` is the reply `raw` read as an `L`.
pub open spec fn converted<L: From<Payload<N>>, E, const N: usize>(
    raw: Result<Payload<N>, Error<E>>,
    r: Result<L, Error<E>>,
) -> bool {
    match raw {
        Ok(payload) => r is Ok && (L::obeys_from_spec() ==> r->Ok_0 == L::from_spec(payload)),
        Err(e) => r == Err::<L, Error<E>>(e),
    }
}

impl<P: Port> Interface<P> {
    /// The port of the byte channel.
    pub closed spec fn port(&self) -> P {
        self.channel.port()
    }

    /// Everything that has been written to the channel and read from it, each
    /// in a write or a read that succeeded.
    pub closed spec fn wire(&self) -> Wire {
        self.channel.wire()
    }

    /// The largest number of payload bytes in one chunk.
    pub closed spec fn chunk_size(&self) -> nat {
        self.chunk_size as nat
    }

    /// Whether a dummy run precedes every request header.
    pub closed spec fn dummy_bytes(&self) -> bool {
        self.dummy_bytes
    }

    /// The interface is usable: a chunk holds at least one byte.
    pub open spec fn wf(&self) -> bool {
        self.chunk_size() >= 1
    }

    /// Whether `after` has the settings of this interface.
    pub open spec fn settled(self, after: Self) -> bool {
        &&& after.chunk_size() == self.chunk_size()
        &&& after.dummy_bytes() == self.dummy_bytes()
    }

    /// Whether the operation `x`, started in this state, has left the wire as
    /// `after` shows it, with the outcome `r`.
    ///
    /// On success the wire has grown by the completed dialogue of `x` with the
    /// reply that `r` holds. On failure it has grown by a dialogue of `x` that
    /// broke off with that error.
    pub open spec fn exchanged(
        self,
        after: Self,
        x: Exchange,
        r: Result<Seq<u8>, Error<P::Error>>,
    ) -> bool {
        &&& after.wire().extends(self.wire())
        &&& match r {
            Ok(reply) => {
                &&& reply.len() == x.reply
                &&& after.wire().since(self.wire()) == x.completed(
                    reply,
                    self.chunk_size(),
                    self.dummy_bytes(),
                )
            },
            Err(e) => x.failed(
                self.chunk_size(),
                self.dummy_bytes(),
                after.wire().since(self.wire()),
                e,
            ),
        }
    }

    /// Whether the operation `x` without a reply, started in this state, has
    /// ended in the state `after` with the result `r`.
    pub open spec fn performed(
        self,
        after: Self,
        x: Exchange,
        r: Result<(), Error<P::Error>>,
    ) -> bool {
        &&& self.settled(after)
        &&& self.exchanged(after, x, done_of(r))
    }

    /// Whether the operation `x` with a reply of `N` bytes, started in this
    /// state, has ended in the state `after` with the result `r`: the reply
    /// read as an `L`, or the error.
    pub open spec fn queried<L: From<Payload<N>>, const N: usize>(
        self,
        after: Self,
        x: Exchange,
        r: Result<L, Error<P::Error>>,
    ) -> bool {
        &&& self.settled(after)
        &&& exists|raw: Result<Payload<N>, Error<P::Error>>|
            {
                &&& #[trigger] self.exchanged(after, x, reply_of(raw))
                &&& converted::<L, P::Error, N>(raw, r)
            }
    }

    /// Whether a query of the software ID, started in this state, has ended
    /// in the state `after` with the result `r`.
    pub open spec fn software_id_queried(
        self,
        after: Self,
        r: Result<u16, Error<P::Error>>,
    ) -> bool {
        self.queried::<u16, 2>(after, Exchange::query(Command::QuerySoftwareId, 0, 2, 2), r)
    }

    /// Whether a read of `N` bytes of memory at `addr`, started in this
    /// state, has ended in the state `after` with the result `r`.
    ///
    /// More than 65535 bytes are refused at once and leave the interface as it
    /// was.
    pub open spec fn memory_read<L: From<Payload<N>>, const N: usize>(
        self,
        after: Self,
        addr: u32,
        r: Result<L, Error<P::Error>>,
    ) -> bool {
        if N > 0xffff {
            r == Err::<L, Error<P::Error>>(Error::InvalidArgument) && after == self
        } else {
            self.queried::<L, N>(
                after,
                Exchange::memory(Command::ReadMemory, addr, N as nat, Seq::empty(), N as nat),
                r,
            )
        }
    }

    /// Whether a read of `N` bytes of the EEPROM at `addr`, started in this
    /// state, has ended in the state `after` with the result `r`.
    ///
    /// More than 255 bytes are refused at once and leave the interface as it
    /// was.
    pub open spec fn eeprom_read<L: From<Payload<N>>, const N: usize>(
        self,
        after: Self,
        addr: u16,
        r: Result<L, Error<P::Error>>,
    ) -> bool {
        if N > 0xff {
            r == Err::<L, Error<P::Error>>(Error::InvalidArgument) && after == self
        } else {
            self.queried::<L, N>(
                after,
                Exchange::query(Command::ReadEeprom, addr, N as u8, N as nat),
                r,
            )
        }
    }

    /// Whether a write of the `N` bytes `data` to memory at `addr`, started
    /// in this state, has ended in the state `after` with the result `r`.
    ///
    /// More than 65535 bytes are refused at once and leave the interface as it
    /// was.
    pub open spec fn memory_written<const N: usize>(
        self,
        after: Self,
        addr: u32,
        data: Seq<u8>,
        r: Result<(), Error<P::Error>>,
    ) -> bool {
        if N > 0xffff {
            r == Err::<(), Error<P::Error>>(Error::InvalidArgument) && after == self
        } else {
            self.performed(
                after,
                Exchange::memory(Command::WriteMemory, addr, N as nat, data, 0),
                r,
            )
        }
    }

    /// Whether a write of the `N` bytes `data` to the EEPROM at `addr`,
    /// started in this state, has ended in the state `after` with the result
    /// `r`.
    ///
    /// More than 255 bytes are refused at once and leave the interface as it
    /// was.
    pub open spec fn eeprom_written<const N: usize>(
        self,
        after: Self,
        addr: u16,
        data: Seq<u8>,
        r: Result<(), Error<P::Error>>,
    ) -> bool {
        if N > 0xff {
            r == Err::<(), Error<P::Error>>(Error::InvalidArgument) && after == self
        } else {
            self.performed(after, Exchange::store(Command::WriteEeprom, addr, N as u8, data), r)
        }
    }

    /// Whether a jump to the subroutine at `addr`, started in this state,
    /// has ended in the state `after` with the result `r`.
    ///
    /// The jump is a memory command of length zero. Once it is accepted, one
    /// more byte is awaited, which the appliance sends when the subroutine
    /// returns. That byte is neither checked nor acknowledged.
    pub open spec fn jumped(self, after: Self, addr: u32, r: Result<(), Error<P::Error>>) -> bool {
        let x = Exchange::memory(Command::JumpToSubroutine, addr, 0, Seq::empty(), 0);
        let whole = x.completed(Seq::empty(), self.chunk_size(), self.dummy_bytes());
        let w = after.wire().since(self.wire());
        &&& self.settled(after)
        &&& after.wire().extends(self.wire())
        &&& match r {
            Ok(()) => {
                &&& w.sent == whole.sent
                &&& whole.received.is_prefix_of(w.received)
                &&& w.received.len() == whole.received.len() + 1
            },
            Err(e) => {
                ||| x.failed(self.chunk_size(), self.dummy_bytes(), w, e)
                ||| (w == whole && (e is UnexpectedEof || e is Io))
            },
        }
    }

    /// Whether a query of the highest baud rate, started in this state, has
    /// ended in the state `after` with the result `r`.
    ///
    /// The reply has two bytes. The second names the rate by its index; an
    /// index that names no rate is an invalid response.
    pub open spec fn max_baud_rate_queried(
        self,
        after: Self,
        r: Result<BaudRate, Error<P::Error>>,
    ) -> bool {
        &&& self.settled(after)
        &&& exists|raw: Result<Payload<2>, Error<P::Error>>|
            {
                &&& #[trigger] self.exchanged(
                    after,
                    Exchange::query(Command::QueryMaxBaudRate, 0, 2, 2),
                    reply_of(raw),
                )
                &&& match raw {
                    Ok(reply) => if reply@[1] <= 6 {
                        r is Ok && r->Ok_0.index() == reply@[1]
                    } else {
                        r == Err::<BaudRate, Error<P::Error>>(Error::InvalidResponse)
                    },
                    Err(e) => r == Err::<BaudRate, Error<P::Error>>(e),
                }
            }
    }

    /// Whether a change of the baud rate to `rate`, started in this state,
    /// has ended in the state `after` with the result `r`.
    ///
    /// The two lowest rates have commands of their own. Every other rate is
    /// named by its index, and the appliance answers with one byte, the index
    /// of the rate it has chosen, which is not looked at.
    pub open spec fn baud_rate_set(
        self,
        after: Self,
        rate: BaudRate,
        r: Result<(), Error<P::Error>>,
    ) -> bool {
        match rate {
            BaudRate::Baud2400 => self.performed(
                after,
                Exchange::plain(Command::SetBaudRate2400, 0, 0),
                r,
            ),
            BaudRate::Baud9600 => self.performed(
                after,
                Exchange::plain(Command::SetBaudRate9600, 0, 0),
                r,
            ),
            _ => {
                &&& self.settled(after)
                &&& exists|raw: Result<Payload<1>, Error<P::Error>>|
                    {
                        &&& #[trigger] self.exchanged(
                            after,
                            Exchange::query(Command::SetBaudRate, rate.index() as u16, 1, 1),
                            reply_of(raw),
                        )
                        &&& r == match raw {
                            Ok(_) => Ok::<(), Error<P::Error>>(()),
                            Err(e) => Err(e),
                        }
                    }
            },
        }
    }

    /// Whether a request for chunks of `size` bytes, started in this state,
    /// has ended in the state `after` with the result `r`.
    ///
    /// The appliance answers with the size that it has chosen, and that size
    /// is the chunk size from then on. A size of zero is an invalid response
    /// and changes nothing.
    pub open spec fn chunk_size_set(
        self,
        after: Self,
        size: u8,
        r: Result<(), Error<P::Error>>,
    ) -> bool {
        &&& after.dummy_bytes() == self.dummy_bytes()
        &&& exists|raw: Result<Payload<1>, Error<P::Error>>|
            {
                &&& #[trigger] self.exchanged(
                    after,
                    Exchange::query(Command::SetChunkSize, size as u16, 1, 1),
                    reply_of(raw),
                )
                &&& match raw {
                    Ok(reply) => if reply@[0] == 0 {
                        &&& r == Err::<(), Error<P::Error>>(Error::InvalidResponse)
                        &&& after.chunk_size() == self.chunk_size()
                    } else {
                        &&& r == Ok::<(), Error<P::Error>>(())
                        &&& after.chunk_size() == reply@[0]
                    },
                    Err(e) => {
                        &&& r == Err::<(), Error<P::Error>>(e)
                        &&& after.chunk_size() == self.chunk_size()
                    },
                }
            }
    }

    /// Whether a smart home request `cmd` with the `N` bytes `data`,
    /// started in this state, has ended in the state `after` with the result
    /// `r`.
    ///
    /// More than 255 bytes are refused at once and leave the interface as it
    /// was.
    pub open spec fn smart_home_requested<const M: usize, const N: usize>(
        self,
        after: Self,
        cmd: u16,
        data: Seq<u8>,
        r: Result<Payload<M>, Error<P::Error>>,
    ) -> bool {
        if N > 0xff {
            r == Err::<Payload<M>, Error<P::Error>>(Error::InvalidArgument) && after == self
        } else {
            &&& self.settled(after)
            &&& self.exchanged(
                after,
                Exchange {
                    extension: None,
                    request: header(Command::RequestSmartHome, cmd, N as u8),
                    data,
                    reply: M as nat,
                },
                reply_of(r),
            )
        }
    }

    /// The interface that is made on `port`: it has chunks of 4 bytes and no
    /// dummy bytes, and nothing has crossed the wire.
    pub closed spec fn fresh(port: P) -> Self {
        Interface { channel: Channel::fresh(port), chunk_size: 4, dummy_bytes: false }
    }

    /// This interface with dummy bytes enabled.
    pub closed spec fn with_dummy_bytes(self) -> Self {
        Interface { channel: self.channel, chunk_size: self.chunk_size, dummy_bytes: true }
    }

    /// What a new interface is.
    pub proof fn lemma_fresh(port: P)
        ensures
            Self::fresh(port).port() == port,
            Self::fresh(port).chunk_size() == 4,
            !Self::fresh(port).dummy_bytes(),
            Self::fresh(port).wire() == Wire::empty(),
            Self::fresh(port).wf(),
    {
        Channel::lemma_fresh(port);
    }

    /// What enabling dummy bytes changes and what it leaves.
    pub proof fn lemma_with_dummy_bytes(self)
        ensures
            self.with_dummy_bytes().dummy_bytes(),
            self.with_dummy_bytes().chunk_size() == self.chunk_size(),
            self.with_dummy_bytes().port() == self.port(),
            self.with_dummy_bytes().wire() == self.wire(),
            self.dummy_bytes() ==> self.with_dummy_bytes() == self,
    {
    }

    /// A new interface on `port`, with chunks of 4 bytes and without dummy
    /// bytes. Nothing has crossed the wire.
    pub fn new(port: P) -> (r: Self)
        ensures
            r == Self::fresh(port),
            r.port() == port,
            r.chunk_size() == 4,
            !r.dummy_bytes(),
            r.wire() == Wire::empty(),
            r.wf(),
    {
        Interface { channel: Channel::new(port), chunk_size: 4, dummy_bytes: false }
    }

    /// Gives the port back.
    pub fn into_port(self) -> (r: P)
        ensures
            r == self.port(),
    {
        self.channel.into_port()
    }

    /// The port.
    pub fn as_port(&self) -> (r: &P)
        ensures
            *r == self.port(),
    {
        self.channel.as_port()
    }

    /// From now on a dummy run precedes every request header. Appliances
    /// with the legacy firmware miss the first bytes after a pause; the run
    /// is there to be missed.
    pub fn enable_dummy_bytes(&mut self)
        ensures
            *final(self) == old(self).with_dummy_bytes(),
            final(self).dummy_bytes(),
            final(self).chunk_size() == old(self).chunk_size(),
            final(self).port() == old(self).port(),
            final(self).wire() == old(self).wire(),
    {
        self.dummy_bytes = true;
    }

    /// Locks the diagnostic interface.
    ///
    /// The appliance falls back to its lowest access level. Any further
    /// diagnostic operation needs the whole unlock sequence again.
    pub fn lock(&mut self) -> (r: Result<(), Error<P::Error>>)
        requires
            old(self).wf(),
        ensures
            (*old(self)).performed(*final(self), Exchange::plain(Command::Lock, 0, 0), r),
    {
        self.perform(Command::Lock, 0x0000)
    }

    /// Queries the software ID of the appliance.
    ///
    /// This is the first step of the unlock sequence. The reply has two
    /// bytes, the ID with its low byte first.
    pub fn query_software_id(&mut self) -> (r: Result<u16, Error<P::Error>>)
        requires
            old(self).wf(),
        ensures
            (*old(self)).software_id_queried(*final(self), r),
    {
        self.query::<u16, 2>(Command::QuerySoftwareId, 0x0000, 0x02)
    }

    /// Unlocks read access with `key`.
    ///
    /// The software ID has to be queried before. An appliance may accept the
    /// command whatever the key: whether the key was right shows at the
    /// latest when a read is attempted.
    pub fn unlock_read_access(&mut self, key: u16) -> (r: Result<(), Error<P::Error>>)
        requires
            old(self).wf(),
        ensures
            (*old(self)).performed(
                *final(self),
                Exchange::plain(Command::UnlockReadAccess, key, 0),
                r,
            ),
    {
        self.perform(Command::UnlockReadAccess, key)
    }

    /// Unlocks the smart home functions. No key is needed.
    pub fn unlock_smart_home_access(&mut self) -> (r: Result<(), Error<P::Error>>)
        requires
            old(self).wf(),
        ensures
            (*old(self)).performed(
                *final(self),
                Exchange::plain(Command::UnlockSmartHomeAccess, 0, 0),
                r,
            ),
    {
        self.perform(Command::UnlockSmartHomeAccess, 0x0000)
    }

    /// Reads `N` bytes of memory at `addr` as an `L`.
    ///
    /// Where the address has more than 16 bits or `N` is more than 255, an
    /// address extension precedes the command. More than 65535 bytes are
    /// refused with [`Error::InvalidArgument`] before anything is sent.
    pub fn read_memory<L: From<Payload<N>>, const N: usize>(&mut self, addr: u32) -> (r: Result<
        L,
        Error<P::Error>,
    >)
        requires
            old(self).wf(),
        ensures
            (*old(self)).memory_read::<L, N>(*final(self), addr, r),
    {
        if N > 0xffff {
            return Err(Error::InvalidArgument);
        }
        let extension = Self::extension(addr, N);
        let nothing: [u8; 0] = [];
        assert(nothing@ =~= Seq::<u8>::empty());
        let raw = self.exchange::<N>(
            extension,
            Command::ReadMemory,
            (addr % 65536) as u16,
            (N % 256) as u8,
            nothing.as_slice(),
        );
        Self::convert::<L, N>(raw)
    }

    /// Reads `N` bytes of the EEPROM at `addr` as an `L`.
    ///
    /// On appliances with the legacy firmware the address counts words of
    /// two bytes. More than 255 bytes are refused with
    /// [`Error::InvalidArgument`] before anything is sent.
    pub fn read_eeprom<L: From<Payload<N>>, const N: usize>(&mut self, addr: u16) -> (r: Result<
        L,
        Error<P::Error>,
    >)
        requires
            old(self).wf(),
        ensures
            (*old(self)).eeprom_read::<L, N>(*final(self), addr, r),
    {
        if N > 0xff {
            return Err(Error::InvalidArgument);
        }
        self.query::<L, N>(Command::ReadEeprom, addr, N as u8)
    }

    /// Queries the highest baud rate that the appliance supports.
    pub fn query_max_baud_rate(&mut self) -> (r: Result<BaudRate, Error<P::Error>>)
        requires
            old(self).wf(),
        ensures
            (*old(self)).max_baud_rate_queried(*final(self), r),
    {
        let nothing: [u8; 0] = [];
        assert(nothing@ =~= Seq::<u8>::empty());
        let raw = self.exchange::<2>(
            None,
            Command::QueryMaxBaudRate,
            0x0000,
            0x02,
            nothing.as_slice(),
        );
        match raw {
            Ok(reply) => {
                assert(reply_of(raw) == Ok::<Seq<u8>, Error<P::Error>>(reply@));
                match BaudRate::from_repr(reply.0[1]) {
                    Some(rate) => Ok(rate),
                    None => Err(Error::InvalidResponse),
                }
            },
            Err(e) => Err(e),
        }
    }

    /// Unlocks full access with `key`. Read access has to be unlocked
    /// before.
    pub fn unlock_full_access(&mut self, key: u16) -> (r: Result<(), Error<P::Error>>)
        requires
            old(self).wf(),
        ensures
            (*old(self)).performed(
                *final(self),
                Exchange::plain(Command::UnlockFullAccess, key, 0),
                r,
            ),
    {
        self.perform(Command::UnlockFullAccess, key)
    }

    /// Writes the `N` bytes of `payload` to memory at `addr`.
    ///
    /// Where the address has more than 16 bits or `N` is more than 255, an
    /// address extension precedes the command. More than 65535 bytes are
    /// refused with [`Error::InvalidArgument`] before anything is sent.
    pub fn write_memory<L: Into<Payload<N>>, const N: usize>(
        &mut self,
        addr: u32,
        payload: L,
    ) -> (r: Result<(), Error<P::Error>>)
        requires
            old(self).wf(),
        ensures
            exists|image: Payload<N>|
                {
                    &&& L::obeys_into_spec() ==> image == payload.into_spec()
                    &&& #[trigger] (*old(self)).memory_written::<N>(
                        *final(self),
                        addr,
                        image@,
                        r,
                    )
                },
    {
        if N > 0xffff {
            proof {
                let image: Payload<N> = payload.into_spec();
                assert((*old(self)).memory_written::<N>(
                    *self,
                    addr,
                    image@,
                    Err(Error::InvalidArgument),
                ));
            }
            return Err(Error::InvalidArgument);
        }
        let image: Payload<N> = payload.into();
        let extension = Self::extension(addr, N);
        let raw = self.exchange::<0>(
            extension,
            Command::WriteMemory,
            (addr % 65536) as u16,
            (N % 256) as u8,
            image.0.as_slice(),
        );
        let r = Self::finish(raw);
        proof {
            assert((*old(self)).memory_written::<N>(*self, addr, image@, r));
        }
        r
    }

    /// Writes the `N` bytes of `payload` to the EEPROM at `addr`.
    ///
    /// On appliances with the legacy firmware the address counts words of
    /// two bytes. More than 255 bytes are refused with
    /// [`Error::InvalidArgument`] before anything is sent.
    pub fn write_eeprom<L: Into<Payload<N>>, const N: usize>(
        &mut self,
        addr: u16,
        payload: L,
    ) -> (r: Result<(), Error<P::Error>>)
        requires
            old(self).wf(),
        ensures
            exists|image: Payload<N>|
                {
                    &&& L::obeys_into_spec() ==> image == payload.into_spec()
                    &&& #[trigger] (*old(self)).eeprom_written::<N>(
                        *final(self),
                        addr,
                        image@,
                        r,
                    )
                },
    {
        if N > 0xff {
            proof {
                let image: Payload<N> = payload.into_spec();
                assert((*old(self)).eeprom_written::<N>(
                    *self,
                    addr,
                    image@,
                    Err(Error::InvalidArgument),
                ));
            }
            return Err(Error::InvalidArgument);
        }
        let image: Payload<N> = payload.into();
        let raw = self.exchange::<0>(
            None,
            Command::WriteEeprom,
            addr,
            N as u8,
            image.0.as_slice(),
        );
        let r = Self::finish(raw);
        proof {
            assert((*old(self)).eeprom_written::<N>(*self, addr, image@, r));
        }
        r
    }

    /// Calls the subroutine at `addr` and waits for it to return.
    ///
    /// Where the address has more than 16 bits, an address extension
    /// precedes the command. The appliance falls back to its lowest access
    /// level.
    pub fn jump_to_subroutine(&mut self, addr: u32) -> (r: Result<(), Error<P::Error>>)
        requires
            old(self).wf(),
        ensures
            (*old(self)).jumped(*final(self), addr, r),
    {
        let ghost x = Exchange::memory(Command::JumpToSubroutine, addr, 0, Seq::empty(), 0);
        let ghost whole = x.completed(Seq::empty(), self.chunk_size(), self.dummy_bytes());
        let ghost base = self.wire();
        let extension = Self::extension(addr, 0);
        let nothing: [u8; 0] = [];
        assert(nothing@ =~= Seq::<u8>::empty());
        let raw = self.exchange::<0>(
            extension,
            Command::JumpToSubroutine,
            (addr % 65536) as u16,
            0x00,
            nothing.as_slice(),
        );
        match raw {
            Ok(reply) => {
                assert(reply@ =~= Seq::<u8>::empty());
            },
            Err(e) => {
                return Err(e);
            },
        }
        let ghost mid = self.wire();
        proof {
            Self::lemma_step(base, mid, whole);
        }
        match self.channel.read_exact(1) {
            Ok(byte) => {
                proof {
                    let now = self.wire();
                    assert(now.sent.skip(base.sent.len() as int) =~= whole.sent);
                    assert(now.received.skip(base.received.len() as int) =~= whole.received
                        + byte@);
                    assert(whole.received =~= (whole.received + byte@).subrange(
                        0,
                        whole.received.len() as int,
                    ));
                    assert(base.sent =~= now.sent.subrange(0, base.sent.len() as int));
                    assert(base.received =~= now.received.subrange(
                        0,
                        base.received.len() as int,
                    ));
                }
                Ok(())
            },
            Err(e) => {
                proof {
                    base.lemma_followed(whole);
                }
                Err(Error::from_read(e))
            },
        }
    }

    /// Stops the appliance's normal operation: it enters an endless loop.
    pub fn halt(&mut self) -> (r: Result<(), Error<P::Error>>)
        requires
            old(self).wf(),
        ensures
            (*old(self)).performed(*final(self), Exchange::plain(Command::Halt, 0, 0), r),
    {
        self.perform(Command::Halt, 0x0000)
    }

    /// Asks the appliance to change its baud rate to `rate`.
    ///
    /// The appliance falls back to its lowest access level. The channel of
    /// this interface keeps its own rate: to go on, open a channel at the new
    /// rate and make a new interface on it.
    pub fn set_baud_rate(&mut self, rate: BaudRate) -> (r: Result<(), Error<P::Error>>)
        requires
            old(self).wf(),
        ensures
            (*old(self)).baud_rate_set(*final(self), rate, r),
    {
        match rate {
            BaudRate::Baud2400 => self.perform(Command::SetBaudRate2400, 0x0000),
            BaudRate::Baud9600 => self.perform(Command::SetBaudRate9600, 0x0000),
            _ => {
                let nothing: [u8; 0] = [];
                assert(nothing@ =~= Seq::<u8>::empty());
                let raw = self.exchange::<1>(
                    None,
                    Command::SetBaudRate,
                    rate.to_repr() as u16,
                    0x01,
                    nothing.as_slice(),
                );
                match raw {
                    Ok(_) => Ok(()),
                    Err(e) => Err(e),
                }
            },
        }
    }

    /// Asks the appliance for chunks of `size` bytes.
    ///
    /// The appliance chooses the nearest size that it supports and answers
    /// with it. That size applies to both directions from then on.
    pub fn set_chunk_size(&mut self, size: u8) -> (r: Result<(), Error<P::Error>>)
        requires
            old(self).wf(),
        ensures
            (*old(self)).chunk_size_set(*final(self), size, r),
            final(self).wf(),
    {
        let nothing: [u8; 0] = [];
        assert(nothing@ =~= Seq::<u8>::empty());
        let raw = self.exchange::<1>(
            None,
            Command::SetChunkSize,
            size as u16,
            0x01,
            nothing.as_slice(),
        );
        let ghost mid = *self;
        let r = match raw {
            Ok(reply) => {
                assert(reply_of(raw) == Ok::<Seq<u8>, Error<P::Error>>(reply@));
                let chosen: u8 = reply.0[0];
                if chosen == 0 {
                    Err(Error::InvalidResponse)
                } else {
                    self.chunk_size = chosen;
                    Ok(())
                }
            },
            Err(e) => Err(e),
        };
        proof {
            assert(self.wire() == mid.wire());
            assert((*old(self)).exchanged(
                *self,
                Exchange::query(Command::SetChunkSize, size as u16, 1, 1),
                reply_of(raw),
            ));
        }
        r
    }

    /// Resets the appliance's microcontroller.
    pub fn reset(&mut self) -> (r: Result<(), Error<P::Error>>)
        requires
            old(self).wf(),
        ensures
            (*old(self)).performed(*final(self), Exchange::plain(Command::Reset, 0, 0), r),
    {
        self.perform(Command::Reset, 0x0000)
    }

    /// Sends the smart home request `cmd` with `payload` and returns the
    /// reply of `M` bytes.
    ///
    /// More than 255 bytes are refused with [`Error::InvalidArgument`]
    /// before anything is sent.
    pub fn send_smart_home_request<const M: usize, const N: usize>(
        &mut self,
        cmd: u16,
        payload: Payload<N>,
    ) -> (r: Result<Payload<M>, Error<P::Error>>)
        requires
            old(self).wf(),
        ensures
            (*old(self)).smart_home_requested::<M, N>(*final(self), cmd, payload@, r),
    {
        if N > 0xff {
            return Err(Error::InvalidArgument);
        }
        self.exchange::<M>(None, Command::RequestSmartHome, cmd, N as u8, payload.0.as_slice())
    }

    /// The upper bits of an address and a length, where either has any.
    fn extension(addr: u32, len: usize) -> (r: Option<(u16, u8)>)
        requires
            len <= 0xffff,
        ensures
            r == if addr > 0xffff || len > 0xff {
                Some(((addr / 65536) as u16, (len / 256) as u8))
            } else {
                None
            },
    {
        if addr > 0xffff || len > 0xff {
            Some(((addr / 65536) as u16, (len / 256) as u8))
        } else {
            None
        }
    }

    /// Runs a command without data and without a reply.
    fn perform(&mut self, cmd: Command, param: u16) -> (r: Result<(), Error<P::Error>>)
        requires
            old(self).wf(),
        ensures
            (*old(self)).performed(*final(self), Exchange::plain(cmd, param, 0), r),
    {
        let nothing: [u8; 0] = [];
        assert(nothing@ =~= Seq::<u8>::empty());
        let raw = self.exchange::<0>(None, cmd, param, 0x00, nothing.as_slice());
        Self::finish(raw)
    }

    /// Runs a command without data and reads its reply of `N` bytes as an
    /// `L`.
    fn query<L: From<Payload<N>>, const N: usize>(
        &mut self,
        cmd: Command,
        param: u16,
        len: u8,
    ) -> (r: Result<L, Error<P::Error>>)
        requires
            old(self).wf(),
        ensures
            (*old(self)).queried::<L, N>(
                *final(self),
                Exchange::query(cmd, param, len, N as nat),
                r,
            ),
    {
        let nothing: [u8; 0] = [];
        assert(nothing@ =~= Seq::<u8>::empty());
        let raw = self.exchange::<N>(None, cmd, param, len, nothing.as_slice());
        Self::convert::<L, N>(raw)
    }

    /// Drops the empty reply of an operation that has none.
    fn finish(raw: Result<Payload<0>, Error<P::Error>>) -> (r: Result<(), Error<P::Error>>)
        ensures
            r == match raw {
                Ok(_) => Ok::<(), Error<P::Error>>(()),
                Err(e) => Err(e),
            },
            raw is Ok && raw->Ok_0@.len() == 0 ==> done_of(r) == reply_of(raw),
            raw is Err ==> done_of(r) == reply_of(raw),
    {
        match raw {
            Ok(reply) => {
                assert(reply@.len() == 0 ==> reply@ =~= Seq::<u8>::empty());
                Ok(())
            },
            Err(e) => Err(e),
        }
    }

    /// Reads a reply as an `L`.
    fn convert<L: From<Payload<N>>, const N: usize>(raw: Result<Payload<N>, Error<P::Error>>) -> (r:
        Result<L, Error<P::Error>>)
        ensures
            converted::<L, P::Error, N>(raw, r),
    {
        match raw {
            Ok(reply) => Ok(L::from(reply)),
            Err(e) => Err(e),
        }
    }


    /// Sends `payload` in chunks, each with its checksum, and takes the
    /// acknowledgement of each.
    fn send(&mut self, payload: &[u8]) -> (r: Result<(), Error<P::Error>>)
        requires
            old(self).wf(),
        ensures
            (*old(self)).settled(*final(self)),
            final(self).wire().extends(old(self).wire()),
            match r {
                Ok(()) => final(self).wire().since(old(self).wire()) == sending(
                    payload@,
                    old(self).chunk_size(),
                ),
                Err(e) => send_failed(
                    payload@,
                    old(self).chunk_size(),
                    final(self).wire().since(old(self).wire()),
                    e,
                ),
            },
    {
        let ghost base = self.wire();
        let ghost c = self.chunk_size as nat;
        let ghost p = payload@;
        let ghost n = p.len();
        let ghost mut done: nat = 0;
        let total: usize = payload.len();
        let mut offset: usize = 0;
        proof {
            assert(0 * c == 0) by (nonlinear_arith);
            assert(base.sent + frames(p, c, 0) =~= base.sent);
            assert(base.received + acks(0) =~= base.received);
        }
        while offset < total
            invariant
                self.chunk_size == old(self).chunk_size,
                self.dummy_bytes == old(self).dummy_bytes,
                c == self.chunk_size as nat,
                c >= 1,
                p == payload@,
                n == p.len(),
                total == n,
                base == old(self).wire(),
                offset <= total,
                offset == chunk_start(n, c, done),
                offset < total ==> offset == done * c,
                done > 0 ==> (done - 1) * c < n,
                self.wire().sent == base.sent + frames(p, c, done),
                self.wire().received == base.received + acks(done),
            decreases total - offset,
        {
            let room: usize = total - offset;
            let size: usize = if room > self.chunk_size as usize {
                self.chunk_size as usize
            } else {
                room
            };
            let end: usize = offset + size;
            let chunk = slice_subrange(payload, offset, end);
            let sum = compute_checksum(chunk);
            proof {
                assert((done + 1) * c == done * c + c) by (nonlinear_arith);
                lemma_chunk_pending(n, c, done);
                assert(end == chunk_start(n, c, done + 1));
                assert(chunk@ == chunk_at(p, c, done));
                assert(frames(p, c, done + 1) == frames(p, c, done) + chunk@.push(sum));
            }
            match self.channel.write_all(chunk) {
                Ok(()) => {},
                Err(e) => {
                    proof {
                        lemma_send_stopped(
                            p,
                            c,
                            done,
                            base,
                            self.wire(),
                            Seq::empty(),
                            Error::Io(e),
                        );
                    }
                    return Err(Error::Io(e));
                },
            }
            let tail: [u8; 1] = [sum];
            proof {
                assert(tail@ =~= seq![sum]);
            }
            match self.channel.write_all(tail.as_slice()) {
                Ok(()) => {
                    proof {
                        assert(self.wire().sent =~= base.sent + frames(p, c, done + 1));
                    }
                },
                Err(e) => {
                    proof {
                        lemma_send_stopped(p, c, done, base, self.wire(), chunk@, Error::Io(e));
                    }
                    return Err(Error::Io(e));
                },
            }
            let answer = match self.channel.read_exact(1) {
                Ok(answer) => answer,
                Err(e) => {
                    proof {
                        assert(self.wire().sent =~= base.sent + frames(p, c, done) + chunk@.push(
                            sum,
                        ));
                        lemma_send_stopped(
                            p,
                            c,
                            done,
                            base,
                            self.wire(),
                            chunk@.push(sum),
                            Error::of_read(e),
                        );
                    }
                    return Err(Error::from_read(e));
                },
            };
            let code: u8 = answer[0];
            proof {
                assert(answer@ =~= seq![code]);
                assert(self.wire().received =~= (base.received + acks(done)).push(code));
            }
            match check_acknowledgement::<P::Error>(code) {
                Ok(()) => {},
                Err(e) => {
                    proof {
                        lemma_send_refused(p, c, done, base, self.wire(), code, e);
                    }
                    return Err(e);
                },
            }
            proof {
                assert(self.wire().received =~= base.received + acks(done + 1));
                done = done + 1;
            }
            offset = end;
        }
        proof {
            lemma_chunk_count(n, c, done);
            assert(self.wire().sent.skip(base.sent.len() as int) =~= framed(p, c));
            assert(self.wire().received.skip(base.received.len() as int) =~= acks(done));
            assert(base.sent =~= self.wire().sent.subrange(0, base.sent.len() as int));
            assert(base.received =~= self.wire().received.subrange(0, base.received.len() as int));
        }
        Ok(())
    }

    /// Receives a payload of `N` bytes in chunks, checks the checksum of
    /// each and acknowledges it.
    fn receive<const N: usize>(&mut self) -> (r: Result<Payload<N>, Error<P::Error>>)
        requires
            old(self).wf(),
        ensures
            (*old(self)).settled(*final(self)),
            final(self).wire().extends(old(self).wire()),
            match r {
                Ok(payload) => final(self).wire().since(old(self).wire()) == receiving(
                    payload@,
                    old(self).chunk_size(),
                ),
                Err(e) => receive_failed(
                    N as nat,
                    old(self).chunk_size(),
                    final(self).wire().since(old(self).wire()),
                    e,
                ),
            },
    {
        let ghost base = self.wire();
        let ghost c = self.chunk_size as nat;
        let ghost n = N as nat;
        let ghost mut done: nat = 0;
        let mut data: Vec<u8> = Vec::new();
        let mut offset: usize = 0;
        proof {
            assert(0 * c == 0) by (nonlinear_arith);
            assert(base.sent + acks(0) =~= base.sent);
            assert(base.received + frames(data@, c, 0) =~= base.received);
        }
        while offset < N
            invariant
                self.chunk_size == old(self).chunk_size,
                self.dummy_bytes == old(self).dummy_bytes,
                c == self.chunk_size as nat,
                c >= 1,
                n == N,
                base == old(self).wire(),
                offset <= N,
                data@.len() == offset,
                offset == chunk_start(n, c, done),
                offset < N ==> offset == done * c,
                done > 0 ==> (done - 1) * c < n,
                self.wire().sent == base.sent + acks(done),
                self.wire().received == base.received + frames(data@, c, done),
            decreases N - offset,
        {
            let room: usize = N - offset;
            let size: usize = if room > self.chunk_size as usize {
                self.chunk_size as usize
            } else {
                room
            };
            proof {
                lemma_receive_size(n, c, done, size as nat);
            }
            let chunk = match self.channel.read_exact(size) {
                Ok(chunk) => chunk,
                Err(e) => {
                    proof {
                        lemma_receive_short(
                            n,
                            c,
                            done,
                            data@,
                            base,
                            self.wire(),
                            Seq::empty(),
                            Error::of_read(e),
                        );
                    }
                    return Err(Error::from_read(e));
                },
            };
            let tail = match self.channel.read_exact(1) {
                Ok(tail) => tail,
                Err(e) => {
                    proof {
                        lemma_receive_short(
                            n,
                            c,
                            done,
                            data@,
                            base,
                            self.wire(),
                            chunk@,
                            Error::of_read(e),
                        );
                    }
                    return Err(Error::from_read(e));
                },
            };
            let sum: u8 = tail[0];
            proof {
                assert(tail@ =~= seq![sum]);
                assert(self.wire().received =~= base.received + frames(data@, c, done)
                    + chunk@.push(sum));
            }
            if sum != compute_checksum(chunk.as_slice()) {
                proof {
                    lemma_receive_mismatch::<P::Error>(
                        n,
                        c,
                        done,
                        data@,
                        base,
                        self.wire(),
                        chunk@,
                        sum,
                    );
                }
                return Err(Error::IncorrectChecksum);
            }
            let success: [u8; 1] = [0];
            proof {
                assert(success@ =~= seq![0u8]);
            }
            match self.channel.write_all(success.as_slice()) {
                Ok(()) => {},
                Err(e) => {
                    proof {
                        lemma_receive_unanswered(
                            n,
                            c,
                            done,
                            data@,
                            base,
                            self.wire(),
                            chunk@,
                            Error::Io(e),
                        );
                    }
                    return Err(Error::Io(e));
                },
            }
            let ghost before = data@;
            data.extend_from_slice(chunk.as_slice());
            proof {
                assert(data@ =~= before + chunk@);
                lemma_receive_step(n, c, done, before, chunk@);
                assert(self.wire().received =~= base.received + frames(data@, c, done + 1));
                assert(self.wire().sent =~= base.sent + acks(done + 1));
                done = done + 1;
            }
            offset = offset + size;
        }
        let mut bytes: [u8; N] = [0u8; N];
        let mut i: usize = 0;
        while i < N
            invariant
                i <= N,
                data@.len() == N,
                bytes@.len() == N,
                bytes@.take(i as int) == data@.take(i as int),
            decreases N - i,
        {
            let ghost filled = bytes@;
            bytes[i] = data[i];
            assert(bytes@.take(i + 1) =~= data@.take(i + 1)) by {
                assert(forall|j: int| 0 <= j < i ==> bytes@[j] == filled.take(i as int)[j]);
                assert(forall|j: int| 0 <= j < i ==> data@[j] == data@.take(i as int)[j]);
            }
            i += 1;
        }
        let payload = Payload(bytes);
        proof {
            assert(payload@ =~= data@) by {
                assert(bytes@.take(N as int) =~= bytes@);
                assert(data@.take(N as int) =~= data@);
            }
            lemma_chunk_count(n, c, done);
            assert(self.wire().received.skip(base.received.len() as int) =~= framed(payload@, c));
            assert(self.wire().sent.skip(base.sent.len() as int) =~= acks(done));
            assert(base.sent =~= self.wire().sent.subrange(0, base.sent.len() as int));
            assert(base.received =~= self.wire().received.subrange(0, base.received.len() as int));
        }
        Ok(payload)
    }

    /// Sends a request header, after the dummy run where that is enabled.
    fn command(&mut self, request: Request) -> (r: Result<(), Error<P::Error>>)
        requires
            old(self).wf(),
        ensures
            (*old(self)).settled(*final(self)),
            final(self).wire().extends(old(self).wire()),
            match r {
                Ok(()) => final(self).wire().since(old(self).wire()) == commanding(
                    request.bytes(),
                    old(self).chunk_size(),
                    old(self).dummy_bytes(),
                ),
                Err(e) => command_failed(
                    request.bytes(),
                    old(self).chunk_size(),
                    old(self).dummy_bytes(),
                    final(self).wire().since(old(self).wire()),
                    e,
                ),
            },
    {
        let ghost base = self.wire();
        let ghost bytes = request.bytes();
        proof {
            base.lemma_followed(Wire::empty());
        }
        if self.dummy_bytes {
            let run: [u8; DUMMY_RUN] = [DUMMY_BYTE; DUMMY_RUN];
            proof {
                assert(run@ =~= dummy_run());
            }
            match self.channel.write_all(run.as_slice()) {
                Ok(()) => {},
                Err(e) => {
                    proof {
                        assert(Seq::<u8>::empty().is_prefix_of(dummy_run()));
                    }
                    return Err(Error::Io(e));
                },
            }
        }
        let ghost mid = self.wire();
        proof {
            base.lemma_followed(preamble(self.dummy_bytes));
            assert(mid == base.followed_by(preamble(self.dummy_bytes))) by {
                assert(mid.sent =~= base.sent + preamble(self.dummy_bytes).sent);
                assert(mid.received =~= base.received + preamble(self.dummy_bytes).received);
            }
        }
        let image: Payload<4> = Payload::from(request);
        assert(image@ =~= bytes);
        let r = self.send(image.0.as_slice());
        proof {
            let now = self.wire();
            let pre = preamble(old(self).dummy_bytes());
            now.lemma_since_followed(base, pre);
            match r {
                Ok(()) => {
                    assert(now == mid.followed_by(sending(bytes, old(self).chunk_size()))) by {
                        mid.lemma_followed(sending(bytes, old(self).chunk_size()));
                        assert(now.sent =~= mid.sent + now.since(mid).sent);
                        assert(now.received =~= mid.received + now.since(mid).received);
                    }
                    base.lemma_followed_twice(pre, sending(bytes, old(self).chunk_size()));
                    base.lemma_followed(pre.followed_by(sending(bytes, old(self).chunk_size())));
                },
                Err(_) => {},
            }
        }
        r
    }

    /// Runs one operation: the address extension if there is one, the
    /// request header, the data, and the reply of `N` bytes.
    fn exchange<const N: usize>(
        &mut self,
        extension: Option<(u16, u8)>,
        cmd: Command,
        param: u16,
        len: u8,
        data: &[u8],
    ) -> (r: Result<Payload<N>, Error<P::Error>>)
        requires
            old(self).wf(),
        ensures
            (*old(self)).settled(*final(self)),
            (*old(self)).exchanged(
                *final(self),
                Exchange {
                    extension: match extension {
                        Some((upper, count)) => Some(header(Command::ExtendAddress, upper, count)),
                        None => None,
                    },
                    request: header(cmd, param, len),
                    data: data@,
                    reply: N as nat,
                },
                reply_of(r),
            ),
    {
        let ghost base = self.wire();
        let ghost c = self.chunk_size();
        let ghost d = self.dummy_bytes();
        let ghost x = Exchange {
            extension: match extension {
                Some((upper, count)) => Some(header(Command::ExtendAddress, upper, count)),
                None => None,
            },
            request: header(cmd, param, len),
            data: data@,
            reply: N as nat,
        };
        proof {
            base.lemma_followed(x.opening(c, d));
        }
        match extension {
            Some((upper, count)) => {
                match self.command(Request::new(Command::ExtendAddress, upper, count)) {
                    Ok(()) => {},
                    Err(e) => {
                        return Err(e);
                    },
                }
            },
            None => {},
        }
        let ghost w1 = self.wire();
        proof {
            Self::lemma_step(base, w1, x.opening(c, d));
        }
        match self.command(Request::new(cmd, param, len)) {
            Ok(()) => {},
            Err(e) => {
                proof {
                    self.wire().lemma_since_followed(base, x.opening(c, d));
                }
                return Err(e);
            },
        }
        let ghost w2 = self.wire();
        proof {
            Self::lemma_steps(base, w1, w2, x.opening(c, d), commanding(x.request, c, d));
        }
        match self.send(data) {
            Ok(()) => {},
            Err(e) => {
                proof {
                    self.wire().lemma_since_followed(base, x.requested(c, d));
                }
                return Err(e);
            },
        }
        let ghost w3 = self.wire();
        proof {
            Self::lemma_steps(base, w2, w3, x.requested(c, d), sending(x.data, c));
        }
        match self.receive::<N>() {
            Ok(payload) => {
                proof {
                    Self::lemma_steps(
                        base,
                        w3,
                        self.wire(),
                        x.delivered(c, d),
                        receiving(payload@, c),
                    );
                    lemma_frames_len(payload@, c, chunk_count(payload@.len(), c));
                    assert(payload@.len() == N);
                }
                Ok(payload)
            },
            Err(e) => {
                proof {
                    self.wire().lemma_since_followed(base, x.delivered(c, d));
                }
                Err(e)
            },
        }
    }

    /// A wire that has grown from `base` by `step` extends `base` by `step`.
    proof fn lemma_step(base: Wire, now: Wire, step: Wire)
        requires
            now.extends(base),
            now.since(base) == step,
        ensures
            now == base.followed_by(step),
    {
        assert(now.sent =~= base.sent + step.sent);
        assert(now.received =~= base.received + step.received);
    }

    /// A wire that has grown from `base` by `first` and then by `step` has
    /// grown from `base` by both.
    proof fn lemma_steps(base: Wire, mid: Wire, now: Wire, first: Wire, step: Wire)
        requires
            mid == base.followed_by(first),
            now.extends(mid),
            now.since(mid) == step,
        ensures
            now == base.followed_by(first.followed_by(step)),
            now.extends(base),
            now.since(base) == first.followed_by(step),
    {
        Self::lemma_step(mid, now, step);
        base.lemma_followed_twice(first, step);
        base.lemma_followed(first.followed_by(step));
    }
}

/// A read of memory ends in [`Error::InvalidArgument`] exactly where more
/// than 65535 bytes are asked for, and then the interface, its channel and
/// its record of the wire are what they were: nothing has been transmitted.
pub proof fn refused_memory_read<P: Port, L: From<Payload<N>>, const N: usize>(
    before: Interface<P>,
    after: Interface<P>,
    addr: u32,
    r: Result<L, Error<P::Error>>,
)
    requires
        before.memory_read::<L, N>(after, addr, r),
    ensures
        r == Err::<L, Error<P::Error>>(Error::InvalidArgument) <==> N > 0xffff,
        r == Err::<L, Error<P::Error>>(Error::InvalidArgument) ==> after == before,
{
    if N <= 0xffff {
        let x = Exchange::memory(Command::ReadMemory, addr, N as nat, Seq::empty(), N as nat);
        invalid_argument_has_no_dialogue::<P::Error>(
            x,
            before.chunk_size(),
            before.dummy_bytes(),
            after.wire().since(before.wire()),
        );
    }
}

/// A read of the EEPROM ends in [`Error::InvalidArgument`] exactly where more
/// than 255 bytes are asked for, and then nothing has been transmitted.
pub proof fn refused_eeprom_read<P: Port, L: From<Payload<N>>, const N: usize>(
    before: Interface<P>,
    after: Interface<P>,
    addr: u16,
    r: Result<L, Error<P::Error>>,
)
    requires
        before.eeprom_read::<L, N>(after, addr, r),
    ensures
        r == Err::<L, Error<P::Error>>(Error::InvalidArgument) <==> N > 0xff,
        r == Err::<L, Error<P::Error>>(Error::InvalidArgument) ==> after == before,
{
    if N <= 0xff {
        let x = Exchange::query(Command::ReadEeprom, addr, N as u8, N as nat);
        invalid_argument_has_no_dialogue::<P::Error>(
            x,
            before.chunk_size(),
            before.dummy_bytes(),
            after.wire().since(before.wire()),
        );
    }
}

/// A write to memory ends in [`Error::InvalidArgument`] exactly where more
/// than 65535 bytes are to be written, and then nothing has been
/// transmitted.
pub proof fn refused_memory_write<P: Port, const N: usize>(
    before: Interface<P>,
    after: Interface<P>,
    addr: u32,
    data: Seq<u8>,
    r: Result<(), Error<P::Error>>,
)
    requires
        before.memory_written::<N>(after, addr, data, r),
    ensures
        r == Err::<(), Error<P::Error>>(Error::InvalidArgument) <==> N > 0xffff,
        r == Err::<(), Error<P::Error>>(Error::InvalidArgument) ==> after == before,
{
    if N <= 0xffff {
        let x = Exchange::memory(Command::WriteMemory, addr, N as nat, data, 0);
        invalid_argument_has_no_dialogue::<P::Error>(
            x,
            before.chunk_size(),
            before.dummy_bytes(),
            after.wire().since(before.wire()),
        );
    }
}

/// A write to the EEPROM ends in [`Error::InvalidArgument`] exactly where
/// more than 255 bytes are to be written, and then nothing has been
/// transmitted.
pub proof fn refused_eeprom_write<P: Port, const N: usize>(
    before: Interface<P>,
    after: Interface<P>,
    addr: u16,
    data: Seq<u8>,
    r: Result<(), Error<P::Error>>,
)
    requires
        before.eeprom_written::<N>(after, addr, data, r),
    ensures
        r == Err::<(), Error<P::Error>>(Error::InvalidArgument) <==> N > 0xff,
        r == Err::<(), Error<P::Error>>(Error::InvalidArgument) ==> after == before,
{
    if N <= 0xff {
        let x = Exchange::store(Command::WriteEeprom, addr, N as u8, data);
        invalid_argument_has_no_dialogue::<P::Error>(
            x,
            before.chunk_size(),
            before.dummy_bytes(),
            after.wire().since(before.wire()),
        );
    }
}

/// A smart home request ends in [`Error::InvalidArgument`] exactly where it
/// carries more than 255 bytes, and then nothing has been transmitted.
pub proof fn refused_smart_home_request<P: Port, const M: usize, const N: usize>(
    before: Interface<P>,
    after: Interface<P>,
    cmd: u16,
    data: Seq<u8>,
    r: Result<Payload<M>, Error<P::Error>>,
)
    requires
        before.smart_home_requested::<M, N>(after, cmd, data, r),
    ensures
        r == Err::<Payload<M>, Error<P::Error>>(Error::InvalidArgument) <==> N > 0xff,
        r == Err::<Payload<M>, Error<P::Error>>(Error::InvalidArgument) ==> after == before,
{
    if N <= 0xff {
        let x = Exchange {
            extension: None,
            request: header(Command::RequestSmartHome, cmd, N as u8),
            data,
            reply: M as nat,
        };
        invalid_argument_has_no_dialogue::<P::Error>(
            x,
            before.chunk_size(),
            before.dummy_bytes(),
            after.wire().since(before.wire()),
        );
    }
}

/// An operation that takes no length never ends in
/// [`Error::InvalidArgument`].
pub proof fn never_refused<P: Port>(
    before: Interface<P>,
    after: Interface<P>,
    x: Exchange,
    r: Result<(), Error<P::Error>>,
)
    requires
        before.performed(after, x, r),
    ensures
        r != Err::<(), Error<P::Error>>(Error::InvalidArgument),
{
    invalid_argument_has_no_dialogue::<P::Error>(
        x,
        before.chunk_size(),
        before.dummy_bytes(),
        after.wire().since(before.wire()),
    );
}

} // verus!
