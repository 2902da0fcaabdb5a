//! What the drivers share: reads that are decoded, the write of one byte,
//! and the unlock sequence.
use crate::command::{Command, Error as ProtocolError};
use crate::device::Error;
use crate::interface::Interface;
use crate::payload::Payload;
use crate::port::Port;
use crate::wire::{Exchange, Wire};
use vstd::prelude::*;

verus! {

/// A value read from memory that has a meaning, or the error for one that
/// has none.
pub open spec fn known<T, E>(decoded: Option<T>) -> Result<T, Error<E>> {
    match decoded {
        Some(value) => Ok(value),
        None => Err(Error::UnexpectedMemoryValue),
    }
}

/// Turns a value read from memory that may have no meaning into a result.
pub fn require_known<T, E>(decoded: Option<T>) -> (r: Result<T, Error<E>>)
    ensures
        r == known::<T, E>(decoded),
{
    match decoded {
        Some(value) => Ok(value),
        None => Err(Error::UnexpectedMemoryValue),
    }
}

/// A value read from memory that needs no decoding.
pub open spec fn fine<T, E>(value: T) -> Result<T, Error<E>> {
    Ok(value)
}

/// The result of a query with its value wrapped by `wrap`.
pub open spec fn mapped<T, V, E>(r: Result<T, Error<E>>, wrap: spec_fn(T) -> V) -> Result<
    V,
    Error<E>,
> {
    match r {
        Ok(value) => Ok(wrap(value)),
        Err(e) => Err(e),
    }
}

/// The result of an operation of the protocol as the result of an operation
/// of the device.
pub open spec fn lifted<T, E>(r: Result<T, ProtocolError<E>>) -> Result<T, Error<E>> {
    match r {
        Ok(value) => Ok(value),
        Err(e) => Err(Error::Protocol(e)),
    }
}

/// Turns the result of an operation of the protocol into the result of an
/// operation of the device.
pub fn lift<T, E>(r: Result<T, ProtocolError<E>>) -> (out: Result<T, Error<E>>)
    ensures
        out == lifted(r),
{
    match r {
        Ok(value) => Ok(value),
        Err(e) => Err(Error::Protocol(e)),
    }
}

/// Whether a read of `N` bytes of memory at `addr` as an `L`, started in the
/// state `before` of the interface, has ended in the state `after`, and the
/// value read, decoded by `decode`, is `out`. Where the read fails, `out` is
/// that failure.
pub open spec fn memory_decoded<P: Port, L: From<Payload<N>>, T, const N: usize>(
    before: Interface<P>,
    after: Interface<P>,
    addr: u32,
    decode: spec_fn(L) -> Result<T, Error<P::Error>>,
    out: Result<T, Error<P::Error>>,
) -> bool {
    exists|raw: Result<L, ProtocolError<P::Error>>|
        {
            &&& #[trigger] before.memory_read::<L, N>(after, addr, raw)
            &&& out == match raw {
                Ok(value) => decode(value),
                Err(e) => Err(Error::Protocol(e)),
            }
        }
}

/// Whether a read of `N` bytes of the EEPROM at `addr` as an `L`, started in
/// the state `before` of the interface, has ended in the state `after`, and
/// the value read, decoded by `decode`, is `out`. Where the read fails, `out`
/// is that failure.
pub open spec fn eeprom_decoded<P: Port, L: From<Payload<N>>, T, const N: usize>(
    before: Interface<P>,
    after: Interface<P>,
    addr: u16,
    decode: spec_fn(L) -> Result<T, Error<P::Error>>,
    out: Result<T, Error<P::Error>>,
) -> bool {
    exists|raw: Result<L, ProtocolError<P::Error>>|
        {
            &&& #[trigger] before.eeprom_read::<L, N>(after, addr, raw)
            &&& out == match raw {
                Ok(value) => decode(value),
                Err(e) => Err(Error::Protocol(e)),
            }
        }
}

/// Whether a write of the one byte `value` to memory at `addr`, started in
/// the state `before` of the interface, has ended in the state `after` with
/// the result `out`.
pub open spec fn byte_written<P: Port>(
    before: Interface<P>,
    after: Interface<P>,
    addr: u32,
    value: u8,
    out: Result<(), Error<P::Error>>,
) -> bool {
    exists|raw: Result<(), ProtocolError<P::Error>>|
        {
            &&& #[trigger] before.memory_written::<1>(after, addr, seq![value], raw)
            &&& out == lifted(raw)
        }
}

/// An operation without a reply that has succeeded has put its completed
/// dialogue on the wire and has kept the settings of the interface.
pub proof fn lemma_performed<P: Port>(before: Interface<P>, after: Interface<P>, x: Exchange)
    requires
        before.performed(after, x, Ok(())),
    ensures
        before.settled(after),
        after.wire() == before.wire().followed_by(
            x.completed(Seq::empty(), before.chunk_size(), before.dummy_bytes()),
        ),
{
    let step = x.completed(Seq::empty(), before.chunk_size(), before.dummy_bytes());
    assert(after.wire().sent =~= before.wire().sent + step.sent);
    assert(after.wire().received =~= before.wire().received + step.received);
}

/// A write of one byte that has succeeded has put the completed dialogue of
/// a memory write on the wire and has kept the settings of the interface.
pub proof fn lemma_byte_written<P: Port>(
    before: Interface<P>,
    after: Interface<P>,
    addr: u32,
    value: u8,
)
    requires
        byte_written(before, after, addr, value, Ok(())),
    ensures
        before.settled(after),
        after.wire() == before.wire().followed_by(
            Exchange::memory(Command::WriteMemory, addr, 1, seq![value], 0).completed(
                Seq::empty(),
                before.chunk_size(),
                before.dummy_bytes(),
            ),
        ),
{
    lemma_performed(
        before,
        after,
        Exchange::memory(Command::WriteMemory, addr, 1, seq![value], 0),
    );
}

/// Writes one byte to memory.
pub fn write_byte<P: Port>(intf: &mut Interface<P>, addr: u32, value: u8) -> (out: Result<
    (),
    Error<P::Error>,
>)
    requires
        old(intf).wf(),
    ensures
        final(intf).wf(),
        byte_written(*old(intf), *final(intf), addr, value, out),
{
    let raw = intf.write_memory::<u8, 1>(addr, value);
    proof {
        let image: Payload<1> = Payload([value]);
        assert(image@ =~= seq![value]);
        assert((*old(intf)).memory_written::<1>(*intf, addr, seq![value], raw));
    }
    lift(raw)
}

/// What a query of the software ID puts on the wire of a new interface when
/// the appliance answers with `id`: the request, and the two bytes of the ID
/// with the low byte first.
pub open spec fn identifying(id: u16) -> Wire {
    Exchange::query(Command::QuerySoftwareId, 0, 2, 2).completed(
        seq![(id % 256) as u8, (id / 256) as u8],
        4,
        false,
    )
}

/// A new interface that has been told the software ID `id` holds the
/// dialogue of that query and has kept its settings.
pub proof fn lemma_identified<P: Port>(start: Interface<P>, now: Interface<P>, id: u16)
    requires
        start.chunk_size() == 4,
        !start.dummy_bytes(),
        start.wire() == Wire::empty(),
        start.software_id_queried(now, Ok(id)),
    ensures
        now.wf(),
        now.chunk_size() == 4,
        !now.dummy_bytes(),
        now.wire() == identifying(id),
{
    let x = Exchange::query(Command::QuerySoftwareId, 0, 2, 2);
    let raw = choose|raw: Result<Payload<2>, ProtocolError<P::Error>>|
        {
            &&& #[trigger] start.exchanged(now, x, crate::interface::reply_of(raw))
            &&& crate::interface::converted::<u16, P::Error, 2>(raw, Ok(id))
        };
    let reply = raw->Ok_0@;
    assert(reply =~= seq![(id % 256) as u8, (id / 256) as u8]);
    assert(now.wire().sent =~= identifying(id).sent);
    assert(now.wire().received =~= identifying(id).received);
}

/// What the unlock sequence puts on the wire when it succeeds: the command
/// that unlocks read access with `read_key`, the command that unlocks full
/// access with `full_key` and, where the appliance needs one, the write of
/// one byte that ends the sequence.
pub open spec fn unlocking(
    read_key: u16,
    full_key: u16,
    last: Option<(u32, u8)>,
    chunk: nat,
    dummy: bool,
) -> Wire {
    let keys = Exchange::plain(Command::UnlockReadAccess, read_key, 0).completed(
        Seq::empty(),
        chunk,
        dummy,
    ).followed_by(
        Exchange::plain(Command::UnlockFullAccess, full_key, 0).completed(
            Seq::empty(),
            chunk,
            dummy,
        ),
    );
    match last {
        Some((addr, value)) => keys.followed_by(
            Exchange::memory(Command::WriteMemory, addr, 1, seq![value], 0).completed(
                Seq::empty(),
                chunk,
                dummy,
            ),
        ),
        None => keys,
    }
}

/// Whether the unlock sequence, started in the state `start` of the
/// interface, has ended in the state `after` with the result `r`.
///
/// The steps of the sequence are taken one after the other. The first that
/// fails ends the sequence with its failure.
pub open spec fn unlocked<P: Port>(
    start: Interface<P>,
    after: Interface<P>,
    read_key: u16,
    full_key: u16,
    last: Option<(u32, u8)>,
    r: Result<(), Error<P::Error>>,
) -> bool {
    exists|second: Interface<P>, first: Result<(), ProtocolError<P::Error>>|
        {
            &&& #[trigger] start.performed(
                second,
                Exchange::plain(Command::UnlockReadAccess, read_key, 0),
                first,
            )
            &&& match first {
                Ok(()) => exists|third: Interface<P>, then: Result<(), ProtocolError<P::Error>>|
                    {
                        &&& #[trigger] second.performed(
                            third,
                            Exchange::plain(Command::UnlockFullAccess, full_key, 0),
                            then,
                        )
                        &&& match then {
                            Ok(()) => match last {
                                Some((addr, value)) => byte_written(third, after, addr, value, r),
                                None => after == third && r == Ok::<(), Error<P::Error>>(()),
                            },
                            Err(e) => after == third && r == Err::<(), Error<P::Error>>(
                                Error::Protocol(e),
                            ),
                        }
                    },
                Err(e) => after == second && r == Err::<(), Error<P::Error>>(Error::Protocol(e)),
            }
        }
}

/// An unlock sequence that has succeeded has put its dialogue on the wire
/// and has kept the settings of the interface. One that has failed has
/// failed with the protocol.
pub proof fn lemma_unlocked<P: Port>(
    start: Interface<P>,
    after: Interface<P>,
    read_key: u16,
    full_key: u16,
    last: Option<(u32, u8)>,
    r: Result<(), Error<P::Error>>,
)
    requires
        unlocked(start, after, read_key, full_key, last, r),
    ensures
        start.settled(after),
        r is Err ==> r->Err_0 is Protocol,
        r is Ok ==> after.wire() == start.wire().followed_by(
            unlocking(read_key, full_key, last, start.chunk_size(), start.dummy_bytes()),
        ),
{
    let (second, first) = choose|second: Interface<P>, first: Result<(), ProtocolError<P::Error>>|
        {
            &&& #[trigger] start.performed(
                second,
                Exchange::plain(Command::UnlockReadAccess, read_key, 0),
                first,
            )
            &&& match first {
                Ok(()) => exists|third: Interface<P>, then: Result<(), ProtocolError<P::Error>>|
                    {
                        &&& #[trigger] second.performed(
                            third,
                            Exchange::plain(Command::UnlockFullAccess, full_key, 0),
                            then,
                        )
                        &&& match then {
                            Ok(()) => match last {
                                Some((addr, value)) => byte_written(third, after, addr, value, r),
                                None => after == third && r == Ok::<(), Error<P::Error>>(()),
                            },
                            Err(e) => after == third && r == Err::<(), Error<P::Error>>(
                                Error::Protocol(e),
                            ),
                        }
                    },
                Err(e) => after == second && r == Err::<(), Error<P::Error>>(Error::Protocol(e)),
            }
        };
    if first is Ok {
        let (third, then) = choose|third: Interface<P>, then: Result<(), ProtocolError<P::Error>>|
            {
                &&& #[trigger] second.performed(
                    third,
                    Exchange::plain(Command::UnlockFullAccess, full_key, 0),
                    then,
                )
                &&& match then {
                    Ok(()) => match last {
                        Some((addr, value)) => byte_written(third, after, addr, value, r),
                        None => after == third && r == Ok::<(), Error<P::Error>>(()),
                    },
                    Err(e) => after == third && r == Err::<(), Error<P::Error>>(
                        Error::Protocol(e),
                    ),
                }
            };
        let chunk = start.chunk_size();
        let dummy = start.dummy_bytes();
        let a = Exchange::plain(Command::UnlockReadAccess, read_key, 0).completed(
            Seq::empty(),
            chunk,
            dummy,
        );
        let b = Exchange::plain(Command::UnlockFullAccess, full_key, 0).completed(
            Seq::empty(),
            chunk,
            dummy,
        );
        lemma_performed(start, second, Exchange::plain(Command::UnlockReadAccess, read_key, 0));
        if then is Ok {
            lemma_performed(
                second,
                third,
                Exchange::plain(Command::UnlockFullAccess, full_key, 0),
            );
            start.wire().lemma_followed_twice(a, b);
            match last {
                Some((addr, value)) => {
                    if r is Ok {
                        let c = Exchange::memory(
                            Command::WriteMemory,
                            addr,
                            1,
                            seq![value],
                            0,
                        ).completed(Seq::empty(), chunk, dummy);
                        lemma_byte_written(third, after, addr, value);
                        start.wire().lemma_followed_twice(a.followed_by(b), c);
                    }
                },
                None => {},
            }
        }
    }
}

/// Runs the unlock sequence: unlocks read access, then full access, then
/// writes the byte that ends the sequence where the appliance needs one.
pub fn unlock<P: Port>(
    intf: &mut Interface<P>,
    read_key: u16,
    full_key: u16,
    last: Option<(u32, u8)>,
) -> (r: Result<(), Error<P::Error>>)
    requires
        old(intf).wf(),
    ensures
        final(intf).wf(),
        unlocked(*old(intf), *final(intf), read_key, full_key, last, r),
{
    match intf.unlock_read_access(read_key) {
        Ok(()) => {},
        Err(e) => {
            return Err(Error::Protocol(e));
        },
    }
    match intf.unlock_full_access(full_key) {
        Ok(()) => {},
        Err(e) => {
            return Err(Error::Protocol(e));
        },
    }
    match last {
        Some((addr, value)) => write_byte(intf, addr, value),
        None => Ok(()),
    }
}

} // verus!
