//! What an operation leaves on the wire.
//!
//! An operation of the protocol is a short dialogue. [`Wire`] records its two
//! directions: the bytes of every write that the channel accepted and the
//! bytes of every read that it answered. The functions of this module say
//! which dialogue belongs to a completed operation and which to one that
//! broke off.
use crate::command::{Command, Error, acknowledged, header};
use crate::framing::{
    acks, checksum, chunk_at, chunk_count, chunk_start, frame_at, framed, frames,
    framing_round_trip, lemma_frames_of_prefix, unframed,
};
use vstd::prelude::*;

verus! {

/// The byte that a dummy run is made of.
pub const DUMMY_BYTE: u8 = 0x00;

/// The number of bytes in a dummy run.
pub const DUMMY_RUN: usize = 4;

/// The bytes that have crossed the wire in each direction, oldest first.
///
/// A write that fails adds nothing to the record, whatever part of it may
/// have left the host, and a read that fails adds nothing either.
pub struct Wire {
    /// From the host to the appliance.
    pub sent: Seq<u8>,
    /// From the appliance to the host.
    pub received: Seq<u8>,
}

impl Wire {
    /// Nothing in either direction.
    pub open spec fn empty() -> Wire {
        Wire { sent: Seq::empty(), received: Seq::empty() }
    }

    /// This dialogue followed by `next`.
    pub open spec fn followed_by(self, next: Wire) -> Wire {
        Wire { sent: self.sent + next.sent, received: self.received + next.received }
    }

    /// Whether this dialogue starts with `earlier`.
    pub open spec fn extends(self, earlier: Wire) -> bool {
        earlier.sent.is_prefix_of(self.sent) && earlier.received.is_prefix_of(self.received)
    }

    /// What this dialogue adds to `earlier`.
    pub open spec fn since(self, earlier: Wire) -> Wire {
        Wire {
            sent: self.sent.skip(earlier.sent.len() as int),
            received: self.received.skip(earlier.received.len() as int),
        }
    }

    /// A dialogue that is continued starts with itself, and what was added is
    /// the continuation.
    pub proof fn lemma_followed(self, next: Wire)
        ensures
            self.followed_by(next).extends(self),
            self.followed_by(next).since(self) == next,
            self.followed_by(Wire::empty()) == self,
            self.extends(self),
            self.since(self) == Wire::empty(),
    {
        assert(self.followed_by(next).sent.skip(self.sent.len() as int) =~= next.sent);
        assert(self.followed_by(next).received.skip(self.received.len() as int) =~= next.received);
        assert(self.followed_by(Wire::empty()).sent =~= self.sent);
        assert(self.followed_by(Wire::empty()).received =~= self.received);
        assert(self.sent.skip(self.sent.len() as int) =~= Seq::<u8>::empty());
        assert(self.received.skip(self.received.len() as int) =~= Seq::<u8>::empty());
    }

    /// Continuations compose.
    pub proof fn lemma_followed_twice(self, a: Wire, b: Wire)
        ensures
            self.followed_by(a).followed_by(b) == self.followed_by(a.followed_by(b)),
    {
        assert(self.followed_by(a).followed_by(b).sent =~= self.followed_by(a.followed_by(b)).sent);
        assert(self.followed_by(a).followed_by(b).received =~= self.followed_by(
            a.followed_by(b),
        ).received);
    }

    /// What a dialogue adds to a continued start is what it adds to the
    /// start, less the continuation.
    pub proof fn lemma_since_followed(self, start: Wire, step: Wire)
        requires
            self.extends(start.followed_by(step)),
        ensures
            self.extends(start),
            self.since(start).extends(step),
            self.since(start).since(step) == self.since(start.followed_by(step)),
    {
        let t = start.followed_by(step);
        lemma_prefix_skip(start.sent, step.sent, self.sent);
        lemma_prefix_skip(start.received, step.received, self.received);
        assert(self.since(start).since(step).sent =~= self.since(t).sent);
        assert(self.since(start).since(step).received =~= self.since(t).received);
    }
}

/// A sequence that starts with `start + low` starts with `start`, and what
/// follows `start` in it starts with `low`.
pub proof fn lemma_prefix_skip(start: Seq<u8>, low: Seq<u8>, actual: Seq<u8>)
    requires
        (start + low).is_prefix_of(actual),
    ensures
        start.is_prefix_of(actual),
        low.is_prefix_of(actual.skip(start.len() as int)),
{
    let whole = start + low;
    let rest = actual.skip(start.len() as int);
    assert(whole.len() == start.len() + low.len());
    assert forall|i: int| 0 <= i < start.len() implies start[i] == actual[i] by {
        assert(whole[i] == actual.subrange(0, whole.len() as int)[i]);
    }
    assert(start =~= actual.subrange(0, start.len() as int));
    assert forall|i: int| 0 <= i < low.len() implies low[i] == rest[i] by {
        assert(whole[start.len() + i] == actual.subrange(0, whole.len() as int)[start.len() + i]);
    }
    assert(low =~= rest.subrange(0, low.len() as int));
}

/// A payload with more than `done` whole chunks before its end has more than
/// `done` chunks.
pub proof fn lemma_chunk_pending(len: nat, chunk: nat, done: nat)
    requires
        chunk > 0,
        done * chunk < len,
    ensures
        done < chunk_count(len, chunk),
        chunk_start(len, chunk, done) == done * chunk,
{
    let x = (len + chunk - 1) as int;
    let d = chunk as int;
    assert(x / d > done) by (nonlinear_arith)
        requires
            d > 0,
            done * d + d <= x,
    ;
}

/// The run of inert bytes that precedes a command where dummy bytes are
/// enabled.
pub open spec fn dummy_run() -> Seq<u8> {
    Seq::new(DUMMY_RUN as nat, |i: int| DUMMY_BYTE)
}

/// What precedes a command: the dummy run where it is enabled, else nothing.
pub open spec fn preamble(dummy: bool) -> Wire {
    Wire {
        sent: if dummy {
            dummy_run()
        } else {
            Seq::empty()
        },
        received: Seq::empty(),
    }
}

/// The dialogue of a payload that is sent and accepted: its chunks go out,
/// each with its checksum, and each is acknowledged.
pub open spec fn sending(payload: Seq<u8>, chunk: nat) -> Wire {
    Wire { sent: framed(payload, chunk), received: acks(chunk_count(payload.len(), chunk)) }
}

/// The dialogue of a payload that is received intact: its chunks come in,
/// each with its checksum, and each is acknowledged.
pub open spec fn receiving(payload: Seq<u8>, chunk: nat) -> Wire {
    Wire { sent: acks(chunk_count(payload.len(), chunk)), received: framed(payload, chunk) }
}

/// The dialogue of a request header that is sent and accepted.
pub open spec fn commanding(request: Seq<u8>, chunk: nat, dummy: bool) -> Wire {
    preamble(dummy).followed_by(sending(request, chunk))
}

/// Whether `w` is the dialogue of a send of `payload` that ended in `e` at
/// chunk `done`, counted from zero.
///
/// The chunks before it went out and were acknowledged. Where the appliance
/// refused the chunk, the chunk and its checksum went out and the refusal is
/// the last byte received. Where the channel ended instead of acknowledging,
/// the chunk and its checksum went out and nothing came back. Where the
/// channel failed, no more than this chunk and its checksum went out.
pub open spec fn send_stopped<E>(
    payload: Seq<u8>,
    chunk: nat,
    done: nat,
    w: Wire,
    e: Error<E>,
) -> bool {
    &&& done < chunk_count(payload.len(), chunk)
    &&& frames(payload, chunk, done).is_prefix_of(w.sent)
    &&& w.sent.is_prefix_of(frames(payload, chunk, done + 1))
    &&& match e {
        Error::IncorrectChecksum => {
            &&& w.sent == frames(payload, chunk, done + 1)
            &&& w.received == acks(done).push(1)
        },
        Error::InvalidCommand => {
            &&& w.sent == frames(payload, chunk, done + 1)
            &&& w.received == acks(done).push(2)
        },
        Error::InvalidResponse => {
            &&& w.sent == frames(payload, chunk, done + 1)
            &&& w.received.len() == done + 1
            &&& w.received.take(done as int) == acks(done)
            &&& w.received[done as int] > 2
        },
        Error::UnexpectedEof => {
            &&& w.sent == frames(payload, chunk, done + 1)
            &&& w.received == acks(done)
        },
        Error::Io(_) => w.received == acks(done),
        Error::InvalidArgument => false,
    }
}

/// Whether `w` is the dialogue of a send of `payload` that ended in `e`.
pub open spec fn send_failed<E>(payload: Seq<u8>, chunk: nat, w: Wire, e: Error<E>) -> bool {
    exists|done: nat| #[trigger] send_stopped(payload, chunk, done, w, e)
}

/// Whether `w` is the dialogue of a receipt of `len` bytes that ended in `e`
/// at chunk `done`, counted from zero, after the bytes `data` had been
/// accepted.
///
/// The chunks before it came in intact and were acknowledged. On a checksum
/// that does not match, the chunk and its checksum were taken and nothing was
/// sent in answer.
pub open spec fn receive_stopped<E>(
    len: nat,
    chunk: nat,
    done: nat,
    data: Seq<u8>,
    w: Wire,
    e: Error<E>,
) -> bool {
    let from = frames(data, chunk, done).len();
    let size = chunk_start(len, chunk, done + 1) - chunk_start(len, chunk, done);
    &&& done < chunk_count(len, chunk)
    &&& data.len() == chunk_start(len, chunk, done)
    &&& frames(data, chunk, done).is_prefix_of(w.received)
    &&& w.received.len() <= from + size + 1
    &&& acks(done).is_prefix_of(w.sent)
    &&& w.sent.is_prefix_of(acks(done + 1))
    &&& match e {
        Error::IncorrectChecksum => {
            &&& w.sent == acks(done)
            &&& w.received.len() == from + size + 1
            &&& w.received[from + size] != checksum(w.received.subrange(from as int, from + size))
        },
        Error::UnexpectedEof => {
            &&& w.sent == acks(done)
            &&& w.received.len() < from + size + 1
        },
        Error::Io(_) => true,
        _ => false,
    }
}

/// Whether `w` is the dialogue of a receipt of `len` bytes that ended in `e`.
pub open spec fn receive_failed<E>(len: nat, chunk: nat, w: Wire, e: Error<E>) -> bool {
    exists|done: nat, data: Seq<u8>| #[trigger] receive_stopped(len, chunk, done, data, w, e)
}

/// Whether `w` is the dialogue of a request header whose sending ended in
/// `e`: in the dummy run, or in the header itself.
pub open spec fn command_failed<E>(
    request: Seq<u8>,
    chunk: nat,
    dummy: bool,
    w: Wire,
    e: Error<E>,
) -> bool {
    ||| {
        &&& dummy
        &&& e is Io
        &&& w.received.len() == 0
        &&& w.sent.is_prefix_of(dummy_run())
    }
    ||| {
        &&& w.extends(preamble(dummy))
        &&& send_failed(request, chunk, w.since(preamble(dummy)), e)
    }
}

/// One operation of the protocol as it appears on the wire: an optional
/// address extension, the request header, the data that follows it, and the
/// length of the reply.
pub struct Exchange {
    /// The header of the address extension that precedes the request.
    pub extension: Option<Seq<u8>>,
    /// The request header.
    pub request: Seq<u8>,
    /// The data sent after the header; empty where the command carries none.
    pub data: Seq<u8>,
    /// The length of the reply; zero where the command has none.
    pub reply: nat,
}

impl Exchange {
    /// A command without data and without a reply.
    pub open spec fn plain(cmd: Command, param: u16, len: u8) -> Exchange {
        Exchange {
            extension: None,
            request: header(cmd, param, len),
            data: Seq::empty(),
            reply: 0,
        }
    }

    /// A command that is answered with `reply` bytes.
    pub open spec fn query(cmd: Command, param: u16, len: u8, reply: nat) -> Exchange {
        Exchange { extension: None, request: header(cmd, param, len), data: Seq::empty(), reply }
    }

    /// A command that is followed by `data`.
    pub open spec fn store(cmd: Command, param: u16, len: u8, data: Seq<u8>) -> Exchange {
        Exchange { extension: None, request: header(cmd, param, len), data, reply: 0 }
    }

    /// A command on `len` bytes of memory at `addr`.
    ///
    /// The header holds the low 16 bits of the address and the low 8 bits of
    /// the length. Where either has more, an address extension with the upper
    /// bits of both goes first.
    pub open spec fn memory(
        cmd: Command,
        addr: u32,
        len: nat,
        data: Seq<u8>,
        reply: nat,
    ) -> Exchange {
        Exchange {
            extension: if addr > 0xffff || len > 0xff {
                Some(header(Command::ExtendAddress, (addr / 65536) as u16, (len / 256) as u8))
            } else {
                None
            },
            request: header(cmd, (addr % 65536) as u16, (len % 256) as u8),
            data,
            reply,
        }
    }

    /// The dialogue of the address extension, if there is one.
    pub open spec fn opening(self, chunk: nat, dummy: bool) -> Wire {
        match self.extension {
            Some(extension) => commanding(extension, chunk, dummy),
            None => Wire::empty(),
        }
    }

    /// The dialogue up to the acceptance of the request header.
    pub open spec fn requested(self, chunk: nat, dummy: bool) -> Wire {
        self.opening(chunk, dummy).followed_by(commanding(self.request, chunk, dummy))
    }

    /// The dialogue up to the acceptance of the data.
    pub open spec fn delivered(self, chunk: nat, dummy: bool) -> Wire {
        self.requested(chunk, dummy).followed_by(sending(self.data, chunk))
    }

    /// The dialogue of the whole operation when it is answered with `reply`.
    pub open spec fn completed(self, reply: Seq<u8>, chunk: nat, dummy: bool) -> Wire {
        self.delivered(chunk, dummy).followed_by(receiving(reply, chunk))
    }

    /// Whether `w` is the dialogue of this operation when it ended in `e`:
    /// in the address extension, in the request header, in the data or in
    /// the reply, with all that goes before completed.
    pub open spec fn failed<E>(self, chunk: nat, dummy: bool, w: Wire, e: Error<E>) -> bool {
        ||| {
            &&& self.extension is Some
            &&& command_failed(self.extension->0, chunk, dummy, w, e)
        }
        ||| {
            &&& w.extends(self.opening(chunk, dummy))
            &&& command_failed(self.request, chunk, dummy, w.since(self.opening(chunk, dummy)), e)
        }
        ||| {
            &&& w.extends(self.requested(chunk, dummy))
            &&& send_failed(self.data, chunk, w.since(self.requested(chunk, dummy)), e)
        }
        ||| {
            &&& w.extends(self.delivered(chunk, dummy))
            &&& receive_failed(self.reply, chunk, w.since(self.delivered(chunk, dummy)), e)
        }
    }
}

/// An address extension goes out with a memory command exactly where the
/// address has more than 16 bits or the length more than 8. It then holds
/// the bits of both above those that the command itself holds, and it goes
/// out before the command. Where there is none, the command is the first
/// thing on the wire.
pub proof fn extension_when_needed(
    cmd: Command,
    addr: u32,
    len: nat,
    data: Seq<u8>,
    reply: nat,
    chunk: nat,
    dummy: bool,
)
    ensures
        Exchange::memory(cmd, addr, len, data, reply).extension is Some <==> addr > 0xffff || len
            > 255,
        addr > 0xffff || len > 255 ==> Exchange::memory(cmd, addr, len, data, reply).opening(
            chunk,
            dummy,
        ) == commanding(
            header(Command::ExtendAddress, (addr / 65536) as u16, (len / 256) as u8),
            chunk,
            dummy,
        ),
        !(addr > 0xffff || len > 255) ==> Exchange::memory(cmd, addr, len, data, reply).opening(
            chunk,
            dummy,
        ) == Wire::empty(),
        Exchange::memory(cmd, addr, len, data, reply).request == header(
            cmd,
            (addr % 65536) as u16,
            (len % 256) as u8,
        ),
{
}

/// The two directions of a transfer mirror each other. What the sender of a
/// payload writes is what its receiver reads, chunk by chunk and checksum by
/// checksum, and what the receiver writes in acknowledgement is what the
/// sender reads. And what the receiver reads reassembles to the payload.
pub proof fn transfer_mirrored(payload: Seq<u8>, chunk: nat)
    requires
        chunk > 0,
    ensures
        sending(payload, chunk).sent == receiving(payload, chunk).received,
        sending(payload, chunk).received == receiving(payload, chunk).sent,
        unframed(receiving(payload, chunk).received, payload.len(), chunk) == Some(payload),
{
    framing_round_trip(payload, chunk);
}

/// No dialogue, however short, belongs to an operation that ended in
/// [`Error::InvalidArgument`]: that error is found before the first byte is
/// written.
pub proof fn invalid_argument_has_no_dialogue<E>(x: Exchange, chunk: nat, dummy: bool, w: Wire)
    ensures
        !x.failed::<E>(chunk, dummy, w, Error::InvalidArgument),
{
}

/// A send in which the channel failed or ran dry has stopped at the chunk
/// that was being sent: `extra` is what went out of that chunk before.
pub proof fn lemma_send_stopped<E>(
    payload: Seq<u8>,
    c: nat,
    done: nat,
    base: Wire,
    now: Wire,
    extra: Seq<u8>,
    e: Error<E>,
)
    requires
        c >= 1,
        done * c < payload.len(),
        now.sent == base.sent + frames(payload, c, done) + extra,
        now.received == base.received + acks(done),
        extra.is_prefix_of(frame_at(payload, c, done)),
        e is Io || (e is UnexpectedEof && extra == frame_at(payload, c, done)),
    ensures
        now.extends(base),
        send_stopped(payload, c, done, now.since(base), e),
{
    lemma_chunk_pending(payload.len(), c, done);
    let head = frames(payload, c, done);
    let got = now.sent.skip(base.sent.len() as int);
    assert(got =~= head + extra);
    assert(head =~= got.subrange(0, head.len() as int));
    assert(frames(payload, c, done + 1) == head + frame_at(payload, c, done));
    assert(got =~= frames(payload, c, done + 1).subrange(0, got.len() as int));
    assert(now.received.skip(base.received.len() as int) =~= acks(done));
    assert(base.sent =~= now.sent.subrange(0, base.sent.len() as int));
    assert(base.received =~= now.received.subrange(0, base.received.len() as int));
}

/// A send in which the appliance refused a chunk has stopped after the
/// refusal.
pub proof fn lemma_send_refused<E>(
    payload: Seq<u8>,
    c: nat,
    done: nat,
    base: Wire,
    now: Wire,
    code: u8,
    e: Error<E>,
)
    requires
        c >= 1,
        done * c < payload.len(),
        now.sent == base.sent + frames(payload, c, done + 1),
        now.received == (base.received + acks(done)).push(code),
        acknowledged::<E>(code) == Err::<(), Error<E>>(e),
    ensures
        now.extends(base),
        send_stopped(payload, c, done, now.since(base), e),
{
    lemma_chunk_pending(payload.len(), c, done);
    let head = frames(payload, c, done);
    let got = now.sent.skip(base.sent.len() as int);
    assert(got =~= frames(payload, c, done + 1));
    assert(head =~= got.subrange(0, head.len() as int));
    let heard = now.received.skip(base.received.len() as int);
    assert(heard =~= acks(done).push(code));
    assert(heard.take(done as int) =~= acks(done));
    assert(base.sent =~= now.sent.subrange(0, base.sent.len() as int));
    assert(base.received =~= now.received.subrange(0, base.received.len() as int));
}

/// The size of the chunk that a receiver takes next.
pub proof fn lemma_receive_size(len: nat, c: nat, done: nat, size: nat)
    requires
        c >= 1,
        done * c < len,
        size == if len - done * c > c {
            c
        } else {
            (len - done * c) as nat
        },
    ensures
        done < chunk_count(len, c),
        chunk_start(len, c, done) == done * c,
        chunk_start(len, c, done + 1) == done * c + size,
        size >= 1,
{
    assert((done + 1) * c == done * c + c) by (nonlinear_arith);
    lemma_chunk_pending(len, c, done);
}

/// A receipt in which a read failed has stopped at the chunk that was being
/// read: `extra` is what had been read of it.
pub proof fn lemma_receive_short<E>(
    len: nat,
    c: nat,
    done: nat,
    data: Seq<u8>,
    base: Wire,
    now: Wire,
    extra: Seq<u8>,
    e: Error<E>,
)
    requires
        c >= 1,
        done * c < len,
        data.len() == done * c,
        now.sent == base.sent + acks(done),
        now.received == base.received + frames(data, c, done) + extra,
        extra.len() <= chunk_start(len, c, done + 1) - chunk_start(len, c, done),
        e is UnexpectedEof || e is Io,
    ensures
        now.extends(base),
        receive_stopped(len, c, done, data, now.since(base), e),
{
    lemma_chunk_pending(len, c, done);
    let head = frames(data, c, done);
    let got = now.received.skip(base.received.len() as int);
    assert(got =~= head + extra);
    assert(head =~= got.subrange(0, head.len() as int));
    assert(now.sent.skip(base.sent.len() as int) =~= acks(done));
    assert(base.sent =~= now.sent.subrange(0, base.sent.len() as int));
    assert(base.received =~= now.received.subrange(0, base.received.len() as int));
    assert(acks(done) =~= acks(done + 1).subrange(0, done as int));
}

/// A receipt in which a checksum did not match has stopped after that
/// checksum.
pub proof fn lemma_receive_mismatch<E>(
    len: nat,
    c: nat,
    done: nat,
    data: Seq<u8>,
    base: Wire,
    now: Wire,
    chunk: Seq<u8>,
    sum: u8,
)
    requires
        c >= 1,
        done * c < len,
        data.len() == done * c,
        chunk.len() == chunk_start(len, c, done + 1) - chunk_start(len, c, done),
        now.sent == base.sent + acks(done),
        now.received == base.received + frames(data, c, done) + chunk.push(sum),
        sum != checksum(chunk),
    ensures
        now.extends(base),
        receive_stopped::<E>(len, c, done, data, now.since(base), Error::IncorrectChecksum),
{
    lemma_chunk_pending(len, c, done);
    let from = frames(data, c, done).len();
    let got = now.received.skip(base.received.len() as int);
    assert(got =~= frames(data, c, done) + chunk.push(sum));
    assert(frames(data, c, done) =~= got.subrange(0, from as int));
    assert(got.subrange(from as int, from + chunk.len() as int) =~= chunk);
    assert(got[from + chunk.len() as int] == sum);
    assert(now.sent.skip(base.sent.len() as int) =~= acks(done));
    assert(base.sent =~= now.sent.subrange(0, base.sent.len() as int));
    assert(base.received =~= now.received.subrange(0, base.received.len() as int));
    assert(acks(done) =~= acks(done + 1).subrange(0, done as int));
}

/// A receipt in which an acknowledgement could not be sent has stopped at
/// the chunk that was to be acknowledged.
pub proof fn lemma_receive_unanswered<E>(
    len: nat,
    c: nat,
    done: nat,
    data: Seq<u8>,
    base: Wire,
    now: Wire,
    chunk: Seq<u8>,
    e: Error<E>,
)
    requires
        c >= 1,
        done * c < len,
        data.len() == done * c,
        chunk.len() == chunk_start(len, c, done + 1) - chunk_start(len, c, done),
        now.sent == base.sent + acks(done),
        now.received == base.received + frames(data, c, done) + chunk.push(checksum(chunk)),
        e is Io,
    ensures
        now.extends(base),
        receive_stopped(len, c, done, data, now.since(base), e),
{
    lemma_chunk_pending(len, c, done);
    let from = frames(data, c, done).len();
    let got = now.received.skip(base.received.len() as int);
    assert(got =~= frames(data, c, done) + chunk.push(checksum(chunk)));
    assert(frames(data, c, done) =~= got.subrange(0, from as int));
    assert(now.sent.skip(base.sent.len() as int) =~= acks(done));
    assert(base.sent =~= now.sent.subrange(0, base.sent.len() as int));
    assert(base.received =~= now.received.subrange(0, base.received.len() as int));
    assert(acks(done) =~= acks(done + 1).subrange(0, done as int));
}

/// A chunk that is accepted adds its frame to the frames accepted before.
pub proof fn lemma_receive_step(len: nat, c: nat, done: nat, data: Seq<u8>, chunk: Seq<u8>)
    requires
        c >= 1,
        done * c < len,
        data.len() == done * c,
        chunk.len() == chunk_start(len, c, done + 1) - chunk_start(len, c, done),
    ensures
        frames(data + chunk, c, done + 1) == frames(data, c, done) + chunk.push(checksum(chunk)),
        acks(done + 1) == acks(done).push(0u8),
        (data + chunk).len() == chunk_start(len, c, done + 1),
        (data + chunk).len() < len ==> (data + chunk).len() == (done + 1) * c,
{
    let whole = data + chunk;
    assert((done + 1) * c == done * c + c) by (nonlinear_arith);
    lemma_chunk_pending(len, c, done);
    assert(data =~= whole.subrange(0, data.len() as int));
    lemma_frames_of_prefix(data, whole, c, done);
    assert(chunk_start(whole.len(), c, done) == done * c);
    assert(chunk_start(whole.len(), c, done + 1) == whole.len());
    assert(chunk_at(whole, c, done) =~= chunk);
    assert(acks(done + 1) =~= acks(done).push(0u8));
}

} // verus!
