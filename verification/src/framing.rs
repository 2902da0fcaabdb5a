//! Chunks, checksums and the wire image of a payload.
//!
//! A payload crosses the wire in chunks of at most `chunk` bytes. Each chunk
//! is followed by one checksum byte and answered by one acknowledgement byte
//! from the other side.
use vstd::prelude::*;

verus! {

/// The sum of the bytes of `data`.
pub open spec fn byte_sum(data: Seq<u8>) -> nat
    decreases data.len(),
{
    if data.len() == 0 {
        0
    } else {
        byte_sum(data.drop_last()) + data.last() as nat
    }
}

/// The checksum of a chunk: the sum of its bytes modulo 256.
pub open spec fn checksum(data: Seq<u8>) -> u8 {
    (byte_sum(data) % 256) as u8
}

/// The number of chunks that a payload of `len` bytes is split into.
pub open spec fn chunk_count(len: nat, chunk: nat) -> nat {
    if chunk == 0 {
        0
    } else {
        ((len + chunk - 1) / chunk as int) as nat
    }
}

/// Where chunk `i` of a payload of `len` bytes starts. For `i` past the last
/// chunk this is `len`.
pub open spec fn chunk_start(len: nat, chunk: nat, i: nat) -> nat {
    if i * chunk <= len {
        i * chunk
    } else {
        len
    }
}

/// Chunk `i` of `payload`.
pub open spec fn chunk_at(payload: Seq<u8>, chunk: nat, i: nat) -> Seq<u8> {
    payload.subrange(
        chunk_start(payload.len(), chunk, i) as int,
        chunk_start(payload.len(), chunk, i + 1) as int,
    )
}

/// Chunk `i` of `payload` as it crosses the wire: its bytes, then its
/// checksum.
pub open spec fn frame_at(payload: Seq<u8>, chunk: nat, i: nat) -> Seq<u8> {
    chunk_at(payload, chunk, i).push(checksum(chunk_at(payload, chunk, i)))
}

/// The first `count` chunks of `payload` as they cross the wire.
pub open spec fn frames(payload: Seq<u8>, chunk: nat, count: nat) -> Seq<u8>
    decreases count,
{
    if count == 0 {
        Seq::empty()
    } else {
        frames(payload, chunk, (count - 1) as nat) + frame_at(payload, chunk, (count - 1) as nat)
    }
}

/// The wire image of `payload`: every chunk, each followed by its checksum.
pub open spec fn framed(payload: Seq<u8>, chunk: nat) -> Seq<u8> {
    frames(payload, chunk, chunk_count(payload.len(), chunk))
}

/// `count` acknowledgements of success.
pub open spec fn acks(count: nat) -> Seq<u8> {
    Seq::new(count, |i: int| 0u8)
}

/// The payload of `len` bytes that a receiver reassembles from `wire`: it
/// takes chunk after chunk, each with its checksum, and gives up at the first
/// checksum that does not match or when the bytes run out. Nothing may follow
/// the last chunk.
pub open spec fn unframed(wire: Seq<u8>, len: nat, chunk: nat) -> Option<Seq<u8>>
    decreases len,
{
    if len == 0 {
        if wire.len() == 0 {
            Some(Seq::empty())
        } else {
            None
        }
    } else if chunk == 0 {
        None
    } else {
        let m = if chunk <= len {
            chunk
        } else {
            len
        };
        if wire.len() < m + 1 || wire[m as int] != checksum(wire.take(m as int)) {
            None
        } else {
            match unframed(wire.skip(m + 1 as int), (len - m) as nat, chunk) {
                Some(rest) => Some(wire.take(m as int) + rest),
                None => None,
            }
        }
    }
}

/// Computes the checksum of a chunk.
pub fn compute_checksum(data: &[u8]) -> (r: u8)
    ensures
        r == checksum(data@),
        r as nat == byte_sum(data@) % 256,
{
    let mut sum: u8 = 0;
    let mut i: usize = 0;
    while i < data.len()
        invariant
            i <= data.len(),
            sum as nat == byte_sum(data@.take(i as int)) % 256,
        decreases data.len() - i,
    {
        let wide: u16 = sum as u16 + data[i] as u16;
        proof {
            let before = data@.take(i as int);
            let after = data@.take(i + 1);
            assert(after.drop_last() =~= before);
            assert(after.last() == data@[i as int]);
            assert((byte_sum(before) + data@[i as int] as nat) % 256 == ((byte_sum(before) % 256)
                + data@[i as int] as nat) % 256) by {
                vstd::arithmetic::div_mod::lemma_add_mod_noop(
                    byte_sum(before) as int,
                    data@[i as int] as int,
                    256,
                );
                vstd::arithmetic::div_mod::lemma_add_mod_noop(
                    (byte_sum(before) % 256) as int,
                    data@[i as int] as int,
                    256,
                );
                vstd::arithmetic::div_mod::lemma_mod_twice(byte_sum(before) as int, 256);
            }
        }
        sum = (wide % 256) as u8;
        i += 1;
    }
    assert(data@.take(data.len() as int) =~= data@);
    sum
}

/// Frames a payload: cuts it into chunks of `chunk` bytes and puts behind
/// each chunk its checksum.
pub fn frame(payload: &[u8], chunk: usize) -> (r: Vec<u8>)
    requires
        chunk > 0,
    ensures
        r@ == framed(payload@, chunk as nat),
{
    let ghost p = payload@;
    let ghost c = chunk as nat;
    let ghost mut done: nat = 0;
    let total: usize = payload.len();
    let mut wire: Vec<u8> = Vec::new();
    let mut offset: usize = 0;
    proof {
        assert(0 * c == 0) by (nonlinear_arith);
    }
    while offset < total
        invariant
            c == chunk,
            c >= 1,
            p == payload@,
            total == p.len(),
            offset <= total,
            offset == chunk_start(p.len(), c, done),
            offset < total ==> offset == done * c,
            done > 0 ==> (done - 1) * c < p.len(),
            wire@ == frames(p, c, done),
        decreases total - offset,
    {
        let room: usize = total - offset;
        let size: usize = if room > chunk {
            chunk
        } else {
            room
        };
        let end: usize = offset + size;
        let piece = vstd::slice::slice_subrange(payload, offset, end);
        let sum = compute_checksum(piece);
        proof {
            assert((done + 1) * c == done * c + c) by (nonlinear_arith);
            assert(end == chunk_start(p.len(), c, done + 1));
            assert(piece@ == chunk_at(p, c, done));
        }
        wire.extend_from_slice(piece);
        wire.push(sum);
        proof {
            assert(wire@ =~= frames(p, c, done) + piece@.push(sum));
            done = done + 1;
        }
        offset = end;
    }
    proof {
        lemma_chunk_count(p.len(), c, done);
    }
    wire
}

/// Reassembles a payload of `len` bytes from its wire image: takes chunk
/// after chunk, checks the checksum of each, and gives up where one does not
/// match, where the bytes run out, or where bytes are left over.
pub fn unframe(wire: &[u8], len: usize, chunk: usize) -> (r: Option<Vec<u8>>)
    requires
        chunk > 0,
    ensures
        match r {
            Some(payload) => unframed(wire@, len as nat, chunk as nat) == Some(payload@),
            None => unframed(wire@, len as nat, chunk as nat) is None,
        },
{
    let ghost c = chunk as nat;
    let mut payload: Vec<u8> = Vec::new();
    let mut pos: usize = 0;
    let mut left: usize = len;
    assert(wire@.skip(0) =~= wire@);
    while left > 0
        invariant
            c == chunk,
            c >= 1,
            pos <= wire.len(),
            left <= len,
            unframed(wire@, len as nat, c) == match unframed(
                wire@.skip(pos as int),
                left as nat,
                c,
            ) {
                Some(rest) => Some(payload@ + rest),
                None => None,
            },
        decreases left,
    {
        let size: usize = if chunk <= left {
            chunk
        } else {
            left
        };
        let ghost here = wire@.skip(pos as int);
        if wire.len() - pos <= size {
            return None;
        }
        let piece = vstd::slice::slice_subrange(wire, pos, pos + size);
        proof {
            assert(piece@ =~= here.take(size as int));
            assert(here[size as int] == wire@[pos + size]);
            assert(here.skip(size + 1) =~= wire@.skip(pos + size + 1));
        }
        if wire[pos + size] != compute_checksum(piece) {
            return None;
        }
        let ghost before = payload@;
        payload.extend_from_slice(piece);
        proof {
            assert forall|rest: Seq<u8>| before + (piece@ + rest) == payload@ + rest by {
                assert(before + (piece@ + rest) =~= payload@ + rest);
            }
        }
        pos = pos + size + 1;
        left = left - size;
    }
    if pos == wire.len() {
        proof {
            assert(wire@.skip(pos as int) =~= Seq::<u8>::empty());
            assert(payload@ + Seq::<u8>::empty() =~= payload@);
        }
        Some(payload)
    } else {
        None
    }
}

/// The chunk count of a payload that ends exactly where chunk `count` would
/// start.
pub proof fn lemma_chunk_count(len: nat, chunk: nat, count: nat)
    requires
        chunk > 0,
        chunk_start(len, chunk, count) == len,
        count > 0 ==> (count - 1) * chunk < len,
    ensures
        chunk_count(len, chunk) == count,
{
    if count == 0 {
        assert(0 * chunk == 0) by (nonlinear_arith);
        assert(len == 0);
        assert((chunk - 1) / chunk as int == 0) by (nonlinear_arith)
            requires
                chunk > 0,
        ;
    } else {
        assert(len <= count * chunk);
        let x = (len + chunk - 1) as int;
        let d = chunk as int;
        assert(x / d == count) by (nonlinear_arith)
            requires
                d > 0,
                (count - 1) * d < x - d + 1,
                x - d + 1 <= count * d,
        ;
    }
}

/// The frames of the first chunks depend on the bytes of those chunks only.
pub proof fn lemma_frames_of_prefix(a: Seq<u8>, b: Seq<u8>, chunk: nat, count: nat)
    requires
        chunk > 0,
        a.is_prefix_of(b),
        count * chunk <= a.len() || a.len() == b.len(),
    ensures
        frames(a, chunk, count) == frames(b, chunk, count),
    decreases count,
{
    if count > 0 {
        let i = (count - 1) as nat;
        assert(i * chunk <= count * chunk) by (nonlinear_arith)
            requires
                i + 1 == count,
        ;
        assert((i + 1) * chunk == count * chunk);
        lemma_frames_of_prefix(a, b, chunk, i);
        assert(a =~= b.take(a.len() as int));
        assert(chunk_at(a, chunk, i) =~= chunk_at(b, chunk, i));
    }
}

/// The length of the first frames of a payload.
pub proof fn lemma_frames_len(payload: Seq<u8>, chunk: nat, count: nat)
    requires
        chunk > 0,
    ensures
        frames(payload, chunk, count).len() == chunk_start(payload.len(), chunk, count) + count,
    decreases count,
{
    if count > 0 {
        let i = (count - 1) as nat;
        lemma_frames_len(payload, chunk, i);
        assert(i * chunk <= (i + 1) * chunk) by (nonlinear_arith);
    }
}

/// The frames of a payload are its first frame, then the frames of what
/// follows the first chunk.
proof fn lemma_frames_front(payload: Seq<u8>, chunk: nat, count: nat)
    requires
        chunk > 0,
        count > 0,
    ensures
        frames(payload, chunk, count) == frame_at(payload, chunk, 0) + frames(
            payload.skip(chunk_start(payload.len(), chunk, 1) as int),
            chunk,
            (count - 1) as nat,
        ),
    decreases count,
{
    let n = payload.len();
    let m = chunk_start(n, chunk, 1);
    let rest = payload.skip(m as int);
    assert(0 * chunk == 0) by (nonlinear_arith);
    assert(1 * chunk == chunk) by (nonlinear_arith);
    if count == 1 {
        assert(frames(payload, chunk, 0) =~= Seq::<u8>::empty());
        assert(frames(rest, chunk, 0) =~= Seq::<u8>::empty());
        assert(frames(payload, chunk, 1) =~= frame_at(payload, chunk, 0));
        assert(frame_at(payload, chunk, 0) + Seq::<u8>::empty() =~= frame_at(payload, chunk, 0));
    } else {
        let i = (count - 1) as nat;
        lemma_frames_front(payload, chunk, i);
        let j = (i - 1) as nat;
        assert((j + 1) * chunk == j * chunk + chunk) by (nonlinear_arith);
        assert((j + 2) * chunk == j * chunk + chunk + chunk) by (nonlinear_arith);
        assert(i == j + 1 && i + 1 == j + 2);
        assert(chunk_at(rest, chunk, j) =~= chunk_at(payload, chunk, i));
        assert(frames(payload, chunk, count) =~= frame_at(payload, chunk, 0) + frames(
            rest,
            chunk,
            i,
        ));
    }
}

/// A receiver that is given the wire image of a payload reassembles that
/// payload: every checksum matches, since both sides compute it in the same
/// way, and the chunks are put together in the order in which they were
/// cut.
pub proof fn framing_round_trip(payload: Seq<u8>, chunk: nat)
    requires
        chunk > 0,
    ensures
        unframed(framed(payload, chunk), payload.len(), chunk) == Some(payload),
    decreases payload.len(),
{
    let n = payload.len();
    if n == 0 {
        lemma_chunk_count(0, chunk, 0);
        assert(payload =~= Seq::<u8>::empty());
    } else {
        assert(1 * chunk == chunk) by (nonlinear_arith);
        assert(0 * chunk == 0) by (nonlinear_arith);
        let m = chunk_start(n, chunk, 1);
        let count = chunk_count(n, chunk);
        assert(count > 0 && count == chunk_count((n - m) as nat, chunk) + 1) by {
            lemma_chunk_count_step(n, chunk);
        }
        let rest = payload.skip(m as int);
        lemma_frames_front(payload, chunk, count);
        framing_round_trip(rest, chunk);
        let wire = framed(payload, chunk);
        let first = chunk_at(payload, chunk, 0);
        assert(first =~= payload.take(m as int));
        assert(wire == first.push(checksum(first)) + framed(rest, chunk));
        assert(wire.take(m as int) =~= first);
        assert(wire[m as int] == checksum(first));
        assert(wire.skip(m + 1 as int) =~= framed(rest, chunk));
        assert(first + rest =~= payload);
    }
}

/// Taking the first chunk off a payload takes one off its chunk count.
proof fn lemma_chunk_count_step(len: nat, chunk: nat)
    requires
        chunk > 0,
        len > 0,
    ensures
        chunk_count(len, chunk) > 0,
        chunk <= len ==> chunk_count(len, chunk) == chunk_count((len - chunk) as nat, chunk) + 1,
        len < chunk ==> chunk_count(len, chunk) == 1 && chunk_count(0, chunk) == 0,
{
    let d = chunk as int;
    if chunk <= len {
        let x = (len - chunk + chunk - 1) as int;
        assert((x + d) / d == x / d + 1) by (nonlinear_arith)
            requires
                d > 0,
                x >= 0,
        ;
        assert(x / d >= 0) by (nonlinear_arith)
            requires
                d > 0,
                x >= 0,
        ;
    } else {
        let x = (len + chunk - 1) as int;
        assert(x / d == 1) by (nonlinear_arith)
            requires
                d > 0,
                d <= x,
                x < 2 * d,
        ;
        assert((d - 1) / d == 0) by (nonlinear_arith)
            requires
                d > 0,
        ;
    }
}

/// On a link that corrupts nothing, the byte that follows chunk `i` on the
/// wire is the sum of that chunk's bytes modulo 256: the value that the
/// sender appends and the value that the receiver computes and compares.
pub proof fn checksum_follows_chunk(payload: Seq<u8>, chunk: nat, i: nat)
    requires
        chunk > 0,
        i < chunk_count(payload.len(), chunk),
    ensures
        chunk_start(payload.len(), chunk, i + 1) + i < framed(payload, chunk).len(),
        framed(payload, chunk)[chunk_start(payload.len(), chunk, i + 1) + i as int] == checksum(
            chunk_at(payload, chunk, i),
        ),
        checksum(chunk_at(payload, chunk, i)) as nat == byte_sum(chunk_at(payload, chunk, i))
            % 256,
{
    let count = chunk_count(payload.len(), chunk);
    lemma_frames_extend(payload, chunk, i + 1, count);
    lemma_frames_len(payload, chunk, i);
    lemma_frames_len(payload, chunk, i + 1);
    lemma_frames_len(payload, chunk, count);
    let head = frames(payload, chunk, i + 1);
    assert(head.is_prefix_of(framed(payload, chunk)));
    let pos = chunk_start(payload.len(), chunk, i + 1) + i;
    assert(head.len() == pos + 1);
    assert(framed(payload, chunk)[pos as int] == head[pos as int]);
    assert(i * chunk <= (i + 1) * chunk) by (nonlinear_arith);
    assert(head[pos as int] == checksum(chunk_at(payload, chunk, i)));
}

/// The first frames of a payload are a prefix of any longer run of its
/// frames.
pub proof fn lemma_frames_extend(payload: Seq<u8>, chunk: nat, count: nat, more: nat)
    requires
        count <= more,
    ensures
        frames(payload, chunk, count).is_prefix_of(frames(payload, chunk, more)),
    decreases more,
{
    if count < more {
        lemma_frames_extend(payload, chunk, count, (more - 1) as nat);
        let mid = frames(payload, chunk, (more - 1) as nat);
        assert(mid.is_prefix_of(frames(payload, chunk, more)));
        assert(frames(payload, chunk, count) =~= frames(payload, chunk, more).take(
            frames(payload, chunk, count).len() as int,
        ));
    } else {
        assert(frames(payload, chunk, count) =~= frames(payload, chunk, more).take(
            frames(payload, chunk, count).len() as int,
        ));
    }
}

} // verus!
