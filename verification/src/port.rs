//! The byte channel that the protocol runs over.
use std::collections::VecDeque;
use vstd::prelude::*;

verus! {

/// Why a read of an exact number of bytes failed.
#[derive(PartialEq, Eq, Debug)]
pub enum ReadExactError<E> {
    /// The channel ended before the requested bytes had arrived.
    UnexpectedEof,
    /// The channel reported an error of its own.
    Other(E),
}

/// A bidirectional byte channel to one appliance.
///
/// The protocol asks two things of a channel: to take exactly so many bytes
/// from it, and to transmit all of some bytes. Whatever else the channel
/// does, and why it fails when it fails, is its own business.
pub trait Port {
    /// The channel's own error.
    type Error;

    /// Takes exactly `len` bytes from the channel, or fails.
    fn read_exact(&mut self, len: usize) -> (r: Result<Vec<u8>, ReadExactError<Self::Error>>)
        ensures
            r matches Ok(data) ==> data@.len() == len,
    ;

    /// Transmits all of `buf`, or fails.
    fn write_all(&mut self, buf: &[u8]) -> (r: Result<(), Self::Error>)
    ;
}

/// The error of a channel that cannot fail. No operation of this crate
/// produces a value of it.
#[derive(PartialEq, Eq, Clone, Copy, Debug)]
pub struct NoError;

/// An in-memory channel: one queue of bytes that is read from the front and
/// written to the back.
///
/// Bytes placed in the queue beforehand play the part of the appliance's
/// replies. Once they are used up, a read takes what was written earlier.
#[derive(Debug)]
pub struct Loopback {
    queue: VecDeque<u8>,
}

impl Loopback {
    /// The bytes that are waiting in the queue, front first.
    pub closed spec fn pending(&self) -> Seq<u8> {
        self.queue@
    }

    /// A channel whose queue holds `incoming`.
    pub fn new(incoming: &[u8]) -> (r: Self)
        ensures
            r.pending() == incoming@,
    {
        let mut queue: VecDeque<u8> = VecDeque::new();
        let mut i: usize = 0;
        while i < incoming.len()
            invariant
                i <= incoming.len(),
                queue@ == incoming@.take(i as int),
            decreases incoming.len() - i,
        {
            queue.push_back(incoming[i]);
            assert(incoming@.take(i as int).push(incoming@[i as int]) =~= incoming@.take(i + 1));
            i += 1;
        }
        assert(incoming@.take(incoming.len() as int) =~= incoming@);
        Loopback { queue }
    }

    /// A copy of the bytes that are waiting in the queue.
    pub fn contents(&self) -> (r: Vec<u8>)
        ensures
            r@ == self.pending(),
    {
        let mut out: Vec<u8> = Vec::new();
        let mut i: usize = 0;
        while i < self.queue.len()
            invariant
                i <= self.queue@.len(),
                out@ == self.queue@.take(i as int),
            decreases self.queue@.len() - i,
        {
            out.push(self.queue[i]);
            assert(self.queue@.take(i as int).push(self.queue@[i as int]) =~= self.queue@.take(
                i + 1,
            ));
            i += 1;
        }
        assert(self.queue@.take(self.queue@.len() as int) =~= self.queue@);
        out
    }
}

impl Port for Loopback {
    type Error = NoError;

    /// Takes `len` bytes from the front of the queue. Where fewer are
    /// waiting, the queue is emptied and the read fails.
    fn read_exact(&mut self, len: usize) -> (r: Result<Vec<u8>, ReadExactError<NoError>>)
        ensures
            match r {
                Ok(data) => {
                    &&& len <= old(self).pending().len()
                    &&& data@ == old(self).pending().take(len as int)
                    &&& final(self).pending() == old(self).pending().skip(len as int)
                },
                Err(e) => {
                    &&& e is UnexpectedEof
                    &&& old(self).pending().len() < len
                    &&& final(self).pending() == Seq::<u8>::empty()
                },
            },
    {
        if self.queue.len() < len {
            self.queue.clear();
            return Err(ReadExactError::UnexpectedEof);
        }
        let ghost before = self.queue@;
        let mut data: Vec<u8> = Vec::new();
        let mut i: usize = 0;
        while i < len
            invariant
                i <= len <= before.len(),
                data@ == before.take(i as int),
                self.queue@ == before.skip(i as int),
            decreases len - i,
        {
            let front = self.queue.pop_front();
            assert(front == Some(before[i as int]));
            data.push(front.unwrap());
            assert(before.take(i as int).push(before[i as int]) =~= before.take(i + 1));
            assert(before.skip(i as int).skip(1) =~= before.skip(i + 1));
            i += 1;
        }
        Ok(data)
    }

    /// Appends `buf` to the back of the queue. This cannot fail.
    fn write_all(&mut self, buf: &[u8]) -> (r: Result<(), NoError>)
        ensures
            r is Ok,
            final(self).pending() == old(self).pending() + buf@,
    {
        let mut i: usize = 0;
        while i < buf.len()
            invariant
                i <= buf.len(),
                self.queue@ == old(self).queue@ + buf@.take(i as int),
            decreases buf.len() - i,
        {
            self.queue.push_back(buf[i]);
            assert((old(self).queue@ + buf@.take(i as int)).push(buf@[i as int]) =~= old(
                self,
            ).queue@ + buf@.take(i + 1));
            i += 1;
        }
        assert(buf@.take(buf.len() as int) =~= buf@);
        Ok(())
    }
}

} // verus!
