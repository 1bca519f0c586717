//! Byte channels: capabilities for sequential byte output and input.
//!
//! A channel is owned by the caller; an operation borrows it, transfers its
//! bytes, and hands it back.  The traits model reliable channels whose whole
//! behaviour is determined by the byte stream they hold, as the in-memory
//! channel of this crate is; a source that runs out of bytes surfaces the
//! short-input condition as [`IoError::UnexpectedEof`].

use vstd::prelude::*;

verus! {

/// Failure of a channel operation.
#[derive(Clone, Copy, Debug, PartialEq, Eq, Structural)]
pub enum IoError {
    /// Fewer bytes were available than the requested fixed width.
    UnexpectedEof,
}

/// A sequential byte sink: accepts bytes and appends them to the stream it
/// holds.
pub trait ByteSink: Sized {
    /// The bytes the sink holds, in the order they were written.
    spec fn contents(&self) -> Seq<u8>;

    /// Append the whole of `buf` to the sink as one logical write.
    fn write_all_bytes(&mut self, buf: &[u8]) -> (r: Result<(), IoError>)
        ensures
            r is Ok,
            final(self).contents() == old(self).contents() + buf@,
    ;
}

/// A sequential byte source: yields the bytes it holds, in order, from the
/// front.
pub trait ByteSource: Sized {
    /// The bytes not yet read, in the order they will be produced.
    spec fn remaining(&self) -> Seq<u8>;

    /// Read exactly `n` bytes, or fail without consuming anything when fewer
    /// than `n` remain.
    fn read_exact_n(&mut self, n: usize) -> (r: Result<Vec<u8>, IoError>)
        ensures
            r is Ok <==> n <= old(self).remaining().len(),
            r matches Ok(buf) ==> buf@ == old(self).remaining().take(n as int)
                && final(self).remaining() == old(self).remaining().skip(n as int),
            r is Err ==> r == Err::<Vec<u8>, IoError>(IoError::UnexpectedEof)
                && final(self).remaining() == old(self).remaining(),
    ;
}

/// An in-memory byte channel: a queue that yields bytes in the order they
/// were written.
pub struct MemChannel {
    data: Vec<u8>,
}

impl MemChannel {
    /// An empty channel.
    pub fn new() -> (r: Self)
        ensures
            r.remaining() == Seq::<u8>::empty(),
            r.contents() == Seq::<u8>::empty(),
    {
        MemChannel { data: Vec::new() }
    }

    /// A channel already holding `data`, front byte first.
    pub fn from_bytes(data: Vec<u8>) -> (r: Self)
        ensures
            r.remaining() == data@,
            r.contents() == data@,
    {
        MemChannel { data }
    }

    /// How many bytes the channel still holds.
    pub fn len(&self) -> (r: usize)
        ensures
            r == self.remaining().len(),
    {
        self.data.len()
    }

    /// Hand the held bytes out, front byte first.
    pub fn into_bytes(self) -> (r: Vec<u8>)
        ensures
            r@ == self.remaining(),
            r@ == self.contents(),
    {
        self.data
    }
}

/// Writing and reading go through one queue: what the writes have left in
/// an in-memory channel is exactly what the reads will consume.
pub proof fn lemma_mem_channel_queue(ch: &MemChannel)
    ensures
        ch.contents() == ch.remaining(),
{
}

impl ByteSink for MemChannel {
    closed spec fn contents(&self) -> Seq<u8> {
        self.data@
    }

    fn write_all_bytes(&mut self, buf: &[u8]) -> (r: Result<(), IoError>) {
        let ghost orig: Seq<u8> = self.data@;
        let mut k: usize = 0;
        while k < buf.len()
            invariant
                k <= buf@.len(),
                self.data@ == orig + buf@.take(k as int),
            decreases buf@.len() - k,
        {
            let b: u8 = buf[k];
            proof {
                assert((orig + buf@.take(k as int)).push(b) =~= orig + buf@.take(k + 1));
            }
            self.data.push(b);
            k = k + 1;
        }
        proof {
            assert(orig + buf@.take(buf@.len() as int) =~= orig + buf@);
        }
        Ok(())
    }
}

impl ByteSource for MemChannel {
    closed spec fn remaining(&self) -> Seq<u8> {
        self.data@
    }

    fn read_exact_n(&mut self, n: usize) -> (r: Result<Vec<u8>, IoError>) {
        if n > self.data.len() {
            return Err(IoError::UnexpectedEof);
        }
        let ghost orig: Seq<u8> = self.data@;
        let mut out: Vec<u8> = Vec::new();
        let mut k: usize = 0;
        while k < n
            invariant
                k <= n <= orig.len(),
                out@ == orig.take(k as int),
                self.data@ == orig.skip(k as int),
            decreases n - k,
        {
            let b: u8 = self.data.remove(0);
            proof {
                assert(orig.skip(k as int).remove(0) =~= orig.skip(k + 1));
                assert(orig.take(k as int).push(orig[k as int]) =~= orig.take(k + 1));
            }
            out.push(b);
            k = k + 1;
        }
        Ok(out)
    }
}

} // verus!
