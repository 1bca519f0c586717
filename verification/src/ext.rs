//! Extension traits that let any byte channel read and write fixed-width
//! unsigned integers in little-endian order.
//!
//! Blanket implementations give every [`ByteSink`] the write operations and
//! every [`ByteSource`] the read operations.  Reading a 128-bit integer is
//! deliberately not offered: the archive format writes 128-bit fields but
//! never reads them back through this layer.

use crate::channel::{ByteSink, ByteSource, IoError};
use crate::le::{
    le_bytes, le_value, lemma_le_bytes_len, lemma_le_round_trip, lemma_le_value_bound,
    lemma_pow256_values,
};
use vstd::prelude::*;

verus! {

/// Write operations for unsigned integers in little-endian form.
pub trait LittleEndianWriteExt: ByteSink {
    /// Write `input` as two bytes, least significant first.
    fn write_u16_le(&mut self, input: u16) -> (r: Result<(), IoError>)
        ensures
            r is Ok,
            final(self).contents() == old(self).contents() + le_bytes(input as nat, 2),
    ;

    /// Write `input` as four bytes, least significant first.
    fn write_u32_le(&mut self, input: u32) -> (r: Result<(), IoError>)
        ensures
            r is Ok,
            final(self).contents() == old(self).contents() + le_bytes(input as nat, 4),
    ;

    /// Write `input` as eight bytes, least significant first.
    fn write_u64_le(&mut self, input: u64) -> (r: Result<(), IoError>)
        ensures
            r is Ok,
            final(self).contents() == old(self).contents() + le_bytes(input as nat, 8),
    ;

    /// Write `input` as sixteen bytes, least significant first.
    fn write_u128_le(&mut self, input: u128) -> (r: Result<(), IoError>)
        ensures
            r is Ok,
            final(self).contents() == old(self).contents() + le_bytes(input as nat, 16),
    ;
}

impl<W: ByteSink> LittleEndianWriteExt for W {
    fn write_u16_le(&mut self, input: u16) -> (r: Result<(), IoError>) {
        let buf = crate::le::encode_le(input as u128, 2);
        self.write_all_bytes(buf.as_slice())
    }

    fn write_u32_le(&mut self, input: u32) -> (r: Result<(), IoError>) {
        let buf = crate::le::encode_le(input as u128, 4);
        self.write_all_bytes(buf.as_slice())
    }

    fn write_u64_le(&mut self, input: u64) -> (r: Result<(), IoError>) {
        let buf = crate::le::encode_le(input as u128, 8);
        self.write_all_bytes(buf.as_slice())
    }

    fn write_u128_le(&mut self, input: u128) -> (r: Result<(), IoError>) {
        let buf = crate::le::encode_le(input, 16);
        self.write_all_bytes(buf.as_slice())
    }
}

/// Read operations for unsigned integers in little-endian form.
///
/// Each operation consumes exactly the width of the integer on success; on a
/// channel holding fewer bytes it fails with [`IoError::UnexpectedEof`] and
/// consumes nothing.
pub trait LittleEndianReadExt: ByteSource {
    /// Read two bytes and decode them as a little-endian `u16`.
    fn read_u16_le(&mut self) -> (r: Result<u16, IoError>)
        ensures
            r is Ok <==> 2 <= old(self).remaining().len(),
            r matches Ok(v) ==> v as nat == le_value(old(self).remaining().take(2))
                && final(self).remaining() == old(self).remaining().skip(2),
            r is Err ==> r == Err::<u16, IoError>(IoError::UnexpectedEof)
                && final(self).remaining() == old(self).remaining(),
    ;

    /// Read four bytes and decode them as a little-endian `u32`.
    fn read_u32_le(&mut self) -> (r: Result<u32, IoError>)
        ensures
            r is Ok <==> 4 <= old(self).remaining().len(),
            r matches Ok(v) ==> v as nat == le_value(old(self).remaining().take(4))
                && final(self).remaining() == old(self).remaining().skip(4),
            r is Err ==> r == Err::<u32, IoError>(IoError::UnexpectedEof)
                && final(self).remaining() == old(self).remaining(),
    ;

    /// Read eight bytes and decode them as a little-endian `u64`.
    fn read_u64_le(&mut self) -> (r: Result<u64, IoError>)
        ensures
            r is Ok <==> 8 <= old(self).remaining().len(),
            r matches Ok(v) ==> v as nat == le_value(old(self).remaining().take(8))
                && final(self).remaining() == old(self).remaining().skip(8),
            r is Err ==> r == Err::<u64, IoError>(IoError::UnexpectedEof)
                && final(self).remaining() == old(self).remaining(),
    ;
}

impl<R: ByteSource> LittleEndianReadExt for R {
    fn read_u16_le(&mut self) -> (r: Result<u16, IoError>) {
        match self.read_exact_n(2) {
            Ok(buf) => {
                proof {
                    lemma_le_value_bound(buf@);
                    lemma_pow256_values();
                }
                let v = crate::le::decode_le(buf.as_slice());
                Ok(v as u16)
            },
            Err(e) => Err(e),
        }
    }

    fn read_u32_le(&mut self) -> (r: Result<u32, IoError>) {
        match self.read_exact_n(4) {
            Ok(buf) => {
                proof {
                    lemma_le_value_bound(buf@);
                    lemma_pow256_values();
                }
                let v = crate::le::decode_le(buf.as_slice());
                Ok(v as u32)
            },
            Err(e) => Err(e),
        }
    }

    fn read_u64_le(&mut self) -> (r: Result<u64, IoError>) {
        match self.read_exact_n(8) {
            Ok(buf) => {
                proof {
                    lemma_le_value_bound(buf@);
                    lemma_pow256_values();
                }
                let v = crate::le::decode_le(buf.as_slice());
                Ok(v as u64)
            },
            Err(e) => Err(e),
        }
    }
}

/// Width independence: writes of different widths land one after another in
/// the channel, and each matching read consumes exactly the byte count of
/// its own width.  After a `u16`, a `u32` and a `u64` are written to an
/// empty channel in that order, the contents are the three encodings in
/// order; the three reads, issued in the same order, give the three values
/// back and leave the channel empty.
pub proof fn lemma_width_independence(a: u16, b: u32, c: u64)
    ensures
        ({
            let t = le_bytes(a as nat, 2) + le_bytes(b as nat, 4) + le_bytes(c as nat, 8);
            &&& le_value(t.take(2)) == a as nat
            &&& le_value(t.skip(2).take(4)) == b as nat
            &&& le_value(t.skip(2).skip(4).take(8)) == c as nat
            &&& t.skip(2).skip(4).skip(8) == Seq::<u8>::empty()
        }),
{
    let s16 = le_bytes(a as nat, 2);
    let s32 = le_bytes(b as nat, 4);
    let s64 = le_bytes(c as nat, 8);
    lemma_le_bytes_len(a as nat, 2);
    lemma_le_bytes_len(b as nat, 4);
    lemma_le_bytes_len(c as nat, 8);
    let t = s16 + s32 + s64;
    assert(t.take(2) =~= s16);
    assert(t.skip(2).take(4) =~= s32);
    assert(t.skip(2).skip(4).take(8) =~= s64);
    assert(t.skip(2).skip(4).skip(8) =~= Seq::<u8>::empty());
    lemma_pow256_values();
    lemma_le_round_trip(a as nat, 2);
    lemma_le_round_trip(b as nat, 4);
    lemma_le_round_trip(c as nat, 8);
}

} // verus!
