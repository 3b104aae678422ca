//! A seekable, random-access read-only view over an in-memory byte buffer
//! with little-endian fixed-width primitive decoding.
//!
//! Every read checks the buffer bounds and fails with
//! [`Error::UnexpectedEnd`] when too few bytes remain; a seek never fails,
//! since only a read past the end is an error. The position is a `u64` so
//! that sums of 32-bit offsets taken from the formats can never wrap.

use vstd::prelude::*;

use crate::Error;

verus! {

/// The unsigned 16-bit little-endian value stored at `p`.
pub open spec fn le16(b: Seq<u8>, p: int) -> int {
    b[p] + b[p + 1] * 0x100
}

/// The unsigned 32-bit little-endian value stored at `p`.
pub open spec fn le32(b: Seq<u8>, p: int) -> int {
    b[p] + b[p + 1] * 0x100 + b[p + 2] * 0x10000 + b[p + 3] * 0x1000000
}

/// Reinterprets an unsigned 16-bit value as two's-complement.
pub open spec fn to_signed16(v: int) -> int {
    if v < 0x8000 {
        v
    } else {
        v - 0x10000
    }
}

/// Reinterprets an unsigned 32-bit value as two's-complement.
pub open spec fn to_signed32(v: int) -> int {
    if v < 0x8000_0000 {
        v
    } else {
        v - 0x1_0000_0000
    }
}

/// The signed 16-bit little-endian value stored at `p`.
pub open spec fn le_i16(b: Seq<u8>, p: int) -> int {
    to_signed16(le16(b, p))
}

/// The signed 32-bit little-endian value stored at `p`.
pub open spec fn le_i32(b: Seq<u8>, p: int) -> int {
    to_signed32(le32(b, p))
}

/// A read-only cursor over a byte buffer: the only mutable state of a
/// decode is its current position.
pub struct Cursor<'a> {
    pub data: &'a [u8],
    pub pos: u64,
}

impl<'a> Cursor<'a> {
    pub fn new(data: &'a [u8]) -> (c: Cursor<'a>)
        ensures
            c.data@ == data@,
            c.pos == 0,
    {
        Cursor { data, pos: 0 }
    }

    /// Moves to an absolute position. Seeking past the end is allowed;
    /// only a later read will fail there.
    pub fn seek(&mut self, target: u64)
        ensures
            final(self).data@ == old(self).data@,
            final(self).pos == target,
    {
        self.pos = target;
    }

    /// True when `n` more bytes can be read at the current position.
    pub fn can_read(&self, n: u64) -> (r: bool)
        ensures
            r == (self.pos + n <= self.data@.len()),
    {
        self.pos <= self.data.len() as u64 && n <= self.data.len() as u64 - self.pos
    }

    pub fn read_u8(&mut self) -> (r: Result<u8, Error>)
        ensures
            final(self).data@ == old(self).data@,
            match r {
                Ok(v) => old(self).pos + 1 <= final(self).data@.len() && v == final(self).data@[old(self).pos as int]
                    && final(self).pos == old(self).pos + 1,
                Err(e) => e == Error::UnexpectedEnd && old(self).pos + 1 > final(self).data@.len()
                    && final(self).pos == old(self).pos,
            },
    {
        if self.can_read(1) {
            let b: u8 = self.data[self.pos as usize];
            self.pos = self.pos + 1;
            Ok(b)
        } else {
            Err(Error::UnexpectedEnd)
        }
    }

    pub fn read_u16(&mut self) -> (r: Result<u16, Error>)
        ensures
            final(self).data@ == old(self).data@,
            match r {
                Ok(v) => old(self).pos + 2 <= final(self).data@.len()
                    && v == le16(final(self).data@, old(self).pos as int)
                    && final(self).pos == old(self).pos + 2,
                Err(e) => e == Error::UnexpectedEnd && old(self).pos + 2 > final(self).data@.len()
                    && final(self).pos == old(self).pos,
            },
    {
        if self.can_read(2) {
            let i: usize = self.pos as usize;
            let b0: u16 = self.data[i] as u16;
            let b1: u16 = self.data[i + 1] as u16;
            self.pos = self.pos + 2;
            Ok(b0 + b1 * 0x100)
        } else {
            Err(Error::UnexpectedEnd)
        }
    }

    pub fn read_u32(&mut self) -> (r: Result<u32, Error>)
        ensures
            final(self).data@ == old(self).data@,
            match r {
                Ok(v) => old(self).pos + 4 <= final(self).data@.len()
                    && v == le32(final(self).data@, old(self).pos as int)
                    && final(self).pos == old(self).pos + 4,
                Err(e) => e == Error::UnexpectedEnd && old(self).pos + 4 > final(self).data@.len()
                    && final(self).pos == old(self).pos,
            },
    {
        if self.can_read(4) {
            let i: usize = self.pos as usize;
            let b0: u32 = self.data[i] as u32;
            let b1: u32 = self.data[i + 1] as u32;
            let b2: u32 = self.data[i + 2] as u32;
            let b3: u32 = self.data[i + 3] as u32;
            self.pos = self.pos + 4;
            Ok(b0 + b1 * 0x100 + b2 * 0x10000 + b3 * 0x1000000)
        } else {
            Err(Error::UnexpectedEnd)
        }
    }

    pub fn read_i16(&mut self) -> (r: Result<i16, Error>)
        ensures
            final(self).data@ == old(self).data@,
            match r {
                Ok(v) => old(self).pos + 2 <= final(self).data@.len()
                    && v == le_i16(final(self).data@, old(self).pos as int)
                    && final(self).pos == old(self).pos + 2,
                Err(e) => e == Error::UnexpectedEnd && old(self).pos + 2 > final(self).data@.len()
                    && final(self).pos == old(self).pos,
            },
    {
        match self.read_u16() {
            Ok(v) => {
                if v < 0x8000 {
                    Ok(v as i16)
                } else {
                    Ok((v as i32 - 0x10000) as i16)
                }
            },
            Err(e) => Err(e),
        }
    }

    pub fn read_i32(&mut self) -> (r: Result<i32, Error>)
        ensures
            final(self).data@ == old(self).data@,
            match r {
                Ok(v) => old(self).pos + 4 <= final(self).data@.len()
                    && v == le_i32(final(self).data@, old(self).pos as int)
                    && final(self).pos == old(self).pos + 4,
                Err(e) => e == Error::UnexpectedEnd && old(self).pos + 4 > final(self).data@.len()
                    && final(self).pos == old(self).pos,
            },
    {
        match self.read_u32() {
            Ok(v) => {
                if v < 0x8000_0000 {
                    Ok(v as i32)
                } else {
                    Ok((v as i64 - 0x1_0000_0000) as i32)
                }
            },
            Err(e) => Err(e),
        }
    }

    /// Reads `n` raw bytes, advancing by `n`.
    pub fn read_bytes(&mut self, n: u64) -> (r: Result<Vec<u8>, Error>)
        ensures
            final(self).data@ == old(self).data@,
            match r {
                Ok(v) => old(self).pos + n <= final(self).data@.len()
                    && v@ == final(self).data@.subrange(old(self).pos as int, old(self).pos + n)
                    && final(self).pos == old(self).pos + n,
                Err(e) => e == Error::UnexpectedEnd && old(self).pos + n > final(self).data@.len()
                    && final(self).pos == old(self).pos,
            },
    {
        if !self.can_read(n) {
            return Err(Error::UnexpectedEnd);
        }
        let buf_len: usize = self.data.len();
        assert(self.pos + n <= buf_len);
        let start: u64 = self.pos;
        let mut out: Vec<u8> = Vec::new();
        let mut k: u64 = 0;
        while k < n
            invariant
                0 <= k <= n,
                start + n <= self.data@.len(),
                self.data@.len() <= usize::MAX,
                self.data@ == old(self).data@,
                self.pos == start,
                out@ == self.data@.subrange(start as int, start + k),
            decreases n - k,
        {
            out.push(self.data[(start + k) as usize]);
            proof {
                assert(out@ =~= self.data@.subrange(start as int, start + k + 1));
            }
            k = k + 1;
        }
        self.pos = start + n;
        Ok(out)
    }

    /// Reads `cnt` raw bytes at absolute position `start`, restoring the
    /// cursor position afterwards on every path. `start` is taken in
    /// 128-bit form so that sums of offsets from the formats can never
    /// wrap before the bounds check.
    pub fn read_block(&mut self, start: u128, cnt: u64) -> (r: Result<Vec<u8>, Error>)
        ensures
            final(self).data@ == old(self).data@,
            final(self).pos == old(self).pos,
            match r {
                Ok(v) => start + cnt <= final(self).data@.len() && v@ == final(self).data@.subrange(
                    start as int,
                    start as int + cnt as int,
                ),
                Err(e) => e == Error::UnexpectedEnd && start + cnt > final(self).data@.len(),
            },
    {
        let l: usize = self.data.len();
        if start > u64::MAX as u128 || cnt as u128 > u64::MAX as u128 - start {
            return Err(Error::UnexpectedEnd);
        }
        let s: u64 = start as u64;
        let saved: u64 = self.pos;
        self.seek(s);
        let r = self.read_bytes(cnt);
        self.seek(saved);
        r
    }

    /// Reads the unsigned 16-bit little-endian value at absolute position
    /// `start`, restoring the cursor position afterwards on every path.
    pub fn read_u16_at(&mut self, start: u128) -> (r: Result<u16, Error>)
        ensures
            final(self).data@ == old(self).data@,
            final(self).pos == old(self).pos,
            match r {
                Ok(v) => start + 2 <= final(self).data@.len() && v == le16(
                    final(self).data@,
                    start as int,
                ),
                Err(e) => e == Error::UnexpectedEnd && start + 2 > final(self).data@.len(),
            },
    {
        let l: usize = self.data.len();
        if start > u64::MAX as u128 {
            return Err(Error::UnexpectedEnd);
        }
        let saved: u64 = self.pos;
        self.seek(start as u64);
        let r = self.read_u16();
        self.seek(saved);
        r
    }

    /// Reads the unsigned 32-bit little-endian value at absolute position
    /// `start`, restoring the cursor position afterwards on every path.
    pub fn read_u32_at(&mut self, start: u128) -> (r: Result<u32, Error>)
        ensures
            final(self).data@ == old(self).data@,
            final(self).pos == old(self).pos,
            match r {
                Ok(v) => start + 4 <= final(self).data@.len() && v == le32(
                    final(self).data@,
                    start as int,
                ),
                Err(e) => e == Error::UnexpectedEnd && start + 4 > final(self).data@.len(),
            },
    {
        let l: usize = self.data.len();
        if start > u64::MAX as u128 {
            return Err(Error::UnexpectedEnd);
        }
        let saved: u64 = self.pos;
        self.seek(start as u64);
        let r = self.read_u32();
        self.seek(saved);
        r
    }

    /// Reads the signed 16-bit little-endian value at absolute position
    /// `start`, restoring the cursor position afterwards on every path.
    pub fn read_i16_at(&mut self, start: u128) -> (r: Result<i16, Error>)
        ensures
            final(self).data@ == old(self).data@,
            final(self).pos == old(self).pos,
            match r {
                Ok(v) => start + 2 <= final(self).data@.len() && v == le_i16(
                    final(self).data@,
                    start as int,
                ),
                Err(e) => e == Error::UnexpectedEnd && start + 2 > final(self).data@.len(),
            },
    {
        let l: usize = self.data.len();
        if start > u64::MAX as u128 {
            return Err(Error::UnexpectedEnd);
        }
        let saved: u64 = self.pos;
        self.seek(start as u64);
        let r = self.read_i16();
        self.seek(saved);
        r
    }

    /// Skips `n` bytes of documented padding without interpreting them.
    pub fn skip(&mut self, n: u64)
        requires
            old(self).pos + n <= u64::MAX,
        ensures
            final(self).data@ == old(self).data@,
            final(self).pos == old(self).pos + n,
    {
        self.pos = self.pos + n;
    }
}

} // verus!
