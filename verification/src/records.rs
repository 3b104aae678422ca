//! The generic record-array decoder: given an offset and a count, decodes
//! `count` fixed-byte-width records in sequence, using a scoped seek so the
//! caller's cursor position is untouched.
//!
//! Each record type describes itself through the [`Record`] trait: its byte
//! width and a specification-level decoding function. The array decoder is
//! verified once against [`spec_records`], the mathematical fold of the
//! per-record specification, for every record type.

use vstd::prelude::*;

use crate::Error;
use crate::cursor::Cursor;

verus! {

/// A fixed-byte-width record that can be decoded at any position of a
/// buffer. `spec_decode` pins the decoded value (through the record's deep
/// view) and the error for every buffer and position; `decode` is proved
/// to return exactly that.
pub trait Record: DeepView + Sized {
    /// The record's byte width in the container.
    spec fn spec_width() -> int;

    /// The record decoded at position `p` of `b`, or the error produced
    /// there.
    spec fn spec_decode(b: Seq<u8>, p: int) -> Result<Self::V, Error>;

    /// The byte width, as a runtime value.
    fn exec_width() -> (w: u64)
        ensures
            w as int == Self::spec_width(),
            w > 0,
    ;

    /// Decodes one record at the cursor's position, advancing by the
    /// record's width on success.
    fn decode(c: &mut Cursor) -> (r: Result<Self, Error>)
        ensures
            final(c).data@ == old(c).data@,
            match r {
                Ok(v) => Self::spec_decode(old(c).data@, old(c).pos as int) == Ok::<Self::V, Error>(
                    v.deep_view(),
                ) && final(c).pos == old(c).pos + Self::spec_width(),
                Err(e) => Self::spec_decode(old(c).data@, old(c).pos as int) == Err::<
                    Self::V,
                    Error,
                >(e),
            },
    ;
}

impl Record for u8 {
    open spec fn spec_width() -> int {
        1
    }

    open spec fn spec_decode(b: Seq<u8>, p: int) -> Result<u8, Error> {
        if p + 1 <= b.len() {
            Ok(b[p])
        } else {
            Err(Error::UnexpectedEnd)
        }
    }

    fn exec_width() -> u64 {
        1
    }

    fn decode(c: &mut Cursor) -> Result<Self, Error> {
        c.read_u8()
    }
}

impl Record for u16 {
    open spec fn spec_width() -> int {
        2
    }

    open spec fn spec_decode(b: Seq<u8>, p: int) -> Result<u16, Error> {
        if p + 2 <= b.len() {
            Ok(crate::cursor::le16(b, p) as u16)
        } else {
            Err(Error::UnexpectedEnd)
        }
    }

    fn exec_width() -> u64 {
        2
    }

    fn decode(c: &mut Cursor) -> Result<Self, Error> {
        c.read_u16()
    }
}

impl Record for u32 {
    open spec fn spec_width() -> int {
        4
    }

    open spec fn spec_decode(b: Seq<u8>, p: int) -> Result<u32, Error> {
        if p + 4 <= b.len() {
            Ok(crate::cursor::le32(b, p) as u32)
        } else {
            Err(Error::UnexpectedEnd)
        }
    }

    fn exec_width() -> u64 {
        4
    }

    fn decode(c: &mut Cursor) -> Result<Self, Error> {
        c.read_u32()
    }
}

impl Record for i16 {
    open spec fn spec_width() -> int {
        2
    }

    open spec fn spec_decode(b: Seq<u8>, p: int) -> Result<i16, Error> {
        if p + 2 <= b.len() {
            Ok(crate::cursor::le_i16(b, p) as i16)
        } else {
            Err(Error::UnexpectedEnd)
        }
    }

    fn exec_width() -> u64 {
        2
    }

    fn decode(c: &mut Cursor) -> Result<Self, Error> {
        c.read_i16()
    }
}

impl Record for i32 {
    open spec fn spec_width() -> int {
        4
    }

    open spec fn spec_decode(b: Seq<u8>, p: int) -> Result<i32, Error> {
        if p + 4 <= b.len() {
            Ok(crate::cursor::le_i32(b, p) as i32)
        } else {
            Err(Error::UnexpectedEnd)
        }
    }

    fn exec_width() -> u64 {
        4
    }

    fn decode(c: &mut Cursor) -> Result<Self, Error> {
        c.read_i32()
    }
}

/// The sequence of `count` records of type `T` decoded from `b` starting
/// at `p`, or the first error met while decoding them in order.
pub open spec fn spec_records<T: Record>(b: Seq<u8>, p: int, count: nat) -> Result<
    Seq<T::V>,
    Error,
>
    decreases count,
{
    if count == 0 {
        Ok(seq![])
    } else {
        match spec_records::<T>(b, p, (count - 1) as nat) {
            Err(e) => Err(e),
            Ok(pre) => match T::spec_decode(b, p + (count - 1) * T::spec_width()) {
                Err(e) => Err(e),
                Ok(v) => Ok(pre.push(v)),
            },
        }
    }
}

/// A record array that decodes cleanly has exactly as many records as
/// were asked for.
pub proof fn lemma_records_len<T: Record>(b: Seq<u8>, p: int, count: nat)
    requires
        spec_records::<T>(b, p, count) is Ok,
    ensures
        spec_records::<T>(b, p, count)->Ok_0.len() == count,
    decreases count,
{
    if count > 0 {
        lemma_records_len::<T>(b, p, (count - 1) as nat);
    }
}

/// A zero-length record array decodes to the empty sequence, never to an
/// error, no matter where its offset points.
pub proof fn lemma_empty_record_array<T: Record>(b: Seq<u8>, p: int)
    ensures
        spec_records::<T>(b, p, 0) == Ok::<Seq<T::V>, Error>(Seq::<T::V>::empty()),
{
    assert(Seq::<T::V>::empty() =~= seq![]);
}

/// When the records up to `k` decode cleanly but record `k` fails, the
/// whole array of any larger count fails with record `k`'s error.
pub proof fn lemma_records_first_error<T: Record>(b: Seq<u8>, p: int, k: nat, count: nat, e: Error)
    requires
        k < count,
        spec_records::<T>(b, p, k) is Ok,
        T::spec_decode(b, p + k * T::spec_width()) == Err::<T::V, Error>(e),
    ensures
        spec_records::<T>(b, p, count) == Err::<Seq<T::V>, Error>(e),
    decreases count,
{
    if count == k + 1 {
    } else {
        lemma_records_first_error::<T>(b, p, k, (count - 1) as nat, e);
    }
}

/// A buffer too short for even the first record yields `UnexpectedEnd`
/// for the whole array, never a truncated or zero-filled record. The
/// premise on `spec_decode` is discharged by each record type whose
/// decoding reads nothing but fixed-width fields.
pub proof fn lemma_records_short_buffer<T: Record>(b: Seq<u8>, p: int, count: nat)
    requires
        count > 0,
        T::spec_decode(b, p) == Err::<T::V, Error>(Error::UnexpectedEnd),
    ensures
        spec_records::<T>(b, p, count) == Err::<Seq<T::V>, Error>(Error::UnexpectedEnd),
{
    assert(p + 0 * T::spec_width() == p);
    lemma_records_first_error::<T>(b, p, 0, count, Error::UnexpectedEnd);
}

/// Decodes `count` records of type `T` starting at absolute offset `off`,
/// restoring the cursor position afterwards on every path.
pub fn decode_records<T: Record>(c: &mut Cursor, off: u64, count: u64) -> (r: Result<
    Vec<T>,
    Error,
>)
    ensures
        final(c).data@ == old(c).data@,
        final(c).pos == old(c).pos,
        match r {
            Ok(v) => spec_records::<T>(old(c).data@, off as int, count as nat) == Ok::<
                Seq<T::V>,
                Error,
            >(v.deep_view()),
            Err(e) => spec_records::<T>(old(c).data@, off as int, count as nat) == Err::<
                Seq<T::V>,
                Error,
            >(e),
        },
{
    let saved: u64 = c.pos;
    c.seek(off);
    let mut out: Vec<T> = Vec::new();
    proof {
        assert(out.deep_view() =~= seq![]);
    }
    let mut k: u64 = 0;
    while k < count
        invariant
            0 <= k <= count,
            saved == old(c).pos,
            c.data@ == old(c).data@,
            c.pos as int == off + k * T::spec_width(),
            out.len() == k,
            spec_records::<T>(c.data@, off as int, k as nat) == Ok::<Seq<T::V>, Error>(
                out.deep_view(),
            ),
        decreases count - k,
    {
        let ghost pre_dv: Seq<T::V> = out.deep_view();
        match T::decode(c) {
            Ok(v) => {
                out.push(v);
                proof {
                    assert(out.deep_view() =~= pre_dv.push(v.deep_view()));
                    assert((k + 1) * T::spec_width() == k * T::spec_width() + T::spec_width())
                        by (nonlinear_arith);
                    assert(spec_records::<T>(c.data@, off as int, (k + 1) as nat) == Ok::<
                        Seq<T::V>,
                        Error,
                    >(out.deep_view()));
                }
                k = k + 1;
            },
            Err(e) => {
                proof {
                    lemma_records_first_error::<T>(c.data@, off as int, k as nat, count as nat, e);
                }
                c.seek(saved);
                return Err(e);
            },
        }
    }
    c.seek(saved);
    Ok(out)
}

} // verus!
