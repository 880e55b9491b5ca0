use vstd::prelude::*;

use crate::error::ScheduleError;
use crate::schedule::{WeekSlotAccount, DAYS_PER_WEEK};

verus! {

/// Bytes taken by one encoded day mask.
pub const SLOT_LEN: usize = 4;

/// Bytes taken by an encoded record: seven little-endian `u32` masks, Monday
/// first, with no padding.
pub const RECORD_LEN: usize = 28;

/// The number that four bytes stand for, least significant byte first.
pub open spec fn le_value(b0: u8, b1: u8, b2: u8, b3: u8) -> int {
    b0 + 256 * b1 + 65536 * b2 + 16777216 * b3
}

/// Byte `j` (0 to 3) of `v` in little-endian order.
pub open spec fn le_byte(v: u32, j: int) -> u8 {
    if j == 0 {
        (v % 256) as u8
    } else if j == 1 {
        ((v / 256) % 256) as u8
    } else if j == 2 {
        ((v / 65536) % 256) as u8
    } else {
        ((v / 16777216) % 256) as u8
    }
}

/// The masks that a buffer of `RECORD_LEN` bytes holds, Monday first.
pub open spec fn decode_spec(bytes: Seq<u8>) -> Seq<u32> {
    Seq::new(
        7,
        |i: int|
            le_value(bytes[4 * i], bytes[4 * i + 1], bytes[4 * i + 2], bytes[4 * i + 3]) as u32,
    )
}

/// The `RECORD_LEN` bytes that encode the seven masks `slots`.
pub open spec fn encode_spec(slots: Seq<u32>) -> Seq<u8> {
    Seq::new(28, |k: int| le_byte(slots[k / 4], k % 4))
}

/// Reads the little-endian `u32` that starts at `at`.
fn read_u32_le(data: &[u8], at: usize) -> (r: u32)
    requires
        at + 4 <= data@.len(),
    ensures
        r as int == le_value(
            data@[at as int],
            data@[at + 1],
            data@[at + 2],
            data@[at + 3],
        ),
{
    data[at] as u32 + (data[at + 1] as u32) * 256 + (data[at + 2] as u32) * 65536 + (data[at
        + 3] as u32) * 16777216
}

/// Writes `v` in little-endian order at `at`, leaving every other byte alone.
fn write_u32_le(buf: &mut Vec<u8>, at: usize, v: u32)
    requires
        at + 4 <= old(buf).len(),
    ensures
        final(buf)@.len() == old(buf)@.len(),
        forall|k: int|
            0 <= k < final(buf)@.len() ==> #[trigger] final(buf)@[k] == if at <= k < at + 4 {
                le_byte(v, k - at)
            } else {
                old(buf)@[k]
            },
{
    buf.set(at, (v % 256) as u8);
    buf.set(at + 1, ((v / 256) % 256) as u8);
    buf.set(at + 2, ((v / 65536) % 256) as u8);
    buf.set(at + 3, ((v / 16777216) % 256) as u8);
}

/// The four little-endian bytes of `v` give `v` back.
proof fn lemma_le_round_trip(v: u32)
    ensures
        le_value(le_byte(v, 0), le_byte(v, 1), le_byte(v, 2), le_byte(v, 3)) == v,
{
    assert(v == (v % 256) + 256 * ((v / 256) % 256) + 65536 * ((v / 65536) % 256) + 16777216 * ((v
        / 16777216) % 256)) by (nonlinear_arith);
}

/// Decoding the encoding of any record gives the record back.
pub proof fn lemma_round_trip(r: WeekSlotAccount)
    ensures
        encode_spec(r@).len() == RECORD_LEN,
        decode_spec(encode_spec(r@)) == r@,
{
    let e = encode_spec(r@);
    assert forall|i: int| 0 <= i < 7 implies #[trigger] decode_spec(e)[i] == r@[i] by {
        lemma_le_round_trip(r@[i]);
        assert(e[4 * i] == le_byte(r@[i], 0));
        assert(e[4 * i + 1] == le_byte(r@[i], 1));
        assert(e[4 * i + 2] == le_byte(r@[i], 2));
        assert(e[4 * i + 3] == le_byte(r@[i], 3));
    }
    assert(decode_spec(e) =~= r@);
}

impl WeekSlotAccount {
    /// Decodes a stored buffer; it must hold exactly `RECORD_LEN` bytes.
    pub fn try_from_slice(data: &[u8]) -> (r: Result<WeekSlotAccount, ScheduleError>)
        ensures
            data@.len() == RECORD_LEN ==> (r matches Ok(rec) && rec@ == decode_spec(data@)),
            data@.len() != RECORD_LEN ==> r == Err::<WeekSlotAccount, ScheduleError>(
                ScheduleError::CorruptState,
            ),
    {
        if data.len() != RECORD_LEN {
            return Err(ScheduleError::CorruptState);
        }
        let mut slots = [0u32; 7];
        let mut day: usize = 0;
        while day < DAYS_PER_WEEK
            invariant
                data@.len() == RECORD_LEN,
                day <= DAYS_PER_WEEK,
                forall|i: int| 0 <= i < day ==> slots@[i] == #[trigger] decode_spec(data@)[i],
            decreases DAYS_PER_WEEK - day,
        {
            let v = read_u32_le(data, SLOT_LEN * day);
            slots[day] = v;
            day = day + 1;
        }
        let rec = WeekSlotAccount { slots };
        assert(rec@ =~= decode_spec(data@));
        Ok(rec)
    }

    /// Writes the record over the first `RECORD_LEN` bytes of `buf`; fails,
    /// writing nothing, where `buf` is shorter than that.
    pub fn serialize(&self, buf: &mut Vec<u8>) -> (r: Result<(), ScheduleError>)
        ensures
            old(buf)@.len() < RECORD_LEN ==> r == Err::<(), ScheduleError>(
                ScheduleError::WriteFailure,
            ) && final(buf)@ == old(buf)@,
            old(buf)@.len() >= RECORD_LEN ==> r == Ok::<(), ScheduleError>(()) && final(buf)@
                == encode_spec(self@) + old(buf)@.subrange(RECORD_LEN as int, old(buf)@.len() as int),
    {
        if buf.len() < RECORD_LEN {
            return Err(ScheduleError::WriteFailure);
        }
        let mut day: usize = 0;
        while day < DAYS_PER_WEEK
            invariant
                buf@.len() == old(buf)@.len(),
                old(buf)@.len() >= RECORD_LEN,
                day <= DAYS_PER_WEEK,
                forall|k: int|
                    0 <= k < buf@.len() ==> #[trigger] buf@[k] == if k < 4 * day {
                        encode_spec(self@)[k]
                    } else {
                        old(buf)@[k]
                    },
            decreases DAYS_PER_WEEK - day,
        {
            write_u32_le(buf, SLOT_LEN * day, self.slots[day]);
            day = day + 1;
        }
        assert(buf@ =~= encode_spec(self@) + old(buf)@.subrange(
            RECORD_LEN as int,
            old(buf)@.len() as int,
        ));
        Ok(())
    }

    /// The `RECORD_LEN` bytes that encode the record.
    pub fn to_bytes(&self) -> (r: Vec<u8>)
        ensures
            r@ == encode_spec(self@),
    {
        let mut buf: Vec<u8> = vec![0u8; RECORD_LEN];
        let _ = self.serialize(&mut buf);
        assert(buf@ =~= encode_spec(self@));
        buf
    }
}

} // verus!
