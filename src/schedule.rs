use vstd::prelude::*;

verus! {

/// Days in the week: one hour bitmask per day, index 0 standing for Monday.
pub const DAYS_PER_WEEK: usize = 7;

/// Hours addressable in one day's bitmask: bit `h` flags hour `h`.
pub const HOURS_PER_DAY: u32 = 32;

/// Whether bit `h` of `v` is set.
pub open spec fn bit_of(v: u32, h: u32) -> bool {
    (v >> h) & 1u32 == 1u32
}

/// A day's mask after bit `hour` was set (`set`) or cleared (`!set`).
pub open spec fn toggle_spec(v: u32, hour: u32, set: bool) -> u32 {
    if set {
        v | (1u32 << hour)
    } else {
        v & !(1u32 << hour)
    }
}

/// The week's masks after one toggle of bit `hour` in the mask of `day`.
pub open spec fn applied(slots: Seq<u32>, day: int, hour: u32, set: bool) -> Seq<u32> {
    slots.update(day, toggle_spec(slots[day], hour, set))
}

/// Sets or clears bit `hour` of `v`.
pub fn toggle_bit(v: u32, hour: u32, set: bool) -> (r: u32)
    requires
        hour < HOURS_PER_DAY,
    ensures
        r == toggle_spec(v, hour, set),
{
    let mask: u32 = 1u32 << hour;
    if set {
        v | mask
    } else {
        v & !mask
    }
}

/// Weekly availability record: one 32-bit hour mask per day of the week.
#[derive(Clone, Copy, Debug, PartialEq, Eq)]
pub struct WeekSlotAccount {
    pub slots: [u32; 7],
}

impl View for WeekSlotAccount {
    type V = Seq<u32>;

    open spec fn view(&self) -> Seq<u32> {
        self.slots@
    }
}

impl WeekSlotAccount {
    /// The record of a freshly allocated buffer: no hour of any day is flagged.
    pub fn new() -> (r: WeekSlotAccount)
        ensures
            r@ == Seq::new(7, |i: int| 0u32),
    {
        let r = WeekSlotAccount { slots: [0u32; 7] };
        assert(r@ =~= Seq::new(7, |i: int| 0u32));
        r
    }

    /// The record holding the given masks, Monday first.
    pub fn from_slots(slots: [u32; 7]) -> (r: WeekSlotAccount)
        ensures
            r@ == slots@,
    {
        WeekSlotAccount { slots }
    }

    /// The hour mask of `day`.
    pub fn slot(&self, day: usize) -> (r: u32)
        requires
            day < DAYS_PER_WEEK,
        ensures
            r == self@[day as int],
    {
        self.slots[day]
    }

    /// Whether `hour` of `day` is flagged.
    pub fn is_set(&self, day: usize, hour: u32) -> (r: bool)
        requires
            day < DAYS_PER_WEEK,
            hour < HOURS_PER_DAY,
        ensures
            r == bit_of(self@[day as int], hour),
    {
        (self.slots[day] >> hour) & 1u32 == 1u32
    }

    /// The record with bit `hour` of `day`'s mask set (`set`) or cleared;
    /// the six other masks are copied unchanged.
    pub fn apply(&self, day: usize, hour: u32, set: bool) -> (r: WeekSlotAccount)
        requires
            day < DAYS_PER_WEEK,
            hour < HOURS_PER_DAY,
        ensures
            r@ == applied(self@, day as int, hour, set),
    {
        let mut slots = self.slots;
        let v = toggle_bit(slots[day], hour, set);
        slots[day] = v;
        let r = WeekSlotAccount { slots };
        assert(r@ =~= applied(self@, day as int, hour, set));
        r
    }
}

/// A toggle changes exactly the addressed bit: bit `hour` then equals `set`
/// and every other bit of the mask keeps its value.
pub proof fn lemma_toggle_bits(v: u32, hour: u32, set: bool, h: u32)
    requires
        hour < 32,
        h < 32,
    ensures
        bit_of(toggle_spec(v, hour, set), h) == if h == hour {
            set
        } else {
            bit_of(v, h)
        },
{
    if set {
        assert(((v | (1u32 << hour)) >> h) & 1u32 == 1u32 <==> (if h == hour {
            true
        } else {
            (v >> h) & 1u32 == 1u32
        })) by (bit_vector)
            requires
                hour < 32,
                h < 32,
        ;
    } else {
        assert(((v & !(1u32 << hour)) >> h) & 1u32 == 1u32 <==> (if h == hour {
            false
        } else {
            (v >> h) & 1u32 == 1u32
        })) by (bit_vector)
            requires
                hour < 32,
                h < 32,
        ;
    }
}

/// A toggle of `day` leaves the masks of the six other days as they were.
pub proof fn lemma_field_isolation(slots: Seq<u32>, day: int, hour: u32, set: bool)
    requires
        slots.len() == DAYS_PER_WEEK,
        0 <= day < DAYS_PER_WEEK,
        hour < HOURS_PER_DAY,
    ensures
        applied(slots, day, hour, set).len() == DAYS_PER_WEEK,
        forall|d: int|
            0 <= d < DAYS_PER_WEEK && d != day ==> #[trigger] applied(slots, day, hour, set)[d]
                == slots[d],
{
}

/// Setting a bit twice gives the record that setting it once gives.
pub proof fn lemma_set_idempotent(slots: Seq<u32>, day: int, hour: u32)
    requires
        slots.len() == DAYS_PER_WEEK,
        0 <= day < DAYS_PER_WEEK,
        hour < HOURS_PER_DAY,
    ensures
        applied(applied(slots, day, hour, true), day, hour, true) == applied(
            slots,
            day,
            hour,
            true,
        ),
{
    let v = slots[day];
    assert((v | (1u32 << hour)) | (1u32 << hour) == v | (1u32 << hour)) by (bit_vector);
    assert(applied(applied(slots, day, hour, true), day, hour, true) =~= applied(
        slots,
        day,
        hour,
        true,
    ));
}

/// Clearing a bit twice gives the record that clearing it once gives.
pub proof fn lemma_clear_idempotent(slots: Seq<u32>, day: int, hour: u32)
    requires
        slots.len() == DAYS_PER_WEEK,
        0 <= day < DAYS_PER_WEEK,
        hour < HOURS_PER_DAY,
    ensures
        applied(applied(slots, day, hour, false), day, hour, false) == applied(
            slots,
            day,
            hour,
            false,
        ),
{
    let v = slots[day];
    assert((v & !(1u32 << hour)) & !(1u32 << hour) == v & !(1u32 << hour)) by (bit_vector);
    assert(applied(applied(slots, day, hour, false), day, hour, false) =~= applied(
        slots,
        day,
        hour,
        false,
    ));
}

/// Clearing a bit that is already clear leaves the record unchanged.
pub proof fn lemma_clear_absent_is_noop(slots: Seq<u32>, day: int, hour: u32)
    requires
        slots.len() == DAYS_PER_WEEK,
        0 <= day < DAYS_PER_WEEK,
        hour < HOURS_PER_DAY,
        !bit_of(slots[day], hour),
    ensures
        applied(slots, day, hour, false) == slots,
{
    let v = slots[day];
    assert(!((v >> hour) & 1u32 == 1u32) ==> v & !(1u32 << hour) == v) by (bit_vector)
        requires
            hour < 32,
    ;
    assert(applied(slots, day, hour, false) =~= slots);
}

/// Setting a bit that was clear and then clearing it again restores the
/// record it started from.
pub proof fn lemma_toggle_inverse(slots: Seq<u32>, day: int, hour: u32)
    requires
        slots.len() == DAYS_PER_WEEK,
        0 <= day < DAYS_PER_WEEK,
        hour < HOURS_PER_DAY,
        !bit_of(slots[day], hour),
    ensures
        applied(applied(slots, day, hour, true), day, hour, false) == slots,
{
    let v = slots[day];
    assert(!((v >> hour) & 1u32 == 1u32) ==> (v | (1u32 << hour)) & !(1u32 << hour) == v)
        by (bit_vector)
        requires
            hour < 32,
    ;
    assert(applied(applied(slots, day, hour, true), day, hour, false) =~= slots);
}

} // verus!
