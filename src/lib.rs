//! Weekly availability record: seven per-day hour bitmasks stored as a
//! fixed 28-byte little-endian buffer, and the single operation that sets or
//! clears one (day, hour) bit of it on behalf of the owning program.
mod codec;
mod error;
mod instruction;
mod processor;
mod schedule;

pub use codec::{
    decode_spec, encode_spec, le_byte, le_value, lemma_round_trip, RECORD_LEN, SLOT_LEN,
};
pub use error::ScheduleError;
pub use instruction::{parse_spec, Command, INSTRUCTION_LEN};
pub use processor::{
    apply_command, check_owner, process_instruction, same_identity, target_of, Account,
    IDENTITY_LEN,
};
pub use schedule::{
    applied, bit_of, lemma_clear_absent_is_noop, lemma_clear_idempotent, lemma_field_isolation,
    lemma_set_idempotent, lemma_toggle_bits, lemma_toggle_inverse, toggle_bit, toggle_spec,
    WeekSlotAccount, DAYS_PER_WEEK, HOURS_PER_DAY,
};
