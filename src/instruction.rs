use vstd::prelude::*;

use crate::error::ScheduleError;
use crate::schedule::{DAYS_PER_WEEK, HOURS_PER_DAY};

verus! {

/// Bytes an instruction must hold at least: day, hour and the set flag.
pub const INSTRUCTION_LEN: usize = 3;

/// One validated request: set (or clear) bit `hour` of the mask of `day`.
#[derive(Clone, Copy, Debug, PartialEq, Eq, Structural)]
pub struct Command {
    pub day: usize,
    pub hour: u32,
    pub set: bool,
}

impl Command {
    /// Whether the command addresses an existing day and hour.
    pub open spec fn well_formed(&self) -> bool {
        self.day < DAYS_PER_WEEK && self.hour < HOURS_PER_DAY
    }
}

/// The command that instruction bytes carry: byte 0 is the day (0 to 6),
/// byte 1 the hour (0 to 31), byte 2 the flag (0 clears, anything else sets);
/// later bytes are ignored. `None` where the bytes are too few or a value is
/// out of range.
pub open spec fn parse_spec(ins: Seq<u8>) -> Option<Command> {
    if ins.len() >= 3 && ins[0] < 7 && ins[1] < 32 {
        Some(Command { day: ins[0] as usize, hour: ins[1] as u32, set: ins[2] != 0 })
    } else {
        None
    }
}

impl Command {
    /// Decodes instruction bytes into a command.
    pub fn unpack(data: &[u8]) -> (r: Result<Command, ScheduleError>)
        ensures
            r == match parse_spec(data@) {
                Some(c) => Ok::<Command, ScheduleError>(c),
                None => Err(ScheduleError::InvalidInstruction),
            },
            r matches Ok(c) ==> c.well_formed(),
    {
        if data.len() < INSTRUCTION_LEN {
            return Err(ScheduleError::InvalidInstruction);
        }
        let day = data[0];
        let hour = data[1];
        if day as usize >= DAYS_PER_WEEK || hour as u32 >= HOURS_PER_DAY {
            return Err(ScheduleError::InvalidInstruction);
        }
        Ok(Command { day: day as usize, hour: hour as u32, set: data[2] != 0 })
    }
}

} // verus!
