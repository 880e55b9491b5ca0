use vstd::prelude::*;

use crate::codec::{decode_spec, encode_spec, RECORD_LEN};
use crate::error::ScheduleError;
use crate::instruction::{parse_spec, Command};
use crate::schedule::{applied, WeekSlotAccount};

verus! {

/// Bytes of a program or owner identity.
pub const IDENTITY_LEN: usize = 32;

/// An account handed to an invocation: the identity of the program that owns
/// it and its stored bytes.
#[derive(Debug)]
pub struct Account {
    pub owner: [u8; 32],
    pub data: Vec<u8>,
}

/// Whether two identities are the same.
pub fn same_identity(a: &[u8; 32], b: &[u8; 32]) -> (r: bool)
    ensures
        r == (a@ == b@),
{
    let mut i: usize = 0;
    while i < IDENTITY_LEN
        invariant
            i <= IDENTITY_LEN,
            a@.len() == IDENTITY_LEN,
            b@.len() == IDENTITY_LEN,
            forall|k: int| 0 <= k < i ==> a@[k] == b@[k],
        decreases IDENTITY_LEN - i,
    {
        if a[i] != b[i] {
            return false;
        }
        i = i + 1;
    }
    assert(a@ =~= b@);
    true
}

/// The target of an invocation is the first account handed to it.
pub open spec fn target_of(accounts: Seq<Account>) -> Account
    recommends
        accounts.len() > 0,
{
    accounts[0]
}

/// Admits the invocation only where a target account is present and owned
/// by `program_id`.
pub fn check_owner(program_id: &[u8; 32], accounts: &Vec<Account>) -> (r: Result<
    (),
    ScheduleError,
>)
    ensures
        accounts@.len() == 0 ==> r == Err::<(), ScheduleError>(ScheduleError::MissingAccount),
        accounts@.len() > 0 && target_of(accounts@).owner@ != program_id@ ==> r == Err::<
            (),
            ScheduleError,
        >(ScheduleError::Unauthorized),
        accounts@.len() > 0 && target_of(accounts@).owner@ == program_id@ ==> r == Ok::<
            (),
            ScheduleError,
        >(()),
{
    if accounts.len() == 0 {
        return Err(ScheduleError::MissingAccount);
    }
    if !same_identity(&accounts[0].owner, program_id) {
        return Err(ScheduleError::Unauthorized);
    }
    Ok(())
}

/// Applies `cmd` to the record stored in `target`: decodes it, toggles the
/// addressed bit and writes the encoding back over the same bytes. A buffer
/// that is not exactly one record long is left untouched.
pub fn apply_command(target: &mut Account, cmd: Command) -> (r: Result<(), ScheduleError>)
    requires
        cmd.well_formed(),
    ensures
        old(target).data@.len() != RECORD_LEN ==> r == Err::<(), ScheduleError>(
            ScheduleError::CorruptState,
        ) && *final(target) == *old(target),
        old(target).data@.len() == RECORD_LEN ==> r == Ok::<(), ScheduleError>(())
            && final(target).owner == old(target).owner && final(target).data@ == encode_spec(
            applied(decode_spec(old(target).data@), cmd.day as int, cmd.hour, cmd.set),
        ),
{
    let record = match WeekSlotAccount::try_from_slice(target.data.as_slice()) {
        Ok(rec) => rec,
        Err(e) => {
            return Err(e);
        },
    };
    let updated = record.apply(cmd.day, cmd.hour, cmd.set);
    let written = updated.serialize(&mut target.data);
    assert(target.data@ =~= encode_spec(updated@));
    written
}

/// Runs one invocation: decodes the instruction, checks that the first
/// account is owned by `program_id`, and toggles the addressed bit of the
/// record that account stores. On any error no account is changed.
pub fn process_instruction(
    program_id: &[u8; 32],
    accounts: &mut Vec<Account>,
    instruction_data: &[u8],
) -> (r: Result<(), ScheduleError>)
    ensures
        parse_spec(instruction_data@) is None ==> r == Err::<(), ScheduleError>(
            ScheduleError::InvalidInstruction,
        ),
        parse_spec(instruction_data@) is Some && old(accounts)@.len() == 0 ==> r == Err::<
            (),
            ScheduleError,
        >(ScheduleError::MissingAccount),
        parse_spec(instruction_data@) is Some && old(accounts)@.len() > 0 && target_of(
            old(accounts)@,
        ).owner@ != program_id@ ==> r == Err::<(), ScheduleError>(ScheduleError::Unauthorized),
        parse_spec(instruction_data@) is Some && old(accounts)@.len() > 0 && target_of(
            old(accounts)@,
        ).owner@ == program_id@ && target_of(old(accounts)@).data@.len() != RECORD_LEN ==> r
            == Err::<(), ScheduleError>(ScheduleError::CorruptState),
        parse_spec(instruction_data@) is Some && old(accounts)@.len() > 0 && target_of(
            old(accounts)@,
        ).owner@ == program_id@ && target_of(old(accounts)@).data@.len() == RECORD_LEN ==> r is Ok,
        r is Err ==> final(accounts)@ == old(accounts)@,
        r is Ok ==> parse_spec(instruction_data@) is Some && old(accounts)@.len() > 0
            && target_of(old(accounts)@).owner@ == program_id@ && target_of(
            old(accounts)@,
        ).data@.len() == RECORD_LEN,
        r matches Ok(_) ==> ({
            let cmd = parse_spec(instruction_data@)->Some_0;
            let before = target_of(old(accounts)@);
            let after = target_of(final(accounts)@);
            &&& final(accounts)@.len() == old(accounts)@.len()
            &&& after.owner == before.owner
            &&& after.data@ == encode_spec(
                applied(decode_spec(before.data@), cmd.day as int, cmd.hour, cmd.set),
            )
            &&& forall|i: int|
                1 <= i < old(accounts)@.len() ==> #[trigger] final(accounts)@[i] == old(
                    accounts,
                )@[i]
        }),
{
    let cmd = match Command::unpack(instruction_data) {
        Ok(c) => c,
        Err(e) => {
            return Err(e);
        },
    };
    match check_owner(program_id, accounts) {
        Ok(()) => {},
        Err(e) => {
            return Err(e);
        },
    }
    apply_command(&mut accounts[0], cmd)
}

} // verus!
