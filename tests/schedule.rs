use weekslot::{
    apply_command, check_owner, process_instruction, same_identity, toggle_bit, Account, Command,
    ScheduleError, WeekSlotAccount, RECORD_LEN,
};

const PROGRAM: [u8; 32] = [7u8; 32];
const STRANGER: [u8; 32] = [9u8; 32];

fn account(owner: [u8; 32], data: Vec<u8>) -> Account {
    Account { owner, data }
}

fn zero_account() -> Account {
    account(PROGRAM, vec![0u8; RECORD_LEN])
}

fn stored(acc: &Account) -> WeekSlotAccount {
    WeekSlotAccount::try_from_slice(&acc.data).unwrap()
}

#[test]
fn scenario_set_then_clear_hour_five_of_day_two() {
    let mut accounts = vec![zero_account()];
    assert_eq!(process_instruction(&PROGRAM, &mut accounts, &[2, 5, 1]), Ok(()));
    let rec = stored(&accounts[0]);
    assert_eq!(rec.slots, [0, 0, 32, 0, 0, 0, 0]);
    assert_eq!(accounts[0].data[8], 32);
    assert_eq!(process_instruction(&PROGRAM, &mut accounts, &[2, 5, 0]), Ok(()));
    assert_eq!(stored(&accounts[0]).slots, [0u32; 7]);
    assert_eq!(accounts[0].data, vec![0u8; RECORD_LEN]);
}

#[test]
fn hour_thirty_one_is_accepted() {
    let mut accounts = vec![zero_account()];
    assert_eq!(process_instruction(&PROGRAM, &mut accounts, &[6, 31, 1]), Ok(()));
    assert_eq!(stored(&accounts[0]).slots, [0, 0, 0, 0, 0, 0, 1u32 << 31]);
    assert_eq!(&accounts[0].data[24..28], &[0, 0, 0, 0x80]);
}

#[test]
fn hour_thirty_two_is_rejected() {
    let mut accounts = vec![zero_account()];
    assert_eq!(
        process_instruction(&PROGRAM, &mut accounts, &[0, 32, 1]),
        Err(ScheduleError::InvalidInstruction)
    );
    assert_eq!(accounts[0].data, vec![0u8; RECORD_LEN]);
    assert_eq!(Command::unpack(&[0, 32, 1]), Err(ScheduleError::InvalidInstruction));
    assert_eq!(Command::unpack(&[0, 255, 1]), Err(ScheduleError::InvalidInstruction));
}

#[test]
fn day_seven_is_rejected() {
    assert_eq!(Command::unpack(&[7, 0, 1]), Err(ScheduleError::InvalidInstruction));
    assert_eq!(
        Command::unpack(&[6, 0, 0]),
        Ok(Command { day: 6, hour: 0, set: false })
    );
}

#[test]
fn short_instructions_are_rejected() {
    let before = vec![1u8; RECORD_LEN];
    for ins in [&[][..], &[1][..], &[1, 2][..]] {
        let mut accounts = vec![account(PROGRAM, before.clone())];
        assert_eq!(
            process_instruction(&PROGRAM, &mut accounts, ins),
            Err(ScheduleError::InvalidInstruction)
        );
        assert_eq!(accounts[0].data, before);
    }
}

#[test]
fn extra_instruction_bytes_are_ignored() {
    assert_eq!(
        Command::unpack(&[3, 4, 200, 9, 9]),
        Ok(Command { day: 3, hour: 4, set: true })
    );
}

#[test]
fn foreign_owner_is_unauthorized_and_untouched() {
    let before: Vec<u8> = (0u8..28).collect();
    let mut accounts = vec![account(STRANGER, before.clone())];
    assert_eq!(
        process_instruction(&PROGRAM, &mut accounts, &[1, 1, 1]),
        Err(ScheduleError::Unauthorized)
    );
    assert_eq!(accounts[0].data, before);
    assert_eq!(accounts[0].owner, STRANGER);
}

#[test]
fn missing_account_is_reported() {
    let mut accounts: Vec<Account> = Vec::new();
    assert_eq!(
        process_instruction(&PROGRAM, &mut accounts, &[1, 1, 1]),
        Err(ScheduleError::MissingAccount)
    );
    assert_eq!(check_owner(&PROGRAM, &accounts), Err(ScheduleError::MissingAccount));
}

#[test]
fn wrong_length_buffer_is_corrupt() {
    for len in [0usize, 27, 29] {
        let mut accounts = vec![account(PROGRAM, vec![0u8; len])];
        assert_eq!(
            process_instruction(&PROGRAM, &mut accounts, &[1, 1, 1]),
            Err(ScheduleError::CorruptState)
        );
        assert_eq!(accounts[0].data, vec![0u8; len]);
    }
}

#[test]
fn only_the_first_account_changes() {
    let mut accounts = vec![zero_account(), zero_account()];
    assert_eq!(process_instruction(&PROGRAM, &mut accounts, &[4, 0, 1]), Ok(()));
    assert_eq!(stored(&accounts[0]).slots, [0, 0, 0, 0, 1, 0, 0]);
    assert_eq!(accounts[1].data, vec![0u8; RECORD_LEN]);
}

#[test]
fn toggle_changes_only_the_addressed_day() {
    let rec = WeekSlotAccount::from_slots([11, 22, 33, 44, 55, 66, 77]);
    for day in 0..7usize {
        for hour in 0..32u32 {
            for set in [false, true] {
                let out = rec.apply(day, hour, set);
                for d in 0..7usize {
                    if d != day {
                        assert_eq!(out.slot(d), rec.slot(d));
                    }
                }
                assert_eq!(out.is_set(day, hour), set);
            }
        }
    }
}

#[test]
fn setting_twice_equals_setting_once() {
    let rec = WeekSlotAccount::from_slots([1, 2, 3, 4, 5, 6, 7]);
    let once = rec.apply(3, 9, true);
    assert_eq!(once.apply(3, 9, true), once);
    assert_eq!(once.slot(3), 4 | (1 << 9));
}

#[test]
fn clearing_a_clear_bit_is_a_no_op() {
    let rec = WeekSlotAccount::from_slots([1, 2, 3, 4, 5, 6, 7]);
    assert_eq!(rec.apply(0, 3, false), rec);
    let cleared = rec.apply(2, 0, false);
    assert_eq!(cleared.slot(2), 2);
    assert_eq!(cleared.apply(2, 0, false), cleared);
}

#[test]
fn set_then_clear_restores_the_field() {
    let rec = WeekSlotAccount::from_slots([0xffff_0000, 0, 5, 0, 0, 0, 0x8000_0000]);
    for hour in 0..16u32 {
        assert_eq!(rec.apply(0, hour, true).apply(0, hour, false), rec);
    }
    assert_eq!(rec.apply(2, 1, true).apply(2, 1, false), rec);
}

#[test]
fn toggle_bit_values() {
    assert_eq!(toggle_bit(0, 5, true), 32);
    assert_eq!(toggle_bit(32, 5, false), 0);
    assert_eq!(toggle_bit(u32::MAX, 31, false), 0x7fff_ffff);
    assert_eq!(toggle_bit(0, 31, true), 0x8000_0000);
    assert_eq!(toggle_bit(6, 1, true), 6);
}

#[test]
fn new_record_is_all_clear() {
    let rec = WeekSlotAccount::new();
    assert_eq!(rec.slots, [0u32; 7]);
    assert_eq!(rec.to_bytes(), vec![0u8; RECORD_LEN]);
}

#[test]
fn encoding_is_little_endian_in_day_order() {
    let rec = WeekSlotAccount::from_slots([0x0403_0201, 0, 0, 0, 0, 0, 0xdead_beef]);
    let bytes = rec.to_bytes();
    assert_eq!(bytes.len(), RECORD_LEN);
    assert_eq!(&bytes[0..4], &[1, 2, 3, 4]);
    assert_eq!(&bytes[24..28], &[0xef, 0xbe, 0xad, 0xde]);
    let mut expected = Vec::new();
    for v in rec.slots {
        expected.extend_from_slice(&v.to_le_bytes());
    }
    assert_eq!(bytes, expected);
}

#[test]
fn encoding_matches_borsh() {
    let rec = WeekSlotAccount::from_slots([1, 256, 65536, 16777216, u32::MAX, 12345, 0]);
    assert_eq!(rec.to_bytes(), borsh::to_vec(&rec.slots).unwrap());
    let back: [u32; 7] = borsh::from_slice(&rec.to_bytes()).unwrap();
    assert_eq!(back, rec.slots);
}

#[test]
fn decode_of_encode_round_trips() {
    for slots in [
        [0u32; 7],
        [u32::MAX; 7],
        [1, 2, 3, 4, 5, 6, 7],
        [0x8000_0000, 0x7fff_ffff, 0x0102_0304, 0, 99, 1 << 16, 255],
    ] {
        let rec = WeekSlotAccount::from_slots(slots);
        assert_eq!(WeekSlotAccount::try_from_slice(&rec.to_bytes()), Ok(rec));
    }
}

#[test]
fn decode_rejects_wrong_lengths() {
    assert_eq!(WeekSlotAccount::try_from_slice(&[]), Err(ScheduleError::CorruptState));
    assert_eq!(WeekSlotAccount::try_from_slice(&[0u8; 27]), Err(ScheduleError::CorruptState));
    assert_eq!(WeekSlotAccount::try_from_slice(&[0u8; 29]), Err(ScheduleError::CorruptState));
}

#[test]
fn serialize_into_short_buffer_fails() {
    let rec = WeekSlotAccount::from_slots([1, 2, 3, 4, 5, 6, 7]);
    let mut buf = vec![9u8; 27];
    assert_eq!(rec.serialize(&mut buf), Err(ScheduleError::WriteFailure));
    assert_eq!(buf, vec![9u8; 27]);
    let mut long = vec![9u8; 30];
    assert_eq!(rec.serialize(&mut long), Ok(()));
    assert_eq!(&long[..28], &rec.to_bytes()[..]);
    assert_eq!(&long[28..], &[9, 9]);
}

#[test]
fn identities_compare_bytewise() {
    let mut other = PROGRAM;
    assert!(same_identity(&PROGRAM, &other));
    other[31] = 0;
    assert!(!same_identity(&PROGRAM, &other));
    assert_eq!(
        check_owner(&PROGRAM, &vec![account(other, vec![])]),
        Err(ScheduleError::Unauthorized)
    );
    assert_eq!(check_owner(&PROGRAM, &vec![zero_account()]), Ok(()));
}

#[test]
fn apply_command_writes_the_new_record() {
    let mut acc = account(PROGRAM, WeekSlotAccount::from_slots([0, 0, 0, 1, 0, 0, 0]).to_bytes());
    let cmd = Command { day: 3, hour: 2, set: true };
    assert_eq!(apply_command(&mut acc, cmd), Ok(()));
    assert_eq!(stored(&acc).slots, [0, 0, 0, 5, 0, 0, 0]);
    let mut bad = account(PROGRAM, vec![1, 2, 3]);
    assert_eq!(apply_command(&mut bad, cmd), Err(ScheduleError::CorruptState));
    assert_eq!(bad.data, vec![1, 2, 3]);
}
