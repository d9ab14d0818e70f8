use counter_core::Account;
use counter_core::CounterError;
use counter_core::Instruction;
use counter_core::Record;
use counter_core::apply;
use counter_core::authorize;
use counter_core::commit;
use counter_core::decode_instruction;
use counter_core::decode_record;
use counter_core::encode_record;
use counter_core::process_instruction;

fn signed_account(count: u32) -> Account {
    Account { is_signer: true, data: encode_record(&Record { count }) }
}

#[test]
fn record_round_trip() {
    for count in [0u32, 1, 2, 10, 4096, u32::MAX - 1, u32::MAX] {
        let r = Record { count };
        assert_eq!(decode_record(&encode_record(&r)), Ok(r));
    }
}

#[test]
fn record_encoding_is_little_endian() {
    assert_eq!(encode_record(&Record { count: 0x0102_0304 }), vec![0x04, 0x03, 0x02, 0x01]);
    assert_eq!(encode_record(&Record { count: 1 }), vec![1, 0, 0, 0]);
    assert_eq!(encode_record(&Record { count: u32::MAX }), vec![0xff, 0xff, 0xff, 0xff]);
}

#[test]
fn record_decoding_rejects_short_buffers() {
    assert_eq!(decode_record(&[]), Err(CounterError::CorruptRecord));
    assert_eq!(decode_record(&[1, 2, 3]), Err(CounterError::CorruptRecord));
}

#[test]
fn record_decoding_ignores_trailing_bytes() {
    assert_eq!(decode_record(&[7, 0, 0, 0, 99, 99]), Ok(Record { count: 7 }));
}

#[test]
fn instruction_decoding_covers_every_tag() {
    assert_eq!(decode_instruction(&[0]), Ok(Instruction::Init));
    assert_eq!(decode_instruction(&[1]), Ok(Instruction::Double));
    assert_eq!(decode_instruction(&[2]), Ok(Instruction::Half));
    assert_eq!(decode_instruction(&[3, 5, 0, 0, 0]), Ok(Instruction::Add { value: 5 }));
    assert_eq!(decode_instruction(&[4, 20, 0, 0, 0]), Ok(Instruction::Subtract { value: 20 }));
    assert_eq!(decode_instruction(&[5, 2, 1, 0, 0]), Ok(Instruction::Multiply { value: 258 }));
    assert_eq!(decode_instruction(&[6, 0, 0, 0, 0]), Ok(Instruction::Divide { value: 0 }));
}

#[test]
fn instruction_decoding_rejects_bad_buffers() {
    assert_eq!(decode_instruction(&[]), Err(CounterError::MalformedInstruction));
    assert_eq!(decode_instruction(&[7]), Err(CounterError::MalformedInstruction));
    assert_eq!(decode_instruction(&[255]), Err(CounterError::MalformedInstruction));
    // a tag that requires an operand, with a truncated buffer
    assert_eq!(decode_instruction(&[3]), Err(CounterError::MalformedInstruction));
    assert_eq!(decode_instruction(&[6, 1, 2, 3]), Err(CounterError::MalformedInstruction));
}

#[test]
fn instruction_operand_is_little_endian() {
    assert_eq!(
        decode_instruction(&[3, 0x04, 0x03, 0x02, 0x01]),
        Ok(Instruction::Add { value: 0x0102_0304 })
    );
}

#[test]
fn init_is_idempotent() {
    let once = apply(&Record { count: 77 }, &Instruction::Init).unwrap();
    assert_eq!(once, Record { count: 1 });
    let twice = apply(&once, &Instruction::Init).unwrap();
    assert_eq!(twice, once);
}

#[test]
fn add_saturates_at_max() {
    let r = Record { count: u32::MAX };
    assert_eq!(apply(&r, &Instruction::Add { value: 1 }), Ok(Record { count: u32::MAX }));
    assert_eq!(apply(&r, &Instruction::Add { value: 999 }), Ok(Record { count: u32::MAX }));
}

#[test]
fn subtract_floors_at_zero() {
    let r = Record { count: 0 };
    assert_eq!(apply(&r, &Instruction::Subtract { value: 1 }), Ok(Record { count: 0 }));
    assert_eq!(apply(&r, &Instruction::Subtract { value: 999 }), Ok(Record { count: 0 }));
    let low = Record { count: 10 };
    assert_eq!(apply(&low, &Instruction::Subtract { value: 20 }), Ok(Record { count: 0 }));
}

#[test]
fn multiply_and_double_saturate() {
    assert_eq!(
        apply(&Record { count: 3_000_000_000 }, &Instruction::Double),
        Ok(Record { count: u32::MAX })
    );
    assert_eq!(
        apply(&Record { count: 3_000_000_000 }, &Instruction::Multiply { value: 2 }),
        Ok(Record { count: u32::MAX })
    );
    assert_eq!(
        apply(&Record { count: 6 }, &Instruction::Multiply { value: 7 }),
        Ok(Record { count: 42 })
    );
}

#[test]
fn divisions_truncate() {
    assert_eq!(apply(&Record { count: 21 }, &Instruction::Half), Ok(Record { count: 10 }));
    assert_eq!(
        apply(&Record { count: 10 }, &Instruction::Divide { value: 3 }),
        Ok(Record { count: 3 })
    );
}

#[test]
fn divide_by_zero_is_an_error() {
    for count in [0u32, 1, 42, u32::MAX] {
        assert_eq!(
            apply(&Record { count }, &Instruction::Divide { value: 0 }),
            Err(CounterError::DivisionByZero)
        );
    }
}

#[test]
fn authorize_requires_a_signer() {
    assert_eq!(authorize(&Account { is_signer: true, data: vec![] }), Ok(()));
    assert_eq!(
        authorize(&Account { is_signer: false, data: vec![] }),
        Err(CounterError::Unauthorized)
    );
}

#[test]
fn commit_overwrites_the_backing_bytes() {
    let mut account = Account { is_signer: true, data: vec![9, 9, 9, 9, 9] };
    commit(&mut account, &Record { count: 513 });
    assert_eq!(account.data, vec![1, 2, 0, 0]);
    assert!(account.is_signer);
}

#[test]
fn counter_scenario() {
    let mut account = signed_account(10);
    assert_eq!(process_instruction(&mut account, &[3, 5, 0, 0, 0]), Ok(()));
    assert_eq!(decode_record(&account.data), Ok(Record { count: 15 }));

    assert_eq!(process_instruction(&mut account, &[4, 20, 0, 0, 0]), Ok(()));
    assert_eq!(decode_record(&account.data), Ok(Record { count: 0 }));

    assert_eq!(
        process_instruction(&mut account, &[6, 0, 0, 0, 0]),
        Err(CounterError::DivisionByZero)
    );
    assert_eq!(decode_record(&account.data), Ok(Record { count: 0 }));

    let mut other = signed_account(21);
    assert_eq!(process_instruction(&mut other, &[1]), Ok(()));
    assert_eq!(decode_record(&other.data), Ok(Record { count: 42 }));
}

#[test]
fn divide_by_zero_leaves_the_stored_bytes_unchanged() {
    let mut account = signed_account(7);
    let before = account.data.clone();
    assert_eq!(
        process_instruction(&mut account, &[6, 0, 0, 0, 0]),
        Err(CounterError::DivisionByZero)
    );
    assert_eq!(account.data, before);
}

#[test]
fn unauthorized_calls_never_mutate_storage() {
    let instructions: Vec<Vec<u8>> = vec![
        vec![0],
        vec![1],
        vec![2],
        vec![3, 5, 0, 0, 0],
        vec![4, 5, 0, 0, 0],
        vec![5, 5, 0, 0, 0],
        vec![6, 5, 0, 0, 0],
    ];
    for bytes in instructions {
        let mut account = Account {
            is_signer: false,
            data: encode_record(&Record { count: 10 }),
        };
        let before = account.data.clone();
        assert_eq!(
            process_instruction(&mut account, &bytes),
            Err(CounterError::Unauthorized)
        );
        assert_eq!(account.data, before);
    }
}

#[test]
fn malformed_instruction_is_reported_before_a_missing_signature() {
    let mut account = Account { is_signer: false, data: encode_record(&Record { count: 1 }) };
    let before = account.data.clone();
    assert_eq!(
        process_instruction(&mut account, &[42]),
        Err(CounterError::MalformedInstruction)
    );
    assert_eq!(account.data, before);
}

#[test]
fn corrupt_record_aborts_a_signed_call() {
    let mut account = Account { is_signer: true, data: vec![1, 2] };
    assert_eq!(process_instruction(&mut account, &[0]), Err(CounterError::CorruptRecord));
    assert_eq!(account.data, vec![1, 2]);
}

#[test]
fn init_creates_the_record_value_one() {
    let mut account = signed_account(999);
    assert_eq!(process_instruction(&mut account, &[0]), Ok(()));
    assert_eq!(decode_record(&account.data), Ok(Record { count: 1 }));
    assert_eq!(process_instruction(&mut account, &[0]), Ok(()));
    assert_eq!(decode_record(&account.data), Ok(Record { count: 1 }));
}
