use trade_yard::address::Address;
use trade_yard::error::ProgramError;
use trade_yard::instruction::{Args, Payload, TradeYardInstruction};
use trade_yard::state::{ItemMetadata, RECORD_LEN};

fn sale_bytes() -> Vec<u8> {
    vec![0u8, 1, 0xe8, 3, 0, 0, 0, 0, 0, 0, 1, 254]
}

fn sample_record() -> ItemMetadata {
    ItemMetadata {
        seller: Address::new([1; 32]),
        mint: Address::new([2; 32]),
        lamports: 0x0102_0304_0506_0708,
        payment: Address::new([3; 32]),
        item: Address::new([4; 32]),
    }
}

#[test]
fn unpack_reads_a_sale() {
    let data = sale_bytes();
    let (instruction, args) = TradeYardInstruction::unpack(&data).unwrap();
    assert_eq!(instruction, TradeYardInstruction::Sell);
    assert_eq!(args, Args { lamports: Some(1000), metadata_bump: Some(254) });
    let payload = Payload { instruction: 0, args };
    assert_eq!(payload.pack(), data);
}

#[test]
fn unpack_reads_a_purchase_and_a_cancellation() {
    let none = Args { lamports: None, metadata_bump: None };
    assert_eq!(TradeYardInstruction::unpack(&[1, 0, 0]), Ok((TradeYardInstruction::Buy, none)));
    assert_eq!(TradeYardInstruction::unpack(&[2, 0, 0]), Ok((TradeYardInstruction::Cancel, none)));
    assert_eq!(TradeYardInstruction::unpack(&[0, 0, 0]), Ok((TradeYardInstruction::Sell, none)));
}

#[test]
fn unpack_keeps_arguments_of_any_instruction() {
    let args = Args { lamports: None, metadata_bump: Some(7) };
    assert_eq!(TradeYardInstruction::unpack(&[1, 0, 1, 7]), Ok((TradeYardInstruction::Buy, args)));
    let args = Args { lamports: Some(u64::MAX), metadata_bump: None };
    let data = [2, 1, 255, 255, 255, 255, 255, 255, 255, 255, 0];
    assert_eq!(TradeYardInstruction::unpack(&data), Ok((TradeYardInstruction::Cancel, args)));
}

#[test]
fn unpack_refuses_an_unknown_discriminant() {
    assert_eq!(TradeYardInstruction::unpack(&[3, 0, 0]), Err(ProgramError::InvalidInstructionData));
    assert_eq!(
        TradeYardInstruction::unpack(&[255, 0, 0]),
        Err(ProgramError::InvalidInstructionData)
    );
}

#[test]
fn unpack_refuses_bytes_that_encode_no_payload() {
    let broken: Vec<Vec<u8>> = vec![
        vec![],
        vec![0],
        vec![0, 0],
        vec![0, 2, 0],
        vec![0, 0, 2],
        vec![0, 0, 1],
        vec![0, 0, 0, 0],
        vec![0, 0, 1, 7, 0],
        vec![0, 1, 1, 2, 3, 4, 5, 6, 7],
        vec![0, 1, 1, 2, 3, 4, 5, 6, 7, 8],
        vec![0, 1, 1, 2, 3, 4, 5, 6, 7, 8, 3],
        vec![0, 1, 1, 2, 3, 4, 5, 6, 7, 8, 1],
        vec![0, 1, 1, 2, 3, 4, 5, 6, 7, 8, 1, 9, 9],
    ];
    for data in broken {
        assert_eq!(TradeYardInstruction::unpack(&data), Err(ProgramError::BorshIoError));
        assert_eq!(Payload::unpack(&data), Err(ProgramError::BorshIoError));
    }
}

#[test]
fn payload_unpack_keeps_an_unknown_discriminant() {
    let args = Args { lamports: None, metadata_bump: None };
    assert_eq!(Payload::unpack(&[9, 0, 0]), Ok(Payload { instruction: 9, args }));
}

#[test]
fn payload_bytes_are_those_of_borsh() {
    let cases = [
        (0u8, Some(1000u64), Some(254u8)),
        (1, None, None),
        (2, None, Some(0)),
        (7, Some(0), None),
        (0, Some(u64::MAX), Some(255)),
    ];
    for (instruction, lamports, metadata_bump) in cases {
        let payload = Payload { instruction, args: Args { lamports, metadata_bump } };
        let expected = borsh::to_vec(&(instruction, (lamports, metadata_bump))).unwrap();
        assert_eq!(payload.pack(), expected);
        assert_eq!(Payload::unpack(&expected), Ok(payload));
    }
}

#[test]
fn payload_unpack_agrees_with_borsh_on_short_inputs() {
    // every string of up to three bytes over a few telling values
    let values = [0u8, 1, 2, 200];
    let mut inputs: Vec<Vec<u8>> = vec![vec![]];
    for a in values {
        inputs.push(vec![a]);
        for b in values {
            inputs.push(vec![a, b]);
            for c in values {
                inputs.push(vec![a, b, c]);
                for d in values {
                    inputs.push(vec![a, b, c, d]);
                }
            }
        }
    }
    for data in inputs {
        let theirs: Option<(u8, (Option<u64>, Option<u8>))> = borsh::from_slice(&data).ok();
        let ours = Payload::unpack(&data).ok();
        assert_eq!(
            ours.map(|p| (p.instruction, (p.args.lamports, p.args.metadata_bump))),
            theirs
        );
    }
}

#[test]
fn discriminants_are_zero_one_two() {
    assert_eq!(TradeYardInstruction::Sell.discriminant(), 0);
    assert_eq!(TradeYardInstruction::Buy.discriminant(), 1);
    assert_eq!(TradeYardInstruction::Cancel.discriminant(), 2);
}

#[test]
fn record_takes_136_bytes_field_after_field() {
    let bytes = sample_record().pack();
    assert_eq!(RECORD_LEN, 136);
    assert_eq!(bytes.len(), 136);
    assert_eq!(&bytes[0..32], &[1u8; 32]);
    assert_eq!(&bytes[32..64], &[2u8; 32]);
    assert_eq!(&bytes[64..72], &[8u8, 7, 6, 5, 4, 3, 2, 1]);
    assert_eq!(&bytes[72..104], &[3u8; 32]);
    assert_eq!(&bytes[104..136], &[4u8; 32]);
}

#[test]
fn record_bytes_are_those_of_borsh() {
    let record = sample_record();
    let expected = borsh::to_vec(&(
        record.seller.bytes,
        record.mint.bytes,
        record.lamports,
        record.payment.bytes,
        record.item.bytes,
    ))
    .unwrap();
    assert_eq!(record.pack(), expected);
}

#[test]
fn record_unpack_undoes_pack() {
    let record = sample_record();
    assert_eq!(ItemMetadata::unpack(&record.pack()), Ok(record));
}

#[test]
fn record_unpack_reads_zeroes_as_a_record() {
    let zero = Address::new([0; 32]);
    let expected = ItemMetadata { seller: zero, mint: zero, lamports: 0, payment: zero, item: zero };
    assert_eq!(ItemMetadata::unpack(&[0u8; 136]), Ok(expected));
}

#[test]
fn record_unpack_refuses_another_length() {
    let mut bytes = sample_record().pack();
    bytes.push(0);
    assert_eq!(ItemMetadata::unpack(&bytes), Err(ProgramError::BorshIoError));
    assert_eq!(ItemMetadata::unpack(&bytes[..135]), Err(ProgramError::BorshIoError));
    assert_eq!(ItemMetadata::unpack(&[]), Err(ProgramError::BorshIoError));
}
