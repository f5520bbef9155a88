use greeting_counter::{le_u64, ProcessError, SolanaInstruction};

fn encoded(tag: u8, amount: u64) -> Vec<u8> {
    let mut bytes = vec![tag];
    bytes.extend_from_slice(&amount.to_le_bytes());
    bytes
}

#[test]
fn unpack_example_recovers_the_amount() {
    let bytes = vec![0, 0x08, 0x07, 0x06, 0x05, 0x04, 0x03, 0x02, 0x01];
    assert_eq!(
        SolanaInstruction::unpack(&bytes),
        Ok(SolanaInstruction::ExampleInstruction { amount: 0x0102_0304_0506_0708 })
    );
}

#[test]
fn unpack_transfer_recovers_the_amount() {
    let bytes = vec![2, 0x39, 0x30, 0, 0, 0, 0, 0, 0];
    assert_eq!(
        SolanaInstruction::unpack(&bytes),
        Ok(SolanaInstruction::TransferInstruction { amount: 12345 })
    );
}

#[test]
fn unpack_agrees_with_the_standard_encoding() {
    for amount in [0u64, 1, 255, 256, 65_535, 1 << 32, u64::MAX - 1, u64::MAX] {
        assert_eq!(
            SolanaInstruction::unpack(&encoded(0, amount)),
            Ok(SolanaInstruction::ExampleInstruction { amount })
        );
        assert_eq!(
            SolanaInstruction::unpack(&encoded(2, amount)),
            Ok(SolanaInstruction::TransferInstruction { amount })
        );
    }
}

#[test]
fn unpack_ignores_bytes_after_the_amount() {
    let mut bytes = encoded(0, 77);
    bytes.extend_from_slice(&[9, 9, 9]);
    assert_eq!(
        SolanaInstruction::unpack(&bytes),
        Ok(SolanaInstruction::ExampleInstruction { amount: 77 })
    );
}

#[test]
fn unpack_cpi_needs_only_the_tag() {
    assert_eq!(SolanaInstruction::unpack(&[1]), Ok(SolanaInstruction::CPIInstruction));
    assert_eq!(
        SolanaInstruction::unpack(&[1, 200, 201]),
        Ok(SolanaInstruction::CPIInstruction)
    );
}

#[test]
fn unpack_refuses_an_empty_buffer() {
    assert_eq!(SolanaInstruction::unpack(&[]), Err(ProcessError::InvalidInstructionData));
}

#[test]
fn unpack_refuses_a_short_amount() {
    for tag in [0u8, 2] {
        for len in 1..9 {
            let bytes = &encoded(tag, u64::MAX)[..len];
            assert_eq!(
                SolanaInstruction::unpack(bytes),
                Err(ProcessError::InvalidInstructionData)
            );
        }
    }
}

#[test]
fn unpack_refuses_unknown_tags() {
    for tag in 3..=255u8 {
        assert_eq!(
            SolanaInstruction::unpack(&encoded(tag, 5)),
            Err(ProcessError::InvalidInstructionData)
        );
        assert_eq!(SolanaInstruction::unpack(&[tag]), Err(ProcessError::InvalidInstructionData));
    }
}

#[test]
fn unpack_amount_reads_eight_bytes() {
    assert_eq!(
        SolanaInstruction::unpack_amount(&[1, 0, 0, 0, 0, 0, 0, 0x80]),
        Ok(0x8000_0000_0000_0001)
    );
    assert_eq!(SolanaInstruction::unpack_amount(&[1, 1, 0, 0, 0, 0, 0, 0, 5]), Ok(257));
    assert_eq!(
        SolanaInstruction::unpack_amount(&[1, 0, 0, 0, 0, 0, 0]),
        Err(ProcessError::InvalidInstructionData)
    );
    assert_eq!(SolanaInstruction::unpack_amount(&[]), Err(ProcessError::InvalidInstructionData));
}

#[test]
fn le_u64_reads_least_significant_byte_first() {
    assert_eq!(le_u64(&[]), 0);
    assert_eq!(le_u64(&[0x34, 0x12]), 0x1234);
    assert_eq!(le_u64(&[0, 0, 1]), 65_536);
    assert_eq!(le_u64(&[0xff; 8]), u64::MAX);
    assert_eq!(le_u64(&[1, 2, 3, 4, 5, 6, 7, 8]), u64::from_le_bytes([1, 2, 3, 4, 5, 6, 7, 8]));
}
