use greeting_counter::{GreetingAccount, ProcessError};

#[test]
fn record_is_read_least_significant_byte_first() {
    let record = GreetingAccount::try_from_slice(&[0x78, 0x56, 0x34, 0x12]).unwrap();
    assert_eq!(record.counter, 0x1234_5678);
    assert_eq!(GreetingAccount::try_from_slice(&[0, 0, 0, 0]).unwrap().counter, 0);
    assert_eq!(GreetingAccount::try_from_slice(&[0xff; 4]).unwrap().counter, u32::MAX);
    assert_eq!(GreetingAccount::try_from_slice(&[0, 1, 0, 0]).unwrap().counter, 256);
}

#[test]
fn record_needs_exactly_four_bytes() {
    for len in [0usize, 1, 3, 5, 8, 42] {
        let data = vec![0u8; len];
        assert_eq!(
            GreetingAccount::try_from_slice(&data).unwrap_err(),
            ProcessError::Deserialization
        );
    }
}

#[test]
fn record_is_read_from_the_front_of_account_data() {
    assert_eq!(GreetingAccount::from_account_data(&[0x78, 0x56, 0x34, 0x12]).unwrap().counter, 0x1234_5678);
    assert_eq!(GreetingAccount::from_account_data(&[1, 2, 0, 0, 0xff, 0xff]).unwrap().counter, 513);
    let mut data = vec![0u8; 42];
    data[3] = 1;
    data[4] = 7;
    assert_eq!(GreetingAccount::from_account_data(&data).unwrap().counter, 1 << 24);
}

#[test]
fn record_is_not_read_from_too_few_bytes() {
    for len in 0..4usize {
        let data = vec![1u8; len];
        assert_eq!(
            GreetingAccount::from_account_data(&data).unwrap_err(),
            ProcessError::Deserialization
        );
    }
}

#[test]
fn record_is_written_least_significant_byte_first() {
    let mut buffer = vec![0xaa; 4];
    assert_eq!(GreetingAccount { counter: 0x0102_0304 }.serialize(&mut buffer), Ok(()));
    assert_eq!(buffer, vec![4, 3, 2, 1]);
}

#[test]
fn record_is_written_over_the_front_of_a_longer_buffer() {
    let mut buffer = vec![0xaa; 7];
    assert_eq!(GreetingAccount { counter: 258 }.serialize(&mut buffer), Ok(()));
    assert_eq!(buffer, vec![2, 1, 0, 0, 0xaa, 0xaa, 0xaa]);
}

#[test]
fn record_is_not_written_without_room() {
    for len in 0..4usize {
        let mut buffer = vec![0xaa; len];
        assert_eq!(
            GreetingAccount { counter: 1 }.serialize(&mut buffer),
            Err(ProcessError::Serialization)
        );
        assert_eq!(buffer.len(), len);
    }
}

#[test]
fn record_survives_a_round_trip() {
    for counter in [0u32, 1, 255, 256, 0xdead_beef, u32::MAX] {
        let mut buffer = vec![0u8; 4];
        GreetingAccount { counter }.serialize(&mut buffer).unwrap();
        assert_eq!(buffer, counter.to_le_bytes().to_vec());
        assert_eq!(GreetingAccount::try_from_slice(&buffer).unwrap().counter, counter);
    }
}
