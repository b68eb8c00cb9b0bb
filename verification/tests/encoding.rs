use solana_counter_program::{CounterAccount, CounterInstruction, ProgramError};

#[test]
fn initialize_is_tag_zero_and_eight_bytes() {
    let instruction = CounterInstruction::InitializeCounter { initial_value: 42 };
    assert_eq!(instruction.to_vec(), vec![0, 42, 0, 0, 0, 0, 0, 0, 0]);
    let instruction = CounterInstruction::InitializeCounter { initial_value: 0x0102_0304_0506_0708 };
    assert_eq!(instruction.to_vec(), vec![0, 8, 7, 6, 5, 4, 3, 2, 1]);
    let instruction = CounterInstruction::InitializeCounter { initial_value: u64::MAX };
    assert_eq!(instruction.to_vec(), vec![0, 255, 255, 255, 255, 255, 255, 255, 255]);
}

#[test]
fn increment_is_tag_one_alone() {
    assert_eq!(CounterInstruction::IncrementCounter.to_vec(), vec![1]);
}

#[test]
fn instructions_are_read_back() {
    let all = [
        CounterInstruction::IncrementCounter,
        CounterInstruction::InitializeCounter { initial_value: 0 },
        CounterInstruction::InitializeCounter { initial_value: 42 },
        CounterInstruction::InitializeCounter { initial_value: 1 << 40 },
        CounterInstruction::InitializeCounter { initial_value: u64::MAX },
    ];
    for instruction in all {
        assert_eq!(CounterInstruction::try_from_slice(&instruction.to_vec()), Ok(instruction));
    }
}

#[test]
fn instruction_payload_is_little_endian() {
    assert_eq!(
        CounterInstruction::try_from_slice(&[0, 1, 2, 0, 0, 0, 0, 0, 0]),
        Ok(CounterInstruction::InitializeCounter { initial_value: 513 })
    );
    assert_eq!(
        CounterInstruction::try_from_slice(&[0, 0, 0, 0, 0, 0, 0, 0, 128]),
        Ok(CounterInstruction::InitializeCounter { initial_value: 1 << 63 })
    );
}

#[test]
fn instruction_payload_agrees_with_borsh() {
    for value in [0u64, 42, 513, 0xDEAD_BEEF, u64::MAX] {
        let mut expected = vec![0u8];
        expected.extend(borsh::to_vec(&value).unwrap());
        let instruction = CounterInstruction::InitializeCounter { initial_value: value };
        assert_eq!(instruction.to_vec(), expected);
        assert_eq!(CounterInstruction::try_from_slice(&expected), Ok(instruction));
    }
}

#[test]
fn malformed_instructions_are_refused() {
    let buffers: Vec<Vec<u8>> = vec![
        vec![],
        vec![0],
        vec![0, 42],
        vec![0, 42, 0, 0, 0, 0, 0, 0],
        vec![0, 42, 0, 0, 0, 0, 0, 0, 0, 0],
        vec![1, 0],
        vec![1, 1],
        vec![2],
        vec![3, 42, 0, 0, 0, 0, 0, 0, 0],
        vec![255],
    ];
    for data in buffers {
        assert_eq!(
            CounterInstruction::try_from_slice(&data),
            Err(ProgramError::InvalidInstructionData)
        );
    }
}

#[test]
fn every_other_tag_is_refused() {
    for tag in 2..=255u8 {
        for len in [1usize, 2, 9, 10] {
            let mut data = vec![0u8; len];
            data[0] = tag;
            assert_eq!(
                CounterInstruction::try_from_slice(&data),
                Err(ProgramError::InvalidInstructionData)
            );
        }
    }
}

#[test]
fn record_is_eight_little_endian_bytes() {
    let mut buffer = vec![0xEE; 8];
    assert_eq!(CounterAccount { count: 42 }.serialize(&mut buffer), Ok(()));
    assert_eq!(buffer, vec![42, 0, 0, 0, 0, 0, 0, 0]);
    assert_eq!(CounterAccount { count: 0x1122_3344_5566_7788 }.serialize(&mut buffer), Ok(()));
    assert_eq!(buffer, vec![0x88, 0x77, 0x66, 0x55, 0x44, 0x33, 0x22, 0x11]);
    assert_eq!(buffer, borsh::to_vec(&0x1122_3344_5566_7788u64).unwrap());
}

#[test]
fn record_is_read_from_exactly_eight_bytes() {
    assert_eq!(
        CounterAccount::try_from_slice(&[42, 0, 0, 0, 0, 0, 0, 0]),
        Ok(CounterAccount { count: 42 })
    );
    assert_eq!(
        CounterAccount::try_from_slice(&[0, 1, 0, 0, 0, 0, 0, 0]),
        Ok(CounterAccount { count: 256 })
    );
    assert_eq!(
        CounterAccount::try_from_slice(&[255; 8]),
        Ok(CounterAccount { count: u64::MAX })
    );
    for len in [0usize, 1, 7, 9, 64] {
        assert_eq!(
            CounterAccount::try_from_slice(&vec![0; len]),
            Err(ProgramError::InvalidAccountData)
        );
    }
}

#[test]
fn record_round_trip() {
    for count in [0u64, 1, 255, 256, 65_536, u64::MAX - 1, u64::MAX] {
        let mut buffer = vec![0; 8];
        assert_eq!(CounterAccount { count }.serialize(&mut buffer), Ok(()));
        assert_eq!(CounterAccount::try_from_slice(&buffer), Ok(CounterAccount { count }));
        assert_eq!(borsh::from_slice::<u64>(&buffer).unwrap(), count);
    }
}

#[test]
fn record_leaves_the_rest_of_the_buffer() {
    let mut buffer = vec![9; 12];
    assert_eq!(CounterAccount { count: 1 }.serialize(&mut buffer), Ok(()));
    assert_eq!(buffer, vec![1, 0, 0, 0, 0, 0, 0, 0, 9, 9, 9, 9]);
}

#[test]
fn record_does_not_fit_a_short_buffer() {
    for len in 0..8usize {
        let mut buffer = vec![9; len];
        assert_eq!(
            CounterAccount { count: 1 }.serialize(&mut buffer),
            Err(ProgramError::BorshIoError)
        );
        assert_eq!(buffer, vec![9; len]);
    }
}
