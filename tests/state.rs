use solana_escrow::error::ProcessError;
use solana_escrow::state::{Escrow, ESCROW_LEN};

#[test]
fn test_pack_unpack() {
    let check = Escrow {
        is_initialized: true,
        initializer_pubkey: [1; 32],
        temp_token_account_pubkey: [2; 32],
        initializer_token_to_receive_account_pubkey: [3; 32],
        expected_amount: 10,
    };
    assert!(check.is_initialized);

    let mut packed = vec![0; Escrow::get_packed_len()];

    let expected = vec![
        1, 1, 1, 1, 1, 1, 1, 1, 1, 1, 1, 1, 1, 1, 1, 1, 1, 1, 1, 1, 1, 1, 1, 1, 1, 1, 1, 1, 1,
        1, 1, 1, 1, 2, 2, 2, 2, 2, 2, 2, 2, 2, 2, 2, 2, 2, 2, 2, 2, 2, 2, 2, 2, 2, 2, 2, 2, 2,
        2, 2, 2, 2, 2, 2, 2, 3, 3, 3, 3, 3, 3, 3, 3, 3, 3, 3, 3, 3, 3, 3, 3, 3, 3, 3, 3, 3, 3,
        3, 3, 3, 3, 3, 3, 3, 3, 3, 3, 10, 0, 0, 0, 0, 0, 0, 0,
    ];
    Escrow::pack(check, &mut packed).unwrap();
    assert_eq!(packed, expected);

    let unpacked = Escrow::unpack(&packed).unwrap();
    assert_eq!(unpacked, check);
}

#[test]
fn round_trip_keeps_every_field() {
    let mut initializer = [0u8; 32];
    let mut holding = [0u8; 32];
    let mut receive = [0u8; 32];
    for i in 0..32 {
        initializer[i] = i as u8;
        holding[i] = 255 - i as u8;
        receive[i] = (i as u8).wrapping_mul(7);
    }
    for &(flag, amount) in &[(true, u64::MAX), (false, 0u64), (true, 0x0102030405060708u64)] {
        let record = Escrow {
            is_initialized: flag,
            initializer_pubkey: initializer,
            temp_token_account_pubkey: holding,
            initializer_token_to_receive_account_pubkey: receive,
            expected_amount: amount,
        };
        let bytes = record.to_bytes();
        assert_eq!(bytes.len(), ESCROW_LEN);
        assert_eq!(&bytes[97..105], &amount.to_le_bytes());
        assert_eq!(Escrow::unpack_unchecked(&bytes).unwrap(), record);
    }
}

#[test]
fn amount_is_stored_little_endian() {
    let record = Escrow {
        is_initialized: true,
        initializer_pubkey: [9; 32],
        temp_token_account_pubkey: [8; 32],
        initializer_token_to_receive_account_pubkey: [7; 32],
        expected_amount: 123,
    };
    let bytes = record.to_bytes();
    assert_eq!(bytes[0], 1);
    assert_eq!(&bytes[97..105], &[123, 0, 0, 0, 0, 0, 0, 0]);
}

#[test]
fn any_nonzero_flag_reads_as_open() {
    let mut bytes = vec![0u8; ESCROW_LEN];
    bytes[0] = 7;
    let record = Escrow::unpack(&bytes).unwrap();
    assert!(record.is_initialized());
}

#[test]
fn strict_read_refuses_an_unopened_record() {
    let bytes = vec![0u8; ESCROW_LEN];
    assert_eq!(Escrow::unpack(&bytes), Err(ProcessError::UninitializedAccount));
    let record = Escrow::unpack_unchecked(&bytes).unwrap();
    assert!(!record.is_initialized);
    assert_eq!(record.expected_amount, 0);
}

#[test]
fn reads_refuse_a_wrong_length() {
    let short = vec![1u8; ESCROW_LEN - 1];
    let long = vec![1u8; ESCROW_LEN + 1];
    assert_eq!(Escrow::unpack(&short), Err(ProcessError::InvalidAccountData));
    assert_eq!(Escrow::unpack_unchecked(&long), Err(ProcessError::InvalidAccountData));
}

#[test]
fn pack_refuses_a_wrong_length_and_leaves_it() {
    let record = Escrow {
        is_initialized: true,
        initializer_pubkey: [1; 32],
        temp_token_account_pubkey: [2; 32],
        initializer_token_to_receive_account_pubkey: [3; 32],
        expected_amount: 5,
    };
    let mut dst = vec![4u8; 10];
    assert_eq!(Escrow::pack(record, &mut dst), Err(ProcessError::InvalidAccountData));
    assert_eq!(dst, vec![4u8; 10]);
}
