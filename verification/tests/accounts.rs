use dapp::AccountId;

#[test]
fn account_ids_of_equal_bytes_are_equal() {
    assert_eq!(AccountId::from([7; 32]), AccountId::from([7; 32]));
    assert_eq!(AccountId::from([7; 32]), AccountId { bytes: [7; 32] });
    assert_eq!(AccountId::from([0; 32]), AccountId::from([0; 32]));
}

#[test]
fn account_ids_differ_where_one_byte_differs() {
    for i in 0..32 {
        let mut bytes = [7u8; 32];
        bytes[i] = 8;
        assert_ne!(AccountId::from(bytes), AccountId::from([7; 32]));
        assert_ne!(AccountId::from([7; 32]), AccountId::from(bytes));
    }
}

#[test]
fn account_id_keeps_its_bytes() {
    let mut bytes = [0u8; 32];
    for (i, byte) in bytes.iter_mut().enumerate() {
        *byte = i as u8;
    }
    assert_eq!(AccountId::from(bytes).bytes, bytes);
}
