use blockchain_node::protocol::{
    decode, encode_start, encode_stop, handle_account_creation, handle_read_balance,
    handle_transfer, Command, ProtocolError,
};

#[test]
fn encodes_read_balance() {
    assert_eq!(handle_read_balance(7), vec![3u128, 7u128]);
}

#[test]
fn encodes_account_creation() {
    assert_eq!(handle_account_creation(7, 100), vec![1u128, 7u128, 100u128]);
}

#[test]
fn encodes_transfer() {
    assert_eq!(handle_transfer(1, 2, 300), vec![2u128, 1u128, 2u128, 300u128]);
}

#[test]
fn encodes_start_and_stop() {
    assert_eq!(encode_start(), vec![0u128]);
    assert_eq!(encode_stop(), vec![4u128]);
}

#[test]
fn decode_inverts_encode() {
    assert_eq!(decode(&encode_start()), Ok(Command::Start));
    assert_eq!(decode(&encode_stop()), Ok(Command::Stop));
    assert_eq!(
        decode(&handle_read_balance(42)),
        Ok(Command::ReadBalance { id: 42 })
    );
    assert_eq!(
        decode(&handle_account_creation(7, 100)),
        Ok(Command::CreateAccount { id: 7, funds: 100 })
    );
    assert_eq!(
        decode(&handle_transfer(1, 2, 300)),
        Ok(Command::Transfer { from: 1, to: 2, funds: 300 })
    );
}

#[test]
fn decode_rejects_empty() {
    assert_eq!(decode(&vec![]), Err(ProtocolError::Empty));
}

#[test]
fn decode_rejects_unknown_opcode() {
    assert_eq!(
        decode(&vec![99u128]),
        Err(ProtocolError::UnknownOpcode { opcode: 99 })
    );
    assert_eq!(
        decode(&vec![5u128, 1u128]),
        Err(ProtocolError::UnknownOpcode { opcode: 5 })
    );
}

#[test]
fn decode_rejects_wrong_operand_count() {
    assert_eq!(
        decode(&vec![0u128, 1u128]),
        Err(ProtocolError::MalformedOperands { opcode: 0 })
    );
    assert_eq!(
        decode(&vec![1u128, 7u128]),
        Err(ProtocolError::MalformedOperands { opcode: 1 })
    );
    assert_eq!(
        decode(&vec![2u128, 1u128, 2u128]),
        Err(ProtocolError::MalformedOperands { opcode: 2 })
    );
    assert_eq!(
        decode(&vec![3u128]),
        Err(ProtocolError::MalformedOperands { opcode: 3 })
    );
    assert_eq!(
        decode(&vec![4u128, 4u128]),
        Err(ProtocolError::MalformedOperands { opcode: 4 })
    );
}

#[test]
fn decode_rejects_oversize_id() {
    let too_big = u64::MAX as u128 + 1;
    assert_eq!(
        decode(&vec![3u128, too_big]),
        Err(ProtocolError::MalformedOperands { opcode: 3 })
    );
    assert_eq!(
        decode(&vec![1u128, too_big, 5u128]),
        Err(ProtocolError::MalformedOperands { opcode: 1 })
    );
    // a large amount of funds is fine, only ids are 64-bit
    assert_eq!(
        decode(&vec![1u128, 7u128, too_big]),
        Ok(Command::CreateAccount { id: 7, funds: too_big })
    );
}
