use blockchain_node::parse::{encode_command, parse_command, ParseError};
use blockchain_node::protocol::{decode, Command};

fn toks(words: &[&str]) -> Vec<String> {
    words.iter().map(|w| w.to_string()).collect()
}

#[test]
fn parses_start_node() {
    assert_eq!(parse_command(&toks(&["start_node"])), Ok(Command::Start));
}

#[test]
fn parses_create_account() {
    assert_eq!(
        parse_command(&toks(&["create_account", "7", "100"])),
        Ok(Command::CreateAccount { id: 7, funds: 100 })
    );
}

#[test]
fn parses_transfer() {
    assert_eq!(
        parse_command(&toks(&["transfer", "1", "2", "300"])),
        Ok(Command::Transfer { from: 1, to: 2, funds: 300 })
    );
}

#[test]
fn parses_balance() {
    assert_eq!(
        parse_command(&toks(&["balance", "42"])),
        Ok(Command::ReadBalance { id: 42 })
    );
}

#[test]
fn rejects_empty_line() {
    assert_eq!(parse_command(&toks(&[])), Err(ParseError::EmptyLine));
}

#[test]
fn rejects_unknown_keyword() {
    assert_eq!(
        parse_command(&toks(&["mine_faster"])),
        Err(ParseError::UnknownKeyword)
    );
}

#[test]
fn rejects_wrong_operand_count() {
    assert_eq!(
        parse_command(&toks(&["balance"])),
        Err(ParseError::WrongOperandCount)
    );
    assert_eq!(
        parse_command(&toks(&["balance", "1", "2"])),
        Err(ParseError::WrongOperandCount)
    );
    assert_eq!(
        parse_command(&toks(&["create_account", "7"])),
        Err(ParseError::WrongOperandCount)
    );
    assert_eq!(
        parse_command(&toks(&["transfer", "1", "2"])),
        Err(ParseError::WrongOperandCount)
    );
    assert_eq!(
        parse_command(&toks(&["start_node", "now"])),
        Err(ParseError::WrongOperandCount)
    );
}

#[test]
fn rejects_bad_numbers() {
    assert_eq!(
        parse_command(&toks(&["balance", "x"])),
        Err(ParseError::BadNumber)
    );
    assert_eq!(
        parse_command(&toks(&["create_account", "7", "-1"])),
        Err(ParseError::BadNumber)
    );
    // an id must fit in 64 bits
    assert_eq!(
        parse_command(&toks(&["balance", "18446744073709551616"])),
        Err(ParseError::BadNumber)
    );
    // funds may use the full 128 bits
    assert_eq!(
        parse_command(&toks(&[
            "create_account",
            "7",
            "340282366920938463463374607431768211455"
        ])),
        Ok(Command::CreateAccount { id: 7, funds: u128::MAX })
    );
}

#[test]
fn encodes_parsed_commands_for_the_wire() {
    let cmd = parse_command(&toks(&["transfer", "1", "2", "300"])).unwrap();
    let wire = encode_command(&cmd);
    assert_eq!(wire, vec![2u128, 1, 2, 300]);
    assert_eq!(decode(&wire), Ok(cmd));
}
