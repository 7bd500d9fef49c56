//! Parsing of interactive client lines, already split into whitespace-free
//! tokens, into commands: `start_node`, `create_account <id> <funds>`,
//! `transfer <from> <to> <funds>`, `balance <id>`. Numbers are plain
//! decimal; an id must fit in 64 bits and an amount in 128.

use vstd::prelude::*;

use crate::numeral::{dec_val, is_dec_u128, is_dec_u64, parse_u128, parse_u64};
use crate::protocol::Command;

verus! {

/// Why a token list is not a command line.
#[derive(Clone, Copy, Debug, PartialEq, Eq, Structural)]
pub enum ParseError {
    /// No tokens at all.
    EmptyLine,
    /// The first token is no known command word.
    UnknownKeyword,
    /// The command word takes a different number of operands.
    WrongOperandCount,
    /// An operand is not a decimal number that fits its type.
    BadNumber,
}

/// What a token list means: the command it denotes, or why it is refused.
pub open spec fn parse_command_spec(ts: Seq<String>) -> Result<Command, ParseError> {
    if ts.len() == 0 {
        Err(ParseError::EmptyLine)
    } else if ts[0]@ == "start_node"@ {
        if ts.len() == 1 {
            Ok(Command::Start)
        } else {
            Err(ParseError::WrongOperandCount)
        }
    } else if ts[0]@ == "create_account"@ {
        if ts.len() != 3 {
            Err(ParseError::WrongOperandCount)
        } else if is_dec_u64(ts[1]@) && is_dec_u128(ts[2]@) {
            Ok(Command::CreateAccount { id: dec_val(ts[1]@) as u64, funds: dec_val(ts[2]@) as u128 })
        } else {
            Err(ParseError::BadNumber)
        }
    } else if ts[0]@ == "transfer"@ {
        if ts.len() != 4 {
            Err(ParseError::WrongOperandCount)
        } else if is_dec_u64(ts[1]@) && is_dec_u64(ts[2]@) && is_dec_u128(ts[3]@) {
            Ok(Command::Transfer {
                from: dec_val(ts[1]@) as u64,
                to: dec_val(ts[2]@) as u64,
                funds: dec_val(ts[3]@) as u128,
            })
        } else {
            Err(ParseError::BadNumber)
        }
    } else if ts[0]@ == "balance"@ {
        if ts.len() != 2 {
            Err(ParseError::WrongOperandCount)
        } else if is_dec_u64(ts[1]@) {
            Ok(Command::ReadBalance { id: dec_val(ts[1]@) as u64 })
        } else {
            Err(ParseError::BadNumber)
        }
    } else {
        Err(ParseError::UnknownKeyword)
    }
}

fn str_eq(a: &str, b: &str) -> (r: bool)
    ensures
        r == (a@ == b@),
{
    let sa = String::from_str(a);
    let sb = String::from_str(b);
    sa.eq(&sb)
}

/// Parses one tokenized client line into the command it denotes; accepts
/// exactly what `parse_command_spec` accepts.
pub fn parse_command(tokens: &Vec<String>) -> (r: Result<Command, ParseError>)
    ensures
        r == parse_command_spec(tokens@),
{
    if tokens.len() == 0 {
        return Err(ParseError::EmptyLine);
    }
    if str_eq(tokens[0].as_str(), "start_node") {
        if tokens.len() == 1 {
            Ok(Command::Start)
        } else {
            Err(ParseError::WrongOperandCount)
        }
    } else if str_eq(tokens[0].as_str(), "create_account") {
        if tokens.len() != 3 {
            return Err(ParseError::WrongOperandCount);
        }
        let id = match parse_u64(tokens[1].as_str()) {
            Some(v) => v,
            None => {
                return Err(ParseError::BadNumber);
            },
        };
        let funds = match parse_u128(tokens[2].as_str()) {
            Some(v) => v,
            None => {
                return Err(ParseError::BadNumber);
            },
        };
        Ok(Command::CreateAccount { id, funds })
    } else if str_eq(tokens[0].as_str(), "transfer") {
        if tokens.len() != 4 {
            return Err(ParseError::WrongOperandCount);
        }
        let from = match parse_u64(tokens[1].as_str()) {
            Some(v) => v,
            None => {
                return Err(ParseError::BadNumber);
            },
        };
        let to = match parse_u64(tokens[2].as_str()) {
            Some(v) => v,
            None => {
                return Err(ParseError::BadNumber);
            },
        };
        let funds = match parse_u128(tokens[3].as_str()) {
            Some(v) => v,
            None => {
                return Err(ParseError::BadNumber);
            },
        };
        Ok(Command::Transfer { from, to, funds })
    } else if str_eq(tokens[0].as_str(), "balance") {
        if tokens.len() != 2 {
            return Err(ParseError::WrongOperandCount);
        }
        let id = match parse_u64(tokens[1].as_str()) {
            Some(v) => v,
            None => {
                return Err(ParseError::BadNumber);
            },
        };
        Ok(Command::ReadBalance { id })
    } else {
        Err(ParseError::UnknownKeyword)
    }
}

/// Encodes a parsed command in the wire protocol; decoding the wire words
/// gives the command back.
pub fn encode_command(c: &Command) -> (r: Vec<u128>)
    ensures
        crate::protocol::decode_spec(r@) == Ok::<Command, crate::protocol::ProtocolError>(*c),
{
    match c {
        Command::Start => crate::protocol::encode_start(),
        Command::CreateAccount { id, funds } => crate::protocol::handle_account_creation(
            *id,
            *funds,
        ),
        Command::Transfer { from, to, funds } => crate::protocol::handle_transfer(
            *from,
            *to,
            *funds,
        ),
        Command::ReadBalance { id } => crate::protocol::handle_read_balance(*id),
        Command::Stop => crate::protocol::encode_stop(),
    }
}

} // verus!
