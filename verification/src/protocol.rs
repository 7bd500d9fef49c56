//! The command wire protocol: every client intent travels as a non-empty
//! list of unsigned 128-bit words whose first element is the opcode.
//!
//! Opcodes: 0 start, 1 create account (id, funds), 2 transfer
//! (from, to, funds), 3 read balance (id), 4 stop. Account ids are 64-bit;
//! a word that does not fit is rejected rather than truncated.

use vstd::prelude::*;

verus! {

/// A decoded client intent.
#[derive(Clone, Copy, Debug, PartialEq, Eq, Structural)]
pub enum Command {
    Start,
    CreateAccount { id: u64, funds: u128 },
    Transfer { from: u64, to: u64, funds: u128 },
    ReadBalance { id: u64 },
    Stop,
}

/// Why a word list is not a command. None of these is fatal to the node
/// loop: a bad message is reported and dropped.
#[derive(Clone, Copy, Debug, PartialEq, Eq, Structural)]
pub enum ProtocolError {
    /// The word list holds no opcode at all.
    Empty,
    /// The opcode is not one the protocol defines.
    UnknownOpcode { opcode: u128 },
    /// The opcode is known but the operands have the wrong count, or an
    /// account id does not fit in 64 bits.
    MalformedOperands { opcode: u128 },
}

pub open spec fn fits_id(w: u128) -> bool {
    w <= u64::MAX
}

/// What a word list means: the command it decodes to, or why it is refused.
pub open spec fn decode_spec(w: Seq<u128>) -> Result<Command, ProtocolError> {
    if w.len() == 0 {
        Err(ProtocolError::Empty)
    } else if w[0] == 0 {
        if w.len() == 1 {
            Ok(Command::Start)
        } else {
            Err(ProtocolError::MalformedOperands { opcode: 0 })
        }
    } else if w[0] == 1 {
        if w.len() == 3 && fits_id(w[1]) {
            Ok(Command::CreateAccount { id: w[1] as u64, funds: w[2] })
        } else {
            Err(ProtocolError::MalformedOperands { opcode: 1 })
        }
    } else if w[0] == 2 {
        if w.len() == 4 && fits_id(w[1]) && fits_id(w[2]) {
            Ok(Command::Transfer { from: w[1] as u64, to: w[2] as u64, funds: w[3] })
        } else {
            Err(ProtocolError::MalformedOperands { opcode: 2 })
        }
    } else if w[0] == 3 {
        if w.len() == 2 && fits_id(w[1]) {
            Ok(Command::ReadBalance { id: w[1] as u64 })
        } else {
            Err(ProtocolError::MalformedOperands { opcode: 3 })
        }
    } else if w[0] == 4 {
        if w.len() == 1 {
            Ok(Command::Stop)
        } else {
            Err(ProtocolError::MalformedOperands { opcode: 4 })
        }
    } else {
        Err(ProtocolError::UnknownOpcode { opcode: w[0] })
    }
}

/// A word list decoding to `Start`.
pub open spec fn is_start(w: Seq<u128>) -> bool {
    decode_spec(w) == Ok::<Command, ProtocolError>(Command::Start)
}

/// Decodes a word list by exhaustive classification; never panics,
/// whatever shape the list has.
pub fn decode(w: &Vec<u128>) -> (r: Result<Command, ProtocolError>)
    ensures
        r == decode_spec(w@),
{
    if w.len() == 0 {
        return Err(ProtocolError::Empty);
    }
    let opcode = w[0];
    if opcode == 0 {
        if w.len() == 1 {
            Ok(Command::Start)
        } else {
            Err(ProtocolError::MalformedOperands { opcode: 0 })
        }
    } else if opcode == 1 {
        if w.len() == 3 && w[1] <= u64::MAX as u128 {
            Ok(Command::CreateAccount { id: w[1] as u64, funds: w[2] })
        } else {
            Err(ProtocolError::MalformedOperands { opcode: 1 })
        }
    } else if opcode == 2 {
        if w.len() == 4 && w[1] <= u64::MAX as u128 && w[2] <= u64::MAX as u128 {
            Ok(Command::Transfer { from: w[1] as u64, to: w[2] as u64, funds: w[3] })
        } else {
            Err(ProtocolError::MalformedOperands { opcode: 2 })
        }
    } else if opcode == 3 {
        if w.len() == 2 && w[1] <= u64::MAX as u128 {
            Ok(Command::ReadBalance { id: w[1] as u64 })
        } else {
            Err(ProtocolError::MalformedOperands { opcode: 3 })
        }
    } else if opcode == 4 {
        if w.len() == 1 {
            Ok(Command::Stop)
        } else {
            Err(ProtocolError::MalformedOperands { opcode: 4 })
        }
    } else {
        Err(ProtocolError::UnknownOpcode { opcode })
    }
}

/// Encodes a balance read for `id`; decoding gives the intent back.
pub fn handle_read_balance(id: u64) -> (r: Vec<u128>)
    ensures
        r@ =~= seq![3u128, id as u128],
        decode_spec(r@) == Ok::<Command, ProtocolError>(Command::ReadBalance { id }),
{
    let mut action: Vec<u128> = Vec::new();
    action.push(3);
    action.push(id as u128);
    action
}

/// Encodes the creation of account `id` with starting `funds`; decoding
/// gives the intent back.
pub fn handle_account_creation(id: u64, funds: u128) -> (r: Vec<u128>)
    ensures
        r@ =~= seq![1u128, id as u128, funds],
        decode_spec(r@) == Ok::<Command, ProtocolError>(Command::CreateAccount { id, funds }),
{
    let mut action: Vec<u128> = Vec::new();
    action.push(1);
    action.push(id as u128);
    action.push(funds);
    action
}

/// Encodes a transfer of `funds` from `sender` to `receiver`; decoding
/// gives the intent back.
pub fn handle_transfer(sender: u64, receiver: u64, funds: u128) -> (r: Vec<u128>)
    ensures
        r@ =~= seq![2u128, sender as u128, receiver as u128, funds],
        decode_spec(r@) == Ok::<Command, ProtocolError>(
            Command::Transfer { from: sender, to: receiver, funds },
        ),
{
    let mut action: Vec<u128> = Vec::new();
    action.push(2);
    action.push(sender as u128);
    action.push(receiver as u128);
    action.push(funds);
    action
}

/// Encodes the start intent; decoding gives it back.
pub fn encode_start() -> (r: Vec<u128>)
    ensures
        r@ =~= seq![0u128],
        decode_spec(r@) == Ok::<Command, ProtocolError>(Command::Start),
{
    let mut action: Vec<u128> = Vec::new();
    action.push(0);
    action
}

/// Encodes the stop intent; decoding gives it back.
pub fn encode_stop() -> (r: Vec<u128>)
    ensures
        r@ =~= seq![4u128],
        decode_spec(r@) == Ok::<Command, ProtocolError>(Command::Stop),
{
    let mut action: Vec<u128> = Vec::new();
    action.push(4);
    action
}

} // verus!
