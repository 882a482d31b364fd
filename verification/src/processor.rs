//! The entry point: one instruction against a list of accounts.
//!
//! The first account of the list is the one acted on; the others are left
//! alone. The first byte of the instruction selects the operation, the bytes
//! after it are the operation's payload.

use crate::account::{Account, AccountState};
use crate::failure::Failure;
use crate::identity::Identity;
use crate::message::Message;
use crate::operations::{
    after_create, after_delete, after_update, create_message, create_result, delete_message,
    delete_result, read_message, read_result, update_message, update_result,
};
use vstd::prelude::*;

verus! {

/// The opcode of create.
pub const OP_CREATE: u8 = 0;

/// The opcode of read.
pub const OP_READ: u8 = 1;

/// The opcode of update.
pub const OP_UPDATE: u8 = 2;

/// The opcode of delete.
pub const OP_DELETE: u8 = 3;

/// What an instruction did, for the caller to report.
#[derive(Debug, PartialEq, Eq)]
pub enum Outcome {
    /// A record was created.
    Created,
    /// The stored record was read; here it is.
    Read(Message),
    /// The stored record was replaced.
    Updated,
    /// The account was cleared.
    Deleted,
}

/// What an instruction did, as a mathematical value.
pub enum OutcomeView {
    Created,
    Read(Seq<char>),
    Updated,
    Deleted,
}

impl View for Outcome {
    type V = OutcomeView;

    open spec fn view(&self) -> OutcomeView {
        match self {
            Outcome::Created => OutcomeView::Created,
            Outcome::Read(message) => OutcomeView::Read(message@),
            Outcome::Updated => OutcomeView::Updated,
            Outcome::Deleted => OutcomeView::Deleted,
        }
    }
}

/// The accounts of a list, each as a mathematical value.
pub open spec fn states(accounts: Seq<Account>) -> Seq<AccountState> {
    accounts.map_values(|account: Account| account@)
}

/// How the operation that `data` selects ends on account `a`, when the
/// program `program` asks for it and the ownership gate has been passed.
pub open spec fn routed_result(program: Seq<u8>, a: AccountState, data: Seq<u8>) -> Result<
    OutcomeView,
    Failure,
>
    recommends
        data.len() > 0,
{
    let payload = data.skip(1);
    if data[0] == OP_CREATE {
        match create_result(a, payload) {
            Ok(_) => Ok(OutcomeView::Created),
            Err(failure) => Err(failure),
        }
    } else if data[0] == OP_READ {
        match read_result(a) {
            Ok(text) => Ok(OutcomeView::Read(text)),
            Err(failure) => Err(failure),
        }
    } else if data[0] == OP_UPDATE {
        match update_result(program, a, payload) {
            Ok(_) => Ok(OutcomeView::Updated),
            Err(failure) => Err(failure),
        }
    } else if data[0] == OP_DELETE {
        match delete_result(program, a) {
            Ok(_) => Ok(OutcomeView::Deleted),
            Err(failure) => Err(failure),
        }
    } else {
        Err(Failure::InvalidInstruction)
    }
}

/// Account `a` after the operation that `data` selects.
pub open spec fn after_routed(program: Seq<u8>, a: AccountState, data: Seq<u8>) -> AccountState
    recommends
        data.len() > 0,
{
    let payload = data.skip(1);
    if data[0] == OP_CREATE {
        after_create(a, payload)
    } else if data[0] == OP_UPDATE {
        after_update(program, a, payload)
    } else if data[0] == OP_DELETE {
        after_delete(program, a)
    } else {
        a
    }
}

/// How the instruction `data` ends on the list `accounts`, when the program
/// `program` is called with it.
///
/// In this order: the list must name an account; the program must own the
/// first account; the instruction must hold an opcode; then the operation
/// decides.
pub open spec fn process_result(program: Seq<u8>, accounts: Seq<AccountState>, data: Seq<u8>) -> Result<
    OutcomeView,
    Failure,
> {
    if accounts.len() == 0 {
        Err(Failure::MissingAccount)
    } else if accounts[0].owner != program {
        Err(Failure::IncorrectOwner)
    } else if data.len() == 0 {
        Err(Failure::InvalidArgument)
    } else {
        routed_result(program, accounts[0], data)
    }
}

/// The list `accounts` after the instruction `data`: the first account is as
/// the operation left it, the others are unchanged; a refused instruction
/// changes nothing.
pub open spec fn after_process(program: Seq<u8>, accounts: Seq<AccountState>, data: Seq<u8>) -> Seq<
    AccountState,
> {
    if process_result(program, accounts, data) is Ok {
        accounts.update(0, after_routed(program, accounts[0], data))
    } else {
        accounts
    }
}

/// Carries out one instruction for the program `program_id`.
pub fn process_instruction(
    program_id: &Identity,
    accounts: &mut [Account],
    instruction_data: &[u8],
) -> (res: Result<Outcome, Failure>)
    ensures
        match res {
            Ok(outcome) => process_result(program_id@, states(old(accounts)@), instruction_data@)
                == Ok::<OutcomeView, Failure>(outcome@),
            Err(failure) => process_result(program_id@, states(old(accounts)@), instruction_data@)
                == Err::<OutcomeView, Failure>(failure),
        },
        states(final(accounts)@) == after_process(
            program_id@,
            states(old(accounts)@),
            instruction_data@,
        ),
{
    let message_account = match accounts.first_mut() {
        Some(account) => account,
        None => {
            return Err(Failure::MissingAccount);
        },
    };
    if !message_account.owner().same_as(program_id) {
        return Err(Failure::IncorrectOwner);
    }
    if instruction_data.len() == 0 {
        return Err(Failure::InvalidArgument);
    }
    let instruction = instruction_data[0];
    let payload = vstd::slice::slice_subrange(instruction_data, 1, instruction_data.len());
    if instruction == OP_CREATE {
        match create_message(message_account, payload) {
            Ok(_) => Ok(Outcome::Created),
            Err(failure) => Err(failure),
        }
    } else if instruction == OP_READ {
        match read_message(message_account) {
            Ok(message) => Ok(Outcome::Read(message)),
            Err(failure) => Err(failure),
        }
    } else if instruction == OP_UPDATE {
        match update_message(program_id, message_account, payload) {
            Ok(_) => Ok(Outcome::Updated),
            Err(failure) => Err(failure),
        }
    } else if instruction == OP_DELETE {
        match delete_message(program_id, message_account) {
            Ok(_) => Ok(Outcome::Deleted),
            Err(failure) => Err(failure),
        }
    } else {
        Err(Failure::InvalidInstruction)
    }
}

} // verus!
