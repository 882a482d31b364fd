//! The four operations on an account's record.
//!
//! Each operation makes all of its checks before it writes, so one that is
//! refused leaves the account as it was.

use crate::account::{Account, AccountState};
use crate::failure::Failure;
use crate::identity::Identity;
use crate::message::{payload_text, record_bytes, record_text, Message};
use vstd::prelude::*;

verus! {

/// How a create of the record that `payload` encodes ends on account `a`.
///
/// The account must hold nothing, the payload must be valid UTF-8, and the
/// serialized record must fit the account's capacity; the first of these that
/// does not hold decides the failure.
pub open spec fn create_result(a: AccountState, payload: Seq<u8>) -> Result<(), Failure> {
    if a.len != 0 {
        Err(Failure::AlreadyInitialized)
    } else if payload_text(payload) is None {
        Err(Failure::InvalidEncoding)
    } else if record_bytes(payload_text(payload).unwrap()).len() > a.capacity() {
        Err(Failure::StorageSizeMismatch)
    } else {
        Ok(())
    }
}

/// The account after a create: it holds the serialized record if the create
/// succeeded, and is unchanged if not.
pub open spec fn after_create(a: AccountState, payload: Seq<u8>) -> AccountState {
    if create_result(a, payload) is Ok {
        a.written(record_bytes(payload_text(payload).unwrap()))
    } else {
        a
    }
}

/// How a read ends on account `a`: with the text of the stored record.
///
/// The account must hold something, and what it holds must parse as a record.
pub open spec fn read_result(a: AccountState) -> Result<Seq<char>, Failure> {
    if a.len == 0 {
        Err(Failure::UninitializedAccount)
    } else {
        match record_text(a.stored()) {
            Some(text) => Ok(text),
            None => Err(Failure::DeserializationError),
        }
    }
}

/// How an update to the record that `payload` encodes ends on account `a`,
/// when the program `program` asks for it.
///
/// The program must own the account, the payload must be valid UTF-8, the
/// storage must parse as a record, and the new serialized record must fit the
/// account's capacity; the first of these that does not hold decides the
/// failure. An account that holds nothing does not parse.
pub open spec fn update_result(program: Seq<u8>, a: AccountState, payload: Seq<u8>) -> Result<
    (),
    Failure,
> {
    if a.owner != program {
        Err(Failure::IncorrectOwner)
    } else if payload_text(payload) is None {
        Err(Failure::InvalidEncoding)
    } else if record_text(a.stored()) is None {
        Err(Failure::DeserializationError)
    } else if record_bytes(payload_text(payload).unwrap()).len() > a.capacity() {
        Err(Failure::StorageSizeMismatch)
    } else {
        Ok(())
    }
}

/// The account after an update: it holds the new serialized record if the
/// update succeeded, and is unchanged if not.
pub open spec fn after_update(program: Seq<u8>, a: AccountState, payload: Seq<u8>) -> AccountState {
    if update_result(program, a, payload) is Ok {
        a.written(record_bytes(payload_text(payload).unwrap()))
    } else {
        a
    }
}

/// How a delete ends on account `a`, when the program `program` asks for it:
/// it succeeds exactly when the program owns the account.
pub open spec fn delete_result(program: Seq<u8>, a: AccountState) -> Result<(), Failure> {
    if a.owner != program {
        Err(Failure::IncorrectOwner)
    } else {
        Ok(())
    }
}

/// The account after a delete: cleared if the delete succeeded, and unchanged
/// if not.
pub open spec fn after_delete(program: Seq<u8>, a: AccountState) -> AccountState {
    if delete_result(program, a) is Ok {
        a.cleared()
    } else {
        a
    }
}

/// Stores the record whose text `payload` encodes in an account that holds
/// nothing.
pub fn create_message(account: &mut Account, payload: &[u8]) -> (res: Result<(), Failure>)
    ensures
        res == create_result(old(account)@, payload@),
        final(account)@ == after_create(old(account)@, payload@),
{
    if account.len() > 0 {
        return Err(Failure::AlreadyInitialized);
    }
    let message = match Message::from_payload(payload) {
        Ok(message) => message,
        Err(failure) => return Err(failure),
    };
    let bytes = message.to_bytes();
    account.write(bytes.as_slice())
}

/// Gives the record stored in the account.
pub fn read_message(account: &Account) -> (res: Result<Message, Failure>)
    ensures
        match res {
            Ok(message) => read_result(account@) == Ok::<Seq<char>, Failure>(message@),
            Err(failure) => read_result(account@) == Err::<Seq<char>, Failure>(failure),
        },
{
    if account.len() == 0 {
        return Err(Failure::UninitializedAccount);
    }
    Message::from_bytes(account.stored())
}

/// Replaces the text of the record stored in the account by the text that
/// `payload` encodes.
pub fn update_message(program_id: &Identity, account: &mut Account, payload: &[u8]) -> (res:
    Result<(), Failure>)
    ensures
        res == update_result(program_id@, old(account)@, payload@),
        final(account)@ == after_update(program_id@, old(account)@, payload@),
{
    if !account.owner().same_as(program_id) {
        return Err(Failure::IncorrectOwner);
    }
    let replacement = match Message::from_payload(payload) {
        Ok(message) => message,
        Err(failure) => return Err(failure),
    };
    let mut message = match Message::from_bytes(account.stored()) {
        Ok(message) => message,
        Err(failure) => return Err(failure),
    };
    message.data = replacement.data;
    let bytes = message.to_bytes();
    account.write(bytes.as_slice())
}

/// Clears the account: its region is filled with zeros and it holds nothing.
/// Clearing an account that holds nothing succeeds too.
pub fn delete_message(program_id: &Identity, account: &mut Account) -> (res: Result<(), Failure>)
    ensures
        res == delete_result(program_id@, old(account)@),
        final(account)@ == after_delete(program_id@, old(account)@),
{
    if !account.owner().same_as(program_id) {
        return Err(Failure::IncorrectOwner);
    }
    account.clear();
    Ok(())
}

} // verus!
