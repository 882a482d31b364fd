//! What holds of sequences of operations.
//!
//! Every statement here is about the functions that the operations and the
//! entry point are specified by, so it holds of every execution of them.
//! A text `s` is given to create and update as the payload `encode_utf8(s)`;
//! every valid payload is of that form.

use crate::account::AccountState;
use crate::failure::Failure;
use crate::message::{lemma_record_round_trip, payload_text, record_bytes, record_text};
use crate::operations::{
    after_create, after_delete, after_update, create_result, delete_result, read_result,
    update_result,
};
use crate::processor::{
    after_process, process_result, OutcomeView, OP_CREATE, OP_DELETE, OP_READ, OP_UPDATE,
};
use vstd::prelude::*;
use vstd::utf8::encode_utf8;

verus! {

/// The payload that carries a text is valid, and carries that text.
pub proof fn lemma_payload_of_text(text: Seq<char>)
    ensures
        payload_text(encode_utf8(text)) == Some(text),
{
    vstd::utf8::encode_utf8_valid_utf8(text);
    vstd::utf8::encode_utf8_decode_utf8(text);
}

/// What was written to an account is what it stores, and parses as the
/// record that was serialized.
pub proof fn lemma_written_record(a: AccountState, text: Seq<char>)
    requires
        record_bytes(text).len() <= a.capacity(),
        a.capacity() <= usize::MAX,
    ensures
        a.written(record_bytes(text)).wf(),
        a.written(record_bytes(text)).capacity() == a.capacity(),
        a.written(record_bytes(text)).owner == a.owner,
        a.written(record_bytes(text)).len > 0,
        a.written(record_bytes(text)).stored() == record_bytes(text),
        record_text(a.written(record_bytes(text)).stored()) == Some(text),
{
    let bytes = record_bytes(text);
    crate::message::lemma_record_bytes_len(text);
    assert(a.written(bytes).stored() =~= bytes);
    lemma_record_round_trip(text, Seq::<u8>::empty());
    assert(bytes + Seq::<u8>::empty() =~= bytes);
}

/// Round trip: a text that fits an empty account is created, and a read then
/// returns exactly that text.
pub proof fn lemma_create_then_read(a: AccountState, text: Seq<char>)
    requires
        a.wf(),
        a.len == 0,
        record_bytes(text).len() <= a.capacity(),
    ensures
        create_result(a, encode_utf8(text)) == Ok::<(), Failure>(()),
        read_result(after_create(a, encode_utf8(text))) == Ok::<Seq<char>, Failure>(text),
{
    lemma_payload_of_text(text);
    lemma_written_record(a, text);
}

/// The last update wins: after an update to `first` and then one to `second`
/// that succeeds, a read returns `second`. On an account that holds a record,
/// both updates succeed if both texts fit.
pub proof fn lemma_update_twice_then_read(
    program: Seq<u8>,
    a: AccountState,
    first: Seq<char>,
    second: Seq<char>,
)
    requires
        a.wf(),
    ensures
        ({
            let a1 = after_update(program, a, encode_utf8(first));
            let a2 = after_update(program, a1, encode_utf8(second));
            &&& update_result(program, a1, encode_utf8(second)) is Ok ==> read_result(a2) == Ok::<
                Seq<char>,
                Failure,
            >(second)
            &&& a.owner == program && record_text(a.stored()) is Some && record_bytes(first).len()
                <= a.capacity() && record_bytes(second).len() <= a.capacity() ==> update_result(
                program,
                a,
                encode_utf8(first),
            ) is Ok && update_result(program, a1, encode_utf8(second)) is Ok
        }),
{
    lemma_payload_of_text(first);
    lemma_payload_of_text(second);
    let a1 = after_update(program, a, encode_utf8(first));
    if record_bytes(first).len() <= a.capacity() {
        lemma_written_record(a, first);
    }
    if record_bytes(second).len() <= a1.capacity() {
        lemma_written_record(a1, second);
    }
}

/// Delete clears: after a create and a delete by the owner, a read fails
/// with `UninitializedAccount`.
pub proof fn lemma_create_delete_then_read(program: Seq<u8>, a: AccountState, text: Seq<char>)
    requires
        a.wf(),
        a.owner == program,
    ensures
        ({
            let a1 = after_create(a, encode_utf8(text));
            let a2 = after_delete(program, a1);
            &&& delete_result(program, a1) == Ok::<(), Failure>(())
            &&& read_result(a2) == Err::<Seq<char>, Failure>(Failure::UninitializedAccount)
        }),
{
}

/// Storage is reusable: after a create, a delete by the owner and a create
/// of a text that fits, a read returns that text.
pub proof fn lemma_recreate_after_delete(
    program: Seq<u8>,
    a: AccountState,
    first: Seq<char>,
    second: Seq<char>,
)
    requires
        a.wf(),
        a.owner == program,
        record_bytes(second).len() <= a.capacity(),
    ensures
        ({
            let a1 = after_create(a, encode_utf8(first));
            let a2 = after_delete(program, a1);
            let a3 = after_create(a2, encode_utf8(second));
            &&& create_result(a2, encode_utf8(second)) == Ok::<(), Failure>(())
            &&& read_result(a3) == Ok::<Seq<char>, Failure>(second)
        }),
{
    lemma_payload_of_text(first);
    let a1 = after_create(a, encode_utf8(first));
    if create_result(a, encode_utf8(first)) is Ok {
        lemma_written_record(a, first);
    }
    let a2 = after_delete(program, a1);
    lemma_create_then_read(a2, second);
}

/// A second create is refused: after a create that succeeded, a create of
/// any payload fails with `AlreadyInitialized`, changes nothing, and a read
/// still returns the first text.
pub proof fn lemma_create_twice(a: AccountState, text: Seq<char>, payload: Seq<u8>)
    requires
        a.wf(),
        create_result(a, encode_utf8(text)) is Ok,
    ensures
        ({
            let a1 = after_create(a, encode_utf8(text));
            &&& create_result(a1, payload) == Err::<(), Failure>(Failure::AlreadyInitialized)
            &&& after_create(a1, payload) == a1
            &&& read_result(a1) == Ok::<Seq<char>, Failure>(text)
        }),
{
    lemma_payload_of_text(text);
    lemma_written_record(a, text);
}

/// The ownership gate: an instruction for a program that does not own the
/// first account fails with `IncorrectOwner` and changes nothing, whatever
/// the instruction holds.
pub proof fn lemma_ownership_gate(program: Seq<u8>, accounts: Seq<AccountState>, data: Seq<u8>)
    requires
        accounts.len() > 0,
        accounts[0].owner != program,
    ensures
        process_result(program, accounts, data) == Err::<OutcomeView, Failure>(
            Failure::IncorrectOwner,
        ),
        after_process(program, accounts, data) == accounts,
{
}

/// Update and delete check the owner themselves: asked for by a program that
/// does not own the account they fail with `IncorrectOwner` and change
/// nothing.
pub proof fn lemma_ownership_of_operations(program: Seq<u8>, a: AccountState, payload: Seq<u8>)
    requires
        a.owner != program,
    ensures
        update_result(program, a, payload) == Err::<(), Failure>(Failure::IncorrectOwner),
        after_update(program, a, payload) == a,
        delete_result(program, a) == Err::<(), Failure>(Failure::IncorrectOwner),
        after_delete(program, a) == a,
{
}

/// An unknown opcode: an instruction whose first byte is none of the four
/// opcodes, from the owner of the first account, fails with
/// `InvalidInstruction` and changes nothing.
pub proof fn lemma_unknown_opcode(program: Seq<u8>, accounts: Seq<AccountState>, data: Seq<u8>)
    requires
        accounts.len() > 0,
        accounts[0].owner == program,
        data.len() > 0,
        data[0] != OP_CREATE,
        data[0] != OP_READ,
        data[0] != OP_UPDATE,
        data[0] != OP_DELETE,
    ensures
        process_result(program, accounts, data) == Err::<OutcomeView, Failure>(
            Failure::InvalidInstruction,
        ),
        after_process(program, accounts, data) == accounts,
{
}

/// An oversized create: on an empty account, the create of a text whose
/// serialized form exceeds the capacity fails with `StorageSizeMismatch` and
/// changes nothing.
pub proof fn lemma_oversized_create(a: AccountState, text: Seq<char>)
    requires
        a.len == 0,
        record_bytes(text).len() > a.capacity(),
    ensures
        create_result(a, encode_utf8(text)) == Err::<(), Failure>(Failure::StorageSizeMismatch),
        after_create(a, encode_utf8(text)) == a,
{
    lemma_payload_of_text(text);
}

/// An oversized update: on an account that its owner updates and that holds
/// a record, the update to a text whose serialized form exceeds the capacity
/// fails with `StorageSizeMismatch` and changes nothing.
pub proof fn lemma_oversized_update(program: Seq<u8>, a: AccountState, text: Seq<char>)
    requires
        a.owner == program,
        record_text(a.stored()) is Some,
        record_bytes(text).len() > a.capacity(),
    ensures
        update_result(program, a, encode_utf8(text)) == Err::<(), Failure>(
            Failure::StorageSizeMismatch,
        ),
        after_update(program, a, encode_utf8(text)) == a,
{
    lemma_payload_of_text(text);
}

/// A refused operation changes nothing, and no operation changes the owner
/// or the capacity of an account.
pub proof fn lemma_failure_is_atomic(program: Seq<u8>, a: AccountState, payload: Seq<u8>)
    ensures
        create_result(a, payload) is Err ==> after_create(a, payload) == a,
        update_result(program, a, payload) is Err ==> after_update(program, a, payload) == a,
        delete_result(program, a) is Err ==> after_delete(program, a) == a,
        after_create(a, payload).owner == a.owner,
        after_update(program, a, payload).owner == a.owner,
        after_delete(program, a).owner == a.owner,
        after_create(a, payload).capacity() == a.capacity(),
        after_update(program, a, payload).capacity() == a.capacity(),
        after_delete(program, a).capacity() == a.capacity(),
{
    if create_result(a, payload) is Ok {
        let bytes = record_bytes(payload_text(payload).unwrap());
        assert(a.written(bytes).region.len() == a.region.len());
    }
    if update_result(program, a, payload) is Ok {
        let bytes = record_bytes(payload_text(payload).unwrap());
        assert(a.written(bytes).region.len() == a.region.len());
    }
}

/// Routing: an instruction made of an opcode and a payload, from the owner
/// of the first account, ends as the operation of that opcode does on that
/// account, and leaves the other accounts alone.
pub proof fn lemma_routing(program: Seq<u8>, accounts: Seq<AccountState>, payload: Seq<u8>)
    requires
        accounts.len() > 0,
        accounts[0].owner == program,
    ensures
        process_result(program, accounts, seq![OP_CREATE] + payload) == (match create_result(
            accounts[0],
            payload,
        ) {
            Ok(_) => Ok::<OutcomeView, Failure>(OutcomeView::Created),
            Err(failure) => Err::<OutcomeView, Failure>(failure),
        }),
        after_process(program, accounts, seq![OP_CREATE] + payload) == accounts.update(
            0,
            after_create(accounts[0], payload),
        ),
        process_result(program, accounts, seq![OP_READ] + payload) == (match read_result(
            accounts[0],
        ) {
            Ok(text) => Ok::<OutcomeView, Failure>(OutcomeView::Read(text)),
            Err(failure) => Err::<OutcomeView, Failure>(failure),
        }),
        after_process(program, accounts, seq![OP_READ] + payload) == accounts,
        process_result(program, accounts, seq![OP_UPDATE] + payload) == (match update_result(
            program,
            accounts[0],
            payload,
        ) {
            Ok(_) => Ok::<OutcomeView, Failure>(OutcomeView::Updated),
            Err(failure) => Err::<OutcomeView, Failure>(failure),
        }),
        after_process(program, accounts, seq![OP_UPDATE] + payload) == accounts.update(
            0,
            after_update(program, accounts[0], payload),
        ),
        process_result(program, accounts, seq![OP_DELETE] + payload) == Ok::<OutcomeView, Failure>(
            OutcomeView::Deleted,
        ),
        after_process(program, accounts, seq![OP_DELETE] + payload) == accounts.update(
            0,
            accounts[0].cleared(),
        ),
{
    assert((seq![OP_CREATE] + payload).skip(1) =~= payload);
    assert((seq![OP_READ] + payload).skip(1) =~= payload);
    assert((seq![OP_UPDATE] + payload).skip(1) =~= payload);
    assert((seq![OP_DELETE] + payload).skip(1) =~= payload);
    assert(accounts.update(0, accounts[0]) =~= accounts);
}

} // verus!
