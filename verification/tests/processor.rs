use message_store::account::Account;
use message_store::failure::Failure;
use message_store::identity::Identity;
use message_store::message::Message;
use message_store::processor::{
    process_instruction, Outcome, OP_CREATE, OP_DELETE, OP_READ, OP_UPDATE,
};

fn program() -> Identity {
    Identity::new([1; 32])
}

fn stranger() -> Identity {
    Identity::new([2; 32])
}

fn instruction(opcode: u8, payload: &[u8]) -> Vec<u8> {
    let mut data = vec![opcode];
    data.extend_from_slice(payload);
    data
}

fn snapshot(accounts: &[Account]) -> Vec<(Vec<u8>, usize)> {
    accounts.iter().map(|a| (a.region().to_vec(), a.len())).collect()
}

#[test]
fn opcodes_are_zero_to_three() {
    assert_eq!((OP_CREATE, OP_READ, OP_UPDATE, OP_DELETE), (0, 1, 2, 3));
}

#[test]
fn process_without_accounts_is_missing_account() {
    let mut accounts: Vec<Account> = Vec::new();
    assert_eq!(
        process_instruction(&program(), &mut accounts, &instruction(0, b"hello")),
        Err(Failure::MissingAccount)
    );
    assert_eq!(
        process_instruction(&program(), &mut accounts, &[]),
        Err(Failure::MissingAccount)
    );
}

#[test]
fn process_gates_every_opcode_on_the_owner() {
    for opcode in [0u8, 1, 2, 3, 4, 255] {
        let mut accounts = vec![Account::new(stranger(), 32)];
        let before = snapshot(&accounts);
        assert_eq!(
            process_instruction(&program(), &mut accounts, &instruction(opcode, b"hello")),
            Err(Failure::IncorrectOwner)
        );
        assert_eq!(snapshot(&accounts), before);
    }
}

#[test]
fn process_checks_the_owner_before_the_opcode_byte() {
    let mut accounts = vec![Account::new(stranger(), 32)];
    assert_eq!(
        process_instruction(&program(), &mut accounts, &[]),
        Err(Failure::IncorrectOwner)
    );
}

#[test]
fn process_gates_on_the_owner_of_an_initialized_account() {
    let mut accounts = vec![Account::new(stranger(), 32)];
    process_instruction(&stranger(), &mut accounts, &instruction(0, b"theirs")).unwrap();
    let before = snapshot(&accounts);
    for opcode in [0u8, 1, 2, 3] {
        assert_eq!(
            process_instruction(&program(), &mut accounts, &instruction(opcode, b"mine")),
            Err(Failure::IncorrectOwner)
        );
        assert_eq!(snapshot(&accounts), before);
    }
}

#[test]
fn process_without_opcode_is_invalid_argument() {
    let mut accounts = vec![Account::new(program(), 32)];
    let before = snapshot(&accounts);
    assert_eq!(
        process_instruction(&program(), &mut accounts, &[]),
        Err(Failure::InvalidArgument)
    );
    assert_eq!(snapshot(&accounts), before);
}

#[test]
fn process_unknown_opcode_is_invalid_instruction() {
    let mut accounts = vec![Account::new(program(), 32)];
    process_instruction(&program(), &mut accounts, &instruction(0, b"hello")).unwrap();
    let before = snapshot(&accounts);
    for opcode in [4u8, 5, 100, 255] {
        assert_eq!(
            process_instruction(&program(), &mut accounts, &instruction(opcode, b"x")),
            Err(Failure::InvalidInstruction)
        );
        assert_eq!(snapshot(&accounts), before);
    }
    assert_eq!(
        process_instruction(&program(), &mut accounts, &[4]),
        Err(Failure::InvalidInstruction)
    );
}

#[test]
fn process_routes_the_four_opcodes() {
    let mut accounts = vec![Account::new(program(), 32)];
    assert_eq!(
        process_instruction(&program(), &mut accounts, &instruction(0, b"hello")),
        Ok(Outcome::Created)
    );
    assert_eq!(
        process_instruction(&program(), &mut accounts, &[1]),
        Ok(Outcome::Read(Message::new(String::from("hello"))))
    );
    assert_eq!(
        process_instruction(&program(), &mut accounts, &instruction(2, b"goodbye")),
        Ok(Outcome::Updated)
    );
    assert_eq!(
        process_instruction(&program(), &mut accounts, &[1]),
        Ok(Outcome::Read(Message::new(String::from("goodbye"))))
    );
    assert_eq!(
        process_instruction(&program(), &mut accounts, &[3]),
        Ok(Outcome::Deleted)
    );
    assert_eq!(
        process_instruction(&program(), &mut accounts, &[1]),
        Err(Failure::UninitializedAccount)
    );
    assert_eq!(accounts[0].region(), &[0u8; 32]);
}

#[test]
fn process_takes_the_payload_after_the_opcode() {
    let mut accounts = vec![Account::new(program(), 32)];
    process_instruction(&program(), &mut accounts, &[0, b'h', b'i']).unwrap();
    assert_eq!(accounts[0].stored(), &[2, 0, 0, 0, 0, 0, 0, 0, b'h', b'i']);
}

#[test]
fn process_create_with_only_an_opcode_stores_the_empty_text() {
    let mut accounts = vec![Account::new(program(), 32)];
    assert_eq!(
        process_instruction(&program(), &mut accounts, &[0]),
        Ok(Outcome::Created)
    );
    assert_eq!(
        process_instruction(&program(), &mut accounts, &[1]),
        Ok(Outcome::Read(Message::default()))
    );
}

#[test]
fn process_ignores_the_payload_of_read_and_delete() {
    let mut accounts = vec![Account::new(program(), 32)];
    process_instruction(&program(), &mut accounts, &instruction(0, b"hello")).unwrap();
    assert_eq!(
        process_instruction(&program(), &mut accounts, &[1, 0xff, 0xfe]),
        Ok(Outcome::Read(Message::new(String::from("hello"))))
    );
    assert_eq!(
        process_instruction(&program(), &mut accounts, &[3, 0xff, 0xfe]),
        Ok(Outcome::Deleted)
    );
}

#[test]
fn process_passes_the_failures_of_the_operations_on() {
    let mut accounts = vec![Account::new(program(), 12)];
    assert_eq!(
        process_instruction(&program(), &mut accounts, &[1]),
        Err(Failure::UninitializedAccount)
    );
    assert_eq!(
        process_instruction(&program(), &mut accounts, &instruction(2, b"hi")),
        Err(Failure::DeserializationError)
    );
    assert_eq!(
        process_instruction(&program(), &mut accounts, &[0, 0xff]),
        Err(Failure::InvalidEncoding)
    );
    assert_eq!(
        process_instruction(&program(), &mut accounts, &instruction(0, b"hello")),
        Err(Failure::StorageSizeMismatch)
    );
    assert_eq!(snapshot(&accounts), vec![(vec![0u8; 12], 0)]);
    process_instruction(&program(), &mut accounts, &instruction(0, b"hi")).unwrap();
    assert_eq!(
        process_instruction(&program(), &mut accounts, &instruction(0, b"yo")),
        Err(Failure::AlreadyInitialized)
    );
    assert_eq!(
        process_instruction(&program(), &mut accounts, &instruction(2, b"hello")),
        Err(Failure::StorageSizeMismatch)
    );
    assert_eq!(
        process_instruction(&program(), &mut accounts, &[1]),
        Ok(Outcome::Read(Message::new(String::from("hi"))))
    );
}

#[test]
fn process_acts_on_the_first_account_only() {
    let mut accounts = vec![
        Account::new(program(), 32),
        Account::new(stranger(), 16),
        Account::new(program(), 16),
    ];
    process_instruction(&program(), &mut accounts, &instruction(0, b"hello")).unwrap();
    assert_eq!(accounts.len(), 3);
    assert_eq!(accounts[0].len(), 13);
    assert_eq!(accounts[1].region(), &[0u8; 16]);
    assert_eq!(accounts[1].len(), 0);
    assert_eq!(accounts[2].region(), &[0u8; 16]);
    assert_eq!(accounts[2].len(), 0);
    assert!(accounts[1].owner().same_as(&stranger()));
}

#[test]
fn process_recreates_after_delete() {
    let mut accounts = vec![Account::new(program(), 32)];
    process_instruction(&program(), &mut accounts, &instruction(0, b"first")).unwrap();
    process_instruction(&program(), &mut accounts, &[3]).unwrap();
    process_instruction(&program(), &mut accounts, &instruction(0, b"second")).unwrap();
    assert_eq!(
        process_instruction(&program(), &mut accounts, &[1]),
        Ok(Outcome::Read(Message::new(String::from("second"))))
    );
}
