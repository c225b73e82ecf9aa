//! The greeting counter program and the small geometry exercise.

use escrow::geometry::{Point, Rectangle};
use escrow::greeting::{
    GreetingAccount, GreetingError, GreetingInstruction, GreetingProcessError, Processor,
};
use escrow::identity::Identity;

fn id(b: u8) -> Identity {
    Identity::from_bytes([b; 32])
}

fn packed(counter: u32, free_counter: u64) -> Vec<u8> {
    let mut data = vec![0u8; 12];
    GreetingAccount { counter, free_counter }.pack_into_slice(&mut data);
    data
}

#[test]
fn greeting_record_round_trips() {
    let data = packed(7, 0x0102030405060708);
    let back = GreetingAccount::unpack_from_slice(&data).unwrap();
    assert_eq!(back.counter, 7);
    assert_eq!(back.free_counter, 0x0102030405060708);
}

#[test]
fn greeting_layout_matches_borsh() {
    // The record's manual layout is the same little-endian field order
    // that borsh gives the pair of counters.
    let data = packed(7, 300);
    assert_eq!(data, borsh::to_vec(&(7u32, 300u64)).unwrap());
}

#[test]
fn greeting_instruction_unpack() {
    let mut payload = vec![0u8];
    payload.extend_from_slice(&55u64.to_le_bytes());
    assert_eq!(
        GreetingInstruction::unpack(&payload).unwrap(),
        GreetingInstruction::InitGreeting { amount: 55 }
    );
    assert_eq!(GreetingInstruction::unpack(&[]).err(), Some(GreetingError::InvalidInstruction));
    assert_eq!(
        GreetingInstruction::unpack(&[1u8, 0, 0, 0, 0, 0, 0, 0, 0]).err(),
        Some(GreetingError::InvalidInstruction)
    );
    assert_eq!(
        GreetingInstruction::unpack(&[0u8, 1, 2]).err(),
        Some(GreetingError::InvalidInstruction)
    );
}

#[test]
fn greeting_increments_counters() {
    let mut data = packed(2, 40);
    let mut payload = vec![0u8];
    payload.extend_from_slice(&5u64.to_le_bytes());
    Processor::process(&id(1), &id(1), &mut data, &payload).unwrap();
    let back = GreetingAccount::unpack_from_slice(&data).unwrap();
    assert_eq!(back.counter, 3);
    assert_eq!(back.free_counter, 45);
}

#[test]
fn greeting_rejects_unknown_instruction() {
    let mut data = packed(2, 40);
    let mut payload = vec![1u8];
    payload.extend_from_slice(&5u64.to_le_bytes());
    let r = Processor::process(&id(1), &id(1), &mut data, &payload);
    assert_eq!(r, Err(GreetingProcessError::InvalidInstruction));
    assert_eq!(data, packed(2, 40));
}

#[test]
fn greeting_rejects_foreign_account() {
    let mut data = packed(2, 40);
    let r = Processor::process_greeting(&id(1), &id(2), &mut data, 5);
    assert_eq!(r, Err(GreetingProcessError::IncorrectProgramId));
    assert_eq!(data, packed(2, 40));
}

#[test]
fn greeting_rejects_short_record() {
    let mut data = vec![0u8; 11];
    let r = Processor::process_greeting(&id(1), &id(1), &mut data, 5);
    assert_eq!(r, Err(GreetingProcessError::InvalidAccountData));
}

#[test]
fn rectangle_area() {
    let rect = Rectangle {
        top_left: Point { x: 1, y: 1 },
        bottom_right: Point { x: 2, y: 2 },
    };
    assert_eq!(rect.area(), 1);
    let wide = Rectangle {
        top_left: Point { x: -3, y: 0 },
        bottom_right: Point { x: 4, y: 5 },
    };
    assert_eq!(wide.area(), 35);
}
