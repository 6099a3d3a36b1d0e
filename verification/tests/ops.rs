//! Tests for the capability-checked characteristic operations and the
//! notification demultiplexer.

use ble_central::errors::Error;
use ble_central::gatt::{
    find_characteristic, has_flag, Characteristic, Uuid, PROP_INDICATE, PROP_NOTIFY, PROP_READ,
    PROP_WRITE, PROP_WRITE_WITHOUT_RESPONSE,
};
use ble_central::ops::{
    check_read, check_subscribe, filter_notifications, notification_matches, prepare_write,
    ValueNotification, WriteKind,
};

fn uuid(value: u128) -> Uuid {
    Uuid { value }
}

fn characteristic(value: u128, properties: u8) -> Characteristic {
    Characteristic { uuid: uuid(value), properties }
}

#[test]
fn flags_are_read_bit_by_bit() {
    assert!(has_flag(PROP_READ | PROP_NOTIFY, PROP_READ));
    assert!(has_flag(PROP_READ | PROP_NOTIFY, PROP_NOTIFY));
    assert!(!has_flag(PROP_READ | PROP_NOTIFY, PROP_WRITE));
    assert!(!has_flag(0, PROP_READ));
}

#[test]
fn lookup_finds_the_first_match() {
    let chars = vec![
        characteristic(1, PROP_READ),
        characteristic(2, PROP_WRITE),
        characteristic(2, PROP_NOTIFY),
    ];
    assert_eq!(find_characteristic(&chars, uuid(2)), Some(1));
    assert_eq!(find_characteristic(&chars, uuid(1)), Some(0));
    assert_eq!(find_characteristic(&chars, uuid(9)), None);
}

#[test]
fn read_requires_the_read_flag() {
    let chars = vec![characteristic(1, PROP_WRITE | PROP_NOTIFY)];
    assert_eq!(check_read(&chars, uuid(1)), Err(Error::CharacteristicDoesNotSupportRead));
    let readable = vec![characteristic(1, PROP_READ)];
    assert_eq!(check_read(&readable, uuid(1)), Ok(0));
}

#[test]
fn read_of_an_absent_characteristic_fails() {
    let chars = vec![characteristic(1, PROP_READ)];
    assert_eq!(check_read(&chars, uuid(2)), Err(Error::CharacteristicNotFound));
}

#[test]
fn write_requires_the_write_flag() {
    let chars = vec![characteristic(1, PROP_READ | PROP_WRITE_WITHOUT_RESPONSE)];
    assert_eq!(
        prepare_write(&chars, uuid(1), &[0x01]),
        Err(Error::CharacteristicDoesNotSupportWrite)
    );
    assert_eq!(
        prepare_write(&chars, uuid(3), &[0x01]),
        Err(Error::CharacteristicNotFound)
    );
}

#[test]
fn write_forwards_the_payload_unmodified() {
    let chars = vec![characteristic(7, PROP_NOTIFY), characteristic(1, PROP_WRITE)];
    let command = prepare_write(&chars, uuid(1), &[0x01, 0x02]).unwrap();
    assert_eq!(command.characteristic_index, 1);
    assert_eq!(command.payload, vec![0x01, 0x02]);
    assert_eq!(command.write_type, WriteKind::WithoutResponse);
}

#[test]
fn write_of_nothing_forwards_nothing() {
    let chars = vec![characteristic(1, PROP_WRITE)];
    let command = prepare_write(&chars, uuid(1), &[]).unwrap();
    assert_eq!(command.payload, Vec::<u8>::new());
}

#[test]
fn subscribe_requires_the_notify_flag() {
    let chars = vec![characteristic(1, PROP_READ | PROP_INDICATE)];
    assert_eq!(
        check_subscribe(&chars, uuid(1)),
        Err(Error::CharacteristicDoesNotSupportNotify)
    );
    assert_eq!(check_subscribe(&chars, uuid(2)), Err(Error::CharacteristicNotFound));
    let notifying = vec![characteristic(1, PROP_NOTIFY)];
    assert_eq!(check_subscribe(&notifying, uuid(1)), Ok(0));
}

fn notification(value_of_uuid: u128, payload: &[u8]) -> ValueNotification {
    ValueNotification { uuid: uuid(value_of_uuid), value: payload.to_vec() }
}

#[test]
fn notifications_are_matched_by_uuid() {
    assert!(notification_matches(&notification(5, &[1]), uuid(5)));
    assert!(!notification_matches(&notification(6, &[1]), uuid(5)));
}

#[test]
fn interleaved_notifications_are_demultiplexed_in_order() {
    let interleaved = vec![
        notification(1, &[0xA0]),
        notification(2, &[0xB0]),
        notification(1, &[0xA1]),
        notification(2, &[0xB1]),
        notification(1, &[0xA2]),
    ];
    let only_first = filter_notifications(interleaved, uuid(1));
    assert_eq!(
        only_first,
        vec![notification(1, &[0xA0]), notification(1, &[0xA1]), notification(1, &[0xA2])]
    );
}

#[test]
fn unsubscribed_notifications_are_all_dropped() {
    let foreign = vec![notification(2, &[1]), notification(3, &[2])];
    assert_eq!(filter_notifications(foreign, uuid(1)), Vec::new());
}
