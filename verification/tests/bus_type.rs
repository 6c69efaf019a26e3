use dbus::channel::BusType;
use std::collections::HashSet;

#[test]
fn test_bus_type_is_compatible_with_set() {
    let mut set: HashSet<BusType> = HashSet::new();
    set.insert(BusType::Starter);
    set.insert(BusType::Starter);

    assert_eq!(set.len(), 1);
    assert!(!set.contains(&BusType::Session));
    assert!(!set.contains(&BusType::System));
    assert!(set.contains(&BusType::Starter));
}

#[test]
fn buses_have_their_numbers() {
    assert_eq!(BusType::Session.code(), 0);
    assert_eq!(BusType::System.code(), 1);
    assert_eq!(BusType::Starter.code(), 2);
}

#[test]
fn buses_are_ordered_by_number() {
    assert!(BusType::Session < BusType::System);
    assert!(BusType::System < BusType::Starter);
    assert_eq!(BusType::Starter as isize, 2);
}
