use std::collections::hash_map::DefaultHasher;
use std::collections::HashSet;
use std::hash::{Hash, Hasher};

use socketcan_raw::address::{
    __c_anonymous_sockaddr_can_can_addr, __c_anonymous_sockaddr_can_j1939,
    __c_anonymous_sockaddr_can_tp, can_filter, sockaddr_can, CAN_FILTER_SIZE, SOCKADDR_CAN_SIZE,
};
use socketcan_raw::byte_order::ByteOrder;

fn std_hash(filter: &can_filter) -> u64 {
    let mut hasher = DefaultHasher::new();
    filter.hash(&mut hasher);
    hasher.finish()
}

#[test]
fn equal_filters_are_equal_and_hash_alike() {
    let a = can_filter { can_id: 0x123, can_mask: 0x7FF };
    let b = can_filter { can_id: 0x123, can_mask: 0x7FF };
    assert_eq!(a, b);
    assert!(a.same_as(&b));
    assert_eq!(std_hash(&a), std_hash(&b));
    assert_eq!(a.stable_hash(), b.stable_hash());
}

#[test]
fn different_filters_are_told_apart() {
    let a = can_filter { can_id: 0x123, can_mask: 0x7FF };
    let other_id = can_filter { can_id: 0x124, can_mask: 0x7FF };
    let other_mask = can_filter { can_id: 0x123, can_mask: 0x7FE };
    let swapped = can_filter { can_id: 0x7FF, can_mask: 0x123 };
    assert_ne!(a, other_id);
    assert_ne!(a, other_mask);
    assert_ne!(a, swapped);
    assert!(!a.same_as(&other_id));
    assert!(!a.same_as(&other_mask));
    assert_ne!(a.stable_hash(), other_id.stable_hash());
    assert_ne!(a.stable_hash(), other_mask.stable_hash());
    assert_ne!(a.stable_hash(), swapped.stable_hash());
}

#[test]
fn stable_hash_value() {
    let filter = can_filter { can_id: 0x8000_0001, can_mask: 0x1FFF_FFFF };
    assert_eq!(filter.stable_hash(), 0x8000_0001_1FFF_FFFF);
    assert_eq!(can_filter { can_id: 0, can_mask: 0 }.stable_hash(), 0);
    assert_eq!(
        can_filter { can_id: u32::MAX, can_mask: u32::MAX }.stable_hash(),
        u64::MAX
    );
}

#[test]
fn filters_deduplicate_in_a_set() {
    let mut set = HashSet::new();
    set.insert(can_filter { can_id: 1, can_mask: 2 });
    set.insert(can_filter { can_id: 1, can_mask: 2 });
    set.insert(can_filter { can_id: 2, can_mask: 1 });
    assert_eq!(set.len(), 2);
}

#[test]
fn filter_bytes() {
    let filter = can_filter { can_id: 0x0000_0123, can_mask: 0xC000_07FF };
    assert_eq!(
        filter.to_bytes(ByteOrder::Little),
        vec![0x23, 0x01, 0, 0, 0xFF, 0x07, 0, 0xC0]
    );
    assert_eq!(
        filter.to_bytes(ByteOrder::Big),
        vec![0, 0, 0x01, 0x23, 0xC0, 0, 0x07, 0xFF]
    );
    assert_eq!(filter.to_bytes(ByteOrder::Big).len(), CAN_FILTER_SIZE);
}

#[test]
fn filter_round_trip() {
    let filter = can_filter { can_id: 0x9ABC_DEF0, can_mask: 0x1234_5678 };
    for order in [ByteOrder::Little, ByteOrder::Big] {
        let back = can_filter::from_bytes(&filter.to_bytes(order), order);
        assert_eq!(back, Some(filter));
    }
    assert_eq!(can_filter::from_bytes(&[0u8; 7], ByteOrder::Little), None);
    assert_eq!(can_filter::from_bytes(&[0u8; 9], ByteOrder::Little), None);
}

#[test]
fn address_reads_the_addressing_it_holds() {
    let tp = __c_anonymous_sockaddr_can_tp { rx_id: 0x700, tx_id: 0x708 };
    let addr = sockaddr_can {
        can_family: 29,
        can_ifindex: 3,
        can_addr: __c_anonymous_sockaddr_can_can_addr::Tp(tp),
    };
    assert_eq!(addr.tp(), Some(tp));
    assert_eq!(addr.j1939(), None);

    let j = __c_anonymous_sockaddr_can_j1939 { name: 7, pgn: 0x40000, addr: 0xFF };
    let addr = sockaddr_can {
        can_family: 29,
        can_ifindex: 3,
        can_addr: __c_anonymous_sockaddr_can_can_addr::J1939(j),
    };
    assert_eq!(addr.tp(), None);
    assert_eq!(addr.j1939(), Some(j));
}

#[test]
fn transport_address_bytes() {
    let addr = sockaddr_can {
        can_family: 29,
        can_ifindex: 0x0102_0304,
        can_addr: __c_anonymous_sockaddr_can_can_addr::Tp(__c_anonymous_sockaddr_can_tp {
            rx_id: 0x0000_0700,
            tx_id: 0x0000_0708,
        }),
    };
    assert_eq!(
        addr.to_bytes(ByteOrder::Little),
        vec![29, 0, 0, 0, 4, 3, 2, 1, 0, 0x07, 0, 0, 0x08, 0x07, 0, 0, 0, 0, 0, 0, 0, 0, 0, 0]
    );
    assert_eq!(
        addr.to_bytes(ByteOrder::Big),
        vec![0, 29, 0, 0, 1, 2, 3, 4, 0, 0, 0x07, 0, 0, 0, 0x07, 0x08, 0, 0, 0, 0, 0, 0, 0, 0]
    );
    assert_eq!(addr.to_bytes(ByteOrder::Little).len(), SOCKADDR_CAN_SIZE);
}

#[test]
fn j1939_address_bytes() {
    let addr = sockaddr_can {
        can_family: 29,
        can_ifindex: -1,
        can_addr: __c_anonymous_sockaddr_can_can_addr::J1939(__c_anonymous_sockaddr_can_j1939 {
            name: 0x0102_0304_0506_0708,
            pgn: 0x0004_0000,
            addr: 0xFE,
        }),
    };
    assert_eq!(
        addr.to_bytes(ByteOrder::Little),
        vec![
            29, 0, 0, 0, 0xFF, 0xFF, 0xFF, 0xFF, 8, 7, 6, 5, 4, 3, 2, 1, 0, 0, 4, 0, 0xFE, 0, 0,
            0
        ]
    );
    assert_eq!(
        addr.to_bytes(ByteOrder::Big),
        vec![
            0, 29, 0, 0, 0xFF, 0xFF, 0xFF, 0xFF, 1, 2, 3, 4, 5, 6, 7, 8, 0, 4, 0, 0, 0xFE, 0, 0,
            0
        ]
    );
}
