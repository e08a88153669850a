//! The address that a CAN socket is bound to, and the acceptance filter.

use vstd::prelude::*;
use crate::constants::canid_t;
use crate::byte_order::{
    lemma_u32_bytes_of_value, lemma_u32_value_of_bytes, push_u16, push_u32, push_u64, read_u32,
    u16_bytes, u32_bytes, u32_value, u64_bytes, ByteOrder,
};

verus! {

/// Size of a socket address of the CAN family, in bytes.
pub const SOCKADDR_CAN_SIZE: usize = 24;

/// Size of a filter, in bytes.
pub const CAN_FILTER_SIZE: usize = 8;

/// Addressing of a transport protocol: the identifiers to receive and to
/// transmit on.
#[allow(non_camel_case_types)]
#[derive(Clone, Copy, Debug, PartialEq, Eq, Structural)]
pub struct __c_anonymous_sockaddr_can_tp {
    /// Identifier to receive on.
    pub rx_id: canid_t,
    /// Identifier to transmit on.
    pub tx_id: canid_t,
}

/// Addressing of SAE J1939.
#[allow(non_camel_case_types)]
#[derive(Clone, Copy, Debug, PartialEq, Eq, Structural)]
pub struct __c_anonymous_sockaddr_can_j1939 {
    /// The 64-bit name.
    pub name: u64,
    /// Parameter group number.
    pub pgn: u32,
    /// The 8-bit address.
    pub addr: u8,
}

/// The part of an address that depends on the protocol. The two forms share
/// their place in the address's bytes; the variant says which one is there.
#[allow(non_camel_case_types)]
#[derive(Clone, Copy, Debug, PartialEq, Eq, Structural)]
pub enum __c_anonymous_sockaddr_can_can_addr {
    /// Transport protocol addressing.
    Tp(__c_anonymous_sockaddr_can_tp),
    /// J1939 addressing.
    J1939(__c_anonymous_sockaddr_can_j1939),
}

/// Address of a CAN socket: the family, the interface, and the addressing
/// of the protocol.
#[allow(non_camel_case_types)]
#[derive(Clone, Copy, Debug, PartialEq, Eq, Structural)]
pub struct sockaddr_can {
    /// Address family.
    pub can_family: u16,
    /// Index of the CAN interface.
    pub can_ifindex: i32,
    /// Addressing of the protocol.
    pub can_addr: __c_anonymous_sockaddr_can_can_addr,
}

impl __c_anonymous_sockaddr_can_can_addr {
    /// The 16 bytes that the addressing takes in an address. Bytes that
    /// the form in use leaves free are zero.
    pub open spec fn layout(self, order: ByteOrder) -> Seq<u8> {
        match self {
            __c_anonymous_sockaddr_can_can_addr::Tp(tp) => u32_bytes(order, tp.rx_id) + u32_bytes(
                order,
                tp.tx_id,
            ) + seq![0u8, 0u8, 0u8, 0u8, 0u8, 0u8, 0u8, 0u8],
            __c_anonymous_sockaddr_can_can_addr::J1939(j) => u64_bytes(order, j.name) + u32_bytes(
                order,
                j.pgn,
            ) + seq![j.addr, 0u8, 0u8, 0u8],
        }
    }
}

impl sockaddr_can {
    /// The 24 bytes of the address: family, two bytes of padding, interface
    /// index, addressing.
    pub open spec fn layout(self, order: ByteOrder) -> Seq<u8> {
        u16_bytes(order, self.can_family) + seq![0u8, 0u8] + u32_bytes(
            order,
            self.can_ifindex as u32,
        ) + self.can_addr.layout(order)
    }

    /// The transport protocol addressing, where the address holds one.
    pub fn tp(&self) -> (r: Option<__c_anonymous_sockaddr_can_tp>)
        ensures
            r == match self.can_addr {
                __c_anonymous_sockaddr_can_can_addr::Tp(tp) => Some(tp),
                __c_anonymous_sockaddr_can_can_addr::J1939(_) => None,
            },
    {
        match self.can_addr {
            __c_anonymous_sockaddr_can_can_addr::Tp(tp) => Some(tp),
            __c_anonymous_sockaddr_can_can_addr::J1939(_) => None,
        }
    }

    /// The J1939 addressing, where the address holds one.
    pub fn j1939(&self) -> (r: Option<__c_anonymous_sockaddr_can_j1939>)
        ensures
            r == match self.can_addr {
                __c_anonymous_sockaddr_can_can_addr::Tp(_) => None,
                __c_anonymous_sockaddr_can_can_addr::J1939(j) => Some(j),
            },
    {
        match self.can_addr {
            __c_anonymous_sockaddr_can_can_addr::Tp(_) => None,
            __c_anonymous_sockaddr_can_can_addr::J1939(j) => Some(j),
        }
    }

    /// The address laid out as `SOCKADDR_CAN_SIZE` bytes, as the system
    /// takes it.
    pub fn to_bytes(&self, order: ByteOrder) -> (out: Vec<u8>)
        ensures
            out@ == self.layout(order),
            out@.len() == SOCKADDR_CAN_SIZE,
    {
        let mut out: Vec<u8> = Vec::with_capacity(SOCKADDR_CAN_SIZE);
        push_u16(&mut out, order, self.can_family);
        out.push(0);
        out.push(0);
        push_u32(&mut out, order, self.can_ifindex as u32);
        match self.can_addr {
            __c_anonymous_sockaddr_can_can_addr::Tp(tp) => {
                push_u32(&mut out, order, tp.rx_id);
                push_u32(&mut out, order, tp.tx_id);
                let mut i: usize = 0;
                while i < 8
                    invariant
                        i <= 8,
                        out@ == u16_bytes(order, self.can_family) + seq![0u8, 0u8] + u32_bytes(
                            order,
                            self.can_ifindex as u32,
                        ) + u32_bytes(order, tp.rx_id) + u32_bytes(order, tp.tx_id) + Seq::new(
                            i as nat,
                            |k: int| 0u8,
                        ),
                    decreases 8 - i,
                {
                    out.push(0);
                    i += 1;
                    assert(out@ =~= u16_bytes(order, self.can_family) + seq![0u8, 0u8]
                        + u32_bytes(order, self.can_ifindex as u32) + u32_bytes(order, tp.rx_id)
                        + u32_bytes(order, tp.tx_id) + Seq::new(i as nat, |k: int| 0u8));
                }
            },
            __c_anonymous_sockaddr_can_can_addr::J1939(j) => {
                push_u64(&mut out, order, j.name);
                push_u32(&mut out, order, j.pgn);
                out.push(j.addr);
                out.push(0);
                out.push(0);
                out.push(0);
            },
        }
        assert(out@ =~= self.layout(order));
        out
    }
}

/// Acceptance filter: a frame passes where its identifier and the filter's
/// agree on the bits of the mask.
#[allow(non_camel_case_types)]
#[derive(Clone, Copy, Eq, PartialEq, Hash, Debug, Structural)]
pub struct can_filter {
    /// Identifier to match.
    pub can_id: canid_t,
    /// Mask of the bits that are compared.
    pub can_mask: canid_t,
}

impl can_filter {
    /// The identifier in the high half and the mask in the low half of one
    /// number.
    pub open spec fn key(self) -> int {
        self.can_id * 0x1_0000_0000 + self.can_mask
    }

    /// The 8 bytes of the filter: identifier, mask.
    pub open spec fn layout(self, order: ByteOrder) -> Seq<u8> {
        u32_bytes(order, self.can_id) + u32_bytes(order, self.can_mask)
    }

    /// The filter that 8 bytes stand for.
    pub open spec fn parse(bytes: Seq<u8>, order: ByteOrder) -> can_filter
        recommends
            bytes.len() == CAN_FILTER_SIZE,
    {
        can_filter {
            can_id: u32_value(order, bytes.subrange(0, 4)),
            can_mask: u32_value(order, bytes.subrange(4, 8)),
        }
    }

    /// Tells whether two filters have the same identifier and the same mask.
    pub fn same_as(&self, other: &can_filter) -> (same: bool)
        ensures
            same == (self.can_id == other.can_id && self.can_mask == other.can_mask),
            same == (*self == *other),
    {
        *self == *other
    }

    /// A number that stands for the filter: equal filters have equal
    /// numbers, and different filters have different ones.
    pub fn stable_hash(&self) -> (h: u64)
        ensures
            h == self.key(),
    {
        let high: u64 = self.can_id as u64;
        let low: u64 = self.can_mask as u64;
        high * 0x1_0000_0000 + low
    }

    /// The filter laid out as `CAN_FILTER_SIZE` bytes, as the system takes it.
    pub fn to_bytes(&self, order: ByteOrder) -> (out: Vec<u8>)
        ensures
            out@ == self.layout(order),
            out@.len() == CAN_FILTER_SIZE,
    {
        let mut out: Vec<u8> = Vec::with_capacity(CAN_FILTER_SIZE);
        push_u32(&mut out, order, self.can_id);
        push_u32(&mut out, order, self.can_mask);
        out
    }

    /// Reads a filter from exactly `CAN_FILTER_SIZE` bytes.
    pub fn from_bytes(bytes: &[u8], order: ByteOrder) -> (r: Option<can_filter>)
        ensures
            bytes@.len() != CAN_FILTER_SIZE ==> r is None,
            bytes@.len() == CAN_FILTER_SIZE ==> r == Some(can_filter::parse(bytes@, order)),
    {
        if bytes.len() != CAN_FILTER_SIZE {
            return None;
        }
        Some(can_filter { can_id: read_u32(bytes, 0, order), can_mask: read_u32(bytes, 4, order) })
    }
}

/// Two filters are equal exactly where identifier and mask are equal, and
/// exactly then their stable hashes are equal.
pub proof fn lemma_filter_equality(a: can_filter, b: can_filter)
    ensures
        (a == b) <==> (a.can_id == b.can_id && a.can_mask == b.can_mask),
        (a == b) <==> (a.key() == b.key()),
        0 <= a.key() <= u64::MAX,
{
}

/// A filter laid out as bytes has the declared size, and reading those
/// bytes gives the filter back.
pub proof fn lemma_filter_round_trip(f: can_filter, order: ByteOrder)
    ensures
        f.layout(order).len() == CAN_FILTER_SIZE,
        can_filter::parse(f.layout(order), order) == f,
{
    lemma_u32_value_of_bytes(order, f.can_id);
    lemma_u32_value_of_bytes(order, f.can_mask);
    let bytes = f.layout(order);
    assert(bytes.subrange(0, 4) =~= u32_bytes(order, f.can_id));
    assert(bytes.subrange(4, 8) =~= u32_bytes(order, f.can_mask));
}

/// Eight bytes read as a filter and laid out again are the same bytes.
pub proof fn lemma_filter_bytes_round_trip(bytes: Seq<u8>, order: ByteOrder)
    requires
        bytes.len() == CAN_FILTER_SIZE,
    ensures
        can_filter::parse(bytes, order).layout(order) == bytes,
{
    lemma_u32_bytes_of_value(order, bytes.subrange(0, 4));
    lemma_u32_bytes_of_value(order, bytes.subrange(4, 8));
    assert(can_filter::parse(bytes, order).layout(order) =~= bytes);
}

} // verus!
