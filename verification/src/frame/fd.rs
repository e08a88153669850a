//! The CAN FD frame: 72 bytes, up to 64 bytes of payload.

use vstd::prelude::*;
use crate::byte_order::{
    lemma_u32_bytes_of_value, lemma_u32_value_of_bytes, push_u32, read_u32, u32_bytes, u32_value,
    ByteOrder,
};
use crate::constants::{canid_t, CANFD_MAX_DLEN, CANFD_MTU};
use crate::frame::{id_in_format, id_within_format, push_prefix, take_array};

verus! {

/// CAN FD (flexible data rate) frame, field for field as the kernel lays it out.
#[allow(non_camel_case_types)]
#[derive(Copy, Clone, Debug)]
pub struct canfd_frame {
    /// Identifier with flags.
    pub can_id: canid_t,
    /// Number of payload bytes in use.
    pub len: u8,
    /// FD flags: bit rate switch, error state indicator, FD format.
    pub flags: u8,
    /// First reserved byte.
    pub __res0: u8,
    /// Second reserved byte.
    pub __res1: u8,
    /// Payload.
    pub data: [u8; CANFD_MAX_DLEN],
}

/// What an FD frame holds.
pub struct CanFdFrameModel {
    pub can_id: u32,
    pub len: u8,
    pub flags: u8,
    pub res0: u8,
    pub res1: u8,
    pub data: Seq<u8>,
}

impl View for canfd_frame {
    type V = CanFdFrameModel;

    open spec fn view(&self) -> CanFdFrameModel {
        CanFdFrameModel {
            can_id: self.can_id,
            len: self.len,
            flags: self.flags,
            res0: self.__res0,
            res1: self.__res1,
            data: self.data@,
        }
    }
}

impl CanFdFrameModel {
    /// The frame with every field and every payload byte zero.
    pub open spec fn zero() -> CanFdFrameModel {
        CanFdFrameModel {
            can_id: 0,
            len: 0,
            flags: 0,
            res0: 0,
            res1: 0,
            data: Seq::new(CANFD_MAX_DLEN as nat, |i: int| 0u8),
        }
    }

    /// The 72 bytes of the frame: identifier, length, flags, two reserved
    /// bytes, payload.
    pub open spec fn layout(self, order: ByteOrder) -> Seq<u8> {
        u32_bytes(order, self.can_id) + seq![self.len, self.flags, self.res0, self.res1]
            + self.data
    }

    /// The frame that 72 bytes stand for.
    pub open spec fn parse(bytes: Seq<u8>, order: ByteOrder) -> CanFdFrameModel
        recommends
            bytes.len() == CANFD_MTU,
    {
        CanFdFrameModel {
            can_id: u32_value(order, bytes.subrange(0, 4)),
            len: bytes[4],
            flags: bytes[5],
            res0: bytes[6],
            res1: bytes[7],
            data: bytes.subrange(8, 72),
        }
    }

    /// The length is at most 64 and the identifier keeps to its format.
    pub open spec fn well_formed(self) -> bool {
        self.len <= CANFD_MAX_DLEN && id_in_format(self.can_id)
    }
}

impl Default for canfd_frame {
    /// The all-zero frame, the starting point of every read.
    fn default() -> (f: canfd_frame)
        ensures
            f@ == CanFdFrameModel::zero(),
    {
        let f = canfd_frame {
            can_id: 0,
            len: 0,
            flags: 0,
            __res0: 0,
            __res1: 0,
            data: [0u8; CANFD_MAX_DLEN],
        };
        assert(f.data@ =~= CanFdFrameModel::zero().data);
        f
    }
}

impl canfd_frame {
    /// The frame laid out as `CANFD_MTU` bytes.
    pub fn to_bytes(&self, order: ByteOrder) -> (out: Vec<u8>)
        ensures
            out@ == self@.layout(order),
            out@.len() == CANFD_MTU,
    {
        let mut out: Vec<u8> = Vec::with_capacity(CANFD_MTU);
        push_u32(&mut out, order, self.can_id);
        out.push(self.len);
        out.push(self.flags);
        out.push(self.__res0);
        out.push(self.__res1);
        push_prefix(&mut out, self.data.as_slice(), CANFD_MAX_DLEN);
        assert(self.data@.subrange(0, CANFD_MAX_DLEN as int) =~= self.data@);
        assert(out@ =~= self@.layout(order));
        out
    }

    /// Reads a frame from exactly `CANFD_MTU` bytes. Any other number of bytes
    /// is refused: no frame is made from part of one, nor from another kind.
    /// The fields are taken as the bytes give them; whether they keep to
    /// the bounds of the kind is for `is_well_formed` to say, and a socket
    /// hands out no frame that does not.
    pub fn from_bytes(bytes: &[u8], order: ByteOrder) -> (r: Option<canfd_frame>)
        ensures
            bytes@.len() != CANFD_MTU ==> r is None,
            bytes@.len() == CANFD_MTU ==> r is Some && r->0@ == CanFdFrameModel::parse(bytes@, order),
    {
        if bytes.len() != CANFD_MTU {
            return None;
        }
        let can_id: u32 = read_u32(bytes, 0, order);
        let data: [u8; CANFD_MAX_DLEN] = take_array::<CANFD_MAX_DLEN>(bytes, 8);
        Some(
            canfd_frame {
                can_id,
                len: bytes[4],
                flags: bytes[5],
                __res0: bytes[6],
                __res1: bytes[7],
                data,
            },
        )
    }

    /// Tells whether the length and the identifier are within bounds.
    pub fn is_well_formed(&self) -> (ok: bool)
        ensures
            ok == self@.well_formed(),
    {
        self.len as usize <= CANFD_MAX_DLEN && id_within_format(self.can_id)
    }
}

/// A frame laid out as bytes has the declared size, and reading those bytes
/// gives the frame back, reserved bytes included.
pub proof fn lemma_canfd_frame_round_trip(f: canfd_frame, order: ByteOrder)
    ensures
        f@.layout(order).len() == CANFD_MTU,
        CanFdFrameModel::parse(f@.layout(order), order) == f@,
{
    lemma_u32_value_of_bytes(order, f.can_id);
    let bytes = f@.layout(order);
    assert(bytes.subrange(0, 4) =~= u32_bytes(order, f.can_id));
    assert(bytes.subrange(8, 72) =~= f.data@);
}

/// Seventy-two bytes read as a frame and laid out again are the same bytes.
pub proof fn lemma_canfd_frame_bytes_round_trip(bytes: Seq<u8>, order: ByteOrder)
    requires
        bytes.len() == CANFD_MTU,
    ensures
        CanFdFrameModel::parse(bytes, order).layout(order) == bytes,
{
    lemma_u32_bytes_of_value(order, bytes.subrange(0, 4));
    assert(CanFdFrameModel::parse(bytes, order).layout(order) =~= bytes);
}

/// Two frames that hold the same values are the same frame.
pub proof fn lemma_canfd_frame_same_view(f: canfd_frame, g: canfd_frame)
    requires
        f@ == g@,
    ensures
        f == g,
{
    assert(f.data@ == g.data@);
    assert(f.data =~= g.data);
}

/// A frame that holds what the bytes of another frame stand for is that
/// frame: laying a frame out and reading it back changes nothing.
pub proof fn lemma_canfd_frame_read_back(f: canfd_frame, g: canfd_frame, order: ByteOrder)
    requires
        g@ == CanFdFrameModel::parse(f@.layout(order), order),
    ensures
        g == f,
{
    lemma_canfd_frame_round_trip(f, order);
    lemma_canfd_frame_same_view(f, g);
}

} // verus!
