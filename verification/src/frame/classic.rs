//! The classic CAN frame: 16 bytes, up to 8 bytes of payload.

use vstd::prelude::*;
use crate::byte_order::{
    lemma_u32_bytes_of_value, lemma_u32_value_of_bytes, push_u32, read_u32, u32_bytes, u32_value,
    ByteOrder,
};
use crate::constants::{canid_t, CAN_MAX_DLEN, CAN_MTU};
use crate::frame::{id_in_format, id_within_format, push_prefix, take_array};

verus! {

/// Classic CAN 2.0 frame, field for field as the kernel lays it out.
#[allow(non_camel_case_types)]
#[derive(Copy, Clone, Debug)]
pub struct can_frame {
    /// Identifier with flags.
    pub can_id: canid_t,
    /// Data length code: the number of payload bytes in use.
    pub can_dlc: u8,
    /// Padding byte.
    pub __pad: u8,
    /// Reserved byte.
    pub __res0: u8,
    /// Raw data length code of a frame that claims more than 8 bytes.
    pub len8_dlc: u8,
    /// Payload.
    pub data: [u8; CAN_MAX_DLEN],
}

/// What a classic frame holds.
pub struct CanFrameModel {
    pub can_id: u32,
    pub can_dlc: u8,
    pub pad: u8,
    pub res0: u8,
    pub len8_dlc: u8,
    pub data: Seq<u8>,
}

impl View for can_frame {
    type V = CanFrameModel;

    open spec fn view(&self) -> CanFrameModel {
        CanFrameModel {
            can_id: self.can_id,
            can_dlc: self.can_dlc,
            pad: self.__pad,
            res0: self.__res0,
            len8_dlc: self.len8_dlc,
            data: self.data@,
        }
    }
}

impl CanFrameModel {
    /// The frame with every field and every payload byte zero.
    pub open spec fn zero() -> CanFrameModel {
        CanFrameModel {
            can_id: 0,
            can_dlc: 0,
            pad: 0,
            res0: 0,
            len8_dlc: 0,
            data: Seq::new(CAN_MAX_DLEN as nat, |i: int| 0u8),
        }
    }

    /// The 16 bytes of the frame: identifier, length code, padding, reserved
    /// byte, raw length code, payload.
    pub open spec fn layout(self, order: ByteOrder) -> Seq<u8> {
        u32_bytes(order, self.can_id) + seq![self.can_dlc, self.pad, self.res0, self.len8_dlc]
            + self.data
    }

    /// The frame that 16 bytes stand for.
    pub open spec fn parse(bytes: Seq<u8>, order: ByteOrder) -> CanFrameModel
        recommends
            bytes.len() == CAN_MTU,
    {
        CanFrameModel {
            can_id: u32_value(order, bytes.subrange(0, 4)),
            can_dlc: bytes[4],
            pad: bytes[5],
            res0: bytes[6],
            len8_dlc: bytes[7],
            data: bytes.subrange(8, 16),
        }
    }

    /// The length code is at most 8 and the identifier keeps to its format.
    pub open spec fn well_formed(self) -> bool {
        self.can_dlc <= CAN_MAX_DLEN && id_in_format(self.can_id)
    }
}

impl Default for can_frame {
    /// The all-zero frame, the starting point of every read.
    fn default() -> (f: can_frame)
        ensures
            f@ == CanFrameModel::zero(),
    {
        let f = can_frame {
            can_id: 0,
            can_dlc: 0,
            __pad: 0,
            __res0: 0,
            len8_dlc: 0,
            data: [0u8; CAN_MAX_DLEN],
        };
        assert(f.data@ =~= CanFrameModel::zero().data);
        f
    }
}

impl can_frame {
    /// The frame laid out as `CAN_MTU` bytes.
    pub fn to_bytes(&self, order: ByteOrder) -> (out: Vec<u8>)
        ensures
            out@ == self@.layout(order),
            out@.len() == CAN_MTU,
    {
        let mut out: Vec<u8> = Vec::with_capacity(CAN_MTU);
        push_u32(&mut out, order, self.can_id);
        out.push(self.can_dlc);
        out.push(self.__pad);
        out.push(self.__res0);
        out.push(self.len8_dlc);
        push_prefix(&mut out, self.data.as_slice(), CAN_MAX_DLEN);
        assert(self.data@.subrange(0, CAN_MAX_DLEN as int) =~= self.data@);
        assert(out@ =~= self@.layout(order));
        out
    }

    /// Reads a frame from exactly `CAN_MTU` bytes. Any other number of bytes
    /// is refused: no frame is made from part of one, nor from a larger kind.
    /// The fields are taken as the bytes give them; whether they keep to
    /// the bounds of the kind is for `is_well_formed` to say, and a socket
    /// hands out no frame that does not.
    pub fn from_bytes(bytes: &[u8], order: ByteOrder) -> (r: Option<can_frame>)
        ensures
            bytes@.len() != CAN_MTU ==> r is None,
            bytes@.len() == CAN_MTU ==> r is Some && r->0@ == CanFrameModel::parse(bytes@, order),
    {
        if bytes.len() != CAN_MTU {
            return None;
        }
        let can_id: u32 = read_u32(bytes, 0, order);
        let data: [u8; CAN_MAX_DLEN] = take_array::<CAN_MAX_DLEN>(bytes, 8);
        Some(
            can_frame {
                can_id,
                can_dlc: bytes[4],
                __pad: bytes[5],
                __res0: bytes[6],
                len8_dlc: bytes[7],
                data,
            },
        )
    }

    /// Tells whether the length code and the identifier are within bounds.
    pub fn is_well_formed(&self) -> (ok: bool)
        ensures
            ok == self@.well_formed(),
    {
        self.can_dlc as usize <= CAN_MAX_DLEN && id_within_format(self.can_id)
    }
}

/// A frame laid out as bytes has the declared size, and reading those bytes
/// gives the frame back, reserved bytes included.
pub proof fn lemma_can_frame_round_trip(f: can_frame, order: ByteOrder)
    ensures
        f@.layout(order).len() == CAN_MTU,
        CanFrameModel::parse(f@.layout(order), order) == f@,
{
    lemma_u32_value_of_bytes(order, f.can_id);
    let bytes = f@.layout(order);
    assert(bytes.subrange(0, 4) =~= u32_bytes(order, f.can_id));
    assert(bytes.subrange(8, 16) =~= f.data@);
}

/// Sixteen bytes read as a frame and laid out again are the same bytes.
pub proof fn lemma_can_frame_bytes_round_trip(bytes: Seq<u8>, order: ByteOrder)
    requires
        bytes.len() == CAN_MTU,
    ensures
        CanFrameModel::parse(bytes, order).layout(order) == bytes,
{
    lemma_u32_bytes_of_value(order, bytes.subrange(0, 4));
    assert(CanFrameModel::parse(bytes, order).layout(order) =~= bytes);
}

/// Two frames that hold the same values are the same frame.
pub proof fn lemma_can_frame_same_view(f: can_frame, g: can_frame)
    requires
        f@ == g@,
    ensures
        f == g,
{
    assert(f.data@ == g.data@);
    assert(f.data =~= g.data);
}

/// A frame that holds what the bytes of another frame stand for is that
/// frame: laying a frame out and reading it back changes nothing.
pub proof fn lemma_can_frame_read_back(f: can_frame, g: can_frame, order: ByteOrder)
    requires
        g@ == CanFrameModel::parse(f@.layout(order), order),
    ensures
        g == f,
{
    lemma_can_frame_round_trip(f, order);
    lemma_can_frame_same_view(f, g);
}

} // verus!
