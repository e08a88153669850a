//! The CAN XL frame: a header of 12 bytes and up to 2048 bytes of payload.
//!
//! The frame has two byte forms. The full image holds the whole payload area
//! and is always `CANXL_MTU` bytes long. The wire form is what travels
//! through a socket: the header and the payload bytes in use, nothing more.

use vstd::prelude::*;
use crate::byte_order::{
    lemma_u16_bytes_of_value, lemma_u16_value_of_bytes, lemma_u32_bytes_of_value,
    lemma_u32_value_of_bytes, push_u16, push_u32, read_u16, read_u32, u16_bytes, u16_value,
    u32_bytes, u32_value, ByteOrder,
};
use crate::constants::{
    canid_t, CANXL_HDR_SIZE, CANXL_MAX_DLEN, CANXL_MAX_MTU, CANXL_MIN_DLEN, CANXL_MTU, CANXL_PRIO_MASK,
};
use crate::frame::{push_prefix, take_array, take_padded};

verus! {

/// CAN XL (extended length) frame, field for field as the kernel lays it out.
#[allow(non_camel_case_types)]
#[derive(Copy, Clone, Debug)]
pub struct canxl_frame {
    /// Priority, in the low 11 bits.
    pub prio: canid_t,
    /// XL flags.
    pub flags: u8,
    /// Service data type.
    pub sdt: u8,
    /// Number of payload bytes in use.
    pub len: u16,
    /// Acceptance field.
    pub af: u32,
    /// Payload.
    pub data: [u8; CANXL_MAX_DLEN],
}

/// What an XL frame holds.
pub struct CanXlFrameModel {
    pub prio: u32,
    pub flags: u8,
    pub sdt: u8,
    pub len: u16,
    pub af: u32,
    pub data: Seq<u8>,
}

impl View for canxl_frame {
    type V = CanXlFrameModel;

    open spec fn view(&self) -> CanXlFrameModel {
        CanXlFrameModel {
            prio: self.prio,
            flags: self.flags,
            sdt: self.sdt,
            len: self.len,
            af: self.af,
            data: self.data@,
        }
    }
}

/// `n` zero bytes.
pub open spec fn zeros(n: int) -> Seq<u8> {
    Seq::new(n as nat, |i: int| 0u8)
}

impl CanXlFrameModel {
    /// The frame with every field and every payload byte zero.
    pub open spec fn zero() -> CanXlFrameModel {
        CanXlFrameModel { prio: 0, flags: 0, sdt: 0, len: 0, af: 0, data: zeros(CANXL_MAX_DLEN as int) }
    }

    /// The 12 bytes of the header: priority, flags, service data type,
    /// length, acceptance field.
    pub open spec fn header(self, order: ByteOrder) -> Seq<u8> {
        u32_bytes(order, self.prio) + seq![self.flags, self.sdt] + u16_bytes(order, self.len)
            + u32_bytes(order, self.af)
    }

    /// The full image: the header and the whole payload area.
    pub open spec fn layout(self, order: ByteOrder) -> Seq<u8> {
        self.header(order) + self.data
    }

    /// The length is one that an XL frame can have.
    pub open spec fn len_in_range(self) -> bool {
        CANXL_MIN_DLEN <= self.len <= CANXL_MAX_DLEN
    }

    /// The wire form: the header and the payload bytes in use.
    pub open spec fn wire(self, order: ByteOrder) -> Seq<u8>
        recommends
            self.len_in_range(),
            self.data.len() == CANXL_MAX_DLEN,
    {
        self.header(order) + self.data.subrange(0, self.len as int)
    }

    /// The frame whose header is the first 12 bytes of `bytes` and whose
    /// payload area is `data`.
    pub open spec fn with_header(bytes: Seq<u8>, order: ByteOrder, data: Seq<u8>) -> CanXlFrameModel
        recommends
            bytes.len() >= CANXL_HDR_SIZE,
    {
        CanXlFrameModel {
            prio: u32_value(order, bytes.subrange(0, 4)),
            flags: bytes[4],
            sdt: bytes[5],
            len: u16_value(order, bytes.subrange(6, 8)),
            af: u32_value(order, bytes.subrange(8, 12)),
            data,
        }
    }

    /// The frame that a full image stands for.
    pub open spec fn parse(bytes: Seq<u8>, order: ByteOrder) -> CanXlFrameModel
        recommends
            bytes.len() == CANXL_MTU,
    {
        Self::with_header(bytes, order, bytes.subrange(12, 2060))
    }

    /// Bytes are a wire form where they hold a header and at least one and
    /// at most 2048 payload bytes, and the header's length says how many.
    pub open spec fn is_wire(bytes: Seq<u8>, order: ByteOrder) -> bool {
        &&& CANXL_HDR_SIZE + CANXL_MIN_DLEN <= bytes.len() <= CANXL_MAX_MTU
        &&& u16_value(order, bytes.subrange(6, 8)) == bytes.len() - CANXL_HDR_SIZE
    }

    /// The frame that a wire form stands for: the payload area beyond the
    /// bytes in use is zero.
    pub open spec fn parse_wire(bytes: Seq<u8>, order: ByteOrder) -> CanXlFrameModel
        recommends
            Self::is_wire(bytes, order),
    {
        Self::with_header(
            bytes,
            order,
            bytes.subrange(12, bytes.len() as int) + zeros(CANXL_MTU - bytes.len()),
        )
    }

    /// The length is in range and the priority fits in 11 bits.
    pub open spec fn well_formed(self) -> bool {
        self.len_in_range() && self.prio <= CANXL_PRIO_MASK
    }

    /// The payload area beyond the bytes in use is zero.
    pub open spec fn tail_is_zero(self) -> bool {
        forall|i: int| self.len <= i < self.data.len() ==> self.data[i] == 0u8
    }
}

impl Default for canxl_frame {
    /// The all-zero frame, the starting point of every read.
    fn default() -> (f: canxl_frame)
        ensures
            f@ == CanXlFrameModel::zero(),
    {
        let f = canxl_frame { prio: 0, flags: 0, sdt: 0, len: 0, af: 0, data: [0u8; CANXL_MAX_DLEN] };
        assert(f.data@ =~= CanXlFrameModel::zero().data);
        f
    }
}

impl canxl_frame {
    fn push_header(&self, out: &mut Vec<u8>, order: ByteOrder)
        requires
            old(out)@.len() == 0,
        ensures
            final(out)@ == self@.header(order),
            final(out)@.len() == CANXL_HDR_SIZE,
    {
        push_u32(out, order, self.prio);
        out.push(self.flags);
        out.push(self.sdt);
        push_u16(out, order, self.len);
        push_u32(out, order, self.af);
        assert(out@ =~= self@.header(order));
    }

    /// The full image of the frame, `CANXL_MTU` bytes.
    pub fn to_bytes(&self, order: ByteOrder) -> (out: Vec<u8>)
        ensures
            out@ == self@.layout(order),
            out@.len() == CANXL_MTU,
    {
        let mut out: Vec<u8> = Vec::with_capacity(CANXL_MTU);
        self.push_header(&mut out, order);
        push_prefix(&mut out, self.data.as_slice(), CANXL_MAX_DLEN);
        assert(self.data@.subrange(0, CANXL_MAX_DLEN as int) =~= self.data@);
        out
    }

    /// Reads a frame from a full image of exactly `CANXL_MTU` bytes.
    /// The fields are taken as the bytes give them; whether they keep to
    /// the bounds of the kind is for `is_well_formed` to say.
    pub fn from_bytes(bytes: &[u8], order: ByteOrder) -> (r: Option<canxl_frame>)
        ensures
            bytes@.len() != CANXL_MTU ==> r is None,
            bytes@.len() == CANXL_MTU ==> r is Some && r->0@ == CanXlFrameModel::parse(
                bytes@,
                order,
            ),
    {
        if bytes.len() != CANXL_MTU {
            return None;
        }
        let data: [u8; CANXL_MAX_DLEN] = take_array::<CANXL_MAX_DLEN>(bytes, CANXL_HDR_SIZE);
        Some(
            canxl_frame {
                prio: read_u32(bytes, 0, order),
                flags: bytes[4],
                sdt: bytes[5],
                len: read_u16(bytes, 6, order),
                af: read_u32(bytes, 8, order),
                data,
            },
        )
    }

    /// The wire form of the frame, or nothing where the frame's length is
    /// not between 1 and 2048.
    pub fn to_wire(&self, order: ByteOrder) -> (r: Option<Vec<u8>>)
        ensures
            r is Some <==> self@.len_in_range(),
            r is Some ==> r->0@ == self@.wire(order) && r->0@.len() == CANXL_HDR_SIZE + self.len,
    {
        let n: usize = self.len as usize;
        if n < CANXL_MIN_DLEN || n > CANXL_MAX_DLEN {
            return None;
        }
        let mut out: Vec<u8> = Vec::with_capacity(CANXL_HDR_SIZE + n);
        self.push_header(&mut out, order);
        push_prefix(&mut out, self.data.as_slice(), n);
        Some(out)
    }

    /// Reads a frame from its wire form. Bytes that are no wire form are
    /// refused: too few, too many, or a length field that disagrees with
    /// the number of bytes.
    pub fn from_wire(bytes: &[u8], order: ByteOrder) -> (r: Option<canxl_frame>)
        ensures
            r is Some <==> CanXlFrameModel::is_wire(bytes@, order),
            r is Some ==> r->0@ == CanXlFrameModel::parse_wire(bytes@, order),
    {
        let total: usize = bytes.len();
        if total < CANXL_HDR_SIZE + CANXL_MIN_DLEN || total > CANXL_MAX_MTU {
            return None;
        }
        let len: u16 = read_u16(bytes, 6, order);
        if len as usize != total - CANXL_HDR_SIZE {
            return None;
        }
        let data: [u8; CANXL_MAX_DLEN] = take_padded::<CANXL_MAX_DLEN>(
            bytes,
            CANXL_HDR_SIZE,
            total - CANXL_HDR_SIZE,
        );
        Some(
            canxl_frame {
                prio: read_u32(bytes, 0, order),
                flags: bytes[4],
                sdt: bytes[5],
                len,
                af: read_u32(bytes, 8, order),
                data,
            },
        )
    }

    /// Tells whether the length and the priority are within bounds.
    pub fn is_well_formed(&self) -> (ok: bool)
        ensures
            ok == self@.well_formed(),
    {
        CANXL_MIN_DLEN <= self.len as usize && self.len as usize <= CANXL_MAX_DLEN && self.prio
            <= CANXL_PRIO_MASK
    }
}

proof fn lemma_header_parts(m: CanXlFrameModel, order: ByteOrder, rest: Seq<u8>)
    ensures
        m.header(order).len() == CANXL_HDR_SIZE,
        CanXlFrameModel::with_header(m.header(order) + rest, order, m.data) == m,
{
    lemma_u32_value_of_bytes(order, m.prio);
    lemma_u16_value_of_bytes(order, m.len);
    lemma_u32_value_of_bytes(order, m.af);
    let bytes = m.header(order) + rest;
    assert(bytes.subrange(0, 4) =~= u32_bytes(order, m.prio));
    assert(bytes.subrange(6, 8) =~= u16_bytes(order, m.len));
    assert(bytes.subrange(8, 12) =~= u32_bytes(order, m.af));
}

/// The full image of a frame has the declared size, and reading it gives
/// the frame back.
pub proof fn lemma_canxl_frame_round_trip(f: canxl_frame, order: ByteOrder)
    ensures
        f@.layout(order).len() == CANXL_MTU,
        CanXlFrameModel::parse(f@.layout(order), order) == f@,
{
    lemma_header_parts(f@, order, f.data@);
    assert(f@.layout(order).subrange(12, 2060) =~= f.data@);
}

/// A full image read as a frame and laid out again is the same image.
pub proof fn lemma_canxl_frame_bytes_round_trip(bytes: Seq<u8>, order: ByteOrder)
    requires
        bytes.len() == CANXL_MTU,
    ensures
        CanXlFrameModel::parse(bytes, order).layout(order) == bytes,
{
    lemma_u32_bytes_of_value(order, bytes.subrange(0, 4));
    lemma_u16_bytes_of_value(order, bytes.subrange(6, 8));
    lemma_u32_bytes_of_value(order, bytes.subrange(8, 12));
    assert(CanXlFrameModel::parse(bytes, order).layout(order) =~= bytes);
}

/// The wire form of a frame with a length in range is the header and that
/// many bytes, it is a wire form, and reading it gives the frame back where
/// the frame's payload area beyond its length is zero.
pub proof fn lemma_canxl_wire_round_trip(f: canxl_frame, order: ByteOrder)
    requires
        f@.len_in_range(),
    ensures
        f@.wire(order).len() == CANXL_HDR_SIZE + f.len,
        CanXlFrameModel::is_wire(f@.wire(order), order),
        f@.tail_is_zero() ==> CanXlFrameModel::parse_wire(f@.wire(order), order) == f@,
{
    let used = f.data@.subrange(0, f.len as int);
    let bytes = f@.wire(order);
    lemma_header_parts(f@, order, used);
    assert(bytes.subrange(6, 8) =~= u16_bytes(order, f.len));
    lemma_u16_value_of_bytes(order, f.len);
    if f@.tail_is_zero() {
        assert(bytes.subrange(12, bytes.len() as int) + zeros(CANXL_MTU - bytes.len())
            =~= f.data@);
    }
}

/// Two frames that hold the same values are the same frame.
pub proof fn lemma_canxl_frame_same_view(f: canxl_frame, g: canxl_frame)
    requires
        f@ == g@,
    ensures
        f == g,
{
    assert(f.data@ == g.data@);
    assert(f.data =~= g.data);
}

/// A frame that holds what the bytes of another frame stand for is that
/// frame: laying a frame out and reading it back changes nothing.
pub proof fn lemma_canxl_frame_read_back(f: canxl_frame, g: canxl_frame, order: ByteOrder)
    requires
        g@ == CanXlFrameModel::parse(f@.layout(order), order),
    ensures
        g == f,
{
    lemma_canxl_frame_round_trip(f, order);
    lemma_canxl_frame_same_view(f, g);
}

/// A wire form read as a frame and laid out again is the same wire form.
pub proof fn lemma_canxl_wire_bytes_round_trip(bytes: Seq<u8>, order: ByteOrder)
    requires
        CanXlFrameModel::is_wire(bytes, order),
    ensures
        CanXlFrameModel::parse_wire(bytes, order).len_in_range(),
        CanXlFrameModel::parse_wire(bytes, order).tail_is_zero(),
        CanXlFrameModel::parse_wire(bytes, order).wire(order) == bytes,
{
    lemma_u32_bytes_of_value(order, bytes.subrange(0, 4));
    lemma_u16_bytes_of_value(order, bytes.subrange(6, 8));
    lemma_u32_bytes_of_value(order, bytes.subrange(8, 12));
    assert(CanXlFrameModel::parse_wire(bytes, order).wire(order) =~= bytes);
}

} // verus!
