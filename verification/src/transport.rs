//! The decisions of the raw socket transport.
//!
//! A transport operation has two halves. One half talks to the operating
//! system: it creates and binds a socket, reads bytes, writes bytes, sets an
//! option. The other half decides: which call is to be made, with which
//! numbers and bytes, and what the call's outcome means. This module is the
//! deciding half. Its caller owns the socket, makes each call and hands the
//! outcome back: the bytes that arrived, the number of bytes that left, or
//! the system's error code.
//!
//! A transfer moves one whole frame or fails, and the frame keeps to the
//! bounds of its kind: a read hands out no classic frame with a length code
//! above 8 or an identifier outside its format, and nothing is handed out
//! for writing of a frame that breaks a bound. On a platform without CAN
//! sockets every operation fails, whatever its arguments.

use vstd::prelude::*;
use crate::address::sockaddr_can;
use crate::byte_order::ByteOrder;
use crate::constants::{
    AF_CAN, CAN_MAX_DLEN, CAN_MTU, CAN_RAW, SOCK_RAW, SOL_CAN_RAW, UNSUPPORTED_BASE, UNSUPPORTED_SOL_CAN_RAW,
};
use crate::frame::classic::{can_frame, CanFrameModel};
use crate::frame::fd::canfd_frame;
use crate::frame::xl::canxl_frame;
use crate::frame::push_prefix;
use crate::transfer::{ExactTransfer, TransferMode, TransferModel};

verus! {

/// Whether the operating system has CAN sockets.
#[derive(Clone, Copy, Debug, PartialEq, Eq, Structural)]
pub enum Platform {
    /// The system has CAN sockets: operations are carried out.
    Native,
    /// The system has none: operations fail.
    Unsupported,
}

/// Why a transport operation failed.
#[derive(Clone, Copy, Debug, PartialEq, Eq, Structural)]
pub enum TransportError {
    /// The platform has no CAN sockets.
    Unsupported,
    /// The system call failed with this error code.
    Io(i32),
    /// Fewer or more bytes moved than one frame has.
    ShortTransfer { expected: usize, actual: usize },
    /// The frame breaks a bound of its kind: its length or its identifier
    /// is out of range.
    InvalidFrame,
}

impl Platform {
    /// The number of the CAN address family on this platform.
    pub open spec fn spec_address_family(self) -> i32 {
        match self {
            Platform::Native => AF_CAN,
            Platform::Unsupported => UNSUPPORTED_BASE,
        }
    }

    /// The option level of the raw CAN protocol on this platform.
    pub open spec fn spec_raw_option_level(self) -> i32 {
        match self {
            Platform::Native => SOL_CAN_RAW,
            Platform::Unsupported => UNSUPPORTED_SOL_CAN_RAW,
        }
    }

    /// The number of the CAN address family on this platform.
    pub fn address_family(&self) -> (af: i32)
        ensures
            af == self.spec_address_family(),
    {
        match self {
            Platform::Native => AF_CAN,
            Platform::Unsupported => UNSUPPORTED_BASE,
        }
    }

    /// The option level of the raw CAN protocol on this platform.
    pub fn raw_option_level(&self) -> (level: i32)
        ensures
            level == self.spec_raw_option_level(),
    {
        match self {
            Platform::Native => SOL_CAN_RAW,
            Platform::Unsupported => UNSUPPORTED_SOL_CAN_RAW,
        }
    }
}

/// A frame that can travel through a socket. Only a frame that keeps to
/// the bounds of its kind travels: one whose length or identifier is out
/// of range has no wire form.
pub trait WireFrame {
    /// The bytes that travel, or nothing where the frame breaks a bound of
    /// its kind.
    spec fn wire_form(&self, order: ByteOrder) -> Option<Seq<u8>>;

    /// The bytes that travel, or nothing where the frame breaks a bound of
    /// its kind.
    fn encode(&self, order: ByteOrder) -> (r: Option<Vec<u8>>)
        ensures
            r is Some <==> self.wire_form(order) is Some,
            r is Some ==> r->0@ == self.wire_form(order)->0,
    ;
}

impl WireFrame for can_frame {
    open spec fn wire_form(&self, order: ByteOrder) -> Option<Seq<u8>> {
        if self@.well_formed() {
            Some(self@.layout(order))
        } else {
            None
        }
    }

    fn encode(&self, order: ByteOrder) -> (r: Option<Vec<u8>>) {
        if self.is_well_formed() {
            Some(self.to_bytes(order))
        } else {
            None
        }
    }
}

impl WireFrame for canfd_frame {
    open spec fn wire_form(&self, order: ByteOrder) -> Option<Seq<u8>> {
        if self@.well_formed() {
            Some(self@.layout(order))
        } else {
            None
        }
    }

    fn encode(&self, order: ByteOrder) -> (r: Option<Vec<u8>>) {
        if self.is_well_formed() {
            Some(self.to_bytes(order))
        } else {
            None
        }
    }
}

impl WireFrame for canxl_frame {
    open spec fn wire_form(&self, order: ByteOrder) -> Option<Seq<u8>> {
        if self@.well_formed() {
            Some(self@.wire(order))
        } else {
            None
        }
    }

    fn encode(&self, order: ByteOrder) -> (r: Option<Vec<u8>>) {
        if self.is_well_formed() {
            self.to_wire(order)
        } else {
            None
        }
    }
}

/// The socket2 address family of a socket.
#[verifier::external_type_specification]
#[verifier::external_body]
pub struct ExDomain(socket2::Domain);

/// The socket2 type of a socket.
#[verifier::external_type_specification]
#[verifier::external_body]
pub struct ExType(socket2::Type);

/// The socket2 protocol of a socket.
#[verifier::external_type_specification]
#[verifier::external_body]
pub struct ExProtocol(socket2::Protocol);

/// The address family that socket2 makes of a number.
pub uninterp spec fn domain_of(raw: i32) -> socket2::Domain;

/// The socket type that socket2 makes of a number.
pub uninterp spec fn type_of(raw: i32) -> socket2::Type;

/// The protocol that socket2 makes of a number.
pub uninterp spec fn protocol_of(raw: i32) -> socket2::Protocol;

/// Calls socket2's `Domain::from` on a number. Trusted: the result is the
/// address family that wraps this number, the same for the same number.
#[verifier::external_body]
fn socket_domain(raw: i32) -> (d: socket2::Domain)
    ensures
        d == domain_of(raw),
{
    socket2::Domain::from(raw)
}

/// Calls socket2's `Type::from` on a number. Trusted: the result is the
/// socket type that wraps this number, the same for the same number.
#[verifier::external_body]
fn socket_type(raw: i32) -> (t: socket2::Type)
    ensures
        t == type_of(raw),
{
    socket2::Type::from(raw)
}

/// Calls socket2's `Protocol::from` on a number. Trusted: the result is the
/// protocol that wraps this number, the same for the same number.
#[verifier::external_body]
fn socket_protocol(raw: i32) -> (p: socket2::Protocol)
    ensures
        p == protocol_of(raw),
{
    socket2::Protocol::from(raw)
}

/// What the caller has to ask of the system to open a socket: create one
/// of this family, type and protocol, then bind it to the address.
#[derive(Clone, Copy, Debug, PartialEq, Eq)]
pub struct OpenRequest {
    /// Address family of the socket.
    pub domain: socket2::Domain,
    /// Socket type.
    pub kind: socket2::Type,
    /// Protocol.
    pub protocol: socket2::Protocol,
    /// Address to bind to.
    pub addr: sockaddr_can,
}

/// What the caller has to hand to the system to set an option.
#[derive(Debug)]
pub struct OptionRequest {
    /// Option level.
    pub level: i32,
    /// Option name.
    pub name: i32,
    /// Option value, as bytes.
    pub value: Vec<u8>,
}

/// What `raw_open_socket` answers.
pub open spec fn open_request(platform: Platform, addr: sockaddr_can) -> Result<
    OpenRequest,
    TransportError,
> {
    match platform {
        Platform::Unsupported => Err(TransportError::Unsupported),
        Platform::Native => Ok(
            OpenRequest {
                domain: domain_of(AF_CAN),
                kind: type_of(SOCK_RAW),
                protocol: protocol_of(CAN_RAW),
                addr,
            },
        ),
    }
}

/// The first half of opening a socket: says which socket to create and
/// where to bind it. A raw socket of the CAN family with the raw CAN
/// protocol, bound to `addr`; on a platform without CAN sockets, a failure.
/// Family, type and protocol come as socket2 takes them.
pub fn raw_open_socket(platform: Platform, addr: &sockaddr_can) -> (r: Result<
    OpenRequest,
    TransportError,
>)
    ensures
        r == open_request(platform, *addr),
{
    match platform {
        Platform::Unsupported => Err(TransportError::Unsupported),
        Platform::Native => Ok(
            OpenRequest {
                domain: socket_domain(AF_CAN),
                kind: socket_type(SOCK_RAW),
                protocol: socket_protocol(CAN_RAW),
                addr: *addr,
            },
        ),
    }
}

/// Whether an option may be set: on a platform without CAN sockets, not at
/// the level of the raw CAN protocol.
pub open spec fn option_allowed(platform: Platform, level: i32) -> bool {
    platform == Platform::Native || level != UNSUPPORTED_SOL_CAN_RAW
}

/// Guards the setting of a socket option. On a platform without CAN
/// sockets an option at the level of the raw CAN protocol is refused, so
/// that the system is never asked for a level it does not have. Every other
/// option is handed on unchanged.
pub fn setsockopt_wrapper(platform: Platform, level: i32, name: i32, value: &[u8]) -> (r: Result<
    OptionRequest,
    TransportError,
>)
    ensures
        !option_allowed(platform, level) ==> r == Err::<OptionRequest, TransportError>(
            TransportError::Unsupported,
        ),
        option_allowed(platform, level) ==> r is Ok && r->Ok_0.level == level && r->Ok_0.name
            == name && r->Ok_0.value@ == value@,
{
    match platform {
        Platform::Unsupported => {
            if level == UNSUPPORTED_SOL_CAN_RAW {
                return Err(TransportError::Unsupported);
            }
        },
        Platform::Native => {},
    }
    let mut copy: Vec<u8> = Vec::with_capacity(value.len());
    push_prefix(&mut copy, value, value.len());
    assert(copy@ =~= value@);
    Ok(OptionRequest { level, name, value: copy })
}

/// The deciding half of one bound raw CAN socket.
#[derive(Debug)]
pub struct CanSocket {
    platform: Platform,
    order: ByteOrder,
    addr: sockaddr_can,
}

impl CanSocket {
    /// The platform that the socket lives on.
    pub closed spec fn spec_platform(&self) -> Platform {
        self.platform
    }

    /// The byte order of the platform.
    pub closed spec fn spec_order(&self) -> ByteOrder {
        self.order
    }

    /// The address that the socket is bound to.
    pub closed spec fn spec_addr(&self) -> sockaddr_can {
        self.addr
    }

    /// What `open` answers to the outcome of creating and binding.
    pub open spec fn open_outcome(platform: Platform, bound: Result<(), i32>) -> Result<
        (),
        TransportError,
    > {
        match platform {
            Platform::Unsupported => Err(TransportError::Unsupported),
            Platform::Native => match bound {
                Ok(_) => Ok(()),
                Err(code) => Err(TransportError::Io(code)),
            },
        }
    }

    /// What `read_raw_frame` answers to the outcome of a read: a frame only
    /// for exactly `CAN_MTU` bytes that stand for a frame within the bounds
    /// of its kind.
    pub open spec fn read_outcome(&self, received: Result<Seq<u8>, i32>) -> Result<
        CanFrameModel,
        TransportError,
    > {
        match self.spec_platform() {
            Platform::Unsupported => Err(TransportError::Unsupported),
            Platform::Native => match received {
                Err(code) => Err(TransportError::Io(code)),
                Ok(bytes) => if bytes.len() == CAN_MTU {
                    if CanFrameModel::parse(bytes, self.spec_order()).well_formed() {
                        Ok(CanFrameModel::parse(bytes, self.spec_order()))
                    } else {
                        Err(TransportError::InvalidFrame)
                    }
                } else {
                    Err(
                        TransportError::ShortTransfer {
                            expected: CAN_MTU,
                            actual: bytes.len() as usize,
                        },
                    )
                },
            },
        }
    }

    /// What `write_raw_frame` answers for a frame with this wire form, or
    /// with none.
    pub open spec fn write_request(&self, wire: Option<Seq<u8>>) -> Result<
        Seq<u8>,
        TransportError,
    > {
        match self.spec_platform() {
            Platform::Unsupported => Err(TransportError::Unsupported),
            Platform::Native => match wire {
                Some(bytes) => Ok(bytes),
                None => Err(TransportError::InvalidFrame),
            },
        }
    }

    /// What `finish_write` answers to the outcome of a write.
    pub open spec fn write_outcome(&self, expected: usize, written: Result<usize, i32>) -> Result<
        (),
        TransportError,
    > {
        match self.spec_platform() {
            Platform::Unsupported => Err(TransportError::Unsupported),
            Platform::Native => match written {
                Err(code) => Err(TransportError::Io(code)),
                Ok(n) => if n == expected {
                    Ok(())
                } else {
                    Err(TransportError::ShortTransfer { expected, actual: n })
                },
            },
        }
    }

    /// The second half of opening a socket: judges what creating and
    /// binding gave. A handle comes into being only where the platform has
    /// CAN sockets and the system bound the socket; a system error is
    /// passed on with its code.
    pub fn open(platform: Platform, order: ByteOrder, addr: &sockaddr_can, bound: Result<(), i32>) -> (r:
        Result<CanSocket, TransportError>)
        ensures
            match r {
                Ok(socket) => Self::open_outcome(platform, bound) == Ok::<(), TransportError>(())
                    && socket.spec_platform() == platform && socket.spec_order() == order
                    && socket.spec_addr() == *addr,
                Err(e) => Self::open_outcome(platform, bound) == Err::<(), TransportError>(e),
            },
    {
        match platform {
            Platform::Unsupported => Err(TransportError::Unsupported),
            Platform::Native => match bound {
                Ok(_) => Ok(CanSocket { platform, order, addr: *addr }),
                Err(code) => Err(TransportError::Io(code)),
            },
        }
    }

    /// A handle for a socket that is bound already, to `addr`. No outcome
    /// is judged here, so the handle exists on either platform; on one
    /// without CAN sockets each of its operations fails.
    pub fn adopt(platform: Platform, order: ByteOrder, addr: &sockaddr_can) -> (socket: CanSocket)
        ensures
            socket.spec_platform() == platform,
            socket.spec_order() == order,
            socket.spec_addr() == *addr,
    {
        CanSocket { platform, order, addr: *addr }
    }

    /// The platform that the socket lives on.
    pub fn platform(&self) -> (p: Platform)
        ensures
            p == self.spec_platform(),
    {
        self.platform
    }

    /// The byte order of the platform.
    pub fn byte_order(&self) -> (o: ByteOrder)
        ensures
            o == self.spec_order(),
    {
        self.order
    }

    /// The address that the socket is bound to.
    pub fn address(&self) -> (a: sockaddr_can)
        ensures
            a == self.spec_addr(),
    {
        self.addr
    }

    /// The transfer that a read has to run: one classic frame, gathered in
    /// as many calls as it takes.
    pub fn read_transfer(&self) -> (r: Result<ExactTransfer, TransportError>)
        ensures
            match r {
                Ok(t) => self.spec_platform() == Platform::Native && t@ == TransferModel::fresh(
                    TransferMode::Gather,
                    CAN_MTU,
                ),
                Err(e) => self.spec_platform() == Platform::Unsupported && e
                    == TransportError::Unsupported,
            },
    {
        match self.platform {
            Platform::Unsupported => Err(TransportError::Unsupported),
            Platform::Native => Ok(ExactTransfer::new(CAN_MTU)),
        }
    }

    /// The transfer that a write of `bytes` has to run: every byte in one
    /// call, so that no frame is split over two writes.
    pub fn write_transfer(&self, bytes: &[u8]) -> (r: Result<ExactTransfer, TransportError>)
        ensures
            match r {
                Ok(t) => self.spec_platform() == Platform::Native && t@ == TransferModel::fresh(
                    TransferMode::OneCall,
                    bytes@.len() as usize,
                ),
                Err(e) => self.spec_platform() == Platform::Unsupported && e
                    == TransportError::Unsupported,
            },
    {
        match self.platform {
            Platform::Unsupported => Err(TransportError::Unsupported),
            Platform::Native => Ok(ExactTransfer::in_one_call(bytes.len())),
        }
    }

    /// The number of bytes that a read has to ask for: one classic frame.
    pub fn read_size(&self) -> (r: Result<usize, TransportError>)
        ensures
            r == match self.spec_platform() {
                Platform::Unsupported => Err::<usize, TransportError>(TransportError::Unsupported),
                Platform::Native => Ok::<usize, TransportError>(CAN_MTU),
            },
    {
        match self.platform {
            Platform::Unsupported => Err(TransportError::Unsupported),
            Platform::Native => Ok(CAN_MTU),
        }
    }

    /// Judges what a read gave and makes the frame. `received` holds the
    /// bytes that arrived, or the system's error code. A frame is made only
    /// from exactly `CAN_MTU` bytes: fewer are a short transfer, never a
    /// frame with bytes that nobody sent. Bytes that stand for a frame with
    /// a length code above 8, or with an identifier outside its format, are
    /// refused as an invalid frame: no such frame is handed out.
    pub fn read_raw_frame(&self, received: Result<&[u8], i32>) -> (r: Result<
        can_frame,
        TransportError,
    >)
        ensures
            match r {
                Ok(frame) => self.read_outcome(
                    match received {
                        Ok(bytes) => Ok(bytes@),
                        Err(code) => Err(code),
                    },
                ) == Ok::<CanFrameModel, TransportError>(frame@),
                Err(e) => self.read_outcome(
                    match received {
                        Ok(bytes) => Ok(bytes@),
                        Err(code) => Err(code),
                    },
                ) == Err::<CanFrameModel, TransportError>(e),
            },
            r is Ok ==> r->Ok_0@.well_formed(),
    {
        match self.platform {
            Platform::Unsupported => Err(TransportError::Unsupported),
            Platform::Native => match received {
                Err(code) => Err(TransportError::Io(code)),
                Ok(bytes) => match can_frame::from_bytes(bytes, self.order) {
                    Some(frame) => if frame.is_well_formed() {
                        Ok(frame)
                    } else {
                        Err(TransportError::InvalidFrame)
                    },
                    None => Err(
                        TransportError::ShortTransfer { expected: CAN_MTU, actual: bytes.len() },
                    ),
                },
            },
        }
    }

    /// The bytes that one write has to move for a frame: its whole wire
    /// form, in one piece. A frame that breaks a bound of its kind is
    /// refused as invalid and nothing is to be written.
    pub fn write_raw_frame<F: WireFrame>(&self, frame: &F) -> (r: Result<Vec<u8>, TransportError>)
        ensures
            match r {
                Ok(bytes) => self.write_request(frame.wire_form(self.spec_order())) == Ok::<
                    Seq<u8>,
                    TransportError,
                >(bytes@),
                Err(e) => self.write_request(frame.wire_form(self.spec_order())) == Err::<
                    Seq<u8>,
                    TransportError,
                >(e),
            },
    {
        match self.platform {
            Platform::Unsupported => Err(TransportError::Unsupported),
            Platform::Native => match frame.encode(self.order) {
                Some(bytes) => Ok(bytes),
                None => Err(TransportError::InvalidFrame),
            },
        }
    }

    /// Judges what a write gave. `expected` is the number of bytes handed
    /// to the system, `written` the number it took or its error code.
    /// Anything but the whole frame is a failure.
    pub fn finish_write(&self, expected: usize, written: Result<usize, i32>) -> (r: Result<
        (),
        TransportError,
    >)
        ensures
            r == self.write_outcome(expected, written),
    {
        match self.platform {
            Platform::Unsupported => Err(TransportError::Unsupported),
            Platform::Native => match written {
                Err(code) => Err(TransportError::Io(code)),
                Ok(n) => if n == expected {
                    Ok(())
                } else {
                    Err(TransportError::ShortTransfer { expected, actual: n })
                },
            },
        }
    }

    /// Guards the setting of an option on this socket: see
    /// `setsockopt_wrapper`.
    pub fn set_option(&self, level: i32, name: i32, value: &[u8]) -> (r: Result<
        OptionRequest,
        TransportError,
    >)
        ensures
            !option_allowed(self.spec_platform(), level) ==> r == Err::<
                OptionRequest,
                TransportError,
            >(TransportError::Unsupported),
            option_allowed(self.spec_platform(), level) ==> r is Ok && r->Ok_0.level == level
                && r->Ok_0.name == name && r->Ok_0.value@ == value@,
    {
        setsockopt_wrapper(self.platform, level, name, value)
    }
}

/// On a platform without CAN sockets every operation fails, whatever it is
/// given.
pub proof fn lemma_unsupported_always_fails(
    socket: CanSocket,
    addr: sockaddr_can,
    bound: Result<(), i32>,
    received: Result<Seq<u8>, i32>,
    wire: Option<Seq<u8>>,
    expected: usize,
    written: Result<usize, i32>,
)
    requires
        socket.spec_platform() == Platform::Unsupported,
    ensures
        open_request(Platform::Unsupported, addr) == Err::<OpenRequest, TransportError>(
            TransportError::Unsupported,
        ),
        CanSocket::open_outcome(Platform::Unsupported, bound) == Err::<(), TransportError>(
            TransportError::Unsupported,
        ),
        socket.read_outcome(received) == Err::<CanFrameModel, TransportError>(
            TransportError::Unsupported,
        ),
        socket.write_request(wire) == Err::<Seq<u8>, TransportError>(TransportError::Unsupported),
        socket.write_outcome(expected, written) == Err::<(), TransportError>(
            TransportError::Unsupported,
        ),
        !option_allowed(Platform::Unsupported, Platform::Unsupported.spec_raw_option_level()),
{
}

/// A read makes a frame only from exactly one frame's bytes. The frame is
/// then within the bounds of its kind, its length code is at most 8, and
/// laid out again it is those bytes.
pub proof fn lemma_read_is_all_or_nothing(socket: CanSocket, received: Result<Seq<u8>, i32>)
    ensures
        socket.read_outcome(received) is Ok ==> received is Ok && received->Ok_0.len() == CAN_MTU
            && socket.read_outcome(received)->Ok_0.layout(socket.spec_order())
            == received->Ok_0,
        socket.read_outcome(received) is Ok ==> socket.read_outcome(received)->Ok_0.well_formed()
            && socket.read_outcome(received)->Ok_0.can_dlc <= CAN_MAX_DLEN,
        received is Ok && received->Ok_0.len() != CAN_MTU ==> socket.read_outcome(received) is Err,
        socket.spec_platform() == Platform::Native && received is Ok && received->Ok_0.len()
            == CAN_MTU && !CanFrameModel::parse(received->Ok_0, socket.spec_order()).well_formed()
            ==> socket.read_outcome(received) == Err::<CanFrameModel, TransportError>(
            TransportError::InvalidFrame,
        ),
{
    if socket.read_outcome(received) is Ok {
        crate::frame::classic::lemma_can_frame_bytes_round_trip(
            received->Ok_0,
            socket.spec_order(),
        );
    }
}

/// A write succeeds only where the system took the whole frame.
pub proof fn lemma_write_is_all_or_nothing(
    socket: CanSocket,
    expected: usize,
    written: Result<usize, i32>,
)
    ensures
        socket.write_outcome(expected, written) is Ok <==> socket.spec_platform()
            == Platform::Native && written == Ok::<usize, i32>(expected),
{
}

/// A frame of any kind is handed out for writing only where it is within
/// the bounds of its kind; one that is not is refused as invalid.
pub proof fn lemma_only_well_formed_frames_are_written(
    socket: CanSocket,
    classic: can_frame,
    fd: canfd_frame,
    xl: canxl_frame,
)
    requires
        socket.spec_platform() == Platform::Native,
    ensures
        socket.write_request(classic.wire_form(socket.spec_order())) is Ok
            <==> classic@.well_formed(),
        socket.write_request(fd.wire_form(socket.spec_order())) is Ok <==> fd@.well_formed(),
        socket.write_request(xl.wire_form(socket.spec_order())) is Ok <==> xl@.well_formed(),
        !classic@.well_formed() ==> socket.write_request(classic.wire_form(socket.spec_order()))
            == Err::<Seq<u8>, TransportError>(TransportError::InvalidFrame),
        !fd@.well_formed() ==> socket.write_request(fd.wire_form(socket.spec_order())) == Err::<
            Seq<u8>,
            TransportError,
        >(TransportError::InvalidFrame),
        !xl@.well_formed() ==> socket.write_request(xl.wire_form(socket.spec_order())) == Err::<
            Seq<u8>,
            TransportError,
        >(TransportError::InvalidFrame),
{
}

/// What a socket hands out for a classic frame within its bounds is one
/// whole frame, and a socket that receives those bytes makes the same
/// frame of them.
pub proof fn lemma_written_frame_reads_back(socket: CanSocket, frame: can_frame)
    requires
        socket.spec_platform() == Platform::Native,
        frame@.well_formed(),
    ensures
        socket.write_request(frame.wire_form(socket.spec_order())) is Ok,
        socket.write_request(frame.wire_form(socket.spec_order()))->Ok_0.len() == CAN_MTU,
        socket.read_outcome(
            Ok(socket.write_request(frame.wire_form(socket.spec_order()))->Ok_0),
        ) == Ok::<CanFrameModel, TransportError>(frame@),
{
    crate::frame::classic::lemma_can_frame_round_trip(frame, socket.spec_order());
}

} // verus!
