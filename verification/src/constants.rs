//! The numbers of the SocketCAN interface.

use vstd::prelude::*;

verus! {

/// A CAN identifier with its flags.
#[allow(non_camel_case_types)]
pub type canid_t = u32;

/// A mask of error classes.
#[allow(non_camel_case_types)]
pub type can_err_mask_t = u32;

/// Extended frame format flag (29-bit identifier).
pub const CAN_EFF_FLAG: u32 = 0x80000000;
/// Remote transmission request flag.
pub const CAN_RTR_FLAG: u32 = 0x40000000;
/// Error frame flag.
pub const CAN_ERR_FLAG: u32 = 0x20000000;

/// Identifier mask of the standard frame format (11 bits).
pub const CAN_SFF_MASK: u32 = 0x000007FF;
/// Identifier mask of the extended frame format (29 bits).
pub const CAN_EFF_MASK: u32 = 0x1FFFFFFF;
/// Mask of the error class bits of an error frame.
pub const CAN_ERR_MASK: u32 = 0x1FFFFFFF;
/// Mask of the priority field of an XL frame.
pub const CANXL_PRIO_MASK: u32 = 0x000007FF;

/// Number of identifier bits in the standard frame format.
pub const CAN_SFF_ID_BITS: i32 = 11;
/// Number of identifier bits in the extended frame format.
pub const CAN_EFF_ID_BITS: i32 = 29;
/// Number of bits in the priority field of an XL frame.
pub const CANXL_PRIO_BITS: i32 = 11;

/// Largest data length code of a classic frame.
pub const CAN_MAX_DLC: i32 = 8;
/// Largest payload of a classic frame, in bytes.
pub const CAN_MAX_DLEN: usize = 8;

/// Largest data length code of an FD frame.
pub const CANFD_MAX_DLC: i32 = 15;
/// Largest payload of an FD frame, in bytes.
pub const CANFD_MAX_DLEN: usize = 64;

/// Smallest data length code of an XL frame.
pub const CANXL_MIN_DLC: i32 = 0;
/// Largest data length code of an XL frame.
pub const CANXL_MAX_DLC: i32 = 2047;
/// Mask of the data length code of an XL frame.
pub const CANXL_MAX_DLC_MASK: i32 = 0x07FF;
/// Smallest payload of an XL frame, in bytes.
pub const CANXL_MIN_DLEN: usize = 1;
/// Largest payload of an XL frame, in bytes.
pub const CANXL_MAX_DLEN: usize = 2048;

/// Flag in a filter's identifier that inverts the filter.
pub const CAN_INV_FILTER: u32 = 0x20000000;

/// FD flag: bit rate switch.
pub const CANFD_BRS: i32 = 0x01;
/// FD flag: error state indicator.
pub const CANFD_ESI: i32 = 0x02;
/// FD flag: the frame is in FD format.
pub const CANFD_FDF: i32 = 0x04;

/// XL flag: the frame is in XL format.
pub const CANXL_XLF: i32 = 0x80;
/// XL flag: simple extended content.
pub const CANXL_SEC: i32 = 0x01;

/// Size of a classic frame, in bytes.
pub const CAN_MTU: usize = 16;
/// Size of an FD frame, in bytes.
pub const CANFD_MTU: usize = 72;
/// Size of an XL frame with a full payload, in bytes.
pub const CANXL_MTU: usize = 2060;
/// Size of the header of an XL frame, in bytes.
pub const CANXL_HDR_SIZE: usize = 12;
/// Smallest transmission unit of an interface that carries XL frames.
pub const CANXL_MIN_MTU: usize = 76;
/// Largest transmission unit of an interface that carries XL frames.
pub const CANXL_MAX_MTU: usize = 2060;

/// Raw CAN protocol.
pub const CAN_RAW: i32 = 1;
/// Broadcast manager protocol.
pub const CAN_BCM: i32 = 2;
/// VAG transport protocol 1.6.
pub const CAN_TP16: i32 = 3;
/// VAG transport protocol 2.0.
pub const CAN_TP20: i32 = 4;
/// Mercedes MCNET protocol.
pub const CAN_MCNET: i32 = 5;
/// ISO-TP transport protocol.
pub const CAN_ISOTP: i32 = 6;
/// SAE J1939 protocol.
pub const CAN_J1939: i32 = 7;
/// Number of CAN protocols.
pub const CAN_NPROTO: i32 = 8;

/// Base of the CAN socket option levels where the system supports CAN.
pub const SOL_CAN_BASE: i32 = 100;
/// CAN address family where the system supports CAN.
pub const AF_CAN: i32 = 29;
/// CAN protocol family where the system supports CAN.
pub const PF_CAN: i32 = 29;
/// Option level of the raw CAN protocol where the system supports CAN.
pub const SOL_CAN_RAW: i32 = 101;

/// Value that stands for the base of the option levels, the address family
/// and the protocol family on a system without CAN. No system uses it.
pub const UNSUPPORTED_BASE: i32 = 0xFFFFF;
/// Option level of the raw CAN protocol on a system without CAN.
pub const UNSUPPORTED_SOL_CAN_RAW: i32 = 0x100000;

/// Socket type of a raw socket.
pub const SOCK_RAW: i32 = 3;

/// Largest number of filters on one raw socket.
pub const CAN_RAW_FILTER_MAX: i32 = 512;

/// Socket option: set the filters.
pub const CAN_RAW_FILTER: i32 = 1;
/// Socket option: set the error filter.
pub const CAN_RAW_ERR_FILTER: i32 = 2;
/// Socket option: local loopback.
pub const CAN_RAW_LOOPBACK: i32 = 3;
/// Socket option: receive the socket's own messages.
pub const CAN_RAW_RECV_OWN_MSGS: i32 = 4;
/// Socket option: allow FD frames.
pub const CAN_RAW_FD_FRAMES: i32 = 5;
/// Socket option: a frame must pass all filters.
pub const CAN_RAW_JOIN_FILTERS: i32 = 6;
/// Socket option: allow XL frames.
pub const CAN_RAW_XL_FRAMES: i32 = 7;

} // verus!
