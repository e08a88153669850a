//! Raw SocketCAN layer: the byte-exact layouts of CAN frames, the address and
//! filter structures of a raw CAN socket, and the decisions of a transport
//! that moves exactly one frame per read or write.
//!
//! The library performs no system call. It states which call has to be made
//! and judges what the call gave back; the caller owns the socket.

pub mod byte_order;
pub mod constants;
pub mod frame;
pub mod address;
pub mod transfer;
pub mod transport;

pub use address::{can_filter, sockaddr_can};
pub use byte_order::ByteOrder;
pub use frame::classic::can_frame;
pub use frame::fd::canfd_frame;
pub use frame::xl::canxl_frame;
pub use transfer::{ExactTransfer, TransferMode, TransferStep};
pub use transport::{CanSocket, Platform, TransportError, WireFrame};
