use socketcan_raw::address::{
    __c_anonymous_sockaddr_can_can_addr, __c_anonymous_sockaddr_can_tp, sockaddr_can,
};
use socketcan_raw::byte_order::ByteOrder;
use socketcan_raw::constants::{CAN_RAW_FILTER, CAN_RAW_LOOPBACK};
use socketcan_raw::frame::classic::can_frame;
use socketcan_raw::frame::fd::canfd_frame;
use socketcan_raw::frame::xl::canxl_frame;
use socketcan_raw::transfer::{TransferMode, TransferStep};
use socketcan_raw::transport::{
    raw_open_socket, setsockopt_wrapper, CanSocket, OpenRequest, Platform, TransportError,
};

const ENODEV: i32 = 19;
const EPERM: i32 = 1;
const SOL_SOCKET: i32 = 1;

fn address(ifindex: i32) -> sockaddr_can {
    sockaddr_can {
        can_family: 29,
        can_ifindex: ifindex,
        can_addr: __c_anonymous_sockaddr_can_can_addr::Tp(__c_anonymous_sockaddr_can_tp {
            rx_id: 0,
            tx_id: 0,
        }),
    }
}

fn native_socket() -> CanSocket {
    CanSocket::open(Platform::Native, ByteOrder::Little, &address(2), Ok(())).expect("bound")
}

fn sample_frame() -> can_frame {
    let mut frame = can_frame::default();
    frame.can_id = 0x123;
    frame.can_dlc = 2;
    frame.data[0] = 0xAA;
    frame.data[1] = 0xBB;
    frame
}

#[test]
fn open_asks_for_a_raw_can_socket() {
    let addr = address(5);
    let request = raw_open_socket(Platform::Native, &addr).expect("a native platform");
    assert_eq!(request.domain, socket2::Domain::from(libc::AF_CAN));
    assert_eq!(i32::from(request.domain), 29);
    assert_eq!(request.kind, socket2::Type::RAW);
    assert_eq!(i32::from(request.kind), 3);
    assert_eq!(request.protocol, socket2::Protocol::from(libc::CAN_RAW));
    assert_eq!(i32::from(request.protocol), 1);
    assert_eq!(request.addr, addr);
    let again: OpenRequest = raw_open_socket(Platform::Native, &addr).expect("a native platform");
    assert_eq!(request, again);
}

#[test]
fn open_gives_a_handle_for_a_bound_socket() {
    let addr = address(5);
    let socket = CanSocket::open(Platform::Native, ByteOrder::Big, &addr, Ok(())).expect("bound");
    assert_eq!(socket.platform(), Platform::Native);
    assert_eq!(socket.byte_order(), ByteOrder::Big);
    assert_eq!(socket.address(), addr);
}

#[test]
fn open_on_a_missing_interface_fails_without_a_handle() {
    let addr = address(9999);
    let opened = CanSocket::open(Platform::Native, ByteOrder::Little, &addr, Err(ENODEV));
    assert!(matches!(opened, Err(TransportError::Io(19))));
    let opened = CanSocket::open(Platform::Native, ByteOrder::Little, &addr, Err(EPERM));
    assert!(matches!(opened, Err(TransportError::Io(1))));
}

#[test]
fn read_asks_for_one_classic_frame() {
    assert_eq!(native_socket().read_size(), Ok(16));
}

#[test]
fn read_makes_the_frame_that_arrived() {
    let socket = native_socket();
    let bytes = sample_frame().to_bytes(ByteOrder::Little);
    let frame = socket.read_raw_frame(Ok(&bytes)).expect("a whole frame");
    assert_eq!(frame.can_id, 0x123);
    assert_eq!(frame.can_dlc, 2);
    assert_eq!(frame.data, [0xAA, 0xBB, 0, 0, 0, 0, 0, 0]);
}

#[test]
fn read_uses_the_byte_order_of_the_socket() {
    let socket =
        CanSocket::open(Platform::Native, ByteOrder::Big, &address(2), Ok(())).expect("bound");
    let bytes = [0x80, 0, 0x01, 0x23, 1, 0, 0, 0, 9, 0, 0, 0, 0, 0, 0, 0];
    let frame = socket.read_raw_frame(Ok(&bytes)).expect("a whole frame");
    assert_eq!(frame.can_id, 0x8000_0123);
    assert_eq!(frame.can_dlc, 1);
    assert_eq!(frame.data[0], 9);
}

#[test]
fn read_of_fewer_bytes_is_a_short_transfer() {
    let socket = native_socket();
    let bytes = sample_frame().to_bytes(ByteOrder::Little);
    for n in 0..16 {
        let got = socket.read_raw_frame(Ok(&bytes[..n]));
        assert!(matches!(
            got,
            Err(TransportError::ShortTransfer { expected: 16, actual }) if actual == n
        ));
    }
}

#[test]
fn read_after_the_peer_closed_mid_frame_fails() {
    let socket = native_socket();
    let arrived = [0x23u8, 0x01, 0, 0, 2, 0, 0];
    let got = socket.read_raw_frame(Ok(&arrived));
    assert!(matches!(
        got,
        Err(TransportError::ShortTransfer { expected: 16, actual: 7 })
    ));
}

#[test]
fn read_never_takes_a_larger_frame_for_a_classic_one() {
    let socket = native_socket();
    let fd = canfd_frame::default().to_bytes(ByteOrder::Little);
    assert!(matches!(
        socket.read_raw_frame(Ok(&fd)),
        Err(TransportError::ShortTransfer { expected: 16, actual: 72 })
    ));
}

#[test]
fn read_passes_the_system_error_on() {
    let socket = native_socket();
    assert!(matches!(socket.read_raw_frame(Err(11)), Err(TransportError::Io(11))));
}

#[test]
fn write_hands_out_the_whole_frame() {
    let socket = native_socket();
    let frame = sample_frame();
    let bytes = socket.write_raw_frame(&frame).expect("a classic frame");
    assert_eq!(
        bytes,
        vec![0x23, 0x01, 0, 0, 2, 0, 0, 0, 0xAA, 0xBB, 0, 0, 0, 0, 0, 0]
    );
    let fd = canfd_frame::default();
    assert_eq!(socket.write_raw_frame(&fd).expect("an FD frame").len(), 72);
    let mut xl = canxl_frame::default();
    xl.len = 10;
    assert_eq!(socket.write_raw_frame(&xl).expect("an XL frame").len(), 22);
}

#[test]
fn write_refuses_a_frame_without_wire_form() {
    let socket = native_socket();
    let xl = canxl_frame::default();
    assert!(matches!(socket.write_raw_frame(&xl), Err(TransportError::InvalidFrame)));
}

#[test]
fn write_is_complete_or_fails() {
    let socket = native_socket();
    assert_eq!(socket.finish_write(16, Ok(16)), Ok(()));
    assert_eq!(
        socket.finish_write(16, Ok(9)),
        Err(TransportError::ShortTransfer { expected: 16, actual: 9 })
    );
    assert_eq!(
        socket.finish_write(16, Ok(0)),
        Err(TransportError::ShortTransfer { expected: 16, actual: 0 })
    );
    assert_eq!(
        socket.finish_write(72, Ok(16)),
        Err(TransportError::ShortTransfer { expected: 72, actual: 16 })
    );
    assert_eq!(socket.finish_write(16, Err(105)), Err(TransportError::Io(105)));
}

#[test]
fn written_frame_reads_back() {
    let socket = native_socket();
    let bytes = socket.write_raw_frame(&sample_frame()).expect("a classic frame");
    assert_eq!(socket.finish_write(bytes.len(), Ok(bytes.len())), Ok(()));
    let frame = socket.read_raw_frame(Ok(&bytes)).expect("a whole frame");
    assert_eq!(frame.can_id, 0x123);
    assert_eq!(frame.can_dlc, 2);
    assert_eq!(frame.data, sample_frame().data);
}

#[test]
fn options_pass_on_a_native_platform() {
    let value = 1i32.to_le_bytes();
    let request = setsockopt_wrapper(Platform::Native, 101, CAN_RAW_LOOPBACK, &value)
        .expect("a native platform");
    assert_eq!(request.level, 101);
    assert_eq!(request.name, 3);
    assert_eq!(request.value, vec![1, 0, 0, 0]);
    let request = native_socket()
        .set_option(101, CAN_RAW_FILTER, &[1, 2, 3, 4, 5, 6, 7, 8])
        .expect("a native platform");
    assert_eq!(request.level, 101);
    assert_eq!(request.name, 1);
    assert_eq!(request.value, vec![1, 2, 3, 4, 5, 6, 7, 8]);
}

#[test]
fn unsupported_platform_has_its_own_numbers() {
    assert_eq!(Platform::Native.address_family(), 29);
    assert_eq!(Platform::Native.raw_option_level(), 101);
    assert_eq!(Platform::Unsupported.address_family(), 0xFFFFF);
    assert_eq!(Platform::Unsupported.raw_option_level(), 0xFFFFF + 1);
}

#[test]
fn unsupported_platform_refuses_to_open() {
    for ifindex in [0, 1, -1, 9999] {
        let addr = address(ifindex);
        assert_eq!(
            raw_open_socket(Platform::Unsupported, &addr),
            Err(TransportError::Unsupported)
        );
        for bound in [Ok(()), Err(ENODEV)] {
            let opened = CanSocket::open(Platform::Unsupported, ByteOrder::Little, &addr, bound);
            assert!(matches!(opened, Err(TransportError::Unsupported)));
        }
    }
}

#[test]
fn unsupported_platform_refuses_protocol_options() {
    let level = Platform::Unsupported.raw_option_level();
    for name in 1..8 {
        for value in [&[][..], &[1u8, 0, 0, 0][..]] {
            let got = setsockopt_wrapper(Platform::Unsupported, level, name, value);
            assert!(matches!(got, Err(TransportError::Unsupported)));
        }
    }
    let request = setsockopt_wrapper(Platform::Unsupported, SOL_SOCKET, 20, &[9, 9])
        .expect("no protocol option");
    assert_eq!(request.level, SOL_SOCKET);
    assert_eq!(request.name, 20);
    assert_eq!(request.value, vec![9, 9]);
    let request = setsockopt_wrapper(Platform::Unsupported, 101, 1, &[]).expect("another level");
    assert_eq!(request.level, 101);
}

#[test]
fn unsupported_platform_refuses_to_read() {
    let socket = CanSocket::adopt(Platform::Unsupported, ByteOrder::Little, &address(1));
    assert_eq!(socket.platform(), Platform::Unsupported);
    assert_eq!(socket.read_size(), Err(TransportError::Unsupported));
    let whole = sample_frame().to_bytes(ByteOrder::Little);
    assert!(matches!(socket.read_raw_frame(Ok(&whole)), Err(TransportError::Unsupported)));
    assert!(matches!(socket.read_raw_frame(Ok(&whole[..3])), Err(TransportError::Unsupported)));
    assert!(matches!(socket.read_raw_frame(Ok(&[])), Err(TransportError::Unsupported)));
    assert!(matches!(socket.read_raw_frame(Err(ENODEV)), Err(TransportError::Unsupported)));
}

#[test]
fn unsupported_platform_refuses_to_write() {
    let socket = CanSocket::adopt(Platform::Unsupported, ByteOrder::Big, &address(1));
    assert_eq!(
        socket.write_raw_frame(&sample_frame()),
        Err(TransportError::Unsupported)
    );
    assert_eq!(
        socket.write_raw_frame(&canfd_frame::default()),
        Err(TransportError::Unsupported)
    );
    assert_eq!(
        socket.write_raw_frame(&canxl_frame::default()),
        Err(TransportError::Unsupported)
    );
    assert_eq!(socket.finish_write(16, Ok(16)), Err(TransportError::Unsupported));
    assert_eq!(socket.finish_write(16, Ok(0)), Err(TransportError::Unsupported));
    assert_eq!(socket.finish_write(16, Err(EPERM)), Err(TransportError::Unsupported));
    let level = Platform::Unsupported.raw_option_level();
    assert!(matches!(
        socket.set_option(level, CAN_RAW_FILTER, &[0; 8]),
        Err(TransportError::Unsupported)
    ));
}

#[test]
fn adopted_socket_works_on_a_native_platform() {
    let addr = address(4);
    let socket = CanSocket::adopt(Platform::Native, ByteOrder::Little, &addr);
    assert_eq!(socket.address(), addr);
    assert_eq!(socket.read_size(), Ok(16));
    let bytes = socket.write_raw_frame(&sample_frame()).expect("a classic frame");
    assert_eq!(bytes.len(), 16);
}

#[test]
fn read_refuses_a_length_code_above_eight() {
    let socket = native_socket();
    let mut bytes = sample_frame().to_bytes(ByteOrder::Little);
    bytes[4] = 9;
    assert!(matches!(socket.read_raw_frame(Ok(&bytes)), Err(TransportError::InvalidFrame)));
    bytes[4] = 255;
    assert!(matches!(socket.read_raw_frame(Ok(&bytes)), Err(TransportError::InvalidFrame)));
    bytes[4] = 8;
    let frame = socket.read_raw_frame(Ok(&bytes)).expect("a length code of eight");
    assert_eq!(frame.can_dlc, 8);
    bytes[4] = 0;
    let frame = socket.read_raw_frame(Ok(&bytes)).expect("a length code of zero");
    assert_eq!(frame.can_dlc, 0);
}

#[test]
fn read_refuses_an_identifier_outside_its_format() {
    let socket = native_socket();
    let mut frame = sample_frame();
    frame.can_id = 0x800;
    let bytes = frame.to_bytes(ByteOrder::Little);
    assert!(matches!(socket.read_raw_frame(Ok(&bytes)), Err(TransportError::InvalidFrame)));
    frame.can_id = 0x8000_0800;
    let bytes = frame.to_bytes(ByteOrder::Little);
    let back = socket.read_raw_frame(Ok(&bytes)).expect("an extended identifier");
    assert_eq!(back.can_id, 0x8000_0800);
}

#[test]
fn short_read_comes_before_the_bounds() {
    let socket = native_socket();
    let mut bytes = sample_frame().to_bytes(ByteOrder::Little);
    bytes[4] = 9;
    assert!(matches!(
        socket.read_raw_frame(Ok(&bytes[..15])),
        Err(TransportError::ShortTransfer { expected: 16, actual: 15 })
    ));
}

#[test]
fn write_refuses_a_classic_frame_out_of_bounds() {
    let socket = native_socket();
    let mut frame = sample_frame();
    frame.can_dlc = 200;
    assert_eq!(socket.write_raw_frame(&frame), Err(TransportError::InvalidFrame));
    frame.can_dlc = 9;
    assert_eq!(socket.write_raw_frame(&frame), Err(TransportError::InvalidFrame));
    frame.can_dlc = 8;
    assert!(socket.write_raw_frame(&frame).is_ok());
    frame.can_id = 0x1000;
    assert_eq!(socket.write_raw_frame(&frame), Err(TransportError::InvalidFrame));
}

#[test]
fn write_refuses_an_fd_frame_out_of_bounds() {
    let socket = native_socket();
    let mut frame = canfd_frame::default();
    frame.len = 65;
    assert_eq!(socket.write_raw_frame(&frame), Err(TransportError::InvalidFrame));
    frame.len = 64;
    assert_eq!(socket.write_raw_frame(&frame).expect("sixty-four bytes").len(), 72);
    frame.can_id = 0x0001_0000;
    assert_eq!(socket.write_raw_frame(&frame), Err(TransportError::InvalidFrame));
}

#[test]
fn write_refuses_an_xl_frame_out_of_bounds() {
    let socket = native_socket();
    let mut frame = canxl_frame::default();
    frame.len = 2049;
    assert_eq!(socket.write_raw_frame(&frame), Err(TransportError::InvalidFrame));
    frame.len = 2048;
    assert_eq!(socket.write_raw_frame(&frame).expect("a full payload").len(), 2060);
    frame.prio = 0x800;
    assert_eq!(socket.write_raw_frame(&frame), Err(TransportError::InvalidFrame));
}

#[test]
fn read_gathers_and_write_goes_in_one_call() {
    let socket = native_socket();
    let mut reading = socket.read_transfer().expect("a native platform");
    assert_eq!(reading.mode(), TransferMode::Gather);
    assert_eq!(reading.expected(), 16);
    reading.record(Ok(7));
    assert_eq!(reading.step(), TransferStep::Move { offset: 7, len: 9 });

    let bytes = socket.write_raw_frame(&sample_frame()).expect("a classic frame");
    let mut writing = socket.write_transfer(&bytes).expect("a native platform");
    assert_eq!(writing.mode(), TransferMode::OneCall);
    assert_eq!(writing.expected(), 16);
    assert_eq!(writing.step(), TransferStep::Move { offset: 0, len: 16 });
    writing.record(Ok(7));
    assert_eq!(
        writing.step(),
        TransferStep::Failed(TransportError::ShortTransfer { expected: 16, actual: 7 })
    );
    assert_eq!(
        socket.finish_write(bytes.len(), Ok(writing.moved())),
        Err(TransportError::ShortTransfer { expected: 16, actual: 7 })
    );
}

#[test]
fn unsupported_platform_starts_no_transfer() {
    let socket = CanSocket::adopt(Platform::Unsupported, ByteOrder::Little, &address(1));
    assert!(matches!(socket.read_transfer(), Err(TransportError::Unsupported)));
    assert!(matches!(socket.write_transfer(&[0; 16]), Err(TransportError::Unsupported)));
    assert!(matches!(socket.write_transfer(&[]), Err(TransportError::Unsupported)));
}
