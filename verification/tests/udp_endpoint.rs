use vma_socket::common::sockaddr_from_addr;
use vma_socket::common::SocketAddress;
use vma_socket::common::VmaOptions;
use vma_socket::udp::udp_result_from_code;
use vma_socket::udp::UdpResult;
use vma_socket::udp::VmaUdpSocket;

// Native result codes as the engine reports them.
const OK: i32 = 0;
const ERR_BIND: i32 = -3;
const ERR_RECV: i32 = -6;
const ERR_TIMEOUT: i32 = -7;

fn local(port: u16) -> SocketAddress {
    SocketAddress { oct0: 127, oct1: 0, oct2: 0, oct3: 1, port }
}

#[test]
fn udp_code_mapping_is_exhaustive_and_lossless() {
    assert_eq!(udp_result_from_code(0), UdpResult::UdpSuccess);
    assert_eq!(udp_result_from_code(-1), UdpResult::UdpErrorSocketCreate);
    assert_eq!(udp_result_from_code(-2), UdpResult::UdpErrorSocketOption);
    assert_eq!(udp_result_from_code(-3), UdpResult::UdpErrorBind);
    assert_eq!(udp_result_from_code(-4), UdpResult::UdpErrorConnect);
    assert_eq!(udp_result_from_code(-5), UdpResult::UdpErrorSend);
    assert_eq!(udp_result_from_code(-6), UdpResult::UdpErrorRecv);
    assert_eq!(udp_result_from_code(-7), UdpResult::UdpErrorTimeout);
    assert_eq!(udp_result_from_code(-8), UdpResult::UdpErrorInvalidParam);
    assert_eq!(udp_result_from_code(-9), UdpResult::UdpErrorNotInitialized);
    assert_eq!(udp_result_from_code(-10), UdpResult::UdpErrorClosed);
    assert_eq!(udp_result_from_code(-77), UdpResult::UdpErrorUnknown(-77));
    assert_eq!(udp_result_from_code(3), UdpResult::UdpErrorUnknown(3));
}

#[test]
fn udp_construction_reports_native_failure() {
    assert!(matches!(VmaUdpSocket::new(OK), Ok(_)));
    assert_eq!(
        VmaUdpSocket::with_options(VmaOptions::high_throughput(), -1).unwrap_err(),
        UdpResult::UdpErrorSocketCreate
    );
}

#[test]
fn udp_bind_and_connect_record_addresses() {
    let mut s = VmaUdpSocket::new(OK).unwrap();
    assert!(!s.can_send());
    assert!(!s.can_recv());
    assert_eq!(s.bind(local(5001), ERR_BIND), Err(UdpResult::UdpErrorBind));
    assert_eq!(s.bind(local(5001), OK), Ok(()));
    assert!(s.is_bound);
    assert_eq!(s.local_addr, Some(local(5001)));
    assert_eq!(s.bind(local(5005), OK), Err(UdpResult::UdpErrorInvalidParam));

    // connect only records the default peer, and may re-target it
    assert_eq!(s.connect(local(6000), OK), Ok(()));
    assert!(s.is_connected);
    assert_eq!(s.remote_addr, Some(local(6000)));
    assert_eq!(s.connect(local(6001), OK), Ok(()));
    assert_eq!(s.remote_addr, Some(local(6001)));
}

#[test]
fn udp_send_requires_connect_but_send_to_does_not() {
    let mut s = VmaUdpSocket::new(OK).unwrap();
    assert_eq!(s.send(OK, 4), Err(UdpResult::UdpErrorInvalidParam));
    assert_eq!(s.send_to(local(6000), OK, 4), Ok(4));
    assert_eq!(s.connect(local(6000), OK), Ok(()));
    assert_eq!(s.send(OK, 4), Ok(4));
    assert_eq!(s.get_stats(), Ok((0, 2, 0, 8)));
}

#[test]
fn udp_timeouts_are_benign_zero_or_empty_results() {
    let mut s = VmaUdpSocket::new(OK).unwrap();
    assert_eq!(s.bind(local(5001), OK), Ok(()));
    assert_eq!(s.connect(local(6000), OK), Ok(()));
    assert_eq!(s.recv(ERR_TIMEOUT, 0), Ok(0));
    assert_eq!(s.send(ERR_TIMEOUT, 0), Ok(0));
    assert_eq!(s.send_to(local(6000), ERR_TIMEOUT, 0), Ok(0));
    let src = sockaddr_from_addr(&local(6000));
    assert!(s.recv_from(Vec::new(), &src, 0, ERR_TIMEOUT).unwrap().is_none());
    // nothing was accounted and nothing changed state
    assert_eq!(s.get_stats(), Ok((0, 0, 0, 0)));
    assert!(s.is_bound);
    // a genuine receive failure still propagates
    assert_eq!(s.recv(ERR_RECV, 0), Err(UdpResult::UdpErrorRecv));
}

#[test]
fn udp_recv_requires_bind() {
    let mut s = VmaUdpSocket::new(OK).unwrap();
    assert_eq!(s.recv(OK, 1), Err(UdpResult::UdpErrorInvalidParam));
    let src = sockaddr_from_addr(&local(6000));
    assert_eq!(
        s.recv_from(Vec::new(), &src, 0, OK).unwrap_err(),
        UdpResult::UdpErrorInvalidParam
    );
}

#[test]
fn udp_ping_round_trip_scenario() {
    // socket A binds to the loopback with an auto-assigned port; the engine
    // resolves it to an ephemeral port it reports at bind time
    let mut a = VmaUdpSocket::with_options(VmaOptions::low_latency(), OK).unwrap();
    assert_eq!(a.bind(local(34000), OK), Ok(()));

    // socket B targets A's resolved port
    let mut b = VmaUdpSocket::new(OK).unwrap();
    assert_eq!(b.connect(local(34000), OK), Ok(()));
    assert_eq!(b.send(OK, 4), Ok(4));

    // the engine delivers the datagram to A, reporting B's ephemeral port
    let b_port = 52345;
    let src = sockaddr_from_addr(&local(b_port));
    let packet = a
        .recv_from(b"ping".to_vec(), &src, 1_700_000_000_000_000_000, OK)
        .unwrap()
        .unwrap();
    assert_eq!(packet.data, b"ping".to_vec());
    assert_eq!(packet.src_addr.port, b_port);
    assert_eq!(packet.src_addr, local(b_port));
    assert_eq!(packet.timestamp, 1_700_000_000_000_000_000);
    assert_eq!(a.get_stats(), Ok((1, 0, 4, 0)));
    assert_eq!(b.get_stats(), Ok((0, 1, 0, 4)));
}

#[test]
fn udp_close_is_idempotent() {
    let mut s = VmaUdpSocket::new(OK).unwrap();
    assert_eq!(s.bind(local(5001), OK), Ok(()));
    assert!(s.close());
    assert!(!s.open);
    assert!(!s.is_bound);
    assert!(!s.close());
    assert!(!s.open);
    assert_eq!(s.recv(OK, 1), Err(UdpResult::UdpErrorNotInitialized));
    assert_eq!(s.get_stats(), Err(UdpResult::UdpErrorNotInitialized));
}

#[test]
fn udp_counters_saturate_instead_of_wrapping() {
    let mut s = VmaUdpSocket::new(OK).unwrap();
    assert_eq!(s.connect(local(6000), OK), Ok(()));
    assert_eq!(s.send(OK, usize::MAX), Ok(usize::MAX));
    assert_eq!(s.send(OK, usize::MAX), Ok(usize::MAX));
    let (_, tx_packets, _, tx_bytes) = s.get_stats().unwrap();
    assert_eq!(tx_packets, 2);
    assert_eq!(tx_bytes, u64::MAX);
}
