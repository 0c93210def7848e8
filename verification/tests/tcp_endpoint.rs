use vma_socket::common::sockaddr_from_addr;
use vma_socket::common::SocketAddress;
use vma_socket::common::VmaOptions;
use vma_socket::tcp::tcp_result_from_code;
use vma_socket::tcp::TcpConnectionState;
use vma_socket::tcp::TcpResult;
use vma_socket::tcp::VmaTcpSocket;

// Native result codes as the engine reports them.
const OK: i32 = 0;
const ERR_BIND: i32 = -3;
const ERR_RECONNECT: i32 = -7;
const ERR_TIMEOUT: i32 = -10;
const ERR_CLOSED: i32 = -13;
const ERR_WOULD_BLOCK: i32 = -14;

fn local(port: u16) -> SocketAddress {
    SocketAddress { oct0: 127, oct1: 0, oct2: 0, oct3: 1, port }
}

#[test]
fn code_mapping_is_exhaustive_and_lossless() {
    assert_eq!(tcp_result_from_code(0), TcpResult::TcpSuccess);
    assert_eq!(tcp_result_from_code(-1), TcpResult::TcpErrorSocketCreate);
    assert_eq!(tcp_result_from_code(-2), TcpResult::TcpErrorSocketOption);
    assert_eq!(tcp_result_from_code(-3), TcpResult::TcpErrorBind);
    assert_eq!(tcp_result_from_code(-4), TcpResult::TcpErrorListen);
    assert_eq!(tcp_result_from_code(-5), TcpResult::TcpErrorAccept);
    assert_eq!(tcp_result_from_code(-6), TcpResult::TcpErrorConnect);
    assert_eq!(tcp_result_from_code(-7), TcpResult::TcpErrorReconnect);
    assert_eq!(tcp_result_from_code(-8), TcpResult::TcpErrorSend);
    assert_eq!(tcp_result_from_code(-9), TcpResult::TcpErrorRecv);
    assert_eq!(tcp_result_from_code(-10), TcpResult::TcpErrorTimeout);
    assert_eq!(tcp_result_from_code(-11), TcpResult::TcpErrorInvalidParam);
    assert_eq!(tcp_result_from_code(-12), TcpResult::TcpErrorNotInitialized);
    assert_eq!(tcp_result_from_code(-13), TcpResult::TcpErrorClosed);
    assert_eq!(tcp_result_from_code(-14), TcpResult::TcpErrorWouldBlock);
    assert_eq!(tcp_result_from_code(-15), TcpResult::TcpErrorAlreadyConnected);
    assert_eq!(tcp_result_from_code(-99), TcpResult::TcpErrorUnknown(-99));
    assert_eq!(tcp_result_from_code(42), TcpResult::TcpErrorUnknown(42));
}

#[test]
fn construction_reports_native_failure() {
    assert!(matches!(VmaTcpSocket::new(OK), Ok(_)));
    assert_eq!(
        VmaTcpSocket::with_options(VmaOptions::low_latency(), -1).unwrap_err(),
        TcpResult::TcpErrorSocketCreate
    );
}

#[test]
fn fresh_endpoint_allows_only_bind_and_connect() {
    let mut s = VmaTcpSocket::new(OK).unwrap();
    assert_eq!(s.state, TcpConnectionState::Disconnected);
    assert!(s.can_bind());
    assert!(!s.can_listen(10));
    assert!(!s.can_accept());
    assert!(!s.can_send());
    assert!(!s.can_recv());
    assert!(!s.can_reconnect());
    assert_eq!(s.listen(10, OK), Err(TcpResult::TcpErrorInvalidParam));
    assert_eq!(s.send(OK, 4), Err(TcpResult::TcpErrorInvalidParam));
    assert_eq!(s.recv(OK, 4), Err(TcpResult::TcpErrorInvalidParam));
    let peer = sockaddr_from_addr(&local(9000));
    assert_eq!(s.accept(&peer, OK), Err(TcpResult::TcpErrorInvalidParam));
    assert!(s.connect(local(5002)).is_ok());
    assert_eq!(s.state, TcpConnectionState::Connecting);
}

#[test]
fn bind_records_address_and_surfaces_native_rejection() {
    let mut s = VmaTcpSocket::new(OK).unwrap();
    assert_eq!(s.bind(local(5002), ERR_BIND), Err(TcpResult::TcpErrorBind));
    assert_eq!(s.local_addr, None);
    assert_eq!(s.bind(local(5002), OK), Ok(()));
    assert!(s.is_bound);
    assert_eq!(s.local_addr, Some(local(5002)));
    assert_eq!(s.state, TcpConnectionState::Disconnected);
    // binding twice is an idempotent failure
    assert_eq!(s.bind(local(5003), OK), Err(TcpResult::TcpErrorInvalidParam));
    assert_eq!(s.local_addr, Some(local(5002)));
}

#[test]
fn listening_allows_only_accept() {
    let mut s = VmaTcpSocket::new(OK).unwrap();
    assert_eq!(s.bind(local(5002), OK), Ok(()));
    assert_eq!(s.listen(0, OK), Err(TcpResult::TcpErrorInvalidParam));
    assert_eq!(s.listen(10, OK), Ok(()));
    assert_eq!(s.state, TcpConnectionState::Listening);
    assert_eq!(s.backlog, 10);
    assert_eq!(s.connect(local(5002)), Err(TcpResult::TcpErrorInvalidParam));
    assert_eq!(s.send(OK, 1), Err(TcpResult::TcpErrorInvalidParam));
    assert_eq!(s.listen(10, OK), Err(TcpResult::TcpErrorInvalidParam));
    assert!(s.can_accept());
}

#[test]
fn accept_timeout_is_no_client_and_keeps_listening() {
    let mut s = VmaTcpSocket::new(OK).unwrap();
    assert_eq!(s.bind(local(5002), OK), Ok(()));
    assert_eq!(s.listen(1, OK), Ok(()));
    let peer = sockaddr_from_addr(&local(0));
    for _ in 0..5 {
        assert_eq!(s.accept(&peer, ERR_TIMEOUT), Ok(None));
        assert_eq!(s.state, TcpConnectionState::Listening);
    }
}

#[test]
fn connected_endpoint_sends_and_receives_but_rejects_listen() {
    let mut server = VmaTcpSocket::with_options(VmaOptions::low_latency(), OK).unwrap();
    assert_eq!(server.bind(local(5002), OK), Ok(()));
    assert_eq!(server.listen(10, OK), Ok(()));

    let mut client = VmaTcpSocket::new(OK).unwrap();
    assert_eq!(client.connect(local(5002)), Ok(()));
    assert_eq!(client.state, TcpConnectionState::Connecting);
    assert_eq!(client.finish_connect(OK), Ok(true));
    assert_eq!(client.state, TcpConnectionState::Connected);
    assert!(client.is_connected());

    // the server accepts the client, whose ephemeral port the engine reports
    let peer = sockaddr_from_addr(&local(49152));
    let accepted = server.accept(&peer, OK).unwrap().unwrap();
    assert!(accepted.open);
    assert_eq!(accepted.address, local(49152));
    assert_eq!(server.state, TcpConnectionState::Listening);

    // a 4-byte payload round-trips exactly
    let mut accepted = accepted;
    assert_eq!(client.send(OK, 4), Ok(4));
    assert_eq!(accepted.recv(OK, 4), Ok(4));
    assert_eq!(accepted.send(OK, 4), Ok(4));
    assert_eq!(client.recv(OK, 4), Ok(4));
    assert_eq!(client.tx_bytes, 4);
    assert_eq!(client.rx_bytes, 4);
    assert_eq!(accepted.rx_bytes, 4);
    assert_eq!(accepted.tx_bytes, 4);

    // while connected, listen, bind, connect and accept are rejected
    assert_eq!(client.listen(10, OK), Err(TcpResult::TcpErrorInvalidParam));
    assert_eq!(client.bind(local(5003), OK), Err(TcpResult::TcpErrorInvalidParam));
    assert_eq!(client.connect(local(5002)), Err(TcpResult::TcpErrorAlreadyConnected));
    assert_eq!(client.accept(&peer, OK), Err(TcpResult::TcpErrorInvalidParam));

    assert_eq!(client.get_stats(), Ok((1, 1, 4, 4)));
}

#[test]
fn benign_translations_on_connected_socket() {
    let mut s = VmaTcpSocket::new(OK).unwrap();
    assert_eq!(s.connect(local(7000)), Ok(()));
    assert_eq!(s.finish_connect(OK), Ok(true));

    // would-block on send is a successful zero-byte result
    assert_eq!(s.send(ERR_WOULD_BLOCK, 0), Ok(0));
    // timeout and closed peer on recv are successful zero-byte results
    assert_eq!(s.recv(ERR_TIMEOUT, 0), Ok(0));
    assert_eq!(s.recv(ERR_CLOSED, 0), Ok(0));
    // state never moved and counters never changed
    assert_eq!(s.state, TcpConnectionState::Connected);
    assert_eq!(s.get_stats(), Ok((0, 0, 0, 0)));
    // a closed peer on send is an error
    assert_eq!(s.send(ERR_CLOSED, 0), Err(TcpResult::TcpErrorClosed));
}

#[test]
fn connect_timeout_reverts_to_disconnected() {
    let mut s = VmaTcpSocket::new(OK).unwrap();
    assert_eq!(s.connect(local(7000)), Ok(()));
    assert_eq!(s.finish_connect(ERR_TIMEOUT), Ok(false));
    assert_eq!(s.state, TcpConnectionState::Disconnected);
    assert!(!s.is_connected());
    // a fatal native error also reverts, but propagates
    assert_eq!(s.connect(local(7000)), Ok(()));
    assert_eq!(s.finish_connect(-6), Err(TcpResult::TcpErrorConnect));
    assert_eq!(s.state, TcpConnectionState::Disconnected);
}

#[test]
fn reconnect_failure_is_a_false_result_not_an_error() {
    let mut s = VmaTcpSocket::new(OK).unwrap();
    // no remote address on record yet
    assert_eq!(s.try_reconnect(OK), Err(TcpResult::TcpErrorInvalidParam));
    assert_eq!(s.connect(local(7000)), Ok(()));
    assert_eq!(s.finish_connect(ERR_TIMEOUT), Ok(false));
    // the failed attempt keeps the remote address for reconnects
    assert_eq!(s.remote_addr, Some(local(7000)));
    assert_eq!(s.try_reconnect(ERR_RECONNECT), Ok(false));
    assert_eq!(s.try_reconnect(ERR_TIMEOUT), Ok(false));
    assert_eq!(s.try_reconnect(OK), Ok(true));
    assert_eq!(s.state, TcpConnectionState::Connected);
    // only truly exceptional native errors propagate
    assert_eq!(s.try_reconnect(-9), Err(TcpResult::TcpErrorRecv));
}

#[test]
fn close_is_idempotent_on_endpoint_and_client() {
    let mut s = VmaTcpSocket::new(OK).unwrap();
    assert_eq!(s.bind(local(5002), OK), Ok(()));
    assert_eq!(s.listen(10, OK), Ok(()));
    let peer = sockaddr_from_addr(&local(49152));
    let mut c = s.accept(&peer, OK).unwrap().unwrap();

    assert!(s.close());
    assert_eq!(s.state, TcpConnectionState::Disconnected);
    assert!(!s.is_bound);
    let snapshot = s.clone();
    assert!(!s.close());
    assert_eq!(s.state, snapshot.state);
    assert_eq!(s.open, snapshot.open);
    assert_eq!(s.is_bound, snapshot.is_bound);

    // the accepted client's lifetime is independent of the listener's
    assert_eq!(c.send(OK, 2), Ok(2));
    assert!(c.close());
    assert!(!c.close());
    assert_eq!(c.send(OK, 2), Err(TcpResult::TcpErrorClosed));
    assert_eq!(c.recv(OK, 2), Err(TcpResult::TcpErrorClosed));

    // operations on the closed endpoint report it as not initialized
    assert_eq!(s.bind(local(5002), OK), Err(TcpResult::TcpErrorNotInitialized));
    assert_eq!(s.get_stats(), Err(TcpResult::TcpErrorNotInitialized));
}
