//! The TCP endpoint model: connection state machine, accepted-client
//! sub-entity, and the policy that turns native result codes into typed
//! errors or benign results.

use crate::common::decoded_addr;
use crate::common::sat_add_u64;
use crate::common::saturating_add_u64;
use crate::common::SockAddrIn;
use crate::common::SocketAddress;
use crate::common::VmaOptions;
use vstd::prelude::*;

verus! {

/// Connection state of a TCP endpoint.
#[derive(Debug, PartialEq, Eq, Clone, Copy, Structural)]
pub enum TcpConnectionState {
    /// Not connected and not listening; the initial and terminal state.
    Disconnected,
    /// A connect attempt is in flight (occupied only between starting and
    /// finishing the attempt).
    Connecting,
    /// Connected and ready for data transfer.
    Connected,
    /// Listening for incoming connections.
    Listening,
}

/// Typed outcome of a native TCP call.
///
/// `TcpSuccess` and each error kind stand for one native result code; a code
/// outside the known table is carried verbatim in `TcpErrorUnknown` rather
/// than reinterpreted.
#[derive(Debug, PartialEq, Eq, Clone, Copy, Structural)]
pub enum TcpResult {
    TcpSuccess,
    TcpErrorSocketCreate,
    TcpErrorSocketOption,
    TcpErrorBind,
    TcpErrorListen,
    TcpErrorAccept,
    TcpErrorConnect,
    TcpErrorReconnect,
    TcpErrorSend,
    TcpErrorRecv,
    TcpErrorTimeout,
    TcpErrorInvalidParam,
    TcpErrorNotInitialized,
    TcpErrorClosed,
    TcpErrorWouldBlock,
    TcpErrorAlreadyConnected,
    /// A native code outside the known table, carried unchanged.
    TcpErrorUnknown(i32),
}

/// The native result code a [`TcpResult`] stands for.
pub open spec fn tcp_code_of(r: TcpResult) -> int {
    match r {
        TcpResult::TcpSuccess => 0,
        TcpResult::TcpErrorSocketCreate => -1,
        TcpResult::TcpErrorSocketOption => -2,
        TcpResult::TcpErrorBind => -3,
        TcpResult::TcpErrorListen => -4,
        TcpResult::TcpErrorAccept => -5,
        TcpResult::TcpErrorConnect => -6,
        TcpResult::TcpErrorReconnect => -7,
        TcpResult::TcpErrorSend => -8,
        TcpResult::TcpErrorRecv => -9,
        TcpResult::TcpErrorTimeout => -10,
        TcpResult::TcpErrorInvalidParam => -11,
        TcpResult::TcpErrorNotInitialized => -12,
        TcpResult::TcpErrorClosed => -13,
        TcpResult::TcpErrorWouldBlock => -14,
        TcpResult::TcpErrorAlreadyConnected => -15,
        TcpResult::TcpErrorUnknown(c) => c as int,
    }
}

/// The typed outcome a native TCP result code maps to.
pub open spec fn tcp_result_of_code(code: i32) -> TcpResult {
    if code == 0 {
        TcpResult::TcpSuccess
    } else if code == -1 {
        TcpResult::TcpErrorSocketCreate
    } else if code == -2 {
        TcpResult::TcpErrorSocketOption
    } else if code == -3 {
        TcpResult::TcpErrorBind
    } else if code == -4 {
        TcpResult::TcpErrorListen
    } else if code == -5 {
        TcpResult::TcpErrorAccept
    } else if code == -6 {
        TcpResult::TcpErrorConnect
    } else if code == -7 {
        TcpResult::TcpErrorReconnect
    } else if code == -8 {
        TcpResult::TcpErrorSend
    } else if code == -9 {
        TcpResult::TcpErrorRecv
    } else if code == -10 {
        TcpResult::TcpErrorTimeout
    } else if code == -11 {
        TcpResult::TcpErrorInvalidParam
    } else if code == -12 {
        TcpResult::TcpErrorNotInitialized
    } else if code == -13 {
        TcpResult::TcpErrorClosed
    } else if code == -14 {
        TcpResult::TcpErrorWouldBlock
    } else if code == -15 {
        TcpResult::TcpErrorAlreadyConnected
    } else {
        TcpResult::TcpErrorUnknown(code)
    }
}

/// Map a native TCP result code to its typed outcome.
///
/// The mapping is exhaustive and loses nothing: the code of the result is
/// always the given code.
pub fn tcp_result_from_code(code: i32) -> (r: TcpResult)
    ensures
        r == tcp_result_of_code(code),
        tcp_code_of(r) == code as int,
{
    if code == 0 {
        TcpResult::TcpSuccess
    } else if code == -1 {
        TcpResult::TcpErrorSocketCreate
    } else if code == -2 {
        TcpResult::TcpErrorSocketOption
    } else if code == -3 {
        TcpResult::TcpErrorBind
    } else if code == -4 {
        TcpResult::TcpErrorListen
    } else if code == -5 {
        TcpResult::TcpErrorAccept
    } else if code == -6 {
        TcpResult::TcpErrorConnect
    } else if code == -7 {
        TcpResult::TcpErrorReconnect
    } else if code == -8 {
        TcpResult::TcpErrorSend
    } else if code == -9 {
        TcpResult::TcpErrorRecv
    } else if code == -10 {
        TcpResult::TcpErrorTimeout
    } else if code == -11 {
        TcpResult::TcpErrorInvalidParam
    } else if code == -12 {
        TcpResult::TcpErrorNotInitialized
    } else if code == -13 {
        TcpResult::TcpErrorClosed
    } else if code == -14 {
        TcpResult::TcpErrorWouldBlock
    } else if code == -15 {
        TcpResult::TcpErrorAlreadyConnected
    } else {
        TcpResult::TcpErrorUnknown(code)
    }
}

/// A connected client accepted by a listening endpoint.
///
/// Its lifetime is independent of the parent endpoint: closing or dropping
/// the listener does not close already-accepted clients, and vice versa. A
/// client has no state machine beyond open/closed.
#[derive(Debug, Clone, PartialEq, Eq, Structural)]
pub struct Client {
    /// The client's remote address.
    pub address: SocketAddress,
    /// Whether the underlying native connection is still owned and open.
    pub open: bool,
    /// Total bytes received from this client.
    pub rx_bytes: u64,
    /// Total bytes sent to this client.
    pub tx_bytes: u64,
}

/// What closing a client does: the connection is no longer open, and nothing
/// else changes.
pub open spec fn client_close_transition(a: Client, b: Client) -> bool {
    b == (Client { open: false, ..a })
}

impl Client {
    /// Wrap a freshly accepted native connection whose peer has the given
    /// native address.
    pub fn new(peer: &SockAddrIn) -> (c: Client)
        ensures
            c == (Client {
                address: decoded_addr(*peer),
                open: true,
                rx_bytes: 0,
                tx_bytes: 0,
            }),
    {
        let address = crate::common::sockaddr_to_rust(peer);
        Client { address, open: true, rx_bytes: 0, tx_bytes: 0 }
    }

    /// Record the native outcome of sending to this client.
    ///
    /// On success the native byte count is returned and accounted; a native
    /// "would block" is a successful zero-byte result (the caller retries);
    /// any other native failure is an error. A closed client rejects the
    /// call.
    pub fn send(&mut self, code: i32, bytes_sent: usize) -> (r: Result<usize, TcpResult>)
        ensures
            !old(self).open ==> r == Err::<usize, TcpResult>(TcpResult::TcpErrorClosed) && *final(self) == *old(self),
            old(self).open ==> match tcp_result_of_code(code) {
                TcpResult::TcpSuccess => r == Ok::<usize, TcpResult>(bytes_sent) && *final(self)
                    == (Client {
                    tx_bytes: sat_add_u64(old(self).tx_bytes, bytes_sent as u64),
                    ..*old(self)
                }),
                TcpResult::TcpErrorWouldBlock => r == Ok::<usize, TcpResult>(0) && *final(self)
                    == *old(self),
                e => r == Err::<usize, TcpResult>(e) && *final(self) == *old(self),
            },
    {
        if !self.open {
            return Err(TcpResult::TcpErrorClosed);
        }
        match tcp_result_from_code(code) {
            TcpResult::TcpSuccess => {
                self.tx_bytes = saturating_add_u64(self.tx_bytes, bytes_sent as u64);
                Ok(bytes_sent)
            },
            TcpResult::TcpErrorWouldBlock => Ok(0),
            e => Err(e),
        }
    }

    /// Record the native outcome of receiving from this client.
    ///
    /// On success the native byte count is returned and accounted; a native
    /// timeout, and a peer that has closed, are successful zero-byte
    /// (EOF-like) results; any other native failure is an error. A closed
    /// client rejects the call.
    pub fn recv(&mut self, code: i32, bytes_received: usize) -> (r: Result<usize, TcpResult>)
        ensures
            !old(self).open ==> r == Err::<usize, TcpResult>(TcpResult::TcpErrorClosed) && *final(self) == *old(self),
            old(self).open ==> match tcp_result_of_code(code) {
                TcpResult::TcpSuccess => r == Ok::<usize, TcpResult>(bytes_received) && *final(self) == (Client {
                    rx_bytes: sat_add_u64(old(self).rx_bytes, bytes_received as u64),
                    ..*old(self)
                }),
                TcpResult::TcpErrorTimeout => r == Ok::<usize, TcpResult>(0) && *final(self)
                    == *old(self),
                TcpResult::TcpErrorClosed => r == Ok::<usize, TcpResult>(0) && *final(self) == *old(self),
                e => r == Err::<usize, TcpResult>(e) && *final(self) == *old(self),
            },
    {
        if !self.open {
            return Err(TcpResult::TcpErrorClosed);
        }
        match tcp_result_from_code(code) {
            TcpResult::TcpSuccess => {
                self.rx_bytes = saturating_add_u64(self.rx_bytes, bytes_received as u64);
                Ok(bytes_received)
            },
            TcpResult::TcpErrorTimeout => Ok(0),
            TcpResult::TcpErrorClosed => Ok(0),
            e => Err(e),
        }
    }

    /// Close the client connection.
    ///
    /// Closing never fails and is idempotent; the result says whether the
    /// native connection still had to be released (false on a repeated
    /// close, which is a no-op).
    pub fn close(&mut self) -> (r: bool)
        ensures
            client_close_transition(*old(self), *final(self)),
            r == old(self).open,
    {
        let was_open = self.open;
        self.open = false;
        was_open
    }
}

/// Law: closing a client is idempotent. A second close changes nothing, and
/// since the connection is then no longer open, no native release is owed.
pub proof fn lemma_client_close_idempotent(a: Client, b: Client, c: Client)
    requires
        client_close_transition(a, b),
        client_close_transition(b, c),
    ensures
        c == b,
        !b.open,
{
}

/// A TCP endpoint: one native handle, the cached addresses, the cumulative
/// counters, and the connection state machine.
///
/// The native engine is driven by an unverified shell: every operation here
/// takes the native call's result code and decides, from the current state
/// and that code, what the caller sees and what the next state is. An
/// operation that is illegal in the current state is rejected without
/// consulting the native outcome (the shell must not even make the native
/// call then; the `can_*` queries say whether it may).
#[derive(Debug, Clone)]
pub struct VmaTcpSocket {
    /// The profile the endpoint was constructed with (read-only thereafter).
    pub options: VmaOptions,
    /// Whether the native handle is still owned and open.
    pub open: bool,
    /// Connection state.
    pub state: TcpConnectionState,
    /// Whether a local address is bound.
    pub is_bound: bool,
    /// The bound local address, once bound.
    pub local_addr: Option<SocketAddress>,
    /// The remote address of the last connect attempt; kept across failures
    /// so that a reconnect can target the same logical connection.
    pub remote_addr: Option<SocketAddress>,
    /// The listen backlog, once listening.
    pub backlog: i32,
    /// Cumulative packets received (monotonic).
    pub rx_packets: u64,
    /// Cumulative packets sent (monotonic).
    pub tx_packets: u64,
    /// Cumulative bytes received (monotonic).
    pub rx_bytes: u64,
    /// Cumulative bytes sent (monotonic).
    pub tx_bytes: u64,
}

/// A freshly constructed endpoint: open, disconnected, unbound, all counters
/// zero, holding the given profile.
pub open spec fn is_fresh_tcp(s: VmaTcpSocket, options: VmaOptions) -> bool {
    &&& s.options == options
    &&& s.open
    &&& s.state == TcpConnectionState::Disconnected
    &&& !s.is_bound
    &&& s.local_addr is None
    &&& s.remote_addr is None
    &&& s.backlog == 0
    &&& s.rx_packets == 0
    &&& s.tx_packets == 0
    &&& s.rx_bytes == 0
    &&& s.tx_bytes == 0
}

/// What closing an endpoint does: the handle is no longer open, the state is
/// `Disconnected`, the binding is released; counters, profile and cached
/// addresses are kept.
pub open spec fn tcp_close_transition(a: VmaTcpSocket, b: VmaTcpSocket) -> bool {
    b == (VmaTcpSocket {
        open: false,
        state: TcpConnectionState::Disconnected,
        is_bound: false,
        ..a
    })
}

/// `b` equals `a` except that the receive counters account for one more
/// delivery of `n` bytes (saturating, never wrapping).
pub open spec fn tcp_rx_account(a: VmaTcpSocket, b: VmaTcpSocket, n: u64) -> bool {
    b == (VmaTcpSocket {
        rx_packets: sat_add_u64(a.rx_packets, 1),
        rx_bytes: sat_add_u64(a.rx_bytes, n),
        ..a
    })
}

/// `b` equals `a` except that the transmit counters account for one more
/// send of `n` bytes (saturating, never wrapping).
pub open spec fn tcp_tx_account(a: VmaTcpSocket, b: VmaTcpSocket, n: u64) -> bool {
    b == (VmaTcpSocket {
        tx_packets: sat_add_u64(a.tx_packets, 1),
        tx_bytes: sat_add_u64(a.tx_bytes, n),
        ..a
    })
}

impl VmaTcpSocket {
    /// Binding is legal only on an open, unbound endpoint in `Disconnected`
    /// state.
    pub open spec fn bind_legal(self) -> bool {
        &&& self.open
        &&& self.state == TcpConnectionState::Disconnected
        &&& !self.is_bound
    }

    /// Listening is legal only on an open, bound endpoint in `Disconnected`
    /// state, with a backlog of at least one.
    pub open spec fn listen_legal(self, backlog: i32) -> bool {
        &&& self.open
        &&& self.state == TcpConnectionState::Disconnected
        &&& self.is_bound
        &&& backlog >= 1
    }

    /// Accepting is legal only on an open endpoint in `Listening` state.
    pub open spec fn accept_legal(self) -> bool {
        &&& self.open
        &&& self.state == TcpConnectionState::Listening
    }

    /// Starting a connect attempt is legal only on an open endpoint in
    /// `Disconnected` state.
    pub open spec fn connect_legal(self) -> bool {
        &&& self.open
        &&& self.state == TcpConnectionState::Disconnected
    }

    /// Finishing a connect attempt is legal only while one is in flight.
    pub open spec fn finish_connect_legal(self) -> bool {
        &&& self.open
        &&& self.state == TcpConnectionState::Connecting
    }

    /// Reconnecting is legal from `Connected` or `Disconnected`, on an open
    /// endpoint that has a remote address to re-establish.
    pub open spec fn reconnect_legal(self) -> bool {
        &&& self.open
        &&& self.remote_addr is Some
        &&& (self.state == TcpConnectionState::Connected || self.state
            == TcpConnectionState::Disconnected)
    }

    /// Sending is legal only on an open endpoint in `Connected` state.
    pub open spec fn send_legal(self) -> bool {
        &&& self.open
        &&& self.state == TcpConnectionState::Connected
    }

    /// Receiving is legal only on an open endpoint in `Connected` state.
    pub open spec fn recv_legal(self) -> bool {
        &&& self.open
        &&& self.state == TcpConnectionState::Connected
    }

    /// The error an illegal operation is rejected with: the endpoint is
    /// either no longer initialized, or in the wrong state.
    pub open spec fn rejection(self) -> TcpResult {
        if !self.open {
            TcpResult::TcpErrorNotInitialized
        } else {
            TcpResult::TcpErrorInvalidParam
        }
    }

    /// The error an illegal connect attempt is rejected with: an endpoint
    /// that is already connected reports so.
    pub open spec fn connect_rejection(self) -> TcpResult {
        if !self.open {
            TcpResult::TcpErrorNotInitialized
        } else if self.state == TcpConnectionState::Connected {
            TcpResult::TcpErrorAlreadyConnected
        } else {
            TcpResult::TcpErrorInvalidParam
        }
    }

    /// Build the endpoint model for a native handle that the shell
    /// initialized with the given profile; `code` is the native init outcome.
    pub fn with_options(options: VmaOptions, code: i32) -> (r: Result<VmaTcpSocket, TcpResult>)
        ensures
            code == 0 ==> (r matches Ok(s) && is_fresh_tcp(s, options)),
            code != 0 ==> r == Err::<VmaTcpSocket, TcpResult>(tcp_result_of_code(code)),
    {
        if code != 0 {
            return Err(tcp_result_from_code(code));
        }
        Ok(
            VmaTcpSocket {
                options,
                open: true,
                state: TcpConnectionState::Disconnected,
                is_bound: false,
                local_addr: None,
                remote_addr: None,
                backlog: 0,
                rx_packets: 0,
                tx_packets: 0,
                rx_bytes: 0,
                tx_bytes: 0,
            },
        )
    }

    /// Build the endpoint model with the balanced default profile.
    pub fn new(code: i32) -> (r: Result<VmaTcpSocket, TcpResult>)
        ensures
            code == 0 ==> (r matches Ok(s) && is_fresh_tcp(s, s.options)
                && crate::common::is_default_profile(s.options)),
            code != 0 ==> r == Err::<VmaTcpSocket, TcpResult>(tcp_result_of_code(code)),
    {
        Self::with_options(VmaOptions::default(), code)
    }

    /// Whether a bind attempt may be made now.
    pub fn can_bind(&self) -> (r: bool)
        ensures
            r == self.bind_legal(),
    {
        self.open && self.state == TcpConnectionState::Disconnected && !self.is_bound
    }

    /// Whether a listen attempt with this backlog may be made now.
    pub fn can_listen(&self, backlog: i32) -> (r: bool)
        ensures
            r == self.listen_legal(backlog),
    {
        self.open && self.state == TcpConnectionState::Disconnected && self.is_bound && backlog
            >= 1
    }

    /// Whether an accept attempt may be made now.
    pub fn can_accept(&self) -> (r: bool)
        ensures
            r == self.accept_legal(),
    {
        self.open && self.state == TcpConnectionState::Listening
    }

    /// Whether a reconnect attempt may be made now.
    pub fn can_reconnect(&self) -> (r: bool)
        ensures
            r == self.reconnect_legal(),
    {
        self.open && self.remote_addr.is_some() && (self.state == TcpConnectionState::Connected
            || self.state == TcpConnectionState::Disconnected)
    }

    /// Whether a send attempt may be made now.
    pub fn can_send(&self) -> (r: bool)
        ensures
            r == self.send_legal(),
    {
        self.open && self.state == TcpConnectionState::Connected
    }

    /// Whether a receive attempt may be made now.
    pub fn can_recv(&self) -> (r: bool)
        ensures
            r == self.recv_legal(),
    {
        self.open && self.state == TcpConnectionState::Connected
    }

    /// Whether the endpoint is currently connected.
    pub fn is_connected(&self) -> (r: bool)
        ensures
            r == (self.state == TcpConnectionState::Connected),
    {
        self.state == TcpConnectionState::Connected
    }

    /// Record the native outcome of binding to `addr`.
    ///
    /// Legal only from `Disconnected` on an unbound endpoint (binding twice
    /// is an idempotent failure); does not change the connection state. On
    /// native success the local address is recorded; on native rejection the
    /// code's error (address in use, invalid parameter, ...) is returned
    /// unchanged.
    pub fn bind(&mut self, addr: SocketAddress, code: i32) -> (r: Result<(), TcpResult>)
        ensures
            !old(self).bind_legal() ==> r == Err::<(), TcpResult>(old(self).rejection()) && *final(self) == *old(self),
            old(self).bind_legal() ==> match tcp_result_of_code(code) {
                TcpResult::TcpSuccess => r == Ok::<(), TcpResult>(()) && *final(self)
                    == (VmaTcpSocket { is_bound: true, local_addr: Some(addr), ..*old(self) }),
                e => r == Err::<(), TcpResult>(e) && *final(self) == *old(self),
            },
    {
        if !self.can_bind() {
            if !self.open {
                return Err(TcpResult::TcpErrorNotInitialized);
            }
            return Err(TcpResult::TcpErrorInvalidParam);
        }
        match tcp_result_from_code(code) {
            TcpResult::TcpSuccess => {
                self.is_bound = true;
                self.local_addr = Some(addr);
                Ok(())
            },
            e => Err(e),
        }
    }

    /// Record the native outcome of entering listening mode.
    ///
    /// Legal only after a successful bind, from `Disconnected`, with a
    /// backlog of at least one; on native success the endpoint moves to
    /// `Listening`.
    pub fn listen(&mut self, backlog: i32, code: i32) -> (r: Result<(), TcpResult>)
        ensures
            !old(self).listen_legal(backlog) ==> r == Err::<(), TcpResult>(old(self).rejection())
                && *final(self) == *old(self),
            old(self).listen_legal(backlog) ==> match tcp_result_of_code(code) {
                TcpResult::TcpSuccess => r == Ok::<(), TcpResult>(()) && *final(self)
                    == (VmaTcpSocket {
                    state: TcpConnectionState::Listening,
                    backlog: backlog,
                    ..*old(self)
                }),
                e => r == Err::<(), TcpResult>(e) && *final(self) == *old(self),
            },
    {
        if !self.can_listen(backlog) {
            if !self.open {
                return Err(TcpResult::TcpErrorNotInitialized);
            }
            return Err(TcpResult::TcpErrorInvalidParam);
        }
        match tcp_result_from_code(code) {
            TcpResult::TcpSuccess => {
                self.state = TcpConnectionState::Listening;
                self.backlog = backlog;
                Ok(())
            },
            e => Err(e),
        }
    }

    /// Record the native outcome of an accept attempt; `peer` is the
    /// client's native address as the engine filled it in on success.
    ///
    /// Legal only while `Listening`, and never changes the listening
    /// endpoint's own state: success hands out a fresh open [`Client`], a
    /// native timeout is the benign "no client" result, and only any other
    /// native failure is an error.
    pub fn accept(&mut self, peer: &SockAddrIn, code: i32) -> (r: Result<Option<Client>, TcpResult>)
        ensures
            *final(self) == *old(self),
            !old(self).accept_legal() ==> r == Err::<Option<Client>, TcpResult>(
                old(self).rejection(),
            ),
            old(self).accept_legal() ==> match tcp_result_of_code(code) {
                TcpResult::TcpSuccess => r == Ok::<Option<Client>, TcpResult>(
                    Some(
                        Client {
                            address: decoded_addr(*peer),
                            open: true,
                            rx_bytes: 0,
                            tx_bytes: 0,
                        },
                    ),
                ),
                TcpResult::TcpErrorTimeout => r == Ok::<Option<Client>, TcpResult>(None),
                e => r == Err::<Option<Client>, TcpResult>(e),
            },
    {
        if !self.can_accept() {
            if !self.open {
                return Err(TcpResult::TcpErrorNotInitialized);
            }
            return Err(TcpResult::TcpErrorInvalidParam);
        }
        match tcp_result_from_code(code) {
            TcpResult::TcpSuccess => Ok(Some(Client::new(peer))),
            TcpResult::TcpErrorTimeout => Ok(None),
            e => Err(e),
        }
    }

    /// Start a connect attempt toward `addr`.
    ///
    /// Legal only from `Disconnected`; the endpoint enters the transient
    /// `Connecting` state and records the remote address, and the shell must
    /// then make the native call and hand its outcome to
    /// [`finish_connect`](Self::finish_connect). An endpoint that is already
    /// connected is rejected with `TcpErrorAlreadyConnected`.
    pub fn connect(&mut self, addr: SocketAddress) -> (r: Result<(), TcpResult>)
        ensures
            !old(self).connect_legal() ==> r == Err::<(), TcpResult>(
                old(self).connect_rejection(),
            ) && *final(self) == *old(self),
            old(self).connect_legal() ==> r == Ok::<(), TcpResult>(()) && *final(self)
                == (VmaTcpSocket {
                state: TcpConnectionState::Connecting,
                remote_addr: Some(addr),
                ..*old(self)
            }),
    {
        if !self.open {
            return Err(TcpResult::TcpErrorNotInitialized);
        }
        if self.state == TcpConnectionState::Connected {
            return Err(TcpResult::TcpErrorAlreadyConnected);
        }
        if !(self.state == TcpConnectionState::Disconnected) {
            return Err(TcpResult::TcpErrorInvalidParam);
        }
        self.state = TcpConnectionState::Connecting;
        self.remote_addr = Some(addr);
        Ok(())
    }

    /// Record the native outcome of the connect attempt in flight.
    ///
    /// On native success the endpoint is `Connected` and the result is
    /// `Ok(true)`; a native timeout is the benign `Ok(false)` ("not
    /// connected", the caller may retry) and the endpoint reverts to
    /// `Disconnected`; any other native failure is an error and the endpoint
    /// also reverts to `Disconnected`.
    pub fn finish_connect(&mut self, code: i32) -> (r: Result<bool, TcpResult>)
        ensures
            !old(self).finish_connect_legal() ==> r == Err::<bool, TcpResult>(
                old(self).rejection(),
            ) && *final(self) == *old(self),
            old(self).finish_connect_legal() ==> match tcp_result_of_code(code) {
                TcpResult::TcpSuccess => r == Ok::<bool, TcpResult>(true) && *final(self)
                    == (VmaTcpSocket { state: TcpConnectionState::Connected, ..*old(self) }),
                TcpResult::TcpErrorTimeout => r == Ok::<bool, TcpResult>(false) && *final(self)
                    == (VmaTcpSocket { state: TcpConnectionState::Disconnected, ..*old(self) }),
                e => r == Err::<bool, TcpResult>(e) && *final(self) == (VmaTcpSocket {
                    state: TcpConnectionState::Disconnected,
                    ..*old(self)
                }),
            },
    {
        if !self.open {
            return Err(TcpResult::TcpErrorNotInitialized);
        }
        if !(self.state == TcpConnectionState::Connecting) {
            return Err(TcpResult::TcpErrorInvalidParam);
        }
        match tcp_result_from_code(code) {
            TcpResult::TcpSuccess => {
                self.state = TcpConnectionState::Connected;
                Ok(true)
            },
            TcpResult::TcpErrorTimeout => {
                self.state = TcpConnectionState::Disconnected;
                Ok(false)
            },
            e => {
                self.state = TcpConnectionState::Disconnected;
                Err(e)
            },
        }
    }

    /// Record the native outcome of a reconnect attempt toward the stored
    /// remote address.
    ///
    /// Legal from `Connected` or `Disconnected` once a remote address is on
    /// record. Ordinary reconnect failure is not an error: a native timeout
    /// or reconnect failure yields `Ok(false)` and leaves the endpoint
    /// `Disconnected`; only other native failures propagate as errors.
    pub fn try_reconnect(&mut self, code: i32) -> (r: Result<bool, TcpResult>)
        ensures
            !old(self).reconnect_legal() ==> r == Err::<bool, TcpResult>(old(self).rejection())
                && *final(self) == *old(self),
            old(self).reconnect_legal() ==> match tcp_result_of_code(code) {
                TcpResult::TcpSuccess => r == Ok::<bool, TcpResult>(true) && *final(self)
                    == (VmaTcpSocket { state: TcpConnectionState::Connected, ..*old(self) }),
                TcpResult::TcpErrorTimeout => r == Ok::<bool, TcpResult>(false) && *final(self)
                    == (VmaTcpSocket { state: TcpConnectionState::Disconnected, ..*old(self) }),
                TcpResult::TcpErrorReconnect => r == Ok::<bool, TcpResult>(false) && *final(self)
                    == (VmaTcpSocket { state: TcpConnectionState::Disconnected, ..*old(self) }),
                e => r == Err::<bool, TcpResult>(e) && *final(self) == (VmaTcpSocket {
                    state: TcpConnectionState::Disconnected,
                    ..*old(self)
                }),
            },
    {
        if !self.can_reconnect() {
            if !self.open {
                return Err(TcpResult::TcpErrorNotInitialized);
            }
            return Err(TcpResult::TcpErrorInvalidParam);
        }
        match tcp_result_from_code(code) {
            TcpResult::TcpSuccess => {
                self.state = TcpConnectionState::Connected;
                Ok(true)
            },
            TcpResult::TcpErrorTimeout => {
                self.state = TcpConnectionState::Disconnected;
                Ok(false)
            },
            TcpResult::TcpErrorReconnect => {
                self.state = TcpConnectionState::Disconnected;
                Ok(false)
            },
            e => {
                self.state = TcpConnectionState::Disconnected;
                Err(e)
            },
        }
    }

    /// Record the native outcome of sending on the connected endpoint.
    ///
    /// Legal only while `Connected`, and never changes state: success
    /// returns and accounts the native byte count, a native "would block" is
    /// a successful zero-byte result (the caller retries), and any other
    /// native failure — a closed peer included — is an error.
    pub fn send(&mut self, code: i32, bytes_sent: usize) -> (r: Result<usize, TcpResult>)
        ensures
            !old(self).send_legal() ==> r == Err::<usize, TcpResult>(old(self).rejection())
                && *final(self) == *old(self),
            old(self).send_legal() ==> match tcp_result_of_code(code) {
                TcpResult::TcpSuccess => r == Ok::<usize, TcpResult>(bytes_sent) && tcp_tx_account(
                    *old(self),
                    *final(self),
                    bytes_sent as u64,
                ),
                TcpResult::TcpErrorWouldBlock => r == Ok::<usize, TcpResult>(0) && *final(self)
                    == *old(self),
                e => r == Err::<usize, TcpResult>(e) && *final(self) == *old(self),
            },
    {
        if !self.can_send() {
            if !self.open {
                return Err(TcpResult::TcpErrorNotInitialized);
            }
            return Err(TcpResult::TcpErrorInvalidParam);
        }
        match tcp_result_from_code(code) {
            TcpResult::TcpSuccess => {
                self.tx_packets = saturating_add_u64(self.tx_packets, 1);
                self.tx_bytes = saturating_add_u64(self.tx_bytes, bytes_sent as u64);
                Ok(bytes_sent)
            },
            TcpResult::TcpErrorWouldBlock => Ok(0),
            e => Err(e),
        }
    }

    /// Record the native outcome of receiving on the connected endpoint.
    ///
    /// Legal only while `Connected`, and never changes state: success
    /// returns and accounts the native byte count, while a native timeout
    /// and a closed peer are successful zero-byte (EOF-like) results —
    /// callers distinguish them from data only via the count, never via
    /// state. Any other native failure is an error.
    pub fn recv(&mut self, code: i32, bytes_received: usize) -> (r: Result<usize, TcpResult>)
        ensures
            !old(self).recv_legal() ==> r == Err::<usize, TcpResult>(old(self).rejection())
                && *final(self) == *old(self),
            old(self).recv_legal() ==> match tcp_result_of_code(code) {
                TcpResult::TcpSuccess => r == Ok::<usize, TcpResult>(bytes_received)
                    && tcp_rx_account(*old(self), *final(self), bytes_received as u64),
                TcpResult::TcpErrorTimeout => r == Ok::<usize, TcpResult>(0) && *final(self)
                    == *old(self),
                TcpResult::TcpErrorClosed => r == Ok::<usize, TcpResult>(0) && *final(self)
                    == *old(self),
                e => r == Err::<usize, TcpResult>(e) && *final(self) == *old(self),
            },
    {
        if !self.can_recv() {
            if !self.open {
                return Err(TcpResult::TcpErrorNotInitialized);
            }
            return Err(TcpResult::TcpErrorInvalidParam);
        }
        match tcp_result_from_code(code) {
            TcpResult::TcpSuccess => {
                self.rx_packets = saturating_add_u64(self.rx_packets, 1);
                self.rx_bytes = saturating_add_u64(self.rx_bytes, bytes_received as u64);
                Ok(bytes_received)
            },
            TcpResult::TcpErrorTimeout => Ok(0),
            TcpResult::TcpErrorClosed => Ok(0),
            e => Err(e),
        }
    }

    /// The cumulative counters: packets received, packets sent, bytes
    /// received, bytes sent. Always succeeds while the endpoint is
    /// initialized.
    pub fn get_stats(&self) -> (r: Result<(u64, u64, u64, u64), TcpResult>)
        ensures
            self.open ==> r == Ok::<(u64, u64, u64, u64), TcpResult>(
                (self.rx_packets, self.tx_packets, self.rx_bytes, self.tx_bytes),
            ),
            !self.open ==> r == Err::<(u64, u64, u64, u64), TcpResult>(
                TcpResult::TcpErrorNotInitialized,
            ),
    {
        if !self.open {
            return Err(TcpResult::TcpErrorNotInitialized);
        }
        Ok((self.rx_packets, self.tx_packets, self.rx_bytes, self.tx_bytes))
    }

    /// Close the endpoint.
    ///
    /// Legal from any state, never fails, and is idempotent: the endpoint is
    /// left `Disconnected` and unbound. The result says whether the native
    /// handle still had to be released (false on a repeated close, which is
    /// a no-op).
    pub fn close(&mut self) -> (r: bool)
        ensures
            tcp_close_transition(*old(self), *final(self)),
            r == old(self).open,
    {
        let was_open = self.open;
        self.open = false;
        self.state = TcpConnectionState::Disconnected;
        self.is_bound = false;
        was_open
    }
}

/// Law: which operations the TCP state machine allows in each state, on an
/// open endpoint. From `Disconnected` (before any bind) only bind and
/// connect are legal; while `Listening` only accept is legal — connect and
/// send are rejected; while `Connected` send and receive are legal and bind,
/// listen, connect and accept are rejected.
pub proof fn lemma_tcp_state_machine(s: VmaTcpSocket, backlog: i32)
    requires
        s.open,
    ensures
        s.state == TcpConnectionState::Disconnected && !s.is_bound ==> s.bind_legal()
            && s.connect_legal() && !s.listen_legal(backlog) && !s.accept_legal()
            && !s.send_legal() && !s.recv_legal(),
        s.state == TcpConnectionState::Listening ==> s.accept_legal() && !s.bind_legal()
            && !s.listen_legal(backlog) && !s.connect_legal() && !s.send_legal()
            && !s.recv_legal(),
        s.state == TcpConnectionState::Connected ==> s.send_legal() && s.recv_legal()
            && !s.bind_legal() && !s.listen_legal(backlog) && !s.connect_legal()
            && !s.accept_legal(),
{
}

/// Law: the cumulative counters are monotonic. Every transition an operation
/// can make — leaving the endpoint unchanged, accounting a delivery or a
/// send, or closing — never lowers any of the four counters.
pub proof fn lemma_tcp_counters_monotonic(a: VmaTcpSocket, b: VmaTcpSocket, n: u64)
    requires
        b == a || tcp_rx_account(a, b, n) || tcp_tx_account(a, b, n) || tcp_close_transition(a, b)
            || b == (VmaTcpSocket { state: b.state, is_bound: b.is_bound, local_addr: b.local_addr, remote_addr: b.remote_addr, backlog: b.backlog, ..a }),
    ensures
        b.rx_packets >= a.rx_packets,
        b.tx_packets >= a.tx_packets,
        b.rx_bytes >= a.rx_bytes,
        b.tx_bytes >= a.tx_bytes,
{
}

/// Law: closing an endpoint is idempotent. A second close changes nothing,
/// and since the handle is then no longer open, no native release is owed.
pub proof fn lemma_tcp_close_idempotent(a: VmaTcpSocket, b: VmaTcpSocket, c: VmaTcpSocket)
    requires
        tcp_close_transition(a, b),
        tcp_close_transition(b, c),
    ensures
        c == b,
        !b.open,
{
}

} // verus!
