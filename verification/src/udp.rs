//! The UDP endpoint model: bind/connect/send/receive bookkeeping, the
//! received-packet capture, and the policy that turns native result codes
//! into typed errors or benign results.

use crate::common::decoded_addr;
use crate::common::sat_add_u64;
use crate::common::saturating_add_u64;
use crate::common::SockAddrIn;
use crate::common::SocketAddress;
use crate::common::VmaOptions;
use vstd::prelude::*;

verus! {

/// Typed outcome of a native UDP call.
///
/// `UdpSuccess` and each error kind stand for one native result code; a code
/// outside the known table is carried verbatim in `UdpErrorUnknown` rather
/// than reinterpreted.
#[derive(Debug, PartialEq, Eq, Clone, Copy, Structural)]
pub enum UdpResult {
    UdpSuccess,
    UdpErrorSocketCreate,
    UdpErrorSocketOption,
    UdpErrorBind,
    UdpErrorConnect,
    UdpErrorSend,
    UdpErrorRecv,
    UdpErrorTimeout,
    UdpErrorInvalidParam,
    UdpErrorNotInitialized,
    UdpErrorClosed,
    /// A native code outside the known table, carried unchanged.
    UdpErrorUnknown(i32),
}

/// The native result code a [`UdpResult`] stands for.
pub open spec fn udp_code_of(r: UdpResult) -> int {
    match r {
        UdpResult::UdpSuccess => 0,
        UdpResult::UdpErrorSocketCreate => -1,
        UdpResult::UdpErrorSocketOption => -2,
        UdpResult::UdpErrorBind => -3,
        UdpResult::UdpErrorConnect => -4,
        UdpResult::UdpErrorSend => -5,
        UdpResult::UdpErrorRecv => -6,
        UdpResult::UdpErrorTimeout => -7,
        UdpResult::UdpErrorInvalidParam => -8,
        UdpResult::UdpErrorNotInitialized => -9,
        UdpResult::UdpErrorClosed => -10,
        UdpResult::UdpErrorUnknown(c) => c as int,
    }
}

/// The typed outcome a native UDP result code maps to.
pub open spec fn udp_result_of_code(code: i32) -> UdpResult {
    if code == 0 {
        UdpResult::UdpSuccess
    } else if code == -1 {
        UdpResult::UdpErrorSocketCreate
    } else if code == -2 {
        UdpResult::UdpErrorSocketOption
    } else if code == -3 {
        UdpResult::UdpErrorBind
    } else if code == -4 {
        UdpResult::UdpErrorConnect
    } else if code == -5 {
        UdpResult::UdpErrorSend
    } else if code == -6 {
        UdpResult::UdpErrorRecv
    } else if code == -7 {
        UdpResult::UdpErrorTimeout
    } else if code == -8 {
        UdpResult::UdpErrorInvalidParam
    } else if code == -9 {
        UdpResult::UdpErrorNotInitialized
    } else if code == -10 {
        UdpResult::UdpErrorClosed
    } else {
        UdpResult::UdpErrorUnknown(code)
    }
}

/// Map a native UDP result code to its typed outcome.
///
/// The mapping is exhaustive and loses nothing: the code of the result is
/// always the given code.
pub fn udp_result_from_code(code: i32) -> (r: UdpResult)
    ensures
        r == udp_result_of_code(code),
        udp_code_of(r) == code as int,
{
    if code == 0 {
        UdpResult::UdpSuccess
    } else if code == -1 {
        UdpResult::UdpErrorSocketCreate
    } else if code == -2 {
        UdpResult::UdpErrorSocketOption
    } else if code == -3 {
        UdpResult::UdpErrorBind
    } else if code == -4 {
        UdpResult::UdpErrorConnect
    } else if code == -5 {
        UdpResult::UdpErrorSend
    } else if code == -6 {
        UdpResult::UdpErrorRecv
    } else if code == -7 {
        UdpResult::UdpErrorTimeout
    } else if code == -8 {
        UdpResult::UdpErrorInvalidParam
    } else if code == -9 {
        UdpResult::UdpErrorNotInitialized
    } else if code == -10 {
        UdpResult::UdpErrorClosed
    } else {
        UdpResult::UdpErrorUnknown(code)
    }
}

/// An immutable capture of one received datagram: an owned copy of the
/// payload, the resolved source address, and the receive timestamp in
/// nanoseconds since the epoch (`0` if unsupported).
#[derive(Debug)]
pub struct Packet {
    /// The packet payload.
    pub data: Vec<u8>,
    /// The source address the packet was received from.
    pub src_addr: SocketAddress,
    /// Hardware/software receive timestamp, if available.
    pub timestamp: u64,
}

/// A UDP endpoint: one native handle, the cached addresses, and the
/// cumulative counters.
///
/// UDP is connectionless: `connect` only records a default peer for
/// subsequent sends. As with the TCP model, the native engine is driven by
/// an unverified shell, and every operation here takes the native call's
/// result code and decides what the caller sees. An operation that is
/// illegal in the current state is rejected without consulting the native
/// outcome (the `can_*` queries say whether the shell may make the call).
#[derive(Debug, Clone)]
pub struct VmaUdpSocket {
    /// The profile the endpoint was constructed with (read-only thereafter).
    pub options: VmaOptions,
    /// Whether the native handle is still owned and open.
    pub open: bool,
    /// Whether a local address is bound (required before receiving).
    pub is_bound: bool,
    /// Whether a default peer is set (required before plain `send`).
    pub is_connected: bool,
    /// The bound local address, once bound.
    pub local_addr: Option<SocketAddress>,
    /// The default peer, once set.
    pub remote_addr: Option<SocketAddress>,
    /// Cumulative packets received (monotonic).
    pub rx_packets: u64,
    /// Cumulative packets sent (monotonic).
    pub tx_packets: u64,
    /// Cumulative bytes received (monotonic).
    pub rx_bytes: u64,
    /// Cumulative bytes sent (monotonic).
    pub tx_bytes: u64,
}

/// A freshly constructed endpoint: open, unbound, no default peer, all
/// counters zero, holding the given profile.
pub open spec fn is_fresh_udp(s: VmaUdpSocket, options: VmaOptions) -> bool {
    &&& s.options == options
    &&& s.open
    &&& !s.is_bound
    &&& !s.is_connected
    &&& s.local_addr is None
    &&& s.remote_addr is None
    &&& s.rx_packets == 0
    &&& s.tx_packets == 0
    &&& s.rx_bytes == 0
    &&& s.tx_bytes == 0
}

/// What closing an endpoint does: the handle is no longer open and the
/// binding and default peer are released; counters, profile and cached
/// addresses are kept.
pub open spec fn udp_close_transition(a: VmaUdpSocket, b: VmaUdpSocket) -> bool {
    b == (VmaUdpSocket { open: false, is_bound: false, is_connected: false, ..a })
}

/// `b` equals `a` except that the receive counters account for one more
/// delivery of `n` bytes (saturating, never wrapping).
pub open spec fn udp_rx_account(a: VmaUdpSocket, b: VmaUdpSocket, n: u64) -> bool {
    b == (VmaUdpSocket {
        rx_packets: sat_add_u64(a.rx_packets, 1),
        rx_bytes: sat_add_u64(a.rx_bytes, n),
        ..a
    })
}

/// `b` equals `a` except that the transmit counters account for one more
/// send of `n` bytes (saturating, never wrapping).
pub open spec fn udp_tx_account(a: VmaUdpSocket, b: VmaUdpSocket, n: u64) -> bool {
    b == (VmaUdpSocket {
        tx_packets: sat_add_u64(a.tx_packets, 1),
        tx_bytes: sat_add_u64(a.tx_bytes, n),
        ..a
    })
}

impl VmaUdpSocket {
    /// Binding is legal only once, on an open endpoint.
    pub open spec fn bind_legal(self) -> bool {
        &&& self.open
        &&& !self.is_bound
    }

    /// Setting (or re-targeting) the default peer is legal on any open
    /// endpoint.
    pub open spec fn connect_legal(self) -> bool {
        self.open
    }

    /// A plain send is legal only once a default peer is set.
    pub open spec fn send_legal(self) -> bool {
        &&& self.open
        &&& self.is_connected
    }

    /// A per-call-addressed send is legal on any open endpoint, whatever the
    /// connect state.
    pub open spec fn send_to_legal(self) -> bool {
        self.open
    }

    /// Receiving is legal only on an open, bound endpoint.
    pub open spec fn recv_legal(self) -> bool {
        &&& self.open
        &&& self.is_bound
    }

    /// The error an illegal operation is rejected with: the endpoint is
    /// either no longer initialized, or in the wrong state.
    pub open spec fn rejection(self) -> UdpResult {
        if !self.open {
            UdpResult::UdpErrorNotInitialized
        } else {
            UdpResult::UdpErrorInvalidParam
        }
    }

    /// Build the endpoint model for a native handle that the shell
    /// initialized with the given profile; `code` is the native init outcome.
    pub fn with_options(options: VmaOptions, code: i32) -> (r: Result<VmaUdpSocket, UdpResult>)
        ensures
            code == 0 ==> (r matches Ok(s) && is_fresh_udp(s, options)),
            code != 0 ==> r == Err::<VmaUdpSocket, UdpResult>(udp_result_of_code(code)),
    {
        if code != 0 {
            return Err(udp_result_from_code(code));
        }
        Ok(
            VmaUdpSocket {
                options,
                open: true,
                is_bound: false,
                is_connected: false,
                local_addr: None,
                remote_addr: None,
                rx_packets: 0,
                tx_packets: 0,
                rx_bytes: 0,
                tx_bytes: 0,
            },
        )
    }

    /// Build the endpoint model with the balanced default profile.
    pub fn new(code: i32) -> (r: Result<VmaUdpSocket, UdpResult>)
        ensures
            code == 0 ==> (r matches Ok(s) && is_fresh_udp(s, s.options)
                && crate::common::is_default_profile(s.options)),
            code != 0 ==> r == Err::<VmaUdpSocket, UdpResult>(udp_result_of_code(code)),
    {
        Self::with_options(VmaOptions::default(), code)
    }

    /// Whether a bind attempt may be made now.
    pub fn can_bind(&self) -> (r: bool)
        ensures
            r == self.bind_legal(),
    {
        self.open && !self.is_bound
    }

    /// Whether a connect (default-peer) attempt may be made now.
    pub fn can_connect(&self) -> (r: bool)
        ensures
            r == self.connect_legal(),
    {
        self.open
    }

    /// Whether a plain send attempt may be made now.
    pub fn can_send(&self) -> (r: bool)
        ensures
            r == self.send_legal(),
    {
        self.open && self.is_connected
    }

    /// Whether a receive attempt may be made now.
    pub fn can_recv(&self) -> (r: bool)
        ensures
            r == self.recv_legal(),
    {
        self.open && self.is_bound
    }

    /// Record the native outcome of binding to `addr` (required before
    /// receiving).
    ///
    /// Binding twice is rejected; on native rejection the code's error
    /// (address in use, invalid parameter, ...) is returned unchanged.
    pub fn bind(&mut self, addr: SocketAddress, code: i32) -> (r: Result<(), UdpResult>)
        ensures
            !old(self).bind_legal() ==> r == Err::<(), UdpResult>(old(self).rejection())
                && *final(self) == *old(self),
            old(self).bind_legal() ==> match udp_result_of_code(code) {
                UdpResult::UdpSuccess => r == Ok::<(), UdpResult>(()) && *final(self)
                    == (VmaUdpSocket { is_bound: true, local_addr: Some(addr), ..*old(self) }),
                e => r == Err::<(), UdpResult>(e) && *final(self) == *old(self),
            },
    {
        if !self.can_bind() {
            if !self.open {
                return Err(UdpResult::UdpErrorNotInitialized);
            }
            return Err(UdpResult::UdpErrorInvalidParam);
        }
        match udp_result_from_code(code) {
            UdpResult::UdpSuccess => {
                self.is_bound = true;
                self.local_addr = Some(addr);
                Ok(())
            },
            e => Err(e),
        }
    }

    /// Record the native outcome of setting `addr` as the default peer for
    /// subsequent plain sends.
    ///
    /// UDP is connectionless: no handshake is implied, the address only
    /// targets outbound sends, and it may be re-targeted at any time.
    pub fn connect(&mut self, addr: SocketAddress, code: i32) -> (r: Result<(), UdpResult>)
        ensures
            !old(self).connect_legal() ==> r == Err::<(), UdpResult>(old(self).rejection())
                && *final(self) == *old(self),
            old(self).connect_legal() ==> match udp_result_of_code(code) {
                UdpResult::UdpSuccess => r == Ok::<(), UdpResult>(()) && *final(self)
                    == (VmaUdpSocket {
                    is_connected: true,
                    remote_addr: Some(addr),
                    ..*old(self)
                }),
                e => r == Err::<(), UdpResult>(e) && *final(self) == *old(self),
            },
    {
        if !self.can_connect() {
            return Err(UdpResult::UdpErrorNotInitialized);
        }
        match udp_result_from_code(code) {
            UdpResult::UdpSuccess => {
                self.is_connected = true;
                self.remote_addr = Some(addr);
                Ok(())
            },
            e => Err(e),
        }
    }

    /// Record the native outcome of sending to the default peer.
    ///
    /// Legal only after `connect`: success returns and accounts the native
    /// byte count, a native timeout is a successful zero-byte result, and
    /// any other native failure is an error.
    pub fn send(&mut self, code: i32, bytes_sent: usize) -> (r: Result<usize, UdpResult>)
        ensures
            !old(self).send_legal() ==> r == Err::<usize, UdpResult>(old(self).rejection())
                && *final(self) == *old(self),
            old(self).send_legal() ==> match udp_result_of_code(code) {
                UdpResult::UdpSuccess => r == Ok::<usize, UdpResult>(bytes_sent) && udp_tx_account(
                    *old(self),
                    *final(self),
                    bytes_sent as u64,
                ),
                UdpResult::UdpErrorTimeout => r == Ok::<usize, UdpResult>(0) && *final(self)
                    == *old(self),
                e => r == Err::<usize, UdpResult>(e) && *final(self) == *old(self),
            },
    {
        if !self.can_send() {
            if !self.open {
                return Err(UdpResult::UdpErrorNotInitialized);
            }
            return Err(UdpResult::UdpErrorInvalidParam);
        }
        match udp_result_from_code(code) {
            UdpResult::UdpSuccess => {
                self.tx_packets = saturating_add_u64(self.tx_packets, 1);
                self.tx_bytes = saturating_add_u64(self.tx_bytes, bytes_sent as u64);
                Ok(bytes_sent)
            },
            UdpResult::UdpErrorTimeout => Ok(0),
            e => Err(e),
        }
    }

    /// Record the native outcome of sending to the explicitly given
    /// destination, legal whatever the connect state.
    ///
    /// The destination is consumed by the native call alone; the model keeps
    /// no default peer from it. The outcome policy is that of
    /// [`send`](Self::send).
    pub fn send_to(&mut self, addr: SocketAddress, code: i32, bytes_sent: usize) -> (r: Result<
        usize,
        UdpResult,
    >)
        ensures
            !old(self).send_to_legal() ==> r == Err::<usize, UdpResult>(old(self).rejection())
                && *final(self) == *old(self),
            old(self).send_to_legal() ==> match udp_result_of_code(code) {
                UdpResult::UdpSuccess => r == Ok::<usize, UdpResult>(bytes_sent) && udp_tx_account(
                    *old(self),
                    *final(self),
                    bytes_sent as u64,
                ),
                UdpResult::UdpErrorTimeout => r == Ok::<usize, UdpResult>(0) && *final(self)
                    == *old(self),
                e => r == Err::<usize, UdpResult>(e) && *final(self) == *old(self),
            },
    {
        if !self.open {
            return Err(UdpResult::UdpErrorNotInitialized);
        }
        match udp_result_from_code(code) {
            UdpResult::UdpSuccess => {
                self.tx_packets = saturating_add_u64(self.tx_packets, 1);
                self.tx_bytes = saturating_add_u64(self.tx_bytes, bytes_sent as u64);
                Ok(bytes_sent)
            },
            UdpResult::UdpErrorTimeout => Ok(0),
            e => Err(e),
        }
    }

    /// Record the native outcome of receiving into the caller's buffer.
    ///
    /// Legal only once bound: success returns and accounts the native byte
    /// count, a native timeout is a successful zero-byte result, and any
    /// other native failure is an error.
    pub fn recv(&mut self, code: i32, bytes_received: usize) -> (r: Result<usize, UdpResult>)
        ensures
            !old(self).recv_legal() ==> r == Err::<usize, UdpResult>(old(self).rejection())
                && *final(self) == *old(self),
            old(self).recv_legal() ==> match udp_result_of_code(code) {
                UdpResult::UdpSuccess => r == Ok::<usize, UdpResult>(bytes_received)
                    && udp_rx_account(*old(self), *final(self), bytes_received as u64),
                UdpResult::UdpErrorTimeout => r == Ok::<usize, UdpResult>(0) && *final(self)
                    == *old(self),
                e => r == Err::<usize, UdpResult>(e) && *final(self) == *old(self),
            },
    {
        if !self.can_recv() {
            if !self.open {
                return Err(UdpResult::UdpErrorNotInitialized);
            }
            return Err(UdpResult::UdpErrorInvalidParam);
        }
        match udp_result_from_code(code) {
            UdpResult::UdpSuccess => {
                self.rx_packets = saturating_add_u64(self.rx_packets, 1);
                self.rx_bytes = saturating_add_u64(self.rx_bytes, bytes_received as u64);
                Ok(bytes_received)
            },
            UdpResult::UdpErrorTimeout => Ok(0),
            e => Err(e),
        }
    }

    /// Record the native outcome of receiving one datagram with source
    /// information: `data` is the owned copy of the delivered payload, `src`
    /// the native source address, `timestamp` the receive timestamp, all as
    /// the engine filled them in on success.
    ///
    /// Legal only once bound: success yields the captured [`Packet`] with
    /// its source decoded to the portable representation, a native timeout
    /// is the benign "nothing received" result, and any other native failure
    /// is an error.
    pub fn recv_from(&mut self, data: Vec<u8>, src: &SockAddrIn, timestamp: u64, code: i32) -> (r:
        Result<Option<Packet>, UdpResult>)
        ensures
            !old(self).recv_legal() ==> r == Err::<Option<Packet>, UdpResult>(
                old(self).rejection(),
            ) && *final(self) == *old(self),
            old(self).recv_legal() ==> match udp_result_of_code(code) {
                UdpResult::UdpSuccess => r == Ok::<Option<Packet>, UdpResult>(
                    Some(Packet { data: data, src_addr: decoded_addr(*src), timestamp }),
                ) && udp_rx_account(*old(self), *final(self), data@.len() as u64),
                UdpResult::UdpErrorTimeout => r == Ok::<Option<Packet>, UdpResult>(None) && *final(self) == *old(self),
                e => r == Err::<Option<Packet>, UdpResult>(e) && *final(self) == *old(self),
            },
    {
        if !self.can_recv() {
            if !self.open {
                return Err(UdpResult::UdpErrorNotInitialized);
            }
            return Err(UdpResult::UdpErrorInvalidParam);
        }
        match udp_result_from_code(code) {
            UdpResult::UdpSuccess => {
                let n = data.len();
                self.rx_packets = saturating_add_u64(self.rx_packets, 1);
                self.rx_bytes = saturating_add_u64(self.rx_bytes, n as u64);
                let src_addr = crate::common::sockaddr_to_rust(src);
                Ok(Some(Packet { data, src_addr, timestamp }))
            },
            UdpResult::UdpErrorTimeout => Ok(None),
            e => Err(e),
        }
    }

    /// The cumulative counters: packets received, packets sent, bytes
    /// received, bytes sent. Always succeeds while the endpoint is
    /// initialized.
    pub fn get_stats(&self) -> (r: Result<(u64, u64, u64, u64), UdpResult>)
        ensures
            self.open ==> r == Ok::<(u64, u64, u64, u64), UdpResult>(
                (self.rx_packets, self.tx_packets, self.rx_bytes, self.tx_bytes),
            ),
            !self.open ==> r == Err::<(u64, u64, u64, u64), UdpResult>(
                UdpResult::UdpErrorNotInitialized,
            ),
    {
        if !self.open {
            return Err(UdpResult::UdpErrorNotInitialized);
        }
        Ok((self.rx_packets, self.tx_packets, self.rx_bytes, self.tx_bytes))
    }

    /// Close the endpoint.
    ///
    /// Legal from any state, never fails, and is idempotent. The result says
    /// whether the native handle still had to be released (false on a
    /// repeated close, which is a no-op).
    pub fn close(&mut self) -> (r: bool)
        ensures
            udp_close_transition(*old(self), *final(self)),
            r == old(self).open,
    {
        let was_open = self.open;
        self.open = false;
        self.is_bound = false;
        self.is_connected = false;
        was_open
    }
}

/// Law: the cumulative counters are monotonic. Every transition an operation
/// can make — leaving the endpoint unchanged, accounting a delivery or a
/// send, or closing — never lowers any of the four counters.
pub proof fn lemma_udp_counters_monotonic(a: VmaUdpSocket, b: VmaUdpSocket, n: u64)
    requires
        b == a || udp_rx_account(a, b, n) || udp_tx_account(a, b, n) || udp_close_transition(a, b)
            || b == (VmaUdpSocket { is_bound: b.is_bound, is_connected: b.is_connected, local_addr: b.local_addr, remote_addr: b.remote_addr, ..a }),
    ensures
        b.rx_packets >= a.rx_packets,
        b.tx_packets >= a.tx_packets,
        b.rx_bytes >= a.rx_bytes,
        b.tx_bytes >= a.tx_bytes,
{
}

/// Law: closing a UDP endpoint is idempotent. A second close changes
/// nothing, and since the handle is then no longer open, no native release
/// is owed.
pub proof fn lemma_udp_close_idempotent(a: VmaUdpSocket, b: VmaUdpSocket, c: VmaUdpSocket)
    requires
        udp_close_transition(a, b),
        udp_close_transition(b, c),
    ensures
        c == b,
        !b.open,
{
}

} // verus!
