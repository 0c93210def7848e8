//! A latency-oriented socket abstraction layer over a kernel-bypass network
//! acceleration engine.
//!
//! The library owns the logic of the wrapper: the performance/configuration
//! profile ([`common::VmaOptions`]), the address codec between the portable
//! representation and the fixed-layout native structure
//! ([`common::SocketAddress`] / [`common::SockAddrIn`]), the TCP connection
//! state machine ([`tcp::VmaTcpSocket`], [`tcp::Client`]), the UDP endpoint
//! model ([`udp::VmaUdpSocket`]), and the policy that turns native result
//! codes into typed errors or benign empty results.
//!
//! The native engine itself is reached only through a C ABI that an
//! unverified shell drives: every native call's outcome enters the library as
//! a plain result code (plus, for receives, the delivered bytes and source
//! address), and the endpoint models here decide what the caller sees and
//! what the next connection state is.

pub mod common;
pub mod tcp;
pub mod udp;
