//! Shared configuration and addressing types: the performance profile
//! ([`VmaOptions`]), the portable socket address ([`SocketAddress`]), the
//! fixed-layout native address structure ([`SockAddrIn`]) with its codec, and
//! the timeout conversion used across the native ABI.

use vstd::prelude::*;
use vstd::string::StringExecFns;

verus! {

/// Maximum number of CPU cores that can be recorded in a profile's affinity
/// list.
pub const MAX_CPU_CORES: usize = 128;

/// Failure of a profile-editing operation.
#[derive(Clone, Copy, Debug, PartialEq, Eq, Structural)]
pub enum OptionsError {
    /// The affinity list already holds `MAX_CPU_CORES` entries, or the given
    /// list is longer than that.
    CapacityExceeded,
    /// A core index was negative.
    InvalidParameter,
}

/// Performance/resource profile handed to an endpoint at construction.
///
/// A profile is a plain value: none of its editing operations touches global
/// state. The affinity list is ordered (insertion order is priority order)
/// and bounded by [`MAX_CPU_CORES`].
#[derive(Debug, Clone)]
pub struct VmaOptions {
    /// Use the engine's single-threaded, lowest-overhead operating mode.
    pub use_socketxtreme: bool,
    /// Bias tuning toward low latency rather than throughput.
    pub optimize_for_latency: bool,
    /// Busy-poll for new data instead of blocking on a notification.
    pub use_polling: bool,
    /// Number of engine rings (parallel packet channels).
    pub ring_count: i32,
    /// Size in bytes of each packet-processing buffer.
    pub buffer_size: i32,
    /// Record hardware/software receive timestamps.
    pub enable_timestamps: bool,
    /// Allocate engine memory from hugepages.
    pub use_hugepages: bool,
    /// Number of transmit buffers.
    pub tx_bufs: u32,
    /// Number of receive buffers.
    pub rx_bufs: u32,
    /// Prevent CPU yielding while polling.
    pub disable_poll_yield: bool,
    /// Skip the OS during select operations.
    pub skip_os_select: bool,
    /// Keep queue pairs full for better throughput.
    pub keep_qp_full: bool,
    /// CPU cores the engine should pin its threads to, in priority order.
    pub cpu_cores: Vec<i32>,
}

/// Sequence of core indices that may stand in an affinity list: bounded in
/// length, every index non-negative.
pub open spec fn cores_valid(cores: Seq<i32>) -> bool {
    &&& cores.len() <= MAX_CPU_CORES
    &&& forall|i: int| 0 <= i < cores.len() ==> cores[i] >= 0
}

/// What one `add_core` step does to an affinity list: appends when the list
/// has room and the index is valid, otherwise leaves the list unchanged.
pub open spec fn add_core_spec(cores: Seq<i32>, core: i32) -> Seq<i32> {
    if cores.len() < MAX_CPU_CORES && core >= 0 {
        cores.push(core)
    } else {
        cores
    }
}

/// `b` equals `a` in every field except possibly the affinity list.
pub open spec fn only_cores_differ(a: VmaOptions, b: VmaOptions) -> bool {
    &&& b.use_socketxtreme == a.use_socketxtreme
    &&& b.optimize_for_latency == a.optimize_for_latency
    &&& b.use_polling == a.use_polling
    &&& b.ring_count == a.ring_count
    &&& b.buffer_size == a.buffer_size
    &&& b.enable_timestamps == a.enable_timestamps
    &&& b.use_hugepages == a.use_hugepages
    &&& b.tx_bufs == a.tx_bufs
    &&& b.rx_bufs == a.rx_bufs
    &&& b.disable_poll_yield == a.disable_poll_yield
    &&& b.skip_os_select == a.skip_os_select
    &&& b.keep_qp_full == a.keep_qp_full
}

/// The balanced profile: accelerated mode, latency-optimized, polling, four
/// rings, 64 KiB buffers, timestamps, hugepages, 10 000 buffers each way, no
/// pinned cores.
pub open spec fn is_default_profile(r: VmaOptions) -> bool {
    &&& r.use_socketxtreme
    &&& r.optimize_for_latency
    &&& r.use_polling
    &&& r.ring_count == 4
    &&& r.buffer_size == 65536
    &&& r.enable_timestamps
    &&& r.use_hugepages
    &&& r.tx_bufs == 10000
    &&& r.rx_bufs == 10000
    &&& r.disable_poll_yield
    &&& r.skip_os_select
    &&& r.keep_qp_full
    &&& r.cpu_cores@.len() == 0
}

/// The profile biased toward minimal per-call latency: one ring, 8 KiB
/// buffers, 32/16 buffers, every latency-shaving flag on.
pub open spec fn is_low_latency_profile(r: VmaOptions) -> bool {
    &&& r.use_socketxtreme
    &&& r.optimize_for_latency
    &&& r.use_polling
    &&& r.ring_count == 1
    &&& r.buffer_size == 8192
    &&& r.enable_timestamps
    &&& r.use_hugepages
    &&& r.tx_bufs == 32
    &&& r.rx_bufs == 16
    &&& r.disable_poll_yield
    &&& r.skip_os_select
    &&& r.keep_qp_full
    &&& r.cpu_cores@.len() == 0
}

/// The profile biased toward aggregate bandwidth: four rings, 64 KiB buffers,
/// 20 000 buffers each way, timestamps off, yielding allowed.
pub open spec fn is_high_throughput_profile(r: VmaOptions) -> bool {
    &&& r.use_socketxtreme
    &&& !r.optimize_for_latency
    &&& r.use_polling
    &&& r.ring_count == 4
    &&& r.buffer_size == 65536
    &&& !r.enable_timestamps
    &&& r.use_hugepages
    &&& r.tx_bufs == 20000
    &&& r.rx_bufs == 20000
    &&& !r.disable_poll_yield
    &&& r.skip_os_select
    &&& r.keep_qp_full
    &&& r.cpu_cores@.len() == 0
}

impl VmaOptions {
    /// Internal consistency of a profile: non-negative ring count, positive
    /// buffer size, and a valid affinity list.
    pub open spec fn wf(self) -> bool {
        &&& self.ring_count >= 0
        &&& self.buffer_size > 0
        &&& cores_valid(self.cpu_cores@)
    }

    /// Whether the profile is internally consistent ([`wf`](Self::wf)): what
    /// a caller must establish before deriving the environment settings.
    pub fn is_wf(&self) -> (r: bool)
        ensures
            r == self.wf(),
    {
        if !(self.ring_count >= 0 && self.buffer_size > 0 && self.cpu_cores.len()
            <= MAX_CPU_CORES) {
            return false;
        }
        let mut i: usize = 0;
        while i < self.cpu_cores.len()
            invariant
                i <= self.cpu_cores@.len(),
                self.ring_count >= 0,
                self.buffer_size > 0,
                self.cpu_cores@.len() <= MAX_CPU_CORES,
                forall|j: int| 0 <= j < i ==> self.cpu_cores@[j] >= 0,
            decreases self.cpu_cores@.len() - i,
        {
            if self.cpu_cores[i] < 0 {
                return false;
            }
            i = i + 1;
        }
        true
    }

    /// Profile optimized for ultra-low latency.
    pub fn low_latency() -> (r: VmaOptions)
        ensures
            is_low_latency_profile(r),
            r.wf(),
    {
        VmaOptions {
            use_socketxtreme: true,
            optimize_for_latency: true,
            use_polling: true,
            ring_count: 1,
            buffer_size: 8192,
            enable_timestamps: true,
            use_hugepages: true,
            tx_bufs: 32,
            rx_bufs: 16,
            disable_poll_yield: true,
            skip_os_select: true,
            keep_qp_full: true,
            cpu_cores: Vec::new(),
        }
    }

    /// Profile optimized for high throughput.
    pub fn high_throughput() -> (r: VmaOptions)
        ensures
            is_high_throughput_profile(r),
            r.wf(),
    {
        VmaOptions {
            use_socketxtreme: true,
            optimize_for_latency: false,
            use_polling: true,
            ring_count: 4,
            buffer_size: 65536,
            enable_timestamps: false,
            use_hugepages: true,
            tx_bufs: 20000,
            rx_bufs: 20000,
            disable_poll_yield: false,
            skip_os_select: true,
            keep_qp_full: true,
            cpu_cores: Vec::new(),
        }
    }

    /// Append a core to the affinity list.
    ///
    /// Fails with `CapacityExceeded` once [`MAX_CPU_CORES`] cores are
    /// recorded, and with `InvalidParameter` on a negative core index; a
    /// failed call leaves the profile unchanged.
    pub fn add_core(&mut self, core: i32) -> (r: Result<(), OptionsError>)
        ensures
            only_cores_differ(*old(self), *final(self)),
            final(self).cpu_cores@ == add_core_spec(old(self).cpu_cores@, core),
            old(self).cpu_cores@.len() >= MAX_CPU_CORES ==> r == Err::<(), OptionsError>(
                OptionsError::CapacityExceeded,
            ) && *final(self) == *old(self),
            old(self).cpu_cores@.len() < MAX_CPU_CORES && core < 0 ==> r == Err::<
                (),
                OptionsError,
            >(OptionsError::InvalidParameter) && *final(self) == *old(self),
            old(self).cpu_cores@.len() < MAX_CPU_CORES && core >= 0 ==> r == Ok::<
                (),
                OptionsError,
            >(()) && final(self).cpu_cores@ == old(self).cpu_cores@.push(core),
    {
        if self.cpu_cores.len() >= MAX_CPU_CORES {
            return Err(OptionsError::CapacityExceeded);
        }
        if core < 0 {
            return Err(OptionsError::InvalidParameter);
        }
        self.cpu_cores.push(core);
        Ok(())
    }

    /// Empty the affinity list.
    pub fn clear_cores(&mut self)
        ensures
            only_cores_differ(*old(self), *final(self)),
            final(self).cpu_cores@.len() == 0,
    {
        self.cpu_cores = Vec::new();
    }

    /// Replace the whole affinity list atomically.
    ///
    /// Fails, leaving the profile unchanged, if the list is longer than
    /// [`MAX_CPU_CORES`] or holds a negative core index.
    pub fn set_cores(&mut self, cores: &[i32]) -> (r: Result<(), OptionsError>)
        ensures
            only_cores_differ(*old(self), *final(self)),
            cores@.len() > MAX_CPU_CORES ==> r == Err::<(), OptionsError>(
                OptionsError::CapacityExceeded,
            ) && *final(self) == *old(self),
            cores@.len() <= MAX_CPU_CORES && !cores_valid(cores@) ==> r == Err::<
                (),
                OptionsError,
            >(OptionsError::InvalidParameter) && *final(self) == *old(self),
            cores_valid(cores@) ==> r == Ok::<(), OptionsError>(()) && final(self).cpu_cores@
                == cores@,
    {
        if cores.len() > MAX_CPU_CORES {
            return Err(OptionsError::CapacityExceeded);
        }
        let mut fresh: Vec<i32> = Vec::new();
        let mut i: usize = 0;
        while i < cores.len()
            invariant
                i <= cores@.len(),
                cores@.len() <= MAX_CPU_CORES,
                fresh@ == cores@.subrange(0, i as int),
                forall|j: int| 0 <= j < i ==> cores@[j] >= 0,
            decreases cores@.len() - i,
        {
            let core = cores[i];
            if core < 0 {
                return Err(OptionsError::InvalidParameter);
            }
            fresh.push(core);
            proof {
                assert(fresh@ =~= cores@.subrange(0, i + 1 as int));
            }
            i = i + 1;
        }
        proof {
            assert(fresh@ =~= cores@);
        }
        self.cpu_cores = fresh;
        Ok(())
    }

    /// The currently configured affinity list, in priority order.
    pub fn get_cores(&self) -> (r: &Vec<i32>)
        ensures
            r@ == self.cpu_cores@,
    {
        &self.cpu_cores
    }
}

/// One-by-one application of [`add_core_spec`] to each core of `cores` in
/// order, starting from the list `acc`.
pub open spec fn add_cores_from(acc: Seq<i32>, cores: Seq<i32>) -> Seq<i32>
    decreases cores.len(),
{
    if cores.len() == 0 {
        acc
    } else {
        add_cores_from(add_core_spec(acc, cores[0]), cores.drop_first())
    }
}

proof fn lemma_add_cores_from_general(acc: Seq<i32>, cores: Seq<i32>)
    requires
        acc.len() + cores.len() <= MAX_CPU_CORES,
        forall|i: int| 0 <= i < cores.len() ==> cores[i] >= 0,
    ensures
        add_cores_from(acc, cores) == acc + cores,
    decreases cores.len(),
{
    if cores.len() == 0 {
        assert(acc + cores =~= acc);
    } else {
        let rest = cores.drop_first();
        assert(cores[0] >= 0);
        assert forall|i: int| 0 <= i < rest.len() implies rest[i] >= 0 by {
            assert(rest[i] == cores[i + 1]);
        }
        lemma_add_cores_from_general(acc.push(cores[0]), rest);
        assert(acc.push(cores[0]) + rest =~= acc + cores);
    }
}

/// Law: `add_core` is a right fold. Starting from an empty affinity list and
/// applying one `add_core` step for each core of a valid list, in order,
/// yields exactly that list, in insertion order.
pub proof fn lemma_add_core_fold(cores: Seq<i32>)
    requires
        cores_valid(cores),
    ensures
        add_cores_from(Seq::empty(), cores) == cores,
{
    lemma_add_cores_from_general(Seq::empty(), cores);
    assert(Seq::<i32>::empty() + cores =~= cores);
}

/// Law: each named preset describes an internally consistent profile. Any
/// profile that matches the default, low-latency, or high-throughput
/// description is well-formed, so every preset is constructible with no
/// caller input and no failure.
pub proof fn lemma_presets_wf(p: VmaOptions)
    ensures
        is_default_profile(p) ==> p.wf(),
        is_low_latency_profile(p) ==> p.wf(),
        is_high_throughput_profile(p) ==> p.wf(),
{
}

impl Default for VmaOptions {
    /// The balanced profile.
    fn default() -> (r: VmaOptions)
        ensures
            is_default_profile(r),
            r.wf(),
    {
        VmaOptions {
            use_socketxtreme: true,
            optimize_for_latency: true,
            use_polling: true,
            ring_count: 4,
            buffer_size: 65536,
            enable_timestamps: true,
            use_hugepages: true,
            tx_bufs: 10000,
            rx_bufs: 10000,
            disable_poll_yield: true,
            skip_os_select: true,
            keep_qp_full: true,
            cpu_cores: Vec::new(),
        }
    }
}

/// The address family tag of an IPv4 address at the native ABI.
pub const AF_INET: u16 = 2;

/// Fixed-layout socket address as the native ABI expects it: family tag, port
/// and 32-bit IPv4 address both in network byte order, and zero padding.
/// IPv4 only.
#[derive(Clone, Copy, Debug)]
pub struct SockAddrIn {
    pub sin_family: u16,
    pub sin_port: u16,
    pub sin_addr: u32,
    pub sin_zero: [u8; 8],
}

/// Portable socket address: the four IPv4 octets in written order
/// (`oct0.oct1.oct2.oct3`) and the port in host order.
#[derive(Clone, Copy, Debug, PartialEq, Eq, Structural)]
pub struct SocketAddress {
    pub oct0: u8,
    pub oct1: u8,
    pub oct2: u8,
    pub oct3: u8,
    pub port: u16,
}

/// A 16-bit value with its two bytes exchanged: what a host-order port reads
/// as when its network-byte-order form is taken as a native integer, and the
/// other way round.
pub open spec fn swap_u16(x: u16) -> u16 {
    ((x % 256) * 256 + x / 256) as u16
}

/// The native integer that the four IPv4 octets, laid out in network byte
/// order, read as: the first octet in the lowest byte.
pub open spec fn net_addr_of_octets(o0: u8, o1: u8, o2: u8, o3: u8) -> u32 {
    (o0 + o1 * 0x100 + o2 * 0x10000 + o3 * 0x1000000) as u32
}

/// Encode a portable address into the fixed-layout native structure.
pub fn sockaddr_from_addr(addr: &SocketAddress) -> (r: SockAddrIn)
    ensures
        r.sin_family == AF_INET,
        r.sin_port == swap_u16(addr.port),
        r.sin_addr == net_addr_of_octets(addr.oct0, addr.oct1, addr.oct2, addr.oct3),
        forall|i: int| 0 <= i < 8 ==> r.sin_zero[i] == 0,
{
    let sin_port: u16 = (addr.port % 256) * 256 + addr.port / 256;
    let sin_addr: u32 = addr.oct0 as u32 + (addr.oct1 as u32) * 0x100 + (addr.oct2 as u32)
        * 0x10000 + (addr.oct3 as u32) * 0x1000000;
    SockAddrIn { sin_family: AF_INET, sin_port, sin_addr, sin_zero: [0u8; 8] }
}

/// The portable address that a fixed-layout native structure stands for:
/// each octet read out of its network-byte-order position, the port swapped
/// back to host order.
pub open spec fn decoded_addr(s: SockAddrIn) -> SocketAddress {
    SocketAddress {
        oct0: (s.sin_addr % 0x100) as u8,
        oct1: ((s.sin_addr / 0x100) % 0x100) as u8,
        oct2: ((s.sin_addr / 0x10000) % 0x100) as u8,
        oct3: (s.sin_addr / 0x1000000) as u8,
        port: swap_u16(s.sin_port),
    }
}

/// Decode the fixed-layout native structure back into a portable address.
pub fn sockaddr_to_rust(sockaddr: &SockAddrIn) -> (r: SocketAddress)
    ensures
        r == decoded_addr(*sockaddr),
{
    let port: u16 = (sockaddr.sin_port % 256) * 256 + sockaddr.sin_port / 256;
    let oct0: u8 = (sockaddr.sin_addr % 0x100) as u8;
    let oct1: u8 = ((sockaddr.sin_addr / 0x100) % 0x100) as u8;
    let oct2: u8 = ((sockaddr.sin_addr / 0x10000) % 0x100) as u8;
    let oct3: u8 = (sockaddr.sin_addr / 0x1000000) as u8;
    SocketAddress { oct0, oct1, oct2, oct3, port }
}

/// Law: decoding an encoded address yields the original address, for the full
/// port range and arbitrary IPv4 octets. The hypotheses are exactly what
/// [`sockaddr_from_addr`] ensures of its result.
pub proof fn lemma_addr_round_trip(addr: SocketAddress, enc: SockAddrIn)
    requires
        enc.sin_port == swap_u16(addr.port),
        enc.sin_addr == net_addr_of_octets(addr.oct0, addr.oct1, addr.oct2, addr.oct3),
    ensures
        decoded_addr(enc) == addr,
{
    let p = addr.port;
    let q = enc.sin_port;
    assert(q == (p % 256) * 256 + p / 256 ==> (q % 256) * 256 + q / 256 == p) by (bit_vector);
    let x = enc.sin_addr;
    let (a0, a1, a2, a3) = (addr.oct0, addr.oct1, addr.oct2, addr.oct3);
    assert(x == a0 + a1 * 0x100 + a2 * 0x10000 + a3 * 0x1000000 ==> x % 0x100 == a0 && (x
        / 0x100) % 0x100 == a1 && (x / 0x10000) % 0x100 == a2 && x / 0x1000000 == a3)
        by (bit_vector);
}

/// Milliseconds that a caller-supplied nanosecond timeout stands for at the
/// native ABI: a negative value means wait indefinitely, zero means return
/// immediately, a positive value is milliseconds to wait. A finite timeout
/// too large for the native type saturates at its maximum.
pub open spec fn ms_of_timeout(timeout_nano: Option<u64>) -> int {
    match timeout_nano {
        Option::None => -1,
        Option::Some(t) => if t / 1000000 > 0x7fffffff {
            0x7fffffff
        } else {
            (t / 1000000) as int
        },
    }
}

/// Convert a nanosecond timeout to the millisecond convention of the native
/// ABI.
pub fn unixnano_to_ms(timeout_nano: Option<u64>) -> (r: i32)
    ensures
        r as int == ms_of_timeout(timeout_nano),
{
    match timeout_nano {
        None => -1,
        Some(t) => {
            let ms: u64 = t / 1_000_000;
            if ms > 0x7fffffff {
                i32::MAX
            } else {
                ms as i32
            }
        },
    }
}

/// The character of one decimal digit.
pub open spec fn decimal_digit(d: int) -> char {
    if d == 0 {
        '0'
    } else if d == 1 {
        '1'
    } else if d == 2 {
        '2'
    } else if d == 3 {
        '3'
    } else if d == 4 {
        '4'
    } else if d == 5 {
        '5'
    } else if d == 6 {
        '6'
    } else if d == 7 {
        '7'
    } else if d == 8 {
        '8'
    } else {
        '9'
    }
}

/// The decimal rendering of a natural number, most significant digit first,
/// without leading zeroes (zero itself renders as one digit).
pub open spec fn decimal_of(n: nat) -> Seq<char>
    decreases n,
{
    if n < 10 {
        seq![decimal_digit(n as int)]
    } else {
        decimal_of(n / 10).push(decimal_digit((n % 10) as int))
    }
}

fn digit_str(d: u64) -> (r: &'static str)
    requires
        d < 10,
    ensures
        r@ == seq![decimal_digit(d as int)],
{
    if d == 0 {
        proof {
            reveal_strlit("0");
            assert("0"@ =~= seq!['0']);
        }
        "0"
    } else if d == 1 {
        proof {
            reveal_strlit("1");
            assert("1"@ =~= seq!['1']);
        }
        "1"
    } else if d == 2 {
        proof {
            reveal_strlit("2");
            assert("2"@ =~= seq!['2']);
        }
        "2"
    } else if d == 3 {
        proof {
            reveal_strlit("3");
            assert("3"@ =~= seq!['3']);
        }
        "3"
    } else if d == 4 {
        proof {
            reveal_strlit("4");
            assert("4"@ =~= seq!['4']);
        }
        "4"
    } else if d == 5 {
        proof {
            reveal_strlit("5");
            assert("5"@ =~= seq!['5']);
        }
        "5"
    } else if d == 6 {
        proof {
            reveal_strlit("6");
            assert("6"@ =~= seq!['6']);
        }
        "6"
    } else if d == 7 {
        proof {
            reveal_strlit("7");
            assert("7"@ =~= seq!['7']);
        }
        "7"
    } else if d == 8 {
        proof {
            reveal_strlit("8");
            assert("8"@ =~= seq!['8']);
        }
        "8"
    } else {
        proof {
            reveal_strlit("9");
            assert("9"@ =~= seq!['9']);
        }
        "9"
    }
}

/// Render a number in decimal (the engine's tuning variables are set as
/// text, and the library's types carry no standard formatting).
pub fn u64_to_decimal(n: u64) -> (r: String)
    ensures
        r@ == decimal_of(n as nat),
    decreases n,
{
    if n < 10 {
        String::from_str(digit_str(n))
    } else {
        let mut s = u64_to_decimal(n / 10);
        s.append(digit_str(n % 10));
        proof {
            assert(decimal_of((n as nat) / 10).push(decimal_digit((n as nat % 10) as int))
                =~= decimal_of((n as nat) / 10) + seq![decimal_digit((n as nat % 10) as int)]);
        }
        s
    }
}

/// The affinity list rendered as comma-separated decimal core indices, in
/// priority order.
pub open spec fn joined_cores(cores: Seq<i32>) -> Seq<char>
    decreases cores.len(),
{
    if cores.len() == 0 {
        Seq::empty()
    } else if cores.len() == 1 {
        decimal_of(cores[0] as nat)
    } else {
        joined_cores(cores.drop_last()) + seq![','] + decimal_of(cores.last() as nat)
    }
}

/// "1" or "0" as the textual value of an on/off tuning variable.
pub open spec fn flag_value(b: bool) -> Seq<char> {
    if b {
        seq!['1']
    } else {
        seq!['0']
    }
}

fn flag_str(b: bool) -> (r: &'static str)
    ensures
        r@ == flag_value(b),
{
    if b {
        proof {
            reveal_strlit("1");
            assert("1"@ =~= seq!['1']);
        }
        "1"
    } else {
        proof {
            reveal_strlit("0");
            assert("0"@ =~= seq!['0']);
        }
        "0"
    }
}

fn join_cores(cores: &Vec<i32>) -> (r: String)
    requires
        forall|i: int| 0 <= i < cores@.len() ==> cores@[i] >= 0,
    ensures
        r@ == joined_cores(cores@),
{
    let mut s = String::new();
    let mut i: usize = 0;
    while i < cores.len()
        invariant
            i <= cores@.len(),
            forall|j: int| 0 <= j < cores@.len() ==> cores@[j] >= 0,
            s@ == joined_cores(cores@.subrange(0, i as int)),
        decreases cores@.len() - i,
    {
        if i > 0 {
            proof {
                reveal_strlit(",");
                assert(","@ =~= seq![',']);
            }
            s.append(",");
        }
        let d = u64_to_decimal(cores[i] as u64);
        s.append(d.as_str());
        proof {
            let pre = cores@.subrange(0, i as int);
            let post = cores@.subrange(0, i + 1 as int);
            assert(post.last() == cores@[i as int]);
            assert((cores@[i as int] as u64) as nat == cores@[i as int] as nat);
            if i == 0 {
                assert(post.len() == 1);
                assert(post[0] == cores@[0]);
            } else {
                assert(post.drop_last() =~= pre);
            }
        }
        i = i + 1;
    }
    proof {
        assert(cores@.subrange(0, cores@.len() as int) =~= cores@);
    }
    s
}

impl VmaOptions {
    /// The engine's process-wide tuning variables derived one-for-one from
    /// this profile: acceleration mode, polling mode, ring allocation,
    /// transmit and receive buffer counts, memory allocation strategy, and
    /// the thread-affinity core list, each with the textual value it must be
    /// set to before the first endpoint is constructed. Pushing them into
    /// the ambient environment is the unverified shell's one I/O step, done
    /// once.
    pub fn environment_settings(&self) -> (r: Vec<(&'static str, String)>)
        requires
            self.wf(),
        ensures
            r@.len() == 7,
            r@[0].0@ == "VMA_SOCKETXTREME"@ && r@[0].1@ == flag_value(self.use_socketxtreme),
            r@[1].0@ == "VMA_RX_POLL"@ && r@[1].1@ == (if self.use_polling {
                "-1"@
            } else {
                "0"@
            }),
            r@[2].0@ == "VMA_RING_COUNT"@ && r@[2].1@ == decimal_of(self.ring_count as nat),
            r@[3].0@ == "VMA_TX_BUFS"@ && r@[3].1@ == decimal_of(self.tx_bufs as nat),
            r@[4].0@ == "VMA_RX_BUFS"@ && r@[4].1@ == decimal_of(self.rx_bufs as nat),
            r@[5].0@ == "VMA_MEM_ALLOC_TYPE"@ && r@[5].1@ == (if self.use_hugepages {
                "2"@
            } else {
                "0"@
            }),
            r@[6].0@ == "VMA_THREAD_AFFINITY"@ && r@[6].1@ == joined_cores(self.cpu_cores@),
    {
        let mut settings: Vec<(&'static str, String)> = Vec::new();
        settings.push(("VMA_SOCKETXTREME", String::from_str(flag_str(self.use_socketxtreme))));
        let poll = if self.use_polling {
            String::from_str("-1")
        } else {
            String::from_str("0")
        };
        settings.push(("VMA_RX_POLL", poll));
        proof {
            assert((self.ring_count as u64) as nat == self.ring_count as nat);
        }
        settings.push(("VMA_RING_COUNT", u64_to_decimal(self.ring_count as u64)));
        settings.push(("VMA_TX_BUFS", u64_to_decimal(self.tx_bufs as u64)));
        settings.push(("VMA_RX_BUFS", u64_to_decimal(self.rx_bufs as u64)));
        let alloc = if self.use_hugepages {
            String::from_str("2")
        } else {
            String::from_str("0")
        };
        settings.push(("VMA_MEM_ALLOC_TYPE", alloc));
        settings.push(("VMA_THREAD_AFFINITY", join_cores(&self.cpu_cores)));
        settings
    }
}

/// `a + b` capped at the largest `u64` value: the endpoints' cumulative
/// counters grow monotonically and never wrap.
pub open spec fn sat_add_u64(a: u64, b: u64) -> u64 {
    if a + b <= u64::MAX {
        (a + b) as u64
    } else {
        u64::MAX
    }
}

pub(crate) fn saturating_add_u64(a: u64, b: u64) -> (r: u64)
    ensures
        r == sat_add_u64(a, b),
{
    if a <= u64::MAX - b {
        a + b
    } else {
        u64::MAX
    }
}

} // verus!

