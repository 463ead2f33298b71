//! The header of a UDP test packet: sequence number, send time and flags,
//! each big-endian.
use vstd::prelude::*;
use vstd::slice::SliceAdditionalExecFns;

use tokio::sync::mpsc::Receiver;

use crate::buffers::be_u32_bytes;
use crate::messages_handler::be_u32_value;
use crate::tcptest::StreamMessage;
use crate::test_utils::TestParameters;

verus! {

#[verifier::external_type_specification]
#[verifier::external_body]
#[verifier::reject_recursive_types(T)]
pub struct ExReceiver<T>(Receiver<T>);

/// Bytes of a packet header: three `u64` and one `u32`.
pub const HEADER_SIZE: usize = 28;

/// A packet that carries data.
pub const FLAG_DATA: u32 = 0;

/// The last packet of a test.
pub const FLAG_FIN: u32 = 1;

/// The header at the front of every test packet.
#[derive(Debug, Clone, Copy, PartialEq, Eq, Structural)]
pub struct UdpHeader {
    /// The packet's sequence number.
    pub seq: u64,
    /// Seconds since the Unix epoch when it was sent.
    pub sec: u64,
    /// Microseconds past `sec`.
    pub usec: u64,
    /// `FLAG_DATA` or `FLAG_FIN`.
    pub flags: u32,
}

/// The eight bytes of `n`, most significant first.
pub open spec fn be_u64_bytes(n: u64) -> Seq<u8> {
    seq![
        (n >> 56u64) as u8,
        (n >> 48u64) as u8,
        (n >> 40u64) as u8,
        (n >> 32u64) as u8,
        (n >> 24u64) as u8,
        (n >> 16u64) as u8,
        (n >> 8u64) as u8,
        n as u8,
    ]
}

/// The value of eight bytes read most significant first.
pub open spec fn be_u64_value(b: Seq<u8>) -> u64 {
    ((b[0] as u64) << 56u64) | ((b[1] as u64) << 48u64) | ((b[2] as u64) << 40u64) | ((
    b[3] as u64) << 32u64) | ((b[4] as u64) << 24u64) | ((b[5] as u64) << 16u64) | ((b[6] as u64)
        << 8u64) | (b[7] as u64)
}

/// The 28 bytes that encode `h`.
pub open spec fn header_bytes(h: UdpHeader) -> Seq<u8> {
    be_u64_bytes(h.seq) + be_u64_bytes(h.sec) + be_u64_bytes(h.usec) + be_u32_bytes(h.flags)
}

/// The header that the first 28 bytes of `b` encode.
pub open spec fn header_of(b: Seq<u8>) -> UdpHeader {
    UdpHeader {
        seq: be_u64_value(b.subrange(0, 8)),
        sec: be_u64_value(b.subrange(8, 16)),
        usec: be_u64_value(b.subrange(16, 24)),
        flags: be_u32_value(b.subrange(24, 28)),
    }
}

fn put_be_u64(buffer: &mut [u8], at: usize, n: u64)
    requires
        at + 8 <= old(buffer)@.len(),
    ensures
        final(buffer)@ == old(buffer)@.take(at as int) + be_u64_bytes(n) + old(buffer)@.skip(
            at + 8,
        ),
{
    assert(buffer@.len() == buffer.len());
    buffer.set(at, (n >> 56u64) as u8);
    buffer.set(at + 1, (n >> 48u64) as u8);
    buffer.set(at + 2, (n >> 40u64) as u8);
    buffer.set(at + 3, (n >> 32u64) as u8);
    buffer.set(at + 4, (n >> 24u64) as u8);
    buffer.set(at + 5, (n >> 16u64) as u8);
    buffer.set(at + 6, (n >> 8u64) as u8);
    buffer.set(at + 7, n as u8);
    proof {
        assert(buffer@ =~= old(buffer)@.take(at as int) + be_u64_bytes(n) + old(buffer)@.skip(
            at + 8,
        ));
    }
}

fn get_be_u64(buffer: &[u8], at: usize) -> (n: u64)
    requires
        at + 8 <= buffer@.len(),
    ensures
        n == be_u64_value(buffer@.subrange(at as int, at + 8)),
{
    ((buffer[at] as u64) << 56u64) | ((buffer[at + 1] as u64) << 48u64) | ((buffer[at + 2] as u64)
        << 40u64) | ((buffer[at + 3] as u64) << 32u64) | ((buffer[at + 4] as u64) << 24u64) | ((
    buffer[at + 5] as u64) << 16u64) | ((buffer[at + 6] as u64) << 8u64) | (buffer[at + 7] as u64)
}

/// Writes `header` over the first 28 bytes of `buffer`; the rest stays.
pub fn write_header(buffer: &mut [u8], header: &UdpHeader)
    requires
        old(buffer)@.len() >= HEADER_SIZE,
    ensures
        final(buffer)@ == header_bytes(*header) + old(buffer)@.skip(HEADER_SIZE as int),
{
    put_be_u64(buffer, 0, header.seq);
    put_be_u64(buffer, 8, header.sec);
    put_be_u64(buffer, 16, header.usec);
    let flags = header.flags;
    buffer.set(24, (flags >> 24u32) as u8);
    buffer.set(25, (flags >> 16u32) as u8);
    buffer.set(26, (flags >> 8u32) as u8);
    buffer.set(27, flags as u8);
    proof {
        assert(buffer@ =~= header_bytes(*header) + old(buffer)@.skip(HEADER_SIZE as int));
    }
}

/// Reads the header from the first 28 bytes of `buffer`, which stays as it was.
pub fn read_header(buffer: &mut [u8]) -> (header: UdpHeader)
    requires
        old(buffer)@.len() >= HEADER_SIZE,
    ensures
        header == header_of(old(buffer)@),
        final(buffer)@ == old(buffer)@,
{
    let seq = get_be_u64(buffer, 0);
    let sec = get_be_u64(buffer, 8);
    let usec = get_be_u64(buffer, 16);
    let flags = ((buffer[24] as u32) << 24u32) | ((buffer[25] as u32) << 16u32) | ((
    buffer[26] as u32) << 8u32) | (buffer[27] as u32);
    proof {
        assert(buffer@.subrange(24, 28) =~= seq![buffer@[24], buffer@[25], buffer@[26], buffer@[27]]);
    }
    UdpHeader { seq, sec, usec, flags }
}

/// Reading eight bytes back gives the `u64` that was written, for every value.
pub proof fn lemma_u64_round_trip(n: u64)
    ensures
        be_u64_bytes(n).len() == 8,
        be_u64_value(be_u64_bytes(n)) == n,
{
    let b0 = (n >> 56u64) as u8;
    let b1 = (n >> 48u64) as u8;
    let b2 = (n >> 40u64) as u8;
    let b3 = (n >> 32u64) as u8;
    let b4 = (n >> 24u64) as u8;
    let b5 = (n >> 16u64) as u8;
    let b6 = (n >> 8u64) as u8;
    let b7 = n as u8;
    assert(((b0 as u64) << 56u64) | ((b1 as u64) << 48u64) | ((b2 as u64) << 40u64) | ((
    b3 as u64) << 32u64) | ((b4 as u64) << 24u64) | ((b5 as u64) << 16u64) | ((b6 as u64)
        << 8u64) | (b7 as u64) == n) by (bit_vector)
        requires
            b0 == (n >> 56u64) as u8,
            b1 == (n >> 48u64) as u8,
            b2 == (n >> 40u64) as u8,
            b3 == (n >> 32u64) as u8,
            b4 == (n >> 24u64) as u8,
            b5 == (n >> 16u64) as u8,
            b6 == (n >> 8u64) as u8,
            b7 == n as u8,
    ;
}

/// A header read back from a packet is the header that was written into it,
/// whatever follows it in the packet.
pub proof fn lemma_header_round_trip(header: UdpHeader, rest: Seq<u8>)
    ensures
        header_bytes(header).len() == HEADER_SIZE,
        header_of(header_bytes(header) + rest) == header,
{
    let b = header_bytes(header) + rest;
    crate::messages_handler::lemma_length_prefix_round_trip(header.flags);
    lemma_u64_round_trip(header.seq);
    lemma_u64_round_trip(header.sec);
    lemma_u64_round_trip(header.usec);
    assert(b.subrange(0, 8) =~= be_u64_bytes(header.seq));
    assert(b.subrange(8, 16) =~= be_u64_bytes(header.sec));
    assert(b.subrange(16, 24) =~= be_u64_bytes(header.usec));
    assert(b.subrange(24, 28) =~= be_u32_bytes(header.flags));
}

/// Encoding the `u64` that eight bytes hold gives back those bytes.
pub proof fn lemma_u64_bytes_round_trip(b: Seq<u8>)
    requires
        b.len() == 8,
    ensures
        be_u64_bytes(be_u64_value(b)) == b,
{
    let (b0, b1, b2, b3, b4, b5, b6, b7) = (b[0], b[1], b[2], b[3], b[4], b[5], b[6], b[7]);
    let v = be_u64_value(b);
    assert({
        &&& (v >> 56u64) as u8 == b0
        &&& (v >> 48u64) as u8 == b1
        &&& (v >> 40u64) as u8 == b2
        &&& (v >> 32u64) as u8 == b3
        &&& (v >> 24u64) as u8 == b4
        &&& (v >> 16u64) as u8 == b5
        &&& (v >> 8u64) as u8 == b6
        &&& v as u8 == b7
    }) by (bit_vector)
        requires
            v == ((b0 as u64) << 56u64) | ((b1 as u64) << 48u64) | ((b2 as u64) << 40u64) | ((
            b3 as u64) << 32u64) | ((b4 as u64) << 24u64) | ((b5 as u64) << 16u64) | ((
            b6 as u64) << 8u64) | (b7 as u64),
    ;
    assert(be_u64_bytes(v) =~= b);
}

/// Encoding the `u32` that four bytes hold gives back those bytes.
pub proof fn lemma_u32_bytes_round_trip(b: Seq<u8>)
    requires
        b.len() == 4,
    ensures
        be_u32_bytes(be_u32_value(b)) == b,
{
    let (b0, b1, b2, b3) = (b[0], b[1], b[2], b[3]);
    let v = be_u32_value(b);
    assert({
        &&& (v >> 24u32) as u8 == b0
        &&& (v >> 16u32) as u8 == b1
        &&& (v >> 8u32) as u8 == b2
        &&& v as u8 == b3
    }) by (bit_vector)
        requires
            v == ((b0 as u32) << 24u32) | ((b1 as u32) << 16u32) | ((b2 as u32) << 8u32) | (
            b3 as u32),
    ;
    assert(be_u32_bytes(v) =~= b);
}

/// Re-encoding a header read from a packet gives back the packet's first 28
/// bytes: every 28 bytes are the encoding of exactly one header.
pub proof fn lemma_header_bytes_round_trip(b: Seq<u8>)
    requires
        b.len() >= HEADER_SIZE,
    ensures
        header_bytes(header_of(b)) == b.take(HEADER_SIZE as int),
{
    lemma_u64_bytes_round_trip(b.subrange(0, 8));
    lemma_u64_bytes_round_trip(b.subrange(8, 16));
    lemma_u64_bytes_round_trip(b.subrange(16, 24));
    lemma_u32_bytes_round_trip(b.subrange(24, 28));
    assert(header_bytes(header_of(b)) =~= b.take(HEADER_SIZE as int));
}

/// The eight bytes of `x` listed by position: byte `i` holds bits
/// `56 - 8 * i` and up.
proof fn lemma_u64_bytes_by_position(x: u64)
    ensures
        be_u64_bytes(x) == Seq::new(8, |i: int| (x >> ((56 - 8 * i) as u64)) as u8),
{
    let s = Seq::new(8, |i: int| (x >> ((56 - 8 * i) as u64)) as u8);
    assert forall|i: int| 0 <= i < 8 implies be_u64_bytes(x)[i] == s[i] by {
        let k = (56 - 8 * i) as u64;
        if i == 0 {
            assert(k == 56u64);
        } else if i == 1 {
            assert(k == 48u64);
        } else if i == 2 {
            assert(k == 40u64);
        } else if i == 3 {
            assert(k == 32u64);
        } else if i == 4 {
            assert(k == 24u64);
        } else if i == 5 {
            assert(k == 16u64);
        } else if i == 6 {
            assert(k == 8u64);
        } else {
            assert(k == 0u64);
            assert(x >> 0u64 == x) by (bit_vector);
        }
    }
    assert(be_u64_bytes(x) =~= s);
}

/// The four bytes of `x` listed by position: byte `i` holds bits
/// `24 - 8 * i` and up.
proof fn lemma_u32_bytes_by_position(x: u32)
    ensures
        be_u32_bytes(x) == Seq::new(4, |i: int| (x >> ((24 - 8 * i) as u32)) as u8),
{
    let s = Seq::new(4, |i: int| (x >> ((24 - 8 * i) as u32)) as u8);
    assert forall|i: int| 0 <= i < 4 implies be_u32_bytes(x)[i] == s[i] by {
        let k = (24 - 8 * i) as u32;
        if i == 0 {
            assert(k == 24u32);
        } else if i == 1 {
            assert(k == 16u32);
        } else if i == 2 {
            assert(k == 8u32);
        } else {
            assert(k == 0u32);
            assert(x >> 0u32 == x) by (bit_vector);
        }
    }
    assert(be_u32_bytes(x) =~= s);
}

/// The layout of an encoded header: 28 bytes; bytes 0..8 are the sequence
/// number, 8..16 the seconds, 16..24 the microseconds, each most
/// significant byte first (byte `i` of a field holds bits `56 - 8 * i` and
/// up), and 24..28 the flags, most significant byte first.
pub proof fn lemma_header_layout(h: UdpHeader)
    ensures
        header_bytes(h).len() == HEADER_SIZE,
        header_bytes(h).subrange(0, 8) == Seq::new(
            8,
            |i: int| (h.seq >> ((56 - 8 * i) as u64)) as u8,
        ),
        header_bytes(h).subrange(8, 16) == Seq::new(
            8,
            |i: int| (h.sec >> ((56 - 8 * i) as u64)) as u8,
        ),
        header_bytes(h).subrange(16, 24) == Seq::new(
            8,
            |i: int| (h.usec >> ((56 - 8 * i) as u64)) as u8,
        ),
        header_bytes(h).subrange(24, 28) == Seq::new(
            4,
            |i: int| (h.flags >> ((24 - 8 * i) as u32)) as u8,
        ),
{
    lemma_u64_bytes_by_position(h.seq);
    lemma_u64_bytes_by_position(h.sec);
    lemma_u64_bytes_by_position(h.usec);
    lemma_u32_bytes_by_position(h.flags);
    let b = header_bytes(h);
    assert(b.subrange(0, 8) =~= be_u64_bytes(h.seq));
    assert(b.subrange(8, 16) =~= be_u64_bytes(h.sec));
    assert(b.subrange(16, 24) =~= be_u64_bytes(h.usec));
    assert(b.subrange(24, 28) =~= be_u32_bytes(h.flags));
}

/// What a header read from a packet holds: each field's bytes, most
/// significant first (byte `i` of a field holds bits `56 - 8 * i` and up, of
/// the flags `24 - 8 * i`), are the packet's bytes 0..8, 8..16, 16..24 and
/// 24..28.
pub proof fn lemma_header_of_layout(b: Seq<u8>)
    requires
        b.len() >= HEADER_SIZE,
    ensures
        Seq::new(8, |i: int| (header_of(b).seq >> ((56 - 8 * i) as u64)) as u8) == b.subrange(
            0,
            8,
        ),
        Seq::new(8, |i: int| (header_of(b).sec >> ((56 - 8 * i) as u64)) as u8) == b.subrange(
            8,
            16,
        ),
        Seq::new(8, |i: int| (header_of(b).usec >> ((56 - 8 * i) as u64)) as u8) == b.subrange(
            16,
            24,
        ),
        Seq::new(4, |i: int| (header_of(b).flags >> ((24 - 8 * i) as u32)) as u8)
            == b.subrange(24, 28),
{
    let h = header_of(b);
    lemma_u64_bytes_round_trip(b.subrange(0, 8));
    lemma_u64_bytes_round_trip(b.subrange(8, 16));
    lemma_u64_bytes_round_trip(b.subrange(16, 24));
    lemma_u32_bytes_round_trip(b.subrange(24, 28));
    lemma_u64_bytes_by_position(h.seq);
    lemma_u64_bytes_by_position(h.sec);
    lemma_u64_bytes_by_position(h.usec);
    lemma_u32_bytes_by_position(h.flags);
}

/// The send time of a packet, from the whole seconds and the nanoseconds
/// past them since the Unix epoch: the seconds, and the whole microseconds
/// past them.
pub fn micros_timestamp(secs: u64, subsec_nanos: u32) -> (t: (u64, u64))
    ensures
        t == (secs, (subsec_nanos / 1000) as u64),
{
    (secs, (subsec_nanos / 1000) as u64)
}

/// One UDP test stream: its id, socket, parameters, direction, and the
/// channel on which its controller signals it.
pub struct UdpTester<S> {
    pub id: usize,
    pub udp_socket: S,
    pub params: TestParameters,
    pub is_sending: bool,
    pub reciver: Receiver<StreamMessage>,
}

impl<S> UdpTester<S> {
    /// A tester over the given socket and channel.
    pub fn new(
        id: usize,
        udp_socket: S,
        params: TestParameters,
        is_sending: bool,
        reciver: Receiver<StreamMessage>,
    ) -> (t: Self)
        ensures
            t.id == id,
            t.udp_socket == udp_socket,
            t.params == params,
            t.is_sending == is_sending,
            t.reciver == reciver,
    {
        UdpTester { id, udp_socket, params, is_sending, reciver }
    }
}

} // verus!
