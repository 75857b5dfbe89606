//! Byte-level building blocks of the image layouts.

use vstd::prelude::*;

verus! {

/// The order in which the bytes of a four-byte field are written.
#[derive(Debug, Clone, Copy, PartialEq, Eq, Structural)]
pub enum ByteOrder {
    /// Least significant byte first.
    Little,
    /// Most significant byte first.
    Big,
}

/// The four bytes of `x`, least significant first.
pub open spec fn u32_le(x: u32) -> Seq<u8> {
    seq![
        (x % 256) as u8,
        ((x / 0x100) % 256) as u8,
        ((x / 0x1_0000) % 256) as u8,
        ((x / 0x100_0000) % 256) as u8,
    ]
}

/// The four bytes of `x` in the given order.
pub open spec fn u32_field(order: ByteOrder, x: u32) -> Seq<u8> {
    match order {
        ByteOrder::Little => u32_le(x),
        ByteOrder::Big => u32_le(x).reverse(),
    }
}

/// What a four-byte length field holds for a length: its low 32 bits.
pub open spec fn length_code(len: nat) -> u32 {
    (len % 0x1_0000_0000) as u32
}

/// `n` zero bytes.
pub open spec fn zeros(n: nat) -> Seq<u8> {
    Seq::new(n, |i: int| 0u8)
}

/// Whether every byte is zero.
pub open spec fn all_zero(bytes: Seq<u8>) -> bool {
    forall|i: int| 0 <= i < bytes.len() ==> bytes[i] == 0
}

/// The base-256 digits of `x`, least significant first, without high zero digits;
/// zero is the single digit 0.
pub open spec fn le_magnitude(x: nat) -> Seq<u8>
    decreases x,
{
    if x < 256 {
        seq![x as u8]
    } else {
        seq![(x % 256) as u8] + le_magnitude(x / 256)
    }
}

/// The length of a little-endian number without its high zero bytes.
pub open spec fn significant_len(bytes: Seq<u8>) -> nat
    decreases bytes.len(),
{
    if bytes.len() == 0 {
        0
    } else if bytes.last() != 0 {
        bytes.len()
    } else {
        significant_len(bytes.drop_last())
    }
}

/// Whether a little-endian number is written without high zero bytes; zero is the one
/// byte 0.
pub open spec fn is_shortest(bytes: Seq<u8>) -> bool {
    bytes.len() >= 1 && (bytes.len() == 1 || bytes.last() != 0)
}

/// The shortest form of a number has a byte, and its last byte is zero only for zero.
pub proof fn magnitude_ends_in_digit(x: nat)
    ensures
        le_magnitude(x).len() >= 1,
        x > 0 ==> le_magnitude(x).last() != 0,
        is_shortest(le_magnitude(x)),
    decreases x,
{
    if x >= 256 {
        magnitude_ends_in_digit(x / 256);
        let head = seq![(x % 256) as u8];
        let tail = le_magnitude(x / 256);
        assert((head + tail).last() == tail.last());
    }
}

/// A number that is written without high zero bytes and is not zero has no byte to drop.
pub proof fn shortest_is_significant(bytes: Seq<u8>)
    requires
        is_shortest(bytes),
        !all_zero(bytes),
    ensures
        significant_len(bytes) == bytes.len(),
{
    if bytes.len() == 1 {
        assert(bytes[0] != 0);
    }
}

/// `bytes` followed by as many zero bytes as bring it to `width`.
pub open spec fn widened(bytes: Seq<u8>, width: nat) -> Seq<u8>
    recommends
        bytes.len() <= width,
{
    bytes + zeros((width - bytes.len()) as nat)
}

/// The number that four bytes spell, least significant byte first.
pub open spec fn u32_from_le(bytes: Seq<u8>) -> nat
    recommends
        bytes.len() == 4,
{
    (bytes[0] as nat) + 0x100 * (bytes[1] as nat) + 0x1_0000 * (bytes[2] as nat) + 0x100_0000 * (
    bytes[3] as nat)
}

/// The number that a four-byte field spells in the given order.
pub open spec fn u32_value(order: ByteOrder, bytes: Seq<u8>) -> nat
    recommends
        bytes.len() == 4,
{
    match order {
        ByteOrder::Little => u32_from_le(bytes),
        ByteOrder::Big => u32_from_le(bytes.reverse()),
    }
}

/// A four-byte field has four bytes and spells the number that was written to it.
pub proof fn u32_field_round_trip(order: ByteOrder, x: u32)
    ensures
        u32_field(order, x).len() == 4,
        u32_value(order, u32_field(order, x)) == x,
{
    let le = u32_le(x);
    assert(le.len() == 4);
    assert(u32_from_le(le) == x);
    assert(le.reverse().reverse() =~= le);
}

/// A length below 2^32 is what its length field spells.
pub proof fn length_field_round_trip(order: ByteOrder, len: nat)
    requires
        len < 0x1_0000_0000,
    ensures
        u32_value(order, u32_field(order, length_code(len))) == len,
{
    u32_field_round_trip(order, length_code(len));
}

/// Calls `u32::to_ne_bytes`. Trusted: the result holds the four bytes of `x` in one of the
/// two orders; which one depends on the machine.
#[verifier::external_body]
pub(crate) fn native_u32(x: u32) -> (out: Vec<u8>)
    ensures
        out@ == u32_field(ByteOrder::Little, x) || out@ == u32_field(ByteOrder::Big, x),
{
    x.to_ne_bytes().to_vec()
}

/// Appends `tail` to `buf`.
pub fn append(buf: &mut Vec<u8>, tail: &[u8])
    ensures
        final(buf)@ == old(buf)@ + tail@,
{
    let n = tail.len();
    let mut i: usize = 0;
    while i < n
        invariant
            i <= n,
            n == tail@.len(),
            buf@ == old(buf)@ + tail@.subrange(0, i as int),
        decreases n - i,
    {
        buf.push(tail[i]);
        i += 1;
    }
    assert(tail@.subrange(0, n as int) == tail@);
}

/// Whether two byte strings are the same.
pub fn same_bytes(a: &[u8], b: &[u8]) -> (same: bool)
    ensures
        same == (a@ == b@),
{
    let n = a.len();
    if n != b.len() {
        return false;
    }
    let mut i: usize = 0;
    while i < n
        invariant
            i <= n,
            n == a@.len(),
            n == b@.len(),
            forall|j: int| 0 <= j < i ==> a@[j] == b@[j],
        decreases n - i,
    {
        if a[i] != b[i] {
            return false;
        }
        i += 1;
    }
    assert(a@ =~= b@);
    true
}

/// The bytes of `bytes` in the opposite order.
pub fn reversed(bytes: &[u8]) -> (out: Vec<u8>)
    ensures
        out@ == bytes@.reverse(),
{
    let n = bytes.len();
    let mut out: Vec<u8> = Vec::new();
    let mut i: usize = 0;
    while i < n
        invariant
            i <= n,
            n == bytes@.len(),
            out@.len() == i,
            forall|j: int| 0 <= j < i ==> out@[j] == bytes@[n - 1 - j],
        decreases n - i,
    {
        out.push(bytes[n - 1 - i]);
        i += 1;
    }
    assert(out@ =~= bytes@.reverse());
    out
}

/// Appends `count` zero bytes to `buf`.
pub fn append_zeros(buf: &mut Vec<u8>, count: usize)
    ensures
        final(buf)@ == old(buf)@ + zeros(count as nat),
{
    let mut i: usize = 0;
    while i < count
        invariant
            i <= count,
            buf@ == old(buf)@ + zeros(i as nat),
        decreases count - i,
    {
        buf.push(0u8);
        i += 1;
    }
}

/// Writes `x` as four bytes in the given order.
pub fn encode_u32(order: ByteOrder, x: u32) -> (out: Vec<u8>)
    ensures
        out@ == u32_field(order, x),
{
    let b0: u8 = (x % 256) as u8;
    let b1: u8 = ((x / 0x100) % 256) as u8;
    let b2: u8 = ((x / 0x1_0000) % 256) as u8;
    let b3: u8 = ((x / 0x100_0000) % 256) as u8;
    let mut out: Vec<u8> = Vec::new();
    match order {
        ByteOrder::Little => {
            out.push(b0);
            out.push(b1);
            out.push(b2);
            out.push(b3);
        },
        ByteOrder::Big => {
            out.push(b3);
            out.push(b2);
            out.push(b1);
            out.push(b0);
        },
    }
    out
}

/// The value that a four-byte length field holds for `len`.
pub fn length_code_of(len: usize) -> (code: u32)
    ensures
        code == length_code(len as nat),
{
    ((len as u64) % 0x1_0000_0000u64) as u32
}

/// Whether every byte of `bytes` is zero.
pub fn is_all_zero(bytes: &[u8]) -> (r: bool)
    ensures
        r == all_zero(bytes@),
{
    let n = bytes.len();
    let mut i: usize = 0;
    while i < n
        invariant
            i <= n,
            n == bytes@.len(),
            forall|j: int| 0 <= j < i ==> bytes@[j] == 0,
        decreases n - i,
    {
        if bytes[i] != 0 {
            return false;
        }
        i += 1;
    }
    true
}

/// The shortest little-endian form of `x`.
pub fn u32_magnitude(x: u32) -> (out: Vec<u8>)
    ensures
        out@ == le_magnitude(x as nat),
{
    let mut out: Vec<u8> = Vec::new();
    let mut rest: u32 = x;
    while rest >= 256
        invariant
            out@ + le_magnitude(rest as nat) == le_magnitude(x as nat),
        decreases rest,
    {
        let ghost before = out@;
        out.push((rest % 256) as u8);
        proof {
            let head = seq![(rest % 256) as u8];
            let tail = le_magnitude((rest / 256) as nat);
            assert(le_magnitude(rest as nat) == head + tail);
            assert(out@ == before + head);
            assert((before + head) + tail == before + (head + tail));
        }
        rest = rest / 256;
    }
    out.push(rest as u8);
    out
}

/// Brings a little-endian number to exactly `width` bytes by adding high zero bytes;
/// `None` when it is already longer.
pub fn widen(bytes: &[u8], width: usize) -> (out: Option<Vec<u8>>)
    ensures
        bytes@.len() > width <==> out is None,
        out matches Some(v) ==> v@ == widened(bytes@, width as nat) && v@.len() == width,
{
    if bytes.len() > width {
        return None;
    }
    let mut v: Vec<u8> = Vec::new();
    append(&mut v, bytes);
    append_zeros(&mut v, width - bytes.len());
    Some(v)
}

} // verus!
