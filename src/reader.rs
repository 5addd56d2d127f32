//! Fixed-width integer extraction from byte slices, in a byte order chosen
//! once for a whole decode session.
use byteorder::{BigEndian, ByteOrder, LittleEndian, NativeEndian};
use vstd::prelude::*;

verus! {

broadcast use vstd::slice::group_slice_axioms;

/// The byte order in which the multi-byte fields of a trace are stored.
#[derive(Clone, Copy, Debug, PartialEq, Eq, Structural)]
pub enum Endian {
    Little,
    Big,
}

/// Unsigned value of `b`, least significant byte first.
pub open spec fn uint_le(b: Seq<u8>) -> nat
    decreases b.len(),
{
    if b.len() == 0 {
        0
    } else {
        b[0] as nat + 256 * uint_le(b.drop_first())
    }
}

/// Unsigned value of `b`, most significant byte first.
pub open spec fn uint_be(b: Seq<u8>) -> nat
    decreases b.len(),
{
    if b.len() == 0 {
        0
    } else {
        uint_be(b.drop_last()) * 256 + b.last() as nat
    }
}

/// Unsigned value of `b` in the byte order `order`.
pub open spec fn uint_of(order: Endian, b: Seq<u8>) -> nat {
    match order {
        Endian::Little => uint_le(b),
        Endian::Big => uint_be(b),
    }
}

/// The `width` bytes at offset `at` of `d`, read as an unsigned value.
pub open spec fn field(order: Endian, d: Seq<u8>, at: int, width: int) -> nat {
    uint_of(order, d.subrange(at, at + width))
}

/// Relies on byteorder's `LittleEndian::read_u16`: the first two bytes, low byte first.
#[verifier::external_body]
fn le_u16(b: &[u8]) -> (r: u16)
    requires
        b@.len() == 2,
    ensures
        r as nat == uint_le(b@),
{
    LittleEndian::read_u16(b)
}

/// Relies on byteorder's `BigEndian::read_u16`: the first two bytes, high byte first.
#[verifier::external_body]
fn be_u16(b: &[u8]) -> (r: u16)
    requires
        b@.len() == 2,
    ensures
        r as nat == uint_be(b@),
{
    BigEndian::read_u16(b)
}

/// Relies on byteorder's `LittleEndian::read_u32`: the first four bytes, low byte first.
#[verifier::external_body]
fn le_u32(b: &[u8]) -> (r: u32)
    requires
        b@.len() == 4,
    ensures
        r as nat == uint_le(b@),
{
    LittleEndian::read_u32(b)
}

/// Relies on byteorder's `BigEndian::read_u32`: the first four bytes, high byte first.
#[verifier::external_body]
fn be_u32(b: &[u8]) -> (r: u32)
    requires
        b@.len() == 4,
    ensures
        r as nat == uint_be(b@),
{
    BigEndian::read_u32(b)
}

/// Relies on byteorder's `LittleEndian::read_u64`: the first eight bytes, low byte first.
#[verifier::external_body]
fn le_u64(b: &[u8]) -> (r: u64)
    requires
        b@.len() == 8,
    ensures
        r as nat == uint_le(b@),
{
    LittleEndian::read_u64(b)
}

/// Relies on byteorder's `BigEndian::read_u64`: the first eight bytes, high byte first.
#[verifier::external_body]
fn be_u64(b: &[u8]) -> (r: u64)
    requires
        b@.len() == 8,
    ensures
        r as nat == uint_be(b@),
{
    BigEndian::read_u64(b)
}

/// Relies on byteorder's `NativeEndian::read_u32`: the first four bytes in the
/// byte order of the machine, which is one of the two orders.
#[verifier::external_body]
pub(crate) fn native_u32(b: &[u8]) -> (r: u32)
    requires
        b@.len() == 4,
    ensures
        r as nat == uint_le(b@) || r as nat == uint_be(b@),
{
    NativeEndian::read_u32(b)
}

/// The `n` bytes that hold `x`, least significant first.
pub open spec fn le_bytes(x: nat, n: nat) -> Seq<u8>
    decreases n,
{
    if n == 0 {
        Seq::empty()
    } else {
        seq![(x % 256) as u8] + le_bytes(x / 256, (n - 1) as nat)
    }
}

/// The `n` bytes that hold `x`, most significant first.
pub open spec fn be_bytes(x: nat, n: nat) -> Seq<u8>
    decreases n,
{
    if n == 0 {
        Seq::empty()
    } else {
        be_bytes(x / 256, (n - 1) as nat) + seq![(x % 256) as u8]
    }
}

/// The `n` bytes that hold `x` in byte order `order`.
pub open spec fn uint_bytes(order: Endian, x: nat, n: nat) -> Seq<u8> {
    match order {
        Endian::Little => le_bytes(x, n),
        Endian::Big => be_bytes(x, n),
    }
}

proof fn lemma_byte_split(a: nat, b: nat)
    requires
        a < 256,
    ensures
        (a + 256 * b) % 256 == a,
        (a + 256 * b) / 256 == b,
{
    assert((a + 256 * b) % 256 == a && (a + 256 * b) / 256 == b) by (nonlinear_arith)
        requires
            a < 256,
    ;
}

/// Writing back the value read from `s` gives `s` again.
pub proof fn lemma_uint_bytes(order: Endian, s: Seq<u8>)
    ensures
        uint_bytes(order, uint_of(order, s), s.len()) == s,
    decreases s.len(),
{
    if s.len() > 0 {
        match order {
            Endian::Little => {
                let rest = s.drop_first();
                lemma_uint_bytes(order, rest);
                lemma_byte_split(s[0] as nat, uint_le(rest));
                assert(seq![s[0]] + rest =~= s);
            },
            Endian::Big => {
                let rest = s.drop_last();
                lemma_uint_bytes(order, rest);
                lemma_byte_split(s.last() as nat, uint_be(rest));
                assert(uint_be(rest) * 256 + s.last() as nat == s.last() as nat + 256 * uint_be(rest));
                assert(rest + seq![s.last()] =~= s);
            },
        }
    }
}

/// Reads the unsigned 16-bit field at offset `at`.
pub fn read_u16(order: Endian, d: &[u8], at: usize) -> (r: u16)
    requires
        at + 2 <= d.len(),
    ensures
        r as nat == field(order, d@, at as int, 2),
{
    let b = vstd::slice::slice_subrange(d, at, at + 2);
    match order {
        Endian::Little => le_u16(b),
        Endian::Big => be_u16(b),
    }
}

/// Reads the unsigned 32-bit field at offset `at`.
pub fn read_u32(order: Endian, d: &[u8], at: usize) -> (r: u32)
    requires
        at + 4 <= d.len(),
    ensures
        r as nat == field(order, d@, at as int, 4),
{
    let b = vstd::slice::slice_subrange(d, at, at + 4);
    match order {
        Endian::Little => le_u32(b),
        Endian::Big => be_u32(b),
    }
}

/// Reads the unsigned 64-bit field at offset `at`.
pub fn read_u64(order: Endian, d: &[u8], at: usize) -> (r: u64)
    requires
        at + 8 <= d.len(),
    ensures
        r as nat == field(order, d@, at as int, 8),
{
    let b = vstd::slice::slice_subrange(d, at, at + 8);
    match order {
        Endian::Little => le_u64(b),
        Endian::Big => be_u64(b),
    }
}

/// Reads the signed 32-bit field at offset `at` (two's complement).
pub fn read_i32(order: Endian, d: &[u8], at: usize) -> (r: i32)
    requires
        at + 4 <= d.len(),
    ensures
        r == field(order, d@, at as int, 4) as u32 as i32,
{
    read_u32(order, d, at) as i32
}

/// Reads the signed 64-bit field at offset `at` (two's complement).
pub fn read_i64(order: Endian, d: &[u8], at: usize) -> (r: i64)
    requires
        at + 8 <= d.len(),
    ensures
        r == field(order, d@, at as int, 8) as u64 as i64,
{
    read_u64(order, d, at) as i64
}

/// Index of the first NUL byte of `s`, or its length where it holds none.
pub open spec fn first_nul(s: Seq<u8>) -> nat
    decreases s.len(),
{
    if s.len() == 0 || s[0] == 0 {
        0
    } else {
        1 + first_nul(s.drop_first())
    }
}

/// `i` is the first NUL of `s` when no byte before it is NUL and it is NUL or the end.
pub proof fn lemma_first_nul(s: Seq<u8>, i: int)
    requires
        0 <= i <= s.len(),
        forall|j: int| 0 <= j < i ==> s[j] != 0,
        i == s.len() || s[i] == 0,
    ensures
        first_nul(s) == i,
    decreases i,
{
    if i > 0 {
        assert forall|j: int| 0 <= j < i - 1 implies s.drop_first()[j] != 0 by {
            assert(s.drop_first()[j] == s[j + 1]);
        }
        lemma_first_nul(s.drop_first(), i - 1);
    }
}

/// Finds the first NUL byte of `d`; `d.len()` where there is none.
pub fn find_nul(d: &[u8]) -> (r: usize)
    ensures
        r == first_nul(d@),
        r <= d@.len(),
{
    let mut i: usize = 0;
    while i < d.len() && d[i] != 0
        invariant
            i <= d@.len(),
            forall|j: int| 0 <= j < i ==> d@[j] != 0,
        decreases d@.len() - i,
    {
        i = i + 1;
    }
    proof {
        lemma_first_nul(d@, i as int);
    }
    i
}

} // verus!
