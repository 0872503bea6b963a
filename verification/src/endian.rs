//! Endian integer types.
//!
//! Each type holds an unsigned integer as bytes in one fixed order, whatever the host's own
//! order is. A value goes in and comes out through `From` alone, so a field of such a type
//! cannot be read as a native integer by accident.

use vstd::prelude::*;

verus! {

/// A byte order.
#[derive(Clone, Copy, Debug, PartialEq, Eq, Structural)]
pub enum ByteOrder {
    /// Least significant byte first.
    Little,
    /// Most significant byte first.
    Big,
}

/// `u16::from_le`: on a little-endian host the argument comes back as it is, on a
/// big-endian host with its two bytes exchanged. Which of the two the host is, is not
/// stated.
#[verifier::external_body]
fn native_from_le(v: u16) -> (r: u16)
    ensures
        r == v || r == swap16(v),
{
    u16::from_le(v)
}

impl ByteOrder {
    /// The byte order of the machine that runs this code.
    pub fn host() -> ByteOrder {
        let one: u16 = native_from_le(1);
        Self::of_reading(one)
    }

    /// The byte order of a host that reads `one` from memory which holds the number one
    /// with its least significant byte first: little-endian where it reads the number one,
    /// big-endian where it reads anything else.
    pub open spec fn reading(one: u16) -> ByteOrder {
        if one == 1 {
            ByteOrder::Little
        } else {
            ByteOrder::Big
        }
    }

    /// Tells a host's byte order from what the host reads from memory which holds the
    /// number one with its least significant byte first.
    pub fn of_reading(one: u16) -> (order: ByteOrder)
        ensures
            order == Self::reading(one),
    {
        if one == 1 {
            ByteOrder::Little
        } else {
            ByteOrder::Big
        }
    }
}

/// The 16-bit value `v` with the order of its two bytes reversed.
pub open spec fn swap16(v: u16) -> u16 {
    (v << 8) | (v >> 8)
}

/// The value that the bytes `b` stand for when the least significant comes first.
pub open spec fn le_value16(b: Seq<u8>) -> u16 {
    (b[0] as u16) | ((b[1] as u16) << 8)
}

/// The value that the bytes `b` stand for when the most significant comes first.
pub open spec fn be_value16(b: Seq<u8>) -> u16 {
    ((b[0] as u16) << 8) | (b[1] as u16)
}

/// What a host of byte order `host` reads from memory that holds `v` in byte order `tag`:
/// `v` itself where the two orders agree, its byte swap where they do not.
pub open spec fn stored16(tag: ByteOrder, host: ByteOrder, v: u16) -> u16 {
    if tag == host {
        v
    } else {
        swap16(v)
    }
}

proof fn lemma_orders_swap16(b0: u16, b1: u16)
    by (bit_vector)
    requires
        b0 < 0x100,
        b1 < 0x100,
    ensures
        (b0 << 8) | b1 == swap16(b0 | (b1 << 8)),
        b0 | (b1 << 8) == swap16((b0 << 8) | b1),
{
}

/// The two readings of the same bytes are each other's byte swap.
pub proof fn lemma_value_swap16(b: Seq<u8>)
    requires
        b.len() == 2,
    ensures
        be_value16(b) == swap16(le_value16(b)),
        le_value16(b) == swap16(be_value16(b)),
{
    lemma_orders_swap16(b[0] as u16, b[1] as u16);
}

fn load_le16(b: &[u8; 2]) -> (r: u16)
    ensures
        r == le_value16(b@),
{
    let b0: u16 = b[0] as u16;
    let b1: u16 = b[1] as u16;
    b0 | (b1 << 8)
}

fn load_be16(b: &[u8; 2]) -> (r: u16)
    ensures
        r == be_value16(b@),
{
    let b0: u16 = b[0] as u16;
    let b1: u16 = b[1] as u16;
    (b0 << 8) | b1
}

/// The bytes of `v`, least significant first.
pub open spec fn le_bytes16(v: u16) -> [u8; 2] {
    [v as u8, (v >> 8) as u8]
}

/// The bytes of `v`, most significant first.
pub open spec fn be_bytes16(v: u16) -> [u8; 2] {
    [(v >> 8) as u8, v as u8]
}

/// Read back in the order in which they were written, the bytes of `v` give `v`.
pub proof fn lemma_bytes_value16(v: u16)
    ensures
        le_value16(le_bytes16(v)@) == v,
        be_value16(be_bytes16(v)@) == v,
{
    assert(((v as u8) as u16) | ((((v >> 8) as u8) as u16) << 8) == v) by (bit_vector);
    assert(((((v >> 8) as u8) as u16) << 8) | ((v as u8) as u16) == v) by (bit_vector);
}

fn store_le16(v: u16) -> (r: [u8; 2])
    ensures
        r == le_bytes16(v),
{
    let b0: u8 = #[verifier::truncate] (v as u8);
    let b1: u8 = #[verifier::truncate] ((v >> 8) as u8);
    let r = [b0, b1];
    assert(r@ =~= le_bytes16(v)@);
    r
}

fn store_be16(v: u16) -> (r: [u8; 2])
    ensures
        r == be_bytes16(v),
{
    let b0: u8 = #[verifier::truncate] ((v >> 8) as u8);
    let b1: u8 = #[verifier::truncate] (v as u8);
    let r = [b0, b1];
    assert(r@ =~= be_bytes16(v)@);
    r
}

/// The 32-bit value `v` with the order of its four bytes reversed.
pub open spec fn swap32(v: u32) -> u32 {
    ((v & 0xff) << 24)
    | (((v >> 8) & 0xff) << 16)
    | (((v >> 16) & 0xff) << 8)
    | (((v >> 24) & 0xff))
}

/// The value that the bytes `b` stand for when the least significant comes first.
pub open spec fn le_value32(b: Seq<u8>) -> u32 {
    (b[0] as u32) | ((b[1] as u32) << 8) | ((b[2] as u32) << 16) | ((b[3] as u32) << 24)
}

/// The value that the bytes `b` stand for when the most significant comes first.
pub open spec fn be_value32(b: Seq<u8>) -> u32 {
    ((b[0] as u32) << 24) | ((b[1] as u32) << 16) | ((b[2] as u32) << 8) | (b[3] as u32)
}

/// What a host of byte order `host` reads from memory that holds `v` in byte order `tag`:
/// `v` itself where the two orders agree, its byte swap where they do not.
pub open spec fn stored32(tag: ByteOrder, host: ByteOrder, v: u32) -> u32 {
    if tag == host {
        v
    } else {
        swap32(v)
    }
}

proof fn lemma_orders_swap32(b0: u32, b1: u32, b2: u32, b3: u32)
    by (bit_vector)
    requires
        b0 < 0x100,
        b1 < 0x100,
        b2 < 0x100,
        b3 < 0x100,
    ensures
        (b0 << 24) | (b1 << 16) | (b2 << 8) | b3 == swap32(b0 | (b1 << 8) | (b2 << 16) | (b3 << 24)),
        b0 | (b1 << 8) | (b2 << 16) | (b3 << 24) == swap32((b0 << 24) | (b1 << 16) | (b2 << 8) | b3),
{
}

/// The two readings of the same bytes are each other's byte swap.
pub proof fn lemma_value_swap32(b: Seq<u8>)
    requires
        b.len() == 4,
    ensures
        be_value32(b) == swap32(le_value32(b)),
        le_value32(b) == swap32(be_value32(b)),
{
    lemma_orders_swap32(b[0] as u32, b[1] as u32, b[2] as u32, b[3] as u32);
}

fn load_le32(b: &[u8; 4]) -> (r: u32)
    ensures
        r == le_value32(b@),
{
    let b0: u32 = b[0] as u32;
    let b1: u32 = b[1] as u32;
    let b2: u32 = b[2] as u32;
    let b3: u32 = b[3] as u32;
    b0 | (b1 << 8) | (b2 << 16) | (b3 << 24)
}

fn load_be32(b: &[u8; 4]) -> (r: u32)
    ensures
        r == be_value32(b@),
{
    let b0: u32 = b[0] as u32;
    let b1: u32 = b[1] as u32;
    let b2: u32 = b[2] as u32;
    let b3: u32 = b[3] as u32;
    (b0 << 24) | (b1 << 16) | (b2 << 8) | b3
}

/// The bytes of `v`, least significant first.
pub open spec fn le_bytes32(v: u32) -> [u8; 4] {
    [v as u8, (v >> 8) as u8, (v >> 16) as u8, (v >> 24) as u8]
}

/// The bytes of `v`, most significant first.
pub open spec fn be_bytes32(v: u32) -> [u8; 4] {
    [(v >> 24) as u8, (v >> 16) as u8, (v >> 8) as u8, v as u8]
}

/// Read back in the order in which they were written, the bytes of `v` give `v`.
pub proof fn lemma_bytes_value32(v: u32)
    ensures
        le_value32(le_bytes32(v)@) == v,
        be_value32(be_bytes32(v)@) == v,
{
    assert(((v as u8) as u32) | ((((v >> 8) as u8) as u32) << 8) | ((((v >> 16) as u8) as u32) << 16) | ((((v >> 24) as u8) as u32) << 24) == v) by (bit_vector);
    assert(((((v >> 24) as u8) as u32) << 24) | ((((v >> 16) as u8) as u32) << 16) | ((((v >> 8) as u8) as u32) << 8) | ((v as u8) as u32) == v) by (bit_vector);
}

fn store_le32(v: u32) -> (r: [u8; 4])
    ensures
        r == le_bytes32(v),
{
    let b0: u8 = #[verifier::truncate] (v as u8);
    let b1: u8 = #[verifier::truncate] ((v >> 8) as u8);
    let b2: u8 = #[verifier::truncate] ((v >> 16) as u8);
    let b3: u8 = #[verifier::truncate] ((v >> 24) as u8);
    let r = [b0, b1, b2, b3];
    assert(r@ =~= le_bytes32(v)@);
    r
}

fn store_be32(v: u32) -> (r: [u8; 4])
    ensures
        r == be_bytes32(v),
{
    let b0: u8 = #[verifier::truncate] ((v >> 24) as u8);
    let b1: u8 = #[verifier::truncate] ((v >> 16) as u8);
    let b2: u8 = #[verifier::truncate] ((v >> 8) as u8);
    let b3: u8 = #[verifier::truncate] (v as u8);
    let r = [b0, b1, b2, b3];
    assert(r@ =~= be_bytes32(v)@);
    r
}

/// The 64-bit value `v` with the order of its eight bytes reversed.
pub open spec fn swap64(v: u64) -> u64 {
    ((v & 0xff) << 56)
    | (((v >> 8) & 0xff) << 48)
    | (((v >> 16) & 0xff) << 40)
    | (((v >> 24) & 0xff) << 32)
    | (((v >> 32) & 0xff) << 24)
    | (((v >> 40) & 0xff) << 16)
    | (((v >> 48) & 0xff) << 8)
    | (((v >> 56) & 0xff))
}

/// The value that the bytes `b` stand for when the least significant comes first.
pub open spec fn le_value64(b: Seq<u8>) -> u64 {
    (b[0] as u64) | ((b[1] as u64) << 8) | ((b[2] as u64) << 16) | ((b[3] as u64) << 24) | ((b[4] as u64) << 32) | ((b[5] as u64) << 40) | ((b[6] as u64) << 48) | ((b[7] as u64) << 56)
}

/// The value that the bytes `b` stand for when the most significant comes first.
pub open spec fn be_value64(b: Seq<u8>) -> u64 {
    ((b[0] as u64) << 56) | ((b[1] as u64) << 48) | ((b[2] as u64) << 40) | ((b[3] as u64) << 32) | ((b[4] as u64) << 24) | ((b[5] as u64) << 16) | ((b[6] as u64) << 8) | (b[7] as u64)
}

/// What a host of byte order `host` reads from memory that holds `v` in byte order `tag`:
/// `v` itself where the two orders agree, its byte swap where they do not.
pub open spec fn stored64(tag: ByteOrder, host: ByteOrder, v: u64) -> u64 {
    if tag == host {
        v
    } else {
        swap64(v)
    }
}

proof fn lemma_orders_swap64(b0: u64, b1: u64, b2: u64, b3: u64, b4: u64, b5: u64, b6: u64, b7: u64)
    by (bit_vector)
    requires
        b0 < 0x100,
        b1 < 0x100,
        b2 < 0x100,
        b3 < 0x100,
        b4 < 0x100,
        b5 < 0x100,
        b6 < 0x100,
        b7 < 0x100,
    ensures
        (b0 << 56) | (b1 << 48) | (b2 << 40) | (b3 << 32) | (b4 << 24) | (b5 << 16) | (b6 << 8) | b7 == swap64(b0 | (b1 << 8) | (b2 << 16) | (b3 << 24) | (b4 << 32) | (b5 << 40) | (b6 << 48) | (b7 << 56)),
        b0 | (b1 << 8) | (b2 << 16) | (b3 << 24) | (b4 << 32) | (b5 << 40) | (b6 << 48) | (b7 << 56) == swap64((b0 << 56) | (b1 << 48) | (b2 << 40) | (b3 << 32) | (b4 << 24) | (b5 << 16) | (b6 << 8) | b7),
{
}

/// The two readings of the same bytes are each other's byte swap.
pub proof fn lemma_value_swap64(b: Seq<u8>)
    requires
        b.len() == 8,
    ensures
        be_value64(b) == swap64(le_value64(b)),
        le_value64(b) == swap64(be_value64(b)),
{
    lemma_orders_swap64(b[0] as u64, b[1] as u64, b[2] as u64, b[3] as u64, b[4] as u64, b[5] as u64, b[6] as u64, b[7] as u64);
}

fn load_le64(b: &[u8; 8]) -> (r: u64)
    ensures
        r == le_value64(b@),
{
    let b0: u64 = b[0] as u64;
    let b1: u64 = b[1] as u64;
    let b2: u64 = b[2] as u64;
    let b3: u64 = b[3] as u64;
    let b4: u64 = b[4] as u64;
    let b5: u64 = b[5] as u64;
    let b6: u64 = b[6] as u64;
    let b7: u64 = b[7] as u64;
    b0 | (b1 << 8) | (b2 << 16) | (b3 << 24) | (b4 << 32) | (b5 << 40) | (b6 << 48) | (b7 << 56)
}

fn load_be64(b: &[u8; 8]) -> (r: u64)
    ensures
        r == be_value64(b@),
{
    let b0: u64 = b[0] as u64;
    let b1: u64 = b[1] as u64;
    let b2: u64 = b[2] as u64;
    let b3: u64 = b[3] as u64;
    let b4: u64 = b[4] as u64;
    let b5: u64 = b[5] as u64;
    let b6: u64 = b[6] as u64;
    let b7: u64 = b[7] as u64;
    (b0 << 56) | (b1 << 48) | (b2 << 40) | (b3 << 32) | (b4 << 24) | (b5 << 16) | (b6 << 8) | b7
}

/// The bytes of `v`, least significant first.
pub open spec fn le_bytes64(v: u64) -> [u8; 8] {
    [v as u8, (v >> 8) as u8, (v >> 16) as u8, (v >> 24) as u8, (v >> 32) as u8, (v >> 40) as u8, (v >> 48) as u8, (v >> 56) as u8]
}

/// The bytes of `v`, most significant first.
pub open spec fn be_bytes64(v: u64) -> [u8; 8] {
    [(v >> 56) as u8, (v >> 48) as u8, (v >> 40) as u8, (v >> 32) as u8, (v >> 24) as u8, (v >> 16) as u8, (v >> 8) as u8, v as u8]
}

/// Read back in the order in which they were written, the bytes of `v` give `v`.
pub proof fn lemma_bytes_value64(v: u64)
    ensures
        le_value64(le_bytes64(v)@) == v,
        be_value64(be_bytes64(v)@) == v,
{
    assert(((v as u8) as u64) | ((((v >> 8) as u8) as u64) << 8) | ((((v >> 16) as u8) as u64) << 16) | ((((v >> 24) as u8) as u64) << 24) | ((((v >> 32) as u8) as u64) << 32) | ((((v >> 40) as u8) as u64) << 40) | ((((v >> 48) as u8) as u64) << 48) | ((((v >> 56) as u8) as u64) << 56) == v) by (bit_vector);
    assert(((((v >> 56) as u8) as u64) << 56) | ((((v >> 48) as u8) as u64) << 48) | ((((v >> 40) as u8) as u64) << 40) | ((((v >> 32) as u8) as u64) << 32) | ((((v >> 24) as u8) as u64) << 24) | ((((v >> 16) as u8) as u64) << 16) | ((((v >> 8) as u8) as u64) << 8) | ((v as u8) as u64) == v) by (bit_vector);
}

fn store_le64(v: u64) -> (r: [u8; 8])
    ensures
        r == le_bytes64(v),
{
    let b0: u8 = #[verifier::truncate] (v as u8);
    let b1: u8 = #[verifier::truncate] ((v >> 8) as u8);
    let b2: u8 = #[verifier::truncate] ((v >> 16) as u8);
    let b3: u8 = #[verifier::truncate] ((v >> 24) as u8);
    let b4: u8 = #[verifier::truncate] ((v >> 32) as u8);
    let b5: u8 = #[verifier::truncate] ((v >> 40) as u8);
    let b6: u8 = #[verifier::truncate] ((v >> 48) as u8);
    let b7: u8 = #[verifier::truncate] ((v >> 56) as u8);
    let r = [b0, b1, b2, b3, b4, b5, b6, b7];
    assert(r@ =~= le_bytes64(v)@);
    r
}

fn store_be64(v: u64) -> (r: [u8; 8])
    ensures
        r == be_bytes64(v),
{
    let b0: u8 = #[verifier::truncate] ((v >> 56) as u8);
    let b1: u8 = #[verifier::truncate] ((v >> 48) as u8);
    let b2: u8 = #[verifier::truncate] ((v >> 40) as u8);
    let b3: u8 = #[verifier::truncate] ((v >> 32) as u8);
    let b4: u8 = #[verifier::truncate] ((v >> 24) as u8);
    let b5: u8 = #[verifier::truncate] ((v >> 16) as u8);
    let b6: u8 = #[verifier::truncate] ((v >> 8) as u8);
    let b7: u8 = #[verifier::truncate] (v as u8);
    let r = [b0, b1, b2, b3, b4, b5, b6, b7];
    assert(r@ =~= be_bytes64(v)@);
    r
}

/// little-endian integer
#[allow(non_camel_case_types)]
#[derive(Clone, Copy)]
pub struct le64([u8; 8]);

impl View for le64 {
    type V = u64;

    /// The native value that the stored bytes stand for.
    closed spec fn view(&self) -> u64 {
        le_value64(self.0@)
    }
}

impl le64 {
    /// What a host of byte order `host` reads from the memory of this value.
    pub open spec fn pattern(self, host: ByteOrder) -> u64 {
        stored64(ByteOrder::Little, host, self@)
    }

    /// The stored bit pattern as a host of byte order `host` reads it.
    pub fn raw_on(self, host: ByteOrder) -> (r: u64)
        ensures
            r == self.pattern(host),
    {
        proof {
            lemma_value_swap64(self.0@);
        }
        match host {
            ByteOrder::Little => load_le64(&self.0),
            ByteOrder::Big => load_be64(&self.0),
        }
    }

    /// The stored bit pattern as this machine reads it.
    pub fn raw(self) -> (r: u64)
        ensures
            r == self.pattern(ByteOrder::Little) || r == self.pattern(ByteOrder::Big),
    {
        self.raw_on(ByteOrder::host())
    }

    /// The wrapper made of a native value stands for that value, and the value comes out of
    /// it unchanged.
    pub proof fn lemma_round_trip(x: u64)
        ensures
            <le64 as vstd::std_specs::convert::FromSpec<u64>>::from_spec(x)@ == x,
            <u64 as vstd::std_specs::convert::FromSpec<le64>>::from_spec(
                <le64 as vstd::std_specs::convert::FromSpec<u64>>::from_spec(x),
            ) == x,
    {
        lemma_bytes_value64(x);
    }

    /// On a little-endian host the stored pattern of `x` is `x` itself, on any other its byte
    /// swap.
    pub proof fn lemma_stored_pattern(x: u64, host: ByteOrder)
        ensures
            <le64 as vstd::std_specs::convert::FromSpec<u64>>::from_spec(x).pattern(host) == (if host
                == ByteOrder::Little {
                x
            } else {
                swap64(x)
            }),
    {
        lemma_bytes_value64(x);
    }
}

impl From<u64> for le64 {
    #[inline(always)]
    fn from(v: u64) -> (r: Self)
        ensures
            r@ == v,
    {
        proof {
            lemma_bytes_value64(v);
        }
        le64(store_le64(v))
    }
}

impl vstd::std_specs::convert::FromSpecImpl<u64> for le64 {
    open spec fn obeys_from_spec() -> bool {
        true
    }

    closed spec fn from_spec(v: u64) -> Self {
        le64(le_bytes64(v))
    }
}

impl From<le64> for u64 {
    #[inline(always)]
    fn from(v: le64) -> (r: u64)
        ensures
            r == v@,
    {
        load_le64(&v.0)
    }
}

impl vstd::std_specs::convert::FromSpecImpl<le64> for u64 {
    open spec fn obeys_from_spec() -> bool {
        true
    }

    open spec fn from_spec(v: le64) -> Self {
        v@
    }
}

impl Default for le64 {
    fn default() -> (r: Self)
        ensures
            r@ == 0,
    {
        let r = le64([0, 0, 0, 0, 0, 0, 0, 0]);
        assert(0u64 | (0u64 << 8) | (0u64 << 16) | (0u64 << 24) | (0u64 << 32) | (0u64 << 40) | (0u64 << 48) | (0u64 << 56) == 0) by (bit_vector);
        r
    }
}

/// little-endian integer
#[allow(non_camel_case_types)]
#[derive(Clone, Copy)]
pub struct le32([u8; 4]);

impl View for le32 {
    type V = u32;

    /// The native value that the stored bytes stand for.
    closed spec fn view(&self) -> u32 {
        le_value32(self.0@)
    }
}

impl le32 {
    /// What a host of byte order `host` reads from the memory of this value.
    pub open spec fn pattern(self, host: ByteOrder) -> u32 {
        stored32(ByteOrder::Little, host, self@)
    }

    /// The stored bit pattern as a host of byte order `host` reads it.
    pub fn raw_on(self, host: ByteOrder) -> (r: u32)
        ensures
            r == self.pattern(host),
    {
        proof {
            lemma_value_swap32(self.0@);
        }
        match host {
            ByteOrder::Little => load_le32(&self.0),
            ByteOrder::Big => load_be32(&self.0),
        }
    }

    /// The stored bit pattern as this machine reads it.
    pub fn raw(self) -> (r: u32)
        ensures
            r == self.pattern(ByteOrder::Little) || r == self.pattern(ByteOrder::Big),
    {
        self.raw_on(ByteOrder::host())
    }

    /// The wrapper made of a native value stands for that value, and the value comes out of
    /// it unchanged.
    pub proof fn lemma_round_trip(x: u32)
        ensures
            <le32 as vstd::std_specs::convert::FromSpec<u32>>::from_spec(x)@ == x,
            <u32 as vstd::std_specs::convert::FromSpec<le32>>::from_spec(
                <le32 as vstd::std_specs::convert::FromSpec<u32>>::from_spec(x),
            ) == x,
    {
        lemma_bytes_value32(x);
    }

    /// On a little-endian host the stored pattern of `x` is `x` itself, on any other its byte
    /// swap.
    pub proof fn lemma_stored_pattern(x: u32, host: ByteOrder)
        ensures
            <le32 as vstd::std_specs::convert::FromSpec<u32>>::from_spec(x).pattern(host) == (if host
                == ByteOrder::Little {
                x
            } else {
                swap32(x)
            }),
    {
        lemma_bytes_value32(x);
    }
}

impl From<u32> for le32 {
    #[inline(always)]
    fn from(v: u32) -> (r: Self)
        ensures
            r@ == v,
    {
        proof {
            lemma_bytes_value32(v);
        }
        le32(store_le32(v))
    }
}

impl vstd::std_specs::convert::FromSpecImpl<u32> for le32 {
    open spec fn obeys_from_spec() -> bool {
        true
    }

    closed spec fn from_spec(v: u32) -> Self {
        le32(le_bytes32(v))
    }
}

impl From<le32> for u32 {
    #[inline(always)]
    fn from(v: le32) -> (r: u32)
        ensures
            r == v@,
    {
        load_le32(&v.0)
    }
}

impl vstd::std_specs::convert::FromSpecImpl<le32> for u32 {
    open spec fn obeys_from_spec() -> bool {
        true
    }

    open spec fn from_spec(v: le32) -> Self {
        v@
    }
}

impl Default for le32 {
    fn default() -> (r: Self)
        ensures
            r@ == 0,
    {
        let r = le32([0, 0, 0, 0]);
        assert(0u32 | (0u32 << 8) | (0u32 << 16) | (0u32 << 24) == 0) by (bit_vector);
        r
    }
}

/// little-endian integer
#[allow(non_camel_case_types)]
#[derive(Clone, Copy)]
pub struct le16([u8; 2]);

impl View for le16 {
    type V = u16;

    /// The native value that the stored bytes stand for.
    closed spec fn view(&self) -> u16 {
        le_value16(self.0@)
    }
}

impl le16 {
    /// What a host of byte order `host` reads from the memory of this value.
    pub open spec fn pattern(self, host: ByteOrder) -> u16 {
        stored16(ByteOrder::Little, host, self@)
    }

    /// The stored bit pattern as a host of byte order `host` reads it.
    pub fn raw_on(self, host: ByteOrder) -> (r: u16)
        ensures
            r == self.pattern(host),
    {
        proof {
            lemma_value_swap16(self.0@);
        }
        match host {
            ByteOrder::Little => load_le16(&self.0),
            ByteOrder::Big => load_be16(&self.0),
        }
    }

    /// The stored bit pattern as this machine reads it.
    pub fn raw(self) -> (r: u16)
        ensures
            r == self.pattern(ByteOrder::Little) || r == self.pattern(ByteOrder::Big),
    {
        self.raw_on(ByteOrder::host())
    }

    /// The wrapper made of a native value stands for that value, and the value comes out of
    /// it unchanged.
    pub proof fn lemma_round_trip(x: u16)
        ensures
            <le16 as vstd::std_specs::convert::FromSpec<u16>>::from_spec(x)@ == x,
            <u16 as vstd::std_specs::convert::FromSpec<le16>>::from_spec(
                <le16 as vstd::std_specs::convert::FromSpec<u16>>::from_spec(x),
            ) == x,
    {
        lemma_bytes_value16(x);
    }

    /// On a little-endian host the stored pattern of `x` is `x` itself, on any other its byte
    /// swap.
    pub proof fn lemma_stored_pattern(x: u16, host: ByteOrder)
        ensures
            <le16 as vstd::std_specs::convert::FromSpec<u16>>::from_spec(x).pattern(host) == (if host
                == ByteOrder::Little {
                x
            } else {
                swap16(x)
            }),
    {
        lemma_bytes_value16(x);
    }
}

impl From<u16> for le16 {
    #[inline(always)]
    fn from(v: u16) -> (r: Self)
        ensures
            r@ == v,
    {
        proof {
            lemma_bytes_value16(v);
        }
        le16(store_le16(v))
    }
}

impl vstd::std_specs::convert::FromSpecImpl<u16> for le16 {
    open spec fn obeys_from_spec() -> bool {
        true
    }

    closed spec fn from_spec(v: u16) -> Self {
        le16(le_bytes16(v))
    }
}

impl From<le16> for u16 {
    #[inline(always)]
    fn from(v: le16) -> (r: u16)
        ensures
            r == v@,
    {
        load_le16(&v.0)
    }
}

impl vstd::std_specs::convert::FromSpecImpl<le16> for u16 {
    open spec fn obeys_from_spec() -> bool {
        true
    }

    open spec fn from_spec(v: le16) -> Self {
        v@
    }
}

impl Default for le16 {
    fn default() -> (r: Self)
        ensures
            r@ == 0,
    {
        let r = le16([0, 0]);
        assert(0u16 | (0u16 << 8) == 0) by (bit_vector);
        r
    }
}

/// big-endian integer
#[allow(non_camel_case_types)]
#[derive(Clone, Copy)]
pub struct be64([u8; 8]);

impl View for be64 {
    type V = u64;

    /// The native value that the stored bytes stand for.
    closed spec fn view(&self) -> u64 {
        be_value64(self.0@)
    }
}

impl be64 {
    /// What a host of byte order `host` reads from the memory of this value.
    pub open spec fn pattern(self, host: ByteOrder) -> u64 {
        stored64(ByteOrder::Big, host, self@)
    }

    /// The stored bit pattern as a host of byte order `host` reads it.
    pub fn raw_on(self, host: ByteOrder) -> (r: u64)
        ensures
            r == self.pattern(host),
    {
        proof {
            lemma_value_swap64(self.0@);
        }
        match host {
            ByteOrder::Little => load_le64(&self.0),
            ByteOrder::Big => load_be64(&self.0),
        }
    }

    /// The stored bit pattern as this machine reads it.
    pub fn raw(self) -> (r: u64)
        ensures
            r == self.pattern(ByteOrder::Little) || r == self.pattern(ByteOrder::Big),
    {
        self.raw_on(ByteOrder::host())
    }

    /// The wrapper made of a native value stands for that value, and the value comes out of
    /// it unchanged.
    pub proof fn lemma_round_trip(x: u64)
        ensures
            <be64 as vstd::std_specs::convert::FromSpec<u64>>::from_spec(x)@ == x,
            <u64 as vstd::std_specs::convert::FromSpec<be64>>::from_spec(
                <be64 as vstd::std_specs::convert::FromSpec<u64>>::from_spec(x),
            ) == x,
    {
        lemma_bytes_value64(x);
    }

    /// On a big-endian host the stored pattern of `x` is `x` itself, on any other its byte
    /// swap.
    pub proof fn lemma_stored_pattern(x: u64, host: ByteOrder)
        ensures
            <be64 as vstd::std_specs::convert::FromSpec<u64>>::from_spec(x).pattern(host) == (if host
                == ByteOrder::Big {
                x
            } else {
                swap64(x)
            }),
    {
        lemma_bytes_value64(x);
    }
}

impl From<u64> for be64 {
    #[inline(always)]
    fn from(v: u64) -> (r: Self)
        ensures
            r@ == v,
    {
        proof {
            lemma_bytes_value64(v);
        }
        be64(store_be64(v))
    }
}

impl vstd::std_specs::convert::FromSpecImpl<u64> for be64 {
    open spec fn obeys_from_spec() -> bool {
        true
    }

    closed spec fn from_spec(v: u64) -> Self {
        be64(be_bytes64(v))
    }
}

impl From<be64> for u64 {
    #[inline(always)]
    fn from(v: be64) -> (r: u64)
        ensures
            r == v@,
    {
        load_be64(&v.0)
    }
}

impl vstd::std_specs::convert::FromSpecImpl<be64> for u64 {
    open spec fn obeys_from_spec() -> bool {
        true
    }

    open spec fn from_spec(v: be64) -> Self {
        v@
    }
}

impl Default for be64 {
    fn default() -> (r: Self)
        ensures
            r@ == 0,
    {
        let r = be64([0, 0, 0, 0, 0, 0, 0, 0]);
        assert((0u64 << 56) | (0u64 << 48) | (0u64 << 40) | (0u64 << 32) | (0u64 << 24) | (0u64 << 16) | (0u64 << 8) | 0u64 == 0) by (bit_vector);
        r
    }
}

/// big-endian integer
#[allow(non_camel_case_types)]
#[derive(Clone, Copy)]
pub struct be32([u8; 4]);

impl View for be32 {
    type V = u32;

    /// The native value that the stored bytes stand for.
    closed spec fn view(&self) -> u32 {
        be_value32(self.0@)
    }
}

impl be32 {
    /// What a host of byte order `host` reads from the memory of this value.
    pub open spec fn pattern(self, host: ByteOrder) -> u32 {
        stored32(ByteOrder::Big, host, self@)
    }

    /// The stored bit pattern as a host of byte order `host` reads it.
    pub fn raw_on(self, host: ByteOrder) -> (r: u32)
        ensures
            r == self.pattern(host),
    {
        proof {
            lemma_value_swap32(self.0@);
        }
        match host {
            ByteOrder::Little => load_le32(&self.0),
            ByteOrder::Big => load_be32(&self.0),
        }
    }

    /// The stored bit pattern as this machine reads it.
    pub fn raw(self) -> (r: u32)
        ensures
            r == self.pattern(ByteOrder::Little) || r == self.pattern(ByteOrder::Big),
    {
        self.raw_on(ByteOrder::host())
    }

    /// The wrapper made of a native value stands for that value, and the value comes out of
    /// it unchanged.
    pub proof fn lemma_round_trip(x: u32)
        ensures
            <be32 as vstd::std_specs::convert::FromSpec<u32>>::from_spec(x)@ == x,
            <u32 as vstd::std_specs::convert::FromSpec<be32>>::from_spec(
                <be32 as vstd::std_specs::convert::FromSpec<u32>>::from_spec(x),
            ) == x,
    {
        lemma_bytes_value32(x);
    }

    /// On a big-endian host the stored pattern of `x` is `x` itself, on any other its byte
    /// swap.
    pub proof fn lemma_stored_pattern(x: u32, host: ByteOrder)
        ensures
            <be32 as vstd::std_specs::convert::FromSpec<u32>>::from_spec(x).pattern(host) == (if host
                == ByteOrder::Big {
                x
            } else {
                swap32(x)
            }),
    {
        lemma_bytes_value32(x);
    }
}

impl From<u32> for be32 {
    #[inline(always)]
    fn from(v: u32) -> (r: Self)
        ensures
            r@ == v,
    {
        proof {
            lemma_bytes_value32(v);
        }
        be32(store_be32(v))
    }
}

impl vstd::std_specs::convert::FromSpecImpl<u32> for be32 {
    open spec fn obeys_from_spec() -> bool {
        true
    }

    closed spec fn from_spec(v: u32) -> Self {
        be32(be_bytes32(v))
    }
}

impl From<be32> for u32 {
    #[inline(always)]
    fn from(v: be32) -> (r: u32)
        ensures
            r == v@,
    {
        load_be32(&v.0)
    }
}

impl vstd::std_specs::convert::FromSpecImpl<be32> for u32 {
    open spec fn obeys_from_spec() -> bool {
        true
    }

    open spec fn from_spec(v: be32) -> Self {
        v@
    }
}

impl Default for be32 {
    fn default() -> (r: Self)
        ensures
            r@ == 0,
    {
        let r = be32([0, 0, 0, 0]);
        assert((0u32 << 24) | (0u32 << 16) | (0u32 << 8) | 0u32 == 0) by (bit_vector);
        r
    }
}

/// big-endian integer
#[allow(non_camel_case_types)]
#[derive(Clone, Copy)]
pub struct be16([u8; 2]);

impl View for be16 {
    type V = u16;

    /// The native value that the stored bytes stand for.
    closed spec fn view(&self) -> u16 {
        be_value16(self.0@)
    }
}

impl be16 {
    /// What a host of byte order `host` reads from the memory of this value.
    pub open spec fn pattern(self, host: ByteOrder) -> u16 {
        stored16(ByteOrder::Big, host, self@)
    }

    /// The stored bit pattern as a host of byte order `host` reads it.
    pub fn raw_on(self, host: ByteOrder) -> (r: u16)
        ensures
            r == self.pattern(host),
    {
        proof {
            lemma_value_swap16(self.0@);
        }
        match host {
            ByteOrder::Little => load_le16(&self.0),
            ByteOrder::Big => load_be16(&self.0),
        }
    }

    /// The stored bit pattern as this machine reads it.
    pub fn raw(self) -> (r: u16)
        ensures
            r == self.pattern(ByteOrder::Little) || r == self.pattern(ByteOrder::Big),
    {
        self.raw_on(ByteOrder::host())
    }

    /// The wrapper made of a native value stands for that value, and the value comes out of
    /// it unchanged.
    pub proof fn lemma_round_trip(x: u16)
        ensures
            <be16 as vstd::std_specs::convert::FromSpec<u16>>::from_spec(x)@ == x,
            <u16 as vstd::std_specs::convert::FromSpec<be16>>::from_spec(
                <be16 as vstd::std_specs::convert::FromSpec<u16>>::from_spec(x),
            ) == x,
    {
        lemma_bytes_value16(x);
    }

    /// On a big-endian host the stored pattern of `x` is `x` itself, on any other its byte
    /// swap.
    pub proof fn lemma_stored_pattern(x: u16, host: ByteOrder)
        ensures
            <be16 as vstd::std_specs::convert::FromSpec<u16>>::from_spec(x).pattern(host) == (if host
                == ByteOrder::Big {
                x
            } else {
                swap16(x)
            }),
    {
        lemma_bytes_value16(x);
    }
}

impl From<u16> for be16 {
    #[inline(always)]
    fn from(v: u16) -> (r: Self)
        ensures
            r@ == v,
    {
        proof {
            lemma_bytes_value16(v);
        }
        be16(store_be16(v))
    }
}

impl vstd::std_specs::convert::FromSpecImpl<u16> for be16 {
    open spec fn obeys_from_spec() -> bool {
        true
    }

    closed spec fn from_spec(v: u16) -> Self {
        be16(be_bytes16(v))
    }
}

impl From<be16> for u16 {
    #[inline(always)]
    fn from(v: be16) -> (r: u16)
        ensures
            r == v@,
    {
        load_be16(&v.0)
    }
}

impl vstd::std_specs::convert::FromSpecImpl<be16> for u16 {
    open spec fn obeys_from_spec() -> bool {
        true
    }

    open spec fn from_spec(v: be16) -> Self {
        v@
    }
}

impl Default for be16 {
    fn default() -> (r: Self)
        ensures
            r@ == 0,
    {
        let r = be16([0, 0]);
        assert((0u16 << 8) | 0u16 == 0) by (bit_vector);
        r
    }
}

} // verus!
