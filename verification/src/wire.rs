use vstd::prelude::*;

use crate::error::Error;

verus! {

/// Marker byte of a Tiny value; its low nibble carries the length.
pub const TINY: u8 = 0x80;

/// Marker byte of a Small value: a 1-byte size field follows.
pub const SMALL: u8 = 0xD0;

/// Marker byte of a Medium value: a 2-byte big-endian size field follows.
pub const MEDIUM: u8 = 0xD1;

/// Marker byte of a Large value: a 4-byte big-endian size field follows.
pub const LARGE: u8 = 0xD2;

/// The largest payload byte length any size class can represent.
pub const MAX_LEN: u64 = 4_294_967_295;

/// The four size classes of the wire format, by growing size-field width.
#[derive(Debug, Clone, Copy, PartialEq, Eq)]
pub enum SizeClass {
    Tiny,
    Small,
    Medium,
    Large,
}

/// A marker byte of the Tiny class: the base marker with the length in the low nibble.
pub open spec fn is_tiny_marker(m: u8) -> bool {
    TINY <= m && m <= 0x8F
}

/// A first byte that begins a value of this kind, in any size class.
pub open spec fn is_string_marker(m: u8) -> bool {
    is_tiny_marker(m) || m == SMALL || m == MEDIUM || m == LARGE
}

/// The size class of a payload byte length that fits some class.
pub open spec fn class_of(len: nat) -> SizeClass {
    if len <= 15 {
        SizeClass::Tiny
    } else if len <= 255 {
        SizeClass::Small
    } else if len <= 65_535 {
        SizeClass::Medium
    } else {
        SizeClass::Large
    }
}

/// The width in bytes of a class's size field.
pub open spec fn class_width(c: SizeClass) -> nat {
    match c {
        SizeClass::Tiny => 0,
        SizeClass::Small => 1,
        SizeClass::Medium => 2,
        SizeClass::Large => 4,
    }
}

/// The largest payload length a class can carry.
pub open spec fn class_max_len(c: SizeClass) -> nat {
    match c {
        SizeClass::Tiny => 15,
        SizeClass::Small => 255,
        SizeClass::Medium => 65_535,
        SizeClass::Large => 4_294_967_295,
    }
}

/// Whether a class can carry a payload of the given length.
pub open spec fn class_fits(c: SizeClass, len: nat) -> bool {
    len <= class_max_len(c)
}

/// The two bytes of a 16-bit integer in big-endian order.
pub open spec fn be2(n: u16) -> Seq<u8> {
    seq![(n >> 8) as u8, n as u8]
}

/// The four bytes of a 32-bit integer in big-endian order.
pub open spec fn be4(n: u32) -> Seq<u8> {
    seq![(n >> 24) as u8, (n >> 16) as u8, (n >> 8) as u8, n as u8]
}

/// The 16-bit integer read from two bytes in big-endian order.
pub open spec fn u16_from_be(b0: u8, b1: u8) -> u16 {
    ((b0 as u16) << 8) | (b1 as u16)
}

/// The 32-bit integer read from four bytes in big-endian order.
pub open spec fn u32_from_be(b0: u8, b1: u8, b2: u8, b3: u8) -> u32 {
    ((b0 as u32) << 24) | ((b1 as u32) << 16) | ((b2 as u32) << 8) | (b3 as u32)
}

/// The marker byte and size field that precede a payload of the given length.
pub open spec fn header_of(len: nat) -> Seq<u8>
    recommends
        len <= MAX_LEN,
{
    match class_of(len) {
        SizeClass::Tiny => seq![TINY | (len as u8)],
        SizeClass::Small => seq![SMALL, len as u8],
        SizeClass::Medium => seq![MEDIUM] + be2(len as u16),
        SizeClass::Large => seq![LARGE] + be4(len as u32),
    }
}

/// The whole encoding of a payload: header, then the payload verbatim.
pub open spec fn wire_of(payload: Seq<u8>) -> Seq<u8>
    recommends
        payload.len() <= MAX_LEN,
{
    header_of(payload.len()) + payload
}

/// How many bytes the header occupies, marker included, for a given marker.
pub open spec fn header_len_for(m: u8) -> nat
    recommends
        is_string_marker(m),
{
    if is_tiny_marker(m) {
        1
    } else if m == SMALL {
        2
    } else if m == MEDIUM {
        3
    } else {
        5
    }
}

/// The payload length a buffer's header declares.
pub open spec fn declared_len(b: Seq<u8>) -> nat
    recommends
        b.len() >= 1,
        is_string_marker(b[0]),
        b.len() >= header_len_for(b[0]),
{
    let m = b[0];
    if is_tiny_marker(m) {
        (m & 0x0F) as nat
    } else if m == SMALL {
        b[1] as nat
    } else if m == MEDIUM {
        u16_from_be(b[1], b[2]) as nat
    } else {
        u32_from_be(b[1], b[2], b[3], b[4]) as nat
    }
}

/// Whether a buffer begins with a complete frame: a recognised marker, the
/// whole size field, and at least as many bytes as the header declares.
pub open spec fn frame_complete(b: Seq<u8>) -> bool {
    &&& b.len() >= 1
    &&& is_string_marker(b[0])
    &&& b.len() >= header_len_for(b[0])
    &&& b.len() >= header_len_for(b[0]) + declared_len(b)
}

/// How many bytes the frame at the front of a buffer occupies in all.
pub open spec fn frame_len(b: Seq<u8>) -> nat
    recommends
        frame_complete(b),
{
    header_len_for(b[0]) + declared_len(b)
}

/// The payload bytes of the frame at the front of a buffer.
pub open spec fn frame_payload(b: Seq<u8>) -> Seq<u8>
    recommends
        frame_complete(b),
{
    b.subrange(header_len_for(b[0]) as int, frame_len(b) as int)
}

/// Selects the size class of a payload byte length, or reports that no class
/// can represent it.
pub fn classify(len: usize) -> (r: Result<SizeClass, Error>)
    ensures
        len as int <= MAX_LEN as int ==> r == Ok::<SizeClass, Error>(class_of(len as nat)),
        len as int > MAX_LEN as int ==> r == Err::<SizeClass, Error>(Error::LengthOverflow),
{
    if len <= 15 {
        Ok(SizeClass::Tiny)
    } else if len <= 255 {
        Ok(SizeClass::Small)
    } else if len <= 65_535 {
        Ok(SizeClass::Medium)
    } else if len as u64 <= MAX_LEN {
        Ok(SizeClass::Large)
    } else {
        Err(Error::LengthOverflow)
    }
}

/// The size class a recognised marker byte announces.
pub open spec fn marker_class(m: u8) -> SizeClass
    recommends
        is_string_marker(m),
{
    if is_tiny_marker(m) {
        SizeClass::Tiny
    } else if m == SMALL {
        SizeClass::Small
    } else if m == MEDIUM {
        SizeClass::Medium
    } else {
        SizeClass::Large
    }
}

/// Classifies a marker byte, or reports that it belongs to no size class of
/// this value kind.
pub fn classify_marker(m: u8) -> (r: Result<SizeClass, Error>)
    ensures
        is_string_marker(m) ==> r == Ok::<SizeClass, Error>(marker_class(m)),
        !is_string_marker(m) ==> r == Err::<SizeClass, Error>(Error::InvalidTypeMarker { marker: m }),
{
    proof {
        assert((TINY | 0x0F) == 0x8F) by (bit_vector);
    }
    if TINY <= m && m <= (TINY | 0x0F) {
        Ok(SizeClass::Tiny)
    } else if m == SMALL {
        Ok(SizeClass::Small)
    } else if m == MEDIUM {
        Ok(SizeClass::Medium)
    } else if m == LARGE {
        Ok(SizeClass::Large)
    } else {
        Err(Error::InvalidTypeMarker { marker: m })
    }
}

/// Reading back an encoding recovers the original: the wire bytes of any
/// representable payload begin with a recognised marker, declare exactly the
/// payload's length, hold the payload verbatim after the header, and hold
/// nothing else.
pub proof fn lemma_wire_round_trip(payload: Seq<u8>)
    requires
        payload.len() <= MAX_LEN,
    ensures
        ({
            let w = wire_of(payload);
            &&& w.len() >= 1
            &&& is_string_marker(w[0])
            &&& header_len_for(w[0]) == header_of(payload.len()).len()
            &&& frame_complete(w)
            &&& declared_len(w) == payload.len()
            &&& frame_payload(w) == payload
            &&& frame_len(w) == w.len()
        }),
{
    let w = wire_of(payload);
    let len = payload.len();
    if len <= 15 {
        let l8 = len as u8;
        assert(l8 <= 15 ==> TINY <= (TINY | l8) && (TINY | l8) <= 0x8F && ((TINY | l8) & 0x0F)
            == l8) by (bit_vector);
        assert(w[0] == TINY | l8);
    } else if len <= 255 {
        assert(w[0] == SMALL && w[1] == len as u8);
        assert(!is_tiny_marker(SMALL));
    } else if len <= 65_535 {
        let n = len as u16;
        assert(u16_from_be((n >> 8) as u8, n as u8) == n) by (bit_vector);
        assert(w[0] == MEDIUM && w[1] == (n >> 8) as u8 && w[2] == n as u8);
    } else {
        let n = len as u32;
        assert(u32_from_be((n >> 24) as u8, (n >> 16) as u8, (n >> 8) as u8, n as u8)
            == n) by (bit_vector);
        assert(w[0] == LARGE && w[1] == (n >> 24) as u8 && w[2] == (n >> 16) as u8 && w[3] == (n
            >> 8) as u8 && w[4] == n as u8);
    }
    assert(frame_payload(w) =~= payload);
}

/// Minimality: the classifier picks the narrowest size field that fits the
/// length, the emitted header is exactly that wide, and every other class
/// that fits is at least as wide.
pub proof fn lemma_class_minimal(len: nat)
    requires
        len <= MAX_LEN,
    ensures
        class_fits(class_of(len), len),
        header_of(len).len() == 1 + class_width(class_of(len)),
        forall|c: SizeClass| class_fits(c, len) ==> class_width(class_of(len)) <= class_width(c),
{
    assert forall|c: SizeClass| class_fits(c, len) implies class_width(class_of(len))
        <= class_width(c) by {
        match c {
            SizeClass::Tiny => {},
            SizeClass::Small => {},
            SizeClass::Medium => {},
            SizeClass::Large => {},
        }
    }
}

} // verus!
