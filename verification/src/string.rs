use vstd::prelude::*;
use vstd::string::StringSliceAdditionalSpecFns;
use vstd::utf8::{
    decode_utf8, decode_utf8_encode_utf8, encode_utf8, encode_utf8_decode_utf8,
    encode_utf8_valid_utf8, valid_utf8,
};

use crate::error::Error;
use crate::trusted::{
    bytes_len, bytes_mut_view, bytes_mut_with_capacity, bytes_view, first_byte,
    from_utf8_error_detail, freeze, get_u16, get_u32, get_u8, put_slice, put_u16, put_u32, put_u8,
    split_to, string_from_utf8, to_vec,
};
use crate::wire::{
    classify, classify_marker, declared_len, frame_complete, frame_len, frame_payload,
    header_len_for, header_of, is_string_marker, lemma_wire_round_trip, wire_of, SizeClass, LARGE,
    MAX_LEN, MEDIUM, SMALL, TINY,
};

verus! {

/// An owned text value, exposed to the codec by its UTF-8 bytes.
#[derive(Debug, Clone, PartialEq, Eq, Hash)]
pub struct BoltString {
    pub value: String,
}

impl View for BoltString {
    type V = Seq<char>;

    open spec fn view(&self) -> Seq<char> {
        self.value@
    }
}

/// Whether a buffer that starts with the given bytes begins a value of this
/// kind: true exactly when its first byte is a recognised marker. Consumes
/// nothing.
pub fn is_present(input: &bytes::Bytes) -> (r: bool)
    requires
        bytes_view(*input).len() >= 1,
    ensures
        r == is_string_marker(bytes_view(*input)[0]),
{
    proof {
        assert((TINY | 0x0F) == 0x8F) by (bit_vector);
    }
    let marker = first_byte(input);
    (TINY <= marker && marker <= (TINY | 0x0F)) || marker == SMALL || marker == MEDIUM || marker
        == LARGE
}

impl BoltString {
    /// Builds a text value holding the given characters.
    pub fn new(value: &str) -> (r: Self)
        ensures
            r.value@ == value@,
    {
        BoltString { value: value.to_owned() }
    }

    /// Encodes this value: the marker, the minimal size field, then the raw
    /// UTF-8 bytes verbatim. Fails exactly when no size class can represent
    /// the byte length, or the whole frame cannot fit the host's size type.
    pub fn try_into_bytes(&self) -> (r: Result<bytes::Bytes, Error>)
        ensures
            ({
                let p = encode_utf8(self.value@);
                &&& (p.len() <= MAX_LEN && p.len() + 5 <= usize::MAX ==> (r matches Ok(b)
                    && bytes_view(b) == wire_of(p)))
                &&& (!(p.len() <= MAX_LEN && p.len() + 5 <= usize::MAX) ==> r == Err::<
                    bytes::Bytes,
                    Error,
                >(Error::StringTooLong))
            }),
    {
        let payload: &[u8] = self.value.as_str().as_bytes();
        let n: usize = payload.len();
        let class = match classify(n) {
            Ok(c) => c,
            Err(_) => {
                return Err(Error::StringTooLong);
            },
        };
        if usize::MAX - n < 5 {
            return Err(Error::StringTooLong);
        }
        let mut buf = bytes_mut_with_capacity(1 + 4 + n);
        match class {
            SizeClass::Tiny => {
                put_u8(&mut buf, TINY | (n as u8));
            },
            SizeClass::Small => {
                put_u8(&mut buf, SMALL);
                put_u8(&mut buf, n as u8);
            },
            SizeClass::Medium => {
                put_u8(&mut buf, MEDIUM);
                put_u16(&mut buf, n as u16);
            },
            SizeClass::Large => {
                put_u8(&mut buf, LARGE);
                put_u32(&mut buf, n as u32);
            },
        }
        proof {
            assert(bytes_mut_view(buf) =~= header_of(n as nat));
        }
        put_slice(&mut buf, payload);
        proof {
            assert(bytes_mut_view(buf) =~= wire_of(encode_utf8(self.value@)));
        }
        Ok(freeze(buf))
    }

    /// Decodes one value from the front of the cursor: reads the marker,
    /// matches its size class, reads the size field, consumes exactly the
    /// declared payload and validates it as UTF-8. Each failure is pinned to
    /// its inputs: a short buffer underflows, an unrecognised first byte is an
    /// invalid marker with nothing past it consumed, and an ill-formed
    /// payload is a deserialization error.
    pub fn try_from_bytes(input: &mut bytes::Bytes) -> (r: Result<BoltString, Error>)
        ensures
            bytes_view(*old(input)).len() == 0 ==> r == Err::<BoltString, Error>(
                Error::CursorUnderflow,
            ) && bytes_view(*final(input)) == bytes_view(*old(input)),
            ({
                let d = bytes_view(*old(input));
                d.len() >= 1 && !is_string_marker(d[0]) ==> r == Err::<BoltString, Error>(
                    Error::InvalidTypeMarker { marker: d[0] },
                ) && bytes_view(*final(input)) == d.skip(1)
            }),
            ({
                let d = bytes_view(*old(input));
                d.len() >= 1 && is_string_marker(d[0]) && d.len() < header_len_for(d[0]) ==> r
                    == Err::<BoltString, Error>(Error::CursorUnderflow) && bytes_view(
                    *final(input),
                ) == d.skip(1)
            }),
            ({
                let d = bytes_view(*old(input));
                d.len() >= header_len_for(d[0]) && d.len() >= 1 && is_string_marker(d[0])
                    && d.len() < header_len_for(d[0]) + declared_len(d) ==> r == Err::<
                    BoltString,
                    Error,
                >(Error::CursorUnderflow) && bytes_view(*final(input)) == d.skip(
                    header_len_for(d[0]) as int,
                )
            }),
            ({
                let d = bytes_view(*old(input));
                frame_complete(d) ==> {
                    &&& bytes_view(*final(input)) == d.skip(frame_len(d) as int)
                    &&& (r is Ok <==> valid_utf8(frame_payload(d)))
                    &&& (r matches Ok(s) ==> s.value@ == decode_utf8(frame_payload(d))
                        && encode_utf8(s.value@) == frame_payload(d))
                    &&& (r matches Err(e) ==> e is DeserializationError)
                }
            }),
    {
        let ghost d: Seq<u8> = bytes_view(*input);
        if bytes_len(input) < 1 {
            return Err(Error::CursorUnderflow);
        }
        let marker = get_u8(input);
        let class = match classify_marker(marker) {
            Ok(c) => c,
            Err(e) => {
                return Err(e);
            },
        };
        let length: usize = match class {
            SizeClass::Tiny => (marker & 0x0F) as usize,
            SizeClass::Small => {
                if bytes_len(input) < 1 {
                    return Err(Error::CursorUnderflow);
                }
                get_u8(input) as usize
            },
            SizeClass::Medium => {
                if bytes_len(input) < 2 {
                    return Err(Error::CursorUnderflow);
                }
                proof {
                    assert(d.skip(1).skip(2) =~= d.skip(3));
                }
                get_u16(input) as usize
            },
            SizeClass::Large => {
                if bytes_len(input) < 4 {
                    return Err(Error::CursorUnderflow);
                }
                proof {
                    assert(d.skip(1).skip(4) =~= d.skip(5));
                }
                get_u32(input) as usize
            },
        };
        proof {
            assert(length as nat == declared_len(d));
            assert(bytes_view(*input) =~= d.skip(header_len_for(d[0]) as int));
        }
        if bytes_len(input) < length {
            return Err(Error::CursorUnderflow);
        }
        let taken = split_to(input, length);
        let payload: Vec<u8> = to_vec(&taken);
        proof {
            assert(payload@ =~= frame_payload(d));
            assert(bytes_view(*input) =~= d.skip(frame_len(d) as int));
        }
        match string_from_utf8(payload) {
            Ok(value) => {
                proof {
                    decode_utf8_encode_utf8(frame_payload(d));
                }
                Ok(BoltString { value })
            },
            Err(e) => Err(Error::DeserializationError { detail: from_utf8_error_detail(&e) }),
        }
    }
}

/// Round trip: decoding an encoding gives back the original text, for every
/// value whose frame is representable at all.
pub fn encode_then_decode(v: &BoltString) -> (r: Result<BoltString, Error>)
    ensures
        ({
            let p = encode_utf8(v.value@);
            &&& (p.len() <= MAX_LEN && p.len() + 5 <= usize::MAX ==> (r matches Ok(w) && w.value@
                == v.value@))
            &&& (!(p.len() <= MAX_LEN && p.len() + 5 <= usize::MAX) ==> r == Err::<
                BoltString,
                Error,
            >(Error::StringTooLong))
        }),
{
    let mut encoded = match v.try_into_bytes() {
        Ok(b) => b,
        Err(e) => {
            return Err(e);
        },
    };
    proof {
        let p = encode_utf8(v.value@);
        if p.len() <= MAX_LEN && p.len() + 5 <= usize::MAX {
            lemma_wire_round_trip(p);
            encode_utf8_valid_utf8(v.value@);
            encode_utf8_decode_utf8(v.value@);
        }
    }
    BoltString::try_from_bytes(&mut encoded)
}

} // verus!
