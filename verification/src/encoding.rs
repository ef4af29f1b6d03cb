//! UTF-8 validation of the raw bytes the engine hands back for a string
//! value, and their conversion into an owned string.
//!
//! The engine stores string contents as raw bytes; this layer guarantees
//! its callers an owned, valid string, so the bytes are validated here —
//! by a verified validator proved against the mathematical UTF-8 grammar —
//! before conversion.

use vstd::prelude::*;
use vstd::utf8::*;

use crate::errors::ExtractionError;

verus! {

broadcast use vstd::seq::group_seq_axioms;

/// Decides whether `bytes` form a valid UTF-8 encoding.
pub fn check_utf8(bytes: &Vec<u8>) -> (b: bool)
    ensures
        b == valid_utf8(bytes@),
{
    let n = bytes.len();
    let mut i: usize = 0;
    while i < n
        invariant
            i <= n,
            n == bytes@.len(),
            partial_valid_utf8(bytes@, i as int),
        decreases n - i,
    {
        let ghost suffix = bytes@.subrange(i as int, n as int);
        let b0 = bytes[i];
        proof {
            assert(suffix[0] == bytes@[i as int]);
        }
        if b0 < 0x80 {
            proof {
                assert(is_leading_byte_width_1(suffix[0]));
                assert(valid_first_scalar(suffix));
                partial_valid_utf8_extend(bytes@, i as int);
                assert(length_of_first_scalar(suffix) == 1);
            }
            i = i + 1;
        } else if 0xc0 <= b0 && b0 <= 0xdf {
            if n - i < 2 {
                proof {
                    assert(!valid_first_scalar(suffix));
                    partial_valid_partial_invalid_utf8(bytes@, i as int);
                }
                return false;
            }
            let b1 = bytes[i + 1];
            proof {
                assert(suffix[1] == bytes@[i + 1]);
            }
            if !(0x80 <= b1 && b1 <= 0xbf) {
                proof {
                    assert(!valid_first_scalar(suffix));
                    partial_valid_partial_invalid_utf8(bytes@, i as int);
                }
                return false;
            }
            let cp: u32 = (((b0 & 0x1f) as u32) << 6u32) | ((b1 & 0x3f) as u32);
            proof {
                assert(cp == codepoint_width_2(b0, b1));
                assert(decode_first_codepoint(suffix) == cp);
                assert(length_of_first_codepoint(suffix) == 2);
                assert(cp <= 0x7ff) by (bit_vector)
                    requires
                        cp == (((b0 & 0x1f) as u32) << 6u32) | ((b1 & 0x3f) as u32),
                ;
            }
            if cp < 0x80 {
                proof {
                    assert(!not_overlong_encoding(cp, 2));
                    assert(!valid_first_scalar(suffix));
                    partial_valid_partial_invalid_utf8(bytes@, i as int);
                }
                return false;
            }
            proof {
                assert(valid_first_scalar(suffix));
                partial_valid_utf8_extend(bytes@, i as int);
                assert(length_of_first_scalar(suffix) == 2);
            }
            i = i + 2;
        } else if 0xe0 <= b0 && b0 <= 0xef {
            if n - i < 3 {
                proof {
                    assert(!valid_first_scalar(suffix));
                    partial_valid_partial_invalid_utf8(bytes@, i as int);
                }
                return false;
            }
            let b1 = bytes[i + 1];
            let b2 = bytes[i + 2];
            proof {
                assert(suffix[1] == bytes@[i + 1]);
                assert(suffix[2] == bytes@[i + 2]);
            }
            if !(0x80 <= b1 && b1 <= 0xbf) || !(0x80 <= b2 && b2 <= 0xbf) {
                proof {
                    assert(!valid_first_scalar(suffix));
                    partial_valid_partial_invalid_utf8(bytes@, i as int);
                }
                return false;
            }
            let cp: u32 = (((b0 & 0x0f) as u32) << 12u32) | (((b1 & 0x3f) as u32) << 6u32) | ((b2
                & 0x3f) as u32);
            proof {
                assert(cp == codepoint_width_3(b0, b1, b2));
                assert(decode_first_codepoint(suffix) == cp);
                assert(length_of_first_codepoint(suffix) == 3);
            }
            if cp < 0x800 || (0xd800 <= cp && cp <= 0xdfff) {
                proof {
                    assert(!valid_first_scalar(suffix));
                    partial_valid_partial_invalid_utf8(bytes@, i as int);
                }
                return false;
            }
            proof {
                assert(valid_first_scalar(suffix));
                partial_valid_utf8_extend(bytes@, i as int);
                assert(length_of_first_scalar(suffix) == 3);
            }
            i = i + 3;
        } else if 0xf0 <= b0 && b0 <= 0xf7 {
            if n - i < 4 {
                proof {
                    assert(!valid_first_scalar(suffix));
                    partial_valid_partial_invalid_utf8(bytes@, i as int);
                }
                return false;
            }
            let b1 = bytes[i + 1];
            let b2 = bytes[i + 2];
            let b3 = bytes[i + 3];
            proof {
                assert(suffix[1] == bytes@[i + 1]);
                assert(suffix[2] == bytes@[i + 2]);
                assert(suffix[3] == bytes@[i + 3]);
            }
            if !(0x80 <= b1 && b1 <= 0xbf) || !(0x80 <= b2 && b2 <= 0xbf) || !(0x80 <= b3 && b3
                <= 0xbf) {
                proof {
                    assert(!valid_first_scalar(suffix));
                    partial_valid_partial_invalid_utf8(bytes@, i as int);
                }
                return false;
            }
            let cp: u32 = (((b0 & 0x07) as u32) << 18u32) | (((b1 & 0x3f) as u32) << 12u32) | (((
            b2 & 0x3f) as u32) << 6u32) | ((b3 & 0x3f) as u32);
            proof {
                assert(cp == codepoint_width_4(b0, b1, b2, b3));
                assert(decode_first_codepoint(suffix) == cp);
                assert(length_of_first_codepoint(suffix) == 4);
            }
            if cp < 0x10000 || cp > 0x10ffff {
                proof {
                    assert(!not_overlong_encoding(cp, 4));
                    assert(!valid_first_scalar(suffix));
                    partial_valid_partial_invalid_utf8(bytes@, i as int);
                }
                return false;
            }
            proof {
                assert(valid_first_scalar(suffix));
                partial_valid_utf8_extend(bytes@, i as int);
                assert(length_of_first_scalar(suffix) == 4);
            }
            i = i + 4;
        } else {
            proof {
                assert(!is_leading_byte_width_1(suffix[0]));
                assert(!is_leading_byte_width_2(suffix[0]));
                assert(!is_leading_byte_width_3(suffix[0]));
                assert(!is_leading_byte_width_4(suffix[0]));
                assert(!valid_first_scalar(suffix));
                partial_valid_partial_invalid_utf8(bytes@, i as int);
            }
            return false;
        }
    }
    proof {
        assert(bytes@.subrange(0, n as int) =~= bytes@);
    }
    true
}

/// Whether the UTF-8 encoding of a string contains a NUL byte — such a
/// string cannot cross a C-style boundary, which terminates it early.
pub open spec fn spec_has_nul(s: Seq<char>) -> bool {
    encode_utf8(s).contains(0u8)
}

/// Decides whether the UTF-8 encoding of `s` contains a NUL byte.
pub fn has_nul_byte(s: &str) -> (b: bool)
    ensures
        b == spec_has_nul(s@),
{
    let bytes = s.as_bytes();
    let n = bytes.len();
    let mut i: usize = 0;
    while i < n
        invariant
            i <= n,
            n == bytes@.len(),
            bytes@ == encode_utf8(s@),
            forall|j: int| 0 <= j < i ==> bytes@[j] != 0u8,
        decreases n - i,
    {
        if bytes[i] == 0 {
            proof {
                assert(bytes@.contains(0u8));
            }
            return true;
        }
        i = i + 1;
    }
    proof {
        assert(!bytes@.contains(0u8));
    }
    false
}

/// Relies on `String::from_utf8`: on input that is valid UTF-8 it returns
/// the string whose characters are the UTF-8 decoding of the bytes.
#[verifier::external_body]
fn string_from_valid_utf8(bytes: Vec<u8>) -> (r: String)
    requires
        valid_utf8(bytes@),
    ensures
        r@ == decode_utf8(bytes@),
{
    match String::from_utf8(bytes) {
        Ok(s) => s,
        Err(e) => String::new(),
    }
}

/// Turns the raw bytes of an engine string value into an owned string.
///
/// On valid UTF-8 input the result holds the exact byte-for-byte contents
/// the engine handed over; anything else is rejected as an encoding error,
/// never returned garbled.
pub fn decode_engine_string(bytes: Vec<u8>) -> (r: Result<String, ExtractionError>)
    ensures
        valid_utf8(bytes@) ==> (r matches Ok(s) && s@ == decode_utf8(bytes@) && encode_utf8(s@)
            == bytes@),
        !valid_utf8(bytes@) ==> (r matches Err(e) && e is InvalidEncoding),
{
    if check_utf8(&bytes) {
        let s = string_from_valid_utf8(bytes);
        proof {
            broadcast use decode_utf8_encode_utf8;

        }
        Ok(s)
    } else {
        Err(ExtractionError::InvalidEncoding)
    }
}

} // verus!
