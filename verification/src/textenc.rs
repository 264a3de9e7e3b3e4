//! Text handling for the admission path: deciding whether a raw body is
//! valid text (the routing script only sees the body as text, and only
//! faults on it if it actually reads it), and ASCII lower-casing for the
//! case-insensitive header mapping.
use vstd::prelude::*;

use vstd::utf8::{
    decode_utf8, partial_valid_partial_invalid_utf8, partial_valid_utf8,
    partial_valid_utf8_extend, valid_first_scalar, valid_utf8,
};

verus! {

/// Byte-for-byte copy of a byte vector.
pub fn clone_bytes(v: &Vec<u8>) -> (r: Vec<u8>)
    ensures
        r@ == v@,
{
    let mut r: Vec<u8> = Vec::new();
    let mut i: usize = 0;
    while i < v.len()
        invariant
            i <= v@.len(),
            r@ == v@.subrange(0, i as int),
        decreases v@.len() - i,
    {
        r.push(v[i]);
        i = i + 1;
        proof {
            assert(r@ =~= v@.subrange(0, i as int));
        }
    }
    proof {
        assert(r@ =~= v@);
    }
    r
}

/// Decides whether `v` is a valid UTF-8 encoding, scanning one encoded
/// scalar at a time: each leading byte fixes a width, the following bytes
/// must be continuation bytes, and the decoded codepoint must be neither
/// an overlong encoding, nor a surrogate, nor beyond the last scalar.
pub fn utf8_ok(v: &[u8]) -> (r: bool)
    ensures
        r == valid_utf8(v@),
{
    let n = v.len();
    let mut i: usize = 0;
    while i < n
        invariant
            n == v@.len(),
            i <= n,
            partial_valid_utf8(v@, i as int),
        decreases n - i,
    {
        let ghost s = v@.subrange(i as int, n as int);
        proof {
            assert(s.len() == n - i);
            assert(forall|k: int| 0 <= k < s.len() ==> s[k] == v@[i + k]);
        }
        let b0 = v[i];
        if b0 <= 0x7f {
            proof {
                assert((b0 & 0x7f) == b0) by (bit_vector)
                    requires
                        b0 <= 0x7f,
                ;
                assert(valid_first_scalar(s));
                partial_valid_utf8_extend(v@, i as int);
            }
            i = i + 1;
        } else if b0 < 0xc0 {
            // a continuation byte cannot lead an encoding
            proof {
                assert(!valid_first_scalar(s));
                partial_valid_partial_invalid_utf8(v@, i as int);
            }
            return false;
        } else if b0 <= 0xdf {
            if n - i < 2 || !is_continuation(v[i + 1]) {
                proof {
                    assert(!valid_first_scalar(s));
                    partial_valid_partial_invalid_utf8(v@, i as int);
                }
                return false;
            }
            let b1 = v[i + 1];
            let cp: u32 = (((b0 & 0x1f) as u32) << 6) | ((b1 & 0x3f) as u32);
            if cp < 0x80 {
                // overlong two-byte encoding
                proof {
                    assert(!valid_first_scalar(s));
                    partial_valid_partial_invalid_utf8(v@, i as int);
                }
                return false;
            }
            proof {
                assert(cp <= 0x7ff) by (bit_vector)
                    requires
                        cp == (((b0 & 0x1f) as u32) << 6) | ((b1 & 0x3f) as u32),
                ;
                assert(valid_first_scalar(s));
                partial_valid_utf8_extend(v@, i as int);
            }
            i = i + 2;
        } else if b0 <= 0xef {
            if n - i < 3 || !is_continuation(v[i + 1]) || !is_continuation(v[i + 2]) {
                proof {
                    assert(!valid_first_scalar(s));
                    partial_valid_partial_invalid_utf8(v@, i as int);
                }
                return false;
            }
            let b1 = v[i + 1];
            let b2 = v[i + 2];
            let cp: u32 = (((b0 & 0x0f) as u32) << 12) | (((b1 & 0x3f) as u32) << 6) | ((b2
                & 0x3f) as u32);
            if cp < 0x800 || (0xd800 <= cp && cp <= 0xdfff) {
                // overlong three-byte encoding, or a surrogate
                proof {
                    assert(!valid_first_scalar(s));
                    partial_valid_partial_invalid_utf8(v@, i as int);
                }
                return false;
            }
            proof {
                assert(valid_first_scalar(s));
                partial_valid_utf8_extend(v@, i as int);
            }
            i = i + 3;
        } else if b0 <= 0xf7 {
            if n - i < 4 || !is_continuation(v[i + 1]) || !is_continuation(v[i + 2])
                || !is_continuation(v[i + 3]) {
                proof {
                    assert(!valid_first_scalar(s));
                    partial_valid_partial_invalid_utf8(v@, i as int);
                }
                return false;
            }
            let b1 = v[i + 1];
            let b2 = v[i + 2];
            let b3 = v[i + 3];
            let cp: u32 = (((b0 & 0x07) as u32) << 18) | (((b1 & 0x3f) as u32) << 12) | (((b2
                & 0x3f) as u32) << 6) | ((b3 & 0x3f) as u32);
            if cp < 0x10000 || cp > 0x10ffff {
                // overlong four-byte encoding, or beyond the last scalar
                proof {
                    assert(!valid_first_scalar(s));
                    partial_valid_partial_invalid_utf8(v@, i as int);
                }
                return false;
            }
            proof {
                assert(valid_first_scalar(s));
                partial_valid_utf8_extend(v@, i as int);
            }
            i = i + 4;
        } else {
            // 0xf8 and above lead no encoding
            proof {
                assert(!valid_first_scalar(s));
                partial_valid_partial_invalid_utf8(v@, i as int);
            }
            return false;
        }
    }
    proof {
        assert(v@.subrange(0, n as int) =~= v@);
    }
    true
}

/// Whether a byte has the continuation-byte form 10xxxxxx.
fn is_continuation(b: u8) -> (r: bool)
    ensures
        r == vstd::utf8::is_continuation_byte(b),
{
    0x80 <= b && b <= 0xbf
}

/// Relies on `String::from_utf8`: it accepts every valid UTF-8 vector and
/// returns the string of the scalars the vector encodes.
#[verifier::external_body]
fn string_from_utf8(v: Vec<u8>) -> (r: String)
    requires
        valid_utf8(v@),
    ensures
        r@ == decode_utf8(v@),
{
    match String::from_utf8(v) {
        Ok(s) => s,
        Err(_) => String::new(),
    }
}

/// A sequence of bytes all under 0x80 is valid UTF-8 and decodes byte by
/// byte.
pub proof fn lemma_ascii_decode(s: Seq<u8>)
    requires
        forall|i: int| 0 <= i < s.len() ==> s[i] < 0x80,
    ensures
        valid_utf8(s),
        decode_utf8(s).len() == s.len(),
        forall|i: int| 0 <= i < s.len() ==> decode_utf8(s)[i] == ((s[i] as u32) as char),
    decreases s.len(),
{
    if s.len() > 0 {
        let b = s[0];
        assert((b & 0x7f) == b) by (bit_vector)
            requires
                b < 0x80,
        ;
        assert(valid_first_scalar(s));
        assert(vstd::utf8::pop_first_scalar(s) =~= s.skip(1));
        lemma_ascii_decode(s.skip(1));
        assert forall|i: int| 0 <= i < s.len() implies decode_utf8(s)[i] == ((s[i] as u32) as char) by {
            if i > 0 {
                assert(decode_utf8(s)[i] == decode_utf8(s.skip(1))[i - 1]);
                assert(s.skip(1)[i - 1] == s[i]);
            }
        }
    }
}

/// The string holding a sequence of plain ASCII bytes, one character per
/// byte.
pub(crate) fn string_of_ascii_bytes(v: &Vec<u8>) -> (r: String)
    requires
        forall|i: int| 0 <= i < v@.len() ==> v@[i] < 0x80,
    ensures
        r@ == decode_utf8(v@),
{
    proof {
        lemma_ascii_decode(v@);
    }
    string_from_utf8(clone_bytes(v))
}

/// The body reinterpreted as text: the decoded string when the bytes are
/// valid UTF-8, and nothing otherwise.
pub fn body_text(bytes: &Vec<u8>) -> (r: Option<String>)
    ensures
        (r is Some) == valid_utf8(bytes@),
        r matches Some(s) ==> s@ == decode_utf8(bytes@),
{
    if utf8_ok(bytes.as_slice()) {
        Some(string_from_utf8(clone_bytes(bytes)))
    } else {
        None
    }
}

/// A character with an ASCII lower-case letter mapped to its upper-case
/// counterpart, and anything else left alone.
pub open spec fn upper_char(c: char) -> char {
    if 'a' <= c && c <= 'z' {
        ((c as u32) - 32) as char
    } else {
        c
    }
}

/// Each character upper-cased as in [`upper_char`].
pub open spec fn upper_chars(s: Seq<char>) -> Seq<char> {
    Seq::new(s.len(), |i: int| upper_char(s[i]))
}

/// How a method name is normalized: every ASCII letter upper-cased, any
/// other character kept as it is.
pub open spec fn upper_key(s: Seq<char>) -> Seq<char> {
    upper_chars(s)
}

/// A character with an ASCII upper-case letter mapped to its lower-case
/// counterpart, and anything else left alone.
pub open spec fn lower_char(c: char) -> char {
    if 'A' <= c && c <= 'Z' {
        ((c as u32) + 32) as char
    } else {
        c
    }
}

/// Each character lower-cased as in [`lower_char`].
pub open spec fn lower_chars(s: Seq<char>) -> Seq<char> {
    Seq::new(s.len(), |i: int| lower_char(s[i]))
}

/// How a header key is normalized: every ASCII letter lower-cased, any
/// other character kept as it is.
pub open spec fn lower_key(s: Seq<char>) -> Seq<char> {
    lower_chars(s)
}

/// Lower-casing an ASCII letter takes it out of the upper-case range.
proof fn lemma_lower_char_idempotent(c: char)
    ensures
        lower_char(lower_char(c)) == lower_char(c),
{
    if 'A' <= c && c <= 'Z' {
        let u = (c as u32) + 32;
        assert(0x61 <= u <= 0x7a);
        assert(((u as char) as u32) == u);
    }
}

/// Lower-casing a key twice is the same as lower-casing it once.
pub proof fn lemma_lower_key_idempotent(s: Seq<char>)
    ensures
        lower_key(lower_key(s)) == lower_key(s),
{
    assert forall|i: int| 0 <= i < s.len() implies lower_char(
        #[trigger] lower_chars(s)[i],
    ) == lower_chars(s)[i] by {
        lemma_lower_char_idempotent(s[i]);
    }
    assert(lower_chars(lower_chars(s)) =~= lower_chars(s));
}

/// One byte of a UTF-8 encoding under ASCII casing: letter bytes are
/// cased, every other byte is kept. An ASCII letter is always a single
/// byte of the encoding, and every byte of a longer encoding is 0x80 or
/// above, so this cases exactly the ASCII letters of the text.
pub open spec fn case_byte(b: u8, up: bool) -> u8 {
    if up {
        if 0x61 <= b && b <= 0x7a {
            (b - 32) as u8
        } else {
            b
        }
    } else {
        if 0x41 <= b && b <= 0x5a {
            (b + 32) as u8
        } else {
            b
        }
    }
}

/// One character under ASCII casing, in the chosen direction.
pub open spec fn case_char(c: char, up: bool) -> char {
    if up {
        upper_char(c)
    } else {
        lower_char(c)
    }
}

/// A byte sequence under ASCII casing, byte by byte.
pub open spec fn case_bytes(s: Seq<u8>, up: bool) -> Seq<u8> {
    Seq::new(s.len(), |i: int| case_byte(s[i], up))
}

/// Casing the single byte of an ASCII character cases the character.
proof fn lemma_case_ascii_char(b: u8, up: bool)
    requires
        b < 0x80,
    ensures
        case_byte(b, up) < 0x80,
        ((case_byte(b, up) as u32) as char) == case_char(((b as u32) as char), up),
{
    let c = ((b as u32) as char);
    assert((c as u32) == b as u32);
    if up {
        if 0x61 <= b && b <= 0x7a {
            assert((case_byte(b, up) as u32) == (c as u32) - 32);
        }
    } else {
        if 0x41 <= b && b <= 0x5a {
            assert((case_byte(b, up) as u32) == (c as u32) + 32);
        }
    }
}

/// Casing the bytes of a valid UTF-8 encoding keeps it valid and cases
/// the decoded characters one by one: a letter's single byte is cased in
/// place, and a longer encoding, all of whose bytes are 0x80 or above,
/// decodes to a character beyond the letters and is untouched.
proof fn lemma_case_bytes_decode(s: Seq<u8>, up: bool)
    requires
        valid_utf8(s),
    ensures
        valid_utf8(case_bytes(s, up)),
        decode_utf8(case_bytes(s, up)).len() == decode_utf8(s).len(),
        forall|i: int|
            0 <= i < decode_utf8(s).len() ==> decode_utf8(case_bytes(s, up))[i] == case_char(
                decode_utf8(s)[i],
                up,
            ),
    decreases s.len(),
{
    if s.len() > 0 {
        let t = case_bytes(s, up);
        let w = vstd::utf8::length_of_first_scalar(s);
        let rest = vstd::utf8::pop_first_scalar(s);
        assert(valid_first_scalar(s));
        if vstd::utf8::is_leading_byte_width_1(s[0]) {
            let b = s[0];
            let b2 = t[0];
            lemma_case_ascii_char(b, up);
            assert(b2 == case_byte(b, up));
            assert((b & 0x7f) == b) by (bit_vector)
                requires
                    b <= 0x7f,
            ;
            assert((b2 & 0x7f) == b2) by (bit_vector)
                requires
                    b2 <= 0x7f,
            ;
            assert(valid_first_scalar(t));
            assert(vstd::utf8::length_of_first_scalar(t) == 1);
            assert((vstd::utf8::decode_first_scalar(t) as char) == case_char(
                (vstd::utf8::decode_first_scalar(s) as char),
                up,
            ));
        } else {
            // the leading byte is 0xc0 or above and the continuation
            // bytes 0x80 or above: casing changes none of them
            assert(t[0] == s[0]);
            if vstd::utf8::is_leading_byte_width_2(s[0]) {
                assert(t[1] == s[1]);
            } else if vstd::utf8::is_leading_byte_width_3(s[0]) {
                assert(t[1] == s[1] && t[2] == s[2]);
            } else {
                assert(t[1] == s[1] && t[2] == s[2] && t[3] == s[3]);
            }
            assert(vstd::utf8::valid_leading_and_continuation_bytes_first_codepoint(t));
            assert(vstd::utf8::decode_first_codepoint(t) == vstd::utf8::decode_first_codepoint(
                s,
            ));
            assert(vstd::utf8::length_of_first_scalar(t) == w);
            assert(valid_first_scalar(t));
            // the decoded character lies beyond the ASCII letters
            vstd::utf8::decode_utf8_first_scalar(s);
            let c = (vstd::utf8::decode_first_scalar(s) as char);
            let u = c as u32;
            if u < 0x80 {
                assert(vstd::utf8::encode_scalar(u).len() == 1);
                assert(vstd::utf8::take_first_scalar(s).len() == w);
                assert(false);
            }
            assert(case_char(c, up) == c);
            assert((vstd::utf8::decode_first_scalar(t) as char) == c);
        }
        assert(vstd::utf8::pop_first_scalar(t) =~= case_bytes(rest, up));
        lemma_case_bytes_decode(rest, up);
        assert(valid_utf8(t));
        let dt = decode_utf8(t);
        let ds = decode_utf8(s);
        assert(dt == seq![(vstd::utf8::decode_first_scalar(t) as char)] + decode_utf8(
            vstd::utf8::pop_first_scalar(t),
        ));
        assert(ds == seq![(vstd::utf8::decode_first_scalar(s) as char)] + decode_utf8(rest));
        assert forall|i: int| 0 <= i < ds.len() implies dt[i] == case_char(ds[i], up) by {
            if i > 0 {
                assert(dt[i] == decode_utf8(case_bytes(rest, up))[i - 1]);
                assert(ds[i] == decode_utf8(rest)[i - 1]);
            }
        }
    }
}

/// Cases every ASCII letter of a string in the chosen direction, keeping
/// all other characters.
fn case_ascii_str(s: &str, up: bool) -> (r: String)
    ensures
        r@.len() == s@.len(),
        forall|i: int| 0 <= i < s@.len() ==> r@[i] == case_char(s@[i], up),
{
    proof {
        vstd::utf8::encode_utf8_valid_utf8(s@);
        vstd::utf8::encode_utf8_decode_utf8(s@);
    }
    let b = s.as_bytes();
    let n = b.len();
    let mut out: Vec<u8> = Vec::new();
    let mut i: usize = 0;
    while i < n
        invariant
            n == b@.len(),
            i <= n,
            out@.len() == i,
            forall|k: int| 0 <= k < i ==> out@[k] == case_byte(b@[k], up),
        decreases n - i,
    {
        let x = b[i];
        let y: u8 = if up {
            if 0x61 <= x && x <= 0x7a {
                x - 32
            } else {
                x
            }
        } else {
            if 0x41 <= x && x <= 0x5a {
                x + 32
            } else {
                x
            }
        };
        out.push(y);
        i = i + 1;
    }
    proof {
        assert(out@ =~= case_bytes(b@, up));
        lemma_case_bytes_decode(b@, up);
    }
    string_from_utf8(out)
}

/// Lower-cases every ASCII letter of a string, keeping all other
/// characters (non-ASCII characters included) as they are.
pub fn ascii_lower(s: &str) -> (r: String)
    ensures
        r@ == lower_key(s@),
{
    let r = case_ascii_str(s, false);
    proof {
        assert(r@ =~= lower_chars(s@));
    }
    r
}

/// Upper-cases every ASCII letter of a string, keeping all other
/// characters (non-ASCII characters included) as they are.
pub fn ascii_upper(s: &str) -> (r: String)
    ensures
        r@ == upper_key(s@),
{
    let r = case_ascii_str(s, true);
    proof {
        assert(r@ =~= upper_chars(s@));
    }
    r
}

} // verus!
