//! Rendering of diagnostic values for the output shim the scripting host
//! installs over the script's `print`: every value category is rendered to
//! one token, the tokens of one call are joined into a single
//! human-readable line, and the line is routed to the host's logger.
use vstd::prelude::*;

use vstd::utf8::decode_utf8;

verus! {

/// One diagnostic value as the shim sees it, reduced to plain data: what
/// the script printed, with reference-like values already reduced to their
/// identity tokens and a float already rendered (floats never enter the
/// verified pipeline).
pub enum DiagValue {
    Nil,
    Boolean(bool),
    Integer(i64),
    Number(String),
    Text(String),
    Table(String),
    Callable(String),
    LightUserData,
    Thread,
    UserData,
    Error(String),
    Opaque,
}

/// The decimal digit character for `d`.
pub open spec fn digit_char(d: int) -> char {
    ((48 + d) as u32) as char
}

/// The decimal digits of a non-negative number, most significant first.
pub open spec fn dec_digits(n: int) -> Seq<char>
    decreases n,
{
    if n < 10 {
        seq![digit_char(if n < 0 {
            0
        } else {
            n
        })]
    } else {
        dec_digits(n / 10) + seq![digit_char(n % 10)]
    }
}

/// A number rendered in decimal, with a leading minus sign when negative.
pub open spec fn int_text(n: int) -> Seq<char> {
    if n >= 0 {
        dec_digits(n)
    } else {
        seq!['-'] + dec_digits(-n)
    }
}

/// The token one diagnostic value renders to.
pub open spec fn diag_text(v: DiagValue) -> Seq<char> {
    match v {
        DiagValue::Nil => "nil"@,
        DiagValue::Boolean(b) => if b {
            "true"@
        } else {
            "false"@
        },
        DiagValue::Integer(i) => int_text(i as int),
        DiagValue::Number(s) => s@,
        DiagValue::Text(s) => s@,
        DiagValue::Table(p) => "(table: "@ + p@ + ")"@,
        DiagValue::Callable(i) => "(function: "@ + i@ + ")"@,
        DiagValue::LightUserData => "(LightUserData)"@,
        DiagValue::Thread => "(Thread)"@,
        DiagValue::UserData => "(UserData)"@,
        DiagValue::Error(e) => "(error: "@ + e@ + ")"@,
        DiagValue::Opaque => "(unknown)"@,
    }
}

/// The tokens of one `print` call joined with single spaces.
pub open spec fn line_text(vs: Seq<DiagValue>) -> Seq<char>
    decreases vs.len(),
{
    if vs.len() == 0 {
        Seq::empty()
    } else if vs.len() == 1 {
        diag_text(vs[0])
    } else {
        diag_text(vs[0]) + " "@ + line_text(vs.drop_first())
    }
}

/// The bytes as characters, one character per byte.
pub open spec fn byte_chars(s: Seq<u8>) -> Seq<char> {
    Seq::new(s.len(), |i: int| ((s[i] as u32) as char))
}

/// Renders a number in decimal, as the script would see it printed.
pub fn i64_text(n: i64) -> (r: String)
    ensures
        r@ == int_text(n as int),
{
    let neg = n < 0;
    let mut m: u64 = if n >= 0 {
        n as u64
    } else {
        ((-(n + 1)) as u64) + 1
    };
    let ghost mag: int = m as int;
    proof {
        if n >= 0 {
            assert(mag == n as int);
        } else {
            assert(mag == -(n as int));
        }
    }
    let mut buf: Vec<u8> = Vec::new();
    while m >= 10
        invariant
            dec_digits(mag) =~= dec_digits(m as int) + byte_chars(buf@),
            forall|k: int| 0 <= k < buf@.len() ==> 0x30 <= #[trigger] buf@[k] <= 0x39,
        decreases m,
    {
        let d: u8 = (m % 10) as u8 + 0x30;
        let ghost before = buf@;
        buf.insert(0, d);
        proof {
            assert(buf@ =~= seq![d] + before);
            assert((d as u32) == 48 + ((m as int) % 10));
            assert(byte_chars(buf@) =~= seq![digit_char((m as int) % 10)] + byte_chars(before));
            assert(dec_digits(m as int) == dec_digits((m as int) / 10) + seq![
                digit_char((m as int) % 10),
            ]);
            assert(dec_digits(mag) =~= dec_digits((m as int) / 10) + byte_chars(
                seq![d] + before,
            ));
        }
        m = m / 10;
    }
    let d: u8 = (m as u8) + 0x30;
    let ghost before = buf@;
    buf.insert(0, d);
    proof {
        assert(buf@ =~= seq![d] + before);
        assert((d as u32) == 48 + (m as int));
        assert(dec_digits(m as int) =~= seq![digit_char(m as int)]);
        assert(byte_chars(buf@) =~= dec_digits(m as int) + byte_chars(before));
        assert(byte_chars(buf@) =~= dec_digits(mag));
    }
    if neg {
        let ghost digits = buf@;
        buf.insert(0, 0x2d);
        proof {
            assert(buf@ =~= seq![0x2du8] + digits);
            assert(((0x2du8 as u32) as char) == '-');
            assert(byte_chars(buf@) =~= seq!['-'] + byte_chars(digits));
        }
    }
    proof {
        crate::textenc::lemma_ascii_decode(buf@);
        assert(decode_utf8(buf@) =~= byte_chars(buf@));
        assert(byte_chars(buf@) =~= int_text(n as int));
    }
    crate::textenc::string_of_ascii_bytes(&buf)
}

/// Renders one diagnostic value to its token.
pub fn render_diag(v: &DiagValue) -> (r: String)
    ensures
        r@ == diag_text(*v),
{
    match v {
        DiagValue::Nil => String::from_str("nil"),
        DiagValue::Boolean(b) => {
            if *b {
                String::from_str("true")
            } else {
                String::from_str("false")
            }
        },
        DiagValue::Integer(i) => i64_text(*i),
        DiagValue::Number(s) => s.clone(),
        DiagValue::Text(s) => s.clone(),
        DiagValue::Table(p) => String::from_str("(table: ").concat(p.as_str()).concat(")"),
        DiagValue::Callable(i) => String::from_str("(function: ").concat(i.as_str()).concat(")"),
        DiagValue::LightUserData => String::from_str("(LightUserData)"),
        DiagValue::Thread => String::from_str("(Thread)"),
        DiagValue::UserData => String::from_str("(UserData)"),
        DiagValue::Error(e) => String::from_str("(error: ").concat(e.as_str()).concat(")"),
        DiagValue::Opaque => String::from_str("(unknown)"),
    }
}

/// Joining one more token onto a rendered line.
proof fn lemma_line_text_push(vs: Seq<DiagValue>, x: DiagValue)
    ensures
        vs.len() == 0 ==> line_text(vs + seq![x]) == diag_text(x),
        vs.len() > 0 ==> line_text(vs + seq![x]) == line_text(vs) + " "@ + diag_text(x),
    decreases vs.len(),
{
    let whole = vs + seq![x];
    if vs.len() == 0 {
        assert(whole =~= seq![x]);
        assert(line_text(whole) == diag_text(x));
    } else {
        lemma_line_text_push(vs.drop_first(), x);
        assert(whole.drop_first() =~= vs.drop_first() + seq![x]);
        assert(whole[0] == vs[0]);
        if vs.len() == 1 {
            assert(vs.drop_first().len() == 0);
            assert(line_text(whole) == diag_text(vs[0]) + " "@ + diag_text(x));
            assert(line_text(vs) == diag_text(vs[0]));
        } else {
            assert(line_text(whole) == diag_text(vs[0]) + " "@ + line_text(whole.drop_first()));
            assert(line_text(whole.drop_first()) == line_text(vs.drop_first()) + " "@ + diag_text(
                x,
            ));
            assert(line_text(vs) == diag_text(vs[0]) + " "@ + line_text(vs.drop_first()));
            assert(line_text(whole) =~= line_text(vs) + " "@ + diag_text(x));
        }
    }
}

/// Renders the values of one `print` call to a single line, tokens joined
/// with single spaces.
pub fn render_line(vs: &Vec<DiagValue>) -> (r: String)
    ensures
        r@ == line_text(vs@),
{
    let mut acc = String::new();
    let mut i: usize = 0;
    while i < vs.len()
        invariant
            i <= vs@.len(),
            acc@ == line_text(vs@.subrange(0, i as int)),
        decreases vs@.len() - i,
    {
        if i > 0 {
            acc.append(" ");
        }
        let token = render_diag(&vs[i]);
        acc.append(token.as_str());
        proof {
            lemma_line_text_push(vs@.subrange(0, i as int), vs@[i as int]);
            assert(vs@.subrange(0, i as int + 1) =~= vs@.subrange(0, i as int) + seq![
                vs@[i as int],
            ]);
        }
        i = i + 1;
    }
    proof {
        assert(vs@.subrange(0, vs@.len() as int) =~= vs@);
    }
    acc
}

} // verus!
