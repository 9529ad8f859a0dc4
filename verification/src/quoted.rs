use vstd::prelude::*;

use crate::text::str_to_chars;

verus! {

/// `c` is a hexadecimal digit.
pub open spec fn is_hex(c: char) -> bool {
    hex_val(c) < 16
}

/// The value of a hexadecimal digit; sixteen marks a non-digit.
pub open spec fn hex_val(c: char) -> int {
    if c == '0' { 0 } else if c == '1' { 1 } else if c == '2' { 2 } else if c == '3' { 3 }
    else if c == '4' { 4 } else if c == '5' { 5 } else if c == '6' { 6 } else if c == '7' { 7 }
    else if c == '8' { 8 } else if c == '9' { 9 } else if c == 'a' || c == 'A' { 10 }
    else if c == 'b' || c == 'B' { 11 } else if c == 'c' || c == 'C' { 12 }
    else if c == 'd' || c == 'D' { 13 } else if c == 'e' || c == 'E' { 14 }
    else if c == 'f' || c == 'F' { 15 } else { 16 }
}

/// The lower-case hexadecimal digit for a value below sixteen.
pub open spec fn hex_char(d: int) -> char {
    if d == 0 { '0' } else if d == 1 { '1' } else if d == 2 { '2' } else if d == 3 { '3' }
    else if d == 4 { '4' } else if d == 5 { '5' } else if d == 6 { '6' } else if d == 7 { '7' }
    else if d == 8 { '8' } else if d == 9 { '9' } else if d == 10 { 'a' } else if d == 11 { 'b' }
    else if d == 12 { 'c' } else if d == 13 { 'd' } else if d == 14 { 'e' } else { 'f' }
}

/// `v` is a Unicode scalar value: a code a `char` can hold.
pub open spec fn is_scalar_code(v: int) -> bool {
    (0 <= v && v < 0xD800) || (0xE000 <= v && v <= 0x10FFFF)
}

/// The value of the four hexadecimal digits at `i`.
pub open spec fn hex4(s: Seq<char>, i: int) -> int {
    hex_val(s[i]) * 4096 + hex_val(s[i + 1]) * 256 + hex_val(s[i + 2]) * 16 + hex_val(s[i + 3])
}

/// The escape sequence a character gets inside a quoted string: quote,
/// backslash, newline, tab, carriage return, backspace and form feed get
/// their short escapes, any other control character a four-digit code, and
/// everything else stands for itself.
pub open spec fn escape_char(c: char) -> Seq<char> {
    if c == '"' {
        seq!['\\', '"']
    } else if c == '\\' {
        seq!['\\', '\\']
    } else if c == '\n' {
        seq!['\\', 'n']
    } else if c == '\t' {
        seq!['\\', 't']
    } else if c == '\r' {
        seq!['\\', 'r']
    } else if c == '\u{0008}' {
        seq!['\\', 'b']
    } else if c == '\u{000C}' {
        seq!['\\', 'f']
    } else if (c as u32) < 32 {
        seq!['\\', 'u', '0', '0', hex_char((c as u32) as int / 16), hex_char((c as u32) as int % 16)]
    } else {
        seq![c]
    }
}

/// The body of a quoted string: each character escaped, in order.
pub open spec fn escape_seq(s: Seq<char>) -> Seq<char>
    decreases s.len(),
{
    if s.len() == 0 {
        Seq::empty()
    } else {
        escape_char(s[0]) + escape_seq(s.drop_first())
    }
}

/// A full quoted string: opening quote, escaped body, closing quote.
pub open spec fn quoted(s: Seq<char>) -> Seq<char> {
    seq!['"'] + escape_seq(s) + seq!['"']
}

/// The character a one-letter escape code stands for, if it is one.
pub open spec fn decode_escape(c: char) -> Option<char> {
    if c == '"' {
        Some('"')
    } else if c == '\\' {
        Some('\\')
    } else if c == '/' {
        Some('/')
    } else if c == 'n' {
        Some('\n')
    } else if c == 't' {
        Some('\t')
    } else if c == 'r' {
        Some('\r')
    } else if c == 'b' {
        Some('\u{0008}')
    } else if c == 'f' {
        Some('\u{000C}')
    } else {
        None
    }
}

/// Parses the body of a quoted string from position `i` (just past the
/// opening quote) up to and including the closing quote. Yields the decoded
/// content and the position just past the closing quote.
pub open spec fn spec_parse_qstr(s: Seq<char>, i: int) -> Option<(Seq<char>, int)>
    decreases s.len() - i,
{
    if i < 0 || i >= s.len() {
        None
    } else if s[i] == '"' {
        Some((Seq::empty(), i + 1))
    } else if s[i] == '\\' {
        if i + 1 < s.len() && s[i + 1] == 'u' {
            if i + 6 <= s.len() && is_hex(s[i + 2]) && is_hex(s[i + 3]) && is_hex(s[i + 4])
                && is_hex(s[i + 5]) && is_scalar_code(hex4(s, i + 2)) {
                match spec_parse_qstr(s, i + 6) {
                    Some((t, j)) => Some((seq![(hex4(s, i + 2) as u32) as char] + t, j)),
                    None => None,
                }
            } else {
                None
            }
        } else if i + 1 < s.len() {
            match decode_escape(s[i + 1]) {
                Some(c) => match spec_parse_qstr(s, i + 2) {
                    Some((t, j)) => Some((seq![c] + t, j)),
                    None => None,
                },
                None => None,
            }
        } else {
            None
        }
    } else {
        match spec_parse_qstr(s, i + 1) {
            Some((t, j)) => Some((seq![s[i]] + t, j)),
            None => None,
        }
    }
}

/// Escaping one more character appends its escape sequence.
pub proof fn lemma_escape_push(s: Seq<char>, c: char)
    ensures
        escape_seq(s.push(c)) == escape_seq(s) + escape_char(c),
    decreases s.len(),
{
    if s.len() == 0 {
        assert(s.push(c)[0] == c);
        assert(s.push(c).drop_first() =~= s);
        assert(escape_seq(s.push(c)) == escape_char(c) + escape_seq(s));
        assert(escape_seq(s.push(c)) =~= escape_seq(s) + escape_char(c));
    } else {
        assert(s.push(c)[0] == s[0]);
        assert(s.push(c).drop_first() =~= s.drop_first().push(c));
        lemma_escape_push(s.drop_first(), c);
        assert(escape_seq(s.push(c)) =~= escape_seq(s) + escape_char(c));
    }
}

/// A character's code casts back to the character.
proof fn lemma_char_code_round(c: char)
    ensures
        (c as u32) as char == c,
{
}

/// A six-character escape is a control character's code escape, and its
/// digits evaluate back to the code.
proof fn lemma_escape_len6(c: char)
    requires
        escape_char(c).len() == 6,
    ensures
        (c as u32) < 32,
        escape_char(c) == seq![
            '\\', 'u', '0', '0',
            hex_char((c as u32) as int / 16),
            hex_char((c as u32) as int % 16),
        ],
        hex_val(hex_char((c as u32) as int / 16)) == (c as u32) as int / 16,
        hex_val(hex_char((c as u32) as int % 16)) == (c as u32) as int % 16,
        is_scalar_code((c as u32) as int),
        (c as u32) as char == c,
{
    lemma_char_code_round(c);
}

/// Parsing a quoted body right after its escaped form recovers the original
/// content exactly and stops just past the closing quote.
pub proof fn lemma_qstr_round_trip(s: Seq<char>, buf: Seq<char>, i: int)
    requires
        0 <= i,
        i + escape_seq(s).len() + 1 <= buf.len(),
        forall|k: int|
            0 <= k < escape_seq(s).len() ==> buf[i + k] == #[trigger] escape_seq(s)[k],
        buf[i + escape_seq(s).len()] == '"',
    ensures
        spec_parse_qstr(buf, i) == Some((s, i + escape_seq(s).len() + 1)),
    decreases s.len(),
{
    if s.len() == 0 {
        assert(buf[i] == '"');
    } else {
        let c = s[0];
        let tail = s.drop_first();
        let esc = escape_char(c);
        assert(escape_seq(s) == esc + escape_seq(tail));
        assert forall|k: int| 0 <= k < escape_seq(tail).len() implies buf[i + esc.len() + k]
            == #[trigger] escape_seq(tail)[k] by {
            assert(escape_seq(s)[esc.len() + k] == escape_seq(tail)[k]);
        }
        assert(buf[i + esc.len() + escape_seq(tail).len()] == '"') by {
            assert(escape_seq(s).len() == esc.len() + escape_seq(tail).len());
        }
        lemma_qstr_round_trip(tail, buf, i + esc.len());
        assert forall|k: int| 0 <= k < esc.len() implies buf[i + k] == #[trigger] esc[k] by {
            assert(escape_seq(s)[k] == esc[k]);
        }
        if esc.len() == 6 {
            lemma_escape_len6(c);
            let v = (c as u32) as int;
            assert(buf[i] == esc[0] && buf[i + 1] == esc[1] && buf[i + 2] == esc[2] && buf[i + 3]
                == esc[3] && buf[i + 4] == esc[4] && buf[i + 5] == esc[5]);
            assert(hex_val(buf[i + 2]) == 0 && hex_val(buf[i + 3]) == 0);
            assert(hex4(buf, i + 2) == v);
            assert(hex4(buf, i + 2) as u32 == c as u32);
            assert((hex4(buf, i + 2) as u32) as char == c);
            assert(seq![c] + tail =~= s);
        } else if esc.len() == 2 {
            assert(buf[i] == '\\');
            assert(buf[i + 1] != 'u');
            assert(decode_escape(buf[i + 1]) == Some(c));
            assert(seq![c] + tail =~= s);
        } else {
            assert(esc =~= seq![c]);
            assert(buf[i] == esc[0]);
            assert(esc[0] == c);
            assert(c != '"' && c != '\\');
            assert(seq![c] + tail =~= s);
        }
    }
}

/// Relies on `char::from_u32`: yields the character with the given code
/// exactly when the code is a Unicode scalar value, and nothing otherwise.
pub assume_specification [ char::from_u32 ](i: u32) -> (r: Option<char>)
    ensures
        r is Some <==> is_scalar_code(i as int),
        r matches Some(c) ==> c as u32 == i,
;

/// The value of a hexadecimal digit, or nothing for any other character.
fn hex_digit(c: char) -> (r: Option<u32>)
    ensures
        match r {
            Some(v) => is_hex(c) && v as int == hex_val(c) && v < 16,
            None => !is_hex(c),
        },
{
    match c {
        '0' => Some(0),
        '1' => Some(1),
        '2' => Some(2),
        '3' => Some(3),
        '4' => Some(4),
        '5' => Some(5),
        '6' => Some(6),
        '7' => Some(7),
        '8' => Some(8),
        '9' => Some(9),
        'a' | 'A' => Some(10),
        'b' | 'B' => Some(11),
        'c' | 'C' => Some(12),
        'd' | 'D' => Some(13),
        'e' | 'E' => Some(14),
        'f' | 'F' => Some(15),
        _ => None,
    }
}

/// The lower-case hexadecimal digit for a value below sixteen.
fn hex_digit_char(d: u32) -> (r: char)
    requires
        d < 16,
    ensures
        r == hex_char(d as int),
{
    match d {
        0 => '0',
        1 => '1',
        2 => '2',
        3 => '3',
        4 => '4',
        5 => '5',
        6 => '6',
        7 => '7',
        8 => '8',
        9 => '9',
        10 => 'a',
        11 => 'b',
        12 => 'c',
        13 => 'd',
        14 => 'e',
        _ => 'f',
    }
}

/// Appends the escaped form of `s` to `out`.
pub fn escape_into(s: &str, out: &mut Vec<char>)
    ensures
        final(out)@ == old(out)@ + escape_seq(s@),
{
    let chars = str_to_chars(s);
    let n = chars.len();
    proof {
        assert(out@ + escape_seq(s@.subrange(0, 0)) =~= out@);
    }
    for i in 0..n
        invariant
            n == chars@.len(),
            chars@ == s@,
            out@ == old(out)@ + escape_seq(s@.subrange(0, i as int)),
    {
        let c = chars[i];
        if c == '"' {
            out.push('\\');
            out.push('"');
        } else if c == '\\' {
            out.push('\\');
            out.push('\\');
        } else if c == '\n' {
            out.push('\\');
            out.push('n');
        } else if c == '\t' {
            out.push('\\');
            out.push('t');
        } else if c == '\r' {
            out.push('\\');
            out.push('r');
        } else if c == '\u{0008}' {
            out.push('\\');
            out.push('b');
        } else if c == '\u{000C}' {
            out.push('\\');
            out.push('f');
        } else if (c as u32) < 32 {
            let v = c as u32;
            out.push('\\');
            out.push('u');
            out.push('0');
            out.push('0');
            out.push(hex_digit_char(v / 16));
            out.push(hex_digit_char(v % 16));
        } else {
            out.push(c);
        }
        proof {
            let pre = s@.subrange(0, i as int);
            lemma_escape_push(pre, s@[i as int]);
            assert(pre.push(s@[i as int]) =~= s@.subrange(0, i + 1));
            assert(out@ =~= old(out)@ + escape_seq(s@.subrange(0, i + 1)));
        }
    }
    proof {
        assert(s@.subrange(0, s@.len() as int) =~= s@);
    }
}

/// Parses a quoted-string body starting at `i` (just past the opening
/// quote); on success yields the decoded content and the position just past
/// the closing quote.
pub fn parse_qstr(s: &Vec<char>, start: usize) -> (r: Option<(Vec<char>, usize)>)
    ensures
        match r {
            Some(p) => spec_parse_qstr(s@, start as int) == Some((p.0@, p.1 as int)) && start
                < p.1 <= s@.len(),
            None => spec_parse_qstr(s@, start as int) is None,
        },
{
    if start > s.len() {
        return None;
    }
    let mut out: Vec<char> = Vec::new();
    let mut i: usize = start;
    proof {
        match spec_parse_qstr(s@, start as int) {
            Some(p) => {
                assert(out@ + p.0 =~= p.0);
            },
            None => {},
        }
    }
    loop
        invariant
            start <= i <= s@.len(),
            match spec_parse_qstr(s@, i as int) {
                Some(p) => spec_parse_qstr(s@, start as int) == Some((out@ + p.0, p.1)),
                None => spec_parse_qstr(s@, start as int) is None,
            },
        decreases s@.len() - i,
    {
        if i >= s.len() {
            return None;
        }
        let c = s[i];
        if c == '"' {
            proof {
                assert(out@ + Seq::<char>::empty() =~= out@);
            }
            return Some((out, i + 1));
        } else if c == '\\' {
            if i + 1 >= s.len() {
                return None;
            }
            let e = s[i + 1];
            if e == 'u' {
                if s.len() - i < 6 {
                    return None;
                }
                let h0 = match hex_digit(s[i + 2]) {
                    Some(h) => h,
                    None => {
                        return None;
                    },
                };
                let h1 = match hex_digit(s[i + 3]) {
                    Some(h) => h,
                    None => {
                        return None;
                    },
                };
                let h2 = match hex_digit(s[i + 4]) {
                    Some(h) => h,
                    None => {
                        return None;
                    },
                };
                let h3 = match hex_digit(s[i + 5]) {
                    Some(h) => h,
                    None => {
                        return None;
                    },
                };
                let v: u32 = h0 * 4096 + h1 * 256 + h2 * 16 + h3;
                proof {
                    assert(v as int == hex4(s@, i as int + 2));
                }
                let decoded = match char::from_u32(v) {
                    Some(c) => c,
                    None => {
                        return None;
                    },
                };
                proof {
                    lemma_char_code_round(decoded);
                    assert(hex4(s@, i as int + 2) as u32 == decoded as u32);
                    assert(decoded == (hex4(s@, i as int + 2) as u32) as char);
                }
                let ghost old_out = out@;
                let ghost old_i = i as int;
                out.push(decoded);
                i = i + 6;
                proof {
                    assert(out@ =~= old_out + seq![decoded]);
                    match spec_parse_qstr(s@, i as int) {
                        Some(p) => {
                            assert(spec_parse_qstr(s@, old_i) == Some(
                                (seq![decoded] + p.0, p.1),
                            ));
                            assert(out@ + p.0 =~= old_out + (seq![decoded] + p.0));
                        },
                        None => {},
                    }
                }
                continue ;
            }
            let decoded: char = if e == '"' {
                '"'
            } else if e == '\\' {
                '\\'
            } else if e == '/' {
                '/'
            } else if e == 'n' {
                '\n'
            } else if e == 't' {
                '\t'
            } else if e == 'r' {
                '\r'
            } else if e == 'b' {
                '\u{0008}'
            } else if e == 'f' {
                '\u{000C}'
            } else {
                return None;
            };
            let ghost old_out = out@;
            let ghost old_i = i as int;
            out.push(decoded);
            i = i + 2;
            proof {
                assert(decode_escape(s@[old_i + 1]) == Some(decoded));
                assert(out@ =~= old_out + seq![decoded]);
                match spec_parse_qstr(s@, i as int) {
                    Some(p) => {
                        assert(spec_parse_qstr(s@, old_i) == Some((seq![decoded] + p.0, p.1)));
                        assert(out@ + p.0 =~= old_out + (seq![decoded] + p.0));
                    },
                    None => {},
                }
            }
        } else {
            let ghost old_out = out@;
            let ghost old_i = i as int;
            out.push(c);
            i = i + 1;
            proof {
                assert(out@ =~= old_out + seq![c]);
                match spec_parse_qstr(s@, i as int) {
                    Some(p) => {
                        assert(spec_parse_qstr(s@, old_i) == Some((seq![c] + p.0, p.1)));
                        assert(out@ + p.0 =~= old_out + (seq![c] + p.0));
                    },
                    None => {},
                }
            }
        }
    }
}

/// `lit` occurs in `s` starting exactly at position `i`.
pub open spec fn matches_at(s: Seq<char>, i: int, lit: Seq<char>) -> bool {
    0 <= i && i + lit.len() <= s.len() && forall|k: int|
        0 <= k < lit.len() ==> s[i + k] == #[trigger] lit[k]
}

/// Checks whether `lit` stands at position `i` of `s`; on success yields the
/// position just past it.
pub fn match_lit(s: &Vec<char>, i: usize, lit: &str) -> (r: Option<usize>)
    ensures
        match r {
            Some(j) => matches_at(s@, i as int, lit@) && j == i + lit@.len() && j <= s@.len(),
            None => !matches_at(s@, i as int, lit@),
        },
{
    let lit_chars = str_to_chars(lit);
    let n = lit_chars.len();
    let slen = s.len();
    if i > slen || n > slen - i {
        return None;
    }
    for k in 0..n
        invariant
            n == lit@.len(),
            lit_chars@ == lit@,
            slen == s@.len(),
            i + n <= slen,
            forall|m: int| 0 <= m < k ==> s@[i + m] == #[trigger] lit@[m],
    {
        if s[i + k] != lit_chars[k] {
            return None;
        }
    }
    Some(i + n)
}

} // verus!
