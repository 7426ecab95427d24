//! Query-string text: percent-encoding of parameter values and the decimal
//! writing of port numbers.

use vstd::prelude::*;
use vstd::string::StrSliceExecFns;
use vstd::string::StringExecFns;
use vstd::utf8::char_is_scalar;
use vstd::utf8::encode_scalar;
use vstd::utf8::has_width_3_encoding;

verus! {

/// The sixteen hexadecimal digits, upper case.
pub open spec fn hex_digits() -> Seq<char> {
    seq!['0', '1', '2', '3', '4', '5', '6', '7', '8', '9', 'A', 'B', 'C', 'D', 'E', 'F']
}

/// The decimal writing of a non-negative number.
pub open spec fn dec_chars(n: int) -> Seq<char>
    recommends
        n >= 0,
    decreases n,
{
    if n < 10 {
        seq![hex_digits()[if 0 <= n { n } else { 0 }]]
    } else {
        dec_chars(n / 10) + seq![hex_digits()[n % 10]]
    }
}

/// True for the characters a query value keeps as they are: the unreserved
/// set of RFC 3986 (letters, digits, `-`, `.`, `_`, `~`).
pub open spec fn unreserved(c: char) -> bool {
    let u = c as u32;
    (65 <= u <= 90) || (97 <= u <= 122) || (48 <= u <= 57) || u == 45 || u == 46 || u == 95 || u
        == 126
}

/// The `%XX` writing of one byte.
pub open spec fn percent_byte(b: u8) -> Seq<char> {
    seq!['%', hex_digits()[b as int / 16], hex_digits()[b as int % 16]]
}

/// The `%XX` writing of a byte sequence.
pub open spec fn percent_bytes(bs: Seq<u8>) -> Seq<char>
    decreases bs.len(),
{
    if bs.len() == 0 {
        seq![]
    } else {
        percent_byte(bs[0]) + percent_bytes(bs.drop_first())
    }
}

/// How one character is written in a query value: kept when unreserved, and
/// otherwise the percent-encoded bytes of its UTF-8 encoding.
pub open spec fn encode_char(c: char) -> Seq<char> {
    if unreserved(c) {
        seq![c]
    } else {
        percent_bytes(encode_scalar(c as u32))
    }
}

/// The percent-encoded writing of a whole string.
pub open spec fn percent_encoded(s: Seq<char>) -> Seq<char>
    decreases s.len(),
{
    if s.len() == 0 {
        seq![]
    } else {
        encode_char(s[0]) + percent_encoded(s.drop_first())
    }
}

/// One more character extends the encoding by that character's piece.
proof fn lemma_percent_encoded_snoc(s: Seq<char>, c: char)
    ensures
        percent_encoded(s.push(c)) == percent_encoded(s) + encode_char(c),
    decreases s.len(),
{
    if s.len() == 0 {
        assert(s.push(c).drop_first() =~= Seq::<char>::empty());
        assert(percent_encoded(Seq::<char>::empty()) =~= Seq::<char>::empty());
        assert(percent_encoded(s.push(c)) =~= percent_encoded(s) + encode_char(c));
    } else {
        assert(s.push(c).drop_first() =~= s.drop_first().push(c));
        lemma_percent_encoded_snoc(s.drop_first(), c);
        assert(percent_encoded(s.push(c)) =~= percent_encoded(s) + encode_char(c));
    }
}

proof fn lemma_percent_bytes1(b1: u8)
    ensures
        percent_bytes(seq![b1]) == percent_byte(b1),
{
    assert(seq![b1].drop_first() =~= Seq::<u8>::empty());
    assert(percent_bytes(Seq::<u8>::empty()) =~= Seq::<char>::empty());
    assert(percent_bytes(seq![b1]) =~= percent_byte(b1));
}

proof fn lemma_percent_bytes2(b1: u8, b2: u8)
    ensures
        percent_bytes(seq![b1, b2]) == percent_byte(b1) + percent_byte(b2),
{
    assert(seq![b1, b2].drop_first() =~= seq![b2]);
    lemma_percent_bytes1(b2);
    assert(percent_bytes(seq![b1, b2]) =~= percent_byte(b1) + percent_byte(b2));
}

proof fn lemma_percent_bytes3(b1: u8, b2: u8, b3: u8)
    ensures
        percent_bytes(seq![b1, b2, b3]) == percent_byte(b1) + percent_byte(b2) + percent_byte(b3),
{
    assert(seq![b1, b2, b3].drop_first() =~= seq![b2, b3]);
    lemma_percent_bytes2(b2, b3);
    assert(percent_bytes(seq![b1, b2, b3]) =~= percent_byte(b1) + percent_byte(b2) + percent_byte(
        b3,
    ));
}

proof fn lemma_percent_bytes4(b1: u8, b2: u8, b3: u8, b4: u8)
    ensures
        percent_bytes(seq![b1, b2, b3, b4]) == percent_byte(b1) + percent_byte(b2) + percent_byte(
            b3,
        ) + percent_byte(b4),
{
    assert(seq![b1, b2, b3, b4].drop_first() =~= seq![b2, b3, b4]);
    lemma_percent_bytes3(b2, b3, b4);
    assert(percent_bytes(seq![b1, b2, b3, b4]) =~= percent_byte(b1) + percent_byte(b2)
        + percent_byte(b3) + percent_byte(b4));
}

/// Appends one hexadecimal digit.
fn push_hex_digit(out: &mut String, d: u8)
    requires
        d < 16,
    ensures
        final (out)@ == old(out)@ + seq![hex_digits()[d as int]],
{
    let digits = "0123456789ABCDEF";
    proof {
        reveal_strlit("0123456789ABCDEF");
        assert(digits@ =~= hex_digits());
    }
    let piece = digits.substring_char(d as usize, d as usize + 1);
    out.append(piece);
    proof {
        assert(digits@.subrange(d as int, d as int + 1) =~= seq![hex_digits()[d as int]]);
    }
}

/// Appends the `%XX` writing of one byte.
fn push_percent_byte(out: &mut String, b: u8)
    ensures
        final (out)@ == old(out)@ + percent_byte(b),
{
    out.append("%");
    push_hex_digit(out, b / 16);
    push_hex_digit(out, b % 16);
    proof {
        reveal_strlit("%");
        assert("%"@ =~= seq!['%']);
        assert(final (out)@ =~= old(out)@ + percent_byte(b));
    }
}

/// Appends the query-value writing of the character at position `i` of `s`.
fn push_encoded_char(out: &mut String, s: &str, i: usize)
    requires
        i < s@.len() <= usize::MAX,
    ensures
        final (out)@ == old(out)@ + encode_char(s@[i as int]),
{
    let c = s.get_char(i);
    let u = c as u32;
    proof {
        char_is_scalar(c);
    }
    if (65 <= u && u <= 90) || (97 <= u && u <= 122) || (48 <= u && u <= 57) || u == 45 || u == 46
        || u == 95 || u == 126 {
        let piece = s.substring_char(i, i + 1);
        out.append(piece);
        proof {
            assert(s@.subrange(i as int, i as int + 1) =~= seq![c]);
        }
    } else if u < 0x80 {
        let b1 = (u & 0x7F) as u8;
        push_percent_byte(out, b1);
        proof {
            lemma_percent_bytes1(b1);
            assert(encode_scalar(u) =~= seq![b1]);
        }
    } else if u < 0x800 {
        let b1 = 0xC0 | ((u >> 6) & 0x1F) as u8;
        let b2 = 0x80 | (u & 0x3F) as u8;
        push_percent_byte(out, b1);
        push_percent_byte(out, b2);
        proof {
            lemma_percent_bytes2(b1, b2);
            assert(encode_scalar(u) =~= seq![b1, b2]);
            assert(final (out)@ =~= old(out)@ + encode_char(s@[i as int]));
        }
    } else if u < 0x10000 {
        let b1 = 0xE0 | ((u >> 12) & 0x0F) as u8;
        let b2 = 0x80 | ((u >> 6) & 0x3F) as u8;
        let b3 = 0x80 | (u & 0x3F) as u8;
        push_percent_byte(out, b1);
        push_percent_byte(out, b2);
        push_percent_byte(out, b3);
        proof {
            assert(has_width_3_encoding(u));
            lemma_percent_bytes3(b1, b2, b3);
            assert(encode_scalar(u) =~= seq![b1, b2, b3]);
            assert(final (out)@ =~= old(out)@ + encode_char(s@[i as int]));
        }
    } else {
        let b1 = 0xF0 | ((u >> 18) & 0x7) as u8;
        let b2 = 0x80 | ((u >> 12) & 0x3F) as u8;
        let b3 = 0x80 | ((u >> 6) & 0x3F) as u8;
        let b4 = 0x80 | (u & 0x3F) as u8;
        push_percent_byte(out, b1);
        push_percent_byte(out, b2);
        push_percent_byte(out, b3);
        push_percent_byte(out, b4);
        proof {
            lemma_percent_bytes4(b1, b2, b3, b4);
            assert(encode_scalar(u) =~= seq![b1, b2, b3, b4]);
            assert(final (out)@ =~= old(out)@ + encode_char(s@[i as int]));
        }
    }
}

/// Writes `s` as a query value: unreserved characters stay, every other
/// character becomes the `%XX` bytes of its UTF-8 encoding.
pub fn percent_encode(s: &str) -> (r: String)
    ensures
        r@ == percent_encoded(s@),
{
    let n = s.unicode_len();
    let mut r = String::new();
    let mut i: usize = 0;
    while i < n
        invariant
            i <= n,
            n == s@.len(),
            r@ == percent_encoded(s@.subrange(0, i as int)),
        decreases n - i,
    {
        push_encoded_char(&mut r, s, i);
        i = i + 1;
        proof {
            assert(s@.subrange(0, i as int) =~= s@.subrange(0, i - 1).push(s@[i - 1]));
            lemma_percent_encoded_snoc(s@.subrange(0, i - 1), s@[i - 1]);
        }
    }
    proof {
        assert(s@.subrange(0, n as int) =~= s@);
    }
    r
}

/// True for a decimal digit.
pub open spec fn is_dec_digit(c: char) -> bool {
    48 <= c as u32 <= 57
}

/// True when every character is a decimal digit.
pub open spec fn all_digits(s: Seq<char>) -> bool {
    forall|i: int| 0 <= i < s.len() ==> is_dec_digit(s[i])
}

/// The number a digit string stands for.
pub open spec fn digits_val(s: Seq<char>) -> int
    decreases s.len(),
{
    if s.len() == 0 {
        0
    } else {
        digits_val(s.drop_last()) * 10 + (s.last() as u32 - 48)
    }
}

/// What parsing a port field yields: an optional leading `+`, then at least
/// one digit, and a value that fits in sixteen bits — anything else is
/// rejected.
pub open spec fn spec_parse_u16(s: Seq<char>) -> Option<u16> {
    let t = if s.len() > 0 && s[0] == '+' {
        s.drop_first()
    } else {
        s
    };
    if t.len() > 0 && all_digits(t) && digits_val(t) <= 65535 {
        Some(digits_val(t) as u16)
    } else {
        None
    }
}

/// A digit string stands for a non-negative number.
proof fn lemma_digits_val_nonneg(s: Seq<char>)
    requires
        all_digits(s),
    ensures
        digits_val(s) >= 0,
    decreases s.len(),
{
    if s.len() > 0 {
        assert(all_digits(s.drop_last()));
        lemma_digits_val_nonneg(s.drop_last());
        assert(is_dec_digit(s.last()));
    }
}

/// A digit string stands for at least what any of its prefixes stands for.
proof fn lemma_digits_val_prefix(s: Seq<char>, k: int)
    requires
        all_digits(s),
        0 <= k <= s.len(),
    ensures
        digits_val(s.subrange(0, k)) <= digits_val(s),
    decreases s.len() - k,
{
    if k == s.len() {
        assert(s.subrange(0, k) =~= s);
    } else {
        assert(s.subrange(0, k + 1).drop_last() =~= s.subrange(0, k));
        assert(all_digits(s.subrange(0, k)));
        lemma_digits_val_nonneg(s.subrange(0, k));
        assert(is_dec_digit(s[k]));
        assert(digits_val(s.subrange(0, k + 1)) >= digits_val(s.subrange(0, k)));
        lemma_digits_val_prefix(s, k + 1);
    }
}

/// Reads a port field: an optional leading `+`, then decimal digits, with
/// the value fitting in sixteen bits.
pub fn parse_u16(s: &str) -> (r: Option<u16>)
    ensures
        r == spec_parse_u16(s@),
{
    let chars = crate::search::chars_vec(s);
    let n = chars.len();
    let start: usize = if n > 0 && chars[0] == '+' {
        1
    } else {
        0
    };
    let ghost t = if s@.len() > 0 && s@[0] == '+' {
        s@.drop_first()
    } else {
        s@
    };
    proof {
        assert(t =~= chars@.subrange(start as int, n as int));
    }
    if n == start {
        return None;
    }
    let mut acc: u32 = 0;
    let mut i: usize = start;
    while i < n
        invariant
            start <= i <= n,
            n == chars@.len(),
            chars@ == s@,
            t == (if s@.len() > 0 && s@[0] == '+' {
                s@.drop_first()
            } else {
                s@
            }),
            t =~= chars@.subrange(start as int, n as int),
            all_digits(chars@.subrange(start as int, i as int)),
            acc == digits_val(chars@.subrange(start as int, i as int)),
            acc <= 65535,
        decreases n - i,
    {
        let c = chars[i];
        let u = c as u32;
        if u < 48 || u > 57 {
            assert(!is_dec_digit(t[i - start]));
            assert(!all_digits(t));
            return None;
        }
        acc = acc * 10 + (u - 48);
        i = i + 1;
        proof {
            assert(chars@.subrange(start as int, i as int).drop_last() =~= chars@.subrange(
                start as int,
                i - 1,
            ));
            assert(chars@.subrange(start as int, i as int).last() == c);
        }
        if acc > 65535 {
            proof {
                assert(acc == digits_val(chars@.subrange(start as int, i as int)));
                if all_digits(t) {
                    assert(t.subrange(0, i - start) =~= chars@.subrange(start as int, i as int));
                    lemma_digits_val_prefix(t, i - start);
                    assert(digits_val(t) > 65535);
                }
            }
            return None;
        }
    }
    proof {
        assert(chars@.subrange(start as int, n as int) =~= t);
    }
    Some(acc as u16)
}

/// Writes a port number in decimal.
pub fn dec_string_u16(n: u16) -> (r: String)
    ensures
        r@ == dec_chars(n as int),
    decreases n,
{
    let digits = "0123456789ABCDEF";
    proof {
        reveal_strlit("0123456789ABCDEF");
        assert(digits@ =~= hex_digits());
    }
    if n < 10 {
        let piece = digits.substring_char(n as usize, n as usize + 1);
        let r = String::from_str(piece);
        proof {
            assert(digits@.subrange(n as int, n as int + 1) =~= seq![hex_digits()[n as int]]);
        }
        r
    } else {
        let head = dec_string_u16(n / 10);
        let d = n % 10;
        let piece = digits.substring_char(d as usize, d as usize + 1);
        let r = head.concat(piece);
        proof {
            assert(digits@.subrange(d as int, d as int + 1) =~= seq![hex_digits()[d as int]]);
        }
        r
    }
}

} // verus!
