//! The request parser: from the bytes read off a connection to the text of the
//! request, the id in its path and its body.

use crate::text::{chars_of, find_last_piece, find_piece, last_piece, leading_word, piece, skip_word};
use vstd::prelude::*;
use vstd::slice::slice_subrange;
use vstd::string::StrSliceExecFns;
use vstd::utf8::{decode_utf8, valid_utf8};

verus! {

/// How many bytes of a request are read: a request is taken in one piece, and
/// what lies beyond this many bytes is not seen.
pub const REQUEST_LIMIT: usize = 1024;

/// The text that `String::from_utf8_lossy` makes of `bytes`.
pub uninterp spec fn lossy_text(bytes: Seq<u8>) -> Seq<char>;

/// The id that stands in the path of `request`: the third piece of the request
/// cut at each `/`, up to its first white space; empty where there is no such
/// piece, and where the piece is empty or begins with white space.
pub open spec fn path_id(request: Seq<char>) -> Seq<char> {
    match piece(request, '/', 2) {
        Some(segment) => segment.take(leading_word(segment)),
        None => Seq::empty(),
    }
}

/// The body of `request`: what follows the last blank line, all of the request
/// where it holds none.
pub open spec fn body_of(request: Seq<char>) -> Seq<char> {
    last_piece(request, "\r\n\r\n"@)
}

/// Whether `c` is a decimal digit.
pub open spec fn is_digit(c: char) -> bool {
    '0' <= c <= '9'
}

/// Whether `s` holds decimal digits only.
pub open spec fn all_digits(s: Seq<char>) -> bool {
    forall|i: int| 0 <= i < s.len() ==> is_digit(#[trigger] s[i])
}

/// The number that the decimal digits `s` write.
pub open spec fn decimal(s: Seq<char>) -> int
    decreases s.len(),
{
    if s.len() == 0 {
        0
    } else {
        10 * decimal(s.drop_last()) + (s.last() as int - '0' as int)
    }
}

/// Whether `s` begins with a sign.
pub open spec fn has_sign(s: Seq<char>) -> bool {
    s.len() > 0 && (s[0] == '-' || s[0] == '+')
}

/// The number that `s` writes in decimal, with at most one sign before one or
/// more digits, where that number is an `i32`; `None` for any other text.
pub open spec fn parse_i32(s: Seq<char>) -> Option<i32> {
    let digits = if has_sign(s) {
        s.skip(1)
    } else {
        s
    };
    let value = if has_sign(s) && s[0] == '-' {
        -decimal(digits)
    } else {
        decimal(digits)
    };
    if digits.len() > 0 && all_digits(digits) && i32::MIN <= value <= i32::MAX {
        Some(value as i32)
    } else {
        None
    }
}

/// A number in decimal is no smaller than what any of its beginnings writes.
proof fn lemma_decimal_grows(s: Seq<char>, k: int)
    requires
        all_digits(s),
        0 <= k <= s.len(),
    ensures
        0 <= decimal(s.take(k)) <= decimal(s),
    decreases s.len(),
{
    if k == s.len() {
        assert(s.take(k) =~= s);
        if s.len() > 0 {
            lemma_decimal_grows(s.drop_last(), k - 1);
            assert(is_digit(s[s.len() - 1]));
        }
    } else {
        lemma_decimal_grows(s.drop_last(), k);
        assert(s.drop_last().take(k) =~= s.take(k));
        assert(is_digit(s[s.len() - 1]));
    }
}

/// Calls `String::from_utf8_lossy`, which replaces each ill-formed sequence
/// by U+FFFD. Believed: the text is a function of the bytes, and well-formed
/// UTF-8 is decoded as it stands.
#[verifier::external_body]
fn from_utf8_lossy(bytes: &[u8]) -> (text: String)
    ensures
        text@ == lossy_text(bytes@),
        valid_utf8(bytes@) ==> text@ == decode_utf8(bytes@),
{
    String::from_utf8_lossy(bytes).into_owned()
}

/// The text of a request, from the bytes that were read; what is not UTF-8
/// among them is replaced.
pub fn decode_request(bytes: &[u8]) -> (request: String)
    ensures
        request@ == lossy_text(bytes@),
        valid_utf8(bytes@) ==> request@ == decode_utf8(bytes@),
{
    from_utf8_lossy(bytes)
}

/// The id in the path of `request`, as text.
pub fn get_id(request: &str) -> (id: &str)
    ensures
        id@ == path_id(request@),
{
    let chars = chars_of(request);
    match find_piece(chars.as_slice(), '/', 2) {
        None => request.substring_char(0, 0),
        Some((begin, end)) => {
            let segment = slice_subrange(chars.as_slice(), begin, end);
            assert(segment@.skip(0) =~= segment@);
            let last = skip_word(segment, 0);
            assert(segment@.take(last as int) =~= request@.subrange(begin as int, begin + last));
            request.substring_char(begin, begin + last)
        },
    }
}

/// The body of `request`, as text.
pub fn get_product_request_body(request: &str) -> (body: &str)
    ensures
        body@ == body_of(request@),
{
    let chars = chars_of(request);
    let blank_line = chars_of("\r\n\r\n");
    let begin = find_last_piece(chars.as_slice(), blank_line.as_slice());
    request.substring_char(begin, chars.len())
}

/// The id that `text` writes.
pub fn parse_id(text: &str) -> (id: Option<i32>)
    ensures
        id == parse_i32(text@),
{
    let chars = chars_of(text);
    let n = chars.len();
    if n == 0 {
        return None;
    }
    let negative = chars[0] == '-';
    let begin: usize = if negative || chars[0] == '+' {
        1
    } else {
        0
    };
    let ghost digits = chars@.skip(begin as int);
    assert(text@.skip(0) =~= text@);
    if begin == n {
        return None;
    }
    let mut magnitude: i64 = 0;
    let mut i: usize = begin;
    assert(digits.take(0) =~= Seq::<char>::empty());
    while i < n
        invariant
            begin <= i <= n,
            begin < n,
            n == chars.len(),
            chars@ == text@,
            negative == (has_sign(text@) && text@[0] == '-'),
            begin == if has_sign(text@) { 1int } else { 0int },
            digits == if has_sign(text@) { text@.skip(1) } else { text@ },
            all_digits(digits.take(i - begin)),
            magnitude == decimal(digits.take(i - begin)),
            0 <= magnitude <= 0x8000_0000,
        decreases n - i,
    {
        let c = chars[i];
        assert(c == digits[i - begin]);
        if c < '0' || c > '9' {
            return None;
        }
        assert(digits.take(i - begin + 1).drop_last() =~= digits.take(i - begin));
        magnitude = magnitude * 10 + (c as u32 - '0' as u32) as i64;
        assert(digits.take(i - begin + 1).last() == c);
        assert(magnitude == decimal(digits.take(i - begin + 1)));
        if magnitude > 0x8000_0000 {
            proof {
                if all_digits(digits) {
                    lemma_decimal_grows(digits, i - begin + 1);
                }
            }
            return None;
        }
        i = i + 1;
    }
    assert(digits.take(n - begin) =~= digits);
    if negative {
        Some((-magnitude) as i32)
    } else if magnitude > 0x7FFF_FFFF {
        None
    } else {
        Some(magnitude as i32)
    }
}

} // verus!
