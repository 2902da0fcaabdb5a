//! Text as sequences of characters: comparison, white space, and the
//! conversions between strings, characters and bytes.
use vstd::prelude::*;
use vstd::string::StringExecFns;
use vstd::utf8::{decode_utf8, valid_utf8};

verus! {

/// Whether `c` is white space: a character with the Unicode property
/// `White_Space`.
pub open spec fn is_space(c: char) -> bool {
    let code = c as u32;
    ||| 0x0009 <= code <= 0x000d
    ||| code == 0x0020
    ||| code == 0x0085
    ||| code == 0x00a0
    ||| code == 0x1680
    ||| 0x2000 <= code <= 0x200a
    ||| code == 0x2028
    ||| code == 0x2029
    ||| code == 0x202f
    ||| code == 0x205f
    ||| code == 0x3000
}

/// `s` without the white space at its start.
pub open spec fn skip_space(s: Seq<char>) -> Seq<char>
    decreases s.len(),
{
    if s.len() > 0 && is_space(s[0]) {
        skip_space(s.drop_first())
    } else {
        s
    }
}

/// `s` without the white space at its end.
pub open spec fn drop_space(s: Seq<char>) -> Seq<char>
    decreases s.len(),
{
    if s.len() > 0 && is_space(s.last()) {
        drop_space(s.drop_last())
    } else {
        s
    }
}

/// `s` without the white space at its start and at its end.
pub open spec fn trimmed(s: Seq<char>) -> Seq<char> {
    drop_space(skip_space(s))
}

/// The pieces of `s` between the occurrences of `sep`. There is one piece
/// more than there are separators, so there is always at least one.
pub open spec fn split(s: Seq<char>, sep: char) -> Seq<Seq<char>>
    decreases s.len(),
{
    if s.len() == 0 {
        seq![Seq::empty()]
    } else {
        let head = split(s.drop_last(), sep);
        if s.last() == sep {
            head.push(Seq::empty())
        } else {
            head.drop_last().push(head.last().push(s.last()))
        }
    }
}

/// The pieces put together again with `sep` between them.
pub open spec fn joined(pieces: Seq<Seq<char>>, sep: Seq<char>) -> Seq<char>
    decreases pieces.len(),
{
    if pieces.len() == 0 {
        Seq::empty()
    } else if pieces.len() == 1 {
        pieces[0]
    } else {
        joined(pieces.drop_last(), sep) + sep + pieces.last()
    }
}

/// `String::push` of the standard library appends one character to the end
/// of the string.
pub assume_specification[ std::string::String::push ](s: &mut std::string::String, ch: char)
    ensures
        final(s)@ == old(s)@.push(ch),
;

/// `core::str::from_utf8` of the standard library, with the text copied
/// into a `String`: it accepts exactly the byte sequences that are valid
/// UTF-8 and yields the characters that they encode.
#[verifier::external_body]
fn utf8_to_string(bytes: &[u8]) -> (r: Option<String>)
    ensures
        r is Some <==> valid_utf8(bytes@),
        r matches Some(text) ==> text@ == decode_utf8(bytes@),
{
    match core::str::from_utf8(bytes) {
        Ok(text) => Some(String::from(text)),
        Err(_) => None,
    }
}

/// The text that `bytes` encode in UTF-8, if they encode any.
pub open spec fn decoded(bytes: Seq<u8>) -> Option<Seq<char>> {
    if valid_utf8(bytes) {
        Some(decode_utf8(bytes))
    } else {
        None
    }
}

/// Decodes `bytes` as UTF-8.
pub fn text_of_bytes(bytes: &[u8]) -> (r: Option<String>)
    ensures
        match r {
            Some(text) => decoded(bytes@) == Some(text@),
            None => decoded(bytes@) is None,
        },
{
    utf8_to_string(bytes)
}

/// The text that `bytes` encode in UTF-8, without the white space at its
/// end.
pub open spec fn decoded_without_trailing_space(bytes: Seq<u8>) -> Option<Seq<char>> {
    match decoded(bytes) {
        Some(text) => Some(drop_space(text)),
        None => None,
    }
}

/// Decodes `bytes` as UTF-8 and leaves out the white space at the end.
pub fn text_of_bytes_without_trailing_space(bytes: &[u8]) -> (r: Option<String>)
    ensures
        match r {
            Some(text) => decoded_without_trailing_space(bytes@) == Some(text@),
            None => decoded_without_trailing_space(bytes@) is None,
        },
{
    match text_of_bytes(bytes) {
        Some(text) => {
            let chars = chars_of(text.as_str());
            let end = trim_end_from(chars.as_slice(), 0);
            assert(chars@.subrange(0, chars@.len() as int) =~= chars@);
            Some(string_of(vstd::slice::slice_subrange(chars.as_slice(), 0, end)))
        },
        None => None,
    }
}

/// Whether `c` is white space.
pub fn is_whitespace(c: char) -> (r: bool)
    ensures
        r == is_space(c),
{
    let code: u32 = c as u32;
    (0x0009 <= code && code <= 0x000d) || code == 0x0020 || code == 0x0085 || code == 0x00a0
        || code == 0x1680 || (0x2000 <= code && code <= 0x200a) || code == 0x2028 || code
        == 0x2029 || code == 0x202f || code == 0x205f || code == 0x3000
}

/// The characters of `s`.
pub fn chars_of(s: &str) -> (r: Vec<char>)
    ensures
        r@ == s@,
{
    let len = s.unicode_len();
    let mut out: Vec<char> = Vec::new();
    let mut i: usize = 0;
    while i < len
        invariant
            len == s@.len(),
            i <= len,
            out@ == s@.take(i as int),
        decreases len - i,
    {
        out.push(s.get_char(i));
        assert(s@.take(i as int).push(s@[i as int]) =~= s@.take(i + 1));
        i += 1;
    }
    assert(s@.take(len as int) =~= s@);
    out
}

/// The string made of `chars`.
pub fn string_of(chars: &[char]) -> (r: String)
    ensures
        r@ == chars@,
{
    let mut out = String::new();
    let mut i: usize = 0;
    while i < chars.len()
        invariant
            i <= chars.len(),
            out@ == chars@.take(i as int),
        decreases chars.len() - i,
    {
        out.push(chars[i]);
        assert(chars@.take(i as int).push(chars@[i as int]) =~= chars@.take(i + 1));
        i += 1;
    }
    assert(chars@.take(chars.len() as int) =~= chars@);
    out
}

/// Whether two runs of characters are the same.
pub fn same_chars(a: &[char], b: &[char]) -> (r: bool)
    ensures
        r == (a@ == b@),
{
    if a.len() != b.len() {
        return false;
    }
    let mut i: usize = 0;
    while i < a.len()
        invariant
            a.len() == b.len(),
            i <= a.len(),
            a@.take(i as int) == b@.take(i as int),
        decreases a.len() - i,
    {
        if a[i] != b[i] {
            assert(a@[i as int] != b@[i as int]);
            return false;
        }
        assert(a@.take(i + 1) =~= a@.take(i as int).push(a@[i as int]));
        assert(b@.take(i + 1) =~= b@.take(i as int).push(b@[i as int]));
        i += 1;
    }
    assert(a@.take(a.len() as int) =~= a@);
    assert(b@.take(b.len() as int) =~= b@);
    true
}

/// Whether two strings hold the same text.
pub fn same_text(a: &str, b: &str) -> (r: bool)
    ensures
        r == (a@ == b@),
{
    let x = chars_of(a);
    let y = chars_of(b);
    same_chars(x.as_slice(), y.as_slice())
}

/// Whether two optional strings hold the same text, or are both absent.
pub fn same_optional_text(a: Option<&str>, b: Option<&str>) -> (r: bool)
    ensures
        r == (optional_text(a) == optional_text(b)),
{
    match (a, b) {
        (Some(x), Some(y)) => same_text(x, y),
        (None, None) => true,
        _ => false,
    }
}

/// The text of an optional string.
pub open spec fn optional_text(s: Option<&str>) -> Option<Seq<char>> {
    match s {
        Some(text) => Some(text@),
        None => None,
    }
}

/// The bounds of `chars` without the white space at its start and end.
pub fn trim(chars: &[char]) -> (r: (usize, usize))
    ensures
        r.0 <= r.1 <= chars.len(),
        chars@.subrange(r.0 as int, r.1 as int) == trimmed(chars@),
{
    let mut start: usize = 0;
    assert(chars@.subrange(0, chars.len() as int) =~= chars@);
    while start < chars.len() && is_whitespace(chars[start])
        invariant
            start <= chars.len(),
            skip_space(chars@.subrange(start as int, chars.len() as int)) == skip_space(chars@),
        decreases chars.len() - start,
    {
        assert(chars@.subrange(start as int, chars.len() as int).drop_first() =~= chars@.subrange(
            start + 1,
            chars.len() as int,
        ));
        start += 1;
    }
    assert(skip_space(chars@) == chars@.subrange(start as int, chars.len() as int));
    let end = trim_end_from(chars, start);
    (start, end)
}

/// The end of `chars` without the white space at its end, looking no further
/// back than `start`.
pub fn trim_end_from(chars: &[char], start: usize) -> (end: usize)
    requires
        start <= chars.len(),
    ensures
        start <= end <= chars.len(),
        chars@.subrange(start as int, end as int) == drop_space(
            chars@.subrange(start as int, chars.len() as int),
        ),
{
    let mut end: usize = chars.len();
    while end > start && is_whitespace(chars[end - 1])
        invariant
            start <= end <= chars.len(),
            drop_space(chars@.subrange(start as int, end as int)) == drop_space(
                chars@.subrange(start as int, chars.len() as int),
            ),
        decreases end - start,
    {
        assert(chars@.subrange(start as int, end as int).drop_last() =~= chars@.subrange(
            start as int,
            end - 1,
        ));
        end -= 1;
    }
    end
}

/// The pieces of `chars` between the occurrences of `sep`.
pub fn split_chars(chars: &[char], sep: char) -> (r: Vec<Vec<char>>)
    ensures
        r@.map_values(|piece: Vec<char>| piece@) == split(chars@, sep),
{
    let ghost view = |piece: Vec<char>| piece@;
    let mut done: Vec<Vec<char>> = Vec::new();
    let mut current: Vec<char> = Vec::new();
    let mut i: usize = 0;
    assert(chars@.take(0) =~= Seq::<char>::empty());
    assert(done@.map_values(view).push(current@) =~= seq![Seq::<char>::empty()]);
    while i < chars.len()
        invariant
            i <= chars.len(),
            view == |piece: Vec<char>| piece@,
            done@.map_values(view).push(current@) == split(chars@.take(i as int), sep),
        decreases chars.len() - i,
    {
        let ghost before = split(chars@.take(i as int), sep);
        proof {
            assert(chars@.take(i + 1).drop_last() =~= chars@.take(i as int));
            assert(before.drop_last() =~= done@.map_values(view));
            assert(before.last() == current@);
        }
        if chars[i] == sep {
            let ghost pieces = done@.map_values(view);
            done.push(current);
            current = Vec::new();
            assert(done@.map_values(view) =~= before);
        } else {
            current.push(chars[i]);
        }
        i += 1;
    }
    assert(chars@.take(chars.len() as int) =~= chars@);
    let ghost pieces = done@.map_values(view);
    done.push(current);
    assert(done@.map_values(view) =~= pieces.push(current@));
    done
}

/// Appends `text` to `out`.
pub fn append_text(out: &mut String, text: &str)
    ensures
        final(out)@ == old(out)@ + text@,
{
    out.append(text);
}

/// The value of a hexadecimal digit, in either case.
pub open spec fn hex_digit(c: char) -> Option<nat> {
    let code = c as u32;
    if '0' as u32 <= code <= '9' as u32 {
        Some((code - '0' as u32) as nat)
    } else if 'a' as u32 <= code <= 'f' as u32 {
        Some((code - 'a' as u32 + 10) as nat)
    } else if 'A' as u32 <= code <= 'F' as u32 {
        Some((code - 'A' as u32 + 10) as nat)
    } else {
        None
    }
}

/// The number that hexadecimal digits spell, if they are all digits. No
/// digits spell zero.
pub open spec fn hex_number(digits: Seq<char>) -> Option<nat>
    decreases digits.len(),
{
    if digits.len() == 0 {
        Some(0)
    } else {
        match (hex_number(digits.drop_last()), hex_digit(digits.last())) {
            (Some(head), Some(digit)) => Some(16 * head + digit),
            _ => None,
        }
    }
}

/// `s` without its underscores.
pub open spec fn without_underscores(s: Seq<char>) -> Seq<char>
    decreases s.len(),
{
    if s.len() == 0 {
        Seq::empty()
    } else if s.last() == '_' {
        without_underscores(s.drop_last())
    } else {
        without_underscores(s.drop_last()).push(s.last())
    }
}

/// The digits of a hexadecimal number as it is written on a command line:
/// what is left when the underscores that group the digits, then a `0x` in
/// front, then one plus sign in front have been taken away.
pub open spec fn hex_digits(text: Seq<char>) -> Seq<char> {
    let plain = without_underscores(text);
    let bare = if plain.len() >= 2 && plain[0] == '0' && plain[1] == 'x' {
        plain.skip(2)
    } else {
        plain
    };
    if bare.len() >= 1 && bare[0] == '+' {
        bare.skip(1)
    } else {
        bare
    }
}

/// The number below 2^32 that `text` spells in hexadecimal digits, such as
/// `0x0000_ffff` or `ffff`. A text without a digit, with a character that is
/// no digit, or with a number that does not fit 32 bits spells none.
pub open spec fn parsed_hex(text: Seq<char>) -> Option<u32> {
    let digits = hex_digits(text);
    match hex_number(digits) {
        Some(value) => if digits.len() > 0 && value <= 0xffff_ffff {
            Some(value as u32)
        } else {
            None
        },
        None => None,
    }
}

/// The value of a hexadecimal digit.
pub fn hex_digit_value(c: char) -> (r: Option<u32>)
    ensures
        match r {
            Some(value) => hex_digit(c) == Some(value as nat) && value < 16,
            None => hex_digit(c) is None,
        },
{
    let code: u32 = c as u32;
    if '0' as u32 <= code && code <= '9' as u32 {
        Some(code - '0' as u32)
    } else if 'a' as u32 <= code && code <= 'f' as u32 {
        Some(code - 'a' as u32 + 10)
    } else if 'A' as u32 <= code && code <= 'F' as u32 {
        Some(code - 'A' as u32 + 10)
    } else {
        None
    }
}

/// Once some of the first digits spell no number or too large a one, all
/// digits together do.
proof fn lemma_hex_number_grows(digits: Seq<char>, upto: int)
    requires
        0 <= upto <= digits.len(),
    ensures
        hex_number(digits.take(upto)) is None ==> hex_number(digits) is None,
        hex_number(digits) matches Some(whole) ==> hex_number(digits.take(upto)) matches Some(
            part,
        ) && part <= whole,
    decreases digits.len() - upto,
{
    if upto < digits.len() {
        assert(digits.take(upto + 1).drop_last() =~= digits.take(upto));
        lemma_hex_number_grows(digits, upto + 1);
    } else {
        assert(digits.take(upto) =~= digits);
    }
}

/// Parses a 32-bit number in hexadecimal digits, such as `0x0000_ffff`.
pub fn parse_hex(text: &str) -> (r: Option<u32>)
    ensures
        r == parsed_hex(text@),
{
    let chars = chars_of(text);
    let mut plain: Vec<char> = Vec::new();
    let mut i: usize = 0;
    assert(chars@.take(0) =~= Seq::<char>::empty());
    while i < chars.len()
        invariant
            i <= chars.len(),
            plain@ == without_underscores(chars@.take(i as int)),
        decreases chars.len() - i,
    {
        assert(chars@.take(i + 1).drop_last() =~= chars@.take(i as int));
        if chars[i] != '_' {
            plain.push(chars[i]);
        }
        i += 1;
    }
    assert(chars@.take(chars.len() as int) =~= chars@);
    let mut start: usize = 0;
    if plain.len() >= 2 && plain[0] == '0' && plain[1] == 'x' {
        start = 2;
    }
    if plain.len() >= start + 1 && plain[start] == '+' {
        start = start + 1;
    }
    let ghost digits = plain@.skip(start as int);
    proof {
        assert(plain@.skip(0) =~= plain@);
        if plain@.len() >= 3 && plain@[0] == '0' && plain@[1] == 'x' {
            assert(plain@.skip(2).skip(1) =~= plain@.skip(3));
        }
        assert(digits == hex_digits(text@));
    }
    if start == plain.len() {
        return None;
    }
    let mut value: u32 = 0;
    let mut j: usize = start;
    assert(digits.take(0) =~= Seq::<char>::empty());
    while j < plain.len()
        invariant
            start <= j <= plain.len(),
            start < plain.len(),
            digits == plain@.skip(start as int),
            digits == hex_digits(text@),
            hex_number(digits.take(j - start)) == Some(value as nat),
        decreases plain.len() - j,
    {
        proof {
            assert(digits.take(j - start + 1).drop_last() =~= digits.take(j - start));
            assert(digits.take(j - start + 1).last() == plain@[j as int]);
            lemma_hex_number_grows(digits, j - start + 1);
        }
        let digit = match hex_digit_value(plain[j]) {
            Some(digit) => digit,
            None => {
                return None;
            },
        };
        if value > 0x0fff_ffff {
            return None;
        }
        value = 16 * value + digit;
        j += 1;
    }
    assert(digits.take(plain.len() - start) =~= digits);
    Some(value)
}

} // verus!
