//! Character-level helpers on strings, with their specifications.

use vstd::prelude::*;
use vstd::std_specs::iter::IteratorSpec;

verus! {

/// The text held by an optional string.
pub open spec fn opt_text(o: Option<String>) -> Option<Seq<char>> {
    match o {
        Some(s) => Some(s@),
        None => None,
    }
}

/// The texts of a sequence of strings.
pub open spec fn strings_text(v: Seq<String>) -> Seq<Seq<char>> {
    v.map_values(|s: String| s@)
}

/// `String::push` of std: appends one character.
#[verifier::external_body]
pub fn push_char(s: &mut String, c: char)
    ensures
        final(s)@ == old(s)@.push(c),
{
    s.push(c);
}

/// The characters of a string slice, in order.
pub fn chars_of(s: &str) -> (r: Vec<char>)
    ensures
        r@ == s@,
{
    broadcast use vstd::string::axiom_spec_iter, vstd::string::next_postcondition;
    let mut it = s.chars();
    let mut out: Vec<char> = Vec::new();
    loop
        invariant
            out@ + it.remaining() == s@,
            it.decrease() is Some,
        ensures
            out@ == s@,
        decreases it.decrease()->0,
    {
        match it.next() {
            Some(c) => {
                out.push(c);
            },
            None => {
                assert(out@ + it.remaining() =~= out@);
                break;
            },
        }
    }
    out
}

/// Builds a `String` from the characters of a vector.
pub fn string_from_chars(cs: &Vec<char>) -> (r: String)
    ensures
        r@ == cs@,
{
    let mut s = String::new();
    let mut i: usize = 0;
    while i < cs.len()
        invariant
            i <= cs.len(),
            s@ == cs@.subrange(0, i as int),
        decreases cs.len() - i,
    {
        push_char(&mut s, cs[i]);
        i = i + 1;
        assert(s@ =~= cs@.subrange(0, i as int));
    }
    assert(cs@.subrange(0, cs.len() as int) =~= cs@);
    s
}

/// Copies a string slice into a new `String`.
pub fn owned(s: &str) -> (r: String)
    ensures
        r@ == s@,
{
    String::from_str(s)
}

/// The concatenation of two strings.
pub fn join2(a: &str, b: &str) -> (r: String)
    ensures
        r@ == a@ + b@,
{
    let mut s = String::from_str(a);
    s.append(b);
    s
}

/// The concatenation of three strings.
pub fn join3(a: &str, b: &str, c: &str) -> (r: String)
    ensures
        r@ == a@ + b@ + c@,
{
    let mut s = String::from_str(a);
    s.append(b);
    s.append(c);
    s
}

/// Whether two strings hold the same characters.
pub fn same_text(a: &str, b: &str) -> (r: bool)
    ensures
        r == (a@ == b@),
{
    let x = chars_of(a);
    let y = chars_of(b);
    if x.len() != y.len() {
        return false;
    }
    let mut i: usize = 0;
    while i < x.len()
        invariant
            x@ == a@,
            y@ == b@,
            x.len() == y.len(),
            i <= x.len(),
            forall|j: int| 0 <= j < i ==> x@[j] == y@[j],
        decreases x.len() - i,
    {
        if x[i] != y[i] {
            return false;
        }
        i = i + 1;
    }
    assert(x@ =~= y@);
    true
}

/// Whether `prefix` begins `s`.
pub fn starts_with(s: &str, prefix: &str) -> (r: bool)
    ensures
        r == prefix@.is_prefix_of(s@),
{
    let x = chars_of(s);
    let p = chars_of(prefix);
    if p.len() > x.len() {
        return false;
    }
    let mut i: usize = 0;
    while i < p.len()
        invariant
            x@ == s@,
            p@ == prefix@,
            p.len() <= x.len(),
            i <= p.len(),
            forall|j: int| 0 <= j < i ==> x@[j] == p@[j],
        decreases p.len() - i,
    {
        if x[i] != p[i] {
            return false;
        }
        i = i + 1;
    }
    true
}

/// Whether `needle` occurs in `hay` at position `at`.
pub open spec fn occurs_at(hay: Seq<char>, needle: Seq<char>, at: int) -> bool {
    0 <= at && at + needle.len() <= hay.len() && hay.subrange(at, at + needle.len()) == needle
}

/// Whether `needle` occurs anywhere in `hay`.
pub open spec fn occurs_in(hay: Seq<char>, needle: Seq<char>) -> bool {
    exists|at: int| occurs_at(hay, needle, at)
}

fn matches_at(x: &Vec<char>, p: &Vec<char>, at: usize) -> (r: bool)
    requires
        at + p.len() <= x.len(),
    ensures
        r == occurs_at(x@, p@, at as int),
{
    let mut i: usize = 0;
    while i < p.len()
        invariant
            at + p.len() <= x.len(),
            i <= p.len(),
            forall|j: int| 0 <= j < i ==> x@[at + j] == p@[j],
        decreases p.len() - i,
    {
        if x[at + i] != p[i] {
            assert(x@.subrange(at as int, at + p@.len())[i as int] != p@[i as int]);
            return false;
        }
        i = i + 1;
    }
    assert(x@.subrange(at as int, at + p@.len()) =~= p@);
    true
}

/// Whether `needle` occurs in `hay` (as `str::contains` with a string pattern).
pub fn contains_text(hay: &str, needle: &str) -> (r: bool)
    ensures
        r == occurs_in(hay@, needle@),
{
    let x = chars_of(hay);
    let p = chars_of(needle);
    if p.len() > x.len() {
        assert forall|at: int| !occurs_at(hay@, needle@, at) by {}
        return false;
    }
    let last = x.len() - p.len();
    let mut at: usize = 0;
    while at <= last
        invariant
            x@ == hay@,
            p@ == needle@,
            last + p.len() == x.len(),
            forall|k: int| 0 <= k < at ==> !occurs_at(hay@, needle@, k),
        decreases last + 1 - at,
    {
        if matches_at(&x, &p, at) {
            return true;
        }
        if at == last {
            assert forall|k: int| !occurs_at(hay@, needle@, k) by {}
            return false;
        }
        at = at + 1;
    }
    assert forall|k: int| !occurs_at(hay@, needle@, k) by {}
    false
}

/// `s` with every trailing `c` removed (as `str::trim_end_matches` with a character).
pub open spec fn trim_end_char(s: Seq<char>, c: char) -> Seq<char>
    decreases s.len(),
{
    if s.len() > 0 && s.last() == c {
        trim_end_char(s.drop_last(), c)
    } else {
        s
    }
}

/// Removes every trailing `c` from `s`.
pub fn trim_end_matching(s: &str, c: char) -> (r: String)
    ensures
        r@ == trim_end_char(s@, c),
{
    let x = chars_of(s);
    let mut n: usize = x.len();
    assert(x@.subrange(0, n as int) =~= s@);
    while n > 0 && x[n - 1] == c
        invariant
            x@ == s@,
            n <= x.len(),
            trim_end_char(x@.subrange(0, n as int), c) == trim_end_char(s@, c),
        decreases n,
    {
        assert(x@.subrange(0, n as int).drop_last() =~= x@.subrange(0, n - 1));
        n = n - 1;
    }
    let mut out: Vec<char> = Vec::new();
    let mut i: usize = 0;
    while i < n
        invariant
            n <= x.len(),
            i <= n,
            out@ == x@.subrange(0, i as int),
        decreases n - i,
    {
        out.push(x[i]);
        i = i + 1;
        assert(out@ =~= x@.subrange(0, i as int));
    }
    assert(out@ =~= x@.subrange(0, n as int));
    string_from_chars(&out)
}

/// The decimal digit for `d < 10`.
pub open spec fn digit_char(d: int) -> char {
    if d == 0 { '0' }
    else if d == 1 { '1' }
    else if d == 2 { '2' }
    else if d == 3 { '3' }
    else if d == 4 { '4' }
    else if d == 5 { '5' }
    else if d == 6 { '6' }
    else if d == 7 { '7' }
    else if d == 8 { '8' }
    else if d == 9 { '9' }
    else if d == 10 { 'a' }
    else if d == 11 { 'b' }
    else if d == 12 { 'c' }
    else if d == 13 { 'd' }
    else if d == 14 { 'e' }
    else { 'f' }
}

fn digit(d: u64) -> (c: char)
    requires
        d < 16,
    ensures
        c == digit_char(d as int),
{
    if d == 0 { '0' }
    else if d == 1 { '1' }
    else if d == 2 { '2' }
    else if d == 3 { '3' }
    else if d == 4 { '4' }
    else if d == 5 { '5' }
    else if d == 6 { '6' }
    else if d == 7 { '7' }
    else if d == 8 { '8' }
    else if d == 9 { '9' }
    else if d == 10 { 'a' }
    else if d == 11 { 'b' }
    else if d == 12 { 'c' }
    else if d == 13 { 'd' }
    else if d == 14 { 'e' }
    else { 'f' }
}

/// The decimal text of `n`, without leading zeros (as `u64::to_string`).
pub open spec fn decimal_text(n: nat) -> Seq<char>
    decreases n,
{
    if n < 10 {
        seq![digit_char(n as int)]
    } else {
        decimal_text(n / 10).push(digit_char((n % 10) as int))
    }
}

/// Writes `n` in decimal.
pub fn decimal(n: u64) -> (r: String)
    ensures
        r@ == decimal_text(n as nat),
    decreases n,
{
    if n < 10 {
        let mut s = String::new();
        push_char(&mut s, digit(n));
        assert(s@ =~= seq![digit_char(n as int)]);
        s
    } else {
        let mut s = decimal(n / 10);
        push_char(&mut s, digit(n % 10));
        s
    }
}

/// The two lowercase hexadecimal digits of a byte (as `format!("{:02x}", b)`).
pub open spec fn hex_byte_text(b: u8) -> Seq<char> {
    seq![digit_char((b / 16) as int), digit_char((b % 16) as int)]
}

/// Appends the two lowercase hexadecimal digits of `b` to `s`.
pub fn push_hex_byte(s: &mut String, b: u8)
    ensures
        final(s)@ == old(s)@ + hex_byte_text(b),
{
    push_char(s, digit((b / 16) as u64));
    push_char(s, digit((b % 16) as u64));
    assert(final(s)@ =~= old(s)@ + hex_byte_text(b));
}


/// What `str::to_lowercase` of std makes of a text (Unicode lowercase mapping).
pub uninterp spec fn lowercase_text(s: Seq<char>) -> Seq<char>;

/// `str::to_lowercase` of std. The contract claims only that the result is
/// determined by the text.
#[verifier::external_body]
pub fn to_lowercase(s: &str) -> (r: String)
    ensures
        r@ == lowercase_text(s@),
{
    s.to_lowercase()
}


/// The decimal text of a signed number: a minus sign for negative ones.
pub open spec fn signed_decimal_text(n: int) -> Seq<char> {
    if n < 0 {
        "-"@ + decimal_text((-n) as nat)
    } else {
        decimal_text(n as nat)
    }
}

/// Writes `n` in decimal (as `i32::to_string`).
pub fn decimal_i32(n: i32) -> (r: String)
    ensures
        r@ == signed_decimal_text(n as int),
{
    if n < 0 {
        let m: u64 = (-(n as i64)) as u64;
        let d = decimal(m);
        join2("-", d.as_str())
    } else {
        decimal(n as u64)
    }
}

/// Whether a character has the Unicode `White_Space` property (the
/// whitespace of `char::is_whitespace`).
pub open spec fn is_white_space(c: char) -> bool {
    ||| '\u{9}' <= c <= '\u{d}'
    ||| c == ' '
    ||| c == '\u{85}'
    ||| c == '\u{a0}'
    ||| c == '\u{1680}'
    ||| '\u{2000}' <= c <= '\u{200a}'
    ||| c == '\u{2028}'
    ||| c == '\u{2029}'
    ||| c == '\u{202f}'
    ||| c == '\u{205f}'
    ||| c == '\u{3000}'
}

/// A text without its leading whitespace.
pub open spec fn trim_start_text(s: Seq<char>) -> Seq<char>
    decreases s.len(),
{
    if s.len() > 0 && is_white_space(s[0]) {
        trim_start_text(s.drop_first())
    } else {
        s
    }
}

/// A text without its trailing whitespace.
pub open spec fn trim_end_text(s: Seq<char>) -> Seq<char>
    decreases s.len(),
{
    if s.len() > 0 && is_white_space(s.last()) {
        trim_end_text(s.drop_last())
    } else {
        s
    }
}

/// A text without its leading and trailing whitespace (as `str::trim`).
pub open spec fn trimmed_text(s: Seq<char>) -> Seq<char> {
    trim_end_text(trim_start_text(s))
}

fn white_space(c: char) -> (r: bool)
    ensures
        r == is_white_space(c),
{
    ('\u{9}' <= c && c <= '\u{d}') || c == ' ' || c == '\u{85}' || c == '\u{a0}' || c == '\u{1680}'
        || ('\u{2000}' <= c && c <= '\u{200a}') || c == '\u{2028}' || c == '\u{2029}' || c == '\u{202f}'
        || c == '\u{205f}' || c == '\u{3000}'
}

/// A copy of the text without its leading and trailing whitespace.
pub fn trim(s: &str) -> (r: String)
    ensures
        r@ == trimmed_text(s@),
{
    let cs = chars_of(s);
    let mut a: usize = 0;
    assert(cs@.subrange(0, cs@.len() as int) =~= cs@);
    while a < cs.len() && white_space(cs[a])
        invariant
            a <= cs.len(),
            trim_start_text(cs@) == trim_start_text(cs@.subrange(a as int, cs@.len() as int)),
        decreases cs.len() - a,
    {
        let ghost rest = cs@.subrange(a as int, cs@.len() as int);
        assert(rest.drop_first() =~= cs@.subrange(a + 1, cs@.len() as int));
        a = a + 1;
    }
    let ghost start = cs@.subrange(a as int, cs@.len() as int);
    assert(trim_start_text(cs@) == start);
    let mut b: usize = cs.len();
    while b > a && white_space(cs[b - 1])
        invariant
            a <= b <= cs.len(),
            trim_end_text(start) == trim_end_text(cs@.subrange(a as int, b as int)),
        decreases b - a,
    {
        let ghost part = cs@.subrange(a as int, b as int);
        assert(part.drop_last() =~= cs@.subrange(a as int, b - 1));
        b = b - 1;
    }
    let ghost kept = cs@.subrange(a as int, b as int);
    assert(trim_end_text(start) == kept);
    let mut out: Vec<char> = Vec::new();
    let mut i: usize = a;
    while i < b
        invariant
            a <= i <= b <= cs.len(),
            out@ == cs@.subrange(a as int, i as int),
        decreases b - i,
    {
        out.push(cs[i]);
        i = i + 1;
        assert(out@ =~= cs@.subrange(a as int, i as int));
    }
    string_from_chars(&out)
}

/// Whether a character is an ASCII decimal digit.
pub open spec fn is_decimal_digit(c: char) -> bool {
    '0' <= c <= '9'
}

/// The number written by a sequence of decimal digits.
pub open spec fn digits_value(d: Seq<char>) -> int
    decreases d.len(),
{
    if d.len() == 0 {
        0
    } else {
        digits_value(d.drop_last()) * 10 + (d.last() as int - '0' as int)
    }
}

/// The number written by a text of an optional `+` or `-` sign followed by
/// one or more decimal digits, or `None` for any other text.
pub open spec fn signed_decimal_value(s: Seq<char>) -> Option<int> {
    let signed = s.len() > 0 && (s[0] == '-' || s[0] == '+');
    let d = if signed { s.drop_first() } else { s };
    if d.len() > 0 && forall|i: int| 0 <= i < d.len() ==> #[trigger] is_decimal_digit(d[i]) {
        Some(if signed && s[0] == '-' { -digits_value(d) } else { digits_value(d) })
    } else {
        None
    }
}

/// Whether a text is an `i32` written in decimal.
pub open spec fn parses_as_i32(s: Seq<char>, v: i32) -> bool {
    signed_decimal_value(s) == Some(v as int)
}

/// What `str::parse::<i32>` of std makes of a text: the number, or the
/// message of the parse error.
pub uninterp spec fn i32_parse(s: Seq<char>) -> Result<i32, Seq<char>>;

/// `str::parse::<i32>` of std, with the error as its message. As documented
/// for `i32::from_str_radix`, a text parses when it is an optional `+` or `-`
/// followed by decimal digits whose number fits in an `i32`, and then to that
/// number; any other text is an error. The error's message is left unsaid: it
/// is only claimed to be determined by the text.
#[verifier::external_body]
pub fn parse_i32(s: &str) -> (r: Result<i32, String>)
    ensures
        match (r, i32_parse(s@)) {
            (Ok(a), Ok(b)) => a == b,
            (Err(a), Err(b)) => a@ == b,
            _ => false,
        },
        r is Ok <==> (signed_decimal_value(s@) matches Some(v) && i32::MIN <= v <= i32::MAX),
        r matches Ok(v) ==> parses_as_i32(s@, v),
{
    match s.parse::<i32>() {
        Ok(v) => Ok(v),
        Err(e) => Err(e.to_string()),
    }
}

/// What `String::from_utf8_lossy` of std makes of bytes (invalid sequences
/// replaced by U+FFFD).
pub uninterp spec fn utf8_lossy_text(bytes: Seq<u8>) -> Seq<char>;

/// `String::from_utf8_lossy` of std. The contract claims only that the result
/// is determined by the bytes.
#[verifier::external_body]
pub fn utf8_lossy(bytes: &[u8]) -> (r: String)
    ensures
        r@ == utf8_lossy_text(bytes@),
{
    String::from_utf8_lossy(bytes).into_owned()
}

} // verus!
