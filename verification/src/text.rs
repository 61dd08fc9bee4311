//! Character-level string helpers shared by the rest of the crate:
//! conversions between strings and character vectors, equality,
//! whitespace trimming, and decimal formatting and parsing of integers.
use vstd::prelude::*;
use vstd::string::*;

verus! {

/// The characters of `s`, in order.
pub fn str_chars(s: &str) -> (res: Vec<char>)
    ensures
        res@ == s@,
{
    let n = s.unicode_len();
    let mut out: Vec<char> = Vec::new();
    let mut i: usize = 0;
    while i < n
        invariant
            n == s@.len(),
            i <= n,
            out@ == s@.subrange(0, i as int),
        decreases n - i,
    {
        out.push(s.get_char(i));
        i = i + 1;
    }
    assert(out@ == s@);
    out
}

/// `String::push`. The contract claims that the character is appended.
#[verifier::external_body]
fn push_char(s: &mut String, c: char)
    ensures
        final(s)@ == old(s)@.push(c),
{
    s.push(c)
}

/// A `String` holding exactly `chars`, in order.
pub fn string_from_chars(chars: &Vec<char>) -> (res: String)
    ensures
        res@ == chars@,
{
    let mut s = String::new();
    let n = chars.len();
    let mut i: usize = 0;
    while i < n
        invariant
            n == chars@.len(),
            i <= n,
            s@ == chars@.subrange(0, i as int),
        decreases n - i,
    {
        push_char(&mut s, chars[i]);
        assert(chars@.subrange(0, i + 1) =~= chars@.subrange(0, i as int).push(chars@[i as int]));
        i = i + 1;
    }
    assert(chars@.subrange(0, n as int) =~= chars@);
    s
}

/// A copy of `s` as an owned `String`.
pub fn owned(s: &str) -> (res: String)
    ensures
        res@ == s@,
{
    String::from_str(s)
}

/// Whether two strings hold the same characters.
pub fn str_eq(a: &str, b: &str) -> (res: bool)
    ensures
        res == (a@ == b@),
{
    let x = String::from_str(a);
    let y = String::from_str(b);
    x == y
}

/// The concatenation of three strings.
pub fn concat3(a: &str, b: &str, c: &str) -> (res: String)
    ensures
        res@ == a@ + b@ + c@,
{
    let mut s = String::from_str(a);
    s.append(b);
    s.append(c);
    s
}

/// The concatenation of two strings.
pub fn concat2(a: &str, b: &str) -> (res: String)
    ensures
        res@ == a@ + b@,
{
    let mut s = String::from_str(a);
    s.append(b);
    s
}

/// Unicode `White_Space`, the property that `char::is_whitespace` tests.
pub open spec fn is_whitespace(c: char) -> bool {
    let u = c as u32;
    ||| 0x09 <= u <= 0x0d
    ||| u == 0x20
    ||| u == 0x85
    ||| u == 0xa0
    ||| u == 0x1680
    ||| 0x2000 <= u <= 0x200a
    ||| u == 0x2028
    ||| u == 0x2029
    ||| u == 0x202f
    ||| u == 0x205f
    ||| u == 0x3000
}

/// Number of leading whitespace characters of `s`.
pub open spec fn leading_ws(s: Seq<char>) -> nat
    decreases s.len(),
{
    if s.len() > 0 && is_whitespace(s[0]) {
        1 + leading_ws(s.drop_first())
    } else {
        0
    }
}

/// Number of trailing whitespace characters of `s`.
pub open spec fn trailing_ws(s: Seq<char>) -> nat
    decreases s.len(),
{
    if s.len() > 0 && is_whitespace(s.last()) {
        1 + trailing_ws(s.drop_last())
    } else {
        0
    }
}

/// `s` with leading and trailing whitespace removed, as `str::trim` does.
pub open spec fn trim_spec(s: Seq<char>) -> Seq<char> {
    let front = leading_ws(s);
    let rest = s.subrange(front as int, s.len() as int);
    rest.subrange(0, rest.len() - trailing_ws(rest))
}

pub fn char_is_whitespace(c: char) -> (res: bool)
    ensures
        res == is_whitespace(c),
{
    let u = c as u32;
    (0x09 <= u && u <= 0x0d) || u == 0x20 || u == 0x85 || u == 0xa0 || u == 0x1680 || (0x2000
        <= u && u <= 0x200a) || u == 0x2028 || u == 0x2029 || u == 0x202f || u == 0x205f || u
        == 0x3000
}

proof fn lemma_leading_ws_bound(s: Seq<char>)
    ensures
        leading_ws(s) <= s.len(),
        forall|j: int| 0 <= j < leading_ws(s) ==> is_whitespace(#[trigger] s[j]),
        leading_ws(s) < s.len() ==> !is_whitespace(s[leading_ws(s) as int]),
    decreases s.len(),
{
    if s.len() > 0 && is_whitespace(s[0]) {
        lemma_leading_ws_bound(s.drop_first());
        assert forall|j: int| 0 <= j < leading_ws(s) implies is_whitespace(#[trigger] s[j]) by {
            if j > 0 {
                assert(s[j] == s.drop_first()[j - 1]);
            }
        }
        if leading_ws(s) < s.len() {
            assert(s[leading_ws(s) as int] == s.drop_first()[leading_ws(s.drop_first()) as int]);
        }
    }
}

proof fn lemma_trailing_ws_bound(s: Seq<char>)
    ensures
        trailing_ws(s) <= s.len(),
        forall|j: int| s.len() - trailing_ws(s) <= j < s.len() ==> is_whitespace(#[trigger] s[j]),
        trailing_ws(s) < s.len() ==> !is_whitespace(s[s.len() - trailing_ws(s) - 1]),
    decreases s.len(),
{
    if s.len() > 0 && is_whitespace(s.last()) {
        lemma_trailing_ws_bound(s.drop_last());
        assert forall|j: int|
            s.len() - trailing_ws(s) <= j < s.len() implies is_whitespace(#[trigger] s[j]) by {
            if j < s.len() - 1 {
                assert(s[j] == s.drop_last()[j]);
            }
        }
        if trailing_ws(s) < s.len() {
            let t = s.drop_last();
            assert(s[s.len() - trailing_ws(s) - 1] == t[t.len() - trailing_ws(t) - 1]);
        }
    }
}

/// What trimming keeps: the stretch of `s` from its first to its last
/// character that is not whitespace. Everything before and after that
/// stretch is whitespace, the stretch starts and ends with a character
/// that is not, and a text of whitespace only trims to nothing.
pub proof fn lemma_trim_keeps_inner_text(s: Seq<char>)
    ensures
        (exists|k: int| 0 <= k < s.len() && !is_whitespace(#[trigger] s[k])) ==> exists|
            i: int,
            j: int,
        |
            0 <= i < j <= s.len() && #[trigger] trim_spec(s) == #[trigger] s.subrange(i, j) && (
            forall|k: int| 0 <= k < i ==> is_whitespace(#[trigger] s[k])) && (forall|k: int|
                j <= k < s.len() ==> is_whitespace(#[trigger] s[k])) && !is_whitespace(s[i])
                && !is_whitespace(s[j - 1]),
        (forall|k: int| 0 <= k < s.len() ==> is_whitespace(#[trigger] s[k])) ==> trim_spec(s).len()
            == 0,
{
    lemma_leading_ws_bound(s);
    let front = leading_ws(s) as int;
    let rest = s.subrange(front, s.len() as int);
    lemma_trailing_ws_bound(rest);
    let back = trailing_ws(rest) as int;
    let i = front;
    let j = s.len() - back;
    assert(trim_spec(s) =~= s.subrange(i, j));
    if exists|k: int| 0 <= k < s.len() && !is_whitespace(#[trigger] s[k]) {
        let k = choose|k: int| 0 <= k < s.len() && !is_whitespace(#[trigger] s[k]);
        assert(front < s.len()) by {
            if front >= s.len() {
                assert(is_whitespace(s[k]));
            }
        }
        assert(rest[0] == s[front]);
        assert(back < rest.len()) by {
            if back >= rest.len() {
                assert(is_whitespace(rest[0]));
            }
        }
        assert(rest[rest.len() - back - 1] == s[j - 1]);
        assert forall|k: int| j <= k < s.len() implies is_whitespace(#[trigger] s[k]) by {
            assert(rest[k - front] == s[k]);
        }
    }
    if forall|k: int| 0 <= k < s.len() ==> is_whitespace(#[trigger] s[k]) {
        if front < s.len() {
            assert(is_whitespace(s[front]));
        }
    }
}

/// Leading whitespace count, computed from a scan position onward.
proof fn lemma_leading_ws_from(s: Seq<char>, i: int)
    requires
        0 <= i <= s.len(),
        forall|j: int| 0 <= j < i ==> is_whitespace(#[trigger] s[j]),
    ensures
        leading_ws(s) == i + leading_ws(s.subrange(i, s.len() as int)),
    decreases i,
{
    if i > 0 {
        let t = s.drop_first();
        assert forall|j: int| 0 <= j < i - 1 implies is_whitespace(#[trigger] t[j]) by {
            assert(t[j] == s[j + 1]);
        }
        assert(is_whitespace(s[0]));
        lemma_leading_ws_from(t, i - 1);
        assert(t.subrange(i - 1, t.len() as int) =~= s.subrange(i, s.len() as int));
    } else {
        assert(s.subrange(0, s.len() as int) =~= s);
    }
}

/// Trailing whitespace count, computed from a scan position backward.
proof fn lemma_trailing_ws_from(s: Seq<char>, e: int)
    requires
        0 <= e <= s.len(),
        forall|j: int| e <= j < s.len() ==> is_whitespace(#[trigger] s[j]),
    ensures
        trailing_ws(s) == (s.len() - e) + trailing_ws(s.subrange(0, e)),
    decreases s.len() - e,
{
    if e < s.len() {
        let t = s.drop_last();
        assert forall|j: int| e <= j < t.len() implies is_whitespace(#[trigger] t[j]) by {
            assert(t[j] == s[j]);
        }
        assert(is_whitespace(s.last()));
        lemma_trailing_ws_from(t, e);
        assert(t.subrange(0, e) =~= s.subrange(0, e));
    } else {
        assert(s.subrange(0, e) =~= s);
    }
}

/// `s` without leading and trailing whitespace (`str::trim`).
pub fn trim_chars(s: &Vec<char>) -> (res: Vec<char>)
    ensures
        res@ == trim_spec(s@),
{
    let n = s.len();
    let mut start: usize = 0;
    while start < n && char_is_whitespace(s[start])
        invariant
            n == s@.len(),
            start <= n,
            forall|j: int| 0 <= j < start ==> is_whitespace(#[trigger] s@[j]),
        decreases n - start,
    {
        start = start + 1;
    }
    proof {
        lemma_leading_ws_from(s@, start as int);
        let r = s@.subrange(start as int, n as int);
        if start < n {
            assert(r[0] == s@[start as int]);
        }
        assert(leading_ws(r) == 0);
    }
    let ghost rest = s@.subrange(start as int, n as int);
    let mut end: usize = n;
    while end > start && char_is_whitespace(s[end - 1])
        invariant
            n == s@.len(),
            start <= end <= n,
            rest == s@.subrange(start as int, n as int),
            forall|j: int| end <= j < n ==> is_whitespace(#[trigger] s@[j]),
        decreases end,
    {
        end = end - 1;
    }
    proof {
        let e = end - start;
        assert forall|j: int| e <= j < rest.len() implies is_whitespace(#[trigger] rest[j]) by {
            assert(rest[j] == s@[start + j]);
        }
        lemma_trailing_ws_from(rest, e);
        let u = rest.subrange(0, e);
        if e > 0 {
            assert(u.last() == s@[end - 1]);
        }
        assert(trailing_ws(u) == 0);
    }
    let mut out: Vec<char> = Vec::new();
    let mut k: usize = start;
    while k < end
        invariant
            n == s@.len(),
            start <= k <= end <= n,
            out@ == s@.subrange(start as int, k as int),
        decreases end - k,
    {
        out.push(s[k]);
        k = k + 1;
    }
    assert(out@ =~= rest.subrange(0, rest.len() - trailing_ws(rest)));
    out
}

/// `s` without leading and trailing whitespace, as a `String`.
pub fn trim_str(s: &str) -> (res: String)
    ensures
        res@ == trim_spec(s@),
{
    let chars = str_chars(s);
    let t = trim_chars(&chars);
    string_from_chars(&t)
}

/// The decimal digit character for `d` (for `d` below ten).
pub open spec fn digit_char(d: nat) -> char {
    (48 + d) as char
}

/// Whether `c` is one of the ASCII digits `0`..`9`.
pub open spec fn is_digit(c: char) -> bool {
    48 <= (c as u32) <= 57
}

/// The value of the ASCII digit `c`.
pub open spec fn digit_value(c: char) -> nat {
    ((c as u32) - 48) as nat
}

/// The decimal representation of `n`, without sign or leading zeros
/// (what `Display` writes for an unsigned integer).
pub open spec fn decimal(n: nat) -> Seq<char>
    decreases n,
{
    if n < 10 {
        seq![digit_char(n)]
    } else {
        decimal(n / 10).push(digit_char(n % 10))
    }
}

fn digit_to_char(d: u64) -> (c: char)
    requires
        d < 10,
    ensures
        c == digit_char(d as nat),
        is_digit(c),
        digit_value(c) == d,
{
    let b: u8 = 48u8 + (d as u8);
    let c = b as char;
    assert(c as u32 == b as u32);
    c
}

/// The decimal representation of `n` as characters.
pub fn decimal_chars(n: u64) -> (res: Vec<char>)
    ensures
        res@ == decimal(n as nat),
    decreases n,
{
    if n < 10 {
        let mut v: Vec<char> = Vec::new();
        v.push(digit_to_char(n));
        v
    } else {
        let mut v = decimal_chars(n / 10);
        v.push(digit_to_char(n % 10));
        v
    }
}

/// The decimal representation of `n` as a `String`.
pub fn decimal_string(n: u64) -> (res: String)
    ensures
        res@ == decimal(n as nat),
{
    let v = decimal_chars(n);
    string_from_chars(&v)
}

/// The ways in which reading an unsigned integer from text fails,
/// as std's `IntErrorKind` names them.
#[derive(Debug, Clone, Copy, PartialEq, Eq)]
pub enum IntParseError {
    Empty,
    InvalidDigit,
    PosOverflow,
}

/// The `Display` text of the parse error.
pub open spec fn int_parse_error_text(e: IntParseError) -> Seq<char> {
    match e {
        IntParseError::Empty => "cannot parse integer from empty string"@,
        IntParseError::InvalidDigit => "invalid digit found in string"@,
        IntParseError::PosOverflow => "number too large to fit in target type"@,
    }
}

impl IntParseError {
    /// The message std gives for this kind of failure.
    pub fn message(&self) -> (res: String)
        ensures
            res@ == int_parse_error_text(*self),
    {
        match self {
            IntParseError::Empty => owned("cannot parse integer from empty string"),
            IntParseError::InvalidDigit => owned("invalid digit found in string"),
            IntParseError::PosOverflow => owned("number too large to fit in target type"),
        }
    }
}

/// The value of the first `n` characters of `s` read as decimal digits,
/// left to right, with values above `max` refused at the digit where they
/// first exceed it.
pub open spec fn scan_digits(s: Seq<char>, max: int, n: nat) -> Result<int, IntParseError>
    decreases n,
{
    if n == 0 {
        Ok(0)
    } else {
        match scan_digits(s, max, (n - 1) as nat) {
            Err(e) => Err(e),
            Ok(v) => {
                let c = s[n - 1];
                if !is_digit(c) {
                    Err(IntParseError::InvalidDigit)
                } else if v * 10 + digit_value(c) > max {
                    Err(IntParseError::PosOverflow)
                } else {
                    Ok(v * 10 + digit_value(c))
                }
            },
        }
    }
}

/// Reading an unsigned integer of at most `max` from text, as `str::parse`
/// does for unsigned types: an optional leading `+`, then decimal digits.
pub open spec fn parse_unsigned(s: Seq<char>, max: int) -> Result<int, IntParseError> {
    if s.len() == 0 {
        Err(IntParseError::Empty)
    } else if (s[0] == '+' || s[0] == '-') && s.len() == 1 {
        Err(IntParseError::InvalidDigit)
    } else if s[0] == '+' {
        scan_digits(s.drop_first(), max, (s.len() - 1) as nat)
    } else {
        scan_digits(s, max, s.len())
    }
}

proof fn lemma_scan_bound(s: Seq<char>, max: int, n: nat)
    requires
        max >= 0,
    ensures
        scan_digits(s, max, n) matches Ok(v) ==> 0 <= v <= max,
    decreases n,
{
    if n > 0 {
        lemma_scan_bound(s, max, (n - 1) as nat);
    }
}

fn scan_digits_exec(s: &Vec<char>, from: usize, max: u64) -> (res: Result<u64, IntParseError>)
    requires
        from <= s@.len(),
    ensures
        match res {
            Ok(v) => scan_digits(s@.subrange(from as int, s@.len() as int), max as int, (s@.len()
                - from) as nat) == Ok::<int, IntParseError>(v as int),
            Err(e) => scan_digits(s@.subrange(from as int, s@.len() as int), max as int, (s@.len()
                - from) as nat) == Err::<int, IntParseError>(e),
        },
{
    let ghost t = s@.subrange(from as int, s@.len() as int);
    let n = s.len();
    let mut acc: u64 = 0;
    let mut i: usize = from;
    while i < n
        invariant
            n == s@.len(),
            from <= i <= n,
            t == s@.subrange(from as int, n as int),
            scan_digits(t, max as int, (i - from) as nat) == Ok::<int, IntParseError>(acc as int),
        decreases n - i,
    {
        let c = s[i];
        let u = c as u32;
        assert(t[i - from] == c);
        if u < 48 || u > 57 {
            proof {
                lemma_scan_ext(t, max as int, (i - from) as nat);
            }
            let r: Result<u64, IntParseError> = Err(IntParseError::InvalidDigit);
            proof {
                lemma_scan_stops(t, max as int, (i - from + 1) as nat, (n - from) as nat);
            }
            return r;
        }
        let d: u64 = (u - 48) as u64;
        let wide: u128 = (acc as u128) * 10 + (d as u128);
        if wide > max as u128 {
            let r: Result<u64, IntParseError> = Err(IntParseError::PosOverflow);
            proof {
                lemma_scan_stops(t, max as int, (i - from + 1) as nat, (n - from) as nat);
            }
            return r;
        }
        acc = wide as u64;
        i = i + 1;
    }
    Ok(acc)
}

/// Unfolding of `scan_digits` at step `n + 1` (helper for the scanner).
proof fn lemma_scan_ext(s: Seq<char>, max: int, n: nat)
    ensures
        scan_digits(s, max, n + 1) == (match scan_digits(s, max, n) {
            Err(e) => Err(e),
            Ok(v) => {
                let c = s[n as int];
                if !is_digit(c) {
                    Err(IntParseError::InvalidDigit)
                } else if v * 10 + digit_value(c) > max {
                    Err(IntParseError::PosOverflow)
                } else {
                    Ok(v * 10 + digit_value(c))
                }
            },
        }),
{
}

/// Once the scan has failed, it stays failed with the same error.
proof fn lemma_scan_stops(s: Seq<char>, max: int, k: nat, n: nat)
    requires
        k <= n,
        scan_digits(s, max, k) is Err,
    ensures
        scan_digits(s, max, n) == scan_digits(s, max, k),
    decreases n - k,
{
    if k < n {
        lemma_scan_stops(s, max, k, (n - 1) as nat);
    }
}

/// A successfully read integer is within the bound.
pub proof fn lemma_parse_bound(s: Seq<char>, max: int)
    requires
        max >= 0,
    ensures
        parse_unsigned(s, max) matches Ok(v) ==> 0 <= v <= max,
{
    if s.len() > 0 {
        lemma_scan_bound(s.drop_first(), max, (s.len() - 1) as nat);
        lemma_scan_bound(s, max, s.len());
    }
}

/// Reads an unsigned integer of at most `max` from `s` (`str::parse`).
pub fn parse_unsigned_str(s: &str, max: u64) -> (res: Result<u64, IntParseError>)
    ensures
        match res {
            Ok(v) => parse_unsigned(s@, max as int) == Ok::<int, IntParseError>(v as int),
            Err(e) => parse_unsigned(s@, max as int) == Err::<int, IntParseError>(e),
        },
{
    let chars = str_chars(s);
    let n = chars.len();
    if n == 0 {
        return Err(IntParseError::Empty);
    }
    let first = chars[0];
    if (first == '+' || first == '-') && n == 1 {
        return Err(IntParseError::InvalidDigit);
    }
    if first == '+' {
        assert(chars@.subrange(1, n as int) =~= s@.drop_first());
        scan_digits_exec(&chars, 1, max)
    } else {
        assert(chars@.subrange(0, n as int) =~= s@);
        scan_digits_exec(&chars, 0, max)
    }
}

/// `scan_digits` only looks at the first `n` characters.
proof fn lemma_scan_prefix(s: Seq<char>, t: Seq<char>, max: int, n: nat)
    requires
        n <= s.len(),
        n <= t.len(),
        s.subrange(0, n as int) == t.subrange(0, n as int),
    ensures
        scan_digits(s, max, n) == scan_digits(t, max, n),
    decreases n,
{
    if n > 0 {
        assert(s.subrange(0, n - 1) =~= t.subrange(0, n - 1)) by {
            assert forall|j: int| 0 <= j < n - 1 implies s[j] == t[j] by {
                assert(s[j] == s.subrange(0, n as int)[j]);
                assert(t[j] == t.subrange(0, n as int)[j]);
            }
        }
        assert(s[n - 1] == s.subrange(0, n as int)[n - 1]);
        assert(t[n - 1] == t.subrange(0, n as int)[n - 1]);
        lemma_scan_prefix(s, t, max, (n - 1) as nat);
    }
}

proof fn lemma_digit_char(d: nat)
    requires
        d < 10,
    ensures
        is_digit(digit_char(d)),
        digit_value(digit_char(d)) == d,
{
}

pub proof fn lemma_decimal_len(n: nat)
    ensures
        decimal(n).len() >= 1,
        is_digit(decimal(n)[0]),
    decreases n,
{
    lemma_digit_char(n % 10);
    if n >= 10 {
        lemma_decimal_len(n / 10);
    }
}

/// Reading back the decimal text of `n` gives `n`: the digits of
/// `decimal(n)` scan to `n` whenever `n` is within the bound.
pub proof fn lemma_scan_decimal(n: nat, max: int)
    requires
        n <= max,
    ensures
        scan_digits(decimal(n), max, decimal(n).len()) == Ok::<int, IntParseError>(n as int),
    decreases n,
{
    lemma_digit_char(n % 10);
    if n < 10 {
        assert(decimal(n).len() == 1);
        assert(scan_digits(decimal(n), max, 0) == Ok::<int, IntParseError>(0));
    } else {
        let p = decimal(n / 10);
        let s = decimal(n);
        lemma_scan_decimal(n / 10, max);
        assert(s == p.push(digit_char(n % 10)));
        assert(s.subrange(0, p.len() as int) =~= p.subrange(0, p.len() as int));
        lemma_scan_prefix(s, p, max, p.len());
        assert(s[p.len() as int] == digit_char(n % 10));
        assert((n / 10) * 10 + n % 10 == n);
    }
}

/// `parse_unsigned` reads back what `decimal` writes.
pub proof fn lemma_parse_decimal(n: nat, max: int)
    requires
        n <= max,
    ensures
        parse_unsigned(decimal(n), max) == Ok::<int, IntParseError>(n as int),
{
    lemma_decimal_len(n);
    lemma_scan_decimal(n, max);
    let s = decimal(n);
    assert(s[0] != '+' && s[0] != '-');
}

/// Whether `needle` occurs in `haystack`.
pub open spec fn contains_seq(haystack: Seq<char>, needle: Seq<char>) -> bool {
    exists|i: int|
        0 <= i <= haystack.len() - needle.len() && #[trigger] haystack.subrange(
            i,
            i + needle.len(),
        ) == needle
}

/// Whether `needle` occurs in `haystack` (`str::contains`).
pub fn contains_str(haystack: &str, needle: &str) -> (res: bool)
    ensures
        res == contains_seq(haystack@, needle@),
{
    let h = str_chars(haystack);
    let n = str_chars(needle);
    let hl = h.len();
    let nl = n.len();
    if nl > hl {
        return false;
    }
    let mut i: usize = 0;
    while i <= hl - nl
        invariant
            h@ == haystack@,
            n@ == needle@,
            hl == h@.len(),
            nl == n@.len(),
            nl <= hl,
            i <= hl - nl + 1,
            forall|k: int| 0 <= k < i ==> #[trigger] h@.subrange(k, k + nl) != n@,
        decreases hl - nl + 1 - i,
    {
        let mut j: usize = 0;
        let mut same = true;
        while j < nl
            invariant
                hl == h@.len(),
                nl == n@.len(),
                i + nl <= hl,
                j <= nl,
                same == (forall|m: int| 0 <= m < j ==> h@[i + m] == n@[m]),
            decreases nl - j,
        {
            if h[i + j] != n[j] {
                same = false;
            }
            j = j + 1;
        }
        if same {
            assert(h@.subrange(i as int, i + nl) =~= n@);
            return true;
        }
        assert(h@.subrange(i as int, i + nl) != n@) by {
            let m = choose|m: int| 0 <= m < nl && h@[i + m] != n@[m];
            assert(h@.subrange(i as int, i + nl)[m] == h@[i + m]);
        }
        i = i + 1;
    }
    false
}

/// The character-sequence view of a list of name/value pairs.
pub open spec fn pairs_view(v: Seq<(String, String)>) -> Seq<(Seq<char>, Seq<char>)> {
    v.map_values(|p: (String, String)| (p.0@, p.1@))
}

/// The value paired with the first occurrence of `name`, if any.
pub open spec fn lookup(entries: Seq<(Seq<char>, Seq<char>)>, name: Seq<char>) -> Option<Seq<char>>
    decreases entries.len(),
{
    if entries.len() == 0 {
        None
    } else if entries[0].0 == name {
        Some(entries[0].1)
    } else {
        lookup(entries.drop_first(), name)
    }
}

/// No name occurs twice, as in a map or an environment.
pub open spec fn distinct_names(entries: Seq<(Seq<char>, Seq<char>)>) -> bool {
    forall|i: int, j: int|
        0 <= i < j < entries.len() ==> #[trigger] entries[i].0 != #[trigger] entries[j].0
}

/// Where no name occurs twice, looking up a name gives the value paired
/// with it, wherever the pair stands: the pairs behave as a map.
pub proof fn lemma_lookup_distinct(entries: Seq<(Seq<char>, Seq<char>)>, k: int)
    requires
        distinct_names(entries),
        0 <= k < entries.len(),
    ensures
        lookup(entries, entries[k].0) == Some(entries[k].1),
    decreases entries.len(),
{
    if k > 0 {
        let rest = entries.drop_first();
        assert(entries[0].0 != entries[k].0);
        assert(rest[k - 1] == entries[k]);
        assert forall|i: int, j: int| 0 <= i < j < rest.len() implies #[trigger] rest[i].0
            != #[trigger] rest[j].0 by {
            assert(rest[i] == entries[i + 1]);
            assert(rest[j] == entries[j + 1]);
        }
        lemma_lookup_distinct(rest, k - 1);
    }
}

/// A name that no pair carries is not found.
pub proof fn lemma_lookup_absent(entries: Seq<(Seq<char>, Seq<char>)>, name: Seq<char>)
    requires
        forall|i: int| 0 <= i < entries.len() ==> #[trigger] entries[i].0 != name,
    ensures
        lookup(entries, name) is None,
    decreases entries.len(),
{
    if entries.len() > 0 {
        let rest = entries.drop_first();
        assert forall|i: int| 0 <= i < rest.len() implies #[trigger] rest[i].0 != name by {
            assert(rest[i] == entries[i + 1]);
        }
        lemma_lookup_absent(rest, name);
    }
}

/// The value paired with the first occurrence of `name` in `entries`.
pub fn lookup_value(entries: &Vec<(String, String)>, name: &str) -> (res: Option<String>)
    ensures
        match res {
            Some(v) => lookup(pairs_view(entries@), name@) == Some(v@),
            None => lookup(pairs_view(entries@), name@) is None,
        },
{
    let key = String::from_str(name);
    let n = entries.len();
    let ghost all = pairs_view(entries@);
    let mut i: usize = 0;
    assert(all.subrange(0, n as int) =~= all);
    while i < n
        invariant
            n == entries@.len(),
            i <= n,
            key@ == name@,
            all == pairs_view(entries@),
            lookup(all, name@) == lookup(all.subrange(i as int, n as int), name@),
        decreases n - i,
    {
        let ghost rest = all.subrange(i as int, n as int);
        assert(rest[0] == all[i as int]);
        assert(rest.drop_first() =~= all.subrange(i + 1, n as int));
        if entries[i].0 == key {
            return Some(entries[i].1.clone());
        }
        i = i + 1;
    }
    assert(all.subrange(n as int, n as int).len() == 0);
    None
}

} // verus!
