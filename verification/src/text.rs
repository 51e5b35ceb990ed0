//! Text primitives: Unicode whitespace trimming, decimal numbers in both
//! directions, word joining and string equality.

use vstd::prelude::*;

verus! {

// ---------------------------------------------------------------------------
// Whitespace and trimming
// ---------------------------------------------------------------------------

/// The code points that Unicode gives the White_Space property, which is the
/// set `char::is_whitespace` accepts.
pub open spec fn is_white(c: char) -> bool {
    let n: u32 = c as u32;
    ||| 0x09 <= n <= 0x0d
    ||| n == 0x20
    ||| n == 0x85
    ||| n == 0xa0
    ||| n == 0x1680
    ||| 0x2000 <= n <= 0x200a
    ||| n == 0x2028
    ||| n == 0x2029
    ||| n == 0x202f
    ||| n == 0x205f
    ||| n == 0x3000
}

/// `s` without its leading whitespace.
pub open spec fn trim_start(s: Seq<char>) -> Seq<char>
    decreases s.len(),
{
    if s.len() > 0 && is_white(s[0]) {
        trim_start(s.drop_first())
    } else {
        s
    }
}

/// `s` without its trailing whitespace.
pub open spec fn trim_end(s: Seq<char>) -> Seq<char>
    decreases s.len(),
{
    if s.len() > 0 && is_white(s.last()) {
        trim_end(s.drop_last())
    } else {
        s
    }
}

/// `s` without leading and trailing whitespace, as `str::trim` gives it.
pub open spec fn trimmed(s: Seq<char>) -> Seq<char> {
    trim_end(trim_start(s))
}

/// Whether `c` is Unicode whitespace.
pub fn is_white_char(c: char) -> (b: bool)
    ensures
        b == is_white(c),
{
    let n: u32 = c as u32;
    (0x09 <= n && n <= 0x0d) || n == 0x20 || n == 0x85 || n == 0xa0 || n == 0x1680 || (0x2000
        <= n && n <= 0x200a) || n == 0x2028 || n == 0x2029 || n == 0x202f || n == 0x205f || n
        == 0x3000
}

/// The slice of `s` between its leading and its trailing whitespace.
pub fn trim(s: &str) -> (r: &str)
    ensures
        r@ == trimmed(s@),
{
    let n: usize = s.unicode_len();
    let mut i: usize = 0;
    assert(s@.subrange(0, n as int) =~= s@);
    while i < n
        invariant
            i <= n,
            n == s@.len(),
            trim_start(s@) == trim_start(s@.subrange(i as int, n as int)),
        ensures
            i <= n,
            trim_start(s@) == s@.subrange(i as int, n as int),
        decreases n - i,
    {
        let c: char = s.get_char(i);
        let ghost rest: Seq<char> = s@.subrange(i as int, n as int);
        if !is_white_char(c) {
            assert(rest[0] == c);
            break;
        }
        assert(rest.drop_first() =~= s@.subrange(i + 1, n as int));
        i = i + 1;
    }
    proof {
        if i == n {
            assert(s@.subrange(i as int, n as int) =~= Seq::<char>::empty());
        }
    }
    let mut j: usize = n;
    while j > i
        invariant
            i <= j <= n,
            n == s@.len(),
            trim_end(s@.subrange(i as int, n as int)) == trim_end(s@.subrange(i as int, j as int)),
        ensures
            i <= j <= n,
            trim_end(s@.subrange(i as int, n as int)) == s@.subrange(i as int, j as int),
        decreases j,
    {
        let c: char = s.get_char(j - 1);
        let ghost part: Seq<char> = s@.subrange(i as int, j as int);
        if !is_white_char(c) {
            assert(part.last() == c);
            break;
        }
        assert(part.drop_last() =~= s@.subrange(i as int, j - 1));
        j = j - 1;
    }
    proof {
        if j == i {
            assert(s@.subrange(i as int, j as int) =~= Seq::<char>::empty());
        }
    }
    s.substring_char(i, j)
}

// ---------------------------------------------------------------------------
// Building strings
// ---------------------------------------------------------------------------

/// `a` followed by `b`.
pub fn concat2(a: &str, b: &str) -> (r: String)
    ensures
        r@ == a@ + b@,
{
    let mut r: String = String::from_str(a);
    r.append(b);
    r
}

/// `a`, `b` and `c` one after the other.
pub fn concat3(a: &str, b: &str, c: &str) -> (r: String)
    ensures
        r@ == a@ + b@ + c@,
{
    let mut r: String = String::from_str(a);
    r.append(b);
    r.append(c);
    r
}

// ---------------------------------------------------------------------------
// Equality
// ---------------------------------------------------------------------------

/// Whether two strings hold the same characters.
pub fn same_text(a: &str, b: &str) -> (r: bool)
    ensures
        r == (a@ == b@),
{
    let x: String = String::from_str(a);
    let y: String = String::from_str(b);
    x == y
}

// ---------------------------------------------------------------------------
// Decimal numbers
// ---------------------------------------------------------------------------

/// Why a text is not an unsigned integer; the kinds of `std::num::ParseIntError`
/// that an unsigned parse can produce.
#[derive(Clone, Copy, Debug, PartialEq, Eq, Structural)]
pub enum IntErrorKind {
    Empty,
    InvalidDigit,
    PosOverflow,
}

/// The message that `ParseIntError` displays for each kind.
pub open spec fn int_error_text(kind: IntErrorKind) -> Seq<char> {
    match kind {
        IntErrorKind::Empty => "cannot parse integer from empty string"@,
        IntErrorKind::InvalidDigit => "invalid digit found in string"@,
        IntErrorKind::PosOverflow => "number too large to fit in target type"@,
    }
}

impl IntErrorKind {
    /// The message of this kind of error.
    pub fn describe(&self) -> (r: &'static str)
        ensures
            r@ == int_error_text(*self),
    {
        match self {
            IntErrorKind::Empty => "cannot parse integer from empty string",
            IntErrorKind::InvalidDigit => "invalid digit found in string",
            IntErrorKind::PosOverflow => "number too large to fit in target type",
        }
    }
}

pub open spec fn is_digit(c: char) -> bool {
    48 <= (c as u32) <= 57
}

pub open spec fn digit_value(c: char) -> nat {
    ((c as u32) - 48) as nat
}

/// Reads the decimal digits `d` from the left onto the running value `acc`,
/// stopping at the first character that is no digit or at the first digit that
/// takes the value above `max`.
pub open spec fn scan_digits(d: Seq<char>, acc: nat, max: nat) -> Result<nat, IntErrorKind>
    decreases d.len(),
{
    if d.len() == 0 {
        Ok(acc)
    } else if !is_digit(d[0]) {
        Err(IntErrorKind::InvalidDigit)
    } else if acc * 10 + digit_value(d[0]) > max {
        Err(IntErrorKind::PosOverflow)
    } else {
        scan_digits(d.drop_first(), acc * 10 + digit_value(d[0]), max)
    }
}

/// The unsigned integer no greater than `max` that `s` writes in decimal, with
/// an optional leading `+`, as `str::parse` reads it for the unsigned types.
pub open spec fn parse_unsigned(s: Seq<char>, max: nat) -> Result<nat, IntErrorKind> {
    if s.len() == 0 {
        Err(IntErrorKind::Empty)
    } else if s.len() == 1 && (s[0] == '+' || s[0] == '-') {
        Err(IntErrorKind::InvalidDigit)
    } else if s[0] == '+' {
        scan_digits(s.drop_first(), 0, max)
    } else {
        scan_digits(s, 0, max)
    }
}

pub open spec fn widen_u64(r: Result<u64, IntErrorKind>) -> Result<nat, IntErrorKind> {
    match r {
        Ok(v) => Ok(v as nat),
        Err(k) => Err(k),
    }
}

pub open spec fn widen_u32(r: Result<u32, IntErrorKind>) -> Result<nat, IntErrorKind> {
    match r {
        Ok(v) => Ok(v as nat),
        Err(k) => Err(k),
    }
}

/// Reads `s` as a decimal integer no greater than `max`.
pub fn parse_bounded(s: &str, max: u64) -> (r: Result<u64, IntErrorKind>)
    ensures
        widen_u64(r) == parse_unsigned(s@, max as nat),
{
    let n: usize = s.unicode_len();
    if n == 0 {
        return Err(IntErrorKind::Empty);
    }
    let first: char = s.get_char(0);
    if n == 1 && (first == '+' || first == '-') {
        return Err(IntErrorKind::InvalidDigit);
    }
    let start: usize = if first == '+' {
        1
    } else {
        0
    };
    proof {
        if start == 1 {
            assert(s@.drop_first() =~= s@.subrange(1, n as int));
        } else {
            assert(s@ =~= s@.subrange(0, n as int));
        }
    }
    let mut acc: u64 = 0;
    let mut i: usize = start;
    while i < n
        invariant
            start <= i <= n,
            n == s@.len(),
            acc <= max,
            parse_unsigned(s@, max as nat) == scan_digits(
                s@.subrange(start as int, n as int),
                0,
                max as nat,
            ),
            scan_digits(s@.subrange(start as int, n as int), 0, max as nat) == scan_digits(
                s@.subrange(i as int, n as int),
                acc as nat,
                max as nat,
            ),
        decreases n - i,
    {
        let c: char = s.get_char(i);
        let ghost rest: Seq<char> = s@.subrange(i as int, n as int);
        assert(rest[0] == c);
        let code: u32 = c as u32;
        if code < 48 || code > 57 {
            return Err(IntErrorKind::InvalidDigit);
        }
        let next: u128 = (acc as u128) * 10 + ((code - 48) as u128);
        if next > max as u128 {
            return Err(IntErrorKind::PosOverflow);
        }
        assert(rest.drop_first() =~= s@.subrange(i + 1, n as int));
        acc = next as u64;
        i = i + 1;
    }
    assert(s@.subrange(i as int, n as int) =~= Seq::<char>::empty());
    Ok(acc)
}

/// Reads `s` as a `u32`, as `s.parse::<u32>()` does.
pub fn parse_u32(s: &str) -> (r: Result<u32, IntErrorKind>)
    ensures
        widen_u32(r) == parse_unsigned(s@, u32::MAX as nat),
{
    proof {
        lemma_parse_bound(s@, u32::MAX as nat);
    }
    match parse_bounded(s, 0xffff_ffff) {
        Ok(v) => Ok(v as u32),
        Err(k) => Err(k),
    }
}

/// Reads `s` as a `u64`, as `s.parse::<u64>()` does.
pub fn parse_u64(s: &str) -> (r: Result<u64, IntErrorKind>)
    ensures
        widen_u64(r) == parse_unsigned(s@, u64::MAX as nat),
{
    parse_bounded(s, 0xffff_ffff_ffff_ffff)
}

proof fn lemma_scan_bound(d: Seq<char>, acc: nat, max: nat)
    requires
        acc <= max,
    ensures
        scan_digits(d, acc, max) matches Ok(v) ==> v <= max,
    decreases d.len(),
{
    if d.len() > 0 && is_digit(d[0]) && acc * 10 + digit_value(d[0]) <= max {
        lemma_scan_bound(d.drop_first(), acc * 10 + digit_value(d[0]), max);
    }
}

/// A number read with the bound `max` is no greater than `max`.
pub proof fn lemma_parse_bound(s: Seq<char>, max: nat)
    ensures
        parse_unsigned(s, max) matches Ok(v) ==> v <= max,
{
    if s.len() > 0 {
        lemma_scan_bound(s, 0, max);
        lemma_scan_bound(s.drop_first(), 0, max);
    }
}

/// The decimal digit for `d < 10`.
pub open spec fn digit_char(d: nat) -> char {
    if d == 0 {
        '0'
    } else if d == 1 {
        '1'
    } else if d == 2 {
        '2'
    } else if d == 3 {
        '3'
    } else if d == 4 {
        '4'
    } else if d == 5 {
        '5'
    } else if d == 6 {
        '6'
    } else if d == 7 {
        '7'
    } else if d == 8 {
        '8'
    } else {
        '9'
    }
}

/// The decimal writing of `n`, without leading zeros, as `Display` gives it.
pub open spec fn decimal(n: nat) -> Seq<char>
    decreases n,
{
    if n < 10 {
        seq![digit_char(n)]
    } else {
        decimal(n / 10).push(digit_char(n % 10))
    }
}

fn digit_text(d: u32) -> (r: &'static str)
    requires
        d < 10,
    ensures
        r@ == seq![digit_char(d as nat)],
{
    proof {
        reveal_strlit("0");
        reveal_strlit("1");
        reveal_strlit("2");
        reveal_strlit("3");
        reveal_strlit("4");
        reveal_strlit("5");
        reveal_strlit("6");
        reveal_strlit("7");
        reveal_strlit("8");
        reveal_strlit("9");
    }
    let r: &'static str = if d == 0 {
        "0"
    } else if d == 1 {
        "1"
    } else if d == 2 {
        "2"
    } else if d == 3 {
        "3"
    } else if d == 4 {
        "4"
    } else if d == 5 {
        "5"
    } else if d == 6 {
        "6"
    } else if d == 7 {
        "7"
    } else if d == 8 {
        "8"
    } else {
        "9"
    };
    assert(r@ =~= seq![digit_char(d as nat)]);
    r
}

/// `n` written in decimal, as `n.to_string()` gives it.
pub fn decimal_text(n: u32) -> (r: String)
    ensures
        r@ == decimal(n as nat),
    decreases n,
{
    if n < 10 {
        String::from_str(digit_text(n))
    } else {
        let mut s: String = decimal_text(n / 10);
        s.append(digit_text(n % 10));
        assert(s@ =~= decimal(n as nat));
        s
    }
}

/// Every character of a decimal writing is a digit, and it has at least one.
pub proof fn lemma_decimal_digits(n: nat)
    ensures
        decimal(n).len() >= 1,
        forall|i: int| 0 <= i < decimal(n).len() ==> #[trigger] is_digit(decimal(n)[i]),
    decreases n,
{
    if n >= 10 {
        lemma_decimal_digits(n / 10);
    }
}

proof fn lemma_digit_char_value(d: nat)
    requires
        d < 10,
    ensures
        is_digit(digit_char(d)),
        digit_value(digit_char(d)) == d,
{
}

/// Scanning one more character after `d` continues from where scanning `d`
/// stopped.
proof fn lemma_scan_push(d: Seq<char>, c: char, acc: nat, max: nat)
    ensures
        scan_digits(d.push(c), acc, max) == match scan_digits(d, acc, max) {
            Ok(v) => if !is_digit(c) {
                Err(IntErrorKind::InvalidDigit)
            } else if v * 10 + digit_value(c) > max {
                Err(IntErrorKind::PosOverflow)
            } else {
                Ok(v * 10 + digit_value(c))
            },
            Err(e) => Err(e),
        },
    decreases d.len(),
{
    let dc = d.push(c);
    if d.len() == 0 {
        assert(dc.drop_first() =~= Seq::<char>::empty());
        assert(dc[0] == c);
        let next = acc * 10 + digit_value(c);
        assert(scan_digits(Seq::<char>::empty(), next, max) == Ok::<nat, IntErrorKind>(next));
        assert(scan_digits(d, acc, max) == Ok::<nat, IntErrorKind>(acc));
    } else {
        assert(dc[0] == d[0]);
        assert(dc.drop_first() =~= d.drop_first().push(c));
        if is_digit(d[0]) && acc * 10 + digit_value(d[0]) <= max {
            lemma_scan_push(d.drop_first(), c, acc * 10 + digit_value(d[0]), max);
        }
    }
}

proof fn lemma_scan_decimal(n: nat, max: nat)
    requires
        n <= max,
    ensures
        scan_digits(decimal(n), 0, max) == Ok::<nat, IntErrorKind>(n),
    decreases n,
{
    if n < 10 {
        lemma_digit_char_value(n);
        lemma_scan_push(Seq::<char>::empty(), digit_char(n), 0, max);
        assert(Seq::<char>::empty().push(digit_char(n)) =~= decimal(n));
        assert(scan_digits(Seq::<char>::empty(), 0, max) == Ok::<nat, IntErrorKind>(0));
    } else {
        lemma_scan_decimal(n / 10, max);
        lemma_digit_char_value(n % 10);
        lemma_scan_push(decimal(n / 10), digit_char(n % 10), 0, max);
    }
}

/// Reading back what `decimal` writes gives the number again, for every number
/// that the reading admits.
pub proof fn lemma_parse_decimal(n: nat, max: nat)
    requires
        n <= max,
    ensures
        parse_unsigned(decimal(n), max) == Ok::<nat, IntErrorKind>(n),
{
    lemma_decimal_digits(n);
    lemma_scan_decimal(n, max);
    assert(is_digit(decimal(n)[0]));
}

// ---------------------------------------------------------------------------
// Joining words
// ---------------------------------------------------------------------------

/// The views of a sequence of strings.
pub open spec fn texts(v: Seq<String>) -> Seq<Seq<char>> {
    v.map_values(|s: String| s@)
}

/// The words of `parts` with one space between each two, as `join(" ")`
/// gives them.
pub open spec fn joined(parts: Seq<Seq<char>>) -> Seq<char>
    decreases parts.len(),
{
    if parts.len() == 0 {
        Seq::empty()
    } else if parts.len() == 1 {
        parts[0]
    } else {
        joined(parts.drop_last()) + " "@ + parts.last()
    }
}

/// The strings of `words` from index `from` on, joined by single spaces.
pub fn join_words(words: &[String], from: usize) -> (r: String)
    requires
        from <= words@.len(),
    ensures
        r@ == joined(texts(words@).subrange(from as int, words@.len() as int)),
{
    let n: usize = words.len();
    let ghost all: Seq<Seq<char>> = texts(words@);
    let mut r: String = String::new();
    let mut i: usize = from;
    assert(all.subrange(from as int, from as int) =~= Seq::<Seq<char>>::empty());
    while i < n
        invariant
            from <= i <= n,
            n == words@.len(),
            all == texts(words@),
            r@ == joined(all.subrange(from as int, i as int)),
        decreases n - i,
    {
        let ghost before: Seq<Seq<char>> = all.subrange(from as int, i as int);
        let ghost after: Seq<Seq<char>> = all.subrange(from as int, i + 1);
        assert(after.drop_last() =~= before);
        assert(after.last() == words@[i as int]@);
        if i == from {
            assert(after =~= seq![words@[i as int]@]);
            r = String::from_str(words[i].as_str());
        } else {
            r.append(" ");
            r.append(words[i].as_str());
        }
        i = i + 1;
    }
    r
}

} // verus!
