//! Character-level helpers over strings.

use vstd::prelude::*;

verus! {

broadcast use vstd::string::group_string_axioms;

/// The characters with the Unicode `White_Space` property, those that `char::is_whitespace`
/// accepts.
pub open spec fn is_white_space(c: char) -> bool {
    let n = c as u32;
    ||| 0x09 <= n <= 0x0D
    ||| n == 0x20
    ||| n == 0x85
    ||| n == 0xA0
    ||| n == 0x1680
    ||| 0x2000 <= n <= 0x200A
    ||| n == 0x2028
    ||| n == 0x2029
    ||| n == 0x202F
    ||| n == 0x205F
    ||| n == 0x3000
}

/// A text is blank when it is empty or made of white space alone, which is when trimming it
/// leaves nothing.
pub open spec fn is_blank(s: Seq<char>) -> bool {
    forall|i: int| 0 <= i < s.len() ==> #[trigger] is_white_space(s[i])
}

/// Returns whether the character is white space.
pub fn char_is_white_space(c: char) -> (b: bool)
    ensures
        b == is_white_space(c),
{
    let n = c as u32;
    (0x09 <= n && n <= 0x0D) || n == 0x20 || n == 0x85 || n == 0xA0 || n == 0x1680 || (0x2000
        <= n && n <= 0x200A) || n == 0x2028 || n == 0x2029 || n == 0x202F || n == 0x205F || n
        == 0x3000
}

/// Collects the characters of a string.
pub fn chars_of(s: &str) -> (v: Vec<char>)
    ensures
        v@ == s@,
{
    let mut v: Vec<char> = Vec::new();
    for c in it: s.chars()
        invariant
            it.seq() == s@,
            v.len() == it.index(),
            forall|j: int| 0 <= j < v.len() ==> v[j] == it.seq()[j],
    {
        v.push(c);
    }
    v
}

/// Returns whether the string is blank: empty, or white space alone.
pub fn is_blank_str(s: &str) -> (b: bool)
    ensures
        b == is_blank(s@),
{
    let cs = chars_of(s);
    let mut i: usize = 0;
    while i < cs.len()
        invariant
            cs@ == s@,
            i <= cs.len(),
            is_blank(s@.subrange(0, i as int)),
        decreases cs.len() - i,
    {
        if !char_is_white_space(cs[i]) {
            return false;
        }
        assert(s@.subrange(0, i + 1) =~= s@.subrange(0, i as int).push(cs@[i as int]));
        i = i + 1;
    }
    assert(s@.subrange(0, cs.len() as int) =~= s@);
    true
}


/// An ASCII decimal digit.
pub open spec fn is_digit(c: char) -> bool {
    48 <= (c as u32) <= 57
}

/// The value of an ASCII decimal digit.
pub open spec fn digit_value(c: char) -> int {
    (c as u32) - 48
}

/// Every character is an ASCII decimal digit.
pub open spec fn all_digits(s: Seq<char>) -> bool {
    forall|i: int| 0 <= i < s.len() ==> #[trigger] is_digit(s[i])
}

/// The number written by a sequence of decimal digits, most significant first.
pub open spec fn digits_value(s: Seq<char>) -> int
    decreases s.len(),
{
    if s.len() == 0 {
        0
    } else {
        10 * digits_value(s.drop_last()) + digit_value(s.last())
    }
}

/// The integer that a text denotes in the syntax that `str::parse` accepts for signed integers:
/// an optional `+` or `-` followed by at least one decimal digit, and nothing else.
pub open spec fn parse_int(s: Seq<char>) -> Option<int> {
    if s.len() > 0 && (s[0] == '+' || s[0] == '-') {
        let d = s.drop_first();
        if d.len() > 0 && all_digits(d) {
            Some(
                if s[0] == '-' {
                    -digits_value(d)
                } else {
                    digits_value(d)
                },
            )
        } else {
            None
        }
    } else if s.len() > 0 && all_digits(s) {
        Some(digits_value(s))
    } else {
        None
    }
}

/// The `i32` that `str::parse::<i32>` gives for a text: its integer when that fits in an `i32`.
pub open spec fn parse_i32(s: Seq<char>) -> Option<i32> {
    match parse_int(s) {
        Some(v) => if i32::MIN <= v <= i32::MAX {
            Some(v as i32)
        } else {
            None
        },
        None => None,
    }
}

const DIGITS_CAP: i64 = 0x1_0000_0000;

/// Parses the characters `cs[start..end]` as an `i32`, as `str::parse::<i32>` does.
pub fn parse_i32_range(cs: &Vec<char>, start: usize, end: usize) -> (r: Option<i32>)
    requires
        start <= end <= cs.len(),
    ensures
        r == parse_i32(cs@.subrange(start as int, end as int)),
{
    let ghost s = cs@.subrange(start as int, end as int);
    if start == end {
        return None;
    }
    let mut i = start;
    let first = cs[i];
    let signed = first == '+' || first == '-';
    let negative = first == '-';
    if signed {
        i = i + 1;
        if i == end {
            return None;
        }
    }
    let ds = i;
    let ghost d = cs@.subrange(ds as int, end as int);
    assert(signed ==> d =~= s.drop_first());
    assert(!signed ==> d =~= s);
    let mut acc: i64 = 0;
    while i < end
        invariant
            start <= ds <= i <= end <= cs.len(),
            ds < end,
            s == cs@.subrange(start as int, end as int),
            d == cs@.subrange(ds as int, end as int),
            s.len() > 0,
            signed == (s[0] == '+' || s[0] == '-'),
            negative == (s[0] == '-'),
            signed ==> d == s.drop_first(),
            !signed ==> d == s,
            all_digits(cs@.subrange(ds as int, i as int)),
            digits_value(cs@.subrange(ds as int, i as int)) >= 0,
            acc == (if digits_value(cs@.subrange(ds as int, i as int)) < DIGITS_CAP {
                digits_value(cs@.subrange(ds as int, i as int))
            } else {
                DIGITS_CAP as int
            }),
        decreases end - i,
    {
        let c = cs[i];
        let n = c as u32;
        if n < 48 || n > 57 {
            assert(d[i - ds] == c);
            assert(!is_digit(d[i - ds]));
            assert(!all_digits(d));
            return None;
        }
        let ghost prev = cs@.subrange(ds as int, i as int);
        let ghost next = cs@.subrange(ds as int, i + 1);
        assert(next.drop_last() =~= prev);
        assert(next.last() == c);
        let v = 10 * acc + (n - 48) as i64;
        acc = if v > DIGITS_CAP {
            DIGITS_CAP
        } else {
            v
        };
        i = i + 1;
    }
    assert(cs@.subrange(ds as int, i as int) =~= d);
    if acc == DIGITS_CAP {
        return None;
    }
    if negative {
        if acc > 0x8000_0000 {
            None
        } else {
            Some((-acc) as i32)
        }
    } else {
        if acc > 0x7fff_ffff {
            None
        } else {
            Some(acc as i32)
        }
    }
}

/// Strips every leading double quote.
pub open spec fn trim_start_quotes(s: Seq<char>) -> Seq<char>
    decreases s.len(),
{
    if s.len() > 0 && s[0] == '"' {
        trim_start_quotes(s.drop_first())
    } else {
        s
    }
}

/// Strips every trailing double quote.
pub open spec fn trim_end_quotes(s: Seq<char>) -> Seq<char>
    decreases s.len(),
{
    if s.len() > 0 && s.last() == '"' {
        trim_end_quotes(s.drop_last())
    } else {
        s
    }
}

/// What `str::trim_matches('"')` leaves of a text.
pub open spec fn trim_quotes(s: Seq<char>) -> Seq<char> {
    trim_end_quotes(trim_start_quotes(s))
}

/// Finds the bounds of `cs[start..end]` with its leading and trailing double quotes removed.
pub fn trim_quotes_range(cs: &Vec<char>, start: usize, end: usize) -> (r: (usize, usize))
    requires
        start <= end <= cs.len(),
    ensures
        start <= r.0 <= r.1 <= end,
        cs@.subrange(r.0 as int, r.1 as int) == trim_quotes(cs@.subrange(start as int, end as int)),
{
    let mut a = start;
    while a < end && cs[a] == '"'
        invariant
            start <= a <= end <= cs.len(),
            trim_start_quotes(cs@.subrange(start as int, end as int)) == trim_start_quotes(
                cs@.subrange(a as int, end as int),
            ),
        decreases end - a,
    {
        assert(cs@.subrange(a as int, end as int).drop_first() =~= cs@.subrange(a + 1, end as int));
        a = a + 1;
    }
    assert(trim_start_quotes(cs@.subrange(a as int, end as int)) == cs@.subrange(a as int, end as int));
    let mut b = end;
    while b > a && cs[b - 1] == '"'
        invariant
            start <= a <= b <= end <= cs.len(),
            trim_end_quotes(cs@.subrange(a as int, end as int)) == trim_end_quotes(
                cs@.subrange(a as int, b as int),
            ),
        decreases b - a,
    {
        assert(cs@.subrange(a as int, b as int).drop_last() =~= cs@.subrange(a as int, b - 1));
        b = b - 1;
    }
    (a, b)
}


/// The character of a digit, in base sixteen with upper case letters.
pub open spec fn digit_char(d: int) -> char {
    if 0 <= d <= 9 {
        (48 + d) as char
    } else {
        (55 + d) as char
    }
}

/// A one-character text holding the digit `d` (below sixteen).
fn digit_str(d: u64) -> (s: &'static str)
    requires
        d < 16,
    ensures
        s@ == seq![digit_char(d as int)],
{
    proof {
        reveal_strlit("0");
        reveal_strlit("1");
        reveal_strlit("2");
        reveal_strlit("3");
        reveal_strlit("4");
        reveal_strlit("5");
        reveal_strlit("6");
        reveal_strlit("7");
        reveal_strlit("8");
        reveal_strlit("9");
        reveal_strlit("A");
        reveal_strlit("B");
        reveal_strlit("C");
        reveal_strlit("D");
        reveal_strlit("E");
        reveal_strlit("F");
    }
    match d {
        0 => "0",
        1 => "1",
        2 => "2",
        3 => "3",
        4 => "4",
        5 => "5",
        6 => "6",
        7 => "7",
        8 => "8",
        9 => "9",
        10 => "A",
        11 => "B",
        12 => "C",
        13 => "D",
        14 => "E",
        _ => "F",
    }
}

/// The decimal numeral of a number, without leading zeros, as `{}` formats it.
pub open spec fn decimal_text(n: nat) -> Seq<char>
    decreases n,
{
    if n < 10 {
        seq![digit_char(n as int)]
    } else {
        decimal_text(n / 10).push(digit_char((n % 10) as int))
    }
}

/// The decimal numeral of a signed number, with a leading `-` when it is negative.
pub open spec fn signed_decimal_text(n: int) -> Seq<char> {
    if n < 0 {
        seq!['-'] + decimal_text((-n) as nat)
    } else {
        decimal_text(n as nat)
    }
}

/// The numeral of `n` in base sixteen, upper case, with exactly `width` digits, as `{:0width$X}`
/// formats a number that fits in that many digits.
pub open spec fn hex_text(n: nat, width: nat) -> Seq<char>
    decreases width,
{
    if width == 0 {
        Seq::empty()
    } else {
        hex_text(n / 16, (width - 1) as nat).push(digit_char((n % 16) as int))
    }
}

/// The decimal numeral of a number with at least two digits, as `{:02}` formats it.
pub open spec fn two_digit_text(n: nat) -> Seq<char> {
    if n < 10 {
        seq!['0', digit_char(n as int)]
    } else {
        decimal_text(n)
    }
}

/// Appends the decimal numeral of `n`.
pub fn push_decimal(out: &mut String, n: u64)
    ensures
        final(out)@ == old(out)@ + decimal_text(n as nat),
    decreases n,
{
    if n >= 10 {
        push_decimal(out, n / 10);
    }
    out.append(digit_str(n % 10));
    assert(n < 10 ==> old(out)@ + decimal_text(n as nat) =~= old(out)@ + seq![digit_char(n as int)]);
}

/// Appends the decimal numeral of a signed `n`.
pub fn push_signed_decimal(out: &mut String, n: i32)
    ensures
        final(out)@ == old(out)@ + signed_decimal_text(n as int),
{
    if n < 0 {
        proof {
            reveal_strlit("-");
        }
        out.append("-");
        let magnitude: u64 = (-(n as i64)) as u64;
        push_decimal(out, magnitude);
        assert(old(out)@ + signed_decimal_text(n as int) =~= old(out)@ + seq!['-'] + decimal_text(
            magnitude as nat,
        ));
    } else {
        push_decimal(out, n as u64);
    }
}

/// Appends `n` in base sixteen, upper case, as exactly `width` digits.
pub fn push_hex(out: &mut String, n: u64, width: u32)
    ensures
        final(out)@ == old(out)@ + hex_text(n as nat, width as nat),
    decreases width,
{
    if width > 0 {
        push_hex(out, n / 16, width - 1);
        out.append(digit_str(n % 16));
    } else {
        assert(old(out)@ + hex_text(n as nat, 0) =~= old(out)@);
    }
}

/// Appends `n` in decimal with at least two digits.
pub fn push_two_digits(out: &mut String, n: u64)
    ensures
        final(out)@ == old(out)@ + two_digit_text(n as nat),
{
    if n < 10 {
        proof {
            reveal_strlit("0");
        }
        out.append("0");
        out.append(digit_str(n));
        assert(old(out)@ + seq!['0'] + seq![digit_char(n as int)] =~= old(out)@ + two_digit_text(
            n as nat,
        ));
    } else {
        push_decimal(out, n);
    }
}

/// The decimal numeral of a signed number.
pub fn signed_decimal(n: i32) -> (s: String)
    ensures
        s@ == signed_decimal_text(n as int),
{
    let mut s = String::new();
    push_signed_decimal(&mut s, n);
    assert(s@ =~= signed_decimal_text(n as int));
    s
}


/// A decimal numeral is made of digits and denotes its number.
pub proof fn lemma_decimal_text_digits(n: nat)
    ensures
        decimal_text(n).len() >= 1,
        all_digits(decimal_text(n)),
        digits_value(decimal_text(n)) == n,
        is_digit(decimal_text(n)[0]),
    decreases n,
{
    if n < 10 {
        let t = decimal_text(n);
        assert(t.drop_last() =~= Seq::<char>::empty());
        assert(digit_char(n as int) as u32 == 48 + n);
        assert(digits_value(Seq::<char>::empty()) == 0);
        assert(digits_value(t) == 10 * digits_value(t.drop_last()) + digit_value(t.last()));
    } else {
        lemma_decimal_text_digits(n / 10);
        let t = decimal_text(n);
        assert(t.drop_last() =~= decimal_text(n / 10));
        assert(digit_char((n % 10) as int) as u32 == 48 + n % 10);
        assert(t.last() == digit_char((n % 10) as int));
        assert(digit_value(t.last()) == n % 10);
        assert(digits_value(t) == 10 * digits_value(t.drop_last()) + digit_value(t.last()));
        assert(10 * (n / 10) + n % 10 == n);
        assert forall|i: int| 0 <= i < t.len() implies #[trigger] is_digit(t[i]) by {
            if i < t.len() - 1 {
                assert(t[i] == decimal_text(n / 10)[i]);
            }
        }
    }
}

/// Parsing the numeral of an `i32` gives the number back.
pub proof fn lemma_parse_signed_decimal(n: i32)
    ensures
        parse_i32(signed_decimal_text(n as int)) == Some(n),
{
    if n < 0 {
        let m = (-n) as nat;
        lemma_decimal_text_digits(m);
        let t = signed_decimal_text(n as int);
        assert(t.drop_first() =~= decimal_text(m));
        assert(t[0] == '-');
    } else {
        lemma_decimal_text_digits(n as nat);
        let t = decimal_text(n as nat);
        assert(t[0] != '+' && t[0] != '-');
    }
}

/// The texts joined with commas between them.
pub open spec fn join_commas(parts: Seq<Seq<char>>) -> Seq<char>
    decreases parts.len(),
{
    if parts.len() == 0 {
        Seq::empty()
    } else if parts.len() == 1 {
        parts[0]
    } else {
        join_commas(parts.drop_last()) + seq![','] + parts.last()
    }
}

/// The leading quotes are all gone after trimming them.
proof fn lemma_trim_start_quotes(s: Seq<char>)
    ensures
        trim_start_quotes(s).len() > 0 ==> trim_start_quotes(s)[0] != '"',
        trim_start_quotes(s).len() <= s.len(),
    decreases s.len(),
{
    if s.len() > 0 && s[0] == '"' {
        lemma_trim_start_quotes(s.drop_first());
    }
}

/// Trimming trailing quotes keeps a prefix, and removes all the trailing quotes.
proof fn lemma_trim_end_quotes(s: Seq<char>)
    ensures
        trim_end_quotes(s).len() <= s.len(),
        trim_end_quotes(s) =~= s.take(trim_end_quotes(s).len() as int),
        trim_end_quotes(s).len() > 0 ==> trim_end_quotes(s).last() != '"',
        s.len() > 0 && s[0] != '"' ==> trim_end_quotes(s).len() > 0,
    decreases s.len(),
{
    if s.len() > 0 && s.last() == '"' {
        let t = s.drop_last();
        lemma_trim_end_quotes(t);
        assert(t.take(trim_end_quotes(t).len() as int) =~= s.take(trim_end_quotes(t).len() as int));
        if s[0] != '"' {
            assert(t.len() > 0);
            assert(t[0] == s[0]);
        }
    } else {
        assert(s.take(s.len() as int) =~= s);
    }
}

/// The value of a quoted field neither starts nor ends with a quote, so trimming it again
/// changes nothing.
pub proof fn lemma_trim_quotes_idempotent(s: Seq<char>)
    ensures
        trim_quotes(s).len() > 0 ==> trim_quotes(s)[0] != '"' && trim_quotes(s).last() != '"',
        trim_quotes(trim_quotes(s)) == trim_quotes(s),
{
    let a = trim_start_quotes(s);
    lemma_trim_start_quotes(s);
    lemma_trim_end_quotes(a);
    let r = trim_end_quotes(a);
    if r.len() > 0 {
        assert(r[0] == a[0]);
    }
    assert(trim_start_quotes(r) == r);
    lemma_trim_end_quotes(r);
    assert(trim_end_quotes(r) == r);
}

} // verus!
