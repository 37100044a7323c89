//! Decimal rendering of numbers into text.
use vstd::prelude::*;
use vstd::string::StringExecFns;
use vstd::string::StrSliceExecFns;

verus! {

pub open spec fn digit_char(d: int) -> char {
    if d == 0 {
        '0'
    } else if d == 1 {
        '1'
    } else if d == 2 {
        '2'
    } else if d == 3 {
        '3'
    } else if d == 4 {
        '4'
    } else if d == 5 {
        '5'
    } else if d == 6 {
        '6'
    } else if d == 7 {
        '7'
    } else if d == 8 {
        '8'
    } else {
        '9'
    }
}

/// The decimal digits of `n`, most significant first, without leading zeros.
pub open spec fn decimal(n: nat) -> Seq<char>
    decreases n,
{
    if n < 10 {
        seq![digit_char(n as int)]
    } else {
        decimal(n / 10).push(digit_char((n % 10) as int))
    }
}

fn digit_str(d: u32) -> (s: &'static str)
    requires
        d < 10,
    ensures
        s@ == seq![digit_char(d as int)],
{
    if d == 0 {
        proof { reveal_strlit("0"); }
        "0"
    } else if d == 1 {
        proof { reveal_strlit("1"); }
        "1"
    } else if d == 2 {
        proof { reveal_strlit("2"); }
        "2"
    } else if d == 3 {
        proof { reveal_strlit("3"); }
        "3"
    } else if d == 4 {
        proof { reveal_strlit("4"); }
        "4"
    } else if d == 5 {
        proof { reveal_strlit("5"); }
        "5"
    } else if d == 6 {
        proof { reveal_strlit("6"); }
        "6"
    } else if d == 7 {
        proof { reveal_strlit("7"); }
        "7"
    } else if d == 8 {
        proof { reveal_strlit("8"); }
        "8"
    } else {
        proof { reveal_strlit("9"); }
        "9"
    }
}

/// Appends the decimal digits of `n`.
pub fn append_decimal(text: &mut String, n: u32)
    ensures
        final(text)@ == old(text)@ + decimal(n as nat),
    decreases n,
{
    if n >= 10 {
        append_decimal(text, n / 10);
    }
    let ghost mid = text@;
    text.append(digit_str(n % 10));
    proof {
        if n >= 10 {
            assert(mid + seq![digit_char((n % 10) as int)] =~= old(text)@ + decimal(n as nat));
        } else {
            assert(text@ =~= old(text)@ + decimal(n as nat));
        }
    }
}

} // verus!

verus! {

// ---------------------------------------------------------------------------
// Characters

/// The characters with the Unicode White_Space property.
pub open spec fn is_whitespace_spec(c: char) -> bool {
    let v = c as u32;
    (0x9 <= v && v <= 0xD) || v == 0x20 || v == 0x85 || v == 0xA0 || v == 0x1680 || (0x2000 <= v && v <= 0x200A)
        || v == 0x2028 || v == 0x2029 || v == 0x202F || v == 0x205F || v == 0x3000
}

pub fn is_whitespace(c: char) -> (w: bool)
    ensures
        w == is_whitespace_spec(c),
{
    let v = c as u32;
    (0x9 <= v && v <= 0xD) || v == 0x20 || v == 0x85 || v == 0xA0 || v == 0x1680 || (0x2000 <= v && v <= 0x200A)
        || v == 0x2028 || v == 0x2029 || v == 0x202F || v == 0x205F || v == 0x3000
}

pub open spec fn is_digit_spec(c: char) -> bool {
    '0' as u32 <= c as u32 && c as u32 <= '9' as u32
}

pub fn is_digit(c: char) -> (d: bool)
    ensures
        d == is_digit_spec(c),
{
    let v = c as u32;
    48 <= v && v <= 57
}

pub open spec fn is_ascii_alphanumeric_spec(c: char) -> bool {
    is_digit_spec(c) || ('a' as u32 <= c as u32 && c as u32 <= 'z' as u32) || ('A' as u32 <= c as u32
        && c as u32 <= 'Z' as u32)
}

/// ASCII upper-case letters become lower-case; other characters stay.
pub open spec fn to_ascii_lowercase_spec(c: char) -> char {
    if 'A' as u32 <= c as u32 && c as u32 <= 'Z' as u32 {
        (c as u32 + 32) as char
    } else {
        c
    }
}

pub fn to_ascii_lowercase(c: char) -> (l: char)
    ensures
        l == to_ascii_lowercase_spec(c),
{
    let v = c as u32;
    if 65 <= v && v <= 90 {
        let lower: u8 = (v + 32) as u8;
        lower as char
    } else {
        c
    }
}

/// The characters of `s`, in order.
pub fn chars_of(s: &str) -> (chars: Vec<char>)
    ensures
        chars@ == s@,
{
    let n = s.unicode_len();
    let mut chars: Vec<char> = Vec::new();
    let mut i: usize = 0;
    while i < n
        invariant
            n == s@.len(),
            i <= n,
            chars@ == s@.take(i as int),
        decreases n - i,
    {
        chars.push(s.get_char(i));
        assert(chars@ =~= s@.take(i + 1));
        i += 1;
    }
    assert(s@.take(n as int) =~= s@);
    chars
}

// ---------------------------------------------------------------------------
// Decimal numbers

/// The value of a run of decimal digits.
pub open spec fn digits_value(s: Seq<char>) -> nat
    decreases s.len(),
{
    if s.len() == 0 {
        0
    } else {
        digits_value(s.drop_last()) * 10 + (s.last() as u32 - '0' as u32) as nat
    }
}

pub open spec fn all_digits(s: Seq<char>) -> bool {
    forall|i: int| 0 <= i < s.len() ==> #[trigger] is_digit_spec(s[i])
}

/// What `u32::from_str` makes of `s`: an optional `+`, then at least one
/// digit, and a value that fits.
pub open spec fn parse_u32_spec(s: Seq<char>) -> Option<u32> {
    let body = if s.len() > 0 && s[0] == '+' { s.drop_first() } else { s };
    if body.len() > 0 && all_digits(body) && digits_value(body) <= u32::MAX {
        Some(digits_value(body) as u32)
    } else {
        None
    }
}

/// What `i32::from_str` makes of `s`: an optional sign, then at least one
/// digit, and a value that fits.
pub open spec fn parse_i32_spec(s: Seq<char>) -> Option<i32> {
    let negative = s.len() > 0 && s[0] == '-';
    let body = if s.len() > 0 && (s[0] == '+' || s[0] == '-') { s.drop_first() } else { s };
    if body.len() == 0 || !all_digits(body) {
        None
    } else if negative {
        if digits_value(body) <= 0x8000_0000 { Some((0 - digits_value(body)) as i32) } else { None }
    } else {
        if digits_value(body) <= 0x7FFF_FFFF { Some(digits_value(body) as i32) } else { None }
    }
}

proof fn lemma_digits_value_monotone(s: Seq<char>, n: int)
    requires
        0 <= n <= s.len(),
        all_digits(s),
    ensures
        digits_value(s.take(n)) <= digits_value(s),
    decreases s.len() - n,
{
    if n < s.len() {
        assert(s.take(n + 1).drop_last() =~= s.take(n));
        lemma_digits_value_monotone(s, n + 1);
    } else {
        assert(s.take(n) =~= s);
    }
}

/// The value of the digits `s[from..to]`, or `None` once it passes `limit`.
fn digits_value_up_to(s: &[char], from: usize, to: usize, limit: u64) -> (value: Option<u64>)
    requires
        from <= to <= s@.len(),
        all_digits(s@.subrange(from as int, to as int)),
        limit <= u32::MAX,
    ensures
        match value {
            Some(v) => v as nat == digits_value(s@.subrange(from as int, to as int)) && v <= limit,
            None => digits_value(s@.subrange(from as int, to as int)) > limit,
        },
{
    let ghost body = s@.subrange(from as int, to as int);
    let mut value: u64 = 0;
    let mut i: usize = from;
    while i < to
        invariant
            from <= i <= to <= s@.len(),
            body == s@.subrange(from as int, to as int),
            all_digits(body),
            limit <= u32::MAX,
            value as nat == digits_value(body.take(i - from)),
            value <= limit,
        decreases to - i,
    {
        assert(body.take(i - from + 1).drop_last() =~= body.take(i - from));
        assert(body[i - from] == s@[i as int]);
        assert(is_digit_spec(body[i - from]));
        let d = s[i] as u32 - 48;
        value = value * 10 + d as u64;
        i += 1;
        if value > limit {
            proof { lemma_digits_value_monotone(body, i - from); }
            return None;
        }
    }
    assert(body.take(to - from) =~= body);
    Some(value)
}

/// Parses `s[from..to]` as `u32::from_str` does.
pub fn parse_u32(s: &[char], from: usize, to: usize) -> (value: Option<u32>)
    requires
        from <= to <= s@.len(),
    ensures
        value == parse_u32_spec(s@.subrange(from as int, to as int)),
{
    let ghost t = s@.subrange(from as int, to as int);
    let start = if from < to && s[from] == '+' { from + 1 } else { from };
    assert(s@.subrange(start as int, to as int) =~= if t.len() > 0 && t[0] == '+' { t.drop_first() } else { t });
    if start >= to {
        return None;
    }
    let mut i = start;
    while i < to
        invariant
            start <= i <= to <= s@.len(),
            t == s@.subrange(from as int, to as int),
            s@.subrange(start as int, to as int) == (if t.len() > 0 && t[0] == '+' { t.drop_first() } else { t }),
            forall|k: int| start <= k < i ==> #[trigger] is_digit_spec(s@[k]),
        decreases to - i,
    {
        if !is_digit(s[i]) {
            assert(!all_digits(s@.subrange(start as int, to as int)) ) by {
                assert(!is_digit_spec(s@.subrange(start as int, to as int)[i - start]));
            }
            return None;
        }
        i += 1;
    }
    assert(all_digits(s@.subrange(start as int, to as int))) by {
        assert forall|k: int| 0 <= k < to - start implies #[trigger] is_digit_spec(s@.subrange(start as int, to as int)[k]) by {
            assert(s@.subrange(start as int, to as int)[k] == s@[start + k]);
        }
    }
    match digits_value_up_to(s, start, to, 0xFFFF_FFFF) {
        Some(v) => Some(v as u32),
        None => None,
    }
}

/// Parses `s[from..to]` as `i32::from_str` does.
pub fn parse_i32(s: &[char], from: usize, to: usize) -> (value: Option<i32>)
    requires
        from <= to <= s@.len(),
    ensures
        value == parse_i32_spec(s@.subrange(from as int, to as int)),
{
    let ghost t = s@.subrange(from as int, to as int);
    let negative = from < to && s[from] == '-';
    let start = if from < to && (s[from] == '+' || s[from] == '-') { from + 1 } else { from };
    assert(s@.subrange(start as int, to as int) =~= if t.len() > 0 && (t[0] == '+' || t[0] == '-') {
        t.drop_first()
    } else {
        t
    });
    if start >= to {
        return None;
    }
    let mut i = start;
    while i < to
        invariant
            start <= i <= to <= s@.len(),
            t == s@.subrange(from as int, to as int),
            s@.subrange(start as int, to as int) == (if t.len() > 0 && (t[0] == '+' || t[0] == '-') {
                t.drop_first()
            } else {
                t
            }),
            forall|k: int| start <= k < i ==> #[trigger] is_digit_spec(s@[k]),
        decreases to - i,
    {
        if !is_digit(s[i]) {
            assert(!all_digits(s@.subrange(start as int, to as int)) ) by {
                assert(!is_digit_spec(s@.subrange(start as int, to as int)[i - start]));
            }
            return None;
        }
        i += 1;
    }
    assert(all_digits(s@.subrange(start as int, to as int))) by {
        assert forall|k: int| 0 <= k < to - start implies #[trigger] is_digit_spec(s@.subrange(start as int, to as int)[k]) by {
            assert(s@.subrange(start as int, to as int)[k] == s@[start + k]);
        }
    }
    if negative {
        match digits_value_up_to(s, start, to, 0x8000_0000) {
            Some(v) => {
                if v == 0x8000_0000 {
                    Some(i32::MIN)
                } else {
                    let p = v as i32;
                    Some(-p)
                }
            },
            None => None,
        }
    } else {
        match digits_value_up_to(s, start, to, 0x7FFF_FFFF) {
            Some(v) => Some(v as i32),
            None => None,
        }
    }
}

// ---------------------------------------------------------------------------
// Scanning

/// The index of the first character at or after `from` that is not
/// white space (the length when there is none).
pub open spec fn skip_whitespace(s: Seq<char>, from: int) -> int
    decreases s.len() - from,
{
    if from < 0 || from >= s.len() || !is_whitespace_spec(s[from]) {
        if from < 0 { 0 } else if from > s.len() { s.len() as int } else { from }
    } else {
        skip_whitespace(s, from + 1)
    }
}

/// The index of the first white space at or after `from` (the length when
/// there is none).
pub open spec fn token_end(s: Seq<char>, from: int) -> int
    decreases s.len() - from,
{
    if from < 0 || from >= s.len() || is_whitespace_spec(s[from]) {
        if from < 0 { 0 } else if from > s.len() { s.len() as int } else { from }
    } else {
        token_end(s, from + 1)
    }
}

/// The index of the first non-digit at or after `from` (the length when
/// there is none).
pub open spec fn digits_end(s: Seq<char>, from: int) -> int
    decreases s.len() - from,
{
    if from < 0 || from >= s.len() || !is_digit_spec(s[from]) {
        if from < 0 { 0 } else if from > s.len() { s.len() as int } else { from }
    } else {
        digits_end(s, from + 1)
    }
}

pub fn skip_whitespace_exec(s: &[char], from: usize) -> (i: usize)
    requires
        from <= s@.len(),
    ensures
        i as int == skip_whitespace(s@, from as int),
        from <= i <= s@.len(),
{
    let mut i = from;
    while i < s.len() && is_whitespace(s[i])
        invariant
            from <= i <= s@.len(),
            skip_whitespace(s@, from as int) == skip_whitespace(s@, i as int),
        decreases s.len() - i,
    {
        i += 1;
    }
    i
}

pub fn token_end_exec(s: &[char], from: usize) -> (i: usize)
    requires
        from <= s@.len(),
    ensures
        i as int == token_end(s@, from as int),
        from <= i <= s@.len(),
{
    let mut i = from;
    while i < s.len() && !is_whitespace(s[i])
        invariant
            from <= i <= s@.len(),
            token_end(s@, from as int) == token_end(s@, i as int),
        decreases s.len() - i,
    {
        i += 1;
    }
    i
}

pub fn digits_end_exec(s: &[char], from: usize) -> (i: usize)
    requires
        from <= s@.len(),
    ensures
        i as int == digits_end(s@, from as int),
        from <= i <= s@.len(),
        forall|k: int| from <= k < i ==> #[trigger] is_digit_spec(s@[k]),
{
    let mut i = from;
    while i < s.len() && is_digit(s[i])
        invariant
            from <= i <= s@.len(),
            digits_end(s@, from as int) == digits_end(s@, i as int),
            forall|k: int| from <= k < i ==> #[trigger] is_digit_spec(s@[k]),
        decreases s.len() - i,
    {
        i += 1;
    }
    i
}

/// The first white-space separated word of `s`.
pub open spec fn first_word(s: Seq<char>) -> Seq<char> {
    let start = skip_whitespace(s, 0);
    s.subrange(start, token_end(s, start))
}

proof fn lemma_scan_bounds(s: Seq<char>, from: int)
    requires
        0 <= from <= s.len(),
    ensures
        from <= skip_whitespace(s, from) <= s.len(),
        from <= token_end(s, from) <= s.len(),
        from <= digits_end(s, from) <= s.len(),
    decreases s.len() - from,
{
    if from < s.len() {
        lemma_scan_bounds(s, from + 1);
    }
}

/// The first word of a stored number list read as an unsigned number, 0
/// when it is missing or not a number.
pub fn first_field_u32(text: &str) -> (value: u32)
    ensures
        value == match parse_u32_spec(first_word(text@)) {
            Some(v) => v,
            None => 0,
        },
{
    let chars = chars_of(text);
    let start = skip_whitespace_exec(chars.as_slice(), 0);
    let end = token_end_exec(chars.as_slice(), start);
    match parse_u32(chars.as_slice(), start, end) {
        Some(v) => v,
        None => 0,
    }
}

/// The first word of a stored number list read as a signed number, 0 when
/// it is missing or not a number.
pub fn first_field_i32(text: &str) -> (value: i32)
    ensures
        value == match parse_i32_spec(first_word(text@)) {
            Some(v) => v,
            None => 0,
        },
{
    let chars = chars_of(text);
    let start = skip_whitespace_exec(chars.as_slice(), 0);
    let end = token_end_exec(chars.as_slice(), start);
    match parse_i32(chars.as_slice(), start, end) {
        Some(v) => v,
        None => 0,
    }
}

} // verus!
