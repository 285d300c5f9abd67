//! Character-level text helpers: white space, prefixes, substrings, and the
//! decimal and hexadecimal spelling of integers.
//!
//! Every contract here is stated over `Seq<char>`, the view of `str` and
//! `String`.
use vstd::prelude::*;

verus! {

/// Whether `c` carries the Unicode `White_Space` property.
pub open spec fn is_space(c: char) -> bool {
    let n = c as u32;
    ||| 0x09 <= n <= 0x0D
    ||| n == 0x20
    ||| n == 0x85
    ||| n == 0xA0
    ||| n == 0x1680
    ||| 0x2000 <= n <= 0x200A
    ||| n == 0x2028
    ||| n == 0x2029
    ||| n == 0x202F
    ||| n == 0x205F
    ||| n == 0x3000
}

/// A text is blank when it holds nothing but white space.
pub open spec fn is_blank(s: Seq<char>) -> bool {
    forall|i: int| 0 <= i < s.len() ==> is_space(#[trigger] s[i])
}

/// Index of the first character at or after `from` that is not white space,
/// or the length of `s` if there is none.
pub open spec fn first_non_space(s: Seq<char>, from: int) -> int
    decreases s.len() - from,
{
    if 0 <= from < s.len() && is_space(s[from]) {
        first_non_space(s, from + 1)
    } else {
        from
    }
}

/// End (exclusive) of the last character before `to` that is not white
/// space, or 0 if there is none.
pub open spec fn last_non_space_end(s: Seq<char>, to: int) -> int
    decreases to,
{
    if 0 < to <= s.len() && is_space(s[to - 1]) {
        last_non_space_end(s, to - 1)
    } else {
        to
    }
}

/// `s` without its leading white space.
pub open spec fn trimmed_start(s: Seq<char>) -> Seq<char> {
    s.skip(first_non_space(s, 0))
}

/// `s` without its leading and trailing white space.
pub open spec fn trimmed(s: Seq<char>) -> Seq<char> {
    let from = first_non_space(s, 0);
    let to = last_non_space_end(s, s.len() as int);
    if from <= to {
        s.subrange(from, to)
    } else {
        Seq::empty()
    }
}

/// `needle` stands in `hay` at index `i`.
pub open spec fn occurs_at(hay: Seq<char>, needle: Seq<char>, i: int) -> bool {
    &&& 0 <= i
    &&& i + needle.len() <= hay.len()
    &&& hay.subrange(i, i + needle.len()) == needle
}

/// `needle` stands somewhere in `hay`.
pub open spec fn has_substring(hay: Seq<char>, needle: Seq<char>) -> bool {
    exists|i: int| occurs_at(hay, needle, i)
}

/// `s` begins with `prefix`.
pub open spec fn has_prefix(s: Seq<char>, prefix: Seq<char>) -> bool {
    occurs_at(s, prefix, 0)
}

/// `s` ends with `suffix`.
pub open spec fn has_suffix(s: Seq<char>, suffix: Seq<char>) -> bool {
    occurs_at(s, suffix, s.len() - suffix.len())
}

/// The character that spells the digit `d` in bases up to sixteen, lower case.
pub open spec fn digit_char(d: int) -> char {
    if d == 0 {
        '0'
    } else if d == 1 {
        '1'
    } else if d == 2 {
        '2'
    } else if d == 3 {
        '3'
    } else if d == 4 {
        '4'
    } else if d == 5 {
        '5'
    } else if d == 6 {
        '6'
    } else if d == 7 {
        '7'
    } else if d == 8 {
        '8'
    } else if d == 9 {
        '9'
    } else if d == 10 {
        'a'
    } else if d == 11 {
        'b'
    } else if d == 12 {
        'c'
    } else if d == 13 {
        'd'
    } else if d == 14 {
        'e'
    } else {
        'f'
    }
}

/// `n` in decimal, most significant digit first, with no leading zero.
pub open spec fn decimal(n: nat) -> Seq<char>
    decreases n,
{
    if n < 10 {
        seq![digit_char(n as int)]
    } else {
        decimal(n / 10).push(digit_char((n % 10) as int))
    }
}

/// `x` in decimal, with a leading `-` when negative.
pub open spec fn signed_decimal(x: int) -> Seq<char> {
    if x < 0 {
        seq!['-'] + decimal((-x) as nat)
    } else {
        decimal(x as nat)
    }
}

/// `n` in lower-case hexadecimal, most significant digit first, with no
/// leading zero.
pub open spec fn hex_lower(n: nat) -> Seq<char>
    decreases n,
{
    if n < 16 {
        seq![digit_char(n as int)]
    } else {
        hex_lower(n / 16).push(digit_char((n % 16) as int))
    }
}

/// The characters of `s`, in order.
pub fn to_chars(s: &str) -> (v: Vec<char>)
    ensures
        v@ == s@,
{
    let mut v: Vec<char> = Vec::new();
    for c in it: s.chars()
        invariant
            v@ == it.seq().take(it.index()),
            it.seq() == s@,
    {
        v.push(c);
    }
    v
}

/// Tests two texts for equality, character by character.
pub fn str_eq(a: &str, b: &str) -> (r: bool)
    ensures
        r == (a@ == b@),
{
    let left = a.to_owned();
    let right = b.to_owned();
    left == right
}

/// Tests a character for the Unicode `White_Space` property.
pub fn is_whitespace(c: char) -> (b: bool)
    ensures
        b == is_space(c),
{
    let n: u32 = c as u32;
    (0x09 <= n && n <= 0x0D) || n == 0x20 || n == 0x85 || n == 0xA0 || n == 0x1680 || (0x2000 <= n
        && n <= 0x200A) || n == 0x2028 || n == 0x2029 || n == 0x202F || n == 0x205F || n == 0x3000
}

/// Index of the first character at or after `from` that is not white space.
pub fn skip_spaces(text: &Vec<char>, from: usize) -> (k: usize)
    requires
        from <= text.len(),
    ensures
        k == first_non_space(text@, from as int),
        from <= k <= text.len(),
{
    let mut k: usize = from;
    while k < text.len() && is_whitespace(text[k])
        invariant
            from <= k <= text.len(),
            first_non_space(text@, from as int) == first_non_space(text@, k as int),
        decreases text.len() - k,
    {
        k += 1;
    }
    k
}

/// End of the last character before `to` that is not white space.
pub fn skip_spaces_back(text: &Vec<char>, to: usize) -> (k: usize)
    requires
        to <= text.len(),
    ensures
        k == last_non_space_end(text@, to as int),
        k <= to,
{
    let mut k: usize = to;
    while k > 0 && is_whitespace(text[k - 1])
        invariant
            k <= to <= text.len(),
            last_non_space_end(text@, to as int) == last_non_space_end(text@, k as int),
        decreases k,
    {
        k -= 1;
    }
    k
}

/// Every character from `from` on that is white space is passed over by
/// `first_non_space`, so a text is blank exactly when the scan reaches its end.
pub proof fn lemma_blank_iff_scan_reaches_end(s: Seq<char>, from: int)
    requires
        0 <= from <= s.len(),
    ensures
        from <= first_non_space(s, from) <= s.len(),
        first_non_space(s, from) == s.len() <==> is_blank(s.skip(from)),
        forall|i: int| from <= i < first_non_space(s, from) ==> is_space(#[trigger] s[i]),
    decreases s.len() - from,
{
    if from < s.len() && is_space(s[from]) {
        lemma_blank_iff_scan_reaches_end(s, from + 1);
        let rest = s.skip(from + 1);
        let here = s.skip(from);
        assert forall|i: int| 0 <= i < rest.len() implies rest[i] == here[i + 1] by {}
        if is_blank(rest) {
            assert forall|i: int| 0 <= i < here.len() implies is_space(#[trigger] here[i]) by {
                if i > 0 {
                    assert(here[i] == rest[i - 1]);
                }
            }
        }
        if is_blank(here) {
            assert forall|i: int| 0 <= i < rest.len() implies is_space(#[trigger] rest[i]) by {
                assert(rest[i] == here[i + 1]);
            }
        }
    } else if from < s.len() {
        assert(s.skip(from)[0] == s[from]);
    }
}

/// Whether `text` holds nothing but white space.
pub fn str_is_blank(text: &str) -> (b: bool)
    ensures
        b == is_blank(text@),
{
    let chars = to_chars(text);
    let k = skip_spaces(&chars, 0);
    proof {
        lemma_blank_iff_scan_reaches_end(chars@, 0);
        assert(chars@.skip(0) =~= chars@);
    }
    k == chars.len()
}

/// `text` without its leading and trailing white space.
pub fn trim(text: &str) -> (r: String)
    ensures
        r@ == trimmed(text@),
{
    let chars = to_chars(text);
    let from = skip_spaces(&chars, 0);
    let to = skip_spaces_back(&chars, chars.len());
    if from <= to {
        String::from_str(text.substring_char(from, to))
    } else {
        String::new()
    }
}

/// Whether `needle` stands in `hay` at index `i`.
pub fn matches_at(hay: &Vec<char>, needle: &Vec<char>, i: usize) -> (b: bool)
    ensures
        b == occurs_at(hay@, needle@, i as int),
{
    if needle.len() > hay.len() || i > hay.len() - needle.len() {
        return false;
    }
    let mut j: usize = 0;
    while j < needle.len()
        invariant
            j <= needle.len(),
            i + needle.len() <= hay.len(),
            forall|k: int| 0 <= k < j ==> hay@[i + k] == needle@[k],
        decreases needle.len() - j,
    {
        if hay[i + j] != needle[j] {
            proof {
                let window = hay@.subrange(i as int, i + needle.len());
                assert(window[j as int] == hay@[i + j]);
            }
            return false;
        }
        j += 1;
    }
    proof {
        assert(hay@.subrange(i as int, i + needle.len()) =~= needle@);
    }
    true
}

/// Whether `needle` stands somewhere in `hay`.
pub fn contains_chars(hay: &Vec<char>, needle: &Vec<char>) -> (b: bool)
    ensures
        b == has_substring(hay@, needle@),
{
    if needle.len() > hay.len() {
        return false;
    }
    let last: usize = hay.len() - needle.len();
    let mut i: usize = 0;
    loop
        invariant
            i <= last,
            last == hay.len() - needle.len(),
            forall|k: int| 0 <= k < i ==> !occurs_at(hay@, needle@, k),
        decreases last - i,
    {
        if matches_at(hay, needle, i) {
            return true;
        }
        if i == last {
            return false;
        }
        i += 1;
    }
}

/// Whether `needle` stands somewhere in `hay`.
pub fn str_contains(hay: &str, needle: &str) -> (b: bool)
    ensures
        b == has_substring(hay@, needle@),
{
    let h = to_chars(hay);
    let n = to_chars(needle);
    contains_chars(&h, &n)
}

/// Whether `text` begins with `prefix`.
pub fn str_starts_with(text: &str, prefix: &str) -> (b: bool)
    ensures
        b == has_prefix(text@, prefix@),
{
    let t = to_chars(text);
    let p = to_chars(prefix);
    matches_at(&t, &p, 0)
}

/// Whether `text` ends with `suffix`.
pub fn str_ends_with(text: &str, suffix: &str) -> (b: bool)
    ensures
        b == has_suffix(text@, suffix@),
{
    let t = to_chars(text);
    let s = to_chars(suffix);
    if s.len() > t.len() {
        return false;
    }
    matches_at(&t, &s, t.len() - s.len())
}

/// The one-character text that spells the digit `d`.
pub fn digit_str(d: u8) -> (s: &'static str)
    requires
        d < 16,
    ensures
        s@ == seq![digit_char(d as int)],
{
    proof {
        reveal_strlit("0");
        reveal_strlit("1");
        reveal_strlit("2");
        reveal_strlit("3");
        reveal_strlit("4");
        reveal_strlit("5");
        reveal_strlit("6");
        reveal_strlit("7");
        reveal_strlit("8");
        reveal_strlit("9");
        reveal_strlit("a");
        reveal_strlit("b");
        reveal_strlit("c");
        reveal_strlit("d");
        reveal_strlit("e");
        reveal_strlit("f");
    }
    let s = if d == 0 {
        "0"
    } else if d == 1 {
        "1"
    } else if d == 2 {
        "2"
    } else if d == 3 {
        "3"
    } else if d == 4 {
        "4"
    } else if d == 5 {
        "5"
    } else if d == 6 {
        "6"
    } else if d == 7 {
        "7"
    } else if d == 8 {
        "8"
    } else if d == 9 {
        "9"
    } else if d == 10 {
        "a"
    } else if d == 11 {
        "b"
    } else if d == 12 {
        "c"
    } else if d == 13 {
        "d"
    } else if d == 14 {
        "e"
    } else {
        "f"
    };
    assert(s@ =~= seq![digit_char(d as int)]);
    s
}

/// Appends `n`, written in decimal, to `out`.
pub fn push_decimal(out: &mut String, n: u64)
    ensures
        final(out)@ == old(out)@ + decimal(n as nat),
    decreases n,
{
    if n >= 10 {
        push_decimal(out, n / 10);
        out.append(digit_str((n % 10) as u8));
        assert(final(out)@ =~= old(out)@ + decimal(n as nat));
    } else {
        out.append(digit_str(n as u8));
    }
}

/// Appends `n`, written in lower-case hexadecimal, to `out`.
pub fn push_hex(out: &mut String, n: u64)
    ensures
        final(out)@ == old(out)@ + hex_lower(n as nat),
    decreases n,
{
    if n >= 16 {
        push_hex(out, n / 16);
        out.append(digit_str((n % 16) as u8));
        assert(final(out)@ =~= old(out)@ + hex_lower(n as nat));
    } else {
        out.append(digit_str(n as u8));
    }
}

/// Appends `x`, written in decimal with a leading `-` when negative, to `out`.
pub fn push_signed_decimal(out: &mut String, x: i64)
    ensures
        final(out)@ == old(out)@ + signed_decimal(x as int),
{
    if x < 0 {
        proof {
            reveal_strlit("-");
        }
        out.append("-");
        let magnitude: u64 = if x == i64::MIN {
            0x8000_0000_0000_0000u64
        } else {
            (-x) as u64
        };
        push_decimal(out, magnitude);
        assert(final(out)@ =~= old(out)@ + signed_decimal(x as int));
    } else {
        push_decimal(out, x as u64);
    }
}

/// `n` in decimal.
pub fn u64_to_decimal(n: u64) -> (s: String)
    ensures
        s@ == decimal(n as nat),
{
    let mut s = String::new();
    push_decimal(&mut s, n);
    assert(s@ =~= decimal(n as nat));
    s
}

/// `x` in decimal, with a leading `-` when negative.
pub fn i64_to_decimal(x: i64) -> (s: String)
    ensures
        s@ == signed_decimal(x as int),
{
    let mut s = String::new();
    push_signed_decimal(&mut s, x);
    assert(s@ =~= signed_decimal(x as int));
    s
}

/// `n` in lower-case hexadecimal.
pub fn u64_to_hex(n: u64) -> (s: String)
    ensures
        s@ == hex_lower(n as nat),
{
    let mut s = String::new();
    push_hex(&mut s, n);
    assert(s@ =~= hex_lower(n as nat));
    s
}

/// The Unicode lower-case mapping of a text. It maps each character by the
/// Unicode character database and is not spelled out here.
pub uninterp spec fn unicode_lowercase(s: Seq<char>) -> Seq<char>;

/// `str::to_lowercase`: the lower-case equivalent of `text` as a new string,
/// a function of the characters of `text` alone.
#[verifier::external_body]
pub(crate) fn lowercase(text: &str) -> (r: String)
    ensures
        r@ == unicode_lowercase(text@),
{
    text.to_lowercase()
}

/// Whether `c` is one of the ten decimal digits.
pub open spec fn is_digit(c: char) -> bool {
    48 <= c as u32 <= 57
}

/// The value of a decimal digit.
pub open spec fn digit_value(c: char) -> int {
    c as u32 - 48
}

/// Whether `s` holds nothing but decimal digits.
pub open spec fn all_digits(s: Seq<char>) -> bool {
    forall|i: int| 0 <= i < s.len() ==> is_digit(#[trigger] s[i])
}

/// The number that a text of decimal digits spells.
pub open spec fn digits_value(s: Seq<char>) -> int
    decreases s.len(),
{
    if s.len() == 0 {
        0
    } else {
        digits_value(s.drop_last()) * 10 + digit_value(s.last())
    }
}

/// The integer that a text spells: an optional `+` or `-`, then one or
/// more decimal digits and nothing else.
pub open spec fn parsed_integer(s: Seq<char>) -> Option<int> {
    let signed = s.len() > 0 && (s[0] == '-' || s[0] == '+');
    let digits = if signed {
        s.skip(1)
    } else {
        s
    };
    if digits.len() == 0 || !all_digits(digits) {
        None
    } else if signed && s[0] == '-' {
        Some(-digits_value(digits))
    } else {
        Some(digits_value(digits))
    }
}

/// The `i32` that a text spells, if it spells an integer in range.
pub open spec fn parsed_i32(s: Seq<char>) -> Option<i32> {
    match parsed_integer(s) {
        Some(v) => if i32::MIN <= v <= i32::MAX {
            Some(v as i32)
        } else {
            None
        },
        None => None,
    }
}

/// The truth value that a text spells: `true` or `false`, exactly.
pub open spec fn parsed_bool(s: Seq<char>) -> Option<bool> {
    if s == "true"@ {
        Some(true)
    } else if s == "false"@ {
        Some(false)
    } else {
        None
    }
}

/// Reads an `i32` from its decimal spelling.
pub fn parse_i32(text: &str) -> (r: Option<i32>)
    ensures
        r == parsed_i32(text@),
{
    let chars = to_chars(text);
    let signed = chars.len() > 0 && (chars[0] == '-' || chars[0] == '+');
    let negative = signed && chars[0] == '-';
    let start: usize = if signed {
        1
    } else {
        0
    };
    let ghost digits = chars@.skip(start as int);
    if chars.len() == start {
        return None;
    }
    let mut acc: u64 = 0;
    let mut overflow = false;
    let mut k: usize = start;
    while k < chars.len()
        invariant
            start <= k <= chars.len(),
            chars@ == text@,
            chars.len() > start,
            signed == (chars@.len() > 0 && (chars@[0] == '-' || chars@[0] == '+')),
            negative == (signed && chars@[0] == '-'),
            start == if signed {
                1int
            } else {
                0int
            },
            digits == chars@.skip(start as int),
            all_digits(digits.take(k - start)),
            !overflow ==> acc == digits_value(digits.take(k - start)) && acc <= 0x8000_0000,
            overflow ==> digits_value(digits.take(k - start)) > 0x8000_0000,
        decreases chars.len() - k,
    {
        let c = chars[k];
        let n: u32 = c as u32;
        if n < 48 || n > 57 {
            assert(digits[k - start] == c);
            assert(!is_digit(digits[k - start]));
            return None;
        }
        proof {
            let before = digits.take(k - start);
            let after = digits.take(k - start + 1);
            assert(after.drop_last() =~= before);
            assert(after.last() == c);
            assert(digits_value(after) == digits_value(before) * 10 + digit_value(c));
            assert forall|i: int| 0 <= i < after.len() implies is_digit(#[trigger] after[i]) by {
                if i < before.len() {
                    assert(after[i] == before[i]);
                }
            }
        }
        if !overflow {
            acc = acc * 10 + (n - 48) as u64;
            if acc > 0x8000_0000 {
                overflow = true;
            }
        }
        k += 1;
    }
    proof {
        assert(digits.take(chars.len() - start) =~= digits);
        assert(digits.len() == chars.len() - start);
        assert(all_digits(digits));
        let spelled = if signed {
            text@.skip(1)
        } else {
            text@
        };
        assert(spelled =~= digits);
        let value = digits_value(digits);
        assert(parsed_integer(text@) == if negative {
            Some(-value)
        } else {
            Some(value)
        });
    }
    if overflow {
        None
    } else if negative {
        Some((-(acc as i64)) as i32)
    } else if acc > 0x7fff_ffff {
        None
    } else {
        Some(acc as i32)
    }
}

/// Reads a truth value from its spelling.
pub fn parse_bool(text: &str) -> (r: Option<bool>)
    ensures
        r == parsed_bool(text@),
{
    if str_eq(text, "true") {
        Some(true)
    } else if str_eq(text, "false") {
        Some(false)
    } else {
        None
    }
}

/// The spelling of a truth value.
pub fn bool_str(value: bool) -> (s: &'static str)
    ensures
        s@ == if value {
            "true"@
        } else {
            "false"@
        },
{
    if value {
        "true"
    } else {
        "false"
    }
}

/// The decimal spelling of a number is made of digits, and spells that
/// number.
pub proof fn lemma_decimal_is_read_back(n: nat)
    ensures
        decimal(n).len() > 0,
        all_digits(decimal(n)),
        digits_value(decimal(n)) == n,
    decreases n,
{
    let spelled = decimal(n);
    if n < 10 {
        assert(is_digit(digit_char(n as int)));
        assert(spelled.drop_last() =~= Seq::<char>::empty());
        assert(digits_value(spelled.drop_last()) == 0);
        assert(digit_value(spelled.last()) == n);
    } else {
        lemma_decimal_is_read_back(n / 10);
        let head = decimal(n / 10);
        let last = digit_char((n % 10) as int);
        assert(spelled == head.push(last));
        assert(spelled.drop_last() =~= head);
        assert(spelled.last() == last);
        assert(digit_value(last) == n % 10);
        assert(is_digit(last));
        assert forall|i: int| 0 <= i < spelled.len() implies is_digit(#[trigger] spelled[i]) by {
            if i < head.len() {
                assert(spelled[i] == head[i]);
            }
        }
    }
}

/// What is spelled is read back: reading the decimal spelling of an `i32`
/// gives that number.
pub proof fn lemma_signed_decimal_is_read_back(x: i32)
    ensures
        parsed_i32(signed_decimal(x as int)) == Some(x),
{
    let spelled = signed_decimal(x as int);
    if x < 0 {
        let magnitude = (-(x as int)) as nat;
        lemma_decimal_is_read_back(magnitude);
        assert(spelled[0] == '-');
        assert(spelled.skip(1) =~= decimal(magnitude));
    } else {
        lemma_decimal_is_read_back(x as nat);
        let first = spelled[0];
        assert(is_digit(first));
        assert(first != '-' && first != '+');
    }
}

} // verus!
