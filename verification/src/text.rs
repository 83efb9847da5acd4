//! Building and comparing text.
use vstd::prelude::*;

verus! {

/// `String::push` appends one character: the text afterwards is the text
/// before with the character behind it.
pub assume_specification[ String::push ](text: &mut String, ch: char)
    ensures
        final(text)@ == old(text)@.push(ch),
;

/// The decimal digit `d`.
pub open spec fn digit_char(d: int) -> char {
    if d == 0 {
        '0'
    } else if d == 1 {
        '1'
    } else if d == 2 {
        '2'
    } else if d == 3 {
        '3'
    } else if d == 4 {
        '4'
    } else if d == 5 {
        '5'
    } else if d == 6 {
        '6'
    } else if d == 7 {
        '7'
    } else if d == 8 {
        '8'
    } else {
        '9'
    }
}

/// `n` in decimal, without leading zeros.
pub open spec fn decimal(n: nat) -> Seq<char>
    decreases n,
{
    if n < 10 {
        seq![digit_char(n as int)]
    } else {
        decimal(n / 10).push(digit_char((n % 10) as int))
    }
}

/// `n` in decimal with at least two digits.
pub open spec fn decimal2(n: nat) -> Seq<char> {
    if n < 10 {
        seq!['0', digit_char(n as int)]
    } else {
        decimal(n)
    }
}

fn digit(d: u64) -> (ch: char)
    requires
        d < 10,
    ensures
        ch == digit_char(d as int),
{
    match d {
        0 => '0',
        1 => '1',
        2 => '2',
        3 => '3',
        4 => '4',
        5 => '5',
        6 => '6',
        7 => '7',
        8 => '8',
        _ => '9',
    }
}

/// Appends `n` in decimal.
pub fn push_decimal(out: &mut String, n: u64)
    ensures
        final(out)@ == old(out)@ + decimal(n as nat),
    decreases n,
{
    if n >= 10 {
        push_decimal(out, n / 10);
    }
    out.push(digit(n % 10));
}

/// Appends `n` in decimal, padded with a zero to two digits.
pub fn push_decimal2(out: &mut String, n: u64)
    ensures
        final(out)@ == old(out)@ + decimal2(n as nat),
{
    if n < 10 {
        out.push('0');
        out.push(digit(n));
    } else {
        push_decimal(out, n);
    }
}

/// `n` in decimal.
pub fn decimal_text(n: u64) -> (text: String)
    ensures
        text@ == decimal(n as nat),
{
    let mut out = String::new();
    push_decimal(&mut out, n);
    out
}

/// `n` in decimal, with a minus sign where it is negative.
pub open spec fn signed_decimal(n: int) -> Seq<char> {
    if n < 0 {
        "-"@ + decimal((-n) as nat)
    } else {
        decimal(n as nat)
    }
}

/// Appends `n` in decimal, with a minus sign where it is negative.
pub fn push_signed(out: &mut String, n: i64)
    ensures
        final(out)@ == old(out)@ + signed_decimal(n as int),
{
    if n < 0 {
        out.append("-");
        let magnitude: u64 = (-(n as i128)) as u64;
        push_decimal(out, magnitude);
        proof {
            assert(out@ =~= old(out)@ + signed_decimal(n as int));
        }
    } else {
        push_decimal(out, n as u64);
    }
}

/// The characters of `text`.
pub fn chars_of(text: &str) -> (chars: Vec<char>)
    ensures
        chars@ == text@,
{
    let mut chars: Vec<char> = Vec::new();
    for ch in iter: text.chars()
        invariant
            chars@ == iter.seq().take(iter.index() as int),
            iter.seq() == text@,
    {
        chars.push(ch);
    }
    chars
}

/// The text that `chars` spell from `from` up to `to`.
pub fn text_of(chars: &Vec<char>, from: usize, to: usize) -> (text: String)
    requires
        from <= to <= chars.len(),
    ensures
        text@ == chars@.subrange(from as int, to as int),
{
    let mut text = String::new();
    let mut at: usize = from;
    while at < to
        invariant
            from <= at <= to <= chars.len(),
            text@ == chars@.subrange(from as int, at as int),
        decreases to - at,
    {
        text.push(chars[at]);
        proof {
            assert(chars@.subrange(from as int, at + 1) =~= chars@.subrange(
                from as int,
                at as int,
            ).push(chars@[at as int]));
        }
        at = at + 1;
    }
    text
}

/// `ch` with an ASCII capital letter replaced by its small one.
pub open spec fn ascii_lower(ch: char) -> char {
    if 'A' <= ch <= 'Z' {
        ((ch as u8) + 32u8) as u8 as char
    } else {
        ch
    }
}

/// `text` with its ASCII capital letters replaced by the small ones.
pub open spec fn ascii_lower_text(text: Seq<char>) -> Seq<char> {
    text.map_values(|ch: char| ascii_lower(ch))
}

/// Whether two texts differ in nothing but the case of ASCII letters.
pub open spec fn same_ignoring_case(a: Seq<char>, b: Seq<char>) -> bool {
    ascii_lower_text(a) == ascii_lower_text(b)
}

pub fn to_ascii_lower(ch: char) -> (lower: char)
    ensures
        lower == ascii_lower(ch),
{
    if 'A' <= ch && ch <= 'Z' {
        ((ch as u8) + 32u8) as char
    } else {
        ch
    }
}

/// Compares two texts without regard to the case of ASCII letters.
pub fn eq_ignore_ascii_case(a: &str, b: &str) -> (same: bool)
    ensures
        same == same_ignoring_case(a@, b@),
{
    let left = chars_of(a);
    let right = chars_of(b);
    if left.len() != right.len() {
        proof {
            assert(ascii_lower_text(a@).len() != ascii_lower_text(b@).len());
        }
        return false;
    }
    let mut at: usize = 0;
    while at < left.len()
        invariant
            at <= left.len(),
            left.len() == right.len(),
            left@ == a@,
            right@ == b@,
            forall|i: int| 0 <= i < at ==> ascii_lower(a@[i]) == ascii_lower(b@[i]),
        decreases left.len() - at,
    {
        if to_ascii_lower(left[at]) != to_ascii_lower(right[at]) {
            proof {
                assert(ascii_lower_text(a@)[at as int] != ascii_lower_text(b@)[at as int]);
            }
            return false;
        }
        at = at + 1;
    }
    proof {
        assert(ascii_lower_text(a@) =~= ascii_lower_text(b@));
    }
    true
}

/// The same characters in the same order.
pub fn same_text(a: &str, b: &str) -> (same: bool)
    ensures
        same == (a@ == b@),
{
    let left = chars_of(a);
    let right = chars_of(b);
    if left.len() != right.len() {
        return false;
    }
    let mut at: usize = 0;
    while at < left.len()
        invariant
            at <= left.len(),
            left.len() == right.len(),
            left@ == a@,
            right@ == b@,
            a@.take(at as int) == b@.take(at as int),
        decreases left.len() - at,
    {
        if left[at] != right[at] {
            proof {
                assert(a@[at as int] != b@[at as int]);
            }
            return false;
        }
        proof {
            assert(a@.take(at + 1) =~= a@.take(at as int).push(a@[at as int]));
            assert(b@.take(at + 1) =~= b@.take(at as int).push(b@[at as int]));
        }
        at = at + 1;
    }
    proof {
        assert(a@.take(at as int) =~= a@);
        assert(b@.take(at as int) =~= b@);
    }
    true
}

/// The characters with the Unicode `White_Space` property.
pub open spec fn is_space(ch: char) -> bool {
    let code = ch as u32;
    ||| 0x09 <= code <= 0x0d
    ||| code == 0x20
    ||| code == 0x85
    ||| code == 0xa0
    ||| code == 0x1680
    ||| 0x2000 <= code <= 0x200a
    ||| code == 0x2028
    ||| code == 0x2029
    ||| code == 0x202f
    ||| code == 0x205f
    ||| code == 0x3000
}

/// Whether a character has the Unicode `White_Space` property.
pub fn is_white_space(ch: char) -> (space: bool)
    ensures
        space == is_space(ch),
{
    let code: u32 = ch as u32;
    (0x09 <= code && code <= 0x0d) || code == 0x20 || code == 0x85 || code == 0xa0 || code == 0x1680
        || (0x2000 <= code && code <= 0x200a) || code == 0x2028 || code == 0x2029 || code == 0x202f
        || code == 0x205f || code == 0x3000
}

/// `text` with each run of white space between two words replaced by one
/// space, and with the white space before the first and after the last word
/// removed.
pub open spec fn compact(text: Seq<char>) -> Seq<char>
    decreases text.len(),
{
    if text.len() == 0 {
        Seq::empty()
    } else {
        let before = text.drop_last();
        let done = compact(before);
        if is_space(text.last()) {
            done
        } else if done.len() > 0 && is_space(before.last()) {
            done.push(' ').push(text.last())
        } else {
            done.push(text.last())
        }
    }
}

/// Replaces each run of white space by one space and trims both ends.
pub fn compact_text(text: &str) -> (result: Vec<char>)
    ensures
        result@ == compact(text@),
{
    let chars = chars_of(text);
    let mut out: Vec<char> = Vec::new();
    let mut at: usize = 0;
    while at < chars.len()
        invariant
            at <= chars.len(),
            chars@ == text@,
            out@ == compact(text@.take(at as int)),
        decreases chars.len() - at,
    {
        proof {
            assert(text@.take(at + 1).drop_last() =~= text@.take(at as int));
            assert(text@.take(at + 1).last() == text@[at as int]);
            if at > 0 {
                assert(text@.take(at as int).last() == text@[at - 1]);
            }
        }
        let ch: char = chars[at];
        if !is_white_space(ch) {
            if out.len() > 0 && at > 0 && is_white_space(chars[at - 1]) {
                out.push(' ');
            }
            out.push(ch);
        }
        at = at + 1;
    }
    proof {
        assert(text@.take(at as int) =~= text@);
    }
    out
}

/// `text` without the white space at its two ends.
pub open spec fn trim(text: Seq<char>) -> Seq<char>
    decreases text.len(),
{
    if text.len() == 0 {
        text
    } else if is_space(text.last()) {
        trim(text.drop_last())
    } else if is_space(text[0]) {
        trim(text.drop_first())
    } else {
        text
    }
}

/// Removes the white space at both ends.
pub fn trim_text(text: &str) -> (result: String)
    ensures
        result@ == trim(text@),
{
    let chars = chars_of(text);
    let mut from: usize = 0;
    let mut to: usize = chars.len();
    proof {
        assert(text@.subrange(0, text@.len() as int) =~= text@);
    }
    while from < to && is_white_space(chars[to - 1])
        invariant
            from == 0,
            from <= to <= chars.len(),
            chars@ == text@,
            trim(text@) == trim(text@.subrange(from as int, to as int)),
        decreases to,
    {
        proof {
            let now = text@.subrange(from as int, to as int);
            assert(now.last() == text@[to - 1]);
            assert(now.drop_last() =~= text@.subrange(from as int, to - 1));
        }
        to = to - 1;
    }
    while from < to && is_white_space(chars[from])
        invariant
            from <= to <= chars.len(),
            chars@ == text@,
            from < to ==> !is_space(text@[to - 1]),
            trim(text@) == trim(text@.subrange(from as int, to as int)),
        decreases to - from,
    {
        proof {
            let now = text@.subrange(from as int, to as int);
            assert(now.last() == text@[to - 1]);
            assert(now[0] == text@[from as int]);
            assert(now.drop_first() =~= text@.subrange(from + 1, to as int));
        }
        from = from + 1;
    }
    proof {
        let now = text@.subrange(from as int, to as int);
        if from < to {
            assert(now.last() == text@[to - 1]);
            assert(now[0] == text@[from as int]);
        }
    }
    text_of(&chars, from, to)
}

/// Whether `a` comes before `b` in the order of their characters.
pub open spec fn text_before(a: Seq<char>, b: Seq<char>) -> bool
    decreases a.len(),
{
    if b.len() == 0 {
        false
    } else if a.len() == 0 {
        true
    } else {
        a[0] < b[0] || (a[0] == b[0] && text_before(a.drop_first(), b.drop_first()))
    }
}

/// No text comes before itself.
pub proof fn text_order_is_irreflexive(a: Seq<char>)
    ensures
        !text_before(a, a),
    decreases a.len(),
{
    if a.len() > 0 {
        text_order_is_irreflexive(a.drop_first());
    }
}

/// What comes before something comes before all that follows it.
pub proof fn text_order_is_transitive(a: Seq<char>, b: Seq<char>, c: Seq<char>)
    requires
        text_before(a, b),
        text_before(b, c),
    ensures
        text_before(a, c),
    decreases a.len(),
{
    if a.len() > 0 && a[0] == b[0] && b[0] == c[0] {
        text_order_is_transitive(a.drop_first(), b.drop_first(), c.drop_first());
    }
}

/// Of two different texts one comes before the other.
pub proof fn text_order_is_total(a: Seq<char>, b: Seq<char>)
    ensures
        a == b || text_before(a, b) || text_before(b, a),
    decreases a.len(),
{
    if a.len() > 0 && b.len() > 0 && a[0] == b[0] {
        text_order_is_total(a.drop_first(), b.drop_first());
        if a.drop_first() == b.drop_first() {
            assert(a =~= seq![a[0]] + a.drop_first());
            assert(b =~= seq![b[0]] + b.drop_first());
        }
    } else if a.len() == 0 && b.len() == 0 {
        assert(a =~= b);
    }
}

/// Whether `a` comes before `b` in the order of their characters.
pub fn comes_before(a: &str, b: &str) -> (before: bool)
    ensures
        before == text_before(a@, b@),
{
    let left = chars_of(a);
    let right = chars_of(b);
    let mut at: usize = 0;
    proof {
        assert(a@.skip(0) =~= a@);
        assert(b@.skip(0) =~= b@);
    }
    while at < left.len() && at < right.len()
        invariant
            at <= left.len(),
            at <= right.len(),
            left@ == a@,
            right@ == b@,
            text_before(a@, b@) == text_before(a@.skip(at as int), b@.skip(at as int)),
        decreases left.len() - at,
    {
        proof {
            assert(a@.skip(at as int)[0] == a@[at as int]);
            assert(b@.skip(at as int)[0] == b@[at as int]);
            assert(a@.skip(at as int).drop_first() =~= a@.skip(at + 1));
            assert(b@.skip(at as int).drop_first() =~= b@.skip(at + 1));
        }
        if left[at] < right[at] {
            return true;
        }
        if right[at] < left[at] {
            return false;
        }
        at = at + 1;
    }
    at < right.len()
}

/// Replaces the ASCII capital letters by the small ones.
pub fn lower_text(text: &str) -> (lower: String)
    ensures
        lower@ == ascii_lower_text(text@),
{
    let chars = chars_of(text);
    let mut lower = String::new();
    let mut at: usize = 0;
    while at < chars.len()
        invariant
            at <= chars.len(),
            chars@ == text@,
            lower@ == ascii_lower_text(text@.take(at as int)),
        decreases chars.len() - at,
    {
        lower.push(to_ascii_lower(chars[at]));
        proof {
            assert(ascii_lower_text(text@.take(at + 1)) =~= ascii_lower_text(
                text@.take(at as int),
            ).push(ascii_lower(text@[at as int])));
        }
        at = at + 1;
    }
    proof {
        assert(text@.take(at as int) =~= text@);
    }
    lower
}

/// Whether `part` stands in `text` at a place.
pub open spec fn stands_at(part: Seq<char>, text: Seq<char>, at: int) -> bool {
    0 <= at && at + part.len() <= text.len() && text.subrange(at, at + part.len()) == part
}

/// Whether `part` stands anywhere in `text`.
pub open spec fn occurs(part: Seq<char>, text: Seq<char>) -> bool {
    exists|at: int| #[trigger] stands_at(part, text, at)
}

/// Whether `part` stands anywhere in `text`.
pub fn text_contains(text: &str, part: &str) -> (yes: bool)
    ensures
        yes == occurs(part@, text@),
{
    let long = chars_of(text);
    let short = chars_of(part);
    if short.len() > long.len() {
        return false;
    }
    let mut at: usize = 0;
    while at <= long.len() - short.len()
        invariant
            at <= long.len() - short.len() + 1,
            short.len() <= long.len(),
            long@ == text@,
            short@ == part@,
            forall|i: int| 0 <= i < at ==> !#[trigger] stands_at(part@, text@, i),
        decreases long.len() - at,
    {
        let mut same: usize = 0;
        while same < short.len() && long[at + same] == short[same]
            invariant
                same <= short.len(),
                at + short.len() <= long.len(),
                forall|i: int| 0 <= i < same ==> long@[at + i] == short@[i],
            decreases short.len() - same,
        {
            same = same + 1;
        }
        if same == short.len() {
            proof {
                assert(text@.subrange(at as int, at + part@.len()) =~= part@);
                assert(stands_at(part@, text@, at as int));
            }
            return true;
        }
        proof {
            assert(text@.subrange(at as int, at + part@.len())[same as int] != part@[same as int]);
        }
        if at == long.len() {
            return false;
        }
        at = at + 1;
    }
    false
}

/// The hexadecimal digit `d`, as a capital letter from ten on.
pub open spec fn hex_char(d: int) -> char {
    if d < 10 {
        digit_char(d)
    } else if d == 10 {
        'A'
    } else if d == 11 {
        'B'
    } else if d == 12 {
        'C'
    } else if d == 13 {
        'D'
    } else if d == 14 {
        'E'
    } else {
        'F'
    }
}

/// `n` in hexadecimal, without leading zeros.
pub open spec fn hexadecimal(n: nat) -> Seq<char>
    decreases n,
{
    if n < 16 {
        seq![hex_char(n as int)]
    } else {
        hexadecimal(n / 16).push(hex_char((n % 16) as int))
    }
}

fn hex_digit(d: u64) -> (ch: char)
    requires
        d < 16,
    ensures
        ch == hex_char(d as int),
{
    if d < 10 {
        digit(d)
    } else {
        match d {
            10 => 'A',
            11 => 'B',
            12 => 'C',
            13 => 'D',
            14 => 'E',
            _ => 'F',
        }
    }
}

/// Appends `n` in hexadecimal.
pub fn push_hexadecimal(out: &mut String, n: u64)
    ensures
        final(out)@ == old(out)@ + hexadecimal(n as nat),
    decreases n,
{
    if n >= 16 {
        push_hexadecimal(out, n / 16);
    }
    out.push(hex_digit(n % 16));
}

/// Whether a text starts with another.
pub open spec fn starts_with(text: Seq<char>, start: Seq<char>) -> bool {
    start.len() <= text.len() && text.take(start.len() as int) == start
}

/// Whether a text starts with another.
pub fn text_starts_with(text: &str, start: &str) -> (yes: bool)
    ensures
        yes == starts_with(text@, start@),
{
    let long = chars_of(text);
    let short = chars_of(start);
    if short.len() > long.len() {
        return false;
    }
    let mut at: usize = 0;
    while at < short.len()
        invariant
            at <= short.len() <= long.len(),
            long@ == text@,
            short@ == start@,
            forall|i: int| 0 <= i < at ==> text@[i] == start@[i],
        decreases short.len() - at,
    {
        if long[at] != short[at] {
            proof {
                assert(text@.take(start@.len() as int)[at as int] != start@[at as int]);
            }
            return false;
        }
        at = at + 1;
    }
    proof {
        assert(text@.take(start@.len() as int) =~= start@);
    }
    true
}

/// The number that decimal digits stand for.
pub open spec fn number_read(digits: Seq<char>) -> int
    decreases digits.len(),
{
    if digits.len() == 0 {
        0
    } else {
        10 * number_read(digits.drop_last()) + (digits.last() as u32 - '0' as u32)
    }
}

/// Numbers are read back from their digits, so that no two are written the
/// same; nothing but digits is written, and no zero before others.
pub proof fn numbers_are_read_back(n: nat)
    ensures
        number_read(decimal(n)) == n,
        decimal(n).len() > 0,
        forall|i: int| 0 <= i < decimal(n).len() ==> '0' <= #[trigger] decimal(n)[i] <= '9',
        n > 0 ==> decimal(n)[0] != '0',
    decreases n,
{
    reveal_with_fuel(number_read, 2);
    if n >= 10 {
        numbers_are_read_back(n / 10);
        assert(decimal(n).drop_last() =~= decimal(n / 10));
        assert(decimal(n).last() == digit_char((n % 10) as int));
        assert(decimal(n)[0] == decimal(n / 10)[0]);
    } else {
        assert(decimal(n).drop_last() =~= Seq::<char>::empty());
    }
}

/// Two digits stand for the same number, and there are always at least two.
pub proof fn two_digits_are_read_back(n: nat)
    ensures
        number_read(decimal2(n)) == n,
        decimal2(n).len() >= 2,
        n < 100 ==> decimal2(n).len() == 2,
        n >= 10 ==> decimal2(n) == decimal(n),
{
    reveal_with_fuel(number_read, 3);
    numbers_are_read_back(n);
    if n < 10 {
        assert(decimal2(n).drop_last() =~= seq!['0']);
        assert(seq!['0'].drop_last() =~= Seq::<char>::empty());
    } else {
        assert(decimal(n) == decimal(n / 10).push(digit_char((n % 10) as int)));
        numbers_are_read_back(n / 10);
        if n < 100 {
            assert(decimal(n / 10).len() == 1);
        }
    }
}

/// A number below zero is written as its opposite after a sign, and any other
/// without one.
pub proof fn signs_are_written_below_zero(n: int)
    ensures
        n >= 0 ==> number_read(signed_decimal(n)) == n && signed_decimal(n)[0] != '-',
        n < 0 ==> signed_decimal(n)[0] == '-' && number_read(signed_decimal(n).skip(1)) == -n,
{
    reveal_strlit("-");
    if n < 0 {
        numbers_are_read_back((-n) as nat);
        assert(signed_decimal(n).skip(1) =~= decimal((-n) as nat));
        assert(signed_decimal(n)[0] == "-"@[0]);
    } else {
        numbers_are_read_back(n as nat);
        assert('0' <= decimal(n as nat)[0]);
    }
}

/// The number that hexadecimal digits stand for.
pub open spec fn hexadecimal_read(digits: Seq<char>) -> int
    decreases digits.len(),
{
    if digits.len() == 0 {
        0
    } else {
        16 * hexadecimal_read(digits.drop_last()) + if digits.last() <= '9' {
            digits.last() as u32 - '0' as u32
        } else {
            10 + (digits.last() as u32 - 'A' as u32)
        }
    }
}

/// Numbers are read back from their hexadecimal digits.
pub proof fn hexadecimals_are_read_back(n: nat)
    ensures
        hexadecimal_read(hexadecimal(n)) == n,
        hexadecimal(n).len() > 0,
    decreases n,
{
    reveal_with_fuel(hexadecimal_read, 2);
    if n >= 16 {
        hexadecimals_are_read_back(n / 16);
        assert(hexadecimal(n).drop_last() =~= hexadecimal(n / 16));
        assert(hexadecimal(n).last() == hex_char((n % 16) as int));
    } else {
        assert(hexadecimal(n).drop_last() =~= Seq::<char>::empty());
    }
}

/// A capital letter becomes the small one in its place in the alphabet; every
/// other character stays, and small letters do.
pub proof fn capitals_become_small(ch: char)
    ensures
        'A' <= ch <= 'Z' ==> 'a' <= ascii_lower(ch) <= 'z' && ascii_lower(ch) as u32 - 'a' as u32
            == ch as u32 - 'A' as u32,
        !('A' <= ch <= 'Z') ==> ascii_lower(ch) == ch,
        ascii_lower(ascii_lower(ch)) == ascii_lower(ch),
{
    if 'A' <= ch <= 'Z' {
        let code: u8 = ch as u8;
        assert(65 <= code <= 90);
        assert(ascii_lower(ch) as u32 == code + 32);
    }
}

/// Texts are compared place by place, and writing letters small makes no
/// difference to it.
pub proof fn case_makes_no_difference(a: Seq<char>, b: Seq<char>, i: int)
    requires
        same_ignoring_case(a, b),
    ensures
        a.len() == b.len(),
        0 <= i < a.len() ==> ascii_lower(a[i]) == ascii_lower(b[i]),
        same_ignoring_case(b, a),
        same_ignoring_case(ascii_lower_text(a), b),
        ascii_lower_text(ascii_lower_text(a)) == ascii_lower_text(a),
{
    assert(ascii_lower_text(a).len() == a.len() && ascii_lower_text(b).len() == b.len());
    if 0 <= i < a.len() {
        assert(ascii_lower_text(a)[i] == ascii_lower(a[i]));
        assert(ascii_lower_text(b)[i] == ascii_lower(b[i]));
    }
    assert forall|j: int| 0 <= j < a.len() implies ascii_lower(#[trigger] ascii_lower_text(a)[j])
        == ascii_lower_text(a)[j] by {
        capitals_become_small(a[j]);
    }
    assert(ascii_lower_text(ascii_lower_text(a)) =~= ascii_lower_text(a));
}

/// Texts that differ at a place in more than case are different.
pub proof fn other_characters_make_a_difference(a: Seq<char>, b: Seq<char>, i: int)
    requires
        0 <= i < a.len(),
        i < b.len(),
        ascii_lower(a[i]) != ascii_lower(b[i]),
    ensures
        !same_ignoring_case(a, b),
{
    assert(ascii_lower_text(a)[i] == ascii_lower(a[i]));
    assert(ascii_lower_text(b)[i] == ascii_lower(b[i]));
}

/// Of the ASCII characters the blank, the tabs and the ends of lines are white
/// space, and nothing that is printed or deleted; no letter of another script
/// is, and nothing above the ideographic space.
pub proof fn white_space_leaves_no_mark(ch: char)
    ensures
        (ch as u32) < 0x80 ==> (is_space(ch) <==> (ch == ' ' || ch == '\t' || ch == '\n' || ch
            == '\r' || ch as u32 == 0x0b || ch as u32 == 0x0c)),
        0xa1 <= ch as u32 && (ch as u32) < 0x1680 ==> !is_space(ch),
        0x200b <= ch as u32 <= 0x2027 ==> !is_space(ch),
        ch as u32 > 0x3000 ==> !is_space(ch),
        ch as u32 == 0xa0 || ch as u32 == 0x3000 || ch as u32 == 0x2028 || ch as u32 == 0x2029
            ==> is_space(ch),
{
}

/// What is left of a text without the white space at its ends is a part of the
/// text that does not begin or end in white space, and all that is taken off is
/// white space.
pub proof fn trimming_takes_white_space_off(text: Seq<char>) -> (ends: (int, int))
    ensures
        0 <= ends.0 <= ends.1 <= text.len(),
        trim(text) == text.subrange(ends.0, ends.1),
        forall|i: int| 0 <= i < ends.0 ==> is_space(#[trigger] text[i]),
        forall|i: int| ends.1 <= i < text.len() ==> is_space(#[trigger] text[i]),
        trim(text).len() > 0 ==> !is_space(trim(text)[0]) && !is_space(trim(text).last()),
    decreases text.len(),
{
    if text.len() == 0 {
        assert(text.subrange(0, 0) =~= text);
        (0, 0)
    } else if is_space(text.last()) {
        let front = text.drop_last();
        let ends = trimming_takes_white_space_off(front);
        assert(front.subrange(ends.0, ends.1) =~= text.subrange(ends.0, ends.1));
        assert forall|i: int| 0 <= i < ends.0 implies is_space(#[trigger] text[i]) by {
            assert(front[i] == text[i]);
        }
        assert forall|i: int| ends.1 <= i < text.len() implies is_space(#[trigger] text[i]) by {
            if i < front.len() {
                assert(front[i] == text[i]);
            }
        }
        ends
    } else if is_space(text[0]) {
        let back = text.drop_first();
        let ends = trimming_takes_white_space_off(back);
        assert(back.subrange(ends.0, ends.1) =~= text.subrange(ends.0 + 1, ends.1 + 1));
        assert forall|i: int| 0 <= i < ends.0 + 1 implies is_space(#[trigger] text[i]) by {
            if i > 0 {
                assert(back[i - 1] == text[i]);
            }
        }
        assert forall|i: int| ends.1 + 1 <= i < text.len() implies is_space(
            #[trigger] text[i],
        ) by {
            assert(back[i - 1] == text[i]);
        }
        (ends.0 + 1, ends.1 + 1)
    } else {
        assert(text.subrange(0, text.len() as int) =~= text);
        (0, text.len() as int)
    }
}

/// Whether a text is as it is to be: words with one blank between them.
pub open spec fn is_compact(text: Seq<char>) -> bool {
    &&& text.len() > 0 ==> !is_space(text[0]) && !is_space(text.last())
    &&& forall|i: int| 0 <= i < text.len() && is_space(#[trigger] text[i]) ==> text[i] == ' '
    &&& forall|i: int|
        0 < i < text.len() && is_space(#[trigger] text[i]) ==> !is_space(text[i - 1])
}

/// The characters of a text that are not white space.
pub open spec fn marks(text: Seq<char>) -> Seq<char>
    decreases text.len(),
{
    if text.len() == 0 {
        Seq::empty()
    } else if is_space(text.last()) {
        marks(text.drop_last())
    } else {
        marks(text.drop_last()).push(text.last())
    }
}

/// A text is made compact: its words stay, in their order, with one blank
/// between two of them.
pub proof fn texts_become_compact(text: Seq<char>)
    ensures
        is_compact(compact(text)),
        marks(compact(text)) == marks(text),
        compact(text).len() > 0 && text.len() > 0 && !is_space(text.last()) ==> compact(text).last()
            == text.last(),
    decreases text.len(),
{
    reveal_with_fuel(marks, 3);
    if text.len() > 0 {
        let before = text.drop_last();
        let done = compact(before);
        texts_become_compact(before);
        assert(is_space(' '));
        if is_space(text.last()) {
        } else if done.len() > 0 && is_space(before.last()) {
            let spaced = done.push(' ');
            let whole = spaced.push(text.last());
            assert(whole.drop_last() =~= spaced);
            assert(spaced.drop_last() =~= done);
            assert(whole[0] == done[0]);
            assert forall|i: int| 0 <= i < whole.len() && is_space(#[trigger] whole[i]) implies
                whole[i] == ' ' by {
                if i < done.len() {
                    assert(whole[i] == done[i]);
                }
            }
            assert forall|i: int| 0 < i < whole.len() && is_space(#[trigger] whole[i]) implies
                !is_space(whole[i - 1]) by {
                if i < done.len() {
                    assert(whole[i] == done[i] && whole[i - 1] == done[i - 1]);
                } else {
                    assert(whole[i - 1] == done.last());
                }
            }
        } else {
            let whole = done.push(text.last());
            assert(whole.drop_last() =~= done);
            if done.len() > 0 {
                assert(whole[0] == done[0]);
            }
            assert forall|i: int| 0 <= i < whole.len() && is_space(#[trigger] whole[i]) implies
                whole[i] == ' ' by {
                assert(whole[i] == done[i]);
            }
            assert forall|i: int| 0 < i < whole.len() && is_space(#[trigger] whole[i]) implies
                !is_space(whole[i - 1]) by {
                assert(whole[i] == done[i] && whole[i - 1] == done[i - 1]);
            }
        }
    }
}

/// A text that is compact stays as it is.
pub proof fn compact_texts_stay(text: Seq<char>)
    requires
        is_compact(text),
    ensures
        compact(text) == text,
{
    if text.len() > 0 {
        compact_beginnings_stay(text, text.len() as int);
        assert(text.take(text.len() as int) =~= text);
    }
}

proof fn compact_beginnings_stay(text: Seq<char>, n: int)
    requires
        is_compact(text),
        0 < n <= text.len(),
    ensures
        !is_space(text[n - 1]) ==> compact(text.take(n)) == text.take(n),
        is_space(text[n - 1]) ==> compact(text.take(n)) == text.take(n - 1),
    decreases n,
{
    reveal_with_fuel(compact, 2);
    let now = text.take(n);
    assert(now.drop_last() =~= text.take(n - 1));
    assert(now.last() == text[n - 1]);
    if n == 1 {
        assert(text.take(0) =~= Seq::<char>::empty());
        assert(now =~= Seq::<char>::empty().push(text[0]));
    } else {
        compact_beginnings_stay(text, n - 1);
        assert(text.take(n - 1).last() == text[n - 2]);
        if !is_space(text[n - 1]) {
            if is_space(text[n - 2]) {
                assert(n >= 3);
                assert(text[n - 2] == ' ');
                assert(text.take(n - 2).push(' ').push(text[n - 1]) =~= now);
            } else {
                assert(text.take(n - 1).push(text[n - 1]) =~= now);
            }
        }
    }
}

/// Texts are ordered by the first character in which they differ; a text comes
/// before what continues it.
pub proof fn the_first_difference_orders(
    common: Seq<char>,
    x: char,
    y: char,
    a: Seq<char>,
    b: Seq<char>,
)
    ensures
        x != y ==> (text_before(common + seq![x] + a, common + seq![y] + b) <==> x < y),
        text_before(common, common + seq![x] + a),
    decreases common.len(),
{
    let one = common + seq![x] + a;
    let other = common + seq![y] + b;
    if common.len() > 0 {
        let rest = common.drop_first();
        the_first_difference_orders(rest, x, y, a, b);
        assert(one.drop_first() =~= rest + seq![x] + a);
        assert(other.drop_first() =~= rest + seq![y] + b);
        assert(one[0] == common[0] && other[0] == common[0]);
    } else {
        assert(one[0] == x && other[0] == y);
    }
}

/// A part occurs in what it is put into, wherever that is.
pub proof fn parts_occur_in_the_whole(before: Seq<char>, part: Seq<char>, after: Seq<char>)
    ensures
        occurs(part, before + part + after),
        starts_with(part + after, part),
        stands_at(part, before + part + after, before.len() as int),
{
    let whole = before + part + after;
    assert(whole.subrange(before.len() as int, (before.len() + part.len()) as int) =~= part);
    assert(stands_at(part, whole, before.len() as int));
    assert((part + after).take(part.len() as int) =~= part);
}

/// What a text starts with, or has in it, can be taken out of it.
pub proof fn found_parts_make_the_whole(part: Seq<char>, text: Seq<char>, at: int)
    ensures
        starts_with(text, part) ==> part + text.skip(part.len() as int) == text,
        stands_at(part, text, at) ==> text.take(at) + part + text.skip(at + part.len()) == text,
{
    if starts_with(text, part) {
        assert(part + text.skip(part.len() as int) =~= text);
    }
    if stands_at(part, text, at) {
        assert forall|i: int| 0 <= i < part.len() implies text[at + i] == #[trigger] part[i] by {
            assert(text.subrange(at, at + part.len())[i] == part[i]);
        }
        assert(text.take(at) + part + text.skip(at + part.len()) =~= text);
    }
}

} // verus!
