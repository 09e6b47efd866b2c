//! Text helpers: comparison, search, trimming, and number formatting.
use vstd::prelude::*;

verus! {

/// Whether two string slices hold the same characters.
pub(crate) fn same_text(left: &str, right: &str) -> (result: bool)
    ensures
        result == (left@ == right@),
{
    left.to_owned() == right.to_owned()
}

/// What an optional string slice holds.
pub open spec fn shown(text: Option<&str>) -> Option<Seq<char>> {
    match text {
        Some(text) => Some(text@),
        None => None,
    }
}

/// What an optional string holds.
pub open spec fn held(text: Option<String>) -> Option<Seq<char>> {
    match text {
        Some(text) => Some(text@),
        None => None,
    }
}

/// An optional string as an optional slice.
pub fn as_text(text: &Option<String>) -> (result: Option<&str>)
    ensures
        shown(result) == held(*text),
{
    match text {
        Some(text) => Some(text.as_str()),
        None => None,
    }
}

/// A copy of an optional slice.
pub fn to_text(text: Option<&str>) -> (result: Option<String>)
    ensures
        held(result) == shown(text),
{
    match text {
        Some(text) => Some(text.to_owned()),
        None => None,
    }
}

/// Whether an optional string holds exactly `text`.
pub fn holds(left: &Option<String>, text: &str) -> (result: bool)
    ensures
        result == (held(*left) == Some(text@)),
{
    match left {
        Some(left) => same_text(left.as_str(), text),
        None => false,
    }
}

/// The first of two optional slices that is there.
pub fn or_else<'a>(first: Option<&'a str>, second: Option<&'a str>) -> (result: Option<&'a str>)
    ensures
        result == (if first is Some {
            first
        } else {
            second
        }),
{
    match first {
        Some(text) => Some(text),
        None => second,
    }
}

/// The characters of a string slice.
pub fn characters_of(text: &str) -> (result: Vec<char>)
    ensures
        result@ == text@,
{
    let mut result: Vec<char> = Vec::new();
    for c in iter: text.chars()
        invariant
            iter.seq() == text@,
            result@ == text@.take(iter.index()),
    {
        result.push(c);
    }
    result
}

/// Whether `part` stands in `whole` from position `at` on.
pub open spec fn occurs_at(whole: Seq<char>, part: Seq<char>, at: int) -> bool {
    0 <= at && at + part.len() <= whole.len() && whole.subrange(at, at + part.len()) == part
}

/// Whether `part` stands somewhere in `whole`.
pub open spec fn occurs_in(whole: Seq<char>, part: Seq<char>) -> bool {
    exists|at: int| #[trigger] occurs_at(whole, part, at)
}

fn matches_at(whole: &Vec<char>, part: &Vec<char>, at: usize) -> (result: bool)
    requires
        at <= whole.len(),
    ensures
        result == occurs_at(whole@, part@, at as int),
{
    if part.len() > whole.len() - at {
        return false;
    }
    let mut i: usize = 0;
    while i < part.len()
        invariant
            i <= part.len(),
            part.len() <= whole.len() - at,
            forall|k: int| 0 <= k < i ==> whole@[at + k] == #[trigger] part@[k],
        decreases part.len() - i,
    {
        if whole[at + i] != part[i] {
            assert(whole@.subrange(at as int, at + part@.len())[i as int] != part@[i as int]);
            return false;
        }
        i = i + 1;
    }
    assert(whole@.subrange(at as int, at + part@.len()) =~= part@);
    true
}

/// Whether `text` begins with `prefix`.
pub fn starts_with(text: &str, prefix: &str) -> (result: bool)
    ensures
        result == occurs_at(text@, prefix@, 0),
{
    matches_at(&characters_of(text), &characters_of(prefix), 0)
}

/// What follows `prefix` in `text`, if `text` begins with it.
pub fn strip_prefix<'a>(text: &'a str, prefix: &str) -> (result: Option<&'a str>)
    ensures
        result is Some <==> occurs_at(text@, prefix@, 0),
        result matches Some(rest) ==> text@ == prefix@ + rest@,
{
    let whole: Vec<char> = characters_of(text);
    let part: Vec<char> = characters_of(prefix);
    if matches_at(&whole, &part, 0) {
        let rest = text.substring_char(part.len(), whole.len());
        assert(text@ =~= prefix@ + rest@) by {
            assert(text@.subrange(0, prefix@.len() as int) == prefix@);
            assert(text@ =~= text@.subrange(0, prefix@.len() as int) + text@.subrange(
                prefix@.len() as int,
                text@.len() as int,
            ));
        }
        Some(rest)
    } else {
        None
    }
}

/// Whether `part` stands somewhere in `text`.
pub fn contains(text: &str, part: &str) -> (result: bool)
    ensures
        result == occurs_in(text@, part@),
{
    let whole: Vec<char> = characters_of(text);
    let wanted: Vec<char> = characters_of(part);
    let mut at: usize = 0;
    while at < whole.len()
        invariant
            at <= whole.len(),
            whole@ == text@,
            wanted@ == part@,
            forall|k: int| 0 <= k < at ==> !#[trigger] occurs_at(whole@, wanted@, k),
        decreases whole.len() - at,
    {
        if matches_at(&whole, &wanted, at) {
            return true;
        }
        at = at + 1;
    }
    matches_at(&whole, &wanted, at)
}

/// The characters with Unicode's White_Space property.
pub open spec fn white_space(c: char) -> bool {
    ||| '\u{9}' <= c <= '\u{d}'
    ||| c == '\u{20}'
    ||| c == '\u{85}'
    ||| c == '\u{a0}'
    ||| c == '\u{1680}'
    ||| '\u{2000}' <= c <= '\u{200a}'
    ||| c == '\u{2028}'
    ||| c == '\u{2029}'
    ||| c == '\u{202f}'
    ||| c == '\u{205f}'
    ||| c == '\u{3000}'
}

fn is_white_space(c: char) -> (result: bool)
    ensures
        result == white_space(c),
{
    ('\u{9}' <= c && c <= '\u{d}') || c == '\u{20}' || c == '\u{85}' || c == '\u{a0}' || c
        == '\u{1680}' || ('\u{2000}' <= c && c <= '\u{200a}') || c == '\u{2028}' || c == '\u{2029}'
        || c == '\u{202f}' || c == '\u{205f}' || c == '\u{3000}'
}

/// Whether a text holds nothing but white space.
pub open spec fn blank(text: Seq<char>) -> bool {
    forall|k: int| 0 <= k < text.len() ==> white_space(#[trigger] text[k])
}

/// Whether `inner` is `text` without the white space at both ends.
pub open spec fn trims_to(text: Seq<char>, inner: Seq<char>) -> bool {
    exists|from: int, to: int| #[trigger] trimmed_between(text, inner, from, to)
}

/// `inner` is `text` from `from` to `to`, what lies outside is blank, and
/// `inner` neither begins nor ends with white space.
pub open spec fn trimmed_between(text: Seq<char>, inner: Seq<char>, from: int, to: int) -> bool {
    &&& 0 <= from <= to <= text.len()
    &&& inner == text.subrange(from, to)
    &&& blank(text.subrange(0, from))
    &&& blank(text.subrange(to, text.len() as int))
    &&& inner.len() > 0 ==> !white_space(inner[0]) && !white_space(inner.last())
}

pub fn is_blank(text: &str) -> (result: bool)
    ensures
        result == blank(text@),
{
    let whole: Vec<char> = characters_of(text);
    let mut at: usize = 0;
    while at < whole.len()
        invariant
            at <= whole.len(),
            whole@ == text@,
            forall|k: int| 0 <= k < at ==> white_space(#[trigger] whole@[k]),
        decreases whole.len() - at,
    {
        if !is_white_space(whole[at]) {
            return false;
        }
        at = at + 1;
    }
    true
}

/// The text without white space at either end.
pub fn trim<'a>(text: &'a str) -> (result: &'a str)
    ensures
        trims_to(text@, result@),
        result@ == trimmed(text@),
        result@.len() == 0 <==> blank(text@),
{
    let whole: Vec<char> = characters_of(text);
    let mut from: usize = 0;
    while from < whole.len() && is_white_space(whole[from])
        invariant
            from <= whole.len(),
            forall|k: int| 0 <= k < from ==> white_space(#[trigger] whole@[k]),
        decreases whole.len() - from,
    {
        from = from + 1;
    }
    let mut to: usize = whole.len();
    while to > from && is_white_space(whole[to - 1])
        invariant
            from <= to <= whole.len(),
            from < whole.len() ==> !white_space(whole@[from as int]),
            forall|k: int| to <= k < whole.len() ==> white_space(#[trigger] whole@[k]),
        decreases to,
    {
        to = to - 1;
    }
    let result = text.substring_char(from, to);
    proof {
        assert(trimmed_between(text@, result@, from as int, to as int));
        assert(trims_to(text@, result@));
        trimming_is_unique(text@, result@, trimmed(text@));
        if result@.len() > 0 {
            assert(!white_space(text@[from as int]));
        } else {
            assert forall|k: int| 0 <= k < text@.len() implies white_space(#[trigger] text@[k]) by {
                if k >= to {
                    assert(white_space(whole@[k]));
                }
            }
        }
    }
    result
}

/// A text without white space at either end.
pub open spec fn trimmed(text: Seq<char>) -> Seq<char> {
    choose|inner: Seq<char>| trims_to(text, inner)
}

/// Trimming has one outcome.
pub proof fn trimming_is_unique(text: Seq<char>, left: Seq<char>, right: Seq<char>)
    requires
        trims_to(text, left),
        trims_to(text, right),
    ensures
        left == right,
{
    let (a, b) = choose|from: int, to: int| #[trigger] trimmed_between(text, left, from, to);
    let (c, d) = choose|from: int, to: int| #[trigger] trimmed_between(text, right, from, to);
    if left.len() == 0 {
        assert forall|k: int| 0 <= k < text.len() implies white_space(#[trigger] text[k]) by {
            if k < a {
                assert(text.subrange(0, a)[k] == text[k]);
            } else {
                assert(text.subrange(b, text.len() as int)[k - b] == text[k]);
            }
        }
        if right.len() > 0 {
            assert(right[0] == text[c]);
        }
        assert(left =~= right);
    } else {
        assert(left[0] == text[a] && left.last() == text[b - 1]);
        if right.len() == 0 {
            if a < c {
                assert(text.subrange(0, c)[a] == text[a]);
            } else {
                assert(text.subrange(d, text.len() as int)[a - d] == text[a]);
            }
        } else {
            assert(right[0] == text[c] && right.last() == text[d - 1]);
            if a < c {
                assert(text.subrange(0, c)[a] == text[a]);
            }
            if c < a {
                assert(text.subrange(0, a)[c] == text[c]);
            }
            if b < d {
                assert(text.subrange(b, text.len() as int)[d - 1 - b] == text[d - 1]);
            }
            if d < b {
                assert(text.subrange(d, text.len() as int)[b - 1 - d] == text[b - 1]);
            }
        }
    }
}

/// Lexicographic order by code point.
pub open spec fn ordered_before(left: Seq<char>, right: Seq<char>) -> bool
    decreases left.len(),
{
    if right.len() == 0 {
        false
    } else if left.len() == 0 {
        true
    } else if left[0] != right[0] {
        left[0] < right[0]
    } else {
        ordered_before(left.skip(1), right.skip(1))
    }
}

/// Of two different texts, one stands before the other.
pub proof fn order_is_total(left: Seq<char>, right: Seq<char>)
    ensures
        left == right || ordered_before(left, right) || ordered_before(right, left),
    decreases left.len(),
{
    if left.len() > 0 && right.len() > 0 && left[0] == right[0] {
        order_is_total(left.skip(1), right.skip(1));
        if left.skip(1) == right.skip(1) {
            assert(left =~= seq![left[0]] + left.skip(1));
            assert(right =~= seq![right[0]] + right.skip(1));
        }
    } else if left.len() == 0 && right.len() == 0 {
        assert(left =~= right);
    }
}

/// The order of texts is transitive.
pub proof fn order_is_transitive(first: Seq<char>, second: Seq<char>, third: Seq<char>)
    requires
        ordered_before(first, second),
        ordered_before(second, third),
    ensures
        ordered_before(first, third),
    decreases first.len(),
{
    if first.len() > 0 && first[0] == second[0] && second[0] == third[0] {
        order_is_transitive(first.skip(1), second.skip(1), third.skip(1));
    }
}

/// Whether `left` stands strictly before `right` in code-point order.
pub fn is_ordered_before(left: &str, right: &str) -> (result: bool)
    ensures
        result == ordered_before(left@, right@),
{
    let a: Vec<char> = characters_of(left);
    let b: Vec<char> = characters_of(right);
    let mut i: usize = 0;
    assert(a@.skip(0) =~= a@ && b@.skip(0) =~= b@);
    while i < a.len() && i < b.len() && a[i] == b[i]
        invariant
            i <= a.len(),
            i <= b.len(),
            ordered_before(a@, b@) == ordered_before(a@.skip(i as int), b@.skip(i as int)),
        decreases a.len() - i,
    {
        assert(a@.skip(i as int).skip(1) =~= a@.skip(i + 1));
        assert(b@.skip(i as int).skip(1) =~= b@.skip(i + 1));
        assert(a@.skip(i as int)[0] == b@.skip(i as int)[0]);
        i = i + 1;
    }
    if i >= b.len() {
        false
    } else if i >= a.len() {
        true
    } else {
        assert(a@.skip(i as int)[0] == a@[i as int] && b@.skip(i as int)[0] == b@[i as int]);
        a[i] < b[i]
    }
}

/// The decimal digits of a number, most significant first, without padding.
pub open spec fn decimal(n: nat) -> Seq<char>
    decreases n,
{
    if n < 10 {
        seq![digit(n)]
    } else {
        decimal(n / 10).push(digit(n % 10))
    }
}

/// The digit characters `0`-`9`, then `a`-`f`.
pub open spec fn digit(d: nat) -> char {
    if d < 10 {
        ('0' as int + d) as char
    } else {
        ('a' as int + (d - 10)) as char
    }
}

fn digit_text(d: u64) -> (result: &'static str)
    requires
        d < 16,
    ensures
        result@ == seq![digit(d as nat)],
{
    proof {
        reveal_strlit("0");
        reveal_strlit("1");
        reveal_strlit("2");
        reveal_strlit("3");
        reveal_strlit("4");
        reveal_strlit("5");
        reveal_strlit("6");
        reveal_strlit("7");
        reveal_strlit("8");
        reveal_strlit("9");
        reveal_strlit("a");
        reveal_strlit("b");
        reveal_strlit("c");
        reveal_strlit("d");
        reveal_strlit("e");
        reveal_strlit("f");
    }
    match d {
        0 => "0",
        1 => "1",
        2 => "2",
        3 => "3",
        4 => "4",
        5 => "5",
        6 => "6",
        7 => "7",
        8 => "8",
        9 => "9",
        10 => "a",
        11 => "b",
        12 => "c",
        13 => "d",
        14 => "e",
        _ => "f",
    }
}

/// A number in decimal.
pub fn decimal_text(n: u64) -> (result: String)
    ensures
        result@ == decimal(n as nat),
    decreases n,
{
    if n < 10 {
        digit_text(n).to_owned()
    } else {
        let mut result: String = decimal_text(n / 10);
        result.append(digit_text(n % 10));
        result
    }
}

/// The `width` lowest hexadecimal digits of a number, zero-padded.
pub open spec fn hexadecimal(n: nat, width: nat) -> Seq<char>
    decreases width,
{
    if width == 0 {
        Seq::empty()
    } else {
        hexadecimal(n / 16, (width - 1) as nat).push(digit(n % 16))
    }
}

/// A number in sixteen lower-case hexadecimal digits.
pub fn hexadecimal_text(n: u64) -> (result: String)
    ensures
        result@ == hexadecimal(n as nat, 16),
{
    hexadecimal_digits(n, 16)
}

fn hexadecimal_digits(n: u64, width: u32) -> (result: String)
    ensures
        result@ == hexadecimal(n as nat, width as nat),
    decreases width,
{
    if width == 0 {
        String::new()
    } else {
        let mut result: String = hexadecimal_digits(n / 16, width - 1);
        result.append(digit_text(n % 16));
        result
    }
}

/// The value of a hexadecimal digit of either case.
pub open spec fn digit_value(c: char) -> Option<nat> {
    if '0' <= c <= '9' {
        Some((c as int - '0' as int) as nat)
    } else if 'a' <= c <= 'f' {
        Some((c as int - 'a' as int + 10) as nat)
    } else if 'A' <= c <= 'F' {
        Some((c as int - 'A' as int + 10) as nat)
    } else {
        None
    }
}

/// The number that a sequence of hexadecimal digits writes, if all of them
/// are digits.
pub open spec fn hexadecimal_value(digits: Seq<char>) -> Option<nat>
    decreases digits.len(),
{
    if digits.len() == 0 {
        Some(0)
    } else {
        match (hexadecimal_value(digits.drop_last()), digit_value(digits.last())) {
            (Some(high), Some(low)) => Some(high * 16 + low),
            _ => None,
        }
    }
}

/// What a text in base sixteen stands for: an optional plus sign, then at
/// least one digit, within 64 bits.
pub open spec fn parsed_hexadecimal(text: Seq<char>) -> Option<u64> {
    let digits = if text.len() > 0 && text[0] == '+' {
        text.skip(1)
    } else {
        text
    };
    if digits.len() == 0 {
        None
    } else {
        match hexadecimal_value(digits) {
            Some(value) => if value <= u64::MAX {
                Some(value as u64)
            } else {
                None
            },
            None => None,
        }
    }
}

fn value_of_digit(c: char) -> (result: Option<u64>)
    ensures
        result is Some <==> digit_value(c) is Some,
        result matches Some(value) ==> value == digit_value(c)->0 && value < 16,
{
    if '0' <= c && c <= '9' {
        Some(c as u64 - '0' as u64)
    } else if 'a' <= c && c <= 'f' {
        Some(c as u64 - 'a' as u64 + 10)
    } else if 'A' <= c && c <= 'F' {
        Some(c as u64 - 'A' as u64 + 10)
    } else {
        None
    }
}

proof fn hexadecimal_value_grows(digits: Seq<char>, shorter: int)
    requires
        0 <= shorter <= digits.len(),
        hexadecimal_value(digits) is Some,
    ensures
        hexadecimal_value(digits.take(shorter)) is Some,
        hexadecimal_value(digits.take(shorter))->0 <= hexadecimal_value(digits)->0,
    decreases digits.len(),
{
    if shorter == digits.len() {
        assert(digits.take(shorter) =~= digits);
    } else {
        hexadecimal_value_grows(digits.drop_last(), shorter);
        assert(digits.drop_last().take(shorter) =~= digits.take(shorter));
    }
}

/// Parses a text in base sixteen.
pub fn parse_hexadecimal(text: &str) -> (result: Option<u64>)
    ensures
        result == parsed_hexadecimal(text@),
{
    let whole: Vec<char> = characters_of(text);
    let start: usize = if whole.len() > 0 && whole[0] == '+' {
        1
    } else {
        0
    };
    let ghost digits = text@.skip(start as int);
    assert(start == 0 ==> digits =~= text@);
    if whole.len() == start {
        return None;
    }
    let mut value: u64 = 0;
    let mut i: usize = start;
    while i < whole.len()
        invariant
            start <= i <= whole.len(),
            whole@ == text@,
            digits == text@.skip(start as int),
            digits.len() > 0,
            start == (if text@.len() > 0 && text@[0] == '+' { 1int } else { 0int }),
            start == 0 ==> digits == text@,
            hexadecimal_value(digits.take(i - start)) == Some(value as nat),
        decreases whole.len() - i,
    {
        let ghost so_far = digits.take(i - start);
        let ghost next = digits.take(i + 1 - start);
        assert(next.drop_last() =~= so_far && next.last() == whole@[i as int]);
        match value_of_digit(whole[i]) {
            None => {
                proof {
                    if hexadecimal_value(digits) is Some {
                        hexadecimal_value_grows(digits, i + 1 - start);
                    }
                }
                return None;
            },
            Some(low) => {
                if value > (u64::MAX - low) / 16 {
                    proof {
                        if hexadecimal_value(digits) is Some {
                            hexadecimal_value_grows(digits, i + 1 - start);
                        }
                    }
                    return None;
                }
                value = value * 16 + low;
                i = i + 1;
            },
        }
    }
    assert(digits.take(i - start) =~= digits);
    Some(value)
}

/// Distinct numbers have distinct decimal texts.
pub proof fn decimal_is_injective(left: nat, right: nat)
    requires
        decimal(left) == decimal(right),
    ensures
        left == right,
    decreases left,
{
    assert(decimal(left).last() == digit(left % 10));
    assert(decimal(right).last() == digit(right % 10));
    if left < 10 && right < 10 {
    } else if left < 10 {
        assert(decimal(right / 10).len() >= 1) by {
            decimal_is_not_empty(right / 10);
        }
    } else if right < 10 {
        assert(decimal(left / 10).len() >= 1) by {
            decimal_is_not_empty(left / 10);
        }
    } else {
        assert(decimal(left).drop_last() =~= decimal(left / 10));
        assert(decimal(right).drop_last() =~= decimal(right / 10));
        decimal_is_injective(left / 10, right / 10);
    }
}

proof fn decimal_is_not_empty(n: nat)
    ensures
        decimal(n).len() >= 1,
    decreases n,
{
    if n >= 10 {
        decimal_is_not_empty(n / 10);
    }
}

} // verus!
