//! Text as the rest of the library handles it: reading the characters of a
//! string, comparing strings, writing numbers, and telling text from bytes
//! that are none.

use vstd::prelude::*;
use vstd::utf8::*;

verus! {

/// The digit of value `value`, in lower case or in upper case.
pub open spec fn digit(value: nat, upper: bool) -> char {
    if value < 10 {
        ('0' as u32 + value) as char
    } else if upper {
        ('A' as u32 + value - 10) as char
    } else {
        ('a' as u32 + value - 10) as char
    }
}

/// `number` written in base `radix`, with zeros before it where it has fewer
/// than `width` digits.
pub open spec fn numeral(number: nat, radix: nat, upper: bool, width: nat) -> Seq<char>
    decreases number, width,
{
    if radix < 2 || (number < radix && width <= 1) {
        seq![digit(number, upper)]
    } else {
        let rest: nat = number / radix;
        let narrower: nat = if width == 0 {
            0
        } else {
            (width - 1) as nat
        };
        proof {
            assert(rest <= number && (number > 0 ==> rest < number)) by (nonlinear_arith)
                requires
                    radix >= 2,
                    rest == number / radix,
            ;
        }
        numeral(rest, radix, upper, narrower).push(digit(number % radix, upper))
    }
}

/// `number` in decimal.
pub open spec fn decimal(number: nat) -> Seq<char> {
    numeral(number, 10, false, 1)
}

/// One digit as text.
fn digit_text(value: u64, upper: bool) -> (text: String)
    requires
        value < 16,
    ensures
        text@ == seq![digit(value as nat, upper)],
{
    let shown: &str = match value {
        0 => "0",
        1 => "1",
        2 => "2",
        3 => "3",
        4 => "4",
        5 => "5",
        6 => "6",
        7 => "7",
        8 => "8",
        9 => "9",
        10 => if upper { "A" } else { "a" },
        11 => if upper { "B" } else { "b" },
        12 => if upper { "C" } else { "c" },
        13 => if upper { "D" } else { "d" },
        14 => if upper { "E" } else { "e" },
        _ => if upper { "F" } else { "f" },
    };
    proof {
        reveal_strlit("0");
        reveal_strlit("1");
        reveal_strlit("2");
        reveal_strlit("3");
        reveal_strlit("4");
        reveal_strlit("5");
        reveal_strlit("6");
        reveal_strlit("7");
        reveal_strlit("8");
        reveal_strlit("9");
        reveal_strlit("A");
        reveal_strlit("B");
        reveal_strlit("C");
        reveal_strlit("D");
        reveal_strlit("E");
        reveal_strlit("F");
        reveal_strlit("a");
        reveal_strlit("b");
        reveal_strlit("c");
        reveal_strlit("d");
        reveal_strlit("e");
        reveal_strlit("f");
        assert(shown@ =~= seq![digit(value as nat, upper)]);
    }
    shown.to_owned()
}

/// `number` written in base `radix`, padded with zeros to `width` digits.
pub(crate) fn numeral_text(number: u64, radix: u64, upper: bool, width: usize) -> (text: String)
    requires
        2 <= radix <= 16,
    ensures
        text@ == numeral(number as nat, radix as nat, upper, width as nat),
    decreases number, width,
{
    if number < radix && width <= 1 {
        digit_text(number, upper)
    } else {
        let narrower: usize = if width == 0 {
            0
        } else {
            width - 1
        };
        proof {
            let rest: int = number as int / radix as int;
            assert(rest <= number && (number > 0 ==> rest < number)) by (nonlinear_arith)
                requires
                    radix >= 2,
                    rest == number as int / radix as int,
            ;
        }
        let mut text: String = numeral_text(number / radix, radix, upper, narrower);
        let last: String = digit_text(number % radix, upper);
        text.append(last.as_str());
        text
    }
}

/// Numbers written alike are the same number.
pub(crate) proof fn lemma_numeral_injective(a: nat, b: nat, radix: nat, upper: bool, width: nat)
    requires
        2 <= radix <= 16,
        numeral(a, radix, upper, width) == numeral(b, radix, upper, width),
    ensures
        a == b,
    decreases a, width,
{
    let narrower: nat = if width == 0 {
        0
    } else {
        (width - 1) as nat
    };
    let left = numeral(a, radix, upper, width);
    let right = numeral(b, radix, upper, width);
    assert(0 <= a % radix < radix && a == radix * (a / radix) + a % radix && 0 <= b % radix < radix
        && b == radix * (b / radix) + b % radix && (a > 0 ==> a / radix < a)) by (nonlinear_arith)
        requires
            radix >= 2,
    ;
    lemma_numeral_length(a, radix, upper, width);
    lemma_numeral_length(b, radix, upper, width);
    if a < radix && width <= 1 {
        assert(left[0] == digit(a, upper));
        if b < radix {
            assert(right[0] == digit(b, upper));
        } else {
            lemma_numeral_length(b / radix, radix, upper, narrower);
            assert(right.len() >= 2);
        }
    } else if b < radix && width <= 1 {
        lemma_numeral_length(a / radix, radix, upper, narrower);
        assert(left.len() >= 2);
    } else {
        assert(left.drop_last() =~= numeral(a / radix, radix, upper, narrower));
        assert(right.drop_last() =~= numeral(b / radix, radix, upper, narrower));
        lemma_numeral_injective(a / radix, b / radix, radix, upper, narrower);
        assert(left.last() == digit(a % radix, upper));
        assert(right.last() == digit(b % radix, upper));
    }
}

/// A number takes at least one digit.
proof fn lemma_numeral_length(number: nat, radix: nat, upper: bool, width: nat)
    ensures
        numeral(number, radix, upper, width).len() >= 1,
{
}

/// A number is written in digits alone.
pub(crate) proof fn lemma_numeral_digits(number: nat, radix: nat, upper: bool, width: nat)
    requires
        2 <= radix <= 16,
    ensures
        forall|i: int|
            0 <= i < numeral(number, radix, upper, width).len() ==> is_digit(
                #[trigger] numeral(number, radix, upper, width)[i],
            ),
    decreases number, width,
{
    if number < radix && width <= 1 {
    } else {
        let narrower: nat = if width == 0 {
            0
        } else {
            (width - 1) as nat
        };
        assert(0 <= number % radix < radix && (number > 0 ==> number / radix < number)) by (
            nonlinear_arith)
            requires
                radix >= 2,
        ;
        lemma_numeral_digits(number / radix, radix, upper, narrower);
        let rest = numeral(number / radix, radix, upper, narrower);
        let whole = numeral(number, radix, upper, width);
        assert(whole == rest.push(digit(number % radix, upper)));
        assert forall|i: int| 0 <= i < whole.len() implies is_digit(#[trigger] whole[i]) by {
            if i < rest.len() {
                assert(whole[i] == rest[i]);
            }
        }
    }
}

/// Whether `c` is a digit of some base up to sixteen.
pub open spec fn is_digit(c: char) -> bool {
    ||| '0' <= c <= '9'
    ||| 'a' <= c <= 'f'
    ||| 'A' <= c <= 'F'
}

/// The characters of `text`, in order.
pub(crate) fn characters(text: &str) -> (chars: Vec<char>)
    ensures
        chars@ == text@,
{
    let mut chars: Vec<char> = Vec::new();
    for c in it: text.chars()
        invariant
            it.seq() == text@,
            chars@ == text@.take(it.index() as int),
    {
        proof {
            assert(text@.take(it.index() + 1) =~= text@.take(it.index() as int).push(c));
        }
        chars.push(c);
    }
    proof {
        assert(text@.take(text@.len() as int) =~= text@);
    }
    chars
}

/// Whether two strings are the same text.
pub(crate) fn same_text(a: &str, b: &str) -> (same: bool)
    ensures
        same == (a@ == b@),
{
    let left: &[u8] = a.as_bytes();
    let right: &[u8] = b.as_bytes();
    proof {
        encode_utf8_decode_utf8(a@);
        encode_utf8_decode_utf8(b@);
    }
    if left.len() != right.len() {
        return false;
    }
    let mut i: usize = 0;
    while i < left.len()
        invariant
            left@.len() == right@.len(),
            i <= left@.len(),
            left@ == encode_utf8(a@),
            right@ == encode_utf8(b@),
            forall|j: int| 0 <= j < i ==> left@[j] == right@[j],
        decreases left@.len() - i,
    {
        if left[i] != right[i] {
            return false;
        }
        i += 1;
    }
    proof {
        assert(left@ =~= right@);
    }
    true
}

/// `c` in lower case, where it is an ASCII letter.
pub open spec fn lower(c: char) -> char {
    if 'A' <= c <= 'Z' {
        (c as u32 + 32) as char
    } else {
        c
    }
}

/// `text` with its ASCII letters in lower case.
pub open spec fn lowered(text: Seq<char>) -> Seq<char> {
    text.map_values(|c: char| lower(c))
}

/// `c` in lower case, where it is an ASCII letter.
fn lower_char(c: char) -> (low: char)
    ensures
        low == lower(c),
{
    if 'A' <= c && c <= 'Z' {
        let code: u8 = c as u8;
        (code + 32) as char
    } else {
        c
    }
}

/// Whether two strings are the same text but for the case of ASCII letters.
pub(crate) fn same_name(a: &str, b: &str) -> (same: bool)
    ensures
        same == (lowered(a@) == lowered(b@)),
{
    let left: Vec<char> = characters(a);
    let right: Vec<char> = characters(b);
    if left.len() != right.len() {
        proof {
            assert(lowered(a@).len() != lowered(b@).len());
        }
        return false;
    }
    let mut i: usize = 0;
    while i < left.len()
        invariant
            left@.len() == right@.len(),
            i <= left@.len(),
            left@ == a@,
            right@ == b@,
            forall|j: int| 0 <= j < i ==> lower(left@[j]) == lower(right@[j]),
        decreases left@.len() - i,
    {
        if lower_char(left[i]) != lower_char(right[i]) {
            proof {
                assert(lowered(a@)[i as int] != lowered(b@)[i as int]);
            }
            return false;
        }
        i += 1;
    }
    proof {
        assert(lowered(a@) =~= lowered(b@));
    }
    true
}

/// The place of the last `mark` in `text`, or one before its start where it
/// holds none.
pub open spec fn last_place(text: Seq<char>, mark: char) -> int
    decreases text.len(),
{
    if text.len() == 0 {
        -1
    } else if text.last() == mark {
        text.len() - 1
    } else {
        last_place(text.drop_last(), mark)
    }
}

/// The last `mark` is the one with no `mark` after it.
pub(crate) proof fn lemma_last_place(text: Seq<char>, mark: char, place: int)
    requires
        -1 <= place < text.len(),
        place >= 0 ==> text[place] == mark,
        forall|i: int| place < i < text.len() ==> text[i] != mark,
    ensures
        last_place(text, mark) == place,
    decreases text.len(),
{
    if text.len() > 0 && place < text.len() - 1 {
        assert(text[text.len() - 1] != mark);
        lemma_last_place(text.drop_last(), mark, place);
    }
}

/// What stands before the last `mark` in `text` and what stands after it;
/// nothing where `text` holds no `mark`.
pub(crate) fn split_at_last(text: &str, mark: char) -> (parts: Option<(&str, &str)>)
    ensures
        parts is Some <==> last_place(text@, mark) >= 0,
        parts matches Some((before, after)) ==> {
            &&& before@ == text@.take(last_place(text@, mark))
            &&& after@ == text@.skip(last_place(text@, mark) + 1)
        },
{
    let chars: Vec<char> = characters(text);
    let mut i: usize = chars.len();
    while i > 0
        invariant
            chars@ == text@,
            i <= chars@.len(),
            forall|j: int| i <= j < chars@.len() ==> chars@[j] != mark,
        decreases i,
    {
        i -= 1;
        if chars[i] == mark {
            let before: &str = text.substring_char(0, i);
            let after: &str = text.substring_char(i + 1, chars.len());
            proof {
                lemma_last_place(text@, mark, i as int);
                assert(before@ =~= text@.take(i as int));
                assert(after@ =~= text@.skip(i + 1));
            }
            return Some((before, after));
        }
    }
    proof {
        lemma_last_place(text@, mark, -1);
    }
    None
}

/// Whether `a` comes before `b` where strings are put in order: they agree up
/// to some character, and there `a` ends or holds the lower code point.
pub open spec fn precedes(a: Seq<char>, b: Seq<char>) -> bool {
    exists|k: int| #[trigger] parts_at(a, b, k)
}

/// Whether `a` and `b` agree on their first `k` characters, and `a` ends
/// there or holds the lower code point next.
pub open spec fn parts_at(a: Seq<char>, b: Seq<char>, k: int) -> bool {
    &&& 0 <= k <= a.len()
    &&& k < b.len()
    &&& a.take(k) == b.take(k)
    &&& k == a.len() || a[k] < b[k]
}

/// What comes before another comes before all that the other comes before.
pub(crate) proof fn lemma_precedes_transitive(a: Seq<char>, b: Seq<char>, c: Seq<char>)
    requires
        precedes(a, b),
        precedes(b, c),
    ensures
        precedes(a, c),
{
    let k = choose|k: int| #[trigger] parts_at(a, b, k);
    let m = choose|m: int| #[trigger] parts_at(b, c, m);
    let least = if k < m {
        k
    } else {
        m
    };
    assert forall|i: int| 0 <= i < least implies a[i] == c[i] by {
        assert(a.take(k)[i] == b.take(k)[i]);
        assert(b.take(m)[i] == c.take(m)[i]);
    }
    if k < m {
        assert(b.take(m)[k] == c.take(m)[k]);
    } else if m < k {
        assert(a.take(k)[m] == b.take(k)[m]);
    }
    assert(a.take(least) =~= c.take(least));
    assert(parts_at(a, c, least));
}

/// Of two different strings one comes before the other.
pub(crate) proof fn lemma_precedes_total(a: Seq<char>, b: Seq<char>)
    ensures
        a == b || precedes(a, b) || precedes(b, a),
{
    lemma_precedes_total_from(a, b, 0);
}

/// Of two different strings that agree on their first `k` characters one
/// comes before the other.
proof fn lemma_precedes_total_from(a: Seq<char>, b: Seq<char>, k: int)
    requires
        0 <= k <= a.len(),
        k <= b.len(),
        forall|i: int| 0 <= i < k ==> a[i] == b[i],
    ensures
        a == b || precedes(a, b) || precedes(b, a),
    decreases a.len() - k,
{
    assert(a.take(k) =~= b.take(k));
    if k == a.len() && k == b.len() {
        assert(a =~= b);
    } else if k == a.len() || (k < b.len() && a[k] < b[k]) {
        assert(parts_at(a, b, k));
    } else if k == b.len() || b[k] < a[k] {
        assert(parts_at(b, a, k));
    } else {
        lemma_precedes_total_from(a, b, k + 1);
    }
}

/// Whether `a` comes before `b`.
pub(crate) fn comes_before(a: &str, b: &str) -> (before: bool)
    ensures
        before == precedes(a@, b@),
{
    let left: Vec<char> = characters(a);
    let right: Vec<char> = characters(b);
    let mut i: usize = 0;
    while i < left.len() && i < right.len()
        invariant
            left@ == a@,
            right@ == b@,
            i <= left@.len(),
            i <= right@.len(),
            forall|j: int| 0 <= j < i ==> left@[j] == right@[j],
        decreases left@.len() - i,
    {
        if left[i] != right[i] {
            let before: bool = left[i] < right[i];
            proof {
                assert(a@.take(i as int) =~= b@.take(i as int));
                if before {
                    assert(parts_at(a@, b@, i as int));
                } else {
                    assert forall|k: int| !#[trigger] parts_at(a@, b@, k) by {
                        if parts_at(a@, b@, k) {
                            if k < i {
                                assert(left@[k] == right@[k]);
                            } else if k > i {
                                assert(a@.take(k)[i as int] == b@.take(k)[i as int]);
                            }
                        }
                    }
                }
            }
            return before;
        }
        i += 1;
    }
    let before: bool = i < right.len();
    proof {
        assert(a@.take(i as int) =~= b@.take(i as int));
        if before {
            assert(parts_at(a@, b@, i as int));
        } else {
            assert forall|k: int| !#[trigger] parts_at(a@, b@, k) by {
                if parts_at(a@, b@, k) {
                    assert(left@[k] == right@[k]);
                }
            }
        }
    }
    before
}

/// The text that `bytes` are; nothing where they are not UTF-8.
///
/// Trusts `std::str::from_utf8`: it returns a string slice of those very bytes
/// where they are valid UTF-8, and an error otherwise.
#[verifier::external_body]
pub(crate) fn utf8(bytes: &[u8]) -> (text: Option<&str>)
    ensures
        text is Some <==> valid_utf8(bytes@),
        text matches Some(shown) ==> shown@ == decode_utf8(bytes@),
{
    std::str::from_utf8(bytes).ok()
}

/// One digit shows its value: `0` to `9`, and from ten on the letters from
/// `A` or from `a`.
pub proof fn law_a_digit_shows_its_value(value: nat, radix: nat, upper: bool)
    requires
        value < radix <= 16,
    ensures
        numeral(value, radix, upper, 1).len() == 1,
        ({
            let code = numeral(value, radix, upper, 1)[0] as u32;
            &&& value < 10 ==> code == 0x30 + value
            &&& value >= 10 && upper ==> code == 0x41 + (value - 10)
            &&& value >= 10 && !upper ==> code == 0x61 + (value - 10)
        }),
{
}

/// A number is written digit by digit, the highest first: one digit more
/// stands behind the digits that were there, and what is padded is padded in
/// front.
pub proof fn law_a_number_is_written_digit_by_digit(
    number: nat,
    last: nat,
    radix: nat,
    upper: bool,
    width: nat,
)
    requires
        2 <= radix <= 16,
        last < radix,
    ensures
        number > 0 || width > 0 ==> numeral(number * radix + last, radix, upper, width + 1)
            == numeral(number, radix, upper, width) + numeral(last, radix, upper, 1),
        numeral(number, radix, upper, 0) == numeral(number, radix, upper, 1),
{
    let whole = number * radix + last;
    assert(whole / radix == number && whole % radix == last && (number > 0 ==> whole >= radix)) by (
        nonlinear_arith)
        requires
            radix >= 2,
            last < radix,
            whole == number * radix + last,
    ;
    if number > 0 || width > 0 {
        assert(numeral(whole, radix, upper, width + 1) == numeral(
            number,
            radix,
            upper,
            width,
        ).push(digit(last, upper)));
        assert(numeral(last, radix, upper, 1) =~= seq![digit(last, upper)]);
    }
    assert(numeral(number, radix, upper, 0) =~= numeral(number, radix, upper, 1));
}

/// A number in decimal is its digits from `0` to `9`, the highest first, with
/// no zero before them.
pub proof fn law_decimal_is_written_digit_by_digit(number: nat, last: nat)
    requires
        last < 10,
    ensures
        decimal(last).len() == 1,
        decimal(last)[0] as u32 == 0x30 + last,
        number > 0 ==> decimal(number * 10 + last) == decimal(number) + decimal(last),
{
    law_a_digit_shows_its_value(last, 10, false);
    law_a_number_is_written_digit_by_digit(number, last, 10, false, 0);
}

/// Two names are the same but for case where they are as long as each other
/// and differ, if at all, between an ASCII letter and its other case.
pub proof fn law_case_is_all_that_names_may_differ_in(a: Seq<char>, b: Seq<char>)
    ensures
        lowered(a) == lowered(b) <==> {
            &&& a.len() == b.len()
            &&& forall|i: int|
                0 <= i < a.len() ==> {
                    ||| #[trigger] a[i] == b[i]
                    ||| 0x41 <= a[i] as u32 <= 0x5A && b[i] as u32 == a[i] as u32 + 32
                    ||| 0x41 <= b[i] as u32 <= 0x5A && a[i] as u32 == b[i] as u32 + 32
                }
        },
{
    assert(lowered(a).len() == a.len() && lowered(b).len() == b.len());
    if lowered(a) == lowered(b) {
        assert forall|i: int| 0 <= i < a.len() implies {
            ||| #[trigger] a[i] == b[i]
            ||| 0x41 <= a[i] as u32 <= 0x5A && b[i] as u32 == a[i] as u32 + 32
            ||| 0x41 <= b[i] as u32 <= 0x5A && a[i] as u32 == b[i] as u32 + 32
        } by {
            assert(lowered(a)[i] == lower(a[i]));
            assert(lowered(b)[i] == lower(b[i]));
        }
    }
    if a.len() == b.len() && (forall|i: int|
        0 <= i < a.len() ==> {
            ||| #[trigger] a[i] == b[i]
            ||| 0x41 <= a[i] as u32 <= 0x5A && b[i] as u32 == a[i] as u32 + 32
            ||| 0x41 <= b[i] as u32 <= 0x5A && a[i] as u32 == b[i] as u32 + 32
        }) {
        assert forall|i: int| 0 <= i < a.len() implies lowered(a)[i] == lowered(b)[i] by {
            assert(a[i] == a[i]);
        }
        assert(lowered(a) =~= lowered(b));
    }
}

/// The last mark is a mark with none after it; where there is no mark at all,
/// its place is before the start.
pub proof fn law_no_mark_follows_the_last(text: Seq<char>, mark: char)
    ensures
        -1 <= last_place(text, mark) < text.len(),
        last_place(text, mark) >= 0 ==> text[last_place(text, mark)] == mark,
        forall|i: int| last_place(text, mark) < i < text.len() ==> text[i] != mark,
    decreases text.len(),
{
    if text.len() > 0 && text.last() != mark {
        let rest = text.drop_last();
        law_no_mark_follows_the_last(rest, mark);
        assert forall|i: int| last_place(text, mark) < i < text.len() implies text[i] != mark by {
            if i < rest.len() {
                assert(rest[i] == text[i]);
            }
        }
    }
}

/// Characters are in the order of their code points.
proof fn lemma_code_orders(a: char, b: char)
    ensures
        (a as u32) < (b as u32) <==> a < b,
{
}

/// Strings are in order by the first character they differ in, the lower code
/// point first, and what ends where the other goes on comes first. No two
/// strings come before each other.
pub proof fn law_the_first_difference_orders(start: Seq<char>, a: Seq<char>, b: Seq<char>)
    ensures
        b.len() > 0 && (a.len() == 0 || (a[0] as u32) < (b[0] as u32)) ==> precedes(
            start + a,
            start + b,
        ),
        precedes(a, b) ==> !precedes(b, a),
        a == b || precedes(a, b) || precedes(b, a),
{
    lemma_precedes_total(a, b);
    if b.len() > 0 && (a.len() == 0 || (a[0] as u32) < (b[0] as u32)) {
        let k = start.len() as int;
        assert((start + a).take(k) =~= start);
        assert((start + b).take(k) =~= start);
        assert((start + b)[k] == b[0]);
        if a.len() > 0 {
            assert((start + a)[k] == a[0]);
            lemma_code_orders(a[0], b[0]);
        }
        assert(parts_at(start + a, start + b, k));
    }
    if precedes(a, b) && precedes(b, a) {
        lemma_precedes_transitive(a, b, a);
        let k = choose|k: int| #[trigger] parts_at(a, a, k);
        assert(false);
    }
}

} // verus!
