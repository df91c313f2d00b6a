//! Character sequences: decimal numbers, trimming, splitting and concatenation.

use vstd::prelude::*;
use vstd::string::*;
use vstd::utf8::*;

verus! {

/// [`String::push`] appends one character.
pub assume_specification[ std::string::String::push ](s: &mut std::string::String, c: char)
    ensures
        final(s)@ == old(s)@.push(c),
;

/// Whether `ch` is an ASCII digit.
pub open spec fn is_digit(ch: char) -> bool {
    '0' <= ch <= '9'
}

/// The value of an ASCII digit.
pub open spec fn digit_value(ch: char) -> nat {
    (ch as u32 - '0' as u32) as nat
}

/// The digit whose value is `value`, for values below ten.
pub open spec fn digit_char(value: nat) -> char {
    (('0' as u32 + value) as u32) as char
}

/// `number` written in base ten without leading zeros.
pub open spec fn decimal(number: nat) -> Seq<char>
    decreases number,
{
    if number < 10 {
        seq![digit_char(number)]
    } else {
        decimal(number / 10).push(digit_char(number % 10))
    }
}

/// The number that a sequence of digits denotes in base ten.
pub open spec fn decimal_value(digits: Seq<char>) -> nat
    decreases digits.len(),
{
    if digits.len() == 0 {
        0
    } else {
        decimal_value(digits.drop_last()) * 10 + digit_value(digits.last())
    }
}

/// Whether `text` consists of digits only. Holds of the empty text.
pub open spec fn all_digits(text: Seq<char>) -> bool {
    forall|i: int| 0 <= i < text.len() ==> is_digit(#[trigger] text[i])
}

/// The text behind an optional leading plus sign.
pub open spec fn without_sign(text: Seq<char>) -> Seq<char> {
    if text.len() > 0 && text[0] == '+' {
        text.skip(1)
    } else {
        text
    }
}

/// The unsigned number that `text` denotes, if it is one and does not exceed `max`: an optional
/// plus sign followed by at least one digit and nothing else.
pub open spec fn parsed_number(text: Seq<char>, max: nat) -> Option<nat> {
    let digits = without_sign(text);
    if digits.len() > 0 && all_digits(digits) && decimal_value(digits) <= max {
        Some(decimal_value(digits))
    } else {
        None
    }
}

/// The pieces of `items` between occurrences of `separator`: one more than there are separators.
pub open spec fn split<T>(items: Seq<T>, separator: T) -> Seq<Seq<T>>
    decreases items.len(),
{
    if items.len() == 0 {
        seq![seq![]]
    } else {
        let pieces = split(items.drop_last(), separator);
        if items.last() == separator {
            pieces.push(seq![])
        } else {
            pieces.update(pieces.len() - 1, pieces.last().push(items.last()))
        }
    }
}

/// What stands behind the last occurrence of `separator`, or everything where there is none.
pub open spec fn after_last<T>(items: Seq<T>, separator: T) -> Seq<T>
    decreases items.len(),
{
    if items.len() == 0 || items.last() == separator {
        seq![]
    } else {
        after_last(items.drop_last(), separator).push(items.last())
    }
}

/// Lexicographic order of two texts by the code points of their characters.
pub open spec fn text_less(left: Seq<char>, right: Seq<char>) -> bool
    decreases left.len(),
{
    if right.len() == 0 {
        false
    } else if left.len() == 0 {
        true
    } else if left[0] != right[0] {
        left[0] < right[0]
    } else {
        text_less(left.skip(1), right.skip(1))
    }
}

/// The contents of an optional string.
pub open spec fn optional_text(text: Option<String>) -> Option<Seq<char>> {
    match text {
        Some(text) => Some(text@),
        None => None,
    }
}

/// The contents of some strings.
pub open spec fn texts(strings: Seq<String>) -> Seq<Seq<char>> {
    strings.map_values(|text: String| text@)
}

/// The contents of an optional string slice.
pub open spec fn optional_slice(text: Option<&str>) -> Option<Seq<char>> {
    match text {
        Some(text) => Some(text@),
        None => None,
    }
}

/// [`std::str::from_utf8`] takes bytes for text where they are UTF-8, and only there.
#[verifier::external_body]
pub(crate) fn decoded(bytes: &[u8]) -> (text: Option<&str>)
    ensures
        match text {
            Some(text) => valid_utf8(bytes@) && encode_utf8(text@) == bytes@,
            None => !valid_utf8(bytes@),
        },
{
    std::str::from_utf8(bytes).ok()
}

/// Whether `bytes` are text in UTF-8.
pub fn is_utf8(bytes: &[u8]) -> (valid: bool)
    ensures
        valid == valid_utf8(bytes@),
{
    decoded(bytes).is_some()
}

/// The characters of `text`.
pub fn chars_of(text: &str) -> (chars: Vec<char>)
    ensures
        chars@ == text@,
{
    let mut chars: Vec<char> = Vec::new();
    for ch in iter: text.chars()
        invariant
            iter.seq() == text@,
            chars@ == text@.take(iter.index() as int),
    {
        chars.push(ch);
    }
    chars
}

/// Whether two texts are the same.
pub fn same_text(left: &str, right: &str) -> (same: bool)
    ensures
        same == (left@ == right@),
{
    broadcast use encode_utf8_decode_utf8;

    let same = same_bytes(left.as_bytes(), right.as_bytes());
    proof {
        if left.spec_bytes() == right.spec_bytes() {
            assert(decode_utf8(encode_utf8(left@)) == left@);
            assert(decode_utf8(encode_utf8(right@)) == right@);
        }
    }
    same
}

/// Whether two byte strings are the same.
pub fn same_bytes(left: &[u8], right: &[u8]) -> (same: bool)
    ensures
        same == (left@ == right@),
{
    if left.len() != right.len() {
        return false;
    }
    let mut i: usize = 0;
    while i < left.len()
        invariant
            i <= left@.len() == right@.len(),
            forall|j: int| 0 <= j < i ==> left@[j] == right@[j],
        decreases left@.len() - i,
    {
        if left[i] != right[i] {
            return false;
        }
        i += 1;
    }
    assert(left@ =~= right@);
    true
}

/// Whether two character sequences are the same.
pub fn same_chars(left: &[char], right: &[char]) -> (same: bool)
    ensures
        same == (left@ == right@),
{
    if left.len() != right.len() {
        return false;
    }
    let mut i: usize = 0;
    while i < left.len()
        invariant
            i <= left@.len() == right@.len(),
            forall|j: int| 0 <= j < i ==> left@[j] == right@[j],
        decreases left@.len() - i,
    {
        if left[i] != right[i] {
            return false;
        }
        i += 1;
    }
    assert(left@ =~= right@);
    true
}

/// What stands behind the last occurrence of `separator`, or all of `text` where there is none.
pub fn part_after_last(text: &str, separator: char) -> (part: &str)
    ensures
        part@ == after_last(text@, separator),
{
    let chars = chars_of(text);
    let mut start: usize = chars.len();
    assert(chars@.take(chars@.len() as int) =~= chars@);
    assert(chars@.skip(start as int) =~= seq![]);
    while start > 0 && chars[start - 1] != separator
        invariant
            start <= chars@.len(),
            after_last(chars@, separator) == after_last(chars@.take(start as int), separator)
                + chars@.skip(start as int),
        decreases start,
    {
        let ghost front = chars@.take(start as int);
        assert(front.drop_last() =~= chars@.take(start - 1));
        assert(after_last(front.drop_last(), separator).push(front.last()) + chars@.skip(
            start as int,
        ) =~= after_last(front.drop_last(), separator) + chars@.skip(start - 1));
        start -= 1;
    }
    assert(after_last(chars@.take(start as int), separator) =~= seq![]);
    assert(chars@.skip(start as int) =~= text@.subrange(start as int, text@.len() as int));
    text.substring_char(start, chars.len())
}

/// `second` behind `first`.
pub fn appended(first: &str, second: &str) -> (text: String)
    ensures
        text@ == first@ + second@,
{
    let mut text = first.to_string();
    text.append(second);
    text
}

/// `middle` between `before` and `after`.
pub fn surrounded(before: &str, middle: &str, after: &str) -> (text: String)
    ensures
        text@ == before@ + middle@ + after@,
{
    let mut text = appended(before, middle);
    text.append(after);
    text
}

/// A copy of some strings.
pub fn copied(strings: &Vec<String>) -> (copies: Vec<String>)
    ensures
        texts(copies@) == texts(strings@),
{
    let mut copies: Vec<String> = Vec::new();
    let mut i: usize = 0;
    assert(texts(copies@) =~= texts(strings@.take(0)));
    while i < strings.len()
        invariant
            i <= strings@.len(),
            texts(copies@) == texts(strings@.take(i as int)),
        decreases strings@.len() - i,
    {
        let ghost before = copies@;
        copies.push(strings[i].clone());
        assert(texts(copies@) =~= texts(before).push(strings@[i as int]@));
        assert(texts(strings@.take(i + 1)) =~= texts(strings@.take(i as int)).push(
            strings@[i as int]@,
        ));
        i += 1;
    }
    assert(strings@.take(i as int) =~= strings@);
    copies
}

/// `number` in base ten.
pub fn decimal_text(number: u64) -> (text: String)
    ensures
        text@ == decimal(number as nat),
    decreases number,
{
    if number < 10 {
        let mut text = String::new();
        text.push(digit_of(number));
        assert(text@ =~= decimal(number as nat));
        text
    } else {
        let mut text = decimal_text(number / 10);
        text.push(digit_of(number % 10));
        text
    }
}

/// The digit whose value is `value`.
fn digit_of(value: u64) -> (digit: char)
    requires
        value < 10,
    ensures
        digit == digit_char(value as nat),
{
    (48u8 + value as u8) as char
}

/// The number below or equal to `max` that `chars` denote, where the first `start` characters are
/// left out.
fn number_from(chars: &[char], start: usize, max: u64) -> (number: Option<u64>)
    requires
        start <= chars@.len(),
    ensures
        number matches Some(n) ==> start < chars@.len() && all_digits(chars@.skip(start as int))
            && decimal_value(chars@.skip(start as int)) == n && n <= max,
        number is None ==> !(start < chars@.len() && all_digits(chars@.skip(start as int))
            && decimal_value(chars@.skip(start as int)) <= max),
{
    if start >= chars.len() {
        return None;
    }
    let ghost digits = chars@.skip(start as int);
    let mut value: u64 = 0;
    let mut i: usize = start;
    while i < chars.len()
        invariant
            start <= i <= chars@.len(),
            digits == chars@.skip(start as int),
            start < chars@.len(),
            all_digits(digits.take(i - start)),
            value == decimal_value(digits.take(i - start)),
            value <= max,
        decreases chars@.len() - i,
    {
        let ch = chars[i];
        let ghost done = digits.take(i - start);
        let ghost longer = digits.take(i - start + 1);
        assert(longer =~= done.push(ch));
        assert(longer.drop_last() =~= done);
        assert(digits[i - start] == ch);
        if ch < '0' || ch > '9' {
            assert(!is_digit(digits[i - start]));
            return None;
        }
        let digit: u64 = (ch as u32 - 48) as u64;
        assert(decimal_value(longer) == decimal_value(done) * 10 + digit);
        let next = match value.checked_mul(10) {
            Some(tens) => tens.checked_add(digit),
            None => None,
        };
        match next {
            Some(sum) if sum <= max => {
                value = sum;
            },
            _ => {
                proof {
                    assert(decimal_value(longer) > max);
                    lemma_decimal_value_prefix(digits, i - start + 1);
                }
                return None;
            },
        }
        i += 1;
    }
    assert(digits.take(i - start) =~= digits);
    Some(value)
}

/// The unsigned number up to `max` that `text` denotes.
pub fn parse_number(text: &str, max: u64) -> (number: Option<u64>)
    ensures
        match number {
            Some(n) => parsed_number(text@, max as nat) == Some(n as nat),
            None => parsed_number(text@, max as nat) is None,
        },
{
    let chars = chars_of(text);
    if chars.len() > 0 && chars[0] == '+' {
        number_from(chars.as_slice(), 1, max)
    } else {
        assert(chars@.skip(0) =~= chars@);
        number_from(chars.as_slice(), 0, max)
    }
}

/// The digits in front of some digits denote no more than all of them.
proof fn lemma_decimal_value_prefix(digits: Seq<char>, count: int)
    requires
        0 <= count <= digits.len(),
    ensures
        decimal_value(digits.take(count)) <= decimal_value(digits),
    decreases digits.len(),
{
    if count == digits.len() {
        assert(digits.take(count) =~= digits);
    } else {
        lemma_decimal_value_prefix(digits.drop_last(), count);
        assert(digits.drop_last().take(count) =~= digits.take(count));
    }
}

/// A number in base ten consists of digits, at least one, and denotes that number.
pub proof fn lemma_decimal(number: nat)
    ensures
        decimal(number).len() > 0,
        all_digits(decimal(number)),
        decimal_value(decimal(number)) == number,
    decreases number,
{
    reveal_with_fuel(decimal_value, 2);
    if number < 10 {
        assert(decimal(number).drop_last() =~= seq![]);
    } else {
        lemma_decimal(number / 10);
        assert(decimal(number).drop_last() =~= decimal(number / 10));
    }
}

/// What a number looks like in base ten parses as that number.
pub proof fn law_decimal_parses_back(number: nat, max: nat)
    requires
        number <= max,
    ensures
        parsed_number(decimal(number), max) == Some(number),
{
    lemma_decimal(number);
    assert(is_digit(decimal(number)[0]));
}

/// A text is not before itself.
pub proof fn lemma_text_less_irreflexive(text: Seq<char>)
    ensures
        !text_less(text, text),
    decreases text.len(),
{
    if text.len() > 0 {
        lemma_text_less_irreflexive(text.skip(1));
    }
}

/// The order of texts is transitive.
pub proof fn lemma_text_less_transitive(first: Seq<char>, second: Seq<char>, third: Seq<char>)
    requires
        text_less(first, second),
        text_less(second, third),
    ensures
        text_less(first, third),
    decreases first.len(),
{
    if first.len() > 0 && first[0] == second[0] && second[0] == third[0] {
        lemma_text_less_transitive(first.skip(1), second.skip(1), third.skip(1));
    }
}

/// There is at least one piece.
pub proof fn lemma_split_len<T>(items: Seq<T>, separator: T)
    ensures
        split(items, separator).len() > 0,
    decreases items.len(),
{
    if items.len() > 0 {
        lemma_split_len(items.drop_last(), separator);
    }
}

/// What holds of every item of every piece, and of the separator, holds of every item.
pub proof fn lemma_split_all<T>(items: Seq<T>, separator: T, holds: spec_fn(T) -> bool)
    requires
        holds(separator),
        forall|i: int, j: int|
            #![trigger split(items, separator)[i][j]]
            0 <= i < split(items, separator).len() && 0 <= j < split(items, separator)[i].len()
                ==> holds(split(items, separator)[i][j]),
    ensures
        forall|k: int| 0 <= k < items.len() ==> holds(#[trigger] items[k]),
    decreases items.len(),
{
    if items.len() > 0 {
        let front = items.drop_last();
        let pieces = split(front, separator);
        let all = split(items, separator);
        lemma_split_len(front, separator);
        assert forall|i: int, j: int|
            #![trigger pieces[i][j]]
            0 <= i < pieces.len() && 0 <= j < pieces[i].len() implies holds(pieces[i][j]) by {
            assert(all[i][j] == pieces[i][j]);
        }
        lemma_split_all(front, separator, holds);
        if items.last() != separator {
            let n = pieces.len() - 1;
            assert(all[n] =~= pieces[n].push(items.last()));
            assert(holds(all[n][pieces[n].len() as int]));
        }
        assert forall|k: int| 0 <= k < items.len() implies holds(#[trigger] items[k]) by {
            if k < front.len() {
                assert(front[k] == items[k]);
            }
        }
    }
}

/// A sequence has at most one longest prefix of items that satisfy `holds`.
pub proof fn lemma_longest_prefix_unique<T>(
    prefix: Seq<T>,
    rest: Seq<T>,
    other_prefix: Seq<T>,
    other_rest: Seq<T>,
    holds: spec_fn(T) -> bool,
)
    requires
        prefix + rest == other_prefix + other_rest,
        forall|i: int| 0 <= i < prefix.len() ==> holds(#[trigger] prefix[i]),
        forall|i: int| 0 <= i < other_prefix.len() ==> holds(#[trigger] other_prefix[i]),
        rest.len() > 0 ==> !holds(rest[0]),
        other_rest.len() > 0 ==> !holds(other_rest[0]),
    ensures
        prefix == other_prefix,
        rest == other_rest,
{
    let whole = prefix + rest;
    assert(whole.len() == other_prefix.len() + other_rest.len());
    if prefix.len() < other_prefix.len() {
        assert(whole[prefix.len() as int] == rest[0]);
        assert(whole[prefix.len() as int] == other_prefix[prefix.len() as int]);
    } else if other_prefix.len() < prefix.len() {
        assert(whole[other_prefix.len() as int] == other_rest[0]);
        assert(whole[other_prefix.len() as int] == prefix[other_prefix.len() as int]);
    }
    assert(prefix =~= whole.take(prefix.len() as int));
    assert(other_prefix =~= whole.take(prefix.len() as int));
    assert(rest =~= whole.skip(prefix.len() as int));
    assert(other_rest =~= whole.skip(prefix.len() as int));
}

/// Of two different texts one is before the other.
pub proof fn lemma_text_less_total(left: Seq<char>, right: Seq<char>)
    ensures
        text_less(left, right) || text_less(right, left) || left == right,
    decreases left.len(),
{
    if left.len() > 0 && right.len() > 0 && left[0] == right[0] {
        lemma_text_less_total(left.skip(1), right.skip(1));
        if left.skip(1) == right.skip(1) {
            assert(left =~= seq![left[0]] + left.skip(1));
            assert(right =~= seq![right[0]] + right.skip(1));
        }
    } else if left.len() == 0 && right.len() == 0 {
        assert(left =~= right);
    }
}

/// Digits that do not begin with a zero denote a positive number.
proof fn lemma_decimal_value_positive(digits: Seq<char>)
    requires
        digits.len() > 0,
        all_digits(digits),
        digits[0] != '0',
    ensures
        decimal_value(digits) > 0,
    decreases digits.len(),
{
    if digits.len() > 1 {
        lemma_decimal_value_positive(digits.drop_last());
    } else {
        assert(is_digit(digits[0]));
    }
}

/// Digits without leading zeros are the only ones that denote their number.
pub proof fn lemma_decimal_value_unique(left: Seq<char>, right: Seq<char>)
    requires
        left.len() > 0,
        right.len() > 0,
        all_digits(left),
        all_digits(right),
        left.len() > 1 ==> left[0] != '0',
        right.len() > 1 ==> right[0] != '0',
        decimal_value(left) == decimal_value(right),
    ensures
        left == right,
    decreases left.len(),
{
    let left_front = left.drop_last();
    let right_front = right.drop_last();
    assert(is_digit(left.last()) && is_digit(right.last()));
    assert(left =~= left_front.push(left.last()));
    assert(right =~= right_front.push(right.last()));
    assert(all_digits(left_front) && all_digits(right_front));
    if left_front.len() > 0 {
        lemma_decimal_value_positive(left_front);
    }
    if right_front.len() > 0 {
        lemma_decimal_value_positive(right_front);
    }
    assert(decimal_value(left_front) == decimal_value(right_front) && left.last() == right.last());
    if left_front.len() > 0 && right_front.len() > 0 {
        lemma_decimal_value_unique(left_front, right_front);
    } else {
        assert(left_front =~= right_front);
    }
}

/// Different sequences have different pieces.
pub proof fn lemma_split_unique<T>(left: Seq<T>, right: Seq<T>, separator: T)
    requires
        split(left, separator) == split(right, separator),
    ensures
        left == right,
    decreases left.len(),
{
    let pieces = split(left, separator);
    lemma_split_len(left.drop_last(), separator);
    lemma_split_len(right.drop_last(), separator);
    let left_front = split(left.drop_last(), separator);
    let right_front = split(right.drop_last(), separator);
    if left.len() == 0 {
        if right.len() > 0 {
            assert(pieces[0].len() == 0);
        }
        assert(left =~= right);
    } else if right.len() == 0 {
        assert(pieces[0].len() == 0);
    } else if left.last() == separator {
        assert(pieces.last().len() == 0);
        assert(right.last() == separator);
        assert(left_front =~= pieces.drop_last());
        assert(right_front =~= pieces.drop_last());
        lemma_split_unique(left.drop_last(), right.drop_last(), separator);
        assert(left =~= left.drop_last().push(left.last()));
        assert(right =~= right.drop_last().push(right.last()));
    } else {
        assert(pieces.last() == left_front.last().push(left.last()));
        assert(pieces.last().len() > 0);
        assert(right.last() != separator);
        assert(pieces.last() == right_front.last().push(right.last()));
        assert(pieces.last().last() == left.last());
        assert(pieces.last().last() == right.last());
        assert(left_front.last() =~= pieces.last().drop_last());
        assert(right_front.last() =~= pieces.last().drop_last());
        assert(left_front =~= pieces.update(pieces.len() - 1, pieces.last().drop_last()));
        assert(right_front =~= pieces.update(pieces.len() - 1, pieces.last().drop_last()));
        lemma_split_unique(left.drop_last(), right.drop_last(), separator);
        assert(left =~= left.drop_last().push(left.last()));
        assert(right =~= right.drop_last().push(right.last()));
    }
}

/// Whether `part` stands behind the last occurrence of `separator` in `items`, or is all of them
/// where there is none.
pub open spec fn is_last_part<T>(items: Seq<T>, separator: T, part: Seq<T>) -> bool {
    &&& !part.contains(separator)
    &&& items == part || exists|front: Seq<T>| items == #[trigger] (front + seq![separator] + part)
}

/// What stands behind the last separator is the one part of the items that ends them, has no
/// separator and has one in front of it, or nothing.
pub proof fn law_last_part<T>(items: Seq<T>, separator: T, part: Seq<T>)
    ensures
        is_last_part(items, separator, part) <==> part == after_last(items, separator),
    decreases items.len(),
{
    let last = after_last(items, separator);
    lemma_after_last(items, separator);
    if is_last_part(items, separator, part) {
        if items.len() == 0 {
            if items != part {
                let front = choose|front: Seq<T>|
                    items == #[trigger] (front + seq![separator] + part);
                assert((front + seq![separator] + part).len() > 0);
            }
            assert(part =~= last);
        } else if part.len() == 0 {
            if items != part {
                let front = choose|front: Seq<T>|
                    items == #[trigger] (front + seq![separator] + part);
                assert((front + seq![separator] + part).last() == separator);
            }
            assert(part =~= last);
        } else {
            let shorter = part.drop_last();
            assert(part.last() == items.last()) by {
                if items != part {
                    let front = choose|front: Seq<T>|
                        items == #[trigger] (front + seq![separator] + part);
                    assert((front + seq![separator] + part).last() == part.last());
                }
            }
            assert(part.contains(part[part.len() - 1]));
            assert(!shorter.contains(separator)) by {
                if shorter.contains(separator) {
                    let i = choose|i: int| 0 <= i < shorter.len() && shorter[i] == separator;
                    assert(part[i] == separator);
                }
            }
            if items != part {
                let front = choose|front: Seq<T>|
                    items == #[trigger] (front + seq![separator] + part);
                assert(items.drop_last() =~= front + seq![separator] + shorter);
            } else {
                assert(items.drop_last() =~= shorter);
            }
            law_last_part(items.drop_last(), separator, shorter);
            assert(part =~= shorter.push(items.last()));
        }
    }
}

/// What stands behind the last separator is the last part.
proof fn lemma_after_last<T>(items: Seq<T>, separator: T)
    ensures
        is_last_part(items, separator, after_last(items, separator)),
    decreases items.len(),
{
    let last = after_last(items, separator);
    if items.len() == 0 {
        assert(items =~= last);
    } else if items.last() == separator {
        assert(items =~= items.drop_last() + seq![separator] + last);
    } else {
        let front_items = items.drop_last();
        let shorter = after_last(front_items, separator);
        lemma_after_last(front_items, separator);
        assert(!last.contains(separator)) by {
            if last.contains(separator) {
                let i = choose|i: int| 0 <= i < last.len() && last[i] == separator;
                assert(i < shorter.len());
                assert(shorter[i] == separator);
                assert(shorter.contains(separator));
            }
        }
        if front_items == shorter {
            assert(items =~= last);
        } else {
            let front = choose|front: Seq<T>|
                front_items == #[trigger] (front + seq![separator] + shorter);
            assert(items =~= front_items.push(items.last()));
            assert(items =~= front + seq![separator] + last);
        }
    }
}

/// Some pieces with a separator between any two of them.
pub open spec fn joined<T>(pieces: Seq<Seq<T>>, separator: T) -> Seq<T>
    decreases pieces.len(),
{
    if pieces.len() == 0 {
        seq![]
    } else if pieces.len() == 1 {
        pieces[0]
    } else {
        joined(pieces.drop_last(), separator).push(separator) + pieces.last()
    }
}

/// The pieces have no separator in them, and give the items back with a separator between any two
/// of them.
pub proof fn law_pieces_join_back<T>(items: Seq<T>, separator: T)
    ensures
        split(items, separator).len() > 0,
        joined(split(items, separator), separator) == items,
        forall|i: int|
            0 <= i < split(items, separator).len() ==> !(#[trigger] split(
                items,
                separator,
            )[i]).contains(separator),
    decreases items.len(),
{
    let pieces = split(items, separator);
    if items.len() == 0 {
        assert(joined(pieces, separator) =~= items);
    } else {
        let before = split(items.drop_last(), separator);
        law_pieces_join_back(items.drop_last(), separator);
        if items.last() == separator {
            assert(pieces.drop_last() =~= before);
            assert(joined(pieces, separator) =~= items);
            assert forall|i: int| 0 <= i < pieces.len() implies !(
            #[trigger] pieces[i]).contains(separator) by {
                if i < before.len() {
                    assert(pieces[i] == before[i]);
                }
            }
        } else {
            assert(pieces.drop_last() =~= before.drop_last());
            assert(pieces.last() == before.last().push(items.last()));
            assert(joined(pieces, separator) =~= joined(before, separator).push(items.last()));
            assert(items =~= items.drop_last().push(items.last()));
            assert forall|i: int| 0 <= i < pieces.len() implies !(
            #[trigger] pieces[i]).contains(separator) by {
                if i < pieces.len() - 1 {
                    assert(pieces[i] == before[i]);
                } else {
                    let piece = pieces[i];
                    assert(!before[i].contains(separator));
                    if piece.contains(separator) {
                        let k = choose|k: int| 0 <= k < piece.len() && piece[k] == separator;
                        assert(before[i][k] == separator);
                    }
                }
            }
        }
    }
}

/// A separator parts the items: the pieces are those in front of it and those behind it.
pub proof fn law_separator_parts<T>(left: Seq<T>, right: Seq<T>, separator: T)
    ensures
        split(left.push(separator) + right, separator) == split(left, separator) + split(
            right,
            separator,
        ),
    decreases right.len(),
{
    let items = left.push(separator) + right;
    if right.len() == 0 {
        assert(items.drop_last() =~= left);
        assert(split(items, separator) =~= split(left, separator) + split(right, separator));
    } else {
        let shorter = right.drop_last();
        law_separator_parts(left, shorter, separator);
        lemma_split_len(shorter, separator);
        assert(items.drop_last() =~= left.push(separator) + shorter);
        assert(items.last() == right.last());
        let before = split(left, separator) + split(shorter, separator);
        assert(before.last() == split(shorter, separator).last());
        assert(split(items, separator) =~= split(left, separator) + split(right, separator));
    }
}

/// The digits of a number are those of its tenth and its last digit; the digits are the ten
/// characters from `0` on, in order.
pub proof fn law_digits_of_a_number(number: nat, digit: nat)
    requires
        digit < 10,
    ensures
        digit_char(digit) as u32 == 48 + digit,
        decimal(digit) == seq![digit_char(digit)],
        number > 0 ==> decimal(10 * number + digit) == decimal(number).push(digit_char(digit)),
{
    if number > 0 {
        assert((10 * number + digit) / 10 == number);
        assert((10 * number + digit) % 10 == digit);
    }
}

/// A text denotes a number if and only if it is made of digits, with or without a plus sign in
/// front; zeros in front make no difference, and another digit behind makes ten times the number
/// and that digit. Numbers above the limit are none.
pub proof fn law_numbers_are_decimal(text: Seq<char>, digit: nat, max: nat)
    requires
        digit < 10,
    ensures
        parsed_number(text, max) matches Some(number) ==> number <= max,
        parsed_number(seq![digit_char(digit)], max) == if digit <= max {
            Some(digit)
        } else {
            None
        },
        parsed_number(text, max) is None ==> parsed_number(text.push(digit_char(digit)), max)
            is None || text == seq!['+'] || text.len() == 0,
        text.len() > 0 && all_digits(text) ==> parsed_number(seq!['+'] + text, max)
            == parsed_number(text, max),
        text.len() > 0 && all_digits(text) ==> parsed_number(seq!['0'] + text, max)
            == parsed_number(text, max),
        parsed_number(text, max) matches Some(number) ==> parsed_number(
            text.push(digit_char(digit)),
            max,
        ) == if 10 * number + digit <= max {
            Some(10 * number + digit)
        } else {
            None
        },
        parsed_number(text, max) is Some ==> forall|i: int|
            0 <= i < text.len() ==> '0' <= #[trigger] text[i] <= '9' || i == 0 && text[i] == '+',
{
    let ch = digit_char(digit);
    let longer = text.push(ch);
    assert(is_digit(ch) && digit_value(ch) == digit);
    assert(ch != '+');
    assert(seq![ch].drop_last() =~= seq![]);
    reveal_with_fuel(decimal_value, 2);
    let digits = without_sign(text);
    if text.len() > 0 {
        assert(without_sign(longer) =~= digits.push(ch));
        assert(digits.push(ch).drop_last() =~= digits);
        assert(all_digits(digits.push(ch)) ==> all_digits(digits)) by {
            if all_digits(digits.push(ch)) {
                assert forall|i: int| 0 <= i < digits.len() implies is_digit(
                    #[trigger] digits[i],
                ) by {
                    assert(is_digit(digits.push(ch)[i]));
                }
            }
        }
        if digits.len() == 0 {
            assert(text =~= seq!['+']);
        }
    }
    if text.len() > 0 && all_digits(text) {
        assert(is_digit(text[0]));
        assert((seq!['+'] + text).skip(1) =~= text);
        assert(all_digits(seq!['0'] + text));
        lemma_leading_zero(text);
    }
    if parsed_number(text, max) is Some {
        assert forall|i: int| 0 <= i < text.len() implies '0' <= #[trigger] text[i] <= '9' || i == 0
            && text[i] == '+' by {
            if text[0] == '+' {
                if i > 0 {
                    assert(is_digit(digits[i - 1]));
                }
            } else {
                assert(is_digit(digits[i]));
            }
        }
    }
}

/// A zero in front of digits makes no difference.
proof fn lemma_leading_zero(digits: Seq<char>)
    ensures
        decimal_value(seq!['0'] + digits) == decimal_value(digits),
    decreases digits.len(),
{
    let longer = seq!['0'] + digits;
    if digits.len() == 0 {
        assert(longer.drop_last() =~= seq![]);
        reveal_with_fuel(decimal_value, 2);
    } else {
        assert(longer.drop_last() =~= seq!['0'] + digits.drop_last());
        lemma_leading_zero(digits.drop_last());
    }
}

/// A text comes before another if and only if it is the beginning of it, or has a lower character
/// where they first differ.
pub proof fn law_first_difference_decides(left: Seq<char>, right: Seq<char>, same: int)
    requires
        0 <= same <= left.len(),
        same <= right.len(),
        left.take(same) == right.take(same),
        same < left.len() && same < right.len() ==> left[same] != right[same],
    ensures
        text_less(left, right) <==> same < right.len() && (same == left.len() || left[same]
            < right[same]),
    decreases same,
{
    if same > 0 {
        assert(left[0] == left.take(same)[0]);
        assert(right[0] == right.take(same)[0]);
        assert(left.skip(1).take(same - 1) =~= left.take(same).skip(1));
        assert(right.skip(1).take(same - 1) =~= right.take(same).skip(1));
        law_first_difference_decides(left.skip(1), right.skip(1), same - 1);
    }
}

/// What stands at the end of a text ends it.
pub proof fn lemma_ends_with<T>(front: Seq<T>, back: Seq<T>)
    ensures
        back.is_suffix_of(front + back),
{
    let whole = front + back;
    assert(whole.subrange(whole.len() - back.len(), whole.len() as int) =~= back);
}

/// What stands at the beginning of a text begins it.
pub proof fn lemma_starts_with<T>(front: Seq<T>, back: Seq<T>)
    ensures
        front.is_prefix_of(front + back),
{
    let whole = front + back;
    assert(whole.subrange(0, front.len() as int) =~= front);
}

/// Different numbers look different.
pub proof fn law_numbers_look_different(left: nat, right: nat)
    ensures
        decimal(left) == decimal(right) ==> left == right,
{
    lemma_decimal(left);
    lemma_decimal(right);
}

/// Texts are compared by their characters, all of them and in order.
pub proof fn law_texts_are_their_characters(text: String, slice: &str, strings: Seq<String>)
    ensures
        optional_text(Some(text)) == Some(text@),
        optional_text(None) is None,
        optional_slice(Some(slice)) == Some(slice@),
        optional_slice(None) is None,
        texts(strings).len() == strings.len(),
        forall|i: int| 0 <= i < strings.len() ==> #[trigger] texts(strings)[i] == strings[i]@,
{
}

} // verus!
