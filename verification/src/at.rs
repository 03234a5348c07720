//! The grammar of AT commands: what may stand in an argument and what a reply line says.
use crate::error::{ErrorModel, ModemError};
use crate::text::{
    all_white, begins_with, chars_of, joined, law_trimming_undoes_padding, no_white_ends, same_text,
    trim, trimmed,
};
use vstd::prelude::*;
use vstd::string::StrSliceExecFns;

verus! {

/// Whether `c` may not stand in the argument of an AT command: a double quote would end the
/// argument, a line end the command, and a NUL is no text.
pub open spec fn forbidden_in_argument(c: char) -> bool {
    c == '"' || c == '\r' || c == '\n' || c == '\0'
}

/// Whether `value` can be written between the quotes of an AT argument.
pub open spec fn argument_allowed(value: Seq<char>) -> bool {
    forall|i: int| 0 <= i < value.len() ==> !forbidden_in_argument(#[trigger] value[i])
}

/// What is said of an argument that holds a forbidden character.
pub open spec fn bad_argument_message(name: Seq<char>) -> Seq<char> {
    name + " contains a character which cannot be used in an AT command"@
}

/// Accepts `value` as the argument called `name` if it holds no forbidden character.
pub fn validate_at_argument(name: &str, value: &str) -> (result: Result<(), ModemError>)
    ensures
        result is Ok <==> argument_allowed(value@),
        result matches Err(error) ==> error@ == ErrorModel::Configuration(
            bad_argument_message(name@),
        ),
{
    let chars = chars_of(value);
    let mut i: usize = 0;
    while i < chars.len()
        invariant
            i <= chars.len(),
            chars@ == value@,
            forall|k: int| 0 <= k < i ==> !forbidden_in_argument(#[trigger] value@[k]),
        decreases chars.len() - i,
    {
        let c = chars[i];
        if c == '"' || c == '\r' || c == '\n' || c == '\0' {
            assert(forbidden_in_argument(value@[i as int]));
            return Err(
                ModemError::Configuration(
                    joined(name, " contains a character which cannot be used in an AT command"),
                ),
            );
        }
        i += 1;
    }
    Ok(())
}

/// Whether a reply line says that the command failed.
pub open spec fn failure_reply(line: Seq<char>) -> bool {
    ||| line == "ERROR"@
    ||| line == "NO CARRIER"@
    ||| "+CME ERROR"@.is_prefix_of(line)
    ||| "+CMS ERROR"@.is_prefix_of(line)
}

/// Whether a reply line says that the command failed.
pub fn is_at_error(line: &str) -> (yes: bool)
    ensures
        yes == failure_reply(line@),
{
    same_text(line, "ERROR") || same_text(line, "NO CARRIER") || begins_with(line, "+CME ERROR")
        || begins_with(line, "+CMS ERROR")
}

/// The value in the first of `lines` that starts with `prefix`: what follows the prefix, without
/// the white space around it.
pub open spec fn value_of(lines: Seq<Seq<char>>, prefix: Seq<char>) -> Option<Seq<char>>
    decreases lines.len(),
{
    if lines.len() == 0 {
        None
    } else if prefix.is_prefix_of(lines.first()) {
        Some(trimmed(lines.first().skip(prefix.len() as int)))
    } else {
        value_of(lines.drop_first(), prefix)
    }
}

/// The value in the first of `lines` that starts with `prefix`.
pub fn find_value<'a>(lines: &'a [String], prefix: &str) -> (value: Option<&'a str>)
    ensures
        match value {
            Some(text) => value_of(lines.deep_view(), prefix@) == Some(text@),
            None => value_of(lines.deep_view(), prefix@) is None,
        },
{
    let ghost all = lines.deep_view();
    let mut i: usize = 0;
    assert(all.skip(0) == all);
    while i < lines.len()
        invariant
            i <= lines.len(),
            all == lines.deep_view(),
            value_of(all, prefix@) == value_of(all.skip(i as int), prefix@),
        decreases lines.len() - i,
    {
        let line = lines[i].as_str();
        assert(all.skip(i as int).first() == line@);
        if begins_with(line, prefix) {
            let from = prefix.unicode_len();
            let to = line.unicode_len();
            let rest = line.substring_char(from, to);
            assert(rest@ == line@.skip(prefix@.len() as int));
            return Some(trim(rest));
        }
        assert(all.skip(i as int).drop_first() == all.skip(i + 1));
        i += 1;
    }
    None
}

/// The part of `text` before the first comma; all of it if there is none.
pub open spec fn before_comma(text: Seq<char>) -> Seq<char>
    decreases text.len(),
{
    if text.len() == 0 || text.first() == ',' {
        Seq::empty()
    } else {
        seq![text.first()] + before_comma(text.drop_first())
    }
}

/// The part of `text` behind the first comma, if it holds one.
pub open spec fn behind_comma(text: Seq<char>) -> Option<Seq<char>>
    decreases text.len(),
{
    if text.len() == 0 {
        None
    } else if text.first() == ',' {
        Some(text.drop_first())
    } else {
        behind_comma(text.drop_first())
    }
}

/// The field of a comma-separated registration report that holds the status: the second one, or
/// the only one.
pub open spec fn status_field(value: Seq<char>) -> Seq<char> {
    match behind_comma(value) {
        Some(rest) => before_comma(rest),
        None => value,
    }
}

/// Whether `c` is a decimal digit.
pub open spec fn is_digit(c: char) -> bool {
    '0' <= c <= '9'
}

/// The number that a row of decimal digits writes.
pub open spec fn decimal(digits: Seq<char>) -> nat
    decreases digits.len(),
{
    if digits.len() == 0 {
        0
    } else {
        decimal(digits.drop_last()) * 10 + (digits.last() as nat - '0' as nat) as nat
    }
}

/// The digits in `text`: all of it, but for one plus sign in front.
pub open spec fn digits_of(text: Seq<char>) -> Seq<char> {
    if text.len() > 0 && text.first() == '+' {
        text.drop_first()
    } else {
        text
    }
}

/// The value of `text` as an unsigned byte: decimal digits, at least one, with or without a plus
/// sign in front, that write a number of at most 255.
pub open spec fn byte_value(text: Seq<char>) -> Option<u8> {
    let digits = digits_of(text);
    if digits.len() > 0 && (forall|i: int| 0 <= i < digits.len() ==> is_digit(#[trigger] digits[i]))
        && decimal(digits) <= u8::MAX {
        Some(decimal(digits) as u8)
    } else {
        None
    }
}

/// The registration status in the value of a registration report.
pub open spec fn registration_status_of(value: Seq<char>) -> Option<u8> {
    byte_value(trimmed(status_field(value)))
}

/// The status field of a registration report.
fn find_status_field(value: &str) -> (field: &str)
    ensures
        field@ == status_field(value@),
{
    let chars = chars_of(value);
    let ghost text = value@;
    let mut from: usize = 0;
    assert(text.skip(0) == text);
    while from < chars.len() && chars[from] != ','
        invariant
            from <= chars.len(),
            chars@ == text,
            behind_comma(text) == behind_comma(text.skip(from as int)),
        decreases chars.len() - from,
    {
        assert(text.skip(from as int).drop_first() == text.skip(from + 1));
        from += 1;
    }
    if from == chars.len() {
        return value;
    }
    from += 1;
    let ghost rest = text.skip(from as int);
    assert(text.skip(from - 1).drop_first() == rest);
    let mut to: usize = from;
    assert(rest.skip(0) == rest);
    assert(rest.take(0) + before_comma(rest) == before_comma(rest));
    while to < chars.len() && chars[to] != ','
        invariant
            from <= to <= chars.len(),
            chars@ == text,
            rest == text.skip(from as int),
            before_comma(rest) == rest.take(to - from) + before_comma(rest.skip(to - from)),
        decreases chars.len() - to,
    {
        assert(rest.skip(to - from).first() == rest[to - from]);
        assert(rest.skip(to - from).drop_first() == rest.skip(to + 1 - from));
        assert(rest.take(to + 1 - from) == rest.take(to - from) + seq![rest[to - from]]);
        assert(rest.take(to + 1 - from) + before_comma(rest.skip(to + 1 - from)) == rest.take(
            to - from,
        ) + (seq![rest[to - from]] + before_comma(rest.skip(to + 1 - from))));
        to += 1;
    }
    assert(rest.take(to - from) + Seq::<char>::empty() == rest.take(to - from));
    let field = value.substring_char(from, to);
    assert(field@ == rest.take(to - from));
    field
}

/// Digits appended to a number never make it smaller.
proof fn lemma_decimal_grows(digits: Seq<char>, len: int)
    requires
        0 <= len <= digits.len(),
        forall|i: int| 0 <= i < digits.len() ==> is_digit(#[trigger] digits[i]),
    ensures
        decimal(digits.take(len)) <= decimal(digits),
    decreases digits.len(),
{
    if len == digits.len() {
        assert(digits.take(len) == digits);
    } else {
        let shorter = digits.drop_last();
        lemma_decimal_grows(shorter, len);
        assert(shorter.take(len) == digits.take(len));
    }
}

/// The value of `text` as an unsigned byte.
pub fn parse_byte(text: &str) -> (value: Option<u8>)
    ensures
        value == byte_value(text@),
{
    let chars = chars_of(text);
    let start: usize = if chars.len() > 0 && chars[0] == '+' {
        1
    } else {
        0
    };
    let ghost digits = digits_of(text@);
    assert(digits == text@.skip(start as int));
    if start == chars.len() {
        return None;
    }
    let mut value: u16 = 0;
    let mut i: usize = start;
    while i < chars.len()
        invariant
            start <= i <= chars.len(),
            chars@ == text@,
            digits == digits_of(text@),
            digits == text@.skip(start as int),
            value <= u8::MAX,
            value == decimal(digits.take(i - start)),
            forall|k: int| 0 <= k < i - start ==> is_digit(#[trigger] digits[k]),
        decreases chars.len() - i,
    {
        let c = chars[i];
        assert(digits[i - start] == c);
        if c < '0' || c > '9' {
            return None;
        }
        assert(digits.take(i + 1 - start).drop_last() == digits.take(i - start));
        let digit: u16 = c as u16 - '0' as u16;
        value = value * 10 + digit;
        assert(value == decimal(digits.take(i + 1 - start)));
        if value > 255 {
            proof {
                if forall|k: int| 0 <= k < digits.len() ==> is_digit(#[trigger] digits[k]) {
                    lemma_decimal_grows(digits, i + 1 - start);
                }
            }
            return None;
        }
        i += 1;
    }
    assert(digits.take(digits.len() as int) == digits);
    Some(value as u8)
}

/// The registration status in the value of a registration report, such as `0,1` or `5`.
pub fn registration_status(value: &str) -> (status: Option<u8>)
    ensures
        status == registration_status_of(value@),
{
    parse_byte(trim(find_status_field(value)))
}

/// An argument is allowed just if it holds no double quote, no line end and no NUL.
pub proof fn law_an_argument_holds_no_quote_and_no_line_end(value: Seq<char>)
    ensures
        argument_allowed(value) <==> !value.contains('"') && !value.contains('\r')
            && !value.contains('\n') && !value.contains('\0'),
{
    if argument_allowed(value) {
        assert forall|i: int| 0 <= i < value.len() implies value[i] != '"' && value[i] != '\r'
            && value[i] != '\n' && value[i] != '\0' by {
            assert(!forbidden_in_argument(value[i]));
        }
    } else {
        let i = choose|i: int|
            0 <= i < value.len() && forbidden_in_argument(#[trigger] value[i]);
        assert(value.contains(value[i]));
    }
}

/// A bad argument is told of by its name.
pub proof fn law_a_bad_argument_is_told_by_name(name: Seq<char>)
    ensures
        bad_argument_message(name) == name
            + " contains a character which cannot be used in an AT command"@,
{
}

/// The value under a prefix is that of the first line which begins with it: what stands behind the
/// prefix, whatever white space is around it. The lines before and behind make no difference.
pub proof fn law_the_first_line_has_the_value(
    before: Seq<Seq<char>>,
    prefix: Seq<char>,
    lead: Seq<char>,
    core: Seq<char>,
    tail: Seq<char>,
    behind: Seq<Seq<char>>,
)
    requires
        forall|i: int| 0 <= i < before.len() ==> !prefix.is_prefix_of(#[trigger] before[i]),
        all_white(lead),
        all_white(tail),
        no_white_ends(core),
    ensures
        value_of(before + seq![prefix + (lead + core + tail)] + behind, prefix) == Some(core),
    decreases before.len(),
{
    let line = prefix + (lead + core + tail);
    let lines = before + seq![line] + behind;
    if before.len() == 0 {
        assert(lines.first() == line);
        assert(line.subrange(0, prefix.len() as int) =~= prefix);
        assert(line.skip(prefix.len() as int) =~= lead + core + tail);
        law_trimming_undoes_padding(lead, core, tail);
    } else {
        assert(lines.first() == before[0]);
        assert(lines.drop_first() =~= before.drop_first() + seq![line] + behind);
        assert forall|i: int| 0 <= i < before.drop_first().len() implies !prefix.is_prefix_of(
            #[trigger] before.drop_first()[i],
        ) by {
            assert(before.drop_first()[i] == before[i + 1]);
        }
        law_the_first_line_has_the_value(before.drop_first(), prefix, lead, core, tail, behind);
    }
}

/// Lines of which none begins with a prefix have no value under it.
pub proof fn law_lines_without_the_prefix_have_no_value(lines: Seq<Seq<char>>, prefix: Seq<char>)
    requires
        forall|i: int| 0 <= i < lines.len() ==> !prefix.is_prefix_of(#[trigger] lines[i]),
    ensures
        value_of(lines, prefix) is None,
    decreases lines.len(),
{
    if lines.len() > 0 {
        assert(lines.first() == lines[0]);
        assert forall|i: int| 0 <= i < lines.drop_first().len() implies !prefix.is_prefix_of(
            #[trigger] lines.drop_first()[i],
        ) by {
            assert(lines.drop_first()[i] == lines[i + 1]);
        }
        law_lines_without_the_prefix_have_no_value(lines.drop_first(), prefix);
    }
}

proof fn lemma_behind_comma(first: Seq<char>, rest: Seq<char>)
    requires
        !first.contains(','),
    ensures
        behind_comma(first) is None,
        behind_comma(first + seq![','] + rest) == Some(rest),
        before_comma(first) == first,
        before_comma(first + seq![','] + rest) == first,
    decreases first.len(),
{
    let all = first + seq![','] + rest;
    if first.len() == 0 {
        assert(all.first() == ',');
        assert(all.drop_first() =~= rest);
        assert(first =~= Seq::<char>::empty());
    } else {
        assert(first[0] != ',');
        assert(all.first() == first[0]);
        assert(all.drop_first() =~= first.drop_first() + seq![','] + rest);
        assert(!first.drop_first().contains(',')) by {
            if first.drop_first().contains(',') {
                let i = choose|i: int|
                    0 <= i < first.drop_first().len() && first.drop_first()[i] == ',';
                assert(first[i + 1] == ',');
            }
        }
        lemma_behind_comma(first.drop_first(), rest);
        assert(seq![first.first()] + first.drop_first() =~= first);
    }
}

/// The registration status is the second of the fields between commas, or the only one, with white
/// space around it or without; what comes in further fields makes no difference.
pub proof fn law_the_status_is_the_second_field(
    first: Seq<char>,
    lead: Seq<char>,
    core: Seq<char>,
    tail: Seq<char>,
    rest: Seq<char>,
)
    requires
        !first.contains(','),
        !(lead + core + tail).contains(','),
        all_white(lead),
        all_white(tail),
        no_white_ends(core),
    ensures
        registration_status_of(lead + core + tail) == byte_value(core),
        registration_status_of(first + seq![','] + (lead + core + tail)) == byte_value(core),
        registration_status_of(first + seq![','] + (lead + core + tail + seq![','] + rest))
            == byte_value(core),
{
    let field = lead + core + tail;
    law_trimming_undoes_padding(lead, core, tail);
    lemma_behind_comma(field, rest);
    lemma_behind_comma(first, field);
    lemma_behind_comma(first, field + seq![','] + rest);
}

/// Whether `text` is a row of decimal digits.
pub open spec fn all_digits(text: Seq<char>) -> bool {
    forall|i: int| 0 <= i < text.len() ==> '0' <= #[trigger] text[i] <= '9'
}

/// Numbers are read as they are written: a digit is its number, one more digit makes ten times the
/// number and the digit, a plus sign in front makes no difference, and what is over 255 is no byte.
pub proof fn law_bytes_are_read_in_decimal(text: Seq<char>, c: char)
    requires
        all_digits(text),
        '0' <= c <= '9',
    ensures
        byte_value(seq![c]) == Some((c as u32 - 48) as u8),
        text.len() > 0 ==> byte_value(text.push(c)) == match byte_value(text) {
            Some(number) => if number * 10 + (c as u32 - 48) <= 255 {
                Some((number * 10 + (c as u32 - 48)) as u8)
            } else {
                None
            },
            None => None,
        },
        byte_value(seq!['+'] + text) == byte_value(text),
{
    vstd::utf8::char_u32_cast(c, c as u32);
    assert forall|i: int| 0 <= i < text.len() implies is_digit(#[trigger] text[i]) by {}
    let one = seq![c];
    assert(one.drop_last() =~= Seq::<char>::empty());
    assert(decimal(one) == decimal(one.drop_last()) * 10 + (c as nat - '0' as nat) as nat);
    assert(digits_of(one) == one);
    assert forall|i: int| 0 <= i < one.len() implies is_digit(#[trigger] one[i]) by {}
    let more = text.push(c);
    assert(more.drop_last() =~= text);
    assert forall|i: int| 0 <= i < more.len() implies is_digit(#[trigger] more[i]) by {
        if i < text.len() {
            assert(more[i] == text[i]);
        }
    }
    if text.len() > 0 {
        assert(text[0] != '+');
        assert(more[0] == text[0]);
        assert(digits_of(text) == text);
        assert(digits_of(more) == more);
    }
    let signed = seq!['+'] + text;
    assert(signed.drop_first() =~= text);
    assert(digits_of(signed) == text);
}

/// Nothing but digits, with or without one plus sign in front, is a number.
pub proof fn law_only_digits_are_a_number(text: Seq<char>)
    ensures
        byte_value(text) is Some ==> {
            &&& all_digits(text) || text.len() > 1 && text[0] == '+' && all_digits(
                text.drop_first(),
            )
            &&& text.len() > 0
        },
{
    let digits = digits_of(text);
    if byte_value(text) is Some {
        assert forall|i: int| 0 <= i < digits.len() implies '0' <= #[trigger] digits[i] <= '9' by {
            assert(is_digit(digits[i]));
        }
    }
}

} // verus!
