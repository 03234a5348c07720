//! Text of a command line: comparing, trimming and joining.
use vstd::prelude::*;
use vstd::string::{StrSliceExecFns, StringExecFns};
use vstd::utf8::{encode_scalar, encode_utf8};

verus! {

/// Whether `c` has the Unicode property `White_Space`.
pub open spec fn white_space(c: char) -> bool {
    ||| '\u{9}' <= c <= '\u{d}'
    ||| c == ' '
    ||| c == '\u{85}'
    ||| c == '\u{a0}'
    ||| c == '\u{1680}'
    ||| '\u{2000}' <= c <= '\u{200a}'
    ||| c == '\u{2028}'
    ||| c == '\u{2029}'
    ||| c == '\u{202f}'
    ||| c == '\u{205f}'
    ||| c == '\u{3000}'
}

/// `text` without the white space at its start.
pub open spec fn trimmed_start(text: Seq<char>) -> Seq<char>
    decreases text.len(),
{
    if text.len() > 0 && white_space(text.first()) {
        trimmed_start(text.drop_first())
    } else {
        text
    }
}

/// `text` without the white space at its end.
pub open spec fn trimmed_end(text: Seq<char>) -> Seq<char>
    decreases text.len(),
{
    if text.len() > 0 && white_space(text.last()) {
        trimmed_end(text.drop_last())
    } else {
        text
    }
}

/// `text` without the white space at its two ends.
pub open spec fn trimmed(text: Seq<char>) -> Seq<char> {
    trimmed_end(trimmed_start(text))
}

/// Whether `c` is white space.
pub fn is_white_space(c: char) -> (yes: bool)
    ensures
        yes == white_space(c),
{
    ('\u{9}' <= c && c <= '\u{d}') || c == ' ' || c == '\u{85}' || c == '\u{a0}' || c == '\u{1680}'
        || ('\u{2000}' <= c && c <= '\u{200a}') || c == '\u{2028}' || c == '\u{2029}' || c
        == '\u{202f}' || c == '\u{205f}' || c == '\u{3000}'
}

/// The characters of `text`, in order.
pub fn chars_of(text: &str) -> (chars: Vec<char>)
    ensures
        chars@ == text@,
{
    let mut chars: Vec<char> = Vec::new();
    for c in iter: text.chars()
        invariant
            chars@ == text@.take(iter.index()),
            iter.seq() == text@,
    {
        chars.push(c);
        assert(text@.take(iter.index() + 1) == text@.take(iter.index()).push(c));
    }
    assert(text@.take(text@.len() as int) == text@);
    chars
}

/// Whether two texts hold the same characters.
pub fn same_text(a: &str, b: &str) -> (same: bool)
    ensures
        same == (a@ == b@),
{
    let left = chars_of(a);
    let right = chars_of(b);
    if left.len() != right.len() {
        return false;
    }
    let mut i: usize = 0;
    while i < left.len()
        invariant
            i <= left.len(),
            left@ == a@,
            right@ == b@,
            left@.len() == right@.len(),
            forall|k: int| 0 <= k < i ==> left@[k] == right@[k],
        decreases left.len() - i,
    {
        if left[i] != right[i] {
            assert(left@[i as int] != right@[i as int]);
            return false;
        }
        i += 1;
    }
    assert(left@ =~= right@);
    true
}

/// Whether `text` starts with `prefix`.
pub fn begins_with(text: &str, prefix: &str) -> (yes: bool)
    ensures
        yes == prefix@.is_prefix_of(text@),
{
    let whole = chars_of(text);
    let start = chars_of(prefix);
    if start.len() > whole.len() {
        return false;
    }
    let mut i: usize = 0;
    while i < start.len()
        invariant
            i <= start.len() <= whole.len(),
            start@ == prefix@,
            whole@ == text@,
            forall|k: int| 0 <= k < i ==> start@[k] == whole@[k],
        decreases start.len() - i,
    {
        if start[i] != whole[i] {
            assert(text@.subrange(0, prefix@.len() as int)[i as int] != prefix@[i as int]);
            return false;
        }
        i += 1;
    }
    assert(text@.subrange(0, prefix@.len() as int) =~= prefix@);
    true
}

/// `text` without the white space at its two ends.
pub fn trim(text: &str) -> (core: &str)
    ensures
        core@ == trimmed(text@),
{
    let chars = chars_of(text);
    let mut from: usize = 0;
    assert(text@.skip(0) == text@);
    while from < chars.len() && is_white_space(chars[from])
        invariant
            from <= chars.len(),
            chars@ == text@,
            trimmed_start(text@) == trimmed_start(text@.skip(from as int)),
        decreases chars.len() - from,
    {
        assert(text@.skip(from as int).drop_first() == text@.skip(from + 1));
        from += 1;
    }
    let ghost tail = text@.skip(from as int);
    assert(trimmed_start(text@) == tail);
    let mut to: usize = chars.len();
    assert(tail.take(to - from) == tail);
    while to > from && is_white_space(chars[to - 1])
        invariant
            from <= to <= chars.len(),
            chars@ == text@,
            tail == text@.skip(from as int),
            trimmed_end(tail) == trimmed_end(tail.take(to - from)),
        decreases to,
    {
        assert(tail.take(to - from).last() == chars@[to - 1]);
        assert(tail.take(to - from).drop_last() == tail.take(to - 1 - from));
        to -= 1;
    }
    assert(to > from ==> tail.take(to - from).last() == chars@[to - 1]);
    let core = text.substring_char(from, to);
    assert(core@ == tail.take(to - from));
    core
}

/// What `String::from_utf8_lossy` makes of some bytes.
pub uninterp spec fn lossy_text(bytes: Seq<u8>) -> Seq<char>;

/// `String::from_utf8_lossy`, as a text of its own: the characters that the bytes encode where they
/// are valid UTF-8. What stands in for the parts that are not is left to the name.
#[verifier::external_body]
fn decode_lossy(bytes: &[u8]) -> (text: String)
    ensures
        text@ == lossy_text(bytes@),
        vstd::utf8::valid_utf8(bytes@) ==> text@ == vstd::utf8::decode_utf8(bytes@),
{
    String::from_utf8_lossy(bytes).into_owned()
}

/// The text of a line: what its bytes say, without the white space around it.
pub open spec fn line_text(line: Seq<u8>) -> Seq<char> {
    trimmed(lossy_text(line))
}

/// The text of a line. Of bytes that are valid UTF-8 it is the characters that they encode, without
/// the white space around them.
pub fn text_of_line(line: &[u8]) -> (text: String)
    ensures
        text@ == line_text(line@),
        vstd::utf8::valid_utf8(line@) ==> text@ == trimmed(vstd::utf8::decode_utf8(line@)),
{
    let whole = decode_lossy(line);
    trim(whole.as_str()).to_owned()
}

/// An ASCII byte in the encoding of a character is that character.
proof fn lemma_ascii_byte_of_char(c: char, at: int)
    requires
        0 <= at < encode_scalar(c as u32).len(),
        encode_scalar(c as u32)[at] < 0x80,
    ensures
        c == encode_scalar(c as u32)[at] as char,
{
    vstd::utf8::char_u32_cast(c, c as u32);
    let scalar = c as u32;
    assert(scalar <= 0x7f ==> (scalar & 0x7f) as u8 == scalar) by (bit_vector);
    assert(0xc0u8 | ((scalar >> 6) & 0x1f) as u8 >= 0x80) by (bit_vector);
    assert(0xe0u8 | ((scalar >> 12) & 0x0f) as u8 >= 0x80) by (bit_vector);
    assert(0xf0u8 | ((scalar >> 18) & 0x7) as u8 >= 0x80) by (bit_vector);
    assert(0x80u8 | (scalar & 0x3f) as u8 >= 0x80) by (bit_vector);
    assert(0x80u8 | ((scalar >> 6) & 0x3f) as u8 >= 0x80) by (bit_vector);
    assert(0x80u8 | ((scalar >> 12) & 0x3f) as u8 >= 0x80) by (bit_vector);
}

/// An ASCII byte in the encoding of a text is a character of the text.
pub proof fn lemma_ascii_byte_of_text(text: Seq<char>, at: int)
    requires
        0 <= at < encode_utf8(text).len(),
        encode_utf8(text)[at] < 0x80,
    ensures
        text.contains(encode_utf8(text)[at] as char),
    decreases text.len(),
{
    let byte = encode_utf8(text)[at];
    let first = encode_scalar(text[0] as u32);
    assert(text.len() > 0);
    assert(encode_utf8(text) == first + encode_utf8(text.drop_first()));
    if at < first.len() {
        assert(byte == first[at]);
        lemma_ascii_byte_of_char(text[0], at);
        assert(text[0] == byte as char);
    } else {
        let rest = text.drop_first();
        lemma_ascii_byte_of_text(rest, at - first.len());
        let k = choose|k: int| 0 <= k < rest.len() && rest[k] == byte as char;
        assert(text[k + 1] == byte as char);
    }
}

/// Two texts in a row.
pub fn joined(head: &str, tail: &str) -> (whole: String)
    ensures
        whole@ == head@ + tail@,
{
    let mut whole = String::new();
    whole.append(head);
    whole.append(tail);
    whole
}

/// Whether every character of `text` is white space.
pub open spec fn all_white(text: Seq<char>) -> bool {
    forall|i: int| 0 <= i < text.len() ==> white_space(#[trigger] text[i])
}

/// Whether `text` neither begins nor ends with white space.
pub open spec fn no_white_ends(text: Seq<char>) -> bool {
    text.len() > 0 ==> !white_space(text.first()) && !white_space(text.last())
}

proof fn lemma_trimmed_start(lead: Seq<char>, rest: Seq<char>)
    requires
        all_white(lead),
    ensures
        trimmed_start(lead + rest) == trimmed_start(rest),
    decreases lead.len(),
{
    if lead.len() == 0 {
        assert(lead + rest =~= rest);
    } else {
        assert((lead + rest).first() == lead[0]);
        assert((lead + rest).drop_first() =~= lead.drop_first() + rest);
        assert(all_white(lead.drop_first())) by {
            assert forall|i: int| 0 <= i < lead.drop_first().len() implies white_space(
                #[trigger] lead.drop_first()[i],
            ) by {
                assert(lead.drop_first()[i] == lead[i + 1]);
            }
        }
        lemma_trimmed_start(lead.drop_first(), rest);
    }
}

proof fn lemma_trimmed_end(rest: Seq<char>, tail: Seq<char>)
    requires
        all_white(tail),
    ensures
        trimmed_end(rest + tail) == trimmed_end(rest),
    decreases tail.len(),
{
    if tail.len() == 0 {
        assert(rest + tail =~= rest);
    } else {
        assert((rest + tail).last() == tail[tail.len() - 1]);
        assert((rest + tail).drop_last() =~= rest + tail.drop_last());
        assert(all_white(tail.drop_last())) by {
            assert forall|i: int| 0 <= i < tail.drop_last().len() implies white_space(
                #[trigger] tail.drop_last()[i],
            ) by {
                assert(tail.drop_last()[i] == tail[i]);
            }
        }
        lemma_trimmed_end(rest, tail.drop_last());
    }
}

/// Trimming takes away the white space around a text, all of it and nothing else: whatever white
/// space is put around a text that has none at its ends, the text is what comes out.
pub proof fn law_trimming_undoes_padding(lead: Seq<char>, core: Seq<char>, tail: Seq<char>)
    requires
        all_white(lead),
        all_white(tail),
        no_white_ends(core),
    ensures
        trimmed(lead + core + tail) == core,
{
    assert(lead + core + tail =~= lead + (core + tail));
    lemma_trimmed_start(lead, core + tail);
    if core.len() > 0 {
        assert((core + tail).first() == core.first());
        lemma_trimmed_end(core, tail);
    } else {
        assert(core + tail =~= tail + Seq::<char>::empty());
        lemma_trimmed_start(tail, Seq::empty());
        assert(core =~= Seq::<char>::empty());
    }
}

/// The text of a line is what its bytes say, less the white space around it.
pub proof fn law_the_text_of_a_line_has_no_padding(
    line: Seq<u8>,
    lead: Seq<char>,
    core: Seq<char>,
    tail: Seq<char>,
)
    requires
        lossy_text(line) == lead + core + tail,
        all_white(lead),
        all_white(tail),
        no_white_ends(core),
    ensures
        line_text(line) == core,
{
    law_trimming_undoes_padding(lead, core, tail);
}

/// White space is the tabulator and the line ends up to the carriage return, the space, the next
/// line, the no-break space, and the spaces and separators further on; no letter, digit or mark.
pub proof fn law_white_space_is_what_unicode_calls_so(c: char)
    ensures
        white_space(c) <==> {
            ||| 9 <= c as u32 <= 13
            ||| c as u32 == 32
            ||| c as u32 == 133
            ||| c as u32 == 160
            ||| c as u32 == 5760
            ||| 8192 <= c as u32 <= 8202
            ||| c as u32 == 8232
            ||| c as u32 == 8233
            ||| c as u32 == 8239
            ||| c as u32 == 8287
            ||| c as u32 == 12288
        },
{
    vstd::utf8::char_u32_cast(c, c as u32);
}

} // verus!
