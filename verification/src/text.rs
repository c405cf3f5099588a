//! Identifiers as text: how they are read and how they are written.

use crate::digit::{all_digits, digit_char, digit_chars, digit_str, digit_value, to_digit, Digit};
use crate::error::{agrees, Reason, ValidationError};
use vstd::prelude::*;
use vstd::string::*;

verus! {

/// Whether `c` has Unicode's `White_Space` property: the controls from the
/// tab to the carriage return, the next-line control, the spaces of every
/// width, and the line and paragraph separators.
pub open spec fn is_white_space(c: char) -> bool {
    ||| '\u{9}' <= c <= '\u{d}'
    ||| c == ' '
    ||| c == '\u{85}'
    ||| c == '\u{a0}'
    ||| c == '\u{1680}'
    ||| '\u{2000}' <= c <= '\u{200a}'
    ||| c == '\u{2028}'
    ||| c == '\u{2029}'
    ||| c == '\u{202f}'
    ||| c == '\u{205f}'
    ||| c == '\u{3000}'
}

/// `char::is_whitespace` tells whether a character has the `White_Space`
/// property of the Unicode Character Database. Its documentation names the
/// property and does not list it; the code points are those of the database.
pub assume_specification[ char::is_whitespace ](c: char) -> (b: bool)
    ensures
        b == is_white_space(c),
;

/// What one character means where an identifier is read.
#[derive(Clone, Copy, Debug, PartialEq, Eq, Structural)]
pub enum Glyph {
    /// One of `0` to `9`, with its value.
    Digit(Digit),
    /// Whitespace, which is passed over.
    Space,
    /// Anything else: it has no place in an identifier.
    Stray,
}

/// The meaning of `c`.
pub open spec fn glyph_of(c: char) -> Glyph {
    match digit_value(c) {
        Some(d) => Glyph::Digit(d),
        None => if is_white_space(c) {
            Glyph::Space
        } else {
            Glyph::Stray
        },
    }
}

/// Whether `c` is neither a digit nor whitespace.
pub open spec fn is_stray(c: char) -> bool {
    glyph_of(c) == Glyph::Stray
}

/// Whether some character of `text` is neither a digit nor whitespace.
pub open spec fn has_stray(text: Seq<char>) -> bool {
    exists|i: int| 0 <= i < text.len() && is_stray(#[trigger] text[i])
}

/// The digits that `text` holds, in the order in which it holds them.
pub open spec fn digits_in(text: Seq<char>) -> Seq<Digit>
    decreases text.len(),
{
    if text.len() == 0 {
        Seq::empty()
    } else {
        match digit_value(text.last()) {
            Some(d) => digits_in(text.drop_last()).push(d),
            None => digits_in(text.drop_last()),
        }
    }
}

/// The ten digits that `text` spells. Whitespace may stand anywhere in it;
/// any other character that is no digit spoils it, however many digits
/// there are.
pub open spec fn scan(text: Seq<char>) -> Result<Seq<Digit>, Reason> {
    if has_stray(text) {
        Err(Reason::Format)
    } else if digits_in(text).len() != 10 {
        Err(Reason::Length)
    } else {
        Ok(digits_in(text))
    }
}

/// Tells what one character means.
pub fn glyph(c: char) -> (g: Glyph)
    ensures
        g == glyph_of(c),
{
    match to_digit(c) {
        Some(d) => Glyph::Digit(d),
        None => if c.is_whitespace() {
            Glyph::Space
        } else {
            Glyph::Stray
        },
    }
}

/// One character that is neither a digit nor whitespace spoils a text,
/// wherever it stands and whatever stands around it.
pub proof fn lemma_scan_refuses_stray(text: Seq<char>, at: int)
    requires
        0 <= at < text.len(),
        is_stray(text[at]),
    ensures
        scan(text) == Err::<Seq<Digit>, Reason>(Reason::Format),
{
}

/// Every digit found in a text is a decimal digit.
pub proof fn lemma_digits_in_are_digits(text: Seq<char>)
    ensures
        all_digits(digits_in(text)),
    decreases text.len(),
{
    if text.len() > 0 {
        lemma_digits_in_are_digits(text.drop_last());
    }
}

/// The digits of two texts set end to end are the digits of the first
/// followed by those of the second.
pub proof fn lemma_digits_in_concat(a: Seq<char>, b: Seq<char>)
    ensures
        digits_in(a + b) == digits_in(a) + digits_in(b),
    decreases b.len(),
{
    if b.len() == 0 {
        assert(a + b =~= a);
        assert(digits_in(a) + digits_in(b) =~= digits_in(a));
    } else {
        assert((a + b).drop_last() =~= a + b.drop_last());
        assert((a + b).last() == b.last());
        lemma_digits_in_concat(a, b.drop_last());
        match digit_value(b.last()) {
            Some(d) => {
                assert(digits_in(a) + digits_in(b.drop_last()).push(d) =~= (digits_in(a)
                    + digits_in(b.drop_last())).push(d));
            },
            None => {},
        }
    }
}

/// Two texts set end to end hold a stray character exactly when one of them
/// does.
pub proof fn lemma_has_stray_concat(a: Seq<char>, b: Seq<char>)
    ensures
        has_stray(a + b) <==> has_stray(a) || has_stray(b),
{
    let ab = a + b;
    if has_stray(a) {
        let i = choose|i: int| 0 <= i < a.len() && is_stray(#[trigger] a[i]);
        assert(ab[i] == a[i]);
    }
    if has_stray(b) {
        let i = choose|i: int| 0 <= i < b.len() && is_stray(#[trigger] b[i]);
        assert(ab[a.len() + i] == b[i]);
    }
    if has_stray(ab) {
        let i = choose|i: int| 0 <= i < ab.len() && is_stray(#[trigger] ab[i]);
        if i < a.len() {
            assert(a[i] == ab[i]);
        } else {
            assert(b[i - a.len()] == ab[i]);
        }
    }
}

/// Whitespace is passed over wherever it stands: a text reads the same with
/// and without a whitespace character between two of its parts.
pub proof fn lemma_scan_passes_over_space(a: Seq<char>, c: char, b: Seq<char>)
    requires
        glyph_of(c) == Glyph::Space,
    ensures
        scan(a + seq![c] + b) == scan(a + b),
{
    let gap = seq![c];
    assert(!has_stray(gap)) by {
        assert forall|i: int| 0 <= i < gap.len() implies !is_stray(#[trigger] gap[i]) by {}
    }
    assert(digits_in(gap) =~= Seq::<Digit>::empty()) by {
        assert(gap.drop_last() =~= Seq::<char>::empty());
        assert(digits_in(Seq::<char>::empty()) =~= Seq::<Digit>::empty());
    }
    lemma_has_stray_concat(a, gap);
    lemma_has_stray_concat(a + gap, b);
    lemma_has_stray_concat(a, b);
    lemma_digits_in_concat(a, gap);
    lemma_digits_in_concat(a + gap, b);
    lemma_digits_in_concat(a, b);
    assert(digits_in(a) + Seq::<Digit>::empty() =~= digits_in(a));
}

/// The characters that write a run of digits read as those digits, and hold
/// nothing else.
pub proof fn lemma_digits_in_digit_chars(digits: Seq<Digit>)
    requires
        all_digits(digits),
    ensures
        digits_in(digit_chars(digits)) == digits,
        !has_stray(digit_chars(digits)),
    decreases digits.len(),
{
    let text = digit_chars(digits);
    if digits.len() == 0 {
        assert(digits_in(text) =~= digits);
    } else {
        let front = digits.drop_last();
        lemma_digits_in_digit_chars(front);
        assert(text.drop_last() =~= digit_chars(front));
        assert(digit_value(text.last()) == Some(digits.last()));
        assert(front.push(digits.last()) =~= digits);
    }
    assert forall|i: int| 0 <= i < text.len() implies !is_stray(#[trigger] text[i]) by {
        assert(digit_value(text[i]) == Some(digits[i]));
    }
}

/// Reading what was written gives the digits back, in either layout.
pub proof fn lemma_scan_written(id: Seq<Digit>, format: Format)
    requires
        id.len() == 10,
        all_digits(id),
    ensures
        scan(written(id, format)) == Ok::<Seq<Digit>, Reason>(id),
{
    match format {
        Format::Compact => {
            lemma_digits_in_digit_chars(id);
        },
        Format::Official => {
            let a = digit_chars(id.subrange(0, 3));
            let b = digit_chars(id.subrange(3, 6));
            let c = digit_chars(id.subrange(6, 10));
            lemma_digits_in_digit_chars(id.subrange(0, 3));
            lemma_digits_in_digit_chars(id.subrange(3, 6));
            lemma_digits_in_digit_chars(id.subrange(6, 10));
            lemma_scan_passes_over_space(a, ' ', b + c);
            lemma_scan_passes_over_space(a + seq![' '] + b, ' ', c);
            lemma_has_stray_concat(a, b + c);
            lemma_has_stray_concat(b, c);
            lemma_digits_in_concat(a, b + c);
            lemma_digits_in_concat(b, c);
            assert(a + seq![' '] + (b + c) =~= a + seq![' '] + b + c);
            assert(a + (b + c) =~= a + b + c);
            assert(id.subrange(0, 3) + (id.subrange(3, 6) + id.subrange(6, 10)) =~= id);
        },
    }
}

/// Reads the ten digits of an identifier from its text.
pub fn read_digits(s: &str) -> (r: Result<[Digit; 10], ValidationError>)
    ensures
        agrees(r, scan(s@)),
        r matches Ok(digits) ==> all_digits(digits@),
{
    let mut found: Vec<Digit> = Vec::new();
    for c in it: s.chars()
        invariant
            it.seq() == s@,
            found@ == digits_in(s@.take(it.index())),
            !has_stray(s@.take(it.index())),
    {
        let ghost before = s@.take(it.index());
        let ghost after = s@.take(it.index() + 1);
        proof {
            assert(after.drop_last() =~= before);
            assert(after.last() == c);
        }
        match glyph(c) {
            Glyph::Digit(d) => {
                found.push(d);
            },
            Glyph::Space => {},
            Glyph::Stray => {
                proof {
                    assert(is_stray(s@[it.index()]));
                }
                return Err(ValidationError::because(Reason::Format));
            },
        }
        proof {
            assert forall|i: int| 0 <= i < after.len() implies !is_stray(#[trigger] after[i]) by {
                if i < before.len() {
                    assert(before[i] == after[i]);
                }
            }
        }
    }
    proof {
        assert(s@.take(s@.len() as int) =~= s@);
        lemma_digits_in_are_digits(s@);
    }
    if found.len() != 10 {
        return Err(ValidationError::because(Reason::Length));
    }
    let mut digits: [Digit; 10] = [0;10];
    let mut idx: usize = 0;
    while idx < 10
        invariant
            idx <= 10,
            found@.len() == 10,
            forall|i: int| 0 <= i < idx ==> digits[i] == found@[i],
        decreases 10 - idx,
    {
        digits[idx] = found[idx];
        idx = idx + 1;
    }
    assert(digits@ =~= found@);
    Ok(digits)
}

/// How an identifier is laid out when it is written.
#[derive(Clone, Copy, Debug, PartialEq, Eq, Structural)]
pub enum Format {
    /// The ten digits and nothing between them.
    Compact,
    /// Three digits, three digits and four, with a space after each of the
    /// first two groups.
    Official,
}

/// The text of the ten digits `id` in the given layout.
pub open spec fn written(id: Seq<Digit>, format: Format) -> Seq<char> {
    match format {
        Format::Compact => digit_chars(id),
        Format::Official => digit_chars(id.subrange(0, 3)) + seq![' '] + digit_chars(
            id.subrange(3, 6),
        ) + seq![' '] + digit_chars(id.subrange(6, 10)),
    }
}

/// Writes nine digits and their check digit in the given layout.
pub fn write_digits(digits: &[Digit; 9], checkdigit: Digit, format: Format) -> (s: String)
    requires
        all_digits(digits@),
        checkdigit <= 9,
    ensures
        s@ == written(digits@.push(checkdigit), format),
{
    proof {
        reveal_strlit(" ");
    }
    let gap: &str = match format {
        Format::Compact => "",
        Format::Official => " ",
    };
    let mut s = String::new();
    s.append(digit_str(digits[0]));
    s.append(digit_str(digits[1]));
    s.append(digit_str(digits[2]));
    s.append(gap);
    s.append(digit_str(digits[3]));
    s.append(digit_str(digits[4]));
    s.append(digit_str(digits[5]));
    s.append(gap);
    s.append(digit_str(digits[6]));
    s.append(digit_str(digits[7]));
    s.append(digit_str(digits[8]));
    s.append(digit_str(checkdigit));
    proof {
        reveal_strlit("");
        let id = digits@.push(checkdigit);
        assert(s@ =~= written(id, format));
    }
    s
}

} // verus!
