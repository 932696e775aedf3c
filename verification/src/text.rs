//! Text as sequences of characters: numerals and alignment.
use vstd::prelude::*;

verus! {

/// The character of a digit.
pub open spec fn digit(value: int) -> char {
    if value == 0 {
        '0'
    } else if value == 1 {
        '1'
    } else if value == 2 {
        '2'
    } else if value == 3 {
        '3'
    } else if value == 4 {
        '4'
    } else if value == 5 {
        '5'
    } else if value == 6 {
        '6'
    } else if value == 7 {
        '7'
    } else if value == 8 {
        '8'
    } else {
        '9'
    }
}

/// A number written in decimal, without leading zeros.
pub open spec fn decimal_text(value: nat) -> Seq<char>
    decreases value,
{
    if value < 10 {
        seq![digit(value as int)]
    } else {
        decimal_text(value / 10).push(digit((value % 10) as int))
    }
}

/// A number written in decimal, with a minus sign in front where it is
/// negative.
pub open spec fn signed_text(value: int) -> Seq<char> {
    if value < 0 {
        seq!['-'] + decimal_text((-value) as nat)
    } else {
        decimal_text(value as nat)
    }
}

/// A number written in binary, without leading zeros.
pub open spec fn binary_text(value: nat) -> Seq<char>
    decreases value,
{
    if value < 2 {
        seq![digit(value as int)]
    } else {
        binary_text(value / 2).push(digit((value % 2) as int))
    }
}

/// `count` copies of one character; none where `count` is not positive.
pub open spec fn filled(fill: char, count: int) -> Seq<char> {
    Seq::new(
        if count > 0 {
            count as nat
        } else {
            0
        },
        |i: int| fill,
    )
}

/// A text moved to the right end of a field: filled up on the left to
/// `width` characters. A text that is longer than the field stays whole.
pub open spec fn right_aligned(text: Seq<char>, width: int, fill: char) -> Seq<char> {
    filled(fill, width - text.len()) + text
}

/// A text at the left end of a field: filled up on the right to `width`
/// characters. A text that is longer than the field stays whole.
pub open spec fn left_aligned(text: Seq<char>, width: int, fill: char) -> Seq<char> {
    text + filled(fill, width - text.len())
}

/// Whether a character is white space, as the standard library's
/// `char::is_whitespace` decides it.
pub uninterp spec fn white_space(c: char) -> bool;

/// `char::is_whitespace`: whether the character has the Unicode property
/// White_Space. The answer is taken on trust and given the name
/// `white_space`.
#[verifier::external_body]
pub(crate) fn is_white_space(c: char) -> (white: bool)
    ensures
        white == white_space(c),
{
    c.is_whitespace()
}

/// Where the run of white space that starts at `from` ends: the position of
/// the first character at or after `from` that is no white space, or the end
/// of the text.
pub open spec fn space_end(text: Seq<char>, from: int) -> int
    decreases text.len() - from,
{
    if 0 <= from < text.len() && white_space(text[from]) {
        space_end(text, from + 1)
    } else {
        from
    }
}

/// Where the word that starts at `from` ends: the position of the first
/// white space at or after `from`, or the end of the text.
pub open spec fn word_end(text: Seq<char>, from: int) -> int
    decreases text.len() - from,
{
    if 0 <= from < text.len() && !white_space(text[from]) {
        word_end(text, from + 1)
    } else {
        from
    }
}

/// The words of a text from `from` on: its longest runs of characters that
/// are no white space, in order.
pub open spec fn words_from(text: Seq<char>, from: int) -> Seq<Seq<char>>
    decreases text.len() - from,
{
    let start = space_end(text, from);
    let end = word_end(text, start);
    if 0 <= from <= start < end <= text.len() {
        seq![text.subrange(start, end)] + words_from(text, end)
    } else {
        Seq::empty()
    }
}

/// The words of a text.
pub open spec fn words(text: Seq<char>) -> Seq<Seq<char>> {
    words_from(text, 0)
}

/// The texts that a vector of vectors holds.
pub open spec fn texts(list: Seq<Vec<char>>) -> Seq<Seq<char>> {
    list.map_values(|text: Vec<char>| text@)
}

/// Parts a line into its words.
pub fn split_words(line: &str) -> (list: Vec<Vec<char>>)
    ensures
        texts(list@) == words(line@),
{
    let text = characters(line);
    let mut list: Vec<Vec<char>> = Vec::new();
    let mut pos: usize = 0;
    assert(texts(list@) =~= Seq::<Seq<char>>::empty());
    assert(texts(list@) + words_from(text@, 0) =~= words(text@));
    loop
        invariant
            text@ == line@,
            pos <= text.len(),
            words(text@) == texts(list@) + words_from(text@, pos as int),
        ensures
            texts(list@) == words(text@),
        decreases text.len() - pos,
    {
        let from = pos;
        while pos < text.len() && is_white_space(text[pos])
            invariant
                from <= pos <= text.len(),
                space_end(text@, from as int) == space_end(text@, pos as int),
            decreases text.len() - pos,
        {
            pos += 1;
        }
        let start = pos;
        let mut word: Vec<char> = Vec::new();
        while pos < text.len() && !is_white_space(text[pos])
            invariant
                start <= pos <= text.len(),
                word_end(text@, start as int) == word_end(text@, pos as int),
                word@ == text@.subrange(start as int, pos as int),
            decreases text.len() - pos,
        {
            word.push(text[pos]);
            assert(word@ =~= text@.subrange(start as int, pos + 1));
            pos += 1;
        }
        if start == pos {
            assert(texts(list@) + Seq::<Seq<char>>::empty() =~= texts(list@));
            break;
        }
        let ghost before = texts(list@);
        let ghost rest = words_from(text@, pos as int);
        list.push(word);
        assert(texts(list@) =~= before.push(text@.subrange(start as int, pos as int)));
        assert(before + (seq![text@.subrange(start as int, pos as int)] + rest) =~= texts(list@)
            + rest);
    }
    list
}

/// The characters of a string, in order.
pub(crate) fn characters(s: &str) -> (text: Vec<char>)
    ensures
        text@ == s@,
{
    let mut text: Vec<char> = Vec::new();
    for c in it: s.chars()
        invariant
            text@ == s@.take(it.index() as int),
            it.seq() == s@,
    {
        text.push(c);
    }
    text
}

/// Whether two runs of characters are the same.
pub(crate) fn same_text(a: &Vec<char>, b: &Vec<char>) -> (same: bool)
    ensures
        same == (a@ == b@),
{
    if a.len() != b.len() {
        return false;
    }
    let mut i: usize = 0;
    while i < a.len()
        invariant
            i <= a.len(),
            a.len() == b.len(),
            forall|j: int| 0 <= j < i ==> a@[j] == b@[j],
        decreases a.len() - i,
    {
        if a[i] != b[i] {
            return false;
        }
        i += 1;
    }
    assert(a@ =~= b@);
    true
}

/// Appends a text.
pub(crate) fn push_text(out: &mut Vec<char>, text: &Vec<char>)
    ensures
        final(out)@ == old(out)@ + text@,
{
    let mut i: usize = 0;
    while i < text.len()
        invariant
            i <= text.len(),
            out@ == old(out)@ + text@.subrange(0, i as int),
        decreases text.len() - i,
    {
        out.push(text[i]);
        assert(out@ =~= old(out)@ + text@.subrange(0, i + 1));
        i += 1;
    }
    assert(text@.subrange(0, text.len() as int) =~= text@);
}

/// Appends `count` copies of one character.
pub(crate) fn push_fill(out: &mut Vec<char>, fill: char, count: usize)
    ensures
        final(out)@ == old(out)@ + filled(fill, count as int),
{
    let mut i: usize = 0;
    while i < count
        invariant
            i <= count,
            out@ == old(out)@ + filled(fill, i as int),
        decreases count - i,
    {
        out.push(fill);
        assert(out@ =~= old(out)@ + filled(fill, i + 1));
        i += 1;
    }
}

/// Appends one digit.
fn push_digit(out: &mut Vec<char>, value: usize)
    requires
        value < 10,
    ensures
        final(out)@ == old(out)@.push(digit(value as int)),
{
    let c = if value == 0 {
        '0'
    } else if value == 1 {
        '1'
    } else if value == 2 {
        '2'
    } else if value == 3 {
        '3'
    } else if value == 4 {
        '4'
    } else if value == 5 {
        '5'
    } else if value == 6 {
        '6'
    } else if value == 7 {
        '7'
    } else if value == 8 {
        '8'
    } else {
        '9'
    };
    out.push(c);
}

/// Appends a number in decimal.
pub(crate) fn push_decimal(out: &mut Vec<char>, value: usize)
    ensures
        final(out)@ == old(out)@ + decimal_text(value as nat),
    decreases value,
{
    if value < 10 {
        push_digit(out, value);
        assert(out@ =~= old(out)@ + decimal_text(value as nat));
    } else {
        push_decimal(out, value / 10);
        push_digit(out, value % 10);
        assert(out@ =~= old(out)@ + decimal_text(value as nat));
    }
}

/// Appends a number in decimal, with its sign where it is negative.
pub(crate) fn push_signed(out: &mut Vec<char>, value: i16)
    ensures
        final(out)@ == old(out)@ + signed_text(value as int),
{
    if value < 0 {
        out.push('-');
        push_decimal(out, (-(value as i32)) as usize);
        assert(out@ =~= old(out)@ + signed_text(value as int));
    } else {
        push_decimal(out, value as usize);
    }
}

/// Appends a number in binary.
pub(crate) fn push_binary(out: &mut Vec<char>, value: usize)
    ensures
        final(out)@ == old(out)@ + binary_text(value as nat),
    decreases value,
{
    if value < 2 {
        push_digit(out, value);
        assert(out@ =~= old(out)@ + binary_text(value as nat));
    } else {
        push_binary(out, value / 2);
        push_digit(out, value % 2);
        assert(out@ =~= old(out)@ + binary_text(value as nat));
    }
}

/// Appends a text at the right end of a field of `width` characters.
pub(crate) fn push_right_aligned(out: &mut Vec<char>, text: &Vec<char>, width: usize, fill: char)
    ensures
        final(out)@ == old(out)@ + right_aligned(text@, width as int, fill),
{
    if text.len() < width {
        push_fill(out, fill, width - text.len());
    } else {
        assert(filled(fill, width - text.len()) =~= Seq::<char>::empty());
        assert(out@ + Seq::<char>::empty() =~= out@);
    }
    push_text(out, text);
    assert(out@ =~= old(out)@ + right_aligned(text@, width as int, fill));
}

/// Appends a text at the left end of a field of `width` characters.
pub(crate) fn push_left_aligned(out: &mut Vec<char>, text: &Vec<char>, width: usize, fill: char)
    ensures
        final(out)@ == old(out)@ + left_aligned(text@, width as int, fill),
{
    push_text(out, text);
    if text.len() < width {
        push_fill(out, fill, width - text.len());
    } else {
        assert(filled(fill, width - text.len()) =~= Seq::<char>::empty());
        assert(out@ + Seq::<char>::empty() =~= out@);
    }
    assert(out@ =~= old(out)@ + left_aligned(text@, width as int, fill));
}

} // verus!
