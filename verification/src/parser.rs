//! The text form of a program image.
//!
//! A program is text, one directive to a line: an index, a colon, and then
//! either a number, which is stored as data, or an instruction written as an
//! operation name, a mode character and a signed address. Lines that hold
//! nothing but white space are passed over. Each directive sets one word of a
//! memory that starts out as all zeros; a later directive for the same index
//! replaces an earlier one. What follows a complete directive on its line is
//! not looked at.
use crate::instruction::{Adrt, Code, InnerInstruction, Instruction};
use crate::mem::MEM;
use crate::text::{
    characters, decimal_text, is_white_space, push_decimal, push_text, white_space,
};
use vstd::prelude::*;

verus! {

/// Why a line is no directive.
#[derive(Clone, Copy, Debug, PartialEq, Eq, Structural)]
pub enum LineError {
    /// The line does not start with a decimal index.
    BadIndex,
    /// The index is 512 or more.
    IndexOutOfRange,
    /// No colon follows the index.
    MissingColon,
    /// The number is missing or malformed, or it is too large: data must fit
    /// in sixteen signed bits, and an address in nine bits of magnitude.
    BadNumber,
    /// The operation name is none of the machine's.
    UnknownOpcode,
    /// The mode character is missing or none of `.`, `@`, `*`, `+`.
    UnknownMode,
}

/// Why a text is no program: the first line that is no directive, counted
/// from 1, and what is wrong with it.
#[derive(Clone, Copy, Debug, PartialEq, Eq, Structural)]
pub struct ParseError {
    pub line: usize,
    pub kind: LineError,
}

impl LineError {
    /// The reason in words.
    pub open spec fn text(self) -> Seq<char> {
        match self {
            LineError::BadIndex => "Expected integer index"@,
            LineError::IndexOutOfRange => "Index out of bounds"@,
            LineError::MissingColon => "Expected ':' after the index"@,
            LineError::BadNumber => "Expected integer number"@,
            LineError::UnknownOpcode => "Unexpected COMMAND"@,
            LineError::UnknownMode => "Unexpected ADRT"@,
        }
    }

    /// The reason in words.
    pub fn message(&self) -> (message: Vec<char>)
        ensures
            message@ == self.text(),
    {
        match *self {
            LineError::BadIndex => characters("Expected integer index"),
            LineError::IndexOutOfRange => characters("Index out of bounds"),
            LineError::MissingColon => characters("Expected ':' after the index"),
            LineError::BadNumber => characters("Expected integer number"),
            LineError::UnknownOpcode => characters("Unexpected COMMAND"),
            LineError::UnknownMode => characters("Unexpected ADRT"),
        }
    }
}

impl ParseError {
    /// The error in words: the reason, and the number of the line.
    pub open spec fn text(self) -> Seq<char> {
        self.kind.text() + " in line "@ + decimal_text(self.line as nat)
    }

    /// The error in words.
    pub fn message(&self) -> (message: Vec<char>)
        ensures
            message@ == self.text(),
    {
        let mut message = self.kind.message();
        push_text(&mut message, &characters(" in line "));
        push_decimal(&mut message, self.line);
        message
    }
}

/// The kinds of character that a directive is made of.
#[derive(Clone, Copy, Debug, PartialEq, Eq, Structural)]
pub enum Class {
    /// A decimal digit.
    Digit,
    /// A letter of the basic Latin alphabet.
    Letter,
    /// The space character.
    Space,
    /// A decimal digit or a minus sign: what a number is gathered from.
    Numeric,
}

impl Class {
    /// Whether a character is of the class.
    pub open spec fn holds(self, c: char) -> bool {
        match self {
            Class::Digit => '0' <= c && c <= '9',
            Class::Letter => ('a' <= c && c <= 'z') || ('A' <= c && c <= 'Z'),
            Class::Space => c == ' ',
            Class::Numeric => ('0' <= c && c <= '9') || c == '-',
        }
    }

    fn test(self, c: char) -> (holds: bool)
        ensures
            holds == self.holds(c),
    {
        match self {
            Class::Digit => '0' <= c && c <= '9',
            Class::Letter => ('a' <= c && c <= 'z') || ('A' <= c && c <= 'Z'),
            Class::Space => c == ' ',
            Class::Numeric => ('0' <= c && c <= '9') || c == '-',
        }
    }
}

/// Where the longest run of characters of one class that starts at `from`
/// ends: the position of the first character at or after `from` that is not
/// of the class, or the end of the line.
pub open spec fn run_end(line: Seq<char>, from: int, class: Class) -> int
    decreases line.len() - from,
{
    if 0 <= from < line.len() && class.holds(line[from]) {
        run_end(line, from + 1, class)
    } else {
        from
    }
}

/// The number that a run of decimal digits writes.
pub open spec fn decimal(digits: Seq<char>) -> nat
    decreases digits.len(),
{
    if digits.len() == 0 {
        0
    } else {
        decimal(digits.drop_last()) * 10 + (digits.last() as int - '0' as int) as nat
    }
}

/// Whether every character of a text is a decimal digit.
pub open spec fn all_digits(text: Seq<char>) -> bool {
    forall|i: int| 0 <= i < text.len() ==> Class::Digit.holds(#[trigger] text[i])
}

/// The number that a text writes: one or more decimal digits, with or
/// without a minus sign in front, and nothing else.
pub open spec fn number(text: Seq<char>) -> Option<int> {
    if text.len() > 0 && text[0] == '-' {
        if text.len() > 1 && all_digits(text.skip(1)) {
            Some(-(decimal(text.skip(1)) as int))
        } else {
            None
        }
    } else if text.len() > 0 && all_digits(text) {
        Some(decimal(text) as int)
    } else {
        None
    }
}

/// The word that stores a number as data: its sixteen-bit two's complement.
pub open spec fn data_word(value: int) -> Option<Instruction> {
    if 0 <= value <= 32767 {
        Some(Instruction { raw: value as u16 })
    } else if -32768 <= value < 0 {
        Some(Instruction { raw: (value + 65536) as u16 })
    } else {
        None
    }
}

/// The instruction word of an operation, a mode and a signed address. A
/// negative address sets the sign bit; an address of more than nine bits of
/// magnitude has no word.
pub open spec fn instruction_word(code: Code, adrt: Adrt, address: int) -> Option<Instruction> {
    if 0 <= address < 512 {
        Some((InnerInstruction { sign: 0, code, adrt, adr: address as u16 }).encoded())
    } else if -512 < address < 0 {
        Some((InnerInstruction { sign: 1, code, adrt, adr: (-address) as u16 }).encoded())
    } else {
        None
    }
}

/// The instruction written at `from`: an operation name, a mode character
/// and a signed address, with any number of spaces between them.
pub open spec fn instruction_at(line: Seq<char>, from: int) -> Result<Instruction, LineError> {
    let name_end = run_end(line, from, Class::Letter);
    let mode_at = run_end(line, name_end, Class::Space);
    let number_at = run_end(line, mode_at + 1, Class::Space);
    let number_end = run_end(line, number_at, Class::Numeric);
    match Code::named(line.subrange(from, name_end)) {
        None => Err(LineError::UnknownOpcode),
        Some(code) => if mode_at >= line.len() {
            Err(LineError::UnknownMode)
        } else {
            match Adrt::of_symbol(line[mode_at]) {
                None => Err(LineError::UnknownMode),
                Some(adrt) => match number(line.subrange(number_at, number_end)) {
                    None => Err(LineError::BadNumber),
                    Some(address) => match instruction_word(code, adrt, address) {
                        None => Err(LineError::BadNumber),
                        Some(word) => Ok(word),
                    },
                },
            }
        },
    }
}

/// The data written at `from`: a signed number.
pub open spec fn data_at(line: Seq<char>, from: int) -> Result<Instruction, LineError> {
    match number(line.subrange(from, run_end(line, from, Class::Numeric))) {
        None => Err(LineError::BadNumber),
        Some(value) => match data_word(value) {
            None => Err(LineError::BadNumber),
            Some(word) => Ok(word),
        },
    }
}

/// What a line directs: the index of a word and the word to store there, or
/// the reason why the line is no directive.
pub open spec fn directive(line: Seq<char>) -> Result<(int, Instruction), LineError> {
    let colon_at = run_end(line, 0, Class::Digit);
    let index = decimal(line.subrange(0, colon_at)) as int;
    let value_at = run_end(line, colon_at + 1, Class::Space);
    if colon_at == 0 {
        Err(LineError::BadIndex)
    } else if index >= 512 {
        Err(LineError::IndexOutOfRange)
    } else if colon_at >= line.len() || line[colon_at] != ':' {
        Err(LineError::MissingColon)
    } else {
        let word = if value_at < line.len() && Class::Numeric.holds(line[value_at]) {
            data_at(line, value_at)
        } else {
            instruction_at(line, value_at)
        };
        match word {
            Ok(word) => Ok((index, word)),
            Err(kind) => Err(kind),
        }
    }
}

/// The largest number that reading keeps apart from larger ones. It is above
/// everything that a directive accepts.
const NUMBER_CAP: u32 = 100_000;

/// A number as reading reports it: exact up to the cap, and the cap itself
/// for anything above.
spec fn capped(value: nat) -> nat {
    if value >= NUMBER_CAP {
        NUMBER_CAP as nat
    } else {
        value
    }
}

proof fn decimal_step(line: Seq<char>, from: int, to: int)
    requires
        0 <= from <= to < line.len(),
    ensures
        decimal(line.subrange(from, to + 1)) == decimal(line.subrange(from, to)) * 10 + (line[to] as int
            - '0' as int) as nat,
{
    assert(line.subrange(from, to + 1).drop_last() =~= line.subrange(from, to));
}

fn scan(line: &Vec<char>, from: usize, class: Class) -> (to: usize)
    requires
        from <= line.len(),
    ensures
        to == run_end(line@, from as int, class),
        from <= to <= line.len(),
        forall|i: int| from <= i < to ==> class.holds(#[trigger] line@[i]),
{
    let mut to = from;
    while to < line.len() && class.test(line[to])
        invariant
            from <= to <= line.len(),
            run_end(line@, from as int, class) == run_end(line@, to as int, class),
            forall|i: int| from <= i < to ==> class.holds(#[trigger] line@[i]),
        decreases line.len() - to,
    {
        to += 1;
    }
    to
}

/// Reads the decimal digits between `from` and `to`, or finds that one of
/// the characters there is no digit.
fn read_decimal(line: &Vec<char>, from: usize, to: usize) -> (value: Option<u32>)
    requires
        from <= to <= line.len(),
    ensures
        value is Some <==> all_digits(line@.subrange(from as int, to as int)),
        value matches Some(v) ==> v == capped(decimal(line@.subrange(from as int, to as int))),
{
    let ghost text = line@.subrange(from as int, to as int);
    let mut value: u32 = 0;
    let mut i = from;
    while i < to
        invariant
            from <= i <= to <= line.len(),
            text == line@.subrange(from as int, to as int),
            all_digits(line@.subrange(from as int, i as int)),
            value == capped(decimal(line@.subrange(from as int, i as int))),
        decreases to - i,
    {
        let c = line[i];
        if !Class::Digit.test(c) {
            assert(text[i - from] == c);
            return None;
        }
        proof {
            decimal_step(line@, from as int, i as int);
            assert forall|j: int| 0 <= j < i + 1 - from implies Class::Digit.holds(
                #[trigger] line@.subrange(from as int, i + 1)[j],
            ) by {
                if j < i - from {
                    assert(line@.subrange(from as int, i as int)[j] == line@[from + j]);
                }
            }
        }
        let digit = c as u32 - '0' as u32;
        value = if value >= NUMBER_CAP {
            NUMBER_CAP
        } else if value * 10 + digit >= NUMBER_CAP {
            NUMBER_CAP
        } else {
            value * 10 + digit
        };
        i += 1;
    }
    Some(value)
}

/// Reads the signed number between `from` and `to`.
fn read_number(line: &Vec<char>, from: usize, to: usize) -> (value: Option<i32>)
    requires
        from <= to <= line.len(),
    ensures
        value is Some <==> number(line@.subrange(from as int, to as int)) is Some,
        value matches Some(v) ==> {
            let n = number(line@.subrange(from as int, to as int)).unwrap();
            &&& -NUMBER_CAP <= v <= NUMBER_CAP
            &&& (-NUMBER_CAP < n < NUMBER_CAP ==> v == n)
            &&& (n >= NUMBER_CAP ==> v == NUMBER_CAP)
            &&& (n <= -NUMBER_CAP ==> v == -NUMBER_CAP)
        },
{
    let ghost text = line@.subrange(from as int, to as int);
    if from < to && line[from] == '-' {
        assert(text[0] == '-');
        assert(text.skip(1) =~= line@.subrange(from + 1, to as int));
        if from + 1 == to {
            return None;
        }
        match read_decimal(line, from + 1, to) {
            Some(magnitude) => Some(-(magnitude as i32)),
            None => None,
        }
    } else {
        if from == to {
            return None;
        }
        assert(text[0] == line@[from as int]);
        match read_decimal(line, from, to) {
            Some(magnitude) => Some(magnitude as i32),
            None => None,
        }
    }
}

/// Copies the characters between `from` and `to`.
fn copy_range(line: &Vec<char>, from: usize, to: usize) -> (text: Vec<char>)
    requires
        from <= to <= line.len(),
    ensures
        text@ == line@.subrange(from as int, to as int),
{
    let mut text: Vec<char> = Vec::new();
    let mut i = from;
    while i < to
        invariant
            from <= i <= to <= line.len(),
            text@ == line@.subrange(from as int, i as int),
        decreases to - i,
    {
        text.push(line[i]);
        assert(text@ =~= line@.subrange(from as int, i + 1));
        i += 1;
    }
    text
}

/// Reads the instruction written at `from`.
fn parse_instruction(line: &Vec<char>, from: usize) -> (word: Result<Instruction, LineError>)
    requires
        from <= line.len(),
    ensures
        word == instruction_at(line@, from as int),
{
    let name_end = scan(line, from, Class::Letter);
    let mode_at = scan(line, name_end, Class::Space);
    let code = match Code::from_name(&copy_range(line, from, name_end)) {
        Some(code) => code,
        None => {
            return Err(LineError::UnknownOpcode);
        },
    };
    if mode_at >= line.len() {
        return Err(LineError::UnknownMode);
    }
    let adrt = match Adrt::from_symbol(line[mode_at]) {
        Some(adrt) => adrt,
        None => {
            return Err(LineError::UnknownMode);
        },
    };
    let number_at = scan(line, mode_at + 1, Class::Space);
    let number_end = scan(line, number_at, Class::Numeric);
    let address = match read_number(line, number_at, number_end) {
        Some(address) => address,
        None => {
            return Err(LineError::BadNumber);
        },
    };
    let fields = if 0 <= address && address < 512 {
        InnerInstruction { sign: 0, code, adrt, adr: address as u16 }
    } else if -512 < address && address < 0 {
        InnerInstruction { sign: 1, code, adrt, adr: (-address) as u16 }
    } else {
        return Err(LineError::BadNumber);
    };
    Ok(fields.encode())
}

/// Reads the data written at `from`.
fn parse_data(line: &Vec<char>, from: usize) -> (word: Result<Instruction, LineError>)
    requires
        from <= line.len(),
    ensures
        word == data_at(line@, from as int),
{
    let number_end = scan(line, from, Class::Numeric);
    match read_number(line, from, number_end) {
        None => Err(LineError::BadNumber),
        Some(value) => if 0 <= value && value <= 32767 {
            Ok(Instruction { raw: value as u16 })
        } else if -32768 <= value && value < 0 {
            Ok(Instruction { raw: (value + 65536) as u16 })
        } else {
            Err(LineError::BadNumber)
        },
    }
}

/// Reads one line as a directive: the index of a word and the word to store
/// there.
pub fn parse_directive(line: &Vec<char>) -> (entry: Result<(u16, Instruction), LineError>)
    ensures
        entry matches Ok((index, word)) ==> directive(line@) == Ok::<
            (int, Instruction),
            LineError,
        >((index as int, word)) && index < 512,
        entry matches Err(kind) ==> directive(line@) == Err::<(int, Instruction), LineError>(kind),
{
    let colon_at = scan(line, 0, Class::Digit);
    if colon_at == 0 {
        return Err(LineError::BadIndex);
    }
    let index = match read_decimal(line, 0, colon_at) {
        Some(index) => index,
        None => {
            assert(false);
            return Err(LineError::BadIndex);
        },
    };
    if index >= 512 {
        return Err(LineError::IndexOutOfRange);
    }
    if colon_at >= line.len() || line[colon_at] != ':' {
        return Err(LineError::MissingColon);
    }
    let value_at = scan(line, colon_at + 1, Class::Space);
    let word = if value_at < line.len() && Class::Numeric.test(line[value_at]) {
        parse_data(line, value_at)
    } else {
        parse_instruction(line, value_at)
    };
    match word {
        Ok(word) => Ok((index as u16, word)),
        Err(kind) => Err(kind),
    }
}

/// Whether a line holds nothing but white space.
pub open spec fn blank(line: Seq<char>) -> bool {
    forall|i: int| 0 <= i < line.len() ==> white_space(#[trigger] line[i])
}

/// Where the line that starts at `from` ends: the position of the first line
/// feed at or after `from`, or the end of the text.
pub open spec fn line_end(text: Seq<char>, from: int) -> int
    decreases text.len() - from,
{
    if 0 <= from < text.len() && text[from] != '\n' {
        line_end(text, from + 1)
    } else {
        from
    }
}

/// The lines of the text from `from` on. Lines are parted by line feeds, so
/// a text with n line feeds has n + 1 lines, the last of them possibly empty.
pub open spec fn lines_from(text: Seq<char>, from: int) -> Seq<Seq<char>>
    decreases text.len() - from,
{
    let end = line_end(text, from);
    if 0 <= from <= end < text.len() {
        seq![text.subrange(from, end)] + lines_from(text, end + 1)
    } else {
        seq![text.subrange(from, end)]
    }
}

/// The lines of a text.
pub open spec fn lines(text: Seq<char>) -> Seq<Seq<char>> {
    lines_from(text, 0)
}

/// The memory that nothing has been loaded into: 512 words of zero.
pub open spec fn blank_image() -> Seq<Instruction> {
    Seq::new(512, |i: int| Instruction { raw: 0 })
}

/// What one line does to a memory image. A blank line leaves it alone; a
/// directive replaces one word.
pub open spec fn apply(image: Seq<Instruction>, line: Seq<char>) -> Result<
    Seq<Instruction>,
    LineError,
> {
    if blank(line) {
        Ok(image)
    } else {
        match directive(line) {
            Ok((index, word)) => Ok(image.update(index, word)),
            Err(kind) => Err(kind),
        }
    }
}

/// The memory image that a sequence of lines loads, or the first line that
/// is neither blank nor a directive.
pub open spec fn load(lines: Seq<Seq<char>>) -> Result<Seq<Instruction>, ParseError>
    decreases lines.len(),
{
    if lines.len() == 0 {
        Ok(blank_image())
    } else {
        match load(lines.drop_last()) {
            Err(error) => Err(error),
            Ok(image) => match apply(image, lines.last()) {
                Ok(image) => Ok(image),
                Err(kind) => Err(ParseError { line: lines.len() as usize, kind }),
            },
        }
    }
}

/// Once a line has failed, what follows it changes nothing.
proof fn load_stops_at_first_error(done: Seq<Seq<char>>, rest: Seq<Seq<char>>)
    requires
        load(done) is Err,
    ensures
        load(done + rest) == load(done),
    decreases rest.len(),
{
    if rest.len() == 0 {
        assert(done + rest =~= done);
    } else {
        load_stops_at_first_error(done, rest.drop_last());
        assert((done + rest).drop_last() =~= done + rest.drop_last());
    }
}

/// Whether a line holds nothing but white space.
fn is_blank(line: &Vec<char>) -> (is_blank: bool)
    ensures
        is_blank == blank(line@),
{
    let mut i: usize = 0;
    while i < line.len()
        invariant
            i <= line.len(),
            forall|j: int| 0 <= j < i ==> white_space(#[trigger] line@[j]),
        decreases line.len() - i,
    {
        if !is_white_space(line[i]) {
            return false;
        }
        i += 1;
    }
    true
}

/// Reads a program text and builds the memory image that it describes.
///
/// The image starts as 512 zero words, and the lines of the text are applied
/// to it in order. The result is the finished image, or the first line that
/// is neither blank nor a directive.
pub fn parse(s: &str) -> (image: Result<Box<MEM>, ParseError>)
    ensures
        image matches Ok(mem) ==> load(lines(s@)) == Ok::<Seq<Instruction>, ParseError>(mem@),
        image matches Err(error) ==> load(lines(s@)) == Err::<Seq<Instruction>, ParseError>(error),
{
    let text = characters(s);
    let mut tab: [Instruction; 512] = [Instruction { raw: 0 };512];
    let mut pos: usize = 0;
    let mut count: usize = 0;
    let mut finished = false;
    let ghost mut done: Seq<Seq<char>> = Seq::empty();
    assert(tab@ =~= blank_image());
    assert(done + lines_from(text@, 0) =~= lines(text@));
    while !finished
        invariant
            text@ == s@,
            pos <= text.len(),
            !finished ==> count == done.len() && count <= pos,
            load(done) == Ok::<Seq<Instruction>, ParseError>(tab@),
            tab@.len() == 512,
            !finished ==> lines(text@) == done + lines_from(text@, pos as int),
            finished ==> lines(text@) == done,
        decreases text.len() - pos + (if finished { 0int } else { 1int }),
    {
        let start = pos;
        let mut line: Vec<char> = Vec::new();
        while pos < text.len() && text[pos] != '\n'
            invariant
                start <= pos <= text.len(),
                line@ == text@.subrange(start as int, pos as int),
                line_end(text@, start as int) == line_end(text@, pos as int),
            decreases text.len() - pos,
        {
            line.push(text[pos]);
            assert(line@ =~= text@.subrange(start as int, pos + 1));
            pos += 1;
        }
        proof {
            let rest = if pos < text.len() {
                lines_from(text@, pos + 1)
            } else {
                Seq::<Seq<char>>::empty()
            };
            assert(lines_from(text@, start as int) =~= seq![line@] + rest);
            assert(done + (seq![line@] + rest) =~= done.push(line@) + rest);
            assert(done.push(line@).drop_last() =~= done);
            if apply(tab@, line@) is Err {
                load_stops_at_first_error(done.push(line@), rest);
            }
            done = done.push(line@);
        }
        if !is_blank(&line) {
            match parse_directive(&line) {
                Ok((index, word)) => {
                    tab[index as usize] = word;
                },
                Err(kind) => {
                    return Err(ParseError { line: count + 1, kind });
                },
            }
        }
        if pos < text.len() {
            pos += 1;
            count += 1;
        } else {
            finished = true;
            assert(done + Seq::<Seq<char>>::empty() =~= done);
        }
    }
    Ok(Box::new(MEM::new(tab)))
}

} // verus!
