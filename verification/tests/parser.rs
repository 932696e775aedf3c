use pmc_interpreter::instruction::{Adrt, Code, InnerInstruction, Instruction};
use pmc_interpreter::parser::{parse, parse_directive, LineError, ParseError};

fn chars(s: &str) -> Vec<char> {
    s.chars().collect()
}

fn word(sign: u16, code: Code, adrt: Adrt, adr: u16) -> Instruction {
    InnerInstruction::new(sign, code, adrt, adr).unwrap().encode()
}

#[test]
fn directive_with_instruction() {
    assert_eq!(
        parse_directive(&chars("0: LOAD .5")),
        Ok((0, word(0, Code::LOAD, Adrt::DOT, 5)))
    );
    assert_eq!(
        parse_directive(&chars("17:   STORE   @  -12 trailing")),
        Ok((17, word(1, Code::STORE, Adrt::AT, 12)))
    );
    assert_eq!(
        parse_directive(&chars("511:JZERO*511")),
        Ok((511, word(0, Code::JZERO, Adrt::STAR, 511)))
    );
    assert_eq!(
        parse_directive(&chars("3: ADD +-0")),
        Ok((3, word(0, Code::ADD, Adrt::PLUS, 0)))
    );
}

#[test]
fn directive_with_data() {
    assert_eq!(parse_directive(&chars("9: 20")), Ok((9, Instruction { raw: 20 })));
    assert_eq!(parse_directive(&chars("9: -1")), Ok((9, Instruction { raw: 65535 })));
    assert_eq!(parse_directive(&chars("9: -32768")), Ok((9, Instruction { raw: 32768 })));
    assert_eq!(parse_directive(&chars("9: 32767x")), Ok((9, Instruction { raw: 32767 })));
    assert_eq!(parse_directive(&chars("009: 0007")), Ok((9, Instruction { raw: 7 })));
}

#[test]
fn directive_errors() {
    assert_eq!(parse_directive(&chars(" 0: 5")), Err(LineError::BadIndex));
    assert_eq!(parse_directive(&chars("x")), Err(LineError::BadIndex));
    assert_eq!(parse_directive(&chars("512: 5")), Err(LineError::IndexOutOfRange));
    assert_eq!(
        parse_directive(&chars("99999999999999999999: 5")),
        Err(LineError::IndexOutOfRange)
    );
    assert_eq!(parse_directive(&chars("5 : 5")), Err(LineError::MissingColon));
    assert_eq!(parse_directive(&chars("5")), Err(LineError::MissingColon));
    assert_eq!(parse_directive(&chars("5: 32768")), Err(LineError::BadNumber));
    assert_eq!(parse_directive(&chars("5: -32769")), Err(LineError::BadNumber));
    assert_eq!(parse_directive(&chars("5: 1-2")), Err(LineError::BadNumber));
    assert_eq!(parse_directive(&chars("5: -")), Err(LineError::BadNumber));
    assert_eq!(parse_directive(&chars("5: load .5")), Err(LineError::UnknownOpcode));
    assert_eq!(parse_directive(&chars("5: LOADS .5")), Err(LineError::UnknownOpcode));
    assert_eq!(parse_directive(&chars("5:")), Err(LineError::UnknownOpcode));
    assert_eq!(parse_directive(&chars("5: STOP")), Err(LineError::UnknownMode));
    assert_eq!(parse_directive(&chars("5: LOAD #5")), Err(LineError::UnknownMode));
    assert_eq!(parse_directive(&chars("5: LOAD .")), Err(LineError::BadNumber));
    assert_eq!(parse_directive(&chars("5: LOAD .512")), Err(LineError::BadNumber));
    assert_eq!(parse_directive(&chars("5: LOAD .-512")), Err(LineError::BadNumber));
    assert_eq!(parse_directive(&chars("5: LOAD .65541")), Err(LineError::BadNumber));
}

#[test]
fn parse_builds_the_image() {
    let mem = parse("0: LOAD .5\n\n   \t\r\n1: STOP .0\r\n9: 20\n9: 21\n").unwrap();
    assert_eq!(mem.inner[0], word(0, Code::LOAD, Adrt::DOT, 5));
    assert_eq!(mem.inner[1], word(0, Code::STOP, Adrt::DOT, 0));
    assert_eq!(mem.inner[9], Instruction { raw: 21 });
    for i in 2..512 {
        if i != 9 {
            assert_eq!(mem.inner[i], Instruction { raw: 0 });
        }
    }
}

#[test]
fn parse_of_nothing_is_all_zero() {
    let mem = parse("").unwrap();
    for i in 0..512 {
        assert_eq!(mem.inner[i].raw, 0);
    }
    let mem = parse("\u{a0}\u{2003}\n").unwrap();
    for i in 0..512 {
        assert_eq!(mem.inner[i].raw, 0);
    }
}

#[test]
fn parse_reports_the_first_bad_line() {
    assert_eq!(
        parse("0: LOAD .5\n\n1: STOP\n2: FOO .1\n").err(),
        Some(ParseError { line: 3, kind: LineError::UnknownMode })
    );
    assert_eq!(
        parse("600: 1").err(),
        Some(ParseError { line: 1, kind: LineError::IndexOutOfRange })
    );
    assert_eq!(
        parse("0: 1\n1: 2\nx").err(),
        Some(ParseError { line: 3, kind: LineError::BadIndex })
    );
}

#[test]
fn parse_error_in_words() {
    let error = parse("0: 1\n\n2: LOAD ?5").err().unwrap();
    let message: String = error.message().into_iter().collect();
    assert_eq!(message, "Unexpected ADRT in line 3");
    let words = |kind: LineError| -> String { kind.message().into_iter().collect() };
    assert_eq!(words(LineError::BadIndex), "Expected integer index");
    assert_eq!(words(LineError::IndexOutOfRange), "Index out of bounds");
    assert_eq!(words(LineError::MissingColon), "Expected ':' after the index");
    assert_eq!(words(LineError::BadNumber), "Expected integer number");
    assert_eq!(words(LineError::UnknownOpcode), "Unexpected COMMAND");
}
