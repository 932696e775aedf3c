use pmc_interpreter::fault::Fault;
use pmc_interpreter::instruction::{Instruction, InnerInstruction};
use pmc_interpreter::mem::MEM;

fn zeroed() -> MEM {
    MEM::new([Instruction { raw: 0 }; 512])
}

fn text(chars: Vec<char>) -> String {
    chars.into_iter().collect()
}

fn expected_table(mem: &MEM, from: usize, to: usize) -> String {
    let mut out = String::new();
    let headers = ["ID", "Binary repr", "Instruction repr", "Number repr"];
    let widths = [4usize, 17, 20, 15];
    for (header, width) in headers.iter().zip(widths) {
        out += &format!("{:<width$} ", header, width = width);
    }
    out += "\n";
    for width in widths {
        out += &format!("{:-<width$}", "", width = width);
    }
    out += "\n";
    for i in from..to {
        let word = mem.inner[i];
        let fields: InnerInstruction = word.decode().unwrap();
        let sgn = if fields.sign == 1 { '-' } else { '+' };
        let row = [
            i.to_string(),
            format!("{:0>15b}", word.raw),
            format!("{} {:?} {:?} {}", sgn, fields.code, fields.adrt, fields.adr),
            format!("{}", word.raw),
        ];
        for (cell, width) in row.iter().zip(widths) {
            out += &format!("{:<width$} ", cell, width = width);
        }
        out += "\n";
    }
    out += "\n";
    out
}

#[test]
fn new_memory_holds_what_it_was_given() {
    let mut words = [Instruction { raw: 0 }; 512];
    words[3] = Instruction { raw: 77 };
    words[511] = Instruction { raw: 65535 };
    let mem = MEM::new(words);
    assert_eq!(mem.inner, words);
    assert_eq!(mem.get(3), Ok(Instruction { raw: 77 }));
    assert_eq!(mem.get_raw(511), Ok(65535));
    assert_eq!(mem.get_raw(0), Ok(0));
}

#[test]
fn write_then_read() {
    let mut mem = zeroed();
    assert_eq!(mem.set(0, 1), Ok(()));
    assert_eq!(mem.set(511, 40000), Ok(()));
    assert_eq!(mem.get_raw(0), Ok(1));
    assert_eq!(mem.get_raw(511), Ok(40000));
    assert_eq!(mem.get(511), Ok(Instruction { raw: 40000 }));
    assert_eq!(mem.get_raw(510), Ok(0));
    assert_eq!(mem.set(511, 2), Ok(()));
    assert_eq!(mem.get_raw(511), Ok(2));
}

#[test]
fn access_outside_memory_is_a_fault() {
    let mut mem = zeroed();
    assert_eq!(mem.get(512), Err(Fault::OutOfBounds { address: 512 }));
    assert_eq!(mem.get_raw(600), Err(Fault::OutOfBounds { address: 600 }));
    assert_eq!(mem.get(u16::MAX), Err(Fault::OutOfBounds { address: 65535 }));
    assert_eq!(mem.set(512, 9), Err(Fault::OutOfBounds { address: 512 }));
    assert_eq!(mem.set(600, 9), Err(Fault::OutOfBounds { address: 600 }));
    assert_eq!(mem.inner, [Instruction { raw: 0 }; 512]);
}

#[test]
fn table_of_an_empty_range_is_the_head() {
    let mem = zeroed();
    let head = "ID   Binary repr       Instruction repr     Number repr     \n\
                --------------------------------------------------------\n\n";
    assert_eq!(text(mem.print_table(5, 5).unwrap()), head);
    assert_eq!(text(mem.print_table(7, 2).unwrap()), head);
    assert_eq!(text(mem.print_table(600, 600).unwrap()), head);
    assert_eq!(text(mem.print_table(700, 3).unwrap()), head);
}

#[test]
fn table_rows_are_exact() {
    let mut mem = zeroed();
    mem.set(0, 4101).unwrap();
    mem.set(1, 39436).unwrap();
    mem.set(2, 65535).unwrap();
    let table = text(mem.print_table(0, 4).unwrap());
    let lines: Vec<&str> = table.split('\n').collect();
    assert_eq!(lines.len(), 8);
    assert_eq!(lines[2], "0    001000000000101   + LOAD DOT 5         4101            ");
    assert_eq!(lines[3], "1    1001101000001100  - STORE AT 12        39436           ");
    assert_eq!(lines[4], "2    1111111111111111  - XOR PLUS 511       65535           ");
    assert_eq!(lines[5], "3    000000000000000   + NULL DOT 0         0               ");
    assert_eq!(lines[6], "");
    assert_eq!(lines[7], "");
}

#[test]
fn table_is_formatted_as_the_standard_formatter_does() {
    let mut words = [Instruction { raw: 0 }; 512];
    let mut raw: u16 = 1;
    for word in words.iter_mut() {
        raw = raw.wrapping_mul(25173).wrapping_add(13849);
        if (raw >> 11) & 0xf == 7 {
            raw ^= 0x0800;
        }
        *word = Instruction { raw };
    }
    let mem = MEM::new(words);
    assert_eq!(text(mem.print_table(0, 512).unwrap()), expected_table(&mem, 0, 512));
    assert_eq!(text(mem.print_table(100, 110).unwrap()), expected_table(&mem, 100, 110));
    assert_eq!(text(mem.print_table(511, 512).unwrap()), expected_table(&mem, 511, 512));
}

#[test]
fn table_beyond_memory_is_a_fault() {
    let mem = zeroed();
    assert_eq!(mem.print_table(0, 513), Err(Fault::OutOfBounds { address: 512 }));
    assert_eq!(mem.print_table(600, 700), Err(Fault::OutOfBounds { address: 600 }));
    assert!(mem.print_table(0, 512).is_ok());
}

#[test]
fn table_of_an_undecodable_word_is_a_fault() {
    let mut mem = zeroed();
    mem.set(4, 14336).unwrap();
    mem.set(6, 14337).unwrap();
    assert_eq!(mem.print_table(0, 10), Err(Fault::InvalidOpcode { word: 14336 }));
    assert_eq!(mem.print_table(5, 600), Err(Fault::InvalidOpcode { word: 14337 }));
    assert!(mem.print_table(0, 4).is_ok());
}

#[test]
fn instruction_text_is_exact() {
    let fields = Instruction { raw: 39436 }.decode().unwrap();
    assert_eq!(text(fields.text()), "- STORE AT 12");
    let fields = Instruction { raw: 0 }.decode().unwrap();
    assert_eq!(text(fields.text()), "+ NULL DOT 0");
}

#[test]
fn dump_shows_data_for_null_and_instructions_for_the_rest() {
    let mut mem = zeroed();
    mem.set(0, 4101).unwrap();
    mem.set(1, 20).unwrap();
    mem.set(2, 39436).unwrap();
    mem.set(511, 0x8000 | 77).unwrap();
    let dump = text(mem.dump().unwrap());
    let lines: Vec<&str> = dump.split('\n').collect();
    assert_eq!(lines.len(), 513);
    assert_eq!(lines[0], "0 001000000000101 + LOAD DOT 5");
    assert_eq!(lines[1], "1 000000000010100 20");
    assert_eq!(lines[2], "2 1001101000001100 - STORE AT 12");
    assert_eq!(lines[3], "3 000000000000000 0");
    assert_eq!(lines[511], "511 1000000001001101 32845");
    assert_eq!(lines[512], "");
}

#[test]
fn dump_of_an_undecodable_word_is_a_fault() {
    let mut mem = zeroed();
    mem.set(300, 14336 + 9).unwrap();
    assert_eq!(mem.dump(), Err(Fault::InvalidOpcode { word: 14345 }));
}

#[test]
fn fault_in_words() {
    let words = |fault: Fault| -> String { fault.message().into_iter().collect() };
    assert_eq!(
        words(Fault::OutOfBounds { address: 600 }),
        "Adress out of bounds. Tried to access memory at index: 600"
    );
    assert_eq!(
        words(Fault::OutOfBounds { address: 0 }),
        "Adress out of bounds. Tried to access memory at index: 0"
    );
    assert_eq!(words(Fault::InvalidOpcode { word: 14336 }), "Wrong value passed to CODE");
}
