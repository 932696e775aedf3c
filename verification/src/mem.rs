//! The machine's memory: 512 words, addressed from 0, every access checked.
use crate::fault::Fault;
use crate::instruction::{instruction_text, Code, Instruction};
use crate::text::{
    binary_text, characters, decimal_text, filled, left_aligned, push_binary, push_decimal,
    push_fill, push_left_aligned, push_right_aligned, push_text, right_aligned,
};
use vstd::prelude::*;

verus! {

/// Whether an address lies inside the memory.
pub open spec fn in_bounds(address: int) -> bool {
    0 <= address < 512
}

/// What a read at `address` gives: the word there, or the fault for an
/// address outside the memory.
pub open spec fn read(mem: Seq<Instruction>, address: int) -> Result<Instruction, Fault> {
    if in_bounds(address) {
        Ok(mem[address])
    } else {
        Err(Fault::OutOfBounds { address: address as usize })
    }
}

/// What a write of `value` at `address` leaves: the memory with that one
/// word replaced, or the fault for an address outside the memory.
pub open spec fn written(mem: Seq<Instruction>, address: int, value: u16) -> Result<
    Seq<Instruction>,
    Fault,
> {
    if in_bounds(address) {
        Ok(mem.update(address, Instruction { raw: value }))
    } else {
        Err(Fault::OutOfBounds { address: address as usize })
    }
}

/// One column of the table: the text at the left of a field of `width`
/// characters, and a space behind it.
pub open spec fn column(text: Seq<char>, width: int) -> Seq<char> {
    left_aligned(text, width, ' ').push(' ')
}

/// One line of the table: four columns of 4, 17, 20 and 15 characters, and a
/// line feed.
pub open spec fn table_line(
    id: Seq<char>,
    binary: Seq<char>,
    instruction: Seq<char>,
    number: Seq<char>,
) -> Seq<char> {
    column(id, 4) + column(binary, 17) + column(instruction, 20) + column(number, 15) + seq!['\n']
}

/// The head of the table: the names of the columns, and a rule of dashes as
/// wide as the four fields together.
pub open spec fn table_head() -> Seq<char> {
    table_line("ID"@, "Binary repr"@, "Instruction repr"@, "Number repr"@) + filled('-', 4)
        + filled('-', 17) + filled('-', 20) + filled('-', 15) + seq!['\n']
}

/// The table's line for one word: its address, its bits in binary, filled up
/// with zeros to 15 digits, the word read as an instruction, and the word
/// read as an unsigned number. A word that cannot be read as an instruction
/// has no line.
pub open spec fn table_row(index: int, word: Instruction) -> Result<Seq<char>, Fault> {
    match word.fields() {
        None => Err(Fault::InvalidOpcode { word: word.raw }),
        Some(fields) => Ok(
            table_line(
                decimal_text(index as nat),
                right_aligned(binary_text(word.raw as nat), 15, '0'),
                instruction_text(fields),
                decimal_text(word.raw as nat),
            ),
        ),
    }
}

/// The table's lines for the words from `from` up to, but not including,
/// `to`, or the fault of the first of them that has no line: because it lies
/// outside the memory, or because it cannot be read as an instruction.
pub open spec fn table_rows(mem: Seq<Instruction>, from: int, to: int) -> Result<Seq<char>, Fault>
    decreases to - from,
{
    if from >= to {
        Ok(Seq::empty())
    } else {
        match table_rows(mem, from, to - 1) {
            Err(fault) => Err(fault),
            Ok(above) => match read(mem, to - 1) {
                Err(fault) => Err(fault),
                Ok(word) => match table_row(to - 1, word) {
                    Err(fault) => Err(fault),
                    Ok(line) => Ok(above + line),
                },
            },
        }
    }
}

/// The table of the words from `from` up to, but not including, `to`: head,
/// lines, and an empty line at the end.
pub open spec fn table(mem: Seq<Instruction>, from: int, to: int) -> Result<Seq<char>, Fault> {
    match table_rows(mem, from, to) {
        Err(fault) => Err(fault),
        Ok(rows) => Ok(table_head() + rows + seq!['\n']),
    }
}

/// The dump's line for one word: its address, its bits in binary, filled up
/// with zeros to 15 digits, and then the word as data, in decimal, where its
/// operation is `NULL`, and as an instruction where it is any other. The
/// three are parted by single spaces. A word that cannot be read as an
/// instruction has no line.
pub open spec fn dump_row(index: int, word: Instruction) -> Result<Seq<char>, Fault> {
    match word.fields() {
        None => Err(Fault::InvalidOpcode { word: word.raw }),
        Some(fields) => Ok(
            decimal_text(index as nat) + seq![' '] + right_aligned(
                binary_text(word.raw as nat),
                15,
                '0',
            ) + seq![' '] + (if fields.code == Code::NULL {
                decimal_text(word.raw as nat)
            } else {
                instruction_text(fields)
            }) + seq!['\n'],
        ),
    }
}

/// The dump's lines for the first `count` words, or the fault of the first
/// of them that has no line.
pub open spec fn dump_rows(mem: Seq<Instruction>, count: int) -> Result<Seq<char>, Fault>
    decreases count,
{
    if count <= 0 {
        Ok(Seq::empty())
    } else {
        match dump_rows(mem, count - 1) {
            Err(fault) => Err(fault),
            Ok(above) => match dump_row(count - 1, mem[count - 1]) {
                Err(fault) => Err(fault),
                Ok(line) => Ok(above + line),
            },
        }
    }
}

/// Once a line has failed, the lines below it change nothing.
proof fn dump_stops_at_first_fault(mem: Seq<Instruction>, failed: int, count: int)
    requires
        0 <= failed <= count,
        dump_rows(mem, failed) is Err,
    ensures
        dump_rows(mem, count) == dump_rows(mem, failed),
    decreases count - failed,
{
    if failed < count {
        dump_stops_at_first_fault(mem, failed, count - 1);
    }
}

fn push_dump_row(out: &mut Vec<char>, index: usize, word: Instruction) -> (done: Result<(), Fault>)
    ensures
        done is Ok ==> dump_row(index as int, word) is Ok && final(out)@ == old(out)@ + dump_row(
            index as int,
            word,
        ).unwrap(),
        done matches Err(fault) ==> dump_row(index as int, word) == Err::<Seq<char>, Fault>(fault)
            && final(out)@ == old(out)@,
{
    let fields = match word.decode() {
        Some(fields) => fields,
        None => {
            return Err(Fault::InvalidOpcode { word: word.raw });
        },
    };
    let mut line: Vec<char> = Vec::new();
    push_decimal(&mut line, index);
    line.push(' ');
    let mut bits: Vec<char> = Vec::new();
    push_binary(&mut bits, word.raw as usize);
    push_right_aligned(&mut line, &bits, 15, '0');
    line.push(' ');
    if fields.code == Code::NULL {
        push_decimal(&mut line, word.raw as usize);
    } else {
        push_text(&mut line, &fields.text());
    }
    line.push('\n');
    assert(line@ =~= dump_row(index as int, word).unwrap());
    push_text(out, &line);
    Ok(())
}

fn push_column(out: &mut Vec<char>, text: &Vec<char>, width: usize)
    ensures
        final(out)@ == old(out)@ + column(text@, width as int),
{
    push_left_aligned(out, text, width, ' ');
    out.push(' ');
    assert(out@ =~= old(out)@ + column(text@, width as int));
}

fn push_table_line(
    out: &mut Vec<char>,
    id: &Vec<char>,
    binary: &Vec<char>,
    instruction: &Vec<char>,
    number: &Vec<char>,
)
    ensures
        final(out)@ == old(out)@ + table_line(id@, binary@, instruction@, number@),
{
    push_column(out, id, 4);
    push_column(out, binary, 17);
    push_column(out, instruction, 20);
    push_column(out, number, 15);
    out.push('\n');
    assert(out@ =~= old(out)@ + table_line(id@, binary@, instruction@, number@));
}

fn push_table_head(out: &mut Vec<char>)
    ensures
        final(out)@ == old(out)@ + table_head(),
{
    push_table_line(
        out,
        &characters("ID"),
        &characters("Binary repr"),
        &characters("Instruction repr"),
        &characters("Number repr"),
    );
    push_fill(out, '-', 4);
    push_fill(out, '-', 17);
    push_fill(out, '-', 20);
    push_fill(out, '-', 15);
    out.push('\n');
    assert(out@ =~= old(out)@ + table_head());
}

fn push_table_row(out: &mut Vec<char>, index: usize, word: Instruction) -> (done: Result<(), Fault>)
    ensures
        done is Ok ==> table_row(index as int, word) is Ok && final(out)@ == old(out)@ + table_row(
            index as int,
            word,
        ).unwrap(),
        done matches Err(fault) ==> table_row(index as int, word) == Err::<Seq<char>, Fault>(fault)
            && final(out)@ == old(out)@,
{
    let fields = match word.decode() {
        Some(fields) => fields,
        None => {
            return Err(Fault::InvalidOpcode { word: word.raw });
        },
    };
    let mut id: Vec<char> = Vec::new();
    push_decimal(&mut id, index);
    let mut bits: Vec<char> = Vec::new();
    push_binary(&mut bits, word.raw as usize);
    let mut binary: Vec<char> = Vec::new();
    push_right_aligned(&mut binary, &bits, 15, '0');
    let instruction = fields.text();
    let mut number: Vec<char> = Vec::new();
    push_decimal(&mut number, word.raw as usize);
    assert(id@ =~= decimal_text(index as nat));
    assert(binary@ =~= right_aligned(binary_text(word.raw as nat), 15, '0'));
    assert(number@ =~= decimal_text(word.raw as nat));
    push_table_line(out, &id, &binary, &instruction, &number);
    Ok(())
}

/// The memory. Its view is the sequence of its 512 words.
pub struct MEM {
    pub inner: [Instruction; 512],
}

impl View for MEM {
    type V = Seq<Instruction>;

    open spec fn view(&self) -> Seq<Instruction> {
        self.inner@
    }
}

impl MEM {
    /// A memory that holds the given words.
    pub fn new(inner: [Instruction; 512]) -> (mem: MEM)
        ensures
            mem@ == inner@,
            mem@.len() == 512,
    {
        MEM { inner }
    }

    /// Writes `val` at address `i`. Outside the memory nothing is written.
    pub fn set(&mut self, i: u16, val: u16) -> (done: Result<(), Fault>)
        ensures
            done is Ok <==> i < 512,
            done is Ok ==> written(old(self)@, i as int, val) == Ok::<Seq<Instruction>, Fault>(
                final(self)@,
            ),
            done matches Err(fault) ==> written(old(self)@, i as int, val) == Err::<
                Seq<Instruction>,
                Fault,
            >(fault) && *final(self) == *old(self),
    {
        if i >= 512 {
            return Err(Fault::OutOfBounds { address: i as usize });
        }
        self.inner[i as usize] = Instruction { raw: val };
        Ok(())
    }

    /// Reads the word at address `i`.
    pub fn get(&self, i: u16) -> (word: Result<Instruction, Fault>)
        ensures
            word == read(self@, i as int),
            word is Ok <==> i < 512,
    {
        if i >= 512 {
            return Err(Fault::OutOfBounds { address: i as usize });
        }
        Ok(self.inner[i as usize])
    }

    /// Reads the word at address `i` as plain data.
    pub fn get_raw(&self, i: u16) -> (raw: Result<u16, Fault>)
        ensures
            raw is Ok <==> i < 512,
            raw matches Ok(value) ==> read(self@, i as int) == Ok::<Instruction, Fault>(
                Instruction { raw: value },
            ),
            raw matches Err(fault) ==> read(self@, i as int) == Err::<Instruction, Fault>(fault),
    {
        match self.get(i) {
            Ok(word) => Ok(word.raw),
            Err(fault) => Err(fault),
        }
    }

    /// Renders the words from `from` up to, but not including, `to` as a
    /// table. A range that is empty gives the head alone. A range that
    /// reaches beyond the memory, or onto a word that cannot be read as an
    /// instruction, gives that fault.
    pub fn print_table(&self, from: usize, to: usize) -> (text: Result<Vec<char>, Fault>)
        ensures
            text matches Ok(t) ==> table(self@, from as int, to as int) == Ok::<Seq<char>, Fault>(
                t@,
            ),
            text matches Err(fault) ==> table(self@, from as int, to as int) == Err::<
                Seq<char>,
                Fault,
            >(fault),
    {
        let mut out: Vec<char> = Vec::new();
        push_table_head(&mut out);
        let ghost head = out@;
        assert(head =~= table_head());
        let mut i = from;
        while i < to
            invariant
                from <= i <= to || (i == from && from > to),
                table_rows(self@, from as int, i as int) is Ok,
                out@ == head + table_rows(self@, from as int, i as int).unwrap(),
            decreases to - i,
        {
            if i >= 512 {
                proof {
                    rows_stop_at_first_fault(self@, from as int, i + 1, to as int);
                }
                return Err(Fault::OutOfBounds { address: i });
            }
            match push_table_row(&mut out, i, self.inner[i]) {
                Ok(()) => {
                    assert(out@ =~= head + table_rows(self@, from as int, i + 1).unwrap());
                },
                Err(fault) => {
                    proof {
                        rows_stop_at_first_fault(self@, from as int, i + 1, to as int);
                    }
                    return Err(fault);
                },
            }
            i += 1;
        }
        out.push('\n');
        assert(out@ =~= table_head() + table_rows(self@, from as int, to as int).unwrap()
            + seq!['\n']);
        Ok(out)
    }

    /// Renders every word of the memory, one line to a word.
    pub fn dump(&self) -> (text: Result<Vec<char>, Fault>)
        ensures
            text matches Ok(t) ==> dump_rows(self@, 512) == Ok::<Seq<char>, Fault>(t@),
            text matches Err(fault) ==> dump_rows(self@, 512) == Err::<Seq<char>, Fault>(fault),
    {
        let mut out: Vec<char> = Vec::new();
        let mut i: usize = 0;
        while i < 512
            invariant
                i <= 512,
                dump_rows(self@, i as int) == Ok::<Seq<char>, Fault>(out@),
            decreases 512 - i,
        {
            match push_dump_row(&mut out, i, self.inner[i]) {
                Ok(()) => {},
                Err(fault) => {
                    proof {
                        dump_stops_at_first_fault(self@, i + 1, 512);
                    }
                    return Err(fault);
                },
            }
            i += 1;
        }
        Ok(out)
    }
}

/// Once a line has failed, the lines below it change nothing.
proof fn rows_stop_at_first_fault(mem: Seq<Instruction>, from: int, failed: int, to: int)
    requires
        from <= failed <= to,
        table_rows(mem, from, failed) is Err,
    ensures
        table_rows(mem, from, to) == table_rows(mem, from, failed),
    decreases to - failed,
{
    if failed < to {
        rows_stop_at_first_fault(mem, from, failed, to - 1);
    }
}

} // verus!
