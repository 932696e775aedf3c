//! The interactive debugger: its three states, its commands and its
//! breakpoints.
use crate::fault::Fault;
use crate::instruction::{InnerInstruction, Instruction};
use crate::mem::{read, MEM};
use crate::text::{characters, decimal_text, push_decimal, push_signed, push_text, signed_text};
use vstd::prelude::*;

verus! {

/// What the debugger is doing.
///
/// `DISABLED` runs without any interaction and never looks at breakpoints.
/// `ENABLED` stops before every instruction and asks for a command.
/// `WAITING_FOR_BREAKPOINT` runs without asking until the program counter
/// reaches a breakpoint, and is `ENABLED` from then on.
#[allow(non_camel_case_types)]
#[derive(Debug, Clone, Copy, PartialEq, Eq, PartialOrd, Ord, Structural)]
pub enum InteractiveState {
    DISABLED,
    ENABLED,
    WAITING_FOR_BREAKPOINT,
}

impl InteractiveState {
    /// Whether the debugger asks before every instruction.
    pub fn is_enabled(&self) -> (enabled: bool)
        ensures
            enabled <==> *self == InteractiveState::ENABLED,
    {
        return *self == Self::ENABLED
    }

    /// Whether the debugger lets everything pass.
    pub fn is_disabled(&self) -> (disabled: bool)
        ensures
            disabled <==> *self == InteractiveState::DISABLED,
    {
        return *self == Self::DISABLED
    }

    /// Whether the debugger waits for a breakpoint.
    pub fn is_waiting_bp(&self) -> (waiting: bool)
        ensures
            waiting <==> *self == InteractiveState::WAITING_FOR_BREAKPOINT,
    {
        return *self == Self::WAITING_FOR_BREAKPOINT
    }
}

/// One line of input at the debugger's prompt, once it has been understood.
#[derive(Debug)]
pub struct InteractiveCli {
    pub cmd: Command,
}

impl InteractiveCli {
    /// What is shown when an interactive run starts. It tells nothing of the
    /// machine and changes nothing.
    pub fn start_banner() -> (banner: &'static str)
        ensures
            banner@ == (
            "_________  ________   _   ____  ___\n\
             | ___ \\  \\/  /  __ \\ | | | |  \\/  |\n\
             | |_/ / .  . | /  \\/ | | | | .  . |\n\
             |  __/| |\\/| | |     | | | | |\\/| |\n\
             | |   | |  | | \\__/\\ \\ \\_/ / |  | |\n\
             \\_|   \\_|  |_\\/____/  \\___/|_|  |_| by poneciak\n\
             Welcome to interactive mode type 'help' for more info\n\
             Every instruction is displayed and then you can type your command\n\
             \n"
            )@,
    {
        "_________  ________   _   ____  ___\n\
         | ___ \\  \\/  /  __ \\ | | | |  \\/  |\n\
         | |_/ / .  . | /  \\/ | | | | .  . |\n\
         |  __/| |\\/| | |     | | | | |\\/| |\n\
         | |   | |  | | \\__/\\ \\ \\_/ / |  | |\n\
         \\_|   \\_|  |_\\/____/  \\___/|_|  |_| by poneciak\n\
         Welcome to interactive mode type 'help' for more info\n\
         Every instruction is displayed and then you can type your command\n\
         \n"
    }
}

/// The debugger's commands.
#[allow(non_camel_case_types)]
#[derive(Debug, PartialEq, Eq)]
pub enum Command {
    /// Proceed to the next instruction.
    NEXT,
    /// Continue until the next breakpoint.
    NEXT_BREAKPOINT,
    /// Add a breakpoint at a line.
    ADD_BREAKPOINT { line: usize },
    /// Delete the breakpoint at a line, if there is one.
    DELETE_BREAKPOINT { line: usize },
    /// List all breakpoints.
    LIST_BREAKPOINTS,
    /// Abort execution.
    QUIT,
    /// Leave interactive mode and finish execution.
    FINISH,
    /// Show memory from `from` up to, but not including, `to`, on the
    /// console or, where `file` is given, in that file.
    MEM { from: usize, to: usize, file: Option<String> },
}

/// What the debugger shows when it asks for a command: the address of the
/// instruction that has just been fetched, the instruction, and the
/// accumulator.
#[allow(non_snake_case)]
#[derive(Debug, Clone, Copy, PartialEq, Eq, Structural)]
pub struct Prompt {
    pub address: u16,
    pub instruction: InnerInstruction,
    pub AC: i16,
}

impl Prompt {
    /// The prompt as it is shown: the address, the names of the operation
    /// and the mode, the address magnitude, and the accumulator.
    pub open spec fn text(self) -> Seq<char> {
        decimal_text(self.address as nat) + ": "@ + self.instruction.code.name() + " "@
            + self.instruction.adrt.name() + " "@ + decimal_text(self.instruction.adr as nat)
            + " AC="@ + signed_text(self.AC as int)
    }

    /// The prompt as it is shown.
    pub fn line(&self) -> (line: Vec<char>)
        ensures
            line@ == self.text(),
    {
        let mut line: Vec<char> = Vec::new();
        push_decimal(&mut line, self.address as usize);
        push_text(&mut line, &characters(": "));
        push_text(&mut line, &self.instruction.code.mnemonic());
        push_text(&mut line, &characters(" "));
        push_text(&mut line, &self.instruction.adrt.mnemonic());
        push_text(&mut line, &characters(" "));
        push_decimal(&mut line, self.instruction.adr as usize);
        push_text(&mut line, &characters(" AC="));
        push_signed(&mut line, self.AC);
        assert(line@ =~= self.text());
        line
    }
}

/// The list of breakpoints as it is shown: a heading, and a line for each
/// breakpoint with its address and the instruction there.
pub open spec fn listing_text(list: Seq<(usize, InnerInstruction)>) -> Seq<char>
    decreases list.len(),
{
    if list.len() == 0 {
        "Current breakpoints:\n"@
    } else {
        listing_text(list.drop_last()) + " - "@ + decimal_text(list.last().0 as nat) + ": "@
            + list.last().1.code.name() + " "@ + list.last().1.adrt.name() + " "@ + decimal_text(
            list.last().1.adr as nat,
        ) + "\n"@
    }
}

/// Renders the list of breakpoints as it is shown.
pub fn show_listing(list: &Vec<(usize, InnerInstruction)>) -> (text: Vec<char>)
    ensures
        text@ == listing_text(list@),
{
    let mut text = characters("Current breakpoints:\n");
    let mut i: usize = 0;
    assert(list@.subrange(0, 0) =~= Seq::<(usize, InnerInstruction)>::empty());
    while i < list.len()
        invariant
            i <= list.len(),
            text@ == listing_text(list@.subrange(0, i as int)),
        decreases list.len() - i,
    {
        let ghost above = text@;
        let (line, instruction) = list[i];
        push_text(&mut text, &characters(" - "));
        push_decimal(&mut text, line);
        push_text(&mut text, &characters(": "));
        push_text(&mut text, &instruction.code.mnemonic());
        push_text(&mut text, &characters(" "));
        push_text(&mut text, &instruction.adrt.mnemonic());
        push_text(&mut text, &characters(" "));
        push_decimal(&mut text, instruction.adr as usize);
        push_text(&mut text, &characters("\n"));
        proof {
            let prefix = list@.subrange(0, i + 1);
            assert(prefix.drop_last() =~= list@.subrange(0, i as int));
            assert(prefix.last() == list@[i as int]);
            assert(text@ =~= listing_text(prefix));
        }
        i += 1;
    }
    assert(list@.subrange(0, i as int) =~= list@);
    text
}

/// The breakpoints: a set of lines, kept in the order in which they were
/// added. Its view is that sequence, in which no line occurs twice.
pub struct Breakpoints {
    lines: Vec<usize>,
}

impl View for Breakpoints {
    type V = Seq<usize>;

    closed spec fn view(&self) -> Seq<usize> {
        self.lines@
    }
}

impl Breakpoints {
    #[verifier::type_invariant]
    spec fn no_line_twice(self) -> bool {
        self.lines@.no_duplicates()
    }

    /// No breakpoints.
    pub fn new() -> (breakpoints: Breakpoints)
        ensures
            breakpoints@ == Seq::<usize>::empty(),
    {
        Breakpoints { lines: Vec::new() }
    }

    /// Whether there is a breakpoint at `line`.
    pub fn contains(&self, line: usize) -> (found: bool)
        ensures
            found == self@.contains(line),
    {
        self.position(line).is_some()
    }

    /// Where in the sequence `line` stands.
    fn position(&self, line: usize) -> (position: Option<usize>)
        ensures
            position is Some <==> self@.contains(line),
            position matches Some(i) ==> i < self@.len() && self@[i as int] == line
                && self@.index_of_first(line) == Some(i as int),
            position is None ==> self@.index_of_first(line) is None,
    {
        let mut i: usize = 0;
        while i < self.lines.len()
            invariant
                i <= self.lines.len(),
                forall|j: int| 0 <= j < i ==> self.lines@[j] != line,
            decreases self.lines.len() - i,
        {
            if self.lines[i] == line {
                proof {
                    self@.index_of_first_ensures(line);
                    assert(self@[i as int] == line);
                }
                return Some(i);
            }
            i += 1;
        }
        proof {
            self@.index_of_first_ensures(line);
        }
        None
    }

    /// Adds a breakpoint at `line`. Where there is one already, nothing
    /// changes.
    pub fn add(&mut self, line: usize)
        ensures
            final(self)@ == if old(self)@.contains(line) {
                old(self)@
            } else {
                old(self)@.push(line)
            },
            forall|other: usize|
                final(self)@.contains(other) <==> old(self)@.contains(other) || other == line,
            final(self)@.no_duplicates(),
    {
        proof {
            use_type_invariant(&*self);
        }
        if !self.contains(line) {
            let mut lines = self.list();
            lines.push(line);
            *self = Breakpoints { lines };
            assert(self.lines@.last() == line);
            assert forall|other: usize| self.lines@.contains(other) implies old(self)@.contains(
                other,
            ) || other == line by {
                let i = choose|i: int| 0 <= i < self.lines@.len() && self.lines@[i] == other;
                if i < old(self)@.len() {
                    assert(old(self)@[i] == other);
                }
            }
            assert forall|other: usize| old(self)@.contains(other) implies self.lines@.contains(
                other,
            ) by {
                let i = choose|i: int| 0 <= i < old(self)@.len() && old(self)@[i] == other;
                assert(self.lines@[i] == other);
            }
        }
    }

    /// Deletes the breakpoint at `line`. Where there is none, nothing
    /// changes.
    pub fn delete(&mut self, line: usize)
        ensures
            final(self)@ == old(self)@.remove_value(line),
            forall|other: usize|
                final(self)@.contains(other) <==> old(self)@.contains(other) && other != line,
            final(self)@.no_duplicates(),
    {
        proof {
            use_type_invariant(&*self);
        }
        match self.position(line) {
            Some(at) => {
                let mut lines = self.list();
                lines.remove(at);
                proof {
                    let before = old(self)@;
                    let after = lines@;
                    assert forall|i: int, j: int|
                        0 <= i < after.len() && 0 <= j < after.len() && i != j implies after[i]
                        != after[j] by {
                        let bi = if i < at { i } else { i + 1 };
                        let bj = if j < at { j } else { j + 1 };
                        assert(after[i] == before[bi] && after[j] == before[bj]);
                    }
                }
                *self = Breakpoints { lines };
                let ghost before = old(self)@;
                let ghost after = self.lines@;
                assert forall|other: usize| after.contains(other) implies before.contains(other)
                    && other != line by {
                    let i = choose|i: int| 0 <= i < after.len() && after[i] == other;
                    let bi = if i < at { i } else { i + 1 };
                    assert(before[bi] == other);
                }
                assert forall|other: usize| before.contains(other) && other != line implies after.contains(
                    other,
                ) by {
                    let i = choose|i: int| 0 <= i < before.len() && before[i] == other;
                    let ai = if i < at { i } else { i - 1 };
                    assert(after[ai] == other);
                }
            },
            None => {},
        }
    }

    /// The breakpoints, in the order in which they were added.
    pub fn list(&self) -> (lines: Vec<usize>)
        ensures
            lines@ == self@,
    {
        let mut lines: Vec<usize> = Vec::new();
        let mut i: usize = 0;
        while i < self.lines.len()
            invariant
                i <= self.lines.len(),
                lines@ == self.lines@.subrange(0, i as int),
            decreases self.lines.len() - i,
        {
            lines.push(self.lines[i]);
            assert(lines@ =~= self.lines@.subrange(0, i + 1));
            i += 1;
        }
        assert(lines@ =~= self.lines@);
        lines
    }

    /// The breakpoints in the order in which they were added, each with the
    /// instruction at its address.
    pub fn listing(&self, mem: &MEM) -> (list: Result<Vec<(usize, InnerInstruction)>, Fault>)
        ensures
            match listing(self@, mem@) {
                Ok(entries) => list matches Ok(l) && l@ == entries,
                Err(fault) => list matches Err(f) && f == fault,
            },
    {
        let lines = self.list();
        let mut list: Vec<(usize, InnerInstruction)> = Vec::new();
        let mut i: usize = 0;
        assert(lines@.subrange(0, 0) =~= Seq::<usize>::empty());
        while i < lines.len()
            invariant
                i <= lines.len(),
                lines@ == self@,
                listing(lines@.subrange(0, i as int), mem@) == Ok::<
                    Seq<(usize, InnerInstruction)>,
                    Fault,
                >(list@),
            decreases lines.len() - i,
        {
            let line = lines[i];
            assert(lines@.subrange(0, i + 1).drop_last() =~= lines@.subrange(0, i as int));
            if line >= 512 {
                proof {
                    listing_stops_at_first_fault(lines@, mem@, i + 1);
                }
                return Err(Fault::OutOfBounds { address: line });
            }
            match mem.inner[line].decode() {
                Some(fields) => {
                    list.push((line, fields));
                },
                None => {
                    proof {
                        listing_stops_at_first_fault(lines@, mem@, i + 1);
                    }
                    return Err(Fault::InvalidOpcode { word: mem.inner[line].raw });
                },
            }
            i += 1;
        }
        assert(lines@.subrange(0, i as int) =~= lines@);
        Ok(list)
    }
}

/// The breakpoints listed with the instructions at their addresses, or the
/// fault of the first breakpoint that cannot be listed: because it lies
/// outside the memory, or because the word there cannot be read as an
/// instruction.
pub open spec fn listing(lines: Seq<usize>, mem: Seq<Instruction>) -> Result<
    Seq<(usize, InnerInstruction)>,
    Fault,
>
    decreases lines.len(),
{
    if lines.len() == 0 {
        Ok(Seq::empty())
    } else {
        match listing(lines.drop_last(), mem) {
            Err(fault) => Err(fault),
            Ok(above) => match read(mem, lines.last() as int) {
                Err(fault) => Err(fault),
                Ok(word) => match word.fields() {
                    None => Err(Fault::InvalidOpcode { word: word.raw }),
                    Some(fields) => Ok(above.push((lines.last(), fields))),
                },
            },
        }
    }
}

/// Once a breakpoint has failed, those after it change nothing.
proof fn listing_stops_at_first_fault(lines: Seq<usize>, mem: Seq<Instruction>, failed: int)
    requires
        0 <= failed <= lines.len(),
        listing(lines.subrange(0, failed), mem) is Err,
    ensures
        listing(lines, mem) == listing(lines.subrange(0, failed), mem),
    decreases lines.len() - failed,
{
    if failed < lines.len() {
        assert(lines.drop_last().subrange(0, failed) =~= lines.subrange(0, failed));
        listing_stops_at_first_fault(lines.drop_last(), mem, failed);
    } else {
        assert(lines.subrange(0, failed) =~= lines);
    }
}

/// The debugger's own state: what it is doing, its breakpoints, and, while
/// it waits for a command, what it has shown at the prompt.
pub struct Debugger {
    pub state: InteractiveState,
    pub breakpoints: Breakpoints,
    pub prompt: Option<Prompt>,
}

impl Debugger {
    /// A debugger in the given state, with no breakpoints and not waiting
    /// for a command.
    pub fn new(state: InteractiveState) -> (debugger: Debugger)
        ensures
            debugger.state == state,
            debugger.breakpoints@ == Seq::<usize>::empty(),
            debugger.prompt is None,
    {
        Debugger { state, breakpoints: Breakpoints::new(), prompt: None }
    }
}

} // verus!
