//! The execution engine: registers, the fetch-decode-execute cycle, and the
//! debugger's hold on it.
//!
//! A cycle fetches the word at the program counter and moves the counter on
//! by one, resolves the operand by the word's addressing mode, and carries
//! out the word's operation. The debugger may stop the cycle between the
//! fetch and the operand, to ask for a command.
//!
//! A fault ends a run. Whatever raised it has changed nothing: registers,
//! memory and debugger are as they were before the call, so the same call
//! raises the same fault again.
use crate::fault::Fault;
use crate::instruction::{Adrt, Code, InnerInstruction, Instruction};
use crate::interactive::{listing, Command, Debugger, InteractiveState, Prompt};
use crate::mem::{read, table, written, MEM};
use crate::text::{characters, decimal_text, push_decimal, push_signed, push_text, signed_text};
use vstd::prelude::*;

verus! {

/// Whether the engine still runs.
#[derive(Clone, Copy, Debug, PartialEq, Eq, Structural)]
pub enum Status {
    RUNNING,
    /// Reached by `STOP` or by the debugger's `quit`, and never left.
    HALTED,
}

/// The engine's registers: the instruction being carried out, the program
/// counter, the accumulator and the operand of the current instruction.
#[allow(non_snake_case)]
#[derive(Clone, Copy, Debug, PartialEq, Eq, Structural)]
pub struct PROC {
    pub IR: Instruction,
    pub PC: u16,
    pub AC: i16,
    pub OP: i16,
    pub status: Status,
}

/// Sixteen bits read as an unsigned number, given their signed reading.
pub open spec fn unsigned(value: i16) -> int {
    if value < 0 {
        value + 0x10000
    } else {
        value as int
    }
}

/// Sixteen bits read as a signed number in two's complement, given their
/// unsigned reading.
pub open spec fn signed(word: u16) -> int {
    if word >= 0x8000 {
        word - 0x10000
    } else {
        word as int
    }
}

/// A number reduced to sixteen signed bits, as native arithmetic wraps it.
pub open spec fn wrap(value: int) -> int {
    (value + 0x8000) % 0x10000 - 0x8000
}

/// By how many bits a shift moves: the operand's low four bits.
pub open spec fn shift_amount(operand: i16) -> u32 {
    (unsigned(operand) % 16) as u32
}

/// The registers after a fetch: the word at the program counter is in the
/// instruction register, and the counter is one further.
pub open spec fn fetched(proc: PROC, mem: Seq<Instruction>) -> Result<PROC, Fault> {
    match read(mem, proc.PC as int) {
        Ok(word) => Ok(PROC { IR: word, PC: (proc.PC + 1) as u16, ..proc }),
        Err(fault) => Err(fault),
    }
}

/// The address that the operand is read from, for the modes that read
/// memory. A signed address or a sum that is negative stands for the
/// unsigned number of the same sixteen bits, which lies outside the memory.
pub open spec fn effective_address(
    word: Instruction,
    accumulator: i16,
    mem: Seq<Instruction>,
) -> Option<int> {
    match word.mode() {
        Adrt::DOT => None,
        Adrt::AT => Some(unsigned(word.signed_address() as i16)),
        Adrt::STAR => Some(mem[word.magnitude()].raw as int),
        Adrt::PLUS => Some(unsigned(wrap(accumulator + word.signed_address()) as i16)),
    }
}

/// The operand of an instruction word: its signed address itself for the
/// immediate mode, and for the others the data at the effective address.
pub open spec fn operand(word: Instruction, accumulator: i16, mem: Seq<Instruction>) -> Result<
    i16,
    Fault,
> {
    match effective_address(word, accumulator, mem) {
        None => Ok(word.signed_address() as i16),
        Some(address) => match read(mem, address) {
            Ok(data) => Ok(signed(data.raw) as i16),
            Err(fault) => Err(fault),
        },
    }
}

/// Registers and memory after the operation in the instruction register has
/// been carried out on the operand in `OP`.
pub open spec fn executed(proc: PROC, mem: Seq<Instruction>) -> Result<
    (PROC, Seq<Instruction>),
    Fault,
> {
    match proc.IR.opcode() {
        None => Err(Fault::InvalidOpcode { word: proc.IR.raw }),
        Some(code) => match code {
            Code::NULL => Ok((proc, mem)),
            Code::STOP => Ok((PROC { status: Status::HALTED, ..proc }, mem)),
            Code::LOAD => Ok((PROC { AC: proc.OP, ..proc }, mem)),
            Code::STORE => match written(mem, unsigned(proc.OP), unsigned(proc.AC) as u16) {
                Ok(mem) => Ok((proc, mem)),
                Err(fault) => Err(fault),
            },
            Code::JUMP => Ok((PROC { PC: unsigned(proc.OP) as u16, ..proc }, mem)),
            Code::JNEG => Ok(
                (
                    if proc.AC < 0 {
                        PROC { PC: unsigned(proc.OP) as u16, ..proc }
                    } else {
                        proc
                    },
                    mem,
                ),
            ),
            Code::JZERO => Ok(
                (
                    if proc.AC == 0 {
                        PROC { PC: unsigned(proc.OP) as u16, ..proc }
                    } else {
                        proc
                    },
                    mem,
                ),
            ),
            Code::ADD => Ok((PROC { AC: wrap(proc.AC + proc.OP) as i16, ..proc }, mem)),
            Code::SUB => Ok((PROC { AC: wrap(proc.AC - proc.OP) as i16, ..proc }, mem)),
            Code::AND => Ok((PROC { AC: proc.AC & proc.OP, ..proc }, mem)),
            Code::OR => Ok((PROC { AC: proc.AC | proc.OP, ..proc }, mem)),
            Code::NOT => Ok((PROC { AC: !proc.AC, ..proc }, mem)),
            Code::XOR => Ok((PROC { AC: proc.AC ^ proc.OP, ..proc }, mem)),
            Code::SHL => Ok((PROC { AC: proc.AC << shift_amount(proc.OP), ..proc }, mem)),
            Code::SHR => Ok((PROC { AC: proc.AC >> shift_amount(proc.OP), ..proc }, mem)),
        },
    }
}

/// A write to memory: where, and the new value.
#[derive(Clone, Copy, Debug, PartialEq, Eq, Structural)]
pub struct Stored {
    pub address: u16,
    pub value: u16,
}

/// What a cycle leaves to be shown.
#[allow(non_snake_case)]
#[derive(Clone, Copy, Debug, PartialEq, Eq, Structural)]
pub struct Report {
    /// Whether the cycle is to be echoed: it is unless the debugger is
    /// `DISABLED`.
    pub echo: bool,
    /// What a `STORE` wrote.
    pub stored: Option<Stored>,
    /// The program counter after the cycle.
    pub PC: u16,
    /// The accumulator after the cycle.
    pub AC: i16,
    /// Whether the cycle halted the engine.
    pub halted: bool,
}

impl Stored {
    /// The write as it is echoed.
    pub open spec fn text(self) -> Seq<char> {
        "  Modified MEM["@ + decimal_text(self.address as nat) + "] = "@ + decimal_text(
            self.value as nat,
        ) + "\n"@
    }
}

impl Report {
    /// What is echoed of the cycle: nothing where it is not to be echoed;
    /// else the write of a `STORE`, the program counter and the accumulator,
    /// and an empty line.
    pub open spec fn text(self) -> Seq<char> {
        if self.echo {
            (match self.stored {
                Some(stored) => stored.text(),
                None => Seq::empty(),
            }) + "  PC="@ + decimal_text(self.PC as nat) + ", AC="@ + signed_text(self.AC as int)
                + "\n\n"@
        } else {
            Seq::empty()
        }
    }

    /// Renders what is echoed of the cycle.
    pub fn show(&self) -> (text: Vec<char>)
        ensures
            text@ == self.text(),
    {
        let mut text: Vec<char> = Vec::new();
        if self.echo {
            match self.stored {
                Some(stored) => {
                    push_text(&mut text, &characters("  Modified MEM["));
                    push_decimal(&mut text, stored.address as usize);
                    push_text(&mut text, &characters("] = "));
                    push_decimal(&mut text, stored.value as usize);
                    push_text(&mut text, &characters("\n"));
                    assert(text@ =~= stored.text());
                },
                None => {},
            }
            push_text(&mut text, &characters("  PC="));
            push_decimal(&mut text, self.PC as usize);
            push_text(&mut text, &characters(", AC="));
            push_signed(&mut text, self.AC);
            push_text(&mut text, &characters("\n\n"));
            assert(text@ =~= self.text());
        }
        text
    }
}

/// What the engine did when it was asked to go on.
#[derive(Clone, Copy, Debug, PartialEq, Eq, Structural)]
pub enum Action {
    /// Nothing: the engine is halted.
    Halted,
    /// It has fetched an instruction and waits for a command.
    Prompt(Prompt),
    /// It has carried out one cycle.
    Cycle(Report),
}

/// How a run ended: how many cycles it carried out, and the last thing the
/// engine did, or `None` where the run used up its budget.
#[derive(Clone, Copy, Debug, PartialEq, Eq, Structural)]
pub struct Run {
    pub cycles: u64,
    pub last: Option<Action>,
}

/// The answer to a command.
#[derive(Debug, PartialEq, Eq)]
pub enum Reply {
    /// The engine was not waiting for a command, and has not taken this one.
    Unexpected,
    /// The command let the engine go on, and the cycle is complete.
    Cycle(Report),
    /// The breakpoints are changed; the engine waits for the next command.
    Done,
    /// The breakpoints in the order in which they were added, each with the
    /// instruction at its address; the engine waits for the next command.
    Breakpoints(Vec<(usize, InnerInstruction)>),
    /// A table of memory, to be shown on the console or, where `file` is
    /// given, written to that file; the engine waits for the next command.
    Window { text: Vec<char>, file: Option<String> },
    /// The engine is halted.
    Quit,
}

/// The answer to a command, with sequences for vectors.
pub enum Answer {
    Unexpected,
    Cycle(Report),
    Done,
    Breakpoints(Seq<(usize, InnerInstruction)>),
    Window { text: Seq<char>, file: Option<String> },
    Quit,
}

impl View for Reply {
    type V = Answer;

    open spec fn view(&self) -> Answer {
        match *self {
            Reply::Unexpected => Answer::Unexpected,
            Reply::Cycle(report) => Answer::Cycle(report),
            Reply::Done => Answer::Done,
            Reply::Breakpoints(list) => Answer::Breakpoints(list@),
            Reply::Window { text, file } => Answer::Window { text: text@, file },
            Reply::Quit => Answer::Quit,
        }
    }
}

/// What is shown of a cycle: `resolved` holds the registers when the operand
/// had been resolved, `after` the registers when the cycle was complete.
pub open spec fn report(resolved: PROC, after: PROC, state: InteractiveState) -> Report {
    Report {
        echo: state != InteractiveState::DISABLED,
        stored: if resolved.IR.opcode() == Some(Code::STORE) {
            Some(
                Stored {
                    address: unsigned(resolved.OP) as u16,
                    value: unsigned(resolved.AC) as u16,
                },
            )
        } else {
            None
        },
        PC: after.PC,
        AC: after.AC,
        halted: after.status == Status::HALTED,
    }
}

/// The rest of a cycle after the fetch: the operand is resolved and the
/// operation carried out.
pub open spec fn completed(proc: PROC, mem: Seq<Instruction>, state: InteractiveState) -> Result<
    (PROC, Seq<Instruction>, Report),
    Fault,
> {
    match operand(proc.IR, proc.AC, mem) {
        Err(fault) => Err(fault),
        Ok(op) => match executed(PROC { OP: op, ..proc }, mem) {
            Err(fault) => Err(fault),
            Ok((after, image)) => Ok((after, image, report(PROC { OP: op, ..proc }, after, state))),
        },
    }
}

/// Everything that a run consists of: registers, memory, and the debugger's
/// state, breakpoints and pending prompt.
pub struct Machine {
    pub proc: PROC,
    pub mem: Seq<Instruction>,
    pub state: InteractiveState,
    pub breakpoints: Seq<usize>,
    pub prompt: Option<Prompt>,
}

/// Where a run of several cycles ends.
pub struct Ran {
    pub machine: Machine,
    pub cycles: nat,
    pub end: Result<Option<Action>, Fault>,
}

/// The machine that registers, a memory and a debugger make up.
pub open spec fn machine(proc: PROC, mem: MEM, debugger: Debugger) -> Machine {
    Machine {
        proc,
        mem: mem@,
        state: debugger.state,
        breakpoints: debugger.breakpoints@,
        prompt: debugger.prompt,
    }
}

impl Machine {
    /// The machine after the look at the breakpoints that comes before every
    /// fetch: a debugger that waits for a breakpoint is enabled where the
    /// program counter stands on one. Nothing else changes, and a debugger
    /// in another state does not look.
    pub open spec fn armed(self) -> Machine {
        if self.state == InteractiveState::WAITING_FOR_BREAKPOINT && self.breakpoints.contains(
            self.proc.PC as usize,
        ) {
            Machine { state: InteractiveState::ENABLED, ..self }
        } else {
            self
        }
    }

    /// The machine after it was asked to go on, and what it did.
    ///
    /// A halted machine does nothing. One that waits for a command goes on
    /// waiting. Otherwise the debugger looks at the breakpoints and the
    /// engine fetches; then an enabled debugger shows the instruction and
    /// waits for a command, and any other lets the cycle complete.
    #[verifier::opaque]
    pub open spec fn stepped(self) -> (Machine, Result<Action, Fault>) {
        if self.proc.status == Status::HALTED {
            (self, Ok(Action::Halted))
        } else if self.prompt is Some {
            (self, Ok(Action::Prompt(self.prompt.unwrap())))
        } else {
            match fetched(self.proc, self.mem) {
                Err(fault) => (self, Err(fault)),
                Ok(proc) => if self.armed().state == InteractiveState::ENABLED {
                    match proc.IR.fields() {
                        None => (self, Err(Fault::InvalidOpcode { word: proc.IR.raw })),
                        Some(instruction) => {
                            let prompt = Prompt { address: self.proc.PC, instruction, AC: proc.AC };
                            (
                                Machine { proc, prompt: Some(prompt), ..self.armed() },
                                Ok(Action::Prompt(prompt)),
                            )
                        },
                    }
                } else {
                    match completed(proc, self.mem, self.state) {
                        Err(fault) => (self, Err(fault)),
                        Ok((after, image, report)) => (
                            Machine { proc: after, mem: image, ..self },
                            Ok(Action::Cycle(report)),
                        ),
                    }
                },
            }
        }
    }

    /// The machine after a command has let it go on with the debugger in
    /// `state`, and what there is to show of the cycle.
    pub open spec fn resumed(self, state: InteractiveState) -> (Machine, Result<Report, Fault>) {
        match completed(self.proc, self.mem, state) {
            Err(fault) => (self, Err(fault)),
            Ok((after, image, report)) => (
                Machine { proc: after, mem: image, state, prompt: None, ..self },
                Ok(report),
            ),
        }
    }

    /// The machine after a command.
    ///
    /// Where no prompt is pending, no command is taken. `NEXT` lets the
    /// cycle complete and leaves the debugger enabled, `NEXT_BREAKPOINT` and
    /// `FINISH` let it complete with the debugger waiting for a breakpoint
    /// or disabled. The two breakpoint commands change the breakpoints,
    /// `LIST_BREAKPOINTS` and `MEM` change nothing, and `QUIT` halts the
    /// engine where it stands.
    pub open spec fn commanded(self, command: Command) -> Machine {
        if self.prompt is None {
            self
        } else {
            match command {
                Command::NEXT => self.resumed(InteractiveState::ENABLED).0,
                Command::NEXT_BREAKPOINT => self.resumed(
                    InteractiveState::WAITING_FOR_BREAKPOINT,
                ).0,
                Command::FINISH => self.resumed(InteractiveState::DISABLED).0,
                Command::ADD_BREAKPOINT { line } => Machine {
                    breakpoints: if self.breakpoints.contains(line) {
                        self.breakpoints
                    } else {
                        self.breakpoints.push(line)
                    },
                    ..self
                },
                Command::DELETE_BREAKPOINT { line } => Machine {
                    breakpoints: self.breakpoints.remove_value(line),
                    ..self
                },
                Command::LIST_BREAKPOINTS => self,
                Command::MEM { from, to, file } => self,
                Command::QUIT => Machine {
                    proc: PROC { status: Status::HALTED, ..self.proc },
                    prompt: None,
                    ..self
                },
            }
        }
    }

    /// The answer to a command.
    pub open spec fn replied(self, command: Command) -> Result<Answer, Fault> {
        if self.prompt is None {
            Ok(Answer::Unexpected)
        } else {
            match command {
                Command::NEXT => match self.resumed(InteractiveState::ENABLED).1 {
                    Ok(report) => Ok(Answer::Cycle(report)),
                    Err(fault) => Err(fault),
                },
                Command::NEXT_BREAKPOINT => match self.resumed(
                    InteractiveState::WAITING_FOR_BREAKPOINT,
                ).1 {
                    Ok(report) => Ok(Answer::Cycle(report)),
                    Err(fault) => Err(fault),
                },
                Command::FINISH => match self.resumed(InteractiveState::DISABLED).1 {
                    Ok(report) => Ok(Answer::Cycle(report)),
                    Err(fault) => Err(fault),
                },
                Command::ADD_BREAKPOINT { line } => Ok(Answer::Done),
                Command::DELETE_BREAKPOINT { line } => Ok(Answer::Done),
                Command::LIST_BREAKPOINTS => match listing(self.breakpoints, self.mem) {
                    Ok(list) => Ok(Answer::Breakpoints(list)),
                    Err(fault) => Err(fault),
                },
                Command::MEM { from, to, file } => match table(self.mem, from as int, to as int) {
                    Ok(text) => Ok(Answer::Window { text, file }),
                    Err(fault) => Err(fault),
                },
                Command::QUIT => Ok(Answer::Quit),
            }
        }
    }

    /// Where the machine stands after it has gone on for up to `budget`
    /// cycles on its own. It goes on as long as there is nothing to show and
    /// nothing to ask: it stops after a cycle that is to be echoed or that
    /// halts, at a prompt, at a fault, and when it finds itself halted.
    pub open spec fn ran(self, budget: nat) -> Ran
        decreases budget,
    {
        if budget == 0 {
            Ran { machine: self, cycles: 0, end: Ok(None) }
        } else {
            match self.stepped().1 {
                Err(fault) => Ran { machine: self.stepped().0, cycles: 0, end: Err(fault) },
                Ok(Action::Cycle(report)) => if report.echo || report.halted {
                    Ran {
                        machine: self.stepped().0,
                        cycles: 1,
                        end: Ok(Some(Action::Cycle(report))),
                    }
                } else {
                    Ran {
                        cycles: self.stepped().0.ran((budget - 1) as nat).cycles + 1,
                        ..self.stepped().0.ran((budget - 1) as nat)
                    }
                },
                Ok(action) => Ran { machine: self.stepped().0, cycles: 0, end: Ok(Some(action)) },
            }
        }
    }
}

/// Sixteen signed bits as the unsigned number of the same bits.
fn to_unsigned(value: i16) -> (word: u16)
    ensures
        word == unsigned(value),
{
    let word = value as u16;
    assert(word == if value < 0 {
        value + 0x10000
    } else {
        value as int
    }) by (bit_vector)
        requires
            word == value as u16,
    ;
    word
}

/// Sixteen unsigned bits as the signed number of the same bits.
fn to_signed(word: u16) -> (value: i16)
    ensures
        value == signed(word),
{
    let value = word as i16;
    assert(value == if word >= 0x8000 {
        word - 0x10000
    } else {
        word as int
    }) by (bit_vector)
        requires
            value == word as i16,
    ;
    value
}

impl PROC {
    /// The registers at the start of a run: all zero, and running.
    pub fn new() -> (proc: PROC)
        ensures
            proc == (PROC {
                IR: Instruction { raw: 0 },
                PC: 0,
                AC: 0,
                OP: 0,
                status: Status::RUNNING,
            }),
    {
        Self { IR: Instruction { raw: 0 }, PC: 0, AC: 0, OP: 0, status: Status::RUNNING }
    }

    /// Fetches: loads the word at the program counter into the instruction
    /// register and moves the counter on by one, whatever the word is.
    pub fn fetch(&mut self, mem: &MEM) -> (done: Result<(), Fault>)
        ensures
            done is Ok <==> old(self).PC < 512,
            done is Ok ==> fetched(*old(self), mem@) == Ok::<PROC, Fault>(*final(self))
                && final(self).PC == old(self).PC + 1 && final(self).IR == mem@[old(self).PC as int],
            done matches Err(fault) ==> fetched(*old(self), mem@) == Err::<PROC, Fault>(fault)
                && *final(self) == *old(self),
    {
        match mem.get(self.PC) {
            Ok(word) => {
                self.IR = word;
                self.PC = self.PC + 1;
                Ok(())
            },
            Err(fault) => Err(fault),
        }
    }

    /// Resolves the operand of the instruction in the instruction register
    /// and puts it into `OP`.
    pub fn resolve(&mut self, mem: &MEM) -> (done: Result<(), Fault>)
        ensures
            done is Ok ==> operand(old(self).IR, old(self).AC, mem@) == Ok::<i16, Fault>(
                final(self).OP,
            ) && *final(self) == (PROC { OP: final(self).OP, ..*old(self) }),
            done matches Err(fault) ==> operand(old(self).IR, old(self).AC, mem@) == Err::<
                i16,
                Fault,
            >(fault) && *final(self) == *old(self),
    {
        let address = match self.IR.adrt() {
            Adrt::DOT => {
                self.OP = self.IR.adr_val();
                return Ok(());
            },
            Adrt::AT => to_unsigned(self.IR.adr_val()),
            Adrt::STAR => match mem.get_raw(self.IR.adr()) {
                Ok(address) => address,
                Err(fault) => {
                    return Err(fault);
                },
            },
            Adrt::PLUS => to_unsigned(self.AC.wrapping_add(self.IR.adr_val())),
        };
        match mem.get_raw(address) {
            Ok(data) => {
                self.OP = to_signed(data);
                Ok(())
            },
            Err(fault) => Err(fault),
        }
    }

    /// Carries out the operation in the instruction register on the operand
    /// in `OP`.
    pub fn execute(&mut self, mem: &mut MEM) -> (done: Result<(), Fault>)
        ensures
            done is Ok ==> executed(*old(self), old(mem)@) == Ok::<(PROC, Seq<Instruction>), Fault>(
                (*final(self), final(mem)@),
            ),
            done matches Err(fault) ==> executed(*old(self), old(mem)@) == Err::<
                (PROC, Seq<Instruction>),
                Fault,
            >(fault) && *final(self) == *old(self) && *final(mem) == *old(mem),
    {
        let code = match self.IR.code() {
            Some(code) => code,
            None => {
                return Err(Fault::InvalidOpcode { word: self.IR.raw });
            },
        };
        match code {
            Code::NULL => {},
            Code::STOP => {
                self.status = Status::HALTED;
            },
            Code::LOAD => {
                self.AC = self.OP;
            },
            Code::STORE => {
                match mem.set(to_unsigned(self.OP), to_unsigned(self.AC)) {
                    Ok(()) => {},
                    Err(fault) => {
                        return Err(fault);
                    },
                }
            },
            Code::JUMP => {
                self.PC = to_unsigned(self.OP);
            },
            Code::JNEG => {
                if self.AC < 0 {
                    self.PC = to_unsigned(self.OP);
                }
            },
            Code::JZERO => {
                if self.AC == 0 {
                    self.PC = to_unsigned(self.OP);
                }
            },
            Code::ADD => {
                self.AC = self.AC.wrapping_add(self.OP);
            },
            Code::SUB => {
                self.AC = self.AC.wrapping_sub(self.OP);
            },
            Code::AND => {
                self.AC = self.AC & self.OP;
            },
            Code::OR => {
                self.AC = self.AC | self.OP;
            },
            Code::NOT => {
                self.AC = !self.AC;
            },
            Code::XOR => {
                self.AC = self.AC ^ self.OP;
            },
            Code::SHL => {
                self.AC = self.AC.wrapping_shl(to_unsigned(self.OP) as u32);
            },
            Code::SHR => {
                self.AC = self.AC.wrapping_shr(to_unsigned(self.OP) as u32);
            },
        }
        Ok(())
    }

    /// Completes the cycle of the instruction that has been fetched: resolves
    /// its operand and carries out its operation, with the debugger in
    /// `state`.
    pub fn complete(&mut self, mem: &mut MEM, state: InteractiveState) -> (done: Result<
        Report,
        Fault,
    >)
        ensures
            done matches Ok(report) ==> completed(*old(self), old(mem)@, state) == Ok::<
                (PROC, Seq<Instruction>, Report),
                Fault,
            >((*final(self), final(mem)@, report)),
            done matches Err(fault) ==> completed(*old(self), old(mem)@, state) == Err::<
                (PROC, Seq<Instruction>, Report),
                Fault,
            >(fault) && *final(self) == *old(self) && *final(mem) == *old(mem),
    {
        let mut next = *self;
        match next.resolve(mem) {
            Ok(()) => {},
            Err(fault) => {
                return Err(fault);
            },
        }
        let stored = match next.IR.code() {
            Some(Code::STORE) => Some(
                Stored { address: to_unsigned(next.OP), value: to_unsigned(next.AC) },
            ),
            _ => None,
        };
        match next.execute(mem) {
            Ok(()) => {},
            Err(fault) => {
                return Err(fault);
            },
        }
        *self = next;
        Ok(
            Report {
                echo: !state.is_disabled(),
                stored,
                PC: next.PC,
                AC: next.AC,
                halted: next.status == Status::HALTED,
            },
        )
    }

    /// Goes on by one step: to the next prompt, or through one cycle.
    pub fn step(&mut self, mem: &mut MEM, debugger: &mut Debugger) -> (action: Result<
        Action,
        Fault,
    >)
        ensures
            machine(*final(self), *final(mem), *final(debugger)) == machine(
                *old(self),
                *old(mem),
                *old(debugger),
            ).stepped().0,
            action == machine(*old(self), *old(mem), *old(debugger)).stepped().1,
            action is Err ==> *final(self) == *old(self) && *final(mem) == *old(mem),
            action is Err ==> *final(debugger) == *old(debugger),
    {
        proof {
            reveal(Machine::stepped);
        }
        if self.status == Status::HALTED {
            return Ok(Action::Halted);
        }
        if let Some(prompt) = debugger.prompt {
            return Ok(Action::Prompt(prompt));
        }
        let state = if debugger.state.is_waiting_bp() && debugger.breakpoints.contains(
            self.PC as usize,
        ) {
            InteractiveState::ENABLED
        } else {
            debugger.state
        };
        let mut next = *self;
        match next.fetch(mem) {
            Ok(()) => {},
            Err(fault) => {
                return Err(fault);
            },
        }
        if state.is_enabled() {
            match next.IR.decode() {
                None => Err(Fault::InvalidOpcode { word: next.IR.raw }),
                Some(instruction) => {
                    let prompt = Prompt { address: self.PC, instruction, AC: next.AC };
                    *self = next;
                    debugger.state = state;
                    debugger.prompt = Some(prompt);
                    Ok(Action::Prompt(prompt))
                },
            }
        } else {
            match next.complete(mem, state) {
                Err(fault) => Err(fault),
                Ok(report) => {
                    *self = next;
                    Ok(Action::Cycle(report))
                },
            }
        }
    }

    /// Goes on for up to `budget` cycles, as long as there is nothing to
    /// show and nothing to ask.
    pub fn run(&mut self, mem: &mut MEM, debugger: &mut Debugger, budget: u64) -> (end: Result<
        Run,
        Fault,
    >)
        ensures
            machine(*final(self), *final(mem), *final(debugger)) == machine(
                *old(self),
                *old(mem),
                *old(debugger),
            ).ran(budget as nat).machine,
            match machine(*old(self), *old(mem), *old(debugger)).ran(budget as nat).end {
                Ok(last) => end == Ok::<Run, Fault>(
                    Run {
                        cycles: machine(*old(self), *old(mem), *old(debugger)).ran(
                            budget as nat,
                        ).cycles as u64,
                        last,
                    },
                ),
                Err(fault) => end == Err::<Run, Fault>(fault),
            },
            end matches Ok(run) ==> run.cycles <= budget,
    {
        let ghost start = machine(*self, *mem, *debugger);
        let mut cycles: u64 = 0;
        while cycles < budget
            invariant
                cycles <= budget,
                start == machine(*old(self), *old(mem), *old(debugger)),
                start.ran(budget as nat).machine == machine(*self, *mem, *debugger).ran(
                    (budget - cycles) as nat,
                ).machine,
                start.ran(budget as nat).end == machine(*self, *mem, *debugger).ran(
                    (budget - cycles) as nat,
                ).end,
                start.ran(budget as nat).cycles == machine(*self, *mem, *debugger).ran(
                    (budget - cycles) as nat,
                ).cycles + cycles,
            decreases budget - cycles,
        {
            match self.step(mem, debugger) {
                Err(fault) => {
                    return Err(fault);
                },
                Ok(Action::Cycle(report)) => {
                    cycles += 1;
                    if report.echo || report.halted {
                        return Ok(Run { cycles, last: Some(Action::Cycle(report)) });
                    }
                },
                Ok(action) => {
                    return Ok(Run { cycles, last: Some(action) });
                },
            }
        }
        Ok(Run { cycles, last: None })
    }

    /// Lets the engine go on from the prompt with the debugger in `state`.
    fn resume(&mut self, mem: &mut MEM, debugger: &mut Debugger, state: InteractiveState) -> (reply:
        Result<Reply, Fault>)
        ensures
            machine(*final(self), *final(mem), *final(debugger)) == machine(
                *old(self),
                *old(mem),
                *old(debugger),
            ).resumed(state).0,
            match machine(*old(self), *old(mem), *old(debugger)).resumed(state).1 {
                Ok(report) => reply matches Ok(Reply::Cycle(r)) && r == report,
                Err(fault) => reply matches Err(f) && f == fault,
            },
            reply is Err ==> *final(self) == *old(self) && *final(mem) == *old(mem),
            reply is Err ==> *final(debugger) == *old(debugger),
    {
        match self.complete(mem, state) {
            Ok(report) => {
                debugger.state = state;
                debugger.prompt = None;
                Ok(Reply::Cycle(report))
            },
            Err(fault) => Err(fault),
        }
    }

    /// Takes a command at the prompt.
    pub fn command(&mut self, mem: &mut MEM, debugger: &mut Debugger, command: Command) -> (reply:
        Result<Reply, Fault>)
        ensures
            machine(*final(self), *final(mem), *final(debugger)) == machine(
                *old(self),
                *old(mem),
                *old(debugger),
            ).commanded(command),
            match machine(*old(self), *old(mem), *old(debugger)).replied(command) {
                Ok(answer) => reply matches Ok(r) && r@ == answer,
                Err(fault) => reply matches Err(f) && f == fault,
            },
            reply is Err ==> *final(self) == *old(self) && *final(mem) == *old(mem),
            reply is Err ==> *final(debugger) == *old(debugger),
    {
        if debugger.prompt.is_none() {
            return Ok(Reply::Unexpected);
        }
        match command {
            Command::NEXT => self.resume(mem, debugger, InteractiveState::ENABLED),
            Command::NEXT_BREAKPOINT => self.resume(
                mem,
                debugger,
                InteractiveState::WAITING_FOR_BREAKPOINT,
            ),
            Command::FINISH => self.resume(mem, debugger, InteractiveState::DISABLED),
            Command::ADD_BREAKPOINT { line } => {
                debugger.breakpoints.add(line);
                Ok(Reply::Done)
            },
            Command::DELETE_BREAKPOINT { line } => {
                debugger.breakpoints.delete(line);
                Ok(Reply::Done)
            },
            Command::LIST_BREAKPOINTS => match debugger.breakpoints.listing(mem) {
                Ok(list) => Ok(Reply::Breakpoints(list)),
                Err(fault) => Err(fault),
            },
            Command::MEM { from, to, file } => match mem.print_table(from, to) {
                Ok(text) => Ok(Reply::Window { text, file }),
                Err(fault) => Err(fault),
            },
            Command::QUIT => {
                self.status = Status::HALTED;
                debugger.prompt = None;
                Ok(Reply::Quit)
            },
        }
    }
}

} // verus!
