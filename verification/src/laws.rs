//! What holds of the machine whatever the program.
use crate::fault::Fault;
use crate::instruction::{Adrt, Code, InnerInstruction, Instruction};
use crate::interactive::{Command, InteractiveState};
use crate::processor::{
    completed, executed, fetched, operand, unsigned, Action, Machine, Status, PROC,
};
use vstd::prelude::*;

verus! {

/// A fetch inside the memory loads the word at the program counter and moves
/// the counter on by exactly one, whatever the word is and whatever the
/// other registers hold; it touches nothing else.
pub proof fn fetch_moves_on_by_one(proc: PROC, mem: Seq<Instruction>)
    requires
        mem.len() == 512,
        proc.PC < 512,
    ensures
        fetched(proc, mem) == Ok::<PROC, Fault>(
            PROC { IR: mem[proc.PC as int], PC: (proc.PC + 1) as u16, ..proc },
        ),
        fetched(proc, mem).unwrap().PC == proc.PC + 1,
{
}

/// In a cycle the fetch comes first: the operand is resolved, and the
/// operation carried out, on registers whose counter is already one past the
/// instruction. So a cycle of any operation but a jump leaves the counter
/// one further, and a jump that is taken overwrites the counter that the
/// fetch has moved on.
pub proof fn cycle_moves_on_by_one(machine: Machine)
    requires
        machine.mem.len() == 512,
        machine.proc.status == Status::RUNNING,
        machine.prompt is None,
        machine.armed().state != InteractiveState::ENABLED,
        machine.stepped().1 is Ok,
    ensures
        machine.proc.PC < 512,
        machine.stepped().1 matches Ok(Action::Cycle(report)) && report.PC
            == machine.stepped().0.proc.PC,
        ({
            let word = machine.mem[machine.proc.PC as int];
            let after = machine.stepped().0.proc;
            &&& after.IR == word
            &&& operand(word, machine.proc.AC, machine.mem) == Ok::<i16, Fault>(after.OP)
            &&& word.opcode() != Some(Code::JUMP) && word.opcode() != Some(Code::JNEG)
                && word.opcode() != Some(Code::JZERO) ==> after.PC == machine.proc.PC + 1
        }),
{
    reveal(Machine::stepped);
}

/// Whether a jump is taken, given the accumulator.
pub open spec fn jump_taken(code: Code, accumulator: i16) -> bool {
    match code {
        Code::JUMP => true,
        Code::JNEG => accumulator < 0,
        Code::JZERO => accumulator == 0,
        _ => false,
    }
}

/// A jump sets the program counter to its operand: the counter it had does
/// not enter into the new one. A conditional jump that is not taken leaves
/// the counter alone. Neither changes anything else.
pub proof fn jumps_are_absolute(proc: PROC, mem: Seq<Instruction>, elsewhere: u16)
    requires
        proc.IR.opcode() == Some(Code::JUMP) || proc.IR.opcode() == Some(Code::JNEG)
            || proc.IR.opcode() == Some(Code::JZERO),
    ensures
        jump_taken(proc.IR.opcode().unwrap(), proc.AC) ==> executed(proc, mem) == Ok::<
            (PROC, Seq<Instruction>),
            Fault,
        >((PROC { PC: unsigned(proc.OP) as u16, ..proc }, mem)) && executed(
            PROC { PC: elsewhere, ..proc },
            mem,
        ) == executed(proc, mem),
        !jump_taken(proc.IR.opcode().unwrap(), proc.AC) ==> executed(proc, mem) == Ok::<
            (PROC, Seq<Instruction>),
            Fault,
        >((proc, mem)),
{
}

/// A word that is stored is read back unchanged: when a `STORE` has written
/// the accumulator to an address inside the memory, a `LOAD` from that
/// address in direct mode, carried out next, puts the same value into the
/// accumulator, whatever the accumulator has held in between.
pub proof fn load_returns_what_store_wrote(
    proc: PROC,
    mem: Seq<Instruction>,
    address: u16,
    between: i16,
)
    requires
        mem.len() == 512,
        address < 512,
        proc.IR.opcode() == Some(Code::STORE),
        proc.OP == address,
    ensures
        executed(proc, mem) is Ok,
        ({
            let (stored, image) = executed(proc, mem).unwrap();
            let load = (InnerInstruction {
                sign: 0,
                code: Code::LOAD,
                adrt: Adrt::AT,
                adr: address,
            }).encoded();
            let next = PROC { IR: load, AC: between, ..stored };
            &&& image == mem.update(address as int, Instruction { raw: unsigned(proc.AC) as u16 })
            &&& completed(next, image, InteractiveState::DISABLED) is Ok
            &&& completed(next, image, InteractiveState::DISABLED).unwrap().0.AC == proc.AC
            &&& completed(next, image, InteractiveState::DISABLED).unwrap().1 == image
        }),
{
    let fields = InnerInstruction { sign: 0, code: Code::LOAD, adrt: Adrt::AT, adr: address };
    crate::instruction::decode_inverts_encode(fields);
    let load = fields.encoded();
    assert(load.opcode() == Some(Code::LOAD));
    assert(load.mode() == Adrt::AT);
    assert(load.signed_address() == address);
}

/// An access outside the memory is a fault that names the address as it was
/// asked for. Here the fetch: a program counter of 512 or more, wherever it
/// came from, is never wrapped into the memory. The machine stays as it is,
/// so that going on again meets the same fault.
pub proof fn fetch_outside_memory_faults(machine: Machine)
    requires
        machine.proc.status == Status::RUNNING,
        machine.prompt is None,
        machine.proc.PC >= 512,
    ensures
        machine.stepped() == (
            machine,
            Err::<Action, Fault>(Fault::OutOfBounds { address: machine.proc.PC as usize }),
        ),
{
    reveal(Machine::stepped);
}

/// A jump out of the memory is taken as it stands and ends the run at the
/// next fetch: after a `JUMP` whose operand is no address of the memory, the
/// program counter holds that operand, and going on gives the fault for it.
pub proof fn jump_outside_memory_faults(machine: Machine)
    requires
        machine.proc.status == Status::RUNNING,
        machine.prompt is None,
        machine.proc.IR.opcode() == Some(Code::JUMP),
        !(0 <= machine.proc.OP < 512),
    ensures
        executed(machine.proc, machine.mem) is Ok,
        ({
            let (jumped, image) = executed(machine.proc, machine.mem).unwrap();
            let next = Machine { proc: jumped, mem: image, ..machine };
            &&& jumped.PC == unsigned(machine.proc.OP)
            &&& jumped.PC >= 512
            &&& next.stepped() == (
                next,
                Err::<Action, Fault>(Fault::OutOfBounds { address: jumped.PC as usize }),
            )
        }),
{
    reveal(Machine::stepped);
}

/// The machine after it has gone on `count` times, whatever it did each
/// time.
pub open spec fn stepped_times(machine: Machine, count: nat) -> Machine
    decreases count,
{
    if count == 0 {
        machine
    } else {
        stepped_times(machine, (count - 1) as nat).stepped().0
    }
}

/// A debugger that waits for a breakpoint does not ask before the program
/// counter stands on one: as long as the counter has stood on no breakpoint
/// before a fetch, the debugger still waits and no prompt is pending.
pub proof fn waits_until_breakpoint(machine: Machine, count: nat)
    requires
        machine.state == InteractiveState::WAITING_FOR_BREAKPOINT,
        machine.prompt is None,
        forall|earlier: nat|
            earlier < count ==> !machine.breakpoints.contains(
                #[trigger] stepped_times(machine, earlier).proc.PC as usize,
            ),
    ensures
        stepped_times(machine, count).state == InteractiveState::WAITING_FOR_BREAKPOINT,
        stepped_times(machine, count).prompt is None,
        stepped_times(machine, count).breakpoints == machine.breakpoints,
    decreases count,
{
    reveal(Machine::stepped);
    if count > 0 {
        waits_until_breakpoint(machine, (count - 1) as nat);
        let before = stepped_times(machine, (count - 1) as nat);
        assert(!machine.breakpoints.contains(before.proc.PC as usize));
    }
}

/// A debugger that waits for a breakpoint asks as soon as the program
/// counter stands on one: it is enabled before the fetch, and after the
/// fetch it shows the instruction at the breakpoint and waits for a command,
/// with memory and accumulator untouched.
pub proof fn stops_at_breakpoint(machine: Machine)
    requires
        machine.mem.len() == 512,
        machine.proc.status == Status::RUNNING,
        machine.state == InteractiveState::WAITING_FOR_BREAKPOINT,
        machine.prompt is None,
        machine.breakpoints.contains(machine.proc.PC as usize),
        machine.proc.PC < 512,
        machine.mem[machine.proc.PC as int].fields() is Some,
    ensures
        machine.stepped().1 matches Ok(Action::Prompt(prompt)) && prompt.address
            == machine.proc.PC && Some(prompt.instruction)
            == machine.mem[machine.proc.PC as int].fields() && machine.stepped().0.prompt == Some(
            prompt,
        ),
        machine.stepped().0.state == InteractiveState::ENABLED,
        machine.stepped().0.mem == machine.mem,
        machine.stepped().0.proc.AC == machine.proc.AC,
{
    reveal(Machine::stepped);
}

/// An enabled debugger asks before every cycle: after the fetch, and before
/// the operand is resolved, it shows the instruction that was fetched and
/// waits, with memory, accumulator and operand untouched. `NEXT` then lets
/// exactly that cycle complete and leaves the debugger enabled.
pub proof fn enabled_asks_before_every_cycle(machine: Machine)
    requires
        machine.mem.len() == 512,
        machine.proc.status == Status::RUNNING,
        machine.state == InteractiveState::ENABLED,
        machine.prompt is None,
        machine.proc.PC < 512,
        machine.mem[machine.proc.PC as int].fields() is Some,
    ensures
        machine.stepped().1 matches Ok(Action::Prompt(prompt)) && prompt.address
            == machine.proc.PC && machine.stepped().0.prompt == Some(prompt),
        machine.stepped().0.proc == fetched(machine.proc, machine.mem).unwrap(),
        machine.stepped().0.mem == machine.mem,
        machine.stepped().0.state == InteractiveState::ENABLED,
        machine.stepped().0.commanded(Command::NEXT).state == InteractiveState::ENABLED,
        completed(machine.stepped().0.proc, machine.mem, InteractiveState::ENABLED) matches Ok(
            (after, image, report),
        ) ==> machine.stepped().0.commanded(Command::NEXT) == (Machine {
            proc: after,
            mem: image,
            prompt: None,
            ..machine
        }),
{
    reveal(Machine::stepped);
}

/// A disabled debugger passes everything through: it never asks, never has
/// anything echoed, and stays disabled. It does not look at the breakpoints
/// either: with any others in their place the machine does the same.
pub proof fn disabled_never_asks(machine: Machine, others: Seq<usize>)
    requires
        machine.state == InteractiveState::DISABLED,
        machine.prompt is None,
    ensures
        !(machine.stepped().1 matches Ok(Action::Prompt(_))),
        machine.stepped().1 matches Ok(Action::Cycle(report)) ==> !report.echo,
        machine.stepped().0.state == InteractiveState::DISABLED,
        machine.stepped().0.prompt is None,
        (Machine { breakpoints: others, ..machine }).stepped().1 == machine.stepped().1,
        (Machine { breakpoints: others, ..machine }).stepped().0 == (Machine {
            breakpoints: others,
            ..machine.stepped().0
        }),
{
    reveal(Machine::stepped);
}

/// Once the debugger is disabled it stays so: however long the machine goes
/// on, the debugger is disabled and no prompt is pending.
pub proof fn disabled_stays_disabled(machine: Machine, count: nat)
    requires
        machine.state == InteractiveState::DISABLED,
        machine.prompt is None,
    ensures
        stepped_times(machine, count).state == InteractiveState::DISABLED,
        stepped_times(machine, count).prompt is None,
    decreases count,
{
    if count > 0 {
        disabled_stays_disabled(machine, (count - 1) as nat);
        disabled_never_asks(stepped_times(machine, (count - 1) as nat), Seq::empty());
    }
}

/// While the engine waits for a command, going on changes nothing and shows
/// the same prompt again: nothing but a command moves it.
pub proof fn prompt_repeats(machine: Machine)
    requires
        machine.proc.status == Status::RUNNING,
        machine.prompt is Some,
    ensures
        machine.stepped() == (machine, Ok::<Action, Fault>(Action::Prompt(machine.prompt.unwrap()))),
{
    reveal(Machine::stepped);
}

/// What is asked of a machine: to go on, or to take a command.
pub enum Request {
    Step,
    Command(Command),
}

/// The machine after a sequence of requests.
pub open spec fn served(machine: Machine, requests: Seq<Request>) -> Machine
    decreases requests.len(),
{
    if requests.len() == 0 {
        machine
    } else {
        match requests.last() {
            Request::Step => served(machine, requests.drop_last()).stepped().0,
            Request::Command(command) => served(machine, requests.drop_last()).commanded(command),
        }
    }
}

/// `QUIT` at a prompt halts the engine where it stands, and nothing moves it
/// again: whatever is asked of the machine afterwards, it stays exactly as
/// `QUIT` left it, so memory is never written again.
pub proof fn quit_is_final(machine: Machine, requests: Seq<Request>)
    requires
        machine.prompt is Some,
    ensures
        machine.commanded(Command::QUIT) == (Machine {
            proc: PROC { status: Status::HALTED, ..machine.proc },
            prompt: None,
            ..machine
        }),
        served(machine.commanded(Command::QUIT), requests) == machine.commanded(Command::QUIT),
        served(machine.commanded(Command::QUIT), requests).mem == machine.mem,
    decreases requests.len(),
{
    reveal(Machine::stepped);
    if requests.len() > 0 {
        quit_is_final(machine, requests.drop_last());
    }
}

/// A halted machine stays halted and unchanged, whatever is asked of it.
pub proof fn halted_stays_halted(machine: Machine, requests: Seq<Request>)
    requires
        machine.proc.status == Status::HALTED,
        machine.prompt is None,
    ensures
        served(machine, requests) == machine,
    decreases requests.len(),
{
    reveal(Machine::stepped);
    if requests.len() > 0 {
        halted_stays_halted(machine, requests.drop_last());
    }
}

/// A fault changes nothing, so it is met again: going on after a fault gives
/// the same fault, however often.
pub proof fn fault_is_met_again(machine: Machine, count: nat)
    requires
        machine.stepped().1 is Err,
    ensures
        stepped_times(machine, count) == machine,
        stepped_times(machine, count).stepped().1 == machine.stepped().1,
    decreases count,
{
    reveal(Machine::stepped);
    if count > 0 {
        fault_is_met_again(machine, (count - 1) as nat);
    }
}

} // verus!
