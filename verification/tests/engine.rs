use pmc_interpreter::fault::Fault;
use pmc_interpreter::instruction::{Adrt, Code, InnerInstruction, Instruction};
use pmc_interpreter::interactive::{Debugger, InteractiveState};
use pmc_interpreter::mem::MEM;
use pmc_interpreter::processor::{Action, Report, Run, Status, Stored, PROC};

fn word(code: Code, adrt: Adrt, address: i16) -> u16 {
    let sign = if address < 0 { 1 } else { 0 };
    InnerInstruction::new(sign, code, adrt, address.unsigned_abs()).unwrap().encode().raw
}

fn image(words: &[(u16, u16)]) -> MEM {
    let mut mem = MEM::new([Instruction { raw: 0 }; 512]);
    for (address, raw) in words {
        mem.set(*address, *raw).unwrap();
    }
    mem
}

fn silent() -> Debugger {
    Debugger::new(InteractiveState::DISABLED)
}

/// Carries out one instruction with the given accumulator and operand.
fn execute(code: Code, ac: i16, op: i16) -> PROC {
    let mut proc = PROC::new();
    proc.IR = Instruction { raw: word(code, Adrt::DOT, 0) };
    proc.AC = ac;
    proc.OP = op;
    let mut mem = image(&[]);
    proc.execute(&mut mem).unwrap();
    proc
}

#[test]
fn new_registers_are_zero() {
    let proc = PROC::new();
    assert_eq!(proc.IR, Instruction { raw: 0 });
    assert_eq!((proc.PC, proc.AC, proc.OP), (0, 0, 0));
    assert_eq!(proc.status, Status::RUNNING);
}

#[test]
fn load_immediate_then_stop() {
    let mut mem = image(&[(0, word(Code::LOAD, Adrt::DOT, 5)), (1, word(Code::STOP, Adrt::DOT, 0))]);
    let mut proc = PROC::new();
    let mut debugger = silent();
    let end = proc.run(&mut mem, &mut debugger, 1000);
    assert_eq!(
        end,
        Ok(Run {
            cycles: 2,
            last: Some(Action::Cycle(Report {
                echo: false,
                stored: None,
                PC: 2,
                AC: 5,
                halted: true
            }))
        })
    );
    assert_eq!(proc.AC, 5);
    assert_eq!(proc.PC, 2);
    assert_eq!(proc.status, Status::HALTED);
    assert_eq!(
        proc.run(&mut mem, &mut debugger, 1000),
        Ok(Run { cycles: 0, last: Some(Action::Halted) })
    );
    assert_eq!(proc.step(&mut mem, &mut debugger), Ok(Action::Halted));
    assert_eq!(proc.AC, 5);
}

#[test]
fn fetch_moves_the_counter_on_by_one_for_every_word() {
    for raw in [0u16, 2048, 4101, 14336, 65535, 8192 + 511] {
        for pc in [0u16, 1, 17, 510, 511] {
            let mem = image(&[(pc, raw)]);
            let mut proc = PROC::new();
            proc.PC = pc;
            proc.AC = -3;
            assert_eq!(proc.fetch(&mem), Ok(()));
            assert_eq!(proc.PC, pc + 1);
            assert_eq!(proc.IR, Instruction { raw });
            assert_eq!(proc.AC, -3);
        }
    }
}

#[test]
fn fetch_outside_memory_is_a_fault() {
    let mem = image(&[]);
    let mut proc = PROC::new();
    proc.PC = 512;
    assert_eq!(proc.fetch(&mem), Err(Fault::OutOfBounds { address: 512 }));
    assert_eq!(proc.PC, 512);
    proc.PC = 65535;
    assert_eq!(proc.fetch(&mem), Err(Fault::OutOfBounds { address: 65535 }));
    assert_eq!(proc.PC, 65535);
}

#[test]
fn immediate_operand_is_the_signed_address() {
    let mem = image(&[]);
    let mut proc = PROC::new();
    proc.IR = Instruction { raw: word(Code::LOAD, Adrt::DOT, -511) };
    assert_eq!(proc.resolve(&mem), Ok(()));
    assert_eq!(proc.OP, -511);
    proc.IR = Instruction { raw: word(Code::LOAD, Adrt::DOT, 300) };
    assert_eq!(proc.resolve(&mem), Ok(()));
    assert_eq!(proc.OP, 300);
}

#[test]
fn direct_operand_is_read_from_the_address() {
    let mem = image(&[(100, 65535), (511, 1234)]);
    let mut proc = PROC::new();
    proc.IR = Instruction { raw: word(Code::LOAD, Adrt::AT, 100) };
    assert_eq!(proc.resolve(&mem), Ok(()));
    assert_eq!(proc.OP, -1);
    proc.IR = Instruction { raw: word(Code::LOAD, Adrt::AT, 511) };
    assert_eq!(proc.resolve(&mem), Ok(()));
    assert_eq!(proc.OP, 1234);
}

#[test]
fn direct_operand_at_a_negative_address_is_a_fault() {
    let mem = image(&[]);
    let mut proc = PROC::new();
    proc.OP = 42;
    proc.IR = Instruction { raw: word(Code::LOAD, Adrt::AT, -5) };
    assert_eq!(proc.resolve(&mem), Err(Fault::OutOfBounds { address: 65531 }));
    assert_eq!(proc.OP, 42);
    proc.IR = Instruction { raw: 0x8000 | word(Code::LOAD, Adrt::AT, 0) };
    assert_eq!(proc.resolve(&mem), Ok(()));
    assert_eq!(proc.OP, 0);
}

#[test]
fn indirect_operand_goes_through_two_reads() {
    let mem = image(&[(9, 20), (20, 77), (0, word(Code::LOAD, Adrt::STAR, 9))]);
    let mut proc = PROC::new();
    let mut mem = mem;
    let mut debugger = silent();
    assert!(matches!(proc.step(&mut mem, &mut debugger), Ok(Action::Cycle(_))));
    assert_eq!(proc.OP, 77);
    assert_eq!(proc.AC, 77);
    assert_eq!(proc.PC, 1);
}

#[test]
fn indirect_operand_uses_the_magnitude_and_checks_the_second_address() {
    let mem = image(&[(9, 20), (20, 77), (10, 512), (11, 65535)]);
    let mut proc = PROC::new();
    proc.IR = Instruction { raw: word(Code::LOAD, Adrt::STAR, -9) };
    assert_eq!(proc.resolve(&mem), Ok(()));
    assert_eq!(proc.OP, 77);
    proc.IR = Instruction { raw: word(Code::LOAD, Adrt::STAR, 10) };
    assert_eq!(proc.resolve(&mem), Err(Fault::OutOfBounds { address: 512 }));
    proc.IR = Instruction { raw: word(Code::LOAD, Adrt::STAR, 11) };
    assert_eq!(proc.resolve(&mem), Err(Fault::OutOfBounds { address: 65535 }));
    assert_eq!(proc.OP, 77);
}

#[test]
fn indexed_operand_adds_the_accumulator() {
    let mem = image(&[(7, 4321), (3, 99)]);
    let mut proc = PROC::new();
    proc.AC = 5;
    proc.IR = Instruction { raw: word(Code::LOAD, Adrt::PLUS, 2) };
    assert_eq!(proc.resolve(&mem), Ok(()));
    assert_eq!(proc.OP, 4321);
    proc.IR = Instruction { raw: word(Code::LOAD, Adrt::PLUS, -2) };
    assert_eq!(proc.resolve(&mem), Ok(()));
    assert_eq!(proc.OP, 99);
}

#[test]
fn indexed_operand_outside_memory_is_a_fault() {
    let mem = image(&[]);
    let mut proc = PROC::new();
    proc.AC = 5;
    proc.IR = Instruction { raw: word(Code::LOAD, Adrt::PLUS, -6) };
    assert_eq!(proc.resolve(&mem), Err(Fault::OutOfBounds { address: 65535 }));
    proc.AC = 500;
    proc.IR = Instruction { raw: word(Code::LOAD, Adrt::PLUS, 12) };
    assert_eq!(proc.resolve(&mem), Err(Fault::OutOfBounds { address: 512 }));
    proc.AC = 32767;
    proc.IR = Instruction { raw: word(Code::LOAD, Adrt::PLUS, 511) };
    assert_eq!(proc.resolve(&mem), Err(Fault::OutOfBounds { address: 33278 }));
    proc.AC = -32768;
    proc.IR = Instruction { raw: word(Code::LOAD, Adrt::PLUS, -511) };
    assert_eq!(proc.resolve(&mem), Err(Fault::OutOfBounds { address: 32257 }));
}

#[test]
fn null_changes_nothing() {
    let proc = execute(Code::NULL, 12, 34);
    assert_eq!((proc.AC, proc.OP, proc.PC, proc.status), (12, 34, 0, Status::RUNNING));
}

#[test]
fn stop_halts() {
    let proc = execute(Code::STOP, 12, 34);
    assert_eq!((proc.AC, proc.OP, proc.PC, proc.status), (12, 34, 0, Status::HALTED));
}

#[test]
fn load_copies_the_operand() {
    assert_eq!(execute(Code::LOAD, 12, -34).AC, -34);
}

#[test]
fn add_and_sub_wrap() {
    assert_eq!(execute(Code::ADD, 12, 34).AC, 46);
    assert_eq!(execute(Code::ADD, 32767, 1).AC, -32768);
    assert_eq!(execute(Code::ADD, -32768, -1).AC, 32767);
    assert_eq!(execute(Code::SUB, 12, 34).AC, -22);
    assert_eq!(execute(Code::SUB, -32768, 1).AC, 32767);
    assert_eq!(execute(Code::SUB, 32767, -1).AC, -32768);
    assert_eq!(execute(Code::SUB, 0, -32768).AC, -32768);
}

#[test]
fn bitwise_operations() {
    assert_eq!(execute(Code::AND, 0b1100, 0b1010).AC, 0b1000);
    assert_eq!(execute(Code::OR, 0b1100, 0b1010).AC, 0b1110);
    assert_eq!(execute(Code::XOR, 0b1100, 0b1010).AC, 0b0110);
    assert_eq!(execute(Code::AND, -1, 0x0f0f).AC, 0x0f0f);
    assert_eq!(execute(Code::XOR, -1, -1).AC, 0);
    assert_eq!(execute(Code::NOT, 0, 1234).AC, -1);
    assert_eq!(execute(Code::NOT, 0x00ff, 0).AC, !0x00ff);
}

#[test]
fn shifts_move_by_the_low_four_bits_of_the_operand() {
    assert_eq!(execute(Code::SHL, 5, 2).AC, 20);
    assert_eq!(execute(Code::SHL, 1, 15).AC, -32768);
    assert_eq!(execute(Code::SHL, 0x4001, 1).AC, -32766);
    assert_eq!(execute(Code::SHL, 5, 16).AC, 5);
    assert_eq!(execute(Code::SHL, 5, 18).AC, 20);
    assert_eq!(execute(Code::SHL, 1, -1).AC, -32768);
    assert_eq!(execute(Code::SHR, 20, 2).AC, 5);
    assert_eq!(execute(Code::SHR, -20, 2).AC, -5);
    assert_eq!(execute(Code::SHR, -1, 15).AC, -1);
    assert_eq!(execute(Code::SHR, 20, 16).AC, 20);
    assert_eq!(execute(Code::SHR, 20, -14).AC, 5);
    assert_eq!(execute(Code::SHR, 0, 0).AC, 0);
}

#[test]
fn jumps_overwrite_the_counter() {
    for pc in [0u16, 3, 400] {
        let mut proc = PROC::new();
        proc.PC = pc;
        proc.OP = 7;
        proc.IR = Instruction { raw: word(Code::JUMP, Adrt::DOT, 7) };
        let mut mem = image(&[]);
        proc.execute(&mut mem).unwrap();
        assert_eq!(proc.PC, 7);
    }
}

#[test]
fn conditional_jumps_look_at_the_accumulator() {
    let jump = |code: Code, ac: i16| {
        let mut proc = PROC::new();
        proc.PC = 100;
        proc.AC = ac;
        proc.OP = 7;
        proc.IR = Instruction { raw: word(code, Adrt::DOT, 7) };
        let mut mem = image(&[]);
        proc.execute(&mut mem).unwrap();
        proc.PC
    };
    assert_eq!(jump(Code::JNEG, -1), 7);
    assert_eq!(jump(Code::JNEG, -32768), 7);
    assert_eq!(jump(Code::JNEG, 0), 100);
    assert_eq!(jump(Code::JNEG, 1), 100);
    assert_eq!(jump(Code::JZERO, 0), 7);
    assert_eq!(jump(Code::JZERO, 1), 100);
    assert_eq!(jump(Code::JZERO, -1), 100);
}

#[test]
fn store_then_load_gives_the_value_back() {
    for value in [0i16, 1, -1, 1234, -1234, 32767, -32768] {
        let mut mem = image(&[
            (0, word(Code::STORE, Adrt::DOT, 100)),
            (1, word(Code::LOAD, Adrt::DOT, 0)),
            (2, word(Code::LOAD, Adrt::AT, 100)),
            (3, word(Code::STOP, Adrt::DOT, 0)),
        ]);
        let mut proc = PROC::new();
        proc.AC = value;
        let end = proc.run(&mut mem, &mut silent(), 10).unwrap();
        assert_eq!(end.cycles, 4);
        assert_eq!(proc.AC, value);
        assert_eq!(mem.get_raw(100), Ok(value as u16));
    }
}

#[test]
fn store_reports_what_it_wrote() {
    let mut mem = image(&[(0, word(Code::STORE, Adrt::DOT, 100))]);
    let mut proc = PROC::new();
    proc.AC = -2;
    let mut debugger = Debugger::new(InteractiveState::WAITING_FOR_BREAKPOINT);
    assert_eq!(
        proc.step(&mut mem, &mut debugger),
        Ok(Action::Cycle(Report {
            echo: true,
            stored: Some(Stored { address: 100, value: 65534 }),
            PC: 1,
            AC: -2,
            halted: false
        }))
    );
    assert_eq!(mem.get_raw(100), Ok(65534));
}

#[test]
fn store_outside_memory_is_a_fault() {
    let mut mem = image(&[(0, word(Code::STORE, Adrt::AT, 1)), (1, 600)]);
    let before = mem.inner;
    let mut proc = PROC::new();
    proc.AC = 9;
    let mut debugger = silent();
    assert_eq!(proc.step(&mut mem, &mut debugger), Err(Fault::OutOfBounds { address: 600 }));
    assert_eq!(proc, PROC { AC: 9, ..PROC::new() });
    assert_eq!(mem.inner, before);
    assert_eq!(proc.step(&mut mem, &mut debugger), Err(Fault::OutOfBounds { address: 600 }));

    let mut mem = image(&[(0, word(Code::STORE, Adrt::DOT, -1))]);
    let mut proc = PROC::new();
    assert_eq!(proc.step(&mut mem, &mut silent()), Err(Fault::OutOfBounds { address: 65535 }));
}

#[test]
fn jump_out_of_range_is_a_fault_at_the_next_fetch() {
    let mut mem = image(&[(0, word(Code::JUMP, Adrt::AT, 1)), (1, 600)]);
    let mut proc = PROC::new();
    let mut debugger = silent();
    assert_eq!(
        proc.run(&mut mem, &mut debugger, 1000),
        Err(Fault::OutOfBounds { address: 600 })
    );
    assert_eq!(proc.PC, 600);
    assert_eq!(proc.status, Status::RUNNING);
    assert_eq!(
        proc.run(&mut mem, &mut debugger, 1000),
        Err(Fault::OutOfBounds { address: 600 })
    );
    assert_eq!(proc.step(&mut mem, &mut debugger), Err(Fault::OutOfBounds { address: 600 }));
    assert_eq!(proc.PC, 600);
}

#[test]
fn jump_to_a_negative_operand_is_a_fault_at_the_next_fetch() {
    let mut mem = image(&[(0, word(Code::JUMP, Adrt::DOT, -1))]);
    let mut proc = PROC::new();
    assert_eq!(proc.run(&mut mem, &mut silent(), 10), Err(Fault::OutOfBounds { address: 65535 }));
    assert_eq!(proc.PC, 65535);
}

#[test]
fn running_off_the_end_of_memory_is_a_fault() {
    let mut mem = image(&[]);
    let mut proc = PROC::new();
    assert_eq!(
        proc.run(&mut mem, &mut silent(), 100_000),
        Err(Fault::OutOfBounds { address: 512 })
    );
    assert_eq!(proc.PC, 512);
}

#[test]
fn undecodable_word_is_a_fault_when_it_is_executed() {
    let mut mem = image(&[(0, 14336 | 5)]);
    let mut proc = PROC::new();
    let mut debugger = silent();
    assert_eq!(proc.step(&mut mem, &mut debugger), Err(Fault::InvalidOpcode { word: 14341 }));
    assert_eq!(proc, PROC::new());
    let mut mem = image(&[(0, 14336 | 512 | 5), (5, 600)]);
    assert_eq!(proc.step(&mut mem, &mut debugger), Err(Fault::InvalidOpcode { word: 14853 }));
    let mut mem = image(&[(0, 14336 | 1024 | 5), (5, 600)]);
    assert_eq!(proc.step(&mut mem, &mut debugger), Err(Fault::OutOfBounds { address: 600 }));
}

#[test]
fn run_stops_when_its_budget_is_used_up() {
    let mut mem = image(&[(0, word(Code::ADD, Adrt::DOT, 1)), (1, word(Code::JUMP, Adrt::DOT, 0))]);
    let mut proc = PROC::new();
    let mut debugger = silent();
    assert_eq!(proc.run(&mut mem, &mut debugger, 7), Ok(Run { cycles: 7, last: None }));
    assert_eq!(proc.AC, 4);
    assert_eq!(proc.PC, 1);
    assert_eq!(proc.run(&mut mem, &mut debugger, 0), Ok(Run { cycles: 0, last: None }));
    assert_eq!(proc.run(&mut mem, &mut debugger, 3), Ok(Run { cycles: 3, last: None }));
    assert_eq!(proc.AC, 5);
    assert_eq!(proc.PC, 0);
}

#[test]
fn counting_loop_runs_to_the_end() {
    let mut mem = image(&[
        (0, word(Code::LOAD, Adrt::AT, 100)),
        (1, word(Code::ADD, Adrt::AT, 101)),
        (2, word(Code::STORE, Adrt::DOT, 100)),
        (3, word(Code::LOAD, Adrt::AT, 101)),
        (4, word(Code::SUB, Adrt::DOT, 1)),
        (5, word(Code::STORE, Adrt::DOT, 101)),
        (6, word(Code::JZERO, Adrt::DOT, 8)),
        (7, word(Code::JUMP, Adrt::DOT, 0)),
        (8, word(Code::STOP, Adrt::DOT, 0)),
        (101, 10),
    ]);
    let mut proc = PROC::new();
    let end = proc.run(&mut mem, &mut silent(), 1000).unwrap();
    assert_eq!(end.cycles, 10 * 8);
    assert_eq!(mem.get_raw(100), Ok(55));
    assert_eq!(mem.get_raw(101), Ok(0));
    assert_eq!(proc.status, Status::HALTED);
}
