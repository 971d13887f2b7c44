//! Laws of the core: what holds of several operations together.

use vstd::prelude::*;
use crate::address::wrap16;
use crate::console::Machine;
use crate::cpu::{Flags, CPU};
use crate::error::EmuError;
use crate::opcode::{instruction_length, AddrMode, InstructionContext, OpCode};
use crate::semantics::{
    advance, enter_interrupt, exchange_carry_emulation, execute, execute_call, execute_interrupt,
    execute_modify, execute_pull, execute_push, execute_push_effective, execute_read,
    execute_return, execute_return_from_interrupt, execute_store, finish, interrupt_vector,
    is_pull_op, is_push_op, is_register_op, load_operand, low_part, merge, modified_value, nmi,
    operand_is_byte, pull16, pull8, pull_value, push16, push8, push_value, pushed_value,
    register_effect, stack_address, stack_is_byte, stack_moved, status_with_break, store_operand,
    stored_value, CPUExecutionResult,
};
use crate::memory::{
    high_byte, load_byte, load_word, low_byte, map_address, next_address, store_byte, store_word,
    word_of, Target,
};

verus! {

/// A byte that was written is the byte that is read back: wherever a write
/// is taken, outside the PPU window, a read of the same address succeeds and
/// returns what was written.
pub proof fn law_byte_round_trip(m: Machine, addr: u32, v: u8)
    requires
        store_byte(m, addr, v).1 is Ok,
        !(map_address(m.cartridge.map_mode, addr) is Ppu),
    ensures
        load_byte(store_byte(m, addr, v).0, addr) == Ok::<u8, EmuError>(v),
{
}

/// Whether two addresses select the same cell of storage: the same target,
/// or the one unused byte of a DMA channel under its two names.
pub open spec fn same_cell(m: Machine, a: u32, b: u32) -> bool {
    let ta = map_address(m.cartridge.map_mode, a);
    let tb = map_address(m.cartridge.map_mode, b);
    ||| ta == tb
    ||| (ta matches Target::Dma(ca, ra) && tb matches Target::Dma(cb, rb) && ca == cb && (ra
        == 0xB || ra == 0xF) && (rb == 0xB || rb == 0xF))
}

/// A write leaves every other cell as it was: what a read of `other`
/// returns is not changed by a write to `addr`.
#[verifier::rlimit(50)]
pub proof fn law_write_is_local(m: Machine, addr: u32, v: u8, other: u32)
    requires
        !same_cell(m, other, addr),
    ensures
        load_byte(store_byte(m, addr, v).0, other) == load_byte(m, other),
{
    let after = store_byte(m, addr, v).0;
    assert(after.cartridge == m.cartridge);
    assert(after.cpu == m.cpu);
    match map_address(m.cartridge.map_mode, addr) {
        Target::Wram(off) => {},
        Target::Mmio(off) => {},
        Target::Dma(channel, reg) => {},
        _ => {
            assert(after == m);
        },
    }
}

/// Two neighbours on the bus never share a cell, unless both lie in ROM or
/// both in the PPU window.
pub proof fn lemma_neighbours_differ(m: Machine, addr: u32)
    requires
        addr < 0x1000000,
        !(map_address(m.cartridge.map_mode, addr) is Rom),
        !(map_address(m.cartridge.map_mode, addr) is Ppu),
    ensures
        !same_cell(m, addr, next_address(addr)),
        !same_cell(m, next_address(addr), addr),
{
}

/// A word that was written is the word that is read back, wherever both of
/// its bytes are taken outside the PPU window.
#[verifier::rlimit(50)]
pub proof fn law_word_round_trip(m: Machine, addr: u32, v: u16)
    requires
        store_word(m, addr, v).1 is Ok,
        !(map_address(m.cartridge.map_mode, addr) is Ppu),
        !(map_address(m.cartridge.map_mode, next_address(addr)) is Ppu),
    ensures
        load_word(store_word(m, addr, v).0, addr) == Ok::<u16, EmuError>(v),
{
    let next = next_address(addr);
    let once = store_byte(m, addr, low_byte(v)).0;
    let twice = store_byte(once, next, high_byte(v)).0;
    assert(store_word(m, addr, v).0 == twice);
    law_write_keeps_shape(m, addr, low_byte(v));
    law_byte_round_trip(m, addr, low_byte(v));
    law_byte_round_trip(once, next, high_byte(v));
    lemma_neighbours_differ(once, addr);
    law_write_is_local(once, next, high_byte(v), addr);
    assert(load_byte(twice, addr) == Ok::<u8, EmuError>(low_byte(v)));
    assert(load_byte(twice, next) == Ok::<u8, EmuError>(high_byte(v)));
    assert(word_of(low_byte(v), high_byte(v)) == v);
}

/// ROM cannot be written: a write to an address that selects ROM fails with
/// `WriteToReadOnly` and changes nothing.
pub proof fn law_rom_is_read_only(m: Machine, addr: u32, v: u8)
    requires
        map_address(m.cartridge.map_mode, addr) is Rom,
    ensures
        store_byte(m, addr, v).1 == Err::<(), EmuError>(EmuError::WriteToReadOnly(addr)),
        store_byte(m, addr, v).0 == m,
{
}

/// A write changes neither the cartridge nor the size of work RAM, and a
/// write that is not taken changes nothing at all.
pub proof fn law_write_keeps_shape(m: Machine, addr: u32, v: u8)
    ensures
        store_byte(m, addr, v).0.cartridge == m.cartridge,
        store_byte(m, addr, v).0.cpu == m.cpu,
        store_byte(m, addr, v).0.ram.len() == m.ram.len(),
        store_byte(m, addr, v).1 is Err ==> store_byte(m, addr, v).0 == m,
{
}

/// A push of a byte keeps the invariant of emulation mode, and so does a
/// pull.
#[verifier::rlimit(50)]
pub proof fn lemma_stack_keeps_valid(m: Machine, v: u8, w: u16)
    requires
        m.cpu.valid(),
    ensures
        push8(m, v).0.cpu.valid(),
        pull8(m).0.cpu.valid(),
        push16(m, w).0.cpu.valid(),
        pull16(m).0.cpu.valid(),
{
    law_write_keeps_shape(m, stack_address(m.cpu), v);
    let a = push8(m, (w / 256) as u8).0;
    law_write_keeps_shape(m, stack_address(m.cpu), (w / 256) as u8);
    law_write_keeps_shape(a, stack_address(a.cpu), (w % 256) as u8);
}

/// A write at a width changes no register.
pub proof fn lemma_store_keeps_cpu(m: Machine, addr: u32, w8: bool, v: u16)
    ensures
        store_operand(m, addr, w8, v).0.cpu == m.cpu,
{
    law_write_keeps_shape(m, addr, low_byte(v));
    let first = store_byte(m, addr, low_byte(v)).0;
    law_write_keeps_shape(first, next_address(addr), high_byte(v));
}

/// A push or a pull at a width keeps the invariant of emulation mode.
pub proof fn lemma_stack_value_keeps_valid(m: Machine, v: u16, w8: bool)
    requires
        m.cpu.valid(),
    ensures
        push_value(m, v, w8).0.cpu.valid(),
        pull_value(m, w8).0.cpu.valid(),
{
    lemma_stack_keeps_valid(m, low_byte(v), v);
}

/// The entry into an interrupt keeps the invariant of emulation mode.
pub proof fn lemma_interrupt_keeps_valid(m: Machine, return_pc: u16, vector: u16, break_bit: bool)
    requires
        m.cpu.valid(),
    ensures
        enter_interrupt(m, return_pc, vector, break_bit).0.cpu.valid(),
{
    let bank = push8(m, m.cpu.K);
    lemma_stack_keeps_valid(m, m.cpu.K, return_pc);
    lemma_stack_keeps_valid(bank.0, 0, return_pc);
    let address = push16(bank.0, return_pc);
    lemma_stack_keeps_valid(
        address.0,
        status_with_break(m.cpu.P.to_byte() as u8, break_bit),
        0,
    );
}

proof fn lemma_read_keeps_valid(m: Machine, i: InstructionContext, len: int)
    requires
        m.cpu.valid(),
    ensures
        execute_read(m, i, len).0.cpu.valid(),
{
}

proof fn lemma_modify_keeps_valid(m: Machine, i: InstructionContext, len: int)
    requires
        m.cpu.valid(),
    ensures
        execute_modify(m, i, len).0.cpu.valid(),
{
    let op = i.opcode;
    if i.mode != AddrMode::Accumulator {
        match load_operand(m, i.data_addr, m.cpu.P.m) {
            Ok(value) => {
                lemma_store_keeps_cpu(
                    m,
                    i.data_addr,
                    m.cpu.P.m,
                    modified_value(op, m.cpu, value),
                );
            },
            Err(e) => {},
        }
    }
}

proof fn lemma_store_keeps_valid(m: Machine, i: InstructionContext, len: int)
    requires
        m.cpu.valid(),
    ensures
        execute_store(m, i, len).0.cpu.valid(),
{
    let op = i.opcode;
    lemma_store_keeps_cpu(
        m,
        i.data_addr,
        operand_is_byte(op, m.cpu.P),
        stored_value(op, m.cpu),
    );
}

proof fn lemma_push_keeps_valid(m: Machine, i: InstructionContext, len: int)
    requires
        m.cpu.valid(),
    ensures
        execute_push(m, i, len).0.cpu.valid(),
{
    let op = i.opcode;
    lemma_stack_value_keeps_valid(
        m,
        pushed_value(op, m.cpu),
        stack_is_byte(op, m.cpu.P),
    );
}

proof fn lemma_push_effective_keeps_valid(m: Machine, i: InstructionContext, len: int)
    requires
        m.cpu.valid(),
    ensures
        execute_push_effective(m, i, len).0.cpu.valid(),
{
    match load_word(m, i.data_addr) {
        Ok(word) => {
            lemma_stack_keeps_valid(m, 0, word);
            lemma_stack_keeps_valid(m, 0, wrap16(i.inst_addr % 0x10000 + 3 + word));
        },
        Err(e) => {},
    }
}

proof fn lemma_pull_keeps_valid(m: Machine, i: InstructionContext, len: int)
    requires
        m.cpu.valid(),
    ensures
        execute_pull(m, i, len).0.cpu.valid(),
{
    let op = i.opcode;
    lemma_stack_value_keeps_valid(m, 0, stack_is_byte(op, m.cpu.P));
}

proof fn lemma_call_keeps_valid(m: Machine, i: InstructionContext)
    requires
        m.cpu.valid(),
    ensures
        execute_call(m, i).0.cpu.valid(),
{
    lemma_stack_keeps_valid(m, m.cpu.K, wrap16(i.inst_addr % 0x10000 + 2));
    lemma_stack_keeps_valid(push8(m, m.cpu.K).0, 0, wrap16(i.inst_addr % 0x10000 + 2));
}

proof fn lemma_return_keeps_valid(m: Machine, i: InstructionContext)
    requires
        m.cpu.valid(),
    ensures
        execute_return(m, i).0.cpu.valid(),
{
    lemma_stack_keeps_valid(m, 0, 0);
    let address = pull16(m);
    match address.1 {
        Ok(pc) => {
            let there = Machine { cpu: CPU { PC: wrap16(pc + 1), ..address.0.cpu }, ..address.0 };
            lemma_stack_keeps_valid(there, 0, 0);
        },
        Err(e) => {},
    }
}

proof fn lemma_return_from_interrupt_keeps_valid(m: Machine, i: InstructionContext)
    requires
        m.cpu.valid(),
    ensures
        execute_return_from_interrupt(m).0.cpu.valid(),
{
    lemma_stack_keeps_valid(m, 0, 0);
    let status = pull8(m);
    match status.1 {
        Ok(p) => {
            let flagged = Machine {
                cpu: CPU { P: status.0.cpu.P.with_byte(p), ..status.0.cpu },
                ..status.0
            };
            lemma_stack_keeps_valid(flagged, 0, 0);
            let address = pull16(flagged);
            match address.1 {
                Ok(pc) => {
                    let there = Machine { cpu: CPU { PC: pc, ..address.0.cpu }, ..address.0 };
                    lemma_stack_keeps_valid(there, 0, 0);
                },
                Err(e) => {},
            }
        },
        Err(e) => {},
    }
}

proof fn lemma_software_interrupt_keeps_valid(m: Machine, i: InstructionContext)
    requires
        m.cpu.valid(),
    ensures
        execute_interrupt(m, i).0.cpu.valid(),
{
    let op = i.opcode;
    lemma_interrupt_keeps_valid(
        m,
        wrap16(i.inst_addr % 0x10000 + 2),
        interrupt_vector(m, op),
        op == OpCode::BRK && m.cpu.P.e,
    );
}

proof fn lemma_register_keeps_valid(op: OpCode, cpu: CPU)
    requires
        cpu.valid(),
    ensures
        register_effect(op, cpu).valid(),
{
}

#[verifier::rlimit(50)]
proof fn lemma_execute_keeps_valid(m: Machine, i: InstructionContext)
    requires
        m.cpu.valid(),
    ensures
        execute(m, i).0.cpu.valid(),
{
    reveal(execute);
    let len = instruction_length(i.opcode, i.mode, m.cpu.P.m, m.cpu.P.x);
    lemma_read_keeps_valid(m, i, len);
    lemma_modify_keeps_valid(m, i, len);
    lemma_store_keeps_valid(m, i, len);
    lemma_push_keeps_valid(m, i, len);
    lemma_push_effective_keeps_valid(m, i, len);
    lemma_pull_keeps_valid(m, i, len);
    lemma_register_keeps_valid(i.opcode, m.cpu);
    lemma_call_keeps_valid(m, i);
    lemma_return_keeps_valid(m, i);
    lemma_return_from_interrupt_keeps_valid(m, i);
    lemma_software_interrupt_keeps_valid(m, i);
}

/// The invariant of emulation mode holds after every instruction, however
/// it ends: while `E` is set, `M` and `X` are set and the stack lies in
/// page 1.
pub proof fn law_emulation_invariant(m: Machine, i: InstructionContext)
    requires
        m.cpu.valid(),
    ensures
        execute(m, i).0.cpu.valid(),
{
    lemma_execute_keeps_valid(m, i);
}

/// [`execute`] by class, for the classes that the laws below speak of: an
/// operation on registers, a push and a pull.
#[verifier::rlimit(50)]
pub proof fn lemma_execute_by_class(m: Machine, i: InstructionContext)
    ensures
        is_register_op(i.opcode) ==> execute(m, i) == finish(
            Machine { cpu: register_effect(i.opcode, m.cpu), ..m },
            instruction_length(i.opcode, i.mode, m.cpu.P.m, m.cpu.P.x),
        ),
        is_push_op(i.opcode) ==> execute(m, i) == execute_push(
            m,
            i,
            instruction_length(i.opcode, i.mode, m.cpu.P.m, m.cpu.P.x),
        ),
        is_pull_op(i.opcode) ==> execute(m, i) == execute_pull(
            m,
            i,
            instruction_length(i.opcode, i.mode, m.cpu.P.m, m.cpu.P.x),
        ),
{
    reveal(execute);
}

/// `XCE` twice changes nothing but the program counter, which has moved
/// past both. The law leaves out the one way that loses state: a native
/// machine with `C` set goes to emulation mode and back, and of what
/// emulation mode forced (`M`, `X` and the page of the stack) nothing is
/// taken back.
#[verifier::rlimit(50)]
pub proof fn law_xce_twice(m: Machine, first: InstructionContext, second: InstructionContext)
    requires
        m.cpu.valid(),
        first.opcode == OpCode::XCE,
        second.opcode == OpCode::XCE,
        m.cpu.P.e || !m.cpu.P.c || (m.cpu.P.m && m.cpu.P.x && m.cpu.S / 256 == 1),
    ensures
        execute(m, first).1 == Ok::<CPUExecutionResult, EmuError>(CPUExecutionResult::Normal),
        execute(execute(m, first).0, second).1 == Ok::<CPUExecutionResult, EmuError>(
            CPUExecutionResult::Normal,
        ),
        execute(execute(m, first).0, second).0 == (Machine {
            cpu: CPU { PC: execute(execute(m, first).0, second).0.cpu.PC, ..m.cpu },
            ..m
        }),
        first.mode == AddrMode::Implied && second.mode == AddrMode::Implied ==> execute(
            execute(m, first).0,
            second,
        ).0.cpu.PC == wrap16(m.cpu.PC + 2),
{
    let once = exchange_carry_emulation(m.cpu);
    let first_len = instruction_length(first.opcode, first.mode, m.cpu.P.m, m.cpu.P.x);
    let after = Machine { cpu: advance(once, first_len), ..m };
    lemma_execute_by_class(m, first);
    lemma_execute_by_class(after, second);
    assert(execute(m, first).0 == after);
    let twice = exchange_carry_emulation(after.cpu);
    assert(twice == (CPU { PC: after.cpu.PC, ..m.cpu }));
    let second_len = instruction_length(
        second.opcode,
        second.mode,
        after.cpu.P.m,
        after.cpu.P.x,
    );
    assert(execute(after, second).0 == (Machine {
        cpu: advance(twice, second_len),
        ..after
    }));
}

/// Moving the stack pointer down and up again leaves it where it was, and
/// so the address it points to.
pub proof fn lemma_stack_moves_cancel(cpu: CPU, below: CPU)
    requires
        below.S == stack_moved(cpu, -1),
        below.P.e == cpu.P.e,
    ensures
        stack_moved(below, 1) == cpu.S,
        stack_address(CPU { S: stack_moved(below, 1), ..below }) == stack_address(cpu),
{
}

/// What a read returns depends on no register: only `N` shows, in one
/// status register.
pub proof fn lemma_load_ignores_registers(m: Machine, cpu: CPU, addr: u32)
    requires
        cpu.P.n == m.cpu.P.n,
    ensures
        load_byte(Machine { cpu: cpu, ..m }, addr) == load_byte(m, addr),
{
}

/// A push that is taken is a write to where the stack pointer points, and
/// the stack pointer one down.
pub proof fn lemma_push_taken(m: Machine, v: u8)
    requires
        push8(m, v).1 is Ok,
    ensures
        store_byte(m, stack_address(m.cpu), v).1 is Ok,
        push8(m, v).0 == (Machine {
            cpu: CPU { S: stack_moved(m.cpu, -1), ..m.cpu },
            ..store_byte(m, stack_address(m.cpu), v).0
        }),
{
    law_write_keeps_shape(m, stack_address(m.cpu), v);
}

/// A push of a byte and a pull of it give the byte back and leave the
/// stack pointer where it was, wherever the pull can read. Registers other
/// than the stack pointer may have changed in between, as long as `E` and
/// `N` have not.
#[verifier::rlimit(50)]
pub proof fn lemma_push_pull_byte(m: Machine, v: u8, between: Machine)
    requires
        push8(m, v).1 is Ok,
        between == (Machine { cpu: between.cpu, ..push8(m, v).0 }),
        between.cpu.S == push8(m, v).0.cpu.S,
        between.cpu.P.e == m.cpu.P.e,
        between.cpu.P.n == m.cpu.P.n,
        pull8(between).1 is Ok,
    ensures
        pull8(between).1 == Ok::<u8, EmuError>(v),
        pull8(between).0 == (Machine { cpu: CPU { S: m.cpu.S, ..between.cpu }, ..between }),
{
    let addr = stack_address(m.cpu);
    lemma_push_taken(m, v);
    let stored = store_byte(m, addr, v).0;
    law_write_keeps_shape(m, addr, v);
    lemma_stack_moves_cancel(m.cpu, between.cpu);
    let up = CPU { S: stack_moved(between.cpu, 1), ..between.cpu };
    let moved = Machine { cpu: up, ..between };
    assert(pull8(between).0 == moved);
    assert(pull8(between).1 == load_byte(moved, addr));
    assert(moved == (Machine { cpu: up, ..stored }));
    lemma_load_ignores_registers(stored, up, addr);
    assert(load_byte(stored, addr) is Ok);
    assert(!(map_address(m.cartridge.map_mode, addr) is Ppu));
    law_byte_round_trip(m, addr, v);
}

/// A push at a width and a pull at the same width give the value back, at
/// that width, and leave the stack pointer where it was. Registers other
/// than the stack pointer may have changed in between, as long as `E` and
/// `N` have not.
#[verifier::rlimit(50)]
pub proof fn lemma_push_pull_value(m: Machine, v: u16, w8: bool, between: Machine)
    requires
        push_value(m, v, w8).1 is Ok,
        between == (Machine { cpu: between.cpu, ..push_value(m, v, w8).0 }),
        between.cpu.S == push_value(m, v, w8).0.cpu.S,
        between.cpu.P.e == m.cpu.P.e,
        between.cpu.P.n == m.cpu.P.n,
        pull_value(between, w8).1 is Ok,
    ensures
        pull_value(between, w8).1 == Ok::<u16, EmuError>(low_part(v, w8)),
        pull_value(between, w8).0.cpu == (CPU { S: m.cpu.S, ..between.cpu }),
{
    if w8 {
        lemma_push_pull_byte(m, low_byte(v), between);
    } else {
        let high = stack_address(m.cpu);
        lemma_push_taken(m, high_byte(v));
        let once = push8(m, high_byte(v)).0;
        let stored_high = store_byte(m, high, high_byte(v)).0;
        law_write_keeps_shape(m, high, high_byte(v));
        let low = stack_address(once.cpu);
        lemma_push_taken(once, low_byte(v));
        let twice = push8(once, low_byte(v)).0;
        assert(push16(m, v).0 == twice);
        law_write_keeps_shape(once, low, low_byte(v));
        // The low byte comes back first.
        lemma_push_pull_byte(once, low_byte(v), between);
        let lower = pull8(between).0;
        assert(lower.cpu.S == once.cpu.S);
        // Then the high byte, which the push of the low byte did not touch.
        lemma_stack_moves_cancel(m.cpu, lower.cpu);
        let up = CPU { S: stack_moved(lower.cpu, 1), ..lower.cpu };
        let upper = Machine { cpu: up, ..lower };
        assert(pull8(lower).0 == upper);
        assert(pull8(lower).1 == load_byte(upper, high));
        let stored_low = store_byte(once, low, low_byte(v)).0;
        assert(upper == (Machine { cpu: up, ..stored_low }));
        lemma_load_ignores_registers(stored_low, up, high);
        assert(load_byte(stored_low, high) is Ok);
        lemma_stack_cells_differ(once, m.cpu);
        law_write_is_local(once, low, low_byte(v), high);
        assert(load_byte(once, high) == load_byte(stored_low, high));
        lemma_load_ignores_registers(stored_high, once.cpu, high);
        assert(once == (Machine { cpu: once.cpu, ..stored_high }));
        assert(!(map_address(m.cartridge.map_mode, high) is Ppu));
        law_byte_round_trip(m, high, high_byte(v));
        assert(word_of(low_byte(v), high_byte(v)) == v);
    }
}

/// Where the stack pointer points and where it points one down are two
/// cells, unless one of them lies in ROM or in the PPU window.
pub proof fn lemma_stack_cells_differ(m: Machine, cpu: CPU)
    requires
        !(map_address(m.cartridge.map_mode, stack_address(cpu)) is Rom),
        !(map_address(m.cartridge.map_mode, stack_address(cpu)) is Ppu),
    ensures
        !same_cell(
            m,
            stack_address(cpu),
            stack_address(CPU { S: stack_moved(cpu, -1), ..cpu }),
        ),
{
}

/// What `PHA` leaves behind where it succeeds: the accumulator on the
/// stack, at its width, and no register changed but the stack pointer and
/// the program counter.
pub proof fn lemma_pha(m: Machine, push: InstructionContext)
    requires
        push.opcode == OpCode::PHA,
        execute(m, push).1 is Ok,
    ensures
        push_value(m, m.cpu.A, m.cpu.P.m).1 is Ok,
        execute(m, push).0 == (Machine {
            cpu: execute(m, push).0.cpu,
            ..push_value(m, m.cpu.A, m.cpu.P.m).0
        }),
        execute(m, push).0.cpu.S == push_value(m, m.cpu.A, m.cpu.P.m).0.cpu.S,
        execute(m, push).0.cpu.P == m.cpu.P,
        execute(m, push).0.cpu.A == m.cpu.A,
{
    lemma_execute_by_class(m, push);
    lemma_pushes_keep_registers(m, m.cpu.A, m.cpu.P.m);
}

/// What `PLA` leaves behind where it succeeds: the pulled value in the
/// accumulator, at its width, and the stack pointer where the pull left it.
pub proof fn lemma_pla(m: Machine, pull: InstructionContext)
    requires
        pull.opcode == OpCode::PLA,
        execute(m, pull).1 is Ok,
    ensures
        pull_value(m, m.cpu.P.m).1 is Ok,
        execute(m, pull).0.cpu.S == pull_value(m, m.cpu.P.m).0.cpu.S,
        execute(m, pull).0.cpu.A == merge(
            pull_value(m, m.cpu.P.m).0.cpu.A,
            pull_value(m, m.cpu.P.m).1.unwrap(),
            pull_value(m, m.cpu.P.m).0.cpu.P.m,
        ),
{
    lemma_execute_by_class(m, pull);
}

/// `PHA` followed by `PLA` restores the accumulator and leaves the stack
/// pointer where it was, wherever both succeed.
#[verifier::rlimit(50)]
pub proof fn law_pha_pla(m: Machine, push: InstructionContext, pull: InstructionContext)
    requires
        push.opcode == OpCode::PHA,
        pull.opcode == OpCode::PLA,
        execute(m, push).1 is Ok,
        execute(execute(m, push).0, pull).1 is Ok,
    ensures
        execute(execute(m, push).0, pull).0.cpu.A == m.cpu.A,
        execute(execute(m, push).0, pull).0.cpu.S == m.cpu.S,
{
    let w8 = m.cpu.P.m;
    let between = execute(m, push).0;
    lemma_pha(m, push);
    lemma_pla(between, pull);
    lemma_push_pull_value(m, m.cpu.A, w8, between);
    lemma_merge_low_part(m.cpu.A, w8);
}

/// Writing the low part of a value over the value changes nothing.
pub proof fn lemma_merge_low_part(v: u16, w8: bool)
    ensures
        merge(v, low_part(v, w8), w8) == v,
{
}

/// A push changes no register but the stack pointer.
pub proof fn lemma_pushes_keep_registers(m: Machine, v: u16, w8: bool)
    ensures
        push_value(m, v, w8).0.cpu == (CPU { S: push_value(m, v, w8).0.cpu.S, ..m.cpu }),
{
    law_write_keeps_shape(m, stack_address(m.cpu), low_byte(v));
    law_write_keeps_shape(m, stack_address(m.cpu), high_byte(v));
    let once = push8(m, high_byte(v)).0;
    law_write_keeps_shape(once, stack_address(once.cpu), low_byte(v));
}

/// The status byte that `PHP` pushes holds every flag of `P`: loading it
/// back restores them all, in native mode and in a valid emulation mode
/// alike.
pub proof fn law_status_byte_round_trip(p: Flags)
    requires
        p.e ==> p.m && p.x,
    ensures
        0 <= p.to_byte() < 256,
        p.with_byte(p.to_byte() as u8) == p,
{
}

/// The non-maskable interrupt keeps the invariant of emulation mode.
pub proof fn law_nmi_keeps_invariant(m: Machine)
    requires
        m.cpu.valid(),
    ensures
        nmi(m).0.cpu.valid(),
{
    lemma_interrupt_keeps_valid(m, m.cpu.PC, interrupt_vector(m, OpCode::NOP), false);
}

} // verus!
