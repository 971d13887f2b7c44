//! The walk of the disassembler: a bounded run over the upcoming
//! instructions, on a copy of the machine, that records one line for each.
//!
//! The simulating walk executes what it passes, so that changes of the
//! widths and of the mode reach the decoding of what follows; transfers of
//! control are stepped over. The static walk executes nothing and follows
//! the widths through `REP`, `SEP`, `PLP` and `XCE` alone.

use vstd::prelude::*;
use ahash::AHashMap;
use crate::address::{decode, decode_instruction};
use crate::cartridge::{Cartridge, RomHeader};
use crate::console::{Console, Machine};
use crate::cpu::{bit_of, Flags, CPU};
use crate::debugger::{
    line_views, ContextView, DebugState, DisassemblerContext, DisassemblerLine, InstructionWrapper,
    LineView, WrapperView,
};
use crate::error::EmuError;
use crate::execute::execute_instruction;
use crate::memory::{load_byte, load_word, read_byte, read_word};
use crate::opcode::{instruction_length, AddrMode, InstructionContext, OpCode};
use crate::registers::DMARegisters;
use crate::semantics::{advance, execute, stack_address, stack_moved};

verus! {

// ---------------------------------------------------------------------
// The index of the lines by location
// ---------------------------------------------------------------------
#[verifier::external_type_specification]
#[verifier::external_body]
pub struct ExRandomState(ahash::RandomState);

#[verifier::external_type_specification]
#[verifier::external_body]
#[verifier::reject_recursive_types(K)]
#[verifier::reject_recursive_types(V)]
#[verifier::reject_recursive_types(S)]
pub struct ExAHashMap<K, V, S>(AHashMap<K, V, S>);

/// The index of the walk: from the location of a line to its number.
pub type LocationIndex = AHashMap<u32, usize>;

/// What a [`LocationIndex`] holds.
pub uninterp spec fn held(index: LocationIndex) -> Map<u32, usize>;

/// The index that holds nothing.
pub open spec fn nothing_held() -> Map<u32, usize> {
    Map::empty()
}

/// `AHashMap::new`: a map that holds nothing.
#[verifier::external_body]
fn index_new() -> (index: LocationIndex)
    ensures
        held(index) == nothing_held(),
{
    AHashMap::new()
}

/// `AHashMap::insert`: afterwards the map holds `line` under `location`,
/// in place of what it held there, and everything else as before.
#[verifier::external_body]
fn index_insert(index: &mut LocationIndex, location: u32, line: usize)
    ensures
        held(*final(index)) == held(*old(index)).insert(location, line),
{
    index.insert(location, line);
}

/// `AHashMap::get`: what the map holds under `location`, if anything.
#[verifier::external_body]
fn index_get(index: &LocationIndex, location: u32) -> (line: Option<usize>)
    ensures
        line == if held(*index).dom().contains(location) {
            Some(held(*index)[location])
        } else {
            None
        },
{
    index.get(&location).copied()
}

// ---------------------------------------------------------------------
// The walk, as a model
// ---------------------------------------------------------------------
/// What the walk records of the instruction at the program counter. A
/// branch is noted where it is short and its target lies behind `start`.
pub open spec fn scan_line(m: Machine, start: u32) -> Result<WrapperView, EmuError> {
    let pc = m.cpu.pc() as u32;
    match load_byte(m, pc) {
        Ok(opcode) => match decode(m, opcode, pc) {
            Ok(i) => match (if i.mode == AddrMode::Immediate {
                load_word(m, i.data_addr)
            } else {
                Ok(0u16)
            }) {
                Ok(data) => Ok(
                    WrapperView {
                        location: pc,
                        status: DebugState { x: m.cpu.P.x, m: m.cpu.P.m, e: m.cpu.P.e },
                        branchfrom: Seq::empty(),
                        branchto: if i.opcode.is_branch_spec() && i.data_addr > start {
                            Some(i.data_addr)
                        } else {
                            None
                        },
                        data: data,
                        instruction: i,
                    },
                ),
                Err(e) => Err(e),
            },
            Err(e) => Err(e),
        },
        Err(e) => Err(e),
    }
}

/// The transfers of control, which the simulating walk steps over.
pub open spec fn is_stepped_over(op: OpCode) -> bool {
    op.is_branch_spec() || op.is_jump_spec() || op.is_return_spec() || op.is_subroutine_spec()
}

/// The operations behind which the simulating walk ends.
pub open spec fn ends_simulation(op: OpCode) -> bool {
    op == OpCode::BRK || op.is_return_spec() || op.is_subroutine_spec() || op == OpCode::BRA
}

/// The operations at which the static walk ends.
pub open spec fn ends_listing(op: OpCode) -> bool {
    op.is_jump_spec() || op.is_return_spec() || op == OpCode::BRK || op == OpCode::BRA
}

/// The flags that the static walk carries on behind an instruction: `SEP`
/// and `REP` set and clear the two widths by their operand, `PLP` takes
/// them from the byte on top of the stack, and `XCE` leaves emulation mode
/// where the carry is set.
pub open spec fn followed_flags(m: Machine, i: InstructionContext) -> Result<Flags, EmuError> {
    let p = m.cpu.P;
    match i.opcode {
        OpCode::SEP => match load_byte(m, i.data_addr) {
            Ok(v) => Ok(Flags { m: p.m || bit_of(v, 5), x: p.x || bit_of(v, 4), ..p }),
            Err(e) => Err(e),
        },
        OpCode::REP => match load_byte(m, i.data_addr) {
            Ok(v) => Ok(Flags { m: p.m && !bit_of(v, 5), x: p.x && !bit_of(v, 4), ..p }),
            Err(e) => Err(e),
        },
        OpCode::PLP => match load_byte(
            m,
            stack_address(CPU { S: stack_moved(m.cpu, 1), ..m.cpu }),
        ) {
            Ok(v) => Ok(Flags { m: bit_of(v, 5), x: bit_of(v, 4), ..p }),
            Err(e) => Err(e),
        },
        OpCode::XCE => Ok(Flags { e: p.e && !p.c, ..p }),
        _ => Ok(p),
    }
}

/// The machine behind an instruction that the static walk has passed: the
/// program counter has moved on by the length of the instruction, the flags
/// are the followed ones, and behind `PLB` the data bank is the byte on top
/// of the stack.
pub open spec fn pass_by(m: Machine, i: InstructionContext) -> (Machine, Result<(), EmuError>) {
    let bank = if i.opcode == OpCode::PLB {
        load_byte(m, stack_address(CPU { S: stack_moved(m.cpu, 1), ..m.cpu }))
    } else {
        Ok(m.cpu.DBR)
    };
    match bank {
        Ok(dbr) => match followed_flags(m, i) {
            Ok(p) => (
                Machine {
                    cpu: CPU {
                        DBR: dbr,
                        P: p,
                        ..advance(
                            m.cpu,
                            instruction_length(i.opcode, i.mode, m.cpu.P.m, m.cpu.P.x),
                        )
                    },
                    ..m
                },
                Ok(()),
            ),
            Err(e) => (m, Err(e)),
        },
        Err(e) => (m, Err(e)),
    }
}

/// The machine behind an instruction that the simulating walk has passed:
/// a transfer of control is stepped over, everything else is executed.
pub open spec fn run_past(m: Machine, i: InstructionContext) -> (Machine, Result<(), EmuError>) {
    if is_stepped_over(i.opcode) {
        (
            Machine {
                cpu: advance(m.cpu, instruction_length(i.opcode, i.mode, m.cpu.P.m, m.cpu.P.x)),
                ..m
            },
            Ok(()),
        )
    } else {
        let done = execute(m, i);
        match done.1 {
            Ok(_) => (done.0, Ok(())),
            Err(e) => (done.0, Err(e)),
        }
    }
}

/// How a walk ended.
#[verifier::ext_equal]
pub enum Walk {
    /// It came to its end: the machine as the walk left it, and the lines.
    Done { machine: Machine, lines: Seq<WrapperView> },
    /// An instruction could not be read, or the static walk could not
    /// follow it.
    Unreadable { error: EmuError },
    /// The simulating walk could not execute an instruction: the machine
    /// at that point, and the lines up to and with that instruction.
    Stalled { machine: Machine, lines: Seq<WrapperView>, error: EmuError },
}

/// What the walk makes of one instruction.
#[verifier::ext_equal]
pub enum Pace {
    /// The instruction could not be read, or the static walk could not
    /// follow it.
    Unreadable { error: EmuError },
    /// The simulating walk could not execute the instruction.
    Stalled { machine: Machine, line: WrapperView, error: EmuError },
    /// The walk ends with this instruction.
    Last { machine: Machine, line: WrapperView },
    /// The walk goes on behind this instruction.
    Next { machine: Machine, line: WrapperView },
}

/// One pace of the walk: the instruction at the program counter is
/// recorded; the simulating walk then runs past it and ends behind a
/// `BRK`, a call, a return or a `BRA`; the static walk ends at a jump, a
/// return, a `BRK` or a `BRA` and passes by everything else.
#[verifier::opaque]
pub open spec fn pace(m: Machine, start: u32, simulate: bool) -> Pace {
    match scan_line(m, start) {
        Err(e) => Pace::Unreadable { error: e },
        Ok(line) => {
            let op = line.instruction.opcode;
            if simulate {
                let past = run_past(m, line.instruction);
                match past.1 {
                    Err(e) => Pace::Stalled { machine: past.0, line: line, error: e },
                    Ok(_) => if ends_simulation(op) {
                        Pace::Last { machine: past.0, line: line }
                    } else {
                        Pace::Next { machine: past.0, line: line }
                    },
                }
            } else if ends_listing(op) {
                Pace::Last { machine: m, line: line }
            } else {
                let past = pass_by(m, line.instruction);
                match past.1 {
                    Err(e) => Pace::Unreadable { error: e },
                    Ok(_) => Pace::Next { machine: past.0, line: line },
                }
            }
        },
    }
}

/// The walk from machine `m`, with `lines` recorded so far and room for
/// `room` more.
pub open spec fn walk(m: Machine, start: u32, lines: Seq<WrapperView>, room: nat, simulate: bool)
    -> Walk
    decreases room,
{
    if room == 0 {
        Walk::Done { machine: m, lines: lines }
    } else {
        match pace(m, start, simulate) {
            Pace::Unreadable { error } => Walk::Unreadable { error: error },
            Pace::Stalled { machine, line, error } => Walk::Stalled {
                machine: machine,
                lines: lines.push(line),
                error: error,
            },
            Pace::Last { machine, line } => Walk::Done { machine: machine, lines: lines.push(line) },
            Pace::Next { machine, line } => walk(
                machine,
                start,
                lines.push(line),
                (room - 1) as nat,
                simulate,
            ),
        }
    }
}

// ---------------------------------------------------------------------
// Linking the branches
// ---------------------------------------------------------------------
/// The last of the first `upto` lines that stands at `location`.
pub open spec fn find_last(lines: Seq<WrapperView>, location: u32, upto: int) -> Option<int>
    decreases upto,
{
    if upto <= 0 {
        None
    } else if lines[upto - 1].location == location {
        Some(upto - 1)
    } else {
        find_last(lines, location, upto - 1)
    }
}

/// The lines with the branch of line `k` linked: the line at its target
/// learns where the branch comes from, and a branch whose target is no
/// line of the window loses its target.
pub open spec fn link_line(lines: Seq<WrapperView>, k: int) -> Seq<WrapperView> {
    match lines[k].branchto {
        Some(target) => match find_last(lines, target, lines.len() as int) {
            Some(t) => lines.update(
                t,
                WrapperView { branchfrom: lines[t].branchfrom.push(lines[k].location), ..lines[t] },
            ),
            None => lines.update(k, WrapperView { branchto: None, ..lines[k] }),
        },
        None => lines,
    }
}

/// The lines with the branches of the `count` lines from `k` on linked, in
/// order.
pub open spec fn link_from(lines: Seq<WrapperView>, k: int, count: nat) -> Seq<WrapperView>
    decreases count,
{
    if count == 0 {
        lines
    } else {
        link_from(link_line(lines, k), k + 1, (count - 1) as nat)
    }
}

/// The lines with all of their branches linked.
pub open spec fn linked(lines: Seq<WrapperView>) -> Seq<WrapperView> {
    link_from(lines, 0, lines.len())
}

/// The numbers of the lines that branch, in order.
pub open spec fn branch_table(lines: Seq<WrapperView>) -> Seq<usize>
    decreases lines.len(),
{
    if lines.len() == 0 {
        Seq::empty()
    } else if lines.last().branchto is Some {
        branch_table(lines.drop_last()).push((lines.len() - 1) as usize)
    } else {
        branch_table(lines.drop_last())
    }
}

/// The lines of a listing, without arrows yet.
pub open spec fn bare_lines(lines: Seq<WrapperView>) -> Seq<LineView> {
    Seq::new(
        lines.len(),
        |k: int| LineView { location: lines[k].location, flags: Seq::empty(), disassembled: lines[k] },
    )
}

/// The listing of a walk that started at `start` and left `machine`
/// behind: the linked lines, and the table of the lines that branched.
pub open spec fn listing(start: u32, machine: Machine, lines: Seq<WrapperView>) -> ContextView {
    ContextView {
        lines: bare_lines(linked(lines)),
        branchtable: branch_table(lines),
        branchdepth: 0,
        startloc: start,
        endloc: machine.cpu.pc() as u32,
    }
}

/// Whether every branch that still has a target has it on a line of the
/// window.
pub open spec fn targets_resolve(lines: Seq<WrapperView>) -> bool {
    forall|k: int|
        0 <= k < lines.len() ==> ((#[trigger] lines[k]).branchto matches Some(target) ==> find_last(
            lines,
            target,
            lines.len() as int,
        ) is Some)
}

/// A line that `find_last` finds is there and stands at the location.
pub proof fn lemma_find_last_found(lines: Seq<WrapperView>, location: u32, upto: int)
    requires
        upto <= lines.len(),
    ensures
        find_last(lines, location, upto) matches Some(t) ==> 0 <= t < upto && lines[t].location
            == location,
        find_last(lines, location, upto) is None ==> forall|j: int|
            0 <= j < upto ==> (#[trigger] lines[j]).location != location,
    decreases upto,
{
    if upto > 0 && lines[upto - 1].location != location {
        lemma_find_last_found(lines, location, upto - 1);
    }
}

/// `find_last` looks at locations only.
pub proof fn lemma_find_last_agrees(
    a: Seq<WrapperView>,
    b: Seq<WrapperView>,
    location: u32,
    upto: int,
)
    requires
        upto <= a.len(),
        upto <= b.len(),
        forall|j: int| 0 <= j < upto ==> (#[trigger] a[j]).location == (#[trigger] b[j]).location,
    ensures
        find_last(a, location, upto) == find_last(b, location, upto),
    decreases upto,
{
    if upto > 0 {
        assert(a[upto - 1].location == b[upto - 1].location);
        if a[upto - 1].location != location {
            lemma_find_last_agrees(a, b, location, upto - 1);
        }
    }
}

/// Linking a line moves no line and changes no target but, at most, that
/// of the line itself, which it takes away where it does not resolve.
pub proof fn lemma_link_line(lines: Seq<WrapperView>, k: int)
    requires
        0 <= k < lines.len(),
    ensures
        link_line(lines, k).len() == lines.len(),
        forall|j: int|
            0 <= j < lines.len() ==> (#[trigger] link_line(lines, k)[j]).location
                == lines[j].location,
        forall|j: int|
            0 <= j < lines.len() && j != k ==> (#[trigger] link_line(lines, k)[j]).branchto
                == lines[j].branchto,
        link_line(lines, k)[k].branchto matches Some(target) ==> find_last(
            lines,
            target,
            lines.len() as int,
        ) is Some && lines[k].branchto == Some(target),
{
    match lines[k].branchto {
        Some(target) => {
            lemma_find_last_found(lines, target, lines.len() as int);
        },
        None => {},
    }
}

proof fn lemma_link_from_resolves(lines: Seq<WrapperView>, k: int)
    requires
        0 <= k <= lines.len(),
        forall|j: int|
            0 <= j < k ==> ((#[trigger] lines[j]).branchto matches Some(target) ==> find_last(
                lines,
                target,
                lines.len() as int,
            ) is Some),
    ensures
        link_from(lines, k, (lines.len() - k) as nat).len() == lines.len(),
        targets_resolve(link_from(lines, k, (lines.len() - k) as nat)),
        forall|j: int|
            0 <= j < lines.len() ==> (#[trigger] link_from(
                lines,
                k,
                (lines.len() - k) as nat,
            )[j]).location == lines[j].location,
    decreases lines.len() - k,
{
    if k < lines.len() {
        let next = link_line(lines, k);
        lemma_link_line(lines, k);
        assert forall|j: int| 0 <= j < k + 1 implies ((#[trigger] next[j]).branchto matches Some(
            target,
        ) ==> find_last(next, target, next.len() as int) is Some) by {
            match next[j].branchto {
                Some(target) => {
                    lemma_find_last_agrees(next, lines, target, lines.len() as int);
                    if j != k {
                        assert(lines[j].branchto == Some(target));
                    }
                },
                None => {},
            }
        }
        lemma_link_from_resolves(next, k + 1);
    }
}

/// Every entry of the branch table is the number of a line.
pub proof fn lemma_branch_table_in_range(lines: Seq<WrapperView>)
    ensures
        forall|k: int|
            0 <= k < branch_table(lines).len() ==> (#[trigger] branch_table(lines)[k])
                < lines.len(),
    decreases lines.len(),
{
    if lines.len() > 0 {
        let rest = branch_table(lines.drop_last());
        lemma_branch_table_in_range(lines.drop_last());
        assert(lines.drop_last().len() == lines.len() - 1);
        assert forall|k: int| 0 <= k < branch_table(lines).len() implies (#[trigger] branch_table(
            lines,
        )[k]) < lines.len() by {
            if k < rest.len() {
                assert(branch_table(lines)[k] == rest[k]);
            }
        }
    }
}

/// In the listing of a walk every branch target is the location of a line
/// of the window: a branch that leaves the window, or lands between two
/// instructions, has lost its target. And every entry of the branch table
/// names a line of the listing.
pub proof fn law_branch_targets_resolve(start: u32, machine: Machine, lines: Seq<WrapperView>)
    ensures
        listing(start, machine, lines).lines.len() == lines.len(),
        forall|k: int|
            0 <= k < lines.len() ==> ((#[trigger] listing(
                start,
                machine,
                lines,
            ).lines[k]).disassembled.branchto matches Some(target) ==> exists|j: int|
                0 <= j < lines.len() && (#[trigger] listing(start, machine, lines).lines[j]).location
                    == target),
        forall|k: int|
            0 <= k < listing(start, machine, lines).branchtable.len() ==> (#[trigger] listing(
                start,
                machine,
                lines,
            ).branchtable[k]) < lines.len(),
{
    let linked = linked(lines);
    lemma_link_from_resolves(lines, 0);
    lemma_branch_table_in_range(lines);
    let shown = listing(start, machine, lines).lines;
    assert forall|k: int| 0 <= k < lines.len() implies ((#[trigger] shown[k]).disassembled.branchto
        matches Some(target) ==> exists|j: int|
        0 <= j < lines.len() && (#[trigger] shown[j]).location == target) by {
        match shown[k].disassembled.branchto {
            Some(target) => {
                assert(linked[k].branchto == Some(target));
                lemma_find_last_found(linked, target, linked.len() as int);
                let t = find_last(linked, target, linked.len() as int).unwrap();
                assert(shown[t].location == target);
            },
            None => {},
        }
    }
}

// ---------------------------------------------------------------------
// The walk, on the console
// ---------------------------------------------------------------------
/// The views of a sequence of recorded instructions.
pub open spec fn wrapper_views(lines: Seq<InstructionWrapper>) -> Seq<WrapperView> {
    Seq::new(lines.len(), |k: int| lines[k]@)
}

/// Where a simulating walk stalled: the lines up to and with the
/// instruction that failed, the machine at that point, and the error.
#[derive(Debug)]
pub struct DisassemblyError {
    pub instructions: Vec<InstructionWrapper>,
    pub status: Console,
    pub source: EmuError,
}

/// What a [`DisassemblyError`] holds.
#[verifier::ext_equal]
pub struct DisassemblyErrorView {
    pub instructions: Seq<WrapperView>,
    pub status: Machine,
    pub source: EmuError,
}

impl View for DisassemblyError {
    type V = DisassemblyErrorView;

    open spec fn view(&self) -> DisassemblyErrorView {
        DisassemblyErrorView {
            instructions: wrapper_views(self.instructions@),
            status: self.status@,
            source: self.source,
        }
    }
}

/// Why the disassembler gave no listing.
#[derive(Debug)]
pub enum DisassemblerError {
    /// The walk stalled on an instruction that could not be executed.
    DisassemblyError(DisassemblyError),
    /// An instruction could not be read.
    Other(EmuError),
}

/// Whether the index holds, for every location, the last line there.
pub open spec fn index_matches(index: Map<u32, usize>, lines: Seq<WrapperView>) -> bool {
    &&& forall|location: u32| #[trigger]
        index.dom().contains(location) <==> find_last(lines, location, lines.len() as int) is Some
    &&& forall|location: u32| #[trigger]
        index.dom().contains(location) ==> index[location] as int == find_last(
            lines,
            location,
            lines.len() as int,
        ).unwrap()
}

enum Walked {
    Done { machine: Console, lines: Vec<InstructionWrapper>, index: LocationIndex },
    Unreadable { error: EmuError },
    Stalled { machine: Console, lines: Vec<InstructionWrapper>, error: EmuError },
}

impl Walked {
    spec fn model(self) -> Walk {
        match self {
            Walked::Done { machine, lines, index } => Walk::Done {
                machine: machine@,
                lines: wrapper_views(lines@),
            },
            Walked::Unreadable { error } => Walk::Unreadable { error: error },
            Walked::Stalled { machine, lines, error } => Walk::Stalled {
                machine: machine@,
                lines: wrapper_views(lines@),
                error: error,
            },
        }
    }

    spec fn indexed(self) -> bool {
        match self {
            Walked::Done { machine, lines, index } => index_matches(
                held(index),
                wrapper_views(lines@),
            ),
            _ => true,
        }
    }
}

fn copy_header(header: &RomHeader) -> (r: RomHeader)
    ensures
        r.map_mode == header.map_mode,
        r.rom_size == header.rom_size,
        r.interrupt_vectors == header.interrupt_vectors,
{
    RomHeader {
        title: header.title.clone(),
        map_mode: header.map_mode,
        rom_speed: header.rom_speed,
        extra_hardware: header.extra_hardware,
        rom_size: header.rom_size,
        ram_size: header.ram_size,
        country: header.country,
        developer_id: header.developer_id,
        rom_version: header.rom_version,
        checksum_complement: header.checksum_complement,
        checksum: header.checksum,
        interrupt_vectors: header.interrupt_vectors,
        expanded_header: header.expanded_header.clone(),
    }
}

fn copy_dma(dma: &DMARegisters) -> (r: DMARegisters)
    ensures
        r@ == dma@,
{
    DMARegisters {
        MDMAEN: dma.MDMAEN,
        HDMAEN: dma.HDMAEN,
        DMAPn: dma.DMAPn.clone(),
        BBADn: dma.BBADn.clone(),
        A1TnL: dma.A1TnL.clone(),
        A1TnH: dma.A1TnH.clone(),
        A1nB: dma.A1nB.clone(),
        DASnL: dma.DASnL.clone(),
        DASnH: dma.DASnH.clone(),
        DASBn: dma.DASBn.clone(),
        A2TnL: dma.A2TnL.clone(),
        A2TnH: dma.A2TnH.clone(),
        NLTRn: dma.NLTRn.clone(),
        UNUSEDn: dma.UNUSEDn.clone(),
    }
}

/// A copy of the console for the walk to work on.
fn copy_console(snes: &Console) -> (r: Console)
    ensures
        r@ == snes@,
{
    Console {
        cpu: snes.cpu,
        cartridge: Cartridge {
            header: copy_header(&snes.cartridge.header),
            rom_data: snes.cartridge.rom_data.clone(),
        },
        ram: snes.ram.clone(),
        mmio: snes.mmio,
        dma: copy_dma(&snes.dma),
    }
}

fn scan(sim: &Console, start: u32) -> (r: Result<InstructionWrapper, EmuError>)
    ensures
        match scan_line(sim@, start) {
            Ok(line) => r matches Ok(w) && w@ == line,
            Err(e) => r matches Err(f) && f == e,
        },
{
    let pc: u32 = sim.cpu.get_pc();
    let opcode: u8 = match read_byte(sim, pc) {
        Ok(b) => b,
        Err(e) => {
            return Err(e);
        },
    };
    let instruction: InstructionContext = match decode_instruction(sim, opcode, pc) {
        Ok(i) => i,
        Err(e) => {
            return Err(e);
        },
    };
    let data: u16 = if matches!(instruction.mode, AddrMode::Immediate) {
        match read_word(sim, instruction.data_addr) {
            Ok(w) => w,
            Err(e) => {
                return Err(e);
            },
        }
    } else {
        0
    };
    let branchto: Option<u32> = if instruction.opcode.is_branch() && instruction.data_addr
        > start {
        Some(instruction.data_addr)
    } else {
        None
    };
    Ok(
        InstructionWrapper {
            location: pc,
            status: DebugState { x: sim.cpu.P.x, m: sim.cpu.P.m, e: sim.cpu.P.e },
            branchfrom: Vec::new(),
            branchto,
            data,
            instruction,
        },
    )
}

fn move_on(sim: &mut Console, instruction: &InstructionContext)
    ensures
        final(sim)@ == (Machine {
            cpu: advance(
                old(sim)@.cpu,
                instruction_length(
                    instruction.opcode,
                    instruction.mode,
                    old(sim)@.cpu.P.m,
                    old(sim)@.cpu.P.x,
                ),
            ),
            ..old(sim)@
        }),
{
    let len: usize = instruction.length(sim.cpu.P.m, sim.cpu.P.x);
    sim.cpu.PC = ((sim.cpu.PC as u32 + len as u32) % 0x10000) as u16;
}

fn run_past_line(sim: &mut Console, instruction: &InstructionContext) -> (r: Result<(), EmuError>)
    ensures
        final(sim)@ == run_past(old(sim)@, *instruction).0,
        r == run_past(old(sim)@, *instruction).1,
{
    let op: OpCode = instruction.opcode;
    if op.is_branch() || op.is_jump() || op.is_return() || op.is_subroutine() {
        move_on(sim, instruction);
        Ok(())
    } else {
        match execute_instruction(sim, instruction) {
            Ok(_) => Ok(()),
            Err(e) => Err(e),
        }
    }
}

fn top_of_stack(sim: &Console) -> (r: Result<u8, EmuError>)
    ensures
        r == load_byte(sim@, stack_address(CPU { S: stack_moved(sim@.cpu, 1), ..sim@.cpu })),
{
    let addr: u32 = if sim.cpu.P.e {
        0x0100 + ((sim.cpu.S % 256 + 257) % 256) as u32
    } else {
        (sim.cpu.S as u32 + 0x10001) % 0x10000
    };
    read_byte(sim, addr)
}

fn width_bits(v: u8) -> (r: (bool, bool))
    ensures
        r.0 == bit_of(v, 5),
        r.1 == bit_of(v, 4),
{
    ((v / 32) % 2 == 1, (v / 16) % 2 == 1)
}

fn with_widths(p: Flags, m: bool, x: bool) -> (r: Flags)
    ensures
        r == (Flags { m: m, x: x, ..p }),
{
    let mut r: Flags = p;
    r.m = m;
    r.x = x;
    r
}

#[verifier::rlimit(50)]
fn follow_flags(sim: &Console, instruction: &InstructionContext) -> (r: Result<Flags, EmuError>)
    ensures
        r == followed_flags(sim@, *instruction),
{
    let p: Flags = sim.cpu.P;
    match instruction.opcode {
        OpCode::SEP => match read_byte(sim, instruction.data_addr) {
            Ok(v) => {
                let bits: (bool, bool) = width_bits(v);
                Ok(with_widths(p, p.m || bits.0, p.x || bits.1))
            },
            Err(e) => Err(e),
        },
        OpCode::REP => match read_byte(sim, instruction.data_addr) {
            Ok(v) => {
                let bits: (bool, bool) = width_bits(v);
                Ok(with_widths(p, p.m && !bits.0, p.x && !bits.1))
            },
            Err(e) => Err(e),
        },
        OpCode::PLP => match top_of_stack(sim) {
            Ok(v) => {
                let bits: (bool, bool) = width_bits(v);
                Ok(with_widths(p, bits.0, bits.1))
            },
            Err(e) => Err(e),
        },
        OpCode::XCE => {
            let mut r: Flags = p;
            r.e = p.e && !p.c;
            Ok(r)
        },
        _ => Ok(p),
    }
}

fn pass_by_line(sim: &mut Console, instruction: &InstructionContext) -> (r: Result<(), EmuError>)
    ensures
        final(sim)@ == pass_by(old(sim)@, *instruction).0,
        r == pass_by(old(sim)@, *instruction).1,
{
    let bank: u8 = if matches!(instruction.opcode, OpCode::PLB) {
        match top_of_stack(sim) {
            Ok(b) => b,
            Err(e) => {
                return Err(e);
            },
        }
    } else {
        sim.cpu.DBR
    };
    let p: Flags = match follow_flags(sim, instruction) {
        Ok(p) => p,
        Err(e) => {
            return Err(e);
        },
    };
    move_on(sim, instruction);
    sim.cpu.DBR = bank;
    sim.cpu.P = p;
    Ok(())
}

fn ends_walk(op: OpCode, simulate: bool) -> (r: bool)
    ensures
        r == if simulate {
            ends_simulation(op)
        } else {
            ends_listing(op)
        },
{
    if simulate {
        matches!(op, OpCode::BRK | OpCode::BRA) || op.is_return() || op.is_subroutine()
    } else {
        matches!(op, OpCode::BRK | OpCode::BRA) || op.is_jump() || op.is_return()
    }
}

proof fn lemma_index_grows(
    index: Map<u32, usize>,
    lines: Seq<WrapperView>,
    line: WrapperView,
)
    requires
        index_matches(index, lines),
        lines.len() <= usize::MAX,
    ensures
        index_matches(index.insert(line.location, lines.len() as usize), lines.push(line)),
{
    let grown = lines.push(line);
    let after = index.insert(line.location, lines.len() as usize);
    assert forall|location: u32| #[trigger]
        after.dom().contains(location) <==> find_last(grown, location, grown.len() as int)
            is Some by {
        lemma_find_last_agrees(grown, lines, location, lines.len() as int);
        assert(index.dom().contains(location) <==> find_last(
            lines,
            location,
            lines.len() as int,
        ) is Some);
    }
    assert forall|location: u32| #[trigger] after.dom().contains(location) implies after[location]
        as int == find_last(grown, location, grown.len() as int).unwrap() by {
        lemma_find_last_agrees(grown, lines, location, lines.len() as int);
        if location != line.location {
            assert(index.dom().contains(location));
        }
    }
}

enum Paced {
    Unreadable { error: EmuError },
    Stalled { line: InstructionWrapper, error: EmuError },
    Last { line: InstructionWrapper },
    Next { line: InstructionWrapper },
}

impl Paced {
    spec fn model(self, machine: Machine) -> Pace {
        match self {
            Paced::Unreadable { error } => Pace::Unreadable { error: error },
            Paced::Stalled { line, error } => Pace::Stalled {
                machine: machine,
                line: line@,
                error: error,
            },
            Paced::Last { line } => Pace::Last { machine: machine, line: line@ },
            Paced::Next { line } => Pace::Next { machine: machine, line: line@ },
        }
    }
}

#[verifier::rlimit(50)]
fn take_pace(sim: &mut Console, start: u32, simulate: bool) -> (r: Paced)
    ensures
        r.model(final(sim)@) == pace(old(sim)@, start, simulate),
{
    proof {
        reveal(pace);
    }
    let wrapper: InstructionWrapper = match scan(sim, start) {
        Ok(w) => w,
        Err(e) => {
            return Paced::Unreadable { error: e };
        },
    };
    let instruction: InstructionContext = wrapper.instruction;
    let op: OpCode = instruction.opcode;
    if simulate {
        match run_past_line(sim, &instruction) {
            Ok(_) => {},
            Err(e) => {
                return Paced::Stalled { line: wrapper, error: e };
            },
        }
        if ends_walk(op, simulate) {
            Paced::Last { line: wrapper }
        } else {
            Paced::Next { line: wrapper }
        }
    } else {
        if ends_walk(op, simulate) {
            return Paced::Last { line: wrapper };
        }
        match pass_by_line(sim, &instruction) {
            Ok(_) => Paced::Next { line: wrapper },
            Err(e) => Paced::Unreadable { error: e },
        }
    }
}

fn record(lines: &mut Vec<InstructionWrapper>, index: &mut LocationIndex, line: InstructionWrapper)
    requires
        index_matches(held(*old(index)), wrapper_views(old(lines)@)),
    ensures
        wrapper_views(final(lines)@) == wrapper_views(old(lines)@).push(line@),
        final(lines)@.len() == old(lines)@.len() + 1,
        index_matches(held(*final(index)), wrapper_views(final(lines)@)),
{
    let ghost recorded = wrapper_views(lines@);
    let n: usize = lines.len();
    proof {
        assert(recorded.len() == n);
        lemma_index_grows(held(*index), recorded, line@);
    }
    index_insert(index, line.location, n);
    lines.push(line);
    assert(wrapper_views(lines@) =~= recorded.push(line@));
}

#[verifier::rlimit(50)]
fn run_walk(snes: &Console, start: u32, room: usize, simulate: bool) -> (r: Walked)
    ensures
        r.model() == walk(
            Machine { cpu: snes@.cpu.with_pc(start), ..snes@ },
            start,
            Seq::empty(),
            room as nat,
            simulate,
        ),
        r.indexed(),
{
    let mut sim: Console = copy_console(snes);
    sim.cpu.set_pc(start);
    let ghost first = sim@;
    let mut lines: Vec<InstructionWrapper> = Vec::new();
    let mut index: LocationIndex = index_new();
    let mut remaining: usize = room;
    assert(wrapper_views(lines@) =~= Seq::empty());
    while remaining > 0
        invariant
            remaining <= room,
            lines@.len() <= room - remaining,
            first == (Machine { cpu: snes@.cpu.with_pc(start), ..snes@ }),
            index_matches(held(index), wrapper_views(lines@)),
            walk(first, start, Seq::empty(), room as nat, simulate) == walk(
                sim@,
                start,
                wrapper_views(lines@),
                remaining as nat,
                simulate,
            ),
        decreases remaining,
    {
        match take_pace(&mut sim, start, simulate) {
            Paced::Unreadable { error } => {
                return Walked::Unreadable { error: error };
            },
            Paced::Stalled { line, error } => {
                record(&mut lines, &mut index, line);
                return Walked::Stalled { machine: sim, lines: lines, error: error };
            },
            Paced::Last { line } => {
                record(&mut lines, &mut index, line);
                return Walked::Done { machine: sim, lines: lines, index: index };
            },
            Paced::Next { line } => {
                record(&mut lines, &mut index, line);
            },
        }
        remaining = remaining - 1;
    }
    Walked::Done { machine: sim, lines: lines, index: index }
}

fn table_of(lines: &Vec<InstructionWrapper>) -> (r: Vec<usize>)
    ensures
        r@ == branch_table(wrapper_views(lines@)),
{
    let ghost views = wrapper_views(lines@);
    let n: usize = lines.len();
    let mut table: Vec<usize> = Vec::new();
    let mut k: usize = 0;
    while k < n
        invariant
            n == lines.len(),
            k <= n,
            views == wrapper_views(lines@),
            table@ == branch_table(views.take(k as int)),
        decreases n - k,
    {
        proof {
            let grown = views.take(k + 1);
            assert(grown.drop_last() =~= views.take(k as int));
            assert(grown.last() == views[k as int]);
        }
        if lines[k].branchto.is_some() {
            table.push(k);
        }
        k = k + 1;
    }
    assert(views.take(n as int) =~= views);
    table
}

#[verifier::rlimit(50)]
fn link_branches(lines: &mut Vec<InstructionWrapper>, index: &LocationIndex)
    requires
        index_matches(held(*index), wrapper_views(old(lines)@)),
    ensures
        wrapper_views(final(lines)@) == linked(wrapper_views(old(lines)@)),
{
    let n: usize = lines.len();
    let ghost before = wrapper_views(lines@);
    let mut k: usize = 0;
    while k < n
        invariant
            n == lines.len(),
            k <= n,
            before.len() == n,
            index_matches(held(*index), before),
            forall|j: int|
                0 <= j < n ==> (#[trigger] wrapper_views(lines@)[j]).location == before[j].location,
            linked(before) == link_from(wrapper_views(lines@), k as int, (n - k) as nat),
        decreases n - k,
    {
        let ghost current = wrapper_views(lines@);
        let ghost raw = lines@;
        assert(current[k as int] == raw[k as int]@);
        match lines[k].branchto {
            Some(target) => {
                proof {
                    lemma_find_last_agrees(current, before, target, n as int);
                    lemma_find_last_found(before, target, n as int);
                }
                match index_get(index, target) {
                    Some(t) => {
                        let location: u32 = lines[k].location;
                        assert(current[t as int] == raw[t as int]@);
                        lines[t].branchfrom.push(location);
                        proof {
                            assert forall|j: int| 0 <= j < n implies (#[trigger] wrapper_views(
                                lines@,
                            )[j]) == link_line(current, k as int)[j] by {
                                if j != t {
                                    assert(lines@[j] == raw[j]);
                                    assert(current[j] == raw[j]@);
                                }
                            }
                        }
                    },
                    None => {
                        lines[k].branchto = None;
                        proof {
                            assert forall|j: int| 0 <= j < n implies (#[trigger] wrapper_views(
                                lines@,
                            )[j]) == link_line(current, k as int)[j] by {
                                if j != k {
                                    assert(lines@[j] == raw[j]);
                                    assert(current[j] == raw[j]@);
                                }
                            }
                        }
                    },
                }
            },
            None => {},
        }
        assert(wrapper_views(lines@) =~= link_line(current, k as int));
        proof {
            lemma_link_line(current, k as int);
        }
        k = k + 1;
    }
}

fn copy_wrapper(line: &InstructionWrapper) -> (r: InstructionWrapper)
    ensures
        r@ == line@,
{
    InstructionWrapper {
        location: line.location,
        status: line.status,
        branchfrom: line.branchfrom.clone(),
        branchto: line.branchto,
        data: line.data,
        instruction: line.instruction,
    }
}

fn bare(lines: &Vec<InstructionWrapper>) -> (r: Vec<DisassemblerLine>)
    ensures
        line_views(r@) == bare_lines(wrapper_views(lines@)),
{
    let n: usize = lines.len();
    let mut shown: Vec<DisassemblerLine> = Vec::new();
    let mut k: usize = 0;
    while k < n
        invariant
            n == lines.len(),
            k <= n,
            shown@.len() == k,
            forall|j: int|
                0 <= j < k ==> (#[trigger] shown@[j])@ == bare_lines(wrapper_views(lines@))[j],
        decreases n - k,
    {
        let line: DisassemblerLine = DisassemblerLine {
            location: lines[k].location,
            flags: Vec::new(),
            disassembled: copy_wrapper(&lines[k]),
        };
        assert(line@ =~= bare_lines(wrapper_views(lines@))[k as int]);
        shown.push(line);
        k = k + 1;
    }
    assert(line_views(shown@) =~= bare_lines(wrapper_views(lines@)));
    shown
}

/// Setting the program counter to where it stands changes nothing.
pub proof fn lemma_same_pc(cpu: CPU)
    ensures
        cpu.with_pc(cpu.pc() as u32) == cpu,
{
}

/// The most lines that the static walk records.
pub const LISTING_ROOM: usize = 31;

/// Disassembles up to `maxlines` instructions from the program counter on,
/// on a copy of the console, and links their branches.
///
/// The walk executes what it passes, but for transfers of control, which it
/// steps over, and ends behind a `BRK`, a call, a return or a `BRA`. Where
/// an instruction cannot be executed, the error carries the lines so far
/// and the copy of the console as it stalled.
pub fn debug_simulation(snes: &Console, maxlines: usize) -> (r: Result<
    DisassemblerContext,
    DisassemblerError,
>)
    ensures
        match walk(snes@, snes@.cpu.pc() as u32, Seq::empty(), maxlines as nat, true) {
            Walk::Done { machine, lines } => r matches Ok(context) && context@ == listing(
                snes@.cpu.pc() as u32,
                machine,
                lines,
            ),
            Walk::Unreadable { error } => r matches Err(DisassemblerError::Other(e)) && e == error,
            Walk::Stalled { machine, lines, error } => r matches Err(
                DisassemblerError::DisassemblyError(stalled),
            ) && stalled@ == (DisassemblyErrorView {
                instructions: lines,
                status: machine,
                source: error,
            }),
        },
{
    let start: u32 = snes.cpu.get_pc();
    proof {
        lemma_same_pc(snes@.cpu);
        assert(snes@ == (Machine { cpu: snes@.cpu.with_pc(start), ..snes@ }));
    }
    match run_walk(snes, start, maxlines, true) {
        Walked::Done { machine, lines, index } => {
            let table: Vec<usize> = table_of(&lines);
            let mut lines = lines;
            link_branches(&mut lines, &index);
            let shown: Vec<DisassemblerLine> = bare(&lines);
            Ok(
                DisassemblerContext {
                    lines: shown,
                    branchtable: table,
                    branchdepth: 0,
                    startloc: start,
                    endloc: machine.cpu.get_pc(),
                },
            )
        },
        Walked::Unreadable { error } => Err(DisassemblerError::Other(error)),
        Walked::Stalled { machine, lines, error } => Err(
            DisassemblerError::DisassemblyError(
                DisassemblyError { instructions: lines, status: machine, source: error },
            ),
        ),
    }
}

/// Lists up to 31 instructions from `start` on without executing any, and
/// links their branches.
///
/// The walk follows the widths and the mode through `REP`, `SEP`, `PLP`
/// and `XCE`, and the data bank through `PLB`, and ends at a jump, a
/// return, a `BRK` or a `BRA`.
pub fn debug_instructions(snes: &Console, start: u32) -> (r: Result<
    Vec<InstructionWrapper>,
    EmuError,
>)
    ensures
        match walk(
            Machine { cpu: snes@.cpu.with_pc(start), ..snes@ },
            start,
            Seq::empty(),
            LISTING_ROOM as nat,
            false,
        ) {
            Walk::Done { machine, lines } => r matches Ok(listed) && wrapper_views(listed@)
                == linked(lines),
            Walk::Unreadable { error } => r matches Err(e) && e == error,
            Walk::Stalled { machine, lines, error } => r matches Err(e) && e == error,
        },
{
    match run_walk(snes, start, LISTING_ROOM, false) {
        Walked::Done { machine, lines, index } => {
            let mut lines = lines;
            link_branches(&mut lines, &index);
            Ok(lines)
        },
        Walked::Unreadable { error } => Err(error),
        Walked::Stalled { machine, lines, error } => Err(error),
    }
}

} // verus!