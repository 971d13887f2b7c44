//! The disassembler: a bounded walk over the upcoming instructions on a
//! copy of the machine, and the branch arrows that a debugger draws beside
//! them.

use vstd::prelude::*;
use crate::console::{Console, Machine};
use crate::opcode::InstructionContext;

verus! {

/// The widths and the mode that an instruction was decoded under.
#[derive(Clone, Copy, Debug, PartialEq, Eq, Structural)]
pub struct DebugState {
    pub x: bool,
    pub m: bool,
    pub e: bool,
}

impl Default for DebugState {
    fn default() -> (r: DebugState)
        ensures
            r == (DebugState { x: false, m: false, e: false }),
    {
        DebugState { x: false, m: false, e: false }
    }
}

/// One instruction of the walk: where it stands, what it was decoded
/// under, its immediate operand if it has one, and the branches that lead
/// to it and away from it.
#[derive(Debug, Clone)]
pub struct InstructionWrapper {
    pub location: u32,
    pub status: DebugState,
    pub branchfrom: Vec<u32>,
    pub branchto: Option<u32>,
    pub data: u16,
    pub instruction: InstructionContext,
}

/// What an [`InstructionWrapper`] holds.
#[verifier::ext_equal]
pub struct WrapperView {
    pub location: u32,
    pub status: DebugState,
    pub branchfrom: Seq<u32>,
    pub branchto: Option<u32>,
    pub data: u16,
    pub instruction: InstructionContext,
}

impl View for InstructionWrapper {
    type V = WrapperView;

    open spec fn view(&self) -> WrapperView {
        WrapperView {
            location: self.location,
            status: self.status,
            branchfrom: self.branchfrom@,
            branchto: self.branchto,
            data: self.data,
            instruction: self.instruction,
        }
    }
}

/// A piece of a branch arrow beside a line. Each carries the location of
/// the line it stands on.
#[derive(Clone, Copy, Debug, PartialEq, Eq, Structural)]
pub enum Flag {
    BranchStart(u32),
    BranchCont(u32),
    BranchEnd(u32),
}

/// One line of the listing.
#[derive(Debug, Clone)]
pub struct DisassemblerLine {
    pub location: u32,
    pub flags: Vec<Flag>,
    pub disassembled: InstructionWrapper,
}

/// What a [`DisassemblerLine`] holds.
#[verifier::ext_equal]
pub struct LineView {
    pub location: u32,
    pub flags: Seq<Flag>,
    pub disassembled: WrapperView,
}

impl View for DisassemblerLine {
    type V = LineView;

    open spec fn view(&self) -> LineView {
        LineView { location: self.location, flags: self.flags@, disassembled: self.disassembled@ }
    }
}

/// The listing: its lines in the order of the walk, the indices of the
/// lines that branch, and the widest stack of arrows beside any line.
#[derive(Debug, Clone)]
pub struct DisassemblerContext {
    pub lines: Vec<DisassemblerLine>,
    pub branchtable: Vec<usize>,
    pub branchdepth: usize,
    pub startloc: u32,
    pub endloc: u32,
}

/// What a [`DisassemblerContext`] holds.
#[verifier::ext_equal]
pub struct ContextView {
    pub lines: Seq<LineView>,
    pub branchtable: Seq<usize>,
    pub branchdepth: usize,
    pub startloc: u32,
    pub endloc: u32,
}

/// The views of a sequence of lines.
pub open spec fn line_views(lines: Seq<DisassemblerLine>) -> Seq<LineView> {
    Seq::new(lines.len(), |k: int| lines[k]@)
}

impl View for DisassemblerContext {
    type V = ContextView;

    open spec fn view(&self) -> ContextView {
        ContextView {
            lines: line_views(self.lines@),
            branchtable: self.branchtable@,
            branchdepth: self.branchdepth,
            startloc: self.startloc,
            endloc: self.endloc,
        }
    }
}

impl Default for DisassemblerContext {
    fn default() -> (r: DisassemblerContext)
        ensures
            r@ == (ContextView {
                lines: Seq::empty(),
                branchtable: Seq::empty(),
                branchdepth: 0,
                startloc: 0,
                endloc: 0,
            }),
    {
        DisassemblerContext {
            lines: Vec::new(),
            branchtable: Vec::new(),
            branchdepth: 0,
            startloc: 0,
            endloc: 0,
        }
    }
}

// ---------------------------------------------------------------------
// Branch arrows
// ---------------------------------------------------------------------
/// The first line at or below `from` that stands at `target`.
pub open spec fn find_down(lines: Seq<LineView>, target: u32, from: int) -> Option<int>
    decreases lines.len() - from,
{
    if from < 0 || from >= lines.len() {
        None
    } else if lines[from].disassembled.location == target {
        Some(from)
    } else {
        find_down(lines, target, from + 1)
    }
}

/// The first line at or above `from` that stands at `target`.
pub open spec fn find_up(lines: Seq<LineView>, target: u32, from: int) -> Option<int>
    decreases from + 1,
{
    if from < 0 || from >= lines.len() {
        None
    } else if lines[from].disassembled.location == target {
        Some(from)
    } else {
        find_up(lines, target, from - 1)
    }
}

/// The line where the arrow of the branch on line `start` ends: the
/// nearest line at `target`, above `start` where the branch goes back and
/// below it where it goes on. `None` where the window holds no such line.
pub open spec fn arrow_end(lines: Seq<LineView>, start: int, target: u32) -> Option<int> {
    if start < 0 || start >= lines.len() {
        None
    } else if lines[start].disassembled.location > target {
        find_up(lines, target, start - 1)
    } else {
        find_down(lines, target, start + 1)
    }
}

/// The piece of the arrow from line `start` to line `end` that stands on
/// line `k`: the arrow starts at its upper end and ends at its lower one.
pub open spec fn arrow_piece(lines: Seq<LineView>, start: int, end: int, k: int) -> Flag {
    let location = lines[k].disassembled.location;
    if k == start {
        if start < end {
            Flag::BranchStart(location)
        } else {
            Flag::BranchEnd(location)
        }
    } else if k == end {
        if start < end {
            Flag::BranchEnd(location)
        } else {
            Flag::BranchStart(location)
        }
    } else {
        Flag::BranchCont(location)
    }
}

/// The lines with the arrow from line `start` to line `end` drawn: every
/// line between the two, both included, has one more flag.
pub open spec fn with_arrow(lines: Seq<LineView>, start: int, end: int) -> Seq<LineView> {
    Seq::new(
        lines.len(),
        |k: int|
            if (start <= k <= end) || (end <= k <= start) {
                LineView { flags: lines[k].flags.push(arrow_piece(lines, start, end, k)), ..lines[k] }
            } else {
                lines[k]
            },
    )
}

/// The lines with the arrow of the branch on line `start` to `target`
/// drawn, or as they are where the arrow would leave the window.
pub open spec fn arrow_to_target(lines: Seq<LineView>, start: int, target: u32) -> Seq<LineView> {
    match arrow_end(lines, start, target) {
        Some(end) => with_arrow(lines, start, end),
        None => lines,
    }
}

/// The lines with the arrow of the branch that `entry` names drawn, if
/// that line is there and still has a target.
pub open spec fn arrow_of_entry(lines: Seq<LineView>, entry: usize) -> Seq<LineView> {
    if entry < lines.len() {
        match lines[entry as int].disassembled.branchto {
            Some(target) => arrow_to_target(lines, entry as int, target),
            None => lines,
        }
    } else {
        lines
    }
}

/// The lines with the arrows of the entries `table[k..]` drawn, one after
/// the other.
pub open spec fn arrows_from(lines: Seq<LineView>, table: Seq<usize>, k: int) -> Seq<LineView>
    decreases table.len() - k,
{
    if k < 0 || k >= table.len() {
        lines
    } else {
        arrows_from(arrow_of_entry(lines, table[k]), table, k + 1)
    }
}

/// The largest number of flags on any of the first `upto` lines.
pub open spec fn widest(lines: Seq<LineView>, upto: int) -> nat
    decreases upto,
{
    if upto <= 0 {
        0
    } else {
        let rest = widest(lines, upto - 1);
        if lines[upto - 1].flags.len() > rest {
            lines[upto - 1].flags.len()
        } else {
            rest
        }
    }
}

/// The listing with every arrow drawn and its depth set.
pub open spec fn rendered(context: ContextView) -> ContextView {
    let lines = arrows_from(context.lines, context.branchtable, 0);
    ContextView { lines: lines, branchdepth: widest(lines, lines.len() as int) as usize, ..context }
}

fn search_down(context: &DisassemblerContext, target: u32, from: usize) -> (r: Option<usize>)
    ensures
        match r {
            Some(k) => find_down(context@.lines, target, from as int) == Some(k as int) && k
                < context.lines.len(),
            None => find_down(context@.lines, target, from as int) is None,
        },
{
    let n: usize = context.lines.len();
    let mut k: usize = from;
    while k < n
        invariant
            n == context.lines.len(),
            from <= k,
            find_down(context@.lines, target, from as int) == find_down(
                context@.lines,
                target,
                k as int,
            ),
        decreases n - k,
    {
        if context.lines[k].disassembled.location == target {
            return Some(k);
        }
        k = k + 1;
    }
    None
}

fn search_up(context: &DisassemblerContext, target: u32, below: usize) -> (r: Option<usize>)
    ensures
        match r {
            Some(k) => find_up(context@.lines, target, below as int - 1) == Some(k as int) && k
                < context.lines.len(),
            None => find_up(context@.lines, target, below as int - 1) is None,
        },
{
    let n: usize = context.lines.len();
    if below > n {
        return None;
    }
    let mut k: usize = below;
    while k > 0
        invariant
            n == context.lines.len(),
            k <= below <= n,
            find_up(context@.lines, target, below as int - 1) == find_up(
                context@.lines,
                target,
                k as int - 1,
            ),
        decreases k,
    {
        k = k - 1;
        if context.lines[k].disassembled.location == target {
            return Some(k);
        }
    }
    None
}

fn piece(start: usize, end: usize, k: usize, location: u32) -> (f: Flag)
    ensures
        f == if k == start {
            if start < end {
                Flag::BranchStart(location)
            } else {
                Flag::BranchEnd(location)
            }
        } else if k == end {
            if start < end {
                Flag::BranchEnd(location)
            } else {
                Flag::BranchStart(location)
            }
        } else {
            Flag::BranchCont(location)
        },
{
    if k == start {
        if start < end {
            Flag::BranchStart(location)
        } else {
            Flag::BranchEnd(location)
        }
    } else if k == end {
        if start < end {
            Flag::BranchEnd(location)
        } else {
            Flag::BranchStart(location)
        }
    } else {
        Flag::BranchCont(location)
    }
}

/// Draws the arrow of the branch on line `start` to the line at `target`.
/// Where the window holds no such line, or no line `start`, nothing is
/// drawn.
pub fn loop_to_target(context: DisassemblerContext, start: usize, target: u32) -> (r:
    DisassemblerContext)
    ensures
        r@ == (ContextView { lines: arrow_to_target(context@.lines, start as int, target), ..context@ }),
{
    let ghost given = context@;
    let ghost before = context@.lines;
    let mut drawn = context;
    let n: usize = drawn.lines.len();
    if start >= n {
        return drawn;
    }
    let end: usize = if drawn.lines[start].disassembled.location > target {
        match search_up(&drawn, target, start) {
            Some(k) => k,
            None => {
                return drawn;
            },
        }
    } else {
        if start + 1 > n {
            return drawn;
        }
        match search_down(&drawn, target, start + 1) {
            Some(k) => k,
            None => {
                return drawn;
            },
        }
    };
    let first: usize = if start < end { start } else { end };
    let last: usize = if start < end { end } else { start };
    let mut k: usize = first;
    while k <= last
        invariant
            n == drawn.lines.len(),
            n == before.len(),
            first <= k <= last + 1,
            last < n,
            first == if start < end { start } else { end },
            last == if start < end { end } else { start },
            drawn@.branchtable == given.branchtable,
            drawn@.branchdepth == given.branchdepth,
            drawn@.startloc == given.startloc,
            drawn@.endloc == given.endloc,
            forall|j: int|
                0 <= j < n ==> (#[trigger] drawn@.lines[j]) == if first <= j < k {
                    with_arrow(before, start as int, end as int)[j]
                } else {
                    before[j]
                },
        decreases last + 1 - k,
    {
        let ghost previous = drawn.lines@;
        let ghost shown = drawn@.lines;
        assert(shown[k as int] == before[k as int]);
        assert(shown[k as int] == previous[k as int]@);
        assert(forall|j: int| 0 <= j < n ==> #[trigger] shown[j] == previous[j]@);
        let location: u32 = drawn.lines[k].disassembled.location;
        let flag: Flag = piece(start, end, k, location);
        drawn.lines[k].flags.push(flag);
        proof {
            assert(previous[k as int]@ == before[k as int]);
            assert(flag == arrow_piece(before, start as int, end as int, k as int));
            assert(drawn.lines@[k as int]@ =~= with_arrow(before, start as int, end as int)[k as int]);
            assert forall|j: int| 0 <= j < n implies (#[trigger] drawn@.lines[j]) == if first <= j
                < k + 1 {
                with_arrow(before, start as int, end as int)[j]
            } else {
                before[j]
            } by {
                if j != k {
                    assert(drawn.lines@[j] == previous[j]);
                    assert(shown[j] == previous[j]@);
                }
            }
        }
        k = k + 1;
    }
    assert(drawn@.lines =~= with_arrow(before, start as int, end as int));
    drawn
}

/// Draws the arrows of all branches of the listing and sets its depth. A
/// branch whose target is no line of the window gets no arrow.
pub fn render_wrapped_instructions(context: DisassemblerContext) -> (r: DisassemblerContext)
    ensures
        r@ == rendered(context@),
{
    let ghost given = context@;
    let mut drawn = context;
    let count: usize = drawn.branchtable.len();
    let mut k: usize = 0;
    while k < count
        invariant
            count == drawn.branchtable.len(),
            k <= count,
            drawn@.branchtable == given.branchtable,
            drawn@.branchdepth == given.branchdepth,
            drawn@.startloc == given.startloc,
            drawn@.endloc == given.endloc,
            arrows_from(given.lines, given.branchtable, 0) == arrows_from(
                drawn@.lines,
                given.branchtable,
                k as int,
            ),
        decreases count - k,
    {
        let entry: usize = drawn.branchtable[k];
        if entry < drawn.lines.len() {
            match drawn.lines[entry].disassembled.branchto {
                Some(target) => {
                    drawn = loop_to_target(drawn, entry, target);
                },
                None => {},
            }
        }
        k = k + 1;
    }
    let n: usize = drawn.lines.len();
    let mut depth: usize = 0;
    let mut j: usize = 0;
    while j < n
        invariant
            n == drawn.lines.len(),
            j <= n,
            depth == widest(drawn@.lines, j as int),
        decreases n - j,
    {
        let flags: usize = drawn.lines[j].flags.len();
        if flags > depth {
            depth = flags;
        }
        j = j + 1;
    }
    drawn.branchdepth = depth;
    drawn
}

} // verus!
