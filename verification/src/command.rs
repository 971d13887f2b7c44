//! The command line of the debugger: a word and, for most words, a
//! number.
//!
//! `x 1F` sets the X register, `b 808000` names a breakpoint, `p 00110000`
//! loads the status byte, and `nmi` raises the non-maskable interrupt.
//! Numbers are hexadecimal, but for `p`, whose number is binary. Words may
//! be in either case. Anything else does nothing.

use vstd::prelude::*;
use vstd::string::StrSliceExecFns;
use crate::console::{Console, Machine};
use crate::cpu::CPU;

verus! {

/// What the debugger is to do after a command.
#[derive(Clone, Copy, Debug, PartialEq, Eq, Structural)]
pub enum DebuggerCommand {
    /// Stop when the program counter reaches this address.
    Breakpoint(u32),
    /// Raise the non-maskable interrupt.
    NMI,
    /// Nothing more.
    Default,
}

/// What a command line asks for.
#[derive(Clone, Copy, Debug, PartialEq, Eq, Structural)]
pub enum Request {
    SetX(u16),
    SetP(u8),
    Breakpoint(u32),
    NMI,
    Nothing,
}

/// Why a command line was not understood.
#[derive(Clone, Copy, Debug, PartialEq, Eq, Structural)]
pub enum CommandFault {
    /// The command needs a number and the line holds none.
    MissingNumber,
    /// The number holds a character that is no digit of its base.
    BadDigit,
    /// The number does not fit the register.
    TooLarge,
}

/// The characters that separate words.
pub open spec fn is_blank(c: char) -> bool {
    c == ' ' || c == '\t' || c == '\n' || c == '\r'
}

/// The first position at or behind `i` that holds no blank.
pub open spec fn skip_blanks(s: Seq<char>, i: int) -> int
    decreases s.len() - i,
{
    if 0 <= i < s.len() && is_blank(s[i]) {
        skip_blanks(s, i + 1)
    } else {
        i
    }
}

/// The first position at or behind `i` that holds a blank, or the end.
pub open spec fn word_end(s: Seq<char>, i: int) -> int
    decreases s.len() - i,
{
    if 0 <= i < s.len() && !is_blank(s[i]) {
        word_end(s, i + 1)
    } else {
        i
    }
}

/// The first word of a line.
pub open spec fn first_word(s: Seq<char>) -> Seq<char> {
    let from = skip_blanks(s, 0);
    s.subrange(from, word_end(s, from))
}

/// The second word of a line.
pub open spec fn second_word(s: Seq<char>) -> Seq<char> {
    let from = skip_blanks(s, word_end(s, skip_blanks(s, 0)));
    s.subrange(from, word_end(s, from))
}

/// The value of a digit in a base of 2 or 16, in either case.
pub open spec fn digit_value(c: char, base: int) -> Option<int> {
    if c == '0' {
        Some(0)
    } else if c == '1' {
        Some(1)
    } else if base != 16 {
        None
    } else if c == '2' {
        Some(2)
    } else if c == '3' {
        Some(3)
    } else if c == '4' {
        Some(4)
    } else if c == '5' {
        Some(5)
    } else if c == '6' {
        Some(6)
    } else if c == '7' {
        Some(7)
    } else if c == '8' {
        Some(8)
    } else if c == '9' {
        Some(9)
    } else if c == 'a' || c == 'A' {
        Some(10)
    } else if c == 'b' || c == 'B' {
        Some(11)
    } else if c == 'c' || c == 'C' {
        Some(12)
    } else if c == 'd' || c == 'D' {
        Some(13)
    } else if c == 'e' || c == 'E' {
        Some(14)
    } else if c == 'f' || c == 'F' {
        Some(15)
    } else {
        None
    }
}

/// Whether the first `upto` characters are all digits of the base.
pub open spec fn all_digits(word: Seq<char>, base: int, upto: int) -> bool
    decreases upto,
{
    if upto <= 0 {
        true
    } else {
        all_digits(word, base, upto - 1) && digit_value(word[upto - 1], base) is Some
    }
}

/// The number that the first `upto` digits spell in the base.
pub open spec fn digits_value(word: Seq<char>, base: int, upto: int) -> int
    decreases upto,
{
    if upto <= 0 {
        0
    } else {
        digits_value(word, base, upto - 1) * base + match digit_value(word[upto - 1], base) {
            Some(d) => d,
            None => 0,
        }
    }
}

/// The number that a word spells in a base of 2 or 16, if it is at most
/// `limit`.
pub open spec fn number(word: Seq<char>, base: int, limit: int) -> Result<int, CommandFault> {
    if word.len() == 0 {
        Err(CommandFault::MissingNumber)
    } else if !all_digits(word, base, word.len() as int) {
        Err(CommandFault::BadDigit)
    } else if digits_value(word, base, word.len() as int) > limit {
        Err(CommandFault::TooLarge)
    } else {
        Ok(digits_value(word, base, word.len() as int))
    }
}

/// A letter of the command words in lower case; any other character as
/// it is.
pub open spec fn folded(c: char) -> char {
    if c == 'X' {
        'x'
    } else if c == 'B' {
        'b'
    } else if c == 'P' {
        'p'
    } else if c == 'N' {
        'n'
    } else if c == 'M' {
        'm'
    } else if c == 'I' {
        'i'
    } else {
        c
    }
}

/// Whether a word is `letters` in either case.
pub open spec fn spells(word: Seq<char>, letters: Seq<char>) -> bool {
    &&& word.len() == letters.len()
    &&& forall|k: int| 0 <= k < word.len() ==> folded(#[trigger] word[k]) == letters[k]
}

/// What a command line asks for.
pub open spec fn parse(line: Seq<char>) -> Result<Request, CommandFault> {
    let word = first_word(line);
    let argument = second_word(line);
    if spells(word, seq!['x']) {
        match number(argument, 16, 0xFFFF) {
            Ok(v) => Ok(Request::SetX(v as u16)),
            Err(e) => Err(e),
        }
    } else if spells(word, seq!['b']) {
        match number(argument, 16, 0xFFFF_FFFF) {
            Ok(v) => Ok(Request::Breakpoint(v as u32)),
            Err(e) => Err(e),
        }
    } else if spells(word, seq!['p']) {
        match number(argument, 2, 0xFF) {
            Ok(v) => Ok(Request::SetP(v as u8)),
            Err(e) => Err(e),
        }
    } else if spells(word, seq!['n', 'm', 'i']) {
        Ok(Request::NMI)
    } else {
        Ok(Request::Nothing)
    }
}

/// A number that has outgrown a limit stays above it, whatever digits
/// follow.
pub proof fn lemma_digits_grow(word: Seq<char>, base: int, from: int, upto: int)
    requires
        base >= 2,
        0 <= from <= upto,
    ensures
        digits_value(word, base, from) <= digits_value(word, base, upto),
        digits_value(word, base, from) >= 0,
    decreases upto,
{
    if from < upto {
        lemma_digits_grow(word, base, from, upto - 1);
        assert(digits_value(word, base, upto - 1) * base >= digits_value(word, base, upto - 1))
            by (nonlinear_arith)
            requires
                digits_value(word, base, upto - 1) >= 0,
                base >= 2,
        ;
    } else {
        lemma_digits_nonnegative(word, base, from);
    }
}

/// A number is not negative.
pub proof fn lemma_digits_nonnegative(word: Seq<char>, base: int, upto: int)
    requires
        base >= 2,
    ensures
        digits_value(word, base, upto) >= 0,
    decreases upto,
{
    if upto > 0 {
        lemma_digits_nonnegative(word, base, upto - 1);
        assert(digits_value(word, base, upto - 1) * base >= 0) by (nonlinear_arith)
            requires
                digits_value(word, base, upto - 1) >= 0,
                base >= 2,
        ;
    }
}

/// A word that holds a character that is no digit is not all digits.
pub proof fn lemma_not_all_digits(word: Seq<char>, base: int, at: int, upto: int)
    requires
        0 <= at < upto,
        digit_value(word[at], base) is None,
    ensures
        !all_digits(word, base, upto),
    decreases upto,
{
    if at < upto - 1 {
        lemma_not_all_digits(word, base, at, upto - 1);
    }
}

fn blank(c: char) -> (r: bool)
    ensures
        r == is_blank(c),
{
    c == ' ' || c == '\t' || c == '\n' || c == '\r'
}

fn digit_of(c: char, base: u64) -> (r: Option<u64>)
    requires
        base == 2 || base == 16,
    ensures
        match digit_value(c, base as int) {
            Some(d) => r == Some(d as u64) && d < 16 && d < base,
            None => r is None,
        },
{
    let d: u64 = match c {
        '0' => 0,
        '1' => 1,
        '2' => 2,
        '3' => 3,
        '4' => 4,
        '5' => 5,
        '6' => 6,
        '7' => 7,
        '8' => 8,
        '9' => 9,
        'a' | 'A' => 10,
        'b' | 'B' => 11,
        'c' | 'C' => 12,
        'd' | 'D' => 13,
        'e' | 'E' => 14,
        'f' | 'F' => 15,
        _ => {
            return None;
        },
    };
    if d < base {
        Some(d)
    } else {
        None
    }
}

fn chars_of(line: &str) -> (r: Vec<char>)
    ensures
        r@ == line@,
{
    let n: usize = line.unicode_len();
    let mut chars: Vec<char> = Vec::new();
    let mut k: usize = 0;
    while k < n
        invariant
            n == line@.len(),
            k <= n,
            chars@ == line@.subrange(0, k as int),
        decreases n - k,
    {
        chars.push(line.get_char(k));
        k = k + 1;
        assert(chars@ =~= line@.subrange(0, k as int));
    }
    assert(line@.subrange(0, n as int) =~= line@);
    chars
}

fn skip(line: &Vec<char>, from: usize) -> (r: usize)
    requires
        from <= line.len(),
    ensures
        r == skip_blanks(line@, from as int),
        from <= r <= line.len(),
{
    let mut k: usize = from;
    while k < line.len() && blank(line[k])
        invariant
            from <= k <= line.len(),
            skip_blanks(line@, from as int) == skip_blanks(line@, k as int),
        decreases line.len() - k,
    {
        k = k + 1;
    }
    k
}

fn end_of_word(line: &Vec<char>, from: usize) -> (r: usize)
    requires
        from <= line.len(),
    ensures
        r == word_end(line@, from as int),
        from <= r <= line.len(),
{
    let mut k: usize = from;
    while k < line.len() && !blank(line[k])
        invariant
            from <= k <= line.len(),
            word_end(line@, from as int) == word_end(line@, k as int),
        decreases line.len() - k,
    {
        k = k + 1;
    }
    k
}

fn read_number(line: &Vec<char>, from: usize, to: usize, base: u64, limit: u64) -> (r: Result<
    u64,
    CommandFault,
>)
    requires
        from <= to <= line.len(),
        base == 2 || base == 16,
        limit <= 0xFFFF_FFFF,
    ensures
        match number(line@.subrange(from as int, to as int), base as int, limit as int) {
            Ok(v) => r == Ok::<u64, CommandFault>(v as u64) && 0 <= v <= limit,
            Err(e) => r == Err::<u64, CommandFault>(e),
        },
{
    let ghost word = line@.subrange(from as int, to as int);
    if from == to {
        return Err(CommandFault::MissingNumber);
    }
    let n: usize = to - from;
    // First the digits, so that a bad digit is told before a size.
    let mut k: usize = 0;
    while k < n
        invariant
            from <= to <= line.len(),
            n == to - from,
            k <= n,
            base == 2 || base == 16,
            word == line@.subrange(from as int, to as int),
            all_digits(word, base as int, k as int),
        decreases n - k,
    {
        match digit_of(line[from + k], base) {
            Some(d) => {},
            None => {
                proof {
                    lemma_not_all_digits(word, base as int, k as int, n as int);
                }
                return Err(CommandFault::BadDigit);
            },
        }
        k = k + 1;
    }
    let mut value: u64 = 0;
    let mut j: usize = 0;
    while j < n
        invariant
            from <= to <= line.len(),
            n == to - from,
            j <= n,
            base == 2 || base == 16,
            limit <= 0xFFFF_FFFF,
            word == line@.subrange(from as int, to as int),
            all_digits(word, base as int, n as int),
            value == digits_value(word, base as int, j as int),
            value <= limit,
        decreases n - j,
    {
        let d: u64 = match digit_of(line[from + j], base) {
            Some(d) => d,
            None => 0,
        };
        let next: u64 = value * base + d;
        assert(next == digits_value(word, base as int, j + 1));
        if next > limit {
            proof {
                lemma_digits_grow(word, base as int, j + 1, n as int);
            }
            return Err(CommandFault::TooLarge);
        }
        value = next;
        j = j + 1;
    }
    Ok(value)
}

fn fold(c: char) -> (r: char)
    ensures
        r == folded(c),
{
    match c {
        'X' => 'x',
        'B' => 'b',
        'P' => 'p',
        'N' => 'n',
        'M' => 'm',
        'I' => 'i',
        _ => c,
    }
}

fn word_spells(line: &Vec<char>, from: usize, to: usize, letters: &Vec<char>) -> (r: bool)
    requires
        from <= to <= line.len(),
    ensures
        r == spells(line@.subrange(from as int, to as int), letters@),
{
    let ghost word = line@.subrange(from as int, to as int);
    if to - from != letters.len() {
        return false;
    }
    let n: usize = letters.len();
    let mut k: usize = 0;
    while k < n
        invariant
            from <= to <= line.len(),
            n == letters.len(),
            n == to - from,
            k <= n,
            word == line@.subrange(from as int, to as int),
            forall|j: int| 0 <= j < k ==> folded(#[trigger] word[j]) == letters[j],
        decreases n - k,
    {
        assert(line[from + k] == word[k as int]);
        if fold(line[from + k]) != letters[k] {
            return false;
        }
        k = k + 1;
    }
    true
}

/// Reads a command line.
pub fn parse_command(command: &str) -> (r: Result<Request, CommandFault>)
    ensures
        r == parse(command@),
{
    let line: Vec<char> = chars_of(command);
    let from: usize = skip(&line, 0);
    let to: usize = end_of_word(&line, from);
    let second: usize = skip(&line, to);
    let last: usize = end_of_word(&line, second);
    let x: Vec<char> = vec!['x'];
    let b: Vec<char> = vec!['b'];
    let p: Vec<char> = vec!['p'];
    let nmi: Vec<char> = vec!['n', 'm', 'i'];
    assert(x@ =~= seq!['x'] && b@ =~= seq!['b'] && p@ =~= seq!['p'] && nmi@ =~= seq!['n', 'm', 'i']);
    if word_spells(&line, from, to, &x) {
        match read_number(&line, second, last, 16, 0xFFFF) {
            Ok(v) => Ok(Request::SetX(v as u16)),
            Err(e) => Err(e),
        }
    } else if word_spells(&line, from, to, &b) {
        match read_number(&line, second, last, 16, 0xFFFF_FFFF) {
            Ok(v) => Ok(Request::Breakpoint(v as u32)),
            Err(e) => Err(e),
        }
    } else if word_spells(&line, from, to, &p) {
        match read_number(&line, second, last, 2, 0xFF) {
            Ok(v) => Ok(Request::SetP(v as u8)),
            Err(e) => Err(e),
        }
    } else if word_spells(&line, from, to, &nmi) {
        Ok(Request::NMI)
    } else {
        Ok(Request::Nothing)
    }
}

/// What a request makes of the processor: `x` sets the X register as it
/// is given, `p` loads the status byte; the others change nothing here.
pub open spec fn apply(cpu: CPU, request: Request) -> CPU {
    match request {
        Request::SetX(v) => CPU { X: v, ..cpu },
        Request::SetP(p) => CPU { P: cpu.P.with_byte(p), ..cpu },
        _ => cpu,
    }
}

/// What is left for the debugger to do after a request.
pub open spec fn remainder(request: Request) -> DebuggerCommand {
    match request {
        Request::Breakpoint(addr) => DebuggerCommand::Breakpoint(addr),
        Request::NMI => DebuggerCommand::NMI,
        _ => DebuggerCommand::Default,
    }
}

/// Runs a command line of the debugger on the console, and says what is
/// left for the debugger to do. A line that is not understood changes
/// nothing.
pub fn execute_command(command: &str, snes: &mut Console) -> (r: Result<
    DebuggerCommand,
    CommandFault,
>)
    ensures
        match parse(command@) {
            Ok(request) => r == Ok::<DebuggerCommand, CommandFault>(remainder(request))
                && final(snes)@ == (Machine { cpu: apply(old(snes)@.cpu, request), ..old(snes)@ }),
            Err(e) => r == Err::<DebuggerCommand, CommandFault>(e) && final(snes)@ == old(snes)@,
        },
{
    match parse_command(command) {
        Ok(request) => {
            match request {
                Request::SetX(v) => {
                    snes.cpu.X = v;
                    Ok(DebuggerCommand::Default)
                },
                Request::SetP(p) => {
                    snes.cpu.set_p(p);
                    Ok(DebuggerCommand::Default)
                },
                Request::Breakpoint(addr) => Ok(DebuggerCommand::Breakpoint(addr)),
                Request::NMI => Ok(DebuggerCommand::NMI),
                Request::Nothing => Ok(DebuggerCommand::Default),
            }
        },
        Err(e) => Err(e),
    }
}

} // verus!
