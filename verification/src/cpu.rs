//! The processor: one memory, one register file, one set of flags, and the
//! fetch-decode-execute cycle over them.

use crate::error::ExecError;
use crate::hex::{hex_byte_upper, hex_upper};
use crate::instruction::Instruction;
use crate::listing::{dump_line, dump_text, dump_width, hex_cells};
use crate::memory::{ranges_of, Memory, SectionType};
use crate::registers::{Flags, Registers};
use vstd::prelude::*;
use vstd::string::StringExecFns;

verus! {

/// Mnemonic of the move operation.
pub const MOV: u8 = 0x1;

/// What executing `instruction` with the registers at `regs` comes to: the
/// registers after it, or the error that stops it.
pub open spec fn execute_outcome(instruction: Instruction, regs: Registers) -> Result<
    Registers,
    ExecError,
> {
    if instruction.mnemonic == MOV {
        instruction.mov_outcome(regs)
    } else {
        Err(ExecError::InvalidMnemonic { mnemonic: instruction.mnemonic, address: regs.rip as i64 })
    }
}

/// The first slot that is free among those at `from`, `from + 8`, and so on
/// below `end`. A slot is free when its first byte is zero, whatever the
/// other seven hold.
pub open spec fn free_slot(mem: Seq<u8>, from: int, end: int) -> Option<int>
    decreases
        if from < end {
            end - from
        } else {
            0
        },
{
    if from >= end {
        None
    } else if mem[from] == 0 {
        Some(from)
    } else {
        free_slot(mem, from + 8, end)
    }
}

/// Whether the search for a free slot stays inside the memory: each slot
/// that is looked at starts inside it, and the free slot, if there is one,
/// lies wholly inside it.
pub open spec fn scan_in_bounds(mem: Seq<u8>, from: int, end: int) -> bool
    decreases
        if from < end {
            end - from
        } else {
            0
        },
{
    from >= end || {
        &&& 0 <= from < mem.len()
        &&& if mem[from] == 0 {
            from + 8 <= mem.len()
        } else {
            scan_in_bounds(mem, from + 8, end)
        }
    }
}

/// The memory with the eight bytes at `at` replaced by `bytes`.
pub open spec fn with_slot(mem: Seq<u8>, at: int, bytes: Seq<u8>) -> Seq<u8> {
    mem.subrange(0, at) + bytes + mem.subrange(at + 8, mem.len() as int)
}

/// The number of instruction slots that start in a region: one for each
/// eighth address from `start` that lies below `end`.
pub open spec fn steps_in(start: int, end: int) -> nat {
    if end > start {
        ((end - start + 7) / 8) as nat
    } else {
        0
    }
}

/// Counts the instruction slots that start in a region.
fn slot_count(start: usize, end: usize) -> (slots: usize)
    ensures
        slots == steps_in(start as int, end as int),
{
    if end > start {
        (end - start - 1) / 8 + 1
    } else {
        0
    }
}

/// The eight bytes of memory that start at `at`.
pub open spec fn fetched(mem: Seq<u8>, at: int) -> Seq<u8> {
    mem.subrange(at, at + 8)
}

/// Where at most `steps` rounds of fetch, decode and execute lead from the
/// registers `regs`: the registers at the end, and whether the run came
/// through.
///
/// Each round fetches at the program counter, decodes, executes, and moves
/// the program counter on by eight. The first error ends the run and leaves
/// the registers as the last instruction that succeeded left them.
pub open spec fn run_outcome(mem: Seq<u8>, regs: Registers, steps: nat) -> (
    Registers,
    Result<(), ExecError>,
)
    decreases steps,
{
    if steps == 0 {
        (regs, Ok(()))
    } else {
        match Instruction::decoded(fetched(mem, regs.rip as int)) {
            None => (regs, Err(ExecError::Decode)),
            Some(instruction) => match execute_outcome(instruction, regs) {
                Err(e) => (regs, Err(e)),
                Ok(next) => run_outcome(
                    mem,
                    next.with_rip((next.rip + 8) as i32),
                    (steps - 1) as nat,
                ),
            },
        }
    }
}

/// Whether a run of at most `steps` rounds from `regs` stays in bounds: each
/// fetch that it comes to lies inside the memory, and each program counter
/// that it moves on still fits its register.
pub open spec fn run_in_bounds(mem: Seq<u8>, regs: Registers, steps: nat) -> bool
    decreases steps,
{
    steps == 0 || {
        &&& 0 <= regs.rip
        &&& regs.rip + 8 <= mem.len()
        &&& match Instruction::decoded(fetched(mem, regs.rip as int)) {
            None => true,
            Some(instruction) => match execute_outcome(instruction, regs) {
                Err(_) => true,
                Ok(next) => {
                    &&& next.rip + 8 <= i32::MAX
                    &&& run_in_bounds(mem, next.with_rip((next.rip + 8) as i32), (steps - 1) as nat)
                },
            },
        }
    }
}

/// An instruction with any mnemonic but `MOV` fails, whatever its other
/// fields hold, and the error carries the mnemonic and the program counter.
pub proof fn lemma_unknown_mnemonic(instruction: Instruction, regs: Registers)
    requires
        instruction.mnemonic != MOV,
    ensures
        execute_outcome(instruction, regs) == Err::<Registers, ExecError>(
            ExecError::InvalidMnemonic {
                mnemonic: instruction.mnemonic,
                address: regs.rip as i64,
            },
        ),
{
}

/// The slot that the search finds is the first free one: it starts a whole
/// number of slots after `from` and below `end`, its first byte is zero, and
/// every slot before it is in use. Where the search finds none, every slot
/// is in use.
pub proof fn lemma_free_slot_is_first(mem: Seq<u8>, from: int, end: int)
    ensures
        match free_slot(mem, from, end) {
            Some(at) => {
                &&& from <= at < end
                &&& (at - from) % 8 == 0
                &&& mem[at] == 0
                &&& forall|b: int| from <= b < at && (b - from) % 8 == 0 ==> #[trigger] mem[b] != 0
            },
            None => forall|b: int|
                from <= b < end && (b - from) % 8 == 0 ==> #[trigger] mem[b] != 0,
        },
    decreases
        if from < end {
            end - from
        } else {
            0
        },
{
    if from < end && mem[from] != 0 {
        lemma_free_slot_is_first(mem, from + 8, end);
    }
}

/// The search for a free slot stays inside a memory that reaches at least
/// seven bytes past the end of the region searched.
pub proof fn lemma_scan_in_bounds(mem: Seq<u8>, from: int, end: int)
    requires
        0 <= from,
        end + 7 <= mem.len(),
    ensures
        scan_in_bounds(mem, from, end),
    decreases
        if from < end {
            end - from
        } else {
            0
        },
{
    if from < end && mem[from] != 0 {
        lemma_scan_in_bounds(mem, from + 8, end);
    }
}

/// A run stays in bounds when all its rounds, taken from the program
/// counter on, lie inside the memory and below the largest program counter.
pub proof fn lemma_run_in_bounds(mem: Seq<u8>, regs: Registers, steps: nat)
    requires
        0 <= regs.rip,
        regs.rip + 8 * steps <= mem.len(),
        regs.rip + 8 * steps <= i32::MAX,
    ensures
        run_in_bounds(mem, regs, steps),
    decreases steps,
{
    if steps > 0 {
        match Instruction::decoded(fetched(mem, regs.rip as int)) {
            None => {},
            Some(instruction) => match execute_outcome(instruction, regs) {
                Err(_) => {},
                Ok(next) => {
                    lemma_run_in_bounds(
                        mem,
                        next.with_rip((next.rip + 8) as i32),
                        (steps - 1) as nat,
                    );
                },
            },
        }
    }
}

/// Whether a run stays in bounds depends on the program counter alone, not
/// on what the general-purpose registers hold.
pub proof fn lemma_run_in_bounds_by_rip(mem: Seq<u8>, a: Registers, b: Registers, steps: nat)
    requires
        a.rip == b.rip,
    ensures
        run_in_bounds(mem, a, steps) == run_in_bounds(mem, b, steps),
    decreases steps,
{
    if steps > 0 {
        match Instruction::decoded(fetched(mem, a.rip as int)) {
            None => {},
            Some(instruction) => match (
                execute_outcome(instruction, a),
                execute_outcome(instruction, b),
            ) {
                (Ok(next_a), Ok(next_b)) => {
                    lemma_run_in_bounds_by_rip(
                        mem,
                        next_a.with_rip((next_a.rip + 8) as i32),
                        next_b.with_rip((next_b.rip + 8) as i32),
                        (steps - 1) as nat,
                    );
                },
                _ => {},
            },
        }
    }
}

/// A run that stays in bounds never fails to decode: each fetch yields
/// eight bytes, and any eight bytes are an instruction.
pub proof fn lemma_run_always_decodes(mem: Seq<u8>, regs: Registers, steps: nat)
    requires
        run_in_bounds(mem, regs, steps),
    ensures
        run_outcome(mem, regs, steps).1 != Err::<(), ExecError>(ExecError::Decode),
    decreases steps,
{
    if steps > 0 {
        match Instruction::decoded(fetched(mem, regs.rip as int)) {
            None => {},
            Some(instruction) => match execute_outcome(instruction, regs) {
                Err(_) => {},
                Ok(next) => {
                    lemma_run_always_decodes(
                        mem,
                        next.with_rip((next.rip + 8) as i32),
                        (steps - 1) as nat,
                    );
                },
            },
        }
    }
}

/// A virtual processor.
pub struct CPU {
    pub ram: Memory,
    pub registers: Registers,
    pub flags: Flags,
}

impl CPU {
    /// A processor over a fresh memory, with all registers at zero and no
    /// flag set.
    pub fn new(size: Option<usize>, regions: Option<Vec<(SectionType, usize, usize)>>) -> (cpu:
        Self)
        ensures
            cpu.ram.memory@ == Seq::new(Memory::capped(size) as nat, |i: int| 0u8),
            cpu.ram.regions@ == match regions {
                Some(declared) => declared@,
                None => seq![(SectionType::Data, 0usize, Memory::capped(size))],
            },
            cpu.registers == Registers::zeroed(),
            cpu.flags == Flags::cleared(),
    {
        CPU {
            ram: Memory::new(size, regions),
            registers: Registers::default(),
            flags: Flags::default(),
        }
    }

    /// The bounds of the first code region.
    pub open spec fn code_range(self) -> (usize, usize)
        recommends
            self.has_code(),
    {
        ranges_of(self.ram.regions@, SectionType::Code)[0]
    }

    /// Whether a code region was declared.
    pub open spec fn has_code(self) -> bool {
        ranges_of(self.ram.regions@, SectionType::Code).len() > 0
    }

    /// The number of rounds that a run makes: one for each instruction slot
    /// that starts in the first code region.
    pub open spec fn code_steps(self) -> nat
        recommends
            self.has_code(),
    {
        steps_in(self.code_range().0 as int, self.code_range().1 as int)
    }

    /// Whether an instruction can be appended: there is a code region, and
    /// the search for a free slot in the first one stays inside the memory.
    pub open spec fn append_in_bounds(self) -> bool {
        &&& self.has_code()
        &&& scan_in_bounds(
            self.ram.memory@,
            self.code_range().0 as int,
            self.code_range().1 as int,
        )
    }

    /// Whether the program can be run: there is a code region, and the run
    /// over the first one stays in bounds.
    pub open spec fn run_stays_in_bounds(self) -> bool {
        &&& self.has_code()
        &&& run_in_bounds(self.ram.memory@, self.registers, self.code_steps())
    }

    /// Tells whether `append` may be called.
    pub fn can_append(&self) -> (ok: bool)
        ensures
            ok == self.append_in_bounds(),
    {
        let range = self.ram.get_range(SectionType::Code);
        if range.len() == 0 {
            return false;
        }
        let start: usize = range[0].0;
        let end: usize = range[0].1;
        let slots: usize = slot_count(start, end);
        let ghost mem = self.ram.memory@;
        let mut k: usize = 0;
        while k < slots
            invariant
                k <= slots,
                slots == steps_in(start as int, end as int),
                self.has_code(),
                start == self.code_range().0,
                end == self.code_range().1,
                mem == self.ram.memory@,
                scan_in_bounds(mem, start + 8 * k, end as int) == scan_in_bounds(
                    mem,
                    start as int,
                    end as int,
                ),
            decreases slots - k,
        {
            let at: usize = start + 8 * k;
            if at >= self.ram.memory.len() {
                return false;
            }
            if self.ram.memory[at] == 0 {
                return self.ram.memory.len() - at >= 8;
            }
            k = k + 1;
        }
        true
    }

    /// Tells whether `run` may be called.
    pub fn can_run(&self) -> (ok: bool)
        ensures
            ok == self.run_stays_in_bounds(),
    {
        let range = self.ram.get_range(SectionType::Code);
        if range.len() == 0 {
            return false;
        }
        let start: usize = range[0].0;
        let end: usize = range[0].1;
        let slots: usize = slot_count(start, end);
        let ghost mem = self.ram.memory@;
        let mut probe = CPU::default();
        probe.registers.rip = self.registers.rip;
        proof {
            lemma_run_in_bounds_by_rip(mem, probe.registers, self.registers, slots as nat);
        }
        let mut k: usize = 0;
        while k < slots
            invariant
                k <= slots,
                self.has_code(),
                slots == self.code_steps(),
                mem == self.ram.memory@,
                run_in_bounds(mem, probe.registers, (slots - k) as nat) == run_in_bounds(
                    mem,
                    self.registers,
                    slots as nat,
                ),
            decreases slots - k,
        {
            let rip: i32 = probe.registers.rip;
            if rip < 0 || self.ram.memory.len() < 8 || rip as usize > self.ram.memory.len() - 8 {
                return false;
            }
            match CPU::decode(self.fetch(rip)) {
                None => {
                    return true;
                },
                Some(instruction) => {
                    if probe.execute(instruction).is_err() {
                        return true;
                    }
                    if rip > i32::MAX - 8 {
                        return false;
                    }
                    probe.registers.rip = rip + 8;
                },
            }
            k = k + 1;
        }
        true
    }

    /// Writes `instruction` into the first free slot of the first code
    /// region. Where that region has no free slot, nothing is written and
    /// nothing tells the caller so.
    ///
    /// Later code regions are never used. The slots start at the region's
    /// start, and the last may reach past its end.
    pub fn append(&mut self, instruction: Instruction)
        requires
            old(self).append_in_bounds(),
        ensures
            final(self).ram.regions == old(self).ram.regions,
            final(self).registers == old(self).registers,
            final(self).flags == old(self).flags,
            final(self).ram.memory@ == match free_slot(
                old(self).ram.memory@,
                old(self).code_range().0 as int,
                old(self).code_range().1 as int,
            ) {
                Some(at) => with_slot(old(self).ram.memory@, at, instruction.encoded()),
                None => old(self).ram.memory@,
            },
    {
        let range = self.ram.get_range(SectionType::Code);
        let start: usize = range[0].0;
        let end: usize = range[0].1;
        let slots: usize = slot_count(start, end);
        let encoded = instruction.as_bytes();
        let ghost mem = self.ram.memory@;
        let mut k: usize = 0;
        while k < slots
            invariant
                k <= slots,
                slots == steps_in(start as int, end as int),
                start == old(self).code_range().0,
                end == old(self).code_range().1,
                *self == *old(self),
                mem == self.ram.memory@,
                encoded@ == instruction.encoded(),
                free_slot(mem, start + 8 * k, end as int) == free_slot(mem, start as int, end as int),
                scan_in_bounds(mem, start + 8 * k, end as int),
            decreases slots - k,
        {
            let at: usize = start + 8 * k;
            if self.ram.memory[at] == 0 {
                let mut i: usize = 0;
                while i < 8
                    invariant
                        i <= 8,
                        at + 8 <= self.ram.memory.len(),
                        mem.len() == self.ram.memory.len(),
                        encoded@.len() == 8,
                        self.ram.regions == old(self).ram.regions,
                        self.registers == old(self).registers,
                        self.flags == old(self).flags,
                        self.ram.memory@ == mem.subrange(0, at as int) + encoded@.subrange(
                            0,
                            i as int,
                        ) + mem.subrange(at + i, mem.len() as int),
                    decreases 8 - i,
                {
                    self.ram.memory.set(at + i, encoded[i]);
                    i = i + 1;
                }
                assert(self.ram.memory@ =~= with_slot(mem, at as int, encoded@));
                return ;
            }
            k = k + 1;
        }
    }

    /// The eight bytes of memory that start at `start`.
    pub fn fetch(&self, start: i32) -> (bytes: Vec<u8>)
        requires
            0 <= start,
            start + 8 <= self.ram.memory@.len(),
        ensures
            bytes@ == fetched(self.ram.memory@, start as int),
    {
        let base: usize = start as usize;
        let mut bytes: Vec<u8> = Vec::new();
        let mut i: usize = 0;
        while i < 8
            invariant
                i <= 8,
                base == start,
                base + 8 <= self.ram.memory@.len(),
                bytes@ == self.ram.memory@.subrange(base as int, base + i),
            decreases 8 - i,
        {
            bytes.push(self.ram.memory[base + i]);
            i = i + 1;
        }
        bytes
    }

    /// Decodes the eight bytes of one instruction.
    pub fn decode(bytes: Vec<u8>) -> (r: Option<Instruction>)
        ensures
            r == Instruction::decoded(bytes@),
            r is Some <==> bytes@.len() == 8,
    {
        Instruction::parse(bytes)
    }

    /// Executes one decoded instruction.
    ///
    /// Mnemonic `MOV` is the only operation; any other mnemonic is an
    /// error that carries the mnemonic and the program counter. An
    /// instruction that fails changes nothing.
    pub fn execute(&mut self, instruction: Instruction) -> (r: Result<(), ExecError>)
        ensures
            final(self).ram == old(self).ram,
            final(self).flags == old(self).flags,
            match execute_outcome(instruction, old(self).registers) {
                Ok(regs) => r is Ok && final(self).registers == regs,
                Err(e) => r == Err::<(), ExecError>(e) && final(self).registers == old(
                    self,
                ).registers,
            },
    {
        if instruction.mnemonic == MOV {
            instruction.mov(self)
        } else {
            Err(
                ExecError::InvalidMnemonic {
                    mnemonic: instruction.mnemonic,
                    address: self.registers.rip as i64,
                },
            )
        }
    }

    /// Runs the program in the first code region: one round of fetch,
    /// decode and execute for each instruction slot that starts in the
    /// region, from wherever the program counter stands.
    ///
    /// The region only sets the number of rounds; each fetch is made at the
    /// program counter, which moves on by eight after each instruction that
    /// succeeds. The first error ends the run and is returned, with the
    /// registers as the last instruction that succeeded left them. Memory
    /// and flags stay as they were.
    pub fn run(&mut self) -> (r: Result<(), ExecError>)
        requires
            old(self).run_stays_in_bounds(),
        ensures
            final(self).ram == old(self).ram,
            final(self).flags == old(self).flags,
            (final(self).registers, r) == run_outcome(
                old(self).ram.memory@,
                old(self).registers,
                old(self).code_steps(),
            ),
    {
        let range = self.ram.get_range(SectionType::Code);
        let start: usize = range[0].0;
        let end: usize = range[0].1;
        let slots: usize = slot_count(start, end);
        let ghost mem = self.ram.memory@;
        let ghost goal = run_outcome(mem, self.registers, slots as nat);
        let mut k: usize = 0;
        while k < slots
            invariant
                k <= slots,
                self.ram == old(self).ram,
                self.flags == old(self).flags,
                mem == self.ram.memory@,
                goal == run_outcome(
                    old(self).ram.memory@,
                    old(self).registers,
                    old(self).code_steps(),
                ),
                run_outcome(mem, self.registers, (slots - k) as nat) == goal,
                run_in_bounds(mem, self.registers, (slots - k) as nat),
            decreases slots - k,
        {
            let bytes = self.fetch(self.registers.rip);
            match CPU::decode(bytes) {
                Some(instruction) => {
                    match self.execute(instruction) {
                        Ok(()) => {},
                        Err(e) => {
                            return Err(e);
                        },
                    }
                    self.registers.rip = self.registers.rip + 8;
                },
                None => {
                    return Err(ExecError::Decode);
                },
            }
            k = k + 1;
        }
        Ok(())
    }

    /// A hexadecimal listing of the whole memory, one line for each `lim`
    /// bytes, or for each 8 where `lim` is absent. Nothing is changed.
    pub fn dump(&self, lim: Option<usize>) -> (lines: Vec<String>)
        requires
            lim != Some(0usize),
        ensures
            lines@.len() == dump_text(self.ram.memory@, 0, dump_width(lim)).len(),
            forall|i: int|
                0 <= i < lines@.len() ==> (#[trigger] lines@[i])@ == dump_text(
                    self.ram.memory@,
                    0,
                    dump_width(lim),
                )[i],
    {
        let width: usize = match lim {
            Some(chosen) => chosen,
            None => 8,
        };
        let len: usize = self.ram.memory.len();
        let ghost mem = self.ram.memory@;
        let ghost mut shown: Seq<Seq<char>> = Seq::empty();
        let mut lines: Vec<String> = Vec::new();
        let mut at: usize = 0;
        while at < len
            invariant
                width > 0,
                width == dump_width(lim),
                at <= len,
                len == mem.len(),
                mem == self.ram.memory@,
                lines@.len() == shown.len(),
                forall|i: int| 0 <= i < lines@.len() ==> (#[trigger] lines@[i])@ == shown[i],
                shown + dump_text(mem, at as int, width as int) == dump_text(mem, 0, width as int),
            decreases len - at,
        {
            let stop: usize = if len - at <= width {
                len
            } else {
                at + width
            };
            let mut text = String::new();
            text.append("0x");
            text.append(hex_upper(at as u64).as_str());
            text.append(":\t");
            let ghost head = text@;
            let mut i: usize = at;
            while i < stop
                invariant
                    at <= i <= stop <= len,
                    len == mem.len(),
                    mem == self.ram.memory@,
                    text@ == head + hex_cells(mem.subrange(at as int, i as int)),
                decreases stop - i,
            {
                text.append(hex_byte_upper(self.ram.memory[i]).as_str());
                text.append(" ");
                proof {
                    assert(mem.subrange(at as int, i + 1).drop_last() =~= mem.subrange(
                        at as int,
                        i as int,
                    ));
                    assert(text@ =~= head + hex_cells(mem.subrange(at as int, i + 1)));
                }
                i = i + 1;
            }
            proof {
                assert(text@ =~= dump_line(mem, at as int, width as int));
                assert(dump_text(mem, stop as int, width as int) == dump_text(
                    mem,
                    at + width,
                    width as int,
                ));
                assert(shown.push(text@) + dump_text(mem, stop as int, width as int) =~= shown
                    + dump_text(mem, at as int, width as int));
                shown = shown.push(text@);
            }
            lines.push(text);
            at = stop;
        }
        proof {
            assert(shown =~= dump_text(mem, 0, width as int));
        }
        lines
    }
}

impl Default for CPU {
    /// A processor over an empty memory with no region declared.
    fn default() -> (cpu: Self)
        ensures
            cpu.ram.memory@ == Seq::<u8>::empty(),
            cpu.ram.regions@ == Seq::<(SectionType, usize, usize)>::empty(),
            cpu.registers == Registers::zeroed(),
            cpu.flags == Flags::cleared(),
    {
        CPU { ram: Memory::default(), registers: Registers::default(), flags: Flags::default() }
    }
}

} // verus!
