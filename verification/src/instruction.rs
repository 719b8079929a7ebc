//! The fixed-width instruction word: its fields, and the eight bytes that
//! carry them.

use crate::cpu::CPU;
use crate::error::ExecError;
use crate::registers::Registers;
use vstd::prelude::*;

verus! {

/// Number of bytes in one encoded instruction.
pub const INSTRUCTION_LEN: usize = 8;

/// The four bytes of `value`, most significant first.
pub open spec fn be_bytes(value: u32) -> Seq<u8> {
    seq![
        (value / 0x100_0000) as u8,
        (value / 0x1_0000 % 0x100) as u8,
        (value / 0x100 % 0x100) as u8,
        (value % 0x100) as u8,
    ]
}

/// The number that four bytes spell in base 256, most significant first.
pub open spec fn be_value(b0: u8, b1: u8, b2: u8, b3: u8) -> int {
    b0 * 0x100_0000 + b1 * 0x1_0000 + b2 * 0x100 + b3
}

/// A 32-bit word read as a two's-complement number.
pub open spec fn as_signed(word: u32) -> int {
    if word < 0x8000_0000 {
        word as int
    } else {
        word - 0x1_0000_0000
    }
}

/// One decoded instruction.
///
/// On the wire it is eight bytes: `mnemonic`, `modifier`, `register_from`,
/// `register_to`, then `data` as four bytes, most significant first.
#[derive(Debug, Clone, Copy, PartialEq, Eq, Structural)]
pub struct Instruction {
    /// Selects the operation.
    pub mnemonic: u8,
    /// Selects the operand form of the operation.
    pub modifier: u8,
    /// Source register id, or a reserved byte that must be zero.
    pub register_from: u8,
    /// Destination register id.
    pub register_to: u8,
    /// The 32-bit operand.
    pub data: u32,
}

impl Instruction {
    /// The eight bytes that carry this instruction.
    pub open spec fn encoded(self) -> Seq<u8> {
        seq![self.mnemonic, self.modifier, self.register_from, self.register_to] + be_bytes(
            self.data,
        )
    }

    /// The instruction that `bytes` carry: one for every sequence of exactly
    /// eight bytes, whatever their values, and none for any other length.
    pub open spec fn decoded(bytes: Seq<u8>) -> Option<Instruction> {
        if bytes.len() == 8 {
            Some(
                Instruction {
                    mnemonic: bytes[0],
                    modifier: bytes[1],
                    register_from: bytes[2],
                    register_to: bytes[3],
                    data: be_value(bytes[4], bytes[5], bytes[6], bytes[7]) as u32,
                },
            )
        } else {
            None
        }
    }

    /// What the move operation comes to with the registers at `regs`.
    ///
    /// The modifier must be 0, the destination one of the four
    /// general-purpose registers, and the source byte, which this form
    /// reserves, 0. The checks are made in that order, and the first that
    /// fails names the error. Where all hold, the destination takes `data`
    /// read as a signed number.
    pub open spec fn mov_outcome(self, regs: Registers) -> Result<Registers, ExecError> {
        if self.modifier != 0 {
            Err(ExecError::InvalidModifier { modifier: self.modifier, address: (regs.rip + 1) as i64 })
        } else if self.register_to > 3 {
            Err(
                ExecError::InvalidRegister {
                    register: self.register_to,
                    address: (regs.rip + 3) as i64,
                },
            )
        } else if self.register_from != 0 {
            Err(ExecError::ReservedByte { address: (regs.rip + 2) as i64 })
        } else {
            Ok(regs.with_general(self.register_to, as_signed(self.data) as i32))
        }
    }

    /// An instruction with the given fields. Any values will do: what they
    /// mean is checked when the instruction is executed.
    pub fn new(mnemonic: u8, modifier: u8, register_from: u8, register_to: u8, data: u32) -> (r:
        Self)
        ensures
            r == (Instruction { mnemonic, modifier, register_from, register_to, data }),
    {
        Instruction { mnemonic, modifier, register_from, register_to, data }
    }

    /// Encodes the instruction into its eight bytes.
    pub fn as_bytes(&self) -> (bytes: Vec<u8>)
        ensures
            bytes@ == self.encoded(),
    {
        let d: u32 = self.data;
        let mut bytes: Vec<u8> = Vec::new();
        bytes.push(self.mnemonic);
        bytes.push(self.modifier);
        bytes.push(self.register_from);
        bytes.push(self.register_to);
        bytes.push((d / 0x100_0000) as u8);
        bytes.push((d / 0x1_0000 % 0x100) as u8);
        bytes.push((d / 0x100 % 0x100) as u8);
        bytes.push((d % 0x100) as u8);
        bytes
    }

    /// Decodes eight bytes into an instruction.
    ///
    /// Only the length is checked: every byte pattern of the right length
    /// decodes, and whether the fields mean anything is found out when the
    /// instruction is executed.
    pub fn parse(bytes: Vec<u8>) -> (r: Option<Instruction>)
        ensures
            r == Instruction::decoded(bytes@),
            r is Some <==> bytes@.len() == 8,
    {
        if bytes.len() != INSTRUCTION_LEN {
            return None;
        }
        let b4: u32 = bytes[4] as u32;
        let b5: u32 = bytes[5] as u32;
        let b6: u32 = bytes[6] as u32;
        let b7: u32 = bytes[7] as u32;
        Some(
            Instruction {
                mnemonic: bytes[0],
                modifier: bytes[1],
                register_from: bytes[2],
                register_to: bytes[3],
                data: b4 * 0x100_0000 + b5 * 0x1_0000 + b6 * 0x100 + b7,
            },
        )
    }

    /// The move operation: stores `data`, read as a signed number, in the
    /// general-purpose register that `register_to` names.
    ///
    /// Memory and flags are never touched, and an instruction that fails
    /// leaves the registers as they were.
    pub fn mov(&self, ctx: &mut CPU) -> (r: Result<(), ExecError>)
        ensures
            final(ctx).ram == old(ctx).ram,
            final(ctx).flags == old(ctx).flags,
            match self.mov_outcome(old(ctx).registers) {
                Ok(regs) => r is Ok && final(ctx).registers == regs,
                Err(e) => r == Err::<(), ExecError>(e) && final(ctx).registers == old(
                    ctx,
                ).registers,
            },
    {
        let rip: i64 = ctx.registers.rip as i64;
        if self.modifier != 0 {
            return Err(ExecError::InvalidModifier { modifier: self.modifier, address: rip + 1 });
        }
        if self.register_to > 3 {
            return Err(ExecError::InvalidRegister { register: self.register_to, address: rip + 3 });
        }
        if self.register_from != 0 {
            return Err(ExecError::ReservedByte { address: rip + 2 });
        }
        let value: i32 = if self.data < 0x8000_0000 {
            self.data as i32
        } else {
            (self.data as i64 - 0x1_0000_0000) as i32
        };
        if self.register_to == 0 {
            ctx.registers.r1 = value;
        } else if self.register_to == 1 {
            ctx.registers.r2 = value;
        } else if self.register_to == 2 {
            ctx.registers.r3 = value;
        } else {
            ctx.registers.r4 = value;
        }
        Ok(())
    }
}

/// The four bytes of a number spelt in base 256 are the digits it was spelt
/// with.
pub proof fn lemma_be_bytes_of_value(b0: u8, b1: u8, b2: u8, b3: u8)
    ensures
        0 <= be_value(b0, b1, b2, b3) <= u32::MAX,
        be_bytes(be_value(b0, b1, b2, b3) as u32) == seq![b0, b1, b2, b3],
{
    let low: int = b1 * 0x1_0000 + b2 * 0x100 + b3;
    let v: int = be_value(b0, b1, b2, b3);
    assert(v == b0 * 0x100_0000 + low);
    assert(0 <= low < 0x100_0000);
    assert(v / 0x100_0000 == b0);
    assert(v / 0x1_0000 == b0 * 0x100 + b1);
    assert(v / 0x100 == b0 * 0x1_0000 + b1 * 0x100 + b2);
    assert(be_bytes(v as u32) =~= seq![b0, b1, b2, b3]);
}

/// Decoding eight bytes and encoding the result gives the same eight bytes
/// back.
pub proof fn lemma_decode_then_encode(bytes: Seq<u8>)
    requires
        bytes.len() == 8,
    ensures
        Instruction::decoded(bytes) is Some,
        Instruction::decoded(bytes).unwrap().encoded() == bytes,
{
    lemma_be_bytes_of_value(bytes[4], bytes[5], bytes[6], bytes[7]);
    assert(Instruction::decoded(bytes).unwrap().encoded() =~= bytes);
}

/// Encoding an instruction and decoding the bytes gives the same fields back.
pub proof fn lemma_encode_then_decode(i: Instruction)
    ensures
        i.encoded().len() == 8,
        Instruction::decoded(i.encoded()) == Some(i),
{
}

/// A move with modifier 0, a destination among the four general-purpose
/// registers and a zero source byte succeeds for every operand: the
/// destination then holds the operand read as a signed number, and every
/// other register, the program counter too, is as before.
pub proof fn lemma_mov_stores(instruction: Instruction, regs: Registers)
    requires
        instruction.modifier == 0,
        instruction.register_to <= 3,
        instruction.register_from == 0,
    ensures
        instruction.mov_outcome(regs) is Ok,
        instruction.mov_outcome(regs).unwrap().general(instruction.register_to) == as_signed(
            instruction.data,
        ),
        forall|id: u8|
            id != instruction.register_to ==> instruction.mov_outcome(regs).unwrap().general(id)
                == regs.general(id),
        instruction.mov_outcome(regs).unwrap().rip == regs.rip,
{
}

/// A move with modifier 0 whose destination is none of the four
/// general-purpose registers fails and names the destination byte, whatever
/// the source byte and the operand hold.
pub proof fn lemma_mov_rejects_register(instruction: Instruction, regs: Registers)
    requires
        instruction.modifier == 0,
        instruction.register_to > 3,
    ensures
        instruction.mov_outcome(regs) == Err::<Registers, ExecError>(
            ExecError::InvalidRegister {
                register: instruction.register_to,
                address: (regs.rip + 3) as i64,
            },
        ),
{
}

/// A move with modifier 0, a destination among the four general-purpose
/// registers and a source byte that is not zero fails and names the source
/// byte.
pub proof fn lemma_mov_rejects_reserved(instruction: Instruction, regs: Registers)
    requires
        instruction.modifier == 0,
        instruction.register_to <= 3,
        instruction.register_from != 0,
    ensures
        instruction.mov_outcome(regs) == Err::<Registers, ExecError>(
            ExecError::ReservedByte { address: (regs.rip + 2) as i64 },
        ),
{
}

/// A move with any modifier but 0 fails and names the modifier byte.
pub proof fn lemma_mov_rejects_modifier(instruction: Instruction, regs: Registers)
    requires
        instruction.modifier != 0,
    ensures
        instruction.mov_outcome(regs) == Err::<Registers, ExecError>(
            ExecError::InvalidModifier {
                modifier: instruction.modifier,
                address: (regs.rip + 1) as i64,
            },
        ),
{
}

} // verus!
