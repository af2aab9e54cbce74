//! The instruction codec: the mapping between one machine word and the
//! instruction descriptor that the processor acts on.
//!
//! An instruction word is laid out as follows, bit 0 being the lowest:
//!
//! | bits  | field                                  |
//! |-------|----------------------------------------|
//! | 0-7   | opcode                                 |
//! | 8     | input slot 1 holds an address          |
//! | 9     | input slot 0 holds an address          |
//! | 10    | the result is written to memory        |
//! | 11    | unused                                 |
//! | 12-13 | number of operand words                |
//! | 14-15 | unused                                 |

use vstd::prelude::*;

verus! {

/// The operation selected by the low byte of an instruction word.
#[derive(Clone, Copy, Debug, PartialEq, Eq, Structural)]
pub enum Operation {
    /// No state change.
    Nop,
    /// Output register takes the value of input register 0.
    Copy,
    /// Output register takes the wrapping sum of input registers 0 and 1.
    Add,
    /// Jumps to input register 0 when input register 1 is zero.
    JumpIfZero,
    /// Emits the low byte of input register 1 as one character.
    Poke,
    /// Stops the machine.
    Halt,
}

/// One decoded instruction word.
#[derive(Clone, Copy, Debug, PartialEq, Eq)]
pub struct Instruction {
    /// What the instruction does.
    pub operation: Operation,
    /// How many operand words follow the instruction word: 0 to 3.
    pub argc: u8,
    /// Per input slot 0 and 1: whether the fetched operand is an address to
    /// be read through rather than the value itself.
    pub read_addr: [bool; 2],
    /// Whether the output register is stored to memory after execution, at
    /// an address fetched right after the instruction word.
    pub write_addr: bool,
}

/// The operation that an opcode byte stands for. Bytes above the highest
/// defined ordinal stand for the no-op.
pub open spec fn operation_of(byte: u8) -> Operation {
    match byte {
        1 => Operation::Copy,
        2 => Operation::Add,
        3 => Operation::JumpIfZero,
        4 => Operation::Poke,
        5 => Operation::Halt,
        _ => Operation::Nop,
    }
}

/// The ordinal of an operation: the opcode byte that encodes it.
pub open spec fn ordinal(op: Operation) -> u8 {
    match op {
        Operation::Nop => 0,
        Operation::Copy => 1,
        Operation::Add => 2,
        Operation::JumpIfZero => 3,
        Operation::Poke => 4,
        Operation::Halt => 5,
    }
}

/// The descriptor that a word decodes to. Bit `n` of the word is set when
/// the word divided by 2^n is odd; the unused bits play no part.
pub open spec fn decode(word: u16) -> Instruction {
    Instruction {
        operation: operation_of((word % 256) as u8),
        argc: ((word / 4096) % 4) as u8,
        read_addr: [(word / 512) % 2 == 1, (word / 256) % 2 == 1],
        write_addr: (word / 1024) % 2 == 1,
    }
}

/// The value of a flag in the bit of weight `weight`.
pub open spec fn flag(set: bool, weight: int) -> int {
    if set {
        weight
    } else {
        0
    }
}

/// The word that a descriptor encodes to: each field at the position that
/// `decode` reads it from, and nothing in the unused bits.
pub open spec fn encode(ix: Instruction) -> u16 {
    (ordinal(ix.operation) + flag(ix.read_addr[1], 256) + flag(ix.read_addr[0], 512) + flag(
        ix.write_addr,
        1024,
    ) + 4096 * ix.argc) as u16
}

impl Operation {
    /// Decodes an opcode byte. Total: every byte has an operation.
    pub fn from_byte(byte: u8) -> (op: Operation)
        ensures
            op == operation_of(byte),
    {
        match byte {
            1 => Operation::Copy,
            2 => Operation::Add,
            3 => Operation::JumpIfZero,
            4 => Operation::Poke,
            5 => Operation::Halt,
            _ => Operation::Nop,
        }
    }

    /// The opcode byte of this operation.
    pub fn to_byte(self) -> (byte: u8)
        ensures
            byte == ordinal(self),
    {
        match self {
            Operation::Nop => 0,
            Operation::Copy => 1,
            Operation::Add => 2,
            Operation::JumpIfZero => 3,
            Operation::Poke => 4,
            Operation::Halt => 5,
        }
    }
}

impl Instruction {
    /// The operand count fits its two-bit field.
    pub open spec fn well_formed(self) -> bool {
        self.argc <= 3
    }

    /// Decodes one instruction word. Total: every word has a descriptor.
    pub fn from_word(word: u16) -> (ix: Instruction)
        ensures
            ix == decode(word),
            ix.well_formed(),
    {
        let low: u16 = word & 0xff;
        let count: u16 = (word >> 12) & 0x3;
        let slot0: bool = word & (1 << 9) != 0;
        let slot1: bool = word & (1 << 8) != 0;
        let write: bool = word & (1 << 10) != 0;
        assert(low == word % 256 && low < 256) by (bit_vector)
            requires
                low == word & 0xff,
        ;
        assert(count == (word / 4096) % 4 && count < 4) by (bit_vector)
            requires
                count == (word >> 12) & 0x3,
        ;
        assert((word & (1u16 << 9) != 0) == ((word / 512) % 2 == 1)) by (bit_vector);
        assert((word & (1u16 << 8) != 0) == ((word / 256) % 2 == 1)) by (bit_vector);
        assert((word & (1u16 << 10) != 0) == ((word / 1024) % 2 == 1)) by (bit_vector);
        Instruction {
            operation: Operation::from_byte(low as u8),
            argc: count as u8,
            read_addr: [slot0, slot1],
            write_addr: write,
        }
    }

    /// Encodes the descriptor as one instruction word.
    pub fn to_word(&self) -> (word: u16)
        requires
            self.well_formed(),
        ensures
            word == encode(*self),
    {
        let op: u16 = self.operation.to_byte() as u16;
        let count: u16 = self.argc as u16;
        let slot0: u16 = if self.read_addr[0] { 1 } else { 0 };
        let slot1: u16 = if self.read_addr[1] { 1 } else { 0 };
        let write: u16 = if self.write_addr { 1 } else { 0 };
        assert((op | count << 12 | slot0 << 9 | slot1 << 8 | write << 10) == op + 256 * slot1 + 512
            * slot0 + 1024 * write + 4096 * count) by (bit_vector)
            requires
                op <= 5,
                count <= 3,
                slot0 <= 1,
                slot1 <= 1,
                write <= 1,
        ;
        op | count << 12 | slot0 << 9 | slot1 << 8 | write << 10
    }
}

/// Decoding reads the fields from the bits of the layout: the opcode from
/// the low byte, the flags from bits 8, 9 and 10 with input slot 0 at bit 9,
/// the operand count from bits 12 and 13.
pub proof fn lemma_decode_bits(word: u16)
    ensures
        decode(word).operation == operation_of((word & 0xff) as u8),
        decode(word).read_addr[1] == (word & 0x0100 != 0),
        decode(word).read_addr[0] == (word & 0x0200 != 0),
        decode(word).write_addr == (word & 0x0400 != 0),
        decode(word).argc == (word >> 12) & 0x3,
        decode(word).well_formed(),
        decode(word & 0x37ff) == decode(word),
{
    let kept: u16 = word & 0x37ff;
    assert(word & 0xff == word % 256) by (bit_vector);
    assert((word & 0x0100 != 0) == ((word / 256) % 2 == 1)) by (bit_vector);
    assert((word & 0x0200 != 0) == ((word / 512) % 2 == 1)) by (bit_vector);
    assert((word & 0x0400 != 0) == ((word / 1024) % 2 == 1)) by (bit_vector);
    assert((word >> 12) & 0x3 == (word / 4096) % 4) by (bit_vector);
    assert(kept % 256 == word % 256 && (kept / 256) % 2 == (word / 256) % 2 && (kept / 512) % 2 == (
    word / 512) % 2 && (kept / 1024) % 2 == (word / 1024) % 2 && (kept / 4096) % 4 == (word / 4096)
        % 4) by (bit_vector)
        requires
            kept == word & 0x37ff,
    ;
    assert(decode(kept).read_addr =~= decode(word).read_addr);
}

/// Encoding sets no bit that decoding ignores: bits 11, 14 and 15 of an
/// encoded word are zero.
pub proof fn lemma_encode_unused_bits(ix: Instruction)
    requires
        ix.well_formed(),
    ensures
        encode(ix) & 0xc800 == 0,
{
    let e = encode(ix);
    let op = ordinal(ix.operation);
    let slot1: u16 = if ix.read_addr[1] { 1 } else { 0 };
    let slot0: u16 = if ix.read_addr[0] { 1 } else { 0 };
    let write: u16 = if ix.write_addr { 1 } else { 0 };
    let count = ix.argc;
    assert(e == op + 256 * slot1 + 512 * slot0 + 1024 * write + 4096 * count);
    assert(e & 0xc800 == 0) by (bit_vector)
        requires
            op <= 5,
            slot1 <= 1,
            slot0 <= 1,
            write <= 1,
            count <= 3,
            e == op + 256 * slot1 + 512 * slot0 + 1024 * write + 4096 * count,
    ;
}

/// Decoding inverts encoding: a well-formed descriptor survives the trip
/// through its word with every field intact.
pub proof fn lemma_decode_encode(ix: Instruction)
    requires
        ix.well_formed(),
    ensures
        decode(encode(ix)) == ix,
{
    assert(decode(encode(ix)).read_addr =~= ix.read_addr);
}

/// Encoding a decoded word gives the word back in the two flag bits of the
/// input slots, the write flag and the operand count, and leaves the bits
/// that decoding ignores at zero. This holds of every word.
pub proof fn lemma_encode_decode_flags(word: u16)
    ensures
        encode(decode(word)) & 0x3700 == word & 0x3700,
        encode(decode(word)) & 0xc800 == 0,
{
    let e = encode(decode(word));
    let op = ordinal(operation_of((word % 256) as u8));
    assert(e == op + 256 * ((word / 256) % 2) + 512 * ((word / 512) % 2) + 1024 * ((word / 1024)
        % 2) + 4096 * ((word / 4096) % 4));
    assert(e & 0x3700 == word & 0x3700 && e & 0xc800 == 0) by (bit_vector)
        requires
            op <= 5,
            e == op + 256 * ((word / 256) % 2) + 512 * ((word / 512) % 2) + 1024 * ((word / 1024)
                % 2) + 4096 * ((word / 4096) % 4),
    ;
}

/// Encoding a decoded word gives the word back in every bit that decoding
/// reads, the opcode byte included, when that byte is a defined ordinal.
pub proof fn lemma_encode_decode(word: u16)
    requires
        word % 256 <= 5,
    ensures
        encode(decode(word)) == word & 0x37ff,
{
    let e = encode(decode(word));
    assert(e == word % 256 + 256 * ((word / 256) % 2) + 512 * ((word / 512) % 2) + 1024 * ((word
        / 1024) % 2) + 4096 * ((word / 4096) % 4));
    assert(e == word & 0x37ff) by (bit_vector)
        requires
            word % 256 <= 5,
            e == word % 256 + 256 * ((word / 256) % 2) + 512 * ((word / 512) % 2) + 1024 * ((word
                / 1024) % 2) + 4096 * ((word / 4096) % 4),
    ;
}

/// A word whose opcode byte lies above the highest defined ordinal decodes
/// to the no-op, and encoding that descriptor gives opcode byte zero.
pub proof fn lemma_undefined_opcode(word: u16)
    requires
        word % 256 > 5,
    ensures
        decode(word).operation == Operation::Nop,
        encode(decode(word)) % 256 == 0,
{
}

} // verus!
