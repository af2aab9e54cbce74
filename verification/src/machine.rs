//! The machine as a mathematical value: its state, and what one execute
//! cycle and a bounded run do to it.

use crate::codec::{decode, Instruction, Operation};
use vstd::prelude::*;

verus! {

/// Number of words of memory: one per 16-bit address.
pub const MEMSIZE: usize = 65536;

/// The most execute cycles that one run performs.
pub const MAX_STEPS: usize = 100;

/// The word that an integer stands for: its value modulo 2^16.
pub open spec fn wrap(n: int) -> u16 {
    (n % 0x10000) as u16
}

/// The complete state of the machine.
pub struct Machine {
    /// Address of the next word to fetch.
    pub pc: u16,
    /// The three input registers.
    pub reg_in: Seq<u16>,
    /// The output register.
    pub reg_out: u16,
    /// The memory, one word per address.
    pub memory: Seq<u16>,
    /// Whether a halt instruction has executed.
    pub halted: bool,
    /// Every character emitted so far, oldest first.
    pub output: Seq<u8>,
}

impl Machine {
    /// There are three input registers and a word of memory at every
    /// address.
    pub open spec fn well_formed(self) -> bool {
        &&& self.reg_in.len() == 3
        &&& self.memory.len() == MEMSIZE
    }

    /// The machine at power-on: everything zero, running, nothing emitted.
    pub open spec fn initial() -> Machine {
        Machine {
            pc: 0,
            reg_in: seq![0u16, 0u16, 0u16],
            reg_out: 0,
            memory: Seq::new(MEMSIZE as nat, |i: int| 0u16),
            halted: false,
            output: Seq::empty(),
        }
    }

    /// The memory with `image` laid over it from address 0 on.
    pub open spec fn overlaid(self, image: Seq<u16>) -> Seq<u16> {
        Seq::new(
            self.memory.len(),
            |i: int|
                if i < image.len() {
                    image[i]
                } else {
                    self.memory[i]
                },
        )
    }

    /// The word at the address that `addr` wraps to.
    pub open spec fn word_at(self, addr: int) -> u16 {
        self.memory[wrap(addr) as int]
    }

    /// The state after one fetch: the program counter moved on by one word,
    /// wrapping at the end of memory.
    pub open spec fn advanced(self) -> Machine {
        Machine { pc: wrap(self.pc + 1), ..self }
    }

    /// The instruction that the program counter points at.
    pub open spec fn instruction(self) -> Instruction {
        decode(self.memory[self.pc as int])
    }

    /// How many words the current instruction occupies before its operands:
    /// the instruction word, and the write address where it has one.
    pub open spec fn header_len(self) -> int {
        if self.instruction().write_addr {
            2
        } else {
            1
        }
    }

    /// The address that the current instruction writes its result to: the
    /// word after the instruction word, or 0 where it writes nothing.
    pub open spec fn write_address(self) -> u16 {
        if self.instruction().write_addr {
            self.word_at(self.pc + 1)
        } else {
            0
        }
    }

    /// What input register `slot` holds once the operands are fetched: the
    /// operand word of that slot, or the register's old value where the
    /// instruction has no operand for it.
    pub open spec fn fetched(self, slot: int) -> u16 {
        if slot < self.instruction().argc {
            self.word_at(self.pc + self.header_len() + slot)
        } else {
            self.reg_in[slot]
        }
    }

    /// What input register `slot` holds when the operation executes: for
    /// slots 0 and 1 with the indirection flag set, the word of memory that
    /// the fetched value addresses; else the fetched value.
    pub open spec fn input(self, slot: int) -> u16 {
        if 0 <= slot < 2 && self.instruction().read_addr[slot] {
            self.memory[self.fetched(slot) as int]
        } else {
            self.fetched(slot)
        }
    }

    /// Where the program counter stands once the instruction word, the write
    /// address and the operands are fetched.
    pub open spec fn next_pc(self) -> u16 {
        wrap(self.pc + self.header_len() + self.instruction().argc)
    }

    /// What the output register holds after the operation executed.
    pub open spec fn result(self) -> u16 {
        match self.instruction().operation {
            Operation::Copy => self.input(0),
            Operation::Add => wrap(self.input(0) + self.input(1)),
            _ => self.reg_out,
        }
    }

    /// The state after one execute cycle.
    pub open spec fn step(self) -> Machine {
        let ix = self.instruction();
        Machine {
            pc: if ix.operation == Operation::JumpIfZero && self.input(1) == 0 {
                self.input(0)
            } else {
                self.next_pc()
            },
            reg_in: seq![self.input(0), self.input(1), self.input(2)],
            reg_out: self.result(),
            memory: if ix.write_addr {
                self.memory.update(self.write_address() as int, self.result())
            } else {
                self.memory
            },
            halted: self.halted || ix.operation == Operation::Halt,
            output: if ix.operation == Operation::Poke {
                self.output.push((self.input(1) % 256) as u8)
            } else {
                self.output
            },
        }
    }

    /// The state after `n` execute cycles in a row.
    pub open spec fn steps(self, n: nat) -> Machine
        decreases n,
    {
        if n == 0 {
            self
        } else {
            self.steps((n - 1) as nat).step()
        }
    }

    /// How many execute cycles a run with the given budget performs: it
    /// stops when the machine is halted or the budget is used up.
    pub open spec fn run_len(self, budget: nat) -> nat
        decreases budget,
    {
        if self.halted || budget == 0 {
            0
        } else {
            1 + self.step().run_len((budget - 1) as nat)
        }
    }

    /// The state that a run with the given budget ends in.
    pub open spec fn run(self, budget: nat) -> Machine
        decreases budget,
    {
        if self.halted || budget == 0 {
            self
        } else {
            self.step().run((budget - 1) as nat)
        }
    }
}

} // verus!
