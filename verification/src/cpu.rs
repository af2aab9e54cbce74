//! The processor: it owns the registers, the program counter and the
//! memory, and drives the fetch, decode and execute cycle.

use crate::codec::{Instruction, Operation};
use crate::machine::{wrap, Machine, MAX_STEPS, MEMSIZE};
use vstd::prelude::*;

verus! {

/// The machine in executable form.
#[derive(Clone, Debug)]
pub struct Cpu {
    /// Address of the next word to fetch.
    pub pc: u16,
    /// The three input registers.
    pub reg_in: [u16; 3],
    /// The output register.
    pub reg_out: u16,
    /// The memory, one word per address.
    pub memory: [u16; MEMSIZE],
    /// Whether a halt instruction has executed.
    pub halted: bool,
    /// Every character emitted so far, oldest first.
    pub output: Vec<u8>,
}

impl View for Cpu {
    type V = Machine;

    open spec fn view(&self) -> Machine {
        Machine {
            pc: self.pc,
            reg_in: self.reg_in@,
            reg_out: self.reg_out,
            memory: self.memory@,
            halted: self.halted,
            output: self.output@,
        }
    }
}

impl Cpu {
    /// A machine at power-on.
    pub fn new() -> (cpu: Cpu)
        ensures
            cpu@ == Machine::initial(),
            cpu@.well_formed(),
    {
        let cpu = Cpu {
            pc: 0,
            reg_in: [0; 3],
            reg_out: 0,
            memory: [0; MEMSIZE],
            halted: false,
            output: Vec::new(),
        };
        assert(cpu@.reg_in =~= Machine::initial().reg_in);
        assert(cpu@.memory =~= Machine::initial().memory);
        cpu
    }

    /// Copies a program image into memory from address 0 on and points the
    /// program counter at `entry`. Memory beyond the image, the registers,
    /// the halted flag and the output are left as they are.
    pub fn load(&mut self, image: &[u16], entry: u16)
        requires
            image@.len() <= MEMSIZE,
        ensures
            final(self)@ == (Machine {
                pc: entry,
                memory: old(self)@.overlaid(image@),
                ..old(self)@
            }),
            final(self)@.well_formed(),
    {
        let mut i: usize = 0;
        while i < image.len()
            invariant
                i <= image@.len() <= MEMSIZE,
                self@ == (Machine { memory: self@.memory, ..old(self)@ }),
                forall|k: int|
                    0 <= k < MEMSIZE ==> self@.memory[k] == if k < i {
                        image@[k]
                    } else {
                        old(self)@.memory[k]
                    },
            decreases image@.len() - i,
        {
            self.memory[i] = image[i];
            i += 1;
        }
        self.pc = entry;
        assert(self@.memory =~= old(self)@.overlaid(image@));
    }

    /// Reads the word that the program counter points at and moves the
    /// program counter on by one word.
    pub fn fetch(&mut self) -> (word: u16)
        ensures
            word == old(self)@.memory[old(self)@.pc as int],
            final(self)@ == old(self)@.advanced(),
            final(self)@.well_formed(),
    {
        let out = self.memory[self.pc as usize];
        self.pc = self.pc.wrapping_add(1);
        out
    }

    /// Runs one execute cycle: fetches and decodes an instruction, fetches
    /// its write address and operands, reads through the operands that are
    /// addresses, executes the operation and writes the result back.
    pub fn step(&mut self)
        ensures
            final(self)@ == old(self)@.step(),
            final(self)@.well_formed(),
    {
        let ghost start = self@;
        let ix = Instruction::from_word(self.fetch());
        let write_addr = if ix.write_addr {
            self.fetch()
        } else {
            0
        };

        let mut i: usize = 0;
        while i < ix.argc as usize
            invariant
                i <= ix.argc <= 3,
                ix == start.instruction(),
                start.well_formed(),
                self@.well_formed(),
                self@ == (Machine {
                    pc: wrap(start.pc + start.header_len() + i),
                    reg_in: self@.reg_in,
                    ..start
                }),
                forall|k: int|
                    0 <= k < 3 ==> self@.reg_in[k] == if k < i {
                        start.fetched(k)
                    } else {
                        start.reg_in[k]
                    },
            decreases ix.argc - i,
        {
            let word = self.fetch();
            self.reg_in[i] = word;
            i += 1;
        }

        let mut slot: usize = 0;
        while slot < 2
            invariant
                slot <= 2,
                ix == start.instruction(),
                start.well_formed(),
                self@.well_formed(),
                self@ == (Machine { pc: start.next_pc(), reg_in: self@.reg_in, ..start }),
                forall|k: int|
                    0 <= k < 3 ==> self@.reg_in[k] == if k < slot {
                        start.input(k)
                    } else {
                        start.fetched(k)
                    },
            decreases 2 - slot,
        {
            if ix.read_addr[slot] {
                let addr = self.reg_in[slot];
                self.reg_in[slot] = self.memory[addr as usize];
            }
            slot += 1;
        }

        match ix.operation {
            Operation::Nop => {},
            Operation::Copy => {
                self.reg_out = self.reg_in[0];
            },
            Operation::Add => {
                self.reg_out = self.reg_in[0].wrapping_add(self.reg_in[1]);
            },
            Operation::JumpIfZero => {
                if self.reg_in[1] == 0 {
                    self.pc = self.reg_in[0];
                }
            },
            Operation::Poke => {
                let value: u16 = self.reg_in[1];
                let low: u16 = value & 0xff;
                assert(low == value % 256) by (bit_vector)
                    requires
                        low == value & 0xff,
                ;
                self.output.push(low as u8);
            },
            Operation::Halt => {
                self.halted = true;
            },
        }

        if ix.write_addr {
            self.memory[write_addr as usize] = self.reg_out;
        }
        proof {
            assert(self@.reg_in =~= start.step().reg_in);
        }
    }

    /// Runs execute cycles until the machine is halted or `MAX_STEPS` of
    /// them have run, whichever comes first. Running out of cycles is no
    /// error: the machine is then left as it stands, not halted.
    pub fn run(&mut self)
        ensures
            final(self)@ == old(self)@.run(MAX_STEPS as nat),
            final(self)@.well_formed(),
    {
        let mut done: usize = 0;
        while done < MAX_STEPS && !self.halted
            invariant
                done <= MAX_STEPS,
                self@.run((MAX_STEPS - done) as nat) == old(self)@.run(MAX_STEPS as nat),
            decreases MAX_STEPS - done,
        {
            self.step();
            done += 1;
        }
    }
}

} // verus!
