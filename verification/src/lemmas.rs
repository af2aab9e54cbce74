//! What holds of every execute cycle and of every run, proved from the
//! definitions of the machine.

use crate::codec::Operation;
use crate::machine::{wrap, Machine, MAX_STEPS};
use vstd::prelude::*;

verus! {

/// An execute cycle keeps the machine well formed.
pub proof fn lemma_step_well_formed(s: Machine)
    requires
        s.well_formed(),
    ensures
        s.step().well_formed(),
{
}

/// Addition wraps modulo 2^16 and does not care about the order of its
/// inputs: two machines about to add, each holding the other's inputs
/// swapped, end with the same output register.
pub proof fn lemma_add_commutes(s: Machine, t: Machine)
    requires
        s.instruction().operation == Operation::Add,
        t.instruction().operation == Operation::Add,
        s.input(0) == t.input(1),
        s.input(1) == t.input(0),
    ensures
        s.step().reg_out == (s.input(0) + s.input(1)) % 0x10000,
        s.step().reg_out == t.step().reg_out,
{
}

/// A conditional jump whose input 1 is zero sets the program counter to
/// input 0, whatever the instruction's length.
pub proof fn lemma_jump_taken(s: Machine)
    requires
        s.instruction().operation == Operation::JumpIfZero,
        s.input(1) == 0,
    ensures
        s.step().pc == s.input(0),
{
}

/// A conditional jump whose input 1 is not zero leaves the program counter
/// where the fetches put it: past the instruction word, the write address
/// where there is one, and the operands.
pub proof fn lemma_jump_not_taken(s: Machine)
    requires
        s.instruction().operation == Operation::JumpIfZero,
        s.input(1) != 0,
    ensures
        s.step().pc == wrap(
            s.pc + 1 + (if s.instruction().write_addr {
                1int
            } else {
                0
            }) + s.instruction().argc,
        ),
{
}

/// Every instruction but a taken jump leaves the program counter past its
/// own words, and no cycle moves it anywhere else.
pub proof fn lemma_pc_after_step(s: Machine)
    ensures
        s.step().pc == if s.instruction().operation == Operation::JumpIfZero && s.input(1) == 0 {
            s.input(0)
        } else {
            wrap(s.pc + s.header_len() + s.instruction().argc)
        },
{
}

/// Indirect read: when the flag of input slot 0 is set and the slot holds
/// address `a` after the operand fetch, the operation works on the word `v`
/// stored at `a`, not on `a`.
pub proof fn lemma_indirect_read(s: Machine, a: u16, v: u16)
    requires
        s.well_formed(),
        s.instruction().read_addr[0],
        s.fetched(0) == a,
        s.memory[a as int] == v,
    ensures
        s.input(0) == v,
        s.step().reg_in[0] == v,
        s.instruction().operation == Operation::Copy ==> s.step().reg_out == v,
        s.instruction().operation == Operation::Add ==> s.step().reg_out == wrap(v + s.input(1)),
{
}

/// Input slot 1 is read through in the same way, and input slot 2 never is.
pub proof fn lemma_indirect_read_other_slots(s: Machine)
    requires
        s.well_formed(),
    ensures
        s.instruction().read_addr[1] ==> s.input(1) == s.memory[s.fetched(1) as int],
        !s.instruction().read_addr[1] ==> s.input(1) == s.fetched(1),
        !s.instruction().read_addr[0] ==> s.input(0) == s.fetched(0),
        s.input(2) == s.fetched(2),
{
}

/// An input register for which the instruction has no operand keeps the
/// value that the cycle before left in it, unless it is read through.
pub proof fn lemma_stale_input(s: Machine, slot: int)
    requires
        s.well_formed(),
        s.instruction().argc <= slot < 3,
    ensures
        s.fetched(slot) == s.reg_in[slot],
        !(slot < 2 && s.instruction().read_addr[slot]) ==> s.step().reg_in[slot] == s.reg_in[slot],
{
}

/// Indirect write: an instruction with the write flag stores the output
/// register, as the operation left it, at the address `w` fetched after the
/// instruction word, and changes no other word of memory.
pub proof fn lemma_indirect_write(s: Machine, w: u16)
    requires
        s.well_formed(),
        s.instruction().write_addr,
        s.memory[wrap(s.pc + 1) as int] == w,
    ensures
        s.step().memory[w as int] == s.step().reg_out,
        forall|a: int| 0 <= a < s.memory.len() && a != w ==> s.step().memory[a] == s.memory[a],
        s.step().memory == s.memory.update(w as int, s.step().reg_out),
{
}

/// An instruction without the write flag leaves all of memory as it was.
pub proof fn lemma_no_write(s: Machine)
    requires
        !s.instruction().write_addr,
    ensures
        s.step().memory == s.memory,
{
}

/// Only a halt instruction halts the machine, and nothing restarts it.
pub proof fn lemma_halting(s: Machine)
    ensures
        s.step().halted <==> s.halted || s.instruction().operation == Operation::Halt,
{
}

/// Only a poke instruction emits, and it emits the low byte of input 1 as
/// one character after all that was emitted before.
pub proof fn lemma_emission(s: Machine)
    ensures
        s.instruction().operation == Operation::Poke ==> s.step().output == s.output.push(
            (s.input(1) % 256) as u8,
        ),
        s.instruction().operation != Operation::Poke ==> s.step().output == s.output,
{
}

/// Taking one cycle and then `n` more is taking `n + 1` cycles.
pub proof fn lemma_steps_shift(s: Machine, n: nat)
    ensures
        s.step().steps(n) == s.steps(n + 1),
    decreases n,
{
    if n == 0 {
        assert(s.steps(0) == s);
        assert(s.steps(1) == s.steps(0).step());
    } else {
        lemma_steps_shift(s, (n - 1) as nat);
        assert(s.step().steps(n) == s.step().steps((n - 1) as nat).step());
        assert(s.steps(n + 1) == s.steps(n).step());
    }
}

/// Any number of cycles keeps the machine well formed.
pub proof fn lemma_steps_well_formed(s: Machine, n: nat)
    requires
        s.well_formed(),
    ensures
        s.steps(n).well_formed(),
    decreases n,
{
    if n > 0 {
        lemma_steps_well_formed(s, (n - 1) as nat);
    }
}

/// A run is a number of cycles in a row: as many as `run_len` says, never
/// more than the budget. No cycle starts on a halted machine, and the run
/// stops short of its budget only on a halted machine.
pub proof fn lemma_run_is_steps(s: Machine, budget: nat)
    ensures
        s.run(budget) == s.steps(s.run_len(budget)),
        s.run_len(budget) <= budget,
        s.run_len(budget) < budget ==> s.run(budget).halted,
        forall|k: nat| k < s.run_len(budget) ==> !(#[trigger] s.steps(k)).halted,
    decreases budget,
{
    if !s.halted && budget > 0 {
        let rest = (budget - 1) as nat;
        lemma_run_is_steps(s.step(), rest);
        lemma_steps_shift(s, s.step().run_len(rest));
        assert forall|k: nat| k < s.run_len(budget) implies !(#[trigger] s.steps(k)).halted by {
            if k > 0 {
                lemma_steps_shift(s, (k - 1) as nat);
            }
        }
    }
}

/// Emission is append-only: whatever was emitted before a run is still
/// there after it, in the same order, in front of what the run emitted,
/// which is at most one character per cycle.
pub proof fn lemma_run_extends_output(s: Machine, budget: nat)
    ensures
        s.output.is_prefix_of(s.run(budget).output),
        s.run(budget).output.len() <= s.output.len() + s.run_len(budget),
    decreases budget,
{
    if !s.halted && budget > 0 {
        lemma_run_extends_output(s.step(), (budget - 1) as nat);
        assert(s.output.is_prefix_of(s.step().output));
    }
}

/// A halted machine does not run: the run leaves it exactly as it is.
pub proof fn lemma_halted_is_terminal(s: Machine, budget: nat)
    requires
        s.halted,
    ensures
        s.run(budget) == s,
        s.run_len(budget) == 0,
{
}

/// A run that meets no halt instruction uses up its whole budget: it takes
/// exactly `budget` cycles and leaves the machine not halted.
pub proof fn lemma_run_without_halt(s: Machine, budget: nat)
    requires
        !s.halted,
        forall|k: nat| k < budget ==> (#[trigger] s.steps(k)).instruction().operation != Operation::Halt,
    ensures
        s.run_len(budget) == budget,
        s.run(budget) == s.steps(budget),
        !s.run(budget).halted,
    decreases budget,
{
    if budget > 0 {
        let rest = (budget - 1) as nat;
        assert(s.steps(0) == s);
        assert forall|k: nat| k < rest implies (#[trigger] s.step().steps(k)).instruction().operation
            != Operation::Halt by {
            lemma_steps_shift(s, k);
            assert(s.steps(k + 1).instruction().operation != Operation::Halt);
        }
        lemma_run_without_halt(s.step(), rest);
        lemma_steps_shift(s, rest);
    }
}

/// The run of the processor, which has a budget of `MAX_STEPS` cycles, on a
/// program that never executes a halt instruction: it ends after exactly
/// that many cycles, not halted.
pub proof fn lemma_run_hits_cap(s: Machine)
    requires
        !s.halted,
        forall|k: nat|
            k < MAX_STEPS ==> (#[trigger] s.steps(k)).instruction().operation != Operation::Halt,
    ensures
        s.run_len(MAX_STEPS as nat) == 100,
        s.run(MAX_STEPS as nat) == s.steps(100),
        !s.run(MAX_STEPS as nat).halted,
{
    lemma_run_without_halt(s, MAX_STEPS as nat);
}

} // verus!
