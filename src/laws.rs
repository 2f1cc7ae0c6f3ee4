//! Properties of the instruction semantics, load and reset, proved over the
//! machine model that the processor's operations are specified by.
use vstd::prelude::*;

use crate::cpu::{
    inx_spec, lda_spec, load_spec, reset_spec, run_spec, tax_spec, with_pc, MachineState,
    PROGRAM_CAPACITY, PROGRAM_ORIGIN, RESET_VECTOR,
};
use crate::flags::{lemma_flags_for, negative_flag, other_flags, zero_flag};
use crate::memory::{byte_at, lemma_word_round_trip, with_bytes, MEMORY_SIZE};
use crate::opcode::{ExecError, OP_BRK, OP_LDA_IMMEDIATE};

verus! {

/// `LDA v` followed by a halt stops normally with `v` in the accumulator,
/// the Zero flag set exactly when `v` is 0 and the Negative flag set exactly
/// when bit 7 of `v` is set.
pub proof fn lemma_lda_then_halt(s: MachineState, v: u8)
    requires
        s.memory.len() == MEMORY_SIZE,
        s.program_counter < 0xFFFD,
        byte_at(s.memory, s.program_counter) == OP_LDA_IMMEDIATE,
        byte_at(s.memory, (s.program_counter + 1) as u16) == v,
        byte_at(s.memory, (s.program_counter + 2) as u16) == OP_BRK,
    ensures
        run_spec(s).1 == Ok::<(), ExecError>(()),
        run_spec(s).0.register_a == v,
        zero_flag(run_spec(s).0.status) == (v == 0),
        negative_flag(run_spec(s).0.status) == (v & 0x80 != 0),
{
    let t = lda_spec(with_pc(s, (s.program_counter + 2) as u16), v);
    assert(run_spec(s) == run_spec(t));
    assert(run_spec(t) == (with_pc(t, (t.program_counter + 1) as u16), Ok::<(), ExecError>(())));
    lemma_flags_for(s.status, v);
}

/// `LDA 0` followed by a halt sets the Zero flag and clears the Negative flag.
pub proof fn lemma_lda_zero_then_halt(s: MachineState)
    requires
        s.memory.len() == MEMORY_SIZE,
        s.program_counter < 0xFFFD,
        byte_at(s.memory, s.program_counter) == OP_LDA_IMMEDIATE,
        byte_at(s.memory, (s.program_counter + 1) as u16) == 0,
        byte_at(s.memory, (s.program_counter + 2) as u16) == OP_BRK,
    ensures
        run_spec(s).1 == Ok::<(), ExecError>(()),
        zero_flag(run_spec(s).0.status),
        !negative_flag(run_spec(s).0.status),
{
    lemma_lda_then_halt(s, 0);
    assert(0u8 & 0x80 == 0) by (bit_vector);
}

/// TAX copies the accumulator into index X unchanged and applies the flag
/// rule to the new index X; nothing else changes but the flags.
pub proof fn lemma_tax_copies(s: MachineState)
    ensures
        tax_spec(s).register_x == s.register_a,
        tax_spec(s).register_a == s.register_a,
        zero_flag(tax_spec(s).status) == (tax_spec(s).register_x == 0),
        negative_flag(tax_spec(s).status) == (tax_spec(s).register_x & 0x80 != 0),
        other_flags(tax_spec(s).status) == other_flags(s.status),
        tax_spec(s).program_counter == s.program_counter,
        tax_spec(s).memory == s.memory,
{
    lemma_flags_for(s.status, s.register_a);
}

/// INX wraps: from index X = 255 one increment gives 0 with the Zero flag
/// set, a second gives 1 with the Zero flag cleared.
pub proof fn lemma_inx_wraps(s: MachineState)
    requires
        s.register_x == 0xFF,
    ensures
        inx_spec(s).register_x == 0,
        zero_flag(inx_spec(s).status),
        inx_spec(inx_spec(s)).register_x == 1,
        !zero_flag(inx_spec(inx_spec(s)).status),
{
    lemma_flags_for(s.status, 0);
    lemma_flags_for(inx_spec(s).status, 1);
}

/// A second reset with no load in between leaves the state the first one made.
pub proof fn lemma_reset_idempotent(s: MachineState)
    ensures
        reset_spec(reset_spec(s)) == reset_spec(s),
{
}

/// After a load, a reset starts execution at the load origin: the origin
/// written to the reset vector is read back from it.
pub proof fn lemma_load_then_reset(s: MachineState, program: Seq<u8>)
    requires
        s.memory.len() == MEMORY_SIZE,
        program.len() <= PROGRAM_CAPACITY,
    ensures
        reset_spec(load_spec(s, program)).program_counter == PROGRAM_ORIGIN,
{
    lemma_word_round_trip(
        with_bytes(s.memory, PROGRAM_ORIGIN as int, program),
        RESET_VECTOR,
        PROGRAM_ORIGIN,
    );
}

} // verus!
