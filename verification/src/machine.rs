//! The mathematical model of the processor: its state as a plain value and
//! each operation as a function from state to state.

use crate::addressing::AddressingMode;
use crate::flags::with_result_flags;
use crate::memory::{
    is_memory, read_word, read_zero_page_word, with_program, wrap16, wrap8, RESET_VECTOR,
};
use crate::opcode::{spec_decode, Mnemonic};
use vstd::prelude::*;

verus! {

/// The two states of the execution loop.
#[derive(Debug, Clone, Copy, PartialEq, Eq, Structural)]
pub enum RunState {
    Running,
    Halted,
}

/// Why a run or an operation could not go on.
#[derive(Debug, Clone, Copy, PartialEq, Eq, Structural)]
pub enum CpuError {
    /// The byte fetched as an opcode has no entry in the opcode table.
    UnimplementedOpcode,
    /// An operand address was asked for in a mode that has no operand.
    InvalidAddressingMode,
}

/// Registers and memory at one instant.
pub struct Machine {
    pub a: u8,
    pub x: u8,
    pub y: u8,
    pub status: u8,
    pub pc: u16,
    pub mem: Seq<u8>,
}

impl Machine {
    /// The memory covers the whole address space, so that the program
    /// counter, like every other address, points into it.
    pub open spec fn wf(self) -> bool {
        is_memory(self.mem)
    }

    /// The byte at the program counter.
    pub open spec fn byte_at_pc(self) -> u8 {
        self.mem[self.pc as int]
    }

    /// The address that an instruction in `mode` works on, when the program
    /// counter points at its first operand byte.
    pub open spec fn effective_address(self, mode: AddressingMode) -> u16
        recommends
            mode != AddressingMode::NoneAddressing,
    {
        match mode {
            AddressingMode::Immediate => self.pc,
            AddressingMode::ZeroPage => self.byte_at_pc() as u16,
            AddressingMode::ZeroPage_X => wrap8(self.byte_at_pc() + self.x) as u16,
            AddressingMode::ZeroPage_Y => wrap8(self.byte_at_pc() + self.y) as u16,
            AddressingMode::Absolute => read_word(self.mem, self.pc),
            AddressingMode::Absolute_X => wrap16(read_word(self.mem, self.pc) + self.x),
            AddressingMode::Absolute_Y => wrap16(read_word(self.mem, self.pc) + self.y),
            AddressingMode::Indirect_X => read_zero_page_word(
                self.mem,
                wrap8(self.byte_at_pc() + self.x),
            ),
            AddressingMode::Indirect_Y => wrap16(
                read_zero_page_word(self.mem, self.byte_at_pc()) + self.y,
            ),
            AddressingMode::NoneAddressing => self.pc,
        }
    }

    /// The byte that an instruction in `mode` works on.
    pub open spec fn operand(self, mode: AddressingMode) -> u8
        recommends
            mode != AddressingMode::NoneAddressing,
    {
        self.mem[self.effective_address(mode) as int]
    }

    /// The status byte brought in line with `result`, the rest unchanged.
    pub open spec fn update_flags(self, result: u8) -> Machine {
        Machine { status: with_result_flags(self.status, result), ..self }
    }

    /// LDA: the operand goes to the accumulator, the flags follow it, and
    /// the program counter moves past the operand bytes.
    pub open spec fn lda(self, mode: AddressingMode) -> Machine
        recommends
            mode != AddressingMode::NoneAddressing,
    {
        let value = self.operand(mode);
        Machine {
            a: value,
            status: with_result_flags(self.status, value),
            pc: wrap16(self.pc + mode.operand_len()),
            ..self
        }
    }

    /// TAX: index register X takes the accumulator's value, the flags follow.
    pub open spec fn tax(self) -> Machine {
        Machine { x: self.a, status: with_result_flags(self.status, self.a), ..self }
    }

    /// INX: index register X goes up by one, from 0xFF to 0; the flags
    /// follow.
    pub open spec fn inx(self) -> Machine {
        let x = wrap8(self.x + 1);
        Machine { x, status: with_result_flags(self.status, x), ..self }
    }

    /// Reset: registers and flags cleared, the program counter taken from
    /// the reset vector, memory kept.
    pub open spec fn reset(self) -> Machine {
        Machine {
            a: 0,
            x: 0,
            y: 0,
            status: 0,
            pc: read_word(self.mem, RESET_VECTOR),
            mem: self.mem,
        }
    }

    /// Program load: only memory changes.
    pub open spec fn load(self, program: Seq<u8>) -> Machine {
        Machine { mem: with_program(self.mem, program), ..self }
    }

    /// The state with the program counter moved past the opcode byte.
    pub open spec fn fetched(self) -> Machine {
        Machine { pc: wrap16(self.pc + 1), ..self }
    }

    /// One turn of the execution loop: fetch the opcode, move past it,
    /// carry the instruction out. A halt and an unimplemented opcode change
    /// nothing but the program counter.
    pub open spec fn step(self) -> Machine {
        match spec_decode(self.byte_at_pc()) {
            Some(entry) => match entry.mnemonic {
                Mnemonic::BRK => self.fetched(),
                Mnemonic::LDA => self.fetched().lda(entry.mode),
                Mnemonic::TAX => self.fetched().tax(),
                Mnemonic::INX => self.fetched().inx(),
            },
            None => self.fetched(),
        }
    }

    /// What one turn of the loop reports: whether the loop goes on, has
    /// halted, or has met a byte that is no opcode.
    pub open spec fn step_outcome(self) -> Result<RunState, CpuError> {
        match spec_decode(self.byte_at_pc()) {
            Some(entry) => match entry.mnemonic {
                Mnemonic::BRK => Ok(RunState::Halted),
                _ => Ok(RunState::Running),
            },
            None => Err(CpuError::UnimplementedOpcode),
        }
    }

    /// Whether the next turn of the loop is its last.
    pub open spec fn stops(self) -> bool {
        self.step_outcome() != Ok::<RunState, CpuError>(RunState::Running)
    }

    /// The state after `n` turns of the loop.
    pub open spec fn after(self, n: nat) -> Machine
        decreases n,
    {
        if n == 0 {
            self
        } else {
            self.after((n - 1) as nat).step()
        }
    }

    /// The loop started in this state makes `n` turns that go on and then
    /// one that is its last.
    pub open spec fn stops_after(self, n: nat) -> bool {
        &&& self.after(n).stops()
        &&& forall|k: nat| k < n ==> !(#[trigger] self.after(k)).stops()
    }

    /// The loop started in this state comes to an end.
    pub open spec fn terminates(self) -> bool {
        exists|n: nat| (#[trigger] self.after(n)).stops()
    }

    /// The number of turns that go on before the last one.
    pub open spec fn turns(self) -> nat
        recommends
            self.terminates(),
    {
        choose|n: nat| self.stops_after(n)
    }

    /// The state in which the loop leaves the machine.
    pub open spec fn run(self) -> Machine
        recommends
            self.terminates(),
    {
        self.after(self.turns()).step()
    }

    /// How the loop ends: with a halt, or on a byte that is no opcode.
    pub open spec fn run_outcome(self) -> Result<(), CpuError>
        recommends
            self.terminates(),
    {
        match self.after(self.turns()).step_outcome() {
            Err(e) => Err(e),
            Ok(_) => Ok(()),
        }
    }
}

/// A turn of the loop writes neither to memory nor to index register Y.
pub proof fn lemma_step_keeps_memory(s: Machine)
    ensures
        s.step().mem == s.mem,
        s.step().y == s.y,
        s.wf() ==> s.step().wf(),
{
}

/// Memory is the same at every turn of the loop.
pub proof fn lemma_after_keeps_memory(s: Machine, n: nat)
    ensures
        s.after(n).mem == s.mem,
        s.wf() ==> s.after(n).wf(),
    decreases n,
{
    if n > 0 {
        lemma_after_keeps_memory(s, (n - 1) as nat);
        lemma_step_keeps_memory(s.after((n - 1) as nat));
    }
}

/// Among the turns at which the loop could end there is a first.
proof fn lemma_first_stop(s: Machine, n: nat) -> (first: nat)
    requires
        s.after(n).stops(),
    ensures
        first <= n,
        s.stops_after(first),
    decreases n,
{
    if exists|k: nat| k < n && (#[trigger] s.after(k)).stops() {
        let k = choose|k: nat| k < n && (#[trigger] s.after(k)).stops();
        lemma_first_stop(s, k)
    } else {
        n
    }
}

/// The turn at which the loop ends is determined by the state it starts in.
pub proof fn lemma_stops_after_unique(s: Machine, n: nat, m: nat)
    requires
        s.stops_after(n),
        s.stops_after(m),
    ensures
        n == m,
{
    if n < m {
        assert(!s.after(n).stops());
    } else if m < n {
        assert(!s.after(m).stops());
    }
}

/// A loop that comes to an end does so after `turns()` turns, and after no
/// other number of them.
pub proof fn lemma_turns(s: Machine)
    requires
        s.terminates(),
    ensures
        s.stops_after(s.turns()),
        forall|n: nat| s.stops_after(n) ==> n == s.turns(),
{
    let n = choose|n: nat| (#[trigger] s.after(n)).stops();
    let first = lemma_first_stop(s, n);
    assert forall|n: nat| s.stops_after(n) implies n == s.turns() by {
        lemma_stops_after_unique(s, n, s.turns());
    }
}

/// To know the result of a run it is enough to exhibit the turn at which
/// the loop ends.
pub proof fn lemma_run_by_turns(s: Machine, n: nat)
    requires
        s.stops_after(n),
    ensures
        s.terminates(),
        s.turns() == n,
        s.run() == s.after(n).step(),
{
    assert(s.after(n).stops());
    lemma_turns(s);
}

} // verus!
