//! The executable processor: a register file and the memory it owns.

pub use crate::addressing::AddressingMode;
use crate::flags::{bit7, flag_is_set, lemma_with_result_flags, set_flag, Flag};
use crate::halting::{lemma_turns_bounded, TURN_LIMIT};
use crate::machine::{lemma_after_keeps_memory, lemma_turns, CpuError, Machine, RunState};
use crate::memory::{
    is_memory, make_word, read_word, split_word, with_image, with_program, write_word,
    MEMORY_SIZE, PROGRAM_ORIGIN, RESET_VECTOR,
};
use crate::opcode::{decode, Mnemonic};
use vstd::prelude::*;

verus! {

/// A 6502 with its 64 KiB of memory.
pub struct CPU {
    /// Accumulator.
    pub ra: u8,
    /// Index register X.
    pub rx: u8,
    /// Index register Y.
    pub ry: u8,
    /// Status flags, packed as `crate::flags` describes.
    pub status: u8,
    /// Address of the next byte to fetch.
    pub pc: u16,
    /// One byte for each 16-bit address.
    pub memory: [u8; 0x1_0000],
}

impl View for CPU {
    type V = Machine;

    open spec fn view(&self) -> Machine {
        Machine {
            a: self.ra,
            x: self.rx,
            y: self.ry,
            status: self.status,
            pc: self.pc,
            mem: self.memory@,
        }
    }
}

impl CPU {
    /// Memory always covers the whole address space.
    pub proof fn lemma_wf(&self)
        ensures
            self@.wf(),
    {
    }

    /// A processor with every register and every byte of memory zero.
    pub fn new() -> (cpu: Self)
        ensures
            cpu@ == (Machine {
                a: 0,
                x: 0,
                y: 0,
                status: 0,
                pc: 0,
                mem: Seq::new(MEMORY_SIZE as nat, |i: int| 0u8),
            }),
    {
        let cpu = CPU { ra: 0, rx: 0, ry: 0, status: 0, pc: 0, memory: [0u8; 0x1_0000] };
        assert(cpu.memory@ =~= Seq::new(MEMORY_SIZE as nat, |i: int| 0u8));
        cpu
    }

    /// The byte at `addr`.
    pub fn read(&self, addr: u16) -> (data: u8)
        ensures
            data == self@.mem[addr as int],
    {
        self.memory[addr as usize]
    }

    /// Stores `data` at `addr`; nothing else changes.
    pub fn write(&mut self, addr: u16, data: u8)
        ensures
            final(self)@ == (Machine {
                mem: old(self)@.mem.update(addr as int, data),
                ..old(self)@
            }),
    {
        self.memory[addr as usize] = data;
    }

    /// The little-endian word at `pos` and the address after it.
    pub fn read_u16(&self, pos: u16) -> (word: u16)
        ensures
            word == read_word(self@.mem, pos),
    {
        let lo: u8 = self.read(pos);
        let hi: u8 = self.read(pos.wrapping_add(1));
        make_word(lo, hi)
    }

    /// Stores `data` little-endian at `pos` and the address after it;
    /// nothing else changes.
    pub fn write_u16(&mut self, pos: u16, data: u16)
        ensures
            final(self)@ == (Machine { mem: write_word(old(self)@.mem, pos, data), ..old(self)@ }),
    {
        let (lo, hi) = split_word(data);
        self.write(pos, lo);
        self.write(pos.wrapping_add(1), hi);
    }

    /// Resolves `mode` to the address of the operand, taking the program
    /// counter to point at the first operand byte. The one mode without an
    /// operand is refused.
    pub fn get_op_addr(&self, mode: &AddressingMode) -> (addr: Result<u16, CpuError>)
        ensures
            *mode == AddressingMode::NoneAddressing ==> addr == Err::<u16, CpuError>(
                CpuError::InvalidAddressingMode,
            ),
            *mode != AddressingMode::NoneAddressing ==> addr == Ok::<u16, CpuError>(
                self@.effective_address(*mode),
            ),
    {
        match mode {
            AddressingMode::Immediate => Ok(self.pc),
            AddressingMode::ZeroPage => Ok(self.read(self.pc) as u16),
            AddressingMode::Absolute => Ok(self.read_u16(self.pc)),
            AddressingMode::ZeroPage_X => {
                let pos: u8 = self.read(self.pc);
                Ok(pos.wrapping_add(self.rx) as u16)
            },
            AddressingMode::ZeroPage_Y => {
                let pos: u8 = self.read(self.pc);
                Ok(pos.wrapping_add(self.ry) as u16)
            },
            AddressingMode::Absolute_X => {
                let base: u16 = self.read_u16(self.pc);
                Ok(base.wrapping_add(self.rx as u16))
            },
            AddressingMode::Absolute_Y => {
                let base: u16 = self.read_u16(self.pc);
                Ok(base.wrapping_add(self.ry as u16))
            },
            AddressingMode::Indirect_X => {
                let base: u8 = self.read(self.pc);
                let ptr: u8 = base.wrapping_add(self.rx);
                let lo: u8 = self.read(ptr as u16);
                let hi: u8 = self.read(ptr.wrapping_add(1) as u16);
                Ok(make_word(lo, hi))
            },
            AddressingMode::Indirect_Y => {
                let base: u8 = self.read(self.pc);
                let lo: u8 = self.read(base as u16);
                let hi: u8 = self.read(base.wrapping_add(1) as u16);
                let deref_base: u16 = make_word(lo, hi);
                Ok(deref_base.wrapping_add(self.ry as u16))
            },
            AddressingMode::NoneAddressing => Err(CpuError::InvalidAddressingMode),
        }
    }

    /// Brings the Zero and Negative flags in line with `result`; the other
    /// bits of the status byte, and everything else, stay as they are.
    pub fn update_flags(&mut self, result: u8)
        ensures
            final(self)@ == old(self)@.update_flags(result),
            flag_is_set(final(self).status, Flag::Zero) <==> result == 0,
            flag_is_set(final(self).status, Flag::Negative) <==> bit7(result),
            final(self).status & 0b0111_1101 == old(self).status & 0b0111_1101,
    {
        proof {
            lemma_with_result_flags(self.status, result);
        }
        self.status = set_flag(self.status, Flag::Zero, result == 0);
        self.status = set_flag(self.status, Flag::Negative, result & 0b1000_0000 != 0);
    }

    /// LDA: loads the accumulator with the operand that `mode` names, sets
    /// the flags by it and moves the program counter past the operand
    /// bytes. In the mode without an operand nothing is changed.
    pub fn lda(&mut self, mode: &AddressingMode) -> (done: Result<(), CpuError>)
        ensures
            *mode == AddressingMode::NoneAddressing ==> done == Err::<(), CpuError>(
                CpuError::InvalidAddressingMode,
            ) && final(self)@ == old(self)@,
            *mode != AddressingMode::NoneAddressing ==> done == Ok::<(), CpuError>(())
                && final(self)@ == old(self)@.lda(*mode),
            done is Ok ==> final(self).ra == old(self)@.operand(*mode),
            done is Ok ==> (flag_is_set(final(self).status, Flag::Zero) <==> final(self).ra == 0),
            done is Ok ==> (flag_is_set(final(self).status, Flag::Negative) <==> bit7(
                final(self).ra,
            )),
    {
        let addr: u16 = match self.get_op_addr(mode) {
            Ok(addr) => addr,
            Err(e) => { return Err(e); },
        };
        let value: u8 = self.read(addr);
        self.ra = value;
        self.update_flags(value);
        self.pc = self.pc.wrapping_add(mode.operand_len());
        Ok(())
    }

    /// TAX: copies the accumulator to index register X and sets the flags
    /// by the value copied. The accumulator keeps its value.
    pub fn tax(&mut self)
        ensures
            final(self)@ == old(self)@.tax(),
            final(self).rx == old(self).ra,
            final(self).ra == old(self).ra,
    {
        self.rx = self.ra;
        self.update_flags(self.rx);
    }

    /// INX: adds one to index register X, going from 0xFF to 0, and sets
    /// the flags by the new value.
    pub fn inx(&mut self)
        ensures
            final(self)@ == old(self)@.inx(),
            old(self).rx == 0xFF ==> final(self).rx == 0 && flag_is_set(
                final(self).status,
                Flag::Zero,
            ),
            old(self).rx != 0xFF ==> final(self).rx == old(self).rx + 1 && !flag_is_set(
                final(self).status,
                Flag::Zero,
            ),
            flag_is_set(final(self).status, Flag::Negative) <==> bit7(final(self).rx),
    {
        self.rx = self.rx.wrapping_add(1);
        self.update_flags(self.rx);
    }

    /// Clears the registers and the flags and takes the program counter
    /// from the reset vector. Memory is kept.
    pub fn reset(&mut self)
        ensures
            final(self)@ == old(self)@.reset(),
    {
        self.ra = 0;
        self.rx = 0;
        self.ry = 0;
        self.status = 0;
        self.pc = self.read_u16(RESET_VECTOR);
    }

    /// Copies `program` into memory from `PROGRAM_ORIGIN` on and points the
    /// reset vector at it. The registers are not touched.
    pub fn load(&mut self, program: Vec<u8>)
        requires
            program@.len() <= MEMORY_SIZE - PROGRAM_ORIGIN,
        ensures
            final(self)@ == old(self)@.load(program@),
    {
        let ghost start = self@;
        let mut i: usize = 0;
        assert(self.memory@ =~= with_image(start.mem, program@.take(0)));
        while i < program.len()
            invariant
                i <= program@.len() <= MEMORY_SIZE - PROGRAM_ORIGIN,
                self@ == (Machine { mem: with_image(start.mem, program@.take(i as int)), ..start }),
                is_memory(start.mem),
            decreases program@.len() - i,
        {
            self.memory[PROGRAM_ORIGIN as usize + i] = program[i];
            i = i + 1;
            assert(self.memory@ =~= with_image(start.mem, program@.take(i as int)));
        }
        assert(program@.take(i as int) =~= program@);
        self.write_u16(RESET_VECTOR, PROGRAM_ORIGIN);
    }

    /// One turn of the execution loop: fetches the byte at the program
    /// counter, moves past it and carries the instruction out. Says whether
    /// the loop goes on, has halted, or has met a byte that is no opcode.
    pub fn step(&mut self) -> (outcome: Result<RunState, CpuError>)
        ensures
            final(self)@ == old(self)@.step(),
            outcome == old(self)@.step_outcome(),
            outcome != Err::<RunState, CpuError>(CpuError::InvalidAddressingMode),
    {
        let opcode: u8 = self.read(self.pc);
        self.pc = self.pc.wrapping_add(1);
        match decode(opcode) {
            None => Err(CpuError::UnimplementedOpcode),
            Some(entry) => match entry.mnemonic {
                Mnemonic::BRK => Ok(RunState::Halted),
                Mnemonic::LDA => match self.lda(&entry.mode) {
                    Ok(()) => Ok(RunState::Running),
                    Err(e) => Err(e),
                },
                Mnemonic::TAX => {
                    self.tax();
                    Ok(RunState::Running)
                },
                Mnemonic::INX => {
                    self.inx();
                    Ok(RunState::Running)
                },
            },
        }
    }

    /// Whether the execution loop, started in the current state, comes to
    /// an end. It follows the program counter for at most `TURN_LIMIT`
    /// turns; a loop that has not ended by then never does.
    pub fn terminates(&self) -> (ends: bool)
        ensures
            ends == self@.terminates(),
    {
        let mut pc: u16 = self.pc;
        let mut turn: u32 = 0;
        while turn < TURN_LIMIT
            invariant
                turn <= TURN_LIMIT,
                pc == self@.after(turn as nat).pc,
                forall|k: nat| k < turn ==> !(#[trigger] self@.after(k)).stops(),
            decreases TURN_LIMIT - turn,
        {
            proof {
                lemma_after_keeps_memory(self@, turn as nat);
            }
            match decode(self.read(pc)) {
                None => {
                    return true;
                },
                Some(entry) => match entry.mnemonic {
                    Mnemonic::BRK => {
                        return true;
                    },
                    _ => {
                        pc = pc.wrapping_add(1).wrapping_add(entry.mode.operand_len());
                    },
                },
            }
            turn = turn + 1;
        }
        proof {
            if self@.terminates() {
                lemma_turns(self@);
                lemma_turns_bounded(self@);
            }
        }
        false
    }

    /// Runs the execution loop from the current state until it halts or
    /// meets a byte that is no opcode. A caller that cannot show that the
    /// loop ends uses `try_run`, or makes the turns one by one with `step`.
    pub fn run(&mut self) -> (outcome: Result<(), CpuError>)
        requires
            old(self)@.terminates(),
        ensures
            final(self)@ == old(self)@.run(),
            outcome == old(self)@.run_outcome(),
            outcome is Ok <==> old(self)@.after(old(self)@.turns()).byte_at_pc() == 0x00,
            outcome is Err ==> outcome == Err::<(), CpuError>(CpuError::UnimplementedOpcode),
    {
        let ghost start = self@;
        let ghost mut n: nat = 0;
        proof {
            lemma_turns(start);
        }
        loop
            invariant
                start == old(self)@,
                start.stops_after(start.turns()),
                n <= start.turns(),
                self@ == start.after(n),
            decreases start.turns() - n,
        {
            match self.step() {
                Ok(RunState::Running) => {
                    proof {
                        n = n + 1;
                    }
                },
                Ok(RunState::Halted) => {
                    return Ok(());
                },
                Err(e) => {
                    return Err(e);
                },
            }
        }
    }

    /// Runs the execution loop as `run` does where it comes to an end, and
    /// says `None`, leaving the processor as it is, where it never would.
    pub fn try_run(&mut self) -> (outcome: Option<Result<(), CpuError>>)
        ensures
            old(self)@.terminates() ==> outcome == Some(old(self)@.run_outcome()) && final(self)@
                == old(self)@.run(),
            !old(self)@.terminates() ==> outcome is None && final(self)@ == old(self)@,
    {
        if self.terminates() {
            Some(self.run())
        } else {
            None
        }
    }

    /// Loads `program`, resets the processor and runs it. A caller that
    /// cannot show that the program comes to an end calls `load`, `reset`
    /// and `try_run` in turn.
    pub fn load_run(&mut self, program: Vec<u8>) -> (outcome: Result<(), CpuError>)
        requires
            program@.len() <= MEMORY_SIZE - PROGRAM_ORIGIN,
            old(self)@.load(program@).reset().terminates(),
        ensures
            final(self)@ == old(self)@.load(program@).reset().run(),
            outcome == old(self)@.load(program@).reset().run_outcome(),
    {
        self.load(program);
        self.reset();
        self.run()
    }
}

} // verus!
