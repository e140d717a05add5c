//! The processor: its state, and the cycle that runs one instruction.

use vstd::prelude::*;

use crate::constants::{
    DISPLAY_HEIGHT, DISPLAY_WIDTH, FONT_SET, GP_REGISTER_SIZE, KEYPAD_SIZE, LAST_INSTRUCTION,
    MAX_ROM_SIZE, MEMORY_SIZE, PROGRAM_START, STACK_SIZE,
};
use crate::error::CpuError;
use crate::handlers;
use crate::instructions::{Instruction, InstructionType};
use crate::machine::{Machine, RNG_SEED};

verus! {

/// How a cycle that met no error ended.
#[derive(Clone, Copy, Debug, PartialEq, Eq)]
pub enum CycleStatus {
    /// The instruction was carried out.
    Completed,
    /// The instruction waits for a key: nothing changed, and the next cycle
    /// meets the same instruction again.
    AwaitingKey,
}

/// The processor and everything it owns.
#[derive(Debug, PartialEq, Eq)]
pub struct Cpu {
    pub memory: [u8; MEMORY_SIZE],
    /// The registers `V0` to `VF`.
    pub gp_reg: [u8; GP_REGISTER_SIZE],
    pub pc: u16,
    /// Number of calls that have not returned: the slots of `stack` below
    /// `sp` are in use.
    pub sp: u16,
    pub stack: [u16; STACK_SIZE],
    pub i_reg: u16,
    pub delay_timer: u8,
    pub sound_timer: u8,
    /// A key is down where its entry is not 0.
    pub keypad: [u8; KEYPAD_SIZE],
    /// The grid by column, then row; a cell is 1 where it is lit.
    pub display_buffer: [[u8; DISPLAY_HEIGHT]; DISPLAY_WIDTH],
    /// Set by every instruction that writes the grid; the host clears it
    /// when it has taken the frame.
    pub draw_flag: bool,
    /// State of the pseudo-random generator; the host may seed it.
    pub rng: u16,
}

impl View for Cpu {
    type V = Machine;

    open spec fn view(&self) -> Machine {
        Machine {
            memory: self.memory@,
            regs: self.gp_reg@,
            index: self.i_reg,
            pc: self.pc,
            stack: self.stack@.subrange(0, self.sp as int),
            delay_timer: self.delay_timer,
            sound_timer: self.sound_timer,
            keypad: self.keypad@,
            display: Seq::new(DISPLAY_WIDTH as nat, |x: int| self.display_buffer@[x]@),
            draw_flag: self.draw_flag,
            rng: self.rng,
        }
    }
}

impl Clone for Cpu {
    fn clone(&self) -> (copy: Cpu)
        ensures
            copy == *self,
    {
        Cpu {
            memory: self.memory,
            gp_reg: self.gp_reg,
            pc: self.pc,
            sp: self.sp,
            stack: self.stack,
            i_reg: self.i_reg,
            delay_timer: self.delay_timer,
            sound_timer: self.sound_timer,
            keypad: self.keypad,
            display_buffer: self.display_buffer,
            draw_flag: self.draw_flag,
            rng: self.rng,
        }
    }
}

impl Cpu {
    /// The stack pointer is within the stack, and the machine is well formed.
    pub open spec fn wf(&self) -> bool {
        self.sp <= STACK_SIZE && self@.wf()
    }

    /// A processor that is about to start the program `rom`.
    pub fn new(rom: &[u8]) -> (cpu: Cpu)
        requires
            rom@.len() <= MAX_ROM_SIZE,
        ensures
            cpu.wf(),
            cpu@ == Machine::boot(rom@),
    {
        let mut memory = [0u8; MEMORY_SIZE];
        let mut i: usize = 0;
        while i < FONT_SET.len()
            invariant
                i <= FONT_SET@.len(),
                forall|a: int| 0 <= a < i ==> memory@[a] == FONT_SET@[a],
                forall|a: int| i <= a < MEMORY_SIZE ==> memory@[a] == 0,
            decreases FONT_SET@.len() - i,
        {
            memory[i] = FONT_SET[i];
            i += 1;
        }
        let rom_start: usize = PROGRAM_START as usize;
        let mut j: usize = 0;
        while j < rom.len()
            invariant
                rom_start == PROGRAM_START,
                j <= rom@.len() <= MAX_ROM_SIZE,
                forall|a: int| 0 <= a < FONT_SET@.len() ==> memory@[a] == FONT_SET@[a],
                forall|a: int| rom_start <= a < rom_start + j ==> memory@[a] == rom@[a - rom_start],
                forall|a: int|
                    FONT_SET@.len() <= a < MEMORY_SIZE && !(rom_start <= a < rom_start + j)
                        ==> memory@[a] == 0,
            decreases rom@.len() - j,
        {
            memory[rom_start + j] = rom[j];
            j += 1;
        }
        let cpu = Cpu {
            memory,
            gp_reg: [0; GP_REGISTER_SIZE],
            pc: PROGRAM_START,
            sp: 0,
            stack: [0; STACK_SIZE],
            i_reg: 0,
            delay_timer: 0,
            sound_timer: 0,
            keypad: [0; KEYPAD_SIZE],
            display_buffer: [[0; DISPLAY_HEIGHT]; DISPLAY_WIDTH],
            draw_flag: false,
            rng: RNG_SEED,
        };
        proof {
            let m = Machine::boot(rom@);
            assert(cpu@.memory =~= m.memory);
            assert(cpu@.regs =~= m.regs);
            assert(cpu@.stack =~= m.stack);
            assert(cpu@.keypad =~= m.keypad);
            assert(cpu@.display =~~= m.display);
        }
        cpu
    }

    /// Fetches the instruction at the program counter; an error where the
    /// two bytes do not lie in memory.
    pub fn fetch(&self) -> (r: Result<Instruction, CpuError>)
        ensures
            r == self@.fetch(),
            r matches Ok(instr) ==> instr.wf(),
    {
        if self.pc > LAST_INSTRUCTION {
            return Err(CpuError::MemoryBounds { address: self.pc });
        }
        let hi = self.memory[self.pc as usize] as u16;
        let lo = self.memory[(self.pc + 1) as usize] as u16;
        assert((hi << 8) | lo == hi * 0x100 + lo) by (bit_vector)
            requires
                hi < 0x100,
                lo < 0x100,
        ;
        Ok(Instruction::new((hi << 8) | lo))
    }

    /// Classifies an instruction; `None` where its word is no instruction.
    pub fn decode(&self, instr: &Instruction) -> (kind: Option<InstructionType>)
        ensures
            kind == instr.kind(),
    {
        match instr.op {
            0x0 => match instr.raw_instr {
                0x00E0 => Some(InstructionType::Cls),
                0x00EE => Some(InstructionType::Ret),
                _ => None,
            },
            0x1 => Some(InstructionType::Jmp),
            0x2 => Some(InstructionType::CallNnn),
            0x3 => Some(InstructionType::SeVxKk),
            0x4 => Some(InstructionType::SneVxKk),
            0x5 => Some(InstructionType::SeVxVy),
            0x6 => Some(InstructionType::LdVxKk),
            0x7 => Some(InstructionType::AddVxKk),
            0x8 => match instr.n {
                0x0 => Some(InstructionType::LdVxVy),
                0x1 => Some(InstructionType::OrVxVy),
                0x2 => Some(InstructionType::AndVxVy),
                0x3 => Some(InstructionType::XorVxVy),
                0x4 => Some(InstructionType::AddVxVy),
                0x5 => Some(InstructionType::SubVxVy),
                0x6 => Some(InstructionType::ShrVxVy),
                0x7 => Some(InstructionType::SubnVxVy),
                0xE => Some(InstructionType::ShlVxVy),
                _ => None,
            },
            0x9 => Some(InstructionType::SneVxVy),
            0xA => Some(InstructionType::LdINnn),
            0xB => Some(InstructionType::JmpV0Nnn),
            0xC => Some(InstructionType::RndVxKk),
            0xD => Some(InstructionType::DrwVxVyN),
            0xE => match instr.kk {
                0x9E => Some(InstructionType::SkpVx),
                0xA1 => Some(InstructionType::SkNpVx),
                _ => None,
            },
            0xF => match instr.kk {
                0x07 => Some(InstructionType::LdVxDt),
                0x0A => Some(InstructionType::LdVxK),
                0x15 => Some(InstructionType::LdDtVx),
                0x18 => Some(InstructionType::LdStVx),
                0x1E => Some(InstructionType::AddIVx),
                0x29 => Some(InstructionType::LdFVx),
                0x33 => Some(InstructionType::LdBVx),
                0x55 => Some(InstructionType::LdIVx),
                0x65 => Some(InstructionType::LdVxI),
                _ => None,
            },
            _ => None,
        }
    }

    /// Carries out `instr` as an instruction of the kind `instr_type`: the
    /// machine becomes what [`Machine::execute`] says, or an error is
    /// returned and nothing has changed.
    pub fn execute(&mut self, instr_type: InstructionType, instr: Instruction) -> (r: Result<
        CycleStatus,
        CpuError,
    >)
        requires
            old(self).wf(),
            instr.wf(),
        ensures
            match old(self)@.execute(instr_type, instr) {
                Ok(m) => final(self)@ == m && final(self).wf() && r == Ok::<
                    CycleStatus,
                    CpuError,
                >(
                    if old(self)@.awaits_key(instr_type) {
                        CycleStatus::AwaitingKey
                    } else {
                        CycleStatus::Completed
                    },
                ),
                Err(e) => r == Err::<CycleStatus, CpuError>(e) && *final(self) == *old(self),
            },
            r == Ok::<CycleStatus, CpuError>(CycleStatus::AwaitingKey) ==> *final(self) == *old(self),
    {
        let done = match instr_type {
            InstructionType::Cls => handlers::cls(self, instr),
            InstructionType::Ret => handlers::ret(self, instr),
            InstructionType::Jmp => handlers::jmp(self, instr),
            InstructionType::CallNnn => handlers::call_nnn(self, instr),
            InstructionType::SeVxKk => handlers::se_vx_kk(self, instr),
            InstructionType::SneVxKk => handlers::sne_vx_kk(self, instr),
            InstructionType::SeVxVy => handlers::se_vx_vy(self, instr),
            InstructionType::LdVxKk => handlers::ld_vx_kk(self, instr),
            InstructionType::AddVxKk => handlers::add_vx_kk(self, instr),
            InstructionType::LdVxVy => handlers::ld_vx_vy(self, instr),
            InstructionType::OrVxVy => handlers::or_vx_vy(self, instr),
            InstructionType::AndVxVy => handlers::and_vx_vy(self, instr),
            InstructionType::XorVxVy => handlers::xor_vx_vy(self, instr),
            InstructionType::AddVxVy => handlers::add_vx_vy(self, instr),
            InstructionType::SubVxVy => handlers::sub_vx_vy(self, instr),
            InstructionType::ShrVxVy => handlers::shr_vx_vy(self, instr),
            InstructionType::SubnVxVy => handlers::subn_vx_vy(self, instr),
            InstructionType::ShlVxVy => handlers::shl_vx_vy(self, instr),
            InstructionType::SneVxVy => handlers::sne_vx_vy(self, instr),
            InstructionType::LdINnn => handlers::ld_i_nnn(self, instr),
            InstructionType::JmpV0Nnn => handlers::jmp_v0_nnn(self, instr),
            InstructionType::RndVxKk => handlers::rnd_vx_kk(self, instr),
            InstructionType::DrwVxVyN => handlers::drw_vx_vy_n(self, instr),
            InstructionType::SkpVx => handlers::skp_vx(self, instr),
            InstructionType::SkNpVx => handlers::sknp_vx(self, instr),
            InstructionType::LdVxDt => handlers::ld_vx_dt(self, instr),
            InstructionType::LdVxK => {
                return handlers::ld_vx_k(self, instr);
            },
            InstructionType::LdDtVx => handlers::ld_dt_vx(self, instr),
            InstructionType::LdStVx => handlers::ld_st_vx(self, instr),
            InstructionType::AddIVx => handlers::add_i_vx(self, instr),
            InstructionType::LdFVx => handlers::ld_f_vx(self, instr),
            InstructionType::LdBVx => handlers::ld_b_vx(self, instr),
            InstructionType::LdIVx => handlers::ld_i_vx(self, instr),
            InstructionType::LdVxI => handlers::ld_vx_i(self, instr),
        };
        match done {
            Ok(()) => Ok(CycleStatus::Completed),
            Err(e) => Err(e),
        }
    }

    /// Runs one cycle: fetches the instruction at the program counter,
    /// classifies it and carries it out. The cycle is all or nothing: on an
    /// error, and while the instruction waits for a key, nothing has changed.
    ///
    /// `MemoryBounds` where the program counter, or an access of the
    /// instruction, runs past the end of memory; `DecodeFailure` where the
    /// word fetched is no instruction; `StackOverflow` and `StackUnderflow`
    /// from calls and returns.
    pub fn run_cycle(&mut self) -> (r: Result<CycleStatus, CpuError>)
        requires
            old(self).wf(),
        ensures
            match old(self)@.cycle() {
                Ok(m) => final(self)@ == m && final(self).wf() && r == Ok::<
                    CycleStatus,
                    CpuError,
                >(
                    if old(self)@.cycle_awaits_key() {
                        CycleStatus::AwaitingKey
                    } else {
                        CycleStatus::Completed
                    },
                ),
                Err(e) => r == Err::<CycleStatus, CpuError>(e) && *final(self) == *old(self),
            },
            r == Ok::<CycleStatus, CpuError>(CycleStatus::AwaitingKey) ==> *final(self) == *old(self),
            old(self)@.fetch() matches Ok(instr) ==> (instr.kind() is None ==> *final(self)
                == *old(self) && r == Err::<CycleStatus, CpuError>(
                CpuError::DecodeFailure { word: instr.raw_instr, address: old(self).pc },
            )),
    {
        let instr = match self.fetch() {
            Ok(instr) => instr,
            Err(e) => {
                return Err(e);
            },
        };
        let instr_type = match self.decode(&instr) {
            Some(kind) => kind,
            None => {
                return Err(CpuError::DecodeFailure { word: instr.raw_instr, address: self.pc });
            },
        };
        self.execute(instr_type, instr)
    }

    /// One tick of the 60 Hz clock, whatever the pace of the cycles: each
    /// timer that is not 0 goes down by one. The host sounds its tone while
    /// `sound_timer` is not 0.
    pub fn tick_timers(&mut self)
        ensures
            final(self)@ == old(self)@.tick(),
            old(self).wf() ==> final(self).wf(),
    {
        if self.delay_timer > 0 {
            self.delay_timer -= 1;
        }
        if self.sound_timer > 0 {
            self.sound_timer -= 1;
        }
    }
}

} // verus!
