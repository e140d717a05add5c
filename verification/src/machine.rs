//! The machine as a mathematical value, and what each instruction makes of it.
//!
//! [`Machine`] is the view of a [`Cpu`](crate::cpu::Cpu). Every instruction is
//! a function from a machine to the machine after it, or to the error on which
//! it stops; [`Machine::cycle`] is one whole fetch, decode and execute.

use vstd::prelude::*;

use crate::constants::{
    DISPLAY_HEIGHT, DISPLAY_WIDTH, FONT_SET, FONT_START, GLYPH_SIZE, GP_REGISTER_SIZE,
    KEYPAD_SIZE, LAST_INSTRUCTION, MEMORY_SIZE, PROGRAM_START, STACK_SIZE,
};
use crate::error::CpuError;
use crate::instructions::{Instruction, InstructionType};

verus! {

/// State of the pseudo-random generator in a machine that was just built.
pub const RNG_SEED: u16 = 0xACE1;

/// The state that follows `state` in the pseudo-random generator: a linear
/// congruential step modulo 2^16.
pub open spec fn next_random(state: u16) -> u16 {
    ((state * 25173 + 13849) % 0x10000) as u16
}

/// The byte that a generator state yields: its high byte.
pub open spec fn random_byte(state: u16) -> u8 {
    (state / 0x100) as u8
}

/// Whether bit `bit` of a sprite row is set, `bit` 0 being the leftmost
/// pixel, which is the most significant bit.
pub open spec fn sprite_bit(row: u8, bit: u8) -> bool {
    row & (0x80u8 >> bit) != 0
}

/// Whether a sprite drawn with its top left corner at column `vx`, row `vy`
/// has a set pixel on the cell in column `cx`, row `cy`. Columns wrap at the
/// width of the grid and rows at its height.
pub open spec fn sprite_hits(sprite: Seq<u8>, vx: u8, vy: u8, cx: int, cy: int) -> bool {
    let dx = (cx - vx) % (DISPLAY_WIDTH as int);
    let dy = (cy - vy) % (DISPLAY_HEIGHT as int);
    dx < 8 && dy < sprite.len() && sprite_bit(sprite[dy], dx as u8)
}

/// The grid after a sprite is drawn: every cell under a set pixel of the
/// sprite is inverted, every other cell is kept.
pub open spec fn drawn(display: Seq<Seq<u8>>, sprite: Seq<u8>, vx: u8, vy: u8) -> Seq<Seq<u8>> {
    Seq::new(
        DISPLAY_WIDTH as nat,
        |cx: int|
            Seq::new(
                DISPLAY_HEIGHT as nat,
                |cy: int|
                    if sprite_hits(sprite, vx, vy, cx, cy) {
                        display[cx][cy] ^ 1
                    } else {
                        display[cx][cy]
                    },
            ),
    )
}

/// Whether drawing the sprite turns a lit cell off.
pub open spec fn collides(display: Seq<Seq<u8>>, sprite: Seq<u8>, vx: u8, vy: u8) -> bool {
    exists|cx: int, cy: int|
        0 <= cx < DISPLAY_WIDTH && 0 <= cy < DISPLAY_HEIGHT && sprite_hits(sprite, vx, vy, cx, cy)
            && display[cx][cy] == 1
}

/// The grid with every cell off.
pub open spec fn blank_display() -> Seq<Seq<u8>> {
    Seq::new(DISPLAY_WIDTH as nat, |cx: int| Seq::new(DISPLAY_HEIGHT as nat, |cy: int| 0u8))
}

/// The lowest key at or above `from` that is down, if any.
pub open spec fn lowest_key_down(keypad: Seq<u8>, from: int) -> Option<u8>
    decreases keypad.len() - from,
{
    if from < 0 || from >= keypad.len() {
        None
    } else if keypad[from] != 0 {
        Some(from as u8)
    } else {
        lowest_key_down(keypad, from + 1)
    }
}

/// The whole state of the machine.
#[verifier::ext_equal]
pub struct Machine {
    /// The 4096 bytes of memory.
    pub memory: Seq<u8>,
    /// The registers `V0` to `VF`.
    pub regs: Seq<u8>,
    /// The index register `I`.
    pub index: u16,
    /// The program counter.
    pub pc: u16,
    /// The return addresses of the calls that have not returned, the
    /// innermost last. Each is the address of the call instruction.
    pub stack: Seq<u16>,
    /// The delay timer.
    pub delay_timer: u8,
    /// The sound timer.
    pub sound_timer: u8,
    /// The keys `0` to `F`: a key is down where its entry is not 0.
    pub keypad: Seq<u8>,
    /// The grid by column, then row: `display[x][y]` is 1 where the cell is lit.
    pub display: Seq<Seq<u8>>,
    /// Whether the grid was written since the host last took a frame.
    pub draw_flag: bool,
    /// The state of the pseudo-random generator.
    pub rng: u16,
}

impl Machine {
    /// The sizes are those of the machine, no more calls are open than the
    /// stack holds, every return address is that of an instruction in
    /// memory, and every cell of the grid is 0 or 1.
    pub open spec fn wf(self) -> bool {
        &&& self.memory.len() == MEMORY_SIZE
        &&& self.regs.len() == GP_REGISTER_SIZE
        &&& self.stack.len() <= STACK_SIZE
        &&& forall|i: int| 0 <= i < self.stack.len() ==> self.stack[i] <= LAST_INSTRUCTION
        &&& self.keypad.len() == KEYPAD_SIZE
        &&& self.display.len() == DISPLAY_WIDTH
        &&& forall|x: int| 0 <= x < DISPLAY_WIDTH ==> (#[trigger] self.display[x]).len() == DISPLAY_HEIGHT
        &&& forall|x: int, y: int|
            0 <= x < DISPLAY_WIDTH && 0 <= y < DISPLAY_HEIGHT ==> #[trigger] self.display[x][y] <= 1
    }

    /// The machine that starts the program `rom`: the font at the bottom of
    /// memory, the program at `PROGRAM_START`, everything else zero.
    pub open spec fn boot(rom: Seq<u8>) -> Machine {
        Machine {
            memory: Seq::new(
                MEMORY_SIZE as nat,
                |a: int|
                    if a < FONT_SET@.len() {
                        FONT_SET@[a]
                    } else if PROGRAM_START <= a < PROGRAM_START + rom.len() {
                        rom[a - PROGRAM_START]
                    } else {
                        0u8
                    },
            ),
            regs: Seq::new(GP_REGISTER_SIZE as nat, |i: int| 0u8),
            index: 0,
            pc: PROGRAM_START,
            stack: Seq::empty(),
            delay_timer: 0,
            sound_timer: 0,
            keypad: Seq::new(KEYPAD_SIZE as nat, |i: int| 0u8),
            display: blank_display(),
            draw_flag: false,
            rng: RNG_SEED,
        }
    }

    /// The value of the register that `instr.x` selects.
    pub open spec fn vx(self, instr: Instruction) -> u8 {
        self.regs[instr.x as int]
    }

    /// The value of the register that `instr.y` selects.
    pub open spec fn vy(self, instr: Instruction) -> u8 {
        self.regs[instr.y as int]
    }

    /// The registers with `value` in the register `x` and, written after it,
    /// `flag` in `VF`.
    pub open spec fn flagged(self, x: u8, value: u8, flag: u8) -> Seq<u8> {
        self.regs.update(x as int, value).update(0xF, flag)
    }

    /// The program counter moved on by `by` bytes. The instruction that is
    /// being carried out lies at the program counter, so this is an error
    /// where no instruction fits there.
    pub open spec fn advance(self, by: int) -> Result<Machine, CpuError> {
        if self.pc <= LAST_INSTRUCTION {
            Ok(Machine { pc: (self.pc + by) as u16, ..self })
        } else {
            Err(CpuError::MemoryBounds { address: self.pc })
        }
    }

    /// Steps over the next instruction where `skip` holds.
    pub open spec fn skip_if(self, skip: bool) -> Result<Machine, CpuError> {
        self.advance(
            if skip {
                4
            } else {
                2
            },
        )
    }

    /// `00E0`: every cell off, a redraw asked for.
    pub open spec fn cls(self) -> Result<Machine, CpuError> {
        Machine { display: blank_display(), draw_flag: true, ..self }.advance(2)
    }

    /// `00EE`: back to the innermost open call, and past it.
    pub open spec fn ret(self) -> Result<Machine, CpuError> {
        if self.stack.len() == 0 {
            Err(CpuError::StackUnderflow { address: self.pc })
        } else {
            Ok(Machine { pc: (self.stack.last() + 2) as u16, stack: self.stack.drop_last(), ..self })
        }
    }

    /// `1nnn`.
    pub open spec fn jmp(self, instr: Instruction) -> Result<Machine, CpuError> {
        Ok(Machine { pc: instr.nnn, ..self })
    }

    /// `2nnn`: the address of the call is kept, the program counter moves to
    /// the subroutine.
    pub open spec fn call_nnn(self, instr: Instruction) -> Result<Machine, CpuError> {
        if self.pc > LAST_INSTRUCTION {
            Err(CpuError::MemoryBounds { address: self.pc })
        } else if self.stack.len() >= STACK_SIZE {
            Err(CpuError::StackOverflow { address: self.pc })
        } else {
            Ok(Machine { pc: instr.nnn, stack: self.stack.push(self.pc), ..self })
        }
    }

    /// `3xkk`.
    pub open spec fn se_vx_kk(self, instr: Instruction) -> Result<Machine, CpuError> {
        self.skip_if(self.vx(instr) == instr.kk)
    }

    /// `4xkk`.
    pub open spec fn sne_vx_kk(self, instr: Instruction) -> Result<Machine, CpuError> {
        self.skip_if(self.vx(instr) != instr.kk)
    }

    /// `5xy_`.
    pub open spec fn se_vx_vy(self, instr: Instruction) -> Result<Machine, CpuError> {
        self.skip_if(self.vx(instr) == self.vy(instr))
    }

    /// `9xy_`.
    pub open spec fn sne_vx_vy(self, instr: Instruction) -> Result<Machine, CpuError> {
        self.skip_if(self.vx(instr) != self.vy(instr))
    }

    /// The register `instr.x` set to `value`, and on to the next instruction.
    pub open spec fn set_vx(self, instr: Instruction, value: u8) -> Result<Machine, CpuError> {
        Machine { regs: self.regs.update(instr.x as int, value), ..self }.advance(2)
    }

    /// The register `instr.x` set to `value`, then `VF` to `flag`, and on to
    /// the next instruction.
    pub open spec fn set_vx_vf(self, instr: Instruction, value: u8, flag: u8) -> Result<
        Machine,
        CpuError,
    > {
        Machine { regs: self.flagged(instr.x, value, flag), ..self }.advance(2)
    }

    /// `6xkk`.
    pub open spec fn ld_vx_kk(self, instr: Instruction) -> Result<Machine, CpuError> {
        self.set_vx(instr, instr.kk)
    }

    /// `7xkk`: the sum modulo 256; `VF` is not a flag here.
    pub open spec fn add_vx_kk(self, instr: Instruction) -> Result<Machine, CpuError> {
        self.set_vx(instr, ((self.vx(instr) + instr.kk) % 256) as u8)
    }

    /// `8xy0`.
    pub open spec fn ld_vx_vy(self, instr: Instruction) -> Result<Machine, CpuError> {
        self.set_vx(instr, self.vy(instr))
    }

    /// `8xy1`.
    pub open spec fn or_vx_vy(self, instr: Instruction) -> Result<Machine, CpuError> {
        self.set_vx(instr, self.vx(instr) | self.vy(instr))
    }

    /// `8xy2`.
    pub open spec fn and_vx_vy(self, instr: Instruction) -> Result<Machine, CpuError> {
        self.set_vx(instr, self.vx(instr) & self.vy(instr))
    }

    /// `8xy3`.
    pub open spec fn xor_vx_vy(self, instr: Instruction) -> Result<Machine, CpuError> {
        self.set_vx(instr, self.vx(instr) ^ self.vy(instr))
    }

    /// `8xy4`: the sum modulo 256; `VF` is 1 where the sum is over 255.
    pub open spec fn add_vx_vy(self, instr: Instruction) -> Result<Machine, CpuError> {
        let sum = self.vx(instr) + self.vy(instr);
        self.set_vx_vf(
            instr,
            (sum % 256) as u8,
            if sum > 255 {
                1
            } else {
                0
            },
        )
    }

    /// `8xy5`: `Vx - Vy` modulo 256; `VF` is 1 where nothing is borrowed,
    /// that is where `Vx >= Vy`.
    pub open spec fn sub_vx_vy(self, instr: Instruction) -> Result<Machine, CpuError> {
        self.set_vx_vf(
            instr,
            ((self.vx(instr) - self.vy(instr)) % 256) as u8,
            if self.vx(instr) >= self.vy(instr) {
                1
            } else {
                0
            },
        )
    }

    /// `8xy6`: `Vx` halved; `VF` is the bit that falls out.
    pub open spec fn shr_vx_vy(self, instr: Instruction) -> Result<Machine, CpuError> {
        self.set_vx_vf(instr, self.vx(instr) / 2, self.vx(instr) % 2)
    }

    /// `8xy7`: `Vy - Vx` modulo 256; `VF` is 1 where nothing is borrowed,
    /// that is where `Vy >= Vx`.
    pub open spec fn subn_vx_vy(self, instr: Instruction) -> Result<Machine, CpuError> {
        self.set_vx_vf(
            instr,
            ((self.vy(instr) - self.vx(instr)) % 256) as u8,
            if self.vy(instr) >= self.vx(instr) {
                1
            } else {
                0
            },
        )
    }

    /// `8xyE`: `Vx` doubled modulo 256; `VF` is the bit that falls out.
    pub open spec fn shl_vx_vy(self, instr: Instruction) -> Result<Machine, CpuError> {
        self.set_vx_vf(instr, ((self.vx(instr) * 2) % 256) as u8, self.vx(instr) / 128)
    }

    /// `Annn`.
    pub open spec fn ld_i_nnn(self, instr: Instruction) -> Result<Machine, CpuError> {
        Machine { index: instr.nnn, ..self }.advance(2)
    }

    /// `Bnnn`.
    pub open spec fn jmp_v0_nnn(self, instr: Instruction) -> Result<Machine, CpuError> {
        Ok(Machine { pc: (instr.nnn + self.regs[0]) as u16, ..self })
    }

    /// `Cxkk`: the generator steps once; `Vx` is its byte masked with `kk`.
    pub open spec fn rnd_vx_kk(self, instr: Instruction) -> Result<Machine, CpuError> {
        let rng = next_random(self.rng);
        Machine {
            rng,
            regs: self.regs.update(instr.x as int, random_byte(rng) & instr.kk),
            ..self
        }.advance(2)
    }

    /// The `rows` bytes of memory from `I` on.
    pub open spec fn sprite(self, rows: u8) -> Seq<u8> {
        self.memory.subrange(self.index as int, self.index + rows)
    }

    /// `Dxyn`: the sprite of `n` rows at `I` is drawn at column `Vx`, row
    /// `Vy`; `VF` is 1 where that turns a lit cell off, else 0; a redraw is
    /// asked for. An error where the sprite runs past the end of memory.
    pub open spec fn drw_vx_vy_n(self, instr: Instruction) -> Result<Machine, CpuError> {
        if self.pc > LAST_INSTRUCTION {
            Err(CpuError::MemoryBounds { address: self.pc })
        } else if self.index + instr.n > MEMORY_SIZE {
            Err(CpuError::MemoryBounds { address: self.index })
        } else {
            let sprite = self.sprite(instr.n);
            Machine {
                display: drawn(self.display, sprite, self.vx(instr), self.vy(instr)),
                regs: self.regs.update(
                    0xF,
                    if collides(self.display, sprite, self.vx(instr), self.vy(instr)) {
                        1
                    } else {
                        0
                    },
                ),
                draw_flag: true,
                ..self
            }.advance(2)
        }
    }

    /// Whether the key that the low nibble of `Vx` names is down.
    pub open spec fn key_vx_down(self, instr: Instruction) -> bool {
        self.keypad[(self.vx(instr) % 16) as int] != 0
    }

    /// `Ex9E`.
    pub open spec fn skp_vx(self, instr: Instruction) -> Result<Machine, CpuError> {
        self.skip_if(self.key_vx_down(instr))
    }

    /// `ExA1`.
    pub open spec fn sknp_vx(self, instr: Instruction) -> Result<Machine, CpuError> {
        self.skip_if(!self.key_vx_down(instr))
    }

    /// `Fx07`.
    pub open spec fn ld_vx_dt(self, instr: Instruction) -> Result<Machine, CpuError> {
        self.set_vx(instr, self.delay_timer)
    }

    /// `Fx0A`: while no key is down nothing changes, so that the same
    /// instruction is met again in the next cycle. Once a key is down, `Vx`
    /// is the lowest such key, the press is used up (the key's entry is
    /// cleared until the host writes the keypad again), and the program goes on.
    pub open spec fn ld_vx_k(self, instr: Instruction) -> Result<Machine, CpuError> {
        match lowest_key_down(self.keypad, 0) {
            None => if self.pc <= LAST_INSTRUCTION {
                Ok(self)
            } else {
                Err(CpuError::MemoryBounds { address: self.pc })
            },
            Some(key) => Machine {
                regs: self.regs.update(instr.x as int, key),
                keypad: self.keypad.update(key as int, 0),
                ..self
            }.advance(2),
        }
    }

    /// Whether carrying out an instruction of the kind `kind` leaves the
    /// machine waiting for a key.
    pub open spec fn awaits_key(self, kind: InstructionType) -> bool {
        kind == InstructionType::LdVxK && lowest_key_down(self.keypad, 0) is None
    }

    /// `Fx15`.
    pub open spec fn ld_dt_vx(self, instr: Instruction) -> Result<Machine, CpuError> {
        Machine { delay_timer: self.vx(instr), ..self }.advance(2)
    }

    /// `Fx18`.
    pub open spec fn ld_st_vx(self, instr: Instruction) -> Result<Machine, CpuError> {
        Machine { sound_timer: self.vx(instr), ..self }.advance(2)
    }

    /// `Fx1E`: the sum modulo 2^16, without a flag.
    pub open spec fn add_i_vx(self, instr: Instruction) -> Result<Machine, CpuError> {
        Machine { index: ((self.index + self.vx(instr)) % 0x10000) as u16, ..self }.advance(2)
    }

    /// `Fx29`: glyphs lie one after the other from `FONT_START`.
    pub open spec fn ld_f_vx(self, instr: Instruction) -> Result<Machine, CpuError> {
        Machine { index: (FONT_START + GLYPH_SIZE * self.vx(instr)) as u16, ..self }.advance(2)
    }

    /// `Fx33`: hundreds, tens and ones of `Vx` at `I`, `I + 1`, `I + 2`.
    pub open spec fn ld_b_vx(self, instr: Instruction) -> Result<Machine, CpuError> {
        if self.pc > LAST_INSTRUCTION {
            Err(CpuError::MemoryBounds { address: self.pc })
        } else if self.index + 2 >= MEMORY_SIZE {
            Err(CpuError::MemoryBounds { address: self.index })
        } else {
            let v = self.vx(instr);
            Machine {
                memory: self.memory.update(self.index as int, v / 100).update(
                    self.index + 1,
                    v / 10 % 10,
                ).update(self.index + 2, v % 10),
                ..self
            }.advance(2)
        }
    }

    /// `Fx55`: the registers `V0..=Vx` at `I`, `I + 1`, ...; `I` stays.
    pub open spec fn ld_i_vx(self, instr: Instruction) -> Result<Machine, CpuError> {
        if self.pc > LAST_INSTRUCTION {
            Err(CpuError::MemoryBounds { address: self.pc })
        } else if self.index + instr.x >= MEMORY_SIZE {
            Err(CpuError::MemoryBounds { address: self.index })
        } else {
            Machine {
                memory: Seq::new(
                    MEMORY_SIZE as nat,
                    |a: int|
                        if self.index <= a <= self.index + instr.x {
                            self.regs[a - self.index]
                        } else {
                            self.memory[a]
                        },
                ),
                ..self
            }.advance(2)
        }
    }

    /// `Fx65`: the registers `V0..=Vx` from `I`, `I + 1`, ...; `I` stays.
    pub open spec fn ld_vx_i(self, instr: Instruction) -> Result<Machine, CpuError> {
        if self.pc > LAST_INSTRUCTION {
            Err(CpuError::MemoryBounds { address: self.pc })
        } else if self.index + instr.x >= MEMORY_SIZE {
            Err(CpuError::MemoryBounds { address: self.index })
        } else {
            Machine {
                regs: Seq::new(
                    GP_REGISTER_SIZE as nat,
                    |r: int|
                        if r <= instr.x {
                            self.memory[self.index + r]
                        } else {
                            self.regs[r]
                        },
                ),
                ..self
            }.advance(2)
        }
    }

    /// What carrying out `instr` as an instruction of the kind `kind` makes
    /// of the machine.
    pub open spec fn execute(self, kind: InstructionType, instr: Instruction) -> Result<
        Machine,
        CpuError,
    > {
        match kind {
            InstructionType::Cls => self.cls(),
            InstructionType::Ret => self.ret(),
            InstructionType::Jmp => self.jmp(instr),
            InstructionType::CallNnn => self.call_nnn(instr),
            InstructionType::SeVxKk => self.se_vx_kk(instr),
            InstructionType::SneVxKk => self.sne_vx_kk(instr),
            InstructionType::SeVxVy => self.se_vx_vy(instr),
            InstructionType::LdVxKk => self.ld_vx_kk(instr),
            InstructionType::AddVxKk => self.add_vx_kk(instr),
            InstructionType::LdVxVy => self.ld_vx_vy(instr),
            InstructionType::OrVxVy => self.or_vx_vy(instr),
            InstructionType::AndVxVy => self.and_vx_vy(instr),
            InstructionType::XorVxVy => self.xor_vx_vy(instr),
            InstructionType::AddVxVy => self.add_vx_vy(instr),
            InstructionType::SubVxVy => self.sub_vx_vy(instr),
            InstructionType::ShrVxVy => self.shr_vx_vy(instr),
            InstructionType::SubnVxVy => self.subn_vx_vy(instr),
            InstructionType::ShlVxVy => self.shl_vx_vy(instr),
            InstructionType::SneVxVy => self.sne_vx_vy(instr),
            InstructionType::LdINnn => self.ld_i_nnn(instr),
            InstructionType::JmpV0Nnn => self.jmp_v0_nnn(instr),
            InstructionType::RndVxKk => self.rnd_vx_kk(instr),
            InstructionType::DrwVxVyN => self.drw_vx_vy_n(instr),
            InstructionType::SkpVx => self.skp_vx(instr),
            InstructionType::SkNpVx => self.sknp_vx(instr),
            InstructionType::LdVxDt => self.ld_vx_dt(instr),
            InstructionType::LdVxK => self.ld_vx_k(instr),
            InstructionType::LdDtVx => self.ld_dt_vx(instr),
            InstructionType::LdStVx => self.ld_st_vx(instr),
            InstructionType::AddIVx => self.add_i_vx(instr),
            InstructionType::LdFVx => self.ld_f_vx(instr),
            InstructionType::LdBVx => self.ld_b_vx(instr),
            InstructionType::LdIVx => self.ld_i_vx(instr),
            InstructionType::LdVxI => self.ld_vx_i(instr),
        }
    }

    /// The instruction at the program counter: two bytes, the high one first.
    pub open spec fn fetch(self) -> Result<Instruction, CpuError> {
        if self.pc <= LAST_INSTRUCTION {
            Ok(
                Instruction::of_word(
                    (self.memory[self.pc as int] * 0x100 + self.memory[self.pc + 1]) as u16,
                ),
            )
        } else {
            Err(CpuError::MemoryBounds { address: self.pc })
        }
    }

    /// One cycle: the instruction at the program counter is fetched,
    /// classified and carried out.
    pub open spec fn cycle(self) -> Result<Machine, CpuError> {
        match self.fetch() {
            Err(e) => Err(e),
            Ok(instr) => match instr.kind() {
                None => Err(CpuError::DecodeFailure { word: instr.raw_instr, address: self.pc }),
                Some(kind) => self.execute(kind, instr),
            },
        }
    }

    /// Whether the cycle ends with the machine waiting for a key.
    pub open spec fn cycle_awaits_key(self) -> bool {
        self.fetch() matches Ok(instr) && instr.kind() matches Some(kind) && self.awaits_key(kind)
    }

    /// One tick of the 60 Hz clock: each timer that is not 0 goes down by one.
    pub open spec fn tick(self) -> Machine {
        Machine {
            delay_timer: if self.delay_timer > 0 {
                (self.delay_timer - 1) as u8
            } else {
                0
            },
            sound_timer: if self.sound_timer > 0 {
                (self.sound_timer - 1) as u8
            } else {
                0
            },
            ..self
        }
    }
}

} // verus!
