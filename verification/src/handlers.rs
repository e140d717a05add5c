//! The instructions, one function each.
//!
//! Each takes the processor and the instruction's fields. It either carries
//! the instruction out, as the function of the same name on
//! [`Machine`](crate::machine::Machine) says, or returns the error that this
//! function gives and leaves the processor untouched.

use vstd::prelude::*;

use crate::constants::{
    DISPLAY_HEIGHT, DISPLAY_WIDTH, FONT_START, GLYPH_SIZE, KEYPAD_SIZE, LAST_INSTRUCTION,
    MEMORY_SIZE, STACK_SIZE,
};
use crate::cpu::{Cpu, CycleStatus};
use crate::error::CpuError;
use crate::instructions::{Instruction, InstructionType};
use crate::machine::{blank_display, collides, lowest_key_down, sprite_bit, sprite_hits};

verus! {

/// Clears the display: every cell reads 0 afterwards, a redraw is asked for
/// and the program counter is two bytes further.
pub fn cls(cpu: &mut Cpu, instr: Instruction) -> (r: Result<(), CpuError>)
    requires
        old(cpu).wf(),
    ensures
        match old(cpu)@.cls() {
            Ok(m) => r is Ok && final(cpu)@ == m && final(cpu).wf(),
            Err(e) => r == Err::<(), CpuError>(e) && *final(cpu) == *old(cpu),
        },
        r is Ok <==> old(cpu).pc <= LAST_INSTRUCTION,
        r is Ok ==> final(cpu).pc == old(cpu).pc + 2 && final(cpu).draw_flag && forall|
            x: int,
            y: int,
        |
            0 <= x < DISPLAY_WIDTH && 0 <= y < DISPLAY_HEIGHT ==> final(cpu).display_buffer[x][y]
                == 0,
{
    if cpu.pc > LAST_INSTRUCTION {
        return Err(CpuError::MemoryBounds { address: cpu.pc });
    }
    cpu.display_buffer = [[0; DISPLAY_HEIGHT]; DISPLAY_WIDTH];
    cpu.draw_flag = true;
    cpu.pc += 2;
    assert(cpu@.display =~~= blank_display());
    Ok(())
}

/// Returns from a subroutine: the program counter goes two bytes past the
/// innermost call that has not returned, and that call is closed.
/// `StackUnderflow` where no call is open.
pub fn ret(cpu: &mut Cpu, instr: Instruction) -> (r: Result<(), CpuError>)
    requires
        old(cpu).wf(),
    ensures
        match old(cpu)@.ret() {
            Ok(m) => r is Ok && final(cpu)@ == m && final(cpu).wf(),
            Err(e) => r == Err::<(), CpuError>(e) && *final(cpu) == *old(cpu),
        },
        r is Ok <==> old(cpu).sp > 0,
{
    if cpu.sp == 0 {
        return Err(CpuError::StackUnderflow { address: cpu.pc });
    }
    cpu.sp -= 1;
    assert(cpu.stack[cpu.sp as int] == old(cpu)@.stack.last());
    cpu.pc = cpu.stack[cpu.sp as usize] + 2;
    assert(cpu@.stack =~= old(cpu)@.stack.drop_last());
    Ok(())
}

/// Jumps to the address `nnn`.
pub fn jmp(cpu: &mut Cpu, instr: Instruction) -> (r: Result<(), CpuError>)
    requires
        old(cpu).wf(),
    ensures
        match old(cpu)@.jmp(instr) {
            Ok(m) => r is Ok && final(cpu)@ == m && final(cpu).wf(),
            Err(e) => r == Err::<(), CpuError>(e) && *final(cpu) == *old(cpu),
        },
        r is Ok,
{
    cpu.pc = instr.nnn;
    Ok(())
}

/// Calls the subroutine at `nnn`: the stack pointer goes up by one, the
/// address of the call is kept in the slot it then names, and the program
/// counter moves to `nnn`. `StackOverflow` where every slot is in use.
pub fn call_nnn(cpu: &mut Cpu, instr: Instruction) -> (r: Result<(), CpuError>)
    requires
        old(cpu).wf(),
    ensures
        match old(cpu)@.call_nnn(instr) {
            Ok(m) => r is Ok && final(cpu)@ == m && final(cpu).wf(),
            Err(e) => r == Err::<(), CpuError>(e) && *final(cpu) == *old(cpu),
        },
        r is Ok <==> old(cpu).pc <= LAST_INSTRUCTION && old(cpu).sp < STACK_SIZE,
{
    if cpu.pc > LAST_INSTRUCTION {
        return Err(CpuError::MemoryBounds { address: cpu.pc });
    }
    if cpu.sp as usize >= STACK_SIZE {
        return Err(CpuError::StackOverflow { address: cpu.pc });
    }
    cpu.sp += 1;
    cpu.stack[(cpu.sp - 1) as usize] = cpu.pc;
    cpu.pc = instr.nnn;
    assert(cpu@.stack =~= old(cpu)@.stack.push(old(cpu).pc));
    Ok(())
}

/// Skips the next instruction if `Vx == kk`: the program counter moves on
/// by 4 where they are equal, else by 2.
pub fn se_vx_kk(cpu: &mut Cpu, instr: Instruction) -> (r: Result<(), CpuError>)
    requires
        old(cpu).wf(),
        instr.wf(),
    ensures
        match old(cpu)@.se_vx_kk(instr) {
            Ok(m) => r is Ok && final(cpu)@ == m && final(cpu).wf(),
            Err(e) => r == Err::<(), CpuError>(e) && *final(cpu) == *old(cpu),
        },
{
    if cpu.pc > LAST_INSTRUCTION {
        return Err(CpuError::MemoryBounds { address: cpu.pc });
    }
    if cpu.gp_reg[instr.x as usize] == instr.kk {
        cpu.pc += 4;
        return Ok(());
    }
    cpu.pc += 2;
    Ok(())
}

/// Skips the next instruction if `Vx != kk`.
pub fn sne_vx_kk(cpu: &mut Cpu, instr: Instruction) -> (r: Result<(), CpuError>)
    requires
        old(cpu).wf(),
        instr.wf(),
    ensures
        match old(cpu)@.sne_vx_kk(instr) {
            Ok(m) => r is Ok && final(cpu)@ == m && final(cpu).wf(),
            Err(e) => r == Err::<(), CpuError>(e) && *final(cpu) == *old(cpu),
        },
{
    if cpu.pc > LAST_INSTRUCTION {
        return Err(CpuError::MemoryBounds { address: cpu.pc });
    }
    if cpu.gp_reg[instr.x as usize] != instr.kk {
        cpu.pc += 4;
        return Ok(());
    }
    cpu.pc += 2;
    Ok(())
}

/// Skips the next instruction if `Vx == Vy`.
pub fn se_vx_vy(cpu: &mut Cpu, instr: Instruction) -> (r: Result<(), CpuError>)
    requires
        old(cpu).wf(),
        instr.wf(),
    ensures
        match old(cpu)@.se_vx_vy(instr) {
            Ok(m) => r is Ok && final(cpu)@ == m && final(cpu).wf(),
            Err(e) => r == Err::<(), CpuError>(e) && *final(cpu) == *old(cpu),
        },
{
    if cpu.pc > LAST_INSTRUCTION {
        return Err(CpuError::MemoryBounds { address: cpu.pc });
    }
    if cpu.gp_reg[instr.x as usize] == cpu.gp_reg[instr.y as usize] {
        cpu.pc += 4;
        return Ok(());
    }
    cpu.pc += 2;
    Ok(())
}

/// Loads `kk` into `Vx`.
pub fn ld_vx_kk(cpu: &mut Cpu, instr: Instruction) -> (r: Result<(), CpuError>)
    requires
        old(cpu).wf(),
        instr.wf(),
    ensures
        match old(cpu)@.ld_vx_kk(instr) {
            Ok(m) => r is Ok && final(cpu)@ == m && final(cpu).wf(),
            Err(e) => r == Err::<(), CpuError>(e) && *final(cpu) == *old(cpu),
        },
{
    if cpu.pc > LAST_INSTRUCTION {
        return Err(CpuError::MemoryBounds { address: cpu.pc });
    }
    cpu.gp_reg[instr.x as usize] = instr.kk;
    cpu.pc += 2;
    Ok(())
}

/// Adds `kk` to `Vx` modulo 256; `VF` is left alone.
pub fn add_vx_kk(cpu: &mut Cpu, instr: Instruction) -> (r: Result<(), CpuError>)
    requires
        old(cpu).wf(),
        instr.wf(),
    ensures
        match old(cpu)@.add_vx_kk(instr) {
            Ok(m) => r is Ok && final(cpu)@ == m && final(cpu).wf(),
            Err(e) => r == Err::<(), CpuError>(e) && *final(cpu) == *old(cpu),
        },
{
    if cpu.pc > LAST_INSTRUCTION {
        return Err(CpuError::MemoryBounds { address: cpu.pc });
    }
    let sum = cpu.gp_reg[instr.x as usize].wrapping_add(instr.kk);
    cpu.gp_reg[instr.x as usize] = sum;
    cpu.pc += 2;
    Ok(())
}

/// Copies `Vy` into `Vx`.
pub fn ld_vx_vy(cpu: &mut Cpu, instr: Instruction) -> (r: Result<(), CpuError>)
    requires
        old(cpu).wf(),
        instr.wf(),
    ensures
        match old(cpu)@.ld_vx_vy(instr) {
            Ok(m) => r is Ok && final(cpu)@ == m && final(cpu).wf(),
            Err(e) => r == Err::<(), CpuError>(e) && *final(cpu) == *old(cpu),
        },
{
    if cpu.pc > LAST_INSTRUCTION {
        return Err(CpuError::MemoryBounds { address: cpu.pc });
    }
    cpu.gp_reg[instr.x as usize] = cpu.gp_reg[instr.y as usize];
    cpu.pc += 2;
    Ok(())
}

/// `Vx = Vx | Vy`.
pub fn or_vx_vy(cpu: &mut Cpu, instr: Instruction) -> (r: Result<(), CpuError>)
    requires
        old(cpu).wf(),
        instr.wf(),
    ensures
        match old(cpu)@.or_vx_vy(instr) {
            Ok(m) => r is Ok && final(cpu)@ == m && final(cpu).wf(),
            Err(e) => r == Err::<(), CpuError>(e) && *final(cpu) == *old(cpu),
        },
{
    if cpu.pc > LAST_INSTRUCTION {
        return Err(CpuError::MemoryBounds { address: cpu.pc });
    }
    cpu.gp_reg[instr.x as usize] |= cpu.gp_reg[instr.y as usize];
    cpu.pc += 2;
    Ok(())
}

/// `Vx = Vx & Vy`.
pub fn and_vx_vy(cpu: &mut Cpu, instr: Instruction) -> (r: Result<(), CpuError>)
    requires
        old(cpu).wf(),
        instr.wf(),
    ensures
        match old(cpu)@.and_vx_vy(instr) {
            Ok(m) => r is Ok && final(cpu)@ == m && final(cpu).wf(),
            Err(e) => r == Err::<(), CpuError>(e) && *final(cpu) == *old(cpu),
        },
{
    if cpu.pc > LAST_INSTRUCTION {
        return Err(CpuError::MemoryBounds { address: cpu.pc });
    }
    cpu.gp_reg[instr.x as usize] &= cpu.gp_reg[instr.y as usize];
    cpu.pc += 2;
    Ok(())
}

/// `Vx = Vx ^ Vy`.
pub fn xor_vx_vy(cpu: &mut Cpu, instr: Instruction) -> (r: Result<(), CpuError>)
    requires
        old(cpu).wf(),
        instr.wf(),
    ensures
        match old(cpu)@.xor_vx_vy(instr) {
            Ok(m) => r is Ok && final(cpu)@ == m && final(cpu).wf(),
            Err(e) => r == Err::<(), CpuError>(e) && *final(cpu) == *old(cpu),
        },
{
    if cpu.pc > LAST_INSTRUCTION {
        return Err(CpuError::MemoryBounds { address: cpu.pc });
    }
    cpu.gp_reg[instr.x as usize] ^= cpu.gp_reg[instr.y as usize];
    cpu.pc += 2;
    Ok(())
}

/// Adds `Vy` to `Vx`. `VF`, written last, is 1 where the sum is over 255
/// and 0 where it is not; `Vx` holds the sum modulo 256, unless `Vx` is `VF`
/// itself.
pub fn add_vx_vy(cpu: &mut Cpu, instr: Instruction) -> (r: Result<(), CpuError>)
    requires
        old(cpu).wf(),
        instr.wf(),
    ensures
        match old(cpu)@.add_vx_vy(instr) {
            Ok(m) => r is Ok && final(cpu)@ == m && final(cpu).wf(),
            Err(e) => r == Err::<(), CpuError>(e) && *final(cpu) == *old(cpu),
        },
        r is Ok ==> ({
            let sum = old(cpu).gp_reg[instr.x as int] + old(cpu).gp_reg[instr.y as int];
            &&& sum <= 255 ==> final(cpu).gp_reg[0xF] == 0
            &&& sum > 255 ==> final(cpu).gp_reg[0xF] == 1
            &&& instr.x != 0xF ==> final(cpu).gp_reg[instr.x as int] == sum % 256
        }),
{
    if cpu.pc > LAST_INSTRUCTION {
        return Err(CpuError::MemoryBounds { address: cpu.pc });
    }
    let sum: u16 = (cpu.gp_reg[instr.x as usize] as u16) + (cpu.gp_reg[instr.y as usize] as u16);
    cpu.gp_reg[instr.x as usize] = (sum % 256) as u8;
    cpu.gp_reg[0xF] = if sum > 0xFF {
        1
    } else {
        0
    };
    cpu.pc += 2;
    Ok(())
}

/// Subtracts `Vy` from `Vx`. `VF`, written last, is 1 where nothing is
/// borrowed (`Vx >= Vy`) and 0 where `Vx < Vy`; `Vx` holds the difference
/// modulo 256, unless `Vx` is `VF` itself.
pub fn sub_vx_vy(cpu: &mut Cpu, instr: Instruction) -> (r: Result<(), CpuError>)
    requires
        old(cpu).wf(),
        instr.wf(),
    ensures
        match old(cpu)@.sub_vx_vy(instr) {
            Ok(m) => r is Ok && final(cpu)@ == m && final(cpu).wf(),
            Err(e) => r == Err::<(), CpuError>(e) && *final(cpu) == *old(cpu),
        },
        r is Ok ==> ({
            let minuend = old(cpu).gp_reg[instr.x as int];
            let subtrahend = old(cpu).gp_reg[instr.y as int];
            &&& minuend >= subtrahend ==> final(cpu).gp_reg[0xF] == 1
            &&& minuend < subtrahend ==> final(cpu).gp_reg[0xF] == 0
            &&& instr.x != 0xF ==> final(cpu).gp_reg[instr.x as int] == (minuend - subtrahend)
                % 256
        }),
{
    if cpu.pc > LAST_INSTRUCTION {
        return Err(CpuError::MemoryBounds { address: cpu.pc });
    }
    let vx = cpu.gp_reg[instr.x as usize];
    let vy = cpu.gp_reg[instr.y as usize];
    cpu.gp_reg[instr.x as usize] = vx.wrapping_sub(vy);
    cpu.gp_reg[0xF] = if vx >= vy {
        1
    } else {
        0
    };
    cpu.pc += 2;
    Ok(())
}

/// Shifts `Vx` right by one bit. `VF`, written last, is the bit that was
/// lowest before the shift.
pub fn shr_vx_vy(cpu: &mut Cpu, instr: Instruction) -> (r: Result<(), CpuError>)
    requires
        old(cpu).wf(),
        instr.wf(),
    ensures
        match old(cpu)@.shr_vx_vy(instr) {
            Ok(m) => r is Ok && final(cpu)@ == m && final(cpu).wf(),
            Err(e) => r == Err::<(), CpuError>(e) && *final(cpu) == *old(cpu),
        },
{
    if cpu.pc > LAST_INSTRUCTION {
        return Err(CpuError::MemoryBounds { address: cpu.pc });
    }
    let vx: u8 = cpu.gp_reg[instr.x as usize];
    assert(vx >> 1 == vx / 2 && vx & 0x01 == vx % 2) by (bit_vector);
    cpu.gp_reg[instr.x as usize] = vx >> 1;
    cpu.gp_reg[0xF] = vx & 0x01;
    cpu.pc += 2;
    Ok(())
}

/// Subtracts `Vx` from `Vy` and puts the difference into `Vx`. `VF`, written
/// last, is 1 where nothing is borrowed (`Vy >= Vx`) and 0 where `Vy < Vx`;
/// `Vx` holds the difference modulo 256, unless `Vx` is `VF` itself.
pub fn subn_vx_vy(cpu: &mut Cpu, instr: Instruction) -> (r: Result<(), CpuError>)
    requires
        old(cpu).wf(),
        instr.wf(),
    ensures
        match old(cpu)@.subn_vx_vy(instr) {
            Ok(m) => r is Ok && final(cpu)@ == m && final(cpu).wf(),
            Err(e) => r == Err::<(), CpuError>(e) && *final(cpu) == *old(cpu),
        },
        r is Ok ==> ({
            let minuend = old(cpu).gp_reg[instr.y as int];
            let subtrahend = old(cpu).gp_reg[instr.x as int];
            &&& minuend >= subtrahend ==> final(cpu).gp_reg[0xF] == 1
            &&& minuend < subtrahend ==> final(cpu).gp_reg[0xF] == 0
            &&& instr.x != 0xF ==> final(cpu).gp_reg[instr.x as int] == (minuend - subtrahend)
                % 256
        }),
{
    if cpu.pc > LAST_INSTRUCTION {
        return Err(CpuError::MemoryBounds { address: cpu.pc });
    }
    let vx = cpu.gp_reg[instr.x as usize];
    let vy = cpu.gp_reg[instr.y as usize];
    cpu.gp_reg[instr.x as usize] = vy.wrapping_sub(vx);
    cpu.gp_reg[0xF] = if vy >= vx {
        1
    } else {
        0
    };
    cpu.pc += 2;
    Ok(())
}

/// Shifts `Vx` left by one bit. `VF`, written last, is the bit that was
/// highest before the shift.
pub fn shl_vx_vy(cpu: &mut Cpu, instr: Instruction) -> (r: Result<(), CpuError>)
    requires
        old(cpu).wf(),
        instr.wf(),
    ensures
        match old(cpu)@.shl_vx_vy(instr) {
            Ok(m) => r is Ok && final(cpu)@ == m && final(cpu).wf(),
            Err(e) => r == Err::<(), CpuError>(e) && *final(cpu) == *old(cpu),
        },
{
    if cpu.pc > LAST_INSTRUCTION {
        return Err(CpuError::MemoryBounds { address: cpu.pc });
    }
    let vx: u8 = cpu.gp_reg[instr.x as usize];
    assert(vx << 1 == (vx * 2) % 256 && (vx >> 7) & 1 == vx / 128) by (bit_vector);
    cpu.gp_reg[instr.x as usize] = vx << 1;
    cpu.gp_reg[0xF] = (vx >> 7) & 1;
    cpu.pc += 2;
    Ok(())
}

/// Skips the next instruction if `Vx != Vy`.
pub fn sne_vx_vy(cpu: &mut Cpu, instr: Instruction) -> (r: Result<(), CpuError>)
    requires
        old(cpu).wf(),
        instr.wf(),
    ensures
        match old(cpu)@.sne_vx_vy(instr) {
            Ok(m) => r is Ok && final(cpu)@ == m && final(cpu).wf(),
            Err(e) => r == Err::<(), CpuError>(e) && *final(cpu) == *old(cpu),
        },
{
    if cpu.pc > LAST_INSTRUCTION {
        return Err(CpuError::MemoryBounds { address: cpu.pc });
    }
    if cpu.gp_reg[instr.x as usize] != cpu.gp_reg[instr.y as usize] {
        cpu.pc += 4;
        return Ok(());
    }
    cpu.pc += 2;
    Ok(())
}

/// Sets the index register to `nnn`; no register is touched.
pub fn ld_i_nnn(cpu: &mut Cpu, instr: Instruction) -> (r: Result<(), CpuError>)
    requires
        old(cpu).wf(),
    ensures
        match old(cpu)@.ld_i_nnn(instr) {
            Ok(m) => r is Ok && final(cpu)@ == m && final(cpu).wf(),
            Err(e) => r == Err::<(), CpuError>(e) && *final(cpu) == *old(cpu),
        },
{
    if cpu.pc > LAST_INSTRUCTION {
        return Err(CpuError::MemoryBounds { address: cpu.pc });
    }
    cpu.i_reg = instr.nnn;
    cpu.pc += 2;
    Ok(())
}

/// Jumps to the address `nnn + V0`.
pub fn jmp_v0_nnn(cpu: &mut Cpu, instr: Instruction) -> (r: Result<(), CpuError>)
    requires
        old(cpu).wf(),
        instr.wf(),
    ensures
        match old(cpu)@.jmp_v0_nnn(instr) {
            Ok(m) => r is Ok && final(cpu)@ == m && final(cpu).wf(),
            Err(e) => r == Err::<(), CpuError>(e) && *final(cpu) == *old(cpu),
        },
        r is Ok,
{
    cpu.pc = instr.nnn + cpu.gp_reg[0] as u16;
    Ok(())
}

/// Steps the pseudo-random generator and puts its byte, masked with `kk`,
/// into `Vx`.
pub fn rnd_vx_kk(cpu: &mut Cpu, instr: Instruction) -> (r: Result<(), CpuError>)
    requires
        old(cpu).wf(),
        instr.wf(),
    ensures
        match old(cpu)@.rnd_vx_kk(instr) {
            Ok(m) => r is Ok && final(cpu)@ == m && final(cpu).wf(),
            Err(e) => r == Err::<(), CpuError>(e) && *final(cpu) == *old(cpu),
        },
{
    if cpu.pc > LAST_INSTRUCTION {
        return Err(CpuError::MemoryBounds { address: cpu.pc });
    }
    let next: u32 = (cpu.rng as u32 * 25173 + 13849) % 0x10000;
    cpu.rng = next as u16;
    cpu.gp_reg[instr.x as usize] = ((next / 0x100) as u8) & instr.kk;
    cpu.pc += 2;
    Ok(())
}

/// Whether the cell is hit by the part of the sprite that lies above the row
/// `rows` or, in that row, left of the pixel `bits`.
spec fn hits_before(sprite: Seq<u8>, vx: u8, vy: u8, cx: int, cy: int, rows: int, bits: int) -> bool {
    let dx = (cx - vx) % (DISPLAY_WIDTH as int);
    let dy = (cy - vy) % (DISPLAY_HEIGHT as int);
    sprite_hits(sprite, vx, vy, cx, cy) && (dy < rows || (dy == rows && dx < bits))
}

/// Whether that part of the sprite lies on a lit cell.
spec fn collides_before(
    display: Seq<Seq<u8>>,
    sprite: Seq<u8>,
    vx: u8,
    vy: u8,
    rows: int,
    bits: int,
) -> bool {
    exists|cx: int, cy: int|
        0 <= cx < DISPLAY_WIDTH && 0 <= cy < DISPLAY_HEIGHT && #[trigger] hits_before(
            sprite,
            vx,
            vy,
            cx,
            cy,
            rows,
            bits,
        ) && display[cx][cy] == 1
}

/// One more pixel of the sprite: the part before it, and the cell under it
/// where it is set.
proof fn lemma_hits_next_bit(sprite: Seq<u8>, vx: u8, vy: u8, row: int, bit: int)
    requires
        0 <= row < sprite.len() <= DISPLAY_HEIGHT,
        0 <= bit < 8,
    ensures
        forall|cx: int, cy: int|
            #![trigger hits_before(sprite, vx, vy, cx, cy, row, bit + 1)]
            #![trigger hits_before(sprite, vx, vy, cx, cy, row, bit)]
            0 <= cx < DISPLAY_WIDTH && 0 <= cy < DISPLAY_HEIGHT ==> (hits_before(
                sprite,
                vx,
                vy,
                cx,
                cy,
                row,
                bit + 1,
            ) <==> hits_before(sprite, vx, vy, cx, cy, row, bit) || (cx == (vx + bit) % (
            DISPLAY_WIDTH as int) && cy == (vy + row) % (DISPLAY_HEIGHT as int) && sprite_bit(
                sprite[row],
                bit as u8,
            ))),
        !hits_before(
            sprite,
            vx,
            vy,
            (vx + bit) % (DISPLAY_WIDTH as int),
            (vy + row) % (DISPLAY_HEIGHT as int),
            row,
            bit,
        ),
{
}

/// The end of a row is the start of the next.
proof fn lemma_hits_next_row(sprite: Seq<u8>, vx: u8, vy: u8, row: int)
    requires
        0 <= row < sprite.len() <= DISPLAY_HEIGHT,
    ensures
        forall|cx: int, cy: int|
            #![trigger hits_before(sprite, vx, vy, cx, cy, row, 8)]
            #![trigger hits_before(sprite, vx, vy, cx, cy, row + 1, 0)]
            0 <= cx < DISPLAY_WIDTH && 0 <= cy < DISPLAY_HEIGHT ==> (hits_before(
                sprite,
                vx,
                vy,
                cx,
                cy,
                row,
                8,
            ) <==> hits_before(sprite, vx, vy, cx, cy, row + 1, 0)),
{
}

/// Draws the `n`-row sprite at `I` at column `Vx`, row `Vy`: each set pixel
/// inverts the cell under it, columns and rows wrapping at the edges of the
/// grid. `VF` is 1 where a lit cell is turned off, else 0, and a redraw is
/// asked for. `MemoryBounds` where the sprite runs past the end of memory.
pub fn drw_vx_vy_n(cpu: &mut Cpu, instr: Instruction) -> (r: Result<(), CpuError>)
    requires
        old(cpu).wf(),
        instr.wf(),
    ensures
        match old(cpu)@.drw_vx_vy_n(instr) {
            Ok(m) => r is Ok && final(cpu)@ == m && final(cpu).wf(),
            Err(e) => r == Err::<(), CpuError>(e) && *final(cpu) == *old(cpu),
        },
{
    if cpu.pc > LAST_INSTRUCTION {
        return Err(CpuError::MemoryBounds { address: cpu.pc });
    }
    if cpu.i_reg as usize + instr.n as usize > MEMORY_SIZE {
        return Err(CpuError::MemoryBounds { address: cpu.i_reg });
    }
    let x = cpu.gp_reg[instr.x as usize];
    let y = cpu.gp_reg[instr.y as usize];
    let ghost sprite = old(cpu)@.sprite(instr.n);
    let ghost before = old(cpu)@.display;
    cpu.gp_reg[0xf] = 0;

    let mut row: u8 = 0;
    while row < instr.n
        invariant
            row <= instr.n < 16,
            sprite == old(cpu)@.sprite(instr.n),
            sprite.len() == instr.n,
            before == old(cpu)@.display,
            old(cpu).wf(),
            old(cpu).i_reg + instr.n <= MEMORY_SIZE,
            *cpu == (Cpu { display_buffer: cpu.display_buffer, gp_reg: cpu.gp_reg, ..*old(cpu) }),
            cpu.gp_reg@ == old(cpu).gp_reg@.update(0xF, cpu.gp_reg[0xF]),
            cpu.gp_reg[0xF] == 1 || cpu.gp_reg[0xF] == 0,
            cpu.gp_reg[0xF] == 1 <==> collides_before(before, sprite, x, y, row as int, 0),
            forall|cx: int, cy: int|
                0 <= cx < DISPLAY_WIDTH && 0 <= cy < DISPLAY_HEIGHT ==> #[trigger] cpu.display_buffer[cx][cy]
                    == (if hits_before(sprite, x, y, cx, cy, row as int, 0) {
                    before[cx][cy] ^ 1
                } else {
                    before[cx][cy]
                }),
        decreases instr.n - row,
    {
        let pixel = cpu.memory[cpu.i_reg as usize + row as usize];
        assert(pixel == sprite[row as int]);
        let mut bit: u8 = 0;
        while bit < 8
            invariant
                bit <= 8,
                row < instr.n < 16,
                sprite == old(cpu)@.sprite(instr.n),
                sprite.len() == instr.n,
                before == old(cpu)@.display,
                old(cpu).wf(),
                pixel == sprite[row as int],
                *cpu == (Cpu {
                    display_buffer: cpu.display_buffer,
                    gp_reg: cpu.gp_reg,
                    ..*old(cpu)
                }),
                cpu.gp_reg@ == old(cpu).gp_reg@.update(0xF, cpu.gp_reg[0xF]),
                cpu.gp_reg[0xF] == 1 || cpu.gp_reg[0xF] == 0,
                cpu.gp_reg[0xF] == 1 <==> collides_before(
                    before,
                    sprite,
                    x,
                    y,
                    row as int,
                    bit as int,
                ),
                forall|cx: int, cy: int|
                    0 <= cx < DISPLAY_WIDTH && 0 <= cy < DISPLAY_HEIGHT ==> #[trigger] cpu.display_buffer[cx][cy]
                        == (if hits_before(sprite, x, y, cx, cy, row as int, bit as int) {
                        before[cx][cy] ^ 1
                    } else {
                        before[cx][cy]
                    }),
            decreases 8 - bit,
        {
            proof {
                lemma_hits_next_bit(sprite, x, y, row as int, bit as int);
            }
            if pixel & (0x80 >> bit) > 0 {
                let x_idx = (x as usize + bit as usize) % DISPLAY_WIDTH;
                let y_idx = (y as usize + row as usize) % DISPLAY_HEIGHT;
                assert(cpu.display_buffer[x_idx as int][y_idx as int] == before[x_idx as int][y_idx as int]);
                if cpu.display_buffer[x_idx][y_idx] == 1 {
                    cpu.gp_reg[0xf] = 1;
                }
                cpu.display_buffer[x_idx][y_idx] ^= 1;
                assert(hits_before(sprite, x, y, x_idx as int, y_idx as int, row as int, bit + 1));
            }
            bit += 1;
        }
        proof {
            lemma_hits_next_row(sprite, x, y, row as int);
        }
        row += 1;
    }

    cpu.draw_flag = true;
    cpu.pc += 2;
    proof {
        let m = old(cpu)@.drw_vx_vy_n(instr)->Ok_0;
        assert forall|cx: int, cy: int|
            0 <= cx < DISPLAY_WIDTH && 0 <= cy < DISPLAY_HEIGHT implies (hits_before(
            sprite,
            x,
            y,
            cx,
            cy,
            instr.n as int,
            0,
        ) <==> sprite_hits(sprite, x, y, cx, cy)) by {}
        assert(collides_before(before, sprite, x, y, instr.n as int, 0) <==> collides(
            before,
            sprite,
            x,
            y,
        ));
        assert(cpu@.display =~~= m.display);
        assert(cpu@.regs =~= m.regs);
        assert forall|cx: int, cy: int|
            0 <= cx < DISPLAY_WIDTH && 0 <= cy < DISPLAY_HEIGHT implies #[trigger] cpu@.display[cx][cy]
            <= 1 by {
            let c = before[cx][cy];
            assert(c <= 1 ==> c ^ 1 <= 1) by (bit_vector);
        }
    }
    Ok(())
}

/// Skips the next instruction if the key that the low nibble of `Vx` names
/// is down.
pub fn skp_vx(cpu: &mut Cpu, instr: Instruction) -> (r: Result<(), CpuError>)
    requires
        old(cpu).wf(),
        instr.wf(),
    ensures
        match old(cpu)@.skp_vx(instr) {
            Ok(m) => r is Ok && final(cpu)@ == m && final(cpu).wf(),
            Err(e) => r == Err::<(), CpuError>(e) && *final(cpu) == *old(cpu),
        },
{
    if cpu.pc > LAST_INSTRUCTION {
        return Err(CpuError::MemoryBounds { address: cpu.pc });
    }
    let key = (cpu.gp_reg[instr.x as usize] % 16) as usize;
    if cpu.keypad[key] != 0 {
        cpu.pc += 4;
        return Ok(());
    }
    cpu.pc += 2;
    Ok(())
}

/// Skips the next instruction if the key that the low nibble of `Vx` names
/// is not down.
pub fn sknp_vx(cpu: &mut Cpu, instr: Instruction) -> (r: Result<(), CpuError>)
    requires
        old(cpu).wf(),
        instr.wf(),
    ensures
        match old(cpu)@.sknp_vx(instr) {
            Ok(m) => r is Ok && final(cpu)@ == m && final(cpu).wf(),
            Err(e) => r == Err::<(), CpuError>(e) && *final(cpu) == *old(cpu),
        },
{
    if cpu.pc > LAST_INSTRUCTION {
        return Err(CpuError::MemoryBounds { address: cpu.pc });
    }
    let key = (cpu.gp_reg[instr.x as usize] % 16) as usize;
    if cpu.keypad[key] == 0 {
        cpu.pc += 4;
        return Ok(());
    }
    cpu.pc += 2;
    Ok(())
}

/// Copies the delay timer into `Vx`.
pub fn ld_vx_dt(cpu: &mut Cpu, instr: Instruction) -> (r: Result<(), CpuError>)
    requires
        old(cpu).wf(),
        instr.wf(),
    ensures
        match old(cpu)@.ld_vx_dt(instr) {
            Ok(m) => r is Ok && final(cpu)@ == m && final(cpu).wf(),
            Err(e) => r == Err::<(), CpuError>(e) && *final(cpu) == *old(cpu),
        },
{
    if cpu.pc > LAST_INSTRUCTION {
        return Err(CpuError::MemoryBounds { address: cpu.pc });
    }
    cpu.gp_reg[instr.x as usize] = cpu.delay_timer;
    cpu.pc += 2;
    Ok(())
}

/// Waits for a key without blocking. While no key is down it returns
/// `AwaitingKey` and changes nothing, so that the next cycle meets the same
/// instruction. Once a key is down, the number of the lowest such key goes
/// into `Vx`, the press is used up (the key's entry is cleared) and the
/// program counter moves on.
pub fn ld_vx_k(cpu: &mut Cpu, instr: Instruction) -> (r: Result<CycleStatus, CpuError>)
    requires
        old(cpu).wf(),
        instr.wf(),
    ensures
        match old(cpu)@.ld_vx_k(instr) {
            Ok(m) => r is Ok && final(cpu)@ == m && final(cpu).wf(),
            Err(e) => r == Err::<CycleStatus, CpuError>(e) && *final(cpu) == *old(cpu),
        },
        r is Ok ==> (r == Ok::<CycleStatus, CpuError>(CycleStatus::AwaitingKey)
            <==> old(cpu)@.awaits_key(InstructionType::LdVxK)),
        r is Ok ==> r == Ok::<CycleStatus, CpuError>(CycleStatus::AwaitingKey) || r == Ok::<
            CycleStatus,
            CpuError,
        >(CycleStatus::Completed),
        r == Ok::<CycleStatus, CpuError>(CycleStatus::AwaitingKey) ==> *final(cpu) == *old(cpu),
{
    if cpu.pc > LAST_INSTRUCTION {
        return Err(CpuError::MemoryBounds { address: cpu.pc });
    }
    let mut key: u8 = 0;
    while (key as usize) < KEYPAD_SIZE
        invariant
            key <= KEYPAD_SIZE,
            instr.wf(),
            old(cpu).wf(),
            old(cpu).pc <= LAST_INSTRUCTION,
            *cpu == *old(cpu),
            lowest_key_down(cpu.keypad@, 0) == lowest_key_down(cpu.keypad@, key as int),
        decreases KEYPAD_SIZE - key,
    {
        if cpu.keypad[key as usize] != 0 {
            cpu.gp_reg[instr.x as usize] = key;
            cpu.keypad[key as usize] = 0;
            cpu.pc += 2;
            return Ok(CycleStatus::Completed);
        }
        key += 1;
    }
    Ok(CycleStatus::AwaitingKey)
}

/// Sets the delay timer to `Vx`.
pub fn ld_dt_vx(cpu: &mut Cpu, instr: Instruction) -> (r: Result<(), CpuError>)
    requires
        old(cpu).wf(),
        instr.wf(),
    ensures
        match old(cpu)@.ld_dt_vx(instr) {
            Ok(m) => r is Ok && final(cpu)@ == m && final(cpu).wf(),
            Err(e) => r == Err::<(), CpuError>(e) && *final(cpu) == *old(cpu),
        },
{
    if cpu.pc > LAST_INSTRUCTION {
        return Err(CpuError::MemoryBounds { address: cpu.pc });
    }
    cpu.delay_timer = cpu.gp_reg[instr.x as usize];
    cpu.pc += 2;
    Ok(())
}

/// Sets the sound timer to `Vx`.
pub fn ld_st_vx(cpu: &mut Cpu, instr: Instruction) -> (r: Result<(), CpuError>)
    requires
        old(cpu).wf(),
        instr.wf(),
    ensures
        match old(cpu)@.ld_st_vx(instr) {
            Ok(m) => r is Ok && final(cpu)@ == m && final(cpu).wf(),
            Err(e) => r == Err::<(), CpuError>(e) && *final(cpu) == *old(cpu),
        },
{
    if cpu.pc > LAST_INSTRUCTION {
        return Err(CpuError::MemoryBounds { address: cpu.pc });
    }
    cpu.sound_timer = cpu.gp_reg[instr.x as usize];
    cpu.pc += 2;
    Ok(())
}

/// Adds `Vx` to the index register modulo 2^16; `VF` is left alone.
pub fn add_i_vx(cpu: &mut Cpu, instr: Instruction) -> (r: Result<(), CpuError>)
    requires
        old(cpu).wf(),
        instr.wf(),
    ensures
        match old(cpu)@.add_i_vx(instr) {
            Ok(m) => r is Ok && final(cpu)@ == m && final(cpu).wf(),
            Err(e) => r == Err::<(), CpuError>(e) && *final(cpu) == *old(cpu),
        },
{
    if cpu.pc > LAST_INSTRUCTION {
        return Err(CpuError::MemoryBounds { address: cpu.pc });
    }
    cpu.i_reg = cpu.i_reg.wrapping_add(cpu.gp_reg[instr.x as usize] as u16);
    cpu.pc += 2;
    Ok(())
}

/// Points the index register at the glyph for `Vx`: `FONT_START` plus
/// `GLYPH_SIZE` times `Vx`.
pub fn ld_f_vx(cpu: &mut Cpu, instr: Instruction) -> (r: Result<(), CpuError>)
    requires
        old(cpu).wf(),
        instr.wf(),
    ensures
        match old(cpu)@.ld_f_vx(instr) {
            Ok(m) => r is Ok && final(cpu)@ == m && final(cpu).wf(),
            Err(e) => r == Err::<(), CpuError>(e) && *final(cpu) == *old(cpu),
        },
{
    if cpu.pc > LAST_INSTRUCTION {
        return Err(CpuError::MemoryBounds { address: cpu.pc });
    }
    cpu.i_reg = FONT_START + GLYPH_SIZE * (cpu.gp_reg[instr.x as usize] as u16);
    cpu.pc += 2;
    Ok(())
}

/// Stores the decimal digits of `Vx`: hundreds at `I`, tens at `I + 1`, ones
/// at `I + 2`. `MemoryBounds` where one of the three lies past the end of
/// memory.
pub fn ld_b_vx(cpu: &mut Cpu, instr: Instruction) -> (r: Result<(), CpuError>)
    requires
        old(cpu).wf(),
        instr.wf(),
    ensures
        match old(cpu)@.ld_b_vx(instr) {
            Ok(m) => r is Ok && final(cpu)@ == m && final(cpu).wf(),
            Err(e) => r == Err::<(), CpuError>(e) && *final(cpu) == *old(cpu),
        },
{
    if cpu.pc > LAST_INSTRUCTION {
        return Err(CpuError::MemoryBounds { address: cpu.pc });
    }
    if cpu.i_reg as usize + 2 >= MEMORY_SIZE {
        return Err(CpuError::MemoryBounds { address: cpu.i_reg });
    }
    let vx = cpu.gp_reg[instr.x as usize];

    let hundreds_digit: u8 = vx / 100;
    let ones_digit: u8 = vx % 10;
    let tens_digit: u8 = (vx - (hundreds_digit * 100)) / 10;

    cpu.memory[cpu.i_reg as usize] = hundreds_digit;
    cpu.memory[(cpu.i_reg + 1) as usize] = tens_digit;
    cpu.memory[(cpu.i_reg + 2) as usize] = ones_digit;

    cpu.pc += 2;
    Ok(())
}

/// Stores the registers `V0` to `Vx`, `Vx` included, in memory from `I` on;
/// `I` stays. `MemoryBounds` where one of them lies past the end of memory.
pub fn ld_i_vx(cpu: &mut Cpu, instr: Instruction) -> (r: Result<(), CpuError>)
    requires
        old(cpu).wf(),
        instr.wf(),
    ensures
        match old(cpu)@.ld_i_vx(instr) {
            Ok(m) => r is Ok && final(cpu)@ == m && final(cpu).wf(),
            Err(e) => r == Err::<(), CpuError>(e) && *final(cpu) == *old(cpu),
        },
{
    if cpu.pc > LAST_INSTRUCTION {
        return Err(CpuError::MemoryBounds { address: cpu.pc });
    }
    if cpu.i_reg as usize + instr.x as usize >= MEMORY_SIZE {
        return Err(CpuError::MemoryBounds { address: cpu.i_reg });
    }
    let num_registers: usize = (instr.x + 1) as usize;

    let mut register: usize = 0;
    while register < num_registers
        invariant
            register <= num_registers == instr.x + 1 <= 16,
            old(cpu).i_reg + instr.x < MEMORY_SIZE,
            *cpu == (Cpu { memory: cpu.memory, ..*old(cpu) }),
            forall|a: int|
                0 <= a < MEMORY_SIZE ==> cpu.memory[a] == (if old(cpu).i_reg <= a < old(cpu).i_reg
                    + register {
                    old(cpu).gp_reg[a - old(cpu).i_reg]
                } else {
                    old(cpu).memory[a]
                }),
        decreases num_registers - register,
    {
        let mem_index: usize = (cpu.i_reg as usize) + register;
        cpu.memory[mem_index] = cpu.gp_reg[register];
        register += 1;
    }

    cpu.pc += 2;
    assert(cpu@.memory =~= old(cpu)@.ld_i_vx(instr)->Ok_0.memory);
    Ok(())
}

/// Loads the registers `V0` to `Vx`, `Vx` included, from memory from `I` on;
/// `I` stays. `MemoryBounds` where one of them lies past the end of memory.
pub fn ld_vx_i(cpu: &mut Cpu, instr: Instruction) -> (r: Result<(), CpuError>)
    requires
        old(cpu).wf(),
        instr.wf(),
    ensures
        match old(cpu)@.ld_vx_i(instr) {
            Ok(m) => r is Ok && final(cpu)@ == m && final(cpu).wf(),
            Err(e) => r == Err::<(), CpuError>(e) && *final(cpu) == *old(cpu),
        },
{
    if cpu.pc > LAST_INSTRUCTION {
        return Err(CpuError::MemoryBounds { address: cpu.pc });
    }
    if cpu.i_reg as usize + instr.x as usize >= MEMORY_SIZE {
        return Err(CpuError::MemoryBounds { address: cpu.i_reg });
    }
    let num_registers: usize = (instr.x + 1) as usize;

    let mut register: usize = 0;
    while register < num_registers
        invariant
            register <= num_registers == instr.x + 1 <= 16,
            old(cpu).i_reg + instr.x < MEMORY_SIZE,
            *cpu == (Cpu { gp_reg: cpu.gp_reg, ..*old(cpu) }),
            forall|i: int|
                0 <= i < 16 ==> cpu.gp_reg[i] == (if i < register {
                    old(cpu).memory[old(cpu).i_reg + i]
                } else {
                    old(cpu).gp_reg[i]
                }),
        decreases num_registers - register,
    {
        let mem_index: usize = (cpu.i_reg as usize) + register;
        cpu.gp_reg[register] = cpu.memory[mem_index];
        register += 1;
    }

    cpu.pc += 2;
    assert(cpu@.regs =~= old(cpu)@.ld_vx_i(instr)->Ok_0.regs);
    Ok(())
}

} // verus!
