//! Laws of the instruction set, proved of the machine for every state.

use vstd::prelude::*;

use crate::constants::{
    DISPLAY_HEIGHT, DISPLAY_WIDTH, GP_REGISTER_SIZE, LAST_INSTRUCTION, STACK_SIZE,
};
use crate::error::CpuError;
use crate::instructions::{Instruction, InstructionType};
use crate::machine::{collides, drawn, lowest_key_down, sprite_hits, Machine};

verus! {

/// A word is classified as the one instruction that it encodes, and as none
/// where it encodes none: the encodings of two instructions never meet.
pub proof fn lemma_kind_is_encoding(word: u16, kind: InstructionType)
    ensures
        Instruction::of_word(word).kind() == Some(kind) <==> kind.encodes(word),
{
    assert(word & 0xFFFF == word) by (bit_vector);
    assert(word & 0xF000 == (word / 0x1000) * 0x1000) by (bit_vector);
    assert(word & 0xF00F == (word / 0x1000) * 0x1000 + word % 0x10) by (bit_vector);
    assert(word & 0xF0FF == (word / 0x1000) * 0x1000 + word % 0x100) by (bit_vector);
}

/// A cycle that meets the clear-display instruction leaves every cell of the
/// grid at 0 and the program counter exactly two bytes further, whatever the
/// machine held before.
pub proof fn lemma_clear_display_cycle(m: Machine)
    requires
        m.wf(),
        m.fetch() matches Ok(instr) && instr.kind() == Some(InstructionType::Cls),
    ensures
        m.cycle() matches Ok(after) && after.pc == m.pc + 2 && after.draw_flag && forall|
            x: int,
            y: int,
        |
            0 <= x < DISPLAY_WIDTH && 0 <= y < DISPLAY_HEIGHT ==> after.display[x][y] == 0,
{
}

/// A call followed by its return: whatever happens in between, as long as the
/// return meets the stack as the call left it, the program resumes exactly two
/// bytes past the call and the stack is as it was before the call.
pub proof fn lemma_call_then_ret(m: Machine, call: Instruction, later: Machine)
    requires
        m.wf(),
        m.call_nnn(call) matches Ok(called) && later.stack == called.stack,
    ensures
        later.ret() matches Ok(back) && back.pc == m.pc + 2 && back.stack == m.stack,
{
    let called = m.call_nnn(call)->Ok_0;
    assert(called.stack.drop_last() =~= m.stack);
}

/// The machine after one call from each of `sites`, in turn: the program
/// counter reaches the site, and the call there goes to the subroutine at
/// `targets[i].nnn`.
pub open spec fn after_calls(m: Machine, sites: Seq<u16>, targets: Seq<Instruction>) -> Result<
    Machine,
    CpuError,
>
    decreases sites.len(),
{
    if sites.len() == 0 {
        Ok(m)
    } else {
        match after_calls(m, sites.drop_last(), targets.drop_last()) {
            Ok(inner) => Machine { pc: sites.last(), ..inner }.call_nnn(targets.last()),
            Err(e) => Err(e),
        }
    }
}

/// The machine after `count` returns.
pub open spec fn after_returns(m: Machine, count: nat) -> Result<Machine, CpuError>
    decreases count,
{
    if count == 0 {
        Ok(m)
    } else {
        match after_returns(m, (count - 1) as nat) {
            Ok(inner) => inner.ret(),
            Err(e) => Err(e),
        }
    }
}

/// Calls nested as deep as the stack allows all succeed, and leave the call
/// sites on the stack above what was there.
pub proof fn lemma_nested_calls(m: Machine, sites: Seq<u16>, targets: Seq<Instruction>)
    requires
        m.wf(),
        sites.len() == targets.len(),
        m.stack.len() + sites.len() <= STACK_SIZE,
        forall|i: int| 0 <= i < sites.len() ==> sites[i] <= LAST_INSTRUCTION,
    ensures
        after_calls(m, sites, targets) matches Ok(deep) && deep.wf() && deep.stack == m.stack
            + sites,
    decreases sites.len(),
{
    if sites.len() == 0 {
        assert(m.stack + sites =~= m.stack);
    } else {
        lemma_nested_calls(m, sites.drop_last(), targets.drop_last());
        let inner = after_calls(m, sites.drop_last(), targets.drop_last())->Ok_0;
        let deep = after_calls(m, sites, targets)->Ok_0;
        assert(deep.stack =~= m.stack + sites);
    }
}

/// Nested calls and their returns, to any depth that the stack allows: after
/// the calls from `sites`, the returns succeed one after the other, and the
/// return number `count` resumes exactly two bytes past the call that it
/// belongs to, with that call and all deeper ones closed.
pub proof fn lemma_nested_calls_return(
    m: Machine,
    sites: Seq<u16>,
    targets: Seq<Instruction>,
    count: nat,
)
    requires
        m.wf(),
        sites.len() == targets.len(),
        m.stack.len() + sites.len() <= STACK_SIZE,
        forall|i: int| 0 <= i < sites.len() ==> sites[i] <= LAST_INSTRUCTION,
        0 < count <= sites.len(),
    ensures
        after_calls(m, sites, targets) matches Ok(deep) && after_returns(deep, count) matches Ok(
            back,
        ) && back.pc == sites[sites.len() - count] + 2 && back.stack == m.stack + sites.take(
            sites.len() - count,
        ),
    decreases count,
{
    lemma_nested_calls(m, sites, targets);
    let deep = after_calls(m, sites, targets)->Ok_0;
    if count == 1 {
        assert(after_returns(deep, 0) == Ok::<Machine, CpuError>(deep));
        assert(deep.stack.drop_last() =~= m.stack + sites.take(sites.len() - 1));
    } else {
        lemma_nested_calls_return(m, sites, targets, (count - 1) as nat);
        let inner = after_returns(deep, (count - 1) as nat)->Ok_0;
        assert(inner.stack.drop_last() =~= m.stack + sites.take(sites.len() - count));
    }
}

/// Drawing a sprite twice at the same place restores the grid, and the flag
/// after the second draw tells of the second draw alone: it is 1 exactly where
/// the second draw turns a cell off, which are the cells that the first draw
/// turned on.
///
/// The selectors are not `F`: the first draw writes `VF`, so with `VF` as a
/// coordinate the second draw would be at another place.
pub proof fn lemma_draw_twice_restores(m: Machine, instr: Instruction)
    requires
        m.wf(),
        instr.wf(),
        instr.x != 0xF,
        instr.y != 0xF,
        m.drw_vx_vy_n(instr) matches Ok(once) && once.drw_vx_vy_n(instr) is Ok,
    ensures
        m.drw_vx_vy_n(instr) matches Ok(once) && once.drw_vx_vy_n(instr) matches Ok(twice)
            && twice.display == m.display && (twice.regs[0xF] == 1 <==> collides(
            once.display,
            m.sprite(instr.n),
            m.vx(instr),
            m.vy(instr),
        )) && (twice.regs[0xF] == 0 <==> !collides(
            once.display,
            m.sprite(instr.n),
            m.vx(instr),
            m.vy(instr),
        )) && (twice.regs[0xF] == 1 <==> exists|cx: int, cy: int|
            0 <= cx < DISPLAY_WIDTH && 0 <= cy < DISPLAY_HEIGHT && sprite_hits(
                m.sprite(instr.n),
                m.vx(instr),
                m.vy(instr),
                cx,
                cy,
            ) && m.display[cx][cy] == 0),
{
    let once = m.drw_vx_vy_n(instr)->Ok_0;
    let twice = once.drw_vx_vy_n(instr)->Ok_0;
    let sprite = m.sprite(instr.n);
    let vx = m.vx(instr);
    let vy = m.vy(instr);
    assert(once.sprite(instr.n) == sprite);
    assert(once.vx(instr) == vx && once.vy(instr) == vy);
    lemma_drawn_twice(m.display, sprite, vx, vy);
    assert(twice.display == drawn(once.display, sprite, vx, vy));
    if collides(once.display, sprite, vx, vy) {
        let (cx, cy) = choose|cx: int, cy: int|
            0 <= cx < DISPLAY_WIDTH && 0 <= cy < DISPLAY_HEIGHT && sprite_hits(
                sprite,
                vx,
                vy,
                cx,
                cy,
            ) && once.display[cx][cy] == 1;
        let c = m.display[cx][cy];
        assert(c <= 1 && c ^ 1 == 1 ==> c == 0) by (bit_vector);
        assert(sprite_hits(sprite, vx, vy, cx, cy) && m.display[cx][cy] == 0);
    }
    if exists|cx: int, cy: int|
        0 <= cx < DISPLAY_WIDTH && 0 <= cy < DISPLAY_HEIGHT && sprite_hits(sprite, vx, vy, cx, cy)
            && m.display[cx][cy] == 0 {
        let (cx, cy) = choose|cx: int, cy: int|
            0 <= cx < DISPLAY_WIDTH && 0 <= cy < DISPLAY_HEIGHT && sprite_hits(
                sprite,
                vx,
                vy,
                cx,
                cy,
            ) && m.display[cx][cy] == 0;
        assert(0u8 ^ 1 == 1) by (bit_vector);
        assert(sprite_hits(sprite, vx, vy, cx, cy) && once.display[cx][cy] == 1);
    }
}

/// Inverting the same cells twice gives the grid back.
pub proof fn lemma_drawn_twice(display: Seq<Seq<u8>>, sprite: Seq<u8>, vx: u8, vy: u8)
    requires
        display.len() == DISPLAY_WIDTH,
        forall|x: int| 0 <= x < DISPLAY_WIDTH ==> (#[trigger] display[x]).len() == DISPLAY_HEIGHT,
    ensures
        drawn(drawn(display, sprite, vx, vy), sprite, vx, vy) == display,
{
    let once = drawn(display, sprite, vx, vy);
    let twice = drawn(once, sprite, vx, vy);
    assert forall|cx: int, cy: int|
        0 <= cx < DISPLAY_WIDTH && 0 <= cy < DISPLAY_HEIGHT implies twice[cx][cy]
        == display[cx][cy] by {
        let c = display[cx][cy];
        assert((c ^ 1) ^ 1 == c) by (bit_vector);
    }
    assert(twice =~~= display);
}

/// Storing the registers `V0..=Vx` and loading them back from the same
/// address brings back what they held, for every `x` and whatever the
/// registers became in between; the registers above `Vx` are not loaded.
pub proof fn lemma_store_then_load(
    m: Machine,
    store: Instruction,
    load: Instruction,
    scratch: Seq<u8>,
)
    requires
        m.wf(),
        store.wf(),
        load.wf(),
        store.x == load.x,
        scratch.len() == GP_REGISTER_SIZE,
        m.ld_i_vx(store) matches Ok(stored) && (Machine { regs: scratch, ..stored }).ld_vx_i(
            load,
        ) is Ok,
    ensures
        m.ld_i_vx(store) matches Ok(stored) && (Machine { regs: scratch, ..stored }).ld_vx_i(
            load,
        ) matches Ok(loaded) && loaded.regs.len() == GP_REGISTER_SIZE && (forall|i: int|
            0 <= i <= store.x ==> loaded.regs[i] == m.regs[i]) && (forall|i: int|
            store.x < i < GP_REGISTER_SIZE ==> loaded.regs[i] == scratch[i]) && loaded.index
            == m.index,
{
}

/// What `lowest_key_down` finds from key 0 on: nothing exactly where no key
/// is down, else a key that is down with no key down below it.
pub proof fn lemma_lowest_key_down(keypad: Seq<u8>)
    requires
        keypad.len() <= 256,
    ensures
        match lowest_key_down(keypad, 0) {
            None => forall|k: int| 0 <= k < keypad.len() ==> keypad[k] == 0,
            Some(key) => key < keypad.len() && keypad[key as int] != 0 && forall|k: int|
                0 <= k < key ==> keypad[k] == 0,
        },
{
    lemma_lowest_key_down_from(keypad, 0);
}

/// The same from any key on.
proof fn lemma_lowest_key_down_from(keypad: Seq<u8>, from: int)
    requires
        0 <= from,
        keypad.len() <= 256,
    ensures
        match lowest_key_down(keypad, from) {
            None => forall|k: int| from <= k < keypad.len() ==> keypad[k] == 0,
            Some(key) => from <= key < keypad.len() && keypad[key as int] != 0 && forall|k: int|
                from <= k < key ==> keypad[k] == 0,
        },
    decreases keypad.len() - from,
{
    if from < keypad.len() && keypad[from] == 0 {
        lemma_lowest_key_down_from(keypad, from + 1);
    }
}

} // verus!
