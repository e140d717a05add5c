//! An interpreter for CHIP-8 programs.
//!
//! [`cpu::Cpu`] is the processor with all its state in the open;
//! [`Chip8`] wraps one for a host that only feeds keys, ticks the timers and
//! shows frames. [`machine::Machine`] is the mathematical value that both are
//! specified by, and [`laws`] holds what is proved of it.

use vstd::prelude::*;

pub mod constants;
pub mod cpu;
pub mod error;
pub mod handlers;
pub mod instructions;
pub mod laws;
pub mod machine;
pub mod state;

verus! {

use crate::constants::{KEYPAD_SIZE, MAX_ROM_SIZE};
use crate::cpu::{Cpu, CycleStatus};
use crate::error::CpuError;
use crate::machine::Machine;
use crate::state::State;

/// The interpreter as a host drives it.
pub struct Chip8 {
    cpu: Cpu,
    awaiting_key: bool,
}

impl View for Chip8 {
    type V = Machine;

    closed spec fn view(&self) -> Machine {
        self.cpu@
    }
}

impl Chip8 {
    /// The processor inside is well formed.
    pub closed spec fn wf(&self) -> bool {
        self.cpu.wf()
    }

    /// Whether the last cycle ended waiting for a key.
    pub closed spec fn awaits_key(&self) -> bool {
        self.awaiting_key
    }

    /// An interpreter that is about to start the program `rom`.
    pub fn new(rom: &[u8]) -> (chip8: Chip8)
        requires
            rom@.len() <= MAX_ROM_SIZE,
        ensures
            chip8.wf(),
            chip8@ == Machine::boot(rom@),
            !chip8.awaits_key(),
    {
        Chip8 { cpu: Cpu::new(rom), awaiting_key: false }
    }

    /// Runs one cycle and hands the frame to the host: the frame holds the
    /// grid after the cycle and says whether it was written since the frame
    /// before; the redraw flag of the machine is cleared by the handing over.
    /// On an error nothing has changed.
    pub fn run_cycle(&mut self) -> (r: Result<State, CpuError>)
        requires
            old(self).wf(),
        ensures
            match old(self)@.cycle() {
                Ok(m) => {
                    &&& r matches Ok(state) && state.draw_flag == m.draw_flag && state.grid()
                        == m.display
                    &&& final(self)@ == (Machine { draw_flag: false, ..m })
                    &&& final(self).wf()
                    &&& final(self).awaits_key() == old(self)@.cycle_awaits_key()
                },
                Err(e) => r matches Err(err) && err == e && *final(self) == *old(self),
            },
    {
        match self.cpu.run_cycle() {
            Ok(status) => {
                self.awaiting_key = match status {
                    CycleStatus::AwaitingKey => true,
                    CycleStatus::Completed => false,
                };
                Ok(State::new(&mut self.cpu.draw_flag, self.cpu.display_buffer))
            },
            Err(e) => Err(e),
        }
    }

    /// Whether the last cycle ended waiting for a key.
    pub fn awaiting_key(&self) -> (waiting: bool)
        ensures
            waiting == self.awaits_key(),
    {
        self.awaiting_key
    }

    /// Writes the keypad: key `k` is down exactly where `keys[k]` holds.
    pub fn set_keys(&mut self, keys: &[bool; KEYPAD_SIZE])
        ensures
            final(self)@ == (Machine {
                keypad: Seq::new(
                    KEYPAD_SIZE as nat,
                    |k: int|
                        if keys[k] {
                            1u8
                        } else {
                            0u8
                        },
                ),
                ..old(self)@
            }),
            old(self).wf() ==> final(self).wf(),
            final(self).awaits_key() == old(self).awaits_key(),
    {
        let mut k: usize = 0;
        while k < KEYPAD_SIZE
            invariant
                k <= KEYPAD_SIZE,
                self.awaiting_key == old(self).awaiting_key,
                self.cpu == (Cpu { keypad: self.cpu.keypad, ..old(self).cpu }),
                forall|j: int|
                    0 <= j < k ==> self.cpu.keypad[j] == (if keys[j] {
                        1u8
                    } else {
                        0u8
                    }),
            decreases KEYPAD_SIZE - k,
        {
            self.cpu.keypad[k] = if keys[k] {
                1
            } else {
                0
            };
            k += 1;
        }
        assert(self@.keypad =~= Seq::new(
            KEYPAD_SIZE as nat,
            |k: int|
                if keys[k] {
                    1u8
                } else {
                    0u8
                },
        ));
    }

    /// One tick of the 60 Hz clock: see [`Cpu::tick_timers`].
    pub fn tick_timers(&mut self)
        ensures
            final(self)@ == old(self)@.tick(),
            old(self).wf() ==> final(self).wf(),
            final(self).awaits_key() == old(self).awaits_key(),
    {
        self.cpu.tick_timers();
    }

    /// Whether the host is to sound its tone: the sound timer is not 0.
    pub fn sound_active(&self) -> (on: bool)
        ensures
            on == (self@.sound_timer > 0),
    {
        self.cpu.sound_timer > 0
    }

    /// Seeds the pseudo-random generator.
    pub fn seed(&mut self, seed: u16)
        ensures
            final(self)@ == (Machine { rng: seed, ..old(self)@ }),
            old(self).wf() ==> final(self).wf(),
            final(self).awaits_key() == old(self).awaits_key(),
    {
        self.cpu.rng = seed;
    }
}

} // verus!
