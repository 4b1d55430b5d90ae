use vstd::prelude::*;

use crate::cpu::{Cpu, MachineView, Step, machine, stepped};
use crate::display::{Display, PIXELS, rendered};
use crate::fault::Fault;
use crate::keyboard::{HostKey, KEY_COUNT, KeyWait, Keyboard, first_mapped, is_down};
use crate::memory::{FONT_SIZE, MEM_SIZE, Memory, PROGRAM_START, font};

verus! {

/// The whole machine: processor, memory, display and keyboard, stepped by a
/// driver that also feeds it key presses, timer ticks and renders.
pub struct Chip8 {
    memory: Memory,
    cpu: Cpu,
    display: Display,
    keyboard: Keyboard,
}

impl View for Chip8 {
    type V = MachineView;

    closed spec fn view(&self) -> MachineView {
        machine(self.cpu@, self.memory@, self.display@, self.keyboard@)
    }
}

impl Chip8 {
    pub open spec fn wf(&self) -> bool {
        self@.wf()
    }

    /// A machine at power-on: registers zero, program counter at the program
    /// start, font installed, blank display awaiting its first render, all
    /// keys up and running.
    pub fn new() -> (c: Chip8)
        ensures
            c.wf(),
            c@.cpu.regs == Seq::new(16, |j: int| 0u8),
            c@.cpu.i == 0 && c@.cpu.pc == PROGRAM_START && c@.cpu.sp == 0,
            c@.cpu.dt == 0 && c@.cpu.st == 0,
            c@.cpu.stack == Seq::new(16, |j: int| 0u16),
            forall|a: int| 0 <= a < FONT_SIZE ==> c@.mem[a] == font()[a],
            forall|a: int| FONT_SIZE <= a < MEM_SIZE ==> c@.mem[a] == 0,
            forall|p: int| 0 <= p < PIXELS ==> #[trigger] c@.display.pixels[p] == 0,
            forall|p: int| 0 <= p < PIXELS ==> #[trigger] c@.display.buffer[p] == 0,
            c@.display.dirty,
            c@.keyboard.keys == Seq::new(KEY_COUNT as nat, |k: int| false),
            c@.keyboard.wait == KeyWait::Running,
            c@.keyboard.pressed == None::<u8>,
    {
        Chip8 { memory: Memory::new(), cpu: Cpu::new(), display: Display::new(), keyboard: Keyboard::new() }
    }

    /// Copies a program into memory at the program start; one too large for
    /// memory is refused with `OutOfRange` and nothing changes.
    pub fn load_rom(&mut self, rom: &Vec<u8>) -> (r: Result<(), Fault>)
        requires
            old(self).wf(),
        ensures
            final(self).wf(),
            final(self)@.cpu == old(self)@.cpu,
            final(self)@.display == old(self)@.display,
            final(self)@.keyboard == old(self)@.keyboard,
            rom@.len() > MEM_SIZE - PROGRAM_START ==> r == Err::<(), Fault>(Fault::OutOfRange)
                && final(self)@.mem == old(self)@.mem,
            rom@.len() <= MEM_SIZE - PROGRAM_START ==> r == Ok::<(), Fault>(()),
            rom@.len() <= MEM_SIZE - PROGRAM_START ==> forall|a: int|
                0 <= a < MEM_SIZE ==> #[trigger] final(self)@.mem[a] == if PROGRAM_START <= a
                    < PROGRAM_START + rom@.len() {
                    rom@[a - PROGRAM_START]
                } else {
                    old(self)@.mem[a]
                },
    {
        self.memory.load(rom)
    }

    /// One step with `rnd` as the random byte that `Cxkk` uses.
    pub fn step(&mut self, rnd: u8) -> (r: Result<Step, Fault>)
        requires
            old(self).wf(),
        ensures
            final(self).wf(),
            stepped(old(self)@, rnd, final(self)@, r),
    {
        self.cpu.step(&mut self.memory, &mut self.display, &mut self.keyboard, rnd)
    }

    /// One step with a fresh random byte.
    pub fn execute_next_instruction(&mut self) -> (r: Result<Step, Fault>)
        requires
            old(self).wf(),
        ensures
            final(self).wf(),
            exists|rnd: u8| #[trigger] stepped(old(self)@, rnd, final(self)@, r),
    {
        let ghost pre = self@;
        let r = self.cpu.execute_next_instruction(&mut self.memory, &mut self.display, &mut self.keyboard);
        proof {
            let rnd = choose|rnd: u8| #[trigger] stepped(pre, rnd, self@, r);
            assert(stepped(pre, rnd, self@, r));
        }
        r
    }

    /// Records the host keys held now; returns the first mapped one's
    /// logical code, or `NO_KEY`.
    pub fn poll_keys(&mut self, keys_pressed: Vec<HostKey>) -> (r: usize)
        requires
            old(self).wf(),
        ensures
            final(self).wf(),
            final(self)@.cpu == old(self)@.cpu,
            final(self)@.mem == old(self)@.mem,
            final(self)@.display == old(self)@.display,
            final(self)@.keyboard.keys == Seq::new(
                KEY_COUNT as nat,
                |k: int| is_down(keys_pressed@, k),
            ),
            final(self)@.keyboard.pressed == first_mapped(keys_pressed@),
            final(self)@.keyboard.wait == old(self)@.keyboard.wait,
            r == match first_mapped(keys_pressed@) {
                Some(k) => k as usize,
                None => crate::keyboard::NO_KEY,
            },
    {
        self.keyboard.poll(keys_pressed)
    }

    /// One tick of the 60 Hz timer clock.
    pub fn tick_timers(&mut self)
        requires
            old(self).wf(),
        ensures
            final(self).wf(),
            final(self)@.cpu.dt == if old(self)@.cpu.dt > 0 { (old(self)@.cpu.dt - 1) as u8 } else { 0u8 },
            final(self)@.cpu.st == if old(self)@.cpu.st > 0 { (old(self)@.cpu.st - 1) as u8 } else { 0u8 },
            final(self)@.cpu.regs == old(self)@.cpu.regs,
            final(self)@.cpu.pc == old(self)@.cpu.pc,
            final(self)@.cpu.i == old(self)@.cpu.i,
            final(self)@.cpu.sp == old(self)@.cpu.sp,
            final(self)@.cpu.stack == old(self)@.cpu.stack,
            final(self)@.mem == old(self)@.mem,
            final(self)@.display == old(self)@.display,
            final(self)@.keyboard == old(self)@.keyboard,
    {
        self.cpu.tick_timers();
    }

    /// Hands a fresh frame to the renderer: when the display changed since
    /// the last call, renders it and returns true.
    pub fn update_display(&mut self) -> (fresh: bool)
        requires
            old(self).wf(),
        ensures
            final(self).wf(),
            fresh == old(self)@.display.dirty,
            !final(self)@.display.dirty,
            final(self)@.display.pixels == old(self)@.display.pixels,
            final(self)@.display.buffer == if fresh {
                rendered(old(self)@.display.pixels)
            } else {
                old(self)@.display.buffer
            },
            final(self)@.cpu == old(self)@.cpu,
            final(self)@.mem == old(self)@.mem,
            final(self)@.keyboard == old(self)@.keyboard,
    {
        self.display.update()
    }

    /// The processor.
    pub fn cpu(&self) -> (c: &Cpu)
        ensures
            c@ == self@.cpu,
    {
        &self.cpu
    }

    /// The memory.
    pub fn memory(&self) -> (m: &Memory)
        ensures
            m@ == self@.mem,
    {
        &self.memory
    }

    /// The display.
    pub fn display(&self) -> (d: &Display)
        ensures
            d@ == self@.display,
    {
        &self.display
    }

    /// The keyboard.
    pub fn keyboard(&self) -> (k: &Keyboard)
        ensures
            k@ == self@.keyboard,
    {
        &self.keyboard
    }
}

} // verus!
