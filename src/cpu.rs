use vstd::prelude::*;

use crate::display::{Display, DisplayView, PIXELS, collides, drawn};
use crate::fault::Fault;
use crate::keyboard::{KEY_COUNT, KeyWait, Keyboard, KeyboardView};
use crate::memory::{MEM_SIZE, Memory, PROGRAM_START};
use crate::opcode::{Instruction, instruction_of};

verus! {

/// Bytes per instruction word.
pub const OPCODE_SIZE: u16 = 2;

/// Index of the flag register VF.
pub const F: usize = 15;

/// Number of general registers.
pub const REG_COUNT: usize = 16;

/// Number of return addresses the stack holds.
pub const STACK_DEPTH: usize = 16;

/// Bytes per font glyph.
pub const GLYPH_SIZE: u16 = 5;

/// What an operation asks of the program counter.
#[derive(Debug, Clone, Copy, PartialEq, Eq, Structural)]
pub enum ProgramCounter {
    /// Go to the following instruction.
    Next,
    /// Skip the following instruction.
    Skip,
    /// Go to the given address.
    JumpTo(u16),
}

/// What one step did, when it did not fault.
#[derive(Debug, Clone, Copy, PartialEq, Eq, Structural)]
pub enum Step {
    /// An instruction ran, or a pending key wait was satisfied.
    Executed,
    /// The machine is blocked on a key press; nothing changed.
    Waiting,
    /// The word matched no operation; it was skipped over.
    UnknownOpcode { word: u16 },
}

/// The processor's registers: `V0..VF`, `I`, the program counter, the stack
/// with its pointer, and the delay and sound timers.
pub struct CpuView {
    pub regs: Seq<u8>,
    pub i: u16,
    pub pc: u16,
    pub sp: u8,
    pub stack: Seq<u16>,
    pub dt: u8,
    pub st: u8,
}

/// The whole machine: processor, memory, display and keyboard.
pub struct MachineView {
    pub cpu: CpuView,
    pub mem: Seq<u8>,
    pub display: DisplayView,
    pub keyboard: KeyboardView,
}

/// Puts the four parts of a machine together.
pub open spec fn machine(
    cpu: CpuView,
    mem: Seq<u8>,
    display: DisplayView,
    keyboard: KeyboardView,
) -> MachineView {
    MachineView { cpu, mem, display, keyboard }
}

impl MachineView {
    /// Sizes are the architecture's, pixels are bits, register and key
    /// numbers are in range, the stack pointer is within the stack, and a
    /// pending key wait sits on an instruction inside memory.
    pub open spec fn wf(self) -> bool {
        &&& self.cpu.regs.len() == REG_COUNT
        &&& self.cpu.stack.len() == STACK_DEPTH
        &&& self.cpu.sp <= STACK_DEPTH
        &&& self.mem.len() == MEM_SIZE
        &&& self.display.pixels.len() == PIXELS
        &&& self.display.buffer.len() == PIXELS
        &&& forall|p: int| 0 <= p < PIXELS ==> #[trigger] self.display.pixels[p] <= 1
        &&& self.keyboard.keys.len() == KEY_COUNT
        &&& (self.keyboard.wait matches KeyWait::AwaitingKey { register } ==> register < 16)
        &&& (self.keyboard.pressed matches Some(k) ==> k < 16)
        &&& (self.keyboard.wait is AwaitingKey ==> self.cpu.pc < MEM_SIZE)
    }
}

/// The registers after the directive `d`.
pub open spec fn advance(c: CpuView, d: ProgramCounter) -> CpuView {
    CpuView {
        pc: match d {
            ProgramCounter::Next => (c.pc + OPCODE_SIZE) as u16,
            ProgramCounter::Skip => (c.pc + 2 * OPCODE_SIZE) as u16,
            ProgramCounter::JumpTo(addr) => addr,
        },
        ..c
    }
}

/// Skip when `cond` holds, else go on.
pub open spec fn skip_when(cond: bool) -> ProgramCounter {
    if cond {
        ProgramCounter::Skip
    } else {
        ProgramCounter::Next
    }
}

/// The registers with `Vx := v`.
pub open spec fn set_reg(c: CpuView, x: u8, v: u8) -> CpuView {
    CpuView { regs: c.regs.update(x as int, v), ..c }
}

/// The registers with `Vx := v`, then `VF := 1` if `flag` else `0`.
pub open spec fn set_with_flag(c: CpuView, x: u8, v: u8, flag: bool) -> CpuView {
    set_reg(set_reg(c, x, v), F as u8, if flag { 1u8 } else { 0u8 })
}

/// Hundreds, tens and ones of `v`.
pub open spec fn bcd(v: u8) -> Seq<u8> {
    seq![v / 100, (v % 100) / 10, v % 10]
}

/// Memory with `vals` written from address `at` on.
pub open spec fn stored(mem: Seq<u8>, at: int, vals: Seq<u8>) -> Seq<u8> {
    Seq::new(mem.len(), |a: int| if at <= a < at + vals.len() { vals[a - at] } else { mem[a] })
}

/// The fault of writing `len` bytes from `at` on, if any: the first address
/// is in the font region, or the last is past the end.
pub open spec fn write_fault(at: int, len: int) -> Option<Fault> {
    if at < PROGRAM_START {
        Some(Fault::ReservedRegionFault)
    } else if at + len > MEM_SIZE {
        Some(Fault::OutOfRange)
    } else {
        None
    }
}

/// Registers `V0..=Vx` loaded from memory at `at`, the rest kept.
pub open spec fn loaded(regs: Seq<u8>, mem: Seq<u8>, at: int, x: u8) -> Seq<u8> {
    Seq::new(regs.len(), |j: int| if j <= x { mem[at + j] } else { regs[j] })
}

/// The display with every pixel off, marked dirty.
pub open spec fn cleared(d: DisplayView) -> DisplayView {
    DisplayView { pixels: Seq::new(PIXELS as nat, |p: int| 0u8), dirty: true, ..d }
}

/// The machine with new registers.
pub open spec fn with_cpu(s: MachineView, c: CpuView) -> MachineView {
    MachineView { cpu: c, ..s }
}

/// The machine with new registers `c`, going on to the next instruction.
pub open spec fn then_next(s: MachineView, c: CpuView) -> Result<MachineView, Fault> {
    Ok(with_cpu(s, advance(c, ProgramCounter::Next)))
}

/// The machine with only its program counter moved as `d` says.
pub open spec fn then_go(s: MachineView, d: ProgramCounter) -> Result<MachineView, Fault> {
    Ok(with_cpu(s, advance(s.cpu, d)))
}

/// Runs one decoded instruction on machine `s`; `rnd` is the random byte
/// that `Cxkk` uses.
pub open spec fn exec_spec(ins: Instruction, s: MachineView, rnd: u8) -> Result<MachineView, Fault> {
    let c = s.cpu;
    match ins {
        Instruction::Cls => Ok(
            MachineView {
                cpu: advance(c, ProgramCounter::Next),
                display: cleared(s.display),
                ..s
            },
        ),
        Instruction::Ret => if c.sp == 0 {
            Err(Fault::StackUnderflow)
        } else {
            Ok(with_cpu(s, CpuView { pc: c.stack[c.sp - 1], sp: (c.sp - 1) as u8, ..c }))
        },
        Instruction::Jp { addr } => then_go(s, ProgramCounter::JumpTo(addr)),
        Instruction::Call { addr } => if c.sp >= STACK_DEPTH {
            Err(Fault::StackOverflow)
        } else {
            Ok(
                with_cpu(
                    s,
                    CpuView {
                        stack: c.stack.update(c.sp as int, (c.pc + OPCODE_SIZE) as u16),
                        sp: (c.sp + 1) as u8,
                        pc: addr,
                        ..c
                    },
                ),
            )
        },
        Instruction::SeByte { x, kk } => then_go(s, skip_when(c.regs[x as int] == kk)),
        Instruction::SneByte { x, kk } => then_go(s, skip_when(c.regs[x as int] != kk)),
        Instruction::SeReg { x, y } => then_go(s, skip_when(c.regs[x as int] == c.regs[y as int])),
        Instruction::LdByte { x, kk } => then_next(s, set_reg(c, x, kk)),
        Instruction::AddByte { x, kk } => then_next(
            s,
            set_reg(c, x, ((c.regs[x as int] + kk) % 256) as u8),
        ),
        Instruction::LdReg { x, y } => then_next(s, set_reg(c, x, c.regs[y as int])),
        Instruction::Or { x, y } => then_next(s, set_reg(c, x, c.regs[x as int] | c.regs[y as int])),
        Instruction::And { x, y } => then_next(s, set_reg(c, x, c.regs[x as int] & c.regs[y as int])),
        Instruction::Xor { x, y } => then_next(s, set_reg(c, x, c.regs[x as int] ^ c.regs[y as int])),
        Instruction::AddReg { x, y } => {
            let sum = c.regs[x as int] + c.regs[y as int];
            then_next(s, set_with_flag(c, x, (sum % 256) as u8, sum > 255))
        },
        Instruction::Sub { x, y } => {
            let (vx, vy) = (c.regs[x as int], c.regs[y as int]);
            then_next(s, set_with_flag(c, x, ((vx - vy + 256) % 256) as u8, vx > vy))
        },
        Instruction::Shr { x } => {
            let vx = c.regs[x as int];
            then_next(s, set_with_flag(c, x, vx / 2, vx % 2 == 1))
        },
        Instruction::Subn { x, y } => {
            let (vx, vy) = (c.regs[x as int], c.regs[y as int]);
            then_next(s, set_with_flag(c, x, ((vy - vx + 256) % 256) as u8, vy > vx))
        },
        Instruction::Shl { x } => {
            let vx = c.regs[x as int];
            then_next(s, set_with_flag(c, x, ((vx * 2) % 256) as u8, vx >= 128))
        },
        Instruction::SneReg { x, y } => then_go(s, skip_when(c.regs[x as int] != c.regs[y as int])),
        Instruction::LdI { addr } => then_next(s, CpuView { i: addr, ..c }),
        Instruction::JpV0 { addr } => then_go(s, ProgramCounter::JumpTo((addr + c.regs[0]) as u16)),
        Instruction::Rnd { x, kk } => then_next(s, set_reg(c, x, rnd & kk)),
        Instruction::Drw { x, y, n } => if c.i + n > MEM_SIZE {
            Err(Fault::OutOfRange)
        } else {
            let sprite = s.mem.subrange(c.i as int, c.i + n);
            let (vx, vy) = (c.regs[x as int], c.regs[y as int]);
            let hit = collides(s.display.pixels, vx, vy, sprite);
            Ok(
                MachineView {
                    cpu: advance(set_reg(c, F as u8, if hit { 1u8 } else { 0u8 }), ProgramCounter::Next),
                    display: DisplayView {
                        pixels: drawn(s.display.pixels, vx, vy, sprite),
                        dirty: true,
                        ..s.display
                    },
                    ..s
                },
            )
        },
        Instruction::Skp { x } => {
            let vx = c.regs[x as int];
            then_go(s, skip_when(vx < KEY_COUNT && s.keyboard.keys[vx as int]))
        },
        Instruction::Sknp { x } => {
            let vx = c.regs[x as int];
            then_go(s, skip_when(!(vx < KEY_COUNT && s.keyboard.keys[vx as int])))
        },
        Instruction::LdVxDt { x } => then_next(s, set_reg(c, x, c.dt)),
        Instruction::LdKey { x } => Ok(
            MachineView {
                keyboard: KeyboardView { wait: KeyWait::AwaitingKey { register: x }, ..s.keyboard },
                ..s
            },
        ),
        Instruction::LdDtVx { x } => then_next(s, CpuView { dt: c.regs[x as int], ..c }),
        Instruction::LdStVx { x } => then_next(s, CpuView { st: c.regs[x as int], ..c }),
        Instruction::AddI { x } => then_next(
            s,
            CpuView { i: ((c.i + c.regs[x as int]) % 0x10000) as u16, ..c },
        ),
        Instruction::LdF { x } => then_next(s, CpuView { i: (c.regs[x as int] * GLYPH_SIZE) as u16, ..c }),
        Instruction::LdB { x } => match write_fault(c.i as int, 3) {
            Some(f) => Err(f),
            None => Ok(
                MachineView {
                    cpu: advance(c, ProgramCounter::Next),
                    mem: stored(s.mem, c.i as int, bcd(c.regs[x as int])),
                    ..s
                },
            ),
        },
        Instruction::StoreRegs { x } => match write_fault(c.i as int, x + 1) {
            Some(f) => Err(f),
            None => Ok(
                MachineView {
                    cpu: advance(c, ProgramCounter::Next),
                    mem: stored(s.mem, c.i as int, c.regs.take(x + 1)),
                    ..s
                },
            ),
        },
        Instruction::LoadRegs { x } => if c.i + x + 1 > MEM_SIZE {
            Err(Fault::OutOfRange)
        } else {
            then_next(s, CpuView { regs: loaded(c.regs, s.mem, c.i as int, x), ..c })
        },
        Instruction::Unknown { .. } => then_go(s, ProgramCounter::Next),
    }
}

/// The instruction word at the program counter, big-endian.
pub open spec fn fetch(s: MachineView) -> u16 {
    (s.mem[s.cpu.pc as int] * 256 + s.mem[s.cpu.pc + 1]) as u16
}

/// One step of machine `s`: while a key wait is pending, store the reported
/// key and move past the waiting instruction, or do nothing if none was
/// reported; otherwise fetch, decode and run the instruction at the program
/// counter.
pub open spec fn step_spec(s: MachineView, rnd: u8) -> Result<(MachineView, Step), Fault> {
    match s.keyboard.wait {
        KeyWait::AwaitingKey { register } => match s.keyboard.pressed {
            Some(k) => Ok(
                (
                    MachineView {
                        cpu: advance(set_reg(s.cpu, register, k), ProgramCounter::Next),
                        keyboard: KeyboardView { wait: KeyWait::Running, ..s.keyboard },
                        ..s
                    },
                    Step::Executed,
                ),
            ),
            None => Ok((s, Step::Waiting)),
        },
        KeyWait::Running => if s.cpu.pc + 1 >= MEM_SIZE {
            Err(Fault::OutOfRange)
        } else {
            let ins = instruction_of(fetch(s));
            match exec_spec(ins, s, rnd) {
                Ok(next) => Ok(
                    (
                        next,
                        if ins is Unknown {
                            Step::UnknownOpcode { word: fetch(s) }
                        } else {
                            Step::Executed
                        },
                    ),
                ),
                Err(f) => Err(f),
            }
        },
    }
}

/// Whether `post` and `r` are what one step of `s` gives with random byte
/// `rnd`.
pub open spec fn stepped(s: MachineView, rnd: u8, post: MachineView, r: Result<Step, Fault>) -> bool {
    match step_spec(s, rnd) {
        Ok((next, st)) => r == Ok::<Step, Fault>(st) && post == next,
        Err(f) => r == Err::<Step, Fault>(f),
    }
}

/// The processor: registers, program counter, stack and timers. It fetches
/// from a memory, draws to a display and queries a keyboard that it is
/// handed on each step.
pub struct Cpu {
    regs: [u8; REG_COUNT],
    i: u16,
    pc: u16,
    sp: u8,
    stack: [u16; STACK_DEPTH],
    dt: u8,
    st: u8,
}

impl View for Cpu {
    type V = CpuView;

    closed spec fn view(&self) -> CpuView {
        CpuView {
            regs: self.regs@,
            i: self.i,
            pc: self.pc,
            sp: self.sp,
            stack: self.stack@,
            dt: self.dt,
            st: self.st,
        }
    }
}

impl Cpu {
    /// Sixteen registers and stack slots, stack pointer within the stack.
    pub open spec fn wf(&self) -> bool {
        &&& self@.regs.len() == REG_COUNT
        &&& self@.stack.len() == STACK_DEPTH
        &&& self@.sp <= STACK_DEPTH
    }

    /// All registers zero, program counter at the program start.
    pub fn new() -> (c: Cpu)
        ensures
            c.wf(),
            c@.regs == Seq::new(REG_COUNT as nat, |j: int| 0u8),
            c@.stack == Seq::new(STACK_DEPTH as nat, |j: int| 0u16),
            c@.i == 0 && c@.pc == PROGRAM_START && c@.sp == 0 && c@.dt == 0 && c@.st == 0,
    {
        let c = Cpu {
            regs: [0; REG_COUNT],
            i: 0,
            pc: PROGRAM_START,
            sp: 0,
            stack: [0; STACK_DEPTH],
            dt: 0,
            st: 0,
        };
        assert(c@.regs =~= Seq::new(REG_COUNT as nat, |j: int| 0u8));
        assert(c@.stack =~= Seq::new(STACK_DEPTH as nat, |j: int| 0u16));
        c
    }
}

impl Cpu {
    /// Applies a directive to the program counter.
    fn advance_pc(&mut self, d: ProgramCounter)
        requires
            old(self).wf(),
            old(self)@.pc < MEM_SIZE,
        ensures
            final(self).wf(),
            final(self)@ == advance(old(self)@, d),
    {
        match d {
            ProgramCounter::Next => self.pc = self.pc + OPCODE_SIZE,
            ProgramCounter::Skip => self.pc = self.pc + 2 * OPCODE_SIZE,
            ProgramCounter::JumpTo(addr) => self.pc = addr,
        }
    }

    // 00E0 - CLS: clear the display.
    fn op_cls(&self, display: &mut Display) -> (d: ProgramCounter)
        requires
            old(display).wf(),
        ensures
            final(display).wf(),
            final(display)@ == cleared(old(display)@),
            d == ProgramCounter::Next,
    {
        display.clear();
        ProgramCounter::Next
    }

    // 00EE - RET: pop the return address into the program counter.
    fn op_ret(&mut self) -> (r: Result<ProgramCounter, Fault>)
        requires
            old(self).wf(),
        ensures
            final(self).wf(),
            old(self)@.sp == 0 ==> r == Err::<ProgramCounter, Fault>(Fault::StackUnderflow)
                && final(self)@ == old(self)@,
            old(self)@.sp > 0 ==> r == Ok::<ProgramCounter, Fault>(
                ProgramCounter::JumpTo(old(self)@.stack[old(self)@.sp - 1]),
            ) && final(self)@ == (CpuView { sp: (old(self)@.sp - 1) as u8, ..old(self)@ }),
    {
        if self.sp == 0 {
            return Err(Fault::StackUnderflow);
        }
        self.sp -= 1;
        Ok(ProgramCounter::JumpTo(self.stack[self.sp as usize]))
    }

    // 1nnn - JP addr: jump to nnn.
    fn op_jp_addr(&self, nnn: u16) -> (d: ProgramCounter)
        ensures
            d == ProgramCounter::JumpTo(nnn),
    {
        ProgramCounter::JumpTo(nnn)
    }

    // 2nnn - CALL addr: push the address of the next instruction, jump to nnn.
    fn op_call(&mut self, nnn: u16) -> (r: Result<ProgramCounter, Fault>)
        requires
            old(self).wf(),
            old(self)@.pc < MEM_SIZE,
        ensures
            final(self).wf(),
            old(self)@.sp >= STACK_DEPTH ==> r == Err::<ProgramCounter, Fault>(Fault::StackOverflow)
                && final(self)@ == old(self)@,
            old(self)@.sp < STACK_DEPTH ==> r == Ok::<ProgramCounter, Fault>(ProgramCounter::JumpTo(nnn))
                && final(self)@ == (CpuView {
                stack: old(self)@.stack.update(old(self)@.sp as int, (old(self)@.pc + OPCODE_SIZE) as u16),
                sp: (old(self)@.sp + 1) as u8,
                ..old(self)@
            }),
    {
        if self.sp as usize >= STACK_DEPTH {
            return Err(Fault::StackOverflow);
        }
        self.stack[self.sp as usize] = self.pc + OPCODE_SIZE;
        self.sp += 1;
        Ok(ProgramCounter::JumpTo(nnn))
    }

    // 3xkk - SE Vx, byte: skip if Vx == kk.
    fn op_se_byte(&self, x: u8, kk: u8) -> (d: ProgramCounter)
        requires
            self.wf(),
            x < 16,
        ensures
            d == skip_when(self@.regs[x as int] == kk),
    {
        if self.regs[x as usize] == kk {
            ProgramCounter::Skip
        } else {
            ProgramCounter::Next
        }
    }

    // 4xkk - SNE Vx, byte: skip if Vx != kk.
    fn op_sne_byte(&self, x: u8, kk: u8) -> (d: ProgramCounter)
        requires
            self.wf(),
            x < 16,
        ensures
            d == skip_when(self@.regs[x as int] != kk),
    {
        if self.regs[x as usize] != kk {
            ProgramCounter::Skip
        } else {
            ProgramCounter::Next
        }
    }

    // 5xy0 - SE Vx, Vy: skip if Vx == Vy.
    fn op_se_reg(&self, x: u8, y: u8) -> (d: ProgramCounter)
        requires
            self.wf(),
            x < 16,
            y < 16,
        ensures
            d == skip_when(self@.regs[x as int] == self@.regs[y as int]),
    {
        if self.regs[x as usize] == self.regs[y as usize] {
            ProgramCounter::Skip
        } else {
            ProgramCounter::Next
        }
    }

    /// Stores `v` in register `x`.
    fn set_v(&mut self, x: u8, v: u8)
        requires
            old(self).wf(),
            x < 16,
        ensures
            final(self).wf(),
            final(self)@ == set_reg(old(self)@, x, v),
    {
        self.regs[x as usize] = v;
    }

    // 6xkk - LD Vx, byte: Vx := kk.
    fn op_ld_byte(&mut self, x: u8, kk: u8) -> (d: ProgramCounter)
        requires
            old(self).wf(),
            x < 16,
        ensures
            final(self).wf(),
            final(self)@ == set_reg(old(self)@, x, kk),
            d == ProgramCounter::Next,
    {
        self.set_v(x, kk);
        ProgramCounter::Next
    }

    // 7xkk - ADD Vx, byte: Vx := Vx + kk, wrapping, VF untouched.
    fn op_add_byte(&mut self, x: u8, kk: u8) -> (d: ProgramCounter)
        requires
            old(self).wf(),
            x < 16,
        ensures
            final(self).wf(),
            final(self)@ == set_reg(old(self)@, x, ((old(self)@.regs[x as int] + kk) % 256) as u8),
            d == ProgramCounter::Next,
    {
        let sum = (self.regs[x as usize] as u16 + kk as u16) % 256;
        self.set_v(x, sum as u8);
        ProgramCounter::Next
    }

    // 8xy0 - LD Vx, Vy: Vx := Vy.
    fn op_ld_regs(&mut self, x: u8, y: u8) -> (d: ProgramCounter)
        requires
            old(self).wf(),
            x < 16,
            y < 16,
        ensures
            final(self).wf(),
            final(self)@ == set_reg(old(self)@, x, old(self)@.regs[y as int]),
            d == ProgramCounter::Next,
    {
        let vy = self.regs[y as usize];
        self.set_v(x, vy);
        ProgramCounter::Next
    }

    // 8xy1 - OR Vx, Vy: Vx := Vx | Vy.
    fn op_or(&mut self, x: u8, y: u8) -> (d: ProgramCounter)
        requires
            old(self).wf(),
            x < 16,
            y < 16,
        ensures
            final(self).wf(),
            final(self)@ == set_reg(old(self)@, x, old(self)@.regs[x as int] | old(self)@.regs[y as int]),
            d == ProgramCounter::Next,
    {
        let v = self.regs[x as usize] | self.regs[y as usize];
        self.set_v(x, v);
        ProgramCounter::Next
    }

    // 8xy2 - AND Vx, Vy: Vx := Vx & Vy.
    fn op_and(&mut self, x: u8, y: u8) -> (d: ProgramCounter)
        requires
            old(self).wf(),
            x < 16,
            y < 16,
        ensures
            final(self).wf(),
            final(self)@ == set_reg(old(self)@, x, old(self)@.regs[x as int] & old(self)@.regs[y as int]),
            d == ProgramCounter::Next,
    {
        let v = self.regs[x as usize] & self.regs[y as usize];
        self.set_v(x, v);
        ProgramCounter::Next
    }

    // 8xy3 - XOR Vx, Vy: Vx := Vx ^ Vy.
    fn op_xor(&mut self, x: u8, y: u8) -> (d: ProgramCounter)
        requires
            old(self).wf(),
            x < 16,
            y < 16,
        ensures
            final(self).wf(),
            final(self)@ == set_reg(old(self)@, x, old(self)@.regs[x as int] ^ old(self)@.regs[y as int]),
            d == ProgramCounter::Next,
    {
        let v = self.regs[x as usize] ^ self.regs[y as usize];
        self.set_v(x, v);
        ProgramCounter::Next
    }

    // 8xy4 - ADD Vx, Vy: the sum is taken in 16 bits; Vx gets its low
    // byte, then VF the carry.
    fn op_add_regs(&mut self, x: u8, y: u8) -> (d: ProgramCounter)
        requires
            old(self).wf(),
            x < 16,
            y < 16,
        ensures
            final(self).wf(),
            final(self)@ == set_with_flag(
                old(self)@,
                x,
                ((old(self)@.regs[x as int] + old(self)@.regs[y as int]) % 256) as u8,
                old(self)@.regs[x as int] + old(self)@.regs[y as int] > 255,
            ),
            d == ProgramCounter::Next,
    {
        let sum = self.regs[x as usize] as u16 + self.regs[y as usize] as u16;
        self.set_v(x, (sum % 256) as u8);
        self.set_v(F as u8, if sum > 255 { 1 } else { 0 });
        ProgramCounter::Next
    }

    // 8xy5 - SUB Vx, Vy: VF := no borrow; Vx := Vx - Vy, wrapping.
    fn op_sub(&mut self, x: u8, y: u8) -> (d: ProgramCounter)
        requires
            old(self).wf(),
            x < 16,
            y < 16,
        ensures
            final(self).wf(),
            final(self)@ == set_with_flag(
                old(self)@,
                x,
                ((old(self)@.regs[x as int] - old(self)@.regs[y as int] + 256) % 256) as u8,
                old(self)@.regs[x as int] > old(self)@.regs[y as int],
            ),
            d == ProgramCounter::Next,
    {
        let vx = self.regs[x as usize];
        let vy = self.regs[y as usize];
        let diff = (vx as u16 + 256 - vy as u16) % 256;
        self.set_v(x, diff as u8);
        self.set_v(F as u8, if vx > vy { 1 } else { 0 });
        ProgramCounter::Next
    }

    // 8xy6 - SHR Vx: VF := the low bit; Vx := Vx >> 1.
    fn op_shr(&mut self, x: u8) -> (d: ProgramCounter)
        requires
            old(self).wf(),
            x < 16,
        ensures
            final(self).wf(),
            final(self)@ == set_with_flag(
                old(self)@,
                x,
                old(self)@.regs[x as int] / 2,
                old(self)@.regs[x as int] % 2 == 1,
            ),
            d == ProgramCounter::Next,
    {
        let vx = self.regs[x as usize];
        self.set_v(x, vx / 2);
        self.set_v(F as u8, if vx % 2 == 1 { 1 } else { 0 });
        ProgramCounter::Next
    }

    // 8xy7 - SUBN Vx, Vy: VF := no borrow; Vx := Vy - Vx, wrapping.
    fn op_subn(&mut self, x: u8, y: u8) -> (d: ProgramCounter)
        requires
            old(self).wf(),
            x < 16,
            y < 16,
        ensures
            final(self).wf(),
            final(self)@ == set_with_flag(
                old(self)@,
                x,
                ((old(self)@.regs[y as int] - old(self)@.regs[x as int] + 256) % 256) as u8,
                old(self)@.regs[y as int] > old(self)@.regs[x as int],
            ),
            d == ProgramCounter::Next,
    {
        let vx = self.regs[x as usize];
        let vy = self.regs[y as usize];
        let diff = (vy as u16 + 256 - vx as u16) % 256;
        self.set_v(x, diff as u8);
        self.set_v(F as u8, if vy > vx { 1 } else { 0 });
        ProgramCounter::Next
    }

    // 8xyE - SHL Vx: VF := the high bit; Vx := Vx << 1, low eight bits.
    fn op_shl(&mut self, x: u8) -> (d: ProgramCounter)
        requires
            old(self).wf(),
            x < 16,
        ensures
            final(self).wf(),
            final(self)@ == set_with_flag(
                old(self)@,
                x,
                ((old(self)@.regs[x as int] * 2) % 256) as u8,
                old(self)@.regs[x as int] >= 128,
            ),
            d == ProgramCounter::Next,
    {
        let vx = self.regs[x as usize];
        let doubled = (vx as u16 * 2) % 256;
        self.set_v(x, doubled as u8);
        self.set_v(F as u8, if vx >= 128 { 1 } else { 0 });
        ProgramCounter::Next
    }

    // 9xy0 - SNE Vx, Vy: skip if Vx != Vy.
    fn op_sne_regs(&self, x: u8, y: u8) -> (d: ProgramCounter)
        requires
            self.wf(),
            x < 16,
            y < 16,
        ensures
            d == skip_when(self@.regs[x as int] != self@.regs[y as int]),
    {
        if self.regs[x as usize] != self.regs[y as usize] {
            ProgramCounter::Skip
        } else {
            ProgramCounter::Next
        }
    }

    // Annn - LD I, addr: I := nnn.
    fn op_ld_i(&mut self, nnn: u16) -> (d: ProgramCounter)
        requires
            old(self).wf(),
        ensures
            final(self).wf(),
            final(self)@ == (CpuView { i: nnn, ..old(self)@ }),
            d == ProgramCounter::Next,
    {
        self.i = nnn;
        ProgramCounter::Next
    }

    // Bnnn - JP V0, addr: jump to nnn + V0.
    fn op_jp_v0(&self, nnn: u16) -> (d: ProgramCounter)
        requires
            self.wf(),
            nnn < MEM_SIZE,
        ensures
            d == ProgramCounter::JumpTo((nnn + self@.regs[0]) as u16),
    {
        ProgramCounter::JumpTo(nnn + self.regs[0] as u16)
    }

    // Cxkk - RND Vx, byte: Vx := rnd & kk.
    fn op_rand(&mut self, x: u8, kk: u8, rnd: u8) -> (d: ProgramCounter)
        requires
            old(self).wf(),
            x < 16,
        ensures
            final(self).wf(),
            final(self)@ == set_reg(old(self)@, x, rnd & kk),
            d == ProgramCounter::Next,
    {
        self.set_v(x, rnd & kk);
        ProgramCounter::Next
    }

    // Ex9E - SKP Vx: skip if key Vx is down.
    fn op_skp(&self, x: u8, keyboard: &Keyboard) -> (d: ProgramCounter)
        requires
            self.wf(),
            keyboard.wf(),
            x < 16,
        ensures
            d == skip_when(self@.regs[x as int] < KEY_COUNT && keyboard@.keys[self@.regs[x as int] as int]),
    {
        if keyboard.query_key(self.regs[x as usize] as usize) {
            ProgramCounter::Skip
        } else {
            ProgramCounter::Next
        }
    }

    // ExA1 - SKNP Vx: skip if key Vx is up.
    fn op_sknp(&self, x: u8, keyboard: &Keyboard) -> (d: ProgramCounter)
        requires
            self.wf(),
            keyboard.wf(),
            x < 16,
        ensures
            d == skip_when(
                !(self@.regs[x as int] < KEY_COUNT && keyboard@.keys[self@.regs[x as int] as int]),
            ),
    {
        if !keyboard.query_key(self.regs[x as usize] as usize) {
            ProgramCounter::Skip
        } else {
            ProgramCounter::Next
        }
    }

    // Fx07 - LD Vx, DT: Vx := DT.
    fn op_ld_dt(&mut self, x: u8) -> (d: ProgramCounter)
        requires
            old(self).wf(),
            x < 16,
        ensures
            final(self).wf(),
            final(self)@ == set_reg(old(self)@, x, old(self)@.dt),
            d == ProgramCounter::Next,
    {
        let dt = self.dt;
        self.set_v(x, dt);
        ProgramCounter::Next
    }

    // Fx0A - LD Vx, K: block until a key press is stored in Vx. The
    // program counter stays on this instruction until then.
    fn op_ld_store_key(&self, x: u8, keyboard: &mut Keyboard) -> (d: ProgramCounter)
        requires
            old(keyboard).wf(),
            x < 16,
        ensures
            final(keyboard).wf(),
            final(keyboard)@ == (KeyboardView {
                wait: KeyWait::AwaitingKey { register: x },
                ..old(keyboard)@
            }),
            d == ProgramCounter::JumpTo(self@.pc),
    {
        keyboard.start_waiting_for_press(x);
        ProgramCounter::JumpTo(self.pc)
    }

    // Fx15 - LD DT, Vx: DT := Vx.
    fn op_ld_vx(&mut self, x: u8) -> (d: ProgramCounter)
        requires
            old(self).wf(),
            x < 16,
        ensures
            final(self).wf(),
            final(self)@ == (CpuView { dt: old(self)@.regs[x as int], ..old(self)@ }),
            d == ProgramCounter::Next,
    {
        self.dt = self.regs[x as usize];
        ProgramCounter::Next
    }

    // Fx18 - LD ST, Vx: ST := Vx.
    fn op_ld_st(&mut self, x: u8) -> (d: ProgramCounter)
        requires
            old(self).wf(),
            x < 16,
        ensures
            final(self).wf(),
            final(self)@ == (CpuView { st: old(self)@.regs[x as int], ..old(self)@ }),
            d == ProgramCounter::Next,
    {
        self.st = self.regs[x as usize];
        ProgramCounter::Next
    }

    // Fx1E - ADD I, Vx: I := I + Vx, wrapping at 16 bits.
    fn op_add_i(&mut self, x: u8) -> (d: ProgramCounter)
        requires
            old(self).wf(),
            x < 16,
        ensures
            final(self).wf(),
            final(self)@ == (CpuView {
                i: ((old(self)@.i + old(self)@.regs[x as int]) % 0x10000) as u16,
                ..old(self)@
            }),
            d == ProgramCounter::Next,
    {
        self.i = ((self.i as u32 + self.regs[x as usize] as u32) % 0x10000) as u16;
        ProgramCounter::Next
    }

    // Fx29 - LD F, Vx: I := address of the glyph of digit Vx.
    fn op_ld_digit(&mut self, x: u8) -> (d: ProgramCounter)
        requires
            old(self).wf(),
            x < 16,
        ensures
            final(self).wf(),
            final(self)@ == (CpuView { i: (old(self)@.regs[x as int] * GLYPH_SIZE) as u16, ..old(self)@ }),
            d == ProgramCounter::Next,
    {
        self.i = (self.regs[x as usize] as u16) * GLYPH_SIZE;
        ProgramCounter::Next
    }
}

impl Cpu {
    // Dxyn - DRW Vx, Vy, n: XOR-draw the n bytes at I at (Vx, Vy);
    // VF := whether a lit pixel was erased.
    fn op_display_sprite(
        &mut self,
        x: u8,
        y: u8,
        n: u8,
        mem: &Memory,
        display: &mut Display,
    ) -> (r: Result<ProgramCounter, Fault>)
        requires
            old(self).wf(),
            mem.wf(),
            old(display).wf(),
            x < 16,
            y < 16,
            n < 16,
        ensures
            final(self).wf(),
            final(display).wf(),
            old(self)@.i + n > MEM_SIZE ==> r == Err::<ProgramCounter, Fault>(Fault::OutOfRange)
                && final(self)@ == old(self)@ && final(display)@ == old(display)@,
            old(self)@.i + n <= MEM_SIZE ==> ({
                let c = old(self)@;
                let sprite = mem@.subrange(c.i as int, c.i + n);
                let (vx, vy) = (c.regs[x as int], c.regs[y as int]);
                let hit = collides(old(display)@.pixels, vx, vy, sprite);
                &&& r == Ok::<ProgramCounter, Fault>(ProgramCounter::Next)
                &&& final(self)@ == set_reg(c, F as u8, if hit { 1u8 } else { 0u8 })
                &&& final(display)@ == (DisplayView {
                    pixels: drawn(old(display)@.pixels, vx, vy, sprite),
                    dirty: true,
                    ..old(display)@
                })
            }),
    {
        let at = self.i;
        if at as usize + n as usize > MEM_SIZE {
            return Err(Fault::OutOfRange);
        }
        let mut sprite: Vec<u8> = Vec::new();
        let mut j: u16 = 0;
        while j < n as u16
            invariant
                j <= n,
                at + n <= MEM_SIZE,
                mem.wf(),
                sprite@ == mem@.subrange(at as int, at + j),
            decreases n - j,
        {
            let byte = match mem.read_byte(at + j) {
                Ok(b) => b,
                Err(f) => return Err(f),
            };
            sprite.push(byte);
            assert(sprite@ =~= mem@.subrange(at as int, at + j + 1));
            j += 1;
        }
        let vx = self.regs[x as usize];
        let vy = self.regs[y as usize];
        let hit = display.draw(vx, vy, &sprite);
        self.set_v(F as u8, if hit { 1 } else { 0 });
        Ok(ProgramCounter::Next)
    }

    // Fx33 - LD B, Vx: hundreds, tens and ones of Vx at I, I+1, I+2.
    fn op_ld_bcd(&self, x: u8, mem: &mut Memory) -> (r: Result<ProgramCounter, Fault>)
        requires
            self.wf(),
            old(mem).wf(),
            x < 16,
        ensures
            final(mem).wf(),
            match write_fault(self@.i as int, 3) {
                Some(f) => r == Err::<ProgramCounter, Fault>(f) && final(mem)@ == old(mem)@,
                None => r == Ok::<ProgramCounter, Fault>(ProgramCounter::Next)
                    && final(mem)@ == stored(old(mem)@, self@.i as int, bcd(self@.regs[x as int])),
            },
    {
        let at = self.i;
        if at < PROGRAM_START {
            return Err(Fault::ReservedRegionFault);
        }
        if at as usize + 3 > MEM_SIZE {
            return Err(Fault::OutOfRange);
        }
        let vx = self.regs[x as usize];
        let _ = mem.write_byte(at, vx / 100);
        let _ = mem.write_byte(at + 1, (vx % 100) / 10);
        let _ = mem.write_byte(at + 2, vx % 10);
        assert(mem@ =~= stored(old(mem)@, at as int, bcd(vx)));
        Ok(ProgramCounter::Next)
    }

    // Fx55 - LD [I], Vx: V0..=Vx to memory from I on.
    fn op_str_regs(&self, x: u8, mem: &mut Memory) -> (r: Result<ProgramCounter, Fault>)
        requires
            self.wf(),
            old(mem).wf(),
            x < 16,
        ensures
            final(mem).wf(),
            match write_fault(self@.i as int, x + 1) {
                Some(f) => r == Err::<ProgramCounter, Fault>(f) && final(mem)@ == old(mem)@,
                None => r == Ok::<ProgramCounter, Fault>(ProgramCounter::Next)
                    && final(mem)@ == stored(old(mem)@, self@.i as int, self@.regs.take(x + 1)),
            },
    {
        let at = self.i;
        if at < PROGRAM_START {
            return Err(Fault::ReservedRegionFault);
        }
        if at as usize + x as usize + 1 > MEM_SIZE {
            return Err(Fault::OutOfRange);
        }
        let mut j: u16 = 0;
        assert(mem@ =~= stored(old(mem)@, at as int, self@.regs.take(0)));
        while j <= x as u16
            invariant
                j <= x + 1,
                x < 16,
                PROGRAM_START <= at,
                at + x + 1 <= MEM_SIZE,
                at == self@.i,
                self.wf(),
                mem.wf(),
                mem@ == stored(old(mem)@, at as int, self@.regs.take(j as int)),
            decreases x + 1 - j,
        {
            let _ = mem.write_byte(at + j, self.regs[j as usize]);
            assert(mem@ =~= stored(old(mem)@, at as int, self@.regs.take(j + 1)));
            j += 1;
        }
        Ok(ProgramCounter::Next)
    }

    // Fx65 - LD Vx, [I]: V0..=Vx from memory from I on.
    fn op_ld_all_regs(&mut self, x: u8, mem: &Memory) -> (r: Result<ProgramCounter, Fault>)
        requires
            old(self).wf(),
            mem.wf(),
            x < 16,
        ensures
            final(self).wf(),
            old(self)@.i + x + 1 > MEM_SIZE ==> r == Err::<ProgramCounter, Fault>(Fault::OutOfRange)
                && final(self)@ == old(self)@,
            old(self)@.i + x + 1 <= MEM_SIZE ==> r == Ok::<ProgramCounter, Fault>(ProgramCounter::Next)
                && final(self)@ == (CpuView {
                regs: loaded(old(self)@.regs, mem@, old(self)@.i as int, x),
                ..old(self)@
            }),
    {
        let at = self.i;
        if at as usize + x as usize + 1 > MEM_SIZE {
            return Err(Fault::OutOfRange);
        }
        let mut j: u8 = 0;
        assert(self@.regs =~= Seq::new(
            REG_COUNT as nat,
            |k: int| if k < 0 { mem@[at + k] } else { old(self)@.regs[k] },
        ));
        while j <= x
            invariant
                j <= x + 1,
                x < 16,
                at + x + 1 <= MEM_SIZE,
                mem.wf(),
                self.wf(),
                self@ == (CpuView {
                    regs: Seq::new(
                        REG_COUNT as nat,
                        |k: int| if k < j { mem@[at + k] } else { old(self)@.regs[k] },
                    ),
                    ..old(self)@
                }),
            decreases x + 1 - j,
        {
            let byte = match mem.read_byte(at + j as u16) {
                Ok(b) => b,
                Err(f) => return Err(f),
            };
            self.set_v(j, byte);
            assert(self@.regs =~= Seq::new(
                REG_COUNT as nat,
                |k: int| if k < j + 1 { mem@[at + k] } else { old(self)@.regs[k] },
            ));
            j += 1;
        }
        assert(self@.regs =~= loaded(old(self)@.regs, mem@, at as int, x));
        Ok(ProgramCounter::Next)
    }
}

/// Relies on `rand::thread_rng` and `rand::Rng::gen`: a byte from the
/// thread's generator. Nothing is known of its value.
#[verifier::external_body]
fn random_byte() -> u8 {
    rand::Rng::gen::<u8>(&mut rand::thread_rng())
}

impl Cpu {
    /// Runs one decoded instruction.
    fn execute(
        &mut self,
        ins: Instruction,
        mem: &mut Memory,
        display: &mut Display,
        keyboard: &mut Keyboard,
        rnd: u8,
    ) -> (r: Result<(), Fault>)
        requires
            old(self).wf(),
            old(mem).wf(),
            old(display).wf(),
            old(keyboard).wf(),
            ins.wf(),
            old(self)@.pc < MEM_SIZE,
        ensures
            final(self).wf(),
            final(mem).wf(),
            final(display).wf(),
            final(keyboard).wf(),
            r is Err ==> final(keyboard)@ == old(keyboard)@,
            match exec_spec(ins, machine(old(self)@, old(mem)@, old(display)@, old(keyboard)@), rnd) {
                Ok(next) => r == Ok::<(), Fault>(())
                    && machine(final(self)@, final(mem)@, final(display)@, final(keyboard)@) == next,
                Err(f) => r == Err::<(), Fault>(f),
            },
    {
        let d = match ins {
            Instruction::Cls => self.op_cls(display),
            Instruction::Ret => match self.op_ret() {
                Ok(d) => d,
                Err(f) => return Err(f),
            },
            Instruction::Jp { addr } => self.op_jp_addr(addr),
            Instruction::Call { addr } => match self.op_call(addr) {
                Ok(d) => d,
                Err(f) => return Err(f),
            },
            Instruction::SeByte { x, kk } => self.op_se_byte(x, kk),
            Instruction::SneByte { x, kk } => self.op_sne_byte(x, kk),
            Instruction::SeReg { x, y } => self.op_se_reg(x, y),
            Instruction::LdByte { x, kk } => self.op_ld_byte(x, kk),
            Instruction::AddByte { x, kk } => self.op_add_byte(x, kk),
            Instruction::LdReg { x, y } => self.op_ld_regs(x, y),
            Instruction::Or { x, y } => self.op_or(x, y),
            Instruction::And { x, y } => self.op_and(x, y),
            Instruction::Xor { x, y } => self.op_xor(x, y),
            Instruction::AddReg { x, y } => self.op_add_regs(x, y),
            Instruction::Sub { x, y } => self.op_sub(x, y),
            Instruction::Shr { x } => self.op_shr(x),
            Instruction::Subn { x, y } => self.op_subn(x, y),
            Instruction::Shl { x } => self.op_shl(x),
            Instruction::SneReg { x, y } => self.op_sne_regs(x, y),
            Instruction::LdI { addr } => self.op_ld_i(addr),
            Instruction::JpV0 { addr } => self.op_jp_v0(addr),
            Instruction::Rnd { x, kk } => self.op_rand(x, kk, rnd),
            Instruction::Drw { x, y, n } => match self.op_display_sprite(x, y, n, mem, display) {
                Ok(d) => d,
                Err(f) => return Err(f),
            },
            Instruction::Skp { x } => self.op_skp(x, keyboard),
            Instruction::Sknp { x } => self.op_sknp(x, keyboard),
            Instruction::LdVxDt { x } => self.op_ld_dt(x),
            Instruction::LdKey { x } => self.op_ld_store_key(x, keyboard),
            Instruction::LdDtVx { x } => self.op_ld_vx(x),
            Instruction::LdStVx { x } => self.op_ld_st(x),
            Instruction::AddI { x } => self.op_add_i(x),
            Instruction::LdF { x } => self.op_ld_digit(x),
            Instruction::LdB { x } => match self.op_ld_bcd(x, mem) {
                Ok(d) => d,
                Err(f) => return Err(f),
            },
            Instruction::StoreRegs { x } => match self.op_str_regs(x, mem) {
                Ok(d) => d,
                Err(f) => return Err(f),
            },
            Instruction::LoadRegs { x } => match self.op_ld_all_regs(x, mem) {
                Ok(d) => d,
                Err(f) => return Err(f),
            },
            Instruction::Unknown { .. } => ProgramCounter::Next,
        };
        self.advance_pc(d);
        Ok(())
    }

    /// One step of the machine made of this processor and the given
    /// memory, display and keyboard, with `rnd` as the random byte that
    /// `Cxkk` uses.
    pub fn step(
        &mut self,
        mem: &mut Memory,
        display: &mut Display,
        keyboard: &mut Keyboard,
        rnd: u8,
    ) -> (r: Result<Step, Fault>)
        requires
            machine(old(self)@, old(mem)@, old(display)@, old(keyboard)@).wf(),
        ensures
            machine(final(self)@, final(mem)@, final(display)@, final(keyboard)@).wf(),
            stepped(
                machine(old(self)@, old(mem)@, old(display)@, old(keyboard)@),
                rnd,
                machine(final(self)@, final(mem)@, final(display)@, final(keyboard)@),
                r,
            ),
    {
        match keyboard.wait_state() {
            KeyWait::AwaitingKey { register } => match keyboard.last_pressed() {
                Some(k) => {
                    self.set_v(register, k);
                    self.advance_pc(ProgramCounter::Next);
                    keyboard.stop_waiting_for_press();
                    Ok(Step::Executed)
                },
                None => Ok(Step::Waiting),
            },
            KeyWait::Running => {
                if self.pc as usize + 1 >= MEM_SIZE {
                    return Err(Fault::OutOfRange);
                }
                let hi = match mem.read_byte(self.pc) {
                    Ok(b) => b,
                    Err(f) => return Err(f),
                };
                let lo = match mem.read_byte(self.pc + 1) {
                    Ok(b) => b,
                    Err(f) => return Err(f),
                };
                let word = hi as u16 * 256 + lo as u16;
                let ins = Instruction::decode(word);
                match self.execute(ins, mem, display, keyboard, rnd) {
                    Ok(()) => {},
                    Err(f) => return Err(f),
                }
                match ins {
                    Instruction::Unknown { word } => Ok(Step::UnknownOpcode { word }),
                    _ => Ok(Step::Executed),
                }
            },
        }
    }

    /// One step, with a fresh random byte for `Cxkk`. The outcome is that of
    /// `step` for some random byte.
    pub fn execute_next_instruction(
        &mut self,
        mem: &mut Memory,
        display: &mut Display,
        keyboard: &mut Keyboard,
    ) -> (r: Result<Step, Fault>)
        requires
            machine(old(self)@, old(mem)@, old(display)@, old(keyboard)@).wf(),
        ensures
            machine(final(self)@, final(mem)@, final(display)@, final(keyboard)@).wf(),
            exists|rnd: u8|
                #[trigger] stepped(
                    machine(old(self)@, old(mem)@, old(display)@, old(keyboard)@),
                    rnd,
                    machine(final(self)@, final(mem)@, final(display)@, final(keyboard)@),
                    r,
                ),
    {
        let rnd = random_byte();
        self.step(mem, display, keyboard, rnd)
    }

    /// One tick of the 60 Hz clock: each timer that is above zero goes down
    /// by one.
    pub fn tick_timers(&mut self)
        requires
            old(self).wf(),
        ensures
            final(self).wf(),
            final(self)@ == (CpuView {
                dt: if old(self)@.dt > 0 { (old(self)@.dt - 1) as u8 } else { 0u8 },
                st: if old(self)@.st > 0 { (old(self)@.st - 1) as u8 } else { 0u8 },
                ..old(self)@
            }),
    {
        if self.dt > 0 {
            self.dt -= 1;
        }
        if self.st > 0 {
            self.st -= 1;
        }
    }
}

impl Cpu {
    /// Register `Vx`.
    pub fn v(&self, x: usize) -> (r: u8)
        requires
            self.wf(),
            x < REG_COUNT,
        ensures
            r == self@.regs[x as int],
    {
        self.regs[x]
    }

    /// The index register `I`.
    pub fn i(&self) -> (r: u16)
        ensures
            r == self@.i,
    {
        self.i
    }

    /// The program counter.
    pub fn pc(&self) -> (r: u16)
        ensures
            r == self@.pc,
    {
        self.pc
    }

    /// The stack pointer: how many return addresses are pushed.
    pub fn sp(&self) -> (r: u8)
        ensures
            r == self@.sp,
    {
        self.sp
    }

    /// The delay timer.
    pub fn dt(&self) -> (r: u8)
        ensures
            r == self@.dt,
    {
        self.dt
    }

    /// The sound timer.
    pub fn st(&self) -> (r: u8)
        ensures
            r == self@.st,
    {
        self.st
    }
}

/// `8xy4` sets VF to 1 exactly when `Vx + Vy` exceeds 255, and leaves the
/// low eight bits of the sum in `Vx` (unless `Vx` is VF, which the flag
/// overwrites).
pub proof fn law_add_carry(s: MachineView, x: u8, y: u8, rnd: u8)
    requires
        s.wf(),
        x < 16,
        y < 16,
    ensures
        ({
            let (vx, vy) = (s.cpu.regs[x as int], s.cpu.regs[y as int]);
            match exec_spec(Instruction::AddReg { x, y }, s, rnd) {
                Ok(t) => {
                    &&& t.cpu.regs[F as int] == if vx + vy > 255 { 1u8 } else { 0u8 }
                    &&& x != F ==> t.cpu.regs[x as int] == (vx + vy) % 256
                },
                Err(_) => false,
            }
        }),
{
}

/// `8xy5` sets VF to 1 exactly when `Vx > Vy`, and `8xy7` exactly when
/// `Vy > Vx`, whatever register the wrapped difference goes to.
pub proof fn law_sub_flag(s: MachineView, x: u8, y: u8, rnd: u8)
    requires
        s.wf(),
        x < 16,
        y < 16,
    ensures
        ({
            let (vx, vy) = (s.cpu.regs[x as int], s.cpu.regs[y as int]);
            &&& exec_spec(Instruction::Sub { x, y }, s, rnd) matches Ok(t)
                && t.cpu.regs[F as int] == if vx > vy { 1u8 } else { 0u8 }
            &&& exec_spec(Instruction::Subn { x, y }, s, rnd) matches Ok(t)
                && t.cpu.regs[F as int] == if vy > vx { 1u8 } else { 0u8 }
        }),
{
}

/// `8xy6` leaves in VF the low bit of `Vx`, the one shifted out; `8xyE`
/// leaves the high bit.
pub proof fn law_shift_flag(s: MachineView, x: u8, rnd: u8)
    requires
        s.wf(),
        x < 16,
    ensures
        ({
            let vx = s.cpu.regs[x as int];
            &&& exec_spec(Instruction::Shr { x }, s, rnd) matches Ok(t)
                && t.cpu.regs[F as int] == vx & 1
            &&& exec_spec(Instruction::Shl { x }, s, rnd) matches Ok(t)
                && t.cpu.regs[F as int] == (vx >> 7u8) & 1
        }),
{
    let vx = s.cpu.regs[x as int];
    assert((vx & 1) == (if vx % 2 == 1 { 1u8 } else { 0u8 })) by (bit_vector);
    assert(((vx >> 7u8) & 1) == (if vx >= 128 { 1u8 } else { 0u8 })) by (bit_vector);
}

/// A step that runs `CALL addr` followed by a step that runs the `RET` at
/// `addr` brings the program counter to the instruction after the call,
/// with the stack as deep as before.
pub proof fn law_call_ret(s: MachineView, addr: u16, rnd1: u8, rnd2: u8)
    requires
        s.wf(),
        s.keyboard.wait == KeyWait::Running,
        s.cpu.pc + 1 < MEM_SIZE,
        s.cpu.sp < STACK_DEPTH,
        instruction_of(fetch(s)) == (Instruction::Call { addr }),
        addr + 1 < MEM_SIZE,
        instruction_of((s.mem[addr as int] * 256 + s.mem[addr + 1]) as u16) == Instruction::Ret,
    ensures
        step_spec(s, rnd1) matches Ok((s1, _)) && step_spec(s1, rnd2) matches Ok((s2, _))
            && s2.cpu.pc == s.cpu.pc + OPCODE_SIZE && s2.cpu.sp == s.cpu.sp,
{
}

} // verus!
