use vstd::prelude::*;

use crate::fault::Fault;

verus! {

/// Number of addressable bytes.
pub const MEM_SIZE: usize = 0x1000;

/// First address outside the reserved font region; programs are loaded here.
pub const PROGRAM_START: u16 = 0x200;

/// Number of bytes taken by the built-in font (sixteen glyphs of five rows).
pub const FONT_SIZE: usize = 80;

/// The sixteen hexadecimal digit glyphs, five rows each, glyph `d` at `5 * d`.
pub open spec fn font() -> Seq<u8> {
    seq![
        0xF0u8, 0x90, 0x90, 0x90, 0xF0,
        0x20, 0x60, 0x20, 0x20, 0x70,
        0xF0, 0x10, 0xF0, 0x80, 0xF0,
        0xF0, 0x10, 0xF0, 0x10, 0xF0,
        0x90, 0x90, 0xF0, 0x10, 0x10,
        0xF0, 0x80, 0xF0, 0x10, 0xF0,
        0xF0, 0x80, 0xF0, 0x90, 0xF0,
        0xF0, 0x10, 0x20, 0x40, 0x40,
        0xF0, 0x90, 0xF0, 0x90, 0xF0,
        0xF0, 0x90, 0xF0, 0x10, 0xF0,
        0xF0, 0x90, 0xF0, 0x90, 0x90,
        0xE0, 0x90, 0xE0, 0x90, 0xE0,
        0xF0, 0x80, 0x80, 0x80, 0xF0,
        0xE0, 0x90, 0x90, 0x90, 0xE0,
        0xF0, 0x80, 0xF0, 0x80, 0xF0,
        0xF0, 0x80, 0xF0, 0x80, 0x80,
    ]
}

/// The machine's byte store: `0x000..0x200` holds the font, the rest is
/// program and data.
pub struct Memory {
    data: [u8; MEM_SIZE],
}

impl View for Memory {
    type V = Seq<u8>;

    closed spec fn view(&self) -> Seq<u8> {
        self.data@
    }
}

impl Memory {
    /// Every memory has exactly `MEM_SIZE` bytes.
    pub open spec fn wf(&self) -> bool {
        self@.len() == MEM_SIZE
    }

    /// A zeroed memory with the font installed at address 0.
    pub fn new() -> (m: Memory)
        ensures
            m.wf(),
            forall|a: int| 0 <= a < FONT_SIZE ==> m@[a] == font()[a],
            forall|a: int| FONT_SIZE <= a < MEM_SIZE ==> m@[a] == 0,
    {
        let glyphs: [u8; FONT_SIZE] = [
            0xF0, 0x90, 0x90, 0x90, 0xF0,
            0x20, 0x60, 0x20, 0x20, 0x70,
            0xF0, 0x10, 0xF0, 0x80, 0xF0,
            0xF0, 0x10, 0xF0, 0x10, 0xF0,
            0x90, 0x90, 0xF0, 0x10, 0x10,
            0xF0, 0x80, 0xF0, 0x10, 0xF0,
            0xF0, 0x80, 0xF0, 0x90, 0xF0,
            0xF0, 0x10, 0x20, 0x40, 0x40,
            0xF0, 0x90, 0xF0, 0x90, 0xF0,
            0xF0, 0x90, 0xF0, 0x10, 0xF0,
            0xF0, 0x90, 0xF0, 0x90, 0x90,
            0xE0, 0x90, 0xE0, 0x90, 0xE0,
            0xF0, 0x80, 0x80, 0x80, 0xF0,
            0xE0, 0x90, 0x90, 0x90, 0xE0,
            0xF0, 0x80, 0xF0, 0x80, 0xF0,
            0xF0, 0x80, 0xF0, 0x80, 0x80,
        ];
        assert(glyphs@ =~= font());
        let mut memory = Memory { data: [0u8; MEM_SIZE] };
        let mut idx: usize = 0;
        while idx < FONT_SIZE
            invariant
                idx <= FONT_SIZE,
                glyphs@ == font(),
                memory.data@.len() == MEM_SIZE,
                forall|a: int| 0 <= a < idx ==> memory.data@[a] == font()[a],
                forall|a: int| idx <= a < MEM_SIZE ==> memory.data@[a] == 0,
            decreases FONT_SIZE - idx,
        {
            memory.data[idx] = glyphs[idx];
            idx += 1;
        }
        memory
    }

    /// Stores `value` at `address`; the font region and addresses past the
    /// end are refused and leave memory as it was.
    pub fn write_byte(&mut self, address: u16, value: u8) -> (r: Result<(), Fault>)
        requires
            old(self).wf(),
        ensures
            final(self).wf(),
            address < PROGRAM_START ==> r == Err::<(), Fault>(Fault::ReservedRegionFault),
            address >= MEM_SIZE ==> r == Err::<(), Fault>(Fault::OutOfRange),
            r is Err ==> final(self)@ == old(self)@,
            PROGRAM_START <= address < MEM_SIZE ==> r == Ok::<(), Fault>(())
                && final(self)@ == old(self)@.update(address as int, value),
    {
        if address < PROGRAM_START {
            return Err(Fault::ReservedRegionFault);
        }
        if address as usize >= MEM_SIZE {
            return Err(Fault::OutOfRange);
        }
        self.data[address as usize] = value;
        Ok(())
    }

    /// Copies `bytes` into memory from `PROGRAM_START` on; a program that
    /// does not fit below `MEM_SIZE` is refused and memory is left as it was.
    pub fn load(&mut self, bytes: &Vec<u8>) -> (r: Result<(), Fault>)
        requires
            old(self).wf(),
        ensures
            final(self).wf(),
            bytes@.len() > MEM_SIZE - PROGRAM_START ==> r == Err::<(), Fault>(Fault::OutOfRange)
                && final(self)@ == old(self)@,
            bytes@.len() <= MEM_SIZE - PROGRAM_START ==> r == Ok::<(), Fault>(()),
            bytes@.len() <= MEM_SIZE - PROGRAM_START ==> forall|a: int|
                0 <= a < MEM_SIZE ==> #[trigger] final(self)@[a] == if PROGRAM_START <= a
                    < PROGRAM_START + bytes@.len() {
                    bytes@[a - PROGRAM_START]
                } else {
                    old(self)@[a]
                },
    {
        if bytes.len() > MEM_SIZE - PROGRAM_START as usize {
            return Err(Fault::OutOfRange);
        }
        let mut idx: usize = 0;
        while idx < bytes.len()
            invariant
                idx <= bytes@.len() <= MEM_SIZE - PROGRAM_START,
                self.data@.len() == MEM_SIZE,
                forall|a: int|
                    0 <= a < MEM_SIZE ==> #[trigger] self.data@[a] == if PROGRAM_START <= a
                        < PROGRAM_START + idx {
                        bytes@[a - PROGRAM_START]
                    } else {
                        old(self)@[a]
                    },
            decreases bytes@.len() - idx,
        {
            self.data[PROGRAM_START as usize + idx] = bytes[idx];
            idx += 1;
        }
        Ok(())
    }

    /// The byte at `address`, or `OutOfRange` past the end.
    pub fn read_byte(&self, address: u16) -> (r: Result<u8, Fault>)
        requires
            self.wf(),
        ensures
            address < MEM_SIZE ==> r == Ok::<u8, Fault>(self@[address as int]),
            address >= MEM_SIZE ==> r == Err::<u8, Fault>(Fault::OutOfRange),
    {
        if address as usize >= MEM_SIZE {
            return Err(Fault::OutOfRange);
        }
        Ok(self.data[address as usize])
    }
}

} // verus!
