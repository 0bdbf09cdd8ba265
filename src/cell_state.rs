use vstd::prelude::*;

verus! {

/// Bytes of memory each cell owns: half of the 8-bit address space.
pub const MEMORY_SIZE: usize = 128;

/// Number of registers of a cell.
pub const REGISTER_COUNT: usize = 8;

/// What a cell holds, as sequences of bytes.
pub ghost struct CellModel {
    pub memory: Seq<u8>,
    pub registers: Seq<u8>,
}

impl CellModel {
    pub open spec fn wf(self) -> bool {
        self.memory.len() == MEMORY_SIZE && self.registers.len() == REGISTER_COUNT
    }
}

/// The persistent state of one cell: its memory and its register file.
#[derive(Debug, Clone, Copy)]
pub struct CellState {
    /// Memory of the cell; while paired as the neighbour it is the upper half
    /// of the pair's address space.
    pub memory: [u8; 128],
    /// Accumulator, flags, program counter, stack pointer and 4 general purpose registers.
    pub registers: [u8; 8],
}

impl View for CellState {
    type V = CellModel;

    open spec fn view(&self) -> CellModel {
        CellModel { memory: self.memory@, registers: self.registers@ }
    }
}

/// Relies on rand::random::<u8>: a byte drawn from the thread-local generator.
/// Nothing is promised of its value.
#[verifier::external_body]
fn random_byte() -> (r: u8) {
    rand::random::<u8>()
}

impl CellState {
    /// Each cell is drawn as a square tile of this many pixels a side.
    pub const CANVAS_SIDE: usize = 7;
    pub const MEMORY_SIZE: usize = 128;
    pub const REGISTER_ACCUMULATOR: usize = 0;
    pub const REGISTER_FLAGS: usize = 1;
    pub const REGISTER_PROGRAM_COUNTER: usize = 2;
    pub const REGISTER_STACK_POINTER: usize = 3;
    pub const REGISTER_B: usize = 4;
    pub const REGISTER_C: usize = 5;
    pub const REGISTER_D: usize = 6;
    pub const REGISTER_E: usize = 7;
    /// Zero flag.
    pub const FLAG_Z_MASK: u8 = 0b0000_0001;
    /// Negative flag.
    pub const FLAG_N_MASK: u8 = 0b0000_0010;
    /// Carry flag.
    pub const FLAG_C_MASK: u8 = 0b0000_0100;

    /// A cell with the given memory and registers.
    pub fn new(memory: [u8; 128], registers: [u8; 8]) -> (r: Self)
        ensures
            r.memory == memory,
            r.registers == registers,
    {
        Self { memory, registers }
    }

    /// A cell whose every byte of memory and every register is drawn at random.
    pub fn random() -> (r: Self)
        ensures
            r@.wf(),
    {
        let mut memory: [u8; 128] = [0u8; 128];
        let mut i: usize = 0;
        while i < MEMORY_SIZE
            invariant
                i <= MEMORY_SIZE,
                memory@.len() == MEMORY_SIZE,
            decreases MEMORY_SIZE - i,
        {
            memory[i] = random_byte();
            i = i + 1;
        }
        let mut registers: [u8; 8] = [0u8; 8];
        let mut k: usize = 0;
        while k < REGISTER_COUNT
            invariant
                k <= REGISTER_COUNT,
                registers@.len() == REGISTER_COUNT,
            decreases REGISTER_COUNT - k,
        {
            registers[k] = random_byte();
            k = k + 1;
        }
        Self { memory, registers }
    }
}

/// Number of pixels of a tile that hold memory: three bytes to a pixel, the
/// last one padded.
pub const MEMORY_PIXELS: usize = 43;

/// The byte of memory at `a`, or 0 past its end.
pub open spec fn padded_byte(memory: Seq<u8>, a: int) -> u8 {
    if 0 <= a < memory.len() {
        memory[a]
    } else {
        0
    }
}

impl CellState {
    /// The colours of the cell's tile, pixel by pixel: registers 0 to 5 in the
    /// first two pixels, registers 6 and 7 with blue 0 in the third, then the
    /// memory three bytes to a pixel, padded with zeros at the end.
    pub fn pixels(&self) -> (r: Vec<(u8, u8, u8)>)
        ensures
            r@.len() == 3 + MEMORY_PIXELS,
            r@[0] == (self.registers[0], self.registers[1], self.registers[2]),
            r@[1] == (self.registers[3], self.registers[4], self.registers[5]),
            r@[2] == (self.registers[6], self.registers[7], 0u8),
            forall|i: int|
                0 <= i < MEMORY_PIXELS ==> #[trigger] r@[3 + i] == (
                    padded_byte(self.memory@, 3 * i),
                    padded_byte(self.memory@, 3 * i + 1),
                    padded_byte(self.memory@, 3 * i + 2),
                ),
    {
        let mut out: Vec<(u8, u8, u8)> = Vec::new();
        out.push((self.registers[0], self.registers[1], self.registers[2]));
        out.push((self.registers[3], self.registers[4], self.registers[5]));
        out.push((self.registers[6], self.registers[7], 0));
        let mut i: usize = 0;
        while i < MEMORY_PIXELS
            invariant
                i <= MEMORY_PIXELS,
                out@.len() == 3 + i,
                out@[0] == (self.registers[0], self.registers[1], self.registers[2]),
                out@[1] == (self.registers[3], self.registers[4], self.registers[5]),
                out@[2] == (self.registers[6], self.registers[7], 0u8),
                forall|m: int|
                    0 <= m < i ==> #[trigger] out@[3 + m] == (
                        padded_byte(self.memory@, 3 * m),
                        padded_byte(self.memory@, 3 * m + 1),
                        padded_byte(self.memory@, 3 * m + 2),
                    ),
            decreases MEMORY_PIXELS - i,
        {
            let offset = i * 3;
            let r = self.byte_or_zero(offset);
            let g = self.byte_or_zero(offset + 1);
            let b = self.byte_or_zero(offset + 2);
            out.push((r, g, b));
            i = i + 1;
        }
        out
    }

    /// The byte of memory at `address`, or 0 past its end.
    fn byte_or_zero(&self, address: usize) -> (r: u8)
        ensures
            r == padded_byte(self.memory@, address as int),
    {
        if address < MEMORY_SIZE {
            self.memory[address]
        } else {
            0
        }
    }
}

} // verus!
