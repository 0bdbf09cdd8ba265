//! A two-dimensional toroidal grid of cells, each with 128 bytes of memory and
//! eight registers, running a small byte-code machine. Each tick pairs every
//! cell with one axis neighbour; within a pair the main cell's program sees
//! its own memory and the neighbour's as one 256-byte address space. A cycle
//! of four phases keeps the pairs of each tick disjoint, so they run in
//! parallel.

pub mod area_size;
pub mod cell_pair;
pub mod cell_state;
pub mod direction;
pub mod instruction;
pub mod position;
pub mod process;
pub mod slice_multi_borrow;
pub mod world;

pub use area_size::AreaSize;
pub use cell_pair::{CellPair, PairModel};
pub use cell_state::{CellModel, CellState};
pub use direction::Direction;
pub use instruction::{
    Instruction, InstructionAdd, InstructionAnd, InstructionCall, InstructionCompare,
    InstructionDec, InstructionInc, InstructionJump, InstructionLeftShift, InstructionLoad,
    InstructionNop, InstructionNot, InstructionOr, InstructionPop, InstructionPush,
    InstructionReplicate, InstructionRet, InstructionRightShift, InstructionSub, InstructionXor,
    Register,
};
pub use position::{Position, RelativePosition};
pub use process::ProcessInstruction;
pub use slice_multi_borrow::get_pair_mut;
pub use world::{UpdateState, World};
