//! The block types that the host can place and report.
use vstd::prelude::*;

verus! {

/// A block of the game world. These are all the block types the host supports; it offers no way
/// to place any other.
#[derive(PartialEq, Eq, Structural, Clone, Copy, Debug)]
pub enum Block {
    Air,
    Cobblestone,
    Granite,
    Andesite,
    Diorite,
    Lapis,
    Iron,
    Gold,
    Diamond,
    Redstone,
    Emerald,
    Dirt,
    OakLog,
    OakLeaves,
}

/// The number of block types; their codes are `0 .. BLOCK_COUNT`.
pub const BLOCK_COUNT: i32 = 14;

/// The integer by which the host's interface names a block: its position in the declaration.
pub open spec fn block_code(b: Block) -> int {
    match b {
        Block::Air => 0,
        Block::Cobblestone => 1,
        Block::Granite => 2,
        Block::Andesite => 3,
        Block::Diorite => 4,
        Block::Lapis => 5,
        Block::Iron => 6,
        Block::Gold => 7,
        Block::Diamond => 8,
        Block::Redstone => 9,
        Block::Emerald => 10,
        Block::Dirt => 11,
        Block::OakLog => 12,
        Block::OakLeaves => 13,
    }
}

impl Block {
    /// The code that the host's interface uses for this block.
    pub fn code(&self) -> (r: i32)
        ensures
            r as int == block_code(*self),
            0 <= r < BLOCK_COUNT,
    {
        match self {
            Block::Air => 0,
            Block::Cobblestone => 1,
            Block::Granite => 2,
            Block::Andesite => 3,
            Block::Diorite => 4,
            Block::Lapis => 5,
            Block::Iron => 6,
            Block::Gold => 7,
            Block::Diamond => 8,
            Block::Redstone => 9,
            Block::Emerald => 10,
            Block::Dirt => 11,
            Block::OakLog => 12,
            Block::OakLeaves => 13,
        }
    }

    /// The block that the host names by `code`, or `None` where no block has that code.
    pub fn from_code(code: i32) -> (r: Option<Block>)
        ensures
            r is Some <==> 0 <= code < BLOCK_COUNT,
            r matches Some(b) ==> block_code(b) == code as int,
    {
        match code {
            0 => Some(Block::Air),
            1 => Some(Block::Cobblestone),
            2 => Some(Block::Granite),
            3 => Some(Block::Andesite),
            4 => Some(Block::Diorite),
            5 => Some(Block::Lapis),
            6 => Some(Block::Iron),
            7 => Some(Block::Gold),
            8 => Some(Block::Diamond),
            9 => Some(Block::Redstone),
            10 => Some(Block::Emerald),
            11 => Some(Block::Dirt),
            12 => Some(Block::OakLog),
            13 => Some(Block::OakLeaves),
            _ => None,
        }
    }
}

} // verus!
