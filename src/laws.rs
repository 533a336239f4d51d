//! Properties of one tick of movement, stated over the resolver's model.
use vstd::prelude::*;
use crate::grid::{offset, Direction};
use crate::player::{block_at, block_destination, player_advances, push_clear, Block};

verus! {

/// A player whose next tile is a wall stays where it is.
pub proof fn lemma_wall_stops_player(
    p: (int, int),
    d: Direction,
    blocks: Seq<Block>,
    walls: Set<(int, int)>,
)
    requires
        walls.contains(offset(p, d.vector(), 1)),
    ensures
        !player_advances(p, d, blocks, walls),
{
}

/// A block right ahead of the player, with neither wall nor block two tiles
/// ahead, is pushed there, and the player steps onto the tile it left.
pub proof fn lemma_push_moves_block_and_player(
    p: (int, int),
    d: Direction,
    blocks: Seq<Block>,
    i: int,
    walls: Set<(int, int)>,
    grab_held: bool,
)
    requires
        d != Direction::Unset,
        0 <= i < blocks.len(),
        !blocks[i].is_moving,
        blocks[i].grid_coords@ == offset(p, d.vector(), 1),
        !walls.contains(offset(p, d.vector(), 1)),
        !walls.contains(offset(p, d.vector(), 2)),
        !block_at(blocks, offset(p, d.vector(), 2)),
    ensures
        block_destination(blocks[i], p, d, blocks, walls, grab_held) == offset(p, d.vector(), 2),
        player_advances(p, d, blocks, walls),
{
}

/// A block right ahead of the player with a wall or another block behind it
/// does not move, and neither does the player.
pub proof fn lemma_blocked_push_moves_nothing(
    p: (int, int),
    d: Direction,
    blocks: Seq<Block>,
    i: int,
    walls: Set<(int, int)>,
    grab_held: bool,
)
    requires
        0 <= i < blocks.len(),
        !blocks[i].is_moving,
        blocks[i].grid_coords@ == offset(p, d.vector(), 1),
        walls.contains(offset(p, d.vector(), 2)) || block_at(blocks, offset(p, d.vector(), 2)),
    ensures
        block_destination(blocks[i], p, d, blocks, walls, grab_held) == blocks[i].grid_coords@,
        !player_advances(p, d, blocks, walls),
{
    assert(block_at(blocks, offset(p, d.vector(), 1)));
    assert(!push_clear(p, d, blocks, walls));
}

/// A block right behind the player is pulled only with the grab key held, no
/// wall ahead and no block ahead; otherwise it stays where it is.
pub proof fn lemma_pull_conditions(
    p: (int, int),
    d: Direction,
    blocks: Seq<Block>,
    b: Block,
    walls: Set<(int, int)>,
    grab_held: bool,
)
    requires
        d != Direction::Unset,
        b.grid_coords@ == offset(p, d.vector(), -1),
    ensures
        block_destination(b, p, d, blocks, walls, grab_held) != b.grid_coords@ ==> grab_held
            && !walls.contains(offset(p, d.vector(), 1)) && !block_at(
            blocks,
            offset(p, d.vector(), 1),
        ),
        !(grab_held && !walls.contains(offset(p, d.vector(), 1)) && !block_at(
            blocks,
            offset(p, d.vector(), 1),
        )) ==> block_destination(b, p, d, blocks, walls, grab_held) == b.grid_coords@,
{
}

/// With no direction held, neither the player nor any block moves.
pub proof fn lemma_no_input_moves_nothing(
    p: (int, int),
    blocks: Seq<Block>,
    walls: Set<(int, int)>,
    grab_held: bool,
)
    ensures
        !player_advances(p, Direction::Unset, blocks, walls),
        forall|b: Block|
            #[trigger] block_destination(b, p, Direction::Unset, blocks, walls, grab_held) == b.grid_coords@,
{
}

} // verus!
