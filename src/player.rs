//! The player, the blocks, and the per-tick systems that move them.
use vstd::prelude::*;
use crate::grid::{
    get_neighbor_direction, neighbor_direction, offset, room_to_step, Direction, GridCoords,
};
use crate::input::InputState;
use crate::level::LevelIndices;
use crate::walls::LevelWalls;

verus! {

/// The player's facing; it is written only by `turn_player_from_input`.
#[derive(Clone, Copy, Debug, PartialEq, Eq, Structural, Default)]
pub struct Player {
    pub face_direction: Direction,
}

/// Marker of a block that the player has hold of.
#[derive(Clone, Copy, Debug, PartialEq, Eq, Structural, Default)]
pub struct Grabbed;

/// The tint a sprite is drawn with.
#[derive(Clone, Copy, Debug, PartialEq, Eq, Structural, Default)]
pub enum Tint {
    #[default]
    Plain,
    Highlighted,
}

/// What the renderer needs to draw an entity: a frame of its sprite sheet,
/// a horizontal flip and a tint.
#[derive(Clone, Copy, Debug, PartialEq, Eq, Structural, Default)]
pub struct Sprite {
    pub index: usize,
    pub flip_x: bool,
    pub color: Tint,
}

/// The player entity: its facing, sprite, tile, and whether a slide is in
/// progress (a moving entity takes no new orders until the animation clears it).
#[derive(Clone, Copy, Debug, PartialEq, Eq, Structural, Default)]
pub struct PlayerBundle {
    pub player: Player,
    pub sprite: Sprite,
    pub grid_coords: GridCoords,
    pub is_moving: bool,
}

/// A pushable block entity.
#[derive(Clone, Copy, Debug, PartialEq, Eq, Structural)]
pub struct Block {
    pub grid_coords: GridCoords,
    pub grabbed: Option<Grabbed>,
    pub is_moving: bool,
    pub sprite: Sprite,
}

/// Some block that takes orders stands on `c`.
pub open spec fn block_at(blocks: Seq<Block>, c: (int, int)) -> bool {
    exists|j: int| 0 <= j < blocks.len() && !blocks[j].is_moving && blocks[j].grid_coords@ == c
}

/// The tile two steps ahead is free of walls and of blocks, so a block one
/// step ahead can be pushed onto it.
pub open spec fn push_clear(p: (int, int), d: Direction, blocks: Seq<Block>, walls: Set<(int, int)>) -> bool {
    !walls.contains(offset(p, d.vector(), 2)) && !block_at(blocks, offset(p, d.vector(), 2))
}

/// A player at `p` that takes orders steps in direction `d`.
pub open spec fn player_advances(
    p: (int, int),
    d: Direction,
    blocks: Seq<Block>,
    walls: Set<(int, int)>,
) -> bool {
    &&& d != Direction::Unset
    &&& !walls.contains(offset(p, d.vector(), 1))
    &&& (!block_at(blocks, offset(p, d.vector(), 1)) || push_clear(p, d, blocks, walls))
}

/// Block `b` is pushed ahead by a player at `p` stepping in direction `d`.
pub open spec fn block_pushed(
    b: Block,
    p: (int, int),
    d: Direction,
    blocks: Seq<Block>,
    walls: Set<(int, int)>,
) -> bool {
    &&& d != Direction::Unset
    &&& !b.is_moving
    &&& b.grid_coords@ == offset(p, d.vector(), 1)
    &&& push_clear(p, d, blocks, walls)
}

/// Block `b`, right behind a player at `p` stepping in direction `d`, is pulled
/// onto the tile the player leaves: the grab key is held, the tile ahead is no
/// wall, and no block stands ahead (a push takes precedence).
pub open spec fn block_pulled(
    b: Block,
    p: (int, int),
    d: Direction,
    blocks: Seq<Block>,
    walls: Set<(int, int)>,
    grab_held: bool,
) -> bool {
    &&& d != Direction::Unset
    &&& !b.is_moving
    &&& b.grid_coords@ == offset(p, d.vector(), -1)
    &&& grab_held
    &&& !walls.contains(offset(p, d.vector(), 1))
    &&& !block_at(blocks, offset(p, d.vector(), 1))
}

/// Where block `b` stands after the tick.
pub open spec fn block_destination(
    b: Block,
    p: (int, int),
    d: Direction,
    blocks: Seq<Block>,
    walls: Set<(int, int)>,
    grab_held: bool,
) -> (int, int) {
    if block_pushed(b, p, d, blocks, walls) {
        offset(p, d.vector(), 2)
    } else if block_pulled(b, p, d, blocks, walls, grab_held) {
        p
    } else {
        b.grid_coords@
    }
}

/// `after` is block `before` once the tick is resolved: moved to its
/// destination, marked moving if it moved, otherwise the same.
pub open spec fn block_resolved(
    after: Block,
    before: Block,
    p: (int, int),
    d: Direction,
    blocks: Seq<Block>,
    walls: Set<(int, int)>,
    grab_held: bool,
) -> bool {
    &&& after.grid_coords@ == block_destination(before, p, d, blocks, walls, grab_held)
    &&& after.is_moving == (before.is_moving || block_pushed(before, p, d, blocks, walls)
        || block_pulled(before, p, d, blocks, walls, grab_held))
    &&& after.grabbed == before.grabbed
    &&& after.sprite == before.sprite
}

/// Whether a block that takes orders stands on `c`.
fn any_block_at(blocks: &Vec<Block>, c: GridCoords) -> (r: bool)
    ensures
        r == block_at(blocks@, c@),
{
    let mut i: usize = 0;
    while i < blocks.len()
        invariant
            i <= blocks@.len(),
            forall|j: int| 0 <= j < i ==> blocks@[j].is_moving || blocks@[j].grid_coords@ != c@,
        decreases blocks@.len() - i,
    {
        if !blocks[i].is_moving && blocks[i].grid_coords == c {
            assert(blocks@[i as int].grid_coords@ == c@);
            return true;
        }
        i += 1;
    }
    false
}

/// Resolves one tick of movement: the player steps in the committed direction,
/// pushing the block ahead or pulling the block behind, as walls and other
/// blocks allow. Entities marked moving are left alone; whatever moves is
/// marked moving. Returns whether the player moved.
pub fn move_player_from_input(
    player: &mut PlayerBundle,
    blocks: &mut Vec<Block>,
    input: &InputState,
    level_walls: &LevelWalls,
) -> (moved: bool)
    requires
        !old(player).is_moving && input.committed_direction() != Direction::Unset ==> room_to_step(
            old(player).grid_coords@,
            input.committed_direction(),
        ),
    ensures
        moved == (!old(player).is_moving && player_advances(
            old(player).grid_coords@,
            input.committed_direction(),
            old(blocks)@,
            level_walls@,
        )),
        final(player).grid_coords@ == if moved {
            offset(old(player).grid_coords@, input.committed_direction().vector(), 1)
        } else {
            old(player).grid_coords@
        },
        final(player).is_moving == (old(player).is_moving || moved),
        final(player).player == old(player).player,
        final(player).sprite == old(player).sprite,
        final(blocks)@.len() == old(blocks)@.len(),
        old(player).is_moving ==> final(blocks)@ == old(blocks)@,
        !old(player).is_moving ==> forall|i: int|
            0 <= i < old(blocks)@.len() ==> block_resolved(
                #[trigger] final(blocks)@[i],
                old(blocks)@[i],
                old(player).grid_coords@,
                input.committed_direction(),
                old(blocks)@,
                level_walls@,
                input.grab_held,
            ),
        input.committed_direction() == Direction::Unset ==> final(blocks)@ == old(blocks)@
            && *final(player) == *old(player),
{
    if player.is_moving {
        return false;
    }
    let d = input.committed_direction();
    if d == Direction::Unset {
        return false;
    }
    let ghost start = blocks@;
    let p = player.grid_coords;
    let player_destination = p.step(d, 1);
    let block_push_destination = p.step(d, 2);
    let block_pull_origin = p.step(d, -1);
    let hit_block = any_block_at(blocks, player_destination);
    let hit_second_block = any_block_at(blocks, block_push_destination);
    let push_ok = !hit_second_block && !level_walls.in_wall(&block_push_destination);
    let destination_in_wall = level_walls.in_wall(&player_destination);
    let pull_ok = input.grab_held && !destination_in_wall && !hit_block;
    let mut i: usize = 0;
    while i < blocks.len()
        invariant
            i <= blocks@.len(),
            blocks@.len() == start.len(),
            d == input.committed_direction(),
            d != Direction::Unset,
            player_destination@ == offset(p@, d.vector(), 1),
            block_push_destination@ == offset(p@, d.vector(), 2),
            block_pull_origin@ == offset(p@, d.vector(), -1),
            push_ok == push_clear(p@, d, start, level_walls@),
            pull_ok == (input.grab_held && !level_walls@.contains(player_destination@) && !block_at(
                start,
                player_destination@,
            )),
            forall|j: int|
                0 <= j < i ==> block_resolved(
                    #[trigger] blocks@[j],
                    start[j],
                    p@,
                    d,
                    start,
                    level_walls@,
                    input.grab_held,
                ),
            forall|j: int| i <= j < blocks@.len() ==> #[trigger] blocks@[j] == start[j],
        decreases blocks@.len() - i,
    {
        let mut b = blocks[i];
        if !b.is_moving {
            if b.grid_coords == player_destination && push_ok {
                b.grid_coords = block_push_destination;
                b.is_moving = true;
            } else if b.grid_coords == block_pull_origin && pull_ok {
                b.grid_coords = p;
                b.is_moving = true;
            }
        }
        blocks.set(i, b);
        i += 1;
    }
    let moved = !destination_in_wall && (!hit_block || push_ok);
    if moved {
        player.grid_coords = player_destination;
        player.is_moving = true;
    }
    moved
}

/// The player once it has turned to the committed direction: a player that
/// takes orders faces the held direction; with none held the facing stays.
pub open spec fn turned(p: PlayerBundle, input: InputState) -> PlayerBundle {
    if !p.is_moving && input.committed_direction() != Direction::Unset {
        PlayerBundle { player: Player { face_direction: input.committed_direction() }, ..p }
    } else {
        p
    }
}

/// Turns a player that takes orders to face the committed direction; with no
/// direction held the facing stays.
pub fn turn_player_from_input(player: &mut PlayerBundle, input: &InputState)
    ensures
        *final(player) == turned(*old(player), *input),
{
    if !player.is_moving {
        let d = input.committed_direction();
        if d != Direction::Unset {
            player.player.face_direction = d;
        }
    }
}

/// Block `b` is grabbed when the grab key goes down: both it and the player
/// take orders, and it lies next to the player in the direction the player faces.
pub open spec fn grab_target(b: Block, player: PlayerBundle) -> bool {
    &&& !player.is_moving
    &&& !b.is_moving
    &&& neighbor_direction(player.grid_coords@, b.grid_coords@) != Direction::Unset
    &&& neighbor_direction(player.grid_coords@, b.grid_coords@) == player.player.face_direction
}

/// On the press of the grab key, marks as grabbed each block that the player
/// faces from the next tile. Nothing else changes.
pub fn grab_from_held_input(player: &PlayerBundle, blocks: &mut Vec<Block>, input: &InputState)
    ensures
        final(blocks)@.len() == old(blocks)@.len(),
        forall|i: int|
            0 <= i < old(blocks)@.len() ==> (#[trigger] final(blocks)@[i]).grabbed == if input.grab_just_pressed
                && grab_target(old(blocks)@[i], *player) {
                Some(Grabbed)
            } else {
                old(blocks)@[i].grabbed
            },
        forall|i: int|
            0 <= i < old(blocks)@.len() ==> (#[trigger] final(blocks)@[i]).grid_coords
                == old(blocks)@[i].grid_coords && final(blocks)@[i].is_moving
                == old(blocks)@[i].is_moving && final(blocks)@[i].sprite == old(blocks)@[i].sprite,
{
    if !input.grab_just_pressed || player.is_moving {
        return;
    }
    let ghost start = blocks@;
    let mut i: usize = 0;
    while i < blocks.len()
        invariant
            i <= blocks@.len(),
            blocks@.len() == start.len(),
            input.grab_just_pressed,
            !player.is_moving,
            forall|j: int|
                0 <= j < i ==> (#[trigger] blocks@[j]).grabbed == if grab_target(start[j], *player) {
                    Some(Grabbed)
                } else {
                    start[j].grabbed
                },
            forall|j: int|
                0 <= j < blocks@.len() ==> (#[trigger] blocks@[j]).grid_coords == start[j].grid_coords
                    && blocks@[j].is_moving == start[j].is_moving && blocks@[j].sprite
                    == start[j].sprite,
            forall|j: int| i <= j < blocks@.len() ==> #[trigger] blocks@[j] == start[j],
        decreases blocks@.len() - i,
    {
        let mut b = blocks[i];
        if !b.is_moving {
            let relation = get_neighbor_direction(player.grid_coords, b.grid_coords);
            if relation != Direction::Unset && relation == player.player.face_direction {
                b.grabbed = Some(Grabbed);
            }
        }
        blocks.set(i, b);
        i += 1;
    }
}

/// On the release of the grab key, clears the grabbed mark of every block.
pub fn ungrab_from_release_input(blocks: &mut Vec<Block>, input: &InputState)
    ensures
        final(blocks)@.len() == old(blocks)@.len(),
        forall|i: int|
            0 <= i < old(blocks)@.len() ==> (#[trigger] final(blocks)@[i]).grabbed == if input.grab_just_released {
                None
            } else {
                old(blocks)@[i].grabbed
            },
        forall|i: int|
            0 <= i < old(blocks)@.len() ==> (#[trigger] final(blocks)@[i]).grid_coords
                == old(blocks)@[i].grid_coords && final(blocks)@[i].is_moving
                == old(blocks)@[i].is_moving && final(blocks)@[i].sprite == old(blocks)@[i].sprite,
{
    if !input.grab_just_released {
        return;
    }
    let ghost start = blocks@;
    let mut i: usize = 0;
    while i < blocks.len()
        invariant
            i <= blocks@.len(),
            blocks@.len() == start.len(),
            forall|j: int| 0 <= j < i ==> (#[trigger] blocks@[j]).grabbed == None::<Grabbed>,
            forall|j: int|
                0 <= j < blocks@.len() ==> (#[trigger] blocks@[j]).grid_coords == start[j].grid_coords
                    && blocks@[j].is_moving == start[j].is_moving && blocks@[j].sprite
                    == start[j].sprite,
            forall|j: int| i <= j < blocks@.len() ==> #[trigger] blocks@[j] == start[j],
        decreases blocks@.len() - i,
    {
        let mut b = blocks[i];
        b.grabbed = None;
        blocks.set(i, b);
        i += 1;
    }
}

/// The sprite frame that shows the player facing `d`: the side view, flipped
/// for east, when no direction is set.
pub open spec fn facing_frame(d: Direction) -> usize {
    match d {
        Direction::North => 2,
        Direction::South => 0,
        _ => 1,
    }
}

/// Sprite `s` turned to show facing `d`.
pub open spec fn facing_sprite(s: Sprite, d: Direction) -> Sprite {
    Sprite {
        index: facing_frame(d),
        flip_x: match d {
            Direction::North | Direction::South => s.flip_x,
            Direction::West => false,
            _ => true,
        },
        color: s.color,
    }
}

/// Points the player's sprite the way the player faces, when the player's
/// facing changed since the last run; otherwise leaves the sprite alone.
/// Facing south keeps the horizontal flip as it was.
pub fn update_player_facing_direction(player: &Player, player_changed: bool, sprite: &mut Sprite)
    ensures
        *final(sprite) == if player_changed {
            facing_sprite(*old(sprite), player.face_direction)
        } else {
            *old(sprite)
        },
{
    if !player_changed {
        return;
    }
    match player.face_direction {
        Direction::North => {
            sprite.index = 2;
        },
        Direction::East => {
            sprite.index = 1;
            sprite.flip_x = true;
        },
        Direction::South => {
            sprite.index = 0;
        },
        Direction::West => {
            sprite.index = 1;
            sprite.flip_x = false;
        },
        Direction::Unset => {
            sprite.index = 1;
            sprite.flip_x = true;
        },
    }
}

/// Tints every grabbed block's sprite with the highlight.
pub fn highlight_grabbed(blocks: &mut Vec<Block>)
    ensures
        final(blocks)@.len() == old(blocks)@.len(),
        forall|i: int|
            0 <= i < old(blocks)@.len() ==> #[trigger] final(blocks)@[i] == if old(blocks)@[i].grabbed is Some {
                Block { sprite: Sprite { color: Tint::Highlighted, ..old(blocks)@[i].sprite }, ..old(blocks)@[i] }
            } else {
                old(blocks)@[i]
            },
{
    let ghost start = blocks@;
    let mut i: usize = 0;
    while i < blocks.len()
        invariant
            i <= blocks@.len(),
            blocks@.len() == start.len(),
            forall|j: int|
                0 <= j < i ==> #[trigger] blocks@[j] == if start[j].grabbed is Some {
                    Block { sprite: Sprite { color: Tint::Highlighted, ..start[j].sprite }, ..start[j] }
                } else {
                    start[j]
                },
            forall|j: int| i <= j < blocks@.len() ==> #[trigger] blocks@[j] == start[j],
        decreases blocks@.len() - i,
    {
        let mut b = blocks[i];
        if b.grabbed.is_some() {
            b.sprite.color = Tint::Highlighted;
        }
        blocks.set(i, b);
        i += 1;
    }
}

/// Draws every block that is not grabbed with the plain tint.
pub fn unhighlight_grabbed(blocks: &mut Vec<Block>)
    ensures
        final(blocks)@.len() == old(blocks)@.len(),
        forall|i: int|
            0 <= i < old(blocks)@.len() ==> #[trigger] final(blocks)@[i] == if old(blocks)@[i].grabbed is None {
                Block { sprite: Sprite { color: Tint::Plain, ..old(blocks)@[i].sprite }, ..old(blocks)@[i] }
            } else {
                old(blocks)@[i]
            },
{
    let ghost start = blocks@;
    let mut i: usize = 0;
    while i < blocks.len()
        invariant
            i <= blocks@.len(),
            blocks@.len() == start.len(),
            forall|j: int|
                0 <= j < i ==> #[trigger] blocks@[j] == if start[j].grabbed is None {
                    Block { sprite: Sprite { color: Tint::Plain, ..start[j].sprite }, ..start[j] }
                } else {
                    start[j]
                },
            forall|j: int| i <= j < blocks@.len() ==> #[trigger] blocks@[j] == start[j],
        decreases blocks@.len() - i,
    {
        let mut b = blocks[i];
        if b.grabbed.is_none() {
            b.sprite.color = Tint::Plain;
        }
        blocks.set(i, b);
        i += 1;
    }
}

/// Some goal lies on `c`.
pub open spec fn on_goal(goals: Seq<GridCoords>, c: (int, int)) -> bool {
    exists|i: int| 0 <= i < goals.len() && goals[i]@ == c
}

/// When the player's tile changed this tick and it is a goal, moves on to the
/// next level; otherwise leaves the selection as it is.
pub fn check_goal(
    level_selection: &mut LevelIndices,
    player: &PlayerBundle,
    player_changed: bool,
    goals: &Vec<GridCoords>,
)
    requires
        player_changed && on_goal(goals@, player.grid_coords@) ==> old(level_selection).level
            < usize::MAX,
    ensures
        final(level_selection).level == old(level_selection).level + if player_changed && on_goal(
            goals@,
            player.grid_coords@,
        ) {
            1int
        } else {
            0int
        },
        final(level_selection).world == old(level_selection).world,
{
    if !player_changed {
        return;
    }
    let mut i: usize = 0;
    while i < goals.len()
        invariant
            i <= goals@.len(),
            player_changed,
            *level_selection == *old(level_selection),
            on_goal(goals@, player.grid_coords@) ==> level_selection.level < usize::MAX,
            forall|j: int| 0 <= j < i ==> goals@[j]@ != player.grid_coords@,
        decreases goals@.len() - i,
    {
        if goals[i] == player.grid_coords {
            assert(goals@[i as int]@ == player.grid_coords@);
            assert(on_goal(goals@, player.grid_coords@));
            level_selection.level = level_selection.level + 1;
            return;
        }
        i += 1;
    }
}

/// Two block lists with the same tiles and moving marks, entry by entry, have
/// the same occupied tiles.
pub proof fn lemma_block_at_same_layout(s1: Seq<Block>, s2: Seq<Block>)
    requires
        s1.len() == s2.len(),
        forall|j: int|
            0 <= j < s1.len() ==> (#[trigger] s1[j]).grid_coords == s2[j].grid_coords && s1[j].is_moving
                == s2[j].is_moving,
    ensures
        forall|c: (int, int)| block_at(s1, c) == block_at(s2, c),
{
    assert forall|c: (int, int)| block_at(s1, c) == block_at(s2, c) by {
        if block_at(s1, c) {
            let j = choose|j: int| 0 <= j < s1.len() && !s1[j].is_moving && s1[j].grid_coords@ == c;
            assert(s2[j].grid_coords == s1[j].grid_coords);
        }
        if block_at(s2, c) {
            let j = choose|j: int| 0 <= j < s2.len() && !s2[j].is_moving && s2[j].grid_coords@ == c;
            assert(s1[j].grid_coords == s2[j].grid_coords);
        }
    }
}

/// Everything the player systems act on during play.
#[derive(Debug)]
pub struct PlayState {
    pub player: PlayerBundle,
    pub blocks: Vec<Block>,
    pub level_walls: LevelWalls,
    pub goals: Vec<GridCoords>,
    pub level_selection: LevelIndices,
}

/// The player systems, run once per tick in a fixed order.
#[derive(Clone, Copy, Debug, Default)]
pub struct PlayerPlugin;

/// The grab mark of block `b` once the press and the release of the grab key
/// are handled, for a player `player` that has already turned.
pub open spec fn grab_mark_after(b: Block, player: PlayerBundle, input: InputState) -> Option<Grabbed> {
    if input.grab_just_released {
        None
    } else if input.grab_just_pressed && grab_target(b, player) {
        Some(Grabbed)
    } else {
        b.grabbed
    }
}

/// The tint of a block with grab mark `g`.
pub open spec fn tint_of(g: Option<Grabbed>) -> Tint {
    if g is Some {
        Tint::Highlighted
    } else {
        Tint::Plain
    }
}

/// In this tick the player steps onto a goal.
pub open spec fn reaches_goal(state: PlayState, input: InputState) -> bool {
    &&& !state.player.is_moving
    &&& player_advances(
        state.player.grid_coords@,
        input.committed_direction(),
        state.blocks@,
        state.level_walls@,
    )
    &&& on_goal(state.goals@, offset(state.player.grid_coords@, input.committed_direction().vector(), 1))
}

impl PlayerPlugin {
    /// Runs one tick: facing and grab state first, then movement, then the goal
    /// check on the settled positions, then the sprites. Returns whether the
    /// player moved.
    pub fn update(&self, state: &mut PlayState, input: &InputState) -> (moved: bool)
        requires
            !old(state).player.is_moving && input.committed_direction() != Direction::Unset
                ==> room_to_step(old(state).player.grid_coords@, input.committed_direction()),
            reaches_goal(*old(state), *input) ==> old(state).level_selection.level < usize::MAX,
        ensures
            moved == (!old(state).player.is_moving && player_advances(
                old(state).player.grid_coords@,
                input.committed_direction(),
                old(state).blocks@,
                old(state).level_walls@,
            )),
            final(state).player.grid_coords@ == if moved {
                offset(old(state).player.grid_coords@, input.committed_direction().vector(), 1)
            } else {
                old(state).player.grid_coords@
            },
            final(state).player.is_moving == (old(state).player.is_moving || moved),
            final(state).player.player == turned(old(state).player, *input).player,
            final(state).player.sprite == if final(state).player.player != old(state).player.player {
                facing_sprite(old(state).player.sprite, final(state).player.player.face_direction)
            } else {
                old(state).player.sprite
            },
            final(state).blocks@.len() == old(state).blocks@.len(),
            forall|i: int|
                0 <= i < old(state).blocks@.len() ==> (#[trigger] final(state).blocks@[i]).grid_coords@
                    == if old(state).player.is_moving {
                    old(state).blocks@[i].grid_coords@
                } else {
                    block_destination(
                        old(state).blocks@[i],
                        old(state).player.grid_coords@,
                        input.committed_direction(),
                        old(state).blocks@,
                        old(state).level_walls@,
                        input.grab_held,
                    )
                },
            forall|i: int|
                0 <= i < old(state).blocks@.len() ==> (#[trigger] final(state).blocks@[i]).is_moving == (
                old(state).blocks@[i].is_moving || !old(state).player.is_moving && (block_pushed(
                    old(state).blocks@[i],
                    old(state).player.grid_coords@,
                    input.committed_direction(),
                    old(state).blocks@,
                    old(state).level_walls@,
                ) || block_pulled(
                    old(state).blocks@[i],
                    old(state).player.grid_coords@,
                    input.committed_direction(),
                    old(state).blocks@,
                    old(state).level_walls@,
                    input.grab_held,
                ))),
            forall|i: int|
                0 <= i < old(state).blocks@.len() ==> (#[trigger] final(state).blocks@[i]).grabbed
                    == grab_mark_after(old(state).blocks@[i], turned(old(state).player, *input), *input),
            forall|i: int|
                0 <= i < old(state).blocks@.len() ==> (#[trigger] final(state).blocks@[i]).sprite == (Sprite {
                    color: tint_of(final(state).blocks@[i].grabbed),
                    ..old(state).blocks@[i].sprite
                }),
            final(state).level_selection.level == old(state).level_selection.level + if moved
                && on_goal(old(state).goals@, final(state).player.grid_coords@) {
                1int
            } else {
                0int
            },
            final(state).level_selection.world == old(state).level_selection.world,
            final(state).level_walls == old(state).level_walls,
            final(state).goals@ == old(state).goals@,
    {
        let ghost start = state.blocks@;
        let ghost turned_player = turned(state.player, *input);
        let old_player = state.player.player;
        turn_player_from_input(&mut state.player, input);
        grab_from_held_input(&state.player, &mut state.blocks, input);
        let ghost after_grab = state.blocks@;
        ungrab_from_release_input(&mut state.blocks, input);
        let ghost before_move = state.blocks@;
        proof {
            lemma_block_at_same_layout(start, before_move);
        }
        let moved = move_player_from_input(&mut state.player, &mut state.blocks, input, &state.level_walls);
        let ghost after_move = state.blocks@;
        assert forall|i: int| 0 <= i < start.len() implies {
            &&& after_move[i].grid_coords@ == if old(state).player.is_moving {
                start[i].grid_coords@
            } else {
                block_destination(
                    start[i],
                    old(state).player.grid_coords@,
                    input.committed_direction(),
                    start,
                    state.level_walls@,
                    input.grab_held,
                )
            }
            &&& after_move[i].is_moving == (start[i].is_moving || !old(state).player.is_moving && (
            block_pushed(
                start[i],
                old(state).player.grid_coords@,
                input.committed_direction(),
                start,
                state.level_walls@,
            ) || block_pulled(
                start[i],
                old(state).player.grid_coords@,
                input.committed_direction(),
                start,
                state.level_walls@,
                input.grab_held,
            )))
            &&& after_move[i].grabbed == grab_mark_after(start[i], turned_player, *input)
            &&& after_move[i].sprite == start[i].sprite
        } by {
            assert(after_grab[i].grid_coords == start[i].grid_coords);
            assert(before_move[i].grid_coords == start[i].grid_coords);
            assert(before_move[i].is_moving == start[i].is_moving);
            assert(before_move[i].sprite == start[i].sprite);
            if !old(state).player.is_moving {
                assert(block_resolved(
                    after_move[i],
                    before_move[i],
                    old(state).player.grid_coords@,
                    input.committed_direction(),
                    before_move,
                    state.level_walls@,
                    input.grab_held,
                ));
            }
        }
        check_goal(&mut state.level_selection, &state.player, moved, &state.goals);
        let facing_changed = state.player.player != old_player;
        update_player_facing_direction(&state.player.player, facing_changed, &mut state.player.sprite);
        highlight_grabbed(&mut state.blocks);
        let ghost highlighted = state.blocks@;
        unhighlight_grabbed(&mut state.blocks);
        assert forall|i: int| 0 <= i < start.len() implies state.blocks@[i] == (Block {
            sprite: Sprite { color: tint_of(after_move[i].grabbed), ..after_move[i].sprite },
            ..after_move[i]
        }) by {
            assert(highlighted[i] == if after_move[i].grabbed is Some {
                Block { sprite: Sprite { color: Tint::Highlighted, ..after_move[i].sprite }, ..after_move[i] }
            } else {
                after_move[i]
            });
        }
        moved
    }
}

} // verus!
