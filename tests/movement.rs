use pushpull::grid::{Direction, GridCoords};
use pushpull::input::InputState;
use pushpull::player::{move_player_from_input, Block, Grabbed, Player, PlayerBundle, Sprite};
use pushpull::walls::LevelWalls;

fn player_at(x: i32, y: i32, facing: Direction) -> PlayerBundle {
    PlayerBundle {
        player: Player { face_direction: facing },
        sprite: Sprite::default(),
        grid_coords: GridCoords::new(x, y),
        is_moving: false,
    }
}

fn block_at(x: i32, y: i32) -> Block {
    Block { grid_coords: GridCoords::new(x, y), grabbed: None, is_moving: false, sprite: Sprite::default() }
}

fn walls(cells: &[(i32, i32)]) -> LevelWalls {
    LevelWalls::new(cells.iter().map(|&(x, y)| GridCoords::new(x, y)).collect())
}

fn east() -> InputState {
    InputState { east: true, ..InputState::default() }
}

#[test]
fn push_into_wall_moves_nothing() {
    let mut player = player_at(0, 0, Direction::East);
    let mut blocks = vec![block_at(1, 0)];
    let moved = move_player_from_input(&mut player, &mut blocks, &east(), &walls(&[(2, 0)]));
    assert!(!moved);
    assert_eq!(player.grid_coords, GridCoords::new(0, 0));
    assert!(!player.is_moving);
    assert_eq!(blocks[0].grid_coords, GridCoords::new(1, 0));
    assert!(!blocks[0].is_moving);
}

#[test]
fn push_moves_block_and_player() {
    let mut player = player_at(0, 0, Direction::East);
    let mut blocks = vec![block_at(1, 0)];
    let moved = move_player_from_input(&mut player, &mut blocks, &east(), &walls(&[]));
    assert!(moved);
    assert_eq!(player.grid_coords, GridCoords::new(1, 0));
    assert!(player.is_moving);
    assert_eq!(blocks[0].grid_coords, GridCoords::new(2, 0));
    assert!(blocks[0].is_moving);
}

#[test]
fn pull_drags_block_behind() {
    let mut player = player_at(0, 0, Direction::East);
    let mut blocks = vec![block_at(-1, 0)];
    let input = InputState { east: true, grab_held: true, ..InputState::default() };
    let moved = move_player_from_input(&mut player, &mut blocks, &input, &walls(&[]));
    assert!(moved);
    assert_eq!(player.grid_coords, GridCoords::new(1, 0));
    assert_eq!(blocks[0].grid_coords, GridCoords::new(0, 0));
    assert!(blocks[0].is_moving);
}

#[test]
fn no_pull_without_grab_key() {
    let mut player = player_at(0, 0, Direction::East);
    let mut blocks = vec![block_at(-1, 0)];
    let moved = move_player_from_input(&mut player, &mut blocks, &east(), &walls(&[]));
    assert!(moved);
    assert_eq!(player.grid_coords, GridCoords::new(1, 0));
    assert_eq!(blocks[0].grid_coords, GridCoords::new(-1, 0));
    assert!(!blocks[0].is_moving);
}

#[test]
fn no_pull_into_wall_step() {
    let mut player = player_at(0, 0, Direction::East);
    let mut blocks = vec![block_at(-1, 0)];
    let input = InputState { east: true, grab_held: true, ..InputState::default() };
    let moved = move_player_from_input(&mut player, &mut blocks, &input, &walls(&[(1, 0)]));
    assert!(!moved);
    assert_eq!(player.grid_coords, GridCoords::new(0, 0));
    assert_eq!(blocks[0].grid_coords, GridCoords::new(-1, 0));
}

#[test]
fn push_takes_precedence_over_pull() {
    let mut player = player_at(0, 0, Direction::East);
    let mut blocks = vec![block_at(-1, 0), block_at(1, 0)];
    let input = InputState { east: true, grab_held: true, ..InputState::default() };
    let moved = move_player_from_input(&mut player, &mut blocks, &input, &walls(&[]));
    assert!(moved);
    assert_eq!(player.grid_coords, GridCoords::new(1, 0));
    assert_eq!(blocks[0].grid_coords, GridCoords::new(-1, 0));
    assert_eq!(blocks[1].grid_coords, GridCoords::new(2, 0));
}

#[test]
fn second_block_stops_push() {
    let mut player = player_at(0, 0, Direction::North);
    let mut blocks = vec![block_at(0, 1), block_at(0, 2)];
    let input = InputState { north: true, ..InputState::default() };
    let moved = move_player_from_input(&mut player, &mut blocks, &input, &walls(&[]));
    assert!(!moved);
    assert_eq!(player.grid_coords, GridCoords::new(0, 0));
    assert_eq!(blocks[0].grid_coords, GridCoords::new(0, 1));
    assert_eq!(blocks[1].grid_coords, GridCoords::new(0, 2));
}

#[test]
fn wall_ahead_stops_player() {
    let mut player = player_at(3, 4, Direction::South);
    let mut blocks = vec![];
    let input = InputState { south: true, ..InputState::default() };
    let moved = move_player_from_input(&mut player, &mut blocks, &input, &walls(&[(3, 3)]));
    assert!(!moved);
    assert_eq!(player.grid_coords, GridCoords::new(3, 4));
}

#[test]
fn no_direction_moves_nothing() {
    let mut player = player_at(0, 0, Direction::East);
    let mut blocks = vec![block_at(1, 0), block_at(-1, 0)];
    let before = blocks.clone();
    let input = InputState { grab_held: true, ..InputState::default() };
    let moved = move_player_from_input(&mut player, &mut blocks, &input, &walls(&[]));
    assert!(!moved);
    assert_eq!(player, player_at(0, 0, Direction::East));
    assert_eq!(blocks, before);
}

#[test]
fn moving_entities_take_no_orders() {
    let mut player = player_at(0, 0, Direction::East);
    player.is_moving = true;
    let mut blocks = vec![block_at(1, 0)];
    let moved = move_player_from_input(&mut player, &mut blocks, &east(), &walls(&[]));
    assert!(!moved);
    assert_eq!(player.grid_coords, GridCoords::new(0, 0));
    assert_eq!(blocks[0].grid_coords, GridCoords::new(1, 0));

    let mut player = player_at(0, 0, Direction::East);
    let mut blocks = vec![Block { is_moving: true, ..block_at(1, 0) }];
    let moved = move_player_from_input(&mut player, &mut blocks, &east(), &walls(&[]));
    assert!(moved);
    assert_eq!(player.grid_coords, GridCoords::new(1, 0));
    assert_eq!(blocks[0].grid_coords, GridCoords::new(1, 0));
}

#[test]
fn direction_priority_north_first() {
    let mut player = player_at(0, 0, Direction::East);
    let mut blocks = vec![];
    let input = InputState { north: true, west: true, south: true, east: true, ..InputState::default() };
    assert_eq!(input.committed_direction(), Direction::North);
    move_player_from_input(&mut player, &mut blocks, &input, &walls(&[]));
    assert_eq!(player.grid_coords, GridCoords::new(0, 1));
    let input = InputState { west: true, south: true, ..InputState::default() };
    assert_eq!(input.committed_direction(), Direction::West);
}

#[test]
fn grabbed_mark_is_kept_by_moves() {
    let mut player = player_at(0, 0, Direction::West);
    let mut blocks = vec![Block { grabbed: Some(Grabbed), ..block_at(-1, 0) }];
    let input = InputState { west: true, grab_held: true, ..InputState::default() };
    let moved = move_player_from_input(&mut player, &mut blocks, &input, &walls(&[]));
    assert!(moved);
    assert_eq!(blocks[0].grid_coords, GridCoords::new(-2, 0));
    assert_eq!(blocks[0].grabbed, Some(Grabbed));
}

#[test]
fn edge_of_range_needs_room_only_along_motion() {
    let mut player = player_at(i32::MAX, 0, Direction::East);
    let mut blocks = vec![];
    let input = InputState { north: true, ..InputState::default() };
    assert!(move_player_from_input(&mut player, &mut blocks, &input, &walls(&[])));
    assert_eq!(player.grid_coords, GridCoords::new(i32::MAX, 1));
    let mut idle = player_at(i32::MIN, i32::MAX, Direction::East);
    assert!(!move_player_from_input(&mut idle, &mut blocks, &InputState::default(), &walls(&[])));
    assert_eq!(idle.grid_coords, GridCoords::new(i32::MIN, i32::MAX));
}
