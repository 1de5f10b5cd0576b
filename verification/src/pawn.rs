//! Grid-stepped pawn movement: directional input, read relative to the way
//! the pawn faces, becomes a step of one cell that stays on the board.

use crate::board::{Board, BoardCache, BoardPosition, Elevation};
use vstd::prelude::*;

verus! {

/// The way a pawn faces on the board.
#[derive(Clone, Copy, Debug, PartialEq, Eq, Structural)]
pub enum Facing {
    Up,
    Down,
    Right,
    Left,
}

/// A directional key.
#[derive(Clone, Copy, Debug, PartialEq, Eq, Structural)]
pub enum MoveKey {
    Up,
    Down,
    Right,
    Left,
}

/// Which directional keys are held down.
#[derive(Clone, Copy, Debug, PartialEq, Eq, Structural)]
pub struct PressedKeys {
    pub up: bool,
    pub down: bool,
    pub right: bool,
    pub left: bool,
}

/// One step: the change of cell, the yaw in quarter turns and the facing
/// that the pawn has after it.
#[derive(Clone, Copy, Debug, PartialEq, Eq, Structural)]
pub struct Direction {
    pub dx: i8,
    pub dy: i8,
    pub quarter_turns: i8,
    pub facing: Facing,
}

/// The step along the board axis that `facing` looks along.
pub open spec fn spec_heading(facing: Facing) -> Direction {
    match facing {
        Facing::Up => Direction { dx: 1, dy: 0, quarter_turns: -1i8, facing: Facing::Up },
        Facing::Down => Direction { dx: -1i8, dy: 0, quarter_turns: 1, facing: Facing::Down },
        Facing::Left => Direction { dx: 0, dy: 1, quarter_turns: 2, facing: Facing::Left },
        Facing::Right => Direction { dx: 0, dy: -1i8, quarter_turns: 0, facing: Facing::Right },
    }
}

/// The facing that `key` turns a pawn to that faces `facing`: the first key
/// keeps it, the second reverses it, the last two turn it to either side.
pub open spec fn spec_turned(facing: Facing, key: MoveKey) -> Facing {
    match (facing, key) {
        (Facing::Up, MoveKey::Up) => Facing::Up,
        (Facing::Up, MoveKey::Down) => Facing::Down,
        (Facing::Up, MoveKey::Right) => Facing::Left,
        (Facing::Up, MoveKey::Left) => Facing::Right,
        (Facing::Down, MoveKey::Up) => Facing::Down,
        (Facing::Down, MoveKey::Down) => Facing::Up,
        (Facing::Down, MoveKey::Right) => Facing::Right,
        (Facing::Down, MoveKey::Left) => Facing::Left,
        (Facing::Right, MoveKey::Up) => Facing::Right,
        (Facing::Right, MoveKey::Down) => Facing::Left,
        (Facing::Right, MoveKey::Right) => Facing::Up,
        (Facing::Right, MoveKey::Left) => Facing::Down,
        (Facing::Left, MoveKey::Up) => Facing::Left,
        (Facing::Left, MoveKey::Down) => Facing::Right,
        (Facing::Left, MoveKey::Right) => Facing::Down,
        (Facing::Left, MoveKey::Left) => Facing::Up,
    }
}

/// The step that `key` asks of a pawn that faces `facing`.
pub open spec fn spec_direction(facing: Facing, key: MoveKey) -> Direction {
    spec_heading(spec_turned(facing, key))
}

/// The step along the board axis that `facing` looks along.
#[verifier::when_used_as_spec(spec_heading)]
pub fn heading(facing: Facing) -> (step: Direction)
    ensures
        step == spec_heading(facing),
{
    match facing {
        Facing::Up => Direction { dx: 1, dy: 0, quarter_turns: -1, facing: Facing::Up },
        Facing::Down => Direction { dx: -1, dy: 0, quarter_turns: 1, facing: Facing::Down },
        Facing::Left => Direction { dx: 0, dy: 1, quarter_turns: 2, facing: Facing::Left },
        Facing::Right => Direction { dx: 0, dy: -1, quarter_turns: 0, facing: Facing::Right },
    }
}

/// The step that `key` asks of a pawn that faces `facing`.
#[verifier::when_used_as_spec(spec_direction)]
pub fn direction(facing: Facing, key: MoveKey) -> (step: Direction)
    ensures
        step == spec_direction(facing, key),
{
    let x_pos = heading(Facing::Up);
    let x_neg = heading(Facing::Down);
    let y_pos = heading(Facing::Left);
    let y_neg = heading(Facing::Right);
    let directions: [Direction; 4] = match facing {
        Facing::Up => [x_pos, x_neg, y_pos, y_neg],
        Facing::Down => [x_neg, x_pos, y_neg, y_pos],
        Facing::Right => [y_neg, y_pos, x_pos, x_neg],
        Facing::Left => [y_pos, y_neg, x_neg, x_pos],
    };
    match key {
        MoveKey::Up => directions[0],
        MoveKey::Down => directions[1],
        MoveKey::Right => directions[2],
        MoveKey::Left => directions[3],
    }
}

/// The key that counts when several are held: up before down before right
/// before left.
pub open spec fn spec_first_pressed(keys: PressedKeys) -> Option<MoveKey> {
    if keys.up {
        Some(MoveKey::Up)
    } else if keys.down {
        Some(MoveKey::Down)
    } else if keys.right {
        Some(MoveKey::Right)
    } else if keys.left {
        Some(MoveKey::Left)
    } else {
        None
    }
}

/// The key that counts when several are held.
#[verifier::when_used_as_spec(spec_first_pressed)]
pub fn first_pressed(keys: PressedKeys) -> (key: Option<MoveKey>)
    ensures
        key == spec_first_pressed(keys),
{
    if keys.up {
        Some(MoveKey::Up)
    } else if keys.down {
        Some(MoveKey::Down)
    } else if keys.right {
        Some(MoveKey::Right)
    } else if keys.left {
        Some(MoveKey::Left)
    } else {
        None
    }
}

/// `coord + delta`, held to `[0, limit - 1]`: capped from above first, then
/// from below.
pub open spec fn clamp_step(coord: int, delta: int, limit: int) -> int {
    let capped = if coord + delta < limit - 1 {
        coord + delta
    } else {
        limit - 1
    };
    if capped > 0 {
        capped
    } else {
        0
    }
}

/// The cell that a pawn on `position` reaches by `step` on `board`.
pub open spec fn stepped(position: BoardPosition, step: Direction, board: Board) -> BoardPosition {
    BoardPosition {
        x: clamp_step(position.x as int, step.dx as int, board.width as int) as usize,
        y: clamp_step(position.y as int, step.dy as int, board.height as int) as usize,
    }
}

fn step_coordinate(coord: usize, delta: i8, limit: usize) -> (moved: usize)
    requires
        -1 <= delta <= 1,
    ensures
        moved == clamp_step(coord as int, delta as int, limit as int),
{
    if limit == 0 {
        return 0;
    }
    let top = limit - 1;
    if delta > 0 {
        if coord < top {
            coord + 1
        } else {
            top
        }
    } else if delta < 0 {
        if coord == 0 {
            0
        } else if coord - 1 < top {
            coord - 1
        } else {
            top
        }
    } else if coord < top {
        coord
    } else {
        top
    }
}

/// What a frame's input does to a pawn: where it stands and faces afterwards,
/// its yaw in quarter turns and the elevation of its new cell.
#[derive(Clone, Copy, Debug, PartialEq, Eq, Structural)]
pub struct PawnStep {
    pub position: BoardPosition,
    pub facing: Facing,
    pub quarter_turns: i8,
    pub height: Elevation,
}

/// The step that a frame's input gives, where it gives one.
pub open spec fn spec_move(
    position: BoardPosition,
    facing: Facing,
    key: MoveKey,
    board: Board,
    cache: &BoardCache,
) -> PawnStep {
    let step = spec_direction(facing, key);
    let moved = stepped(position, step, board);
    PawnStep {
        position: moved,
        facing: step.facing,
        quarter_turns: step.quarter_turns,
        height: cache.height_at(moved.x as int, moved.y as int),
    }
}

/// Processes one frame of input for a grid-stepped pawn. `rate_limit_finished`
/// says whether the pawn's rate-limit timer has elapsed with this frame's
/// tick. A step is taken exactly when board and cache are there, the timer
/// has elapsed and a directional key is held; the caller then resets the
/// timer and places the pawn as the step says. Otherwise nothing changes.
pub fn move_pawn_board_position(
    rate_limit_finished: bool,
    keys: PressedKeys,
    position: BoardPosition,
    facing: Facing,
    board: Option<Board>,
    cache: Option<&BoardCache>,
) -> (taken: Option<PawnStep>)
    ensures
        taken is Some <==> (board is Some && cache is Some && rate_limit_finished
            && spec_first_pressed(keys) is Some),
        taken is Some ==> taken->0 == spec_move(
            position,
            facing,
            spec_first_pressed(keys)->0,
            board->0,
            cache->0,
        ),
        taken is Some && board->0.width > 0 && board->0.height > 0 ==> board->0.contains(
            taken->0.position,
        ),
{
    let board = match board {
        Some(board) => board,
        None => {
            return None;
        },
    };
    let cache = match cache {
        Some(cache) => cache,
        None => {
            return None;
        },
    };
    if !rate_limit_finished {
        return None;
    }
    match first_pressed(keys) {
        Some(key) => {
            let step = direction(facing, key);
            let x = step_coordinate(position.x, step.dx, board.width);
            let y = step_coordinate(position.y, step.dy, board.height);
            Some(
                PawnStep {
                    position: BoardPosition { x, y },
                    facing: step.facing,
                    quarter_turns: step.quarter_turns,
                    height: cache.get_height(x, y),
                },
            )
        },
        None => None,
    }
}

/// A step never leaves a board that has cells, wherever the pawn stood and
/// whichever way it faced.
pub proof fn lemma_step_stays_on_board(
    position: BoardPosition,
    facing: Facing,
    key: MoveKey,
    board: Board,
)
    requires
        board.width > 0,
        board.height > 0,
    ensures
        board.contains(stepped(position, spec_direction(facing, key), board)),
{
}

/// Input is read relative to the pawn: the first key steps along the axis the
/// pawn faces, the second against it, the third along that axis turned a
/// quarter, the fourth against that; and the pawn then faces the way it
/// stepped.
pub proof fn lemma_direction_follows_facing(facing: Facing)
    ensures
        spec_direction(facing, MoveKey::Up) == spec_heading(facing),
        spec_direction(facing, MoveKey::Down).dx == -spec_heading(facing).dx,
        spec_direction(facing, MoveKey::Down).dy == -spec_heading(facing).dy,
        spec_direction(facing, MoveKey::Right).dx == -spec_heading(facing).dy,
        spec_direction(facing, MoveKey::Right).dy == spec_heading(facing).dx,
        spec_direction(facing, MoveKey::Left).dx == spec_heading(facing).dy,
        spec_direction(facing, MoveKey::Left).dy == -spec_heading(facing).dx,
        forall|key: MoveKey| #[trigger]
            spec_direction(facing, key) == spec_heading(spec_direction(facing, key).facing),
{
}

/// Where a pawn stands and faces after the keys of `keys` were applied one
/// after the other, each on a frame whose timer had elapsed.
pub open spec fn walked(
    position: BoardPosition,
    facing: Facing,
    keys: Seq<MoveKey>,
    board: Board,
) -> (BoardPosition, Facing)
    decreases keys.len(),
{
    if keys.len() == 0 {
        (position, facing)
    } else {
        let before = walked(position, facing, keys.drop_last(), board);
        let step = spec_direction(before.1, keys.last());
        (stepped(before.0, step, board), step.facing)
    }
}

/// Repeated input never leaves a board that has cells: after one step or
/// many the pawn stands on the board, wherever it started.
pub proof fn lemma_walk_stays_on_board(
    position: BoardPosition,
    facing: Facing,
    keys: Seq<MoveKey>,
    board: Board,
)
    requires
        board.width > 0,
        board.height > 0,
        keys.len() > 0,
    ensures
        board.contains(walked(position, facing, keys, board).0),
{
    let before = walked(position, facing, keys.drop_last(), board);
    lemma_step_stays_on_board(before.0, before.1, keys.last(), board);
}

} // verus!
