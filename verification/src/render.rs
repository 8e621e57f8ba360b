//! Frame rendering: draws the visible window into a grid of characters, one
//! row per viewport line. `'P'` marks the player, `'X'` an obstacle's top or
//! bottom surface row within its horizontal span, `'.'` an empty cell. The
//! terminal writes themselves happen outside the library, from this grid.

use vstd::prelude::*;
use crate::geometry::{Obstacle, Player, Viewport, obstacles_wf};

verus! {

/// This obstacle shows at the world cell `(row, col)`: the column lies in
/// its horizontal span and the row is its top surface or its bottom surface.
pub open spec fn obstacle_at_cell(obstacle: Obstacle, row: int, col: int) -> bool {
    &&& obstacle.x <= col < obstacle.x + obstacle.width
    &&& (row == obstacle.y || row == obstacle.y + obstacle.height)
}

/// Some obstacle shows at the world cell `(row, col)`.
pub open spec fn cell_has_obstacle(obstacles: Seq<Obstacle>, row: int, col: int) -> bool {
    exists|i: int| 0 <= i < obstacles.len() && obstacle_at_cell(obstacles[i], row, col)
}

/// The character drawn at the world cell `(row, col)`: the player wins over
/// obstacles, obstacles over empty space.
pub open spec fn cell_char(player: Player, obstacles: Seq<Obstacle>, row: int, col: int) -> char {
    if player.y == row && player.x == col {
        'P'
    } else if cell_has_obstacle(obstacles, row, col) {
        'X'
    } else {
        '.'
    }
}

/// The grid is exactly the rendering of the viewport's window: one row per
/// viewport line, one character per column, each cell as `cell_char` says.
pub open spec fn frame_matches(
    grid: Seq<Vec<char>>,
    player: Player,
    obstacles: Seq<Obstacle>,
    viewport: Viewport,
) -> bool {
    &&& grid.len() == viewport.height
    &&& forall|i: int| 0 <= i < viewport.height ==> #[trigger] grid[i]@.len() == viewport.width
    &&& forall|i: int, j: int|
        0 <= i < viewport.height && 0 <= j < viewport.width
            ==> #[trigger] grid[i]@[j] == cell_char(
                player,
                obstacles,
                viewport.y + i,
                viewport.x + j,
            )
}

/// Returns true iff some obstacle shows at the world cell `(row, col)`.
fn cell_is_obstacle(obstacles: &Vec<Obstacle>, row: i32, col: i32) -> (r: bool)
    requires
        obstacles_wf(obstacles@),
    ensures
        r == cell_has_obstacle(obstacles@, row as int, col as int),
{
    let mut found = false;
    let mut k: usize = 0;
    while k < obstacles.len()
        invariant
            k <= obstacles.len(),
            obstacles_wf(obstacles@),
            found == exists|i: int|
                0 <= i < k && obstacle_at_cell(#[trigger] obstacles@[i], row as int, col as int),
        decreases obstacles.len() - k,
    {
        let obs = obstacles[k];
        assert(obstacles@[k as int].wf());
        if row == obs.y && col >= obs.x && col < obs.x + obs.width {
            found = true;
        }
        if row == obs.y + obs.height && col >= obs.x && col < obs.x + obs.width {
            found = true;
        }
        k += 1;
    }
    found
}

/// Renders the visible window into a fresh grid: `viewport.height` rows of
/// `viewport.width` characters, row-major, cell by cell as `cell_char` says.
pub fn render_frame(player: &Player, obstacles: &Vec<Obstacle>, viewport: &Viewport) -> (grid: Vec<
    Vec<char>,
>)
    requires
        obstacles_wf(obstacles@),
        viewport.width >= 0,
        viewport.height >= 0,
        viewport.x + viewport.width <= i32::MAX,
        viewport.y + viewport.height <= i32::MAX,
    ensures
        frame_matches(grid@, *player, obstacles@, *viewport),
{
    let mut grid: Vec<Vec<char>> = Vec::new();
    let mut i: i32 = 0;
    while i < viewport.height
        invariant
            0 <= i <= viewport.height,
            viewport.width >= 0,
            obstacles_wf(obstacles@),
            viewport.x + viewport.width <= i32::MAX,
            viewport.y + viewport.height <= i32::MAX,
            grid@.len() == i,
            forall|a: int| 0 <= a < i ==> #[trigger] grid@[a]@.len() == viewport.width,
            forall|a: int, b: int|
                0 <= a < i && 0 <= b < viewport.width
                    ==> #[trigger] grid@[a]@[b] == cell_char(
                        *player,
                        obstacles@,
                        viewport.y + a,
                        viewport.x + b,
                    ),
        decreases viewport.height - i,
    {
        let real_y: i32 = i + viewport.y;
        let mut row: Vec<char> = Vec::new();
        let mut j: i32 = 0;
        while j < viewport.width
            invariant
                0 <= j <= viewport.width,
                0 <= i < viewport.height,
                obstacles_wf(obstacles@),
                viewport.x + viewport.width <= i32::MAX,
                real_y == viewport.y + i,
                row@.len() == j,
                forall|b: int|
                    0 <= b < j ==> #[trigger] row@[b] == cell_char(
                        *player,
                        obstacles@,
                        viewport.y + i,
                        viewport.x + b,
                    ),
            decreases viewport.width - j,
        {
            let real_x: i32 = j + viewport.x;
            let c: char = if real_y == player.y && real_x == player.x {
                'P'
            } else if cell_is_obstacle(obstacles, real_y, real_x) {
                'X'
            } else {
                '.'
            };
            row.push(c);
            j += 1;
        }
        grid.push(row);
        i += 1;
    }
    grid
}

} // verus!
