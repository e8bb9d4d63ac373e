use vstd::prelude::*;

verus! {

/// The glyph drawn for the cursor.
pub const CURSOR_GLYPH: char = '+';

/// One step on the grid. `Down` and `Right` increase a coordinate.
#[derive(Clone, Copy, Debug, PartialEq, Eq, Structural)]
pub enum Direction {
    Left,
    Right,
    Up,
    Down,
}

/// The cursor: a cell of the grid.
#[derive(Clone, Copy, Debug, PartialEq, Eq, Structural)]
pub struct Cursor {
    pub x: u16,
    pub y: u16,
}

/// The selected tile. When `is_selected` is false its position means nothing.
#[derive(Clone, Copy, Debug, PartialEq, Eq, Structural)]
pub struct SelectedTile {
    pub x: u16,
    pub y: u16,
    pub is_selected: bool,
}

/// Whether `(x, y)` lies inside the one-cell wall border of a `w` by `h` grid.
pub open spec fn in_interior(w: int, h: int, x: int, y: int) -> bool {
    1 <= x <= w - 2 && 1 <= y <= h - 2
}

pub open spec fn abs_diff(a: int, b: int) -> int {
    if a >= b { a - b } else { b - a }
}

/// Orthogonal adjacency: the cells are equal or share an edge; diagonals do not count.
pub open spec fn orthogonally_adjacent(ax: int, ay: int, bx: int, by: int) -> bool {
    abs_diff(ax, bx) + abs_diff(ay, by) <= 1
}

/// Whether a step from `(x, y)` in `dir` stays off the border of a `w` by `h` grid.
pub open spec fn step_in_bounds(w: int, h: int, x: int, y: int, dir: Direction) -> bool {
    match dir {
        Direction::Left => x > 1,
        Direction::Right => w - 2 > x,
        Direction::Up => y > 1,
        Direction::Down => h - 2 > y,
    }
}

pub open spec fn target_x(x: int, dir: Direction) -> int {
    match dir {
        Direction::Left => x - 1,
        Direction::Right => x + 1,
        _ => x,
    }
}

pub open spec fn target_y(y: int, dir: Direction) -> int {
    match dir {
        Direction::Up => y - 1,
        Direction::Down => y + 1,
        _ => y,
    }
}

/// Whether the cursor may take a step: it stays off the border, and while a tile is
/// selected it stays orthogonally adjacent to that tile.
pub open spec fn move_allowed(w: int, h: int, c: Cursor, sel: SelectedTile, dir: Direction) -> bool {
    &&& step_in_bounds(w, h, c.x as int, c.y as int, dir)
    &&& (sel.is_selected ==> orthogonally_adjacent(
        target_x(c.x as int, dir),
        target_y(c.y as int, dir),
        sel.x as int,
        sel.y as int,
    ))
}

/// The cursor after a step request: moved one cell when allowed, else unchanged.
pub open spec fn cursor_after_move(w: int, h: int, c: Cursor, sel: SelectedTile, dir: Direction) -> Cursor {
    if move_allowed(w, h, c, sel, dir) {
        Cursor { x: target_x(c.x as int, dir) as u16, y: target_y(c.y as int, dir) as u16 }
    } else {
        c
    }
}

/// A cursor at `(x, y)`.
pub fn init_cursor(x: u16, y: u16) -> (r: Cursor)
    ensures
        r == (Cursor { x, y }),
{
    Cursor { x, y }
}

fn distance_at_most_one(ax: u16, ay: u16, bx: u16, by: u16) -> (r: bool)
    ensures
        r == orthogonally_adjacent(ax as int, ay as int, bx as int, by as int),
{
    let dx: u16 = if ax >= bx { ax - bx } else { bx - ax };
    let dy: u16 = if ay >= by { ay - by } else { by - ay };
    (dx as u32) + (dy as u32) <= 1
}

/// Moves the cursor one cell in `dir` on a `width` by `height` grid, when the move is
/// allowed; returns whether it moved.
pub fn move_cursor(
    cursor: &mut Cursor,
    selection: &SelectedTile,
    width: u16,
    height: u16,
    dir: Direction,
) -> (moved: bool)
    ensures
        moved == move_allowed(width as int, height as int, *old(cursor), *selection, dir),
        *final(cursor) == cursor_after_move(width as int, height as int, *old(cursor), *selection, dir),
{
    let x = cursor.x;
    let y = cursor.y;
    let in_bounds = match dir {
        Direction::Left => x > 1,
        Direction::Right => (x as u32) + 2 < width as u32,
        Direction::Up => y > 1,
        Direction::Down => (y as u32) + 2 < height as u32,
    };
    if !in_bounds {
        return false;
    }
    let (nx, ny): (u16, u16) = match dir {
        Direction::Left => (x - 1, y),
        Direction::Right => (x + 1, y),
        Direction::Up => (x, y - 1),
        Direction::Down => (x, y + 1),
    };
    if selection.is_selected && !distance_at_most_one(nx, ny, selection.x, selection.y) {
        return false;
    }
    cursor.x = nx;
    cursor.y = ny;
    true
}

} // verus!
