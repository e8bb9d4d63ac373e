use vstd::prelude::*;
use vstd::arithmetic::div_mod::lemma_fundamental_div_mod_converse;
use vstd::arithmetic::mul::lemma_mul_inequality;
use crate::arena::{Controls, Input, controls_after, controls_after_all};
use crate::cursor::{
    Cursor, Direction, SelectedTile, abs_diff, cursor_after_move, in_interior, move_allowed,
    orthogonally_adjacent, step_in_bounds, target_x, target_y,
};
use crate::grid::{TileKind, grid, on_border};
use crate::selection::selection_after_cancel;

verus! {

/// The cell `(x, y)` of a `w` by `h` grid has row-major index `y * w + x`, within the grid.
pub proof fn lemma_index_in_grid(w: int, h: int, x: int, y: int)
    requires
        0 <= x < w,
        0 <= y < h,
    ensures
        0 <= y * w,
        0 <= y * w + x < w * h,
        (y * w + x) % w == x,
        (y * w + x) / w == y,
{
    lemma_mul_inequality(y + 1, h, w);
    assert((y + 1) * w == y * w + w) by (nonlinear_arith);
    assert(h * w == w * h) by (nonlinear_arith);
    assert(0 <= y * w) by (nonlinear_arith)
        requires
            0 <= y,
            0 <= x < w,
    ;
    lemma_fundamental_div_mod_converse(y * w + x, w, y, x);
}

/// A generated grid covers every cell once, row by row, and a tile is a wall exactly
/// when its cell lies on the border.
pub proof fn lemma_grid_walls(w: u16, h: u16, shades: Seq<u8>)
    requires
        w >= 3,
        h >= 3,
    ensures
        grid(w as int, h as int, shades).len() == w as int * h as int,
        forall|x: int, y: int|
            0 <= x < w && 0 <= y < h ==> {
                let t = #[trigger] grid(w as int, h as int, shades)[y * w as int + x];
                &&& t.x as int == x
                &&& t.y as int == y
            },
        forall|i: int|
            0 <= i < w as int * h as int ==> {
                let t = #[trigger] grid(w as int, h as int, shades)[i];
                &&& t.x as int == i % (w as int)
                &&& t.y as int == i / (w as int)
                &&& (t.kind == TileKind::Wall <==> on_border(w as int, h as int, t.x as int, t.y as int))
            },
{
    let wi = w as int;
    let hi = h as int;
    assert forall|i: int| 0 <= i < wi * hi implies {
        let t = #[trigger] grid(wi, hi, shades)[i];
        &&& t.x as int == i % wi
        &&& t.y as int == i / wi
        &&& (t.kind == TileKind::Wall <==> on_border(wi, hi, t.x as int, t.y as int))
    } by {
        let q = i / wi;
        let r = i % wi;
        assert(0 <= r < wi);
        assert(0 <= q < hi) by {
            vstd::arithmetic::div_mod::lemma_div_pos_is_pos(i, wi);
            vstd::arithmetic::div_mod::lemma_div_by_multiple_is_strongly_ordered(i, wi * hi, hi, wi);
            assert(wi * hi == hi * wi) by (nonlinear_arith);
            vstd::arithmetic::div_mod::lemma_div_multiples_vanish(hi, wi);
        }
    }
    assert forall|x: int, y: int| 0 <= x < w && 0 <= y < h implies {
        let t = #[trigger] grid(wi, hi, shades)[y * wi + x];
        &&& t.x as int == x
        &&& t.y as int == y
    } by {
        lemma_index_in_grid(wi, hi, x, y);
    }
}

/// Whatever inputs arrive, a cursor that starts inside the walls stays inside them.
pub proof fn lemma_cursor_stays_inside(w: u16, h: u16, s: Controls, inputs: Seq<Input>)
    requires
        w >= 3,
        h >= 3,
        in_interior(w as int, h as int, s.cursor.x as int, s.cursor.y as int),
    ensures
        ({
            let c = controls_after_all(w as int, h as int, s, inputs).cursor;
            in_interior(w as int, h as int, c.x as int, c.y as int)
        }),
    decreases inputs.len(),
{
    if inputs.len() > 0 {
        lemma_cursor_stays_inside(w, h, s, inputs.drop_last());
    }
}

/// With nothing selected, a step that stays off the border always happens, and moves
/// the cursor by one in exactly one coordinate.
pub proof fn lemma_free_move_changes_one_coordinate(
    w: u16,
    h: u16,
    c: Cursor,
    sel: SelectedTile,
    dir: Direction,
)
    requires
        !sel.is_selected,
        step_in_bounds(w as int, h as int, c.x as int, c.y as int, dir),
    ensures
        move_allowed(w as int, h as int, c, sel, dir),
        ({
            let n = cursor_after_move(w as int, h as int, c, sel, dir);
            ||| (n.x == c.x && abs_diff(n.y as int, c.y as int) == 1)
            ||| (n.y == c.y && abs_diff(n.x as int, c.x as int) == 1)
        }),
{
}

/// With a tile selected, a step that stays off the border happens exactly when its
/// target is orthogonally adjacent to the selected tile; otherwise the cursor stays.
pub proof fn lemma_selected_move_needs_adjacency(
    w: u16,
    h: u16,
    c: Cursor,
    sel: SelectedTile,
    dir: Direction,
)
    requires
        sel.is_selected,
        step_in_bounds(w as int, h as int, c.x as int, c.y as int, dir),
    ensures
        ({
            let nx = target_x(c.x as int, dir);
            let ny = target_y(c.y as int, dir);
            let n = cursor_after_move(w as int, h as int, c, sel, dir);
            &&& move_allowed(w as int, h as int, c, sel, dir)
                <==> orthogonally_adjacent(nx, ny, sel.x as int, sel.y as int)
            &&& orthogonally_adjacent(nx, ny, sel.x as int, sel.y as int)
                ==> n.x as int == nx && n.y as int == ny
            &&& !orthogonally_adjacent(nx, ny, sel.x as int, sel.y as int) ==> n == c
        }),
{
}

/// A cancel leaves nothing selected, whatever the state before, and moves no cursor.
pub proof fn lemma_cancel_deselects(w: int, h: int, s: Controls)
    ensures
        !controls_after(w, h, s, Input::Cancel).selection.is_selected,
        controls_after(w, h, s, Input::Cancel).cursor == s.cursor,
        controls_after(w, h, s, Input::Cancel).selection == selection_after_cancel(s.selection),
{
}

} // verus!
