use vstd::prelude::*;
use crate::cursor::{
    Cursor, Direction, SelectedTile, cursor_after_move, in_interior, init_cursor, move_allowed,
    move_cursor,
};
use crate::grid::{Tile, TileKind, generate_grid, grid, on_border};
use crate::selection::{
    cancel, confirm, no_selection, selection_after_cancel, selection_after_confirm,
};

verus! {

/// Dimensions of a maze, in tiles.
pub struct Maze {
    pub height: u16,
    pub width: u16,
}

impl Maze {
    /// The default maze: eight tiles high and sixteen wide.
    pub fn new() -> (r: Maze)
        ensures
            r.height == 8,
            r.width == 16,
    {
        Maze { height: 8, width: 16 }
    }
}

/// One input event of a frame.
#[derive(Clone, Copy, Debug, PartialEq, Eq, Structural)]
pub enum Input {
    Move(Direction),
    Confirm,
    Cancel,
}

/// The state that input changes: the cursor and the selection.
pub struct Controls {
    pub cursor: Cursor,
    pub selection: SelectedTile,
}

/// The controls after one input on a `w` by `h` grid.
pub open spec fn controls_after(w: int, h: int, s: Controls, input: Input) -> Controls {
    match input {
        Input::Move(dir) => Controls {
            cursor: cursor_after_move(w, h, s.cursor, s.selection, dir),
            selection: s.selection,
        },
        Input::Confirm => Controls {
            cursor: s.cursor,
            selection: selection_after_confirm(s.selection, s.cursor),
        },
        Input::Cancel => Controls {
            cursor: s.cursor,
            selection: selection_after_cancel(s.selection),
        },
    }
}

/// The controls after the inputs, taken in order.
pub open spec fn controls_after_all(w: int, h: int, s: Controls, inputs: Seq<Input>) -> Controls
    decreases inputs.len(),
{
    if inputs.len() == 0 {
        s
    } else {
        controls_after(
            w,
            h,
            controls_after_all(w, h, s, inputs.drop_last()),
            inputs.last(),
        )
    }
}

/// The game state: a walled grid of tiles, the cursor on it and the selected tile.
pub struct Arena {
    pub width: u16,
    pub height: u16,
    pub tiles: Vec<Tile>,
    pub cursor: Cursor,
    pub selection: SelectedTile,
}

impl Arena {
    /// The grid is at least three cells each way, its tiles are laid out row by row with
    /// walls exactly on the border, and the cursor stands inside the walls.
    pub open spec fn wf(&self) -> bool {
        let w = self.width as int;
        let h = self.height as int;
        &&& w >= 3
        &&& h >= 3
        &&& self.tiles@.len() == w * h
        &&& forall|i: int|
            0 <= i < self.tiles@.len() ==> {
                let t = #[trigger] self.tiles@[i];
                &&& t.x as int == i % w
                &&& t.y as int == i / w
                &&& (t.kind == TileKind::Wall <==> on_border(w, h, t.x as int, t.y as int))
            }
        &&& in_interior(w, h, self.cursor.x as int, self.cursor.y as int)
    }

    pub open spec fn controls(&self) -> Controls {
        Controls { cursor: self.cursor, selection: self.selection }
    }

    /// A new arena of `width` by `height` tiles, with floor colors picked by `shades`,
    /// the cursor at `(start_x, start_y)` and nothing selected.
    pub fn new(width: u16, height: u16, start_x: u16, start_y: u16, shades: &Vec<u8>) -> (r: Arena)
        requires
            width >= 3,
            height >= 3,
            width as int * height as int <= usize::MAX,
            in_interior(width as int, height as int, start_x as int, start_y as int),
        ensures
            r.wf(),
            r.width == width,
            r.height == height,
            r.tiles@ == grid(width as int, height as int, shades@),
            r.cursor == (Cursor { x: start_x, y: start_y }),
            !r.selection.is_selected,
    {
        let tiles = generate_grid(width, height, shades);
        proof {
            crate::laws::lemma_grid_walls(width, height, shades@);
        }
        Arena {
            width,
            height,
            tiles,
            cursor: init_cursor(start_x, start_y),
            selection: no_selection(),
        }
    }

    /// The tile at `(x, y)`, or `None` outside the grid.
    pub fn tile_at(&self, x: u16, y: u16) -> (r: Option<Tile>)
        requires
            self.wf(),
        ensures
            x < self.width && y < self.height ==> r == Some(
                self.tiles@[y as int * self.width as int + x as int],
            ),
            !(x < self.width && y < self.height) ==> r.is_none(),
    {
        if x < self.width && y < self.height {
            let n: usize = self.tiles.len();
            proof {
                crate::laws::lemma_index_in_grid(self.width as int, self.height as int, x as int, y as int);
                assert((y as int * self.width as int + x as int) < n as int);
            }
            let i: usize = (y as usize) * (self.width as usize) + (x as usize);
            Some(self.tiles[i])
        } else {
            None
        }
    }

    /// Moves the cursor one cell when the rules allow it; returns whether it moved.
    pub fn move_cursor(&mut self, dir: Direction) -> (moved: bool)
        requires
            old(self).wf(),
        ensures
            final(self).wf(),
            moved == move_allowed(
                old(self).width as int,
                old(self).height as int,
                old(self).cursor,
                old(self).selection,
                dir,
            ),
            final(self).controls() == controls_after(
                old(self).width as int,
                old(self).height as int,
                old(self).controls(),
                Input::Move(dir),
            ),
            final(self).width == old(self).width,
            final(self).height == old(self).height,
            final(self).tiles@ == old(self).tiles@,
    {
        let selection = self.selection;
        move_cursor(&mut self.cursor, &selection, self.width, self.height, dir)
    }

    /// Confirm: selects the tile under the cursor, or deselects it when it is already
    /// the selected one.
    pub fn confirm(&mut self)
        requires
            old(self).wf(),
        ensures
            final(self).wf(),
            final(self).cursor == old(self).cursor,
            final(self).selection == selection_after_confirm(old(self).selection, old(self).cursor),
            final(self).width == old(self).width,
            final(self).height == old(self).height,
            final(self).tiles@ == old(self).tiles@,
    {
        let c = self.cursor;
        confirm(&mut self.selection, &c);
    }

    /// Cancel: nothing is selected afterwards.
    pub fn cancel(&mut self)
        requires
            old(self).wf(),
        ensures
            final(self).wf(),
            final(self).cursor == old(self).cursor,
            final(self).selection == selection_after_cancel(old(self).selection),
            !final(self).selection.is_selected,
            final(self).width == old(self).width,
            final(self).height == old(self).height,
            final(self).tiles@ == old(self).tiles@,
    {
        cancel(&mut self.selection);
    }

    /// Applies one input event.
    pub fn handle(&mut self, input: Input)
        requires
            old(self).wf(),
        ensures
            final(self).wf(),
            final(self).controls() == controls_after(
                old(self).width as int,
                old(self).height as int,
                old(self).controls(),
                input,
            ),
            final(self).width == old(self).width,
            final(self).height == old(self).height,
            final(self).tiles@ == old(self).tiles@,
    {
        match input {
            Input::Move(dir) => {
                self.move_cursor(dir);
            },
            Input::Confirm => self.confirm(),
            Input::Cancel => self.cancel(),
        }
    }
}

/// Applies each frame's input events to the arena.
pub struct CursorSystem;

impl CursorSystem {
    /// Applies `inputs` to `arena`, in order.
    pub fn run(&mut self, arena: &mut Arena, inputs: &Vec<Input>)
        requires
            old(arena).wf(),
        ensures
            final(arena).wf(),
            final(arena).controls() == controls_after_all(
                old(arena).width as int,
                old(arena).height as int,
                old(arena).controls(),
                inputs@,
            ),
            final(arena).width == old(arena).width,
            final(arena).height == old(arena).height,
            final(arena).tiles@ == old(arena).tiles@,
    {
        let ghost start = *arena;
        let mut i: usize = 0;
        while i < inputs.len()
            invariant
                i <= inputs.len(),
                arena.wf(),
                arena.width == start.width,
                arena.height == start.height,
                arena.tiles@ == start.tiles@,
                arena.controls() == controls_after_all(
                    start.width as int,
                    start.height as int,
                    start.controls(),
                    inputs@.take(i as int),
                ),
            decreases inputs.len() - i,
        {
            proof {
                assert(inputs@.take(i as int + 1).drop_last() =~= inputs@.take(i as int));
            }
            arena.handle(inputs[i]);
            i = i + 1;
        }
        proof {
            assert(inputs@.take(i as int) =~= inputs@);
        }
    }
}

} // verus!
