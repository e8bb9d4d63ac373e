use vstd::prelude::*;
use vstd::arithmetic::div_mod::lemma_fundamental_div_mod_converse;
use vstd::arithmetic::mul::lemma_mul_inequality;

verus! {

/// Palette index of every wall tile.
pub const WALL_COLOR: u8 = 0;

/// Number of palette entries that floor tiles choose from; they follow the wall's.
pub const FLOOR_SHADES: u8 = 3;

/// The glyph of a wall tile.
pub const WALL_GLYPH: char = '#';

/// The glyph of a floor tile.
pub const FLOOR_GLYPH: char = '.';

#[derive(Clone, Copy, Debug, PartialEq, Eq, Structural)]
pub enum TileKind {
    Wall,
    Floor,
}

/// A tile of the grid: its cell, its kind and its palette index.
#[derive(Clone, Copy, Debug, PartialEq, Eq, Structural)]
pub struct Tile {
    pub x: u16,
    pub y: u16,
    pub kind: TileKind,
    pub color: u8,
}

impl Tile {
    /// The glyph that the tile is drawn with.
    pub fn glyph(&self) -> (r: char)
        ensures
            r == (if self.kind == TileKind::Wall { WALL_GLYPH } else { FLOOR_GLYPH }),
    {
        match self.kind {
            TileKind::Wall => WALL_GLYPH,
            TileKind::Floor => FLOOR_GLYPH,
        }
    }
}

/// Whether `(x, y)` lies on the outer border of a `w` by `h` grid.
pub open spec fn on_border(w: int, h: int, x: int, y: int) -> bool {
    x == 0 || x == w - 1 || y == 0 || y == h - 1
}

/// The palette index of the floor tile with row-major index `i`: picked by `shades[i]`
/// when there is one, else the first floor shade.
pub open spec fn floor_color(shades: Seq<u8>, i: int) -> u8 {
    if 0 <= i < shades.len() {
        (1 + shades[i] % (FLOOR_SHADES as u8)) as u8
    } else {
        1
    }
}

/// The tile at `(x, y)`, whose row-major index is `i`.
pub open spec fn cell(w: int, h: int, x: int, y: int, i: int, shades: Seq<u8>) -> Tile {
    if on_border(w, h, x, y) {
        Tile { x: x as u16, y: y as u16, kind: TileKind::Wall, color: WALL_COLOR }
    } else {
        Tile { x: x as u16, y: y as u16, kind: TileKind::Floor, color: floor_color(shades, i) }
    }
}

/// The whole grid, row by row: index `i` holds the cell `(i % w, i / w)`.
pub open spec fn grid(w: int, h: int, shades: Seq<u8>) -> Seq<Tile> {
    Seq::new((w * h) as nat, |i: int| cell(w, h, i % w, i / w, i, shades))
}

/// Builds a `width` by `height` grid with walls on the border and floor inside.
/// Floor colors are picked by `shades`, one entry per tile in row-major order.
pub fn generate_grid(width: u16, height: u16, shades: &Vec<u8>) -> (tiles: Vec<Tile>)
    requires
        width >= 3,
        height >= 3,
        width as int * height as int <= usize::MAX,
    ensures
        tiles@ == grid(width as int, height as int, shades@),
{
    let ghost w = width as int;
    let ghost h = height as int;
    let mut tiles: Vec<Tile> = Vec::new();
    let mut y: u16 = 0;
    while y < height
        invariant
            w == width as int,
            h == height as int,
            width >= 3,
            w * h <= usize::MAX,
            y <= height,
            tiles@.len() == y as int * w,
            forall|i: int| 0 <= i < tiles@.len() ==> tiles@[i] == cell(w, h, i % w, i / w, i, shades@),
        decreases height - y,
    {
        let mut x: u16 = 0;
        while x < width
            invariant
                w == width as int,
                h == height as int,
                width >= 3,
                w * h <= usize::MAX,
                y < height,
                x <= width,
                tiles@.len() == y as int * w + x as int,
                forall|i: int| 0 <= i < tiles@.len() ==> tiles@[i] == cell(w, h, i % w, i / w, i, shades@),
            decreases width - x,
        {
            proof {
                lemma_mul_inequality(y as int + 1, h, w);
                assert((y as int + 1) * w == y as int * w + w) by (nonlinear_arith);
                lemma_fundamental_div_mod_converse(y as int * w + x as int, w, y as int, x as int);
            }
            let i: usize = tiles.len();
            let border = x == 0 || x == width - 1 || y == 0 || y == height - 1;
            let tile = if border {
                Tile { x, y, kind: TileKind::Wall, color: WALL_COLOR }
            } else {
                let color: u8 = if i < shades.len() { 1 + shades[i] % FLOOR_SHADES } else { 1 };
                Tile { x, y, kind: TileKind::Floor, color }
            };
            tiles.push(tile);
            x = x + 1;
        }
        proof {
            assert((y as int + 1) * w == y as int * w + w) by (nonlinear_arith);
        }
        y = y + 1;
    }
    proof {
        assert(h * w == w * h) by (nonlinear_arith);
        assert(tiles@ =~= grid(w, h, shades@));
    }
    tiles
}

} // verus!
