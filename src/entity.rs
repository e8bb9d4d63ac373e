use vstd::prelude::*;
use crate::cursor::{Direction, in_interior, step_in_bounds, target_x, target_y};

verus! {

/// An actor on the grid, with hit points.
#[derive(Clone, Copy, Debug, PartialEq, Eq, Structural)]
pub struct Entity {
    pub x: u16,
    pub y: u16,
    pub glyph: char,
    pub color: u8,
    pub hp: u32,
    pub max_hp: u32,
}

/// The entity after a step request: one cell in `dir` when that stays off the border of
/// a `w` by `h` grid, else unchanged.
pub open spec fn entity_after_move(w: int, h: int, e: Entity, dir: Direction) -> Entity {
    if step_in_bounds(w, h, e.x as int, e.y as int, dir) {
        Entity { x: target_x(e.x as int, dir) as u16, y: target_y(e.y as int, dir) as u16, ..e }
    } else {
        e
    }
}

/// The actors of a level; the one at index `player` is moved by input.
pub struct Actors {
    pub entities: Vec<Entity>,
    pub player: usize,
}

impl Actors {
    pub open spec fn wf(&self) -> bool {
        self.player < self.entities@.len()
    }

    /// The actors `entities`, of which the one at index `player` is the player.
    pub fn new(entities: Vec<Entity>, player: usize) -> (r: Actors)
        requires
            player < entities@.len(),
        ensures
            r.wf(),
            r.entities@ == entities@,
            r.player == player,
    {
        Actors { entities, player }
    }

    /// The player entity.
    pub fn player_entity(&self) -> (r: Entity)
        requires
            self.wf(),
        ensures
            r == self.entities@[self.player as int],
    {
        self.entities[self.player]
    }

    /// Moves the player one cell in `dir` on a `width` by `height` grid unless that
    /// would reach the border; returns whether it moved. Other actors stay put.
    pub fn move_player(&mut self, dir: Direction, width: u16, height: u16) -> (moved: bool)
        requires
            old(self).wf(),
        ensures
            final(self).wf(),
            final(self).player == old(self).player,
            moved == step_in_bounds(
                width as int,
                height as int,
                old(self).entities@[old(self).player as int].x as int,
                old(self).entities@[old(self).player as int].y as int,
                dir,
            ),
            final(self).entities@ == old(self).entities@.update(
                old(self).player as int,
                entity_after_move(
                    width as int,
                    height as int,
                    old(self).entities@[old(self).player as int],
                    dir,
                ),
            ),
            ({
                let p = old(self).entities@[old(self).player as int];
                let q = final(self).entities@[old(self).player as int];
                in_interior(width as int, height as int, p.x as int, p.y as int) ==> in_interior(
                    width as int,
                    height as int,
                    q.x as int,
                    q.y as int,
                )
            }),
    {
        let mut e = self.entities[self.player];
        let in_bounds = match dir {
            Direction::Left => e.x > 1,
            Direction::Right => (e.x as u32) + 2 < width as u32,
            Direction::Up => e.y > 1,
            Direction::Down => (e.y as u32) + 2 < height as u32,
        };
        if !in_bounds {
            return false;
        }
        match dir {
            Direction::Left => e.x = e.x - 1,
            Direction::Right => e.x = e.x + 1,
            Direction::Up => e.y = e.y - 1,
            Direction::Down => e.y = e.y + 1,
        }
        let p = self.player;
        self.entities.set(p, e);
        true
    }
}

} // verus!
