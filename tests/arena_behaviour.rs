use tile_arena::arena::{Arena, CursorSystem, Input, Maze};
use tile_arena::cursor::{init_cursor, move_cursor, Cursor, Direction, SelectedTile};
use tile_arena::entity::{Actors, Entity};
use tile_arena::grid::{generate_grid, Tile, TileKind, FLOOR_GLYPH, WALL_COLOR, WALL_GLYPH};
use tile_arena::selection::{cancel, confirm, no_selection};

fn unselected() -> SelectedTile {
    no_selection()
}

fn selected_at(x: u16, y: u16) -> SelectedTile {
    SelectedTile { x, y, is_selected: true }
}

#[test]
fn border_cells_are_walls_and_inside_is_floor() {
    for (w, h) in [(3u16, 3u16), (5, 4), (9, 9), (20, 15)] {
        let tiles = generate_grid(w, h, &vec![]);
        assert_eq!(tiles.len(), (w as usize) * (h as usize));
        for y in 0..h {
            for x in 0..w {
                let t = tiles[(y as usize) * (w as usize) + (x as usize)];
                assert_eq!((t.x, t.y), (x, y));
                let border = x == 0 || x == w - 1 || y == 0 || y == h - 1;
                if border {
                    assert_eq!(t.kind, TileKind::Wall);
                    assert_eq!(t.color, WALL_COLOR);
                    assert_eq!(t.glyph(), WALL_GLYPH);
                } else {
                    assert_eq!(t.kind, TileKind::Floor);
                    assert_eq!(t.color, 1);
                    assert_eq!(t.glyph(), FLOOR_GLYPH);
                }
            }
        }
    }
}

#[test]
fn smallest_grid_has_one_floor_cell() {
    let tiles = generate_grid(3, 3, &vec![]);
    let floors: Vec<&Tile> = tiles.iter().filter(|t| t.kind == TileKind::Floor).collect();
    assert_eq!(floors.len(), 1);
    assert_eq!((floors[0].x, floors[0].y), (1, 1));
}

#[test]
fn floor_shades_pick_palette_entries() {
    // 4 by 3: the floor cells are (1,1) at index 5 and (2,1) at index 6.
    let shades: Vec<u8> = vec![9, 9, 9, 9, 9, 4, 2, 9, 9, 9, 9, 9];
    let tiles = generate_grid(4, 3, &shades);
    assert_eq!(tiles[5].color, 2);
    assert_eq!(tiles[6].color, 3);
    assert_eq!(tiles[0].color, WALL_COLOR);
    // Missing shades fall back to the first floor shade.
    let short = generate_grid(4, 3, &vec![0, 0, 0, 0, 0, 2]);
    assert_eq!(short[5].color, 3);
    assert_eq!(short[6].color, 1);
}

#[test]
fn tile_at_reads_cells_and_rejects_outside() {
    let arena = Arena::new(6, 5, 2, 2, &vec![]);
    let t = arena.tile_at(3, 4).unwrap();
    assert_eq!((t.x, t.y, t.kind), (3, 4, TileKind::Wall));
    let f = arena.tile_at(2, 3).unwrap();
    assert_eq!(f.kind, TileKind::Floor);
    assert!(arena.tile_at(6, 0).is_none());
    assert!(arena.tile_at(0, 5).is_none());
}

#[test]
fn new_arena_places_cursor_and_selects_nothing() {
    let arena = Arena::new(20, 15, 1, 1, &vec![]);
    assert_eq!(arena.cursor, Cursor { x: 1, y: 1 });
    assert!(!arena.selection.is_selected);
    assert_eq!(arena.tiles.len(), 300);
}

#[test]
fn cursor_stays_inside_walls() {
    let mut arena = Arena::new(5, 4, 1, 1, &vec![]);
    let dirs = [
        Direction::Left, Direction::Up, Direction::Right, Direction::Right, Direction::Right,
        Direction::Right, Direction::Down, Direction::Down, Direction::Down, Direction::Left,
        Direction::Up, Direction::Up, Direction::Up,
    ];
    for (k, d) in dirs.iter().enumerate() {
        arena.move_cursor(*d);
        assert!(arena.cursor.x >= 1 && arena.cursor.x <= 3, "step {}", k);
        assert!(arena.cursor.y >= 1 && arena.cursor.y <= 2, "step {}", k);
    }
    assert_eq!(arena.cursor, Cursor { x: 2, y: 1 });
}

#[test]
fn blocked_moves_at_each_wall() {
    let sel = unselected();
    let mut c = init_cursor(1, 1);
    assert!(!move_cursor(&mut c, &sel, 5, 5, Direction::Left));
    assert!(!move_cursor(&mut c, &sel, 5, 5, Direction::Up));
    assert_eq!(c, Cursor { x: 1, y: 1 });
    let mut c = init_cursor(3, 3);
    assert!(!move_cursor(&mut c, &sel, 5, 5, Direction::Right));
    assert!(!move_cursor(&mut c, &sel, 5, 5, Direction::Down));
    assert_eq!(c, Cursor { x: 3, y: 3 });
}

#[test]
fn free_moves_change_one_coordinate_by_one() {
    let sel = unselected();
    let cases = [
        (Direction::Left, (4u16, 5u16)),
        (Direction::Right, (6, 5)),
        (Direction::Up, (5, 4)),
        (Direction::Down, (5, 6)),
    ];
    for (d, expected) in cases {
        let mut c = init_cursor(5, 5);
        assert!(move_cursor(&mut c, &sel, 10, 10, d));
        assert_eq!((c.x, c.y), expected);
    }
}

#[test]
fn selected_moves_need_adjacency() {
    let sel = selected_at(5, 5);
    // From the selected tile every neighbour is reachable.
    for d in [Direction::Left, Direction::Right, Direction::Up, Direction::Down] {
        let mut c = init_cursor(5, 5);
        assert!(move_cursor(&mut c, &sel, 10, 10, d));
    }
    // From a neighbour, stepping away is dropped; stepping back is allowed.
    let mut c = init_cursor(6, 5);
    assert!(!move_cursor(&mut c, &sel, 10, 10, Direction::Right));
    assert!(!move_cursor(&mut c, &sel, 10, 10, Direction::Up));
    assert_eq!(c, Cursor { x: 6, y: 5 });
    assert!(move_cursor(&mut c, &sel, 10, 10, Direction::Left));
    assert_eq!(c, Cursor { x: 5, y: 5 });
    // A diagonal target is not adjacent.
    let mut c = init_cursor(6, 5);
    assert!(!move_cursor(&mut c, &sel, 10, 10, Direction::Down));
}

#[test]
fn confirm_selects_cursor_tile() {
    let mut sel = unselected();
    confirm(&mut sel, &init_cursor(3, 3));
    assert_eq!(sel, SelectedTile { x: 3, y: 3, is_selected: true });
}

#[test]
fn confirm_again_on_selected_tile_deselects() {
    let mut sel = selected_at(3, 3);
    confirm(&mut sel, &init_cursor(3, 3));
    assert!(!sel.is_selected);
}

#[test]
fn confirm_elsewhere_moves_selection() {
    let mut sel = selected_at(3, 3);
    confirm(&mut sel, &init_cursor(4, 3));
    assert_eq!(sel, SelectedTile { x: 4, y: 3, is_selected: true });
}

#[test]
fn cancel_always_deselects() {
    let mut sel = selected_at(2, 7);
    cancel(&mut sel);
    assert!(!sel.is_selected);
    let mut sel = unselected();
    cancel(&mut sel);
    assert!(!sel.is_selected);
    let mut arena = Arena::new(8, 8, 3, 3, &vec![]);
    arena.confirm();
    assert!(arena.selection.is_selected);
    arena.move_cursor(Direction::Right);
    arena.cancel();
    assert!(!arena.selection.is_selected);
    assert_eq!(arena.cursor, Cursor { x: 4, y: 3 });
}

#[test]
fn end_to_end_select_then_blocked() {
    let mut arena = Arena::new(20, 15, 1, 1, &vec![]);
    for _ in 0..5 {
        assert!(arena.move_cursor(Direction::Right));
    }
    assert_eq!(arena.cursor, Cursor { x: 6, y: 1 });
    arena.confirm();
    assert_eq!(arena.selection, SelectedTile { x: 6, y: 1, is_selected: true });
    assert!(arena.move_cursor(Direction::Right));
    assert!(!arena.move_cursor(Direction::Right));
    assert!(!arena.move_cursor(Direction::Right));
    assert_eq!(arena.cursor, Cursor { x: 7, y: 1 });
}

#[test]
fn cursor_system_applies_inputs_in_order() {
    let mut arena = Arena::new(20, 15, 1, 1, &vec![]);
    let mut inputs: Vec<Input> = vec![Input::Move(Direction::Right); 5];
    inputs.push(Input::Confirm);
    inputs.extend(vec![Input::Move(Direction::Right); 3]);
    let mut system = CursorSystem;
    system.run(&mut arena, &inputs);
    assert_eq!(arena.cursor, Cursor { x: 7, y: 1 });
    assert!(arena.selection.is_selected);
    system.run(&mut arena, &vec![Input::Cancel, Input::Move(Direction::Right), Input::Move(Direction::Down)]);
    assert!(!arena.selection.is_selected);
    assert_eq!(arena.cursor, Cursor { x: 8, y: 2 });
}

#[test]
fn handle_routes_each_input() {
    let mut arena = Arena::new(6, 6, 2, 2, &vec![]);
    arena.handle(Input::Move(Direction::Down));
    assert_eq!(arena.cursor, Cursor { x: 2, y: 3 });
    arena.handle(Input::Confirm);
    assert_eq!(arena.selection, SelectedTile { x: 2, y: 3, is_selected: true });
    arena.handle(Input::Confirm);
    assert!(!arena.selection.is_selected);
}

#[test]
fn maze_default_dimensions() {
    let m = Maze::new();
    assert_eq!((m.height, m.width), (8, 16));
}

fn goblin(x: u16, y: u16) -> Entity {
    Entity { x, y, glyph: 'g', color: 2, hp: 5, max_hp: 5 }
}

#[test]
fn player_moves_and_stops_at_walls() {
    let hero = Entity { x: 1, y: 2, glyph: '@', color: 7, hp: 10, max_hp: 10 };
    let mut actors = Actors::new(vec![goblin(4, 4), hero, goblin(2, 2)], 1);
    assert!(!actors.move_player(Direction::Left, 6, 6));
    assert!(actors.move_player(Direction::Right, 6, 6));
    assert!(actors.move_player(Direction::Down, 6, 6));
    assert!(actors.move_player(Direction::Down, 6, 6));
    assert!(!actors.move_player(Direction::Down, 6, 6));
    let p = actors.player_entity();
    assert_eq!((p.x, p.y, p.glyph, p.hp), (2, 4, '@', 10));
    assert_eq!(actors.entities[0], goblin(4, 4));
    assert_eq!(actors.entities[2], goblin(2, 2));
}
