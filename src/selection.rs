use vstd::prelude::*;
use crate::cursor::{Cursor, SelectedTile};

verus! {

/// The glyph drawn over the selected tile.
pub const SELECTION_GLYPH: char = '*';

/// No tile selected.
pub fn no_selection() -> (r: SelectedTile)
    ensures
        !r.is_selected,
        r.x == 0,
        r.y == 0,
{
    SelectedTile { x: 0, y: 0, is_selected: false }
}

/// The selection after a confirm with the cursor at `c`: confirming on the selected
/// tile deselects it; otherwise the tile under the cursor becomes the selection.
pub open spec fn selection_after_confirm(sel: SelectedTile, c: Cursor) -> SelectedTile {
    if sel.is_selected && sel.x == c.x && sel.y == c.y {
        SelectedTile { is_selected: false, ..sel }
    } else {
        SelectedTile { x: c.x, y: c.y, is_selected: true }
    }
}

/// The selection after a cancel: nothing selected.
pub open spec fn selection_after_cancel(sel: SelectedTile) -> SelectedTile {
    SelectedTile { is_selected: false, ..sel }
}

/// Handles a confirm with the cursor at `cursor`.
pub fn confirm(selection: &mut SelectedTile, cursor: &Cursor)
    ensures
        *final(selection) == selection_after_confirm(*old(selection), *cursor),
{
    if selection.is_selected && selection.x == cursor.x && selection.y == cursor.y {
        selection.is_selected = false;
    } else {
        selection.x = cursor.x;
        selection.y = cursor.y;
        selection.is_selected = true;
    }
}

/// Handles a cancel: whatever the state, nothing is selected afterwards.
pub fn cancel(selection: &mut SelectedTile)
    ensures
        *final(selection) == selection_after_cancel(*old(selection)),
        !final(selection).is_selected,
{
    selection.is_selected = false;
}

} // verus!
