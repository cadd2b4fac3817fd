//! Sprite sheets: the cells of an image, found by their frame names.

use vstd::hash_map::StringHashMap;
use vstd::prelude::*;

verus! {

/// A rectangle of a sprite sheet, in pixels.
#[derive(Clone, Copy)]
pub struct SheetRect {
    pub x: i16,
    pub y: i16,
    pub w: i16,
    pub h: i16,
}

/// One sprite of a sheet: where it lies in the image, and where its visible
/// part lies within the full sprite.
#[derive(Clone, Copy)]
pub struct Cell {
    pub frame: SheetRect,
    pub sprite_source_size: SheetRect,
}

/// A sprite sheet: its cells by frame name.
pub struct Sheet {
    pub frames: StringHashMap<Cell>,
}

impl Sheet {
    /// A sheet without cells.
    pub fn new() -> (sheet: Self)
        ensures
            sheet.frames@ == Map::<Seq<char>, Cell>::empty(),
    {
        Sheet { frames: StringHashMap::new() }
    }

    /// Adds the cell `cell` under the frame name `name`, in place of any cell
    /// that the name had.
    pub fn insert(&mut self, name: String, cell: Cell)
        ensures
            final(self).frames@ == old(self).frames@.insert(name@, cell),
    {
        self.frames.insert(name, cell);
    }
}

} // verus!
