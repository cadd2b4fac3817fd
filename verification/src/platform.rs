//! A platform of the scene: a tile of its sprite sheet drawn three times
//! wide, and the boxes in which the boy can hit it.

use vstd::prelude::*;

use crate::geometry::{Point, Rect};
use crate::sheet::{Cell, Sheet};
use crate::states::fits_i16;

verus! {

/// The frame name of the platform's tile.
pub open spec fn tile_name() -> Seq<char> {
    seq!['1', '3', '.', 'p', 'n', 'g']
}

/// The width of each of the platform's two ends.
pub const END_WIDTH: i32 = 60;
/// The height of the platform's two ends.
pub const END_HEIGHT: i32 = 45;

/// Where a platform at `position` whose tile is `tile` is drawn: the tile
/// three times as wide.
pub open spec fn platform_destination(position: Point, tile: Cell) -> Rect {
    Rect {
        x: position.x as i32,
        y: position.y as i32,
        width: (tile.frame.w * 3) as i32,
        height: tile.frame.h as i32,
    }
}

/// The three boxes in which a platform drawn at `d` can be hit: its two
/// ends, each `END_WIDTH` wide and `END_HEIGHT` high, and its full-height
/// middle between them.
pub open spec fn platform_boxes(d: Rect) -> Seq<Rect> {
    seq![
        Rect { x: d.x, y: d.y, width: END_WIDTH, height: END_HEIGHT },
        Rect {
            x: (d.x + END_WIDTH) as i32,
            y: d.y,
            width: (d.width - END_WIDTH * 2) as i32,
            height: d.height,
        },
        Rect { x: (d.x + d.width - END_WIDTH) as i32, y: d.y, width: END_WIDTH, height: END_HEIGHT },
    ]
}

/// A platform is drawn at its position, three tiles wide and one tile high,
/// and the boxes in which it can be hit span it from edge to edge without
/// gaps or overlaps: a short box at each end, 60 pixels wide and 45 high,
/// and between them a box as high as the platform, all with their tops on
/// the platform's top.
pub proof fn lemma_platform_boxes_span_the_platform(position: Point, tile: Cell)
    requires
        fits_i16(tile.frame.w * 3),
    ensures
        ({
            let d = platform_destination(position, tile);
            let b = platform_boxes(d);
            &&& d.x == position.x && d.y == position.y
            &&& d.width == 3 * tile.frame.w && d.height == tile.frame.h
            &&& b.len() == 3
            &&& b[0].x == d.x
            &&& b[0].x + b[0].width == b[1].x
            &&& b[1].x + b[1].width == b[2].x
            &&& b[2].x + b[2].width == d.x + d.width
            &&& b[0].width == 60 && b[2].width == 60
            &&& b[0].height == 45 && b[2].height == 45 && b[1].height == d.height
            &&& b[0].y == d.y && b[1].y == d.y && b[2].y == d.y
        }),
{
}

/// A platform: the sprite sheet it is drawn from and where it stands.
pub struct Platform {
    pub sheet: Sheet,
    pub position: Point,
}

impl Platform {
    /// Whether the platform can be placed: its sheet has its tile, and three
    /// tiles side by side are no wider than an `i16` holds.
    pub open spec fn placeable(&self) -> bool {
        &&& self.sheet.frames@.contains_key(tile_name())
        &&& fits_i16(self.sheet.frames@[tile_name()].frame.w * 3)
    }

    pub fn new(sheet: Sheet, position: Point) -> (p: Self)
        ensures
            p.sheet.frames@ == sheet.frames@,
            p.position == position,
    {
        Platform { sheet: sheet, position: position }
    }

    /// Whether the platform can be placed now.
    pub fn can_place(&self) -> (ok: bool)
        ensures
            ok == self.placeable(),
    {
        let key = "13.png";
        proof {
            reveal_strlit("13.png");
            assert(key@ =~= tile_name());
        }
        match self.sheet.frames.get(key) {
            Some(tile) => {
                let width = tile.frame.w as i32 * 3;
                i16::MIN as i32 <= width && width <= i16::MAX as i32
            },
            None => false,
        }
    }

    /// Where the platform is drawn.
    pub fn destination_box(&self) -> (r: Rect)
        requires
            self.placeable(),
        ensures
            r == platform_destination(self.position, self.sheet.frames@[tile_name()]),
    {
        let key = "13.png";
        proof {
            reveal_strlit("13.png");
            assert(key@ =~= tile_name());
        }
        let platform = self.sheet.frames.get(key).unwrap();
        Rect {
            x: self.position.x as i32,
            y: self.position.y as i32,
            width: (platform.frame.w * 3) as i32,
            height: platform.frame.h as i32,
        }
    }

    /// The boxes in which the boy can hit the platform.
    pub fn bounding_boxes(&self) -> (boxes: Vec<Rect>)
        requires
            self.placeable(),
        ensures
            boxes@ == platform_boxes(
                platform_destination(self.position, self.sheet.frames@[tile_name()]),
            ),
    {
        let destination_box = self.destination_box();
        let bounding_box_one = Rect {
            x: destination_box.x,
            y: destination_box.y,
            width: END_WIDTH,
            height: END_HEIGHT,
        };
        let bounding_box_two = Rect {
            x: destination_box.x + END_WIDTH,
            y: destination_box.y,
            width: destination_box.width - (END_WIDTH * 2),
            height: destination_box.height,
        };
        let bounding_box_three = Rect {
            x: destination_box.x + destination_box.width - END_WIDTH,
            y: destination_box.y,
            width: END_WIDTH,
            height: END_HEIGHT,
        };
        vec![bounding_box_one, bounding_box_two, bounding_box_three]
    }
}

} // verus!
