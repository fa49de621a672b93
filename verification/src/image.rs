//! Where the points of a loyalty card stand on its strip image.

use vstd::prelude::*;

verus! {

/// Lays out the points of a loyalty card on a background image, in two rows.
#[derive(Clone, Copy, Debug, PartialEq, Eq)]
pub struct ImageMaker {
    img_width: u32,
    img_height: u32,
}

/// The corner of the `k`-th point: the first `num_points / 2` points stand in
/// the top row, the next `num_points / 2` in the bottom row, each row from
/// the left, with one `space_height` before every point and on every side.
pub open spec fn position_of(
    img_height: int,
    point_width: int,
    point_height: int,
    space_height: int,
    num_points: int,
    k: int,
) -> (int, int) {
    let num_in_row = num_points / 2;
    let n = if k < num_in_row {
        k
    } else {
        k - num_in_row
    };
    (
        space_height + (point_width + space_height) * n,
        if k < num_in_row {
            space_height
        } else {
            img_height - point_height - space_height
        },
    )
}

/// The layout fits: the bottom row is inside the image, and the left edge of
/// the last point of a row is a `u32`.
pub open spec fn layout_fits(
    img_height: int,
    point_width: int,
    point_height: int,
    space_height: int,
    num_points: int,
) -> bool {
    &&& point_height + space_height <= img_height
    &&& num_points / 2 > 0 ==> point_width + space_height <= u32::MAX && space_height + (point_width
        + space_height) * (num_points / 2 - 1) <= u32::MAX
}

impl ImageMaker {
    /// The layout for a background image of the given size.
    pub fn new(img_width: u32, img_height: u32) -> (maker: Self)
        ensures
            maker.width() == img_width,
            maker.height() == img_height,
    {
        ImageMaker { img_width, img_height }
    }

    pub closed spec fn width(&self) -> u32 {
        self.img_width
    }

    pub closed spec fn height(&self) -> u32 {
        self.img_height
    }

    /// The width of the background image.
    pub fn img_width(&self) -> (w: u32)
        ensures
            w == self.width(),
    {
        self.img_width
    }

    /// The height of the background image.
    pub fn img_height(&self) -> (h: u32)
        ensures
            h == self.height(),
    {
        self.img_height
    }

    /// Whether the point at `index` is drawn as earned.
    pub fn point_is_earned(index: usize, current_points: u32) -> (earned: bool)
        ensures
            earned == (index < current_points),
    {
        index < current_points as usize
    }

    /// The corners of the points, top row first: see [`position_of`].
    pub fn calculate_positions(
        &self,
        img_height: u32,
        point_width: u32,
        point_height: u32,
        space_height: u32,
        num_points: u32,
    ) -> (positions: Vec<(u32, u32)>)
        requires
            layout_fits(
                img_height as int,
                point_width as int,
                point_height as int,
                space_height as int,
                num_points as int,
            ),
        ensures
            positions.len() == 2 * (num_points / 2),
            forall|k: int|
                0 <= k < positions.len() ==> (#[trigger] positions[k].0 as int, positions[k].1 as int)
                    == position_of(
                    img_height as int,
                    point_width as int,
                    point_height as int,
                    space_height as int,
                    num_points as int,
                    k,
                ),
    {
        let mut positions: Vec<(u32, u32)> = Vec::new();
        let num_in_row: u32 = num_points / 2;
        let horizontal_spacing: u32 = space_height;
        let y_top: u32 = space_height;
        let y_bottom: u32 = img_height - point_height - space_height;
        let mut row: u32 = 0;
        while row < 2
            invariant
                row <= 2,
                num_in_row == num_points / 2,
                horizontal_spacing == space_height,
                y_top == space_height,
                y_bottom == img_height - point_height - space_height,
                layout_fits(
                    img_height as int,
                    point_width as int,
                    point_height as int,
                    space_height as int,
                    num_points as int,
                ),
                positions.len() == row * num_in_row,
                forall|k: int|
                    0 <= k < positions.len() ==> (
                        #[trigger] positions[k].0 as int,
                        positions[k].1 as int,
                    ) == position_of(
                        img_height as int,
                        point_width as int,
                        point_height as int,
                        space_height as int,
                        num_points as int,
                        k,
                    ),
            decreases 2 - row,
        {
            let y: u32 = if row == 0 {
                y_top
            } else {
                y_bottom
            };
            let mut n: u32 = 0;
            while n < num_in_row
                invariant
                    n <= num_in_row,
                    row < 2,
                    num_in_row == num_points / 2,
                    horizontal_spacing == space_height,
                    y == if row == 0 {
                        space_height as int
                    } else {
                        img_height - point_height - space_height
                    },
                    layout_fits(
                        img_height as int,
                        point_width as int,
                        point_height as int,
                        space_height as int,
                        num_points as int,
                    ),
                    positions.len() == row * num_in_row + n,
                    forall|k: int|
                        0 <= k < positions.len() ==> (
                            #[trigger] positions[k].0 as int,
                            positions[k].1 as int,
                        ) == position_of(
                            img_height as int,
                            point_width as int,
                            point_height as int,
                            space_height as int,
                            num_points as int,
                            k,
                        ),
                decreases num_in_row - n,
            {
                assert((point_width + space_height) * n <= (point_width + space_height) * (
                num_in_row - 1)) by (nonlinear_arith)
                    requires
                        0 <= n <= num_in_row - 1,
                        0 <= point_width + space_height,
                ;
                let x: u32 = horizontal_spacing + (point_width + horizontal_spacing) * n;
                proof {
                    let k = positions.len() as int;
                    assert(row * num_in_row == if row == 0 {
                        0
                    } else {
                        num_in_row as int
                    }) by (nonlinear_arith)
                        requires
                            row == 0 || row == 1,
                    ;
                }
                positions.push((x, y));
                n += 1;
            }
            proof {
                assert((row + 1) * num_in_row == row * num_in_row + num_in_row) by (nonlinear_arith);
            }
            row += 1;
        }
        positions
    }
}

} // verus!
