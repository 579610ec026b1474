use vstd::prelude::*;

verus! {

/// The size of a window's terminal area, in physical pixels.
#[derive(Clone, Copy, Debug, PartialEq, Eq, Structural)]
pub struct SizeInfo {
    pub width: u32,
    pub height: u32,
    pub cell_width: u32,
    pub cell_height: u32,
    pub padding_x: u32,
    pub padding_y: u32,
}

/// Window dimensions in physical pixels.
#[derive(Clone, Copy, Debug, PartialEq, Eq, Structural)]
pub struct PhysicalSize {
    pub width: u32,
    pub height: u32,
}

/// Display changes gathered during an iteration and applied once per frame.
#[derive(Clone, Copy, Debug, PartialEq, Eq, Structural)]
pub struct DisplayUpdate {
    /// New window dimensions, in physical pixels.
    pub dimensions: Option<PhysicalSize>,
    /// The message bar changed.
    pub message_buffer: bool,
    /// The font changed: the glyph cache is rebuilt and the cell size with it.
    pub font: bool,
}

/// Padding that spreads the space left over by whole cells evenly on both
/// sides: `padding + ((dimension - 2 * padding) mod cell) / 2`.
pub open spec fn dynamic_padding_spec(padding: int, dimension: int, cell: int) -> int {
    padding + ((dimension - 2 * padding) % cell) / 2
}

/// A window dimension never smaller than one cell and two paddings.
pub open spec fn at_least_one_cell(dimension: int, cell: int, padding: int) -> int {
    if dimension < cell + 2 * padding {
        cell + 2 * padding
    } else {
        dimension
    }
}

/// The window size after an update: the new dimensions, grown to fit one
/// cell and two paddings, with the configured padding made dynamic when
/// asked for.
pub open spec fn resized_spec(
    current: SizeInfo,
    update: DisplayUpdate,
    padding_x: int,
    padding_y: int,
    dynamic: bool,
) -> SizeInfo {
    let (w, h) = match update.dimensions {
        Some(d) => (
            at_least_one_cell(d.width as int, current.cell_width as int, padding_x),
            at_least_one_cell(d.height as int, current.cell_height as int, padding_y),
        ),
        None => (current.width as int, current.height as int),
    };
    SizeInfo {
        width: w as u32,
        height: h as u32,
        cell_width: current.cell_width,
        cell_height: current.cell_height,
        padding_x: if dynamic && w >= 2 * padding_x {
            dynamic_padding_spec(padding_x, w, current.cell_width as int) as u32
        } else {
            padding_x as u32
        },
        padding_y: if dynamic && h >= 2 * padding_y {
            dynamic_padding_spec(padding_y, h, current.cell_height as int) as u32
        } else {
            padding_y as u32
        },
    }
}

impl DisplayUpdate {
    pub fn new() -> (r: Self)
        ensures
            r.dimensions.is_none(),
            !r.message_buffer,
            !r.font,
    {
        DisplayUpdate { dimensions: None, message_buffer: false, font: false }
    }

    /// Whether there is nothing to apply.
    pub fn is_empty(&self) -> (r: bool)
        ensures
            r == (self.dimensions.is_none() && !self.font && !self.message_buffer),
    {
        self.dimensions.is_none() && !self.font && !self.message_buffer
    }
}

/// Spreads the left-over space of `dimension` evenly around whole cells.
pub fn dynamic_padding(padding: u32, dimension: u32, cell: u32) -> (r: u32)
    requires
        cell > 0,
        2 * padding <= dimension,
    ensures
        r == dynamic_padding_spec(padding as int, dimension as int, cell as int),
        r <= padding + cell / 2,
{
    let rest = (dimension - 2 * padding) % cell;
    padding + rest / 2
}

/// One cell dimension from a font metric already rounded down and the
/// configured offset: never below one pixel.
pub fn cell_dimension(metric_floor: i64, offset: i32) -> (r: u32)
    requires
        -0x1_0000_0000 < metric_floor < 0x1_0000_0000,
    ensures
        r as int == if metric_floor + offset < 1 {
            1
        } else if metric_floor + offset > u32::MAX {
            u32::MAX as int
        } else {
            metric_floor + offset
        },
{
    let v = metric_floor + offset as i64;
    if v < 1 {
        1
    } else if v > u32::MAX as i64 {
        u32::MAX
    } else {
        v as u32
    }
}

/// Applies the dimension part of an update: the window never shrinks below
/// one cell and two paddings per axis, and the padding is made dynamic when
/// asked for.
pub fn resize(
    current: SizeInfo,
    update: DisplayUpdate,
    padding_x: u32,
    padding_y: u32,
    dynamic: bool,
) -> (r: SizeInfo)
    requires
        current.cell_width > 0,
        current.cell_height > 0,
        current.cell_width + 2 * padding_x <= u32::MAX,
        current.cell_height + 2 * padding_y <= u32::MAX,
    ensures
        r == resized_spec(current, update, padding_x as int, padding_y as int, dynamic),
{
    let (w, h) = match update.dimensions {
        Some(d) => {
            let w = d.width;
            let h = d.height;
            let min_w = current.cell_width + 2 * padding_x;
            let min_h = current.cell_height + 2 * padding_y;
            (if w < min_w {
                min_w
            } else {
                w
            }, if h < min_h {
                min_h
            } else {
                h
            })
        },
        None => (current.width, current.height),
    };
    let px = if dynamic && w as u64 >= 2 * padding_x as u64 {
        dynamic_padding(padding_x, w, current.cell_width)
    } else {
        padding_x
    };
    let py = if dynamic && h as u64 >= 2 * padding_y as u64 {
        dynamic_padding(padding_y, h, current.cell_height)
    } else {
        padding_y
    };
    SizeInfo {
        width: w,
        height: h,
        cell_width: current.cell_width,
        cell_height: current.cell_height,
        padding_x: px,
        padding_y: py,
    }
}

/// The size handed to the PTY and the terminal grid: the window less the
/// message bar's `message_lines` lines.
pub fn pty_size(size: SizeInfo, message_lines: u32) -> (r: SizeInfo)
    ensures
        r.height as int == if (size.cell_height as int) * (message_lines as int) >= size.height {
            0
        } else {
            size.height - (size.cell_height as int) * (message_lines as int)
        },
        r.width == size.width,
        r.cell_width == size.cell_width,
        r.cell_height == size.cell_height,
        r.padding_x == size.padding_x,
        r.padding_y == size.padding_y,
{
    proof {
        assert((size.cell_height as int) * (message_lines as int) <= 0xffff_ffff * 0xffff_ffff)
            by (nonlinear_arith)
            requires
                size.cell_height <= 0xffff_ffff,
                message_lines <= 0xffff_ffff,
        ;
    }
    let bar = size.cell_height as u64 * message_lines as u64;
    let height = if bar >= size.height as u64 {
        0
    } else {
        (size.height as u64 - bar) as u32
    };
    SizeInfo { height, ..size }
}

/// A change of the pixel ratio from `old_ratio` to `new_ratio` (both in
/// thousandths): the pending dimensions (or the current ones when none are
/// pending) scale by `new_ratio / old_ratio`, rounding down, and the font is
/// rebuilt at the new scale.
pub fn scale_for_ratio(
    update: DisplayUpdate,
    current: PhysicalSize,
    new_ratio: u32,
    old_ratio: u32,
) -> (r: DisplayUpdate)
    requires
        old_ratio > 0,
    ensures
        r.font,
        r.message_buffer == update.message_buffer,
        ({
            let base = match update.dimensions {
                Some(d) => d,
                None => current,
            };
            let w = (base.width as int) * (new_ratio as int) / (old_ratio as int);
            let h = (base.height as int) * (new_ratio as int) / (old_ratio as int);
            r.dimensions == Some(
                PhysicalSize {
                    width: if w > u32::MAX {
                        u32::MAX
                    } else {
                        w as u32
                    },
                    height: if h > u32::MAX {
                        u32::MAX
                    } else {
                        h as u32
                    },
                },
            )
        }),
{
    let base = match update.dimensions {
        Some(d) => d,
        None => current,
    };
    proof {
        assert((base.width as int) * (new_ratio as int) <= 0xffff_ffff * 0xffff_ffff) by (nonlinear_arith)
            requires
                base.width <= 0xffff_ffff,
                new_ratio <= 0xffff_ffff,
        ;
        assert((base.height as int) * (new_ratio as int) <= 0xffff_ffff * 0xffff_ffff) by (nonlinear_arith)
            requires
                base.height <= 0xffff_ffff,
                new_ratio <= 0xffff_ffff,
        ;
    }
    let w = base.width as u64 * new_ratio as u64 / old_ratio as u64;
    let h = base.height as u64 * new_ratio as u64 / old_ratio as u64;
    let width = if w > u32::MAX as u64 {
        u32::MAX
    } else {
        w as u32
    };
    let height = if h > u32::MAX as u64 {
        u32::MAX
    } else {
        h as u32
    };
    DisplayUpdate {
        dimensions: Some(PhysicalSize { width, height }),
        message_buffer: update.message_buffer,
        font: true,
    }
}

} // verus!
