//! Layout of the canvas: the drawing area and the margin around it.
use vstd::prelude::*;
use vstd::string::*;

verus! {

/// Size of the drawing area and of the margin on each of its four sides, in
/// pixels, and the colour of each line.
#[derive(Clone, Debug, PartialEq, Eq)]
pub struct ChartConfig {
    /// Width of the drawing area.
    pub width: isize,
    /// Height of the drawing area.
    pub height: isize,
    /// Margin on each side of the drawing area.
    pub margin: isize,
    /// Colour of the CPU line, as a name or a hex code.
    pub cpu_color: String,
    /// Colour of the memory line, as a name or a hex code.
    pub memory_color: String,
}

impl ChartConfig {
    /// A layout can be drawn when the drawing area is not empty, the margin
    /// is not negative, and the canvas still fits the pixel type.
    pub open spec fn is_valid(self) -> bool {
        &&& 0 < self.width
        &&& 0 < self.height
        &&& 0 <= self.margin
        &&& self.width + 2 * self.margin <= isize::MAX
        &&& self.height + 2 * self.margin <= isize::MAX
    }

    /// Width of the whole canvas: the drawing area and the margin twice.
    pub open spec fn spec_canvas_width(self) -> int {
        self.width + 2 * self.margin
    }

    /// Height of the whole canvas: the drawing area and the margin twice.
    pub open spec fn spec_canvas_height(self) -> int {
        self.height + 2 * self.margin
    }

    /// The layout with the given drawing area and margin, and the usual
    /// colours.
    pub fn new(width: isize, height: isize, margin: isize) -> (c: ChartConfig)
        ensures
            c.width == width,
            c.height == height,
            c.margin == margin,
            c.cpu_color@ == "firebrick"@,
            c.memory_color@ == "steelblue"@,
    {
        ChartConfig {
            width,
            height,
            margin,
            cpu_color: String::from_str("firebrick"),
            memory_color: String::from_str("steelblue"),
        }
    }

    /// Whether the layout can be drawn.
    pub fn validate(&self) -> (ok: bool)
        ensures
            ok == self.is_valid(),
    {
        if self.width <= 0 || self.height <= 0 || self.margin < 0 {
            return false;
        }
        let room_w: isize = (isize::MAX - self.width) / 2;
        let room_h: isize = (isize::MAX - self.height) / 2;
        self.margin <= room_w && self.margin <= room_h
    }

    /// Width of the whole canvas.
    pub fn canvas_width(&self) -> (w: isize)
        requires
            self.is_valid(),
        ensures
            w == self.spec_canvas_width(),
    {
        self.width + 2 * self.margin
    }

    /// Height of the whole canvas.
    pub fn canvas_height(&self) -> (h: isize)
        requires
            self.is_valid(),
        ensures
            h == self.spec_canvas_height(),
    {
        self.height + 2 * self.margin
    }
}

impl Default for ChartConfig {
    /// A drawing area of 1500 by 800 pixels with a margin of 100 pixels, so
    /// a canvas of 1700 by 1000; the CPU line in firebrick, the memory line in
    /// steelblue.
    fn default() -> (c: ChartConfig)
        ensures
            c.width == 1500,
            c.height == 800,
            c.margin == 100,
            c.cpu_color@ == "firebrick"@,
            c.memory_color@ == "steelblue"@,
            c.is_valid(),
            c.spec_canvas_width() == 1700,
            c.spec_canvas_height() == 1000,
    {
        ChartConfig::new(1500, 800, 100)
    }
}

} // verus!
