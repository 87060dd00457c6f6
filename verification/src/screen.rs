//! Captured monitor frames and the pixel under a point of the desktop.

use vstd::prelude::*;
use crate::color::Rgb;

verus! {

/// A position in the desktop's global pixel space.
#[derive(Clone, Copy, Debug, PartialEq, Eq, Structural)]
pub struct Point {
    pub x: i32,
    pub y: i32,
}

/// What a frame holds: its size and its bytes, four per pixel (red, green,
/// blue, alpha), row after row from the top left.
pub struct FrameView {
    pub width: nat,
    pub height: nat,
    pub rgba: Seq<u8>,
}

impl FrameView {
    /// The bytes are those of `width * height` pixels.
    pub open spec fn wf(self) -> bool {
        self.rgba.len() == 4 * (self.width * self.height)
    }

    /// Whether column `x` of row `y` lies in the frame.
    pub open spec fn holds(self, x: int, y: int) -> bool {
        0 <= x < self.width && 0 <= y < self.height
    }

    /// Where the bytes of the pixel in column `x` of row `y` start.
    pub open spec fn offset(self, x: int, y: int) -> int {
        4 * (y * self.width + x)
    }

    /// The colour of the pixel in column `x` of row `y`; its alpha byte is
    /// left out.
    pub open spec fn pixel(self, x: int, y: int) -> Rgb
        recommends
            self.wf(),
            self.holds(x, y),
    {
        Rgb {
            r: self.rgba[self.offset(x, y)],
            g: self.rgba[self.offset(x, y) + 1],
            b: self.rgba[self.offset(x, y) + 2],
        }
    }
}

/// The four bytes of a pixel of a well-formed frame lie within its bytes.
pub proof fn pixel_lies_within(f: FrameView, x: int, y: int)
    requires
        f.wf(),
        f.holds(x, y),
    ensures
        0 <= y * f.width,
        0 <= f.offset(x, y),
        f.offset(x, y) + 4 <= f.rgba.len(),
{
    let w = f.width as int;
    let h = f.height as int;
    assert(0 <= y * w && y * w + w <= h * w) by (nonlinear_arith)
        requires
            0 <= y < h,
            0 <= w,
    ;
    assert(h * w == f.width * f.height) by (nonlinear_arith)
        requires
            w == f.width,
            h == f.height,
    ;
}

/// A still frame of one monitor.
#[derive(Debug)]
pub struct Frame {
    width: u32,
    height: u32,
    rgba: Vec<u8>,
}

impl View for Frame {
    type V = FrameView;

    closed spec fn view(&self) -> FrameView {
        FrameView { width: self.width as nat, height: self.height as nat, rgba: self.rgba@ }
    }
}

impl Frame {
    #[verifier::type_invariant]
    spec fn well_formed(self) -> bool {
        self@.wf()
    }

    /// Makes a frame of `width` by `height` pixels from their bytes, if
    /// there are exactly four bytes for each pixel.
    pub fn new(width: u32, height: u32, rgba: Vec<u8>) -> (out: Option<Frame>)
        ensures
            out is Some <==> rgba@.len() == 4 * (width as nat * height as nat),
            out matches Some(f) ==> f@ == (FrameView {
                width: width as nat,
                height: height as nat,
                rgba: rgba@,
            }),
    {
        let pixels: u64 = Self::area(width, height);
        let len: u64 = rgba.len() as u64;
        if len % 4 == 0 && len / 4 == pixels {
            Some(Frame { width, height, rgba })
        } else {
            None
        }
    }

    fn area(width: u32, height: u32) -> (out: u64)
        ensures
            out == width as nat * height as nat,
    {
        assert(width as nat * height as nat <= 0xffff_ffff * 0xffff_ffff) by (nonlinear_arith)
            requires
                width <= 0xffff_ffff,
                height <= 0xffff_ffff,
        ;
        (width as u64) * (height as u64)
    }

    pub fn width(&self) -> (out: u32)
        ensures
            out == self@.width,
    {
        self.width
    }

    pub fn height(&self) -> (out: u32)
        ensures
            out == self@.height,
    {
        self.height
    }

    /// The colour of the pixel in column `x` of row `y`, if the frame has
    /// such a pixel.
    pub fn pixel(&self, x: u32, y: u32) -> (out: Option<Rgb>)
        ensures
            out == if self@.holds(x as int, y as int) {
                Some(self@.pixel(x as int, y as int))
            } else {
                None
            },
    {
        if x >= self.width || y >= self.height {
            return None;
        }
        let len: usize = self.rgba.len();
        proof {
            use_type_invariant(self);
            pixel_lies_within(self@, x as int, y as int);
            assert(self@.offset(x as int, y as int) + 4 <= len);
        }
        let row: usize = (y as usize) * (self.width as usize);
        let at: usize = 4 * (row + x as usize);
        Some(Rgb { r: self.rgba[at], g: self.rgba[at + 1], b: self.rgba[at + 2] })
    }
}

/// Why no colour could be read.
#[derive(Clone, Copy, Debug, PartialEq, Eq, Structural)]
pub enum SampleError {
    /// The point does not lie on the captured monitor.
    OffMonitor,
}

/// A monitor as it was captured: where its top left corner lies on the
/// desktop, and its frame.
#[derive(Debug)]
pub struct Capture {
    pub origin: Point,
    pub frame: Frame,
}

/// A capture as contracts see it.
pub struct CaptureView {
    pub origin: Point,
    pub frame: FrameView,
}

impl View for Capture {
    type V = CaptureView;

    open spec fn view(&self) -> CaptureView {
        CaptureView { origin: self.origin, frame: self.frame@ }
    }
}

impl CaptureView {
    /// Column and row of a desktop point, counted from the monitor's
    /// origin.
    pub open spec fn local(self, at: Point) -> (int, int) {
        (at.x - self.origin.x, at.y - self.origin.y)
    }

    /// Whether the monitor's frame covers the point.
    pub open spec fn contains(self, at: Point) -> bool {
        self.frame.holds(self.local(at).0, self.local(at).1)
    }

    /// The colour under a desktop point, or the reason there is none.
    pub open spec fn sample(self, at: Point) -> Result<Rgb, SampleError> {
        if self.contains(at) {
            Ok(self.frame.pixel(self.local(at).0, self.local(at).1))
        } else {
            Err(SampleError::OffMonitor)
        }
    }
}

impl Capture {
    /// Whether the monitor's frame covers the point.
    pub fn contains(&self, at: Point) -> (out: bool)
        ensures
            out == self@.contains(at),
    {
        let dx: i64 = at.x as i64 - self.origin.x as i64;
        let dy: i64 = at.y as i64 - self.origin.y as i64;
        0 <= dx && dx < self.frame.width() as i64 && 0 <= dy && dy < self.frame.height() as i64
    }

    /// Reads the colour under a point of the desktop: the pixel of the
    /// frame whose column and row are the point's distance from the
    /// monitor's origin.
    pub fn sample(&self, at: Point) -> (out: Result<Rgb, SampleError>)
        ensures
            out == self@.sample(at),
    {
        if !self.contains(at) {
            return Err(SampleError::OffMonitor);
        }
        let dx: i64 = at.x as i64 - self.origin.x as i64;
        let dy: i64 = at.y as i64 - self.origin.y as i64;
        match self.frame.pixel(dx as u32, dy as u32) {
            Some(color) => Ok(color),
            None => Err(SampleError::OffMonitor),
        }
    }
}

/// A monitor covers the points from its origin up to, and not including,
/// its far edges.
pub proof fn monitor_covers_its_bounds(capture: CaptureView, at: Point)
    ensures
        capture.contains(at) <==> {
            &&& capture.origin.x <= at.x < capture.origin.x + capture.frame.width
            &&& capture.origin.y <= at.y < capture.origin.y + capture.frame.height
        },
{
}

/// A point on a monitor's origin reads the frame's first pixel, whenever
/// the frame has one.
pub proof fn origin_reads_first_pixel(capture: CaptureView)
    requires
        capture.frame.width > 0,
        capture.frame.height > 0,
    ensures
        capture.contains(capture.origin),
        capture.local(capture.origin) == (0int, 0int),
        capture.sample(capture.origin) == Ok::<Rgb, SampleError>(capture.frame.pixel(0, 0)),
        capture.frame.pixel(0, 0) == (Rgb {
            r: capture.frame.rgba[0],
            g: capture.frame.rgba[1],
            b: capture.frame.rgba[2],
        }),
{
}

} // verus!
