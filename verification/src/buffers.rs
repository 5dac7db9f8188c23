//! The two buffers a draw call writes: colours and depths.

use vstd::prelude::*;

verus! {

/// One pixel of the colour buffer, 8 bits per channel.
#[derive(Clone, Copy, Debug, PartialEq, Eq, Structural)]
pub struct Rgba8 {
    pub r: u8,
    pub g: u8,
    pub b: u8,
    pub a: u8,
}

/// Whether pixel `(x, y)` lies in a grid of `width` by `height` pixels.
pub open spec fn in_grid(width: nat, height: nat, x: int, y: int) -> bool {
    0 <= x < width && 0 <= y < height
}

/// The colour buffer. It holds an `image::RgbaImage`, which stays hidden
/// from the verifier: what it holds is known through `color_buffer_width`,
/// `color_buffer_height` and `color_buffer_pixels` alone.
#[verifier::external_body]
pub struct ColorBuffer {
    image: image::RgbaImage,
}

/// The width the image was made with.
pub uninterp spec fn color_buffer_width(buffer: ColorBuffer) -> nat;

/// The height the image was made with.
pub uninterp spec fn color_buffer_height(buffer: ColorBuffer) -> nat;

/// The pixels of the image, keyed by `(x, y)`.
pub uninterp spec fn color_buffer_pixels(buffer: ColorBuffer) -> Map<(int, int), Rgba8>;

/// `image::ImageBuffer::new`: an image of the given size whose every
/// subpixel is zero. The outside function panics when the byte length
/// overflows, which the precondition rules out.
#[verifier::external_body]
fn image_new(width: u32, height: u32) -> (buffer: ColorBuffer)
    requires
        4 * (width * height) <= isize::MAX,
    ensures
        color_buffer_width(buffer) == width,
        color_buffer_height(buffer) == height,
        forall|x: int, y: int|
            in_grid(width as nat, height as nat, x, y) ==> #[trigger] color_buffer_pixels(
                buffer,
            )[(x, y)] == (Rgba8 { r: 0, g: 0, b: 0, a: 0 }),
{
    ColorBuffer { image: image::RgbaImage::new(width, height) }
}

/// `image::ImageBuffer::width`.
#[verifier::external_body]
fn image_width(buffer: &ColorBuffer) -> (width: u32)
    ensures
        width == color_buffer_width(*buffer),
{
    buffer.image.width()
}

/// `image::ImageBuffer::height`.
#[verifier::external_body]
fn image_height(buffer: &ColorBuffer) -> (height: u32)
    ensures
        height == color_buffer_height(*buffer),
{
    buffer.image.height()
}

/// `image::ImageBuffer::get_pixel`: the pixel at `(x, y)`. The outside
/// function panics out of bounds, which the precondition rules out.
#[verifier::external_body]
fn image_get_pixel(buffer: &ColorBuffer, x: u32, y: u32) -> (pixel: Rgba8)
    requires
        x < color_buffer_width(*buffer),
        y < color_buffer_height(*buffer),
    ensures
        pixel == color_buffer_pixels(*buffer)[(x as int, y as int)],
{
    let p = buffer.image.get_pixel(x, y);
    Rgba8 { r: p.0[0], g: p.0[1], b: p.0[2], a: p.0[3] }
}

/// `image::ImageBuffer::put_pixel`: replaces the pixel at `(x, y)` and no
/// other; the size stays. The outside function panics out of bounds, which
/// the precondition rules out.
#[verifier::external_body]
fn image_put_pixel(buffer: &mut ColorBuffer, x: u32, y: u32, pixel: Rgba8)
    requires
        x < color_buffer_width(*old(buffer)),
        y < color_buffer_height(*old(buffer)),
    ensures
        color_buffer_width(*final(buffer)) == color_buffer_width(*old(buffer)),
        color_buffer_height(*final(buffer)) == color_buffer_height(*old(buffer)),
        color_buffer_pixels(*final(buffer)) == color_buffer_pixels(*old(buffer)).insert(
            (x as int, y as int),
            pixel,
        ),
{
    buffer.image.put_pixel(x, y, image::Rgba([pixel.r, pixel.g, pixel.b, pixel.a]));
}

/// Whether `bytes`, the subpixels of an image `width` pixels wide, hold
/// `pixel` at `(x, y)`: four bytes in the order red, green, blue, alpha, at
/// four times the place of the pixel in its row-by-row order.
pub open spec fn pixel_in_bytes(bytes: Seq<u8>, width: nat, x: int, y: int, pixel: Rgba8) -> bool {
    &&& bytes[4 * (y * width + x)] == pixel.r
    &&& bytes[4 * (y * width + x) + 1] == pixel.g
    &&& bytes[4 * (y * width + x) + 2] == pixel.b
    &&& bytes[4 * (y * width + x) + 3] == pixel.a
}

/// `image::ImageBuffer::as_raw`, copied: the subpixels of the image row by
/// row, four to a pixel in the order red, green, blue, alpha.
#[verifier::external_body]
fn image_raw_bytes(buffer: &ColorBuffer) -> (bytes: Vec<u8>)
    ensures
        bytes@.len() == 4 * (color_buffer_width(*buffer) * color_buffer_height(*buffer)),
        forall|x: int, y: int|
            in_grid(color_buffer_width(*buffer), color_buffer_height(*buffer), x, y)
                ==> pixel_in_bytes(
                bytes@,
                color_buffer_width(*buffer),
                x,
                y,
                #[trigger] color_buffer_pixels(*buffer)[(x, y)],
            ),
{
    buffer.image.as_raw().clone()
}

impl ColorBuffer {
    pub open spec fn width(&self) -> nat {
        color_buffer_width(*self)
    }

    pub open spec fn height(&self) -> nat {
        color_buffer_height(*self)
    }

    /// The pixel at `(x, y)`.
    pub open spec fn at(&self, x: int, y: int) -> Rgba8 {
        color_buffer_pixels(*self)[(x, y)]
    }

    /// A fully transparent black buffer, or `None` when its bytes would not
    /// fit in memory.
    pub fn new(width: u32, height: u32) -> (buffer: Option<ColorBuffer>)
        ensures
            buffer.is_some() <==> 4 * (width * height) <= isize::MAX,
            buffer matches Some(b) ==> {
                &&& b.width() == width
                &&& b.height() == height
                &&& forall|x: int, y: int|
                    in_grid(width as nat, height as nat, x, y) ==> #[trigger] b.at(x, y) == (Rgba8 {
                        r: 0,
                        g: 0,
                        b: 0,
                        a: 0,
                    })
            },
    {
        assert(0 <= width * height <= 0xffff_ffff * 0xffff_ffff) by (nonlinear_arith)
            requires
                0 <= width <= 0xffff_ffff,
                0 <= height <= 0xffff_ffff,
        ;
        let bytes: u128 = 4 * ((width as u128) * (height as u128));
        if bytes <= isize::MAX as u128 {
            Some(image_new(width, height))
        } else {
            None
        }
    }

    pub fn get_width(&self) -> (width: u32)
        ensures
            width == self.width(),
    {
        image_width(self)
    }

    pub fn get_height(&self) -> (height: u32)
        ensures
            height == self.height(),
    {
        image_height(self)
    }

    /// The pixel at `(x, y)`, or `None` outside the image.
    pub fn get_pixel(&self, x: u32, y: u32) -> (pixel: Option<Rgba8>)
        ensures
            pixel == if in_grid(self.width(), self.height(), x as int, y as int) {
                Some(self.at(x as int, y as int))
            } else {
                None
            },
    {
        if x < image_width(self) && y < image_height(self) {
            Some(image_get_pixel(self, x, y))
        } else {
            None
        }
    }

    /// The image as bytes: row by row, four bytes to a pixel in the order
    /// red, green, blue, alpha.
    pub fn to_rgba_bytes(&self) -> (bytes: Vec<u8>)
        ensures
            bytes@.len() == 4 * (self.width() * self.height()),
            forall|x: int, y: int|
                in_grid(self.width(), self.height(), x, y) ==> pixel_in_bytes(
                    bytes@,
                    self.width(),
                    x,
                    y,
                    #[trigger] self.at(x, y),
                ),
    {
        image_raw_bytes(self)
    }

    /// Replaces the pixel at `(x, y)`; every other pixel and the size stay.
    pub fn put_pixel(&mut self, x: u32, y: u32, pixel: Rgba8)
        requires
            in_grid(old(self).width(), old(self).height(), x as int, y as int),
        ensures
            final(self).width() == old(self).width(),
            final(self).height() == old(self).height(),
            final(self).at(x as int, y as int) == pixel,
            forall|i: int, j: int|
                (i, j) != (x as int, y as int) ==> #[trigger] final(self).at(i, j) == old(self).at(
                    i,
                    j,
                ),
    {
        image_put_pixel(self, x, y, pixel);
    }
}

/// The depth buffer: one fixed-point depth per pixel, row by row.
pub struct DepthBuffer {
    width: u32,
    height: u32,
    data: Vec<i32>,
}

/// In a grid `width` wide and `height` high, the cell index of `(x, y)`
/// stays below the cell count.
pub proof fn lemma_cell_index(width: int, height: int, x: int, y: int)
    requires
        0 <= x < width,
        0 <= y < height,
    ensures
        0 <= y * width + x < width * height,
        0 <= y * width <= width * height,
{
    assert(y * width + x < width * height) by (nonlinear_arith)
        requires
            0 <= x < width,
            0 <= y < height,
    ;
    assert(0 <= y * width <= width * height) by (nonlinear_arith)
        requires
            0 <= x < width,
            0 <= y < height,
    ;
}

/// In a grid `width` wide, cells with the same index are the same cell.
pub proof fn lemma_cell_index_injective(width: int, x1: int, y1: int, x2: int, y2: int)
    requires
        0 <= x1 < width,
        0 <= x2 < width,
        0 <= y1,
        0 <= y2,
        y1 * width + x1 == y2 * width + x2,
    ensures
        x1 == x2,
        y1 == y2,
{
    assert(y1 == y2) by (nonlinear_arith)
        requires
            0 <= x1 < width,
            0 <= x2 < width,
            y1 * width + x1 == y2 * width + x2,
    ;
}

impl DepthBuffer {
    /// The buffer holds exactly one depth per pixel.
    pub closed spec fn wf(&self) -> bool {
        self.data.len() == self.width * self.height
    }

    pub closed spec fn width(&self) -> nat {
        self.width as nat
    }

    pub closed spec fn height(&self) -> nat {
        self.height as nat
    }

    /// The depth at `(x, y)`.
    pub closed spec fn at(&self, x: int, y: int) -> i32 {
        self.data@[y * self.width + x]
    }

    /// A buffer whose every depth is `fill`, or `None` when its bytes would
    /// not fit in memory.
    pub fn new(width: u32, height: u32, fill: i32) -> (buffer: Option<DepthBuffer>)
        ensures
            buffer.is_some() <==> 4 * (width * height) <= isize::MAX,
            buffer matches Some(b) ==> {
                &&& b.wf()
                &&& b.width() == width
                &&& b.height() == height
                &&& forall|x: int, y: int|
                    in_grid(width as nat, height as nat, x, y) ==> #[trigger] b.at(x, y) == fill
            },
    {
        assert(0 <= width * height <= 0xffff_ffff * 0xffff_ffff) by (nonlinear_arith)
            requires
                0 <= width <= 0xffff_ffff,
                0 <= height <= 0xffff_ffff,
        ;
        let cells: u128 = (width as u128) * (height as u128);
        if 4 * cells > isize::MAX as u128 {
            return None;
        }
        let data: Vec<i32> = vec![fill; cells as usize];
        let b = DepthBuffer { width, height, data };
        assert forall|x: int, y: int| in_grid(width as nat, height as nat, x, y) implies #[trigger] b.at(
            x,
            y,
        ) == fill by {
            lemma_cell_index(width as int, height as int, x, y);
        }
        Some(b)
    }

    pub fn get_width(&self) -> (width: u32)
        ensures
            width == self.width(),
    {
        self.width
    }

    pub fn get_height(&self) -> (height: u32)
        ensures
            height == self.height(),
    {
        self.height
    }

    /// The depth at `(x, y)`, or `None` outside the buffer.
    pub fn get(&self, x: u32, y: u32) -> (depth: Option<i32>)
        requires
            self.wf(),
        ensures
            depth == if in_grid(self.width(), self.height(), x as int, y as int) {
                Some(self.at(x as int, y as int))
            } else {
                None
            },
    {
        if x < self.width && y < self.height {
            proof {
                lemma_cell_index(self.width as int, self.height as int, x as int, y as int);
            }
            let index: usize = (y as usize) * (self.width as usize) + (x as usize);
            Some(self.data[index])
        } else {
            None
        }
    }

    /// Replaces the depth at `(x, y)`; every other depth and the size stay.
    pub fn put(&mut self, x: u32, y: u32, depth: i32)
        requires
            old(self).wf(),
            in_grid(old(self).width(), old(self).height(), x as int, y as int),
        ensures
            final(self).wf(),
            final(self).width() == old(self).width(),
            final(self).height() == old(self).height(),
            final(self).at(x as int, y as int) == depth,
            forall|i: int, j: int|
                in_grid(old(self).width(), old(self).height(), i, j) && (i, j) != (
                    x as int,
                    y as int,
                ) ==> #[trigger] final(self).at(i, j) == old(self).at(i, j),
    {
        proof {
            lemma_cell_index(self.width as int, self.height as int, x as int, y as int);
        }
        let index: usize = (y as usize) * (self.width as usize) + (x as usize);
        self.data[index] = depth;
        assert forall|i: int, j: int|
            in_grid(old(self).width(), old(self).height(), i, j) && (i, j) != (
                x as int,
                y as int,
            ) implies #[trigger] self.at(i, j) == old(self).at(i, j) by {
            lemma_cell_index(self.width as int, self.height as int, i, j);
            if j * self.width + i == index as int {
                lemma_cell_index_injective(self.width as int, i, j, x as int, y as int);
            }
        }
    }
}

/// The buffers of one draw call.
pub struct RenderTextures {
    pub output: ColorBuffer,
    pub depth_buffer: DepthBuffer,
}

} // verus!
