//! Decoded pixel grids and their layout in the presentation buffer.

use vstd::prelude::*;
use vstd::arithmetic::div_mod::lemma_fundamental_div_mod_converse;
use crate::error::ViewError;

verus! {

/// How the channels of one pixel of a decoded image are arranged.
#[derive(Debug, Clone, Copy, PartialEq, Eq, Structural)]
pub enum PixelLayout {
    /// One 8-bit channel: luminance.
    Gray8,
    /// Two 8-bit channels: luminance and alpha.
    GrayAlpha8,
    /// Three 8-bit channels: red, green, blue.
    Rgb8,
    /// Four 8-bit channels: red, green, blue, alpha.
    Rgba8,
    /// Any other arrangement: wider channels, a palette, floats.
    Other,
}

/// The alpha byte of a fully opaque pixel.
pub const OPAQUE: u8 = 255;

/// The number of bytes of a presentation buffer for a surface of the given
/// size: four per pixel.
pub open spec fn buffer_len(width: nat, height: nat) -> nat {
    width * height * 4
}

/// The bytes of a 4-channel buffer made from 3-channel bytes: each pixel's
/// three bytes in order, then `OPAQUE`.
pub open spec fn with_opaque_alpha(rgb: Seq<u8>) -> Seq<u8> {
    Seq::new(
        (rgb.len() / 3) * 4,
        |i: int|
            if i % 4 == 3 {
                OPAQUE
            } else {
                rgb[(i / 4) * 3 + i % 4]
            },
    )
}

/// A decoded image: `width * height` pixels, row by row, each with the
/// channels that `layout` names.
#[derive(Debug)]
pub struct PixelGrid {
    width: u32,
    height: u32,
    layout: PixelLayout,
    data: Vec<u8>,
}

/// The bytes that a surface presents: `width * height` pixels, row by row
/// without padding, each as red, green, blue, alpha.
#[derive(Debug)]
pub struct PresentationBuffer {
    width: u32,
    height: u32,
    bytes: Vec<u8>,
}

impl PixelGrid {
    pub closed spec fn width(&self) -> nat {
        self.width as nat
    }

    pub closed spec fn height(&self) -> nat {
        self.height as nat
    }

    pub closed spec fn layout(&self) -> PixelLayout {
        self.layout
    }

    /// The grid's bytes, row by row.
    pub closed spec fn bytes(&self) -> Seq<u8> {
        self.data@
    }

    /// A 3- or 4-channel grid holds exactly its pixels' bytes, and its
    /// presentation buffer has a length that the machine can index.
    pub open spec fn wf(&self) -> bool {
        match self.layout() {
            PixelLayout::Rgb8 => self.bytes().len() == self.width() * self.height() * 3
                && buffer_len(self.width(), self.height()) <= usize::MAX,
            PixelLayout::Rgba8 => self.bytes().len() == buffer_len(self.width(), self.height()),
            _ => true,
        }
    }

    /// The grid of the given size and layout over `data`. A 3- or 4-channel
    /// grid is made only of exactly `width * height` pixels' bytes.
    pub fn new(width: u32, height: u32, layout: PixelLayout, data: Vec<u8>) -> (grid: Option<
        PixelGrid,
    >)
        ensures
            grid.is_some() <==> match layout {
                PixelLayout::Rgb8 => data@.len() == width * height * 3 && buffer_len(
                    width as nat,
                    height as nat,
                ) <= usize::MAX,
                PixelLayout::Rgba8 => data@.len() == buffer_len(width as nat, height as nat),
                _ => true,
            },
            grid matches Some(g) ==> g.wf() && g.width() == width && g.height() == height
                && g.layout() == layout && g.bytes() == data@,
    {
        let pixels: u128 = pixel_count(width, height);
        let accepted = match layout {
            PixelLayout::Rgb8 => data.len() as u128 == pixels * 3 && pixels * 4
                <= usize::MAX as u128,
            PixelLayout::Rgba8 => data.len() as u128 == pixels * 4,
            _ => true,
        };
        if accepted {
            Some(PixelGrid { width, height, layout, data })
        } else {
            None
        }
    }

    /// The number of pixels in a row.
    pub fn pixel_width(&self) -> (width: u32)
        ensures
            width == self.width(),
    {
        self.width
    }

    /// The number of rows.
    pub fn pixel_height(&self) -> (height: u32)
        ensures
            height == self.height(),
    {
        self.height
    }

    /// The arrangement of each pixel's channels.
    pub fn pixel_layout(&self) -> (layout: PixelLayout)
        ensures
            layout == self.layout(),
    {
        self.layout
    }
}

/// Whether a presentation buffer for a surface of the given size has a length
/// that the machine can index.
pub fn buffer_fits(width: u32, height: u32) -> (fits: bool)
    ensures
        fits == (buffer_len(width as nat, height as nat) <= usize::MAX),
{
    pixel_count(width, height) * 4 <= usize::MAX as u128
}

/// `width * height`, which always fits 64 bits.
fn pixel_count(width: u32, height: u32) -> (count: u128)
    ensures
        count == width * height,
        count <= 0xffff_ffff * 0xffff_ffff,
{
    assert(width * height <= 0xffff_ffff * 0xffff_ffff) by (nonlinear_arith)
        requires
            width <= 0xffff_ffff,
            height <= 0xffff_ffff,
    ;
    (width as u128) * (height as u128)
}

impl PresentationBuffer {
    pub closed spec fn width(&self) -> nat {
        self.width as nat
    }

    pub closed spec fn height(&self) -> nat {
        self.height as nat
    }

    /// The buffer's bytes.
    pub closed spec fn view(&self) -> Seq<u8> {
        self.bytes@
    }

    /// Four bytes for each pixel of the surface, no more and no fewer.
    pub open spec fn wf(&self) -> bool {
        self@.len() == buffer_len(self.width(), self.height())
    }

    /// Width, height and bytes together: all that a surface sees of a buffer.
    pub open spec fn shape(&self) -> (nat, nat, Seq<u8>) {
        (self.width(), self.height(), self@)
    }

    /// The byte of channel `channel` of the pixel in column `x` of row `y`.
    pub open spec fn channel_at(&self, x: nat, y: nat, channel: nat) -> u8
        recommends
            self.wf(),
            x < self.width(),
            y < self.height(),
            channel < 4,
    {
        self@[((y * self.width() + x) * 4 + channel) as int]
    }

    /// The number of pixels in a row.
    pub fn pixel_width(&self) -> (width: u32)
        ensures
            width == self.width(),
    {
        self.width
    }

    /// The number of rows.
    pub fn pixel_height(&self) -> (height: u32)
        ensures
            height == self.height(),
    {
        self.height
    }

    /// A new buffer for a surface of the given size, showing this one's
    /// pixels unscaled from the top left corner. Nothing of this buffer's
    /// size stays: the new one has four bytes for each pixel of the new
    /// surface.
    pub fn resized(&self, width: u32, height: u32) -> (buffer: PresentationBuffer)
        requires
            self.wf(),
            buffer_len(width as nat, height as nat) <= usize::MAX,
        ensures
            buffer.wf(),
            buffer.width() == width,
            buffer.height() == height,
            buffer@.len() == buffer_len(width as nat, height as nat),
            buffer@ == clipped(*self, width as nat, height as nat),
    {
        let columns: usize = width as usize;
        let own_columns: usize = self.width as usize;
        let own_rows: usize = self.height as usize;
        let own_len: usize = self.bytes.len();
        assert(width * height <= width * height * 4) by (nonlinear_arith);
        let pixels: usize = columns * (height as usize);
        let mut bytes: Vec<u8> = Vec::new();
        let mut p: usize = 0;
        while p < pixels
            invariant
                p <= pixels,
                pixels == width * height,
                pixels * 4 <= usize::MAX,
                columns == width,
                own_columns == self.width(),
                own_rows == self.height(),
                own_len == self@.len(),
                self.wf(),
                bytes@.len() == p * 4,
                forall|i: int| 0 <= i < p * 4 ==> bytes@[i] == clipped_byte(*self, width as nat, i),
            decreases pixels - p,
        {
            assert(columns > 0) by (nonlinear_arith)
                requires
                    p < pixels,
                    pixels == columns * height,
            ;
            let x: usize = p % columns;
            let y: usize = p / columns;
            if x < own_columns && y < own_rows {
                assert((y * own_columns + x) * 4 + 3 < own_columns * own_rows * 4)
                    by (nonlinear_arith)
                    requires
                        x < own_columns,
                        y < own_rows,
                ;
                assert(y * own_columns + x >= 0 && y * own_columns >= 0) by (nonlinear_arith)
                    requires
                        x >= 0,
                        y >= 0,
                        own_columns >= 0,
                ;
                assert((y * own_columns + x) * 4 + 3 < self.bytes@.len());
                let base: usize = (y * own_columns + x) * 4;
                bytes.push(self.bytes[base]);
                bytes.push(self.bytes[base + 1]);
                bytes.push(self.bytes[base + 2]);
                bytes.push(self.bytes[base + 3]);
            } else {
                bytes.push(0);
                bytes.push(0);
                bytes.push(0);
                bytes.push(0);
            }
            p += 1;
        }
        assert(bytes@ =~= clipped(*self, width as nat, height as nat));
        PresentationBuffer { width, height, bytes }
    }

    /// A second buffer with the same size and bytes.
    pub fn duplicate(&self) -> (copy: PresentationBuffer)
        ensures
            copy.width() == self.width(),
            copy.height() == self.height(),
            copy@ == self@,
    {
        PresentationBuffer {
            width: self.width,
            height: self.height,
            bytes: copy_bytes(&self.bytes),
        }
    }

    /// The bytes, for the surface to present.
    pub fn as_bytes(&self) -> (bytes: &Vec<u8>)
        ensures
            bytes@ == self@,
    {
        &self.bytes
    }
}

/// Byte `i` of a buffer `width` pixels wide that shows `image` from its top
/// left corner: the image's byte where the pixel lies within the image, 0
/// where it lies beside or below it.
pub open spec fn clipped_byte(image: PresentationBuffer, width: nat, i: int) -> u8 {
    let pixel = i / 4;
    let channel = i % 4;
    let x = pixel % (width as int);
    let y = pixel / (width as int);
    if x < image.width() && y < image.height() {
        image@[(y * image.width() + x) * 4 + channel]
    } else {
        0
    }
}

/// The bytes of a buffer of the given size that shows `image` unscaled from
/// its top left corner, cut off where the image is larger and filled with 0
/// where it is smaller.
pub open spec fn clipped(image: PresentationBuffer, width: nat, height: nat) -> Seq<u8> {
    Seq::new(buffer_len(width, height), |i: int| clipped_byte(image, width, i))
}

/// The bytes that `convert` lays out for a well-formed 3- or 4-channel grid.
pub open spec fn presentation_of(grid: PixelGrid) -> Seq<u8> {
    if grid.layout() == PixelLayout::Rgb8 {
        with_opaque_alpha(grid.bytes())
    } else {
        grid.bytes()
    }
}

/// Lays a decoded grid out as the presentation buffer wants it. A 4-channel
/// grid is copied byte for byte. A 3-channel grid keeps its three bytes per
/// pixel and gets `OPAQUE` as each pixel's fourth. Every other layout is
/// refused with `UnsupportedImageType`.
pub fn convert(grid: &PixelGrid) -> (result: Result<PresentationBuffer, ViewError>)
    requires
        grid.wf(),
    ensures
        grid.layout() == PixelLayout::Rgb8 || grid.layout() == PixelLayout::Rgba8 ==> (
        result matches Ok(buffer) && buffer.wf() && buffer.width() == grid.width()
            && buffer.height() == grid.height() && buffer@ == presentation_of(*grid)),
        grid.layout() != PixelLayout::Rgb8 && grid.layout() != PixelLayout::Rgba8 ==> result
            == Err::<PresentationBuffer, ViewError>(ViewError::UnsupportedImageType),
        grid.layout() == PixelLayout::Rgba8 ==> (result matches Ok(buffer) && buffer@
            == grid.bytes()),
        grid.layout() == PixelLayout::Rgb8 ==> (result matches Ok(buffer) && forall|p: int|
            0 <= p < grid.width() * grid.height() ==> {
                &&& buffer@[4 * p] == grid.bytes()[3 * p]
                &&& buffer@[4 * p + 1] == grid.bytes()[3 * p + 1]
                &&& buffer@[4 * p + 2] == grid.bytes()[3 * p + 2]
                &&& #[trigger] buffer@[4 * p + 3] == OPAQUE
            }),
{
    match grid.layout {
        PixelLayout::Rgba8 => {
            let bytes = copy_bytes(&grid.data);
            Ok(PresentationBuffer { width: grid.width, height: grid.height, bytes })
        },
        PixelLayout::Rgb8 => {
            let bytes = add_opaque_alpha(&grid.data);
            Ok(PresentationBuffer { width: grid.width, height: grid.height, bytes })
        },
        _ => Err(ViewError::UnsupportedImageType),
    }
}

/// Lays a decoded grid out in a buffer that the caller brings, which must
/// have exactly four bytes for each pixel of a 3- or 4-channel grid. Every
/// byte of the buffer is written. A grid of another layout is refused with
/// `UnsupportedImageType` and the buffer stays as it was.
pub fn convert_into(grid: &PixelGrid, buffer: &mut Vec<u8>) -> (result: Result<(), ViewError>)
    requires
        grid.wf(),
        grid.layout() == PixelLayout::Rgb8 || grid.layout() == PixelLayout::Rgba8 ==> old(
            buffer,
        )@.len() == buffer_len(grid.width(), grid.height()),
    ensures
        grid.layout() == PixelLayout::Rgb8 || grid.layout() == PixelLayout::Rgba8 ==> result
            == Ok::<(), ViewError>(()) && final(buffer)@ == presentation_of(*grid),
        grid.layout() != PixelLayout::Rgb8 && grid.layout() != PixelLayout::Rgba8 ==> result
            == Err::<(), ViewError>(ViewError::UnsupportedImageType) && final(buffer)@ == old(
            buffer,
        )@,
{
    match grid.layout {
        PixelLayout::Rgba8 => {
            let mut i: usize = 0;
            while i < buffer.len()
                invariant
                    grid.bytes() == grid.data@,
                    buffer@.len() == grid.data@.len(),
                    i <= buffer@.len(),
                    forall|j: int| 0 <= j < i ==> buffer@[j] == grid.data@[j],
                decreases buffer@.len() - i,
            {
                buffer.set(i, grid.data[i]);
                i += 1;
            }
            assert(buffer@ =~= grid.bytes());
            Ok(())
        },
        PixelLayout::Rgb8 => {
            let pixels: usize = grid.data.len() / 3;
            let total: usize = buffer.len();
            let mut p: usize = 0;
            while p < pixels
                invariant
                    p <= pixels,
                    pixels * 3 == grid.data@.len(),
                    buffer@.len() == pixels * 4,
                    total == pixels * 4,
                    forall|j: int|
                        0 <= j < p * 4 ==> buffer@[j] == with_opaque_alpha(grid.data@)[j],
                decreases pixels - p,
            {
                buffer.set(4 * p, grid.data[3 * p]);
                buffer.set(4 * p + 1, grid.data[3 * p + 1]);
                buffer.set(4 * p + 2, grid.data[3 * p + 2]);
                buffer.set(4 * p + 3, OPAQUE);
                p += 1;
            }
            assert(buffer@ =~= with_opaque_alpha(grid.bytes()));
            Ok(())
        },
        _ => Err(ViewError::UnsupportedImageType),
    }
}

fn copy_bytes(source: &Vec<u8>) -> (copy: Vec<u8>)
    ensures
        copy@ == source@,
{
    let mut copy: Vec<u8> = Vec::new();
    let mut i: usize = 0;
    while i < source.len()
        invariant
            i <= source.len(),
            copy@ == source@.take(i as int),
        decreases source.len() - i,
    {
        copy.push(source[i]);
        i += 1;
        assert(copy@ =~= source@.take(i as int));
    }
    assert(source@.take(i as int) =~= source@);
    copy
}

fn add_opaque_alpha(rgb: &Vec<u8>) -> (rgba: Vec<u8>)
    requires
        rgb@.len() % 3 == 0,
        (rgb@.len() / 3) * 4 <= usize::MAX,
    ensures
        rgba@ == with_opaque_alpha(rgb@),
{
    let pixels: usize = rgb.len() / 3;
    let mut rgba: Vec<u8> = Vec::new();
    let mut p: usize = 0;
    while p < pixels
        invariant
            p <= pixels,
            pixels * 3 == rgb@.len(),
            pixels * 4 <= usize::MAX,
            rgba@.len() == p * 4,
            forall|i: int| 0 <= i < p * 4 ==> rgba@[i] == with_opaque_alpha(rgb@)[i],
        decreases pixels - p,
    {
        rgba.push(rgb[3 * p]);
        rgba.push(rgb[3 * p + 1]);
        rgba.push(rgb[3 * p + 2]);
        rgba.push(OPAQUE);
        p += 1;
    }
    assert(rgba@ =~= with_opaque_alpha(rgb@));
    rgba
}

/// Pixel by pixel, a clipped buffer shows the image's pixel of the same
/// column and row where the image has one, and four 0 bytes elsewhere.
pub proof fn lemma_clipped_pixel(
    image: PresentationBuffer,
    width: nat,
    height: nat,
    x: nat,
    y: nat,
    channel: nat,
)
    requires
        image.wf(),
        x < width,
        y < height,
        channel < 4,
    ensures
        (y * width + x) * 4 + channel < buffer_len(width, height),
        clipped(image, width, height)[((y * width + x) * 4 + channel) as int] == (if x
            < image.width() && y < image.height() {
            image.channel_at(x, y, channel)
        } else {
            0
        }),
{
    let pixel = (y * width + x) as int;
    let i = pixel * 4 + channel;
    assert(pixel < width * height) by (nonlinear_arith)
        requires
            pixel == y * width + x,
            x < width,
            y < height,
    ;
    assert(y * width == width * y) by (nonlinear_arith);
    lemma_fundamental_div_mod_converse(pixel, width as int, y as int, x as int);
    assert(i / 4 == pixel);
    assert(i % 4 == channel);
}

} // verus!
