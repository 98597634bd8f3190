//! Cursor images: a strip of square frames, decoded by the `image` crate.

use crate::shared::CURSOR_SIZE;
use image::DynamicImage;
use image::GenericImageView;
use image::ImageError;
use vstd::prelude::*;

verus! {

/// A decoded picture of the `image` crate, in whatever pixel format its file
/// had. Nothing is known of it but what the functions below say.
#[verifier::external_type_specification]
#[verifier::external_body]
pub struct ExDynamicImage(image::DynamicImage);

/// The `image` crate's account of a failed decoding. It is carried, never
/// read.
#[verifier::external_type_specification]
#[verifier::external_body]
pub struct ExImageError(image::ImageError);

/// The pixels of `image`, row by row from the top, each row from the left,
/// each pixel as the red, green, blue and alpha bytes that `get_pixel` reports.
pub uninterp spec fn image_rows(image: DynamicImage) -> Seq<Seq<[u8; 4]>>;

/// The number of pixels in each row of `image`.
pub uninterp spec fn image_width(image: DynamicImage) -> nat;

/// The kind of samples that the pixels of `image` are stored in.
pub uninterp spec fn image_format(image: DynamicImage) -> SampleFormat;

/// The sample formats of the decoder's pictures: grey or colour, with or
/// without alpha, in 8-bit or 16-bit whole numbers or in floating point.
#[derive(Clone, Copy, PartialEq, Eq, Structural, Debug)]
pub enum SampleFormat {
    Luma8,
    LumaA8,
    Rgb8,
    Rgba8,
    Luma16,
    LumaA16,
    Rgb16,
    Rgba16,
    Rgb32F,
    Rgba32F,
    /// A format that this crate does not know.
    Other,
}

/// A picture as the engine sees it: its width and its rows of pixels.
pub struct Bitmap {
    pub width: nat,
    pub rows: Seq<Seq<[u8; 4]>>,
}

/// The pixel of `image` in column `x` of row `y`.
pub open spec fn pixel_at(image: DynamicImage, x: int, y: int) -> [u8; 4] {
    image_rows(image)[y][x]
}

/// The picture that `image` holds.
pub open spec fn bitmap_of(image: DynamicImage) -> Bitmap {
    Bitmap { width: image_width(image), rows: image_rows(image) }
}

/// `crop` is the rectangle of `source` that starts at column `x` of row `y`
/// and is `width` by `height` pixels.
pub open spec fn is_crop_of(
    source: DynamicImage,
    crop: DynamicImage,
    x: u32,
    y: u32,
    width: u32,
    height: u32,
) -> bool {
    &&& image_width(crop) == width
    &&& image_rows(crop).len() == height
    &&& forall|i: int, j: int|
        0 <= i < width && 0 <= j < height ==> #[trigger] pixel_at(crop, i, j) == pixel_at(
            source,
            x + i,
            y + j,
        )
}

/// Calls `image::load_from_memory`. Nothing is claimed of what it makes of
/// the bytes: some decoders compute differently from machine to machine.
#[verifier::external_body]
fn load_from_memory(buffer: &[u8]) -> (loaded: Result<DynamicImage, ImageError>) {
    image::load_from_memory(buffer)
}

/// Tells the variants of `DynamicImage` apart: the sample format is the
/// variant. A variant that a later version adds is reported as `Other`.
#[verifier::external_body]
fn format_of(image: &DynamicImage) -> (format: SampleFormat)
    ensures
        format == image_format(*image),
{
    match image {
        DynamicImage::ImageLuma8(_) => SampleFormat::Luma8,
        DynamicImage::ImageLumaA8(_) => SampleFormat::LumaA8,
        DynamicImage::ImageRgb8(_) => SampleFormat::Rgb8,
        DynamicImage::ImageRgba8(_) => SampleFormat::Rgba8,
        DynamicImage::ImageLuma16(_) => SampleFormat::Luma16,
        DynamicImage::ImageLumaA16(_) => SampleFormat::LumaA16,
        DynamicImage::ImageRgb16(_) => SampleFormat::Rgb16,
        DynamicImage::ImageRgba16(_) => SampleFormat::Rgba16,
        DynamicImage::ImageRgb32F(_) => SampleFormat::Rgb32F,
        DynamicImage::ImageRgba32F(_) => SampleFormat::Rgba32F,
        _ => SampleFormat::Other,
    }
}

/// Calls `DynamicImage::clone`: the copy holds the same pixels in the same
/// format.
#[verifier::external_body]
fn copy_of(image: &DynamicImage) -> (copy: DynamicImage)
    ensures
        bitmap_of(copy) == bitmap_of(*image),
        image_format(copy) == image_format(*image),
{
    image.clone()
}

/// Calls `DynamicImage::width`: the length of each row.
#[verifier::external_body]
fn width_of(image: &DynamicImage) -> (width: u32)
    ensures
        width == image_width(*image),
{
    image.width()
}

/// Calls `DynamicImage::height`: the number of rows.
#[verifier::external_body]
fn height_of(image: &DynamicImage) -> (height: u32)
    ensures
        height == image_rows(*image).len(),
{
    image.height()
}

/// Calls `DynamicImage::crop_imm`, which returns a copy of the rectangle
/// asked for, in the format of the picture. The contract speaks only of
/// rectangles that lie inside the picture, and small enough that the length
/// of the copy's buffer cannot overflow.
#[verifier::external_body]
fn crop_imm(image: &DynamicImage, x: u32, y: u32, width: u32, height: u32) -> (crop: DynamicImage)
    requires
        x + width <= image_width(*image),
        y + height <= image_rows(*image).len(),
        width * height <= 0x0100_0000,
    ensures
        is_crop_of(*image, crop, x, y, width, height),
        image_format(crop) == image_format(*image),
{
    image.crop_imm(x, y, width, height)
}

/// Calls `GenericImageView::get_pixel` on a `DynamicImage` and hands out the
/// four bytes of the pixel. The call panics outside the picture, and on a
/// floating-point sample that is no number; the contract leaves out both, the
/// second by leaving out every picture that is not in whole numbers.
#[verifier::external_body]
fn get_pixel(image: &DynamicImage, x: u32, y: u32) -> (pixel: [u8; 4])
    requires
        image_format(*image).is_whole(),
        x < image_width(*image),
        y < image_rows(*image).len(),
    ensures
        pixel == pixel_at(*image, x as int, y as int),
{
    image.get_pixel(x, y).0
}

impl SampleFormat {
    /// The samples are whole numbers.
    pub open spec fn is_whole(self) -> bool {
        ||| self is Luma8
        ||| self is LumaA8
        ||| self is Rgb8
        ||| self is Rgba8
        ||| self is Luma16
        ||| self is LumaA16
        ||| self is Rgb16
        ||| self is Rgba16
    }

    /// Whether the samples are whole numbers.
    pub fn holds_whole_numbers(&self) -> (whole: bool)
        ensures
            whole == self.is_whole(),
    {
        match self {
            SampleFormat::Luma8 => true,
            SampleFormat::LumaA8 => true,
            SampleFormat::Rgb8 => true,
            SampleFormat::Rgba8 => true,
            SampleFormat::Luma16 => true,
            SampleFormat::LumaA16 => true,
            SampleFormat::Rgb16 => true,
            SampleFormat::Rgba16 => true,
            SampleFormat::Rgb32F => false,
            SampleFormat::Rgba32F => false,
            SampleFormat::Other => false,
        }
    }
}

/// Why a picture cannot serve as a cursor.
#[derive(Clone, Copy, PartialEq, Eq, Structural, Debug)]
pub enum CursorError {
    /// The bytes are no picture in whole-number samples that the decoder
    /// knows.
    Unreadable,
    /// The width is not a whole number of frames.
    Width,
    /// The height is not that of one frame.
    Height,
}

/// The verdict on a picture of `width` by `height` pixels: the width is
/// judged first.
pub open spec fn size_verdict(width: nat, height: nat) -> Result<(), CursorError> {
    if width % (CURSOR_SIZE as nat) != 0 {
        Err(CursorError::Width)
    } else if height != CURSOR_SIZE {
        Err(CursorError::Height)
    } else {
        Ok(())
    }
}

/// Judges whether a picture of `width` by `height` pixels is a strip of
/// cursor frames: as high as one frame and a whole number of frames wide.
pub fn check_size(width: u32, height: u32) -> (verdict: Result<(), CursorError>)
    ensures
        verdict == size_verdict(width as nat, height as nat),
        verdict is Ok <==> height == CURSOR_SIZE && width % CURSOR_SIZE == 0,
{
    if width % CURSOR_SIZE != 0 {
        Err(CursorError::Width)
    } else if height != CURSOR_SIZE {
        Err(CursorError::Height)
    } else {
        Ok(())
    }
}

impl Bitmap {
    /// Number of rows.
    pub open spec fn height(self) -> nat {
        self.rows.len()
    }

    /// Whether the whole square of frame `frame` lies inside the picture.
    pub open spec fn has_frame(self, frame: nat) -> bool {
        &&& (frame + 1) * (CURSOR_SIZE as nat) <= self.width
        &&& CURSOR_SIZE <= self.height()
    }

    /// The pixels of frame `frame`, row by row.
    pub open spec fn frame_pixels(self, frame: nat) -> Seq<[u8; 4]> {
        Seq::new(
            (CURSOR_SIZE * CURSOR_SIZE) as nat,
            |i: int| self.rows[i / (CURSOR_SIZE as int)][frame * CURSOR_SIZE + i % (CURSOR_SIZE as int)],
        )
    }

    /// What a window shows after a request for frame `frame`: its pixels, or
    /// nothing new where the picture has no such frame.
    pub open spec fn shown(self, frame: nat) -> Option<Seq<[u8; 4]>> {
        if self.has_frame(frame) {
            Some(self.frame_pixels(frame))
        } else {
            None
        }
    }
}

/// A decoded picture in whole-number samples that serves, or is offered, as
/// a participant's cursor.
pub struct CursorImage {
    bitmap: DynamicImage,
}

impl View for CursorImage {
    type V = Bitmap;

    closed spec fn view(&self) -> Bitmap {
        bitmap_of(self.bitmap)
    }
}

impl Clone for CursorImage {
    fn clone(&self) -> (copy: CursorImage)
        ensures
            copy@ == self@,
    {
        proof {
            use_type_invariant(self);
        }
        CursorImage { bitmap: copy_of(&self.bitmap) }
    }
}

impl CursorImage {
    #[verifier::type_invariant]
    spec fn well_formed(self) -> bool {
        image_format(self.bitmap).is_whole()
    }

    /// Takes a decoded picture as a cursor picture, or returns `None` where
    /// its samples are not whole numbers.
    pub fn from_image(image: DynamicImage) -> (picture: Option<CursorImage>)
        ensures
            picture is Some <==> image_format(image).is_whole(),
            picture matches Some(p) ==> p@ == bitmap_of(image),
    {
        if format_of(&image).holds_whole_numbers() {
            Some(CursorImage { bitmap: image })
        } else {
            None
        }
    }

    /// Decodes a picture in any format that the decoder recognises, and
    /// returns `None` where it recognises none or the picture's samples are
    /// not whole numbers.
    pub fn decode(bytes: &[u8]) -> (picture: Option<CursorImage>) {
        match load_from_memory(bytes) {
            Ok(image) => CursorImage::from_image(image),
            Err(_) => None,
        }
    }

    /// Width in pixels.
    pub fn width(&self) -> (width: u32)
        ensures
            width == self@.width,
    {
        width_of(&self.bitmap)
    }

    /// Height in pixels.
    pub fn height(&self) -> (height: u32)
        ensures
            height == self@.height(),
    {
        height_of(&self.bitmap)
    }

    /// Judges whether the picture is a strip of cursor frames.
    pub fn validate(&self) -> (verdict: Result<(), CursorError>)
        ensures
            verdict == size_verdict(self@.width, self@.height()),
    {
        check_size(self.width(), self.height())
    }

    /// The pixels to put into a window to show frame `frame`, row by row, or
    /// `None` where the picture has no such frame.
    pub fn set_frame(&self, frame: u32) -> (pixels: Option<Vec<[u8; 4]>>)
        ensures
            pixels is Some <==> self@.has_frame(frame as nat),
            pixels matches Some(p) ==> p@ == self@.frame_pixels(frame as nat),
    {
        proof {
            use_type_invariant(self);
        }
        let width = self.width();
        let height = self.height();
        if (frame as u64 + 1) * 64 > width as u64 || height < CURSOR_SIZE {
            return None;
        }
        let left: u32 = frame * CURSOR_SIZE;
        let image_crop = crop_imm(&self.bitmap, left, 0, CURSOR_SIZE, CURSOR_SIZE);
        let mut buffer: Vec<[u8; 4]> = Vec::new();
        let mut index: u32 = 0;
        while index < CURSOR_SIZE * CURSOR_SIZE
            invariant
                index <= CURSOR_SIZE * CURSOR_SIZE,
                left == frame * CURSOR_SIZE,
                self@.has_frame(frame as nat),
                is_crop_of(self.bitmap, image_crop, left, 0, CURSOR_SIZE, CURSOR_SIZE),
                image_format(image_crop).is_whole(),
                buffer@.len() == index,
                forall|i: int|
                    0 <= i < index ==> buffer@[i] == #[trigger] self@.frame_pixels(frame as nat)[i],
            decreases CURSOR_SIZE * CURSOR_SIZE - index,
        {
            let y = index / CURSOR_SIZE;
            let x = index % CURSOR_SIZE;
            let pixel = get_pixel(&image_crop, x, y);
            assert(pixel == pixel_at(self.bitmap, left + x, y as int));
            buffer.push(pixel);
            index = index + 1;
        }
        assert(buffer@ =~= self@.frame_pixels(frame as nat));
        Some(buffer)
    }
}

} // verus!
