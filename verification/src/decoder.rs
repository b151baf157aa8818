//! From a decoded raster image to the columns that are drawn: the image must
//! be grayscale and seven pixels tall, and each of its horizontal pixels
//! gives one column.

use vstd::prelude::*;
use image::DynamicImage;
use crate::error::{DrawError, InputFault};
use crate::tiler::Column;

verus! {

/// A decoded image of the `image` crate. Nothing of its contents is visible
/// here: the functions below ask it for what the decoder reads.
#[verifier::external_type_specification]
#[verifier::external_body]
pub struct ExDynamicImage(DynamicImage);

/// Width and height of the image, in pixels.
pub uninterp spec fn raster_dimensions(image: DynamicImage) -> (u32, u32);

/// Whether the pixel type of the image has colour channels.
pub uninterp spec fn raster_has_color(image: DynamicImage) -> bool;

/// The luma of the pixel in column `x` and row `y` of the image.
pub uninterp spec fn raster_luma(image: DynamicImage, x: u32, y: u32) -> u8;

/// Calls `GenericImageView::dimensions` of `DynamicImage`: width, then
/// height. The contract only gives the pair its name.
#[verifier::external_body]
fn dimensions(image: &DynamicImage) -> (r: (u32, u32))
    ensures
        r == raster_dimensions(*image),
{
    image::GenericImageView::dimensions(image)
}

/// Calls `DynamicImage::color` and `ColorType::has_color` on its result:
/// false for the luma and luma-with-alpha pixel types, true for the others.
/// The contract only gives the answer its name.
#[verifier::external_body]
fn has_color(image: &DynamicImage) -> (r: bool)
    ensures
        r == raster_has_color(*image),
{
    image.color().has_color()
}

/// Calls `GenericImageView::get_pixel` of `DynamicImage`, which panics
/// outside the image, and `Pixel::to_luma` on the pixel it returns. The
/// contract only gives the luma its name.
#[verifier::external_body]
fn luma_at(image: &DynamicImage, x: u32, y: u32) -> (r: u8)
    requires
        x < raster_dimensions(*image).0,
        y < raster_dimensions(*image).1,
    ensures
        r == raster_luma(*image, x, y),
{
    image::Pixel::to_luma(&image::GenericImageView::get_pixel(image, x, y)).0[0]
}

/// What an image of this shape is rejected for, if anything: its height
/// first, then its colour.
pub open spec fn shape_fault(width: u32, height: u32, colored: bool) -> Option<InputFault> {
    if height != 7 {
        Some(InputFault::WrongHeight { width, height })
    } else if colored {
        Some(InputFault::NotGrayscale)
    } else {
        None
    }
}

/// Accepts the shape of an image that can be drawn: seven pixels tall and
/// without colour.
pub fn check_shape(width: u32, height: u32, colored: bool) -> (r: Result<(), DrawError>)
    ensures
        match r {
            Ok(()) => shape_fault(width, height, colored) is None,
            Err(e) => shape_fault(width, height, colored) == Some(e->InvalidInput_0) && e
                is InvalidInput,
        },
{
    if height != 7 {
        Err(DrawError::InvalidInput(InputFault::WrongHeight { width, height }))
    } else if colored {
        Err(DrawError::InvalidInput(InputFault::NotGrayscale))
    } else {
        Ok(())
    }
}

/// Whether `columns` holds the luma of `image`, one column per horizontal
/// pixel from left to right, each from top to bottom.
pub open spec fn columns_of(image: DynamicImage, columns: Seq<Column>) -> bool {
    &&& columns.len() == raster_dimensions(image).0
    &&& forall|x: int, y: int|
        0 <= x < columns.len() && 0 <= y < 7 ==> (#[trigger] columns[x]@[y]) == raster_luma(
            image,
            x as u32,
            y as u32,
        )
}

/// The columns of `image`, or the reason why it cannot be drawn.
pub fn decode_columns(image: &DynamicImage) -> (r: Result<Vec<Column>, DrawError>)
    ensures
        match r {
            Ok(columns) => {
                &&& shape_fault(
                    raster_dimensions(*image).0,
                    raster_dimensions(*image).1,
                    raster_has_color(*image),
                ) is None
                &&& columns_of(*image, columns@)
            },
            Err(e) => e is InvalidInput && shape_fault(
                raster_dimensions(*image).0,
                raster_dimensions(*image).1,
                raster_has_color(*image),
            ) == Some(e->InvalidInput_0),
        },
{
    let (width, height) = dimensions(image);
    match check_shape(width, height, has_color(image)) {
        Ok(()) => {},
        Err(e) => {
            return Err(e);
        },
    }
    let mut columns: Vec<Column> = Vec::new();
    let mut x: u32 = 0;
    while x < width
        invariant
            x <= width,
            (width, height) == raster_dimensions(*image),
            height == 7,
            columns@.len() == x,
            forall|i: int, j: int|
                0 <= i < x && 0 <= j < 7 ==> (#[trigger] columns@[i]@[j]) == raster_luma(
                    *image,
                    i as u32,
                    j as u32,
                ),
        decreases width - x,
    {
        let mut column: Column = [0u8;7];
        let mut y: u32 = 0;
        while y < 7
            invariant
                y <= 7,
                x < width,
                (width, height) == raster_dimensions(*image),
                height == 7,
                forall|j: int|
                    0 <= j < y ==> (#[trigger] column@[j]) == raster_luma(*image, x, j as u32),
            decreases 7 - y,
        {
            column[y as usize] = luma_at(image, x, y);
            y = y + 1;
        }
        columns.push(column);
        x = x + 1;
    }
    Ok(columns)
}

} // verus!
