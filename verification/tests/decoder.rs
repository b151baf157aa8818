use commit_canvas::decoder::{check_shape, decode_columns};
use commit_canvas::error::{DrawError, InputFault};
use image::{DynamicImage, GrayAlphaImage, GrayImage, ImageBuffer, Luma, RgbImage, RgbaImage};

fn gray(width: u32, height: u32, rows: Vec<u8>) -> DynamicImage {
    DynamicImage::ImageLuma8(GrayImage::from_raw(width, height, rows).unwrap())
}

#[test]
fn shape_must_be_seven_tall_and_gray() {
    assert_eq!(check_shape(1, 7, false), Ok(()));
    assert_eq!(check_shape(0, 7, false), Ok(()));
    assert_eq!(check_shape(53, 7, false), Ok(()));
    assert_eq!(
        check_shape(53, 6, false),
        Err(DrawError::InvalidInput(InputFault::WrongHeight { width: 53, height: 6 }))
    );
    assert_eq!(
        check_shape(53, 8, false),
        Err(DrawError::InvalidInput(InputFault::WrongHeight { width: 53, height: 8 }))
    );
    assert_eq!(check_shape(53, 7, true), Err(DrawError::InvalidInput(InputFault::NotGrayscale)));
}

#[test]
fn height_is_checked_before_colour() {
    assert_eq!(
        check_shape(2, 3, true),
        Err(DrawError::InvalidInput(InputFault::WrongHeight { width: 2, height: 3 }))
    );
}

#[test]
fn one_column_image_gives_its_pixels_top_to_bottom() {
    let image = gray(1, 7, vec![1, 0, 0, 0, 0, 0, 0]);
    assert_eq!(decode_columns(&image), Ok(vec![[1, 0, 0, 0, 0, 0, 0]]));
    let image = gray(1, 7, vec![10, 20, 30, 40, 50, 60, 70]);
    assert_eq!(decode_columns(&image), Ok(vec![[10, 20, 30, 40, 50, 60, 70]]));
}

#[test]
fn columns_come_left_to_right() {
    // The buffer is laid out row by row: three pixels per row, seven rows.
    let rows: Vec<u8> = (0..21).collect();
    let image = gray(3, 7, rows);
    assert_eq!(
        decode_columns(&image),
        Ok(vec![
            [0, 3, 6, 9, 12, 15, 18],
            [1, 4, 7, 10, 13, 16, 19],
            [2, 5, 8, 11, 14, 17, 20],
        ])
    );
}

#[test]
fn luma_is_taken_as_it_is_from_0_to_255() {
    let image = gray(2, 7, vec![0, 255, 1, 254, 2, 253, 3, 252, 4, 251, 5, 250, 6, 249]);
    assert_eq!(
        decode_columns(&image),
        Ok(vec![[0, 1, 2, 3, 4, 5, 6], [255, 254, 253, 252, 251, 250, 249]])
    );
}

#[test]
fn black_image_gives_blank_columns() {
    let image = gray(1, 7, vec![0; 7]);
    assert_eq!(decode_columns(&image), Ok(vec![[0; 7]]));
}

#[test]
fn alpha_does_not_count_as_colour() {
    let mut pixels = Vec::new();
    for y in 0..7_u8 {
        pixels.push(y * 3);
        pixels.push(128);
    }
    let image = DynamicImage::ImageLumaA8(GrayAlphaImage::from_raw(1, 7, pixels).unwrap());
    assert_eq!(decode_columns(&image), Ok(vec![[0, 3, 6, 9, 12, 15, 18]]));
}

#[test]
fn sixteen_bit_gray_is_accepted() {
    let buffer: ImageBuffer<Luma<u16>, Vec<u16>> =
        ImageBuffer::from_raw(1, 7, vec![0, 65535, 0, 65535, 0, 65535, 0]).unwrap();
    let image = DynamicImage::ImageLuma16(buffer);
    assert_eq!(decode_columns(&image), Ok(vec![[0, 255, 0, 255, 0, 255, 0]]));
}

#[test]
fn wrong_height_is_invalid_input() {
    let image = gray(2, 6, vec![0; 12]);
    assert_eq!(
        decode_columns(&image),
        Err(DrawError::InvalidInput(InputFault::WrongHeight { width: 2, height: 6 }))
    );
    let image = gray(7, 1, vec![0; 7]);
    assert_eq!(
        decode_columns(&image),
        Err(DrawError::InvalidInput(InputFault::WrongHeight { width: 7, height: 1 }))
    );
    assert!(decode_columns(&image).unwrap_err().is_invalid_input());
}

#[test]
fn colour_image_is_invalid_input() {
    let rgb = DynamicImage::ImageRgb8(RgbImage::from_raw(1, 7, vec![5; 21]).unwrap());
    assert_eq!(decode_columns(&rgb), Err(DrawError::InvalidInput(InputFault::NotGrayscale)));
    let rgba = DynamicImage::ImageRgba8(RgbaImage::from_raw(1, 7, vec![5; 28]).unwrap());
    assert_eq!(decode_columns(&rgba), Err(DrawError::InvalidInput(InputFault::NotGrayscale)));
}

#[test]
fn colour_image_of_wrong_height_reports_the_height() {
    let rgb = DynamicImage::ImageRgb8(RgbImage::from_raw(1, 2, vec![5; 6]).unwrap());
    assert_eq!(
        decode_columns(&rgb),
        Err(DrawError::InvalidInput(InputFault::WrongHeight { width: 1, height: 2 }))
    );
}

#[test]
fn image_without_width_has_no_columns() {
    let image = gray(0, 7, Vec::new());
    assert_eq!(decode_columns(&image), Ok(Vec::new()));
}
