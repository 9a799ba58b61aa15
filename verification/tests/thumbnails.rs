use imview::error::DecodeStage;
use imview::pixels::PixelBuffer;
use imview::thumbnail::{fit_size, to_thumbnail};

fn solid(width: u32, height: u32, pixel: [u8; 4]) -> PixelBuffer {
    let mut data = Vec::new();
    for _ in 0..(width as usize * height as usize) {
        data.extend_from_slice(&pixel);
    }
    PixelBuffer::from_raw(width, height, data).unwrap()
}

#[test]
fn landscape_image_fits_by_its_width() {
    assert_eq!(fit_size(400, 300, 150), (150, 112));
}

#[test]
fn portrait_image_fits_by_its_height() {
    assert_eq!(fit_size(300, 400, 150), (112, 150));
}

#[test]
fn square_image_fills_the_box() {
    assert_eq!(fit_size(512, 512, 150), (150, 150));
}

#[test]
fn small_image_is_scaled_up() {
    assert_eq!(fit_size(10, 4, 150), (150, 60));
}

#[test]
fn shorter_side_is_rounded_down() {
    assert_eq!(fit_size(7, 3, 150), (150, 64));
    assert_eq!(fit_size(1000, 1, 150), (150, 0));
    assert_eq!(fit_size(3, 2, 100), (100, 66));
}

#[test]
fn empty_images_and_empty_boxes() {
    assert_eq!(fit_size(0, 0, 150), (0, 0));
    assert_eq!(fit_size(0, 10, 150), (0, 150));
    assert_eq!(fit_size(10, 0, 150), (150, 0));
    assert_eq!(fit_size(400, 300, 0), (0, 0));
}

#[test]
fn the_largest_dimensions_do_not_overflow() {
    assert_eq!(fit_size(u32::MAX, u32::MAX, u32::MAX), (u32::MAX, u32::MAX));
    assert_eq!(fit_size(u32::MAX, 1, u32::MAX), (u32::MAX, 1));
    assert_eq!(fit_size(u32::MAX, u32::MAX - 1, 2), (2, 1));
}

#[test]
fn pixel_buffer_wants_four_samples_per_pixel() {
    assert!(PixelBuffer::from_raw(2, 3, vec![0; 24]).is_some());
    assert!(PixelBuffer::from_raw(2, 3, vec![0; 23]).is_none());
    assert!(PixelBuffer::from_raw(2, 3, vec![0; 25]).is_none());
    assert!(PixelBuffer::from_raw(0, 3, Vec::new()).is_some());
    assert!(PixelBuffer::from_raw(0, 3, vec![0; 4]).is_none());
}

#[test]
fn pixel_buffer_gives_back_what_it_was_given() {
    let data: Vec<u8> = (0..24).collect();
    let image = PixelBuffer::from_raw(3, 2, data.clone()).unwrap();
    assert_eq!(image.width(), 3);
    assert_eq!(image.height(), 2);
    assert_eq!(image.dimensions(), (3, 2));
    assert_eq!(image.as_raw(), &data);
    assert_eq!(image.clone(), image);
    assert_eq!(image.into_raw(), data);
}

#[test]
fn thumbnail_of_a_400_by_300_image_is_150_by_112() {
    let thumbnail = to_thumbnail(solid(400, 300, [10, 20, 30, 255]), 150).unwrap();
    assert_eq!(thumbnail.dimensions(), (150, 112));
    assert_eq!(thumbnail.width().max(thumbnail.height()), 150);
    assert_eq!(thumbnail.as_raw().len(), 4 * 150 * 112);
}

#[test]
fn thumbnail_of_a_solid_image_is_solid() {
    let thumbnail = to_thumbnail(solid(64, 48, [200, 100, 50, 255]), 16).unwrap();
    assert_eq!(thumbnail.dimensions(), (16, 12));
    assert!(thumbnail.as_raw().chunks(4).all(|p| p == [200, 100, 50, 255]));
}

#[test]
fn thumbnail_averages_the_pixels_it_covers() {
    let mut data = Vec::new();
    for _row in 0..2 {
        data.extend_from_slice(&[0, 0, 0, 255]);
        data.extend_from_slice(&[100, 100, 100, 255]);
        data.extend_from_slice(&[200, 200, 200, 255]);
        data.extend_from_slice(&[200, 200, 200, 255]);
    }
    let image = PixelBuffer::from_raw(4, 2, data).unwrap();
    let thumbnail = to_thumbnail(image, 2).unwrap();
    assert_eq!(thumbnail.dimensions(), (2, 1));
    assert_eq!(thumbnail.into_raw(), vec![50, 50, 50, 255, 200, 200, 200, 255]);
}

#[test]
fn thumbnail_can_be_larger_than_the_image() {
    let thumbnail = to_thumbnail(solid(2, 1, [9, 8, 7, 6]), 8).unwrap();
    assert_eq!(thumbnail.dimensions(), (8, 4));
    assert!(thumbnail.as_raw().chunks(4).all(|p| p == [9, 8, 7, 6]));
}

#[test]
fn thumbnail_of_an_empty_image_is_empty() {
    let thumbnail = to_thumbnail(solid(0, 0, [0, 0, 0, 0]), 150).unwrap();
    assert_eq!(thumbnail.dimensions(), (0, 0));
    assert!(thumbnail.as_raw().is_empty());
}

#[test]
fn a_very_thin_image_gets_a_thumbnail_without_rows() {
    let thumbnail = to_thumbnail(solid(1000, 1, [1, 2, 3, 4]), 150).unwrap();
    assert_eq!(thumbnail.dimensions(), (150, 0));
    assert!(thumbnail.as_raw().is_empty());
}

#[test]
fn a_block_of_more_than_two_to_the_24_pixels_is_a_resize_error() {
    let image = PixelBuffer::from_raw(4097, 4097, vec![0; 4 * 4097 * 4097]).unwrap();
    let error = to_thumbnail(image, 1).unwrap_err();
    assert_eq!(error.stage, DecodeStage::Resize);
    assert_eq!(error.message, "Image cannot be scaled to the thumbnail size");
}

#[test]
fn a_photograph_is_reduced_to_a_box_of_two_pixels() {
    let thumbnail = to_thumbnail(solid(4000, 3000, [90, 60, 30, 255]), 2).unwrap();
    assert_eq!(thumbnail.dimensions(), (2, 1));
    assert_eq!(thumbnail.into_raw(), vec![90, 60, 30, 255, 90, 60, 30, 255]);
}

#[test]
fn strong_reductions_of_moderate_images_succeed() {
    let thumbnail = to_thumbnail(solid(2000, 2000, [1, 2, 3, 4]), 1).unwrap();
    assert_eq!(thumbnail.dimensions(), (1, 1));
    assert_eq!(thumbnail.into_raw(), vec![1, 2, 3, 4]);
    let thumbnail = to_thumbnail(solid(1800, 1800, [9, 9, 9, 9]), 1).unwrap();
    assert_eq!(thumbnail.into_raw(), vec![9, 9, 9, 9]);
}

#[test]
fn a_large_photograph_still_gets_its_thumbnail() {
    let thumbnail = to_thumbnail(solid(3000, 2000, [5, 6, 7, 255]), 150).unwrap();
    assert_eq!(thumbnail.dimensions(), (150, 100));
    assert!(thumbnail.as_raw().chunks(4).all(|p| p == [5, 6, 7, 255]));
}

#[test]
fn the_largest_block_that_is_accepted_is_averaged_without_overflow() {
    let image = PixelBuffer::from_raw(4096, 4096, vec![255; 4 * 4096 * 4096]).unwrap();
    let thumbnail = to_thumbnail(image, 1).unwrap();
    assert_eq!(thumbnail.dimensions(), (1, 1));
    assert_eq!(thumbnail.into_raw(), vec![255, 255, 255, 255]);
}

#[test]
fn a_large_image_is_within_the_limits_where_its_blocks_are_small() {
    let image = PixelBuffer::from_raw(8192, 4096, vec![77; 4 * 8192 * 4096]).unwrap();
    let thumbnail = to_thumbnail(image, 2).unwrap();
    assert_eq!(thumbnail.dimensions(), (2, 1));
    assert_eq!(thumbnail.into_raw(), vec![77; 8]);
    let image = PixelBuffer::from_raw(8192, 4096, vec![77; 4 * 8192 * 4096]).unwrap();
    assert_eq!(to_thumbnail(image, 1).unwrap().dimensions(), (1, 0));
}

#[test]
fn a_single_pixel_can_fill_a_large_box() {
    let thumbnail = to_thumbnail(solid(1, 1, [1, 2, 3, 4]), 64).unwrap();
    assert_eq!(thumbnail.dimensions(), (64, 64));
    assert!(thumbnail.as_raw().chunks(4).all(|p| p == [1, 2, 3, 4]));
}

#[test]
fn a_reduction_just_beyond_the_limit_is_a_resize_error() {
    let image = PixelBuffer::from_raw(8194, 4097, vec![0; 4 * 8194 * 4097]).unwrap();
    let error = to_thumbnail(image, 2).unwrap_err();
    assert_eq!(error.stage, DecodeStage::Resize);
}

#[test]
fn the_longer_side_is_exactly_the_size_of_the_box() {
    assert_eq!(fit_size(100, 291, 150), (51, 150));
    assert_eq!(fit_size(291, 100, 150), (150, 51));
    for side in 1..2000u32 {
        let (width, height) = fit_size(side, 2 * side + 1, 150);
        assert_eq!(height, 150);
        assert!(width <= 75);
    }
}
