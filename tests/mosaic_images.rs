use image::{DynamicImage, Rgb, RgbImage};
use mosaic::mosaic;

const BLACK: Rgb<u8> = Rgb([0, 0, 0]);
const RED: Rgb<u8> = Rgb([255, 0, 0]);
const BLUE: Rgb<u8> = Rgb([0, 0, 255]);
const GREEN: Rgb<u8> = Rgb([0, 255, 0]);
const PURPLE: Rgb<u8> = Rgb([255, 64, 255]);

fn create_with_colour(width: u32, height: u32, colour: Rgb<u8>) -> DynamicImage {
    DynamicImage::ImageRgb8(RgbImage::from_pixel(width, height, colour))
}

fn build(images: Vec<DynamicImage>) -> RgbImage {
    mosaic(images).unwrap().into_rgb8()
}

fn is_colour_at_pixel(x: u32, y: u32, image: &RgbImage, colour: Rgb<u8>) -> bool {
    image.get_pixel(x, y).eq(&colour)
}

fn is_colour_in_range(
    start_x: u32,
    start_y: u32,
    end_x: u32,
    end_y: u32,
    image: &RgbImage,
    colour: Rgb<u8>,
) -> bool {
    for x in start_x..end_x {
        for y in start_y..end_y {
            if !is_colour_at_pixel(x, y, image, colour) {
                return false;
            }
        }
    }
    true
}

fn has_black_vertical_line(x: u32, image: &RgbImage) -> bool {
    is_colour_in_range(x, 0, x, image.height(), image, BLACK)
}

fn has_black_horizontal_line(y: u32, image: &RgbImage) -> bool {
    is_colour_in_range(0, y, image.width(), y, image, BLACK)
}

fn has_black_vertical_line_partial(x: u32, start_y: u32, end_y: u32, image: &RgbImage) -> bool {
    is_colour_in_range(x, start_y, x, end_y, image, BLACK)
}

fn has_black_horizontal_line_partial(y: u32, start_x: u32, end_x: u32, image: &RgbImage) -> bool {
    is_colour_in_range(start_x, y, end_x, y, image, BLACK)
}

#[test]
fn pick_less_square_option_for_better_scaling_ratio() {
    let top_left = create_with_colour(100, 100, RED);
    let top_right = create_with_colour(300, 100, BLUE);
    let bot_left = create_with_colour(300, 100, GREEN);
    let bot_right = create_with_colour(100, 100, PURPLE);

    let result = build(vec![top_left, top_right, bot_left, bot_right]);

    assert!(is_colour_in_range(0, 0, 100, 100, &result, RED));
    assert!(has_black_vertical_line_partial(105, 0, 100, &result));
    assert!(is_colour_in_range(120, 0, 400, 100, &result, BLUE));
    assert!(has_black_horizontal_line(105, &result));
    assert!(is_colour_in_range(0, 120, 300, 200, &result, GREEN));
    assert!(has_black_vertical_line_partial(305, 120, 200, &result));
    assert!(is_colour_in_range(320, 120, 400, 200, &result, PURPLE));
}

#[test]
fn wont_scale_down_to_match() {
    let left = create_with_colour(100, 200, RED);
    let right = create_with_colour(200, 400, BLUE);

    let result = build(vec![left, right]);

    assert!(is_colour_in_range(0, 0, 200, 400, &result, RED));
    assert!(has_black_vertical_line(205, &result));
    assert!(is_colour_in_range(220, 0, 400, 400, &result, BLUE));
}

#[test]
fn scale_down_to_fit() {
    let left = create_with_colour(3000, 3300, RED);
    let right = create_with_colour(3000, 3300, BLUE);

    let result = build(vec![left, right]);

    assert!(is_colour_in_range(0, 0, 1980, 2180, &result, RED));
    assert!(has_black_vertical_line(2000, &result));
    assert!(is_colour_in_range(2020, 0, 4000, 2180, &result, BLUE));
}

#[test]
fn doesnt_attempt_removed_mosaic() {
    let left_top = create_with_colour(200, 300, RED);
    let left_bot = create_with_colour(200, 300, BLUE);
    let mid = create_with_colour(200, 600, GREEN);
    let right = create_with_colour(200, 600, PURPLE);

    let result = build(vec![left_top, left_bot, mid, right]);

    assert!((result.width() < 590) | (result.width() > 630));
    assert!((result.width() < 590) | (result.width() > 630));
    assert!(has_black_horizontal_line(305, &result));
    assert!(has_black_vertical_line(205, &result));
}

#[test]
fn mosaic_4_four_cols() {
    let col1 = create_with_colour(100, 400, RED);
    let col2 = create_with_colour(100, 400, BLUE);
    let col3 = create_with_colour(100, 400, GREEN);
    let col4 = create_with_colour(100, 400, PURPLE);

    let result = build(vec![col1, col2, col3, col4]);

    assert!(is_colour_in_range(0, 0, 100, 400, &result, RED));
    assert!(has_black_vertical_line(105, &result));
    assert!(is_colour_in_range(120, 0, 200, 400, &result, BLUE));
    assert!(has_black_vertical_line(215, &result));
    assert!(is_colour_in_range(230, 0, 300, 400, &result, GREEN));
    assert!(has_black_vertical_line(325, &result));
    assert!(is_colour_in_range(340, 0, 400, 400, &result, PURPLE));
}

#[test]
fn mosaic_4_four_rows() {
    let row1 = create_with_colour(400, 100, RED);
    let row2 = create_with_colour(400, 100, BLUE);
    let row3 = create_with_colour(400, 100, GREEN);
    let row4 = create_with_colour(400, 100, PURPLE);

    let result = build(vec![row1, row2, row3, row4]);

    assert!(is_colour_in_range(0, 0, 400, 100, &result, RED));
    assert!(has_black_horizontal_line(105, &result));
    assert!(is_colour_in_range(0, 120, 400, 200, &result, BLUE));
    assert!(has_black_horizontal_line(215, &result));
    assert!(is_colour_in_range(0, 230, 400, 300, &result, GREEN));
    assert!(has_black_horizontal_line(325, &result));
    assert!(is_colour_in_range(0, 340, 400, 400, &result, PURPLE));
}

#[test]
fn mosaic_4_two_rows_of_two() {
    let top_left = create_with_colour(100, 200, RED);
    let top_right = create_with_colour(300, 200, BLUE);
    let bot_left = create_with_colour(300, 200, GREEN);
    let bot_right = create_with_colour(100, 200, PURPLE);

    let result = build(vec![top_left, top_right, bot_left, bot_right]);

    assert!(is_colour_in_range(0, 0, 100, 200, &result, RED));
    assert!(has_black_vertical_line_partial(105, 0, 200, &result));
    assert!(is_colour_in_range(120, 0, 400, 200, &result, BLUE));
    assert!(has_black_horizontal_line(205, &result));
    assert!(is_colour_in_range(0, 220, 300, 400, &result, GREEN));
    assert!(has_black_vertical_line_partial(305, 220, 400, &result));
    assert!(is_colour_in_range(320, 220, 400, 400, &result, PURPLE));
}

#[test]
fn mosaic_4_two_rows_one_three() {
    let top = create_with_colour(300, 200, RED);
    let bot_left = create_with_colour(100, 100, BLUE);
    let bot_mid = create_with_colour(100, 100, GREEN);
    let bot_right = create_with_colour(100, 100, PURPLE);

    let result = build(vec![top, bot_left, bot_mid, bot_right]);

    assert!(is_colour_in_range(0, 0, 300, 200, &result, RED));
    assert!(has_black_horizontal_line(205, &result));
    assert!(is_colour_in_range(0, 230, 100, 300, &result, BLUE));
    assert!(has_black_vertical_line_partial(105, 220, 300, &result));
    assert!(is_colour_in_range(120, 230, 200, 300, &result, GREEN));
    assert!(has_black_vertical_line_partial(215, 220, 300, &result));
    assert!(is_colour_in_range(230, 230, 300, 300, &result, PURPLE));
}

#[test]
fn mosaic_4_two_rows_three_one() {
    let top_left = create_with_colour(100, 100, RED);
    let top_mid = create_with_colour(100, 100, BLUE);
    let top_right = create_with_colour(100, 100, GREEN);
    let bottom = create_with_colour(300, 200, PURPLE);

    let result = build(vec![top_left, top_mid, top_right, bottom]);

    assert!(is_colour_in_range(0, 0, 100, 100, &result, RED));
    assert!(has_black_vertical_line_partial(105, 0, 100, &result));
    assert!(is_colour_in_range(120, 0, 200, 100, &result, BLUE));
    assert!(has_black_vertical_line_partial(215, 0, 100, &result));
    assert!(is_colour_in_range(230, 0, 300, 100, &result, GREEN));
    assert!(has_black_horizontal_line(105, &result));
    assert!(is_colour_in_range(0, 120, 300, 300, &result, PURPLE));
}

#[test]
fn mosaic_4_two_columns_one_three() {
    let left = create_with_colour(200, 300, RED);
    let right_top = create_with_colour(100, 100, BLUE);
    let right_mid = create_with_colour(100, 100, GREEN);
    let right_bot = create_with_colour(100, 100, PURPLE);

    let result = build(vec![left, right_top, right_mid, right_bot]);

    assert!(is_colour_in_range(0, 0, 200, 300, &result, RED));
    assert!(has_black_vertical_line(105, &result));
    assert!(is_colour_in_range(230, 0, 300, 100, &result, BLUE));
    assert!(has_black_horizontal_line_partial(105, 220, 300, &result));
    assert!(is_colour_in_range(230, 120, 300, 200, &result, GREEN));
    assert!(has_black_horizontal_line_partial(215, 220, 300, &result));
    assert!(is_colour_in_range(230, 230, 300, 300, &result, PURPLE));
}

#[test]
fn mosaic_4_two_columns_three_one() {
    let left_top = create_with_colour(100, 100, RED);
    let left_mid = create_with_colour(100, 100, BLUE);
    let left_bot = create_with_colour(100, 100, GREEN);
    let right = create_with_colour(200, 300, PURPLE);

    let result = build(vec![left_top, left_mid, left_bot, right]);

    assert!(is_colour_in_range(0, 0, 100, 100, &result, RED));
    assert!(has_black_horizontal_line_partial(105, 0, 200, &result));
    assert!(is_colour_in_range(0, 120, 100, 200, &result, BLUE));
    assert!(has_black_horizontal_line_partial(215, 0, 200, &result));
    assert!(is_colour_in_range(0, 230, 100, 300, &result, GREEN));
    assert!(has_black_vertical_line(105, &result));
    assert!(is_colour_in_range(220, 230, 300, 300, &result, PURPLE));
}

#[test]
fn mosaic_4_three_rows_211() {
    let top_left = create_with_colour(300, 200, RED);
    let top_right = create_with_colour(300, 200, BLUE);
    let mid = create_with_colour(600, 200, GREEN);
    let bot = create_with_colour(600, 200, PURPLE);

    let result = build(vec![top_left, top_right, mid, bot]);

    assert!(is_colour_in_range(0, 0, 300, 200, &result, RED));
    assert!(has_black_vertical_line_partial(305, 0, 200, &result));
    assert!(is_colour_in_range(320, 0, 600, 200, &result, BLUE));
    assert!(has_black_horizontal_line(205, &result));
    assert!(is_colour_in_range(0, 220, 600, 400, &result, GREEN));
    assert!(has_black_horizontal_line(415, &result));
    assert!(is_colour_in_range(0, 430, 600, 600, &result, PURPLE));
}

#[test]
fn mosaic_4_three_rows_121() {
    let top = create_with_colour(600, 200, RED);
    let mid_left = create_with_colour(300, 200, BLUE);
    let mid_right = create_with_colour(300, 200, GREEN);
    let bot = create_with_colour(600, 200, PURPLE);

    let result = build(vec![top, mid_left, mid_right, bot]);

    assert!(is_colour_in_range(0, 0, 600, 200, &result, RED));
    assert!(has_black_horizontal_line(205, &result));
    assert!(is_colour_in_range(0, 220, 300, 400, &result, BLUE));
    assert!(has_black_vertical_line_partial(305, 210, 400, &result));
    assert!(is_colour_in_range(320, 220, 600, 400, &result, GREEN));
    assert!(has_black_horizontal_line(415, &result));
    assert!(is_colour_in_range(0, 430, 600, 600, &result, PURPLE));
}

#[test]
fn mosaic_4_three_rows_112() {
    let top = create_with_colour(600, 200, RED);
    let mid = create_with_colour(600, 200, BLUE);
    let bot_left = create_with_colour(300, 200, GREEN);
    let bot_right = create_with_colour(300, 200, PURPLE);

    let result = build(vec![top, mid, bot_left, bot_right]);

    assert!(is_colour_in_range(0, 0, 600, 200, &result, RED));
    assert!(has_black_horizontal_line(205, &result));
    assert!(is_colour_in_range(0, 220, 600, 400, &result, BLUE));
    assert!(has_black_horizontal_line(415, &result));
    assert!(is_colour_in_range(0, 430, 300, 600, &result, GREEN));
    assert!(has_black_vertical_line_partial(305, 420, 600, &result));
    assert!(is_colour_in_range(320, 430, 600, 600, &result, PURPLE));
}

#[test]
fn mosaic_3_three_cols() {
    let left = create_with_colour(100, 400, RED);
    let mid = create_with_colour(200, 400, BLUE);
    let right = create_with_colour(100, 400, GREEN);

    let result = build(vec![left, mid, right]);

    assert!(is_colour_in_range(0, 0, 100, 400, &result, RED));
    assert!(has_black_vertical_line(105, &result));
    assert!(is_colour_in_range(120, 0, 300, 400, &result, BLUE));
    assert!(has_black_vertical_line(315, &result));
    assert!(is_colour_in_range(330, 0, 400, 400, &result, GREEN));
}

#[test]
fn mosaic_3_top_top_bottom() {
    let top_left = create_with_colour(200, 300, RED);
    let top_right = create_with_colour(200, 300, BLUE);
    let bottom = create_with_colour(400, 100, GREEN);

    let result = build(vec![top_left, top_right, bottom]);

    assert!(is_colour_in_range(0, 0, 200, 300, &result, RED));
    assert!(has_black_vertical_line_partial(205, 0, 300, &result));
    assert!(is_colour_in_range(220, 0, 400, 300, &result, BLUE));
    assert!(has_black_horizontal_line(305, &result));
    assert!(is_colour_in_range(0, 320, 400, 400, &result, GREEN));
}

#[test]
fn mosaic_3_left_left_right() {
    let left_top = create_with_colour(300, 200, RED);
    let left_bot = create_with_colour(300, 200, BLUE);
    let right = create_with_colour(100, 400, GREEN);

    let result = build(vec![left_top, left_bot, right]);

    assert!(is_colour_in_range(0, 0, 300, 200, &result, RED));
    assert!(has_black_horizontal_line_partial(205, 0, 300, &result));
    assert!(is_colour_in_range(0, 220, 300, 400, &result, BLUE));
    assert!(has_black_vertical_line(305, &result));
    assert!(is_colour_in_range(320, 0, 400, 400, &result, GREEN));
}

#[test]
fn mosaic_3_left_right_right() {
    let left = create_with_colour(100, 400, RED);
    let right_top = create_with_colour(300, 200, BLUE);
    let right_bot = create_with_colour(300, 200, GREEN);

    let result = build(vec![left, right_top, right_bot]);

    assert!(is_colour_in_range(0, 0, 100, 400, &result, RED));
    assert!(has_black_vertical_line(105, &result));
    assert!(is_colour_in_range(120, 0, 400, 200, &result, BLUE));
    assert!(has_black_horizontal_line_partial(205, 120, 400, &result));
    assert!(is_colour_in_range(120, 220, 400, 400, &result, GREEN));
}

#[test]
fn mosaic_3_top_bottom_bottom() {
    let top = create_with_colour(400, 100, RED);
    let bot_left = create_with_colour(200, 300, BLUE);
    let bot_right = create_with_colour(200, 300, GREEN);

    let result = build(vec![top, bot_left, bot_right]);

    assert!(is_colour_in_range(0, 0, 400, 100, &result, RED));
    assert!(has_black_horizontal_line(105, &result));
    assert!(is_colour_in_range(0, 120, 200, 400, &result, BLUE));
    assert!(has_black_vertical_line_partial(205, 120, 400, &result));
    assert!(is_colour_in_range(220, 120, 400, 400, &result, GREEN));
}

#[test]
fn mosaic_3_three_rows() {
    let row1 = create_with_colour(300, 100, RED);
    let row2 = create_with_colour(300, 100, BLUE);
    let row3 = create_with_colour(300, 100, GREEN);

    let result = build(vec![row1, row2, row3]);

    assert!(is_colour_in_range(0, 0, 300, 100, &result, RED));
    assert!(has_black_horizontal_line(105, &result));
    assert!(is_colour_in_range(0, 120, 300, 200, &result, BLUE));
    assert!(has_black_horizontal_line(215, &result));
    assert!(is_colour_in_range(0, 230, 300, 300, &result, GREEN));
}

#[test]
fn mosaic_2_left_right() {
    let left = create_with_colour(100, 400, RED);
    let right = create_with_colour(200, 400, BLUE);

    let result = build(vec![left, right]);

    assert!(is_colour_in_range(0, 0, 100, 400, &result, RED));
    assert!(is_colour_in_range(120, 0, 300, 400, &result, BLUE));
    assert!(has_black_vertical_line(105, &result));
}

#[test]
fn mosaic_2_top_bottom() {
    let top = create_with_colour(400, 200, RED);
    let bottom = create_with_colour(400, 100, BLUE);

    let result = build(vec![top, bottom]);

    assert!(is_colour_in_range(0, 0, 400, 200, &result, RED));
    assert!(is_colour_in_range(0, 220, 400, 300, &result, BLUE));
    assert!(has_black_horizontal_line(205, &result));
}

// Scenarios and edge cases of the finished image.

#[test]
fn side_by_side_has_a_black_gutter() {
    let result = build(vec![create_with_colour(100, 400, RED), create_with_colour(200, 400, BLUE)]);
    assert_eq!((result.width(), result.height()), (310, 400));
    assert!(is_colour_in_range(0, 0, 100, 400, &result, RED));
    assert!(is_colour_in_range(100, 0, 110, 400, &result, BLACK));
    assert!(is_colour_in_range(110, 0, 310, 400, &result, BLUE));
}

#[test]
fn four_equal_columns_have_equal_bands() {
    let result = build(vec![
        create_with_colour(100, 400, RED),
        create_with_colour(100, 400, BLUE),
        create_with_colour(100, 400, GREEN),
        create_with_colour(100, 400, PURPLE),
    ]);
    assert_eq!((result.width(), result.height()), (430, 400));
    let colours = [RED, BLUE, GREEN, PURPLE];
    for (k, colour) in colours.iter().enumerate() {
        let x = 110 * k as u32;
        assert!(is_colour_in_range(x, 0, x + 100, 400, &result, *colour));
        if k < 3 {
            assert!(is_colour_in_range(x + 100, 0, x + 110, 400, &result, BLACK));
        }
    }
}

#[test]
fn large_pair_is_capped_at_max_size() {
    let result = build(vec![create_with_colour(3000, 3300, RED), create_with_colour(3000, 3300, BLUE)]);
    assert_eq!((result.width(), result.height()), (4000, 2196));
    for y in [0, 1098, 2195] {
        assert!(is_colour_in_range(0, y, 1997, y + 1, &result, RED));
        assert!(is_colour_in_range(1997, y, 2003, y + 1, &result, BLACK));
        assert!(is_colour_in_range(2003, y, 4000, y + 1, &result, BLUE));
    }
}

#[test]
fn resized_tile_changes_size() {
    // The second image must be drawn at half its size.
    let result = build(vec![create_with_colour(100, 200, RED), create_with_colour(200, 400, BLUE)]);
    assert_eq!((result.width(), result.height()), (420, 400));
    let tall = build(vec![create_with_colour(10, 20, RED), create_with_colour(300, 20, BLUE)]);
    assert_eq!((tall.width(), tall.height()), (320, 20));
}

#[test]
fn wrong_image_counts_are_rejected() {
    assert_eq!(mosaic(vec![]).err(), Some(mosaic::MosaicError::InvalidImageCount));
    assert_eq!(
        mosaic(vec![create_with_colour(10, 10, RED)]).err(),
        Some(mosaic::MosaicError::InvalidImageCount)
    );
    let five: Vec<DynamicImage> = (0..5).map(|_| create_with_colour(10, 10, RED)).collect();
    assert_eq!(mosaic(five).err(), Some(mosaic::MosaicError::InvalidImageCount));
}

#[test]
fn empty_images_are_rejected() {
    let r = mosaic(vec![create_with_colour(10, 10, RED), create_with_colour(0, 10, BLUE)]);
    assert_eq!(r.err(), Some(mosaic::MosaicError::DegenerateImage));
    let r = mosaic(vec![
        create_with_colour(10, 10, RED),
        create_with_colour(10, 10, BLUE),
        create_with_colour(10, 0, GREEN),
    ]);
    assert_eq!(r.err(), Some(mosaic::MosaicError::DegenerateImage));
}

#[test]
fn background_is_black_and_sized() {
    let canvas = mosaic::render::create_background(mosaic::Size { width: 7, height: 3 }).into_rgb8();
    assert_eq!((canvas.width(), canvas.height()), (7, 3));
    assert!(is_colour_in_range(0, 0, 7, 3, &canvas, BLACK));
}

#[test]
fn resize_image_draws_at_the_target_size() {
    let img = create_with_colour(40, 20, GREEN);
    let out = mosaic::render::resize_image(img, mosaic::Size { width: 10, height: 5 });
    assert_eq!((out.width(), out.height()), (10, 5));
    let same = mosaic::render::resize_image(create_with_colour(8, 6, RED), mosaic::Size { width: 8, height: 6 });
    assert_eq!((same.width(), same.height()), (8, 6));
}

#[test]
fn build_entries_match_mosaic() {
    let two = mosaic::render::build_2_mosaic(create_with_colour(100, 400, RED), create_with_colour(200, 400, BLUE))
        .unwrap()
        .into_rgb8();
    assert_eq!((two.width(), two.height()), (310, 400));
    let three = mosaic::render::build_3_mosaic(
        create_with_colour(300, 100, RED),
        create_with_colour(300, 100, BLUE),
        create_with_colour(300, 100, GREEN),
    )
    .unwrap()
    .into_rgb8();
    assert_eq!((three.width(), three.height()), (300, 320));
    let s = || create_with_colour(100, 400, RED);
    let four = mosaic::render::build_4_mosaic(s(), s(), s(), s()).unwrap().into_rgb8();
    assert_eq!((four.width(), four.height()), (430, 400));
    let bad = mosaic::render::build_2_mosaic(create_with_colour(0, 4, RED), create_with_colour(2, 4, RED));
    assert_eq!(bad.err(), Some(mosaic::MosaicError::DegenerateImage));
}
