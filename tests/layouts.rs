use mosaic::fours::best_4_mosaic;
use mosaic::geometry::{scale_component, scale_height_dimension, scale_width_dimension};
use mosaic::plan::plan_mosaic;
use mosaic::service::{accepts_chunk, MAX_IMAGE_SIZE};
use mosaic::threes::{best_3_mosaic, three_columns_3_mosaic, three_rows_3_mosaic};
use mosaic::twos::{best_2_mosaic, left_right_2_mosaic, top_bottom_2_mosaic};
use mosaic::{ImageOffset, ImageType, MosaicError, Size};

fn size(width: u32, height: u32) -> Size {
    Size { width, height }
}

fn at(x: u32, y: u32, dims: Size, original: Size) -> ImageOffset {
    ImageOffset { offset: size(x, y), dimensions: dims, original_dimensions: original }
}

fn disjoint(a: &ImageOffset, b: &ImageOffset) -> bool {
    a.offset.width + a.dimensions.width <= b.offset.width
        || b.offset.width + b.dimensions.width <= a.offset.width
        || a.offset.height + a.dimensions.height <= b.offset.height
        || b.offset.height + b.dimensions.height <= a.offset.height
}

fn no_overlap(images: &[ImageOffset]) -> bool {
    for i in 0..images.len() {
        for j in 0..images.len() {
            if i != j && !disjoint(&images[i], &images[j]) {
                return false;
            }
        }
    }
    true
}

#[test]
fn scaling_rounds_to_nearest() {
    assert_eq!(scale_height_dimension(size(200, 400), 200), size(100, 200));
    assert_eq!(scale_height_dimension(size(3, 2), 1), size(2, 1));
    assert_eq!(scale_width_dimension(size(300, 20), 10), size(10, 1));
    assert_eq!(scale_width_dimension(size(400, 100), 300), size(300, 75));
    assert_eq!(scale_component(5, 2, 1), 3);
    assert_eq!(scale_component(3000, 6010, 4000), 1997);
    assert_eq!(scale_component(u32::MAX, 1, 2), u32::MAX);
    assert_eq!(size(3, 4).scale(2, 1), size(2, 2));
}

#[test]
fn placements_translate_and_scale() {
    let p = at(10, 20, size(30, 40), size(60, 80));
    assert_eq!(p.add_width(5), at(15, 20, size(30, 40), size(60, 80)));
    assert_eq!(p.add_height(5), at(10, 25, size(30, 40), size(60, 80)));
    assert_eq!(p.scale(2, 1), at(5, 10, size(15, 20), size(60, 80)));
    assert_eq!((p.total_width(), p.total_height()), (40, 60));
    assert_eq!(size(1, 2).add(size(3, 4)), size(4, 6));
}

#[test]
fn two_image_templates() {
    let lr = left_right_2_mosaic(size(100, 200), size(200, 400));
    assert_eq!(lr.images, vec![at(0, 0, size(100, 200), size(100, 200)), at(110, 0, size(100, 200), size(200, 400))]);
    assert_eq!(lr.total_size(), size(210, 200));
    let tb = top_bottom_2_mosaic(size(400, 200), size(400, 100));
    assert_eq!(tb.images, vec![at(0, 0, size(400, 200), size(400, 200)), at(0, 210, size(400, 100), size(400, 100))]);
    assert_eq!(tb.total_size(), size(400, 310));
}

#[test]
fn three_image_templates() {
    let cols = three_columns_3_mosaic(size(100, 400), size(200, 400), size(100, 200));
    assert_eq!(cols.images[2], at(320, 0, size(200, 400), size(100, 200)));
    let rows = three_rows_3_mosaic(size(300, 100), size(300, 100), size(600, 100));
    assert_eq!(rows.images[2], at(0, 220, size(300, 50), size(600, 100)));
    assert_eq!(rows.total_size(), size(300, 270));
}

#[test]
fn equal_heights_pick_side_by_side() {
    let best = best_2_mosaic(size(100, 400), size(200, 400));
    assert_eq!(best.images, vec![at(0, 0, size(100, 400), size(100, 400)), at(110, 0, size(200, 400), size(200, 400))]);
}

#[test]
fn double_size_image_keeps_its_aspect() {
    let best = best_2_mosaic(size(100, 200), size(200, 400));
    assert_eq!(best.images, vec![at(0, 0, size(200, 400), size(100, 200)), at(220, 0, size(200, 400), size(200, 400))]);
    let blue = best.images[1].dimensions;
    assert_eq!(blue.width * 2, blue.height);
}

#[test]
fn four_equal_columns_win() {
    let s = size(100, 400);
    let best = best_4_mosaic(s, s, s, s);
    assert_eq!(best.images, vec![at(0, 0, s, s), at(110, 0, s, s), at(220, 0, s, s), at(330, 0, s, s)]);
}

#[test]
fn large_pair_is_scaled_uniformly() {
    let s = size(3000, 3300);
    let best = best_2_mosaic(s, s);
    assert_eq!(best.images, vec![at(0, 0, size(1997, 2196), s), at(2003, 0, size(1997, 2196), s)]);
    assert_eq!(best.total_size(), size(4000, 2196));
}

#[test]
fn ratio_and_unsquaredness_of_a_layout() {
    let lr = left_right_2_mosaic(size(100, 200), size(200, 400));
    assert_eq!(lr.min_scale_factor(), (100, 200));
    assert_eq!(lr.max_scale_factor(), (100, 100));
    assert_eq!(lr.scale_factor_ratio(), (20000, 10000));
    assert_eq!(lr.unsquaredness(), (210, 200));
    let even = left_right_2_mosaic(size(100, 400), size(200, 400));
    let (n, d) = even.scale_factor_ratio();
    assert_eq!(n, d);
    let (long, short) = top_bottom_2_mosaic(size(100, 400), size(200, 400)).unsquaredness();
    assert!(long >= short);
}

#[test]
fn scale_to_fit_normalizes_then_caps() {
    let fitted = left_right_2_mosaic(size(100, 200), size(200, 400)).scale_to_fit();
    assert_eq!(fitted.images[0], at(0, 0, size(200, 400), size(100, 200)));
    let big = left_right_2_mosaic(size(3000, 3300), size(3000, 3300)).scale_to_fit();
    assert_eq!(big.total_size(), size(4000, 2196));
}

#[test]
fn same_sizes_same_choice() {
    let a = best_3_mosaic(size(120, 80), size(33, 91), size(400, 17));
    let b = best_3_mosaic(size(120, 80), size(33, 91), size(400, 17));
    assert_eq!(a.images, b.images);
}

#[test]
fn chosen_layouts_do_not_overlap() {
    let best = best_4_mosaic(size(100, 100), size(300, 100), size(300, 100), size(100, 100));
    assert!(no_overlap(&best.images));
    let best = best_4_mosaic(size(640, 480), size(123, 987), size(500, 500), size(31, 47));
    assert!(no_overlap(&best.images));
    let best = best_3_mosaic(size(1920, 1080), size(1080, 1920), size(800, 600));
    assert!(no_overlap(&best.images));
}

#[test]
fn plan_rejects_bad_input() {
    assert_eq!(plan_mosaic(&vec![size(10, 10)]).err(), Some(MosaicError::InvalidImageCount));
    assert_eq!(plan_mosaic(&vec![size(10, 10); 5]).err(), Some(MosaicError::InvalidImageCount));
    assert_eq!(plan_mosaic(&vec![size(10, 10), size(10, 0)]).err(), Some(MosaicError::DegenerateImage));
    let plan = plan_mosaic(&vec![size(100, 400), size(200, 400)]).unwrap();
    assert_eq!(plan.images[1], at(110, 0, size(200, 400), size(200, 400)));
}

#[test]
fn content_types() {
    assert_eq!(ImageType::Webp.content_type(), "image/webp");
    assert_eq!(ImageType::Png.content_type(), "image/png");
    assert_eq!(ImageType::Jpeg.content_type(), "image/jpeg");
}

#[test]
fn download_limit() {
    assert!(accepts_chunk(MAX_IMAGE_SIZE - 10, 10));
    assert!(!accepts_chunk(MAX_IMAGE_SIZE - 9, 10));
    assert!(!accepts_chunk(0, usize::MAX));
}
