use vstd::prelude::*;

use image::DynamicImage;

use crate::geometry::{mul_u32, valid_size, ImageOffset, Size};
use crate::layout::{extent, MosaicImageDims};
use crate::plan::{all_valid, lemma_layout_len, plan_mosaic, plan_result, MosaicError};

verus! {

#[verifier::external_type_specification]
#[verifier::external_body]
pub struct ExDynamicImage(image::DynamicImage);

/// The width and height an image buffer was made with.
pub uninterp spec fn pixel_dimensions(img: DynamicImage) -> (u32, u32);

/// Relies on `DynamicImage::width` and `DynamicImage::height`: the size of the buffer.
#[verifier::external_body]
fn image_dimensions(img: &DynamicImage) -> (r: (u32, u32))
    ensures
        r == pixel_dimensions(*img),
{
    (img.width(), img.height())
}

/// Relies on `ImageBuffer::from_pixel`: a `width` by `height` RGB buffer with every
/// pixel set to `colour`. It panics when the buffer's byte length overflows.
#[verifier::external_body]
fn filled(width: u32, height: u32, colour: [u8; 3]) -> (r: DynamicImage)
    requires
        3 * (width * height) <= isize::MAX,
    ensures
        pixel_dimensions(r) == (width, height),
{
    DynamicImage::ImageRgb8(image::RgbImage::from_pixel(width, height, image::Rgb(colour)))
}

/// Relies on `DynamicImage::resize_exact` with the triangle filter: a `width` by
/// `height` resampling of `img`, in the same pixel format. It reads pixels of `img`, so
/// `img` must not be empty; it goes through a buffer of four `f32` channels per pixel,
/// and a pixel of the result takes at most 16 bytes.
#[verifier::external_body]
fn resized(img: &DynamicImage, width: u32, height: u32) -> (r: DynamicImage)
    requires
        pixel_dimensions(*img).0 > 0,
        pixel_dimensions(*img).1 > 0,
        16 * (pixel_dimensions(*img).0 * height) <= isize::MAX,
        16 * (width * height) <= isize::MAX,
    ensures
        pixel_dimensions(r) == (width, height),
{
    img.resize_exact(width, height, image::imageops::FilterType::Triangle)
}

/// Relies on `imageops::overlay`: draws `top` onto `bottom` with its corner at
/// (`x`, `y`), clipped to `bottom`, whose size stays as it was. Two RGB buffers are
/// handed over as such, so that no pixel goes through a conversion.
#[verifier::external_body]
fn draw_at(bottom: &mut DynamicImage, top: &DynamicImage, x: u32, y: u32)
    ensures
        pixel_dimensions(*final(bottom)) == pixel_dimensions(*old(bottom)),
{
    match (bottom, top) {
        (DynamicImage::ImageRgb8(b), DynamicImage::ImageRgb8(t)) => {
            image::imageops::overlay(b, t, x as i64, y as i64)
        },
        (b, t) => image::imageops::overlay(b, t, x as i64, y as i64),
    }
}

/// The size of an image buffer.
pub open spec fn size_of(img: DynamicImage) -> Size {
    Size { width: pixel_dimensions(img).0, height: pixel_dimensions(img).1 }
}

/// The sizes of the given images, in order.
pub open spec fn sizes_of(images: Seq<DynamicImage>) -> Seq<Size> {
    images.map_values(|img: DynamicImage| size_of(img))
}

/// The buffers for drawing an image of size `from` at size `to` fit in memory.
pub open spec fn resize_fits(from: Size, to: Size) -> bool {
    from == to || (16 * (from.width * to.height) <= isize::MAX && 16 * (to.width * to.height)
        <= isize::MAX)
}

/// The canvas of `layout` and each resized image fit in memory.
pub open spec fn buffers_fit(layout: Seq<ImageOffset>, sizes: Seq<Size>) -> bool {
    &&& 3 * (extent(layout).width * extent(layout).height) <= isize::MAX
    &&& forall|i: int|
        0 <= i < layout.len() ==> resize_fits(sizes[i], #[trigger] layout[i].dimensions)
}

/// Whether the buffers for drawing a `from` image at size `to` fit in memory.
fn resize_fits_exec(from: Size, to: Size) -> (r: bool)
    ensures
        r == resize_fits(from, to),
{
    if from == to {
        return true;
    }
    let a: u128 = 16 * (mul_u32(from.width, to.height) as u128);
    let b: u128 = 16 * (mul_u32(to.width, to.height) as u128);
    a <= isize::MAX as u128 && b <= isize::MAX as u128
}

/// A black canvas of the given size.
pub fn create_background(size: Size) -> (r: DynamicImage)
    requires
        3 * (size.width * size.height) <= isize::MAX,
    ensures
        size_of(r) == size,
{
    filled(size.width, size.height, [0u8, 0u8, 0u8])
}

/// `image` drawn at `size`; an image already of that size is returned as it is.
pub fn resize_image(image: DynamicImage, size: Size) -> (r: DynamicImage)
    requires
        size_of(image).width > 0,
        size_of(image).height > 0,
        resize_fits(size_of(image), size),
    ensures
        size_of(r) == size,
{
    let (w, h) = image_dimensions(&image);
    if w == size.width && h == size.height {
        image
    } else {
        resized(&image, size.width, size.height)
    }
}

/// Each image drawn at the size of its placement, in order.
pub fn resize_images(images: Vec<DynamicImage>, layout: &MosaicImageDims) -> (r: Vec<DynamicImage>)
    requires
        images@.len() == layout.images@.len(),
        forall|i: int| 0 <= i < images@.len() ==> #[trigger] size_of(images@[i]).width > 0 && size_of(images@[i]).height > 0,
        forall|i: int|
            0 <= i < images@.len() ==> resize_fits(
                size_of(#[trigger] images@[i]),
                layout.images@[i].dimensions,
            ),
    ensures
        r@.len() == images@.len(),
        forall|i: int| 0 <= i < r@.len() ==> size_of(#[trigger] r@[i]) == layout.images@[i].dimensions,
{
    let n = images.len();
    let mut rest = images;
    let mut out: Vec<DynamicImage> = Vec::new();
    let mut i: usize = 0;
    while i < n
        invariant
            n == images@.len(),
            n == layout.images@.len(),
            i <= n,
            rest@ == images@.subrange(i as int, n as int),
            out@.len() == i,
            forall|j: int| 0 <= j < i ==> size_of(#[trigger] out@[j]) == layout.images@[j].dimensions,
            forall|j: int| 0 <= j < n ==> #[trigger] size_of(images@[j]).width > 0 && size_of(images@[j]).height > 0,
            forall|j: int|
                0 <= j < n ==> resize_fits(size_of(#[trigger] images@[j]), layout.images@[j].dimensions),
        decreases n - i,
    {
        let image = rest.remove(0);
        assert(image == images@[i as int]);
        out.push(resize_image(image, layout.images[i].dimensions));
        i = i + 1;
    }
    out
}

/// Draws each image at its placement on a black canvas the size of the arrangement.
pub fn build_mosaic(mosaic: &MosaicImageDims, images: Vec<DynamicImage>) -> (r: Result<
    DynamicImage,
    MosaicError,
>)
    requires
        images@.len() == mosaic.images@.len(),
        forall|i: int| 0 <= i < images@.len() ==> #[trigger] size_of(images@[i]).width > 0 && size_of(images@[i]).height > 0,
    ensures
        r is Ok <==> buffers_fit(mosaic.images@, sizes_of(images@)),
        r is Ok ==> size_of(r->Ok_0) == extent(mosaic.images@),
        r is Err ==> r->Err_0 == MosaicError::ImageTooLarge,
{
    let n = images.len();
    let total = mosaic.total_size();
    let canvas_bytes: u128 = 3 * (mul_u32(total.width, total.height) as u128);
    let mut i: usize = 0;
    while i < n
        invariant
            n == images@.len(),
            n == mosaic.images@.len(),
            i <= n,
            forall|j: int|
                0 <= j < i ==> resize_fits(sizes_of(images@)[j], #[trigger] mosaic.images@[j].dimensions),
        decreases n - i,
    {
        let (w, h) = image_dimensions(&images[i]);
        if !resize_fits_exec(Size { width: w, height: h }, mosaic.images[i].dimensions) {
            assert(!resize_fits(sizes_of(images@)[i as int], mosaic.images@[i as int].dimensions));
            return Err(MosaicError::ImageTooLarge);
        }
        i = i + 1;
    }
    if canvas_bytes > isize::MAX as u128 {
        return Err(MosaicError::ImageTooLarge);
    }
    let resized_images = resize_images(images, mosaic);
    let mut canvas = create_background(total);
    i = 0;
    while i < n
        invariant
            n == resized_images@.len(),
            n == mosaic.images@.len(),
            i <= n,
            size_of(canvas) == total,
        decreases n - i,
    {
        let p = mosaic.images[i];
        draw_at(&mut canvas, &resized_images[i], p.offset.width, p.offset.height);
        i = i + 1;
    }
    Ok(canvas)
}

/// What building a mosaic from images of the given sizes gives, as far as sizes tell.
pub open spec fn mosaic_result(sizes: Seq<Size>) -> Result<Size, MosaicError> {
    match plan_result(sizes) {
        Err(e) => Err(e),
        Ok(layout) => if buffers_fit(layout, sizes) {
            Ok(extent(layout))
        } else {
            Err(MosaicError::ImageTooLarge)
        },
    }
}

/// Composes two to four images into one, arranged by the best layout for their sizes.
pub fn mosaic(images: Vec<DynamicImage>) -> (r: Result<DynamicImage, MosaicError>)
    ensures
        r is Ok <==> mosaic_result(sizes_of(images@)) is Ok,
        r is Ok ==> mosaic_result(sizes_of(images@)) == Ok::<Size, MosaicError>(size_of(r->Ok_0)),
        r is Err ==> mosaic_result(sizes_of(images@)) == Err::<Size, MosaicError>(r->Err_0),
{
    let n = images.len();
    let mut sizes: Vec<Size> = Vec::new();
    let mut i: usize = 0;
    while i < n
        invariant
            n == images@.len(),
            i <= n,
            sizes@ == sizes_of(images@).subrange(0, i as int),
        decreases n - i,
    {
        let (w, h) = image_dimensions(&images[i]);
        sizes.push(Size { width: w, height: h });
        i = i + 1;
    }
    assert(sizes@ =~= sizes_of(images@));
    match plan_mosaic(&sizes) {
        Err(e) => Err(e),
        Ok(layout) => {
            proof {
                lemma_layout_len(sizes@);
                assert forall|i: int| 0 <= i < images@.len() implies #[trigger] size_of(
                    images@[i],
                ).width > 0 && size_of(images@[i]).height > 0 by {
                    assert(all_valid(sizes@));
                    assert(valid_size(sizes@[i]));
                }
            }
            build_mosaic(&layout, images)
        },
    }
}

/// Composes two images.
pub fn build_2_mosaic(first: DynamicImage, second: DynamicImage) -> (r: Result<
    DynamicImage,
    MosaicError,
>)
    ensures
        r is Ok <==> mosaic_result(seq![size_of(first), size_of(second)]) is Ok,
        r is Ok ==> mosaic_result(seq![size_of(first), size_of(second)]) == Ok::<
            Size,
            MosaicError,
        >(size_of(r->Ok_0)),
        r is Err ==> mosaic_result(seq![size_of(first), size_of(second)]) == Err::<
            Size,
            MosaicError,
        >(r->Err_0),
{
    let images = vec![first, second];
    assert(sizes_of(images@) =~= seq![size_of(first), size_of(second)]);
    mosaic(images)
}

/// Composes three images.
pub fn build_3_mosaic(first: DynamicImage, second: DynamicImage, third: DynamicImage) -> (r:
    Result<DynamicImage, MosaicError>)
    ensures
        r is Ok <==> mosaic_result(seq![size_of(first), size_of(second), size_of(third)]) is Ok,
        r is Ok ==> mosaic_result(seq![size_of(first), size_of(second), size_of(third)]) == Ok::<
            Size,
            MosaicError,
        >(size_of(r->Ok_0)),
        r is Err ==> mosaic_result(seq![size_of(first), size_of(second), size_of(third)])
            == Err::<Size, MosaicError>(r->Err_0),
{
    let images = vec![first, second, third];
    assert(sizes_of(images@) =~= seq![size_of(first), size_of(second), size_of(third)]);
    mosaic(images)
}

/// Composes four images.
pub fn build_4_mosaic(
    first: DynamicImage,
    second: DynamicImage,
    third: DynamicImage,
    fourth: DynamicImage,
) -> (r: Result<DynamicImage, MosaicError>)
    ensures
        r is Ok <==> mosaic_result(
            seq![size_of(first), size_of(second), size_of(third), size_of(fourth)],
        ) is Ok,
        r is Ok ==> mosaic_result(
            seq![size_of(first), size_of(second), size_of(third), size_of(fourth)],
        ) == Ok::<Size, MosaicError>(size_of(r->Ok_0)),
        r is Err ==> mosaic_result(
            seq![size_of(first), size_of(second), size_of(third), size_of(fourth)],
        ) == Err::<Size, MosaicError>(r->Err_0),
{
    let images = vec![first, second, third, fourth];
    assert(sizes_of(images@) =~= seq![
        size_of(first),
        size_of(second),
        size_of(third),
        size_of(fourth),
    ]);
    mosaic(images)
}

/// The outcome depends on the images' sizes alone, never on their pixels: image lists
/// of the same sizes get the same arrangement, the same canvas size and the same error,
/// on every call.
pub proof fn law_depends_on_sizes_only(a: Seq<DynamicImage>, b: Seq<DynamicImage>)
    requires
        sizes_of(a) == sizes_of(b),
    ensures
        plan_result(sizes_of(a)) == plan_result(sizes_of(b)),
        mosaic_result(sizes_of(a)) == mosaic_result(sizes_of(b)),
{
}

} // verus!
