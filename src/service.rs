use vstd::prelude::*;

verus! {

/// Largest image download accepted, in bytes.
pub const MAX_IMAGE_SIZE: usize = 10_000_000;

/// The encoding a finished mosaic is sent in.
#[derive(Clone, Copy, Debug, PartialEq, Eq, Structural)]
pub enum ImageType {
    Webp,
    Png,
    Jpeg,
}

impl ImageType {
    /// The media type sent with an image in this encoding.
    pub fn content_type(&self) -> (r: &'static str)
        ensures
            *self == ImageType::Webp ==> r@ == "image/webp"@,
            *self == ImageType::Png ==> r@ == "image/png"@,
            *self == ImageType::Jpeg ==> r@ == "image/jpeg"@,
    {
        match self {
            ImageType::Webp => "image/webp",
            ImageType::Png => "image/png",
            ImageType::Jpeg => "image/jpeg",
        }
    }
}

/// Whether a download that has `received` bytes so far may take a further chunk of
/// `chunk` bytes without going over `MAX_IMAGE_SIZE`.
pub fn accepts_chunk(received: usize, chunk: usize) -> (r: bool)
    ensures
        r == (received + chunk <= MAX_IMAGE_SIZE),
{
    chunk <= MAX_IMAGE_SIZE && received <= MAX_IMAGE_SIZE - chunk
}

} // verus!
