//! Image formats and the image data handed to the encoder.
use vstd::prelude::*;

verus! {

/// Format of an image.
#[derive(Debug, Clone, Copy, PartialEq, Eq, Structural)]
pub enum ImageFormat {
    /// YUV 4:2:0 planar (three planes: Y, U, V).
    I420,
    /// YUV 4:2:0 planar (three planes: Y, V, U).
    Yv12,
    /// YUV 4:2:0 semi-planar (two planes: Y, interleaved UV).
    Nv12,
    /// YUV 4:2:2 planar (three planes: Y, U, V).
    I422,
    /// YUV 4:4:4 planar (three planes: Y, U, V).
    I444,
    /// YUV 4:4:0 planar (three planes: Y, U, V).
    I440,
    /// YUV 4:2:0 planar, 16 bits a sample (three planes: Y, U, V).
    I42016,
    /// YUV 4:2:2 planar, 16 bits a sample (three planes: Y, U, V).
    I42216,
    /// YUV 4:4:4 planar, 16 bits a sample (three planes: Y, U, V).
    I44416,
    /// YUV 4:4:0 planar, 16 bits a sample (three planes: Y, U, V).
    I44016,
}

/// The image data handed to the encoder, one slice per plane.
pub enum ImageData<'a> {
    /// I420 (three planes: Y, U, V).
    I420 {
        /// Y plane.
        y: &'a [u8],
        /// U plane.
        u: &'a [u8],
        /// V plane.
        v: &'a [u8],
    },
    /// YV12 (three planes: Y, V, U).
    Yv12 {
        /// Y plane.
        y: &'a [u8],
        /// U plane.
        u: &'a [u8],
        /// V plane.
        v: &'a [u8],
    },
    /// NV12 (two planes: Y, interleaved UV).
    Nv12 {
        /// Y plane.
        y: &'a [u8],
        /// Interleaved UV plane.
        uv: &'a [u8],
    },
    /// I422 (three planes: Y, U, V).
    I422 {
        /// Y plane.
        y: &'a [u8],
        /// U plane.
        u: &'a [u8],
        /// V plane.
        v: &'a [u8],
    },
    /// I444 (three planes: Y, U, V).
    I444 {
        /// Y plane.
        y: &'a [u8],
        /// U plane.
        u: &'a [u8],
        /// V plane.
        v: &'a [u8],
    },
    /// I440 (three planes: Y, U, V).
    I440 {
        /// Y plane.
        y: &'a [u8],
        /// U plane.
        u: &'a [u8],
        /// V plane.
        v: &'a [u8],
    },
    /// I42016 (three planes: Y, U, V; 16 bits a sample).
    I42016 {
        /// Y plane.
        y: &'a [u8],
        /// U plane.
        u: &'a [u8],
        /// V plane.
        v: &'a [u8],
    },
    /// I42216 (three planes: Y, U, V; 16 bits a sample).
    I42216 {
        /// Y plane.
        y: &'a [u8],
        /// U plane.
        u: &'a [u8],
        /// V plane.
        v: &'a [u8],
    },
    /// I44416 (three planes: Y, U, V; 16 bits a sample).
    I44416 {
        /// Y plane.
        y: &'a [u8],
        /// U plane.
        u: &'a [u8],
        /// V plane.
        v: &'a [u8],
    },
    /// I44016 (three planes: Y, U, V; 16 bits a sample).
    I44016 {
        /// Y plane.
        y: &'a [u8],
        /// U plane.
        u: &'a [u8],
        /// V plane.
        v: &'a [u8],
    },
}

/// The format that the variant of `image` names.
pub open spec fn format_of(image: ImageData) -> ImageFormat {
    match image {
        ImageData::I420 { .. } => ImageFormat::I420,
        ImageData::Yv12 { .. } => ImageFormat::Yv12,
        ImageData::Nv12 { .. } => ImageFormat::Nv12,
        ImageData::I422 { .. } => ImageFormat::I422,
        ImageData::I444 { .. } => ImageFormat::I444,
        ImageData::I440 { .. } => ImageFormat::I440,
        ImageData::I42016 { .. } => ImageFormat::I42016,
        ImageData::I42216 { .. } => ImageFormat::I42216,
        ImageData::I44416 { .. } => ImageFormat::I44416,
        ImageData::I44016 { .. } => ImageFormat::I44016,
    }
}

impl<'a> ImageData<'a> {
    /// The format of this image data.
    pub fn format(&self) -> (f: ImageFormat)
        ensures
            f == format_of(*self),
            *self is I420 ==> f == ImageFormat::I420,
            *self is Yv12 ==> f == ImageFormat::Yv12,
            *self is Nv12 ==> f == ImageFormat::Nv12,
            *self is I422 ==> f == ImageFormat::I422,
            *self is I444 ==> f == ImageFormat::I444,
            *self is I440 ==> f == ImageFormat::I440,
            *self is I42016 ==> f == ImageFormat::I42016,
            *self is I42216 ==> f == ImageFormat::I42216,
            *self is I44416 ==> f == ImageFormat::I44416,
            *self is I44016 ==> f == ImageFormat::I44016,
    {
        match self {
            ImageData::I420 { .. } => ImageFormat::I420,
            ImageData::Yv12 { .. } => ImageFormat::Yv12,
            ImageData::Nv12 { .. } => ImageFormat::Nv12,
            ImageData::I422 { .. } => ImageFormat::I422,
            ImageData::I444 { .. } => ImageFormat::I444,
            ImageData::I440 { .. } => ImageFormat::I440,
            ImageData::I42016 { .. } => ImageFormat::I42016,
            ImageData::I42216 { .. } => ImageFormat::I42216,
            ImageData::I44416 { .. } => ImageFormat::I44416,
            ImageData::I44016 { .. } => ImageFormat::I44016,
        }
    }
}

/// Image data has the format that its variant names: I420 data is I420,
/// I42016 data is I42016, and so on for every variant.
pub proof fn lemma_format_is_variant(image: ImageData)
    ensures
        image is I420 ==> format_of(image) == ImageFormat::I420,
        image is Yv12 ==> format_of(image) == ImageFormat::Yv12,
        image is Nv12 ==> format_of(image) == ImageFormat::Nv12,
        image is I422 ==> format_of(image) == ImageFormat::I422,
        image is I444 ==> format_of(image) == ImageFormat::I444,
        image is I440 ==> format_of(image) == ImageFormat::I440,
        image is I42016 ==> format_of(image) == ImageFormat::I42016,
        image is I42216 ==> format_of(image) == ImageFormat::I42216,
        image is I44416 ==> format_of(image) == ImageFormat::I44416,
        image is I44016 ==> format_of(image) == ImageFormat::I44016,
{
}

} // verus!
