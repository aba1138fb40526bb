//! The decoder: the order of its calls, and the frames it hands out.
use vstd::prelude::*;

use crate::error::{Error, CODEC_ERROR, CODEC_OK, CODEC_UNSUP_FEATURE};
use crate::image::ImageFormat;

verus! {

/// Codec of a decoder.
#[derive(Debug, Clone, Copy, PartialEq, Eq, Structural)]
pub enum DecoderCodec {
    /// VP8
    Vp8,
    /// VP9
    Vp9,
}

/// The settings a decoder is made with.
#[derive(Debug, Clone)]
pub struct DecoderConfig {
    /// The codec to decode.
    pub codec: DecoderCodec,
}

impl DecoderConfig {
    /// Decoder settings for `codec`.
    pub fn new(codec: DecoderCodec) -> (c: Self)
        ensures
            c.codec == codec,
    {
        Self { codec }
    }
}

/// What libvpx says of an image it decoded (`vpx_image`): its format (`None`
/// for one that `ImageFormat` does not name), its displayed size, and the
/// stride of each plane in bytes.
#[derive(Debug, Clone, Copy, PartialEq, Eq)]
pub struct ImageInfo {
    /// Format (`fmt`).
    pub format: Option<ImageFormat>,
    /// Displayed width (`d_w`).
    pub width: u32,
    /// Displayed height (`d_h`).
    pub height: u32,
    /// Stride of the Y plane (`stride[0]`).
    pub y_stride: usize,
    /// Stride of the U plane (`stride[1]`).
    pub u_stride: usize,
    /// Stride of the V plane (`stride[2]`).
    pub v_stride: usize,
}

/// The formats a decoder hands out: I420 and its 16-bit form.
pub open spec fn decodable_format(format: Option<ImageFormat>) -> bool {
    format == Some(ImageFormat::I420) || format == Some(ImageFormat::I42016)
}

/// Size of the Y plane: one stride per row.
pub open spec fn y_plane_len(info: ImageInfo) -> int {
    info.height * info.y_stride
}

/// Size of the U plane: one stride per row, half as many rows rounded up.
pub open spec fn u_plane_len(info: ImageInfo) -> int {
    ((info.height + 1) / 2) * info.u_stride
}

/// Size of the V plane: one stride per row, half as many rows rounded up.
pub open spec fn v_plane_len(info: ImageInfo) -> int {
    ((info.height + 1) / 2) * info.v_stride
}

impl ImageInfo {
    /// The sizes of the Y, U and V planes of the image, or `None` where one
    /// of them does not fit in `usize`.
    pub fn plane_lengths(&self) -> (r: Option<(usize, usize, usize)>)
        ensures
            r is Some <==> (y_plane_len(*self) <= usize::MAX && u_plane_len(*self) <= usize::MAX
                && v_plane_len(*self) <= usize::MAX),
            r matches Some(l) ==> l.0 == y_plane_len(*self) && l.1 == u_plane_len(*self) && l.2
                == v_plane_len(*self),
    {
        let rows = self.height as usize;
        let chroma_rows = (self.height / 2 + self.height % 2) as usize;
        let y = rows.checked_mul(self.y_stride);
        let u = chroma_rows.checked_mul(self.u_stride);
        let v = chroma_rows.checked_mul(self.v_stride);
        match (y, u, v) {
            (Some(y), Some(u), Some(v)) => Some((y, u, v)),
            _ => None,
        }
    }
}

/// A VP8 / VP9 decoder: the state that decides what is handed to libvpx.
///
/// It keeps its codec and whether decoded frames are still to be taken out
/// (libvpx's frame iterator is not at its start).
pub struct Decoder {
    codec: DecoderCodec,
    iter_active: bool,
}

impl Decoder {
    /// The codec.
    pub closed spec fn spec_codec(&self) -> DecoderCodec {
        self.codec
    }

    /// Whether decoded frames may still be waiting to be taken out.
    pub closed spec fn spec_iter_active(&self) -> bool {
        self.iter_active
    }

    /// A decoder for `config`, given libvpx's status code of
    /// `vpx_codec_dec_init_ver` and the detail text of the context: made
    /// where libvpx succeeded, with no frame pending.
    pub fn new(config: DecoderConfig, init_code: u32, detail: Option<String>) -> (res: Result<
        Self,
        Error,
    >)
        ensures
            res is Ok <==> init_code == CODEC_OK,
            res matches Ok(d) ==> d.spec_codec() == config.codec && !d.spec_iter_active(),
            res matches Err(e) ==> {
                &&& e.spec_code() == init_code
                &&& e.spec_function() == "vpx_codec_dec_init_ver"
                &&& e.spec_reason() is None
                &&& e.spec_detail() == detail
            },
    {
        Error::check(init_code, "vpx_codec_dec_init_ver", detail)?;
        Ok(Decoder { codec: config.codec, iter_active: false })
    }

    /// Whether decoded frames may still be waiting to be taken out.
    pub fn iter_active(&self) -> (b: bool)
        ensures
            b == self.spec_iter_active(),
    {
        self.iter_active
    }

    /// Refuses a call while decoded frames may still be waiting: once
    /// `next_frame` has handed out a frame, it must be called until it
    /// reports that none is left.
    fn ensure_iter_drained(&self, function: &'static str) -> (res: Result<(), Error>)
        ensures
            res is Ok <==> !self.spec_iter_active(),
            res matches Err(e) ==> {
                &&& e.spec_code() == CODEC_ERROR
                &&& e.spec_function() == function
                &&& e.spec_reason() == Some(
                    "still need to call shiguredo_libvpx::Decoder::next_frame()",
                )
                &&& e.spec_detail() is None
            },
    {
        if self.iter_active {
            return Err(
                Error::with_reason(
                    CODEC_ERROR,
                    function,
                    "still need to call shiguredo_libvpx::Decoder::next_frame()",
                ),
            );
        }
        Ok(())
    }

    /// Checks that compressed data may be handed to libvpx now: refused while
    /// decoded frames are still to be taken out.
    pub fn decode(&self) -> (res: Result<(), Error>)
        ensures
            res is Ok <==> !self.spec_iter_active(),
            res matches Err(e) ==> {
                &&& e.spec_code() == CODEC_ERROR
                &&& e.spec_function() == "shiguredo_libvpx::Decoder::decode"
                &&& e.spec_reason() == Some(
                    "still need to call shiguredo_libvpx::Decoder::next_frame()",
                )
                &&& e.spec_detail() is None
            },
    {
        self.ensure_iter_drained("shiguredo_libvpx::Decoder::decode")
    }

    /// Checks that the end of the input may be signalled to libvpx now:
    /// refused while decoded frames are still to be taken out.
    pub fn finish(&self) -> (res: Result<(), Error>)
        ensures
            res is Ok <==> !self.spec_iter_active(),
            res matches Err(e) ==> {
                &&& e.spec_code() == CODEC_ERROR
                &&& e.spec_function() == "shiguredo_libvpx::Decoder::finish"
                &&& e.spec_reason() == Some(
                    "still need to call shiguredo_libvpx::Decoder::next_frame()",
                )
                &&& e.spec_detail() is None
            },
    {
        self.ensure_iter_drained("shiguredo_libvpx::Decoder::finish")
    }

    /// Takes in libvpx's status code of `vpx_codec_decode`, called with
    /// compressed data (after `decode`) or with none to signal the end of the
    /// input (after `finish`): `Ok` for success, else an error that names
    /// `vpx_codec_decode` with the code and the detail of the context.
    pub fn complete_decode(&self, code: u32, detail: Option<String>) -> (res: Result<(), Error>)
        ensures
            res is Ok <==> code == CODEC_OK,
            res matches Err(e) ==> {
                &&& e.spec_code() == code
                &&& e.spec_function() == "vpx_codec_decode"
                &&& e.spec_reason() is None
                &&& e.spec_detail() == detail
            },
    {
        Error::check(code, "vpx_codec_decode", detail)
    }

    /// Takes in what libvpx's `vpx_codec_get_frame` handed out: `image` is
    /// `None` where it handed out nothing, and `iter_active` says whether its
    /// frame iterator was left away from its start.
    ///
    /// With no image left the iterator is reset and `Ok(None)` comes back. An
    /// image in a format other than I420 or its 16-bit form is refused
    /// ("unsupported image format") and the iterator reset. Any other image
    /// is handed out.
    pub fn next_frame(&mut self, image: Option<ImageInfo>, iter_active: bool) -> (res: Result<
        Option<ImageInfo>,
        Error,
    >)
        ensures
            final(self).spec_codec() == old(self).spec_codec(),
            image is None ==> res == Ok::<Option<ImageInfo>, Error>(None)
                && !final(self).spec_iter_active(),
            image matches Some(i) ==> {
                if decodable_format(i.format) {
                    &&& res == Ok::<Option<ImageInfo>, Error>(Some(i))
                    &&& final(self).spec_iter_active() == iter_active
                } else {
                    &&& res matches Err(e)
                    &&& e.spec_code() == CODEC_UNSUP_FEATURE
                    &&& e.spec_function() == "vpx_codec_get_frame"
                    &&& e.spec_reason() == Some("unsupported image format")
                    &&& e.spec_detail() is None
                    &&& !final(self).spec_iter_active()
                }
            },
    {
        match image {
            None => {
                self.iter_active = false;
                Ok(None)
            },
            Some(info) => {
                let supported = match info.format {
                    Some(ImageFormat::I420) | Some(ImageFormat::I42016) => true,
                    _ => false,
                };
                if !supported {
                    self.iter_active = false;
                    return Err(
                        Error::with_reason(
                            CODEC_UNSUP_FEATURE,
                            "vpx_codec_get_frame",
                            "unsupported image format",
                        ),
                    );
                }
                self.iter_active = iter_active;
                Ok(Some(info))
            },
        }
    }
}

/// A decoded frame (I420, 8 or 16 bits a sample): its planes and what libvpx
/// says of it.
pub struct DecodedFrame<'a> {
    info: ImageInfo,
    y: &'a [u8],
    u: &'a [u8],
    v: &'a [u8],
}

impl<'a> DecodedFrame<'a> {
    /// A decoded frame is I420 or its 16-bit form, and each plane is as long
    /// as the image's rows (half of them, rounded up, for U and V) times the
    /// plane's stride.
    #[verifier::type_invariant]
    spec fn inv(self) -> bool {
        &&& decodable_format(self.info.format)
        &&& self.y@.len() == y_plane_len(self.info)
        &&& self.u@.len() == u_plane_len(self.info)
        &&& self.v@.len() == v_plane_len(self.info)
    }

    /// What libvpx says of the image.
    pub closed spec fn spec_info(&self) -> ImageInfo {
        self.info
    }

    /// The Y, U and V planes.
    pub closed spec fn spec_planes(&self) -> (Seq<u8>, Seq<u8>, Seq<u8>) {
        (self.y@, self.u@, self.v@)
    }

    /// A decoded frame from an image that `Decoder::next_frame` handed out
    /// and its three planes, each as long as the image's rows times stride.
    pub fn new(info: ImageInfo, y: &'a [u8], u: &'a [u8], v: &'a [u8]) -> (f: Self)
        requires
            decodable_format(info.format),
            y@.len() == y_plane_len(info),
            u@.len() == u_plane_len(info),
            v@.len() == v_plane_len(info),
        ensures
            f.spec_info() == info,
            f.spec_planes() == (y@, u@, v@),
    {
        DecodedFrame { info, y, u, v }
    }

    /// Whether the frame has 16 bits a sample (format I42016): VP9 profile 2
    /// streams of 10 bits are handed out so, as little-endian 16-bit values.
    pub fn is_high_depth(&self) -> (b: bool)
        ensures
            b == (self.spec_info().format == Some(ImageFormat::I42016)),
            !b ==> self.spec_info().format == Some(ImageFormat::I420),
    {
        proof {
            use_type_invariant(self);
        }
        match self.info.format {
            Some(ImageFormat::I42016) => true,
            _ => false,
        }
    }

    /// The Y plane (rows times the Y stride bytes).
    pub fn y_plane(&self) -> (p: &'a [u8])
        ensures
            p@ == self.spec_planes().0,
            p@.len() == y_plane_len(self.spec_info()),
    {
        proof {
            use_type_invariant(self);
        }
        self.y
    }

    /// The U plane (half the rows, rounded up, times the U stride bytes).
    pub fn u_plane(&self) -> (p: &'a [u8])
        ensures
            p@ == self.spec_planes().1,
            p@.len() == u_plane_len(self.spec_info()),
    {
        proof {
            use_type_invariant(self);
        }
        self.u
    }

    /// The V plane (half the rows, rounded up, times the V stride bytes).
    pub fn v_plane(&self) -> (p: &'a [u8])
        ensures
            p@ == self.spec_planes().2,
            p@.len() == v_plane_len(self.spec_info()),
    {
        proof {
            use_type_invariant(self);
        }
        self.v
    }

    /// Stride of the Y plane, in bytes.
    pub fn y_stride(&self) -> (s: usize)
        ensures
            s == self.spec_info().y_stride,
    {
        self.info.y_stride
    }

    /// Stride of the U plane, in bytes.
    pub fn u_stride(&self) -> (s: usize)
        ensures
            s == self.spec_info().u_stride,
    {
        self.info.u_stride
    }

    /// Stride of the V plane, in bytes.
    pub fn v_stride(&self) -> (s: usize)
        ensures
            s == self.spec_info().v_stride,
    {
        self.info.v_stride
    }

    /// Width of the frame.
    pub fn width(&self) -> (w: usize)
        ensures
            w == self.spec_info().width,
    {
        self.info.width as usize
    }

    /// Height of the frame.
    pub fn height(&self) -> (h: usize)
        ensures
            h == self.spec_info().height,
    {
        self.info.height as usize
    }
}

/// The planes of a decoded 4:2:0 image: the Y plane has one stride per row of
/// the image; the U and V planes have one stride per chroma row, where the
/// chroma rows are half the image's rows, rounded up (`rows` with
/// `2 * rows - 1 <= height <= 2 * rows`).
pub proof fn lemma_decoded_plane_rows(info: ImageInfo, rows: int)
    requires
        2 * rows - 1 <= info.height <= 2 * rows,
    ensures
        y_plane_len(info) == info.height * info.y_stride,
        u_plane_len(info) == rows * info.u_stride,
        v_plane_len(info) == rows * info.v_stride,
{
    assert((info.height + 1) / 2 == rows);
}

/// A decoder hands out I420 images and their 16-bit form only: no other
/// format, and no format that `ImageFormat` does not name.
pub proof fn lemma_decodable_formats()
    ensures
        decodable_format(Some(ImageFormat::I420)) == true,
        decodable_format(Some(ImageFormat::Yv12)) == false,
        decodable_format(Some(ImageFormat::Nv12)) == false,
        decodable_format(Some(ImageFormat::I422)) == false,
        decodable_format(Some(ImageFormat::I444)) == false,
        decodable_format(Some(ImageFormat::I440)) == false,
        decodable_format(Some(ImageFormat::I42016)) == true,
        decodable_format(Some(ImageFormat::I42216)) == false,
        decodable_format(Some(ImageFormat::I44416)) == false,
        decodable_format(Some(ImageFormat::I44016)) == false,
        !decodable_format(None),
{
}

} // verus!
