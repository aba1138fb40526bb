//! Which codecs this backend offers, and what it can do with each.
use vstd::prelude::*;

verus! {

/// Kind of video codec.
#[derive(Debug, Clone, Copy, PartialEq, Eq, Structural)]
pub enum VideoCodecType {
    /// VP8
    Vp8,
    /// VP9
    Vp9,
}

impl VideoCodecType {
    /// Every codec kind, in a fixed order: VP8 first, then VP9.
    fn all() -> (kinds: Vec<VideoCodecType>)
        ensures
            kinds@ == seq![VideoCodecType::Vp8, VideoCodecType::Vp9],
    {
        vec![VideoCodecType::Vp8, VideoCodecType::Vp9]
    }
}

/// What is known of one codec.
#[derive(Debug, Clone, PartialEq, Eq)]
pub struct CodecInfo {
    /// The codec.
    pub codec: VideoCodecType,
    /// Decoding capabilities.
    pub decoding: DecodingInfo,
    /// Encoding capabilities.
    pub encoding: EncodingInfo,
}

/// Decoding capabilities of a codec.
#[derive(Debug, Clone, PartialEq, Eq)]
pub struct DecodingInfo {
    /// Whether decoding is possible.
    pub supported: bool,
    /// Whether decoding is accelerated by hardware.
    pub hardware_accelerated: bool,
}

/// Encoding capabilities of a codec.
#[derive(Debug, Clone, PartialEq, Eq)]
pub struct EncodingInfo {
    /// Whether encoding is possible.
    pub supported: bool,
    /// Whether encoding is accelerated by hardware.
    pub hardware_accelerated: bool,
    /// Codec-specific profile information.
    pub profiles: EncodingProfiles,
}

/// Codec-specific encoding profile information.
#[derive(Debug, Clone, PartialEq, Eq)]
pub enum EncodingProfiles {
    /// The VP9 profiles that can be encoded.
    Vp9(Vec<Vp9EncodingProfile>),
    /// No profile information.
    NoProfiles,
}

/// A VP9 encoding profile.
#[derive(Debug, Clone, Copy, PartialEq, Eq, Structural)]
pub enum Vp9EncodingProfile {
    /// Profile 0 (8-bit 4:2:0)
    Profile0,
    /// Profile 2 (10/12-bit 4:2:0)
    Profile2,
}

/// The VP9 profiles this backend encodes: 0 and 2, in that order.
pub open spec fn vp9_encoding_profiles() -> Seq<Vp9EncodingProfile> {
    seq![Vp9EncodingProfile::Profile0, Vp9EncodingProfile::Profile2]
}

/// The profile information of a codec: none for VP8, profiles 0 and 2 for VP9.
pub open spec fn profiles_describe(profiles: EncodingProfiles, codec: VideoCodecType) -> bool {
    match codec {
        VideoCodecType::Vp8 => profiles is NoProfiles,
        VideoCodecType::Vp9 => match profiles {
            EncodingProfiles::Vp9(p) => p@ == vp9_encoding_profiles(),
            EncodingProfiles::NoProfiles => false,
        },
    }
}

/// Software decoding: always supported, never accelerated.
pub open spec fn is_software_decoding(info: DecodingInfo) -> bool {
    info.supported && !info.hardware_accelerated
}

/// Software encoding of `codec`: always supported, never accelerated, with the
/// codec's profiles.
pub open spec fn is_software_encoding(info: EncodingInfo, codec: VideoCodecType) -> bool {
    &&& info.supported
    &&& !info.hardware_accelerated
    &&& profiles_describe(info.profiles, codec)
}

/// The full description of `codec` as this backend offers it.
pub open spec fn describes(info: CodecInfo, codec: VideoCodecType) -> bool {
    &&& info.codec == codec
    &&& is_software_decoding(info.decoding)
    &&& is_software_encoding(info.encoding, codec)
}

/// Lists the codecs this backend offers.
///
/// libvpx is a software codec: VP8 and VP9 can always be decoded and encoded,
/// and neither is accelerated by hardware.
pub fn supported_codecs() -> (codecs: Vec<CodecInfo>)
    ensures
        codecs@.len() == 2,
        describes(codecs@[0], VideoCodecType::Vp8),
        describes(codecs@[1], VideoCodecType::Vp9),
{
    let kinds = VideoCodecType::all();
    let mut codecs: Vec<CodecInfo> = Vec::new();
    let mut i: usize = 0;
    while i < kinds.len()
        invariant
            kinds@ == seq![VideoCodecType::Vp8, VideoCodecType::Vp9],
            i <= kinds@.len(),
            codecs@.len() == i,
            forall|j: int| 0 <= j < i ==> describes(#[trigger] codecs@[j], kinds@[j]),
        decreases kinds@.len() - i,
    {
        let codec = kinds[i];
        codecs.push(CodecInfo { codec, decoding: decoding_info(), encoding: encoding_info(codec) });
        i = i + 1;
    }
    codecs
}

/// Decoding information: libvpx decodes in software, so decoding is always
/// supported and never hardware accelerated.
fn decoding_info() -> (info: DecodingInfo)
    ensures
        is_software_decoding(info),
{
    DecodingInfo { supported: true, hardware_accelerated: false }
}

/// Encoding information: libvpx encodes in software, so encoding is always
/// supported and never hardware accelerated.
fn encoding_info(codec: VideoCodecType) -> (info: EncodingInfo)
    ensures
        is_software_encoding(info, codec),
{
    let profiles = match codec {
        VideoCodecType::Vp8 => EncodingProfiles::NoProfiles,
        VideoCodecType::Vp9 => EncodingProfiles::Vp9(
            vec![Vp9EncodingProfile::Profile0, Vp9EncodingProfile::Profile2],
        ),
    };
    EncodingInfo { supported: true, hardware_accelerated: false, profiles }
}

} // verus!
