//! Asset conversion: magic-number content sniffing, the closed
//! image/video/unrecognized classification, and the image-to-PNG path.
//! The video path only hands the bytes on: the external transcoding tool
//! is driven by the surrounding application.
//!
//! Conversion is a pure function of the bytes: it touches no filesystem
//! and no shared state.

use vstd::prelude::*;

verus! {

/// Closed classification of a sniffed byte stream.
#[derive(Clone, Copy, Debug, PartialEq, Eq, Structural)]
pub enum MediaKind {
    Image,
    Video,
    Unrecognized,
}

/// Conversion failure of the image path, or an unrecognized header
/// (carrying the sniffed MIME string, if any).
#[derive(Debug)]
pub enum ConvertError {
    Decode,
    Encode,
    Unsupported(Option<String>),
}

/// The MIME string that magic-number sniffing yields for a byte stream,
/// if its header is recognized at all. A function of the bytes alone.
pub uninterp spec fn mime_of(data: Seq<u8>) -> Option<Seq<char>>;

/// Whether the image crate can decode the byte stream, detecting the
/// format from its content. A function of the bytes alone.
pub uninterp spec fn image_decode_ok(data: Seq<u8>) -> bool;

/// The lossless PNG re-encoding of the image a byte stream decodes to,
/// or nothing where decoding or encoding fails. A function of the bytes
/// alone.
pub uninterp spec fn png_of(data: Seq<u8>) -> Option<Seq<u8>>;

/// Relies on infer::get: magic-number sniffing of the byte header,
/// deterministic in the bytes; returns the matched MIME type, if any.
#[verifier::external_body]
fn sniff_mime(data: &Vec<u8>) -> (r: Option<String>)
    ensures
        r.deep_view() == mime_of(data@),
{
    infer::get(data.as_slice()).map(|t| t.mime_type().to_owned())
}

/// Which of the two image-path stages failed.
#[derive(Clone, Copy, Debug, PartialEq, Eq, Structural)]
enum PngError {
    Decode,
    Encode,
}

/// Relies on image::load_from_memory (decode, format detected from the
/// content) and image::DynamicImage::write_to with PNG output: both are
/// deterministic functions of the bytes, and the PNG encoder writes no
/// clock or randomness into its output.
#[verifier::external_body]
fn image_to_png(data: &Vec<u8>) -> (r: Result<Vec<u8>, PngError>)
    ensures
        r is Ok <==> png_of(data@) is Some,
        r matches Ok(v) ==> Some(v@) == png_of(data@),
        r matches Err(e) ==> (e is Decode <==> !image_decode_ok(data@)),
{
    match image::load_from_memory(data.as_slice()) {
        Err(_) => Err(PngError::Decode),
        Ok(img) => {
            let mut buf = std::io::Cursor::new(Vec::new());
            match img.write_to(&mut buf, image::ImageFormat::Png) {
                Ok(()) => Ok(buf.into_inner()),
                Err(_) => Err(PngError::Encode),
            }
        },
    }
}

/// Convert an image held in any decodable container to PNG, detecting
/// the source format from the content, not from a name or extension.
pub fn convert_unknown_image_to_png(data: &Vec<u8>) -> (r: Result<Vec<u8>, ConvertError>)
    ensures
        r is Ok <==> png_of(data@) is Some,
        r matches Ok(v) ==> Some(v@) == png_of(data@),
        r matches Err(e) ==> (e is Decode <==> !image_decode_ok(data@)) && !(e is Unsupported),
{
    match image_to_png(data) {
        Ok(v) => Ok(v),
        Err(PngError::Decode) => Err(ConvertError::Decode),
        Err(PngError::Encode) => Err(ConvertError::Encode),
    }
}

/// Whether `s` begins with `prefix`.
pub open spec fn starts_with(s: Seq<char>, prefix: Seq<char>) -> bool {
    s.len() >= prefix.len() && s.take(prefix.len() as int) == prefix
}

/// Whether the string slice begins with the given prefix.
fn has_prefix(s: &str, prefix: &str) -> (r: bool)
    ensures
        r == starts_with(s@, prefix@),
{
    let n: usize = prefix.unicode_len();
    if s.unicode_len() < n {
        return false;
    }
    let mut j: usize = 0;
    while j < n
        invariant
            j <= n,
            n == prefix@.len(),
            s@.len() >= n,
            forall|k: int| 0 <= k < j ==> s@[k] == prefix@[k],
        decreases n - j,
    {
        if s.get_char(j) != prefix.get_char(j) {
            proof {
                if s@.take(n as int) == prefix@ {
                    assert(s@.take(n as int)[j as int] == s@[j as int]);
                }
            }
            return false;
        }
        j += 1;
    }
    proof {
        assert(s@.take(n as int) =~= prefix@);
    }
    true
}

/// How a sniffed MIME string classifies: the `image/` and `video/` type
/// families are the two supported ones; everything else, and a stream
/// with no recognized header, is unrecognized.
pub open spec fn classify_spec(mime: Option<Seq<char>>) -> MediaKind {
    match mime {
        Option::None => MediaKind::Unrecognized,
        Option::Some(m) => if starts_with(m, "image/"@) {
            MediaKind::Image
        } else if starts_with(m, "video/"@) {
            MediaKind::Video
        } else {
            MediaKind::Unrecognized
        },
    }
}

/// Classify a sniffed MIME string.
pub fn classify_mime(mime: &Option<String>) -> (k: MediaKind)
    ensures
        k == classify_spec(mime.deep_view()),
{
    match mime {
        Option::None => MediaKind::Unrecognized,
        Option::Some(m) => {
            if has_prefix(m.as_str(), "image/") {
                MediaKind::Image
            } else if has_prefix(m.as_str(), "video/") {
                MediaKind::Video
            } else {
                MediaKind::Unrecognized
            }
        },
    }
}

/// What conversion decides for a byte stream.
#[derive(Debug)]
pub enum ConvertAction {
    /// An image: the PNG re-encoding.
    Png(Vec<u8>),
    /// A video: these bytes must go to the external transcoding tool.
    Transcode(Vec<u8>),
    /// Conversion failed.
    Failed(ConvertError),
}

/// Mathematical model of a conversion result.
pub enum ConvertModel {
    Png(Seq<u8>),
    Video(Seq<u8>),
    FailedDecode,
    FailedEncode,
    FailedUnsupported(Option<Seq<char>>),
}

impl View for ConvertAction {
    type V = ConvertModel;

    open spec fn view(&self) -> ConvertModel {
        match self {
            ConvertAction::Png(v) => ConvertModel::Png(v@),
            ConvertAction::Transcode(v) => ConvertModel::Video(v@),
            ConvertAction::Failed(e) => match e {
                ConvertError::Decode => ConvertModel::FailedDecode,
                ConvertError::Encode => ConvertModel::FailedEncode,
                ConvertError::Unsupported(m) => ConvertModel::FailedUnsupported(m.deep_view()),
            },
        }
    }
}

/// What conversion returns for a byte stream: a pure function of the
/// bytes.
pub open spec fn convert_model(data: Seq<u8>) -> ConvertModel {
    match classify_spec(mime_of(data)) {
        MediaKind::Image => match png_of(data) {
            Option::Some(p) => ConvertModel::Png(p),
            Option::None => if image_decode_ok(data) {
                ConvertModel::FailedEncode
            } else {
                ConvertModel::FailedDecode
            },
        },
        MediaKind::Video => ConvertModel::Video(data),
        MediaKind::Unrecognized => ConvertModel::FailedUnsupported(mime_of(data)),
    }
}

/// Convert one asset's bytes: sniff the header, re-encode an image as
/// PNG, hand a video on to the transcoding step, reject everything else.
/// Performs no filesystem access.
pub fn convert(data: Vec<u8>) -> (r: ConvertAction)
    ensures
        r@ == convert_model(data@),
{
    let mime = sniff_mime(&data);
    match classify_mime(&mime) {
        MediaKind::Image => match convert_unknown_image_to_png(&data) {
            Ok(png) => ConvertAction::Png(png),
            Err(e) => ConvertAction::Failed(e),
        },
        MediaKind::Video => ConvertAction::Transcode(data),
        MediaKind::Unrecognized => ConvertAction::Failed(ConvertError::Unsupported(mime)),
    }
}

/// A byte stream converts to an unsupported-format failure exactly when
/// its header matches no image or video signature; and conversion writes
/// nothing anywhere: it is a pure function.
pub proof fn lemma_convert_unsupported(data: Seq<u8>)
    ensures
        (convert_model(data) is FailedUnsupported) <==> (classify_spec(mime_of(data))
            is Unrecognized),
{
}

/// Idempotence: conversion is a function of the bytes alone, so two runs
/// over the same bytes decide the same, with byte-identical PNG output.
pub proof fn lemma_convert_idempotent(data1: Seq<u8>, data2: Seq<u8>)
    requires
        data1 == data2,
    ensures
        convert_model(data1) == convert_model(data2),
{
}

} // verus!
