//! Tests of the asset converter and the single-asset export pipeline.

use std::io::Cursor;

use sticker_export::export::{
    error_message, export_single_sticker, fetch_plan, finish_transcode, ExportError, ExportStep,
    FetchPlan,
};
use sticker_export::media::{classify_mime, convert, ConvertAction, ConvertError, MediaKind};

/// A solid-colour image encoded as PNG bytes.
fn png_bytes(width: u32, height: u32) -> Vec<u8> {
    let img = image::DynamicImage::ImageRgba8(image::RgbaImage::from_pixel(
        width,
        height,
        image::Rgba([10, 200, 30, 255]),
    ));
    let mut buf = Cursor::new(Vec::new());
    img.write_to(&mut buf, image::ImageFormat::Png).unwrap();
    buf.into_inner()
}

/// The same image encoded as BMP bytes.
fn bmp_bytes(width: u32, height: u32) -> Vec<u8> {
    let img = image::DynamicImage::ImageRgba8(image::RgbaImage::from_pixel(
        width,
        height,
        image::Rgba([10, 200, 30, 255]),
    ));
    let mut buf = Cursor::new(Vec::new());
    img.write_to(&mut buf, image::ImageFormat::Bmp).unwrap();
    buf.into_inner()
}

#[test]
fn convert_png_keeps_dimensions() {
    let input = png_bytes(100, 100);
    match convert(input) {
        ConvertAction::Png(out) => {
            assert_eq!(image::guess_format(&out).unwrap(), image::ImageFormat::Png);
            let decoded = image::load_from_memory(&out).unwrap();
            assert_eq!(decoded.width(), 100);
            assert_eq!(decoded.height(), 100);
        }
        other => panic!("expected a PNG conversion, got {:?}", other),
    }
}

#[test]
fn convert_bmp_reencodes_as_png() {
    let input = bmp_bytes(12, 7);
    match convert(input.clone()) {
        ConvertAction::Png(out) => {
            assert_ne!(out, input);
            assert_eq!(image::guess_format(&out).unwrap(), image::ImageFormat::Png);
            let decoded = image::load_from_memory(&out).unwrap();
            assert_eq!(decoded.width(), 12);
            assert_eq!(decoded.height(), 7);
        }
        other => panic!("expected a PNG conversion, got {:?}", other),
    }
}

#[test]
fn convert_unknown_header_is_unsupported() {
    let input = vec![0x00u8, 0x01, 0x02, 0x03, 0x04, 0x05, 0x06, 0x07];
    match convert(input) {
        ConvertAction::Failed(ConvertError::Unsupported(mime)) => {
            assert_eq!(mime, None);
        }
        other => panic!("expected an unsupported-format failure, got {:?}", other),
    }
}

#[test]
fn convert_is_idempotent() {
    let input = png_bytes(33, 44);
    let first = match convert(input.clone()) {
        ConvertAction::Png(out) => out,
        other => panic!("expected a PNG conversion, got {:?}", other),
    };
    let second = match convert(input) {
        ConvertAction::Png(out) => out,
        other => panic!("expected a PNG conversion, got {:?}", other),
    };
    assert_eq!(first, second);
}

#[test]
fn convert_webm_header_goes_to_transcode() {
    // An EBML header, enough for the sniffer to see a WebM container.
    let mut input = vec![0x1A, 0x45, 0xDF, 0xA3];
    input.extend_from_slice(&[
        0x9F, 0x42, 0x86, 0x81, 0x01, 0x42, 0xF7, 0x81, 0x01, 0x42, 0xF2, 0x81, 0x04, 0x42, 0xF3,
        0x81, 0x08, 0x42, 0x82, 0x84, 0x77, 0x65, 0x62, 0x6D,
    ]);
    input.resize(300, 0);
    match convert(input.clone()) {
        ConvertAction::Transcode(bytes) => assert_eq!(bytes, input),
        other => panic!("expected a transcode hand-off, got {:?}", other),
    }
}

#[test]
fn classify_mime_prefixes() {
    assert_eq!(classify_mime(&Some("image/png".to_owned())), MediaKind::Image);
    assert_eq!(classify_mime(&Some("video/webm".to_owned())), MediaKind::Video);
    assert_eq!(classify_mime(&Some("audio/mpeg".to_owned())), MediaKind::Unrecognized);
    assert_eq!(classify_mime(&None), MediaKind::Unrecognized);
}

#[test]
fn export_single_sticker_names_png() {
    let input = png_bytes(100, 100);
    match export_single_sticker("AgADBAAD".to_owned(), input) {
        ExportStep::Done(asset) => {
            assert_eq!(asset.filename(), "AgADBAAD.png");
        }
        other => panic!("expected a finished export, got {:?}", other),
    }
}

#[test]
fn export_single_sticker_unsupported() {
    let input = vec![0u8; 16];
    match export_single_sticker("uid".to_owned(), input) {
        ExportStep::Failed(ExportError::Unsupported(mime)) => assert_eq!(mime, None),
        other => panic!("expected an unsupported-format failure, got {:?}", other),
    }
}

#[test]
fn finish_transcode_names_gif() {
    let gif = vec![0x47u8, 0x49, 0x46];
    match finish_transcode("uid42".to_owned(), Ok(gif.clone())) {
        Ok(asset) => {
            assert_eq!(asset.filename(), "uid42.gif");
            assert_eq!(asset.payload, gif);
        }
        Err(e) => panic!("expected a finished export, got {:?}", e),
    }
}

#[test]
fn finish_transcode_reports_tool_diagnostics() {
    match finish_transcode("uid".to_owned(), Err("pixel format unsupported".to_owned())) {
        Err(ExportError::Transcode(diag)) => assert_eq!(diag, "pixel format unsupported"),
        other => panic!("expected a transcode failure, got {:?}", other),
    }
}

#[test]
fn error_messages_name_the_failed_stage() {
    assert_eq!(error_message(&ExportError::MetadataFetch), "Failed to get file info");
    assert_eq!(error_message(&ExportError::Download), "Failed to download file");
    assert_eq!(error_message(&ExportError::LocalRead), "Failed to read file");
    assert_eq!(error_message(&ExportError::Decode), "Failed to convert image: decode failed");
    assert_eq!(
        error_message(&ExportError::Encode),
        "Failed to convert image: PNG encoding failed"
    );
    assert_eq!(
        error_message(&ExportError::Transcode("exit status 1".to_owned())),
        "Failed to convert video to GIF: exit status 1"
    );
    assert_eq!(error_message(&ExportError::Unsupported(None)), "Unsupported file type");
    assert_eq!(error_message(&ExportError::Archive), "Failed to build zip archive");
    assert_eq!(
        error_message(&ExportError::StateStore),
        "Failed to get state, state manager error"
    );
    assert_eq!(error_message(&ExportError::InvalidRequest), "Invalid sticker pack");
}

#[test]
fn fetch_plan_splits_local_and_remote() {
    assert_eq!(fetch_plan(&"/var/lib/bot/files/abc".to_owned()), FetchPlan::LocalRead);
    assert_eq!(fetch_plan(&"documents/file_42".to_owned()), FetchPlan::Download);
    assert_eq!(fetch_plan(&"".to_owned()), FetchPlan::Download);
}
