use widget_html::data_uri::{data_uri, is_encodable_len};
use widget_html::decimal::{signed_text, unsigned_text};
use widget_html::mime::{image_format, image_mime_type, ImageFormat};

#[test]
fn data_uri_holds_the_base64_text() {
    assert_eq!(data_uri("text/plain", b""), "data:text/plain;base64,");
    assert_eq!(data_uri("text/plain", b"f"), "data:text/plain;base64,Zg==");
    assert_eq!(data_uri("text/plain", b"fo"), "data:text/plain;base64,Zm8=");
    assert_eq!(data_uri("text/plain", b"foo"), "data:text/plain;base64,Zm9v");
    assert_eq!(data_uri("text/plain", b"foob"), "data:text/plain;base64,Zm9vYg==");
    assert_eq!(data_uri("text/plain", b"fooba"), "data:text/plain;base64,Zm9vYmE=");
    assert_eq!(data_uri("text/plain", b"foobar"), "data:text/plain;base64,Zm9vYmFy");
}

#[test]
fn data_uri_uses_the_whole_alphabet() {
    assert_eq!(data_uri("a/b", &[0xFB, 0xFF]), "data:a/b;base64,+/8=");
    assert_eq!(data_uri("a/b", &[0x00, 0x00, 0x00]), "data:a/b;base64,AAAA");
    assert_eq!(data_uri("a/b", &[0xFF, 0xFF, 0xFF]), "data:a/b;base64,////");
    assert_eq!(data_uri("a/b", &[0x69, 0xB7, 0x1D]), "data:a/b;base64,abcd");
}

#[test]
fn encodable_lengths() {
    assert!(is_encodable_len(0));
    assert!(is_encodable_len(1));
    assert!(is_encodable_len(1 << 20));
    assert!(!is_encodable_len(usize::MAX));
    assert!(!is_encodable_len(isize::MAX as usize));
    assert!(is_encodable_len(isize::MAX as usize / 4 * 3));
    let groups = isize::MAX as usize / 4;
    assert!(is_encodable_len(groups * 3));
    assert!(!is_encodable_len(groups * 3 + 1));
}

#[test]
fn decimal_texts() {
    assert_eq!(unsigned_text(0), "0");
    assert_eq!(unsigned_text(7), "7");
    assert_eq!(unsigned_text(10), "10");
    assert_eq!(unsigned_text(1234567890), "1234567890");
    assert_eq!(signed_text(0), "0");
    assert_eq!(signed_text(-1), "-1");
    assert_eq!(signed_text(-1234567890), "-1234567890");
    assert_eq!(signed_text(i128::MIN), i128::MIN.to_string());
}

#[test]
fn png_signature_is_recognized() {
    let bytes = [0x89, 0x50, 0x4E, 0x47, 0x0D, 0x0A, 0x1A, 0x0A, 0x00];
    assert_eq!(image_format(&bytes), Some(ImageFormat::Png));
    assert_eq!(image_mime_type(&bytes), Some("image/png"));
    assert_eq!(image_format(&bytes[..8]), Some(ImageFormat::Png));
    assert_eq!(image_format(&bytes[..7]), None);
}

#[test]
fn jpeg_signature_is_recognized() {
    assert_eq!(image_mime_type(&[0xFF, 0xD8, 0xFF, 0xE0]), Some("image/jpeg"));
    assert_eq!(image_mime_type(&[0xFF, 0xD8, 0xFF]), Some("image/jpeg"));
    assert_eq!(image_mime_type(&[0xFF, 0xD8]), None);
    assert_eq!(image_mime_type(&[0xFF, 0xD8, 0xFE]), None);
}

#[test]
fn gif_signatures_are_recognized() {
    assert_eq!(image_mime_type(b"GIF87a..."), Some("image/gif"));
    assert_eq!(image_mime_type(b"GIF89a"), Some("image/gif"));
    assert_eq!(image_mime_type(b"GIF88a"), None);
    assert_eq!(image_mime_type(b"GIF89"), None);
}

#[test]
fn webp_signature_is_recognized() {
    assert_eq!(image_mime_type(b"RIFF\x10\x00\x00\x00WEBPVP8 "), Some("image/webp"));
    assert_eq!(image_mime_type(b"RIFF\x10\x00\x00\x00WEBPVP"), Some("image/webp"));
    assert_eq!(image_mime_type(b"RIFF\x10\x00\x00\x00WAVEfmt "), None);
    assert_eq!(image_mime_type(b"RIFF\x10\x00\x00\x00WEBPV"), None);
    assert_eq!(image_mime_type(b"RIFX\x10\x00\x00\x00WEBPVP8 "), None);
}

#[test]
fn bmp_and_icon_signatures_are_recognized() {
    assert_eq!(image_mime_type(b"BM\x00\x00"), Some("image/bmp"));
    assert_eq!(image_mime_type(b"BM"), Some("image/bmp"));
    assert_eq!(image_mime_type(&[0x00, 0x00, 0x01, 0x00, 0x01]), Some("image/x-icon"));
    assert_eq!(image_mime_type(&[0x00, 0x00, 0x02, 0x00]), Some("image/x-icon"));
    assert_eq!(image_mime_type(&[0x00, 0x00, 0x03, 0x00]), None);
    assert_eq!(image_format(&[0x00, 0x00, 0x01, 0x00]), Some(ImageFormat::Icon));
    assert_eq!(image_format(b"BM"), Some(ImageFormat::Bmp));
}

#[test]
fn other_bytes_are_not_recognized() {
    assert_eq!(image_mime_type(b""), None);
    assert_eq!(image_mime_type(b"B"), None);
    assert_eq!(image_mime_type(b"<svg></svg>"), None);
    assert_eq!(image_mime_type(b"not an image"), None);
    assert_eq!(image_mime_type(&[0x50, 0x4E, 0x47]), None);
}

#[test]
fn formats_have_their_mime_types() {
    assert_eq!(ImageFormat::Png.mime_type(), "image/png");
    assert_eq!(ImageFormat::Jpeg.mime_type(), "image/jpeg");
    assert_eq!(ImageFormat::Gif.mime_type(), "image/gif");
    assert_eq!(ImageFormat::WebP.mime_type(), "image/webp");
    assert_eq!(ImageFormat::Bmp.mime_type(), "image/bmp");
    assert_eq!(ImageFormat::Icon.mime_type(), "image/x-icon");
}
