use cdn::media::{classify_content_type, classify_subtype, ImageKind, MediaClass};

#[test]
fn subtype_jpeg_is_accepted() {
    assert_eq!(classify_subtype("jpeg"), MediaClass::Accepted(ImageKind::Jpeg));
}

#[test]
fn subtype_png_is_accepted() {
    assert_eq!(classify_subtype("png"), MediaClass::Accepted(ImageKind::Png));
}

#[test]
fn subtype_gif_is_accepted() {
    assert_eq!(classify_subtype("gif"), MediaClass::Accepted(ImageKind::Gif));
}

#[test]
fn other_subtypes_are_unsupported() {
    for subtype in ["plain", "jpg", "webp", "svg", "", "jpeg ", "JPEG", "pngx", "gi", "jpe", "\u{e9}\u{e9}\u{e9}"] {
        assert_eq!(classify_subtype(subtype), MediaClass::Unsupported, "{:?}", subtype);
    }
}

#[test]
fn extensions_follow_the_format() {
    assert_eq!(ImageKind::Jpeg.extension(), "jpg");
    assert_eq!(ImageKind::Png.extension(), "png");
    assert_eq!(ImageKind::Gif.extension(), "gif");
}

#[test]
fn content_type_is_read_by_its_subtype() {
    assert_eq!(classify_content_type(Some("image/jpeg")), MediaClass::Accepted(ImageKind::Jpeg));
    assert_eq!(classify_content_type(Some("image/png")), MediaClass::Accepted(ImageKind::Png));
    assert_eq!(classify_content_type(Some("image/gif")), MediaClass::Accepted(ImageKind::Gif));
}

#[test]
fn content_type_is_read_without_regard_to_case() {
    assert_eq!(classify_content_type(Some("IMAGE/JPEG")), MediaClass::Accepted(ImageKind::Jpeg));
    assert_eq!(classify_content_type(Some("Image/Png")), MediaClass::Accepted(ImageKind::Png));
}

#[test]
fn content_type_parameters_do_not_count() {
    assert_eq!(
        classify_content_type(Some("image/gif; charset=utf-8")),
        MediaClass::Accepted(ImageKind::Gif)
    );
    assert_eq!(
        classify_content_type(Some("image/png;q=0.8")),
        MediaClass::Accepted(ImageKind::Png)
    );
}

#[test]
fn text_plain_is_unsupported() {
    assert_eq!(classify_content_type(Some("text/plain")), MediaClass::Unsupported);
}

#[test]
fn other_content_types_are_unsupported() {
    for text in ["image/webp", "image/svg+xml", "application/octet-stream", "*/*", "image/jpg"] {
        assert_eq!(classify_content_type(Some(text)), MediaClass::Unsupported, "{:?}", text);
    }
}

#[test]
fn unreadable_content_type_is_unsupported() {
    for text in ["", "jpeg", "image", "image/", "/jpeg", "image jpeg", "image/jp eg", "image/jpeg;charset"] {
        assert_eq!(classify_content_type(Some(text)), MediaClass::Unsupported, "{:?}", text);
    }
}

#[test]
fn missing_content_type_is_unsupported() {
    assert_eq!(classify_content_type(None), MediaClass::Unsupported);
}
