use pastebin::{
    allowed_lowercase_type, content_disposition, content_type_or_octet_stream,
    image_lowercase_type, is_allowed_mime, is_image, response_content_type,
};

#[test]
fn images_and_listed_types_are_allowed() {
    for ct in [
        "image/png",
        "image/jpeg",
        "application/pdf",
        "text/plain",
        "application/zip",
        "application/x-zip-compressed",
        "application/json",
        "text/csv",
    ] {
        assert!(is_allowed_mime(ct), "{}", ct);
    }
}

#[test]
fn allowed_types_are_case_insensitive() {
    assert!(is_allowed_mime("IMAGE/PNG"));
    assert!(is_allowed_mime("Application/PDF"));
    assert!(is_image("Image/Gif"));
    assert!(!allowed_lowercase_type("IMAGE/PNG"));
    assert!(allowed_lowercase_type("image/png"));
}

#[test]
fn other_types_are_refused() {
    for ct in [
        "",
        "image",
        "text/html",
        "application/x-sh",
        "application/octet-stream",
        "text/plain; charset=utf-8",
        " image/png",
    ] {
        assert!(!is_allowed_mime(ct), "{}", ct);
    }
}

#[test]
fn image_detection() {
    assert!(is_image("image/svg+xml"));
    assert!(!is_image("application/pdf"));
    assert!(image_lowercase_type("image/"));
    assert!(!image_lowercase_type("images/x"));
}

#[test]
fn every_image_is_allowed() {
    for ct in ["image/x-weird", "IMAGE/whatever", "image/"] {
        assert!(is_image(ct));
        assert!(is_allowed_mime(ct));
    }
}

#[test]
fn response_content_type_parses_or_falls_back() {
    assert_eq!(response_content_type("image/png"), "image/png");
    assert_eq!(response_content_type("text/plain; charset=utf-8"), "text/plain; charset=utf-8");
    assert_eq!(response_content_type("not a type"), "application/octet-stream");
    assert_eq!(response_content_type(""), "application/octet-stream");
    assert_eq!(content_type_or_octet_stream(None), "application/octet-stream");
    assert_eq!(content_type_or_octet_stream(Some("text/csv".to_string())), "text/csv");
}

#[test]
fn disposition_of_images_and_downloads() {
    assert_eq!(content_disposition(true, "a\"b.png"), "inline");
    assert_eq!(content_disposition(false, "report.pdf"), "attachment; filename=\"report.pdf\"");
    assert_eq!(content_disposition(false, "a\"b\".txt"), "attachment; filename=\"a%22b%22.txt\"");
}
