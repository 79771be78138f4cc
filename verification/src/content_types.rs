use vstd::prelude::*;

use crate::text::{
    escape_quotes, has_prefix, quotes_escaped, starts_with, str_eq, to_lowercase,
    unicode_lowercase,
};

verus! {

/// Whether a lower-cased content type names an image (`image/...`).
pub open spec fn is_image_type(lower: Seq<char>) -> bool {
    has_prefix(lower, "image/"@)
}

/// Whether a lower-cased content type is one of the non-image types that
/// may be uploaded.
pub open spec fn is_listed_type(lower: Seq<char>) -> bool {
    ||| lower == "application/pdf"@
    ||| lower == "text/plain"@
    ||| lower == "application/zip"@
    ||| lower == "application/x-zip-compressed"@
    ||| lower == "application/json"@
    ||| lower == "text/csv"@
}

/// Whether a lower-cased content type may be uploaded: any image, or one of
/// the listed types.
pub open spec fn is_allowed_type(lower: Seq<char>) -> bool {
    is_image_type(lower) || is_listed_type(lower)
}

/// Whether the already lower-cased content type `lower` may be uploaded.
pub fn allowed_lowercase_type(lower: &str) -> (b: bool)
    ensures
        b == is_allowed_type(lower@),
{
    if starts_with(lower, "image/") {
        return true;
    }
    str_eq(lower, "application/pdf") || str_eq(lower, "text/plain") || str_eq(
        lower,
        "application/zip",
    ) || str_eq(lower, "application/x-zip-compressed") || str_eq(lower, "application/json")
        || str_eq(lower, "text/csv")
}

/// Whether the already lower-cased content type `lower` names an image.
pub fn image_lowercase_type(lower: &str) -> (b: bool)
    ensures
        b == is_image_type(lower@),
{
    starts_with(lower, "image/")
}

/// Whether a file of content type `content_type` may be uploaded; the type
/// is compared case-insensitively.
pub fn is_allowed_mime(content_type: &str) -> (b: bool)
    ensures
        b == is_allowed_type(unicode_lowercase(content_type@)),
{
    let lower = to_lowercase(content_type);
    allowed_lowercase_type(lower.as_str())
}

/// Whether content type `content_type` names an image, case-insensitively.
pub fn is_image(content_type: &str) -> (b: bool)
    ensures
        b == is_image_type(unicode_lowercase(content_type@)),
{
    let lower = to_lowercase(content_type);
    image_lowercase_type(lower.as_str())
}

/// Every image type may be uploaded.
pub proof fn lemma_images_are_allowed(content_type: Seq<char>)
    ensures
        is_image_type(unicode_lowercase(content_type)) ==> is_allowed_type(
            unicode_lowercase(content_type),
        ),
{
}

/// The type that the `mime` crate reads from `s` (`s.parse::<Mime>()`),
/// written back as text; `None` where it reports an error.
pub uninterp spec fn mime_parsed(s: Seq<char>) -> Option<Seq<char>>;

/// The `mime` crate's `FromStr for Mime`, with the parsed type written back
/// by its `Display`.  Claimed: the outcome is `mime_parsed(s)`.
#[verifier::external_body]
fn parse_mime(s: &str) -> (m: Option<String>)
    ensures
        match mime_parsed(s@) {
            Some(t) => m matches Some(x) && x@ == t,
            None => m is None,
        },
{
    match s.parse::<mime::Mime>() {
        Ok(m) => Some(m.to_string()),
        Err(_) => None,
    }
}

/// The content type to serve: the parsed type, or
/// `application/octet-stream` where the stored type did not parse.
pub fn content_type_or_octet_stream(parsed: Option<String>) -> (t: String)
    ensures
        match parsed {
            Some(p) => t@ == p@,
            None => t@ == "application/octet-stream"@,
        },
{
    match parsed {
        Some(p) => p,
        None => "application/octet-stream".to_owned(),
    }
}

/// The content type under which a stored attachment of type `stored` is
/// served.
pub fn response_content_type(stored: &str) -> (t: String)
    ensures
        match mime_parsed(stored@) {
            Some(p) => t@ == p,
            None => t@ == "application/octet-stream"@,
        },
{
    content_type_or_octet_stream(parse_mime(stored))
}

/// The `Content-Disposition` of a served attachment: images are shown
/// inline; other files are downloads named after the uploaded file, with
/// `"` written as `%22`.
pub open spec fn disposition_text(is_image: bool, filename: Seq<char>) -> Seq<char> {
    if is_image {
        "inline"@
    } else {
        "attachment; filename=\""@ + quotes_escaped(filename) + "\""@
    }
}

/// The `Content-Disposition` header value for an attachment.
pub fn content_disposition(is_image: bool, original_filename: &str) -> (d: String)
    ensures
        d@ == disposition_text(is_image, original_filename@),
{
    if is_image {
        "inline".to_owned()
    } else {
        let mut d = "attachment; filename=\"".to_owned();
        let name = escape_quotes(original_filename);
        d.append(name.as_str());
        d.append("\"");
        d
    }
}

} // verus!
