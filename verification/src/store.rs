use vstd::prelude::*;

use crate::time::{parse_time_or_now, UtcTime, NANOS_PER_SEC};

verus! {

/// The most bytes (UTF-8) a paste's text may hold: 512 KiB.
pub const MAX_CONTENT_LEN: usize = 524_288usize;

/// The number of bytes of `s` in UTF-8.
pub open spec fn utf8_len(s: Seq<char>) -> nat {
    vstd::utf8::encode_utf8(s).len()
}

/// Whether a paste's text is within the size limit.
pub open spec fn content_fits(s: Seq<char>) -> bool {
    utf8_len(s) <= MAX_CONTENT_LEN
}

/// Whether `content` is short enough to be stored (at most 512 KiB of
/// UTF-8).
pub fn content_len_ok(content: &str) -> (b: bool)
    ensures
        b == content_fits(content@),
{
    utf8_byte_len(content) <= MAX_CONTENT_LEN
}

/// The number of bytes of `s` in UTF-8 (std's `str::len`).
pub fn utf8_byte_len(s: &str) -> (n: usize)
    ensures
        n == utf8_len(s@),
{
    s.as_bytes().len()
}

/// A stored paste.
pub struct Paste {
    pub id: String,
    pub content: String,
    pub title: Option<String>,
    pub author: Option<String>,
    pub language: Option<String>,
    pub expires_at: UtcTime,
    pub created_at: UtcTime,
    pub user_id: Option<i64>,
}

/// A file uploaded with a paste.
pub struct Attachment {
    pub id: i64,
    pub paste_id: String,
    pub stored_name: String,
    pub original_filename: String,
    pub content_type: String,
    pub is_image: bool,
    pub size: i64,
    pub created_at: UtcTime,
}

/// A row of the `pastes` table, instants as RFC 3339 text.
pub struct PasteRow {
    pub id: String,
    pub content: String,
    pub title: Option<String>,
    pub author: Option<String>,
    pub language: Option<String>,
    pub expires_at: String,
    pub created_at: String,
    pub user_id: Option<i64>,
}

/// A row of the `attachments` table: the image flag as an integer, the
/// instant as RFC 3339 text.
pub struct AttachmentRow {
    pub id: i64,
    pub paste_id: String,
    pub stored_name: String,
    pub original_filename: String,
    pub content_type: String,
    pub is_image: i32,
    pub size: i64,
    pub created_at: String,
}

/// The values inserted for a new attachment (the table numbers it).
pub struct NewAttachmentRow {
    pub paste_id: String,
    pub stored_name: String,
    pub original_filename: String,
    pub content_type: String,
    pub is_image: i32,
    pub size: i64,
    pub created_at: String,
}

/// How an instant read from stored text relates to that text: the instant
/// it denotes, or, where chrono cannot read it, some clock reading.
pub open spec fn read_instant(t: (i64, u32), text: Seq<char>) -> bool {
    match crate::time::rfc3339_parsed(text) {
        Some(p) => t == p,
        None => t.1 < NANOS_PER_SEC,
    }
}

/// What storing instant `t` as `text` guarantees: chrono reads `t` back
/// from it where `t` lies in the years 0 to 9999.
pub open spec fn stored_instant(text: Seq<char>, t: (i64, u32)) -> bool {
    crate::time::four_digit_year(t.0 as int) ==> crate::time::rfc3339_parsed(text) == Some(t)
}

/// How a paste relates to the row it was read from.
pub open spec fn paste_read_from(p: Paste, row: PasteRow) -> bool {
    &&& p.id == row.id
    &&& p.content == row.content
    &&& p.title == row.title
    &&& p.author == row.author
    &&& p.language == row.language
    &&& read_instant(p.expires_at@, row.expires_at@)
    &&& read_instant(p.created_at@, row.created_at@)
    &&& p.user_id == row.user_id
}

/// How an attachment relates to the row it was read from.
pub open spec fn attachment_read_from(a: Attachment, row: AttachmentRow) -> bool {
    &&& a.id == row.id
    &&& a.paste_id == row.paste_id
    &&& a.stored_name == row.stored_name
    &&& a.original_filename == row.original_filename
    &&& a.content_type == row.content_type
    &&& a.is_image == (row.is_image != 0)
    &&& a.size == row.size
    &&& read_instant(a.created_at@, row.created_at@)
}

/// The paste that a row of the `pastes` table holds.  An instant that does
/// not read as RFC 3339 is taken to be the current time.
pub fn paste_from_row(row: PasteRow) -> (p: Paste)
    ensures
        paste_read_from(p, row),
{
    let expires_at = parse_time_or_now(row.expires_at.as_str());
    let created_at = parse_time_or_now(row.created_at.as_str());
    Paste {
        id: row.id,
        content: row.content,
        title: row.title,
        author: row.author,
        language: row.language,
        expires_at,
        created_at,
        user_id: row.user_id,
    }
}

/// The pastes that rows of the `pastes` table hold, in the same order.
pub fn pastes_from_rows(rows: Vec<PasteRow>) -> (ps: Vec<Paste>)
    ensures
        ps@.len() == rows@.len(),
        forall|i: int| 0 <= i < rows@.len() ==> paste_read_from(#[trigger] ps@[i], rows@[i]),
{
    let mut rows = rows;
    let ghost all = rows@;
    let mut rev: Vec<Paste> = Vec::new();
    while rows.len() > 0
        invariant
            rows@ == all.take(rows@.len() as int),
            rows@.len() + rev@.len() == all.len(),
            forall|i: int|
                0 <= i < rev@.len() ==> paste_read_from(
                    #[trigger] rev@[i],
                    all[all.len() - 1 - i],
                ),
        decreases rows@.len(),
    {
        let row = rows.pop().unwrap();
        proof {
            assert(row == all[rows@.len() as int]);
        }
        rev.push(paste_from_row(row));
        proof {
            assert(rows@ =~= all.take(rows@.len() as int));
        }
    }
    let mut ps: Vec<Paste> = Vec::new();
    while rev.len() > 0
        invariant
            rev@.len() + ps@.len() == all.len(),
            forall|i: int|
                0 <= i < rev@.len() ==> paste_read_from(
                    #[trigger] rev@[i],
                    all[all.len() - 1 - i],
                ),
            forall|i: int| 0 <= i < ps@.len() ==> paste_read_from(#[trigger] ps@[i], all[i]),
        decreases rev@.len(),
    {
        let p = rev.pop().unwrap();
        ps.push(p);
    }
    ps
}

/// The attachment that a row of the `attachments` table holds.  An instant
/// that does not read as RFC 3339 is taken to be the current time.
pub fn attachment_from_row(row: AttachmentRow) -> (a: Attachment)
    ensures
        attachment_read_from(a, row),
{
    let created_at = parse_time_or_now(row.created_at.as_str());
    Attachment {
        id: row.id,
        paste_id: row.paste_id,
        stored_name: row.stored_name,
        original_filename: row.original_filename,
        content_type: row.content_type,
        is_image: row.is_image != 0,
        size: row.size,
        created_at,
    }
}

/// The attachments that rows of the `attachments` table hold, in the same
/// order.
pub fn attachments_from_rows(rows: Vec<AttachmentRow>) -> (atts: Vec<Attachment>)
    ensures
        atts@.len() == rows@.len(),
        forall|i: int|
            0 <= i < rows@.len() ==> attachment_read_from(#[trigger] atts@[i], rows@[i]),
{
    let mut rows = rows;
    let ghost all = rows@;
    let mut rev: Vec<Attachment> = Vec::new();
    while rows.len() > 0
        invariant
            rows@ == all.take(rows@.len() as int),
            rows@.len() + rev@.len() == all.len(),
            forall|i: int|
                0 <= i < rev@.len() ==> attachment_read_from(
                    #[trigger] rev@[i],
                    all[all.len() - 1 - i],
                ),
        decreases rows@.len(),
    {
        let row = rows.pop().unwrap();
        proof {
            assert(row == all[rows@.len() as int]);
        }
        rev.push(attachment_from_row(row));
        proof {
            assert(rows@ =~= all.take(rows@.len() as int));
        }
    }
    let mut atts: Vec<Attachment> = Vec::new();
    while rev.len() > 0
        invariant
            rev@.len() + atts@.len() == all.len(),
            forall|i: int|
                0 <= i < rev@.len() ==> attachment_read_from(
                    #[trigger] rev@[i],
                    all[all.len() - 1 - i],
                ),
            forall|i: int|
                0 <= i < atts@.len() ==> attachment_read_from(#[trigger] atts@[i], all[i]),
        decreases rev@.len(),
    {
        let a = rev.pop().unwrap();
        atts.push(a);
    }
    atts
}

/// The row stored for a new paste: the given fields, both instants as
/// RFC 3339 text, and no owning user.
pub fn new_paste_row(
    id: String,
    content: String,
    title: Option<String>,
    author: Option<String>,
    language: Option<String>,
    expires_at: &UtcTime,
    created_at: &UtcTime,
) -> (row: PasteRow)
    ensures
        row.id == id,
        row.content == content,
        row.title == title,
        row.author == author,
        row.language == language,
        row.expires_at@ == crate::time::rfc3339_text(expires_at@.0, expires_at@.1),
        row.created_at@ == crate::time::rfc3339_text(created_at@.0, created_at@.1),
        row.user_id is None,
        stored_instant(row.expires_at@, expires_at@),
        stored_instant(row.created_at@, created_at@),
{
    PasteRow {
        id,
        content,
        title,
        author,
        language,
        expires_at: expires_at.to_rfc3339(),
        created_at: created_at.to_rfc3339(),
        user_id: None,
    }
}

/// The values stored for a new attachment: the image flag as 1 or 0, the
/// upload instant as RFC 3339 text.
pub fn new_attachment_row(
    paste_id: String,
    stored_name: String,
    original_filename: String,
    content_type: String,
    is_image: bool,
    size: i64,
    created_at: &UtcTime,
) -> (row: NewAttachmentRow)
    ensures
        row.paste_id == paste_id,
        row.stored_name == stored_name,
        row.original_filename == original_filename,
        row.content_type == content_type,
        row.is_image == (if is_image {
            1i32
        } else {
            0i32
        }),
        row.size == size,
        row.created_at@ == crate::time::rfc3339_text(created_at@.0, created_at@.1),
        stored_instant(row.created_at@, created_at@),
{
    NewAttachmentRow {
        paste_id,
        stored_name,
        original_filename,
        content_type,
        is_image: if is_image {
            1
        } else {
            0
        },
        size,
        created_at: created_at.to_rfc3339(),
    }
}

/// An instant stored as RFC 3339 text and read back is the stored instant,
/// wherever it lies in the years 0 to 9999.
pub proof fn lemma_stored_instant_read_back(text: Seq<char>, stored: (i64, u32), read: (i64, u32))
    requires
        stored_instant(text, stored),
        read_instant(read, text),
        crate::time::four_digit_year(stored.0 as int),
    ensures
        read == stored,
{
}

/// A paste read back from the row stored for it carries the text fields
/// that were stored, no owning user, and the stored expiry and creation
/// instants, wherever those lie in the years 0 to 9999.
pub proof fn lemma_paste_row_round_trip(
    row: PasteRow,
    p: Paste,
    expires_at: (i64, u32),
    created_at: (i64, u32),
)
    requires
        stored_instant(row.expires_at@, expires_at),
        stored_instant(row.created_at@, created_at),
        row.user_id is None,
        paste_read_from(p, row),
    ensures
        p.id == row.id,
        p.content == row.content,
        p.title == row.title,
        p.author == row.author,
        p.language == row.language,
        p.user_id is None,
        crate::time::four_digit_year(expires_at.0 as int) ==> p.expires_at@ == expires_at,
        crate::time::four_digit_year(created_at.0 as int) ==> p.created_at@ == created_at,
{
}

/// An attachment read back from the values stored for it carries the
/// stored names, type, size and image flag, and the upload instant wherever
/// it lies in the years 0 to 9999.
pub proof fn lemma_attachment_row_round_trip(
    stored: NewAttachmentRow,
    created_at: (i64, u32),
    row: AttachmentRow,
    a: Attachment,
)
    requires
        stored_instant(stored.created_at@, created_at),
        stored.paste_id == row.paste_id,
        stored.stored_name == row.stored_name,
        stored.original_filename == row.original_filename,
        stored.content_type == row.content_type,
        stored.is_image == row.is_image,
        stored.size == row.size,
        stored.created_at == row.created_at,
        stored.is_image == 0 || stored.is_image == 1,
        attachment_read_from(a, row),
    ensures
        a.paste_id == stored.paste_id,
        a.stored_name == stored.stored_name,
        a.original_filename == stored.original_filename,
        a.content_type == stored.content_type,
        a.is_image == (stored.is_image == 1),
        a.size == stored.size,
        crate::time::four_digit_year(created_at.0 as int) ==> a.created_at@ == created_at,
{
}

} // verus!
