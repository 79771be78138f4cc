//! A paste bin: texts with optional title, author, language and expiry,
//! plus uploaded attachments.
pub mod config;
pub mod content_types;
pub mod expiry;
pub mod ids;
pub mod pages;
pub mod store;
pub mod text;
pub mod time;
pub mod upload;

pub use config::{
    choose_dir, config_or_default, config_path_from, default_data_dir, default_database_url,
    default_host, default_port, default_static_dir, default_templates_dir, DirChoice,
    PastebinConfig,
};
pub use content_types::{
    allowed_lowercase_type, content_disposition, content_type_or_octet_stream,
    image_lowercase_type, is_allowed_mime, is_image, response_content_type,
};
pub use expiry::{
    expires_at_after, expires_at_from_option, expiry_days_for, is_expired,
};
pub use ids::{generate_paste_id, new_stored_name, paste_id_from_bytes, stored_name_for, PASTE_ID_LEN};
pub use pages::{
    created_reply, delete_decision, deleted_reply, edit_attachments, edit_form_decision,
    edit_outcome, edit_paste, edit_submit_decision, file_attachment_decision, file_paste_decision,
    file_reply, list_item, list_items, paste_location, plan_edit, upload_refused, view_attachments,
    view_decision, view_paste, EditAttachment, EditForm, EditPaste, FileReply, ListPasteItem,
    Lookup, PasteUpdate, Reply, ViewAttachment, ViewPaste,
};
pub use store::{
    attachment_from_row, attachments_from_rows, content_len_ok, new_attachment_row,
    new_paste_row, paste_from_row, pastes_from_rows, Attachment, AttachmentRow,
    NewAttachmentRow, Paste, PasteRow, MAX_CONTENT_LEN,
};
pub use text::{
    char_is_white_space, chars_of, escape_quotes, html_escape, starts_with, str_eq, trim,
};
pub use time::{parse_time_or_now, utc_now, UtcTime};
pub use upload::{
    append_file_chunk, append_text_chunk, field_kind, FieldKind, PasteDraft, PasteForm, TextField,
    UploadError, UploadedFile, MAX_FILE_SIZE, MAX_PASTE_TOTAL_SIZE,
};
