use pastebin::{
    created_reply, delete_decision, deleted_reply, edit_attachments, edit_form_decision,
    edit_outcome, edit_paste, edit_submit_decision, file_attachment_decision, file_paste_decision,
    file_reply, list_item, list_items, paste_location, plan_edit, upload_refused, view_attachments,
    view_decision, view_paste, Attachment, EditForm, Lookup, Paste, Reply, UploadError, UtcTime,
};

fn t(secs: i64) -> UtcTime {
    UtcTime::from_timestamp(secs, 0).unwrap()
}

fn paste(id: &str, content: &str, expires: i64) -> Paste {
    Paste {
        id: id.to_string(),
        content: content.to_string(),
        title: Some("title".to_string()),
        author: Some("me".to_string()),
        language: None,
        expires_at: t(expires),
        created_at: t(1_431_648_000),
        user_id: None,
    }
}

fn attachment(name: &str, image: bool) -> Attachment {
    Attachment {
        id: 3,
        paste_id: "p".to_string(),
        stored_name: "stored.bin".to_string(),
        original_filename: name.to_string(),
        content_type: if image { "image/png".to_string() } else { "application/pdf".to_string() },
        is_image: image,
        size: 10,
        created_at: t(0),
    }
}

fn expect(r: Reply) -> (&'static str, String) {
    match r {
        Reply::Page(s) => ("page", s),
        Reply::SeeOther(s) => ("see_other", s),
        Reply::BadRequest(s) => ("bad_request", s),
        Reply::NotFound(s) => ("not_found", s),
        Reply::Gone(s) => ("gone", s),
        Reply::ServerError(s) => ("server_error", s),
    }
}

#[test]
fn locations() {
    assert_eq!(paste_location("abc"), "/p/abc");
    assert_eq!(expect(created_reply("abc")), ("see_other", "/p/abc".to_string()));
    assert_eq!(expect(deleted_reply()), ("see_other", "/list".to_string()));
    assert_eq!(expect(upload_refused(&UploadError::FileTooLarge)), ("bad_request", "File too large".to_string()));
}

#[test]
fn view_decisions() {
    let now = t(2_000_000_000);
    let p = view_decision(Lookup::Found(paste("a", "x", 2_000_000_001)), &now).ok().unwrap();
    assert_eq!(p.id, "a");
    assert_eq!(expect(view_decision(Lookup::Found(paste("a", "x", 1_999_999_999)), &now).err().unwrap()), ("gone", "Paste has expired".to_string()));
    // Expiring exactly now is not yet expired.
    assert!(view_decision(Lookup::Found(paste("a", "x", 2_000_000_000)), &now).is_ok());
    assert_eq!(expect(view_decision(Lookup::Missing, &now).err().unwrap()), ("not_found", "Paste not found".to_string()));
    assert_eq!(expect(view_decision(Lookup::Failed, &now).err().unwrap()), ("server_error", "DB error".to_string()));
}

#[test]
fn list_entries() {
    let now = t(2_000_000_000);
    let item = list_item(paste("a", "<b>", 1_000_000_000), &now);
    assert!(item.expired);
    assert_eq!(item.content, "<b>");
    assert_eq!(item.created_at, "2015-05-15 00:00");
    assert_eq!(item.expires_at, "2001-09-09 01:46");
    let items = list_items(vec![paste("a", "", 3_000_000_000), paste("b", "", 1)], &now);
    assert_eq!(items.len(), 2);
    assert_eq!(items[0].id, "a");
    assert!(!items[0].expired);
    assert!(items[1].expired);
}

#[test]
fn view_page_escapes_text() {
    let v = view_paste(paste("a", "<script>&", 1));
    assert_eq!(v.content, "&lt;script&gt;&amp;");
    assert_eq!(v.title.as_deref(), Some("title"));
    assert_eq!(v.created_at, "2015-05-15 00:00");
    let e = edit_paste(paste("a", "<script>&", 1));
    assert_eq!(e.content, "<script>&");
    let vs = view_attachments(vec![attachment("a.png", true), attachment("b.pdf", false)]);
    assert_eq!(vs.len(), 2);
    assert_eq!(vs[1].original_filename, "b.pdf");
    assert!(vs[0].is_image);
    let es = edit_attachments(vec![attachment("a.png", true)]);
    assert_eq!(es[0].stored_name, "stored.bin");
    assert_eq!(es[0].id, 3);
}

#[test]
fn edit_decisions() {
    assert!(edit_form_decision(Lookup::Found(paste("a", "x", 1))).is_ok());
    assert_eq!(expect(edit_form_decision(Lookup::Missing).err().unwrap()), ("not_found", "Paste not found".to_string()));
    assert_eq!(expect(edit_form_decision(Lookup::Failed).err().unwrap()), ("server_error", "DB error".to_string()));
    assert_eq!(expect(edit_submit_decision(Lookup::Missing).err().unwrap()), ("not_found", "Not found".to_string()));
    assert_eq!(expect(edit_submit_decision(Lookup::Failed).err().unwrap()), ("server_error", "DB error".to_string()));
    assert_eq!(expect(edit_outcome("q", true)), ("see_other", "/p/q".to_string()));
    assert_eq!(expect(edit_outcome("q", false)), ("server_error", "Update failed".to_string()));
}

#[test]
fn plan_an_edit() {
    let now = t(1_000_000);
    let form = EditForm {
        content: String::new(),
        title: Some(String::new()),
        author: Some("new author".to_string()),
        language: None,
        expires: None,
    };
    let u = plan_edit(form, paste("a", "old text", 5), &now).ok().unwrap();
    assert_eq!(u.content, "old text");
    assert_eq!(u.title, None);
    assert_eq!(u.author.as_deref(), Some("new author"));
    assert_eq!(u.language, None);
    assert_eq!(u.expires_at.timestamp(), 1_000_000 + 86_400);

    let form = EditForm {
        content: "new".to_string(),
        title: Some(" t ".to_string()),
        author: None,
        language: Some("go".to_string()),
        expires: Some("1m".to_string()),
    };
    let u = plan_edit(form, paste("a", "old", 5), &now).ok().unwrap();
    assert_eq!(u.content, "new");
    assert_eq!(u.title.as_deref(), Some(" t "));
    assert_eq!(u.language.as_deref(), Some("go"));
    assert_eq!(u.expires_at.timestamp(), 1_000_000 + 30 * 86_400);

    let form = EditForm {
        content: "x".repeat(512 * 1024 + 1),
        title: None,
        author: None,
        language: None,
        expires: None,
    };
    assert_eq!(expect(plan_edit(form, paste("a", "old", 5), &now).err().unwrap()), ("bad_request", "Content too long".to_string()));
}

#[test]
fn delete_decisions() {
    assert!(delete_decision(&Lookup::Found(paste("a", "x", 1))).is_ok());
    assert_eq!(expect(delete_decision(&Lookup::Missing).err().unwrap()), ("not_found", String::new()));
    assert_eq!(expect(delete_decision(&Lookup::Failed).err().unwrap()), ("not_found", String::new()));
}

#[test]
fn file_decisions() {
    let now = t(100);
    assert!(file_paste_decision(Lookup::Found(paste("a", "x", 101)), &now).is_ok());
    assert_eq!(expect(file_paste_decision(Lookup::Found(paste("a", "x", 99)), &now).err().unwrap()), ("gone", String::new()));
    assert_eq!(expect(file_paste_decision(Lookup::Missing, &now).err().unwrap()), ("not_found", String::new()));
    assert_eq!(expect(file_paste_decision(Lookup::Failed, &now).err().unwrap()), ("server_error", String::new()));
    assert!(file_attachment_decision(Lookup::Found(attachment("a", true))).is_ok());
    assert_eq!(expect(file_attachment_decision(Lookup::Missing).err().unwrap()), ("not_found", String::new()));
    assert_eq!(expect(file_attachment_decision(Lookup::Failed).err().unwrap()), ("server_error", String::new()));
}

#[test]
fn file_replies() {
    let f = file_reply(&attachment("pic.png", true), Some(vec![1, 2])).ok().unwrap();
    assert_eq!(f.disposition, "inline");
    assert_eq!(f.content_type, "image/png");
    assert_eq!(f.body, vec![1, 2]);
    let f = file_reply(&attachment("my \"doc\".pdf", false), Some(vec![])).ok().unwrap();
    assert_eq!(f.disposition, "attachment; filename=\"my %22doc%22.pdf\"");
    assert_eq!(f.content_type, "application/pdf");
    let mut bad = attachment("x", false);
    bad.content_type = "???".to_string();
    assert_eq!(file_reply(&bad, Some(vec![9])).ok().unwrap().content_type, "application/octet-stream");
    assert_eq!(expect(file_reply(&bad, None).err().unwrap()), ("not_found", String::new()));
}
