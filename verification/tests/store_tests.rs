use pastebin::{
    attachment_from_row, attachments_from_rows, content_len_ok, new_attachment_row, new_paste_row,
    paste_from_row, pastes_from_rows, AttachmentRow, PasteRow, UtcTime, MAX_CONTENT_LEN,
};

fn row(id: &str, expires: &str, created: &str) -> PasteRow {
    PasteRow {
        id: id.to_string(),
        content: format!("content of {}", id),
        title: Some("T".to_string()),
        author: None,
        language: Some("rust".to_string()),
        expires_at: expires.to_string(),
        created_at: created.to_string(),
        user_id: Some(7),
    }
}

#[test]
fn content_length_limit_is_in_bytes() {
    assert_eq!(MAX_CONTENT_LEN, 512 * 1024);
    assert!(content_len_ok(""));
    assert!(content_len_ok(&"a".repeat(512 * 1024)));
    assert!(!content_len_ok(&"a".repeat(512 * 1024 + 1)));
    // 'é' takes two bytes in UTF-8.
    assert!(content_len_ok(&"é".repeat(256 * 1024)));
    assert!(!content_len_ok(&"é".repeat(256 * 1024 + 1)));
}

#[test]
fn paste_read_from_row() {
    let p = paste_from_row(row("abc", "2030-01-01T00:00:00+00:00", "2020-01-01T00:00:00Z"));
    assert_eq!(p.id, "abc");
    assert_eq!(p.content, "content of abc");
    assert_eq!(p.title.as_deref(), Some("T"));
    assert_eq!(p.author, None);
    assert_eq!(p.language.as_deref(), Some("rust"));
    assert_eq!(p.user_id, Some(7));
    assert_eq!(p.expires_at.timestamp(), 1_893_456_000);
    assert_eq!(p.created_at.timestamp(), 1_577_836_800);
}

#[test]
fn unreadable_instants_become_now() {
    let before = chrono::Utc::now().timestamp();
    let p = paste_from_row(row("x", "garbage", ""));
    assert!(p.expires_at.timestamp() >= before);
    assert!(p.created_at.timestamp() >= before);
}

#[test]
fn rows_keep_their_order() {
    let rows = vec![row("a", "", ""), row("b", "", ""), row("c", "", "")];
    let ps = pastes_from_rows(rows);
    let ids: Vec<&str> = ps.iter().map(|p| p.id.as_str()).collect();
    assert_eq!(ids, vec!["a", "b", "c"]);
}

#[test]
fn new_paste_row_round_trip() {
    let expires = UtcTime::from_timestamp(1_900_000_000, 250_000_000).unwrap();
    let created = UtcTime::from_timestamp(1_800_000_000, 0).unwrap();
    let r = new_paste_row(
        "id1".to_string(),
        "hello".to_string(),
        None,
        Some("me".to_string()),
        None,
        &expires,
        &created,
    );
    assert_eq!(r.created_at, "2027-01-15T08:00:00+00:00");
    assert_eq!(r.user_id, None);
    let p = paste_from_row(r);
    assert_eq!(p.id, "id1");
    assert_eq!(p.content, "hello");
    assert_eq!(p.author.as_deref(), Some("me"));
    assert_eq!((p.expires_at.timestamp(), p.expires_at.subsec_nanos()), (1_900_000_000, 250_000_000));
    assert_eq!((p.created_at.timestamp(), p.created_at.subsec_nanos()), (1_800_000_000, 0));
}

#[test]
fn attachment_round_trip() {
    let when = UtcTime::from_timestamp(1_700_000_000, 0).unwrap();
    for flag in [true, false] {
        let stored = new_attachment_row(
            "pid".to_string(),
            "s.png".to_string(),
            "orig.png".to_string(),
            "image/png".to_string(),
            flag,
            1234,
            &when,
        );
        assert_eq!(stored.is_image, if flag { 1 } else { 0 });
        let a = attachment_from_row(AttachmentRow {
            id: 9,
            paste_id: stored.paste_id,
            stored_name: stored.stored_name,
            original_filename: stored.original_filename,
            content_type: stored.content_type,
            is_image: stored.is_image,
            size: stored.size,
            created_at: stored.created_at,
        });
        assert_eq!(a.is_image, flag);
        assert_eq!(a.size, 1234);
        assert_eq!(a.stored_name, "s.png");
        assert_eq!(a.created_at.timestamp(), 1_700_000_000);
    }
}

#[test]
fn any_nonzero_flag_is_an_image() {
    let rows = vec![
        AttachmentRow { id: 1, paste_id: "p".into(), stored_name: "a".into(), original_filename: "a".into(), content_type: "x".into(), is_image: 5, size: 1, created_at: "2020-01-01T00:00:00Z".into() },
        AttachmentRow { id: 2, paste_id: "p".into(), stored_name: "b".into(), original_filename: "b".into(), content_type: "x".into(), is_image: 0, size: 2, created_at: "2020-01-01T00:00:00Z".into() },
    ];
    let atts = attachments_from_rows(rows);
    assert_eq!(atts.len(), 2);
    assert!(atts[0].is_image);
    assert!(!atts[1].is_image);
    assert_eq!(atts[1].id, 2);
}
