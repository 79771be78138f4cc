use vstd::prelude::*;

use crate::content_types::{content_disposition, response_content_type};
use crate::expiry::{expires_at_after, expiry_instant, is_expired};
use crate::store::{content_fits, content_len_ok, Attachment, Paste};
use crate::text::html_escape;
use crate::time::{earlier, minute_text, UtcTime, NANOS_PER_SEC};

verus! {

/// The outcome of looking a record up in the database.
pub enum Lookup<T> {
    Found(T),
    Missing,
    Failed,
}

/// An HTTP reply.
pub enum Reply {
    /// 200, an HTML page.
    Page(String),
    /// 303, redirecting to the given location.
    SeeOther(String),
    /// 400, with a message.
    BadRequest(String),
    /// 404, with a message (empty for none).
    NotFound(String),
    /// 410, with a message (empty for none).
    Gone(String),
    /// 500, with a message (empty for none).
    ServerError(String),
}

/// The page of paste `id`: `/p/` and the id.
pub fn paste_location(id: &str) -> (l: String)
    ensures
        l@ == "/p/"@ + id@,
{
    let mut l = "/p/".to_owned();
    l.append(id);
    l
}

/// The reply after a paste was stored: go to its page.
pub fn created_reply(id: &str) -> (r: Reply)
    ensures
        r matches Reply::SeeOther(l) && l@ == "/p/"@ + id@,
{
    Reply::SeeOther(paste_location(id))
}

/// The reply to a refused upload form: 400 with the reason.
pub fn upload_refused(e: &crate::upload::UploadError) -> (r: Reply)
    ensures
        r matches Reply::BadRequest(m) && m@ == match e {
            crate::upload::UploadError::ContentTooLong => "Content too long"@,
            crate::upload::UploadError::FileTooLarge => "File too large"@,
            crate::upload::UploadError::TotalUploadTooLarge => "Total upload size exceeded"@,
            crate::upload::UploadError::ContentRequired => "Content is required"@,
        },
{
    Reply::BadRequest(e.message())
}

/// A paste as the list of all pastes shows it.
pub struct ListPasteItem {
    pub id: String,
    pub content: String,
    pub title: Option<String>,
    pub author: Option<String>,
    pub language: Option<String>,
    pub created_at: String,
    pub expires_at: String,
    pub expired: bool,
}

/// How a list entry relates to its paste, as seen at `now`.
pub open spec fn listed_as(item: ListPasteItem, p: Paste, now: (i64, u32)) -> bool {
    &&& item.id == p.id
    &&& item.content == p.content
    &&& item.title == p.title
    &&& item.author == p.author
    &&& item.language == p.language
    &&& item.created_at@ == minute_text(p.created_at@.0, p.created_at@.1)
    &&& item.expires_at@ == minute_text(p.expires_at@.0, p.expires_at@.1)
    &&& item.expired == earlier(p.expires_at@, now)
}

/// A paste's entry in the list: its instants to the minute, and whether it
/// has expired at `now`.
pub fn list_item(p: Paste, now: &UtcTime) -> (item: ListPasteItem)
    ensures
        listed_as(item, p, now@),
{
    let expired = is_expired(&p.expires_at, now);
    let created_at = p.created_at.format_minute();
    let expires_at = p.expires_at.format_minute();
    ListPasteItem {
        id: p.id,
        content: p.content,
        title: p.title,
        author: p.author,
        language: p.language,
        created_at,
        expires_at,
        expired,
    }
}

/// The entries of the list of pastes, in the order of the pastes.
pub fn list_items(pastes: Vec<Paste>, now: &UtcTime) -> (items: Vec<ListPasteItem>)
    ensures
        items@.len() == pastes@.len(),
        forall|i: int| 0 <= i < pastes@.len() ==> listed_as(#[trigger] items@[i], pastes@[i], now@),
{
    let mut pastes = pastes;
    let ghost all = pastes@;
    let mut rev: Vec<ListPasteItem> = Vec::new();
    while pastes.len() > 0
        invariant
            pastes@ == all.take(pastes@.len() as int),
            pastes@.len() + rev@.len() == all.len(),
            forall|i: int|
                0 <= i < rev@.len() ==> listed_as(#[trigger] rev@[i], all[all.len() - 1 - i], now@),
        decreases pastes@.len(),
    {
        let p = pastes.pop().unwrap();
        proof {
            assert(p == all[pastes@.len() as int]);
        }
        rev.push(list_item(p, now));
        proof {
            assert(pastes@ =~= all.take(pastes@.len() as int));
        }
    }
    let mut items: Vec<ListPasteItem> = Vec::new();
    while rev.len() > 0
        invariant
            rev@.len() + items@.len() == all.len(),
            forall|i: int|
                0 <= i < rev@.len() ==> listed_as(#[trigger] rev@[i], all[all.len() - 1 - i], now@),
            forall|i: int| 0 <= i < items@.len() ==> listed_as(#[trigger] items@[i], all[i], now@),
        decreases rev@.len(),
    {
        let item = rev.pop().unwrap();
        items.push(item);
    }
    items
}

/// Whether to show a paste: 404 where there is none, 500 where the lookup
/// failed, 410 where it has expired at `now`.
pub fn view_decision(lookup: Lookup<Paste>, now: &UtcTime) -> (r: Result<Paste, Reply>)
    ensures
        match lookup {
            Lookup::Found(p) => if earlier(p.expires_at@, now@) {
                r matches Err(Reply::Gone(m)) && m@ == "Paste has expired"@
            } else {
                r == Ok::<Paste, Reply>(p)
            },
            Lookup::Missing => r matches Err(Reply::NotFound(m)) && m@ == "Paste not found"@,
            Lookup::Failed => r matches Err(Reply::ServerError(m)) && m@ == "DB error"@,
        },
{
    match lookup {
        Lookup::Found(p) => {
            if is_expired(&p.expires_at, now) {
                Err(Reply::Gone("Paste has expired".to_owned()))
            } else {
                Ok(p)
            }
        },
        Lookup::Missing => Err(Reply::NotFound("Paste not found".to_owned())),
        Lookup::Failed => Err(Reply::ServerError("DB error".to_owned())),
    }
}

/// A paste as its page shows it: the text HTML-escaped, the instants to the
/// minute.
pub struct ViewPaste {
    pub id: String,
    pub content: String,
    pub title: Option<String>,
    pub author: Option<String>,
    pub language: Option<String>,
    pub created_at: String,
    pub expires_at: String,
}

/// A paste as its page shows it.
pub fn view_paste(p: Paste) -> (v: ViewPaste)
    ensures
        v.id == p.id,
        v.content@ == crate::text::html_escaped(p.content@),
        v.title == p.title,
        v.author == p.author,
        v.language == p.language,
        v.created_at@ == minute_text(p.created_at@.0, p.created_at@.1),
        v.expires_at@ == minute_text(p.expires_at@.0, p.expires_at@.1),
{
    let content = html_escape(p.content.as_str());
    let created_at = p.created_at.format_minute();
    let expires_at = p.expires_at.format_minute();
    ViewPaste {
        id: p.id,
        content,
        title: p.title,
        author: p.author,
        language: p.language,
        created_at,
        expires_at,
    }
}

/// An attachment as a paste's page lists it.
pub struct ViewAttachment {
    pub id: i64,
    pub paste_id: String,
    pub stored_name: String,
    pub original_filename: String,
    pub content_type: String,
    pub is_image: bool,
    pub size: i64,
}

/// How a page's attachment entry relates to the attachment.
pub open spec fn viewed_as(v: ViewAttachment, a: Attachment) -> bool {
    &&& v.id == a.id
    &&& v.paste_id == a.paste_id
    &&& v.stored_name == a.stored_name
    &&& v.original_filename == a.original_filename
    &&& v.content_type == a.content_type
    &&& v.is_image == a.is_image
    &&& v.size == a.size
}

/// The attachment entries of a paste's page, in the order given.
pub fn view_attachments(atts: Vec<Attachment>) -> (vs: Vec<ViewAttachment>)
    ensures
        vs@.len() == atts@.len(),
        forall|i: int| 0 <= i < atts@.len() ==> viewed_as(#[trigger] vs@[i], atts@[i]),
{
    let mut vs: Vec<ViewAttachment> = Vec::new();
    let mut i: usize = 0;
    while i < atts.len()
        invariant
            i <= atts@.len(),
            vs@.len() == i,
            forall|j: int| 0 <= j < i ==> viewed_as(#[trigger] vs@[j], atts@[j]),
        decreases atts@.len() - i,
    {
        let a = &atts[i];
        vs.push(
            ViewAttachment {
                id: a.id,
                paste_id: a.paste_id.clone(),
                stored_name: a.stored_name.clone(),
                original_filename: a.original_filename.clone(),
                content_type: a.content_type.clone(),
                is_image: a.is_image,
                size: a.size,
            },
        );
        i = i + 1;
    }
    vs
}

/// Whether to show the edit form: 404 where there is no such paste, 500
/// where the lookup failed.  Expired pastes can still be edited.
pub fn edit_form_decision(lookup: Lookup<Paste>) -> (r: Result<Paste, Reply>)
    ensures
        match lookup {
            Lookup::Found(p) => r == Ok::<Paste, Reply>(p),
            Lookup::Missing => r matches Err(Reply::NotFound(m)) && m@ == "Paste not found"@,
            Lookup::Failed => r matches Err(Reply::ServerError(m)) && m@ == "DB error"@,
        },
{
    match lookup {
        Lookup::Found(p) => Ok(p),
        Lookup::Missing => Err(Reply::NotFound("Paste not found".to_owned())),
        Lookup::Failed => Err(Reply::ServerError("DB error".to_owned())),
    }
}

/// A paste as the edit form shows it: the text as stored, the instants to
/// the minute.
pub struct EditPaste {
    pub id: String,
    pub content: String,
    pub title: Option<String>,
    pub author: Option<String>,
    pub language: Option<String>,
    pub created_at: String,
    pub expires_at: String,
}

/// A paste as the edit form shows it.
pub fn edit_paste(p: Paste) -> (e: EditPaste)
    ensures
        e.id == p.id,
        e.content == p.content,
        e.title == p.title,
        e.author == p.author,
        e.language == p.language,
        e.created_at@ == minute_text(p.created_at@.0, p.created_at@.1),
        e.expires_at@ == minute_text(p.expires_at@.0, p.expires_at@.1),
{
    let created_at = p.created_at.format_minute();
    let expires_at = p.expires_at.format_minute();
    EditPaste {
        id: p.id,
        content: p.content,
        title: p.title,
        author: p.author,
        language: p.language,
        created_at,
        expires_at,
    }
}

/// An attachment as the edit form lists it.
pub struct EditAttachment {
    pub id: i64,
    pub stored_name: String,
    pub original_filename: String,
}

/// The attachment entries of the edit form, in the order given.
pub fn edit_attachments(atts: Vec<Attachment>) -> (es: Vec<EditAttachment>)
    ensures
        es@.len() == atts@.len(),
        forall|i: int|
            0 <= i < atts@.len() ==> (#[trigger] es@[i]).id == atts@[i].id && es@[i].stored_name
                == atts@[i].stored_name && es@[i].original_filename == atts@[i].original_filename,
{
    let mut es: Vec<EditAttachment> = Vec::new();
    let mut i: usize = 0;
    while i < atts.len()
        invariant
            i <= atts@.len(),
            es@.len() == i,
            forall|j: int|
                0 <= j < i ==> (#[trigger] es@[j]).id == atts@[j].id && es@[j].stored_name
                    == atts@[j].stored_name && es@[j].original_filename
                    == atts@[j].original_filename,
        decreases atts@.len() - i,
    {
        let a = &atts[i];
        es.push(
            EditAttachment {
                id: a.id,
                stored_name: a.stored_name.clone(),
                original_filename: a.original_filename.clone(),
            },
        );
        i = i + 1;
    }
    es
}

/// The submitted edit form.
pub struct EditForm {
    pub content: String,
    pub title: Option<String>,
    pub author: Option<String>,
    pub language: Option<String>,
    pub expires: Option<String>,
}

/// What an edit writes to the stored paste.
pub struct PasteUpdate {
    pub content: String,
    pub title: Option<String>,
    pub author: Option<String>,
    pub language: Option<String>,
    pub expires_at: UtcTime,
}

/// An optional field kept only where it is not empty.
pub open spec fn non_empty(o: Option<String>) -> Option<String> {
    match o {
        Some(s) => if s@.len() == 0 {
            None
        } else {
            Some(s)
        },
        None => None,
    }
}

/// The expiry option an edit asks for: the submitted one, or `1d`.
pub open spec fn edit_expiry_option(expires: Option<String>) -> Seq<char> {
    match expires {
        Some(e) => e@,
        None => "1d"@,
    }
}

/// The text an edit stores: the submitted text, or the current one where
/// none was submitted.
pub open spec fn edited_content(form_content: String, current: String) -> String {
    if form_content@.len() == 0 {
        current
    } else {
        form_content
    }
}

/// The field kept where it is not empty.
fn keep_non_empty(o: Option<String>) -> (r: Option<String>)
    ensures
        r == non_empty(o),
{
    match o {
        Some(s) => if s.as_str().is_empty() {
            None
        } else {
            Some(s)
        },
        None => None,
    }
}

/// Whether to accept an edit at all: 404 (`Not found`) where there is no
/// such paste, 500 where the lookup failed.
pub fn edit_submit_decision(lookup: Lookup<Paste>) -> (r: Result<Paste, Reply>)
    ensures
        match lookup {
            Lookup::Found(p) => r == Ok::<Paste, Reply>(p),
            Lookup::Missing => r matches Err(Reply::NotFound(m)) && m@ == "Not found"@,
            Lookup::Failed => r matches Err(Reply::ServerError(m)) && m@ == "DB error"@,
        },
{
    match lookup {
        Lookup::Found(p) => Ok(p),
        Lookup::Missing => Err(Reply::NotFound("Not found".to_owned())),
        Lookup::Failed => Err(Reply::ServerError("DB error".to_owned())),
    }
}

/// What an edit submitted at `now` writes to `current`: an empty text keeps
/// the current text; empty title, author and language are cleared; the
/// expiry is counted afresh from `now` (option `1d` where none was sent).
/// A text over 512 KiB is refused with 400.
pub fn plan_edit(form: EditForm, current: Paste, now: &UtcTime) -> (r: Result<PasteUpdate, Reply>)
    requires
        now@.1 < NANOS_PER_SEC,
        expiry_instant(edit_expiry_option(form.expires), now@) is Some,
    ensures
        !content_fits(edited_content(form.content, current.content)@) ==> (r matches Err(
            Reply::BadRequest(m),
        ) && m@ == "Content too long"@),
        content_fits(edited_content(form.content, current.content)@) ==> (r matches Ok(u) && u.content
            == edited_content(form.content, current.content) && u.title == non_empty(form.title)
            && u.author == non_empty(form.author) && u.language == non_empty(form.language)
            && Some(u.expires_at@) == expiry_instant(edit_expiry_option(form.expires), now@)),
{
    let EditForm { content, title, author, language, expires } = form;
    let content = if content.as_str().is_empty() {
        current.content
    } else {
        content
    };
    let title = keep_non_empty(title);
    let author = keep_non_empty(author);
    let language = keep_non_empty(language);
    let expires_at = match &expires {
        Some(e) => expires_at_after(e.as_str(), now).unwrap(),
        None => expires_at_after("1d", now).unwrap(),
    };
    if !content_len_ok(content.as_str()) {
        return Err(Reply::BadRequest("Content too long".to_owned()));
    }
    Ok(PasteUpdate { content, title, author, language, expires_at })
}

/// The reply once an edit was attempted: back to the paste's page, or 500
/// (`Update failed`) where storing it failed.
pub fn edit_outcome(id: &str, stored: bool) -> (r: Reply)
    ensures
        stored ==> (r matches Reply::SeeOther(l) && l@ == "/p/"@ + id@),
        !stored ==> (r matches Reply::ServerError(m) && m@ == "Update failed"@),
{
    if stored {
        Reply::SeeOther(paste_location(id))
    } else {
        Reply::ServerError("Update failed".to_owned())
    }
}

/// Whether to delete: only a paste that was found; 404 where there is none
/// or the lookup failed.
pub fn delete_decision(lookup: &Lookup<Paste>) -> (r: Result<(), Reply>)
    ensures
        lookup is Found ==> r is Ok,
        !(lookup is Found) ==> (r matches Err(Reply::NotFound(m)) && m@.len() == 0),
{
    match lookup {
        Lookup::Found(_) => Ok(()),
        _ => Err(Reply::NotFound(String::new())),
    }
}

/// The reply after a deletion: back to the list.
pub fn deleted_reply() -> (r: Reply)
    ensures
        r matches Reply::SeeOther(l) && l@ == "/list"@,
{
    Reply::SeeOther("/list".to_owned())
}

/// Whether to serve a paste's file: 404 where there is no such paste, 500
/// where the lookup failed, 410 where it has expired at `now`; all without
/// a message.
pub fn file_paste_decision(lookup: Lookup<Paste>, now: &UtcTime) -> (r: Result<Paste, Reply>)
    ensures
        match lookup {
            Lookup::Found(p) => if earlier(p.expires_at@, now@) {
                r matches Err(Reply::Gone(m)) && m@.len() == 0
            } else {
                r == Ok::<Paste, Reply>(p)
            },
            Lookup::Missing => r matches Err(Reply::NotFound(m)) && m@.len() == 0,
            Lookup::Failed => r matches Err(Reply::ServerError(m)) && m@.len() == 0,
        },
{
    match lookup {
        Lookup::Found(p) => {
            if is_expired(&p.expires_at, now) {
                Err(Reply::Gone(String::new()))
            } else {
                Ok(p)
            }
        },
        Lookup::Missing => Err(Reply::NotFound(String::new())),
        Lookup::Failed => Err(Reply::ServerError(String::new())),
    }
}

/// Whether there is an attachment to serve: 404 where there is none, 500
/// where the lookup failed; both without a message.
pub fn file_attachment_decision(lookup: Lookup<Attachment>) -> (r: Result<Attachment, Reply>)
    ensures
        match lookup {
            Lookup::Found(a) => r == Ok::<Attachment, Reply>(a),
            Lookup::Missing => r matches Err(Reply::NotFound(m)) && m@.len() == 0,
            Lookup::Failed => r matches Err(Reply::ServerError(m)) && m@.len() == 0,
        },
{
    match lookup {
        Lookup::Found(a) => Ok(a),
        Lookup::Missing => Err(Reply::NotFound(String::new())),
        Lookup::Failed => Err(Reply::ServerError(String::new())),
    }
}

/// A file sent back: its bytes, content type and disposition.
pub struct FileReply {
    pub content_type: String,
    pub disposition: String,
    pub body: Vec<u8>,
}

/// The reply serving attachment `a` whose stored bytes are `body` (`None`
/// where they could not be read: 404 without a message).  Images are shown
/// inline, other files offered for download under their uploaded name; the
/// content type is the stored one where the `mime` crate reads it, else
/// `application/octet-stream`.
pub fn file_reply(a: &Attachment, body: Option<Vec<u8>>) -> (r: Result<FileReply, Reply>)
    ensures
        body is None ==> (r matches Err(Reply::NotFound(m)) && m@.len() == 0),
        body matches Some(b) ==> (r matches Ok(f) && f.body@ == b@ && f.disposition@
            == crate::content_types::disposition_text(a.is_image, a.original_filename@)
            && f.content_type@ == match crate::content_types::mime_parsed(a.content_type@) {
            Some(t) => t,
            None => "application/octet-stream"@,
        }),
{
    match body {
        None => Err(Reply::NotFound(String::new())),
        Some(body) => {
            let disposition = content_disposition(a.is_image, a.original_filename.as_str());
            let content_type = response_content_type(a.content_type.as_str());
            Ok(FileReply { content_type, disposition, body })
        },
    }
}

/// Every entry of the list shows its own paste: the same id, text, title,
/// author and language, the paste's own creation and expiry instants to
/// the minute, and "expired" exactly when the paste's expiry lies before
/// `now`.
pub proof fn lemma_list_entry_shows_its_paste(item: ListPasteItem, p: Paste, now: (i64, u32))
    requires
        listed_as(item, p, now),
    ensures
        item.id == p.id,
        item.content == p.content,
        item.title == p.title,
        item.author == p.author,
        item.language == p.language,
        item.created_at@ == minute_text(p.created_at@.0, p.created_at@.1),
        item.expires_at@ == minute_text(p.expires_at@.0, p.expires_at@.1),
        item.expired <==> (p.expires_at@.0 < now.0 || (p.expires_at@.0 == now.0
            && p.expires_at@.1 < now.1)),
{
}

/// Each attachment entry of a paste's page is that attachment: its id,
/// paste, stored name (under which its file is served), original name,
/// type, image flag and size.
pub proof fn lemma_page_lists_attachments_as_stored(vs: Seq<ViewAttachment>, atts: Seq<Attachment>)
    requires
        vs.len() == atts.len(),
        forall|i: int| 0 <= i < atts.len() ==> viewed_as(#[trigger] vs[i], atts[i]),
    ensures
        forall|i: int|
            0 <= i < atts.len() ==> {
                &&& (#[trigger] vs[i]).stored_name == atts[i].stored_name
                &&& vs[i].id == atts[i].id
                &&& vs[i].paste_id == atts[i].paste_id
                &&& vs[i].original_filename == atts[i].original_filename
                &&& vs[i].content_type == atts[i].content_type
                &&& vs[i].is_image == atts[i].is_image
                &&& vs[i].size == atts[i].size
            },
{
    assert forall|i: int| 0 <= i < atts.len() implies (#[trigger] vs[i]).stored_name
        == atts[i].stored_name && vs[i].id == atts[i].id && vs[i].paste_id == atts[i].paste_id
        && vs[i].original_filename == atts[i].original_filename && vs[i].content_type
        == atts[i].content_type && vs[i].is_image == atts[i].is_image && vs[i].size
        == atts[i].size by {
        assert(viewed_as(vs[i], atts[i]));
    }
}

/// An edit counts its expiry the way a new paste does: with the option
/// submitted, when one is, and with `1d` otherwise; so the edited paste
/// expires exactly when a paste made at the same moment with that option
/// would.
pub proof fn lemma_edit_expiry_as_new_paste(expires: Option<String>, now: (i64, u32))
    ensures
        expires matches Some(e) ==> edit_expiry_option(expires) == e@,
        expires is None ==> edit_expiry_option(expires) == "1d"@,
        expires matches Some(e) ==> expiry_instant(edit_expiry_option(expires), now)
            == expiry_instant(e@, now),
        expires is None ==> expiry_instant(edit_expiry_option(expires), now) == expiry_instant(
            "1d"@,
            now,
        ),
{
}

/// What an edit keeps and clears: a non-empty field is stored as
/// submitted, an empty or missing one is cleared; an empty text keeps the
/// current text, any other replaces it.
pub proof fn lemma_edit_fields(o: Option<String>, form_content: String, current: String)
    ensures
        o matches Some(s) ==> (s@.len() > 0 ==> non_empty(o) == Some(s)),
        o matches Some(s) ==> (s@.len() == 0 ==> non_empty(o) is None),
        o is None ==> non_empty(o) is None,
        form_content@.len() > 0 ==> edited_content(form_content, current) == form_content,
        form_content@.len() == 0 ==> edited_content(form_content, current) == current,
{
}

} // verus!
