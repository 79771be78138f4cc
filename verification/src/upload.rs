use vstd::prelude::*;

use crate::content_types::is_allowed_mime;
use crate::store::{content_fits, content_len_ok, MAX_CONTENT_LEN};
use crate::text::{decode_lossy, str_eq, trim};

verus! {

/// The most bytes one uploaded file may hold: 5 MiB.
pub const MAX_FILE_SIZE: usize = 5_242_880usize;

/// The most bytes all files uploaded with one paste may hold together:
/// 20 MiB.
pub const MAX_PASTE_TOTAL_SIZE: usize = 20_971_520usize;

/// Why an upload form is refused.
pub enum UploadError {
    /// The text would exceed 512 KiB.
    ContentTooLong,
    /// A file would exceed 5 MiB.
    FileTooLarge,
    /// The files together would exceed 20 MiB.
    TotalUploadTooLarge,
    /// The form holds no text.
    ContentRequired,
}

impl UploadError {
    /// The message sent back with the refusal.
    pub fn message(&self) -> (m: String)
        ensures
            m@ == match self {
                UploadError::ContentTooLong => "Content too long"@,
                UploadError::FileTooLarge => "File too large"@,
                UploadError::TotalUploadTooLarge => "Total upload size exceeded"@,
                UploadError::ContentRequired => "Content is required"@,
            },
    {
        match self {
            UploadError::ContentTooLong => "Content too long".to_owned(),
            UploadError::FileTooLarge => "File too large".to_owned(),
            UploadError::TotalUploadTooLarge => "Total upload size exceeded".to_owned(),
            UploadError::ContentRequired => "Content is required".to_owned(),
        }
    }
}

/// The optional text fields of the upload form.
pub enum TextField {
    Title,
    Author,
    Language,
    Expires,
}

/// What a field of the upload form is, by its name.
pub enum FieldKind {
    /// `content`: the paste's text.
    Content,
    /// `title`, `author`, `language` or `expires`.
    Text(TextField),
    /// `files` or `file`: an uploaded file.
    File,
    /// Any other name: the field is skipped.
    Other,
}

/// What a form field called `name` holds.
pub fn field_kind(name: &str) -> (k: FieldKind)
    ensures
        name@ == "content"@ ==> k is Content,
        name@ == "title"@ ==> k == FieldKind::Text(TextField::Title),
        name@ == "author"@ ==> k == FieldKind::Text(TextField::Author),
        name@ == "language"@ ==> k == FieldKind::Text(TextField::Language),
        name@ == "expires"@ ==> k == FieldKind::Text(TextField::Expires),
        name@ == "files"@ || name@ == "file"@ ==> k is File,
        name@ != "content"@ && name@ != "title"@ && name@ != "author"@ && name@ != "language"@
            && name@ != "expires"@ && name@ != "files"@ && name@ != "file"@ ==> k is Other,
{
    proof {
        reveal_strlit("content");
        reveal_strlit("title");
        reveal_strlit("author");
        reveal_strlit("language");
        reveal_strlit("expires");
        reveal_strlit("files");
        reveal_strlit("file");
        assert("title"@[0] != "content"@[0]);
        assert("author"@[0] != "content"@[0] && "author"@[0] != "title"@[0]);
        assert("language"@[0] != "content"@[0] && "language"@[0] != "title"@[0]
            && "language"@[0] != "author"@[0]);
        assert("files"@[0] != "content"@[0] && "files"@[0] != "title"@[0] && "files"@[0]
            != "author"@[0] && "files"@[0] != "language"@[0] && "files"@[1] != "expires"@[1]);
        assert("file"@[0] != "content"@[0] && "file"@[0] != "title"@[0] && "file"@[0]
            != "author"@[0] && "file"@[0] != "language"@[0] && "file"@[1] != "expires"@[1]);
    }
    if str_eq(name, "content") {
        FieldKind::Content
    } else if str_eq(name, "title") {
        FieldKind::Text(TextField::Title)
    } else if str_eq(name, "author") {
        FieldKind::Text(TextField::Author)
    } else if str_eq(name, "language") {
        FieldKind::Text(TextField::Language)
    } else if str_eq(name, "expires") {
        FieldKind::Text(TextField::Expires)
    } else if str_eq(name, "files") || str_eq(name, "file") {
        FieldKind::File
    } else {
        FieldKind::Other
    }
}

/// An uploaded file: the name it was uploaded under, its bytes and its
/// declared content type.
pub struct UploadedFile {
    pub filename: String,
    pub body: Vec<u8>,
    pub content_type: String,
}

/// An uploaded file as values.
pub struct FileView {
    pub filename: Seq<char>,
    pub body: Seq<u8>,
    pub content_type: Seq<char>,
}

impl View for UploadedFile {
    type V = FileView;

    open spec fn view(&self) -> FileView {
        FileView { filename: self.filename@, body: self.body@, content_type: self.content_type@ }
    }
}

/// An optional text as values.
pub open spec fn opt_text(o: Option<String>) -> Option<Seq<char>> {
    match o {
        Some(s) => Some(s@),
        None => None,
    }
}

/// The bytes that a list of files holds together.
pub open spec fn total_len(files: Seq<FileView>) -> nat
    decreases files.len(),
{
    if files.len() == 0 {
        0
    } else {
        total_len(files.drop_last()) + files.last().body.len()
    }
}

/// Whether a file is kept: it holds bytes and its type may be uploaded.
pub open spec fn file_accepted(f: FileView) -> bool {
    f.body.len() > 0 && crate::content_types::is_allowed_type(
        crate::text::unicode_lowercase(f.content_type),
    )
}

/// What an upload form has gathered so far: the bytes of the text as they
/// were sent, the optional fields and the files kept.
pub struct FormView {
    pub content: Seq<u8>,
    pub title: Option<Seq<char>>,
    pub author: Option<Seq<char>>,
    pub language: Option<Seq<char>>,
    pub expires: Seq<char>,
    pub files: Seq<FileView>,
}

/// A finished paste as values.
pub struct DraftView {
    pub content: Seq<char>,
    pub title: Option<Seq<char>>,
    pub author: Option<Seq<char>>,
    pub language: Option<Seq<char>>,
    pub expires: Seq<char>,
    pub files: Seq<FileView>,
}

/// The upload form of a new paste, filled field by field.  It keeps the
/// text's bytes as they arrive, at most 512 KiB of them, and decodes them
/// once, when the form is finished.  It keeps the files it accepted, which
/// are at most 20 MiB together, and remembers their total size.
pub struct PasteForm {
    content: Vec<u8>,
    title: Option<String>,
    author: Option<String>,
    language: Option<String>,
    expires: String,
    files: Vec<UploadedFile>,
    total_size: usize,
}

/// A filled upload form whose text is not empty.
pub struct PasteDraft {
    pub content: String,
    pub title: Option<String>,
    pub author: Option<String>,
    pub language: Option<String>,
    pub expires: String,
    pub files: Vec<UploadedFile>,
}

/// The files of a list as values.
pub open spec fn files_view(files: Seq<UploadedFile>) -> Seq<FileView> {
    files.map_values(|f: UploadedFile| f@)
}

/// A draft as values.
pub open spec fn draft_of(d: PasteDraft) -> DraftView {
    DraftView {
        content: d.content@,
        title: opt_text(d.title),
        author: opt_text(d.author),
        language: opt_text(d.language),
        expires: d.expires@,
        files: files_view(d.files@),
    }
}

/// The paste a form makes: its text is the whole of the bytes sent,
/// decoded at once (invalid sequences replaced); the other fields stay.
pub open spec fn decoded(v: FormView) -> DraftView {
    DraftView {
        content: crate::text::utf8_lossy(v.content),
        title: v.title,
        author: v.author,
        language: v.language,
        expires: v.expires,
        files: v.files,
    }
}

impl View for PasteForm {
    type V = FormView;

    closed spec fn view(&self) -> FormView {
        FormView {
            content: self.content@,
            title: opt_text(self.title),
            author: opt_text(self.author),
            language: opt_text(self.language),
            expires: self.expires@,
            files: files_view(self.files@),
        }
    }
}

/// The value of a text field as the form keeps it: empty input leaves the
/// field as it was, other input is kept without surrounding white space.
pub open spec fn text_field_value(old: Option<Seq<char>>, input: Seq<char>) -> Option<Seq<char>> {
    if input.len() == 0 {
        old
    } else {
        Some(crate::text::trimmed(input))
    }
}

/// The form with the bytes of its text replaced by `content`.
pub open spec fn with_content(v: FormView, content: Seq<u8>) -> FormView {
    FormView { content, ..v }
}

/// The form after text field `field` received the whole input `input`.
pub open spec fn with_text_field(v: FormView, field: TextField, input: Seq<char>) -> FormView {
    match field {
        TextField::Title => FormView { title: text_field_value(v.title, input), ..v },
        TextField::Author => FormView { author: text_field_value(v.author, input), ..v },
        TextField::Language => FormView { language: text_field_value(v.language, input), ..v },
        TextField::Expires => FormView {
            expires: if input.len() == 0 {
                v.expires
            } else {
                crate::text::trimmed(input)
            },
            ..v
        },
    }
}

/// The uploaded file as the form keeps it: named `unnamed` where no name
/// came with it.
pub open spec fn incoming_file(filename: Option<Seq<char>>, body: Seq<u8>, content_type: Seq<char>) -> FileView {
    FileView {
        filename: match filename {
            Some(n) => n,
            None => "unnamed"@,
        },
        body,
        content_type,
    }
}

/// The form with one more file.
pub open spec fn with_file(v: FormView, f: FileView) -> FormView {
    FormView { files: v.files.push(f), ..v }
}

/// Appends a chunk of a field's bytes as they arrived; a field is decoded
/// only once all of it is there, so a character split between two chunks
/// stays whole.
pub fn append_text_chunk(buf: &mut Vec<u8>, chunk: &[u8])
    ensures
        final(buf)@ == old(buf)@ + chunk@,
{
    let mut i: usize = 0;
    let ghost start = buf@;
    while i < chunk.len()
        invariant
            i <= chunk@.len(),
            buf@ == start + chunk@.take(i as int),
        decreases chunk@.len() - i,
    {
        buf.push(chunk[i]);
        assert(chunk@.take(i + 1) =~= chunk@.take(i as int).push(chunk@[i as int]));
        i = i + 1;
    }
    assert(chunk@.take(chunk@.len() as int) =~= chunk@);
}

/// Appends a chunk of an uploaded file, refusing it where the file would
/// exceed 5 MiB.
pub fn append_file_chunk(body: &mut Vec<u8>, chunk: &[u8]) -> (r: Result<(), UploadError>)
    ensures
        old(body)@.len() + chunk@.len() > MAX_FILE_SIZE ==> r == Err::<(), UploadError>(
            UploadError::FileTooLarge,
        ) && final(body)@ == old(body)@,
        old(body)@.len() + chunk@.len() <= MAX_FILE_SIZE ==> r is Ok && final(body)@ == old(
            body,
        )@ + chunk@,
        r is Ok ==> final(body)@.len() <= MAX_FILE_SIZE,
{
    if body.len() > MAX_FILE_SIZE || chunk.len() > MAX_FILE_SIZE - body.len() {
        return Err(UploadError::FileTooLarge);
    }
    append_text_chunk(body, chunk);
    Ok(())
}

impl PasteForm {
    #[verifier::type_invariant]
    spec fn inv(self) -> bool {
        &&& self.content@.len() <= MAX_CONTENT_LEN
        &&& self.total_size == total_len(files_view(self.files@))
        &&& self.total_size <= MAX_PASTE_TOTAL_SIZE
        &&& forall|i: int|
            0 <= i < self.files@.len() ==> file_accepted(#[trigger] self.files@[i]@)
    }

    /// An empty form: no text, no optional fields, expiry `1d`, no files.
    pub fn new() -> (f: PasteForm)
        ensures
            f@.content.len() == 0,
            f@.title is None,
            f@.author is None,
            f@.language is None,
            f@.expires == "1d"@,
            f@.files.len() == 0,
    {
        let f = PasteForm {
            content: Vec::new(),
            title: None,
            author: None,
            language: None,
            expires: "1d".to_owned(),
            files: Vec::new(),
            total_size: 0,
        };
        assert(files_view(f.files@) =~= Seq::<FileView>::empty());
        f
    }

    /// Adds a chunk of the paste's text as it was sent.  Refused where the
    /// bytes so far and the chunk exceed 512 KiB together.
    pub fn add_content_chunk(&mut self, chunk: &[u8]) -> (r: Result<(), UploadError>)
        ensures
            old(self)@.content.len() + chunk@.len() > MAX_CONTENT_LEN ==> r == Err::<
                (),
                UploadError,
            >(UploadError::ContentTooLong) && final(self)@ == old(self)@,
            old(self)@.content.len() + chunk@.len() <= MAX_CONTENT_LEN ==> r is Ok && final(self)@
                == with_content(old(self)@, old(self)@.content + chunk@),
    {
        proof {
            use_type_invariant(&*self);
        }
        if chunk.len() > MAX_CONTENT_LEN - self.content.len() {
            return Err(UploadError::ContentTooLong);
        }
        let mut form = PasteForm::new();
        std::mem::swap(&mut form, self);
        proof {
            use_type_invariant(&form);
        }
        let PasteForm { content, title, author, language, expires, files, total_size } = form;
        let mut content = content;
        append_text_chunk(&mut content, chunk);
        *self = PasteForm { content, title, author, language, expires, files, total_size };
        Ok(())
    }

    /// Sets a text field from the whole of its bytes, decoded at once
    /// (invalid sequences replaced): empty input leaves the field as it
    /// was; other input is kept without surrounding white space.
    pub fn set_text_field(&mut self, field: TextField, input: &[u8])
        ensures
            final(self)@ == with_text_field(old(self)@, field, crate::text::utf8_lossy(input@)),
            vstd::utf8::valid_utf8(input@) ==> crate::text::utf8_lossy(input@)
                == vstd::utf8::decode_utf8(input@),
    {
        proof {
            use_type_invariant(&*self);
        }
        let text = decode_lossy(input);
        if text.as_str().is_empty() {
            return;
        }
        let value = trim(text.as_str());
        match field {
            TextField::Title => {
                self.title = Some(value);
            },
            TextField::Author => {
                self.author = Some(value);
            },
            TextField::Language => {
                self.language = Some(value);
            },
            TextField::Expires => {
                self.expires = value;
            },
        }
    }

    /// Adds an uploaded file (named `unnamed` where no name came with it).
    /// An empty file, or one whose type may not be uploaded, is dropped;
    /// a file that would take the files together past 20 MiB is refused.
    pub fn add_file(&mut self, filename: Option<String>, body: Vec<u8>, content_type: String) -> (r:
        Result<(), UploadError>)
        ensures
            !file_accepted(incoming_file(opt_text(filename), body@, content_type@)) ==> r is Ok
                && final(self)@ == old(self)@,
            file_accepted(incoming_file(opt_text(filename), body@, content_type@)) && total_len(
                old(self)@.files,
            ) + body@.len() > MAX_PASTE_TOTAL_SIZE ==> r == Err::<(), UploadError>(
                UploadError::TotalUploadTooLarge,
            ) && final(self)@ == old(self)@,
            file_accepted(incoming_file(opt_text(filename), body@, content_type@)) && total_len(
                old(self)@.files,
            ) + body@.len() <= MAX_PASTE_TOTAL_SIZE ==> r is Ok && final(self)@ == with_file(
                old(self)@,
                incoming_file(opt_text(filename), body@, content_type@),
            ),
    {
        proof {
            use_type_invariant(&*self);
        }
        if body.len() == 0 || !is_allowed_mime(content_type.as_str()) {
            return Ok(());
        }
        if body.len() > MAX_PASTE_TOTAL_SIZE - self.total_size {
            return Err(UploadError::TotalUploadTooLarge);
        }
        let name = match filename {
            Some(n) => n,
            None => "unnamed".to_owned(),
        };
        let file = UploadedFile { filename: name, body, content_type };
        let mut form = PasteForm::new();
        std::mem::swap(&mut form, self);
        proof {
            use_type_invariant(&form);
        }
        let PasteForm { content, title, author, language, expires, files, total_size } = form;
        let ghost before = files_view(files@);
        let new_total = total_size + file.body.len();
        let mut files = files;
        files.push(file);
        proof {
            assert(files_view(files@) =~= before.push(file@));
            assert(files_view(files@).drop_last() =~= before);
        }
        *self = PasteForm { content, title, author, language, expires, files, total_size: new_total };
        Ok(())
    }

    /// The filled form.  Its text is the whole of the bytes sent, decoded
    /// at once; `ContentRequired` where that text is empty, and
    /// `ContentTooLong` where it is over 512 KiB in UTF-8 (each invalid
    /// byte sequence grows to the three bytes of U+FFFD).
    pub fn finish(self) -> (r: Result<PasteDraft, UploadError>)
        ensures
            crate::text::utf8_lossy(self@.content).len() == 0 ==> r == Err::<
                PasteDraft,
                UploadError,
            >(UploadError::ContentRequired),
            crate::text::utf8_lossy(self@.content).len() > 0 && !content_fits(
                crate::text::utf8_lossy(self@.content),
            ) ==> r == Err::<PasteDraft, UploadError>(UploadError::ContentTooLong),
            crate::text::utf8_lossy(self@.content).len() > 0 && content_fits(
                crate::text::utf8_lossy(self@.content),
            ) ==> (r matches Ok(d) && draft_of(d) == decoded(self@)),
            vstd::utf8::valid_utf8(self@.content) ==> crate::text::utf8_lossy(self@.content)
                == vstd::utf8::decode_utf8(self@.content),
            r matches Ok(d) ==> content_fits(d.content@),
            r matches Ok(d) ==> total_len(files_view(d.files@)) <= MAX_PASTE_TOTAL_SIZE,
            r matches Ok(d) ==> forall|i: int|
                0 <= i < d.files@.len() ==> file_accepted(#[trigger] d.files@[i]@),
    {
        proof {
            use_type_invariant(&self);
        }
        let PasteForm { content, title, author, language, expires, files, total_size: _ } = self;
        let text = decode_lossy(content.as_slice());
        if text.as_str().is_empty() {
            return Err(UploadError::ContentRequired);
        }
        if !content_len_ok(text.as_str()) {
            return Err(UploadError::ContentTooLong);
        }
        Ok(PasteDraft { content: text, title, author, language, expires, files })
    }
}

/// Text sent as valid UTF-8 is stored as it was sent: where the bytes of a
/// form's text are valid UTF-8, not empty and at most 512 KiB, the text
/// they decode to is not empty and fits the limit, so `finish` gives a
/// draft whose text is exactly that decoded text, however the bytes were
/// split into chunks on their way.
pub proof fn lemma_valid_utf8_is_kept(bytes: Seq<u8>)
    requires
        vstd::utf8::valid_utf8(bytes),
        0 < bytes.len() <= MAX_CONTENT_LEN,
    ensures
        vstd::utf8::decode_utf8(bytes).len() > 0,
        content_fits(vstd::utf8::decode_utf8(bytes)),
{
    vstd::utf8::decode_utf8_encode_utf8(bytes);
}

/// Chunks add up: the text gathered from chunk `a` and then chunk `b` is
/// the text gathered from the one chunk `a + b`.
pub proof fn lemma_chunks_concatenate(v: FormView, a: Seq<u8>, b: Seq<u8>)
    ensures
        with_content(with_content(v, v.content + a), (v.content + a) + b) == with_content(
            v,
            v.content + (a + b),
        ),
{
    assert((v.content + a) + b =~= v.content + (a + b));
}

/// The value of a text field in a form (the expiry is always there).
pub open spec fn text_field_of(v: FormView, field: TextField) -> Option<Seq<char>> {
    match field {
        TextField::Title => v.title,
        TextField::Author => v.author,
        TextField::Language => v.language,
        TextField::Expires => Some(v.expires),
    }
}

/// Whether `t` is `input` with white space cut off its two ends and
/// nothing else changed.
pub open spec fn white_ends_cut(input: Seq<char>, t: Seq<char>) -> bool {
    exists|i: int, j: int|
        0 <= i <= j <= input.len() && t == #[trigger] input.subrange(i, j) && (forall|k: int|
            0 <= k < i ==> crate::text::is_white_space(#[trigger] input[k])) && (forall|k: int|
            j <= k < input.len() ==> crate::text::is_white_space(#[trigger] input[k])) && (i < j
            ==> !crate::text::is_white_space(input[i]) && !crate::text::is_white_space(
            input[j - 1],
        ))
}

/// A text field keeps what was sent: empty input changes nothing; other
/// input becomes the field's value with only the white space at its two
/// ends cut off (no other change to its characters); no other field, the
/// text or the files change.
pub proof fn lemma_text_field_kept_as_sent(v: FormView, field: TextField, input: Seq<char>)
    ensures
        input.len() == 0 ==> with_text_field(v, field, input) == v,
        input.len() > 0 ==> (text_field_of(with_text_field(v, field, input), field) matches Some(
            t,
        ) && white_ends_cut(input, t)),
        forall|other: TextField|
            other != field ==> #[trigger] text_field_of(with_text_field(v, field, input), other)
                == text_field_of(v, other),
        with_text_field(v, field, input).content == v.content,
        with_text_field(v, field, input).files == v.files,
{
    if input.len() > 0 {
        let r = crate::text::lemma_trim_cuts_only_white_ends(input);
        assert(crate::text::trimmed(input) == input.subrange(r.0, r.1));
        assert(white_ends_cut(input, crate::text::trimmed(input)));
    }
}

/// A finished paste is the form it came from: the text is the whole of the
/// bytes sent, decoded at once, and the title, author, language, expiry and files are the form's own.
pub proof fn lemma_draft_is_the_form(d: PasteDraft, v: FormView)
    requires
        draft_of(d) == decoded(v),
    ensures
        d.content@ == crate::text::utf8_lossy(v.content),
        opt_text(d.title) == v.title,
        opt_text(d.author) == v.author,
        opt_text(d.language) == v.language,
        d.expires@ == v.expires,
        files_view(d.files@) == v.files,
{
}

/// Adding a file puts exactly that file last and changes nothing else; the
/// file keeps the name it came with (or is named `unnamed`), its bytes and
/// its declared type.
pub proof fn lemma_added_file_kept_as_sent(
    v: FormView,
    filename: Option<Seq<char>>,
    body: Seq<u8>,
    content_type: Seq<char>,
)
    ensures
        ({
            let w = with_file(v, incoming_file(filename, body, content_type));
            &&& w.files.len() == v.files.len() + 1
            &&& forall|i: int| 0 <= i < v.files.len() ==> #[trigger] w.files[i] == v.files[i]
            &&& w.files.last().body == body
            &&& w.files.last().content_type == content_type
            &&& (filename matches Some(n) ==> w.files.last().filename == n)
            &&& (filename is None ==> w.files.last().filename == "unnamed"@)
            &&& w.content == v.content
            &&& w.title == v.title
            &&& w.author == v.author
            &&& w.language == v.language
            &&& w.expires == v.expires
        }),
{
}

} // verus!
