use vstd::prelude::*;

use crate::text::push_char;

verus! {

/// The number of characters in a paste id.
pub const PASTE_ID_LEN: usize = 8usize;

/// The `k`-th character of the paste id alphabet `a`..`z`, `A`..`Z`,
/// `0`..`9` (for `k` below 62).
pub open spec fn id_char(k: int) -> char {
    if k < 26 {
        (97 + k) as char
    } else if k < 52 {
        (65 + (k - 26)) as char
    } else {
        (48 + (k - 52)) as char
    }
}

/// The paste id drawn from 16 random bytes: character `i` is the alphabet
/// entry at `bytes[i % 16] % 62`.
pub open spec fn paste_id_of(bytes: Seq<u8>) -> Seq<char> {
    Seq::new(PASTE_ID_LEN as nat, |i: int| id_char(bytes[i % 16] as int % 62))
}

/// Whether `c` is an ASCII letter or digit.
pub open spec fn is_ascii_alphanumeric(c: char) -> bool {
    ('a' <= c && c <= 'z') || ('A' <= c && c <= 'Z') || ('0' <= c && c <= '9')
}

/// The alphabet entry for `k` (below 62).
fn id_char_at(k: u8) -> (c: char)
    requires
        k < 62,
    ensures
        c == id_char(k as int),
{
    if k < 26 {
        (97u8 + k) as char
    } else if k < 52 {
        (65u8 + (k - 26)) as char
    } else {
        (48u8 + (k - 52)) as char
    }
}

/// The paste id made from 16 random bytes.
pub fn paste_id_from_bytes(bytes: &[u8; 16]) -> (id: String)
    ensures
        id@ == paste_id_of(bytes@),
{
    let mut id = String::new();
    let mut i: usize = 0;
    while i < PASTE_ID_LEN
        invariant
            i <= PASTE_ID_LEN,
            bytes@.len() == 16,
            id@ == paste_id_of(bytes@).take(i as int),
        decreases PASTE_ID_LEN - i,
    {
        let b = bytes[i % 16];
        push_char(&mut id, id_char_at(b % 62));
        assert(paste_id_of(bytes@).take(i + 1) =~= paste_id_of(bytes@).take(i as int).push(
            id_char(bytes@[(i % 16) as int] as int % 62),
        ));
        i = i + 1;
    }
    assert(paste_id_of(bytes@).take(PASTE_ID_LEN as int) =~= paste_id_of(bytes@));
    id
}

/// Sixteen random bytes from the `uuid` crate's `Uuid::new_v4`.  Nothing is
/// claimed of them: they come from the random number generator.
#[verifier::external_body]
fn random_uuid_bytes() -> (b: [u8; 16]) {
    *uuid::Uuid::new_v4().as_bytes()
}

/// A fresh random paste id.
pub fn generate_paste_id() -> (id: String)
    ensures
        exists|b: Seq<u8>| b.len() == 16 && id@ == paste_id_of(b),
{
    let bytes = random_uuid_bytes();
    paste_id_from_bytes(&bytes)
}

/// Every paste id is eight ASCII letters and digits.
pub proof fn lemma_paste_id_alphanumeric(bytes: Seq<u8>)
    requires
        bytes.len() == 16,
    ensures
        paste_id_of(bytes).len() == PASTE_ID_LEN,
        forall|i: int| 0 <= i < PASTE_ID_LEN ==> is_ascii_alphanumeric(#[trigger] paste_id_of(bytes)[i]),
{
    assert forall|i: int| 0 <= i < PASTE_ID_LEN implies is_ascii_alphanumeric(
        #[trigger] paste_id_of(bytes)[i],
    ) by {
        let k = bytes[i % 16] as int % 62;
        assert(0 <= k < 62);
    }
}

/// The lower-case hexadecimal digit for `n` (below 16).
pub open spec fn hex_digit(n: int) -> char {
    if n < 10 {
        (48 + n) as char
    } else {
        (87 + n) as char
    }
}

/// The "simple" text of a UUID: its 16 bytes as 32 lower-case hexadecimal
/// digits, high nibble first.
pub open spec fn simple_uuid_text(bytes: Seq<u8>) -> Seq<char> {
    Seq::new(
        32,
        |i: int|
            hex_digit(
                if i % 2 == 0 {
                    bytes[i / 2] as int / 16
                } else {
                    bytes[i / 2] as int % 16
                },
            ),
    )
}

/// The hexadecimal digit for `n` (below 16).
fn hex_digit_of(n: u8) -> (c: char)
    requires
        n < 16,
    ensures
        c == hex_digit(n as int),
{
    if n < 10 {
        (48u8 + n) as char
    } else {
        (87u8 + n) as char
    }
}

/// What the file extension of a name is, as std's `Path::extension` finds
/// it: the part of the last path component after its last `.`, unless that
/// component has no `.` or starts with its only one.
pub uninterp spec fn path_extension(name: Seq<char>) -> Option<Seq<char>>;

/// std's `Path::new(name).extension()`, as text.  Claimed: the outcome is
/// `path_extension(name)`.  The extension of a path built from a `&str` is
/// always valid Unicode, so nothing is lost in taking it as text.
#[verifier::external_body]
fn file_extension(name: &str) -> (e: Option<String>)
    ensures
        match path_extension(name@) {
            Some(x) => e matches Some(s) && s@ == x,
            None => e is None,
        },
{
    match std::path::Path::new(name).extension() {
        Some(ext) => Some(ext.to_string_lossy().into_owned()),
        None => None,
    }
}

/// An extension, or nothing where there is none.
pub open spec fn extension_or_empty(e: Option<Seq<char>>) -> Seq<char> {
    match e {
        Some(x) => x,
        None => seq![],
    }
}

/// The name under which an upload is stored: the UUID's simple text, a dot,
/// and the uploaded file's extension (empty where it has none).
pub fn stored_name_for(uuid: &[u8; 16], extension: Option<String>) -> (name: String)
    ensures
        name@ == simple_uuid_text(uuid@) + seq!['.'] + extension_or_empty(
            match extension {
                Some(e) => Some(e@),
                None => None,
            },
        ),
{
    let mut name = String::new();
    let mut i: usize = 0;
    while i < 32
        invariant
            i <= 32,
            uuid@.len() == 16,
            name@ == simple_uuid_text(uuid@).take(i as int),
        decreases 32 - i,
    {
        let b = uuid[i / 2];
        let n = if i % 2 == 0 {
            b / 16
        } else {
            b % 16
        };
        push_char(&mut name, hex_digit_of(n));
        assert(simple_uuid_text(uuid@).take(i + 1) =~= simple_uuid_text(uuid@).take(i as int).push(
            hex_digit(n as int),
        ));
        i = i + 1;
    }
    assert(simple_uuid_text(uuid@).take(32) =~= simple_uuid_text(uuid@));
    push_char(&mut name, '.');
    match extension {
        Some(e) => {
            name.append(e.as_str());
        },
        None => {
            assert(name@ + seq![] =~= name@);
        },
    }
    name
}

/// A fresh name under which to store an upload called `original_filename`.
pub fn new_stored_name(original_filename: &str) -> (name: String)
    ensures
        exists|b: Seq<u8>|
            b.len() == 16 && name@ == simple_uuid_text(b) + seq!['.'] + extension_or_empty(
                path_extension(original_filename@),
            ),
{
    let uuid = random_uuid_bytes();
    let extension = file_extension(original_filename);
    let ghost ext = path_extension(original_filename@);
    let name = stored_name_for(&uuid, extension);
    assert(name@ == simple_uuid_text(uuid@) + seq!['.'] + extension_or_empty(ext));
    assert(uuid@.len() == 16);
    name
}

} // verus!
