use vstd::prelude::*;

verus! {

/// The characters of `s`, in order.
pub fn chars_of(s: &str) -> (v: Vec<char>)
    ensures
        v@ == s@,
{
    let mut v: Vec<char> = Vec::new();
    for c in it: s.chars()
        invariant
            v@ == it.seq().take(it.index() as int),
    {
        v.push(c);
    }
    v
}

/// Appends `c` to `s` (std's `String::push`).
#[verifier::external_body]
pub(crate) fn push_char(s: &mut String, c: char)
    ensures
        final(s)@ == old(s)@.push(c),
{
    s.push(c);
}

/// What `html_escape` writes for one character.
pub open spec fn escape_char(c: char) -> Seq<char> {
    if c == '&' {
        seq!['&', 'a', 'm', 'p', ';']
    } else if c == '<' {
        seq!['&', 'l', 't', ';']
    } else if c == '>' {
        seq!['&', 'g', 't', ';']
    } else if c == '"' {
        seq!['&', 'q', 'u', 'o', 't', ';']
    } else if c == '\'' {
        seq!['&', '#', 'x', '2', '7', ';']
    } else {
        seq![c]
    }
}

/// `s` with each of `& < > " '` replaced by its HTML entity.
pub open spec fn html_escaped(s: Seq<char>) -> Seq<char>
    decreases s.len(),
{
    if s.len() == 0 {
        seq![]
    } else {
        html_escaped(s.drop_last()) + escape_char(s.last())
    }
}

/// Escapes `s` for inclusion in HTML text or a quoted attribute.
pub fn html_escape(s: &str) -> (out: String)
    ensures
        out@ == html_escaped(s@),
{
    let chars = chars_of(s);
    let mut out = String::new();
    let mut i: usize = 0;
    while i < chars.len()
        invariant
            i <= chars@.len(),
            chars@ == s@,
            out@ == html_escaped(s@.take(i as int)),
        decreases chars@.len() - i,
    {
        let c = chars[i];
        proof {
            reveal_strlit("&amp;");
            reveal_strlit("&lt;");
            reveal_strlit("&gt;");
            reveal_strlit("&quot;");
            reveal_strlit("&#x27;");
            assert(s@.take(i + 1).drop_last() =~= s@.take(i as int));
        }
        if c == '&' {
            out.append("&amp;");
        } else if c == '<' {
            out.append("&lt;");
        } else if c == '>' {
            out.append("&gt;");
        } else if c == '"' {
            out.append("&quot;");
        } else if c == '\'' {
            out.append("&#x27;");
        } else {
            push_char(&mut out, c);
        }
        i = i + 1;
    }
    proof {
        assert(s@.take(chars@.len() as int) =~= s@);
    }
    out
}

/// Whether `a` and `b` hold the same characters.
pub fn str_eq(a: &str, b: &str) -> (r: bool)
    ensures
        r == (a@ == b@),
{
    let x = chars_of(a);
    let y = chars_of(b);
    if x.len() != y.len() {
        return false;
    }
    let mut i: usize = 0;
    while i < x.len()
        invariant
            x@ == a@,
            y@ == b@,
            x@.len() == y@.len(),
            i <= x@.len(),
            forall|j: int| 0 <= j < i ==> x@[j] == y@[j],
        decreases x@.len() - i,
    {
        if x[i] != y[i] {
            return false;
        }
        i = i + 1;
    }
    assert(x@ =~= y@);
    true
}

/// Whether `s` begins with `prefix`.
pub open spec fn has_prefix(s: Seq<char>, prefix: Seq<char>) -> bool {
    prefix.len() <= s.len() && s.take(prefix.len() as int) == prefix
}

/// Whether `s` begins with `prefix` (std's `str::starts_with` with a string
/// pattern).
pub fn starts_with(s: &str, prefix: &str) -> (r: bool)
    ensures
        r == has_prefix(s@, prefix@),
{
    let x = chars_of(s);
    let p = chars_of(prefix);
    if p.len() > x.len() {
        return false;
    }
    let mut i: usize = 0;
    while i < p.len()
        invariant
            x@ == s@,
            p@ == prefix@,
            p@.len() <= x@.len(),
            i <= p@.len(),
            forall|j: int| 0 <= j < i ==> x@[j] == p@[j],
        decreases p@.len() - i,
    {
        if x[i] != p[i] {
            assert(s@.take(prefix@.len() as int)[i as int] != prefix@[i as int]);
            return false;
        }
        i = i + 1;
    }
    assert(s@.take(prefix@.len() as int) =~= prefix@);
    true
}

/// Unicode `White_Space`, the property by which std's `char::is_whitespace`
/// and `str::trim` go.
pub open spec fn is_white_space(c: char) -> bool {
    ||| c == ' '
    ||| ('\t' <= c && c <= '\r')
    ||| c == '\u{85}'
    ||| c == '\u{a0}'
    ||| c == '\u{1680}'
    ||| ('\u{2000}' <= c && c <= '\u{200a}')
    ||| c == '\u{2028}'
    ||| c == '\u{2029}'
    ||| c == '\u{202f}'
    ||| c == '\u{205f}'
    ||| c == '\u{3000}'
}

/// `s` without its leading white space.
pub open spec fn trim_start_seq(s: Seq<char>) -> Seq<char>
    decreases s.len(),
{
    if s.len() > 0 && is_white_space(s[0]) {
        trim_start_seq(s.drop_first())
    } else {
        s
    }
}

/// `s` without its trailing white space.
pub open spec fn trim_end_seq(s: Seq<char>) -> Seq<char>
    decreases s.len(),
{
    if s.len() > 0 && is_white_space(s.last()) {
        trim_end_seq(s.drop_last())
    } else {
        s
    }
}

/// `s` without white space at either end (std's `str::trim`).
pub open spec fn trimmed(s: Seq<char>) -> Seq<char> {
    trim_end_seq(trim_start_seq(s))
}

/// Whether `c` is white space.
pub fn char_is_white_space(c: char) -> (b: bool)
    ensures
        b == is_white_space(c),
{
    c == ' ' || ('\t' <= c && c <= '\r') || c == '\u{85}' || c == '\u{a0}' || c == '\u{1680}' || (
    '\u{2000}' <= c && c <= '\u{200a}') || c == '\u{2028}' || c == '\u{2029}' || c == '\u{202f}'
        || c == '\u{205f}' || c == '\u{3000}'
}

/// The characters `v[from..to]` as a string.
fn string_of_range(v: &Vec<char>, from: usize, to: usize) -> (s: String)
    requires
        from <= to <= v@.len(),
    ensures
        s@ == v@.subrange(from as int, to as int),
{
    let mut s = String::new();
    let mut k: usize = from;
    while k < to
        invariant
            from <= k <= to,
            to <= v@.len(),
            s@ == v@.subrange(from as int, k as int),
        decreases to - k,
    {
        push_char(&mut s, v[k]);
        assert(v@.subrange(from as int, k + 1) =~= v@.subrange(from as int, k as int).push(v@[k as int]));
        k = k + 1;
    }
    s
}

/// `s` without white space at either end, as a new string.
pub fn trim(s: &str) -> (t: String)
    ensures
        t@ == trimmed(s@),
{
    let v = chars_of(s);
    let n = v.len();
    let mut i: usize = 0;
    assert(s@.subrange(0, n as int) =~= s@);
    while i < n && char_is_white_space(v[i])
        invariant
            v@ == s@,
            n == v@.len(),
            i <= n,
            trim_start_seq(s@) == trim_start_seq(s@.subrange(i as int, n as int)),
        decreases n - i,
    {
        assert(s@.subrange(i as int, n as int).drop_first() =~= s@.subrange(i + 1, n as int));
        i = i + 1;
    }
    assert(trim_start_seq(s@) == s@.subrange(i as int, n as int));
    let mut j: usize = n;
    while j > i && char_is_white_space(v[j - 1])
        invariant
            v@ == s@,
            n == v@.len(),
            i <= j <= n,
            trimmed(s@) == trim_end_seq(s@.subrange(i as int, j as int)),
        decreases j - i,
    {
        assert(s@.subrange(i as int, j as int).drop_last() =~= s@.subrange(i as int, j - 1));
        j = j - 1;
    }
    string_of_range(&v, i, j)
}

/// What `trim_end_seq` keeps is a prefix of its argument.
proof fn lemma_trim_end_is_prefix(s: Seq<char>)
    ensures
        trim_end_seq(s).len() <= s.len(),
        trim_end_seq(s) == s.take(trim_end_seq(s).len() as int),
    decreases s.len(),
{
    if s.len() > 0 && is_white_space(s.last()) {
        lemma_trim_end_is_prefix(s.drop_last());
        assert(s.drop_last().take(trim_end_seq(s).len() as int) =~= s.take(
            trim_end_seq(s).len() as int,
        ));
    } else {
        assert(s.take(s.len() as int) =~= s);
    }
}

/// What `trim_start_seq` drops is a run of white space at the front.
proof fn lemma_trim_start_is_suffix(s: Seq<char>) -> (k: int)
    ensures
        0 <= k <= s.len(),
        trim_start_seq(s) == s.skip(k),
        forall|i: int| 0 <= i < k ==> is_white_space(#[trigger] s[i]),
    decreases s.len(),
{
    if s.len() > 0 && is_white_space(s[0]) {
        let k0 = lemma_trim_start_is_suffix(s.drop_first());
        assert(s.drop_first().skip(k0) =~= s.skip(k0 + 1));
        assert forall|i: int| 0 <= i < k0 + 1 implies is_white_space(#[trigger] s[i]) by {
            if i > 0 {
                assert(s[i] == s.drop_first()[i - 1]);
            }
        }
        k0 + 1
    } else {
        assert(s.skip(0) =~= s);
        0
    }
}

/// Trimming cuts white space off the two ends and nothing else: the
/// trimmed text is the part of `s` from `r.0` to `r.1`, everything before
/// and after that part is white space, and the part neither starts nor
/// ends with white space.
pub proof fn lemma_trim_cuts_only_white_ends(s: Seq<char>) -> (r: (int, int))
    ensures
        0 <= r.0 <= r.1 <= s.len(),
        trimmed(s) == s.subrange(r.0, r.1),
        forall|k: int| 0 <= k < r.0 ==> is_white_space(#[trigger] s[k]),
        forall|k: int| r.1 <= k < s.len() ==> is_white_space(#[trigger] s[k]),
        r.0 < r.1 ==> !is_white_space(s[r.0]) && !is_white_space(s[r.1 - 1]),
{
    let k = lemma_trim_start_is_suffix(s);
    let a = s.skip(k);
    lemma_trim_end_is_prefix(a);
    let m = trim_end_seq(a).len() as int;
    lemma_trim_end_white_tail(a);
    lemma_trim_clean_and_idempotent(s);
    assert(a.take(m) =~= s.subrange(k, k + m));
    assert forall|j: int| k + m <= j < s.len() implies is_white_space(#[trigger] s[j]) by {
        assert(s[j] == a[j - k]);
    }
    (k, k + m)
}

/// What `trim_end_seq` drops is a run of white space at the back.
proof fn lemma_trim_end_white_tail(s: Seq<char>)
    ensures
        forall|i: int| trim_end_seq(s).len() <= i < s.len() ==> is_white_space(#[trigger] s[i]),
    decreases s.len(),
{
    if s.len() > 0 && is_white_space(s.last()) {
        lemma_trim_end_white_tail(s.drop_last());
        assert forall|i: int| trim_end_seq(s).len() <= i < s.len() implies is_white_space(
            #[trigger] s[i],
        ) by {
            if i < s.len() - 1 {
                assert(s[i] == s.drop_last()[i]);
            }
        }
    }
}

/// The first character `trim_start_seq` keeps is not white space.
proof fn lemma_trim_start_clean(s: Seq<char>)
    ensures
        trim_start_seq(s).len() > 0 ==> !is_white_space(trim_start_seq(s)[0]),
    decreases s.len(),
{
    if s.len() > 0 && is_white_space(s[0]) {
        lemma_trim_start_clean(s.drop_first());
    }
}

/// The last character `trim_end_seq` keeps is not white space.
proof fn lemma_trim_end_clean(s: Seq<char>)
    ensures
        trim_end_seq(s).len() > 0 ==> !is_white_space(trim_end_seq(s).last()),
    decreases s.len(),
{
    if s.len() > 0 && is_white_space(s.last()) {
        lemma_trim_end_clean(s.drop_last());
    }
}

/// Trimming leaves no white space at either end, and trimming twice is
/// trimming once.
pub proof fn lemma_trim_clean_and_idempotent(s: Seq<char>)
    ensures
        trimmed(s).len() > 0 ==> !is_white_space(trimmed(s)[0]),
        trimmed(s).len() > 0 ==> !is_white_space(trimmed(s).last()),
        trimmed(trimmed(s)) == trimmed(s),
{
    let a = trim_start_seq(s);
    let t = trimmed(s);
    lemma_trim_start_clean(s);
    lemma_trim_end_clean(a);
    lemma_trim_end_is_prefix(a);
    if t.len() > 0 {
        assert(t[0] == a[0]);
    }
    assert(trim_start_seq(t) == t);
    assert(trim_end_seq(t) == t);
}

/// `s` with every `"` written as `%22`.
pub open spec fn quotes_escaped(s: Seq<char>) -> Seq<char>
    decreases s.len(),
{
    if s.len() == 0 {
        seq![]
    } else {
        quotes_escaped(s.drop_last()) + (if s.last() == '"' {
            seq!['%', '2', '2']
        } else {
            seq![s.last()]
        })
    }
}

/// `s` with every `"` replaced by `%22` (std's `str::replace('"', "%22")`).
pub fn escape_quotes(s: &str) -> (out: String)
    ensures
        out@ == quotes_escaped(s@),
{
    let chars = chars_of(s);
    let mut out = String::new();
    let mut i: usize = 0;
    while i < chars.len()
        invariant
            i <= chars@.len(),
            chars@ == s@,
            out@ == quotes_escaped(s@.take(i as int)),
        decreases chars@.len() - i,
    {
        let c = chars[i];
        proof {
            reveal_strlit("%22");
            assert(s@.take(i + 1).drop_last() =~= s@.take(i as int));
        }
        if c == '"' {
            out.append("%22");
        } else {
            push_char(&mut out, c);
        }
        i = i + 1;
    }
    proof {
        assert(s@.take(chars@.len() as int) =~= s@);
    }
    out
}

/// No `"` is left once quotes are escaped.
pub proof fn lemma_quotes_escaped_has_no_quote(s: Seq<char>)
    ensures
        !quotes_escaped(s).contains('"'),
    decreases s.len(),
{
    if s.len() > 0 {
        lemma_quotes_escaped_has_no_quote(s.drop_last());
        let a = quotes_escaped(s.drop_last());
        let b = if s.last() == '"' {
            seq!['%', '2', '2']
        } else {
            seq![s.last()]
        };
        assert forall|k: int| 0 <= k < (a + b).len() implies (a + b)[k] != '"' by {
            if k >= a.len() {
                assert((a + b)[k] == b[k - a.len()]);
            } else {
                assert((a + b)[k] == a[k]);
                assert(!a.contains('"'));
            }
        }
    }
}

/// Whether `c` is one of the characters that HTML escaping rewrites.
pub open spec fn is_html_special(c: char) -> bool {
    c == '&' || c == '<' || c == '>' || c == '"' || c == '\''
}

/// Escaping a concatenation escapes each part.
pub proof fn lemma_html_escape_concat(a: Seq<char>, b: Seq<char>)
    ensures
        html_escaped(a + b) == html_escaped(a) + html_escaped(b),
    decreases b.len(),
{
    if b.len() == 0 {
        assert(a + b =~= a);
        assert(html_escaped(a) + html_escaped(b) =~= html_escaped(a));
    } else {
        lemma_html_escape_concat(a, b.drop_last());
        assert((a + b).drop_last() =~= a + b.drop_last());
        assert(html_escaped(a) + html_escaped(b.drop_last()) + escape_char(b.last()) =~= html_escaped(
            a,
        ) + (html_escaped(b.drop_last()) + escape_char(b.last())));
    }
}

/// Escaped text holds no `<`, `>`, `"` or `'`.
pub proof fn lemma_html_escaped_is_inert(s: Seq<char>)
    ensures
        !html_escaped(s).contains('<'),
        !html_escaped(s).contains('>'),
        !html_escaped(s).contains('"'),
        !html_escaped(s).contains('\''),
    decreases s.len(),
{
    if s.len() > 0 {
        lemma_html_escaped_is_inert(s.drop_last());
        let a = html_escaped(s.drop_last());
        let b = escape_char(s.last());
        assert forall|k: int| 0 <= k < (a + b).len() implies (a + b)[k] != '<' && (a + b)[k] != '>'
            && (a + b)[k] != '"' && (a + b)[k] != '\'' by {
            if k >= a.len() {
                assert((a + b)[k] == b[k - a.len()]);
            } else {
                assert((a + b)[k] == a[k]);
                assert(!a.contains('<') && !a.contains('>') && !a.contains('"') && !a.contains('\''));
            }
        }
    }
}

/// Text without special characters is left as it is.
pub proof fn lemma_plain_text_unchanged(s: Seq<char>)
    requires
        forall|k: int| 0 <= k < s.len() ==> !is_html_special(#[trigger] s[k]),
    ensures
        html_escaped(s) == s,
    decreases s.len(),
{
    if s.len() > 0 {
        lemma_plain_text_unchanged(s.drop_last());
        assert(s.drop_last().push(s.last()) =~= s);
    }
}

/// UTF-8 decoding of `bytes` in which every invalid sequence becomes
/// U+FFFD (what std's `String::from_utf8_lossy` yields).
pub uninterp spec fn utf8_lossy(bytes: Seq<u8>) -> Seq<char>;

/// std's `String::from_utf8_lossy`, made an owned `String`.  Claimed: the
/// text is `utf8_lossy(bytes)`, and for valid UTF-8 it is the decoded text
/// (its documentation: only invalid sequences are replaced).
#[verifier::external_body]
pub(crate) fn decode_lossy(bytes: &[u8]) -> (s: String)
    ensures
        s@ == utf8_lossy(bytes@),
        vstd::utf8::valid_utf8(bytes@) ==> s@ == vstd::utf8::decode_utf8(bytes@),
{
    String::from_utf8_lossy(bytes).into_owned()
}

/// The text std's `str::to_lowercase` makes of `s` (the Unicode lowercase
/// mapping, context-dependent for the final sigma).
pub uninterp spec fn unicode_lowercase(s: Seq<char>) -> Seq<char>;

/// std's `str::to_lowercase`.  Claimed: the text is `unicode_lowercase(s)`.
#[verifier::external_body]
pub(crate) fn to_lowercase(s: &str) -> (l: String)
    ensures
        l@ == unicode_lowercase(s@),
{
    s.to_lowercase()
}

/// Reads HTML text back: from left to right, each of `&amp;`, `&lt;`,
/// `&gt;`, `&quot;` and `&#x27;` becomes the character it stands for; every
/// other character stays.
pub open spec fn html_unescaped(t: Seq<char>) -> Seq<char>
    decreases t.len(),
{
    if t.len() == 0 {
        seq![]
    } else if has_prefix(t, escape_char('&')) {
        seq!['&'] + html_unescaped(t.skip(5))
    } else if has_prefix(t, escape_char('<')) {
        seq!['<'] + html_unescaped(t.skip(4))
    } else if has_prefix(t, escape_char('>')) {
        seq!['>'] + html_unescaped(t.skip(4))
    } else if has_prefix(t, escape_char('"')) {
        seq!['"'] + html_unescaped(t.skip(6))
    } else if has_prefix(t, escape_char('\'')) {
        seq!['\''] + html_unescaped(t.skip(6))
    } else {
        seq![t[0]] + html_unescaped(t.skip(1))
    }
}

/// Escaping works from the front: the first character's escape, then the
/// rest escaped.
proof fn lemma_html_escaped_front(s: Seq<char>)
    requires
        s.len() > 0,
    ensures
        html_escaped(s) == escape_char(s[0]) + html_escaped(s.drop_first()),
{
    let first = seq![s[0]];
    lemma_html_escape_concat(first, s.drop_first());
    assert(first + s.drop_first() =~= s);
    assert(first.drop_last() =~= Seq::<char>::empty());
    assert(html_escaped(first.drop_last()) =~= Seq::<char>::empty());
    assert(first.last() == s[0]);
    assert(html_escaped(first) =~= escape_char(s[0]));
}

/// Reading back one escaped character in front of more text gives that
/// character in front of the rest read back.
proof fn lemma_html_unescape_step(c: char, rest: Seq<char>)
    ensures
        html_unescaped(escape_char(c) + rest) == seq![c] + html_unescaped(rest),
{
    let t = escape_char(c) + rest;
    let e = escape_char(c);
    let k = e.len() as int;
    assert(t.skip(k) =~= rest);
    assert(t.take(k) =~= e);
    assert(t[0] == e[0]);
    assert(k > 1 ==> t[1] == e[1]);
    if c == '&' {
    } else if c == '<' {
        lemma_not_prefix(t, escape_char('&'), 1);
    } else if c == '>' {
        lemma_not_prefix(t, escape_char('&'), 1);
        lemma_not_prefix(t, escape_char('<'), 1);
    } else if c == '"' {
        lemma_not_prefix(t, escape_char('&'), 1);
        lemma_not_prefix(t, escape_char('<'), 1);
        lemma_not_prefix(t, escape_char('>'), 1);
    } else if c == '\'' {
        lemma_not_prefix(t, escape_char('&'), 1);
        lemma_not_prefix(t, escape_char('<'), 1);
        lemma_not_prefix(t, escape_char('>'), 1);
        lemma_not_prefix(t, escape_char('"'), 1);
    } else {
        lemma_not_prefix(t, escape_char('&'), 0);
        lemma_not_prefix(t, escape_char('<'), 0);
        lemma_not_prefix(t, escape_char('>'), 0);
        lemma_not_prefix(t, escape_char('"'), 0);
        lemma_not_prefix(t, escape_char('\''), 0);
    }
}

/// `t` does not begin with `p` where they differ at a position both have.
proof fn lemma_not_prefix(t: Seq<char>, p: Seq<char>, i: int)
    requires
        0 <= i < p.len(),
        i < t.len(),
        t[i] != p[i],
    ensures
        !has_prefix(t, p),
{
    if has_prefix(t, p) {
        assert(t.take(p.len() as int)[i] == t[i]);
    }
}

/// Escaped text reads back as the text it came from.
pub proof fn lemma_html_unescape_escape(s: Seq<char>)
    ensures
        html_unescaped(html_escaped(s)) == s,
    decreases s.len(),
{
    if s.len() == 0 {
        assert(html_escaped(s) =~= Seq::<char>::empty());
    } else {
        lemma_html_escaped_front(s);
        lemma_html_unescape_step(s[0], html_escaped(s.drop_first()));
        lemma_html_unescape_escape(s.drop_first());
        assert(seq![s[0]] + s.drop_first() =~= s);
    }
}

} // verus!
