use vstd::prelude::*;

use crate::types::{is_unknown_result, opt_view, ScanResult};

verus! {

/// The kinds of plain-text files that the scanner tells apart.
#[derive(Debug, Clone, Copy, PartialEq, Eq, Structural)]
pub enum TextKind {
    Json,
    Xml,
    Html,
    Script,
    Plain,
}

/// The number of bytes sampled from the start of a file for text detection.
pub const TEXT_SAMPLE_SIZE: usize = 2048;

/// The number of leading bytes whose first line decides the kind of text.
pub const TEXT_HEAD_SIZE: usize = 256;

/// A UTF-8 continuation byte, 0x80..0xBF.
pub open spec fn is_continuation(b: u8) -> bool {
    0x80 <= b && b <= 0xBF
}

/// The length of the well-formed UTF-8 multibyte character whose lead byte
/// stands at `i`: 2, 3 or 4 for a lead byte 0xC0..0xDF, 0xE0..0xEF or
/// 0xF0..0xF7 followed by as many continuation bytes as it announces, and 0
/// otherwise.
pub open spec fn utf8_char_len(buf: Seq<u8>, i: int) -> int {
    if i < 0 || i >= buf.len() {
        0
    } else {
        let b = buf[i];
        if 0xC0 <= b && b <= 0xDF && i + 1 < buf.len() && is_continuation(buf[i + 1]) {
            2
        } else if 0xE0 <= b && b <= 0xEF && i + 2 < buf.len() && is_continuation(buf[i + 1])
            && is_continuation(buf[i + 2]) {
            3
        } else if 0xF0 <= b && b <= 0xF7 && i + 3 < buf.len() && is_continuation(buf[i + 1])
            && is_continuation(buf[i + 2]) && is_continuation(buf[i + 3]) {
            4
        } else {
            0
        }
    }
}

/// Counts the printable bytes of `buf` from index `i` on, as the scanner walks
/// it: a NUL byte among the first ten ends the count, NUL, 0xFF and 0x1A
/// count for nothing, tab, line feed, carriage return and 0x20..0x7E count
/// one, a well-formed UTF-8 multibyte character counts as many printable
/// bytes as it has, and any other lead byte 0xC0..0xFD counts one and skips
/// the byte after it.
pub open spec fn printable_from(buf: Seq<u8>, i: int) -> int
    decreases (if i < buf.len() { buf.len() - i } else { 0 }),
{
    if i < 0 || i >= buf.len() {
        0
    } else {
        let b = buf[i];
        if b == 0 {
            if i < 10 {
                0
            } else {
                printable_from(buf, i + 1)
            }
        } else if b == 0xFF || b == 0x1A {
            printable_from(buf, i + 1)
        } else if b == 9 || b == 10 || b == 13 || (32 <= b && b < 127) {
            1 + printable_from(buf, i + 1)
        } else if 0xC0 <= b && b <= 0xFD {
            let k = utf8_char_len(buf, i);
            if k > 0 {
                k + printable_from(buf, i + k)
            } else {
                1 + printable_from(buf, i + 2)
            }
        } else {
            printable_from(buf, i + 1)
        }
    }
}

/// A sample is text when it is not empty and at least 85% of its bytes count
/// as printable.
pub open spec fn is_text(buf: Seq<u8>) -> bool {
    buf.len() > 0 && 20 * printable_from(buf, 0) >= 17 * buf.len()
}

/// The length of the UTF-8 encoding of a whitespace character (Unicode
/// White_Space) that starts at `i`, or 0.
pub open spec fn ws_len(s: Seq<u8>, i: int) -> int {
    if i < 0 || i >= s.len() {
        0
    } else {
        let b0 = s[i];
        if b0 == 9 || b0 == 10 || b0 == 11 || b0 == 12 || b0 == 13 || b0 == 32 {
            1
        } else if b0 == 0xC2 && i + 1 < s.len() && (s[i + 1] == 0x85 || s[i + 1] == 0xA0) {
            2
        } else if b0 == 0xE1 && i + 2 < s.len() && s[i + 1] == 0x9A && s[i + 2] == 0x80 {
            3
        } else if b0 == 0xE2 && i + 2 < s.len() && ((s[i + 1] == 0x80 && ((0x80 <= s[i + 2]
            && s[i + 2] <= 0x8A) || s[i + 2] == 0xA8 || s[i + 2] == 0xA9 || s[i + 2] == 0xAF))
            || (s[i + 1] == 0x81 && s[i + 2] == 0x9F)) {
            3
        } else if b0 == 0xE3 && i + 2 < s.len() && s[i + 1] == 0x80 && s[i + 2] == 0x80 {
            3
        } else {
            0
        }
    }
}

/// The index of the first byte after the leading whitespace from `i` on.
pub open spec fn skip_ws(s: Seq<u8>, i: int) -> int
    decreases (if i < s.len() { s.len() - i } else { 0 }),
{
    if 0 <= i < s.len() && ws_len(s, i) > 0 {
        skip_ws(s, i + ws_len(s, i))
    } else {
        i
    }
}

/// The first character after leading whitespace is the ASCII byte `c`.
pub open spec fn starts_with_byte(s: Seq<u8>, c: u8) -> bool {
    let j = skip_ws(s, 0);
    0 <= j < s.len() && s[j] == c
}

/// `needle` occurs in `s`.
pub open spec fn contains_bytes(s: Seq<u8>, needle: Seq<u8>) -> bool {
    exists|j: int|
        0 <= j && j + needle.len() <= s.len() && #[trigger] s.subrange(j, j + needle.len()) == needle
}

/// `<?xml`
pub open spec fn xml_decl() -> Seq<u8> {
    seq![0x3Cu8, 0x3F, 0x78, 0x6D, 0x6C]
}

/// `<!DOCTYPE html`
pub open spec fn html_doctype() -> Seq<u8> {
    seq![0x3Cu8, 0x21, 0x44, 0x4F, 0x43, 0x54, 0x59, 0x50, 0x45, 0x20, 0x68, 0x74, 0x6D, 0x6C]
}

/// `<html`
pub open spec fn html_tag() -> Seq<u8> {
    seq![0x3Cu8, 0x68, 0x74, 0x6D, 0x6C]
}

/// `#!/`
pub open spec fn shebang() -> Seq<u8> {
    seq![0x23u8, 0x21, 0x2F]
}

/// The kind of text that a head of a text file shows.
pub open spec fn text_kind(head: Seq<u8>) -> TextKind {
    if starts_with_byte(head, 0x7B) || starts_with_byte(head, 0x5B) {
        TextKind::Json
    } else if starts_with_byte(head, 0x3C) {
        if contains_bytes(head, xml_decl()) {
            TextKind::Xml
        } else if contains_bytes(head, html_doctype()) || contains_bytes(head, html_tag()) {
            TextKind::Html
        } else {
            TextKind::Xml
        }
    } else if starts_with_byte(head, 0x23) || contains_bytes(head, shebang()) {
        TextKind::Script
    } else {
        TextKind::Plain
    }
}

/// The head of a sample: its first 256 bytes.
pub open spec fn head_of(buf: Seq<u8>) -> Seq<u8> {
    if buf.len() <= 256 {
        buf
    } else {
        buf.take(256)
    }
}

/// The kind of text a sample holds, if it is text.
pub open spec fn spec_classify(buf: Seq<u8>) -> Option<TextKind> {
    if is_text(buf) {
        Some(text_kind(head_of(buf)))
    } else {
        None
    }
}

/// Type name, MIME type and extension reported for a kind of text.
pub open spec fn kind_names(k: TextKind) -> (Seq<char>, Seq<char>, Seq<char>) {
    match k {
        TextKind::Json => ("JSON data"@, "application/json"@, ".json"@),
        TextKind::Xml => ("XML document"@, "application/xml"@, ".xml"@),
        TextKind::Html => ("HTML document"@, "text/html"@, ".html"@),
        TextKind::Script => ("Script file"@, "text/plain"@, ".sh"@),
        TextKind::Plain => ("Plain text file"@, "text/plain"@, ".txt"@),
    }
}

/// The result reported for a text file of kind `k`.
pub open spec fn is_text_result(r: ScanResult, k: TextKind) -> bool {
    &&& r.file_type@ == kind_names(k).0
    &&& opt_view(r.mime) == Some(kind_names(k).1)
    &&& opt_view(r.extension) == Some(kind_names(k).2)
    &&& r.compression is None
    &&& r.offset == 0
    &&& r.confidence == 70
    &&& !r.has_password
    &&& r.header_hex is None
    &&& r.inner_name is None
    &&& r.children@.len() == 0
}

/// The length of the well-formed UTF-8 multibyte character at `i`, or 0.
fn utf8_len_at(buf: &[u8], i: usize) -> (res: usize)
    ensures
        res == utf8_char_len(buf@, i as int),
{
    let n = buf.len();
    if i >= n {
        return 0;
    }
    let b = buf[i];
    let rest = n - i;
    if b >= 0xC0 && b <= 0xDF && rest > 1 && buf[i + 1] >= 0x80 && buf[i + 1] <= 0xBF {
        2
    } else if b >= 0xE0 && b <= 0xEF && rest > 2 && buf[i + 1] >= 0x80 && buf[i + 1] <= 0xBF
        && buf[i + 2] >= 0x80 && buf[i + 2] <= 0xBF {
        3
    } else if b >= 0xF0 && b <= 0xF7 && rest > 3 && buf[i + 1] >= 0x80 && buf[i + 1] <= 0xBF
        && buf[i + 2] >= 0x80 && buf[i + 2] <= 0xBF && buf[i + 3] >= 0x80 && buf[i + 3] <= 0xBF {
        4
    } else {
        0
    }
}

/// Counts the printable bytes of a sample.
pub fn count_printable(buf: &[u8]) -> (res: usize)
    ensures
        res == printable_from(buf@, 0),
{
    let n = buf.len();
    let mut printable: usize = 0;
    let mut i: usize = 0;
    while i < n
        invariant_except_break
            n == buf@.len(),
            i <= n,
            printable <= i,
            printable + printable_from(buf@, i as int) == printable_from(buf@, 0),
        ensures
            printable == printable_from(buf@, 0),
        decreases n - i,
    {
        let b = buf[i];
        if b == 0 {
            if i < 10 {
                break;
            }
            i += 1;
            continue;
        }
        if b == 0xFF || b == 0x1A {
            i += 1;
            continue;
        }
        if b == 9 || b == 10 || b == 13 || (b >= 32 && b < 127) {
            printable += 1;
        } else if b >= 0xC0 && b <= 0xFD {
            let k = utf8_len_at(buf, i);
            if k > 0 {
                printable += k;
                i += k;
                continue;
            }
            printable += 1;
            if n - i <= 2 {
                assert(printable_from(buf@, i + 2) == 0);
                assert(printable_from(buf@, n as int) == 0);
                i = n;
            } else {
                i += 2;
            }
            continue;
        }
        i += 1;
    }
    printable
}

/// Whether a sample counts as text.
pub fn looks_like_text(buf: &[u8]) -> (res: bool)
    ensures
        res == is_text(buf@),
{
    let n = buf.len();
    if n == 0 {
        return false;
    }
    let printable = count_printable(buf);
    (printable as u128) * 20 >= (n as u128) * 17
}

/// The length of a whitespace character encoded at `i`, or 0.
fn ws_len_at(s: &[u8], i: usize) -> (res: usize)
    ensures
        res == ws_len(s@, i as int),
{
    let n = s.len();
    if i >= n {
        return 0;
    }
    let b0 = s[i];
    if b0 == 9 || b0 == 10 || b0 == 11 || b0 == 12 || b0 == 13 || b0 == 32 {
        1
    } else if b0 == 0xC2 && n - i > 1 && (s[i + 1] == 0x85 || s[i + 1] == 0xA0) {
        2
    } else if b0 == 0xE1 && n - i > 2 && s[i + 1] == 0x9A && s[i + 2] == 0x80 {
        3
    } else if b0 == 0xE2 && n - i > 2 && ((s[i + 1] == 0x80 && ((0x80 <= s[i + 2] && s[i + 2]
        <= 0x8A) || s[i + 2] == 0xA8 || s[i + 2] == 0xA9 || s[i + 2] == 0xAF)) || (s[i + 1]
        == 0x81 && s[i + 2] == 0x9F)) {
        3
    } else if b0 == 0xE3 && n - i > 2 && s[i + 1] == 0x80 && s[i + 2] == 0x80 {
        3
    } else {
        0
    }
}

/// Whether the first character after leading whitespace is the byte `c`.
fn starts_with_after_ws(s: &[u8], c: u8) -> (res: bool)
    ensures
        res == starts_with_byte(s@, c),
{
    let n = s.len();
    let mut i: usize = 0;
    while i < n && ws_len_at(s, i) > 0
        invariant
            n == s@.len(),
            i <= n,
            skip_ws(s@, i as int) == skip_ws(s@, 0),
        decreases n - i,
    {
        let w = ws_len_at(s, i);
        i = i + w;
    }
    i < n && s[i] == c
}

/// Whether `needle` occurs in `s`.
pub fn contains_seq(s: &[u8], needle: &[u8]) -> (res: bool)
    ensures
        res == contains_bytes(s@, needle@),
{
    let n = s.len();
    let m = needle.len();
    if m > n {
        return false;
    }
    let mut j: usize = 0;
    while j <= n - m
        invariant
            n == s@.len(),
            m == needle@.len(),
            m <= n,
            forall|k: int| 0 <= k < j ==> #[trigger] s@.subrange(k, k + m) != needle@,
        decreases n - m + 1 - j,
    {
        let mut t: usize = 0;
        while t < m && s[j + t] == needle[t]
            invariant
                n == s@.len(),
                m == needle@.len(),
                j + m <= n,
                t <= m,
                forall|u: int| 0 <= u < t ==> s@[j + u] == needle@[u],
            decreases m - t,
        {
            t = t + 1;
        }
        if t == m {
            assert(s@.subrange(j as int, j + m) =~= needle@);
            return true;
        }
        assert(s@.subrange(j as int, j + m)[t as int] != needle@[t as int]);
        j = j + 1;
    }
    assert forall|k: int| 0 <= k && k + m <= n implies #[trigger] s@.subrange(k, k + m) != needle@ by {
        assert(k < j);
    }
    false
}

/// The kind of text that the head of a text file shows.
pub fn kind_of_head(head: &[u8]) -> (res: TextKind)
    ensures
        res == text_kind(head@),
{
    let xml: [u8; 5] = [0x3C, 0x3F, 0x78, 0x6D, 0x6C];
    let doctype: [u8; 14] = [
        0x3C, 0x21, 0x44, 0x4F, 0x43, 0x54, 0x59, 0x50, 0x45, 0x20, 0x68, 0x74, 0x6D, 0x6C,
    ];
    let html: [u8; 5] = [0x3C, 0x68, 0x74, 0x6D, 0x6C];
    let bang: [u8; 3] = [0x23, 0x21, 0x2F];
    assert(xml@ =~= xml_decl());
    assert(doctype@ =~= html_doctype());
    assert(html@ =~= html_tag());
    assert(bang@ =~= shebang());
    if starts_with_after_ws(head, 0x7B) || starts_with_after_ws(head, 0x5B) {
        TextKind::Json
    } else if starts_with_after_ws(head, 0x3C) {
        if contains_seq(head, &xml) {
            TextKind::Xml
        } else if contains_seq(head, &doctype) || contains_seq(head, &html) {
            TextKind::Html
        } else {
            TextKind::Xml
        }
    } else if starts_with_after_ws(head, 0x23) || contains_seq(head, &bang) {
        TextKind::Script
    } else {
        TextKind::Plain
    }
}

/// The kind of text that a sample of a file's first bytes holds, if it is
/// text.
pub fn classify_text(buf: &[u8]) -> (res: Option<TextKind>)
    ensures
        res == spec_classify(buf@),
{
    if !looks_like_text(buf) {
        return None;
    }
    let n = buf.len();
    let head = if n <= TEXT_HEAD_SIZE {
        buf
    } else {
        vstd::slice::slice_subrange(buf, 0, TEXT_HEAD_SIZE)
    };
    assert(head@ =~= head_of(buf@));
    Some(kind_of_head(head))
}

/// The result reported for a text file of the given kind.
pub fn text_result(k: TextKind) -> (res: ScanResult)
    ensures
        is_text_result(res, k),
{
    let (name, mime, ext) = match k {
        TextKind::Json => ("JSON data", "application/json", ".json"),
        TextKind::Xml => ("XML document", "application/xml", ".xml"),
        TextKind::Html => ("HTML document", "text/html", ".html"),
        TextKind::Script => ("Script file", "text/plain", ".sh"),
        TextKind::Plain => ("Plain text file", "text/plain", ".txt"),
    };
    ScanResult {
        file_type: String::from_str(name),
        mime: Some(String::from_str(mime)),
        extension: Some(String::from_str(ext)),
        compression: None,
        offset: 0,
        confidence: 70,
        has_password: false,
        header_hex: None,
        inner_name: None,
        children: Vec::new(),
    }
}

/// The result for a sample of a file's first bytes: a text guess if it is
/// text, "Unknown" otherwise (an empty sample included).
pub fn detect_text(buf: &[u8]) -> (res: ScanResult)
    ensures
        spec_classify(buf@) matches Some(k) ==> is_text_result(res, k),
        spec_classify(buf@) is None ==> is_unknown_result(res),
{
    match classify_text(buf) {
        Some(k) => text_result(k),
        None => ScanResult::unknown(),
    }
}

/// A sample that starts with a NUL byte is binary, never text.
pub proof fn lemma_leading_nul_is_binary(buf: Seq<u8>)
    requires
        buf.len() > 0,
        buf[0] == 0,
    ensures
        !is_text(buf),
        spec_classify(buf) is None,
{
    assert(printable_from(buf, 0) == 0);
}

/// From `i` on, `buf` is made of printable ASCII characters (tab, line feed
/// and carriage return included) and well-formed UTF-8 multibyte characters.
pub open spec fn printable_utf8_from(buf: Seq<u8>, i: int) -> bool
    decreases (if i < buf.len() { buf.len() - i } else { 0 }),
{
    if i < 0 || i > buf.len() {
        false
    } else if i == buf.len() {
        true
    } else {
        let b = buf[i];
        if b == 9 || b == 10 || b == 13 || (32 <= b && b < 127) {
            printable_utf8_from(buf, i + 1)
        } else if 0xC0 <= b && b <= 0xFD && utf8_char_len(buf, i) > 0 {
            printable_utf8_from(buf, i + utf8_char_len(buf, i))
        } else {
            false
        }
    }
}

proof fn lemma_printable_utf8_count(buf: Seq<u8>, i: int)
    requires
        printable_utf8_from(buf, i),
    ensures
        printable_from(buf, i) == buf.len() - i,
    decreases buf.len() - i,
{
    if i < buf.len() {
        let b = buf[i];
        if b == 9 || b == 10 || b == 13 || (32 <= b && b < 127) {
            lemma_printable_utf8_count(buf, i + 1);
        } else {
            lemma_printable_utf8_count(buf, i + utf8_char_len(buf, i));
        }
    }
}

/// A non-empty sample made of printable ASCII and well-formed UTF-8
/// multibyte characters has every byte counted printable, so it is text.
pub proof fn lemma_printable_utf8_is_text(buf: Seq<u8>)
    requires
        buf.len() > 0,
        printable_utf8_from(buf, 0),
    ensures
        printable_from(buf, 0) == buf.len(),
        is_text(buf),
        spec_classify(buf) == Some(text_kind(head_of(buf))),
{
    lemma_printable_utf8_count(buf, 0);
}

/// An ASCII whitespace byte that `str::trim_start` removes: tab, line feed,
/// vertical tab, form feed, carriage return or space.
pub open spec fn trimmed_ascii(b: u8) -> bool {
    b == 9 || b == 10 || b == 11 || b == 12 || b == 13 || b == 32
}

proof fn lemma_skip_ascii_prefix(s: Seq<u8>, i: int, k: int)
    requires
        0 <= i <= k < s.len(),
        forall|j: int| i <= j < k ==> trimmed_ascii(#[trigger] s[j]),
        s[k] < 0x80,
        !trimmed_ascii(s[k]),
    ensures
        skip_ws(s, i) == k,
    decreases k - i,
{
    if i < k {
        assert(trimmed_ascii(s[i]));
        assert(ws_len(s, i) == 1);
        lemma_skip_ascii_prefix(s, i + 1, k);
    } else {
        assert(ws_len(s, k) == 0);
    }
}

/// After any run of ASCII whitespace that `str::trim_start` removes, the
/// first character of a head is the ASCII byte that follows the run.
pub proof fn lemma_leading_ascii_whitespace_skipped(s: Seq<u8>, k: int)
    requires
        0 <= k < s.len(),
        forall|j: int| 0 <= j < k ==> trimmed_ascii(#[trigger] s[j]),
        s[k] < 0x80,
        !trimmed_ascii(s[k]),
    ensures
        starts_with_byte(s, s[k]),
        forall|c: u8| c != s[k] ==> !starts_with_byte(s, c),
{
    lemma_skip_ascii_prefix(s, 0, k);
}

/// A head whose first byte after ASCII whitespace is `<` and that holds
/// `<!DOCTYPE html` or `<html` but not `<?xml` is HTML; one whose first such
/// byte is `{` or `[` is JSON.
pub proof fn lemma_kind_after_whitespace(s: Seq<u8>, k: int)
    requires
        0 <= k < s.len(),
        forall|j: int| 0 <= j < k ==> trimmed_ascii(#[trigger] s[j]),
    ensures
        (s[k] == 0x7B || s[k] == 0x5B) ==> text_kind(s) == TextKind::Json,
        (s[k] == 0x3C && !contains_bytes(s, seq![0x3Cu8, 0x3F, 0x78, 0x6D, 0x6C]) && (contains_bytes(
            s,
            seq![0x3Cu8, 0x21, 0x44, 0x4F, 0x43, 0x54, 0x59, 0x50, 0x45, 0x20, 0x68, 0x74, 0x6D, 0x6C],
        ) || contains_bytes(s, seq![0x3Cu8, 0x68, 0x74, 0x6D, 0x6C]))) ==> text_kind(s) == TextKind::Html,
{
    if s[k] == 0x7B || s[k] == 0x5B || s[k] == 0x3C {
        lemma_leading_ascii_whitespace_skipped(s, k);
        assert(xml_decl() =~= seq![0x3Cu8, 0x3F, 0x78, 0x6D, 0x6C]);
        assert(html_doctype() =~= seq![0x3Cu8, 0x21, 0x44, 0x4F, 0x43, 0x54, 0x59, 0x50, 0x45, 0x20, 0x68, 0x74, 0x6D, 0x6C]);
        assert(html_tag() =~= seq![0x3Cu8, 0x68, 0x74, 0x6D, 0x6C]);
    }
}

/// A sample is text exactly when it is not empty and at least 85 in every
/// 100 of its bytes count as printable.
pub proof fn lemma_text_threshold(buf: Seq<u8>)
    ensures
        is_text(buf) <==> (buf.len() > 0 && 100 * printable_from(buf, 0) >= 85 * buf.len()),
{
}

/// How the scanner counts the byte at `i`: tab, line feed, carriage return
/// and 0x20..0x7E count one; 0xFF and 0x1A count nothing; a NUL among the
/// first ten bytes ends the count, a later one counts nothing; a well-formed
/// UTF-8 character of two, three or four bytes counts as many.
pub proof fn lemma_printable_steps(buf: Seq<u8>, i: int)
    requires
        0 <= i < buf.len(),
    ensures
        (buf[i] == 9 || buf[i] == 10 || buf[i] == 13 || (0x20 <= buf[i] && buf[i] <= 0x7E)) ==> printable_from(buf, i)
            == 1 + printable_from(buf, i + 1),
        (buf[i] == 0xFF || buf[i] == 0x1A || (buf[i] == 0 && i >= 10)) ==> printable_from(buf, i) == printable_from(
            buf,
            i + 1,
        ),
        (buf[i] == 0 && i < 10) ==> printable_from(buf, i) == 0,
        (0xC0 <= buf[i] && buf[i] <= 0xDF && i + 1 < buf.len() && 0x80 <= buf[i + 1] && buf[i + 1] <= 0xBF)
            ==> printable_from(buf, i) == 2 + printable_from(buf, i + 2),
        (0xE0 <= buf[i] && buf[i] <= 0xEF && i + 2 < buf.len() && 0x80 <= buf[i + 1] && buf[i + 1] <= 0xBF && 0x80
            <= buf[i + 2] && buf[i + 2] <= 0xBF) ==> printable_from(buf, i) == 3 + printable_from(buf, i + 3),
        (0xF0 <= buf[i] && buf[i] <= 0xF7 && i + 3 < buf.len() && 0x80 <= buf[i + 1] && buf[i + 1] <= 0xBF && 0x80
            <= buf[i + 2] && buf[i + 2] <= 0xBF && 0x80 <= buf[i + 3] && buf[i + 3] <= 0xBF) ==> printable_from(buf, i)
            == 4 + printable_from(buf, i + 4),
{
}

/// The kind of a text head, by the first byte after ASCII whitespace: `{`
/// or `[` is JSON; `<` is XML when `<?xml` occurs, else HTML when
/// `<!DOCTYPE html` or `<html` occurs, else XML; `#`, or `#!/` anywhere, is a
/// script; anything else is plain text.
pub proof fn lemma_kind_by_first_byte(s: Seq<u8>, k: int)
    requires
        0 <= k < s.len(),
        forall|j: int| 0 <= j < k ==> trimmed_ascii(#[trigger] s[j]),
        s[k] < 0x80,
        !trimmed_ascii(s[k]),
    ensures
        text_kind(s) == (if s[k] == 0x7B || s[k] == 0x5B {
            TextKind::Json
        } else if s[k] == 0x3C {
            if contains_bytes(s, seq![0x3Cu8, 0x3F, 0x78, 0x6D, 0x6C]) {
                TextKind::Xml
            } else if contains_bytes(
                s,
                seq![0x3Cu8, 0x21, 0x44, 0x4F, 0x43, 0x54, 0x59, 0x50, 0x45, 0x20, 0x68, 0x74, 0x6D, 0x6C],
            ) || contains_bytes(s, seq![0x3Cu8, 0x68, 0x74, 0x6D, 0x6C]) {
                TextKind::Html
            } else {
                TextKind::Xml
            }
        } else if s[k] == 0x23 || contains_bytes(s, seq![0x23u8, 0x21, 0x2F]) {
            TextKind::Script
        } else {
            TextKind::Plain
        }),
{
    lemma_leading_ascii_whitespace_skipped(s, k);
    assert(xml_decl() =~= seq![0x3Cu8, 0x3F, 0x78, 0x6D, 0x6C]);
    assert(html_doctype() =~= seq![0x3Cu8, 0x21, 0x44, 0x4F, 0x43, 0x54, 0x59, 0x50, 0x45, 0x20, 0x68, 0x74, 0x6D, 0x6C]);
    assert(html_tag() =~= seq![0x3Cu8, 0x68, 0x74, 0x6D, 0x6C]);
    assert(shebang() =~= seq![0x23u8, 0x21, 0x2F]);
}

/// The type name, MIME type and extension reported for each kind of text.
pub proof fn lemma_text_kind_names()
    ensures
        kind_names(TextKind::Json) == ("JSON data"@, "application/json"@, ".json"@),
        kind_names(TextKind::Xml) == ("XML document"@, "application/xml"@, ".xml"@),
        kind_names(TextKind::Html) == ("HTML document"@, "text/html"@, ".html"@),
        kind_names(TextKind::Script) == ("Script file"@, "text/plain"@, ".sh"@),
        kind_names(TextKind::Plain) == ("Plain text file"@, "text/plain"@, ".txt"@),
{
}

} // verus!
