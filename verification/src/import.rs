use vstd::prelude::*;

use crate::hexcode::digit_value;
use crate::textutil::same_text;
use crate::types::{clone_opt, opt_view, MagicPattern, PatternView};

verus! {

/// The upper-case form of a string, as `str::to_uppercase` computes it
/// (Unicode case mapping; it may change the length).
pub uninterp spec fn uppercase_of(s: Seq<char>) -> Seq<char>;

/// Every character is ASCII.
pub open spec fn all_ascii(s: Seq<char>) -> bool {
    forall|i: int| 0 <= i < s.len() ==> (#[trigger] s[i] as u32) < 128
}

/// The ASCII upper-case form of a character: `a`..`z` become `A`..`Z`, any
/// other character stays.
pub open spec fn ascii_upper_char(c: char) -> char {
    if 'a' <= c && c <= 'z' {
        ((c as u32) - 32) as char
    } else {
        c
    }
}

/// The ASCII upper-case form of a text.
pub open spec fn ascii_upper(s: Seq<char>) -> Seq<char> {
    s.map_values(|c: char| ascii_upper_char(c))
}

/// Calls `str::to_uppercase`, which returns the Unicode upper-case
/// equivalent of the string. On ASCII text that is the ASCII upper-case
/// form; what it is on other characters is left unsaid here.
#[verifier::external_body]
fn to_uppercase(s: &str) -> (res: String)
    ensures
        res@ == uppercase_of(s@),
        all_ascii(s@) ==> res@ == ascii_upper(s@),
{
    s.to_uppercase()
}

/// Calls `str::replace` with a one-character pattern and an empty
/// replacement, which removes every occurrence of that character.
#[verifier::external_body]
fn remove_char(s: &str, c: char) -> (res: String)
    ensures
        res@ == s@.filter(|x: char| x != c),
{
    s.replace(c, "")
}

/// The arguments of one signature insertion: a signature and its patterns.
#[derive(Debug)]
pub struct NewSignature {
    pub name: String,
    pub mime: Option<String>,
    pub extension: Option<String>,
    pub source: Option<String>,
    pub priority: i32,
    pub patterns: Vec<MagicPattern>,
}

/// The signature that an imported entry with pattern text `hex` becomes:
/// source "remote", priority 5, one big-endian pattern without mask.
pub open spec fn is_remote_signature(
    s: NewSignature,
    name: Seq<char>,
    mime: Option<Seq<char>>,
    extension: Option<Seq<char>>,
    offset: i64,
    hex: Seq<char>,
) -> bool {
    &&& s.name@ == name
    &&& opt_view(s.mime) == mime
    &&& opt_view(s.extension) == extension
    &&& opt_view(s.source) == Some("remote"@)
    &&& s.priority == 5
    &&& s.patterns@.len() == 1
    &&& s.patterns@[0]@ == (PatternView { offset, hex_bytes: hex, mask: None, endianness: "big"@ })
}

/// Builds the signature for an imported entry whose pattern text is
/// already upper-cased.
pub fn remote_record(
    name: String,
    mime: Option<String>,
    extension: Option<String>,
    offset: i64,
    hex_upper: String,
) -> (res: NewSignature)
    ensures
        is_remote_signature(res, name@, opt_view(mime), opt_view(extension), offset, hex_upper@),
{
    let mut patterns: Vec<MagicPattern> = Vec::new();
    patterns.push(
        MagicPattern { offset, hex_bytes: hex_upper, mask: None, endianness: String::from_str("big") },
    );
    NewSignature {
        name,
        mime,
        extension,
        source: Some(String::from_str("remote")),
        priority: 5,
        patterns,
    }
}

/// The text of an optional borrowed string.
pub open spec fn opt_str_view(o: Option<&str>) -> Option<Seq<char>> {
    match o {
        Some(s) => Some(s@),
        None => None,
    }
}

fn owned(o: Option<&str>) -> (res: Option<String>)
    ensures
        opt_view(res) == opt_str_view(o),
{
    match o {
        Some(s) => Some(String::from_str(s)),
        None => None,
    }
}

/// The signature to insert for one entry of an imported list, whose fields
/// may be missing: name "Unknown" and offset 0 by default, nothing for an
/// entry without pattern text, the pattern text upper-cased.
pub fn remote_signature(
    name: Option<&str>,
    mime: Option<&str>,
    extension: Option<&str>,
    offset: Option<i64>,
    hex: Option<&str>,
) -> (res: Option<NewSignature>)
    ensures
        (hex is None || hex->0@.len() == 0) ==> res is None,
        (hex matches Some(h) && h@.len() > 0) ==> (res matches Some(s) && is_remote_signature(
            s,
            match name {
                Some(n) => n@,
                None => "Unknown"@,
            },
            opt_str_view(mime),
            opt_str_view(extension),
            match offset {
                Some(o) => o,
                None => 0,
            },
            uppercase_of(hex->0@),
        )),
        res matches Some(sig) ==> (all_ascii(hex->0@) ==> sig.patterns@[0].hex_bytes@ == ascii_upper(hex->0@)),
{
    let h = match hex {
        Some(h) => h,
        None => {
            return None;
        },
    };
    if h.is_empty() {
        return None;
    }
    let n = match name {
        Some(n) => String::from_str(n),
        None => String::from_str("Unknown"),
    };
    let off = match offset {
        Some(o) => o,
        None => 0,
    };
    Some(remote_record(n, owned(mime), owned(extension), off, to_uppercase(h)))
}

/// Every character is an uppercase hexadecimal digit.
pub open spec fn all_hex_digits(s: Seq<char>) -> bool {
    forall|i: int| 0 <= i < s.len() ==> (#[trigger] digit_value(s[i])) is Some
}

/// Whether every character is an uppercase hexadecimal digit.
pub fn is_hex_digits(s: &str) -> (res: bool)
    ensures
        res == all_hex_digits(s@),
{
    let mut cs: Vec<char> = Vec::new();
    for c in it: s.chars()
        invariant
            cs@ == it.seq().take(it.index() as int),
    {
        cs.push(c);
    }
    assert(cs@ == s@);
    let n = cs.len();
    for i in 0..n
        invariant
            n == cs@.len(),
            cs@ == s@,
            forall|j: int| 0 <= j < i ==> (#[trigger] digit_value(cs@[j])) is Some,
    {
        let c = cs[i];
        if !(('0' <= c && c <= '9') || ('A' <= c && c <= 'F')) {
            assert(digit_value(s@[i as int]) is None);
            return false;
        }
    }
    true
}

/// Pattern text with its spaces and dashes removed.
pub open spec fn stripped_hex(hex: Seq<char>) -> Seq<char> {
    hex.filter(|x: char| x != ' ').filter(|x: char| x != '-')
}

/// The cleaned pattern text of a fetched entry: spaces and dashes removed,
/// upper-cased.
pub open spec fn cleaned_hex(hex: Seq<char>) -> Seq<char> {
    uppercase_of(stripped_hex(hex))
}

proof fn lemma_filter_keeps_ascii(s: Seq<char>, keep: spec_fn(char) -> bool)
    requires
        all_ascii(s),
    ensures
        all_ascii(s.filter(keep)),
    decreases s.len(),
{
    reveal(Seq::filter);
    if s.len() > 0 {
        lemma_filter_keeps_ascii(s.drop_last(), keep);
        let prev = s.drop_last().filter(keep);
        assert forall|i: int| 0 <= i < s.filter(keep).len() implies (#[trigger] s.filter(keep)[i] as u32) < 128 by {
            if i < prev.len() {
                assert(s.filter(keep)[i] == prev[i]);
            } else {
                assert(s.filter(keep)[i] == s.last());
            }
        }
    }
}

/// The pattern text kept for a fetched entry: none for an empty one, the
/// cleaned text if it is all hexadecimal digits, none otherwise. On ASCII
/// text the cleaned text is the ASCII upper-case form of the stripped text.
pub fn clean_hex(hex: &str) -> (res: Option<String>)
    ensures
        hex@.len() == 0 ==> res is None,
        hex@.len() > 0 ==> (if all_hex_digits(cleaned_hex(hex@)) {
            res matches Some(c) && c@ == cleaned_hex(hex@)
        } else {
            res is None
        }),
        hex@.len() > 0 && all_ascii(hex@) ==> cleaned_hex(hex@) == ascii_upper(stripped_hex(hex@)),
{
    if hex.is_empty() {
        return None;
    }
    let no_spaces = remove_char(hex, ' ');
    let no_dashes = remove_char(no_spaces.as_str(), '-');
    proof {
        if all_ascii(hex@) {
            lemma_filter_keeps_ascii(hex@, |x: char| x != ' ');
            lemma_filter_keeps_ascii(no_spaces@, |x: char| x != '-');
        }
    }
    let upper = to_uppercase(no_dashes.as_str());
    if is_hex_digits(upper.as_str()) {
        Some(upper)
    } else {
        None
    }
}

/// A signature entry as the fetcher lists it.
#[derive(Debug, Clone)]
pub struct FetchedSig {
    pub name: String,
    pub mime: Option<String>,
    pub extension: Option<String>,
    pub offset: i64,
    pub hex: String,
}

/// Two entries have the same pattern: the same text at the same offset.
pub open spec fn same_key(a: FetchedSig, b: FetchedSig) -> bool {
    a.hex@ == b.hex@ && a.offset == b.offset
}

/// Some entry of `s` has the pattern of `x`.
pub open spec fn has_key(s: Seq<FetchedSig>, x: FetchedSig) -> bool {
    exists|j: int| 0 <= j < s.len() && same_key(s[j], x)
}

/// The entries of `s` whose pattern no earlier entry has, in order.
pub open spec fn first_of_each(s: Seq<FetchedSig>) -> Seq<FetchedSig>
    decreases s.len(),
{
    if s.len() == 0 {
        seq![]
    } else {
        let prev = first_of_each(s.drop_last());
        if has_key(prev, s.last()) {
            prev
        } else {
            prev.push(s.last())
        }
    }
}

/// Keeps the first entry for each pattern (text and offset), in order.
pub fn dedup_by_pattern(sigs: Vec<FetchedSig>) -> (res: Vec<FetchedSig>)
    ensures
        res@ == first_of_each(sigs@),
{
    let mut out: Vec<FetchedSig> = Vec::new();
    let n = sigs.len();
    for i in 0..n
        invariant
            n == sigs@.len(),
            out@ == first_of_each(sigs@.take(i as int)),
    {
        let x = &sigs[i];
        let m = out.len();
        let mut j: usize = 0;
        while j < m && !(out[j].offset == x.offset && same_text(out[j].hex.as_str(), x.hex.as_str()))
            invariant
                m == out@.len(),
                j <= m,
                forall|k: int| 0 <= k < j ==> !same_key(#[trigger] out@[k], *x),
            decreases m - j,
        {
            j = j + 1;
        }
        assert(sigs@.take(i + 1).drop_last() =~= sigs@.take(i as int));
        assert(sigs@.take(i + 1).last() == *x);
        if j == m {
            out.push(
                FetchedSig {
                    name: x.name.clone(),
                    mime: clone_opt(&x.mime),
                    extension: clone_opt(&x.extension),
                    offset: x.offset,
                    hex: x.hex.clone(),
                },
            );
        } else {
            assert(same_key(out@[j as int], *x));
        }
    }
    assert(sigs@.take(n as int) =~= sigs@);
    out
}

/// The entry that the fetcher keeps for a downloaded signature: name
/// "Unknown" and offset 0 by default, no MIME type or extension, the cleaned
/// pattern text; nothing when the pattern text is missing, empty or not
/// hexadecimal once cleaned.
pub fn fetched_entry(name: Option<&str>, offset: Option<i64>, hex: Option<&str>) -> (res: Option<FetchedSig>)
    ensures
        (hex is None || hex->0@.len() == 0) ==> res is None,
        (hex matches Some(h) && h@.len() > 0) ==> (if all_hex_digits(cleaned_hex(hex->0@)) {
            res matches Some(f) && f.hex@ == cleaned_hex(hex->0@) && f.name@ == (match name {
                Some(n) => n@,
                None => "Unknown"@,
            }) && f.mime is None && f.extension is None && f.offset == (match offset {
                Some(o) => o,
                None => 0,
            })
        } else {
            res is None
        }),
        hex matches Some(h) ==> (h@.len() > 0 && all_ascii(h@) ==> cleaned_hex(h@) == ascii_upper(stripped_hex(h@))),
{
    let h = match hex {
        Some(h) => h,
        None => {
            return None;
        },
    };
    let cleaned = match clean_hex(h) {
        Some(c) => c,
        None => {
            return None;
        },
    };
    let n = match name {
        Some(n) => String::from_str(n),
        None => String::from_str("Unknown"),
    };
    let off = match offset {
        Some(o) => o,
        None => 0,
    };
    Some(FetchedSig { name: n, mime: None, extension: None, offset: off, hex: cleaned })
}

/// `s` ends with `suffix`.
pub open spec fn ends_with(s: Seq<char>, suffix: Seq<char>) -> bool {
    suffix.len() <= s.len() && s.subrange(s.len() - suffix.len(), s.len() as int) == suffix
}

/// Whether a file listed in the signature repository is one to download: a
/// `.sig` file with a download URL.
pub fn is_sig_file(name: &str, download_url: &str) -> (res: bool)
    ensures
        res == (ends_with(name@, ".sig"@) && download_url@.len() > 0),
{
    let mut cs: Vec<char> = Vec::new();
    for c in it: name.chars()
        invariant
            cs@ == it.seq().take(it.index() as int),
    {
        cs.push(c);
    }
    assert(cs@ == name@);
    proof {
        reveal_strlit(".sig");
    }
    let n = cs.len();
    let ok = n >= 4 && cs[n - 4] == '.' && cs[n - 3] == 's' && cs[n - 2] == 'i' && cs[n - 1] == 'g';
    assert(ok == ends_with(name@, ".sig"@)) by {
        if n >= 4 {
            let tail = name@.subrange(n - 4, n as int);
            if ok {
                assert(tail =~= ".sig"@);
            } else if tail == ".sig"@ {
                assert(tail[0] == '.' && tail[1] == 's' && tail[2] == 'i' && tail[3] == 'g');
            }
        }
    }
    ok && !download_url.is_empty()
}

/// One entry of a downloaded JSON list, as its fields read: the strings under
/// "name", "mime", "ext", "hex" and "download_url" and the integer under
/// "offset", each missing where the entry has no such field of that type.
#[derive(Debug, Clone)]
pub struct RawEntry {
    pub name: Option<String>,
    pub mime: Option<String>,
    pub extension: Option<String>,
    pub offset: Option<i64>,
    pub hex: Option<String>,
    pub download_url: Option<String>,
}

/// The fields of a list entry as values: name, MIME type, extension, offset,
/// pattern text and download URL.
pub type EntryView = (
    Option<Seq<char>>,
    Option<Seq<char>>,
    Option<Seq<char>>,
    Option<i64>,
    Option<Seq<char>>,
    Option<Seq<char>>,
);

/// The entries that `serde_json::from_str` reads from a JSON array of
/// objects, each entry's fields taken as `RawEntry` describes, or the
/// parser's error message.
pub uninterp spec fn json_entries(
    body: Seq<char>,
) -> Result<
    Seq<(Option<Seq<char>>, Option<Seq<char>>, Option<Seq<char>>, Option<i64>, Option<Seq<char>>, Option<Seq<char>>)>,
    Seq<char>,
>;

/// The fields of an entry as values.
pub open spec fn raw_view(e: RawEntry) -> EntryView {
    (opt_view(e.name), opt_view(e.mime), opt_view(e.extension), e.offset, opt_view(e.hex), opt_view(e.download_url))
}

/// The fields of each entry of a list, in order.
pub open spec fn raw_views(v: Seq<RawEntry>) -> Seq<EntryView> {
    v.map_values(|e: RawEntry| raw_view(e))
}

/// A parsed list as values, or its error message.
pub open spec fn parsed_view(res: Result<Vec<RawEntry>, String>) -> Result<Seq<EntryView>, Seq<char>> {
    match res {
        Ok(v) => Ok(raw_views(v@)),
        Err(m) => Err(m@),
    }
}

/// Calls `serde_json::from_str` to read `body` as a JSON array, then reads
/// the fields of each element with `Value::as_str` and `Value::as_i64`; the
/// parser's error is handed back as its message. What the parser accepts and
/// what message it gives is left unsaid here: both are named by
/// `json_entries`.
#[verifier::external_body]
fn parse_entries(body: &str) -> (res: Result<Vec<RawEntry>, String>)
    ensures
        parsed_view(res) == json_entries(body@),
{
    let values: Vec<serde_json::Value> = serde_json::from_str(body).map_err(|e| e.to_string())?;
    let text = |v: &serde_json::Value, k: &str| v[k].as_str().map(String::from);
    Ok(values.iter().map(|v| RawEntry {
        name: text(v, "name"), mime: text(v, "mime"), extension: text(v, "ext"),
        offset: v["offset"].as_i64(), hex: text(v, "hex"), download_url: text(v, "download_url"),
    }).collect())
}

/// The entries of `es` that `keep` accepts, in order.
pub open spec fn keep_entries(es: Seq<EntryView>, keep: spec_fn(EntryView) -> bool) -> Seq<EntryView>
    decreases es.len(),
{
    if es.len() == 0 {
        seq![]
    } else {
        let prev = keep_entries(es.drop_last(), keep);
        if keep(es.last()) {
            prev.push(es.last())
        } else {
            prev
        }
    }
}

proof fn lemma_keep_step(es: Seq<EntryView>, keep: spec_fn(EntryView) -> bool, i: int)
    requires
        0 <= i < es.len(),
    ensures
        keep_entries(es.take(i + 1), keep) == (if keep(es[i]) {
            keep_entries(es.take(i), keep).push(es[i])
        } else {
            keep_entries(es.take(i), keep)
        }),
{
    assert(es.take(i + 1).drop_last() =~= es.take(i));
    assert(es.take(i + 1).last() == es[i]);
}

/// The text of an optional field, or the empty text.
pub open spec fn text_or_empty(t: Option<Seq<char>>) -> Seq<char> {
    match t {
        Some(t) => t,
        None => seq![],
    }
}

/// The name of an entry, "Unknown" where it has none.
pub open spec fn name_or_unknown(t: Option<Seq<char>>) -> Seq<char> {
    match t {
        Some(t) => t,
        None => "Unknown"@,
    }
}

/// The offset of an entry, 0 where it has none.
pub open spec fn offset_or_zero(o: Option<i64>) -> i64 {
    match o {
        Some(o) => o,
        None => 0,
    }
}

/// An entry with non-empty pattern text, which an import inserts.
pub open spec fn has_pattern(e: EntryView) -> bool {
    e.4 matches Some(h) && h.len() > 0
}

/// The test that keeps the entries with pattern text.
pub open spec fn with_pattern() -> spec_fn(EntryView) -> bool {
    |e: EntryView| has_pattern(e)
}

/// The signature that importing an entry inserts.
pub open spec fn is_import_of(s: NewSignature, e: EntryView) -> bool {
    &&& is_remote_signature(s, name_or_unknown(e.0), e.1, e.2, offset_or_zero(e.3), uppercase_of(text_or_empty(e.4)))
    &&& all_ascii(text_or_empty(e.4)) ==> s.patterns@[0].hex_bytes@ == ascii_upper(text_or_empty(e.4))
}

/// `v` holds, in order, the signatures that importing the entries `es`
/// inserts: one for each entry with pattern text.
pub open spec fn imports_of(v: Seq<NewSignature>, es: Seq<EntryView>) -> bool {
    let kept = keep_entries(es, with_pattern());
    &&& v.len() == kept.len()
    &&& forall|i: int| 0 <= i < v.len() ==> is_import_of(#[trigger] v[i], kept[i])
}

fn as_opt_str(o: &Option<String>) -> (res: Option<&str>)
    ensures
        opt_str_view(res) == opt_view(*o),
{
    match o {
        Some(s) => Some(s.as_str()),
        None => None,
    }
}

/// The signatures that importing a list of entries inserts, in order: one
/// for each entry with pattern text, as `remote_signature` builds it.
pub fn import_entries(entries: &Vec<RawEntry>) -> (res: Vec<NewSignature>)
    ensures
        imports_of(res@, raw_views(entries@)),
{
    let ghost es = raw_views(entries@);
    let ghost keep = with_pattern();
    let mut out: Vec<NewSignature> = Vec::new();
    for i in 0..entries.len()
        invariant
            es == raw_views(entries@),
            keep == (with_pattern()),
            out@.len() == keep_entries(es.take(i as int), keep).len(),
            forall|j: int| 0 <= j < out@.len() ==> is_import_of(#[trigger] out@[j], keep_entries(es.take(i as int), keep)[j]),
    {
        let e = &entries[i];
        proof {
            lemma_keep_step(es, keep, i as int);
            assert(es[i as int] == raw_view(*e));
        }
        let ghost before = out@;
        let r = remote_signature(as_opt_str(&e.name), as_opt_str(&e.mime), as_opt_str(&e.extension), e.offset, as_opt_str(&e.hex));
        if let Some(s) = r {
            out.push(s);
        }
        proof {
            let prev = keep_entries(es.take(i as int), keep);
            let next = keep_entries(es.take(i + 1), keep);
            assert forall|j: int| 0 <= j < out@.len() implies is_import_of(#[trigger] out@[j], next[j]) by {
                if j < before.len() {
                    assert(out@[j] == before[j]);
                    assert(next[j] == prev[j]);
                    assert(is_import_of(before[j], prev[j]));
                }
            }
        }
    }
    assert(es.take(entries@.len() as int) =~= es);
    out
}

/// Reads a downloaded JSON list and gives the signatures that importing it
/// inserts; the parser's message where `body` is not a JSON array.
pub fn import_list(body: &str) -> (res: Result<Vec<NewSignature>, String>)
    ensures
        json_entries(body@) matches Err(m) ==> (res matches Err(e) && e@ == m),
        json_entries(body@) matches Ok(es) ==> (res matches Ok(v) && imports_of(v@, es)),
{
    let entries = parse_entries(body)?;
    Ok(import_entries(&entries))
}

/// An entry that the fetcher keeps: pattern text that is hexadecimal once
/// cleaned.
pub open spec fn fetch_keeps(e: EntryView) -> bool {
    &&& has_pattern(e)
    &&& all_hex_digits(cleaned_hex(text_or_empty(e.4)))
}

/// The test that keeps the entries the fetcher keeps.
pub open spec fn fetch_kept() -> spec_fn(EntryView) -> bool {
    |e: EntryView| fetch_keeps(e)
}

/// The fetched entry kept for a list entry.
pub open spec fn is_fetched_of(f: FetchedSig, e: EntryView) -> bool {
    &&& f.name@ == name_or_unknown(e.0)
    &&& f.mime is None
    &&& f.extension is None
    &&& f.offset == offset_or_zero(e.3)
    &&& f.hex@ == cleaned_hex(text_or_empty(e.4))
}

/// For every entry of `es` with ASCII pattern text, the cleaned text is the
/// ASCII upper-case form of that text without spaces and dashes.
pub open spec fn ascii_cleaning(es: Seq<EntryView>) -> bool {
    forall|i: int|
        0 <= i < es.len() && has_pattern(#[trigger] es[i]) && all_ascii(text_or_empty(es[i].4)) ==> cleaned_hex(
            text_or_empty(es[i].4),
        ) == ascii_upper(stripped_hex(text_or_empty(es[i].4)))
}

/// `v` holds, in order, the entries that the fetcher keeps of `es`; on
/// ASCII pattern text the cleaning is the ASCII one.
pub open spec fn fetched_of(v: Seq<FetchedSig>, es: Seq<EntryView>) -> bool {
    let kept = keep_entries(es, fetch_kept());
    &&& ascii_cleaning(es)
    &&& v.len() == kept.len()
    &&& forall|i: int| 0 <= i < v.len() ==> is_fetched_of(#[trigger] v[i], kept[i])
}

/// The entries that the fetcher keeps of a downloaded list, in order, as
/// `fetched_entry` makes them.
pub fn fetched_entries(entries: &Vec<RawEntry>) -> (res: Vec<FetchedSig>)
    ensures
        fetched_of(res@, raw_views(entries@)),
{
    let ghost es = raw_views(entries@);
    let ghost keep = fetch_kept();
    let mut out: Vec<FetchedSig> = Vec::new();
    for i in 0..entries.len()
        invariant
            es == raw_views(entries@),
            keep == (fetch_kept()),
            ascii_cleaning(es.take(i as int)),
            out@.len() == keep_entries(es.take(i as int), keep).len(),
            forall|j: int| 0 <= j < out@.len() ==> is_fetched_of(#[trigger] out@[j], keep_entries(es.take(i as int), keep)[j]),
    {
        let e = &entries[i];
        proof {
            lemma_keep_step(es, keep, i as int);
            assert(es[i as int] == raw_view(*e));
        }
        let ghost before = out@;
        if let Some(f) = fetched_entry(as_opt_str(&e.name), e.offset, as_opt_str(&e.hex)) {
            out.push(f);
        }
        proof {
            let prev = keep_entries(es.take(i as int), keep);
            let next = keep_entries(es.take(i + 1), keep);
            assert forall|j: int| 0 <= j < out@.len() implies is_fetched_of(#[trigger] out@[j], next[j]) by {
                if j < before.len() {
                    assert(out@[j] == before[j]);
                    assert(next[j] == prev[j]);
                    assert(is_fetched_of(before[j], prev[j]));
                }
            }
            assert forall|j: int|
                0 <= j < es.take(i + 1).len() && has_pattern(#[trigger] es.take(i + 1)[j]) && all_ascii(
                    text_or_empty(es.take(i + 1)[j].4),
                ) implies cleaned_hex(text_or_empty(es.take(i + 1)[j].4)) == ascii_upper(
                stripped_hex(text_or_empty(es.take(i + 1)[j].4)),
            ) by {
                if j < i {
                    assert(es.take(i + 1)[j] == es.take(i as int)[j]);
                }
            }
        }
    }
    assert(es.take(entries@.len() as int) =~= es);
    out
}

/// Reads a downloaded signature file and gives the entries the fetcher
/// keeps; the parser's message where `body` is not a JSON array.
pub fn fetched_list(body: &str) -> (res: Result<Vec<FetchedSig>, String>)
    ensures
        json_entries(body@) matches Err(m) ==> (res matches Err(e) && e@ == m),
        json_entries(body@) matches Ok(es) ==> (res matches Ok(v) && fetched_of(v@, es)),
{
    let entries = parse_entries(body)?;
    Ok(fetched_entries(&entries))
}

/// A listed file that the fetcher downloads, its name and URL read as empty
/// text where missing.
pub open spec fn lists_sig_file(e: EntryView) -> bool {
    ends_with(text_or_empty(e.0), ".sig"@) && text_or_empty(e.5).len() > 0
}

/// The test that keeps the entries that list a `.sig` file.
pub open spec fn sig_files() -> spec_fn(EntryView) -> bool {
    |e: EntryView| lists_sig_file(e)
}

/// `v` holds, in order, the name and download URL of each `.sig` file that
/// the listing `es` shows.
pub open spec fn sig_links_of(v: Seq<(String, String)>, es: Seq<EntryView>) -> bool {
    let kept = keep_entries(es, sig_files());
    &&& v.len() == kept.len()
    &&& forall|i: int|
        0 <= i < v.len() ==> #[trigger] v[i].0@ == text_or_empty(kept[i].0) && v[i].1@ == text_or_empty(
            kept[i].5,
        )
}

fn owned_or_empty(o: &Option<String>) -> (res: String)
    ensures
        res@ == text_or_empty(opt_view(*o)),
{
    match o {
        Some(s) => s.clone(),
        None => String::new(),
    }
}

/// The name and download URL of each `.sig` file of a repository listing,
/// in order.
pub fn sig_file_links(entries: &Vec<RawEntry>) -> (res: Vec<(String, String)>)
    ensures
        sig_links_of(res@, raw_views(entries@)),
{
    let ghost es = raw_views(entries@);
    let ghost keep = sig_files();
    let mut out: Vec<(String, String)> = Vec::new();
    for i in 0..entries.len()
        invariant
            es == raw_views(entries@),
            keep == (sig_files()),
            out@.len() == keep_entries(es.take(i as int), keep).len(),
            forall|j: int|
                0 <= j < out@.len() ==> #[trigger] out@[j].0@ == text_or_empty(keep_entries(es.take(i as int), keep)[j].0)
                    && out@[j].1@ == text_or_empty(keep_entries(es.take(i as int), keep)[j].5),
    {
        let e = &entries[i];
        proof {
            lemma_keep_step(es, keep, i as int);
            assert(es[i as int] == raw_view(*e));
        }
        let name = owned_or_empty(&e.name);
        let url = owned_or_empty(&e.download_url);
        if is_sig_file(name.as_str(), url.as_str()) {
            out.push((name, url));
        }
    }
    assert(es.take(entries@.len() as int) =~= es);
    out
}

/// Reads a repository listing and gives the name and download URL of each
/// `.sig` file in it; the parser's message where `body` is not a JSON array.
pub fn sig_file_urls(body: &str) -> (res: Result<Vec<(String, String)>, String>)
    ensures
        json_entries(body@) matches Err(m) ==> (res matches Err(e) && e@ == m),
        json_entries(body@) matches Ok(es) ==> (res matches Ok(v) && sig_links_of(v@, es)),
{
    let entries = parse_entries(body)?;
    Ok(sig_file_links(&entries))
}

/// Deduplication keeps one entry per pattern: no two kept entries share a
/// pattern, every entry's pattern is kept, and each kept entry is an entry
/// of the input.
pub proof fn lemma_first_of_each(s: Seq<FetchedSig>)
    ensures
        forall|i: int, j: int|
            0 <= i < j < first_of_each(s).len() ==> !same_key(first_of_each(s)[i], first_of_each(s)[j]),
        forall|i: int| 0 <= i < s.len() ==> has_key(first_of_each(s), #[trigger] s[i]),
        forall|i: int|
            0 <= i < first_of_each(s).len() ==> exists|m: int| 0 <= m < s.len() && s[m] == #[trigger] first_of_each(s)[i],
    decreases s.len(),
{
    if s.len() > 0 {
        let p = s.drop_last();
        lemma_first_of_each(p);
        let prev = first_of_each(p);
        let cur = first_of_each(s);
        let x = s.last();
        if has_key(prev, x) {
            assert forall|i: int| 0 <= i < s.len() implies has_key(cur, #[trigger] s[i]) by {
                if i < s.len() - 1 {
                    assert(p[i] == s[i]);
                }
            }
            assert forall|i: int| 0 <= i < cur.len() implies exists|m: int| 0 <= m < s.len() && s[m] == #[trigger] cur[i] by {
                let m = choose|m: int| 0 <= m < p.len() && p[m] == prev[i];
                assert(s[m] == p[m]);
            }
        } else {
            assert forall|i: int, j: int| 0 <= i < j < cur.len() implies !same_key(cur[i], cur[j]) by {
                if j == prev.len() {
                    assert(cur[i] == prev[i]);
                }
            }
            assert forall|i: int| 0 <= i < s.len() implies has_key(cur, #[trigger] s[i]) by {
                if i < s.len() - 1 {
                    assert(p[i] == s[i]);
                    let w = choose|w: int| 0 <= w < prev.len() && same_key(prev[w], p[i]);
                    assert(cur[w] == prev[w]);
                } else {
                    assert(cur[prev.len() as int] == x);
                }
            }
            assert forall|i: int| 0 <= i < cur.len() implies exists|m: int| 0 <= m < s.len() && s[m] == #[trigger] cur[i] by {
                if i < prev.len() {
                    let m = choose|m: int| 0 <= m < p.len() && p[m] == prev[i];
                    assert(s[m] == p[m]);
                } else {
                    assert(s[s.len() - 1] == cur[i]);
                }
            }
        }
    }
}

proof fn lemma_filter_drops(s: Seq<char>, keep: spec_fn(char) -> bool)
    ensures
        forall|i: int| 0 <= i < s.filter(keep).len() ==> keep(#[trigger] s.filter(keep)[i]),
        (forall|i: int| 0 <= i < s.len() ==> keep(#[trigger] s[i])) ==> s.filter(keep) == s,
    decreases s.len(),
{
    reveal(Seq::filter);
    if s.len() > 0 {
        lemma_filter_drops(s.drop_last(), keep);
        let prev = s.drop_last().filter(keep);
        assert forall|i: int| 0 <= i < s.filter(keep).len() implies keep(#[trigger] s.filter(keep)[i]) by {
            if i < prev.len() {
                assert(s.filter(keep)[i] == prev[i]);
            }
        }
        if forall|i: int| 0 <= i < s.len() ==> keep(#[trigger] s[i]) {
            assert forall|i: int| 0 <= i < s.drop_last().len() implies keep(#[trigger] s.drop_last()[i]) by {
                assert(s.drop_last()[i] == s[i]);
            }
            assert(s.drop_last().push(s.last()) =~= s);
        }
    }
}

/// Cleaning pattern text removes every space and dash and nothing else: no
/// space or dash is left, and text without spaces or dashes stays as it is.
pub proof fn lemma_stripped_hex(h: Seq<char>)
    ensures
        forall|i: int| 0 <= i < stripped_hex(h).len() ==> #[trigger] stripped_hex(h)[i] != ' ' && stripped_hex(h)[i] != '-',
        (forall|i: int| 0 <= i < h.len() ==> #[trigger] h[i] != ' ' && h[i] != '-') ==> stripped_hex(h) == h,
{
    let no_space = |x: char| x != ' ';
    let no_dash = |x: char| x != '-';
    lemma_filter_drops(h, no_space);
    lemma_filter_drops(h.filter(no_space), no_dash);
    let once = h.filter(no_space);
    assert forall|i: int| 0 <= i < stripped_hex(h).len() implies #[trigger] stripped_hex(h)[i] != ' ' && stripped_hex(h)[i]
        != '-' by {
        let c = stripped_hex(h)[i];
        assert(no_dash(c));
        assert(once.filter(no_dash).contains(c));
        lemma_filter_keeps(once, no_dash, i);
    }
}

proof fn lemma_filter_keeps(s: Seq<char>, keep: spec_fn(char) -> bool, i: int)
    requires
        0 <= i < s.filter(keep).len(),
    ensures
        exists|m: int| 0 <= m < s.len() && s[m] == s.filter(keep)[i],
    decreases s.len(),
{
    reveal(Seq::filter);
    if s.len() > 0 {
        let prev = s.drop_last().filter(keep);
        if i < prev.len() {
            assert(s.filter(keep)[i] == prev[i]);
            lemma_filter_keeps(s.drop_last(), keep, i);
            let m = choose|m: int| 0 <= m < s.drop_last().len() && s.drop_last()[m] == prev[i];
            assert(s[m] == s.drop_last()[m]);
        } else {
            assert(s[s.len() - 1] == s.filter(keep)[i]);
        }
    }
}

} // verus!
