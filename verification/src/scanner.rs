use vstd::prelude::*;

use crate::catalog::{
    distinct_ids, has_id, hits_at, lemma_match_sound_complete, lemma_matched_len_is_longest, match_bytes, matched_len,
    row_hit, sig_views, spec_match, spec_match_bytes, tried_len, PatternRow, SignatureTable,
};
use crate::hexcode::{hex_upper, spec_hex_upper};
use crate::sample::{spec_read, FileSample};
use crate::textdetect::{contains_bytes, contains_seq, detect_text, is_text_result, spec_classify, TEXT_SAMPLE_SIZE};
use crate::textutil::same_text;
use crate::types::{
    clone_opt, is_unknown_result, lemma_same_result_symmetric, opt_view, result_fields, same_result, unknown_name, ScanMode,
    ScanResponse, ScanResult, SegmentReport, Signature, SignatureView,
};

verus! {

/// Maximum number of bytes read at each offset of a quick scan.
pub const QUICK_SCAN_SIZE: u64 = 8192;

/// Overlap between consecutive segments, in bytes.
pub const SEGMENT_OVERLAP: u64 = 4096;

/// Files at least this large are scanned in segments.
pub const SEGMENT_THRESHOLD: u64 = 16 * 1024 * 1024;

/// Number of bytes probed at each segment start and inside containers.
pub const PROBE_SIZE: usize = 128;

/// The offsets a quick scan tries, in order.
pub open spec fn scan_offsets() -> Seq<u64> {
    seq![0u64, 4, 8, 16, 32, 64, 128, 256, 512, 1024]
}

/// The offsets a quick scan tries, in order.
pub(crate) fn scan_offsets_list() -> (res: [u64; 10])
    ensures
        res@ == scan_offsets(),
{
    let res: [u64; 10] = [0, 4, 8, 16, 32, 64, 128, 256, 512, 1024];
    assert(res@ =~= scan_offsets());
    res
}

/// The number of segments for a file of the given size.
pub open spec fn spec_segment_count(file_size: u64) -> u8 {
    if file_size < 512 * 1024 * 1024 {
        4
    } else if file_size < 4 * 1024 * 1024 * 1024 {
        8
    } else {
        16
    }
}

/// Default segment count for large files: 4 below 512 MiB, 8 below 4 GiB,
/// 16 from there on.
pub fn segment_count(file_size: u64) -> (res: u8)
    ensures
        res == spec_segment_count(file_size),
{
    if file_size < 512 * 1024 * 1024 {
        4
    } else if file_size < 4 * 1024 * 1024 * 1024 {
        8
    } else {
        16
    }
}

/// ASCII letters folded to lower case; every other byte kept.
pub open spec fn ascii_lower(b: u8) -> u8 {
    if 65 <= b && b <= 90 {
        (b + 32) as u8
    } else {
        b
    }
}

/// A byte string with its ASCII letters folded to lower case.
pub open spec fn lower_bytes(s: Seq<u8>) -> Seq<u8> {
    Seq::new(s.len(), |i: int| ascii_lower(s[i]))
}

/// The words that mark a container format: zip, rar, tar, 7z, gzip, bzip,
/// iso, cab, arj.
pub open spec fn container_words() -> Seq<Seq<u8>> {
    seq![
        seq![0x7Au8, 0x69, 0x70],
        seq![0x72u8, 0x61, 0x72],
        seq![0x74u8, 0x61, 0x72],
        seq![0x37u8, 0x7A],
        seq![0x67u8, 0x7A, 0x69, 0x70],
        seq![0x62u8, 0x7A, 0x69, 0x70],
        seq![0x69u8, 0x73, 0x6F],
        seq![0x63u8, 0x61, 0x62],
        seq![0x61u8, 0x72, 0x6A],
    ]
}

/// A type name names a container format: folded to lower case, it contains
/// one of the container words.
pub open spec fn is_container_name(name: Seq<char>) -> bool {
    exists|w: int|
        0 <= w < container_words().len() && contains_bytes(
            lower_bytes(vstd::utf8::encode_utf8(name)),
            #[trigger] container_words()[w],
        )
}

/// The container word at index `k`.
fn container_word(k: usize) -> (res: Vec<u8>)
    requires
        k < 9,
    ensures
        res@ == container_words()[k as int],
{
    let res = match k {
        0 => vec![0x7Au8, 0x69, 0x70],
        1 => vec![0x72u8, 0x61, 0x72],
        2 => vec![0x74u8, 0x61, 0x72],
        3 => vec![0x37u8, 0x7A],
        4 => vec![0x67u8, 0x7A, 0x69, 0x70],
        5 => vec![0x62u8, 0x7A, 0x69, 0x70],
        6 => vec![0x69u8, 0x73, 0x6F],
        7 => vec![0x63u8, 0x61, 0x62],
        _ => vec![0x61u8, 0x72, 0x6A],
    };
    assert(res@ =~= container_words()[k as int]);
    res
}

/// Whether a file type names a known container format: one of the
/// container words occurs in it, ignoring case. (Only ASCII letters fold;
/// no other character lower-cases to a string holding one of these words, so
/// this agrees with searching the `str::to_lowercase` form.)
pub fn is_known_container(name: &str) -> (res: bool)
    ensures
        res == is_container_name(name@),
{
    let bytes = name.as_bytes();
    let mut lower: Vec<u8> = Vec::new();
    for i in 0..bytes.len()
        invariant
            lower@ =~= lower_bytes(bytes@).take(i as int),
    {
        let b = bytes[i];
        let l = if b >= 65 && b <= 90 {
            b + 32
        } else {
            b
        };
        lower.push(l);
    }
    assert(lower@ =~= lower_bytes(bytes@));
    let mut found = false;
    for k in 0..9
        invariant
            lower@ == lower_bytes(vstd::utf8::encode_utf8(name@)),
            found <==> exists|w: int| 0 <= w < k && contains_bytes(lower@, #[trigger] container_words()[w]),
    {
        let word = container_word(k);
        if contains_seq(lower.as_slice(), word.as_slice()) {
            found = true;
        }
    }
    found
}

/// The result that reports signature `sig` found at `offset`.
pub open spec fn is_sig_result(r: ScanResult, sig: SignatureView, offset: u64, confidence: u8) -> bool {
    &&& r.file_type@ == sig.name
    &&& opt_view(r.mime) == sig.mime
    &&& opt_view(r.extension) == sig.extension
    &&& r.compression is None
    &&& r.offset == offset
    &&& r.confidence == confidence
    &&& !r.has_password
    &&& r.header_hex is None
    &&& r.inner_name is None
}

/// The results report the finds `cs`, in order, each without children.
pub open spec fn lists_finds(rs: Seq<ScanResult>, cs: Seq<(u64, SignatureView)>, confidence: u8) -> bool {
    &&& rs.len() == cs.len()
    &&& forall|j: int|
        0 <= j < rs.len() ==> is_sig_result(#[trigger] rs[j], cs[j].1, cs[j].0, confidence)
            && rs[j].children@.len() == 0
}

/// The first signature that probing `len` bytes at `offset` reports, if the
/// read succeeded and some signature matched.
pub open spec fn probe(rows: Seq<PatternRow>, sample: FileSample, offset: u64, len: usize) -> Option<SignatureView> {
    match spec_read(sample, offset, len) {
        Some(Ok(b)) => {
            let sigs = spec_match_bytes(rows, offset, b);
            if sigs.len() > 0 {
                Some(sigs[0])
            } else {
                None
            }
        },
        _ => None,
    }
}

/// The result for a signature found at `offset`.
fn found_result(sig: &Signature, offset: u64, confidence: u8) -> (res: ScanResult)
    ensures
        is_sig_result(res, sig@, offset, confidence),
        res.children@.len() == 0,
{
    ScanResult {
        file_type: sig.name.clone(),
        mime: clone_opt(&sig.mime),
        extension: clone_opt(&sig.extension),
        compression: None,
        offset,
        confidence,
        has_password: false,
        header_hex: None,
        inner_name: None,
        children: Vec::new(),
    }
}

/// The uppercase hexadecimal text of the bytes that a read of `len` bytes at
/// `offset` returned; a failed read is an error.
pub fn read_hex_at(sample: &FileSample, offset: u64, len: usize) -> (res: Result<String, String>)
    ensures
        spec_read(*sample, offset, len) matches Some(Ok(b)) ==> (res matches Ok(h) && h@ == spec_hex_upper(b)),
        spec_read(*sample, offset, len) matches Some(Err(m)) ==> (res matches Err(e) && e@ == m),
        spec_read(*sample, offset, len) is None ==> res is Err,
{
    let bytes = sample.read(offset, len)?;
    Ok(hex_upper(bytes.as_slice()))
}

/// Reads `scan_len` bytes at `offset` and returns the signatures matching
/// them there (see `match_bytes`); a failed read is an error.
pub fn match_at_offset(table: &SignatureTable, sample: &FileSample, offset: u64, scan_len: usize) -> (res: Result<Vec<Signature>, String>)
    ensures
        spec_read(*sample, offset, scan_len) matches Some(Ok(b)) ==> (res matches Ok(v) && sig_views(v@)
            == spec_match_bytes(table.rows@, offset, b)),
        spec_read(*sample, offset, scan_len) matches Some(Err(m)) ==> (res matches Err(e) && e@ == m),
        spec_read(*sample, offset, scan_len) is None ==> res is Err,
        res matches Ok(v) ==> distinct_ids(sig_views(v@)),
{
    let bytes = sample.read(offset, scan_len)?;
    Ok(match_bytes(table, bytes.as_slice(), offset))
}

/// The probe offset of step `i` inside a container of the given size.
pub open spec fn container_offset(size: u64, i: int) -> int {
    i * (size / 16) as int
}

/// The embedded files that container probing finds from step `i` on: at
/// `i * (size / 16)` for `i` below 16 and while inside the file, the first
/// signature matching 128 bytes there, unless its extension is `.zip`.
pub open spec fn container_from(rows: Seq<PatternRow>, sample: FileSample, i: int) -> Seq<(u64, SignatureView)>
    decreases 16 - i,
{
    if i < 1 || i >= 16 || container_offset(sample.size, i) >= sample.size {
        seq![]
    } else {
        let off = container_offset(sample.size, i) as u64;
        let rest = container_from(rows, sample, i + 1);
        match probe(rows, sample, off, 128) {
            Some(sig) => if sig.extension != Some(".zip"@) {
                seq![(off, sig)] + rest
            } else {
                rest
            },
            None => rest,
        }
    }
}

pub(crate) proof fn lemma_container_offset(size: u64, i: int)
    requires
        0 <= i <= 16,
    ensures
        0 <= container_offset(size, i) <= size,
        i < 16 ==> container_offset(size, i) + (size / 16) as int <= size,
{
    let step = (size / 16) as int;
    assert(0 <= i * step <= 16 * step) by (nonlinear_arith)
        requires
            0 <= i <= 16,
            step >= 0,
    ;
    assert(i < 16 ==> i * step + step <= 16 * step) by (nonlinear_arith)
        requires
            0 <= i <= 16,
            step >= 0,
    ;
    assert(16 * step <= size);
}

/// The embedded file that probing 128 bytes at `offset` reports, if any.
pub open spec fn child_find(rows: Seq<PatternRow>, sample: FileSample, offset: u64) -> Option<SignatureView> {
    match probe(rows, sample, offset, 128) {
        Some(sig) => if sig.extension != Some(".zip"@) {
            Some(sig)
        } else {
            None
        },
        None => None,
    }
}

/// Probes 128 bytes at `offset` inside a container.
fn probe_child(table: &SignatureTable, sample: &FileSample, offset: u64) -> (res: Option<ScanResult>)
    ensures
        child_find(table.rows@, *sample, offset) matches Some(sig) ==> (res matches Some(r)
            && is_sig_result(r, sig, offset, 70) && r.children@.len() == 0),
        child_find(table.rows@, *sample, offset) is None ==> res is None,
{
    match match_at_offset(table, sample, offset, PROBE_SIZE) {
        Ok(matched) => {
            if matched.len() > 0 {
                let sig = &matched[0];
                assert(sig_views(matched@)[0] == sig@);
                let is_zip = match &sig.extension {
                    Some(e) => same_text(e.as_str(), ".zip"),
                    None => false,
                };
                if !is_zip {
                    Some(found_result(sig, offset, 70))
                } else {
                    None
                }
            } else {
                None
            }
        },
        Err(_) => None,
    }
}

proof fn lemma_lists_finds_push(rs: Seq<ScanResult>, cs: Seq<(u64, SignatureView)>, r: ScanResult, c: (u64, SignatureView))
    requires
        lists_finds(rs, cs, 70),
        is_sig_result(r, c.1, c.0, 70),
        r.children@.len() == 0,
    ensures
        lists_finds(rs.push(r), cs.push(c), 70),
{
    assert forall|j: int| 0 <= j < rs.push(r).len() implies is_sig_result(
        #[trigger] rs.push(r)[j],
        cs.push(c)[j].1,
        cs.push(c)[j].0,
        70,
    ) && rs.push(r)[j].children@.len() == 0 by {
        if j < rs.len() {
            assert(rs.push(r)[j] == rs[j]);
        }
    }
}

/// Probes inside a container for embedded file signatures.
pub fn scan_container(table: &SignatureTable, sample: &FileSample) -> (res: Vec<ScanResult>)
    ensures
        lists_finds(res@, container_from(table.rows@, *sample, 1), 70),
{
    let size = sample.size;
    let step = size / 16;
    let mut children: Vec<ScanResult> = Vec::new();
    let ghost all = container_from(table.rows@, *sample, 1);
    let ghost mut found: Seq<(u64, SignatureView)> = seq![];
    let mut i: u64 = 1;
    while i < 16
        invariant
            1 <= i <= 16,
            size == sample.size,
            step == size / 16,
            all == container_from(table.rows@, *sample, 1),
            all == found + container_from(table.rows@, *sample, i as int),
            lists_finds(children@, found, 70),
        ensures
            all == found + container_from(table.rows@, *sample, i as int),
            lists_finds(children@, found, 70),
            container_from(table.rows@, *sample, i as int) == Seq::<(u64, SignatureView)>::empty(),
        decreases 16 - i,
    {
        proof {
            lemma_container_offset(size, i as int);
        }
        let offset = i * step;
        if offset >= size {
            break;
        }
        let ghost rest = container_from(table.rows@, *sample, i + 1);
        assert(container_from(table.rows@, *sample, i as int) == match child_find(
            table.rows@,
            *sample,
            offset,
        ) {
            Some(sig) => seq![(offset, sig)] + rest,
            None => rest,
        });
        match probe_child(table, sample, offset) {
            Some(r) => {
                let ghost c = (offset, child_find(table.rows@, *sample, offset)->0);
                proof {
                    lemma_lists_finds_push(children@, found, r, c);
                    assert(found.push(c) + rest =~= found + (seq![c] + rest));
                    found = found.push(c);
                }
                children.push(r);
            },
            None => {},
        }
        i = i + 1;
    }
    assert(found + Seq::<(u64, SignatureView)>::empty() =~= found);
    children
}

/// How a quick scan over the header offsets ends.
pub enum QuickFind {
    /// A read failed before any offset matched; with the read's error
    /// message when the sample holds that read.
    Failed(Option<Seq<char>>),
    /// The signature found at the given offset.
    Found(u64, SignatureView),
    /// No offset matched.
    NotFound,
}

/// The number of bytes a quick scan reads at `offset`.
pub open spec fn quick_len(size: u64, offset: u64) -> usize {
    if size - offset < 8192 {
        (size - offset) as usize
    } else {
        8192
    }
}

/// A quick scan from the `k`-th header offset on: the first offset inside
/// the file where some signature matches the bytes read there.
pub open spec fn quick_from(rows: Seq<PatternRow>, sample: FileSample, k: int) -> QuickFind
    decreases 10 - k,
{
    if k < 0 || k >= 10 || scan_offsets()[k] >= sample.size {
        QuickFind::NotFound
    } else {
        let off = scan_offsets()[k];
        match spec_read(sample, off, quick_len(sample.size, off)) {
            Some(Ok(b)) => {
                let sigs = spec_match_bytes(rows, off, b);
                if sigs.len() > 0 {
                    QuickFind::Found(off, sigs[0])
                } else {
                    quick_from(rows, sample, k + 1)
                }
            },
            Some(Err(m)) => QuickFind::Failed(Some(m)),
            None => QuickFind::Failed(None),
        }
    }
}

/// The result of the text fallback: a text guess from the first 2048 bytes,
/// or "Unknown" when they are not text or could not be read.
pub open spec fn is_text_fallback(r: ScanResult, sample: FileSample) -> bool {
    match spec_read(sample, 0, 2048) {
        Some(Ok(b)) => match spec_classify(b) {
            Some(k) => is_text_result(r, k),
            None => is_unknown_result(r),
        },
        _ => is_unknown_result(r),
    }
}

/// The embedded files that a quick scan lists for a signature it found.
pub open spec fn quick_children(rows: Seq<PatternRow>, sample: FileSample, sig: SignatureView) -> Seq<(u64, SignatureView)> {
    if is_container_name(sig.name) {
        container_from(rows, sample, 1)
    } else {
        seq![]
    }
}

/// The result of a quick scan, as `quick_scan` reports it.
pub open spec fn is_quick_result(res: Result<ScanResult, String>, rows: Seq<PatternRow>, sample: FileSample) -> bool {
    match quick_from(rows, sample, 0) {
        QuickFind::Failed(m) => res matches Err(e) && (m matches Some(t) ==> e@ == t),
        QuickFind::Found(off, sig) => res matches Ok(r) && is_sig_result(r, sig, off, 90) && lists_finds(
            r.children@,
            quick_children(rows, sample, sig),
            70,
        ),
        QuickFind::NotFound => res matches Ok(r) && is_text_fallback(r, sample),
    }
}

/// Checks whether the file is plain text by sampling its first 2048 bytes.
pub fn detect_text_file(sample: &FileSample) -> (res: ScanResult)
    ensures
        is_text_fallback(res, *sample),
{
    match sample.read(0, TEXT_SAMPLE_SIZE) {
        Ok(buf) => detect_text(buf.as_slice()),
        Err(_) => ScanResult::unknown(),
    }
}

/// The result for a signature found by a quick scan at `offset`, with the
/// embedded files of a container.
fn quick_found(table: &SignatureTable, sample: &FileSample, sig: &Signature, offset: u64) -> (res: ScanResult)
    ensures
        is_sig_result(res, sig@, offset, 90),
        lists_finds(res.children@, quick_children(table.rows@, *sample, sig@), 70),
{
    let mut result = found_result(sig, offset, 90);
    if is_known_container(sig.name.as_str()) {
        result.children = scan_container(table, sample);
    } else {
        assert(quick_children(table.rows@, *sample, sig@) =~= seq![]);
    }
    result
}

/// Quick scan: matches the header bytes at the common offsets 0, 4, 8, 16,
/// ..., 1024 (up to 8192 bytes each) and reports the first offset where a
/// signature matches, with the embedded files of a container; falls back to
/// text detection.
pub fn quick_scan(table: &SignatureTable, sample: &FileSample) -> (res: Result<ScanResult, String>)
    ensures
        is_quick_result(res, table.rows@, *sample),
{
    let size = sample.size;
    let offsets = scan_offsets_list();
    let mut k: usize = 0;
    while k < 10
        invariant
            0 <= k <= 10,
            size == sample.size,
            offsets@ == scan_offsets(),
            quick_from(table.rows@, *sample, 0) == quick_from(table.rows@, *sample, k as int),
        ensures
            quick_from(table.rows@, *sample, 0) == QuickFind::NotFound,
        decreases 10 - k,
    {
        let offset = offsets[k];
        if offset >= size {
            break;
        }
        let remaining: usize = if size - offset < QUICK_SCAN_SIZE {
            (size - offset) as usize
        } else {
            QUICK_SCAN_SIZE as usize
        };
        assert(remaining == quick_len(size, offset));
        let matched = match_at_offset(table, sample, offset, remaining)?;
        if matched.len() > 0 {
            let sig = &matched[0];
            assert(sig_views(matched@)[0] == sig@);
            return Ok(quick_found(table, sample, sig, offset));
        }
        k = k + 1;
    }
    Ok(detect_text_file(sample))
}

/// Start of segment `i` when a file of `size` bytes is cut into `n`.
pub open spec fn seg_start(size: u64, n: u8, i: int) -> int {
    i * (size / n as u64) as int
}

/// Length of segment `i`: up to the next start plus the overlap, never past
/// the end of the file; the last segment runs to the end.
pub open spec fn seg_len(size: u64, n: u8, i: int) -> int {
    let start = seg_start(size, n, i);
    if i == n - 1 {
        size - start
    } else if (size / n as u64) + 4096 < size - start {
        (size / n as u64) + 4096
    } else {
        size - start
    }
}

/// The result reported for a segment whose probe found `find`.
pub open spec fn is_segment_result(r: ScanResult, find: Option<SignatureView>, offset: u64) -> bool {
    match find {
        Some(sig) => is_sig_result(r, sig, offset, 80) && r.children@.len() == 0,
        None => is_unknown_result(r),
    }
}

/// The prefix of a combined segmented result.
pub open spec fn multiple_prefix() -> Seq<char> {
    "Multiple types \u{2014} contains "@
}

/// The combined result of a segmented scan: the first segment's type, if it
/// has one, is reported as contained.
pub open spec fn is_combined(c: ScanResult, first: ScanResult) -> bool {
    if first.file_type@ != unknown_name() {
        &&& c.file_type@ == multiple_prefix() + first.file_type@
        &&& c.mime is None
        &&& c.extension is None
        &&& c.compression is None
        &&& c.offset == 0
        &&& c.confidence == 70
        &&& !c.has_password
        &&& c.header_hex is None
        &&& c.inner_name is None
        &&& c.children@.len() == 0
    } else {
        is_unknown_result(c)
    }
}

/// The response of a segmented scan in `n` segments.
pub open spec fn is_segmented_response(resp: ScanResponse, rows: Seq<PatternRow>, sample: FileSample, n: u8) -> bool {
    &&& resp.total_size == sample.size
    &&& resp.segments@.len() == n
    &&& forall|i: int|
        0 <= i < n ==> {
            let s = #[trigger] resp.segments@[i];
            &&& s.index == i
            &&& s.offset == seg_start(sample.size, n, i)
            &&& s.size == seg_len(sample.size, n, i)
            &&& is_segment_result(s.result, probe(rows, sample, s.offset, 128), s.offset)
        }
    &&& n > 0 ==> is_combined(resp.combined, resp.segments@[0].result)
}

pub(crate) proof fn lemma_segment_bounds(size: u64, n: u8, i: int)
    requires
        n > 0,
        0 <= i < n,
    ensures
        0 <= seg_start(size, n, i),
        seg_start(size, n, i) + (size / n as u64) as int <= size,
{
    let step = (size / n as u64) as int;
    assert(0 <= i * step) by (nonlinear_arith)
        requires
            0 <= i,
            0 <= step,
    ;
    assert(i * step + step <= (n as int) * step) by (nonlinear_arith)
        requires
            0 <= i < n,
            0 <= step,
    ;
    assert((n as int) * step <= size) by (nonlinear_arith)
        requires
            step == size / (n as u64),
            n > 0,
    ;
}

/// The result for one segment: the first signature matching 128 bytes at its
/// start, or "Unknown".
fn scan_segment(table: &SignatureTable, sample: &FileSample, offset: u64) -> (res: ScanResult)
    ensures
        is_segment_result(res, probe(table.rows@, *sample, offset, 128), offset),
{
    match match_at_offset(table, sample, offset, PROBE_SIZE) {
        Ok(matched) => {
            if matched.len() > 0 {
                let sig = &matched[0];
                assert(sig_views(matched@)[0] == sig@);
                found_result(sig, offset, 80)
            } else {
                ScanResult::unknown()
            }
        },
        Err(_) => ScanResult::unknown(),
    }
}

/// The combined result for a segmented scan whose first segment is `first`.
fn combine(first: &ScanResult) -> (res: ScanResult)
    ensures
        is_combined(res, *first),
{
    proof {
        reveal_strlit("Unknown");
        assert("Unknown"@ =~= unknown_name());
    }
    if !same_text(first.file_type.as_str(), "Unknown") {
        let mut t = String::from_str("Multiple types \u{2014} contains ");
        t.append(first.file_type.as_str());
        ScanResult {
            file_type: t,
            mime: None,
            extension: None,
            compression: None,
            offset: 0,
            confidence: 70,
            has_password: false,
            header_hex: None,
            inner_name: None,
            children: Vec::new(),
        }
    } else {
        assert(first.file_type@ =~= unknown_name());
        ScanResult::unknown()
    }
}

/// Segmented scan: cuts the file into `num_segments` segments that overlap
/// by 4096 bytes and probes 128 bytes at the start of each.
pub fn segmented_scan(table: &SignatureTable, sample: &FileSample, num_segments: u8) -> (res: ScanResponse)
    requires
        num_segments > 0,
        sample.size <= u64::MAX - SEGMENT_OVERLAP,
    ensures
        is_segmented_response(res, table.rows@, *sample, num_segments),
{
    let size = sample.size;
    let n = num_segments;
    let segment_size = size / (n as u64);
    let mut results: Vec<SegmentReport> = Vec::new();
    for i in 0..n
        invariant
            n > 0,
            size == sample.size,
            size <= u64::MAX - SEGMENT_OVERLAP,
            segment_size == size / (n as u64),
            results@.len() == i,
            forall|j: int|
                0 <= j < i ==> {
                    let s = #[trigger] results@[j];
                    &&& s.index == j
                    &&& s.offset == seg_start(size, n, j)
                    &&& s.size == seg_len(size, n, j)
                    &&& is_segment_result(s.result, probe(table.rows@, *sample, s.offset, 128), s.offset)
                },
    {
        proof {
            lemma_segment_bounds(size, n, i as int);
        }
        let start = (i as u64) * segment_size;
        let end = if i == n - 1 {
            size
        } else {
            start + segment_size + SEGMENT_OVERLAP
        };
        let seg_size = if end - start < size - start {
            end - start
        } else {
            size - start
        };
        let result = scan_segment(table, sample, start);
        results.push(SegmentReport { index: i as usize, offset: start, size: seg_size, result });
    }
    let combined = combine(&results[0].result);
    ScanResponse { total_size: size, segments: results, combined }
}

/// Whether a scan in `mode` of a file of `size` bytes is a quick scan.
pub open spec fn uses_quick(mode: ScanMode, size: u64) -> bool {
    mode is Quick || size < SEGMENT_THRESHOLD
}

/// A response holding one segment that spans the whole file and whose result
/// is also the combined result.
pub open spec fn is_single_response(resp: ScanResponse, size: u64) -> bool {
    &&& resp.total_size == size
    &&& resp.segments@.len() == 1
    &&& resp.segments@[0].index == 0
    &&& resp.segments@[0].offset == 0
    &&& resp.segments@[0].size == size
    &&& same_result(resp.segments@[0].result, resp.combined)
}

/// The outcome of scanning in `mode`.
pub open spec fn is_scan_result(res: Result<ScanResponse, String>, rows: Seq<PatternRow>, sample: FileSample, mode: ScanMode) -> bool {
    if uses_quick(mode, sample.size) {
        match res {
            Ok(resp) => is_single_response(resp, sample.size) && is_quick_result(
                Ok(resp.combined),
                rows,
                sample,
            ),
            Err(e) => is_quick_result(Err(e), rows, sample),
        }
    } else {
        res matches Ok(resp) && is_segmented_response(resp, rows, sample, mode->Segmented_0)
    }
}

/// The inputs on which a scan in `mode` is defined: a segmented scan of a
/// large file needs at least one segment.
pub open spec fn scan_mode_ok(mode: ScanMode, size: u64) -> bool {
    &&& mode matches ScanMode::Segmented(n) ==> (n > 0 || size < SEGMENT_THRESHOLD)
    &&& size <= u64::MAX - SEGMENT_OVERLAP
}

/// Main entry: runs a quick scan for `Quick` or for files below 16 MiB, a
/// segmented scan otherwise.
pub fn scan_file(table: &SignatureTable, sample: &FileSample, mode: ScanMode) -> (res: Result<ScanResponse, String>)
    requires
        scan_mode_ok(mode, sample.size),
    ensures
        is_scan_result(res, table.rows@, *sample, mode),
{
    let size = sample.size;
    match mode {
        ScanMode::Segmented(n) if size >= SEGMENT_THRESHOLD => Ok(segmented_scan(table, sample, n)),
        _ => {
            let result = quick_scan(table, sample)?;
            let copy = result.duplicate();
            let mut segments: Vec<SegmentReport> = Vec::new();
            segments.push(SegmentReport { index: 0, offset: 0, size, result: copy });
            proof {
                lemma_same_result_symmetric(result, copy);
            }
            Ok(ScanResponse { total_size: size, segments, combined: result })
        },
    }
}

/// The mode chosen for a file of the given size.
pub open spec fn spec_auto_mode(file_size: u64) -> ScanMode {
    if file_size < SEGMENT_THRESHOLD {
        ScanMode::Quick
    } else {
        ScanMode::Segmented(spec_segment_count(file_size))
    }
}

/// Decides the mode by file size: quick below 16 MiB, else segmented with
/// `segment_count` segments.
pub fn auto_mode(file_size: u64) -> (res: ScanMode)
    ensures
        res == spec_auto_mode(file_size),
{
    if file_size < SEGMENT_THRESHOLD {
        ScanMode::Quick
    } else {
        ScanMode::Segmented(segment_count(file_size))
    }
}

/// Scans in the mode that the file size decides.
pub fn scan_file_auto(table: &SignatureTable, sample: &FileSample) -> (res: Result<ScanResponse, String>)
    requires
        sample.size <= u64::MAX - SEGMENT_OVERLAP,
    ensures
        is_scan_result(res, table.rows@, *sample, spec_auto_mode(sample.size)),
{
    let mode = auto_mode(sample.size);
    scan_file(table, sample, mode)
}

/// The scan mode that a request names: "segmented" with the requested
/// number of segments (8 by default) clamped to 2..=64, a quick scan for any
/// other name.
pub open spec fn spec_requested_mode(mode: Seq<char>, segments: Option<u8>) -> ScanMode {
    if mode == "segmented"@ {
        let n: u8 = match segments {
            Some(n) => n,
            None => 8,
        };
        ScanMode::Segmented(
            if n < 2 {
                2
            } else if n > 64 {
                64
            } else {
                n
            },
        )
    } else {
        ScanMode::Quick
    }
}

/// The scan mode that a request names.
pub fn requested_mode(mode: &str, segments: Option<u8>) -> (res: ScanMode)
    ensures
        res == spec_requested_mode(mode@, segments),
{
    let n: u8 = match segments {
        Some(n) => n,
        None => 8,
    };
    let clamped: u8 = if n < 2 {
        2
    } else if n > 64 {
        64
    } else {
        n
    };
    if same_text(mode, "segmented") {
        ScanMode::Segmented(clamped)
    } else {
        ScanMode::Quick
    }
}

/// `r` is `before` without its children.
pub open spec fn stripped(r: ScanResult, before: ScanResult) -> bool {
    result_fields(r) == result_fields(before) && r.children@.len() == 0
}

/// Removes the embedded files from every result of a response.
pub fn strip_children(resp: &mut ScanResponse)
    ensures
        final(resp).total_size == old(resp).total_size,
        final(resp).segments@.len() == old(resp).segments@.len(),
        forall|i: int|
            0 <= i < old(resp).segments@.len() ==> {
                let s = #[trigger] final(resp).segments@[i];
                let t = old(resp).segments@[i];
                &&& s.index == t.index
                &&& s.offset == t.offset
                &&& s.size == t.size
                &&& stripped(s.result, t.result)
            },
        stripped(final(resp).combined, old(resp).combined),
{
    let n = resp.segments.len();
    let mut segments: Vec<SegmentReport> = Vec::new();
    let mut i: usize = 0;
    let ghost before = resp.segments@;
    while i < n
        invariant
            n == before.len(),
            resp.segments@.len() == n - i,
            forall|k: int| 0 <= k < n - i ==> resp.segments@[k] == before[(k + i) as int],
            segments@.len() == i,
            forall|k: int|
                0 <= k < i ==> {
                    let s = #[trigger] segments@[k];
                    let t = before[k];
                    &&& s.index == t.index
                    &&& s.offset == t.offset
                    &&& s.size == t.size
                    &&& stripped(s.result, t.result)
                },
            resp.total_size == old(resp).total_size,
            resp.combined == old(resp).combined,
            before == old(resp).segments@,
        decreases n - i,
    {
        let mut seg = resp.segments.remove(0);
        seg.result.children = Vec::new();
        segments.push(seg);
        i = i + 1;
    }
    resp.segments = segments;
    resp.combined.children = Vec::new();
}

/// Larger files never get fewer segments.
pub proof fn lemma_segment_count_monotone(a: u64, b: u64)
    requires
        a <= b,
    ensures
        spec_segment_count(a) <= spec_segment_count(b),
        spec_segment_count(a) == 4 || spec_segment_count(a) == 8 || spec_segment_count(a) == 16,
{
}

/// The segments of a segmented scan cover the whole file: the first starts
/// at 0, each reaches at least the start of the next, none runs past the end
/// of the file, and the last ends there.
pub proof fn lemma_segments_cover(size: u64, n: u8)
    requires
        n > 0,
    ensures
        seg_start(size, n, 0) == 0,
        forall|i: int|
            0 <= i < n ==> 0 <= seg_start(size, n, i) && 0 <= #[trigger] seg_len(size, n, i) && seg_start(size, n, i)
                + seg_len(size, n, i) <= size,
        forall|i: int|
            0 <= i < n - 1 ==> seg_start(size, n, i + 1) <= seg_start(size, n, i) + #[trigger] seg_len(size, n, i),
        seg_start(size, n, n - 1) + seg_len(size, n, n - 1) == size,
{
    let step = (size / n as u64) as int;
    assert forall|i: int| 0 <= i < n implies 0 <= seg_start(size, n, i) && 0 <= #[trigger] seg_len(size, n, i)
        && seg_start(size, n, i) + seg_len(size, n, i) <= size by {
        lemma_segment_bounds(size, n, i);
    }
    assert forall|i: int| 0 <= i < n - 1 implies seg_start(size, n, i + 1) <= seg_start(size, n, i)
        + #[trigger] seg_len(size, n, i) by {
        lemma_segment_bounds(size, n, i);
        assert((i + 1) * step == i * step + step) by (nonlinear_arith);
    }
    lemma_segment_bounds(size, n, n - 1);
}

/// A signature that bytes read at `offset` match has a pattern there, and
/// every pattern it is reported with spells the matched prefix of those
/// bytes.
pub proof fn lemma_reported_signature_matches(rows: Seq<PatternRow>, offset: u64, bytes: Seq<u8>, j: int)
    requires
        0 <= j < spec_match_bytes(rows, offset, bytes).len(),
    ensures
        matched_len(rows, offset, bytes) matches Some(k) && {
            let sig = spec_match_bytes(rows, offset, bytes)[j];
            &&& tried_len(bytes.len() as int, k)
            &&& sig.patterns.len() > 0
            &&& forall|m: int|
                0 <= m < sig.patterns.len() ==> (#[trigger] sig.patterns[m]).offset == offset as i64
                    && sig.patterns[m].hex_bytes == spec_hex_upper(bytes.take(k))
        },
{
    lemma_matched_len_is_longest(rows, offset, bytes);
    let k = matched_len(rows, offset, bytes)->0;
    lemma_match_sound_complete(rows, offset, spec_hex_upper(bytes.take(k)));
}

/// Some signature matches the bytes read at `offset` exactly when some
/// pattern at `offset` spells a prefix of them that the search tries.
pub proof fn lemma_match_bytes_nonempty(rows: Seq<PatternRow>, offset: u64, bytes: Seq<u8>)
    ensures
        spec_match_bytes(rows, offset, bytes).len() > 0 <==> exists|k: int|
            tried_len(bytes.len() as int, k) && #[trigger] hits_at(rows, offset, bytes, k),
{
    lemma_matched_len_is_longest(rows, offset, bytes);
    match matched_len(rows, offset, bytes) {
        Some(k) => {
            let hex = spec_hex_upper(bytes.take(k));
            lemma_match_sound_complete(rows, offset, hex);
            let i = choose|i: int| 0 <= i < rows.len() && row_hit(rows[i], offset, hex);
            assert(has_id(spec_match(rows, offset, hex), rows[i].sig_id));
        },
        None => {},
    }
}

/// A file whose first bytes start with a pattern at offset 0 (of at least
/// two bytes, or all that was read) is identified at offset 0 by the quick
/// scan.
pub proof fn lemma_header_match_identifies(rows: Seq<PatternRow>, sample: FileSample, bytes: Seq<u8>, k: int)
    requires
        sample.size > 0,
        spec_read(sample, 0, quick_len(sample.size, 0)) == Some(Ok::<Seq<u8>, Seq<char>>(bytes)),
        tried_len(bytes.len() as int, k),
        hits_at(rows, 0, bytes, k),
    ensures
        quick_from(rows, sample, 0) matches QuickFind::Found(off, sig) && off == 0 && sig
            == spec_match_bytes(rows, 0, bytes)[0],
{
    lemma_match_bytes_nonempty(rows, 0, bytes);
    assert(scan_offsets()[0] == 0);
}

/// The segments of a segmented scan in `n` segments of a file of `size`
/// bytes: there are `n` of them, numbered in order; segment `i` starts at
/// `i * (size / n)`; every segment but the last spans `size / n` bytes plus
/// the 4096-byte overlap, cut at the end of the file; the last one runs to
/// the end of the file.
pub proof fn lemma_segment_layout(resp: ScanResponse, rows: Seq<PatternRow>, sample: FileSample, n: u8)
    requires
        n > 0,
        is_segmented_response(resp, rows, sample, n),
    ensures
        resp.total_size == sample.size,
        resp.segments@.len() == n,
        forall|i: int|
            0 <= i < n ==> (#[trigger] resp.segments@[i]).index == i && resp.segments@[i].offset == i * (
            sample.size / (n as u64)) as int,
        forall|i: int|
            0 <= i < n - 1 ==> (#[trigger] resp.segments@[i]).size == (if (sample.size / (n as u64)) + 4096
                < sample.size - resp.segments@[i].offset {
                (sample.size / (n as u64)) + 4096
            } else {
                sample.size - resp.segments@[i].offset
            }),
        resp.segments@[n - 1].offset + resp.segments@[n - 1].size == sample.size,
{
    assert(resp.segments@[n - 1].index == n - 1);
}

/// The words zip, rar, tar, 7z, gzip, bzip, iso, cab and arj, in lower-case
/// ASCII.
pub open spec fn is_marker_word(word: Seq<u8>) -> bool {
    ||| word == seq![0x7Au8, 0x69, 0x70]
    ||| word == seq![0x72u8, 0x61, 0x72]
    ||| word == seq![0x74u8, 0x61, 0x72]
    ||| word == seq![0x37u8, 0x7A]
    ||| word == seq![0x67u8, 0x7A, 0x69, 0x70]
    ||| word == seq![0x62u8, 0x7A, 0x69, 0x70]
    ||| word == seq![0x69u8, 0x73, 0x6F]
    ||| word == seq![0x63u8, 0x61, 0x62]
    ||| word == seq![0x61u8, 0x72, 0x6A]
}

/// The byte `b` is the lower-case ASCII byte `c`, or the upper-case letter
/// for it.
pub open spec fn same_letter(b: u8, c: u8) -> bool {
    b == c || (65 <= b && b <= 90 && b + 32 == c)
}

/// `word` occurs at `j` in `s`, ignoring the case of ASCII letters.
pub open spec fn occurs_at_any_case(s: Seq<u8>, word: Seq<u8>, j: int) -> bool {
    &&& 0 <= j
    &&& j + word.len() <= s.len()
    &&& forall|t: int| 0 <= t < word.len() ==> same_letter(#[trigger] s[j + t], word[t])
}

proof fn lemma_words_listed(word: Seq<u8>)
    requires
        is_marker_word(word),
    ensures
        exists|w: int| 0 <= w < container_words().len() && container_words()[w] == word,
{
    let cw = container_words();
    if word == seq![0x7Au8, 0x69, 0x70] {
        assert(cw[0] == word);
    } else if word == seq![0x72u8, 0x61, 0x72] {
        assert(cw[1] == word);
    } else if word == seq![0x74u8, 0x61, 0x72] {
        assert(cw[2] == word);
    } else if word == seq![0x37u8, 0x7A] {
        assert(cw[3] == word);
    } else if word == seq![0x67u8, 0x7A, 0x69, 0x70] {
        assert(cw[4] == word);
    } else if word == seq![0x62u8, 0x7A, 0x69, 0x70] {
        assert(cw[5] == word);
    } else if word == seq![0x69u8, 0x73, 0x6F] {
        assert(cw[6] == word);
    } else if word == seq![0x63u8, 0x61, 0x62] {
        assert(cw[7] == word);
    } else {
        assert(cw[8] == word);
    }
}

proof fn lemma_listed_words(w: int)
    requires
        0 <= w < container_words().len(),
    ensures
        is_marker_word(container_words()[w]),
{
}

/// A file type names a container exactly when its UTF-8 text holds one of
/// the words zip, rar, tar, 7z, gzip, bzip, iso, cab, arj, in any mix of
/// upper- and lower-case ASCII letters; a quick scan lists the embedded files
/// of such a type.
pub proof fn lemma_container_names(name: Seq<char>)
    ensures
        is_container_name(name) <==> exists|word: Seq<u8>, j: int|
            is_marker_word(word) && occurs_at_any_case(vstd::utf8::encode_utf8(name), word, j),
{
    let s = vstd::utf8::encode_utf8(name);
    let lower = lower_bytes(s);
    if is_container_name(name) {
        let w = choose|w: int|
            0 <= w < container_words().len() && contains_bytes(lower, #[trigger] container_words()[w]);
        let word = container_words()[w];
        lemma_listed_words(w);
        let j = choose|j: int|
            0 <= j && j + word.len() <= lower.len() && #[trigger] lower.subrange(j, j + word.len()) == word;
        assert forall|t: int| 0 <= t < word.len() implies same_letter(#[trigger] s[j + t], word[t]) by {
            assert(lower.subrange(j, j + word.len())[t] == lower[j + t]);
        }
        assert(occurs_at_any_case(s, word, j));
    }
    if exists|word: Seq<u8>, j: int| is_marker_word(word) && occurs_at_any_case(s, word, j) {
        let (word, j) = choose|word: Seq<u8>, j: int| is_marker_word(word) && occurs_at_any_case(s, word, j);
        lemma_words_listed(word);
        let w = choose|w: int| 0 <= w < container_words().len() && container_words()[w] == word;
        assert forall|t: int| 0 <= t < word.len() implies lower[j + t] == word[t] by {
            assert(same_letter(s[j + t], word[t]));
            assert(word[t] < 65 || word[t] > 90);
        }
        assert(lower.subrange(j, j + word.len()) =~= word);
        assert(contains_bytes(lower, container_words()[w]));
    }
}

/// The scan mode that a file's size decides: a quick scan below 16 MiB; from
/// there on 4 segments below 512 MiB, 8 below 4 GiB and 16 from 4 GiB on.
pub proof fn lemma_scan_mode_choice(file_size: u64)
    ensures
        file_size < 16777216 ==> spec_auto_mode(file_size) == ScanMode::Quick,
        16777216 <= file_size < 536870912 ==> spec_auto_mode(file_size) == ScanMode::Segmented(4),
        536870912 <= file_size < 4294967296 ==> spec_auto_mode(file_size) == ScanMode::Segmented(8),
        4294967296 <= file_size ==> spec_auto_mode(file_size) == ScanMode::Segmented(16),
{
}

/// What a segmented scan reports of each segment and as its combined
/// result: each segment holds the first signature that matches the 128 bytes
/// read at its start, with confidence 80 and no embedded files, or
/// "Unknown"; the combined result reports the first segment's type as
/// "Multiple types — contains <type>" with confidence 70, or is "Unknown"
/// when the first segment found nothing.
pub proof fn lemma_segmented_results(resp: ScanResponse, rows: Seq<PatternRow>, sample: FileSample, n: u8)
    requires
        n > 0,
        is_segmented_response(resp, rows, sample, n),
    ensures
        forall|i: int|
            0 <= i < n ==> {
                let s = #[trigger] resp.segments@[i];
                match probe(rows, sample, s.offset, 128) {
                    Some(sig) => s.result.file_type@ == sig.name && s.result.confidence == 80 && s.result.offset
                        == s.offset && s.result.children@.len() == 0,
                    None => s.result.file_type@ == "Unknown"@ && s.result.confidence == 0,
                }
            },
        resp.segments@[0].result.file_type@ != "Unknown"@ ==> resp.combined.file_type@ == "Multiple types \u{2014} contains "@
            + resp.segments@[0].result.file_type@ && resp.combined.confidence == 70 && resp.combined.offset == 0
            && resp.combined.mime is None && resp.combined.extension is None,
        resp.segments@[0].result.file_type@ == "Unknown"@ ==> resp.combined.file_type@ == "Unknown"@
            && resp.combined.confidence == 0,
{
    reveal_strlit("Unknown");
    reveal_strlit("Multiple types \u{2014} contains ");
    assert("Unknown"@ =~= unknown_name());
    assert forall|i: int| 0 <= i < n implies {
        let s = #[trigger] resp.segments@[i];
        match probe(rows, sample, s.offset, 128) {
            Some(sig) => s.result.file_type@ == sig.name && s.result.confidence == 80 && s.result.offset == s.offset
                && s.result.children@.len() == 0,
            None => s.result.file_type@ == "Unknown"@ && s.result.confidence == 0,
        }
    } by {
        let s = resp.segments@[i];
        assert(is_segment_result(s.result, probe(rows, sample, s.offset, 128), s.offset));
    }
}

/// The header offsets of a quick scan, in the order it tries them.
pub open spec fn header_offsets() -> Seq<u64> {
    seq![0u64, 4, 8, 16, 32, 64, 128, 256, 512, 1024]
}

/// The bytes read at a header offset: up to 8192, never past the end.
pub open spec fn header_read(sample: FileSample, off: u64) -> Option<Result<Seq<u8>, Seq<char>>> {
    let len = if sample.size - off < 8192 {
        sample.size - off
    } else {
        8192
    };
    spec_read(sample, off, len as usize)
}

/// Nothing matches the bytes read at header offset `off`.
pub open spec fn no_header_match(rows: Seq<PatternRow>, sample: FileSample, off: u64) -> bool {
    header_read(sample, off) matches Some(Ok(b)) && spec_match_bytes(rows, off, b).len() == 0
}

proof fn lemma_quick_from_search(rows: Seq<PatternRow>, sample: FileSample, k0: int)
    requires
        0 <= k0 <= 10,
    ensures
        quick_from(rows, sample, k0) matches QuickFind::Found(off, sig) ==> exists|k: int|
            k0 <= k < 10 && off == header_offsets()[k] && off < sample.size && (header_read(sample, off) matches Some(
                Ok(b),
            ) && spec_match_bytes(rows, off, b).len() > 0 && sig == spec_match_bytes(rows, off, b)[0]) && forall|
                k2: int,
            | k0 <= k2 < k ==> no_header_match(rows, sample, #[trigger] header_offsets()[k2]),
        quick_from(rows, sample, k0) is NotFound ==> forall|k: int|
            k0 <= k < 10 && header_offsets()[k] < sample.size ==> no_header_match(
                rows,
                sample,
                #[trigger] header_offsets()[k],
            ),
    decreases 10 - k0,
{
    assert(scan_offsets() =~= header_offsets());
    let hs = header_offsets();
    assert(forall|a: int, b: int| 0 <= a < b < 10 ==> hs[a] < hs[b]);
    if k0 < 10 && hs[k0] < sample.size {
        lemma_quick_from_search(rows, sample, k0 + 1);
        let off = hs[k0];
        assert(quick_len(sample.size, off) as u64 == (if sample.size - off < 8192 { sample.size - off } else { 8192 }));
        if let QuickFind::Found(o, sig) = quick_from(rows, sample, k0) {
            if !(header_read(sample, off) matches Some(Ok(b)) && spec_match_bytes(rows, off, b).len() > 0) {
                let k = choose|k: int|
                    k0 + 1 <= k < 10 && o == header_offsets()[k] && o < sample.size && (header_read(sample, o) matches Some(
                        Ok(b),
                    ) && spec_match_bytes(rows, o, b).len() > 0 && sig == spec_match_bytes(rows, o, b)[0]) && forall|
                        k2: int,
                    | k0 + 1 <= k2 < k ==> no_header_match(rows, sample, #[trigger] header_offsets()[k2]);
                assert(forall|k2: int| k0 <= k2 < k ==> no_header_match(rows, sample, #[trigger] header_offsets()[k2]));
            }
        }
    }
}

/// A quick scan tries the header offsets 0, 4, 8, 16, 32, 64, 128, 256, 512
/// and 1024 in turn, reading up to 8192 bytes at each offset inside the file:
/// it reports the first offset at which some signature matches, with the
/// first signature matching there; it reports no match only when nothing
/// matches at any of them.
pub proof fn lemma_quick_scan_first_offset(rows: Seq<PatternRow>, sample: FileSample)
    ensures
        quick_from(rows, sample, 0) matches QuickFind::Found(off, sig) ==> exists|k: int|
            0 <= k < 10 && off == header_offsets()[k] && off < sample.size && (header_read(sample, off) matches Some(
                Ok(b),
            ) && spec_match_bytes(rows, off, b).len() > 0 && sig == spec_match_bytes(rows, off, b)[0]) && forall|
                k2: int,
            | 0 <= k2 < k ==> no_header_match(rows, sample, #[trigger] header_offsets()[k2]),
        quick_from(rows, sample, 0) is NotFound ==> forall|k: int|
            0 <= k < 10 && header_offsets()[k] < sample.size ==> no_header_match(
                rows,
                sample,
                #[trigger] header_offsets()[k],
            ),
{
    lemma_quick_from_search(rows, sample, 0);
}

/// Step `i` of container probing looks at `i * (size / 16)` and finds there
/// a signature that is not a `.zip` one.
pub open spec fn container_hit(rows: Seq<PatternRow>, sample: FileSample, i: int, off: u64, sig: SignatureView) -> bool {
    &&& 1 <= i < 16
    &&& off == i * (sample.size / 16) as int
    &&& off < sample.size
    &&& probe(rows, sample, off, 128) == Some(sig)
    &&& sig.extension != Some(".zip"@)
}

/// Some step from `i0` to 15 of container probing finds `c`.
pub open spec fn found_from_step(rows: Seq<PatternRow>, sample: FileSample, i0: int, c: (u64, SignatureView)) -> bool {
    exists|i: int| i0 <= i < 16 && #[trigger] container_hit(rows, sample, i, c.0, c.1)
}

proof fn lemma_container_from_hits(rows: Seq<PatternRow>, sample: FileSample, i0: int)
    requires
        1 <= i0 <= 16,
    ensures
        forall|j: int|
            0 <= j < container_from(rows, sample, i0).len() ==> found_from_step(
                rows,
                sample,
                i0,
                #[trigger] container_from(rows, sample, i0)[j],
            ),
        forall|i: int, off: u64, sig: SignatureView|
            i0 <= i < 16 && #[trigger] container_hit(rows, sample, i, off, sig) ==> container_from(rows, sample, i0).contains(
                (off, sig),
            ),
    decreases 16 - i0,
{
    let step = (sample.size / 16) as int;
    if i0 < 16 && container_offset(sample.size, i0) < sample.size {
        lemma_container_from_hits(rows, sample, i0 + 1);
        lemma_container_offset(sample.size, i0);
        let rest = container_from(rows, sample, i0 + 1);
        let cur = container_from(rows, sample, i0);
        assert forall|j: int| 0 <= j < cur.len() implies found_from_step(rows, sample, i0, #[trigger] cur[j]) by {
            if cur.len() > rest.len() && j == 0 {
                assert(container_hit(rows, sample, i0, cur[0].0, cur[0].1));
            } else {
                let r = if cur.len() > rest.len() {
                    j - 1
                } else {
                    j
                };
                assert(cur[j] == rest[r]);
                assert(found_from_step(rows, sample, i0 + 1, rest[r]));
                let i = choose|i: int| i0 + 1 <= i < 16 && #[trigger] container_hit(rows, sample, i, rest[r].0, rest[r].1);
                assert(container_hit(rows, sample, i, cur[j].0, cur[j].1));
            }
        }
        assert forall|i: int, o: u64, sig: SignatureView|
            i0 <= i < 16 && #[trigger] container_hit(rows, sample, i, o, sig) implies cur.contains((o, sig)) by {
            if i == i0 {
                assert(cur[0] == (o, sig));
            } else {
                let w = choose|w: int| 0 <= w < rest.len() && rest[w] == (o, sig);
                if cur.len() > rest.len() {
                    assert(cur[w + 1] == rest[w]);
                } else {
                    assert(cur[w] == rest[w]);
                }
            }
        }
    } else if i0 < 16 {
        assert forall|i: int, o: u64, sig: SignatureView|
            i0 <= i < 16 && #[trigger] container_hit(rows, sample, i, o, sig) implies false by {
            assert(i0 * step <= i * step) by (nonlinear_arith)
                requires
                    0 <= i0 <= i,
                    step >= 0,
            ;
        }
    }
}

/// The embedded files that probing a container lists: each is the first
/// signature matching 128 bytes at `i * (size / 16)` for some step `i` from 1
/// to 15 inside the file, and not a `.zip` one; and every such find is
/// listed.
pub proof fn lemma_container_children(rows: Seq<PatternRow>, sample: FileSample)
    ensures
        forall|j: int|
            0 <= j < container_from(rows, sample, 1).len() ==> found_from_step(
                rows,
                sample,
                1,
                #[trigger] container_from(rows, sample, 1)[j],
            ),
        forall|i: int, off: u64, sig: SignatureView|
            #[trigger] container_hit(rows, sample, i, off, sig) ==> container_from(rows, sample, 1).contains((off, sig)),
{
    lemma_container_from_hits(rows, sample, 1);
}

/// A request names a segmented scan only by the mode name "segmented": its
/// number of segments is the requested one (8 when none is given), raised to
/// at least 2 and lowered to at most 64; any other name asks for a quick
/// scan.
pub proof fn lemma_requested_mode(mode: Seq<char>, segments: Option<u8>)
    ensures
        mode != "segmented"@ ==> spec_requested_mode(mode, segments) == ScanMode::Quick,
        mode == "segmented"@ ==> (spec_requested_mode(mode, segments) matches ScanMode::Segmented(n) && 2 <= n <= 64
            && (segments is None ==> n == 8) && (segments matches Some(m) ==> (2 <= m <= 64 ==> n == m) && (m < 2
            ==> n == 2) && (m > 64 ==> n == 64))),
{
}

/// What a quick scan reports: a signature found at a header offset with
/// confidence 90, its name, MIME type and extension, and each embedded file
/// it lists with confidence 70 at that file's offset; without a match, a text
/// guess with confidence 70 or "Unknown" with confidence 0.
pub proof fn lemma_quick_result_fields(r: ScanResult, rows: Seq<PatternRow>, sample: FileSample)
    requires
        is_quick_result(Ok(r), rows, sample),
    ensures
        quick_from(rows, sample, 0) matches QuickFind::Found(off, sig) ==> {
            &&& r.file_type@ == sig.name
            &&& opt_view(r.mime) == sig.mime
            &&& opt_view(r.extension) == sig.extension
            &&& r.offset == off
            &&& r.confidence == 90
            &&& r.children@.len() == quick_children(rows, sample, sig).len()
            &&& forall|j: int|
                0 <= j < r.children@.len() ==> (#[trigger] r.children@[j]).confidence == 70 && r.children@[j].offset
                    == quick_children(rows, sample, sig)[j].0 && r.children@[j].file_type@ == quick_children(
                    rows,
                    sample,
                    sig,
                )[j].1.name
        },
        quick_from(rows, sample, 0) is NotFound ==> r.children@.len() == 0 && (r.confidence == 70 || (r.confidence
            == 0 && r.file_type@ == "Unknown"@)),
{
    reveal_strlit("Unknown");
    assert("Unknown"@ =~= unknown_name());
    if let QuickFind::Found(off, sig) = quick_from(rows, sample, 0) {
        assert forall|j: int| 0 <= j < r.children@.len() implies (#[trigger] r.children@[j]).confidence == 70
            && r.children@[j].offset == quick_children(rows, sample, sig)[j].0 && r.children@[j].file_type@
            == quick_children(rows, sample, sig)[j].1.name by {
            assert(is_sig_result(r.children@[j], quick_children(rows, sample, sig)[j].1, quick_children(rows, sample, sig)[j].0, 70));
        }
    }
}

} // verus!
