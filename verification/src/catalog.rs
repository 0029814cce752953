use vstd::prelude::*;

use crate::hexcode::{decode_hex_upper, hex_upper, lemma_hex_upper_injective, spec_hex_upper};
use crate::textutil::same_text;
use crate::types::{clone_opt, opt_view, MagicPattern, PatternView, Signature, SignatureView};

verus! {

/// One row of the signature/pattern join: a signature's fields, its
/// priority among signatures, and one of its patterns.
#[derive(Debug, Clone)]
pub struct PatternRow {
    pub sig_id: i64,
    pub name: String,
    pub mime: Option<String>,
    pub extension: Option<String>,
    pub priority: i64,
    pub offset: i64,
    pub hex_bytes: String,
    pub mask: Option<String>,
    pub endianness: String,
}

/// The signature database as a list of pattern rows. Lookups keep the order
/// of the rows; a table loaded highest priority first (`priority_ordered`)
/// lists the matches of a lookup that way too.
#[derive(Debug)]
pub struct SignatureTable {
    pub rows: Vec<PatternRow>,
}

/// Rows listed from the highest priority to the lowest.
pub open spec fn priority_ordered(rows: Seq<PatternRow>) -> bool {
    forall|i: int, j: int| 0 <= i < j < rows.len() ==> rows[i].priority >= rows[j].priority
}

/// The pattern that a row carries.
pub open spec fn row_pattern(r: PatternRow) -> PatternView {
    PatternView {
        offset: r.offset,
        hex_bytes: r.hex_bytes@,
        mask: opt_view(r.mask),
        endianness: r.endianness@,
    }
}

/// The signature that a row opens, with that row's pattern only.
pub open spec fn row_signature(r: PatternRow) -> SignatureView {
    SignatureView {
        id: r.sig_id,
        name: r.name@,
        mime: opt_view(r.mime),
        extension: opt_view(r.extension),
        patterns: seq![row_pattern(r)],
    }
}

/// No two signatures share an id.
pub open spec fn distinct_ids(sigs: Seq<SignatureView>) -> bool {
    forall|i: int, j: int| 0 <= i < sigs.len() && 0 <= j < sigs.len() && i != j ==> sigs[i].id != sigs[j].id
}

/// Whether some signature has the given id.
pub open spec fn has_id(sigs: Seq<SignatureView>, id: i64) -> bool {
    exists|j: int| 0 <= j < sigs.len() && sigs[j].id == id
}

/// Adds a row to grouped signatures: its pattern joins the signature with the
/// row's id, or the row opens a new signature at the end.
pub open spec fn add_row(sigs: Seq<SignatureView>, r: PatternRow) -> Seq<SignatureView> {
    if has_id(sigs, r.sig_id) {
        let j = choose|j: int| 0 <= j < sigs.len() && sigs[j].id == r.sig_id;
        sigs.update(j, SignatureView { patterns: sigs[j].patterns.push(row_pattern(r)), ..sigs[j] })
    } else {
        sigs.push(row_signature(r))
    }
}

/// Rows grouped by signature id, signatures in the order of their first row,
/// patterns in row order.
pub open spec fn group_rows(rows: Seq<PatternRow>) -> Seq<SignatureView>
    decreases rows.len(),
{
    if rows.len() == 0 {
        seq![]
    } else {
        add_row(group_rows(rows.drop_last()), rows.last())
    }
}

/// A row whose pattern sits at `offset` and spells `hex`.
pub open spec fn row_hit(r: PatternRow, offset: u64, hex: Seq<char>) -> bool {
    r.offset == offset as i64 && r.hex_bytes@ == hex
}

/// The rows whose pattern sits at `offset` and spells `hex`, in table order.
pub open spec fn select_rows(rows: Seq<PatternRow>, offset: u64, hex: Seq<char>) -> Seq<PatternRow>
    decreases rows.len(),
{
    if rows.len() == 0 {
        seq![]
    } else {
        let prev = select_rows(rows.drop_last(), offset, hex);
        if row_hit(rows.last(), offset, hex) {
            prev.push(rows.last())
        } else {
            prev
        }
    }
}

/// The signatures having a pattern that spells `hex` at `offset`.
pub open spec fn spec_match(rows: Seq<PatternRow>, offset: u64, hex: Seq<char>) -> Seq<SignatureView> {
    group_rows(select_rows(rows, offset, hex))
}

/// The data of a list of signatures.
pub open spec fn sig_views(sigs: Seq<Signature>) -> Seq<SignatureView> {
    sigs.map_values(|s: Signature| s@)
}

/// The pattern of a row, as a value.
fn pattern_of(r: &PatternRow) -> (res: MagicPattern)
    ensures
        res@ == row_pattern(*r),
{
    MagicPattern {
        offset: r.offset,
        hex_bytes: r.hex_bytes.clone(),
        mask: clone_opt(&r.mask),
        endianness: r.endianness.clone(),
    }
}

/// The signature a row opens.
fn signature_of(r: &PatternRow) -> (res: Signature)
    ensures
        res@ == row_signature(*r),
{
    let mut patterns: Vec<MagicPattern> = Vec::new();
    patterns.push(pattern_of(r));
    let res = Signature {
        id: r.sig_id,
        name: r.name.clone(),
        mime: clone_opt(&r.mime),
        extension: clone_opt(&r.extension),
        patterns,
    };
    assert(res@.patterns =~= seq![row_pattern(*r)]);
    res
}

/// Adds one row to grouped signatures.
fn add_row_to(sigs: &mut Vec<Signature>, r: &PatternRow)
    requires
        distinct_ids(sig_views(old(sigs)@)),
    ensures
        sig_views(final(sigs)@) == add_row(sig_views(old(sigs)@), *r),
        distinct_ids(sig_views(final(sigs)@)),
{
    let ghost before = sig_views(sigs@);
    let n = sigs.len();
    let mut j: usize = 0;
    while j < n && sigs[j].id != r.sig_id
        invariant
            n == sigs@.len(),
            sigs@ == old(sigs)@,
            j <= n,
            forall|k: int| 0 <= k < j ==> sigs@[k].id != r.sig_id,
        decreases n - j,
    {
        j = j + 1;
    }
    if j < n {
        assert(before[j as int].id == r.sig_id);
        assert(has_id(before, r.sig_id));
        assert((choose|k: int| 0 <= k < before.len() && before[k].id == r.sig_id) == j);
        let mut s = sigs.remove(j);
        let ghost old_patterns = s.patterns@;
        s.patterns.push(pattern_of(r));
        assert(s@.patterns =~= before[j as int].patterns.push(row_pattern(*r)));
        sigs.insert(j, s);
        assert(sig_views(sigs@) =~= add_row(before, *r));
    } else {
        assert(!has_id(before, r.sig_id));
        sigs.push(signature_of(r));
        assert(sig_views(sigs@) =~= add_row(before, *r));
    }
}

/// Groups the rows of `table`: all of them, or those whose pattern spells
/// `hex` at `offset` when `only` names them.
fn collect_rows(table: &SignatureTable, only: Option<(&str, u64)>) -> (res: Vec<Signature>)
    ensures
        only is None ==> sig_views(res@) == group_rows(table.rows@),
        only matches Some((hex, offset)) ==> sig_views(res@) == spec_match(table.rows@, offset, hex@),
        distinct_ids(sig_views(res@)),
{
    let mut out: Vec<Signature> = Vec::new();
    let n = table.rows.len();
    for i in 0..n
        invariant
            n == table.rows@.len(),
            distinct_ids(sig_views(out@)),
            only is None ==> sig_views(out@) == group_rows(table.rows@.take(i as int)),
            only matches Some((hex, offset)) ==> sig_views(out@) == group_rows(
                select_rows(table.rows@.take(i as int), offset, hex@),
            ),
    {
        let r = &table.rows[i];
        assert(table.rows@.take(i + 1).drop_last() =~= table.rows@.take(i as int));
        assert(table.rows@.take(i + 1).last() == *r);
        let keep = match only {
            None => true,
            Some((hex, offset)) => {
                let ghost prev_sel = select_rows(table.rows@.take(i as int), offset, hex@);
                let hit = r.offset == (#[verifier::truncate] (offset as i64)) && same_text(
                    r.hex_bytes.as_str(),
                    hex,
                );
                proof {
                    if hit {
                        assert(prev_sel.push(*r).drop_last() =~= prev_sel);
                    }
                }
                hit
            },
        };
        if keep {
            add_row_to(&mut out, r);
        }
    }
    assert(table.rows@.take(n as int) =~= table.rows@);
    out
}

/// All signatures of the table, each with all of its patterns, in the order
/// of their first row.
pub fn list_signatures(table: &SignatureTable) -> (res: Vec<Signature>)
    ensures
        sig_views(res@) == group_rows(table.rows@),
        distinct_ids(sig_views(res@)),
{
    collect_rows(table, None)
}

/// The signatures with a pattern that spells `hex_bytes` at `offset`, in the
/// order of their first such row; each carries the patterns that do.
pub fn match_signatures(table: &SignatureTable, hex_bytes: &str, offset: u64) -> (res: Vec<Signature>)
    ensures
        sig_views(res@) == spec_match(table.rows@, offset, hex_bytes@),
        distinct_ids(sig_views(res@)),
{
    collect_rows(table, Some((hex_bytes, offset)))
}

/// The prefix lengths that a search over `n` scanned bytes tries: the whole
/// buffer, then every shorter prefix of at least two bytes.
pub open spec fn tried_len(n: int, k: int) -> bool {
    k == n || (2 <= k && k <= n)
}

/// Some row has a pattern at `offset` that spells the first `k` bytes.
pub open spec fn hits_at(rows: Seq<PatternRow>, offset: u64, bytes: Seq<u8>, k: int) -> bool {
    exists|i: int| 0 <= i < rows.len() && row_hit(rows[i], offset, spec_hex_upper(bytes.take(k)))
}

/// Tries the prefixes of `k`, `k - 1`, ... down to two bytes; the first that
/// some row spells.
pub open spec fn search_down(rows: Seq<PatternRow>, offset: u64, bytes: Seq<u8>, k: int) -> Option<int>
    decreases k,
{
    if k < 2 {
        None
    } else if hits_at(rows, offset, bytes, k) {
        Some(k)
    } else {
        search_down(rows, offset, bytes, k - 1)
    }
}

/// The length of the prefix whose signatures a scan reports: the whole
/// buffer if some pattern spells it, else the longest prefix of at least two
/// bytes that some pattern spells.
pub open spec fn matched_len(rows: Seq<PatternRow>, offset: u64, bytes: Seq<u8>) -> Option<int> {
    if hits_at(rows, offset, bytes, bytes.len() as int) {
        Some(bytes.len() as int)
    } else {
        search_down(rows, offset, bytes, bytes.len() - 1)
    }
}

/// The signatures that a scan of `bytes` read at `offset` reports.
pub open spec fn spec_match_bytes(rows: Seq<PatternRow>, offset: u64, bytes: Seq<u8>) -> Seq<SignatureView> {
    match matched_len(rows, offset, bytes) {
        Some(k) => spec_match(rows, offset, spec_hex_upper(bytes.take(k))),
        None => seq![],
    }
}

proof fn lemma_search_down(rows: Seq<PatternRow>, offset: u64, bytes: Seq<u8>, k: int)
    ensures
        search_down(rows, offset, bytes, k) matches Some(m) ==> {
            &&& 2 <= m <= k
            &&& hits_at(rows, offset, bytes, m)
            &&& forall|j: int| m < j <= k ==> !hits_at(rows, offset, bytes, j)
        },
        search_down(rows, offset, bytes, k) is None ==> forall|j: int|
            2 <= j <= k ==> !hits_at(rows, offset, bytes, j),
    decreases k,
{
    if k >= 2 && !hits_at(rows, offset, bytes, k) {
        lemma_search_down(rows, offset, bytes, k - 1);
    }
}

/// The reported prefix is the longest tried prefix that some pattern spells.
pub proof fn lemma_matched_len_is_longest(rows: Seq<PatternRow>, offset: u64, bytes: Seq<u8>)
    ensures
        matched_len(rows, offset, bytes) matches Some(k) ==> {
            &&& tried_len(bytes.len() as int, k)
            &&& hits_at(rows, offset, bytes, k)
            &&& forall|j: int|
                tried_len(bytes.len() as int, j) && j > k ==> !hits_at(rows, offset, bytes, j)
        },
        matched_len(rows, offset, bytes) is None ==> forall|j: int|
            tried_len(bytes.len() as int, j) ==> !hits_at(rows, offset, bytes, j),
{
    lemma_search_down(rows, offset, bytes, bytes.len() - 1);
}

/// Whether `d` equals the first `d.len()` bytes of `bytes`.
fn is_prefix_of(d: &Vec<u8>, bytes: &[u8]) -> (res: bool)
    ensures
        res == (d@.len() <= bytes@.len() && d@ == bytes@.take(d@.len() as int)),
{
    let k = d.len();
    if k > bytes.len() {
        return false;
    }
    let mut i: usize = 0;
    while i < k
        invariant
            k == d@.len(),
            k <= bytes@.len(),
            i <= k,
            forall|j: int| 0 <= j < i ==> d@[j] == bytes@[j],
        decreases k - i,
    {
        if d[i] != bytes[i] {
            return false;
        }
        i = i + 1;
    }
    assert(d@ =~= bytes@.take(k as int));
    true
}

/// The longest tried prefix of `bytes` that some pattern at `offset` spells.
fn longest_hit(table: &SignatureTable, offset: u64, bytes: &[u8]) -> (res: Option<usize>)
    ensures
        res matches Some(k) ==> matched_len(table.rows@, offset, bytes@) == Some(k as int),
        res is None ==> matched_len(table.rows@, offset, bytes@) is None,
{
    let ghost rows = table.rows@;
    let ghost b = bytes@;
    let n = bytes.len();
    let mut best: Option<usize> = None;
    let count = table.rows.len();
    for i in 0..count
        invariant
            count == rows.len(),
            rows == table.rows@,
            b == bytes@,
            n == b.len(),
            best matches Some(k) ==> (tried_len(n as int, k as int) && exists|j: int|
                0 <= j < i && row_hit(rows[j], offset, spec_hex_upper(b.take(k as int)))),
            forall|j: int, k2: int|
                0 <= j < i && tried_len(n as int, k2) && #[trigger] row_hit(
                    rows[j],
                    offset,
                    spec_hex_upper(b.take(k2)),
                ) ==> (best matches Some(k) && k2 <= k),
    {
        let r = &table.rows[i];
        if r.offset == (#[verifier::truncate] (offset as i64)) {
            match decode_hex_upper(r.hex_bytes.as_str()) {
                Some(d) => {
                    let k = d.len();
                    let fits = is_prefix_of(&d, bytes) && (k == n || k >= 2);
                    proof {
                        assert forall|k2: int|
                            tried_len(n as int, k2) && row_hit(
                                rows[i as int],
                                offset,
                                spec_hex_upper(b.take(k2)),
                            ) implies fits && k2 == k by {
                            lemma_hex_upper_injective(d@, b.take(k2));
                        }
                    }
                    if fits {
                        assert(row_hit(rows[i as int], offset, spec_hex_upper(b.take(k as int))));
                        match best {
                            Some(m) => {
                                if k > m {
                                    best = Some(k);
                                }
                            },
                            None => {
                                best = Some(k);
                            },
                        }
                    }
                },
                None => {},
            }
        }
    }
    proof {
        lemma_matched_len_is_longest(rows, offset, b);
        match best {
            Some(k) => {
                assert(hits_at(rows, offset, b, k as int));
                match matched_len(rows, offset, b) {
                    Some(m) => {
                        if m != k {
                            assert(hits_at(rows, offset, b, m));
                            let j = choose|j: int|
                                0 <= j < rows.len() && row_hit(
                                    rows[j],
                                    offset,
                                    spec_hex_upper(b.take(m)),
                                );
                            assert(row_hit(rows[j], offset, spec_hex_upper(b.take(m))));
                        }
                    },
                    None => {},
                }
            },
            None => {
                match matched_len(rows, offset, b) {
                    Some(m) => {
                        let j = choose|j: int|
                            0 <= j < rows.len() && row_hit(rows[j], offset, spec_hex_upper(b.take(m)));
                        assert(row_hit(rows[j], offset, spec_hex_upper(b.take(m))));
                    },
                    None => {},
                }
            },
        }
    }
    best
}

/// The signatures that a scan of `bytes`, read at `offset`, reports: those
/// whose pattern at `offset` spells the longest tried prefix of `bytes` in
/// uppercase hexadecimal.
pub fn match_bytes(table: &SignatureTable, bytes: &[u8], offset: u64) -> (res: Vec<Signature>)
    ensures
        sig_views(res@) == spec_match_bytes(table.rows@, offset, bytes@),
        distinct_ids(sig_views(res@)),
{
    match longest_hit(table, offset, bytes) {
        Some(k) => {
            proof {
                lemma_matched_len_is_longest(table.rows@, offset, bytes@);
            }
            let prefix = vstd::slice::slice_subrange(bytes, 0, k);
            assert(prefix@ =~= bytes@.take(k as int));
            let hex = hex_upper(prefix);
            match_signatures(table, hex.as_str(), offset)
        },
        None => {
            let res: Vec<Signature> = Vec::new();
            assert(sig_views(res@) =~= seq![]);
            res
        },
    }
}

/// Grouping keeps every row: each row's id has a signature, each signature
/// has a pattern, and each pattern of a signature comes from a row with its
/// id.
pub proof fn lemma_group_rows(rows: Seq<PatternRow>)
    ensures
        distinct_ids(group_rows(rows)),
        forall|i: int| 0 <= i < rows.len() ==> has_id(group_rows(rows), #[trigger] rows[i].sig_id),
        forall|j: int| 0 <= j < group_rows(rows).len() ==> (#[trigger] group_rows(rows)[j]).patterns.len() > 0,
        forall|j: int, k: int|
            0 <= j < group_rows(rows).len() && 0 <= k < group_rows(rows)[j].patterns.len() ==> exists|i: int|
                0 <= i < rows.len() && rows[i].sig_id == group_rows(rows)[j].id
                    && #[trigger] group_rows(rows)[j].patterns[k] == row_pattern(rows[i]),
    decreases rows.len(),
{
    if rows.len() > 0 {
        let prev_rows = rows.drop_last();
        let r = rows.last();
        lemma_group_rows(prev_rows);
        let prev = group_rows(prev_rows);
        let cur = group_rows(rows);
        assert(cur == add_row(prev, r));
        if has_id(prev, r.sig_id) {
            let jj = choose|j: int| 0 <= j < prev.len() && prev[j].id == r.sig_id;
            assert forall|i: int| 0 <= i < rows.len() implies has_id(cur, #[trigger] rows[i].sig_id) by {
                if i < rows.len() - 1 {
                    assert(prev_rows[i] == rows[i]);
                    let w = choose|w: int| 0 <= w < prev.len() && prev[w].id == prev_rows[i].sig_id;
                    assert(cur[w].id == prev[w].id);
                } else {
                    assert(cur[jj].id == r.sig_id);
                }
            }
            assert forall|j: int, k: int|
                0 <= j < cur.len() && 0 <= k < cur[j].patterns.len() implies exists|i: int|
                    0 <= i < rows.len() && rows[i].sig_id == cur[j].id && #[trigger] cur[j].patterns[k]
                        == row_pattern(rows[i]) by {
                if j == jj && k == prev[j].patterns.len() {
                    assert(rows[rows.len() - 1] == r);
                } else {
                    let i = choose|i: int|
                        0 <= i < prev_rows.len() && prev_rows[i].sig_id == prev[j].id
                            && prev[j].patterns[k] == row_pattern(prev_rows[i]);
                    assert(rows[i] == prev_rows[i]);
                }
            }
        } else {
            assert forall|i: int| 0 <= i < rows.len() implies has_id(cur, #[trigger] rows[i].sig_id) by {
                if i < rows.len() - 1 {
                    assert(prev_rows[i] == rows[i]);
                    let w = choose|w: int| 0 <= w < prev.len() && prev[w].id == prev_rows[i].sig_id;
                    assert(cur[w] == prev[w]);
                } else {
                    assert(cur[prev.len() as int].id == r.sig_id);
                }
            }
            assert forall|j: int, k: int|
                0 <= j < cur.len() && 0 <= k < cur[j].patterns.len() implies exists|i: int|
                    0 <= i < rows.len() && rows[i].sig_id == cur[j].id && #[trigger] cur[j].patterns[k]
                        == row_pattern(rows[i]) by {
                if j == prev.len() {
                    assert(rows[rows.len() - 1] == r);
                } else {
                    let i = choose|i: int|
                        0 <= i < prev_rows.len() && prev_rows[i].sig_id == prev[j].id
                            && prev[j].patterns[k] == row_pattern(prev_rows[i]);
                    assert(rows[i] == prev_rows[i]);
                }
            }
        }
    }
}

/// The selected rows are exactly the rows whose pattern spells `hex` at
/// `offset`.
pub proof fn lemma_select_rows(rows: Seq<PatternRow>, offset: u64, hex: Seq<char>)
    ensures
        forall|i: int|
            0 <= i < select_rows(rows, offset, hex).len() ==> row_hit(
                #[trigger] select_rows(rows, offset, hex)[i],
                offset,
                hex,
            ) && exists|m: int| 0 <= m < rows.len() && rows[m] == select_rows(rows, offset, hex)[i],
        forall|m: int|
            0 <= m < rows.len() && row_hit(#[trigger] rows[m], offset, hex) ==> exists|i: int|
                0 <= i < select_rows(rows, offset, hex).len() && select_rows(rows, offset, hex)[i] == rows[m],
    decreases rows.len(),
{
    if rows.len() > 0 {
        let prev_rows = rows.drop_last();
        lemma_select_rows(prev_rows, offset, hex);
        let prev = select_rows(prev_rows, offset, hex);
        let cur = select_rows(rows, offset, hex);
        assert forall|i: int| 0 <= i < cur.len() implies row_hit(#[trigger] cur[i], offset, hex) && exists|m: int|
            0 <= m < rows.len() && rows[m] == cur[i] by {
            if i < prev.len() {
                assert(cur[i] == prev[i]);
                let m = choose|m: int| 0 <= m < prev_rows.len() && prev_rows[m] == prev[i];
                assert(rows[m] == prev_rows[m]);
            } else {
                assert(cur[i] == rows[rows.len() - 1]);
            }
        }
        assert forall|m: int| 0 <= m < rows.len() && row_hit(#[trigger] rows[m], offset, hex) implies exists|i: int|
            0 <= i < cur.len() && cur[i] == rows[m] by {
            if m < rows.len() - 1 {
                assert(prev_rows[m] == rows[m]);
                let i = choose|i: int| 0 <= i < prev.len() && prev[i] == prev_rows[m];
                assert(cur[i] == prev[i]);
            } else {
                assert(cur[prev.len() as int] == rows[m]);
            }
        }
    }
}

/// What a lookup reports: every signature having a pattern that spells `hex`
/// at `offset` (completeness), and each with only such patterns, at least
/// one (soundness).
pub proof fn lemma_match_sound_complete(rows: Seq<PatternRow>, offset: u64, hex: Seq<char>)
    ensures
        forall|m: int|
            0 <= m < rows.len() && row_hit(#[trigger] rows[m], offset, hex) ==> has_id(
                spec_match(rows, offset, hex),
                rows[m].sig_id,
            ),
        forall|j: int|
            0 <= j < spec_match(rows, offset, hex).len() ==> (#[trigger] spec_match(rows, offset, hex)[j]).patterns.len() > 0,
        forall|j: int, k: int|
            0 <= j < spec_match(rows, offset, hex).len() && 0 <= k < spec_match(rows, offset, hex)[j].patterns.len()
                ==> {
                let p = #[trigger] spec_match(rows, offset, hex)[j].patterns[k];
                p.offset == offset as i64 && p.hex_bytes == hex
            },
        distinct_ids(spec_match(rows, offset, hex)),
{
    let sel = select_rows(rows, offset, hex);
    lemma_select_rows(rows, offset, hex);
    lemma_group_rows(sel);
    let sigs = group_rows(sel);
    assert forall|m: int| 0 <= m < rows.len() && row_hit(#[trigger] rows[m], offset, hex) implies has_id(
        sigs,
        rows[m].sig_id,
    ) by {
        let i = choose|i: int| 0 <= i < sel.len() && sel[i] == rows[m];
        assert(has_id(sigs, sel[i].sig_id));
    }
    assert forall|j: int, k: int| 0 <= j < sigs.len() && 0 <= k < sigs[j].patterns.len() implies {
        let p = #[trigger] sigs[j].patterns[k];
        p.offset == offset as i64 && p.hex_bytes == hex
    } by {
        let i = choose|i: int|
            0 <= i < sel.len() && sel[i].sig_id == sigs[j].id && sigs[j].patterns[k] == row_pattern(sel[i]);
        assert(row_hit(sel[i], offset, hex));
    }
}

/// When no two rows share a signature id, listing gives one signature per
/// row, in row order.
pub proof fn lemma_group_distinct_rows(rows: Seq<PatternRow>)
    requires
        forall|i: int, j: int| 0 <= i < j < rows.len() ==> rows[i].sig_id != rows[j].sig_id,
    ensures
        group_rows(rows).len() == rows.len(),
        forall|i: int| 0 <= i < rows.len() ==> #[trigger] group_rows(rows)[i] == row_signature(rows[i]),
    decreases rows.len(),
{
    if rows.len() > 0 {
        let prev_rows = rows.drop_last();
        lemma_group_distinct_rows(prev_rows);
        let prev = group_rows(prev_rows);
        assert(!has_id(prev, rows.last().sig_id)) by {
            if has_id(prev, rows.last().sig_id) {
                let w = choose|w: int| 0 <= w < prev.len() && prev[w].id == rows.last().sig_id;
                assert(prev[w] == row_signature(prev_rows[w]));
                assert(rows[w] == prev_rows[w]);
            }
        }
        assert forall|i: int| 0 <= i < rows.len() implies #[trigger] group_rows(rows)[i] == row_signature(rows[i]) by {
            if i < rows.len() - 1 {
                assert(rows[i] == prev_rows[i]);
            }
        }
    }
}

proof fn lemma_select_ordered(rows: Seq<PatternRow>, offset: u64, hex: Seq<char>)
    requires
        priority_ordered(rows),
    ensures
        priority_ordered(select_rows(rows, offset, hex)),
    decreases rows.len(),
{
    if rows.len() > 0 {
        let prev = rows.drop_last();
        lemma_select_ordered(prev, offset, hex);
        lemma_select_rows(prev, offset, hex);
        let sp = select_rows(prev, offset, hex);
        if row_hit(rows.last(), offset, hex) {
            let cur = sp.push(rows.last());
            assert forall|i: int, j: int| 0 <= i < j < cur.len() implies cur[i].priority >= cur[j].priority by {
                if j == sp.len() {
                    let m = choose|m: int| 0 <= m < prev.len() && prev[m] == sp[i];
                    assert(rows[m] == prev[m]);
                } else {
                    assert(cur[i] == sp[i] && cur[j] == sp[j]);
                }
            }
        }
    }
}

proof fn lemma_group_first(rows: Seq<PatternRow>)
    requires
        rows.len() > 0,
    ensures
        group_rows(rows).len() > 0,
        group_rows(rows)[0].id == rows[0].sig_id,
    decreases rows.len(),
{
    let prev = rows.drop_last();
    if rows.len() == 1 {
        assert(group_rows(prev) =~= seq![]);
        assert(!has_id(group_rows(prev), rows.last().sig_id));
    } else {
        lemma_group_first(prev);
        assert(prev[0] == rows[0]);
    }
}

/// Among the rows that spell `hex` at `offset`, the first signature that a
/// lookup lists opens with one of the highest priority, when the table is
/// listed from the highest priority to the lowest.
pub proof fn lemma_first_match_top_priority(rows: Seq<PatternRow>, offset: u64, hex: Seq<char>)
    requires
        priority_ordered(rows),
        spec_match(rows, offset, hex).len() > 0,
    ensures
        exists|k: int|
            0 <= k < rows.len() && row_hit(rows[k], offset, hex) && rows[k].sig_id == spec_match(rows, offset, hex)[0].id
                && forall|m: int|
                0 <= m < rows.len() && row_hit(#[trigger] rows[m], offset, hex) ==> rows[k].priority >= rows[m].priority,
{
    let sel = select_rows(rows, offset, hex);
    if sel.len() == 0 {
        assert(group_rows(sel) =~= seq![]);
    }
    lemma_group_first(sel);
    lemma_select_rows(rows, offset, hex);
    lemma_select_ordered(rows, offset, hex);
    let k = choose|k: int| 0 <= k < rows.len() && rows[k] == sel[0];
    assert(row_hit(sel[0], offset, hex));
    assert forall|m: int| 0 <= m < rows.len() && row_hit(#[trigger] rows[m], offset, hex) implies rows[k].priority
        >= rows[m].priority by {
        let i = choose|i: int| 0 <= i < sel.len() && sel[i] == rows[m];
        if i > 0 {
            assert(sel[0].priority >= sel[i].priority);
        }
    }
}

/// The rows that a lookup selects have distinct ids when all rows do.
pub proof fn lemma_select_distinct(rows: Seq<PatternRow>, offset: u64, hex: Seq<char>)
    requires
        forall|a: int, b: int| 0 <= a < b < rows.len() ==> rows[a].sig_id != rows[b].sig_id,
    ensures
        forall|a: int, b: int|
            0 <= a < b < select_rows(rows, offset, hex).len() ==> select_rows(rows, offset, hex)[a].sig_id
                != select_rows(rows, offset, hex)[b].sig_id,
    decreases rows.len(),
{
    if rows.len() > 0 {
        let prev = rows.drop_last();
        lemma_select_distinct(prev, offset, hex);
        lemma_select_rows(prev, offset, hex);
        let sp = select_rows(prev, offset, hex);
        if row_hit(rows.last(), offset, hex) {
            let cur = sp.push(rows.last());
            assert forall|a: int, b: int| 0 <= a < b < cur.len() implies cur[a].sig_id != cur[b].sig_id by {
                if b == sp.len() {
                    let m = choose|m: int| 0 <= m < prev.len() && prev[m] == sp[a];
                    assert(rows[m] == prev[m]);
                } else {
                    assert(cur[a] == sp[a] && cur[b] == sp[b]);
                }
            }
        }
    }
}

/// The signature that a scan of `bytes` read at `offset` reports first opens
/// with a row of the highest priority among the rows that spell the prefix it
/// matched, when the table is listed from the highest priority to the lowest.
pub proof fn lemma_scan_pick_top_priority(rows: Seq<PatternRow>, offset: u64, bytes: Seq<u8>)
    requires
        priority_ordered(rows),
        spec_match_bytes(rows, offset, bytes).len() > 0,
    ensures
        matched_len(rows, offset, bytes) is Some,
        exists|k: int|
            0 <= k < rows.len() && row_hit(
                rows[k],
                offset,
                spec_hex_upper(bytes.take(matched_len(rows, offset, bytes)->0)),
            ) && rows[k].sig_id == spec_match_bytes(rows, offset, bytes)[0].id && forall|m: int|
                0 <= m < rows.len() && row_hit(
                    #[trigger] rows[m],
                    offset,
                    spec_hex_upper(bytes.take(matched_len(rows, offset, bytes)->0)),
                ) ==> rows[k].priority >= rows[m].priority,
{
    let len = matched_len(rows, offset, bytes)->0;
    lemma_first_match_top_priority(rows, offset, spec_hex_upper(bytes.take(len)));
}

} // verus!
