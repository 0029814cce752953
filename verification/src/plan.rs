use vstd::prelude::*;

use crate::catalog::PatternRow;
use crate::sample::{bytes_at, lemma_reads_contents, reads_contents, spec_read, FileSample, ReadRequest};
use crate::scanner::{
    is_scan_result, is_segmented_response, spec_auto_mode, spec_segment_count, container_offset, lemma_container_offset, lemma_segment_bounds, quick_from, quick_len, scan_mode_ok,
    scan_offsets, scan_offsets_list, seg_start, uses_quick, PROBE_SIZE, QUICK_SCAN_SIZE,
    SEGMENT_THRESHOLD,
};
use crate::textdetect::TEXT_SAMPLE_SIZE;
use crate::types::{ScanMode, ScanResponse};

verus! {

/// The plan holds a read of `len` bytes at `offset`.
pub open spec fn plans(plan: Seq<ReadRequest>, offset: u64, len: usize) -> bool {
    exists|i: int| 0 <= i < plan.len() && plan[i] == (ReadRequest { offset, len })
}

/// The plan holds every read that a scan in `mode` of a file of `size` bytes
/// makes.
pub open spec fn plan_covers(plan: Seq<ReadRequest>, size: u64, mode: ScanMode) -> bool {
    if uses_quick(mode, size) {
        &&& forall|k: int|
            0 <= k < 10 && #[trigger] scan_offsets()[k] < size ==> plans(
                plan,
                scan_offsets()[k],
                quick_len(size, scan_offsets()[k]),
            )
        &&& plans(plan, 0, 2048)
        &&& forall|i: int|
            1 <= i < 16 && #[trigger] container_offset(size, i) < size ==> plans(
                plan,
                container_offset(size, i) as u64,
                128,
            )
    } else {
        forall|i: int|
            0 <= i < mode->Segmented_0 ==> plans(plan, #[trigger] seg_start(size, mode->Segmented_0, i) as u64, 128)
    }
}

proof fn lemma_plans_push(plan: Seq<ReadRequest>, r: ReadRequest)
    ensures
        plans(plan.push(r), r.offset, r.len),
        forall|offset: u64, len: usize| plans(plan, offset, len) ==> #[trigger] plans(plan.push(r), offset, len),
{
    assert(plan.push(r)[plan.len() as int] == r);
    assert forall|offset: u64, len: usize| plans(plan, offset, len) implies #[trigger] plans(
        plan.push(r),
        offset,
        len,
    ) by {
        let w = choose|w: int| 0 <= w < plan.len() && plan[w] == (ReadRequest { offset, len });
        assert(plan.push(r)[w] == plan[w]);
    }
}

/// The reads that a scan in `mode` of a file of `size` bytes makes.
pub fn read_plan(file_size: u64, mode: ScanMode) -> (res: Vec<ReadRequest>)
    requires
        scan_mode_ok(mode, file_size),
    ensures
        plan_covers(res@, file_size, mode),
{
    let size = file_size;
    let mut plan: Vec<ReadRequest> = Vec::new();
    let quick = match mode {
        ScanMode::Quick => true,
        ScanMode::Segmented(_) => size < SEGMENT_THRESHOLD,
    };
    if quick {
        let offsets = scan_offsets_list();
        for k in 0..10
            invariant
                offsets@ == scan_offsets(),
                forall|m: int|
                    0 <= m < k && #[trigger] scan_offsets()[m] < size ==> plans(
                        plan@,
                        scan_offsets()[m],
                        quick_len(size, scan_offsets()[m]),
                    ),
        {
            let offset = offsets[k];
            if offset < size {
                let len: usize = if size - offset < QUICK_SCAN_SIZE {
                    (size - offset) as usize
                } else {
                    QUICK_SCAN_SIZE as usize
                };
                let ghost before = plan@;
                plan.push(ReadRequest { offset, len });
                proof {
                    lemma_plans_push(before, ReadRequest { offset, len });
                }
            }
        }
        let ghost quick_part = plan@;
        plan.push(ReadRequest { offset: 0, len: TEXT_SAMPLE_SIZE });
        proof {
            lemma_plans_push(quick_part, ReadRequest { offset: 0, len: 2048 });
        }
        let step = size / 16;
        for i in 1..16u64
            invariant
                step == size / 16,
                plans(plan@, 0, 2048),
                forall|m: int|
                    0 <= m < 10 && #[trigger] scan_offsets()[m] < size ==> plans(
                        plan@,
                        scan_offsets()[m],
                        quick_len(size, scan_offsets()[m]),
                    ),
                forall|m: int|
                    1 <= m < i && #[trigger] container_offset(size, m) < size ==> plans(
                        plan@,
                        container_offset(size, m) as u64,
                        128,
                    ),
        {
            proof {
                lemma_container_offset(size, i as int);
            }
            let offset = i * step;
            let ghost before = plan@;
            if offset < size {
                plan.push(ReadRequest { offset, len: PROBE_SIZE });
                proof {
                    lemma_plans_push(before, ReadRequest { offset, len: 128 });
                }
            }
            proof {
                assert(plans(plan@, 0, 2048));
                assert forall|m: int|
                    0 <= m < 10 && #[trigger] scan_offsets()[m] < size implies plans(
                        plan@,
                        scan_offsets()[m],
                        quick_len(size, scan_offsets()[m]),
                    ) by {
                    let r = ReadRequest { offset: scan_offsets()[m], len: quick_len(size, scan_offsets()[m]) };
                    assert(plans(before, r.offset, r.len));
                }
                assert forall|m: int|
                    1 <= m <= i && #[trigger] container_offset(size, m) < size implies plans(
                        plan@,
                        container_offset(size, m) as u64,
                        128,
                    ) by {
                    if m < i {
                        let r = ReadRequest { offset: container_offset(size, m) as u64, len: 128 };
                        assert(plans(before, r.offset, r.len));
                    }
                }
            }
        }
    } else {
        match mode {
            ScanMode::Segmented(n) => {
                let segment_size = size / (n as u64);
                for i in 0..n
                    invariant
                        n > 0,
                        segment_size == size / (n as u64),
                        forall|m: int|
                            0 <= m < i ==> plans(plan@, #[trigger] seg_start(size, n, m) as u64, 128),
                {
                    proof {
                        lemma_segment_bounds(size, n, i as int);
                    }
                    let ghost before = plan@;
                    let offset = (i as u64) * segment_size;
                    plan.push(ReadRequest { offset, len: PROBE_SIZE });
                    proof {
                        lemma_plans_push(before, ReadRequest { offset, len: 128 });
                    }
                }
            },
            ScanMode::Quick => {},
        }
    }
    plan
}

proof fn lemma_quick_never_fails(
    rows: Seq<PatternRow>,
    sample: FileSample,
    contents: Seq<u8>,
    plan: Seq<ReadRequest>,
    k: int,
)
    requires
        reads_contents(sample, contents, plan),
        forall|m: int|
            0 <= m < 10 && #[trigger] scan_offsets()[m] < sample.size ==> plans(
                plan,
                scan_offsets()[m],
                quick_len(sample.size, scan_offsets()[m]),
            ),
    ensures
        !(quick_from(rows, sample, k) is Failed),
    decreases 10 - k,
{
    if 0 <= k < 10 && scan_offsets()[k] < sample.size {
        let off = scan_offsets()[k];
        let len = quick_len(sample.size, off);
        assert(plans(plan, off, len));
        let w = choose|w: int| 0 <= w < plan.len() && plan[w] == (ReadRequest { offset: off, len });
        lemma_reads_contents(sample, contents, plan, w);
        lemma_quick_never_fails(rows, sample, contents, plan, k + 1);
    }
}

/// Scanning a file's contents, read by its read plan, never fails, and
/// every read the scan makes sees the contents: the quick scan tries the
/// header offsets inside the file and a segmented scan probes every segment
/// start.
pub proof fn lemma_plan_serves_scan(
    rows: Seq<PatternRow>,
    sample: FileSample,
    contents: Seq<u8>,
    plan: Seq<ReadRequest>,
    mode: ScanMode,
)
    requires
        reads_contents(sample, contents, plan),
        plan_covers(plan, contents.len() as u64, mode),
        contents.len() <= u64::MAX,
    ensures
        uses_quick(mode, sample.size) ==> !(quick_from(rows, sample, 0) is Failed),
        uses_quick(mode, sample.size) ==> spec_read(sample, 0, 2048) == Some(
            Ok::<Seq<u8>, Seq<char>>(bytes_at(contents, 0, 2048)),
        ),
        !uses_quick(mode, sample.size) ==> forall|i: int|
            0 <= i < mode->Segmented_0 ==> spec_read(sample, #[trigger] seg_start(sample.size, mode->Segmented_0, i) as u64, 128)
                == Some(
                Ok::<Seq<u8>, Seq<char>>(
                    bytes_at(contents, seg_start(sample.size, mode->Segmented_0, i) as u64, 128),
                ),
            ),
{
    if uses_quick(mode, sample.size) {
        lemma_quick_never_fails(rows, sample, contents, plan, 0);
        let w = choose|w: int| 0 <= w < plan.len() && plan[w] == (ReadRequest { offset: 0, len: 2048 });
        lemma_reads_contents(sample, contents, plan, w);
    } else {
        let n = mode->Segmented_0;
        assert forall|i: int| 0 <= i < n implies spec_read(sample, #[trigger] seg_start(sample.size, n, i) as u64, 128)
            == Some(Ok::<Seq<u8>, Seq<char>>(bytes_at(contents, seg_start(sample.size, n, i) as u64, 128))) by {
            assert(plans(plan, seg_start(sample.size, n, i) as u64, 128));
            let w = choose|w: int|
                0 <= w < plan.len() && plan[w] == (ReadRequest { offset: seg_start(sample.size, n, i) as u64, len: 128 });
            lemma_reads_contents(sample, contents, plan, w);
        }
    }
}

/// Below 16 MiB a segmented request is a quick scan: the reads that serve
/// one serve the other, and the outcomes are the same, whatever the number
/// of segments.
pub proof fn lemma_small_segmented_is_quick(
    rows: Seq<PatternRow>,
    sample: FileSample,
    plan: Seq<ReadRequest>,
    n: u8,
    res: Result<ScanResponse, String>,
)
    requires
        sample.size < SEGMENT_THRESHOLD,
    ensures
        plan_covers(plan, sample.size, ScanMode::Segmented(n)) == plan_covers(plan, sample.size, ScanMode::Quick),
        is_scan_result(res, rows, sample, ScanMode::Segmented(n)) == is_scan_result(
            res,
            rows,
            sample,
            ScanMode::Quick,
        ),
{
}

/// From 16 MiB on a segmented request in `n` segments always succeeds, with
/// the response of the segmented scan in `n` segments.
pub proof fn lemma_large_segmented_scan(
    rows: Seq<PatternRow>,
    sample: FileSample,
    n: u8,
    res: Result<ScanResponse, String>,
)
    requires
        sample.size >= SEGMENT_THRESHOLD,
    ensures
        is_scan_result(res, rows, sample, ScanMode::Segmented(n)) == (res matches Ok(resp)
            && is_segmented_response(resp, rows, sample, n)),
{
}

/// An automatic scan of a file below 16 MiB is a quick scan, with the reads
/// of a quick scan.
pub proof fn lemma_auto_small_is_quick(
    rows: Seq<PatternRow>,
    sample: FileSample,
    plan: Seq<ReadRequest>,
    res: Result<ScanResponse, String>,
)
    requires
        sample.size < SEGMENT_THRESHOLD,
    ensures
        spec_auto_mode(sample.size) == ScanMode::Quick,
        plan_covers(plan, sample.size, spec_auto_mode(sample.size)) == plan_covers(plan, sample.size, ScanMode::Quick),
        is_scan_result(res, rows, sample, spec_auto_mode(sample.size)) == is_scan_result(
            res,
            rows,
            sample,
            ScanMode::Quick,
        ),
{
}

/// An automatic scan of a file of 16 MiB or more is the segmented scan in
/// `segment_count` segments (4, 8 or 16): it succeeds, reports the file's
/// size, and holds one report per segment.
pub proof fn lemma_auto_large_is_segmented(
    rows: Seq<PatternRow>,
    sample: FileSample,
    res: Result<ScanResponse, String>,
)
    requires
        sample.size >= SEGMENT_THRESHOLD,
        is_scan_result(res, rows, sample, spec_auto_mode(sample.size)),
    ensures
        spec_auto_mode(sample.size) == ScanMode::Segmented(spec_segment_count(sample.size)),
        res matches Ok(resp) && is_segmented_response(resp, rows, sample, spec_segment_count(sample.size)),
        res matches Ok(resp) && resp.total_size == sample.size && (resp.segments@.len() == 4
            || resp.segments@.len() == 8 || resp.segments@.len() == 16),
{
}

} // verus!
