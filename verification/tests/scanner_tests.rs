use lumen_engine::catalog::{PatternRow, SignatureTable};
use lumen_engine::plan::read_plan;
use lumen_engine::sample::{FileSample, FileWindow, ReadRequest};
use lumen_engine::scanner::{
    auto_mode, detect_text_file, is_known_container, match_at_offset, quick_scan, read_hex_at, requested_mode,
    scan_file, scan_file_auto, segment_count, segmented_scan, strip_children,
};
use lumen_engine::types::ScanMode;

fn row(id: i64, name: &str, mime: &str, ext: &str, offset: i64, hex: &str) -> PatternRow {
    PatternRow {
        sig_id: id,
        name: name.to_string(),
        mime: Some(mime.to_string()),
        extension: Some(ext.to_string()),
        priority: 0,
        offset,
        hex_bytes: hex.to_string(),
        mask: None,
        endianness: "big".to_string(),
    }
}

fn test_db() -> SignatureTable {
    SignatureTable {
        rows: vec![
            row(1, "ZIP archive", "application/zip", ".zip", 0, "504B0304"),
            row(2, "PNG image", "image/png", ".png", 0, "89504E470D0A1A0A"),
        ],
    }
}

fn sample_for(contents: &[u8], mode: ScanMode) -> FileSample {
    let plan = read_plan(contents.len() as u64, mode);
    FileSample::from_contents(contents, &plan)
}

#[test]
fn test_quick_scan_zip() {
    let conn = test_db();
    let bytes: Vec<u8> = vec![0x50, 0x4B, 0x03, 0x04, 0x14, 0x00];
    let sample = sample_for(&bytes, ScanMode::Quick);
    let result = quick_scan(&conn, &sample).unwrap();
    assert_eq!(result.file_type, "ZIP archive");
}

#[test]
fn test_quick_scan_png() {
    let conn = test_db();
    let bytes: Vec<u8> = vec![0x89, 0x50, 0x4E, 0x47, 0x0D, 0x0A, 0x1A, 0x0A];
    let sample = sample_for(&bytes, ScanMode::Quick);
    let result = quick_scan(&conn, &sample).unwrap();
    assert_eq!(result.file_type, "PNG image");
}

#[test]
fn test_quick_scan_unknown() {
    let conn = test_db();
    let bytes: Vec<u8> = vec![0xDE, 0xAD, 0xBE, 0xEF];
    let sample = sample_for(&bytes, ScanMode::Quick);
    let result = quick_scan(&conn, &sample).unwrap();
    assert_eq!(result.file_type, "Unknown");
}

#[test]
fn test_read_hex_at() {
    let bytes: Vec<u8> = vec![0x50, 0x4B, 0x03, 0x04];
    let plan = vec![ReadRequest { offset: 0, len: 4 }];
    let sample = FileSample::from_contents(&bytes, &plan);
    let hex = read_hex_at(&sample, 0, 4).unwrap();
    assert_eq!(hex, "504B0304");
}

#[test]
fn test_segment_count() {
    assert_eq!(segment_count(8 * 1024 * 1024), 4); // 8 MB
    assert_eq!(segment_count(256 * 1024 * 1024), 4); // 256 MB
    assert_eq!(segment_count(2 * 1024 * 1024 * 1024), 8); // 2 GB
    assert_eq!(segment_count(8 * 1024 * 1024 * 1024), 16); // 8 GB
}

#[test]
fn segment_count_boundaries() {
    assert_eq!(segment_count(512 * 1024 * 1024 - 1), 4);
    assert_eq!(segment_count(512 * 1024 * 1024), 8);
    assert_eq!(segment_count(4 * 1024 * 1024 * 1024 - 1), 8);
    assert_eq!(segment_count(4 * 1024 * 1024 * 1024), 16);
}

#[test]
fn quick_scan_reports_match_offset_and_confidence() {
    let table = test_db();
    let bytes: Vec<u8> = vec![0x89, 0x50, 0x4E, 0x47, 0x0D, 0x0A, 0x1A, 0x0A, 0x00];
    let sample = sample_for(&bytes, ScanMode::Quick);
    let r = quick_scan(&table, &sample).unwrap();
    assert_eq!(r.offset, 0);
    assert_eq!(r.confidence, 90);
    assert_eq!(r.mime.as_deref(), Some("image/png"));
    assert_eq!(r.extension.as_deref(), Some(".png"));
    assert!(r.children.is_empty());
}

#[test]
fn quick_scan_finds_later_offset() {
    let table = SignatureTable {
        rows: vec![row(7, "MP4 base media", "video/mp4", ".mp4", 4, "66747970")],
    };
    let bytes: Vec<u8> = vec![0, 0, 0, 0x18, 0x66, 0x74, 0x79, 0x70, 0x69, 0x73, 0x6F, 0x6D];
    let sample = sample_for(&bytes, ScanMode::Quick);
    let r = quick_scan(&table, &sample).unwrap();
    assert_eq!(r.file_type, "MP4 base media");
    assert_eq!(r.offset, 4);
}

#[test]
fn quick_scan_reports_read_error() {
    let table = test_db();
    let sample = FileSample {
        size: 10,
        windows: vec![FileWindow { offset: 0, len: 10, data: Err("disk error".to_string()) }],
    };
    assert_eq!(quick_scan(&table, &sample).unwrap_err(), "disk error");
    assert_eq!(read_hex_at(&sample, 0, 10).unwrap_err(), "disk error");
}

#[test]
fn quick_scan_read_failure_is_error() {
    let table = test_db();
    let sample = FileSample { size: 100, windows: Vec::new() };
    assert!(quick_scan(&table, &sample).is_err());
}

fn container_db() -> SignatureTable {
    let mut t = test_db();
    t.rows.push(row(3, "PNG stream at 300", "image/png", ".png", 300, "89504E47"));
    t.rows.push(row(4, "ZIP entry at 500", "application/zip", ".zip", 500, "504B0304"));
    t
}

#[test]
fn container_probe_uses_pattern_offsets() {
    let table = test_db();
    let mut bytes = vec![0x41u8; 1600];
    bytes[0..4].copy_from_slice(&[0x50, 0x4B, 0x03, 0x04]);
    bytes[300..308].copy_from_slice(&[0x89, 0x50, 0x4E, 0x47, 0x0D, 0x0A, 0x1A, 0x0A]);
    let sample = sample_for(&bytes, ScanMode::Quick);
    let r = quick_scan(&table, &sample).unwrap();
    assert_eq!(r.file_type, "ZIP archive");
    assert!(r.children.is_empty());
}

#[test]
fn quick_scan_container_lists_embedded_files() {
    let table = container_db();
    let mut bytes = vec![0x41u8; 1600];
    bytes[0..4].copy_from_slice(&[0x50, 0x4B, 0x03, 0x04]);
    bytes[300..308].copy_from_slice(&[0x89, 0x50, 0x4E, 0x47, 0x0D, 0x0A, 0x1A, 0x0A]);
    let sample = sample_for(&bytes, ScanMode::Quick);
    let r = quick_scan(&table, &sample).unwrap();
    assert_eq!(r.file_type, "ZIP archive");
    assert_eq!(r.children.len(), 1);
    assert_eq!(r.children[0].file_type, "PNG stream at 300");
    assert_eq!(r.children[0].offset, 300);
    assert_eq!(r.children[0].confidence, 70);
}

#[test]
fn container_probe_skips_zip_children() {
    let table = container_db();
    let mut bytes = vec![0x41u8; 1600];
    bytes[0..4].copy_from_slice(&[0x50, 0x4B, 0x03, 0x04]);
    bytes[500..504].copy_from_slice(&[0x50, 0x4B, 0x03, 0x04]);
    let sample = sample_for(&bytes, ScanMode::Quick);
    let r = quick_scan(&table, &sample).unwrap();
    assert!(r.children.is_empty());
}

#[test]
fn quick_scan_falls_back_to_text() {
    let table = test_db();
    let sample = sample_for(b"  {\"a\": 1}\n", ScanMode::Quick);
    let r = quick_scan(&table, &sample).unwrap();
    assert_eq!(r.file_type, "JSON data");
    assert_eq!(r.mime.as_deref(), Some("application/json"));
    assert_eq!(r.extension.as_deref(), Some(".json"));
    assert_eq!(r.confidence, 70);
}

#[test]
fn empty_file_is_unknown() {
    let table = test_db();
    let sample = sample_for(b"", ScanMode::Quick);
    let r = quick_scan(&table, &sample).unwrap();
    assert_eq!(r.file_type, "Unknown");
    assert_eq!(r.confidence, 0);
}

#[test]
fn match_at_offset_prefers_longest_prefix() {
    let table = SignatureTable {
        rows: vec![
            row(1, "Short", "a/b", ".s", 0, "504B"),
            row(2, "Long", "a/b", ".l", 0, "504B0304"),
        ],
    };
    let bytes: Vec<u8> = vec![0x50, 0x4B, 0x03, 0x04, 0xFF];
    let plan = vec![ReadRequest { offset: 0, len: 5 }, ReadRequest { offset: 0, len: 3 }];
    let sample = FileSample::from_contents(&bytes, &plan);
    let m = match_at_offset(&table, &sample, 0, 5).unwrap();
    assert_eq!(m.len(), 1);
    assert_eq!(m[0].name, "Long");
    let m = match_at_offset(&table, &sample, 0, 3).unwrap();
    assert_eq!(m.len(), 1);
    assert_eq!(m[0].name, "Short");
}

#[test]
fn single_byte_pattern_needs_whole_read() {
    let table = SignatureTable { rows: vec![row(1, "PCX image", "image/x-pcx", ".pcx", 0, "0A")] };
    let bytes: Vec<u8> = vec![0x0A, 0x05];
    let plan = vec![ReadRequest { offset: 0, len: 2 }, ReadRequest { offset: 0, len: 1 }];
    let sample = FileSample::from_contents(&bytes, &plan);
    assert!(match_at_offset(&table, &sample, 0, 2).unwrap().is_empty());
    assert_eq!(match_at_offset(&table, &sample, 0, 1).unwrap().len(), 1);
}

#[test]
fn match_requires_same_offset() {
    let table = SignatureTable { rows: vec![row(1, "TAR", "application/x-tar", ".tar", 257, "7573746172")] };
    let mut bytes = vec![0u8; 300];
    bytes[0..5].copy_from_slice(&[0x75, 0x73, 0x74, 0x61, 0x72]);
    bytes[257..262].copy_from_slice(&[0x75, 0x73, 0x74, 0x61, 0x72]);
    let plan = vec![ReadRequest { offset: 0, len: 5 }, ReadRequest { offset: 257, len: 5 }];
    let sample = FileSample::from_contents(&bytes, &plan);
    assert!(match_at_offset(&table, &sample, 0, 5).unwrap().is_empty());
    assert_eq!(match_at_offset(&table, &sample, 257, 5).unwrap().len(), 1);
    assert!(match_at_offset(&table, &sample, 100, 5).is_err());
}

#[test]
fn known_containers() {
    assert!(is_known_container("ZIP archive"));
    assert!(is_known_container("7-Zip archive"));
    assert!(is_known_container("TAR POSIX archive"));
    assert!(is_known_container("ISO 9660 CD image"));
    assert!(is_known_container("GZIP compressed"));
    assert!(is_known_container("ARJ archive"));
    assert!(is_known_container("CAB archive"));
    assert!(!is_known_container("PNG image"));
    assert!(!is_known_container("PDF document"));
}

#[test]
fn segmented_scan_layout_and_combined() {
    let table = test_db();
    let mut bytes = vec![0u8; 1000];
    bytes[0..4].copy_from_slice(&[0x50, 0x4B, 0x03, 0x04]);
    let plan: Vec<ReadRequest> = [0u64, 250, 500, 750].iter().map(|&o| ReadRequest { offset: o, len: 128 }).collect();
    let sample = FileSample::from_contents(&bytes, &plan);
    let resp = segmented_scan(&table, &sample, 4);
    assert_eq!(resp.total_size, 1000);
    let starts: Vec<u64> = resp.segments.iter().map(|s| s.offset).collect();
    let sizes: Vec<u64> = resp.segments.iter().map(|s| s.size).collect();
    assert_eq!(starts, vec![0, 250, 500, 750]);
    assert_eq!(sizes, vec![1000, 750, 500, 250]);
    assert_eq!(resp.segments[0].result.file_type, "ZIP archive");
    assert_eq!(resp.segments[0].result.confidence, 80);
    assert_eq!(resp.segments[1].result.file_type, "Unknown");
    assert_eq!(resp.combined.file_type, "Multiple types \u{2014} contains ZIP archive");
    assert_eq!(resp.combined.confidence, 70);
}

#[test]
fn segmented_scan_unknown_first_segment() {
    let table = test_db();
    let bytes = vec![0u8; 400];
    let plan = vec![ReadRequest { offset: 0, len: 128 }, ReadRequest { offset: 200, len: 128 }];
    let sample = FileSample::from_contents(&bytes, &plan);
    let resp = segmented_scan(&table, &sample, 2);
    assert_eq!(resp.combined.file_type, "Unknown");
    assert_eq!(resp.segments.len(), 2);
}

#[test]
fn small_files_scan_quick_in_one_segment() {
    let table = test_db();
    let bytes: Vec<u8> = vec![0x50, 0x4B, 0x03, 0x04, 0x14, 0x00];
    let sample = sample_for(&bytes, ScanMode::Segmented(8));
    let resp = scan_file(&table, &sample, ScanMode::Segmented(8)).unwrap();
    assert_eq!(resp.segments.len(), 1);
    assert_eq!(resp.segments[0].size, 6);
    assert_eq!(resp.segments[0].result.file_type, "ZIP archive");
    assert_eq!(resp.combined.file_type, "ZIP archive");
    let auto = scan_file_auto(&table, &sample).unwrap();
    assert_eq!(auto.total_size, 6);
    assert_eq!(auto.combined.file_type, "ZIP archive");
}

#[test]
fn large_files_scan_in_segments() {
    let table = test_db();
    let size: usize = 16 * 1024 * 1024;
    let mut bytes = vec![0u8; size];
    bytes[0..4].copy_from_slice(&[0x50, 0x4B, 0x03, 0x04]);
    assert_eq!(auto_mode(size as u64), ScanMode::Segmented(4));
    let sample = sample_for(&bytes, auto_mode(size as u64));
    let resp = scan_file_auto(&table, &sample).unwrap();
    assert_eq!(resp.segments.len(), 4);
    assert_eq!(resp.segments[3].offset + resp.segments[3].size, size as u64);
    assert!(resp.combined.file_type.starts_with("Multiple types"));
}

#[test]
fn requested_modes() {
    assert_eq!(requested_mode("segmented", None), ScanMode::Segmented(8));
    assert_eq!(requested_mode("segmented", Some(100)), ScanMode::Segmented(64));
    assert_eq!(requested_mode("segmented", Some(1)), ScanMode::Segmented(2));
    assert_eq!(requested_mode("segmented", Some(5)), ScanMode::Segmented(5));
    assert_eq!(requested_mode("quick", Some(5)), ScanMode::Quick);
}

#[test]
fn strip_children_clears_every_result() {
    let table = container_db();
    let mut bytes = vec![0x41u8; 1600];
    bytes[0..4].copy_from_slice(&[0x50, 0x4B, 0x03, 0x04]);
    bytes[300..308].copy_from_slice(&[0x89, 0x50, 0x4E, 0x47, 0x0D, 0x0A, 0x1A, 0x0A]);
    let sample = sample_for(&bytes, ScanMode::Quick);
    let mut resp = scan_file(&table, &sample, ScanMode::Quick).unwrap();
    assert_eq!(resp.combined.children.len(), 1);
    assert_eq!(resp.segments[0].result.children.len(), 1);
    strip_children(&mut resp);
    assert!(resp.combined.children.is_empty());
    assert!(resp.segments[0].result.children.is_empty());
    assert_eq!(resp.combined.file_type, "ZIP archive");
}

#[test]
fn utf8_file_is_plain_text() {
    let bytes = "\u{41f}\u{440}\u{438}\u{432}\u{435}\u{442} \u{43c}\u{438}\u{440}\n".as_bytes().to_vec();
    assert_eq!(bytes.len(), 20);
    let sample = sample_for(&bytes, ScanMode::Quick);
    let r = detect_text_file(&sample);
    assert_eq!(r.file_type, "Plain text file");
    assert_eq!(r.mime.as_deref(), Some("text/plain"));
    assert_eq!(r.extension.as_deref(), Some(".txt"));
    let r = quick_scan(&test_db(), &sample).unwrap();
    assert_eq!(r.file_type, "Plain text file");
}

#[test]
fn small_segmented_request_equals_quick_scan() {
    let table = test_db();
    let bytes: Vec<u8> = vec![0x89, 0x50, 0x4E, 0x47, 0x0D, 0x0A, 0x1A, 0x0A, 0x00, 0x01];
    assert_eq!(read_plan(bytes.len() as u64, ScanMode::Segmented(3)), read_plan(bytes.len() as u64, ScanMode::Quick));
    let sample = sample_for(&bytes, ScanMode::Quick);
    let seg = scan_file(&table, &sample, ScanMode::Segmented(3)).unwrap();
    let quick = scan_file(&table, &sample, ScanMode::Quick).unwrap();
    let auto = scan_file_auto(&table, &sample).unwrap();
    for r in [&seg, &auto] {
        assert_eq!(r.total_size, quick.total_size);
        assert_eq!(r.segments.len(), quick.segments.len());
        assert_eq!(r.combined.file_type, quick.combined.file_type);
        assert_eq!(r.combined.offset, quick.combined.offset);
        assert_eq!(r.combined.confidence, quick.combined.confidence);
    }
}
