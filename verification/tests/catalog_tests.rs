use lumen_engine::catalog::{list_signatures, match_bytes, match_signatures, PatternRow, SignatureTable};
use lumen_engine::seeds::SigDef;
use lumen_engine::hexcode::{decode_hex_upper, hex_upper};
use lumen_engine::import::{
    clean_hex, dedup_by_pattern, fetched_entries, fetched_entry, fetched_list, import_entries, import_list, is_sig_file,
    remote_signature, sig_file_links, sig_file_urls, FetchedSig, RawEntry,
};
use lumen_engine::seeds::{generate_embedded_sigs, seed_records, seed_sigs};
use lumen_engine::textdetect::{classify_text, count_printable, detect_text, looks_like_text, TextKind};

fn row(id: i64, name: &str, offset: i64, hex: &str) -> PatternRow {
    PatternRow {
        sig_id: id,
        name: name.to_string(),
        mime: None,
        extension: None,
        priority: 0,
        offset,
        hex_bytes: hex.to_string(),
        mask: None,
        endianness: "little".to_string(),
    }
}

fn seeded_table() -> (SignatureTable, u32) {
    let records = seed_records(&seed_sigs());
    let mut rows = Vec::new();
    let mut count = 0u32;
    for (i, r) in records.iter().enumerate() {
        for p in &r.patterns {
            rows.push(PatternRow {
                sig_id: i as i64 + 1,
                name: r.name.clone(),
                mime: r.mime.clone(),
                extension: r.extension.clone(),
                priority: r.priority as i64,
                offset: p.offset,
                hex_bytes: p.hex_bytes.clone(),
                mask: p.mask.clone(),
                endianness: p.endianness.clone(),
            });
        }
        count += 1;
    }
    (SignatureTable { rows }, count)
}

#[test]
fn test_schema_creation_and_insert() {
    let table = SignatureTable { rows: vec![row(1, "ZIP archive", 0, "504B0304")] };
    let sigs = match_signatures(&table, "504B0304", 0);
    assert_eq!(sigs.len(), 1);
    assert_eq!(sigs[0].name, "ZIP archive");
}

#[test]
fn test_seed_database() {
    let (table, count) = seeded_table();
    assert!(count > 100, "Should have at least 100 seed sigs, got {}", count);
    let sigs = list_signatures(&table);
    assert_eq!(sigs.len() as u32, count);
    let names: Vec<String> = sigs.iter().map(|s| s.name.clone()).collect();
    assert!(names.contains(&"ZIP archive".to_string()));
    assert!(names.contains(&"PNG image".to_string()));
    assert!(names.contains(&"PDF document".to_string()));
}

#[test]
fn seed_table_shape() {
    let defs = seed_sigs();
    assert_eq!(defs.len(), 221);
    assert_eq!(defs[0].name, "ZIP archive");
    assert_eq!(defs[0].hex, "504B0304");
    for d in &defs {
        assert!(decode_hex_upper(d.hex).is_some());
    }
    let records = seed_records(&defs);
    assert_eq!(records.len(), 221);
    assert_eq!(records[0].source.as_deref(), Some("seed"));
    assert_eq!(records[0].priority, 10);
    assert_eq!(records[0].patterns[0].endianness, "big");
    assert_eq!(generate_embedded_sigs().len(), 119);
}

#[test]
fn seeded_zip_matches_every_zip_based_format() {
    let (table, _) = seeded_table();
    let sigs = match_bytes(&table, &[0x50, 0x4B, 0x03, 0x04, 0x14, 0x00], 0);
    let names: Vec<&str> = sigs.iter().map(|s| s.name.as_str()).collect();
    assert_eq!(names[0], "ZIP archive");
    assert!(names.contains(&"EPUB ebook"));
    assert!(names.contains(&"Android APK"));
}

#[test]
fn match_groups_patterns_by_signature() {
    let table = SignatureTable {
        rows: vec![row(1, "A", 0, "4142"), row(2, "B", 0, "4142"), row(1, "A", 0, "4142"), row(3, "C", 4, "4142")],
    };
    let sigs = match_signatures(&table, "4142", 0);
    assert_eq!(sigs.len(), 2);
    assert_eq!(sigs[0].id, 1);
    assert_eq!(sigs[0].patterns.len(), 2);
    assert_eq!(sigs[1].id, 2);
    let all = list_signatures(&table);
    assert_eq!(all.len(), 3);
    assert_eq!(all[2].patterns[0].offset, 4);
}

#[test]
fn match_is_case_sensitive() {
    let table = SignatureTable { rows: vec![row(1, "lower", 0, "504b0304")] };
    assert!(match_signatures(&table, "504B0304", 0).is_empty());
    assert!(match_bytes(&table, &[0x50, 0x4B, 0x03, 0x04], 0).is_empty());
}

#[test]
fn hex_encoding() {
    assert_eq!(hex_upper(&[0x00, 0xAB, 0xFF, 0x1F]), "00ABFF1F");
    assert_eq!(hex_upper(&[]), "");
    assert_eq!(decode_hex_upper("00FF"), Some(vec![0x00, 0xFF]));
    assert_eq!(decode_hex_upper("504b"), None);
    assert_eq!(decode_hex_upper("ABC"), None);
    assert_eq!(decode_hex_upper(""), Some(vec![]));
}

#[test]
fn printable_counting() {
    assert_eq!(count_printable(b"abc"), 3);
    assert_eq!(count_printable(&[0x00, 0x41]), 0);
    assert_eq!(count_printable(&[0x41; 12]), 12);
    let mut late_nul = vec![0x41u8; 12];
    late_nul[11] = 0;
    assert_eq!(count_printable(&late_nul), 11);
    assert_eq!(count_printable(&[0xC3, 0xA9, 0x41]), 3);
    assert_eq!(count_printable(&[0xE2, 0x82, 0xAC]), 3);
    assert_eq!(count_printable(&[0xF0, 0x9F, 0x98, 0x80, 0x41]), 5);
    assert_eq!(count_printable(&[0xC3, 0x41, 0x41]), 2);
    assert_eq!(count_printable(&[0x41, 0xC3]), 2);
    assert_eq!(count_printable(&[0xE2, 0x82]), 1);
    assert_eq!(count_printable(&[0xFF, 0x1A, 0x41]), 1);
}

#[test]
fn text_threshold() {
    let mut seventeen = vec![0x41u8; 20];
    for b in seventeen.iter_mut().take(3) {
        *b = 0x01;
    }
    assert!(looks_like_text(&seventeen));
    seventeen[3] = 0x01;
    assert!(!looks_like_text(&seventeen));
    assert!(!looks_like_text(&[]));
}

#[test]
fn integer_threshold_matches_float_ratio() {
    for n in 1u32..=2048 {
        for p in 0u32..=n {
            let by_float = (p as f32) / (n as f32) >= 0.85f32;
            let by_int = 20 * p >= 17 * n;
            assert_eq!(by_float, by_int, "p={} n={}", p, n);
        }
    }
}

#[test]
fn text_kinds() {
    assert_eq!(classify_text(b"[1, 2]"), Some(TextKind::Json));
    assert_eq!(classify_text(b"\xC2\xA0\t{\"k\": 1}"), Some(TextKind::Json));
    assert_eq!(classify_text(b"<?xml version=\"1.0\"?><a/>"), Some(TextKind::Xml));
    assert_eq!(classify_text(b"<!DOCTYPE html><html></html>"), Some(TextKind::Html));
    assert_eq!(classify_text(b"  <html><body></body></html>"), Some(TextKind::Html));
    assert_eq!(classify_text(b"<root></root>"), Some(TextKind::Xml));
    assert_eq!(classify_text(b"# comment\necho hi\n"), Some(TextKind::Script));
    assert_eq!(classify_text(b"run: #!/bin/sh"), Some(TextKind::Script));
    assert_eq!(classify_text(b"hello world\n"), Some(TextKind::Plain));
    assert_eq!(classify_text(&[0x00, 0x41, 0x41]), None);
    let r = detect_text(b"plain words");
    assert_eq!(r.file_type, "Plain text file");
    assert_eq!(r.extension.as_deref(), Some(".txt"));
    let r = detect_text(b"#!/bin/sh");
    assert_eq!(r.file_type, "Script file");
    assert_eq!(r.mime.as_deref(), Some("text/plain"));
}

#[test]
fn remote_entries() {
    let s = remote_signature(Some("My Format"), Some("application/x-my"), Some(".myf"), Some(2), Some("ab12cd")).unwrap();
    assert_eq!(s.name, "My Format");
    assert_eq!(s.source.as_deref(), Some("remote"));
    assert_eq!(s.priority, 5);
    assert_eq!(s.patterns.len(), 1);
    assert_eq!(s.patterns[0].hex_bytes, "AB12CD");
    assert_eq!(s.patterns[0].offset, 2);
    assert_eq!(s.patterns[0].endianness, "big");
    assert!(s.patterns[0].mask.is_none());
    let d = remote_signature(None, None, None, None, Some("ff")).unwrap();
    assert_eq!(d.name, "Unknown");
    assert_eq!(d.patterns[0].offset, 0);
    assert!(remote_signature(Some("x"), None, None, None, Some("")).is_none());
    assert!(remote_signature(Some("x"), None, None, None, None).is_none());
}

#[test]
fn cleaning_fetched_hex() {
    assert_eq!(clean_hex("4d 5a-90").as_deref(), Some("4D5A90"));
    assert_eq!(clean_hex("zz"), None);
    assert_eq!(clean_hex(""), None);
    assert_eq!(clean_hex(" ").as_deref(), Some(""));
    let e = fetched_entry(None, None, Some("7f 45")).unwrap();
    assert_eq!(e.name, "Unknown");
    assert_eq!(e.hex, "7F45");
    assert_eq!(e.offset, 0);
    assert!(fetched_entry(Some("x"), Some(1), Some("g1")).is_none());
}

#[test]
fn dedup_keeps_first_per_pattern() {
    let mk = |name: &str, off: i64, hex: &str| FetchedSig {
        name: name.to_string(),
        mime: None,
        extension: None,
        offset: off,
        hex: hex.to_string(),
    };
    let out = dedup_by_pattern(vec![mk("a", 0, "AA"), mk("b", 0, "AA"), mk("c", 1, "AA"), mk("d", 0, "BB")]);
    let names: Vec<&str> = out.iter().map(|s| s.name.as_str()).collect();
    assert_eq!(names, vec!["a", "c", "d"]);
}

#[test]
fn sig_file_listing() {
    assert!(is_sig_file("pe.sig", "https://x/pe.sig"));
    assert!(!is_sig_file("pe.sig", ""));
    assert!(!is_sig_file("readme.md", "https://x/readme.md"));
    assert!(!is_sig_file("sig", "https://x"));
}

#[test]
fn utf8_text_is_plain_text() {
    let bytes = "\u{41f}\u{440}\u{438}\u{432}\u{435}\u{442} \u{43c}\u{438}\u{440}\n".as_bytes();
    assert_eq!(bytes.len(), 20);
    assert_eq!(count_printable(bytes), 20);
    assert!(looks_like_text(bytes));
    let r = detect_text(bytes);
    assert_eq!(r.file_type, "Plain text file");
    assert_eq!(r.mime.as_deref(), Some("text/plain"));
    assert_eq!(r.extension.as_deref(), Some(".txt"));
}

fn find<'a>(defs: &'a [SigDef], name: &str) -> &'a SigDef {
    defs.iter().find(|d| d.name == name).unwrap()
}

#[test]
fn seed_list_entries() {
    let defs = seed_sigs();
    let tar = find(&defs, "TAR POSIX archive");
    assert_eq!((tar.mime, tar.extension, tar.offset, tar.hex), (Some("application/x-tar"), Some(".tar"), 257, "757374617200"));
    let iso = find(&defs, "ISO 9660 CD image");
    assert_eq!((iso.mime, iso.extension, iso.offset, iso.hex), (Some("application/x-iso9660-image"), Some(".iso"), 32769, "4344303031"));
    let png = find(&defs, "PNG image");
    assert_eq!((png.offset, png.hex), (0, "89504E470D0A1A0A"));
    let pdf = find(&defs, "PDF document");
    assert_eq!(pdf.hex, "255044462D");
}

#[test]
fn built_in_lists_are_well_formed() {
    for defs in [seed_sigs(), generate_embedded_sigs()] {
        for (i, d) in defs.iter().enumerate() {
            assert!(!d.name.is_empty());
            assert!(d.mime.is_some());
            if let Some(e) = d.extension {
                assert!(e.len() > 1 && e.starts_with('.'), "{}", e);
            }
            assert!(d.offset >= 0);
            assert!(!d.hex.is_empty() && decode_hex_upper(d.hex).is_some());
            for other in &defs[i + 1..] {
                assert_ne!(d.name, other.name);
            }
        }
    }
}

#[test]
fn embedded_list_entries() {
    let defs = generate_embedded_sigs();
    assert_eq!(defs.len(), 119);
    let first = &defs[0];
    assert_eq!((first.name, first.mime, first.extension, first.offset, first.hex), ("ZIP archive", Some("application/zip"), Some(".zip"), 0, "504B0304"));
    let elf = find(&defs, "ELF 32-bit LSB");
    assert_eq!((elf.mime, elf.extension, elf.offset, elf.hex), (Some("application/x-elf"), None, 0, "7F454C4601010100"));
    let tar = find(&defs, "TAR POSIX archive");
    assert_eq!((tar.offset, tar.hex), (257, "757374617200"));
}

#[test]
fn seeded_table_finds_every_seed() {
    let (table, _) = seeded_table();
    for d in seed_sigs() {
        let sigs = match_signatures(&table, d.hex, d.offset as u64);
        assert!(sigs.iter().any(|s| s.name == d.name && s.mime.as_deref() == d.mime && s.extension.as_deref() == d.extension), "{}", d.name);
    }
}

#[test]
fn first_match_has_highest_priority() {
    let mut low = row(1, "Low", 0, "4142");
    low.priority = 1;
    let mut high = row(2, "High", 0, "4142");
    high.priority = 9;
    let mut mid = row(3, "Mid", 0, "4142");
    mid.priority = 5;
    let table = SignatureTable { rows: vec![high, mid, low] };
    let sigs = match_signatures(&table, "4142", 0);
    let names: Vec<&str> = sigs.iter().map(|s| s.name.as_str()).collect();
    assert_eq!(names, vec!["High", "Mid", "Low"]);
}

fn entry(name: Option<&str>, mime: Option<&str>, ext: Option<&str>, offset: Option<i64>, hex: Option<&str>) -> RawEntry {
    RawEntry {
        name: name.map(String::from),
        mime: mime.map(String::from),
        extension: ext.map(String::from),
        offset,
        hex: hex.map(String::from),
        download_url: None,
    }
}

#[test]
fn importing_entries() {
    let entries = vec![
        entry(Some("A"), Some("a/x"), Some(".a"), Some(3), Some("ab 01")),
        entry(Some("B"), None, None, None, Some("")),
        entry(None, None, None, None, Some("ff")),
        entry(Some("C"), None, None, Some(1), None),
    ];
    let out = import_entries(&entries);
    assert_eq!(out.len(), 2);
    assert_eq!(out[0].name, "A");
    assert_eq!(out[0].mime.as_deref(), Some("a/x"));
    assert_eq!(out[0].extension.as_deref(), Some(".a"));
    assert_eq!(out[0].patterns[0].offset, 3);
    assert_eq!(out[0].patterns[0].hex_bytes, "AB 01");
    assert_eq!(out[1].name, "Unknown");
    assert_eq!(out[1].patterns[0].hex_bytes, "FF");
    assert_eq!(out[1].source.as_deref(), Some("remote"));
}

#[test]
fn importing_a_json_list() {
    let body = r#"[{"name":"My Format","mime":"application/x-my","ext":".myf","offset":2,"hex":"ab12cd"},
                   {"name":"No pattern","hex":""},
                   {"hex":"7f45","offset":"nine","mime":null}]"#;
    let out = import_list(body).unwrap();
    assert_eq!(out.len(), 2);
    assert_eq!(out[0].name, "My Format");
    assert_eq!(out[0].extension.as_deref(), Some(".myf"));
    assert_eq!(out[0].patterns[0].offset, 2);
    assert_eq!(out[0].patterns[0].hex_bytes, "AB12CD");
    assert_eq!(out[1].name, "Unknown");
    assert_eq!(out[1].mime, None);
    assert_eq!(out[1].patterns[0].offset, 0);
    assert_eq!(out[1].patterns[0].hex_bytes, "7F45");
    assert!(import_list("not json").is_err());
    assert!(import_list(r#"{"name":"x"}"#).is_err());
    assert_eq!(import_list("[]").unwrap().len(), 0);
}

#[test]
fn fetching_a_signature_file() {
    let entries = vec![
        entry(Some("PE"), Some("x/y"), Some(".exe"), Some(0), Some("4d 5a")),
        entry(Some("Bad"), None, None, None, Some("zz")),
        entry(Some("Empty"), None, None, None, None),
    ];
    let out = fetched_entries(&entries);
    assert_eq!(out.len(), 1);
    assert_eq!(out[0].name, "PE");
    assert_eq!(out[0].hex, "4D5A");
    assert_eq!(out[0].mime, None);
    assert_eq!(out[0].extension, None);
    let body = r#"[{"name":"ELF","offset":0,"hex":"7f-45-4c-46"},{"hex":"00 01"},{"name":"x","hex":"g"}]"#;
    let out = fetched_list(body).unwrap();
    assert_eq!(out.len(), 2);
    assert_eq!((out[0].name.as_str(), out[0].hex.as_str()), ("ELF", "7F454C46"));
    assert_eq!((out[1].name.as_str(), out[1].hex.as_str(), out[1].offset), ("Unknown", "0001", 0));
    assert!(fetched_list("{").is_err());
}

#[test]
fn listing_sig_files() {
    let mut a = entry(Some("pe.sig"), None, None, None, None);
    a.download_url = Some("https://x/pe.sig".to_string());
    let b = entry(Some("elf.sig"), None, None, None, None);
    let mut c = entry(Some("readme.md"), None, None, None, None);
    c.download_url = Some("https://x/readme.md".to_string());
    let out = sig_file_links(&vec![a, b, c]);
    assert_eq!(out, vec![("pe.sig".to_string(), "https://x/pe.sig".to_string())]);
    let body = r#"[{"name":"a.sig","download_url":"u1"},{"name":"b.sig","download_url":null},{"name":"c.txt","download_url":"u3"},{"download_url":"u4"}]"#;
    assert_eq!(sig_file_urls(body).unwrap(), vec![("a.sig".to_string(), "u1".to_string())]);
    assert!(sig_file_urls("[1, 2").is_err());
}

#[test]
fn downloaded_file_cleans_and_drops_entries() {
    let body = r#"[{"name":"X","hex":"4d 5a-90","offset":2},{"name":"Y","hex":"ZZ"},{"hex":""}]"#;
    let out = fetched_list(body).unwrap();
    assert_eq!(out.len(), 1);
    assert_eq!(out[0].name, "X");
    assert_eq!(out[0].mime, None);
    assert_eq!(out[0].extension, None);
    assert_eq!(out[0].offset, 2);
    assert_eq!(out[0].hex, "4D5A90");
}
