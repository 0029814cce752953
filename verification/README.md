# Lumen

Identifies file types by scanning magic bytes against a signature database,
reports embedded files of containers, splits large files into overlapping
segments, and recognises JSON, XML, HTML, scripts and plain text.

## Layout

- `src/` — the verified library (Verus):
  - `types.rs` — scan modes, results, signatures and patterns;
  - `hexcode.rs` — uppercase hexadecimal text of bytes and back;
  - `catalog.rs` — the signature table: grouping rows into signatures,
    lookups by pattern text and offset, longest-prefix matching of bytes;
  - `sample.rs` — the reads a scan makes of a file;
  - `plan.rs` — which reads a scan needs, and that a sample read by that
    plan serves the scan;
  - `scanner.rs` — quick, container, segmented and automatic scans, the
    read plan of a scan;
  - `textdetect.rs` — plain-text detection and classification;
  - `seeds.rs` — the built-in signature lists;
  - `import.rs` — downloaded JSON lists read into the signatures that an
    import inserts, the entries that the fetcher keeps, and the `.sig` files
    of a repository listing.
- `app/` — the command-line program: the SQLite database, file and network
  I/O, JSON output.
- `tests/` — tests of the library.

Confidence is a percentage in the library (90 for a header match, 80 for a
segment, 70 for embedded files, text guesses and combined results) and a
fraction in the JSON output.
