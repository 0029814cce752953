use vstd::prelude::*;

verus! {

/// How to scan a file.
#[derive(Debug, Clone, Copy, PartialEq, Eq, Structural)]
pub enum ScanMode {
    /// Read header bytes only.
    Quick,
    /// Divide the file into the given number of segments and probe each one.
    Segmented(u8),
}

/// One identified chunk inside a file.
///
/// `confidence` is a percentage (0–100): 90 for a header match, 80 for a
/// segment match, 70 for an embedded file, a text guess or a combined
/// segmented result, 0 for "Unknown".
#[derive(Debug)]
pub struct ScanResult {
    /// Human-readable type, e.g. "ZIP archive", "JPEG image".
    pub file_type: String,
    /// MIME type if known.
    pub mime: Option<String>,
    /// Common file extension.
    pub extension: Option<String>,
    /// Compression algorithm if detected.
    pub compression: Option<String>,
    /// Byte offset where this signature was found.
    pub offset: u64,
    /// How sure the scanner is, in percent.
    pub confidence: u8,
    /// True if the container has password protection.
    pub has_password: bool,
    /// Hex bytes of a leading header before the magic (if any).
    pub header_hex: Option<String>,
    /// Name of an inner file.
    pub inner_name: Option<String>,
    /// Embedded files inside a container.
    pub children: Vec<ScanResult>,
}

/// The text of an optional string.
pub open spec fn opt_view(o: Option<String>) -> Option<Seq<char>> {
    match o {
        Some(s) => Some(s@),
        None => None,
    }
}

/// Copies an optional string.
pub fn clone_opt(o: &Option<String>) -> (res: Option<String>)
    ensures
        res == *o,
{
    match o {
        Some(s) => Some(s.clone()),
        None => None,
    }
}

/// The fields of a result other than its children.
pub open spec fn result_fields(
    r: ScanResult,
) -> (Seq<char>, Option<Seq<char>>, Option<Seq<char>>, Option<Seq<char>>, u64, u8, bool, Option<Seq<char>>, Option<Seq<char>>) {
    (
        r.file_type@,
        opt_view(r.mime),
        opt_view(r.extension),
        opt_view(r.compression),
        r.offset,
        r.confidence,
        r.has_password,
        opt_view(r.header_hex),
        opt_view(r.inner_name),
    )
}

/// Two results carry the same data, children included.
pub open spec fn same_result(a: ScanResult, b: ScanResult) -> bool
    decreases a, 1int,
{
    &&& result_fields(a) == result_fields(b)
    &&& same_results(a.children@, b.children@)
}

/// Two lists of results carry the same data, element by element.
pub open spec fn same_results(a: Seq<ScanResult>, b: Seq<ScanResult>) -> bool
    decreases a, 0int,
{
    &&& a.len() == b.len()
    &&& (a.len() > 0 ==> {
        &&& same_results(a.drop_last(), b.drop_last())
        &&& same_result(a.last(), b.last())
    })
}

/// `same_result` is symmetric.
pub proof fn lemma_same_result_symmetric(a: ScanResult, b: ScanResult)
    requires
        same_result(a, b),
    ensures
        same_result(b, a),
    decreases a, 1int,
{
    lemma_same_results_symmetric(a.children@, b.children@);
}

/// `same_results` is symmetric.
pub proof fn lemma_same_results_symmetric(a: Seq<ScanResult>, b: Seq<ScanResult>)
    requires
        same_results(a, b),
    ensures
        same_results(b, a),
    decreases a, 0int,
{
    if a.len() > 0 {
        lemma_same_results_symmetric(a.drop_last(), b.drop_last());
        lemma_same_result_symmetric(a.last(), b.last());
    }
}

/// The "Unknown" type name.
pub open spec fn unknown_name() -> Seq<char> {
    seq!['U', 'n', 'k', 'n', 'o', 'w', 'n']
}

/// A result that identifies nothing.
pub open spec fn is_unknown_result(r: ScanResult) -> bool {
    &&& r.file_type@ == unknown_name()
    &&& r.mime is None
    &&& r.extension is None
    &&& r.compression is None
    &&& r.offset == 0
    &&& r.confidence == 0
    &&& !r.has_password
    &&& r.header_hex is None
    &&& r.inner_name is None
    &&& r.children@.len() == 0
}

impl ScanResult {
    /// A result that identifies nothing: type "Unknown", confidence 0.
    pub fn unknown() -> (res: Self)
        ensures
            is_unknown_result(res),
    {
        let name = String::from_str("Unknown");
        proof {
            reveal_strlit("Unknown");
            assert(name@ =~= unknown_name());
        }
        ScanResult {
            file_type: name,
            mime: None,
            extension: None,
            compression: None,
            offset: 0,
            confidence: 0,
            has_password: false,
            header_hex: None,
            inner_name: None,
            children: Vec::new(),
        }
    }

    /// A copy of this result, children included.
    pub fn duplicate(&self) -> (res: Self)
        ensures
            same_result(*self, res),
        decreases self,
    {
        let mut children: Vec<ScanResult> = Vec::new();
        let n = self.children.len();
        for i in 0..n
            invariant
                n == self.children@.len(),
                same_results(self.children@.take(i as int), children@),
        {
            let c = self.children[i].duplicate();
            let ghost prev = children@;
            children.push(c);
            assert(self.children@.take(i + 1).drop_last() =~= self.children@.take(i as int));
            assert(children@.drop_last() =~= prev);
        }
        assert(self.children@.take(n as int) =~= self.children@);
        let res = ScanResult {
            file_type: self.file_type.clone(),
            mime: clone_opt(&self.mime),
            extension: clone_opt(&self.extension),
            compression: clone_opt(&self.compression),
            offset: self.offset,
            confidence: self.confidence,
            has_password: self.has_password,
            header_hex: clone_opt(&self.header_hex),
            inner_name: clone_opt(&self.inner_name),
            children,
        };
        assert(result_fields(*self) == result_fields(res));
        res
    }
}

/// One magic pattern of a signature.
#[derive(Debug, Clone)]
pub struct MagicPattern {
    pub offset: i64,
    pub hex_bytes: String,
    pub mask: Option<String>,
    pub endianness: String,
}

/// The data of a magic pattern.
pub struct PatternView {
    pub offset: i64,
    pub hex_bytes: Seq<char>,
    pub mask: Option<Seq<char>>,
    pub endianness: Seq<char>,
}

impl View for MagicPattern {
    type V = PatternView;

    open spec fn view(&self) -> PatternView {
        PatternView {
            offset: self.offset,
            hex_bytes: self.hex_bytes@,
            mask: opt_view(self.mask),
            endianness: self.endianness@,
        }
    }
}

/// A signature from the database, with its patterns.
#[derive(Debug, Clone)]
pub struct Signature {
    pub id: i64,
    pub name: String,
    pub mime: Option<String>,
    pub extension: Option<String>,
    pub patterns: Vec<MagicPattern>,
}

/// The data of a signature.
pub struct SignatureView {
    pub id: i64,
    pub name: Seq<char>,
    pub mime: Option<Seq<char>>,
    pub extension: Option<Seq<char>>,
    pub patterns: Seq<PatternView>,
}

impl View for Signature {
    type V = SignatureView;

    open spec fn view(&self) -> SignatureView {
        SignatureView {
            id: self.id,
            name: self.name@,
            mime: opt_view(self.mime),
            extension: opt_view(self.extension),
            patterns: self.patterns@.map_values(|p: MagicPattern| p@),
        }
    }
}

/// Request payload for a scan.
#[derive(Debug, Clone)]
pub struct ScanRequest {
    pub path: String,
    pub mode: ScanMode,
}

/// Report of one segment in a segmented scan.
#[derive(Debug)]
pub struct SegmentReport {
    pub index: usize,
    pub offset: u64,
    pub size: u64,
    pub result: ScanResult,
}

/// Full scan response: one result or several segments.
#[derive(Debug)]
pub struct ScanResponse {
    pub total_size: u64,
    pub segments: Vec<SegmentReport>,
    pub combined: ScanResult,
}

} // verus!
