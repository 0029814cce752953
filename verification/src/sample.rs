use vstd::prelude::*;

verus! {

/// A read of `len` bytes at `offset` that a scan needs.
#[derive(Debug, Clone, Copy, PartialEq, Eq, Structural)]
pub struct ReadRequest {
    pub offset: u64,
    pub len: usize,
}

/// The outcome of one read: the bytes that a single read of up to `len`
/// bytes at `offset` returned, or the error it failed with.
#[derive(Debug)]
pub struct FileWindow {
    pub offset: u64,
    pub len: usize,
    pub data: Result<Vec<u8>, String>,
}

/// What a scan knows of a file: its size and the reads made of it.
#[derive(Debug)]
pub struct FileSample {
    pub size: u64,
    pub windows: Vec<FileWindow>,
}

/// The window is the read of `len` bytes at `offset`.
pub open spec fn window_is(w: FileWindow, offset: u64, len: usize) -> bool {
    w.offset == offset && w.len == len
}

/// The outcome of a read, by its data.
pub open spec fn window_outcome(w: FileWindow) -> Result<Seq<u8>, Seq<char>> {
    match w.data {
        Ok(v) => Ok(v@),
        Err(e) => Err(e@),
    }
}

/// The index of the first window from index `i` on that is the read of
/// `len` bytes at `offset`, or -1.
pub open spec fn find_window(ws: Seq<FileWindow>, offset: u64, len: usize, i: int) -> int
    decreases ws.len() - i,
{
    if i < 0 || i >= ws.len() {
        -1
    } else if window_is(ws[i], offset, len) {
        i
    } else {
        find_window(ws, offset, len, i + 1)
    }
}

/// The outcome of reading `len` bytes at `offset`, if the sample holds that
/// read (the first such window counts).
pub open spec fn spec_read(s: FileSample, offset: u64, len: usize) -> Option<Result<Seq<u8>, Seq<char>>> {
    let f = find_window(s.windows@, offset, len, 0);
    if f >= 0 {
        Some(window_outcome(s.windows@[f]))
    } else {
        None
    }
}

proof fn lemma_find_window(ws: Seq<FileWindow>, offset: u64, len: usize, i: int, m: int)
    requires
        0 <= i <= m < ws.len(),
        window_is(ws[m], offset, len),
    ensures
        i <= find_window(ws, offset, len, i) <= m,
        window_is(ws[find_window(ws, offset, len, i)], offset, len),
    decreases m - i,
{
    if !window_is(ws[i], offset, len) {
        lemma_find_window(ws, offset, len, i + 1, m);
    }
}

/// The bytes of `contents` that a read of `len` bytes at `offset` returns.
pub open spec fn bytes_at(contents: Seq<u8>, offset: u64, len: usize) -> Seq<u8> {
    let start = if offset < contents.len() { offset as int } else { contents.len() as int };
    let end = if start + len < contents.len() { start + len } else { contents.len() as int };
    contents.subrange(start, end)
}

/// The sample holds, in plan order, the reads of `plan` from a file with
/// these contents.
pub open spec fn reads_contents(s: FileSample, contents: Seq<u8>, plan: Seq<ReadRequest>) -> bool {
    &&& s.size == contents.len()
    &&& s.windows@.len() == plan.len()
    &&& forall|i: int|
        0 <= i < plan.len() ==> {
            &&& window_is(#[trigger] s.windows@[i], plan[i].offset, plan[i].len)
            &&& window_outcome(s.windows@[i]) == Ok::<Seq<u8>, Seq<char>>(
                bytes_at(contents, plan[i].offset, plan[i].len),
            )
        }
}

/// A sample read from contents answers every read of its plan with the
/// bytes the contents hold there.
pub proof fn lemma_reads_contents(s: FileSample, contents: Seq<u8>, plan: Seq<ReadRequest>, i: int)
    requires
        reads_contents(s, contents, plan),
        0 <= i < plan.len(),
    ensures
        spec_read(s, plan[i].offset, plan[i].len) == Some(
            Ok::<Seq<u8>, Seq<char>>(bytes_at(contents, plan[i].offset, plan[i].len)),
        ),
{
    assert(window_is(s.windows@[i], plan[i].offset, plan[i].len));
    lemma_find_window(s.windows@, plan[i].offset, plan[i].len, 0, i);
    let f = find_window(s.windows@, plan[i].offset, plan[i].len, 0);
    assert(window_is(s.windows@[f], plan[f].offset, plan[f].len));
}

impl FileSample {
    /// The outcome of reading `len` bytes at `offset`; an error when the
    /// sample holds no such read.
    pub fn read(&self, offset: u64, len: usize) -> (res: Result<&Vec<u8>, String>)
        ensures
            spec_read(*self, offset, len) matches Some(Ok(b)) ==> (res matches Ok(v) && v@ == b),
            spec_read(*self, offset, len) matches Some(Err(m)) ==> (res matches Err(e) && e@ == m),
            spec_read(*self, offset, len) is None ==> res is Err,
    {
        let n = self.windows.len();
        let mut i: usize = 0;
        while i < n && !(self.windows[i].offset == offset && self.windows[i].len == len)
            invariant
                n == self.windows@.len(),
                i <= n,
                find_window(self.windows@, offset, len, 0) == find_window(self.windows@, offset, len, i as int),
            decreases n - i,
        {
            i = i + 1;
        }
        if i == n {
            return Err(String::from_str("no read of the file was made at this offset"));
        }
        match &self.windows[i].data {
            Ok(v) => Ok(v),
            Err(e) => Err(e.clone()),
        }
    }

    /// The sample that reading `plan` from a file with these contents gives.
    pub fn from_contents(contents: &[u8], plan: &Vec<ReadRequest>) -> (res: FileSample)
        ensures
            reads_contents(res, contents@, plan@),
    {
        let size = contents.len();
        let mut windows: Vec<FileWindow> = Vec::new();
        for i in 0..plan.len()
            invariant
                size == contents@.len(),
                windows@.len() == i,
                forall|j: int|
                    0 <= j < i ==> {
                        &&& window_is(#[trigger] windows@[j], plan@[j].offset, plan@[j].len)
                        &&& window_outcome(windows@[j]) == Ok::<Seq<u8>, Seq<char>>(
                            bytes_at(contents@, plan@[j].offset, plan@[j].len),
                        )
                    },
        {
            let req = plan[i];
            let start: usize = if req.offset < size as u64 {
                req.offset as usize
            } else {
                size
            };
            let end: usize = if req.len < size - start {
                start + req.len
            } else {
                size
            };
            let part = vstd::slice::slice_subrange(contents, start, end);
            let data = vstd::slice::slice_to_vec(part);
            assert(data@ =~= bytes_at(contents@, req.offset, req.len));
            windows.push(FileWindow { offset: req.offset, len: req.len, data: Ok(data) });
        }
        FileSample { size: size as u64, windows }
    }
}

} // verus!
