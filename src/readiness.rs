use vstd::prelude::*;
use crate::text::{after_prefix, strip_prefix};

verus! {

/// The line prefix with which a Node-style inspector announces its endpoint.
pub const DEBUGGER_MARKER: &'static str = "Debugger listening on ";

/// The line prefix with which a Chromium-style target announces its endpoint.
pub const DEVTOOLS_MARKER: &'static str = "DevTools listening on ";

/// The endpoint that `line` announces under `marker`, if it does.
pub open spec fn announced(line: Seq<char>, marker: Seq<char>) -> Option<Seq<char>> {
    after_prefix(line, marker)
}

/// Whether line `i` is the first line of `lines` that announces an endpoint.
pub open spec fn is_first_match(lines: Seq<Seq<char>>, marker: Seq<char>, i: int) -> bool {
    &&& 0 <= i < lines.len()
    &&& announced(lines[i], marker) is Some
    &&& forall|j: int| 0 <= j < i ==> (#[trigger] announced(lines[j], marker)) is None
}

/// The endpoint announced by one diagnostic line, or `None`.
pub fn scan_line(line: &str, marker: &str) -> (r: Option<String>)
    ensures
        announced(line@, marker@) is None <==> r is None,
        r matches Some(u) ==> announced(line@, marker@) == Some(u@),
{
    match strip_prefix(line, marker) {
        Some(rest) => Some(rest.to_owned()),
        None => None,
    }
}

/// Why readiness could not be established.
#[derive(Debug, Clone, Copy, PartialEq, Eq)]
pub enum ReadinessError {
    /// The stream ended before any line announced an endpoint.
    Eof,
    /// The stream could not be read.
    Read,
}

/// What the scanner decided after one event of the stream.
#[derive(Debug, Clone, PartialEq, Eq)]
pub enum ScanOutcome {
    /// No endpoint yet: read the next line.
    Continue,
    /// The endpoint was announced: stop reading.
    Found(String),
    /// The stream ended without an announcement.
    Failed(ReadinessError),
}

/// A single-pass scanner over a diagnostic stream.  It keeps no line beyond
/// the current one: only the marker, how many lines it consumed, and whether
/// it has finished.
pub struct ReadinessScanner {
    marker: String,
    consumed: usize,
    done: bool,
}

impl ReadinessScanner {
    pub closed spec fn spec_marker(&self) -> Seq<char> {
        self.marker@
    }

    pub closed spec fn spec_consumed(&self) -> nat {
        self.consumed as nat
    }

    pub closed spec fn spec_done(&self) -> bool {
        self.done
    }

    /// A scanner that has read nothing yet.
    pub fn new(marker: &str) -> (r: Self)
        ensures
            r.spec_marker() == marker@,
            r.spec_consumed() == 0,
            !r.spec_done(),
    {
        ReadinessScanner { marker: marker.to_owned(), consumed: 0, done: false }
    }

    /// Number of lines consumed so far.
    pub fn consumed(&self) -> (r: usize)
        ensures
            r == self.spec_consumed(),
    {
        self.consumed
    }

    /// Whether the scan has ended, with an endpoint or with a failure.
    pub fn is_done(&self) -> (r: bool)
        ensures
            r == self.spec_done(),
    {
        self.done
    }

    /// Takes the next line of the stream.  Once an endpoint was found the
    /// scanner is done and ignores what follows.
    pub fn feed_line(&mut self, line: &str) -> (r: ScanOutcome)
        requires
            !old(self).spec_done(),
            old(self).spec_consumed() < usize::MAX,
        ensures
            final(self).spec_marker() == old(self).spec_marker(),
            final(self).spec_consumed() == old(self).spec_consumed() + 1,
            announced(line@, old(self).spec_marker()) is None ==> {
                &&& r == ScanOutcome::Continue
                &&& !final(self).spec_done()
            },
            announced(line@, old(self).spec_marker()) is Some ==> {
                &&& r matches ScanOutcome::Found(u)
                &&& announced(line@, old(self).spec_marker()) == Some(u@)
                &&& final(self).spec_done()
            },
    {
        self.consumed = self.consumed + 1;
        match scan_line(line, self.marker.as_str()) {
            Some(url) => {
                self.done = true;
                ScanOutcome::Found(url)
            },
            None => ScanOutcome::Continue,
        }
    }

    /// Takes the end of the stream: the scan fails, as no line announced an
    /// endpoint.
    pub fn feed_end(&mut self) -> (r: ScanOutcome)
        requires
            !old(self).spec_done(),
        ensures
            r == ScanOutcome::Failed(ReadinessError::Eof),
            final(self).spec_done(),
            final(self).spec_marker() == old(self).spec_marker(),
            final(self).spec_consumed() == old(self).spec_consumed(),
    {
        self.done = true;
        ScanOutcome::Failed(ReadinessError::Eof)
    }
}

/// The endpoint found in a finite stream, with the number of lines consumed.
#[derive(Debug, Clone, PartialEq, Eq)]
pub struct ScanResult {
    pub url: String,
    pub consumed: usize,
}

/// Scans `lines` in order.  Returns the endpoint of the first announcing line
/// together with the number of lines read, which ends at that line; fails with
/// `Eof` exactly when no line announces an endpoint.
pub fn scan_lines(lines: &Vec<String>, marker: &str) -> (r: Result<ScanResult, ReadinessError>)
    ensures
        r matches Ok(s) ==> {
            &&& is_first_match(lines@.map_values(|l: String| l@), marker@, s.consumed - 1)
            &&& announced(lines@[s.consumed - 1]@, marker@) == Some(s.url@)
        },
        r is Err <==> forall|j: int| 0 <= j < lines@.len() ==> (#[trigger] announced(lines@[j]@, marker@)) is None,
{
    let mut scanner = ReadinessScanner::new(marker);
    let mut i: usize = 0;
    while i < lines.len()
        invariant
            i <= lines@.len(),
            scanner.spec_marker() == marker@,
            scanner.spec_consumed() == i,
            !scanner.spec_done(),
            forall|j: int| 0 <= j < i ==> (#[trigger] announced(lines@[j]@, marker@)) is None,
        decreases lines@.len() - i,
    {
        match scanner.feed_line(lines[i].as_str()) {
            ScanOutcome::Found(url) => {
                let ghost seqs = lines@.map_values(|l: String| l@);
                assert(forall|j: int| 0 <= j < i ==> #[trigger] seqs[j] == lines@[j]@);
                assert(forall|j: int| 0 <= j < i ==> (#[trigger] announced(seqs[j], marker@)) is None);
                return Ok(ScanResult { url, consumed: i + 1 });
            },
            _ => {},
        }
        i = i + 1;
    }
    scanner.feed_end();
    Err(ReadinessError::Eof)
}

} // verus!
