//! The diagnostic error model: a classified parse failure together with the
//! source buffer it points into and an optional input name.

use vstd::prelude::*;
use crate::lines::split_lines;

verus! {

/// Classification of a failure, as surfaced by the external JSON parser.
///
/// Only `Io` carries no meaningful textual position; every other kind points
/// at a 1-based line and column of the source buffer.
#[derive(Clone, Copy, Debug, PartialEq, Eq, Structural)]
pub enum ErrorKind {
    /// The source could not be read at all; no position is meaningful.
    Io,
    /// The input ended in the middle of a value or structure.
    Eof,
    /// A malformed token at a position.
    Syntax,
    /// Well-formed JSON of the wrong shape for the target type.
    DataShape,
}

/// The structured failure handed over by the external parser: a kind, a
/// 1-based position, and a display message.
#[derive(Debug)]
pub struct ClassifiedError {
    /// What went wrong.
    pub kind: ErrorKind,
    /// 1-based line of the failure; meaningful only when `kind` is not `Io`.
    pub line: usize,
    /// 1-based column of the failure; meaningful only when `kind` is not `Io`.
    pub column: usize,
    /// The parser's display message.
    pub message: String,
}

/// The source bytes that were fed to the parser, or a placeholder for
/// builds that do not retain the source.
#[derive(Debug)]
pub enum SourceRecord {
    /// The complete original input.
    Retained(Vec<u8>),
    /// Source retention is disabled; nothing can be re-displayed.
    Placeholder,
}

impl SourceRecord {
    /// The retained bytes, if any.
    pub open spec fn bytes_opt(&self) -> Option<Seq<u8>> {
        match self {
            SourceRecord::Retained(v) => Some(v@),
            SourceRecord::Placeholder => None,
        }
    }
}

/// A parse failure bundled with everything the renderer needs: the source
/// record, the name of the input when it was a file, and the classified
/// inner error.
#[derive(Debug)]
pub struct Error {
    src: SourceRecord,
    filename: Option<String>,
    inner: ClassifiedError,
}

/// The mathematical content of an [`Error`].
pub struct ErrorModel {
    /// The retained source bytes, if retention was enabled.
    pub src: Option<Seq<u8>>,
    /// The display name of the input, if it was a file.
    pub filename: Option<Seq<char>>,
    /// Classification of the failure.
    pub kind: ErrorKind,
    /// 1-based failure line.
    pub line: nat,
    /// 1-based failure column.
    pub column: nat,
    /// The parser's display message.
    pub message: Seq<char>,
}

impl View for Error {
    type V = ErrorModel;

    closed spec fn view(&self) -> ErrorModel {
        ErrorModel {
            src: self.src.bytes_opt(),
            filename: match self.filename {
                Some(f) => Some(f@),
                None => None,
            },
            kind: self.inner.kind,
            line: self.inner.line as nat,
            column: self.inner.column as nat,
            message: self.inner.message@,
        }
    }
}

impl ErrorModel {
    /// A positioned diagnostic must keep its source, and its line must name
    /// one of the source's line records. `Io` diagnostics carry no position
    /// and need no source.
    pub open spec fn wf(&self) -> bool {
        self.kind != ErrorKind::Io ==> {
            &&& self.src is Some
            &&& 1 <= self.line
            &&& self.line <= split_lines(self.src->0).len()
        }
    }
}

impl Error {
    /// Bundle a classified parse failure with the source it points into.
    pub fn new(src: SourceRecord, filename: Option<String>, inner: ClassifiedError) -> (e: Error)
        ensures
            e@.src == src.bytes_opt(),
            e@.filename == match filename {
                Some(f) => Some(f@),
                None => None::<Seq<char>>,
            },
            e@.kind == inner.kind,
            e@.line == inner.line,
            e@.column == inner.column,
            e@.message == inner.message@,
    {
        Error { src, filename, inner }
    }

    /// Wrap a lower-level I/O failure that happened before any bytes could
    /// be parsed: an empty source, no filename, no position.
    pub fn from_io_message(message: String) -> (e: Error)
        ensures
            e@ == spec_io_error(message@),
            e@.wf(),
    {
        let e = Error {
            src: SourceRecord::Retained(Vec::new()),
            filename: None,
            inner: ClassifiedError { kind: ErrorKind::Io, line: 0, column: 0, message },
        };
        e
    }

    /// The classification of the failure.
    pub fn kind(&self) -> (k: ErrorKind)
        ensures
            k == self@.kind,
    {
        self.inner.kind
    }

    /// 1-based failure line; meaningful only for non-`Io` kinds.
    pub fn line(&self) -> (l: usize)
        ensures
            l == self@.line,
    {
        self.inner.line
    }

    /// 1-based failure column; meaningful only for non-`Io` kinds.
    pub fn column(&self) -> (c: usize)
        ensures
            c == self@.column,
    {
        self.inner.column
    }

    /// The parser's display message.
    pub fn message(&self) -> (m: &String)
        ensures
            m@ == self@.message,
    {
        &self.inner.message
    }

    /// The display name of the input, if it was a file.
    pub fn filename(&self) -> (f: &Option<String>)
        ensures
            match f {
                Some(s) => self@.filename == Some(s@),
                None => self@.filename is None,
            },
    {
        &self.filename
    }

    /// The retained source, if retention was enabled.
    pub fn source(&self) -> (s: &SourceRecord)
        ensures
            s.bytes_opt() == self@.src,
    {
        &self.src
    }

    /// Downgrade to the minimal I/O-style error: only the message survives;
    /// the source, the filename and the position are discarded.
    pub fn into_message(self) -> (m: String)
        ensures
            m@ == spec_downgrade(self@),
    {
        let Error { src: _, filename: _, inner } = self;
        inner.message
    }
}

/// What downgrading keeps of a diagnostic: the message text alone.
pub open spec fn spec_downgrade(e: ErrorModel) -> Seq<char> {
    e.message
}

/// The diagnostic that wraps a bare I/O message: empty source, no
/// filename, no position.
pub open spec fn spec_io_error(message: Seq<char>) -> ErrorModel {
    ErrorModel {
        src: Some(Seq::<u8>::empty()),
        filename: None,
        kind: ErrorKind::Io,
        line: 0,
        column: 0,
        message,
    }
}

/// Downgrading is idempotent on message content: wrapping a downgraded
/// message back up as an I/O failure and downgrading again returns the very
/// same message, while the rebuilt error has dropped source and position.
pub proof fn lemma_downgrade_idempotent(e: ErrorModel)
    ensures
        spec_downgrade(spec_io_error(spec_downgrade(e))) == spec_downgrade(e),
        spec_io_error(spec_downgrade(e)).filename is None,
        spec_io_error(spec_downgrade(e)).kind == ErrorKind::Io,
        spec_io_error(spec_downgrade(e)).wf(),
{
}

} // verus!
