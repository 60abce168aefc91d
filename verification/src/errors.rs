//! Error taxonomy of the engine.
//!
//! Low-level I/O failures are collapsed into the small closed set [`IoKind`];
//! every failure the engine can surface is a [`GlyphoError`]. Each kind has a
//! fixed, human-readable message, so an error is always rendered as specific
//! text instead of aborting the server.

use vstd::prelude::*;

verus! {

/// The closed set of I/O failure categories the engine distinguishes.
///
/// Rare failure kinds of the host OS are collapsed into [`IoKind::Other`] to
/// keep the taxonomy small and stable.
#[derive(Clone, Copy, Debug, PartialEq, Eq, Structural)]
pub enum IoKind {
    /// The file or directory does not exist.
    NotFound,
    /// Insufficient permissions.
    PermissionDenied,
    /// The bytes read are not valid text.
    InvalidData,
    /// The operation timed out.
    TimedOut,
    /// The operation was interrupted and may be retried.
    Interrupted,
    /// The operation is not supported on this platform.
    Unsupported,
    /// The input ended unexpectedly.
    UnexpectedEof,
    /// The process is out of memory.
    OutOfMemory,
    /// Any other I/O failure.
    Other,
}

/// A position in the source text, as reported by the markdown compiler.
#[derive(Clone, Copy, Debug, PartialEq, Eq, Structural)]
pub struct TextPoint {
    /// 1-indexed line.
    pub line: usize,
    /// 1-indexed column.
    pub column: usize,
}

/// Every failure mode of the engine.
///
/// No variant terminates the process: I/O and compile failures become error
/// panels, a watch-setup failure disables live reload for one connection
/// only, and a poisoned cache lock is treated as "render pending".
#[derive(Clone, Debug)]
pub enum GlyphoError {
    /// Reading the watched file failed.
    Io { kind: IoKind },
    /// The markdown compiler rejected the input outright.
    Malformed {
        /// Where in the source the compiler gave up, if it said.
        point: Option<TextPoint>,
        /// The compiler's reason.
        reason: String,
        /// The compiler's rule category.
        rule_id: String,
        /// The compiler's rule namespace.
        source: String,
    },
    /// A filesystem watch could not be registered.
    WatchSetup,
    /// A previous render panicked while holding the cache's write lock.
    Poison,
}

/// The fixed message for each I/O failure category.
pub open spec fn io_kind_message_text(k: IoKind) -> Seq<char> {
    match k {
        IoKind::NotFound => "The file or directory does not exist"@,
        IoKind::PermissionDenied => "Permission denied, insufficient permissions"@,
        IoKind::InvalidData => "Corrupted data encountered"@,
        IoKind::TimedOut => "Operation timed out"@,
        IoKind::Interrupted => "Operation was interrupted"@,
        IoKind::Unsupported => "Operation not supported on this platform"@,
        IoKind::UnexpectedEof => "Unexpected end of file"@,
        IoKind::OutOfMemory => "Out of memory"@,
        IoKind::Other => "An unspecified I/O error occurred"@,
    }
}

/// Maps an I/O failure category to its human-readable message.
pub fn io_kind_message(k: IoKind) -> (r: String)
    ensures
        r@ == io_kind_message_text(k),
{
    match k {
        IoKind::NotFound => "The file or directory does not exist".to_owned(),
        IoKind::PermissionDenied => "Permission denied, insufficient permissions".to_owned(),
        IoKind::InvalidData => "Corrupted data encountered".to_owned(),
        IoKind::TimedOut => "Operation timed out".to_owned(),
        IoKind::Interrupted => "Operation was interrupted".to_owned(),
        IoKind::Unsupported => "Operation not supported on this platform".to_owned(),
        IoKind::UnexpectedEof => "Unexpected end of file".to_owned(),
        IoKind::OutOfMemory => "Out of memory".to_owned(),
        IoKind::Other => "An unspecified I/O error occurred".to_owned(),
    }
}

/// The user-facing message of each failure. For a compile failure the
/// compiler's own reason is embedded, so the message is specific rather than
/// a silent fallback.
pub open spec fn error_message_text(e: GlyphoError) -> Seq<char> {
    match e {
        GlyphoError::Io { kind } => io_kind_message_text(kind),
        GlyphoError::Malformed { point: _, reason, rule_id: _, source: _ } => {
            "Markdown parsing failed: "@ + reason@
        },
        GlyphoError::WatchSetup => "Cannot register a filesystem watch"@,
        GlyphoError::Poison => "A previous render was abandoned; retrying"@,
    }
}

impl GlyphoError {
    /// The user-facing message of this failure.
    pub fn message(&self) -> (r: String)
        ensures
            r@ == error_message_text(*self),
    {
        match self {
            GlyphoError::Io { kind } => io_kind_message(*kind),
            GlyphoError::Malformed { point: _, reason, rule_id: _, source: _ } => {
                let mut m = "Markdown parsing failed: ".to_owned();
                m.append(reason.as_str());
                m
            },
            GlyphoError::WatchSetup => "Cannot register a filesystem watch".to_owned(),
            GlyphoError::Poison => "A previous render was abandoned; retrying".to_owned(),
        }
    }
}

impl From<IoKind> for GlyphoError {
    /// Classifies an I/O failure category as an engine failure.
    fn from(kind: IoKind) -> (r: GlyphoError) {
        GlyphoError::Io { kind }
    }
}

impl vstd::std_specs::convert::FromSpecImpl<IoKind> for GlyphoError {
    open spec fn obeys_from_spec() -> bool {
        true
    }

    open spec fn from_spec(kind: IoKind) -> GlyphoError {
        GlyphoError::Io { kind }
    }
}

} // verus!
