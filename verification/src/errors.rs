use vstd::prelude::*;

verus! {

/// A fatal condition that aborts the whole build pipeline.
///
/// Every error is unrecoverable at the point of occurrence: the pipeline
/// performs no retries and salvages no partial result.
#[derive(Debug)]
pub enum BuildError {
    /// A required configuration value was absent or malformed at
    /// settings-resolution time.
    ConfigurationError,
    /// A source root (or a directory below it) could not be listed; carries
    /// the offending path.
    DirectoryUnreadable(String),
    /// Source resolution produced an empty list, which is always treated as a
    /// configuration error, never a silent no-op.
    NoSourceFiles,
    /// A compile step reported failure; carries its message.
    CompileFailed(String),
    /// A link step reported failure; carries its message.
    LinkFailed(String),
    /// The dependency-manifest tokenizer met a backslash followed by
    /// something other than `\`, a space, or a newline; carries the
    /// offending character.
    InvalidEscape(char),
}

/// The mathematical value of a [`BuildError`]: the same choice of kinds,
/// with path and message payloads as character sequences.
pub enum BuildErrorView {
    ConfigurationError,
    DirectoryUnreadable(Seq<char>),
    NoSourceFiles,
    CompileFailed(Seq<char>),
    LinkFailed(Seq<char>),
    InvalidEscape(char),
}

impl View for BuildError {
    type V = BuildErrorView;

    open spec fn view(&self) -> BuildErrorView {
        match self {
            BuildError::ConfigurationError => BuildErrorView::ConfigurationError,
            BuildError::DirectoryUnreadable(p) => BuildErrorView::DirectoryUnreadable(p@),
            BuildError::NoSourceFiles => BuildErrorView::NoSourceFiles,
            BuildError::CompileFailed(m) => BuildErrorView::CompileFailed(m@),
            BuildError::LinkFailed(m) => BuildErrorView::LinkFailed(m@),
            BuildError::InvalidEscape(c) => BuildErrorView::InvalidEscape(*c),
        }
    }
}

impl BuildError {
    /// A short human-readable description of the error kind, for the message
    /// the embedding build script prints before exiting non-zero.
    pub fn describe(&self) -> (r: String)
        ensures
            r@ == match self {
                BuildError::ConfigurationError => "missing or malformed configuration value"@,
                BuildError::DirectoryUnreadable(_) => "source root cannot be listed"@,
                BuildError::NoSourceFiles => "nothing to compile"@,
                BuildError::CompileFailed(_) => "compile step failed"@,
                BuildError::LinkFailed(_) => "link step failed"@,
                BuildError::InvalidEscape(_) => "unknown escape sequence in dependency manifest"@,
            },
    {
        let text = match self {
            BuildError::ConfigurationError => "missing or malformed configuration value",
            BuildError::DirectoryUnreadable(_) => "source root cannot be listed",
            BuildError::NoSourceFiles => "nothing to compile",
            BuildError::CompileFailed(_) => "compile step failed",
            BuildError::LinkFailed(_) => "link step failed",
            BuildError::InvalidEscape(_) => "unknown escape sequence in dependency manifest",
        };
        String::from_str(text)
    }
}

} // verus!
