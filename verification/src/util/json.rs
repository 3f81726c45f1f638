//! Classification of failures while loading JSON assets.
//!
//! Reading and parsing happen outside the library; this module decides which
//! library error a failure becomes.

use vstd::prelude::*;

use crate::Error;

verus! {

/// How reading an asset from disk failed.
#[derive(Debug, Clone, Copy, PartialEq, Eq)]
pub enum ReadFailure {
    /// The file does not exist.
    NotFound,
    /// Any other file-system error.
    Other,
}

/// The category a JSON parser assigns to a failure.
#[derive(Debug, Clone, Copy, PartialEq, Eq)]
pub enum JsonFailure {
    /// Invalid JSON syntax.
    Syntax,
    /// The input ended in the middle of a value.
    Eof,
    /// Valid JSON that does not match the expected schema.
    Data,
    /// A failure of the underlying reader.
    Io,
}

/// The kind of asset being loaded; it selects the family of error variants.
#[derive(Debug, Clone, Copy, PartialEq, Eq)]
pub enum AssetKind {
    /// `config.json`, `generation_config.json` and `tokenizer_config.json`.
    Configuration,
    /// `processor_config.json`.
    Processor,
    /// `special_tokens_map.json`.
    Tokenizer,
}

/// Whether a JSON failure is a syntax problem rather than a schema mismatch.
pub open spec fn is_syntax_failure(failure: JsonFailure) -> bool {
    failure is Syntax || failure is Eof
}

/// The error reported when an asset could not be read.
pub fn read_error(kind: AssetKind, failure: ReadFailure, path: String, reason: String) -> (e: Error)
    ensures
        kind is Configuration ==> (if failure is NotFound {
            e == (Error::MissingConfigurationFile { path })
        } else {
            e == (Error::ReadConfigurationFile { path, reason })
        }),
        kind is Processor ==> (if failure is NotFound {
            e == (Error::MissingProcessorAsset { path })
        } else {
            e == (Error::ReadProcessorAsset { path, reason })
        }),
        kind is Tokenizer ==> (if failure is NotFound {
            e == (Error::MissingTokenizerAsset { path })
        } else {
            e == (Error::ReadTokenizerAsset { path, reason })
        }),
{
    match (kind, failure) {
        (AssetKind::Configuration, ReadFailure::NotFound) => Error::MissingConfigurationFile { path },
        (AssetKind::Configuration, ReadFailure::Other) => Error::ReadConfigurationFile { path, reason },
        (AssetKind::Processor, ReadFailure::NotFound) => Error::MissingProcessorAsset { path },
        (AssetKind::Processor, ReadFailure::Other) => Error::ReadProcessorAsset { path, reason },
        (AssetKind::Tokenizer, ReadFailure::NotFound) => Error::MissingTokenizerAsset { path },
        (AssetKind::Tokenizer, ReadFailure::Other) => Error::ReadTokenizerAsset { path, reason },
    }
}

/// The error reported when an asset could not be parsed.
pub fn parse_error(kind: AssetKind, failure: JsonFailure, path: String, reason: String) -> (e: Error)
    ensures
        kind is Configuration ==> (if is_syntax_failure(failure) {
            e == (Error::MalformedConfigurationJson { path, reason })
        } else {
            e == (Error::InvalidConfiguration { path, reason })
        }),
        kind is Processor ==> (if is_syntax_failure(failure) {
            e == (Error::MalformedProcessorJson { path, reason })
        } else {
            e == (Error::InvalidProcessorJson { path, reason })
        }),
        kind is Tokenizer ==> (if is_syntax_failure(failure) {
            e == (Error::MalformedTokenizerJson { path, reason })
        } else {
            e == (Error::InvalidTokenizerJson { path, reason })
        }),
{
    let syntax = match failure {
        JsonFailure::Syntax | JsonFailure::Eof => true,
        JsonFailure::Data | JsonFailure::Io => false,
    };
    match kind {
        AssetKind::Configuration => if syntax {
            Error::MalformedConfigurationJson { path, reason }
        } else {
            Error::InvalidConfiguration { path, reason }
        },
        AssetKind::Processor => if syntax {
            Error::MalformedProcessorJson { path, reason }
        } else {
            Error::InvalidProcessorJson { path, reason }
        },
        AssetKind::Tokenizer => if syntax {
            Error::MalformedTokenizerJson { path, reason }
        } else {
            Error::InvalidTokenizerJson { path, reason }
        },
    }
}

} // verus!
