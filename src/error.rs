//! Errors of the engine access layer.
use vstd::prelude::*;

verus! {

/// Why a translation call failed.
#[derive(Debug, Clone, Copy, PartialEq, Eq, Structural)]
pub enum TransErr {
    /// The translate entry point returned a null pointer.
    NullPointer,
    /// The translation failed.
    Failed,
    /// The narrow reply was not valid EUC-KR.
    EucKrDecodeFailed,
}

impl TransErr {
    /// The human-readable description of the failure.
    pub fn message(&self) -> (r: &'static str)
        ensures
            r@ == match self {
                TransErr::NullPointer => "TRANSLATE func returned a null pointer"@,
                TransErr::Failed => "Translation failed"@,
                TransErr::EucKrDecodeFailed => "EUC-KR decoding failed"@,
            },
    {
        match self {
            TransErr::NullPointer => "TRANSLATE func returned a null pointer",
            TransErr::Failed => "Translation failed",
            TransErr::EucKrDecodeFailed => "EUC-KR decoding failed",
        }
    }
}

/// Every failure of the engine access layer.
#[derive(Debug, Clone, PartialEq, Eq)]
pub enum EzTransError {
    /// The engine module could not be opened; the loader's message.
    LibraryLoadError(String),
    /// An entry point could not be resolved; the loader's message.
    SymbolLoadError(String),
    /// The initialize entry point did not report success.
    InitializationError,
    /// A translate call failed.
    TranslationError(TransErr),
    /// The terminate entry point did not report success.
    TerminationError,
    /// The module was asked for before its path was fixed.
    DllPathNotSet,
    /// A string handed to the engine holds a NUL at this byte position.
    InvalidString(usize),
    /// The module path was fixed already; the path that was refused.
    OnceLockError(String),
    /// The transport that carries requests failed.
    SharedMemoryError(String),
    /// The wide reply was not valid UTF-16.
    Utf16Error(String),
    /// A translation was asked for before a successful initialization.
    NotInitialized,
}

} // verus!
