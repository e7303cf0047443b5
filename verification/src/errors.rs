//! The errors a command can end with.
//!
//! Backend failures are opaque: their text is carried through unchanged and
//! never reinterpreted. Filesystem and input errors carry the exact names and
//! paths involved, so the caller can say which artifact was missing and which
//! command produces it.
use vstd::prelude::*;

use crate::hexcodec::HexDecodeError;

verus! {

/// A filesystem-level failure while locating or decoding an artifact.
pub enum FilesystemError {
    /// An artifact file is absent or unreadable at the path it must live at.
    PathNotValid { path: String },
    /// A hex-encoded artifact does not decode.
    HexArtifactNotValid { error: HexDecodeError },
    /// An input configuration file is absent; carries the bare file name and
    /// the full path it was expected at.
    MissingTomlFile { file_name: String, path: String },
    /// An input configuration file does not parse against the schema.
    InputParser { message: String },
}

/// Why a command failed. Backend errors keep the backend's own words, one
/// variant per capability group, so unrelated failures stay apart.
pub enum CliError {
    /// A structurally sound proof that does not verify; carries the path of
    /// the proof file it was read from.
    InvalidProof { proof_path: String },
    /// An ABI encoding or decoding failure.
    AbiError { message: String },
    /// A filesystem failure.
    FilesystemError { error: FilesystemError },
    /// A witness-solving failure.
    NargoError { message: String },
    /// A contract-emission failure of the backend.
    SmartContractError { message: String },
    /// A proving or verifying failure of the backend.
    ProofSystemCompilerError { message: String },
    /// A CRS generation or update failure of the backend.
    CommonReferenceStringError { message: String },
}

} // verus!
