//! The protocol between the verified command logic and its runner.
//!
//! Each command is a state machine. The runner performs one outside step at a
//! time — a file read, a backend call — and hands its outcome back as an
//! `Event`; the machine answers with the next `Action`. Every decision thus
//! lives in verified code, while all I/O and cryptography stay with the
//! runner. A machine finishes by answering `Stop` with the command's
//! `Outcome`.
use vstd::prelude::*;

use crate::abi::PreprocessedProgram;
use crate::crs::CrsAction;
use crate::errors::CliError;
use crate::inputs::InputMap;
use crate::inputs::InputValue;

verus! {

/// How reading and parsing an input configuration file went.
pub enum InputsFileOutcome {
    /// The file is absent.
    Missing,
    /// The file is present but does not parse against the schema.
    ParseError { message: String },
    /// The parsed entries, in file order.
    Parsed { inputs: InputMap },
}

/// How solving the circuit's witness went. The solved witness itself is an
/// opaque value of the solver and stays with the runner.
pub enum SolveOutcome {
    Solved,
    /// Encoding the inputs against the schema failed.
    AbiError { message: String },
    /// The solver itself failed.
    NargoError { message: String },
}

/// The public inputs and the return value decoded out of a solved witness.
pub struct DecodedPublic {
    pub inputs: InputMap,
    pub return_value: Option<InputValue>,
}

/// The outcome of one outside step, handed back to the machine.
pub enum Event {
    /// The CRS cache file's contents, or nothing when it was absent or
    /// unreadable.
    CrsRead { bytes: Option<Vec<u8>> },
    /// The circuit's build artifact, or nothing when it was absent or
    /// unreadable.
    ProgramRead { program: Option<PreprocessedProgram> },
    /// The refreshed CRS from the backend, or the backend's error.
    CrsRefreshed { result: Result<Vec<u8>, String> },
    /// A write action completed. The plain writes have no error path: a
    /// failed file write aborts the runner, as it does in the front end.
    Written,
    /// An input configuration file was read.
    InputsRead { outcome: InputsFileOutcome },
    /// The verifier's input file was serialized and written, or serializing
    /// it against the schema failed.
    InputsWritten { result: Result<(), String> },
    /// The witness solver finished.
    WitnessSolved { outcome: SolveOutcome },
    /// The public inputs were decoded out of the solved witness.
    PublicDecoded { result: Result<DecodedPublic, String> },
    /// The public inputs were encoded for the verifier.
    PublicEncoded { result: Result<(), String> },
    /// The backend produced a proof, or failed.
    Proved { result: Result<Vec<u8>, String> },
    /// The proof file's contents, or nothing when it was absent or
    /// unreadable.
    ProofFileRead { bytes: Option<Vec<u8>> },
    /// The backend's verdict on a proof, or its error.
    VerifyFinished { result: Result<bool, String> },
    /// The backend emitted the verifier contract, or failed.
    ContractEmitted { result: Result<String, String> },
    /// The backend reported the circuit's size, or failed.
    SizeComputed { result: Result<u32, String> },
}

/// What a successful command reports.
pub enum Report {
    /// Nothing to print.
    Quiet,
    /// The hex-encoded proof, printed when no proof name was given.
    ProofHex { hex: String },
    /// The backend's circuit size.
    CircuitSize { size: u32 },
    /// Where the emitted contract was written.
    ContractLocation { path: String },
}

/// How a command ended.
pub enum Outcome {
    Success { report: Report },
    Failure { error: CliError },
}

/// The next outside step the runner must perform.
pub enum Action {
    /// Read the CRS cache file; absence is not an error.
    ReadCrsCache,
    /// Read and deserialize the circuit's build artifact at `path`.
    ReadProgram { path: String },
    /// Refresh the CRS through the backend capability `action` picks,
    /// handing it the existing bytes on an update.
    RefreshCrs { existing: Vec<u8>, action: CrsAction },
    /// Overwrite the CRS cache file with `bytes`, creating its directory
    /// first.
    WriteCrsCache { bytes: Vec<u8> },
    /// Read and parse the input configuration file at `path`.
    ReadInputsFile { path: String },
    /// Encode `inputs` against the schema and solve the witness.
    SolveWitness { inputs: InputMap },
    /// Decode the public inputs out of the solved witness.
    DecodePublic,
    /// Serialize `inputs` and write them to `path`.
    WriteInputsFile { path: String, inputs: InputMap },
    /// Prove against the solved witness with this CRS and proving key.
    ComputeProof { crs: Vec<u8>, proving_key: Vec<u8> },
    /// Write the hex-encoded proof to `path`, creating its directory first.
    WriteProofFile { path: String, hex: String },
    /// Encode `inputs` and `return_value` as the verifier's public inputs.
    EncodePublic { inputs: InputMap, return_value: Option<InputValue> },
    /// Read the proof file at `path`.
    ReadProofFile { path: String },
    /// Verify `proof` against the encoded public inputs with this CRS and
    /// verification key.
    VerifyProof { crs: Vec<u8>, proof: Vec<u8>, verification_key: Vec<u8> },
    /// Emit the verifier contract with this CRS and verification key.
    EmitContract { crs: Vec<u8>, verification_key: Vec<u8> },
    /// Write the emitted contract text to `path`, creating its directory
    /// first.
    WriteContractFile { path: String, contract: String },
    /// Ask the backend for the circuit's size.
    ComputeCircuitSize,
    /// The command is over; report or fail as `outcome` says.
    Stop { outcome: Outcome },
}

} // verus!
