//! The prove command: refresh and persist the CRS, read the prover's
//! inputs, solve the witness, write the public inputs back for the verifier
//! with the return value merged in, prove, and persist or print the proof.
//!
//! The refreshed CRS is persisted before anything later can fail: cache
//! reuse is deliberately favoured over transactional consistency. An empty
//! schema needs no input file; with a proof name the proof is written hex
//! encoded under `proofs/`, without one its hex is reported instead.
use vstd::prelude::*;

use crate::abi::PreprocessedProgram;
use crate::crs::read_cached_common_reference_string;
use crate::crs::update_common_reference_string;
use crate::errors::CliError;
use crate::errors::FilesystemError;
use crate::hexcodec::hex_encode;
use crate::hexcodec::hex_of;
use crate::inputs::merge_return_spec;
use crate::inputs::split_return_spec;
use crate::inputs::InputMap;
use crate::paths::circuit_build_path;
use crate::paths::circuit_build_path_spec;
use crate::paths::clone_bytes;
use crate::paths::clone_string;
use crate::paths::inputs_file_path;
use crate::paths::inputs_file_path_spec;
use crate::paths::proof_file_path;
use crate::paths::proof_file_path_spec;
use crate::session::Action;
use crate::session::Event;
use crate::session::InputsFileOutcome;
use crate::session::Outcome;
use crate::session::Report;
use crate::session::SolveOutcome;

verus! {

/// Whether two optional proof names carry the same text.
pub open spec fn option_name_eq(a: Option<String>, b: Option<String>) -> bool {
    match (a, b) {
        (Some(x), Some(y)) => x@ == y@,
        (None, None) => true,
        _ => false,
    }
}

/// Where the prove command stands, with the values later steps need.
pub enum ProvePhase {
    /// The CRS cache is being read.
    AwaitCrs,
    /// The build artifact is being read; `existing` is the cached CRS.
    AwaitProgram { existing: Vec<u8> },
    /// The backend is refreshing the CRS.
    AwaitRefresh { program: PreprocessedProgram },
    /// The refreshed CRS is being written back.
    AwaitCrsWrite { program: PreprocessedProgram, crs: Vec<u8> },
    /// The prover's input file at `path` is being read.
    AwaitInputs { program: PreprocessedProgram, crs: Vec<u8>, path: String },
    /// The witness is being solved.
    AwaitWitness { program: PreprocessedProgram, crs: Vec<u8> },
    /// The public inputs are being decoded out of the solved witness.
    AwaitDecode { program: PreprocessedProgram, crs: Vec<u8> },
    /// The verifier's input file is being written.
    AwaitInputsWrite { crs: Vec<u8>, proving_key: Vec<u8> },
    /// The backend is proving.
    AwaitProof,
    /// The hex-encoded proof is being written.
    AwaitProofWrite,
    Finished,
}

/// The prove command's state.
pub struct ProveSession {
    pub program_dir: String,
    /// The proof's file name, or nothing to report the hex instead.
    pub proof_name: Option<String>,
    /// The name of the prover's input file, without its extension.
    pub prover_name: String,
    /// The name of the verifier's input file, without its extension.
    pub verifier_name: String,
    /// The build artifact's path, derived once at the start.
    pub circuit_path: String,
    pub phase: ProvePhase,
}

/// Which event answers the pending action of the prove command.
pub open spec fn prove_expects(s: &ProveSession, e: &Event) -> bool {
    match s.phase {
        ProvePhase::AwaitCrs => e is CrsRead,
        ProvePhase::AwaitProgram { .. } => e is ProgramRead,
        ProvePhase::AwaitRefresh { .. } => e is CrsRefreshed,
        ProvePhase::AwaitCrsWrite { .. } => e is Written,
        ProvePhase::AwaitInputs { .. } => e is InputsRead,
        ProvePhase::AwaitWitness { .. } => e is WitnessSolved,
        ProvePhase::AwaitDecode { .. } => e is PublicDecoded,
        ProvePhase::AwaitInputsWrite { .. } => e is InputsWritten,
        ProvePhase::AwaitProof => e is Proved,
        ProvePhase::AwaitProofWrite => e is Written,
        ProvePhase::Finished => false,
    }
}

impl ProveSession {
    /// Begins the command: derives the artifact path and asks for the
    /// cached CRS.
    pub fn start(
        proof_name: Option<String>,
        circuit_name: &str,
        prover_name: String,
        verifier_name: String,
        program_dir: &str,
    ) -> (r: (ProveSession, Action))
        ensures
            r.0.program_dir@ == program_dir@,
            option_name_eq(r.0.proof_name, proof_name),
            r.0.prover_name@ == prover_name@,
            r.0.verifier_name@ == verifier_name@,
            r.0.circuit_path@ == circuit_build_path_spec(program_dir@, circuit_name@),
            r.0.phase is AwaitCrs,
            r.1 is ReadCrsCache,
    {
        let session = ProveSession {
            program_dir: String::from_str(program_dir),
            proof_name,
            prover_name,
            verifier_name,
            circuit_path: circuit_build_path(program_dir, circuit_name),
            phase: ProvePhase::AwaitCrs,
        };
        (session, Action::ReadCrsCache)
    }

    /// Advances on one event: the original command's fixed sequence. An
    /// empty schema skips the input file; the return value decoded from the
    /// witness is merged under the reserved name into what the verifier's
    /// file receives; the proof handed back by the backend is hex encoded
    /// exactly, then written or reported.
    pub fn step(self, event: Event) -> (r: (ProveSession, Action))
        requires
            prove_expects(&self, &event),
        ensures
            r.0.program_dir@ == self.program_dir@,
            option_name_eq(r.0.proof_name, self.proof_name),
            r.0.prover_name@ == self.prover_name@,
            r.0.verifier_name@ == self.verifier_name@,
            r.0.circuit_path@ == self.circuit_path@,
            ({
                match (self.phase, event) {
                    (ProvePhase::AwaitCrs, Event::CrsRead { bytes }) => {
                        let existing = match bytes {
                            Some(b) => b@,
                            None => Seq::<u8>::empty(),
                        };
                        &&& r.0.phase matches ProvePhase::AwaitProgram { existing: e2 } && e2@
                            == existing
                        &&& r.1 matches Action::ReadProgram { path } && path@
                            == self.circuit_path@
                    },
                    (
                        ProvePhase::AwaitProgram { existing },
                        Event::ProgramRead { program: Some(p) },
                    ) => {
                        &&& r.0.phase matches ProvePhase::AwaitRefresh { program } && program@
                            == p@
                        &&& r.1 matches Action::RefreshCrs { existing: e2, action } && e2@
                            == existing@ && (action is Generate <==> existing@.len() == 0)
                    },
                    (ProvePhase::AwaitProgram { existing }, Event::ProgramRead { program: None }) => {
                        &&& r.0.phase is Finished
                        &&& r.1 matches Action::Stop {
                            outcome: Outcome::Failure {
                                error: CliError::FilesystemError {
                                    error: FilesystemError::PathNotValid { path },
                                },
                            },
                        } && path@ == self.circuit_path@
                    },
                    (
                        ProvePhase::AwaitRefresh { program },
                        Event::CrsRefreshed { result: Ok(crs) },
                    ) => {
                        &&& r.0.phase matches ProvePhase::AwaitCrsWrite { program: p2, crs: c2 }
                            && p2@ == program@ && c2@ == crs@
                        &&& r.1 matches Action::WriteCrsCache { bytes } && bytes@ == crs@
                    },
                    (
                        ProvePhase::AwaitRefresh { program },
                        Event::CrsRefreshed { result: Err(m) },
                    ) => {
                        &&& r.0.phase is Finished
                        &&& r.1 matches Action::Stop {
                            outcome: Outcome::Failure {
                                error: CliError::CommonReferenceStringError { message },
                            },
                        } && message@ == m@
                    },
                    (ProvePhase::AwaitCrsWrite { program, crs }, Event::Written) => {
                        if program.abi.spec_is_empty() {
                            &&& r.0.phase matches ProvePhase::AwaitWitness { program: p2, crs: c2 }
                                && p2@ == program@ && c2@ == crs@
                            &&& r.1 matches Action::SolveWitness { inputs } && inputs@
                                == Seq::<(Seq<char>, Seq<char>)>::empty()
                        } else {
                            &&& r.0.phase matches ProvePhase::AwaitInputs {
                                program: p2,
                                crs: c2,
                                path,
                            } && p2@ == program@ && c2@ == crs@ && path@ == inputs_file_path_spec(
                                self.program_dir@,
                                self.prover_name@,
                            )
                            &&& r.1 matches Action::ReadInputsFile { path: p3 } && p3@
                                == inputs_file_path_spec(self.program_dir@, self.prover_name@)
                        }
                    },
                    (
                        ProvePhase::AwaitInputs { program, crs, path },
                        Event::InputsRead { outcome },
                    ) => {
                        match outcome {
                            InputsFileOutcome::Missing => {
                                &&& r.0.phase is Finished
                                &&& r.1 matches Action::Stop {
                                    outcome: Outcome::Failure {
                                        error: CliError::FilesystemError {
                                            error: FilesystemError::MissingTomlFile {
                                                file_name,
                                                path: p2,
                                            },
                                        },
                                    },
                                } && file_name@ == self.prover_name@ && p2@ == path@
                            },
                            InputsFileOutcome::ParseError { message } => {
                                &&& r.0.phase is Finished
                                &&& r.1 matches Action::Stop {
                                    outcome: Outcome::Failure {
                                        error: CliError::FilesystemError {
                                            error: FilesystemError::InputParser { message: m2 },
                                        },
                                    },
                                } && m2@ == message@
                            },
                            InputsFileOutcome::Parsed { inputs } => {
                                &&& r.0.phase matches ProvePhase::AwaitWitness {
                                    program: p2,
                                    crs: c2,
                                } && p2@ == program@ && c2@ == crs@
                                &&& r.1 matches Action::SolveWitness { inputs: m2 } && m2@
                                    == split_return_spec(inputs@).0
                            },
                        }
                    },
                    (
                        ProvePhase::AwaitWitness { program, crs },
                        Event::WitnessSolved { outcome },
                    ) => {
                        match outcome {
                            SolveOutcome::Solved => {
                                &&& r.0.phase matches ProvePhase::AwaitDecode {
                                    program: p2,
                                    crs: c2,
                                } && p2@ == program@ && c2@ == crs@
                                &&& r.1 is DecodePublic
                            },
                            SolveOutcome::AbiError { message } => {
                                &&& r.0.phase is Finished
                                &&& r.1 matches Action::Stop {
                                    outcome: Outcome::Failure {
                                        error: CliError::AbiError { message: m2 },
                                    },
                                } && m2@ == message@
                            },
                            SolveOutcome::NargoError { message } => {
                                &&& r.0.phase is Finished
                                &&& r.1 matches Action::Stop {
                                    outcome: Outcome::Failure {
                                        error: CliError::NargoError { message: m2 },
                                    },
                                } && m2@ == message@
                            },
                        }
                    },
                    (
                        ProvePhase::AwaitDecode { program, crs },
                        Event::PublicDecoded { result: Ok(decoded) },
                    ) => {
                        let ret = match decoded.return_value {
                            Some(v) => Some(v@),
                            None => None,
                        };
                        &&& r.0.phase matches ProvePhase::AwaitInputsWrite {
                            crs: c2,
                            proving_key,
                        } && c2@ == crs@ && proving_key@ == program.proving_key@
                        &&& r.1 matches Action::WriteInputsFile { path, inputs } && path@
                            == inputs_file_path_spec(self.program_dir@, self.verifier_name@)
                            && inputs@ == merge_return_spec(decoded.inputs@, ret)
                    },
                    (
                        ProvePhase::AwaitDecode { program, crs },
                        Event::PublicDecoded { result: Err(m) },
                    ) => {
                        &&& r.0.phase is Finished
                        &&& r.1 matches Action::Stop {
                            outcome: Outcome::Failure { error: CliError::AbiError { message } },
                        } && message@ == m@
                    },
                    (
                        ProvePhase::AwaitInputsWrite { crs, proving_key },
                        Event::InputsWritten { result: Ok(_) },
                    ) => {
                        &&& r.0.phase is AwaitProof
                        &&& r.1 matches Action::ComputeProof { crs: c2, proving_key: k2 } && c2@
                            == crs@ && k2@ == proving_key@
                    },
                    (
                        ProvePhase::AwaitInputsWrite { crs, proving_key },
                        Event::InputsWritten { result: Err(m) },
                    ) => {
                        &&& r.0.phase is Finished
                        &&& r.1 matches Action::Stop {
                            outcome: Outcome::Failure {
                                error: CliError::FilesystemError {
                                    error: FilesystemError::InputParser { message },
                                },
                            },
                        } && message@ == m@
                    },
                    (ProvePhase::AwaitProof, Event::Proved { result: Ok(proof) }) => {
                        match self.proof_name {
                            Some(name) => {
                                &&& r.0.phase is AwaitProofWrite
                                &&& r.1 matches Action::WriteProofFile { path, hex } && path@
                                    == proof_file_path_spec(self.program_dir@, name@) && hex@
                                    == hex_of(proof@)
                            },
                            None => {
                                &&& r.0.phase is Finished
                                &&& r.1 matches Action::Stop {
                                    outcome: Outcome::Success { report: Report::ProofHex { hex } },
                                } && hex@ == hex_of(proof@)
                            },
                        }
                    },
                    (ProvePhase::AwaitProof, Event::Proved { result: Err(m) }) => {
                        &&& r.0.phase is Finished
                        &&& r.1 matches Action::Stop {
                            outcome: Outcome::Failure {
                                error: CliError::ProofSystemCompilerError { message },
                            },
                        } && message@ == m@
                    },
                    (ProvePhase::AwaitProofWrite, Event::Written) => {
                        &&& r.0.phase is Finished
                        &&& r.1 matches Action::Stop {
                            outcome: Outcome::Success { report: Report::Quiet },
                        }
                    },
                    _ => true,
                }
            }),
    {
        let ProveSession {
            program_dir,
            proof_name,
            prover_name,
            verifier_name,
            circuit_path,
            phase,
        } = self;
        match (phase, event) {
            (ProvePhase::AwaitCrs, Event::CrsRead { bytes }) => {
                let existing = read_cached_common_reference_string(bytes);
                let path = clone_string(&circuit_path);
                (
                    ProveSession {
                        program_dir,
                        proof_name,
                        prover_name,
                        verifier_name,
                        circuit_path,
                        phase: ProvePhase::AwaitProgram { existing },
                    },
                    Action::ReadProgram { path },
                )
            },
            (ProvePhase::AwaitProgram { existing }, Event::ProgramRead { program }) => {
                match program {
                    Some(p) => {
                        let action = update_common_reference_string(&existing);
                        (
                            ProveSession {
                                program_dir,
                                proof_name,
                                prover_name,
                                verifier_name,
                                circuit_path,
                                phase: ProvePhase::AwaitRefresh { program: p },
                            },
                            Action::RefreshCrs { existing, action },
                        )
                    },
                    None => {
                        let path = clone_string(&circuit_path);
                        (
                            ProveSession {
                                program_dir,
                                proof_name,
                                prover_name,
                                verifier_name,
                                circuit_path,
                                phase: ProvePhase::Finished,
                            },
                            Action::Stop {
                                outcome: Outcome::Failure {
                                    error: CliError::FilesystemError {
                                        error: FilesystemError::PathNotValid { path },
                                    },
                                },
                            },
                        )
                    },
                }
            },
            (ProvePhase::AwaitRefresh { program }, Event::CrsRefreshed { result }) => {
                match result {
                    Ok(crs) => {
                        let for_cache = clone_bytes(&crs);
                        (
                            ProveSession {
                                program_dir,
                                proof_name,
                                prover_name,
                                verifier_name,
                                circuit_path,
                                phase: ProvePhase::AwaitCrsWrite { program, crs },
                            },
                            Action::WriteCrsCache { bytes: for_cache },
                        )
                    },
                    Err(message) => (
                        ProveSession {
                            program_dir,
                            proof_name,
                            prover_name,
                            verifier_name,
                            circuit_path,
                            phase: ProvePhase::Finished,
                        },
                        Action::Stop {
                            outcome: Outcome::Failure {
                                error: CliError::CommonReferenceStringError { message },
                            },
                        },
                    ),
                }
            },
            (ProvePhase::AwaitCrsWrite { program, crs }, Event::Written) => {
                if program.abi.is_empty() {
                    (
                        ProveSession {
                            program_dir,
                            proof_name,
                            prover_name,
                            verifier_name,
                            circuit_path,
                            phase: ProvePhase::AwaitWitness { program, crs },
                        },
                        Action::SolveWitness { inputs: InputMap::new() },
                    )
                } else {
                    let path = inputs_file_path(program_dir.as_str(), prover_name.as_str());
                    let path_kept = clone_string(&path);
                    (
                        ProveSession {
                            program_dir,
                            proof_name,
                            prover_name,
                            verifier_name,
                            circuit_path,
                            phase: ProvePhase::AwaitInputs { program, crs, path: path_kept },
                        },
                        Action::ReadInputsFile { path },
                    )
                }
            },
            (ProvePhase::AwaitInputs { program, crs, path }, Event::InputsRead { outcome }) => {
                match outcome {
                    InputsFileOutcome::Missing => {
                        let file_name = clone_string(&prover_name);
                        (
                            ProveSession {
                                program_dir,
                                proof_name,
                                prover_name,
                                verifier_name,
                                circuit_path,
                                phase: ProvePhase::Finished,
                            },
                            Action::Stop {
                                outcome: Outcome::Failure {
                                    error: CliError::FilesystemError {
                                        error: FilesystemError::MissingTomlFile {
                                            file_name,
                                            path,
                                        },
                                    },
                                },
                            },
                        )
                    },
                    InputsFileOutcome::ParseError { message } => (
                        ProveSession {
                            program_dir,
                            proof_name,
                            prover_name,
                            verifier_name,
                            circuit_path,
                            phase: ProvePhase::Finished,
                        },
                        Action::Stop {
                            outcome: Outcome::Failure {
                                error: CliError::FilesystemError {
                                    error: FilesystemError::InputParser { message },
                                },
                            },
                        },
                    ),
                    InputsFileOutcome::Parsed { inputs } => {
                        let (prover_inputs, _return_value) = inputs.split_return();
                        (
                            ProveSession {
                                program_dir,
                                proof_name,
                                prover_name,
                                verifier_name,
                                circuit_path,
                                phase: ProvePhase::AwaitWitness { program, crs },
                            },
                            Action::SolveWitness { inputs: prover_inputs },
                        )
                    },
                }
            },
            (ProvePhase::AwaitWitness { program, crs }, Event::WitnessSolved { outcome }) => {
                match outcome {
                    SolveOutcome::Solved => (
                        ProveSession {
                            program_dir,
                            proof_name,
                            prover_name,
                            verifier_name,
                            circuit_path,
                            phase: ProvePhase::AwaitDecode { program, crs },
                        },
                        Action::DecodePublic,
                    ),
                    SolveOutcome::AbiError { message } => (
                        ProveSession {
                            program_dir,
                            proof_name,
                            prover_name,
                            verifier_name,
                            circuit_path,
                            phase: ProvePhase::Finished,
                        },
                        Action::Stop {
                            outcome: Outcome::Failure { error: CliError::AbiError { message } },
                        },
                    ),
                    SolveOutcome::NargoError { message } => (
                        ProveSession {
                            program_dir,
                            proof_name,
                            prover_name,
                            verifier_name,
                            circuit_path,
                            phase: ProvePhase::Finished,
                        },
                        Action::Stop {
                            outcome: Outcome::Failure { error: CliError::NargoError { message } },
                        },
                    ),
                }
            },
            (ProvePhase::AwaitDecode { program, crs }, Event::PublicDecoded { result }) => {
                match result {
                    Ok(decoded) => {
                        let merged = decoded.inputs.merge_return(&decoded.return_value);
                        let path = inputs_file_path(program_dir.as_str(), verifier_name.as_str());
                        let PreprocessedProgram { abi: _, proving_key, verification_key: _ } =
                            program;
                        (
                            ProveSession {
                                program_dir,
                                proof_name,
                                prover_name,
                                verifier_name,
                                circuit_path,
                                phase: ProvePhase::AwaitInputsWrite { crs, proving_key },
                            },
                            Action::WriteInputsFile { path, inputs: merged },
                        )
                    },
                    Err(message) => (
                        ProveSession {
                            program_dir,
                            proof_name,
                            prover_name,
                            verifier_name,
                            circuit_path,
                            phase: ProvePhase::Finished,
                        },
                        Action::Stop {
                            outcome: Outcome::Failure { error: CliError::AbiError { message } },
                        },
                    ),
                }
            },
            (ProvePhase::AwaitInputsWrite { crs, proving_key }, Event::InputsWritten { result }) => {
                match result {
                    Ok(_) => (
                        ProveSession {
                            program_dir,
                            proof_name,
                            prover_name,
                            verifier_name,
                            circuit_path,
                            phase: ProvePhase::AwaitProof,
                        },
                        Action::ComputeProof { crs, proving_key },
                    ),
                    Err(message) => (
                        ProveSession {
                            program_dir,
                            proof_name,
                            prover_name,
                            verifier_name,
                            circuit_path,
                            phase: ProvePhase::Finished,
                        },
                        Action::Stop {
                            outcome: Outcome::Failure {
                                error: CliError::FilesystemError {
                                    error: FilesystemError::InputParser { message },
                                },
                            },
                        },
                    ),
                }
            },
            (ProvePhase::AwaitProof, Event::Proved { result }) => {
                match result {
                    Ok(proof) => {
                        let hex = hex_encode(&proof);
                        match proof_name {
                            Some(name) => {
                                let path = proof_file_path(program_dir.as_str(), name.as_str());
                                (
                                    ProveSession {
                                        program_dir,
                                        proof_name: Some(name),
                                        prover_name,
                                        verifier_name,
                                        circuit_path,
                                        phase: ProvePhase::AwaitProofWrite,
                                    },
                                    Action::WriteProofFile { path, hex },
                                )
                            },
                            None => (
                                ProveSession {
                                    program_dir,
                                    proof_name: None,
                                    prover_name,
                                    verifier_name,
                                    circuit_path,
                                    phase: ProvePhase::Finished,
                                },
                                Action::Stop {
                                    outcome: Outcome::Success {
                                        report: Report::ProofHex { hex },
                                    },
                                },
                            ),
                        }
                    },
                    Err(message) => (
                        ProveSession {
                            program_dir,
                            proof_name,
                            prover_name,
                            verifier_name,
                            circuit_path,
                            phase: ProvePhase::Finished,
                        },
                        Action::Stop {
                            outcome: Outcome::Failure {
                                error: CliError::ProofSystemCompilerError { message },
                            },
                        },
                    ),
                }
            },
            (ProvePhase::AwaitProofWrite, Event::Written) => (
                ProveSession {
                    program_dir,
                    proof_name,
                    prover_name,
                    verifier_name,
                    circuit_path,
                    phase: ProvePhase::Finished,
                },
                Action::Stop { outcome: Outcome::Success { report: Report::Quiet } },
            ),
            _ => vstd::pervasive::unreached(),
        }
    }
}

} // verus!
