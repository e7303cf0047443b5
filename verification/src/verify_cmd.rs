//! The verify command: refresh and persist the CRS, read the verifier's
//! public inputs, read and decode the stored proof, and ask the backend for
//! its verdict.
//!
//! A verdict of `false` is not a crash: it ends the command with a distinct
//! invalid-proof error naming the proof file. Backend errors are passed
//! through; a missing artifact or input file fails with the exact path that
//! was expected.
use vstd::prelude::*;

use crate::abi::public_is_empty_spec;
use crate::abi::PreprocessedProgram;
use crate::crs::read_cached_common_reference_string;
use crate::crs::update_common_reference_string;
use crate::errors::CliError;
use crate::errors::FilesystemError;
use crate::hexcodec::hex_decode;
use crate::hexcodec::hex_decoded;
use crate::hexcodec::is_hex_digit;
use crate::inputs::split_return_spec;
use crate::inputs::InputMap;
use crate::paths::circuit_build_path;
use crate::paths::circuit_build_path_spec;
use crate::paths::clone_bytes;
use crate::paths::clone_string;
use crate::paths::inputs_file_path;
use crate::paths::inputs_file_path_spec;
use crate::paths::proof_file_path;
use crate::paths::proof_file_path_spec;
use crate::session::Action;
use crate::session::Event;
use crate::session::InputsFileOutcome;
use crate::session::Outcome;
use crate::session::Report;

verus! {

/// Where the verify command stands, with the values later steps need.
pub enum VerifyPhase {
    /// The CRS cache is being read.
    AwaitCrs,
    /// The build artifact is being read; `existing` is the cached CRS.
    AwaitProgram { existing: Vec<u8> },
    /// The backend is refreshing the CRS.
    AwaitRefresh { program: PreprocessedProgram },
    /// The refreshed CRS is being written back.
    AwaitCrsWrite { program: PreprocessedProgram, crs: Vec<u8> },
    /// The verifier's input file at `path` is being read.
    AwaitInputs { crs: Vec<u8>, verification_key: Vec<u8>, path: String },
    /// The public inputs are being encoded for the backend.
    AwaitEncode { crs: Vec<u8>, verification_key: Vec<u8> },
    /// The proof file is being read.
    AwaitProofFile { crs: Vec<u8>, verification_key: Vec<u8> },
    /// The backend is verifying.
    AwaitVerdict,
    Finished,
}

/// The verify command's state.
pub struct VerifySession {
    pub program_dir: String,
    /// The build artifact's path, derived once at the start.
    pub circuit_path: String,
    /// The stored proof's path, derived once at the start.
    pub proof_path: String,
    /// The name of the verifier's input file, without its extension.
    pub verifier_name: String,
    pub phase: VerifyPhase,
}

/// Which event answers the pending action of the verify command.
pub open spec fn verify_expects(s: &VerifySession, e: &Event) -> bool {
    match s.phase {
        VerifyPhase::AwaitCrs => e is CrsRead,
        VerifyPhase::AwaitProgram { .. } => e is ProgramRead,
        VerifyPhase::AwaitRefresh { .. } => e is CrsRefreshed,
        VerifyPhase::AwaitCrsWrite { .. } => e is Written,
        VerifyPhase::AwaitInputs { .. } => e is InputsRead,
        VerifyPhase::AwaitEncode { .. } => e is PublicEncoded,
        VerifyPhase::AwaitProofFile { .. } => e is ProofFileRead,
        VerifyPhase::AwaitVerdict => e is VerifyFinished,
        VerifyPhase::Finished => false,
    }
}

impl VerifySession {
    /// Begins the command: derives the artifact and proof paths and asks
    /// for the cached CRS.
    pub fn start(proof_name: &str, circuit_name: &str, verifier_name: String, program_dir: &str)
        -> (r: (VerifySession, Action))
        ensures
            r.0.program_dir@ == program_dir@,
            r.0.circuit_path@ == circuit_build_path_spec(program_dir@, circuit_name@),
            r.0.proof_path@ == proof_file_path_spec(program_dir@, proof_name@),
            r.0.verifier_name@ == verifier_name@,
            r.0.phase is AwaitCrs,
            r.1 is ReadCrsCache,
    {
        let session = VerifySession {
            program_dir: String::from_str(program_dir),
            circuit_path: circuit_build_path(program_dir, circuit_name),
            proof_path: proof_file_path(program_dir, proof_name),
            verifier_name,
            phase: VerifyPhase::AwaitCrs,
        };
        (session, Action::ReadCrsCache)
    }

    /// Advances on one event: the original command's fixed sequence. The
    /// refreshed CRS is persisted before anything later can fail; an empty
    /// public schema skips the input file entirely; the stored proof is
    /// decoded from hex before the backend sees it; and a `false` verdict
    /// fails with the invalid-proof error naming the proof file.
    pub fn step(self, event: Event) -> (r: (VerifySession, Action))
        requires
            verify_expects(&self, &event),
        ensures
            r.0.program_dir@ == self.program_dir@,
            r.0.circuit_path@ == self.circuit_path@,
            r.0.proof_path@ == self.proof_path@,
            r.0.verifier_name@ == self.verifier_name@,
            ({
                match (self.phase, event) {
                    (VerifyPhase::AwaitCrs, Event::CrsRead { bytes }) => {
                        let existing = match bytes {
                            Some(b) => b@,
                            None => Seq::<u8>::empty(),
                        };
                        &&& r.0.phase matches VerifyPhase::AwaitProgram { existing: e2 } && e2@
                            == existing
                        &&& r.1 matches Action::ReadProgram { path } && path@
                            == self.circuit_path@
                    },
                    (
                        VerifyPhase::AwaitProgram { existing },
                        Event::ProgramRead { program: Some(p) },
                    ) => {
                        &&& r.0.phase matches VerifyPhase::AwaitRefresh { program } && program@
                            == p@
                        &&& r.1 matches Action::RefreshCrs { existing: e2, action } && e2@
                            == existing@ && (action is Generate <==> existing@.len() == 0)
                    },
                    (VerifyPhase::AwaitProgram { existing }, Event::ProgramRead { program: None }) => {
                        &&& r.0.phase is Finished
                        &&& r.1 matches Action::Stop {
                            outcome: Outcome::Failure {
                                error: CliError::FilesystemError {
                                    error: FilesystemError::PathNotValid { path },
                                },
                            },
                        } && path@ == self.circuit_path@
                    },
                    (
                        VerifyPhase::AwaitRefresh { program },
                        Event::CrsRefreshed { result: Ok(crs) },
                    ) => {
                        &&& r.0.phase matches VerifyPhase::AwaitCrsWrite { program: p2, crs: c2 }
                            && p2@ == program@ && c2@ == crs@
                        &&& r.1 matches Action::WriteCrsCache { bytes } && bytes@ == crs@
                    },
                    (
                        VerifyPhase::AwaitRefresh { program },
                        Event::CrsRefreshed { result: Err(m) },
                    ) => {
                        &&& r.0.phase is Finished
                        &&& r.1 matches Action::Stop {
                            outcome: Outcome::Failure {
                                error: CliError::CommonReferenceStringError { message },
                            },
                        } && message@ == m@
                    },
                    (VerifyPhase::AwaitCrsWrite { program, crs }, Event::Written) => {
                        if public_is_empty_spec(program.abi@) {
                            &&& r.0.phase matches VerifyPhase::AwaitEncode {
                                crs: c2,
                                verification_key: vk,
                            } && c2@ == crs@ && vk@ == program.verification_key@
                            &&& r.1 matches Action::EncodePublic { inputs, return_value } && inputs@
                                == Seq::<(Seq<char>, Seq<char>)>::empty() && return_value is None
                        } else {
                            &&& r.0.phase matches VerifyPhase::AwaitInputs {
                                crs: c2,
                                verification_key: vk,
                                path,
                            } && c2@ == crs@ && vk@ == program.verification_key@ && path@
                                == inputs_file_path_spec(self.program_dir@, self.verifier_name@)
                            &&& r.1 matches Action::ReadInputsFile { path: p2 } && p2@
                                == inputs_file_path_spec(self.program_dir@, self.verifier_name@)
                        }
                    },
                    (
                        VerifyPhase::AwaitInputs { crs, verification_key, path },
                        Event::InputsRead { outcome },
                    ) => {
                        match outcome {
                            InputsFileOutcome::Missing => {
                                &&& r.0.phase is Finished
                                &&& r.1 matches Action::Stop {
                                    outcome: Outcome::Failure {
                                        error: CliError::FilesystemError {
                                            error: FilesystemError::MissingTomlFile {
                                                file_name,
                                                path: p2,
                                            },
                                        },
                                    },
                                } && file_name@ == self.verifier_name@ && p2@ == path@
                            },
                            InputsFileOutcome::ParseError { message } => {
                                &&& r.0.phase is Finished
                                &&& r.1 matches Action::Stop {
                                    outcome: Outcome::Failure {
                                        error: CliError::FilesystemError {
                                            error: FilesystemError::InputParser { message: m2 },
                                        },
                                    },
                                } && m2@ == message@
                            },
                            InputsFileOutcome::Parsed { inputs } => {
                                &&& r.0.phase matches VerifyPhase::AwaitEncode {
                                    crs: c2,
                                    verification_key: vk,
                                } && c2@ == crs@ && vk@ == verification_key@
                                &&& r.1 matches Action::EncodePublic {
                                    inputs: m2,
                                    return_value,
                                } && m2@ == split_return_spec(inputs@).0 && (match return_value {
                                    Some(v) => split_return_spec(inputs@).1 == Some(v@),
                                    None => split_return_spec(inputs@).1 is None,
                                })
                            },
                        }
                    },
                    (
                        VerifyPhase::AwaitEncode { crs, verification_key },
                        Event::PublicEncoded { result: Ok(_) },
                    ) => {
                        &&& r.0.phase matches VerifyPhase::AwaitProofFile {
                            crs: c2,
                            verification_key: vk,
                        } && c2@ == crs@ && vk@ == verification_key@
                        &&& r.1 matches Action::ReadProofFile { path } && path@
                            == self.proof_path@
                    },
                    (
                        VerifyPhase::AwaitEncode { crs, verification_key },
                        Event::PublicEncoded { result: Err(m) },
                    ) => {
                        &&& r.0.phase is Finished
                        &&& r.1 matches Action::Stop {
                            outcome: Outcome::Failure { error: CliError::AbiError { message } },
                        } && message@ == m@
                    },
                    (
                        VerifyPhase::AwaitProofFile { crs, verification_key },
                        Event::ProofFileRead { bytes: Some(data) },
                    ) => {
                        if data@.len() % 2 == 0 && (forall|i: int|
                            0 <= i < data@.len() ==> is_hex_digit(data@[i])) {
                            &&& r.0.phase is AwaitVerdict
                            &&& r.1 matches Action::VerifyProof {
                                crs: c2,
                                proof,
                                verification_key: vk,
                            } && c2@ == crs@ && proof@ == hex_decoded(data@) && vk@
                                == verification_key@
                        } else {
                            &&& r.0.phase is Finished
                            &&& r.1 matches Action::Stop {
                                outcome: Outcome::Failure {
                                    error: CliError::FilesystemError {
                                        error: FilesystemError::HexArtifactNotValid { .. },
                                    },
                                },
                            }
                        }
                    },
                    (
                        VerifyPhase::AwaitProofFile { crs, verification_key },
                        Event::ProofFileRead { bytes: None },
                    ) => {
                        &&& r.0.phase is Finished
                        &&& r.1 matches Action::Stop {
                            outcome: Outcome::Failure {
                                error: CliError::FilesystemError {
                                    error: FilesystemError::PathNotValid { path },
                                },
                            },
                        } && path@ == self.proof_path@
                    },
                    (VerifyPhase::AwaitVerdict, Event::VerifyFinished { result: Ok(valid) }) => {
                        if valid {
                            &&& r.0.phase is Finished
                            &&& r.1 matches Action::Stop {
                                outcome: Outcome::Success { report: Report::Quiet },
                            }
                        } else {
                            &&& r.0.phase is Finished
                            &&& r.1 matches Action::Stop {
                                outcome: Outcome::Failure {
                                    error: CliError::InvalidProof { proof_path },
                                },
                            } && proof_path@ == self.proof_path@
                        }
                    },
                    (VerifyPhase::AwaitVerdict, Event::VerifyFinished { result: Err(m) }) => {
                        &&& r.0.phase is Finished
                        &&& r.1 matches Action::Stop {
                            outcome: Outcome::Failure {
                                error: CliError::ProofSystemCompilerError { message },
                            },
                        } && message@ == m@
                    },
                    _ => true,
                }
            }),
    {
        let VerifySession { program_dir, circuit_path, proof_path, verifier_name, phase } = self;
        match (phase, event) {
            (VerifyPhase::AwaitCrs, Event::CrsRead { bytes }) => {
                let existing = read_cached_common_reference_string(bytes);
                let path = clone_string(&circuit_path);
                (
                    VerifySession {
                        program_dir,
                        circuit_path,
                        proof_path,
                        verifier_name,
                        phase: VerifyPhase::AwaitProgram { existing },
                    },
                    Action::ReadProgram { path },
                )
            },
            (VerifyPhase::AwaitProgram { existing }, Event::ProgramRead { program }) => {
                match program {
                    Some(p) => {
                        let action = update_common_reference_string(&existing);
                        (
                            VerifySession {
                                program_dir,
                                circuit_path,
                                proof_path,
                                verifier_name,
                                phase: VerifyPhase::AwaitRefresh { program: p },
                            },
                            Action::RefreshCrs { existing, action },
                        )
                    },
                    None => {
                        let path = clone_string(&circuit_path);
                        (
                            VerifySession {
                                program_dir,
                                circuit_path,
                                proof_path,
                                verifier_name,
                                phase: VerifyPhase::Finished,
                            },
                            Action::Stop {
                                outcome: Outcome::Failure {
                                    error: CliError::FilesystemError {
                                        error: FilesystemError::PathNotValid { path },
                                    },
                                },
                            },
                        )
                    },
                }
            },
            (VerifyPhase::AwaitRefresh { program }, Event::CrsRefreshed { result }) => {
                match result {
                    Ok(crs) => {
                        let for_cache = clone_bytes(&crs);
                        (
                            VerifySession {
                                program_dir,
                                circuit_path,
                                proof_path,
                                verifier_name,
                                phase: VerifyPhase::AwaitCrsWrite { program, crs },
                            },
                            Action::WriteCrsCache { bytes: for_cache },
                        )
                    },
                    Err(message) => (
                        VerifySession {
                            program_dir,
                            circuit_path,
                            proof_path,
                            verifier_name,
                            phase: VerifyPhase::Finished,
                        },
                        Action::Stop {
                            outcome: Outcome::Failure {
                                error: CliError::CommonReferenceStringError { message },
                            },
                        },
                    ),
                }
            },
            (VerifyPhase::AwaitCrsWrite { program, crs }, Event::Written) => {
                let PreprocessedProgram { abi, proving_key: _, verification_key } = program;
                let public = abi.public_abi();
                if public.is_empty() {
                    (
                        VerifySession {
                            program_dir,
                            circuit_path,
                            proof_path,
                            verifier_name,
                            phase: VerifyPhase::AwaitEncode { crs, verification_key },
                        },
                        Action::EncodePublic { inputs: InputMap::new(), return_value: None },
                    )
                } else {
                    let path = inputs_file_path(program_dir.as_str(), verifier_name.as_str());
                    let path_kept = clone_string(&path);
                    (
                        VerifySession {
                            program_dir,
                            circuit_path,
                            proof_path,
                            verifier_name,
                            phase: VerifyPhase::AwaitInputs {
                                crs,
                                verification_key,
                                path: path_kept,
                            },
                        },
                        Action::ReadInputsFile { path },
                    )
                }
            },
            (
                VerifyPhase::AwaitInputs { crs, verification_key, path },
                Event::InputsRead { outcome },
            ) => {
                match outcome {
                    InputsFileOutcome::Missing => {
                        let file_name = clone_string(&verifier_name);
                        (
                            VerifySession {
                                program_dir,
                                circuit_path,
                                proof_path,
                                verifier_name,
                                phase: VerifyPhase::Finished,
                            },
                            Action::Stop {
                                outcome: Outcome::Failure {
                                    error: CliError::FilesystemError {
                                        error: FilesystemError::MissingTomlFile {
                                            file_name,
                                            path,
                                        },
                                    },
                                },
                            },
                        )
                    },
                    InputsFileOutcome::ParseError { message } => (
                        VerifySession {
                            program_dir,
                            circuit_path,
                            proof_path,
                            verifier_name,
                            phase: VerifyPhase::Finished,
                        },
                        Action::Stop {
                            outcome: Outcome::Failure {
                                error: CliError::FilesystemError {
                                    error: FilesystemError::InputParser { message },
                                },
                            },
                        },
                    ),
                    InputsFileOutcome::Parsed { inputs } => {
                        let (public_inputs, return_value) = inputs.split_return();
                        (
                            VerifySession {
                                program_dir,
                                circuit_path,
                                proof_path,
                                verifier_name,
                                phase: VerifyPhase::AwaitEncode { crs, verification_key },
                            },
                            Action::EncodePublic { inputs: public_inputs, return_value },
                        )
                    },
                }
            },
            (VerifyPhase::AwaitEncode { crs, verification_key }, Event::PublicEncoded { result }) => {
                match result {
                    Ok(_) => {
                        let path = clone_string(&proof_path);
                        (
                            VerifySession {
                                program_dir,
                                circuit_path,
                                proof_path,
                                verifier_name,
                                phase: VerifyPhase::AwaitProofFile { crs, verification_key },
                            },
                            Action::ReadProofFile { path },
                        )
                    },
                    Err(message) => (
                        VerifySession {
                            program_dir,
                            circuit_path,
                            proof_path,
                            verifier_name,
                            phase: VerifyPhase::Finished,
                        },
                        Action::Stop {
                            outcome: Outcome::Failure { error: CliError::AbiError { message } },
                        },
                    ),
                }
            },
            (
                VerifyPhase::AwaitProofFile { crs, verification_key },
                Event::ProofFileRead { bytes },
            ) => {
                match bytes {
                    Some(data) => {
                        match hex_decode(&data) {
                            Ok(proof) => (
                                VerifySession {
                                    program_dir,
                                    circuit_path,
                                    proof_path,
                                    verifier_name,
                                    phase: VerifyPhase::AwaitVerdict,
                                },
                                Action::VerifyProof { crs, proof, verification_key },
                            ),
                            Err(error) => (
                                VerifySession {
                                    program_dir,
                                    circuit_path,
                                    proof_path,
                                    verifier_name,
                                    phase: VerifyPhase::Finished,
                                },
                                Action::Stop {
                                    outcome: Outcome::Failure {
                                        error: CliError::FilesystemError {
                                            error: FilesystemError::HexArtifactNotValid { error },
                                        },
                                    },
                                },
                            ),
                        }
                    },
                    None => {
                        let path = clone_string(&proof_path);
                        (
                            VerifySession {
                                program_dir,
                                circuit_path,
                                proof_path,
                                verifier_name,
                                phase: VerifyPhase::Finished,
                            },
                            Action::Stop {
                                outcome: Outcome::Failure {
                                    error: CliError::FilesystemError {
                                        error: FilesystemError::PathNotValid { path },
                                    },
                                },
                            },
                        )
                    },
                }
            },
            (VerifyPhase::AwaitVerdict, Event::VerifyFinished { result }) => {
                match result {
                    Ok(valid) => {
                        if valid {
                            (
                                VerifySession {
                                    program_dir,
                                    circuit_path,
                                    proof_path,
                                    verifier_name,
                                    phase: VerifyPhase::Finished,
                                },
                                Action::Stop {
                                    outcome: Outcome::Success { report: Report::Quiet },
                                },
                            )
                        } else {
                            let p2 = clone_string(&proof_path);
                            (
                                VerifySession {
                                    program_dir,
                                    circuit_path,
                                    proof_path,
                                    verifier_name,
                                    phase: VerifyPhase::Finished,
                                },
                                Action::Stop {
                                    outcome: Outcome::Failure {
                                        error: CliError::InvalidProof { proof_path: p2 },
                                    },
                                },
                            )
                        }
                    },
                    Err(message) => (
                        VerifySession {
                            program_dir,
                            circuit_path,
                            proof_path,
                            verifier_name,
                            phase: VerifyPhase::Finished,
                        },
                        Action::Stop {
                            outcome: Outcome::Failure {
                                error: CliError::ProofSystemCompilerError { message },
                            },
                        },
                    ),
                }
            },
            _ => vstd::pervasive::unreached(),
        }
    }
}

} // verus!
