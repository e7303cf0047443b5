//! The contract command: refresh the CRS for the circuit, persist it, have
//! the backend emit the verifier contract, and write the contract under
//! `contract/plonk_vk.sol`.
//!
//! The refreshed CRS is persisted before the backend emits, so an emission
//! failure still leaves the refreshed CRS cached: cache reuse is
//! deliberately favoured over transactional consistency.
use vstd::prelude::*;

use crate::abi::PreprocessedProgram;
use crate::crs::read_cached_common_reference_string;
use crate::crs::update_common_reference_string;
use crate::errors::CliError;
use crate::errors::FilesystemError;
use crate::paths::circuit_build_path;
use crate::paths::circuit_build_path_spec;
use crate::paths::clone_bytes;
use crate::paths::clone_string;
use crate::paths::contract_file_path;
use crate::paths::contract_file_path_spec;
use crate::session::Action;
use crate::session::Event;
use crate::session::Outcome;
use crate::session::Report;

verus! {

/// Where the contract command stands, with the values later steps need.
pub enum ContractPhase {
    /// The CRS cache is being read.
    AwaitCrs,
    /// The build artifact is being read; `existing` is the cached CRS.
    AwaitProgram { existing: Vec<u8> },
    /// The backend is refreshing the CRS.
    AwaitRefresh { program: PreprocessedProgram },
    /// The refreshed CRS is being written back before the backend emits.
    AwaitCrsWrite { program: PreprocessedProgram, crs: Vec<u8> },
    /// The backend is emitting the contract; the refreshed CRS is already
    /// persisted.
    AwaitEmit,
    /// The contract text is being written to `path`.
    AwaitContractWrite { path: String },
    Finished,
}

/// The contract command's state.
pub struct ContractSession {
    pub program_dir: String,
    /// The build artifact's path, derived once at the start.
    pub circuit_path: String,
    pub phase: ContractPhase,
}

/// Which event answers the pending action of the contract command.
pub open spec fn contract_expects(s: &ContractSession, e: &Event) -> bool {
    match s.phase {
        ContractPhase::AwaitCrs => e is CrsRead,
        ContractPhase::AwaitProgram { .. } => e is ProgramRead,
        ContractPhase::AwaitRefresh { .. } => e is CrsRefreshed,
        ContractPhase::AwaitCrsWrite { .. } => e is Written,
        ContractPhase::AwaitEmit => e is ContractEmitted,
        ContractPhase::AwaitContractWrite { .. } => e is Written,
        ContractPhase::Finished => false,
    }
}

impl ContractSession {
    /// Begins the command: derives the artifact path and asks for the
    /// cached CRS.
    pub fn start(circuit_name: &str, program_dir: &str) -> (r: (ContractSession, Action))
        ensures
            r.0.program_dir@ == program_dir@,
            r.0.circuit_path@ == circuit_build_path_spec(program_dir@, circuit_name@),
            r.0.phase is AwaitCrs,
            r.1 is ReadCrsCache,
    {
        let session = ContractSession {
            program_dir: String::from_str(program_dir),
            circuit_path: circuit_build_path(program_dir, circuit_name),
            phase: ContractPhase::AwaitCrs,
        };
        (session, Action::ReadCrsCache)
    }

    /// Advances on one event: refresh, persist, emit, write, in that order.
    /// A missing artifact, a backend refresh failure and a backend emission
    /// failure each end the command with its own error; by the time
    /// emission can fail, the refreshed CRS is already persisted.
    pub fn step(self, event: Event) -> (r: (ContractSession, Action))
        requires
            contract_expects(&self, &event),
        ensures
            r.0.program_dir@ == self.program_dir@,
            r.0.circuit_path@ == self.circuit_path@,
            ({
                match (self.phase, event) {
                    (ContractPhase::AwaitCrs, Event::CrsRead { bytes }) => {
                        let existing = match bytes {
                            Some(b) => b@,
                            None => Seq::<u8>::empty(),
                        };
                        &&& r.0.phase matches ContractPhase::AwaitProgram { existing: e2 } && e2@
                            == existing
                        &&& r.1 matches Action::ReadProgram { path } && path@
                            == self.circuit_path@
                    },
                    (
                        ContractPhase::AwaitProgram { existing },
                        Event::ProgramRead { program: Some(p) },
                    ) => {
                        &&& r.0.phase matches ContractPhase::AwaitRefresh { program } && program@
                            == p@
                        &&& r.1 matches Action::RefreshCrs { existing: e2, action } && e2@
                            == existing@ && (action is Generate <==> existing@.len() == 0)
                    },
                    (ContractPhase::AwaitProgram { existing }, Event::ProgramRead { program: None }) => {
                        &&& r.0.phase is Finished
                        &&& r.1 matches Action::Stop {
                            outcome: Outcome::Failure {
                                error: CliError::FilesystemError {
                                    error: FilesystemError::PathNotValid { path },
                                },
                            },
                        } && path@ == self.circuit_path@
                    },
                    (
                        ContractPhase::AwaitRefresh { program },
                        Event::CrsRefreshed { result: Ok(crs) },
                    ) => {
                        &&& r.0.phase matches ContractPhase::AwaitCrsWrite { program: p2, crs: c2 }
                            && p2@ == program@ && c2@ == crs@
                        &&& r.1 matches Action::WriteCrsCache { bytes } && bytes@ == crs@
                    },
                    (
                        ContractPhase::AwaitRefresh { program },
                        Event::CrsRefreshed { result: Err(m) },
                    ) => {
                        &&& r.0.phase is Finished
                        &&& r.1 matches Action::Stop {
                            outcome: Outcome::Failure {
                                error: CliError::CommonReferenceStringError { message },
                            },
                        } && message@ == m@
                    },
                    (ContractPhase::AwaitCrsWrite { program, crs }, Event::Written) => {
                        &&& r.0.phase is AwaitEmit
                        &&& r.1 matches Action::EmitContract { crs: c2, verification_key } && c2@
                            == crs@ && verification_key@ == program.verification_key@
                    },
                    (ContractPhase::AwaitEmit, Event::ContractEmitted { result: Ok(text) }) => {
                        &&& r.0.phase matches ContractPhase::AwaitContractWrite { path } && path@
                            == contract_file_path_spec(self.program_dir@)
                        &&& r.1 matches Action::WriteContractFile { path: p2, contract } && p2@
                            == contract_file_path_spec(self.program_dir@) && contract@ == text@
                    },
                    (ContractPhase::AwaitEmit, Event::ContractEmitted { result: Err(m) }) => {
                        &&& r.0.phase is Finished
                        &&& r.1 matches Action::Stop {
                            outcome: Outcome::Failure {
                                error: CliError::SmartContractError { message },
                            },
                        } && message@ == m@
                    },
                    (ContractPhase::AwaitContractWrite { path }, Event::Written) => {
                        &&& r.0.phase is Finished
                        &&& r.1 matches Action::Stop {
                            outcome: Outcome::Success {
                                report: Report::ContractLocation { path: p2 },
                            },
                        } && p2@ == path@
                    },
                    _ => true,
                }
            }),
    {
        let ContractSession { program_dir, circuit_path, phase } = self;
        match (phase, event) {
            (ContractPhase::AwaitCrs, Event::CrsRead { bytes }) => {
                let existing = read_cached_common_reference_string(bytes);
                let path = clone_string(&circuit_path);
                (
                    ContractSession {
                        program_dir,
                        circuit_path,
                        phase: ContractPhase::AwaitProgram { existing },
                    },
                    Action::ReadProgram { path },
                )
            },
            (ContractPhase::AwaitProgram { existing }, Event::ProgramRead { program }) => {
                match program {
                    Some(p) => {
                        let action = update_common_reference_string(&existing);
                        (
                            ContractSession {
                                program_dir,
                                circuit_path,
                                phase: ContractPhase::AwaitRefresh { program: p },
                            },
                            Action::RefreshCrs { existing, action },
                        )
                    },
                    None => {
                        let path = clone_string(&circuit_path);
                        (
                            ContractSession {
                                program_dir,
                                circuit_path,
                                phase: ContractPhase::Finished,
                            },
                            Action::Stop {
                                outcome: Outcome::Failure {
                                    error: CliError::FilesystemError {
                                        error: FilesystemError::PathNotValid { path },
                                    },
                                },
                            },
                        )
                    },
                }
            },
            (ContractPhase::AwaitRefresh { program }, Event::CrsRefreshed { result }) => {
                match result {
                    Ok(crs) => {
                        let for_cache = clone_bytes(&crs);
                        (
                            ContractSession {
                                program_dir,
                                circuit_path,
                                phase: ContractPhase::AwaitCrsWrite { program, crs },
                            },
                            Action::WriteCrsCache { bytes: for_cache },
                        )
                    },
                    Err(message) => (
                        ContractSession {
                            program_dir,
                            circuit_path,
                            phase: ContractPhase::Finished,
                        },
                        Action::Stop {
                            outcome: Outcome::Failure {
                                error: CliError::CommonReferenceStringError { message },
                            },
                        },
                    ),
                }
            },
            (ContractPhase::AwaitCrsWrite { program, crs }, Event::Written) => (
                ContractSession { program_dir, circuit_path, phase: ContractPhase::AwaitEmit },
                Action::EmitContract { crs, verification_key: program.verification_key },
            ),
            (ContractPhase::AwaitEmit, Event::ContractEmitted { result }) => {
                match result {
                    Ok(contract) => {
                        let path = contract_file_path(program_dir.as_str());
                        let path_kept = clone_string(&path);
                        (
                            ContractSession {
                                program_dir,
                                circuit_path,
                                phase: ContractPhase::AwaitContractWrite { path: path_kept },
                            },
                            Action::WriteContractFile { path, contract },
                        )
                    },
                    Err(message) => (
                        ContractSession {
                            program_dir,
                            circuit_path,
                            phase: ContractPhase::Finished,
                        },
                        Action::Stop {
                            outcome: Outcome::Failure {
                                error: CliError::SmartContractError { message },
                            },
                        },
                    ),
                }
            },
            (ContractPhase::AwaitContractWrite { path }, Event::Written) => (
                ContractSession { program_dir, circuit_path, phase: ContractPhase::Finished },
                Action::Stop {
                    outcome: Outcome::Success { report: Report::ContractLocation { path } },
                },
            ),
            _ => vstd::pervasive::unreached(),
        }
    }
}

} // verus!
