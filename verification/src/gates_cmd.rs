//! The gates command: load the circuit's build artifact, ask the
//! backend for its exact circuit size, and report it.
use vstd::prelude::*;

use crate::errors::CliError;
use crate::errors::FilesystemError;
use crate::paths::circuit_build_path;
use crate::paths::circuit_build_path_spec;
use crate::paths::clone_string;
use crate::session::Action;
use crate::session::Event;
use crate::session::Outcome;
use crate::session::Report;

verus! {

/// Where the gates command stands.
pub enum GatesPhase {
    /// The build artifact is being read.
    AwaitProgram,
    /// The backend is computing the circuit size.
    AwaitSize,
    Finished,
}

/// The gates command state.
pub struct GatesSession {
    /// The build artifact's path, derived once at the start.
    pub circuit_path: String,
    pub phase: GatesPhase,
}

/// Which event answers the pending action of the gates command.
pub open spec fn gates_expects(s: &GatesSession, e: &Event) -> bool {
    match s.phase {
        GatesPhase::AwaitProgram => e is ProgramRead,
        GatesPhase::AwaitSize => e is SizeComputed,
        GatesPhase::Finished => false,
    }
}

impl GatesSession {
    /// Begins the command: derives the artifact path and asks for the
    /// artifact.
    pub fn start(circuit_name: &str, program_dir: &str) -> (r: (GatesSession, Action))
        ensures
            r.0.circuit_path@ == circuit_build_path_spec(program_dir@, circuit_name@),
            r.0.phase is AwaitProgram,
            r.1 matches Action::ReadProgram { path } && path@ == circuit_build_path_spec(
                program_dir@,
                circuit_name@,
            ),
    {
        let path = circuit_build_path(program_dir, circuit_name);
        let session = GatesSession { circuit_path: clone_string(&path), phase: GatesPhase::AwaitProgram };
        (session, Action::ReadProgram { path })
    }

    /// Advances on one event. A missing artifact fails with a filesystem
    /// error naming the expected path; a backend failure is passed through;
    /// a computed size is reported.
    pub fn step(self, event: Event) -> (r: (GatesSession, Action))
        requires
            gates_expects(&self, &event),
        ensures
            r.0.circuit_path@ == self.circuit_path@,
            self.phase is AwaitProgram ==> match event {
                Event::ProgramRead { program: Some(_) } => r.0.phase is AwaitSize && r.1
                    is ComputeCircuitSize,
                Event::ProgramRead { program: None } => r.0.phase is Finished && (r.1 matches
                    Action::Stop {
                        outcome: Outcome::Failure {
                            error: CliError::FilesystemError {
                                error: FilesystemError::PathNotValid { path },
                            },
                        },
                    } && path@ == self.circuit_path@),
                _ => false,
            },
            self.phase is AwaitSize ==> match event {
                Event::SizeComputed { result: Ok(n) } => r.0.phase is Finished && (r.1 matches
                    Action::Stop {
                        outcome: Outcome::Success { report: Report::CircuitSize { size } },
                    } && size == n),
                Event::SizeComputed { result: Err(m) } => r.0.phase is Finished && (r.1 matches
                    Action::Stop {
                        outcome: Outcome::Failure {
                            error: CliError::ProofSystemCompilerError { message },
                        },
                    } && message@ == m@),
                _ => false,
            },
    {
        let GatesSession { circuit_path, phase } = self;
        match (phase, event) {
            (GatesPhase::AwaitProgram, Event::ProgramRead { program }) => {
                match program {
                    Some(_program) => (
                        GatesSession { circuit_path, phase: GatesPhase::AwaitSize },
                        Action::ComputeCircuitSize,
                    ),
                    None => {
                        let path = clone_string(&circuit_path);
                        (
                            GatesSession { circuit_path, phase: GatesPhase::Finished },
                            Action::Stop {
                                outcome: Outcome::Failure {
                                    error: CliError::FilesystemError {
                                        error: FilesystemError::PathNotValid { path },
                                    },
                                },
                            },
                        )
                    },
                }
            },
            (GatesPhase::AwaitSize, Event::SizeComputed { result }) => {
                match result {
                    Ok(size) => (
                        GatesSession { circuit_path, phase: GatesPhase::Finished },
                        Action::Stop {
                            outcome: Outcome::Success { report: Report::CircuitSize { size } },
                        },
                    ),
                    Err(message) => (
                        GatesSession { circuit_path, phase: GatesPhase::Finished },
                        Action::Stop {
                            outcome: Outcome::Failure {
                                error: CliError::ProofSystemCompilerError { message },
                            },
                        },
                    ),
                }
            },
            _ => vstd::pervasive::unreached(),
        }
    }
}

} // verus!
