//! Orchestration library for a KZG/PLONK proving backend command-line front
//! end.
//!
//! The heavy cryptography (CRS generation, witness solving, proving,
//! verifying, contract emission) is an external capability, as are all file
//! reads and writes: the functions here decide what the front end does
//! around those calls, and those decisions are verified. Each command runs
//! as a small state machine (see `session`): the runner hands it the outcome
//! of one outside step at a time and gets the next step back, so every
//! routing and error decision is a verified function of plain values.
use vstd::prelude::*;

pub mod abi;
pub mod contract_cmd;
pub mod crs;
pub mod errors;
pub mod gates_cmd;
pub mod hexcodec;
pub mod inputs;
pub mod paths;
pub mod prove_cmd;
pub mod session;
pub mod verify_cmd;

use crate::contract_cmd::ContractSession;
use crate::gates_cmd::GatesSession;
use crate::paths::circuit_build_path_spec;
use crate::paths::clone_string;
use crate::paths::proof_file_path_spec;
use crate::prove_cmd::option_name_eq;
use crate::prove_cmd::ProveSession;
use crate::session::Action;
use crate::verify_cmd::VerifySession;

verus! {

/// A parsed subcommand, with the package root already resolved by the
/// caller.
pub enum Command {
    /// Prove the circuit; with a proof name the proof is persisted under
    /// `proofs/`, without one its hex is reported.
    Prove {
        proof_name: Option<String>,
        circuit_name: String,
        prover_name: String,
        verifier_name: String,
    },
    /// Verify the stored proof `proof_name` against the circuit.
    Verify { proof_name: String, circuit_name: String, verifier_name: String },
    /// Emit the verifier contract for the circuit.
    Contract { circuit_name: String },
    /// Report the backend's gate count for the circuit.
    Gates { circuit_name: String },
    /// Prove the circuit, persisting the proof under the circuit's own
    /// name, then verify that persisted proof.
    ProveAndVerify { circuit_name: String, prover_name: String, verifier_name: String },
}

/// One running command machine.
pub enum Session {
    Prove(ProveSession),
    Verify(VerifySession),
    Contract(ContractSession),
    Gates(GatesSession),
}

/// Dispatches a command: starts its machine, or for prove-and-verify the
/// two machines to run in order, each beside its first action. The runner
/// performs each machine's actions in turn and goes on to the next machine
/// only when the previous one succeeded.
pub fn start_cli(command: Command, program_dir: &str) -> (r: Vec<(Session, Action)>)
    ensures
        match command {
            Command::Prove { proof_name, circuit_name, prover_name, verifier_name } => {
                &&& r@.len() == 1
                &&& r@[0].0 matches Session::Prove(s) && {
                    &&& s.program_dir@ == program_dir@
                    &&& option_name_eq(s.proof_name, proof_name)
                    &&& s.prover_name@ == prover_name@
                    &&& s.verifier_name@ == verifier_name@
                    &&& s.circuit_path@ == circuit_build_path_spec(program_dir@, circuit_name@)
                    &&& s.phase is AwaitCrs
                }
                &&& r@[0].1 is ReadCrsCache
            },
            Command::Verify { proof_name, circuit_name, verifier_name } => {
                &&& r@.len() == 1
                &&& r@[0].0 matches Session::Verify(s) && {
                    &&& s.program_dir@ == program_dir@
                    &&& s.circuit_path@ == circuit_build_path_spec(program_dir@, circuit_name@)
                    &&& s.proof_path@ == proof_file_path_spec(program_dir@, proof_name@)
                    &&& s.verifier_name@ == verifier_name@
                    &&& s.phase is AwaitCrs
                }
                &&& r@[0].1 is ReadCrsCache
            },
            Command::Contract { circuit_name } => {
                &&& r@.len() == 1
                &&& r@[0].0 matches Session::Contract(s) && {
                    &&& s.program_dir@ == program_dir@
                    &&& s.circuit_path@ == circuit_build_path_spec(program_dir@, circuit_name@)
                    &&& s.phase is AwaitCrs
                }
                &&& r@[0].1 is ReadCrsCache
            },
            Command::Gates { circuit_name } => {
                &&& r@.len() == 1
                &&& r@[0].0 matches Session::Gates(s) && {
                    &&& s.circuit_path@ == circuit_build_path_spec(program_dir@, circuit_name@)
                    &&& s.phase is AwaitProgram
                }
                &&& r@[0].1 matches Action::ReadProgram { path } && path@
                    == circuit_build_path_spec(program_dir@, circuit_name@)
            },
            Command::ProveAndVerify { circuit_name, prover_name, verifier_name } => {
                &&& r@.len() == 2
                &&& r@[0].0 matches Session::Prove(s) && {
                    &&& s.program_dir@ == program_dir@
                    &&& s.proof_name matches Some(n) && n@ == circuit_name@
                    &&& s.prover_name@ == prover_name@
                    &&& s.verifier_name@ == verifier_name@
                    &&& s.circuit_path@ == circuit_build_path_spec(program_dir@, circuit_name@)
                    &&& s.phase is AwaitCrs
                }
                &&& r@[0].1 is ReadCrsCache
                &&& r@[1].0 matches Session::Verify(s) && {
                    &&& s.program_dir@ == program_dir@
                    &&& s.circuit_path@ == circuit_build_path_spec(program_dir@, circuit_name@)
                    &&& s.proof_path@ == proof_file_path_spec(program_dir@, circuit_name@)
                    &&& s.verifier_name@ == verifier_name@
                    &&& s.phase is AwaitCrs
                }
                &&& r@[1].1 is ReadCrsCache
            },
        },
{
    let mut r: Vec<(Session, Action)> = Vec::new();
    match command {
        Command::Prove { proof_name, circuit_name, prover_name, verifier_name } => {
            let (session, action) = ProveSession::start(
                proof_name,
                circuit_name.as_str(),
                prover_name,
                verifier_name,
                program_dir,
            );
            r.push((Session::Prove(session), action));
        },
        Command::Verify { proof_name, circuit_name, verifier_name } => {
            let (session, action) = VerifySession::start(
                proof_name.as_str(),
                circuit_name.as_str(),
                verifier_name,
                program_dir,
            );
            r.push((Session::Verify(session), action));
        },
        Command::Contract { circuit_name } => {
            let (session, action) = ContractSession::start(circuit_name.as_str(), program_dir);
            r.push((Session::Contract(session), action));
        },
        Command::Gates { circuit_name } => {
            let (session, action) = GatesSession::start(circuit_name.as_str(), program_dir);
            r.push((Session::Gates(session), action));
        },
        Command::ProveAndVerify { circuit_name, prover_name, verifier_name } => {
            let (prove_session, prove_action) = ProveSession::start(
                Some(clone_string(&circuit_name)),
                circuit_name.as_str(),
                prover_name,
                clone_string(&verifier_name),
                program_dir,
            );
            r.push((Session::Prove(prove_session), prove_action));
            let (verify_session, verify_action) = VerifySession::start(
                circuit_name.as_str(),
                circuit_name.as_str(),
                verifier_name,
                program_dir,
            );
            r.push((Session::Verify(verify_session), verify_action));
        },
    }
    r
}

} // verus!
