use halo2_cli::abi::Abi;
use halo2_cli::abi::AbiParam;
use halo2_cli::abi::PreprocessedProgram;
use halo2_cli::errors::CliError;
use halo2_cli::errors::FilesystemError;
use halo2_cli::hexcodec::HexDecodeError;
use halo2_cli::inputs::InputEntry;
use halo2_cli::inputs::InputMap;
use halo2_cli::inputs::InputValue;
use halo2_cli::crs::CrsAction;
use halo2_cli::session::Action;
use halo2_cli::session::DecodedPublic;
use halo2_cli::session::Event;
use halo2_cli::session::InputsFileOutcome;
use halo2_cli::session::Outcome;
use halo2_cli::session::Report;
use halo2_cli::session::SolveOutcome;
use halo2_cli::start_cli;
use halo2_cli::Command;
use halo2_cli::Session;

fn program(params: Vec<(&str, bool)>, has_return: bool) -> PreprocessedProgram {
    PreprocessedProgram {
        abi: Abi {
            params: params
                .into_iter()
                .map(|(n, p)| AbiParam { name: n.to_string(), is_public: p })
                .collect(),
            has_return,
        },
        proving_key: vec![10, 11],
        verification_key: vec![20, 21],
    }
}

fn entry(name: &str, text: &str) -> InputEntry {
    InputEntry {
        name: name.to_string(),
        value: InputValue { text: text.to_string() },
    }
}

fn names_of(m: &InputMap) -> Vec<String> {
    m.entries.iter().map(|e| e.name.clone()).collect()
}

fn prove_session(
    proof_name: Option<&str>,
) -> (halo2_cli::prove_cmd::ProveSession, Action) {
    let mut started = start_cli(
        Command::Prove {
            proof_name: proof_name.map(|n| n.to_string()),
            circuit_name: "main".to_string(),
            prover_name: "Prover".to_string(),
            verifier_name: "Verifier".to_string(),
        },
        "/pkg",
    );
    assert_eq!(started.len(), 1);
    match started.remove(0) {
        (Session::Prove(s), a) => (s, a),
        _ => panic!("expected a prove session"),
    }
}

fn verify_session() -> (halo2_cli::verify_cmd::VerifySession, Action) {
    let mut started = start_cli(
        Command::Verify {
            proof_name: "p1".to_string(),
            circuit_name: "main".to_string(),
            verifier_name: "Verifier".to_string(),
        },
        "/pkg",
    );
    assert_eq!(started.len(), 1);
    match started.remove(0) {
        (Session::Verify(s), a) => (s, a),
        _ => panic!("expected a verify session"),
    }
}

#[test]
fn prove_full_walk_with_named_proof() {
    let (s, a) = prove_session(Some("p1"));
    assert!(matches!(a, Action::ReadCrsCache));

    let (s, a) = s.step(Event::CrsRead { bytes: None });
    match &a {
        Action::ReadProgram { path } => assert_eq!(path, "/pkg/target/main.json"),
        _ => panic!("expected a program read"),
    }

    let p = program(vec![("x", false), ("y", true)], true);
    let (s, a) = s.step(Event::ProgramRead { program: Some(p) });
    match &a {
        Action::RefreshCrs { existing, action } => {
            assert!(existing.is_empty());
            assert!(matches!(action, CrsAction::Generate));
        }
        _ => panic!("expected a CRS refresh"),
    }

    let (s, a) = s.step(Event::CrsRefreshed { result: Ok(vec![9, 9]) });
    match &a {
        Action::WriteCrsCache { bytes } => assert_eq!(bytes, &vec![9, 9]),
        _ => panic!("expected the refreshed CRS to be persisted"),
    }

    let (s, a) = s.step(Event::Written);
    match &a {
        Action::ReadInputsFile { path } => assert_eq!(path, "/pkg/Prover.toml"),
        _ => panic!("expected the prover inputs to be read"),
    }

    let parsed = InputMap { entries: vec![entry("x", "1"), entry("y", "2")] };
    let (s, a) = s.step(Event::InputsRead {
        outcome: InputsFileOutcome::Parsed { inputs: parsed },
    });
    match &a {
        Action::SolveWitness { inputs } => assert_eq!(names_of(inputs), vec!["x", "y"]),
        _ => panic!("expected the witness to be solved"),
    }

    let (s, a) = s.step(Event::WitnessSolved { outcome: SolveOutcome::Solved });
    assert!(matches!(a, Action::DecodePublic));

    let decoded = DecodedPublic {
        inputs: InputMap { entries: vec![entry("y", "2")] },
        return_value: Some(InputValue { text: "5".to_string() }),
    };
    let (s, a) = s.step(Event::PublicDecoded { result: Ok(decoded) });
    match &a {
        Action::WriteInputsFile { path, inputs } => {
            assert_eq!(path, "/pkg/Verifier.toml");
            assert_eq!(names_of(inputs), vec!["y", "return"]);
            assert_eq!(inputs.entries[1].value.text, "5");
        }
        _ => panic!("expected the verifier inputs to be written"),
    }

    let (s, a) = s.step(Event::InputsWritten { result: Ok(()) });
    match &a {
        Action::ComputeProof { crs, proving_key } => {
            assert_eq!(crs, &vec![9, 9]);
            assert_eq!(proving_key, &vec![10, 11]);
        }
        _ => panic!("expected the proof to be computed"),
    }

    let (s, a) = s.step(Event::Proved { result: Ok(vec![0xab, 0xcd]) });
    match &a {
        Action::WriteProofFile { path, hex } => {
            assert_eq!(path, "/pkg/proofs/p1.proof");
            assert_eq!(hex, "abcd");
        }
        _ => panic!("expected the proof to be written"),
    }

    let (_s, a) = s.step(Event::Written);
    assert!(matches!(
        a,
        Action::Stop { outcome: Outcome::Success { report: Report::Quiet } }
    ));
}

#[test]
fn prove_without_name_reports_the_hex() {
    let (s, _a) = prove_session(None);
    let (s, _a) = s.step(Event::CrsRead { bytes: Some(vec![3]) });
    let (s, a) = s.step(Event::ProgramRead {
        program: Some(program(vec![], false)),
    });
    match &a {
        Action::RefreshCrs { existing, action } => {
            assert_eq!(existing, &vec![3]);
            assert!(matches!(action, CrsAction::Update));
        }
        _ => panic!("expected a CRS refresh"),
    }
    let (s, _a) = s.step(Event::CrsRefreshed { result: Ok(vec![4]) });
    let (s, a) = s.step(Event::Written);
    match &a {
        Action::SolveWitness { inputs } => assert!(inputs.entries.is_empty()),
        _ => panic!("an empty schema should solve with no inputs and no file read"),
    }
    let (s, _a) = s.step(Event::WitnessSolved { outcome: SolveOutcome::Solved });
    let decoded = DecodedPublic { inputs: InputMap::new(), return_value: None };
    let (s, _a) = s.step(Event::PublicDecoded { result: Ok(decoded) });
    let (s, _a) = s.step(Event::InputsWritten { result: Ok(()) });
    let (_s, a) = s.step(Event::Proved { result: Ok(vec![0x01, 0xff]) });
    match a {
        Action::Stop { outcome: Outcome::Success { report: Report::ProofHex { hex } } } => {
            assert_eq!(hex, "01ff");
        }
        _ => panic!("expected the proof hex to be reported"),
    }
}

#[test]
fn prove_missing_artifact_names_the_path() {
    let (s, _a) = prove_session(Some("p1"));
    let (s, _a) = s.step(Event::CrsRead { bytes: None });
    let (_s, a) = s.step(Event::ProgramRead { program: None });
    match a {
        Action::Stop {
            outcome:
                Outcome::Failure {
                    error:
                        CliError::FilesystemError {
                            error: FilesystemError::PathNotValid { path },
                        },
                },
        } => assert_eq!(path, "/pkg/target/main.json"),
        _ => panic!("expected a filesystem error naming the artifact path"),
    }
}

#[test]
fn prove_missing_inputs_names_file_and_location() {
    let (s, _a) = prove_session(Some("p1"));
    let (s, _a) = s.step(Event::CrsRead { bytes: None });
    let (s, _a) = s.step(Event::ProgramRead {
        program: Some(program(vec![("x", false)], false)),
    });
    let (s, _a) = s.step(Event::CrsRefreshed { result: Ok(vec![9]) });
    let (s, _a) = s.step(Event::Written);
    let (_s, a) = s.step(Event::InputsRead { outcome: InputsFileOutcome::Missing });
    match a {
        Action::Stop {
            outcome:
                Outcome::Failure {
                    error:
                        CliError::FilesystemError {
                            error: FilesystemError::MissingTomlFile { file_name, path },
                        },
                },
        } => {
            assert_eq!(file_name, "Prover");
            assert_eq!(path, "/pkg/Prover.toml");
        }
        _ => panic!("expected a missing-configuration error"),
    }
}

#[test]
fn verify_full_walk_and_false_verdict() {
    let (s, a) = verify_session();
    assert!(matches!(a, Action::ReadCrsCache));
    let (s, _a) = s.step(Event::CrsRead { bytes: Some(vec![9, 9]) });
    let (s, a) = s.step(Event::ProgramRead {
        program: Some(program(vec![("x", false), ("y", true)], true)),
    });
    match &a {
        Action::RefreshCrs { existing, action } => {
            assert_eq!(existing, &vec![9, 9]);
            assert!(matches!(action, CrsAction::Update));
        }
        _ => panic!("expected a CRS refresh"),
    }
    let (s, _a) = s.step(Event::CrsRefreshed { result: Ok(vec![9, 9, 1]) });
    let (s, a) = s.step(Event::Written);
    match &a {
        Action::ReadInputsFile { path } => assert_eq!(path, "/pkg/Verifier.toml"),
        _ => panic!("expected the verifier inputs to be read"),
    }
    let parsed = InputMap { entries: vec![entry("y", "2"), entry("return", "5")] };
    let (s, a) = s.step(Event::InputsRead {
        outcome: InputsFileOutcome::Parsed { inputs: parsed },
    });
    match &a {
        Action::EncodePublic { inputs, return_value } => {
            assert_eq!(names_of(inputs), vec!["y"]);
            assert_eq!(return_value.as_ref().unwrap().text, "5");
        }
        _ => panic!("expected the public inputs to be encoded"),
    }
    let (s, a) = s.step(Event::PublicEncoded { result: Ok(()) });
    match &a {
        Action::ReadProofFile { path } => assert_eq!(path, "/pkg/proofs/p1.proof"),
        _ => panic!("expected the proof file to be read"),
    }
    let (s, a) = s.step(Event::ProofFileRead { bytes: Some(b"abcd".to_vec()) });
    match &a {
        Action::VerifyProof { crs, proof, verification_key } => {
            assert_eq!(crs, &vec![9, 9, 1]);
            assert_eq!(proof, &vec![0xab, 0xcd]);
            assert_eq!(verification_key, &vec![20, 21]);
        }
        _ => panic!("expected the backend verdict to be asked"),
    }
    let (_s, a) = s.step(Event::VerifyFinished { result: Ok(false) });
    match a {
        Action::Stop {
            outcome: Outcome::Failure { error: CliError::InvalidProof { proof_path } },
        } => assert_eq!(proof_path, "/pkg/proofs/p1.proof"),
        _ => panic!("a false verdict must fail as an invalid proof, not crash"),
    }
}

#[test]
fn verify_true_verdict_succeeds_quietly() {
    let (s, _a) = verify_session();
    let (s, _a) = s.step(Event::CrsRead { bytes: Some(vec![9]) });
    let (s, _a) = s.step(Event::ProgramRead {
        program: Some(program(vec![], false)),
    });
    let (s, _a) = s.step(Event::CrsRefreshed { result: Ok(vec![9]) });
    let (s, a) = s.step(Event::Written);
    match &a {
        Action::EncodePublic { inputs, return_value } => {
            assert!(inputs.entries.is_empty());
            assert!(return_value.is_none());
        }
        _ => panic!("an empty public schema should encode an empty map with no file read"),
    }
    let (s, _a) = s.step(Event::PublicEncoded { result: Ok(()) });
    let (s, _a) = s.step(Event::ProofFileRead { bytes: Some(b"00".to_vec()) });
    let (_s, a) = s.step(Event::VerifyFinished { result: Ok(true) });
    assert!(matches!(
        a,
        Action::Stop { outcome: Outcome::Success { report: Report::Quiet } }
    ));
}

#[test]
fn verify_rejects_a_corrupt_hex_artifact() {
    let (s, _a) = verify_session();
    let (s, _a) = s.step(Event::CrsRead { bytes: Some(vec![9]) });
    let (s, _a) = s.step(Event::ProgramRead {
        program: Some(program(vec![], false)),
    });
    let (s, _a) = s.step(Event::CrsRefreshed { result: Ok(vec![9]) });
    let (s, _a) = s.step(Event::Written);
    let (s, _a) = s.step(Event::PublicEncoded { result: Ok(()) });
    let (_s, a) = s.step(Event::ProofFileRead { bytes: Some(b"abc".to_vec()) });
    match a {
        Action::Stop {
            outcome:
                Outcome::Failure {
                    error:
                        CliError::FilesystemError {
                            error: FilesystemError::HexArtifactNotValid { error },
                        },
                },
        } => assert!(matches!(error, HexDecodeError::OddLength)),
        _ => panic!("expected a hex-artifact error"),
    }
}

#[test]
fn verify_missing_proof_file_names_its_path() {
    let (s, _a) = verify_session();
    let (s, _a) = s.step(Event::CrsRead { bytes: Some(vec![9]) });
    let (s, _a) = s.step(Event::ProgramRead {
        program: Some(program(vec![], false)),
    });
    let (s, _a) = s.step(Event::CrsRefreshed { result: Ok(vec![9]) });
    let (s, _a) = s.step(Event::Written);
    let (s, _a) = s.step(Event::PublicEncoded { result: Ok(()) });
    let (_s, a) = s.step(Event::ProofFileRead { bytes: None });
    match a {
        Action::Stop {
            outcome:
                Outcome::Failure {
                    error:
                        CliError::FilesystemError {
                            error: FilesystemError::PathNotValid { path },
                        },
                },
        } => assert_eq!(path, "/pkg/proofs/p1.proof"),
        _ => panic!("expected a filesystem error naming the proof path"),
    }
}

#[test]
fn contract_full_walk() {
    let mut started = start_cli(
        Command::Contract { circuit_name: "main".to_string() },
        "/pkg",
    );
    let (s, a) = match started.remove(0) {
        (Session::Contract(s), a) => (s, a),
        _ => panic!("expected a contract session"),
    };
    assert!(matches!(a, Action::ReadCrsCache));
    let (s, _a) = s.step(Event::CrsRead { bytes: Some(vec![1]) });
    let (s, _a) = s.step(Event::ProgramRead {
        program: Some(program(vec![], false)),
    });
    let (s, a) = s.step(Event::CrsRefreshed { result: Ok(vec![1, 2]) });
    match &a {
        Action::WriteCrsCache { bytes } => assert_eq!(bytes, &vec![1, 2]),
        _ => panic!("expected the refreshed CRS to be persisted before emission"),
    }
    let (s, a) = s.step(Event::Written);
    match &a {
        Action::EmitContract { crs, verification_key } => {
            assert_eq!(crs, &vec![1, 2]);
            assert_eq!(verification_key, &vec![20, 21]);
        }
        _ => panic!("expected the contract to be emitted"),
    }
    let (s, a) = s.step(Event::ContractEmitted {
        result: Ok("contract Verifier {}".to_string()),
    });
    match &a {
        Action::WriteContractFile { path, contract } => {
            assert_eq!(path, "/pkg/contract/plonk_vk.sol");
            assert_eq!(contract, "contract Verifier {}");
        }
        _ => panic!("expected the contract to be written"),
    }
    let (_s, a) = s.step(Event::Written);
    match a {
        Action::Stop {
            outcome: Outcome::Success { report: Report::ContractLocation { path } },
        } => assert_eq!(path, "/pkg/contract/plonk_vk.sol"),
        _ => panic!("expected the contract location to be reported"),
    }
}

#[test]
fn contract_emission_failure_leaves_the_crs_persisted() {
    let mut started = start_cli(
        Command::Contract { circuit_name: "main".to_string() },
        "/pkg",
    );
    let (s, _a) = match started.remove(0) {
        (Session::Contract(s), a) => (s, a),
        _ => panic!("expected a contract session"),
    };
    let (s, _a) = s.step(Event::CrsRead { bytes: Some(vec![1]) });
    let (s, _a) = s.step(Event::ProgramRead {
        program: Some(program(vec![], false)),
    });
    let (s, a) = s.step(Event::CrsRefreshed { result: Ok(vec![1, 2]) });
    assert!(matches!(a, Action::WriteCrsCache { .. }));
    let (s, _a) = s.step(Event::Written);
    let (_s, a) = s.step(Event::ContractEmitted {
        result: Err("pairing setup failed".to_string()),
    });
    match a {
        Action::Stop {
            outcome: Outcome::Failure { error: CliError::SmartContractError { message } },
        } => assert_eq!(message, "pairing setup failed"),
        _ => panic!("expected the backend emission error, with the CRS already persisted"),
    }
}

#[test]
fn gates_full_walk() {
    let mut started = start_cli(Command::Gates { circuit_name: "main".to_string() }, "/pkg");
    let (s, a) = match started.remove(0) {
        (Session::Gates(s), a) => (s, a),
        _ => panic!("expected a gates session"),
    };
    match &a {
        Action::ReadProgram { path } => assert_eq!(path, "/pkg/target/main.json"),
        _ => panic!("expected a program read"),
    }
    let (s, a) = s.step(Event::ProgramRead {
        program: Some(program(vec![], false)),
    });
    assert!(matches!(a, Action::ComputeCircuitSize));
    let (_s, a) = s.step(Event::SizeComputed { result: Ok(4096) });
    match a {
        Action::Stop {
            outcome: Outcome::Success { report: Report::CircuitSize { size } },
        } => assert_eq!(size, 4096),
        _ => panic!("expected the circuit size to be reported"),
    }
}

#[test]
fn prove_and_verify_dispatches_both_machines() {
    let started = start_cli(
        Command::ProveAndVerify {
            circuit_name: "main".to_string(),
            prover_name: "Prover".to_string(),
            verifier_name: "Verifier".to_string(),
        },
        "/pkg",
    );
    assert_eq!(started.len(), 2);
    match &started[0].0 {
        Session::Prove(s) => {
            assert_eq!(s.proof_name.as_deref(), Some("main"));
            assert_eq!(s.circuit_path, "/pkg/target/main.json");
        }
        _ => panic!("the first machine must prove"),
    }
    match &started[1].0 {
        Session::Verify(s) => {
            assert_eq!(s.proof_path, "/pkg/proofs/main.proof");
            assert_eq!(s.circuit_path, "/pkg/target/main.json");
        }
        _ => panic!("the second machine must verify"),
    }
}

#[test]
fn prove_then_verify_round_trip_through_the_store() {
    let mut started = start_cli(
        Command::ProveAndVerify {
            circuit_name: "main".to_string(),
            prover_name: "Prover".to_string(),
            verifier_name: "Verifier".to_string(),
        },
        "/pkg",
    );
    let (verify, _) = match started.remove(1) {
        (Session::Verify(s), a) => (s, a),
        _ => panic!("the second machine must verify"),
    };
    let (prove, _) = match started.remove(0) {
        (Session::Prove(s), a) => (s, a),
        _ => panic!("the first machine must prove"),
    };

    let proof_bytes: Vec<u8> = vec![0x0f, 0xf0, 0x42];

    let (s, _a) = prove.step(Event::CrsRead { bytes: None });
    let (s, _a) = s.step(Event::ProgramRead {
        program: Some(program(vec![("y", true)], true)),
    });
    let (s, _a) = s.step(Event::CrsRefreshed { result: Ok(vec![9]) });
    let (s, _a) = s.step(Event::Written);
    let parsed = InputMap { entries: vec![entry("y", "2")] };
    let (s, _a) = s.step(Event::InputsRead {
        outcome: InputsFileOutcome::Parsed { inputs: parsed },
    });
    let (s, _a) = s.step(Event::WitnessSolved { outcome: SolveOutcome::Solved });
    let decoded = DecodedPublic {
        inputs: InputMap { entries: vec![entry("y", "2")] },
        return_value: Some(InputValue { text: "5".to_string() }),
    };
    let (s, _a) = s.step(Event::PublicDecoded { result: Ok(decoded) });
    let (s, _a) = s.step(Event::InputsWritten { result: Ok(()) });
    let (s, a) = s.step(Event::Proved { result: Ok(proof_bytes.clone()) });
    let (stored_path, stored_hex) = match a {
        Action::WriteProofFile { path, hex } => (path, hex),
        _ => panic!("expected the proof to be written"),
    };
    assert_eq!(stored_path, "/pkg/proofs/main.proof");
    let (_s, a) = s.step(Event::Written);
    assert!(matches!(
        a,
        Action::Stop { outcome: Outcome::Success { report: Report::Quiet } }
    ));

    let (s, _a) = verify.step(Event::CrsRead { bytes: Some(vec![9]) });
    let (s, _a) = s.step(Event::ProgramRead {
        program: Some(program(vec![("y", true)], true)),
    });
    let (s, _a) = s.step(Event::CrsRefreshed { result: Ok(vec![9]) });
    let (s, _a) = s.step(Event::Written);
    let written_back = InputMap { entries: vec![entry("y", "2"), entry("return", "5")] };
    let (s, _a) = s.step(Event::InputsRead {
        outcome: InputsFileOutcome::Parsed { inputs: written_back },
    });
    let (s, a) = s.step(Event::PublicEncoded { result: Ok(()) });
    match &a {
        Action::ReadProofFile { path } => assert_eq!(path, &stored_path),
        _ => panic!("expected the stored proof to be read back"),
    }
    let (s, a) = s.step(Event::ProofFileRead { bytes: Some(stored_hex.into_bytes()) });
    match &a {
        Action::VerifyProof { proof, .. } => assert_eq!(proof, &proof_bytes),
        _ => panic!("expected the decoded proof to reach the backend"),
    }
    let (_s, a) = s.step(Event::VerifyFinished { result: Ok(true) });
    assert!(matches!(
        a,
        Action::Stop { outcome: Outcome::Success { report: Report::Quiet } }
    ));
}

#[test]
fn backend_refresh_failure_is_passed_through() {
    let (s, _a) = prove_session(Some("p1"));
    let (s, _a) = s.step(Event::CrsRead { bytes: None });
    let (s, _a) = s.step(Event::ProgramRead {
        program: Some(program(vec![], false)),
    });
    let (_s, a) = s.step(Event::CrsRefreshed {
        result: Err("circuit too large".to_string()),
    });
    match a {
        Action::Stop {
            outcome:
                Outcome::Failure { error: CliError::CommonReferenceStringError { message } },
        } => assert_eq!(message, "circuit too large"),
        _ => panic!("expected the backend CRS error to be passed through"),
    }
}
