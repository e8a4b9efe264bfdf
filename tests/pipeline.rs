use sails_program_verifier::builder::{
    assemble_artifacts, get_project_path, locate_artifacts, BuildArtifacts, BuildError, WasmFile,
};
use sails_program_verifier::container::{
    build_env, image_ref, log_file_path, verifier_dockerfile, verifier_dockerfile_name,
};
use sails_program_verifier::error::VerifierError;
use sails_program_verifier::model::{Code, Idl, Network, Verification, VerificationStatus};
use sails_program_verifier::network_client::AppClients;
use sails_program_verifier::scheduler::{
    decide_build, onchain_failure, pending_batch_limit, BuildDecision, ClaimOutcome,
    MAX_VERIFS_IN_PROGRESS,
};
use sails_program_verifier::store::Store;
use sails_program_verifier::types::{
    codes_response, new_verification, Project, StatusResponse, VerifyRequest,
};
use sails_program_verifier::util::{generate_code_id, hash_idl};

fn request(code_id: &str) -> VerifyRequest {
    VerifyRequest {
        repo_link: "https://example/r".to_string(),
        version: "0.8.0".to_string(),
        project: None,
        base_path: None,
        network: "vara_mainnet".to_string(),
        code_id: code_id.to_string(),
        build_idl: Some(true),
    }
}

fn artifacts(code_id: &str, idl: Option<&str>) -> BuildArtifacts {
    BuildArtifacts {
        code_id: code_id.to_string(),
        idl: idl.map(|s| s.to_string()),
        name: "my".to_string(),
    }
}

fn status_of(store: &Store, id: &str) -> VerificationStatus {
    store.get_verification(id).unwrap().status
}

#[test]
fn submit_stores_pending_job() {
    let mut store = Store::new();
    let id = store.submit(request(&"aa".repeat(32)), "job000000000001".to_string(), 5).unwrap();
    assert_eq!(id, "job000000000001");
    let v = store.get_verification(&id).unwrap();
    assert_eq!(v.status, VerificationStatus::Pending);
    assert_eq!(v.code_id, "aa".repeat(32));
    assert_eq!(v.network, Network::VaraMainnet);
    assert!(v.build_idl);
    assert_eq!(v.created_at, 5);
    assert!(v.failed_reason.is_none());
}

#[test]
fn submit_rejects_bad_requests() {
    let mut store = Store::new();
    let mut r = request(&"aa".repeat(32));
    r.version = "0.1.0".to_string();
    assert_eq!(store.submit(r, "a".to_string(), 1), Err(VerifierError::UnsupportedVersion));
    let mut r = request(&"aa".repeat(32));
    r.network = "ethereum".to_string();
    assert_eq!(store.submit(r, "a".to_string(), 1), Err(VerifierError::UnsupportedNetwork));
    let r = request(&"aa".repeat(31));
    assert_eq!(store.submit(r, "a".to_string(), 1), Err(VerifierError::InvalidCodeId));
    assert!(store.get_verification("a").is_none());
    assert!(store.submit(request(&"aa".repeat(32)), "a".to_string(), 1).is_ok());
    assert_eq!(
        store.submit(request(&"bb".repeat(32)), "a".to_string(), 2),
        Err(VerifierError::DuplicateId)
    );
}

#[test]
fn intake_maps_project_and_defaults() {
    let mut r = request(&format!("0x{}", "AB".repeat(32)));
    r.project = Some(Project::Package("pkg".to_string()));
    r.build_idl = None;
    let v = new_verification(r, "x".to_string(), 9).unwrap();
    assert_eq!(v.project_name.as_deref(), Some("pkg"));
    assert_eq!(v.manifest_path, None);
    assert_eq!(v.code_id, "ab".repeat(32));
    assert!(v.build_idl);
    let mut r = request(&"ab".repeat(32));
    r.project = Some(Project::ManifestPath("a/Cargo.toml".to_string()));
    r.build_idl = Some(false);
    let v = new_verification(r, "y".to_string(), 9).unwrap();
    assert_eq!(v.project_name, None);
    assert_eq!(v.manifest_path.as_deref(), Some("a/Cargo.toml"));
    assert!(!v.build_idl);
}

#[test]
fn happy_path_verifies_and_stores_code_and_idl() {
    let code_id = "a".repeat(64);
    let mut store = Store::new();
    let id = store.submit(request(&code_id), "happy0000000001".to_string(), 1).unwrap();
    let batch = store.list_pending(10);
    assert_eq!(batch.len(), 1);
    let job = &batch[0];
    assert_eq!(store.claim(job), ClaimOutcome::Proceed);
    assert_eq!(status_of(&store, &id), VerificationStatus::InProgress);
    assert!(store.record_onchain(job, Some(true)));
    assert!(store.commit_build(job, Ok(artifacts(&code_id, Some("service X{}")))));
    let h = hash_idl("service X{}");
    let code = store.get_code(&code_id).unwrap();
    assert_eq!(code.name, "my");
    assert_eq!(code.repo_link, "https://example/r");
    assert_eq!(code.idl_hash.as_deref(), Some(h.as_str()));
    let idl = store.get_idl(&h).unwrap();
    assert_eq!(idl.content, "service X{}");
    assert_eq!(status_of(&store, &id), VerificationStatus::Verified);
}

#[test]
fn mismatch_fails_without_code() {
    let code_id = "a".repeat(64);
    let mut store = Store::new();
    let id = store.submit(request(&code_id), "mismatch0000001".to_string(), 1).unwrap();
    let job = store.list_pending(10).remove(0);
    assert_eq!(store.claim(&job), ClaimOutcome::Proceed);
    assert!(store.record_onchain(&job, Some(true)));
    assert!(!store.commit_build(&job, Ok(artifacts(&"b".repeat(64), None))));
    let v = store.get_verification(&id).unwrap();
    assert_eq!(v.status, VerificationStatus::Failed);
    assert_eq!(v.failed_reason.as_deref(), Some("Code ID mismatch"));
    assert!(store.get_code(&code_id).is_none());
}

#[test]
fn off_chain_code_fails_before_build() {
    let mut store = Store::new();
    let id = store.submit(request(&"c".repeat(64)), "offchain0000001".to_string(), 1).unwrap();
    let job = store.list_pending(10).remove(0);
    assert_eq!(store.claim(&job), ClaimOutcome::Proceed);
    assert!(!store.record_onchain(&job, Some(false)));
    let v = store.get_verification(&id).unwrap();
    assert_eq!(v.status, VerificationStatus::Failed);
    assert_eq!(v.failed_reason.as_deref(), Some("Code doesn't exist on chain"));
}

#[test]
fn unsupported_network_fails_job() {
    let mut store = Store::new();
    let id = store.submit(request(&"c".repeat(64)), "nonet0000000001".to_string(), 1).unwrap();
    let job = store.list_pending(10).remove(0);
    store.claim(&job);
    assert!(!store.record_onchain(&job, None));
    let v = store.get_verification(&id).unwrap();
    assert_eq!(v.failed_reason.as_deref(), Some("Unsupported network"));
}

#[test]
fn build_error_fails_with_prefixed_reason() {
    let mut store = Store::new();
    let id = store.submit(request(&"d".repeat(64)), "builderr0000001".to_string(), 1).unwrap();
    let job = store.list_pending(10).remove(0);
    store.claim(&job);
    assert!(!store.commit_build(&job, Err(BuildError::FailedToBuildWasm)));
    let v = store.get_verification(&id).unwrap();
    assert_eq!(v.status, VerificationStatus::Failed);
    assert_eq!(
        v.failed_reason.as_deref(),
        Some("Failed to build project. Failed to build wasm.")
    );
}

#[test]
fn duplicate_in_flight_is_demoted_then_short_circuits() {
    let code_id = "e".repeat(64);
    let mut store = Store::new();
    let first = store.submit(request(&code_id), "first0000000001".to_string(), 100).unwrap();
    let second = store.submit(request(&code_id), "second000000001".to_string(), 101).unwrap();
    let batch = store.list_pending(10);
    assert_eq!(batch.len(), 2);
    assert_eq!(batch[0].id, first);
    assert_eq!(store.claim(&batch[0]), ClaimOutcome::Proceed);
    assert_eq!(store.claim(&batch[1]), ClaimOutcome::InFlight);
    assert_eq!(status_of(&store, &second), VerificationStatus::Pending);
    assert!(store.record_onchain(&batch[0], Some(true)));
    assert!(store.commit_build(&batch[0], Ok(artifacts(&code_id, None))));
    let next = store.list_pending(10);
    assert_eq!(next.len(), 1);
    assert_eq!(next[0].id, second);
    assert_eq!(store.claim(&next[0]), ClaimOutcome::AlreadyVerified);
    assert_eq!(status_of(&store, &second), VerificationStatus::Verified);
}

#[test]
fn crash_recovery_resets_in_progress() {
    let mut store = Store::new();
    store.submit(request(&"1".repeat(64)), "crash0000000001".to_string(), 1).unwrap();
    store.submit(request(&"2".repeat(64)), "crash0000000002".to_string(), 2).unwrap();
    let batch = store.list_pending(10);
    store.claim(&batch[0]);
    store.claim(&batch[1]);
    store.commit_build(&batch[1], Err(BuildError::FailedToBuildIdl));
    assert_eq!(store.reset_in_progress(), 1);
    assert_eq!(status_of(&store, "crash0000000001"), VerificationStatus::Pending);
    assert_eq!(status_of(&store, "crash0000000002"), VerificationStatus::Failed);
    let again = store.list_pending(10);
    assert_eq!(again.len(), 1);
    assert_eq!(again[0].id, "crash0000000001");
    assert_eq!(store.reset_in_progress(), 0);
}

#[test]
fn cap_enforcement_drains_in_fifo_order() {
    let mut store = Store::new();
    for i in 0..25u64 {
        let code_id = format!("{:064x}", i + 1);
        store.submit(request(&code_id), format!("cap{:012}", i), 1000 - i).unwrap();
    }
    let mut in_progress: i64 = 0;
    let mut order: Vec<u64> = Vec::new();
    for _tick in 0..3 {
        let limit = pending_batch_limit(in_progress, MAX_VERIFS_IN_PROGRESS).unwrap();
        let batch = store.list_pending(limit as usize);
        for job in &batch {
            assert_eq!(store.claim(job), ClaimOutcome::Proceed);
            in_progress += 1;
            assert!(in_progress <= MAX_VERIFS_IN_PROGRESS);
            order.push(job.created_at);
        }
        if batch.len() < 10 {
            assert_eq!(batch.len(), 5);
            assert_eq!(pending_batch_limit(in_progress, MAX_VERIFS_IN_PROGRESS), Some(5));
        } else {
            assert_eq!(in_progress, 10);
            assert_eq!(pending_batch_limit(in_progress, MAX_VERIFS_IN_PROGRESS), None);
        }
        for job in &batch {
            store.commit_build(job, Err(BuildError::Io("stopped".to_string())));
            in_progress -= 1;
        }
        if batch.len() < 10 {
            break;
        }
    }
    assert_eq!(order.len(), 25);
    let mut sorted = order.clone();
    sorted.sort();
    assert_eq!(order, sorted);
    assert_eq!(order[0], 976);
}

#[test]
fn batch_limit_values() {
    assert_eq!(pending_batch_limit(0, 10), Some(10));
    assert_eq!(pending_batch_limit(7, 10), Some(3));
    assert_eq!(pending_batch_limit(10, 10), None);
    assert_eq!(pending_batch_limit(12, 10), None);
}

#[test]
fn list_pending_orders_by_submission_time() {
    let mut store = Store::new();
    store.submit(request(&"1".repeat(64)), "late".to_string(), 30).unwrap();
    store.submit(request(&"2".repeat(64)), "early".to_string(), 10).unwrap();
    store.submit(request(&"3".repeat(64)), "middle".to_string(), 20).unwrap();
    let ids: Vec<String> = store.list_pending(10).into_iter().map(|v| v.id).collect();
    assert_eq!(ids, vec!["early", "middle", "late"]);
    let first_two: Vec<String> = store.list_pending(2).into_iter().map(|v| v.id).collect();
    assert_eq!(first_two, vec!["early", "middle"]);
    assert!(store.list_pending(0).is_empty());
}

#[test]
fn idl_insert_twice_is_noop() {
    let mut store = Store::new();
    let idl = Idl { id: hash_idl("service X{}"), content: "service X{}".to_string() };
    assert!(store.insert_idl(idl.clone()));
    assert!(!store.insert_idl(idl.clone()));
    assert_eq!(store.get_idl(&idl.id).unwrap().content, "service X{}");
    assert!(store.get_idl(&"0".repeat(64)).is_none());
}

#[test]
fn codes_are_unique_by_id() {
    let mut store = Store::new();
    let code = Code {
        id: "a".repeat(64),
        idl_hash: None,
        name: "my".to_string(),
        repo_link: "r".to_string(),
    };
    assert!(store.insert_code(code.clone()));
    assert!(!store.insert_code(Code { name: "other".to_string(), ..code.clone() }));
    assert_eq!(store.get_code(&code.id).unwrap().name, "my");
    let found = store.get_codes(&vec![code.id.clone(), "b".repeat(64)]);
    assert_eq!(found.len(), 2);
    assert!(found[0].is_some());
    assert!(found[1].is_none());
}

#[test]
fn update_status_and_in_progress_query() {
    let mut store = Store::new();
    store.submit(request(&"a".repeat(64)), "one".to_string(), 1).unwrap();
    store.submit(request(&"a".repeat(64)), "two".to_string(), 2).unwrap();
    assert!(!store.any_in_progress_for_code(&"a".repeat(64), "two"));
    assert!(store.update_status("one", VerificationStatus::InProgress, None));
    assert!(store.any_in_progress_for_code(&"a".repeat(64), "two"));
    assert!(!store.any_in_progress_for_code(&"a".repeat(64), "one"));
    assert!(!store.update_status("three", VerificationStatus::Failed, None));
}

#[test]
fn locate_first_artifacts() {
    let names: Vec<String> = ["readme.md", "a.idl", "x.opt.wasm", "b.idl", "y.opt.wasm"]
        .iter()
        .map(|s| s.to_string())
        .collect();
    let files = locate_artifacts(&names);
    assert_eq!(files.wasm, Some(2));
    assert_eq!(files.idl, Some(1));
    let none = locate_artifacts(&vec!["x.wasm".to_string()]);
    assert_eq!(none.wasm, None);
    assert_eq!(none.idl, None);
}

#[test]
fn assemble_artifacts_cases() {
    let wasm = || Some(WasmFile { file_name: "my.opt.wasm".to_string(), code: b"abc".to_vec() });
    let a = assemble_artifacts(true, wasm(), Some(Some("service X{}".to_string()))).unwrap();
    assert_eq!(a.name, "my");
    assert_eq!(a.code_id, generate_code_id(b"abc"));
    assert_eq!(a.idl.as_deref(), Some("service X{}"));
    assert!(matches!(
        assemble_artifacts(true, None, None),
        Err(BuildError::FailedToBuildWasm)
    ));
    assert!(matches!(assemble_artifacts(true, wasm(), None), Err(BuildError::FailedToBuildIdl)));
    let unreadable = assemble_artifacts(true, wasm(), Some(None)).unwrap();
    assert_eq!(unreadable.idl, None);
    let no_idl = assemble_artifacts(false, wasm(), Some(Some("ignored".to_string()))).unwrap();
    assert_eq!(no_idl.idl, None);
}

#[test]
fn container_settings() {
    assert_eq!(image_ref("0.8.0"), "ghcr.io/gear-tech/sails-program-verifier:0.8.0");
    assert_eq!(log_file_path("abc"), "logs/abc.log");
    assert_eq!(get_project_path("abc"), "/tmp/builds/abc");
    assert_eq!(verifier_dockerfile_name("0.7.1"), "Dockerfile-verifier-0.7.1");
    let d = verifier_dockerfile("0.7.1");
    assert!(d.starts_with("\nFROM ghcr.io/gear-tech/sails-program-builder:0.7.1\nWORKDIR /scripts\n"));
    assert!(d.ends_with("CMD [\"/bin/sh\", \"../scripts/build.sh\"]\n"));
}

#[test]
fn build_env_lists_fields() {
    let mut r = request(&"a".repeat(64));
    r.project = Some(Project::Package("pkg".to_string()));
    r.base_path = Some("sub".to_string());
    let v: Verification = new_verification(r, "id".to_string(), 0).unwrap();
    assert_eq!(
        build_env(&v),
        vec![
            "REPO_URL=https://example/r",
            "PROJECT_NAME=pkg",
            "MANIFEST_PATH=",
            "BASE_PATH=sub",
            "BUILD_IDL=true"
        ]
    );
    let plain = Verification { build_idl: false, project_name: None, base_path: None, ..v };
    assert_eq!(build_env(&plain).len(), 4);
}

#[test]
fn decisions() {
    assert_eq!(onchain_failure(Some(true)), None);
    assert_eq!(onchain_failure(Some(false)), Some("Code doesn't exist on chain"));
    assert_eq!(onchain_failure(None), Some("Unsupported network"));
    let v = new_verification(request(&"a".repeat(64)), "id".to_string(), 0).unwrap();
    match decide_build(&v, Ok(artifacts(&"a".repeat(64), Some("t")))) {
        BuildDecision::Commit(c, Some(idl)) => {
            assert_eq!(c.idl_hash, Some(idl.id.clone()));
            assert_eq!(idl.id, hash_idl("t"));
        }
        other => panic!("unexpected {other:?}"),
    }
    match decide_build(&v, Err(BuildError::Io("disk".to_string()))) {
        BuildDecision::Fail(t) => assert_eq!(t, "Failed to build project. disk"),
        other => panic!("unexpected {other:?}"),
    }
}

#[test]
fn status_response_echoes_job() {
    let v = new_verification(request(&"a".repeat(64)), "id".to_string(), 42).unwrap();
    let s = StatusResponse::from_verification(&v);
    assert_eq!(s.status, "pending");
    assert_eq!(s.created_at, 42);
    assert_eq!(s.code_id, "a".repeat(64));
    assert_eq!(s.version, "0.8.0");
}

#[test]
fn codes_response_one_entry_per_request() {
    let found = vec![Code {
        id: "a".repeat(64),
        idl_hash: None,
        name: "my".to_string(),
        repo_link: "r".to_string(),
    }];
    let ids = vec![format!("0x{}", "A".repeat(64)), "bad".to_string(), "b".repeat(64)];
    let r = codes_response(&ids, &found);
    assert_eq!(r.len(), 3);
    assert_eq!(r[0].id, ids[0]);
    assert_eq!(r[0].code.as_ref().unwrap().name, "my");
    assert!(r[1].code.is_none());
    assert!(r[2].code.is_none());
}

#[test]
fn probe_registry() {
    let mut clients: AppClients<u32> = AppClients::new();
    assert!(clients.is_empty());
    assert_eq!(clients.get(&Network::VaraMainnet), Err(VerifierError::UnsupportedNetwork));
    clients.set(Network::VaraTestnet, 7);
    assert!(!clients.is_empty());
    assert_eq!(clients.get(&Network::VaraTestnet), Ok(&7));
    assert!(clients.get(&Network::VaraMainnet).is_err());
}

#[test]
fn poll_respects_cap() {
    let mut store = Store::new();
    for i in 0..25u64 {
        store.submit(request(&format!("{:064x}", i + 1)), format!("poll{:011}", i), i).unwrap();
    }
    let first = store.new_verifications(0, MAX_VERIFS_IN_PROGRESS);
    assert_eq!(first.len(), 10);
    assert_eq!(first[0].created_at, 0);
    assert_eq!(first[9].created_at, 9);
    assert!(store.new_verifications(10, MAX_VERIFS_IN_PROGRESS).is_empty());
    assert_eq!(store.new_verifications(7, MAX_VERIFS_IN_PROGRESS).len(), 3);
    for job in &first {
        store.claim(job);
    }
    let next = store.new_verifications(0, MAX_VERIFS_IN_PROGRESS);
    assert_eq!(next.len(), 10);
    assert_eq!(next[0].created_at, 10);
    let last = store.new_verifications(5, MAX_VERIFS_IN_PROGRESS);
    assert_eq!(last.len(), 5);
}

#[test]
fn network_try_from_name() {
    assert_eq!(Network::try_from("vara_testnet".to_string()), Ok(Network::VaraTestnet));
    assert_eq!(
        Network::try_from("vara".to_string()),
        Err(VerifierError::UnsupportedNetwork)
    );
}

#[test]
fn error_messages() {
    assert_eq!(VerifierError::InvalidCodeId.message(), "Invalid code ID");
    assert_eq!(BuildError::FailedToBuildIdl.message(), "Failed to build idl file.");
    assert_eq!(BuildError::Io("x".to_string()).message(), "x");
}
