use lighting_client::lnd::node_client::{
    conclude, conclude_at, getinfo_url, triage, Failure, FailureKind, FetchOutcome, Reply, Triage,
    REQUEST_TIMEOUT_SECS, STATUS_OK,
};
use lighting_client::lnd::{ChainData, Feature, LnGetInfo};
use std::collections::HashMap;

fn sample_status() -> LnGetInfo {
    let mut features = HashMap::new();
    features.insert(
        0,
        Feature { name: "data-loss-protect".to_string(), is_required: true, is_known: true },
    );
    features.insert(
        5,
        Feature { name: "upfront-shutdown-script".to_string(), is_required: false, is_known: true },
    );
    LnGetInfo {
        version: "0.15.5-beta".to_string(),
        commit_hash: "c0a09209782b1c62c3393fcea0844d095c08a0c9".to_string(),
        identity_pubkey: "02abc".to_string(),
        alias: "carol".to_string(),
        color: "#3399ff".to_string(),
        num_pending_channels: 1,
        num_active_channels: 2,
        num_inactive_channels: 3,
        num_peers: 4,
        block_height: 770000,
        block_hash: "00000000000000000001".to_string(),
        best_header_timestamp: "1672531200".to_string(),
        synced_to_chain: true,
        synced_to_graph: false,
        testnet: false,
        chains: vec![ChainData { chain: "bitcoin".to_string(), network: "mainnet".to_string() }],
        uris: vec!["02abc@127.0.0.1:9735".to_string()],
        features,
    }
}

#[test]
fn url_is_base_plus_getinfo_path() {
    assert_eq!(getinfo_url(&"https://node.example:8080".to_string()), "https://node.example:8080/v1/getinfo");
    assert_eq!(getinfo_url(&String::new()), "/v1/getinfo");
}

#[test]
fn constants_are_as_documented() {
    assert_eq!(STATUS_OK, 200);
    assert_eq!(REQUEST_TIMEOUT_SECS, 30);
}

#[test]
fn unreachable_node_is_a_transport_failure() {
    let verdict = triage(Reply::Unreachable { message: "connection refused".to_string() });
    assert_eq!(
        verdict,
        Triage::Concluded(FetchOutcome::Failed(Failure {
            kind: FailureKind::Transport,
            message: "connection refused".to_string(),
        }))
    );
}

#[test]
fn status_500_is_a_rejection_with_the_body() {
    let verdict = triage(Reply::Answered { status: 500, body: "boom".to_string() });
    assert_eq!(
        verdict,
        Triage::Concluded(FetchOutcome::Failed(Failure {
            kind: FailureKind::Rejected,
            message: "boom".to_string(),
        }))
    );
}

#[test]
fn every_status_but_200_is_a_rejection() {
    for status in [0u16, 100, 199, 201, 204, 301, 404, 500, 503, 599, u16::MAX] {
        let verdict = triage(Reply::Answered { status, body: "b".to_string() });
        assert_eq!(
            verdict,
            Triage::Concluded(FetchOutcome::Failed(Failure {
                kind: FailureKind::Rejected,
                message: "b".to_string(),
            }))
        );
    }
}

#[test]
fn status_200_is_to_be_decoded() {
    let verdict = triage(Reply::Answered { status: 200, body: "{}".to_string() });
    assert_eq!(verdict, Triage::Decode { body: "{}".to_string() });
}

#[test]
fn decoded_status_is_a_success_at_the_given_time() {
    let outcome = conclude_at(Ok(sample_status()), "2023-01-01T00:00:00+00:00".to_string());
    assert_eq!(
        outcome,
        FetchOutcome::Success {
            status: sample_status(),
            at: "2023-01-01T00:00:00+00:00".to_string(),
        }
    );
}

#[test]
fn refused_body_is_a_decode_failure() {
    let outcome = conclude_at(
        Err("missing field `version` at line 1 column 2".to_string()),
        "2023-01-01T00:00:00+00:00".to_string(),
    );
    assert_eq!(
        outcome,
        FetchOutcome::Failed(Failure {
            kind: FailureKind::Decode,
            message: "missing field `version` at line 1 column 2".to_string(),
        })
    );
}

#[test]
fn conclude_stamps_a_success_with_the_current_time() {
    let before = chrono::Utc::now();
    let outcome = conclude(Ok(sample_status()));
    let after = chrono::Utc::now();
    match outcome {
        FetchOutcome::Success { status, at } => {
            assert_eq!(status, sample_status());
            let stamp = chrono::DateTime::parse_from_rfc3339(&at).unwrap();
            assert!(before <= stamp && stamp <= after);
        }
        other => panic!("expected a success, got {:?}", other),
    }
}

#[test]
fn conclude_passes_a_decode_failure_on() {
    let outcome = conclude(Err("expected value".to_string()));
    assert_eq!(
        outcome,
        FetchOutcome::Failed(Failure {
            kind: FailureKind::Decode,
            message: "expected value".to_string(),
        })
    );
}
