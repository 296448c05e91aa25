use agent_core::AccountId;
use agent_core::registry::JobStatus;
use agent_core::registry::RegistryError;
use agent_core::registry::RegistryState;

const REGISTRY: AccountId = AccountId(20);
const VAULT: AccountId = AccountId(1);
const AGENT: AccountId = AccountId(2);
const AUTHORITY: AccountId = AccountId(5);
const CLIENT: AccountId = AccountId(30);
const STRANGER: AccountId = AccountId(31);

const WINDOW: i64 = 100;

fn registry() -> RegistryState {
    let (registry, entry) = RegistryState::initialize_registry(
        REGISTRY, VAULT, AGENT, AUTHORITY, WINDOW,
    );
    assert_eq!(entry.challenge_window, WINDOW);
    registry
}

#[test]
fn initialize_registry_starts_at_zero() {
    let reg = registry();
    assert_eq!(reg.job_counter, 0);
    assert_eq!(reg.total_challenged, 0);
    assert_eq!(reg.total_resolved_against, 0);
    assert_eq!(reg.vault, VAULT);
}

#[test]
fn record_job_assigns_sequence_numbers_in_order() {
    let mut reg = registry();
    let (first, entry) = reg
        .record_job(AGENT, CLIENT, [1u8; 32], 5_000, [2u8; 64], 1_000)
        .unwrap();
    assert_eq!(first.job_id, 0);
    assert_eq!(entry.job_id, 0);
    assert_eq!(first.status, JobStatus::Active);
    assert_eq!(first.created_at, 1_000);
    assert_eq!(first.client, CLIENT);
    assert_eq!(first.payment_amount, 5_000);
    assert_eq!(first.artifact_hash, [1u8; 32]);
    assert_eq!(first.payment_tx, [2u8; 64]);
    assert!(!first.client_verified);
    let (second, _) = reg
        .record_job(AGENT, CLIENT, [3u8; 32], 7_000, [4u8; 64], 1_050)
        .unwrap();
    assert_eq!(second.job_id, 1);
    assert_eq!(reg.job_counter, 2);
}

#[test]
fn record_job_requires_agent() {
    let mut reg = registry();
    let r = reg.record_job(STRANGER, CLIENT, [0u8; 32], 1, [0u8; 64], 0);
    assert_eq!(r.unwrap_err(), RegistryError::Unauthorized);
    assert_eq!(reg.job_counter, 0);
}

#[test]
fn challenge_at_exact_window_end_succeeds() {
    let mut reg = registry();
    let (mut receipt, _) = reg
        .record_job(AGENT, CLIENT, [0u8; 32], 1_000, [0u8; 64], 1_000)
        .unwrap();
    let entry = reg
        .challenge_job(&mut receipt, CLIENT, [9u8; 32], 1_000 + WINDOW)
        .unwrap();
    assert_eq!(receipt.status, JobStatus::Challenged);
    assert_eq!(receipt.challenger, CLIENT);
    assert_eq!(receipt.challenged_at, 1_000 + WINDOW);
    assert_eq!(entry.challenged_at, 1_000 + WINDOW);
    assert_eq!(reg.total_challenged, 1);
}

#[test]
fn challenge_one_past_window_fails() {
    let mut reg = registry();
    let (mut receipt, _) = reg
        .record_job(AGENT, CLIENT, [0u8; 32], 1_000, [0u8; 64], 1_000)
        .unwrap();
    let r = reg.challenge_job(&mut receipt, CLIENT, [9u8; 32], 1_000 + WINDOW + 1);
    assert_eq!(r.unwrap_err(), RegistryError::ChallengeWindowExpired);
    assert_eq!(receipt.status, JobStatus::Active);
    assert_eq!(reg.total_challenged, 0);
}

#[test]
fn challenge_requires_the_recorded_client() {
    let mut reg = registry();
    let (mut receipt, _) = reg
        .record_job(AGENT, CLIENT, [0u8; 32], 1_000, [0u8; 64], 1_000)
        .unwrap();
    let r = reg.challenge_job(&mut receipt, STRANGER, [9u8; 32], 1_001);
    assert_eq!(r.unwrap_err(), RegistryError::Unauthorized);
}

#[test]
fn challenge_requires_active_status() {
    let mut reg = registry();
    let (mut receipt, _) = reg
        .record_job(AGENT, CLIENT, [0u8; 32], 1_000, [0u8; 64], 1_000)
        .unwrap();
    reg.challenge_job(&mut receipt, CLIENT, [9u8; 32], 1_001).unwrap();
    let r = reg.challenge_job(&mut receipt, CLIENT, [9u8; 32], 1_002);
    assert_eq!(r.unwrap_err(), RegistryError::JobNotActive);
    assert_eq!(reg.total_challenged, 1);
}

#[test]
fn resolve_for_agent_ends_the_dispute() {
    let mut reg = registry();
    let (mut receipt, _) = reg
        .record_job(AGENT, CLIENT, [0u8; 32], 1_000, [0u8; 64], 1_000)
        .unwrap();
    reg.challenge_job(&mut receipt, CLIENT, [9u8; 32], 1_001).unwrap();
    let entry = reg.resolve_for_agent(&mut receipt, AUTHORITY, 1_500).unwrap();
    assert_eq!(receipt.status, JobStatus::Resolved);
    assert_eq!(receipt.resolved_at, 1_500);
    assert_eq!(entry.status, JobStatus::Resolved);
    assert_eq!(reg.total_resolved_against, 0);
}

#[test]
fn resolve_against_agent_counts_the_adverse_outcome() {
    let mut reg = registry();
    let (mut receipt, _) = reg
        .record_job(AGENT, CLIENT, [0u8; 32], 1_000, [0u8; 64], 1_000)
        .unwrap();
    reg.challenge_job(&mut receipt, CLIENT, [9u8; 32], 1_001).unwrap();
    let entry = reg.resolve_against_agent(&mut receipt, AUTHORITY, 1_500).unwrap();
    assert_eq!(receipt.status, JobStatus::Rejected);
    assert_eq!(entry.status, JobStatus::Rejected);
    assert_eq!(reg.total_resolved_against, 1);
}

#[test]
fn resolve_requires_protocol_authority() {
    let mut reg = registry();
    let (mut receipt, _) = reg
        .record_job(AGENT, CLIENT, [0u8; 32], 1_000, [0u8; 64], 1_000)
        .unwrap();
    reg.challenge_job(&mut receipt, CLIENT, [9u8; 32], 1_001).unwrap();
    let r = reg.resolve_for_agent(&mut receipt, AGENT, 1_500);
    assert_eq!(r.unwrap_err(), RegistryError::Unauthorized);
    let r = reg.resolve_against_agent(&mut receipt, CLIENT, 1_500);
    assert_eq!(r.unwrap_err(), RegistryError::Unauthorized);
}

#[test]
fn resolve_requires_a_challenged_job() {
    let mut reg = registry();
    let (mut receipt, _) = reg
        .record_job(AGENT, CLIENT, [0u8; 32], 1_000, [0u8; 64], 1_000)
        .unwrap();
    let r = reg.resolve_for_agent(&mut receipt, AUTHORITY, 1_500);
    assert_eq!(r.unwrap_err(), RegistryError::JobNotChallenged);
    let r = reg.resolve_against_agent(&mut receipt, AUTHORITY, 1_500);
    assert_eq!(r.unwrap_err(), RegistryError::JobNotChallenged);
}

#[test]
fn finalize_waits_for_the_window_to_lapse() {
    let mut reg = registry();
    let (mut receipt, _) = reg
        .record_job(AGENT, CLIENT, [0u8; 32], 1_000, [0u8; 64], 1_000)
        .unwrap();
    // the window's last instant still refuses finalization
    let r = reg.finalize_job(&mut receipt, 1_000 + WINDOW);
    assert_eq!(r.unwrap_err(), RegistryError::ChallengeWindowActive);
    let entry = reg.finalize_job(&mut receipt, 1_000 + WINDOW + 1).unwrap();
    assert_eq!(receipt.status, JobStatus::Finalized);
    assert_eq!(entry.finalized_at, 1_000 + WINDOW + 1);
}

#[test]
fn finalize_requires_active_status() {
    let mut reg = registry();
    let (mut receipt, _) = reg
        .record_job(AGENT, CLIENT, [0u8; 32], 1_000, [0u8; 64], 1_000)
        .unwrap();
    reg.challenge_job(&mut receipt, CLIENT, [9u8; 32], 1_001).unwrap();
    let r = reg.finalize_job(&mut receipt, 2_000);
    assert_eq!(r.unwrap_err(), RegistryError::JobNotActive);
}

#[test]
fn verify_receipt_is_client_only_and_once() {
    let mut reg = registry();
    let (mut receipt, _) = reg
        .record_job(AGENT, CLIENT, [0u8; 32], 1_000, [0u8; 64], 1_000)
        .unwrap();
    let r = receipt.verify_receipt(STRANGER, 1_100);
    assert_eq!(r.unwrap_err(), RegistryError::Unauthorized);
    let entry = receipt.verify_receipt(CLIENT, 1_100).unwrap();
    assert!(receipt.client_verified);
    assert_eq!(entry.verified_at, 1_100);
    let r = receipt.verify_receipt(CLIENT, 1_200);
    assert_eq!(r.unwrap_err(), RegistryError::AlreadyVerified);
}

#[test]
fn verify_receipt_works_in_any_status() {
    let mut reg = registry();
    let (mut receipt, _) = reg
        .record_job(AGENT, CLIENT, [0u8; 32], 1_000, [0u8; 64], 1_000)
        .unwrap();
    reg.finalize_job(&mut receipt, 1_000 + WINDOW + 1).unwrap();
    assert!(receipt.verify_receipt(CLIENT, 2_000).is_ok());
    assert_eq!(receipt.status, JobStatus::Finalized);
}

#[test]
fn operations_reject_a_receipt_of_another_registry() {
    let mut reg = registry();
    let (other_reg, _) = RegistryState::initialize_registry(
        AccountId(99), VAULT, AGENT, AUTHORITY, WINDOW,
    );
    let (mut receipt, _) = reg
        .record_job(AGENT, CLIENT, [0u8; 32], 1_000, [0u8; 64], 1_000)
        .unwrap();
    let mut foreign = receipt;
    foreign.registry = AccountId(99);
    let r = reg.challenge_job(&mut foreign, CLIENT, [9u8; 32], 1_001);
    assert_eq!(r.unwrap_err(), RegistryError::Unauthorized);
    let r = other_reg.finalize_job(&mut receipt, 2_000);
    assert_eq!(r.unwrap_err(), RegistryError::Unauthorized);
}
