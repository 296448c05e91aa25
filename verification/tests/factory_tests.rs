use agent_core::AccountId;
use agent_core::factory::FactoryError;
use agent_core::factory::FactoryState;
use agent_core::factory::ProvisionError;
use agent_core::vault::VaultError;

const FACTORY: AccountId = AccountId(100);
const AUTHORITY: AccountId = AccountId(101);
const TREASURY: AccountId = AccountId(4);
const OPERATOR: AccountId = AccountId(2);
const ARBITRATOR: AccountId = AccountId(3);
const VAULT: AccountId = AccountId(1);
const REGISTRY: AccountId = AccountId(20);

fn factory() -> FactoryState {
    let (factory, entry) = FactoryState::initialize_factory(FACTORY, AUTHORITY, TREASURY, 100);
    assert_eq!(entry.min_protocol_fee_bps, 100);
    factory
}

fn provision(
    factory: &mut FactoryState,
    name: &str,
    agent_fee_bps: u16,
    protocol_fee_bps: u16,
    epoch_length: i64,
) -> Result<
    (
        agent_core::factory::AgentMetadata,
        agent_core::vault::VaultState,
        agent_core::registry::RegistryState,
        agent_core::factory::AgentCreated,
    ),
    ProvisionError,
> {
    factory.create_agent(
        OPERATOR,
        ARBITRATOR,
        VAULT,
        REGISTRY,
        name.as_bytes().to_vec(),
        b"builder".to_vec(),
        b"https://agent.example/api".to_vec(),
        agent_fee_bps,
        protocol_fee_bps,
        3_600,
        1_000_000_000,
        2,
        epoch_length,
        50_000,
    )
}

#[test]
fn initialize_factory_starts_empty() {
    let f = factory();
    assert_eq!(f.agent_count, 0);
    assert_eq!(f.protocol_treasury, TREASURY);
}

#[test]
fn create_agent_provisions_vault_and_registry_together() {
    let mut f = factory();
    let (metadata, vault, registry, entry) = provision(&mut f, "atlas", 500, 200, 60).unwrap();
    assert_eq!(f.agent_count, 1);
    assert_eq!(metadata.agent_id, 0);
    assert_eq!(metadata.factory, FACTORY);
    assert_eq!(metadata.name, b"atlas".to_vec());
    assert!(metadata.is_active);
    assert_eq!(metadata.created_at, 50_000);
    assert_eq!(vault.key, VAULT);
    assert_eq!(vault.operator, OPERATOR);
    assert_eq!(vault.arbitrator, ARBITRATOR);
    assert_eq!(vault.protocol_treasury, TREASURY);
    assert_eq!(vault.agent_fee_bps, 500);
    assert_eq!(vault.protocol_fee_bps, 200);
    assert_eq!(vault.created_at, 50_000);
    assert_eq!(registry.key, REGISTRY);
    assert_eq!(registry.vault, VAULT);
    assert_eq!(registry.agent_wallet, OPERATOR);
    assert_eq!(registry.protocol_authority, TREASURY);
    assert_eq!(registry.challenge_window, 3_600);
    assert_eq!(entry.agent_id, 0);
    assert_eq!(entry.vault, VAULT);
    assert_eq!(entry.registry, REGISTRY);
}

#[test]
fn create_agent_rejects_an_overlong_name() {
    let mut f = factory();
    let long = "x".repeat(65);
    let r = provision(&mut f, &long, 500, 200, 60);
    assert_eq!(r.unwrap_err(), ProvisionError::Factory(FactoryError::NameTooLong));
    assert_eq!(f.agent_count, 0);
}

#[test]
fn create_agent_rejects_an_overlong_handle() {
    let mut f = factory();
    let r = f.create_agent(
        OPERATOR,
        ARBITRATOR,
        VAULT,
        REGISTRY,
        b"atlas".to_vec(),
        vec![b'h'; 65],
        b"url".to_vec(),
        500,
        200,
        3_600,
        0,
        0,
        60,
        0,
    );
    assert_eq!(r.unwrap_err(), ProvisionError::Factory(FactoryError::GitHubHandleTooLong));
}

#[test]
fn create_agent_rejects_an_overlong_endpoint() {
    let mut f = factory();
    let r = f.create_agent(
        OPERATOR,
        ARBITRATOR,
        VAULT,
        REGISTRY,
        b"atlas".to_vec(),
        b"builder".to_vec(),
        vec![b'u'; 257],
        500,
        200,
        3_600,
        0,
        0,
        60,
        0,
    );
    assert_eq!(r.unwrap_err(), ProvisionError::Factory(FactoryError::EndpointUrlTooLong));
}

#[test]
fn create_agent_rejects_a_protocol_fee_below_the_floor() {
    let mut f = factory();
    let r = provision(&mut f, "atlas", 500, 99, 60);
    assert_eq!(r.unwrap_err(), ProvisionError::Factory(FactoryError::ProtocolFeeBelowMinimum));
}

#[test]
fn create_agent_rejects_fees_above_100_percent() {
    let mut f = factory();
    let r = provision(&mut f, "atlas", 9_900, 101, 60);
    assert_eq!(r.unwrap_err(), ProvisionError::Factory(FactoryError::TotalFeesExceed100Percent));
}

#[test]
fn create_agent_surfaces_a_vault_refusal() {
    let mut f = factory();
    let r = provision(&mut f, "atlas", 500, 200, 0);
    assert_eq!(r.unwrap_err(), ProvisionError::Vault(VaultError::InvalidFees));
    assert_eq!(f.agent_count, 0);
}

#[test]
fn update_agent_replaces_only_the_given_fields() {
    let mut f = factory();
    let (mut metadata, _, _, _) = provision(&mut f, "atlas", 500, 200, 60).unwrap();
    let entry = metadata
        .update_agent(OPERATOR, Some(b"atlas2".to_vec()), None, None)
        .unwrap();
    assert_eq!(metadata.name, b"atlas2".to_vec());
    assert_eq!(metadata.github_handle, b"builder".to_vec());
    assert_eq!(metadata.endpoint_url, b"https://agent.example/api".to_vec());
    assert_eq!(entry.name, b"atlas2".to_vec());
}

#[test]
fn update_agent_requires_the_operator() {
    let mut f = factory();
    let (mut metadata, _, _, _) = provision(&mut f, "atlas", 500, 200, 60).unwrap();
    let r = metadata.update_agent(AUTHORITY, Some(b"x".to_vec()), None, None);
    assert_eq!(r.unwrap_err(), FactoryError::Unauthorized);
    assert_eq!(metadata.name, b"atlas".to_vec());
}

#[test]
fn update_agent_rejects_an_overlong_field_and_changes_nothing() {
    let mut f = factory();
    let (mut metadata, _, _, _) = provision(&mut f, "atlas", 500, 200, 60).unwrap();
    let r = metadata.update_agent(
        OPERATOR,
        Some(b"fine".to_vec()),
        None,
        Some(vec![b'u'; 257]),
    );
    assert_eq!(r.unwrap_err(), FactoryError::EndpointUrlTooLong);
    assert_eq!(metadata.name, b"atlas".to_vec());
    assert_eq!(metadata.endpoint_url, b"https://agent.example/api".to_vec());
}

#[test]
fn deactivate_agent_is_operator_only_and_final() {
    let mut f = factory();
    let (mut metadata, _, _, _) = provision(&mut f, "atlas", 500, 200, 60).unwrap();
    let r = metadata.deactivate_agent(AUTHORITY);
    assert_eq!(r.unwrap_err(), FactoryError::Unauthorized);
    let entry = metadata.deactivate_agent(OPERATOR).unwrap();
    assert_eq!(entry.agent_id, 0);
    assert!(!metadata.is_active);
    let r = metadata.deactivate_agent(OPERATOR);
    assert_eq!(r.unwrap_err(), FactoryError::AgentAlreadyInactive);
    let r = metadata.update_agent(OPERATOR, Some(b"x".to_vec()), None, None);
    assert_eq!(r.unwrap_err(), FactoryError::AgentAlreadyInactive);
}
