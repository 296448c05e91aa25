//! One-shot provisioning of an agent: creates the agent's vault and its
//! dispute registry together, all-or-nothing, and keeps a metadata record
//! per agent. Thin orchestration over the two engines; the factory itself
//! holds no funds.
use vstd::prelude::*;

use crate::AccountId;
use crate::registry::RegistryInitialized;
use crate::registry::RegistryState;
use crate::vault::VaultError;
use crate::vault::VaultInitialized;
use crate::vault::VaultState;

verus! {

/// Longest accepted agent name, in bytes.
pub const MAX_NAME_LEN: usize = 64;

/// Longest accepted source-hosting handle, in bytes.
pub const MAX_HANDLE_LEN: usize = 64;

/// Longest accepted endpoint address, in bytes.
pub const MAX_URL_LEN: usize = 256;

/// Why a factory operation was refused. Every failure leaves the factory
/// and the metadata exactly as they were.
#[derive(Clone, Copy, PartialEq, Eq, Structural, Debug)]
pub enum FactoryError {
    /// The agent name exceeds its length cap.
    NameTooLong,
    /// The source-hosting handle exceeds its length cap.
    GitHubHandleTooLong,
    /// The endpoint address exceeds its length cap.
    EndpointUrlTooLong,
    /// The protocol fee offered lies below the factory's minimum.
    ProtocolFeeBelowMinimum,
    /// The fee rates sum above 100%.
    TotalFeesExceed100Percent,
    /// A checked arithmetic step overflowed.
    ArithmeticOverflow,
    /// The caller does not hold the role the operation demands.
    Unauthorized,
    /// The agent is already deactivated.
    AgentAlreadyInactive,
}

/// Why provisioning failed: either the factory refused the request, or
/// vault creation did.
#[derive(Clone, Copy, PartialEq, Eq, Structural, Debug)]
pub enum ProvisionError {
    Factory(FactoryError),
    Vault(VaultError),
}

/// The factory: counts agents and enforces a floor on the protocol fee.
#[derive(Clone, Copy, PartialEq, Eq, Structural, Debug)]
pub struct FactoryState {
    /// Ledger key of the factory.
    pub key: AccountId,
    /// Who created the factory.
    pub authority: AccountId,
    /// Treasury every provisioned vault pays protocol cuts to.
    pub protocol_treasury: AccountId,
    /// Smallest protocol fee a new vault may be provisioned with.
    pub min_protocol_fee_bps: u16,
    /// Number of agents provisioned; also the next agent's number.
    pub agent_count: u64,
}

/// Descriptive record of one provisioned agent. Text fields are carried
/// as bytes; only their lengths are constrained.
#[derive(Clone, PartialEq, Eq, Debug)]
pub struct AgentMetadata {
    /// The factory that provisioned the agent.
    pub factory: AccountId,
    /// The agent's operator.
    pub operator: AccountId,
    /// The agent's vault.
    pub vault: AccountId,
    /// The agent's dispute registry.
    pub registry: AccountId,
    /// Display name, at most `MAX_NAME_LEN` bytes.
    pub name: Vec<u8>,
    /// Source-hosting handle, at most `MAX_HANDLE_LEN` bytes.
    pub github_handle: Vec<u8>,
    /// Service endpoint, at most `MAX_URL_LEN` bytes.
    pub endpoint_url: Vec<u8>,
    /// Number the factory assigned to this agent.
    pub agent_id: u64,
    /// When the agent was provisioned.
    pub created_at: i64,
    /// Cleared once the operator deactivates the agent.
    pub is_active: bool,
}

/// Audit entry of a factory creation.
#[derive(Clone, Copy, PartialEq, Eq, Structural, Debug)]
pub struct FactoryInitialized {
    pub authority: AccountId,
    pub protocol_treasury: AccountId,
    pub min_protocol_fee_bps: u16,
}

/// Audit entry of a provisioned agent.
#[derive(Clone, PartialEq, Eq, Debug)]
pub struct AgentCreated {
    pub factory: AccountId,
    pub agent_id: u64,
    pub operator: AccountId,
    pub vault: AccountId,
    pub registry: AccountId,
    pub name: Vec<u8>,
    pub endpoint_url: Vec<u8>,
}

/// Audit entry of a metadata update.
#[derive(Clone, PartialEq, Eq, Debug)]
pub struct AgentUpdated {
    pub agent_id: u64,
    pub operator: AccountId,
    pub name: Vec<u8>,
    pub endpoint_url: Vec<u8>,
}

/// Audit entry of a deactivation.
#[derive(Clone, Copy, PartialEq, Eq, Structural, Debug)]
pub struct AgentDeactivated {
    pub agent_id: u64,
    pub operator: AccountId,
}

impl FactoryState {
    /// Creates the factory.
    pub fn initialize_factory(
        key: AccountId,
        authority: AccountId,
        protocol_treasury: AccountId,
        min_protocol_fee_bps: u16,
    ) -> (r: (FactoryState, FactoryInitialized))
        ensures
            r.0 == (FactoryState {
                key,
                authority,
                protocol_treasury,
                min_protocol_fee_bps,
                agent_count: 0,
            }),
            r.1 == (FactoryInitialized { authority, protocol_treasury, min_protocol_fee_bps }),
    {
        let factory = FactoryState {
            key,
            authority,
            protocol_treasury,
            min_protocol_fee_bps,
            agent_count: 0,
        };
        let entry = FactoryInitialized { authority, protocol_treasury, min_protocol_fee_bps };
        (factory, entry)
    }
}

/// Validation a provisioning request must pass before anything is
/// created, in order: the three length caps, the protocol-fee floor, the
/// 100% fee ceiling, and room in the agent counter.
pub open spec fn create_agent_check(
    factory: FactoryState,
    name: Seq<u8>,
    github_handle: Seq<u8>,
    endpoint_url: Seq<u8>,
    agent_fee_bps: u16,
    protocol_fee_bps: u16,
) -> Result<(), FactoryError> {
    if name.len() > MAX_NAME_LEN {
        Err(FactoryError::NameTooLong)
    } else if github_handle.len() > MAX_HANDLE_LEN {
        Err(FactoryError::GitHubHandleTooLong)
    } else if endpoint_url.len() > MAX_URL_LEN {
        Err(FactoryError::EndpointUrlTooLong)
    } else if protocol_fee_bps < factory.min_protocol_fee_bps {
        Err(FactoryError::ProtocolFeeBelowMinimum)
    } else if agent_fee_bps + protocol_fee_bps > crate::vault::BPS_DENOMINATOR {
        Err(FactoryError::TotalFeesExceed100Percent)
    } else if factory.agent_count + 1 > u64::MAX {
        Err(FactoryError::ArithmeticOverflow)
    } else {
        Ok(())
    }
}

impl FactoryState {
    /// Provisions an agent in one shot: validates the request, creates
    /// the vault and its registry together, records the metadata and
    /// advances the agent counter. Nothing is created unless everything
    /// is. The vault's epoch length is still validated by vault creation,
    /// whose refusal surfaces as `ProvisionError::Vault`.
    pub fn create_agent(
        &mut self,
        operator: AccountId,
        arbitrator: AccountId,
        vault_key: AccountId,
        registry_key: AccountId,
        name: Vec<u8>,
        github_handle: Vec<u8>,
        endpoint_url: Vec<u8>,
        agent_fee_bps: u16,
        protocol_fee_bps: u16,
        challenge_window: i64,
        max_tvl: u64,
        lockup_epochs: u8,
        epoch_length: i64,
        now: i64,
    ) -> (r: Result<
        (AgentMetadata, VaultState, RegistryState, AgentCreated),
        ProvisionError,
    >)
        ensures
            (match create_agent_check(
                *old(self),
                name@,
                github_handle@,
                endpoint_url@,
                agent_fee_bps,
                protocol_fee_bps,
            ) {
                Err(e) => {
                    &&& r matches Err(ee) && ee == ProvisionError::Factory(e)
                    &&& *final(self) == *old(self)
                },
                Ok(()) => {
                    if epoch_length <= 0 {
                        &&& r matches Err(ee) && ee == ProvisionError::Vault(
                            VaultError::InvalidFees,
                        )
                        &&& *final(self) == *old(self)
                    } else {
                        &&& r matches Ok((metadata, vault, registry, entry))
                        &&& r matches Ok((metadata, vault, registry, entry)) ==> {
                            &&& vault == crate::vault::fresh_vault(
                                vault_key,
                                operator,
                                arbitrator,
                                old(self).protocol_treasury,
                                agent_fee_bps,
                                protocol_fee_bps,
                                max_tvl,
                                lockup_epochs,
                                epoch_length,
                                now,
                            )
                            &&& registry == crate::registry::fresh_registry(
                                registry_key,
                                vault_key,
                                operator,
                                old(self).protocol_treasury,
                                challenge_window,
                            )
                            &&& metadata.factory == old(self).key
                            &&& metadata.operator == operator
                            &&& metadata.vault == vault_key
                            &&& metadata.registry == registry_key
                            &&& metadata.name@ == name@
                            &&& metadata.github_handle@ == github_handle@
                            &&& metadata.endpoint_url@ == endpoint_url@
                            &&& metadata.agent_id == old(self).agent_count
                            &&& metadata.created_at == now
                            &&& metadata.is_active
                            &&& entry.factory == old(self).key
                            &&& entry.agent_id == old(self).agent_count
                            &&& entry.operator == operator
                            &&& entry.vault == vault_key
                            &&& entry.registry == registry_key
                            &&& entry.name@ == name@
                            &&& entry.endpoint_url@ == endpoint_url@
                        }
                        &&& *final(self) == (FactoryState {
                            agent_count: (old(self).agent_count + 1) as u64,
                            ..*old(self)
                        })
                    }
                },
            }),
    {
        if name.len() > MAX_NAME_LEN {
            return Err(ProvisionError::Factory(FactoryError::NameTooLong));
        }
        if github_handle.len() > MAX_HANDLE_LEN {
            return Err(ProvisionError::Factory(FactoryError::GitHubHandleTooLong));
        }
        if endpoint_url.len() > MAX_URL_LEN {
            return Err(ProvisionError::Factory(FactoryError::EndpointUrlTooLong));
        }
        if protocol_fee_bps < self.min_protocol_fee_bps {
            return Err(ProvisionError::Factory(FactoryError::ProtocolFeeBelowMinimum));
        }
        let total_bps: u64 = agent_fee_bps as u64 + protocol_fee_bps as u64;
        if total_bps > crate::vault::BPS_DENOMINATOR {
            return Err(ProvisionError::Factory(FactoryError::TotalFeesExceed100Percent));
        }
        let next_count = match self.agent_count.checked_add(1) {
            Some(c) => c,
            None => return Err(ProvisionError::Factory(FactoryError::ArithmeticOverflow)),
        };
        let (vault, _vault_entry) = match VaultState::initialize(
            vault_key,
            operator,
            arbitrator,
            self.protocol_treasury,
            agent_fee_bps,
            protocol_fee_bps,
            max_tvl,
            lockup_epochs,
            epoch_length,
            now,
        ) {
            Ok(v) => v,
            Err(e) => return Err(ProvisionError::Vault(e)),
        };
        let (registry, _registry_entry) = RegistryState::initialize_registry(
            registry_key,
            vault_key,
            operator,
            self.protocol_treasury,
            challenge_window,
        );
        let agent_id = self.agent_count;
        let entry = AgentCreated {
            factory: self.key,
            agent_id,
            operator,
            vault: vault_key,
            registry: registry_key,
            name: clone_bytes(&name),
            endpoint_url: clone_bytes(&endpoint_url),
        };
        let metadata = AgentMetadata {
            factory: self.key,
            operator,
            vault: vault_key,
            registry: registry_key,
            name,
            github_handle,
            endpoint_url,
            agent_id,
            created_at: now,
            is_active: true,
        };
        self.agent_count = next_count;
        Ok((metadata, vault, registry, entry))
    }
}

/// Byte-for-byte copy of a byte string.
fn clone_bytes(v: &Vec<u8>) -> (r: Vec<u8>)
    ensures
        r@ == v@,
{
    let mut out: Vec<u8> = Vec::new();
    let mut i: usize = 0;
    while i < v.len()
        invariant
            i <= v.len(),
            out@ == v@.subrange(0, i as int),
        decreases v.len() - i,
    {
        out.push(v[i]);
        i = i + 1;
    }
    proof {
        assert(out@ == v@);
    }
    out
}

/// Decision of `update_agent`: which fields change on success, the exact
/// refusal otherwise. Only the operator, only while active; a single
/// over-long field refuses the whole update.
pub open spec fn update_agent_check(
    metadata: AgentMetadata,
    caller: AccountId,
    name: Option<Seq<u8>>,
    github_handle: Option<Seq<u8>>,
    endpoint_url: Option<Seq<u8>>,
) -> Result<(), FactoryError> {
    if caller != metadata.operator {
        Err(FactoryError::Unauthorized)
    } else if !metadata.is_active {
        Err(FactoryError::AgentAlreadyInactive)
    } else if name matches Some(n) && n.len() > MAX_NAME_LEN {
        Err(FactoryError::NameTooLong)
    } else if github_handle matches Some(h) && h.len() > MAX_HANDLE_LEN {
        Err(FactoryError::GitHubHandleTooLong)
    } else if endpoint_url matches Some(u) && u.len() > MAX_URL_LEN {
        Err(FactoryError::EndpointUrlTooLong)
    } else {
        Ok(())
    }
}

impl AgentMetadata {
    /// Operator replaces any of the three text fields of an active
    /// agent. A refusal — even of one over-long field — changes nothing.
    pub fn update_agent(
        &mut self,
        caller: AccountId,
        name: Option<Vec<u8>>,
        github_handle: Option<Vec<u8>>,
        endpoint_url: Option<Vec<u8>>,
    ) -> (r: Result<AgentUpdated, FactoryError>)
        ensures
            (match update_agent_check(
                *old(self),
                caller,
                match name {
                    Some(n) => Some(n@),
                    None => None,
                },
                match github_handle {
                    Some(h) => Some(h@),
                    None => None,
                },
                match endpoint_url {
                    Some(u) => Some(u@),
                    None => None,
                },
            ) {
                Ok(()) => {
                    &&& final(self).name@ == (match name {
                        Some(n) => n@,
                        None => old(self).name@,
                    })
                    &&& final(self).github_handle@ == (match github_handle {
                        Some(h) => h@,
                        None => old(self).github_handle@,
                    })
                    &&& final(self).endpoint_url@ == (match endpoint_url {
                        Some(u) => u@,
                        None => old(self).endpoint_url@,
                    })
                    &&& final(self).factory == old(self).factory
                    &&& final(self).operator == old(self).operator
                    &&& final(self).vault == old(self).vault
                    &&& final(self).registry == old(self).registry
                    &&& final(self).agent_id == old(self).agent_id
                    &&& final(self).created_at == old(self).created_at
                    &&& final(self).is_active == old(self).is_active
                    &&& r matches Ok(entry) && entry.agent_id == old(self).agent_id
                        && entry.operator == old(self).operator && entry.name@
                        == final(self).name@ && entry.endpoint_url@ == final(self).endpoint_url@
                },
                Err(e) => {
                    &&& r matches Err(ee) && ee == e
                    &&& *final(self) == *old(self)
                },
            }),
    {
        if caller != self.operator {
            return Err(FactoryError::Unauthorized);
        }
        if !self.is_active {
            return Err(FactoryError::AgentAlreadyInactive);
        }
        if let Some(n) = &name {
            if n.len() > MAX_NAME_LEN {
                return Err(FactoryError::NameTooLong);
            }
        }
        if let Some(h) = &github_handle {
            if h.len() > MAX_HANDLE_LEN {
                return Err(FactoryError::GitHubHandleTooLong);
            }
        }
        if let Some(u) = &endpoint_url {
            if u.len() > MAX_URL_LEN {
                return Err(FactoryError::EndpointUrlTooLong);
            }
        }
        if let Some(n) = name {
            self.name = n;
        }
        if let Some(h) = github_handle {
            self.github_handle = h;
        }
        if let Some(u) = endpoint_url {
            self.endpoint_url = u;
        }
        let entry = AgentUpdated {
            agent_id: self.agent_id,
            operator: self.operator,
            name: clone_bytes(&self.name),
            endpoint_url: clone_bytes(&self.endpoint_url),
        };
        Ok(entry)
    }

    /// Operator retires an active agent; the record stays, marked
    /// inactive, and cannot be updated further.
    pub fn deactivate_agent(&mut self, caller: AccountId) -> (r: Result<
        AgentDeactivated,
        FactoryError,
    >)
        ensures
            caller != old(self).operator ==> (r matches Err(e) && e == FactoryError::Unauthorized
                && *final(self) == *old(self)),
            caller == old(self).operator && !old(self).is_active ==> (r matches Err(e) && e
                == FactoryError::AgentAlreadyInactive && *final(self) == *old(self)),
            caller == old(self).operator && old(self).is_active ==> {
                &&& r matches Ok(entry) && entry == (AgentDeactivated {
                    agent_id: old(self).agent_id,
                    operator: old(self).operator,
                })
                &&& !final(self).is_active
                &&& final(self).factory == old(self).factory
                &&& final(self).operator == old(self).operator
                &&& final(self).vault == old(self).vault
                &&& final(self).registry == old(self).registry
                &&& final(self).name@ == old(self).name@
                &&& final(self).github_handle@ == old(self).github_handle@
                &&& final(self).endpoint_url@ == old(self).endpoint_url@
                &&& final(self).agent_id == old(self).agent_id
                &&& final(self).created_at == old(self).created_at
            },
    {
        if caller != self.operator {
            return Err(FactoryError::Unauthorized);
        }
        if !self.is_active {
            return Err(FactoryError::AgentAlreadyInactive);
        }
        self.is_active = false;
        Ok(AgentDeactivated { agent_id: self.agent_id, operator: self.operator })
    }
}

} // verus!
