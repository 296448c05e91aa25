//! Job-receipt dispute registry.
//!
//! One registry per vault records a receipt for each completed job. A
//! receipt starts Active; within the challenge window the recorded client
//! may challenge it, after which the protocol authority resolves the
//! dispute for or against the agent. Once the window has lapsed
//! unchallenged, anyone may finalize the receipt and payment is final.
//! Resolving against the agent is the external signal that authorizes a
//! later slash; the registry itself never moves funds.
use vstd::prelude::*;

use crate::AccountId;

verus! {

/// Why a registry operation was refused. Every failure leaves the
/// registry and the receipt exactly as they were.
#[derive(Clone, Copy, PartialEq, Eq, Structural, Debug)]
pub enum RegistryError {
    /// The caller does not hold the role the operation demands, or the
    /// receipt does not belong to the registry.
    Unauthorized,
    /// The challenge window has lapsed.
    ChallengeWindowExpired,
    /// The challenge window has not lapsed yet.
    ChallengeWindowActive,
    /// The receipt is not in the Active status.
    JobNotActive,
    /// The receipt is not in the Challenged status.
    JobNotChallenged,
    /// A checked arithmetic step overflowed.
    ArithmeticOverflow,
    /// The client already verified this receipt.
    AlreadyVerified,
}

/// Dispute status of a job receipt. Active may move to Challenged or
/// Finalized; Challenged may move to Resolved or Rejected; Resolved,
/// Rejected and Finalized are terminal.
#[derive(Clone, Copy, PartialEq, Eq, Structural, Debug)]
pub enum JobStatus {
    Active,
    Finalized,
    Challenged,
    Resolved,
    Rejected,
}

/// Per-vault dispute ledger: a never-reused job counter, the fixed
/// challenge window, the identities that gate its operations, and
/// aggregate dispute counters.
#[derive(Clone, Copy, PartialEq, Eq, Structural, Debug)]
pub struct RegistryState {
    /// Ledger key of this registry.
    pub key: AccountId,
    /// The vault this registry serves.
    pub vault: AccountId,
    /// The agent's operator: the only identity that records jobs.
    pub agent_wallet: AccountId,
    /// The only identity that resolves challenges.
    pub protocol_authority: AccountId,
    /// Sequence number the next recorded job receives; never reused.
    pub job_counter: u64,
    /// Seconds after a job's creation during which it may be challenged.
    pub challenge_window: i64,
    /// Number of jobs ever challenged.
    pub total_challenged: u64,
    /// Number of challenges resolved against the agent.
    pub total_resolved_against: u64,
}

/// Record of one completed job. The identity fields, the artifact
/// fingerprint and the payment evidence are fixed at creation; only the
/// status, its timestamps, the challenger and the client's verification
/// flag ever change.
#[derive(Clone, Copy, PartialEq, Eq, Debug)]
pub struct JobReceipt {
    /// The registry this receipt belongs to.
    pub registry: AccountId,
    /// Sequence number assigned at creation.
    pub job_id: u64,
    /// The client who paid for the job; the only identity that may
    /// challenge or verify.
    pub client: AccountId,
    /// Fingerprint of the delivered artifact.
    pub artifact_hash: [u8; 32],
    /// Amount the client paid.
    pub payment_amount: u64,
    /// Proof of the payment on the value rail.
    pub payment_tx: [u8; 64],
    /// Dispute status.
    pub status: JobStatus,
    /// When the job was recorded; the challenge window starts here.
    pub created_at: i64,
    /// When the job was challenged; zero until then.
    pub challenged_at: i64,
    /// When the challenge was resolved; zero until then.
    pub resolved_at: i64,
    /// Who challenged; the zero identity until then.
    pub challenger: AccountId,
    /// Set once by the client, independent of the status.
    pub client_verified: bool,
}

/// Audit entry of a registry creation.
#[derive(Clone, Copy, PartialEq, Eq, Structural, Debug)]
pub struct RegistryInitialized {
    pub vault: AccountId,
    pub agent_wallet: AccountId,
    pub protocol_authority: AccountId,
    pub challenge_window: i64,
}

/// Audit entry of a recorded job.
#[derive(Clone, Copy, PartialEq, Eq, Structural, Debug)]
pub struct JobRecorded {
    pub registry: AccountId,
    pub job_id: u64,
    pub client: AccountId,
    pub payment_amount: u64,
    pub created_at: i64,
}

/// Audit entry of a challenge.
#[derive(Clone, Copy, PartialEq, Eq, Structural, Debug)]
pub struct JobChallenged {
    pub registry: AccountId,
    pub job_id: u64,
    pub challenger: AccountId,
    pub challenged_at: i64,
}

/// Audit entry of a resolution, for or against the agent.
#[derive(Clone, Copy, PartialEq, Eq, Structural, Debug)]
pub struct JobResolved {
    pub registry: AccountId,
    pub job_id: u64,
    pub status: JobStatus,
    pub resolved_at: i64,
}

/// Audit entry of a finalization.
#[derive(Clone, Copy, PartialEq, Eq, Structural, Debug)]
pub struct JobFinalized {
    pub registry: AccountId,
    pub job_id: u64,
    pub finalized_at: i64,
}

/// Audit entry of a client verification.
#[derive(Clone, Copy, PartialEq, Eq, Structural, Debug)]
pub struct ReceiptVerified {
    pub registry: AccountId,
    pub job_id: u64,
    pub client: AccountId,
    pub verified_at: i64,
}

/// The state a newly provisioned registry starts in: counter at zero, no
/// disputes yet.
pub open spec fn fresh_registry(
    key: AccountId,
    vault: AccountId,
    agent_wallet: AccountId,
    protocol_authority: AccountId,
    challenge_window: i64,
) -> RegistryState {
    RegistryState {
        key,
        vault,
        agent_wallet,
        protocol_authority,
        job_counter: 0,
        challenge_window,
        total_challenged: 0,
        total_resolved_against: 0,
    }
}

impl RegistryState {
    /// Creates the registry paired with a vault.
    pub fn initialize_registry(
        key: AccountId,
        vault: AccountId,
        agent_wallet: AccountId,
        protocol_authority: AccountId,
        challenge_window: i64,
    ) -> (r: (RegistryState, RegistryInitialized))
        ensures
            r.0 == fresh_registry(key, vault, agent_wallet, protocol_authority, challenge_window),
            r.1 == (RegistryInitialized {
                vault,
                agent_wallet,
                protocol_authority,
                challenge_window,
            }),
    {
        let registry = RegistryState {
            key,
            vault,
            agent_wallet,
            protocol_authority,
            job_counter: 0,
            challenge_window,
            total_challenged: 0,
            total_resolved_against: 0,
        };
        let entry = RegistryInitialized { vault, agent_wallet, protocol_authority, challenge_window };
        (registry, entry)
    }
}

/// Decision of `record_job`: the sequence number the receipt gets on
/// success, the exact refusal otherwise. Only the agent's operator
/// records, and the counter must not overflow.
pub open spec fn record_job_result(reg: RegistryState, caller: AccountId) -> Result<
    u64,
    RegistryError,
> {
    if caller != reg.agent_wallet {
        Err(RegistryError::Unauthorized)
    } else if reg.job_counter + 1 > u64::MAX {
        Err(RegistryError::ArithmeticOverflow)
    } else {
        Ok(reg.job_counter)
    }
}

/// The receipt a successful `record_job` creates: Active, stamped with
/// the creation time, challenger cleared to the zero identity.
pub open spec fn fresh_receipt(
    reg: RegistryState,
    job_id: u64,
    client: AccountId,
    artifact_hash: [u8; 32],
    payment_amount: u64,
    payment_tx: [u8; 64],
    now: i64,
) -> JobReceipt {
    JobReceipt {
        registry: reg.key,
        job_id,
        client,
        artifact_hash,
        payment_amount,
        payment_tx,
        status: JobStatus::Active,
        created_at: now,
        challenged_at: 0,
        resolved_at: 0,
        challenger: AccountId(0),
        client_verified: false,
    }
}

/// End of a receipt's challenge window on the integers; the window is
/// inclusive of this instant.
pub open spec fn window_end(receipt: JobReceipt, reg: RegistryState) -> int {
    receipt.created_at + reg.challenge_window
}

impl RegistryState {
    /// Agent records a completed job: allocates the next sequence number
    /// and creates the receipt in Active with the window starting at
    /// `now`.
    pub fn record_job(
        &mut self,
        caller: AccountId,
        client: AccountId,
        artifact_hash: [u8; 32],
        payment_amount: u64,
        payment_tx: [u8; 64],
        now: i64,
    ) -> (r: Result<(JobReceipt, JobRecorded), RegistryError>)
        ensures
            (match record_job_result(*old(self), caller) {
                Ok(job_id) => {
                    &&& r matches Ok((receipt, entry))
                    &&& r matches Ok((receipt, entry)) ==> receipt == fresh_receipt(
                        *old(self),
                        job_id,
                        client,
                        artifact_hash,
                        payment_amount,
                        payment_tx,
                        now,
                    ) && entry == (JobRecorded {
                        registry: old(self).key,
                        job_id,
                        client,
                        payment_amount,
                        created_at: now,
                    })
                    &&& *final(self) == (RegistryState {
                        job_counter: (job_id + 1) as u64,
                        ..*old(self)
                    })
                },
                Err(e) => {
                    &&& r matches Err(ee) && ee == e
                    &&& *final(self) == *old(self)
                },
            }),
    {
        if caller != self.agent_wallet {
            return Err(RegistryError::Unauthorized);
        }
        let next_counter = match self.job_counter.checked_add(1) {
            Some(c) => c,
            None => return Err(RegistryError::ArithmeticOverflow),
        };
        let job_id = self.job_counter;
        let receipt = JobReceipt {
            registry: self.key,
            job_id,
            client,
            artifact_hash,
            payment_amount,
            payment_tx,
            status: JobStatus::Active,
            created_at: now,
            challenged_at: 0,
            resolved_at: 0,
            challenger: AccountId(0),
            client_verified: false,
        };
        let entry = JobRecorded {
            registry: self.key,
            job_id,
            client,
            payment_amount,
            created_at: now,
        };
        self.job_counter = next_counter;
        Ok((receipt, entry))
    }
}

/// Decision of `challenge_job`. The receipt must belong to the registry
/// and the caller must be its recorded client; the receipt must still be
/// Active; the window end must fit; `now` must lie at or before the
/// window end (the boundary instant itself may still challenge); and the
/// challenge counter must not overflow.
pub open spec fn challenge_result(
    reg: RegistryState,
    receipt: JobReceipt,
    caller: AccountId,
    now: i64,
) -> Result<(), RegistryError> {
    if receipt.registry != reg.key || caller != receipt.client {
        Err(RegistryError::Unauthorized)
    } else if receipt.status != JobStatus::Active {
        Err(RegistryError::JobNotActive)
    } else if window_end(receipt, reg) > i64::MAX || window_end(receipt, reg) < i64::MIN {
        Err(RegistryError::ArithmeticOverflow)
    } else if now > window_end(receipt, reg) {
        Err(RegistryError::ChallengeWindowExpired)
    } else if reg.total_challenged + 1 > u64::MAX {
        Err(RegistryError::ArithmeticOverflow)
    } else {
        Ok(())
    }
}

/// Decision of `resolve_for_agent` and `resolve_against_agent`. The
/// receipt must belong to the registry, the caller must be the protocol
/// authority, and the receipt must stand Challenged; resolving against
/// the agent additionally must not overflow its counter.
pub open spec fn resolve_result(
    reg: RegistryState,
    receipt: JobReceipt,
    caller: AccountId,
    against: bool,
) -> Result<(), RegistryError> {
    if receipt.registry != reg.key || caller != reg.protocol_authority {
        Err(RegistryError::Unauthorized)
    } else if receipt.status != JobStatus::Challenged {
        Err(RegistryError::JobNotChallenged)
    } else if against && reg.total_resolved_against + 1 > u64::MAX {
        Err(RegistryError::ArithmeticOverflow)
    } else {
        Ok(())
    }
}

/// Decision of `finalize_job`. Anyone may finalize; the receipt must
/// belong to the registry and stand Active, the window end must fit, and
/// `now` must lie strictly after the window end.
pub open spec fn finalize_result(reg: RegistryState, receipt: JobReceipt, now: i64) -> Result<
    (),
    RegistryError,
> {
    if receipt.registry != reg.key {
        Err(RegistryError::Unauthorized)
    } else if receipt.status != JobStatus::Active {
        Err(RegistryError::JobNotActive)
    } else if window_end(receipt, reg) > i64::MAX || window_end(receipt, reg) < i64::MIN {
        Err(RegistryError::ArithmeticOverflow)
    } else if now <= window_end(receipt, reg) {
        Err(RegistryError::ChallengeWindowActive)
    } else {
        Ok(())
    }
}

/// Decision of `verify_receipt`. Only the recorded client, and only once.
pub open spec fn verify_result(receipt: JobReceipt, caller: AccountId) -> Result<
    (),
    RegistryError,
> {
    if caller != receipt.client {
        Err(RegistryError::Unauthorized)
    } else if receipt.client_verified {
        Err(RegistryError::AlreadyVerified)
    } else {
        Ok(())
    }
}

/// Resolved, Rejected and Finalized are terminal: no operation that can
/// change a receipt's status accepts a receipt in one of them, whoever
/// calls and whenever.
pub proof fn lemma_terminal_status_is_final(
    reg: RegistryState,
    receipt: JobReceipt,
    caller: AccountId,
    now: i64,
)
    requires
        receipt.status == JobStatus::Resolved || receipt.status == JobStatus::Rejected
            || receipt.status == JobStatus::Finalized,
    ensures
        challenge_result(reg, receipt, caller, now) is Err,
        resolve_result(reg, receipt, caller, false) is Err,
        resolve_result(reg, receipt, caller, true) is Err,
        finalize_result(reg, receipt, now) is Err,
{
}

impl RegistryState {
    /// Client disputes an Active job at or before the end of the
    /// challenge window: the receipt moves to Challenged, records the
    /// challenger and the time, and the registry counts the dispute.
    pub fn challenge_job(
        &mut self,
        receipt: &mut JobReceipt,
        caller: AccountId,
        _reason_hash: [u8; 32],
        now: i64,
    ) -> (r: Result<JobChallenged, RegistryError>)
        ensures
            (match challenge_result(*old(self), *old(receipt), caller, now) {
                Ok(()) => {
                    &&& r matches Ok(entry) && entry == (JobChallenged {
                        registry: old(receipt).registry,
                        job_id: old(receipt).job_id,
                        challenger: caller,
                        challenged_at: now,
                    })
                    &&& *final(receipt) == (JobReceipt {
                        status: JobStatus::Challenged,
                        challenged_at: now,
                        challenger: caller,
                        ..*old(receipt)
                    })
                    &&& *final(self) == (RegistryState {
                        total_challenged: (old(self).total_challenged + 1) as u64,
                        ..*old(self)
                    })
                },
                Err(e) => {
                    &&& r matches Err(ee) && ee == e
                    &&& *final(self) == *old(self)
                    &&& *final(receipt) == *old(receipt)
                },
            }),
    {
        if receipt.registry != self.key || caller != receipt.client {
            return Err(RegistryError::Unauthorized);
        }
        if !matches!(receipt.status, JobStatus::Active) {
            return Err(RegistryError::JobNotActive);
        }
        let end = match receipt.created_at.checked_add(self.challenge_window) {
            Some(e) => e,
            None => return Err(RegistryError::ArithmeticOverflow),
        };
        if now > end {
            return Err(RegistryError::ChallengeWindowExpired);
        }
        let new_challenged = match self.total_challenged.checked_add(1) {
            Some(c) => c,
            None => return Err(RegistryError::ArithmeticOverflow),
        };
        receipt.status = JobStatus::Challenged;
        receipt.challenged_at = now;
        receipt.challenger = caller;
        self.total_challenged = new_challenged;
        Ok(
            JobChallenged {
                registry: receipt.registry,
                job_id: receipt.job_id,
                challenger: caller,
                challenged_at: now,
            },
        )
    }

    /// Protocol authority clears a Challenged job in the agent's favor:
    /// the receipt moves to Resolved, a terminal status.
    pub fn resolve_for_agent(
        &self,
        receipt: &mut JobReceipt,
        caller: AccountId,
        now: i64,
    ) -> (r: Result<JobResolved, RegistryError>)
        ensures
            (match resolve_result(*self, *old(receipt), caller, false) {
                Ok(()) => {
                    &&& r matches Ok(entry) && entry == (JobResolved {
                        registry: old(receipt).registry,
                        job_id: old(receipt).job_id,
                        status: JobStatus::Resolved,
                        resolved_at: now,
                    })
                    &&& *final(receipt) == (JobReceipt {
                        status: JobStatus::Resolved,
                        resolved_at: now,
                        ..*old(receipt)
                    })
                },
                Err(e) => {
                    &&& r matches Err(ee) && ee == e
                    &&& *final(receipt) == *old(receipt)
                },
            }),
    {
        if receipt.registry != self.key || caller != self.protocol_authority {
            return Err(RegistryError::Unauthorized);
        }
        if !matches!(receipt.status, JobStatus::Challenged) {
            return Err(RegistryError::JobNotChallenged);
        }
        receipt.status = JobStatus::Resolved;
        receipt.resolved_at = now;
        Ok(
            JobResolved {
                registry: receipt.registry,
                job_id: receipt.job_id,
                status: JobStatus::Resolved,
                resolved_at: now,
            },
        )
    }

    /// Protocol authority upholds a challenge: the receipt moves to
    /// Rejected, a terminal status, and the registry counts the adverse
    /// resolution. This is the signal that authorizes a later slash; the
    /// slash itself is a separate call that the caller sequences.
    pub fn resolve_against_agent(
        &mut self,
        receipt: &mut JobReceipt,
        caller: AccountId,
        now: i64,
    ) -> (r: Result<JobResolved, RegistryError>)
        ensures
            (match resolve_result(*old(self), *old(receipt), caller, true) {
                Ok(()) => {
                    &&& r matches Ok(entry) && entry == (JobResolved {
                        registry: old(receipt).registry,
                        job_id: old(receipt).job_id,
                        status: JobStatus::Rejected,
                        resolved_at: now,
                    })
                    &&& *final(receipt) == (JobReceipt {
                        status: JobStatus::Rejected,
                        resolved_at: now,
                        ..*old(receipt)
                    })
                    &&& *final(self) == (RegistryState {
                        total_resolved_against: (old(self).total_resolved_against + 1) as u64,
                        ..*old(self)
                    })
                },
                Err(e) => {
                    &&& r matches Err(ee) && ee == e
                    &&& *final(self) == *old(self)
                    &&& *final(receipt) == *old(receipt)
                },
            }),
    {
        if receipt.registry != self.key || caller != self.protocol_authority {
            return Err(RegistryError::Unauthorized);
        }
        if !matches!(receipt.status, JobStatus::Challenged) {
            return Err(RegistryError::JobNotChallenged);
        }
        let new_against = match self.total_resolved_against.checked_add(1) {
            Some(c) => c,
            None => return Err(RegistryError::ArithmeticOverflow),
        };
        receipt.status = JobStatus::Rejected;
        receipt.resolved_at = now;
        self.total_resolved_against = new_against;
        Ok(
            JobResolved {
                registry: receipt.registry,
                job_id: receipt.job_id,
                status: JobStatus::Rejected,
                resolved_at: now,
            },
        )
    }

    /// Anyone finalizes an Active job once its challenge window has
    /// lapsed: the receipt moves to Finalized, a terminal status, and the
    /// payment stands; no funds move.
    pub fn finalize_job(&self, receipt: &mut JobReceipt, now: i64) -> (r: Result<
        JobFinalized,
        RegistryError,
    >)
        ensures
            (match finalize_result(*self, *old(receipt), now) {
                Ok(()) => {
                    &&& r matches Ok(entry) && entry == (JobFinalized {
                        registry: old(receipt).registry,
                        job_id: old(receipt).job_id,
                        finalized_at: now,
                    })
                    &&& *final(receipt) == (JobReceipt {
                        status: JobStatus::Finalized,
                        ..*old(receipt)
                    })
                },
                Err(e) => {
                    &&& r matches Err(ee) && ee == e
                    &&& *final(receipt) == *old(receipt)
                },
            }),
    {
        if receipt.registry != self.key {
            return Err(RegistryError::Unauthorized);
        }
        if !matches!(receipt.status, JobStatus::Active) {
            return Err(RegistryError::JobNotActive);
        }
        let end = match receipt.created_at.checked_add(self.challenge_window) {
            Some(e) => e,
            None => return Err(RegistryError::ArithmeticOverflow),
        };
        if now <= end {
            return Err(RegistryError::ChallengeWindowActive);
        }
        receipt.status = JobStatus::Finalized;
        Ok(
            JobFinalized {
                registry: receipt.registry,
                job_id: receipt.job_id,
                finalized_at: now,
            },
        )
    }
}

impl JobReceipt {
    /// Client marks the receipt as verified, once, whatever its status;
    /// purely informational.
    pub fn verify_receipt(&mut self, caller: AccountId, now: i64) -> (r: Result<
        ReceiptVerified,
        RegistryError,
    >)
        ensures
            (match verify_result(*old(self), caller) {
                Ok(()) => {
                    &&& r matches Ok(entry) && entry == (ReceiptVerified {
                        registry: old(self).registry,
                        job_id: old(self).job_id,
                        client: caller,
                        verified_at: now,
                    })
                    &&& *final(self) == (JobReceipt { client_verified: true, ..*old(self) })
                },
                Err(e) => {
                    &&& r matches Err(ee) && ee == e
                    &&& *final(self) == *old(self)
                },
            }),
    {
        if caller != self.client {
            return Err(RegistryError::Unauthorized);
        }
        if self.client_verified {
            return Err(RegistryError::AlreadyVerified);
        }
        self.client_verified = true;
        Ok(
            ReceiptVerified {
                registry: self.registry,
                job_id: self.job_id,
                client: caller,
                verified_at: now,
            },
        )
    }
}

} // verus!
