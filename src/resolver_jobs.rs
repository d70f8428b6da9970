//! Resolver jobs: a resolver stakes on a cross-ledger swap job, trusted
//! relayers vouch for the counterparty escrow, the resolver deploys and
//! executes, and the job ends completed (stake returned), failed (stake
//! kept) or cancelled.
use vstd::prelude::*;
use crate::keyed_store::KeyedStore;
use crate::primitives::{
    AccountId, Balance, CallContext, Hash32, Timestamp, all_zero, append_bytes, append_u64,
    blake2x256, blake2x256_of, bytes32_eq, hash_of_secret, hash_secret, is_zero32, le_u64,
};
use crate::settlement::Transfer;

verus! {

/// Which way a swap runs.
#[derive(Clone, Copy, Debug, PartialEq, Eq)]
pub enum SwapDirection {
    EthereumToPolkadot,
    PolkadotToEthereum,
}

/// Evidence that the counterparty escrow was deployed on the other ledger.
#[derive(Clone, Debug, PartialEq, Eq)]
pub struct EthereumEscrowProof {
    pub escrow_address: [u8; 20],
    pub block_hash: [u8; 32],
    pub block_number: u64,
    pub tx_hash: [u8; 32],
    pub merkle_proof: Vec<[u8; 32]>,
}

/// Where a job stands.
#[derive(Clone, Copy, Debug, PartialEq, Eq)]
pub enum JobStatus {
    Pending,
    EthereumDeployed,
    PolkadotDeployed,
    Executing,
    Completed,
    Failed,
    Cancelled,
}

/// A resolver's job on one swap.
#[derive(Clone, Debug, PartialEq, Eq)]
pub struct ResolverJob {
    pub job_id: [u8; 32],
    pub polkadot_order_hash: [u8; 32],
    pub ethereum_order_hash: [u8; 32],
    pub direction: SwapDirection,
    pub hash_lock: [u8; 32],
    pub secret: Option<[u8; 32]>,
    pub resolver: AccountId,
    pub maker: AccountId,
    pub status: JobStatus,
    pub ethereum_escrow_proof: Option<EthereumEscrowProof>,
    pub created_at: Timestamp,
    pub deadline: Timestamp,
    pub stake_amount: Balance,
}

/// A job was created.
#[derive(Clone, Copy, Debug, PartialEq, Eq)]
pub struct JobCreated {
    pub job_id: [u8; 32],
    pub resolver: AccountId,
    pub direction: SwapDirection,
    pub polkadot_order_hash: [u8; 32],
    pub ethereum_order_hash: [u8; 32],
}

/// A relayer's proof of the counterparty escrow was accepted.
#[derive(Clone, Copy, Debug, PartialEq, Eq)]
pub struct EthereumEscrowVerified {
    pub job_id: [u8; 32],
    pub escrow_address: [u8; 20],
    pub block_number: u64,
}

/// The resolver revealed the secret.
#[derive(Clone, Copy, Debug, PartialEq, Eq)]
pub struct SwapExecuted {
    pub job_id: [u8; 32],
    pub secret_revealed: [u8; 32],
}

/// A relayer reported the job's outcome.
#[derive(Clone, Copy, Debug, PartialEq, Eq)]
pub struct JobCompleted {
    pub job_id: [u8; 32],
    pub success: bool,
}

/// One entry of the jobs' audit log.
#[derive(Clone, Copy, Debug, PartialEq, Eq)]
pub enum JobEvent {
    JobCreated(JobCreated),
    EthereumEscrowVerified(EthereumEscrowVerified),
    SwapExecuted(SwapExecuted),
    JobCompleted(JobCompleted),
}

/// Why a message was refused.
#[derive(Clone, Copy, Debug, PartialEq, Eq)]
pub enum Error {
    JobNotFound,
    InvalidJobStatus,
    Unauthorized,
    OnlyResolver,
    OnlyOwner,
    DeadlineExpired,
    InvalidProof,
    InvalidSecret,
    InsufficientStake,
    EscrowContractError,
    RelayerNotTrusted,
    ArithmeticOverflow,
}

/// The jobs' state, as a mathematical value.
pub struct JobsView {
    pub jobs: Map<Hash32, ResolverJob>,
    pub active_resolvers: Map<AccountId, bool>,
    pub escrow_contract: AccountId,
    pub trusted_relayers: Map<AccountId, bool>,
    pub ethereum_block_confirmations: u32,
    pub owner: AccountId,
    pub min_stake: Balance,
    pub job_timeout: u64,
    pub job_nonce: u64,
    pub total_jobs_completed: u64,
    pub transfers: Seq<Transfer>,
    pub events: Seq<JobEvent>,
}

/// Coordinates resolver jobs.
pub struct PolkadotResolver {
    jobs: KeyedStore<Hash32, ResolverJob>,
    active_resolvers: KeyedStore<AccountId, bool>,
    escrow_contract: AccountId,
    trusted_relayers: KeyedStore<AccountId, bool>,
    ethereum_block_confirmations: u32,
    owner: AccountId,
    min_stake: Balance,
    job_timeout: u64,
    job_nonce: u64,
    total_jobs_completed: u64,
    transfers: Vec<Transfer>,
    events: Vec<JobEvent>,
}

impl View for PolkadotResolver {
    type V = JobsView;

    closed spec fn view(&self) -> JobsView {
        JobsView {
            jobs: self.jobs@,
            active_resolvers: self.active_resolvers@,
            escrow_contract: self.escrow_contract,
            trusted_relayers: self.trusted_relayers@,
            ethereum_block_confirmations: self.ethereum_block_confirmations,
            owner: self.owner,
            min_stake: self.min_stake,
            job_timeout: self.job_timeout,
            job_nonce: self.job_nonce,
            total_jobs_completed: self.total_jobs_completed,
            transfers: self.transfers@,
            events: self.events@,
        }
    }
}

/// Whether `who` is a trusted relayer.
pub open spec fn trusted(v: JobsView, who: AccountId) -> bool {
    v.trusted_relayers.contains_key(who) && v.trusted_relayers[who]
}

/// Whether a proof passes the basic checks: a real block and a non-zero
/// escrow address.
pub open spec fn proof_acceptable(p: EthereumEscrowProof) -> bool {
    p.block_number != 0 && !all_zero(p.escrow_address@)
}

/// A job whose counterparty escrow was vouched for carries the proof.
pub open spec fn deployed_jobs_have_proof(v: JobsView) -> bool {
    forall|id: Hash32| #[trigger]
        v.jobs.contains_key(id) && v.jobs[id].status is EthereumDeployed
            ==> v.jobs[id].ethereum_escrow_proof is Some
}

/// Whether a job can no longer move.
pub open spec fn job_finished(s: JobStatus) -> bool {
    s is Completed || s is Failed || s is Cancelled
}

/// The bytes a job id is computed from.
pub open spec fn job_seed(
    polkadot_order_hash: Hash32,
    ethereum_order_hash: Hash32,
    resolver: AccountId,
    now: Timestamp,
    nonce: u64,
) -> Seq<u8> {
    polkadot_order_hash@ + ethereum_order_hash@ + resolver@ + le_u64(now) + le_u64(nonce)
}

/// The job that `create_job` records.
pub open spec fn created_job(
    v: JobsView,
    ctx: CallContext,
    polkadot_order_hash: Hash32,
    ethereum_order_hash: Hash32,
    direction: SwapDirection,
    hash_lock: Hash32,
    deadline: Timestamp,
) -> ResolverJob {
    ResolverJob {
        job_id: blake2x256_of(
            job_seed(polkadot_order_hash, ethereum_order_hash, ctx.caller, ctx.now, v.job_nonce),
        ),
        polkadot_order_hash,
        ethereum_order_hash,
        direction,
        hash_lock,
        secret: None,
        resolver: ctx.caller,
        maker: ctx.caller,
        status: JobStatus::Pending,
        ethereum_escrow_proof: None,
        created_at: ctx.now,
        deadline,
        stake_amount: ctx.transferred,
    }
}

/// Why `submit_ethereum_proof` refuses, if it does.
pub open spec fn submit_proof_error(v: JobsView, ctx: CallContext, job_id: Hash32, escrow_proof: EthereumEscrowProof) -> Option<Error> {
    if !trusted(v, ctx.caller) {
        Some(Error::RelayerNotTrusted)
    } else if !v.jobs.contains_key(job_id) {
        Some(Error::JobNotFound)
    } else if !(v.jobs[job_id].status is Pending) {
        Some(Error::InvalidJobStatus)
    } else if !proof_acceptable(escrow_proof) {
        Some(Error::InvalidProof)
    } else {
        None
    }
}

/// Why a resolver's step on a job refuses, if it does: the job must exist,
/// the caller must be its resolver and the job must be in `expected`.
pub open spec fn resolver_step_error(v: JobsView, ctx: CallContext, job_id: Hash32, expected: JobStatus) -> Option<Error> {
    if !v.jobs.contains_key(job_id) {
        Some(Error::JobNotFound)
    } else if ctx.caller != v.jobs[job_id].resolver {
        Some(Error::OnlyResolver)
    } else if v.jobs[job_id].status != expected {
        Some(Error::InvalidJobStatus)
    } else {
        None
    }
}

/// Why `complete_job` refuses, if it does.
pub open spec fn complete_error(v: JobsView, ctx: CallContext, job_id: Hash32, success: bool) -> Option<Error> {
    if !trusted(v, ctx.caller) {
        Some(Error::RelayerNotTrusted)
    } else if !v.jobs.contains_key(job_id) {
        Some(Error::JobNotFound)
    } else if !(v.jobs[job_id].status is Executing) {
        Some(Error::InvalidJobStatus)
    } else if success && v.total_jobs_completed == u64::MAX {
        Some(Error::ArithmeticOverflow)
    } else {
        None
    }
}

/// Why `cancel_job` refuses, if it does.
pub open spec fn cancel_job_error(v: JobsView, ctx: CallContext, job_id: Hash32) -> Option<Error> {
    let job = v.jobs[job_id];
    if !v.jobs.contains_key(job_id) {
        Some(Error::JobNotFound)
    } else if job_finished(job.status) {
        Some(Error::InvalidJobStatus)
    } else if !(ctx.caller == job.resolver || ctx.now > job.deadline || trusted(v, ctx.caller)) {
        Some(Error::Unauthorized)
    } else {
        None
    }
}

/// Whether a cancellation returns the stake: unless the resolver itself
/// gives up before the deadline.
pub open spec fn cancel_refunds_stake(job: ResolverJob, ctx: CallContext) -> bool {
    ctx.now > job.deadline || ctx.caller != job.resolver
}

impl PolkadotResolver {
    /// The stores' invariants, and proofs held by vouched-for jobs.
    pub closed spec fn wf(&self) -> bool {
        &&& self.jobs.wf()
        &&& self.active_resolvers.wf()
        &&& self.trusted_relayers.wf()
        &&& deployed_jobs_have_proof(self@)
    }

    /// A job coordinator owned by `owner`.
    pub fn new(
        owner: AccountId,
        escrow_contract: AccountId,
        min_stake: Balance,
        job_timeout: u64,
        ethereum_block_confirmations: u32,
    ) -> (r: Self)
        ensures
            r.wf(),
            r@ == (JobsView {
                jobs: Map::empty(),
                active_resolvers: Map::empty(),
                escrow_contract,
                trusted_relayers: Map::empty(),
                ethereum_block_confirmations,
                owner,
                min_stake,
                job_timeout,
                job_nonce: 0,
                total_jobs_completed: 0,
                transfers: Seq::empty(),
                events: Seq::empty(),
            }),
    {
        PolkadotResolver {
            jobs: KeyedStore::new(),
            active_resolvers: KeyedStore::new(),
            escrow_contract,
            trusted_relayers: KeyedStore::new(),
            ethereum_block_confirmations,
            owner,
            min_stake,
            job_timeout,
            job_nonce: 0,
            total_jobs_completed: 0,
            transfers: Vec::new(),
            events: Vec::new(),
        }
    }

    /// Computes a job's id.
    pub fn job_id(
        polkadot_order_hash: &Hash32,
        ethereum_order_hash: &Hash32,
        resolver: &AccountId,
        now: Timestamp,
        nonce: u64,
    ) -> (r: Hash32)
        ensures
            r == blake2x256_of(job_seed(*polkadot_order_hash, *ethereum_order_hash, *resolver, now, nonce)),
    {
        let mut seed: Vec<u8> = Vec::new();
        append_bytes(&mut seed, polkadot_order_hash.as_slice());
        append_bytes(&mut seed, ethereum_order_hash.as_slice());
        append_bytes(&mut seed, resolver.as_slice());
        append_u64(&mut seed, now);
        append_u64(&mut seed, nonce);
        assert(seed@ =~= job_seed(*polkadot_order_hash, *ethereum_order_hash, *resolver, now, nonce));
        blake2x256(seed.as_slice())
    }

    /// Opens a job staked with the value sent; the caller is its resolver.
    pub fn create_job(
        &mut self,
        ctx: &CallContext,
        polkadot_order_hash: [u8; 32],
        ethereum_order_hash: [u8; 32],
        direction: SwapDirection,
        hash_lock: [u8; 32],
        deadline: Timestamp,
    ) -> (r: Result<[u8; 32], Error>)
        requires
            old(self).wf(),
        ensures
            final(self).wf(),
            ctx.transferred < old(self)@.min_stake ==> r == Err::<Hash32, Error>(Error::InsufficientStake)
                && final(self)@ == old(self)@,
            ctx.transferred >= old(self)@.min_stake && old(self)@.job_nonce == u64::MAX ==> r == Err::<
                Hash32,
                Error,
            >(Error::ArithmeticOverflow) && final(self)@ == old(self)@,
            ctx.transferred >= old(self)@.min_stake && old(self)@.job_nonce < u64::MAX ==> {
                let job = created_job(
                    old(self)@,
                    *ctx,
                    polkadot_order_hash,
                    ethereum_order_hash,
                    direction,
                    hash_lock,
                    deadline,
                );
                &&& r == Ok::<Hash32, Error>(job.job_id)
                &&& final(self)@ == (JobsView {
                    jobs: old(self)@.jobs.insert(job.job_id, job),
                    job_nonce: (old(self)@.job_nonce + 1) as u64,
                    events: old(self)@.events.push(
                        JobEvent::JobCreated(
                            JobCreated {
                                job_id: job.job_id,
                                resolver: ctx.caller,
                                direction,
                                polkadot_order_hash,
                                ethereum_order_hash,
                            },
                        ),
                    ),
                    ..old(self)@
                })
            },
    {
        let caller = ctx.caller;
        let stake = ctx.transferred;
        if stake < self.min_stake {
            return Err(Error::InsufficientStake);
        }
        let next_nonce = match self.job_nonce.checked_add(1) {
            Some(n) => n,
            None => return Err(Error::ArithmeticOverflow),
        };
        let job_id = Self::job_id(
            &polkadot_order_hash,
            &ethereum_order_hash,
            &caller,
            ctx.now,
            self.job_nonce,
        );
        let job = ResolverJob {
            job_id,
            polkadot_order_hash,
            ethereum_order_hash,
            direction,
            hash_lock,
            secret: None,
            resolver: caller,
            maker: caller,
            status: JobStatus::Pending,
            ethereum_escrow_proof: None,
            created_at: ctx.now,
            deadline,
            stake_amount: stake,
        };
        self.jobs.insert(job_id, job);
        self.job_nonce = next_nonce;
        self.events.push(
            JobEvent::JobCreated(
                JobCreated { job_id, resolver: caller, direction, polkadot_order_hash, ethereum_order_hash },
            ),
        );
        Ok(job_id)
    }

    fn is_trusted(&self, who: &AccountId) -> (r: bool)
        requires
            self.wf(),
        ensures
            r == trusted(self@, *who),
    {
        match self.trusted_relayers.get(who) {
            Some(b) => b,
            None => false,
        }
    }

    /// Checks a counterparty-escrow proof: the block must be a real one and
    /// the escrow address non-zero.
    pub fn verify_ethereum_escrow_proof(&self, candidate: &EthereumEscrowProof) -> (r: Result<bool, Error>)
        ensures
            r == Ok::<bool, Error>(proof_acceptable(*candidate)),
    {
        if candidate.block_number == 0 {
            return Ok(false);
        }
        let mut padded = [0u8; 32];
        let mut i: usize = 0;
        while i < 20
            invariant
                0 <= i <= 20,
                padded@.len() == 32,
                candidate.escrow_address@.len() == 20,
                forall|j: int| 0 <= j < i ==> padded@[j] == candidate.escrow_address@[j],
                forall|j: int| i <= j < 32 ==> padded@[j] == 0,
            decreases 20 - i,
        {
            padded[i] = candidate.escrow_address[i];
            i = i + 1;
        }
        let zero = is_zero32(&padded);
        assert(zero == all_zero(candidate.escrow_address@)) by {
            if all_zero(candidate.escrow_address@) {
                assert(all_zero(padded@));
            }
            if all_zero(padded@) {
                assert forall|j: int| 0 <= j < candidate.escrow_address@.len() implies candidate.escrow_address@[j]
                    == 0 by {
                    assert(padded@[j] == 0);
                }
            }
        }
        Ok(!zero)
    }

    /// Records a trusted relayer's proof that the counterparty escrow exists.
    pub fn submit_ethereum_proof(&mut self, ctx: &CallContext, job_id: [u8; 32], escrow_proof: EthereumEscrowProof) -> (r:
        Result<(), Error>)
        requires
            old(self).wf(),
        ensures
            final(self).wf(),
            match submit_proof_error(old(self)@, *ctx, job_id, escrow_proof) {
                Some(e) => r == Err::<(), Error>(e) && final(self)@ == old(self)@,
                None => r == Ok::<(), Error>(()) && final(self)@ == (JobsView {
                    jobs: old(self)@.jobs.insert(
                        job_id,
                        ResolverJob {
                            ethereum_escrow_proof: Some(escrow_proof),
                            status: JobStatus::EthereumDeployed,
                            ..old(self)@.jobs[job_id]
                        },
                    ),
                    events: old(self)@.events.push(
                        JobEvent::EthereumEscrowVerified(
                            EthereumEscrowVerified {
                                job_id,
                                escrow_address: escrow_proof.escrow_address,
                                block_number: escrow_proof.block_number,
                            },
                        ),
                    ),
                    ..old(self)@
                }),
            },
    {
        if !self.is_trusted(&ctx.caller) {
            return Err(Error::RelayerNotTrusted);
        }
        match self.jobs.get_ref(&job_id) {
            Some(job) => {
                if !matches!(job.status, JobStatus::Pending) {
                    return Err(Error::InvalidJobStatus);
                }
            },
            None => return Err(Error::JobNotFound),
        }
        if !self.verify_ethereum_escrow_proof(&escrow_proof)? {
            return Err(Error::InvalidProof);
        }
        let escrow_address = escrow_proof.escrow_address;
        let block_number = escrow_proof.block_number;
        let mut job = match self.jobs.take(&job_id) {
            Some(j) => j,
            None => return Err(Error::JobNotFound),
        };
        job.ethereum_escrow_proof = Some(escrow_proof);
        job.status = JobStatus::EthereumDeployed;
        self.jobs.insert(job_id, job);
        proof {
            assert(self@.jobs =~= old(self)@.jobs.insert(job_id, self@.jobs[job_id]));
        }
        self.events.push(
            JobEvent::EthereumEscrowVerified(
                EthereumEscrowVerified { job_id, escrow_address, block_number },
            ),
        );
        Ok(())
    }

    /// Asks the escrow contract to deploy the escrow of an order; the
    /// escrow contract is on this ledger and accepts every request.
    fn call_escrow_deploy(
        &self,
        _order_hash: [u8; 32],
        _resolver: AccountId,
        _hash_lock: [u8; 32],
        _ethereum_escrow: [u8; 20],
    ) -> (r: Result<bool, Error>)
        ensures
            r == Ok::<bool, Error>(true),
    {
        Ok(true)
    }

    /// Asks the escrow contract to execute an order with its secret; it
    /// accepts every request.
    fn call_escrow_execute(&self, _order_hash: [u8; 32], _secret: [u8; 32]) -> (r: Result<bool, Error>)
        ensures
            r == Ok::<bool, Error>(true),
    {
        Ok(true)
    }

    /// The resolver deploys this ledger's escrow once the counterparty one
    /// was vouched for.
    pub fn deploy_polkadot_escrow(&mut self, ctx: &CallContext, job_id: [u8; 32]) -> (r: Result<(), Error>)
        requires
            old(self).wf(),
        ensures
            final(self).wf(),
            match resolver_step_error(old(self)@, *ctx, job_id, JobStatus::EthereumDeployed) {
                Some(e) => r == Err::<(), Error>(e) && final(self)@ == old(self)@,
                None => r == Ok::<(), Error>(()) && final(self)@ == (JobsView {
                    jobs: old(self)@.jobs.insert(
                        job_id,
                        ResolverJob { status: JobStatus::PolkadotDeployed, ..old(self)@.jobs[job_id] },
                    ),
                    ..old(self)@
                }),
            },
    {
        let (order_hash, resolver, hash_lock, escrow_address) = match self.jobs.get_ref(&job_id) {
            Some(job) => {
                if !bytes32_eq(&ctx.caller, &job.resolver) {
                    return Err(Error::OnlyResolver);
                }
                if !matches!(job.status, JobStatus::EthereumDeployed) {
                    return Err(Error::InvalidJobStatus);
                }
                let escrow_address = match &job.ethereum_escrow_proof {
                    Some(p) => p.escrow_address,
                    None => return Err(Error::InvalidJobStatus),
                };
                (job.polkadot_order_hash, job.resolver, job.hash_lock, escrow_address)
            },
            None => return Err(Error::JobNotFound),
        };
        let deploy_result = self.call_escrow_deploy(order_hash, resolver, hash_lock, escrow_address)?;
        if deploy_result {
            let mut job = match self.jobs.take(&job_id) {
                Some(j) => j,
                None => return Err(Error::JobNotFound),
            };
            job.status = JobStatus::PolkadotDeployed;
            self.jobs.insert(job_id, job);
            proof {
                assert(self@.jobs =~= old(self)@.jobs.insert(job_id, self@.jobs[job_id]));
            }
        }
        Ok(())
    }

    /// The resolver reveals the secret and executes the swap.
    pub fn execute_swap(&mut self, ctx: &CallContext, job_id: [u8; 32], secret: [u8; 32]) -> (r: Result<
        (),
        Error,
    >)
        requires
            old(self).wf(),
        ensures
            final(self).wf(),
            match resolver_step_error(old(self)@, *ctx, job_id, JobStatus::PolkadotDeployed) {
                Some(e) => r == Err::<(), Error>(e) && final(self)@ == old(self)@,
                None => if hash_of_secret(secret) != old(self)@.jobs[job_id].hash_lock {
                    r == Err::<(), Error>(Error::InvalidSecret) && final(self)@ == old(self)@
                } else {
                    r == Ok::<(), Error>(()) && final(self)@ == (JobsView {
                        jobs: old(self)@.jobs.insert(
                            job_id,
                            ResolverJob {
                                secret: Some(secret),
                                status: JobStatus::Executing,
                                ..old(self)@.jobs[job_id]
                            },
                        ),
                        events: old(self)@.events.push(
                            JobEvent::SwapExecuted(SwapExecuted { job_id, secret_revealed: secret }),
                        ),
                        ..old(self)@
                    })
                },
            },
    {
        let order_hash = match self.jobs.get_ref(&job_id) {
            Some(job) => {
                if !bytes32_eq(&ctx.caller, &job.resolver) {
                    return Err(Error::OnlyResolver);
                }
                if !matches!(job.status, JobStatus::PolkadotDeployed) {
                    return Err(Error::InvalidJobStatus);
                }
                let computed_hash = hash_secret(&secret);
                if !bytes32_eq(&computed_hash, &job.hash_lock) {
                    return Err(Error::InvalidSecret);
                }
                job.polkadot_order_hash
            },
            None => return Err(Error::JobNotFound),
        };
        let execute_result = self.call_escrow_execute(order_hash, secret)?;
        if execute_result {
            let mut job = match self.jobs.take(&job_id) {
                Some(j) => j,
                None => return Err(Error::JobNotFound),
            };
            job.secret = Some(secret);
            job.status = JobStatus::Executing;
            self.jobs.insert(job_id, job);
            proof {
                assert(self@.jobs =~= old(self)@.jobs.insert(job_id, self@.jobs[job_id]));
            }
            self.events.push(JobEvent::SwapExecuted(SwapExecuted { job_id, secret_revealed: secret }));
        }
        Ok(())
    }

    /// A trusted relayer reports the outcome of an executing job: success
    /// returns the stake to the resolver, failure keeps it.
    pub fn complete_job(&mut self, ctx: &CallContext, job_id: [u8; 32], success: bool) -> (r: Result<
        (),
        Error,
    >)
        requires
            old(self).wf(),
        ensures
            final(self).wf(),
            match complete_error(old(self)@, *ctx, job_id, success) {
                Some(e) => r == Err::<(), Error>(e) && final(self)@ == old(self)@,
                None => {
                    let job = old(self)@.jobs[job_id];
                    &&& r == Ok::<(), Error>(())
                    &&& final(self)@ == (JobsView {
                        jobs: old(self)@.jobs.insert(
                            job_id,
                            ResolverJob {
                                status: if success {
                                    JobStatus::Completed
                                } else {
                                    JobStatus::Failed
                                },
                                ..job
                            },
                        ),
                        total_jobs_completed: if success {
                            (old(self)@.total_jobs_completed + 1) as u64
                        } else {
                            old(self)@.total_jobs_completed
                        },
                        transfers: if success {
                            old(self)@.transfers.push(
                                Transfer { to: job.resolver, amount: job.stake_amount },
                            )
                        } else {
                            old(self)@.transfers
                        },
                        events: old(self)@.events.push(
                            JobEvent::JobCompleted(JobCompleted { job_id, success }),
                        ),
                        ..old(self)@
                    })
                },
            },
    {
        if !self.is_trusted(&ctx.caller) {
            return Err(Error::RelayerNotTrusted);
        }
        match self.jobs.get_ref(&job_id) {
            Some(job) => {
                if !matches!(job.status, JobStatus::Executing) {
                    return Err(Error::InvalidJobStatus);
                }
            },
            None => return Err(Error::JobNotFound),
        }
        if success && self.total_jobs_completed == u64::MAX {
            return Err(Error::ArithmeticOverflow);
        }
        let mut job = match self.jobs.take(&job_id) {
            Some(j) => j,
            None => return Err(Error::JobNotFound),
        };
        if success {
            job.status = JobStatus::Completed;
            self.total_jobs_completed = self.total_jobs_completed + 1;
            self.transfers.push(Transfer { to: job.resolver, amount: job.stake_amount });
        } else {
            job.status = JobStatus::Failed;
        }
        self.jobs.insert(job_id, job);
        proof {
            assert(self@.jobs =~= old(self)@.jobs.insert(job_id, self@.jobs[job_id]));
        }
        self.events.push(JobEvent::JobCompleted(JobCompleted { job_id, success }));
        Ok(())
    }

    /// Cancels an unfinished job: its resolver, a trusted relayer, or anyone
    /// after the deadline may. The stake goes back unless the resolver gave
    /// up before the deadline.
    pub fn cancel_job(&mut self, ctx: &CallContext, job_id: [u8; 32]) -> (r: Result<(), Error>)
        requires
            old(self).wf(),
        ensures
            final(self).wf(),
            match cancel_job_error(old(self)@, *ctx, job_id) {
                Some(e) => r == Err::<(), Error>(e) && final(self)@ == old(self)@,
                None => {
                    let job = old(self)@.jobs[job_id];
                    &&& r == Ok::<(), Error>(())
                    &&& final(self)@ == (JobsView {
                        jobs: old(self)@.jobs.insert(
                            job_id,
                            ResolverJob { status: JobStatus::Cancelled, ..job },
                        ),
                        transfers: if cancel_refunds_stake(job, *ctx) {
                            old(self)@.transfers.push(
                                Transfer { to: job.resolver, amount: job.stake_amount },
                            )
                        } else {
                            old(self)@.transfers
                        },
                        ..old(self)@
                    })
                },
            },
    {
        let (resolver, deadline, stake) = match self.jobs.get_ref(&job_id) {
            Some(job) => {
                if matches!(job.status, JobStatus::Completed | JobStatus::Failed | JobStatus::Cancelled) {
                    return Err(Error::InvalidJobStatus);
                }
                (job.resolver, job.deadline, job.stake_amount)
            },
            None => return Err(Error::JobNotFound),
        };
        let is_resolver = bytes32_eq(&ctx.caller, &resolver);
        let can_cancel = is_resolver || ctx.now > deadline || self.is_trusted(&ctx.caller);
        if !can_cancel {
            return Err(Error::Unauthorized);
        }
        let mut job = match self.jobs.take(&job_id) {
            Some(j) => j,
            None => return Err(Error::JobNotFound),
        };
        if ctx.now > deadline || !is_resolver {
            self.transfers.push(Transfer { to: resolver, amount: stake });
        }
        job.status = JobStatus::Cancelled;
        self.jobs.insert(job_id, job);
        proof {
            assert(self@.jobs =~= old(self)@.jobs.insert(job_id, self@.jobs[job_id]));
        }
        Ok(())
    }

    /// The job with id `job_id`.
    pub fn get_job(&self, job_id: [u8; 32]) -> (r: Option<&ResolverJob>)
        requires
            self.wf(),
        ensures
            match r {
                Some(job) => self@.jobs.contains_key(job_id) && *job == self@.jobs[job_id],
                None => !self@.jobs.contains_key(job_id),
            },
    {
        self.jobs.get_ref(&job_id)
    }

    /// Whether `relayer` is trusted.
    pub fn is_trusted_relayer(&self, relayer: AccountId) -> (r: bool)
        requires
            self.wf(),
        ensures
            r == trusted(self@, relayer),
    {
        self.is_trusted(&relayer)
    }

    /// Trusts `relayer`; owner only.
    pub fn add_trusted_relayer(&mut self, ctx: &CallContext, relayer: AccountId) -> (r: Result<(), Error>)
        requires
            old(self).wf(),
        ensures
            final(self).wf(),
            ctx.caller == old(self)@.owner ==> r == Ok::<(), Error>(()) && final(self)@ == (JobsView {
                trusted_relayers: old(self)@.trusted_relayers.insert(relayer, true),
                ..old(self)@
            }),
            ctx.caller != old(self)@.owner ==> r == Err::<(), Error>(Error::OnlyOwner) && final(self)@
                == old(self)@,
    {
        if !bytes32_eq(&ctx.caller, &self.owner) {
            return Err(Error::OnlyOwner);
        }
        self.trusted_relayers.insert(relayer, true);
        Ok(())
    }

    /// Approves `resolver`; owner only.
    pub fn approve_resolver(&mut self, ctx: &CallContext, resolver: AccountId) -> (r: Result<(), Error>)
        requires
            old(self).wf(),
        ensures
            final(self).wf(),
            ctx.caller == old(self)@.owner ==> r == Ok::<(), Error>(()) && final(self)@ == (JobsView {
                active_resolvers: old(self)@.active_resolvers.insert(resolver, true),
                ..old(self)@
            }),
            ctx.caller != old(self)@.owner ==> r == Err::<(), Error>(Error::OnlyOwner) && final(self)@
                == old(self)@,
    {
        if !bytes32_eq(&ctx.caller, &self.owner) {
            return Err(Error::OnlyOwner);
        }
        self.active_resolvers.insert(resolver, true);
        Ok(())
    }

    /// Hands over the payouts decided so far, oldest first, and forgets them.
    pub fn take_transfers(&mut self) -> (r: Vec<Transfer>)
        requires
            old(self).wf(),
        ensures
            final(self).wf(),
            r@ == old(self)@.transfers,
            final(self)@ == (JobsView { transfers: Seq::empty(), ..old(self)@ }),
    {
        let mut taken = Vec::new();
        std::mem::swap(&mut taken, &mut self.transfers);
        taken
    }

    /// Hands over the events logged so far, oldest first, and forgets them.
    pub fn take_events(&mut self) -> (r: Vec<JobEvent>)
        requires
            old(self).wf(),
        ensures
            final(self).wf(),
            r@ == old(self)@.events,
            final(self)@ == (JobsView { events: Seq::empty(), ..old(self)@ }),
    {
        let mut taken = Vec::new();
        std::mem::swap(&mut taken, &mut self.events);
        taken
    }
}

} // verus!
