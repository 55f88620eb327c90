//! Liquid-staking pool: accepts stake, mints yield-derivative tokens using
//! a validator-quality multiplier, tracks an exchange rate that rises as
//! rewards are harvested, and manages a delayed-unbonding withdrawal queue.
//!
//! The pool owns the accounting only. Token mint, burn and total supply,
//! the base-asset payouts, and the real staking backend are external
//! collaborators: the derivative token's total supply comes in as a
//! parameter, mint and burn amounts go out in the returned events, and
//! delegation work is handed to the keeper through the pending-intent
//! queues of [`crate::relay`].

use vstd::prelude::*;
use vstd::hash_map::HashMapWithView;
use crate::arith::pair_key;
use crate::arith::sat_mul_u64;
use crate::arith::spec_pair_key;
use crate::arith::spec_sat_mul_u64;
use crate::laws::lemma_protocol_fee_below_rewards;
use crate::registry::ValidatorRegistry;
use crate::relay::PendingIntent;
use crate::relay::PendingQueue;

verus! {

broadcast use vstd::std_specs::hash::group_hash_axioms;

/// Smallest single stake, in motes.
pub const MIN_STAKE: u128 = 100_000_000_000;

/// Eras between an unstake request and its funds becoming claimable.
pub const UNBONDING_DELAY: u64 = 7;

/// Protocol share of harvested rewards, in basis points.
pub const PROTOCOL_FEE_BPS: u64 = 500;

/// Floor of the stake-to-mint multiplier (50% of par).
pub const MIN_MULTIPLIER: u64 = 5000;

/// Ceiling of the stake-to-mint multiplier (150% of par).
pub const MAX_MULTIPLIER: u64 = 15000;

/// Largest single stake, in motes.
pub const MAX_SINGLE_STAKE: u128 = 100_000_000_000_000;

/// Fixed-point scale of base-asset amounts and of the exchange rate.
pub const MOTES_PER_CSPR: u128 = 1_000_000_000;

/// Basis-point denominator.
pub const BASIS_POINTS: u64 = 10000;

/// Lifecycle of a withdrawal request: `Pending` until claimed, `Claimed` is
/// terminal.
#[derive(Clone, Copy, Debug, PartialEq, Eq, Structural)]
pub enum WithdrawalStatus {
    Pending,
    Claimed,
}

/// One unbonding withdrawal. Requests are kept after being claimed (for
/// audit) but leave the owner's pending index.
#[derive(Clone, Copy, Debug, PartialEq, Eq, Structural)]
pub struct WithdrawalRequest {
    pub user: u64,
    /// Base-asset amount to pay out, in motes.
    pub amount: u128,
    /// First era at which the request can be claimed.
    pub unlock_era: u64,
    pub status: WithdrawalStatus,
}

/// Reportable aggregate of the pool's state.
#[derive(Clone, Copy, Debug, PartialEq, Eq, Structural)]
pub struct LiquidStakingStats {
    pub total_staked: u128,
    pub total_pending_withdrawal: u128,
    pub cumulative_rewards: u128,
    pub exchange_rate: u128,
}

/// Event reported by a successful stake; `yscspr_minted` is the amount the
/// derivative token must mint to the staker.
#[derive(Clone, Copy, Debug, PartialEq, Eq, Structural)]
pub struct Staked {
    pub user: u64,
    pub validator: u64,
    pub cspr_amount: u128,
    pub yscspr_minted: u128,
    pub multiplier: u64,
    pub era: u64,
}

/// Event reported by a successful unstake; `yscspr_burned` is the amount
/// the derivative token must burn from the caller.
#[derive(Clone, Copy, Debug, PartialEq, Eq, Structural)]
pub struct UnstakeRequested {
    pub user: u64,
    pub request_id: u64,
    pub yscspr_burned: u128,
    pub cspr_amount: u128,
    pub unlock_era: u64,
}

/// Event reported by a successful claim; `amount` is the base-asset payout
/// owed to the caller.
#[derive(Debug, PartialEq, Eq)]
pub struct Claimed {
    pub user: u64,
    pub amount: u128,
    pub request_ids: Vec<u64>,
}

/// Event reported by a reward harvest that found new rewards.
#[derive(Clone, Copy, Debug, PartialEq, Eq, Structural)]
pub struct RewardsHarvested {
    pub era: u64,
    pub rewards: u128,
    pub protocol_fee: u128,
    pub new_exchange_rate: u128,
}

/// Errors on which a pool call reverts.
#[derive(Clone, Copy, Debug, PartialEq, Eq, Structural)]
pub enum Error {
    Unauthorized,
    NotInitialized,
    InvalidValidator,
    ValidatorNotFound,
    ValidatorInactive,
    StakeTooLow,
    StakeTooHigh,
    InvalidAmount,
    ExceedsMaxWithdrawal,
    NoPendingWithdrawals,
    NoMaturedWithdrawals,
    RequestNotFound,
    InvalidEra,
    InsufficientTreasury,
    InsufficientStake,
    Overflow,
    Underflow,
}

/// Key of the per-user, per-validator stake table.
pub open spec fn spec_stake_key(user: u64, validator: u64) -> u128 {
    spec_pair_key(user, validator)
}

/// Exchange rate from derivative units to base units: par (one base unit
/// per derivative unit, times the fixed-point scale) while no derivative
/// tokens exist, else the staked total divided by the supply; `None` when
/// scaling the staked total overflows.
pub open spec fn spec_exchange_rate(total_staked: u128, total_supply: u128) -> Option<u128> {
    if total_supply == 0 {
        Some(MOTES_PER_CSPR)
    } else if total_staked * MOTES_PER_CSPR > u128::MAX {
        None
    } else {
        Some(((total_staked * MOTES_PER_CSPR) as u128) / total_supply)
    }
}

/// Stake-to-mint multiplier: `p_score / p_avg` at basis-point scale,
/// clamped to the dampening band; par when the average is unset.
pub open spec fn spec_multiplier(p_score: u64, p_avg: u64) -> u64 {
    if p_avg == 0 {
        BASIS_POINTS
    } else {
        let raw = spec_sat_mul_u64(p_score, BASIS_POINTS) / p_avg;
        if raw < MIN_MULTIPLIER {
            MIN_MULTIPLIER
        } else if raw > MAX_MULTIPLIER {
            MAX_MULTIPLIER
        } else {
            raw
        }
    }
}

/// Whether a request can be paid out in era `era`.
pub open spec fn spec_matured(req: WithdrawalRequest, era: u64) -> bool {
    req.unlock_era <= era && req.status is Pending
}

/// Whether the request `id` exists and can be paid out in era `era`.
pub open spec fn spec_id_matured(reqs: Map<u64, WithdrawalRequest>, id: u64, era: u64) -> bool {
    reqs.contains_key(id) && spec_matured(reqs[id], era)
}

/// The ids of `ids` whose requests mature by era `era`, in order.
pub open spec fn spec_claimed_ids(
    ids: Seq<u64>,
    reqs: Map<u64, WithdrawalRequest>,
    era: u64,
) -> Seq<u64>
    decreases ids.len(),
{
    if ids.len() == 0 {
        Seq::<u64>::empty()
    } else {
        let rest = spec_claimed_ids(ids.drop_last(), reqs, era);
        if spec_id_matured(reqs, ids.last(), era) {
            rest.push(ids.last())
        } else {
            rest
        }
    }
}

/// The ids of `ids` whose requests do not mature by era `era`, in order.
pub open spec fn spec_remaining_ids(
    ids: Seq<u64>,
    reqs: Map<u64, WithdrawalRequest>,
    era: u64,
) -> Seq<u64>
    decreases ids.len(),
{
    if ids.len() == 0 {
        Seq::<u64>::empty()
    } else {
        let rest = spec_remaining_ids(ids.drop_last(), reqs, era);
        if spec_id_matured(reqs, ids.last(), era) {
            rest
        } else {
            rest.push(ids.last())
        }
    }
}

/// Sum of the matured requests' amounts, folded in list order with checked
/// addition; `None` once the sum overflows.
pub open spec fn spec_claim_total(
    ids: Seq<u64>,
    reqs: Map<u64, WithdrawalRequest>,
    era: u64,
) -> Option<u128>
    decreases ids.len(),
{
    if ids.len() == 0 {
        Some(0)
    } else {
        match spec_claim_total(ids.drop_last(), reqs, era) {
            None => None,
            Some(acc) => if spec_id_matured(reqs, ids.last(), era) {
                if acc + reqs[ids.last()].amount > u128::MAX {
                    None
                } else {
                    Some((acc + reqs[ids.last()].amount) as u128)
                }
            } else {
                Some(acc)
            },
        }
    }
}

/// Once the claimable sum of a prefix has overflowed, the sum of the whole
/// list has too.
pub proof fn lemma_claim_total_none_extends(
    ids: Seq<u64>,
    reqs: Map<u64, WithdrawalRequest>,
    era: u64,
    i: int,
)
    requires
        0 <= i <= ids.len(),
        spec_claim_total(ids.take(i), reqs, era) is None,
    ensures
        spec_claim_total(ids, reqs, era) is None,
    decreases ids.len() - i,
{
    if i < ids.len() {
        assert(ids.take(i + 1).drop_last() =~= ids.take(i));
        lemma_claim_total_none_extends(ids, reqs, era, i + 1);
    } else {
        assert(ids.take(i) =~= ids);
    }
}

/// `req` with its status moved to `Claimed`.
pub open spec fn spec_mark_claimed(req: WithdrawalRequest) -> WithdrawalRequest {
    WithdrawalRequest { status: WithdrawalStatus::Claimed, ..req }
}

/// Splitting a duplicate-free id list by maturity yields two duplicate-free
/// lists of its members: the claimed ones all matured, the remaining ones
/// did not.
pub proof fn lemma_split_ids_facts(ids: Seq<u64>, reqs: Map<u64, WithdrawalRequest>, era: u64)
    requires
        forall|i: int, j: int| 0 <= i < j < ids.len() ==> ids[i] != ids[j],
    ensures
        ({
            let clm = spec_claimed_ids(ids, reqs, era);
            let rem = spec_remaining_ids(ids, reqs, era);
            &&& forall|k: int|
                0 <= k < clm.len() ==> ids.contains(#[trigger] clm[k]) && spec_id_matured(
                    reqs,
                    clm[k],
                    era,
                )
            &&& forall|k1: int, k2: int| 0 <= k1 < k2 < clm.len() ==> clm[k1] != clm[k2]
            &&& forall|k: int|
                0 <= k < rem.len() ==> ids.contains(#[trigger] rem[k]) && !spec_id_matured(
                    reqs,
                    rem[k],
                    era,
                )
            &&& forall|k1: int, k2: int| 0 <= k1 < k2 < rem.len() ==> rem[k1] != rem[k2]
        }),
    decreases ids.len(),
{
    if ids.len() > 0 {
        let t = ids.drop_last();
        let last = ids.last();
        lemma_split_ids_facts(t, reqs, era);
        let clm_t = spec_claimed_ids(t, reqs, era);
        let rem_t = spec_remaining_ids(t, reqs, era);
        let clm = spec_claimed_ids(ids, reqs, era);
        let rem = spec_remaining_ids(ids, reqs, era);
        assert forall|k: int| 0 <= k < clm_t.len() implies ids.contains(clm_t[k]) by {
            let p = choose|p: int| 0 <= p < t.len() && t[p] == clm_t[k];
            assert(ids[p] == clm_t[k]);
        }
        assert forall|k: int| 0 <= k < rem_t.len() implies ids.contains(rem_t[k]) by {
            let p = choose|p: int| 0 <= p < t.len() && t[p] == rem_t[k];
            assert(ids[p] == rem_t[k]);
        }
        assert(!t.contains(last)) by {
            if t.contains(last) {
                let p = choose|p: int| 0 <= p < t.len() && t[p] == last;
                assert(ids[p] == ids[ids.len() - 1]);
            }
        }
        if spec_id_matured(reqs, last, era) {
            assert(clm == clm_t.push(last));
            assert(ids.contains(last)) by {
                assert(ids[ids.len() - 1] == last);
            }
            assert forall|k1: int, k2: int| 0 <= k1 < k2 < clm.len() implies clm[k1]
                != clm[k2] by {
                if k2 == clm.len() - 1 {
                    assert(clm[k1] == clm_t[k1]);
                    assert(t.contains(clm_t[k1]));
                }
            }
        } else {
            assert(rem == rem_t.push(last));
            assert(ids.contains(last)) by {
                assert(ids[ids.len() - 1] == last);
            }
            assert forall|k1: int, k2: int| 0 <= k1 < k2 < rem.len() implies rem[k1]
                != rem[k2] by {
                if k2 == rem.len() - 1 {
                    assert(rem[k1] == rem_t[k1]);
                    assert(t.contains(rem_t[k1]));
                }
            }
        }
    }
}

/// Pool state. The `validator_registry`, `yscspr_token` and
/// `auction_contract` fields hold the collaborators' addresses; the
/// registry's data itself is passed by reference where an operation reads
/// it.
pub struct LiquidStaking {
    /// Address of the validator registry contract.
    pub validator_registry: u64,
    /// Address of the derivative token contract.
    pub yscspr_token: u64,
    /// Address of the staking auction contract.
    pub auction_contract: u64,
    pub owner: u64,
    pub keeper: u64,
    /// Base-asset stake per (user, validator) pair, keyed by
    /// [`spec_stake_key`].
    pub user_stakes: HashMapWithView<u128, u128>,
    /// Base-asset stake per validator.
    pub validator_total_stake: HashMapWithView<u64, u128>,
    /// Base-asset total backing the derivative supply, in motes.
    pub total_staked: u128,
    /// Base-asset total awaiting unbonding payouts, in motes.
    pub total_pending_withdrawal: u128,
    /// All withdrawal requests ever created, by id; kept after claiming.
    pub withdrawal_requests: HashMapWithView<u64, WithdrawalRequest>,
    /// Ids of each user's not-yet-claimed requests.
    pub user_pending_withdrawals: HashMapWithView<u64, Vec<u64>>,
    /// Next withdrawal request id; ids are issued monotonically from 1.
    pub next_request_id: u64,
    pub last_harvest_era: u64,
    /// All rewards ever harvested, protocol fee included.
    pub cumulative_rewards: u128,
    /// Protocol-fee balance the owner may withdraw.
    pub treasury_rewards: u128,
    /// Delegation intents awaiting the keeper.
    pub pending_delegations: PendingQueue,
    /// Undelegation intents awaiting the keeper.
    pub pending_undelegations: PendingQueue,
    /// Base-asset total the keeper has confirmed as delegated.
    pub total_delegated: u128,
}

impl LiquidStaking {
    /// Whether `addr` may run keeper-gated operations.
    pub open spec fn spec_is_keeper_or_owner(&self, addr: u64) -> bool {
        addr == self.keeper || addr == self.owner
    }

    /// The caller's pending request ids, empty when none were recorded.
    pub open spec fn spec_pending_ids(&self, user: u64) -> Seq<u64> {
        if self.user_pending_withdrawals@.contains_key(user) {
            self.user_pending_withdrawals@[user]@
        } else {
            Seq::<u64>::empty()
        }
    }

    /// Recorded stake of `user` with `validator`, zero when none.
    pub open spec fn spec_user_stake(&self, user: u64, validator: u64) -> u128 {
        if self.user_stakes@.contains_key(spec_stake_key(user, validator)) {
            self.user_stakes@[spec_stake_key(user, validator)]
        } else {
            0
        }
    }

    /// Recorded aggregate stake of `validator`, zero when none.
    pub open spec fn spec_validator_stake(&self, validator: u64) -> u128 {
        if self.validator_total_stake@.contains_key(validator) {
            self.validator_total_stake@[validator]
        } else {
            0
        }
    }

    /// Well-formedness: the intent queues hold one entry per validator,
    /// request ids never reach `next_request_id`, and every pending index
    /// lists distinct ids of existing, still-pending requests owned by the
    /// indexed user.
    pub open spec fn wf(&self) -> bool {
        &&& self.pending_delegations.wf()
        &&& self.pending_undelegations.wf()
        &&& forall|id: u64| #[trigger]
            self.withdrawal_requests@.contains_key(id) ==> id < self.next_request_id
        &&& forall|u: u64, i: int, j: int|
            0 <= i < j < self.spec_pending_ids(u).len() ==> #[trigger] self.spec_pending_ids(u)[i]
                != #[trigger] self.spec_pending_ids(u)[j]
        &&& forall|u: u64, i: int|
            0 <= i < self.spec_pending_ids(u).len() ==> {
                &&& self.withdrawal_requests@.contains_key(#[trigger] self.spec_pending_ids(u)[i])
                &&& self.withdrawal_requests@[self.spec_pending_ids(u)[i]].user == u
                &&& self.withdrawal_requests@[self.spec_pending_ids(u)[i]].status
                    is Pending
            }
    }

    /// Owner, keeper and collaborator addresses agree with `o`.
    pub open spec fn spec_same_config(&self, o: Self) -> bool {
        &&& self.validator_registry == o.validator_registry
        &&& self.yscspr_token == o.yscspr_token
        &&& self.auction_contract == o.auction_contract
        &&& self.owner == o.owner
        &&& self.keeper == o.keeper
    }

    /// The whole withdrawal subsystem agrees with `o`.
    pub open spec fn spec_same_withdrawals(&self, o: Self) -> bool {
        &&& self.withdrawal_requests@ == o.withdrawal_requests@
        &&& self.user_pending_withdrawals@ == o.user_pending_withdrawals@
        &&& self.next_request_id == o.next_request_id
    }

    /// The per-user and per-validator stake tables agree with `o`.
    pub open spec fn spec_same_stakes(&self, o: Self) -> bool {
        &&& self.user_stakes@ == o.user_stakes@
        &&& self.validator_total_stake@ == o.validator_total_stake@
    }

    /// The keeper-relay state agrees with `o`.
    pub open spec fn spec_same_relay(&self, o: Self) -> bool {
        &&& self.pending_delegations.entries@ == o.pending_delegations.entries@
        &&& self.pending_undelegations.entries@ == o.pending_undelegations.entries@
        &&& self.total_delegated == o.total_delegated
    }

    /// The reward bookkeeping agrees with `o`.
    pub open spec fn spec_same_rewards(&self, o: Self) -> bool {
        &&& self.last_harvest_era == o.last_harvest_era
        &&& self.cumulative_rewards == o.cumulative_rewards
        &&& self.treasury_rewards == o.treasury_rewards
    }

    /// Well-formedness only depends on the withdrawal subsystem and the
    /// intent queues: any state that keeps the former and has well-formed
    /// queues is well-formed.
    pub proof fn lemma_wf_same_withdrawals(pre: Self, post: Self)
        requires
            pre.wf(),
            post.withdrawal_requests@ == pre.withdrawal_requests@,
            post.user_pending_withdrawals@ == pre.user_pending_withdrawals@,
            post.next_request_id == pre.next_request_id,
            post.pending_delegations.wf(),
            post.pending_undelegations.wf(),
        ensures
            post.wf(),
    {
        assert forall|u: u64, i: int, j: int|
            0 <= i < j < post.spec_pending_ids(u).len() implies #[trigger] post.spec_pending_ids(
            u,
        )[i] != #[trigger] post.spec_pending_ids(u)[j] by {
            assert(post.spec_pending_ids(u) == pre.spec_pending_ids(u));
            assert(pre.spec_pending_ids(u)[i] != pre.spec_pending_ids(u)[j]);
        }
        assert forall|u: u64, i: int| 0 <= i < post.spec_pending_ids(u).len() implies {
            &&& post.withdrawal_requests@.contains_key(#[trigger] post.spec_pending_ids(u)[i])
            &&& post.withdrawal_requests@[post.spec_pending_ids(u)[i]].user == u
            &&& post.withdrawal_requests@[post.spec_pending_ids(u)[i]].status is Pending
        } by {
            assert(post.spec_pending_ids(u) == pre.spec_pending_ids(u));
            assert(pre.withdrawal_requests@.contains_key(pre.spec_pending_ids(u)[i]));
        }
    }

    /// Creates the pool: the deployer becomes owner, all accumulators start
    /// at zero and request ids at 1.
    pub fn init(
        caller: u64,
        validator_registry: u64,
        yscspr_token: u64,
        auction_contract: u64,
        keeper: u64,
    ) -> (pool: Self)
        ensures
            pool.wf(),
            pool.validator_registry == validator_registry,
            pool.yscspr_token == yscspr_token,
            pool.auction_contract == auction_contract,
            pool.owner == caller,
            pool.keeper == keeper,
            pool.user_stakes@ == Map::<u128, u128>::empty(),
            pool.validator_total_stake@ == Map::<u64, u128>::empty(),
            pool.total_staked == 0,
            pool.total_pending_withdrawal == 0,
            pool.withdrawal_requests@ == Map::<u64, WithdrawalRequest>::empty(),
            pool.user_pending_withdrawals@ == Map::<u64, Vec<u64>>::empty(),
            pool.next_request_id == 1,
            pool.last_harvest_era == 0,
            pool.cumulative_rewards == 0,
            pool.treasury_rewards == 0,
            pool.pending_delegations@ == Map::<u64, PendingIntent>::empty(),
            pool.pending_undelegations@ == Map::<u64, PendingIntent>::empty(),
            pool.total_delegated == 0,
    {
        LiquidStaking {
            validator_registry,
            yscspr_token,
            auction_contract,
            owner: caller,
            keeper,
            user_stakes: HashMapWithView::new(),
            validator_total_stake: HashMapWithView::new(),
            total_staked: 0,
            total_pending_withdrawal: 0,
            withdrawal_requests: HashMapWithView::new(),
            user_pending_withdrawals: HashMapWithView::new(),
            next_request_id: 1,
            last_harvest_era: 0,
            cumulative_rewards: 0,
            treasury_rewards: 0,
            pending_delegations: PendingQueue::new(),
            pending_undelegations: PendingQueue::new(),
            total_delegated: 0,
        }
    }

    /// Stakes `amount` motes with `validator_pubkey` (attached value of the
    /// original call): rejects amounts outside the single-stake band and
    /// validators the registry does not currently endorse; credits the
    /// stake tables, records a delegation intent for the keeper, and
    /// reports the derivative amount to mint, scaled by the
    /// validator-quality multiplier.
    pub fn stake(
        &mut self,
        registry: &ValidatorRegistry,
        caller: u64,
        validator_pubkey: u64,
        amount: u128,
        current_era: u64,
    ) -> (r: Result<Staked, Error>)
        requires
            old(self).wf(),
            current_era >= registry.last_update_era,
        ensures
            final(self).wf(),
            r is Err ==> *final(self) == *old(self),
            amount < MIN_STAKE ==> r == Err::<Staked, Error>(Error::StakeTooLow),
            amount > MAX_SINGLE_STAKE ==> r == Err::<Staked, Error>(Error::StakeTooHigh),
            MIN_STAKE <= amount <= MAX_SINGLE_STAKE && !registry.spec_is_valid(
                validator_pubkey,
                current_era,
            ) ==> r == Err::<Staked, Error>(Error::InvalidValidator),
            MIN_STAKE <= amount <= MAX_SINGLE_STAKE && registry.spec_is_valid(
                validator_pubkey,
                current_era,
            ) ==> {
                let mult = spec_multiplier(
                    registry.validators@[validator_pubkey].p_score,
                    registry.network_p_avg,
                );
                let minted = (amount as int * mult as int / BASIS_POINTS as int) as u128;
                &&& old(self).spec_user_stake(caller, validator_pubkey) + amount > u128::MAX
                    || old(self).spec_validator_stake(validator_pubkey) + amount > u128::MAX
                    || old(self).total_staked + amount > u128::MAX ==> r == Err::<Staked, Error>(
                    Error::Overflow,
                )
                &&& old(self).spec_user_stake(caller, validator_pubkey) + amount <= u128::MAX
                    && old(self).spec_validator_stake(validator_pubkey) + amount <= u128::MAX
                    && old(self).total_staked + amount <= u128::MAX ==> {
                &&& r == Ok::<Staked, Error>(
                    Staked {
                        user: caller,
                        validator: validator_pubkey,
                        cspr_amount: amount,
                        yscspr_minted: minted,
                        multiplier: mult,
                        era: current_era,
                    },
                )
                &&& final(self).user_stakes@ == old(self).user_stakes@.insert(
                    spec_stake_key(caller, validator_pubkey),
                    (old(self).spec_user_stake(caller, validator_pubkey) + amount) as u128,
                )
                &&& final(self).validator_total_stake@ == old(self).validator_total_stake@.insert(
                    validator_pubkey,
                    (old(self).spec_validator_stake(validator_pubkey) + amount) as u128,
                )
                &&& final(self).total_staked == old(self).total_staked + amount
                &&& final(self).pending_delegations@ == old(self).pending_delegations@.insert(
                    validator_pubkey,
                    PendingQueue::spec_merged(
                        if old(self).pending_delegations@.contains_key(validator_pubkey) {
                            Some(old(self).pending_delegations@[validator_pubkey])
                        } else {
                            None
                        },
                        validator_pubkey,
                        amount,
                        current_era,
                    ),
                )
                &&& final(self).pending_undelegations.entries@ == old(
                    self,
                ).pending_undelegations.entries@
                &&& final(self).total_delegated == old(self).total_delegated
                &&& final(self).total_pending_withdrawal == old(self).total_pending_withdrawal
                &&& final(self).spec_same_config(*old(self))
                &&& final(self).spec_same_withdrawals(*old(self))
                &&& final(self).spec_same_rewards(*old(self))
                }
            },
    {
        if amount < MIN_STAKE {
            return Err(Error::StakeTooLow);
        }
        if amount > MAX_SINGLE_STAKE {
            return Err(Error::StakeTooHigh);
        }
        if !registry.is_valid(validator_pubkey, current_era) {
            return Err(Error::InvalidValidator);
        }
        let validator_data = match registry.get_validator(validator_pubkey) {
            Some(v) => v,
            None => {
                return Err(Error::ValidatorNotFound);
            },
        };
        if validator_data.p_score == 0 {
            return Err(Error::ValidatorInactive);
        }

        let p_avg = registry.get_network_p_avg();
        let multiplier = calculate_multiplier(validator_data.p_score, p_avg);

        assert(amount * multiplier as u128 <= MAX_SINGLE_STAKE * MAX_MULTIPLIER as u128)
            by (nonlinear_arith)
            requires
                amount <= MAX_SINGLE_STAKE,
                multiplier <= MAX_MULTIPLIER,
        ;
        let mint_amount = amount * multiplier as u128 / BASIS_POINTS as u128;

        let key = stake_key(caller, validator_pubkey);
        let current_stake = match self.user_stakes.get(&key) {
            Some(v) => *v,
            None => 0,
        };
        let new_user_stake = match current_stake.checked_add(amount) {
            Some(v) => v,
            None => {
                return Err(Error::Overflow);
            },
        };
        let validator_stake = match self.validator_total_stake.get(&validator_pubkey) {
            Some(v) => *v,
            None => 0,
        };
        let new_validator_stake = match validator_stake.checked_add(amount) {
            Some(v) => v,
            None => {
                return Err(Error::Overflow);
            },
        };
        let new_total_staked = match self.total_staked.checked_add(amount) {
            Some(v) => v,
            None => {
                return Err(Error::Overflow);
            },
        };

        self.user_stakes.insert(key, new_user_stake);
        self.validator_total_stake.insert(validator_pubkey, new_validator_stake);
        self.total_staked = new_total_staked;

        self.pending_delegations.merge_add(validator_pubkey, amount, current_era);

        proof {
            Self::lemma_wf_same_withdrawals(*old(self), *self);
        }
        Ok(
            Staked {
                user: caller,
                validator: validator_pubkey,
                cspr_amount: amount,
                yscspr_minted: mint_amount,
                multiplier,
                era: current_era,
            },
        )
    }

    /// Requests an unbonding withdrawal: converts `yscspr_amount`
    /// derivative units (which the token must burn from the caller) to base
    /// units at the current exchange rate, debits the stake tables, and
    /// queues a withdrawal claimable once the unbonding delay has passed.
    /// A single request may not drain more than a tenth of the pool.
    pub fn unstake(
        &mut self,
        caller: u64,
        validator_pubkey: u64,
        yscspr_amount: u128,
        current_era: u64,
        yscspr_total_supply: u128,
    ) -> (r: Result<UnstakeRequested, Error>)
        requires
            old(self).wf(),
            old(self).next_request_id < u64::MAX,
            current_era + UNBONDING_DELAY <= u64::MAX,
        ensures
            final(self).wf(),
            r is Err ==> *final(self) == *old(self),
            yscspr_amount == 0 ==> r == Err::<UnstakeRequested, Error>(Error::InvalidAmount),
            ({
                let rate_opt = spec_exchange_rate(old(self).total_staked, yscspr_total_supply);
                &&& yscspr_amount > 0 && rate_opt is None ==> r == Err::<UnstakeRequested, Error>(
                    Error::Overflow,
                )
                &&& yscspr_amount > 0 && rate_opt is Some && yscspr_amount * rate_opt->Some_0
                    > u128::MAX ==> r == Err::<UnstakeRequested, Error>(Error::Overflow)
                &&& yscspr_amount > 0 && rate_opt is Some && yscspr_amount * rate_opt->Some_0
                    <= u128::MAX ==> {
                let cspr = ((yscspr_amount * rate_opt->Some_0) as u128) / MOTES_PER_CSPR;
                let stake = old(self).spec_user_stake(caller, validator_pubkey);
                &&& cspr > stake ==> r == Err::<UnstakeRequested, Error>(
                    Error::InsufficientStake,
                )
                &&& cspr <= stake && cspr > old(self).total_staked / 10 ==> r
                    == Err::<UnstakeRequested, Error>(Error::ExceedsMaxWithdrawal)
                &&& cspr <= stake && cspr <= old(self).total_staked / 10 && old(
                    self,
                ).spec_validator_stake(validator_pubkey) < cspr ==> r == Err::<
                    UnstakeRequested,
                    Error,
                >(Error::Underflow)
                &&& cspr <= stake && cspr <= old(self).total_staked / 10 && old(
                    self,
                ).spec_validator_stake(validator_pubkey) >= cspr && old(
                    self,
                ).total_pending_withdrawal + cspr > u128::MAX ==> r == Err::<
                    UnstakeRequested,
                    Error,
                >(Error::Overflow)
                &&& cspr <= stake && cspr <= old(self).total_staked / 10 && old(
                    self,
                ).spec_validator_stake(validator_pubkey) >= cspr && old(
                    self,
                ).total_pending_withdrawal + cspr <= u128::MAX ==> {
                    let id = old(self).next_request_id;
                    let unlock = (current_era + UNBONDING_DELAY) as u64;
                    &&& r == Ok::<UnstakeRequested, Error>(
                        UnstakeRequested {
                            user: caller,
                            request_id: id,
                            yscspr_burned: yscspr_amount,
                            cspr_amount: cspr,
                            unlock_era: unlock,
                        },
                    )
                    &&& final(self).user_stakes@ == old(self).user_stakes@.insert(
                        spec_stake_key(caller, validator_pubkey),
                        (stake - cspr) as u128,
                    )
                    &&& final(self).validator_total_stake@ == old(
                        self,
                    ).validator_total_stake@.insert(
                        validator_pubkey,
                        (old(self).spec_validator_stake(validator_pubkey) - cspr) as u128,
                    )
                    &&& final(self).next_request_id == id + 1
                    &&& final(self).withdrawal_requests@ == old(self).withdrawal_requests@.insert(
                        id,
                        WithdrawalRequest {
                            user: caller,
                            amount: cspr,
                            unlock_era: unlock,
                            status: WithdrawalStatus::Pending,
                        },
                    )
                    &&& final(self).spec_pending_ids(caller) == old(self).spec_pending_ids(
                        caller,
                    ).push(id)
                    &&& final(self).user_pending_withdrawals@.dom() == old(
                        self,
                    ).user_pending_withdrawals@.dom().insert(caller)
                    &&& forall|u: u64|
                        u != caller ==> final(self).spec_pending_ids(u) == old(
                            self,
                        ).spec_pending_ids(u)
                    &&& final(self).total_staked == old(self).total_staked - cspr
                    &&& final(self).total_pending_withdrawal == old(self).total_pending_withdrawal
                        + cspr
                    &&& final(self).pending_undelegations@ == old(
                        self,
                    ).pending_undelegations@.insert(
                        validator_pubkey,
                        PendingQueue::spec_merged(
                            if old(self).pending_undelegations@.contains_key(validator_pubkey) {
                                Some(old(self).pending_undelegations@[validator_pubkey])
                            } else {
                                None
                            },
                            validator_pubkey,
                            cspr,
                            current_era,
                        ),
                    )
                    &&& final(self).pending_delegations.entries@ == old(
                        self,
                    ).pending_delegations.entries@
                    &&& final(self).total_delegated == old(self).total_delegated
                    &&& final(self).spec_same_config(*old(self))
                    &&& final(self).spec_same_rewards(*old(self))
                }
                }
            }),
    {
        if yscspr_amount == 0 {
            return Err(Error::InvalidAmount);
        }

        let exchange_rate = match self.get_exchange_rate(yscspr_total_supply) {
            Ok(v) => v,
            Err(e) => {
                return Err(e);
            },
        };
        let cspr_to_return = match yscspr_amount.checked_mul(exchange_rate) {
            Some(v) => v / MOTES_PER_CSPR,
            None => {
                return Err(Error::Overflow);
            },
        };

        let key = stake_key(caller, validator_pubkey);
        let user_validator_stake = match self.user_stakes.get(&key) {
            Some(v) => *v,
            None => 0,
        };
        if cspr_to_return > user_validator_stake {
            return Err(Error::InsufficientStake);
        }

        let max_withdrawal = self.total_staked / 10;
        if cspr_to_return > max_withdrawal {
            return Err(Error::ExceedsMaxWithdrawal);
        }

        let validator_stake = match self.validator_total_stake.get(&validator_pubkey) {
            Some(v) => *v,
            None => 0,
        };
        let new_validator_stake = match validator_stake.checked_sub(cspr_to_return) {
            Some(v) => v,
            None => {
                return Err(Error::Underflow);
            },
        };
        let new_total_pending = match self.total_pending_withdrawal.checked_add(cspr_to_return) {
            Some(v) => v,
            None => {
                return Err(Error::Overflow);
            },
        };

        self.user_stakes.insert(key, user_validator_stake - cspr_to_return);
        self.validator_total_stake.insert(validator_pubkey, new_validator_stake);

        let request_id = self.next_request_id;
        self.next_request_id = request_id + 1;

        let unlock_era = current_era + UNBONDING_DELAY;
        let request = WithdrawalRequest {
            user: caller,
            amount: cspr_to_return,
            unlock_era,
            status: WithdrawalStatus::Pending,
        };
        self.withdrawal_requests.insert(request_id, request);

        let mut user_requests = match self.user_pending_withdrawals.remove(&caller) {
            Some(v) => v,
            None => Vec::new(),
        };
        user_requests.push(request_id);
        self.user_pending_withdrawals.insert(caller, user_requests);

        self.total_staked = self.total_staked - cspr_to_return;
        self.total_pending_withdrawal = new_total_pending;

        self.pending_undelegations.merge_add(validator_pubkey, cspr_to_return, current_era);

        proof {
            let pre = *old(self);
            let post = *self;
            let id = pre.next_request_id;
            assert(post.user_pending_withdrawals@.dom() =~= pre.user_pending_withdrawals@.dom(
            ).insert(caller));
            assert(post.spec_pending_ids(caller) =~= pre.spec_pending_ids(caller).push(id));
            assert forall|u: u64| u != caller implies post.spec_pending_ids(u)
                == pre.spec_pending_ids(u) by {}
            assert forall|u: u64, i: int, j: int|
                0 <= i < j < post.spec_pending_ids(u).len() implies #[trigger]
                post.spec_pending_ids(u)[i] != #[trigger] post.spec_pending_ids(u)[j] by {
                if u == caller {
                    let pre_ids = pre.spec_pending_ids(caller);
                    if j == post.spec_pending_ids(u).len() - 1 {
                        assert(post.spec_pending_ids(u)[i] == pre_ids[i]);
                        assert(pre.withdrawal_requests@.contains_key(pre_ids[i]));
                        assert(pre_ids[i] < id);
                    } else {
                        assert(post.spec_pending_ids(u)[i] == pre_ids[i]);
                        assert(post.spec_pending_ids(u)[j] == pre_ids[j]);
                        assert(pre_ids[i] != pre_ids[j]);
                    }
                } else {
                    assert(pre.spec_pending_ids(u)[i] != pre.spec_pending_ids(u)[j]);
                }
            }
            assert forall|u: u64, i: int| 0 <= i < post.spec_pending_ids(u).len() implies {
                &&& post.withdrawal_requests@.contains_key(
                    #[trigger] post.spec_pending_ids(u)[i],
                )
                &&& post.withdrawal_requests@[post.spec_pending_ids(u)[i]].user == u
                &&& post.withdrawal_requests@[post.spec_pending_ids(u)[i]].status is Pending
            } by {
                if u == caller && i == post.spec_pending_ids(u).len() - 1 {
                    assert(post.spec_pending_ids(u)[i] == id);
                } else {
                    let entry = pre.spec_pending_ids(u)[i];
                    assert(post.spec_pending_ids(u)[i] == entry);
                    assert(pre.withdrawal_requests@.contains_key(entry));
                    assert(entry < id);
                }
            }
        }

        Ok(
            UnstakeRequested {
                user: caller,
                request_id,
                yscspr_burned: yscspr_amount,
                cspr_amount: cspr_to_return,
                unlock_era,
            },
        )
    }

    /// Pays out every matured withdrawal of the caller: marks each one
    /// claimed, drops it from the caller's pending index, and reports the
    /// summed base-asset payout. Fails with `NoPendingWithdrawals` when the
    /// caller never had requests and with `NoMaturedWithdrawals` when none
    /// of the indexed ones has matured by `current_era`; unmatured requests
    /// stay indexed for a later claim.
    pub fn claim(&mut self, caller: u64, current_era: u64) -> (r: Result<Claimed, Error>)
        requires
            old(self).wf(),
        ensures
            final(self).wf(),
            r is Err ==> *final(self) == *old(self),
            !old(self).user_pending_withdrawals@.contains_key(caller) ==> r == Err::<
                Claimed,
                Error,
            >(Error::NoPendingWithdrawals),
            ({
                let ids = old(self).spec_pending_ids(caller);
                let reqs = old(self).withdrawal_requests@;
                let total_opt = spec_claim_total(ids, reqs, current_era);
                let clm = spec_claimed_ids(ids, reqs, current_era);
                &&& old(self).user_pending_withdrawals@.contains_key(caller) && total_opt
                    is None ==> r == Err::<Claimed, Error>(Error::Overflow)
                &&& old(self).user_pending_withdrawals@.contains_key(caller) && total_opt
                    == Some(0u128) ==> r == Err::<Claimed, Error>(Error::NoMaturedWithdrawals)
                &&& old(self).user_pending_withdrawals@.contains_key(caller) && total_opt
                    is Some && total_opt->Some_0 > 0 && old(self).total_pending_withdrawal
                    < total_opt->Some_0 ==> r == Err::<Claimed, Error>(Error::Underflow)
                &&& old(self).user_pending_withdrawals@.contains_key(caller) && total_opt
                    is Some && total_opt->Some_0 > 0 && old(self).total_pending_withdrawal
                    >= total_opt->Some_0 ==> {
                    let total = total_opt->Some_0;
                    &&& r matches Ok(ev) && ev.user == caller && ev.amount == total
                        && ev.request_ids@ == clm
                    &&& final(self).withdrawal_requests@.dom() == reqs.dom()
                    &&& forall|id: u64| #[trigger]
                        reqs.contains_key(id) ==> final(self).withdrawal_requests@[id] == (
                        if clm.contains(id) {
                            spec_mark_claimed(reqs[id])
                        } else {
                            reqs[id]
                        })
                    &&& final(self).spec_pending_ids(caller) == spec_remaining_ids(
                        ids,
                        reqs,
                        current_era,
                    )
                    &&& final(self).user_pending_withdrawals@.dom() == old(
                        self,
                    ).user_pending_withdrawals@.dom()
                    &&& forall|u: u64|
                        u != caller ==> final(self).spec_pending_ids(u) == old(
                            self,
                        ).spec_pending_ids(u)
                    &&& final(self).total_pending_withdrawal == old(self).total_pending_withdrawal
                        - total
                    &&& final(self).next_request_id == old(self).next_request_id
                    &&& final(self).total_staked == old(self).total_staked
                    &&& final(self).spec_same_stakes(*old(self))
                    &&& final(self).spec_same_config(*old(self))
                    &&& final(self).spec_same_relay(*old(self))
                    &&& final(self).spec_same_rewards(*old(self))
                }
            }),
    {
        let ghost pre = *old(self);
        let ghost reqs0 = pre.withdrawal_requests@;

        let user_requests = match self.user_pending_withdrawals.get(&caller) {
            Some(v) => v,
            None => {
                return Err(Error::NoPendingWithdrawals);
            },
        };
        let ghost ids = user_requests@;
        proof {
            assert(ids == pre.spec_pending_ids(caller));
        }

        let mut total_claimable: u128 = 0;
        let mut claimed_requests: Vec<u64> = Vec::new();
        let mut remaining_requests: Vec<u64> = Vec::new();

        let mut i: usize = 0;
        while i < user_requests.len()
            invariant
                i <= ids.len(),
                user_requests@ == ids,
                *self == pre,
                pre.wf(),
                ids == pre.spec_pending_ids(caller),
                reqs0 == pre.withdrawal_requests@,
                Some(total_claimable) == spec_claim_total(ids.take(i as int), reqs0, current_era),
                claimed_requests@ == spec_claimed_ids(ids.take(i as int), reqs0, current_era),
                remaining_requests@ == spec_remaining_ids(ids.take(i as int), reqs0, current_era),
            decreases ids.len() - i,
        {
            let id = user_requests[i];
            proof {
                assert(pre.spec_pending_ids(caller)[i as int] == id);
            }
            let request = match self.withdrawal_requests.get(&id) {
                Some(rq) => *rq,
                None => {
                    return Err(Error::RequestNotFound);
                },
            };
            if request.unlock_era <= current_era && request.status == WithdrawalStatus::Pending {
                total_claimable = match total_claimable.checked_add(request.amount) {
                    Some(v) => v,
                    None => {
                        proof {
                            assert(ids.take(i + 1 as int).drop_last() =~= ids.take(i as int));
                            assert(ids.take(i + 1 as int).last() == id);
                            lemma_claim_total_none_extends(ids, reqs0, current_era, i + 1 as int);
                        }
                        return Err(Error::Overflow);
                    },
                };
                claimed_requests.push(id);
            } else {
                remaining_requests.push(id);
            }
            proof {
                assert(ids.take(i + 1 as int).drop_last() =~= ids.take(i as int));
                assert(ids.take(i + 1 as int).last() == id);
            }
            i = i + 1;
        }
        proof {
            assert(ids.take(ids.len() as int) =~= ids);
        }

        if total_claimable == 0 {
            return Err(Error::NoMaturedWithdrawals);
        }
        if self.total_pending_withdrawal < total_claimable {
            return Err(Error::Underflow);
        }

        let ghost clm = spec_claimed_ids(ids, reqs0, current_era);
        let ghost rem = spec_remaining_ids(ids, reqs0, current_era);
        proof {
            assert forall|i1: int, j1: int| 0 <= i1 < j1 < ids.len() implies ids[i1]
                != ids[j1] by {
                assert(pre.spec_pending_ids(caller)[i1] != pre.spec_pending_ids(caller)[j1]);
            }
            lemma_split_ids_facts(ids, reqs0, current_era);
            assert forall|k: int| 0 <= k < clm.len() implies reqs0[#[trigger] clm[k]].user
                == caller by {
                let p = choose|p: int| 0 <= p < ids.len() && ids[p] == clm[k];
                assert(pre.spec_pending_ids(caller)[p] == clm[k]);
            }
            assert forall|k: int| 0 <= k < rem.len() implies reqs0.contains_key(
                #[trigger] rem[k],
            ) && reqs0[rem[k]].user == caller && reqs0[rem[k]].status is Pending by {
                let p = choose|p: int| 0 <= p < ids.len() && ids[p] == rem[k];
                assert(pre.spec_pending_ids(caller)[p] == rem[k]);
            }
        }

        let mut k: usize = 0;
        while k < claimed_requests.len()
            invariant
                k <= clm.len(),
                claimed_requests@ == clm,
                pre.wf(),
                reqs0 == pre.withdrawal_requests@,
                forall|k1: int|
                    0 <= k1 < clm.len() ==> reqs0.contains_key(#[trigger] clm[k1])
                        && spec_matured(reqs0[clm[k1]], current_era),
                self.withdrawal_requests@.dom() == reqs0.dom(),
                forall|id: u64| #[trigger]
                    reqs0.contains_key(id) ==> self.withdrawal_requests@[id] == (
                    if clm.take(k as int).contains(id) {
                        spec_mark_claimed(reqs0[id])
                    } else {
                        reqs0[id]
                    }),
                self.user_pending_withdrawals@ == pre.user_pending_withdrawals@,
                self.next_request_id == pre.next_request_id,
                self.total_staked == pre.total_staked,
                self.total_pending_withdrawal == pre.total_pending_withdrawal,
                self.spec_same_stakes(pre),
                self.spec_same_config(pre),
                self.spec_same_relay(pre),
                self.spec_same_rewards(pre),
            decreases clm.len() - k,
        {
            let id = claimed_requests[k];
            let request = match self.withdrawal_requests.get(&id) {
                Some(rq) => *rq,
                None => {
                    return Err(Error::RequestNotFound);
                },
            };
            self.withdrawal_requests.insert(
                id,
                WithdrawalRequest { status: WithdrawalStatus::Claimed, ..request },
            );
            proof {
                assert(self.withdrawal_requests@.dom() =~= reqs0.dom());
                assert(clm.take(k + 1 as int) =~= clm.take(k as int).push(clm[k as int]));
                assert forall|idq: u64| #[trigger]
                    reqs0.contains_key(idq) implies self.withdrawal_requests@[idq] == (
                    if clm.take(k + 1 as int).contains(idq) {
                        spec_mark_claimed(reqs0[idq])
                    } else {
                        reqs0[idq]
                    }) by {
                    if idq == id {
                        assert(clm.take(k + 1 as int)[k as int] == id);
                        assert(clm.take(k + 1 as int).contains(idq));
                    } else {
                        assert(clm.take(k + 1 as int).contains(idq) == clm.take(
                            k as int,
                        ).contains(idq)) by {
                            if clm.take(k + 1 as int).contains(idq) {
                                let p = choose|p: int|
                                    0 <= p < clm.take(k + 1 as int).len() && #[trigger] clm.take(
                                        k + 1 as int,
                                    )[p] == idq;
                                assert(p < k);
                                assert(clm.take(k as int)[p] == idq);
                            }
                            if clm.take(k as int).contains(idq) {
                                let p = choose|p: int|
                                    0 <= p < clm.take(k as int).len() && #[trigger] clm.take(
                                        k as int,
                                    )[p] == idq;
                                assert(clm.take(k + 1 as int)[p] == idq);
                            }
                        }
                    }
                }
            }
            k = k + 1;
        }
        proof {
            assert(clm.take(clm.len() as int) =~= clm);
        }

        self.user_pending_withdrawals.insert(caller, remaining_requests);
        self.total_pending_withdrawal = self.total_pending_withdrawal - total_claimable;

        proof {
            let post = *self;
            assert(post.user_pending_withdrawals@.dom() =~= pre.user_pending_withdrawals@.dom());
            assert(post.spec_pending_ids(caller) == rem);
            assert forall|u: u64| u != caller implies post.spec_pending_ids(u)
                == pre.spec_pending_ids(u) by {}
            assert forall|id: u64| #[trigger]
                reqs0.contains_key(id) && !clm.contains(id) implies post.withdrawal_requests@[id]
                == reqs0[id] by {}

            // Well-formedness of the new state.
            assert forall|u: u64, i1: int, j1: int|
                0 <= i1 < j1 < post.spec_pending_ids(u).len() implies #[trigger]
                post.spec_pending_ids(u)[i1] != #[trigger] post.spec_pending_ids(u)[j1] by {
                if u == caller {
                    assert(rem[i1] != rem[j1]);
                } else {
                    assert(pre.spec_pending_ids(u)[i1] != pre.spec_pending_ids(u)[j1]);
                }
            }
            assert forall|u: u64, i1: int| 0 <= i1 < post.spec_pending_ids(u).len() implies {
                &&& post.withdrawal_requests@.contains_key(
                    #[trigger] post.spec_pending_ids(u)[i1],
                )
                &&& post.withdrawal_requests@[post.spec_pending_ids(u)[i1]].user == u
                &&& post.withdrawal_requests@[post.spec_pending_ids(u)[i1]].status is Pending
            } by {
                if u == caller {
                    let id = rem[i1];
                    assert(reqs0.contains_key(id) && reqs0[id].user == caller && reqs0[id].status
                        is Pending);
                    assert(!spec_id_matured(reqs0, id, current_era));
                    assert(!clm.contains(id)) by {
                        if clm.contains(id) {
                            let p = choose|p: int| 0 <= p < clm.len() && clm[p] == id;
                            assert(spec_matured(reqs0[clm[p]], current_era));
                        }
                    }
                    assert(post.withdrawal_requests@[id] == reqs0[id]);
                } else {
                    let id = pre.spec_pending_ids(u)[i1];
                    assert(reqs0.contains_key(id) && reqs0[id].user == u && reqs0[id].status
                        is Pending);
                    assert(!clm.contains(id)) by {
                        if clm.contains(id) {
                            let p = choose|p: int| 0 <= p < clm.len() && clm[p] == id;
                            assert(reqs0[clm[p]].user == caller);
                        }
                    }
                    assert(post.withdrawal_requests@[id] == reqs0[id]);
                }
            }
            assert forall|id: u64| #[trigger]
                post.withdrawal_requests@.contains_key(id) implies id
                < post.next_request_id by {
                assert(reqs0.contains_key(id));
            }
        }

        Ok(Claimed { user: caller, amount: total_claimable, request_ids: claimed_requests })
    }

    /// Exchange rate against the derivative supply reported by the token;
    /// an overflow while scaling the staked total is fatal.
    pub fn get_exchange_rate(&self, yscspr_total_supply: u128) -> (r: Result<u128, Error>)
        ensures
            r == (match spec_exchange_rate(self.total_staked, yscspr_total_supply) {
                Some(v) => Ok::<u128, Error>(v),
                None => Err::<u128, Error>(Error::Overflow),
            }),
    {
        if yscspr_total_supply == 0 {
            return Ok(MOTES_PER_CSPR);
        }
        match self.total_staked.checked_mul(MOTES_PER_CSPR) {
            Some(v) => Ok(v / yscspr_total_supply),
            None => Err(Error::Overflow),
        }
    }

    /// Recorded stake of `user` with `validator`.
    pub fn get_user_stake(&self, user: u64, validator: u64) -> (r: u128)
        ensures
            r == self.spec_user_stake(user, validator),
    {
        let key = stake_key(user, validator);
        match self.user_stakes.get(&key) {
            Some(v) => *v,
            None => 0,
        }
    }

    /// Base-asset total currently backing the derivative supply.
    pub fn get_total_staked(&self) -> (r: u128)
        ensures
            r == self.total_staked,
    {
        self.total_staked
    }

    /// Aggregate report against the derivative supply reported by the
    /// token; an overflow in the rate computation is fatal.
    pub fn get_stats(&self, yscspr_total_supply: u128) -> (r: Result<LiquidStakingStats, Error>)
        ensures
            r == (match spec_exchange_rate(self.total_staked, yscspr_total_supply) {
                Some(v) => Ok::<LiquidStakingStats, Error>(
                    LiquidStakingStats {
                        total_staked: self.total_staked,
                        total_pending_withdrawal: self.total_pending_withdrawal,
                        cumulative_rewards: self.cumulative_rewards,
                        exchange_rate: v,
                    },
                ),
                None => Err::<LiquidStakingStats, Error>(Error::Overflow),
            }),
    {
        let exchange_rate = match self.get_exchange_rate(yscspr_total_supply) {
            Ok(v) => v,
            Err(e) => {
                return Err(e);
            },
        };
        Ok(
            LiquidStakingStats {
                total_staked: self.total_staked,
                total_pending_withdrawal: self.total_pending_withdrawal,
                cumulative_rewards: self.cumulative_rewards,
                exchange_rate,
            },
        )
    }

    /// Settles a harvest report from the keeper. `new_total_delegation` is
    /// the backend-reported total; anything above the recorded
    /// `total_staked + total_pending_withdrawal` is new rewards. A report
    /// not above that sum only advances the harvest era (reporting lag must
    /// not revert the call). Otherwise the protocol fee goes to the
    /// treasury and the net rewards raise `total_staked` - and with it the
    /// exchange rate, the sole reward-distribution mechanism. Any overflow
    /// along the way is fatal and reverts the whole call.
    pub fn harvest_rewards(
        &mut self,
        caller: u64,
        new_total_delegation: u128,
        current_era: u64,
        yscspr_total_supply: u128,
    ) -> (r: Result<Option<RewardsHarvested>, Error>)
        requires
            old(self).wf(),
        ensures
            final(self).wf(),
            r is Err ==> *final(self) == *old(self),
            !old(self).spec_is_keeper_or_owner(caller) ==> r == Err::<
                Option<RewardsHarvested>,
                Error,
            >(Error::Unauthorized),
            old(self).spec_is_keeper_or_owner(caller) && current_era <= old(self).last_harvest_era
                ==> r == Err::<Option<RewardsHarvested>, Error>(Error::InvalidEra),
            old(self).spec_is_keeper_or_owner(caller) && current_era > old(self).last_harvest_era
                && old(self).total_staked + old(self).total_pending_withdrawal > u128::MAX ==> r
                == Err::<Option<RewardsHarvested>, Error>(Error::Overflow),
            ({
                let expected = (old(self).total_staked + old(self).total_pending_withdrawal) as u128;
                &&& old(self).spec_is_keeper_or_owner(caller) && current_era > old(
                    self,
                ).last_harvest_era && old(self).total_staked + old(self).total_pending_withdrawal
                    <= u128::MAX && new_total_delegation <= expected ==> r == Ok::<
                    Option<RewardsHarvested>,
                    Error,
                >(None) && *final(self) == (Self { last_harvest_era: current_era, ..*old(self) })
                &&& old(self).spec_is_keeper_or_owner(caller) && current_era > old(
                    self,
                ).last_harvest_era && old(self).total_staked + old(self).total_pending_withdrawal
                    <= u128::MAX && new_total_delegation > expected ==> {
                    let rewards = (new_total_delegation - expected) as u128;
                    &&& rewards * (PROTOCOL_FEE_BPS as u128) > u128::MAX ==> r == Err::<
                        Option<RewardsHarvested>,
                        Error,
                    >(Error::Overflow)
                    &&& rewards * (PROTOCOL_FEE_BPS as u128) <= u128::MAX ==> {
                        let fee = ((rewards * (PROTOCOL_FEE_BPS as u128)) as u128) / (
                        BASIS_POINTS as u128);
                        let net = (rewards - fee) as u128;
                        let staked = (old(self).total_staked + net) as u128;
                        &&& old(self).cumulative_rewards + rewards > u128::MAX ==> r == Err::<
                            Option<RewardsHarvested>,
                            Error,
                        >(Error::Overflow)
                        &&& old(self).cumulative_rewards + rewards <= u128::MAX && old(
                            self,
                        ).treasury_rewards + fee > u128::MAX ==> r == Err::<
                            Option<RewardsHarvested>,
                            Error,
                        >(Error::Overflow)
                        &&& old(self).cumulative_rewards + rewards <= u128::MAX && old(
                            self,
                        ).treasury_rewards + fee <= u128::MAX && spec_exchange_rate(
                            staked,
                            yscspr_total_supply,
                        ) is None ==> r == Err::<Option<RewardsHarvested>, Error>(Error::Overflow)
                        &&& old(self).cumulative_rewards + rewards <= u128::MAX && old(
                            self,
                        ).treasury_rewards + fee <= u128::MAX && spec_exchange_rate(
                            staked,
                            yscspr_total_supply,
                        ) is Some ==> {
                            &&& final(self).total_staked == staked
                            &&& final(self).treasury_rewards == old(self).treasury_rewards + fee
                            &&& final(self).cumulative_rewards == old(self).cumulative_rewards
                                + rewards
                            &&& final(self).last_harvest_era == current_era
                            &&& r == Ok::<Option<RewardsHarvested>, Error>(
                                Some(
                                    RewardsHarvested {
                                        era: current_era,
                                        rewards,
                                        protocol_fee: fee,
                                        new_exchange_rate: spec_exchange_rate(
                                            staked,
                                            yscspr_total_supply,
                                        )->Some_0,
                                    },
                                ),
                            )
                            &&& final(self).total_pending_withdrawal == old(
                                self,
                            ).total_pending_withdrawal
                            &&& final(self).spec_same_config(*old(self))
                            &&& final(self).spec_same_withdrawals(*old(self))
                            &&& final(self).spec_same_stakes(*old(self))
                            &&& final(self).spec_same_relay(*old(self))
                        }
                    }
                }
            }),
    {
        if caller != self.keeper && caller != self.owner {
            return Err(Error::Unauthorized);
        }
        if current_era <= self.last_harvest_era {
            return Err(Error::InvalidEra);
        }

        let expected_total = match self.total_staked.checked_add(self.total_pending_withdrawal) {
            Some(v) => v,
            None => {
                return Err(Error::Overflow);
            },
        };
        if new_total_delegation <= expected_total {
            self.last_harvest_era = current_era;
            proof {
                Self::lemma_wf_same_withdrawals(*old(self), *self);
            }
            return Ok(None);
        }

        let rewards_earned = new_total_delegation - expected_total;
        let scaled_fee = match rewards_earned.checked_mul(PROTOCOL_FEE_BPS as u128) {
            Some(v) => v,
            None => {
                return Err(Error::Overflow);
            },
        };
        let protocol_fee = scaled_fee / (BASIS_POINTS as u128);
        proof {
            lemma_protocol_fee_below_rewards(rewards_earned);
        }
        let net_rewards = rewards_earned - protocol_fee;
        // The raised total stays within the backend-reported one.
        assert(self.total_staked + net_rewards <= new_total_delegation);
        let new_staked = self.total_staked + net_rewards;

        let new_cumulative = match self.cumulative_rewards.checked_add(rewards_earned) {
            Some(v) => v,
            None => {
                return Err(Error::Overflow);
            },
        };
        let new_treasury = match self.treasury_rewards.checked_add(protocol_fee) {
            Some(v) => v,
            None => {
                return Err(Error::Overflow);
            },
        };
        let exchange_rate = if yscspr_total_supply == 0 {
            MOTES_PER_CSPR
        } else {
            match new_staked.checked_mul(MOTES_PER_CSPR) {
                Some(v) => v / yscspr_total_supply,
                None => {
                    return Err(Error::Overflow);
                },
            }
        };

        self.treasury_rewards = new_treasury;
        self.cumulative_rewards = new_cumulative;
        self.total_staked = new_staked;
        self.last_harvest_era = current_era;

        proof {
            Self::lemma_wf_same_withdrawals(*old(self), *self);
        }
        Ok(
            Some(
                RewardsHarvested {
                    era: current_era,
                    rewards: rewards_earned,
                    protocol_fee,
                    new_exchange_rate: exchange_rate,
                },
            ),
        )
    }

    /// The still-indexed withdrawal requests of `user`, in creation order.
    pub fn get_pending_withdrawals(&self, user: u64) -> (r: Vec<WithdrawalRequest>)
        requires
            self.wf(),
        ensures
            r@.len() == self.spec_pending_ids(user).len(),
            forall|i: int|
                0 <= i < r@.len() ==> r@[i] == self.withdrawal_requests@[self.spec_pending_ids(
                    user,
                )[i]],
    {
        let mut r: Vec<WithdrawalRequest> = Vec::new();
        let request_ids = match self.user_pending_withdrawals.get(&user) {
            Some(v) => v,
            None => {
                return r;
            },
        };
        let ghost ids = request_ids@;
        let mut i: usize = 0;
        while i < request_ids.len()
            invariant
                i <= ids.len(),
                request_ids@ == ids,
                self.wf(),
                ids == self.spec_pending_ids(user),
                r@.len() == i,
                forall|j: int| 0 <= j < i ==> r@[j] == self.withdrawal_requests@[ids[j]],
            decreases ids.len() - i,
        {
            let id = request_ids[i];
            proof {
                assert(self.spec_pending_ids(user)[i as int] == id);
            }
            match self.withdrawal_requests.get(&id) {
                Some(req) => {
                    r.push(*req);
                },
                None => {},
            }
            i = i + 1;
        }
        r
    }

    /// Withdraws `amount` of the protocol-fee treasury (owner only).
    pub fn withdraw_treasury(&mut self, caller: u64, amount: u128) -> (r: Result<(), Error>)
        ensures
            r is Err ==> *final(self) == *old(self),
            caller != old(self).owner ==> r == Err::<(), Error>(Error::Unauthorized),
            caller == old(self).owner && amount > old(self).treasury_rewards ==> r == Err::<
                (),
                Error,
            >(Error::InsufficientTreasury),
            caller == old(self).owner && amount <= old(self).treasury_rewards ==> r == Ok::<
                (),
                Error,
            >(()) && *final(self) == (Self {
                treasury_rewards: (old(self).treasury_rewards - amount) as u128,
                ..*old(self)
            }),
    {
        if caller != self.owner {
            return Err(Error::Unauthorized);
        }
        if amount > self.treasury_rewards {
            return Err(Error::InsufficientTreasury);
        }
        self.treasury_rewards = self.treasury_rewards - amount;
        Ok(())
    }

    /// The delegation intents awaiting the keeper, in storage order.
    pub fn get_pending_delegations(&self) -> (r: Vec<PendingIntent>)
        ensures
            r@ == self.pending_delegations.entries@,
    {
        self.pending_delegations.snapshot()
    }

    /// The undelegation intents awaiting the keeper, in storage order.
    pub fn get_pending_undelegations(&self) -> (r: Vec<PendingIntent>)
        ensures
            r@ == self.pending_undelegations.entries@,
    {
        self.pending_undelegations.snapshot()
    }

    /// Approves paying the keeper `amount` motes towards the pending
    /// delegation of `validator` (keeper or owner only). The payout itself
    /// is an external transfer; the intent stays recorded until the keeper
    /// confirms the delegation.
    pub fn withdraw_for_delegation(&self, caller: u64, validator: u64, amount: u128) -> (r: Result<
        (),
        Error,
    >)
        requires
            self.wf(),
        ensures
            !self.spec_is_keeper_or_owner(caller) ==> r == Err::<(), Error>(Error::Unauthorized),
            self.spec_is_keeper_or_owner(caller) && (!self.pending_delegations@.contains_key(
                validator,
            ) || self.pending_delegations@[validator].amount < amount) ==> r == Err::<(), Error>(
                Error::InvalidAmount,
            ),
            self.spec_is_keeper_or_owner(caller) && self.pending_delegations@.contains_key(
                validator,
            ) && self.pending_delegations@[validator].amount >= amount ==> r == Ok::<(), Error>(()),
    {
        if caller != self.keeper && caller != self.owner {
            return Err(Error::Unauthorized);
        }
        match self.pending_delegations.get(validator) {
            Some(entry) => {
                if entry.amount < amount {
                    Err(Error::InvalidAmount)
                } else {
                    Ok(())
                }
            },
            None => Err(Error::InvalidAmount),
        }
    }

    /// Confirms that the keeper delegated `amount` motes to `validator`:
    /// consumes that much of the pending delegation intent and adds it to
    /// the confirmed `total_delegated` (keeper or owner only).
    pub fn confirm_delegation(&mut self, caller: u64, validator: u64, amount: u128) -> (r: Result<
        (),
        Error,
    >)
        requires
            old(self).wf(),
        ensures
            final(self).wf(),
            r is Err ==> *final(self) == *old(self),
            !old(self).spec_is_keeper_or_owner(caller) ==> r == Err::<(), Error>(
                Error::Unauthorized,
            ),
            old(self).spec_is_keeper_or_owner(caller) && (!old(
                self,
            ).pending_delegations@.contains_key(validator) || old(
                self,
            ).pending_delegations@[validator].amount < amount) ==> r == Err::<(), Error>(
                Error::InvalidAmount,
            ),
            old(self).spec_is_keeper_or_owner(caller) && old(
                self,
            ).pending_delegations@.contains_key(validator) && old(
                self,
            ).pending_delegations@[validator].amount >= amount ==> {
                &&& r == Ok::<(), Error>(())
                &&& final(self).total_delegated == (if old(self).total_delegated + amount
                    > u128::MAX {
                    u128::MAX
                } else {
                    (old(self).total_delegated + amount) as u128
                })
                &&& (if old(self).pending_delegations@[validator].amount == amount {
                    final(self).pending_delegations@ == old(self).pending_delegations@.remove(
                        validator,
                    )
                } else {
                    final(self).pending_delegations@ == old(self).pending_delegations@.insert(
                        validator,
                        PendingIntent {
                            validator,
                            amount: (old(self).pending_delegations@[validator].amount
                                - amount) as u128,
                            era: old(self).pending_delegations@[validator].era,
                        },
                    )
                })
                &&& final(self).pending_undelegations.entries@ == old(
                    self,
                ).pending_undelegations.entries@
                &&& final(self).total_staked == old(self).total_staked
                &&& final(self).total_pending_withdrawal == old(self).total_pending_withdrawal
                &&& final(self).spec_same_config(*old(self))
                &&& final(self).spec_same_withdrawals(*old(self))
                &&& final(self).spec_same_stakes(*old(self))
                &&& final(self).spec_same_rewards(*old(self))
            },
    {
        if caller != self.keeper && caller != self.owner {
            return Err(Error::Unauthorized);
        }
        let ok = self.pending_delegations.consume(validator, amount);
        if !ok {
            return Err(Error::InvalidAmount);
        }
        self.total_delegated = self.total_delegated.saturating_add(amount);
        proof {
            Self::lemma_wf_same_withdrawals(*old(self), *self);
        }
        Ok(())
    }

    /// Accepts the base asset the keeper returns once an undelegation has
    /// unbonded (keeper or owner only). The funds themselves land in the
    /// host purse that claim payouts draw from; no pool accounting
    /// changes, so the call only validates its caller.
    pub fn deposit_from_undelegation(&self, caller: u64, amount: u128) -> (r: Result<(), Error>)
        ensures
            !self.spec_is_keeper_or_owner(caller) ==> r == Err::<(), Error>(Error::Unauthorized),
            self.spec_is_keeper_or_owner(caller) ==> r == Ok::<(), Error>(()),
    {
        let _returned_amount = amount;
        if caller != self.keeper && caller != self.owner {
            return Err(Error::Unauthorized);
        }
        Ok(())
    }

    /// Confirms that the keeper undelegated `amount` motes from
    /// `validator`: consumes that much of the pending undelegation intent
    /// and subtracts it from the confirmed `total_delegated` (keeper or
    /// owner only).
    pub fn confirm_undelegation(&mut self, caller: u64, validator: u64, amount: u128) -> (r:
        Result<(), Error>)
        requires
            old(self).wf(),
        ensures
            final(self).wf(),
            r is Err ==> *final(self) == *old(self),
            !old(self).spec_is_keeper_or_owner(caller) ==> r == Err::<(), Error>(
                Error::Unauthorized,
            ),
            old(self).spec_is_keeper_or_owner(caller) && (!old(
                self,
            ).pending_undelegations@.contains_key(validator) || old(
                self,
            ).pending_undelegations@[validator].amount < amount) ==> r == Err::<(), Error>(
                Error::InvalidAmount,
            ),
            old(self).spec_is_keeper_or_owner(caller) && old(
                self,
            ).pending_undelegations@.contains_key(validator) && old(
                self,
            ).pending_undelegations@[validator].amount >= amount ==> {
                &&& r == Ok::<(), Error>(())
                &&& final(self).total_delegated == (if old(self).total_delegated < amount {
                    0
                } else {
                    (old(self).total_delegated - amount) as u128
                })
                &&& (if old(self).pending_undelegations@[validator].amount == amount {
                    final(self).pending_undelegations@ == old(self).pending_undelegations@.remove(
                        validator,
                    )
                } else {
                    final(self).pending_undelegations@ == old(self).pending_undelegations@.insert(
                        validator,
                        PendingIntent {
                            validator,
                            amount: (old(self).pending_undelegations@[validator].amount
                                - amount) as u128,
                            era: old(self).pending_undelegations@[validator].era,
                        },
                    )
                })
                &&& final(self).pending_delegations.entries@ == old(
                    self,
                ).pending_delegations.entries@
                &&& final(self).total_staked == old(self).total_staked
                &&& final(self).total_pending_withdrawal == old(self).total_pending_withdrawal
                &&& final(self).spec_same_config(*old(self))
                &&& final(self).spec_same_withdrawals(*old(self))
                &&& final(self).spec_same_stakes(*old(self))
                &&& final(self).spec_same_rewards(*old(self))
            },
    {
        if caller != self.keeper && caller != self.owner {
            return Err(Error::Unauthorized);
        }
        let ok = self.pending_undelegations.consume(validator, amount);
        if !ok {
            return Err(Error::InvalidAmount);
        }
        self.total_delegated = self.total_delegated.saturating_sub(amount);
        proof {
            Self::lemma_wf_same_withdrawals(*old(self), *self);
        }
        Ok(())
    }

    /// Replaces the keeper (owner only).
    pub fn set_keeper(&mut self, caller: u64, new_keeper: u64) -> (r: Result<(), Error>)
        ensures
            caller != old(self).owner ==> r == Err::<(), Error>(Error::Unauthorized) && *final(self)
                == *old(self),
            caller == old(self).owner ==> r == Ok::<(), Error>(()) && *final(self) == (Self {
                keeper: new_keeper,
                ..*old(self)
            }),
    {
        if caller != self.owner {
            return Err(Error::Unauthorized);
        }
        self.keeper = new_keeper;
        Ok(())
    }
}

/// Packed key of the per-user, per-validator stake table.
fn stake_key(user: u64, validator: u64) -> (r: u128)
    ensures
        r == spec_stake_key(user, validator),
{
    pair_key(user, validator)
}

/// Stake-to-mint multiplier for a validator scored `p_score` against the
/// network average `p_avg`.
fn calculate_multiplier(p_score: u64, p_avg: u64) -> (r: u64)
    ensures
        r == spec_multiplier(p_score, p_avg),
        MIN_MULTIPLIER <= r <= MAX_MULTIPLIER,
{
    if p_avg == 0 {
        return BASIS_POINTS;
    }
    let multiplier = sat_mul_u64(p_score, BASIS_POINTS) / p_avg;
    if multiplier < MIN_MULTIPLIER {
        MIN_MULTIPLIER
    } else if multiplier > MAX_MULTIPLIER {
        MAX_MULTIPLIER
    } else {
        multiplier
    }
}

} // verus!
