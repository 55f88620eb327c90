//! Deployment wiring of the whole protocol: creates every component in
//! dependency order and connects the token authorities, exactly as the
//! deployment script does on the network.
//!
//! Installing the contracts and assigning their addresses is the host's
//! work; the wiring decisions - which component starts with which
//! configuration, and which authority points where - are verified here.
//! The tokens are created against a placeholder authority and repointed
//! once the dependent contracts exist.

use vstd::prelude::*;
use crate::cusd::CUSD;
use crate::oracle::PriceOracle;
use crate::oracle::MAX_AGE_DEFAULT;
use crate::pool::LiquidStaking;
use crate::registry::ValidatorRegistry;
use crate::vault::StayerVault;
use crate::yscspr::YSCSPR;

verus! {

/// Price the oracle starts with, in its fixed-point scale.
pub const INITIAL_PRICE: u128 = 50_000_000;

/// Authority the tokens start against until the dependent contracts exist.
pub const VAULT_PLACEHOLDER: u64 = 0;

/// Host-assigned addresses of the contracts being deployed, plus the
/// already-deployed collaborators.
#[derive(Clone, Copy, Debug, PartialEq, Eq, Structural)]
pub struct DeployAddresses {
    /// Address of the external price feed contract.
    pub styks: u64,
    /// Address of the staking auction contract.
    pub auction: u64,
    pub oracle: u64,
    pub registry: u64,
    pub cusd: u64,
    pub yscspr: u64,
    pub liquid_staking: u64,
    pub stayer: u64,
}

/// The freshly wired protocol.
pub struct DeployedContracts {
    pub oracle: PriceOracle,
    pub registry: ValidatorRegistry,
    pub cusd: CUSD,
    pub yscspr: YSCSPR,
    pub liquid_staking: LiquidStaking,
    pub stayer: StayerVault,
}

/// The deployment script: one `deploy` run creates and wires the protocol.
pub struct DeployStayerScript;

impl DeployStayerScript {
    /// Creates the six components at time `now` with `deployer` as owner
    /// and keeper, and wires the authorities: the vault may mint and burn
    /// the stable token, the pool and the vault may mint and burn the
    /// derivative token.
    pub fn deploy(&self, deployer: u64, now: u64, addresses: DeployAddresses) -> (r:
        DeployedContracts)
        ensures
            r.oracle.owner == deployer,
            r.oracle.price_data.price == INITIAL_PRICE,
            r.oracle.price_data.updated_at == now,
            r.oracle.max_age == MAX_AGE_DEFAULT,
            r.oracle.styks_oracle == addresses.styks,
            r.registry.owner == deployer,
            r.registry.keeper == deployer,
            r.registry.last_update_era == 0,
            r.cusd.owner == deployer,
            r.cusd.vault == addresses.stayer,
            r.cusd.token.total_supply == 0,
            r.yscspr.owner == deployer,
            r.yscspr.spec_is_authorized(addresses.liquid_staking),
            r.yscspr.spec_is_authorized(addresses.stayer),
            r.yscspr.token.total_supply == 0,
            r.liquid_staking.owner == deployer,
            r.liquid_staking.keeper == deployer,
            r.liquid_staking.validator_registry == addresses.registry,
            r.liquid_staking.yscspr_token == addresses.yscspr,
            r.liquid_staking.auction_contract == addresses.auction,
            r.liquid_staking.total_staked == 0,
            r.liquid_staking.wf(),
            r.stayer.owner == deployer,
            r.stayer.oracle == addresses.oracle,
            r.stayer.cusd_token == addresses.cusd,
            r.stayer.yscspr_token == addresses.yscspr,
            r.stayer.liquid_staking == addresses.liquid_staking,
            r.stayer.total_collateral == 0,
            r.stayer.total_debt == 0,
            !r.stayer.paused,
    {
        let oracle = PriceOracle::init(deployer, now, INITIAL_PRICE, addresses.styks);

        // The deployer doubles as the keeper until a dedicated one is set.
        let keeper_address = deployer;

        let registry = ValidatorRegistry::init(deployer, keeper_address);

        let mut cusd = CUSD::init(deployer, VAULT_PLACEHOLDER);
        let mut yscspr = YSCSPR::init(deployer, VAULT_PLACEHOLDER);

        let liquid_staking = LiquidStaking::init(
            deployer,
            addresses.registry,
            addresses.yscspr,
            addresses.auction,
            keeper_address,
        );

        let stayer = StayerVault::init(
            deployer,
            addresses.oracle,
            addresses.cusd,
            addresses.yscspr,
            addresses.liquid_staking,
        );

        // The vault mints and burns cUSD; the pool and the vault mint and
        // burn ySCSPR.
        let set = cusd.set_vault(deployer, addresses.stayer);
        proof {
            assert(set is Ok);
        }
        let added_pool = yscspr.add_authorized(deployer, addresses.liquid_staking);
        proof {
            assert(added_pool is Ok);
        }
        let added_vault = yscspr.add_authorized(deployer, addresses.stayer);
        proof {
            assert(added_vault is Ok);
        }

        DeployedContracts { oracle, registry, cusd, yscspr, liquid_staking, stayer }
    }
}

} // verus!
