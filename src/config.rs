use vstd::prelude::*;
use crate::address::{config_address, config_seeds, program_address};
use crate::error::ErrorCode;
use crate::identity::Identity;
use crate::transfer::{transfer_lamports, transfer_ok, Account};

verus! {

/// The singleton record that names who may approve claims and how much one claim may move.
#[derive(Clone, Copy, Debug)]
pub struct DistributionConfig {
    /// Identity with authority to distribute from the config account.
    pub distribution_authority: Identity,
    /// Largest number of lamports that a single claim may transfer.
    pub max_tip_amount: u64,
    /// Informational count of claims processed; it only goes up and stops at 255.
    pub claim_counter: u8,
    /// The bump used to derive this record's address.
    pub bump: u8,
}

/// The config record together with the account that holds its balance.
#[derive(Clone, Copy, Debug)]
pub struct ConfigAccount {
    pub info: Account,
    pub data: DistributionConfig,
}

/// Emitted when a claim completes.
#[derive(Clone, Copy, Debug)]
pub struct ClaimedEvent {
    /// The account that was claimed from.
    pub tip_distribution_account: Identity,
    /// The signer that paid for the operation.
    pub payer: Identity,
    /// The account that received the funds.
    pub claimant: Identity,
    /// The number of lamports moved.
    pub amount: u64,
}

/// Emitted when the config singleton is created.
#[derive(Clone, Copy, Debug)]
pub struct TipDistributionAccountInitializedEvent {
    pub tip_distribution_account: Identity,
}

impl DistributionConfig {
    pub open spec fn is_valid(&self) -> bool {
        self.max_tip_amount > 0 && !self.distribution_authority.is_null_spec()
    }

    /// Accepts a config whose ceiling is positive and whose authority is not the null identity.
    pub fn validate(&self) -> (r: Result<(), ErrorCode>)
        ensures
            r == (if self.is_valid() {
                Ok::<(), ErrorCode>(())
            } else {
                Err(ErrorCode::AccountValidationFailure)
            }),
    {
        if self.max_tip_amount == 0 {
            return Err(ErrorCode::AccountValidationFailure);
        }
        if self.distribution_authority.is_null() {
            return Err(ErrorCode::AccountValidationFailure);
        }
        Ok(())
    }

    /// Pays `amount` lamports out of the config account `from` into `to`.
    pub fn claim(from: &mut Account, to: &mut Account, amount: u64) -> (r: Result<(), ErrorCode>)
        ensures
            r is Ok <==> transfer_ok(old(from).lamports, old(to).lamports, amount),
            r is Ok ==> final(from).lamports == old(from).lamports - amount
                && final(to).lamports == old(to).lamports + amount,
            r is Err ==> r == Err::<(), ErrorCode>(ErrorCode::ArithmeticError)
                && *final(from) == *old(from) && *final(to) == *old(to),
            final(from).key == old(from).key,
            final(to).key == old(to).key,
    {
        transfer_lamports(from, to, amount)
    }
}

/// What creating the config singleton works on: the program, the address at which
/// the record is to be created, and the record there, if one already exists.
#[derive(Clone, Copy, Debug)]
pub struct Initialize {
    pub program_id: Identity,
    pub config_address: Identity,
    pub config: Option<DistributionConfig>,
    pub initializer: Identity,
}

/// The config that a successful initialization creates.
pub open spec fn new_config(authority: Identity, max_tip_amount: u64, bump: u8) -> DistributionConfig {
    DistributionConfig { distribution_authority: authority, max_tip_amount, claim_counter: 0, bump }
}

/// The effect of creating the config singleton, where `derived` is the address that
/// the config seeds resolve to under the program id.
pub open spec fn initialize_step(
    ctx: Initialize,
    derived: Option<(Seq<u8>, u8)>,
    authority: Identity,
    max_tip_amount: u64,
    bump: u8,
) -> (Initialize, Result<TipDistributionAccountInitializedEvent, ErrorCode>) {
    if derived is None || derived->Some_0.0 != ctx.config_address@ {
        (ctx, Err(ErrorCode::InvalidSeeds))
    } else if ctx.config is Some {
        (ctx, Err(ErrorCode::AccountAlreadyInUse))
    } else if !new_config(authority, max_tip_amount, bump).is_valid() {
        (ctx, Err(ErrorCode::AccountValidationFailure))
    } else {
        (
            Initialize { config: Some(new_config(authority, max_tip_amount, bump)), ..ctx },
            Ok(TipDistributionAccountInitializedEvent { tip_distribution_account: ctx.config_address }),
        )
    }
}

/// Creates the config singleton at its derived address.
pub fn initialize(
    ctx: &mut Initialize,
    distribution_authority: Identity,
    max_tip_amount: u64,
    bump: u8,
) -> (r: Result<TipDistributionAccountInitializedEvent, ErrorCode>)
    ensures
        (*final(ctx), r) == initialize_step(
            *old(ctx),
            program_address(config_seeds(), old(ctx).program_id@),
            distribution_authority,
            max_tip_amount,
            bump,
        ),
{
    match config_address(&ctx.program_id) {
        Some((addr, _)) => {
            if !addr.same(&ctx.config_address) {
                return Err(ErrorCode::InvalidSeeds);
            }
        },
        None => {
            return Err(ErrorCode::InvalidSeeds);
        },
    }
    if ctx.config.is_some() {
        return Err(ErrorCode::AccountAlreadyInUse);
    }
    let cfg = DistributionConfig { distribution_authority, max_tip_amount, claim_counter: 0, bump };
    cfg.validate()?;
    ctx.config = Some(cfg);
    Ok(TipDistributionAccountInitializedEvent { tip_distribution_account: ctx.config_address })
}

/// What a claim against the config works on.
#[derive(Clone, Copy, Debug)]
pub struct Claim {
    pub config: ConfigAccount,
    pub claimant: Account,
    /// The identity that signed as distribution authority.
    pub distribution_authority: Identity,
    /// The identity that pays for the operation.
    pub payer: Identity,
}

impl Claim {
    /// Accepts only a signer equal to the config's distribution authority.
    pub fn auth(&self) -> (r: Result<(), ErrorCode>)
        ensures
            r == (if self.config.data.distribution_authority@ == self.distribution_authority@ {
                Ok::<(), ErrorCode>(())
            } else {
                Err(ErrorCode::Unauthorized)
            }),
    {
        if self.config.data.distribution_authority.same(&self.distribution_authority) {
            Ok(())
        } else {
            Err(ErrorCode::Unauthorized)
        }
    }
}

/// The counter after one more claim, staying at 255 once it gets there.
pub open spec fn next_count(c: u8) -> u8 {
    if c == 255 {
        255
    } else {
        (c + 1) as u8
    }
}

/// The effect of a claim of `amount` against the config.
pub open spec fn config_claim_step(ctx: Claim, amount: u64) -> (Claim, Result<ClaimedEvent, ErrorCode>) {
    if ctx.config.data.distribution_authority@ != ctx.distribution_authority@ {
        (ctx, Err(ErrorCode::Unauthorized))
    } else if amount > ctx.config.data.max_tip_amount {
        (ctx, Err(ErrorCode::ArithmeticError))
    } else if !transfer_ok(ctx.config.info.lamports, ctx.claimant.lamports, amount) {
        (ctx, Err(ErrorCode::ArithmeticError))
    } else {
        (
            Claim {
                config: ConfigAccount {
                    info: Account { lamports: (ctx.config.info.lamports - amount) as u64, ..ctx.config.info },
                    data: DistributionConfig {
                        claim_counter: next_count(ctx.config.data.claim_counter),
                        ..ctx.config.data
                    },
                },
                claimant: Account { lamports: (ctx.claimant.lamports + amount) as u64, ..ctx.claimant },
                ..ctx
            },
            Ok(ClaimedEvent {
                tip_distribution_account: ctx.config.info.key,
                payer: ctx.payer,
                claimant: ctx.claimant.key,
                amount,
            }),
        )
    }
}

/// Pays `amount` lamports from the config account to the claimant, after checking the
/// signer against the config's authority and the amount against its ceiling.
pub fn claim(ctx: &mut Claim, amount: u64) -> (r: Result<ClaimedEvent, ErrorCode>)
    ensures
        (*final(ctx), r) == config_claim_step(*old(ctx), amount),
{
    ctx.auth()?;
    if amount > ctx.config.data.max_tip_amount {
        return Err(ErrorCode::ArithmeticError);
    }
    DistributionConfig::claim(&mut ctx.config.info, &mut ctx.claimant, amount)?;
    let c = ctx.config.data.claim_counter;
    ctx.config.data.claim_counter = if c == 255 { 255 } else { c + 1 };
    Ok(ClaimedEvent {
        tip_distribution_account: ctx.config.info.key,
        payer: ctx.payer,
        claimant: ctx.claimant.key,
        amount,
    })
}

} // verus!
