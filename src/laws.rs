use vstd::prelude::*;
use crate::address::{claim_status_seeds, program_address};
use crate::config::{config_claim_step, initialize_step, new_config, Claim, Initialize};
use crate::error::ErrorCode;
use crate::identity::Identity;
use crate::pool::{holds_address, pool_claim_step, sweep_step, ClaimRecord, PoolAccount};
use crate::transfer::Account;

verus! {

/// Initializing a fresh config slot with a non-null authority and a positive ceiling
/// succeeds and stores exactly those values with a zero counter; any second
/// initialization of the same slot then fails and changes nothing.
pub proof fn lemma_initialize_exactly_once(
    ctx: Initialize,
    derived: Option<(Seq<u8>, u8)>,
    authority: Identity,
    max_tip_amount: u64,
    bump: u8,
    authority2: Identity,
    max_tip_amount2: u64,
    bump2: u8,
)
    requires
        derived is Some,
        derived->Some_0.0 == ctx.config_address@,
        ctx.config is None,
        !authority.is_null_spec(),
        max_tip_amount > 0,
    ensures
        initialize_step(ctx, derived, authority, max_tip_amount, bump).1 is Ok,
        initialize_step(ctx, derived, authority, max_tip_amount, bump).0.config == Some(
            new_config(authority, max_tip_amount, bump),
        ),
        initialize_step(
            initialize_step(ctx, derived, authority, max_tip_amount, bump).0,
            derived,
            authority2,
            max_tip_amount2,
            bump2,
        ) == (
            initialize_step(ctx, derived, authority, max_tip_amount, bump).0,
            Err::<crate::config::TipDistributionAccountInitializedEvent, ErrorCode>(ErrorCode::AccountAlreadyInUse),
        ),
{
}

/// After a successful claim by a claimant from a pool, every later claim by the same
/// claimant from the same pool, against any ledger that extends the one the first claim
/// produced, fails and leaves the ledger and both balances unchanged: the claim status
/// address depends on the claimant and the pool alone.
pub proof fn lemma_claim_at_most_once(
    ledger: Seq<ClaimRecord>,
    program_id: Seq<u8>,
    pool: PoolAccount,
    claimant: Account,
    payer: Identity,
    current_epoch: u64,
    bump: u8,
    amount: u64,
    later_ledger: Seq<ClaimRecord>,
    pool2: PoolAccount,
    claimant2: Account,
    payer2: Identity,
    current_epoch2: u64,
    bump2: u8,
    amount2: u64,
)
    requires
        program_address(claim_status_seeds(claimant.key@, pool.info.key@), program_id) matches Some(
            (a, _),
        ) && a.len() == 32,
        pool_claim_step(
            ledger,
            program_address(claim_status_seeds(claimant.key@, pool.info.key@), program_id),
            pool,
            claimant,
            payer,
            current_epoch,
            bump,
            amount,
        ).3 is Ok,
        later_ledger.len() >= ledger.len() + 1,
        later_ledger.subrange(0, ledger.len() as int + 1) == pool_claim_step(
            ledger,
            program_address(claim_status_seeds(claimant.key@, pool.info.key@), program_id),
            pool,
            claimant,
            payer,
            current_epoch,
            bump,
            amount,
        ).0,
        pool2.info.key@ == pool.info.key@,
        claimant2.key@ == claimant.key@,
    ensures
        ({
            let (l, p, c, r) = pool_claim_step(
                later_ledger,
                program_address(claim_status_seeds(claimant2.key@, pool2.info.key@), program_id),
                pool2,
                claimant2,
                payer2,
                current_epoch2,
                bump2,
                amount2,
            );
            r is Err && l == later_ledger && p == pool2 && c == claimant2
        }),
{
    let derived = program_address(claim_status_seeds(claimant.key@, pool.info.key@), program_id);
    let addr = derived->Some_0.0;
    let first = pool_claim_step(ledger, derived, pool, claimant, payer, current_epoch, bump, amount).0;
    let k = ledger.len() as int;
    Identity::lemma_from_view_of_len(addr);
    assert(first[k].address@ == addr);
    assert(later_ledger.subrange(0, k + 1)[k] == later_ledger[k]);
    assert(later_ledger[k].address@ == addr);
    assert(holds_address(later_ledger, addr));
}

/// A claim from a pool whose record already stands at the claimant's and the pool's
/// derived address fails and leaves ledger and both balances unchanged.
pub proof fn lemma_recorded_claim_rejected(
    ledger: Seq<ClaimRecord>,
    derived: Option<(Seq<u8>, u8)>,
    pool: PoolAccount,
    claimant: Account,
    payer: Identity,
    current_epoch: u64,
    bump: u8,
    amount: u64,
)
    requires
        derived is Some,
        holds_address(ledger, derived->Some_0.0),
    ensures
        ({
            let (l, p, c, r) = pool_claim_step(ledger, derived, pool, claimant, payer, current_epoch, bump, amount);
            r is Err && l == ledger && p == pool && c == claimant
        }),
        derived->Some_0.1 == bump ==> pool_claim_step(ledger, derived, pool, claimant, payer, current_epoch, bump, amount).3
            == Err::<crate::config::ClaimedEvent, ErrorCode>(ErrorCode::AccountAlreadyInUse),
{
}

/// A successful claim from a pool lowers the pool's balance by the amount and raises
/// the claimant's by the same amount; nothing else in either account changes.
pub proof fn lemma_pool_claim_moves_amount(
    ledger: Seq<ClaimRecord>,
    derived: Option<(Seq<u8>, u8)>,
    pool: PoolAccount,
    claimant: Account,
    payer: Identity,
    current_epoch: u64,
    bump: u8,
    amount: u64,
)
    requires
        pool_claim_step(ledger, derived, pool, claimant, payer, current_epoch, bump, amount).3 is Ok,
    ensures
        ({
            let (l, p, c, r) = pool_claim_step(ledger, derived, pool, claimant, payer, current_epoch, bump, amount);
            &&& p.info.lamports == pool.info.lamports - amount
            &&& c.lamports == claimant.lamports + amount
            &&& p.info.key == pool.info.key && p.data == pool.data
            &&& c.key == claimant.key
            &&& r->Ok_0.amount == amount
        }),
{
}

/// A successful claim against the config lowers the config account's balance by the
/// amount and raises the claimant's by the same amount; the authority, ceiling and
/// both keys stay as they were.
pub proof fn lemma_config_claim_moves_amount(ctx: Claim, amount: u64)
    requires
        config_claim_step(ctx, amount).1 is Ok,
    ensures
        ({
            let (c, r) = config_claim_step(ctx, amount);
            &&& c.config.info.lamports == ctx.config.info.lamports - amount
            &&& c.claimant.lamports == ctx.claimant.lamports + amount
            &&& c.config.info.key == ctx.config.info.key && c.claimant.key == ctx.claimant.key
            &&& c.config.data.distribution_authority == ctx.config.data.distribution_authority
            &&& c.config.data.max_tip_amount == ctx.config.data.max_tip_amount
            &&& r->Ok_0.amount == amount
        }),
{
}

/// A claim from a pool for more than the pool holds fails with an arithmetic error,
/// once the address, the record's absence and the claim window have been checked.
pub proof fn lemma_pool_claim_over_balance(
    ledger: Seq<ClaimRecord>,
    derived: Option<(Seq<u8>, u8)>,
    pool: PoolAccount,
    claimant: Account,
    payer: Identity,
    current_epoch: u64,
    bump: u8,
    amount: u64,
)
    requires
        derived is Some,
        derived->Some_0.1 == bump,
        !holds_address(ledger, derived->Some_0.0),
        current_epoch <= pool.data.expires_at,
        amount > pool.info.lamports,
    ensures
        pool_claim_step(ledger, derived, pool, claimant, payer, current_epoch, bump, amount) == (
            ledger,
            pool,
            claimant,
            Err::<crate::config::ClaimedEvent, ErrorCode>(ErrorCode::ArithmeticError),
        ),
{
}

/// An authorized claim against the config for more than the config account holds
/// fails with an arithmetic error and changes nothing.
pub proof fn lemma_config_claim_over_balance(ctx: Claim, amount: u64)
    requires
        ctx.config.data.distribution_authority@ == ctx.distribution_authority@,
        amount > ctx.config.info.lamports,
    ensures
        config_claim_step(ctx, amount) == (ctx, Err::<crate::config::ClaimedEvent, ErrorCode>(ErrorCode::ArithmeticError)),
{
}

/// An authorized claim against the config above its ceiling fails with an arithmetic
/// error and changes nothing, however much the config account holds.
pub proof fn lemma_config_claim_over_ceiling(ctx: Claim, amount: u64)
    requires
        ctx.config.data.distribution_authority@ == ctx.distribution_authority@,
        amount > ctx.config.data.max_tip_amount,
    ensures
        config_claim_step(ctx, amount) == (ctx, Err::<crate::config::ClaimedEvent, ErrorCode>(ErrorCode::ArithmeticError)),
{
}

/// A claim against the config signed by anyone but its distribution authority fails
/// as unauthorized and changes nothing.
pub proof fn lemma_config_claim_unauthorized(ctx: Claim, amount: u64)
    requires
        ctx.config.data.distribution_authority@ != ctx.distribution_authority@,
    ensures
        config_claim_step(ctx, amount) == (ctx, Err::<crate::config::ClaimedEvent, ErrorCode>(ErrorCode::Unauthorized)),
{
}

/// The state after `n` attempts of the same claim against the config.
pub open spec fn repeat_config_claim(ctx: Claim, amount: u64, n: nat) -> Claim
    decreases n,
{
    if n == 0 {
        ctx
    } else {
        repeat_config_claim(config_claim_step(ctx, amount).0, amount, (n - 1) as nat)
    }
}

/// A claim against the config that is rejected once is rejected the same way on every
/// retry, and any number of retries leaves the state as it was.
pub proof fn lemma_rejected_config_claim_repeats(ctx: Claim, amount: u64, n: nat)
    requires
        config_claim_step(ctx, amount).1 is Err,
    ensures
        repeat_config_claim(ctx, amount, n) == ctx,
        config_claim_step(repeat_config_claim(ctx, amount, n), amount) == config_claim_step(ctx, amount),
    decreases n,
{
    if n > 0 {
        lemma_rejected_config_claim_repeats(ctx, amount, (n - 1) as nat);
    }
}

/// A rejected pool claim leaves ledger and balances as they were, so retrying it
/// yields the same rejection again.
pub proof fn lemma_rejected_pool_claim_repeats(
    ledger: Seq<ClaimRecord>,
    derived: Option<(Seq<u8>, u8)>,
    pool: PoolAccount,
    claimant: Account,
    payer: Identity,
    current_epoch: u64,
    bump: u8,
    amount: u64,
)
    requires
        pool_claim_step(ledger, derived, pool, claimant, payer, current_epoch, bump, amount).3 is Err,
    ensures
        ({
            let (l, p, c, r) = pool_claim_step(ledger, derived, pool, claimant, payer, current_epoch, bump, amount);
            &&& l == ledger && p == pool && c == claimant
            &&& pool_claim_step(l, derived, p, c, payer, current_epoch, bump, amount).3 == r
        }),
{
}

/// A rejected sweep leaves both accounts as they were, so retrying it yields the same
/// rejection again.
pub proof fn lemma_rejected_sweep_repeats(pool: PoolAccount, validator: Account, current_epoch: u64, reserved_minimum: u64)
    requires
        sweep_step(pool, validator, current_epoch, reserved_minimum).2 is Err,
    ensures
        ({
            let (p, v, r) = sweep_step(pool, validator, current_epoch, reserved_minimum);
            &&& p == pool && v == validator
            &&& sweep_step(p, v, current_epoch, reserved_minimum).2 == r
        }),
{
}

/// A rejected initialization leaves the config slot as it was, so retrying it yields the
/// same rejection again.
pub proof fn lemma_rejected_initialize_repeats(
    ctx: Initialize,
    derived: Option<(Seq<u8>, u8)>,
    authority: Identity,
    max_tip_amount: u64,
    bump: u8,
)
    requires
        initialize_step(ctx, derived, authority, max_tip_amount, bump).1 is Err,
    ensures
        initialize_step(ctx, derived, authority, max_tip_amount, bump).0 == ctx,
        initialize_step(ctx, derived, authority, max_tip_amount, bump) == initialize_step(
            initialize_step(ctx, derived, authority, max_tip_amount, bump).0,
            derived,
            authority,
            max_tip_amount,
            bump,
        ),
{
}

/// A sweep of an expired pool whose balance lies at or below the reserved minimum
/// fails with an arithmetic error; in particular a second sweep right after a
/// successful one fails so.
pub proof fn lemma_sweep_twice_fails(pool: PoolAccount, validator: Account, current_epoch: u64, reserved_minimum: u64)
    requires
        sweep_step(pool, validator, current_epoch, reserved_minimum).2 is Ok,
    ensures
        ({
            let (p, v, r) = sweep_step(pool, validator, current_epoch, reserved_minimum);
            &&& p.info.lamports == reserved_minimum
            &&& v.lamports == validator.lamports + r->Ok_0
            &&& sweep_step(p, v, current_epoch, reserved_minimum) == (
                p,
                v,
                Err::<u64, ErrorCode>(ErrorCode::ArithmeticError),
            )
        }),
{
}

} // verus!
