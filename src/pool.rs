use vstd::prelude::*;
use crate::address::{claim_status_address, claim_status_seeds, program_address};
use crate::config::ClaimedEvent;
use crate::error::ErrorCode;
use crate::identity::Identity;
use crate::transfer::{transfer_lamports, transfer_ok, Account};

verus! {

/// The write-once record whose existence proves that a claimant has claimed from a pool.
#[derive(Clone, Copy, Debug)]
pub struct ClaimStatus {
    /// Set when the record is created.
    pub is_claimed: bool,
    /// Identity that claimed.
    pub claimant: Identity,
    /// Identity that paid for the record's storage.
    pub claim_status_payer: Identity,
    /// Lamports claimed.
    pub amount: u64,
    /// The bump used to derive this record's address.
    pub bump: u8,
}

/// One funded reward pool.
#[derive(Clone, Copy, Debug)]
pub struct TipDistributionAccount {
    /// Receives the residual balance once the pool has expired.
    pub validator_vote_account: Identity,
    /// Epoch in which the pool was created.
    pub epoch_created_at: u64,
    /// Commission that the validator charges, in basis points.
    pub validator_commission_bps: u16,
    /// Last epoch (inclusive) in which claims are accepted.
    pub expires_at: u64,
    /// The bump used to derive this record's address.
    pub bump: u8,
}

/// The pool record together with the account that holds its balance.
#[derive(Clone, Copy, Debug)]
pub struct PoolAccount {
    pub info: Account,
    pub data: TipDistributionAccount,
}

impl TipDistributionAccount {
    pub open spec fn is_valid(&self) -> bool {
        self.epoch_created_at <= self.expires_at
    }

    /// Accepts a pool whose claim window does not end before it starts.
    pub fn validate(&self) -> (r: Result<(), ErrorCode>)
        ensures
            r == (if self.is_valid() {
                Ok::<(), ErrorCode>(())
            } else {
                Err(ErrorCode::AccountValidationFailure)
            }),
    {
        if self.epoch_created_at > self.expires_at {
            Err(ErrorCode::AccountValidationFailure)
        } else {
            Ok(())
        }
    }

    /// Moves the balance of `from` above `reserved_minimum` to `to`, and returns it.
    /// Fails when nothing lies above the minimum.
    pub fn claim_expired(from: &mut Account, to: &mut Account, reserved_minimum: u64) -> (r: Result<u64, ErrorCode>)
        ensures
            r is Ok <==> old(from).lamports > reserved_minimum
                && transfer_ok(old(from).lamports, old(to).lamports, (old(from).lamports - reserved_minimum) as u64),
            r matches Ok(amount) ==> amount == old(from).lamports - reserved_minimum
                && final(from).lamports == reserved_minimum
                && final(to).lamports == old(to).lamports + amount,
            r is Err ==> r == Err::<u64, ErrorCode>(ErrorCode::ArithmeticError)
                && *final(from) == *old(from) && *final(to) == *old(to),
            final(from).key == old(from).key,
            final(to).key == old(to).key,
    {
        if from.lamports <= reserved_minimum {
            return Err(ErrorCode::ArithmeticError);
        }
        let amount = from.lamports - reserved_minimum;
        transfer_lamports(from, to, amount)?;
        Ok(amount)
    }

    /// Pays `amount` lamports out of the pool account `from` into `to`.
    pub fn claim(from: &mut Account, to: &mut Account, amount: u64) -> (r: Result<(), ErrorCode>)
        ensures
            r is Ok <==> transfer_ok(old(from).lamports, old(to).lamports, amount),
            r is Ok ==> final(from).lamports == old(from).lamports - amount
                && final(to).lamports == old(to).lamports + amount,
            r is Err ==> r == Err::<(), ErrorCode>(ErrorCode::ArithmeticError)
                && *final(from) == *old(from) && *final(to) == *old(to),
            final(from).key == old(from).key,
            final(to).key == old(to).key,
    {
        transfer_lamports(from, to, amount)
    }
}

/// A claim status record at its derived address.
#[derive(Clone, Copy, Debug)]
pub struct ClaimRecord {
    pub address: Identity,
    pub status: ClaimStatus,
}

/// Whether some record in `records` stands at `address`.
pub open spec fn holds_address(records: Seq<ClaimRecord>, address: Seq<u8>) -> bool {
    exists|i: int| 0 <= i < records.len() && #[trigger] records[i].address@ == address
}

/// The store of claim status records: append-only, at most one record per address.
pub struct ClaimLedger {
    records: Vec<ClaimRecord>,
}

impl ClaimLedger {
    pub closed spec fn view(&self) -> Seq<ClaimRecord> {
        self.records@
    }

    /// No two records share an address.
    pub open spec fn wf(&self) -> bool {
        forall|i: int, j: int|
            0 <= i < self@.len() && 0 <= j < self@.len() && i != j ==> #[trigger] self@[i].address@ != #[trigger] self@[j].address@
    }

    pub fn new() -> (r: ClaimLedger)
        ensures
            r.wf(),
            r@.len() == 0,
    {
        ClaimLedger { records: Vec::new() }
    }

    pub fn len(&self) -> (r: usize)
        ensures
            r == self@.len(),
    {
        self.records.len()
    }

    pub fn get(&self, i: usize) -> (r: ClaimRecord)
        requires
            i < self@.len(),
        ensures
            r == self@[i as int],
    {
        self.records[i]
    }

    /// Whether a record stands at `address`.
    pub fn contains(&self, address: &Identity) -> (r: bool)
        ensures
            r == holds_address(self@, address@),
    {
        let mut i: usize = 0;
        while i < self.records.len()
            invariant
                0 <= i <= self.records@.len(),
                forall|j: int| 0 <= j < i ==> self.records@[j].address@ != address@,
            decreases self.records@.len() - i,
        {
            if self.records[i].address.same(address) {
                return true;
            }
            i = i + 1;
        }
        false
    }

    /// Creates a record at `address`; fails if one already stands there.
    pub fn record_claim(&mut self, address: Identity, status: ClaimStatus) -> (r: Result<(), ErrorCode>)
        requires
            old(self).wf(),
        ensures
            final(self).wf(),
            r is Ok <==> !holds_address(old(self)@, address@),
            r is Ok ==> final(self)@ == old(self)@.push(ClaimRecord { address, status }),
            r is Err ==> r == Err::<(), ErrorCode>(ErrorCode::AccountAlreadyInUse) && final(self)@ == old(self)@,
    {
        if self.contains(&address) {
            return Err(ErrorCode::AccountAlreadyInUse);
        }
        self.records.push(ClaimRecord { address, status });
        Ok(())
    }
}

/// The record that a successful pool claim creates.
pub open spec fn new_claim_status(claimant: Identity, payer: Identity, amount: u64, bump: u8) -> ClaimStatus {
    ClaimStatus { is_claimed: true, claimant, claim_status_payer: payer, amount, bump }
}

/// The effect of a claim of `amount` from `pool` by `claimant`, where `derived` is the
/// address and bump that the claim status seeds resolve to under the program id.
/// Yields the ledger, the pool and the claimant after the operation, and its result.
pub open spec fn pool_claim_step(
    ledger: Seq<ClaimRecord>,
    derived: Option<(Seq<u8>, u8)>,
    pool: PoolAccount,
    claimant: Account,
    payer: Identity,
    current_epoch: u64,
    bump: u8,
    amount: u64,
) -> (Seq<ClaimRecord>, PoolAccount, Account, Result<ClaimedEvent, ErrorCode>) {
    if derived is None || derived->Some_0.1 != bump {
        (ledger, pool, claimant, Err(ErrorCode::InvalidSeeds))
    } else if holds_address(ledger, derived->Some_0.0) {
        (ledger, pool, claimant, Err(ErrorCode::AccountAlreadyInUse))
    } else if current_epoch > pool.data.expires_at {
        (ledger, pool, claimant, Err(ErrorCode::ClaimWindowExpired))
    } else if !transfer_ok(pool.info.lamports, claimant.lamports, amount) {
        (ledger, pool, claimant, Err(ErrorCode::ArithmeticError))
    } else {
        (
            ledger.push(
                ClaimRecord {
                    address: Identity::from_view(derived->Some_0.0),
                    status: new_claim_status(claimant.key, payer, amount, bump),
                },
            ),
            PoolAccount { info: Account { lamports: (pool.info.lamports - amount) as u64, ..pool.info }, ..pool },
            Account { lamports: (claimant.lamports + amount) as u64, ..claimant },
            Ok(ClaimedEvent { tip_distribution_account: pool.info.key, payer, claimant: claimant.key, amount }),
        )
    }
}

/// Claims `amount` lamports from `pool` for `claimant`. The claim status record of the
/// pair is created at its derived address in the same step; since that address is a
/// function of the claimant and the pool alone, a second claim of the pair collides
/// with the first record and is rejected before any balance moves.
pub fn claim_from_pool(
    ledger: &mut ClaimLedger,
    program_id: &Identity,
    pool: &mut PoolAccount,
    claimant: &mut Account,
    payer: &Identity,
    current_epoch: u64,
    bump: u8,
    amount: u64,
) -> (r: Result<ClaimedEvent, ErrorCode>)
    requires
        old(ledger).wf(),
    ensures
        final(ledger).wf(),
        program_address(claim_status_seeds(old(claimant).key@, old(pool).info.key@), program_id@) matches Some(
            (a, _),
        ) ==> a.len() == 32 && Identity::from_view(a)@ == a && (r is Ok ==> holds_address(final(ledger)@, a)),
        (final(ledger)@, *final(pool), *final(claimant), r) == pool_claim_step(
            old(ledger)@,
            program_address(claim_status_seeds(old(claimant).key@, old(pool).info.key@), program_id@),
            *old(pool),
            *old(claimant),
            *payer,
            current_epoch,
            bump,
            amount,
        ),
{
    let (address, found_bump) = match claim_status_address(&claimant.key, &pool.info.key, program_id) {
        Some(found) => found,
        None => { return Err(ErrorCode::InvalidSeeds); },
    };
    if found_bump != bump {
        return Err(ErrorCode::InvalidSeeds);
    }
    if ledger.contains(&address) {
        return Err(ErrorCode::AccountAlreadyInUse);
    }
    if current_epoch > pool.data.expires_at {
        return Err(ErrorCode::ClaimWindowExpired);
    }
    TipDistributionAccount::claim(&mut pool.info, claimant, amount)?;
    let status = ClaimStatus {
        is_claimed: true,
        claimant: claimant.key,
        claim_status_payer: *payer,
        amount,
        bump,
    };
    proof {
        Identity::lemma_from_view(address);
    }
    let _ = ledger.record_claim(address, status);
    assert(ledger@[ledger@.len() - 1].address@ == address@);
    Ok(ClaimedEvent { tip_distribution_account: pool.info.key, payer: *payer, claimant: claimant.key, amount })
}

/// The effect of sweeping an expired pool's residual balance to its validator.
pub open spec fn sweep_step(pool: PoolAccount, validator: Account, current_epoch: u64, reserved_minimum: u64) -> (
    PoolAccount,
    Account,
    Result<u64, ErrorCode>,
) {
    if validator.key@ != pool.data.validator_vote_account@ {
        (pool, validator, Err(ErrorCode::Unauthorized))
    } else if current_epoch <= pool.data.expires_at {
        (pool, validator, Err(ErrorCode::ClaimWindowOpen))
    } else if pool.info.lamports <= reserved_minimum || !transfer_ok(
        pool.info.lamports,
        validator.lamports,
        (pool.info.lamports - reserved_minimum) as u64,
    ) {
        (pool, validator, Err(ErrorCode::ArithmeticError))
    } else {
        (
            PoolAccount { info: Account { lamports: reserved_minimum, ..pool.info }, ..pool },
            Account { lamports: (validator.lamports + (pool.info.lamports - reserved_minimum)) as u64, ..validator },
            Ok((pool.info.lamports - reserved_minimum) as u64),
        )
    }
}

/// Once the claim window has closed, moves the pool's balance above `reserved_minimum`
/// (what the host needs to keep the account alive) to the pool's validator.
pub fn sweep_expired_pool(
    pool: &mut PoolAccount,
    validator: &mut Account,
    current_epoch: u64,
    reserved_minimum: u64,
) -> (r: Result<u64, ErrorCode>)
    ensures
        (*final(pool), *final(validator), r) == sweep_step(*old(pool), *old(validator), current_epoch, reserved_minimum),
{
    if !validator.key.same(&pool.data.validator_vote_account) {
        return Err(ErrorCode::Unauthorized);
    }
    if current_epoch <= pool.data.expires_at {
        return Err(ErrorCode::ClaimWindowOpen);
    }
    TipDistributionAccount::claim_expired(&mut pool.info, validator, reserved_minimum)
}

} // verus!
