use tip_distribution::address::{claim_status_address, config_address};
use tip_distribution::config::{claim, initialize, Claim, ConfigAccount, DistributionConfig, Initialize};
use tip_distribution::error::ErrorCode;
use tip_distribution::identity::Identity;
use tip_distribution::pool::{
    claim_from_pool, sweep_expired_pool, ClaimLedger, PoolAccount, TipDistributionAccount,
};
use tip_distribution::transfer::{transfer_lamports, Account};

fn id(b: u8) -> Identity {
    Identity { bytes: [b; 32] }
}

fn program() -> Identity {
    id(7)
}

fn config_ctx(max: u64, balance: u64, signer: Identity) -> Claim {
    Claim {
        config: ConfigAccount {
            info: Account { key: id(2), lamports: balance },
            data: DistributionConfig {
                distribution_authority: id(1),
                max_tip_amount: max,
                claim_counter: 0,
                bump: 254,
            },
        },
        claimant: Account { key: id(3), lamports: 5 },
        distribution_authority: signer,
        payer: id(4),
    }
}

fn pool(balance: u64) -> PoolAccount {
    PoolAccount {
        info: Account { key: id(9), lamports: balance },
        data: TipDistributionAccount {
            validator_vote_account: id(8),
            epoch_created_at: 10,
            validator_commission_bps: 500,
            expires_at: 13,
            bump: 255,
        },
    }
}

fn claim_bump(claimant: &Identity, pool_key: &Identity) -> u8 {
    claim_status_address(claimant, pool_key, &program()).unwrap().1
}

fn init_ctx() -> Initialize {
    let (addr, _) = config_address(&program()).unwrap();
    Initialize { program_id: program(), config_address: addr, config: None, initializer: id(4) }
}

#[test]
fn initialize_succeeds_once() {
    let mut ctx = init_ctx();
    let ev = initialize(&mut ctx, id(1), 100, 254).unwrap();
    assert_eq!(ev.tip_distribution_account.bytes, ctx.config_address.bytes);
    let cfg = ctx.config.unwrap();
    assert_eq!(cfg.distribution_authority.bytes, [1u8; 32]);
    assert_eq!(cfg.max_tip_amount, 100);
    assert_eq!(cfg.claim_counter, 0);
    assert_eq!(cfg.bump, 254);
    assert_eq!(initialize(&mut ctx, id(5), 7, 1).unwrap_err(), ErrorCode::AccountAlreadyInUse);
    assert_eq!(ctx.config.unwrap().max_tip_amount, 100);
}

#[test]
fn initialize_rejects_null_authority_and_zero_ceiling() {
    let mut ctx = init_ctx();
    assert_eq!(initialize(&mut ctx, Identity::null(), 100, 1).unwrap_err(), ErrorCode::AccountValidationFailure);
    assert_eq!(initialize(&mut ctx, id(1), 0, 1).unwrap_err(), ErrorCode::AccountValidationFailure);
    assert!(ctx.config.is_none());
}

#[test]
fn initialize_rejects_wrong_address() {
    let mut ctx = init_ctx();
    ctx.config_address = id(6);
    assert_eq!(initialize(&mut ctx, id(1), 100, 1).unwrap_err(), ErrorCode::InvalidSeeds);
    assert!(ctx.config.is_none());
}

#[test]
fn derived_addresses_are_deterministic_and_distinct() {
    let a = claim_status_address(&id(3), &id(9), &program()).unwrap();
    let b = claim_status_address(&id(3), &id(9), &program()).unwrap();
    let c = claim_status_address(&id(5), &id(9), &program()).unwrap();
    let d = claim_status_address(&id(3), &id(10), &program()).unwrap();
    assert_eq!(a.0.bytes, b.0.bytes);
    assert_eq!(a.1, b.1);
    assert_ne!(a.0.bytes, c.0.bytes);
    assert_ne!(a.0.bytes, d.0.bytes);
    assert_ne!(a.0.bytes, program().bytes);
    assert_ne!(a.0.bytes, id(3).bytes);
    let cfg = config_address(&program()).unwrap();
    assert_ne!(cfg.0.bytes, a.0.bytes);
    assert_ne!(cfg.0.bytes, program().bytes);
}

#[test]
fn config_claim_over_ceiling_then_at_ceiling() {
    let mut ctx = config_ctx(100, 1000, id(1));
    assert_eq!(claim(&mut ctx, 150).unwrap_err(), ErrorCode::ArithmeticError);
    assert_eq!(ctx.config.info.lamports, 1000);
    assert_eq!(ctx.claimant.lamports, 5);
    let ev = claim(&mut ctx, 100).unwrap();
    assert_eq!(ev.amount, 100);
    assert_eq!(ev.claimant.bytes, id(3).bytes);
    assert_eq!(ev.tip_distribution_account.bytes, id(2).bytes);
    assert_eq!(ctx.config.info.lamports, 900);
    assert_eq!(ctx.claimant.lamports, 105);
    assert_eq!(ctx.config.data.claim_counter, 1);
}

#[test]
fn config_claim_unauthorized_signer() {
    let mut ctx = config_ctx(100, 1000, id(6));
    assert_eq!(claim(&mut ctx, 10).unwrap_err(), ErrorCode::Unauthorized);
    assert_eq!(claim(&mut ctx, 150).unwrap_err(), ErrorCode::Unauthorized);
    assert_eq!(ctx.config.info.lamports, 1000);
    assert_eq!(ctx.claimant.lamports, 5);
}

#[test]
fn config_claim_over_balance() {
    let mut ctx = config_ctx(100, 50, id(1));
    assert_eq!(claim(&mut ctx, 60).unwrap_err(), ErrorCode::ArithmeticError);
    assert_eq!(ctx.config.info.lamports, 50);
    assert_eq!(ctx.claimant.lamports, 5);
    assert_eq!(ctx.config.data.claim_counter, 0);
}

#[test]
fn config_claim_counter_stops_at_top() {
    let mut ctx = config_ctx(100, 1000, id(1));
    ctx.config.data.claim_counter = 254;
    claim(&mut ctx, 1).unwrap();
    assert_eq!(ctx.config.data.claim_counter, 255);
    claim(&mut ctx, 1).unwrap();
    assert_eq!(ctx.config.data.claim_counter, 255);
    assert_eq!(ctx.config.info.lamports, 998);
}

#[test]
fn repeated_rejection_changes_nothing() {
    let mut ctx = config_ctx(100, 1000, id(1));
    for _ in 0..5 {
        assert_eq!(claim(&mut ctx, 150).unwrap_err(), ErrorCode::ArithmeticError);
    }
    assert_eq!(ctx.config.info.lamports, 1000);
    assert_eq!(ctx.claimant.lamports, 5);
    assert_eq!(ctx.config.data.claim_counter, 0);
}

#[test]
fn pool_claim_once_per_pair() {
    let mut ledger = ClaimLedger::new();
    let mut p = pool(1000);
    let mut c = Account { key: id(3), lamports: 5 };
    let bump = claim_bump(&c.key, &p.info.key);
    let ev = claim_from_pool(&mut ledger, &program(), &mut p, &mut c, &id(4), 12, bump, 300).unwrap();
    assert_eq!(ev.amount, 300);
    assert_eq!(ev.payer.bytes, id(4).bytes);
    assert_eq!(p.info.lamports, 700);
    assert_eq!(c.lamports, 305);
    assert_eq!(ledger.len(), 1);
    let rec = ledger.get(0);
    assert!(rec.status.is_claimed);
    assert_eq!(rec.status.amount, 300);
    assert_eq!(rec.status.claimant.bytes, id(3).bytes);
    assert_eq!(rec.status.claim_status_payer.bytes, id(4).bytes);
    assert_eq!(rec.address.bytes, claim_status_address(&id(3), &id(9), &program()).unwrap().0.bytes);
    let again = claim_from_pool(&mut ledger, &program(), &mut p, &mut c, &id(4), 12, bump, 1);
    assert_eq!(again.unwrap_err(), ErrorCode::AccountAlreadyInUse);
    assert_eq!(p.info.lamports, 700);
    assert_eq!(c.lamports, 305);
    assert_eq!(ledger.len(), 1);
}

#[test]
fn pool_claims_by_different_claimants() {
    let mut ledger = ClaimLedger::new();
    let mut p = pool(1000);
    let mut c1 = Account { key: id(3), lamports: 0 };
    let mut c2 = Account { key: id(5), lamports: 0 };
    let b1 = claim_bump(&c1.key, &p.info.key);
    let b2 = claim_bump(&c2.key, &p.info.key);
    claim_from_pool(&mut ledger, &program(), &mut p, &mut c1, &id(4), 10, b1, 100).unwrap();
    claim_from_pool(&mut ledger, &program(), &mut p, &mut c2, &id(4), 13, b2, 200).unwrap();
    assert_eq!(p.info.lamports, 700);
    assert_eq!(c1.lamports, 100);
    assert_eq!(c2.lamports, 200);
    assert_eq!(ledger.len(), 2);
}

#[test]
fn pool_claim_over_balance() {
    let mut ledger = ClaimLedger::new();
    let mut p = pool(100);
    let mut c = Account { key: id(3), lamports: 5 };
    let bump = claim_bump(&c.key, &p.info.key);
    let r = claim_from_pool(&mut ledger, &program(), &mut p, &mut c, &id(4), 12, bump, 101);
    assert_eq!(r.unwrap_err(), ErrorCode::ArithmeticError);
    assert_eq!(p.info.lamports, 100);
    assert_eq!(c.lamports, 5);
    assert_eq!(ledger.len(), 0);
    claim_from_pool(&mut ledger, &program(), &mut p, &mut c, &id(4), 12, bump, 100).unwrap();
    assert_eq!(p.info.lamports, 0);
}

#[test]
fn pool_claim_credit_overflow() {
    let mut ledger = ClaimLedger::new();
    let mut p = pool(100);
    let mut c = Account { key: id(3), lamports: u64::MAX };
    let bump = claim_bump(&c.key, &p.info.key);
    let r = claim_from_pool(&mut ledger, &program(), &mut p, &mut c, &id(4), 12, bump, 1);
    assert_eq!(r.unwrap_err(), ErrorCode::ArithmeticError);
    assert_eq!(p.info.lamports, 100);
    assert_eq!(ledger.len(), 0);
}

#[test]
fn pool_claim_after_expiry_or_wrong_bump() {
    let mut ledger = ClaimLedger::new();
    let mut p = pool(100);
    let mut c = Account { key: id(3), lamports: 5 };
    let bump = claim_bump(&c.key, &p.info.key);
    let late = claim_from_pool(&mut ledger, &program(), &mut p, &mut c, &id(4), 14, bump, 1);
    assert_eq!(late.unwrap_err(), ErrorCode::ClaimWindowExpired);
    let wrong = claim_from_pool(&mut ledger, &program(), &mut p, &mut c, &id(4), 12, bump.wrapping_sub(1), 1);
    assert_eq!(wrong.unwrap_err(), ErrorCode::InvalidSeeds);
    assert_eq!(p.info.lamports, 100);
    assert_eq!(c.lamports, 5);
    assert_eq!(ledger.len(), 0);
}

#[test]
fn sweep_expired_pool_once() {
    let mut p = pool(1000);
    let mut v = Account { key: id(8), lamports: 0 };
    assert_eq!(sweep_expired_pool(&mut p, &mut v, 14, 10).unwrap(), 990);
    assert_eq!(p.info.lamports, 10);
    assert_eq!(v.lamports, 990);
    assert_eq!(sweep_expired_pool(&mut p, &mut v, 14, 10).unwrap_err(), ErrorCode::ArithmeticError);
    assert_eq!(p.info.lamports, 10);
    assert_eq!(v.lamports, 990);
}

#[test]
fn sweep_rejects_open_window_and_wrong_validator() {
    let mut p = pool(1000);
    let mut v = Account { key: id(8), lamports: 0 };
    assert_eq!(sweep_expired_pool(&mut p, &mut v, 13, 10).unwrap_err(), ErrorCode::ClaimWindowOpen);
    let mut other = Account { key: id(6), lamports: 0 };
    assert_eq!(sweep_expired_pool(&mut p, &mut other, 14, 10).unwrap_err(), ErrorCode::Unauthorized);
    assert_eq!(p.info.lamports, 1000);
    assert_eq!(v.lamports, 0);
    assert_eq!(other.lamports, 0);
}

#[test]
fn validate_records() {
    let good = config_ctx(100, 0, id(1)).config.data;
    assert!(good.validate().is_ok());
    let mut bad = good;
    bad.max_tip_amount = 0;
    assert_eq!(bad.validate().unwrap_err(), ErrorCode::AccountValidationFailure);
    let mut bad = good;
    bad.distribution_authority = Identity::null();
    assert_eq!(bad.validate().unwrap_err(), ErrorCode::AccountValidationFailure);
    let p = pool(0).data;
    assert!(p.validate().is_ok());
    let mut q = p;
    q.expires_at = 9;
    assert_eq!(q.validate().unwrap_err(), ErrorCode::AccountValidationFailure);
    let mut q = p;
    q.validator_commission_bps = 10001;
    assert!(q.validate().is_ok());
    let mut q = p;
    q.expires_at = q.epoch_created_at;
    assert!(q.validate().is_ok());
}

#[test]
fn transfer_moves_or_leaves_both() {
    let mut a = Account { key: id(1), lamports: 10 };
    let mut b = Account { key: id(2), lamports: 3 };
    transfer_lamports(&mut a, &mut b, 4).unwrap();
    assert_eq!((a.lamports, b.lamports), (6, 7));
    assert_eq!(transfer_lamports(&mut a, &mut b, 7).unwrap_err(), ErrorCode::ArithmeticError);
    assert_eq!((a.lamports, b.lamports), (6, 7));
    b.lamports = u64::MAX - 1;
    assert_eq!(transfer_lamports(&mut a, &mut b, 2).unwrap_err(), ErrorCode::ArithmeticError);
    assert_eq!((a.lamports, b.lamports), (6, u64::MAX - 1));
}

#[test]
fn identity_helpers() {
    assert!(Identity::null().is_null());
    assert!(!id(1).is_null());
    assert!(id(1).same(&id(1)));
    assert!(!id(1).same(&id(2)));
    assert!(id(1) == id(1));
    assert_eq!(id(3).to_vec(), vec![3u8; 32]);
}
