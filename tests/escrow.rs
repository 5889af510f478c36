use pumpit::escrow::{MAX_CLAIMANTS, VERSION};
use pumpit::{
    ClaimableBalance, ClaimableBalanceContract, DataKey, Effect, EscrowError, Flow, Pending,
    Principal, TokenId, Transfer,
};

fn who(b: u8) -> Principal {
    Principal::new(vec![b, b, b])
}

fn token_x() -> TokenId {
    TokenId::new(vec![0x58, 1, 2])
}

fn held(c: &ClaimableBalanceContract) -> Option<ClaimableBalance> {
    c.balance().cloned()
}

fn active_escrow() -> ClaimableBalanceContract {
    let mut c = ClaimableBalanceContract::new(MAX_CLAIMANTS);
    c.init(who(9));
    let p = c.deposit(&who(1), true, token_x(), 100, vec![who(2), who(3)], 5).unwrap();
    assert_eq!(c.commit(p, true), Ok(()));
    c
}

#[test]
fn version_is_fixed() {
    assert_eq!(ClaimableBalanceContract::version(), 1);
    assert_eq!(ClaimableBalanceContract::version(), VERSION);
}

#[test]
fn deposit_then_claims_scenario() {
    let mut c = ClaimableBalanceContract::new(MAX_CLAIMANTS);
    let p = c.deposit(&who(1), true, token_x(), 100, vec![who(2), who(3)], 5).unwrap();
    assert_eq!(
        p.transfer,
        Transfer { token: token_x(), amount: 100, flow: Flow::IntoCustody { from: who(1) } }
    );
    assert!(!c.is_initialized());
    assert_eq!(c.commit(p, true), Ok(()));
    assert!(c.is_initialized());

    assert_eq!(c.claim(&who(2), true, 3), Err(EscrowError::ThresholdNotMet));
    let p = c.claim(&who(2), true, 5).unwrap();
    assert_eq!(
        p,
        Pending {
            transfer: Transfer { token: token_x(), amount: 100, flow: Flow::OutOfCustody { to: who(2) } },
            effect: Effect::Clear,
        }
    );
    assert_eq!(c.commit(p, true), Ok(()));
    assert!(!c.is_initialized());
    assert_eq!(c.claim(&who(3), true, 10), Err(EscrowError::NotInitialized));
}

#[test]
fn too_many_claimants_refused_before_transfer() {
    let c = ClaimableBalanceContract::new(2);
    let r = c.deposit(&who(1), true, token_x(), 100, vec![who(2), who(3), who(4)], 5);
    assert_eq!(r, Err(EscrowError::ClaimantLimitExceeded));
    assert!(!c.is_initialized());

    let c = ClaimableBalanceContract::new(MAX_CLAIMANTS);
    let many: Vec<Principal> = (0..21u8).map(who).collect();
    let r = c.deposit(&who(100), true, token_x(), 100, many, 5);
    assert_eq!(r, Err(EscrowError::ClaimantLimitExceeded));
}

#[test]
fn claimants_up_to_limit_accepted() {
    let mut c = ClaimableBalanceContract::new(2);
    let p = c.deposit(&who(1), true, token_x(), 7, vec![who(2), who(3)], 0).unwrap();
    assert_eq!(c.commit(p, true), Ok(()));
    let b = held(&c).unwrap();
    assert_eq!(b.amount, 7);
    assert_eq!(b.claimants, vec![who(2), who(3)]);
    assert_eq!(b.pumping_level_target, 0);
    assert_eq!(b.token, token_x());
}

#[test]
fn empty_claimants_nobody_can_claim() {
    let mut c = ClaimableBalanceContract::new(MAX_CLAIMANTS);
    let p = c.deposit(&who(1), true, token_x(), 10, vec![], 0).unwrap();
    assert_eq!(c.commit(p, true), Ok(()));
    assert_eq!(c.claim(&who(1), true, 100), Err(EscrowError::UnauthorizedClaimant));
}

#[test]
fn second_deposit_refused() {
    let c = active_escrow();
    let r = c.deposit(&who(4), true, token_x(), 1, vec![who(2)], 1);
    assert_eq!(r, Err(EscrowError::AlreadyInitialized));
    let r = c.deposit(&who(4), false, token_x(), 1, vec![who(2)], 1);
    assert_eq!(r, Err(EscrowError::AuthorizationFailure));
}

#[test]
fn stale_store_refused_by_commit() {
    let mut c = ClaimableBalanceContract::new(MAX_CLAIMANTS);
    let first = c.deposit(&who(1), true, token_x(), 10, vec![who(2)], 1).unwrap();
    let second = c.deposit(&who(4), true, token_x(), 20, vec![who(3)], 1).unwrap();
    assert_eq!(c.commit(first, true), Ok(()));
    assert_eq!(c.commit(second, true), Err(EscrowError::AlreadyInitialized));
    assert_eq!(held(&c).unwrap().amount, 10);
}

#[test]
fn unauthorized_deposit_refused() {
    let c = ClaimableBalanceContract::new(MAX_CLAIMANTS);
    let r = c.deposit(&who(1), false, token_x(), 100, vec![who(2)], 5);
    assert_eq!(r, Err(EscrowError::AuthorizationFailure));
}

#[test]
fn failed_transfer_changes_nothing() {
    let mut c = ClaimableBalanceContract::new(MAX_CLAIMANTS);
    let p = c.deposit(&who(1), true, token_x(), 100, vec![who(2)], 5).unwrap();
    assert_eq!(c.commit(p, false), Err(EscrowError::TransferFailure));
    assert!(!c.is_initialized());
    assert!(!c.has(DataKey::Balance));

    let mut c = active_escrow();
    let p = c.claim(&who(2), true, 6).unwrap();
    assert_eq!(c.commit(p, false), Err(EscrowError::TransferFailure));
    assert!(c.has(DataKey::Init));
    assert_eq!(held(&c).unwrap().amount, 100);
}

#[test]
fn claim_by_stranger_refused_at_any_level() {
    let c = active_escrow();
    assert_eq!(c.claim(&who(7), true, 1000), Err(EscrowError::UnauthorizedClaimant));
    assert_eq!(c.claim(&who(7), true, -1000), Err(EscrowError::UnauthorizedClaimant));
    assert_eq!(c.claim(&who(1), true, 5), Err(EscrowError::UnauthorizedClaimant));
}

#[test]
fn claim_below_target_keeps_balance() {
    let c = active_escrow();
    assert_eq!(c.claim(&who(3), true, 4), Err(EscrowError::ThresholdNotMet));
    assert!(c.is_initialized());
    let b = held(&c).unwrap();
    assert_eq!(b.amount, 100);
    assert_eq!(b.pumping_level_target, 5);
}

#[test]
fn unauthorized_claim_refused() {
    let c = active_escrow();
    assert_eq!(c.claim(&who(2), false, 10), Err(EscrowError::AuthorizationFailure));
}

#[test]
fn claim_without_balance_refused() {
    let c = ClaimableBalanceContract::new(MAX_CLAIMANTS);
    assert_eq!(c.claim(&who(2), true, 10), Err(EscrowError::NotInitialized));
}

#[test]
fn second_claimant_after_first_refused() {
    let mut c = active_escrow();
    let p = c.claim(&who(3), true, i128::MAX).unwrap();
    assert_eq!(p.transfer.flow, Flow::OutOfCustody { to: who(3) });
    assert_eq!(p.transfer.amount, 100);
    assert_eq!(c.commit(p, true), Ok(()));
    assert_eq!(c.claim(&who(2), true, 10), Err(EscrowError::NotInitialized));
    let p = Pending {
        transfer: Transfer { token: token_x(), amount: 100, flow: Flow::OutOfCustody { to: who(2) } },
        effect: Effect::Clear,
    };
    assert_eq!(c.commit(p, true), Err(EscrowError::NotInitialized));
}

#[test]
fn reset_by_admin_forfeits_balance() {
    let mut c = active_escrow();
    assert_eq!(c.reset(&who(9), true), Ok(()));
    assert!(!c.is_initialized());
    assert!(held(&c).is_none());
    assert_eq!(c.admin(), Some(&who(9)));
    let p = c.deposit(&who(1), true, token_x(), 3, vec![who(2)], 1);
    assert!(p.is_ok());
}

#[test]
fn reset_by_others_refused() {
    let mut c = active_escrow();
    assert_eq!(c.reset(&who(2), true), Err(EscrowError::AuthorizationFailure));
    assert_eq!(c.reset(&who(9), false), Err(EscrowError::AuthorizationFailure));
    assert!(c.is_initialized());
    assert_eq!(held(&c).unwrap().amount, 100);
}

#[test]
fn reset_without_admin_refused() {
    let mut c = ClaimableBalanceContract::new(MAX_CLAIMANTS);
    assert_eq!(c.reset(&who(9), true), Err(EscrowError::AdminNotSet));
}

#[test]
fn reset_when_empty_succeeds_for_admin() {
    let mut c = ClaimableBalanceContract::new(MAX_CLAIMANTS);
    c.init(who(9));
    assert_eq!(c.reset(&who(9), true), Ok(()));
    assert!(!c.is_initialized());
}

#[test]
fn init_overwrites_admin() {
    let mut c = ClaimableBalanceContract::new(MAX_CLAIMANTS);
    assert_eq!(c.admin(), None);
    c.init(who(9));
    c.init(who(8));
    assert_eq!(c.admin(), Some(&who(8)));
    assert_eq!(c.reset(&who(9), true), Err(EscrowError::AuthorizationFailure));
    assert_eq!(c.reset(&who(8), true), Ok(()));
}

#[test]
fn upgrade_only_by_admin() {
    let mut c = ClaimableBalanceContract::new(MAX_CLAIMANTS);
    let hash = [7u8; 32];
    assert_eq!(c.upgrade(&who(9), true, hash), Err(EscrowError::AdminNotSet));
    c.init(who(9));
    assert_eq!(c.upgrade(&who(9), true, hash), Ok(hash));
    assert_eq!(c.upgrade(&who(2), true, hash), Err(EscrowError::AuthorizationFailure));
    assert_eq!(c.upgrade(&who(9), false, hash), Err(EscrowError::AuthorizationFailure));
}

#[test]
fn principals_compare_by_bytes() {
    assert!(who(1).same_as(&who(1)));
    assert!(!who(1).same_as(&who(2)));
    assert!(!Principal::new(vec![1]).same_as(&Principal::new(vec![1, 1])));
    assert!(Principal::new(vec![]).same_as(&Principal::new(vec![])));
    assert_eq!(who(4).duplicate(), who(4));
    assert_eq!(token_x().duplicate(), token_x());
}

#[test]
fn membership_follows_identity() {
    let members = vec![who(1), who(2)];
    assert!(pumpit::principal::is_member(&members, &who(2)));
    assert!(!pumpit::principal::is_member(&members, &who(3)));
    assert!(!pumpit::principal::is_member(&vec![], &who(1)));
}

#[test]
fn configured_limit_reported() {
    assert_eq!(ClaimableBalanceContract::new(2).max_claimants(), 2);
    assert_eq!(MAX_CLAIMANTS, 20);
}
