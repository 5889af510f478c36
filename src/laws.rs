//! Properties of the escrow that relate several operations.

use vstd::prelude::*;

use crate::escrow::{
    spec_claim, spec_commit, spec_deposit, spec_reset, BalanceView, EffectView, EscrowError,
    EscrowState, FlowView, PendingView, TransferView,
};

verus! {

/// A deposit that its depositor authorized, into an escrow holding no balance
/// and naming no more claimants than allowed, is accepted; once its transfer
/// into custody succeeds the escrow holds exactly that balance, and every
/// further deposit is refused, as `AlreadyInitialized` when it is authorized.
pub proof fn deposit_activates_then_refuses_another(
    s: EscrowState,
    from: Seq<u8>,
    token: Seq<u8>,
    amount: i128,
    claimants: Seq<Seq<u8>>,
    pumping_level_target: i128,
    next_from: Seq<u8>,
    next_authorized: bool,
    next_token: Seq<u8>,
    next_amount: i128,
    next_claimants: Seq<Seq<u8>>,
    next_target: i128,
)
    requires
        s.balance is None,
        claimants.len() <= s.max_claimants,
    ensures
        ({
            let b = BalanceView { token, amount, claimants, pumping_level_target };
            let p = PendingView {
                transfer: TransferView { token, amount, flow: FlowView::IntoCustody(from) },
                effect: EffectView::Store(b),
            };
            let active = EscrowState { balance: Some(b), ..s };
            &&& spec_deposit(s, from, true, token, amount, claimants, pumping_level_target)
                == Ok::<PendingView, EscrowError>(p)
            &&& spec_commit(s, p, true) == Ok::<EscrowState, EscrowError>(active)
            &&& spec_deposit(
                active,
                next_from,
                next_authorized,
                next_token,
                next_amount,
                next_claimants,
                next_target,
            ) is Err
            &&& next_authorized ==> spec_deposit(
                active,
                next_from,
                true,
                next_token,
                next_amount,
                next_claimants,
                next_target,
            ) == Err::<PendingView, EscrowError>(EscrowError::AlreadyInitialized)
        }),
{
}

/// An authorized claim by one of the claimants presenting a level at least
/// the target is accepted with one transfer, of the whole stored amount of
/// the stored token to the claimant; once it succeeds no balance is held,
/// and every later authorized claim is refused as `NotInitialized`.
pub proof fn claim_pays_out_once(
    s: EscrowState,
    claimant: Seq<u8>,
    pumping_level: i128,
    later: Seq<u8>,
    later_level: i128,
)
    requires
        s.balance is Some,
        s.balance.unwrap().claimants.contains(claimant),
        pumping_level >= s.balance.unwrap().pumping_level_target,
    ensures
        ({
            let b = s.balance.unwrap();
            let p = PendingView {
                transfer: TransferView {
                    token: b.token,
                    amount: b.amount,
                    flow: FlowView::OutOfCustody(claimant),
                },
                effect: EffectView::Clear,
            };
            let cleared = EscrowState { balance: None, ..s };
            &&& spec_claim(s, claimant, true, pumping_level) == Ok::<PendingView, EscrowError>(p)
            &&& spec_commit(s, p, true) == Ok::<EscrowState, EscrowError>(cleared)
            &&& spec_claim(cleared, later, true, later_level) == Err::<PendingView, EscrowError>(
                EscrowError::NotInitialized,
            )
        }),
{
}

/// An authorized claim by one of the claimants presenting a level below the
/// target is refused as `ThresholdNotMet`.
pub proof fn claim_below_target_refused(s: EscrowState, claimant: Seq<u8>, pumping_level: i128)
    requires
        s.balance is Some,
        s.balance.unwrap().claimants.contains(claimant),
        pumping_level < s.balance.unwrap().pumping_level_target,
    ensures
        spec_claim(s, claimant, true, pumping_level) == Err::<PendingView, EscrowError>(
            EscrowError::ThresholdNotMet,
        ),
{
}

/// An authorized claim on a held balance by a principal that is not one of
/// its claimants is refused as `UnauthorizedClaimant`, whatever the level.
pub proof fn claim_by_stranger_refused(s: EscrowState, stranger: Seq<u8>, pumping_level: i128)
    requires
        s.balance is Some,
        !s.balance.unwrap().claimants.contains(stranger),
    ensures
        spec_claim(s, stranger, true, pumping_level) == Err::<PendingView, EscrowError>(
            EscrowError::UnauthorizedClaimant,
        ),
{
}

/// A reset succeeds exactly when the recorded administrator authorized it;
/// it then leaves no balance and keeps everything else, and moves no funds.
pub proof fn reset_only_by_admin(s: EscrowState, caller: Seq<u8>, caller_authorized: bool)
    ensures
        spec_reset(s, caller, caller_authorized) is Ok <==> (s.admin == Some(caller)
            && caller_authorized),
        spec_reset(s, caller, caller_authorized) is Ok ==> spec_reset(s, caller, caller_authorized)
            == Ok::<EscrowState, EscrowError>(EscrowState { balance: None, ..s }),
{
}

} // verus!
